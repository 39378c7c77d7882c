//! Which accepted Contexts a file brings to attention.

use std::collections::BTreeSet;
use std::time::{Duration, Instant};

use shared_context::storage::{check_rebuild, sql_error};
use shared_context::focus::finish_lookup;
use shared_context::{
    Applicability, ArtifactFocusLookup, ArtifactFocusOutcome, ArtifactFocusReader, ArtifactKey,
    ArtifactKind, ArtifactLocator, ArtifactObservation, ArtifactSourceState, ContextId,
    ContextKind, ContextRevision, EngineeringArtifact, EngineeringProjection,
    EngineeringReference, EngineeringReferenceResolver, ErrorKind, EvidenceId, EvidenceSnapshot,
    EvidenceType, FocusRow, GraphContextSafety, GraphContextSafetyBlocker, GraphContextSnapshot,
    GraphContextStatus, JsonValue, ProjectedEngineeringReference, ReferenceId, ReferenceRelation,
    RepoRelativePath, RepositoryId, RepositoryIdentity, RepositoryScanOutcome,
    RepositorySnapshot, Result, RevisionId, ScanCoverage, SnapshotArtifact, SnapshotSourcePolicy,
    SortedSet, SourceLanguage, SpaceId, MAX_ARTIFACT_FOCUS_HITS,
};

fn object(name: &str, text: &str) -> JsonValue {
    JsonValue::Object(vec![(name.to_owned(), JsonValue::Text(text.to_owned()))])
}

const STATEMENT: &str =
    "The default comment bottom bar must survive an absent vertical-domain service";

fn repository() -> RepositoryIdentity {
    RepositoryIdentity {
        repository_id: RepositoryId::new(),
        canonical_name: "focus".to_owned(),
    }
}

fn path(value: &str) -> RepoRelativePath {
    RepoRelativePath::new(value).unwrap()
}

fn locator(value: &str) -> ArtifactLocator {
    ArtifactLocator::File { path: path(value) }
}

fn artifact(repository: &RepositoryIdentity, locator: ArtifactLocator) -> SnapshotArtifact {
    let display_name = locator.path().as_str().to_owned();
    let artifact = EngineeringArtifact {
        repository: repository.clone(),
        artifact_key: ArtifactKey::derive(repository.repository_id.clone(), locator).unwrap(),
        display_name,
    };
    artifact.validate().unwrap();
    SnapshotArtifact {
        artifact,
        snapshot_generation: "snap_focus".to_owned(),
        source_policy: SnapshotSourcePolicy::PlannedPathsWithSafeTrackedModifications,
        observations: vec![ArtifactObservation {
            path: "src/PoiEntranceAssem.kt".to_owned(),
            line: Some(1),
            language: SourceLanguage::Kotlin,
            source_state: ArtifactSourceState::TrackedHead,
        }],
    }
}

fn snapshot(
    repository: &RepositoryIdentity,
    artifacts: Vec<SnapshotArtifact>,
) -> RepositoryScanOutcome {
    let planned_paths = artifacts
        .iter()
        .map(|artifact| artifact.artifact.artifact_key.locator().path().clone())
        .collect::<BTreeSet<_>>()
        .into_iter()
        .collect();
    RepositoryScanOutcome::Available(RepositorySnapshot {
        repository_id: repository.repository_id.clone(),
        source_policy: SnapshotSourcePolicy::PlannedPathsWithSafeTrackedModifications,
        policy_version: "planned-paths-plus-safe-tracked-modifications-v2",
        head_tree_oid: "tree-focus".to_owned(),
        generation: "snap_focus".to_owned(),
        planned_paths,
        coverage: ScanCoverage::Complete,
        artifacts,
        scanned_files: 1,
        scanned_bytes: 1,
        skipped_files: Vec::new(),
    })
}

fn reference(
    repository: &RepositoryIdentity,
    locator: ArtifactLocator,
) -> ProjectedEngineeringReference {
    ProjectedEngineeringReference {
        context_id: ContextId::new(),
        revision_id: RevisionId::new(),
        reference: EngineeringReference {
            reference_id: ReferenceId::new(),
            repository_id: repository.repository_id.clone(),
            artifact_kind: ArtifactKind::File,
            relation: ReferenceRelation::Implements,
            locator,
            supports: "the exact file locator was directly inspected".to_owned(),
            limitations: vec!["moves and renames are not recovered".to_owned()],
        },
    }
}

fn context(reference: &ProjectedEngineeringReference, accepted: bool) -> GraphContextSnapshot {
    let (status, safety) = if accepted {
        (
            GraphContextStatus::Accepted,
            GraphContextSafety {
                automatic_injection_eligible: true,
                blockers: SortedSet::new(),
            },
        )
    } else {
        (
            GraphContextStatus::Candidate,
            GraphContextSafety {
                automatic_injection_eligible: false,
                blockers: SortedSet::of(GraphContextSafetyBlocker::NotAccepted),
            },
        )
    };
    GraphContextSnapshot {
        space_id: SpaceId::new(),
        space_title: "Artifact focus fixture".to_owned(),
        context_id: reference.context_id,
        revision: ContextRevision {
            problem_view: None,
            hints: Vec::new(),
            revision_id: reference.revision_id,
            parent_revision_ids: Vec::new(),
            kind: ContextKind::Decision,
            topic_key: Some("focus/fixture".to_owned()),
            statement: STATEMENT.to_owned(),
            rationale: "The fixture exercises one immutable Context".to_owned(),
            applicability: Applicability::default(),
            assumptions: Vec::new(),
            recheck_when: vec!["the exact locator changes".to_owned()],
            relations: Vec::new(),
            evidence: vec![EvidenceSnapshot {
                evidence_id: EvidenceId::new(),
                kind: EvidenceType::ExperimentRecord,
                supports: "The fixture passed".to_owned(),
                content: object("result", "passed"),
                interpretation: "The Context is complete".to_owned(),
                limitations: vec!["synthetic fixture".to_owned()],
            }],
        },
        status,
        evidence_completeness: 1_000,
        safety,
        relations: Vec::new(),
    }
}

struct Fixture {
    reader: ArtifactFocusReader,
    repository: RepositoryIdentity,
    context_id: ContextId,
    projection: EngineeringProjection,
}

impl Fixture {
    /// The rows that the stored projection holds for one File Artifact.
    fn accepted_contexts_for_file(
        &self,
        repository_id: &RepositoryId,
        path: &RepoRelativePath,
        limit: usize,
        outcome: ArtifactFocusOutcome,
    ) -> Result<ArtifactFocusLookup> {
        let digest = self.reader.file_digest(repository_id, path)?;
        let mut rows = Vec::new();
        for reference in &self.projection.references {
            let Some(association) = &reference.association else {
                continue;
            };
            if association.artifact_key.digest() != digest {
                continue;
            }
            for context in &self.projection.contexts {
                if context.context_id == reference.context_id
                    && context.revision.revision_id == reference.revision_id
                {
                    rows.push(FocusRow {
                        context_id: context.context_id.to_string(),
                        status: context.status,
                        automatic_injection_eligible: context.safety.automatic_injection_eligible,
                        statement: Some(context.revision.statement.clone()),
                    });
                }
            }
        }
        Ok(finish_lookup(outcome, &rows, limit))
    }
}

fn build(accepted: bool) -> Fixture {
    let root = "/home/someone/.shared-context";
    let repository = repository();
    let reference = reference(&repository, locator("src/PoiEntranceAssem.kt"));
    let context_id = reference.context_id;
    let contexts = vec![context(&reference, accepted)];
    let projection = EngineeringReferenceResolver
        .resolve(
            &vec![reference.clone()],
            &vec![snapshot(
                &repository,
                vec![artifact(&repository, locator("src/PoiEntranceAssem.kt"))],
            )],
            &contexts,
        )
        .unwrap();
    check_rebuild(&projection, None).unwrap();
    Fixture {
        reader: ArtifactFocusReader::new(root),
        repository,
        context_id,
        projection,
    }
}

#[test]
fn exact_file_artifact_returns_only_accepted_injection_eligible_context() {
    let fixture = build(true);
    let lookup = fixture
        .accepted_contexts_for_file(
            &fixture.repository.repository_id,
            &path("src/PoiEntranceAssem.kt"),
            MAX_ARTIFACT_FOCUS_HITS,
            ArtifactFocusOutcome::Completed,
        )
        .unwrap();
    assert_eq!(lookup.outcome, ArtifactFocusOutcome::Completed);
    assert_eq!(lookup.hits.len(), 1);
    assert_eq!(lookup.hits[0].context_id, fixture.context_id.to_string());
    assert_eq!(lookup.hits[0].statement, STATEMENT);
}

#[test]
fn unaccepted_context_missing_path_and_foreign_repository_all_return_no_hit() {
    let candidate = build(false);
    let candidate_lookup = candidate
        .accepted_contexts_for_file(
            &candidate.repository.repository_id,
            &path("src/PoiEntranceAssem.kt"),
            MAX_ARTIFACT_FOCUS_HITS,
            ArtifactFocusOutcome::Completed,
        )
        .unwrap();
    assert_eq!(candidate_lookup.outcome, ArtifactFocusOutcome::Completed);
    assert!(candidate_lookup.hits.is_empty());

    let accepted = build(true);
    let missing_path_lookup = accepted
        .accepted_contexts_for_file(
            &accepted.repository.repository_id,
            &path("src/Unrelated.kt"),
            MAX_ARTIFACT_FOCUS_HITS,
            ArtifactFocusOutcome::Completed,
        )
        .unwrap();
    assert_eq!(missing_path_lookup.outcome, ArtifactFocusOutcome::Completed);
    assert!(missing_path_lookup.hits.is_empty());
    let foreign_repository_lookup = accepted
        .accepted_contexts_for_file(
            &RepositoryId::new(),
            &path("src/PoiEntranceAssem.kt"),
            MAX_ARTIFACT_FOCUS_HITS,
            ArtifactFocusOutcome::Completed,
        )
        .unwrap();
    assert_eq!(
        foreign_repository_lookup.outcome,
        ArtifactFocusOutcome::Completed
    );
    assert!(foreign_repository_lookup.hits.is_empty());
}

#[test]
fn absent_projection_database_is_no_hit_instead_of_an_error() {
    let fixture = build(true);
    let lookup = fixture
        .accepted_contexts_for_file(
            &RepositoryId::new(),
            &path("src/PoiEntranceAssem.kt"),
            MAX_ARTIFACT_FOCUS_HITS,
            ArtifactFocusOutcome::ProjectionAbsent,
        )
        .unwrap();
    assert_eq!(lookup.outcome, ArtifactFocusOutcome::ProjectionAbsent);
    assert!(lookup.hits.is_empty());
}

#[test]
fn exhausted_query_budget_degrades_to_no_hit() {
    let fixture = build(true);
    let lookup = fixture
        .accepted_contexts_for_file(
            &fixture.repository.repository_id,
            &path("src/PoiEntranceAssem.kt"),
            MAX_ARTIFACT_FOCUS_HITS,
            ArtifactFocusOutcome::BudgetExceeded,
        )
        .unwrap();
    assert_eq!(lookup.outcome, ArtifactFocusOutcome::BudgetExceeded);
    assert!(lookup.hits.is_empty());
}

#[test]
fn read_only_lookup_meets_the_hook_hot_path_budget() {
    let fixture = build(true);
    let mut samples = Vec::with_capacity(100);
    for _ in 0..100 {
        let started = Instant::now();
        let lookup = fixture
            .accepted_contexts_for_file(
                &fixture.repository.repository_id,
                &path("src/PoiEntranceAssem.kt"),
                MAX_ARTIFACT_FOCUS_HITS,
                ArtifactFocusOutcome::Completed,
            )
            .unwrap();
        samples.push(started.elapsed());
        assert_eq!(lookup.hits.len(), 1);
    }
    samples.sort_unstable();
    let p99 = samples[98];
    println!("read-only Artifact focus lookup p99 = {p99:?}");
    assert!(
        p99 <= Duration::from_millis(200),
        "read-only Artifact focus lookup p99 {p99:?} exceeds the 200ms Hook budget"
    );
}

#[test]
fn the_reader_is_bound_below_its_root() {
    let reader = ArtifactFocusReader::new("/home/someone/.shared-context");
    assert_eq!(
        reader.database_path(),
        "/home/someone/.shared-context/state/engineering.sqlite"
    );
}

#[test]
fn lookups_are_bounded_and_name_a_context_once() {
    let row = |name: &str, eligible: bool| FocusRow {
        context_id: name.to_owned(),
        status: GraphContextStatus::Accepted,
        automatic_injection_eligible: eligible,
        statement: Some(format!("{name} holds")),
    };
    let rows = vec![
        row("a", true),
        row("b", false),
        row("a", true),
        row("c", true),
        row("d", true),
        row("e", true),
    ];
    let lookup = finish_lookup(ArtifactFocusOutcome::Completed, &rows, MAX_ARTIFACT_FOCUS_HITS);
    let names = lookup.hits.iter().map(|hit| hit.context_id.as_str()).collect::<Vec<_>>();
    assert_eq!(names, ["a", "c", "d"]);
    assert!(finish_lookup(ArtifactFocusOutcome::Completed, &rows, 0).hits.is_empty());
}

#[test]
fn sql_error_classifies_busy_and_locked_as_maintenance_busy() {
    const SQLITE_BUSY: i32 = 5;
    const SQLITE_LOCKED: i32 = 6;
    const SQLITE_IOERR: i32 = 10;

    for code in [SQLITE_BUSY, SQLITE_LOCKED] {
        let mapped = sql_error("probe", Some(code), "database is locked");
        assert_eq!(mapped.kind(), ErrorKind::MaintenanceBusy);
    }

    let mapped = sql_error("probe", Some(SQLITE_IOERR), "disk I/O error");
    assert_eq!(mapped.kind(), ErrorKind::Io);
    assert_eq!(mapped.message(), "probe: disk I/O error");
}
