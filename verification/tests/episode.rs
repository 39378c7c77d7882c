//! Work Episodes, Checkpoints and the Candidates built from them.

use serde_json::Value;
use shared_context::json::Json;
use shared_context::{
    AgentCheckpoint, Applicability, ArtifactAction, ArtifactLocator, ArtifactRef,
    AutomaticCandidateStatus, AutomaticContextCandidate, CandidateAnalysis,
    CandidateAnalysisStatus, CandidateAssessmentPath, CandidateAssessmentRelation,
    CandidateBuilderProvenance, CandidateConfidence, CandidateRelationAssessment,
    CandidateSpaceRecommendation, CaptureEvidenceRef, CaptureUnknown, CheckpointClaim,
    CheckpointClaimId, ContextCandidate, ContextId, ContextKind, ContextRevisionDraft,
    ContextRevisionRef, EvidenceSnapshotDraft, EvidenceType, IntentRevisionRange, IntentSnapshot,
    JsonValue, NonLocatingSignalRef, NormalizedBreadcrumbKind, NormalizedWorkObservation,
    RecommendedSpaceRole, RepoRelativePath, RepositoryId, RevisionId, SignalId, SpaceId,
    SubmissionId, TaskId, TaskIntentRevisionId, TaskSessionId, TaskSignalKind, WorkEpisode,
    WorkEpisodeStatus, WorkObservation, WorkObservationId, WorkSourceRef,
};

fn object(name: &str, text: &str) -> JsonValue {
    JsonValue::Object(vec![(name.to_owned(), JsonValue::Text(text.to_owned()))])
}

fn encoded<T: Json>(value: &T) -> String {
    let mut text = String::new();
    value.write_json(&mut text);
    text
}

fn artifact(path: &str) -> ArtifactRef {
    ArtifactRef {
        repository_id: RepositoryId::new(),
        locator: ArtifactLocator::File {
            path: RepoRelativePath::new(path).unwrap(),
        },
    }
}

fn signal(task_session_id: TaskSessionId, task_id: TaskId) -> NonLocatingSignalRef {
    NonLocatingSignalRef {
        signal_id: SignalId::new(),
        task_session_id,
        task_id,
        kind: TaskSignalKind::Diff,
    }
}

fn content() -> ContextRevisionDraft {
    ContextRevisionDraft {
        problem_view: None,
        hints: Vec::new(),
        kind: ContextKind::Decision,
        topic_key: Some("capture/fallback-owner".to_owned()),
        statement: "Keep fallback ownership server-side".to_owned(),
        rationale: "Every client consumes one contract".to_owned(),
        applicability: Applicability {
            domains: vec!["search".to_owned()],
            platforms: vec!["fe".to_owned(), "ios".to_owned()],
            conditions: vec!["v2".to_owned()],
        },
        assumptions: vec!["The response remains versioned".to_owned()],
        recheck_when: vec!["The v3 contract ships".to_owned()],
        relations: Vec::new(),
        evidence: vec![EvidenceSnapshotDraft {
            kind: EvidenceType::ExperimentRecord,
            supports: "The compatibility suite passed".to_owned(),
            content: object("result", "passed"),
            interpretation: "The decision is supported".to_owned(),
            limitations: vec!["Synthetic fixture".to_owned()],
        }],
    }
}

fn unknown(blocking: bool) -> CaptureUnknown {
    CaptureUnknown {
        statement: "Confirm the v3 rollout date".to_owned(),
        blocking,
        recheck_when: vec!["The rollout plan changes".to_owned()],
    }
}

fn confidence(points: u16) -> CandidateConfidence {
    CandidateConfidence {
        basis_points: points,
        rationale: "Derived from normalized Evidence".to_owned(),
    }
}

fn assessment(
    relation: CandidateAssessmentRelation,
    target: Option<ContextRevisionRef>,
    paths: Vec<CandidateAssessmentPath>,
) -> CandidateRelationAssessment {
    CandidateRelationAssessment {
        relation,
        target,
        confidence: confidence(8_000),
        paths,
        reasons: vec!["Typed Candidate review assessment".to_owned()],
    }
}

fn complete_analysis(assessments: Vec<CandidateRelationAssessment>) -> CandidateAnalysis {
    CandidateAnalysis {
        status: CandidateAnalysisStatus::Complete,
        assessments,
        context_tree_oid: Some("tree".to_owned()),
        context_generation: Some(1),
        graph_context_tree_oid: None,
        artifact_generation: None,
        token_budget: 1_000,
        estimated_tokens: 100,
        omitted_target_count: 0,
        error_code: None,
    }
}

fn novel_analysis() -> CandidateAnalysis {
    complete_analysis(vec![assessment(
        CandidateAssessmentRelation::Novel,
        None,
        vec![CandidateAssessmentPath::NoSufficientCandidate],
    )])
}

fn proposed_intent(title: &str) -> IntentSnapshot {
    IntentSnapshot {
        title: title.to_owned(),
        problem: "The Candidate has no suitable existing Space".to_owned(),
        desired_outcome: "Create a governance container after confirmation".to_owned(),
        in_scope: vec!["search fallback".to_owned()],
        out_of_scope: Vec::new(),
        acceptance_conditions: vec!["Candidate can be reviewed".to_owned()],
        domain_terms: vec!["fallback".to_owned()],
    }
}

struct CaptureFixture {
    episode: WorkEpisode,
    checkpoint: AgentCheckpoint,
    observation_id: WorkObservationId,
}

fn capture_fixture() -> CaptureFixture {
    let task_session_id = TaskSessionId::new();
    let task_id = TaskId::new();
    let revisions = IntentRevisionRange::new(vec![
        TaskIntentRevisionId::new(),
        TaskIntentRevisionId::new(),
    ])
    .unwrap();
    let signal = signal(task_session_id, task_id);
    let mut episode =
        WorkEpisode::open(task_session_id, task_id, revisions.clone(), vec![signal]).unwrap();
    let observation = WorkObservation::from_parts(
        task_session_id,
        task_id,
        revisions.last(),
        vec![WorkSourceRef::Artifact(artifact("src/search.ts"))],
        NormalizedWorkObservation::Artifact {
            artifact: artifact("src/search.ts"),
            action: ArtifactAction::Inspected,
            summary: "The client consumes a server-owned fallback".to_owned(),
        },
    )
    .unwrap();
    let observation_id = observation.observation_id;
    episode.add_observation(observation).unwrap();
    let claim = CheckpointClaim::from_parts(
        Some(ContextKind::Decision),
        Some("capture/fallback-owner".to_owned()),
        "Keep fallback ownership server-side",
        "Every client consumes one contract",
        Applicability::default(),
        Vec::new(),
        vec!["The v3 contract ships".to_owned()],
        vec![CaptureEvidenceRef::Observation { observation_id }],
        vec![artifact("src/search.ts")],
        Vec::new(),
    )
    .unwrap();
    let checkpoint =
        AgentCheckpoint::from_parts(&episode, revisions.last(), vec![claim], Vec::new())
            .unwrap();
    episode.close(&checkpoint).unwrap();
    CaptureFixture {
        episode,
        checkpoint,
        observation_id,
    }
}

fn provenance(fixture: &CaptureFixture) -> CandidateBuilderProvenance {
    CandidateBuilderProvenance::from_parts(
        fixture.episode.ownership(),
        vec![fixture.checkpoint.checkpoint_id],
        vec![fixture.observation_id],
    )
    .unwrap()
}

#[test]
fn episode_open_close_and_serialization_keep_only_typed_normalized_inputs() {
    let fixture = capture_fixture();
    assert!(matches!(
        fixture.episode.status,
        WorkEpisodeStatus::Closed {
            final_checkpoint_id
        } if final_checkpoint_id == fixture.checkpoint.checkpoint_id
    ));
    assert_eq!(fixture.episode.intent_revisions.revision_ids.len(), 2);
    assert_eq!(fixture.episode.signal_refs.len(), 1);
    assert_eq!(fixture.episode.observations.len(), 1);

    let mut closed = fixture.episode.clone();
    let extra = WorkObservation::from_parts(
        closed.task_session_id,
        closed.task_id,
        closed.intent_revisions.last(),
        vec![WorkSourceRef::Artifact(artifact("src/extra.ts"))],
        NormalizedWorkObservation::UnresolvedQuestion {
            question: "Does v3 preserve the fallback?".to_owned(),
        },
    )
    .unwrap();
    assert!(closed.add_observation(extra).is_err());
    assert!(closed.close(&fixture.checkpoint).is_err());

    let serialized = encoded(&fixture.episode);
    for forbidden in [
        "task_intent",
        "prompt_raw",
        "transcript",
        "tool_output",
        "raw_payload",
        "space_id",
        "workspace_path",
    ] {
        assert!(!serialized.contains(forbidden), "serialized {forbidden}");
    }
}

#[test]
fn empty_and_cross_owner_episode_checkpoint_inputs_are_rejected() {
    assert!(IntentRevisionRange::new(Vec::new()).is_err());
    let revision = TaskIntentRevisionId::new();
    assert!(IntentRevisionRange::new(vec![revision, revision]).is_err());

    let session = TaskSessionId::new();
    let task = TaskId::new();
    let range = IntentRevisionRange::new(vec![TaskIntentRevisionId::new()]).unwrap();
    let wrong_signal = signal(TaskSessionId::new(), task);
    assert!(WorkEpisode::open(session, task, range.clone(), vec![wrong_signal]).is_err());
    let mut episode = WorkEpisode::open(session, task, range.clone(), Vec::new()).unwrap();
    let cross_task = WorkObservation::from_parts(
        session,
        TaskId::new(),
        range.first(),
        vec![WorkSourceRef::Artifact(artifact("src/cross.ts"))],
        NormalizedWorkObservation::Breadcrumb {
            category: NormalizedBreadcrumbKind::Exploration,
            summary: "Cross Task observation".to_owned(),
        },
    )
    .unwrap();
    assert!(episode.add_observation(cross_task).is_err());
    let outside_revision = WorkObservation::from_parts(
        session,
        task,
        TaskIntentRevisionId::new(),
        vec![WorkSourceRef::Artifact(artifact("src/outside.ts"))],
        NormalizedWorkObservation::UnresolvedQuestion {
            question: "Outside revision?".to_owned(),
        },
    )
    .unwrap();
    assert!(episode.add_observation(outside_revision).is_err());
    let unlisted_signal = signal(session, task);
    let unlisted_signal_source = WorkObservation::from_parts(
        session,
        task,
        range.first(),
        vec![WorkSourceRef::TaskSignal(unlisted_signal)],
        NormalizedWorkObservation::Breadcrumb {
            category: NormalizedBreadcrumbKind::Exploration,
            summary: "Signal is not part of this Episode".to_owned(),
        },
    )
    .unwrap();
    assert!(episode.add_observation(unlisted_signal_source).is_err());

    let empty_checkpoint =
        AgentCheckpoint::from_parts(&episode, range.first(), Vec::new(), Vec::new());
    assert!(empty_checkpoint.is_err());
    let incomplete_validation = WorkObservation::from_parts(
        session,
        task,
        range.first(),
        vec![WorkSourceRef::Artifact(artifact("src/test.ts"))],
        NormalizedWorkObservation::Validation {
            conclusion: "The test passed".to_owned(),
            evidence_refs: Vec::new(),
        },
    );
    assert!(incomplete_validation.is_err());
}

#[test]
fn duplicate_sources_claims_and_recommendations_are_rejected() {
    let fixture = capture_fixture();
    let source = WorkSourceRef::Artifact(artifact("src/duplicate.ts"));
    assert!(
        WorkObservation::from_parts(
            fixture.episode.task_session_id,
            fixture.episode.task_id,
            fixture.episode.intent_revisions.last(),
            vec![source.clone(), source],
            NormalizedWorkObservation::Breadcrumb {
                category: NormalizedBreadcrumbKind::Decision,
                summary: "Duplicate source".to_owned(),
            },
        )
        .is_err()
    );

    let claim = fixture.checkpoint.claims[0].clone();
    let duplicate_claims = AgentCheckpoint::from_parts(
        &fixture.episode,
        fixture.episode.intent_revisions.last(),
        vec![claim.clone(), claim],
        Vec::new(),
    );
    assert!(duplicate_claims.is_err());

    let mut unowned_evidence = fixture.checkpoint.claims[0].clone();
    unowned_evidence.claim_id = CheckpointClaimId::new();
    unowned_evidence.evidence_refs = vec![CaptureEvidenceRef::Observation {
        observation_id: WorkObservationId::new(),
    }];
    assert!(
        AgentCheckpoint::from_parts(
            &fixture.episode,
            fixture.episode.intent_revisions.last(),
            vec![unowned_evidence],
            Vec::new(),
        )
        .is_err()
    );

    assert!(
        CandidateBuilderProvenance::from_parts(
            fixture.episode.ownership(),
            vec![
                fixture.checkpoint.checkpoint_id,
                fixture.checkpoint.checkpoint_id
            ],
            vec![fixture.observation_id],
        )
        .is_err()
    );

    let space = SpaceId::new();
    let recommendation = CandidateSpaceRecommendation::existing(
        space,
        RecommendedSpaceRole::Primary,
        "Primary owner",
        confidence(9_000),
    );
    let candidate = AutomaticContextCandidate::from_builder(
        &fixture.episode,
        &vec![fixture.checkpoint.clone()],
        content(),
        provenance(&fixture),
        novel_analysis(),
        vec![recommendation.clone(), recommendation],
        confidence(9_000),
        Vec::new(),
        AutomaticCandidateStatus::Draft,
    );
    assert!(candidate.is_err());

    let two_primary = AutomaticContextCandidate::from_builder(
        &fixture.episode,
        &vec![fixture.checkpoint.clone()],
        content(),
        provenance(&fixture),
        novel_analysis(),
        vec![
            CandidateSpaceRecommendation::existing(
                SpaceId::new(),
                RecommendedSpaceRole::Primary,
                "First",
                confidence(8_000),
            ),
            CandidateSpaceRecommendation::existing(
                SpaceId::new(),
                RecommendedSpaceRole::Primary,
                "Second",
                confidence(8_000),
            ),
        ],
        confidence(8_000),
        Vec::new(),
        AutomaticCandidateStatus::Draft,
    );
    assert!(two_primary.is_err());
}

#[test]
fn candidate_builder_must_include_the_episode_final_checkpoint() {
    let fixture = capture_fixture();
    let alternate_checkpoint = AgentCheckpoint::from_parts(
        &fixture.episode,
        fixture.episode.intent_revisions.last(),
        fixture.checkpoint.claims.clone(),
        Vec::new(),
    )
    .unwrap();
    let without_final_checkpoint = CandidateBuilderProvenance::from_parts(
        fixture.episode.ownership(),
        vec![alternate_checkpoint.checkpoint_id],
        vec![fixture.observation_id],
    )
    .unwrap();
    assert!(
        AutomaticContextCandidate::from_builder(
            &fixture.episode,
            &vec![alternate_checkpoint.clone()],
            content(),
            without_final_checkpoint,
            novel_analysis(),
            Vec::new(),
            confidence(8_000),
            Vec::new(),
            AutomaticCandidateStatus::ReadyForReview,
        )
        .is_err()
    );
}

#[test]
fn checkpoint_claim_and_candidate_require_complete_evidence() {
    assert!(
        CheckpointClaim::from_parts(
            None,
            None,
            "Claim without Evidence",
            "Cannot be grounded",
            Applicability::default(),
            Vec::new(),
            Vec::new(),
            Vec::new(),
            Vec::new(),
            Vec::new(),
        )
        .is_err()
    );

    let fixture = capture_fixture();
    let mut missing = content();
    missing.evidence.clear();
    assert!(
        AutomaticContextCandidate::from_builder(
            &fixture.episode,
            &vec![fixture.checkpoint.clone()],
            missing,
            provenance(&fixture),
            novel_analysis(),
            Vec::new(),
            confidence(5_000),
            vec![unknown(true)],
            AutomaticCandidateStatus::NeedsEvidence,
        )
        .is_err()
    );
}

#[test]
fn candidate_allows_no_space_multiple_recommendations_and_proposed_new_intent() {
    let fixture = capture_fixture();
    let no_space = AutomaticContextCandidate::from_builder(
        &fixture.episode,
        &vec![fixture.checkpoint.clone()],
        content(),
        provenance(&fixture),
        novel_analysis(),
        Vec::new(),
        confidence(7_000),
        Vec::new(),
        AutomaticCandidateStatus::NeedsSpaceReview,
    )
    .unwrap();
    assert!(no_space.space_recommendations.is_empty());
    assert!(!no_space.is_auto_injection_eligible());
    let serialized: Value = serde_json::from_str(&encoded(&no_space)).unwrap();
    assert!(serialized.get("space_id").is_none());
    assert!(serialized.get("selected_space_id").is_none());

    let recommendations = vec![
        CandidateSpaceRecommendation::existing(
            SpaceId::new(),
            RecommendedSpaceRole::Primary,
            "Best existing owner",
            confidence(9_000),
        ),
        CandidateSpaceRecommendation::existing(
            SpaceId::new(),
            RecommendedSpaceRole::Related,
            "Related contract",
            confidence(7_500),
        ),
        CandidateSpaceRecommendation::proposed_new(
            proposed_intent("New fallback requirement"),
            "No exact Requirement exists",
            confidence(6_000),
        ),
    ];
    let candidate = AutomaticContextCandidate::from_builder(
        &fixture.episode,
        &vec![fixture.checkpoint.clone()],
        content(),
        provenance(&fixture),
        novel_analysis(),
        recommendations,
        confidence(9_000),
        Vec::new(),
        AutomaticCandidateStatus::ReadyForReview,
    )
    .unwrap();
    assert_eq!(candidate.space_recommendations.len(), 3);
    assert!(!candidate.is_auto_injection_eligible());
    let encoded = encoded(&candidate);
    assert!(encoded.contains("proposed_new_space_intent"));
    assert!(!encoded.contains("selected_space"));
    assert!(!encoded.contains("workspace"));
    assert!(!encoded.contains("transcript"));
    assert!(!encoded.contains("tool_output"));
    assert!(!encoded.contains("raw_payload"));
}

#[test]
fn analysis_novelty_exclusivity_and_relationship_coexistence_are_explicit() {
    let target = ContextRevisionRef {
        context_id: ContextId::new(),
        revision_id: RevisionId::new(),
    };
    assert!(novel_analysis().validate().is_ok());
    assert!(CandidateAnalysis::default().validate().is_ok());
    assert!(
        complete_analysis(vec![
            assessment(
                CandidateAssessmentRelation::Novel,
                None,
                vec![CandidateAssessmentPath::NoSufficientCandidate],
            ),
            assessment(
                CandidateAssessmentRelation::Supports,
                Some(target),
                vec![CandidateAssessmentPath::StatementEquality],
            ),
        ])
        .validate()
        .is_err()
    );
    assert!(
        complete_analysis(vec![assessment(
            CandidateAssessmentRelation::ExactDuplicate,
            Some(target),
            vec![CandidateAssessmentPath::StatementEquality],
        )])
        .validate()
        .is_err()
    );
    assert!(
        complete_analysis(vec![
            assessment(
                CandidateAssessmentRelation::Supports,
                Some(target),
                vec![CandidateAssessmentPath::StatementEquality],
            ),
            assessment(
                CandidateAssessmentRelation::Revises,
                Some(target),
                vec![CandidateAssessmentPath::ExplicitRelatedContext],
            ),
        ])
        .validate()
        .is_err()
    );
    assert!(
        complete_analysis(vec![assessment(
            CandidateAssessmentRelation::Supports,
            Some(target),
            vec![CandidateAssessmentPath::StatementEquality],
        )])
        .validate()
        .is_ok()
    );
}

#[test]
fn automatic_candidate_source_ownership_and_status_are_verifiable() {
    let fixture = capture_fixture();
    let mut unkeyed_decision = content();
    unkeyed_decision.topic_key = None;
    assert!(unkeyed_decision.validate().is_ok());
    let persisted =
        ContextCandidate::from_episode(SubmissionId::new(), &fixture.episode, unkeyed_decision)
            .unwrap();
    let restored = AutomaticContextCandidate::from_persisted_candidate(
        &persisted,
        &fixture.episode,
        &vec![fixture.checkpoint.clone()],
        provenance(&fixture),
        novel_analysis(),
        Vec::new(),
        confidence(7_000),
        Vec::new(),
        AutomaticCandidateStatus::Draft,
    )
    .unwrap();
    assert_eq!(restored.candidate_id, persisted.candidate_id);

    let mut candidate = AutomaticContextCandidate::from_builder(
        &fixture.episode,
        &vec![fixture.checkpoint.clone()],
        content(),
        provenance(&fixture),
        novel_analysis(),
        Vec::new(),
        confidence(9_000),
        Vec::new(),
        AutomaticCandidateStatus::ReadyForReview,
    )
    .unwrap();
    candidate.source_episode.task_id = TaskId::new();
    assert!(
        candidate
            .validate_against_sources(
                &fixture.episode,
                &vec![fixture.checkpoint.clone()]
            )
            .is_err()
    );

    let mut blocking = AutomaticContextCandidate::from_builder(
        &fixture.episode,
        &vec![fixture.checkpoint.clone()],
        content(),
        provenance(&fixture),
        novel_analysis(),
        Vec::new(),
        confidence(9_000),
        vec![unknown(false)],
        AutomaticCandidateStatus::Draft,
    )
    .unwrap();
    blocking.status = AutomaticCandidateStatus::ReadyForReview;
    blocking.unknowns[0].blocking = true;
    assert!(
        blocking
            .validate_against_sources(
                &fixture.episode,
                &vec![fixture.checkpoint.clone()]
            )
            .is_err()
    );
    blocking.unknowns[0].blocking = false;
    blocking.confidence.basis_points = 0;
    assert!(
        blocking
            .validate_against_sources(
                &fixture.episode,
                &vec![fixture.checkpoint.clone()]
            )
            .is_err()
    );
}

#[test]
fn legacy_git_candidate_remains_unowned_and_noninjectable() {
    let fixture = capture_fixture();
    let candidate =
        ContextCandidate::from_episode(SubmissionId::new(), &fixture.episode, content())
            .unwrap();
    assert!(candidate.validate_against_episode(&fixture.episode).is_ok());
    assert!(!candidate.is_auto_injection_eligible());
    let encoded: Value = serde_json::from_str(&encoded(&candidate)).unwrap();
    assert!(encoded.get("space_id").is_none());
}
