//! The reduction of events to one projection.

use shared_context::order::Ordered;
use shared_context::value::Value;
use shared_context::{
    build_graph_context_snapshots, conflict_candidates, reduce, Applicability, ArtifactKind,
    ArtifactLocator, AutoInjectionBlocker, AutoInjectionEligibility, ConflictParticipant,
    ContextGovernanceStatus, ContextId, ContextKind, ContextProjection, ContextRevision,
    ContextRevisionDraft, ContextSpaceProjection, DomainProjection, EngineeringReference, EventId,
    EvidenceSnapshotDraft, EvidenceType, GraphContextStatus, IntentProjection, IntentRevision,
    IntentSnapshot, JsonValue, ProjectedEngineeringReference, Publication, PublicationAction,
    PublicationDraft, PublicationId, ReducerDiagnosticCode, ReducerEvent, ReducerPayload,
    ReferenceId, ReferenceRelation, RepoRelativePath, RepositoryId, Review, ReviewDraft,
    ReviewSummary, ReviewVerdict, RevisionId, RevisionLifecycle, RevisionProjection,
    SemanticConflict, SemanticConflictDraft, SortedMap, SortedSet, SpaceId,
};

fn one<K: Ordered, V: Value>(key: K, value: V) -> SortedMap<K, V> {
    let mut map = SortedMap::new();
    map.insert(key, value);
    map
}

fn object(name: &str, text: &str) -> JsonValue {
    JsonValue::Object(vec![(name.to_owned(), JsonValue::Text(text.to_owned()))])
}

fn accepted_context(topic_key: Option<&str>, statement: &str) -> ContextProjection {
    let revision = ContextRevision::from_draft(
        Vec::new(),
        ContextRevisionDraft {
            kind: ContextKind::Decision,
            topic_key: topic_key.map(ToOwned::to_owned),
            problem_view: None,
            statement: statement.to_owned(),
            rationale: "the reducer only needs valid content".to_owned(),
            applicability: Applicability {
                domains: vec!["mcp".to_owned()],
                platforms: Vec::new(),
                conditions: Vec::new(),
            },
            assumptions: Vec::new(),
            recheck_when: Vec::new(),
            hints: Vec::new(),
            relations: Vec::new(),
            evidence: vec![EvidenceSnapshotDraft {
                kind: EvidenceType::ExperimentRecord,
                supports: statement.to_owned(),
                content: object("actual", "observed"),
                interpretation: "the fixture holds".to_owned(),
                limitations: Vec::new(),
            }],
        },
    )
    .unwrap();
    let revision_id = revision.revision_id;
    let publication_id = PublicationId::new();
    ContextProjection {
        context_id: ContextId::new(),
        revisions: one(
            revision_id,
            RevisionProjection {
                revision,
                is_head: true,
                review_summary: ReviewSummary::Approved,
                review_event_ids: SortedSet::new(),
                lifecycle: RevisionLifecycle::Accepted,
            },
        ),
        revision_heads: SortedSet::of(revision_id),
        reviews: SortedMap::new(),
        publications: SortedMap::new(),
        publication_heads: SortedSet::new(),
        governance: ContextGovernanceStatus::Accepted {
            publication_id,
            revision_id,
        },
        auto_injection: AutoInjectionEligibility {
            eligible: true,
            blockers: SortedSet::new(),
        },
    }
}

fn one_space(contexts: Vec<ContextProjection>) -> SortedMap<SpaceId, ContextSpaceProjection> {
    let space_id = SpaceId::new();
    let mut by_id = SortedMap::new();
    for context in contexts {
        by_id.insert(context.context_id, context);
    }
    one(
        space_id,
        ContextSpaceProjection {
            space_id,
            intent: IntentProjection {
                revisions: SortedMap::new(),
                heads: SortedSet::new(),
            },
            contexts: by_id,
        },
    )
}

/// Two accepted Decisions under one topic key are one pair to settle.
#[test]
fn same_topic_key_and_overlapping_scope_is_one_duplicate_pair() {
    let spaces = one_space(vec![
        accepted_context(
            Some("decision:text:productanchorassem"),
            "ProductAnchorAssem returns before the live entry resolves",
        ),
        accepted_context(
            Some("decision:text:productanchorassem"),
            "ProductAnchorAssem 在直播入口解析前提前返回",
        ),
    ]);
    let candidates = conflict_candidates(&spaces);
    assert_eq!(candidates.len(), 1);
    assert_eq!(candidates[0].topic_key, "decision:text:productanchorassem");
    assert_eq!(candidates[0].participants.len(), 2);
}

/// An absent topic key is not a topic two Contexts share.
#[test]
fn an_absent_topic_key_never_pairs() {
    let spaces = one_space(vec![
        accepted_context(
            None,
            "ProductAnchorAssem returns before the live entry resolves",
        ),
        accepted_context(None, "ProductAnchorAssem 在直播入口解析前提前返回"),
    ]);
    assert!(conflict_candidates(&spaces).is_empty());
}

fn intent(title: &str) -> IntentSnapshot {
    IntentSnapshot {
        title: title.to_owned(),
        problem: "Clients disagree".to_owned(),
        desired_outcome: "One owner".to_owned(),
        in_scope: vec!["search".to_owned()],
        out_of_scope: Vec::new(),
        acceptance_conditions: vec!["One owner is named".to_owned()],
        domain_terms: Vec::new(),
    }
}

fn draft(statement: &str) -> ContextRevisionDraft {
    ContextRevisionDraft {
        kind: ContextKind::Decision,
        topic_key: Some("decision:owner".to_owned()),
        problem_view: None,
        statement: statement.to_owned(),
        rationale: "One contract for every client".to_owned(),
        applicability: Applicability {
            domains: vec!["search".to_owned()],
            platforms: Vec::new(),
            conditions: Vec::new(),
        },
        assumptions: Vec::new(),
        recheck_when: vec!["The contract changes".to_owned()],
        hints: Vec::new(),
        relations: Vec::new(),
        evidence: vec![EvidenceSnapshotDraft {
            kind: EvidenceType::ExperimentRecord,
            supports: statement.to_owned(),
            content: object("actual", "observed"),
            interpretation: "the fixture holds".to_owned(),
            limitations: vec!["synthetic fixture".to_owned()],
        }],
    }
}

fn event(payload: ReducerPayload) -> ReducerEvent {
    ReducerEvent { event_id: EventId::new(), payload }
}

fn space_created(space_id: SpaceId) -> ReducerEvent {
    event(ReducerPayload::SpaceCreated {
        space_id,
        intent_revision: IntentRevision {
            revision_id: RevisionId::new(),
            parent_revision_ids: Vec::new(),
            intent: intent("Search"),
            provisional: false,
        },
    })
}

fn revision_added(
    space_id: SpaceId,
    context_id: ContextId,
    parents: Vec<RevisionId>,
    statement: &str,
) -> (RevisionId, ReducerEvent) {
    let revision = ContextRevision::from_draft(parents, draft(statement)).unwrap();
    (
        revision.revision_id,
        event(ReducerPayload::ContextRevisionAdded { space_id, context_id, revision }),
    )
}

/// A Space with one Context, its approving Review and its Publication.
struct Published {
    space_id: SpaceId,
    context_id: ContextId,
    revision_id: RevisionId,
    publication_id: PublicationId,
    events: Vec<ReducerEvent>,
}

fn published(space_id: SpaceId, statement: &str) -> Published {
    let context_id = ContextId::new();
    let (revision_id, added) = revision_added(space_id, context_id, Vec::new(), statement);
    let reviewed = event(ReducerPayload::ContextReviewed {
        space_id,
        context_id,
        review: Review::from_draft(ReviewDraft {
            revision_id,
            verdict: ReviewVerdict::Approve,
            reason: "The evidence holds".to_owned(),
        })
        .unwrap(),
    });
    let publication = Publication::from_draft(PublicationDraft {
        previous_publication_ids: Vec::new(),
        action: PublicationAction::Publish,
        revision_id,
        review_event_ids: vec![reviewed.event_id],
    })
    .unwrap();
    let publication_id = publication.publication_id;
    let changed = event(ReducerPayload::ContextPublicationChanged {
        space_id,
        context_id,
        publication,
    });
    Published {
        space_id,
        context_id,
        revision_id,
        publication_id,
        events: vec![added, reviewed, changed],
    }
}

fn context_of(
    projection: &DomainProjection,
    space_id: SpaceId,
    context_id: ContextId,
) -> &ContextProjection {
    projection.spaces.get(&space_id).unwrap().contexts.get(&context_id).unwrap()
}

#[test]
fn nothing_reduces_to_nothing() {
    assert_eq!(reduce(&Vec::new()), DomainProjection::default());
}

#[test]
fn published_contexts_are_accepted_and_eligible() {
    let space_id = SpaceId::new();
    let mut events = vec![space_created(space_id)];
    let published = published(space_id, "The server owns the fallback");
    events.extend(published.events.clone());
    let projection = reduce(&events);
    assert!(projection.diagnostics.is_empty(), "{:?}", projection.diagnostics);
    assert!(projection.quarantined_event_ids.is_empty());
    let context = context_of(&projection, space_id, published.context_id);
    assert_eq!(
        context.governance,
        ContextGovernanceStatus::Accepted {
            publication_id: published.publication_id,
            revision_id: published.revision_id,
        }
    );
    assert!(context.auto_injection.eligible);
    assert!(context.auto_injection.blockers.is_empty());
    let revision = context.revisions.get(&published.revision_id).unwrap();
    assert!(revision.is_head);
    assert_eq!(revision.review_summary, ReviewSummary::Approved);
    assert_eq!(revision.lifecycle, RevisionLifecycle::Accepted);
}

/// Every order of the same events, and repeating an event, gives the same projection.
#[test]
fn reduction_ignores_order_and_repetition() {
    let space_id = SpaceId::new();
    let mut events = vec![space_created(space_id)];
    events.extend(published(space_id, "The server owns the fallback").events);
    events.extend(published(space_id, "The client owns the fallback").events);
    let expected = reduce(&events);
    assert_eq!(expected.semantic_conflict_candidates.len(), 1);
    let mut order = events.clone();
    for _ in 0..order.len() {
        order.rotate_left(1);
        assert_eq!(reduce(&order), expected);
    }
    order.reverse();
    assert_eq!(reduce(&order), expected);
}

#[test]
fn duplicate_event_ids_are_quarantined() {
    let space_id = SpaceId::new();
    let mut events = vec![space_created(space_id)];
    let published = published(space_id, "The server owns the fallback");
    let mut clash = space_created(SpaceId::new());
    clash.event_id = published.events[0].event_id;
    events.extend(published.events);
    events.push(clash);
    let projection = reduce(&events);
    assert!(projection.quarantined_event_ids.contains(&events[1].event_id));
    assert!(projection
        .diagnostics
        .iter()
        .any(|diagnostic| diagnostic.code == ReducerDiagnosticCode::DuplicateEventId));
}

#[test]
fn contexts_of_a_missing_space_are_quarantined() {
    let published = published(SpaceId::new(), "The server owns the fallback");
    let projection = reduce(&published.events);
    assert_eq!(projection.spaces.len(), 0);
    assert!(projection.quarantined_event_ids.contains(&published.events[0].event_id));
    assert!(projection
        .diagnostics
        .iter()
        .any(|diagnostic| diagnostic.code == ReducerDiagnosticCode::MissingSpace));
}

#[test]
fn two_live_publications_are_a_governance_conflict() {
    let space_id = SpaceId::new();
    let mut events = vec![space_created(space_id)];
    let first = published(space_id, "The server owns the fallback");
    events.extend(first.events.clone());
    let second = Publication::from_draft(PublicationDraft {
        previous_publication_ids: Vec::new(),
        action: PublicationAction::Publish,
        revision_id: first.revision_id,
        review_event_ids: vec![first.events[1].event_id],
    })
    .unwrap();
    events.push(event(ReducerPayload::ContextPublicationChanged {
        space_id,
        context_id: first.context_id,
        publication: second,
    }));
    let projection = reduce(&events);
    let context = context_of(&projection, space_id, first.context_id);
    assert!(matches!(
        context.governance,
        ContextGovernanceStatus::GovernanceConflict { .. }
    ));
    assert!(!context.auto_injection.eligible);
    assert!(context.auto_injection.blockers.contains(&AutoInjectionBlocker::GovernanceConflict));
}

#[test]
fn several_revision_heads_remain_visible() {
    let space_id = SpaceId::new();
    let context_id = ContextId::new();
    let (root, first) = revision_added(space_id, context_id, Vec::new(), "Root");
    let (left, second) = revision_added(space_id, context_id, vec![root], "Left");
    let (right, third) = revision_added(space_id, context_id, vec![root], "Right");
    let projection = reduce(&vec![space_created(space_id), first, second, third]);
    let context = context_of(&projection, space_id, context_id);
    assert_eq!(context.revision_heads.len(), 2);
    assert!(context.revision_heads.contains(&left));
    assert!(context.revision_heads.contains(&right));
    assert!(!context.revisions.get(&root).unwrap().is_head);
    assert_eq!(context.governance, ContextGovernanceStatus::Unpublished);
    assert!(context.auto_injection.blockers.contains(&AutoInjectionBlocker::NotAccepted));
}

#[test]
fn unknown_parents_leave_a_revision_out() {
    let space_id = SpaceId::new();
    let context_id = ContextId::new();
    let (orphan, added) =
        revision_added(space_id, context_id, vec![RevisionId::new()], "Orphan");
    let projection = reduce(&vec![space_created(space_id), added.clone()]);
    assert!(projection.quarantined_event_ids.contains(&added.event_id));
    assert!(projection
        .diagnostics
        .iter()
        .any(|diagnostic| diagnostic.code == ReducerDiagnosticCode::InvalidRevisionReference));
    let space = projection.spaces.get(&space_id).unwrap();
    assert!(space
        .contexts
        .get(&context_id)
        .map_or(true, |context| !context.revisions.contains_key(&orphan)));
}

#[test]
fn open_conflicts_block_injection_until_they_are_resolved() {
    let space_id = SpaceId::new();
    let mut events = vec![space_created(space_id)];
    let first = published(space_id, "The server owns the fallback");
    let second = published(space_id, "The client owns the fallback");
    events.extend(first.events.clone());
    events.extend(second.events.clone());
    let participant = |published: &Published| ConflictParticipant {
        context_id: published.context_id,
        revision_id: published.revision_id,
        publication_id: published.publication_id,
    };
    let mut participants = vec![participant(&first), participant(&second)];
    participants.sort();
    let conflict = SemanticConflict::from_draft(SemanticConflictDraft {
        participants,
        reason: "Both own it".to_owned(),
        applicability: Applicability {
            domains: vec!["search".to_owned()],
            platforms: Vec::new(),
            conditions: Vec::new(),
        },
    })
    .unwrap();
    let conflict_id = conflict.conflict_id;
    assert_eq!(first.space_id, second.space_id);
    events.push(event(ReducerPayload::SemanticConflictOpened { space_id, conflict }));
    let projection = reduce(&events);
    assert!(projection.diagnostics.is_empty(), "{:?}", projection.diagnostics);
    for published in [&first, &second] {
        let context = context_of(&projection, space_id, published.context_id);
        assert!(!context.auto_injection.eligible);
        assert!(context
            .auto_injection
            .blockers
            .contains(&AutoInjectionBlocker::UnresolvedSemanticConflict(conflict_id)));
    }
}

#[test]
fn references_to_live_revisions_reach_the_graph() {
    let space_id = SpaceId::new();
    let mut events = vec![space_created(space_id)];
    let published = published(space_id, "The server owns the fallback");
    events.extend(published.events.clone());
    let reference = EngineeringReference {
        reference_id: ReferenceId::new(),
        repository_id: RepositoryId::new(),
        artifact_kind: ArtifactKind::File,
        relation: ReferenceRelation::Implements,
        locator: ArtifactLocator::File { path: RepoRelativePath::new("src/lib.rs").unwrap() },
        supports: "the implementation lives in this file".to_owned(),
        limitations: vec!["the file may move".to_owned()],
    };
    events.push(event(ReducerPayload::EngineeringReferenceRecorded {
        context_id: published.context_id,
        revision_id: published.revision_id,
        reference: reference.clone(),
    }));
    let projection = reduce(&events);
    assert_eq!(projection.engineering_references.len(), 1);
    let projected = vec![ProjectedEngineeringReference {
        context_id: published.context_id,
        revision_id: published.revision_id,
        reference,
    }];
    let snapshots = build_graph_context_snapshots(&projection, &projected).unwrap();
    assert_eq!(snapshots.len(), 1);
    assert_eq!(snapshots[0].context_id, published.context_id);
    assert_eq!(snapshots[0].space_title, "Search");
    assert_eq!(snapshots[0].status, GraphContextStatus::Accepted);
    assert_eq!(snapshots[0].evidence_completeness, 1_000);
    assert!(snapshots[0].safety.automatic_injection_eligible);

    let unknown = vec![ProjectedEngineeringReference {
        context_id: ContextId::new(),
        ..projected[0].clone()
    }];
    assert!(build_graph_context_snapshots(&projection, &unknown).is_err());
}
