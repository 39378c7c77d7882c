//! Candidate confirmation: edits, associations, hashes and reserved plans.

use shared_context::{
    context_revision_as_draft, context_revision_content_hash, reduce, Applicability,
    CandidateConfirmationOperation, CandidateConfirmationPlan,
    CandidateConfirmationPrimaryReference, CandidateConfirmationRequest, CandidateId,
    CandidatePrimarySelection, ContextCandidate, ContextId, ContextKind, ContextRevision,
    ContextRevisionDraft, ContextSpaceAssociation, ContextSpaceAssociationDraft,
    ContextSpaceAssociationOrigin, DecisionSource, ErrorKind, EventId,
    EvidenceSnapshotDraft, EvidenceType, IntentSnapshot, JsonValue, OptionalCandidateEdits,
    ReducerEvent, ReducerPayload, SpaceAssociationId, SpaceId,
    SpaceRecommendationId, SubmissionId, TaskId, TaskSessionId, TopicKeyEdit, WorkEpisodeId, WorkEpisodeRef,
};

fn object(name: &str, text: &str) -> JsonValue {
    JsonValue::Object(vec![(name.to_owned(), JsonValue::Text(text.to_owned()))])
}

fn content() -> ContextRevisionDraft {
    ContextRevisionDraft {
        problem_view: None,
        hints: Vec::new(),
        kind: ContextKind::Decision,
        topic_key: Some("confirmation/topic".to_owned()),
        statement: "Keep the confirmed behavior".to_owned(),
        rationale: "The Candidate Evidence is self-contained".to_owned(),
        applicability: Applicability {
            domains: vec!["confirmation".to_owned()],
            platforms: Vec::new(),
            conditions: Vec::new(),
        },
        assumptions: vec!["The source remains valid".to_owned()],
        recheck_when: vec!["The contract changes".to_owned()],
        relations: Vec::new(),
        evidence: vec![EvidenceSnapshotDraft {
            kind: EvidenceType::ExperimentRecord,
            supports: "The confirmation fixture passed".to_owned(),
            content: object("actual", "passed"),
            interpretation: "The Candidate may be reviewed".to_owned(),
            limitations: Vec::new(),
        }],
    }
}

fn candidate() -> ContextCandidate {
    ContextCandidate::from_verified_submission(
        SubmissionId::new(),
        WorkEpisodeRef {
            episode_id: WorkEpisodeId::new(),
            task_session_id: TaskSessionId::new(),
            task_id: TaskId::new(),
        },
        content(),
    )
    .unwrap()
}

fn intent() -> IntentSnapshot {
    IntentSnapshot {
        title: "New confirmation Space".to_owned(),
        problem: "No existing Space owns the requirement".to_owned(),
        desired_outcome: "Govern the confirmed Context".to_owned(),
        in_scope: vec!["Candidate confirmation".to_owned()],
        out_of_scope: Vec::new(),
        acceptance_conditions: vec!["The Context is published".to_owned()],
        domain_terms: Vec::new(),
    }
}

#[test]
fn existing_or_new_primary_and_field_edits_preserve_unsupplied_draft_content() {
    let candidate = candidate();
    let primary = SpaceId::new();
    let related = vec![SpaceId::new(), SpaceId::new()];
    let existing = CandidateConfirmationRequest {
        candidate_id: candidate.candidate_id,
        primary: CandidatePrimarySelection::Existing { space_id: primary },
        related_space_ids: related,
        edits: OptionalCandidateEdits {
            statement: Some("Edited confirmed behavior".to_owned()),
            topic_key: Some(TopicKeyEdit::Clear),
            ..OptionalCandidateEdits::default()
        },
    };
    let result = existing.final_draft(&candidate).unwrap();
    assert_eq!(result.statement, "Edited confirmed behavior");
    assert_eq!(result.topic_key, None);
    assert_eq!(result.rationale, candidate.content.rationale);
    assert_eq!(result.evidence, candidate.content.evidence);

    let proposed = CandidateConfirmationRequest {
        candidate_id: candidate.candidate_id,
        primary: CandidatePrimarySelection::ProposedNew { intent: intent() },
        related_space_ids: Vec::new(),
        edits: OptionalCandidateEdits::default(),
    };
    assert_eq!(proposed.final_draft(&candidate).unwrap(), candidate.content);
}

#[test]
fn invalid_selection_edits_and_association_causality_are_rejected() {
    let candidate = candidate();
    let primary = SpaceId::new();
    assert!(
        CandidateConfirmationRequest {
            candidate_id: candidate.candidate_id,
            primary: CandidatePrimarySelection::Existing { space_id: primary },
            related_space_ids: vec![primary],
            edits: OptionalCandidateEdits::default(),
        }
        .final_draft(&candidate)
        .is_err()
    );
    assert!(
        OptionalCandidateEdits {
            evidence: Some(Vec::new()),
            ..OptionalCandidateEdits::default()
        }
        .apply(&candidate.content)
        .is_err()
    );
    assert!(
        ContextSpaceAssociation::from_draft(ContextSpaceAssociationDraft {
            context_id: ContextId::new(),
            primary_space_id: primary,
            related_space_ids: Vec::new(),
            previous_association_ids: vec![SpaceAssociationId::new()],
            origin: ContextSpaceAssociationOrigin::CandidateConfirmation {
                candidate_id: candidate.candidate_id,
            },
        })
        .is_err()
    );
    assert!(
        ContextSpaceAssociation::from_draft(ContextSpaceAssociationDraft {
            context_id: ContextId::new(),
            primary_space_id: primary,
            related_space_ids: Vec::new(),
            previous_association_ids: Vec::new(),
            origin: ContextSpaceAssociationOrigin::Correction,
        })
        .is_err()
    );
}

#[test]
fn content_hash_excludes_generated_revision_and_evidence_ids() {
    let first = ContextRevision::from_draft(Vec::new(), content()).unwrap();
    let second = ContextRevision::from_draft(Vec::new(), content()).unwrap();
    assert_ne!(first.revision_id, second.revision_id);
    assert_ne!(
        first.evidence[0].evidence_id,
        second.evidence[0].evidence_id
    );
    assert_eq!(
        context_revision_content_hash(&context_revision_as_draft(&first)),
        context_revision_content_hash(&context_revision_as_draft(&second))
    );
}

#[test]
fn content_hashes_have_one_form() {
    let hash = context_revision_content_hash(&content());
    let digits = hash.strip_prefix("sha256:").unwrap();
    assert_eq!(digits.len(), 64);
    assert!(digits.bytes().all(|byte| matches!(byte, b'0'..=b'9' | b'a'..=b'f')));
}

/// The hash is a labelled SHA-256 of the JSON text of the draft.
#[test]
fn content_hash_is_the_digest_of_the_draft() {
    assert_eq!(
        context_revision_content_hash(&content()),
        "sha256:aaa976ba4049860708bf795e1a37664b64e9d135c37f6af73a360043debf5a7c"
    );
}

#[test]
fn empty_edits_keep_the_draft_and_edits_apply_once() {
    let candidate = candidate();
    assert!(OptionalCandidateEdits::default().is_empty());
    assert_eq!(
        OptionalCandidateEdits::default().apply(&candidate.content).unwrap(),
        candidate.content
    );
    let edits = OptionalCandidateEdits {
        topic_key: Some(TopicKeyEdit::Replace { value: "other/topic".to_owned() }),
        ..OptionalCandidateEdits::default()
    };
    assert!(!edits.is_empty());
    let once = edits.apply(&candidate.content).unwrap();
    assert_eq!(once.topic_key.as_deref(), Some("other/topic"));
    assert_eq!(edits.apply(&once).unwrap(), once);
}

fn operation(
    candidate: &ContextCandidate,
    primary: CandidateConfirmationPrimaryReference,
) -> CandidateConfirmationOperation {
    CandidateConfirmationOperation {
        candidate_id: candidate.candidate_id,
        review_parent_version: 1,
        analysis_generation: 1,
        primary,
        related_space_ids: Vec::new(),
        edits: OptionalCandidateEdits::default(),
    }
}

#[test]
fn reserved_plans_are_valid_and_name_every_event() {
    let candidate = candidate();
    let space_id = SpaceId::new();
    let existing = CandidateConfirmationPlan::reserve(
        &candidate,
        operation(&candidate, CandidateConfirmationPrimaryReference::ExistingSpace { space_id }),
        CandidatePrimarySelection::Existing { space_id },
        Vec::new(),
        Vec::new(),
    )
    .unwrap();
    assert!(existing.validate().is_ok());
    assert_eq!(existing.expected_event_count(), 4);
    assert_eq!(existing.operation_hash, existing.operation.operation_hash());
    assert!(existing.plan_hash().starts_with("sha256:"));

    let proposed = CandidateConfirmationPlan::reserve(
        &candidate,
        operation(
            &candidate,
            CandidateConfirmationPrimaryReference::ProposedRecommendation {
                recommendation_id: SpaceRecommendationId::new(),
            },
        ),
        CandidatePrimarySelection::ProposedNew { intent: intent() },
        Vec::new(),
        Vec::new(),
    )
    .unwrap();
    assert!(proposed.validate().is_ok());
    assert_eq!(proposed.expected_event_count(), 5);
    assert!(proposed.new_space.as_ref().unwrap().intent_revision.provisional);
    assert_ne!(proposed.plan_hash(), existing.plan_hash());
}

/// The events that a plan for a new Space materializes, with the creation of its Candidate.
fn materialized(candidate: &ContextCandidate, plan: &CandidateConfirmationPlan) -> Vec<ReducerEvent> {
    let space = plan.new_space.clone().unwrap();
    let event = |event_id: EventId, payload: ReducerPayload| ReducerEvent { event_id, payload };
    vec![
        event(
            EventId::new(),
            ReducerPayload::ContextCandidateCreated { candidate: candidate.clone() },
        ),
        event(
            plan.event_ids.space_created_event_id.unwrap(),
            ReducerPayload::SpaceCreated {
                space_id: space.space_id,
                intent_revision: space.intent_revision,
            },
        ),
        event(
            plan.event_ids.context_revision_event_id,
            ReducerPayload::ContextRevisionAdded {
                space_id: space.space_id,
                context_id: plan.result_context_id,
                revision: plan.result_revision.clone(),
            },
        ),
        event(
            plan.event_ids.space_association_event_id,
            ReducerPayload::ContextSpaceAssociationChanged {
                association: plan.space_association.clone(),
            },
        ),
        event(
            plan.event_ids.publication_event_id,
            ReducerPayload::ContextPublicationChanged {
                space_id: space.space_id,
                context_id: plan.result_context_id,
                publication: plan.publication.clone(),
            },
        ),
        event(
            plan.event_ids.confirmation_event_id,
            ReducerPayload::CandidateConfirmed {
                confirmation: Box::new(plan.confirmation.clone()),
            },
        ),
    ]
}

fn plan_for_a_new_space(candidate: &ContextCandidate) -> CandidateConfirmationPlan {
    CandidateConfirmationPlan::reserve(
        candidate,
        operation(
            candidate,
            CandidateConfirmationPrimaryReference::ProposedRecommendation {
                recommendation_id: SpaceRecommendationId::new(),
            },
        ),
        CandidatePrimarySelection::ProposedNew { intent: intent() },
        Vec::new(),
        Vec::new(),
    )
    .unwrap()
}

#[test]
fn materialized_plans_are_confirmed() {
    let candidate = candidate();
    let plan = plan_for_a_new_space(&candidate);
    let projection = reduce(&materialized(&candidate, &plan));
    assert!(projection.diagnostics.is_empty(), "{:?}", projection.diagnostics);
    assert_eq!(projection.candidate_confirmations.len(), 1);
    let confirmed = projection
        .candidate_confirmations
        .get(&plan.confirmation.confirmation_id)
        .unwrap();
    assert_eq!(confirmed.confirmation, plan.confirmation);
    let space = projection.spaces.get(&plan.confirmation.primary_space_id).unwrap();
    let context = space.contexts.get(&plan.result_context_id).unwrap();
    assert!(context.auto_injection.eligible);
}

#[test]
fn confirmations_without_their_facts_do_not_stand() {
    let candidate = candidate();
    let plan = plan_for_a_new_space(&candidate);
    let events = materialized(&candidate, &plan);
    for missing in 0..events.len() - 1 {
        let mut fewer = events.clone();
        fewer.remove(missing);
        let projection = reduce(&fewer);
        assert_eq!(projection.candidate_confirmations.len(), 0, "{missing}");
        assert!(projection
            .quarantined_event_ids
            .contains(&plan.event_ids.confirmation_event_id));
    }
    let mut twice = events.clone();
    let other = plan_for_a_new_space(&candidate);
    twice.extend(materialized(&candidate, &other).into_iter().skip(1));
    let projection = reduce(&twice);
    assert_eq!(projection.candidate_confirmations.len(), 0);
    assert!(projection
        .candidate_confirmation_conflicts
        .contains_key(&candidate.candidate_id));
}

#[test]
fn plans_refuse_another_candidate_primary_or_a_zero_generation() {
    let candidate = candidate();
    let space_id = SpaceId::new();
    let reserve = |operation: CandidateConfirmationOperation, selected: SpaceId| {
        CandidateConfirmationPlan::reserve(
            &candidate,
            operation,
            CandidatePrimarySelection::Existing { space_id: selected },
            Vec::new(),
            Vec::new(),
        )
    };
    let valid =
        operation(&candidate, CandidateConfirmationPrimaryReference::ExistingSpace { space_id });
    assert!(reserve(valid.clone(), space_id).is_ok());
    assert!(reserve(valid.clone(), SpaceId::new()).is_err());
    let mut other = valid.clone();
    other.candidate_id = CandidateId::new();
    assert!(reserve(other, space_id).is_err());
    let mut zero = valid;
    zero.review_parent_version = 0;
    assert_eq!(reserve(zero, space_id).unwrap_err().kind(), ErrorKind::InvalidInput);
}

#[test]
fn decision_sources_parse_their_own_names() {
    for source in [DecisionSource::Human, DecisionSource::AgentPolicy] {
        assert_eq!(DecisionSource::parse(source.as_str()).unwrap(), source);
    }
    assert!(DecisionSource::parse("nobody").is_err());
}
