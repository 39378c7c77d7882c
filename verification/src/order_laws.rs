//! What the things that are listed in order are ordered by.

use vstd::prelude::*;

use crate::engineering::ContextRelationKind;
use crate::events::{
    code_rank, reason_rank, AutoInjectionBlocker, ReducerDiagnostic, ReducerDiagnosticCode, ReducerDiagnosticView,
    SemanticConflictCandidate, SemanticConflictCandidateView, SemanticConflictOpenReason,
};
use crate::graph_contexts::{
    blocker_rank, relation_rank, GraphContextRelation, GraphContextRelationView, GraphContextSafetyBlocker,
    GraphContextSnapshot, GraphContextSnapshotView, GraphKey, GraphNode, ProjectedEngineeringReference,
    ProjectedEngineeringReferenceView,
};
use crate::ids::{
    AgentCheckpointId, CandidateBuildId, CandidateId, CaptureId, CheckpointClaimId, ConfirmationId, ConflictId,
    ContextId, EventId, EvidenceId, ExternalSessionId, Identifier, ProposedSpaceGroupKey, PublicationId, ReferenceId,
    RepositoryGroupId, ResolutionId, ReviewId, RevisionId, SignalId, SpaceAssociationId, SpaceId, SpaceRecommendationId,
    SubmissionId, TaskId, TaskIntentRevisionId, TaskSessionId, WorkEpisodeId, WorkObservationId,
};
use crate::model::{ConflictParticipant, ConflictParticipantView};
use crate::order::{list_below, sorting_orders_items, stably_sorted, text_below, Ordered, Placed};
use crate::registry::{CatalogRepositorySpec, CatalogRepositorySpecView, CheckoutPath, CheckoutPathView};
use crate::resolver::ContextPlace;
use crate::snapshot::{SnapshotArtifact, SnapshotArtifactView, SourceFile, SourceFileView};
use crate::sources::{
    language_rank, line_below, state_below, ArtifactObservation, ArtifactObservationView, ArtifactSourceState,
    SkippedFile, SkippedFileView, SourceLanguage,
};

verus! {

/// Identities are ordered by their numbers.
pub proof fn identities_are_ordered_by_number(
    space_id: (SpaceId, SpaceId),
    repository_group_id: (RepositoryGroupId, RepositoryGroupId),
    reference_id: (ReferenceId, ReferenceId),
    task_id: (TaskId, TaskId),
    task_session_id: (TaskSessionId, TaskSessionId),
    external_session_id: (ExternalSessionId, ExternalSessionId),
    task_intent_revision_id: (TaskIntentRevisionId, TaskIntentRevisionId),
    signal_id: (SignalId, SignalId),
    capture_id: (CaptureId, CaptureId),
    work_episode_id: (WorkEpisodeId, WorkEpisodeId),
    work_observation_id: (WorkObservationId, WorkObservationId),
    agent_checkpoint_id: (AgentCheckpointId, AgentCheckpointId),
    checkpoint_claim_id: (CheckpointClaimId, CheckpointClaimId),
    candidate_build_id: (CandidateBuildId, CandidateBuildId),
    space_recommendation_id: (SpaceRecommendationId, SpaceRecommendationId),
    proposed_space_group_key: (ProposedSpaceGroupKey, ProposedSpaceGroupKey),
    candidate_id: (CandidateId, CandidateId),
    submission_id: (SubmissionId, SubmissionId),
    confirmation_id: (ConfirmationId, ConfirmationId),
    space_association_id: (SpaceAssociationId, SpaceAssociationId),
    context_id: (ContextId, ContextId),
    revision_id: (RevisionId, RevisionId),
    event_id: (EventId, EventId),
    publication_id: (PublicationId, PublicationId),
    evidence_id: (EvidenceId, EvidenceId),
    review_id: (ReviewId, ReviewId),
    conflict_id: (ConflictId, ConflictId),
    resolution_id: (ResolutionId, ResolutionId),
)
    ensures
        SpaceId::below(space_id.0, space_id.1) <==> space_id.0.number() < space_id.1.number(),
        RepositoryGroupId::below(
            repository_group_id.0,
            repository_group_id.1,
        ) <==> repository_group_id.0.number() < repository_group_id.1.number(),
        ReferenceId::below(reference_id.0, reference_id.1) <==> reference_id.0.number() < reference_id.1.number(),
        TaskId::below(task_id.0, task_id.1) <==> task_id.0.number() < task_id.1.number(),
        TaskSessionId::below(
            task_session_id.0,
            task_session_id.1,
        ) <==> task_session_id.0.number() < task_session_id.1.number(),
        ExternalSessionId::below(
            external_session_id.0,
            external_session_id.1,
        ) <==> external_session_id.0.number() < external_session_id.1.number(),
        TaskIntentRevisionId::below(
            task_intent_revision_id.0,
            task_intent_revision_id.1,
        ) <==> task_intent_revision_id.0.number() < task_intent_revision_id.1.number(),
        SignalId::below(signal_id.0, signal_id.1) <==> signal_id.0.number() < signal_id.1.number(),
        CaptureId::below(capture_id.0, capture_id.1) <==> capture_id.0.number() < capture_id.1.number(),
        WorkEpisodeId::below(
            work_episode_id.0,
            work_episode_id.1,
        ) <==> work_episode_id.0.number() < work_episode_id.1.number(),
        WorkObservationId::below(
            work_observation_id.0,
            work_observation_id.1,
        ) <==> work_observation_id.0.number() < work_observation_id.1.number(),
        AgentCheckpointId::below(
            agent_checkpoint_id.0,
            agent_checkpoint_id.1,
        ) <==> agent_checkpoint_id.0.number() < agent_checkpoint_id.1.number(),
        CheckpointClaimId::below(
            checkpoint_claim_id.0,
            checkpoint_claim_id.1,
        ) <==> checkpoint_claim_id.0.number() < checkpoint_claim_id.1.number(),
        CandidateBuildId::below(
            candidate_build_id.0,
            candidate_build_id.1,
        ) <==> candidate_build_id.0.number() < candidate_build_id.1.number(),
        SpaceRecommendationId::below(
            space_recommendation_id.0,
            space_recommendation_id.1,
        ) <==> space_recommendation_id.0.number() < space_recommendation_id.1.number(),
        ProposedSpaceGroupKey::below(
            proposed_space_group_key.0,
            proposed_space_group_key.1,
        ) <==> proposed_space_group_key.0.number() < proposed_space_group_key.1.number(),
        CandidateId::below(candidate_id.0, candidate_id.1) <==> candidate_id.0.number() < candidate_id.1.number(),
        SubmissionId::below(
            submission_id.0,
            submission_id.1,
        ) <==> submission_id.0.number() < submission_id.1.number(),
        ConfirmationId::below(
            confirmation_id.0,
            confirmation_id.1,
        ) <==> confirmation_id.0.number() < confirmation_id.1.number(),
        SpaceAssociationId::below(
            space_association_id.0,
            space_association_id.1,
        ) <==> space_association_id.0.number() < space_association_id.1.number(),
        ContextId::below(context_id.0, context_id.1) <==> context_id.0.number() < context_id.1.number(),
        RevisionId::below(revision_id.0, revision_id.1) <==> revision_id.0.number() < revision_id.1.number(),
        EventId::below(event_id.0, event_id.1) <==> event_id.0.number() < event_id.1.number(),
        PublicationId::below(
            publication_id.0,
            publication_id.1,
        ) <==> publication_id.0.number() < publication_id.1.number(),
        EvidenceId::below(evidence_id.0, evidence_id.1) <==> evidence_id.0.number() < evidence_id.1.number(),
        ReviewId::below(review_id.0, review_id.1) <==> review_id.0.number() < review_id.1.number(),
        ConflictId::below(conflict_id.0, conflict_id.1) <==> conflict_id.0.number() < conflict_id.1.number(),
        ResolutionId::below(
            resolution_id.0,
            resolution_id.1,
        ) <==> resolution_id.0.number() < resolution_id.1.number(),
{
}

/// Participants are ordered by Context, then revision, then publication.
pub proof fn participants_are_ordered_by_context(left: ConflictParticipantView, right: ConflictParticipantView)
    ensures
        left.context_id != right.context_id ==> (
            ConflictParticipant::below(left, right) <==> ContextId::below(left.context_id, right.context_id)
        ),
        left.context_id == right.context_id
            && left.revision_id != right.revision_id ==> (
                ConflictParticipant::below(left, right) <==> RevisionId::below(left.revision_id, right.revision_id)
            ),
        left.context_id == right.context_id
            && left.revision_id == right.revision_id ==> (
                ConflictParticipant::below(left, right) <==> PublicationId::below(
                    left.publication_id,
                    right.publication_id,
                )
            ),
{
}

/// Conflict candidates are ordered by Space, then topic, then participants.
pub proof fn pairs_are_ordered_by_space(left: SemanticConflictCandidateView, right: SemanticConflictCandidateView)
    ensures
        left.space_id != right.space_id ==> (
            SemanticConflictCandidate::below(left, right) <==> SpaceId::below(left.space_id, right.space_id)
        ),
        left.space_id == right.space_id
            && left.topic_key != right.topic_key ==> (
                SemanticConflictCandidate::below(left, right) <==> text_below(left.topic_key, right.topic_key)
            ),
        left.space_id == right.space_id
            && left.topic_key == right.topic_key ==> (
                SemanticConflictCandidate::below(left, right) <==> list_below::<ConflictParticipant>(
                    left.participants,
                    right.participants,
                )
            ),
{
}

/// Diagnostics are ordered by code, then entity, then Events, then message.
pub proof fn diagnostics_are_ordered_by_code(left: ReducerDiagnosticView, right: ReducerDiagnosticView)
    ensures
        left.code != right.code ==> (
            ReducerDiagnostic::below(left, right) <==> code_rank(left.code) < code_rank(right.code)
        ),
        left.code == right.code
            && left.entity_id != right.entity_id ==> (
                ReducerDiagnostic::below(left, right) <==> text_below(left.entity_id, right.entity_id)
            ),
        left.code == right.code
            && left.entity_id == right.entity_id
            && left.event_ids != right.event_ids ==> (
                ReducerDiagnostic::below(left, right) <==> list_below::<EventId>(left.event_ids, right.event_ids)
            ),
        left.code == right.code
            && left.entity_id == right.entity_id
            && left.event_ids == right.event_ids ==> (
                ReducerDiagnostic::below(left, right) <==> text_below(left.message, right.message)
            ),
{
}

/// Nodes are ordered by Space, then Context, then revision.
pub proof fn nodes_are_ordered_by_space(left: GraphNode, right: GraphNode)
    ensures
        left.space_id != right.space_id ==> (
            GraphNode::below(left, right) <==> SpaceId::below(left.space_id, right.space_id)
        ),
        left.space_id == right.space_id
            && left.context_id != right.context_id ==> (
                GraphNode::below(left, right) <==> ContextId::below(left.context_id, right.context_id)
            ),
        left.space_id == right.space_id
            && left.context_id == right.context_id ==> (
                GraphNode::below(left, right) <==> RevisionId::below(left.revision_id, right.revision_id)
            ),
{
}

/// Keys are ordered by Context, then revision, then Space.
pub proof fn keys_are_ordered_by_context(left: GraphKey, right: GraphKey)
    ensures
        left.context_id != right.context_id ==> (
            GraphKey::below(left, right) <==> ContextId::below(left.context_id, right.context_id)
        ),
        left.context_id == right.context_id
            && left.revision_id != right.revision_id ==> (
                GraphKey::below(left, right) <==> RevisionId::below(left.revision_id, right.revision_id)
            ),
        left.context_id == right.context_id
            && left.revision_id == right.revision_id ==> (
                GraphKey::below(left, right) <==> SpaceId::below(left.space_id, right.space_id)
            ),
{
}

/// Relations are ordered by the Space, Context and revision that they lead to, then by kind, rationale and supports.
pub proof fn relations_are_ordered_by_target(left: GraphContextRelationView, right: GraphContextRelationView)
    ensures
        left.target_space_id != right.target_space_id ==> (
            GraphContextRelation::below(left, right) <==> SpaceId::below(left.target_space_id, right.target_space_id)
        ),
        left.target_space_id == right.target_space_id
            && left.target_context_id != right.target_context_id ==> (
                GraphContextRelation::below(left, right) <==> ContextId::below(
                    left.target_context_id,
                    right.target_context_id,
                )
            ),
        left.target_space_id == right.target_space_id
            && left.target_context_id == right.target_context_id
            && left.target_revision_id != right.target_revision_id ==> (
                GraphContextRelation::below(left, right) <==> RevisionId::below(
                    left.target_revision_id,
                    right.target_revision_id,
                )
            ),
        left.target_space_id == right.target_space_id
            && left.target_context_id == right.target_context_id
            && left.target_revision_id == right.target_revision_id
            && left.kind != right.kind ==> (
                GraphContextRelation::below(left, right) <==> relation_rank(left.kind) < relation_rank(right.kind)
            ),
        left.target_space_id == right.target_space_id
            && left.target_context_id == right.target_context_id
            && left.target_revision_id == right.target_revision_id
            && left.kind == right.kind
            && left.rationale != right.rationale ==> (
                GraphContextRelation::below(left, right) <==> text_below(left.rationale, right.rationale)
            ),
        left.target_space_id == right.target_space_id
            && left.target_context_id == right.target_context_id
            && left.target_revision_id == right.target_revision_id
            && left.kind == right.kind
            && left.rationale == right.rationale ==> (
                GraphContextRelation::below(left, right) <==> list_below::<String>(left.supports, right.supports)
            ),
{
}

/// Places are ordered by Context, then revision.
pub proof fn places_are_ordered_by_context(left: ContextPlace, right: ContextPlace)
    ensures
        left.context_id != right.context_id ==> (
            ContextPlace::below(left, right) <==> ContextId::below(left.context_id, right.context_id)
        ),
        left.context_id == right.context_id ==> (
            ContextPlace::below(left, right) <==> RevisionId::below(left.revision_id, right.revision_id)
        ),
{
}

/// Observations are ordered by path, then line, then language, then state.
pub proof fn observations_are_ordered_by_path(left: ArtifactObservationView, right: ArtifactObservationView)
    ensures
        left.path != right.path ==> (ArtifactObservation::below(left, right) <==> text_below(left.path, right.path)),
        left.path == right.path
            && left.line != right.line ==> (
                ArtifactObservation::below(left, right) <==> line_below(left.line, right.line)
            ),
        left.path == right.path
            && left.line == right.line
            && left.language != right.language ==> (
                ArtifactObservation::below(left, right) <==> language_rank(left.language) < language_rank(right.language)
            ),
        left.path == right.path
            && left.line == right.line
            && left.language == right.language ==> (
                ArtifactObservation::below(left, right) <==> state_below(left.source_state, right.source_state)
            ),
{
}

/// Kinds of relations are ordered from dependence to mere relation.
pub proof fn relation_kinds_are_ordered()
    ensures
        relation_rank(ContextRelationKind::DependsOn) < relation_rank(ContextRelationKind::Constrains),
        relation_rank(ContextRelationKind::Constrains) < relation_rank(ContextRelationKind::Implements),
        relation_rank(ContextRelationKind::Implements) < relation_rank(ContextRelationKind::ValidatedBy),
        relation_rank(ContextRelationKind::ValidatedBy) < relation_rank(ContextRelationKind::Contradicts),
        relation_rank(ContextRelationKind::Contradicts) < relation_rank(ContextRelationKind::Supersedes),
        relation_rank(ContextRelationKind::Supersedes) < relation_rank(ContextRelationKind::RelatedTo),
{
}

/// What makes a revision unsafe is ordered from its status to its evidence.
pub proof fn safety_blockers_are_ordered(conflict_id: ConflictId)
    ensures
        blocker_rank(GraphContextSafetyBlocker::NotAccepted) < blocker_rank(
            GraphContextSafetyBlocker::GovernanceConflict,
        ),
        blocker_rank(GraphContextSafetyBlocker::GovernanceConflict) < blocker_rank(
            (GraphContextSafetyBlocker::UnresolvedSemanticConflict { conflict_id }),
        ),
        blocker_rank((GraphContextSafetyBlocker::UnresolvedSemanticConflict { conflict_id })) < blocker_rank(
            GraphContextSafetyBlocker::IncompleteEvidence,
        ),
{
}

/// Codes are ordered from duplicates, by ownership and lineage, to References.
pub proof fn codes_are_ordered()
    ensures
        code_rank(ReducerDiagnosticCode::DuplicateEventId) < code_rank(ReducerDiagnosticCode::DuplicateCandidateId),
        code_rank(ReducerDiagnosticCode::DuplicateCandidateId) < code_rank(
            ReducerDiagnosticCode::DuplicateSubmissionId,
        ),
        code_rank(ReducerDiagnosticCode::DuplicateSubmissionId) < code_rank(
            ReducerDiagnosticCode::DuplicateConfirmationId,
        ),
        code_rank(ReducerDiagnosticCode::DuplicateConfirmationId) < code_rank(
            ReducerDiagnosticCode::DuplicateSpaceAssociationId,
        ),
        code_rank(ReducerDiagnosticCode::DuplicateSpaceAssociationId) < code_rank(
            ReducerDiagnosticCode::CandidateConfirmationConflict,
        ),
        code_rank(ReducerDiagnosticCode::CandidateConfirmationConflict) < code_rank(
            ReducerDiagnosticCode::DuplicateRevisionId,
        ),
        code_rank(ReducerDiagnosticCode::DuplicateRevisionId) < code_rank(ReducerDiagnosticCode::DuplicateReviewId),
        code_rank(ReducerDiagnosticCode::DuplicateReviewId) < code_rank(
            ReducerDiagnosticCode::DuplicatePublicationId,
        ),
        code_rank(ReducerDiagnosticCode::DuplicatePublicationId) < code_rank(
            ReducerDiagnosticCode::DuplicateEvidenceId,
        ),
        code_rank(ReducerDiagnosticCode::DuplicateEvidenceId) < code_rank(ReducerDiagnosticCode::DuplicateConflictId),
        code_rank(ReducerDiagnosticCode::DuplicateConflictId) < code_rank(
            ReducerDiagnosticCode::DuplicateResolutionId,
        ),
        code_rank(ReducerDiagnosticCode::DuplicateResolutionId) < code_rank(
            ReducerDiagnosticCode::DuplicateReferenceId,
        ),
        code_rank(ReducerDiagnosticCode::DuplicateReferenceId) < code_rank(
            ReducerDiagnosticCode::DuplicateSpaceCreation,
        ),
        code_rank(ReducerDiagnosticCode::DuplicateSpaceCreation) < code_rank(
            ReducerDiagnosticCode::AmbiguousContextOwner,
        ),
        code_rank(ReducerDiagnosticCode::AmbiguousContextOwner) < code_rank(ReducerDiagnosticCode::MissingSpace),
        code_rank(ReducerDiagnosticCode::MissingSpace) < code_rank(ReducerDiagnosticCode::InvalidRevisionReference),
        code_rank(ReducerDiagnosticCode::InvalidRevisionReference) < code_rank(
            ReducerDiagnosticCode::InvalidContextRelation,
        ),
        code_rank(ReducerDiagnosticCode::InvalidContextRelation) < code_rank(
            ReducerDiagnosticCode::InvalidContextRelationTarget,
        ),
        code_rank(ReducerDiagnosticCode::InvalidContextRelationTarget) < code_rank(
            ReducerDiagnosticCode::RevisionCycle,
        ),
        code_rank(ReducerDiagnosticCode::RevisionCycle) < code_rank(ReducerDiagnosticCode::InvalidReviewReference),
        code_rank(ReducerDiagnosticCode::InvalidReviewReference) < code_rank(
            ReducerDiagnosticCode::InvalidPublicationReference,
        ),
        code_rank(ReducerDiagnosticCode::InvalidPublicationReference) < code_rank(
            ReducerDiagnosticCode::PublicationCycle,
        ),
        code_rank(ReducerDiagnosticCode::PublicationCycle) < code_rank(
            ReducerDiagnosticCode::InvalidSpaceAssociationReference,
        ),
        code_rank(ReducerDiagnosticCode::InvalidSpaceAssociationReference) < code_rank(
            ReducerDiagnosticCode::SpaceAssociationCycle,
        ),
        code_rank(ReducerDiagnosticCode::SpaceAssociationCycle) < code_rank(
            ReducerDiagnosticCode::InvalidCandidateConfirmation,
        ),
        code_rank(ReducerDiagnosticCode::InvalidCandidateConfirmation) < code_rank(
            ReducerDiagnosticCode::InvalidSemanticConflictReference,
        ),
        code_rank(ReducerDiagnosticCode::InvalidSemanticConflictReference) < code_rank(
            ReducerDiagnosticCode::InvalidResolutionReference,
        ),
        code_rank(ReducerDiagnosticCode::InvalidResolutionReference) < code_rank(
            ReducerDiagnosticCode::ResolutionCycle,
        ),
        code_rank(ReducerDiagnosticCode::ResolutionCycle) < code_rank(
            ReducerDiagnosticCode::InvalidEngineeringReference,
        ),
        code_rank(ReducerDiagnosticCode::InvalidEngineeringReference) < code_rank(
            ReducerDiagnosticCode::InvalidEngineeringReferenceTarget,
        ),
{
}

/// Why a conflict is open is ordered from the lack of a resolution to one that is out of date.
pub proof fn open_reasons_are_ordered()
    ensures
        reason_rank(SemanticConflictOpenReason::NoResolution) < reason_rank(
            SemanticConflictOpenReason::ResolutionConflict,
        ),
        reason_rank(SemanticConflictOpenReason::ResolutionConflict) < reason_rank(
            SemanticConflictOpenReason::PublicationHeadsNotConverged,
        ),
        reason_rank(SemanticConflictOpenReason::PublicationHeadsNotConverged) < reason_rank(
            SemanticConflictOpenReason::ResolutionDoesNotCoverCurrentPublicationHeads,
        ),
{
}

/// Languages are ordered from code to documents.
pub proof fn languages_are_ordered()
    ensures
        language_rank(SourceLanguage::Rust) < language_rank(SourceLanguage::TypeScriptJavaScript),
        language_rank(SourceLanguage::TypeScriptJavaScript) < language_rank(SourceLanguage::Swift),
        language_rank(SourceLanguage::Swift) < language_rank(SourceLanguage::Kotlin),
        language_rank(SourceLanguage::Kotlin) < language_rank(SourceLanguage::Java),
        language_rank(SourceLanguage::Java) < language_rank(SourceLanguage::Json),
        language_rank(SourceLanguage::Json) < language_rank(SourceLanguage::Yaml),
        language_rank(SourceLanguage::Yaml) < language_rank(SourceLanguage::Proto),
        language_rank(SourceLanguage::Proto) < language_rank(SourceLanguage::Xml),
{
}

/// What blocks injection is ordered from the status to the conflicts, and conflicts by their identities.
pub proof fn injection_blockers_are_ordered(left: ConflictId, right: ConflictId)
    ensures
        AutoInjectionBlocker::below(AutoInjectionBlocker::NotAccepted, AutoInjectionBlocker::GovernanceConflict),
        AutoInjectionBlocker::below(
            AutoInjectionBlocker::GovernanceConflict,
            AutoInjectionBlocker::UnresolvedSemanticConflict(left),
        ),
        AutoInjectionBlocker::below(
            AutoInjectionBlocker::UnresolvedSemanticConflict(left),
            AutoInjectionBlocker::UnresolvedSemanticConflict(right),
        ) <==> left.number() < right.number(),
        GraphContextSafetyBlocker::below(
            GraphContextSafetyBlocker::UnresolvedSemanticConflict { conflict_id: left },
            GraphContextSafetyBlocker::UnresolvedSemanticConflict { conflict_id: right },
        ) <==> left.number() < right.number(),
{
}

/// An observation without a line comes before those with one, a lower line before a higher one, and what
/// is committed before what is modified.
pub proof fn observations_without_a_line_come_first(left: u32, right: u32)
    ensures
        line_below(None, Some(left)),
        !line_below(Some(left), None),
        line_below(Some(left), Some(right)) <==> left < right,
        state_below(ArtifactSourceState::TrackedHead, ArtifactSourceState::TrackedWorkingModification),
        !state_below(ArtifactSourceState::TrackedWorkingModification, ArtifactSourceState::TrackedHead),
{
}

/// Sorted, checkouts stand in the order of their components.
pub proof fn sorted_checkouts_stand_in_order(items: Seq<CheckoutPathView>, i: int, j: int)
    requires
        0 <= i < j < stably_sorted::<CheckoutPath>(items).len(),
    ensures
        !list_below::<String>(
            stably_sorted::<CheckoutPath>(items)[j].components(),
            stably_sorted::<CheckoutPath>(items)[i].components(),
        ),
{
    sorting_orders_items::<CheckoutPath>(items);
    let sorted = stably_sorted::<CheckoutPath>(items);
    let (before, after) = (<CheckoutPath as Placed>::place(sorted[i]), <CheckoutPath as Placed>::place(sorted[j]));
    assert(!<<CheckoutPath as Placed>::Key as Ordered>::below(after, before));
}

/// Sorted, repositories stand in the order of their identities.
pub proof fn sorted_repositories_stand_in_order(items: Seq<CatalogRepositorySpecView>, i: int, j: int)
    requires
        0 <= i < j < stably_sorted::<CatalogRepositorySpec>(items).len(),
    ensures
        !text_below(
            stably_sorted::<CatalogRepositorySpec>(items)[j].repository_id,
            stably_sorted::<CatalogRepositorySpec>(items)[i].repository_id,
        ),
{
    sorting_orders_items::<CatalogRepositorySpec>(items);
    let sorted = stably_sorted::<CatalogRepositorySpec>(items);
    let (before, after) = (
        <CatalogRepositorySpec as Placed>::place(sorted[i]),
        <CatalogRepositorySpec as Placed>::place(sorted[j]),
    );
    assert(!<<CatalogRepositorySpec as Placed>::Key as Ordered>::below(after, before));
}

/// Sorted, snapshots stand in the order of their Contexts, then their revisions.
pub proof fn sorted_snapshots_stand_in_order(items: Seq<GraphContextSnapshotView>, i: int, j: int)
    requires
        0 <= i < j < stably_sorted::<GraphContextSnapshot>(items).len(),
    ensures
        !ContextId::below(
            stably_sorted::<GraphContextSnapshot>(items)[j].context_id,
            stably_sorted::<GraphContextSnapshot>(items)[i].context_id,
        ),
        stably_sorted::<GraphContextSnapshot>(items)[i].context_id == stably_sorted::<GraphContextSnapshot>(items)[j].context_id
            ==> !RevisionId::below(
            stably_sorted::<GraphContextSnapshot>(items)[j].revision.revision_id,
            stably_sorted::<GraphContextSnapshot>(items)[i].revision.revision_id,
        ),
{
    sorting_orders_items::<GraphContextSnapshot>(items);
    let sorted = stably_sorted::<GraphContextSnapshot>(items);
    let (before, after) = (
        <GraphContextSnapshot as Placed>::place(sorted[i]),
        <GraphContextSnapshot as Placed>::place(sorted[j]),
    );
    assert(!<<GraphContextSnapshot as Placed>::Key as Ordered>::below(after, before));
}

/// Sorted, references stand in the order of their identities.
pub proof fn sorted_references_stand_in_order(items: Seq<ProjectedEngineeringReferenceView>, i: int, j: int)
    requires
        0 <= i < j < stably_sorted::<ProjectedEngineeringReference>(items).len(),
    ensures
        !ReferenceId::below(
            stably_sorted::<ProjectedEngineeringReference>(items)[j].reference.reference_id,
            stably_sorted::<ProjectedEngineeringReference>(items)[i].reference.reference_id,
        ),
{
    sorting_orders_items::<ProjectedEngineeringReference>(items);
    let sorted = stably_sorted::<ProjectedEngineeringReference>(items);
    let (before, after) = (
        <ProjectedEngineeringReference as Placed>::place(sorted[i]),
        <ProjectedEngineeringReference as Placed>::place(sorted[j]),
    );
    assert(!<<ProjectedEngineeringReference as Placed>::Key as Ordered>::below(after, before));
}

/// Sorted, artifacts stand in the order of the digests of their keys.
pub proof fn sorted_artifacts_stand_in_order(items: Seq<SnapshotArtifactView>, i: int, j: int)
    requires
        0 <= i < j < stably_sorted::<SnapshotArtifact>(items).len(),
    ensures
        !text_below(
            stably_sorted::<SnapshotArtifact>(items)[j].artifact.artifact_key.digest,
            stably_sorted::<SnapshotArtifact>(items)[i].artifact.artifact_key.digest,
        ),
{
    sorting_orders_items::<SnapshotArtifact>(items);
    let sorted = stably_sorted::<SnapshotArtifact>(items);
    let (before, after) = (
        <SnapshotArtifact as Placed>::place(sorted[i]),
        <SnapshotArtifact as Placed>::place(sorted[j]),
    );
    assert(!<<SnapshotArtifact as Placed>::Key as Ordered>::below(after, before));
}

/// Sorted, sources stand in the order of their paths.
pub proof fn sorted_sources_stand_in_order(items: Seq<SourceFileView>, i: int, j: int)
    requires
        0 <= i < j < stably_sorted::<SourceFile>(items).len(),
    ensures
        !text_below(stably_sorted::<SourceFile>(items)[j].path, stably_sorted::<SourceFile>(items)[i].path),
{
    sorting_orders_items::<SourceFile>(items);
    let sorted = stably_sorted::<SourceFile>(items);
    let (before, after) = (<SourceFile as Placed>::place(sorted[i]), <SourceFile as Placed>::place(sorted[j]));
    assert(!<<SourceFile as Placed>::Key as Ordered>::below(after, before));
}

/// Sorted, skipped files stand in the order of their paths.
pub proof fn sorted_skipped_files_stand_in_order(items: Seq<SkippedFileView>, i: int, j: int)
    requires
        0 <= i < j < stably_sorted::<SkippedFile>(items).len(),
    ensures
        !text_below(stably_sorted::<SkippedFile>(items)[j].path, stably_sorted::<SkippedFile>(items)[i].path),
{
    sorting_orders_items::<SkippedFile>(items);
    let sorted = stably_sorted::<SkippedFile>(items);
    let (before, after) = (<SkippedFile as Placed>::place(sorted[i]), <SkippedFile as Placed>::place(sorted[j]));
    assert(!<<SkippedFile as Placed>::Key as Ordered>::below(after, before));
}

} // verus!
