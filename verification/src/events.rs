//! Reducer input events, diagnostics, and the projections they reduce to.

use vstd::prelude::*;

use crate::collections::{SortedMap, SortedSet};
use crate::confirmation::{
    CandidateConfirmation, CandidateConfirmationView, ContextSpaceAssociation, ContextSpaceAssociationView,
};
use crate::engineering::{EngineeringReference, EngineeringReferenceView};
use crate::episode::{ContextCandidate, ContextCandidateView, WorkEpisodeRef};
use crate::ids::{
    CandidateId, ConfirmationId, ConflictId, ContextId, EventId, PublicationId, ReferenceId, ResolutionId,
    RevisionId, SpaceAssociationId, SpaceId, SubmissionId,
};
use crate::model::{
    ConflictParticipant, ConflictParticipantView, ConflictResolution, ConflictResolutionView, ContextRevision,
    ContextRevisionView, IntentRevision, IntentRevisionView, Publication, PublicationView, Review, ReviewView,
    SemanticConflict, SemanticConflictView,
};
use crate::order::{list_below, text_below, Ordered};
use crate::value::Value;

verus! {

/// Authoritative event input understood by the domain reducer.
#[derive(Clone, Debug, PartialEq, Eq)]
pub struct ReducerEvent {
    pub event_id: EventId,
    pub payload: ReducerPayload,
}

/// The model of [`ReducerEvent`].
pub struct ReducerEventView {
    pub event_id: EventId,
    pub payload: ReducerPayloadView,
}

impl DeepView for ReducerEvent {
    type V = ReducerEventView;

    open spec fn deep_view(&self) -> ReducerEventView {
        ReducerEventView {
            event_id: self.event_id.deep_view(),
            payload: self.payload.deep_view(),
        }
    }
}

impl Value for ReducerEvent {
    fn copied(&self) -> (copy: Self) {
        ReducerEvent {
            event_id: self.event_id.copied(),
            payload: self.payload.copied(),
        }
    }

    fn same(&self, other: &Self) -> (equal: bool) {
        self.event_id.same(&other.event_id)
            && self.payload.same(&other.payload)
    }
}

/// The payloads in the pure domain projection boundary.
#[derive(Clone, Debug, PartialEq, Eq)]
pub enum ReducerPayload {
    ContextCandidateCreated {
        candidate: ContextCandidate,
    },
    CandidateConfirmed {
        confirmation: Box<CandidateConfirmation>,
    },
    SpaceCreated {
        space_id: SpaceId,
        intent_revision: IntentRevision,
    },
    SpaceIntentRevisionAdded {
        space_id: SpaceId,
        intent_revision: IntentRevision,
    },
    ContextRevisionAdded {
        space_id: SpaceId,
        context_id: ContextId,
        revision: ContextRevision,
    },
    ContextReviewed {
        space_id: SpaceId,
        context_id: ContextId,
        review: Review,
    },
    ContextPublicationChanged {
        space_id: SpaceId,
        context_id: ContextId,
        publication: Publication,
    },
    ContextSpaceAssociationChanged {
        association: ContextSpaceAssociation,
    },
    SemanticConflictOpened {
        space_id: SpaceId,
        conflict: SemanticConflict,
    },
    SemanticConflictResolutionAdded {
        space_id: SpaceId,
        conflict_id: ConflictId,
        resolution: ConflictResolution,
    },
    EngineeringReferenceRecorded {
        context_id: ContextId,
        revision_id: RevisionId,
        reference: EngineeringReference,
    },
}

/// The model of [`ReducerPayload`].
pub enum ReducerPayloadView {
    ContextCandidateCreated {
        candidate: ContextCandidateView,
    },
    CandidateConfirmed {
        confirmation: CandidateConfirmationView,
    },
    SpaceCreated {
        space_id: SpaceId,
        intent_revision: IntentRevisionView,
    },
    SpaceIntentRevisionAdded {
        space_id: SpaceId,
        intent_revision: IntentRevisionView,
    },
    ContextRevisionAdded {
        space_id: SpaceId,
        context_id: ContextId,
        revision: ContextRevisionView,
    },
    ContextReviewed {
        space_id: SpaceId,
        context_id: ContextId,
        review: ReviewView,
    },
    ContextPublicationChanged {
        space_id: SpaceId,
        context_id: ContextId,
        publication: PublicationView,
    },
    ContextSpaceAssociationChanged {
        association: ContextSpaceAssociationView,
    },
    SemanticConflictOpened {
        space_id: SpaceId,
        conflict: SemanticConflictView,
    },
    SemanticConflictResolutionAdded {
        space_id: SpaceId,
        conflict_id: ConflictId,
        resolution: ConflictResolutionView,
    },
    EngineeringReferenceRecorded {
        context_id: ContextId,
        revision_id: RevisionId,
        reference: EngineeringReferenceView,
    },
}

impl DeepView for ReducerPayload {
    type V = ReducerPayloadView;

    open spec fn deep_view(&self) -> ReducerPayloadView {
        match self {
            ReducerPayload::ContextCandidateCreated { candidate } => {
                ReducerPayloadView::ContextCandidateCreated { candidate: candidate.deep_view() }
            },
            ReducerPayload::CandidateConfirmed { confirmation } => {
                ReducerPayloadView::CandidateConfirmed { confirmation: confirmation.deep_view() }
            },
            ReducerPayload::SpaceCreated { space_id, intent_revision } => ReducerPayloadView::SpaceCreated {
                space_id: space_id.deep_view(),
                intent_revision: intent_revision.deep_view(),
            },
            ReducerPayload::SpaceIntentRevisionAdded { space_id, intent_revision } => {
                ReducerPayloadView::SpaceIntentRevisionAdded {
                    space_id: space_id.deep_view(),
                    intent_revision: intent_revision.deep_view(),
                }
            },
            ReducerPayload::ContextRevisionAdded { space_id, context_id, revision } => {
                ReducerPayloadView::ContextRevisionAdded {
                    space_id: space_id.deep_view(),
                    context_id: context_id.deep_view(),
                    revision: revision.deep_view(),
                }
            },
            ReducerPayload::ContextReviewed { space_id, context_id, review } => ReducerPayloadView::ContextReviewed {
                space_id: space_id.deep_view(),
                context_id: context_id.deep_view(),
                review: review.deep_view(),
            },
            ReducerPayload::ContextPublicationChanged { space_id, context_id, publication } => {
                ReducerPayloadView::ContextPublicationChanged {
                    space_id: space_id.deep_view(),
                    context_id: context_id.deep_view(),
                    publication: publication.deep_view(),
                }
            },
            ReducerPayload::ContextSpaceAssociationChanged { association } => {
                ReducerPayloadView::ContextSpaceAssociationChanged { association: association.deep_view() }
            },
            ReducerPayload::SemanticConflictOpened { space_id, conflict } => {
                ReducerPayloadView::SemanticConflictOpened {
                    space_id: space_id.deep_view(),
                    conflict: conflict.deep_view(),
                }
            },
            ReducerPayload::SemanticConflictResolutionAdded {
                space_id,
                conflict_id,
                resolution,
            } => ReducerPayloadView::SemanticConflictResolutionAdded {
                space_id: space_id.deep_view(),
                conflict_id: conflict_id.deep_view(),
                resolution: resolution.deep_view(),
            },
            ReducerPayload::EngineeringReferenceRecorded { context_id, revision_id, reference } => {
                ReducerPayloadView::EngineeringReferenceRecorded {
                    context_id: context_id.deep_view(),
                    revision_id: revision_id.deep_view(),
                    reference: reference.deep_view(),
                }
            },
        }
    }
}

impl Value for ReducerPayload {
    fn copied(&self) -> (copy: Self) {
        match self {
            ReducerPayload::ContextCandidateCreated { candidate } => {
                ReducerPayload::ContextCandidateCreated { candidate: candidate.copied() }
            },
            ReducerPayload::CandidateConfirmed { confirmation } => {
                ReducerPayload::CandidateConfirmed { confirmation: confirmation.copied() }
            },
            ReducerPayload::SpaceCreated { space_id, intent_revision } => {
                ReducerPayload::SpaceCreated {
                    space_id: space_id.copied(),
                    intent_revision: intent_revision.copied(),
                }
            },
            ReducerPayload::SpaceIntentRevisionAdded { space_id, intent_revision } => {
                ReducerPayload::SpaceIntentRevisionAdded {
                    space_id: space_id.copied(),
                    intent_revision: intent_revision.copied(),
                }
            },
            ReducerPayload::ContextRevisionAdded { space_id, context_id, revision } => {
                ReducerPayload::ContextRevisionAdded {
                    space_id: space_id.copied(),
                    context_id: context_id.copied(),
                    revision: revision.copied(),
                }
            },
            ReducerPayload::ContextReviewed { space_id, context_id, review } => ReducerPayload::ContextReviewed {
                space_id: space_id.copied(),
                context_id: context_id.copied(),
                review: review.copied(),
            },
            ReducerPayload::ContextPublicationChanged { space_id, context_id, publication } => {
                ReducerPayload::ContextPublicationChanged {
                    space_id: space_id.copied(),
                    context_id: context_id.copied(),
                    publication: publication.copied(),
                }
            },
            ReducerPayload::ContextSpaceAssociationChanged { association } => {
                ReducerPayload::ContextSpaceAssociationChanged { association: association.copied() }
            },
            ReducerPayload::SemanticConflictOpened { space_id, conflict } => {
                ReducerPayload::SemanticConflictOpened { space_id: space_id.copied(), conflict: conflict.copied() }
            },
            ReducerPayload::SemanticConflictResolutionAdded {
                space_id,
                conflict_id,
                resolution,
            } => ReducerPayload::SemanticConflictResolutionAdded {
                space_id: space_id.copied(),
                conflict_id: conflict_id.copied(),
                resolution: resolution.copied(),
            },
            ReducerPayload::EngineeringReferenceRecorded { context_id, revision_id, reference } => {
                ReducerPayload::EngineeringReferenceRecorded {
                    context_id: context_id.copied(),
                    revision_id: revision_id.copied(),
                    reference: reference.copied(),
                }
            },
        }
    }

    fn same(&self, other: &Self) -> (equal: bool) {
        match (self, other) {
            (
                ReducerPayload::ContextCandidateCreated { candidate: left_candidate },
                ReducerPayload::ContextCandidateCreated { candidate: right_candidate },
            ) => left_candidate.same(right_candidate),
            (
                ReducerPayload::CandidateConfirmed { confirmation: left_confirmation },
                ReducerPayload::CandidateConfirmed { confirmation: right_confirmation },
            ) => left_confirmation.same(right_confirmation),
            (
                ReducerPayload::SpaceCreated { space_id: left_space_id, intent_revision: left_intent_revision },
                ReducerPayload::SpaceCreated { space_id: right_space_id, intent_revision: right_intent_revision },
            ) => left_space_id.same(right_space_id) && left_intent_revision.same(right_intent_revision),
            (
                ReducerPayload::SpaceIntentRevisionAdded {
                    space_id: left_space_id,
                    intent_revision: left_intent_revision,
                },
                ReducerPayload::SpaceIntentRevisionAdded {
                    space_id: right_space_id,
                    intent_revision: right_intent_revision,
                },
            ) => left_space_id.same(right_space_id) && left_intent_revision.same(right_intent_revision),
            (
                ReducerPayload::ContextRevisionAdded {
                    space_id: left_space_id,
                    context_id: left_context_id,
                    revision: left_revision,
                },
                ReducerPayload::ContextRevisionAdded {
                    space_id: right_space_id,
                    context_id: right_context_id,
                    revision: right_revision,
                },
            ) => left_space_id.same(right_space_id)
                && left_context_id.same(right_context_id)
                && left_revision.same(right_revision),
            (
                ReducerPayload::ContextReviewed {
                    space_id: left_space_id,
                    context_id: left_context_id,
                    review: left_review,
                },
                ReducerPayload::ContextReviewed {
                    space_id: right_space_id,
                    context_id: right_context_id,
                    review: right_review,
                },
            ) => left_space_id.same(right_space_id)
                && left_context_id.same(right_context_id)
                && left_review.same(right_review),
            (
                ReducerPayload::ContextPublicationChanged {
                    space_id: left_space_id,
                    context_id: left_context_id,
                    publication: left_publication,
                },
                ReducerPayload::ContextPublicationChanged {
                    space_id: right_space_id,
                    context_id: right_context_id,
                    publication: right_publication,
                },
            ) => left_space_id.same(right_space_id)
                && left_context_id.same(right_context_id)
                && left_publication.same(right_publication),
            (
                ReducerPayload::ContextSpaceAssociationChanged { association: left_association },
                ReducerPayload::ContextSpaceAssociationChanged { association: right_association },
            ) => left_association.same(right_association),
            (
                ReducerPayload::SemanticConflictOpened { space_id: left_space_id, conflict: left_conflict },
                ReducerPayload::SemanticConflictOpened { space_id: right_space_id, conflict: right_conflict },
            ) => left_space_id.same(right_space_id) && left_conflict.same(right_conflict),
            (
                ReducerPayload::SemanticConflictResolutionAdded {
                    space_id: left_space_id,
                    conflict_id: left_conflict_id,
                    resolution: left_resolution,
                },
                ReducerPayload::SemanticConflictResolutionAdded {
                    space_id: right_space_id,
                    conflict_id: right_conflict_id,
                    resolution: right_resolution,
                },
            ) => left_space_id.same(right_space_id)
                && left_conflict_id.same(right_conflict_id)
                && left_resolution.same(right_resolution),
            (
                ReducerPayload::EngineeringReferenceRecorded {
                    context_id: left_context_id,
                    revision_id: left_revision_id,
                    reference: left_reference,
                },
                ReducerPayload::EngineeringReferenceRecorded {
                    context_id: right_context_id,
                    revision_id: right_revision_id,
                    reference: right_reference,
                },
            ) => left_context_id.same(right_context_id)
                && left_revision_id.same(right_revision_id)
                && left_reference.same(right_reference),
            _ => false,
        }
    }
}

/// Stable reducer diagnostic classifications, in the order in which diagnostics are listed.
#[derive(Clone, Copy, Debug, PartialEq, Eq, Structural)]
pub enum ReducerDiagnosticCode {
    DuplicateEventId,
    DuplicateCandidateId,
    DuplicateSubmissionId,
    DuplicateConfirmationId,
    DuplicateSpaceAssociationId,
    CandidateConfirmationConflict,
    DuplicateRevisionId,
    DuplicateReviewId,
    DuplicatePublicationId,
    DuplicateEvidenceId,
    DuplicateConflictId,
    DuplicateResolutionId,
    DuplicateReferenceId,
    DuplicateSpaceCreation,
    AmbiguousContextOwner,
    MissingSpace,
    InvalidRevisionReference,
    InvalidContextRelation,
    InvalidContextRelationTarget,
    RevisionCycle,
    InvalidReviewReference,
    InvalidPublicationReference,
    PublicationCycle,
    InvalidSpaceAssociationReference,
    SpaceAssociationCycle,
    InvalidCandidateConfirmation,
    InvalidSemanticConflictReference,
    InvalidResolutionReference,
    ResolutionCycle,
    InvalidEngineeringReference,
    InvalidEngineeringReferenceTarget,
}

impl DeepView for ReducerDiagnosticCode {
    type V = ReducerDiagnosticCode;

    open spec fn deep_view(&self) -> ReducerDiagnosticCode {
        *self
    }
}

impl Value for ReducerDiagnosticCode {
    fn copied(&self) -> (copy: Self) {
        *self
    }

    fn same(&self, other: &Self) -> (equal: bool) {
        *self == *other
    }
}

/// A deterministic explanation for quarantined input.
#[derive(Clone, Debug, PartialEq, Eq)]
pub struct ReducerDiagnostic {
    pub code: ReducerDiagnosticCode,
    pub entity_id: String,
    /// The events concerned, in ascending order.
    pub event_ids: Vec<EventId>,
    pub message: String,
}

/// The model of [`ReducerDiagnostic`].
pub struct ReducerDiagnosticView {
    pub code: ReducerDiagnosticCode,
    pub entity_id: Seq<char>,
    pub event_ids: Seq<EventId>,
    pub message: Seq<char>,
}

impl DeepView for ReducerDiagnostic {
    type V = ReducerDiagnosticView;

    open spec fn deep_view(&self) -> ReducerDiagnosticView {
        ReducerDiagnosticView {
            code: self.code.deep_view(),
            entity_id: self.entity_id.deep_view(),
            event_ids: self.event_ids.deep_view(),
            message: self.message.deep_view(),
        }
    }
}

impl Value for ReducerDiagnostic {
    fn copied(&self) -> (copy: Self) {
        ReducerDiagnostic {
            code: self.code.copied(),
            entity_id: self.entity_id.copied(),
            event_ids: self.event_ids.copied(),
            message: self.message.copied(),
        }
    }

    fn same(&self, other: &Self) -> (equal: bool) {
        self.code.same(&other.code)
            && self.entity_id.same(&other.entity_id)
            && self.event_ids.same(&other.event_ids)
            && self.message.same(&other.message)
    }
}

/// Aggregated review result. Contradictory reviews remain visible as `Mixed`.
#[derive(Clone, Copy, Debug, PartialEq, Eq, Structural)]
pub enum ReviewSummary {
    Unreviewed,
    Approved,
    Rejected,
    Mixed,
}

impl DeepView for ReviewSummary {
    type V = ReviewSummary;

    open spec fn deep_view(&self) -> ReviewSummary {
        *self
    }
}

impl Value for ReviewSummary {
    fn copied(&self) -> (copy: Self) {
        *self
    }

    fn same(&self, other: &Self) -> (equal: bool) {
        *self == *other
    }
}

/// Publication-derived lifecycle of one complete Context revision.
#[derive(Clone, Copy, Debug, PartialEq, Eq, Structural)]
pub enum RevisionLifecycle {
    Candidate,
    Accepted,
    Deprecated,
    Superseded,
}

impl DeepView for RevisionLifecycle {
    type V = RevisionLifecycle;

    open spec fn deep_view(&self) -> RevisionLifecycle {
        *self
    }
}

impl Value for RevisionLifecycle {
    fn copied(&self) -> (copy: Self) {
        *self
    }

    fn same(&self, other: &Self) -> (equal: bool) {
        *self == *other
    }
}

/// Governance state of one Context item.
#[derive(Clone, Debug, PartialEq, Eq)]
pub enum ContextGovernanceStatus {
    Unpublished,
    Accepted {
        publication_id: PublicationId,
        revision_id: RevisionId,
    },
    Deprecated {
        publication_id: PublicationId,
        revision_id: RevisionId,
    },
    GovernanceConflict {
        publication_ids: SortedSet<PublicationId>,
    },
}

/// The model of [`ContextGovernanceStatus`].
pub enum ContextGovernanceStatusView {
    Unpublished,
    Accepted {
        publication_id: PublicationId,
        revision_id: RevisionId,
    },
    Deprecated {
        publication_id: PublicationId,
        revision_id: RevisionId,
    },
    GovernanceConflict {
        publication_ids: Set<PublicationId>,
    },
}

impl DeepView for ContextGovernanceStatus {
    type V = ContextGovernanceStatusView;

    open spec fn deep_view(&self) -> ContextGovernanceStatusView {
        match self {
            ContextGovernanceStatus::Unpublished => ContextGovernanceStatusView::Unpublished,
            ContextGovernanceStatus::Accepted { publication_id, revision_id } => {
                ContextGovernanceStatusView::Accepted {
                    publication_id: publication_id.deep_view(),
                    revision_id: revision_id.deep_view(),
                }
            },
            ContextGovernanceStatus::Deprecated { publication_id, revision_id } => {
                ContextGovernanceStatusView::Deprecated {
                    publication_id: publication_id.deep_view(),
                    revision_id: revision_id.deep_view(),
                }
            },
            ContextGovernanceStatus::GovernanceConflict { publication_ids } => {
                ContextGovernanceStatusView::GovernanceConflict { publication_ids: publication_ids.deep_view() }
            },
        }
    }
}

impl Value for ContextGovernanceStatus {
    fn copied(&self) -> (copy: Self) {
        match self {
            ContextGovernanceStatus::Unpublished => ContextGovernanceStatus::Unpublished,
            ContextGovernanceStatus::Accepted { publication_id, revision_id } => ContextGovernanceStatus::Accepted {
                publication_id: publication_id.copied(),
                revision_id: revision_id.copied(),
            },
            ContextGovernanceStatus::Deprecated { publication_id, revision_id } => {
                ContextGovernanceStatus::Deprecated {
                    publication_id: publication_id.copied(),
                    revision_id: revision_id.copied(),
                }
            },
            ContextGovernanceStatus::GovernanceConflict { publication_ids } => {
                ContextGovernanceStatus::GovernanceConflict { publication_ids: publication_ids.copied() }
            },
        }
    }

    fn same(&self, other: &Self) -> (equal: bool) {
        match (self, other) {
            (ContextGovernanceStatus::Unpublished, ContextGovernanceStatus::Unpublished) => true,
            (
                ContextGovernanceStatus::Accepted {
                    publication_id: left_publication_id,
                    revision_id: left_revision_id,
                },
                ContextGovernanceStatus::Accepted {
                    publication_id: right_publication_id,
                    revision_id: right_revision_id,
                },
            ) => left_publication_id.same(right_publication_id) && left_revision_id.same(right_revision_id),
            (
                ContextGovernanceStatus::Deprecated {
                    publication_id: left_publication_id,
                    revision_id: left_revision_id,
                },
                ContextGovernanceStatus::Deprecated {
                    publication_id: right_publication_id,
                    revision_id: right_revision_id,
                },
            ) => left_publication_id.same(right_publication_id) && left_revision_id.same(right_revision_id),
            (
                ContextGovernanceStatus::GovernanceConflict { publication_ids: left_publication_ids },
                ContextGovernanceStatus::GovernanceConflict { publication_ids: right_publication_ids },
            ) => left_publication_ids.same(right_publication_ids),
            _ => false,
        }
    }
}

/// Stable reasons why a Context is excluded from automatic injection.
#[derive(Clone, Copy, Debug, PartialEq, Eq, Structural)]
pub enum AutoInjectionBlocker {
    NotAccepted,
    GovernanceConflict,
    UnresolvedSemanticConflict(ConflictId),
}

impl DeepView for AutoInjectionBlocker {
    type V = AutoInjectionBlocker;

    open spec fn deep_view(&self) -> AutoInjectionBlocker {
        *self
    }
}

impl Value for AutoInjectionBlocker {
    fn copied(&self) -> (copy: Self) {
        *self
    }

    fn same(&self, other: &Self) -> (equal: bool) {
        *self == *other
    }
}

/// Explicit eligibility projection; an empty blocker set is the only eligible state.
#[derive(Clone, Debug, PartialEq, Eq)]
pub struct AutoInjectionEligibility {
    pub eligible: bool,
    pub blockers: SortedSet<AutoInjectionBlocker>,
}

/// The model of [`AutoInjectionEligibility`].
pub struct AutoInjectionEligibilityView {
    pub eligible: bool,
    pub blockers: Set<AutoInjectionBlocker>,
}

impl DeepView for AutoInjectionEligibility {
    type V = AutoInjectionEligibilityView;

    open spec fn deep_view(&self) -> AutoInjectionEligibilityView {
        AutoInjectionEligibilityView {
            eligible: self.eligible.deep_view(),
            blockers: self.blockers.deep_view(),
        }
    }
}

impl Value for AutoInjectionEligibility {
    fn copied(&self) -> (copy: Self) {
        AutoInjectionEligibility {
            eligible: self.eligible.copied(),
            blockers: self.blockers.copied(),
        }
    }

    fn same(&self, other: &Self) -> (equal: bool) {
        self.eligible.same(&other.eligible)
            && self.blockers.same(&other.blockers)
    }
}

/// Projection of one immutable Context revision.
#[derive(Clone, Debug, PartialEq, Eq)]
pub struct RevisionProjection {
    pub revision: ContextRevision,
    pub is_head: bool,
    pub review_summary: ReviewSummary,
    pub review_event_ids: SortedSet<EventId>,
    pub lifecycle: RevisionLifecycle,
}

/// The model of [`RevisionProjection`].
pub struct RevisionProjectionView {
    pub revision: ContextRevisionView,
    pub is_head: bool,
    pub review_summary: ReviewSummary,
    pub review_event_ids: Set<EventId>,
    pub lifecycle: RevisionLifecycle,
}

impl DeepView for RevisionProjection {
    type V = RevisionProjectionView;

    open spec fn deep_view(&self) -> RevisionProjectionView {
        RevisionProjectionView {
            revision: self.revision.deep_view(),
            is_head: self.is_head.deep_view(),
            review_summary: self.review_summary.deep_view(),
            review_event_ids: self.review_event_ids.deep_view(),
            lifecycle: self.lifecycle.deep_view(),
        }
    }
}

impl Value for RevisionProjection {
    fn copied(&self) -> (copy: Self) {
        RevisionProjection {
            revision: self.revision.copied(),
            is_head: self.is_head.copied(),
            review_summary: self.review_summary.copied(),
            review_event_ids: self.review_event_ids.copied(),
            lifecycle: self.lifecycle.copied(),
        }
    }

    fn same(&self, other: &Self) -> (equal: bool) {
        self.revision.same(&other.revision)
            && self.is_head.same(&other.is_head)
            && self.review_summary.same(&other.review_summary)
            && self.review_event_ids.same(&other.review_event_ids)
            && self.lifecycle.same(&other.lifecycle)
    }
}

/// Projection of one Context item and both of its independent DAG dimensions.
#[derive(Clone, Debug, PartialEq, Eq)]
pub struct ContextProjection {
    pub context_id: ContextId,
    pub revisions: SortedMap<RevisionId, RevisionProjection>,
    pub revision_heads: SortedSet<RevisionId>,
    pub reviews: SortedMap<EventId, Review>,
    pub publications: SortedMap<PublicationId, Publication>,
    pub publication_heads: SortedSet<PublicationId>,
    pub governance: ContextGovernanceStatus,
    pub auto_injection: AutoInjectionEligibility,
}

/// The model of [`ContextProjection`].
pub struct ContextProjectionView {
    pub context_id: ContextId,
    pub revisions: Map<RevisionId, RevisionProjectionView>,
    pub revision_heads: Set<RevisionId>,
    pub reviews: Map<EventId, ReviewView>,
    pub publications: Map<PublicationId, PublicationView>,
    pub publication_heads: Set<PublicationId>,
    pub governance: ContextGovernanceStatusView,
    pub auto_injection: AutoInjectionEligibilityView,
}

impl DeepView for ContextProjection {
    type V = ContextProjectionView;

    open spec fn deep_view(&self) -> ContextProjectionView {
        ContextProjectionView {
            context_id: self.context_id.deep_view(),
            revisions: self.revisions.deep_view(),
            revision_heads: self.revision_heads.deep_view(),
            reviews: self.reviews.deep_view(),
            publications: self.publications.deep_view(),
            publication_heads: self.publication_heads.deep_view(),
            governance: self.governance.deep_view(),
            auto_injection: self.auto_injection.deep_view(),
        }
    }
}

impl Value for ContextProjection {
    fn copied(&self) -> (copy: Self) {
        ContextProjection {
            context_id: self.context_id.copied(),
            revisions: self.revisions.copied(),
            revision_heads: self.revision_heads.copied(),
            reviews: self.reviews.copied(),
            publications: self.publications.copied(),
            publication_heads: self.publication_heads.copied(),
            governance: self.governance.copied(),
            auto_injection: self.auto_injection.copied(),
        }
    }

    fn same(&self, other: &Self) -> (equal: bool) {
        self.context_id.same(&other.context_id)
            && self.revisions.same(&other.revisions)
            && self.revision_heads.same(&other.revision_heads)
            && self.reviews.same(&other.reviews)
            && self.publications.same(&other.publications)
            && self.publication_heads.same(&other.publication_heads)
            && self.governance.same(&other.governance)
            && self.auto_injection.same(&other.auto_injection)
    }
}

/// Deterministic pair of accepted Contexts requiring human semantic review.
#[derive(Clone, Debug, PartialEq, Eq)]
pub struct SemanticConflictCandidate {
    pub space_id: SpaceId,
    pub topic_key: String,
    pub participants: Vec<ConflictParticipant>,
}

/// The model of [`SemanticConflictCandidate`].
pub struct SemanticConflictCandidateView {
    pub space_id: SpaceId,
    pub topic_key: Seq<char>,
    pub participants: Seq<ConflictParticipantView>,
}

impl DeepView for SemanticConflictCandidate {
    type V = SemanticConflictCandidateView;

    open spec fn deep_view(&self) -> SemanticConflictCandidateView {
        SemanticConflictCandidateView {
            space_id: self.space_id.deep_view(),
            topic_key: self.topic_key.deep_view(),
            participants: self.participants.deep_view(),
        }
    }
}

impl Value for SemanticConflictCandidate {
    fn copied(&self) -> (copy: Self) {
        SemanticConflictCandidate {
            space_id: self.space_id.copied(),
            topic_key: self.topic_key.copied(),
            participants: self.participants.copied(),
        }
    }

    fn same(&self, other: &Self) -> (equal: bool) {
        self.space_id.same(&other.space_id)
            && self.topic_key.same(&other.topic_key)
            && self.participants.same(&other.participants)
    }
}

/// Reasons a confirmed semantic conflict is still open.
#[derive(Clone, Copy, Debug, PartialEq, Eq, Structural)]
pub enum SemanticConflictOpenReason {
    NoResolution,
    ResolutionConflict,
    PublicationHeadsNotConverged,
    ResolutionDoesNotCoverCurrentPublicationHeads,
}

impl DeepView for SemanticConflictOpenReason {
    type V = SemanticConflictOpenReason;

    open spec fn deep_view(&self) -> SemanticConflictOpenReason {
        *self
    }
}

impl Value for SemanticConflictOpenReason {
    fn copied(&self) -> (copy: Self) {
        *self
    }

    fn same(&self, other: &Self) -> (equal: bool) {
        *self == *other
    }
}

/// Current state of one confirmed semantic conflict.
#[derive(Clone, Debug, PartialEq, Eq)]
pub enum SemanticConflictStatus {
    Open {
        reasons: SortedSet<SemanticConflictOpenReason>,
    },
    Resolved {
        resolution_id: ResolutionId,
    },
}

/// The model of [`SemanticConflictStatus`].
pub enum SemanticConflictStatusView {
    Open {
        reasons: Set<SemanticConflictOpenReason>,
    },
    Resolved {
        resolution_id: ResolutionId,
    },
}

impl DeepView for SemanticConflictStatus {
    type V = SemanticConflictStatusView;

    open spec fn deep_view(&self) -> SemanticConflictStatusView {
        match self {
            SemanticConflictStatus::Open { reasons } => {
                SemanticConflictStatusView::Open { reasons: reasons.deep_view() }
            },
            SemanticConflictStatus::Resolved { resolution_id } => {
                SemanticConflictStatusView::Resolved { resolution_id: resolution_id.deep_view() }
            },
        }
    }
}

impl Value for SemanticConflictStatus {
    fn copied(&self) -> (copy: Self) {
        match self {
            SemanticConflictStatus::Open { reasons } => SemanticConflictStatus::Open { reasons: reasons.copied() },
            SemanticConflictStatus::Resolved { resolution_id } => {
                SemanticConflictStatus::Resolved { resolution_id: resolution_id.copied() }
            },
        }
    }

    fn same(&self, other: &Self) -> (equal: bool) {
        match (self, other) {
            (
                SemanticConflictStatus::Open { reasons: left_reasons },
                SemanticConflictStatus::Open { reasons: right_reasons },
            ) => left_reasons.same(right_reasons),
            (
                SemanticConflictStatus::Resolved { resolution_id: left_resolution_id },
                SemanticConflictStatus::Resolved { resolution_id: right_resolution_id },
            ) => left_resolution_id.same(right_resolution_id),
            _ => false,
        }
    }
}

/// Confirmed conflict plus its independently reduced Resolution DAG.
#[derive(Clone, Debug, PartialEq, Eq)]
pub struct SemanticConflictProjection {
    pub space_id: SpaceId,
    pub conflict: SemanticConflict,
    pub resolutions: SortedMap<ResolutionId, ConflictResolution>,
    pub resolution_heads: SortedSet<ResolutionId>,
    pub status: SemanticConflictStatus,
}

/// The model of [`SemanticConflictProjection`].
pub struct SemanticConflictProjectionView {
    pub space_id: SpaceId,
    pub conflict: SemanticConflictView,
    pub resolutions: Map<ResolutionId, ConflictResolutionView>,
    pub resolution_heads: Set<ResolutionId>,
    pub status: SemanticConflictStatusView,
}

impl DeepView for SemanticConflictProjection {
    type V = SemanticConflictProjectionView;

    open spec fn deep_view(&self) -> SemanticConflictProjectionView {
        SemanticConflictProjectionView {
            space_id: self.space_id.deep_view(),
            conflict: self.conflict.deep_view(),
            resolutions: self.resolutions.deep_view(),
            resolution_heads: self.resolution_heads.deep_view(),
            status: self.status.deep_view(),
        }
    }
}

impl Value for SemanticConflictProjection {
    fn copied(&self) -> (copy: Self) {
        SemanticConflictProjection {
            space_id: self.space_id.copied(),
            conflict: self.conflict.copied(),
            resolutions: self.resolutions.copied(),
            resolution_heads: self.resolution_heads.copied(),
            status: self.status.copied(),
        }
    }

    fn same(&self, other: &Self) -> (equal: bool) {
        self.space_id.same(&other.space_id)
            && self.conflict.same(&other.conflict)
            && self.resolutions.same(&other.resolutions)
            && self.resolution_heads.same(&other.resolution_heads)
            && self.status.same(&other.status)
    }
}

/// Intent DAG projection for a `ContextSpace`.
#[derive(Clone, Debug, PartialEq, Eq)]
pub struct IntentProjection {
    pub revisions: SortedMap<RevisionId, IntentRevision>,
    pub heads: SortedSet<RevisionId>,
}

/// The model of [`IntentProjection`].
pub struct IntentProjectionView {
    pub revisions: Map<RevisionId, IntentRevisionView>,
    pub heads: Set<RevisionId>,
}

impl DeepView for IntentProjection {
    type V = IntentProjectionView;

    open spec fn deep_view(&self) -> IntentProjectionView {
        IntentProjectionView {
            revisions: self.revisions.deep_view(),
            heads: self.heads.deep_view(),
        }
    }
}

impl Value for IntentProjection {
    fn copied(&self) -> (copy: Self) {
        IntentProjection {
            revisions: self.revisions.copied(),
            heads: self.heads.copied(),
        }
    }

    fn same(&self, other: &Self) -> (equal: bool) {
        self.revisions.same(&other.revisions)
            && self.heads.same(&other.heads)
    }
}

/// Projection of one valid `ContextSpace`.
#[derive(Clone, Debug, PartialEq, Eq)]
pub struct ContextSpaceProjection {
    pub space_id: SpaceId,
    pub intent: IntentProjection,
    pub contexts: SortedMap<ContextId, ContextProjection>,
}

/// The model of [`ContextSpaceProjection`].
pub struct ContextSpaceProjectionView {
    pub space_id: SpaceId,
    pub intent: IntentProjectionView,
    pub contexts: Map<ContextId, ContextProjectionView>,
}

impl DeepView for ContextSpaceProjection {
    type V = ContextSpaceProjectionView;

    open spec fn deep_view(&self) -> ContextSpaceProjectionView {
        ContextSpaceProjectionView {
            space_id: self.space_id.deep_view(),
            intent: self.intent.deep_view(),
            contexts: self.contexts.deep_view(),
        }
    }
}

impl Value for ContextSpaceProjection {
    fn copied(&self) -> (copy: Self) {
        ContextSpaceProjection {
            space_id: self.space_id.copied(),
            intent: self.intent.copied(),
            contexts: self.contexts.copied(),
        }
    }

    fn same(&self, other: &Self) -> (equal: bool) {
        self.space_id.same(&other.space_id)
            && self.intent.same(&other.intent)
            && self.contexts.same(&other.contexts)
    }
}

/// Projection of one unassigned Candidate creation event.
///
/// Candidate projections deliberately have no Space, publication, conflict, or
/// automatic-injection state. Confirmation is a later lifecycle operation.
#[derive(Clone, Debug, PartialEq, Eq)]
pub struct CandidateProjection {
    pub event_id: EventId,
    pub candidate: ContextCandidate,
}

/// The model of [`CandidateProjection`].
pub struct CandidateProjectionView {
    pub event_id: EventId,
    pub candidate: ContextCandidateView,
}

impl DeepView for CandidateProjection {
    type V = CandidateProjectionView;

    open spec fn deep_view(&self) -> CandidateProjectionView {
        CandidateProjectionView {
            event_id: self.event_id.deep_view(),
            candidate: self.candidate.deep_view(),
        }
    }
}

impl Value for CandidateProjection {
    fn copied(&self) -> (copy: Self) {
        CandidateProjection {
            event_id: self.event_id.copied(),
            candidate: self.candidate.copied(),
        }
    }

    fn same(&self, other: &Self) -> (equal: bool) {
        self.event_id.same(&other.event_id)
            && self.candidate.same(&other.candidate)
    }
}

/// Unique valid Candidate submission used by the idempotency index.
#[derive(Clone, Debug, PartialEq, Eq)]
pub struct CandidateSubmissionProjection {
    pub submission_id: SubmissionId,
    pub candidate_id: CandidateId,
    pub event_id: EventId,
    pub source_episode: WorkEpisodeRef,
    pub content_hash: String,
}

/// The model of [`CandidateSubmissionProjection`].
pub struct CandidateSubmissionProjectionView {
    pub submission_id: SubmissionId,
    pub candidate_id: CandidateId,
    pub event_id: EventId,
    pub source_episode: WorkEpisodeRef,
    pub content_hash: Seq<char>,
}

impl DeepView for CandidateSubmissionProjection {
    type V = CandidateSubmissionProjectionView;

    open spec fn deep_view(&self) -> CandidateSubmissionProjectionView {
        CandidateSubmissionProjectionView {
            submission_id: self.submission_id.deep_view(),
            candidate_id: self.candidate_id.deep_view(),
            event_id: self.event_id.deep_view(),
            source_episode: self.source_episode.deep_view(),
            content_hash: self.content_hash.deep_view(),
        }
    }
}

impl Value for CandidateSubmissionProjection {
    fn copied(&self) -> (copy: Self) {
        CandidateSubmissionProjection {
            submission_id: self.submission_id.copied(),
            candidate_id: self.candidate_id.copied(),
            event_id: self.event_id.copied(),
            source_episode: self.source_episode.copied(),
            content_hash: self.content_hash.copied(),
        }
    }

    fn same(&self, other: &Self) -> (equal: bool) {
        self.submission_id.same(&other.submission_id)
            && self.candidate_id.same(&other.candidate_id)
            && self.event_id.same(&other.event_id)
            && self.source_episode.same(&other.source_episode)
            && self.content_hash.same(&other.content_hash)
    }
}

/// Submission-local authoritative conflict; unrelated submissions remain usable.
#[derive(Clone, Debug, PartialEq, Eq)]
pub struct CandidateSubmissionConflict {
    pub submission_id: SubmissionId,
    pub event_ids: SortedSet<EventId>,
    pub candidate_ids: SortedSet<CandidateId>,
    pub content_hashes: SortedSet<String>,
}

/// The model of [`CandidateSubmissionConflict`].
pub struct CandidateSubmissionConflictView {
    pub submission_id: SubmissionId,
    pub event_ids: Set<EventId>,
    pub candidate_ids: Set<CandidateId>,
    pub content_hashes: Set<Seq<char>>,
}

impl DeepView for CandidateSubmissionConflict {
    type V = CandidateSubmissionConflictView;

    open spec fn deep_view(&self) -> CandidateSubmissionConflictView {
        CandidateSubmissionConflictView {
            submission_id: self.submission_id.deep_view(),
            event_ids: self.event_ids.deep_view(),
            candidate_ids: self.candidate_ids.deep_view(),
            content_hashes: self.content_hashes.deep_view(),
        }
    }
}

impl Value for CandidateSubmissionConflict {
    fn copied(&self) -> (copy: Self) {
        CandidateSubmissionConflict {
            submission_id: self.submission_id.copied(),
            event_ids: self.event_ids.copied(),
            candidate_ids: self.candidate_ids.copied(),
            content_hashes: self.content_hashes.copied(),
        }
    }

    fn same(&self, other: &Self) -> (equal: bool) {
        self.submission_id.same(&other.submission_id)
            && self.event_ids.same(&other.event_ids)
            && self.candidate_ids.same(&other.candidate_ids)
            && self.content_hashes.same(&other.content_hashes)
    }
}

/// One valid Candidate confirmation fact and its defining Event.
#[derive(Clone, Debug, PartialEq, Eq)]
pub struct CandidateConfirmationProjection {
    pub event_id: EventId,
    pub confirmation: CandidateConfirmation,
}

/// The model of [`CandidateConfirmationProjection`].
pub struct CandidateConfirmationProjectionView {
    pub event_id: EventId,
    pub confirmation: CandidateConfirmationView,
}

impl DeepView for CandidateConfirmationProjection {
    type V = CandidateConfirmationProjectionView;

    open spec fn deep_view(&self) -> CandidateConfirmationProjectionView {
        CandidateConfirmationProjectionView {
            event_id: self.event_id.deep_view(),
            confirmation: self.confirmation.deep_view(),
        }
    }
}

impl Value for CandidateConfirmationProjection {
    fn copied(&self) -> (copy: Self) {
        CandidateConfirmationProjection {
            event_id: self.event_id.copied(),
            confirmation: self.confirmation.copied(),
        }
    }

    fn same(&self, other: &Self) -> (equal: bool) {
        self.event_id.same(&other.event_id)
            && self.confirmation.same(&other.confirmation)
    }
}

/// Multiple Confirmation Events for one Candidate; no winner is selected.
#[derive(Clone, Debug, PartialEq, Eq)]
pub struct CandidateConfirmationConflict {
    pub candidate_id: CandidateId,
    pub confirmation_ids: SortedSet<ConfirmationId>,
    pub event_ids: SortedSet<EventId>,
}

/// The model of [`CandidateConfirmationConflict`].
pub struct CandidateConfirmationConflictView {
    pub candidate_id: CandidateId,
    pub confirmation_ids: Set<ConfirmationId>,
    pub event_ids: Set<EventId>,
}

impl DeepView for CandidateConfirmationConflict {
    type V = CandidateConfirmationConflictView;

    open spec fn deep_view(&self) -> CandidateConfirmationConflictView {
        CandidateConfirmationConflictView {
            candidate_id: self.candidate_id.deep_view(),
            confirmation_ids: self.confirmation_ids.deep_view(),
            event_ids: self.event_ids.deep_view(),
        }
    }
}

impl Value for CandidateConfirmationConflict {
    fn copied(&self) -> (copy: Self) {
        CandidateConfirmationConflict {
            candidate_id: self.candidate_id.copied(),
            confirmation_ids: self.confirmation_ids.copied(),
            event_ids: self.event_ids.copied(),
        }
    }

    fn same(&self, other: &Self) -> (equal: bool) {
        self.candidate_id.same(&other.candidate_id)
            && self.confirmation_ids.same(&other.confirmation_ids)
            && self.event_ids.same(&other.event_ids)
    }
}

/// One valid Context-to-Space association fact and its defining Event.
#[derive(Clone, Debug, PartialEq, Eq)]
pub struct ContextSpaceAssociationProjection {
    pub event_id: EventId,
    pub association: ContextSpaceAssociation,
}

/// The model of [`ContextSpaceAssociationProjection`].
pub struct ContextSpaceAssociationProjectionView {
    pub event_id: EventId,
    pub association: ContextSpaceAssociationView,
}

impl DeepView for ContextSpaceAssociationProjection {
    type V = ContextSpaceAssociationProjectionView;

    open spec fn deep_view(&self) -> ContextSpaceAssociationProjectionView {
        ContextSpaceAssociationProjectionView {
            event_id: self.event_id.deep_view(),
            association: self.association.deep_view(),
        }
    }
}

impl Value for ContextSpaceAssociationProjection {
    fn copied(&self) -> (copy: Self) {
        ContextSpaceAssociationProjection {
            event_id: self.event_id.copied(),
            association: self.association.copied(),
        }
    }

    fn same(&self, other: &Self) -> (equal: bool) {
        self.event_id.same(&other.event_id)
            && self.association.same(&other.association)
    }
}

/// Multiple causal Association Heads for one Context; no winner is selected.
#[derive(Clone, Debug, PartialEq, Eq)]
pub struct ContextSpaceAssociationConflict {
    pub context_id: ContextId,
    pub head_ids: SortedSet<SpaceAssociationId>,
}

/// The model of [`ContextSpaceAssociationConflict`].
pub struct ContextSpaceAssociationConflictView {
    pub context_id: ContextId,
    pub head_ids: Set<SpaceAssociationId>,
}

impl DeepView for ContextSpaceAssociationConflict {
    type V = ContextSpaceAssociationConflictView;

    open spec fn deep_view(&self) -> ContextSpaceAssociationConflictView {
        ContextSpaceAssociationConflictView {
            context_id: self.context_id.deep_view(),
            head_ids: self.head_ids.deep_view(),
        }
    }
}

impl Value for ContextSpaceAssociationConflict {
    fn copied(&self) -> (copy: Self) {
        ContextSpaceAssociationConflict {
            context_id: self.context_id.copied(),
            head_ids: self.head_ids.copied(),
        }
    }

    fn same(&self, other: &Self) -> (equal: bool) {
        self.context_id.same(&other.context_id)
            && self.head_ids.same(&other.head_ids)
    }
}

/// One valid persistent engineering observation and its resolved Context owner.
#[derive(Clone, Debug, PartialEq, Eq)]
pub struct EngineeringReferenceProjection {
    pub event_id: EventId,
    pub space_id: SpaceId,
    pub context_id: ContextId,
    pub revision_id: RevisionId,
    pub reference: EngineeringReference,
}

/// The model of [`EngineeringReferenceProjection`].
pub struct EngineeringReferenceProjectionView {
    pub event_id: EventId,
    pub space_id: SpaceId,
    pub context_id: ContextId,
    pub revision_id: RevisionId,
    pub reference: EngineeringReferenceView,
}

impl DeepView for EngineeringReferenceProjection {
    type V = EngineeringReferenceProjectionView;

    open spec fn deep_view(&self) -> EngineeringReferenceProjectionView {
        EngineeringReferenceProjectionView {
            event_id: self.event_id.deep_view(),
            space_id: self.space_id.deep_view(),
            context_id: self.context_id.deep_view(),
            revision_id: self.revision_id.deep_view(),
            reference: self.reference.deep_view(),
        }
    }
}

impl Value for EngineeringReferenceProjection {
    fn copied(&self) -> (copy: Self) {
        EngineeringReferenceProjection {
            event_id: self.event_id.copied(),
            space_id: self.space_id.copied(),
            context_id: self.context_id.copied(),
            revision_id: self.revision_id.copied(),
            reference: self.reference.copied(),
        }
    }

    fn same(&self, other: &Self) -> (equal: bool) {
        self.event_id.same(&other.event_id)
            && self.space_id.same(&other.space_id)
            && self.context_id.same(&other.context_id)
            && self.revision_id.same(&other.revision_id)
            && self.reference.same(&other.reference)
    }
}

/// Complete deterministic result of reducing one event multiset.
#[derive(Clone, Debug, PartialEq, Eq)]
pub struct DomainProjection {
    pub candidates: SortedMap<CandidateId, CandidateProjection>,
    pub candidate_submissions: SortedMap<SubmissionId, CandidateSubmissionProjection>,
    pub candidate_submission_conflicts: SortedMap<SubmissionId, CandidateSubmissionConflict>,
    pub candidate_confirmations: SortedMap<ConfirmationId, CandidateConfirmationProjection>,
    pub candidate_confirmation_conflicts: SortedMap<CandidateId, CandidateConfirmationConflict>,
    pub context_space_associations: SortedMap<SpaceAssociationId, ContextSpaceAssociationProjection>,
    pub context_space_association_heads: SortedMap<ContextId, SortedSet<SpaceAssociationId>>,
    pub context_space_association_conflicts: SortedMap<ContextId, ContextSpaceAssociationConflict>,
    pub spaces: SortedMap<SpaceId, ContextSpaceProjection>,
    pub engineering_references: SortedMap<ReferenceId, EngineeringReferenceProjection>,
    pub semantic_conflict_candidates: Vec<SemanticConflictCandidate>,
    pub semantic_conflicts: SortedMap<ConflictId, SemanticConflictProjection>,
    pub quarantined_event_ids: SortedSet<EventId>,
    pub diagnostics: Vec<ReducerDiagnostic>,
}

/// The model of [`DomainProjection`].
pub struct DomainProjectionView {
    pub candidates: Map<CandidateId, CandidateProjectionView>,
    pub candidate_submissions: Map<SubmissionId, CandidateSubmissionProjectionView>,
    pub candidate_submission_conflicts: Map<SubmissionId, CandidateSubmissionConflictView>,
    pub candidate_confirmations: Map<ConfirmationId, CandidateConfirmationProjectionView>,
    pub candidate_confirmation_conflicts: Map<CandidateId, CandidateConfirmationConflictView>,
    pub context_space_associations: Map<SpaceAssociationId, ContextSpaceAssociationProjectionView>,
    pub context_space_association_heads: Map<ContextId, Set<SpaceAssociationId>>,
    pub context_space_association_conflicts: Map<ContextId, ContextSpaceAssociationConflictView>,
    pub spaces: Map<SpaceId, ContextSpaceProjectionView>,
    pub engineering_references: Map<ReferenceId, EngineeringReferenceProjectionView>,
    pub semantic_conflict_candidates: Seq<SemanticConflictCandidateView>,
    pub semantic_conflicts: Map<ConflictId, SemanticConflictProjectionView>,
    pub quarantined_event_ids: Set<EventId>,
    pub diagnostics: Seq<ReducerDiagnosticView>,
}

impl DeepView for DomainProjection {
    type V = DomainProjectionView;

    open spec fn deep_view(&self) -> DomainProjectionView {
        DomainProjectionView {
            candidates: self.candidates.deep_view(),
            candidate_submissions: self.candidate_submissions.deep_view(),
            candidate_submission_conflicts: self.candidate_submission_conflicts.deep_view(),
            candidate_confirmations: self.candidate_confirmations.deep_view(),
            candidate_confirmation_conflicts: self.candidate_confirmation_conflicts.deep_view(),
            context_space_associations: self.context_space_associations.deep_view(),
            context_space_association_heads: self.context_space_association_heads.deep_view(),
            context_space_association_conflicts: self.context_space_association_conflicts.deep_view(),
            spaces: self.spaces.deep_view(),
            engineering_references: self.engineering_references.deep_view(),
            semantic_conflict_candidates: self.semantic_conflict_candidates.deep_view(),
            semantic_conflicts: self.semantic_conflicts.deep_view(),
            quarantined_event_ids: self.quarantined_event_ids.deep_view(),
            diagnostics: self.diagnostics.deep_view(),
        }
    }
}

impl Value for DomainProjection {
    fn copied(&self) -> (copy: Self) {
        DomainProjection {
            candidates: self.candidates.copied(),
            candidate_submissions: self.candidate_submissions.copied(),
            candidate_submission_conflicts: self.candidate_submission_conflicts.copied(),
            candidate_confirmations: self.candidate_confirmations.copied(),
            candidate_confirmation_conflicts: self.candidate_confirmation_conflicts.copied(),
            context_space_associations: self.context_space_associations.copied(),
            context_space_association_heads: self.context_space_association_heads.copied(),
            context_space_association_conflicts: self.context_space_association_conflicts.copied(),
            spaces: self.spaces.copied(),
            engineering_references: self.engineering_references.copied(),
            semantic_conflict_candidates: self.semantic_conflict_candidates.copied(),
            semantic_conflicts: self.semantic_conflicts.copied(),
            quarantined_event_ids: self.quarantined_event_ids.copied(),
            diagnostics: self.diagnostics.copied(),
        }
    }

    fn same(&self, other: &Self) -> (equal: bool) {
        self.candidates.same(&other.candidates)
            && self.candidate_submissions.same(&other.candidate_submissions)
            && self.candidate_submission_conflicts.same(&other.candidate_submission_conflicts)
            && self.candidate_confirmations.same(&other.candidate_confirmations)
            && self.candidate_confirmation_conflicts.same(&other.candidate_confirmation_conflicts)
            && self.context_space_associations.same(&other.context_space_associations)
            && self.context_space_association_heads.same(&other.context_space_association_heads)
            && self.context_space_association_conflicts.same(&other.context_space_association_conflicts)
            && self.spaces.same(&other.spaces)
            && self.engineering_references.same(&other.engineering_references)
            && self.semantic_conflict_candidates.same(&other.semantic_conflict_candidates)
            && self.semantic_conflicts.same(&other.semantic_conflicts)
            && self.quarantined_event_ids.same(&other.quarantined_event_ids)
            && self.diagnostics.same(&other.diagnostics)
    }
}

impl Default for DomainProjection {
    fn default() -> (projection: Self)
        ensures
            projection.deep_view() == empty_projection(),
    {
        let projection = DomainProjection {
            candidates: SortedMap::new(),
            candidate_submissions: SortedMap::new(),
            candidate_submission_conflicts: SortedMap::new(),
            candidate_confirmations: SortedMap::new(),
            candidate_confirmation_conflicts: SortedMap::new(),
            context_space_associations: SortedMap::new(),
            context_space_association_heads: SortedMap::new(),
            context_space_association_conflicts: SortedMap::new(),
            spaces: SortedMap::new(),
            engineering_references: SortedMap::new(),
            semantic_conflict_candidates: Vec::new(),
            semantic_conflicts: SortedMap::new(),
            quarantined_event_ids: SortedSet::new(),
            diagnostics: Vec::new(),
        };
        assert(projection.semantic_conflict_candidates.deep_view() =~= Seq::empty());
        assert(projection.diagnostics.deep_view() =~= Seq::empty());
        projection
    }
}

/// The projection of no events.
pub open spec fn empty_projection() -> DomainProjectionView {
    DomainProjectionView {
        candidates: Map::empty(),
        candidate_submissions: Map::empty(),
        candidate_submission_conflicts: Map::empty(),
        candidate_confirmations: Map::empty(),
        candidate_confirmation_conflicts: Map::empty(),
        context_space_associations: Map::empty(),
        context_space_association_heads: Map::empty(),
        context_space_association_conflicts: Map::empty(),
        spaces: Map::empty(),
        engineering_references: Map::empty(),
        semantic_conflict_candidates: Seq::empty(),
        semantic_conflicts: Map::empty(),
        quarantined_event_ids: Set::empty(),
        diagnostics: Seq::empty(),
    }
}

/// The place of a classification among all of them.
pub open spec fn code_rank(code: ReducerDiagnosticCode) -> u8 {
    match code {
        ReducerDiagnosticCode::DuplicateEventId => 0,
        ReducerDiagnosticCode::DuplicateCandidateId => 1,
        ReducerDiagnosticCode::DuplicateSubmissionId => 2,
        ReducerDiagnosticCode::DuplicateConfirmationId => 3,
        ReducerDiagnosticCode::DuplicateSpaceAssociationId => 4,
        ReducerDiagnosticCode::CandidateConfirmationConflict => 5,
        ReducerDiagnosticCode::DuplicateRevisionId => 6,
        ReducerDiagnosticCode::DuplicateReviewId => 7,
        ReducerDiagnosticCode::DuplicatePublicationId => 8,
        ReducerDiagnosticCode::DuplicateEvidenceId => 9,
        ReducerDiagnosticCode::DuplicateConflictId => 10,
        ReducerDiagnosticCode::DuplicateResolutionId => 11,
        ReducerDiagnosticCode::DuplicateReferenceId => 12,
        ReducerDiagnosticCode::DuplicateSpaceCreation => 13,
        ReducerDiagnosticCode::AmbiguousContextOwner => 14,
        ReducerDiagnosticCode::MissingSpace => 15,
        ReducerDiagnosticCode::InvalidRevisionReference => 16,
        ReducerDiagnosticCode::InvalidContextRelation => 17,
        ReducerDiagnosticCode::InvalidContextRelationTarget => 18,
        ReducerDiagnosticCode::RevisionCycle => 19,
        ReducerDiagnosticCode::InvalidReviewReference => 20,
        ReducerDiagnosticCode::InvalidPublicationReference => 21,
        ReducerDiagnosticCode::PublicationCycle => 22,
        ReducerDiagnosticCode::InvalidSpaceAssociationReference => 23,
        ReducerDiagnosticCode::SpaceAssociationCycle => 24,
        ReducerDiagnosticCode::InvalidCandidateConfirmation => 25,
        ReducerDiagnosticCode::InvalidSemanticConflictReference => 26,
        ReducerDiagnosticCode::InvalidResolutionReference => 27,
        ReducerDiagnosticCode::ResolutionCycle => 28,
        ReducerDiagnosticCode::InvalidEngineeringReference => 29,
        ReducerDiagnosticCode::InvalidEngineeringReferenceTarget => 30,
    }
}

fn code_place(code: ReducerDiagnosticCode) -> (place: u8)
    ensures
        place == code_rank(code),
{
    match code {
        ReducerDiagnosticCode::DuplicateEventId => 0,
        ReducerDiagnosticCode::DuplicateCandidateId => 1,
        ReducerDiagnosticCode::DuplicateSubmissionId => 2,
        ReducerDiagnosticCode::DuplicateConfirmationId => 3,
        ReducerDiagnosticCode::DuplicateSpaceAssociationId => 4,
        ReducerDiagnosticCode::CandidateConfirmationConflict => 5,
        ReducerDiagnosticCode::DuplicateRevisionId => 6,
        ReducerDiagnosticCode::DuplicateReviewId => 7,
        ReducerDiagnosticCode::DuplicatePublicationId => 8,
        ReducerDiagnosticCode::DuplicateEvidenceId => 9,
        ReducerDiagnosticCode::DuplicateConflictId => 10,
        ReducerDiagnosticCode::DuplicateResolutionId => 11,
        ReducerDiagnosticCode::DuplicateReferenceId => 12,
        ReducerDiagnosticCode::DuplicateSpaceCreation => 13,
        ReducerDiagnosticCode::AmbiguousContextOwner => 14,
        ReducerDiagnosticCode::MissingSpace => 15,
        ReducerDiagnosticCode::InvalidRevisionReference => 16,
        ReducerDiagnosticCode::InvalidContextRelation => 17,
        ReducerDiagnosticCode::InvalidContextRelationTarget => 18,
        ReducerDiagnosticCode::RevisionCycle => 19,
        ReducerDiagnosticCode::InvalidReviewReference => 20,
        ReducerDiagnosticCode::InvalidPublicationReference => 21,
        ReducerDiagnosticCode::PublicationCycle => 22,
        ReducerDiagnosticCode::InvalidSpaceAssociationReference => 23,
        ReducerDiagnosticCode::SpaceAssociationCycle => 24,
        ReducerDiagnosticCode::InvalidCandidateConfirmation => 25,
        ReducerDiagnosticCode::InvalidSemanticConflictReference => 26,
        ReducerDiagnosticCode::InvalidResolutionReference => 27,
        ReducerDiagnosticCode::ResolutionCycle => 28,
        ReducerDiagnosticCode::InvalidEngineeringReference => 29,
        ReducerDiagnosticCode::InvalidEngineeringReferenceTarget => 30,
    }
}

/// The place of a reason among all of them.
pub open spec fn reason_rank(reason: SemanticConflictOpenReason) -> u8 {
    match reason {
        SemanticConflictOpenReason::NoResolution => 0,
        SemanticConflictOpenReason::ResolutionConflict => 1,
        SemanticConflictOpenReason::PublicationHeadsNotConverged => 2,
        SemanticConflictOpenReason::ResolutionDoesNotCoverCurrentPublicationHeads => 3,
    }
}

fn reason_place(reason: SemanticConflictOpenReason) -> (place: u8)
    ensures
        place == reason_rank(reason),
{
    match reason {
        SemanticConflictOpenReason::NoResolution => 0,
        SemanticConflictOpenReason::ResolutionConflict => 1,
        SemanticConflictOpenReason::PublicationHeadsNotConverged => 2,
        SemanticConflictOpenReason::ResolutionDoesNotCoverCurrentPublicationHeads => 3,
    }
}

impl Ordered for ReducerDiagnosticCode {
    open spec fn below(left: ReducerDiagnosticCode, right: ReducerDiagnosticCode) -> bool {
        code_rank(left) < code_rank(right)
    }

    proof fn order_laws(a: ReducerDiagnosticCode, b: ReducerDiagnosticCode, c: ReducerDiagnosticCode) {
    }

    fn is_below(&self, other: &Self) -> (result: bool) {
        code_place(*self) < code_place(*other)
    }
}

impl Ordered for AutoInjectionBlocker {
    open spec fn below(left: AutoInjectionBlocker, right: AutoInjectionBlocker) -> bool {
        match (left, right) {
            (AutoInjectionBlocker::NotAccepted, AutoInjectionBlocker::NotAccepted) => false,
            (AutoInjectionBlocker::NotAccepted, _) => true,
            (AutoInjectionBlocker::GovernanceConflict, AutoInjectionBlocker::UnresolvedSemanticConflict(_)) => true,
            (
                AutoInjectionBlocker::UnresolvedSemanticConflict(left),
                AutoInjectionBlocker::UnresolvedSemanticConflict(right),
            ) => ConflictId::below(left, right),
            _ => false,
        }
    }

    proof fn order_laws(a: AutoInjectionBlocker, b: AutoInjectionBlocker, c: AutoInjectionBlocker) {
        if let AutoInjectionBlocker::UnresolvedSemanticConflict(first) = a {
            if let AutoInjectionBlocker::UnresolvedSemanticConflict(second) = b {
                if let AutoInjectionBlocker::UnresolvedSemanticConflict(third) = c {
                    ConflictId::order_laws(first, second, third);
                }
                ConflictId::order_laws(first, second, second);
            }
            ConflictId::order_laws(first, first, first);
        }
    }

    fn is_below(&self, other: &Self) -> (result: bool) {
        match (*self, *other) {
            (AutoInjectionBlocker::NotAccepted, AutoInjectionBlocker::NotAccepted) => false,
            (AutoInjectionBlocker::NotAccepted, _) => true,
            (AutoInjectionBlocker::GovernanceConflict, AutoInjectionBlocker::UnresolvedSemanticConflict(_)) => true,
            (
                AutoInjectionBlocker::UnresolvedSemanticConflict(left),
                AutoInjectionBlocker::UnresolvedSemanticConflict(right),
            ) => left.is_below(&right),
            _ => false,
        }
    }
}

impl Ordered for SemanticConflictOpenReason {
    open spec fn below(left: SemanticConflictOpenReason, right: SemanticConflictOpenReason) -> bool {
        reason_rank(left) < reason_rank(right)
    }

    proof fn order_laws(a: SemanticConflictOpenReason, b: SemanticConflictOpenReason, c: SemanticConflictOpenReason) {
    }

    fn is_below(&self, other: &Self) -> (result: bool) {
        reason_place(*self) < reason_place(*other)
    }
}

impl Ordered for ConflictParticipant {
    open spec fn below(left: ConflictParticipantView, right: ConflictParticipantView) -> bool {
        if left.context_id != right.context_id {
            ContextId::below(left.context_id, right.context_id)
        } else if left.revision_id != right.revision_id {
            RevisionId::below(left.revision_id, right.revision_id)
        } else {
            PublicationId::below(left.publication_id, right.publication_id)
        }
    }

    proof fn order_laws(a: ConflictParticipantView, b: ConflictParticipantView, c: ConflictParticipantView) {
        ContextId::order_laws(a.context_id, b.context_id, c.context_id);
        ContextId::order_laws(b.context_id, a.context_id, c.context_id);
        RevisionId::order_laws(a.revision_id, b.revision_id, c.revision_id);
        RevisionId::order_laws(b.revision_id, a.revision_id, c.revision_id);
        PublicationId::order_laws(a.publication_id, b.publication_id, c.publication_id);
    }

    fn is_below(&self, other: &Self) -> (result: bool) {
        if self.context_id != other.context_id {
            self.context_id.is_below(&other.context_id)
        } else if self.revision_id != other.revision_id {
            self.revision_id.is_below(&other.revision_id)
        } else {
            self.publication_id.is_below(&other.publication_id)
        }
    }
}

impl Ordered for SemanticConflictCandidate {
    open spec fn below(left: SemanticConflictCandidateView, right: SemanticConflictCandidateView) -> bool {
        if left.space_id != right.space_id {
            SpaceId::below(left.space_id, right.space_id)
        } else if left.topic_key != right.topic_key {
            text_below(left.topic_key, right.topic_key)
        } else {
            list_below::<ConflictParticipant>(left.participants, right.participants)
        }
    }

    proof fn order_laws(
        a: SemanticConflictCandidateView,
        b: SemanticConflictCandidateView,
        c: SemanticConflictCandidateView,
    ) {
        SpaceId::order_laws(a.space_id, b.space_id, c.space_id);
        SpaceId::order_laws(b.space_id, a.space_id, c.space_id);
        String::order_laws(a.topic_key, b.topic_key, c.topic_key);
        String::order_laws(b.topic_key, a.topic_key, c.topic_key);
        <Vec<ConflictParticipant> as Ordered>::order_laws(a.participants, b.participants, c.participants);
    }

    fn is_below(&self, other: &Self) -> (result: bool) {
        if self.space_id != other.space_id {
            self.space_id.is_below(&other.space_id)
        } else if !self.topic_key.same(&other.topic_key) {
            self.topic_key.is_below(&other.topic_key)
        } else {
            self.participants.is_below(&other.participants)
        }
    }
}

impl Ordered for ReducerDiagnostic {
    open spec fn below(left: ReducerDiagnosticView, right: ReducerDiagnosticView) -> bool {
        if left.code != right.code {
            ReducerDiagnosticCode::below(left.code, right.code)
        } else if left.entity_id != right.entity_id {
            text_below(left.entity_id, right.entity_id)
        } else if left.event_ids != right.event_ids {
            list_below::<EventId>(left.event_ids, right.event_ids)
        } else {
            text_below(left.message, right.message)
        }
    }

    proof fn order_laws(a: ReducerDiagnosticView, b: ReducerDiagnosticView, c: ReducerDiagnosticView) {
        ReducerDiagnosticCode::order_laws(a.code, b.code, c.code);
        ReducerDiagnosticCode::order_laws(b.code, a.code, c.code);
        String::order_laws(a.entity_id, b.entity_id, c.entity_id);
        String::order_laws(b.entity_id, a.entity_id, c.entity_id);
        <Vec<EventId> as Ordered>::order_laws(a.event_ids, b.event_ids, c.event_ids);
        <Vec<EventId> as Ordered>::order_laws(b.event_ids, a.event_ids, c.event_ids);
        String::order_laws(a.message, b.message, c.message);
    }

    fn is_below(&self, other: &Self) -> (result: bool) {
        if self.code != other.code {
            self.code.is_below(&other.code)
        } else if !self.entity_id.same(&other.entity_id) {
            self.entity_id.is_below(&other.entity_id)
        } else if !self.event_ids.same(&other.event_ids) {
            self.event_ids.is_below(&other.event_ids)
        } else {
            self.message.is_below(&other.message)
        }
    }
}

} // verus!
