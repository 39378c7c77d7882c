//! Shared engineering context: identifiers, snapshots, validation rules, the event reducer and
//! the engineering graph rules, each stated as a contract and proved.

pub mod artifact_laws;
pub mod candidates;
pub mod checks;
pub mod collections;
pub mod confirmation;
pub mod confirmation_laws;
pub mod confirmed;
pub mod conflict_laws;
pub mod conflicts;
pub mod contexts;
pub mod dag;
pub mod definitions;
pub mod digest;
pub mod digest_laws;
pub mod document_laws;
pub mod engineering;
pub mod episode;
pub mod episode_laws;
pub mod error;
pub mod events;
pub mod extract;
pub mod extract_laws;
pub mod focus;
pub mod gather;
pub mod governance;
pub mod graph_build;
pub mod graph_contexts;
pub mod graph_laws;
pub mod hint_laws;
pub mod hints;
pub mod id_laws;
pub mod ids;
pub mod input_laws;
pub mod java_laws;
pub mod json;
pub mod json_laws;
pub mod laws;
pub mod lexical;
pub mod lineage;
pub mod local_laws;
pub mod model;
pub mod model_laws;
pub mod order;
pub mod order_laws;
pub mod origin_laws;
pub mod ownership;
pub mod pairs;
pub mod projection_laws;
pub mod reducer;
pub mod reduction_laws;
pub mod registry;
pub mod relocation;
pub mod resolution_laws;
pub mod resolver;
pub mod scan_laws;
pub mod settlement_laws;
pub mod snapshot;
pub mod sources;
pub mod standing_laws;
pub mod statuses;
pub mod storage;
pub mod task;
pub mod task_laws;
pub mod text;
pub mod text_laws;
pub mod value;
pub mod working_intent;

pub use crate::collections::{SortedMap, SortedSet};
pub use crate::confirmation::{
    CandidateConfirmation, CandidateConfirmationCausalRefs, CandidateConfirmationDraft,
    CandidateConfirmationInputs, CandidateConfirmationNewSpace, CandidateConfirmationOperation,
    CandidateConfirmationPlan, CandidateConfirmationPlanEventIds, CandidateConfirmationPlanIdentities,
    CandidateConfirmationPrimaryReference, CandidateConfirmationRequest, CandidatePrimarySelection,
    ContextSpaceAssociation, ContextSpaceAssociationDraft, ContextSpaceAssociationOrigin, DecisionSource,
    OptionalCandidateEdits, ProblemViewEdit, SemanticConflictOpening, SemanticConflictOpeningDraft,
    TopicKeyEdit, context_revision_as_draft, context_revision_content_hash,
};
pub use crate::engineering::{
    ArtifactAssociationKind, ArtifactKey, ArtifactKind, ArtifactLocator, ArtifactRelationKind,
    ArtifactResolution, ContextArtifactAssociation, ContextRelation, ContextRelationKind, EngineeringArtifact,
    EngineeringGraphEdge, EngineeringReference, EngineeringReferenceDraft, ReferenceRelation,
    RepoRelativePath, RepositoryIdentity, ResolutionStatus, ResolvedFocus,
};
pub use crate::episode::{
    AgentCheckpoint, ArtifactAction, ArtifactRef, AutomaticCandidateStatus, AutomaticContextCandidate,
    CandidateAnalysis, CandidateAnalysisStatus, CandidateAssessmentPath, CandidateAssessmentRelation,
    CandidateBuilderProvenance, CandidateConfidence, CandidateRelationAssessment,
    CandidateSpaceRecommendation, CandidateSpaceRecommendationPath, CaptureEvidenceRef, CaptureSourceRef,
    CaptureUnknown, CheckpointClaim, ContextCandidate, ContextRevisionRef, ContextUseDisposition,
    IntentRevisionRange, NonLocatingSignalRef, NormalizedBreadcrumbKind, NormalizedWorkObservation,
    RecommendedSpaceRole, TestOutcomeStatus, WorkEpisode, WorkEpisodeRef, WorkEpisodeStatus, WorkObservation,
    WorkSourceRef, candidate_submission_content_hash,
};
pub use crate::error::{Error, ErrorKind, Result};
pub use crate::events::{
    AutoInjectionBlocker, AutoInjectionEligibility, CandidateConfirmationConflict,
    CandidateConfirmationProjection, CandidateProjection, CandidateSubmissionConflict,
    CandidateSubmissionProjection, ContextGovernanceStatus, ContextProjection,
    ContextSpaceAssociationConflict, ContextSpaceAssociationProjection, ContextSpaceProjection,
    DomainProjection, EngineeringReferenceProjection, IntentProjection, ReducerDiagnostic,
    ReducerDiagnosticCode, ReducerEvent, ReducerPayload, ReviewSummary, RevisionLifecycle, RevisionProjection,
    SemanticConflictCandidate, SemanticConflictOpenReason, SemanticConflictProjection, SemanticConflictStatus,
};
pub use crate::focus::{
    ARTIFACT_FOCUS_QUERY_BUDGET_MILLIS, ArtifactFocusHit, ArtifactFocusLookup, ArtifactFocusOutcome,
    ArtifactFocusReader, FocusRow, MAX_ARTIFACT_FOCUS_HITS,
};
pub use crate::graph_build::build_graph_context_snapshots;
pub use crate::graph_contexts::{
    GraphContextRelation, GraphContextSafety, GraphContextSafetyBlocker, GraphContextSnapshot,
    GraphContextStatus, ProjectedEngineeringReference,
};
pub use crate::hints::{
    PathCandidate, TextScan, camel_case_segments, derived_hint_terms, derived_path_stems, json_string_leaves,
    normalized_identifiers, scan_text, scan_texts,
};
pub use crate::ids::{
    REPOSITORY_ID_MAX_BYTES, REPOSITORY_ID_PATTERN,
    AgentCheckpointId, CandidateBuildId, CandidateId, CaptureId, CheckpointClaimId, ConfirmationId,
    ConflictId, ContextId, EventId, EvidenceId, ExternalSessionId, IdParseError, ProposedSpaceGroupKey,
    PublicationId, ReferenceId, RepositoryGroupId, RepositoryId, ResolutionId, ReviewId, RevisionId,
    SignalId, SpaceAssociationId, SpaceId, SpaceRecommendationId, SubmissionId, TaskId,
    TaskIntentRevisionId, TaskSessionId, WorkEpisodeId, WorkObservationId,
};
pub use crate::json::JsonValue;
pub use crate::model::{
    Applicability, ConflictParticipant, ConflictResolution, ConflictResolutionDraft, ConflictResolutionResult,
    ContextKind, ContextRevision, ContextRevisionDraft, EvidenceSnapshot, EvidenceSnapshotDraft, EvidenceType,
    IntentRevision, IntentSnapshot, Publication, PublicationAction, PublicationDraft, ResolutionOutcome,
    Review, ReviewDraft, ReviewVerdict, SemanticConflict, SemanticConflictDraft,
};
pub use crate::pairs::conflict_candidates;
pub use crate::reducer::reduce;
pub use crate::registry::{
    CatalogRepositorySpec, CheckoutPath, CheckoutState, InspectedRepository, LocalRepositoryLocator,
    ObservedCheckout, ObservedRepository, RegisteredRepository, RepositoryAvailability,
    RepositoryCatalogSyncReport, RepositoryRegistry,
};
pub use crate::relocation::{RelocationCandidate, relocatable_path};
pub use crate::resolver::{
    CandidateMatchEvidence, ContextPlace, EngineeringProjection, EngineeringReferenceResolver,
    IncompleteRepositoryScan, MatchBasis, ResolvedReferenceProjection,
};
pub use crate::snapshot::{
    PathState, RepositoryScanOutcome, RepositoryScanner, RepositorySnapshot, SnapshotArtifact, SourceFile,
    SourceParse, SourceScan,
};
pub use crate::sources::{
    ArtifactObservation, ArtifactSourceState, CapturedStream, MAX_REPOSITORY_SCAN_PLAN_PATHS,
    RepositoryScanPlan, RepositoryScannerLimits,
    ScanCoverage, SkippedFile, SkippedFileReason, SnapshotSourcePolicy, SourceLanguage, TrackedPathFacts,
};
pub use crate::storage::{
    EngineeringProjectionSnapshot, EngineeringProjectionStore, RetryState, SchemaStep, SqliteFailureKind,
};
pub use crate::task::{
    ExternalSessionLocator, TaskIntent, TaskIntentRevision, TaskSessionSnapshot, TaskSignal, TaskSignalKind,
    TaskSpaceAssociation,
};
pub use crate::working_intent::{
    MAX_WORKING_INTENT_TEXT_BYTES, MAX_WORKING_INTENT_ITEM_BYTES, MAX_WORKING_INTENT_ITEMS_PER_FIELD,
    MAX_WORKING_INTENT_TOTAL_BYTES, WorkingIntentSnapshot,
};
