//! Deterministic resolution of References against Repository snapshots.

use vstd::prelude::*;

use crate::checks::{blank, first_from, is_among, is_blank};
use crate::collections::SortedSet;
use crate::conflicts::same_items;
use crate::digest::{frame_all, framed_all, sha256_hex, sha256_text};
use crate::engineering::{
    ArtifactAssociationKind, ArtifactKey, ArtifactKeyView, ArtifactKind, ArtifactLocator, ArtifactLocatorView,
    ArtifactResolution, ArtifactResolutionView, ContextArtifactAssociation, ContextArtifactAssociationView,
    EngineeringArtifact, EngineeringArtifactView, EngineeringReference, EngineeringReferenceView,
    ReferenceRelation, ResolutionStatus,
};
use crate::error::{
    fails_as, first, given, invalid, invalid_input, invariant_violation, violated, ErrorView, Result,
};
use crate::graph_contexts::{
    GraphContextRelation, GraphContextRelationView, GraphContextSnapshot, GraphContextSnapshotView,
    ProjectedEngineeringReference, ProjectedEngineeringReferenceView,
};
use crate::ids::{ContextId, Identifier, ReferenceId, RepositoryId, RevisionId};
use crate::json::Json;
use crate::lexical::{concatenated, concatenated_same};
use crate::order::{
    Ordered, Placed, one_per_place, set_listing, sort_stably, sorting_ignores_order, stably_sorted,
};
use crate::snapshot::{
    RepositoryScanOutcome, RepositoryScanOutcomeView, RepositorySnapshot, RepositorySnapshotView,
    SnapshotArtifact, SnapshotArtifactView,
};
use crate::sources::{ScanCoverage, ScanCoverageView};
use crate::text::{joined2, joined4, same_text};
use crate::value::{filter_keeps, filter_push, push_value, take_next, Value};

verus! {

/// The policy under which References are resolved, as projections name it.
pub const RESOLVER_POLICY_VERSION: &'static str = "historical-context-snapshot-resolution-v2";

/// Typed evidence precedence used for a candidate match.
#[derive(Clone, Copy, Debug, PartialEq, Eq, Structural)]
pub enum MatchBasis {
    ExactFilePath,
    ExactModulePath,
    ExactApiLocator,
    ExactSchemaLocator,
    ExactQualifiedSymbolLocator,
    ExactQualifiedTestLocator,
    RepositoryUnavailable,
}

impl DeepView for MatchBasis {
    type V = MatchBasis;

    open spec fn deep_view(&self) -> MatchBasis {
        *self
    }
}

impl Value for MatchBasis {
    fn copied(&self) -> (copy: Self) {
        *self
    }

    fn same(&self, other: &Self) -> (equal: bool) {
        *self == *other
    }
}

/// Explainable evidence for one candidate at the winning precedence level.
#[derive(Clone, Debug, PartialEq, Eq)]
pub struct CandidateMatchEvidence {
    pub artifact_key: Option<ArtifactKey>,
    pub basis: MatchBasis,
    /// The confidence, as the bits of a double-precision number.
    pub confidence_bits: u64,
    pub explanation: String,
}

/// The model of [`CandidateMatchEvidence`].
pub struct CandidateMatchEvidenceView {
    pub artifact_key: Option<ArtifactKeyView>,
    pub basis: MatchBasis,
    pub confidence_bits: u64,
    pub explanation: Seq<char>,
}

impl DeepView for CandidateMatchEvidence {
    type V = CandidateMatchEvidenceView;

    open spec fn deep_view(&self) -> CandidateMatchEvidenceView {
        CandidateMatchEvidenceView {
            artifact_key: self.artifact_key.deep_view(),
            basis: self.basis.deep_view(),
            confidence_bits: self.confidence_bits.deep_view(),
            explanation: self.explanation.deep_view(),
        }
    }
}

impl Value for CandidateMatchEvidence {
    fn copied(&self) -> (copy: Self) {
        CandidateMatchEvidence {
            artifact_key: self.artifact_key.copied(),
            basis: self.basis.copied(),
            confidence_bits: self.confidence_bits.copied(),
            explanation: self.explanation.copied(),
        }
    }

    fn same(&self, other: &Self) -> (equal: bool) {
        self.artifact_key.same(&other.artifact_key)
            && self.basis.same(&other.basis)
            && self.confidence_bits.same(&other.confidence_bits)
            && self.explanation.same(&other.explanation)
    }
}

/// One Reference's derived resolution and optional Context association.
#[derive(Clone, Debug, PartialEq, Eq)]
pub struct ResolvedReferenceProjection {
    pub context_id: ContextId,
    pub revision_id: RevisionId,
    pub reference_id: ReferenceId,
    /// The locator this Reference names, kept whether or not anything resolved.
    pub locator: Option<ArtifactLocator>,
    pub repository_generation: Option<String>,
    pub artifact_generation: String,
    pub resolution: ArtifactResolution,
    pub association: Option<ContextArtifactAssociation>,
    pub artifacts: Vec<EngineeringArtifact>,
    pub evidence: Vec<CandidateMatchEvidence>,
}

/// The model of [`ResolvedReferenceProjection`].
pub struct ResolvedReferenceProjectionView {
    pub context_id: ContextId,
    pub revision_id: RevisionId,
    pub reference_id: ReferenceId,
    pub locator: Option<ArtifactLocatorView>,
    pub repository_generation: Option<Seq<char>>,
    pub artifact_generation: Seq<char>,
    pub resolution: ArtifactResolutionView,
    pub association: Option<ContextArtifactAssociationView>,
    pub artifacts: Seq<EngineeringArtifactView>,
    pub evidence: Seq<CandidateMatchEvidenceView>,
}

impl DeepView for ResolvedReferenceProjection {
    type V = ResolvedReferenceProjectionView;

    open spec fn deep_view(&self) -> ResolvedReferenceProjectionView {
        ResolvedReferenceProjectionView {
            context_id: self.context_id.deep_view(),
            revision_id: self.revision_id.deep_view(),
            reference_id: self.reference_id.deep_view(),
            locator: self.locator.deep_view(),
            repository_generation: self.repository_generation.deep_view(),
            artifact_generation: self.artifact_generation.deep_view(),
            resolution: self.resolution.deep_view(),
            association: self.association.deep_view(),
            artifacts: self.artifacts.deep_view(),
            evidence: self.evidence.deep_view(),
        }
    }
}

impl Value for ResolvedReferenceProjection {
    fn copied(&self) -> (copy: Self) {
        ResolvedReferenceProjection {
            context_id: self.context_id.copied(),
            revision_id: self.revision_id.copied(),
            reference_id: self.reference_id.copied(),
            locator: self.locator.copied(),
            repository_generation: self.repository_generation.copied(),
            artifact_generation: self.artifact_generation.copied(),
            resolution: self.resolution.copied(),
            association: self.association.copied(),
            artifacts: self.artifacts.copied(),
            evidence: self.evidence.copied(),
        }
    }

    fn same(&self, other: &Self) -> (equal: bool) {
        self.context_id.same(&other.context_id)
            && self.revision_id.same(&other.revision_id)
            && self.reference_id.same(&other.reference_id)
            && self.locator.same(&other.locator)
            && self.repository_generation.same(&other.repository_generation)
            && self.artifact_generation.same(&other.artifact_generation)
            && self.resolution.same(&other.resolution)
            && self.association.same(&other.association)
            && self.artifacts.same(&other.artifacts)
            && self.evidence.same(&other.evidence)
    }
}

/// One Repository scan in this generation that stopped before reading its whole plan.
///
/// The projection records the boundary rather than hiding it: References inside the unread range
/// resolve to `Unavailable`, and this row says which range that was, so a reader can tell an
/// Artifact that is genuinely gone from one the scan simply never reached.
#[derive(Clone, Debug, PartialEq, Eq)]
pub struct IncompleteRepositoryScan {
    pub repository_id: RepositoryId,
    pub repository_generation: String,
    pub scanned_paths: usize,
    pub unfinished_paths: usize,
    /// Directory prefixes that still hold at least one unread planned path.
    pub unfinished_prefixes: Vec<String>,
}

/// The model of [`IncompleteRepositoryScan`].
pub struct IncompleteRepositoryScanView {
    pub repository_id: Seq<char>,
    pub repository_generation: Seq<char>,
    pub scanned_paths: usize,
    pub unfinished_paths: usize,
    pub unfinished_prefixes: Seq<Seq<char>>,
}

impl DeepView for IncompleteRepositoryScan {
    type V = IncompleteRepositoryScanView;

    open spec fn deep_view(&self) -> IncompleteRepositoryScanView {
        IncompleteRepositoryScanView {
            repository_id: self.repository_id.deep_view(),
            repository_generation: self.repository_generation.deep_view(),
            scanned_paths: self.scanned_paths.deep_view(),
            unfinished_paths: self.unfinished_paths.deep_view(),
            unfinished_prefixes: self.unfinished_prefixes.deep_view(),
        }
    }
}

impl Value for IncompleteRepositoryScan {
    fn copied(&self) -> (copy: Self) {
        IncompleteRepositoryScan {
            repository_id: self.repository_id.copied(),
            repository_generation: self.repository_generation.copied(),
            scanned_paths: self.scanned_paths.copied(),
            unfinished_paths: self.unfinished_paths.copied(),
            unfinished_prefixes: self.unfinished_prefixes.copied(),
        }
    }

    fn same(&self, other: &Self) -> (equal: bool) {
        self.repository_id.same(&other.repository_id)
            && self.repository_generation.same(&other.repository_generation)
            && self.scanned_paths.same(&other.scanned_paths)
            && self.unfinished_paths.same(&other.unfinished_paths)
            && self.unfinished_prefixes.same(&other.unfinished_prefixes)
    }
}

/// Complete disposable Engineering projection for one resolver generation.
#[derive(Clone, Debug, PartialEq, Eq)]
pub struct EngineeringProjection {
    pub policy_version: String,
    pub artifact_generation: String,
    pub contexts: Vec<GraphContextSnapshot>,
    pub references: Vec<ResolvedReferenceProjection>,
    /// Scans that ran out of budget mid-plan.
    pub incomplete_scans: Vec<IncompleteRepositoryScan>,
}

/// The model of [`EngineeringProjection`].
pub struct EngineeringProjectionView {
    pub policy_version: Seq<char>,
    pub artifact_generation: Seq<char>,
    pub contexts: Seq<GraphContextSnapshotView>,
    pub references: Seq<ResolvedReferenceProjectionView>,
    pub incomplete_scans: Seq<IncompleteRepositoryScanView>,
}

impl DeepView for EngineeringProjection {
    type V = EngineeringProjectionView;

    open spec fn deep_view(&self) -> EngineeringProjectionView {
        EngineeringProjectionView {
            policy_version: self.policy_version.deep_view(),
            artifact_generation: self.artifact_generation.deep_view(),
            contexts: self.contexts.deep_view(),
            references: self.references.deep_view(),
            incomplete_scans: self.incomplete_scans.deep_view(),
        }
    }
}

impl Value for EngineeringProjection {
    fn copied(&self) -> (copy: Self) {
        EngineeringProjection {
            policy_version: self.policy_version.copied(),
            artifact_generation: self.artifact_generation.copied(),
            contexts: self.contexts.copied(),
            references: self.references.copied(),
            incomplete_scans: self.incomplete_scans.copied(),
        }
    }

    fn same(&self, other: &Self) -> (equal: bool) {
        self.policy_version.same(&other.policy_version)
            && self.artifact_generation.same(&other.artifact_generation)
            && self.contexts.same(&other.contexts)
            && self.references.same(&other.references)
            && self.incomplete_scans.same(&other.incomplete_scans)
    }
}

/// Where a Context snapshot belongs among others.
#[derive(Clone, Copy, Debug, PartialEq, Eq, Structural)]
pub struct ContextPlace {
    pub context_id: ContextId,
    pub revision_id: RevisionId,
}

impl DeepView for ContextPlace {
    type V = ContextPlace;

    open spec fn deep_view(&self) -> ContextPlace {
        *self
    }
}

impl Value for ContextPlace {
    fn copied(&self) -> (copy: Self) {
        *self
    }

    fn same(&self, other: &Self) -> (equal: bool) {
        *self == *other
    }
}

impl Ordered for ContextPlace {
    open spec fn below(left: ContextPlace, right: ContextPlace) -> bool {
        if left.context_id != right.context_id {
            ContextId::below(left.context_id, right.context_id)
        } else {
            RevisionId::below(left.revision_id, right.revision_id)
        }
    }

    proof fn order_laws(a: ContextPlace, b: ContextPlace, c: ContextPlace) {
        ContextId::order_laws(a.context_id, b.context_id, c.context_id);
        ContextId::order_laws(b.context_id, a.context_id, c.context_id);
        RevisionId::order_laws(a.revision_id, b.revision_id, c.revision_id);
    }

    fn is_below(&self, other: &Self) -> (result: bool) {
        if self.context_id != other.context_id {
            self.context_id.is_below(&other.context_id)
        } else {
            self.revision_id.is_below(&other.revision_id)
        }
    }
}

impl Placed for GraphContextSnapshot {
    type Key = ContextPlace;

    open spec fn place(model: GraphContextSnapshotView) -> ContextPlace {
        ContextPlace { context_id: model.context_id, revision_id: model.revision.revision_id }
    }

    fn place_key(&self) -> (key: ContextPlace) {
        ContextPlace { context_id: self.context_id, revision_id: self.revision.revision_id }
    }
}

impl Placed for ProjectedEngineeringReference {
    type Key = ReferenceId;

    open spec fn place(model: ProjectedEngineeringReferenceView) -> ReferenceId {
        model.reference.reference_id
    }

    fn place_key(&self) -> (key: ReferenceId) {
        self.reference.reference_id
    }
}

impl Placed for SnapshotArtifact {
    type Key = String;

    open spec fn place(model: SnapshotArtifactView) -> Seq<char> {
        model.artifact.artifact_key.digest
    }

    fn place_key(&self) -> (key: String) {
        self.artifact.artifact_key.digest().to_owned()
    }
}

/// The bits of full confidence.
pub const CERTAIN_BITS: u64 = 0x3ff0_0000_0000_0000;

/// The bits of a negative zero.
pub const NEGATIVE_ZERO_BITS: u64 = 0x8000_0000_0000_0000;

/// Whether bits are those of a finite number from zero to one.
pub open spec fn is_fraction(bits: u64) -> bool {
    bits <= CERTAIN_BITS || bits == NEGATIVE_ZERO_BITS
}

impl MatchBasis {
    /// The confidence of a match, as the bits of a double-precision number.
    pub open spec fn confidence(self) -> u64 {
        match self {
            MatchBasis::RepositoryUnavailable => 0,
            _ => CERTAIN_BITS,
        }
    }

    fn confidence_bits(self) -> (bits: u64)
        ensures
            bits == self.confidence(),
    {
        match self {
            MatchBasis::RepositoryUnavailable => 0,
            _ => CERTAIN_BITS,
        }
    }

    /// What a match rests on, in words.
    pub open spec fn reason(self) -> Seq<char> {
        match self {
            MatchBasis::ExactFilePath => "exact repository-relative File path"@,
            MatchBasis::ExactModulePath => "exact repository-relative Module path"@,
            MatchBasis::ExactApiLocator => "exact protocol, operation, and route"@,
            MatchBasis::ExactSchemaLocator => "exact namespace, version, and qualified Schema"@,
            MatchBasis::ExactQualifiedSymbolLocator => "exact qualified Symbol signature"@,
            MatchBasis::ExactQualifiedTestLocator => "exact qualified Test name"@,
            MatchBasis::RepositoryUnavailable => "repository availability"@,
        }
    }

    fn reason_text(self) -> (text: &'static str)
        ensures
            text@ == self.reason(),
    {
        match self {
            MatchBasis::ExactFilePath => "exact repository-relative File path",
            MatchBasis::ExactModulePath => "exact repository-relative Module path",
            MatchBasis::ExactApiLocator => "exact protocol, operation, and route",
            MatchBasis::ExactSchemaLocator => "exact namespace, version, and qualified Schema",
            MatchBasis::ExactQualifiedSymbolLocator => "exact qualified Symbol signature",
            MatchBasis::ExactQualifiedTestLocator => "exact qualified Test name",
            MatchBasis::RepositoryUnavailable => "repository availability",
        }
    }

    /// The name of a basis in generations.
    pub open spec fn name(self) -> Seq<char> {
        match self {
            MatchBasis::ExactFilePath => "ExactFilePath"@,
            MatchBasis::ExactModulePath => "ExactModulePath"@,
            MatchBasis::ExactApiLocator => "ExactApiLocator"@,
            MatchBasis::ExactSchemaLocator => "ExactSchemaLocator"@,
            MatchBasis::ExactQualifiedSymbolLocator => "ExactQualifiedSymbolLocator"@,
            MatchBasis::ExactQualifiedTestLocator => "ExactQualifiedTestLocator"@,
            MatchBasis::RepositoryUnavailable => "RepositoryUnavailable"@,
        }
    }

    fn name_text(self) -> (text: &'static str)
        ensures
            text@ == self.name(),
    {
        match self {
            MatchBasis::ExactFilePath => "ExactFilePath",
            MatchBasis::ExactModulePath => "ExactModulePath",
            MatchBasis::ExactApiLocator => "ExactApiLocator",
            MatchBasis::ExactSchemaLocator => "ExactSchemaLocator",
            MatchBasis::ExactQualifiedSymbolLocator => "ExactQualifiedSymbolLocator",
            MatchBasis::ExactQualifiedTestLocator => "ExactQualifiedTestLocator",
            MatchBasis::RepositoryUnavailable => "RepositoryUnavailable",
        }
    }
}

/// The name of a status in generations.
pub open spec fn status_text(status: ResolutionStatus) -> Seq<char> {
    match status {
        ResolutionStatus::Resolved => "Resolved"@,
        ResolutionStatus::Ambiguous => "Ambiguous"@,
        ResolutionStatus::Missing => "Missing"@,
        ResolutionStatus::Unavailable => "Unavailable"@,
    }
}

fn status_name(status: ResolutionStatus) -> (name: &'static str)
    ensures
        name@ == status_text(status),
{
    match status {
        ResolutionStatus::Resolved => "Resolved",
        ResolutionStatus::Ambiguous => "Ambiguous",
        ResolutionStatus::Missing => "Missing",
        ResolutionStatus::Unavailable => "Unavailable",
    }
}

/// The keys of Artifacts.
pub open spec fn keys_of_artifacts(artifacts: Seq<EngineeringArtifactView>) -> Seq<ArtifactKeyView> {
    Seq::new(artifacts.len(), |i: int| artifacts[i].artifact_key)
}

impl ResolvedReferenceProjectionView {
    /// Why the association differs from the resolution, if it does.
    pub open spec fn association_problem(self) -> Option<ErrorView> {
        match self.association {
            Some(association) => first(
                association.problem(),
                given(
                    association.context_id != self.context_id || association.revision_id != self.revision_id
                        || self.resolution.resolved_artifact != Some(association.artifact_key),
                    violated("ContextArtifactAssociation differs from resolved Reference"@),
                ),
            ),
            None => given(
                self.resolution.status == ResolutionStatus::Resolved,
                violated("resolved Reference must produce ContextArtifactAssociation"@),
            ),
        }
    }

    /// Whether the confidence of some evidence is no fraction.
    pub open spec fn has_wild_confidence(self) -> bool {
        exists|i: int| 0 <= i < self.evidence.len() && !is_fraction((#[trigger] self.evidence[i]).confidence_bits)
    }

    /// Why an Artifact is invalid or repeated, if it is.
    pub open spec fn artifact_problem(self) -> spec_fn(int) -> Option<ErrorView> {
        |i: int|
            first(
                self.artifacts[i].problem(),
                given(
                    keys_of_artifacts(self.artifacts).take(i).contains(self.artifacts[i].artifact_key),
                    violated("resolved Engineering projection repeats an Artifact"@),
                ),
            )
    }

    /// The keys that the Artifacts must have.
    pub open spec fn expected_keys(self) -> Seq<ArtifactKeyView> {
        match self.resolution.status {
            ResolutionStatus::Resolved => match self.resolution.resolved_artifact {
                Some(key) => seq![key],
                None => Seq::empty(),
            },
            ResolutionStatus::Ambiguous => self.resolution.candidates,
            _ => Seq::empty(),
        }
    }

    /// Why a resolved Reference is inconsistent, if it is.
    pub open spec fn problem(self) -> Option<ErrorView> {
        first(
            self.resolution.problem(),
            first(
                given(
                    self.reference_id != self.resolution.reference_id,
                    violated("resolved Reference identity differs from ArtifactResolution"@),
                ),
                first(
                    self.association_problem(),
                    first(
                        given(
                            self.has_wild_confidence(),
                            violated("resolution evidence confidence is invalid"@),
                        ),
                        first(
                            first_from(self.artifact_problem(), 0, self.artifacts.len()),
                            given(
                                keys_of_artifacts(self.artifacts).to_set() != self.expected_keys().to_set(),
                                violated("resolved Engineering Artifacts differ from ArtifactResolution"@),
                            ),
                        ),
                    ),
                ),
            ),
        )
    }
}

impl ResolvedReferenceProjection {
    fn validate_association(&self) -> (result: Result<()>)
        ensures
            fails_as(result, self.deep_view().association_problem()),
    {
        match &self.association {
            Some(association) => {
                association.validate()?;
                let matches = match &self.resolution.resolved_artifact {
                    Some(key) => key.same(&association.artifact_key),
                    None => false,
                };
                if association.context_id != self.context_id || association.revision_id != self.revision_id
                    || !matches {
                    return Err(invariant_violation("ContextArtifactAssociation differs from resolved Reference"));
                }
                Ok(())
            },
            None => {
                if self.resolution.status == ResolutionStatus::Resolved {
                    return Err(
                        invariant_violation("resolved Reference must produce ContextArtifactAssociation"),
                    );
                }
                Ok(())
            },
        }
    }

    fn finds_wild_confidence(&self) -> (found: bool)
        ensures
            found == self.deep_view().has_wild_confidence(),
    {
        let ghost model = self.deep_view();
        let mut index: usize = 0;
        while index < self.evidence.len()
            invariant
                index <= self.evidence@.len(),
                model == self.deep_view(),
                forall|i: int| 0 <= i < index ==> is_fraction((#[trigger] model.evidence[i]).confidence_bits),
            decreases self.evidence@.len() - index,
        {
            assert(model.evidence[index as int] == self.evidence@[index as int].deep_view());
            let bits = self.evidence[index].confidence_bits;
            if !(bits <= CERTAIN_BITS || bits == NEGATIVE_ZERO_BITS) {
                assert(!is_fraction(model.evidence[index as int].confidence_bits));
                return true;
            }
            index = index + 1;
        }
        assert(model.evidence.len() == self.evidence@.len());
        false
    }

    fn validate_artifacts(&self) -> (result: Result<Vec<ArtifactKey>>)
        ensures
            fails_as(
                result,
                first_from(self.deep_view().artifact_problem(), 0, self.deep_view().artifacts.len()),
            ),
            result is Ok ==> result->Ok_0.deep_view() == keys_of_artifacts(self.deep_view().artifacts),
    {
        let ghost model = self.deep_view();
        let ghost problem = model.artifact_problem();
        let ghost all = keys_of_artifacts(model.artifacts);
        let mut keys: Vec<ArtifactKey> = Vec::new();
        let mut index: usize = 0;
        assert(keys.deep_view() =~= all.take(0));
        while index < self.artifacts.len()
            invariant
                index <= self.artifacts@.len(),
                model == self.deep_view(),
                problem == model.artifact_problem(),
                all == keys_of_artifacts(model.artifacts),
                keys.deep_view() == all.take(index as int),
                first_from(problem, 0, model.artifacts.len()) == first_from(
                    problem,
                    index as nat,
                    model.artifacts.len(),
                ),
            decreases self.artifacts@.len() - index,
        {
            assert(model.artifacts[index as int] == self.artifacts@[index as int].deep_view());
            let artifact = &self.artifacts[index];
            artifact.validate()?;
            if is_among(&keys, &artifact.artifact_key) {
                return Err(invariant_violation("resolved Engineering projection repeats an Artifact"));
            }
            push_value(&mut keys, artifact.artifact_key.copied());
            proof {
                take_next(all, index as int);
            }
            index = index + 1;
        }
        assert(model.artifacts.len() == self.artifacts@.len());
        assert(all.take(index as int) =~= all);
        Ok(keys)
    }

    fn list_expected_keys(&self) -> (keys: Vec<ArtifactKey>)
        ensures
            keys.deep_view() == self.deep_view().expected_keys(),
    {
        let mut keys: Vec<ArtifactKey> = Vec::new();
        assert(keys.deep_view() =~= Seq::empty());
        match self.resolution.status {
            ResolutionStatus::Resolved => {
                if let Some(key) = &self.resolution.resolved_artifact {
                    push_value(&mut keys, key.copied());
                    assert(keys.deep_view() =~= seq![key.deep_view()]);
                }
                keys
            },
            ResolutionStatus::Ambiguous => self.resolution.candidates.copied(),
            _ => keys,
        }
    }

    /// Validates a resolved Reference.
    pub(crate) fn validate(&self) -> (result: Result<()>)
        ensures
            fails_as(result, self.deep_view().problem()),
    {
        self.resolution.validate()?;
        if self.reference_id != self.resolution.reference_id {
            return Err(invariant_violation("resolved Reference identity differs from ArtifactResolution"));
        }
        self.validate_association()?;
        if self.finds_wild_confidence() {
            return Err(invariant_violation("resolution evidence confidence is invalid"));
        }
        let keys = self.validate_artifacts()?;
        let expected = self.list_expected_keys();
        if !same_items(&keys, &expected) {
            return Err(invariant_violation("resolved Engineering Artifacts differ from ArtifactResolution"));
        }
        Ok(())
    }
}

/// The places of Context snapshots.
pub open spec fn places_of(contexts: Seq<GraphContextSnapshotView>) -> Seq<ContextPlace> {
    Seq::new(contexts.len(), |i: int| <GraphContextSnapshot as Placed>::place(contexts[i]))
}

/// The identities of resolved References.
pub open spec fn ids_of(references: Seq<ResolvedReferenceProjectionView>) -> Seq<ReferenceId> {
    Seq::new(references.len(), |i: int| references[i].reference_id)
}

/// Whether a list descends somewhere.
pub open spec fn descends<K: Ordered>(keys: Seq<K::V>) -> bool {
    exists|i: int| 0 <= i < keys.len() - 1 && K::below(keys[i + 1], #[trigger] keys[i])
}

fn does_descend<K: Ordered>(keys: &Vec<K>) -> (found: bool)
    ensures
        found == descends::<K>(keys.deep_view()),
{
    let ghost model = keys.deep_view();
    if keys.len() == 0 {
        return false;
    }
    let mut index: usize = 1;
    while index < keys.len()
        invariant
            1 <= index <= keys@.len(),
            model == keys.deep_view(),
            forall|i: int| 0 <= i < index - 1 ==> !K::below(model[i + 1], #[trigger] model[i]),
        decreases keys@.len() - index,
    {
        assert(model[index - 1] == keys@[index - 1].deep_view());
        assert(model[index as int] == keys@[index as int].deep_view());
        if keys[index].is_below(&keys[index - 1]) {
            assert(K::below(model[(index - 1) + 1], model[index - 1]));
            return true;
        }
        index = index + 1;
    }
    assert(model.len() == keys@.len());
    false
}

/// Whether the target of a relation is among the Context snapshots.
pub open spec fn target_captured(
    contexts: Seq<GraphContextSnapshotView>,
    relation: GraphContextRelationView,
) -> bool {
    exists|j: int|
        0 <= j < contexts.len() && is_target(#[trigger] contexts[j], relation)
}

/// Whether a Context snapshot is the target of a relation.
pub open spec fn is_target(context: GraphContextSnapshotView, relation: GraphContextRelationView) -> bool {
    context.context_id == relation.target_context_id && context.revision.revision_id == relation.target_revision_id
        && context.space_id == relation.target_space_id
}

/// Whether some relation of a Context snapshot has no target.
pub open spec fn has_loose_relation(
    contexts: Seq<GraphContextSnapshotView>,
    context: GraphContextSnapshotView,
) -> bool {
    exists|i: int| 0 <= i < context.relations.len() && !target_captured(contexts, #[trigger] context.relations[i])
}

fn is_target_captured(contexts: &Vec<GraphContextSnapshot>, relation: &GraphContextRelation) -> (found: bool)
    ensures
        found == target_captured(contexts.deep_view(), relation.deep_view()),
{
    let ghost model = contexts.deep_view();
    let mut index: usize = 0;
    while index < contexts.len()
        invariant
            index <= contexts@.len(),
            model == contexts.deep_view(),
            forall|j: int| 0 <= j < index ==> !is_target(#[trigger] model[j], relation.deep_view()),
        decreases contexts@.len() - index,
    {
        assert(model[index as int] == contexts@[index as int].deep_view());
        let context = &contexts[index];
        if context.context_id == relation.target_context_id && context.revision.revision_id
            == relation.target_revision_id && context.space_id == relation.target_space_id {
            assert(is_target(model[index as int], relation.deep_view()));
            return true;
        }
        index = index + 1;
    }
    assert(model.len() == contexts@.len());
    false
}

fn finds_loose_relation(contexts: &Vec<GraphContextSnapshot>, context: &GraphContextSnapshot) -> (found: bool)
    ensures
        found == has_loose_relation(contexts.deep_view(), context.deep_view()),
{
    let ghost all = contexts.deep_view();
    let ghost model = context.deep_view();
    let mut index: usize = 0;
    while index < context.relations.len()
        invariant
            index <= context.relations@.len(),
            all == contexts.deep_view(),
            model == context.deep_view(),
            forall|i: int| 0 <= i < index ==> target_captured(all, #[trigger] model.relations[i]),
        decreases context.relations@.len() - index,
    {
        assert(model.relations[index as int] == context.relations@[index as int].deep_view());
        if !is_target_captured(contexts, &context.relations[index]) {
            assert(!target_captured(all, model.relations[index as int]));
            return true;
        }
        index = index + 1;
    }
    assert(model.relations.len() == context.relations@.len());
    false
}

impl EngineeringProjectionView {
    /// Why a Context snapshot is inconsistent or repeated, if it is.
    pub open spec fn context_problem(self) -> spec_fn(int) -> Option<ErrorView> {
        |i: int|
            first(
                self.contexts[i].problem(),
                given(
                    places_of(self.contexts).take(i).contains(
                        <GraphContextSnapshot as Placed>::place(self.contexts[i]),
                    ),
                    violated("Engineering projection repeats a Context Revision snapshot"@),
                ),
            )
    }

    /// Whether some relation of a Context snapshot has no target in the projection.
    pub open spec fn has_loose_relations(self) -> bool {
        exists|i: int| 0 <= i < self.contexts.len() && has_loose_relation(self.contexts, #[trigger] self.contexts[i])
    }

    /// Why a resolved Reference is inconsistent, stale, repeated, or without its Context, if it is.
    pub open spec fn reference_problem(self) -> spec_fn(int) -> Option<ErrorView> {
        |i: int|
            first(
                self.references[i].problem(),
                first(
                    given(
                        self.references[i].artifact_generation != self.artifact_generation,
                        violated("resolved Reference carries a stale artifact generation"@),
                    ),
                    first(
                        given(
                            ids_of(self.references).take(i).contains(self.references[i].reference_id),
                            violated("Engineering projection repeats a ReferenceId"@),
                        ),
                        given(
                            !places_of(self.contexts).contains(
                                ContextPlace {
                                    context_id: self.references[i].context_id,
                                    revision_id: self.references[i].revision_id,
                                },
                            ),
                            violated("resolved Reference lacks its immutable Context Revision snapshot"@),
                        ),
                    ),
                ),
            )
    }

    /// Why a projection is inconsistent, if it is.
    pub open spec fn problem(self) -> Option<ErrorView> {
        first(
            given(
                self.policy_version != RESOLVER_POLICY_VERSION@,
                violated("Engineering projection policy version is unsupported"@),
            ),
            first(
                given(blank(self.artifact_generation), violated("Engineering projection generation is empty"@)),
                first(
                    first_from(self.context_problem(), 0, self.contexts.len()),
                    first(
                        given(
                            descends::<ContextPlace>(places_of(self.contexts)),
                            violated("Engineering projection Context snapshots are not sorted"@),
                        ),
                        first(
                            given(
                                self.has_loose_relations(),
                                violated("Engineering projection Relation target snapshot is missing"@),
                            ),
                            first(
                                first_from(self.reference_problem(), 0, self.references.len()),
                                given(
                                    descends::<ReferenceId>(ids_of(self.references)),
                                    violated("Engineering projection References are not sorted"@),
                                ),
                            ),
                        ),
                    ),
                ),
            ),
        )
    }
}

impl EngineeringProjection {
    fn validate_contexts(&self) -> (result: Result<Vec<ContextPlace>>)
        ensures
            fails_as(
                result,
                first_from(self.deep_view().context_problem(), 0, self.deep_view().contexts.len()),
            ),
            result is Ok ==> result->Ok_0.deep_view() == places_of(self.deep_view().contexts),
    {
        let ghost model = self.deep_view();
        let ghost problem = model.context_problem();
        let ghost all = places_of(model.contexts);
        let mut places: Vec<ContextPlace> = Vec::new();
        let mut index: usize = 0;
        assert(places.deep_view() =~= all.take(0));
        while index < self.contexts.len()
            invariant
                index <= self.contexts@.len(),
                model == self.deep_view(),
                problem == model.context_problem(),
                all == places_of(model.contexts),
                places.deep_view() == all.take(index as int),
                first_from(problem, 0, model.contexts.len()) == first_from(
                    problem,
                    index as nat,
                    model.contexts.len(),
                ),
            decreases self.contexts@.len() - index,
        {
            assert(model.contexts[index as int] == self.contexts@[index as int].deep_view());
            let context = &self.contexts[index];
            context.validate()?;
            let place = context.place_key();
            if is_among(&places, &place) {
                return Err(invariant_violation("Engineering projection repeats a Context Revision snapshot"));
            }
            push_value(&mut places, place);
            proof {
                take_next(all, index as int);
            }
            index = index + 1;
        }
        assert(model.contexts.len() == self.contexts@.len());
        assert(all.take(index as int) =~= all);
        Ok(places)
    }

    fn finds_loose_relations(&self) -> (found: bool)
        ensures
            found == self.deep_view().has_loose_relations(),
    {
        let ghost model = self.deep_view();
        let mut index: usize = 0;
        while index < self.contexts.len()
            invariant
                index <= self.contexts@.len(),
                model == self.deep_view(),
                forall|i: int| 0 <= i < index ==> !has_loose_relation(model.contexts, #[trigger] model.contexts[i]),
            decreases self.contexts@.len() - index,
        {
            assert(model.contexts[index as int] == self.contexts@[index as int].deep_view());
            if finds_loose_relation(&self.contexts, &self.contexts[index]) {
                assert(has_loose_relation(model.contexts, model.contexts[index as int]));
                return true;
            }
            index = index + 1;
        }
        assert(model.contexts.len() == self.contexts@.len());
        false
    }

    fn validate_references(&self, places: &Vec<ContextPlace>) -> (result: Result<Vec<ReferenceId>>)
        requires
            places.deep_view() == places_of(self.deep_view().contexts),
        ensures
            fails_as(
                result,
                first_from(self.deep_view().reference_problem(), 0, self.deep_view().references.len()),
            ),
            result is Ok ==> result->Ok_0.deep_view() == ids_of(self.deep_view().references),
    {
        let ghost model = self.deep_view();
        let ghost problem = model.reference_problem();
        let ghost all = ids_of(model.references);
        let mut ids: Vec<ReferenceId> = Vec::new();
        let mut index: usize = 0;
        assert(ids.deep_view() =~= all.take(0));
        while index < self.references.len()
            invariant
                index <= self.references@.len(),
                model == self.deep_view(),
                places.deep_view() == places_of(model.contexts),
                problem == model.reference_problem(),
                all == ids_of(model.references),
                ids.deep_view() == all.take(index as int),
                first_from(problem, 0, model.references.len()) == first_from(
                    problem,
                    index as nat,
                    model.references.len(),
                ),
            decreases self.references@.len() - index,
        {
            assert(model.references[index as int] == self.references@[index as int].deep_view());
            let reference = &self.references[index];
            reference.validate()?;
            if !reference.artifact_generation.same(&self.artifact_generation) {
                return Err(invariant_violation("resolved Reference carries a stale artifact generation"));
            }
            if is_among(&ids, &reference.reference_id) {
                return Err(invariant_violation("Engineering projection repeats a ReferenceId"));
            }
            let place = ContextPlace {
                context_id: reference.context_id,
                revision_id: reference.revision_id,
            };
            if !is_among(places, &place) {
                return Err(
                    invariant_violation("resolved Reference lacks its immutable Context Revision snapshot"),
                );
            }
            push_value(&mut ids, reference.reference_id);
            proof {
                take_next(all, index as int);
            }
            index = index + 1;
        }
        assert(model.references.len() == self.references@.len());
        assert(all.take(index as int) =~= all);
        Ok(ids)
    }

    /// Validates a projection.
    pub fn validate(&self) -> (result: Result<()>)
        ensures
            fails_as(result, self.deep_view().problem()),
    {
        if !same_text(self.policy_version.as_str(), RESOLVER_POLICY_VERSION) {
            return Err(invariant_violation("Engineering projection policy version is unsupported"));
        }
        if is_blank(self.artifact_generation.as_str()) {
            return Err(invariant_violation("Engineering projection generation is empty"));
        }
        let places = self.validate_contexts()?;
        if does_descend(&places) {
            return Err(invariant_violation("Engineering projection Context snapshots are not sorted"));
        }
        if self.finds_loose_relations() {
            return Err(invariant_violation("Engineering projection Relation target snapshot is missing"));
        }
        let ids = self.validate_references(&places)?;
        if does_descend(&ids) {
            return Err(invariant_violation("Engineering projection References are not sorted"));
        }
        Ok(())
    }
}

/// The Repository of a scan outcome.
pub open spec fn outcome_id(outcome: RepositoryScanOutcomeView) -> Seq<char> {
    match outcome {
        RepositoryScanOutcomeView::Available(snapshot) => snapshot.repository_id,
        RepositoryScanOutcomeView::Unavailable { repository_id, reason: _ } => repository_id,
    }
}

/// The Repositories of scan outcomes.
pub open spec fn outcome_ids(outcomes: Seq<RepositoryScanOutcomeView>) -> Seq<Seq<char>> {
    Seq::new(outcomes.len(), |i: int| outcome_id(outcomes[i]))
}

/// The scan outcome of a Repository, from an index on.
pub open spec fn outcome_for(
    outcomes: Seq<RepositoryScanOutcomeView>,
    repository_id: Seq<char>,
    from: int,
) -> Option<RepositoryScanOutcomeView>
    decreases outcomes.len() - from,
{
    if from < 0 || from >= outcomes.len() {
        None
    } else if outcome_id(outcomes[from]) == repository_id {
        Some(outcomes[from])
    } else {
        outcome_for(outcomes, repository_id, from + 1)
    }
}

fn id_of_outcome(outcome: &RepositoryScanOutcome) -> (id: &RepositoryId)
    ensures
        id@ == outcome_id(outcome.deep_view()),
{
    match outcome {
        RepositoryScanOutcome::Available(snapshot) => &snapshot.repository_id,
        RepositoryScanOutcome::Unavailable { repository_id, reason: _ } => repository_id,
    }
}

fn find_outcome<'a>(outcomes: &'a Vec<RepositoryScanOutcome>, repository_id: &RepositoryId) -> (found: Option<
    &'a RepositoryScanOutcome,
>)
    ensures
        match found {
            Some(outcome) => outcome_for(outcomes.deep_view(), repository_id@, 0) == Some(outcome.deep_view()),
            None => outcome_for(outcomes.deep_view(), repository_id@, 0) is None,
        },
{
    let ghost model = outcomes.deep_view();
    let mut index: usize = 0;
    while index < outcomes.len()
        invariant
            index <= outcomes@.len(),
            model == outcomes.deep_view(),
            outcome_for(model, repository_id@, index as int) == outcome_for(model, repository_id@, 0),
        decreases outcomes@.len() - index,
    {
        assert(model[index as int] == outcomes@[index as int].deep_view());
        if id_of_outcome(&outcomes[index]).same(repository_id) {
            return Some(&outcomes[index]);
        }
        index = index + 1;
    }
    assert(model.len() == outcomes@.len());
    None
}

fn list_outcome_ids(outcomes: &Vec<RepositoryScanOutcome>) -> (ids: Vec<RepositoryId>)
    ensures
        ids.deep_view() == outcome_ids(outcomes.deep_view()),
{
    let ghost model = outcomes.deep_view();
    let ghost all = outcome_ids(model);
    let mut ids: Vec<RepositoryId> = Vec::new();
    let mut index: usize = 0;
    assert(ids.deep_view() =~= all.take(0));
    while index < outcomes.len()
        invariant
            index <= outcomes@.len(),
            model == outcomes.deep_view(),
            all == outcome_ids(model),
            ids.deep_view() == all.take(index as int),
        decreases outcomes@.len() - index,
    {
        assert(model[index as int] == outcomes@[index as int].deep_view());
        push_value(&mut ids, id_of_outcome(&outcomes[index]).copied());
        proof {
            take_next(all, index as int);
        }
        index = index + 1;
    }
    assert(model.len() == outcomes@.len());
    assert(all.take(index as int) =~= all);
    ids
}

/// Sentence used whenever a Reference falls outside what a budgeted scan actually read.
pub const UNSCANNED_EXPLANATION: &'static str =
    "The Repository snapshot stopped before this path; the scan says nothing about it";

/// Whether a snapshot has evidence about the range that a locator names: a directory, answered by
/// anything read beneath it, or one file.
pub open spec fn covers_locator(coverage: ScanCoverageView, locator: ArtifactLocatorView) -> bool {
    if locator is Module {
        coverage.has_directory(locator.path())
    } else {
        coverage.has_path(locator.path())
    }
}

fn snapshot_covers(snapshot: &RepositorySnapshot, locator: &ArtifactLocator) -> (covers: bool)
    ensures
        covers == covers_locator(snapshot.deep_view().coverage, locator.deep_view()),
{
    let path = locator.path().as_str();
    match locator {
        ArtifactLocator::Module { path: _ } => snapshot.coverage.covers_directory(path),
        _ => snapshot.coverage.covers_path(path),
    }
}

/// Whether an Artifact is exactly what a Reference names.
pub open spec fn is_named(reference: EngineeringReferenceView, artifact: SnapshotArtifactView) -> bool {
    artifact.artifact.repository.repository_id == reference.repository_id
        && artifact.artifact.artifact_key.locator.kind() == reference.artifact_kind
        && artifact.artifact.artifact_key.locator == reference.locator
}

/// The Artifacts that a Reference names, by digest.
pub open spec fn candidates_for(
    reference: EngineeringReferenceView,
    artifacts: Seq<SnapshotArtifactView>,
) -> Seq<SnapshotArtifactView> {
    stably_sorted::<SnapshotArtifact>(
        artifacts.filter(|artifact: SnapshotArtifactView| is_named(reference, artifact)),
    )
}

fn winning_candidates(reference: &EngineeringReference, artifacts: &Vec<SnapshotArtifact>) -> (candidates: Vec<
    SnapshotArtifact,
>)
    ensures
        candidates.deep_view() == candidates_for(reference.deep_view(), artifacts.deep_view()),
{
    let ghost model = artifacts.deep_view();
    let ghost wanted = reference.deep_view();
    let ghost keep = |artifact: SnapshotArtifactView| is_named(wanted, artifact);
    let mut named: Vec<SnapshotArtifact> = Vec::new();
    let mut index: usize = 0;
    proof {
        reveal(Seq::filter);
        assert(model.take(0).filter(keep) =~= Seq::empty());
        assert(named.deep_view() =~= Seq::empty());
    }
    while index < artifacts.len()
        invariant
            index <= artifacts@.len(),
            model == artifacts.deep_view(),
            wanted == reference.deep_view(),
            keep == (|artifact: SnapshotArtifactView| is_named(wanted, artifact)),
            named.deep_view() == model.take(index as int).filter(keep),
        decreases artifacts@.len() - index,
    {
        assert(model[index as int] == artifacts@[index as int].deep_view());
        proof {
            take_next(model, index as int);
            filter_push(model.take(index as int), model[index as int], keep);
        }
        let artifact = &artifacts[index].artifact;
        if artifact.repository.repository_id.same(&reference.repository_id) && artifact.artifact_key.kind()
            == reference.artifact_kind && artifact.artifact_key.locator().same(&reference.locator) {
            push_value(&mut named, artifacts[index].copied());
        }
        index = index + 1;
    }
    assert(model.len() == artifacts@.len());
    assert(model.take(index as int) =~= model);
    sort_stably(&named)
}

/// Whether a single candidate is still ambiguous: more than one observation of anything but a file
/// or a module.
pub open spec fn is_ambiguous_candidate(candidate: SnapshotArtifactView) -> bool {
    let kind = candidate.artifact.artifact_key.locator.kind();
    kind != ArtifactKind::File && kind != ArtifactKind::Module && candidate.observations.len() > 1
}

fn candidate_is_ambiguous(candidate: &SnapshotArtifact) -> (ambiguous: bool)
    ensures
        ambiguous == is_ambiguous_candidate(candidate.deep_view()),
{
    assert(candidate.observations.deep_view().len() == candidate.observations@.len());
    match candidate.artifact.artifact_key.kind() {
        ArtifactKind::File | ArtifactKind::Module => false,
        _ => candidate.observations.len() > 1,
    }
}

/// What a match of a locator rests on.
pub open spec fn basis_of(locator: ArtifactLocatorView) -> MatchBasis {
    match locator.kind() {
        ArtifactKind::File => MatchBasis::ExactFilePath,
        ArtifactKind::Module => MatchBasis::ExactModulePath,
        ArtifactKind::Api => MatchBasis::ExactApiLocator,
        ArtifactKind::Schema => MatchBasis::ExactSchemaLocator,
        ArtifactKind::Symbol => MatchBasis::ExactQualifiedSymbolLocator,
        ArtifactKind::Test => MatchBasis::ExactQualifiedTestLocator,
    }
}

fn locator_match_basis(locator: &ArtifactLocator) -> (basis: MatchBasis)
    ensures
        basis == basis_of(locator.deep_view()),
{
    match locator.kind() {
        ArtifactKind::File => MatchBasis::ExactFilePath,
        ArtifactKind::Module => MatchBasis::ExactModulePath,
        ArtifactKind::Api => MatchBasis::ExactApiLocator,
        ArtifactKind::Schema => MatchBasis::ExactSchemaLocator,
        ArtifactKind::Symbol => MatchBasis::ExactQualifiedSymbolLocator,
        ArtifactKind::Test => MatchBasis::ExactQualifiedTestLocator,
    }
}

/// The evidence of a match with a candidate.
pub open spec fn match_evidence(
    reference: EngineeringReferenceView,
    candidate: SnapshotArtifactView,
) -> CandidateMatchEvidenceView {
    let key = candidate.artifact.artifact_key;
    let basis = basis_of(reference.locator);
    CandidateMatchEvidenceView {
        artifact_key: Some(key),
        basis,
        confidence_bits: basis.confidence(),
        explanation: "matched "@ + key.explanation() + " using "@ + basis.reason(),
    }
}

fn evidence_for(reference: &EngineeringReference, candidate: &SnapshotArtifact) -> (evidence: CandidateMatchEvidence)
    ensures
        evidence.deep_view() == match_evidence(reference.deep_view(), candidate.deep_view()),
{
    let key = &candidate.artifact.artifact_key;
    let basis = locator_match_basis(&reference.locator);
    let named = key.locator_explanation();
    CandidateMatchEvidence {
        artifact_key: Some(key.copied()),
        basis,
        confidence_bits: basis.confidence_bits(),
        explanation: joined4("matched ", named.as_str(), " using ", basis.reason_text()),
    }
}

/// The evidence that nothing is known about a Repository.
pub open spec fn absence_evidence(explanation: Seq<char>) -> CandidateMatchEvidenceView {
    CandidateMatchEvidenceView {
        artifact_key: None,
        basis: MatchBasis::RepositoryUnavailable,
        confidence_bits: 0,
        explanation,
    }
}

/// How a Reference relates its Context to the Artifact that it resolves to.
pub open spec fn association_kind_of(relation: ReferenceRelation, kind: ArtifactKind) -> ArtifactAssociationKind {
    match relation {
        ReferenceRelation::Defines => {
            if kind == ArtifactKind::Api || kind == ArtifactKind::Schema {
                ArtifactAssociationKind::DefinesContract
            } else {
                ArtifactAssociationKind::Implements
            }
        },
        ReferenceRelation::Implements => ArtifactAssociationKind::Implements,
        ReferenceRelation::Consumes => ArtifactAssociationKind::Uses,
        ReferenceRelation::DependsOn => ArtifactAssociationKind::Uses,
        ReferenceRelation::Validates => ArtifactAssociationKind::ValidatedBy,
        ReferenceRelation::Constrains => ArtifactAssociationKind::ConstrainedBy,
    }
}

fn association_kind(relation: ReferenceRelation, kind: ArtifactKind) -> (result: ArtifactAssociationKind)
    ensures
        result == association_kind_of(relation, kind),
{
    match relation {
        ReferenceRelation::Defines => match kind {
            ArtifactKind::Api | ArtifactKind::Schema => ArtifactAssociationKind::DefinesContract,
            _ => ArtifactAssociationKind::Implements,
        },
        ReferenceRelation::Implements => ArtifactAssociationKind::Implements,
        ReferenceRelation::Consumes | ReferenceRelation::DependsOn => ArtifactAssociationKind::Uses,
        ReferenceRelation::Validates => ArtifactAssociationKind::ValidatedBy,
        ReferenceRelation::Constrains => ArtifactAssociationKind::ConstrainedBy,
    }
}

/// A Reference with a status, before an association is added.
pub open spec fn reference_with_status(
    projected: ProjectedEngineeringReferenceView,
    repository_generation: Option<Seq<char>>,
    status: ResolutionStatus,
    resolved_artifact: Option<ArtifactKeyView>,
    candidates: Seq<ArtifactKeyView>,
    artifacts: Seq<EngineeringArtifactView>,
    evidence: Seq<CandidateMatchEvidenceView>,
    explanation: Seq<char>,
) -> ResolvedReferenceProjectionView {
    ResolvedReferenceProjectionView {
        context_id: projected.context_id,
        revision_id: projected.revision_id,
        reference_id: projected.reference.reference_id,
        locator: Some(projected.reference.locator),
        repository_generation,
        artifact_generation: ""@,
        resolution: ArtifactResolutionView {
            reference_id: projected.reference.reference_id,
            repository_id: projected.reference.repository_id,
            status,
            resolved_artifact,
            candidates,
            explanation,
        },
        association: None,
        artifacts,
        evidence,
    }
}

/// A Reference about which nothing is known.
pub open spec fn unavailable_reference(
    projected: ProjectedEngineeringReferenceView,
    repository_generation: Option<Seq<char>>,
    explanation: Seq<char>,
) -> ResolvedReferenceProjectionView {
    reference_with_status(
        projected,
        repository_generation,
        ResolutionStatus::Unavailable,
        None,
        Seq::empty(),
        Seq::empty(),
        seq![absence_evidence(explanation)],
        explanation,
    )
}

/// The keys of candidates.
pub open spec fn candidate_keys(candidates: Seq<SnapshotArtifactView>) -> Seq<ArtifactKeyView> {
    Seq::new(candidates.len(), |i: int| candidates[i].artifact.artifact_key)
}

/// The Artifacts of candidates.
pub open spec fn candidate_artifacts(candidates: Seq<SnapshotArtifactView>) -> Seq<EngineeringArtifactView> {
    Seq::new(candidates.len(), |i: int| candidates[i].artifact)
}

/// The evidence of matches with candidates.
pub open spec fn candidate_evidence(
    reference: EngineeringReferenceView,
    candidates: Seq<SnapshotArtifactView>,
) -> Seq<CandidateMatchEvidenceView> {
    Seq::new(candidates.len(), |i: int| match_evidence(reference, candidates[i]))
}

/// The association of a Reference that resolves to a candidate.
pub open spec fn association_for(
    projected: ProjectedEngineeringReferenceView,
    candidate: SnapshotArtifactView,
) -> ContextArtifactAssociationView {
    let key = candidate.artifact.artifact_key;
    let evidence = match_evidence(projected.reference, candidate);
    ContextArtifactAssociationView {
        context_id: projected.context_id,
        revision_id: projected.revision_id,
        artifact_key: key,
        kind: association_kind_of(projected.reference.relation, key.locator.kind()),
        source_reference_ids: seq![projected.reference.reference_id],
        confidence_bits: evidence.confidence_bits,
        explanation: evidence.explanation,
    }
}

/// A Reference that resolves to a candidate.
pub open spec fn resolved_reference(
    projected: ProjectedEngineeringReferenceView,
    generation: Seq<char>,
    candidate: SnapshotArtifactView,
) -> ResolvedReferenceProjectionView {
    let key = candidate.artifact.artifact_key;
    ResolvedReferenceProjectionView {
        association: Some(association_for(projected, candidate)),
        ..reference_with_status(
            projected,
            Some(generation),
            ResolutionStatus::Resolved,
            Some(key),
            seq![key],
            seq![candidate.artifact],
            seq![match_evidence(projected.reference, candidate)],
            "Reference resolved from highest-precedence stable evidence"@,
        )
    }
}

/// A Reference that several candidates, or several observations, leave open.
pub open spec fn ambiguous_reference(
    projected: ProjectedEngineeringReferenceView,
    generation: Seq<char>,
    candidates: Seq<SnapshotArtifactView>,
) -> ResolvedReferenceProjectionView {
    reference_with_status(
        projected,
        Some(generation),
        ResolutionStatus::Ambiguous,
        None,
        candidate_keys(candidates),
        candidate_artifacts(candidates),
        candidate_evidence(projected.reference, candidates),
        "Multiple Artifacts share equal highest-precedence evidence; lower path/time hints were not used to choose"@,
    )
}

/// What a Reference resolves to, given the outcome of scanning its Repository.
pub open spec fn resolution_of_reference(
    projected: ProjectedEngineeringReferenceView,
    outcome: Option<RepositoryScanOutcomeView>,
) -> ResolvedReferenceProjectionView {
    match outcome {
        None => unavailable_reference(projected, None, "Repository snapshot unavailable"@),
        Some(RepositoryScanOutcomeView::Unavailable { repository_id: _, reason }) => unavailable_reference(
            projected,
            None,
            "Repository unavailable: "@ + reason,
        ),
        Some(RepositoryScanOutcomeView::Available(snapshot)) => {
            let candidates = candidates_for(projected.reference, snapshot.artifacts);
            if candidates.len() == 0 {
                if covers_locator(snapshot.coverage, projected.reference.locator) {
                    reference_with_status(
                        projected,
                        Some(snapshot.generation),
                        ResolutionStatus::Missing,
                        None,
                        Seq::empty(),
                        Seq::empty(),
                        Seq::empty(),
                        "The deterministic Artifact locator is missing from the Repository snapshot"@,
                    )
                } else {
                    unavailable_reference(projected, Some(snapshot.generation), UNSCANNED_EXPLANATION@)
                }
            } else if candidates.len() == 1 && !is_ambiguous_candidate(candidates[0]) {
                resolved_reference(projected, snapshot.generation, candidates[0])
            } else {
                ambiguous_reference(projected, snapshot.generation, candidates)
            }
        },
    }
}

/// Why a Reference cannot be resolved, if it cannot.
pub open spec fn resolving_problem(
    projected: ProjectedEngineeringReferenceView,
    outcome: Option<RepositoryScanOutcomeView>,
) -> Option<ErrorView> {
    let resolved = resolution_of_reference(projected, outcome);
    first(
        match resolved.association {
            Some(association) => association.problem(),
            None => None,
        },
        resolved.resolution.problem(),
    )
}

fn single<T: DeepView>(item: T) -> (list: Vec<T>)
    ensures
        list.deep_view() == seq![item.deep_view()],
{
    let mut list: Vec<T> = Vec::new();
    list.push(item);
    assert(list.deep_view() =~= seq![item.deep_view()]);
    list
}

fn none_of<T: DeepView>() -> (list: Vec<T>)
    ensures
        list.deep_view() == Seq::<T::V>::empty(),
{
    let list: Vec<T> = Vec::new();
    assert(list.deep_view() =~= Seq::empty());
    list
}

fn projection_for_status(
    projected: &ProjectedEngineeringReference,
    repository_generation: Option<String>,
    status: ResolutionStatus,
    resolved_artifact: Option<ArtifactKey>,
    candidates: Vec<ArtifactKey>,
    artifacts: Vec<EngineeringArtifact>,
    evidence: Vec<CandidateMatchEvidence>,
    explanation: &str,
) -> (result: Result<ResolvedReferenceProjection>)
    ensures
        fails_as(
            result,
            reference_with_status(
                projected.deep_view(),
                repository_generation.deep_view(),
                status,
                resolved_artifact.deep_view(),
                candidates.deep_view(),
                artifacts.deep_view(),
                evidence.deep_view(),
                explanation@,
            ).resolution.problem(),
        ),
        result is Ok ==> result->Ok_0.deep_view() == reference_with_status(
            projected.deep_view(),
            repository_generation.deep_view(),
            status,
            resolved_artifact.deep_view(),
            candidates.deep_view(),
            artifacts.deep_view(),
            evidence.deep_view(),
            explanation@,
        ),
{
    let projection = ResolvedReferenceProjection {
        context_id: projected.context_id,
        revision_id: projected.revision_id,
        reference_id: projected.reference.reference_id,
        locator: Some(projected.reference.locator.copied()),
        repository_generation,
        artifact_generation: "".to_owned(),
        resolution: ArtifactResolution {
            reference_id: projected.reference.reference_id,
            repository_id: projected.reference.repository_id.copied(),
            status,
            resolved_artifact,
            candidates,
            explanation: explanation.to_owned(),
        },
        association: None,
        artifacts,
        evidence,
    };
    projection.resolution.validate()?;
    Ok(projection)
}

fn projection_for_unavailable(
    projected: &ProjectedEngineeringReference,
    repository_generation: Option<String>,
    explanation: &str,
) -> (result: Result<ResolvedReferenceProjection>)
    ensures
        fails_as(
            result,
            unavailable_reference(
                projected.deep_view(),
                repository_generation.deep_view(),
                explanation@,
            ).resolution.problem(),
        ),
        result is Ok ==> result->Ok_0.deep_view() == unavailable_reference(
            projected.deep_view(),
            repository_generation.deep_view(),
            explanation@,
        ),
{
    let evidence = CandidateMatchEvidence {
        artifact_key: None,
        basis: MatchBasis::RepositoryUnavailable,
        confidence_bits: 0,
        explanation: explanation.to_owned(),
    };
    projection_for_status(
        projected,
        repository_generation,
        ResolutionStatus::Unavailable,
        None,
        none_of(),
        none_of(),
        single(evidence),
        explanation,
    )
}

fn projection_for_resolved(
    projected: &ProjectedEngineeringReference,
    generation: &String,
    candidate: &SnapshotArtifact,
) -> (result: Result<ResolvedReferenceProjection>)
    ensures
        fails_as(
            result,
            first(
                association_for(projected.deep_view(), candidate.deep_view()).problem(),
                resolved_reference(
                    projected.deep_view(),
                    generation@,
                    candidate.deep_view(),
                ).resolution.problem(),
            ),
        ),
        result is Ok ==> result->Ok_0.deep_view() == resolved_reference(
            projected.deep_view(),
            generation@,
            candidate.deep_view(),
        ),
{
    let key = &candidate.artifact.artifact_key;
    let evidence = evidence_for(&projected.reference, candidate);
    let association = ContextArtifactAssociation {
        context_id: projected.context_id,
        revision_id: projected.revision_id,
        artifact_key: key.copied(),
        kind: association_kind(projected.reference.relation, key.kind()),
        source_reference_ids: single(projected.reference.reference_id),
        confidence_bits: evidence.confidence_bits,
        explanation: evidence.explanation.copied(),
    };
    association.validate()?;
    let projection = projection_for_status(
        projected,
        Some(generation.copied()),
        ResolutionStatus::Resolved,
        Some(key.copied()),
        single(key.copied()),
        single(candidate.artifact.copied()),
        single(evidence),
        "Reference resolved from highest-precedence stable evidence",
    )?;
    Ok(
        ResolvedReferenceProjection {
            context_id: projection.context_id,
            revision_id: projection.revision_id,
            reference_id: projection.reference_id,
            locator: projection.locator,
            repository_generation: projection.repository_generation,
            artifact_generation: projection.artifact_generation,
            resolution: projection.resolution,
            association: Some(association),
            artifacts: projection.artifacts,
            evidence: projection.evidence,
        },
    )
}

fn projection_for_ambiguous(
    projected: &ProjectedEngineeringReference,
    generation: &String,
    candidates: &Vec<SnapshotArtifact>,
) -> (result: Result<ResolvedReferenceProjection>)
    ensures
        fails_as(
            result,
            ambiguous_reference(
                projected.deep_view(),
                generation@,
                candidates.deep_view(),
            ).resolution.problem(),
        ),
        result is Ok ==> result->Ok_0.deep_view() == ambiguous_reference(
            projected.deep_view(),
            generation@,
            candidates.deep_view(),
        ),
{
    let ghost model = candidates.deep_view();
    let ghost reference = projected.deep_view().reference;
    let mut keys: Vec<ArtifactKey> = none_of();
    let mut artifacts: Vec<EngineeringArtifact> = none_of();
    let mut evidence: Vec<CandidateMatchEvidence> = none_of();
    let mut index: usize = 0;
    proof {
        assert(candidate_keys(model).take(0) =~= Seq::empty());
        assert(candidate_artifacts(model).take(0) =~= Seq::empty());
        assert(candidate_evidence(reference, model).take(0) =~= Seq::empty());
    }
    while index < candidates.len()
        invariant
            index <= candidates@.len(),
            model == candidates.deep_view(),
            reference == projected.deep_view().reference,
            keys.deep_view() == candidate_keys(model).take(index as int),
            artifacts.deep_view() == candidate_artifacts(model).take(index as int),
            evidence.deep_view() == candidate_evidence(reference, model).take(index as int),
        decreases candidates@.len() - index,
    {
        assert(model[index as int] == candidates@[index as int].deep_view());
        proof {
            take_next(candidate_keys(model), index as int);
            take_next(candidate_artifacts(model), index as int);
            take_next(candidate_evidence(reference, model), index as int);
        }
        let candidate = &candidates[index];
        push_value(&mut keys, candidate.artifact.artifact_key.copied());
        push_value(&mut artifacts, candidate.artifact.copied());
        push_value(&mut evidence, evidence_for(&projected.reference, candidate));
        index = index + 1;
    }
    proof {
        assert(model.len() == candidates@.len());
        assert(candidate_keys(model).take(index as int) =~= candidate_keys(model));
        assert(candidate_artifacts(model).take(index as int) =~= candidate_artifacts(model));
        assert(candidate_evidence(reference, model).take(index as int) =~= candidate_evidence(reference, model));
    }
    projection_for_status(
        projected,
        Some(generation.copied()),
        ResolutionStatus::Ambiguous,
        None,
        keys,
        artifacts,
        evidence,
        "Multiple Artifacts share equal highest-precedence evidence; lower path/time hints were not used to choose",
    )
}

/// Resolves one Reference.
fn resolve_one(projected: &ProjectedEngineeringReference, outcome: Option<&RepositoryScanOutcome>) -> (result: Result<
    ResolvedReferenceProjection,
>)
    ensures
        ({
            let model = match outcome {
                Some(outcome) => Some(outcome.deep_view()),
                None => None,
            };
            fails_as(result, resolving_problem(projected.deep_view(), model)) && (result is Ok
                ==> result->Ok_0.deep_view() == resolution_of_reference(projected.deep_view(), model))
        }),
{
    match outcome {
        None => projection_for_unavailable(projected, None, "Repository snapshot unavailable"),
        Some(RepositoryScanOutcome::Unavailable { repository_id: _, reason }) => {
            let explanation = joined2("Repository unavailable: ", reason.as_str());
            projection_for_unavailable(projected, None, explanation.as_str())
        },
        Some(RepositoryScanOutcome::Available(snapshot)) => {
            let candidates = winning_candidates(&projected.reference, &snapshot.artifacts);
            assert(candidates.deep_view().len() == candidates@.len());
            if candidates.len() == 0 {
                if !snapshot_covers(snapshot, &projected.reference.locator) {
                    return projection_for_unavailable(
                        projected,
                        Some(snapshot.generation.copied()),
                        UNSCANNED_EXPLANATION,
                    );
                }
                return projection_for_status(
                    projected,
                    Some(snapshot.generation.copied()),
                    ResolutionStatus::Missing,
                    None,
                    none_of(),
                    none_of(),
                    none_of(),
                    "The deterministic Artifact locator is missing from the Repository snapshot",
                );
            }
            assert(candidates.deep_view()[0] == candidates@[0].deep_view());
            if candidates.len() == 1 && !candidate_is_ambiguous(&candidates[0]) {
                return projection_for_resolved(projected, &snapshot.generation, &candidates[0]);
            }
            projection_for_ambiguous(projected, &snapshot.generation, &candidates)
        },
    }
}

/// What References add to a generation.
pub open spec fn reference_components(
    references: Seq<ProjectedEngineeringReferenceView>,
) -> Seq<Seq<char>> {
    concatenated(
        |i: int|
            seq![
                references[i].reference.reference_id.text(),
                <ProjectedEngineeringReference as Json>::json(references[i]),
            ],
        references.len(),
    )
}

/// What Context snapshots add to a generation.
pub open spec fn context_components(contexts: Seq<GraphContextSnapshotView>) -> Seq<Seq<char>> {
    Seq::new(contexts.len(), |i: int| <GraphContextSnapshot as Json>::json(contexts[i]))
}

/// What a scan outcome adds to a generation.
pub open spec fn outcome_component(outcome: RepositoryScanOutcomeView) -> Seq<char> {
    match outcome {
        RepositoryScanOutcomeView::Available(snapshot) => snapshot.generation,
        RepositoryScanOutcomeView::Unavailable { repository_id: _, reason } => reason,
    }
}

/// The Repositories of scan outcomes, in order.
pub open spec fn ordered_ids(outcomes: Seq<RepositoryScanOutcomeView>) -> Seq<Seq<char>> {
    set_listing::<RepositoryId>(outcome_ids(outcomes).to_set())
}

/// What scan outcomes add to a generation, in the order of their Repositories.
pub open spec fn outcome_components(outcomes: Seq<RepositoryScanOutcomeView>) -> Seq<Seq<char>> {
    let ids = ordered_ids(outcomes);
    concatenated(
        |i: int|
            seq![
                ids[i],
                match outcome_for(outcomes, ids[i], 0) {
                    Some(outcome) => outcome_component(outcome),
                    None => ""@,
                },
            ],
        ids.len(),
    )
}

/// What evidence adds to a generation.
pub open spec fn evidence_components(evidence: Seq<CandidateMatchEvidenceView>) -> Seq<Seq<char>> {
    concatenated(
        |i: int|
            match evidence[i].artifact_key {
                Some(key) => seq![key.digest, evidence[i].basis.name()],
                None => seq![evidence[i].basis.name()],
            },
        evidence.len(),
    )
}

/// What a resolved Reference adds to a generation.
pub open spec fn resolved_component(resolved: ResolvedReferenceProjectionView) -> Seq<Seq<char>> {
    seq![resolved.reference_id.text(), status_text(resolved.resolution.status)] + evidence_components(
        resolved.evidence,
    )
}

/// What resolved References add to a generation.
pub open spec fn resolved_components(resolved: Seq<ResolvedReferenceProjectionView>) -> Seq<Seq<char>> {
    concatenated(|i: int| resolved_component(resolved[i]), resolved.len())
}

/// The generation of a projection: a digest of the policy, the References, the Contexts, the scan
/// outcomes and the resolutions.
pub open spec fn projection_generation_of(
    references: Seq<ProjectedEngineeringReferenceView>,
    outcomes: Seq<RepositoryScanOutcomeView>,
    contexts: Seq<GraphContextSnapshotView>,
    resolved: Seq<ResolvedReferenceProjectionView>,
) -> Seq<char> {
    "eng_"@ + sha256_hex(
        framed_all(
            seq![RESOLVER_POLICY_VERSION@] + reference_components(references) + context_components(contexts)
                + outcome_components(outcomes) + resolved_components(resolved),
        ),
    )
}

fn json_of<T: Json>(value: &T) -> (text: String)
    ensures
        text@ == T::json(value.deep_view()),
{
    let mut text = String::new();
    value.write_json(&mut text);
    assert(text@ =~= T::json(value.deep_view()));
    text
}

fn push_references(components: &mut Vec<String>, references: &Vec<ProjectedEngineeringReference>)
    ensures
        final(components).deep_view() == old(components).deep_view() + reference_components(references.deep_view()),
{
    let ghost start = components.deep_view();
    let ghost model = references.deep_view();
    let ghost parts = |i: int|
        seq![
            model[i].reference.reference_id.text(),
            <ProjectedEngineeringReference as Json>::json(model[i]),
        ];
    let mut index: usize = 0;
    assert(start + concatenated(parts, 0) =~= start);
    while index < references.len()
        invariant
            index <= references@.len(),
            model == references.deep_view(),
            parts == (|i: int|
                seq![
                    model[i].reference.reference_id.text(),
                    <ProjectedEngineeringReference as Json>::json(model[i]),
                ]),
            components.deep_view() == start + concatenated(parts, index as nat),
        decreases references@.len() - index,
    {
        assert(model[index as int] == references@[index as int].deep_view());
        let reference = &references[index];
        push_value(components, reference.reference.reference_id.to_string());
        push_value(components, json_of(reference));
        assert(components.deep_view() =~= start + (concatenated(parts, index as nat) + parts(index as int)));
        index = index + 1;
    }
    assert(model.len() == references@.len());
}

fn push_contexts(components: &mut Vec<String>, contexts: &Vec<GraphContextSnapshot>)
    ensures
        final(components).deep_view() == old(components).deep_view() + context_components(contexts.deep_view()),
{
    let ghost start = components.deep_view();
    let ghost model = contexts.deep_view();
    let ghost all = context_components(model);
    let mut index: usize = 0;
    assert(start + all.take(0) =~= start);
    while index < contexts.len()
        invariant
            index <= contexts@.len(),
            model == contexts.deep_view(),
            all == context_components(model),
            components.deep_view() == start + all.take(index as int),
        decreases contexts@.len() - index,
    {
        assert(model[index as int] == contexts@[index as int].deep_view());
        push_value(components, json_of(&contexts[index]));
        proof {
            take_next(all, index as int);
            assert(components.deep_view() =~= start + all.take(index + 1));
        }
        index = index + 1;
    }
    assert(model.len() == contexts@.len());
    assert(all.take(index as int) =~= all);
}

fn outcome_text(outcome: &RepositoryScanOutcome) -> (text: String)
    ensures
        text@ == outcome_component(outcome.deep_view()),
{
    match outcome {
        RepositoryScanOutcome::Available(snapshot) => snapshot.generation.copied(),
        RepositoryScanOutcome::Unavailable { repository_id: _, reason } => reason.copied(),
    }
}

fn push_outcomes(components: &mut Vec<String>, outcomes: &Vec<RepositoryScanOutcome>, ids: &Vec<RepositoryId>)
    requires
        ids.deep_view() == ordered_ids(outcomes.deep_view()),
    ensures
        final(components).deep_view() == old(components).deep_view() + outcome_components(outcomes.deep_view()),
{
    let ghost start = components.deep_view();
    let ghost model = outcomes.deep_view();
    let ghost keys = ordered_ids(model);
    let ghost parts = |i: int|
        seq![
            keys[i],
            match outcome_for(model, keys[i], 0) {
                Some(outcome) => outcome_component(outcome),
                None => ""@,
            },
        ];
    let mut index: usize = 0;
    assert(start + concatenated(parts, 0) =~= start);
    while index < ids.len()
        invariant
            index <= ids@.len(),
            model == outcomes.deep_view(),
            keys == ordered_ids(model),
            ids.deep_view() == keys,
            parts == (|i: int|
                seq![
                    keys[i],
                    match outcome_for(model, keys[i], 0) {
                        Some(outcome) => outcome_component(outcome),
                        None => ""@,
                    },
                ]),
            components.deep_view() == start + concatenated(parts, index as nat),
        decreases ids@.len() - index,
    {
        assert(keys[index as int] == ids@[index as int]@);
        push_value(components, ids[index].to_string());
        let text = match find_outcome(outcomes, &ids[index]) {
            Some(outcome) => outcome_text(outcome),
            None => "".to_owned(),
        };
        push_value(components, text);
        assert(components.deep_view() =~= start + (concatenated(parts, index as nat) + parts(index as int)));
        index = index + 1;
    }
    assert(keys.len() == ids@.len());
}

fn push_evidence(components: &mut Vec<String>, evidence: &Vec<CandidateMatchEvidence>)
    ensures
        final(components).deep_view() == old(components).deep_view() + evidence_components(evidence.deep_view()),
{
    let ghost start = components.deep_view();
    let ghost model = evidence.deep_view();
    let ghost parts = |i: int|
        match model[i].artifact_key {
            Some(key) => seq![key.digest, model[i].basis.name()],
            None => seq![model[i].basis.name()],
        };
    let mut index: usize = 0;
    assert(start + concatenated(parts, 0) =~= start);
    while index < evidence.len()
        invariant
            index <= evidence@.len(),
            model == evidence.deep_view(),
            parts == (|i: int|
                match model[i].artifact_key {
                    Some(key) => seq![key.digest, model[i].basis.name()],
                    None => seq![model[i].basis.name()],
                }),
            components.deep_view() == start + concatenated(parts, index as nat),
        decreases evidence@.len() - index,
    {
        assert(model[index as int] == evidence@[index as int].deep_view());
        let item = &evidence[index];
        if let Some(key) = &item.artifact_key {
            push_value(components, key.digest().to_owned());
        }
        push_value(components, item.basis.name_text().to_owned());
        assert(components.deep_view() =~= start + (concatenated(parts, index as nat) + parts(index as int)));
        index = index + 1;
    }
    assert(model.len() == evidence@.len());
}

fn push_resolved(components: &mut Vec<String>, resolved: &Vec<ResolvedReferenceProjection>)
    ensures
        final(components).deep_view() == old(components).deep_view() + resolved_components(resolved.deep_view()),
{
    let ghost start = components.deep_view();
    let ghost model = resolved.deep_view();
    let ghost parts = |i: int| resolved_component(model[i]);
    let mut index: usize = 0;
    assert(start + concatenated(parts, 0) =~= start);
    while index < resolved.len()
        invariant
            index <= resolved@.len(),
            model == resolved.deep_view(),
            parts == (|i: int| resolved_component(model[i])),
            components.deep_view() == start + concatenated(parts, index as nat),
        decreases resolved@.len() - index,
    {
        assert(model[index as int] == resolved@[index as int].deep_view());
        let reference = &resolved[index];
        push_value(components, reference.reference_id.to_string());
        push_value(components, status_name(reference.resolution.status).to_owned());
        push_evidence(components, &reference.evidence);
        assert(components.deep_view() =~= start + (concatenated(parts, index as nat) + parts(index as int)));
        index = index + 1;
    }
    assert(model.len() == resolved@.len());
}

fn projection_generation(
    references: &Vec<ProjectedEngineeringReference>,
    outcomes: &Vec<RepositoryScanOutcome>,
    ids: &Vec<RepositoryId>,
    contexts: &Vec<GraphContextSnapshot>,
    resolved: &Vec<ResolvedReferenceProjection>,
) -> (generation: String)
    requires
        ids.deep_view() == ordered_ids(outcomes.deep_view()),
    ensures
        generation@ == projection_generation_of(
            references.deep_view(),
            outcomes.deep_view(),
            contexts.deep_view(),
            resolved.deep_view(),
        ),
{
    let mut components: Vec<String> = single(RESOLVER_POLICY_VERSION.to_owned());
    push_references(&mut components, references);
    push_contexts(&mut components, contexts);
    push_outcomes(&mut components, outcomes, ids);
    push_resolved(&mut components, resolved);
    let bytes = frame_all(&components);
    let hash = sha256_text(&bytes);
    joined2("eng_", hash.as_str())
}

/// The record of a scan that stopped before reading its whole plan.
pub open spec fn incomplete_scan(outcome: RepositoryScanOutcomeView) -> Option<IncompleteRepositoryScanView> {
    match outcome {
        RepositoryScanOutcomeView::Available(snapshot) => match snapshot.coverage {
            ScanCoverageView::Partial { covered, unfinished } => Some(
                IncompleteRepositoryScanView {
                    repository_id: snapshot.repository_id,
                    repository_generation: snapshot.generation,
                    scanned_paths: covered.len() as usize,
                    unfinished_paths: unfinished.len() as usize,
                    unfinished_prefixes: set_listing::<String>(snapshot.coverage.open_modules()),
                },
            ),
            ScanCoverageView::Complete => None,
        },
        RepositoryScanOutcomeView::Unavailable { repository_id: _, reason: _ } => None,
    }
}

/// The scans that stopped before reading their whole plan, in the order of their Repositories.
pub open spec fn incomplete_scans_of(outcomes: Seq<RepositoryScanOutcomeView>) -> Seq<IncompleteRepositoryScanView> {
    let ids = ordered_ids(outcomes);
    concatenated(
        |i: int|
            match outcome_for(outcomes, ids[i], 0) {
                Some(outcome) => match incomplete_scan(outcome) {
                    Some(scan) => seq![scan],
                    None => Seq::empty(),
                },
                None => Seq::empty(),
            },
        ids.len(),
    )
}

fn incomplete_scan_of(outcome: &RepositoryScanOutcome) -> (scan: Option<IncompleteRepositoryScan>)
    ensures
        scan.deep_view() == incomplete_scan(outcome.deep_view()),
{
    match outcome {
        RepositoryScanOutcome::Available(snapshot) => match &snapshot.coverage {
            ScanCoverage::Partial { covered, unfinished } => {
                assert(covered.deep_view().len() == covered@.len());
                assert(unfinished.deep_view().len() == unfinished@.len());
                Some(
                    IncompleteRepositoryScan {
                        repository_id: snapshot.repository_id.copied(),
                        repository_generation: snapshot.generation.copied(),
                        scanned_paths: covered.len(),
                        unfinished_paths: unfinished.len(),
                        unfinished_prefixes: snapshot.coverage.unfinished_prefixes(),
                    },
                )
            },
            ScanCoverage::Complete => None,
        },
        RepositoryScanOutcome::Unavailable { repository_id: _, reason: _ } => None,
    }
}

fn incomplete_scans(outcomes: &Vec<RepositoryScanOutcome>, ids: &Vec<RepositoryId>) -> (scans: Vec<
    IncompleteRepositoryScan,
>)
    requires
        ids.deep_view() == ordered_ids(outcomes.deep_view()),
    ensures
        scans.deep_view() == incomplete_scans_of(outcomes.deep_view()),
{
    let ghost model = outcomes.deep_view();
    let ghost keys = ordered_ids(model);
    let ghost parts = |i: int|
        match outcome_for(model, keys[i], 0) {
            Some(outcome) => match incomplete_scan(outcome) {
                Some(scan) => seq![scan],
                None => Seq::empty(),
            },
            None => Seq::empty(),
        };
    let mut scans: Vec<IncompleteRepositoryScan> = none_of();
    let mut index: usize = 0;
    while index < ids.len()
        invariant
            index <= ids@.len(),
            model == outcomes.deep_view(),
            keys == ordered_ids(model),
            ids.deep_view() == keys,
            parts == (|i: int|
                match outcome_for(model, keys[i], 0) {
                    Some(outcome) => match incomplete_scan(outcome) {
                        Some(scan) => seq![scan],
                        None => Seq::empty(),
                    },
                    None => Seq::empty(),
                }),
            scans.deep_view() == concatenated(parts, index as nat),
        decreases ids@.len() - index,
    {
        assert(keys[index as int] == ids@[index as int]@);
        if let Some(outcome) = find_outcome(outcomes, &ids[index]) {
            if let Some(scan) = incomplete_scan_of(outcome) {
                push_value(&mut scans, scan);
            }
        }
        assert(scans.deep_view() =~= concatenated(parts, index as nat) + parts(index as int));
        index = index + 1;
    }
    assert(keys.len() == ids@.len());
    scans
}

/// The identities of projected References.
pub open spec fn projected_ids(references: Seq<ProjectedEngineeringReferenceView>) -> Seq<ReferenceId> {
    Seq::new(references.len(), |i: int| references[i].reference.reference_id)
}

/// Why one of the ordered References cannot be resolved, if it cannot.
pub open spec fn step_problem(
    references: Seq<ProjectedEngineeringReferenceView>,
    outcomes: Seq<RepositoryScanOutcomeView>,
) -> spec_fn(int) -> Option<ErrorView> {
    |i: int|
        first(
            references[i].reference.draft().problem(),
            first(
                given(
                    projected_ids(references).take(i).contains(references[i].reference.reference_id),
                    invalid("projected References must not repeat ReferenceId"@),
                ),
                resolving_problem(references[i], outcome_for(outcomes, references[i].reference.repository_id, 0)),
            ),
        )
}

/// What the ordered References resolve to, before they carry a generation.
pub open spec fn resolved_all(
    references: Seq<ProjectedEngineeringReferenceView>,
    outcomes: Seq<RepositoryScanOutcomeView>,
) -> Seq<ResolvedReferenceProjectionView> {
    Seq::new(
        references.len(),
        |i: int|
            resolution_of_reference(
                references[i],
                outcome_for(outcomes, references[i].reference.repository_id, 0),
            ),
    )
}

/// Resolved References that carry a generation.
pub open spec fn with_generation(
    resolved: Seq<ResolvedReferenceProjectionView>,
    generation: Seq<char>,
) -> Seq<ResolvedReferenceProjectionView> {
    Seq::new(
        resolved.len(),
        |i: int| ResolvedReferenceProjectionView { artifact_generation: generation, ..resolved[i] },
    )
}

/// The projection of References, Contexts and scan outcomes, whatever their order.
pub open spec fn projection_of(
    references: Seq<ProjectedEngineeringReferenceView>,
    outcomes: Seq<RepositoryScanOutcomeView>,
    contexts: Seq<GraphContextSnapshotView>,
) -> EngineeringProjectionView {
    let ordered = stably_sorted::<ProjectedEngineeringReference>(references);
    let listed = stably_sorted::<GraphContextSnapshot>(contexts);
    let resolved = resolved_all(ordered, outcomes);
    let generation = projection_generation_of(ordered, outcomes, listed, resolved);
    EngineeringProjectionView {
        policy_version: RESOLVER_POLICY_VERSION@,
        artifact_generation: generation,
        contexts: listed,
        references: with_generation(resolved, generation),
        incomplete_scans: incomplete_scans_of(outcomes),
    }
}

/// Why there is no consistent projection, if there is none.
pub open spec fn resolve_problem(
    references: Seq<ProjectedEngineeringReferenceView>,
    outcomes: Seq<RepositoryScanOutcomeView>,
    contexts: Seq<GraphContextSnapshotView>,
) -> Option<ErrorView> {
    let ordered = stably_sorted::<ProjectedEngineeringReference>(references);
    let listed = stably_sorted::<GraphContextSnapshot>(contexts);
    first(
        first_from(|i: int| listed[i].problem(), 0, listed.len()),
        first(
            given(
                !outcome_ids(outcomes).no_duplicates(),
                invalid("Repository scan outcomes must not repeat RepositoryId"@),
            ),
            first(
                first_from(step_problem(ordered, outcomes), 0, ordered.len()),
                projection_of(references, outcomes, contexts).problem(),
            ),
        ),
    )
}

proof fn outcome_is_found(outcomes: Seq<RepositoryScanOutcomeView>, repository_id: Seq<char>, from: int)
    requires
        0 <= from <= outcomes.len(),
    ensures
        match outcome_for(outcomes, repository_id, from) {
            Some(found) => outcomes.contains(found) && outcome_id(found) == repository_id,
            None => forall|i: int| from <= i < outcomes.len() ==> outcome_id(#[trigger] outcomes[i]) != repository_id,
        },
    decreases outcomes.len() - from,
{
    if from < outcomes.len() && outcome_id(outcomes[from]) != repository_id {
        outcome_is_found(outcomes, repository_id, from + 1);
    }
}

proof fn outcomes_ignore_order(
    left: Seq<RepositoryScanOutcomeView>,
    right: Seq<RepositoryScanOutcomeView>,
    repository_id: Seq<char>,
)
    requires
        left.to_multiset() == right.to_multiset(),
        outcome_ids(left).no_duplicates(),
    ensures
        outcome_for(left, repository_id, 0) == outcome_for(right, repository_id, 0),
        outcome_ids(left).to_set().contains(repository_id) == outcome_ids(right).to_set().contains(repository_id),
{
    outcome_is_found(left, repository_id, 0);
    outcome_is_found(right, repository_id, 0);
    left.to_multiset_ensures();
    right.to_multiset_ensures();
    let ids = outcome_ids(left);
    assert forall|outcome: RepositoryScanOutcomeView| left.contains(outcome) == right.contains(outcome) by {
        assert(left.contains(outcome) == (left.to_multiset().count(outcome) > 0));
        assert(right.contains(outcome) == (right.to_multiset().count(outcome) > 0));
    }
    assert forall|a: RepositoryScanOutcomeView, b: RepositoryScanOutcomeView| #[trigger]
        left.contains(a) && #[trigger] left.contains(b) && outcome_id(a) == outcome_id(b) implies a == b by {
        let i = choose|i: int| 0 <= i < left.len() && left[i] == a;
        let j = choose|j: int| 0 <= j < left.len() && left[j] == b;
        assert(ids[i] == ids[j]);
    }
    if let Some(found) = outcome_for(left, repository_id, 0) {
        assert(right.contains(found));
        let j = choose|j: int| 0 <= j < right.len() && right[j] == found;
        assert(outcome_id(right[j]) == repository_id);
        assert(outcome_ids(right)[j] == repository_id);
        let i = choose|i: int| 0 <= i < left.len() && left[i] == found;
        assert(outcome_ids(left)[i] == repository_id);
    }
    if let Some(found) = outcome_for(right, repository_id, 0) {
        assert(left.contains(found));
        let i = choose|i: int| 0 <= i < left.len() && left[i] == found;
        assert(outcome_id(left[i]) == repository_id);
        assert(outcome_ids(left)[i] == repository_id);
        let j = choose|j: int| 0 <= j < right.len() && right[j] == found;
        assert(outcome_ids(right)[j] == repository_id);
    }
    if outcome_ids(left).contains(repository_id) {
        let i = choose|i: int| 0 <= i < ids.len() && ids[i] == repository_id;
        assert(outcome_id(left[i]) == repository_id);
    }
    if outcome_ids(right).contains(repository_id) {
        let i = choose|i: int| 0 <= i < outcome_ids(right).len() && outcome_ids(right)[i] == repository_id;
        assert(outcome_id(right[i]) == repository_id);
    }
}

/// Resolution is deterministic whatever the order of its inputs: References, scan outcomes and
/// Context snapshots that do not repeat make the same projection in any arrangement.
pub proof fn resolution_ignores_order(
    references: (Seq<ProjectedEngineeringReferenceView>, Seq<ProjectedEngineeringReferenceView>),
    outcomes: (Seq<RepositoryScanOutcomeView>, Seq<RepositoryScanOutcomeView>),
    contexts: (Seq<GraphContextSnapshotView>, Seq<GraphContextSnapshotView>),
)
    requires
        references.0.to_multiset() == references.1.to_multiset(),
        one_per_place::<ProjectedEngineeringReference>(references.0.to_multiset()),
        outcomes.0.to_multiset() == outcomes.1.to_multiset(),
        outcome_ids(outcomes.0).no_duplicates(),
        contexts.0.to_multiset() == contexts.1.to_multiset(),
        one_per_place::<GraphContextSnapshot>(contexts.0.to_multiset()),
    ensures
        projection_of(references.0, outcomes.0, contexts.0) == projection_of(references.1, outcomes.1, contexts.1),
{
    let (left, right) = outcomes;
    sorting_ignores_order::<ProjectedEngineeringReference>(references.0, references.1);
    sorting_ignores_order::<GraphContextSnapshot>(contexts.0, contexts.1);
    assert forall|id: Seq<char>| #[trigger] outcome_for(left, id, 0) == outcome_for(right, id, 0) by {
        outcomes_ignore_order(left, right, id);
    }
    let (a, b) = (outcome_ids(left).to_set(), outcome_ids(right).to_set());
    assert forall|id: Seq<char>| a.contains(id) == b.contains(id) by {
        outcomes_ignore_order(left, right, id);
    }
    assert(a =~= b);
    let ids = ordered_ids(left);
    assert(ids == ordered_ids(right));
    concatenated_same(
        |i: int|
            seq![
                ids[i],
                match outcome_for(left, ids[i], 0) {
                    Some(outcome) => outcome_component(outcome),
                    None => ""@,
                },
            ],
        |i: int|
            seq![
                ids[i],
                match outcome_for(right, ids[i], 0) {
                    Some(outcome) => outcome_component(outcome),
                    None => ""@,
                },
            ],
        ids.len(),
    );
    concatenated_same(
        |i: int|
            match outcome_for(left, ids[i], 0) {
                Some(outcome) => match incomplete_scan(outcome) {
                    Some(scan) => seq![scan],
                    None => Seq::empty(),
                },
                None => Seq::empty(),
            },
        |i: int|
            match outcome_for(right, ids[i], 0) {
                Some(outcome) => match incomplete_scan(outcome) {
                    Some(scan) => seq![scan],
                    None => Seq::empty(),
                },
                None => Seq::empty(),
            },
        ids.len(),
    );
    let ordered = stably_sorted::<ProjectedEngineeringReference>(references.0);
    assert(resolved_all(ordered, left) =~= resolved_all(ordered, right));
}

fn validate_all(contexts: &Vec<GraphContextSnapshot>) -> (result: Result<()>)
    ensures
        fails_as(
            result,
            first_from(|i: int| contexts.deep_view()[i].problem(), 0, contexts.deep_view().len()),
        ),
{
    let ghost model = contexts.deep_view();
    let ghost problem = |i: int| model[i].problem();
    let mut index: usize = 0;
    while index < contexts.len()
        invariant
            index <= contexts@.len(),
            model == contexts.deep_view(),
            problem == (|i: int| model[i].problem()),
            first_from(problem, 0, model.len()) == first_from(problem, index as nat, model.len()),
        decreases contexts@.len() - index,
    {
        assert(model[index as int] == contexts@[index as int].deep_view());
        contexts[index].validate()?;
        index = index + 1;
    }
    assert(model.len() == contexts@.len());
    Ok(())
}

fn resolve_all(references: &Vec<ProjectedEngineeringReference>, outcomes: &Vec<RepositoryScanOutcome>) -> (result: Result<
    Vec<ResolvedReferenceProjection>,
>)
    ensures
        fails_as(
            result,
            first_from(
                step_problem(references.deep_view(), outcomes.deep_view()),
                0,
                references.deep_view().len(),
            ),
        ),
        result is Ok ==> result->Ok_0.deep_view() == resolved_all(references.deep_view(), outcomes.deep_view()),
{
    let ghost model = references.deep_view();
    let ghost states = outcomes.deep_view();
    let ghost problem = step_problem(model, states);
    let ghost all = resolved_all(model, states);
    let ghost all_ids = projected_ids(model);
    let mut seen: Vec<ReferenceId> = none_of();
    let mut resolved: Vec<ResolvedReferenceProjection> = none_of();
    let mut index: usize = 0;
    proof {
        assert(all.take(0) =~= Seq::empty());
        assert(all_ids.take(0) =~= Seq::empty());
    }
    while index < references.len()
        invariant
            index <= references@.len(),
            model == references.deep_view(),
            states == outcomes.deep_view(),
            problem == step_problem(model, states),
            all == resolved_all(model, states),
            all_ids == projected_ids(model),
            seen.deep_view() == all_ids.take(index as int),
            resolved.deep_view() == all.take(index as int),
            first_from(problem, 0, model.len()) == first_from(problem, index as nat, model.len()),
        decreases references@.len() - index,
    {
        assert(model[index as int] == references@[index as int].deep_view());
        let projected = &references[index];
        projected.validate()?;
        if is_among(&seen, &projected.reference.reference_id) {
            return Err(invalid_input("projected References must not repeat ReferenceId"));
        }
        push_value(&mut seen, projected.reference.reference_id);
        let outcome = find_outcome(outcomes, &projected.reference.repository_id);
        let found = resolve_one(projected, outcome)?;
        push_value(&mut resolved, found);
        proof {
            take_next(all, index as int);
            take_next(all_ids, index as int);
        }
        index = index + 1;
    }
    assert(model.len() == references@.len());
    assert(all.take(index as int) =~= all);
    Ok(resolved)
}

fn carry_generation(resolved: Vec<ResolvedReferenceProjection>, generation: &String) -> (carried: Vec<
    ResolvedReferenceProjection,
>)
    ensures
        carried.deep_view() == with_generation(resolved.deep_view(), generation@),
{
    let ghost model = resolved.deep_view();
    let ghost all = with_generation(model, generation@);
    let mut carried: Vec<ResolvedReferenceProjection> = none_of();
    let mut index: usize = 0;
    assert(all.take(0) =~= Seq::empty());
    while index < resolved.len()
        invariant
            index <= resolved@.len(),
            model == resolved.deep_view(),
            all == with_generation(model, generation@),
            carried.deep_view() == all.take(index as int),
        decreases resolved@.len() - index,
    {
        assert(model[index as int] == resolved@[index as int].deep_view());
        let reference = resolved[index].copied();
        push_value(
            &mut carried,
            ResolvedReferenceProjection {
                context_id: reference.context_id,
                revision_id: reference.revision_id,
                reference_id: reference.reference_id,
                locator: reference.locator,
                repository_generation: reference.repository_generation,
                artifact_generation: generation.copied(),
                resolution: reference.resolution,
                association: reference.association,
                artifacts: reference.artifacts,
                evidence: reference.evidence,
            },
        );
        proof {
            take_next(all, index as int);
        }
        index = index + 1;
    }
    assert(model.len() == resolved@.len());
    assert(all.take(index as int) =~= all);
    carried
}

/// Deterministic Reference-to-Artifact resolver.
#[derive(Clone, Copy, Debug, Default)]
pub struct EngineeringReferenceResolver;

impl EngineeringReferenceResolver {
    /// Resolves References against current Repository snapshots.
    pub fn resolve(
        &self,
        references: &Vec<ProjectedEngineeringReference>,
        snapshots: &Vec<RepositoryScanOutcome>,
        contexts: &Vec<GraphContextSnapshot>,
    ) -> (result: Result<EngineeringProjection>)
        ensures
            fails_as(
                result,
                resolve_problem(references.deep_view(), snapshots.deep_view(), contexts.deep_view()),
            ),
            result is Ok ==> result->Ok_0.deep_view() == projection_of(
                references.deep_view(),
                snapshots.deep_view(),
                contexts.deep_view(),
            ),
    {
        let listed = sort_stably(contexts);
        validate_all(&listed)?;
        let owners = list_outcome_ids(snapshots);
        if !crate::checks::all_distinct(&owners) {
            return Err(invalid_input("Repository scan outcomes must not repeat RepositoryId"));
        }
        let ids = SortedSet::of_list(&owners).items().copied();
        let ordered = sort_stably(references);
        let resolved = resolve_all(&ordered, snapshots)?;
        let generation = projection_generation(&ordered, snapshots, &ids, &listed, &resolved);
        let carried = carry_generation(resolved, &generation);
        let projection = EngineeringProjection {
            policy_version: RESOLVER_POLICY_VERSION.to_owned(),
            artifact_generation: generation,
            contexts: listed,
            references: carried,
            incomplete_scans: incomplete_scans(snapshots, &ids),
        };
        projection.validate()?;
        Ok(projection)
    }

    /// Resolves incrementally with scratch-equivalent output.
    pub fn resolve_incremental(
        &self,
        previous: &EngineeringProjection,
        references: &Vec<ProjectedEngineeringReference>,
        snapshots: &Vec<RepositoryScanOutcome>,
        contexts: &Vec<GraphContextSnapshot>,
    ) -> (result: Result<EngineeringProjection>)
        ensures
            fails_as(
                result,
                first(
                    previous.deep_view().problem(),
                    resolve_problem(references.deep_view(), snapshots.deep_view(), contexts.deep_view()),
                ),
            ),
            result is Ok ==> result->Ok_0.deep_view() == projection_of(
                references.deep_view(),
                snapshots.deep_view(),
                contexts.deep_view(),
            ),
    {
        previous.validate()?;
        self.resolve(references, snapshots, contexts)
    }
}

/// A Reference outside what a partial scan read is never reported missing.
pub proof fn unread_references_are_not_missing(
    projected: ProjectedEngineeringReferenceView,
    snapshot: RepositorySnapshotView,
)
    requires
        !covers_locator(snapshot.coverage, projected.reference.locator),
    ensures
        resolution_of_reference(
            projected,
            Some(RepositoryScanOutcomeView::Available(snapshot)),
        ).resolution.status != ResolutionStatus::Missing,
{
}

/// Only a resolved Reference forms an association, and with the Artifact that it resolved to: an
/// ambiguous, missing or unavailable one never does. The locator is kept whether or not anything
/// resolved.
pub proof fn only_resolved_references_associate(
    projected: ProjectedEngineeringReferenceView,
    outcome: Option<RepositoryScanOutcomeView>,
)
    ensures
        resolution_of_reference(projected, outcome).association is Some == (resolution_of_reference(
            projected,
            outcome,
        ).resolution.status == ResolutionStatus::Resolved),
        resolution_of_reference(projected, outcome).association matches Some(association) ==> Some(
            association.artifact_key,
        ) == resolution_of_reference(projected, outcome).resolution.resolved_artifact && association.context_id
            == projected.context_id && association.revision_id == projected.revision_id,
        resolution_of_reference(projected, outcome).locator == Some(projected.reference.locator),
{
}

/// A Reference resolves only to an Artifact with exactly its Repository, kind and locator.
pub proof fn resolved_references_match_exactly(
    projected: ProjectedEngineeringReferenceView,
    snapshot: RepositorySnapshotView,
)
    requires
        resolution_of_reference(
            projected,
            Some(RepositoryScanOutcomeView::Available(snapshot)),
        ).resolution.status == ResolutionStatus::Resolved,
    ensures
        exists|i: int|
            0 <= i < snapshot.artifacts.len() && is_named(projected.reference, #[trigger] snapshot.artifacts[i])
                && resolution_of_reference(
                projected,
                Some(RepositoryScanOutcomeView::Available(snapshot)),
            ).resolution.resolved_artifact == Some(snapshot.artifacts[i].artifact.artifact_key),
{
    let keep = |artifact: SnapshotArtifactView| is_named(projected.reference, artifact);
    let named = snapshot.artifacts.filter(keep);
    let candidates = candidates_for(projected.reference, snapshot.artifacts);
    crate::order::sorting_keeps_items::<SnapshotArtifact>(named);
    named.to_multiset_ensures();
    candidates.to_multiset_ensures();
    assert(candidates.contains(candidates[0]));
    assert(candidates.to_multiset().contains(candidates[0]));
    assert(named.contains(candidates[0]));
    let k = choose|k: int| 0 <= k < named.len() && named[k] == candidates[0];
    filter_keeps(snapshot.artifacts, keep, k);
    let i = choose|i: int| 0 <= i < snapshot.artifacts.len() && snapshot.artifacts[i] == named[k];
    assert(is_named(projected.reference, snapshot.artifacts[i]));
}

/// Without a snapshot of its Repository a Reference is unavailable, not missing.
pub proof fn unscanned_repositories_are_unavailable(projected: ProjectedEngineeringReferenceView)
    ensures
        resolution_of_reference(projected, None).resolution.status == ResolutionStatus::Unavailable,
        forall|repository_id: Seq<char>, reason: Seq<char>|
            resolution_of_reference(
                projected,
                Some(#[trigger] unavailable_outcome(repository_id, reason)),
            ).resolution.status == ResolutionStatus::Unavailable,
{
}

/// The outcome of a scan that could not run.
pub open spec fn unavailable_outcome(repository_id: Seq<char>, reason: Seq<char>) -> RepositoryScanOutcomeView {
    RepositoryScanOutcomeView::Unavailable { repository_id, reason }
}

} // verus!
