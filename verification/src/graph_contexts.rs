//! Context revisions captured for one Graph build, with their safety and their relations.

use vstd::prelude::*;

use crate::checks::{blank, is_blank};
use crate::collections::SortedSet;
use crate::engineering::{ContextRelationKind, EngineeringReference, EngineeringReferenceView};
use crate::error::{fails_as, first, given, invariant_violation, violated, ErrorView, Result};
use crate::events::{
    AutoInjectionBlocker, ContextGovernanceStatus, ContextProjection, ContextProjectionView,
    RevisionLifecycle,
};
use crate::gather::{gathered_first, gathered_next, gathered_none};
use crate::ids::{ConflictId, ContextId, RevisionId, SpaceId};
use crate::json::{object, push_member, push_member_text, push_object, with_member, Json};
use crate::model::{ContextRevision, ContextRevisionView, EvidenceSnapshot, EvidenceSnapshotView};
use crate::order::{ascending, list_below, text_below, Ordered};
use crate::value::{take_next, Value};
use crate::json_laws::{members_are_written, objects_write_their_body, writes};

verus! {

/// Build-time lifecycle/governance state of one immutable Context revision.
#[derive(Clone, Copy, Debug, PartialEq, Eq, Structural)]
pub enum GraphContextStatus {
    Candidate,
    Accepted,
    Deprecated,
    Superseded,
    GovernanceConflict,
}

impl DeepView for GraphContextStatus {
    type V = GraphContextStatus;

    open spec fn deep_view(&self) -> GraphContextStatus {
        *self
    }
}

impl Value for GraphContextStatus {
    fn copied(&self) -> (copy: Self) {
        *self
    }

    fn same(&self, other: &Self) -> (equal: bool) {
        *self == *other
    }
}

impl Json for GraphContextStatus {
    open spec fn json(model: GraphContextStatus) -> Seq<char> {
        match model {
            GraphContextStatus::Candidate => "\"candidate\""@,
            GraphContextStatus::Accepted => "\"accepted\""@,
            GraphContextStatus::Deprecated => "\"deprecated\""@,
            GraphContextStatus::Superseded => "\"superseded\""@,
            GraphContextStatus::GovernanceConflict => "\"governance_conflict\""@,
        }
    }

    fn write_json(&self, out: &mut String) {
        match self {
            GraphContextStatus::Candidate => out.append("\"candidate\""),
            GraphContextStatus::Accepted => out.append("\"accepted\""),
            GraphContextStatus::Deprecated => out.append("\"deprecated\""),
            GraphContextStatus::Superseded => out.append("\"superseded\""),
            GraphContextStatus::GovernanceConflict => out.append("\"governance_conflict\""),
        }
    }
}

/// Typed reason why one build-time Context snapshot cannot cross automatic injection.
#[derive(Clone, Copy, Debug, PartialEq, Eq, Structural)]
pub enum GraphContextSafetyBlocker {
    NotAccepted,
    GovernanceConflict,
    UnresolvedSemanticConflict {
        conflict_id: ConflictId,
    },
    IncompleteEvidence,
}

impl DeepView for GraphContextSafetyBlocker {
    type V = GraphContextSafetyBlocker;

    open spec fn deep_view(&self) -> GraphContextSafetyBlocker {
        *self
    }
}

impl Value for GraphContextSafetyBlocker {
    fn copied(&self) -> (copy: Self) {
        *self
    }

    fn same(&self, other: &Self) -> (equal: bool) {
        *self == *other
    }
}

impl Json for GraphContextSafetyBlocker {
    open spec fn json(model: GraphContextSafetyBlocker) -> Seq<char> {
        match model {
            GraphContextSafetyBlocker::NotAccepted => {
                let body = with_member(Seq::<char>::empty(), "kind"@, "\"not_accepted\""@);
                object(body)
            },
            GraphContextSafetyBlocker::GovernanceConflict => {
                let body = with_member(Seq::<char>::empty(), "kind"@, "\"governance_conflict\""@);
                object(body)
            },
            GraphContextSafetyBlocker::UnresolvedSemanticConflict { conflict_id } => {
                let body = with_member(Seq::<char>::empty(), "kind"@, "\"unresolved_semantic_conflict\""@);
                let body = with_member(body, "conflict_id"@, <ConflictId as Json>::json(conflict_id));
                object(body)
            },
            GraphContextSafetyBlocker::IncompleteEvidence => {
                let body = with_member(Seq::<char>::empty(), "kind"@, "\"incomplete_evidence\""@);
                object(body)
            },
        }
    }

    fn write_json(&self, out: &mut String) {
        match self {
            GraphContextSafetyBlocker::NotAccepted => {
                let mut body = String::new();
                push_member_text(&mut body, "kind", "\"not_accepted\"");
                push_object(out, body.as_str());
            },
            GraphContextSafetyBlocker::GovernanceConflict => {
                let mut body = String::new();
                push_member_text(&mut body, "kind", "\"governance_conflict\"");
                push_object(out, body.as_str());
            },
            GraphContextSafetyBlocker::UnresolvedSemanticConflict { conflict_id } => {
                let mut body = String::new();
                push_member_text(&mut body, "kind", "\"unresolved_semantic_conflict\"");
                push_member(&mut body, "conflict_id", conflict_id);
                push_object(out, body.as_str());
            },
            GraphContextSafetyBlocker::IncompleteEvidence => {
                let mut body = String::new();
                push_member_text(&mut body, "kind", "\"incomplete_evidence\"");
                push_object(out, body.as_str());
            },
        }
    }
}

/// Immutable automatic-injection decision made when the Graph was built.
#[derive(Clone, Debug, PartialEq, Eq)]
pub struct GraphContextSafety {
    pub automatic_injection_eligible: bool,
    pub blockers: SortedSet<GraphContextSafetyBlocker>,
}

/// The model of [`GraphContextSafety`].
pub struct GraphContextSafetyView {
    pub automatic_injection_eligible: bool,
    pub blockers: Set<GraphContextSafetyBlocker>,
}

impl DeepView for GraphContextSafety {
    type V = GraphContextSafetyView;

    open spec fn deep_view(&self) -> GraphContextSafetyView {
        GraphContextSafetyView {
            automatic_injection_eligible: self.automatic_injection_eligible.deep_view(),
            blockers: self.blockers.deep_view(),
        }
    }
}

impl Value for GraphContextSafety {
    fn copied(&self) -> (copy: Self) {
        GraphContextSafety {
            automatic_injection_eligible: self.automatic_injection_eligible.copied(),
            blockers: self.blockers.copied(),
        }
    }

    fn same(&self, other: &Self) -> (equal: bool) {
        self.automatic_injection_eligible.same(&other.automatic_injection_eligible)
            && self.blockers.same(&other.blockers)
    }
}

impl GraphContextSafetyView {
    /// The JSON members, behind those of `body`.
    pub open spec fn json_members(self, body: Seq<char>) -> Seq<char> {
        let body = with_member(
            body,
            "automatic_injection_eligible"@,
            <bool as Json>::json(self.automatic_injection_eligible),
        );
        let body = with_member(
            body,
            "blockers"@,
            <SortedSet<GraphContextSafetyBlocker> as Json>::json(self.blockers),
        );
        body
    }
}

impl GraphContextSafety {
    fn push_members(&self, text: &mut String)
        ensures
            final(text)@ == self.deep_view().json_members(old(text)@),
    {
        push_member(text, "automatic_injection_eligible", &self.automatic_injection_eligible);
        push_member(text, "blockers", &self.blockers);
    }
}

impl Json for GraphContextSafety {
    open spec fn json(model: GraphContextSafetyView) -> Seq<char> {
        object(model.json_members(Seq::<char>::empty()))
    }

    fn write_json(&self, out: &mut String) {
        let mut body = String::new();
        self.push_members(&mut body);
        push_object(out, body.as_str());
    }
}

/// One `ContextRelation` with its build-time target revision fixed explicitly.
#[derive(Clone, Debug, PartialEq, Eq)]
pub struct GraphContextRelation {
    pub target_space_id: SpaceId,
    pub target_context_id: ContextId,
    pub target_revision_id: RevisionId,
    pub kind: ContextRelationKind,
    pub rationale: String,
    pub supports: Vec<String>,
}

/// The model of [`GraphContextRelation`].
pub struct GraphContextRelationView {
    pub target_space_id: SpaceId,
    pub target_context_id: ContextId,
    pub target_revision_id: RevisionId,
    pub kind: ContextRelationKind,
    pub rationale: Seq<char>,
    pub supports: Seq<Seq<char>>,
}

impl DeepView for GraphContextRelation {
    type V = GraphContextRelationView;

    open spec fn deep_view(&self) -> GraphContextRelationView {
        GraphContextRelationView {
            target_space_id: self.target_space_id.deep_view(),
            target_context_id: self.target_context_id.deep_view(),
            target_revision_id: self.target_revision_id.deep_view(),
            kind: self.kind.deep_view(),
            rationale: self.rationale.deep_view(),
            supports: self.supports.deep_view(),
        }
    }
}

impl Value for GraphContextRelation {
    fn copied(&self) -> (copy: Self) {
        GraphContextRelation {
            target_space_id: self.target_space_id.copied(),
            target_context_id: self.target_context_id.copied(),
            target_revision_id: self.target_revision_id.copied(),
            kind: self.kind.copied(),
            rationale: self.rationale.copied(),
            supports: self.supports.copied(),
        }
    }

    fn same(&self, other: &Self) -> (equal: bool) {
        self.target_space_id.same(&other.target_space_id)
            && self.target_context_id.same(&other.target_context_id)
            && self.target_revision_id.same(&other.target_revision_id)
            && self.kind.same(&other.kind)
            && self.rationale.same(&other.rationale)
            && self.supports.same(&other.supports)
    }
}

impl GraphContextRelationView {
    /// The JSON members, behind those of `body`.
    pub open spec fn json_members(self, body: Seq<char>) -> Seq<char> {
        let body = with_member(body, "target_space_id"@, <SpaceId as Json>::json(self.target_space_id));
        let body = with_member(body, "target_context_id"@, <ContextId as Json>::json(self.target_context_id));
        let body = with_member(body, "target_revision_id"@, <RevisionId as Json>::json(self.target_revision_id));
        let body = with_member(body, "kind"@, <ContextRelationKind as Json>::json(self.kind));
        let body = with_member(body, "rationale"@, <String as Json>::json(self.rationale));
        let body = with_member(body, "supports"@, <Vec<String> as Json>::json(self.supports));
        body
    }
}

impl GraphContextRelation {
    fn push_members(&self, text: &mut String)
        ensures
            final(text)@ == self.deep_view().json_members(old(text)@),
    {
        push_member(text, "target_space_id", &self.target_space_id);
        push_member(text, "target_context_id", &self.target_context_id);
        push_member(text, "target_revision_id", &self.target_revision_id);
        push_member(text, "kind", &self.kind);
        push_member(text, "rationale", &self.rationale);
        push_member(text, "supports", &self.supports);
    }
}

impl Json for GraphContextRelation {
    open spec fn json(model: GraphContextRelationView) -> Seq<char> {
        object(model.json_members(Seq::<char>::empty()))
    }

    fn write_json(&self, out: &mut String) {
        let mut body = String::new();
        self.push_members(&mut body);
        push_object(out, body.as_str());
    }
}

/// Self-contained immutable Context content and safety decision captured by one Graph build.
#[derive(Clone, Debug, PartialEq, Eq)]
pub struct GraphContextSnapshot {
    pub space_id: SpaceId,
    pub space_title: String,
    pub context_id: ContextId,
    pub revision: ContextRevision,
    pub status: GraphContextStatus,
    pub evidence_completeness: u16,
    pub safety: GraphContextSafety,
    pub relations: Vec<GraphContextRelation>,
}

/// The model of [`GraphContextSnapshot`].
pub struct GraphContextSnapshotView {
    pub space_id: SpaceId,
    pub space_title: Seq<char>,
    pub context_id: ContextId,
    pub revision: ContextRevisionView,
    pub status: GraphContextStatus,
    pub evidence_completeness: u16,
    pub safety: GraphContextSafetyView,
    pub relations: Seq<GraphContextRelationView>,
}

impl DeepView for GraphContextSnapshot {
    type V = GraphContextSnapshotView;

    open spec fn deep_view(&self) -> GraphContextSnapshotView {
        GraphContextSnapshotView {
            space_id: self.space_id.deep_view(),
            space_title: self.space_title.deep_view(),
            context_id: self.context_id.deep_view(),
            revision: self.revision.deep_view(),
            status: self.status.deep_view(),
            evidence_completeness: self.evidence_completeness.deep_view(),
            safety: self.safety.deep_view(),
            relations: self.relations.deep_view(),
        }
    }
}

impl Value for GraphContextSnapshot {
    fn copied(&self) -> (copy: Self) {
        GraphContextSnapshot {
            space_id: self.space_id.copied(),
            space_title: self.space_title.copied(),
            context_id: self.context_id.copied(),
            revision: self.revision.copied(),
            status: self.status.copied(),
            evidence_completeness: self.evidence_completeness.copied(),
            safety: self.safety.copied(),
            relations: self.relations.copied(),
        }
    }

    fn same(&self, other: &Self) -> (equal: bool) {
        self.space_id.same(&other.space_id)
            && self.space_title.same(&other.space_title)
            && self.context_id.same(&other.context_id)
            && self.revision.same(&other.revision)
            && self.status.same(&other.status)
            && self.evidence_completeness.same(&other.evidence_completeness)
            && self.safety.same(&other.safety)
            && self.relations.same(&other.relations)
    }
}

impl GraphContextSnapshotView {
    /// The JSON members, behind those of `body`.
    pub open spec fn json_members(self, body: Seq<char>) -> Seq<char> {
        let body = with_member(body, "space_id"@, <SpaceId as Json>::json(self.space_id));
        let body = with_member(body, "space_title"@, <String as Json>::json(self.space_title));
        let body = with_member(body, "context_id"@, <ContextId as Json>::json(self.context_id));
        let body = with_member(body, "revision"@, <ContextRevision as Json>::json(self.revision));
        let body = with_member(body, "status"@, <GraphContextStatus as Json>::json(self.status));
        let body = with_member(body, "evidence_completeness"@, <u16 as Json>::json(self.evidence_completeness));
        let body = with_member(body, "safety"@, <GraphContextSafety as Json>::json(self.safety));
        let body = with_member(body, "relations"@, <Vec<GraphContextRelation> as Json>::json(self.relations));
        body
    }
}

impl GraphContextSnapshot {
    fn push_members(&self, text: &mut String)
        ensures
            final(text)@ == self.deep_view().json_members(old(text)@),
    {
        push_member(text, "space_id", &self.space_id);
        push_member(text, "space_title", &self.space_title);
        push_member(text, "context_id", &self.context_id);
        push_member(text, "revision", &self.revision);
        push_member(text, "status", &self.status);
        push_member(text, "evidence_completeness", &self.evidence_completeness);
        push_member(text, "safety", &self.safety);
        push_member(text, "relations", &self.relations);
    }
}

impl Json for GraphContextSnapshot {
    open spec fn json(model: GraphContextSnapshotView) -> Seq<char> {
        object(model.json_members(Seq::<char>::empty()))
    }

    fn write_json(&self, out: &mut String) {
        let mut body = String::new();
        self.push_members(&mut body);
        push_object(out, body.as_str());
    }
}

/// Context ownership envelope around one Git-projected persistent Reference.
#[derive(Clone, Debug, PartialEq, Eq)]
pub struct ProjectedEngineeringReference {
    pub context_id: ContextId,
    pub revision_id: RevisionId,
    pub reference: EngineeringReference,
}

/// The model of [`ProjectedEngineeringReference`].
pub struct ProjectedEngineeringReferenceView {
    pub context_id: ContextId,
    pub revision_id: RevisionId,
    pub reference: EngineeringReferenceView,
}

impl DeepView for ProjectedEngineeringReference {
    type V = ProjectedEngineeringReferenceView;

    open spec fn deep_view(&self) -> ProjectedEngineeringReferenceView {
        ProjectedEngineeringReferenceView {
            context_id: self.context_id.deep_view(),
            revision_id: self.revision_id.deep_view(),
            reference: self.reference.deep_view(),
        }
    }
}

impl Value for ProjectedEngineeringReference {
    fn copied(&self) -> (copy: Self) {
        ProjectedEngineeringReference {
            context_id: self.context_id.copied(),
            revision_id: self.revision_id.copied(),
            reference: self.reference.copied(),
        }
    }

    fn same(&self, other: &Self) -> (equal: bool) {
        self.context_id.same(&other.context_id)
            && self.revision_id.same(&other.revision_id)
            && self.reference.same(&other.reference)
    }
}

impl ProjectedEngineeringReferenceView {
    /// The JSON members, behind those of `body`.
    pub open spec fn json_members(self, body: Seq<char>) -> Seq<char> {
        let body = with_member(body, "context_id"@, <ContextId as Json>::json(self.context_id));
        let body = with_member(body, "revision_id"@, <RevisionId as Json>::json(self.revision_id));
        let body = with_member(body, "reference"@, <EngineeringReference as Json>::json(self.reference));
        body
    }
}

impl ProjectedEngineeringReference {
    fn push_members(&self, text: &mut String)
        ensures
            final(text)@ == self.deep_view().json_members(old(text)@),
    {
        push_member(text, "context_id", &self.context_id);
        push_member(text, "revision_id", &self.revision_id);
        push_member(text, "reference", &self.reference);
    }
}

impl Json for ProjectedEngineeringReference {
    open spec fn json(model: ProjectedEngineeringReferenceView) -> Seq<char> {
        object(model.json_members(Seq::<char>::empty()))
    }

    fn write_json(&self, out: &mut String) {
        let mut body = String::new();
        self.push_members(&mut body);
        push_object(out, body.as_str());
    }
}

/// A Context revision in a Space, in the order in which snapshots are captured.
#[derive(Clone, Copy, Debug, PartialEq, Eq, Structural)]
pub struct GraphNode {
    pub space_id: SpaceId,
    pub context_id: ContextId,
    pub revision_id: RevisionId,
}

impl DeepView for GraphNode {
    type V = GraphNode;

    open spec fn deep_view(&self) -> GraphNode {
        *self
    }
}

impl Value for GraphNode {
    fn copied(&self) -> (copy: Self) {
        *self
    }

    fn same(&self, other: &Self) -> (equal: bool) {
        *self == *other
    }
}

/// A Context revision in a Space, in the order in which snapshots are listed.
#[derive(Clone, Copy, Debug, PartialEq, Eq, Structural)]
pub struct GraphKey {
    pub context_id: ContextId,
    pub revision_id: RevisionId,
    pub space_id: SpaceId,
}

impl DeepView for GraphKey {
    type V = GraphKey;

    open spec fn deep_view(&self) -> GraphKey {
        *self
    }
}

impl Value for GraphKey {
    fn copied(&self) -> (copy: Self) {
        *self
    }

    fn same(&self, other: &Self) -> (equal: bool) {
        *self == *other
    }
}

impl Ordered for GraphNode {
    open spec fn below(left: GraphNode, right: GraphNode) -> bool {
        if left.space_id != right.space_id {
            SpaceId::below(left.space_id, right.space_id)
        } else if left.context_id != right.context_id {
            ContextId::below(left.context_id, right.context_id)
        } else {
            RevisionId::below(left.revision_id, right.revision_id)
        }
    }

    proof fn order_laws(a: GraphNode, b: GraphNode, c: GraphNode) {
        SpaceId::order_laws(a.space_id, b.space_id, c.space_id);
        SpaceId::order_laws(b.space_id, a.space_id, c.space_id);
        ContextId::order_laws(a.context_id, b.context_id, c.context_id);
        ContextId::order_laws(b.context_id, a.context_id, c.context_id);
        RevisionId::order_laws(a.revision_id, b.revision_id, c.revision_id);
    }

    fn is_below(&self, other: &Self) -> (result: bool) {
        if self.space_id != other.space_id {
            self.space_id.is_below(&other.space_id)
        } else if self.context_id != other.context_id {
            self.context_id.is_below(&other.context_id)
        } else {
            self.revision_id.is_below(&other.revision_id)
        }
    }
}

impl Ordered for GraphKey {
    open spec fn below(left: GraphKey, right: GraphKey) -> bool {
        if left.context_id != right.context_id {
            ContextId::below(left.context_id, right.context_id)
        } else if left.revision_id != right.revision_id {
            RevisionId::below(left.revision_id, right.revision_id)
        } else {
            SpaceId::below(left.space_id, right.space_id)
        }
    }

    proof fn order_laws(a: GraphKey, b: GraphKey, c: GraphKey) {
        ContextId::order_laws(a.context_id, b.context_id, c.context_id);
        ContextId::order_laws(b.context_id, a.context_id, c.context_id);
        RevisionId::order_laws(a.revision_id, b.revision_id, c.revision_id);
        RevisionId::order_laws(b.revision_id, a.revision_id, c.revision_id);
        SpaceId::order_laws(a.space_id, b.space_id, c.space_id);
    }

    fn is_below(&self, other: &Self) -> (result: bool) {
        if self.context_id != other.context_id {
            self.context_id.is_below(&other.context_id)
        } else if self.revision_id != other.revision_id {
            self.revision_id.is_below(&other.revision_id)
        } else {
            self.space_id.is_below(&other.space_id)
        }
    }
}

/// The place of a blocker among all of them.
pub open spec fn blocker_rank(blocker: GraphContextSafetyBlocker) -> u8 {
    match blocker {
        GraphContextSafetyBlocker::NotAccepted => 0,
        GraphContextSafetyBlocker::GovernanceConflict => 1,
        GraphContextSafetyBlocker::UnresolvedSemanticConflict { conflict_id: _ } => 2,
        GraphContextSafetyBlocker::IncompleteEvidence => 3,
    }
}

fn blocker_place(blocker: GraphContextSafetyBlocker) -> (place: u8)
    ensures
        place == blocker_rank(blocker),
{
    match blocker {
        GraphContextSafetyBlocker::NotAccepted => 0,
        GraphContextSafetyBlocker::GovernanceConflict => 1,
        GraphContextSafetyBlocker::UnresolvedSemanticConflict { conflict_id: _ } => 2,
        GraphContextSafetyBlocker::IncompleteEvidence => 3,
    }
}

impl Ordered for GraphContextSafetyBlocker {
    open spec fn below(left: GraphContextSafetyBlocker, right: GraphContextSafetyBlocker) -> bool {
        match (left, right) {
            (
                GraphContextSafetyBlocker::UnresolvedSemanticConflict { conflict_id: first },
                GraphContextSafetyBlocker::UnresolvedSemanticConflict { conflict_id: second },
            ) => ConflictId::below(first, second),
            _ => blocker_rank(left) < blocker_rank(right),
        }
    }

    proof fn order_laws(a: GraphContextSafetyBlocker, b: GraphContextSafetyBlocker, c: GraphContextSafetyBlocker) {
        if let GraphContextSafetyBlocker::UnresolvedSemanticConflict { conflict_id: first } = a {
            ConflictId::order_laws(first, first, first);
            if let GraphContextSafetyBlocker::UnresolvedSemanticConflict { conflict_id: second } = b {
                ConflictId::order_laws(first, second, second);
                if let GraphContextSafetyBlocker::UnresolvedSemanticConflict { conflict_id: third } = c {
                    ConflictId::order_laws(first, second, third);
                }
            }
        }
    }

    fn is_below(&self, other: &Self) -> (result: bool) {
        match (*self, *other) {
            (
                GraphContextSafetyBlocker::UnresolvedSemanticConflict { conflict_id: first },
                GraphContextSafetyBlocker::UnresolvedSemanticConflict { conflict_id: second },
            ) => first.is_below(&second),
            _ => blocker_place(*self) < blocker_place(*other),
        }
    }
}

/// The place of a kind of relation among all of them.
pub open spec fn relation_rank(kind: ContextRelationKind) -> u8 {
    match kind {
        ContextRelationKind::DependsOn => 0,
        ContextRelationKind::Constrains => 1,
        ContextRelationKind::Implements => 2,
        ContextRelationKind::ValidatedBy => 3,
        ContextRelationKind::Contradicts => 4,
        ContextRelationKind::Supersedes => 5,
        ContextRelationKind::RelatedTo => 6,
    }
}

fn relation_place(kind: ContextRelationKind) -> (place: u8)
    ensures
        place == relation_rank(kind),
{
    match kind {
        ContextRelationKind::DependsOn => 0,
        ContextRelationKind::Constrains => 1,
        ContextRelationKind::Implements => 2,
        ContextRelationKind::ValidatedBy => 3,
        ContextRelationKind::Contradicts => 4,
        ContextRelationKind::Supersedes => 5,
        ContextRelationKind::RelatedTo => 6,
    }
}

impl Ordered for GraphContextRelation {
    open spec fn below(left: GraphContextRelationView, right: GraphContextRelationView) -> bool {
        if left.target_space_id != right.target_space_id {
            SpaceId::below(left.target_space_id, right.target_space_id)
        } else if left.target_context_id != right.target_context_id {
            ContextId::below(left.target_context_id, right.target_context_id)
        } else if left.target_revision_id != right.target_revision_id {
            RevisionId::below(left.target_revision_id, right.target_revision_id)
        } else if left.kind != right.kind {
            relation_rank(left.kind) < relation_rank(right.kind)
        } else if left.rationale != right.rationale {
            text_below(left.rationale, right.rationale)
        } else {
            list_below::<String>(left.supports, right.supports)
        }
    }

    proof fn order_laws(a: GraphContextRelationView, b: GraphContextRelationView, c: GraphContextRelationView) {
        SpaceId::order_laws(a.target_space_id, b.target_space_id, c.target_space_id);
        SpaceId::order_laws(b.target_space_id, a.target_space_id, c.target_space_id);
        ContextId::order_laws(a.target_context_id, b.target_context_id, c.target_context_id);
        ContextId::order_laws(b.target_context_id, a.target_context_id, c.target_context_id);
        RevisionId::order_laws(a.target_revision_id, b.target_revision_id, c.target_revision_id);
        RevisionId::order_laws(b.target_revision_id, a.target_revision_id, c.target_revision_id);
        String::order_laws(a.rationale, b.rationale, c.rationale);
        String::order_laws(b.rationale, a.rationale, c.rationale);
        <Vec<String> as Ordered>::order_laws(a.supports, b.supports, c.supports);
    }

    fn is_below(&self, other: &Self) -> (result: bool) {
        if self.target_space_id != other.target_space_id {
            self.target_space_id.is_below(&other.target_space_id)
        } else if self.target_context_id != other.target_context_id {
            self.target_context_id.is_below(&other.target_context_id)
        } else if self.target_revision_id != other.target_revision_id {
            self.target_revision_id.is_below(&other.target_revision_id)
        } else if self.kind != other.kind {
            relation_place(self.kind) < relation_place(other.kind)
        } else if !self.rationale.same(&other.rationale) {
            self.rationale.is_below(&other.rationale)
        } else {
            self.supports.is_below(&other.supports)
        }
    }
}

/// What one piece of evidence is worth, out of a thousand.
pub open spec fn evidence_worth(item: EvidenceSnapshotView) -> nat {
    (if blank(item.supports) {
        0nat
    } else {
        250
    }) + (if item.content.has_members() {
        250nat
    } else {
        0
    }) + (if blank(item.interpretation) {
        0nat
    } else {
        250
    }) + (if item.limitations.len() == 0 {
        0nat
    } else {
        250
    })
}

/// What evidence is worth together.
pub open spec fn total_worth(evidence: Seq<EvidenceSnapshotView>) -> nat
    decreases evidence.len(),
{
    if evidence.len() == 0 {
        0
    } else {
        total_worth(evidence.drop_last()) + evidence_worth(evidence.last())
    }
}

/// How complete the evidence of a revision is on average, out of a thousand.
pub open spec fn completeness(revision: ContextRevisionView) -> u16 {
    if revision.evidence.len() == 0 {
        0
    } else {
        (total_worth(revision.evidence) / revision.evidence.len()) as u16
    }
}

/// Evidence is worth at most a thousand on average.
pub proof fn worth_is_bounded(evidence: Seq<EvidenceSnapshotView>)
    ensures
        total_worth(evidence) <= 1_000 * evidence.len(),
        evidence.len() > 0 ==> total_worth(evidence) / evidence.len() <= 1_000,
    decreases evidence.len(),
{
    if evidence.len() > 0 {
        worth_is_bounded(evidence.drop_last());
        assert(total_worth(evidence) / evidence.len() <= 1_000) by (nonlinear_arith)
            requires
                total_worth(evidence) <= 1_000 * evidence.len(),
                evidence.len() > 0,
        ;
    }
}

fn worth_of(item: &EvidenceSnapshot) -> (worth: u128)
    ensures
        worth == evidence_worth(item.deep_view()),
        worth <= 1_000,
{
    let mut worth: u128 = 0;
    if !is_blank(item.supports.as_str()) {
        worth = worth + 250;
    }
    if item.content.is_filled_object() {
        worth = worth + 250;
    }
    if !is_blank(item.interpretation.as_str()) {
        worth = worth + 250;
    }
    assert(item.limitations.deep_view().len() == item.limitations@.len());
    if item.limitations.len() > 0 {
        worth = worth + 250;
    }
    worth
}

/// How complete the evidence of a revision is.
pub fn context_evidence_completeness(revision: &ContextRevision) -> (result: u16)
    ensures
        result == completeness(revision.deep_view()),
        result <= 1_000,
{
    let ghost model = revision.deep_view().evidence;
    let count: usize = revision.evidence.len();
    assert(model.len() == count);
    if count == 0 {
        return 0;
    }
    let mut total: u128 = 0;
    let mut index: usize = 0;
    assert(model.take(0) =~= Seq::empty());
    while index < count
        invariant
            index <= count == revision.evidence@.len(),
            model == revision.deep_view().evidence,
            total == total_worth(model.take(index as int)),
            total <= 1_000 * index,
        decreases count - index,
    {
        assert(model[index as int] == revision.evidence@[index as int].deep_view());
        proof {
            take_next(model, index as int);
        }
        total = total + worth_of(&revision.evidence[index]);
        index = index + 1;
    }
    proof {
        assert(model.take(index as int) =~= model);
        worth_is_bounded(model);
    }
    (total / count as u128) as u16
}

impl GraphContextSnapshotView {
    /// Whether the snapshot may be injected automatically.
    pub open spec fn is_safe(self) -> bool {
        self.status == GraphContextStatus::Accepted && completeness(self.revision) == 1_000
            && self.revision.evidence.len() > 0 && self.safety.blockers == Set::<GraphContextSafetyBlocker>::empty()
    }

    /// Why a snapshot is inconsistent, if it is.
    pub open spec fn problem(self) -> Option<ErrorView> {
        first(
            given(blank(self.space_title), violated("Graph Context snapshot Space title is empty"@)),
            first(
                self.revision.invalidity(),
                first(
                    given(
                        self.evidence_completeness != completeness(self.revision),
                        violated(
                            "Graph Context snapshot Evidence completeness is not derived from its Revision"@,
                        ),
                    ),
                    first(
                        given(
                            self.safety.automatic_injection_eligible != self.is_safe(),
                            violated("Graph Context snapshot safety decision is inconsistent"@),
                        ),
                        first(
                            given(
                                !self.is_safe() && self.safety.blockers
                                    == Set::<GraphContextSafetyBlocker>::empty(),
                                violated("unsafe Graph Context snapshot requires a typed safety blocker"@),
                            ),
                            given(
                                !ascending::<GraphContextRelation>(self.relations),
                                violated("Graph Context snapshot Relations are duplicated or unsorted"@),
                            ),
                        ),
                    ),
                ),
            ),
        )
    }
}

/// Whether a list is strictly ascending.
pub fn is_ascending<T: Ordered>(items: &Vec<T>) -> (result: bool)
    ensures
        result == ascending::<T>(items.deep_view()),
{
    let ghost model = items.deep_view();
    if items.len() == 0 {
        return true;
    }
    let mut index: usize = 1;
    while index < items.len()
        invariant
            1 <= index <= items@.len(),
            model == items.deep_view(),
            forall|i: int, j: int| 0 <= i < j < index ==> T::below(#[trigger] model[i], #[trigger] model[j]),
        decreases items@.len() - index,
    {
        assert(model[index - 1] == items@[index - 1].deep_view());
        assert(model[index as int] == items@[index as int].deep_view());
        if !items[index - 1].is_below(&items[index]) {
            assert(!T::below(model[index - 1], model[index as int]));
            return false;
        }
        assert forall|i: int, j: int| 0 <= i < j < index + 1 implies T::below(
            #[trigger] model[i],
            #[trigger] model[j],
        ) by {
            if j == index && i < index - 1 {
                T::order_laws(model[i], model[index - 1], model[index as int]);
            }
        }
        index = index + 1;
    }
    assert(model.len() == items@.len());
    true
}

impl GraphContextSnapshot {
    /// Validates a snapshot.
    pub(crate) fn validate(&self) -> (result: Result<()>)
        ensures
            fails_as(result, self.deep_view().problem()),
    {
        if is_blank(self.space_title.as_str()) {
            return Err(invariant_violation("Graph Context snapshot Space title is empty"));
        }
        self.revision.validate()?;
        let derived = context_evidence_completeness(&self.revision);
        if self.evidence_completeness != derived {
            return Err(
                invariant_violation(
                    "Graph Context snapshot Evidence completeness is not derived from its Revision",
                ),
            );
        }
        assert(self.revision.evidence.deep_view().len() == self.revision.evidence@.len());
        let unblocked = self.safety.blockers.is_empty();
        let safe = self.status == GraphContextStatus::Accepted && derived == 1_000 && self.revision.evidence.len()
            > 0 && unblocked;
        assert(safe == self.deep_view().is_safe());
        if self.safety.automatic_injection_eligible != safe {
            return Err(invariant_violation("Graph Context snapshot safety decision is inconsistent"));
        }
        if !safe && unblocked {
            return Err(invariant_violation("unsafe Graph Context snapshot requires a typed safety blocker"));
        }
        if !is_ascending(&self.relations) {
            return Err(invariant_violation("Graph Context snapshot Relations are duplicated or unsorted"));
        }
        Ok(())
    }
}

impl ProjectedEngineeringReference {
    /// Validates the Reference.
    pub(crate) fn validate(&self) -> (result: Result<()>)
        ensures
            fails_as(result, self.deep_view().reference.draft().problem()),
    {
        self.reference.validate()
    }
}

/// The build-time state of a revision.
pub open spec fn status_of(context: ContextProjectionView, lifecycle: RevisionLifecycle) -> GraphContextStatus {
    if context.governance is GovernanceConflict {
        GraphContextStatus::GovernanceConflict
    } else {
        match lifecycle {
            RevisionLifecycle::Candidate => GraphContextStatus::Candidate,
            RevisionLifecycle::Accepted => GraphContextStatus::Accepted,
            RevisionLifecycle::Deprecated => GraphContextStatus::Deprecated,
            RevisionLifecycle::Superseded => GraphContextStatus::Superseded,
        }
    }
}

/// The build-time state of a revision.
pub fn graph_context_status(context: &ContextProjection, lifecycle: RevisionLifecycle) -> (status: GraphContextStatus)
    ensures
        status == status_of(context.deep_view(), lifecycle),
{
    if let ContextGovernanceStatus::GovernanceConflict { publication_ids: _ } = &context.governance {
        return GraphContextStatus::GovernanceConflict;
    }
    match lifecycle {
        RevisionLifecycle::Candidate => GraphContextStatus::Candidate,
        RevisionLifecycle::Accepted => GraphContextStatus::Accepted,
        RevisionLifecycle::Deprecated => GraphContextStatus::Deprecated,
        RevisionLifecycle::Superseded => GraphContextStatus::Superseded,
    }
}

/// A blocker of automatic injection, as the Graph records it.
pub open spec fn recorded(blocker: AutoInjectionBlocker) -> GraphContextSafetyBlocker {
    match blocker {
        AutoInjectionBlocker::NotAccepted => GraphContextSafetyBlocker::NotAccepted,
        AutoInjectionBlocker::GovernanceConflict => GraphContextSafetyBlocker::GovernanceConflict,
        AutoInjectionBlocker::UnresolvedSemanticConflict(conflict_id) =>
            GraphContextSafetyBlocker::UnresolvedSemanticConflict { conflict_id },
    }
}

fn record(blocker: AutoInjectionBlocker) -> (result: GraphContextSafetyBlocker)
    ensures
        result == recorded(blocker),
{
    match blocker {
        AutoInjectionBlocker::NotAccepted => GraphContextSafetyBlocker::NotAccepted,
        AutoInjectionBlocker::GovernanceConflict => GraphContextSafetyBlocker::GovernanceConflict,
        AutoInjectionBlocker::UnresolvedSemanticConflict(conflict_id) => {
            GraphContextSafetyBlocker::UnresolvedSemanticConflict { conflict_id }
        },
    }
}

/// What keeps a revision from automatic injection at build time.
pub open spec fn safety_blockers(
    context: ContextProjectionView,
    revision: ContextRevisionView,
    status: GraphContextStatus,
) -> Set<GraphContextSafetyBlocker> {
    let inherited = Set::new(
        |blocker: GraphContextSafetyBlocker| exists|source: AutoInjectionBlocker| #[trigger]
            context.auto_injection.blockers.contains(source) && recorded(source) == blocker,
    );
    let judged = if status == GraphContextStatus::Accepted {
        inherited
    } else {
        inherited.insert(GraphContextSafetyBlocker::NotAccepted)
    };
    if completeness(revision) == 1_000 && revision.evidence.len() > 0 {
        judged
    } else {
        judged.insert(GraphContextSafetyBlocker::IncompleteEvidence)
    }
}

/// The safety decision about a revision at build time.
pub open spec fn safety_of(
    context: ContextProjectionView,
    revision: ContextRevisionView,
    status: GraphContextStatus,
) -> GraphContextSafetyView {
    let blockers = safety_blockers(context, revision, status);
    GraphContextSafetyView {
        automatic_injection_eligible: status == GraphContextStatus::Accepted && blockers
            == Set::<GraphContextSafetyBlocker>::empty(),
        blockers,
    }
}

/// Decides on the safety of a revision at build time.
pub fn graph_context_safety(context: &ContextProjection, revision: &ContextRevision, status: GraphContextStatus) -> (result:
    (u16, GraphContextSafety))
    ensures
        result.0 == completeness(revision.deep_view()),
        result.1.deep_view() == safety_of(context.deep_view(), revision.deep_view(), status),
{
    let ghost model = context.deep_view();
    let ghost sources = context.auto_injection.blockers.deep_view();
    let ghost listing = context.auto_injection.blockers.listing();
    let mut blockers: SortedSet<GraphContextSafetyBlocker> = SortedSet::new();
    let count = context.auto_injection.blockers.len();
    let ghost share = |source: AutoInjectionBlocker| Set::<GraphContextSafetyBlocker>::empty().insert(
        recorded(source),
    );
    proof {
        gathered_none(listing, share);
    }
    let mut index: usize = 0;
    while index < count
        invariant
            index <= count,
            count == listing.len(),
            listing == context.auto_injection.blockers.listing(),
            share == (|source: AutoInjectionBlocker| Set::<GraphContextSafetyBlocker>::empty().insert(
                recorded(source),
            )),
            blockers.deep_view() == gathered_first(listing, share, index as int),
        decreases count - index,
    {
        let source = *context.auto_injection.blockers.at(index);
        blockers.insert(record(source));
        proof {
            gathered_next(listing, share, index as int);
            assert(blockers.deep_view() =~= gathered_first(listing, share, index + 1));
        }
        index = index + 1;
    }
    proof {
        let inherited = Set::new(
            |blocker: GraphContextSafetyBlocker| exists|source: AutoInjectionBlocker| #[trigger]
                sources.contains(source) && recorded(source) == blocker,
        );
        assert forall|blocker: GraphContextSafetyBlocker| blockers.deep_view().contains(blocker) == inherited.contains(
            blocker,
        ) by {
            if blockers.deep_view().contains(blocker) {
                let i = choose|i: int| 0 <= i < listing.len() && share(#[trigger] listing[i]).contains(blocker);
                assert(listing.to_set().contains(listing[i]));
                assert(sources.contains(listing[i]));
            }
            if inherited.contains(blocker) {
                let source = choose|source: AutoInjectionBlocker| #[trigger]
                    sources.contains(source) && recorded(source) == blocker;
                assert(listing.to_set().contains(source));
                let i = choose|i: int| 0 <= i < listing.len() && listing[i] == source;
                assert(share(listing[i]).contains(blocker));
            }
        }
        assert(blockers.deep_view() =~= inherited);
    }
    if status != GraphContextStatus::Accepted {
        blockers.insert(GraphContextSafetyBlocker::NotAccepted);
    }
    let derived = context_evidence_completeness(revision);
    assert(revision.evidence.deep_view().len() == revision.evidence@.len());
    if derived != 1_000 || revision.evidence.len() == 0 {
        blockers.insert(GraphContextSafetyBlocker::IncompleteEvidence);
    }
    assert(blockers.deep_view() =~= safety_blockers(model, revision.deep_view(), status));
    let eligible = status == GraphContextStatus::Accepted && blockers.is_empty();
    (derived, GraphContextSafety { automatic_injection_eligible: eligible, blockers })
}

/// An eligible decision is made only for an accepted revision with complete evidence and nothing
/// that blocks its Context.
pub proof fn eligible_decisions_are_safe(
    context: ContextProjectionView,
    revision: ContextRevisionView,
    status: GraphContextStatus,
)
    requires
        safety_of(context, revision, status).automatic_injection_eligible,
    ensures
        status == GraphContextStatus::Accepted,
        completeness(revision) == 1_000,
        revision.evidence.len() > 0,
        context.auto_injection.blockers == Set::<AutoInjectionBlocker>::empty(),
{
    let blockers = safety_blockers(context, revision, status);
    assert(!blockers.contains(GraphContextSafetyBlocker::IncompleteEvidence));
    assert forall|source: AutoInjectionBlocker| !context.auto_injection.blockers.contains(source) by {
        if context.auto_injection.blockers.contains(source) {
            assert(blockers.contains(recorded(source)));
        }
    }
    assert(context.auto_injection.blockers =~= Set::empty());
}

/// The JSON text of [`GraphContextSafety`] writes every field of it under its own name.
pub proof fn graph_context_safety_json_writes_every_field(model: GraphContextSafetyView)
    ensures
        writes(
            <GraphContextSafety as Json>::json(model),
            "automatic_injection_eligible"@,
            <bool as Json>::json(model.automatic_injection_eligible),
        ),
        writes(
            <GraphContextSafety as Json>::json(model),
            "blockers"@,
            <SortedSet<GraphContextSafetyBlocker> as Json>::json(model.blockers),
        ),
{
    let b0 = Seq::<char>::empty();
    let b1 = with_member(
        b0,
        "automatic_injection_eligible"@,
        <bool as Json>::json(model.automatic_injection_eligible),
    );
    members_are_written(
        b0,
        "automatic_injection_eligible"@,
        <bool as Json>::json(model.automatic_injection_eligible),
    );
    let b2 = with_member(b1, "blockers"@, <SortedSet<GraphContextSafetyBlocker> as Json>::json(model.blockers));
    members_are_written(b1, "blockers"@, <SortedSet<GraphContextSafetyBlocker> as Json>::json(model.blockers));
    assert(model.json_members(b0) == b2);
    objects_write_their_body(b2);
}

/// The JSON text of [`GraphContextRelation`] writes every field of it under its own name.
pub proof fn graph_context_relation_json_writes_every_field(model: GraphContextRelationView)
    ensures
        writes(
            <GraphContextRelation as Json>::json(model),
            "target_space_id"@,
            <SpaceId as Json>::json(model.target_space_id),
        ),
        writes(
            <GraphContextRelation as Json>::json(model),
            "target_context_id"@,
            <ContextId as Json>::json(model.target_context_id),
        ),
        writes(
            <GraphContextRelation as Json>::json(model),
            "target_revision_id"@,
            <RevisionId as Json>::json(model.target_revision_id),
        ),
        writes(<GraphContextRelation as Json>::json(model), "kind"@, <ContextRelationKind as Json>::json(model.kind)),
        writes(<GraphContextRelation as Json>::json(model), "rationale"@, <String as Json>::json(model.rationale)),
        writes(<GraphContextRelation as Json>::json(model), "supports"@, <Vec<String> as Json>::json(model.supports)),
{
    let b0 = Seq::<char>::empty();
    let b1 = with_member(b0, "target_space_id"@, <SpaceId as Json>::json(model.target_space_id));
    members_are_written(b0, "target_space_id"@, <SpaceId as Json>::json(model.target_space_id));
    let b2 = with_member(b1, "target_context_id"@, <ContextId as Json>::json(model.target_context_id));
    members_are_written(b1, "target_context_id"@, <ContextId as Json>::json(model.target_context_id));
    let b3 = with_member(b2, "target_revision_id"@, <RevisionId as Json>::json(model.target_revision_id));
    members_are_written(b2, "target_revision_id"@, <RevisionId as Json>::json(model.target_revision_id));
    let b4 = with_member(b3, "kind"@, <ContextRelationKind as Json>::json(model.kind));
    members_are_written(b3, "kind"@, <ContextRelationKind as Json>::json(model.kind));
    let b5 = with_member(b4, "rationale"@, <String as Json>::json(model.rationale));
    members_are_written(b4, "rationale"@, <String as Json>::json(model.rationale));
    let b6 = with_member(b5, "supports"@, <Vec<String> as Json>::json(model.supports));
    members_are_written(b5, "supports"@, <Vec<String> as Json>::json(model.supports));
    assert(model.json_members(b0) == b6);
    objects_write_their_body(b6);
}

/// The JSON text of [`GraphContextSnapshot`] writes every field of it under its own name.
pub proof fn graph_context_snapshot_json_writes_every_field(model: GraphContextSnapshotView)
    ensures
        writes(<GraphContextSnapshot as Json>::json(model), "space_id"@, <SpaceId as Json>::json(model.space_id)),
        writes(
            <GraphContextSnapshot as Json>::json(model),
            "space_title"@,
            <String as Json>::json(model.space_title),
        ),
        writes(
            <GraphContextSnapshot as Json>::json(model),
            "context_id"@,
            <ContextId as Json>::json(model.context_id),
        ),
        writes(
            <GraphContextSnapshot as Json>::json(model),
            "revision"@,
            <ContextRevision as Json>::json(model.revision),
        ),
        writes(
            <GraphContextSnapshot as Json>::json(model),
            "status"@,
            <GraphContextStatus as Json>::json(model.status),
        ),
        writes(
            <GraphContextSnapshot as Json>::json(model),
            "evidence_completeness"@,
            <u16 as Json>::json(model.evidence_completeness),
        ),
        writes(
            <GraphContextSnapshot as Json>::json(model),
            "safety"@,
            <GraphContextSafety as Json>::json(model.safety),
        ),
        writes(
            <GraphContextSnapshot as Json>::json(model),
            "relations"@,
            <Vec<GraphContextRelation> as Json>::json(model.relations),
        ),
{
    let b0 = Seq::<char>::empty();
    let b1 = with_member(b0, "space_id"@, <SpaceId as Json>::json(model.space_id));
    members_are_written(b0, "space_id"@, <SpaceId as Json>::json(model.space_id));
    let b2 = with_member(b1, "space_title"@, <String as Json>::json(model.space_title));
    members_are_written(b1, "space_title"@, <String as Json>::json(model.space_title));
    let b3 = with_member(b2, "context_id"@, <ContextId as Json>::json(model.context_id));
    members_are_written(b2, "context_id"@, <ContextId as Json>::json(model.context_id));
    let b4 = with_member(b3, "revision"@, <ContextRevision as Json>::json(model.revision));
    members_are_written(b3, "revision"@, <ContextRevision as Json>::json(model.revision));
    let b5 = with_member(b4, "status"@, <GraphContextStatus as Json>::json(model.status));
    members_are_written(b4, "status"@, <GraphContextStatus as Json>::json(model.status));
    let b6 = with_member(b5, "evidence_completeness"@, <u16 as Json>::json(model.evidence_completeness));
    members_are_written(b5, "evidence_completeness"@, <u16 as Json>::json(model.evidence_completeness));
    let b7 = with_member(b6, "safety"@, <GraphContextSafety as Json>::json(model.safety));
    members_are_written(b6, "safety"@, <GraphContextSafety as Json>::json(model.safety));
    let b8 = with_member(b7, "relations"@, <Vec<GraphContextRelation> as Json>::json(model.relations));
    members_are_written(b7, "relations"@, <Vec<GraphContextRelation> as Json>::json(model.relations));
    assert(model.json_members(b0) == b8);
    objects_write_their_body(b8);
}

/// The JSON text of [`ProjectedEngineeringReference`] writes every field of it under its own name.
pub proof fn projected_engineering_reference_json_writes_every_field(model: ProjectedEngineeringReferenceView)
    ensures
        writes(
            <ProjectedEngineeringReference as Json>::json(model),
            "context_id"@,
            <ContextId as Json>::json(model.context_id),
        ),
        writes(
            <ProjectedEngineeringReference as Json>::json(model),
            "revision_id"@,
            <RevisionId as Json>::json(model.revision_id),
        ),
        writes(
            <ProjectedEngineeringReference as Json>::json(model),
            "reference"@,
            <EngineeringReference as Json>::json(model.reference),
        ),
{
    let b0 = Seq::<char>::empty();
    let b1 = with_member(b0, "context_id"@, <ContextId as Json>::json(model.context_id));
    members_are_written(b0, "context_id"@, <ContextId as Json>::json(model.context_id));
    let b2 = with_member(b1, "revision_id"@, <RevisionId as Json>::json(model.revision_id));
    members_are_written(b1, "revision_id"@, <RevisionId as Json>::json(model.revision_id));
    let b3 = with_member(b2, "reference"@, <EngineeringReference as Json>::json(model.reference));
    members_are_written(b2, "reference"@, <EngineeringReference as Json>::json(model.reference));
    assert(model.json_members(b0) == b3);
    objects_write_their_body(b3);
}

/// Every [`GraphContextStatus`] is written under a name of its own.
pub proof fn graph_context_status_json_names_every_variant()
    ensures
        <GraphContextStatus as Json>::json(GraphContextStatus::Candidate) == "\"candidate\""@,
        <GraphContextStatus as Json>::json(GraphContextStatus::Accepted) == "\"accepted\""@,
        <GraphContextStatus as Json>::json(GraphContextStatus::Deprecated) == "\"deprecated\""@,
        <GraphContextStatus as Json>::json(GraphContextStatus::Superseded) == "\"superseded\""@,
        <GraphContextStatus as Json>::json(GraphContextStatus::GovernanceConflict) == "\"governance_conflict\""@,
{
}

/// The JSON text of [`GraphContextSafetyBlocker`] writes its kind and every field of it under its own name.
pub proof fn graph_context_safety_blocker_json_writes_every_field(model: GraphContextSafetyBlocker)
    ensures
        match model {
            GraphContextSafetyBlocker::NotAccepted => {
                writes(<GraphContextSafetyBlocker as Json>::json(model), "kind"@, "\"not_accepted\""@)
            },
            GraphContextSafetyBlocker::GovernanceConflict => {
                writes(<GraphContextSafetyBlocker as Json>::json(model), "kind"@, "\"governance_conflict\""@)
            },
            GraphContextSafetyBlocker::UnresolvedSemanticConflict { conflict_id } => writes(
                <GraphContextSafetyBlocker as Json>::json(model),
                "kind"@,
                "\"unresolved_semantic_conflict\""@,
            )
                && writes(
                    <GraphContextSafetyBlocker as Json>::json(model),
                    "conflict_id"@,
                    <ConflictId as Json>::json(conflict_id),
                ),
            GraphContextSafetyBlocker::IncompleteEvidence => {
                writes(<GraphContextSafetyBlocker as Json>::json(model), "kind"@, "\"incomplete_evidence\""@)
            },
        },
{
    match model {
        GraphContextSafetyBlocker::NotAccepted => {
            let b0 = Seq::<char>::empty();
            let b1 = with_member(b0, "kind"@, "\"not_accepted\""@);
            members_are_written(b0, "kind"@, "\"not_accepted\""@);
            objects_write_their_body(b1);
        },
        GraphContextSafetyBlocker::GovernanceConflict => {
            let b0 = Seq::<char>::empty();
            let b1 = with_member(b0, "kind"@, "\"governance_conflict\""@);
            members_are_written(b0, "kind"@, "\"governance_conflict\""@);
            objects_write_their_body(b1);
        },
        GraphContextSafetyBlocker::UnresolvedSemanticConflict { conflict_id } => {
            let b0 = Seq::<char>::empty();
            let b1 = with_member(b0, "kind"@, "\"unresolved_semantic_conflict\""@);
            members_are_written(b0, "kind"@, "\"unresolved_semantic_conflict\""@);
            let b2 = with_member(b1, "conflict_id"@, <ConflictId as Json>::json(conflict_id));
            members_are_written(b1, "conflict_id"@, <ConflictId as Json>::json(conflict_id));
            objects_write_their_body(b2);
        },
        GraphContextSafetyBlocker::IncompleteEvidence => {
            let b0 = Seq::<char>::empty();
            let b1 = with_member(b0, "kind"@, "\"incomplete_evidence\""@);
            members_are_written(b0, "kind"@, "\"incomplete_evidence\""@);
            objects_write_their_body(b1);
        },
    }
}

} // verus!
