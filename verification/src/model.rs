//! Authoritative snapshots: intents, Context revisions, reviews, publications and conflicts.

use vstd::prelude::*;
use vstd::string::StringExecFns;

use crate::checks::{
    entry, entry_name, first_from, optional_text_problem, require_optional_text, require_text,
    require_text_items, require_unique, text_items_problem, text_problem, unique_problem,
};
use crate::engineering::{ContextRelation, ContextRelationKind, ContextRelationView};
use crate::error::{fails_as, first, given, invalid, invalid_input, ErrorView, Result};
use crate::ids::{
    ConflictId, ContextId, EventId, EvidenceId, Identifier, PublicationId, ResolutionId, ReviewId, RevisionId,
};
use crate::json::{object, push_member, push_object, with_member, with_member_if, Json, JsonValue, JsonView};
use crate::text::{joined2, joined3};
use crate::value::{push_value, take_all, take_next, Value};
use crate::json_laws::{members_are_written, members_there_are_written, objects_write_their_body, writes};

verus! {

/// Complete authoritative snapshot of a `ContextSpace` intent.
#[derive(Clone, Debug, PartialEq, Eq)]
pub struct IntentSnapshot {
    pub title: String,
    pub problem: String,
    pub desired_outcome: String,
    pub in_scope: Vec<String>,
    pub out_of_scope: Vec<String>,
    pub acceptance_conditions: Vec<String>,
    pub domain_terms: Vec<String>,
}

/// The model of [`IntentSnapshot`].
pub struct IntentSnapshotView {
    pub title: Seq<char>,
    pub problem: Seq<char>,
    pub desired_outcome: Seq<char>,
    pub in_scope: Seq<Seq<char>>,
    pub out_of_scope: Seq<Seq<char>>,
    pub acceptance_conditions: Seq<Seq<char>>,
    pub domain_terms: Seq<Seq<char>>,
}

impl DeepView for IntentSnapshot {
    type V = IntentSnapshotView;

    open spec fn deep_view(&self) -> IntentSnapshotView {
        IntentSnapshotView {
            title: self.title.deep_view(),
            problem: self.problem.deep_view(),
            desired_outcome: self.desired_outcome.deep_view(),
            in_scope: self.in_scope.deep_view(),
            out_of_scope: self.out_of_scope.deep_view(),
            acceptance_conditions: self.acceptance_conditions.deep_view(),
            domain_terms: self.domain_terms.deep_view(),
        }
    }
}

impl Value for IntentSnapshot {
    fn copied(&self) -> (copy: Self) {
        IntentSnapshot {
            title: self.title.copied(),
            problem: self.problem.copied(),
            desired_outcome: self.desired_outcome.copied(),
            in_scope: self.in_scope.copied(),
            out_of_scope: self.out_of_scope.copied(),
            acceptance_conditions: self.acceptance_conditions.copied(),
            domain_terms: self.domain_terms.copied(),
        }
    }

    fn same(&self, other: &Self) -> (equal: bool) {
        self.title.same(&other.title)
            && self.problem.same(&other.problem)
            && self.desired_outcome.same(&other.desired_outcome)
            && self.in_scope.same(&other.in_scope)
            && self.out_of_scope.same(&other.out_of_scope)
            && self.acceptance_conditions.same(&other.acceptance_conditions)
            && self.domain_terms.same(&other.domain_terms)
    }
}

impl IntentSnapshotView {
    /// The JSON members, behind those of `body`.
    pub open spec fn json_members(self, body: Seq<char>) -> Seq<char> {
        let body = with_member(body, "title"@, <String as Json>::json(self.title));
        let body = with_member(body, "problem"@, <String as Json>::json(self.problem));
        let body = with_member(body, "desired_outcome"@, <String as Json>::json(self.desired_outcome));
        let body = with_member(body, "in_scope"@, <Vec<String> as Json>::json(self.in_scope));
        let body = with_member(body, "out_of_scope"@, <Vec<String> as Json>::json(self.out_of_scope));
        let body = with_member(
            body,
            "acceptance_conditions"@,
            <Vec<String> as Json>::json(self.acceptance_conditions),
        );
        let body = with_member(body, "domain_terms"@, <Vec<String> as Json>::json(self.domain_terms));
        body
    }
}

impl IntentSnapshot {
    fn push_members(&self, text: &mut String)
        ensures
            final(text)@ == self.deep_view().json_members(old(text)@),
    {
        push_member(text, "title", &self.title);
        push_member(text, "problem", &self.problem);
        push_member(text, "desired_outcome", &self.desired_outcome);
        push_member(text, "in_scope", &self.in_scope);
        push_member(text, "out_of_scope", &self.out_of_scope);
        push_member(text, "acceptance_conditions", &self.acceptance_conditions);
        push_member(text, "domain_terms", &self.domain_terms);
    }
}

impl Json for IntentSnapshot {
    open spec fn json(model: IntentSnapshotView) -> Seq<char> {
        object(model.json_members(Seq::<char>::empty()))
    }

    fn write_json(&self, out: &mut String) {
        let mut body = String::new();
        self.push_members(&mut body);
        push_object(out, body.as_str());
    }
}

impl IntentSnapshotView {
    /// Why an intent is invalid, if it is.
    pub open spec fn invalidity(self) -> Option<ErrorView> {
        first(
            text_problem(self.title, "intent.title"@),
            first(
                text_problem(self.problem, "intent.problem"@),
                first(
                    text_problem(self.desired_outcome, "intent.desired_outcome"@),
                    first(
                        given(self.in_scope.len() == 0, invalid("intent.in_scope must contain at least one item"@)),
                        first(
                            given(
                                self.acceptance_conditions.len() == 0,
                                invalid("intent.acceptance_conditions must contain at least one item"@),
                            ),
                            first(
                                text_items_problem(self.in_scope, "intent.in_scope"@),
                                first(
                                    text_items_problem(self.out_of_scope, "intent.out_of_scope"@),
                                    first(
                                        text_items_problem(
                                            self.acceptance_conditions,
                                            "intent.acceptance_conditions"@,
                                        ),
                                        text_items_problem(self.domain_terms, "intent.domain_terms"@),
                                    ),
                                ),
                            ),
                        ),
                    ),
                ),
            ),
        )
    }
}

impl IntentSnapshot {
    /// Validates required text without consulting any external system.
    pub fn validate(&self) -> (result: Result<()>)
        ensures
            fails_as(result, self.deep_view().invalidity()),
    {
        require_text(self.title.as_str(), "intent.title")?;
        require_text(self.problem.as_str(), "intent.problem")?;
        require_text(self.desired_outcome.as_str(), "intent.desired_outcome")?;
        if self.in_scope.len() == 0 {
            return Err(invalid_input("intent.in_scope must contain at least one item"));
        }
        if self.acceptance_conditions.len() == 0 {
            return Err(invalid_input("intent.acceptance_conditions must contain at least one item"));
        }
        require_text_items(&self.in_scope, "intent.in_scope")?;
        require_text_items(&self.out_of_scope, "intent.out_of_scope")?;
        require_text_items(&self.acceptance_conditions, "intent.acceptance_conditions")?;
        require_text_items(&self.domain_terms, "intent.domain_terms")
    }
}

/// One immutable full Intent revision.
#[derive(Clone, Debug, PartialEq, Eq)]
pub struct IntentRevision {
    pub revision_id: RevisionId,
    pub parent_revision_ids: Vec<RevisionId>,
    pub intent: IntentSnapshot,
    /// True when the Space Intent was proposed from a Task Working Intent instead of written by
    /// a human.
    ///
    /// The flag is written only when it is true, so every human-authored revision keeps its
    /// encoding. A human revision is written without the flag, which is how a provisional Space
    /// stops being provisional.
    pub provisional: bool,
}

/// The model of [`IntentRevision`].
pub struct IntentRevisionView {
    pub revision_id: RevisionId,
    pub parent_revision_ids: Seq<RevisionId>,
    pub intent: IntentSnapshotView,
    pub provisional: bool,
}

impl DeepView for IntentRevision {
    type V = IntentRevisionView;

    open spec fn deep_view(&self) -> IntentRevisionView {
        IntentRevisionView {
            revision_id: self.revision_id.deep_view(),
            parent_revision_ids: self.parent_revision_ids.deep_view(),
            intent: self.intent.deep_view(),
            provisional: self.provisional.deep_view(),
        }
    }
}

impl Value for IntentRevision {
    fn copied(&self) -> (copy: Self) {
        IntentRevision {
            revision_id: self.revision_id.copied(),
            parent_revision_ids: self.parent_revision_ids.copied(),
            intent: self.intent.copied(),
            provisional: self.provisional.copied(),
        }
    }

    fn same(&self, other: &Self) -> (equal: bool) {
        self.revision_id.same(&other.revision_id)
            && self.parent_revision_ids.same(&other.parent_revision_ids)
            && self.intent.same(&other.intent)
            && self.provisional.same(&other.provisional)
    }
}

impl IntentRevisionView {
    /// The JSON members, behind those of `body`.
    pub open spec fn json_members(self, body: Seq<char>) -> Seq<char> {
        let body = with_member(body, "revision_id"@, <RevisionId as Json>::json(self.revision_id));
        let body = with_member(
            body,
            "parent_revision_ids"@,
            <Vec<RevisionId> as Json>::json(self.parent_revision_ids),
        );
        let body = with_member(body, "intent"@, <IntentSnapshot as Json>::json(self.intent));
        let body = with_member_if(body, self.provisional, "provisional"@, <bool as Json>::json(self.provisional));
        body
    }
}

impl IntentRevision {
    fn push_members(&self, text: &mut String)
        ensures
            final(text)@ == self.deep_view().json_members(old(text)@),
    {
        push_member(text, "revision_id", &self.revision_id);
        push_member(text, "parent_revision_ids", &self.parent_revision_ids);
        push_member(text, "intent", &self.intent);
        if self.provisional {
            push_member(text, "provisional", &self.provisional);
        }
    }
}

impl Json for IntentRevision {
    open spec fn json(model: IntentRevisionView) -> Seq<char> {
        object(model.json_members(Seq::<char>::empty()))
    }

    fn write_json(&self, out: &mut String) {
        let mut body = String::new();
        self.push_members(&mut body);
        push_object(out, body.as_str());
    }
}

impl IntentRevisionView {
    /// Why an intent revision is invalid, if it is.
    pub open spec fn invalidity(self) -> Option<ErrorView> {
        first(
            unique_problem(self.parent_revision_ids, "intent_revision.parent_revision_ids"@),
            self.intent.invalidity(),
        )
    }
}

impl IntentRevision {
    /// Validates the snapshot and local parent-list invariants.
    pub fn validate(&self) -> (result: Result<()>)
        ensures
            fails_as(result, self.deep_view().invalidity()),
    {
        require_unique(&self.parent_revision_ids, "intent_revision.parent_revision_ids")?;
        self.intent.validate()
    }
}

/// Supported `ContextItem` categories.
#[derive(Clone, Copy, Debug, PartialEq, Eq, Structural)]
pub enum ContextKind {
    Decision,
    Contract,
    Issue,
    Risk,
    Validation,
    Discovery,
    Progress,
}

impl DeepView for ContextKind {
    type V = ContextKind;

    open spec fn deep_view(&self) -> ContextKind {
        *self
    }
}

impl Value for ContextKind {
    fn copied(&self) -> (copy: Self) {
        *self
    }

    fn same(&self, other: &Self) -> (equal: bool) {
        *self == *other
    }
}

impl Json for ContextKind {
    open spec fn json(model: ContextKind) -> Seq<char> {
        match model {
            ContextKind::Decision => "\"decision\""@,
            ContextKind::Contract => "\"contract\""@,
            ContextKind::Issue => "\"issue\""@,
            ContextKind::Risk => "\"risk\""@,
            ContextKind::Validation => "\"validation\""@,
            ContextKind::Discovery => "\"discovery\""@,
            ContextKind::Progress => "\"progress\""@,
        }
    }

    fn write_json(&self, out: &mut String) {
        match self {
            ContextKind::Decision => out.append("\"decision\""),
            ContextKind::Contract => out.append("\"contract\""),
            ContextKind::Issue => out.append("\"issue\""),
            ContextKind::Risk => out.append("\"risk\""),
            ContextKind::Validation => out.append("\"validation\""),
            ContextKind::Discovery => out.append("\"discovery\""),
            ContextKind::Progress => out.append("\"progress\""),
        }
    }
}

/// Self-contained applicability snapshot stored with a revision or conflict.
#[derive(Clone, Debug, PartialEq, Eq, Default)]
pub struct Applicability {
    pub domains: Vec<String>,
    pub platforms: Vec<String>,
    pub conditions: Vec<String>,
}

/// The model of [`Applicability`].
pub struct ApplicabilityView {
    pub domains: Seq<Seq<char>>,
    pub platforms: Seq<Seq<char>>,
    pub conditions: Seq<Seq<char>>,
}

impl DeepView for Applicability {
    type V = ApplicabilityView;

    open spec fn deep_view(&self) -> ApplicabilityView {
        ApplicabilityView {
            domains: self.domains.deep_view(),
            platforms: self.platforms.deep_view(),
            conditions: self.conditions.deep_view(),
        }
    }
}

impl Value for Applicability {
    fn copied(&self) -> (copy: Self) {
        Applicability {
            domains: self.domains.copied(),
            platforms: self.platforms.copied(),
            conditions: self.conditions.copied(),
        }
    }

    fn same(&self, other: &Self) -> (equal: bool) {
        self.domains.same(&other.domains)
            && self.platforms.same(&other.platforms)
            && self.conditions.same(&other.conditions)
    }
}

impl ApplicabilityView {
    /// The JSON members, behind those of `body`.
    pub open spec fn json_members(self, body: Seq<char>) -> Seq<char> {
        let body = with_member(body, "domains"@, <Vec<String> as Json>::json(self.domains));
        let body = with_member(body, "platforms"@, <Vec<String> as Json>::json(self.platforms));
        let body = with_member(body, "conditions"@, <Vec<String> as Json>::json(self.conditions));
        body
    }
}

impl Applicability {
    fn push_members(&self, text: &mut String)
        ensures
            final(text)@ == self.deep_view().json_members(old(text)@),
    {
        push_member(text, "domains", &self.domains);
        push_member(text, "platforms", &self.platforms);
        push_member(text, "conditions", &self.conditions);
    }
}

impl Json for Applicability {
    open spec fn json(model: ApplicabilityView) -> Seq<char> {
        object(model.json_members(Seq::<char>::empty()))
    }

    fn write_json(&self, out: &mut String) {
        let mut body = String::new();
        self.push_members(&mut body);
        push_object(out, body.as_str());
    }
}

impl ApplicabilityView {
    /// Why a scope is invalid, if it is.
    pub open spec fn invalidity(self, field: Seq<char>) -> Option<ErrorView> {
        first(
            text_items_problem(self.domains, field + ".domains"@),
            first(
                text_items_problem(self.platforms, field + ".platforms"@),
                text_items_problem(self.conditions, field + ".conditions"@),
            ),
        )
    }
}

impl Applicability {
    /// Validates that scope values are meaningful strings.
    pub fn validate(&self, field: &str) -> (result: Result<()>)
        ensures
            fails_as(result, self.deep_view().invalidity(field@)),
    {
        let domains = joined2(field, ".domains");
        require_text_items(&self.domains, domains.as_str())?;
        let platforms = joined2(field, ".platforms");
        require_text_items(&self.platforms, platforms.as_str())?;
        let conditions = joined2(field, ".conditions");
        require_text_items(&self.conditions, conditions.as_str())
    }
}

/// Supported forms of self-contained evidence.
#[derive(Clone, Copy, Debug, PartialEq, Eq, Structural)]
pub enum EvidenceType {
    SourceSnapshot,
    ExperimentRecord,
    ArtifactSnapshot,
}

impl DeepView for EvidenceType {
    type V = EvidenceType;

    open spec fn deep_view(&self) -> EvidenceType {
        *self
    }
}

impl Value for EvidenceType {
    fn copied(&self) -> (copy: Self) {
        *self
    }

    fn same(&self, other: &Self) -> (equal: bool) {
        *self == *other
    }
}

impl Json for EvidenceType {
    open spec fn json(model: EvidenceType) -> Seq<char> {
        match model {
            EvidenceType::SourceSnapshot => "\"source_snapshot\""@,
            EvidenceType::ExperimentRecord => "\"experiment_record\""@,
            EvidenceType::ArtifactSnapshot => "\"artifact_snapshot\""@,
        }
    }

    fn write_json(&self, out: &mut String) {
        match self {
            EvidenceType::SourceSnapshot => out.append("\"source_snapshot\""),
            EvidenceType::ExperimentRecord => out.append("\"experiment_record\""),
            EvidenceType::ArtifactSnapshot => out.append("\"artifact_snapshot\""),
        }
    }
}

/// Caller-authored evidence content before an opaque Evidence ID is assigned.
#[derive(Clone, Debug, PartialEq, Eq)]
pub struct EvidenceSnapshotDraft {
    pub kind: EvidenceType,
    pub supports: String,
    pub content: JsonValue,
    pub interpretation: String,
    pub limitations: Vec<String>,
}

/// The model of [`EvidenceSnapshotDraft`].
pub struct EvidenceSnapshotDraftView {
    pub kind: EvidenceType,
    pub supports: Seq<char>,
    pub content: JsonView,
    pub interpretation: Seq<char>,
    pub limitations: Seq<Seq<char>>,
}

impl DeepView for EvidenceSnapshotDraft {
    type V = EvidenceSnapshotDraftView;

    open spec fn deep_view(&self) -> EvidenceSnapshotDraftView {
        EvidenceSnapshotDraftView {
            kind: self.kind.deep_view(),
            supports: self.supports.deep_view(),
            content: self.content.deep_view(),
            interpretation: self.interpretation.deep_view(),
            limitations: self.limitations.deep_view(),
        }
    }
}

impl Value for EvidenceSnapshotDraft {
    fn copied(&self) -> (copy: Self) {
        EvidenceSnapshotDraft {
            kind: self.kind.copied(),
            supports: self.supports.copied(),
            content: self.content.copied(),
            interpretation: self.interpretation.copied(),
            limitations: self.limitations.copied(),
        }
    }

    fn same(&self, other: &Self) -> (equal: bool) {
        self.kind.same(&other.kind)
            && self.supports.same(&other.supports)
            && self.content.same(&other.content)
            && self.interpretation.same(&other.interpretation)
            && self.limitations.same(&other.limitations)
    }
}

impl EvidenceSnapshotDraftView {
    /// The JSON members, behind those of `body`.
    pub open spec fn json_members(self, body: Seq<char>) -> Seq<char> {
        let body = with_member(body, "kind"@, <EvidenceType as Json>::json(self.kind));
        let body = with_member(body, "supports"@, <String as Json>::json(self.supports));
        let body = with_member(body, "content"@, <JsonValue as Json>::json(self.content));
        let body = with_member(body, "interpretation"@, <String as Json>::json(self.interpretation));
        let body = with_member(body, "limitations"@, <Vec<String> as Json>::json(self.limitations));
        body
    }
}

impl EvidenceSnapshotDraft {
    fn push_members(&self, text: &mut String)
        ensures
            final(text)@ == self.deep_view().json_members(old(text)@),
    {
        push_member(text, "kind", &self.kind);
        push_member(text, "supports", &self.supports);
        push_member(text, "content", &self.content);
        push_member(text, "interpretation", &self.interpretation);
        push_member(text, "limitations", &self.limitations);
    }
}

impl Json for EvidenceSnapshotDraft {
    open spec fn json(model: EvidenceSnapshotDraftView) -> Seq<char> {
        object(model.json_members(Seq::<char>::empty()))
    }

    fn write_json(&self, out: &mut String) {
        let mut body = String::new();
        self.push_members(&mut body);
        push_object(out, body.as_str());
    }
}

impl EvidenceSnapshotDraftView {
    /// The evidence under an identity.
    pub open spec fn named(self, evidence_id: EvidenceId) -> EvidenceSnapshotView {
        EvidenceSnapshotView {
            evidence_id,
            kind: self.kind,
            supports: self.supports,
            content: self.content,
            interpretation: self.interpretation,
            limitations: self.limitations,
        }
    }

    /// Why evidence is invalid, if it is.
    pub open spec fn invalidity(self, field: Seq<char>) -> Option<ErrorView> {
        first(
            text_problem(self.supports, field + ".supports"@),
            first(
                text_problem(self.interpretation, field + ".interpretation"@),
                first(
                    text_items_problem(self.limitations, field + ".limitations"@),
                    given(
                        !self.content.has_members(),
                        invalid(field + ".content must be a non-empty JSON object"@),
                    ),
                ),
            ),
        )
    }
}

fn validate_evidence_parts(
    supports: &str,
    content: &JsonValue,
    interpretation: &str,
    limitations: &Vec<String>,
    field: &str,
) -> (result: Result<()>)
    ensures
        forall|draft: EvidenceSnapshotDraftView|
            draft.supports == supports@ && draft.content == content.deep_view() && draft.interpretation
                == interpretation@ && draft.limitations == limitations.deep_view()
                ==> fails_as(result, #[trigger] draft.invalidity(field@)),
{
    let name = joined2(field, ".supports");
    require_text(supports, name.as_str())?;
    let name = joined2(field, ".interpretation");
    require_text(interpretation, name.as_str())?;
    let name = joined2(field, ".limitations");
    require_text_items(limitations, name.as_str())?;
    if !content.is_filled_object() {
        let message = joined2(field, ".content must be a non-empty JSON object");
        return Err(invalid_input(message.as_str()));
    }
    Ok(())
}

impl EvidenceSnapshotDraft {
    /// Validates that evidence is self-contained rather than a bare external pointer.
    pub fn validate(&self, field: &str) -> (result: Result<()>)
        ensures
            fails_as(result, self.deep_view().invalidity(field@)),
    {
        validate_evidence_parts(
            self.supports.as_str(),
            &self.content,
            self.interpretation.as_str(),
            &self.limitations,
            field,
        )
    }
}

/// Immutable evidence snapshot embedded in a Context revision.
#[derive(Clone, Debug, PartialEq, Eq)]
pub struct EvidenceSnapshot {
    pub evidence_id: EvidenceId,
    pub kind: EvidenceType,
    pub supports: String,
    pub content: JsonValue,
    pub interpretation: String,
    pub limitations: Vec<String>,
}

/// The model of [`EvidenceSnapshot`].
pub struct EvidenceSnapshotView {
    pub evidence_id: EvidenceId,
    pub kind: EvidenceType,
    pub supports: Seq<char>,
    pub content: JsonView,
    pub interpretation: Seq<char>,
    pub limitations: Seq<Seq<char>>,
}

impl DeepView for EvidenceSnapshot {
    type V = EvidenceSnapshotView;

    open spec fn deep_view(&self) -> EvidenceSnapshotView {
        EvidenceSnapshotView {
            evidence_id: self.evidence_id.deep_view(),
            kind: self.kind.deep_view(),
            supports: self.supports.deep_view(),
            content: self.content.deep_view(),
            interpretation: self.interpretation.deep_view(),
            limitations: self.limitations.deep_view(),
        }
    }
}

impl Value for EvidenceSnapshot {
    fn copied(&self) -> (copy: Self) {
        EvidenceSnapshot {
            evidence_id: self.evidence_id.copied(),
            kind: self.kind.copied(),
            supports: self.supports.copied(),
            content: self.content.copied(),
            interpretation: self.interpretation.copied(),
            limitations: self.limitations.copied(),
        }
    }

    fn same(&self, other: &Self) -> (equal: bool) {
        self.evidence_id.same(&other.evidence_id)
            && self.kind.same(&other.kind)
            && self.supports.same(&other.supports)
            && self.content.same(&other.content)
            && self.interpretation.same(&other.interpretation)
            && self.limitations.same(&other.limitations)
    }
}

impl EvidenceSnapshotView {
    /// The JSON members, behind those of `body`.
    pub open spec fn json_members(self, body: Seq<char>) -> Seq<char> {
        let body = with_member(body, "evidence_id"@, <EvidenceId as Json>::json(self.evidence_id));
        let body = with_member(body, "kind"@, <EvidenceType as Json>::json(self.kind));
        let body = with_member(body, "supports"@, <String as Json>::json(self.supports));
        let body = with_member(body, "content"@, <JsonValue as Json>::json(self.content));
        let body = with_member(body, "interpretation"@, <String as Json>::json(self.interpretation));
        let body = with_member(body, "limitations"@, <Vec<String> as Json>::json(self.limitations));
        body
    }
}

impl EvidenceSnapshot {
    fn push_members(&self, text: &mut String)
        ensures
            final(text)@ == self.deep_view().json_members(old(text)@),
    {
        push_member(text, "evidence_id", &self.evidence_id);
        push_member(text, "kind", &self.kind);
        push_member(text, "supports", &self.supports);
        push_member(text, "content", &self.content);
        push_member(text, "interpretation", &self.interpretation);
        push_member(text, "limitations", &self.limitations);
    }
}

impl Json for EvidenceSnapshot {
    open spec fn json(model: EvidenceSnapshotView) -> Seq<char> {
        object(model.json_members(Seq::<char>::empty()))
    }

    fn write_json(&self, out: &mut String) {
        let mut body = String::new();
        self.push_members(&mut body);
        push_object(out, body.as_str());
    }
}

impl EvidenceSnapshotView {
    /// The evidence without its identity.
    pub open spec fn draft(self) -> EvidenceSnapshotDraftView {
        EvidenceSnapshotDraftView {
            kind: self.kind,
            supports: self.supports,
            content: self.content,
            interpretation: self.interpretation,
            limitations: self.limitations,
        }
    }
}

impl EvidenceSnapshot {
    /// Drops the identity.
    pub(crate) fn as_draft(&self) -> (draft: EvidenceSnapshotDraft)
        ensures
            draft.deep_view() == self.deep_view().draft(),
    {
        EvidenceSnapshotDraft {
            kind: self.kind,
            supports: self.supports.copied(),
            content: self.content.copied(),
            interpretation: self.interpretation.copied(),
            limitations: self.limitations.copied(),
        }
    }

    /// Validates the authoritative evidence content.
    pub fn validate(&self, field: &str) -> (result: Result<()>)
        ensures
            fails_as(result, self.deep_view().draft().invalidity(field@)),
    {
        validate_evidence_parts(
            self.supports.as_str(),
            &self.content,
            self.interpretation.as_str(),
            &self.limitations,
            field,
        )
    }
}

/// Caller-authored Context content before generated revision and evidence IDs are assigned.
#[derive(Clone, Debug, PartialEq, Eq)]
pub struct ContextRevisionDraft {
    pub kind: ContextKind,
    pub topic_key: Option<String>,
    /// Optional restatement of the problem this Context answers, used for retrieval.
    pub problem_view: Option<String>,
    pub statement: String,
    pub rationale: String,
    pub applicability: Applicability,
    pub assumptions: Vec<String>,
    pub recheck_when: Vec<String>,
    /// Unresolved locator hints (paths, basenames, identifiers) kept as searchable text only.
    pub hints: Vec<String>,
    pub relations: Vec<ContextRelation>,
    pub evidence: Vec<EvidenceSnapshotDraft>,
}

/// The model of [`ContextRevisionDraft`].
pub struct ContextRevisionDraftView {
    pub kind: ContextKind,
    pub topic_key: Option<Seq<char>>,
    pub problem_view: Option<Seq<char>>,
    pub statement: Seq<char>,
    pub rationale: Seq<char>,
    pub applicability: ApplicabilityView,
    pub assumptions: Seq<Seq<char>>,
    pub recheck_when: Seq<Seq<char>>,
    pub hints: Seq<Seq<char>>,
    pub relations: Seq<ContextRelationView>,
    pub evidence: Seq<EvidenceSnapshotDraftView>,
}

impl DeepView for ContextRevisionDraft {
    type V = ContextRevisionDraftView;

    open spec fn deep_view(&self) -> ContextRevisionDraftView {
        ContextRevisionDraftView {
            kind: self.kind.deep_view(),
            topic_key: self.topic_key.deep_view(),
            problem_view: self.problem_view.deep_view(),
            statement: self.statement.deep_view(),
            rationale: self.rationale.deep_view(),
            applicability: self.applicability.deep_view(),
            assumptions: self.assumptions.deep_view(),
            recheck_when: self.recheck_when.deep_view(),
            hints: self.hints.deep_view(),
            relations: self.relations.deep_view(),
            evidence: self.evidence.deep_view(),
        }
    }
}

impl Value for ContextRevisionDraft {
    fn copied(&self) -> (copy: Self) {
        ContextRevisionDraft {
            kind: self.kind.copied(),
            topic_key: self.topic_key.copied(),
            problem_view: self.problem_view.copied(),
            statement: self.statement.copied(),
            rationale: self.rationale.copied(),
            applicability: self.applicability.copied(),
            assumptions: self.assumptions.copied(),
            recheck_when: self.recheck_when.copied(),
            hints: self.hints.copied(),
            relations: self.relations.copied(),
            evidence: self.evidence.copied(),
        }
    }

    fn same(&self, other: &Self) -> (equal: bool) {
        self.kind.same(&other.kind)
            && self.topic_key.same(&other.topic_key)
            && self.problem_view.same(&other.problem_view)
            && self.statement.same(&other.statement)
            && self.rationale.same(&other.rationale)
            && self.applicability.same(&other.applicability)
            && self.assumptions.same(&other.assumptions)
            && self.recheck_when.same(&other.recheck_when)
            && self.hints.same(&other.hints)
            && self.relations.same(&other.relations)
            && self.evidence.same(&other.evidence)
    }
}

impl ContextRevisionDraftView {
    /// The JSON members, behind those of `body`.
    pub open spec fn json_members(self, body: Seq<char>) -> Seq<char> {
        let body = with_member(body, "kind"@, <ContextKind as Json>::json(self.kind));
        let body = with_member(body, "topic_key"@, <Option<String> as Json>::json(self.topic_key));
        let body = with_member_if(
            body,
            self.problem_view is Some,
            "problem_view"@,
            <Option<String> as Json>::json(self.problem_view),
        );
        let body = with_member(body, "statement"@, <String as Json>::json(self.statement));
        let body = with_member(body, "rationale"@, <String as Json>::json(self.rationale));
        let body = with_member(body, "applicability"@, <Applicability as Json>::json(self.applicability));
        let body = with_member(body, "assumptions"@, <Vec<String> as Json>::json(self.assumptions));
        let body = with_member(body, "recheck_when"@, <Vec<String> as Json>::json(self.recheck_when));
        let body = with_member_if(body, self.hints.len() > 0, "hints"@, <Vec<String> as Json>::json(self.hints));
        let body = with_member(body, "relations"@, <Vec<ContextRelation> as Json>::json(self.relations));
        let body = with_member(body, "evidence"@, <Vec<EvidenceSnapshotDraft> as Json>::json(self.evidence));
        body
    }
}

impl ContextRevisionDraft {
    fn push_members(&self, text: &mut String)
        ensures
            final(text)@ == self.deep_view().json_members(old(text)@),
    {
        push_member(text, "kind", &self.kind);
        push_member(text, "topic_key", &self.topic_key);
        if self.problem_view.is_some() {
            push_member(text, "problem_view", &self.problem_view);
        }
        push_member(text, "statement", &self.statement);
        push_member(text, "rationale", &self.rationale);
        push_member(text, "applicability", &self.applicability);
        push_member(text, "assumptions", &self.assumptions);
        push_member(text, "recheck_when", &self.recheck_when);
        if self.hints.len() > 0 {
            push_member(text, "hints", &self.hints);
        }
        push_member(text, "relations", &self.relations);
        push_member(text, "evidence", &self.evidence);
    }
}

impl Json for ContextRevisionDraft {
    open spec fn json(model: ContextRevisionDraftView) -> Seq<char> {
        object(model.json_members(Seq::<char>::empty()))
    }

    fn write_json(&self, out: &mut String) {
        let mut body = String::new();
        self.push_members(&mut body);
        push_object(out, body.as_str());
    }
}

/// The check of each relation of a revision.
pub open spec fn relation_problem(relations: Seq<ContextRelationView>) -> spec_fn(int) -> Option<ErrorView> {
    |i: int|
        match relations[i].problem() {
            Some(error) => invalid(entry("context revision relations"@, i as nat) + " is invalid: "@ + error.message),
            None => None,
        }
}

/// The check of each piece of evidence of a revision.
pub open spec fn evidence_problem(evidence: Seq<EvidenceSnapshotDraftView>) -> spec_fn(int) -> Option<ErrorView> {
    |i: int| evidence[i].invalidity(entry("context revision evidence"@, i as nat))
}

/// What a relation must not repeat: its target and kind.
pub open spec fn relation_targets(relations: Seq<ContextRelationView>) -> Seq<(ContextId, ContextRelationKind)> {
    Seq::new(relations.len(), |i: int| (relations[i].target_context_id, relations[i].kind))
}

impl ContextRevisionDraftView {
    /// Why Context content is invalid, if it is.
    pub open spec fn invalidity(self) -> Option<ErrorView> {
        first(
            self.text_invalidity(),
            first(
                first_from(relation_problem(self.relations), 0, self.relations.len()),
                first(
                    unique_problem(relation_targets(self.relations), "context revision relations target/kind"@),
                    first(
                        given(
                            self.evidence.len() == 0,
                            invalid("context revision evidence must contain at least one snapshot"@),
                        ),
                        first_from(evidence_problem(self.evidence), 0, self.evidence.len()),
                    ),
                ),
            ),
        )
    }

    /// Why the texts of Context content are invalid, if they are.
    pub open spec fn text_invalidity(self) -> Option<ErrorView> {
        first(
            optional_text_problem(self.topic_key, "context revision topic_key"@),
            first(
                optional_text_problem(self.problem_view, "context revision problem_view"@),
                first(
                    text_problem(self.statement, "context revision statement"@),
                    first(
                        text_problem(self.rationale, "context revision rationale"@),
                        first(
                            self.applicability.invalidity("context revision applicability"@),
                            first(
                                text_items_problem(self.assumptions, "context revision assumptions"@),
                                first(
                                    text_items_problem(self.recheck_when, "context revision recheck_when"@),
                                    text_items_problem(self.hints, "context revision hints"@),
                                ),
                            ),
                        ),
                    ),
                ),
            ),
        )
    }
}

fn validate_relations(relations: &Vec<ContextRelation>) -> (result: Result<()>)
    ensures
        fails_as(
            result,
            first(
                first_from(relation_problem(relations.deep_view()), 0, relations.deep_view().len()),
                unique_problem(relation_targets(relations.deep_view()), "context revision relations target/kind"@),
            ),
        ),
{
    let ghost model = relations.deep_view();
    let ghost problem = relation_problem(model);
    let mut targets: Vec<(ContextId, ContextRelationKind)> = Vec::new();
    let mut index: usize = 0;
    while index < relations.len()
        invariant
            index <= relations@.len(),
            model == relations.deep_view(),
            problem == relation_problem(model),
            targets.deep_view() == relation_targets(model).take(index as int),
            first_from(problem, 0, model.len()) == first_from(problem, index as nat, model.len()),
        decreases relations@.len() - index,
    {
        let relation = &relations[index];
        assert(relation.deep_view() == model[index as int]);
        match relation.validate() {
            Ok(_) => {},
            Err(error) => {
                let name = entry_name("context revision relations", index);
                let message = joined3(name.as_str(), " is invalid: ", error.message());
                return Err(invalid_input(message.as_str()));
            },
        }
        push_value(&mut targets, (relation.target_context_id, relation.kind));
        proof {
            take_next(relation_targets(model), index as int);
        }
        index = index + 1;
    }
    assert(relation_targets(model).take(model.len() as int) =~= relation_targets(model));
    require_unique(&targets, "context revision relations target/kind")
}

impl ContextRevisionDraft {
    /// Validates authoritative Context content.
    pub fn validate(&self) -> (result: Result<()>)
        ensures
            fails_as(result, self.deep_view().invalidity()),
    {
        require_optional_text(&self.topic_key, "context revision topic_key")?;
        require_optional_text(&self.problem_view, "context revision problem_view")?;
        require_text(self.statement.as_str(), "context revision statement")?;
        require_text(self.rationale.as_str(), "context revision rationale")?;
        self.applicability.validate("context revision applicability")?;
        require_text_items(&self.assumptions, "context revision assumptions")?;
        require_text_items(&self.recheck_when, "context revision recheck_when")?;
        require_text_items(&self.hints, "context revision hints")?;
        validate_relations(&self.relations)?;
        if self.evidence.len() == 0 {
            return Err(invalid_input("context revision evidence must contain at least one snapshot"));
        }
        let ghost model = self.evidence.deep_view();
        let ghost problem = evidence_problem(model);
        let mut index: usize = 0;
        while index < self.evidence.len()
            invariant
                index <= self.evidence@.len(),
                self.evidence@.len() > 0,
                model == self.evidence.deep_view(),
                problem == evidence_problem(model),
                self.deep_view().text_invalidity() is None,
                first_from(relation_problem(self.deep_view().relations), 0, self.deep_view().relations.len()) is None,
                unique_problem(
                    relation_targets(self.deep_view().relations),
                    "context revision relations target/kind"@,
                ) is None,
                first_from(problem, 0, model.len()) == first_from(problem, index as nat, model.len()),
            decreases self.evidence@.len() - index,
        {
            let name = entry_name("context revision evidence", index);
            assert(self.evidence@[index as int].deep_view() == model[index as int]);
            self.evidence[index].validate(name.as_str())?;
            index = index + 1;
        }
        Ok(())
    }
}

/// One immutable full Context revision.
#[derive(Clone, Debug, PartialEq, Eq)]
pub struct ContextRevision {
    pub revision_id: RevisionId,
    pub parent_revision_ids: Vec<RevisionId>,
    pub kind: ContextKind,
    pub topic_key: Option<String>,
    /// Optional restatement of the problem this Context answers, used for retrieval.
    pub problem_view: Option<String>,
    pub statement: String,
    pub rationale: String,
    pub applicability: Applicability,
    pub assumptions: Vec<String>,
    pub recheck_when: Vec<String>,
    /// Unresolved locator hints (paths, basenames, identifiers) kept as searchable text only.
    pub hints: Vec<String>,
    pub relations: Vec<ContextRelation>,
    pub evidence: Vec<EvidenceSnapshot>,
}

/// The model of [`ContextRevision`].
pub struct ContextRevisionView {
    pub revision_id: RevisionId,
    pub parent_revision_ids: Seq<RevisionId>,
    pub kind: ContextKind,
    pub topic_key: Option<Seq<char>>,
    pub problem_view: Option<Seq<char>>,
    pub statement: Seq<char>,
    pub rationale: Seq<char>,
    pub applicability: ApplicabilityView,
    pub assumptions: Seq<Seq<char>>,
    pub recheck_when: Seq<Seq<char>>,
    pub hints: Seq<Seq<char>>,
    pub relations: Seq<ContextRelationView>,
    pub evidence: Seq<EvidenceSnapshotView>,
}

impl DeepView for ContextRevision {
    type V = ContextRevisionView;

    open spec fn deep_view(&self) -> ContextRevisionView {
        ContextRevisionView {
            revision_id: self.revision_id.deep_view(),
            parent_revision_ids: self.parent_revision_ids.deep_view(),
            kind: self.kind.deep_view(),
            topic_key: self.topic_key.deep_view(),
            problem_view: self.problem_view.deep_view(),
            statement: self.statement.deep_view(),
            rationale: self.rationale.deep_view(),
            applicability: self.applicability.deep_view(),
            assumptions: self.assumptions.deep_view(),
            recheck_when: self.recheck_when.deep_view(),
            hints: self.hints.deep_view(),
            relations: self.relations.deep_view(),
            evidence: self.evidence.deep_view(),
        }
    }
}

impl Value for ContextRevision {
    fn copied(&self) -> (copy: Self) {
        ContextRevision {
            revision_id: self.revision_id.copied(),
            parent_revision_ids: self.parent_revision_ids.copied(),
            kind: self.kind.copied(),
            topic_key: self.topic_key.copied(),
            problem_view: self.problem_view.copied(),
            statement: self.statement.copied(),
            rationale: self.rationale.copied(),
            applicability: self.applicability.copied(),
            assumptions: self.assumptions.copied(),
            recheck_when: self.recheck_when.copied(),
            hints: self.hints.copied(),
            relations: self.relations.copied(),
            evidence: self.evidence.copied(),
        }
    }

    fn same(&self, other: &Self) -> (equal: bool) {
        self.revision_id.same(&other.revision_id)
            && self.parent_revision_ids.same(&other.parent_revision_ids)
            && self.kind.same(&other.kind)
            && self.topic_key.same(&other.topic_key)
            && self.problem_view.same(&other.problem_view)
            && self.statement.same(&other.statement)
            && self.rationale.same(&other.rationale)
            && self.applicability.same(&other.applicability)
            && self.assumptions.same(&other.assumptions)
            && self.recheck_when.same(&other.recheck_when)
            && self.hints.same(&other.hints)
            && self.relations.same(&other.relations)
            && self.evidence.same(&other.evidence)
    }
}

impl ContextRevisionView {
    /// The JSON members, behind those of `body`.
    pub open spec fn json_members(self, body: Seq<char>) -> Seq<char> {
        let body = with_member(body, "revision_id"@, <RevisionId as Json>::json(self.revision_id));
        let body = with_member(
            body,
            "parent_revision_ids"@,
            <Vec<RevisionId> as Json>::json(self.parent_revision_ids),
        );
        let body = with_member(body, "kind"@, <ContextKind as Json>::json(self.kind));
        let body = with_member_if(
            body,
            self.topic_key is Some,
            "topic_key"@,
            <Option<String> as Json>::json(self.topic_key),
        );
        let body = with_member_if(
            body,
            self.problem_view is Some,
            "problem_view"@,
            <Option<String> as Json>::json(self.problem_view),
        );
        let body = with_member(body, "statement"@, <String as Json>::json(self.statement));
        let body = with_member(body, "rationale"@, <String as Json>::json(self.rationale));
        let body = with_member(body, "applicability"@, <Applicability as Json>::json(self.applicability));
        let body = with_member(body, "assumptions"@, <Vec<String> as Json>::json(self.assumptions));
        let body = with_member(body, "recheck_when"@, <Vec<String> as Json>::json(self.recheck_when));
        let body = with_member_if(body, self.hints.len() > 0, "hints"@, <Vec<String> as Json>::json(self.hints));
        let body = with_member(body, "relations"@, <Vec<ContextRelation> as Json>::json(self.relations));
        let body = with_member(body, "evidence"@, <Vec<EvidenceSnapshot> as Json>::json(self.evidence));
        body
    }
}

impl ContextRevision {
    fn push_members(&self, text: &mut String)
        ensures
            final(text)@ == self.deep_view().json_members(old(text)@),
    {
        push_member(text, "revision_id", &self.revision_id);
        push_member(text, "parent_revision_ids", &self.parent_revision_ids);
        push_member(text, "kind", &self.kind);
        if self.topic_key.is_some() {
            push_member(text, "topic_key", &self.topic_key);
        }
        if self.problem_view.is_some() {
            push_member(text, "problem_view", &self.problem_view);
        }
        push_member(text, "statement", &self.statement);
        push_member(text, "rationale", &self.rationale);
        push_member(text, "applicability", &self.applicability);
        push_member(text, "assumptions", &self.assumptions);
        push_member(text, "recheck_when", &self.recheck_when);
        if self.hints.len() > 0 {
            push_member(text, "hints", &self.hints);
        }
        push_member(text, "relations", &self.relations);
        push_member(text, "evidence", &self.evidence);
    }
}

impl Json for ContextRevision {
    open spec fn json(model: ContextRevisionView) -> Seq<char> {
        object(model.json_members(Seq::<char>::empty()))
    }

    fn write_json(&self, out: &mut String) {
        let mut body = String::new();
        self.push_members(&mut body);
        push_object(out, body.as_str());
    }
}

/// Evidence without identities.
pub open spec fn evidence_drafts(evidence: Seq<EvidenceSnapshotView>) -> Seq<EvidenceSnapshotDraftView> {
    Seq::new(evidence.len(), |i: int| evidence[i].draft())
}

/// The identities of evidence.
pub open spec fn evidence_ids(evidence: Seq<EvidenceSnapshotView>) -> Seq<EvidenceId> {
    Seq::new(evidence.len(), |i: int| evidence[i].evidence_id)
}

impl ContextRevisionView {
    /// The content of a revision, without generated identities.
    pub open spec fn draft(self) -> ContextRevisionDraftView {
        ContextRevisionDraftView {
            kind: self.kind,
            topic_key: self.topic_key,
            problem_view: self.problem_view,
            statement: self.statement,
            rationale: self.rationale,
            applicability: self.applicability,
            assumptions: self.assumptions,
            recheck_when: self.recheck_when,
            hints: self.hints,
            relations: self.relations,
            evidence: evidence_drafts(self.evidence),
        }
    }

    /// Why a revision is invalid, if it is.
    pub open spec fn invalidity(self) -> Option<ErrorView> {
        first(
            unique_problem(self.parent_revision_ids, "revision.parent_revision_ids"@),
            first(
                unique_problem(evidence_ids(self.evidence), "revision.evidence evidence_id"@),
                self.draft().invalidity(),
            ),
        )
    }
}

/// A draft under generated identities.
pub open spec fn revision_of(
    draft: ContextRevisionDraftView,
    parent_revision_ids: Seq<RevisionId>,
    revision_id: RevisionId,
    evidence_ids: Seq<EvidenceId>,
) -> ContextRevisionView {
    ContextRevisionView {
        revision_id,
        parent_revision_ids,
        kind: draft.kind,
        topic_key: draft.topic_key,
        problem_view: draft.problem_view,
        statement: draft.statement,
        rationale: draft.rationale,
        applicability: draft.applicability,
        assumptions: draft.assumptions,
        recheck_when: draft.recheck_when,
        hints: draft.hints,
        relations: draft.relations,
        evidence: Seq::new(draft.evidence.len(), |i: int| draft.evidence[i].named(evidence_ids[i])),
    }
}

/// Naming content and dropping the names again gives the content back.
pub proof fn naming_keeps_the_draft(
    draft: ContextRevisionDraftView,
    parent_revision_ids: Seq<RevisionId>,
    revision_id: RevisionId,
    evidence_ids: Seq<EvidenceId>,
)
    ensures
        revision_of(draft, parent_revision_ids, revision_id, evidence_ids).draft() == draft,
{
    let revision = revision_of(draft, parent_revision_ids, revision_id, evidence_ids);
    assert(evidence_drafts(revision.evidence) =~= draft.evidence);
}

impl ContextRevision {
    /// Puts content under given identities.
    pub(crate) fn with_identities(
        parent_revision_ids: Vec<RevisionId>,
        draft: ContextRevisionDraft,
        revision_id: RevisionId,
        evidence_ids: &Vec<EvidenceId>,
    ) -> (revision: Self)
        requires
            evidence_ids@.len() == draft.evidence@.len(),
        ensures
            revision.deep_view() == revision_of(
                draft.deep_view(),
                parent_revision_ids.deep_view(),
                revision_id,
                evidence_ids.deep_view(),
            ),
            revision.deep_view().draft() == draft.deep_view(),
    {
        let ghost model = draft.deep_view();
        let ghost named = revision_of(
            model,
            parent_revision_ids.deep_view(),
            revision_id,
            evidence_ids.deep_view(),
        ).evidence;
        let mut evidence: Vec<EvidenceSnapshot> = Vec::new();
        let mut index: usize = 0;
        assert(evidence.deep_view() =~= named.take(0));
        while index < draft.evidence.len()
            invariant
                index <= draft.evidence@.len() == evidence_ids@.len(),
                model == draft.deep_view(),
                named == revision_of(
                    model,
                    parent_revision_ids.deep_view(),
                    revision_id,
                    evidence_ids.deep_view(),
                ).evidence,
                evidence.deep_view() == named.take(index as int),
            decreases draft.evidence@.len() - index,
        {
            let current = draft.evidence[index].copied();
            assert(current.deep_view() == model.evidence[index as int]);
            assert(evidence_ids@[index as int] == evidence_ids.deep_view()[index as int]);
            push_value(
                &mut evidence,
                EvidenceSnapshot {
                    evidence_id: evidence_ids[index],
                    kind: current.kind,
                    supports: current.supports,
                    content: current.content,
                    interpretation: current.interpretation,
                    limitations: current.limitations,
                },
            );
            proof {
                take_next(named, index as int);
            }
            index = index + 1;
        }
        proof {
            take_all(named);
            naming_keeps_the_draft(model, parent_revision_ids.deep_view(), revision_id, evidence_ids.deep_view());
        }
        ContextRevision {
            revision_id,
            parent_revision_ids,
            kind: draft.kind,
            topic_key: draft.topic_key,
            problem_view: draft.problem_view,
            statement: draft.statement,
            rationale: draft.rationale,
            applicability: draft.applicability,
            assumptions: draft.assumptions,
            recheck_when: draft.recheck_when,
            hints: draft.hints,
            relations: draft.relations,
            evidence,
        }
    }

    /// Assigns fresh revision and evidence IDs to validated content.
    pub fn from_draft(parent_revision_ids: Vec<RevisionId>, draft: ContextRevisionDraft) -> (result: Result<Self>)
        ensures
            fails_as(
                result,
                first(
                    draft.deep_view().invalidity(),
                    unique_problem(parent_revision_ids.deep_view(), "revision.parent_revision_ids"@),
                ),
            ),
            result is Ok ==> {
                let revision = result->Ok_0;
                &&& revision.deep_view().draft() == draft.deep_view()
                &&& revision.deep_view().parent_revision_ids == parent_revision_ids.deep_view()
                &&& revision.revision_id.canonical()
                &&& forall|i: int|
                    0 <= i < revision.evidence@.len() ==> (#[trigger] revision.evidence@[i]).evidence_id.canonical()
            },
    {
        draft.validate()?;
        require_unique(&parent_revision_ids, "revision.parent_revision_ids")?;
        let mut evidence_ids: Vec<EvidenceId> = Vec::new();
        while evidence_ids.len() < draft.evidence.len()
            invariant
                evidence_ids@.len() <= draft.evidence@.len(),
                forall|i: int| 0 <= i < evidence_ids@.len() ==> (#[trigger] evidence_ids@[i]).canonical(),
            decreases draft.evidence@.len() - evidence_ids@.len(),
        {
            evidence_ids.push(EvidenceId::new());
        }
        let revision = Self::with_identities(parent_revision_ids, draft, RevisionId::new(), &evidence_ids);
        proof {
            assert forall|i: int| 0 <= i < revision.evidence@.len() implies (
            #[trigger] revision.evidence@[i]).evidence_id.canonical() by {
                assert(revision.deep_view().evidence[i] == revision.evidence@[i].deep_view());
                assert(evidence_ids.deep_view()[i] == evidence_ids@[i]);
            }
        }
        Ok(revision)
    }

    /// Drops the generated identities.
    pub(crate) fn as_draft(&self) -> (draft: ContextRevisionDraft)
        ensures
            draft.deep_view() == self.deep_view().draft(),
    {
        let ghost model = self.deep_view();
        let mut evidence: Vec<EvidenceSnapshotDraft> = Vec::new();
        let mut index: usize = 0;
        while index < self.evidence.len()
            invariant
                index <= self.evidence@.len(),
                model == self.deep_view(),
                evidence.deep_view() == evidence_drafts(model.evidence).take(index as int),
            decreases self.evidence@.len() - index,
        {
            push_value(&mut evidence, self.evidence[index].as_draft());
            proof {
                assert(model.evidence[index as int] == self.evidence@[index as int].deep_view());
                take_next(evidence_drafts(model.evidence), index as int);
            }
            index = index + 1;
        }
        assert(evidence_drafts(model.evidence).take(model.evidence.len() as int) =~= evidence_drafts(model.evidence));
        ContextRevisionDraft {
            kind: self.kind,
            topic_key: self.topic_key.copied(),
            problem_view: self.problem_view.copied(),
            statement: self.statement.copied(),
            rationale: self.rationale.copied(),
            applicability: self.applicability.copied(),
            assumptions: self.assumptions.copied(),
            recheck_when: self.recheck_when.copied(),
            hints: self.hints.copied(),
            relations: self.relations.copied(),
            evidence,
        }
    }

    /// Validates parsed revision content and local uniqueness.
    pub fn validate(&self) -> (result: Result<()>)
        ensures
            fails_as(result, self.deep_view().invalidity()),
    {
        require_unique(&self.parent_revision_ids, "revision.parent_revision_ids")?;
        let ghost model = self.deep_view();
        let mut ids: Vec<EvidenceId> = Vec::new();
        let mut index: usize = 0;
        while index < self.evidence.len()
            invariant
                index <= self.evidence@.len(),
                model == self.deep_view(),
                unique_problem(model.parent_revision_ids, "revision.parent_revision_ids"@) is None,
                ids.deep_view() == evidence_ids(model.evidence).take(index as int),
            decreases self.evidence@.len() - index,
        {
            push_value(&mut ids, self.evidence[index].evidence_id);
            proof {
                assert(model.evidence[index as int] == self.evidence@[index as int].deep_view());
                take_next(evidence_ids(model.evidence), index as int);
            }
            index = index + 1;
        }
        assert(evidence_ids(model.evidence).take(model.evidence.len() as int) =~= evidence_ids(model.evidence));
        require_unique(&ids, "revision.evidence evidence_id")?;
        let draft = self.as_draft();
        draft.validate()
    }
}

/// Immutable review conclusion.
#[derive(Clone, Copy, Debug, PartialEq, Eq, Structural)]
pub enum ReviewVerdict {
    Approve,
    Reject,
}

impl DeepView for ReviewVerdict {
    type V = ReviewVerdict;

    open spec fn deep_view(&self) -> ReviewVerdict {
        *self
    }
}

impl Value for ReviewVerdict {
    fn copied(&self) -> (copy: Self) {
        *self
    }

    fn same(&self, other: &Self) -> (equal: bool) {
        *self == *other
    }
}

impl Json for ReviewVerdict {
    open spec fn json(model: ReviewVerdict) -> Seq<char> {
        match model {
            ReviewVerdict::Approve => "\"approve\""@,
            ReviewVerdict::Reject => "\"reject\""@,
        }
    }

    fn write_json(&self, out: &mut String) {
        match self {
            ReviewVerdict::Approve => out.append("\"approve\""),
            ReviewVerdict::Reject => out.append("\"reject\""),
        }
    }
}

/// Review input before a Review ID is assigned.
#[derive(Clone, Debug, PartialEq, Eq)]
pub struct ReviewDraft {
    pub revision_id: RevisionId,
    pub verdict: ReviewVerdict,
    pub reason: String,
}

/// The model of [`ReviewDraft`].
pub struct ReviewDraftView {
    pub revision_id: RevisionId,
    pub verdict: ReviewVerdict,
    pub reason: Seq<char>,
}

impl DeepView for ReviewDraft {
    type V = ReviewDraftView;

    open spec fn deep_view(&self) -> ReviewDraftView {
        ReviewDraftView {
            revision_id: self.revision_id.deep_view(),
            verdict: self.verdict.deep_view(),
            reason: self.reason.deep_view(),
        }
    }
}

impl Value for ReviewDraft {
    fn copied(&self) -> (copy: Self) {
        ReviewDraft {
            revision_id: self.revision_id.copied(),
            verdict: self.verdict.copied(),
            reason: self.reason.copied(),
        }
    }

    fn same(&self, other: &Self) -> (equal: bool) {
        self.revision_id.same(&other.revision_id)
            && self.verdict.same(&other.verdict)
            && self.reason.same(&other.reason)
    }
}

/// Immutable review payload.
#[derive(Clone, Debug, PartialEq, Eq)]
pub struct Review {
    pub review_id: ReviewId,
    pub revision_id: RevisionId,
    pub verdict: ReviewVerdict,
    pub reason: String,
}

/// The model of [`Review`].
pub struct ReviewView {
    pub review_id: ReviewId,
    pub revision_id: RevisionId,
    pub verdict: ReviewVerdict,
    pub reason: Seq<char>,
}

impl DeepView for Review {
    type V = ReviewView;

    open spec fn deep_view(&self) -> ReviewView {
        ReviewView {
            review_id: self.review_id.deep_view(),
            revision_id: self.revision_id.deep_view(),
            verdict: self.verdict.deep_view(),
            reason: self.reason.deep_view(),
        }
    }
}

impl Value for Review {
    fn copied(&self) -> (copy: Self) {
        Review {
            review_id: self.review_id.copied(),
            revision_id: self.revision_id.copied(),
            verdict: self.verdict.copied(),
            reason: self.reason.copied(),
        }
    }

    fn same(&self, other: &Self) -> (equal: bool) {
        self.review_id.same(&other.review_id)
            && self.revision_id.same(&other.revision_id)
            && self.verdict.same(&other.verdict)
            && self.reason.same(&other.reason)
    }
}

impl ReviewView {
    /// The JSON members, behind those of `body`.
    pub open spec fn json_members(self, body: Seq<char>) -> Seq<char> {
        let body = with_member(body, "review_id"@, <ReviewId as Json>::json(self.review_id));
        let body = with_member(body, "revision_id"@, <RevisionId as Json>::json(self.revision_id));
        let body = with_member(body, "verdict"@, <ReviewVerdict as Json>::json(self.verdict));
        let body = with_member(body, "reason"@, <String as Json>::json(self.reason));
        body
    }
}

impl Review {
    fn push_members(&self, text: &mut String)
        ensures
            final(text)@ == self.deep_view().json_members(old(text)@),
    {
        push_member(text, "review_id", &self.review_id);
        push_member(text, "revision_id", &self.revision_id);
        push_member(text, "verdict", &self.verdict);
        push_member(text, "reason", &self.reason);
    }
}

impl Json for Review {
    open spec fn json(model: ReviewView) -> Seq<char> {
        object(model.json_members(Seq::<char>::empty()))
    }

    fn write_json(&self, out: &mut String) {
        let mut body = String::new();
        self.push_members(&mut body);
        push_object(out, body.as_str());
    }
}

impl ReviewDraftView {
    /// The review under an identity.
    pub open spec fn named(self, review_id: ReviewId) -> ReviewView {
        ReviewView { review_id, revision_id: self.revision_id, verdict: self.verdict, reason: self.reason }
    }
}

impl ReviewView {
    /// Why a review is invalid, if it is.
    pub open spec fn invalidity(self) -> Option<ErrorView> {
        text_problem(self.reason, "review.reason"@)
    }
}

impl Review {
    /// Assigns a fresh Review ID.
    pub fn from_draft(draft: ReviewDraft) -> (result: Result<Self>)
        ensures
            fails_as(result, text_problem(draft.deep_view().reason, "review.reason"@)),
            result is Ok ==> result->Ok_0.deep_view() == draft.deep_view().named(result->Ok_0.review_id)
                && result->Ok_0.review_id.canonical() && result->Ok_0.deep_view().invalidity() is None,
    {
        require_text(draft.reason.as_str(), "review.reason")?;
        Ok(
            Review {
                review_id: ReviewId::new(),
                revision_id: draft.revision_id,
                verdict: draft.verdict,
                reason: draft.reason,
            },
        )
    }

    /// Validates parsed review content.
    pub fn validate(&self) -> (result: Result<()>)
        ensures
            fails_as(result, self.deep_view().invalidity()),
    {
        require_text(self.reason.as_str(), "review.reason")
    }
}

/// Publication actions.
#[derive(Clone, Copy, Debug, PartialEq, Eq, Structural)]
pub enum PublicationAction {
    Publish,
    Withdraw,
}

impl DeepView for PublicationAction {
    type V = PublicationAction;

    open spec fn deep_view(&self) -> PublicationAction {
        *self
    }
}

impl Value for PublicationAction {
    fn copied(&self) -> (copy: Self) {
        *self
    }

    fn same(&self, other: &Self) -> (equal: bool) {
        *self == *other
    }
}

impl Json for PublicationAction {
    open spec fn json(model: PublicationAction) -> Seq<char> {
        match model {
            PublicationAction::Publish => "\"publish\""@,
            PublicationAction::Withdraw => "\"withdraw\""@,
        }
    }

    fn write_json(&self, out: &mut String) {
        match self {
            PublicationAction::Publish => out.append("\"publish\""),
            PublicationAction::Withdraw => out.append("\"withdraw\""),
        }
    }
}

/// Publication input before a Publication ID is assigned.
#[derive(Clone, Debug, PartialEq, Eq)]
pub struct PublicationDraft {
    pub previous_publication_ids: Vec<PublicationId>,
    pub action: PublicationAction,
    pub revision_id: RevisionId,
    pub review_event_ids: Vec<EventId>,
}

/// The model of [`PublicationDraft`].
pub struct PublicationDraftView {
    pub previous_publication_ids: Seq<PublicationId>,
    pub action: PublicationAction,
    pub revision_id: RevisionId,
    pub review_event_ids: Seq<EventId>,
}

impl DeepView for PublicationDraft {
    type V = PublicationDraftView;

    open spec fn deep_view(&self) -> PublicationDraftView {
        PublicationDraftView {
            previous_publication_ids: self.previous_publication_ids.deep_view(),
            action: self.action.deep_view(),
            revision_id: self.revision_id.deep_view(),
            review_event_ids: self.review_event_ids.deep_view(),
        }
    }
}

impl Value for PublicationDraft {
    fn copied(&self) -> (copy: Self) {
        PublicationDraft {
            previous_publication_ids: self.previous_publication_ids.copied(),
            action: self.action.copied(),
            revision_id: self.revision_id.copied(),
            review_event_ids: self.review_event_ids.copied(),
        }
    }

    fn same(&self, other: &Self) -> (equal: bool) {
        self.previous_publication_ids.same(&other.previous_publication_ids)
            && self.action.same(&other.action)
            && self.revision_id.same(&other.revision_id)
            && self.review_event_ids.same(&other.review_event_ids)
    }
}

/// Immutable publication transition payload.
#[derive(Clone, Debug, PartialEq, Eq)]
pub struct Publication {
    pub publication_id: PublicationId,
    pub previous_publication_ids: Vec<PublicationId>,
    pub action: PublicationAction,
    pub revision_id: RevisionId,
    pub review_event_ids: Vec<EventId>,
}

/// The model of [`Publication`].
pub struct PublicationView {
    pub publication_id: PublicationId,
    pub previous_publication_ids: Seq<PublicationId>,
    pub action: PublicationAction,
    pub revision_id: RevisionId,
    pub review_event_ids: Seq<EventId>,
}

impl DeepView for Publication {
    type V = PublicationView;

    open spec fn deep_view(&self) -> PublicationView {
        PublicationView {
            publication_id: self.publication_id.deep_view(),
            previous_publication_ids: self.previous_publication_ids.deep_view(),
            action: self.action.deep_view(),
            revision_id: self.revision_id.deep_view(),
            review_event_ids: self.review_event_ids.deep_view(),
        }
    }
}

impl Value for Publication {
    fn copied(&self) -> (copy: Self) {
        Publication {
            publication_id: self.publication_id.copied(),
            previous_publication_ids: self.previous_publication_ids.copied(),
            action: self.action.copied(),
            revision_id: self.revision_id.copied(),
            review_event_ids: self.review_event_ids.copied(),
        }
    }

    fn same(&self, other: &Self) -> (equal: bool) {
        self.publication_id.same(&other.publication_id)
            && self.previous_publication_ids.same(&other.previous_publication_ids)
            && self.action.same(&other.action)
            && self.revision_id.same(&other.revision_id)
            && self.review_event_ids.same(&other.review_event_ids)
    }
}

impl PublicationView {
    /// The JSON members, behind those of `body`.
    pub open spec fn json_members(self, body: Seq<char>) -> Seq<char> {
        let body = with_member(body, "publication_id"@, <PublicationId as Json>::json(self.publication_id));
        let body = with_member(
            body,
            "previous_publication_ids"@,
            <Vec<PublicationId> as Json>::json(self.previous_publication_ids),
        );
        let body = with_member(body, "action"@, <PublicationAction as Json>::json(self.action));
        let body = with_member(body, "revision_id"@, <RevisionId as Json>::json(self.revision_id));
        let body = with_member(body, "review_event_ids"@, <Vec<EventId> as Json>::json(self.review_event_ids));
        body
    }
}

impl Publication {
    fn push_members(&self, text: &mut String)
        ensures
            final(text)@ == self.deep_view().json_members(old(text)@),
    {
        push_member(text, "publication_id", &self.publication_id);
        push_member(text, "previous_publication_ids", &self.previous_publication_ids);
        push_member(text, "action", &self.action);
        push_member(text, "revision_id", &self.revision_id);
        push_member(text, "review_event_ids", &self.review_event_ids);
    }
}

impl Json for Publication {
    open spec fn json(model: PublicationView) -> Seq<char> {
        object(model.json_members(Seq::<char>::empty()))
    }

    fn write_json(&self, out: &mut String) {
        let mut body = String::new();
        self.push_members(&mut body);
        push_object(out, body.as_str());
    }
}

impl PublicationDraftView {
    /// The publication under an identity.
    pub open spec fn named(self, publication_id: PublicationId) -> PublicationView {
        PublicationView {
            publication_id,
            previous_publication_ids: self.previous_publication_ids,
            action: self.action,
            revision_id: self.revision_id,
            review_event_ids: self.review_event_ids,
        }
    }

    /// Why a publication is invalid, if it is.
    pub open spec fn invalidity(self) -> Option<ErrorView> {
        first(
            unique_problem(self.previous_publication_ids, "publication.previous_publication_ids"@),
            unique_problem(self.review_event_ids, "publication.review_event_ids"@),
        )
    }
}

impl PublicationView {
    /// Why a publication is invalid, if it is.
    pub open spec fn invalidity(self) -> Option<ErrorView> {
        first(
            unique_problem(self.previous_publication_ids, "publication.previous_publication_ids"@),
            unique_problem(self.review_event_ids, "publication.review_event_ids"@),
        )
    }
}

impl Publication {
    /// Assigns a fresh Publication ID.
    pub fn from_draft(draft: PublicationDraft) -> (result: Result<Self>)
        ensures
            fails_as(result, draft.deep_view().invalidity()),
            result is Ok ==> result->Ok_0.deep_view() == draft.deep_view().named(result->Ok_0.publication_id)
                && result->Ok_0.publication_id.canonical() && result->Ok_0.deep_view().invalidity() is None,
    {
        require_unique(&draft.previous_publication_ids, "publication.previous_publication_ids")?;
        require_unique(&draft.review_event_ids, "publication.review_event_ids")?;
        Ok(
            Publication {
                publication_id: PublicationId::new(),
                previous_publication_ids: draft.previous_publication_ids,
                action: draft.action,
                revision_id: draft.revision_id,
                review_event_ids: draft.review_event_ids,
            },
        )
    }

    /// Validates parsed publication content.
    pub fn validate(&self) -> (result: Result<()>)
        ensures
            fails_as(result, self.deep_view().invalidity()),
    {
        require_unique(&self.previous_publication_ids, "publication.previous_publication_ids")?;
        require_unique(&self.review_event_ids, "publication.review_event_ids")
    }
}

/// One accepted Context/Revision/Publication head involved in a semantic conflict.
#[derive(Clone, Debug, PartialEq, Eq, PartialOrd, Ord, Hash)]
pub struct ConflictParticipant {
    pub context_id: ContextId,
    pub revision_id: RevisionId,
    pub publication_id: PublicationId,
}

/// The model of [`ConflictParticipant`].
pub struct ConflictParticipantView {
    pub context_id: ContextId,
    pub revision_id: RevisionId,
    pub publication_id: PublicationId,
}

impl DeepView for ConflictParticipant {
    type V = ConflictParticipantView;

    open spec fn deep_view(&self) -> ConflictParticipantView {
        ConflictParticipantView {
            context_id: self.context_id.deep_view(),
            revision_id: self.revision_id.deep_view(),
            publication_id: self.publication_id.deep_view(),
        }
    }
}

impl Value for ConflictParticipant {
    fn copied(&self) -> (copy: Self) {
        ConflictParticipant {
            context_id: self.context_id.copied(),
            revision_id: self.revision_id.copied(),
            publication_id: self.publication_id.copied(),
        }
    }

    fn same(&self, other: &Self) -> (equal: bool) {
        self.context_id.same(&other.context_id)
            && self.revision_id.same(&other.revision_id)
            && self.publication_id.same(&other.publication_id)
    }
}

impl ConflictParticipantView {
    /// The JSON members, behind those of `body`.
    pub open spec fn json_members(self, body: Seq<char>) -> Seq<char> {
        let body = with_member(body, "context_id"@, <ContextId as Json>::json(self.context_id));
        let body = with_member(body, "revision_id"@, <RevisionId as Json>::json(self.revision_id));
        let body = with_member(body, "publication_id"@, <PublicationId as Json>::json(self.publication_id));
        body
    }
}

impl ConflictParticipant {
    fn push_members(&self, text: &mut String)
        ensures
            final(text)@ == self.deep_view().json_members(old(text)@),
    {
        push_member(text, "context_id", &self.context_id);
        push_member(text, "revision_id", &self.revision_id);
        push_member(text, "publication_id", &self.publication_id);
    }
}

impl Json for ConflictParticipant {
    open spec fn json(model: ConflictParticipantView) -> Seq<char> {
        object(model.json_members(Seq::<char>::empty()))
    }

    fn write_json(&self, out: &mut String) {
        let mut body = String::new();
        self.push_members(&mut body);
        push_object(out, body.as_str());
    }
}

/// Conflict input before a Conflict ID is assigned.
#[derive(Clone, Debug, PartialEq, Eq)]
pub struct SemanticConflictDraft {
    pub participants: Vec<ConflictParticipant>,
    pub reason: String,
    pub applicability: Applicability,
}

/// The model of [`SemanticConflictDraft`].
pub struct SemanticConflictDraftView {
    pub participants: Seq<ConflictParticipantView>,
    pub reason: Seq<char>,
    pub applicability: ApplicabilityView,
}

impl DeepView for SemanticConflictDraft {
    type V = SemanticConflictDraftView;

    open spec fn deep_view(&self) -> SemanticConflictDraftView {
        SemanticConflictDraftView {
            participants: self.participants.deep_view(),
            reason: self.reason.deep_view(),
            applicability: self.applicability.deep_view(),
        }
    }
}

impl Value for SemanticConflictDraft {
    fn copied(&self) -> (copy: Self) {
        SemanticConflictDraft {
            participants: self.participants.copied(),
            reason: self.reason.copied(),
            applicability: self.applicability.copied(),
        }
    }

    fn same(&self, other: &Self) -> (equal: bool) {
        self.participants.same(&other.participants)
            && self.reason.same(&other.reason)
            && self.applicability.same(&other.applicability)
    }
}

/// Immutable semantic-conflict declaration.
#[derive(Clone, Debug, PartialEq, Eq)]
pub struct SemanticConflict {
    pub conflict_id: ConflictId,
    pub participants: Vec<ConflictParticipant>,
    pub reason: String,
    pub applicability: Applicability,
}

/// The model of [`SemanticConflict`].
pub struct SemanticConflictView {
    pub conflict_id: ConflictId,
    pub participants: Seq<ConflictParticipantView>,
    pub reason: Seq<char>,
    pub applicability: ApplicabilityView,
}

impl DeepView for SemanticConflict {
    type V = SemanticConflictView;

    open spec fn deep_view(&self) -> SemanticConflictView {
        SemanticConflictView {
            conflict_id: self.conflict_id.deep_view(),
            participants: self.participants.deep_view(),
            reason: self.reason.deep_view(),
            applicability: self.applicability.deep_view(),
        }
    }
}

impl Value for SemanticConflict {
    fn copied(&self) -> (copy: Self) {
        SemanticConflict {
            conflict_id: self.conflict_id.copied(),
            participants: self.participants.copied(),
            reason: self.reason.copied(),
            applicability: self.applicability.copied(),
        }
    }

    fn same(&self, other: &Self) -> (equal: bool) {
        self.conflict_id.same(&other.conflict_id)
            && self.participants.same(&other.participants)
            && self.reason.same(&other.reason)
            && self.applicability.same(&other.applicability)
    }
}

impl SemanticConflictView {
    /// The JSON members, behind those of `body`.
    pub open spec fn json_members(self, body: Seq<char>) -> Seq<char> {
        let body = with_member(body, "conflict_id"@, <ConflictId as Json>::json(self.conflict_id));
        let body = with_member(body, "participants"@, <Vec<ConflictParticipant> as Json>::json(self.participants));
        let body = with_member(body, "reason"@, <String as Json>::json(self.reason));
        let body = with_member(body, "applicability"@, <Applicability as Json>::json(self.applicability));
        body
    }
}

impl SemanticConflict {
    fn push_members(&self, text: &mut String)
        ensures
            final(text)@ == self.deep_view().json_members(old(text)@),
    {
        push_member(text, "conflict_id", &self.conflict_id);
        push_member(text, "participants", &self.participants);
        push_member(text, "reason", &self.reason);
        push_member(text, "applicability", &self.applicability);
    }
}

impl Json for SemanticConflict {
    open spec fn json(model: SemanticConflictView) -> Seq<char> {
        object(model.json_members(Seq::<char>::empty()))
    }

    fn write_json(&self, out: &mut String) {
        let mut body = String::new();
        self.push_members(&mut body);
        push_object(out, body.as_str());
    }
}

/// The Contexts of participants.
pub open spec fn participant_contexts(participants: Seq<ConflictParticipantView>) -> Seq<ContextId> {
    Seq::new(participants.len(), |i: int| participants[i].context_id)
}

/// The publications of participants.
pub open spec fn participant_publications(participants: Seq<ConflictParticipantView>) -> Seq<PublicationId> {
    Seq::new(participants.len(), |i: int| participants[i].publication_id)
}

/// Why a declared conflict is invalid, if it is.
pub open spec fn conflict_invalidity(
    participants: Seq<ConflictParticipantView>,
    reason: Seq<char>,
    applicability: ApplicabilityView,
) -> Option<ErrorView> {
    first(
        given(participants.len() < 2, invalid("semantic conflict must contain at least two participants"@)),
        first(
            unique_problem(participants, "semantic_conflict.participants"@),
            first(
                unique_problem(participant_contexts(participants), "semantic_conflict participant context_id"@),
                first(
                    unique_problem(
                        participant_publications(participants),
                        "semantic_conflict participant publication_id"@,
                    ),
                    first(
                        text_problem(reason, "semantic_conflict.reason"@),
                        applicability.invalidity("semantic_conflict.applicability"@),
                    ),
                ),
            ),
        ),
    )
}

impl SemanticConflict {
    /// Assigns a fresh Conflict ID.
    pub fn from_draft(draft: SemanticConflictDraft) -> (result: Result<Self>)
        ensures
            fails_as(
                result,
                conflict_invalidity(
                    draft.deep_view().participants,
                    draft.deep_view().reason,
                    draft.deep_view().applicability,
                ),
            ),
            result is Ok ==> result->Ok_0.deep_view() == (SemanticConflictView {
                conflict_id: result->Ok_0.conflict_id,
                participants: draft.deep_view().participants,
                reason: draft.deep_view().reason,
                applicability: draft.deep_view().applicability,
            }) && result->Ok_0.conflict_id.canonical(),
    {
        Self::validate_parts(&draft.participants, draft.reason.as_str(), &draft.applicability)?;
        Ok(
            SemanticConflict {
                conflict_id: ConflictId::new(),
                participants: draft.participants,
                reason: draft.reason,
                applicability: draft.applicability,
            },
        )
    }

    fn validate_parts(
        participants: &Vec<ConflictParticipant>,
        reason: &str,
        applicability: &Applicability,
    ) -> (result: Result<()>)
        ensures
            fails_as(
                result,
                conflict_invalidity(participants.deep_view(), reason@, applicability.deep_view()),
            ),
    {
        if participants.len() < 2 {
            return Err(invalid_input("semantic conflict must contain at least two participants"));
        }
        require_unique(participants, "semantic_conflict.participants")?;
        let ghost model = participants.deep_view();
        let mut contexts: Vec<ContextId> = Vec::new();
        let mut publications: Vec<PublicationId> = Vec::new();
        let mut index: usize = 0;
        while index < participants.len()
            invariant
                index <= participants@.len(),
                participants@.len() >= 2,
                model == participants.deep_view(),
                unique_problem(model, "semantic_conflict.participants"@) is None,
                contexts.deep_view() == participant_contexts(model).take(index as int),
                publications.deep_view() == participant_publications(model).take(index as int),
            decreases participants@.len() - index,
        {
            push_value(&mut contexts, participants[index].context_id);
            push_value(&mut publications, participants[index].publication_id);
            proof {
                assert(model[index as int] == participants@[index as int].deep_view());
                take_next(participant_contexts(model), index as int);
                take_next(participant_publications(model), index as int);
            }
            index = index + 1;
        }
        proof {
            assert(participant_contexts(model).take(model.len() as int) =~= participant_contexts(model));
            assert(participant_publications(model).take(model.len() as int) =~= participant_publications(model));
        }
        require_unique(&contexts, "semantic_conflict participant context_id")?;
        require_unique(&publications, "semantic_conflict participant publication_id")?;
        require_text(reason, "semantic_conflict.reason")?;
        applicability.validate("semantic_conflict.applicability")
    }

    /// Validates parsed conflict content.
    pub fn validate(&self) -> (result: Result<()>)
        ensures
            fails_as(
                result,
                conflict_invalidity(
                    self.deep_view().participants,
                    self.deep_view().reason,
                    self.deep_view().applicability,
                ),
            ),
    {
        Self::validate_parts(&self.participants, self.reason.as_str(), &self.applicability)
    }
}

/// How one Context participates in a semantic-conflict resolution.
#[derive(Clone, Copy, Debug, PartialEq, Eq, Structural, Hash)]
pub enum ResolutionOutcome {
    Retained,
    Revised,
    Withdrawn,
    ScopeSplit,
}

impl DeepView for ResolutionOutcome {
    type V = ResolutionOutcome;

    open spec fn deep_view(&self) -> ResolutionOutcome {
        *self
    }
}

impl Value for ResolutionOutcome {
    fn copied(&self) -> (copy: Self) {
        *self
    }

    fn same(&self, other: &Self) -> (equal: bool) {
        *self == *other
    }
}

impl Json for ResolutionOutcome {
    open spec fn json(model: ResolutionOutcome) -> Seq<char> {
        match model {
            ResolutionOutcome::Retained => "\"retained\""@,
            ResolutionOutcome::Revised => "\"revised\""@,
            ResolutionOutcome::Withdrawn => "\"withdrawn\""@,
            ResolutionOutcome::ScopeSplit => "\"scope_split\""@,
        }
    }

    fn write_json(&self, out: &mut String) {
        match self {
            ResolutionOutcome::Retained => out.append("\"retained\""),
            ResolutionOutcome::Revised => out.append("\"revised\""),
            ResolutionOutcome::Withdrawn => out.append("\"withdrawn\""),
            ResolutionOutcome::ScopeSplit => out.append("\"scope_split\""),
        }
    }
}

/// Explicit result for one Context and revision.
#[derive(Clone, Debug, PartialEq, Eq, Hash)]
pub struct ConflictResolutionResult {
    pub context_id: ContextId,
    pub revision_id: RevisionId,
    pub outcome: ResolutionOutcome,
}

/// The model of [`ConflictResolutionResult`].
pub struct ConflictResolutionResultView {
    pub context_id: ContextId,
    pub revision_id: RevisionId,
    pub outcome: ResolutionOutcome,
}

impl DeepView for ConflictResolutionResult {
    type V = ConflictResolutionResultView;

    open spec fn deep_view(&self) -> ConflictResolutionResultView {
        ConflictResolutionResultView {
            context_id: self.context_id.deep_view(),
            revision_id: self.revision_id.deep_view(),
            outcome: self.outcome.deep_view(),
        }
    }
}

impl Value for ConflictResolutionResult {
    fn copied(&self) -> (copy: Self) {
        ConflictResolutionResult {
            context_id: self.context_id.copied(),
            revision_id: self.revision_id.copied(),
            outcome: self.outcome.copied(),
        }
    }

    fn same(&self, other: &Self) -> (equal: bool) {
        self.context_id.same(&other.context_id)
            && self.revision_id.same(&other.revision_id)
            && self.outcome.same(&other.outcome)
    }
}

impl ConflictResolutionResultView {
    /// The JSON members, behind those of `body`.
    pub open spec fn json_members(self, body: Seq<char>) -> Seq<char> {
        let body = with_member(body, "context_id"@, <ContextId as Json>::json(self.context_id));
        let body = with_member(body, "revision_id"@, <RevisionId as Json>::json(self.revision_id));
        let body = with_member(body, "outcome"@, <ResolutionOutcome as Json>::json(self.outcome));
        body
    }
}

impl ConflictResolutionResult {
    fn push_members(&self, text: &mut String)
        ensures
            final(text)@ == self.deep_view().json_members(old(text)@),
    {
        push_member(text, "context_id", &self.context_id);
        push_member(text, "revision_id", &self.revision_id);
        push_member(text, "outcome", &self.outcome);
    }
}

impl Json for ConflictResolutionResult {
    open spec fn json(model: ConflictResolutionResultView) -> Seq<char> {
        object(model.json_members(Seq::<char>::empty()))
    }

    fn write_json(&self, out: &mut String) {
        let mut body = String::new();
        self.push_members(&mut body);
        push_object(out, body.as_str());
    }
}

/// Resolution input before a Resolution ID is assigned.
#[derive(Clone, Debug, PartialEq, Eq)]
pub struct ConflictResolutionDraft {
    pub previous_resolution_ids: Vec<ResolutionId>,
    pub related_publication_ids: Vec<PublicationId>,
    pub results: Vec<ConflictResolutionResult>,
    pub rationale: String,
}

/// The model of [`ConflictResolutionDraft`].
pub struct ConflictResolutionDraftView {
    pub previous_resolution_ids: Seq<ResolutionId>,
    pub related_publication_ids: Seq<PublicationId>,
    pub results: Seq<ConflictResolutionResultView>,
    pub rationale: Seq<char>,
}

impl DeepView for ConflictResolutionDraft {
    type V = ConflictResolutionDraftView;

    open spec fn deep_view(&self) -> ConflictResolutionDraftView {
        ConflictResolutionDraftView {
            previous_resolution_ids: self.previous_resolution_ids.deep_view(),
            related_publication_ids: self.related_publication_ids.deep_view(),
            results: self.results.deep_view(),
            rationale: self.rationale.deep_view(),
        }
    }
}

impl Value for ConflictResolutionDraft {
    fn copied(&self) -> (copy: Self) {
        ConflictResolutionDraft {
            previous_resolution_ids: self.previous_resolution_ids.copied(),
            related_publication_ids: self.related_publication_ids.copied(),
            results: self.results.copied(),
            rationale: self.rationale.copied(),
        }
    }

    fn same(&self, other: &Self) -> (equal: bool) {
        self.previous_resolution_ids.same(&other.previous_resolution_ids)
            && self.related_publication_ids.same(&other.related_publication_ids)
            && self.results.same(&other.results)
            && self.rationale.same(&other.rationale)
    }
}

/// Immutable semantic-conflict resolution node.
#[derive(Clone, Debug, PartialEq, Eq)]
pub struct ConflictResolution {
    pub resolution_id: ResolutionId,
    pub previous_resolution_ids: Vec<ResolutionId>,
    pub related_publication_ids: Vec<PublicationId>,
    pub results: Vec<ConflictResolutionResult>,
    pub rationale: String,
}

/// The model of [`ConflictResolution`].
pub struct ConflictResolutionView {
    pub resolution_id: ResolutionId,
    pub previous_resolution_ids: Seq<ResolutionId>,
    pub related_publication_ids: Seq<PublicationId>,
    pub results: Seq<ConflictResolutionResultView>,
    pub rationale: Seq<char>,
}

impl DeepView for ConflictResolution {
    type V = ConflictResolutionView;

    open spec fn deep_view(&self) -> ConflictResolutionView {
        ConflictResolutionView {
            resolution_id: self.resolution_id.deep_view(),
            previous_resolution_ids: self.previous_resolution_ids.deep_view(),
            related_publication_ids: self.related_publication_ids.deep_view(),
            results: self.results.deep_view(),
            rationale: self.rationale.deep_view(),
        }
    }
}

impl Value for ConflictResolution {
    fn copied(&self) -> (copy: Self) {
        ConflictResolution {
            resolution_id: self.resolution_id.copied(),
            previous_resolution_ids: self.previous_resolution_ids.copied(),
            related_publication_ids: self.related_publication_ids.copied(),
            results: self.results.copied(),
            rationale: self.rationale.copied(),
        }
    }

    fn same(&self, other: &Self) -> (equal: bool) {
        self.resolution_id.same(&other.resolution_id)
            && self.previous_resolution_ids.same(&other.previous_resolution_ids)
            && self.related_publication_ids.same(&other.related_publication_ids)
            && self.results.same(&other.results)
            && self.rationale.same(&other.rationale)
    }
}

impl ConflictResolutionView {
    /// The JSON members, behind those of `body`.
    pub open spec fn json_members(self, body: Seq<char>) -> Seq<char> {
        let body = with_member(body, "resolution_id"@, <ResolutionId as Json>::json(self.resolution_id));
        let body = with_member(
            body,
            "previous_resolution_ids"@,
            <Vec<ResolutionId> as Json>::json(self.previous_resolution_ids),
        );
        let body = with_member(
            body,
            "related_publication_ids"@,
            <Vec<PublicationId> as Json>::json(self.related_publication_ids),
        );
        let body = with_member(body, "results"@, <Vec<ConflictResolutionResult> as Json>::json(self.results));
        let body = with_member(body, "rationale"@, <String as Json>::json(self.rationale));
        body
    }
}

impl ConflictResolution {
    fn push_members(&self, text: &mut String)
        ensures
            final(text)@ == self.deep_view().json_members(old(text)@),
    {
        push_member(text, "resolution_id", &self.resolution_id);
        push_member(text, "previous_resolution_ids", &self.previous_resolution_ids);
        push_member(text, "related_publication_ids", &self.related_publication_ids);
        push_member(text, "results", &self.results);
        push_member(text, "rationale", &self.rationale);
    }
}

impl Json for ConflictResolution {
    open spec fn json(model: ConflictResolutionView) -> Seq<char> {
        object(model.json_members(Seq::<char>::empty()))
    }

    fn write_json(&self, out: &mut String) {
        let mut body = String::new();
        self.push_members(&mut body);
        push_object(out, body.as_str());
    }
}

/// The Contexts of resolution results.
pub open spec fn result_contexts(results: Seq<ConflictResolutionResultView>) -> Seq<ContextId> {
    Seq::new(results.len(), |i: int| results[i].context_id)
}

impl ConflictResolutionDraftView {
    /// Why a resolution is invalid, if it is.
    pub open spec fn invalidity(self) -> Option<ErrorView> {
        first(
            unique_problem(self.previous_resolution_ids, "resolution.previous_resolution_ids"@),
            first(
                given(
                    self.related_publication_ids.len() == 0,
                    invalid("resolution.related_publication_ids must contain at least one head"@),
                ),
                first(
                    unique_problem(self.related_publication_ids, "resolution.related_publication_ids"@),
                    first(
                        given(
                            self.results.len() == 0,
                            invalid("resolution.results must contain at least one result"@),
                        ),
                        first(
                            unique_problem(self.results, "resolution.results"@),
                            first(
                                unique_problem(result_contexts(self.results), "resolution result context_id"@),
                                text_problem(self.rationale, "resolution.rationale"@),
                            ),
                        ),
                    ),
                ),
            ),
        )
    }
}

impl ConflictResolutionView {
    /// The resolution without its identity.
    pub open spec fn draft(self) -> ConflictResolutionDraftView {
        ConflictResolutionDraftView {
            previous_resolution_ids: self.previous_resolution_ids,
            related_publication_ids: self.related_publication_ids,
            results: self.results,
            rationale: self.rationale,
        }
    }
}

impl ConflictResolution {
    /// Assigns a fresh Resolution ID.
    pub fn from_draft(draft: ConflictResolutionDraft) -> (result: Result<Self>)
        ensures
            fails_as(result, draft.deep_view().invalidity()),
            result is Ok ==> result->Ok_0.deep_view().draft() == draft.deep_view()
                && result->Ok_0.resolution_id.canonical(),
    {
        Self::validate_parts(
            &draft.previous_resolution_ids,
            &draft.related_publication_ids,
            &draft.results,
            draft.rationale.as_str(),
        )?;
        Ok(
            ConflictResolution {
                resolution_id: ResolutionId::new(),
                previous_resolution_ids: draft.previous_resolution_ids,
                related_publication_ids: draft.related_publication_ids,
                results: draft.results,
                rationale: draft.rationale,
            },
        )
    }

    fn validate_parts(
        previous_resolution_ids: &Vec<ResolutionId>,
        related_publication_ids: &Vec<PublicationId>,
        results: &Vec<ConflictResolutionResult>,
        rationale: &str,
    ) -> (result: Result<()>)
        ensures
            fails_as(
                result,
                (ConflictResolutionDraftView {
                    previous_resolution_ids: previous_resolution_ids.deep_view(),
                    related_publication_ids: related_publication_ids.deep_view(),
                    results: results.deep_view(),
                    rationale: rationale@,
                }).invalidity(),
            ),
    {
        require_unique(previous_resolution_ids, "resolution.previous_resolution_ids")?;
        if related_publication_ids.len() == 0 {
            return Err(invalid_input("resolution.related_publication_ids must contain at least one head"));
        }
        require_unique(related_publication_ids, "resolution.related_publication_ids")?;
        if results.len() == 0 {
            return Err(invalid_input("resolution.results must contain at least one result"));
        }
        require_unique(results, "resolution.results")?;
        let contexts = contexts_of(results);
        require_unique(&contexts, "resolution result context_id")?;
        require_text(rationale, "resolution.rationale")
    }

    /// Validates parsed resolution content.
    pub fn validate(&self) -> (result: Result<()>)
        ensures
            fails_as(result, self.deep_view().draft().invalidity()),
    {
        Self::validate_parts(
            &self.previous_resolution_ids,
            &self.related_publication_ids,
            &self.results,
            self.rationale.as_str(),
        )
    }
}

/// The Contexts of resolution results.
pub(crate) fn contexts_of(results: &Vec<ConflictResolutionResult>) -> (contexts: Vec<ContextId>)
    ensures
        contexts.deep_view() == result_contexts(results.deep_view()),
{
    let ghost model = results.deep_view();
    let mut contexts: Vec<ContextId> = Vec::new();
    let mut index: usize = 0;
    while index < results.len()
        invariant
            index <= results@.len(),
            model == results.deep_view(),
            contexts.deep_view() == result_contexts(model).take(index as int),
        decreases results@.len() - index,
    {
        push_value(&mut contexts, results[index].context_id);
        proof {
            assert(model[index as int] == results@[index as int].deep_view());
            take_next(result_contexts(model), index as int);
        }
        index = index + 1;
    }
    assert(result_contexts(model).take(model.len() as int) =~= result_contexts(model));
    contexts
}

/// Lists the Contexts of participants.
pub(crate) fn contexts_of_participants(participants: &Vec<ConflictParticipant>) -> (contexts: Vec<ContextId>)
    ensures
        contexts.deep_view() == participant_contexts(participants.deep_view()),
{
    let ghost model = participants.deep_view();
    let mut contexts: Vec<ContextId> = Vec::new();
    let mut index: usize = 0;
    while index < participants.len()
        invariant
            index <= participants@.len(),
            model == participants.deep_view(),
            contexts.deep_view() == participant_contexts(model).take(index as int),
        decreases participants@.len() - index,
    {
        push_value(&mut contexts, participants[index].context_id);
        proof {
            assert(model[index as int] == participants@[index as int].deep_view());
            take_next(participant_contexts(model), index as int);
        }
        index = index + 1;
    }
    assert(participant_contexts(model).take(model.len() as int) =~= participant_contexts(model));
    contexts
}

/// The JSON text of [`IntentSnapshot`] writes every field of it under its own name.
pub proof fn intent_snapshot_json_writes_every_field(model: IntentSnapshotView)
    ensures
        writes(<IntentSnapshot as Json>::json(model), "title"@, <String as Json>::json(model.title)),
        writes(<IntentSnapshot as Json>::json(model), "problem"@, <String as Json>::json(model.problem)),
        writes(
            <IntentSnapshot as Json>::json(model),
            "desired_outcome"@,
            <String as Json>::json(model.desired_outcome),
        ),
        writes(<IntentSnapshot as Json>::json(model), "in_scope"@, <Vec<String> as Json>::json(model.in_scope)),
        writes(
            <IntentSnapshot as Json>::json(model),
            "out_of_scope"@,
            <Vec<String> as Json>::json(model.out_of_scope),
        ),
        writes(
            <IntentSnapshot as Json>::json(model),
            "acceptance_conditions"@,
            <Vec<String> as Json>::json(model.acceptance_conditions),
        ),
        writes(
            <IntentSnapshot as Json>::json(model),
            "domain_terms"@,
            <Vec<String> as Json>::json(model.domain_terms),
        ),
{
    let b0 = Seq::<char>::empty();
    let b1 = with_member(b0, "title"@, <String as Json>::json(model.title));
    members_are_written(b0, "title"@, <String as Json>::json(model.title));
    let b2 = with_member(b1, "problem"@, <String as Json>::json(model.problem));
    members_are_written(b1, "problem"@, <String as Json>::json(model.problem));
    let b3 = with_member(b2, "desired_outcome"@, <String as Json>::json(model.desired_outcome));
    members_are_written(b2, "desired_outcome"@, <String as Json>::json(model.desired_outcome));
    let b4 = with_member(b3, "in_scope"@, <Vec<String> as Json>::json(model.in_scope));
    members_are_written(b3, "in_scope"@, <Vec<String> as Json>::json(model.in_scope));
    let b5 = with_member(b4, "out_of_scope"@, <Vec<String> as Json>::json(model.out_of_scope));
    members_are_written(b4, "out_of_scope"@, <Vec<String> as Json>::json(model.out_of_scope));
    let b6 = with_member(b5, "acceptance_conditions"@, <Vec<String> as Json>::json(model.acceptance_conditions));
    members_are_written(b5, "acceptance_conditions"@, <Vec<String> as Json>::json(model.acceptance_conditions));
    let b7 = with_member(b6, "domain_terms"@, <Vec<String> as Json>::json(model.domain_terms));
    members_are_written(b6, "domain_terms"@, <Vec<String> as Json>::json(model.domain_terms));
    assert(model.json_members(b0) == b7);
    objects_write_their_body(b7);
}

/// The JSON text of [`IntentRevision`] writes every field of it under its own name.
pub proof fn intent_revision_json_writes_every_field(model: IntentRevisionView)
    ensures
        writes(<IntentRevision as Json>::json(model), "revision_id"@, <RevisionId as Json>::json(model.revision_id)),
        writes(
            <IntentRevision as Json>::json(model),
            "parent_revision_ids"@,
            <Vec<RevisionId> as Json>::json(model.parent_revision_ids),
        ),
        writes(<IntentRevision as Json>::json(model), "intent"@, <IntentSnapshot as Json>::json(model.intent)),
        model.provisional ==> writes(
            <IntentRevision as Json>::json(model),
            "provisional"@,
            <bool as Json>::json(model.provisional),
        ),
{
    let b0 = Seq::<char>::empty();
    let b1 = with_member(b0, "revision_id"@, <RevisionId as Json>::json(model.revision_id));
    members_are_written(b0, "revision_id"@, <RevisionId as Json>::json(model.revision_id));
    let b2 = with_member(b1, "parent_revision_ids"@, <Vec<RevisionId> as Json>::json(model.parent_revision_ids));
    members_are_written(b1, "parent_revision_ids"@, <Vec<RevisionId> as Json>::json(model.parent_revision_ids));
    let b3 = with_member(b2, "intent"@, <IntentSnapshot as Json>::json(model.intent));
    members_are_written(b2, "intent"@, <IntentSnapshot as Json>::json(model.intent));
    let b4 = with_member_if(b3, model.provisional, "provisional"@, <bool as Json>::json(model.provisional));
    members_there_are_written(b3, model.provisional, "provisional"@, <bool as Json>::json(model.provisional));
    assert(model.json_members(b0) == b4);
    objects_write_their_body(b4);
}

/// The JSON text of [`Applicability`] writes every field of it under its own name.
pub proof fn applicability_json_writes_every_field(model: ApplicabilityView)
    ensures
        writes(<Applicability as Json>::json(model), "domains"@, <Vec<String> as Json>::json(model.domains)),
        writes(<Applicability as Json>::json(model), "platforms"@, <Vec<String> as Json>::json(model.platforms)),
        writes(<Applicability as Json>::json(model), "conditions"@, <Vec<String> as Json>::json(model.conditions)),
{
    let b0 = Seq::<char>::empty();
    let b1 = with_member(b0, "domains"@, <Vec<String> as Json>::json(model.domains));
    members_are_written(b0, "domains"@, <Vec<String> as Json>::json(model.domains));
    let b2 = with_member(b1, "platforms"@, <Vec<String> as Json>::json(model.platforms));
    members_are_written(b1, "platforms"@, <Vec<String> as Json>::json(model.platforms));
    let b3 = with_member(b2, "conditions"@, <Vec<String> as Json>::json(model.conditions));
    members_are_written(b2, "conditions"@, <Vec<String> as Json>::json(model.conditions));
    assert(model.json_members(b0) == b3);
    objects_write_their_body(b3);
}

/// The JSON text of [`EvidenceSnapshotDraft`] writes every field of it under its own name.
pub proof fn evidence_snapshot_draft_json_writes_every_field(model: EvidenceSnapshotDraftView)
    ensures
        writes(<EvidenceSnapshotDraft as Json>::json(model), "kind"@, <EvidenceType as Json>::json(model.kind)),
        writes(<EvidenceSnapshotDraft as Json>::json(model), "supports"@, <String as Json>::json(model.supports)),
        writes(<EvidenceSnapshotDraft as Json>::json(model), "content"@, <JsonValue as Json>::json(model.content)),
        writes(
            <EvidenceSnapshotDraft as Json>::json(model),
            "interpretation"@,
            <String as Json>::json(model.interpretation),
        ),
        writes(
            <EvidenceSnapshotDraft as Json>::json(model),
            "limitations"@,
            <Vec<String> as Json>::json(model.limitations),
        ),
{
    let b0 = Seq::<char>::empty();
    let b1 = with_member(b0, "kind"@, <EvidenceType as Json>::json(model.kind));
    members_are_written(b0, "kind"@, <EvidenceType as Json>::json(model.kind));
    let b2 = with_member(b1, "supports"@, <String as Json>::json(model.supports));
    members_are_written(b1, "supports"@, <String as Json>::json(model.supports));
    let b3 = with_member(b2, "content"@, <JsonValue as Json>::json(model.content));
    members_are_written(b2, "content"@, <JsonValue as Json>::json(model.content));
    let b4 = with_member(b3, "interpretation"@, <String as Json>::json(model.interpretation));
    members_are_written(b3, "interpretation"@, <String as Json>::json(model.interpretation));
    let b5 = with_member(b4, "limitations"@, <Vec<String> as Json>::json(model.limitations));
    members_are_written(b4, "limitations"@, <Vec<String> as Json>::json(model.limitations));
    assert(model.json_members(b0) == b5);
    objects_write_their_body(b5);
}

/// The JSON text of [`EvidenceSnapshot`] writes every field of it under its own name.
pub proof fn evidence_snapshot_json_writes_every_field(model: EvidenceSnapshotView)
    ensures
        writes(
            <EvidenceSnapshot as Json>::json(model),
            "evidence_id"@,
            <EvidenceId as Json>::json(model.evidence_id),
        ),
        writes(<EvidenceSnapshot as Json>::json(model), "kind"@, <EvidenceType as Json>::json(model.kind)),
        writes(<EvidenceSnapshot as Json>::json(model), "supports"@, <String as Json>::json(model.supports)),
        writes(<EvidenceSnapshot as Json>::json(model), "content"@, <JsonValue as Json>::json(model.content)),
        writes(
            <EvidenceSnapshot as Json>::json(model),
            "interpretation"@,
            <String as Json>::json(model.interpretation),
        ),
        writes(
            <EvidenceSnapshot as Json>::json(model),
            "limitations"@,
            <Vec<String> as Json>::json(model.limitations),
        ),
{
    let b0 = Seq::<char>::empty();
    let b1 = with_member(b0, "evidence_id"@, <EvidenceId as Json>::json(model.evidence_id));
    members_are_written(b0, "evidence_id"@, <EvidenceId as Json>::json(model.evidence_id));
    let b2 = with_member(b1, "kind"@, <EvidenceType as Json>::json(model.kind));
    members_are_written(b1, "kind"@, <EvidenceType as Json>::json(model.kind));
    let b3 = with_member(b2, "supports"@, <String as Json>::json(model.supports));
    members_are_written(b2, "supports"@, <String as Json>::json(model.supports));
    let b4 = with_member(b3, "content"@, <JsonValue as Json>::json(model.content));
    members_are_written(b3, "content"@, <JsonValue as Json>::json(model.content));
    let b5 = with_member(b4, "interpretation"@, <String as Json>::json(model.interpretation));
    members_are_written(b4, "interpretation"@, <String as Json>::json(model.interpretation));
    let b6 = with_member(b5, "limitations"@, <Vec<String> as Json>::json(model.limitations));
    members_are_written(b5, "limitations"@, <Vec<String> as Json>::json(model.limitations));
    assert(model.json_members(b0) == b6);
    objects_write_their_body(b6);
}

/// The JSON text of [`ContextRevisionDraft`] writes every field of it under its own name.
pub proof fn context_revision_draft_json_writes_every_field(model: ContextRevisionDraftView)
    ensures
        writes(<ContextRevisionDraft as Json>::json(model), "kind"@, <ContextKind as Json>::json(model.kind)),
        writes(
            <ContextRevisionDraft as Json>::json(model),
            "topic_key"@,
            <Option<String> as Json>::json(model.topic_key),
        ),
        model.problem_view is Some ==> writes(
            <ContextRevisionDraft as Json>::json(model),
            "problem_view"@,
            <Option<String> as Json>::json(model.problem_view),
        ),
        writes(<ContextRevisionDraft as Json>::json(model), "statement"@, <String as Json>::json(model.statement)),
        writes(<ContextRevisionDraft as Json>::json(model), "rationale"@, <String as Json>::json(model.rationale)),
        writes(
            <ContextRevisionDraft as Json>::json(model),
            "applicability"@,
            <Applicability as Json>::json(model.applicability),
        ),
        writes(
            <ContextRevisionDraft as Json>::json(model),
            "assumptions"@,
            <Vec<String> as Json>::json(model.assumptions),
        ),
        writes(
            <ContextRevisionDraft as Json>::json(model),
            "recheck_when"@,
            <Vec<String> as Json>::json(model.recheck_when),
        ),
        model.hints.len() > 0 ==> writes(
            <ContextRevisionDraft as Json>::json(model),
            "hints"@,
            <Vec<String> as Json>::json(model.hints),
        ),
        writes(
            <ContextRevisionDraft as Json>::json(model),
            "relations"@,
            <Vec<ContextRelation> as Json>::json(model.relations),
        ),
        writes(
            <ContextRevisionDraft as Json>::json(model),
            "evidence"@,
            <Vec<EvidenceSnapshotDraft> as Json>::json(model.evidence),
        ),
{
    let b0 = Seq::<char>::empty();
    let b1 = with_member(b0, "kind"@, <ContextKind as Json>::json(model.kind));
    members_are_written(b0, "kind"@, <ContextKind as Json>::json(model.kind));
    let b2 = with_member(b1, "topic_key"@, <Option<String> as Json>::json(model.topic_key));
    members_are_written(b1, "topic_key"@, <Option<String> as Json>::json(model.topic_key));
    let b3 = with_member_if(
        b2,
        model.problem_view is Some,
        "problem_view"@,
        <Option<String> as Json>::json(model.problem_view),
    );
    members_there_are_written(
        b2,
        model.problem_view is Some,
        "problem_view"@,
        <Option<String> as Json>::json(model.problem_view),
    );
    let b4 = with_member(b3, "statement"@, <String as Json>::json(model.statement));
    members_are_written(b3, "statement"@, <String as Json>::json(model.statement));
    let b5 = with_member(b4, "rationale"@, <String as Json>::json(model.rationale));
    members_are_written(b4, "rationale"@, <String as Json>::json(model.rationale));
    let b6 = with_member(b5, "applicability"@, <Applicability as Json>::json(model.applicability));
    members_are_written(b5, "applicability"@, <Applicability as Json>::json(model.applicability));
    let b7 = with_member(b6, "assumptions"@, <Vec<String> as Json>::json(model.assumptions));
    members_are_written(b6, "assumptions"@, <Vec<String> as Json>::json(model.assumptions));
    let b8 = with_member(b7, "recheck_when"@, <Vec<String> as Json>::json(model.recheck_when));
    members_are_written(b7, "recheck_when"@, <Vec<String> as Json>::json(model.recheck_when));
    let b9 = with_member_if(b8, model.hints.len() > 0, "hints"@, <Vec<String> as Json>::json(model.hints));
    members_there_are_written(b8, model.hints.len() > 0, "hints"@, <Vec<String> as Json>::json(model.hints));
    let b10 = with_member(b9, "relations"@, <Vec<ContextRelation> as Json>::json(model.relations));
    members_are_written(b9, "relations"@, <Vec<ContextRelation> as Json>::json(model.relations));
    let b11 = with_member(b10, "evidence"@, <Vec<EvidenceSnapshotDraft> as Json>::json(model.evidence));
    members_are_written(b10, "evidence"@, <Vec<EvidenceSnapshotDraft> as Json>::json(model.evidence));
    assert(model.json_members(b0) == b11);
    objects_write_their_body(b11);
}

/// The JSON text of [`ContextRevision`] writes every field of it under its own name.
pub proof fn context_revision_json_writes_every_field(model: ContextRevisionView)
    ensures
        writes(<ContextRevision as Json>::json(model), "revision_id"@, <RevisionId as Json>::json(model.revision_id)),
        writes(
            <ContextRevision as Json>::json(model),
            "parent_revision_ids"@,
            <Vec<RevisionId> as Json>::json(model.parent_revision_ids),
        ),
        writes(<ContextRevision as Json>::json(model), "kind"@, <ContextKind as Json>::json(model.kind)),
        model.topic_key is Some ==> writes(
            <ContextRevision as Json>::json(model),
            "topic_key"@,
            <Option<String> as Json>::json(model.topic_key),
        ),
        model.problem_view is Some ==> writes(
            <ContextRevision as Json>::json(model),
            "problem_view"@,
            <Option<String> as Json>::json(model.problem_view),
        ),
        writes(<ContextRevision as Json>::json(model), "statement"@, <String as Json>::json(model.statement)),
        writes(<ContextRevision as Json>::json(model), "rationale"@, <String as Json>::json(model.rationale)),
        writes(
            <ContextRevision as Json>::json(model),
            "applicability"@,
            <Applicability as Json>::json(model.applicability),
        ),
        writes(
            <ContextRevision as Json>::json(model),
            "assumptions"@,
            <Vec<String> as Json>::json(model.assumptions),
        ),
        writes(
            <ContextRevision as Json>::json(model),
            "recheck_when"@,
            <Vec<String> as Json>::json(model.recheck_when),
        ),
        model.hints.len() > 0 ==> writes(
            <ContextRevision as Json>::json(model),
            "hints"@,
            <Vec<String> as Json>::json(model.hints),
        ),
        writes(
            <ContextRevision as Json>::json(model),
            "relations"@,
            <Vec<ContextRelation> as Json>::json(model.relations),
        ),
        writes(
            <ContextRevision as Json>::json(model),
            "evidence"@,
            <Vec<EvidenceSnapshot> as Json>::json(model.evidence),
        ),
{
    let b0 = Seq::<char>::empty();
    let b1 = with_member(b0, "revision_id"@, <RevisionId as Json>::json(model.revision_id));
    members_are_written(b0, "revision_id"@, <RevisionId as Json>::json(model.revision_id));
    let b2 = with_member(b1, "parent_revision_ids"@, <Vec<RevisionId> as Json>::json(model.parent_revision_ids));
    members_are_written(b1, "parent_revision_ids"@, <Vec<RevisionId> as Json>::json(model.parent_revision_ids));
    let b3 = with_member(b2, "kind"@, <ContextKind as Json>::json(model.kind));
    members_are_written(b2, "kind"@, <ContextKind as Json>::json(model.kind));
    let b4 = with_member_if(
        b3,
        model.topic_key is Some,
        "topic_key"@,
        <Option<String> as Json>::json(model.topic_key),
    );
    members_there_are_written(
        b3,
        model.topic_key is Some,
        "topic_key"@,
        <Option<String> as Json>::json(model.topic_key),
    );
    let b5 = with_member_if(
        b4,
        model.problem_view is Some,
        "problem_view"@,
        <Option<String> as Json>::json(model.problem_view),
    );
    members_there_are_written(
        b4,
        model.problem_view is Some,
        "problem_view"@,
        <Option<String> as Json>::json(model.problem_view),
    );
    let b6 = with_member(b5, "statement"@, <String as Json>::json(model.statement));
    members_are_written(b5, "statement"@, <String as Json>::json(model.statement));
    let b7 = with_member(b6, "rationale"@, <String as Json>::json(model.rationale));
    members_are_written(b6, "rationale"@, <String as Json>::json(model.rationale));
    let b8 = with_member(b7, "applicability"@, <Applicability as Json>::json(model.applicability));
    members_are_written(b7, "applicability"@, <Applicability as Json>::json(model.applicability));
    let b9 = with_member(b8, "assumptions"@, <Vec<String> as Json>::json(model.assumptions));
    members_are_written(b8, "assumptions"@, <Vec<String> as Json>::json(model.assumptions));
    let b10 = with_member(b9, "recheck_when"@, <Vec<String> as Json>::json(model.recheck_when));
    members_are_written(b9, "recheck_when"@, <Vec<String> as Json>::json(model.recheck_when));
    let b11 = with_member_if(b10, model.hints.len() > 0, "hints"@, <Vec<String> as Json>::json(model.hints));
    members_there_are_written(b10, model.hints.len() > 0, "hints"@, <Vec<String> as Json>::json(model.hints));
    let b12 = with_member(b11, "relations"@, <Vec<ContextRelation> as Json>::json(model.relations));
    members_are_written(b11, "relations"@, <Vec<ContextRelation> as Json>::json(model.relations));
    let b13 = with_member(b12, "evidence"@, <Vec<EvidenceSnapshot> as Json>::json(model.evidence));
    members_are_written(b12, "evidence"@, <Vec<EvidenceSnapshot> as Json>::json(model.evidence));
    assert(model.json_members(b0) == b13);
    objects_write_their_body(b13);
}

/// The JSON text of [`Review`] writes every field of it under its own name.
pub proof fn review_json_writes_every_field(model: ReviewView)
    ensures
        writes(<Review as Json>::json(model), "review_id"@, <ReviewId as Json>::json(model.review_id)),
        writes(<Review as Json>::json(model), "revision_id"@, <RevisionId as Json>::json(model.revision_id)),
        writes(<Review as Json>::json(model), "verdict"@, <ReviewVerdict as Json>::json(model.verdict)),
        writes(<Review as Json>::json(model), "reason"@, <String as Json>::json(model.reason)),
{
    let b0 = Seq::<char>::empty();
    let b1 = with_member(b0, "review_id"@, <ReviewId as Json>::json(model.review_id));
    members_are_written(b0, "review_id"@, <ReviewId as Json>::json(model.review_id));
    let b2 = with_member(b1, "revision_id"@, <RevisionId as Json>::json(model.revision_id));
    members_are_written(b1, "revision_id"@, <RevisionId as Json>::json(model.revision_id));
    let b3 = with_member(b2, "verdict"@, <ReviewVerdict as Json>::json(model.verdict));
    members_are_written(b2, "verdict"@, <ReviewVerdict as Json>::json(model.verdict));
    let b4 = with_member(b3, "reason"@, <String as Json>::json(model.reason));
    members_are_written(b3, "reason"@, <String as Json>::json(model.reason));
    assert(model.json_members(b0) == b4);
    objects_write_their_body(b4);
}

/// The JSON text of [`Publication`] writes every field of it under its own name.
pub proof fn publication_json_writes_every_field(model: PublicationView)
    ensures
        writes(
            <Publication as Json>::json(model),
            "publication_id"@,
            <PublicationId as Json>::json(model.publication_id),
        ),
        writes(
            <Publication as Json>::json(model),
            "previous_publication_ids"@,
            <Vec<PublicationId> as Json>::json(model.previous_publication_ids),
        ),
        writes(<Publication as Json>::json(model), "action"@, <PublicationAction as Json>::json(model.action)),
        writes(<Publication as Json>::json(model), "revision_id"@, <RevisionId as Json>::json(model.revision_id)),
        writes(
            <Publication as Json>::json(model),
            "review_event_ids"@,
            <Vec<EventId> as Json>::json(model.review_event_ids),
        ),
{
    let b0 = Seq::<char>::empty();
    let b1 = with_member(b0, "publication_id"@, <PublicationId as Json>::json(model.publication_id));
    members_are_written(b0, "publication_id"@, <PublicationId as Json>::json(model.publication_id));
    let b2 = with_member(
        b1,
        "previous_publication_ids"@,
        <Vec<PublicationId> as Json>::json(model.previous_publication_ids),
    );
    members_are_written(
        b1,
        "previous_publication_ids"@,
        <Vec<PublicationId> as Json>::json(model.previous_publication_ids),
    );
    let b3 = with_member(b2, "action"@, <PublicationAction as Json>::json(model.action));
    members_are_written(b2, "action"@, <PublicationAction as Json>::json(model.action));
    let b4 = with_member(b3, "revision_id"@, <RevisionId as Json>::json(model.revision_id));
    members_are_written(b3, "revision_id"@, <RevisionId as Json>::json(model.revision_id));
    let b5 = with_member(b4, "review_event_ids"@, <Vec<EventId> as Json>::json(model.review_event_ids));
    members_are_written(b4, "review_event_ids"@, <Vec<EventId> as Json>::json(model.review_event_ids));
    assert(model.json_members(b0) == b5);
    objects_write_their_body(b5);
}

/// The JSON text of [`ConflictParticipant`] writes every field of it under its own name.
pub proof fn conflict_participant_json_writes_every_field(model: ConflictParticipantView)
    ensures
        writes(
            <ConflictParticipant as Json>::json(model),
            "context_id"@,
            <ContextId as Json>::json(model.context_id),
        ),
        writes(
            <ConflictParticipant as Json>::json(model),
            "revision_id"@,
            <RevisionId as Json>::json(model.revision_id),
        ),
        writes(
            <ConflictParticipant as Json>::json(model),
            "publication_id"@,
            <PublicationId as Json>::json(model.publication_id),
        ),
{
    let b0 = Seq::<char>::empty();
    let b1 = with_member(b0, "context_id"@, <ContextId as Json>::json(model.context_id));
    members_are_written(b0, "context_id"@, <ContextId as Json>::json(model.context_id));
    let b2 = with_member(b1, "revision_id"@, <RevisionId as Json>::json(model.revision_id));
    members_are_written(b1, "revision_id"@, <RevisionId as Json>::json(model.revision_id));
    let b3 = with_member(b2, "publication_id"@, <PublicationId as Json>::json(model.publication_id));
    members_are_written(b2, "publication_id"@, <PublicationId as Json>::json(model.publication_id));
    assert(model.json_members(b0) == b3);
    objects_write_their_body(b3);
}

/// The JSON text of [`SemanticConflict`] writes every field of it under its own name.
pub proof fn semantic_conflict_json_writes_every_field(model: SemanticConflictView)
    ensures
        writes(
            <SemanticConflict as Json>::json(model),
            "conflict_id"@,
            <ConflictId as Json>::json(model.conflict_id),
        ),
        writes(
            <SemanticConflict as Json>::json(model),
            "participants"@,
            <Vec<ConflictParticipant> as Json>::json(model.participants),
        ),
        writes(<SemanticConflict as Json>::json(model), "reason"@, <String as Json>::json(model.reason)),
        writes(
            <SemanticConflict as Json>::json(model),
            "applicability"@,
            <Applicability as Json>::json(model.applicability),
        ),
{
    let b0 = Seq::<char>::empty();
    let b1 = with_member(b0, "conflict_id"@, <ConflictId as Json>::json(model.conflict_id));
    members_are_written(b0, "conflict_id"@, <ConflictId as Json>::json(model.conflict_id));
    let b2 = with_member(b1, "participants"@, <Vec<ConflictParticipant> as Json>::json(model.participants));
    members_are_written(b1, "participants"@, <Vec<ConflictParticipant> as Json>::json(model.participants));
    let b3 = with_member(b2, "reason"@, <String as Json>::json(model.reason));
    members_are_written(b2, "reason"@, <String as Json>::json(model.reason));
    let b4 = with_member(b3, "applicability"@, <Applicability as Json>::json(model.applicability));
    members_are_written(b3, "applicability"@, <Applicability as Json>::json(model.applicability));
    assert(model.json_members(b0) == b4);
    objects_write_their_body(b4);
}

/// The JSON text of [`ConflictResolutionResult`] writes every field of it under its own name.
pub proof fn conflict_resolution_result_json_writes_every_field(model: ConflictResolutionResultView)
    ensures
        writes(
            <ConflictResolutionResult as Json>::json(model),
            "context_id"@,
            <ContextId as Json>::json(model.context_id),
        ),
        writes(
            <ConflictResolutionResult as Json>::json(model),
            "revision_id"@,
            <RevisionId as Json>::json(model.revision_id),
        ),
        writes(
            <ConflictResolutionResult as Json>::json(model),
            "outcome"@,
            <ResolutionOutcome as Json>::json(model.outcome),
        ),
{
    let b0 = Seq::<char>::empty();
    let b1 = with_member(b0, "context_id"@, <ContextId as Json>::json(model.context_id));
    members_are_written(b0, "context_id"@, <ContextId as Json>::json(model.context_id));
    let b2 = with_member(b1, "revision_id"@, <RevisionId as Json>::json(model.revision_id));
    members_are_written(b1, "revision_id"@, <RevisionId as Json>::json(model.revision_id));
    let b3 = with_member(b2, "outcome"@, <ResolutionOutcome as Json>::json(model.outcome));
    members_are_written(b2, "outcome"@, <ResolutionOutcome as Json>::json(model.outcome));
    assert(model.json_members(b0) == b3);
    objects_write_their_body(b3);
}

/// The JSON text of [`ConflictResolution`] writes every field of it under its own name.
pub proof fn conflict_resolution_json_writes_every_field(model: ConflictResolutionView)
    ensures
        writes(
            <ConflictResolution as Json>::json(model),
            "resolution_id"@,
            <ResolutionId as Json>::json(model.resolution_id),
        ),
        writes(
            <ConflictResolution as Json>::json(model),
            "previous_resolution_ids"@,
            <Vec<ResolutionId> as Json>::json(model.previous_resolution_ids),
        ),
        writes(
            <ConflictResolution as Json>::json(model),
            "related_publication_ids"@,
            <Vec<PublicationId> as Json>::json(model.related_publication_ids),
        ),
        writes(
            <ConflictResolution as Json>::json(model),
            "results"@,
            <Vec<ConflictResolutionResult> as Json>::json(model.results),
        ),
        writes(<ConflictResolution as Json>::json(model), "rationale"@, <String as Json>::json(model.rationale)),
{
    let b0 = Seq::<char>::empty();
    let b1 = with_member(b0, "resolution_id"@, <ResolutionId as Json>::json(model.resolution_id));
    members_are_written(b0, "resolution_id"@, <ResolutionId as Json>::json(model.resolution_id));
    let b2 = with_member(
        b1,
        "previous_resolution_ids"@,
        <Vec<ResolutionId> as Json>::json(model.previous_resolution_ids),
    );
    members_are_written(
        b1,
        "previous_resolution_ids"@,
        <Vec<ResolutionId> as Json>::json(model.previous_resolution_ids),
    );
    let b3 = with_member(
        b2,
        "related_publication_ids"@,
        <Vec<PublicationId> as Json>::json(model.related_publication_ids),
    );
    members_are_written(
        b2,
        "related_publication_ids"@,
        <Vec<PublicationId> as Json>::json(model.related_publication_ids),
    );
    let b4 = with_member(b3, "results"@, <Vec<ConflictResolutionResult> as Json>::json(model.results));
    members_are_written(b3, "results"@, <Vec<ConflictResolutionResult> as Json>::json(model.results));
    let b5 = with_member(b4, "rationale"@, <String as Json>::json(model.rationale));
    members_are_written(b4, "rationale"@, <String as Json>::json(model.rationale));
    assert(model.json_members(b0) == b5);
    objects_write_their_body(b5);
}

/// Every [`ContextKind`] is written under a name of its own.
pub proof fn context_kind_json_names_every_variant()
    ensures
        <ContextKind as Json>::json(ContextKind::Decision) == "\"decision\""@,
        <ContextKind as Json>::json(ContextKind::Contract) == "\"contract\""@,
        <ContextKind as Json>::json(ContextKind::Issue) == "\"issue\""@,
        <ContextKind as Json>::json(ContextKind::Risk) == "\"risk\""@,
        <ContextKind as Json>::json(ContextKind::Validation) == "\"validation\""@,
        <ContextKind as Json>::json(ContextKind::Discovery) == "\"discovery\""@,
        <ContextKind as Json>::json(ContextKind::Progress) == "\"progress\""@,
{
}

/// Every [`EvidenceType`] is written under a name of its own.
pub proof fn evidence_type_json_names_every_variant()
    ensures
        <EvidenceType as Json>::json(EvidenceType::SourceSnapshot) == "\"source_snapshot\""@,
        <EvidenceType as Json>::json(EvidenceType::ExperimentRecord) == "\"experiment_record\""@,
        <EvidenceType as Json>::json(EvidenceType::ArtifactSnapshot) == "\"artifact_snapshot\""@,
{
}

/// Every [`ReviewVerdict`] is written under a name of its own.
pub proof fn review_verdict_json_names_every_variant()
    ensures
        <ReviewVerdict as Json>::json(ReviewVerdict::Approve) == "\"approve\""@,
        <ReviewVerdict as Json>::json(ReviewVerdict::Reject) == "\"reject\""@,
{
}

/// Every [`PublicationAction`] is written under a name of its own.
pub proof fn publication_action_json_names_every_variant()
    ensures
        <PublicationAction as Json>::json(PublicationAction::Publish) == "\"publish\""@,
        <PublicationAction as Json>::json(PublicationAction::Withdraw) == "\"withdraw\""@,
{
}

/// Every [`ResolutionOutcome`] is written under a name of its own.
pub proof fn resolution_outcome_json_names_every_variant()
    ensures
        <ResolutionOutcome as Json>::json(ResolutionOutcome::Retained) == "\"retained\""@,
        <ResolutionOutcome as Json>::json(ResolutionOutcome::Revised) == "\"revised\""@,
        <ResolutionOutcome as Json>::json(ResolutionOutcome::Withdrawn) == "\"withdrawn\""@,
        <ResolutionOutcome as Json>::json(ResolutionOutcome::ScopeSplit) == "\"scope_split\""@,
{
}

} // verus!
