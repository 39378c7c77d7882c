//! Candidate confirmation: field edits, the facts one confirmation closes over, and its plan.

use vstd::prelude::*;
use vstd::string::StringExecFns;

use crate::checks::{first_from, is_among, require_unique, unique_problem};
use crate::engineering::{
    EngineeringReference, EngineeringReferenceDraft, EngineeringReferenceDraftView, EngineeringReferenceView,
};
use crate::digest::{is_prefixed_digest, prefixed_digests_have_one_form};
use crate::episode::{prefixed_hash, text_hash, ContextCandidate, ContextCandidateView, WorkEpisodeRef};
use crate::error::{fails_as, first, given, invalid, invalid_input, ErrorView, Result};
use crate::ids::{
    CandidateId, ConfirmationId, ConflictId, ContextId, EventId, EvidenceId, Identifier, PublicationId,
    ReferenceId, RevisionId, SpaceAssociationId, SpaceId, SpaceRecommendationId, SubmissionId,
};
use crate::json::{object, push_member, push_member_text, push_object, with_member, with_member_if, Json};
use crate::model::{
    conflict_invalidity, participant_contexts, Applicability, ApplicabilityView, ConflictParticipant,
    ConflictParticipantView, ContextKind, ContextRevision, ContextRevisionDraft, ContextRevisionDraftView,
    ContextRevisionView, EvidenceSnapshotDraft, EvidenceSnapshotDraftView, IntentRevision, IntentRevisionView,
    IntentSnapshot, IntentSnapshotView, Publication, PublicationAction, PublicationView, SemanticConflict,
    SemanticConflictView,
};
use crate::engineering::{ContextRelation, ContextRelationView};
use crate::text::{begins_with, characters, digit, is_digit, joined2, same_text, without_prefix};
use crate::value::{push_value, take_all, take_next, Value};
use crate::json_laws::{members_are_written, members_there_are_written, objects_write_their_body, writes};

verus! {

/// Who decided one Candidate disposition.
///
/// It is provenance, never domain semantics: it never reaches an event payload, the Confirmation
/// operation hash, or any replay identity. `Human` is the default.
#[derive(Clone, Copy, Debug, PartialEq, Eq, Structural, PartialOrd, Ord)]
pub enum DecisionSource {
    /// An explicit human choice; the default for every request that omits the field.
    Human,
    /// The session Agent acting inside the server-verified automatic permission surface.
    AgentPolicy,
}

impl DeepView for DecisionSource {
    type V = DecisionSource;

    open spec fn deep_view(&self) -> DecisionSource {
        *self
    }
}

impl Value for DecisionSource {
    fn copied(&self) -> (copy: Self) {
        *self
    }

    fn same(&self, other: &Self) -> (equal: bool) {
        *self == *other
    }
}

impl Json for DecisionSource {
    open spec fn json(model: DecisionSource) -> Seq<char> {
        match model {
            DecisionSource::Human => "\"human\""@,
            DecisionSource::AgentPolicy => "\"agent_policy\""@,
        }
    }

    fn write_json(&self, out: &mut String) {
        match self {
            DecisionSource::Human => out.append("\"human\""),
            DecisionSource::AgentPolicy => out.append("\"agent_policy\""),
        }
    }
}

impl Default for DecisionSource {
    fn default() -> (source: Self)
        ensures
            source == DecisionSource::Human,
    {
        DecisionSource::Human
    }
}

impl DecisionSource {
    /// The stable wire and storage name.
    pub open spec fn name(self) -> Seq<char> {
        match self {
            DecisionSource::Human => "human"@,
            DecisionSource::AgentPolicy => "agent_policy"@,
        }
    }

    /// Stable wire and storage name.
    #[must_use]
    pub fn as_str(self) -> (name: &'static str)
        ensures
            name@ == self.name(),
    {
        match self {
            DecisionSource::Human => "human",
            DecisionSource::AgentPolicy => "agent_policy",
        }
    }

    /// Renders the stable wire name.
    #[must_use]
    pub fn to_string(&self) -> (name: String)
        ensures
            name@ == self.name(),
    {
        self.as_str().to_owned()
    }

    /// Parses the stable wire name.
    pub fn parse(value: &str) -> (result: Result<Self>)
        ensures
            fails_as(
                result,
                given(
                    value@ != "human"@ && value@ != "agent_policy"@,
                    invalid("decision_source must be human or agent_policy, not "@ + value@),
                ),
            ),
            result is Ok ==> result->Ok_0.name() == value@,
    {
        if same_text(value, "human") {
            return Ok(DecisionSource::Human);
        }
        if same_text(value, "agent_policy") {
            return Ok(DecisionSource::AgentPolicy);
        }
        let message = joined2("decision_source must be human or agent_policy, not ", value);
        Err(invalid_input(message.as_str()))
    }
}

/// Exactly one Primary Space choice supplied when confirming a Candidate.
#[derive(Clone, Debug, PartialEq, Eq)]
pub enum CandidatePrimarySelection {
    Existing {
        space_id: SpaceId,
    },
    ProposedNew {
        intent: IntentSnapshot,
    },
}

/// The model of [`CandidatePrimarySelection`].
pub enum CandidatePrimarySelectionView {
    Existing {
        space_id: SpaceId,
    },
    ProposedNew {
        intent: IntentSnapshotView,
    },
}

impl DeepView for CandidatePrimarySelection {
    type V = CandidatePrimarySelectionView;

    open spec fn deep_view(&self) -> CandidatePrimarySelectionView {
        match self {
            CandidatePrimarySelection::Existing { space_id } => {
                CandidatePrimarySelectionView::Existing { space_id: space_id.deep_view() }
            },
            CandidatePrimarySelection::ProposedNew { intent } => {
                CandidatePrimarySelectionView::ProposedNew { intent: intent.deep_view() }
            },
        }
    }
}

impl Value for CandidatePrimarySelection {
    fn copied(&self) -> (copy: Self) {
        match self {
            CandidatePrimarySelection::Existing { space_id } => {
                CandidatePrimarySelection::Existing { space_id: space_id.copied() }
            },
            CandidatePrimarySelection::ProposedNew { intent } => {
                CandidatePrimarySelection::ProposedNew { intent: intent.copied() }
            },
        }
    }

    fn same(&self, other: &Self) -> (equal: bool) {
        match (self, other) {
            (
                CandidatePrimarySelection::Existing { space_id: left_space_id },
                CandidatePrimarySelection::Existing { space_id: right_space_id },
            ) => left_space_id.same(right_space_id),
            (
                CandidatePrimarySelection::ProposedNew { intent: left_intent },
                CandidatePrimarySelection::ProposedNew { intent: right_intent },
            ) => left_intent.same(right_intent),
            _ => false,
        }
    }
}

impl Json for CandidatePrimarySelection {
    open spec fn json(model: CandidatePrimarySelectionView) -> Seq<char> {
        match model {
            CandidatePrimarySelectionView::Existing { space_id } => {
                let body = with_member(Seq::<char>::empty(), "kind"@, "\"existing\""@);
                let body = with_member(body, "space_id"@, <SpaceId as Json>::json(space_id));
                object(body)
            },
            CandidatePrimarySelectionView::ProposedNew { intent } => {
                let body = with_member(Seq::<char>::empty(), "kind"@, "\"proposed_new\""@);
                let body = with_member(body, "intent"@, <IntentSnapshot as Json>::json(intent));
                object(body)
            },
        }
    }

    fn write_json(&self, out: &mut String) {
        match self {
            CandidatePrimarySelection::Existing { space_id } => {
                let mut body = String::new();
                push_member_text(&mut body, "kind", "\"existing\"");
                push_member(&mut body, "space_id", space_id);
                push_object(out, body.as_str());
            },
            CandidatePrimarySelection::ProposedNew { intent } => {
                let mut body = String::new();
                push_member_text(&mut body, "kind", "\"proposed_new\"");
                push_member(&mut body, "intent", intent);
                push_object(out, body.as_str());
            },
        }
    }
}

impl CandidatePrimarySelectionView {
    /// Why a choice is invalid, if it is.
    pub open spec fn problem(self) -> Option<ErrorView> {
        match self {
            CandidatePrimarySelectionView::Existing { .. } => None,
            CandidatePrimarySelectionView::ProposedNew { intent } => intent.invalidity(),
        }
    }
}

impl CandidatePrimarySelection {
    fn validate(&self) -> (result: Result<()>)
        ensures
            fails_as(result, self.deep_view().problem()),
    {
        match self {
            CandidatePrimarySelection::Existing { .. } => Ok(()),
            CandidatePrimarySelection::ProposedNew { intent } => intent.validate(),
        }
    }
}

/// Public selection identity included in one confirmation operation hash.
#[derive(Clone, Copy, Debug, PartialEq, Eq, Structural)]
pub enum CandidateConfirmationPrimaryReference {
    ExistingSpace {
        space_id: SpaceId,
    },
    ProposedRecommendation {
        recommendation_id: SpaceRecommendationId,
    },
}

impl DeepView for CandidateConfirmationPrimaryReference {
    type V = CandidateConfirmationPrimaryReference;

    open spec fn deep_view(&self) -> CandidateConfirmationPrimaryReference {
        *self
    }
}

impl Value for CandidateConfirmationPrimaryReference {
    fn copied(&self) -> (copy: Self) {
        *self
    }

    fn same(&self, other: &Self) -> (equal: bool) {
        *self == *other
    }
}

impl Json for CandidateConfirmationPrimaryReference {
    open spec fn json(model: CandidateConfirmationPrimaryReference) -> Seq<char> {
        match model {
            CandidateConfirmationPrimaryReference::ExistingSpace { space_id } => {
                let body = with_member(Seq::<char>::empty(), "kind"@, "\"existing_space\""@);
                let body = with_member(body, "space_id"@, <SpaceId as Json>::json(space_id));
                object(body)
            },
            CandidateConfirmationPrimaryReference::ProposedRecommendation { recommendation_id } => {
                let body = with_member(Seq::<char>::empty(), "kind"@, "\"proposed_recommendation\""@);
                let body = with_member(
                    body,
                    "recommendation_id"@,
                    <SpaceRecommendationId as Json>::json(recommendation_id),
                );
                object(body)
            },
        }
    }

    fn write_json(&self, out: &mut String) {
        match self {
            CandidateConfirmationPrimaryReference::ExistingSpace { space_id } => {
                let mut body = String::new();
                push_member_text(&mut body, "kind", "\"existing_space\"");
                push_member(&mut body, "space_id", space_id);
                push_object(out, body.as_str());
            },
            CandidateConfirmationPrimaryReference::ProposedRecommendation { recommendation_id } => {
                let mut body = String::new();
                push_member_text(&mut body, "kind", "\"proposed_recommendation\"");
                push_member(&mut body, "recommendation_id", recommendation_id);
                push_object(out, body.as_str());
            },
        }
    }
}

/// Explicit replacement for the nullable Candidate `topic_key` field.
#[derive(Clone, Debug, PartialEq, Eq)]
pub enum TopicKeyEdit {
    Replace {
        value: String,
    },
    Clear,
}

/// The model of [`TopicKeyEdit`].
pub enum TopicKeyEditView {
    Replace {
        value: Seq<char>,
    },
    Clear,
}

impl DeepView for TopicKeyEdit {
    type V = TopicKeyEditView;

    open spec fn deep_view(&self) -> TopicKeyEditView {
        match self {
            TopicKeyEdit::Replace { value } => TopicKeyEditView::Replace { value: value.deep_view() },
            TopicKeyEdit::Clear => TopicKeyEditView::Clear,
        }
    }
}

impl Value for TopicKeyEdit {
    fn copied(&self) -> (copy: Self) {
        match self {
            TopicKeyEdit::Replace { value } => TopicKeyEdit::Replace { value: value.copied() },
            TopicKeyEdit::Clear => TopicKeyEdit::Clear,
        }
    }

    fn same(&self, other: &Self) -> (equal: bool) {
        match (self, other) {
            (
                TopicKeyEdit::Replace { value: left_value },
                TopicKeyEdit::Replace { value: right_value },
            ) => left_value.same(right_value),
            (TopicKeyEdit::Clear, TopicKeyEdit::Clear) => true,
            _ => false,
        }
    }
}

impl Json for TopicKeyEdit {
    open spec fn json(model: TopicKeyEditView) -> Seq<char> {
        match model {
            TopicKeyEditView::Replace { value } => {
                let body = with_member(Seq::<char>::empty(), "action"@, "\"set\""@);
                let body = with_member(body, "value"@, <String as Json>::json(value));
                object(body)
            },
            TopicKeyEditView::Clear => {
                let body = with_member(Seq::<char>::empty(), "action"@, "\"clear\""@);
                object(body)
            },
        }
    }

    fn write_json(&self, out: &mut String) {
        match self {
            TopicKeyEdit::Replace { value } => {
                let mut body = String::new();
                push_member_text(&mut body, "action", "\"set\"");
                push_member(&mut body, "value", value);
                push_object(out, body.as_str());
            },
            TopicKeyEdit::Clear => {
                let mut body = String::new();
                push_member_text(&mut body, "action", "\"clear\"");
                push_object(out, body.as_str());
            },
        }
    }
}

/// Explicit replacement for the nullable Candidate `problem_view` field.
#[derive(Clone, Debug, PartialEq, Eq)]
pub enum ProblemViewEdit {
    Replace {
        value: String,
    },
    Clear,
}

/// The model of [`ProblemViewEdit`].
pub enum ProblemViewEditView {
    Replace {
        value: Seq<char>,
    },
    Clear,
}

impl DeepView for ProblemViewEdit {
    type V = ProblemViewEditView;

    open spec fn deep_view(&self) -> ProblemViewEditView {
        match self {
            ProblemViewEdit::Replace { value } => ProblemViewEditView::Replace { value: value.deep_view() },
            ProblemViewEdit::Clear => ProblemViewEditView::Clear,
        }
    }
}

impl Value for ProblemViewEdit {
    fn copied(&self) -> (copy: Self) {
        match self {
            ProblemViewEdit::Replace { value } => ProblemViewEdit::Replace { value: value.copied() },
            ProblemViewEdit::Clear => ProblemViewEdit::Clear,
        }
    }

    fn same(&self, other: &Self) -> (equal: bool) {
        match (self, other) {
            (
                ProblemViewEdit::Replace { value: left_value },
                ProblemViewEdit::Replace { value: right_value },
            ) => left_value.same(right_value),
            (ProblemViewEdit::Clear, ProblemViewEdit::Clear) => true,
            _ => false,
        }
    }
}

impl Json for ProblemViewEdit {
    open spec fn json(model: ProblemViewEditView) -> Seq<char> {
        match model {
            ProblemViewEditView::Replace { value } => {
                let body = with_member(Seq::<char>::empty(), "action"@, "\"set\""@);
                let body = with_member(body, "value"@, <String as Json>::json(value));
                object(body)
            },
            ProblemViewEditView::Clear => {
                let body = with_member(Seq::<char>::empty(), "action"@, "\"clear\""@);
                object(body)
            },
        }
    }

    fn write_json(&self, out: &mut String) {
        match self {
            ProblemViewEdit::Replace { value } => {
                let mut body = String::new();
                push_member_text(&mut body, "action", "\"set\"");
                push_member(&mut body, "value", value);
                push_object(out, body.as_str());
            },
            ProblemViewEdit::Clear => {
                let mut body = String::new();
                push_member_text(&mut body, "action", "\"clear\"");
                push_object(out, body.as_str());
            },
        }
    }
}

/// Field-level replacements applied to the complete Candidate draft at confirmation.
///
/// Absence preserves the Candidate field; [`TopicKeyEdit::Clear`] explicitly removes the topic.
#[derive(Clone, Debug, PartialEq, Eq)]
pub struct OptionalCandidateEdits {
    pub kind: Option<ContextKind>,
    pub topic_key: Option<TopicKeyEdit>,
    pub problem_view: Option<ProblemViewEdit>,
    pub statement: Option<String>,
    pub rationale: Option<String>,
    pub applicability: Option<Applicability>,
    pub assumptions: Option<Vec<String>>,
    pub recheck_when: Option<Vec<String>>,
    pub hints: Option<Vec<String>>,
    pub relations: Option<Vec<ContextRelation>>,
    pub evidence: Option<Vec<EvidenceSnapshotDraft>>,
}

/// The model of [`OptionalCandidateEdits`].
pub struct OptionalCandidateEditsView {
    pub kind: Option<ContextKind>,
    pub topic_key: Option<TopicKeyEditView>,
    pub problem_view: Option<ProblemViewEditView>,
    pub statement: Option<Seq<char>>,
    pub rationale: Option<Seq<char>>,
    pub applicability: Option<ApplicabilityView>,
    pub assumptions: Option<Seq<Seq<char>>>,
    pub recheck_when: Option<Seq<Seq<char>>>,
    pub hints: Option<Seq<Seq<char>>>,
    pub relations: Option<Seq<ContextRelationView>>,
    pub evidence: Option<Seq<EvidenceSnapshotDraftView>>,
}

impl DeepView for OptionalCandidateEdits {
    type V = OptionalCandidateEditsView;

    open spec fn deep_view(&self) -> OptionalCandidateEditsView {
        OptionalCandidateEditsView {
            kind: self.kind.deep_view(),
            topic_key: self.topic_key.deep_view(),
            problem_view: self.problem_view.deep_view(),
            statement: self.statement.deep_view(),
            rationale: self.rationale.deep_view(),
            applicability: self.applicability.deep_view(),
            assumptions: self.assumptions.deep_view(),
            recheck_when: self.recheck_when.deep_view(),
            hints: self.hints.deep_view(),
            relations: self.relations.deep_view(),
            evidence: self.evidence.deep_view(),
        }
    }
}

impl Value for OptionalCandidateEdits {
    fn copied(&self) -> (copy: Self) {
        OptionalCandidateEdits {
            kind: self.kind.copied(),
            topic_key: self.topic_key.copied(),
            problem_view: self.problem_view.copied(),
            statement: self.statement.copied(),
            rationale: self.rationale.copied(),
            applicability: self.applicability.copied(),
            assumptions: self.assumptions.copied(),
            recheck_when: self.recheck_when.copied(),
            hints: self.hints.copied(),
            relations: self.relations.copied(),
            evidence: self.evidence.copied(),
        }
    }

    fn same(&self, other: &Self) -> (equal: bool) {
        self.kind.same(&other.kind)
            && self.topic_key.same(&other.topic_key)
            && self.problem_view.same(&other.problem_view)
            && self.statement.same(&other.statement)
            && self.rationale.same(&other.rationale)
            && self.applicability.same(&other.applicability)
            && self.assumptions.same(&other.assumptions)
            && self.recheck_when.same(&other.recheck_when)
            && self.hints.same(&other.hints)
            && self.relations.same(&other.relations)
            && self.evidence.same(&other.evidence)
    }
}

impl OptionalCandidateEditsView {
    /// The JSON members, behind those of `body`.
    pub open spec fn json_members(self, body: Seq<char>) -> Seq<char> {
        let body = with_member_if(body, self.kind is Some, "kind"@, <Option<ContextKind> as Json>::json(self.kind));
        let body = with_member_if(
            body,
            self.topic_key is Some,
            "topic_key"@,
            <Option<TopicKeyEdit> as Json>::json(self.topic_key),
        );
        let body = with_member_if(
            body,
            self.problem_view is Some,
            "problem_view"@,
            <Option<ProblemViewEdit> as Json>::json(self.problem_view),
        );
        let body = with_member_if(
            body,
            self.statement is Some,
            "statement"@,
            <Option<String> as Json>::json(self.statement),
        );
        let body = with_member_if(
            body,
            self.rationale is Some,
            "rationale"@,
            <Option<String> as Json>::json(self.rationale),
        );
        let body = with_member_if(
            body,
            self.applicability is Some,
            "applicability"@,
            <Option<Applicability> as Json>::json(self.applicability),
        );
        let body = with_member_if(
            body,
            self.assumptions is Some,
            "assumptions"@,
            <Option<Vec<String>> as Json>::json(self.assumptions),
        );
        let body = with_member_if(
            body,
            self.recheck_when is Some,
            "recheck_when"@,
            <Option<Vec<String>> as Json>::json(self.recheck_when),
        );
        let body = with_member_if(
            body,
            self.hints is Some,
            "hints"@,
            <Option<Vec<String>> as Json>::json(self.hints),
        );
        let body = with_member_if(
            body,
            self.relations is Some,
            "relations"@,
            <Option<Vec<ContextRelation>> as Json>::json(self.relations),
        );
        let body = with_member_if(
            body,
            self.evidence is Some,
            "evidence"@,
            <Option<Vec<EvidenceSnapshotDraft>> as Json>::json(self.evidence),
        );
        body
    }
}

impl OptionalCandidateEdits {
    fn push_members(&self, text: &mut String)
        ensures
            final(text)@ == self.deep_view().json_members(old(text)@),
    {
        if self.kind.is_some() {
            push_member(text, "kind", &self.kind);
        }
        if self.topic_key.is_some() {
            push_member(text, "topic_key", &self.topic_key);
        }
        if self.problem_view.is_some() {
            push_member(text, "problem_view", &self.problem_view);
        }
        if self.statement.is_some() {
            push_member(text, "statement", &self.statement);
        }
        if self.rationale.is_some() {
            push_member(text, "rationale", &self.rationale);
        }
        if self.applicability.is_some() {
            push_member(text, "applicability", &self.applicability);
        }
        if self.assumptions.is_some() {
            push_member(text, "assumptions", &self.assumptions);
        }
        if self.recheck_when.is_some() {
            push_member(text, "recheck_when", &self.recheck_when);
        }
        if self.hints.is_some() {
            push_member(text, "hints", &self.hints);
        }
        if self.relations.is_some() {
            push_member(text, "relations", &self.relations);
        }
        if self.evidence.is_some() {
            push_member(text, "evidence", &self.evidence);
        }
    }
}

impl Json for OptionalCandidateEdits {
    open spec fn json(model: OptionalCandidateEditsView) -> Seq<char> {
        object(model.json_members(Seq::<char>::empty()))
    }

    fn write_json(&self, out: &mut String) {
        let mut body = String::new();
        self.push_members(&mut body);
        push_object(out, body.as_str());
    }
}

/// No replacement at all.
pub open spec fn no_edits() -> OptionalCandidateEditsView {
    OptionalCandidateEditsView {
        kind: None,
        topic_key: None,
        problem_view: None,
        statement: None,
        rationale: None,
        applicability: None,
        assumptions: None,
        recheck_when: None,
        hints: None,
        relations: None,
        evidence: None,
    }
}

/// A replacement where there is one, else what was there.
pub open spec fn replaced<T>(edit: Option<T>, source: T) -> T {
    match edit {
        Some(value) => value,
        None => source,
    }
}

impl OptionalCandidateEditsView {
    /// The draft with the replacements applied.
    pub open spec fn edited(self, source: ContextRevisionDraftView) -> ContextRevisionDraftView {
        ContextRevisionDraftView {
            kind: replaced(self.kind, source.kind),
            topic_key: match self.topic_key {
                Some(TopicKeyEditView::Replace { value }) => Some(value),
                Some(TopicKeyEditView::Clear) => None,
                None => source.topic_key,
            },
            problem_view: match self.problem_view {
                Some(ProblemViewEditView::Replace { value }) => Some(value),
                Some(ProblemViewEditView::Clear) => None,
                None => source.problem_view,
            },
            statement: replaced(self.statement, source.statement),
            rationale: replaced(self.rationale, source.rationale),
            applicability: replaced(self.applicability, source.applicability),
            assumptions: replaced(self.assumptions, source.assumptions),
            recheck_when: replaced(self.recheck_when, source.recheck_when),
            hints: replaced(self.hints, source.hints),
            relations: replaced(self.relations, source.relations),
            evidence: replaced(self.evidence, source.evidence),
        }
    }
}

/// Edits without a replacement preserve the draft.
pub proof fn no_edits_preserve_the_draft(source: ContextRevisionDraftView)
    ensures
        no_edits().edited(source) == source,
{
}

/// Applying the same edits twice changes nothing more.
pub proof fn edits_are_idempotent(edits: OptionalCandidateEditsView, source: ContextRevisionDraftView)
    ensures
        edits.edited(edits.edited(source)) == edits.edited(source),
{
}

fn replacement<T: Value>(edit: &Option<T>, source: &T) -> (value: T)
    ensures
        value.deep_view() == replaced(edit.deep_view(), source.deep_view()),
{
    match edit {
        Some(value) => value.copied(),
        None => source.copied(),
    }
}

impl Default for OptionalCandidateEdits {
    fn default() -> (edits: Self)
        ensures
            edits.deep_view() == no_edits(),
    {
        OptionalCandidateEdits {
            kind: None,
            topic_key: None,
            problem_view: None,
            statement: None,
            rationale: None,
            applicability: None,
            assumptions: None,
            recheck_when: None,
            hints: None,
            relations: None,
            evidence: None,
        }
    }
}

impl OptionalCandidateEdits {
    /// True when no field replacement was supplied at all.
    #[must_use]
    pub fn is_empty(&self) -> (empty: bool)
        ensures
            empty == (self.deep_view() == no_edits()),
    {
        self.kind.is_none() && self.topic_key.is_none() && self.problem_view.is_none() && self.statement.is_none()
            && self.rationale.is_none() && self.applicability.is_none() && self.assumptions.is_none()
            && self.recheck_when.is_none() && self.hints.is_none() && self.relations.is_none()
            && self.evidence.is_none()
    }

    /// Applies only supplied replacements and validates the resulting complete draft.
    pub fn apply(&self, source: &ContextRevisionDraft) -> (result: Result<ContextRevisionDraft>)
        ensures
            fails_as(result, self.deep_view().edited(source.deep_view()).invalidity()),
            result is Ok ==> result->Ok_0.deep_view() == self.deep_view().edited(source.deep_view()),
    {
        let draft = ContextRevisionDraft {
            kind: replacement(&self.kind, &source.kind),
            topic_key: match &self.topic_key {
                Some(TopicKeyEdit::Replace { value }) => Some(value.clone()),
                Some(TopicKeyEdit::Clear) => None,
                None => source.topic_key.copied(),
            },
            problem_view: match &self.problem_view {
                Some(ProblemViewEdit::Replace { value }) => Some(value.clone()),
                Some(ProblemViewEdit::Clear) => None,
                None => source.problem_view.copied(),
            },
            statement: replacement(&self.statement, &source.statement),
            rationale: replacement(&self.rationale, &source.rationale),
            applicability: replacement(&self.applicability, &source.applicability),
            assumptions: replacement(&self.assumptions, &source.assumptions),
            recheck_when: replacement(&self.recheck_when, &source.recheck_when),
            hints: replacement(&self.hints, &source.hints),
            relations: replacement(&self.relations, &source.relations),
            evidence: replacement(&self.evidence, &source.evidence),
        };
        draft.validate()?;
        Ok(draft)
    }
}

/// Pure confirmation input; it contains no generated identity, Space route, or governance fact.
#[derive(Clone, Debug, PartialEq, Eq)]
pub struct CandidateConfirmationRequest {
    pub candidate_id: CandidateId,
    pub primary: CandidatePrimarySelection,
    pub related_space_ids: Vec<SpaceId>,
    pub edits: OptionalCandidateEdits,
}

/// The model of [`CandidateConfirmationRequest`].
pub struct CandidateConfirmationRequestView {
    pub candidate_id: CandidateId,
    pub primary: CandidatePrimarySelectionView,
    pub related_space_ids: Seq<SpaceId>,
    pub edits: OptionalCandidateEditsView,
}

impl DeepView for CandidateConfirmationRequest {
    type V = CandidateConfirmationRequestView;

    open spec fn deep_view(&self) -> CandidateConfirmationRequestView {
        CandidateConfirmationRequestView {
            candidate_id: self.candidate_id.deep_view(),
            primary: self.primary.deep_view(),
            related_space_ids: self.related_space_ids.deep_view(),
            edits: self.edits.deep_view(),
        }
    }
}

impl Value for CandidateConfirmationRequest {
    fn copied(&self) -> (copy: Self) {
        CandidateConfirmationRequest {
            candidate_id: self.candidate_id.copied(),
            primary: self.primary.copied(),
            related_space_ids: self.related_space_ids.copied(),
            edits: self.edits.copied(),
        }
    }

    fn same(&self, other: &Self) -> (equal: bool) {
        self.candidate_id.same(&other.candidate_id)
            && self.primary.same(&other.primary)
            && self.related_space_ids.same(&other.related_space_ids)
            && self.edits.same(&other.edits)
    }
}

impl CandidateConfirmationRequestView {
    /// The JSON members, behind those of `body`.
    pub open spec fn json_members(self, body: Seq<char>) -> Seq<char> {
        let body = with_member(body, "candidate_id"@, <CandidateId as Json>::json(self.candidate_id));
        let body = with_member(body, "primary"@, <CandidatePrimarySelection as Json>::json(self.primary));
        let body = with_member(body, "related_space_ids"@, <Vec<SpaceId> as Json>::json(self.related_space_ids));
        let body = with_member(body, "edits"@, <OptionalCandidateEdits as Json>::json(self.edits));
        body
    }
}

impl CandidateConfirmationRequest {
    fn push_members(&self, text: &mut String)
        ensures
            final(text)@ == self.deep_view().json_members(old(text)@),
    {
        push_member(text, "candidate_id", &self.candidate_id);
        push_member(text, "primary", &self.primary);
        push_member(text, "related_space_ids", &self.related_space_ids);
        push_member(text, "edits", &self.edits);
    }
}

impl Json for CandidateConfirmationRequest {
    open spec fn json(model: CandidateConfirmationRequestView) -> Seq<char> {
        object(model.json_members(Seq::<char>::empty()))
    }

    fn write_json(&self, out: &mut String) {
        let mut body = String::new();
        self.push_members(&mut body);
        push_object(out, body.as_str());
    }
}

impl CandidateConfirmationRequestView {
    /// Why a request for a Candidate is refused, if it is.
    pub open spec fn problem(self, candidate: ContextCandidateView) -> Option<ErrorView> {
        first(
            given(
                self.candidate_id != candidate.candidate_id,
                invalid("Candidate Confirmation request names a different Candidate"@),
            ),
            first(
                self.primary.problem(),
                first(
                    unique_problem(self.related_space_ids, "candidate_confirmation.related_space_ids"@),
                    first(
                        given(
                            self.primary is Existing && self.related_space_ids.contains(
                                self.primary->Existing_space_id,
                            ),
                            invalid("Candidate Confirmation Related Spaces must not include Primary"@),
                        ),
                        self.edits.edited(candidate.content).invalidity(),
                    ),
                ),
            ),
        )
    }
}

impl CandidateConfirmationRequest {
    /// Validates selection shape and produces the final complete Candidate content.
    pub fn final_draft(&self, candidate: &ContextCandidate) -> (result: Result<ContextRevisionDraft>)
        ensures
            fails_as(result, self.deep_view().problem(candidate.deep_view())),
            result is Ok ==> result->Ok_0.deep_view() == self.deep_view().edits.edited(candidate.deep_view().content),
    {
        if self.candidate_id != candidate.candidate_id {
            return Err(invalid_input("Candidate Confirmation request names a different Candidate"));
        }
        self.primary.validate()?;
        require_unique(&self.related_space_ids, "candidate_confirmation.related_space_ids")?;
        if let CandidatePrimarySelection::Existing { space_id } = &self.primary {
            if is_among(&self.related_space_ids, space_id) {
                return Err(invalid_input("Candidate Confirmation Related Spaces must not include Primary"));
            }
        }
        self.edits.apply(&candidate.content)
    }
}

/// Authoritative semantics of one human confirmation operation, excluding generated identities.
#[derive(Clone, Debug, PartialEq, Eq)]
pub struct CandidateConfirmationOperation {
    pub candidate_id: CandidateId,
    pub review_parent_version: u64,
    pub analysis_generation: u64,
    pub primary: CandidateConfirmationPrimaryReference,
    pub related_space_ids: Vec<SpaceId>,
    pub edits: OptionalCandidateEdits,
}

/// The model of [`CandidateConfirmationOperation`].
pub struct CandidateConfirmationOperationView {
    pub candidate_id: CandidateId,
    pub review_parent_version: u64,
    pub analysis_generation: u64,
    pub primary: CandidateConfirmationPrimaryReference,
    pub related_space_ids: Seq<SpaceId>,
    pub edits: OptionalCandidateEditsView,
}

impl DeepView for CandidateConfirmationOperation {
    type V = CandidateConfirmationOperationView;

    open spec fn deep_view(&self) -> CandidateConfirmationOperationView {
        CandidateConfirmationOperationView {
            candidate_id: self.candidate_id.deep_view(),
            review_parent_version: self.review_parent_version.deep_view(),
            analysis_generation: self.analysis_generation.deep_view(),
            primary: self.primary.deep_view(),
            related_space_ids: self.related_space_ids.deep_view(),
            edits: self.edits.deep_view(),
        }
    }
}

impl Value for CandidateConfirmationOperation {
    fn copied(&self) -> (copy: Self) {
        CandidateConfirmationOperation {
            candidate_id: self.candidate_id.copied(),
            review_parent_version: self.review_parent_version.copied(),
            analysis_generation: self.analysis_generation.copied(),
            primary: self.primary.copied(),
            related_space_ids: self.related_space_ids.copied(),
            edits: self.edits.copied(),
        }
    }

    fn same(&self, other: &Self) -> (equal: bool) {
        self.candidate_id.same(&other.candidate_id)
            && self.review_parent_version.same(&other.review_parent_version)
            && self.analysis_generation.same(&other.analysis_generation)
            && self.primary.same(&other.primary)
            && self.related_space_ids.same(&other.related_space_ids)
            && self.edits.same(&other.edits)
    }
}

impl CandidateConfirmationOperationView {
    /// The JSON members, behind those of `body`.
    pub open spec fn json_members(self, body: Seq<char>) -> Seq<char> {
        let body = with_member(body, "candidate_id"@, <CandidateId as Json>::json(self.candidate_id));
        let body = with_member(body, "review_parent_version"@, <u64 as Json>::json(self.review_parent_version));
        let body = with_member(body, "analysis_generation"@, <u64 as Json>::json(self.analysis_generation));
        let body = with_member(body, "primary"@, <CandidateConfirmationPrimaryReference as Json>::json(self.primary));
        let body = with_member(body, "related_space_ids"@, <Vec<SpaceId> as Json>::json(self.related_space_ids));
        let body = with_member(body, "edits"@, <OptionalCandidateEdits as Json>::json(self.edits));
        body
    }
}

impl CandidateConfirmationOperation {
    fn push_members(&self, text: &mut String)
        ensures
            final(text)@ == self.deep_view().json_members(old(text)@),
    {
        push_member(text, "candidate_id", &self.candidate_id);
        push_member(text, "review_parent_version", &self.review_parent_version);
        push_member(text, "analysis_generation", &self.analysis_generation);
        push_member(text, "primary", &self.primary);
        push_member(text, "related_space_ids", &self.related_space_ids);
        push_member(text, "edits", &self.edits);
    }
}

impl Json for CandidateConfirmationOperation {
    open spec fn json(model: CandidateConfirmationOperationView) -> Seq<char> {
        object(model.json_members(Seq::<char>::empty()))
    }

    fn write_json(&self, out: &mut String) {
        let mut body = String::new();
        self.push_members(&mut body);
        push_object(out, body.as_str());
    }
}

impl CandidateConfirmationOperationView {
    /// The hash of the operation's semantics.
    pub open spec fn hash(self) -> Seq<char> {
        text_hash(<CandidateConfirmationOperation as Json>::json(self))
    }

    /// Why an operation is invalid, if it is.
    pub open spec fn problem(self) -> Option<ErrorView> {
        first(
            given(
                self.review_parent_version == 0 || self.analysis_generation == 0,
                invalid(
                    "Candidate Confirmation operation requires positive Review and analysis generations"@,
                ),
            ),
            first(
                unique_problem(
                    self.related_space_ids,
                    "candidate_confirmation_operation.related_space_ids"@,
                ),
                given(
                    self.primary is ExistingSpace && self.related_space_ids.contains(
                        self.primary->ExistingSpace_space_id,
                    ),
                    invalid("Candidate Confirmation operation Related Spaces must not include Primary"@),
                ),
            ),
        )
    }
}

impl CandidateConfirmationOperation {
    /// Returns the canonical semantic operation hash used for retry/conflict detection.
    #[must_use]
    pub fn operation_hash(&self) -> (hash: String)
        ensures
            hash@ == self.deep_view().hash(),
            is_prefixed_digest(hash@, "sha256:"@),
            is_content_hash(hash@),
    {
        let mut encoded = String::new();
        self.write_json(&mut encoded);
        assert(encoded@ =~= <CandidateConfirmationOperation as Json>::json(self.deep_view()));
        proof {
            text_hashes_are_content_hashes(encoded@);
        }
        prefixed_hash(encoded.as_str())
    }

    /// Validates the non-generated operation boundary.
    pub fn validate(&self) -> (result: Result<()>)
        ensures
            fails_as(result, self.deep_view().problem()),
    {
        if self.review_parent_version == 0 || self.analysis_generation == 0 {
            return Err(
                invalid_input("Candidate Confirmation operation requires positive Review and analysis generations"),
            );
        }
        require_unique(&self.related_space_ids, "candidate_confirmation_operation.related_space_ids")?;
        if let CandidateConfirmationPrimaryReference::ExistingSpace { space_id } = &self.primary {
            if is_among(&self.related_space_ids, space_id) {
                return Err(invalid_input("Candidate Confirmation operation Related Spaces must not include Primary"));
            }
        }
        Ok(())
    }
}

/// Why one Context-to-Space association snapshot exists.
#[derive(Clone, Copy, Debug, PartialEq, Eq, Structural, Hash)]
pub enum ContextSpaceAssociationOrigin {
    CandidateConfirmation {
        candidate_id: CandidateId,
    },
    Correction,
}

impl DeepView for ContextSpaceAssociationOrigin {
    type V = ContextSpaceAssociationOrigin;

    open spec fn deep_view(&self) -> ContextSpaceAssociationOrigin {
        *self
    }
}

impl Value for ContextSpaceAssociationOrigin {
    fn copied(&self) -> (copy: Self) {
        *self
    }

    fn same(&self, other: &Self) -> (equal: bool) {
        *self == *other
    }
}

impl Json for ContextSpaceAssociationOrigin {
    open spec fn json(model: ContextSpaceAssociationOrigin) -> Seq<char> {
        match model {
            ContextSpaceAssociationOrigin::CandidateConfirmation { candidate_id } => {
                let body = with_member(Seq::<char>::empty(), "kind"@, "\"candidate_confirmation\""@);
                let body = with_member(body, "candidate_id"@, <CandidateId as Json>::json(candidate_id));
                object(body)
            },
            ContextSpaceAssociationOrigin::Correction => {
                let body = with_member(Seq::<char>::empty(), "kind"@, "\"correction\""@);
                object(body)
            },
        }
    }

    fn write_json(&self, out: &mut String) {
        match self {
            ContextSpaceAssociationOrigin::CandidateConfirmation { candidate_id } => {
                let mut body = String::new();
                push_member_text(&mut body, "kind", "\"candidate_confirmation\"");
                push_member(&mut body, "candidate_id", candidate_id);
                push_object(out, body.as_str());
            },
            ContextSpaceAssociationOrigin::Correction => {
                let mut body = String::new();
                push_member_text(&mut body, "kind", "\"correction\"");
                push_object(out, body.as_str());
            },
        }
    }
}

/// Caller-independent inputs for one complete Context-to-Space association snapshot.
#[derive(Clone, Debug, PartialEq, Eq)]
pub struct ContextSpaceAssociationDraft {
    pub context_id: ContextId,
    pub primary_space_id: SpaceId,
    pub related_space_ids: Vec<SpaceId>,
    pub previous_association_ids: Vec<SpaceAssociationId>,
    pub origin: ContextSpaceAssociationOrigin,
}

/// The model of [`ContextSpaceAssociationDraft`].
pub struct ContextSpaceAssociationDraftView {
    pub context_id: ContextId,
    pub primary_space_id: SpaceId,
    pub related_space_ids: Seq<SpaceId>,
    pub previous_association_ids: Seq<SpaceAssociationId>,
    pub origin: ContextSpaceAssociationOrigin,
}

impl DeepView for ContextSpaceAssociationDraft {
    type V = ContextSpaceAssociationDraftView;

    open spec fn deep_view(&self) -> ContextSpaceAssociationDraftView {
        ContextSpaceAssociationDraftView {
            context_id: self.context_id.deep_view(),
            primary_space_id: self.primary_space_id.deep_view(),
            related_space_ids: self.related_space_ids.deep_view(),
            previous_association_ids: self.previous_association_ids.deep_view(),
            origin: self.origin.deep_view(),
        }
    }
}

impl Value for ContextSpaceAssociationDraft {
    fn copied(&self) -> (copy: Self) {
        ContextSpaceAssociationDraft {
            context_id: self.context_id.copied(),
            primary_space_id: self.primary_space_id.copied(),
            related_space_ids: self.related_space_ids.copied(),
            previous_association_ids: self.previous_association_ids.copied(),
            origin: self.origin.copied(),
        }
    }

    fn same(&self, other: &Self) -> (equal: bool) {
        self.context_id.same(&other.context_id)
            && self.primary_space_id.same(&other.primary_space_id)
            && self.related_space_ids.same(&other.related_space_ids)
            && self.previous_association_ids.same(&other.previous_association_ids)
            && self.origin.same(&other.origin)
    }
}

impl ContextSpaceAssociationDraftView {
    /// The JSON members, behind those of `body`.
    pub open spec fn json_members(self, body: Seq<char>) -> Seq<char> {
        let body = with_member(body, "context_id"@, <ContextId as Json>::json(self.context_id));
        let body = with_member(body, "primary_space_id"@, <SpaceId as Json>::json(self.primary_space_id));
        let body = with_member(body, "related_space_ids"@, <Vec<SpaceId> as Json>::json(self.related_space_ids));
        let body = with_member(
            body,
            "previous_association_ids"@,
            <Vec<SpaceAssociationId> as Json>::json(self.previous_association_ids),
        );
        let body = with_member(body, "origin"@, <ContextSpaceAssociationOrigin as Json>::json(self.origin));
        body
    }
}

impl ContextSpaceAssociationDraft {
    fn push_members(&self, text: &mut String)
        ensures
            final(text)@ == self.deep_view().json_members(old(text)@),
    {
        push_member(text, "context_id", &self.context_id);
        push_member(text, "primary_space_id", &self.primary_space_id);
        push_member(text, "related_space_ids", &self.related_space_ids);
        push_member(text, "previous_association_ids", &self.previous_association_ids);
        push_member(text, "origin", &self.origin);
    }
}

impl Json for ContextSpaceAssociationDraft {
    open spec fn json(model: ContextSpaceAssociationDraftView) -> Seq<char> {
        object(model.json_members(Seq::<char>::empty()))
    }

    fn write_json(&self, out: &mut String) {
        let mut body = String::new();
        self.push_members(&mut body);
        push_object(out, body.as_str());
    }
}

/// One immutable, causally revisable Context organization fact.
#[derive(Clone, Debug, PartialEq, Eq)]
pub struct ContextSpaceAssociation {
    pub association_id: SpaceAssociationId,
    pub context_id: ContextId,
    pub primary_space_id: SpaceId,
    pub related_space_ids: Vec<SpaceId>,
    pub previous_association_ids: Vec<SpaceAssociationId>,
    pub origin: ContextSpaceAssociationOrigin,
}

/// The model of [`ContextSpaceAssociation`].
pub struct ContextSpaceAssociationView {
    pub association_id: SpaceAssociationId,
    pub context_id: ContextId,
    pub primary_space_id: SpaceId,
    pub related_space_ids: Seq<SpaceId>,
    pub previous_association_ids: Seq<SpaceAssociationId>,
    pub origin: ContextSpaceAssociationOrigin,
}

impl DeepView for ContextSpaceAssociation {
    type V = ContextSpaceAssociationView;

    open spec fn deep_view(&self) -> ContextSpaceAssociationView {
        ContextSpaceAssociationView {
            association_id: self.association_id.deep_view(),
            context_id: self.context_id.deep_view(),
            primary_space_id: self.primary_space_id.deep_view(),
            related_space_ids: self.related_space_ids.deep_view(),
            previous_association_ids: self.previous_association_ids.deep_view(),
            origin: self.origin.deep_view(),
        }
    }
}

impl Value for ContextSpaceAssociation {
    fn copied(&self) -> (copy: Self) {
        ContextSpaceAssociation {
            association_id: self.association_id.copied(),
            context_id: self.context_id.copied(),
            primary_space_id: self.primary_space_id.copied(),
            related_space_ids: self.related_space_ids.copied(),
            previous_association_ids: self.previous_association_ids.copied(),
            origin: self.origin.copied(),
        }
    }

    fn same(&self, other: &Self) -> (equal: bool) {
        self.association_id.same(&other.association_id)
            && self.context_id.same(&other.context_id)
            && self.primary_space_id.same(&other.primary_space_id)
            && self.related_space_ids.same(&other.related_space_ids)
            && self.previous_association_ids.same(&other.previous_association_ids)
            && self.origin.same(&other.origin)
    }
}

impl ContextSpaceAssociationView {
    /// The JSON members, behind those of `body`.
    pub open spec fn json_members(self, body: Seq<char>) -> Seq<char> {
        let body = with_member(body, "association_id"@, <SpaceAssociationId as Json>::json(self.association_id));
        let body = with_member(body, "context_id"@, <ContextId as Json>::json(self.context_id));
        let body = with_member(body, "primary_space_id"@, <SpaceId as Json>::json(self.primary_space_id));
        let body = with_member(body, "related_space_ids"@, <Vec<SpaceId> as Json>::json(self.related_space_ids));
        let body = with_member(
            body,
            "previous_association_ids"@,
            <Vec<SpaceAssociationId> as Json>::json(self.previous_association_ids),
        );
        let body = with_member(body, "origin"@, <ContextSpaceAssociationOrigin as Json>::json(self.origin));
        body
    }
}

impl ContextSpaceAssociation {
    fn push_members(&self, text: &mut String)
        ensures
            final(text)@ == self.deep_view().json_members(old(text)@),
    {
        push_member(text, "association_id", &self.association_id);
        push_member(text, "context_id", &self.context_id);
        push_member(text, "primary_space_id", &self.primary_space_id);
        push_member(text, "related_space_ids", &self.related_space_ids);
        push_member(text, "previous_association_ids", &self.previous_association_ids);
        push_member(text, "origin", &self.origin);
    }
}

impl Json for ContextSpaceAssociation {
    open spec fn json(model: ContextSpaceAssociationView) -> Seq<char> {
        object(model.json_members(Seq::<char>::empty()))
    }

    fn write_json(&self, out: &mut String) {
        let mut body = String::new();
        self.push_members(&mut body);
        push_object(out, body.as_str());
    }
}

impl ContextSpaceAssociationDraftView {
    /// Why an association is invalid, if it is.
    pub open spec fn problem(self) -> Option<ErrorView> {
        first(
            unique_problem(self.related_space_ids, "context_space_association.related_space_ids"@),
            first(
                given(
                    self.related_space_ids.contains(self.primary_space_id),
                    invalid("Context Space Association Related Spaces must not include Primary"@),
                ),
                first(
                    unique_problem(
                        self.previous_association_ids,
                        "context_space_association.previous_association_ids"@,
                    ),
                    match self.origin {
                        ContextSpaceAssociationOrigin::CandidateConfirmation { .. } => given(
                            self.previous_association_ids.len() > 0,
                            invalid("Candidate-origin Context Space Association must be initial"@),
                        ),
                        ContextSpaceAssociationOrigin::Correction => given(
                            self.previous_association_ids.len() == 0,
                            invalid("corrected Context Space Association requires a causal parent"@),
                        ),
                    },
                ),
            ),
        )
    }

    /// The association under an identity.
    pub open spec fn named(self, association_id: SpaceAssociationId) -> ContextSpaceAssociationView {
        ContextSpaceAssociationView {
            association_id,
            context_id: self.context_id,
            primary_space_id: self.primary_space_id,
            related_space_ids: self.related_space_ids,
            previous_association_ids: self.previous_association_ids,
            origin: self.origin,
        }
    }
}

impl ContextSpaceAssociationView {
    /// The association without its identity.
    pub open spec fn draft(self) -> ContextSpaceAssociationDraftView {
        ContextSpaceAssociationDraftView {
            context_id: self.context_id,
            primary_space_id: self.primary_space_id,
            related_space_ids: self.related_space_ids,
            previous_association_ids: self.previous_association_ids,
            origin: self.origin,
        }
    }
}

fn validate_association_parts(
    primary_space_id: SpaceId,
    related_space_ids: &Vec<SpaceId>,
    previous_association_ids: &Vec<SpaceAssociationId>,
    origin: ContextSpaceAssociationOrigin,
) -> (result: Result<()>)
    ensures
        forall|draft: ContextSpaceAssociationDraftView|
            draft.primary_space_id == primary_space_id && draft.related_space_ids == related_space_ids.deep_view()
                && draft.previous_association_ids == previous_association_ids.deep_view() && draft.origin == origin
                ==> fails_as(result, #[trigger] draft.problem()),
{
    require_unique(related_space_ids, "context_space_association.related_space_ids")?;
    if is_among(related_space_ids, &primary_space_id) {
        return Err(invalid_input("Context Space Association Related Spaces must not include Primary"));
    }
    require_unique(previous_association_ids, "context_space_association.previous_association_ids")?;
    match origin {
        ContextSpaceAssociationOrigin::CandidateConfirmation { .. } => {
            if previous_association_ids.len() > 0 {
                return Err(invalid_input("Candidate-origin Context Space Association must be initial"));
            }
        },
        ContextSpaceAssociationOrigin::Correction => {
            if previous_association_ids.len() == 0 {
                return Err(invalid_input("corrected Context Space Association requires a causal parent"));
            }
        },
    }
    Ok(())
}

impl ContextSpaceAssociationDraft {
    fn validate(&self) -> (result: Result<()>)
        ensures
            fails_as(result, self.deep_view().problem()),
    {
        validate_association_parts(
            self.primary_space_id,
            &self.related_space_ids,
            &self.previous_association_ids,
            self.origin,
        )
    }

    /// The association under an identity.
    fn named(self, association_id: SpaceAssociationId) -> (association: ContextSpaceAssociation)
        ensures
            association.deep_view() == self.deep_view().named(association_id),
    {
        ContextSpaceAssociation {
            association_id,
            context_id: self.context_id,
            primary_space_id: self.primary_space_id,
            related_space_ids: self.related_space_ids,
            previous_association_ids: self.previous_association_ids,
            origin: self.origin,
        }
    }
}

impl ContextSpaceAssociation {
    /// Creates an immutable association with a server-owned identity.
    pub fn from_draft(draft: ContextSpaceAssociationDraft) -> (result: Result<Self>)
        ensures
            fails_as(result, draft.deep_view().problem()),
            result is Ok ==> result->Ok_0.association_id.canonical() && result->Ok_0.deep_view()
                == draft.deep_view().named(result->Ok_0.association_id),
    {
        draft.validate()?;
        Ok(draft.named(SpaceAssociationId::new()))
    }

    /// Validates parsed association content.
    pub fn validate(&self) -> (result: Result<()>)
        ensures
            fails_as(result, self.deep_view().draft().problem()),
    {
        validate_association_parts(
            self.primary_space_id,
            &self.related_space_ids,
            &self.previous_association_ids,
            self.origin,
        )
    }
}

/// Exact sibling Events that causally close one Candidate confirmation fact.
#[derive(Clone, Debug, PartialEq, Eq)]
pub struct CandidateConfirmationCausalRefs {
    pub space_created_event_id: Option<EventId>,
    pub context_revision_event_id: EventId,
    pub space_association_event_id: EventId,
    pub publication_event_id: EventId,
    pub engineering_reference_event_ids: Vec<EventId>,
}

/// The model of [`CandidateConfirmationCausalRefs`].
pub struct CandidateConfirmationCausalRefsView {
    pub space_created_event_id: Option<EventId>,
    pub context_revision_event_id: EventId,
    pub space_association_event_id: EventId,
    pub publication_event_id: EventId,
    pub engineering_reference_event_ids: Seq<EventId>,
}

impl DeepView for CandidateConfirmationCausalRefs {
    type V = CandidateConfirmationCausalRefsView;

    open spec fn deep_view(&self) -> CandidateConfirmationCausalRefsView {
        CandidateConfirmationCausalRefsView {
            space_created_event_id: self.space_created_event_id.deep_view(),
            context_revision_event_id: self.context_revision_event_id.deep_view(),
            space_association_event_id: self.space_association_event_id.deep_view(),
            publication_event_id: self.publication_event_id.deep_view(),
            engineering_reference_event_ids: self.engineering_reference_event_ids.deep_view(),
        }
    }
}

impl Value for CandidateConfirmationCausalRefs {
    fn copied(&self) -> (copy: Self) {
        CandidateConfirmationCausalRefs {
            space_created_event_id: self.space_created_event_id.copied(),
            context_revision_event_id: self.context_revision_event_id.copied(),
            space_association_event_id: self.space_association_event_id.copied(),
            publication_event_id: self.publication_event_id.copied(),
            engineering_reference_event_ids: self.engineering_reference_event_ids.copied(),
        }
    }

    fn same(&self, other: &Self) -> (equal: bool) {
        self.space_created_event_id.same(&other.space_created_event_id)
            && self.context_revision_event_id.same(&other.context_revision_event_id)
            && self.space_association_event_id.same(&other.space_association_event_id)
            && self.publication_event_id.same(&other.publication_event_id)
            && self.engineering_reference_event_ids.same(&other.engineering_reference_event_ids)
    }
}

impl CandidateConfirmationCausalRefsView {
    /// The JSON members, behind those of `body`.
    pub open spec fn json_members(self, body: Seq<char>) -> Seq<char> {
        let body = with_member(
            body,
            "space_created_event_id"@,
            <Option<EventId> as Json>::json(self.space_created_event_id),
        );
        let body = with_member(
            body,
            "context_revision_event_id"@,
            <EventId as Json>::json(self.context_revision_event_id),
        );
        let body = with_member(
            body,
            "space_association_event_id"@,
            <EventId as Json>::json(self.space_association_event_id),
        );
        let body = with_member(body, "publication_event_id"@, <EventId as Json>::json(self.publication_event_id));
        let body = with_member_if(
            body,
            self.engineering_reference_event_ids.len() > 0,
            "engineering_reference_event_ids"@,
            <Vec<EventId> as Json>::json(self.engineering_reference_event_ids),
        );
        body
    }
}

impl CandidateConfirmationCausalRefs {
    fn push_members(&self, text: &mut String)
        ensures
            final(text)@ == self.deep_view().json_members(old(text)@),
    {
        push_member(text, "space_created_event_id", &self.space_created_event_id);
        push_member(text, "context_revision_event_id", &self.context_revision_event_id);
        push_member(text, "space_association_event_id", &self.space_association_event_id);
        push_member(text, "publication_event_id", &self.publication_event_id);
        if self.engineering_reference_event_ids.len() > 0 {
            push_member(text, "engineering_reference_event_ids", &self.engineering_reference_event_ids);
        }
    }
}

impl Json for CandidateConfirmationCausalRefs {
    open spec fn json(model: CandidateConfirmationCausalRefsView) -> Seq<char> {
        object(model.json_members(Seq::<char>::empty()))
    }

    fn write_json(&self, out: &mut String) {
        let mut body = String::new();
        self.push_members(&mut body);
        push_object(out, body.as_str());
    }
}

/// One optional Event as a list.
pub open spec fn optional_event(event: Option<EventId>) -> Seq<EventId> {
    match event {
        Some(id) => seq![id],
        None => Seq::empty(),
    }
}

impl CandidateConfirmationCausalRefsView {
    /// All the Events.
    pub open spec fn events(self) -> Seq<EventId> {
        seq![self.context_revision_event_id, self.space_association_event_id, self.publication_event_id]
            + optional_event(self.space_created_event_id) + self.engineering_reference_event_ids
    }

    /// Why causal references are invalid, if they are.
    pub open spec fn problem(self) -> Option<ErrorView> {
        unique_problem(self.events(), "candidate_confirmation.causal_refs"@)
    }
}

fn push_all<T: Copy + DeepView>(values: &mut Vec<T>, more: &Vec<T>)
    ensures
        final(values)@ == old(values)@ + more@,
        final(values).deep_view() == old(values).deep_view() + more.deep_view(),
{
    let mut index: usize = 0;
    while index < more.len()
        invariant
            index <= more@.len(),
            values@ == old(values)@ + more@.take(index as int),
        decreases more@.len() - index,
    {
        values.push(more[index]);
        proof {
            take_next(more@, index as int);
        }
        index = index + 1;
    }
    proof {
        take_all(more@);
        assert(values.deep_view() =~= old(values).deep_view() + more.deep_view());
    }
}

impl CandidateConfirmationCausalRefs {
    fn validate(&self) -> (result: Result<()>)
        ensures
            fails_as(result, self.deep_view().problem()),
    {
        let mut ids: Vec<EventId> = Vec::new();
        push_value(&mut ids, self.context_revision_event_id);
        push_value(&mut ids, self.space_association_event_id);
        push_value(&mut ids, self.publication_event_id);
        if let Some(space_created_event_id) = self.space_created_event_id {
            push_value(&mut ids, space_created_event_id);
        }
        push_all(&mut ids, &self.engineering_reference_event_ids);
        assert(ids.deep_view() =~= self.deep_view().events());
        require_unique(&ids, "candidate_confirmation.causal_refs")
    }
}

/// Complete confirmation fact before the server assigns `ConfirmationId`.
#[derive(Clone, Debug, PartialEq, Eq)]
pub struct CandidateConfirmationDraft {
    pub candidate_id: CandidateId,
    pub submission_id: SubmissionId,
    pub source_episode: WorkEpisodeRef,
    pub result_context_id: ContextId,
    pub result_revision_id: RevisionId,
    pub primary_space_id: SpaceId,
    pub related_space_ids: Vec<SpaceId>,
    pub space_association_id: SpaceAssociationId,
    pub publication_id: PublicationId,
    pub created_space_id: Option<SpaceId>,
    pub edits: OptionalCandidateEdits,
    pub final_content_hash: String,
    pub causal_refs: CandidateConfirmationCausalRefs,
}

/// The model of [`CandidateConfirmationDraft`].
pub struct CandidateConfirmationDraftView {
    pub candidate_id: CandidateId,
    pub submission_id: SubmissionId,
    pub source_episode: WorkEpisodeRef,
    pub result_context_id: ContextId,
    pub result_revision_id: RevisionId,
    pub primary_space_id: SpaceId,
    pub related_space_ids: Seq<SpaceId>,
    pub space_association_id: SpaceAssociationId,
    pub publication_id: PublicationId,
    pub created_space_id: Option<SpaceId>,
    pub edits: OptionalCandidateEditsView,
    pub final_content_hash: Seq<char>,
    pub causal_refs: CandidateConfirmationCausalRefsView,
}

impl DeepView for CandidateConfirmationDraft {
    type V = CandidateConfirmationDraftView;

    open spec fn deep_view(&self) -> CandidateConfirmationDraftView {
        CandidateConfirmationDraftView {
            candidate_id: self.candidate_id.deep_view(),
            submission_id: self.submission_id.deep_view(),
            source_episode: self.source_episode.deep_view(),
            result_context_id: self.result_context_id.deep_view(),
            result_revision_id: self.result_revision_id.deep_view(),
            primary_space_id: self.primary_space_id.deep_view(),
            related_space_ids: self.related_space_ids.deep_view(),
            space_association_id: self.space_association_id.deep_view(),
            publication_id: self.publication_id.deep_view(),
            created_space_id: self.created_space_id.deep_view(),
            edits: self.edits.deep_view(),
            final_content_hash: self.final_content_hash.deep_view(),
            causal_refs: self.causal_refs.deep_view(),
        }
    }
}

impl Value for CandidateConfirmationDraft {
    fn copied(&self) -> (copy: Self) {
        CandidateConfirmationDraft {
            candidate_id: self.candidate_id.copied(),
            submission_id: self.submission_id.copied(),
            source_episode: self.source_episode.copied(),
            result_context_id: self.result_context_id.copied(),
            result_revision_id: self.result_revision_id.copied(),
            primary_space_id: self.primary_space_id.copied(),
            related_space_ids: self.related_space_ids.copied(),
            space_association_id: self.space_association_id.copied(),
            publication_id: self.publication_id.copied(),
            created_space_id: self.created_space_id.copied(),
            edits: self.edits.copied(),
            final_content_hash: self.final_content_hash.copied(),
            causal_refs: self.causal_refs.copied(),
        }
    }

    fn same(&self, other: &Self) -> (equal: bool) {
        self.candidate_id.same(&other.candidate_id)
            && self.submission_id.same(&other.submission_id)
            && self.source_episode.same(&other.source_episode)
            && self.result_context_id.same(&other.result_context_id)
            && self.result_revision_id.same(&other.result_revision_id)
            && self.primary_space_id.same(&other.primary_space_id)
            && self.related_space_ids.same(&other.related_space_ids)
            && self.space_association_id.same(&other.space_association_id)
            && self.publication_id.same(&other.publication_id)
            && self.created_space_id.same(&other.created_space_id)
            && self.edits.same(&other.edits)
            && self.final_content_hash.same(&other.final_content_hash)
            && self.causal_refs.same(&other.causal_refs)
    }
}

impl CandidateConfirmationDraftView {
    /// The JSON members, behind those of `body`.
    pub open spec fn json_members(self, body: Seq<char>) -> Seq<char> {
        let body = with_member(body, "candidate_id"@, <CandidateId as Json>::json(self.candidate_id));
        let body = with_member(body, "submission_id"@, <SubmissionId as Json>::json(self.submission_id));
        let body = with_member(body, "source_episode"@, <WorkEpisodeRef as Json>::json(self.source_episode));
        let body = with_member(body, "result_context_id"@, <ContextId as Json>::json(self.result_context_id));
        let body = with_member(body, "result_revision_id"@, <RevisionId as Json>::json(self.result_revision_id));
        let body = with_member(body, "primary_space_id"@, <SpaceId as Json>::json(self.primary_space_id));
        let body = with_member(body, "related_space_ids"@, <Vec<SpaceId> as Json>::json(self.related_space_ids));
        let body = with_member(
            body,
            "space_association_id"@,
            <SpaceAssociationId as Json>::json(self.space_association_id),
        );
        let body = with_member(body, "publication_id"@, <PublicationId as Json>::json(self.publication_id));
        let body = with_member(body, "created_space_id"@, <Option<SpaceId> as Json>::json(self.created_space_id));
        let body = with_member(body, "edits"@, <OptionalCandidateEdits as Json>::json(self.edits));
        let body = with_member(body, "final_content_hash"@, <String as Json>::json(self.final_content_hash));
        let body = with_member(
            body,
            "causal_refs"@,
            <CandidateConfirmationCausalRefs as Json>::json(self.causal_refs),
        );
        body
    }
}

impl CandidateConfirmationDraft {
    fn push_members(&self, text: &mut String)
        ensures
            final(text)@ == self.deep_view().json_members(old(text)@),
    {
        push_member(text, "candidate_id", &self.candidate_id);
        push_member(text, "submission_id", &self.submission_id);
        push_member(text, "source_episode", &self.source_episode);
        push_member(text, "result_context_id", &self.result_context_id);
        push_member(text, "result_revision_id", &self.result_revision_id);
        push_member(text, "primary_space_id", &self.primary_space_id);
        push_member(text, "related_space_ids", &self.related_space_ids);
        push_member(text, "space_association_id", &self.space_association_id);
        push_member(text, "publication_id", &self.publication_id);
        push_member(text, "created_space_id", &self.created_space_id);
        push_member(text, "edits", &self.edits);
        push_member(text, "final_content_hash", &self.final_content_hash);
        push_member(text, "causal_refs", &self.causal_refs);
    }
}

impl Json for CandidateConfirmationDraft {
    open spec fn json(model: CandidateConfirmationDraftView) -> Seq<char> {
        object(model.json_members(Seq::<char>::empty()))
    }

    fn write_json(&self, out: &mut String) {
        let mut body = String::new();
        self.push_members(&mut body);
        push_object(out, body.as_str());
    }
}

/// Immutable fact that one Candidate became one accepted Context revision.
#[derive(Clone, Debug, PartialEq, Eq)]
pub struct CandidateConfirmation {
    pub confirmation_id: ConfirmationId,
    pub candidate_id: CandidateId,
    pub submission_id: SubmissionId,
    pub source_episode: WorkEpisodeRef,
    pub result_context_id: ContextId,
    pub result_revision_id: RevisionId,
    pub primary_space_id: SpaceId,
    pub related_space_ids: Vec<SpaceId>,
    pub space_association_id: SpaceAssociationId,
    pub publication_id: PublicationId,
    pub created_space_id: Option<SpaceId>,
    pub edits: OptionalCandidateEdits,
    pub final_content_hash: String,
    pub causal_refs: CandidateConfirmationCausalRefs,
}

/// The model of [`CandidateConfirmation`].
pub struct CandidateConfirmationView {
    pub confirmation_id: ConfirmationId,
    pub candidate_id: CandidateId,
    pub submission_id: SubmissionId,
    pub source_episode: WorkEpisodeRef,
    pub result_context_id: ContextId,
    pub result_revision_id: RevisionId,
    pub primary_space_id: SpaceId,
    pub related_space_ids: Seq<SpaceId>,
    pub space_association_id: SpaceAssociationId,
    pub publication_id: PublicationId,
    pub created_space_id: Option<SpaceId>,
    pub edits: OptionalCandidateEditsView,
    pub final_content_hash: Seq<char>,
    pub causal_refs: CandidateConfirmationCausalRefsView,
}

impl DeepView for CandidateConfirmation {
    type V = CandidateConfirmationView;

    open spec fn deep_view(&self) -> CandidateConfirmationView {
        CandidateConfirmationView {
            confirmation_id: self.confirmation_id.deep_view(),
            candidate_id: self.candidate_id.deep_view(),
            submission_id: self.submission_id.deep_view(),
            source_episode: self.source_episode.deep_view(),
            result_context_id: self.result_context_id.deep_view(),
            result_revision_id: self.result_revision_id.deep_view(),
            primary_space_id: self.primary_space_id.deep_view(),
            related_space_ids: self.related_space_ids.deep_view(),
            space_association_id: self.space_association_id.deep_view(),
            publication_id: self.publication_id.deep_view(),
            created_space_id: self.created_space_id.deep_view(),
            edits: self.edits.deep_view(),
            final_content_hash: self.final_content_hash.deep_view(),
            causal_refs: self.causal_refs.deep_view(),
        }
    }
}

impl Value for CandidateConfirmation {
    fn copied(&self) -> (copy: Self) {
        CandidateConfirmation {
            confirmation_id: self.confirmation_id.copied(),
            candidate_id: self.candidate_id.copied(),
            submission_id: self.submission_id.copied(),
            source_episode: self.source_episode.copied(),
            result_context_id: self.result_context_id.copied(),
            result_revision_id: self.result_revision_id.copied(),
            primary_space_id: self.primary_space_id.copied(),
            related_space_ids: self.related_space_ids.copied(),
            space_association_id: self.space_association_id.copied(),
            publication_id: self.publication_id.copied(),
            created_space_id: self.created_space_id.copied(),
            edits: self.edits.copied(),
            final_content_hash: self.final_content_hash.copied(),
            causal_refs: self.causal_refs.copied(),
        }
    }

    fn same(&self, other: &Self) -> (equal: bool) {
        self.confirmation_id.same(&other.confirmation_id)
            && self.candidate_id.same(&other.candidate_id)
            && self.submission_id.same(&other.submission_id)
            && self.source_episode.same(&other.source_episode)
            && self.result_context_id.same(&other.result_context_id)
            && self.result_revision_id.same(&other.result_revision_id)
            && self.primary_space_id.same(&other.primary_space_id)
            && self.related_space_ids.same(&other.related_space_ids)
            && self.space_association_id.same(&other.space_association_id)
            && self.publication_id.same(&other.publication_id)
            && self.created_space_id.same(&other.created_space_id)
            && self.edits.same(&other.edits)
            && self.final_content_hash.same(&other.final_content_hash)
            && self.causal_refs.same(&other.causal_refs)
    }
}

impl CandidateConfirmationView {
    /// The JSON members, behind those of `body`.
    pub open spec fn json_members(self, body: Seq<char>) -> Seq<char> {
        let body = with_member(body, "confirmation_id"@, <ConfirmationId as Json>::json(self.confirmation_id));
        let body = with_member(body, "candidate_id"@, <CandidateId as Json>::json(self.candidate_id));
        let body = with_member(body, "submission_id"@, <SubmissionId as Json>::json(self.submission_id));
        let body = with_member(body, "source_episode"@, <WorkEpisodeRef as Json>::json(self.source_episode));
        let body = with_member(body, "result_context_id"@, <ContextId as Json>::json(self.result_context_id));
        let body = with_member(body, "result_revision_id"@, <RevisionId as Json>::json(self.result_revision_id));
        let body = with_member(body, "primary_space_id"@, <SpaceId as Json>::json(self.primary_space_id));
        let body = with_member(body, "related_space_ids"@, <Vec<SpaceId> as Json>::json(self.related_space_ids));
        let body = with_member(
            body,
            "space_association_id"@,
            <SpaceAssociationId as Json>::json(self.space_association_id),
        );
        let body = with_member(body, "publication_id"@, <PublicationId as Json>::json(self.publication_id));
        let body = with_member(body, "created_space_id"@, <Option<SpaceId> as Json>::json(self.created_space_id));
        let body = with_member(body, "edits"@, <OptionalCandidateEdits as Json>::json(self.edits));
        let body = with_member(body, "final_content_hash"@, <String as Json>::json(self.final_content_hash));
        let body = with_member(
            body,
            "causal_refs"@,
            <CandidateConfirmationCausalRefs as Json>::json(self.causal_refs),
        );
        body
    }
}

impl CandidateConfirmation {
    fn push_members(&self, text: &mut String)
        ensures
            final(text)@ == self.deep_view().json_members(old(text)@),
    {
        push_member(text, "confirmation_id", &self.confirmation_id);
        push_member(text, "candidate_id", &self.candidate_id);
        push_member(text, "submission_id", &self.submission_id);
        push_member(text, "source_episode", &self.source_episode);
        push_member(text, "result_context_id", &self.result_context_id);
        push_member(text, "result_revision_id", &self.result_revision_id);
        push_member(text, "primary_space_id", &self.primary_space_id);
        push_member(text, "related_space_ids", &self.related_space_ids);
        push_member(text, "space_association_id", &self.space_association_id);
        push_member(text, "publication_id", &self.publication_id);
        push_member(text, "created_space_id", &self.created_space_id);
        push_member(text, "edits", &self.edits);
        push_member(text, "final_content_hash", &self.final_content_hash);
        push_member(text, "causal_refs", &self.causal_refs);
    }
}

impl Json for CandidateConfirmation {
    open spec fn json(model: CandidateConfirmationView) -> Seq<char> {
        object(model.json_members(Seq::<char>::empty()))
    }

    fn write_json(&self, out: &mut String) {
        let mut body = String::new();
        self.push_members(&mut body);
        push_object(out, body.as_str());
    }
}

/// A hexadecimal digit, in either case.
pub open spec fn is_hex_digit(character: char) -> bool {
    is_digit(character) || 65 <= character as u32 <= 70 || 97 <= character as u32 <= 102
}

/// A `sha256:` hash: the prefix, then 64 hexadecimal digits.
pub open spec fn is_content_hash(value: Seq<char>) -> bool {
    begins_with(value, "sha256:"@) && value.skip("sha256:"@.len() as int).len() == 64 && forall|i: int|
        0 <= i < 64 ==> is_hex_digit(#[trigger] value.skip("sha256:"@.len() as int)[i])
}

fn valid_content_hash(value: &str) -> (valid: bool)
    ensures
        valid == is_content_hash(value@),
{
    let rest = match without_prefix(value, "sha256:") {
        Some(rest) => rest,
        None => {
            return false;
        },
    };
    let digits = characters(rest.as_str());
    if digits.len() != 64 {
        return false;
    }
    let mut index: usize = 0;
    while index < digits.len()
        invariant
            index <= digits@.len() == 64,
            digits@ == value@.skip("sha256:"@.len() as int),
            forall|i: int| 0 <= i < index ==> is_hex_digit(#[trigger] digits@[i]),
        decreases digits@.len() - index,
    {
        let code: u32 = digits[index] as u32;
        if !(digit(digits[index]) || 65 <= code && code <= 70 || 97 <= code && code <= 102) {
            assert(!is_hex_digit(digits@[index as int]));
            return false;
        }
        index = index + 1;
    }
    true
}

/// Hashes made by this crate are canonical.
pub proof fn text_hashes_are_content_hashes(encoded: Seq<char>)
    ensures
        is_content_hash(text_hash(encoded)),
{
    let value = text_hash(encoded);
    prefixed_digests_have_one_form("sha256:"@, vstd::utf8::encode_utf8(encoded));
    let digits = value.skip("sha256:"@.len() as int);
    assert forall|i: int| 0 <= i < 64 implies is_hex_digit(#[trigger] digits[i]) by {
        assert(crate::digest::is_lower_hex(digits[i]));
    }
}

impl CandidateConfirmationDraftView {
    /// Why a confirmation is invalid, if it is.
    pub open spec fn problem(self) -> Option<ErrorView> {
        first(
            unique_problem(self.related_space_ids, "candidate_confirmation.related_space_ids"@),
            first(
                given(
                    self.related_space_ids.contains(self.primary_space_id),
                    invalid("Candidate Confirmation Related Spaces must not include Primary"@),
                ),
                first(
                    given(
                        !match (self.created_space_id, self.causal_refs.space_created_event_id) {
                            (Some(created), Some(_)) => created == self.primary_space_id,
                            (None, None) => true,
                            _ => false,
                        },
                        invalid(
                            "Candidate Confirmation created Space and causal Event must both identify new Primary"@,
                        ),
                    ),
                    first(
                        given(
                            !is_content_hash(self.final_content_hash),
                            invalid("Candidate Confirmation final content hash must be canonical sha256"@),
                        ),
                        self.causal_refs.problem(),
                    ),
                ),
            ),
        )
    }

    /// The confirmation under an identity.
    pub open spec fn named(self, confirmation_id: ConfirmationId) -> CandidateConfirmationView {
        CandidateConfirmationView {
            confirmation_id,
            candidate_id: self.candidate_id,
            submission_id: self.submission_id,
            source_episode: self.source_episode,
            result_context_id: self.result_context_id,
            result_revision_id: self.result_revision_id,
            primary_space_id: self.primary_space_id,
            related_space_ids: self.related_space_ids,
            space_association_id: self.space_association_id,
            publication_id: self.publication_id,
            created_space_id: self.created_space_id,
            edits: self.edits,
            final_content_hash: self.final_content_hash,
            causal_refs: self.causal_refs,
        }
    }
}

impl CandidateConfirmationView {
    /// The confirmation without its identity.
    pub open spec fn draft(self) -> CandidateConfirmationDraftView {
        CandidateConfirmationDraftView {
            candidate_id: self.candidate_id,
            submission_id: self.submission_id,
            source_episode: self.source_episode,
            result_context_id: self.result_context_id,
            result_revision_id: self.result_revision_id,
            primary_space_id: self.primary_space_id,
            related_space_ids: self.related_space_ids,
            space_association_id: self.space_association_id,
            publication_id: self.publication_id,
            created_space_id: self.created_space_id,
            edits: self.edits,
            final_content_hash: self.final_content_hash,
            causal_refs: self.causal_refs,
        }
    }
}

fn validate_confirmation_parts(
    primary_space_id: SpaceId,
    related_space_ids: &Vec<SpaceId>,
    created_space_id: Option<SpaceId>,
    final_content_hash: &str,
    causal_refs: &CandidateConfirmationCausalRefs,
) -> (result: Result<()>)
    ensures
        forall|draft: CandidateConfirmationDraftView|
            draft.primary_space_id == primary_space_id && draft.related_space_ids == related_space_ids.deep_view()
                && draft.created_space_id == created_space_id && draft.final_content_hash == final_content_hash@
                && draft.causal_refs == causal_refs.deep_view() ==> fails_as(result, #[trigger] draft.problem()),
{
    require_unique(related_space_ids, "candidate_confirmation.related_space_ids")?;
    if is_among(related_space_ids, &primary_space_id) {
        return Err(invalid_input("Candidate Confirmation Related Spaces must not include Primary"));
    }
    let consistent = match (created_space_id, causal_refs.space_created_event_id) {
        (Some(created), Some(_)) => created == primary_space_id,
        (None, None) => true,
        _ => false,
    };
    if !consistent {
        return Err(
            invalid_input("Candidate Confirmation created Space and causal Event must both identify new Primary"),
        );
    }
    if !valid_content_hash(final_content_hash) {
        return Err(invalid_input("Candidate Confirmation final content hash must be canonical sha256"));
    }
    causal_refs.validate()
}

impl CandidateConfirmationDraft {
    fn validate(&self) -> (result: Result<()>)
        ensures
            fails_as(result, self.deep_view().problem()),
    {
        validate_confirmation_parts(
            self.primary_space_id,
            &self.related_space_ids,
            self.created_space_id,
            self.final_content_hash.as_str(),
            &self.causal_refs,
        )
    }

    /// The confirmation under an identity.
    fn named(self, confirmation_id: ConfirmationId) -> (confirmation: CandidateConfirmation)
        ensures
            confirmation.deep_view() == self.deep_view().named(confirmation_id),
    {
        CandidateConfirmation {
            confirmation_id,
            candidate_id: self.candidate_id,
            submission_id: self.submission_id,
            source_episode: self.source_episode,
            result_context_id: self.result_context_id,
            result_revision_id: self.result_revision_id,
            primary_space_id: self.primary_space_id,
            related_space_ids: self.related_space_ids,
            space_association_id: self.space_association_id,
            publication_id: self.publication_id,
            created_space_id: self.created_space_id,
            edits: self.edits,
            final_content_hash: self.final_content_hash,
            causal_refs: self.causal_refs,
        }
    }
}

impl CandidateConfirmation {
    /// Creates a Confirmation with a server-owned identity.
    pub fn from_draft(draft: CandidateConfirmationDraft) -> (result: Result<Self>)
        ensures
            fails_as(result, draft.deep_view().problem()),
            result is Ok ==> result->Ok_0.confirmation_id.canonical() && result->Ok_0.deep_view()
                == draft.deep_view().named(result->Ok_0.confirmation_id),
    {
        draft.validate()?;
        Ok(draft.named(ConfirmationId::new()))
    }

    /// Validates parsed Confirmation content without resolving cross-Event facts.
    pub fn validate(&self) -> (result: Result<()>)
        ensures
            fails_as(result, self.deep_view().draft().problem()),
    {
        validate_confirmation_parts(
            self.primary_space_id,
            &self.related_space_ids,
            self.created_space_id,
            self.final_content_hash.as_str(),
            &self.causal_refs,
        )
    }
}

/// Server-owned Event identities for one atomic Confirmation fact closure.
#[derive(Clone, Debug, PartialEq, Eq)]
pub struct CandidateConfirmationPlanEventIds {
    pub space_created_event_id: Option<EventId>,
    pub context_revision_event_id: EventId,
    pub space_association_event_id: EventId,
    pub publication_event_id: EventId,
    pub engineering_reference_event_ids: Vec<EventId>,
    /// One Event identity per automatically opened `SemanticConflict`, in plan order.
    pub semantic_conflict_event_ids: Vec<EventId>,
    pub confirmation_event_id: EventId,
}

/// The model of [`CandidateConfirmationPlanEventIds`].
pub struct CandidateConfirmationPlanEventIdsView {
    pub space_created_event_id: Option<EventId>,
    pub context_revision_event_id: EventId,
    pub space_association_event_id: EventId,
    pub publication_event_id: EventId,
    pub engineering_reference_event_ids: Seq<EventId>,
    pub semantic_conflict_event_ids: Seq<EventId>,
    pub confirmation_event_id: EventId,
}

impl DeepView for CandidateConfirmationPlanEventIds {
    type V = CandidateConfirmationPlanEventIdsView;

    open spec fn deep_view(&self) -> CandidateConfirmationPlanEventIdsView {
        CandidateConfirmationPlanEventIdsView {
            space_created_event_id: self.space_created_event_id.deep_view(),
            context_revision_event_id: self.context_revision_event_id.deep_view(),
            space_association_event_id: self.space_association_event_id.deep_view(),
            publication_event_id: self.publication_event_id.deep_view(),
            engineering_reference_event_ids: self.engineering_reference_event_ids.deep_view(),
            semantic_conflict_event_ids: self.semantic_conflict_event_ids.deep_view(),
            confirmation_event_id: self.confirmation_event_id.deep_view(),
        }
    }
}

impl Value for CandidateConfirmationPlanEventIds {
    fn copied(&self) -> (copy: Self) {
        CandidateConfirmationPlanEventIds {
            space_created_event_id: self.space_created_event_id.copied(),
            context_revision_event_id: self.context_revision_event_id.copied(),
            space_association_event_id: self.space_association_event_id.copied(),
            publication_event_id: self.publication_event_id.copied(),
            engineering_reference_event_ids: self.engineering_reference_event_ids.copied(),
            semantic_conflict_event_ids: self.semantic_conflict_event_ids.copied(),
            confirmation_event_id: self.confirmation_event_id.copied(),
        }
    }

    fn same(&self, other: &Self) -> (equal: bool) {
        self.space_created_event_id.same(&other.space_created_event_id)
            && self.context_revision_event_id.same(&other.context_revision_event_id)
            && self.space_association_event_id.same(&other.space_association_event_id)
            && self.publication_event_id.same(&other.publication_event_id)
            && self.engineering_reference_event_ids.same(&other.engineering_reference_event_ids)
            && self.semantic_conflict_event_ids.same(&other.semantic_conflict_event_ids)
            && self.confirmation_event_id.same(&other.confirmation_event_id)
    }
}

impl CandidateConfirmationPlanEventIdsView {
    /// The JSON members, behind those of `body`.
    pub open spec fn json_members(self, body: Seq<char>) -> Seq<char> {
        let body = with_member(
            body,
            "space_created_event_id"@,
            <Option<EventId> as Json>::json(self.space_created_event_id),
        );
        let body = with_member(
            body,
            "context_revision_event_id"@,
            <EventId as Json>::json(self.context_revision_event_id),
        );
        let body = with_member(
            body,
            "space_association_event_id"@,
            <EventId as Json>::json(self.space_association_event_id),
        );
        let body = with_member(body, "publication_event_id"@, <EventId as Json>::json(self.publication_event_id));
        let body = with_member_if(
            body,
            self.engineering_reference_event_ids.len() > 0,
            "engineering_reference_event_ids"@,
            <Vec<EventId> as Json>::json(self.engineering_reference_event_ids),
        );
        let body = with_member_if(
            body,
            self.semantic_conflict_event_ids.len() > 0,
            "semantic_conflict_event_ids"@,
            <Vec<EventId> as Json>::json(self.semantic_conflict_event_ids),
        );
        let body = with_member(body, "confirmation_event_id"@, <EventId as Json>::json(self.confirmation_event_id));
        body
    }
}

impl CandidateConfirmationPlanEventIds {
    fn push_members(&self, text: &mut String)
        ensures
            final(text)@ == self.deep_view().json_members(old(text)@),
    {
        push_member(text, "space_created_event_id", &self.space_created_event_id);
        push_member(text, "context_revision_event_id", &self.context_revision_event_id);
        push_member(text, "space_association_event_id", &self.space_association_event_id);
        push_member(text, "publication_event_id", &self.publication_event_id);
        if self.engineering_reference_event_ids.len() > 0 {
            push_member(text, "engineering_reference_event_ids", &self.engineering_reference_event_ids);
        }
        if self.semantic_conflict_event_ids.len() > 0 {
            push_member(text, "semantic_conflict_event_ids", &self.semantic_conflict_event_ids);
        }
        push_member(text, "confirmation_event_id", &self.confirmation_event_id);
    }
}

impl Json for CandidateConfirmationPlanEventIds {
    open spec fn json(model: CandidateConfirmationPlanEventIdsView) -> Seq<char> {
        object(model.json_members(Seq::<char>::empty()))
    }

    fn write_json(&self, out: &mut String) {
        let mut body = String::new();
        self.push_members(&mut body);
        push_object(out, body.as_str());
    }
}

impl CandidateConfirmationPlanEventIdsView {
    /// All the Events of a plan.
    pub open spec fn events(self) -> Seq<EventId> {
        seq![
            self.context_revision_event_id,
            self.space_association_event_id,
            self.publication_event_id,
            self.confirmation_event_id,
        ] + optional_event(self.space_created_event_id) + self.engineering_reference_event_ids
            + self.semantic_conflict_event_ids
    }
}

/// Other accepted side of a semantic conflict this Confirmation must open.
///
/// The confirming revision is not named here: it does not exist until
/// [`CandidateConfirmationPlan::reserve`] generates it, and naming it twice would let a caller
/// disagree with the reserved plan.
#[derive(Clone, Debug, PartialEq, Eq)]
pub struct SemanticConflictOpeningDraft {
    pub target: ConflictParticipant,
    pub reason: String,
}

/// The model of [`SemanticConflictOpeningDraft`].
pub struct SemanticConflictOpeningDraftView {
    pub target: ConflictParticipantView,
    pub reason: Seq<char>,
}

impl DeepView for SemanticConflictOpeningDraft {
    type V = SemanticConflictOpeningDraftView;

    open spec fn deep_view(&self) -> SemanticConflictOpeningDraftView {
        SemanticConflictOpeningDraftView {
            target: self.target.deep_view(),
            reason: self.reason.deep_view(),
        }
    }
}

impl Value for SemanticConflictOpeningDraft {
    fn copied(&self) -> (copy: Self) {
        SemanticConflictOpeningDraft {
            target: self.target.copied(),
            reason: self.reason.copied(),
        }
    }

    fn same(&self, other: &Self) -> (equal: bool) {
        self.target.same(&other.target)
            && self.reason.same(&other.reason)
    }
}

impl SemanticConflictOpeningDraftView {
    /// The JSON members, behind those of `body`.
    pub open spec fn json_members(self, body: Seq<char>) -> Seq<char> {
        let body = with_member(body, "target"@, <ConflictParticipant as Json>::json(self.target));
        let body = with_member(body, "reason"@, <String as Json>::json(self.reason));
        body
    }
}

impl SemanticConflictOpeningDraft {
    fn push_members(&self, text: &mut String)
        ensures
            final(text)@ == self.deep_view().json_members(old(text)@),
    {
        push_member(text, "target", &self.target);
        push_member(text, "reason", &self.reason);
    }
}

impl Json for SemanticConflictOpeningDraft {
    open spec fn json(model: SemanticConflictOpeningDraftView) -> Seq<char> {
        object(model.json_members(Seq::<char>::empty()))
    }

    fn write_json(&self, out: &mut String) {
        let mut body = String::new();
        self.push_members(&mut body);
        push_object(out, body.as_str());
    }
}

/// One `SemanticConflict` reserved inside a Confirmation plan and written in the same batch.
#[derive(Clone, Debug, PartialEq, Eq)]
pub struct SemanticConflictOpening {
    pub space_id: SpaceId,
    pub conflict: SemanticConflict,
}

/// The model of [`SemanticConflictOpening`].
pub struct SemanticConflictOpeningView {
    pub space_id: SpaceId,
    pub conflict: SemanticConflictView,
}

impl DeepView for SemanticConflictOpening {
    type V = SemanticConflictOpeningView;

    open spec fn deep_view(&self) -> SemanticConflictOpeningView {
        SemanticConflictOpeningView {
            space_id: self.space_id.deep_view(),
            conflict: self.conflict.deep_view(),
        }
    }
}

impl Value for SemanticConflictOpening {
    fn copied(&self) -> (copy: Self) {
        SemanticConflictOpening {
            space_id: self.space_id.copied(),
            conflict: self.conflict.copied(),
        }
    }

    fn same(&self, other: &Self) -> (equal: bool) {
        self.space_id.same(&other.space_id)
            && self.conflict.same(&other.conflict)
    }
}

impl SemanticConflictOpeningView {
    /// The JSON members, behind those of `body`.
    pub open spec fn json_members(self, body: Seq<char>) -> Seq<char> {
        let body = with_member(body, "space_id"@, <SpaceId as Json>::json(self.space_id));
        let body = with_member(body, "conflict"@, <SemanticConflict as Json>::json(self.conflict));
        body
    }
}

impl SemanticConflictOpening {
    fn push_members(&self, text: &mut String)
        ensures
            final(text)@ == self.deep_view().json_members(old(text)@),
    {
        push_member(text, "space_id", &self.space_id);
        push_member(text, "conflict", &self.conflict);
    }
}

impl Json for SemanticConflictOpening {
    open spec fn json(model: SemanticConflictOpeningView) -> Seq<char> {
        object(model.json_members(Seq::<char>::empty()))
    }

    fn write_json(&self, out: &mut String) {
        let mut body = String::new();
        self.push_members(&mut body);
        push_object(out, body.as_str());
    }
}

/// Server-owned new Space fact reserved inside one Confirmation plan.
#[derive(Clone, Debug, PartialEq, Eq)]
pub struct CandidateConfirmationNewSpace {
    pub space_id: SpaceId,
    pub intent_revision: IntentRevision,
}

/// The model of [`CandidateConfirmationNewSpace`].
pub struct CandidateConfirmationNewSpaceView {
    pub space_id: SpaceId,
    pub intent_revision: IntentRevisionView,
}

impl DeepView for CandidateConfirmationNewSpace {
    type V = CandidateConfirmationNewSpaceView;

    open spec fn deep_view(&self) -> CandidateConfirmationNewSpaceView {
        CandidateConfirmationNewSpaceView {
            space_id: self.space_id.deep_view(),
            intent_revision: self.intent_revision.deep_view(),
        }
    }
}

impl Value for CandidateConfirmationNewSpace {
    fn copied(&self) -> (copy: Self) {
        CandidateConfirmationNewSpace {
            space_id: self.space_id.copied(),
            intent_revision: self.intent_revision.copied(),
        }
    }

    fn same(&self, other: &Self) -> (equal: bool) {
        self.space_id.same(&other.space_id)
            && self.intent_revision.same(&other.intent_revision)
    }
}

impl CandidateConfirmationNewSpaceView {
    /// The JSON members, behind those of `body`.
    pub open spec fn json_members(self, body: Seq<char>) -> Seq<char> {
        let body = with_member(body, "space_id"@, <SpaceId as Json>::json(self.space_id));
        let body = with_member(body, "intent_revision"@, <IntentRevision as Json>::json(self.intent_revision));
        body
    }
}

impl CandidateConfirmationNewSpace {
    fn push_members(&self, text: &mut String)
        ensures
            final(text)@ == self.deep_view().json_members(old(text)@),
    {
        push_member(text, "space_id", &self.space_id);
        push_member(text, "intent_revision", &self.intent_revision);
    }
}

impl Json for CandidateConfirmationNewSpace {
    open spec fn json(model: CandidateConfirmationNewSpaceView) -> Seq<char> {
        object(model.json_members(Seq::<char>::empty()))
    }

    fn write_json(&self, out: &mut String) {
        let mut body = String::new();
        self.push_members(&mut body);
        push_object(out, body.as_str());
    }
}

/// Complete stable fact closure reserved before one atomic Git confirmation write.
#[derive(Clone, Debug, PartialEq, Eq)]
pub struct CandidateConfirmationPlan {
    pub operation: CandidateConfirmationOperation,
    pub operation_hash: String,
    pub new_space: Option<CandidateConfirmationNewSpace>,
    pub result_context_id: ContextId,
    pub result_revision: ContextRevision,
    pub space_association: ContextSpaceAssociation,
    pub publication: Publication,
    pub engineering_references: Vec<EngineeringReference>,
    /// Semantic conflicts opened by the confirming revision's own `contradicts` Relations.
    ///
    /// They are part of the reserved closure, so a same-content replay of the Confirmation
    /// resolves to the identical plan hash and writes no second conflict Event.
    pub opened_conflicts: Vec<SemanticConflictOpening>,
    pub confirmation: CandidateConfirmation,
    pub event_ids: CandidateConfirmationPlanEventIds,
}

/// The model of [`CandidateConfirmationPlan`].
pub struct CandidateConfirmationPlanView {
    pub operation: CandidateConfirmationOperationView,
    pub operation_hash: Seq<char>,
    pub new_space: Option<CandidateConfirmationNewSpaceView>,
    pub result_context_id: ContextId,
    pub result_revision: ContextRevisionView,
    pub space_association: ContextSpaceAssociationView,
    pub publication: PublicationView,
    pub engineering_references: Seq<EngineeringReferenceView>,
    pub opened_conflicts: Seq<SemanticConflictOpeningView>,
    pub confirmation: CandidateConfirmationView,
    pub event_ids: CandidateConfirmationPlanEventIdsView,
}

impl DeepView for CandidateConfirmationPlan {
    type V = CandidateConfirmationPlanView;

    open spec fn deep_view(&self) -> CandidateConfirmationPlanView {
        CandidateConfirmationPlanView {
            operation: self.operation.deep_view(),
            operation_hash: self.operation_hash.deep_view(),
            new_space: self.new_space.deep_view(),
            result_context_id: self.result_context_id.deep_view(),
            result_revision: self.result_revision.deep_view(),
            space_association: self.space_association.deep_view(),
            publication: self.publication.deep_view(),
            engineering_references: self.engineering_references.deep_view(),
            opened_conflicts: self.opened_conflicts.deep_view(),
            confirmation: self.confirmation.deep_view(),
            event_ids: self.event_ids.deep_view(),
        }
    }
}

impl Value for CandidateConfirmationPlan {
    fn copied(&self) -> (copy: Self) {
        CandidateConfirmationPlan {
            operation: self.operation.copied(),
            operation_hash: self.operation_hash.copied(),
            new_space: self.new_space.copied(),
            result_context_id: self.result_context_id.copied(),
            result_revision: self.result_revision.copied(),
            space_association: self.space_association.copied(),
            publication: self.publication.copied(),
            engineering_references: self.engineering_references.copied(),
            opened_conflicts: self.opened_conflicts.copied(),
            confirmation: self.confirmation.copied(),
            event_ids: self.event_ids.copied(),
        }
    }

    fn same(&self, other: &Self) -> (equal: bool) {
        self.operation.same(&other.operation)
            && self.operation_hash.same(&other.operation_hash)
            && self.new_space.same(&other.new_space)
            && self.result_context_id.same(&other.result_context_id)
            && self.result_revision.same(&other.result_revision)
            && self.space_association.same(&other.space_association)
            && self.publication.same(&other.publication)
            && self.engineering_references.same(&other.engineering_references)
            && self.opened_conflicts.same(&other.opened_conflicts)
            && self.confirmation.same(&other.confirmation)
            && self.event_ids.same(&other.event_ids)
    }
}

impl CandidateConfirmationPlanView {
    /// The JSON members, behind those of `body`.
    pub open spec fn json_members(self, body: Seq<char>) -> Seq<char> {
        let body = with_member(body, "operation"@, <CandidateConfirmationOperation as Json>::json(self.operation));
        let body = with_member(body, "operation_hash"@, <String as Json>::json(self.operation_hash));
        let body = with_member(
            body,
            "new_space"@,
            <Option<CandidateConfirmationNewSpace> as Json>::json(self.new_space),
        );
        let body = with_member(body, "result_context_id"@, <ContextId as Json>::json(self.result_context_id));
        let body = with_member(body, "result_revision"@, <ContextRevision as Json>::json(self.result_revision));
        let body = with_member(
            body,
            "space_association"@,
            <ContextSpaceAssociation as Json>::json(self.space_association),
        );
        let body = with_member(body, "publication"@, <Publication as Json>::json(self.publication));
        let body = with_member_if(
            body,
            self.engineering_references.len() > 0,
            "engineering_references"@,
            <Vec<EngineeringReference> as Json>::json(self.engineering_references),
        );
        let body = with_member_if(
            body,
            self.opened_conflicts.len() > 0,
            "opened_conflicts"@,
            <Vec<SemanticConflictOpening> as Json>::json(self.opened_conflicts),
        );
        let body = with_member(body, "confirmation"@, <CandidateConfirmation as Json>::json(self.confirmation));
        let body = with_member(body, "event_ids"@, <CandidateConfirmationPlanEventIds as Json>::json(self.event_ids));
        body
    }
}

impl CandidateConfirmationPlan {
    fn push_members(&self, text: &mut String)
        ensures
            final(text)@ == self.deep_view().json_members(old(text)@),
    {
        push_member(text, "operation", &self.operation);
        push_member(text, "operation_hash", &self.operation_hash);
        push_member(text, "new_space", &self.new_space);
        push_member(text, "result_context_id", &self.result_context_id);
        push_member(text, "result_revision", &self.result_revision);
        push_member(text, "space_association", &self.space_association);
        push_member(text, "publication", &self.publication);
        if self.engineering_references.len() > 0 {
            push_member(text, "engineering_references", &self.engineering_references);
        }
        if self.opened_conflicts.len() > 0 {
            push_member(text, "opened_conflicts", &self.opened_conflicts);
        }
        push_member(text, "confirmation", &self.confirmation);
        push_member(text, "event_ids", &self.event_ids);
    }
}

impl Json for CandidateConfirmationPlan {
    open spec fn json(model: CandidateConfirmationPlanView) -> Seq<char> {
        object(model.json_members(Seq::<char>::empty()))
    }

    fn write_json(&self, out: &mut String) {
        let mut body = String::new();
        self.push_members(&mut body);
        push_object(out, body.as_str());
    }
}

/// The hash of a draft's authoritative content.
pub open spec fn content_hash(draft: ContextRevisionDraftView) -> Seq<char> {
    text_hash(<ContextRevisionDraft as Json>::json(draft))
}

/// Hashes only authoritative Context draft semantics, excluding generated Revision/Evidence IDs.
#[must_use]
pub fn context_revision_content_hash(draft: &ContextRevisionDraft) -> (hash: String)
    ensures
        hash@ == content_hash(draft.deep_view()),
        is_prefixed_digest(hash@, "sha256:"@),
        is_content_hash(hash@),
{
    let mut encoded = String::new();
    draft.write_json(&mut encoded);
    assert(encoded@ =~= <ContextRevisionDraft as Json>::json(draft.deep_view()));
    proof {
        text_hashes_are_content_hashes(encoded@);
    }
    prefixed_hash(encoded.as_str())
}

/// Reconstructs the authoritative draft semantics of an immutable Context revision.
#[must_use]
pub fn context_revision_as_draft(revision: &ContextRevision) -> (draft: ContextRevisionDraft)
    ensures
        draft.deep_view() == revision.deep_view().draft(),
{
    revision.as_draft()
}

/// The content hash of a revision does not depend on generated revision or evidence identities.
pub proof fn content_hash_ignores_generated_identities(left: ContextRevisionView, right: ContextRevisionView)
    requires
        left.draft() == right.draft(),
    ensures
        content_hash(left.draft()) == content_hash(right.draft()),
{
}

/// Whether two conflicts share a participant other than the first of each.
pub open spec fn share_a_target(left: Seq<ConflictParticipantView>, right: Seq<ConflictParticipantView>) -> bool {
    exists|a: int, b: int|
        1 <= a < left.len() && 1 <= b < right.len() && (#[trigger] left[a]).context_id == (
        #[trigger] right[b]).context_id
}

fn targets_shared(left: &Vec<ConflictParticipant>, right: &Vec<ConflictParticipant>) -> (shared: bool)
    ensures
        shared == share_a_target(left.deep_view(), right.deep_view()),
{
    let ghost l = left.deep_view();
    let ghost r = right.deep_view();
    let mut a: usize = 1;
    while a < left.len()
        invariant
            1 <= a,
            l == left.deep_view(),
            r == right.deep_view(),
            forall|i: int, j: int|
                1 <= i < a && i < l.len() && 1 <= j < r.len() ==> (#[trigger] l[i]).context_id != (
                #[trigger] r[j]).context_id,
        decreases left@.len() - a,
    {
        assert(left@[a as int].deep_view() == l[a as int]);
        let mut b: usize = 1;
        while b < right.len()
            invariant
                1 <= a < left@.len(),
                1 <= b,
                l == left.deep_view(),
                r == right.deep_view(),
                left@[a as int].deep_view() == l[a as int],
                forall|j: int| 1 <= j < b && j < r.len() ==> l[a as int].context_id != (#[trigger] r[j]).context_id,
            decreases right@.len() - b,
        {
            assert(right@[b as int].deep_view() == r[b as int]);
            if left[a].context_id == right[b].context_id {
                return true;
            }
            b = b + 1;
        }
        a = a + 1;
    }
    false
}

impl CandidateConfirmationPlanView {
    /// Whether the identities of the facts disagree.
    pub open spec fn facts_disagree(self) -> bool {
        ||| self.operation_hash != self.operation.hash()
        ||| self.operation.candidate_id != self.confirmation.candidate_id
        ||| self.result_context_id != self.confirmation.result_context_id
        ||| self.result_revision.revision_id != self.confirmation.result_revision_id
        ||| self.space_association.association_id != self.confirmation.space_association_id
        ||| self.publication.publication_id != self.confirmation.publication_id
        ||| self.publication.revision_id != self.result_revision.revision_id
        ||| self.space_association.context_id != self.result_context_id
        ||| self.space_association.primary_space_id != self.confirmation.primary_space_id
        ||| self.space_association.related_space_ids != self.confirmation.related_space_ids
        ||| self.event_ids.engineering_reference_event_ids
            != self.confirmation.causal_refs.engineering_reference_event_ids
        ||| self.event_ids.engineering_reference_event_ids.len() != self.engineering_references.len()
        ||| self.event_ids.semantic_conflict_event_ids.len() != self.opened_conflicts.len()
        ||| content_hash(self.result_revision.draft()) != self.confirmation.final_content_hash
    }

    /// Whether the reference at a position repeats an earlier one, by identity or by content.
    pub open spec fn repeats_reference(self, at: int) -> bool {
        exists|k: int|
            0 <= k < at && ((#[trigger] self.engineering_references[k]).reference_id
                == self.engineering_references[at].reference_id || self.engineering_references[k].draft()
                == self.engineering_references[at].draft())
    }

    /// The check of each reference, given those before it.
    pub open spec fn reference_problem(self) -> spec_fn(int) -> Option<ErrorView> {
        |i: int|
            first(
                self.engineering_references[i].draft().problem(),
                given(
                    self.repeats_reference(i),
                    invalid("Candidate Confirmation Engineering References must be unique"@),
                ),
            )
    }

    /// Whether the conflict at a position has the identity of an earlier one.
    pub open spec fn repeats_conflict(self, at: int) -> bool {
        exists|k: int|
            0 <= k < at && (#[trigger] self.opened_conflicts[k]).conflict.conflict_id
                == self.opened_conflicts[at].conflict.conflict_id
    }

    /// Whether the conflict at a position has a target of an earlier one.
    pub open spec fn repeats_conflict_target(self, at: int) -> bool {
        exists|k: int|
            0 <= k < at && share_a_target(
                (#[trigger] self.opened_conflicts[k]).conflict.participants,
                self.opened_conflicts[at].conflict.participants,
            )
    }

    /// The participant that stands for the confirming revision.
    pub open spec fn source_participant(self) -> ConflictParticipantView {
        ConflictParticipantView {
            context_id: self.result_context_id,
            revision_id: self.result_revision.revision_id,
            publication_id: self.publication.publication_id,
        }
    }

    /// The check of each opened conflict, given those before it.
    pub open spec fn opening_problem(self) -> spec_fn(int) -> Option<ErrorView> {
        |i: int|
            first(
                conflict_invalidity(
                    self.opened_conflicts[i].conflict.participants,
                    self.opened_conflicts[i].conflict.reason,
                    self.opened_conflicts[i].conflict.applicability,
                ),
                first(
                    given(
                        self.opened_conflicts[i].space_id != self.confirmation.primary_space_id
                            || self.repeats_conflict(i),
                        invalid("Candidate Confirmation opened conflicts must be unique and Primary-scoped"@),
                    ),
                    first(
                        given(
                            self.opened_conflicts[i].conflict.participants[0] != self.source_participant(),
                            invalid("Candidate Confirmation conflict must name the confirming revision first"@),
                        ),
                        first(
                            given(
                                self.opened_conflicts[i].conflict.applicability
                                    != self.result_revision.applicability,
                                invalid(
                                    "Candidate Confirmation conflict applicability must be the confirming revision's"@,
                                ),
                            ),
                            given(
                                self.repeats_conflict_target(i),
                                invalid("Candidate Confirmation conflict targets must not repeat"@),
                            ),
                        ),
                    ),
                ),
            )
    }

    /// Whether the Event identities disagree with the causal references.
    pub open spec fn events_disagree(self) -> bool {
        ||| self.event_ids.space_created_event_id != self.confirmation.causal_refs.space_created_event_id
        ||| self.event_ids.context_revision_event_id != self.confirmation.causal_refs.context_revision_event_id
        ||| self.event_ids.space_association_event_id != self.confirmation.causal_refs.space_association_event_id
        ||| self.event_ids.publication_event_id != self.confirmation.causal_refs.publication_event_id
    }

    /// Why the new Space of a plan is invalid, if it is.
    pub open spec fn new_space_problem(self) -> Option<ErrorView> {
        match (self.new_space, self.confirmation.created_space_id) {
            (Some(space), Some(created)) => if space.space_id == created {
                space.intent_revision.invalidity()
            } else {
                invalid("Candidate Confirmation plan new Space identity is inconsistent"@)
            },
            (None, None) => None,
            _ => invalid("Candidate Confirmation plan new Space identity is inconsistent"@),
        }
    }

    /// Why a plan is invalid, if it is.
    pub open spec fn problem(self) -> Option<ErrorView> {
        first(
            self.operation.problem(),
            first(
                given(
                    self.facts_disagree(),
                    invalid("Candidate Confirmation plan fact identities are inconsistent"@),
                ),
                first(
                    self.result_revision.invalidity(),
                    first(
                        self.space_association.draft().problem(),
                        first(
                            self.publication.invalidity(),
                            first(
                                first_from(self.reference_problem(), 0, self.engineering_references.len()),
                                first(
                                    first_from(self.opening_problem(), 0, self.opened_conflicts.len()),
                                    first(
                                        self.confirmation.draft().problem(),
                                        first(
                                            given(
                                                self.events_disagree(),
                                                invalid(
                                                    "Candidate Confirmation plan Event identities are inconsistent"@,
                                                ),
                                            ),
                                            first(
                                                self.new_space_problem(),
                                                unique_problem(
                                                    self.event_ids.events(),
                                                    "candidate_confirmation_plan.event_ids"@,
                                                ),
                                            ),
                                        ),
                                    ),
                                ),
                            ),
                        ),
                    ),
                ),
            ),
        )
    }

    /// The hash of the whole plan.
    pub open spec fn hash(self) -> Seq<char> {
        text_hash(<CandidateConfirmationPlan as Json>::json(self))
    }

    /// The number of Events that the plan materializes.
    pub open spec fn event_count(self) -> nat {
        4 + (if self.new_space is Some {
            1nat
        } else {
            0nat
        }) + self.engineering_references.len() + self.opened_conflicts.len()
    }
}

/// A valid plan materializes exactly the Events that it names, each once.
pub proof fn valid_plans_name_every_event(plan: CandidateConfirmationPlanView)
    requires
        plan.problem() is None,
    ensures
        plan.event_ids.events().len() == plan.event_count(),
        plan.event_ids.events().no_duplicates(),
{
}

/// The identities that one reserved plan is made of.
#[derive(Clone, Debug, PartialEq, Eq)]
pub struct CandidateConfirmationPlanIdentities {
    pub result_context_id: ContextId,
    pub result_revision_id: RevisionId,
    /// One identity per piece of evidence of the final content.
    pub evidence_ids: Vec<EvidenceId>,
    /// The new Space, where one is proposed.
    pub space_id: SpaceId,
    /// The Intent revision of the new Space, where one is proposed.
    pub intent_revision_id: RevisionId,
    pub association_id: SpaceAssociationId,
    pub publication_id: PublicationId,
    pub confirmation_id: ConfirmationId,
    /// One identity per Engineering Reference.
    pub reference_ids: Vec<ReferenceId>,
    /// One identity per opened conflict.
    pub conflict_ids: Vec<ConflictId>,
    /// The Event of the new Space, where one is proposed.
    pub space_created_event_id: EventId,
    pub context_revision_event_id: EventId,
    pub space_association_event_id: EventId,
    pub publication_event_id: EventId,
    pub confirmation_event_id: EventId,
    /// One Event per Engineering Reference.
    pub reference_event_ids: Vec<EventId>,
    /// One Event per opened conflict.
    pub conflict_event_ids: Vec<EventId>,
}

/// The model of [`CandidateConfirmationPlanIdentities`].
pub struct CandidateConfirmationPlanIdentitiesView {
    pub result_context_id: ContextId,
    pub result_revision_id: RevisionId,
    pub evidence_ids: Seq<EvidenceId>,
    pub space_id: SpaceId,
    pub intent_revision_id: RevisionId,
    pub association_id: SpaceAssociationId,
    pub publication_id: PublicationId,
    pub confirmation_id: ConfirmationId,
    pub reference_ids: Seq<ReferenceId>,
    pub conflict_ids: Seq<ConflictId>,
    pub space_created_event_id: EventId,
    pub context_revision_event_id: EventId,
    pub space_association_event_id: EventId,
    pub publication_event_id: EventId,
    pub confirmation_event_id: EventId,
    pub reference_event_ids: Seq<EventId>,
    pub conflict_event_ids: Seq<EventId>,
}

impl DeepView for CandidateConfirmationPlanIdentities {
    type V = CandidateConfirmationPlanIdentitiesView;

    open spec fn deep_view(&self) -> CandidateConfirmationPlanIdentitiesView {
        CandidateConfirmationPlanIdentitiesView {
            result_context_id: self.result_context_id.deep_view(),
            result_revision_id: self.result_revision_id.deep_view(),
            evidence_ids: self.evidence_ids.deep_view(),
            space_id: self.space_id.deep_view(),
            intent_revision_id: self.intent_revision_id.deep_view(),
            association_id: self.association_id.deep_view(),
            publication_id: self.publication_id.deep_view(),
            confirmation_id: self.confirmation_id.deep_view(),
            reference_ids: self.reference_ids.deep_view(),
            conflict_ids: self.conflict_ids.deep_view(),
            space_created_event_id: self.space_created_event_id.deep_view(),
            context_revision_event_id: self.context_revision_event_id.deep_view(),
            space_association_event_id: self.space_association_event_id.deep_view(),
            publication_event_id: self.publication_event_id.deep_view(),
            confirmation_event_id: self.confirmation_event_id.deep_view(),
            reference_event_ids: self.reference_event_ids.deep_view(),
            conflict_event_ids: self.conflict_event_ids.deep_view(),
        }
    }
}

impl Value for CandidateConfirmationPlanIdentities {
    fn copied(&self) -> (copy: Self) {
        CandidateConfirmationPlanIdentities {
            result_context_id: self.result_context_id.copied(),
            result_revision_id: self.result_revision_id.copied(),
            evidence_ids: self.evidence_ids.copied(),
            space_id: self.space_id.copied(),
            intent_revision_id: self.intent_revision_id.copied(),
            association_id: self.association_id.copied(),
            publication_id: self.publication_id.copied(),
            confirmation_id: self.confirmation_id.copied(),
            reference_ids: self.reference_ids.copied(),
            conflict_ids: self.conflict_ids.copied(),
            space_created_event_id: self.space_created_event_id.copied(),
            context_revision_event_id: self.context_revision_event_id.copied(),
            space_association_event_id: self.space_association_event_id.copied(),
            publication_event_id: self.publication_event_id.copied(),
            confirmation_event_id: self.confirmation_event_id.copied(),
            reference_event_ids: self.reference_event_ids.copied(),
            conflict_event_ids: self.conflict_event_ids.copied(),
        }
    }

    fn same(&self, other: &Self) -> (equal: bool) {
        self.result_context_id.same(&other.result_context_id)
            && self.result_revision_id.same(&other.result_revision_id)
            && self.evidence_ids.same(&other.evidence_ids)
            && self.space_id.same(&other.space_id)
            && self.intent_revision_id.same(&other.intent_revision_id)
            && self.association_id.same(&other.association_id)
            && self.publication_id.same(&other.publication_id)
            && self.confirmation_id.same(&other.confirmation_id)
            && self.reference_ids.same(&other.reference_ids)
            && self.conflict_ids.same(&other.conflict_ids)
            && self.space_created_event_id.same(&other.space_created_event_id)
            && self.context_revision_event_id.same(&other.context_revision_event_id)
            && self.space_association_event_id.same(&other.space_association_event_id)
            && self.publication_event_id.same(&other.publication_event_id)
            && self.confirmation_event_id.same(&other.confirmation_event_id)
            && self.reference_event_ids.same(&other.reference_event_ids)
            && self.conflict_event_ids.same(&other.conflict_event_ids)
    }
}

/// What one reservation starts from.
#[derive(Clone, Debug, PartialEq, Eq)]
pub struct CandidateConfirmationInputs {
    pub candidate: ContextCandidate,
    pub operation: CandidateConfirmationOperation,
    pub resolved_primary: CandidatePrimarySelection,
    pub engineering_reference_drafts: Vec<EngineeringReferenceDraft>,
    pub conflict_openings: Vec<SemanticConflictOpeningDraft>,
}

/// The model of [`CandidateConfirmationInputs`].
pub struct CandidateConfirmationInputsView {
    pub candidate: ContextCandidateView,
    pub operation: CandidateConfirmationOperationView,
    pub resolved_primary: CandidatePrimarySelectionView,
    pub engineering_reference_drafts: Seq<EngineeringReferenceDraftView>,
    pub conflict_openings: Seq<SemanticConflictOpeningDraftView>,
}

impl DeepView for CandidateConfirmationInputs {
    type V = CandidateConfirmationInputsView;

    open spec fn deep_view(&self) -> CandidateConfirmationInputsView {
        CandidateConfirmationInputsView {
            candidate: self.candidate.deep_view(),
            operation: self.operation.deep_view(),
            resolved_primary: self.resolved_primary.deep_view(),
            engineering_reference_drafts: self.engineering_reference_drafts.deep_view(),
            conflict_openings: self.conflict_openings.deep_view(),
        }
    }
}

impl Value for CandidateConfirmationInputs {
    fn copied(&self) -> (copy: Self) {
        CandidateConfirmationInputs {
            candidate: self.candidate.copied(),
            operation: self.operation.copied(),
            resolved_primary: self.resolved_primary.copied(),
            engineering_reference_drafts: self.engineering_reference_drafts.copied(),
            conflict_openings: self.conflict_openings.copied(),
        }
    }

    fn same(&self, other: &Self) -> (equal: bool) {
        self.candidate.same(&other.candidate)
            && self.operation.same(&other.operation)
            && self.resolved_primary.same(&other.resolved_primary)
            && self.engineering_reference_drafts.same(&other.engineering_reference_drafts)
            && self.conflict_openings.same(&other.conflict_openings)
    }
}

impl CandidateConfirmationInputsView {
    /// The final content.
    pub open spec fn final_draft(self) -> ContextRevisionDraftView {
        self.operation.edits.edited(self.candidate.content)
    }

    /// Whether the primary reference and the resolved choice agree.
    pub open spec fn primary_agrees(self) -> bool {
        match (self.operation.primary, self.resolved_primary) {
            (
                CandidateConfirmationPrimaryReference::ExistingSpace { space_id: expected },
                CandidatePrimarySelectionView::Existing { space_id: actual },
            ) => expected == actual,
            (
                CandidateConfirmationPrimaryReference::ProposedRecommendation { .. },
                CandidatePrimarySelectionView::ProposedNew { .. },
            ) => true,
            _ => false,
        }
    }

    /// The check of each reference draft, given those before it.
    pub open spec fn draft_problem(self) -> spec_fn(int) -> Option<ErrorView> {
        |i: int|
            first(
                self.engineering_reference_drafts[i].problem(),
                given(
                    self.engineering_reference_drafts.take(i).contains(self.engineering_reference_drafts[i]),
                    invalid("Candidate Confirmation Engineering References must not contain duplicates"@),
                ),
            )
    }

    /// The request that the operation stands for.
    pub open spec fn request(self) -> CandidateConfirmationRequestView {
        CandidateConfirmationRequestView {
            candidate_id: self.operation.candidate_id,
            primary: self.resolved_primary,
            related_space_ids: self.operation.related_space_ids,
            edits: self.operation.edits,
        }
    }

    /// Why the inputs are refused whatever identities are drawn, if they are.
    pub open spec fn problem(self) -> Option<ErrorView> {
        first(
            self.operation.problem(),
            first(
                given(
                    self.operation.candidate_id != self.candidate.candidate_id,
                    invalid("Candidate Confirmation operation names a different Candidate"@),
                ),
                first(
                    given(
                        !self.primary_agrees(),
                        invalid("Candidate Confirmation primary reference and resolved selection disagree"@),
                    ),
                    first(
                        self.request().problem(self.candidate),
                        first_from(self.draft_problem(), 0, self.engineering_reference_drafts.len()),
                    ),
                ),
            ),
        )
    }

    /// The Primary Space, given the identities.
    pub open spec fn primary_space(self, ids: CandidateConfirmationPlanIdentitiesView) -> SpaceId {
        match self.resolved_primary {
            CandidatePrimarySelectionView::Existing { space_id } => space_id,
            CandidatePrimarySelectionView::ProposedNew { .. } => ids.space_id,
        }
    }

    /// The Event of the new Space, where one is proposed.
    pub open spec fn space_event(self, ids: CandidateConfirmationPlanIdentitiesView) -> Option<EventId> {
        match self.resolved_primary {
            CandidatePrimarySelectionView::Existing { .. } => None,
            CandidatePrimarySelectionView::ProposedNew { .. } => Some(ids.space_created_event_id),
        }
    }

    /// The association that the plan reserves.
    pub open spec fn association(
        self,
        ids: CandidateConfirmationPlanIdentitiesView,
    ) -> ContextSpaceAssociationDraftView {
        ContextSpaceAssociationDraftView {
            context_id: ids.result_context_id,
            primary_space_id: self.primary_space(ids),
            related_space_ids: self.operation.related_space_ids,
            previous_association_ids: Seq::empty(),
            origin: ContextSpaceAssociationOrigin::CandidateConfirmation {
                candidate_id: self.candidate.candidate_id,
            },
        }
    }

    /// The conflict that one opening reserves.
    pub open spec fn opening(
        self,
        ids: CandidateConfirmationPlanIdentitiesView,
        at: int,
    ) -> SemanticConflictOpeningView {
        SemanticConflictOpeningView {
            space_id: self.primary_space(ids),
            conflict: SemanticConflictView {
                conflict_id: ids.conflict_ids[at],
                participants: seq![
                    ConflictParticipantView {
                        context_id: ids.result_context_id,
                        revision_id: ids.result_revision_id,
                        publication_id: ids.publication_id,
                    },
                    self.conflict_openings[at].target,
                ],
                reason: self.conflict_openings[at].reason,
                applicability: self.final_draft().applicability,
            },
        }
    }

    /// Whether an opening names a target that an earlier one names.
    pub open spec fn repeats_target(self, at: int) -> bool {
        exists|k: int|
            0 <= k < at && (#[trigger] self.conflict_openings[k]).target.context_id
                == self.conflict_openings[at].target.context_id
    }

    /// The check of each opening, given those before it.
    pub open spec fn opening_problem(
        self,
        ids: CandidateConfirmationPlanIdentitiesView,
    ) -> spec_fn(int) -> Option<ErrorView> {
        |i: int|
            first(
                given(
                    self.conflict_openings[i].target.context_id == ids.result_context_id
                        || self.conflict_openings[i].target.publication_id == ids.publication_id,
                    invalid("Candidate Confirmation conflict target must be a different accepted Context"@),
                ),
                first(
                    given(
                        self.repeats_target(i),
                        invalid("Candidate Confirmation conflict targets must not contain duplicates"@),
                    ),
                    conflict_invalidity(
                        self.opening(ids, i).conflict.participants,
                        self.opening(ids, i).conflict.reason,
                        self.opening(ids, i).conflict.applicability,
                    ),
                ),
            )
    }

    /// The confirmation that the plan reserves.
    pub open spec fn confirmation(
        self,
        ids: CandidateConfirmationPlanIdentitiesView,
    ) -> CandidateConfirmationDraftView {
        CandidateConfirmationDraftView {
            candidate_id: self.candidate.candidate_id,
            submission_id: self.candidate.submission_id,
            source_episode: self.candidate.source_episode,
            result_context_id: ids.result_context_id,
            result_revision_id: ids.result_revision_id,
            primary_space_id: self.primary_space(ids),
            related_space_ids: self.operation.related_space_ids,
            space_association_id: ids.association_id,
            publication_id: ids.publication_id,
            created_space_id: match self.resolved_primary {
                CandidatePrimarySelectionView::Existing { .. } => None,
                CandidatePrimarySelectionView::ProposedNew { .. } => Some(ids.space_id),
            },
            edits: self.operation.edits,
            final_content_hash: content_hash(self.final_draft()),
            causal_refs: CandidateConfirmationCausalRefsView {
                space_created_event_id: self.space_event(ids),
                context_revision_event_id: ids.context_revision_event_id,
                space_association_event_id: ids.space_association_event_id,
                publication_event_id: ids.publication_event_id,
                engineering_reference_event_ids: ids.reference_event_ids,
            },
        }
    }

    /// The plan that the inputs and the identities make.
    pub open spec fn plan(self, ids: CandidateConfirmationPlanIdentitiesView) -> CandidateConfirmationPlanView {
        CandidateConfirmationPlanView {
            operation: self.operation,
            operation_hash: self.operation.hash(),
            new_space: match self.resolved_primary {
                CandidatePrimarySelectionView::Existing { .. } => None,
                CandidatePrimarySelectionView::ProposedNew { intent } => Some(
                    CandidateConfirmationNewSpaceView {
                        space_id: ids.space_id,
                        intent_revision: IntentRevisionView {
                            revision_id: ids.intent_revision_id,
                            parent_revision_ids: Seq::empty(),
                            intent,
                            provisional: true,
                        },
                    },
                ),
            },
            result_context_id: ids.result_context_id,
            result_revision: crate::model::revision_of(
                self.final_draft(),
                Seq::empty(),
                ids.result_revision_id,
                ids.evidence_ids,
            ),
            space_association: self.association(ids).named(ids.association_id),
            publication: PublicationView {
                publication_id: ids.publication_id,
                previous_publication_ids: Seq::empty(),
                action: PublicationAction::Publish,
                revision_id: ids.result_revision_id,
                review_event_ids: Seq::empty(),
            },
            engineering_references: Seq::new(
                self.engineering_reference_drafts.len(),
                |i: int| self.engineering_reference_drafts[i].named(ids.reference_ids[i]),
            ),
            opened_conflicts: Seq::new(self.conflict_openings.len(), |i: int| self.opening(ids, i)),
            confirmation: self.confirmation(ids).named(ids.confirmation_id),
            event_ids: CandidateConfirmationPlanEventIdsView {
                space_created_event_id: self.space_event(ids),
                context_revision_event_id: ids.context_revision_event_id,
                space_association_event_id: ids.space_association_event_id,
                publication_event_id: ids.publication_event_id,
                engineering_reference_event_ids: ids.reference_event_ids,
                semantic_conflict_event_ids: ids.conflict_event_ids,
                confirmation_event_id: ids.confirmation_event_id,
            },
        }
    }

    /// Why the inputs cannot be reserved under some identities, if they cannot.
    pub open spec fn reservation_problem(self, ids: CandidateConfirmationPlanIdentitiesView) -> Option<ErrorView> {
        first(
            self.problem(),
            first(
                self.association(ids).problem(),
                first(
                    first_from(self.opening_problem(ids), 0, self.conflict_openings.len()),
                    first(self.confirmation(ids).problem(), self.plan(ids).problem()),
                ),
            ),
        )
    }

    /// Whether there is an identity for everything that needs one.
    pub open spec fn fit(self, ids: CandidateConfirmationPlanIdentitiesView) -> bool {
        &&& ids.evidence_ids.len() == self.final_draft().evidence.len()
        &&& ids.reference_ids.len() == self.engineering_reference_drafts.len()
        &&& ids.reference_event_ids.len() == self.engineering_reference_drafts.len()
        &&& ids.conflict_ids.len() == self.conflict_openings.len()
        &&& ids.conflict_event_ids.len() == self.conflict_openings.len()
    }

    /// The Events that a plan under some identities would name.
    pub open spec fn planned_events(self, ids: CandidateConfirmationPlanIdentitiesView) -> Seq<EventId> {
        self.plan(ids).event_ids.events()
    }

    /// Whether the identities are new and unlike each other, as fresh ones are.
    pub open spec fn fresh(self, ids: CandidateConfirmationPlanIdentitiesView) -> bool {
        &&& ids.evidence_ids.no_duplicates()
        &&& ids.reference_ids.no_duplicates()
        &&& ids.conflict_ids.no_duplicates()
        &&& self.planned_events(ids).no_duplicates()
        &&& self.resolved_primary is ProposedNew ==> !self.operation.related_space_ids.contains(ids.space_id)
        &&& self.targets_differ_from(ids)
    }

    /// Whether no conflict target is the confirming Context or its publication.
    pub open spec fn targets_differ_from(self, ids: CandidateConfirmationPlanIdentitiesView) -> bool {
        forall|i: int|
            0 <= i < self.conflict_openings.len() ==> (#[trigger] self.conflict_openings[i]).target.context_id
                != ids.result_context_id && self.conflict_openings[i].target.publication_id != ids.publication_id
    }

    /// Whether the requested conflict openings are complete and name different targets.
    pub open spec fn openings_are_valid(self) -> bool {
        forall|i: int|
            0 <= i < self.conflict_openings.len() ==> !self.repeats_target(i) && !crate::checks::blank(
                (#[trigger] self.conflict_openings[i]).reason,
            )
    }
}

/// Two participants of different Contexts and publications are distinct in every respect.
proof fn two_sides_are_distinct(participants: Seq<ConflictParticipantView>)
    requires
        participants.len() == 2,
        participants[0].context_id != participants[1].context_id,
        participants[0].publication_id != participants[1].publication_id,
    ensures
        participants.no_duplicates(),
        participant_contexts(participants).no_duplicates(),
        crate::model::participant_publications(participants).no_duplicates(),
{
}

/// Dropping the fourth entry and the tail keeps entries distinct.
proof fn shorter_lists_stay_distinct(head: Seq<EventId>, middle: Seq<EventId>, tail: Seq<EventId>)
    requires
        head.len() == 4,
        (head + middle + tail).no_duplicates(),
    ensures
        (head.take(3) + middle).no_duplicates(),
{
    let whole = head + middle + tail;
    let part = head.take(3) + middle;
    assert forall|i: int, j: int| 0 <= i < part.len() && 0 <= j < part.len() && i != j implies part[i] != part[j] by {
        let a = if i < 3 {
            i
        } else {
            i + 1
        };
        let b = if j < 3 {
            j
        } else {
            j + 1
        };
        assert(part[i] == whole[a]);
        assert(part[j] == whole[b]);
    }
}

/// Complete openings with fresh identities are accepted.
proof fn fresh_openings_pass(inputs: CandidateConfirmationInputsView, ids: CandidateConfirmationPlanIdentitiesView)
    requires
        inputs.final_draft().applicability.invalidity("context revision applicability"@) is None,
        inputs.openings_are_valid(),
        inputs.targets_differ_from(ids),
    ensures
        first_from(inputs.opening_problem(ids), 0, inputs.conflict_openings.len()) is None,
        forall|i: int|
            0 <= i < inputs.conflict_openings.len() ==> conflict_invalidity(
                (#[trigger] inputs.opening(ids, i)).conflict.participants,
                inputs.opening(ids, i).conflict.reason,
                inputs.opening(ids, i).conflict.applicability,
            ) is None,
{
    let applicability = inputs.final_draft().applicability;
    valid_scope_under_any_name(
        applicability,
        "context revision applicability"@,
        "semantic_conflict.applicability"@,
    );
    assert forall|i: int| 0 <= i < inputs.conflict_openings.len() implies conflict_invalidity(
        (#[trigger] inputs.opening(ids, i)).conflict.participants,
        inputs.opening(ids, i).conflict.reason,
        inputs.opening(ids, i).conflict.applicability,
    ) is None by {
        let current = inputs.conflict_openings[i];
        two_sides_are_distinct(inputs.opening(ids, i).conflict.participants);
    }
    let opening_problem = inputs.opening_problem(ids);
    assert forall|i: int| 0 <= i < inputs.conflict_openings.len() implies #[trigger] opening_problem(i) is None by {
        let opening = inputs.opening(ids, i);
        let target = inputs.conflict_openings[i];
    }
    crate::checks::nothing_fails(opening_problem, 0, inputs.conflict_openings.len());
}

/// The four Events that every plan names.
spec fn leading_events(ids: CandidateConfirmationPlanIdentitiesView) -> Seq<EventId> {
    seq![
        ids.context_revision_event_id,
        ids.space_association_event_id,
        ids.publication_event_id,
        ids.confirmation_event_id,
    ]
}

proof fn event_lists_overlap(inputs: CandidateConfirmationInputsView, ids: CandidateConfirmationPlanIdentitiesView)
    ensures
        inputs.planned_events(ids) == leading_events(ids) + (optional_event(inputs.space_event(ids))
            + ids.reference_event_ids) + ids.conflict_event_ids,
        inputs.confirmation(ids).causal_refs.events() == leading_events(ids).take(3) + (optional_event(
            inputs.space_event(ids),
        ) + ids.reference_event_ids),
{
    let head = leading_events(ids);
    let space = optional_event(inputs.space_event(ids));
    let middle = space + ids.reference_event_ids;
    assert(head + space + ids.reference_event_ids + ids.conflict_event_ids =~= head + middle
        + ids.conflict_event_ids);
    let start = seq![ids.context_revision_event_id, ids.space_association_event_id, ids.publication_event_id];
    assert(start =~= head.take(3));
    assert(start + space + ids.reference_event_ids =~= start + middle);
}

/// The Events that a confirmation refers to are among those of its plan.
proof fn planned_causes_are_distinct(
    inputs: CandidateConfirmationInputsView,
    ids: CandidateConfirmationPlanIdentitiesView,
)
    requires
        inputs.planned_events(ids).no_duplicates(),
    ensures
        inputs.confirmation(ids).causal_refs.events().no_duplicates(),
{
    let middle = optional_event(inputs.space_event(ids)) + ids.reference_event_ids;
    event_lists_overlap(inputs, ids);
    shorter_lists_stay_distinct(leading_events(ids), middle, ids.conflict_event_ids);
}

/// Distinct reference drafts under distinct identities are accepted.
proof fn planned_references_pass(
    inputs: CandidateConfirmationInputsView,
    ids: CandidateConfirmationPlanIdentitiesView,
)
    requires
        first_from(inputs.draft_problem(), 0, inputs.engineering_reference_drafts.len()) is None,
        inputs.fit(ids),
        ids.reference_ids.no_duplicates(),
    ensures
        first_from(inputs.plan(ids).reference_problem(), 0, inputs.plan(ids).engineering_references.len()) is None,
{
    let plan = inputs.plan(ids);
    let reference_problem = plan.reference_problem();
    let draft_problem = inputs.draft_problem();
    crate::checks::nothing_fails(draft_problem, 0, inputs.engineering_reference_drafts.len());
    assert forall|i: int| 0 <= i < plan.engineering_references.len() implies #[trigger] reference_problem(i) is None by {
        assert(draft_problem(i) is None);
        let reference = plan.engineering_references[i];
        assert(reference.draft() == inputs.engineering_reference_drafts[i]);
        if plan.repeats_reference(i) {
            let k = choose|k: int|
                0 <= k < i && ((#[trigger] plan.engineering_references[k]).reference_id == reference.reference_id
                    || plan.engineering_references[k].draft() == reference.draft());
            assert(plan.engineering_references[k].draft() == inputs.engineering_reference_drafts[k]);
            assert(ids.reference_ids[k] != ids.reference_ids[i]);
            assert(inputs.engineering_reference_drafts.take(i)[k] == inputs.engineering_reference_drafts[k]);
        }
    }
    crate::checks::nothing_fails(reference_problem, 0, plan.engineering_references.len());
}

proof fn planned_conflicts_have_names(
    inputs: CandidateConfirmationInputsView,
    ids: CandidateConfirmationPlanIdentitiesView,
    at: int,
)
    requires
        0 <= at < inputs.conflict_openings.len(),
        inputs.fit(ids),
        ids.conflict_ids.no_duplicates(),
    ensures
        !inputs.plan(ids).repeats_conflict(at),
{
    let plan = inputs.plan(ids);
    assert forall|k: int| 0 <= k < at implies (#[trigger] plan.opened_conflicts[k]).conflict.conflict_id
        != plan.opened_conflicts[at].conflict.conflict_id by {
        assert(plan.opened_conflicts[k].conflict.conflict_id == ids.conflict_ids[k]);
        assert(plan.opened_conflicts[at].conflict.conflict_id == ids.conflict_ids[at]);
    }
}

proof fn planned_conflicts_have_targets(
    inputs: CandidateConfirmationInputsView,
    ids: CandidateConfirmationPlanIdentitiesView,
    at: int,
)
    requires
        0 <= at < inputs.conflict_openings.len(),
        !inputs.repeats_target(at),
    ensures
        !inputs.plan(ids).repeats_conflict_target(at),
{
    let plan = inputs.plan(ids);
    assert forall|k: int| 0 <= k < at implies !share_a_target(
        (#[trigger] plan.opened_conflicts[k]).conflict.participants,
        plan.opened_conflicts[at].conflict.participants,
    ) by {
        let left = plan.opened_conflicts[k].conflict.participants;
        let right = plan.opened_conflicts[at].conflict.participants;
        assert(left[1] == inputs.conflict_openings[k].target);
        assert(right[1] == inputs.conflict_openings[at].target);
        assert(left.len() == 2 && right.len() == 2);
    }
}

/// The conflicts of a plan under fresh identities are accepted.
proof fn planned_conflicts_pass(inputs: CandidateConfirmationInputsView, ids: CandidateConfirmationPlanIdentitiesView)
    requires
        inputs.final_draft().applicability.invalidity("context revision applicability"@) is None,
        inputs.openings_are_valid(),
        inputs.fit(ids),
        ids.conflict_ids.no_duplicates(),
        inputs.targets_differ_from(ids),
    ensures
        first_from(inputs.plan(ids).opening_problem(), 0, inputs.plan(ids).opened_conflicts.len()) is None,
{
    fresh_openings_pass(inputs, ids);
    let plan = inputs.plan(ids);
    let conflict_problem = plan.opening_problem();
    assert forall|i: int| 0 <= i < plan.opened_conflicts.len() implies #[trigger] conflict_problem(i) is None by {
        let opening = inputs.opening(ids, i);
        let current = inputs.conflict_openings[i];
        assert(plan.opened_conflicts[i] == opening);
        planned_conflicts_have_names(inputs, ids, i);
        planned_conflicts_have_targets(inputs, ids, i);
        assert(opening.conflict.participants[0] == plan.source_participant());
    }
    crate::checks::nothing_fails(conflict_problem, 0, plan.opened_conflicts.len());
}

/// The facts of a plan agree with each other.
proof fn planned_facts_agree(inputs: CandidateConfirmationInputsView, ids: CandidateConfirmationPlanIdentitiesView)
    requires
        inputs.operation.candidate_id == inputs.candidate.candidate_id,
        inputs.fit(ids),
    ensures
        !inputs.plan(ids).facts_disagree(),
        !inputs.plan(ids).events_disagree(),
        inputs.plan(ids).result_revision.draft() == inputs.final_draft(),
        inputs.plan(ids).space_association.draft() == inputs.association(ids),
        inputs.plan(ids).confirmation.draft() == inputs.confirmation(ids),
        inputs.plan(ids).publication.invalidity() is None,
{
    crate::model::naming_keeps_the_draft(
        inputs.final_draft(),
        Seq::empty(),
        ids.result_revision_id,
        ids.evidence_ids,
    );
}

/// Fresh identities never stand in the way: inputs that are valid by themselves, with complete
/// conflict openings, are reserved as a valid plan.
pub proof fn fresh_identities_reserve_a_plan(
    inputs: CandidateConfirmationInputsView,
    ids: CandidateConfirmationPlanIdentitiesView,
)
    requires
        inputs.problem() is None,
        inputs.openings_are_valid(),
        inputs.fit(ids),
        inputs.fresh(ids),
    ensures
        inputs.reservation_problem(ids) is None,
{
    text_hashes_are_content_hashes(<ContextRevisionDraft as Json>::json(inputs.final_draft()));
    let plan = inputs.plan(ids);
    assert(inputs.final_draft().invalidity() is None);
    assert(inputs.association(ids).problem() is None);
    fresh_openings_pass(inputs, ids);
    planned_causes_are_distinct(inputs, ids);
    assert(inputs.confirmation(ids).problem() is None);
    planned_facts_agree(inputs, ids);
    assert(plan.result_revision.invalidity() is None) by {
        assert(crate::model::evidence_ids(plan.result_revision.evidence) =~= ids.evidence_ids);
    }
    planned_references_pass(inputs, ids);
    planned_conflicts_pass(inputs, ids);
    assert(plan.new_space_problem() is None);
    assert(plan.problem() is None);
}

/// Whether a scope is valid does not depend on the name that messages give it.
proof fn valid_scope_under_any_name(scope: ApplicabilityView, left: Seq<char>, right: Seq<char>)
    requires
        scope.invalidity(left) is None,
    ensures
        scope.invalidity(right) is None,
{
    valid_texts_under_any_name(scope.domains, left + ".domains"@, right + ".domains"@);
    valid_texts_under_any_name(scope.platforms, left + ".platforms"@, right + ".platforms"@);
    valid_texts_under_any_name(scope.conditions, left + ".conditions"@, right + ".conditions"@);
}

proof fn valid_texts_under_any_name(values: Seq<Seq<char>>, left: Seq<char>, right: Seq<char>)
    requires
        crate::checks::text_items_problem(values, left) is None,
    ensures
        crate::checks::text_items_problem(values, right) is None,
{
    let a = crate::checks::entry_problem(values, left);
    let b = crate::checks::entry_problem(values, right);
    crate::checks::nothing_fails(a, 0, values.len());
    assert forall|i: int| 0 <= i < values.len() implies #[trigger] b(i) is None by {
        assert(a(i) is None);
    }
    crate::checks::nothing_fails(b, 0, values.len());
}

impl CandidateConfirmationPlan {
    fn references_repeat(references: &Vec<EngineeringReference>, at: usize) -> (repeats: bool)
        requires
            at < references@.len(),
        ensures
            repeats == exists|k: int|
                0 <= k < at && ((#[trigger] references.deep_view()[k]).reference_id
                    == references.deep_view()[at as int].reference_id || references.deep_view()[k].draft()
                    == references.deep_view()[at as int].draft()),
    {
        let ghost model = references.deep_view();
        let current = &references[at];
        assert(current.deep_view() == model[at as int]);
        let mut index: usize = 0;
        while index < at
            invariant
                index <= at < references@.len(),
                model == references.deep_view(),
                current.deep_view() == model[at as int],
                forall|k: int|
                    0 <= k < index ==> !((#[trigger] model[k]).reference_id == model[at as int].reference_id
                        || model[k].draft() == model[at as int].draft()),
            decreases at - index,
        {
            let earlier = &references[index];
            assert(earlier.deep_view() == model[index as int]);
            if earlier.reference_id == current.reference_id || same_engineering_reference_content(earlier, current) {
                return true;
            }
            index = index + 1;
        }
        false
    }

    fn validate_references(&self) -> (result: Result<()>)
        ensures
            fails_as(
                result,
                first_from(self.deep_view().reference_problem(), 0, self.deep_view().engineering_references.len()),
            ),
    {
        let ghost model = self.deep_view();
        let ghost problem = model.reference_problem();
        let mut index: usize = 0;
        while index < self.engineering_references.len()
            invariant
                index <= self.engineering_references@.len(),
                model == self.deep_view(),
                problem == model.reference_problem(),
                first_from(problem, 0, model.engineering_references.len()) == first_from(
                    problem,
                    index as nat,
                    model.engineering_references.len(),
                ),
            decreases self.engineering_references@.len() - index,
        {
            assert(self.engineering_references@[index as int].deep_view()
                == model.engineering_references[index as int]);
            self.engineering_references[index].validate()?;
            let repeats = Self::references_repeat(&self.engineering_references, index);
            assert(repeats == model.repeats_reference(index as int));
            if repeats {
                return Err(invalid_input("Candidate Confirmation Engineering References must be unique"));
            }
            index = index + 1;
        }
        Ok(())
    }

    fn conflict_repeats(&self, at: usize) -> (repeats: bool)
        requires
            at < self.opened_conflicts@.len(),
        ensures
            repeats == self.deep_view().repeats_conflict(at as int),
    {
        let ghost model = self.deep_view();
        let current = &self.opened_conflicts[at];
        assert(current.deep_view() == model.opened_conflicts[at as int]);
        let mut index: usize = 0;
        while index < at
            invariant
                index <= at < self.opened_conflicts@.len(),
                model == self.deep_view(),
                current.deep_view() == model.opened_conflicts[at as int],
                forall|k: int|
                    0 <= k < index ==> (#[trigger] model.opened_conflicts[k]).conflict.conflict_id
                        != model.opened_conflicts[at as int].conflict.conflict_id,
            decreases at - index,
        {
            assert(self.opened_conflicts@[index as int].deep_view() == model.opened_conflicts[index as int]);
            if self.opened_conflicts[index].conflict.conflict_id == current.conflict.conflict_id {
                return true;
            }
            index = index + 1;
        }
        false
    }

    fn conflict_target_repeats(&self, at: usize) -> (repeats: bool)
        requires
            at < self.opened_conflicts@.len(),
        ensures
            repeats == self.deep_view().repeats_conflict_target(at as int),
    {
        let ghost model = self.deep_view();
        let current = &self.opened_conflicts[at];
        assert(current.deep_view() == model.opened_conflicts[at as int]);
        let mut index: usize = 0;
        while index < at
            invariant
                index <= at < self.opened_conflicts@.len(),
                model == self.deep_view(),
                current.deep_view() == model.opened_conflicts[at as int],
                forall|k: int|
                    0 <= k < index ==> !share_a_target(
                        (#[trigger] model.opened_conflicts[k]).conflict.participants,
                        model.opened_conflicts[at as int].conflict.participants,
                    ),
            decreases at - index,
        {
            assert(self.opened_conflicts@[index as int].deep_view() == model.opened_conflicts[index as int]);
            if targets_shared(&self.opened_conflicts[index].conflict.participants, &current.conflict.participants) {
                return true;
            }
            index = index + 1;
        }
        false
    }

    fn validate_conflicts(&self) -> (result: Result<()>)
        ensures
            fails_as(
                result,
                first_from(self.deep_view().opening_problem(), 0, self.deep_view().opened_conflicts.len()),
            ),
    {
        let ghost model = self.deep_view();
        let ghost problem = model.opening_problem();
        let mut index: usize = 0;
        while index < self.opened_conflicts.len()
            invariant
                index <= self.opened_conflicts@.len(),
                model == self.deep_view(),
                problem == model.opening_problem(),
                first_from(problem, 0, model.opened_conflicts.len()) == first_from(
                    problem,
                    index as nat,
                    model.opened_conflicts.len(),
                ),
            decreases self.opened_conflicts@.len() - index,
        {
            let opening = &self.opened_conflicts[index];
            assert(opening.deep_view() == model.opened_conflicts[index as int]);
            opening.conflict.validate()?;
            if opening.space_id != self.confirmation.primary_space_id || self.conflict_repeats(index) {
                return Err(
                    invalid_input("Candidate Confirmation opened conflicts must be unique and Primary-scoped"),
                );
            }
            let source = &opening.conflict.participants[0];
            assert(source.deep_view() == model.opened_conflicts[index as int].conflict.participants[0]);
            if source.context_id != self.result_context_id || source.revision_id != self.result_revision.revision_id
                || source.publication_id != self.publication.publication_id {
                return Err(
                    invalid_input("Candidate Confirmation conflict must name the confirming revision first"),
                );
            }
            if !opening.conflict.applicability.same(&self.result_revision.applicability) {
                return Err(
                    invalid_input("Candidate Confirmation conflict applicability must be the confirming revision's"),
                );
            }
            if self.conflict_target_repeats(index) {
                return Err(invalid_input("Candidate Confirmation conflict targets must not repeat"));
            }
            index = index + 1;
        }
        Ok(())
    }

    fn facts_inconsistent(&self) -> (inconsistent: bool)
        ensures
            inconsistent == self.deep_view().facts_disagree(),
    {
        let operation_hash = self.operation.operation_hash();
        let draft = context_revision_as_draft(&self.result_revision);
        let final_content_hash = context_revision_content_hash(&draft);
        self.operation_hash != operation_hash || self.operation.candidate_id != self.confirmation.candidate_id
            || self.result_context_id != self.confirmation.result_context_id || self.result_revision.revision_id
            != self.confirmation.result_revision_id || self.space_association.association_id
            != self.confirmation.space_association_id || self.publication.publication_id
            != self.confirmation.publication_id || self.publication.revision_id != self.result_revision.revision_id
            || self.space_association.context_id != self.result_context_id || self.space_association.primary_space_id
            != self.confirmation.primary_space_id || !self.space_association.related_space_ids.same(
            &self.confirmation.related_space_ids,
        ) || !self.event_ids.engineering_reference_event_ids.same(
            &self.confirmation.causal_refs.engineering_reference_event_ids,
        ) || self.event_ids.engineering_reference_event_ids.len() != self.engineering_references.len()
            || self.event_ids.semantic_conflict_event_ids.len() != self.opened_conflicts.len() || final_content_hash
            != self.confirmation.final_content_hash
    }

    fn events_inconsistent(&self) -> (inconsistent: bool)
        ensures
            inconsistent == self.deep_view().events_disagree(),
    {
        !self.event_ids.space_created_event_id.same(&self.confirmation.causal_refs.space_created_event_id)
            || self.event_ids.context_revision_event_id != self.confirmation.causal_refs.context_revision_event_id
            || self.event_ids.space_association_event_id != self.confirmation.causal_refs.space_association_event_id
            || self.event_ids.publication_event_id != self.confirmation.causal_refs.publication_event_id
    }

    fn validate_new_space(&self) -> (result: Result<()>)
        ensures
            fails_as(result, self.deep_view().new_space_problem()),
    {
        match (&self.new_space, self.confirmation.created_space_id) {
            (Some(space), Some(created)) => {
                if space.space_id != created {
                    return Err(invalid_input("Candidate Confirmation plan new Space identity is inconsistent"));
                }
                space.intent_revision.validate()
            },
            (None, None) => Ok(()),
            _ => Err(invalid_input("Candidate Confirmation plan new Space identity is inconsistent")),
        }
    }

    fn validate_events(&self) -> (result: Result<()>)
        ensures
            fails_as(
                result,
                unique_problem(self.deep_view().event_ids.events(), "candidate_confirmation_plan.event_ids"@),
            ),
    {
        let mut event_ids: Vec<EventId> = Vec::new();
        push_value(&mut event_ids, self.event_ids.context_revision_event_id);
        push_value(&mut event_ids, self.event_ids.space_association_event_id);
        push_value(&mut event_ids, self.event_ids.publication_event_id);
        push_value(&mut event_ids, self.event_ids.confirmation_event_id);
        if let Some(event_id) = self.event_ids.space_created_event_id {
            push_value(&mut event_ids, event_id);
        }
        push_all(&mut event_ids, &self.event_ids.engineering_reference_event_ids);
        push_all(&mut event_ids, &self.event_ids.semantic_conflict_event_ids);
        assert(event_ids.deep_view() =~= self.deep_view().event_ids.events());
        require_unique(&event_ids, "candidate_confirmation_plan.event_ids")
    }

    /// Validates all local identities and causal references in the reserved closure.
    pub fn validate(&self) -> (result: Result<()>)
        ensures
            fails_as(result, self.deep_view().problem()),
    {
        self.operation.validate()?;
        if self.facts_inconsistent() {
            return Err(invalid_input("Candidate Confirmation plan fact identities are inconsistent"));
        }
        self.result_revision.validate()?;
        self.space_association.validate()?;
        self.publication.validate()?;
        self.validate_references()?;
        self.validate_conflicts()?;
        self.confirmation.validate()?;
        if self.events_inconsistent() {
            return Err(invalid_input("Candidate Confirmation plan Event identities are inconsistent"));
        }
        self.validate_new_space()?;
        self.validate_events()
    }

    /// Hashes the complete server-owned plan including generated identities.
    #[must_use]
    pub fn plan_hash(&self) -> (hash: String)
        ensures
            hash@ == self.deep_view().hash(),
            is_prefixed_digest(hash@, "sha256:"@),
            is_content_hash(hash@),
    {
        let mut encoded = String::new();
        self.write_json(&mut encoded);
        assert(encoded@ =~= <CandidateConfirmationPlan as Json>::json(self.deep_view()));
        proof {
            text_hashes_are_content_hashes(encoded@);
        }
        prefixed_hash(encoded.as_str())
    }

    /// Returns the exact number of immutable Events materialized by this plan.
    #[must_use]
    pub fn expected_event_count(&self) -> (count: usize)
        requires
            5 + self.engineering_references@.len() + self.opened_conflicts@.len() <= usize::MAX,
        ensures
            count == self.deep_view().event_count(),
    {
        let base: usize = if self.new_space.is_some() {
            5
        } else {
            4
        };
        base + self.engineering_references.len() + self.opened_conflicts.len()
    }
}

fn same_engineering_reference_content(left: &EngineeringReference, right: &EngineeringReference) -> (same: bool)
    ensures
        same == (left.deep_view().draft() == right.deep_view().draft()),
{
    left.repository_id.same(&right.repository_id) && left.artifact_kind == right.artifact_kind && left.relation
        == right.relation && left.locator.same(&right.locator) && left.supports.same(&right.supports)
        && left.limitations.same(&right.limitations)
}

fn validate_reference_drafts(drafts: &Vec<EngineeringReferenceDraft>) -> (result: Result<()>)
    ensures
        forall|inputs: CandidateConfirmationInputsView|
            inputs.engineering_reference_drafts == drafts.deep_view() ==> fails_as(
                result,
                first_from(#[trigger] inputs.draft_problem(), 0, drafts.deep_view().len()),
            ),
{
    let ghost model = drafts.deep_view();
    let ghost problem = reference_draft_problem(model);
    proof {
        assert forall|inputs: CandidateConfirmationInputsView| inputs.engineering_reference_drafts
            == drafts.deep_view() implies #[trigger] inputs.draft_problem() == problem by {
            assert(inputs.draft_problem() =~= problem);
        }
    }
    let mut seen: Vec<EngineeringReferenceDraft> = Vec::new();
    let mut index: usize = 0;
    assert(seen.deep_view() =~= model.take(0));
    while index < drafts.len()
        invariant
            index <= drafts@.len(),
            model == drafts.deep_view(),
            problem == reference_draft_problem(model),
            seen.deep_view() == model.take(index as int),
            first_from(problem, 0, model.len()) == first_from(problem, index as nat, model.len()),
        decreases drafts@.len() - index,
    {
        assert(drafts@[index as int].deep_view() == model[index as int]);
        drafts[index].validate()?;
        if is_among(&seen, &drafts[index]) {
            return Err(invalid_input("Candidate Confirmation Engineering References must not contain duplicates"));
        }
        push_value(&mut seen, drafts[index].copied());
        proof {
            take_next(model, index as int);
        }
        index = index + 1;
    }
    Ok(())
}

/// The check of each reference draft of a list, given those before it.
spec fn reference_draft_problem(drafts: Seq<EngineeringReferenceDraftView>) -> spec_fn(int) -> Option<ErrorView> {
    |i: int|
        first(
            drafts[i].problem(),
            given(
                drafts.take(i).contains(drafts[i]),
                invalid("Candidate Confirmation Engineering References must not contain duplicates"@),
            ),
        )
}

impl CandidateConfirmationInputs {
    /// Checks everything that does not depend on generated identities, and gives the final content.
    fn validate(&self) -> (result: Result<ContextRevisionDraft>)
        ensures
            fails_as(result, self.deep_view().problem()),
            result is Ok ==> result->Ok_0.deep_view() == self.deep_view().final_draft(),
    {
        self.operation.validate()?;
        if self.operation.candidate_id != self.candidate.candidate_id {
            return Err(invalid_input("Candidate Confirmation operation names a different Candidate"));
        }
        let agrees = match (&self.operation.primary, &self.resolved_primary) {
            (
                CandidateConfirmationPrimaryReference::ExistingSpace { space_id: expected },
                CandidatePrimarySelection::Existing { space_id: actual },
            ) => *expected == *actual,
            (
                CandidateConfirmationPrimaryReference::ProposedRecommendation { .. },
                CandidatePrimarySelection::ProposedNew { .. },
            ) => true,
            _ => false,
        };
        if !agrees {
            return Err(
                invalid_input("Candidate Confirmation primary reference and resolved selection disagree"),
            );
        }
        let request = CandidateConfirmationRequest {
            candidate_id: self.operation.candidate_id,
            primary: self.resolved_primary.copied(),
            related_space_ids: self.operation.related_space_ids.copied(),
            edits: self.operation.edits.copied(),
        };
        assert(request.deep_view() == self.deep_view().request());
        let final_draft = request.final_draft(&self.candidate)?;
        validate_reference_drafts(&self.engineering_reference_drafts)?;
        Ok(final_draft)
    }

    fn opening_target_repeats(&self, at: usize) -> (repeats: bool)
        requires
            at < self.conflict_openings@.len(),
        ensures
            repeats == self.deep_view().repeats_target(at as int),
    {
        let ghost model = self.deep_view();
        let current = &self.conflict_openings[at];
        assert(current.deep_view() == model.conflict_openings[at as int]);
        let mut index: usize = 0;
        while index < at
            invariant
                index <= at < self.conflict_openings@.len(),
                model == self.deep_view(),
                current.deep_view() == model.conflict_openings[at as int],
                forall|k: int|
                    0 <= k < index ==> (#[trigger] model.conflict_openings[k]).target.context_id
                        != model.conflict_openings[at as int].target.context_id,
            decreases at - index,
        {
            assert(self.conflict_openings@[index as int].deep_view() == model.conflict_openings[index as int]);
            if self.conflict_openings[index].target.context_id == current.target.context_id {
                return true;
            }
            index = index + 1;
        }
        false
    }

    /// Puts one opened conflict under its identity.
    fn open_conflict(
        &self,
        ids: &CandidateConfirmationPlanIdentities,
        at: usize,
        primary_space_id: SpaceId,
        applicability: &Applicability,
    ) -> (opened: SemanticConflictOpening)
        requires
            self.deep_view().fit(ids.deep_view()),
            at < self.conflict_openings@.len(),
            primary_space_id == self.deep_view().primary_space(ids.deep_view()),
            applicability.deep_view() == self.deep_view().final_draft().applicability,
        ensures
            opened.deep_view() == self.deep_view().opening(ids.deep_view(), at as int),
    {
        let ghost model = self.deep_view();
        let ghost names = ids.deep_view();
        let opening = &self.conflict_openings[at];
        assert(opening.deep_view() == model.conflict_openings[at as int]);
        assert(names.conflict_ids.len() == ids.conflict_ids@.len());
        let mut participants: Vec<ConflictParticipant> = Vec::new();
        push_value(
            &mut participants,
            ConflictParticipant {
                context_id: ids.result_context_id,
                revision_id: ids.result_revision_id,
                publication_id: ids.publication_id,
            },
        );
        push_value(&mut participants, opening.target.copied());
        let opened = SemanticConflictOpening {
            space_id: primary_space_id,
            conflict: SemanticConflict {
                conflict_id: ids.conflict_ids[at],
                participants,
                reason: opening.reason.copied(),
                applicability: applicability.copied(),
            },
        };
        proof {
            assert(ids.conflict_ids@[at as int].deep_view() == names.conflict_ids[at as int]);
            assert(
                opened.deep_view().conflict.participants =~= model.opening(names, at as int).conflict.participants
            );
        }
        opened
    }

    /// Reserves the conflicts that the confirmation opens.
    fn open_conflicts(
        &self,
        ids: &CandidateConfirmationPlanIdentities,
        primary_space_id: SpaceId,
        applicability: &Applicability,
    ) -> (result: Result<Vec<SemanticConflictOpening>>)
        requires
            self.deep_view().fit(ids.deep_view()),
            primary_space_id == self.deep_view().primary_space(ids.deep_view()),
            applicability.deep_view() == self.deep_view().final_draft().applicability,
        ensures
            fails_as(
                result,
                first_from(
                    self.deep_view().opening_problem(ids.deep_view()),
                    0,
                    self.deep_view().conflict_openings.len(),
                ),
            ),
            result is Ok ==> result->Ok_0.deep_view() == self.deep_view().plan(ids.deep_view()).opened_conflicts,
    {
        let ghost model = self.deep_view();
        let ghost names = ids.deep_view();
        let ghost problem = model.opening_problem(names);
        let ghost planned = model.plan(names).opened_conflicts;
        let mut opened: Vec<SemanticConflictOpening> = Vec::new();
        let mut index: usize = 0;
        assert(opened.deep_view() =~= planned.take(0));
        while index < self.conflict_openings.len()
            invariant
                index <= self.conflict_openings@.len(),
                model == self.deep_view(),
                names == ids.deep_view(),
                model.fit(names),
                problem == model.opening_problem(names),
                planned == model.plan(names).opened_conflicts,
                primary_space_id == model.primary_space(names),
                applicability.deep_view() == model.final_draft().applicability,
                opened.deep_view() == planned.take(index as int),
                first_from(problem, 0, model.conflict_openings.len()) == first_from(
                    problem,
                    index as nat,
                    model.conflict_openings.len(),
                ),
            decreases self.conflict_openings@.len() - index,
        {
            let opening = &self.conflict_openings[index];
            assert(opening.deep_view() == model.conflict_openings[index as int]);
            if opening.target.context_id == ids.result_context_id || opening.target.publication_id
                == ids.publication_id {
                return Err(
                    invalid_input("Candidate Confirmation conflict target must be a different accepted Context"),
                );
            }
            if self.opening_target_repeats(index) {
                return Err(invalid_input("Candidate Confirmation conflict targets must not contain duplicates"));
            }
            let reserved = self.open_conflict(ids, index, primary_space_id, applicability);
            proof {
                take_next(planned, index as int);
            }
            reserved.conflict.validate()?;
            push_value(&mut opened, reserved);
            index = index + 1;
        }
        proof {
            take_all(planned);
        }
        Ok(opened)
    }

    /// Puts the references under their identities.
    fn name_references(&self, ids: &CandidateConfirmationPlanIdentities) -> (references: Vec<EngineeringReference>)
        requires
            self.deep_view().fit(ids.deep_view()),
        ensures
            references.deep_view() == self.deep_view().plan(ids.deep_view()).engineering_references,
    {
        let ghost model = self.deep_view();
        let ghost names = ids.deep_view();
        let ghost planned = model.plan(names).engineering_references;
        let mut references: Vec<EngineeringReference> = Vec::new();
        let mut index: usize = 0;
        assert(references.deep_view() =~= planned.take(0));
        while index < self.engineering_reference_drafts.len()
            invariant
                index <= self.engineering_reference_drafts@.len(),
                model == self.deep_view(),
                names == ids.deep_view(),
                model.fit(names),
                planned == model.plan(names).engineering_references,
                references.deep_view() == planned.take(index as int),
            decreases self.engineering_reference_drafts@.len() - index,
        {
            let draft = self.engineering_reference_drafts[index].copied();
            assert(draft.deep_view() == model.engineering_reference_drafts[index as int]);
            assert(ids.reference_ids@[index as int].deep_view() == names.reference_ids[index as int]);
            let reference = EngineeringReference {
                reference_id: ids.reference_ids[index],
                repository_id: draft.repository_id,
                artifact_kind: draft.artifact_kind,
                relation: draft.relation,
                locator: draft.locator,
                supports: draft.supports,
                limitations: draft.limitations,
            };
            push_value(&mut references, reference);
            proof {
                take_next(planned, index as int);
            }
            index = index + 1;
        }
        proof {
            take_all(planned);
        }
        references
    }

    /// The number of pieces of evidence of the final content.
    fn evidence_count(&self) -> (count: usize)
        ensures
            count == self.deep_view().final_draft().evidence.len(),
    {
        match &self.operation.edits.evidence {
            Some(evidence) => evidence.len(),
            None => self.candidate.content.evidence.len(),
        }
    }
}

impl CandidateConfirmationPlan {
    /// Makes the plan of one Confirmation operation under given identities.
    pub fn reserve_with_identities(
        inputs: CandidateConfirmationInputs,
        ids: CandidateConfirmationPlanIdentities,
    ) -> (result: Result<Self>)
        requires
            inputs.deep_view().fit(ids.deep_view()),
        ensures
            fails_as(result, inputs.deep_view().reservation_problem(ids.deep_view())),
            result is Ok ==> result->Ok_0.deep_view() == inputs.deep_view().plan(ids.deep_view())
                && result->Ok_0.deep_view().problem() is None,
    {
        let ghost model = inputs.deep_view();
        let ghost names = ids.deep_view();
        let final_draft = inputs.validate()?;
        let engineering_references = inputs.name_references(&ids);
        let final_content_hash = context_revision_content_hash(&final_draft);
        let result_revision = ContextRevision::with_identities(
            Vec::new(),
            final_draft,
            ids.result_revision_id,
            &ids.evidence_ids,
        );
        assert(result_revision.deep_view().parent_revision_ids =~= Seq::empty());
        let (primary_space_id, new_space, space_created_event_id, created_space_id) = match &inputs.resolved_primary {
            CandidatePrimarySelection::Existing { space_id } => (*space_id, None, None, None),
            CandidatePrimarySelection::ProposedNew { intent } => {
                let space = CandidateConfirmationNewSpace {
                    space_id: ids.space_id,
                    intent_revision: IntentRevision {
                        revision_id: ids.intent_revision_id,
                        parent_revision_ids: Vec::new(),
                        intent: intent.copied(),
                        // No human has named the proposed Space yet, so it starts provisional.
                        provisional: true,
                    },
                };
                assert(space.deep_view().intent_revision.parent_revision_ids =~= Seq::empty());
                (ids.space_id, Some(space), Some(ids.space_created_event_id), Some(ids.space_id))
            },
        };
        let association = ContextSpaceAssociationDraft {
            context_id: ids.result_context_id,
            primary_space_id,
            related_space_ids: inputs.operation.related_space_ids.copied(),
            previous_association_ids: Vec::new(),
            origin: ContextSpaceAssociationOrigin::CandidateConfirmation {
                candidate_id: inputs.candidate.candidate_id,
            },
        };
        proof {
            assert(association.deep_view().previous_association_ids =~= Seq::empty());
            assert(association.deep_view() == model.association(names));
        }
        association.validate()?;
        let space_association = association.named(ids.association_id);
        let publication = Publication {
            publication_id: ids.publication_id,
            previous_publication_ids: Vec::new(),
            action: PublicationAction::Publish,
            revision_id: ids.result_revision_id,
            review_event_ids: Vec::new(),
        };
        assert(publication.deep_view().previous_publication_ids =~= Seq::empty());
        assert(publication.deep_view().review_event_ids =~= Seq::empty());
        let opened_conflicts = inputs.open_conflicts(&ids, primary_space_id, &result_revision.applicability)?;
        let confirmation_draft = CandidateConfirmationDraft {
            candidate_id: inputs.candidate.candidate_id,
            submission_id: inputs.candidate.submission_id,
            source_episode: inputs.candidate.source_episode,
            result_context_id: ids.result_context_id,
            result_revision_id: ids.result_revision_id,
            primary_space_id,
            related_space_ids: inputs.operation.related_space_ids.copied(),
            space_association_id: ids.association_id,
            publication_id: ids.publication_id,
            created_space_id,
            edits: inputs.operation.edits.copied(),
            final_content_hash,
            causal_refs: CandidateConfirmationCausalRefs {
                space_created_event_id,
                context_revision_event_id: ids.context_revision_event_id,
                space_association_event_id: ids.space_association_event_id,
                publication_event_id: ids.publication_event_id,
                engineering_reference_event_ids: ids.reference_event_ids.copied(),
            },
        };
        assert(confirmation_draft.deep_view() == model.confirmation(names));
        confirmation_draft.validate()?;
        let confirmation = confirmation_draft.named(ids.confirmation_id);
        let plan = CandidateConfirmationPlan {
            operation_hash: inputs.operation.operation_hash(),
            operation: inputs.operation,
            new_space,
            result_context_id: ids.result_context_id,
            result_revision,
            space_association,
            publication,
            engineering_references,
            opened_conflicts,
            confirmation,
            event_ids: CandidateConfirmationPlanEventIds {
                space_created_event_id,
                context_revision_event_id: ids.context_revision_event_id,
                space_association_event_id: ids.space_association_event_id,
                publication_event_id: ids.publication_event_id,
                engineering_reference_event_ids: ids.reference_event_ids,
                semantic_conflict_event_ids: ids.conflict_event_ids,
                confirmation_event_id: ids.confirmation_event_id,
            },
        };
        assert(plan.deep_view() == model.plan(names));
        plan.validate()?;
        Ok(plan)
    }

    /// Generates every stable identity and causal reference for one Confirmation operation.
    pub fn reserve(
        candidate: &ContextCandidate,
        operation: CandidateConfirmationOperation,
        resolved_primary: CandidatePrimarySelection,
        engineering_reference_drafts: Vec<EngineeringReferenceDraft>,
        conflict_openings: Vec<SemanticConflictOpeningDraft>,
    ) -> (result: Result<Self>)
        ensures
            ({
                let inputs = CandidateConfirmationInputsView {
                    candidate: candidate.deep_view(),
                    operation: operation.deep_view(),
                    resolved_primary: resolved_primary.deep_view(),
                    engineering_reference_drafts: engineering_reference_drafts.deep_view(),
                    conflict_openings: conflict_openings.deep_view(),
                };
                &&& inputs.problem() is Some ==> fails_as(result, inputs.problem())
                &&& exists|ids: CandidateConfirmationPlanIdentitiesView|
                    inputs.fit(ids) && ids.canonical() && fails_as(result, #[trigger] inputs.reservation_problem(ids)) && (result is Ok
                        ==> result->Ok_0.deep_view() == inputs.plan(ids))
                &&& result is Ok ==> result->Ok_0.deep_view().problem() is None
            }),
    {
        let inputs = CandidateConfirmationInputs {
            candidate: candidate.copied(),
            operation,
            resolved_primary,
            engineering_reference_drafts,
            conflict_openings,
        };
        let ids = draw_identities(
            inputs.evidence_count(),
            inputs.engineering_reference_drafts.len(),
            inputs.conflict_openings.len(),
        );
        let ghost model = inputs.deep_view();
        let ghost names = ids.deep_view();
        let result = Self::reserve_with_identities(inputs, ids);
        assert(model.fit(names) && names.canonical() && fails_as(result, model.reservation_problem(names)));
        result
    }
}

/// Whether every identity of a list is canonical.
pub open spec fn all_canonical<T: Identifier>(ids: Seq<T>) -> bool {
    forall|i: int| 0 <= i < ids.len() ==> (#[trigger] ids[i]).canonical()
}

impl CandidateConfirmationPlanIdentitiesView {
    /// Whether every identity is canonical, as a drawn one is.
    pub open spec fn canonical(self) -> bool {
        &&& self.result_context_id.canonical()
        &&& self.result_revision_id.canonical()
        &&& self.space_id.canonical()
        &&& self.intent_revision_id.canonical()
        &&& self.association_id.canonical()
        &&& self.publication_id.canonical()
        &&& self.confirmation_id.canonical()
        &&& self.space_created_event_id.canonical()
        &&& self.context_revision_event_id.canonical()
        &&& self.space_association_event_id.canonical()
        &&& self.publication_event_id.canonical()
        &&& self.confirmation_event_id.canonical()
        &&& all_canonical(self.evidence_ids)
        &&& all_canonical(self.reference_ids)
        &&& all_canonical(self.conflict_ids)
        &&& all_canonical(self.reference_event_ids)
        &&& all_canonical(self.conflict_event_ids)
    }
}

/// Draws fresh identities for a plan.
fn draw_identities(evidence: usize, references: usize, conflicts: usize) -> (ids: CandidateConfirmationPlanIdentities)
    ensures
        ids.deep_view().evidence_ids.len() == evidence,
        ids.deep_view().reference_ids.len() == references,
        ids.deep_view().reference_event_ids.len() == references,
        ids.deep_view().conflict_ids.len() == conflicts,
        ids.deep_view().conflict_event_ids.len() == conflicts,
        ids.deep_view().canonical(),
{
    let mut evidence_ids: Vec<EvidenceId> = Vec::new();
    while evidence_ids.len() < evidence
        invariant
            evidence_ids@.len() <= evidence,
            all_canonical(evidence_ids@),
        decreases evidence - evidence_ids@.len(),
    {
        evidence_ids.push(EvidenceId::new());
    }
    let mut reference_ids: Vec<ReferenceId> = Vec::new();
    let mut reference_event_ids: Vec<EventId> = Vec::new();
    while reference_ids.len() < references
        invariant
            reference_ids@.len() <= references,
            reference_event_ids@.len() == reference_ids@.len(),
            all_canonical(reference_ids@),
            all_canonical(reference_event_ids@),
        decreases references - reference_ids@.len(),
    {
        reference_ids.push(ReferenceId::new());
        reference_event_ids.push(EventId::new());
    }
    let mut conflict_ids: Vec<ConflictId> = Vec::new();
    let mut conflict_event_ids: Vec<EventId> = Vec::new();
    while conflict_ids.len() < conflicts
        invariant
            conflict_ids@.len() <= conflicts,
            conflict_event_ids@.len() == conflict_ids@.len(),
            all_canonical(conflict_ids@),
            all_canonical(conflict_event_ids@),
        decreases conflicts - conflict_ids@.len(),
    {
        conflict_ids.push(ConflictId::new());
        conflict_event_ids.push(EventId::new());
    }
    proof {
        assert(evidence_ids.deep_view() =~= evidence_ids@);
        assert(reference_ids.deep_view() =~= reference_ids@);
        assert(conflict_ids.deep_view() =~= conflict_ids@);
        assert(reference_event_ids.deep_view() =~= reference_event_ids@);
        assert(conflict_event_ids.deep_view() =~= conflict_event_ids@);
    }
    CandidateConfirmationPlanIdentities {
        result_context_id: ContextId::new(),
        result_revision_id: RevisionId::new(),
        evidence_ids,
        space_id: SpaceId::new(),
        intent_revision_id: RevisionId::new(),
        association_id: SpaceAssociationId::new(),
        publication_id: PublicationId::new(),
        confirmation_id: ConfirmationId::new(),
        reference_ids,
        conflict_ids,
        space_created_event_id: EventId::new(),
        context_revision_event_id: EventId::new(),
        space_association_event_id: EventId::new(),
        publication_event_id: EventId::new(),
        confirmation_event_id: EventId::new(),
        reference_event_ids,
        conflict_event_ids,
    }
}

/// The JSON text of [`OptionalCandidateEdits`] writes every field of it under its own name.
pub proof fn optional_candidate_edits_json_writes_every_field(model: OptionalCandidateEditsView)
    ensures
        model.kind is Some ==> writes(
            <OptionalCandidateEdits as Json>::json(model),
            "kind"@,
            <Option<ContextKind> as Json>::json(model.kind),
        ),
        model.topic_key is Some ==> writes(
            <OptionalCandidateEdits as Json>::json(model),
            "topic_key"@,
            <Option<TopicKeyEdit> as Json>::json(model.topic_key),
        ),
        model.problem_view is Some ==> writes(
            <OptionalCandidateEdits as Json>::json(model),
            "problem_view"@,
            <Option<ProblemViewEdit> as Json>::json(model.problem_view),
        ),
        model.statement is Some ==> writes(
            <OptionalCandidateEdits as Json>::json(model),
            "statement"@,
            <Option<String> as Json>::json(model.statement),
        ),
        model.rationale is Some ==> writes(
            <OptionalCandidateEdits as Json>::json(model),
            "rationale"@,
            <Option<String> as Json>::json(model.rationale),
        ),
        model.applicability is Some ==> writes(
            <OptionalCandidateEdits as Json>::json(model),
            "applicability"@,
            <Option<Applicability> as Json>::json(model.applicability),
        ),
        model.assumptions is Some ==> writes(
            <OptionalCandidateEdits as Json>::json(model),
            "assumptions"@,
            <Option<Vec<String>> as Json>::json(model.assumptions),
        ),
        model.recheck_when is Some ==> writes(
            <OptionalCandidateEdits as Json>::json(model),
            "recheck_when"@,
            <Option<Vec<String>> as Json>::json(model.recheck_when),
        ),
        model.hints is Some ==> writes(
            <OptionalCandidateEdits as Json>::json(model),
            "hints"@,
            <Option<Vec<String>> as Json>::json(model.hints),
        ),
        model.relations is Some ==> writes(
            <OptionalCandidateEdits as Json>::json(model),
            "relations"@,
            <Option<Vec<ContextRelation>> as Json>::json(model.relations),
        ),
        model.evidence is Some ==> writes(
            <OptionalCandidateEdits as Json>::json(model),
            "evidence"@,
            <Option<Vec<EvidenceSnapshotDraft>> as Json>::json(model.evidence),
        ),
{
    let b0 = Seq::<char>::empty();
    let b1 = with_member_if(b0, model.kind is Some, "kind"@, <Option<ContextKind> as Json>::json(model.kind));
    members_there_are_written(b0, model.kind is Some, "kind"@, <Option<ContextKind> as Json>::json(model.kind));
    let b2 = with_member_if(
        b1,
        model.topic_key is Some,
        "topic_key"@,
        <Option<TopicKeyEdit> as Json>::json(model.topic_key),
    );
    members_there_are_written(
        b1,
        model.topic_key is Some,
        "topic_key"@,
        <Option<TopicKeyEdit> as Json>::json(model.topic_key),
    );
    let b3 = with_member_if(
        b2,
        model.problem_view is Some,
        "problem_view"@,
        <Option<ProblemViewEdit> as Json>::json(model.problem_view),
    );
    members_there_are_written(
        b2,
        model.problem_view is Some,
        "problem_view"@,
        <Option<ProblemViewEdit> as Json>::json(model.problem_view),
    );
    let b4 = with_member_if(
        b3,
        model.statement is Some,
        "statement"@,
        <Option<String> as Json>::json(model.statement),
    );
    members_there_are_written(
        b3,
        model.statement is Some,
        "statement"@,
        <Option<String> as Json>::json(model.statement),
    );
    let b5 = with_member_if(
        b4,
        model.rationale is Some,
        "rationale"@,
        <Option<String> as Json>::json(model.rationale),
    );
    members_there_are_written(
        b4,
        model.rationale is Some,
        "rationale"@,
        <Option<String> as Json>::json(model.rationale),
    );
    let b6 = with_member_if(
        b5,
        model.applicability is Some,
        "applicability"@,
        <Option<Applicability> as Json>::json(model.applicability),
    );
    members_there_are_written(
        b5,
        model.applicability is Some,
        "applicability"@,
        <Option<Applicability> as Json>::json(model.applicability),
    );
    let b7 = with_member_if(
        b6,
        model.assumptions is Some,
        "assumptions"@,
        <Option<Vec<String>> as Json>::json(model.assumptions),
    );
    members_there_are_written(
        b6,
        model.assumptions is Some,
        "assumptions"@,
        <Option<Vec<String>> as Json>::json(model.assumptions),
    );
    let b8 = with_member_if(
        b7,
        model.recheck_when is Some,
        "recheck_when"@,
        <Option<Vec<String>> as Json>::json(model.recheck_when),
    );
    members_there_are_written(
        b7,
        model.recheck_when is Some,
        "recheck_when"@,
        <Option<Vec<String>> as Json>::json(model.recheck_when),
    );
    let b9 = with_member_if(b8, model.hints is Some, "hints"@, <Option<Vec<String>> as Json>::json(model.hints));
    members_there_are_written(b8, model.hints is Some, "hints"@, <Option<Vec<String>> as Json>::json(model.hints));
    let b10 = with_member_if(
        b9,
        model.relations is Some,
        "relations"@,
        <Option<Vec<ContextRelation>> as Json>::json(model.relations),
    );
    members_there_are_written(
        b9,
        model.relations is Some,
        "relations"@,
        <Option<Vec<ContextRelation>> as Json>::json(model.relations),
    );
    let b11 = with_member_if(
        b10,
        model.evidence is Some,
        "evidence"@,
        <Option<Vec<EvidenceSnapshotDraft>> as Json>::json(model.evidence),
    );
    members_there_are_written(
        b10,
        model.evidence is Some,
        "evidence"@,
        <Option<Vec<EvidenceSnapshotDraft>> as Json>::json(model.evidence),
    );
    assert(model.json_members(b0) == b11);
    objects_write_their_body(b11);
}

/// The JSON text of [`CandidateConfirmationRequest`] writes every field of it under its own name.
pub proof fn candidate_confirmation_request_json_writes_every_field(model: CandidateConfirmationRequestView)
    ensures
        writes(
            <CandidateConfirmationRequest as Json>::json(model),
            "candidate_id"@,
            <CandidateId as Json>::json(model.candidate_id),
        ),
        writes(
            <CandidateConfirmationRequest as Json>::json(model),
            "primary"@,
            <CandidatePrimarySelection as Json>::json(model.primary),
        ),
        writes(
            <CandidateConfirmationRequest as Json>::json(model),
            "related_space_ids"@,
            <Vec<SpaceId> as Json>::json(model.related_space_ids),
        ),
        writes(
            <CandidateConfirmationRequest as Json>::json(model),
            "edits"@,
            <OptionalCandidateEdits as Json>::json(model.edits),
        ),
{
    let b0 = Seq::<char>::empty();
    let b1 = with_member(b0, "candidate_id"@, <CandidateId as Json>::json(model.candidate_id));
    members_are_written(b0, "candidate_id"@, <CandidateId as Json>::json(model.candidate_id));
    let b2 = with_member(b1, "primary"@, <CandidatePrimarySelection as Json>::json(model.primary));
    members_are_written(b1, "primary"@, <CandidatePrimarySelection as Json>::json(model.primary));
    let b3 = with_member(b2, "related_space_ids"@, <Vec<SpaceId> as Json>::json(model.related_space_ids));
    members_are_written(b2, "related_space_ids"@, <Vec<SpaceId> as Json>::json(model.related_space_ids));
    let b4 = with_member(b3, "edits"@, <OptionalCandidateEdits as Json>::json(model.edits));
    members_are_written(b3, "edits"@, <OptionalCandidateEdits as Json>::json(model.edits));
    assert(model.json_members(b0) == b4);
    objects_write_their_body(b4);
}

/// The JSON text of [`CandidateConfirmationOperation`] writes every field of it under its own name.
pub proof fn candidate_confirmation_operation_json_writes_every_field(model: CandidateConfirmationOperationView)
    ensures
        writes(
            <CandidateConfirmationOperation as Json>::json(model),
            "candidate_id"@,
            <CandidateId as Json>::json(model.candidate_id),
        ),
        writes(
            <CandidateConfirmationOperation as Json>::json(model),
            "review_parent_version"@,
            <u64 as Json>::json(model.review_parent_version),
        ),
        writes(
            <CandidateConfirmationOperation as Json>::json(model),
            "analysis_generation"@,
            <u64 as Json>::json(model.analysis_generation),
        ),
        writes(
            <CandidateConfirmationOperation as Json>::json(model),
            "primary"@,
            <CandidateConfirmationPrimaryReference as Json>::json(model.primary),
        ),
        writes(
            <CandidateConfirmationOperation as Json>::json(model),
            "related_space_ids"@,
            <Vec<SpaceId> as Json>::json(model.related_space_ids),
        ),
        writes(
            <CandidateConfirmationOperation as Json>::json(model),
            "edits"@,
            <OptionalCandidateEdits as Json>::json(model.edits),
        ),
{
    let b0 = Seq::<char>::empty();
    let b1 = with_member(b0, "candidate_id"@, <CandidateId as Json>::json(model.candidate_id));
    members_are_written(b0, "candidate_id"@, <CandidateId as Json>::json(model.candidate_id));
    let b2 = with_member(b1, "review_parent_version"@, <u64 as Json>::json(model.review_parent_version));
    members_are_written(b1, "review_parent_version"@, <u64 as Json>::json(model.review_parent_version));
    let b3 = with_member(b2, "analysis_generation"@, <u64 as Json>::json(model.analysis_generation));
    members_are_written(b2, "analysis_generation"@, <u64 as Json>::json(model.analysis_generation));
    let b4 = with_member(b3, "primary"@, <CandidateConfirmationPrimaryReference as Json>::json(model.primary));
    members_are_written(b3, "primary"@, <CandidateConfirmationPrimaryReference as Json>::json(model.primary));
    let b5 = with_member(b4, "related_space_ids"@, <Vec<SpaceId> as Json>::json(model.related_space_ids));
    members_are_written(b4, "related_space_ids"@, <Vec<SpaceId> as Json>::json(model.related_space_ids));
    let b6 = with_member(b5, "edits"@, <OptionalCandidateEdits as Json>::json(model.edits));
    members_are_written(b5, "edits"@, <OptionalCandidateEdits as Json>::json(model.edits));
    assert(model.json_members(b0) == b6);
    objects_write_their_body(b6);
}

/// The JSON text of [`ContextSpaceAssociationDraft`] writes every field of it under its own name.
pub proof fn context_space_association_draft_json_writes_every_field(model: ContextSpaceAssociationDraftView)
    ensures
        writes(
            <ContextSpaceAssociationDraft as Json>::json(model),
            "context_id"@,
            <ContextId as Json>::json(model.context_id),
        ),
        writes(
            <ContextSpaceAssociationDraft as Json>::json(model),
            "primary_space_id"@,
            <SpaceId as Json>::json(model.primary_space_id),
        ),
        writes(
            <ContextSpaceAssociationDraft as Json>::json(model),
            "related_space_ids"@,
            <Vec<SpaceId> as Json>::json(model.related_space_ids),
        ),
        writes(
            <ContextSpaceAssociationDraft as Json>::json(model),
            "previous_association_ids"@,
            <Vec<SpaceAssociationId> as Json>::json(model.previous_association_ids),
        ),
        writes(
            <ContextSpaceAssociationDraft as Json>::json(model),
            "origin"@,
            <ContextSpaceAssociationOrigin as Json>::json(model.origin),
        ),
{
    let b0 = Seq::<char>::empty();
    let b1 = with_member(b0, "context_id"@, <ContextId as Json>::json(model.context_id));
    members_are_written(b0, "context_id"@, <ContextId as Json>::json(model.context_id));
    let b2 = with_member(b1, "primary_space_id"@, <SpaceId as Json>::json(model.primary_space_id));
    members_are_written(b1, "primary_space_id"@, <SpaceId as Json>::json(model.primary_space_id));
    let b3 = with_member(b2, "related_space_ids"@, <Vec<SpaceId> as Json>::json(model.related_space_ids));
    members_are_written(b2, "related_space_ids"@, <Vec<SpaceId> as Json>::json(model.related_space_ids));
    let b4 = with_member(
        b3,
        "previous_association_ids"@,
        <Vec<SpaceAssociationId> as Json>::json(model.previous_association_ids),
    );
    members_are_written(
        b3,
        "previous_association_ids"@,
        <Vec<SpaceAssociationId> as Json>::json(model.previous_association_ids),
    );
    let b5 = with_member(b4, "origin"@, <ContextSpaceAssociationOrigin as Json>::json(model.origin));
    members_are_written(b4, "origin"@, <ContextSpaceAssociationOrigin as Json>::json(model.origin));
    assert(model.json_members(b0) == b5);
    objects_write_their_body(b5);
}

/// The JSON text of [`ContextSpaceAssociation`] writes every field of it under its own name.
pub proof fn context_space_association_json_writes_every_field(model: ContextSpaceAssociationView)
    ensures
        writes(
            <ContextSpaceAssociation as Json>::json(model),
            "association_id"@,
            <SpaceAssociationId as Json>::json(model.association_id),
        ),
        writes(
            <ContextSpaceAssociation as Json>::json(model),
            "context_id"@,
            <ContextId as Json>::json(model.context_id),
        ),
        writes(
            <ContextSpaceAssociation as Json>::json(model),
            "primary_space_id"@,
            <SpaceId as Json>::json(model.primary_space_id),
        ),
        writes(
            <ContextSpaceAssociation as Json>::json(model),
            "related_space_ids"@,
            <Vec<SpaceId> as Json>::json(model.related_space_ids),
        ),
        writes(
            <ContextSpaceAssociation as Json>::json(model),
            "previous_association_ids"@,
            <Vec<SpaceAssociationId> as Json>::json(model.previous_association_ids),
        ),
        writes(
            <ContextSpaceAssociation as Json>::json(model),
            "origin"@,
            <ContextSpaceAssociationOrigin as Json>::json(model.origin),
        ),
{
    let b0 = Seq::<char>::empty();
    let b1 = with_member(b0, "association_id"@, <SpaceAssociationId as Json>::json(model.association_id));
    members_are_written(b0, "association_id"@, <SpaceAssociationId as Json>::json(model.association_id));
    let b2 = with_member(b1, "context_id"@, <ContextId as Json>::json(model.context_id));
    members_are_written(b1, "context_id"@, <ContextId as Json>::json(model.context_id));
    let b3 = with_member(b2, "primary_space_id"@, <SpaceId as Json>::json(model.primary_space_id));
    members_are_written(b2, "primary_space_id"@, <SpaceId as Json>::json(model.primary_space_id));
    let b4 = with_member(b3, "related_space_ids"@, <Vec<SpaceId> as Json>::json(model.related_space_ids));
    members_are_written(b3, "related_space_ids"@, <Vec<SpaceId> as Json>::json(model.related_space_ids));
    let b5 = with_member(
        b4,
        "previous_association_ids"@,
        <Vec<SpaceAssociationId> as Json>::json(model.previous_association_ids),
    );
    members_are_written(
        b4,
        "previous_association_ids"@,
        <Vec<SpaceAssociationId> as Json>::json(model.previous_association_ids),
    );
    let b6 = with_member(b5, "origin"@, <ContextSpaceAssociationOrigin as Json>::json(model.origin));
    members_are_written(b5, "origin"@, <ContextSpaceAssociationOrigin as Json>::json(model.origin));
    assert(model.json_members(b0) == b6);
    objects_write_their_body(b6);
}

/// The JSON text of [`CandidateConfirmationCausalRefs`] writes every field of it under its own name.
pub proof fn candidate_confirmation_causal_refs_json_writes_every_field(model: CandidateConfirmationCausalRefsView)
    ensures
        writes(
            <CandidateConfirmationCausalRefs as Json>::json(model),
            "space_created_event_id"@,
            <Option<EventId> as Json>::json(model.space_created_event_id),
        ),
        writes(
            <CandidateConfirmationCausalRefs as Json>::json(model),
            "context_revision_event_id"@,
            <EventId as Json>::json(model.context_revision_event_id),
        ),
        writes(
            <CandidateConfirmationCausalRefs as Json>::json(model),
            "space_association_event_id"@,
            <EventId as Json>::json(model.space_association_event_id),
        ),
        writes(
            <CandidateConfirmationCausalRefs as Json>::json(model),
            "publication_event_id"@,
            <EventId as Json>::json(model.publication_event_id),
        ),
        model.engineering_reference_event_ids.len() > 0 ==> writes(
            <CandidateConfirmationCausalRefs as Json>::json(model),
            "engineering_reference_event_ids"@,
            <Vec<EventId> as Json>::json(model.engineering_reference_event_ids),
        ),
{
    let b0 = Seq::<char>::empty();
    let b1 = with_member(
        b0,
        "space_created_event_id"@,
        <Option<EventId> as Json>::json(model.space_created_event_id),
    );
    members_are_written(b0, "space_created_event_id"@, <Option<EventId> as Json>::json(model.space_created_event_id));
    let b2 = with_member(b1, "context_revision_event_id"@, <EventId as Json>::json(model.context_revision_event_id));
    members_are_written(b1, "context_revision_event_id"@, <EventId as Json>::json(model.context_revision_event_id));
    let b3 = with_member(
        b2,
        "space_association_event_id"@,
        <EventId as Json>::json(model.space_association_event_id),
    );
    members_are_written(b2, "space_association_event_id"@, <EventId as Json>::json(model.space_association_event_id));
    let b4 = with_member(b3, "publication_event_id"@, <EventId as Json>::json(model.publication_event_id));
    members_are_written(b3, "publication_event_id"@, <EventId as Json>::json(model.publication_event_id));
    let b5 = with_member_if(
        b4,
        model.engineering_reference_event_ids.len() > 0,
        "engineering_reference_event_ids"@,
        <Vec<EventId> as Json>::json(model.engineering_reference_event_ids),
    );
    members_there_are_written(
        b4,
        model.engineering_reference_event_ids.len() > 0,
        "engineering_reference_event_ids"@,
        <Vec<EventId> as Json>::json(model.engineering_reference_event_ids),
    );
    assert(model.json_members(b0) == b5);
    objects_write_their_body(b5);
}

/// The JSON text of [`CandidateConfirmationDraft`] writes every field of it under its own name.
pub proof fn candidate_confirmation_draft_json_writes_every_field(model: CandidateConfirmationDraftView)
    ensures
        writes(
            <CandidateConfirmationDraft as Json>::json(model),
            "candidate_id"@,
            <CandidateId as Json>::json(model.candidate_id),
        ),
        writes(
            <CandidateConfirmationDraft as Json>::json(model),
            "submission_id"@,
            <SubmissionId as Json>::json(model.submission_id),
        ),
        writes(
            <CandidateConfirmationDraft as Json>::json(model),
            "source_episode"@,
            <WorkEpisodeRef as Json>::json(model.source_episode),
        ),
        writes(
            <CandidateConfirmationDraft as Json>::json(model),
            "result_context_id"@,
            <ContextId as Json>::json(model.result_context_id),
        ),
        writes(
            <CandidateConfirmationDraft as Json>::json(model),
            "result_revision_id"@,
            <RevisionId as Json>::json(model.result_revision_id),
        ),
        writes(
            <CandidateConfirmationDraft as Json>::json(model),
            "primary_space_id"@,
            <SpaceId as Json>::json(model.primary_space_id),
        ),
        writes(
            <CandidateConfirmationDraft as Json>::json(model),
            "related_space_ids"@,
            <Vec<SpaceId> as Json>::json(model.related_space_ids),
        ),
        writes(
            <CandidateConfirmationDraft as Json>::json(model),
            "space_association_id"@,
            <SpaceAssociationId as Json>::json(model.space_association_id),
        ),
        writes(
            <CandidateConfirmationDraft as Json>::json(model),
            "publication_id"@,
            <PublicationId as Json>::json(model.publication_id),
        ),
        writes(
            <CandidateConfirmationDraft as Json>::json(model),
            "created_space_id"@,
            <Option<SpaceId> as Json>::json(model.created_space_id),
        ),
        writes(
            <CandidateConfirmationDraft as Json>::json(model),
            "edits"@,
            <OptionalCandidateEdits as Json>::json(model.edits),
        ),
        writes(
            <CandidateConfirmationDraft as Json>::json(model),
            "final_content_hash"@,
            <String as Json>::json(model.final_content_hash),
        ),
        writes(
            <CandidateConfirmationDraft as Json>::json(model),
            "causal_refs"@,
            <CandidateConfirmationCausalRefs as Json>::json(model.causal_refs),
        ),
{
    let b0 = Seq::<char>::empty();
    let b1 = with_member(b0, "candidate_id"@, <CandidateId as Json>::json(model.candidate_id));
    members_are_written(b0, "candidate_id"@, <CandidateId as Json>::json(model.candidate_id));
    let b2 = with_member(b1, "submission_id"@, <SubmissionId as Json>::json(model.submission_id));
    members_are_written(b1, "submission_id"@, <SubmissionId as Json>::json(model.submission_id));
    let b3 = with_member(b2, "source_episode"@, <WorkEpisodeRef as Json>::json(model.source_episode));
    members_are_written(b2, "source_episode"@, <WorkEpisodeRef as Json>::json(model.source_episode));
    let b4 = with_member(b3, "result_context_id"@, <ContextId as Json>::json(model.result_context_id));
    members_are_written(b3, "result_context_id"@, <ContextId as Json>::json(model.result_context_id));
    let b5 = with_member(b4, "result_revision_id"@, <RevisionId as Json>::json(model.result_revision_id));
    members_are_written(b4, "result_revision_id"@, <RevisionId as Json>::json(model.result_revision_id));
    let b6 = with_member(b5, "primary_space_id"@, <SpaceId as Json>::json(model.primary_space_id));
    members_are_written(b5, "primary_space_id"@, <SpaceId as Json>::json(model.primary_space_id));
    let b7 = with_member(b6, "related_space_ids"@, <Vec<SpaceId> as Json>::json(model.related_space_ids));
    members_are_written(b6, "related_space_ids"@, <Vec<SpaceId> as Json>::json(model.related_space_ids));
    let b8 = with_member(b7, "space_association_id"@, <SpaceAssociationId as Json>::json(model.space_association_id));
    members_are_written(b7, "space_association_id"@, <SpaceAssociationId as Json>::json(model.space_association_id));
    let b9 = with_member(b8, "publication_id"@, <PublicationId as Json>::json(model.publication_id));
    members_are_written(b8, "publication_id"@, <PublicationId as Json>::json(model.publication_id));
    let b10 = with_member(b9, "created_space_id"@, <Option<SpaceId> as Json>::json(model.created_space_id));
    members_are_written(b9, "created_space_id"@, <Option<SpaceId> as Json>::json(model.created_space_id));
    let b11 = with_member(b10, "edits"@, <OptionalCandidateEdits as Json>::json(model.edits));
    members_are_written(b10, "edits"@, <OptionalCandidateEdits as Json>::json(model.edits));
    let b12 = with_member(b11, "final_content_hash"@, <String as Json>::json(model.final_content_hash));
    members_are_written(b11, "final_content_hash"@, <String as Json>::json(model.final_content_hash));
    let b13 = with_member(b12, "causal_refs"@, <CandidateConfirmationCausalRefs as Json>::json(model.causal_refs));
    members_are_written(b12, "causal_refs"@, <CandidateConfirmationCausalRefs as Json>::json(model.causal_refs));
    assert(model.json_members(b0) == b13);
    objects_write_their_body(b13);
}

/// The JSON text of [`CandidateConfirmation`] writes every field of it under its own name.
pub proof fn candidate_confirmation_json_writes_every_field(model: CandidateConfirmationView)
    ensures
        writes(
            <CandidateConfirmation as Json>::json(model),
            "confirmation_id"@,
            <ConfirmationId as Json>::json(model.confirmation_id),
        ),
        writes(
            <CandidateConfirmation as Json>::json(model),
            "candidate_id"@,
            <CandidateId as Json>::json(model.candidate_id),
        ),
        writes(
            <CandidateConfirmation as Json>::json(model),
            "submission_id"@,
            <SubmissionId as Json>::json(model.submission_id),
        ),
        writes(
            <CandidateConfirmation as Json>::json(model),
            "source_episode"@,
            <WorkEpisodeRef as Json>::json(model.source_episode),
        ),
        writes(
            <CandidateConfirmation as Json>::json(model),
            "result_context_id"@,
            <ContextId as Json>::json(model.result_context_id),
        ),
        writes(
            <CandidateConfirmation as Json>::json(model),
            "result_revision_id"@,
            <RevisionId as Json>::json(model.result_revision_id),
        ),
        writes(
            <CandidateConfirmation as Json>::json(model),
            "primary_space_id"@,
            <SpaceId as Json>::json(model.primary_space_id),
        ),
        writes(
            <CandidateConfirmation as Json>::json(model),
            "related_space_ids"@,
            <Vec<SpaceId> as Json>::json(model.related_space_ids),
        ),
        writes(
            <CandidateConfirmation as Json>::json(model),
            "space_association_id"@,
            <SpaceAssociationId as Json>::json(model.space_association_id),
        ),
        writes(
            <CandidateConfirmation as Json>::json(model),
            "publication_id"@,
            <PublicationId as Json>::json(model.publication_id),
        ),
        writes(
            <CandidateConfirmation as Json>::json(model),
            "created_space_id"@,
            <Option<SpaceId> as Json>::json(model.created_space_id),
        ),
        writes(
            <CandidateConfirmation as Json>::json(model),
            "edits"@,
            <OptionalCandidateEdits as Json>::json(model.edits),
        ),
        writes(
            <CandidateConfirmation as Json>::json(model),
            "final_content_hash"@,
            <String as Json>::json(model.final_content_hash),
        ),
        writes(
            <CandidateConfirmation as Json>::json(model),
            "causal_refs"@,
            <CandidateConfirmationCausalRefs as Json>::json(model.causal_refs),
        ),
{
    let b0 = Seq::<char>::empty();
    let b1 = with_member(b0, "confirmation_id"@, <ConfirmationId as Json>::json(model.confirmation_id));
    members_are_written(b0, "confirmation_id"@, <ConfirmationId as Json>::json(model.confirmation_id));
    let b2 = with_member(b1, "candidate_id"@, <CandidateId as Json>::json(model.candidate_id));
    members_are_written(b1, "candidate_id"@, <CandidateId as Json>::json(model.candidate_id));
    let b3 = with_member(b2, "submission_id"@, <SubmissionId as Json>::json(model.submission_id));
    members_are_written(b2, "submission_id"@, <SubmissionId as Json>::json(model.submission_id));
    let b4 = with_member(b3, "source_episode"@, <WorkEpisodeRef as Json>::json(model.source_episode));
    members_are_written(b3, "source_episode"@, <WorkEpisodeRef as Json>::json(model.source_episode));
    let b5 = with_member(b4, "result_context_id"@, <ContextId as Json>::json(model.result_context_id));
    members_are_written(b4, "result_context_id"@, <ContextId as Json>::json(model.result_context_id));
    let b6 = with_member(b5, "result_revision_id"@, <RevisionId as Json>::json(model.result_revision_id));
    members_are_written(b5, "result_revision_id"@, <RevisionId as Json>::json(model.result_revision_id));
    let b7 = with_member(b6, "primary_space_id"@, <SpaceId as Json>::json(model.primary_space_id));
    members_are_written(b6, "primary_space_id"@, <SpaceId as Json>::json(model.primary_space_id));
    let b8 = with_member(b7, "related_space_ids"@, <Vec<SpaceId> as Json>::json(model.related_space_ids));
    members_are_written(b7, "related_space_ids"@, <Vec<SpaceId> as Json>::json(model.related_space_ids));
    let b9 = with_member(b8, "space_association_id"@, <SpaceAssociationId as Json>::json(model.space_association_id));
    members_are_written(b8, "space_association_id"@, <SpaceAssociationId as Json>::json(model.space_association_id));
    let b10 = with_member(b9, "publication_id"@, <PublicationId as Json>::json(model.publication_id));
    members_are_written(b9, "publication_id"@, <PublicationId as Json>::json(model.publication_id));
    let b11 = with_member(b10, "created_space_id"@, <Option<SpaceId> as Json>::json(model.created_space_id));
    members_are_written(b10, "created_space_id"@, <Option<SpaceId> as Json>::json(model.created_space_id));
    let b12 = with_member(b11, "edits"@, <OptionalCandidateEdits as Json>::json(model.edits));
    members_are_written(b11, "edits"@, <OptionalCandidateEdits as Json>::json(model.edits));
    let b13 = with_member(b12, "final_content_hash"@, <String as Json>::json(model.final_content_hash));
    members_are_written(b12, "final_content_hash"@, <String as Json>::json(model.final_content_hash));
    let b14 = with_member(b13, "causal_refs"@, <CandidateConfirmationCausalRefs as Json>::json(model.causal_refs));
    members_are_written(b13, "causal_refs"@, <CandidateConfirmationCausalRefs as Json>::json(model.causal_refs));
    assert(model.json_members(b0) == b14);
    objects_write_their_body(b14);
}

/// The JSON text of [`CandidateConfirmationPlanEventIds`] writes every field of it under its own name.
pub proof fn candidate_confirmation_plan_event_ids_json_writes_every_field(
    model: CandidateConfirmationPlanEventIdsView,
)
    ensures
        writes(
            <CandidateConfirmationPlanEventIds as Json>::json(model),
            "space_created_event_id"@,
            <Option<EventId> as Json>::json(model.space_created_event_id),
        ),
        writes(
            <CandidateConfirmationPlanEventIds as Json>::json(model),
            "context_revision_event_id"@,
            <EventId as Json>::json(model.context_revision_event_id),
        ),
        writes(
            <CandidateConfirmationPlanEventIds as Json>::json(model),
            "space_association_event_id"@,
            <EventId as Json>::json(model.space_association_event_id),
        ),
        writes(
            <CandidateConfirmationPlanEventIds as Json>::json(model),
            "publication_event_id"@,
            <EventId as Json>::json(model.publication_event_id),
        ),
        model.engineering_reference_event_ids.len() > 0 ==> writes(
            <CandidateConfirmationPlanEventIds as Json>::json(model),
            "engineering_reference_event_ids"@,
            <Vec<EventId> as Json>::json(model.engineering_reference_event_ids),
        ),
        model.semantic_conflict_event_ids.len() > 0 ==> writes(
            <CandidateConfirmationPlanEventIds as Json>::json(model),
            "semantic_conflict_event_ids"@,
            <Vec<EventId> as Json>::json(model.semantic_conflict_event_ids),
        ),
        writes(
            <CandidateConfirmationPlanEventIds as Json>::json(model),
            "confirmation_event_id"@,
            <EventId as Json>::json(model.confirmation_event_id),
        ),
{
    let b0 = Seq::<char>::empty();
    let b1 = with_member(
        b0,
        "space_created_event_id"@,
        <Option<EventId> as Json>::json(model.space_created_event_id),
    );
    members_are_written(b0, "space_created_event_id"@, <Option<EventId> as Json>::json(model.space_created_event_id));
    let b2 = with_member(b1, "context_revision_event_id"@, <EventId as Json>::json(model.context_revision_event_id));
    members_are_written(b1, "context_revision_event_id"@, <EventId as Json>::json(model.context_revision_event_id));
    let b3 = with_member(
        b2,
        "space_association_event_id"@,
        <EventId as Json>::json(model.space_association_event_id),
    );
    members_are_written(b2, "space_association_event_id"@, <EventId as Json>::json(model.space_association_event_id));
    let b4 = with_member(b3, "publication_event_id"@, <EventId as Json>::json(model.publication_event_id));
    members_are_written(b3, "publication_event_id"@, <EventId as Json>::json(model.publication_event_id));
    let b5 = with_member_if(
        b4,
        model.engineering_reference_event_ids.len() > 0,
        "engineering_reference_event_ids"@,
        <Vec<EventId> as Json>::json(model.engineering_reference_event_ids),
    );
    members_there_are_written(
        b4,
        model.engineering_reference_event_ids.len() > 0,
        "engineering_reference_event_ids"@,
        <Vec<EventId> as Json>::json(model.engineering_reference_event_ids),
    );
    let b6 = with_member_if(
        b5,
        model.semantic_conflict_event_ids.len() > 0,
        "semantic_conflict_event_ids"@,
        <Vec<EventId> as Json>::json(model.semantic_conflict_event_ids),
    );
    members_there_are_written(
        b5,
        model.semantic_conflict_event_ids.len() > 0,
        "semantic_conflict_event_ids"@,
        <Vec<EventId> as Json>::json(model.semantic_conflict_event_ids),
    );
    let b7 = with_member(b6, "confirmation_event_id"@, <EventId as Json>::json(model.confirmation_event_id));
    members_are_written(b6, "confirmation_event_id"@, <EventId as Json>::json(model.confirmation_event_id));
    assert(model.json_members(b0) == b7);
    objects_write_their_body(b7);
}

/// The JSON text of [`SemanticConflictOpeningDraft`] writes every field of it under its own name.
pub proof fn semantic_conflict_opening_draft_json_writes_every_field(model: SemanticConflictOpeningDraftView)
    ensures
        writes(
            <SemanticConflictOpeningDraft as Json>::json(model),
            "target"@,
            <ConflictParticipant as Json>::json(model.target),
        ),
        writes(<SemanticConflictOpeningDraft as Json>::json(model), "reason"@, <String as Json>::json(model.reason)),
{
    let b0 = Seq::<char>::empty();
    let b1 = with_member(b0, "target"@, <ConflictParticipant as Json>::json(model.target));
    members_are_written(b0, "target"@, <ConflictParticipant as Json>::json(model.target));
    let b2 = with_member(b1, "reason"@, <String as Json>::json(model.reason));
    members_are_written(b1, "reason"@, <String as Json>::json(model.reason));
    assert(model.json_members(b0) == b2);
    objects_write_their_body(b2);
}

/// The JSON text of [`SemanticConflictOpening`] writes every field of it under its own name.
pub proof fn semantic_conflict_opening_json_writes_every_field(model: SemanticConflictOpeningView)
    ensures
        writes(<SemanticConflictOpening as Json>::json(model), "space_id"@, <SpaceId as Json>::json(model.space_id)),
        writes(
            <SemanticConflictOpening as Json>::json(model),
            "conflict"@,
            <SemanticConflict as Json>::json(model.conflict),
        ),
{
    let b0 = Seq::<char>::empty();
    let b1 = with_member(b0, "space_id"@, <SpaceId as Json>::json(model.space_id));
    members_are_written(b0, "space_id"@, <SpaceId as Json>::json(model.space_id));
    let b2 = with_member(b1, "conflict"@, <SemanticConflict as Json>::json(model.conflict));
    members_are_written(b1, "conflict"@, <SemanticConflict as Json>::json(model.conflict));
    assert(model.json_members(b0) == b2);
    objects_write_their_body(b2);
}

/// The JSON text of [`CandidateConfirmationNewSpace`] writes every field of it under its own name.
pub proof fn candidate_confirmation_new_space_json_writes_every_field(model: CandidateConfirmationNewSpaceView)
    ensures
        writes(
            <CandidateConfirmationNewSpace as Json>::json(model),
            "space_id"@,
            <SpaceId as Json>::json(model.space_id),
        ),
        writes(
            <CandidateConfirmationNewSpace as Json>::json(model),
            "intent_revision"@,
            <IntentRevision as Json>::json(model.intent_revision),
        ),
{
    let b0 = Seq::<char>::empty();
    let b1 = with_member(b0, "space_id"@, <SpaceId as Json>::json(model.space_id));
    members_are_written(b0, "space_id"@, <SpaceId as Json>::json(model.space_id));
    let b2 = with_member(b1, "intent_revision"@, <IntentRevision as Json>::json(model.intent_revision));
    members_are_written(b1, "intent_revision"@, <IntentRevision as Json>::json(model.intent_revision));
    assert(model.json_members(b0) == b2);
    objects_write_their_body(b2);
}

/// The JSON text of [`CandidateConfirmationPlan`] writes every field of it under its own name.
pub proof fn candidate_confirmation_plan_json_writes_every_field(model: CandidateConfirmationPlanView)
    ensures
        writes(
            <CandidateConfirmationPlan as Json>::json(model),
            "operation"@,
            <CandidateConfirmationOperation as Json>::json(model.operation),
        ),
        writes(
            <CandidateConfirmationPlan as Json>::json(model),
            "operation_hash"@,
            <String as Json>::json(model.operation_hash),
        ),
        writes(
            <CandidateConfirmationPlan as Json>::json(model),
            "new_space"@,
            <Option<CandidateConfirmationNewSpace> as Json>::json(model.new_space),
        ),
        writes(
            <CandidateConfirmationPlan as Json>::json(model),
            "result_context_id"@,
            <ContextId as Json>::json(model.result_context_id),
        ),
        writes(
            <CandidateConfirmationPlan as Json>::json(model),
            "result_revision"@,
            <ContextRevision as Json>::json(model.result_revision),
        ),
        writes(
            <CandidateConfirmationPlan as Json>::json(model),
            "space_association"@,
            <ContextSpaceAssociation as Json>::json(model.space_association),
        ),
        writes(
            <CandidateConfirmationPlan as Json>::json(model),
            "publication"@,
            <Publication as Json>::json(model.publication),
        ),
        model.engineering_references.len() > 0 ==> writes(
            <CandidateConfirmationPlan as Json>::json(model),
            "engineering_references"@,
            <Vec<EngineeringReference> as Json>::json(model.engineering_references),
        ),
        model.opened_conflicts.len() > 0 ==> writes(
            <CandidateConfirmationPlan as Json>::json(model),
            "opened_conflicts"@,
            <Vec<SemanticConflictOpening> as Json>::json(model.opened_conflicts),
        ),
        writes(
            <CandidateConfirmationPlan as Json>::json(model),
            "confirmation"@,
            <CandidateConfirmation as Json>::json(model.confirmation),
        ),
        writes(
            <CandidateConfirmationPlan as Json>::json(model),
            "event_ids"@,
            <CandidateConfirmationPlanEventIds as Json>::json(model.event_ids),
        ),
{
    let b0 = Seq::<char>::empty();
    let b1 = with_member(b0, "operation"@, <CandidateConfirmationOperation as Json>::json(model.operation));
    members_are_written(b0, "operation"@, <CandidateConfirmationOperation as Json>::json(model.operation));
    let b2 = with_member(b1, "operation_hash"@, <String as Json>::json(model.operation_hash));
    members_are_written(b1, "operation_hash"@, <String as Json>::json(model.operation_hash));
    let b3 = with_member(b2, "new_space"@, <Option<CandidateConfirmationNewSpace> as Json>::json(model.new_space));
    members_are_written(b2, "new_space"@, <Option<CandidateConfirmationNewSpace> as Json>::json(model.new_space));
    let b4 = with_member(b3, "result_context_id"@, <ContextId as Json>::json(model.result_context_id));
    members_are_written(b3, "result_context_id"@, <ContextId as Json>::json(model.result_context_id));
    let b5 = with_member(b4, "result_revision"@, <ContextRevision as Json>::json(model.result_revision));
    members_are_written(b4, "result_revision"@, <ContextRevision as Json>::json(model.result_revision));
    let b6 = with_member(b5, "space_association"@, <ContextSpaceAssociation as Json>::json(model.space_association));
    members_are_written(b5, "space_association"@, <ContextSpaceAssociation as Json>::json(model.space_association));
    let b7 = with_member(b6, "publication"@, <Publication as Json>::json(model.publication));
    members_are_written(b6, "publication"@, <Publication as Json>::json(model.publication));
    let b8 = with_member_if(
        b7,
        model.engineering_references.len() > 0,
        "engineering_references"@,
        <Vec<EngineeringReference> as Json>::json(model.engineering_references),
    );
    members_there_are_written(
        b7,
        model.engineering_references.len() > 0,
        "engineering_references"@,
        <Vec<EngineeringReference> as Json>::json(model.engineering_references),
    );
    let b9 = with_member_if(
        b8,
        model.opened_conflicts.len() > 0,
        "opened_conflicts"@,
        <Vec<SemanticConflictOpening> as Json>::json(model.opened_conflicts),
    );
    members_there_are_written(
        b8,
        model.opened_conflicts.len() > 0,
        "opened_conflicts"@,
        <Vec<SemanticConflictOpening> as Json>::json(model.opened_conflicts),
    );
    let b10 = with_member(b9, "confirmation"@, <CandidateConfirmation as Json>::json(model.confirmation));
    members_are_written(b9, "confirmation"@, <CandidateConfirmation as Json>::json(model.confirmation));
    let b11 = with_member(b10, "event_ids"@, <CandidateConfirmationPlanEventIds as Json>::json(model.event_ids));
    members_are_written(b10, "event_ids"@, <CandidateConfirmationPlanEventIds as Json>::json(model.event_ids));
    assert(model.json_members(b0) == b11);
    objects_write_their_body(b11);
}

/// Every [`DecisionSource`] is written under a name of its own.
pub proof fn decision_source_json_names_every_variant()
    ensures
        <DecisionSource as Json>::json(DecisionSource::Human) == "\"human\""@,
        <DecisionSource as Json>::json(DecisionSource::AgentPolicy) == "\"agent_policy\""@,
{
}

/// The JSON text of [`CandidatePrimarySelection`] writes its kind and every field of it under its own name.
pub proof fn candidate_primary_selection_json_writes_every_field(model: CandidatePrimarySelectionView)
    ensures
        match model {
            CandidatePrimarySelectionView::Existing { space_id } => writes(
                <CandidatePrimarySelection as Json>::json(model),
                "kind"@,
                "\"existing\""@,
            )
                && writes(
                    <CandidatePrimarySelection as Json>::json(model),
                    "space_id"@,
                    <SpaceId as Json>::json(space_id),
                ),
            CandidatePrimarySelectionView::ProposedNew { intent } => writes(
                <CandidatePrimarySelection as Json>::json(model),
                "kind"@,
                "\"proposed_new\""@,
            )
                && writes(
                    <CandidatePrimarySelection as Json>::json(model),
                    "intent"@,
                    <IntentSnapshot as Json>::json(intent),
                ),
        },
{
    match model {
        CandidatePrimarySelectionView::Existing { space_id } => {
            let b0 = Seq::<char>::empty();
            let b1 = with_member(b0, "kind"@, "\"existing\""@);
            members_are_written(b0, "kind"@, "\"existing\""@);
            let b2 = with_member(b1, "space_id"@, <SpaceId as Json>::json(space_id));
            members_are_written(b1, "space_id"@, <SpaceId as Json>::json(space_id));
            objects_write_their_body(b2);
        },
        CandidatePrimarySelectionView::ProposedNew { intent } => {
            let b0 = Seq::<char>::empty();
            let b1 = with_member(b0, "kind"@, "\"proposed_new\""@);
            members_are_written(b0, "kind"@, "\"proposed_new\""@);
            let b2 = with_member(b1, "intent"@, <IntentSnapshot as Json>::json(intent));
            members_are_written(b1, "intent"@, <IntentSnapshot as Json>::json(intent));
            objects_write_their_body(b2);
        },
    }
}

/// The JSON text of [`CandidateConfirmationPrimaryReference`] writes its kind and every field of it under its own name.
pub proof fn candidate_confirmation_primary_reference_json_writes_every_field(
    model: CandidateConfirmationPrimaryReference,
)
    ensures
        match model {
            CandidateConfirmationPrimaryReference::ExistingSpace { space_id } => writes(
                <CandidateConfirmationPrimaryReference as Json>::json(model),
                "kind"@,
                "\"existing_space\""@,
            )
                && writes(
                    <CandidateConfirmationPrimaryReference as Json>::json(model),
                    "space_id"@,
                    <SpaceId as Json>::json(space_id),
                ),
            CandidateConfirmationPrimaryReference::ProposedRecommendation { recommendation_id } => writes(
                <CandidateConfirmationPrimaryReference as Json>::json(model),
                "kind"@,
                "\"proposed_recommendation\""@,
            )
                && writes(
                    <CandidateConfirmationPrimaryReference as Json>::json(model),
                    "recommendation_id"@,
                    <SpaceRecommendationId as Json>::json(recommendation_id),
                ),
        },
{
    match model {
        CandidateConfirmationPrimaryReference::ExistingSpace { space_id } => {
            let b0 = Seq::<char>::empty();
            let b1 = with_member(b0, "kind"@, "\"existing_space\""@);
            members_are_written(b0, "kind"@, "\"existing_space\""@);
            let b2 = with_member(b1, "space_id"@, <SpaceId as Json>::json(space_id));
            members_are_written(b1, "space_id"@, <SpaceId as Json>::json(space_id));
            objects_write_their_body(b2);
        },
        CandidateConfirmationPrimaryReference::ProposedRecommendation { recommendation_id } => {
            let b0 = Seq::<char>::empty();
            let b1 = with_member(b0, "kind"@, "\"proposed_recommendation\""@);
            members_are_written(b0, "kind"@, "\"proposed_recommendation\""@);
            let b2 = with_member(b1, "recommendation_id"@, <SpaceRecommendationId as Json>::json(recommendation_id));
            members_are_written(b1, "recommendation_id"@, <SpaceRecommendationId as Json>::json(recommendation_id));
            objects_write_their_body(b2);
        },
    }
}

/// The JSON text of [`TopicKeyEdit`] writes its kind and every field of it under its own name.
pub proof fn topic_key_edit_json_writes_every_field(model: TopicKeyEditView)
    ensures
        match model {
            TopicKeyEditView::Replace { value } => writes(<TopicKeyEdit as Json>::json(model), "action"@, "\"set\""@)
                && writes(<TopicKeyEdit as Json>::json(model), "value"@, <String as Json>::json(value)),
            TopicKeyEditView::Clear => writes(<TopicKeyEdit as Json>::json(model), "action"@, "\"clear\""@),
        },
{
    match model {
        TopicKeyEditView::Replace { value } => {
            let b0 = Seq::<char>::empty();
            let b1 = with_member(b0, "action"@, "\"set\""@);
            members_are_written(b0, "action"@, "\"set\""@);
            let b2 = with_member(b1, "value"@, <String as Json>::json(value));
            members_are_written(b1, "value"@, <String as Json>::json(value));
            objects_write_their_body(b2);
        },
        TopicKeyEditView::Clear => {
            let b0 = Seq::<char>::empty();
            let b1 = with_member(b0, "action"@, "\"clear\""@);
            members_are_written(b0, "action"@, "\"clear\""@);
            objects_write_their_body(b1);
        },
    }
}

/// The JSON text of [`ProblemViewEdit`] writes its kind and every field of it under its own name.
pub proof fn problem_view_edit_json_writes_every_field(model: ProblemViewEditView)
    ensures
        match model {
            ProblemViewEditView::Replace { value } => writes(
                <ProblemViewEdit as Json>::json(model),
                "action"@,
                "\"set\""@,
            )
                && writes(<ProblemViewEdit as Json>::json(model), "value"@, <String as Json>::json(value)),
            ProblemViewEditView::Clear => writes(<ProblemViewEdit as Json>::json(model), "action"@, "\"clear\""@),
        },
{
    match model {
        ProblemViewEditView::Replace { value } => {
            let b0 = Seq::<char>::empty();
            let b1 = with_member(b0, "action"@, "\"set\""@);
            members_are_written(b0, "action"@, "\"set\""@);
            let b2 = with_member(b1, "value"@, <String as Json>::json(value));
            members_are_written(b1, "value"@, <String as Json>::json(value));
            objects_write_their_body(b2);
        },
        ProblemViewEditView::Clear => {
            let b0 = Seq::<char>::empty();
            let b1 = with_member(b0, "action"@, "\"clear\""@);
            members_are_written(b0, "action"@, "\"clear\""@);
            objects_write_their_body(b1);
        },
    }
}

/// The JSON text of [`ContextSpaceAssociationOrigin`] writes its kind and every field of it under its own name.
pub proof fn context_space_association_origin_json_writes_every_field(model: ContextSpaceAssociationOrigin)
    ensures
        match model {
            ContextSpaceAssociationOrigin::CandidateConfirmation { candidate_id } => writes(
                <ContextSpaceAssociationOrigin as Json>::json(model),
                "kind"@,
                "\"candidate_confirmation\""@,
            )
                && writes(
                    <ContextSpaceAssociationOrigin as Json>::json(model),
                    "candidate_id"@,
                    <CandidateId as Json>::json(candidate_id),
                ),
            ContextSpaceAssociationOrigin::Correction => {
                writes(<ContextSpaceAssociationOrigin as Json>::json(model), "kind"@, "\"correction\""@)
            },
        },
{
    match model {
        ContextSpaceAssociationOrigin::CandidateConfirmation { candidate_id } => {
            let b0 = Seq::<char>::empty();
            let b1 = with_member(b0, "kind"@, "\"candidate_confirmation\""@);
            members_are_written(b0, "kind"@, "\"candidate_confirmation\""@);
            let b2 = with_member(b1, "candidate_id"@, <CandidateId as Json>::json(candidate_id));
            members_are_written(b1, "candidate_id"@, <CandidateId as Json>::json(candidate_id));
            objects_write_their_body(b2);
        },
        ContextSpaceAssociationOrigin::Correction => {
            let b0 = Seq::<char>::empty();
            let b1 = with_member(b0, "kind"@, "\"correction\""@);
            members_are_written(b0, "kind"@, "\"correction\""@);
            objects_write_their_body(b1);
        },
    }
}

} // verus!
