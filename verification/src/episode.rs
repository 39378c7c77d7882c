//! Work Episodes, checkpoints and the Candidates that are built from them.

use vstd::prelude::*;
use vstd::string::StringExecFns;
use vstd::utf8::encode_utf8;

use crate::checks::{
    entry, entry_name, first_from, is_among, optional_text_problem, require_optional_text, require_text,
    require_unique, text_problem, unique_problem,
};
use crate::digest::{is_prefixed_digest, prefixed_digests_have_one_form, push_text, sha256_hex, sha256_text};
use crate::engineering::{ArtifactKind, ArtifactLocator, ArtifactLocatorView, ContextRelationKind};
use crate::error::{fails_as, first, given, invalid, invalid_input, ErrorView, Result};
use crate::ids::{
    AgentCheckpointId, CandidateBuildId, CandidateId, CaptureId, CheckpointClaimId, ContextId, EvidenceId,
    Identifier, RepositoryId, RevisionId, SignalId, SpaceId, SubmissionId, TaskId, TaskIntentRevisionId,
    TaskSessionId, WorkEpisodeId, WorkObservationId,
};
use crate::json::{object, push_member, push_member_text, push_object, with_member, Json};
use crate::model::{
    Applicability, ApplicabilityView, ContextKind, ContextRevisionDraft, ContextRevisionDraftView,
    EvidenceSnapshotDraft, EvidenceSnapshotDraftView, IntentSnapshot, IntentSnapshotView,
};
use crate::task::TaskSignalKind;
use crate::text::joined2;
use crate::value::{push_value, take_all, take_next, Value};
use crate::json_laws::{members_are_written, objects_write_their_body, writes};

verus! {

/// The check of each entry of a list of distinct texts, given those before it.
pub open spec fn distinct_text_problem(
    values: Seq<Seq<char>>,
    field: Seq<char>,
) -> spec_fn(int) -> Option<ErrorView> {
    |i: int|
        first(
            text_problem(values[i], entry(field, i as nat)),
            given(
                values.take(i).contains(values[i]),
                invalid(field + " must not contain duplicates"@),
            ),
        )
}

/// Requires every entry of a list to hold some text, and to be unlike those before it.
pub open spec fn distinct_texts_problem(values: Seq<Seq<char>>, field: Seq<char>) -> Option<ErrorView> {
    first_from(distinct_text_problem(values, field), 0, values.len())
}

fn require_distinct_texts(values: &Vec<String>, field: &str) -> (result: Result<()>)
    ensures
        fails_as(result, distinct_texts_problem(values.deep_view(), field@)),
{
    let ghost model = values.deep_view();
    let ghost problem = distinct_text_problem(model, field@);
    let mut seen: Vec<String> = Vec::new();
    let mut index: usize = 0;
    assert(seen.deep_view() =~= model.take(0));
    while index < values.len()
        invariant
            index <= values@.len(),
            model == values.deep_view(),
            problem == distinct_text_problem(model, field@),
            seen.deep_view() == model.take(index as int),
            first_from(problem, 0, model.len()) == first_from(problem, index as nat, model.len()),
        decreases values@.len() - index,
    {
        let name = entry_name(field, index);
        assert(values@[index as int]@ == model[index as int]);
        require_text(values[index].as_str(), name.as_str())?;
        if is_among(&seen, &values[index]) {
            let message = joined2(field, " must not contain duplicates");
            return Err(invalid_input(message.as_str()));
        }
        push_value(&mut seen, values[index].clone());
        proof {
            take_next(model, index as int);
        }
        index = index + 1;
    }
    Ok(())
}

/// Closed, ordered range of Task Intent revisions observed by one Work Episode.
#[derive(Clone, Debug, PartialEq, Eq)]
pub struct IntentRevisionRange {
    pub revision_ids: Vec<TaskIntentRevisionId>,
}

/// The model of [`IntentRevisionRange`].
pub struct IntentRevisionRangeView {
    pub revision_ids: Seq<TaskIntentRevisionId>,
}

impl DeepView for IntentRevisionRange {
    type V = IntentRevisionRangeView;

    open spec fn deep_view(&self) -> IntentRevisionRangeView {
        IntentRevisionRangeView {
            revision_ids: self.revision_ids.deep_view(),
        }
    }
}

impl Value for IntentRevisionRange {
    fn copied(&self) -> (copy: Self) {
        IntentRevisionRange {
            revision_ids: self.revision_ids.copied(),
        }
    }

    fn same(&self, other: &Self) -> (equal: bool) {
        self.revision_ids.same(&other.revision_ids)
    }
}

impl IntentRevisionRangeView {
    /// The JSON members, behind those of `body`.
    pub open spec fn json_members(self, body: Seq<char>) -> Seq<char> {
        let body = with_member(body, "revision_ids"@, <Vec<TaskIntentRevisionId> as Json>::json(self.revision_ids));
        body
    }
}

impl IntentRevisionRange {
    fn push_members(&self, text: &mut String)
        ensures
            final(text)@ == self.deep_view().json_members(old(text)@),
    {
        push_member(text, "revision_ids", &self.revision_ids);
    }
}

impl Json for IntentRevisionRange {
    open spec fn json(model: IntentRevisionRangeView) -> Seq<char> {
        object(model.json_members(Seq::<char>::empty()))
    }

    fn write_json(&self, out: &mut String) {
        let mut body = String::new();
        self.push_members(&mut body);
        push_object(out, body.as_str());
    }
}

impl IntentRevisionRangeView {
    /// Why a range is invalid, if it is.
    pub open spec fn problem(self) -> Option<ErrorView> {
        first(
            given(self.revision_ids.len() == 0, invalid("intent_revision_range.revision_ids must not be empty"@)),
            unique_problem(self.revision_ids, "intent_revision_range.revision_ids"@),
        )
    }
}

impl IntentRevisionRange {
    /// Creates a non-empty ordered Intent revision range.
    pub fn new(revision_ids: Vec<TaskIntentRevisionId>) -> (result: Result<Self>)
        ensures
            fails_as(
                result,
                (IntentRevisionRangeView { revision_ids: revision_ids.deep_view() }).problem(),
            ),
            result is Ok ==> result->Ok_0.revision_ids == revision_ids,
    {
        let range = IntentRevisionRange { revision_ids };
        range.validate()?;
        Ok(range)
    }

    /// Whether a revision lies in the range.
    #[must_use]
    pub fn contains(&self, revision_id: TaskIntentRevisionId) -> (found: bool)
        ensures
            found == self.deep_view().revision_ids.contains(revision_id),
    {
        is_among(&self.revision_ids, &revision_id)
    }

    /// The first revision of a non-empty range.
    #[must_use]
    pub fn first(&self) -> (id: TaskIntentRevisionId)
        requires
            self.deep_view().revision_ids.len() > 0,
        ensures
            id == self.deep_view().revision_ids[0],
    {
        self.revision_ids[0]
    }

    /// The last revision of a non-empty range.
    #[must_use]
    pub fn last(&self) -> (id: TaskIntentRevisionId)
        requires
            self.deep_view().revision_ids.len() > 0,
        ensures
            id == self.deep_view().revision_ids.last(),
    {
        self.revision_ids[self.revision_ids.len() - 1]
    }

    fn validate(&self) -> (result: Result<()>)
        ensures
            fails_as(result, self.deep_view().problem()),
    {
        if self.revision_ids.len() == 0 {
            return Err(invalid_input("intent_revision_range.revision_ids must not be empty"));
        }
        require_unique(&self.revision_ids, "intent_revision_range.revision_ids")
    }
}

/// Verifiable ownership tuple for one Work Episode.
#[derive(Clone, Copy, Debug, PartialEq, Eq, Structural, Hash)]
pub struct WorkEpisodeRef {
    pub episode_id: WorkEpisodeId,
    pub task_session_id: TaskSessionId,
    pub task_id: TaskId,
}

impl DeepView for WorkEpisodeRef {
    type V = WorkEpisodeRef;

    open spec fn deep_view(&self) -> WorkEpisodeRef {
        *self
    }
}

impl Value for WorkEpisodeRef {
    fn copied(&self) -> (copy: Self) {
        *self
    }

    fn same(&self, other: &Self) -> (equal: bool) {
        *self == *other
    }
}

impl WorkEpisodeRef {
    /// The JSON members, behind those of `body`.
    pub open spec fn json_members(self, body: Seq<char>) -> Seq<char> {
        let body = with_member(body, "episode_id"@, <WorkEpisodeId as Json>::json(self.episode_id));
        let body = with_member(body, "task_session_id"@, <TaskSessionId as Json>::json(self.task_session_id));
        let body = with_member(body, "task_id"@, <TaskId as Json>::json(self.task_id));
        body
    }
}

impl WorkEpisodeRef {
    fn push_members(&self, text: &mut String)
        ensures
            final(text)@ == self.deep_view().json_members(old(text)@),
    {
        push_member(text, "episode_id", &self.episode_id);
        push_member(text, "task_session_id", &self.task_session_id);
        push_member(text, "task_id", &self.task_id);
    }
}

impl Json for WorkEpisodeRef {
    open spec fn json(model: WorkEpisodeRef) -> Seq<char> {
        object(model.json_members(Seq::<char>::empty()))
    }

    fn write_json(&self, out: &mut String) {
        let mut body = String::new();
        self.push_members(&mut body);
        push_object(out, body.as_str());
    }
}

/// Reference to one non-locating Task Signal without retaining its raw content.
#[derive(Clone, Copy, Debug, PartialEq, Eq, Structural, Hash)]
pub struct NonLocatingSignalRef {
    pub signal_id: SignalId,
    pub task_session_id: TaskSessionId,
    pub task_id: TaskId,
    pub kind: TaskSignalKind,
}

impl DeepView for NonLocatingSignalRef {
    type V = NonLocatingSignalRef;

    open spec fn deep_view(&self) -> NonLocatingSignalRef {
        *self
    }
}

impl Value for NonLocatingSignalRef {
    fn copied(&self) -> (copy: Self) {
        *self
    }

    fn same(&self, other: &Self) -> (equal: bool) {
        *self == *other
    }
}

impl NonLocatingSignalRef {
    /// The JSON members, behind those of `body`.
    pub open spec fn json_members(self, body: Seq<char>) -> Seq<char> {
        let body = with_member(body, "signal_id"@, <SignalId as Json>::json(self.signal_id));
        let body = with_member(body, "task_session_id"@, <TaskSessionId as Json>::json(self.task_session_id));
        let body = with_member(body, "task_id"@, <TaskId as Json>::json(self.task_id));
        let body = with_member(body, "kind"@, <TaskSignalKind as Json>::json(self.kind));
        body
    }
}

impl NonLocatingSignalRef {
    fn push_members(&self, text: &mut String)
        ensures
            final(text)@ == self.deep_view().json_members(old(text)@),
    {
        push_member(text, "signal_id", &self.signal_id);
        push_member(text, "task_session_id", &self.task_session_id);
        push_member(text, "task_id", &self.task_id);
        push_member(text, "kind", &self.kind);
    }
}

impl Json for NonLocatingSignalRef {
    open spec fn json(model: NonLocatingSignalRef) -> Seq<char> {
        object(model.json_members(Seq::<char>::empty()))
    }

    fn write_json(&self, out: &mut String) {
        let mut body = String::new();
        self.push_members(&mut body);
        push_object(out, body.as_str());
    }
}

impl NonLocatingSignalRef {
    /// Why a signal does not belong to a Task, if it does not.
    pub open spec fn owner_problem(self, task_session_id: TaskSessionId, task_id: TaskId) -> Option<ErrorView> {
        given(
            self.task_session_id != task_session_id || self.task_id != task_id,
            invalid("non_locating_signal_ref must belong to the Work Episode Task"@),
        )
    }

    fn validate_owner(&self, task_session_id: TaskSessionId, task_id: TaskId) -> (result: Result<()>)
        ensures
            fails_as(result, self.owner_problem(task_session_id, task_id)),
    {
        if self.task_session_id != task_session_id || self.task_id != task_id {
            return Err(invalid_input("non_locating_signal_ref must belong to the Work Episode Task"));
        }
        Ok(())
    }
}

/// Stable repository-scoped Artifact coordinates used by Capture contracts.
#[derive(Clone, Debug, PartialEq, Eq, Hash)]
pub struct ArtifactRef {
    pub repository_id: RepositoryId,
    pub locator: ArtifactLocator,
}

/// The model of [`ArtifactRef`].
pub struct ArtifactRefView {
    pub repository_id: Seq<char>,
    pub locator: ArtifactLocatorView,
}

impl DeepView for ArtifactRef {
    type V = ArtifactRefView;

    open spec fn deep_view(&self) -> ArtifactRefView {
        ArtifactRefView {
            repository_id: self.repository_id.deep_view(),
            locator: self.locator.deep_view(),
        }
    }
}

impl Value for ArtifactRef {
    fn copied(&self) -> (copy: Self) {
        ArtifactRef {
            repository_id: self.repository_id.copied(),
            locator: self.locator.copied(),
        }
    }

    fn same(&self, other: &Self) -> (equal: bool) {
        self.repository_id.same(&other.repository_id)
            && self.locator.same(&other.locator)
    }
}

impl ArtifactRefView {
    /// The JSON members, behind those of `body`.
    pub open spec fn json_members(self, body: Seq<char>) -> Seq<char> {
        let body = with_member(body, "repository_id"@, <RepositoryId as Json>::json(self.repository_id));
        let body = with_member(body, "locator"@, <ArtifactLocator as Json>::json(self.locator));
        body
    }
}

impl ArtifactRef {
    fn push_members(&self, text: &mut String)
        ensures
            final(text)@ == self.deep_view().json_members(old(text)@),
    {
        push_member(text, "repository_id", &self.repository_id);
        push_member(text, "locator", &self.locator);
    }
}

impl Json for ArtifactRef {
    open spec fn json(model: ArtifactRefView) -> Seq<char> {
        object(model.json_members(Seq::<char>::empty()))
    }

    fn write_json(&self, out: &mut String) {
        let mut body = String::new();
        self.push_members(&mut body);
        push_object(out, body.as_str());
    }
}

impl ArtifactRef {
    fn validate(&self) -> (result: Result<()>)
        ensures
            fails_as(result, self.deep_view().locator.problem()),
    {
        self.locator.validate()
    }
}

/// Exact Task ownership carried by one redacted Capture source.
#[derive(Clone, Copy, Debug, PartialEq, Eq, Structural, Hash)]
pub struct CaptureSourceRef {
    pub capture_id: CaptureId,
    pub task_session_id: TaskSessionId,
    pub task_id: TaskId,
}

impl DeepView for CaptureSourceRef {
    type V = CaptureSourceRef;

    open spec fn deep_view(&self) -> CaptureSourceRef {
        *self
    }
}

impl Value for CaptureSourceRef {
    fn copied(&self) -> (copy: Self) {
        *self
    }

    fn same(&self, other: &Self) -> (equal: bool) {
        *self == *other
    }
}

impl CaptureSourceRef {
    /// The JSON members, behind those of `body`.
    pub open spec fn json_members(self, body: Seq<char>) -> Seq<char> {
        let body = with_member(body, "capture_id"@, <CaptureId as Json>::json(self.capture_id));
        let body = with_member(body, "task_session_id"@, <TaskSessionId as Json>::json(self.task_session_id));
        let body = with_member(body, "task_id"@, <TaskId as Json>::json(self.task_id));
        body
    }
}

impl CaptureSourceRef {
    fn push_members(&self, text: &mut String)
        ensures
            final(text)@ == self.deep_view().json_members(old(text)@),
    {
        push_member(text, "capture_id", &self.capture_id);
        push_member(text, "task_session_id", &self.task_session_id);
        push_member(text, "task_id", &self.task_id);
    }
}

impl Json for CaptureSourceRef {
    open spec fn json(model: CaptureSourceRef) -> Seq<char> {
        object(model.json_members(Seq::<char>::empty()))
    }

    fn write_json(&self, out: &mut String) {
        let mut body = String::new();
        self.push_members(&mut body);
        push_object(out, body.as_str());
    }
}

impl CaptureSourceRef {
    /// Why a capture does not belong to a Task, if it does not.
    pub open spec fn owner_problem(self, task_session_id: TaskSessionId, task_id: TaskId) -> Option<ErrorView> {
        given(
            self.task_session_id != task_session_id || self.task_id != task_id,
            invalid("capture_source_ref must belong to the Work Episode Task"@),
        )
    }

    fn validate_owner(&self, task_session_id: TaskSessionId, task_id: TaskId) -> (result: Result<()>)
        ensures
            fails_as(result, self.owner_problem(task_session_id, task_id)),
    {
        if self.task_session_id != task_session_id || self.task_id != task_id {
            return Err(invalid_input("capture_source_ref must belong to the Work Episode Task"));
        }
        Ok(())
    }
}

/// Immutable Context revision coordinates used as provenance or relationship targets.
#[derive(Clone, Copy, Debug, PartialEq, Eq, Structural, PartialOrd, Ord, Hash)]
pub struct ContextRevisionRef {
    pub context_id: ContextId,
    pub revision_id: RevisionId,
}

impl DeepView for ContextRevisionRef {
    type V = ContextRevisionRef;

    open spec fn deep_view(&self) -> ContextRevisionRef {
        *self
    }
}

impl Value for ContextRevisionRef {
    fn copied(&self) -> (copy: Self) {
        *self
    }

    fn same(&self, other: &Self) -> (equal: bool) {
        *self == *other
    }
}

impl ContextRevisionRef {
    /// The JSON members, behind those of `body`.
    pub open spec fn json_members(self, body: Seq<char>) -> Seq<char> {
        let body = with_member(body, "context_id"@, <ContextId as Json>::json(self.context_id));
        let body = with_member(body, "revision_id"@, <RevisionId as Json>::json(self.revision_id));
        body
    }
}

impl ContextRevisionRef {
    fn push_members(&self, text: &mut String)
        ensures
            final(text)@ == self.deep_view().json_members(old(text)@),
    {
        push_member(text, "context_id", &self.context_id);
        push_member(text, "revision_id", &self.revision_id);
    }
}

impl Json for ContextRevisionRef {
    open spec fn json(model: ContextRevisionRef) -> Seq<char> {
        object(model.json_members(Seq::<char>::empty()))
    }

    fn write_json(&self, out: &mut String) {
        let mut body = String::new();
        self.push_members(&mut body);
        push_object(out, body.as_str());
    }
}

/// Typed Evidence provenance that never contains raw payload text.
#[derive(Clone, Copy, Debug, PartialEq, Eq, Structural, PartialOrd, Ord, Hash)]
pub enum CaptureEvidenceRef {
    Observation {
        observation_id: WorkObservationId,
    },
    TaskSignal {
        signal_id: SignalId,
    },
    ContextEvidence {
        context_id: ContextId,
        revision_id: RevisionId,
        evidence_id: EvidenceId,
    },
}

impl DeepView for CaptureEvidenceRef {
    type V = CaptureEvidenceRef;

    open spec fn deep_view(&self) -> CaptureEvidenceRef {
        *self
    }
}

impl Value for CaptureEvidenceRef {
    fn copied(&self) -> (copy: Self) {
        *self
    }

    fn same(&self, other: &Self) -> (equal: bool) {
        *self == *other
    }
}

impl Json for CaptureEvidenceRef {
    open spec fn json(model: CaptureEvidenceRef) -> Seq<char> {
        match model {
            CaptureEvidenceRef::Observation { observation_id } => {
                let body = with_member(Seq::<char>::empty(), "kind"@, "\"observation\""@);
                let body = with_member(body, "observation_id"@, <WorkObservationId as Json>::json(observation_id));
                object(body)
            },
            CaptureEvidenceRef::TaskSignal { signal_id } => {
                let body = with_member(Seq::<char>::empty(), "kind"@, "\"task_signal\""@);
                let body = with_member(body, "signal_id"@, <SignalId as Json>::json(signal_id));
                object(body)
            },
            CaptureEvidenceRef::ContextEvidence { context_id, revision_id, evidence_id } => {
                let body = with_member(Seq::<char>::empty(), "kind"@, "\"context_evidence\""@);
                let body = with_member(body, "context_id"@, <ContextId as Json>::json(context_id));
                let body = with_member(body, "revision_id"@, <RevisionId as Json>::json(revision_id));
                let body = with_member(body, "evidence_id"@, <EvidenceId as Json>::json(evidence_id));
                object(body)
            },
        }
    }

    fn write_json(&self, out: &mut String) {
        match self {
            CaptureEvidenceRef::Observation { observation_id } => {
                let mut body = String::new();
                push_member_text(&mut body, "kind", "\"observation\"");
                push_member(&mut body, "observation_id", observation_id);
                push_object(out, body.as_str());
            },
            CaptureEvidenceRef::TaskSignal { signal_id } => {
                let mut body = String::new();
                push_member_text(&mut body, "kind", "\"task_signal\"");
                push_member(&mut body, "signal_id", signal_id);
                push_object(out, body.as_str());
            },
            CaptureEvidenceRef::ContextEvidence { context_id, revision_id, evidence_id } => {
                let mut body = String::new();
                push_member_text(&mut body, "kind", "\"context_evidence\"");
                push_member(&mut body, "context_id", context_id);
                push_member(&mut body, "revision_id", revision_id);
                push_member(&mut body, "evidence_id", evidence_id);
                push_object(out, body.as_str());
            },
        }
    }
}

/// Typed source coordinates for one normalized Work Observation.
#[derive(Clone, Debug, PartialEq, Eq, Hash)]
pub enum WorkSourceRef {
    Capture(CaptureSourceRef),
    TaskSignal(NonLocatingSignalRef),
    Artifact(ArtifactRef),
    ContextRevision(ContextRevisionRef),
    ContextEvidence {
        context_id: ContextId,
        revision_id: RevisionId,
        evidence_id: EvidenceId,
    },
}

/// The model of [`WorkSourceRef`].
pub enum WorkSourceRefView {
    Capture(CaptureSourceRef),
    TaskSignal(NonLocatingSignalRef),
    Artifact(ArtifactRefView),
    ContextRevision(ContextRevisionRef),
    ContextEvidence {
        context_id: ContextId,
        revision_id: RevisionId,
        evidence_id: EvidenceId,
    },
}

impl DeepView for WorkSourceRef {
    type V = WorkSourceRefView;

    open spec fn deep_view(&self) -> WorkSourceRefView {
        match self {
            WorkSourceRef::Capture(inner) => WorkSourceRefView::Capture(inner.deep_view()),
            WorkSourceRef::TaskSignal(inner) => WorkSourceRefView::TaskSignal(inner.deep_view()),
            WorkSourceRef::Artifact(inner) => WorkSourceRefView::Artifact(inner.deep_view()),
            WorkSourceRef::ContextRevision(inner) => WorkSourceRefView::ContextRevision(inner.deep_view()),
            WorkSourceRef::ContextEvidence { context_id, revision_id, evidence_id } => {
                WorkSourceRefView::ContextEvidence {
                    context_id: context_id.deep_view(),
                    revision_id: revision_id.deep_view(),
                    evidence_id: evidence_id.deep_view(),
                }
            },
        }
    }
}

impl Value for WorkSourceRef {
    fn copied(&self) -> (copy: Self) {
        match self {
            WorkSourceRef::Capture(inner) => WorkSourceRef::Capture(inner.copied()),
            WorkSourceRef::TaskSignal(inner) => WorkSourceRef::TaskSignal(inner.copied()),
            WorkSourceRef::Artifact(inner) => WorkSourceRef::Artifact(inner.copied()),
            WorkSourceRef::ContextRevision(inner) => WorkSourceRef::ContextRevision(inner.copied()),
            WorkSourceRef::ContextEvidence { context_id, revision_id, evidence_id } => {
                WorkSourceRef::ContextEvidence {
                    context_id: context_id.copied(),
                    revision_id: revision_id.copied(),
                    evidence_id: evidence_id.copied(),
                }
            },
        }
    }

    fn same(&self, other: &Self) -> (equal: bool) {
        match (self, other) {
            (WorkSourceRef::Capture(left_inner), WorkSourceRef::Capture(right_inner)) => left_inner.same(right_inner),
            (WorkSourceRef::TaskSignal(left_inner), WorkSourceRef::TaskSignal(right_inner)) => {
                left_inner.same(right_inner)
            },
            (WorkSourceRef::Artifact(left_inner), WorkSourceRef::Artifact(right_inner)) => {
                left_inner.same(right_inner)
            },
            (
                WorkSourceRef::ContextRevision(left_inner),
                WorkSourceRef::ContextRevision(right_inner),
            ) => left_inner.same(right_inner),
            (
                WorkSourceRef::ContextEvidence {
                    context_id: left_context_id,
                    revision_id: left_revision_id,
                    evidence_id: left_evidence_id,
                },
                WorkSourceRef::ContextEvidence {
                    context_id: right_context_id,
                    revision_id: right_revision_id,
                    evidence_id: right_evidence_id,
                },
            ) => left_context_id.same(right_context_id)
                && left_revision_id.same(right_revision_id)
                && left_evidence_id.same(right_evidence_id),
            _ => false,
        }
    }
}

impl Json for WorkSourceRef {
    open spec fn json(model: WorkSourceRefView) -> Seq<char> {
        match model {
            WorkSourceRefView::Capture(inner) => {
                object(inner.json_members(with_member(Seq::<char>::empty(), "source_kind"@, "\"capture\""@)))
            },
            WorkSourceRefView::TaskSignal(inner) => {
                object(inner.json_members(with_member(Seq::<char>::empty(), "source_kind"@, "\"task_signal\""@)))
            },
            WorkSourceRefView::Artifact(inner) => {
                object(inner.json_members(with_member(Seq::<char>::empty(), "source_kind"@, "\"artifact\""@)))
            },
            WorkSourceRefView::ContextRevision(inner) => {
                object(inner.json_members(with_member(Seq::<char>::empty(), "source_kind"@, "\"context_revision\""@)))
            },
            WorkSourceRefView::ContextEvidence { context_id, revision_id, evidence_id } => {
                let body = with_member(Seq::<char>::empty(), "source_kind"@, "\"context_evidence\""@);
                let body = with_member(body, "context_id"@, <ContextId as Json>::json(context_id));
                let body = with_member(body, "revision_id"@, <RevisionId as Json>::json(revision_id));
                let body = with_member(body, "evidence_id"@, <EvidenceId as Json>::json(evidence_id));
                object(body)
            },
        }
    }

    fn write_json(&self, out: &mut String) {
        match self {
            WorkSourceRef::Capture(inner) => {
                let mut body = String::new();
                push_member_text(&mut body, "source_kind", "\"capture\"");
                inner.push_members(&mut body);
                push_object(out, body.as_str());
            },
            WorkSourceRef::TaskSignal(inner) => {
                let mut body = String::new();
                push_member_text(&mut body, "source_kind", "\"task_signal\"");
                inner.push_members(&mut body);
                push_object(out, body.as_str());
            },
            WorkSourceRef::Artifact(inner) => {
                let mut body = String::new();
                push_member_text(&mut body, "source_kind", "\"artifact\"");
                inner.push_members(&mut body);
                push_object(out, body.as_str());
            },
            WorkSourceRef::ContextRevision(inner) => {
                let mut body = String::new();
                push_member_text(&mut body, "source_kind", "\"context_revision\"");
                inner.push_members(&mut body);
                push_object(out, body.as_str());
            },
            WorkSourceRef::ContextEvidence { context_id, revision_id, evidence_id } => {
                let mut body = String::new();
                push_member_text(&mut body, "source_kind", "\"context_evidence\"");
                push_member(&mut body, "context_id", context_id);
                push_member(&mut body, "revision_id", revision_id);
                push_member(&mut body, "evidence_id", evidence_id);
                push_object(out, body.as_str());
            },
        }
    }
}

impl WorkSourceRefView {
    /// Why a source may not ground an observation of a Task, if it may not.
    pub open spec fn owner_problem(self, task_session_id: TaskSessionId, task_id: TaskId) -> Option<ErrorView> {
        match self {
            WorkSourceRefView::Capture(capture) => capture.owner_problem(task_session_id, task_id),
            WorkSourceRefView::TaskSignal(signal) => signal.owner_problem(task_session_id, task_id),
            WorkSourceRefView::Artifact(artifact) => artifact.locator.problem(),
            WorkSourceRefView::ContextRevision(_) => None,
            WorkSourceRefView::ContextEvidence { .. } => None,
        }
    }
}

impl WorkSourceRef {
    fn validate_owner(&self, task_session_id: TaskSessionId, task_id: TaskId) -> (result: Result<()>)
        ensures
            fails_as(result, self.deep_view().owner_problem(task_session_id, task_id)),
    {
        match self {
            WorkSourceRef::Capture(capture) => capture.validate_owner(task_session_id, task_id),
            WorkSourceRef::TaskSignal(signal) => signal.validate_owner(task_session_id, task_id),
            WorkSourceRef::Artifact(artifact) => artifact.validate(),
            WorkSourceRef::ContextRevision(_) => Ok(()),
            WorkSourceRef::ContextEvidence { .. } => Ok(()),
        }
    }
}

/// How a previously retrieved Context influenced the current Task.
#[derive(Clone, Copy, Debug, PartialEq, Eq, Structural)]
pub enum ContextUseDisposition {
    Applied,
    Ignored,
}

impl DeepView for ContextUseDisposition {
    type V = ContextUseDisposition;

    open spec fn deep_view(&self) -> ContextUseDisposition {
        *self
    }
}

impl Value for ContextUseDisposition {
    fn copied(&self) -> (copy: Self) {
        *self
    }

    fn same(&self, other: &Self) -> (equal: bool) {
        *self == *other
    }
}

impl Json for ContextUseDisposition {
    open spec fn json(model: ContextUseDisposition) -> Seq<char> {
        match model {
            ContextUseDisposition::Applied => "\"applied\""@,
            ContextUseDisposition::Ignored => "\"ignored\""@,
        }
    }

    fn write_json(&self, out: &mut String) {
        match self {
            ContextUseDisposition::Applied => out.append("\"applied\""),
            ContextUseDisposition::Ignored => out.append("\"ignored\""),
        }
    }
}

/// How the Agent interacted with one Artifact.
#[derive(Clone, Copy, Debug, PartialEq, Eq, Structural)]
pub enum ArtifactAction {
    Inspected,
    Modified,
}

impl DeepView for ArtifactAction {
    type V = ArtifactAction;

    open spec fn deep_view(&self) -> ArtifactAction {
        *self
    }
}

impl Value for ArtifactAction {
    fn copied(&self) -> (copy: Self) {
        *self
    }

    fn same(&self, other: &Self) -> (equal: bool) {
        *self == *other
    }
}

impl Json for ArtifactAction {
    open spec fn json(model: ArtifactAction) -> Seq<char> {
        match model {
            ArtifactAction::Inspected => "\"inspected\""@,
            ArtifactAction::Modified => "\"modified\""@,
        }
    }

    fn write_json(&self, out: &mut String) {
        match self {
            ArtifactAction::Inspected => out.append("\"inspected\""),
            ArtifactAction::Modified => out.append("\"modified\""),
        }
    }
}

/// Bounded normalized Breadcrumb category.
#[derive(Clone, Copy, Debug, PartialEq, Eq, Structural)]
pub enum NormalizedBreadcrumbKind {
    Exploration,
    Implementation,
    Validation,
    Decision,
}

impl DeepView for NormalizedBreadcrumbKind {
    type V = NormalizedBreadcrumbKind;

    open spec fn deep_view(&self) -> NormalizedBreadcrumbKind {
        *self
    }
}

impl Value for NormalizedBreadcrumbKind {
    fn copied(&self) -> (copy: Self) {
        *self
    }

    fn same(&self, other: &Self) -> (equal: bool) {
        *self == *other
    }
}

impl Json for NormalizedBreadcrumbKind {
    open spec fn json(model: NormalizedBreadcrumbKind) -> Seq<char> {
        match model {
            NormalizedBreadcrumbKind::Exploration => "\"exploration\""@,
            NormalizedBreadcrumbKind::Implementation => "\"implementation\""@,
            NormalizedBreadcrumbKind::Validation => "\"validation\""@,
            NormalizedBreadcrumbKind::Decision => "\"decision\""@,
        }
    }

    fn write_json(&self, out: &mut String) {
        match self {
            NormalizedBreadcrumbKind::Exploration => out.append("\"exploration\""),
            NormalizedBreadcrumbKind::Implementation => out.append("\"implementation\""),
            NormalizedBreadcrumbKind::Validation => out.append("\"validation\""),
            NormalizedBreadcrumbKind::Decision => out.append("\"decision\""),
        }
    }
}

/// Normalized test result without raw tool output.
#[derive(Clone, Copy, Debug, PartialEq, Eq, Structural)]
pub enum TestOutcomeStatus {
    Passed,
    Failed,
    Inconclusive,
}

impl DeepView for TestOutcomeStatus {
    type V = TestOutcomeStatus;

    open spec fn deep_view(&self) -> TestOutcomeStatus {
        *self
    }
}

impl Value for TestOutcomeStatus {
    fn copied(&self) -> (copy: Self) {
        *self
    }

    fn same(&self, other: &Self) -> (equal: bool) {
        *self == *other
    }
}

impl Json for TestOutcomeStatus {
    open spec fn json(model: TestOutcomeStatus) -> Seq<char> {
        match model {
            TestOutcomeStatus::Passed => "\"passed\""@,
            TestOutcomeStatus::Failed => "\"failed\""@,
            TestOutcomeStatus::Inconclusive => "\"inconclusive\""@,
        }
    }

    fn write_json(&self, out: &mut String) {
        match self {
            TestOutcomeStatus::Passed => out.append("\"passed\""),
            TestOutcomeStatus::Failed => out.append("\"failed\""),
            TestOutcomeStatus::Inconclusive => out.append("\"inconclusive\""),
        }
    }
}

/// Engineering meaning extracted from work, deliberately excluding raw Agent payloads.
#[derive(Clone, Debug, PartialEq, Eq)]
pub enum NormalizedWorkObservation {
    Breadcrumb {
        category: NormalizedBreadcrumbKind,
        summary: String,
    },
    TestOutcome {
        test_name: String,
        status: TestOutcomeStatus,
        summary: String,
    },
    Diff {
        summary: String,
        artifact_refs: Vec<ArtifactRef>,
    },
    ContextUse {
        context: ContextRevisionRef,
        disposition: ContextUseDisposition,
        reason: String,
    },
    Artifact {
        artifact: ArtifactRef,
        action: ArtifactAction,
        summary: String,
    },
    Interface {
        interface: ArtifactRef,
        observation: String,
    },
    Validation {
        conclusion: String,
        evidence_refs: Vec<CaptureEvidenceRef>,
    },
    InlineValidation {
        evidence: EvidenceSnapshotDraft,
    },
    UnresolvedQuestion {
        question: String,
    },
}

/// The model of [`NormalizedWorkObservation`].
pub enum NormalizedWorkObservationView {
    Breadcrumb {
        category: NormalizedBreadcrumbKind,
        summary: Seq<char>,
    },
    TestOutcome {
        test_name: Seq<char>,
        status: TestOutcomeStatus,
        summary: Seq<char>,
    },
    Diff {
        summary: Seq<char>,
        artifact_refs: Seq<ArtifactRefView>,
    },
    ContextUse {
        context: ContextRevisionRef,
        disposition: ContextUseDisposition,
        reason: Seq<char>,
    },
    Artifact {
        artifact: ArtifactRefView,
        action: ArtifactAction,
        summary: Seq<char>,
    },
    Interface {
        interface: ArtifactRefView,
        observation: Seq<char>,
    },
    Validation {
        conclusion: Seq<char>,
        evidence_refs: Seq<CaptureEvidenceRef>,
    },
    InlineValidation {
        evidence: EvidenceSnapshotDraftView,
    },
    UnresolvedQuestion {
        question: Seq<char>,
    },
}

impl DeepView for NormalizedWorkObservation {
    type V = NormalizedWorkObservationView;

    open spec fn deep_view(&self) -> NormalizedWorkObservationView {
        match self {
            NormalizedWorkObservation::Breadcrumb { category, summary } => NormalizedWorkObservationView::Breadcrumb {
                category: category.deep_view(),
                summary: summary.deep_view(),
            },
            NormalizedWorkObservation::TestOutcome { test_name, status, summary } => {
                NormalizedWorkObservationView::TestOutcome {
                    test_name: test_name.deep_view(),
                    status: status.deep_view(),
                    summary: summary.deep_view(),
                }
            },
            NormalizedWorkObservation::Diff { summary, artifact_refs } => NormalizedWorkObservationView::Diff {
                summary: summary.deep_view(),
                artifact_refs: artifact_refs.deep_view(),
            },
            NormalizedWorkObservation::ContextUse { context, disposition, reason } => {
                NormalizedWorkObservationView::ContextUse {
                    context: context.deep_view(),
                    disposition: disposition.deep_view(),
                    reason: reason.deep_view(),
                }
            },
            NormalizedWorkObservation::Artifact { artifact, action, summary } => {
                NormalizedWorkObservationView::Artifact {
                    artifact: artifact.deep_view(),
                    action: action.deep_view(),
                    summary: summary.deep_view(),
                }
            },
            NormalizedWorkObservation::Interface { interface, observation } => {
                NormalizedWorkObservationView::Interface {
                    interface: interface.deep_view(),
                    observation: observation.deep_view(),
                }
            },
            NormalizedWorkObservation::Validation { conclusion, evidence_refs } => {
                NormalizedWorkObservationView::Validation {
                    conclusion: conclusion.deep_view(),
                    evidence_refs: evidence_refs.deep_view(),
                }
            },
            NormalizedWorkObservation::InlineValidation { evidence } => {
                NormalizedWorkObservationView::InlineValidation { evidence: evidence.deep_view() }
            },
            NormalizedWorkObservation::UnresolvedQuestion { question } => {
                NormalizedWorkObservationView::UnresolvedQuestion { question: question.deep_view() }
            },
        }
    }
}

impl Value for NormalizedWorkObservation {
    fn copied(&self) -> (copy: Self) {
        match self {
            NormalizedWorkObservation::Breadcrumb { category, summary } => {
                NormalizedWorkObservation::Breadcrumb { category: category.copied(), summary: summary.copied() }
            },
            NormalizedWorkObservation::TestOutcome { test_name, status, summary } => {
                NormalizedWorkObservation::TestOutcome {
                    test_name: test_name.copied(),
                    status: status.copied(),
                    summary: summary.copied(),
                }
            },
            NormalizedWorkObservation::Diff { summary, artifact_refs } => {
                NormalizedWorkObservation::Diff { summary: summary.copied(), artifact_refs: artifact_refs.copied() }
            },
            NormalizedWorkObservation::ContextUse { context, disposition, reason } => {
                NormalizedWorkObservation::ContextUse {
                    context: context.copied(),
                    disposition: disposition.copied(),
                    reason: reason.copied(),
                }
            },
            NormalizedWorkObservation::Artifact { artifact, action, summary } => NormalizedWorkObservation::Artifact {
                artifact: artifact.copied(),
                action: action.copied(),
                summary: summary.copied(),
            },
            NormalizedWorkObservation::Interface { interface, observation } => {
                NormalizedWorkObservation::Interface {
                    interface: interface.copied(),
                    observation: observation.copied(),
                }
            },
            NormalizedWorkObservation::Validation { conclusion, evidence_refs } => {
                NormalizedWorkObservation::Validation {
                    conclusion: conclusion.copied(),
                    evidence_refs: evidence_refs.copied(),
                }
            },
            NormalizedWorkObservation::InlineValidation { evidence } => {
                NormalizedWorkObservation::InlineValidation { evidence: evidence.copied() }
            },
            NormalizedWorkObservation::UnresolvedQuestion { question } => {
                NormalizedWorkObservation::UnresolvedQuestion { question: question.copied() }
            },
        }
    }

    fn same(&self, other: &Self) -> (equal: bool) {
        match (self, other) {
            (
                NormalizedWorkObservation::Breadcrumb { category: left_category, summary: left_summary },
                NormalizedWorkObservation::Breadcrumb { category: right_category, summary: right_summary },
            ) => left_category.same(right_category) && left_summary.same(right_summary),
            (
                NormalizedWorkObservation::TestOutcome {
                    test_name: left_test_name,
                    status: left_status,
                    summary: left_summary,
                },
                NormalizedWorkObservation::TestOutcome {
                    test_name: right_test_name,
                    status: right_status,
                    summary: right_summary,
                },
            ) => left_test_name.same(right_test_name)
                && left_status.same(right_status)
                && left_summary.same(right_summary),
            (
                NormalizedWorkObservation::Diff { summary: left_summary, artifact_refs: left_artifact_refs },
                NormalizedWorkObservation::Diff { summary: right_summary, artifact_refs: right_artifact_refs },
            ) => left_summary.same(right_summary) && left_artifact_refs.same(right_artifact_refs),
            (
                NormalizedWorkObservation::ContextUse {
                    context: left_context,
                    disposition: left_disposition,
                    reason: left_reason,
                },
                NormalizedWorkObservation::ContextUse {
                    context: right_context,
                    disposition: right_disposition,
                    reason: right_reason,
                },
            ) => left_context.same(right_context)
                && left_disposition.same(right_disposition)
                && left_reason.same(right_reason),
            (
                NormalizedWorkObservation::Artifact {
                    artifact: left_artifact,
                    action: left_action,
                    summary: left_summary,
                },
                NormalizedWorkObservation::Artifact {
                    artifact: right_artifact,
                    action: right_action,
                    summary: right_summary,
                },
            ) => left_artifact.same(right_artifact)
                && left_action.same(right_action)
                && left_summary.same(right_summary),
            (
                NormalizedWorkObservation::Interface { interface: left_interface, observation: left_observation },
                NormalizedWorkObservation::Interface { interface: right_interface, observation: right_observation },
            ) => left_interface.same(right_interface) && left_observation.same(right_observation),
            (
                NormalizedWorkObservation::Validation {
                    conclusion: left_conclusion,
                    evidence_refs: left_evidence_refs,
                },
                NormalizedWorkObservation::Validation {
                    conclusion: right_conclusion,
                    evidence_refs: right_evidence_refs,
                },
            ) => left_conclusion.same(right_conclusion) && left_evidence_refs.same(right_evidence_refs),
            (
                NormalizedWorkObservation::InlineValidation { evidence: left_evidence },
                NormalizedWorkObservation::InlineValidation { evidence: right_evidence },
            ) => left_evidence.same(right_evidence),
            (
                NormalizedWorkObservation::UnresolvedQuestion { question: left_question },
                NormalizedWorkObservation::UnresolvedQuestion { question: right_question },
            ) => left_question.same(right_question),
            _ => false,
        }
    }
}

impl Json for NormalizedWorkObservation {
    open spec fn json(model: NormalizedWorkObservationView) -> Seq<char> {
        match model {
            NormalizedWorkObservationView::Breadcrumb { category, summary } => {
                let body = with_member(Seq::<char>::empty(), "kind"@, "\"breadcrumb\""@);
                let body = with_member(body, "category"@, <NormalizedBreadcrumbKind as Json>::json(category));
                let body = with_member(body, "summary"@, <String as Json>::json(summary));
                object(body)
            },
            NormalizedWorkObservationView::TestOutcome { test_name, status, summary } => {
                let body = with_member(Seq::<char>::empty(), "kind"@, "\"test_outcome\""@);
                let body = with_member(body, "test_name"@, <String as Json>::json(test_name));
                let body = with_member(body, "status"@, <TestOutcomeStatus as Json>::json(status));
                let body = with_member(body, "summary"@, <String as Json>::json(summary));
                object(body)
            },
            NormalizedWorkObservationView::Diff { summary, artifact_refs } => {
                let body = with_member(Seq::<char>::empty(), "kind"@, "\"diff\""@);
                let body = with_member(body, "summary"@, <String as Json>::json(summary));
                let body = with_member(body, "artifact_refs"@, <Vec<ArtifactRef> as Json>::json(artifact_refs));
                object(body)
            },
            NormalizedWorkObservationView::ContextUse { context, disposition, reason } => {
                let body = with_member(Seq::<char>::empty(), "kind"@, "\"context_use\""@);
                let body = with_member(body, "context"@, <ContextRevisionRef as Json>::json(context));
                let body = with_member(body, "disposition"@, <ContextUseDisposition as Json>::json(disposition));
                let body = with_member(body, "reason"@, <String as Json>::json(reason));
                object(body)
            },
            NormalizedWorkObservationView::Artifact { artifact, action, summary } => {
                let body = with_member(Seq::<char>::empty(), "kind"@, "\"artifact\""@);
                let body = with_member(body, "artifact"@, <ArtifactRef as Json>::json(artifact));
                let body = with_member(body, "action"@, <ArtifactAction as Json>::json(action));
                let body = with_member(body, "summary"@, <String as Json>::json(summary));
                object(body)
            },
            NormalizedWorkObservationView::Interface { interface, observation } => {
                let body = with_member(Seq::<char>::empty(), "kind"@, "\"interface\""@);
                let body = with_member(body, "interface"@, <ArtifactRef as Json>::json(interface));
                let body = with_member(body, "observation"@, <String as Json>::json(observation));
                object(body)
            },
            NormalizedWorkObservationView::Validation { conclusion, evidence_refs } => {
                let body = with_member(Seq::<char>::empty(), "kind"@, "\"validation\""@);
                let body = with_member(body, "conclusion"@, <String as Json>::json(conclusion));
                let body = with_member(
                    body,
                    "evidence_refs"@,
                    <Vec<CaptureEvidenceRef> as Json>::json(evidence_refs),
                );
                object(body)
            },
            NormalizedWorkObservationView::InlineValidation { evidence } => {
                let body = with_member(Seq::<char>::empty(), "kind"@, "\"inline_validation\""@);
                let body = with_member(body, "evidence"@, <EvidenceSnapshotDraft as Json>::json(evidence));
                object(body)
            },
            NormalizedWorkObservationView::UnresolvedQuestion { question } => {
                let body = with_member(Seq::<char>::empty(), "kind"@, "\"unresolved_question\""@);
                let body = with_member(body, "question"@, <String as Json>::json(question));
                object(body)
            },
        }
    }

    fn write_json(&self, out: &mut String) {
        match self {
            NormalizedWorkObservation::Breadcrumb { category, summary } => {
                let mut body = String::new();
                push_member_text(&mut body, "kind", "\"breadcrumb\"");
                push_member(&mut body, "category", category);
                push_member(&mut body, "summary", summary);
                push_object(out, body.as_str());
            },
            NormalizedWorkObservation::TestOutcome { test_name, status, summary } => {
                let mut body = String::new();
                push_member_text(&mut body, "kind", "\"test_outcome\"");
                push_member(&mut body, "test_name", test_name);
                push_member(&mut body, "status", status);
                push_member(&mut body, "summary", summary);
                push_object(out, body.as_str());
            },
            NormalizedWorkObservation::Diff { summary, artifact_refs } => {
                let mut body = String::new();
                push_member_text(&mut body, "kind", "\"diff\"");
                push_member(&mut body, "summary", summary);
                push_member(&mut body, "artifact_refs", artifact_refs);
                push_object(out, body.as_str());
            },
            NormalizedWorkObservation::ContextUse { context, disposition, reason } => {
                let mut body = String::new();
                push_member_text(&mut body, "kind", "\"context_use\"");
                push_member(&mut body, "context", context);
                push_member(&mut body, "disposition", disposition);
                push_member(&mut body, "reason", reason);
                push_object(out, body.as_str());
            },
            NormalizedWorkObservation::Artifact { artifact, action, summary } => {
                let mut body = String::new();
                push_member_text(&mut body, "kind", "\"artifact\"");
                push_member(&mut body, "artifact", artifact);
                push_member(&mut body, "action", action);
                push_member(&mut body, "summary", summary);
                push_object(out, body.as_str());
            },
            NormalizedWorkObservation::Interface { interface, observation } => {
                let mut body = String::new();
                push_member_text(&mut body, "kind", "\"interface\"");
                push_member(&mut body, "interface", interface);
                push_member(&mut body, "observation", observation);
                push_object(out, body.as_str());
            },
            NormalizedWorkObservation::Validation { conclusion, evidence_refs } => {
                let mut body = String::new();
                push_member_text(&mut body, "kind", "\"validation\"");
                push_member(&mut body, "conclusion", conclusion);
                push_member(&mut body, "evidence_refs", evidence_refs);
                push_object(out, body.as_str());
            },
            NormalizedWorkObservation::InlineValidation { evidence } => {
                let mut body = String::new();
                push_member_text(&mut body, "kind", "\"inline_validation\"");
                push_member(&mut body, "evidence", evidence);
                push_object(out, body.as_str());
            },
            NormalizedWorkObservation::UnresolvedQuestion { question } => {
                let mut body = String::new();
                push_member_text(&mut body, "kind", "\"unresolved_question\"");
                push_member(&mut body, "question", question);
                push_object(out, body.as_str());
            },
        }
    }
}

/// The check of each artifact of a list.
pub open spec fn artifact_problem(artifacts: Seq<ArtifactRefView>) -> spec_fn(int) -> Option<ErrorView> {
    |i: int| artifacts[i].locator.problem()
}

fn validate_artifacts(artifacts: &Vec<ArtifactRef>) -> (result: Result<()>)
    ensures
        fails_as(result, first_from(artifact_problem(artifacts.deep_view()), 0, artifacts.deep_view().len())),
{
    let ghost model = artifacts.deep_view();
    let ghost problem = artifact_problem(model);
    let mut index: usize = 0;
    while index < artifacts.len()
        invariant
            index <= artifacts@.len(),
            model == artifacts.deep_view(),
            problem == artifact_problem(model),
            first_from(problem, 0, model.len()) == first_from(problem, index as nat, model.len()),
        decreases artifacts@.len() - index,
    {
        assert(artifacts@[index as int].deep_view() == model[index as int]);
        artifacts[index].validate()?;
        index = index + 1;
    }
    Ok(())
}

impl NormalizedWorkObservationView {
    /// Why the engineering meaning is incomplete, if it is.
    pub open spec fn problem(self, field: Seq<char>) -> Option<ErrorView> {
        match self {
            NormalizedWorkObservationView::Breadcrumb { summary, .. } => text_problem(summary, field + ".summary"@),
            NormalizedWorkObservationView::TestOutcome { test_name, summary, .. } => first(
                text_problem(test_name, field + ".test_name"@),
                text_problem(summary, field + ".summary"@),
            ),
            NormalizedWorkObservationView::Diff { summary, artifact_refs } => first(
                text_problem(summary, field + ".summary"@),
                first(
                    unique_problem(artifact_refs, field + ".artifact_refs"@),
                    first_from(artifact_problem(artifact_refs), 0, artifact_refs.len()),
                ),
            ),
            NormalizedWorkObservationView::ContextUse { reason, .. } => text_problem(reason, field + ".reason"@),
            NormalizedWorkObservationView::Artifact { artifact, summary, .. } => first(
                artifact.locator.problem(),
                text_problem(summary, field + ".summary"@),
            ),
            NormalizedWorkObservationView::Interface { interface, observation } => first(
                interface.locator.problem(),
                first(
                    given(
                        interface.locator.kind() != ArtifactKind::Api && interface.locator.kind()
                            != ArtifactKind::Schema,
                        invalid("normalized interface observation requires an API or Schema Artifact"@),
                    ),
                    text_problem(observation, field + ".observation"@),
                ),
            ),
            NormalizedWorkObservationView::Validation { conclusion, evidence_refs } => first(
                text_problem(conclusion, field + ".conclusion"@),
                first(
                    given(evidence_refs.len() == 0, invalid(field + ".evidence_refs must not be empty"@)),
                    unique_problem(evidence_refs, field + ".evidence_refs"@),
                ),
            ),
            NormalizedWorkObservationView::InlineValidation { evidence } => evidence.invalidity(field + ".evidence"@),
            NormalizedWorkObservationView::UnresolvedQuestion { question } => text_problem(
                question,
                field + ".question"@,
            ),
        }
    }
}

fn require_named_text(value: &str, field: &str, part: &str) -> (result: Result<()>)
    ensures
        fails_as(result, text_problem(value@, field@ + part@)),
{
    let name = joined2(field, part);
    require_text(value, name.as_str())
}

impl NormalizedWorkObservation {
    fn validate(&self, field: &str) -> (result: Result<()>)
        ensures
            fails_as(result, self.deep_view().problem(field@)),
    {
        match self {
            NormalizedWorkObservation::Breadcrumb { summary, .. } => require_named_text(
                summary.as_str(),
                field,
                ".summary",
            ),
            NormalizedWorkObservation::TestOutcome { test_name, summary, .. } => {
                require_named_text(test_name.as_str(), field, ".test_name")?;
                require_named_text(summary.as_str(), field, ".summary")
            },
            NormalizedWorkObservation::Diff { summary, artifact_refs } => {
                require_named_text(summary.as_str(), field, ".summary")?;
                let name = joined2(field, ".artifact_refs");
                require_unique(artifact_refs, name.as_str())?;
                validate_artifacts(artifact_refs)
            },
            NormalizedWorkObservation::ContextUse { reason, .. } => require_named_text(
                reason.as_str(),
                field,
                ".reason",
            ),
            NormalizedWorkObservation::Artifact { artifact, summary, .. } => {
                artifact.validate()?;
                require_named_text(summary.as_str(), field, ".summary")
            },
            NormalizedWorkObservation::Interface { interface, observation } => {
                interface.validate()?;
                let kind = interface.locator.kind();
                if !matches!(kind, ArtifactKind::Api | ArtifactKind::Schema) {
                    return Err(
                        invalid_input("normalized interface observation requires an API or Schema Artifact"),
                    );
                }
                require_named_text(observation.as_str(), field, ".observation")
            },
            NormalizedWorkObservation::Validation { conclusion, evidence_refs } => {
                require_named_text(conclusion.as_str(), field, ".conclusion")?;
                if evidence_refs.len() == 0 {
                    let message = joined2(field, ".evidence_refs must not be empty");
                    return Err(invalid_input(message.as_str()));
                }
                let name = joined2(field, ".evidence_refs");
                require_unique(evidence_refs, name.as_str())
            },
            NormalizedWorkObservation::InlineValidation { evidence } => {
                let name = joined2(field, ".evidence");
                evidence.validate(name.as_str())
            },
            NormalizedWorkObservation::UnresolvedQuestion { question } => require_named_text(
                question.as_str(),
                field,
                ".question",
            ),
        }
    }
}

/// One server-identified normalized observation with explicit Task and Intent ownership.
#[derive(Clone, Debug, PartialEq, Eq)]
pub struct WorkObservation {
    pub observation_id: WorkObservationId,
    pub task_session_id: TaskSessionId,
    pub task_id: TaskId,
    pub intent_revision_id: TaskIntentRevisionId,
    pub source_refs: Vec<WorkSourceRef>,
    pub observation: NormalizedWorkObservation,
}

/// The model of [`WorkObservation`].
pub struct WorkObservationView {
    pub observation_id: WorkObservationId,
    pub task_session_id: TaskSessionId,
    pub task_id: TaskId,
    pub intent_revision_id: TaskIntentRevisionId,
    pub source_refs: Seq<WorkSourceRefView>,
    pub observation: NormalizedWorkObservationView,
}

impl DeepView for WorkObservation {
    type V = WorkObservationView;

    open spec fn deep_view(&self) -> WorkObservationView {
        WorkObservationView {
            observation_id: self.observation_id.deep_view(),
            task_session_id: self.task_session_id.deep_view(),
            task_id: self.task_id.deep_view(),
            intent_revision_id: self.intent_revision_id.deep_view(),
            source_refs: self.source_refs.deep_view(),
            observation: self.observation.deep_view(),
        }
    }
}

impl Value for WorkObservation {
    fn copied(&self) -> (copy: Self) {
        WorkObservation {
            observation_id: self.observation_id.copied(),
            task_session_id: self.task_session_id.copied(),
            task_id: self.task_id.copied(),
            intent_revision_id: self.intent_revision_id.copied(),
            source_refs: self.source_refs.copied(),
            observation: self.observation.copied(),
        }
    }

    fn same(&self, other: &Self) -> (equal: bool) {
        self.observation_id.same(&other.observation_id)
            && self.task_session_id.same(&other.task_session_id)
            && self.task_id.same(&other.task_id)
            && self.intent_revision_id.same(&other.intent_revision_id)
            && self.source_refs.same(&other.source_refs)
            && self.observation.same(&other.observation)
    }
}

impl WorkObservationView {
    /// The JSON members, behind those of `body`.
    pub open spec fn json_members(self, body: Seq<char>) -> Seq<char> {
        let body = with_member(body, "observation_id"@, <WorkObservationId as Json>::json(self.observation_id));
        let body = with_member(body, "task_session_id"@, <TaskSessionId as Json>::json(self.task_session_id));
        let body = with_member(body, "task_id"@, <TaskId as Json>::json(self.task_id));
        let body = with_member(
            body,
            "intent_revision_id"@,
            <TaskIntentRevisionId as Json>::json(self.intent_revision_id),
        );
        let body = with_member(body, "source_refs"@, <Vec<WorkSourceRef> as Json>::json(self.source_refs));
        let body = with_member(body, "observation"@, <NormalizedWorkObservation as Json>::json(self.observation));
        body
    }
}

impl WorkObservation {
    fn push_members(&self, text: &mut String)
        ensures
            final(text)@ == self.deep_view().json_members(old(text)@),
    {
        push_member(text, "observation_id", &self.observation_id);
        push_member(text, "task_session_id", &self.task_session_id);
        push_member(text, "task_id", &self.task_id);
        push_member(text, "intent_revision_id", &self.intent_revision_id);
        push_member(text, "source_refs", &self.source_refs);
        push_member(text, "observation", &self.observation);
    }
}

impl Json for WorkObservation {
    open spec fn json(model: WorkObservationView) -> Seq<char> {
        object(model.json_members(Seq::<char>::empty()))
    }

    fn write_json(&self, out: &mut String) {
        let mut body = String::new();
        self.push_members(&mut body);
        push_object(out, body.as_str());
    }
}

impl WorkObservationView {
    /// The check of each source.
    pub open spec fn source_problem(self) -> spec_fn(int) -> Option<ErrorView> {
        |i: int| self.source_refs[i].owner_problem(self.task_session_id, self.task_id)
    }

    /// Why an observation is invalid on its own, if it is.
    pub open spec fn problem(self) -> Option<ErrorView> {
        first(
            given(
                self.source_refs.len() == 0 && !(self.observation is InlineValidation),
                invalid("work_observation.source_refs must not be empty"@),
            ),
            first(
                unique_problem(self.source_refs, "work_observation.source_refs"@),
                first(
                    first_from(self.source_problem(), 0, self.source_refs.len()),
                    self.observation.problem("work_observation.observation"@),
                ),
            ),
        )
    }
}

impl WorkObservation {
    /// Creates a normalized observation with a server-owned ID.
    pub fn from_parts(
        task_session_id: TaskSessionId,
        task_id: TaskId,
        intent_revision_id: TaskIntentRevisionId,
        source_refs: Vec<WorkSourceRef>,
        observation: NormalizedWorkObservation,
    ) -> (result: Result<Self>)
        ensures
            forall|id: WorkObservationId|
                fails_as(
                    result,
                    (#[trigger] observation_of(
                        id,
                        task_session_id,
                        task_id,
                        intent_revision_id,
                        source_refs.deep_view(),
                        observation.deep_view(),
                    )).problem(),
                ),
            result is Ok ==> result->Ok_0.observation_id.canonical() && result->Ok_0.deep_view() == observation_of(
                result->Ok_0.observation_id,
                task_session_id,
                task_id,
                intent_revision_id,
                source_refs.deep_view(),
                observation.deep_view(),
            ),
    {
        let value = WorkObservation {
            observation_id: WorkObservationId::new(),
            task_session_id,
            task_id,
            intent_revision_id,
            source_refs,
            observation,
        };
        proof {
            assert forall|id: WorkObservationId| (#[trigger] observation_of(
                id,
                task_session_id,
                task_id,
                intent_revision_id,
                source_refs.deep_view(),
                observation.deep_view(),
            )).problem() == value.deep_view().problem() by {
                let other = observation_of(
                    id,
                    task_session_id,
                    task_id,
                    intent_revision_id,
                    source_refs.deep_view(),
                    observation.deep_view(),
                );
                assert(other.source_problem() =~= value.deep_view().source_problem());
            }
        }
        value.validate()?;
        Ok(value)
    }

    fn validate(&self) -> (result: Result<()>)
        ensures
            fails_as(result, self.deep_view().problem()),
    {
        let inline = matches!(self.observation, NormalizedWorkObservation::InlineValidation { .. });
        if self.source_refs.len() == 0 && !inline {
            return Err(invalid_input("work_observation.source_refs must not be empty"));
        }
        require_unique(&self.source_refs, "work_observation.source_refs")?;
        let ghost model = self.deep_view();
        let ghost problem = model.source_problem();
        let mut index: usize = 0;
        while index < self.source_refs.len()
            invariant
                index <= self.source_refs@.len(),
                model == self.deep_view(),
                problem == model.source_problem(),
                !(self.source_refs@.len() == 0 && !(model.observation is InlineValidation)),
                unique_problem(model.source_refs, "work_observation.source_refs"@) is None,
                first_from(problem, 0, model.source_refs.len()) == first_from(
                    problem,
                    index as nat,
                    model.source_refs.len(),
                ),
            decreases self.source_refs@.len() - index,
        {
            assert(self.source_refs@[index as int].deep_view() == model.source_refs[index as int]);
            self.source_refs[index].validate_owner(self.task_session_id, self.task_id)?;
            index = index + 1;
        }
        self.observation.validate("work_observation.observation")
    }
}

/// An observation put together from its parts.
pub open spec fn observation_of(
    observation_id: WorkObservationId,
    task_session_id: TaskSessionId,
    task_id: TaskId,
    intent_revision_id: TaskIntentRevisionId,
    source_refs: Seq<WorkSourceRefView>,
    observation: NormalizedWorkObservationView,
) -> WorkObservationView {
    WorkObservationView { observation_id, task_session_id, task_id, intent_revision_id, source_refs, observation }
}

/// Explicit lifecycle boundary of one Work Episode.
#[derive(Clone, Copy, Debug, PartialEq, Eq, Structural)]
pub enum WorkEpisodeStatus {
    Open,
    Closed {
        final_checkpoint_id: AgentCheckpointId,
    },
}

impl DeepView for WorkEpisodeStatus {
    type V = WorkEpisodeStatus;

    open spec fn deep_view(&self) -> WorkEpisodeStatus {
        *self
    }
}

impl Value for WorkEpisodeStatus {
    fn copied(&self) -> (copy: Self) {
        *self
    }

    fn same(&self, other: &Self) -> (equal: bool) {
        *self == *other
    }
}

impl Json for WorkEpisodeStatus {
    open spec fn json(model: WorkEpisodeStatus) -> Seq<char> {
        match model {
            WorkEpisodeStatus::Open => {
                let body = with_member(Seq::<char>::empty(), "status"@, "\"open\""@);
                object(body)
            },
            WorkEpisodeStatus::Closed { final_checkpoint_id } => {
                let body = with_member(Seq::<char>::empty(), "status"@, "\"closed\""@);
                let body = with_member(
                    body,
                    "final_checkpoint_id"@,
                    <AgentCheckpointId as Json>::json(final_checkpoint_id),
                );
                object(body)
            },
        }
    }

    fn write_json(&self, out: &mut String) {
        match self {
            WorkEpisodeStatus::Open => {
                let mut body = String::new();
                push_member_text(&mut body, "status", "\"open\"");
                push_object(out, body.as_str());
            },
            WorkEpisodeStatus::Closed { final_checkpoint_id } => {
                let mut body = String::new();
                push_member_text(&mut body, "status", "\"closed\"");
                push_member(&mut body, "final_checkpoint_id", final_checkpoint_id);
                push_object(out, body.as_str());
            },
        }
    }
}

/// Task-local aggregation of typed references and normalized observations.
#[derive(Clone, Debug, PartialEq, Eq)]
pub struct WorkEpisode {
    pub episode_id: WorkEpisodeId,
    pub version: u64,
    pub task_session_id: TaskSessionId,
    pub task_id: TaskId,
    pub intent_revisions: IntentRevisionRange,
    pub signal_refs: Vec<NonLocatingSignalRef>,
    pub observations: Vec<WorkObservation>,
    pub status: WorkEpisodeStatus,
}

/// The model of [`WorkEpisode`].
pub struct WorkEpisodeView {
    pub episode_id: WorkEpisodeId,
    pub version: u64,
    pub task_session_id: TaskSessionId,
    pub task_id: TaskId,
    pub intent_revisions: IntentRevisionRangeView,
    pub signal_refs: Seq<NonLocatingSignalRef>,
    pub observations: Seq<WorkObservationView>,
    pub status: WorkEpisodeStatus,
}

impl DeepView for WorkEpisode {
    type V = WorkEpisodeView;

    open spec fn deep_view(&self) -> WorkEpisodeView {
        WorkEpisodeView {
            episode_id: self.episode_id.deep_view(),
            version: self.version.deep_view(),
            task_session_id: self.task_session_id.deep_view(),
            task_id: self.task_id.deep_view(),
            intent_revisions: self.intent_revisions.deep_view(),
            signal_refs: self.signal_refs.deep_view(),
            observations: self.observations.deep_view(),
            status: self.status.deep_view(),
        }
    }
}

impl Value for WorkEpisode {
    fn copied(&self) -> (copy: Self) {
        WorkEpisode {
            episode_id: self.episode_id.copied(),
            version: self.version.copied(),
            task_session_id: self.task_session_id.copied(),
            task_id: self.task_id.copied(),
            intent_revisions: self.intent_revisions.copied(),
            signal_refs: self.signal_refs.copied(),
            observations: self.observations.copied(),
            status: self.status.copied(),
        }
    }

    fn same(&self, other: &Self) -> (equal: bool) {
        self.episode_id.same(&other.episode_id)
            && self.version.same(&other.version)
            && self.task_session_id.same(&other.task_session_id)
            && self.task_id.same(&other.task_id)
            && self.intent_revisions.same(&other.intent_revisions)
            && self.signal_refs.same(&other.signal_refs)
            && self.observations.same(&other.observations)
            && self.status.same(&other.status)
    }
}

impl WorkEpisodeView {
    /// The JSON members, behind those of `body`.
    pub open spec fn json_members(self, body: Seq<char>) -> Seq<char> {
        let body = with_member(body, "episode_id"@, <WorkEpisodeId as Json>::json(self.episode_id));
        let body = with_member(body, "version"@, <u64 as Json>::json(self.version));
        let body = with_member(body, "task_session_id"@, <TaskSessionId as Json>::json(self.task_session_id));
        let body = with_member(body, "task_id"@, <TaskId as Json>::json(self.task_id));
        let body = with_member(body, "intent_revisions"@, <IntentRevisionRange as Json>::json(self.intent_revisions));
        let body = with_member(body, "signal_refs"@, <Vec<NonLocatingSignalRef> as Json>::json(self.signal_refs));
        let body = with_member(body, "observations"@, <Vec<WorkObservation> as Json>::json(self.observations));
        let body = with_member(body, "status"@, <WorkEpisodeStatus as Json>::json(self.status));
        body
    }
}

impl WorkEpisode {
    fn push_members(&self, text: &mut String)
        ensures
            final(text)@ == self.deep_view().json_members(old(text)@),
    {
        push_member(text, "episode_id", &self.episode_id);
        push_member(text, "version", &self.version);
        push_member(text, "task_session_id", &self.task_session_id);
        push_member(text, "task_id", &self.task_id);
        push_member(text, "intent_revisions", &self.intent_revisions);
        push_member(text, "signal_refs", &self.signal_refs);
        push_member(text, "observations", &self.observations);
        push_member(text, "status", &self.status);
    }
}

impl Json for WorkEpisode {
    open spec fn json(model: WorkEpisodeView) -> Seq<char> {
        object(model.json_members(Seq::<char>::empty()))
    }

    fn write_json(&self, out: &mut String) {
        let mut body = String::new();
        self.push_members(&mut body);
        push_object(out, body.as_str());
    }
}

/// The identities of observations.
pub open spec fn observation_ids(observations: Seq<WorkObservationView>) -> Seq<WorkObservationId> {
    Seq::new(observations.len(), |i: int| observations[i].observation_id)
}

/// The identities of signals.
pub open spec fn signal_ids(signals: Seq<NonLocatingSignalRef>) -> Seq<SignalId> {
    Seq::new(signals.len(), |i: int| signals[i].signal_id)
}

impl WorkEpisodeView {
    /// Who owns the Episode.
    pub open spec fn ownership(self) -> WorkEpisodeRef {
        WorkEpisodeRef { episode_id: self.episode_id, task_session_id: self.task_session_id, task_id: self.task_id }
    }

    /// Whether an observation names a Task Signal that the Episode does not list.
    pub open spec fn has_foreign_signal(self, observation: WorkObservationView) -> bool {
        exists|i: int|
            0 <= i < observation.source_refs.len() && (#[trigger] observation.source_refs[i]) is TaskSignal
                && !self.signal_refs.contains(observation.source_refs[i]->TaskSignal_0)
    }

    /// Why an observation may not stand in the Episode, if it may not.
    pub open spec fn observation_problem(self, observation: WorkObservationView) -> Option<ErrorView> {
        first(
            observation.problem(),
            first(
                given(
                    observation.task_session_id != self.task_session_id || observation.task_id != self.task_id,
                    invalid("work_observation must belong to the Work Episode Task"@),
                ),
                first(
                    given(
                        !self.intent_revisions.revision_ids.contains(observation.intent_revision_id),
                        invalid("work_observation Intent revision is outside the Work Episode range"@),
                    ),
                    given(
                        self.has_foreign_signal(observation),
                        invalid("work_observation Task Signal source must belong to the Work Episode"@),
                    ),
                ),
            ),
        )
    }

    /// The check of each signal.
    pub open spec fn signal_problem(self) -> spec_fn(int) -> Option<ErrorView> {
        |i: int| self.signal_refs[i].owner_problem(self.task_session_id, self.task_id)
    }

    /// The check of each observation, given those before it.
    pub open spec fn listed_observation_problem(self) -> spec_fn(int) -> Option<ErrorView> {
        |i: int|
            first(
                given(
                    observation_ids(self.observations).take(i).contains(self.observations[i].observation_id),
                    invalid("work_episode.observations must not repeat ObservationId"@),
                ),
                self.observation_problem(self.observations[i]),
            )
    }

    /// Why an Episode is invalid, if it is.
    pub open spec fn problem(self) -> Option<ErrorView> {
        first(
            self.intent_revisions.problem(),
            first(
                unique_problem(self.signal_refs, "work_episode.signal_refs"@),
                first(
                    first_from(self.signal_problem(), 0, self.signal_refs.len()),
                    first_from(self.listed_observation_problem(), 0, self.observations.len()),
                ),
            ),
        )
    }

    /// Why an observation may not be added, if it may not.
    pub open spec fn addition_problem(self, observation: WorkObservationView) -> Option<ErrorView> {
        first(
            given(
                self.status != WorkEpisodeStatus::Open,
                invalid("closed Work Episode cannot accept observations"@),
            ),
            first(
                self.observation_problem(observation),
                given(
                    observation_ids(self.observations).contains(observation.observation_id),
                    invalid("work_episode.observations must not repeat ObservationId"@),
                ),
            ),
        )
    }

    /// The Episode with one more observation, under the same version.
    pub open spec fn with_observation(self, observation: WorkObservationView) -> Self {
        WorkEpisodeView { observations: self.observations.push(observation), ..self }
    }

    /// Why the Episode may not be closed at a checkpoint, if it may not.
    pub open spec fn closing_problem(self, checkpoint: AgentCheckpointView) -> Option<ErrorView> {
        first(
            given(self.status != WorkEpisodeStatus::Open, invalid("Work Episode is already closed"@)),
            checkpoint.problem(self),
        )
    }

    /// The Episode closed at a checkpoint, under the same version.
    pub open spec fn closed_at(self, checkpoint_id: AgentCheckpointId) -> Self {
        WorkEpisodeView { status: WorkEpisodeStatus::Closed { final_checkpoint_id: checkpoint_id }, ..self }
    }

    /// The Episode under another version.
    pub open spec fn at_version(self, version: u64) -> Self {
        WorkEpisodeView { version, ..self }
    }
}

/// An Episode as it is opened.
pub open spec fn opened_episode(
    episode_id: WorkEpisodeId,
    task_session_id: TaskSessionId,
    task_id: TaskId,
    intent_revisions: IntentRevisionRangeView,
    signal_refs: Seq<NonLocatingSignalRef>,
) -> WorkEpisodeView {
    WorkEpisodeView {
        episode_id,
        version: 0,
        task_session_id,
        task_id,
        intent_revisions,
        signal_refs,
        observations: Seq::empty(),
        status: WorkEpisodeStatus::Open,
    }
}

/// What is wrong with an Episode does not depend on its identity, its version or its status.
pub proof fn episode_problem_ignores_lifecycle(left: WorkEpisodeView, right: WorkEpisodeView)
    requires
        left.task_session_id == right.task_session_id,
        left.task_id == right.task_id,
        left.intent_revisions == right.intent_revisions,
        left.signal_refs == right.signal_refs,
        left.observations == right.observations,
    ensures
        left.problem() == right.problem(),
{
    assert(left.signal_problem() =~= right.signal_problem());
    assert forall|i: int| #[trigger] left.listed_observation_problem()(i) == right.listed_observation_problem()(i) by {
        assert(left.has_foreign_signal(left.observations[i]) == right.has_foreign_signal(right.observations[i]));
    }
    assert(left.listed_observation_problem() =~= right.listed_observation_problem());
}

fn observation_ids_of(observations: &Vec<WorkObservation>) -> (ids: Vec<WorkObservationId>)
    ensures
        ids.deep_view() == observation_ids(observations.deep_view()),
{
    let ghost model = observations.deep_view();
    let mut ids: Vec<WorkObservationId> = Vec::new();
    let mut index: usize = 0;
    while index < observations.len()
        invariant
            index <= observations@.len(),
            model == observations.deep_view(),
            ids.deep_view() == observation_ids(model).take(index as int),
        decreases observations@.len() - index,
    {
        assert(observations@[index as int].deep_view() == model[index as int]);
        push_value(&mut ids, observations[index].observation_id);
        proof {
            take_next(observation_ids(model), index as int);
        }
        index = index + 1;
    }
    proof {
        take_all(observation_ids(model));
    }
    ids
}

fn signal_ids_of(signals: &Vec<NonLocatingSignalRef>) -> (ids: Vec<SignalId>)
    ensures
        ids.deep_view() == signal_ids(signals.deep_view()),
{
    let ghost model = signals.deep_view();
    let mut ids: Vec<SignalId> = Vec::new();
    let mut index: usize = 0;
    while index < signals.len()
        invariant
            index <= signals@.len(),
            model == signals.deep_view(),
            ids.deep_view() == signal_ids(model).take(index as int),
        decreases signals@.len() - index,
    {
        assert(signals@[index as int].deep_view() == model[index as int]);
        push_value(&mut ids, signals[index].signal_id);
        proof {
            take_next(signal_ids(model), index as int);
        }
        index = index + 1;
    }
    proof {
        take_all(signal_ids(model));
    }
    ids
}

impl WorkEpisode {
    /// Opens a provisional Episode with server-owned identity.
    pub fn open(
        task_session_id: TaskSessionId,
        task_id: TaskId,
        intent_revisions: IntentRevisionRange,
        signal_refs: Vec<NonLocatingSignalRef>,
    ) -> (result: Result<Self>)
        ensures
            forall|id: WorkEpisodeId|
                fails_as(
                    result,
                    (#[trigger] opened_episode(
                        id,
                        task_session_id,
                        task_id,
                        intent_revisions.deep_view(),
                        signal_refs.deep_view(),
                    )).problem(),
                ),
            result is Ok ==> result->Ok_0.episode_id.canonical() && result->Ok_0.deep_view() == opened_episode(
                result->Ok_0.episode_id,
                task_session_id,
                task_id,
                intent_revisions.deep_view(),
                signal_refs.deep_view(),
            ),
    {
        let episode = WorkEpisode {
            episode_id: WorkEpisodeId::new(),
            version: 0,
            task_session_id,
            task_id,
            intent_revisions,
            signal_refs,
            observations: Vec::new(),
            status: WorkEpisodeStatus::Open,
        };
        proof {
            assert(episode.deep_view().observations =~= Seq::empty());
            assert forall|id: WorkEpisodeId| (#[trigger] opened_episode(
                id,
                task_session_id,
                task_id,
                intent_revisions.deep_view(),
                signal_refs.deep_view(),
            )).problem() == episode.deep_view().problem() by {
                let other = opened_episode(
                    id,
                    task_session_id,
                    task_id,
                    intent_revisions.deep_view(),
                    signal_refs.deep_view(),
                );
                episode_problem_ignores_lifecycle(other, episode.deep_view());
            }
        }
        episode.validate()?;
        Ok(episode)
    }

    /// Returns who owns the Episode.
    #[must_use]
    pub fn ownership(&self) -> (owner: WorkEpisodeRef)
        ensures
            owner == self.deep_view().ownership(),
    {
        WorkEpisodeRef { episode_id: self.episode_id, task_session_id: self.task_session_id, task_id: self.task_id }
    }

    /// Adds one owned observation while the Episode is open.
    ///
    /// The version counts accepted observations; where it cannot count further the observation
    /// stands, and the overflow is reported.
    pub fn add_observation(&mut self, observation: WorkObservation) -> (result: Result<()>)
        ensures
            fails_as(
                result,
                first(
                    old(self).deep_view().addition_problem(observation.deep_view()),
                    given(old(self).deep_view().version == u64::MAX, invalid("Work Episode version overflow"@)),
                ),
            ),
            final(self).deep_view() == ({
                let before = old(self).deep_view();
                if before.addition_problem(observation.deep_view()) is Some {
                    before
                } else if before.version == u64::MAX {
                    before.with_observation(observation.deep_view())
                } else {
                    before.with_observation(observation.deep_view()).at_version((before.version + 1) as u64)
                }
            }),
    {
        if self.status != WorkEpisodeStatus::Open {
            return Err(invalid_input("closed Work Episode cannot accept observations"));
        }
        self.validate_observation(&observation)?;
        let ids = observation_ids_of(&self.observations);
        if is_among(&ids, &observation.observation_id) {
            return Err(invalid_input("work_episode.observations must not repeat ObservationId"));
        }
        push_value(&mut self.observations, observation);
        if self.version == u64::MAX {
            return Err(invalid_input("Work Episode version overflow"));
        }
        self.version = self.version + 1;
        Ok(())
    }

    /// Closes an Episode at one owned final Checkpoint.
    ///
    /// Once the Checkpoint is accepted the Episode is closed, also where its version cannot count
    /// further or its content is found invalid.
    pub fn close(&mut self, checkpoint: &AgentCheckpoint) -> (result: Result<()>)
        ensures
            fails_as(
                result,
                first(
                    old(self).deep_view().closing_problem(checkpoint.deep_view()),
                    first(
                        given(old(self).deep_view().version == u64::MAX, invalid("Work Episode version overflow"@)),
                        old(self).deep_view().problem(),
                    ),
                ),
            ),
            final(self).deep_view() == ({
                let before = old(self).deep_view();
                if before.closing_problem(checkpoint.deep_view()) is Some {
                    before
                } else if before.version == u64::MAX {
                    before.closed_at(checkpoint.checkpoint_id)
                } else {
                    before.closed_at(checkpoint.checkpoint_id).at_version((before.version + 1) as u64)
                }
            }),
    {
        if self.status != WorkEpisodeStatus::Open {
            return Err(invalid_input("Work Episode is already closed"));
        }
        checkpoint.validate_against_episode(self)?;
        self.status = WorkEpisodeStatus::Closed { final_checkpoint_id: checkpoint.checkpoint_id };
        if self.version == u64::MAX {
            return Err(invalid_input("Work Episode version overflow"));
        }
        self.version = self.version + 1;
        proof {
            episode_problem_ignores_lifecycle(old(self).deep_view(), self.deep_view());
        }
        self.validate()
    }

    /// Validates all ownership, range, lifecycle, and duplicate invariants.
    pub fn validate(&self) -> (result: Result<()>)
        ensures
            fails_as(result, self.deep_view().problem()),
    {
        self.intent_revisions.validate()?;
        require_unique(&self.signal_refs, "work_episode.signal_refs")?;
        self.validate_signals()?;
        self.validate_observations()
    }

    fn validate_signals(&self) -> (result: Result<()>)
        ensures
            fails_as(
                result,
                first_from(self.deep_view().signal_problem(), 0, self.deep_view().signal_refs.len()),
            ),
    {
        let ghost model = self.deep_view();
        let ghost problem = model.signal_problem();
        let mut index: usize = 0;
        while index < self.signal_refs.len()
            invariant
                index <= self.signal_refs@.len(),
                model == self.deep_view(),
                problem == model.signal_problem(),
                first_from(problem, 0, model.signal_refs.len()) == first_from(
                    problem,
                    index as nat,
                    model.signal_refs.len(),
                ),
            decreases self.signal_refs@.len() - index,
        {
            assert(self.signal_refs@[index as int].deep_view() == model.signal_refs[index as int]);
            self.signal_refs[index].validate_owner(self.task_session_id, self.task_id)?;
            index = index + 1;
        }
        Ok(())
    }

    fn validate_observations(&self) -> (result: Result<()>)
        ensures
            fails_as(
                result,
                first_from(self.deep_view().listed_observation_problem(), 0, self.deep_view().observations.len()),
            ),
    {
        let ghost model = self.deep_view();
        let ghost problem = model.listed_observation_problem();
        let mut seen: Vec<WorkObservationId> = Vec::new();
        let mut index: usize = 0;
        assert(seen.deep_view() =~= observation_ids(model.observations).take(0));
        while index < self.observations.len()
            invariant
                index <= self.observations@.len(),
                model == self.deep_view(),
                problem == model.listed_observation_problem(),
                seen.deep_view() == observation_ids(model.observations).take(index as int),
                first_from(problem, 0, model.observations.len()) == first_from(
                    problem,
                    index as nat,
                    model.observations.len(),
                ),
            decreases self.observations@.len() - index,
        {
            let observation = &self.observations[index];
            assert(observation.deep_view() == model.observations[index as int]);
            if is_among(&seen, &observation.observation_id) {
                return Err(invalid_input("work_episode.observations must not repeat ObservationId"));
            }
            self.validate_observation(observation)?;
            push_value(&mut seen, observation.observation_id);
            proof {
                take_next(observation_ids(model.observations), index as int);
            }
            index = index + 1;
        }
        Ok(())
    }

    fn validate_observation(&self, observation: &WorkObservation) -> (result: Result<()>)
        ensures
            fails_as(result, self.deep_view().observation_problem(observation.deep_view())),
    {
        observation.validate()?;
        if observation.task_session_id != self.task_session_id || observation.task_id != self.task_id {
            return Err(invalid_input("work_observation must belong to the Work Episode Task"));
        }
        if !self.intent_revisions.contains(observation.intent_revision_id) {
            return Err(invalid_input("work_observation Intent revision is outside the Work Episode range"));
        }
        let ghost model = self.deep_view();
        let ghost subject = observation.deep_view();
        let mut index: usize = 0;
        while index < observation.source_refs.len()
            invariant
                index <= observation.source_refs@.len(),
                model == self.deep_view(),
                subject == observation.deep_view(),
                subject.problem() is None,
                subject.task_session_id == model.task_session_id,
                subject.task_id == model.task_id,
                model.intent_revisions.revision_ids.contains(subject.intent_revision_id),
                forall|i: int|
                    0 <= i < index && (#[trigger] subject.source_refs[i]) is TaskSignal ==> model.signal_refs.contains(
                        subject.source_refs[i]->TaskSignal_0,
                    ),
            decreases observation.source_refs@.len() - index,
        {
            assert(observation.source_refs@[index as int].deep_view() == subject.source_refs[index as int]);
            if let WorkSourceRef::TaskSignal(signal) = &observation.source_refs[index] {
                if !is_among(&self.signal_refs, signal) {
                    assert(model.has_foreign_signal(subject));
                    return Err(invalid_input("work_observation Task Signal source must belong to the Work Episode"));
                }
            }
            index = index + 1;
        }
        Ok(())
    }
}

/// A closed Episode accepts neither observations nor a second closing, and keeps its state.
pub proof fn closed_episodes_stay_closed(
    episode: WorkEpisodeView,
    observation: WorkObservationView,
    checkpoint: AgentCheckpointView,
)
    requires
        episode.status != WorkEpisodeStatus::Open,
    ensures
        episode.addition_problem(observation) == invalid("closed Work Episode cannot accept observations"@),
        episode.closing_problem(checkpoint) == invalid("Work Episode is already closed"@),
{
}

/// Adding an accepted observation keeps a valid Episode valid, under the same ownership.
pub proof fn additions_keep_an_episode_valid(episode: WorkEpisodeView, observation: WorkObservationView, version: u64)
    requires
        episode.problem() is None,
        episode.addition_problem(observation) is None,
    ensures
        episode.with_observation(observation).at_version(version).problem() is None,
        episode.with_observation(observation).at_version(version).ownership() == episode.ownership(),
{
    let next = episode.with_observation(observation).at_version(version);
    let before = episode.listed_observation_problem();
    let after = next.listed_observation_problem();
    let count = episode.observations.len();
    crate::checks::nothing_fails(before, 0, count);
    assert(next.signal_problem() =~= episode.signal_problem());
    assert forall|i: int| 0 <= i < count + 1 implies #[trigger] after(i) is None by {
        let ids = observation_ids(next.observations);
        if i < count {
            assert(before(i) is None);
            assert(next.observations[i] == episode.observations[i]);
            assert(ids.take(i) =~= observation_ids(episode.observations).take(i));
        } else {
            assert(next.observations[i] == observation);
            assert(ids.take(i) =~= observation_ids(episode.observations));
        }
        assert(next.has_foreign_signal(next.observations[i]) == episode.has_foreign_signal(next.observations[i]));
    }
    crate::checks::nothing_fails(after, 0, count + 1);
}

/// Structured unresolved engineering question retained by a Checkpoint or Candidate.
#[derive(Clone, Debug, PartialEq, Eq, PartialOrd, Ord, Hash)]
pub struct CaptureUnknown {
    pub statement: String,
    pub blocking: bool,
    pub recheck_when: Vec<String>,
}

/// The model of [`CaptureUnknown`].
pub struct CaptureUnknownView {
    pub statement: Seq<char>,
    pub blocking: bool,
    pub recheck_when: Seq<Seq<char>>,
}

impl DeepView for CaptureUnknown {
    type V = CaptureUnknownView;

    open spec fn deep_view(&self) -> CaptureUnknownView {
        CaptureUnknownView {
            statement: self.statement.deep_view(),
            blocking: self.blocking.deep_view(),
            recheck_when: self.recheck_when.deep_view(),
        }
    }
}

impl Value for CaptureUnknown {
    fn copied(&self) -> (copy: Self) {
        CaptureUnknown {
            statement: self.statement.copied(),
            blocking: self.blocking.copied(),
            recheck_when: self.recheck_when.copied(),
        }
    }

    fn same(&self, other: &Self) -> (equal: bool) {
        self.statement.same(&other.statement)
            && self.blocking.same(&other.blocking)
            && self.recheck_when.same(&other.recheck_when)
    }
}

impl CaptureUnknownView {
    /// The JSON members, behind those of `body`.
    pub open spec fn json_members(self, body: Seq<char>) -> Seq<char> {
        let body = with_member(body, "statement"@, <String as Json>::json(self.statement));
        let body = with_member(body, "blocking"@, <bool as Json>::json(self.blocking));
        let body = with_member(body, "recheck_when"@, <Vec<String> as Json>::json(self.recheck_when));
        body
    }
}

impl CaptureUnknown {
    fn push_members(&self, text: &mut String)
        ensures
            final(text)@ == self.deep_view().json_members(old(text)@),
    {
        push_member(text, "statement", &self.statement);
        push_member(text, "blocking", &self.blocking);
        push_member(text, "recheck_when", &self.recheck_when);
    }
}

impl Json for CaptureUnknown {
    open spec fn json(model: CaptureUnknownView) -> Seq<char> {
        object(model.json_members(Seq::<char>::empty()))
    }

    fn write_json(&self, out: &mut String) {
        let mut body = String::new();
        self.push_members(&mut body);
        push_object(out, body.as_str());
    }
}

impl CaptureUnknownView {
    /// Why an unknown is invalid, if it is.
    pub open spec fn problem(self, field: Seq<char>) -> Option<ErrorView> {
        first(
            text_problem(self.statement, field + ".statement"@),
            distinct_texts_problem(self.recheck_when, field + ".recheck_when"@),
        )
    }
}

impl CaptureUnknown {
    fn validate(&self, field: &str) -> (result: Result<()>)
        ensures
            fails_as(result, self.deep_view().problem(field@)),
    {
        require_named_text(self.statement.as_str(), field, ".statement")?;
        let name = joined2(field, ".recheck_when");
        require_distinct_texts(&self.recheck_when, name.as_str())
    }
}

/// The check of each unknown of a list.
pub open spec fn unknown_problem(
    unknowns: Seq<CaptureUnknownView>,
    field: Seq<char>,
) -> spec_fn(int) -> Option<ErrorView> {
    |i: int| unknowns[i].problem(field)
}

fn validate_unknowns(unknowns: &Vec<CaptureUnknown>, field: &str) -> (result: Result<()>)
    ensures
        fails_as(result, first_from(unknown_problem(unknowns.deep_view(), field@), 0, unknowns.deep_view().len())),
{
    let ghost model = unknowns.deep_view();
    let ghost problem = unknown_problem(model, field@);
    let mut index: usize = 0;
    while index < unknowns.len()
        invariant
            index <= unknowns@.len(),
            model == unknowns.deep_view(),
            problem == unknown_problem(model, field@),
            first_from(problem, 0, model.len()) == first_from(problem, index as nat, model.len()),
        decreases unknowns@.len() - index,
    {
        assert(unknowns@[index as int].deep_view() == model[index as int]);
        unknowns[index].validate(field)?;
        index = index + 1;
    }
    Ok(())
}

/// One server-identified structured engineering claim.
#[derive(Clone, Debug, PartialEq, Eq)]
pub struct CheckpointClaim {
    pub claim_id: CheckpointClaimId,
    pub context_kind_hint: Option<ContextKind>,
    pub topic_key_hint: Option<String>,
    pub statement: String,
    pub rationale: String,
    pub applicability: Applicability,
    pub assumptions: Vec<String>,
    pub recheck_when: Vec<String>,
    pub evidence_refs: Vec<CaptureEvidenceRef>,
    pub artifact_refs: Vec<ArtifactRef>,
    pub related_contexts: Vec<ContextRevisionRef>,
}

/// The model of [`CheckpointClaim`].
pub struct CheckpointClaimView {
    pub claim_id: CheckpointClaimId,
    pub context_kind_hint: Option<ContextKind>,
    pub topic_key_hint: Option<Seq<char>>,
    pub statement: Seq<char>,
    pub rationale: Seq<char>,
    pub applicability: ApplicabilityView,
    pub assumptions: Seq<Seq<char>>,
    pub recheck_when: Seq<Seq<char>>,
    pub evidence_refs: Seq<CaptureEvidenceRef>,
    pub artifact_refs: Seq<ArtifactRefView>,
    pub related_contexts: Seq<ContextRevisionRef>,
}

impl DeepView for CheckpointClaim {
    type V = CheckpointClaimView;

    open spec fn deep_view(&self) -> CheckpointClaimView {
        CheckpointClaimView {
            claim_id: self.claim_id.deep_view(),
            context_kind_hint: self.context_kind_hint.deep_view(),
            topic_key_hint: self.topic_key_hint.deep_view(),
            statement: self.statement.deep_view(),
            rationale: self.rationale.deep_view(),
            applicability: self.applicability.deep_view(),
            assumptions: self.assumptions.deep_view(),
            recheck_when: self.recheck_when.deep_view(),
            evidence_refs: self.evidence_refs.deep_view(),
            artifact_refs: self.artifact_refs.deep_view(),
            related_contexts: self.related_contexts.deep_view(),
        }
    }
}

impl Value for CheckpointClaim {
    fn copied(&self) -> (copy: Self) {
        CheckpointClaim {
            claim_id: self.claim_id.copied(),
            context_kind_hint: self.context_kind_hint.copied(),
            topic_key_hint: self.topic_key_hint.copied(),
            statement: self.statement.copied(),
            rationale: self.rationale.copied(),
            applicability: self.applicability.copied(),
            assumptions: self.assumptions.copied(),
            recheck_when: self.recheck_when.copied(),
            evidence_refs: self.evidence_refs.copied(),
            artifact_refs: self.artifact_refs.copied(),
            related_contexts: self.related_contexts.copied(),
        }
    }

    fn same(&self, other: &Self) -> (equal: bool) {
        self.claim_id.same(&other.claim_id)
            && self.context_kind_hint.same(&other.context_kind_hint)
            && self.topic_key_hint.same(&other.topic_key_hint)
            && self.statement.same(&other.statement)
            && self.rationale.same(&other.rationale)
            && self.applicability.same(&other.applicability)
            && self.assumptions.same(&other.assumptions)
            && self.recheck_when.same(&other.recheck_when)
            && self.evidence_refs.same(&other.evidence_refs)
            && self.artifact_refs.same(&other.artifact_refs)
            && self.related_contexts.same(&other.related_contexts)
    }
}

impl CheckpointClaimView {
    /// The JSON members, behind those of `body`.
    pub open spec fn json_members(self, body: Seq<char>) -> Seq<char> {
        let body = with_member(body, "claim_id"@, <CheckpointClaimId as Json>::json(self.claim_id));
        let body = with_member(
            body,
            "context_kind_hint"@,
            <Option<ContextKind> as Json>::json(self.context_kind_hint),
        );
        let body = with_member(body, "topic_key_hint"@, <Option<String> as Json>::json(self.topic_key_hint));
        let body = with_member(body, "statement"@, <String as Json>::json(self.statement));
        let body = with_member(body, "rationale"@, <String as Json>::json(self.rationale));
        let body = with_member(body, "applicability"@, <Applicability as Json>::json(self.applicability));
        let body = with_member(body, "assumptions"@, <Vec<String> as Json>::json(self.assumptions));
        let body = with_member(body, "recheck_when"@, <Vec<String> as Json>::json(self.recheck_when));
        let body = with_member(body, "evidence_refs"@, <Vec<CaptureEvidenceRef> as Json>::json(self.evidence_refs));
        let body = with_member(body, "artifact_refs"@, <Vec<ArtifactRef> as Json>::json(self.artifact_refs));
        let body = with_member(
            body,
            "related_contexts"@,
            <Vec<ContextRevisionRef> as Json>::json(self.related_contexts),
        );
        body
    }
}

impl CheckpointClaim {
    fn push_members(&self, text: &mut String)
        ensures
            final(text)@ == self.deep_view().json_members(old(text)@),
    {
        push_member(text, "claim_id", &self.claim_id);
        push_member(text, "context_kind_hint", &self.context_kind_hint);
        push_member(text, "topic_key_hint", &self.topic_key_hint);
        push_member(text, "statement", &self.statement);
        push_member(text, "rationale", &self.rationale);
        push_member(text, "applicability", &self.applicability);
        push_member(text, "assumptions", &self.assumptions);
        push_member(text, "recheck_when", &self.recheck_when);
        push_member(text, "evidence_refs", &self.evidence_refs);
        push_member(text, "artifact_refs", &self.artifact_refs);
        push_member(text, "related_contexts", &self.related_contexts);
    }
}

impl Json for CheckpointClaim {
    open spec fn json(model: CheckpointClaimView) -> Seq<char> {
        object(model.json_members(Seq::<char>::empty()))
    }

    fn write_json(&self, out: &mut String) {
        let mut body = String::new();
        self.push_members(&mut body);
        push_object(out, body.as_str());
    }
}

impl CheckpointClaimView {
    /// Why a claim is invalid on its own, if it is.
    pub open spec fn problem(self, field: Seq<char>) -> Option<ErrorView> {
        first(
            optional_text_problem(self.topic_key_hint, field + ".topic_key_hint"@),
            first(
                text_problem(self.statement, field + ".statement"@),
                first(
                    text_problem(self.rationale, field + ".rationale"@),
                    first(
                        self.applicability.invalidity(field + ".applicability"@),
                        first(
                            distinct_texts_problem(self.assumptions, field + ".assumptions"@),
                            first(
                                distinct_texts_problem(self.recheck_when, field + ".recheck_when"@),
                                first(
                                    given(
                                        self.evidence_refs.len() == 0,
                                        invalid(field + ".evidence_refs must not be empty"@),
                                    ),
                                    first(
                                        unique_problem(self.evidence_refs, field + ".evidence_refs"@),
                                        first(
                                            unique_problem(self.artifact_refs, field + ".artifact_refs"@),
                                            first(
                                                first_from(
                                                    artifact_problem(self.artifact_refs),
                                                    0,
                                                    self.artifact_refs.len(),
                                                ),
                                                unique_problem(self.related_contexts, field + ".related_contexts"@),
                                            ),
                                        ),
                                    ),
                                ),
                            ),
                        ),
                    ),
                ),
            ),
        )
    }
}

impl CheckpointClaim {
    /// Creates a complete Claim with a server-owned identity.
    pub fn from_parts(
        context_kind_hint: Option<ContextKind>,
        topic_key_hint: Option<String>,
        statement: &str,
        rationale: &str,
        applicability: Applicability,
        assumptions: Vec<String>,
        recheck_when: Vec<String>,
        evidence_refs: Vec<CaptureEvidenceRef>,
        artifact_refs: Vec<ArtifactRef>,
        related_contexts: Vec<ContextRevisionRef>,
    ) -> (result: Result<Self>)
        ensures
            forall|claim: CheckpointClaimView|
                claim.topic_key_hint == topic_key_hint.deep_view() && claim.statement == statement@ && claim.rationale
                    == rationale@ && claim.applicability == applicability.deep_view() && claim.assumptions
                    == assumptions.deep_view() && claim.recheck_when == recheck_when.deep_view()
                    && claim.evidence_refs == evidence_refs.deep_view() && claim.artifact_refs
                    == artifact_refs.deep_view() && claim.related_contexts == related_contexts.deep_view()
                    ==> fails_as(result, #[trigger] claim.problem("checkpoint_claim"@)),
            result is Ok ==> result->Ok_0.claim_id.canonical() && result->Ok_0.deep_view() == (CheckpointClaimView {
                claim_id: result->Ok_0.claim_id,
                context_kind_hint,
                topic_key_hint: topic_key_hint.deep_view(),
                statement: statement@,
                rationale: rationale@,
                applicability: applicability.deep_view(),
                assumptions: assumptions.deep_view(),
                recheck_when: recheck_when.deep_view(),
                evidence_refs: evidence_refs.deep_view(),
                artifact_refs: artifact_refs.deep_view(),
                related_contexts: related_contexts.deep_view(),
            }),
    {
        let claim = CheckpointClaim {
            claim_id: CheckpointClaimId::new(),
            context_kind_hint,
            topic_key_hint,
            statement: statement.to_owned(),
            rationale: rationale.to_owned(),
            applicability,
            assumptions,
            recheck_when,
            evidence_refs,
            artifact_refs,
            related_contexts,
        };
        claim.validate("checkpoint_claim")?;
        Ok(claim)
    }

    fn validate(&self, field: &str) -> (result: Result<()>)
        ensures
            fails_as(result, self.deep_view().problem(field@)),
    {
        let name = joined2(field, ".topic_key_hint");
        require_optional_text(&self.topic_key_hint, name.as_str())?;
        require_named_text(self.statement.as_str(), field, ".statement")?;
        require_named_text(self.rationale.as_str(), field, ".rationale")?;
        let name = joined2(field, ".applicability");
        self.applicability.validate(name.as_str())?;
        let name = joined2(field, ".assumptions");
        require_distinct_texts(&self.assumptions, name.as_str())?;
        let name = joined2(field, ".recheck_when");
        require_distinct_texts(&self.recheck_when, name.as_str())?;
        if self.evidence_refs.len() == 0 {
            let message = joined2(field, ".evidence_refs must not be empty");
            return Err(invalid_input(message.as_str()));
        }
        let name = joined2(field, ".evidence_refs");
        require_unique(&self.evidence_refs, name.as_str())?;
        let name = joined2(field, ".artifact_refs");
        require_unique(&self.artifact_refs, name.as_str())?;
        validate_artifacts(&self.artifact_refs)?;
        let name = joined2(field, ".related_contexts");
        require_unique(&self.related_contexts, name.as_str())
    }
}

/// Agent-authored checkpoint of claims and unknowns under exact Episode ownership.
#[derive(Clone, Debug, PartialEq, Eq)]
pub struct AgentCheckpoint {
    pub checkpoint_id: AgentCheckpointId,
    pub episode_id: WorkEpisodeId,
    pub task_session_id: TaskSessionId,
    pub task_id: TaskId,
    pub intent_revision_id: TaskIntentRevisionId,
    pub claims: Vec<CheckpointClaim>,
    pub unknowns: Vec<CaptureUnknown>,
}

/// The model of [`AgentCheckpoint`].
pub struct AgentCheckpointView {
    pub checkpoint_id: AgentCheckpointId,
    pub episode_id: WorkEpisodeId,
    pub task_session_id: TaskSessionId,
    pub task_id: TaskId,
    pub intent_revision_id: TaskIntentRevisionId,
    pub claims: Seq<CheckpointClaimView>,
    pub unknowns: Seq<CaptureUnknownView>,
}

impl DeepView for AgentCheckpoint {
    type V = AgentCheckpointView;

    open spec fn deep_view(&self) -> AgentCheckpointView {
        AgentCheckpointView {
            checkpoint_id: self.checkpoint_id.deep_view(),
            episode_id: self.episode_id.deep_view(),
            task_session_id: self.task_session_id.deep_view(),
            task_id: self.task_id.deep_view(),
            intent_revision_id: self.intent_revision_id.deep_view(),
            claims: self.claims.deep_view(),
            unknowns: self.unknowns.deep_view(),
        }
    }
}

impl Value for AgentCheckpoint {
    fn copied(&self) -> (copy: Self) {
        AgentCheckpoint {
            checkpoint_id: self.checkpoint_id.copied(),
            episode_id: self.episode_id.copied(),
            task_session_id: self.task_session_id.copied(),
            task_id: self.task_id.copied(),
            intent_revision_id: self.intent_revision_id.copied(),
            claims: self.claims.copied(),
            unknowns: self.unknowns.copied(),
        }
    }

    fn same(&self, other: &Self) -> (equal: bool) {
        self.checkpoint_id.same(&other.checkpoint_id)
            && self.episode_id.same(&other.episode_id)
            && self.task_session_id.same(&other.task_session_id)
            && self.task_id.same(&other.task_id)
            && self.intent_revision_id.same(&other.intent_revision_id)
            && self.claims.same(&other.claims)
            && self.unknowns.same(&other.unknowns)
    }
}

impl AgentCheckpointView {
    /// The JSON members, behind those of `body`.
    pub open spec fn json_members(self, body: Seq<char>) -> Seq<char> {
        let body = with_member(body, "checkpoint_id"@, <AgentCheckpointId as Json>::json(self.checkpoint_id));
        let body = with_member(body, "episode_id"@, <WorkEpisodeId as Json>::json(self.episode_id));
        let body = with_member(body, "task_session_id"@, <TaskSessionId as Json>::json(self.task_session_id));
        let body = with_member(body, "task_id"@, <TaskId as Json>::json(self.task_id));
        let body = with_member(
            body,
            "intent_revision_id"@,
            <TaskIntentRevisionId as Json>::json(self.intent_revision_id),
        );
        let body = with_member(body, "claims"@, <Vec<CheckpointClaim> as Json>::json(self.claims));
        let body = with_member(body, "unknowns"@, <Vec<CaptureUnknown> as Json>::json(self.unknowns));
        body
    }
}

impl AgentCheckpoint {
    fn push_members(&self, text: &mut String)
        ensures
            final(text)@ == self.deep_view().json_members(old(text)@),
    {
        push_member(text, "checkpoint_id", &self.checkpoint_id);
        push_member(text, "episode_id", &self.episode_id);
        push_member(text, "task_session_id", &self.task_session_id);
        push_member(text, "task_id", &self.task_id);
        push_member(text, "intent_revision_id", &self.intent_revision_id);
        push_member(text, "claims", &self.claims);
        push_member(text, "unknowns", &self.unknowns);
    }
}

impl Json for AgentCheckpoint {
    open spec fn json(model: AgentCheckpointView) -> Seq<char> {
        object(model.json_members(Seq::<char>::empty()))
    }

    fn write_json(&self, out: &mut String) {
        let mut body = String::new();
        self.push_members(&mut body);
        push_object(out, body.as_str());
    }
}

/// Whether evidence is Task-local and does not belong to the Episode.
pub open spec fn is_foreign_evidence(evidence: CaptureEvidenceRef, episode: WorkEpisodeView) -> bool {
    match evidence {
        CaptureEvidenceRef::Observation { observation_id } => !observation_ids(episode.observations).contains(
            observation_id,
        ),
        CaptureEvidenceRef::TaskSignal { signal_id } => !signal_ids(episode.signal_refs).contains(signal_id),
        CaptureEvidenceRef::ContextEvidence { .. } => false,
    }
}

impl AgentCheckpointView {
    /// Whether the claim at a position repeats an earlier one, by identity or by meaning.
    pub open spec fn repeats_claim(self, at: int) -> bool {
        exists|k: int|
            0 <= k < at && ((#[trigger] self.claims[k]).claim_id == self.claims[at].claim_id || (self.claims[k].statement
                == self.claims[at].statement && self.claims[k].rationale == self.claims[at].rationale))
    }

    /// Whether the claim at a position rests on evidence from outside the Episode.
    pub open spec fn has_foreign_evidence(self, episode: WorkEpisodeView, at: int) -> bool {
        exists|k: int|
            0 <= k < self.claims[at].evidence_refs.len() && is_foreign_evidence(
                #[trigger] self.claims[at].evidence_refs[k],
                episode,
            )
    }

    /// The check of each claim, given those before it.
    pub open spec fn claim_problem(self, episode: WorkEpisodeView) -> spec_fn(int) -> Option<ErrorView> {
        |i: int|
            first(
                self.claims[i].problem("agent_checkpoint.claim"@),
                first(
                    given(self.repeats_claim(i), invalid("agent_checkpoint.claims must not repeat Claims"@)),
                    given(
                        self.has_foreign_evidence(episode, i),
                        invalid(
                            "agent_checkpoint Evidence must belong to the source Work Episode when Task-local"@,
                        ),
                    ),
                ),
            )
    }

    /// Why a checkpoint of an Episode is invalid, if it is.
    pub open spec fn problem(self, episode: WorkEpisodeView) -> Option<ErrorView> {
        first(
            given(
                self.episode_id != episode.episode_id || self.task_session_id != episode.task_session_id
                    || self.task_id != episode.task_id,
                invalid("agent_checkpoint must belong to the supplied Work Episode"@),
            ),
            first(
                given(
                    !episode.intent_revisions.revision_ids.contains(self.intent_revision_id),
                    invalid("agent_checkpoint Intent revision is outside the Work Episode range"@),
                ),
                first(
                    given(
                        self.claims.len() == 0 && self.unknowns.len() == 0,
                        invalid("agent_checkpoint must contain at least one Claim or Unknown"@),
                    ),
                    first(
                        first_from(self.claim_problem(episode), 0, self.claims.len()),
                        first(
                            unique_problem(self.unknowns, "agent_checkpoint.unknowns"@),
                            first_from(
                                unknown_problem(self.unknowns, "agent_checkpoint.unknown"@),
                                0,
                                self.unknowns.len(),
                            ),
                        ),
                    ),
                ),
            ),
        )
    }
}

/// A checkpoint put together for an Episode.
pub open spec fn checkpoint_of(
    checkpoint_id: AgentCheckpointId,
    episode: WorkEpisodeView,
    intent_revision_id: TaskIntentRevisionId,
    claims: Seq<CheckpointClaimView>,
    unknowns: Seq<CaptureUnknownView>,
) -> AgentCheckpointView {
    AgentCheckpointView {
        checkpoint_id,
        episode_id: episode.episode_id,
        task_session_id: episode.task_session_id,
        task_id: episode.task_id,
        intent_revision_id,
        claims,
        unknowns,
    }
}

impl AgentCheckpoint {
    /// Creates a Checkpoint with server-owned identity.
    pub fn from_parts(
        episode: &WorkEpisode,
        intent_revision_id: TaskIntentRevisionId,
        claims: Vec<CheckpointClaim>,
        unknowns: Vec<CaptureUnknown>,
    ) -> (result: Result<Self>)
        ensures
            forall|id: AgentCheckpointId|
                fails_as(
                    result,
                    (#[trigger] checkpoint_of(
                        id,
                        episode.deep_view(),
                        intent_revision_id,
                        claims.deep_view(),
                        unknowns.deep_view(),
                    )).problem(episode.deep_view()),
                ),
            result is Ok ==> result->Ok_0.checkpoint_id.canonical() && result->Ok_0.deep_view() == checkpoint_of(
                result->Ok_0.checkpoint_id,
                episode.deep_view(),
                intent_revision_id,
                claims.deep_view(),
                unknowns.deep_view(),
            ),
    {
        let checkpoint = AgentCheckpoint {
            checkpoint_id: AgentCheckpointId::new(),
            episode_id: episode.episode_id,
            task_session_id: episode.task_session_id,
            task_id: episode.task_id,
            intent_revision_id,
            claims,
            unknowns,
        };
        proof {
            assert forall|id: AgentCheckpointId| (#[trigger] checkpoint_of(
                id,
                episode.deep_view(),
                intent_revision_id,
                claims.deep_view(),
                unknowns.deep_view(),
            )).problem(episode.deep_view()) == checkpoint.deep_view().problem(episode.deep_view()) by {
                let other = checkpoint_of(
                    id,
                    episode.deep_view(),
                    intent_revision_id,
                    claims.deep_view(),
                    unknowns.deep_view(),
                );
                let this = checkpoint.deep_view();
                assert forall|i: int| #[trigger] other.claim_problem(episode.deep_view())(i) == this.claim_problem(
                    episode.deep_view(),
                )(i) by {
                    assert(other.repeats_claim(i) == this.repeats_claim(i));
                    assert(other.has_foreign_evidence(episode.deep_view(), i) == this.has_foreign_evidence(
                        episode.deep_view(),
                        i,
                    ));
                }
                assert(other.claim_problem(episode.deep_view()) =~= this.claim_problem(episode.deep_view()));
            }
        }
        checkpoint.validate_against_episode(episode)?;
        Ok(checkpoint)
    }

    fn claim_repeats(&self, at: usize) -> (repeats: bool)
        requires
            at < self.claims@.len(),
        ensures
            repeats == self.deep_view().repeats_claim(at as int),
    {
        let ghost model = self.deep_view();
        let claim = &self.claims[at];
        assert(claim.deep_view() == model.claims[at as int]);
        let mut index: usize = 0;
        while index < at
            invariant
                index <= at < self.claims@.len(),
                model == self.deep_view(),
                claim.deep_view() == model.claims[at as int],
                forall|k: int|
                    0 <= k < index ==> !((#[trigger] model.claims[k]).claim_id == model.claims[at as int].claim_id || (
                    model.claims[k].statement == model.claims[at as int].statement && model.claims[k].rationale
                        == model.claims[at as int].rationale)),
            decreases at - index,
        {
            let earlier = &self.claims[index];
            assert(earlier.deep_view() == model.claims[index as int]);
            if earlier.claim_id == claim.claim_id || (earlier.statement == claim.statement && earlier.rationale
                == claim.rationale) {
                return true;
            }
            index = index + 1;
        }
        false
    }

    fn claim_reaches_outside(&self, episode: &WorkEpisode, at: usize) -> (outside: bool)
        requires
            at < self.claims@.len(),
        ensures
            outside == self.deep_view().has_foreign_evidence(episode.deep_view(), at as int),
    {
        let observations = observation_ids_of(&episode.observations);
        let signals = signal_ids_of(&episode.signal_refs);
        let ghost model = self.deep_view();
        let claim = &self.claims[at];
        assert(claim.deep_view() == model.claims[at as int]);
        let mut index: usize = 0;
        while index < claim.evidence_refs.len()
            invariant
                index <= claim.evidence_refs@.len(),
                at < self.claims@.len(),
                model == self.deep_view(),
                claim.deep_view() == model.claims[at as int],
                observations.deep_view() == observation_ids(episode.deep_view().observations),
                signals.deep_view() == signal_ids(episode.deep_view().signal_refs),
                forall|k: int|
                    0 <= k < index ==> !is_foreign_evidence(
                        #[trigger] model.claims[at as int].evidence_refs[k],
                        episode.deep_view(),
                    ),
            decreases claim.evidence_refs@.len() - index,
        {
            assert(
                claim.evidence_refs@[index as int].deep_view() == model.claims[at as int].evidence_refs[index as int]
            );
            let outside = match &claim.evidence_refs[index] {
                CaptureEvidenceRef::Observation { observation_id } => !is_among(&observations, observation_id),
                CaptureEvidenceRef::TaskSignal { signal_id } => !is_among(&signals, signal_id),
                CaptureEvidenceRef::ContextEvidence { .. } => false,
            };
            if outside {
                return true;
            }
            index = index + 1;
        }
        false
    }

    /// Validates Checkpoint ownership and complete Claim/Unknown content.
    pub fn validate_against_episode(&self, episode: &WorkEpisode) -> (result: Result<()>)
        ensures
            fails_as(result, self.deep_view().problem(episode.deep_view())),
    {
        if self.episode_id != episode.episode_id || self.task_session_id != episode.task_session_id || self.task_id
            != episode.task_id {
            return Err(invalid_input("agent_checkpoint must belong to the supplied Work Episode"));
        }
        if !episode.intent_revisions.contains(self.intent_revision_id) {
            return Err(invalid_input("agent_checkpoint Intent revision is outside the Work Episode range"));
        }
        if self.claims.len() == 0 && self.unknowns.len() == 0 {
            return Err(invalid_input("agent_checkpoint must contain at least one Claim or Unknown"));
        }
        self.validate_claims(episode)?;
        require_unique(&self.unknowns, "agent_checkpoint.unknowns")?;
        validate_unknowns(&self.unknowns, "agent_checkpoint.unknown")
    }

    fn validate_claims(&self, episode: &WorkEpisode) -> (result: Result<()>)
        ensures
            fails_as(
                result,
                first_from(self.deep_view().claim_problem(episode.deep_view()), 0, self.deep_view().claims.len()),
            ),
    {
        let ghost model = self.deep_view();
        let ghost problem = model.claim_problem(episode.deep_view());
        let mut index: usize = 0;
        while index < self.claims.len()
            invariant
                index <= self.claims@.len(),
                model == self.deep_view(),
                problem == model.claim_problem(episode.deep_view()),
                first_from(problem, 0, model.claims.len()) == first_from(problem, index as nat, model.claims.len()),
            decreases self.claims@.len() - index,
        {
            assert(self.claims@[index as int].deep_view() == model.claims[index as int]);
            self.claims[index].validate("agent_checkpoint.claim")?;
            if self.claim_repeats(index) {
                return Err(invalid_input("agent_checkpoint.claims must not repeat Claims"));
            }
            if self.claim_reaches_outside(episode, index) {
                return Err(
                    invalid_input("agent_checkpoint Evidence must belong to the source Work Episode when Task-local"),
                );
            }
            index = index + 1;
        }
        Ok(())
    }
}

/// Builder-owned, verifiable provenance for one automatic Candidate.
#[derive(Clone, Debug, PartialEq, Eq)]
pub struct CandidateBuilderProvenance {
    pub build_id: CandidateBuildId,
    pub source_episode: WorkEpisodeRef,
    pub checkpoint_ids: Vec<AgentCheckpointId>,
    pub observation_ids: Vec<WorkObservationId>,
}

/// The model of [`CandidateBuilderProvenance`].
pub struct CandidateBuilderProvenanceView {
    pub build_id: CandidateBuildId,
    pub source_episode: WorkEpisodeRef,
    pub checkpoint_ids: Seq<AgentCheckpointId>,
    pub observation_ids: Seq<WorkObservationId>,
}

impl DeepView for CandidateBuilderProvenance {
    type V = CandidateBuilderProvenanceView;

    open spec fn deep_view(&self) -> CandidateBuilderProvenanceView {
        CandidateBuilderProvenanceView {
            build_id: self.build_id.deep_view(),
            source_episode: self.source_episode.deep_view(),
            checkpoint_ids: self.checkpoint_ids.deep_view(),
            observation_ids: self.observation_ids.deep_view(),
        }
    }
}

impl Value for CandidateBuilderProvenance {
    fn copied(&self) -> (copy: Self) {
        CandidateBuilderProvenance {
            build_id: self.build_id.copied(),
            source_episode: self.source_episode.copied(),
            checkpoint_ids: self.checkpoint_ids.copied(),
            observation_ids: self.observation_ids.copied(),
        }
    }

    fn same(&self, other: &Self) -> (equal: bool) {
        self.build_id.same(&other.build_id)
            && self.source_episode.same(&other.source_episode)
            && self.checkpoint_ids.same(&other.checkpoint_ids)
            && self.observation_ids.same(&other.observation_ids)
    }
}

impl CandidateBuilderProvenanceView {
    /// The JSON members, behind those of `body`.
    pub open spec fn json_members(self, body: Seq<char>) -> Seq<char> {
        let body = with_member(body, "build_id"@, <CandidateBuildId as Json>::json(self.build_id));
        let body = with_member(body, "source_episode"@, <WorkEpisodeRef as Json>::json(self.source_episode));
        let body = with_member(body, "checkpoint_ids"@, <Vec<AgentCheckpointId> as Json>::json(self.checkpoint_ids));
        let body = with_member(
            body,
            "observation_ids"@,
            <Vec<WorkObservationId> as Json>::json(self.observation_ids),
        );
        body
    }
}

impl CandidateBuilderProvenance {
    fn push_members(&self, text: &mut String)
        ensures
            final(text)@ == self.deep_view().json_members(old(text)@),
    {
        push_member(text, "build_id", &self.build_id);
        push_member(text, "source_episode", &self.source_episode);
        push_member(text, "checkpoint_ids", &self.checkpoint_ids);
        push_member(text, "observation_ids", &self.observation_ids);
    }
}

impl Json for CandidateBuilderProvenance {
    open spec fn json(model: CandidateBuilderProvenanceView) -> Seq<char> {
        object(model.json_members(Seq::<char>::empty()))
    }

    fn write_json(&self, out: &mut String) {
        let mut body = String::new();
        self.push_members(&mut body);
        push_object(out, body.as_str());
    }
}

/// Why Builder sources are invalid, if they are.
pub open spec fn provenance_problem(
    checkpoint_ids: Seq<AgentCheckpointId>,
    observation_ids: Seq<WorkObservationId>,
) -> Option<ErrorView> {
    first(
        given(
            checkpoint_ids.len() == 0,
            invalid("candidate_builder_provenance requires a Checkpoint source"@),
        ),
        first(
            unique_problem(checkpoint_ids, "candidate_builder_provenance.checkpoint_ids"@),
            unique_problem(observation_ids, "candidate_builder_provenance.observation_ids"@),
        ),
    )
}

impl CandidateBuilderProvenance {
    /// Creates provenance for one Builder run.
    ///
    /// Observation sources are optional when a Claim is grounded directly by Task Signal or
    /// immutable Context Evidence.
    pub fn from_parts(
        source_episode: WorkEpisodeRef,
        checkpoint_ids: Vec<AgentCheckpointId>,
        observation_ids: Vec<WorkObservationId>,
    ) -> (result: Result<Self>)
        ensures
            fails_as(result, provenance_problem(checkpoint_ids.deep_view(), observation_ids.deep_view())),
            result is Ok ==> result->Ok_0.build_id.canonical() && result->Ok_0.source_episode == source_episode
                && result->Ok_0.checkpoint_ids == checkpoint_ids && result->Ok_0.observation_ids == observation_ids,
    {
        let provenance = CandidateBuilderProvenance {
            build_id: CandidateBuildId::new(),
            source_episode,
            checkpoint_ids,
            observation_ids,
        };
        provenance.validate()?;
        Ok(provenance)
    }

    fn validate(&self) -> (result: Result<()>)
        ensures
            fails_as(result, provenance_problem(self.deep_view().checkpoint_ids, self.deep_view().observation_ids)),
    {
        if self.checkpoint_ids.len() == 0 {
            return Err(invalid_input("candidate_builder_provenance requires a Checkpoint source"));
        }
        require_unique(&self.checkpoint_ids, "candidate_builder_provenance.checkpoint_ids")?;
        require_unique(&self.observation_ids, "candidate_builder_provenance.observation_ids")
    }
}

/// Lifecycle of one rebuildable Candidate review analysis.
#[derive(Clone, Copy, Debug, PartialEq, Eq, Structural)]
pub enum CandidateAnalysisStatus {
    Pending,
    Complete,
    Failed,
}

impl DeepView for CandidateAnalysisStatus {
    type V = CandidateAnalysisStatus;

    open spec fn deep_view(&self) -> CandidateAnalysisStatus {
        *self
    }
}

impl Value for CandidateAnalysisStatus {
    fn copied(&self) -> (copy: Self) {
        *self
    }

    fn same(&self, other: &Self) -> (equal: bool) {
        *self == *other
    }
}

impl Json for CandidateAnalysisStatus {
    open spec fn json(model: CandidateAnalysisStatus) -> Seq<char> {
        match model {
            CandidateAnalysisStatus::Pending => "\"pending\""@,
            CandidateAnalysisStatus::Complete => "\"complete\""@,
            CandidateAnalysisStatus::Failed => "\"failed\""@,
        }
    }

    fn write_json(&self, out: &mut String) {
        match self {
            CandidateAnalysisStatus::Pending => out.append("\"pending\""),
            CandidateAnalysisStatus::Complete => out.append("\"complete\""),
            CandidateAnalysisStatus::Failed => out.append("\"failed\""),
        }
    }
}

/// Non-authoritative relationship assessed against one immutable Context revision.
#[derive(Clone, Copy, Debug, PartialEq, Eq, Structural, PartialOrd, Ord, Hash)]
pub enum CandidateAssessmentRelation {
    ExactDuplicate,
    Supports,
    Revises,
    PotentialContradiction,
    UnresolvedRelated,
    Novel,
}

impl DeepView for CandidateAssessmentRelation {
    type V = CandidateAssessmentRelation;

    open spec fn deep_view(&self) -> CandidateAssessmentRelation {
        *self
    }
}

impl Value for CandidateAssessmentRelation {
    fn copied(&self) -> (copy: Self) {
        *self
    }

    fn same(&self, other: &Self) -> (equal: bool) {
        *self == *other
    }
}

impl Json for CandidateAssessmentRelation {
    open spec fn json(model: CandidateAssessmentRelation) -> Seq<char> {
        match model {
            CandidateAssessmentRelation::ExactDuplicate => "\"exact_duplicate\""@,
            CandidateAssessmentRelation::Supports => "\"supports\""@,
            CandidateAssessmentRelation::Revises => "\"revises\""@,
            CandidateAssessmentRelation::PotentialContradiction => "\"potential_contradiction\""@,
            CandidateAssessmentRelation::UnresolvedRelated => "\"unresolved_related\""@,
            CandidateAssessmentRelation::Novel => "\"novel\""@,
        }
    }

    fn write_json(&self, out: &mut String) {
        match self {
            CandidateAssessmentRelation::ExactDuplicate => out.append("\"exact_duplicate\""),
            CandidateAssessmentRelation::Supports => out.append("\"supports\""),
            CandidateAssessmentRelation::Revises => out.append("\"revises\""),
            CandidateAssessmentRelation::PotentialContradiction => out.append("\"potential_contradiction\""),
            CandidateAssessmentRelation::UnresolvedRelated => out.append("\"unresolved_related\""),
            CandidateAssessmentRelation::Novel => out.append("\"novel\""),
        }
    }
}

/// Deterministic confidence with a human-readable basis.
#[derive(Clone, Debug, PartialEq, Eq)]
pub struct CandidateConfidence {
    pub basis_points: u16,
    pub rationale: String,
}

/// The model of [`CandidateConfidence`].
pub struct CandidateConfidenceView {
    pub basis_points: u16,
    pub rationale: Seq<char>,
}

impl DeepView for CandidateConfidence {
    type V = CandidateConfidenceView;

    open spec fn deep_view(&self) -> CandidateConfidenceView {
        CandidateConfidenceView {
            basis_points: self.basis_points.deep_view(),
            rationale: self.rationale.deep_view(),
        }
    }
}

impl Value for CandidateConfidence {
    fn copied(&self) -> (copy: Self) {
        CandidateConfidence {
            basis_points: self.basis_points.copied(),
            rationale: self.rationale.copied(),
        }
    }

    fn same(&self, other: &Self) -> (equal: bool) {
        self.basis_points.same(&other.basis_points)
            && self.rationale.same(&other.rationale)
    }
}

impl CandidateConfidenceView {
    /// The JSON members, behind those of `body`.
    pub open spec fn json_members(self, body: Seq<char>) -> Seq<char> {
        let body = with_member(body, "basis_points"@, <u16 as Json>::json(self.basis_points));
        let body = with_member(body, "rationale"@, <String as Json>::json(self.rationale));
        body
    }
}

impl CandidateConfidence {
    fn push_members(&self, text: &mut String)
        ensures
            final(text)@ == self.deep_view().json_members(old(text)@),
    {
        push_member(text, "basis_points", &self.basis_points);
        push_member(text, "rationale", &self.rationale);
    }
}

impl Json for CandidateConfidence {
    open spec fn json(model: CandidateConfidenceView) -> Seq<char> {
        object(model.json_members(Seq::<char>::empty()))
    }

    fn write_json(&self, out: &mut String) {
        let mut body = String::new();
        self.push_members(&mut body);
        push_object(out, body.as_str());
    }
}

impl CandidateConfidenceView {
    /// Why a confidence is invalid, if it is.
    pub open spec fn problem(self, field: Seq<char>) -> Option<ErrorView> {
        first(
            given(
                self.basis_points > 10_000,
                invalid(field + ".basis_points must be between 0 and 10000"@),
            ),
            text_problem(self.rationale, field + ".rationale"@),
        )
    }
}

impl CandidateConfidence {
    fn validate(&self, field: &str) -> (result: Result<()>)
        ensures
            fails_as(result, self.deep_view().problem(field@)),
    {
        if self.basis_points > 10_000 {
            let message = joined2(field, ".basis_points must be between 0 and 10000");
            return Err(invalid_input(message.as_str()));
        }
        require_named_text(self.rationale.as_str(), field, ".rationale")
    }
}

/// Typed comparison or retrieval evidence supporting one Candidate assessment.
#[derive(Clone, Debug, PartialEq, Eq, Hash)]
pub enum CandidateAssessmentPath {
    CanonicalDraftEquality,
    StatementEquality,
    TopicEquality {
        topic_key: String,
    },
    ExplicitRelatedContext,
    ExactArtifactGraph {
        artifact: ArtifactRef,
    },
    ContextRelationHop {
        relation: ContextRelationKind,
        depth: u8,
    },
    ContextFullText {
        matched_terms: Vec<String>,
    },
    ScopeOverlap {
        domains: Vec<String>,
        platforms: Vec<String>,
        conditions: Vec<String>,
    },
    SafetyDiagnostic {
        reason: String,
    },
    NoSufficientCandidate,
}

/// The model of [`CandidateAssessmentPath`].
pub enum CandidateAssessmentPathView {
    CanonicalDraftEquality,
    StatementEquality,
    TopicEquality {
        topic_key: Seq<char>,
    },
    ExplicitRelatedContext,
    ExactArtifactGraph {
        artifact: ArtifactRefView,
    },
    ContextRelationHop {
        relation: ContextRelationKind,
        depth: u8,
    },
    ContextFullText {
        matched_terms: Seq<Seq<char>>,
    },
    ScopeOverlap {
        domains: Seq<Seq<char>>,
        platforms: Seq<Seq<char>>,
        conditions: Seq<Seq<char>>,
    },
    SafetyDiagnostic {
        reason: Seq<char>,
    },
    NoSufficientCandidate,
}

impl DeepView for CandidateAssessmentPath {
    type V = CandidateAssessmentPathView;

    open spec fn deep_view(&self) -> CandidateAssessmentPathView {
        match self {
            CandidateAssessmentPath::CanonicalDraftEquality => CandidateAssessmentPathView::CanonicalDraftEquality,
            CandidateAssessmentPath::StatementEquality => CandidateAssessmentPathView::StatementEquality,
            CandidateAssessmentPath::TopicEquality { topic_key } => {
                CandidateAssessmentPathView::TopicEquality { topic_key: topic_key.deep_view() }
            },
            CandidateAssessmentPath::ExplicitRelatedContext => CandidateAssessmentPathView::ExplicitRelatedContext,
            CandidateAssessmentPath::ExactArtifactGraph { artifact } => {
                CandidateAssessmentPathView::ExactArtifactGraph { artifact: artifact.deep_view() }
            },
            CandidateAssessmentPath::ContextRelationHop { relation, depth } => {
                CandidateAssessmentPathView::ContextRelationHop {
                    relation: relation.deep_view(),
                    depth: depth.deep_view(),
                }
            },
            CandidateAssessmentPath::ContextFullText { matched_terms } => {
                CandidateAssessmentPathView::ContextFullText { matched_terms: matched_terms.deep_view() }
            },
            CandidateAssessmentPath::ScopeOverlap { domains, platforms, conditions } => {
                CandidateAssessmentPathView::ScopeOverlap {
                    domains: domains.deep_view(),
                    platforms: platforms.deep_view(),
                    conditions: conditions.deep_view(),
                }
            },
            CandidateAssessmentPath::SafetyDiagnostic { reason } => {
                CandidateAssessmentPathView::SafetyDiagnostic { reason: reason.deep_view() }
            },
            CandidateAssessmentPath::NoSufficientCandidate => CandidateAssessmentPathView::NoSufficientCandidate,
        }
    }
}

impl Value for CandidateAssessmentPath {
    fn copied(&self) -> (copy: Self) {
        match self {
            CandidateAssessmentPath::CanonicalDraftEquality => CandidateAssessmentPath::CanonicalDraftEquality,
            CandidateAssessmentPath::StatementEquality => CandidateAssessmentPath::StatementEquality,
            CandidateAssessmentPath::TopicEquality { topic_key } => {
                CandidateAssessmentPath::TopicEquality { topic_key: topic_key.copied() }
            },
            CandidateAssessmentPath::ExplicitRelatedContext => CandidateAssessmentPath::ExplicitRelatedContext,
            CandidateAssessmentPath::ExactArtifactGraph { artifact } => {
                CandidateAssessmentPath::ExactArtifactGraph { artifact: artifact.copied() }
            },
            CandidateAssessmentPath::ContextRelationHop { relation, depth } => {
                CandidateAssessmentPath::ContextRelationHop { relation: relation.copied(), depth: depth.copied() }
            },
            CandidateAssessmentPath::ContextFullText { matched_terms } => {
                CandidateAssessmentPath::ContextFullText { matched_terms: matched_terms.copied() }
            },
            CandidateAssessmentPath::ScopeOverlap { domains, platforms, conditions } => {
                CandidateAssessmentPath::ScopeOverlap {
                    domains: domains.copied(),
                    platforms: platforms.copied(),
                    conditions: conditions.copied(),
                }
            },
            CandidateAssessmentPath::SafetyDiagnostic { reason } => {
                CandidateAssessmentPath::SafetyDiagnostic { reason: reason.copied() }
            },
            CandidateAssessmentPath::NoSufficientCandidate => CandidateAssessmentPath::NoSufficientCandidate,
        }
    }

    fn same(&self, other: &Self) -> (equal: bool) {
        match (self, other) {
            (
                CandidateAssessmentPath::CanonicalDraftEquality,
                CandidateAssessmentPath::CanonicalDraftEquality,
            ) => true,
            (CandidateAssessmentPath::StatementEquality, CandidateAssessmentPath::StatementEquality) => true,
            (
                CandidateAssessmentPath::TopicEquality { topic_key: left_topic_key },
                CandidateAssessmentPath::TopicEquality { topic_key: right_topic_key },
            ) => left_topic_key.same(right_topic_key),
            (
                CandidateAssessmentPath::ExplicitRelatedContext,
                CandidateAssessmentPath::ExplicitRelatedContext,
            ) => true,
            (
                CandidateAssessmentPath::ExactArtifactGraph { artifact: left_artifact },
                CandidateAssessmentPath::ExactArtifactGraph { artifact: right_artifact },
            ) => left_artifact.same(right_artifact),
            (
                CandidateAssessmentPath::ContextRelationHop { relation: left_relation, depth: left_depth },
                CandidateAssessmentPath::ContextRelationHop { relation: right_relation, depth: right_depth },
            ) => left_relation.same(right_relation) && left_depth.same(right_depth),
            (
                CandidateAssessmentPath::ContextFullText { matched_terms: left_matched_terms },
                CandidateAssessmentPath::ContextFullText { matched_terms: right_matched_terms },
            ) => left_matched_terms.same(right_matched_terms),
            (
                CandidateAssessmentPath::ScopeOverlap {
                    domains: left_domains,
                    platforms: left_platforms,
                    conditions: left_conditions,
                },
                CandidateAssessmentPath::ScopeOverlap {
                    domains: right_domains,
                    platforms: right_platforms,
                    conditions: right_conditions,
                },
            ) => left_domains.same(right_domains)
                && left_platforms.same(right_platforms)
                && left_conditions.same(right_conditions),
            (
                CandidateAssessmentPath::SafetyDiagnostic { reason: left_reason },
                CandidateAssessmentPath::SafetyDiagnostic { reason: right_reason },
            ) => left_reason.same(right_reason),
            (CandidateAssessmentPath::NoSufficientCandidate, CandidateAssessmentPath::NoSufficientCandidate) => true,
            _ => false,
        }
    }
}

impl Json for CandidateAssessmentPath {
    open spec fn json(model: CandidateAssessmentPathView) -> Seq<char> {
        match model {
            CandidateAssessmentPathView::CanonicalDraftEquality => {
                let body = with_member(Seq::<char>::empty(), "kind"@, "\"canonical_draft_equality\""@);
                object(body)
            },
            CandidateAssessmentPathView::StatementEquality => {
                let body = with_member(Seq::<char>::empty(), "kind"@, "\"statement_equality\""@);
                object(body)
            },
            CandidateAssessmentPathView::TopicEquality { topic_key } => {
                let body = with_member(Seq::<char>::empty(), "kind"@, "\"topic_equality\""@);
                let body = with_member(body, "topic_key"@, <String as Json>::json(topic_key));
                object(body)
            },
            CandidateAssessmentPathView::ExplicitRelatedContext => {
                let body = with_member(Seq::<char>::empty(), "kind"@, "\"explicit_related_context\""@);
                object(body)
            },
            CandidateAssessmentPathView::ExactArtifactGraph { artifact } => {
                let body = with_member(Seq::<char>::empty(), "kind"@, "\"exact_artifact_graph\""@);
                let body = with_member(body, "artifact"@, <ArtifactRef as Json>::json(artifact));
                object(body)
            },
            CandidateAssessmentPathView::ContextRelationHop { relation, depth } => {
                let body = with_member(Seq::<char>::empty(), "kind"@, "\"context_relation_hop\""@);
                let body = with_member(body, "relation"@, <ContextRelationKind as Json>::json(relation));
                let body = with_member(body, "depth"@, <u8 as Json>::json(depth));
                object(body)
            },
            CandidateAssessmentPathView::ContextFullText { matched_terms } => {
                let body = with_member(Seq::<char>::empty(), "kind"@, "\"context_full_text\""@);
                let body = with_member(body, "matched_terms"@, <Vec<String> as Json>::json(matched_terms));
                object(body)
            },
            CandidateAssessmentPathView::ScopeOverlap { domains, platforms, conditions } => {
                let body = with_member(Seq::<char>::empty(), "kind"@, "\"scope_overlap\""@);
                let body = with_member(body, "domains"@, <Vec<String> as Json>::json(domains));
                let body = with_member(body, "platforms"@, <Vec<String> as Json>::json(platforms));
                let body = with_member(body, "conditions"@, <Vec<String> as Json>::json(conditions));
                object(body)
            },
            CandidateAssessmentPathView::SafetyDiagnostic { reason } => {
                let body = with_member(Seq::<char>::empty(), "kind"@, "\"safety_diagnostic\""@);
                let body = with_member(body, "reason"@, <String as Json>::json(reason));
                object(body)
            },
            CandidateAssessmentPathView::NoSufficientCandidate => {
                let body = with_member(Seq::<char>::empty(), "kind"@, "\"no_sufficient_candidate\""@);
                object(body)
            },
        }
    }

    fn write_json(&self, out: &mut String) {
        match self {
            CandidateAssessmentPath::CanonicalDraftEquality => {
                let mut body = String::new();
                push_member_text(&mut body, "kind", "\"canonical_draft_equality\"");
                push_object(out, body.as_str());
            },
            CandidateAssessmentPath::StatementEquality => {
                let mut body = String::new();
                push_member_text(&mut body, "kind", "\"statement_equality\"");
                push_object(out, body.as_str());
            },
            CandidateAssessmentPath::TopicEquality { topic_key } => {
                let mut body = String::new();
                push_member_text(&mut body, "kind", "\"topic_equality\"");
                push_member(&mut body, "topic_key", topic_key);
                push_object(out, body.as_str());
            },
            CandidateAssessmentPath::ExplicitRelatedContext => {
                let mut body = String::new();
                push_member_text(&mut body, "kind", "\"explicit_related_context\"");
                push_object(out, body.as_str());
            },
            CandidateAssessmentPath::ExactArtifactGraph { artifact } => {
                let mut body = String::new();
                push_member_text(&mut body, "kind", "\"exact_artifact_graph\"");
                push_member(&mut body, "artifact", artifact);
                push_object(out, body.as_str());
            },
            CandidateAssessmentPath::ContextRelationHop { relation, depth } => {
                let mut body = String::new();
                push_member_text(&mut body, "kind", "\"context_relation_hop\"");
                push_member(&mut body, "relation", relation);
                push_member(&mut body, "depth", depth);
                push_object(out, body.as_str());
            },
            CandidateAssessmentPath::ContextFullText { matched_terms } => {
                let mut body = String::new();
                push_member_text(&mut body, "kind", "\"context_full_text\"");
                push_member(&mut body, "matched_terms", matched_terms);
                push_object(out, body.as_str());
            },
            CandidateAssessmentPath::ScopeOverlap { domains, platforms, conditions } => {
                let mut body = String::new();
                push_member_text(&mut body, "kind", "\"scope_overlap\"");
                push_member(&mut body, "domains", domains);
                push_member(&mut body, "platforms", platforms);
                push_member(&mut body, "conditions", conditions);
                push_object(out, body.as_str());
            },
            CandidateAssessmentPath::SafetyDiagnostic { reason } => {
                let mut body = String::new();
                push_member_text(&mut body, "kind", "\"safety_diagnostic\"");
                push_member(&mut body, "reason", reason);
                push_object(out, body.as_str());
            },
            CandidateAssessmentPath::NoSufficientCandidate => {
                let mut body = String::new();
                push_member_text(&mut body, "kind", "\"no_sufficient_candidate\"");
                push_object(out, body.as_str());
            },
        }
    }
}

impl CandidateAssessmentPathView {
    /// Why a path is invalid, if it is.
    pub open spec fn problem(self, field: Seq<char>) -> Option<ErrorView> {
        match self {
            CandidateAssessmentPathView::CanonicalDraftEquality => None,
            CandidateAssessmentPathView::StatementEquality => None,
            CandidateAssessmentPathView::ExplicitRelatedContext => None,
            CandidateAssessmentPathView::NoSufficientCandidate => None,
            CandidateAssessmentPathView::TopicEquality { topic_key } => {
                text_problem(topic_key, field + ".topic_key"@)
            },
            CandidateAssessmentPathView::ExactArtifactGraph { artifact } => artifact.locator.problem(),
            CandidateAssessmentPathView::ContextRelationHop { depth, .. } => given(
                depth == 0 || depth > 2,
                invalid(field + ".depth must be one or two"@),
            ),
            CandidateAssessmentPathView::ContextFullText { matched_terms } => first(
                given(matched_terms.len() == 0, invalid(field + ".matched_terms must not be empty"@)),
                distinct_texts_problem(matched_terms, field + ".matched_terms"@),
            ),
            CandidateAssessmentPathView::ScopeOverlap { domains, platforms, conditions } => first(
                given(
                    domains.len() == 0 && platforms.len() == 0 && conditions.len() == 0,
                    invalid(field + " requires an overlapping scope"@),
                ),
                first(
                    distinct_texts_problem(domains, field + ".domains"@),
                    first(
                        distinct_texts_problem(platforms, field + ".platforms"@),
                        distinct_texts_problem(conditions, field + ".conditions"@),
                    ),
                ),
            ),
            CandidateAssessmentPathView::SafetyDiagnostic { reason } => text_problem(reason, field + ".reason"@),
        }
    }
}

fn require_named_texts(values: &Vec<String>, field: &str, part: &str) -> (result: Result<()>)
    ensures
        fails_as(result, distinct_texts_problem(values.deep_view(), field@ + part@)),
{
    let name = joined2(field, part);
    require_distinct_texts(values, name.as_str())
}

impl CandidateAssessmentPath {
    fn validate(&self, field: &str) -> (result: Result<()>)
        ensures
            fails_as(result, self.deep_view().problem(field@)),
    {
        match self {
            CandidateAssessmentPath::CanonicalDraftEquality => Ok(()),
            CandidateAssessmentPath::StatementEquality => Ok(()),
            CandidateAssessmentPath::ExplicitRelatedContext => Ok(()),
            CandidateAssessmentPath::NoSufficientCandidate => Ok(()),
            CandidateAssessmentPath::TopicEquality { topic_key } => require_named_text(
                topic_key.as_str(),
                field,
                ".topic_key",
            ),
            CandidateAssessmentPath::ExactArtifactGraph { artifact } => artifact.validate(),
            CandidateAssessmentPath::ContextRelationHop { depth, .. } => {
                if *depth == 0 || *depth > 2 {
                    let message = joined2(field, ".depth must be one or two");
                    return Err(invalid_input(message.as_str()));
                }
                Ok(())
            },
            CandidateAssessmentPath::ContextFullText { matched_terms } => {
                if matched_terms.len() == 0 {
                    let message = joined2(field, ".matched_terms must not be empty");
                    return Err(invalid_input(message.as_str()));
                }
                require_named_texts(matched_terms, field, ".matched_terms")
            },
            CandidateAssessmentPath::ScopeOverlap { domains, platforms, conditions } => {
                if domains.len() == 0 && platforms.len() == 0 && conditions.len() == 0 {
                    let message = joined2(field, " requires an overlapping scope");
                    return Err(invalid_input(message.as_str()));
                }
                require_named_texts(domains, field, ".domains")?;
                require_named_texts(platforms, field, ".platforms")?;
                require_named_texts(conditions, field, ".conditions")
            },
            CandidateAssessmentPath::SafetyDiagnostic { reason } => require_named_text(
                reason.as_str(),
                field,
                ".reason",
            ),
        }
    }
}

/// One evidence-linked review assessment; it never creates an authoritative Context relation.
#[derive(Clone, Debug, PartialEq, Eq)]
pub struct CandidateRelationAssessment {
    pub relation: CandidateAssessmentRelation,
    pub target: Option<ContextRevisionRef>,
    pub confidence: CandidateConfidence,
    pub paths: Vec<CandidateAssessmentPath>,
    pub reasons: Vec<String>,
}

/// The model of [`CandidateRelationAssessment`].
pub struct CandidateRelationAssessmentView {
    pub relation: CandidateAssessmentRelation,
    pub target: Option<ContextRevisionRef>,
    pub confidence: CandidateConfidenceView,
    pub paths: Seq<CandidateAssessmentPathView>,
    pub reasons: Seq<Seq<char>>,
}

impl DeepView for CandidateRelationAssessment {
    type V = CandidateRelationAssessmentView;

    open spec fn deep_view(&self) -> CandidateRelationAssessmentView {
        CandidateRelationAssessmentView {
            relation: self.relation.deep_view(),
            target: self.target.deep_view(),
            confidence: self.confidence.deep_view(),
            paths: self.paths.deep_view(),
            reasons: self.reasons.deep_view(),
        }
    }
}

impl Value for CandidateRelationAssessment {
    fn copied(&self) -> (copy: Self) {
        CandidateRelationAssessment {
            relation: self.relation.copied(),
            target: self.target.copied(),
            confidence: self.confidence.copied(),
            paths: self.paths.copied(),
            reasons: self.reasons.copied(),
        }
    }

    fn same(&self, other: &Self) -> (equal: bool) {
        self.relation.same(&other.relation)
            && self.target.same(&other.target)
            && self.confidence.same(&other.confidence)
            && self.paths.same(&other.paths)
            && self.reasons.same(&other.reasons)
    }
}

impl CandidateRelationAssessmentView {
    /// The JSON members, behind those of `body`.
    pub open spec fn json_members(self, body: Seq<char>) -> Seq<char> {
        let body = with_member(body, "relation"@, <CandidateAssessmentRelation as Json>::json(self.relation));
        let body = with_member(body, "target"@, <Option<ContextRevisionRef> as Json>::json(self.target));
        let body = with_member(body, "confidence"@, <CandidateConfidence as Json>::json(self.confidence));
        let body = with_member(body, "paths"@, <Vec<CandidateAssessmentPath> as Json>::json(self.paths));
        let body = with_member(body, "reasons"@, <Vec<String> as Json>::json(self.reasons));
        body
    }
}

impl CandidateRelationAssessment {
    fn push_members(&self, text: &mut String)
        ensures
            final(text)@ == self.deep_view().json_members(old(text)@),
    {
        push_member(text, "relation", &self.relation);
        push_member(text, "target", &self.target);
        push_member(text, "confidence", &self.confidence);
        push_member(text, "paths", &self.paths);
        push_member(text, "reasons", &self.reasons);
    }
}

impl Json for CandidateRelationAssessment {
    open spec fn json(model: CandidateRelationAssessmentView) -> Seq<char> {
        object(model.json_members(Seq::<char>::empty()))
    }

    fn write_json(&self, out: &mut String) {
        let mut body = String::new();
        self.push_members(&mut body);
        push_object(out, body.as_str());
    }
}

/// The check of each path of an assessment.
pub open spec fn assessment_path_problem(
    paths: Seq<CandidateAssessmentPathView>,
    field: Seq<char>,
) -> spec_fn(int) -> Option<ErrorView> {
    |i: int| paths[i].problem(entry(field + ".paths"@, i as nat))
}

impl CandidateRelationAssessmentView {
    /// Why an assessment is invalid, if it is.
    pub open spec fn problem(self, field: Seq<char>) -> Option<ErrorView> {
        first(
            if self.relation == CandidateAssessmentRelation::Novel {
                given(self.target is Some, invalid(field + ".novel must not have a target"@))
            } else {
                given(self.target is None, invalid(field + " requires a target"@))
            },
            first(
                self.confidence.problem(field + ".confidence"@),
                first(
                    given(
                        self.paths.len() == 0 || self.reasons.len() == 0,
                        invalid(field + " requires typed paths and reasons"@),
                    ),
                    first(
                        unique_problem(self.paths, field + ".paths"@),
                        first(
                            first_from(assessment_path_problem(self.paths, field), 0, self.paths.len()),
                            first(
                                distinct_texts_problem(self.reasons, field + ".reasons"@),
                                given(
                                    self.relation == CandidateAssessmentRelation::ExactDuplicate
                                        && !self.paths.contains(CandidateAssessmentPathView::CanonicalDraftEquality),
                                    invalid(field + ".exact_duplicate requires canonical draft equality"@),
                                ),
                            ),
                        ),
                    ),
                ),
            ),
        )
    }
}

fn validate_assessment_paths(paths: &Vec<CandidateAssessmentPath>, field: &str) -> (result: Result<()>)
    ensures
        fails_as(
            result,
            first_from(assessment_path_problem(paths.deep_view(), field@), 0, paths.deep_view().len()),
        ),
{
    let ghost model = paths.deep_view();
    let ghost problem = assessment_path_problem(model, field@);
    let list = joined2(field, ".paths");
    let mut index: usize = 0;
    while index < paths.len()
        invariant
            index <= paths@.len(),
            model == paths.deep_view(),
            list@ == field@ + ".paths"@,
            problem == assessment_path_problem(model, field@),
            first_from(problem, 0, model.len()) == first_from(problem, index as nat, model.len()),
        decreases paths@.len() - index,
    {
        assert(paths@[index as int].deep_view() == model[index as int]);
        let name = entry_name(list.as_str(), index);
        paths[index].validate(name.as_str())?;
        index = index + 1;
    }
    Ok(())
}

impl CandidateRelationAssessment {
    fn validate(&self, field: &str) -> (result: Result<()>)
        ensures
            fails_as(result, self.deep_view().problem(field@)),
    {
        if self.relation == CandidateAssessmentRelation::Novel {
            if self.target.is_some() {
                let message = joined2(field, ".novel must not have a target");
                return Err(invalid_input(message.as_str()));
            }
        } else if self.target.is_none() {
            let message = joined2(field, " requires a target");
            return Err(invalid_input(message.as_str()));
        }
        let name = joined2(field, ".confidence");
        self.confidence.validate(name.as_str())?;
        if self.paths.len() == 0 || self.reasons.len() == 0 {
            let message = joined2(field, " requires typed paths and reasons");
            return Err(invalid_input(message.as_str()));
        }
        let name = joined2(field, ".paths");
        require_unique(&self.paths, name.as_str())?;
        validate_assessment_paths(&self.paths, field)?;
        require_named_texts(&self.reasons, field, ".reasons")?;
        if self.relation == CandidateAssessmentRelation::ExactDuplicate && !is_among(
            &self.paths,
            &CandidateAssessmentPath::CanonicalDraftEquality,
        ) {
            let message = joined2(field, ".exact_duplicate requires canonical draft equality");
            return Err(invalid_input(message.as_str()));
        }
        Ok(())
    }
}

/// Generation-pinned, rebuildable Candidate review assessment.
#[derive(Clone, Debug, PartialEq, Eq)]
pub struct CandidateAnalysis {
    pub status: CandidateAnalysisStatus,
    pub assessments: Vec<CandidateRelationAssessment>,
    pub context_tree_oid: Option<String>,
    pub context_generation: Option<u64>,
    pub graph_context_tree_oid: Option<String>,
    pub artifact_generation: Option<String>,
    pub token_budget: usize,
    pub estimated_tokens: usize,
    pub omitted_target_count: usize,
    pub error_code: Option<String>,
}

/// The model of [`CandidateAnalysis`].
pub struct CandidateAnalysisView {
    pub status: CandidateAnalysisStatus,
    pub assessments: Seq<CandidateRelationAssessmentView>,
    pub context_tree_oid: Option<Seq<char>>,
    pub context_generation: Option<u64>,
    pub graph_context_tree_oid: Option<Seq<char>>,
    pub artifact_generation: Option<Seq<char>>,
    pub token_budget: usize,
    pub estimated_tokens: usize,
    pub omitted_target_count: usize,
    pub error_code: Option<Seq<char>>,
}

impl DeepView for CandidateAnalysis {
    type V = CandidateAnalysisView;

    open spec fn deep_view(&self) -> CandidateAnalysisView {
        CandidateAnalysisView {
            status: self.status.deep_view(),
            assessments: self.assessments.deep_view(),
            context_tree_oid: self.context_tree_oid.deep_view(),
            context_generation: self.context_generation.deep_view(),
            graph_context_tree_oid: self.graph_context_tree_oid.deep_view(),
            artifact_generation: self.artifact_generation.deep_view(),
            token_budget: self.token_budget.deep_view(),
            estimated_tokens: self.estimated_tokens.deep_view(),
            omitted_target_count: self.omitted_target_count.deep_view(),
            error_code: self.error_code.deep_view(),
        }
    }
}

impl Value for CandidateAnalysis {
    fn copied(&self) -> (copy: Self) {
        CandidateAnalysis {
            status: self.status.copied(),
            assessments: self.assessments.copied(),
            context_tree_oid: self.context_tree_oid.copied(),
            context_generation: self.context_generation.copied(),
            graph_context_tree_oid: self.graph_context_tree_oid.copied(),
            artifact_generation: self.artifact_generation.copied(),
            token_budget: self.token_budget.copied(),
            estimated_tokens: self.estimated_tokens.copied(),
            omitted_target_count: self.omitted_target_count.copied(),
            error_code: self.error_code.copied(),
        }
    }

    fn same(&self, other: &Self) -> (equal: bool) {
        self.status.same(&other.status)
            && self.assessments.same(&other.assessments)
            && self.context_tree_oid.same(&other.context_tree_oid)
            && self.context_generation.same(&other.context_generation)
            && self.graph_context_tree_oid.same(&other.graph_context_tree_oid)
            && self.artifact_generation.same(&other.artifact_generation)
            && self.token_budget.same(&other.token_budget)
            && self.estimated_tokens.same(&other.estimated_tokens)
            && self.omitted_target_count.same(&other.omitted_target_count)
            && self.error_code.same(&other.error_code)
    }
}

impl CandidateAnalysisView {
    /// The JSON members, behind those of `body`.
    pub open spec fn json_members(self, body: Seq<char>) -> Seq<char> {
        let body = with_member(body, "status"@, <CandidateAnalysisStatus as Json>::json(self.status));
        let body = with_member(
            body,
            "assessments"@,
            <Vec<CandidateRelationAssessment> as Json>::json(self.assessments),
        );
        let body = with_member(body, "context_tree_oid"@, <Option<String> as Json>::json(self.context_tree_oid));
        let body = with_member(body, "context_generation"@, <Option<u64> as Json>::json(self.context_generation));
        let body = with_member(
            body,
            "graph_context_tree_oid"@,
            <Option<String> as Json>::json(self.graph_context_tree_oid),
        );
        let body = with_member(
            body,
            "artifact_generation"@,
            <Option<String> as Json>::json(self.artifact_generation),
        );
        let body = with_member(body, "token_budget"@, <usize as Json>::json(self.token_budget));
        let body = with_member(body, "estimated_tokens"@, <usize as Json>::json(self.estimated_tokens));
        let body = with_member(body, "omitted_target_count"@, <usize as Json>::json(self.omitted_target_count));
        let body = with_member(body, "error_code"@, <Option<String> as Json>::json(self.error_code));
        body
    }
}

impl CandidateAnalysis {
    fn push_members(&self, text: &mut String)
        ensures
            final(text)@ == self.deep_view().json_members(old(text)@),
    {
        push_member(text, "status", &self.status);
        push_member(text, "assessments", &self.assessments);
        push_member(text, "context_tree_oid", &self.context_tree_oid);
        push_member(text, "context_generation", &self.context_generation);
        push_member(text, "graph_context_tree_oid", &self.graph_context_tree_oid);
        push_member(text, "artifact_generation", &self.artifact_generation);
        push_member(text, "token_budget", &self.token_budget);
        push_member(text, "estimated_tokens", &self.estimated_tokens);
        push_member(text, "omitted_target_count", &self.omitted_target_count);
        push_member(text, "error_code", &self.error_code);
    }
}

impl Json for CandidateAnalysis {
    open spec fn json(model: CandidateAnalysisView) -> Seq<char> {
        object(model.json_members(Seq::<char>::empty()))
    }

    fn write_json(&self, out: &mut String) {
        let mut body = String::new();
        self.push_members(&mut body);
        push_object(out, body.as_str());
    }
}

/// An optional text that is absent or empty.
pub open spec fn is_absent(text: Option<Seq<char>>) -> bool {
    text is None || text->0.len() == 0
}

fn absent(text: &Option<String>) -> (result: bool)
    ensures
        result == is_absent(text.deep_view()),
{
    match text {
        Some(value) => value.as_str().is_empty(),
        None => true,
    }
}

impl CandidateAnalysisView {
    /// Whether the assessment at a position has a target that was assessed before.
    pub open spec fn repeats_target(self, at: int) -> bool {
        self.assessments[at].relation != CandidateAssessmentRelation::Novel && exists|k: int|
            0 <= k < at && (#[trigger] self.assessments[k]).relation != CandidateAssessmentRelation::Novel
                && self.assessments[k].target == self.assessments[at].target
    }

    /// The check of each assessment, given those before it.
    pub open spec fn assessment_problem(self) -> spec_fn(int) -> Option<ErrorView> {
        |i: int|
            first(
                self.assessments[i].problem(entry("candidate_analysis.assessments"@, i as nat)),
                given(
                    self.repeats_target(i),
                    invalid("candidate_analysis must not assess one target more than once"@),
                ),
            )
    }

    /// Whether one of the first `count` assessments finds the Candidate novel.
    pub open spec fn finds_novel(self, count: int) -> bool {
        exists|k: int|
            0 <= k < count && (#[trigger] self.assessments[k]).relation == CandidateAssessmentRelation::Novel
    }

    /// Why an analysis is invalid, if it is.
    pub open spec fn problem(self) -> Option<ErrorView> {
        match self.status {
            CandidateAnalysisStatus::Pending => given(
                self.assessments.len() > 0 || self.error_code is Some,
                invalid("pending Candidate analysis cannot contain results or an error"@),
            ),
            CandidateAnalysisStatus::Failed => given(
                self.assessments.len() > 0 || is_absent(self.error_code),
                invalid("failed Candidate analysis requires only a typed error code"@),
            ),
            CandidateAnalysisStatus::Complete => first(
                given(
                    is_absent(self.context_tree_oid) || self.context_generation is None || self.assessments.len() == 0
                        || self.error_code is Some,
                    invalid("complete Candidate analysis requires Context provenance and assessments"@),
                ),
                first(
                    given(
                        self.estimated_tokens > self.token_budget,
                        invalid("Candidate analysis estimated tokens exceed its budget"@),
                    ),
                    first(
                        first_from(self.assessment_problem(), 0, self.assessments.len()),
                        given(
                            self.finds_novel(self.assessments.len() as int) && self.assessments.len() != 1,
                            invalid("novel Candidate analysis must be one exclusive assessment"@),
                        ),
                    ),
                ),
            ),
        }
    }
}

impl Default for CandidateAnalysis {
    fn default() -> (analysis: Self)
        ensures
            analysis.deep_view() == (CandidateAnalysisView {
                status: CandidateAnalysisStatus::Pending,
                assessments: Seq::empty(),
                context_tree_oid: None,
                context_generation: None,
                graph_context_tree_oid: None,
                artifact_generation: None,
                token_budget: 0,
                estimated_tokens: 0,
                omitted_target_count: 0,
                error_code: None,
            }),
    {
        let analysis = CandidateAnalysis {
            status: CandidateAnalysisStatus::Pending,
            assessments: Vec::new(),
            context_tree_oid: None,
            context_generation: None,
            graph_context_tree_oid: None,
            artifact_generation: None,
            token_budget: 0,
            estimated_tokens: 0,
            omitted_target_count: 0,
            error_code: None,
        };
        assert(analysis.deep_view().assessments =~= Seq::empty());
        analysis
    }
}

impl CandidateAnalysis {
    fn target_repeats(&self, at: usize) -> (repeats: bool)
        requires
            at < self.assessments@.len(),
        ensures
            repeats == self.deep_view().repeats_target(at as int),
    {
        let ghost model = self.deep_view();
        let current = &self.assessments[at];
        assert(current.deep_view() == model.assessments[at as int]);
        if current.relation == CandidateAssessmentRelation::Novel {
            return false;
        }
        let mut index: usize = 0;
        while index < at
            invariant
                index <= at < self.assessments@.len(),
                model == self.deep_view(),
                current.deep_view() == model.assessments[at as int],
                current.relation != CandidateAssessmentRelation::Novel,
                forall|k: int|
                    0 <= k < index ==> !((#[trigger] model.assessments[k]).relation
                        != CandidateAssessmentRelation::Novel && model.assessments[k].target
                        == model.assessments[at as int].target),
            decreases at - index,
        {
            let earlier = &self.assessments[index];
            assert(earlier.deep_view() == model.assessments[index as int]);
            if earlier.relation != CandidateAssessmentRelation::Novel && earlier.target.same(&current.target) {
                return true;
            }
            index = index + 1;
        }
        false
    }

    /// Validates analysis lifecycle, provenance and target uniqueness.
    pub fn validate(&self) -> (result: Result<()>)
        ensures
            fails_as(result, self.deep_view().problem()),
    {
        let ghost model = self.deep_view();
        match self.status {
            CandidateAnalysisStatus::Pending => {
                if self.assessments.len() > 0 || self.error_code.is_some() {
                    return Err(invalid_input("pending Candidate analysis cannot contain results or an error"));
                }
                return Ok(());
            },
            CandidateAnalysisStatus::Failed => {
                if self.assessments.len() > 0 || absent(&self.error_code) {
                    return Err(invalid_input("failed Candidate analysis requires only a typed error code"));
                }
                return Ok(());
            },
            CandidateAnalysisStatus::Complete => {},
        }
        if absent(&self.context_tree_oid) || self.context_generation.is_none() || self.assessments.len() == 0
            || self.error_code.is_some() {
            return Err(invalid_input("complete Candidate analysis requires Context provenance and assessments"));
        }
        if self.estimated_tokens > self.token_budget {
            return Err(invalid_input("Candidate analysis estimated tokens exceed its budget"));
        }
        let ghost problem = model.assessment_problem();
        let mut novel = false;
        let mut index: usize = 0;
        while index < self.assessments.len()
            invariant
                index <= self.assessments@.len(),
                model == self.deep_view(),
                model.status == CandidateAnalysisStatus::Complete,
                !(is_absent(model.context_tree_oid) || model.context_generation is None || model.assessments.len() == 0
                    || model.error_code is Some),
                model.estimated_tokens <= model.token_budget,
                problem == model.assessment_problem(),
                novel == model.finds_novel(index as int),
                first_from(problem, 0, model.assessments.len()) == first_from(
                    problem,
                    index as nat,
                    model.assessments.len(),
                ),
            decreases self.assessments@.len() - index,
        {
            let assessment = &self.assessments[index];
            assert(assessment.deep_view() == model.assessments[index as int]);
            let name = entry_name("candidate_analysis.assessments", index);
            assessment.validate(name.as_str())?;
            if self.target_repeats(index) {
                return Err(invalid_input("candidate_analysis must not assess one target more than once"));
            }
            if assessment.relation == CandidateAssessmentRelation::Novel {
                novel = true;
                assert(model.assessments[index as int].relation == CandidateAssessmentRelation::Novel);
            }
            proof {
                if model.finds_novel(index as int) {
                    let k = choose|k: int|
                        0 <= k < index && (#[trigger] model.assessments[k]).relation
                            == CandidateAssessmentRelation::Novel;
                    assert(model.assessments[k].relation == CandidateAssessmentRelation::Novel);
                }
            }
            index = index + 1;
        }
        if novel && self.assessments.len() != 1 {
            return Err(invalid_input("novel Candidate analysis must be one exclusive assessment"));
        }
        Ok(())
    }
}

/// Existing Space relationship recommended for later human confirmation.
#[derive(Clone, Copy, Debug, PartialEq, Eq, Structural, PartialOrd, Ord, Hash)]
pub enum RecommendedSpaceRole {
    Primary,
    Related,
}

impl DeepView for RecommendedSpaceRole {
    type V = RecommendedSpaceRole;

    open spec fn deep_view(&self) -> RecommendedSpaceRole {
        *self
    }
}

impl Value for RecommendedSpaceRole {
    fn copied(&self) -> (copy: Self) {
        *self
    }

    fn same(&self, other: &Self) -> (equal: bool) {
        *self == *other
    }
}

impl Json for RecommendedSpaceRole {
    open spec fn json(model: RecommendedSpaceRole) -> Seq<char> {
        match model {
            RecommendedSpaceRole::Primary => "\"primary\""@,
            RecommendedSpaceRole::Related => "\"related\""@,
        }
    }

    fn write_json(&self, out: &mut String) {
        match self {
            RecommendedSpaceRole::Primary => out.append("\"primary\""),
            RecommendedSpaceRole::Related => out.append("\"related\""),
        }
    }
}

/// Typed evidence for a non-binding Candidate Space recommendation.
#[derive(Clone, Debug, PartialEq, Eq, Hash)]
pub enum CandidateSpaceRecommendationPath {
    CandidateTarget {
        relation: CandidateAssessmentRelation,
        target: ContextRevisionRef,
    },
    SourceTaskAssociation {
        reason: String,
    },
    SpaceIntentMatch {
        matched_terms: Vec<String>,
    },
    IntentConflict {
        head_count: usize,
    },
    ProposedFromCandidate,
    ManualReview,
}

/// The model of [`CandidateSpaceRecommendationPath`].
pub enum CandidateSpaceRecommendationPathView {
    CandidateTarget {
        relation: CandidateAssessmentRelation,
        target: ContextRevisionRef,
    },
    SourceTaskAssociation {
        reason: Seq<char>,
    },
    SpaceIntentMatch {
        matched_terms: Seq<Seq<char>>,
    },
    IntentConflict {
        head_count: usize,
    },
    ProposedFromCandidate,
    ManualReview,
}

impl DeepView for CandidateSpaceRecommendationPath {
    type V = CandidateSpaceRecommendationPathView;

    open spec fn deep_view(&self) -> CandidateSpaceRecommendationPathView {
        match self {
            CandidateSpaceRecommendationPath::CandidateTarget { relation, target } => {
                CandidateSpaceRecommendationPathView::CandidateTarget {
                    relation: relation.deep_view(),
                    target: target.deep_view(),
                }
            },
            CandidateSpaceRecommendationPath::SourceTaskAssociation { reason } => {
                CandidateSpaceRecommendationPathView::SourceTaskAssociation { reason: reason.deep_view() }
            },
            CandidateSpaceRecommendationPath::SpaceIntentMatch { matched_terms } => {
                CandidateSpaceRecommendationPathView::SpaceIntentMatch { matched_terms: matched_terms.deep_view() }
            },
            CandidateSpaceRecommendationPath::IntentConflict { head_count } => {
                CandidateSpaceRecommendationPathView::IntentConflict { head_count: head_count.deep_view() }
            },
            CandidateSpaceRecommendationPath::ProposedFromCandidate => {
                CandidateSpaceRecommendationPathView::ProposedFromCandidate
            },
            CandidateSpaceRecommendationPath::ManualReview => CandidateSpaceRecommendationPathView::ManualReview,
        }
    }
}

impl Value for CandidateSpaceRecommendationPath {
    fn copied(&self) -> (copy: Self) {
        match self {
            CandidateSpaceRecommendationPath::CandidateTarget { relation, target } => {
                CandidateSpaceRecommendationPath::CandidateTarget {
                    relation: relation.copied(),
                    target: target.copied(),
                }
            },
            CandidateSpaceRecommendationPath::SourceTaskAssociation { reason } => {
                CandidateSpaceRecommendationPath::SourceTaskAssociation { reason: reason.copied() }
            },
            CandidateSpaceRecommendationPath::SpaceIntentMatch { matched_terms } => {
                CandidateSpaceRecommendationPath::SpaceIntentMatch { matched_terms: matched_terms.copied() }
            },
            CandidateSpaceRecommendationPath::IntentConflict { head_count } => {
                CandidateSpaceRecommendationPath::IntentConflict { head_count: head_count.copied() }
            },
            CandidateSpaceRecommendationPath::ProposedFromCandidate => {
                CandidateSpaceRecommendationPath::ProposedFromCandidate
            },
            CandidateSpaceRecommendationPath::ManualReview => CandidateSpaceRecommendationPath::ManualReview,
        }
    }

    fn same(&self, other: &Self) -> (equal: bool) {
        match (self, other) {
            (
                CandidateSpaceRecommendationPath::CandidateTarget { relation: left_relation, target: left_target },
                CandidateSpaceRecommendationPath::CandidateTarget { relation: right_relation, target: right_target },
            ) => left_relation.same(right_relation) && left_target.same(right_target),
            (
                CandidateSpaceRecommendationPath::SourceTaskAssociation { reason: left_reason },
                CandidateSpaceRecommendationPath::SourceTaskAssociation { reason: right_reason },
            ) => left_reason.same(right_reason),
            (
                CandidateSpaceRecommendationPath::SpaceIntentMatch { matched_terms: left_matched_terms },
                CandidateSpaceRecommendationPath::SpaceIntentMatch { matched_terms: right_matched_terms },
            ) => left_matched_terms.same(right_matched_terms),
            (
                CandidateSpaceRecommendationPath::IntentConflict { head_count: left_head_count },
                CandidateSpaceRecommendationPath::IntentConflict { head_count: right_head_count },
            ) => left_head_count.same(right_head_count),
            (
                CandidateSpaceRecommendationPath::ProposedFromCandidate,
                CandidateSpaceRecommendationPath::ProposedFromCandidate,
            ) => true,
            (CandidateSpaceRecommendationPath::ManualReview, CandidateSpaceRecommendationPath::ManualReview) => true,
            _ => false,
        }
    }
}

impl Json for CandidateSpaceRecommendationPath {
    open spec fn json(model: CandidateSpaceRecommendationPathView) -> Seq<char> {
        match model {
            CandidateSpaceRecommendationPathView::CandidateTarget { relation, target } => {
                let body = with_member(Seq::<char>::empty(), "kind"@, "\"candidate_target\""@);
                let body = with_member(body, "relation"@, <CandidateAssessmentRelation as Json>::json(relation));
                let body = with_member(body, "target"@, <ContextRevisionRef as Json>::json(target));
                object(body)
            },
            CandidateSpaceRecommendationPathView::SourceTaskAssociation { reason } => {
                let body = with_member(Seq::<char>::empty(), "kind"@, "\"source_task_association\""@);
                let body = with_member(body, "reason"@, <String as Json>::json(reason));
                object(body)
            },
            CandidateSpaceRecommendationPathView::SpaceIntentMatch { matched_terms } => {
                let body = with_member(Seq::<char>::empty(), "kind"@, "\"space_intent_match\""@);
                let body = with_member(body, "matched_terms"@, <Vec<String> as Json>::json(matched_terms));
                object(body)
            },
            CandidateSpaceRecommendationPathView::IntentConflict { head_count } => {
                let body = with_member(Seq::<char>::empty(), "kind"@, "\"intent_conflict\""@);
                let body = with_member(body, "head_count"@, <usize as Json>::json(head_count));
                object(body)
            },
            CandidateSpaceRecommendationPathView::ProposedFromCandidate => {
                let body = with_member(Seq::<char>::empty(), "kind"@, "\"proposed_from_candidate\""@);
                object(body)
            },
            CandidateSpaceRecommendationPathView::ManualReview => {
                let body = with_member(Seq::<char>::empty(), "kind"@, "\"manual_review\""@);
                object(body)
            },
        }
    }

    fn write_json(&self, out: &mut String) {
        match self {
            CandidateSpaceRecommendationPath::CandidateTarget { relation, target } => {
                let mut body = String::new();
                push_member_text(&mut body, "kind", "\"candidate_target\"");
                push_member(&mut body, "relation", relation);
                push_member(&mut body, "target", target);
                push_object(out, body.as_str());
            },
            CandidateSpaceRecommendationPath::SourceTaskAssociation { reason } => {
                let mut body = String::new();
                push_member_text(&mut body, "kind", "\"source_task_association\"");
                push_member(&mut body, "reason", reason);
                push_object(out, body.as_str());
            },
            CandidateSpaceRecommendationPath::SpaceIntentMatch { matched_terms } => {
                let mut body = String::new();
                push_member_text(&mut body, "kind", "\"space_intent_match\"");
                push_member(&mut body, "matched_terms", matched_terms);
                push_object(out, body.as_str());
            },
            CandidateSpaceRecommendationPath::IntentConflict { head_count } => {
                let mut body = String::new();
                push_member_text(&mut body, "kind", "\"intent_conflict\"");
                push_member(&mut body, "head_count", head_count);
                push_object(out, body.as_str());
            },
            CandidateSpaceRecommendationPath::ProposedFromCandidate => {
                let mut body = String::new();
                push_member_text(&mut body, "kind", "\"proposed_from_candidate\"");
                push_object(out, body.as_str());
            },
            CandidateSpaceRecommendationPath::ManualReview => {
                let mut body = String::new();
                push_member_text(&mut body, "kind", "\"manual_review\"");
                push_object(out, body.as_str());
            },
        }
    }
}

impl CandidateSpaceRecommendationPathView {
    /// Why a path is invalid, if it is.
    pub open spec fn problem(self, field: Seq<char>) -> Option<ErrorView> {
        match self {
            CandidateSpaceRecommendationPathView::CandidateTarget { relation, .. } => given(
                relation == CandidateAssessmentRelation::Novel,
                invalid(field + ".candidate_target cannot use novel"@),
            ),
            CandidateSpaceRecommendationPathView::SourceTaskAssociation { reason } => text_problem(
                reason,
                field + ".reason"@,
            ),
            CandidateSpaceRecommendationPathView::SpaceIntentMatch { matched_terms } => first(
                given(matched_terms.len() == 0, invalid(field + ".matched_terms must not be empty"@)),
                distinct_texts_problem(matched_terms, field + ".matched_terms"@),
            ),
            CandidateSpaceRecommendationPathView::IntentConflict { head_count } => given(
                head_count < 2,
                invalid(field + ".head_count must be at least two"@),
            ),
            CandidateSpaceRecommendationPathView::ProposedFromCandidate => None,
            CandidateSpaceRecommendationPathView::ManualReview => None,
        }
    }
}

impl CandidateSpaceRecommendationPath {
    fn validate(&self, field: &str) -> (result: Result<()>)
        ensures
            fails_as(result, self.deep_view().problem(field@)),
    {
        match self {
            CandidateSpaceRecommendationPath::CandidateTarget { relation, .. } => {
                if *relation == CandidateAssessmentRelation::Novel {
                    let message = joined2(field, ".candidate_target cannot use novel");
                    return Err(invalid_input(message.as_str()));
                }
                Ok(())
            },
            CandidateSpaceRecommendationPath::SourceTaskAssociation { reason } => require_named_text(
                reason.as_str(),
                field,
                ".reason",
            ),
            CandidateSpaceRecommendationPath::SpaceIntentMatch { matched_terms } => {
                if matched_terms.len() == 0 {
                    let message = joined2(field, ".matched_terms must not be empty");
                    return Err(invalid_input(message.as_str()));
                }
                require_named_texts(matched_terms, field, ".matched_terms")
            },
            CandidateSpaceRecommendationPath::IntentConflict { head_count } => {
                if *head_count < 2 {
                    let message = joined2(field, ".head_count must be at least two");
                    return Err(invalid_input(message.as_str()));
                }
                Ok(())
            },
            CandidateSpaceRecommendationPath::ProposedFromCandidate => Ok(()),
            CandidateSpaceRecommendationPath::ManualReview => Ok(()),
        }
    }
}

/// Candidate Space recommendation; it never establishes ownership.
#[derive(Clone, Debug, PartialEq, Eq)]
pub enum CandidateSpaceRecommendation {
    Existing {
        space_id: SpaceId,
        role: RecommendedSpaceRole,
        rationale: String,
        confidence: CandidateConfidence,
        paths: Vec<CandidateSpaceRecommendationPath>,
    },
    ProposedNewSpaceIntent {
        proposed_new_space_intent: IntentSnapshot,
        rationale: String,
        confidence: CandidateConfidence,
        paths: Vec<CandidateSpaceRecommendationPath>,
    },
}

/// The model of [`CandidateSpaceRecommendation`].
pub enum CandidateSpaceRecommendationView {
    Existing {
        space_id: SpaceId,
        role: RecommendedSpaceRole,
        rationale: Seq<char>,
        confidence: CandidateConfidenceView,
        paths: Seq<CandidateSpaceRecommendationPathView>,
    },
    ProposedNewSpaceIntent {
        proposed_new_space_intent: IntentSnapshotView,
        rationale: Seq<char>,
        confidence: CandidateConfidenceView,
        paths: Seq<CandidateSpaceRecommendationPathView>,
    },
}

impl DeepView for CandidateSpaceRecommendation {
    type V = CandidateSpaceRecommendationView;

    open spec fn deep_view(&self) -> CandidateSpaceRecommendationView {
        match self {
            CandidateSpaceRecommendation::Existing {
                space_id,
                role,
                rationale,
                confidence,
                paths,
            } => CandidateSpaceRecommendationView::Existing {
                space_id: space_id.deep_view(),
                role: role.deep_view(),
                rationale: rationale.deep_view(),
                confidence: confidence.deep_view(),
                paths: paths.deep_view(),
            },
            CandidateSpaceRecommendation::ProposedNewSpaceIntent {
                proposed_new_space_intent,
                rationale,
                confidence,
                paths,
            } => CandidateSpaceRecommendationView::ProposedNewSpaceIntent {
                proposed_new_space_intent: proposed_new_space_intent.deep_view(),
                rationale: rationale.deep_view(),
                confidence: confidence.deep_view(),
                paths: paths.deep_view(),
            },
        }
    }
}

impl Value for CandidateSpaceRecommendation {
    fn copied(&self) -> (copy: Self) {
        match self {
            CandidateSpaceRecommendation::Existing {
                space_id,
                role,
                rationale,
                confidence,
                paths,
            } => CandidateSpaceRecommendation::Existing {
                space_id: space_id.copied(),
                role: role.copied(),
                rationale: rationale.copied(),
                confidence: confidence.copied(),
                paths: paths.copied(),
            },
            CandidateSpaceRecommendation::ProposedNewSpaceIntent {
                proposed_new_space_intent,
                rationale,
                confidence,
                paths,
            } => CandidateSpaceRecommendation::ProposedNewSpaceIntent {
                proposed_new_space_intent: proposed_new_space_intent.copied(),
                rationale: rationale.copied(),
                confidence: confidence.copied(),
                paths: paths.copied(),
            },
        }
    }

    fn same(&self, other: &Self) -> (equal: bool) {
        match (self, other) {
            (
                CandidateSpaceRecommendation::Existing {
                    space_id: left_space_id,
                    role: left_role,
                    rationale: left_rationale,
                    confidence: left_confidence,
                    paths: left_paths,
                },
                CandidateSpaceRecommendation::Existing {
                    space_id: right_space_id,
                    role: right_role,
                    rationale: right_rationale,
                    confidence: right_confidence,
                    paths: right_paths,
                },
            ) => left_space_id.same(right_space_id)
                && left_role.same(right_role)
                && left_rationale.same(right_rationale)
                && left_confidence.same(right_confidence)
                && left_paths.same(right_paths),
            (
                CandidateSpaceRecommendation::ProposedNewSpaceIntent {
                    proposed_new_space_intent: left_proposed_new_space_intent,
                    rationale: left_rationale,
                    confidence: left_confidence,
                    paths: left_paths,
                },
                CandidateSpaceRecommendation::ProposedNewSpaceIntent {
                    proposed_new_space_intent: right_proposed_new_space_intent,
                    rationale: right_rationale,
                    confidence: right_confidence,
                    paths: right_paths,
                },
            ) => left_proposed_new_space_intent.same(right_proposed_new_space_intent)
                && left_rationale.same(right_rationale)
                && left_confidence.same(right_confidence)
                && left_paths.same(right_paths),
            _ => false,
        }
    }
}

impl Json for CandidateSpaceRecommendation {
    open spec fn json(model: CandidateSpaceRecommendationView) -> Seq<char> {
        match model {
            CandidateSpaceRecommendationView::Existing { space_id, role, rationale, confidence, paths } => {
                let body = with_member(Seq::<char>::empty(), "kind"@, "\"existing\""@);
                let body = with_member(body, "space_id"@, <SpaceId as Json>::json(space_id));
                let body = with_member(body, "role"@, <RecommendedSpaceRole as Json>::json(role));
                let body = with_member(body, "rationale"@, <String as Json>::json(rationale));
                let body = with_member(body, "confidence"@, <CandidateConfidence as Json>::json(confidence));
                let body = with_member(body, "paths"@, <Vec<CandidateSpaceRecommendationPath> as Json>::json(paths));
                object(body)
            },
            CandidateSpaceRecommendationView::ProposedNewSpaceIntent {
                proposed_new_space_intent,
                rationale,
                confidence,
                paths,
            } => {
                let body = with_member(Seq::<char>::empty(), "kind"@, "\"proposed_new_space_intent\""@);
                let body = with_member(
                    body,
                    "proposed_new_space_intent"@,
                    <IntentSnapshot as Json>::json(proposed_new_space_intent),
                );
                let body = with_member(body, "rationale"@, <String as Json>::json(rationale));
                let body = with_member(body, "confidence"@, <CandidateConfidence as Json>::json(confidence));
                let body = with_member(body, "paths"@, <Vec<CandidateSpaceRecommendationPath> as Json>::json(paths));
                object(body)
            },
        }
    }

    fn write_json(&self, out: &mut String) {
        match self {
            CandidateSpaceRecommendation::Existing { space_id, role, rationale, confidence, paths } => {
                let mut body = String::new();
                push_member_text(&mut body, "kind", "\"existing\"");
                push_member(&mut body, "space_id", space_id);
                push_member(&mut body, "role", role);
                push_member(&mut body, "rationale", rationale);
                push_member(&mut body, "confidence", confidence);
                push_member(&mut body, "paths", paths);
                push_object(out, body.as_str());
            },
            CandidateSpaceRecommendation::ProposedNewSpaceIntent {
                proposed_new_space_intent,
                rationale,
                confidence,
                paths,
            } => {
                let mut body = String::new();
                push_member_text(&mut body, "kind", "\"proposed_new_space_intent\"");
                push_member(&mut body, "proposed_new_space_intent", proposed_new_space_intent);
                push_member(&mut body, "rationale", rationale);
                push_member(&mut body, "confidence", confidence);
                push_member(&mut body, "paths", paths);
                push_object(out, body.as_str());
            },
        }
    }
}

/// The check of each path of a recommendation.
pub open spec fn recommendation_path_problem(
    paths: Seq<CandidateSpaceRecommendationPathView>,
    field: Seq<char>,
) -> spec_fn(int) -> Option<ErrorView> {
    |i: int| paths[i].problem(entry(field + ".paths"@, i as nat))
}

/// Why the paths of a recommendation are invalid, if they are.
pub open spec fn recommendation_paths_problem(
    paths: Seq<CandidateSpaceRecommendationPathView>,
    field: Seq<char>,
) -> Option<ErrorView> {
    first(
        given(paths.len() == 0, invalid(field + ".paths must not be empty"@)),
        first(
            unique_problem(paths, field + ".paths"@),
            first_from(recommendation_path_problem(paths, field), 0, paths.len()),
        ),
    )
}

fn validate_recommendation_paths(paths: &Vec<CandidateSpaceRecommendationPath>, field: &str) -> (result: Result<()>)
    ensures
        fails_as(result, recommendation_paths_problem(paths.deep_view(), field@)),
{
    if paths.len() == 0 {
        let message = joined2(field, ".paths must not be empty");
        return Err(invalid_input(message.as_str()));
    }
    let list = joined2(field, ".paths");
    require_unique(paths, list.as_str())?;
    let ghost model = paths.deep_view();
    let ghost problem = recommendation_path_problem(model, field@);
    let mut index: usize = 0;
    while index < paths.len()
        invariant
            index <= paths@.len(),
            paths@.len() > 0,
            model == paths.deep_view(),
            list@ == field@ + ".paths"@,
            unique_problem(model, field@ + ".paths"@) is None,
            problem == recommendation_path_problem(model, field@),
            first_from(problem, 0, model.len()) == first_from(problem, index as nat, model.len()),
        decreases paths@.len() - index,
    {
        assert(paths@[index as int].deep_view() == model[index as int]);
        let name = entry_name(list.as_str(), index);
        paths[index].validate(name.as_str())?;
        index = index + 1;
    }
    Ok(())
}

impl CandidateSpaceRecommendationView {
    /// Why a recommendation is invalid, if it is.
    pub open spec fn problem(self, field: Seq<char>) -> Option<ErrorView> {
        match self {
            CandidateSpaceRecommendationView::Existing { rationale, confidence, paths, .. } => first(
                text_problem(rationale, field + ".rationale"@),
                first(confidence.problem(field + ".confidence"@), recommendation_paths_problem(paths, field)),
            ),
            CandidateSpaceRecommendationView::ProposedNewSpaceIntent {
                proposed_new_space_intent,
                rationale,
                confidence,
                paths,
            } => first(
                proposed_new_space_intent.invalidity(),
                first(
                    text_problem(rationale, field + ".rationale"@),
                    first(confidence.problem(field + ".confidence"@), recommendation_paths_problem(paths, field)),
                ),
            ),
        }
    }

    /// Whether this recommends an existing Space as Primary.
    pub open spec fn is_primary(self) -> bool {
        self matches CandidateSpaceRecommendationView::Existing { role, .. } && role == RecommendedSpaceRole::Primary
    }
}

impl CandidateSpaceRecommendation {
    /// Recommends an existing Space without selecting it.
    pub fn existing(
        space_id: SpaceId,
        role: RecommendedSpaceRole,
        rationale: &str,
        confidence: CandidateConfidence,
    ) -> (recommendation: Self)
        ensures
            recommendation.deep_view() == (CandidateSpaceRecommendationView::Existing {
                space_id,
                role,
                rationale: rationale@,
                confidence: confidence.deep_view(),
                paths: seq![CandidateSpaceRecommendationPathView::ManualReview],
            }),
    {
        let mut paths: Vec<CandidateSpaceRecommendationPath> = Vec::new();
        push_value(&mut paths, CandidateSpaceRecommendationPath::ManualReview);
        assert(paths.deep_view() =~= seq![CandidateSpaceRecommendationPathView::ManualReview]);
        CandidateSpaceRecommendation::Existing { space_id, role, rationale: rationale.to_owned(), confidence, paths }
    }

    /// Recommends a proposed new Space Intent without creating a Space.
    pub fn proposed_new(
        intent: IntentSnapshot,
        rationale: &str,
        confidence: CandidateConfidence,
    ) -> (recommendation: Self)
        ensures
            recommendation.deep_view() == (CandidateSpaceRecommendationView::ProposedNewSpaceIntent {
                proposed_new_space_intent: intent.deep_view(),
                rationale: rationale@,
                confidence: confidence.deep_view(),
                paths: seq![CandidateSpaceRecommendationPathView::ProposedFromCandidate],
            }),
    {
        let mut paths: Vec<CandidateSpaceRecommendationPath> = Vec::new();
        push_value(&mut paths, CandidateSpaceRecommendationPath::ProposedFromCandidate);
        assert(paths.deep_view() =~= seq![CandidateSpaceRecommendationPathView::ProposedFromCandidate]);
        CandidateSpaceRecommendation::ProposedNewSpaceIntent {
            proposed_new_space_intent: intent,
            rationale: rationale.to_owned(),
            confidence,
            paths,
        }
    }

    /// Recommends an existing Space with explicit derived paths.
    pub fn existing_with_paths(
        space_id: SpaceId,
        role: RecommendedSpaceRole,
        rationale: &str,
        confidence: CandidateConfidence,
        paths: Vec<CandidateSpaceRecommendationPath>,
    ) -> (recommendation: Self)
        ensures
            recommendation.deep_view() == (CandidateSpaceRecommendationView::Existing {
                space_id,
                role,
                rationale: rationale@,
                confidence: confidence.deep_view(),
                paths: paths.deep_view(),
            }),
    {
        CandidateSpaceRecommendation::Existing { space_id, role, rationale: rationale.to_owned(), confidence, paths }
    }

    /// Recommends a complete proposed Space Intent with explicit derived paths.
    pub fn proposed_new_with_paths(
        intent: IntentSnapshot,
        rationale: &str,
        confidence: CandidateConfidence,
        paths: Vec<CandidateSpaceRecommendationPath>,
    ) -> (recommendation: Self)
        ensures
            recommendation.deep_view() == (CandidateSpaceRecommendationView::ProposedNewSpaceIntent {
                proposed_new_space_intent: intent.deep_view(),
                rationale: rationale@,
                confidence: confidence.deep_view(),
                paths: paths.deep_view(),
            }),
    {
        CandidateSpaceRecommendation::ProposedNewSpaceIntent {
            proposed_new_space_intent: intent,
            rationale: rationale.to_owned(),
            confidence,
            paths,
        }
    }

    fn validate(&self, field: &str) -> (result: Result<()>)
        ensures
            fails_as(result, self.deep_view().problem(field@)),
    {
        let name = joined2(field, ".confidence");
        match self {
            CandidateSpaceRecommendation::Existing { rationale, confidence, paths, .. } => {
                require_named_text(rationale.as_str(), field, ".rationale")?;
                confidence.validate(name.as_str())?;
                validate_recommendation_paths(paths, field)
            },
            CandidateSpaceRecommendation::ProposedNewSpaceIntent {
                proposed_new_space_intent,
                rationale,
                confidence,
                paths,
            } => {
                proposed_new_space_intent.validate()?;
                require_named_text(rationale.as_str(), field, ".rationale")?;
                confidence.validate(name.as_str())?;
                validate_recommendation_paths(paths, field)
            },
        }
    }
}

/// Whether the recommendation at a position names an existing Space that was named before.
pub open spec fn repeats_space(values: Seq<CandidateSpaceRecommendationView>, at: int) -> bool {
    values[at] is Existing && exists|k: int|
        0 <= k < at && (#[trigger] values[k]) is Existing && values[k]->Existing_space_id
            == values[at]->Existing_space_id
}

/// The check of each recommendation, given those before it.
pub open spec fn recommendation_problem(
    values: Seq<CandidateSpaceRecommendationView>,
) -> spec_fn(int) -> Option<ErrorView> {
    |i: int|
        first(
            values[i].problem(entry("space_recommendations"@, i as nat)),
            given(repeats_space(values, i), invalid("space_recommendations must not repeat an existing Space"@)),
        )
}

/// The number of Primary recommendations among the first `count`.
pub open spec fn primary_count(values: Seq<CandidateSpaceRecommendationView>, count: int) -> nat
    decreases count,
{
    if count <= 0 {
        0
    } else {
        primary_count(values, count - 1) + (if values[count - 1].is_primary() {
            1nat
        } else {
            0nat
        })
    }
}

/// The number of proposed new Spaces among the first `count` recommendations.
pub open spec fn proposed_count(values: Seq<CandidateSpaceRecommendationView>, count: int) -> nat
    decreases count,
{
    if count <= 0 {
        0
    } else {
        proposed_count(values, count - 1) + (if values[count - 1] is ProposedNewSpaceIntent {
            1nat
        } else {
            0nat
        })
    }
}

/// Why recommendations are invalid, if they are.
pub open spec fn recommendations_problem(values: Seq<CandidateSpaceRecommendationView>) -> Option<ErrorView> {
    first(
        first_from(recommendation_problem(values), 0, values.len()),
        given(
            primary_count(values, values.len() as int) > 1 || proposed_count(values, values.len() as int) > 1,
            invalid("space_recommendations allow at most one Primary and one proposed new Space"@),
        ),
    )
}

fn space_repeats(values: &Vec<CandidateSpaceRecommendation>, at: usize) -> (repeats: bool)
    requires
        at < values@.len(),
    ensures
        repeats == repeats_space(values.deep_view(), at as int),
{
    let ghost model = values.deep_view();
    assert(values@[at as int].deep_view() == model[at as int]);
    if let CandidateSpaceRecommendation::Existing { space_id, .. } = &values[at] {
        let mut index: usize = 0;
        while index < at
            invariant
                index <= at < values@.len(),
                model == values.deep_view(),
                model[at as int] is Existing,
                *space_id == model[at as int]->Existing_space_id,
                forall|k: int|
                    0 <= k < index ==> !((#[trigger] model[k]) is Existing && model[k]->Existing_space_id
                        == model[at as int]->Existing_space_id),
            decreases at - index,
        {
            assert(values@[index as int].deep_view() == model[index as int]);
            if let CandidateSpaceRecommendation::Existing { space_id: earlier, .. } = &values[index] {
                if *earlier == *space_id {
                    return true;
                }
            }
            index = index + 1;
        }
    }
    false
}

fn validate_recommendations(values: &Vec<CandidateSpaceRecommendation>) -> (result: Result<()>)
    ensures
        fails_as(result, recommendations_problem(values.deep_view())),
{
    let ghost model = values.deep_view();
    let ghost problem = recommendation_problem(model);
    let mut primaries: usize = 0;
    let mut proposals: usize = 0;
    let mut index: usize = 0;
    while index < values.len()
        invariant
            index <= values@.len(),
            model == values.deep_view(),
            problem == recommendation_problem(model),
            primaries == primary_count(model, index as int),
            proposals == proposed_count(model, index as int),
            primaries <= index,
            proposals <= index,
            first_from(problem, 0, model.len()) == first_from(problem, index as nat, model.len()),
        decreases values@.len() - index,
    {
        let recommendation = &values[index];
        assert(recommendation.deep_view() == model[index as int]);
        let name = entry_name("space_recommendations", index);
        recommendation.validate(name.as_str())?;
        if space_repeats(values, index) {
            return Err(invalid_input("space_recommendations must not repeat an existing Space"));
        }
        match recommendation {
            CandidateSpaceRecommendation::Existing { role, .. } => {
                if *role == RecommendedSpaceRole::Primary {
                    primaries = primaries + 1;
                }
            },
            CandidateSpaceRecommendation::ProposedNewSpaceIntent { .. } => {
                proposals = proposals + 1;
            },
        }
        index = index + 1;
    }
    if primaries > 1 || proposals > 1 {
        return Err(invalid_input("space_recommendations allow at most one Primary and one proposed new Space"));
    }
    Ok(())
}

/// Current readiness of an automatic Candidate draft.
#[derive(Clone, Copy, Debug, PartialEq, Eq, Structural)]
pub enum AutomaticCandidateStatus {
    Draft,
    NeedsEvidence,
    NeedsSpaceReview,
    ExactDuplicateReview,
    PotentialContradictionReview,
    ReadyForReview,
}

impl DeepView for AutomaticCandidateStatus {
    type V = AutomaticCandidateStatus;

    open spec fn deep_view(&self) -> AutomaticCandidateStatus {
        *self
    }
}

impl Value for AutomaticCandidateStatus {
    fn copied(&self) -> (copy: Self) {
        *self
    }

    fn same(&self, other: &Self) -> (equal: bool) {
        *self == *other
    }
}

impl Json for AutomaticCandidateStatus {
    open spec fn json(model: AutomaticCandidateStatus) -> Seq<char> {
        match model {
            AutomaticCandidateStatus::Draft => "\"draft\""@,
            AutomaticCandidateStatus::NeedsEvidence => "\"needs_evidence\""@,
            AutomaticCandidateStatus::NeedsSpaceReview => "\"needs_space_review\""@,
            AutomaticCandidateStatus::ExactDuplicateReview => "\"exact_duplicate_review\""@,
            AutomaticCandidateStatus::PotentialContradictionReview => "\"potential_contradiction_review\""@,
            AutomaticCandidateStatus::ReadyForReview => "\"ready_for_review\""@,
        }
    }

    fn write_json(&self, out: &mut String) {
        match self {
            AutomaticCandidateStatus::Draft => out.append("\"draft\""),
            AutomaticCandidateStatus::NeedsEvidence => out.append("\"needs_evidence\""),
            AutomaticCandidateStatus::NeedsSpaceReview => out.append("\"needs_space_review\""),
            AutomaticCandidateStatus::ExactDuplicateReview => out.append("\"exact_duplicate_review\""),
            AutomaticCandidateStatus::PotentialContradictionReview => {
                out.append("\"potential_contradiction_review\"")
            },
            AutomaticCandidateStatus::ReadyForReview => out.append("\"ready_for_review\""),
        }
    }
}

/// Builder-produced unowned Candidate with verifiable Episode provenance.
#[derive(Clone, Debug, PartialEq, Eq)]
pub struct AutomaticContextCandidate {
    pub candidate_id: CandidateId,
    pub source_episode: WorkEpisodeRef,
    pub content: ContextRevisionDraft,
    pub builder_provenance: CandidateBuilderProvenance,
    pub analysis: CandidateAnalysis,
    pub space_recommendations: Vec<CandidateSpaceRecommendation>,
    pub confidence: CandidateConfidence,
    pub unknowns: Vec<CaptureUnknown>,
    pub status: AutomaticCandidateStatus,
}

/// The model of [`AutomaticContextCandidate`].
pub struct AutomaticContextCandidateView {
    pub candidate_id: CandidateId,
    pub source_episode: WorkEpisodeRef,
    pub content: ContextRevisionDraftView,
    pub builder_provenance: CandidateBuilderProvenanceView,
    pub analysis: CandidateAnalysisView,
    pub space_recommendations: Seq<CandidateSpaceRecommendationView>,
    pub confidence: CandidateConfidenceView,
    pub unknowns: Seq<CaptureUnknownView>,
    pub status: AutomaticCandidateStatus,
}

impl DeepView for AutomaticContextCandidate {
    type V = AutomaticContextCandidateView;

    open spec fn deep_view(&self) -> AutomaticContextCandidateView {
        AutomaticContextCandidateView {
            candidate_id: self.candidate_id.deep_view(),
            source_episode: self.source_episode.deep_view(),
            content: self.content.deep_view(),
            builder_provenance: self.builder_provenance.deep_view(),
            analysis: self.analysis.deep_view(),
            space_recommendations: self.space_recommendations.deep_view(),
            confidence: self.confidence.deep_view(),
            unknowns: self.unknowns.deep_view(),
            status: self.status.deep_view(),
        }
    }
}

impl Value for AutomaticContextCandidate {
    fn copied(&self) -> (copy: Self) {
        AutomaticContextCandidate {
            candidate_id: self.candidate_id.copied(),
            source_episode: self.source_episode.copied(),
            content: self.content.copied(),
            builder_provenance: self.builder_provenance.copied(),
            analysis: self.analysis.copied(),
            space_recommendations: self.space_recommendations.copied(),
            confidence: self.confidence.copied(),
            unknowns: self.unknowns.copied(),
            status: self.status.copied(),
        }
    }

    fn same(&self, other: &Self) -> (equal: bool) {
        self.candidate_id.same(&other.candidate_id)
            && self.source_episode.same(&other.source_episode)
            && self.content.same(&other.content)
            && self.builder_provenance.same(&other.builder_provenance)
            && self.analysis.same(&other.analysis)
            && self.space_recommendations.same(&other.space_recommendations)
            && self.confidence.same(&other.confidence)
            && self.unknowns.same(&other.unknowns)
            && self.status.same(&other.status)
    }
}

impl AutomaticContextCandidateView {
    /// The JSON members, behind those of `body`.
    pub open spec fn json_members(self, body: Seq<char>) -> Seq<char> {
        let body = with_member(body, "candidate_id"@, <CandidateId as Json>::json(self.candidate_id));
        let body = with_member(body, "source_episode"@, <WorkEpisodeRef as Json>::json(self.source_episode));
        let body = with_member(body, "content"@, <ContextRevisionDraft as Json>::json(self.content));
        let body = with_member(
            body,
            "builder_provenance"@,
            <CandidateBuilderProvenance as Json>::json(self.builder_provenance),
        );
        let body = with_member(body, "analysis"@, <CandidateAnalysis as Json>::json(self.analysis));
        let body = with_member(
            body,
            "space_recommendations"@,
            <Vec<CandidateSpaceRecommendation> as Json>::json(self.space_recommendations),
        );
        let body = with_member(body, "confidence"@, <CandidateConfidence as Json>::json(self.confidence));
        let body = with_member(body, "unknowns"@, <Vec<CaptureUnknown> as Json>::json(self.unknowns));
        let body = with_member(body, "status"@, <AutomaticCandidateStatus as Json>::json(self.status));
        body
    }
}

impl AutomaticContextCandidate {
    fn push_members(&self, text: &mut String)
        ensures
            final(text)@ == self.deep_view().json_members(old(text)@),
    {
        push_member(text, "candidate_id", &self.candidate_id);
        push_member(text, "source_episode", &self.source_episode);
        push_member(text, "content", &self.content);
        push_member(text, "builder_provenance", &self.builder_provenance);
        push_member(text, "analysis", &self.analysis);
        push_member(text, "space_recommendations", &self.space_recommendations);
        push_member(text, "confidence", &self.confidence);
        push_member(text, "unknowns", &self.unknowns);
        push_member(text, "status", &self.status);
    }
}

impl Json for AutomaticContextCandidate {
    open spec fn json(model: AutomaticContextCandidateView) -> Seq<char> {
        object(model.json_members(Seq::<char>::empty()))
    }

    fn write_json(&self, out: &mut String) {
        let mut body = String::new();
        self.push_members(&mut body);
        push_object(out, body.as_str());
    }
}

/// The identities of checkpoints.
pub open spec fn checkpoint_ids(checkpoints: Seq<AgentCheckpointView>) -> Seq<AgentCheckpointId> {
    Seq::new(checkpoints.len(), |i: int| checkpoints[i].checkpoint_id)
}

/// The first checkpoint with an identity, from a position on.
pub open spec fn checkpoint_named(
    checkpoints: Seq<AgentCheckpointView>,
    id: AgentCheckpointId,
    from: int,
) -> Option<AgentCheckpointView>
    decreases checkpoints.len() - from,
{
    if from < 0 || from >= checkpoints.len() {
        None
    } else if checkpoints[from].checkpoint_id == id {
        Some(checkpoints[from])
    } else {
        checkpoint_named(checkpoints, id, from + 1)
    }
}

impl AutomaticContextCandidateView {
    /// The check of each source checkpoint.
    pub open spec fn source_checkpoint_problem(
        self,
        episode: WorkEpisodeView,
        checkpoints: Seq<AgentCheckpointView>,
    ) -> spec_fn(int) -> Option<ErrorView> {
        |i: int|
            match checkpoint_named(checkpoints, self.builder_provenance.checkpoint_ids[i], 0) {
                Some(checkpoint) => checkpoint.problem(episode),
                None => invalid("Candidate Builder provenance Checkpoint does not exist"@),
            }
    }

    /// Whether the provenance names an observation from outside the Episode.
    pub open spec fn has_foreign_observation(self, episode: WorkEpisodeView) -> bool {
        exists|i: int|
            0 <= i < self.builder_provenance.observation_ids.len() && !observation_ids(episode.observations).contains(
                #[trigger] self.builder_provenance.observation_ids[i],
            )
    }

    /// Whether an unknown blocks the Candidate.
    pub open spec fn is_blocked(self) -> bool {
        exists|i: int| 0 <= i < self.unknowns.len() && (#[trigger] self.unknowns[i]).blocking
    }

    /// Why the ownership of a Candidate cannot be verified, if it cannot.
    pub open spec fn ownership_problem(self, episode: WorkEpisodeView) -> Option<ErrorView> {
        first(
            episode.problem(),
            first(
                given(
                    !(episode.status is Closed),
                    invalid("automatic Context Candidate requires a closed Work Episode"@),
                ),
                first(
                    given(
                        self.source_episode != episode.ownership() || self.builder_provenance.source_episode
                            != episode.ownership(),
                        invalid("automatic Context Candidate source Episode ownership does not match"@),
                    ),
                    first(
                        provenance_problem(
                            self.builder_provenance.checkpoint_ids,
                            self.builder_provenance.observation_ids,
                        ),
                        given(
                            !self.builder_provenance.checkpoint_ids.contains(
                                episode.status->Closed_final_checkpoint_id,
                            ),
                            invalid("Candidate Builder provenance must include the Episode final Checkpoint"@),
                        ),
                    ),
                ),
            ),
        )
    }

    /// Why the content of a Candidate is invalid, if it is.
    pub open spec fn content_problem(self) -> Option<ErrorView> {
        first(
            self.content.invalidity(),
            first(
                self.analysis.problem(),
                first(
                    recommendations_problem(self.space_recommendations),
                    first(
                        self.confidence.problem("candidate.confidence"@),
                        first(
                            unique_problem(self.unknowns, "candidate.unknowns"@),
                            first_from(unknown_problem(self.unknowns, "candidate.unknown"@), 0, self.unknowns.len()),
                        ),
                    ),
                ),
            ),
        )
    }

    /// Why a Candidate is not ready although it says so, if that is the case.
    pub open spec fn readiness_problem(self) -> Option<ErrorView> {
        if self.status == AutomaticCandidateStatus::ReadyForReview {
            first(
                given(self.is_blocked(), invalid("ReadyForReview Candidate cannot contain blocking unknowns"@)),
                given(
                    self.confidence.basis_points == 0,
                    invalid("ReadyForReview Candidate requires non-zero confidence"@),
                ),
            )
        } else {
            None
        }
    }

    /// Why a Candidate cannot be verified against its sources, if it cannot.
    pub open spec fn problem(
        self,
        episode: WorkEpisodeView,
        checkpoints: Seq<AgentCheckpointView>,
    ) -> Option<ErrorView> {
        first(
            self.ownership_problem(episode),
            first(
                self.content_problem(),
                first(
                    given(
                        !checkpoint_ids(checkpoints).no_duplicates(),
                        invalid("Candidate source Checkpoints must not repeat IDs"@),
                    ),
                    first(
                        first_from(
                            self.source_checkpoint_problem(episode, checkpoints),
                            0,
                            self.builder_provenance.checkpoint_ids.len(),
                        ),
                        first(
                            given(
                                self.has_foreign_observation(episode),
                                invalid(
                                    "Candidate Builder provenance Observation does not belong to source Episode"@,
                                ),
                            ),
                            self.readiness_problem(),
                        ),
                    ),
                ),
            ),
        )
    }
}

fn checkpoint_ids_of(checkpoints: &Vec<AgentCheckpoint>) -> (ids: Vec<AgentCheckpointId>)
    ensures
        ids.deep_view() == checkpoint_ids(checkpoints.deep_view()),
{
    let ghost model = checkpoints.deep_view();
    let mut ids: Vec<AgentCheckpointId> = Vec::new();
    let mut index: usize = 0;
    while index < checkpoints.len()
        invariant
            index <= checkpoints@.len(),
            model == checkpoints.deep_view(),
            ids.deep_view() == checkpoint_ids(model).take(index as int),
        decreases checkpoints@.len() - index,
    {
        assert(checkpoints@[index as int].deep_view() == model[index as int]);
        push_value(&mut ids, checkpoints[index].checkpoint_id);
        proof {
            take_next(checkpoint_ids(model), index as int);
        }
        index = index + 1;
    }
    proof {
        take_all(checkpoint_ids(model));
    }
    ids
}

fn find_checkpoint(checkpoints: &Vec<AgentCheckpoint>, id: AgentCheckpointId) -> (found: Option<&AgentCheckpoint>)
    ensures
        match found {
            Some(checkpoint) => checkpoint_named(checkpoints.deep_view(), id, 0) == Some(checkpoint.deep_view()),
            None => checkpoint_named(checkpoints.deep_view(), id, 0) is None,
        },
{
    let ghost model = checkpoints.deep_view();
    let mut index: usize = 0;
    while index < checkpoints.len()
        invariant
            index <= checkpoints@.len(),
            model == checkpoints.deep_view(),
            checkpoint_named(model, id, 0) == checkpoint_named(model, id, index as int),
        decreases checkpoints@.len() - index,
    {
        assert(checkpoints@[index as int].deep_view() == model[index as int]);
        if checkpoints[index].checkpoint_id == id {
            return Some(&checkpoints[index]);
        }
        index = index + 1;
    }
    None
}

impl AutomaticContextCandidate {
    /// Creates a Builder Candidate with no selected Space.
    pub fn from_builder(
        episode: &WorkEpisode,
        checkpoints: &Vec<AgentCheckpoint>,
        content: ContextRevisionDraft,
        builder_provenance: CandidateBuilderProvenance,
        analysis: CandidateAnalysis,
        space_recommendations: Vec<CandidateSpaceRecommendation>,
        confidence: CandidateConfidence,
        unknowns: Vec<CaptureUnknown>,
        status: AutomaticCandidateStatus,
    ) -> (result: Result<Self>)
        ensures
            forall|id: CandidateId|
                fails_as(
                    result,
                    (#[trigger] automatic_candidate(
                        id,
                        episode.deep_view().ownership(),
                        content.deep_view(),
                        builder_provenance.deep_view(),
                        analysis.deep_view(),
                        space_recommendations.deep_view(),
                        confidence.deep_view(),
                        unknowns.deep_view(),
                        status,
                    )).problem(episode.deep_view(), checkpoints.deep_view()),
                ),
            result is Ok ==> result->Ok_0.candidate_id.canonical() && result->Ok_0.deep_view() == automatic_candidate(
                result->Ok_0.candidate_id,
                episode.deep_view().ownership(),
                content.deep_view(),
                builder_provenance.deep_view(),
                analysis.deep_view(),
                space_recommendations.deep_view(),
                confidence.deep_view(),
                unknowns.deep_view(),
                status,
            ),
    {
        let candidate = AutomaticContextCandidate {
            candidate_id: CandidateId::new(),
            source_episode: episode.ownership(),
            content,
            builder_provenance,
            analysis,
            space_recommendations,
            confidence,
            unknowns,
            status,
        };
        proof {
            assert forall|id: CandidateId| (#[trigger] automatic_candidate(
                id,
                episode.deep_view().ownership(),
                content.deep_view(),
                builder_provenance.deep_view(),
                analysis.deep_view(),
                space_recommendations.deep_view(),
                confidence.deep_view(),
                unknowns.deep_view(),
                status,
            )).problem(episode.deep_view(), checkpoints.deep_view()) == candidate.deep_view().problem(
                episode.deep_view(),
                checkpoints.deep_view(),
            ) by {
                let other = automatic_candidate(
                    id,
                    episode.deep_view().ownership(),
                    content.deep_view(),
                    builder_provenance.deep_view(),
                    analysis.deep_view(),
                    space_recommendations.deep_view(),
                    confidence.deep_view(),
                    unknowns.deep_view(),
                    status,
                );
                let this = candidate.deep_view();
                assert(other.source_checkpoint_problem(episode.deep_view(), checkpoints.deep_view())
                    =~= this.source_checkpoint_problem(episode.deep_view(), checkpoints.deep_view()));
                assert(other.has_foreign_observation(episode.deep_view()) == this.has_foreign_observation(
                    episode.deep_view(),
                ));
                assert(other.is_blocked() == this.is_blocked());
            }
        }
        candidate.validate_against_sources(episode, checkpoints)?;
        Ok(candidate)
    }

    /// Restores the automatic Candidate view around the exact Candidate identity returned by the
    /// persisted submission boundary.
    pub fn from_persisted_candidate(
        persisted: &ContextCandidate,
        episode: &WorkEpisode,
        checkpoints: &Vec<AgentCheckpoint>,
        builder_provenance: CandidateBuilderProvenance,
        analysis: CandidateAnalysis,
        space_recommendations: Vec<CandidateSpaceRecommendation>,
        confidence: CandidateConfidence,
        unknowns: Vec<CaptureUnknown>,
        status: AutomaticCandidateStatus,
    ) -> (result: Result<Self>)
        ensures
            ({
                let candidate = automatic_candidate(
                    persisted.candidate_id,
                    persisted.source_episode,
                    persisted.deep_view().content,
                    builder_provenance.deep_view(),
                    analysis.deep_view(),
                    space_recommendations.deep_view(),
                    confidence.deep_view(),
                    unknowns.deep_view(),
                    status,
                );
                &&& fails_as(
                    result,
                    first(
                        given(
                            persisted.source_episode != episode.deep_view().ownership(),
                            invalid("persisted Candidate source Episode ownership does not match"@),
                        ),
                        candidate.problem(episode.deep_view(), checkpoints.deep_view()),
                    ),
                )
                &&& result is Ok ==> result->Ok_0.deep_view() == candidate
            }),
    {
        let candidate = AutomaticContextCandidate {
            candidate_id: persisted.candidate_id,
            source_episode: persisted.source_episode,
            content: persisted.content.copied(),
            builder_provenance,
            analysis,
            space_recommendations,
            confidence,
            unknowns,
            status,
        };
        if persisted.source_episode != episode.ownership() {
            return Err(invalid_input("persisted Candidate source Episode ownership does not match"));
        }
        candidate.validate_against_sources(episode, checkpoints)?;
        Ok(candidate)
    }

    fn validate_ownership(&self, episode: &WorkEpisode) -> (result: Result<()>)
        ensures
            fails_as(result, self.deep_view().ownership_problem(episode.deep_view())),
    {
        episode.validate()?;
        let final_checkpoint_id = match episode.status {
            WorkEpisodeStatus::Closed { final_checkpoint_id } => final_checkpoint_id,
            WorkEpisodeStatus::Open => {
                return Err(invalid_input("automatic Context Candidate requires a closed Work Episode"));
            },
        };
        let owner = episode.ownership();
        if self.source_episode != owner || self.builder_provenance.source_episode != owner {
            return Err(invalid_input("automatic Context Candidate source Episode ownership does not match"));
        }
        self.builder_provenance.validate()?;
        if !is_among(&self.builder_provenance.checkpoint_ids, &final_checkpoint_id) {
            return Err(invalid_input("Candidate Builder provenance must include the Episode final Checkpoint"));
        }
        Ok(())
    }

    fn validate_content(&self) -> (result: Result<()>)
        ensures
            fails_as(result, self.deep_view().content_problem()),
    {
        self.content.validate()?;
        self.analysis.validate()?;
        validate_recommendations(&self.space_recommendations)?;
        self.confidence.validate("candidate.confidence")?;
        require_unique(&self.unknowns, "candidate.unknowns")?;
        validate_unknowns(&self.unknowns, "candidate.unknown")
    }

    fn validate_checkpoints(&self, episode: &WorkEpisode, checkpoints: &Vec<AgentCheckpoint>) -> (result: Result<()>)
        ensures
            fails_as(
                result,
                first_from(
                    self.deep_view().source_checkpoint_problem(episode.deep_view(), checkpoints.deep_view()),
                    0,
                    self.deep_view().builder_provenance.checkpoint_ids.len(),
                ),
            ),
    {
        let ghost ids = self.builder_provenance.checkpoint_ids.deep_view();
        let ghost problem = self.deep_view().source_checkpoint_problem(episode.deep_view(), checkpoints.deep_view());
        let mut index: usize = 0;
        while index < self.builder_provenance.checkpoint_ids.len()
            invariant
                index <= self.builder_provenance.checkpoint_ids@.len(),
                ids == self.builder_provenance.checkpoint_ids.deep_view(),
                problem == self.deep_view().source_checkpoint_problem(
                    episode.deep_view(),
                    checkpoints.deep_view(),
                ),
                first_from(problem, 0, ids.len()) == first_from(problem, index as nat, ids.len()),
            decreases self.builder_provenance.checkpoint_ids@.len() - index,
        {
            assert(ids[index as int] == self.builder_provenance.checkpoint_ids@[index as int]);
            match find_checkpoint(checkpoints, self.builder_provenance.checkpoint_ids[index]) {
                Some(checkpoint) => checkpoint.validate_against_episode(episode)?,
                None => {
                    return Err(invalid_input("Candidate Builder provenance Checkpoint does not exist"));
                },
            }
            index = index + 1;
        }
        Ok(())
    }

    fn observes_outside(&self, episode: &WorkEpisode) -> (outside: bool)
        ensures
            outside == self.deep_view().has_foreign_observation(episode.deep_view()),
    {
        let known = observation_ids_of(&episode.observations);
        let ghost ids = self.builder_provenance.observation_ids.deep_view();
        let mut index: usize = 0;
        while index < self.builder_provenance.observation_ids.len()
            invariant
                index <= self.builder_provenance.observation_ids@.len(),
                ids == self.deep_view().builder_provenance.observation_ids,
                known.deep_view() == observation_ids(episode.deep_view().observations),
                forall|i: int| 0 <= i < index ==> known.deep_view().contains(#[trigger] ids[i]),
            decreases self.builder_provenance.observation_ids@.len() - index,
        {
            assert(ids[index as int] == self.builder_provenance.observation_ids@[index as int]);
            if !is_among(&known, &self.builder_provenance.observation_ids[index]) {
                return true;
            }
            index = index + 1;
        }
        false
    }

    fn blocked(&self) -> (result: bool)
        ensures
            result == self.deep_view().is_blocked(),
    {
        let ghost model = self.unknowns.deep_view();
        let mut index: usize = 0;
        while index < self.unknowns.len()
            invariant
                index <= self.unknowns@.len(),
                model == self.deep_view().unknowns,
                forall|i: int| 0 <= i < index ==> !(#[trigger] model[i]).blocking,
            decreases self.unknowns@.len() - index,
        {
            assert(self.unknowns@[index as int].deep_view() == model[index as int]);
            if self.unknowns[index].blocking {
                return true;
            }
            index = index + 1;
        }
        false
    }

    /// Validates all Builder/Episode/Checkpoint ownership and Candidate content.
    pub fn validate_against_sources(
        &self,
        episode: &WorkEpisode,
        checkpoints: &Vec<AgentCheckpoint>,
    ) -> (result: Result<()>)
        ensures
            fails_as(result, self.deep_view().problem(episode.deep_view(), checkpoints.deep_view())),
    {
        self.validate_ownership(episode)?;
        self.validate_content()?;
        let ids = checkpoint_ids_of(checkpoints);
        if !crate::checks::all_distinct(&ids) {
            return Err(invalid_input("Candidate source Checkpoints must not repeat IDs"));
        }
        self.validate_checkpoints(episode, checkpoints)?;
        if self.observes_outside(episode) {
            return Err(invalid_input("Candidate Builder provenance Observation does not belong to source Episode"));
        }
        if self.status == AutomaticCandidateStatus::ReadyForReview {
            if self.blocked() {
                return Err(invalid_input("ReadyForReview Candidate cannot contain blocking unknowns"));
            }
            if self.confidence.basis_points == 0 {
                return Err(invalid_input("ReadyForReview Candidate requires non-zero confidence"));
            }
        }
        Ok(())
    }

    /// A Candidate is never injected automatically.
    #[must_use]
    pub fn is_auto_injection_eligible(&self) -> (eligible: bool)
        ensures
            !eligible,
    {
        false
    }
}

/// An automatic Candidate put together from its parts.
pub open spec fn automatic_candidate(
    candidate_id: CandidateId,
    source_episode: WorkEpisodeRef,
    content: ContextRevisionDraftView,
    builder_provenance: CandidateBuilderProvenanceView,
    analysis: CandidateAnalysisView,
    space_recommendations: Seq<CandidateSpaceRecommendationView>,
    confidence: CandidateConfidenceView,
    unknowns: Seq<CaptureUnknownView>,
    status: AutomaticCandidateStatus,
) -> AutomaticContextCandidateView {
    AutomaticContextCandidateView {
        candidate_id,
        source_episode,
        content,
        builder_provenance,
        analysis,
        space_recommendations,
        confidence,
        unknowns,
        status,
    }
}

/// Candidate content retained outside the automatic Builder contract.
#[derive(Clone, Debug, PartialEq, Eq)]
pub struct ContextCandidate {
    pub candidate_id: CandidateId,
    pub submission_id: SubmissionId,
    pub source_episode: WorkEpisodeRef,
    pub content: ContextRevisionDraft,
}

/// The model of [`ContextCandidate`].
pub struct ContextCandidateView {
    pub candidate_id: CandidateId,
    pub submission_id: SubmissionId,
    pub source_episode: WorkEpisodeRef,
    pub content: ContextRevisionDraftView,
}

impl DeepView for ContextCandidate {
    type V = ContextCandidateView;

    open spec fn deep_view(&self) -> ContextCandidateView {
        ContextCandidateView {
            candidate_id: self.candidate_id.deep_view(),
            submission_id: self.submission_id.deep_view(),
            source_episode: self.source_episode.deep_view(),
            content: self.content.deep_view(),
        }
    }
}

impl Value for ContextCandidate {
    fn copied(&self) -> (copy: Self) {
        ContextCandidate {
            candidate_id: self.candidate_id.copied(),
            submission_id: self.submission_id.copied(),
            source_episode: self.source_episode.copied(),
            content: self.content.copied(),
        }
    }

    fn same(&self, other: &Self) -> (equal: bool) {
        self.candidate_id.same(&other.candidate_id)
            && self.submission_id.same(&other.submission_id)
            && self.source_episode.same(&other.source_episode)
            && self.content.same(&other.content)
    }
}

impl ContextCandidateView {
    /// The JSON members, behind those of `body`.
    pub open spec fn json_members(self, body: Seq<char>) -> Seq<char> {
        let body = with_member(body, "candidate_id"@, <CandidateId as Json>::json(self.candidate_id));
        let body = with_member(body, "submission_id"@, <SubmissionId as Json>::json(self.submission_id));
        let body = with_member(body, "source_episode"@, <WorkEpisodeRef as Json>::json(self.source_episode));
        let body = with_member(body, "content"@, <ContextRevisionDraft as Json>::json(self.content));
        body
    }
}

impl ContextCandidate {
    fn push_members(&self, text: &mut String)
        ensures
            final(text)@ == self.deep_view().json_members(old(text)@),
    {
        push_member(text, "candidate_id", &self.candidate_id);
        push_member(text, "submission_id", &self.submission_id);
        push_member(text, "source_episode", &self.source_episode);
        push_member(text, "content", &self.content);
    }
}

impl Json for ContextCandidate {
    open spec fn json(model: ContextCandidateView) -> Seq<char> {
        object(model.json_members(Seq::<char>::empty()))
    }

    fn write_json(&self, out: &mut String) {
        let mut body = String::new();
        self.push_members(&mut body);
        push_object(out, body.as_str());
    }
}

/// The retry hash of a submission: of its Episode ownership and its complete draft alone.
pub open spec fn submission_hash(source_episode: WorkEpisodeRef, content: ContextRevisionDraftView) -> Seq<char> {
    "sha256:"@ + sha256_hex(
        encode_utf8(
            "["@ + <WorkEpisodeRef as Json>::json(source_episode) + ","@ + <ContextRevisionDraft as Json>::json(content)
                + "]"@,
        ),
    )
}

/// Hashes exactly the closed Episode ownership and complete authoritative draft.
#[must_use]
pub fn candidate_submission_content_hash(
    source_episode: &WorkEpisodeRef,
    content: &ContextRevisionDraft,
) -> (hash: String)
    ensures
        hash@ == submission_hash(*source_episode, content.deep_view()),
        is_prefixed_digest(hash@, "sha256:"@),
{
    let mut encoded = String::new();
    encoded.append("[");
    source_episode.write_json(&mut encoded);
    encoded.append(",");
    content.write_json(&mut encoded);
    encoded.append("]");
    proof {
        let expected = "["@ + <WorkEpisodeRef as Json>::json(*source_episode) + ","@
            + <ContextRevisionDraft as Json>::json(content.deep_view()) + "]"@;
        assert(encoded@ =~= expected);
    }
    prefixed_hash(encoded.as_str())
}

/// The `sha256:` hash of an encoded text.
pub open spec fn text_hash(encoded: Seq<char>) -> Seq<char> {
    "sha256:"@ + sha256_hex(encode_utf8(encoded))
}

/// Hashes an encoded text.
pub(crate) fn prefixed_hash(encoded: &str) -> (hash: String)
    ensures
        hash@ == text_hash(encoded@),
        is_prefixed_digest(hash@, "sha256:"@),
{
    let mut bytes: Vec<u8> = Vec::new();
    push_text(&mut bytes, encoded);
    assert(bytes@ =~= encode_utf8(encoded@));
    let digest = sha256_text(&bytes);
    proof {
        prefixed_digests_have_one_form("sha256:"@, bytes@);
    }
    joined2("sha256:", digest.as_str())
}

impl ContextCandidate {
    /// Creates an unowned Candidate for one stable submission operation.
    pub fn from_episode(
        submission_id: SubmissionId,
        episode: &WorkEpisode,
        content: ContextRevisionDraft,
    ) -> (result: Result<Self>)
        ensures
            fails_as(
                result,
                first(
                    episode.deep_view().problem(),
                    first(
                        given(
                            !(episode.status is Closed),
                            invalid("Context Candidate requires a closed Work Episode"@),
                        ),
                        content.deep_view().invalidity(),
                    ),
                ),
            ),
            result is Ok ==> result->Ok_0.candidate_id.canonical() && result->Ok_0.deep_view()
                == (ContextCandidateView {
                candidate_id: result->Ok_0.candidate_id,
                submission_id,
                source_episode: episode.deep_view().ownership(),
                content: content.deep_view(),
            }),
    {
        episode.validate()?;
        let closed = matches!(episode.status, WorkEpisodeStatus::Closed { .. });
        if !closed {
            return Err(invalid_input("Context Candidate requires a closed Work Episode"));
        }
        content.validate()?;
        Ok(
            ContextCandidate {
                candidate_id: CandidateId::new(),
                submission_id,
                source_episode: episode.ownership(),
                content,
            },
        )
    }

    /// Creates an Event Candidate after the service verified its closed Episode.
    /// Candidate identity remains server-generated.
    pub fn from_verified_submission(
        submission_id: SubmissionId,
        source_episode: WorkEpisodeRef,
        content: ContextRevisionDraft,
    ) -> (result: Result<Self>)
        ensures
            fails_as(result, content.deep_view().invalidity()),
            result is Ok ==> result->Ok_0.candidate_id.canonical() && result->Ok_0.deep_view()
                == (ContextCandidateView {
                candidate_id: result->Ok_0.candidate_id,
                submission_id,
                source_episode,
                content: content.deep_view(),
            }),
    {
        content.validate()?;
        Ok(ContextCandidate { candidate_id: CandidateId::new(), submission_id, source_episode, content })
    }

    /// Authoritative retry hash excluding Submission/Candidate IDs and annotations.
    #[must_use]
    pub fn submission_content_hash(&self) -> (hash: String)
        ensures
            hash@ == submission_hash(self.source_episode, self.deep_view().content),
            is_prefixed_digest(hash@, "sha256:"@),
    {
        candidate_submission_content_hash(&self.source_episode, &self.content)
    }

    /// The identity of the source Episode.
    #[must_use]
    pub fn source_episode_id(&self) -> (id: WorkEpisodeId)
        ensures
            id == self.source_episode.episode_id,
    {
        self.source_episode.episode_id
    }

    /// Validates the Candidate content.
    pub fn validate(&self) -> (result: Result<()>)
        ensures
            fails_as(result, self.deep_view().content.invalidity()),
    {
        self.content.validate()
    }

    /// Validates the Candidate content and its source Episode identity.
    pub fn validate_against_episode(&self, episode: &WorkEpisode) -> (result: Result<()>)
        ensures
            fails_as(
                result,
                first(
                    self.deep_view().content.invalidity(),
                    first(
                        episode.deep_view().problem(),
                        given(
                            self.source_episode != episode.deep_view().ownership(),
                            invalid("context_candidate.source_episode must identify the supplied episode owner"@),
                        ),
                    ),
                ),
            ),
    {
        self.validate()?;
        episode.validate()?;
        if self.source_episode != episode.ownership() {
            return Err(invalid_input("context_candidate.source_episode must identify the supplied episode owner"));
        }
        Ok(())
    }

    /// A Candidate is never injected automatically.
    #[must_use]
    pub fn is_auto_injection_eligible(&self) -> (eligible: bool)
        ensures
            !eligible,
    {
        false
    }
}

/// The JSON text of [`IntentRevisionRange`] writes every field of it under its own name.
pub proof fn intent_revision_range_json_writes_every_field(model: IntentRevisionRangeView)
    ensures
        writes(
            <IntentRevisionRange as Json>::json(model),
            "revision_ids"@,
            <Vec<TaskIntentRevisionId> as Json>::json(model.revision_ids),
        ),
{
    let b0 = Seq::<char>::empty();
    let b1 = with_member(b0, "revision_ids"@, <Vec<TaskIntentRevisionId> as Json>::json(model.revision_ids));
    members_are_written(b0, "revision_ids"@, <Vec<TaskIntentRevisionId> as Json>::json(model.revision_ids));
    assert(model.json_members(b0) == b1);
    objects_write_their_body(b1);
}

/// The JSON text of [`ArtifactRef`] writes every field of it under its own name.
pub proof fn artifact_ref_json_writes_every_field(model: ArtifactRefView)
    ensures
        writes(
            <ArtifactRef as Json>::json(model),
            "repository_id"@,
            <RepositoryId as Json>::json(model.repository_id),
        ),
        writes(<ArtifactRef as Json>::json(model), "locator"@, <ArtifactLocator as Json>::json(model.locator)),
{
    let b0 = Seq::<char>::empty();
    let b1 = with_member(b0, "repository_id"@, <RepositoryId as Json>::json(model.repository_id));
    members_are_written(b0, "repository_id"@, <RepositoryId as Json>::json(model.repository_id));
    let b2 = with_member(b1, "locator"@, <ArtifactLocator as Json>::json(model.locator));
    members_are_written(b1, "locator"@, <ArtifactLocator as Json>::json(model.locator));
    assert(model.json_members(b0) == b2);
    objects_write_their_body(b2);
}

/// The JSON text of [`WorkObservation`] writes every field of it under its own name.
pub proof fn work_observation_json_writes_every_field(model: WorkObservationView)
    ensures
        writes(
            <WorkObservation as Json>::json(model),
            "observation_id"@,
            <WorkObservationId as Json>::json(model.observation_id),
        ),
        writes(
            <WorkObservation as Json>::json(model),
            "task_session_id"@,
            <TaskSessionId as Json>::json(model.task_session_id),
        ),
        writes(<WorkObservation as Json>::json(model), "task_id"@, <TaskId as Json>::json(model.task_id)),
        writes(
            <WorkObservation as Json>::json(model),
            "intent_revision_id"@,
            <TaskIntentRevisionId as Json>::json(model.intent_revision_id),
        ),
        writes(
            <WorkObservation as Json>::json(model),
            "source_refs"@,
            <Vec<WorkSourceRef> as Json>::json(model.source_refs),
        ),
        writes(
            <WorkObservation as Json>::json(model),
            "observation"@,
            <NormalizedWorkObservation as Json>::json(model.observation),
        ),
{
    let b0 = Seq::<char>::empty();
    let b1 = with_member(b0, "observation_id"@, <WorkObservationId as Json>::json(model.observation_id));
    members_are_written(b0, "observation_id"@, <WorkObservationId as Json>::json(model.observation_id));
    let b2 = with_member(b1, "task_session_id"@, <TaskSessionId as Json>::json(model.task_session_id));
    members_are_written(b1, "task_session_id"@, <TaskSessionId as Json>::json(model.task_session_id));
    let b3 = with_member(b2, "task_id"@, <TaskId as Json>::json(model.task_id));
    members_are_written(b2, "task_id"@, <TaskId as Json>::json(model.task_id));
    let b4 = with_member(b3, "intent_revision_id"@, <TaskIntentRevisionId as Json>::json(model.intent_revision_id));
    members_are_written(b3, "intent_revision_id"@, <TaskIntentRevisionId as Json>::json(model.intent_revision_id));
    let b5 = with_member(b4, "source_refs"@, <Vec<WorkSourceRef> as Json>::json(model.source_refs));
    members_are_written(b4, "source_refs"@, <Vec<WorkSourceRef> as Json>::json(model.source_refs));
    let b6 = with_member(b5, "observation"@, <NormalizedWorkObservation as Json>::json(model.observation));
    members_are_written(b5, "observation"@, <NormalizedWorkObservation as Json>::json(model.observation));
    assert(model.json_members(b0) == b6);
    objects_write_their_body(b6);
}

/// The JSON text of [`WorkEpisode`] writes every field of it under its own name.
pub proof fn work_episode_json_writes_every_field(model: WorkEpisodeView)
    ensures
        writes(<WorkEpisode as Json>::json(model), "episode_id"@, <WorkEpisodeId as Json>::json(model.episode_id)),
        writes(<WorkEpisode as Json>::json(model), "version"@, <u64 as Json>::json(model.version)),
        writes(
            <WorkEpisode as Json>::json(model),
            "task_session_id"@,
            <TaskSessionId as Json>::json(model.task_session_id),
        ),
        writes(<WorkEpisode as Json>::json(model), "task_id"@, <TaskId as Json>::json(model.task_id)),
        writes(
            <WorkEpisode as Json>::json(model),
            "intent_revisions"@,
            <IntentRevisionRange as Json>::json(model.intent_revisions),
        ),
        writes(
            <WorkEpisode as Json>::json(model),
            "signal_refs"@,
            <Vec<NonLocatingSignalRef> as Json>::json(model.signal_refs),
        ),
        writes(
            <WorkEpisode as Json>::json(model),
            "observations"@,
            <Vec<WorkObservation> as Json>::json(model.observations),
        ),
        writes(<WorkEpisode as Json>::json(model), "status"@, <WorkEpisodeStatus as Json>::json(model.status)),
{
    let b0 = Seq::<char>::empty();
    let b1 = with_member(b0, "episode_id"@, <WorkEpisodeId as Json>::json(model.episode_id));
    members_are_written(b0, "episode_id"@, <WorkEpisodeId as Json>::json(model.episode_id));
    let b2 = with_member(b1, "version"@, <u64 as Json>::json(model.version));
    members_are_written(b1, "version"@, <u64 as Json>::json(model.version));
    let b3 = with_member(b2, "task_session_id"@, <TaskSessionId as Json>::json(model.task_session_id));
    members_are_written(b2, "task_session_id"@, <TaskSessionId as Json>::json(model.task_session_id));
    let b4 = with_member(b3, "task_id"@, <TaskId as Json>::json(model.task_id));
    members_are_written(b3, "task_id"@, <TaskId as Json>::json(model.task_id));
    let b5 = with_member(b4, "intent_revisions"@, <IntentRevisionRange as Json>::json(model.intent_revisions));
    members_are_written(b4, "intent_revisions"@, <IntentRevisionRange as Json>::json(model.intent_revisions));
    let b6 = with_member(b5, "signal_refs"@, <Vec<NonLocatingSignalRef> as Json>::json(model.signal_refs));
    members_are_written(b5, "signal_refs"@, <Vec<NonLocatingSignalRef> as Json>::json(model.signal_refs));
    let b7 = with_member(b6, "observations"@, <Vec<WorkObservation> as Json>::json(model.observations));
    members_are_written(b6, "observations"@, <Vec<WorkObservation> as Json>::json(model.observations));
    let b8 = with_member(b7, "status"@, <WorkEpisodeStatus as Json>::json(model.status));
    members_are_written(b7, "status"@, <WorkEpisodeStatus as Json>::json(model.status));
    assert(model.json_members(b0) == b8);
    objects_write_their_body(b8);
}

/// The JSON text of [`CaptureUnknown`] writes every field of it under its own name.
pub proof fn capture_unknown_json_writes_every_field(model: CaptureUnknownView)
    ensures
        writes(<CaptureUnknown as Json>::json(model), "statement"@, <String as Json>::json(model.statement)),
        writes(<CaptureUnknown as Json>::json(model), "blocking"@, <bool as Json>::json(model.blocking)),
        writes(
            <CaptureUnknown as Json>::json(model),
            "recheck_when"@,
            <Vec<String> as Json>::json(model.recheck_when),
        ),
{
    let b0 = Seq::<char>::empty();
    let b1 = with_member(b0, "statement"@, <String as Json>::json(model.statement));
    members_are_written(b0, "statement"@, <String as Json>::json(model.statement));
    let b2 = with_member(b1, "blocking"@, <bool as Json>::json(model.blocking));
    members_are_written(b1, "blocking"@, <bool as Json>::json(model.blocking));
    let b3 = with_member(b2, "recheck_when"@, <Vec<String> as Json>::json(model.recheck_when));
    members_are_written(b2, "recheck_when"@, <Vec<String> as Json>::json(model.recheck_when));
    assert(model.json_members(b0) == b3);
    objects_write_their_body(b3);
}

/// The JSON text of [`CheckpointClaim`] writes every field of it under its own name.
pub proof fn checkpoint_claim_json_writes_every_field(model: CheckpointClaimView)
    ensures
        writes(
            <CheckpointClaim as Json>::json(model),
            "claim_id"@,
            <CheckpointClaimId as Json>::json(model.claim_id),
        ),
        writes(
            <CheckpointClaim as Json>::json(model),
            "context_kind_hint"@,
            <Option<ContextKind> as Json>::json(model.context_kind_hint),
        ),
        writes(
            <CheckpointClaim as Json>::json(model),
            "topic_key_hint"@,
            <Option<String> as Json>::json(model.topic_key_hint),
        ),
        writes(<CheckpointClaim as Json>::json(model), "statement"@, <String as Json>::json(model.statement)),
        writes(<CheckpointClaim as Json>::json(model), "rationale"@, <String as Json>::json(model.rationale)),
        writes(
            <CheckpointClaim as Json>::json(model),
            "applicability"@,
            <Applicability as Json>::json(model.applicability),
        ),
        writes(
            <CheckpointClaim as Json>::json(model),
            "assumptions"@,
            <Vec<String> as Json>::json(model.assumptions),
        ),
        writes(
            <CheckpointClaim as Json>::json(model),
            "recheck_when"@,
            <Vec<String> as Json>::json(model.recheck_when),
        ),
        writes(
            <CheckpointClaim as Json>::json(model),
            "evidence_refs"@,
            <Vec<CaptureEvidenceRef> as Json>::json(model.evidence_refs),
        ),
        writes(
            <CheckpointClaim as Json>::json(model),
            "artifact_refs"@,
            <Vec<ArtifactRef> as Json>::json(model.artifact_refs),
        ),
        writes(
            <CheckpointClaim as Json>::json(model),
            "related_contexts"@,
            <Vec<ContextRevisionRef> as Json>::json(model.related_contexts),
        ),
{
    let b0 = Seq::<char>::empty();
    let b1 = with_member(b0, "claim_id"@, <CheckpointClaimId as Json>::json(model.claim_id));
    members_are_written(b0, "claim_id"@, <CheckpointClaimId as Json>::json(model.claim_id));
    let b2 = with_member(b1, "context_kind_hint"@, <Option<ContextKind> as Json>::json(model.context_kind_hint));
    members_are_written(b1, "context_kind_hint"@, <Option<ContextKind> as Json>::json(model.context_kind_hint));
    let b3 = with_member(b2, "topic_key_hint"@, <Option<String> as Json>::json(model.topic_key_hint));
    members_are_written(b2, "topic_key_hint"@, <Option<String> as Json>::json(model.topic_key_hint));
    let b4 = with_member(b3, "statement"@, <String as Json>::json(model.statement));
    members_are_written(b3, "statement"@, <String as Json>::json(model.statement));
    let b5 = with_member(b4, "rationale"@, <String as Json>::json(model.rationale));
    members_are_written(b4, "rationale"@, <String as Json>::json(model.rationale));
    let b6 = with_member(b5, "applicability"@, <Applicability as Json>::json(model.applicability));
    members_are_written(b5, "applicability"@, <Applicability as Json>::json(model.applicability));
    let b7 = with_member(b6, "assumptions"@, <Vec<String> as Json>::json(model.assumptions));
    members_are_written(b6, "assumptions"@, <Vec<String> as Json>::json(model.assumptions));
    let b8 = with_member(b7, "recheck_when"@, <Vec<String> as Json>::json(model.recheck_when));
    members_are_written(b7, "recheck_when"@, <Vec<String> as Json>::json(model.recheck_when));
    let b9 = with_member(b8, "evidence_refs"@, <Vec<CaptureEvidenceRef> as Json>::json(model.evidence_refs));
    members_are_written(b8, "evidence_refs"@, <Vec<CaptureEvidenceRef> as Json>::json(model.evidence_refs));
    let b10 = with_member(b9, "artifact_refs"@, <Vec<ArtifactRef> as Json>::json(model.artifact_refs));
    members_are_written(b9, "artifact_refs"@, <Vec<ArtifactRef> as Json>::json(model.artifact_refs));
    let b11 = with_member(b10, "related_contexts"@, <Vec<ContextRevisionRef> as Json>::json(model.related_contexts));
    members_are_written(b10, "related_contexts"@, <Vec<ContextRevisionRef> as Json>::json(model.related_contexts));
    assert(model.json_members(b0) == b11);
    objects_write_their_body(b11);
}

/// The JSON text of [`AgentCheckpoint`] writes every field of it under its own name.
pub proof fn agent_checkpoint_json_writes_every_field(model: AgentCheckpointView)
    ensures
        writes(
            <AgentCheckpoint as Json>::json(model),
            "checkpoint_id"@,
            <AgentCheckpointId as Json>::json(model.checkpoint_id),
        ),
        writes(
            <AgentCheckpoint as Json>::json(model),
            "episode_id"@,
            <WorkEpisodeId as Json>::json(model.episode_id),
        ),
        writes(
            <AgentCheckpoint as Json>::json(model),
            "task_session_id"@,
            <TaskSessionId as Json>::json(model.task_session_id),
        ),
        writes(<AgentCheckpoint as Json>::json(model), "task_id"@, <TaskId as Json>::json(model.task_id)),
        writes(
            <AgentCheckpoint as Json>::json(model),
            "intent_revision_id"@,
            <TaskIntentRevisionId as Json>::json(model.intent_revision_id),
        ),
        writes(<AgentCheckpoint as Json>::json(model), "claims"@, <Vec<CheckpointClaim> as Json>::json(model.claims)),
        writes(
            <AgentCheckpoint as Json>::json(model),
            "unknowns"@,
            <Vec<CaptureUnknown> as Json>::json(model.unknowns),
        ),
{
    let b0 = Seq::<char>::empty();
    let b1 = with_member(b0, "checkpoint_id"@, <AgentCheckpointId as Json>::json(model.checkpoint_id));
    members_are_written(b0, "checkpoint_id"@, <AgentCheckpointId as Json>::json(model.checkpoint_id));
    let b2 = with_member(b1, "episode_id"@, <WorkEpisodeId as Json>::json(model.episode_id));
    members_are_written(b1, "episode_id"@, <WorkEpisodeId as Json>::json(model.episode_id));
    let b3 = with_member(b2, "task_session_id"@, <TaskSessionId as Json>::json(model.task_session_id));
    members_are_written(b2, "task_session_id"@, <TaskSessionId as Json>::json(model.task_session_id));
    let b4 = with_member(b3, "task_id"@, <TaskId as Json>::json(model.task_id));
    members_are_written(b3, "task_id"@, <TaskId as Json>::json(model.task_id));
    let b5 = with_member(b4, "intent_revision_id"@, <TaskIntentRevisionId as Json>::json(model.intent_revision_id));
    members_are_written(b4, "intent_revision_id"@, <TaskIntentRevisionId as Json>::json(model.intent_revision_id));
    let b6 = with_member(b5, "claims"@, <Vec<CheckpointClaim> as Json>::json(model.claims));
    members_are_written(b5, "claims"@, <Vec<CheckpointClaim> as Json>::json(model.claims));
    let b7 = with_member(b6, "unknowns"@, <Vec<CaptureUnknown> as Json>::json(model.unknowns));
    members_are_written(b6, "unknowns"@, <Vec<CaptureUnknown> as Json>::json(model.unknowns));
    assert(model.json_members(b0) == b7);
    objects_write_their_body(b7);
}

/// The JSON text of [`CandidateBuilderProvenance`] writes every field of it under its own name.
pub proof fn candidate_builder_provenance_json_writes_every_field(model: CandidateBuilderProvenanceView)
    ensures
        writes(
            <CandidateBuilderProvenance as Json>::json(model),
            "build_id"@,
            <CandidateBuildId as Json>::json(model.build_id),
        ),
        writes(
            <CandidateBuilderProvenance as Json>::json(model),
            "source_episode"@,
            <WorkEpisodeRef as Json>::json(model.source_episode),
        ),
        writes(
            <CandidateBuilderProvenance as Json>::json(model),
            "checkpoint_ids"@,
            <Vec<AgentCheckpointId> as Json>::json(model.checkpoint_ids),
        ),
        writes(
            <CandidateBuilderProvenance as Json>::json(model),
            "observation_ids"@,
            <Vec<WorkObservationId> as Json>::json(model.observation_ids),
        ),
{
    let b0 = Seq::<char>::empty();
    let b1 = with_member(b0, "build_id"@, <CandidateBuildId as Json>::json(model.build_id));
    members_are_written(b0, "build_id"@, <CandidateBuildId as Json>::json(model.build_id));
    let b2 = with_member(b1, "source_episode"@, <WorkEpisodeRef as Json>::json(model.source_episode));
    members_are_written(b1, "source_episode"@, <WorkEpisodeRef as Json>::json(model.source_episode));
    let b3 = with_member(b2, "checkpoint_ids"@, <Vec<AgentCheckpointId> as Json>::json(model.checkpoint_ids));
    members_are_written(b2, "checkpoint_ids"@, <Vec<AgentCheckpointId> as Json>::json(model.checkpoint_ids));
    let b4 = with_member(b3, "observation_ids"@, <Vec<WorkObservationId> as Json>::json(model.observation_ids));
    members_are_written(b3, "observation_ids"@, <Vec<WorkObservationId> as Json>::json(model.observation_ids));
    assert(model.json_members(b0) == b4);
    objects_write_their_body(b4);
}

/// The JSON text of [`CandidateConfidence`] writes every field of it under its own name.
pub proof fn candidate_confidence_json_writes_every_field(model: CandidateConfidenceView)
    ensures
        writes(<CandidateConfidence as Json>::json(model), "basis_points"@, <u16 as Json>::json(model.basis_points)),
        writes(<CandidateConfidence as Json>::json(model), "rationale"@, <String as Json>::json(model.rationale)),
{
    let b0 = Seq::<char>::empty();
    let b1 = with_member(b0, "basis_points"@, <u16 as Json>::json(model.basis_points));
    members_are_written(b0, "basis_points"@, <u16 as Json>::json(model.basis_points));
    let b2 = with_member(b1, "rationale"@, <String as Json>::json(model.rationale));
    members_are_written(b1, "rationale"@, <String as Json>::json(model.rationale));
    assert(model.json_members(b0) == b2);
    objects_write_their_body(b2);
}

/// The JSON text of [`CandidateRelationAssessment`] writes every field of it under its own name.
pub proof fn candidate_relation_assessment_json_writes_every_field(model: CandidateRelationAssessmentView)
    ensures
        writes(
            <CandidateRelationAssessment as Json>::json(model),
            "relation"@,
            <CandidateAssessmentRelation as Json>::json(model.relation),
        ),
        writes(
            <CandidateRelationAssessment as Json>::json(model),
            "target"@,
            <Option<ContextRevisionRef> as Json>::json(model.target),
        ),
        writes(
            <CandidateRelationAssessment as Json>::json(model),
            "confidence"@,
            <CandidateConfidence as Json>::json(model.confidence),
        ),
        writes(
            <CandidateRelationAssessment as Json>::json(model),
            "paths"@,
            <Vec<CandidateAssessmentPath> as Json>::json(model.paths),
        ),
        writes(
            <CandidateRelationAssessment as Json>::json(model),
            "reasons"@,
            <Vec<String> as Json>::json(model.reasons),
        ),
{
    let b0 = Seq::<char>::empty();
    let b1 = with_member(b0, "relation"@, <CandidateAssessmentRelation as Json>::json(model.relation));
    members_are_written(b0, "relation"@, <CandidateAssessmentRelation as Json>::json(model.relation));
    let b2 = with_member(b1, "target"@, <Option<ContextRevisionRef> as Json>::json(model.target));
    members_are_written(b1, "target"@, <Option<ContextRevisionRef> as Json>::json(model.target));
    let b3 = with_member(b2, "confidence"@, <CandidateConfidence as Json>::json(model.confidence));
    members_are_written(b2, "confidence"@, <CandidateConfidence as Json>::json(model.confidence));
    let b4 = with_member(b3, "paths"@, <Vec<CandidateAssessmentPath> as Json>::json(model.paths));
    members_are_written(b3, "paths"@, <Vec<CandidateAssessmentPath> as Json>::json(model.paths));
    let b5 = with_member(b4, "reasons"@, <Vec<String> as Json>::json(model.reasons));
    members_are_written(b4, "reasons"@, <Vec<String> as Json>::json(model.reasons));
    assert(model.json_members(b0) == b5);
    objects_write_their_body(b5);
}

/// The JSON text of [`CandidateAnalysis`] writes every field of it under its own name.
pub proof fn candidate_analysis_json_writes_every_field(model: CandidateAnalysisView)
    ensures
        writes(
            <CandidateAnalysis as Json>::json(model),
            "status"@,
            <CandidateAnalysisStatus as Json>::json(model.status),
        ),
        writes(
            <CandidateAnalysis as Json>::json(model),
            "assessments"@,
            <Vec<CandidateRelationAssessment> as Json>::json(model.assessments),
        ),
        writes(
            <CandidateAnalysis as Json>::json(model),
            "context_tree_oid"@,
            <Option<String> as Json>::json(model.context_tree_oid),
        ),
        writes(
            <CandidateAnalysis as Json>::json(model),
            "context_generation"@,
            <Option<u64> as Json>::json(model.context_generation),
        ),
        writes(
            <CandidateAnalysis as Json>::json(model),
            "graph_context_tree_oid"@,
            <Option<String> as Json>::json(model.graph_context_tree_oid),
        ),
        writes(
            <CandidateAnalysis as Json>::json(model),
            "artifact_generation"@,
            <Option<String> as Json>::json(model.artifact_generation),
        ),
        writes(<CandidateAnalysis as Json>::json(model), "token_budget"@, <usize as Json>::json(model.token_budget)),
        writes(
            <CandidateAnalysis as Json>::json(model),
            "estimated_tokens"@,
            <usize as Json>::json(model.estimated_tokens),
        ),
        writes(
            <CandidateAnalysis as Json>::json(model),
            "omitted_target_count"@,
            <usize as Json>::json(model.omitted_target_count),
        ),
        writes(
            <CandidateAnalysis as Json>::json(model),
            "error_code"@,
            <Option<String> as Json>::json(model.error_code),
        ),
{
    let b0 = Seq::<char>::empty();
    let b1 = with_member(b0, "status"@, <CandidateAnalysisStatus as Json>::json(model.status));
    members_are_written(b0, "status"@, <CandidateAnalysisStatus as Json>::json(model.status));
    let b2 = with_member(b1, "assessments"@, <Vec<CandidateRelationAssessment> as Json>::json(model.assessments));
    members_are_written(b1, "assessments"@, <Vec<CandidateRelationAssessment> as Json>::json(model.assessments));
    let b3 = with_member(b2, "context_tree_oid"@, <Option<String> as Json>::json(model.context_tree_oid));
    members_are_written(b2, "context_tree_oid"@, <Option<String> as Json>::json(model.context_tree_oid));
    let b4 = with_member(b3, "context_generation"@, <Option<u64> as Json>::json(model.context_generation));
    members_are_written(b3, "context_generation"@, <Option<u64> as Json>::json(model.context_generation));
    let b5 = with_member(b4, "graph_context_tree_oid"@, <Option<String> as Json>::json(model.graph_context_tree_oid));
    members_are_written(b4, "graph_context_tree_oid"@, <Option<String> as Json>::json(model.graph_context_tree_oid));
    let b6 = with_member(b5, "artifact_generation"@, <Option<String> as Json>::json(model.artifact_generation));
    members_are_written(b5, "artifact_generation"@, <Option<String> as Json>::json(model.artifact_generation));
    let b7 = with_member(b6, "token_budget"@, <usize as Json>::json(model.token_budget));
    members_are_written(b6, "token_budget"@, <usize as Json>::json(model.token_budget));
    let b8 = with_member(b7, "estimated_tokens"@, <usize as Json>::json(model.estimated_tokens));
    members_are_written(b7, "estimated_tokens"@, <usize as Json>::json(model.estimated_tokens));
    let b9 = with_member(b8, "omitted_target_count"@, <usize as Json>::json(model.omitted_target_count));
    members_are_written(b8, "omitted_target_count"@, <usize as Json>::json(model.omitted_target_count));
    let b10 = with_member(b9, "error_code"@, <Option<String> as Json>::json(model.error_code));
    members_are_written(b9, "error_code"@, <Option<String> as Json>::json(model.error_code));
    assert(model.json_members(b0) == b10);
    objects_write_their_body(b10);
}

/// The JSON text of [`AutomaticContextCandidate`] writes every field of it under its own name.
pub proof fn automatic_context_candidate_json_writes_every_field(model: AutomaticContextCandidateView)
    ensures
        writes(
            <AutomaticContextCandidate as Json>::json(model),
            "candidate_id"@,
            <CandidateId as Json>::json(model.candidate_id),
        ),
        writes(
            <AutomaticContextCandidate as Json>::json(model),
            "source_episode"@,
            <WorkEpisodeRef as Json>::json(model.source_episode),
        ),
        writes(
            <AutomaticContextCandidate as Json>::json(model),
            "content"@,
            <ContextRevisionDraft as Json>::json(model.content),
        ),
        writes(
            <AutomaticContextCandidate as Json>::json(model),
            "builder_provenance"@,
            <CandidateBuilderProvenance as Json>::json(model.builder_provenance),
        ),
        writes(
            <AutomaticContextCandidate as Json>::json(model),
            "analysis"@,
            <CandidateAnalysis as Json>::json(model.analysis),
        ),
        writes(
            <AutomaticContextCandidate as Json>::json(model),
            "space_recommendations"@,
            <Vec<CandidateSpaceRecommendation> as Json>::json(model.space_recommendations),
        ),
        writes(
            <AutomaticContextCandidate as Json>::json(model),
            "confidence"@,
            <CandidateConfidence as Json>::json(model.confidence),
        ),
        writes(
            <AutomaticContextCandidate as Json>::json(model),
            "unknowns"@,
            <Vec<CaptureUnknown> as Json>::json(model.unknowns),
        ),
        writes(
            <AutomaticContextCandidate as Json>::json(model),
            "status"@,
            <AutomaticCandidateStatus as Json>::json(model.status),
        ),
{
    let b0 = Seq::<char>::empty();
    let b1 = with_member(b0, "candidate_id"@, <CandidateId as Json>::json(model.candidate_id));
    members_are_written(b0, "candidate_id"@, <CandidateId as Json>::json(model.candidate_id));
    let b2 = with_member(b1, "source_episode"@, <WorkEpisodeRef as Json>::json(model.source_episode));
    members_are_written(b1, "source_episode"@, <WorkEpisodeRef as Json>::json(model.source_episode));
    let b3 = with_member(b2, "content"@, <ContextRevisionDraft as Json>::json(model.content));
    members_are_written(b2, "content"@, <ContextRevisionDraft as Json>::json(model.content));
    let b4 = with_member(
        b3,
        "builder_provenance"@,
        <CandidateBuilderProvenance as Json>::json(model.builder_provenance),
    );
    members_are_written(
        b3,
        "builder_provenance"@,
        <CandidateBuilderProvenance as Json>::json(model.builder_provenance),
    );
    let b5 = with_member(b4, "analysis"@, <CandidateAnalysis as Json>::json(model.analysis));
    members_are_written(b4, "analysis"@, <CandidateAnalysis as Json>::json(model.analysis));
    let b6 = with_member(
        b5,
        "space_recommendations"@,
        <Vec<CandidateSpaceRecommendation> as Json>::json(model.space_recommendations),
    );
    members_are_written(
        b5,
        "space_recommendations"@,
        <Vec<CandidateSpaceRecommendation> as Json>::json(model.space_recommendations),
    );
    let b7 = with_member(b6, "confidence"@, <CandidateConfidence as Json>::json(model.confidence));
    members_are_written(b6, "confidence"@, <CandidateConfidence as Json>::json(model.confidence));
    let b8 = with_member(b7, "unknowns"@, <Vec<CaptureUnknown> as Json>::json(model.unknowns));
    members_are_written(b7, "unknowns"@, <Vec<CaptureUnknown> as Json>::json(model.unknowns));
    let b9 = with_member(b8, "status"@, <AutomaticCandidateStatus as Json>::json(model.status));
    members_are_written(b8, "status"@, <AutomaticCandidateStatus as Json>::json(model.status));
    assert(model.json_members(b0) == b9);
    objects_write_their_body(b9);
}

/// The JSON text of [`ContextCandidate`] writes every field of it under its own name.
pub proof fn context_candidate_json_writes_every_field(model: ContextCandidateView)
    ensures
        writes(
            <ContextCandidate as Json>::json(model),
            "candidate_id"@,
            <CandidateId as Json>::json(model.candidate_id),
        ),
        writes(
            <ContextCandidate as Json>::json(model),
            "submission_id"@,
            <SubmissionId as Json>::json(model.submission_id),
        ),
        writes(
            <ContextCandidate as Json>::json(model),
            "source_episode"@,
            <WorkEpisodeRef as Json>::json(model.source_episode),
        ),
        writes(
            <ContextCandidate as Json>::json(model),
            "content"@,
            <ContextRevisionDraft as Json>::json(model.content),
        ),
{
    let b0 = Seq::<char>::empty();
    let b1 = with_member(b0, "candidate_id"@, <CandidateId as Json>::json(model.candidate_id));
    members_are_written(b0, "candidate_id"@, <CandidateId as Json>::json(model.candidate_id));
    let b2 = with_member(b1, "submission_id"@, <SubmissionId as Json>::json(model.submission_id));
    members_are_written(b1, "submission_id"@, <SubmissionId as Json>::json(model.submission_id));
    let b3 = with_member(b2, "source_episode"@, <WorkEpisodeRef as Json>::json(model.source_episode));
    members_are_written(b2, "source_episode"@, <WorkEpisodeRef as Json>::json(model.source_episode));
    let b4 = with_member(b3, "content"@, <ContextRevisionDraft as Json>::json(model.content));
    members_are_written(b3, "content"@, <ContextRevisionDraft as Json>::json(model.content));
    assert(model.json_members(b0) == b4);
    objects_write_their_body(b4);
}

/// The JSON text of [`CaptureEvidenceRef`] writes its kind and every field of it under its own name.
pub proof fn capture_evidence_ref_json_writes_every_field(model: CaptureEvidenceRef)
    ensures
        match model {
            CaptureEvidenceRef::Observation { observation_id } => writes(
                <CaptureEvidenceRef as Json>::json(model),
                "kind"@,
                "\"observation\""@,
            )
                && writes(
                    <CaptureEvidenceRef as Json>::json(model),
                    "observation_id"@,
                    <WorkObservationId as Json>::json(observation_id),
                ),
            CaptureEvidenceRef::TaskSignal { signal_id } => writes(
                <CaptureEvidenceRef as Json>::json(model),
                "kind"@,
                "\"task_signal\""@,
            )
                && writes(
                    <CaptureEvidenceRef as Json>::json(model),
                    "signal_id"@,
                    <SignalId as Json>::json(signal_id),
                ),
            CaptureEvidenceRef::ContextEvidence { context_id, revision_id, evidence_id } => writes(
                <CaptureEvidenceRef as Json>::json(model),
                "kind"@,
                "\"context_evidence\""@,
            )
                && writes(
                    <CaptureEvidenceRef as Json>::json(model),
                    "context_id"@,
                    <ContextId as Json>::json(context_id),
                )
                && writes(
                    <CaptureEvidenceRef as Json>::json(model),
                    "revision_id"@,
                    <RevisionId as Json>::json(revision_id),
                )
                && writes(
                    <CaptureEvidenceRef as Json>::json(model),
                    "evidence_id"@,
                    <EvidenceId as Json>::json(evidence_id),
                ),
        },
{
    match model {
        CaptureEvidenceRef::Observation { observation_id } => {
            let b0 = Seq::<char>::empty();
            let b1 = with_member(b0, "kind"@, "\"observation\""@);
            members_are_written(b0, "kind"@, "\"observation\""@);
            let b2 = with_member(b1, "observation_id"@, <WorkObservationId as Json>::json(observation_id));
            members_are_written(b1, "observation_id"@, <WorkObservationId as Json>::json(observation_id));
            objects_write_their_body(b2);
        },
        CaptureEvidenceRef::TaskSignal { signal_id } => {
            let b0 = Seq::<char>::empty();
            let b1 = with_member(b0, "kind"@, "\"task_signal\""@);
            members_are_written(b0, "kind"@, "\"task_signal\""@);
            let b2 = with_member(b1, "signal_id"@, <SignalId as Json>::json(signal_id));
            members_are_written(b1, "signal_id"@, <SignalId as Json>::json(signal_id));
            objects_write_their_body(b2);
        },
        CaptureEvidenceRef::ContextEvidence { context_id, revision_id, evidence_id } => {
            let b0 = Seq::<char>::empty();
            let b1 = with_member(b0, "kind"@, "\"context_evidence\""@);
            members_are_written(b0, "kind"@, "\"context_evidence\""@);
            let b2 = with_member(b1, "context_id"@, <ContextId as Json>::json(context_id));
            members_are_written(b1, "context_id"@, <ContextId as Json>::json(context_id));
            let b3 = with_member(b2, "revision_id"@, <RevisionId as Json>::json(revision_id));
            members_are_written(b2, "revision_id"@, <RevisionId as Json>::json(revision_id));
            let b4 = with_member(b3, "evidence_id"@, <EvidenceId as Json>::json(evidence_id));
            members_are_written(b3, "evidence_id"@, <EvidenceId as Json>::json(evidence_id));
            objects_write_their_body(b4);
        },
    }
}

/// The JSON text of [`WorkSourceRef`] writes its kind and every field of it under its own name.
pub proof fn work_source_ref_json_writes_every_field(model: WorkSourceRefView)
    ensures
        match model {
            WorkSourceRefView::Capture(inner) => true,
            WorkSourceRefView::TaskSignal(inner) => true,
            WorkSourceRefView::Artifact(inner) => true,
            WorkSourceRefView::ContextRevision(inner) => true,
            WorkSourceRefView::ContextEvidence { context_id, revision_id, evidence_id } => writes(
                <WorkSourceRef as Json>::json(model),
                "source_kind"@,
                "\"context_evidence\""@,
            )
                && writes(<WorkSourceRef as Json>::json(model), "context_id"@, <ContextId as Json>::json(context_id))
                && writes(
                    <WorkSourceRef as Json>::json(model),
                    "revision_id"@,
                    <RevisionId as Json>::json(revision_id),
                )
                && writes(
                    <WorkSourceRef as Json>::json(model),
                    "evidence_id"@,
                    <EvidenceId as Json>::json(evidence_id),
                ),
        },
{
    match model {
        WorkSourceRefView::Capture(inner) => {
        },
        WorkSourceRefView::TaskSignal(inner) => {
        },
        WorkSourceRefView::Artifact(inner) => {
        },
        WorkSourceRefView::ContextRevision(inner) => {
        },
        WorkSourceRefView::ContextEvidence { context_id, revision_id, evidence_id } => {
            let b0 = Seq::<char>::empty();
            let b1 = with_member(b0, "source_kind"@, "\"context_evidence\""@);
            members_are_written(b0, "source_kind"@, "\"context_evidence\""@);
            let b2 = with_member(b1, "context_id"@, <ContextId as Json>::json(context_id));
            members_are_written(b1, "context_id"@, <ContextId as Json>::json(context_id));
            let b3 = with_member(b2, "revision_id"@, <RevisionId as Json>::json(revision_id));
            members_are_written(b2, "revision_id"@, <RevisionId as Json>::json(revision_id));
            let b4 = with_member(b3, "evidence_id"@, <EvidenceId as Json>::json(evidence_id));
            members_are_written(b3, "evidence_id"@, <EvidenceId as Json>::json(evidence_id));
            objects_write_their_body(b4);
        },
    }
}

/// Every [`ContextUseDisposition`] is written under a name of its own.
pub proof fn context_use_disposition_json_names_every_variant()
    ensures
        <ContextUseDisposition as Json>::json(ContextUseDisposition::Applied) == "\"applied\""@,
        <ContextUseDisposition as Json>::json(ContextUseDisposition::Ignored) == "\"ignored\""@,
{
}

/// Every [`ArtifactAction`] is written under a name of its own.
pub proof fn artifact_action_json_names_every_variant()
    ensures
        <ArtifactAction as Json>::json(ArtifactAction::Inspected) == "\"inspected\""@,
        <ArtifactAction as Json>::json(ArtifactAction::Modified) == "\"modified\""@,
{
}

/// Every [`NormalizedBreadcrumbKind`] is written under a name of its own.
pub proof fn normalized_breadcrumb_kind_json_names_every_variant()
    ensures
        <NormalizedBreadcrumbKind as Json>::json(NormalizedBreadcrumbKind::Exploration) == "\"exploration\""@,
        <NormalizedBreadcrumbKind as Json>::json(NormalizedBreadcrumbKind::Implementation) == "\"implementation\""@,
        <NormalizedBreadcrumbKind as Json>::json(NormalizedBreadcrumbKind::Validation) == "\"validation\""@,
        <NormalizedBreadcrumbKind as Json>::json(NormalizedBreadcrumbKind::Decision) == "\"decision\""@,
{
}

/// Every [`TestOutcomeStatus`] is written under a name of its own.
pub proof fn test_outcome_status_json_names_every_variant()
    ensures
        <TestOutcomeStatus as Json>::json(TestOutcomeStatus::Passed) == "\"passed\""@,
        <TestOutcomeStatus as Json>::json(TestOutcomeStatus::Failed) == "\"failed\""@,
        <TestOutcomeStatus as Json>::json(TestOutcomeStatus::Inconclusive) == "\"inconclusive\""@,
{
}

/// The JSON text of [`NormalizedWorkObservation`] writes its kind and every field of it under its own name.
pub proof fn normalized_work_observation_json_writes_every_field(model: NormalizedWorkObservationView)
    ensures
        match model {
            NormalizedWorkObservationView::Breadcrumb { category, summary } => writes(
                <NormalizedWorkObservation as Json>::json(model),
                "kind"@,
                "\"breadcrumb\""@,
            )
                && writes(
                    <NormalizedWorkObservation as Json>::json(model),
                    "category"@,
                    <NormalizedBreadcrumbKind as Json>::json(category),
                )
                && writes(
                    <NormalizedWorkObservation as Json>::json(model),
                    "summary"@,
                    <String as Json>::json(summary),
                ),
            NormalizedWorkObservationView::TestOutcome { test_name, status, summary } => writes(
                <NormalizedWorkObservation as Json>::json(model),
                "kind"@,
                "\"test_outcome\""@,
            )
                && writes(
                    <NormalizedWorkObservation as Json>::json(model),
                    "test_name"@,
                    <String as Json>::json(test_name),
                )
                && writes(
                    <NormalizedWorkObservation as Json>::json(model),
                    "status"@,
                    <TestOutcomeStatus as Json>::json(status),
                )
                && writes(
                    <NormalizedWorkObservation as Json>::json(model),
                    "summary"@,
                    <String as Json>::json(summary),
                ),
            NormalizedWorkObservationView::Diff { summary, artifact_refs } => writes(
                <NormalizedWorkObservation as Json>::json(model),
                "kind"@,
                "\"diff\""@,
            )
                && writes(
                    <NormalizedWorkObservation as Json>::json(model),
                    "summary"@,
                    <String as Json>::json(summary),
                )
                && writes(
                    <NormalizedWorkObservation as Json>::json(model),
                    "artifact_refs"@,
                    <Vec<ArtifactRef> as Json>::json(artifact_refs),
                ),
            NormalizedWorkObservationView::ContextUse { context, disposition, reason } => writes(
                <NormalizedWorkObservation as Json>::json(model),
                "kind"@,
                "\"context_use\""@,
            )
                && writes(
                    <NormalizedWorkObservation as Json>::json(model),
                    "context"@,
                    <ContextRevisionRef as Json>::json(context),
                )
                && writes(
                    <NormalizedWorkObservation as Json>::json(model),
                    "disposition"@,
                    <ContextUseDisposition as Json>::json(disposition),
                )
                && writes(
                    <NormalizedWorkObservation as Json>::json(model),
                    "reason"@,
                    <String as Json>::json(reason),
                ),
            NormalizedWorkObservationView::Artifact { artifact, action, summary } => writes(
                <NormalizedWorkObservation as Json>::json(model),
                "kind"@,
                "\"artifact\""@,
            )
                && writes(
                    <NormalizedWorkObservation as Json>::json(model),
                    "artifact"@,
                    <ArtifactRef as Json>::json(artifact),
                )
                && writes(
                    <NormalizedWorkObservation as Json>::json(model),
                    "action"@,
                    <ArtifactAction as Json>::json(action),
                )
                && writes(
                    <NormalizedWorkObservation as Json>::json(model),
                    "summary"@,
                    <String as Json>::json(summary),
                ),
            NormalizedWorkObservationView::Interface { interface, observation } => writes(
                <NormalizedWorkObservation as Json>::json(model),
                "kind"@,
                "\"interface\""@,
            )
                && writes(
                    <NormalizedWorkObservation as Json>::json(model),
                    "interface"@,
                    <ArtifactRef as Json>::json(interface),
                )
                && writes(
                    <NormalizedWorkObservation as Json>::json(model),
                    "observation"@,
                    <String as Json>::json(observation),
                ),
            NormalizedWorkObservationView::Validation { conclusion, evidence_refs } => writes(
                <NormalizedWorkObservation as Json>::json(model),
                "kind"@,
                "\"validation\""@,
            )
                && writes(
                    <NormalizedWorkObservation as Json>::json(model),
                    "conclusion"@,
                    <String as Json>::json(conclusion),
                )
                && writes(
                    <NormalizedWorkObservation as Json>::json(model),
                    "evidence_refs"@,
                    <Vec<CaptureEvidenceRef> as Json>::json(evidence_refs),
                ),
            NormalizedWorkObservationView::InlineValidation { evidence } => writes(
                <NormalizedWorkObservation as Json>::json(model),
                "kind"@,
                "\"inline_validation\""@,
            )
                && writes(
                    <NormalizedWorkObservation as Json>::json(model),
                    "evidence"@,
                    <EvidenceSnapshotDraft as Json>::json(evidence),
                ),
            NormalizedWorkObservationView::UnresolvedQuestion { question } => writes(
                <NormalizedWorkObservation as Json>::json(model),
                "kind"@,
                "\"unresolved_question\""@,
            )
                && writes(
                    <NormalizedWorkObservation as Json>::json(model),
                    "question"@,
                    <String as Json>::json(question),
                ),
        },
{
    match model {
        NormalizedWorkObservationView::Breadcrumb { category, summary } => {
            let b0 = Seq::<char>::empty();
            let b1 = with_member(b0, "kind"@, "\"breadcrumb\""@);
            members_are_written(b0, "kind"@, "\"breadcrumb\""@);
            let b2 = with_member(b1, "category"@, <NormalizedBreadcrumbKind as Json>::json(category));
            members_are_written(b1, "category"@, <NormalizedBreadcrumbKind as Json>::json(category));
            let b3 = with_member(b2, "summary"@, <String as Json>::json(summary));
            members_are_written(b2, "summary"@, <String as Json>::json(summary));
            objects_write_their_body(b3);
        },
        NormalizedWorkObservationView::TestOutcome { test_name, status, summary } => {
            let b0 = Seq::<char>::empty();
            let b1 = with_member(b0, "kind"@, "\"test_outcome\""@);
            members_are_written(b0, "kind"@, "\"test_outcome\""@);
            let b2 = with_member(b1, "test_name"@, <String as Json>::json(test_name));
            members_are_written(b1, "test_name"@, <String as Json>::json(test_name));
            let b3 = with_member(b2, "status"@, <TestOutcomeStatus as Json>::json(status));
            members_are_written(b2, "status"@, <TestOutcomeStatus as Json>::json(status));
            let b4 = with_member(b3, "summary"@, <String as Json>::json(summary));
            members_are_written(b3, "summary"@, <String as Json>::json(summary));
            objects_write_their_body(b4);
        },
        NormalizedWorkObservationView::Diff { summary, artifact_refs } => {
            let b0 = Seq::<char>::empty();
            let b1 = with_member(b0, "kind"@, "\"diff\""@);
            members_are_written(b0, "kind"@, "\"diff\""@);
            let b2 = with_member(b1, "summary"@, <String as Json>::json(summary));
            members_are_written(b1, "summary"@, <String as Json>::json(summary));
            let b3 = with_member(b2, "artifact_refs"@, <Vec<ArtifactRef> as Json>::json(artifact_refs));
            members_are_written(b2, "artifact_refs"@, <Vec<ArtifactRef> as Json>::json(artifact_refs));
            objects_write_their_body(b3);
        },
        NormalizedWorkObservationView::ContextUse { context, disposition, reason } => {
            let b0 = Seq::<char>::empty();
            let b1 = with_member(b0, "kind"@, "\"context_use\""@);
            members_are_written(b0, "kind"@, "\"context_use\""@);
            let b2 = with_member(b1, "context"@, <ContextRevisionRef as Json>::json(context));
            members_are_written(b1, "context"@, <ContextRevisionRef as Json>::json(context));
            let b3 = with_member(b2, "disposition"@, <ContextUseDisposition as Json>::json(disposition));
            members_are_written(b2, "disposition"@, <ContextUseDisposition as Json>::json(disposition));
            let b4 = with_member(b3, "reason"@, <String as Json>::json(reason));
            members_are_written(b3, "reason"@, <String as Json>::json(reason));
            objects_write_their_body(b4);
        },
        NormalizedWorkObservationView::Artifact { artifact, action, summary } => {
            let b0 = Seq::<char>::empty();
            let b1 = with_member(b0, "kind"@, "\"artifact\""@);
            members_are_written(b0, "kind"@, "\"artifact\""@);
            let b2 = with_member(b1, "artifact"@, <ArtifactRef as Json>::json(artifact));
            members_are_written(b1, "artifact"@, <ArtifactRef as Json>::json(artifact));
            let b3 = with_member(b2, "action"@, <ArtifactAction as Json>::json(action));
            members_are_written(b2, "action"@, <ArtifactAction as Json>::json(action));
            let b4 = with_member(b3, "summary"@, <String as Json>::json(summary));
            members_are_written(b3, "summary"@, <String as Json>::json(summary));
            objects_write_their_body(b4);
        },
        NormalizedWorkObservationView::Interface { interface, observation } => {
            let b0 = Seq::<char>::empty();
            let b1 = with_member(b0, "kind"@, "\"interface\""@);
            members_are_written(b0, "kind"@, "\"interface\""@);
            let b2 = with_member(b1, "interface"@, <ArtifactRef as Json>::json(interface));
            members_are_written(b1, "interface"@, <ArtifactRef as Json>::json(interface));
            let b3 = with_member(b2, "observation"@, <String as Json>::json(observation));
            members_are_written(b2, "observation"@, <String as Json>::json(observation));
            objects_write_their_body(b3);
        },
        NormalizedWorkObservationView::Validation { conclusion, evidence_refs } => {
            let b0 = Seq::<char>::empty();
            let b1 = with_member(b0, "kind"@, "\"validation\""@);
            members_are_written(b0, "kind"@, "\"validation\""@);
            let b2 = with_member(b1, "conclusion"@, <String as Json>::json(conclusion));
            members_are_written(b1, "conclusion"@, <String as Json>::json(conclusion));
            let b3 = with_member(b2, "evidence_refs"@, <Vec<CaptureEvidenceRef> as Json>::json(evidence_refs));
            members_are_written(b2, "evidence_refs"@, <Vec<CaptureEvidenceRef> as Json>::json(evidence_refs));
            objects_write_their_body(b3);
        },
        NormalizedWorkObservationView::InlineValidation { evidence } => {
            let b0 = Seq::<char>::empty();
            let b1 = with_member(b0, "kind"@, "\"inline_validation\""@);
            members_are_written(b0, "kind"@, "\"inline_validation\""@);
            let b2 = with_member(b1, "evidence"@, <EvidenceSnapshotDraft as Json>::json(evidence));
            members_are_written(b1, "evidence"@, <EvidenceSnapshotDraft as Json>::json(evidence));
            objects_write_their_body(b2);
        },
        NormalizedWorkObservationView::UnresolvedQuestion { question } => {
            let b0 = Seq::<char>::empty();
            let b1 = with_member(b0, "kind"@, "\"unresolved_question\""@);
            members_are_written(b0, "kind"@, "\"unresolved_question\""@);
            let b2 = with_member(b1, "question"@, <String as Json>::json(question));
            members_are_written(b1, "question"@, <String as Json>::json(question));
            objects_write_their_body(b2);
        },
    }
}

/// The JSON text of [`WorkEpisodeStatus`] writes its kind and every field of it under its own name.
pub proof fn work_episode_status_json_writes_every_field(model: WorkEpisodeStatus)
    ensures
        match model {
            WorkEpisodeStatus::Open => writes(<WorkEpisodeStatus as Json>::json(model), "status"@, "\"open\""@),
            WorkEpisodeStatus::Closed { final_checkpoint_id } => writes(
                <WorkEpisodeStatus as Json>::json(model),
                "status"@,
                "\"closed\""@,
            )
                && writes(
                    <WorkEpisodeStatus as Json>::json(model),
                    "final_checkpoint_id"@,
                    <AgentCheckpointId as Json>::json(final_checkpoint_id),
                ),
        },
{
    match model {
        WorkEpisodeStatus::Open => {
            let b0 = Seq::<char>::empty();
            let b1 = with_member(b0, "status"@, "\"open\""@);
            members_are_written(b0, "status"@, "\"open\""@);
            objects_write_their_body(b1);
        },
        WorkEpisodeStatus::Closed { final_checkpoint_id } => {
            let b0 = Seq::<char>::empty();
            let b1 = with_member(b0, "status"@, "\"closed\""@);
            members_are_written(b0, "status"@, "\"closed\""@);
            let b2 = with_member(b1, "final_checkpoint_id"@, <AgentCheckpointId as Json>::json(final_checkpoint_id));
            members_are_written(b1, "final_checkpoint_id"@, <AgentCheckpointId as Json>::json(final_checkpoint_id));
            objects_write_their_body(b2);
        },
    }
}

/// Every [`CandidateAnalysisStatus`] is written under a name of its own.
pub proof fn candidate_analysis_status_json_names_every_variant()
    ensures
        <CandidateAnalysisStatus as Json>::json(CandidateAnalysisStatus::Pending) == "\"pending\""@,
        <CandidateAnalysisStatus as Json>::json(CandidateAnalysisStatus::Complete) == "\"complete\""@,
        <CandidateAnalysisStatus as Json>::json(CandidateAnalysisStatus::Failed) == "\"failed\""@,
{
}

/// Every [`CandidateAssessmentRelation`] is written under a name of its own.
pub proof fn candidate_assessment_relation_json_names_every_variant()
    ensures
        <CandidateAssessmentRelation as Json>::json(
            CandidateAssessmentRelation::ExactDuplicate,
        ) == "\"exact_duplicate\""@,
        <CandidateAssessmentRelation as Json>::json(CandidateAssessmentRelation::Supports) == "\"supports\""@,
        <CandidateAssessmentRelation as Json>::json(CandidateAssessmentRelation::Revises) == "\"revises\""@,
        <CandidateAssessmentRelation as Json>::json(
            CandidateAssessmentRelation::PotentialContradiction,
        ) == "\"potential_contradiction\""@,
        <CandidateAssessmentRelation as Json>::json(
            CandidateAssessmentRelation::UnresolvedRelated,
        ) == "\"unresolved_related\""@,
        <CandidateAssessmentRelation as Json>::json(CandidateAssessmentRelation::Novel) == "\"novel\""@,
{
}

/// The JSON text of [`CandidateAssessmentPath`] writes its kind and every field of it under its own name.
pub proof fn candidate_assessment_path_json_writes_every_field(model: CandidateAssessmentPathView)
    ensures
        match model {
            CandidateAssessmentPathView::CanonicalDraftEquality => {
                writes(<CandidateAssessmentPath as Json>::json(model), "kind"@, "\"canonical_draft_equality\""@)
            },
            CandidateAssessmentPathView::StatementEquality => {
                writes(<CandidateAssessmentPath as Json>::json(model), "kind"@, "\"statement_equality\""@)
            },
            CandidateAssessmentPathView::TopicEquality { topic_key } => writes(
                <CandidateAssessmentPath as Json>::json(model),
                "kind"@,
                "\"topic_equality\""@,
            )
                && writes(
                    <CandidateAssessmentPath as Json>::json(model),
                    "topic_key"@,
                    <String as Json>::json(topic_key),
                ),
            CandidateAssessmentPathView::ExplicitRelatedContext => {
                writes(<CandidateAssessmentPath as Json>::json(model), "kind"@, "\"explicit_related_context\""@)
            },
            CandidateAssessmentPathView::ExactArtifactGraph { artifact } => writes(
                <CandidateAssessmentPath as Json>::json(model),
                "kind"@,
                "\"exact_artifact_graph\""@,
            )
                && writes(
                    <CandidateAssessmentPath as Json>::json(model),
                    "artifact"@,
                    <ArtifactRef as Json>::json(artifact),
                ),
            CandidateAssessmentPathView::ContextRelationHop { relation, depth } => writes(
                <CandidateAssessmentPath as Json>::json(model),
                "kind"@,
                "\"context_relation_hop\""@,
            )
                && writes(
                    <CandidateAssessmentPath as Json>::json(model),
                    "relation"@,
                    <ContextRelationKind as Json>::json(relation),
                )
                && writes(<CandidateAssessmentPath as Json>::json(model), "depth"@, <u8 as Json>::json(depth)),
            CandidateAssessmentPathView::ContextFullText { matched_terms } => writes(
                <CandidateAssessmentPath as Json>::json(model),
                "kind"@,
                "\"context_full_text\""@,
            )
                && writes(
                    <CandidateAssessmentPath as Json>::json(model),
                    "matched_terms"@,
                    <Vec<String> as Json>::json(matched_terms),
                ),
            CandidateAssessmentPathView::ScopeOverlap { domains, platforms, conditions } => writes(
                <CandidateAssessmentPath as Json>::json(model),
                "kind"@,
                "\"scope_overlap\""@,
            )
                && writes(
                    <CandidateAssessmentPath as Json>::json(model),
                    "domains"@,
                    <Vec<String> as Json>::json(domains),
                )
                && writes(
                    <CandidateAssessmentPath as Json>::json(model),
                    "platforms"@,
                    <Vec<String> as Json>::json(platforms),
                )
                && writes(
                    <CandidateAssessmentPath as Json>::json(model),
                    "conditions"@,
                    <Vec<String> as Json>::json(conditions),
                ),
            CandidateAssessmentPathView::SafetyDiagnostic { reason } => writes(
                <CandidateAssessmentPath as Json>::json(model),
                "kind"@,
                "\"safety_diagnostic\""@,
            )
                && writes(<CandidateAssessmentPath as Json>::json(model), "reason"@, <String as Json>::json(reason)),
            CandidateAssessmentPathView::NoSufficientCandidate => {
                writes(<CandidateAssessmentPath as Json>::json(model), "kind"@, "\"no_sufficient_candidate\""@)
            },
        },
{
    match model {
        CandidateAssessmentPathView::CanonicalDraftEquality => {
            let b0 = Seq::<char>::empty();
            let b1 = with_member(b0, "kind"@, "\"canonical_draft_equality\""@);
            members_are_written(b0, "kind"@, "\"canonical_draft_equality\""@);
            objects_write_their_body(b1);
        },
        CandidateAssessmentPathView::StatementEquality => {
            let b0 = Seq::<char>::empty();
            let b1 = with_member(b0, "kind"@, "\"statement_equality\""@);
            members_are_written(b0, "kind"@, "\"statement_equality\""@);
            objects_write_their_body(b1);
        },
        CandidateAssessmentPathView::TopicEquality { topic_key } => {
            let b0 = Seq::<char>::empty();
            let b1 = with_member(b0, "kind"@, "\"topic_equality\""@);
            members_are_written(b0, "kind"@, "\"topic_equality\""@);
            let b2 = with_member(b1, "topic_key"@, <String as Json>::json(topic_key));
            members_are_written(b1, "topic_key"@, <String as Json>::json(topic_key));
            objects_write_their_body(b2);
        },
        CandidateAssessmentPathView::ExplicitRelatedContext => {
            let b0 = Seq::<char>::empty();
            let b1 = with_member(b0, "kind"@, "\"explicit_related_context\""@);
            members_are_written(b0, "kind"@, "\"explicit_related_context\""@);
            objects_write_their_body(b1);
        },
        CandidateAssessmentPathView::ExactArtifactGraph { artifact } => {
            let b0 = Seq::<char>::empty();
            let b1 = with_member(b0, "kind"@, "\"exact_artifact_graph\""@);
            members_are_written(b0, "kind"@, "\"exact_artifact_graph\""@);
            let b2 = with_member(b1, "artifact"@, <ArtifactRef as Json>::json(artifact));
            members_are_written(b1, "artifact"@, <ArtifactRef as Json>::json(artifact));
            objects_write_their_body(b2);
        },
        CandidateAssessmentPathView::ContextRelationHop { relation, depth } => {
            let b0 = Seq::<char>::empty();
            let b1 = with_member(b0, "kind"@, "\"context_relation_hop\""@);
            members_are_written(b0, "kind"@, "\"context_relation_hop\""@);
            let b2 = with_member(b1, "relation"@, <ContextRelationKind as Json>::json(relation));
            members_are_written(b1, "relation"@, <ContextRelationKind as Json>::json(relation));
            let b3 = with_member(b2, "depth"@, <u8 as Json>::json(depth));
            members_are_written(b2, "depth"@, <u8 as Json>::json(depth));
            objects_write_their_body(b3);
        },
        CandidateAssessmentPathView::ContextFullText { matched_terms } => {
            let b0 = Seq::<char>::empty();
            let b1 = with_member(b0, "kind"@, "\"context_full_text\""@);
            members_are_written(b0, "kind"@, "\"context_full_text\""@);
            let b2 = with_member(b1, "matched_terms"@, <Vec<String> as Json>::json(matched_terms));
            members_are_written(b1, "matched_terms"@, <Vec<String> as Json>::json(matched_terms));
            objects_write_their_body(b2);
        },
        CandidateAssessmentPathView::ScopeOverlap { domains, platforms, conditions } => {
            let b0 = Seq::<char>::empty();
            let b1 = with_member(b0, "kind"@, "\"scope_overlap\""@);
            members_are_written(b0, "kind"@, "\"scope_overlap\""@);
            let b2 = with_member(b1, "domains"@, <Vec<String> as Json>::json(domains));
            members_are_written(b1, "domains"@, <Vec<String> as Json>::json(domains));
            let b3 = with_member(b2, "platforms"@, <Vec<String> as Json>::json(platforms));
            members_are_written(b2, "platforms"@, <Vec<String> as Json>::json(platforms));
            let b4 = with_member(b3, "conditions"@, <Vec<String> as Json>::json(conditions));
            members_are_written(b3, "conditions"@, <Vec<String> as Json>::json(conditions));
            objects_write_their_body(b4);
        },
        CandidateAssessmentPathView::SafetyDiagnostic { reason } => {
            let b0 = Seq::<char>::empty();
            let b1 = with_member(b0, "kind"@, "\"safety_diagnostic\""@);
            members_are_written(b0, "kind"@, "\"safety_diagnostic\""@);
            let b2 = with_member(b1, "reason"@, <String as Json>::json(reason));
            members_are_written(b1, "reason"@, <String as Json>::json(reason));
            objects_write_their_body(b2);
        },
        CandidateAssessmentPathView::NoSufficientCandidate => {
            let b0 = Seq::<char>::empty();
            let b1 = with_member(b0, "kind"@, "\"no_sufficient_candidate\""@);
            members_are_written(b0, "kind"@, "\"no_sufficient_candidate\""@);
            objects_write_their_body(b1);
        },
    }
}

/// Every [`RecommendedSpaceRole`] is written under a name of its own.
pub proof fn recommended_space_role_json_names_every_variant()
    ensures
        <RecommendedSpaceRole as Json>::json(RecommendedSpaceRole::Primary) == "\"primary\""@,
        <RecommendedSpaceRole as Json>::json(RecommendedSpaceRole::Related) == "\"related\""@,
{
}

/// The JSON text of [`CandidateSpaceRecommendationPath`] writes its kind and every field of it under its own name.
pub proof fn candidate_space_recommendation_path_json_writes_every_field(model: CandidateSpaceRecommendationPathView)
    ensures
        match model {
            CandidateSpaceRecommendationPathView::CandidateTarget { relation, target } => writes(
                <CandidateSpaceRecommendationPath as Json>::json(model),
                "kind"@,
                "\"candidate_target\""@,
            )
                && writes(
                    <CandidateSpaceRecommendationPath as Json>::json(model),
                    "relation"@,
                    <CandidateAssessmentRelation as Json>::json(relation),
                )
                && writes(
                    <CandidateSpaceRecommendationPath as Json>::json(model),
                    "target"@,
                    <ContextRevisionRef as Json>::json(target),
                ),
            CandidateSpaceRecommendationPathView::SourceTaskAssociation { reason } => writes(
                <CandidateSpaceRecommendationPath as Json>::json(model),
                "kind"@,
                "\"source_task_association\""@,
            )
                && writes(
                    <CandidateSpaceRecommendationPath as Json>::json(model),
                    "reason"@,
                    <String as Json>::json(reason),
                ),
            CandidateSpaceRecommendationPathView::SpaceIntentMatch { matched_terms } => writes(
                <CandidateSpaceRecommendationPath as Json>::json(model),
                "kind"@,
                "\"space_intent_match\""@,
            )
                && writes(
                    <CandidateSpaceRecommendationPath as Json>::json(model),
                    "matched_terms"@,
                    <Vec<String> as Json>::json(matched_terms),
                ),
            CandidateSpaceRecommendationPathView::IntentConflict { head_count } => writes(
                <CandidateSpaceRecommendationPath as Json>::json(model),
                "kind"@,
                "\"intent_conflict\""@,
            )
                && writes(
                    <CandidateSpaceRecommendationPath as Json>::json(model),
                    "head_count"@,
                    <usize as Json>::json(head_count),
                ),
            CandidateSpaceRecommendationPathView::ProposedFromCandidate => {
                writes(
                    <CandidateSpaceRecommendationPath as Json>::json(model),
                    "kind"@,
                    "\"proposed_from_candidate\""@,
                )
            },
            CandidateSpaceRecommendationPathView::ManualReview => {
                writes(<CandidateSpaceRecommendationPath as Json>::json(model), "kind"@, "\"manual_review\""@)
            },
        },
{
    match model {
        CandidateSpaceRecommendationPathView::CandidateTarget { relation, target } => {
            let b0 = Seq::<char>::empty();
            let b1 = with_member(b0, "kind"@, "\"candidate_target\""@);
            members_are_written(b0, "kind"@, "\"candidate_target\""@);
            let b2 = with_member(b1, "relation"@, <CandidateAssessmentRelation as Json>::json(relation));
            members_are_written(b1, "relation"@, <CandidateAssessmentRelation as Json>::json(relation));
            let b3 = with_member(b2, "target"@, <ContextRevisionRef as Json>::json(target));
            members_are_written(b2, "target"@, <ContextRevisionRef as Json>::json(target));
            objects_write_their_body(b3);
        },
        CandidateSpaceRecommendationPathView::SourceTaskAssociation { reason } => {
            let b0 = Seq::<char>::empty();
            let b1 = with_member(b0, "kind"@, "\"source_task_association\""@);
            members_are_written(b0, "kind"@, "\"source_task_association\""@);
            let b2 = with_member(b1, "reason"@, <String as Json>::json(reason));
            members_are_written(b1, "reason"@, <String as Json>::json(reason));
            objects_write_their_body(b2);
        },
        CandidateSpaceRecommendationPathView::SpaceIntentMatch { matched_terms } => {
            let b0 = Seq::<char>::empty();
            let b1 = with_member(b0, "kind"@, "\"space_intent_match\""@);
            members_are_written(b0, "kind"@, "\"space_intent_match\""@);
            let b2 = with_member(b1, "matched_terms"@, <Vec<String> as Json>::json(matched_terms));
            members_are_written(b1, "matched_terms"@, <Vec<String> as Json>::json(matched_terms));
            objects_write_their_body(b2);
        },
        CandidateSpaceRecommendationPathView::IntentConflict { head_count } => {
            let b0 = Seq::<char>::empty();
            let b1 = with_member(b0, "kind"@, "\"intent_conflict\""@);
            members_are_written(b0, "kind"@, "\"intent_conflict\""@);
            let b2 = with_member(b1, "head_count"@, <usize as Json>::json(head_count));
            members_are_written(b1, "head_count"@, <usize as Json>::json(head_count));
            objects_write_their_body(b2);
        },
        CandidateSpaceRecommendationPathView::ProposedFromCandidate => {
            let b0 = Seq::<char>::empty();
            let b1 = with_member(b0, "kind"@, "\"proposed_from_candidate\""@);
            members_are_written(b0, "kind"@, "\"proposed_from_candidate\""@);
            objects_write_their_body(b1);
        },
        CandidateSpaceRecommendationPathView::ManualReview => {
            let b0 = Seq::<char>::empty();
            let b1 = with_member(b0, "kind"@, "\"manual_review\""@);
            members_are_written(b0, "kind"@, "\"manual_review\""@);
            objects_write_their_body(b1);
        },
    }
}

/// The JSON text of [`CandidateSpaceRecommendation`] writes its kind and every field of it under its own name.
pub proof fn candidate_space_recommendation_json_writes_every_field(model: CandidateSpaceRecommendationView)
    ensures
        match model {
            CandidateSpaceRecommendationView::Existing { space_id, role, rationale, confidence, paths } => writes(
                <CandidateSpaceRecommendation as Json>::json(model),
                "kind"@,
                "\"existing\""@,
            )
                && writes(
                    <CandidateSpaceRecommendation as Json>::json(model),
                    "space_id"@,
                    <SpaceId as Json>::json(space_id),
                )
                && writes(
                    <CandidateSpaceRecommendation as Json>::json(model),
                    "role"@,
                    <RecommendedSpaceRole as Json>::json(role),
                )
                && writes(
                    <CandidateSpaceRecommendation as Json>::json(model),
                    "rationale"@,
                    <String as Json>::json(rationale),
                )
                && writes(
                    <CandidateSpaceRecommendation as Json>::json(model),
                    "confidence"@,
                    <CandidateConfidence as Json>::json(confidence),
                )
                && writes(
                    <CandidateSpaceRecommendation as Json>::json(model),
                    "paths"@,
                    <Vec<CandidateSpaceRecommendationPath> as Json>::json(paths),
                ),
            CandidateSpaceRecommendationView::ProposedNewSpaceIntent { proposed_new_space_intent, rationale, confidence, paths } => writes(
                <CandidateSpaceRecommendation as Json>::json(model),
                "kind"@,
                "\"proposed_new_space_intent\""@,
            )
                && writes(
                    <CandidateSpaceRecommendation as Json>::json(model),
                    "proposed_new_space_intent"@,
                    <IntentSnapshot as Json>::json(proposed_new_space_intent),
                )
                && writes(
                    <CandidateSpaceRecommendation as Json>::json(model),
                    "rationale"@,
                    <String as Json>::json(rationale),
                )
                && writes(
                    <CandidateSpaceRecommendation as Json>::json(model),
                    "confidence"@,
                    <CandidateConfidence as Json>::json(confidence),
                )
                && writes(
                    <CandidateSpaceRecommendation as Json>::json(model),
                    "paths"@,
                    <Vec<CandidateSpaceRecommendationPath> as Json>::json(paths),
                ),
        },
{
    match model {
        CandidateSpaceRecommendationView::Existing { space_id, role, rationale, confidence, paths } => {
            let b0 = Seq::<char>::empty();
            let b1 = with_member(b0, "kind"@, "\"existing\""@);
            members_are_written(b0, "kind"@, "\"existing\""@);
            let b2 = with_member(b1, "space_id"@, <SpaceId as Json>::json(space_id));
            members_are_written(b1, "space_id"@, <SpaceId as Json>::json(space_id));
            let b3 = with_member(b2, "role"@, <RecommendedSpaceRole as Json>::json(role));
            members_are_written(b2, "role"@, <RecommendedSpaceRole as Json>::json(role));
            let b4 = with_member(b3, "rationale"@, <String as Json>::json(rationale));
            members_are_written(b3, "rationale"@, <String as Json>::json(rationale));
            let b5 = with_member(b4, "confidence"@, <CandidateConfidence as Json>::json(confidence));
            members_are_written(b4, "confidence"@, <CandidateConfidence as Json>::json(confidence));
            let b6 = with_member(b5, "paths"@, <Vec<CandidateSpaceRecommendationPath> as Json>::json(paths));
            members_are_written(b5, "paths"@, <Vec<CandidateSpaceRecommendationPath> as Json>::json(paths));
            objects_write_their_body(b6);
        },
        CandidateSpaceRecommendationView::ProposedNewSpaceIntent {
            proposed_new_space_intent,
            rationale,
            confidence,
            paths,
        } => {
            let b0 = Seq::<char>::empty();
            let b1 = with_member(b0, "kind"@, "\"proposed_new_space_intent\""@);
            members_are_written(b0, "kind"@, "\"proposed_new_space_intent\""@);
            let b2 = with_member(
                b1,
                "proposed_new_space_intent"@,
                <IntentSnapshot as Json>::json(proposed_new_space_intent),
            );
            members_are_written(
                b1,
                "proposed_new_space_intent"@,
                <IntentSnapshot as Json>::json(proposed_new_space_intent),
            );
            let b3 = with_member(b2, "rationale"@, <String as Json>::json(rationale));
            members_are_written(b2, "rationale"@, <String as Json>::json(rationale));
            let b4 = with_member(b3, "confidence"@, <CandidateConfidence as Json>::json(confidence));
            members_are_written(b3, "confidence"@, <CandidateConfidence as Json>::json(confidence));
            let b5 = with_member(b4, "paths"@, <Vec<CandidateSpaceRecommendationPath> as Json>::json(paths));
            members_are_written(b4, "paths"@, <Vec<CandidateSpaceRecommendationPath> as Json>::json(paths));
            objects_write_their_body(b5);
        },
    }
}

/// Every [`AutomaticCandidateStatus`] is written under a name of its own.
pub proof fn automatic_candidate_status_json_names_every_variant()
    ensures
        <AutomaticCandidateStatus as Json>::json(AutomaticCandidateStatus::Draft) == "\"draft\""@,
        <AutomaticCandidateStatus as Json>::json(AutomaticCandidateStatus::NeedsEvidence) == "\"needs_evidence\""@,
        <AutomaticCandidateStatus as Json>::json(
            AutomaticCandidateStatus::NeedsSpaceReview,
        ) == "\"needs_space_review\""@,
        <AutomaticCandidateStatus as Json>::json(
            AutomaticCandidateStatus::ExactDuplicateReview,
        ) == "\"exact_duplicate_review\""@,
        <AutomaticCandidateStatus as Json>::json(
            AutomaticCandidateStatus::PotentialContradictionReview,
        ) == "\"potential_contradiction_review\""@,
        <AutomaticCandidateStatus as Json>::json(AutomaticCandidateStatus::ReadyForReview) == "\"ready_for_review\""@,
{
}

} // verus!
