//! Tasks: structured intents, their linear revision history, signals and Space associations.

use vstd::prelude::*;
use vstd::string::StringExecFns;

use crate::checks::{
    entry, entry_name, first_from, nothing_fails, require_text, require_text_items, require_unique,
    text_items_problem, text_problem, unique_problem,
};
use crate::engineering::is_positive_fraction;
use crate::error::{fails_as, first, given, invalid, invalid_input, ErrorView, Result};
use crate::ids::{ContextId, Identifier, SpaceId, TaskId, TaskIntentRevisionId, TaskSessionId};
use crate::json::{object, push_member, push_object, with_member, Json};
use crate::text::joined2;
use crate::value::{push_value, Value};
use crate::json_laws::{members_are_written, objects_write_their_body, writes};

verus! {

/// Requires every entry of a list to hold some text, and no entry twice.
pub open spec fn text_set_problem(values: Seq<Seq<char>>, field: Seq<char>) -> Option<ErrorView> {
    first(text_items_problem(values, field), unique_problem(values, field))
}

fn validate_text_set(values: &Vec<String>, field: &str) -> (result: Result<()>)
    ensures
        fails_as(result, text_set_problem(values.deep_view(), field@)),
{
    require_text_items(values, field)?;
    require_unique(values, field)
}

/// A structured, revisable understanding of the current engineering task.
///
/// A Task Intent deliberately has no Context Space identity. Space relevance is
/// represented separately by zero or more [`TaskSpaceAssociation`] values.
#[derive(Clone, Debug, PartialEq, Eq)]
pub struct TaskIntent {
    pub task_id: TaskId,
    pub goal: String,
    pub desired_change: String,
    pub in_scope: Vec<String>,
    pub out_of_scope: Vec<String>,
    pub domains: Vec<String>,
    pub platforms: Vec<String>,
    pub constraints: Vec<String>,
    pub acceptance_conditions: Vec<String>,
    pub artifacts: Vec<String>,
    pub interfaces: Vec<String>,
    pub unknowns: Vec<String>,
}

/// The model of [`TaskIntent`].
pub struct TaskIntentView {
    pub task_id: TaskId,
    pub goal: Seq<char>,
    pub desired_change: Seq<char>,
    pub in_scope: Seq<Seq<char>>,
    pub out_of_scope: Seq<Seq<char>>,
    pub domains: Seq<Seq<char>>,
    pub platforms: Seq<Seq<char>>,
    pub constraints: Seq<Seq<char>>,
    pub acceptance_conditions: Seq<Seq<char>>,
    pub artifacts: Seq<Seq<char>>,
    pub interfaces: Seq<Seq<char>>,
    pub unknowns: Seq<Seq<char>>,
}

impl DeepView for TaskIntent {
    type V = TaskIntentView;

    open spec fn deep_view(&self) -> TaskIntentView {
        TaskIntentView {
            task_id: self.task_id.deep_view(),
            goal: self.goal.deep_view(),
            desired_change: self.desired_change.deep_view(),
            in_scope: self.in_scope.deep_view(),
            out_of_scope: self.out_of_scope.deep_view(),
            domains: self.domains.deep_view(),
            platforms: self.platforms.deep_view(),
            constraints: self.constraints.deep_view(),
            acceptance_conditions: self.acceptance_conditions.deep_view(),
            artifacts: self.artifacts.deep_view(),
            interfaces: self.interfaces.deep_view(),
            unknowns: self.unknowns.deep_view(),
        }
    }
}

impl Value for TaskIntent {
    fn copied(&self) -> (copy: Self) {
        TaskIntent {
            task_id: self.task_id.copied(),
            goal: self.goal.copied(),
            desired_change: self.desired_change.copied(),
            in_scope: self.in_scope.copied(),
            out_of_scope: self.out_of_scope.copied(),
            domains: self.domains.copied(),
            platforms: self.platforms.copied(),
            constraints: self.constraints.copied(),
            acceptance_conditions: self.acceptance_conditions.copied(),
            artifacts: self.artifacts.copied(),
            interfaces: self.interfaces.copied(),
            unknowns: self.unknowns.copied(),
        }
    }

    fn same(&self, other: &Self) -> (equal: bool) {
        self.task_id.same(&other.task_id)
            && self.goal.same(&other.goal)
            && self.desired_change.same(&other.desired_change)
            && self.in_scope.same(&other.in_scope)
            && self.out_of_scope.same(&other.out_of_scope)
            && self.domains.same(&other.domains)
            && self.platforms.same(&other.platforms)
            && self.constraints.same(&other.constraints)
            && self.acceptance_conditions.same(&other.acceptance_conditions)
            && self.artifacts.same(&other.artifacts)
            && self.interfaces.same(&other.interfaces)
            && self.unknowns.same(&other.unknowns)
    }
}

impl TaskIntentView {
    /// The JSON members, behind those of `body`.
    pub open spec fn json_members(self, body: Seq<char>) -> Seq<char> {
        let body = with_member(body, "task_id"@, <TaskId as Json>::json(self.task_id));
        let body = with_member(body, "goal"@, <String as Json>::json(self.goal));
        let body = with_member(body, "desired_change"@, <String as Json>::json(self.desired_change));
        let body = with_member(body, "in_scope"@, <Vec<String> as Json>::json(self.in_scope));
        let body = with_member(body, "out_of_scope"@, <Vec<String> as Json>::json(self.out_of_scope));
        let body = with_member(body, "domains"@, <Vec<String> as Json>::json(self.domains));
        let body = with_member(body, "platforms"@, <Vec<String> as Json>::json(self.platforms));
        let body = with_member(body, "constraints"@, <Vec<String> as Json>::json(self.constraints));
        let body = with_member(
            body,
            "acceptance_conditions"@,
            <Vec<String> as Json>::json(self.acceptance_conditions),
        );
        let body = with_member(body, "artifacts"@, <Vec<String> as Json>::json(self.artifacts));
        let body = with_member(body, "interfaces"@, <Vec<String> as Json>::json(self.interfaces));
        let body = with_member(body, "unknowns"@, <Vec<String> as Json>::json(self.unknowns));
        body
    }
}

impl TaskIntent {
    fn push_members(&self, text: &mut String)
        ensures
            final(text)@ == self.deep_view().json_members(old(text)@),
    {
        push_member(text, "task_id", &self.task_id);
        push_member(text, "goal", &self.goal);
        push_member(text, "desired_change", &self.desired_change);
        push_member(text, "in_scope", &self.in_scope);
        push_member(text, "out_of_scope", &self.out_of_scope);
        push_member(text, "domains", &self.domains);
        push_member(text, "platforms", &self.platforms);
        push_member(text, "constraints", &self.constraints);
        push_member(text, "acceptance_conditions", &self.acceptance_conditions);
        push_member(text, "artifacts", &self.artifacts);
        push_member(text, "interfaces", &self.interfaces);
        push_member(text, "unknowns", &self.unknowns);
    }
}

impl Json for TaskIntent {
    open spec fn json(model: TaskIntentView) -> Seq<char> {
        object(model.json_members(Seq::<char>::empty()))
    }

    fn write_json(&self, out: &mut String) {
        let mut body = String::new();
        self.push_members(&mut body);
        push_object(out, body.as_str());
    }
}

impl TaskIntentView {
    /// Why a Task Intent is invalid, if it is.
    pub open spec fn problem(self) -> Option<ErrorView> {
        first(
            text_problem(self.goal, "task_intent.goal"@),
            first(
                text_problem(self.desired_change, "task_intent.desired_change"@),
                first(
                    text_set_problem(self.in_scope, "task_intent.in_scope"@),
                    first(
                        text_set_problem(self.out_of_scope, "task_intent.out_of_scope"@),
                        first(
                            text_set_problem(self.domains, "task_intent.domains"@),
                            first(
                                text_set_problem(self.platforms, "task_intent.platforms"@),
                                first(
                                    text_set_problem(self.constraints, "task_intent.constraints"@),
                                    first(
                                        text_set_problem(
                                            self.acceptance_conditions,
                                            "task_intent.acceptance_conditions"@,
                                        ),
                                        first(
                                            text_set_problem(self.artifacts, "task_intent.artifacts"@),
                                            first(
                                                text_set_problem(self.interfaces, "task_intent.interfaces"@),
                                                text_set_problem(self.unknowns, "task_intent.unknowns"@),
                                            ),
                                        ),
                                    ),
                                ),
                            ),
                        ),
                    ),
                ),
            ),
        )
    }
}

impl TaskIntent {
    /// Validates that the Task has a meaningful target and unambiguous lists.
    ///
    /// Empty lists are valid because an early, provisional Task Intent may know
    /// only its target. Entries that are present must be non-empty and unique.
    pub fn validate(&self) -> (result: Result<()>)
        ensures
            fails_as(result, self.deep_view().problem()),
    {
        require_text(self.goal.as_str(), "task_intent.goal")?;
        require_text(self.desired_change.as_str(), "task_intent.desired_change")?;
        validate_text_set(&self.in_scope, "task_intent.in_scope")?;
        validate_text_set(&self.out_of_scope, "task_intent.out_of_scope")?;
        validate_text_set(&self.domains, "task_intent.domains")?;
        validate_text_set(&self.platforms, "task_intent.platforms")?;
        validate_text_set(&self.constraints, "task_intent.constraints")?;
        validate_text_set(&self.acceptance_conditions, "task_intent.acceptance_conditions")?;
        validate_text_set(&self.artifacts, "task_intent.artifacts")?;
        validate_text_set(&self.interfaces, "task_intent.interfaces")?;
        validate_text_set(&self.unknowns, "task_intent.unknowns")
    }
}

/// External Agent coordinates used only to locate a local Task Session.
///
/// The locator is deliberately not a domain identifier. Reusing the same
/// external session key under a different Agent kind denotes a different
/// locator, and neither component establishes durable knowledge identity.
#[derive(Clone, Debug, PartialEq, Eq, Hash)]
pub struct ExternalSessionLocator {
    pub agent_kind: String,
    pub external_session_id: String,
}

/// The model of [`ExternalSessionLocator`].
pub struct ExternalSessionLocatorView {
    pub agent_kind: Seq<char>,
    pub external_session_id: Seq<char>,
}

impl DeepView for ExternalSessionLocator {
    type V = ExternalSessionLocatorView;

    open spec fn deep_view(&self) -> ExternalSessionLocatorView {
        ExternalSessionLocatorView {
            agent_kind: self.agent_kind.deep_view(),
            external_session_id: self.external_session_id.deep_view(),
        }
    }
}

impl Value for ExternalSessionLocator {
    fn copied(&self) -> (copy: Self) {
        ExternalSessionLocator {
            agent_kind: self.agent_kind.copied(),
            external_session_id: self.external_session_id.copied(),
        }
    }

    fn same(&self, other: &Self) -> (equal: bool) {
        self.agent_kind.same(&other.agent_kind)
            && self.external_session_id.same(&other.external_session_id)
    }
}

impl ExternalSessionLocatorView {
    /// The JSON members, behind those of `body`.
    pub open spec fn json_members(self, body: Seq<char>) -> Seq<char> {
        let body = with_member(body, "agent_kind"@, <String as Json>::json(self.agent_kind));
        let body = with_member(body, "external_session_id"@, <String as Json>::json(self.external_session_id));
        body
    }
}

impl ExternalSessionLocator {
    fn push_members(&self, text: &mut String)
        ensures
            final(text)@ == self.deep_view().json_members(old(text)@),
    {
        push_member(text, "agent_kind", &self.agent_kind);
        push_member(text, "external_session_id", &self.external_session_id);
    }
}

impl Json for ExternalSessionLocator {
    open spec fn json(model: ExternalSessionLocatorView) -> Seq<char> {
        object(model.json_members(Seq::<char>::empty()))
    }

    fn write_json(&self, out: &mut String) {
        let mut body = String::new();
        self.push_members(&mut body);
        push_object(out, body.as_str());
    }
}

impl ExternalSessionLocatorView {
    /// Why a locator is invalid, if it is.
    pub open spec fn problem(self) -> Option<ErrorView> {
        first(
            text_problem(self.agent_kind, "external_session_locator.agent_kind"@),
            text_problem(self.external_session_id, "external_session_locator.external_session_id"@),
        )
    }
}

impl ExternalSessionLocator {
    /// Creates a validated locator from external Agent coordinates.
    pub fn new(agent_kind: &str, external_session_id: &str) -> (result: Result<Self>)
        ensures
            fails_as(
                result,
                (ExternalSessionLocatorView {
                    agent_kind: agent_kind@,
                    external_session_id: external_session_id@,
                }).problem(),
            ),
            result is Ok ==> result->Ok_0.deep_view() == (ExternalSessionLocatorView {
                agent_kind: agent_kind@,
                external_session_id: external_session_id@,
            }),
    {
        let locator = ExternalSessionLocator {
            agent_kind: agent_kind.to_owned(),
            external_session_id: external_session_id.to_owned(),
        };
        locator.validate()?;
        Ok(locator)
    }

    /// Validates the external coordinates without treating them as Task identity.
    pub fn validate(&self) -> (result: Result<()>)
        ensures
            fails_as(result, self.deep_view().problem()),
    {
        require_text(self.agent_kind.as_str(), "external_session_locator.agent_kind")?;
        require_text(self.external_session_id.as_str(), "external_session_locator.external_session_id")
    }
}

/// One immutable version of a Task's structured intent.
///
/// Task Intent revisions form a single local parent chain. The initial revision
/// has no parent; every successor names the immediately preceding revision.
/// Space and Workspace routing are intentionally absent.
#[derive(Clone, Debug, PartialEq, Eq)]
pub struct TaskIntentRevision {
    pub revision_id: TaskIntentRevisionId,
    pub parent_revision_id: Option<TaskIntentRevisionId>,
    pub intent: TaskIntent,
}

/// The model of [`TaskIntentRevision`].
pub struct TaskIntentRevisionView {
    pub revision_id: TaskIntentRevisionId,
    pub parent_revision_id: Option<TaskIntentRevisionId>,
    pub intent: TaskIntentView,
}

impl DeepView for TaskIntentRevision {
    type V = TaskIntentRevisionView;

    open spec fn deep_view(&self) -> TaskIntentRevisionView {
        TaskIntentRevisionView {
            revision_id: self.revision_id.deep_view(),
            parent_revision_id: self.parent_revision_id.deep_view(),
            intent: self.intent.deep_view(),
        }
    }
}

impl Value for TaskIntentRevision {
    fn copied(&self) -> (copy: Self) {
        TaskIntentRevision {
            revision_id: self.revision_id.copied(),
            parent_revision_id: self.parent_revision_id.copied(),
            intent: self.intent.copied(),
        }
    }

    fn same(&self, other: &Self) -> (equal: bool) {
        self.revision_id.same(&other.revision_id)
            && self.parent_revision_id.same(&other.parent_revision_id)
            && self.intent.same(&other.intent)
    }
}

impl TaskIntentRevisionView {
    /// The JSON members, behind those of `body`.
    pub open spec fn json_members(self, body: Seq<char>) -> Seq<char> {
        let body = with_member(body, "revision_id"@, <TaskIntentRevisionId as Json>::json(self.revision_id));
        let body = with_member(
            body,
            "parent_revision_id"@,
            <Option<TaskIntentRevisionId> as Json>::json(self.parent_revision_id),
        );
        let body = with_member(body, "intent"@, <TaskIntent as Json>::json(self.intent));
        body
    }
}

impl TaskIntentRevision {
    fn push_members(&self, text: &mut String)
        ensures
            final(text)@ == self.deep_view().json_members(old(text)@),
    {
        push_member(text, "revision_id", &self.revision_id);
        push_member(text, "parent_revision_id", &self.parent_revision_id);
        push_member(text, "intent", &self.intent);
    }
}

impl Json for TaskIntentRevision {
    open spec fn json(model: TaskIntentRevisionView) -> Seq<char> {
        object(model.json_members(Seq::<char>::empty()))
    }

    fn write_json(&self, out: &mut String) {
        let mut body = String::new();
        self.push_members(&mut body);
        push_object(out, body.as_str());
    }
}

impl TaskIntentRevisionView {
    /// Why a revision is invalid on its own, if it is.
    pub open spec fn problem(self) -> Option<ErrorView> {
        first(
            self.intent.problem(),
            given(
                self.parent_revision_id == Some(self.revision_id),
                invalid("task_intent_revision cannot name itself as parent"@),
            ),
        )
    }
}

impl TaskIntentRevision {
    /// Creates the first validated revision for a Task.
    pub fn initial(intent: TaskIntent) -> (result: Result<Self>)
        ensures
            fails_as(result, intent.deep_view().problem()),
            result is Ok ==> result->Ok_0.deep_view().intent == intent.deep_view()
                && result->Ok_0.parent_revision_id is None && result->Ok_0.revision_id.canonical(),
    {
        intent.validate()?;
        Ok(TaskIntentRevision { revision_id: TaskIntentRevisionId::new(), parent_revision_id: None, intent })
    }

    /// Creates a validated successor to an existing Task Intent revision.
    pub fn successor(parent: &Self, intent: TaskIntent) -> (result: Result<Self>)
        ensures
            fails_as(
                result,
                first(
                    parent.deep_view().problem(),
                    first(
                        intent.deep_view().problem(),
                        given(
                            intent.task_id != parent.intent.task_id,
                            invalid("task_intent_revision successor must belong to the parent task"@),
                        ),
                    ),
                ),
            ),
            result is Ok ==> result->Ok_0.deep_view().intent == intent.deep_view()
                && result->Ok_0.parent_revision_id == Some(parent.revision_id)
                && result->Ok_0.revision_id.canonical(),
    {
        parent.validate()?;
        intent.validate()?;
        if intent.task_id != parent.task_id() {
            return Err(invalid_input("task_intent_revision successor must belong to the parent task"));
        }
        Ok(
            TaskIntentRevision {
                revision_id: TaskIntentRevisionId::new(),
                parent_revision_id: Some(parent.revision_id),
                intent,
            },
        )
    }

    /// Returns the Task whose understanding this revision records.
    #[must_use]
    pub fn task_id(&self) -> (task_id: TaskId)
        ensures
            task_id == self.intent.task_id,
    {
        self.intent.task_id
    }

    /// Validates this revision without consulting a Session history.
    ///
    /// Parent existence and chain position are Session-level invariants checked
    /// by [`TaskSessionSnapshot::validate`].
    pub fn validate(&self) -> (result: Result<()>)
        ensures
            fails_as(result, self.deep_view().problem()),
    {
        self.intent.validate()?;
        if let Some(parent) = self.parent_revision_id {
            if parent == self.revision_id {
                return Err(invalid_input("task_intent_revision cannot name itself as parent"));
            }
        }
        Ok(())
    }
}

/// Kinds of observable input that can inform an engineering Task.
#[derive(Clone, Copy, Debug, PartialEq, Eq, Structural, Hash)]
pub enum TaskSignalKind {
    Prompt,
    Workspace,
    Repository,
    File,
    Symbol,
    Diff,
    Api,
    Schema,
    Test,
}

impl DeepView for TaskSignalKind {
    type V = TaskSignalKind;

    open spec fn deep_view(&self) -> TaskSignalKind {
        *self
    }
}

impl Value for TaskSignalKind {
    fn copied(&self) -> (copy: Self) {
        *self
    }

    fn same(&self, other: &Self) -> (equal: bool) {
        *self == *other
    }
}

impl Json for TaskSignalKind {
    open spec fn json(model: TaskSignalKind) -> Seq<char> {
        match model {
            TaskSignalKind::Prompt => "\"prompt\""@,
            TaskSignalKind::Workspace => "\"workspace\""@,
            TaskSignalKind::Repository => "\"repository\""@,
            TaskSignalKind::File => "\"file\""@,
            TaskSignalKind::Symbol => "\"symbol\""@,
            TaskSignalKind::Diff => "\"diff\""@,
            TaskSignalKind::Api => "\"api\""@,
            TaskSignalKind::Schema => "\"schema\""@,
            TaskSignalKind::Test => "\"test\""@,
        }
    }

    fn write_json(&self, out: &mut String) {
        match self {
            TaskSignalKind::Prompt => out.append("\"prompt\""),
            TaskSignalKind::Workspace => out.append("\"workspace\""),
            TaskSignalKind::Repository => out.append("\"repository\""),
            TaskSignalKind::File => out.append("\"file\""),
            TaskSignalKind::Symbol => out.append("\"symbol\""),
            TaskSignalKind::Diff => out.append("\"diff\""),
            TaskSignalKind::Api => out.append("\"api\""),
            TaskSignalKind::Schema => out.append("\"schema\""),
            TaskSignalKind::Test => out.append("\"test\""),
        }
    }
}

/// One observable input about the current Task.
///
/// A Workspace signal describes a code location or repository scene only; it
/// cannot identify or select a Context Space.
#[derive(Clone, Debug, PartialEq, Eq, Hash)]
pub struct TaskSignal {
    pub kind: TaskSignalKind,
    pub content: String,
}

/// The model of [`TaskSignal`].
pub struct TaskSignalView {
    pub kind: TaskSignalKind,
    pub content: Seq<char>,
}

impl DeepView for TaskSignal {
    type V = TaskSignalView;

    open spec fn deep_view(&self) -> TaskSignalView {
        TaskSignalView {
            kind: self.kind.deep_view(),
            content: self.content.deep_view(),
        }
    }
}

impl Value for TaskSignal {
    fn copied(&self) -> (copy: Self) {
        TaskSignal {
            kind: self.kind.copied(),
            content: self.content.copied(),
        }
    }

    fn same(&self, other: &Self) -> (equal: bool) {
        self.kind.same(&other.kind)
            && self.content.same(&other.content)
    }
}

impl TaskSignalView {
    /// The JSON members, behind those of `body`.
    pub open spec fn json_members(self, body: Seq<char>) -> Seq<char> {
        let body = with_member(body, "kind"@, <TaskSignalKind as Json>::json(self.kind));
        let body = with_member(body, "content"@, <String as Json>::json(self.content));
        body
    }
}

impl TaskSignal {
    fn push_members(&self, text: &mut String)
        ensures
            final(text)@ == self.deep_view().json_members(old(text)@),
    {
        push_member(text, "kind", &self.kind);
        push_member(text, "content", &self.content);
    }
}

impl Json for TaskSignal {
    open spec fn json(model: TaskSignalView) -> Seq<char> {
        object(model.json_members(Seq::<char>::empty()))
    }

    fn write_json(&self, out: &mut String) {
        let mut body = String::new();
        self.push_members(&mut body);
        push_object(out, body.as_str());
    }
}

impl TaskSignalView {
    /// Why a signal is invalid, if it is.
    pub open spec fn problem(self) -> Option<ErrorView> {
        text_problem(self.content, "task_signal.content"@)
    }
}

/// The check of each signal of a collection.
pub open spec fn signal_problem(signals: Seq<TaskSignalView>) -> spec_fn(int) -> Option<ErrorView> {
    |i: int| signals[i].problem()
}

/// Why a signal collection is invalid, if it is.
pub open spec fn signals_problem(signals: Seq<TaskSignalView>) -> Option<ErrorView> {
    first(first_from(signal_problem(signals), 0, signals.len()), unique_problem(signals, "task_signals"@))
}

impl TaskSignal {
    /// Validates one Task Signal.
    pub fn validate(&self) -> (result: Result<()>)
        ensures
            fails_as(result, self.deep_view().problem()),
    {
        require_text(self.content.as_str(), "task_signal.content")
    }

    /// Validates a Task's signal collection, rejecting duplicate observations.
    ///
    /// The empty collection is valid. Signal order and multiplicity do not carry
    /// domain meaning, so exact duplicates are rejected.
    pub fn validate_collection(signals: &Vec<Self>) -> (result: Result<()>)
        ensures
            fails_as(result, signals_problem(signals.deep_view())),
    {
        let ghost model = signals.deep_view();
        let ghost problem = signal_problem(model);
        let mut index: usize = 0;
        while index < signals.len()
            invariant
                index <= signals@.len(),
                model == signals.deep_view(),
                problem == signal_problem(model),
                first_from(problem, 0, model.len()) == first_from(problem, index as nat, model.len()),
            decreases signals@.len() - index,
        {
            assert(signals@[index as int].deep_view() == model[index as int]);
            signals[index].validate()?;
            index = index + 1;
        }
        require_unique(signals, "task_signals")
    }
}

/// Complete local runtime snapshot for one Agent Task Session.
///
/// A Task Session owns exactly one Task and a non-empty, linear Task Intent
/// revision history. Task Signals describe the engineering scene but cannot
/// route the Session or its Intent to a Context Space.
#[derive(Clone, Debug, PartialEq, Eq)]
pub struct TaskSessionSnapshot {
    pub task_session_id: TaskSessionId,
    pub task_id: TaskId,
    pub external_session_locator: ExternalSessionLocator,
    pub intent_revisions: Vec<TaskIntentRevision>,
    pub task_signals: Vec<TaskSignal>,
}

/// The model of [`TaskSessionSnapshot`].
pub struct TaskSessionSnapshotView {
    pub task_session_id: TaskSessionId,
    pub task_id: TaskId,
    pub external_session_locator: ExternalSessionLocatorView,
    pub intent_revisions: Seq<TaskIntentRevisionView>,
    pub task_signals: Seq<TaskSignalView>,
}

impl DeepView for TaskSessionSnapshot {
    type V = TaskSessionSnapshotView;

    open spec fn deep_view(&self) -> TaskSessionSnapshotView {
        TaskSessionSnapshotView {
            task_session_id: self.task_session_id.deep_view(),
            task_id: self.task_id.deep_view(),
            external_session_locator: self.external_session_locator.deep_view(),
            intent_revisions: self.intent_revisions.deep_view(),
            task_signals: self.task_signals.deep_view(),
        }
    }
}

impl Value for TaskSessionSnapshot {
    fn copied(&self) -> (copy: Self) {
        TaskSessionSnapshot {
            task_session_id: self.task_session_id.copied(),
            task_id: self.task_id.copied(),
            external_session_locator: self.external_session_locator.copied(),
            intent_revisions: self.intent_revisions.copied(),
            task_signals: self.task_signals.copied(),
        }
    }

    fn same(&self, other: &Self) -> (equal: bool) {
        self.task_session_id.same(&other.task_session_id)
            && self.task_id.same(&other.task_id)
            && self.external_session_locator.same(&other.external_session_locator)
            && self.intent_revisions.same(&other.intent_revisions)
            && self.task_signals.same(&other.task_signals)
    }
}

impl TaskSessionSnapshotView {
    /// The JSON members, behind those of `body`.
    pub open spec fn json_members(self, body: Seq<char>) -> Seq<char> {
        let body = with_member(body, "task_session_id"@, <TaskSessionId as Json>::json(self.task_session_id));
        let body = with_member(body, "task_id"@, <TaskId as Json>::json(self.task_id));
        let body = with_member(
            body,
            "external_session_locator"@,
            <ExternalSessionLocator as Json>::json(self.external_session_locator),
        );
        let body = with_member(
            body,
            "intent_revisions"@,
            <Vec<TaskIntentRevision> as Json>::json(self.intent_revisions),
        );
        let body = with_member(body, "task_signals"@, <Vec<TaskSignal> as Json>::json(self.task_signals));
        body
    }
}

impl TaskSessionSnapshot {
    fn push_members(&self, text: &mut String)
        ensures
            final(text)@ == self.deep_view().json_members(old(text)@),
    {
        push_member(text, "task_session_id", &self.task_session_id);
        push_member(text, "task_id", &self.task_id);
        push_member(text, "external_session_locator", &self.external_session_locator);
        push_member(text, "intent_revisions", &self.intent_revisions);
        push_member(text, "task_signals", &self.task_signals);
    }
}

impl Json for TaskSessionSnapshot {
    open spec fn json(model: TaskSessionSnapshotView) -> Seq<char> {
        object(model.json_members(Seq::<char>::empty()))
    }

    fn write_json(&self, out: &mut String) {
        let mut body = String::new();
        self.push_members(&mut body);
        push_object(out, body.as_str());
    }
}

impl TaskSessionSnapshotView {
    /// The parent that the revision at a position must name: the one before it.
    pub open spec fn expected_parent(self, at: int) -> Option<TaskIntentRevisionId> {
        if at == 0 {
            None
        } else {
            Some(self.intent_revisions[at - 1].revision_id)
        }
    }

    /// Whether a revision identity occurs among the first `count` revisions.
    pub open spec fn names(self, id: TaskIntentRevisionId, count: int) -> bool {
        exists|k: int| 0 <= k < count && #[trigger] self.intent_revisions[k].revision_id == id
    }

    /// The check of each revision, given those before it.
    pub open spec fn revision_problem(self) -> spec_fn(int) -> Option<ErrorView> {
        |i: int|
            first(
                self.intent_revisions[i].problem(),
                first(
                    given(
                        self.intent_revisions[i].intent.task_id != self.task_id,
                        invalid(
                            entry("task_session.intent_revisions"@, i as nat) + " must belong to the session task"@,
                        ),
                    ),
                    first(
                        given(
                            self.names(self.intent_revisions[i].revision_id, i),
                            invalid("task_session.intent_revisions must not repeat a revision"@),
                        ),
                        given(
                            self.intent_revisions[i].parent_revision_id != self.expected_parent(i),
                            invalid(
                                entry(
                                    "task_session.intent_revisions"@,
                                    i as nat,
                                ) + " must continue the parent chain"@,
                            ),
                        ),
                    ),
                ),
            )
    }

    /// Why a session is invalid, if it is.
    pub open spec fn problem(self) -> Option<ErrorView> {
        first(
            self.external_session_locator.problem(),
            first(
                signals_problem(self.task_signals),
                first(
                    given(
                        self.intent_revisions.len() == 0,
                        invalid("task_session.intent_revisions must contain an initial revision"@),
                    ),
                    first_from(self.revision_problem(), 0, self.intent_revisions.len()),
                ),
            ),
        )
    }

    /// The session with one more revision.
    pub open spec fn with_revision(self, revision: TaskIntentRevisionView) -> Self {
        TaskSessionSnapshotView { intent_revisions: self.intent_revisions.push(revision), ..self }
    }
}

/// A valid session keeps one linear history: its revisions belong to its Task, no identity
/// repeats, the first has no parent and every other names the one before it.
pub proof fn valid_session_is_linear(session: TaskSessionSnapshotView)
    requires
        session.problem() is None,
    ensures
        session.intent_revisions.len() > 0,
        forall|i: int|
            0 <= i < session.intent_revisions.len() ==> (#[trigger] session.intent_revisions[i]).parent_revision_id
                == session.expected_parent(i) && session.intent_revisions[i].intent.task_id == session.task_id,
        forall|i: int, j: int|
            0 <= i < j < session.intent_revisions.len() ==> #[trigger] session.intent_revisions[i].revision_id
                != #[trigger] session.intent_revisions[j].revision_id,
{
    let problem = session.revision_problem();
    nothing_fails(problem, 0, session.intent_revisions.len());
    assert forall|i: int| 0 <= i < session.intent_revisions.len() implies (
    #[trigger] session.intent_revisions[i]).parent_revision_id == session.expected_parent(i)
        && session.intent_revisions[i].intent.task_id == session.task_id by {
        assert(problem(i) is None);
    }
    assert forall|i: int, j: int| 0 <= i < j < session.intent_revisions.len() implies
        #[trigger] session.intent_revisions[i].revision_id != #[trigger] session.intent_revisions[j].revision_id by {
        assert(problem(j) is None);
        assert(!session.names(session.intent_revisions[j].revision_id, j));
    }
}

/// Appending a valid successor under a fresh identity keeps a session valid.
pub proof fn appending_keeps_a_session_valid(session: TaskSessionSnapshotView, revision: TaskIntentRevisionView)
    requires
        session.problem() is None,
        revision.intent.problem() is None,
        revision.intent.task_id == session.task_id,
        revision.parent_revision_id == Some(session.intent_revisions.last().revision_id),
        !session.names(revision.revision_id, session.intent_revisions.len() as int),
    ensures
        session.with_revision(revision).problem() is None,
{
    let next = session.with_revision(revision);
    let before = session.revision_problem();
    let after = next.revision_problem();
    let count = session.intent_revisions.len();
    nothing_fails(before, 0, count);
    assert(session.intent_revisions.last() == session.intent_revisions[count - 1]);
    assert(!(session.names(session.intent_revisions.last().revision_id, count as int)) ==> false) by {
        assert(session.intent_revisions[count - 1].revision_id == session.intent_revisions.last().revision_id);
    }
    assert forall|i: int| 0 <= i < count + 1 implies #[trigger] after(i) is None by {
        if i < count {
            assert(before(i) is None);
            assert(next.intent_revisions[i] == session.intent_revisions[i]);
            assert(next.names(next.intent_revisions[i].revision_id, i) ==> session.names(
                session.intent_revisions[i].revision_id,
                i,
            )) by {
                if next.names(next.intent_revisions[i].revision_id, i) {
                    let k = choose|k: int|
                        0 <= k < i && #[trigger] next.intent_revisions[k].revision_id
                            == next.intent_revisions[i].revision_id;
                    assert(session.intent_revisions[k].revision_id == session.intent_revisions[i].revision_id);
                }
            }
            if i > 0 {
                assert(next.intent_revisions[i - 1] == session.intent_revisions[i - 1]);
            }
        } else {
            assert(next.intent_revisions[i] == revision);
            assert(next.intent_revisions[i - 1] == session.intent_revisions[i - 1]);
            if next.names(revision.revision_id, i) {
                let k = choose|k: int|
                    0 <= k < i && #[trigger] next.intent_revisions[k].revision_id == revision.revision_id;
                assert(session.intent_revisions[k].revision_id == revision.revision_id);
            }
        }
    }
    nothing_fails(after, 0, count + 1);
}

impl TaskSessionSnapshot {
    /// Starts a validated local Task Session with its initial Intent revision.
    ///
    /// Empty Task Signal collections are valid. A Workspace, when present, is
    /// represented only as a Task Signal and never as a Session route.
    pub fn from_initial(
        external_session_locator: ExternalSessionLocator,
        intent: TaskIntent,
        task_signals: Vec<TaskSignal>,
    ) -> (result: Result<Self>)
        ensures
            fails_as(
                result,
                first(
                    external_session_locator.deep_view().problem(),
                    first(signals_problem(task_signals.deep_view()), intent.deep_view().problem()),
                ),
            ),
            result is Ok ==> {
                let session = result->Ok_0.deep_view();
                &&& session.task_session_id.canonical()
                &&& session.task_id == intent.task_id
                &&& session.external_session_locator == external_session_locator.deep_view()
                &&& session.task_signals == task_signals.deep_view()
                &&& session.intent_revisions.len() == 1
                &&& session.intent_revisions[0].intent == intent.deep_view()
                &&& session.intent_revisions[0].parent_revision_id is None
                &&& session.problem() is None
            },
    {
        external_session_locator.validate()?;
        TaskSignal::validate_collection(&task_signals)?;
        let task_id = intent.task_id;
        let initial_revision = TaskIntentRevision::initial(intent)?;
        let mut intent_revisions: Vec<TaskIntentRevision> = Vec::new();
        push_value(&mut intent_revisions, initial_revision);
        let snapshot = TaskSessionSnapshot {
            task_session_id: TaskSessionId::new(),
            task_id,
            external_session_locator,
            intent_revisions,
            task_signals,
        };
        proof {
            let session = snapshot.deep_view();
            let problem = session.revision_problem();
            assert(session.intent_revisions.len() == 1);
            assert(session.intent_revisions[0] == initial_revision.deep_view());
            assert(!session.names(session.intent_revisions[0].revision_id, 0));
            assert(problem(0) is None);
            nothing_fails(problem, 0, 1);
        }
        snapshot.validate()?;
        Ok(snapshot)
    }

    /// Returns the current Task Intent revision.
    ///
    /// A valid snapshot always has a current revision. `None` is possible only
    /// for an unvalidated value obtained through direct construction.
    #[must_use]
    pub fn current_intent_revision(&self) -> (current: Option<&TaskIntentRevision>)
        ensures
            current is Some <==> self.intent_revisions@.len() > 0,
            current is Some ==> *current->0 == self.intent_revisions@.last(),
    {
        if self.intent_revisions.len() == 0 {
            None
        } else {
            Some(&self.intent_revisions[self.intent_revisions.len() - 1])
        }
    }

    /// Appends a validated successor as the Session's new current Intent.
    pub fn append_intent(&mut self, intent: TaskIntent) -> (result: Result<TaskIntentRevisionId>)
        ensures
            fails_as(
                result,
                first(
                    old(self).deep_view().problem(),
                    first(
                        intent.deep_view().problem(),
                        given(
                            intent.task_id != old(self).deep_view().task_id,
                            invalid("task_intent_revision successor must belong to the parent task"@),
                        ),
                    ),
                ),
            ),
            result is Err ==> final(self).deep_view() == old(self).deep_view(),
            result is Ok ==> {
                let before = old(self).deep_view();
                let revision = TaskIntentRevisionView {
                    revision_id: result->Ok_0,
                    parent_revision_id: Some(before.intent_revisions.last().revision_id),
                    intent: intent.deep_view(),
                };
                &&& result->Ok_0.canonical()
                &&& final(self).deep_view() == before.with_revision(revision)
                &&& !before.names(result->Ok_0, before.intent_revisions.len() as int)
                    ==> final(self).deep_view().problem() is None
            },
    {
        self.validate()?;
        let ghost before = self.deep_view();
        let ghost model = intent.deep_view();
        let count = self.intent_revisions.len();
        if count == 0 {
            return Err(invalid_input("task_session.intent_revisions must contain an initial revision"));
        }
        proof {
            valid_session_is_linear(before);
            let problem = before.revision_problem();
            nothing_fails(problem, 0, before.intent_revisions.len());
            assert(problem(count - 1) is None);
            assert(before.intent_revisions[count - 1] == self.intent_revisions@[count - 1].deep_view());
        }
        let revision = TaskIntentRevision::successor(&self.intent_revisions[count - 1], intent)?;
        let revision_id = revision.revision_id;
        push_value(&mut self.intent_revisions, revision);
        proof {
            if !before.names(revision_id, before.intent_revisions.len() as int) {
                appending_keeps_a_session_valid(before, revision.deep_view());
            }
        }
        Ok(revision_id)
    }

    /// Validates the Session boundary and complete Task Intent parent chain.
    pub fn validate(&self) -> (result: Result<()>)
        ensures
            fails_as(result, self.deep_view().problem()),
    {
        self.external_session_locator.validate()?;
        TaskSignal::validate_collection(&self.task_signals)?;
        if self.intent_revisions.len() == 0 {
            return Err(invalid_input("task_session.intent_revisions must contain an initial revision"));
        }
        let ghost model = self.deep_view();
        let ghost problem = model.revision_problem();
        let mut seen: Vec<TaskIntentRevisionId> = Vec::new();
        let mut expected_parent: Option<TaskIntentRevisionId> = None;
        let mut index: usize = 0;
        while index < self.intent_revisions.len()
            invariant
                index <= self.intent_revisions@.len(),
                self.intent_revisions@.len() > 0,
                model == self.deep_view(),
                problem == model.revision_problem(),
                model.external_session_locator.problem() is None,
                signals_problem(model.task_signals) is None,
                seen@.len() == index,
                forall|k: int| 0 <= k < index ==> #[trigger] seen@[k] == model.intent_revisions[k].revision_id,
                expected_parent == model.expected_parent(index as int),
                first_from(problem, 0, model.intent_revisions.len()) == first_from(
                    problem,
                    index as nat,
                    model.intent_revisions.len(),
                ),
            decreases self.intent_revisions@.len() - index,
        {
            let revision = &self.intent_revisions[index];
            assert(revision.deep_view() == model.intent_revisions[index as int]);
            revision.validate()?;
            if revision.task_id() != self.task_id {
                let name = entry_name("task_session.intent_revisions", index);
                let message = joined2(name.as_str(), " must belong to the session task");
                return Err(invalid_input(message.as_str()));
            }
            let repeated = crate::checks::is_among(&seen, &revision.revision_id);
            proof {
                let id = model.intent_revisions[index as int].revision_id;
                if repeated {
                    let k = choose|k: int| 0 <= k < seen.deep_view().len() && seen.deep_view()[k] == id;
                    assert(seen@[k] == model.intent_revisions[k].revision_id);
                    assert(model.names(id, index as int));
                }
                if model.names(id, index as int) {
                    let k = choose|k: int| 0 <= k < index && #[trigger] model.intent_revisions[k].revision_id == id;
                    assert(seen@[k] == id);
                    assert(seen.deep_view()[k] == id);
                }
            }
            if repeated {
                return Err(invalid_input("task_session.intent_revisions must not repeat a revision"));
            }
            if !revision.parent_revision_id.same(&expected_parent) {
                let name = entry_name("task_session.intent_revisions", index);
                let message = joined2(name.as_str(), " must continue the parent chain");
                return Err(invalid_input(message.as_str()));
            }
            seen.push(revision.revision_id);
            expected_parent = Some(revision.revision_id);
            index = index + 1;
        }
        Ok(())
    }
}

/// Derived, explainable relevance between a Task and one Context Space.
///
/// Associations are task-local query results rather than durable knowledge
/// facts. A Task can have zero or many associations.
#[derive(Clone, Debug, PartialEq, Eq)]
pub struct TaskSpaceAssociation {
    pub task_id: TaskId,
    pub space_id: SpaceId,
    /// The score, as the bits of an IEEE 754 double.
    pub score_bits: u64,
    pub matched_intent_fields: Vec<String>,
    pub matched_artifacts: Vec<String>,
    pub matched_contexts: Vec<ContextId>,
    pub relation_paths: Vec<Vec<String>>,
    pub reasons: Vec<String>,
}

/// The model of [`TaskSpaceAssociation`].
pub struct TaskSpaceAssociationView {
    pub task_id: TaskId,
    pub space_id: SpaceId,
    pub score_bits: u64,
    pub matched_intent_fields: Seq<Seq<char>>,
    pub matched_artifacts: Seq<Seq<char>>,
    pub matched_contexts: Seq<ContextId>,
    pub relation_paths: Seq<Seq<Seq<char>>>,
    pub reasons: Seq<Seq<char>>,
}

impl DeepView for TaskSpaceAssociation {
    type V = TaskSpaceAssociationView;

    open spec fn deep_view(&self) -> TaskSpaceAssociationView {
        TaskSpaceAssociationView {
            task_id: self.task_id.deep_view(),
            space_id: self.space_id.deep_view(),
            score_bits: self.score_bits.deep_view(),
            matched_intent_fields: self.matched_intent_fields.deep_view(),
            matched_artifacts: self.matched_artifacts.deep_view(),
            matched_contexts: self.matched_contexts.deep_view(),
            relation_paths: self.relation_paths.deep_view(),
            reasons: self.reasons.deep_view(),
        }
    }
}

impl Value for TaskSpaceAssociation {
    fn copied(&self) -> (copy: Self) {
        TaskSpaceAssociation {
            task_id: self.task_id.copied(),
            space_id: self.space_id.copied(),
            score_bits: self.score_bits.copied(),
            matched_intent_fields: self.matched_intent_fields.copied(),
            matched_artifacts: self.matched_artifacts.copied(),
            matched_contexts: self.matched_contexts.copied(),
            relation_paths: self.relation_paths.copied(),
            reasons: self.reasons.copied(),
        }
    }

    fn same(&self, other: &Self) -> (equal: bool) {
        self.task_id.same(&other.task_id)
            && self.space_id.same(&other.space_id)
            && self.score_bits.same(&other.score_bits)
            && self.matched_intent_fields.same(&other.matched_intent_fields)
            && self.matched_artifacts.same(&other.matched_artifacts)
            && self.matched_contexts.same(&other.matched_contexts)
            && self.relation_paths.same(&other.relation_paths)
            && self.reasons.same(&other.reasons)
    }
}

/// The check of each relation path of an association.
pub open spec fn relation_path_problem(paths: Seq<Seq<Seq<char>>>) -> spec_fn(int) -> Option<ErrorView> {
    |i: int|
        first(
            given(
                paths[i].len() == 0,
                invalid(entry("task_space_association.relation_paths"@, i as nat) + " must not be empty"@),
            ),
            text_set_problem(paths[i], entry("task_space_association.relation_paths"@, i as nat)),
        )
}

impl TaskSpaceAssociationView {
    /// Why an association is invalid, if it is.
    pub open spec fn problem(self) -> Option<ErrorView> {
        first(
            given(
                !is_positive_fraction(self.score_bits),
                invalid("task_space_association.score must be finite and in (0, 1]"@),
            ),
            first(
                text_set_problem(self.matched_intent_fields, "task_space_association.matched_intent_fields"@),
                first(
                    text_set_problem(self.matched_artifacts, "task_space_association.matched_artifacts"@),
                    first(
                        unique_problem(self.matched_contexts, "task_space_association.matched_contexts"@),
                        first(
                            first_from(relation_path_problem(self.relation_paths), 0, self.relation_paths.len()),
                            first(
                                unique_problem(self.relation_paths, "task_space_association.relation_paths"@),
                                first(
                                    given(
                                        self.reasons.len() == 0,
                                        invalid(
                                            "task_space_association.reasons must contain at least one confidence basis"@,
                                        ),
                                    ),
                                    text_set_problem(self.reasons, "task_space_association.reasons"@),
                                ),
                            ),
                        ),
                    ),
                ),
            ),
        )
    }
}

fn validate_relation_paths(paths: &Vec<Vec<String>>) -> (result: Result<()>)
    ensures
        fails_as(result, first_from(relation_path_problem(paths.deep_view()), 0, paths.deep_view().len())),
{
    let ghost model = paths.deep_view();
    let ghost problem = relation_path_problem(model);
    let mut index: usize = 0;
    while index < paths.len()
        invariant
            index <= paths@.len(),
            model == paths.deep_view(),
            problem == relation_path_problem(model),
            first_from(problem, 0, model.len()) == first_from(problem, index as nat, model.len()),
        decreases paths@.len() - index,
    {
        let path = &paths[index];
        assert(path.deep_view() == model[index as int]);
        let name = entry_name("task_space_association.relation_paths", index);
        if path.len() == 0 {
            let message = joined2(name.as_str(), " must not be empty");
            return Err(invalid_input(message.as_str()));
        }
        validate_text_set(path, name.as_str())?;
        index = index + 1;
    }
    Ok(())
}

/// The check of each association of a Task, given those before it.
pub open spec fn task_association_problem(
    task_id: TaskId,
    associations: Seq<TaskSpaceAssociationView>,
) -> spec_fn(int) -> Option<ErrorView> {
    |i: int|
        first(
            given(
                associations[i].task_id != task_id,
                invalid("task_space_associations must belong to the same task"@),
            ),
            first(
                given(
                    exists|k: int|
                        0 <= k < i && #[trigger] associations[k].space_id == associations[i].space_id,
                    invalid("task_space_associations must not repeat a space"@),
                ),
                associations[i].problem(),
            ),
        )
}

impl TaskSpaceAssociation {
    /// Validates confidence and the match evidence that explains it.
    ///
    /// A zero score is not an association; callers represent that outcome by
    /// omitting the Space from the Task's association collection.
    pub fn validate(&self) -> (result: Result<()>)
        ensures
            fails_as(result, self.deep_view().problem()),
    {
        if self.score_bits < 1 || self.score_bits > 0x3ff0_0000_0000_0000 {
            return Err(invalid_input("task_space_association.score must be finite and in (0, 1]"));
        }
        validate_text_set(&self.matched_intent_fields, "task_space_association.matched_intent_fields")?;
        validate_text_set(&self.matched_artifacts, "task_space_association.matched_artifacts")?;
        require_unique(&self.matched_contexts, "task_space_association.matched_contexts")?;
        validate_relation_paths(&self.relation_paths)?;
        require_unique(&self.relation_paths, "task_space_association.relation_paths")?;
        if self.reasons.len() == 0 {
            return Err(
                invalid_input("task_space_association.reasons must contain at least one confidence basis"),
            );
        }
        validate_text_set(&self.reasons, "task_space_association.reasons")
    }

    /// Validates all Space associations owned by one Task.
    ///
    /// Zero associations and multiple distinct Space associations are valid.
    pub fn validate_collection(task_id: TaskId, associations: &Vec<Self>) -> (result: Result<()>)
        ensures
            fails_as(
                result,
                first_from(
                    task_association_problem(task_id, associations.deep_view()),
                    0,
                    associations.deep_view().len(),
                ),
            ),
    {
        let ghost model = associations.deep_view();
        let ghost problem = task_association_problem(task_id, model);
        let mut spaces: Vec<SpaceId> = Vec::new();
        let mut index: usize = 0;
        while index < associations.len()
            invariant
                index <= associations@.len(),
                model == associations.deep_view(),
                problem == task_association_problem(task_id, model),
                spaces@.len() == index,
                forall|k: int| 0 <= k < index ==> #[trigger] spaces@[k] == model[k].space_id,
                first_from(problem, 0, model.len()) == first_from(problem, index as nat, model.len()),
            decreases associations@.len() - index,
        {
            let association = &associations[index];
            assert(association.deep_view() == model[index as int]);
            if association.task_id != task_id {
                return Err(invalid_input("task_space_associations must belong to the same task"));
            }
            let repeated = crate::checks::is_among(&spaces, &association.space_id);
            proof {
                let id = model[index as int].space_id;
                if repeated {
                    let k = choose|k: int| 0 <= k < spaces.deep_view().len() && spaces.deep_view()[k] == id;
                    assert(spaces@[k] == model[k].space_id);
                }
                if exists|k: int| 0 <= k < index && #[trigger] model[k].space_id == id {
                    let k = choose|k: int| 0 <= k < index && #[trigger] model[k].space_id == id;
                    assert(spaces@[k] == id);
                    assert(spaces.deep_view()[k] == id);
                }
            }
            if repeated {
                return Err(invalid_input("task_space_associations must not repeat a space"));
            }
            association.validate()?;
            spaces.push(association.space_id);
            index = index + 1;
        }
        Ok(())
    }
}

/// The JSON text of [`TaskIntent`] writes every field of it under its own name.
pub proof fn task_intent_json_writes_every_field(model: TaskIntentView)
    ensures
        writes(<TaskIntent as Json>::json(model), "task_id"@, <TaskId as Json>::json(model.task_id)),
        writes(<TaskIntent as Json>::json(model), "goal"@, <String as Json>::json(model.goal)),
        writes(<TaskIntent as Json>::json(model), "desired_change"@, <String as Json>::json(model.desired_change)),
        writes(<TaskIntent as Json>::json(model), "in_scope"@, <Vec<String> as Json>::json(model.in_scope)),
        writes(<TaskIntent as Json>::json(model), "out_of_scope"@, <Vec<String> as Json>::json(model.out_of_scope)),
        writes(<TaskIntent as Json>::json(model), "domains"@, <Vec<String> as Json>::json(model.domains)),
        writes(<TaskIntent as Json>::json(model), "platforms"@, <Vec<String> as Json>::json(model.platforms)),
        writes(<TaskIntent as Json>::json(model), "constraints"@, <Vec<String> as Json>::json(model.constraints)),
        writes(
            <TaskIntent as Json>::json(model),
            "acceptance_conditions"@,
            <Vec<String> as Json>::json(model.acceptance_conditions),
        ),
        writes(<TaskIntent as Json>::json(model), "artifacts"@, <Vec<String> as Json>::json(model.artifacts)),
        writes(<TaskIntent as Json>::json(model), "interfaces"@, <Vec<String> as Json>::json(model.interfaces)),
        writes(<TaskIntent as Json>::json(model), "unknowns"@, <Vec<String> as Json>::json(model.unknowns)),
{
    let b0 = Seq::<char>::empty();
    let b1 = with_member(b0, "task_id"@, <TaskId as Json>::json(model.task_id));
    members_are_written(b0, "task_id"@, <TaskId as Json>::json(model.task_id));
    let b2 = with_member(b1, "goal"@, <String as Json>::json(model.goal));
    members_are_written(b1, "goal"@, <String as Json>::json(model.goal));
    let b3 = with_member(b2, "desired_change"@, <String as Json>::json(model.desired_change));
    members_are_written(b2, "desired_change"@, <String as Json>::json(model.desired_change));
    let b4 = with_member(b3, "in_scope"@, <Vec<String> as Json>::json(model.in_scope));
    members_are_written(b3, "in_scope"@, <Vec<String> as Json>::json(model.in_scope));
    let b5 = with_member(b4, "out_of_scope"@, <Vec<String> as Json>::json(model.out_of_scope));
    members_are_written(b4, "out_of_scope"@, <Vec<String> as Json>::json(model.out_of_scope));
    let b6 = with_member(b5, "domains"@, <Vec<String> as Json>::json(model.domains));
    members_are_written(b5, "domains"@, <Vec<String> as Json>::json(model.domains));
    let b7 = with_member(b6, "platforms"@, <Vec<String> as Json>::json(model.platforms));
    members_are_written(b6, "platforms"@, <Vec<String> as Json>::json(model.platforms));
    let b8 = with_member(b7, "constraints"@, <Vec<String> as Json>::json(model.constraints));
    members_are_written(b7, "constraints"@, <Vec<String> as Json>::json(model.constraints));
    let b9 = with_member(b8, "acceptance_conditions"@, <Vec<String> as Json>::json(model.acceptance_conditions));
    members_are_written(b8, "acceptance_conditions"@, <Vec<String> as Json>::json(model.acceptance_conditions));
    let b10 = with_member(b9, "artifacts"@, <Vec<String> as Json>::json(model.artifacts));
    members_are_written(b9, "artifacts"@, <Vec<String> as Json>::json(model.artifacts));
    let b11 = with_member(b10, "interfaces"@, <Vec<String> as Json>::json(model.interfaces));
    members_are_written(b10, "interfaces"@, <Vec<String> as Json>::json(model.interfaces));
    let b12 = with_member(b11, "unknowns"@, <Vec<String> as Json>::json(model.unknowns));
    members_are_written(b11, "unknowns"@, <Vec<String> as Json>::json(model.unknowns));
    assert(model.json_members(b0) == b12);
    objects_write_their_body(b12);
}

/// The JSON text of [`ExternalSessionLocator`] writes every field of it under its own name.
pub proof fn external_session_locator_json_writes_every_field(model: ExternalSessionLocatorView)
    ensures
        writes(
            <ExternalSessionLocator as Json>::json(model),
            "agent_kind"@,
            <String as Json>::json(model.agent_kind),
        ),
        writes(
            <ExternalSessionLocator as Json>::json(model),
            "external_session_id"@,
            <String as Json>::json(model.external_session_id),
        ),
{
    let b0 = Seq::<char>::empty();
    let b1 = with_member(b0, "agent_kind"@, <String as Json>::json(model.agent_kind));
    members_are_written(b0, "agent_kind"@, <String as Json>::json(model.agent_kind));
    let b2 = with_member(b1, "external_session_id"@, <String as Json>::json(model.external_session_id));
    members_are_written(b1, "external_session_id"@, <String as Json>::json(model.external_session_id));
    assert(model.json_members(b0) == b2);
    objects_write_their_body(b2);
}

/// The JSON text of [`TaskIntentRevision`] writes every field of it under its own name.
pub proof fn task_intent_revision_json_writes_every_field(model: TaskIntentRevisionView)
    ensures
        writes(
            <TaskIntentRevision as Json>::json(model),
            "revision_id"@,
            <TaskIntentRevisionId as Json>::json(model.revision_id),
        ),
        writes(
            <TaskIntentRevision as Json>::json(model),
            "parent_revision_id"@,
            <Option<TaskIntentRevisionId> as Json>::json(model.parent_revision_id),
        ),
        writes(<TaskIntentRevision as Json>::json(model), "intent"@, <TaskIntent as Json>::json(model.intent)),
{
    let b0 = Seq::<char>::empty();
    let b1 = with_member(b0, "revision_id"@, <TaskIntentRevisionId as Json>::json(model.revision_id));
    members_are_written(b0, "revision_id"@, <TaskIntentRevisionId as Json>::json(model.revision_id));
    let b2 = with_member(
        b1,
        "parent_revision_id"@,
        <Option<TaskIntentRevisionId> as Json>::json(model.parent_revision_id),
    );
    members_are_written(
        b1,
        "parent_revision_id"@,
        <Option<TaskIntentRevisionId> as Json>::json(model.parent_revision_id),
    );
    let b3 = with_member(b2, "intent"@, <TaskIntent as Json>::json(model.intent));
    members_are_written(b2, "intent"@, <TaskIntent as Json>::json(model.intent));
    assert(model.json_members(b0) == b3);
    objects_write_their_body(b3);
}

/// The JSON text of [`TaskSignal`] writes every field of it under its own name.
pub proof fn task_signal_json_writes_every_field(model: TaskSignalView)
    ensures
        writes(<TaskSignal as Json>::json(model), "kind"@, <TaskSignalKind as Json>::json(model.kind)),
        writes(<TaskSignal as Json>::json(model), "content"@, <String as Json>::json(model.content)),
{
    let b0 = Seq::<char>::empty();
    let b1 = with_member(b0, "kind"@, <TaskSignalKind as Json>::json(model.kind));
    members_are_written(b0, "kind"@, <TaskSignalKind as Json>::json(model.kind));
    let b2 = with_member(b1, "content"@, <String as Json>::json(model.content));
    members_are_written(b1, "content"@, <String as Json>::json(model.content));
    assert(model.json_members(b0) == b2);
    objects_write_their_body(b2);
}

/// The JSON text of [`TaskSessionSnapshot`] writes every field of it under its own name.
pub proof fn task_session_snapshot_json_writes_every_field(model: TaskSessionSnapshotView)
    ensures
        writes(
            <TaskSessionSnapshot as Json>::json(model),
            "task_session_id"@,
            <TaskSessionId as Json>::json(model.task_session_id),
        ),
        writes(<TaskSessionSnapshot as Json>::json(model), "task_id"@, <TaskId as Json>::json(model.task_id)),
        writes(
            <TaskSessionSnapshot as Json>::json(model),
            "external_session_locator"@,
            <ExternalSessionLocator as Json>::json(model.external_session_locator),
        ),
        writes(
            <TaskSessionSnapshot as Json>::json(model),
            "intent_revisions"@,
            <Vec<TaskIntentRevision> as Json>::json(model.intent_revisions),
        ),
        writes(
            <TaskSessionSnapshot as Json>::json(model),
            "task_signals"@,
            <Vec<TaskSignal> as Json>::json(model.task_signals),
        ),
{
    let b0 = Seq::<char>::empty();
    let b1 = with_member(b0, "task_session_id"@, <TaskSessionId as Json>::json(model.task_session_id));
    members_are_written(b0, "task_session_id"@, <TaskSessionId as Json>::json(model.task_session_id));
    let b2 = with_member(b1, "task_id"@, <TaskId as Json>::json(model.task_id));
    members_are_written(b1, "task_id"@, <TaskId as Json>::json(model.task_id));
    let b3 = with_member(
        b2,
        "external_session_locator"@,
        <ExternalSessionLocator as Json>::json(model.external_session_locator),
    );
    members_are_written(
        b2,
        "external_session_locator"@,
        <ExternalSessionLocator as Json>::json(model.external_session_locator),
    );
    let b4 = with_member(b3, "intent_revisions"@, <Vec<TaskIntentRevision> as Json>::json(model.intent_revisions));
    members_are_written(b3, "intent_revisions"@, <Vec<TaskIntentRevision> as Json>::json(model.intent_revisions));
    let b5 = with_member(b4, "task_signals"@, <Vec<TaskSignal> as Json>::json(model.task_signals));
    members_are_written(b4, "task_signals"@, <Vec<TaskSignal> as Json>::json(model.task_signals));
    assert(model.json_members(b0) == b5);
    objects_write_their_body(b5);
}

/// Every [`TaskSignalKind`] is written under a name of its own.
pub proof fn task_signal_kind_json_names_every_variant()
    ensures
        <TaskSignalKind as Json>::json(TaskSignalKind::Prompt) == "\"prompt\""@,
        <TaskSignalKind as Json>::json(TaskSignalKind::Workspace) == "\"workspace\""@,
        <TaskSignalKind as Json>::json(TaskSignalKind::Repository) == "\"repository\""@,
        <TaskSignalKind as Json>::json(TaskSignalKind::File) == "\"file\""@,
        <TaskSignalKind as Json>::json(TaskSignalKind::Symbol) == "\"symbol\""@,
        <TaskSignalKind as Json>::json(TaskSignalKind::Diff) == "\"diff\""@,
        <TaskSignalKind as Json>::json(TaskSignalKind::Api) == "\"api\""@,
        <TaskSignalKind as Json>::json(TaskSignalKind::Schema) == "\"schema\""@,
        <TaskSignalKind as Json>::json(TaskSignalKind::Test) == "\"test\""@,
{
}

} // verus!
