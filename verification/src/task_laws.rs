//! What holds of valid task intents, sessions, signals and working intents.

use vstd::prelude::*;

use crate::checks::{blank, words};
use crate::model_laws::{all_said, blames_input, first_failures_are_failures, lists_of_texts_say_something};
use crate::task::{
    relation_path_problem, signal_problem, signals_problem, task_association_problem, text_set_problem,
    ExternalSessionLocatorView, TaskIntentRevisionView, TaskIntentView, TaskSessionSnapshotView, TaskSignalView,
    TaskSpaceAssociationView,
};
use crate::text::{joined_by, lowered};
use crate::working_intent::{
    bounded_item_problem, bounded_list_problem, canonical_items, list_bytes, lowercase, normalized, normalized_items,
    overlap_from, overlap_problem, WorkingIntentSnapshotView,
};

verus! {

/// Whether a list says something in every entry, and nothing twice.
pub open spec fn is_text_set(values: Seq<Seq<char>>) -> bool {
    all_said(values) && values.no_duplicates()
}

proof fn text_sets_pass(values: Seq<Seq<char>>, field: Seq<char>)
    ensures
        text_set_problem(values, field) is None <==> is_text_set(values),
        blames_input(text_set_problem(values, field)),
{
    lists_of_texts_say_something(values, field);
}

/// A task intent is valid exactly where it has a goal and a desired change, and each of its lists says
/// something in every entry and nothing twice.
pub proof fn valid_task_intents_have_a_target(intent: TaskIntentView)
    ensures
        intent.problem() is None <==> {
            &&& !blank(intent.goal)
            &&& !blank(intent.desired_change)
            &&& is_text_set(intent.in_scope)
            &&& is_text_set(intent.out_of_scope)
            &&& is_text_set(intent.domains)
            &&& is_text_set(intent.platforms)
            &&& is_text_set(intent.constraints)
            &&& is_text_set(intent.acceptance_conditions)
            &&& is_text_set(intent.artifacts)
            &&& is_text_set(intent.interfaces)
            &&& is_text_set(intent.unknowns)
        },
        blames_input(intent.problem()),
{
    text_sets_pass(intent.in_scope, "task_intent.in_scope"@);
    text_sets_pass(intent.out_of_scope, "task_intent.out_of_scope"@);
    text_sets_pass(intent.domains, "task_intent.domains"@);
    text_sets_pass(intent.platforms, "task_intent.platforms"@);
    text_sets_pass(intent.constraints, "task_intent.constraints"@);
    text_sets_pass(intent.acceptance_conditions, "task_intent.acceptance_conditions"@);
    text_sets_pass(intent.artifacts, "task_intent.artifacts"@);
    text_sets_pass(intent.interfaces, "task_intent.interfaces"@);
    text_sets_pass(intent.unknowns, "task_intent.unknowns"@);
}

/// A session locator is valid exactly where it names an Agent and a session.
pub proof fn valid_locators_name_agent_and_session(locator: ExternalSessionLocatorView)
    ensures
        locator.problem() is None <==> !blank(locator.agent_kind) && !blank(locator.external_session_id),
        blames_input(locator.problem()),
{
}

/// A task revision is valid exactly where its intent is and it is not its own parent.
pub proof fn valid_task_revisions_are_not_their_own_parent(revision: TaskIntentRevisionView)
    ensures
        revision.problem() is None <==> revision.intent.problem() is None && revision.parent_revision_id != Some(
            revision.revision_id,
        ),
{
}

/// Signals are valid exactly where each says something and none is there twice; there may be none.
pub proof fn valid_signals_say_something_once(signals: Seq<TaskSignalView>)
    ensures
        signals_problem(signals) is None <==> signals.no_duplicates() && forall|i: int|
            0 <= i < signals.len() ==> !blank((#[trigger] signals[i]).content),
        signals_problem(Seq::empty()) is None,
{
    let problem = signal_problem(signals);
    first_failures_are_failures(problem, 0, signals.len());
    if forall|i: int| 0 <= i < signals.len() ==> (#[trigger] problem(i)) is None {
        assert forall|i: int| 0 <= i < signals.len() implies !blank((#[trigger] signals[i]).content) by {
            assert(problem(i) is None);
        }
    }
    if forall|i: int| 0 <= i < signals.len() ==> !blank((#[trigger] signals[i]).content) {
        assert forall|i: int| 0 <= i < signals.len() implies (#[trigger] problem(i)) is None by {
            assert(!blank(signals[i].content));
        }
    }
    first_failures_are_failures(signal_problem(Seq::empty()), 0, 0);
}

/// A session is valid exactly where its locator and signals are, it has a revision, and its revisions
/// form one line: each is valid, of the task of the session, new, and continues the one before it; the
/// first continues none.
pub proof fn valid_sessions_are_one_line(session: TaskSessionSnapshotView)
    ensures
        session.problem() is None <==> {
            &&& session.external_session_locator.problem() is None
            &&& signals_problem(session.task_signals) is None
            &&& session.intent_revisions.len() > 0
            &&& forall|i: int|
                0 <= i < session.intent_revisions.len() ==> (#[trigger] session.intent_revisions[i]).problem() is None
                    && session.intent_revisions[i].intent.task_id == session.task_id && (if i == 0 {
                    session.intent_revisions[i].parent_revision_id is None
                } else {
                    session.intent_revisions[i].parent_revision_id == Some(
                        session.intent_revisions[i - 1].revision_id,
                    )
                }) && !session.names(session.intent_revisions[i].revision_id, i)
        },
{
    let problem = session.revision_problem();
    let revisions = session.intent_revisions;
    first_failures_are_failures(problem, 0, revisions.len());
    assert forall|i: int| 0 <= i < revisions.len() implies ((#[trigger] problem(i)) is None <==> (
    revisions[i].problem() is None && revisions[i].intent.task_id == session.task_id && (if i == 0 {
        revisions[i].parent_revision_id is None
    } else {
        revisions[i].parent_revision_id == Some(revisions[i - 1].revision_id)
    }) && !session.names(revisions[i].revision_id, i))) by {}
    if session.problem() is None {
        assert forall|i: int| 0 <= i < revisions.len() implies (#[trigger] revisions[i]).problem() is None
            && revisions[i].intent.task_id == session.task_id && (if i == 0 {
            revisions[i].parent_revision_id is None
        } else {
            revisions[i].parent_revision_id == Some(revisions[i - 1].revision_id)
        }) && !session.names(revisions[i].revision_id, i) by {
            assert(problem(i) is None);
        }
    }
}

/// A revision that is appended comes last, and nothing else of the session changes.
pub proof fn appending_changes_only_the_revisions(session: TaskSessionSnapshotView, revision: TaskIntentRevisionView)
    ensures
        session.with_revision(revision).intent_revisions == session.intent_revisions.push(revision),
        session.with_revision(revision).task_id == session.task_id,
        session.with_revision(revision).task_session_id == session.task_session_id,
        session.with_revision(revision).external_session_locator == session.external_session_locator,
        session.with_revision(revision).task_signals == session.task_signals,
{
}

/// An association of a task is valid exactly where its score is above zero and at most one, its matches
/// say something and nothing twice, its paths are not empty, and it gives a reason.
pub proof fn valid_task_associations_give_reasons(association: TaskSpaceAssociationView)
    ensures
        association.problem() is None <==> {
            &&& 0 < association.score_bits <= 0x3ff0_0000_0000_0000u64
            &&& is_text_set(association.matched_intent_fields)
            &&& is_text_set(association.matched_artifacts)
            &&& association.matched_contexts.no_duplicates()
            &&& forall|i: int|
                0 <= i < association.relation_paths.len() ==> (#[trigger] association.relation_paths[i]).len() > 0
                    && is_text_set(association.relation_paths[i])
            &&& association.relation_paths.no_duplicates()
            &&& association.reasons.len() > 0
            &&& is_text_set(association.reasons)
        },
{
    text_sets_pass(association.matched_intent_fields, "task_space_association.matched_intent_fields"@);
    text_sets_pass(association.matched_artifacts, "task_space_association.matched_artifacts"@);
    text_sets_pass(association.reasons, "task_space_association.reasons"@);
    let paths = association.relation_paths;
    let problem = relation_path_problem(paths);
    first_failures_are_failures(problem, 0, paths.len());
    assert forall|i: int| 0 <= i < paths.len() implies ((#[trigger] problem(i)) is None <==> paths[i].len() > 0
        && is_text_set(paths[i])) by {
        text_sets_pass(paths[i], crate::checks::entry("task_space_association.relation_paths"@, i as nat));
    }
    if forall|i: int| 0 <= i < paths.len() ==> (#[trigger] problem(i)) is None {
        assert forall|i: int| 0 <= i < paths.len() implies (#[trigger] paths[i]).len() > 0
            && is_text_set(paths[i]) by {
            assert(problem(i) is None);
        }
    }
}

/// Associations of a task are all of that task, each of another Space, and valid.
pub proof fn task_associations_are_of_one_task(
    task_id: crate::ids::TaskId,
    associations: Seq<TaskSpaceAssociationView>,
    i: int,
)
    requires
        0 <= i < associations.len(),
    ensures
        (task_association_problem(task_id, associations)(i)) is None <==> associations[i].task_id == task_id
            && associations[i].problem() is None && forall|k: int|
            0 <= k < i ==> (#[trigger] associations[k]).space_id != associations[i].space_id,
{
    if forall|k: int| 0 <= k < i ==> (#[trigger] associations[k]).space_id != associations[i].space_id {
        assert(!(exists|k: int| 0 <= k < i && #[trigger] associations[k].space_id == associations[i].space_id));
    }
}

/// A normal form is the words of a text, one space apart, in lower case.
pub proof fn normal_forms_are_words(text: Seq<char>)
    ensures
        normalized(text) == lowercase(joined_by(words(text), " "@)),
        vstd::utf8::is_ascii_chars(text) ==> lowercase(text) == lowered(text),
{
}

/// Whether a text of a working intent is within its bound.
pub open spec fn is_bounded(text: Seq<char>, bytes: nat) -> bool {
    !blank(text) && vstd::utf8::encode_utf8(text).len() <= bytes
}

/// Whether no two entries of a list have one normal form.
pub open spec fn differ_normally(values: Seq<Seq<char>>) -> bool {
    forall|i: int, j: int|
        0 <= i < j < values.len() ==> normalized(#[trigger] values[i]) != normalized(#[trigger] values[j])
}

proof fn bounded_lists_pass(values: Seq<Seq<char>>, field: Seq<char>)
    ensures
        bounded_list_problem(values, field) is None <==> values.len() <= 64 && (forall|i: int|
            0 <= i < values.len() ==> is_bounded(#[trigger] values[i], 1024)) && differ_normally(values),
{
    let problem = bounded_item_problem(values, field);
    let normal = normalized_items(values);
    first_failures_are_failures(problem, 0, values.len());
    if forall|i: int| 0 <= i < values.len() ==> (#[trigger] problem(i)) is None {
        assert forall|i: int| 0 <= i < values.len() implies is_bounded(#[trigger] values[i], 1024) by {
            assert(problem(i) is None);
        }
        assert forall|i: int, j: int| 0 <= i < j < values.len() implies normalized(#[trigger] values[i]) != normalized(
            #[trigger] values[j],
        ) by {
            assert(problem(j) is None);
            assert(normal.take(j)[i] == normalized(values[i]));
        }
    }
    if differ_normally(values) && forall|i: int| 0 <= i < values.len() ==> is_bounded(#[trigger] values[i], 1024) {
        assert forall|i: int| 0 <= i < values.len() implies (#[trigger] problem(i)) is None by {
            assert(is_bounded(values[i], 1024));
            if normal.take(i).contains(normalized(values[i])) {
                let k = choose|k: int| 0 <= k < i && normal.take(i)[k] == normalized(values[i]);
                assert(normalized(values[k]) == normalized(values[i]));
            }
        }
    }
}

/// Whether a list of a working intent is within its bounds, and no entry means the same as another.
pub open spec fn is_bounded_list(values: Seq<Seq<char>>) -> bool {
    &&& values.len() <= 64
    &&& forall|i: int| 0 <= i < values.len() ==> is_bounded(#[trigger] values[i], 1024)
    &&& differ_normally(values)
}

/// A working intent is valid exactly where its goal and direction say something within 4096 bytes, its
/// lists are bounded and mean nothing twice, nothing is both in and out of scope, and it has at most
/// 65536 bytes in all.
pub proof fn valid_working_intents_are_bounded(intent: WorkingIntentSnapshotView)
    ensures
        intent.problem() is None <==> {
            &&& is_bounded(intent.goal, 4096)
            &&& intent.current_direction is Some ==> is_bounded(intent.current_direction->Some_0, 4096)
            &&& is_bounded_list(intent.in_scope)
            &&& is_bounded_list(intent.out_of_scope)
            &&& is_bounded_list(intent.domains)
            &&& is_bounded_list(intent.platforms)
            &&& is_bounded_list(intent.constraints)
            &&& is_bounded_list(intent.acceptance_conditions)
            &&& is_bounded_list(intent.artifact_hints)
            &&& is_bounded_list(intent.interface_hints)
            &&& is_bounded_list(intent.open_questions)
            &&& forall|i: int, j: int|
                0 <= i < intent.in_scope.len() && 0 <= j < intent.out_of_scope.len() ==> normalized(
                    #[trigger] intent.in_scope[i],
                ) != normalized(#[trigger] intent.out_of_scope[j])
            &&& intent.total_bytes() <= 65536
        },
{
    bounded_lists_pass(intent.in_scope, "working_intent.in_scope"@);
    bounded_lists_pass(intent.out_of_scope, "working_intent.out_of_scope"@);
    bounded_lists_pass(intent.domains, "working_intent.domains"@);
    bounded_lists_pass(intent.platforms, "working_intent.platforms"@);
    bounded_lists_pass(intent.constraints, "working_intent.constraints"@);
    bounded_lists_pass(intent.acceptance_conditions, "working_intent.acceptance_conditions"@);
    bounded_lists_pass(intent.artifact_hints, "working_intent.artifact_hints"@);
    bounded_lists_pass(intent.interface_hints, "working_intent.interface_hints"@);
    bounded_lists_pass(intent.open_questions, "working_intent.open_questions"@);
    let (inside, outside) = (normalized_items(intent.in_scope), normalized_items(intent.out_of_scope));
    overlaps_are_found(inside, outside, 0);
    if overlap_problem(intent.in_scope, intent.out_of_scope) is None {
        assert forall|i: int, j: int|
            0 <= i < intent.in_scope.len() && 0 <= j < intent.out_of_scope.len() implies normalized(
            #[trigger] intent.in_scope[i],
        ) != normalized(#[trigger] intent.out_of_scope[j]) by {
            assert(!outside.contains(inside[i]));
            assert(outside.contains(outside[j]));
        }
    }
    if forall|i: int, j: int|
        0 <= i < intent.in_scope.len() && 0 <= j < intent.out_of_scope.len() ==> normalized(
            #[trigger] intent.in_scope[i],
        ) != normalized(#[trigger] intent.out_of_scope[j]) {
        assert forall|i: int| 0 <= i < inside.len() implies !outside.contains(#[trigger] inside[i]) by {
            if outside.contains(inside[i]) {
                let j = choose|j: int| 0 <= j < outside.len() && outside[j] == inside[i];
                assert(normalized(intent.in_scope[i]) == normalized(intent.out_of_scope[j]));
            }
        }
    }
}

proof fn overlaps_are_found(inside: Seq<Seq<char>>, outside: Seq<Seq<char>>, from: int)
    requires
        0 <= from,
    ensures
        overlap_from(inside, outside, from) is None <==> forall|i: int|
            from <= i < inside.len() ==> !outside.contains(#[trigger] inside[i]),
    decreases inside.len() - from,
{
    if from < inside.len() {
        overlaps_are_found(inside, outside, from + 1);
    }
}

/// The bytes of a working intent are those of all its texts.
pub proof fn every_text_counts(intent: WorkingIntentSnapshotView, values: Seq<Seq<char>>, value: Seq<char>)
    ensures
        list_bytes(values.push(value)) == list_bytes(values) + vstd::utf8::encode_utf8(value).len(),
        list_bytes(Seq::empty()) == 0,
        intent.total_bytes() == vstd::utf8::encode_utf8(intent.goal).len() + (match intent.current_direction {
            Some(direction) => vstd::utf8::encode_utf8(direction).len(),
            None => 0,
        }) + list_bytes(intent.in_scope) + list_bytes(intent.out_of_scope) + list_bytes(intent.domains) + list_bytes(
            intent.platforms,
        ) + list_bytes(intent.constraints) + list_bytes(intent.acceptance_conditions) + list_bytes(
            intent.artifact_hints,
        ) + list_bytes(intent.interface_hints) + list_bytes(intent.open_questions),
{
    assert(values.push(value).drop_last() =~= values);
}

/// The canonical form of a working intent has the normal form of every text of every field, under the
/// same field.
pub proof fn canonical_forms_keep_every_field(intent: WorkingIntentSnapshotView, at: int)
    ensures
        intent.canonical().goal == normalized(intent.goal),
        intent.current_direction is Some <==> intent.canonical().current_direction is Some,
        intent.current_direction is Some ==> intent.canonical().current_direction->Some_0 == normalized(
            intent.current_direction->Some_0,
        ),
        holds_normally(intent.in_scope, intent.canonical().in_scope, at),
        holds_normally(intent.out_of_scope, intent.canonical().out_of_scope, at),
        holds_normally(intent.domains, intent.canonical().domains, at),
        holds_normally(intent.platforms, intent.canonical().platforms, at),
        holds_normally(intent.constraints, intent.canonical().constraints, at),
        holds_normally(intent.acceptance_conditions, intent.canonical().acceptance_conditions, at),
        holds_normally(intent.artifact_hints, intent.canonical().artifact_hints, at),
        holds_normally(intent.interface_hints, intent.canonical().interface_hints, at),
        holds_normally(intent.open_questions, intent.canonical().open_questions, at),
{
    items_hold_normally(intent.in_scope, at);
    items_hold_normally(intent.out_of_scope, at);
    items_hold_normally(intent.domains, at);
    items_hold_normally(intent.platforms, at);
    items_hold_normally(intent.constraints, at);
    items_hold_normally(intent.acceptance_conditions, at);
    items_hold_normally(intent.artifact_hints, at);
    items_hold_normally(intent.interface_hints, at);
    items_hold_normally(intent.open_questions, at);
}

/// Whether a canonical list has as many entries as a list, and holds the normal form of an entry.
pub open spec fn holds_normally(values: Seq<Seq<char>>, canonical: Seq<Seq<char>>, at: int) -> bool {
    canonical.len() == values.len() && (0 <= at < values.len() ==> canonical.contains(normalized(values[at])))
}

proof fn items_hold_normally(values: Seq<Seq<char>>, at: int)
    ensures
        holds_normally(values, canonical_items(values), at),
{
    let normal = normalized_items(values);
    let canonical = canonical_items(values);
    crate::order::sorted_listing_exists::<String>(normal);
    normal.to_multiset_ensures();
    canonical.to_multiset_ensures();
    if 0 <= at < values.len() {
        assert(normal[at] == normalized(values[at]));
        assert(normal.contains(normal[at]));
        assert(normal.to_multiset().contains(normal[at]));
    }
}

} // verus!
