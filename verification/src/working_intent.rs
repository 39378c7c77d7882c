//! The Agent's current, non-factual understanding of one Task, and its canonical semantics.

use vstd::prelude::*;
use vstd::utf8::encode_utf8;

use crate::checks::{blank, entry, entry_name, first_from, is_blank, split_words, words};
use crate::digest::{is_prefixed_digest, prefixed_digests_have_one_form, push_text, sha256_hex, sha256_text};
use crate::error::{fails_as, first, given, invalid, invalid_input, ErrorView, Result};
use crate::json::{
    Json, first_members, lists_read_back, literals_read_back, object, objects_read_back, options_read_back,
    push_member, push_object, reads_back, with_member, with_member_if,
};
use crate::order::{sort_values, sorted_listing};
use crate::text::{decimal, decimal_text, join_texts, joined2, joined4, joined_by, lowered};
use crate::value::{push_value, take_all, take_next, Value};
use crate::json_laws::{members_are_written, members_there_are_written, objects_write_their_body, writes};

verus! {

/// Maximum UTF-8 bytes in the required goal or optional current direction.
pub const MAX_WORKING_INTENT_TEXT_BYTES: usize = 4096;

/// Maximum UTF-8 bytes in one structured list item.
pub const MAX_WORKING_INTENT_ITEM_BYTES: usize = 1024;

/// Maximum number of items in any one structured list field.
pub const MAX_WORKING_INTENT_ITEMS_PER_FIELD: usize = 64;

/// Maximum aggregate UTF-8 bytes across one complete Working Intent snapshot.
pub const MAX_WORKING_INTENT_TOTAL_BYTES: usize = 65536;

/// A text that is not all ASCII in lower case, as Unicode maps it.
pub uninterp spec fn lowercase_beyond_ascii(text: Seq<char>) -> Seq<char>;

/// A text in lower case.
pub open spec fn lowercase(text: Seq<char>) -> Seq<char> {
    if vstd::utf8::is_ascii_chars(text) {
        lowered(text)
    } else {
        lowercase_beyond_ascii(text)
    }
}

/// `str::to_lowercase`: the lowercase equivalent of a text. In a text of ASCII the uppercase letters
/// become the lowercase ones; how Unicode maps other texts is not listed.
pub assume_specification[ str::to_lowercase ](text: &str) -> (folded: String)
    ensures
        vstd::utf8::is_ascii_chars(text@) ==> folded@ == lowered(text@),
        !vstd::utf8::is_ascii_chars(text@) ==> folded@ == lowercase_beyond_ascii(text@),
;

/// What a text says apart from letter case and white space.
pub open spec fn normalized(text: Seq<char>) -> Seq<char> {
    lowercase(joined_by(words(text), " "@))
}

/// Drops what letter case and white space say.
fn normalize(value: &str) -> (text: String)
    ensures
        text@ == normalized(value@),
{
    let parts = split_words(value);
    let joined = join_texts(&parts, " ");
    joined.as_str().to_lowercase()
}

/// The number of UTF-8 bytes of a text.
pub open spec fn byte_length(text: Seq<char>) -> nat {
    encode_utf8(text).len()
}

fn byte_count(text: &str) -> (count: usize)
    ensures
        count == byte_length(text@),
{
    text.as_bytes().len()
}

/// The Agent's current, non-factual understanding of one Task.
///
/// Only `goal` is required on the wire. Every omitted structured field is an empty part of this
/// complete snapshot, not a request for the Agent to invent content.
#[derive(Clone, Debug, PartialEq, Eq)]
pub struct WorkingIntentSnapshot {
    pub goal: String,
    pub current_direction: Option<String>,
    pub in_scope: Vec<String>,
    pub out_of_scope: Vec<String>,
    pub domains: Vec<String>,
    pub platforms: Vec<String>,
    pub constraints: Vec<String>,
    pub acceptance_conditions: Vec<String>,
    /// Non-authoritative retrieval clues; they do not prove that an Artifact exists.
    pub artifact_hints: Vec<String>,
    /// Non-authoritative retrieval clues; they do not prove an Interface contract.
    pub interface_hints: Vec<String>,
    /// Questions the Agent naturally formed; absence never requests an investigation plan.
    pub open_questions: Vec<String>,
}

/// The model of [`WorkingIntentSnapshot`].
pub struct WorkingIntentSnapshotView {
    pub goal: Seq<char>,
    pub current_direction: Option<Seq<char>>,
    pub in_scope: Seq<Seq<char>>,
    pub out_of_scope: Seq<Seq<char>>,
    pub domains: Seq<Seq<char>>,
    pub platforms: Seq<Seq<char>>,
    pub constraints: Seq<Seq<char>>,
    pub acceptance_conditions: Seq<Seq<char>>,
    pub artifact_hints: Seq<Seq<char>>,
    pub interface_hints: Seq<Seq<char>>,
    pub open_questions: Seq<Seq<char>>,
}

impl DeepView for WorkingIntentSnapshot {
    type V = WorkingIntentSnapshotView;

    open spec fn deep_view(&self) -> WorkingIntentSnapshotView {
        WorkingIntentSnapshotView {
            goal: self.goal.deep_view(),
            current_direction: self.current_direction.deep_view(),
            in_scope: self.in_scope.deep_view(),
            out_of_scope: self.out_of_scope.deep_view(),
            domains: self.domains.deep_view(),
            platforms: self.platforms.deep_view(),
            constraints: self.constraints.deep_view(),
            acceptance_conditions: self.acceptance_conditions.deep_view(),
            artifact_hints: self.artifact_hints.deep_view(),
            interface_hints: self.interface_hints.deep_view(),
            open_questions: self.open_questions.deep_view(),
        }
    }
}

impl Value for WorkingIntentSnapshot {
    fn copied(&self) -> (copy: Self) {
        WorkingIntentSnapshot {
            goal: self.goal.copied(),
            current_direction: self.current_direction.copied(),
            in_scope: self.in_scope.copied(),
            out_of_scope: self.out_of_scope.copied(),
            domains: self.domains.copied(),
            platforms: self.platforms.copied(),
            constraints: self.constraints.copied(),
            acceptance_conditions: self.acceptance_conditions.copied(),
            artifact_hints: self.artifact_hints.copied(),
            interface_hints: self.interface_hints.copied(),
            open_questions: self.open_questions.copied(),
        }
    }

    fn same(&self, other: &Self) -> (equal: bool) {
        self.goal.same(&other.goal)
            && self.current_direction.same(&other.current_direction)
            && self.in_scope.same(&other.in_scope)
            && self.out_of_scope.same(&other.out_of_scope)
            && self.domains.same(&other.domains)
            && self.platforms.same(&other.platforms)
            && self.constraints.same(&other.constraints)
            && self.acceptance_conditions.same(&other.acceptance_conditions)
            && self.artifact_hints.same(&other.artifact_hints)
            && self.interface_hints.same(&other.interface_hints)
            && self.open_questions.same(&other.open_questions)
    }
}

impl WorkingIntentSnapshotView {
    /// The JSON members, behind those of `body`.
    pub open spec fn json_members(self, body: Seq<char>) -> Seq<char> {
        let body = with_member(body, "goal"@, <String as Json>::json(self.goal));
        let body = with_member_if(
            body,
            self.current_direction is Some,
            "current_direction"@,
            <Option<String> as Json>::json(self.current_direction),
        );
        let body = with_member_if(
            body,
            self.in_scope.len() > 0,
            "in_scope"@,
            <Vec<String> as Json>::json(self.in_scope),
        );
        let body = with_member_if(
            body,
            self.out_of_scope.len() > 0,
            "out_of_scope"@,
            <Vec<String> as Json>::json(self.out_of_scope),
        );
        let body = with_member_if(
            body,
            self.domains.len() > 0,
            "domains"@,
            <Vec<String> as Json>::json(self.domains),
        );
        let body = with_member_if(
            body,
            self.platforms.len() > 0,
            "platforms"@,
            <Vec<String> as Json>::json(self.platforms),
        );
        let body = with_member_if(
            body,
            self.constraints.len() > 0,
            "constraints"@,
            <Vec<String> as Json>::json(self.constraints),
        );
        let body = with_member_if(
            body,
            self.acceptance_conditions.len() > 0,
            "acceptance_conditions"@,
            <Vec<String> as Json>::json(self.acceptance_conditions),
        );
        let body = with_member_if(
            body,
            self.artifact_hints.len() > 0,
            "artifact_hints"@,
            <Vec<String> as Json>::json(self.artifact_hints),
        );
        let body = with_member_if(
            body,
            self.interface_hints.len() > 0,
            "interface_hints"@,
            <Vec<String> as Json>::json(self.interface_hints),
        );
        let body = with_member_if(
            body,
            self.open_questions.len() > 0,
            "open_questions"@,
            <Vec<String> as Json>::json(self.open_questions),
        );
        body
    }
}

impl WorkingIntentSnapshot {
    fn push_members(&self, text: &mut String)
        ensures
            final(text)@ == self.deep_view().json_members(old(text)@),
    {
        push_member(text, "goal", &self.goal);
        if self.current_direction.is_some() {
            push_member(text, "current_direction", &self.current_direction);
        }
        if self.in_scope.len() > 0 {
            push_member(text, "in_scope", &self.in_scope);
        }
        if self.out_of_scope.len() > 0 {
            push_member(text, "out_of_scope", &self.out_of_scope);
        }
        if self.domains.len() > 0 {
            push_member(text, "domains", &self.domains);
        }
        if self.platforms.len() > 0 {
            push_member(text, "platforms", &self.platforms);
        }
        if self.constraints.len() > 0 {
            push_member(text, "constraints", &self.constraints);
        }
        if self.acceptance_conditions.len() > 0 {
            push_member(text, "acceptance_conditions", &self.acceptance_conditions);
        }
        if self.artifact_hints.len() > 0 {
            push_member(text, "artifact_hints", &self.artifact_hints);
        }
        if self.interface_hints.len() > 0 {
            push_member(text, "interface_hints", &self.interface_hints);
        }
        if self.open_questions.len() > 0 {
            push_member(text, "open_questions", &self.open_questions);
        }
    }
}

impl Json for WorkingIntentSnapshot {
    open spec fn json(model: WorkingIntentSnapshotView) -> Seq<char> {
        object(model.json_members(Seq::<char>::empty()))
    }

    fn write_json(&self, out: &mut String) {
        let mut body = String::new();
        self.push_members(&mut body);
        push_object(out, body.as_str());
    }
}

/// The canonical semantics of a Working Intent: normalized texts and sorted lists.
#[derive(Clone, Debug, PartialEq, Eq)]
pub struct CanonicalWorkingIntent {
    pub goal: String,
    pub current_direction: Option<String>,
    pub in_scope: Vec<String>,
    pub out_of_scope: Vec<String>,
    pub domains: Vec<String>,
    pub platforms: Vec<String>,
    pub constraints: Vec<String>,
    pub acceptance_conditions: Vec<String>,
    pub artifact_hints: Vec<String>,
    pub interface_hints: Vec<String>,
    pub open_questions: Vec<String>,
}

/// The model of [`CanonicalWorkingIntent`].
pub struct CanonicalWorkingIntentView {
    pub goal: Seq<char>,
    pub current_direction: Option<Seq<char>>,
    pub in_scope: Seq<Seq<char>>,
    pub out_of_scope: Seq<Seq<char>>,
    pub domains: Seq<Seq<char>>,
    pub platforms: Seq<Seq<char>>,
    pub constraints: Seq<Seq<char>>,
    pub acceptance_conditions: Seq<Seq<char>>,
    pub artifact_hints: Seq<Seq<char>>,
    pub interface_hints: Seq<Seq<char>>,
    pub open_questions: Seq<Seq<char>>,
}

impl DeepView for CanonicalWorkingIntent {
    type V = CanonicalWorkingIntentView;

    open spec fn deep_view(&self) -> CanonicalWorkingIntentView {
        CanonicalWorkingIntentView {
            goal: self.goal.deep_view(),
            current_direction: self.current_direction.deep_view(),
            in_scope: self.in_scope.deep_view(),
            out_of_scope: self.out_of_scope.deep_view(),
            domains: self.domains.deep_view(),
            platforms: self.platforms.deep_view(),
            constraints: self.constraints.deep_view(),
            acceptance_conditions: self.acceptance_conditions.deep_view(),
            artifact_hints: self.artifact_hints.deep_view(),
            interface_hints: self.interface_hints.deep_view(),
            open_questions: self.open_questions.deep_view(),
        }
    }
}

impl Value for CanonicalWorkingIntent {
    fn copied(&self) -> (copy: Self) {
        CanonicalWorkingIntent {
            goal: self.goal.copied(),
            current_direction: self.current_direction.copied(),
            in_scope: self.in_scope.copied(),
            out_of_scope: self.out_of_scope.copied(),
            domains: self.domains.copied(),
            platforms: self.platforms.copied(),
            constraints: self.constraints.copied(),
            acceptance_conditions: self.acceptance_conditions.copied(),
            artifact_hints: self.artifact_hints.copied(),
            interface_hints: self.interface_hints.copied(),
            open_questions: self.open_questions.copied(),
        }
    }

    fn same(&self, other: &Self) -> (equal: bool) {
        self.goal.same(&other.goal)
            && self.current_direction.same(&other.current_direction)
            && self.in_scope.same(&other.in_scope)
            && self.out_of_scope.same(&other.out_of_scope)
            && self.domains.same(&other.domains)
            && self.platforms.same(&other.platforms)
            && self.constraints.same(&other.constraints)
            && self.acceptance_conditions.same(&other.acceptance_conditions)
            && self.artifact_hints.same(&other.artifact_hints)
            && self.interface_hints.same(&other.interface_hints)
            && self.open_questions.same(&other.open_questions)
    }
}

impl CanonicalWorkingIntentView {
    /// The JSON members, behind those of `body`.
    pub open spec fn json_members(self, body: Seq<char>) -> Seq<char> {
        let body = with_member(body, "goal"@, <String as Json>::json(self.goal));
        let body = with_member(body, "current_direction"@, <Option<String> as Json>::json(self.current_direction));
        let body = with_member(body, "in_scope"@, <Vec<String> as Json>::json(self.in_scope));
        let body = with_member(body, "out_of_scope"@, <Vec<String> as Json>::json(self.out_of_scope));
        let body = with_member(body, "domains"@, <Vec<String> as Json>::json(self.domains));
        let body = with_member(body, "platforms"@, <Vec<String> as Json>::json(self.platforms));
        let body = with_member(body, "constraints"@, <Vec<String> as Json>::json(self.constraints));
        let body = with_member(
            body,
            "acceptance_conditions"@,
            <Vec<String> as Json>::json(self.acceptance_conditions),
        );
        let body = with_member(body, "artifact_hints"@, <Vec<String> as Json>::json(self.artifact_hints));
        let body = with_member(body, "interface_hints"@, <Vec<String> as Json>::json(self.interface_hints));
        let body = with_member(body, "open_questions"@, <Vec<String> as Json>::json(self.open_questions));
        body
    }
}

impl CanonicalWorkingIntent {
    fn push_members(&self, text: &mut String)
        ensures
            final(text)@ == self.deep_view().json_members(old(text)@),
    {
        push_member(text, "goal", &self.goal);
        push_member(text, "current_direction", &self.current_direction);
        push_member(text, "in_scope", &self.in_scope);
        push_member(text, "out_of_scope", &self.out_of_scope);
        push_member(text, "domains", &self.domains);
        push_member(text, "platforms", &self.platforms);
        push_member(text, "constraints", &self.constraints);
        push_member(text, "acceptance_conditions", &self.acceptance_conditions);
        push_member(text, "artifact_hints", &self.artifact_hints);
        push_member(text, "interface_hints", &self.interface_hints);
        push_member(text, "open_questions", &self.open_questions);
    }
}

impl Json for CanonicalWorkingIntent {
    open spec fn json(model: CanonicalWorkingIntentView) -> Seq<char> {
        object(model.json_members(Seq::<char>::empty()))
    }

    fn write_json(&self, out: &mut String) {
        let mut body = String::new();
        self.push_members(&mut body);
        push_object(out, body.as_str());
    }
}

/// Requires a text that is neither blank nor too long.
pub open spec fn bounded_text_problem(value: Seq<char>, field: Seq<char>, max_bytes: nat) -> Option<ErrorView> {
    first(
        given(blank(value), invalid(field + " must not be empty"@)),
        given(
            byte_length(value) > max_bytes,
            invalid(field + " exceeds "@ + decimal(max_bytes) + " UTF-8 bytes"@),
        ),
    )
}

fn validate_text(value: &str, field: &str, max_bytes: usize) -> (result: Result<()>)
    ensures
        fails_as(result, bounded_text_problem(value@, field@, max_bytes as nat)),
{
    if is_blank(value) {
        let message = joined2(field, " must not be empty");
        return Err(invalid_input(message.as_str()));
    }
    if byte_count(value) > max_bytes {
        let limit = decimal_text(max_bytes as u64);
        let message = joined4(field, " exceeds ", limit.as_str(), " UTF-8 bytes");
        return Err(invalid_input(message.as_str()));
    }
    Ok(())
}

/// The normalized entries of a list.
pub open spec fn normalized_items(values: Seq<Seq<char>>) -> Seq<Seq<char>> {
    Seq::new(values.len(), |i: int| normalized(values[i]))
}

/// The check of each entry of a bounded list, given those before it.
pub open spec fn bounded_item_problem(values: Seq<Seq<char>>, field: Seq<char>) -> spec_fn(int) -> Option<ErrorView> {
    |i: int|
        first(
            bounded_text_problem(values[i], entry(field, i as nat), 1024),
            given(
                normalized_items(values).take(i).contains(normalized(values[i])),
                invalid(field + " must not contain canonically duplicate items"@),
            ),
        )
}

/// Requires a list of bounded length, of bounded entries, none of which says the same as another.
pub open spec fn bounded_list_problem(values: Seq<Seq<char>>, field: Seq<char>) -> Option<ErrorView> {
    first(
        given(values.len() > 64, invalid(field + " exceeds "@ + decimal(64) + " items"@)),
        first_from(bounded_item_problem(values, field), 0, values.len()),
    )
}

fn validate_list(values: &Vec<String>, field: &str) -> (result: Result<()>)
    ensures
        fails_as(result, bounded_list_problem(values.deep_view(), field@)),
        result is Ok ==> values@.len() <= 64,
        result is Ok ==> forall|i: int|
            0 <= i < values@.len() ==> byte_length(#[trigger] values.deep_view()[i]) <= 1024,
{
    if values.len() > MAX_WORKING_INTENT_ITEMS_PER_FIELD {
        let limit = decimal_text(64);
        let message = joined4(field, " exceeds ", limit.as_str(), " items");
        return Err(invalid_input(message.as_str()));
    }
    let ghost model = values.deep_view();
    let ghost problem = bounded_item_problem(model, field@);
    let mut seen: Vec<String> = Vec::new();
    let mut index: usize = 0;
    while index < values.len()
        invariant
            index <= values@.len() <= 64,
            model == values.deep_view(),
            problem == bounded_item_problem(model, field@),
            seen.deep_view() == normalized_items(model).take(index as int),
            forall|i: int| 0 <= i < index ==> byte_length(#[trigger] model[i]) <= 1024,
            first_from(problem, 0, model.len()) == first_from(problem, index as nat, model.len()),
        decreases values@.len() - index,
    {
        let name = entry_name(field, index);
        assert(values@[index as int]@ == model[index as int]);
        validate_text(values[index].as_str(), name.as_str(), MAX_WORKING_INTENT_ITEM_BYTES)?;
        let canonical = normalize(values[index].as_str());
        if crate::checks::is_among(&seen, &canonical) {
            let message = joined2(field, " must not contain canonically duplicate items");
            return Err(invalid_input(message.as_str()));
        }
        push_value(&mut seen, canonical);
        proof {
            take_next(normalized_items(model), index as int);
        }
        index = index + 1;
    }
    Ok(())
}

/// The number of UTF-8 bytes of all entries of a list.
pub open spec fn list_bytes(values: Seq<Seq<char>>) -> nat
    decreases values.len(),
{
    if values.len() == 0 {
        0
    } else {
        list_bytes(values.drop_last()) + byte_length(values.last())
    }
}

fn count_list_bytes(values: &Vec<String>) -> (count: usize)
    requires
        values@.len() <= 64,
        forall|i: int| 0 <= i < values@.len() ==> byte_length(#[trigger] values.deep_view()[i]) <= 1024,
    ensures
        count == list_bytes(values.deep_view()),
        count <= 65536,
{
    let ghost model = values.deep_view();
    let mut count: usize = 0;
    let mut index: usize = 0;
    while index < values.len()
        invariant
            index <= values@.len() <= 64,
            model == values.deep_view(),
            forall|i: int| 0 <= i < values@.len() ==> byte_length(#[trigger] model[i]) <= 1024,
            count == list_bytes(model.take(index as int)),
            count <= 1024 * index,
        decreases values@.len() - index,
    {
        assert(values@[index as int]@ == model[index as int]);
        count = count + byte_count(values[index].as_str());
        proof {
            take_next(model, index as int);
        }
        index = index + 1;
    }
    proof {
        take_all(model);
    }
    count
}

/// The position of the first in-scope entry that is also out of scope, from a position on.
pub open spec fn overlap_from(in_scope: Seq<Seq<char>>, out_of_scope: Seq<Seq<char>>, from: int) -> Option<int>
    decreases in_scope.len() - from,
{
    if from < 0 || from >= in_scope.len() {
        None
    } else if out_of_scope.contains(in_scope[from]) {
        Some(from)
    } else {
        overlap_from(in_scope, out_of_scope, from + 1)
    }
}

/// Requires that nothing is both in scope and out of scope.
pub open spec fn overlap_problem(in_scope: Seq<Seq<char>>, out_of_scope: Seq<Seq<char>>) -> Option<ErrorView> {
    match overlap_from(normalized_items(in_scope), normalized_items(out_of_scope), 0) {
        Some(at) => invalid(
            "working_intent.in_scope and out_of_scope overlap: "@ + normalized(in_scope[at]),
        ),
        None => None,
    }
}

fn normalize_all(values: &Vec<String>) -> (items: Vec<String>)
    ensures
        items.deep_view() == normalized_items(values.deep_view()),
{
    let ghost model = values.deep_view();
    let mut items: Vec<String> = Vec::new();
    let mut index: usize = 0;
    while index < values.len()
        invariant
            index <= values@.len(),
            model == values.deep_view(),
            items.deep_view() == normalized_items(model).take(index as int),
        decreases values@.len() - index,
    {
        assert(values@[index as int]@ == model[index as int]);
        push_value(&mut items, normalize(values[index].as_str()));
        proof {
            take_next(normalized_items(model), index as int);
        }
        index = index + 1;
    }
    proof {
        take_all(normalized_items(model));
    }
    items
}

fn validate_scopes(in_scope: &Vec<String>, out_of_scope: &Vec<String>) -> (result: Result<()>)
    ensures
        fails_as(result, overlap_problem(in_scope.deep_view(), out_of_scope.deep_view())),
{
    let inside = normalize_all(in_scope);
    let outside = normalize_all(out_of_scope);
    let mut index: usize = 0;
    while index < inside.len()
        invariant
            index <= inside@.len(),
            inside.deep_view() == normalized_items(in_scope.deep_view()),
            outside.deep_view() == normalized_items(out_of_scope.deep_view()),
            overlap_from(inside.deep_view(), outside.deep_view(), 0) == overlap_from(
                inside.deep_view(),
                outside.deep_view(),
                index as int,
            ),
        decreases inside@.len() - index,
    {
        if crate::checks::is_among(&outside, &inside[index]) {
            assert(inside@[index as int]@ == inside.deep_view()[index as int]);
            let message = joined2("working_intent.in_scope and out_of_scope overlap: ", inside[index].as_str());
            return Err(invalid_input(message.as_str()));
        }
        index = index + 1;
    }
    Ok(())
}

/// The canonical form of a list: its normalized entries, sorted.
pub open spec fn canonical_items(values: Seq<Seq<char>>) -> Seq<Seq<char>> {
    sorted_listing::<String>(normalized_items(values).to_multiset())
}

fn canonical_list(values: &Vec<String>) -> (items: Vec<String>)
    ensures
        items.deep_view() == canonical_items(values.deep_view()),
{
    sort_values(normalize_all(values))
}

impl WorkingIntentSnapshotView {
    /// Why the lists are invalid, if they are.
    pub open spec fn list_problem(self) -> Option<ErrorView> {
        first(
            bounded_list_problem(self.in_scope, "working_intent.in_scope"@),
            first(
                bounded_list_problem(self.out_of_scope, "working_intent.out_of_scope"@),
                first(
                    bounded_list_problem(self.domains, "working_intent.domains"@),
                    first(
                        bounded_list_problem(self.platforms, "working_intent.platforms"@),
                        first(
                            bounded_list_problem(self.constraints, "working_intent.constraints"@),
                            first(
                                bounded_list_problem(
                                    self.acceptance_conditions,
                                    "working_intent.acceptance_conditions"@,
                                ),
                                first(
                                    bounded_list_problem(self.artifact_hints, "working_intent.artifact_hints"@),
                                    first(
                                        bounded_list_problem(self.interface_hints, "working_intent.interface_hints"@),
                                        bounded_list_problem(self.open_questions, "working_intent.open_questions"@),
                                    ),
                                ),
                            ),
                        ),
                    ),
                ),
            ),
        )
    }

    /// The number of UTF-8 bytes of all texts.
    pub open spec fn total_bytes(self) -> nat {
        byte_length(self.goal) + (match self.current_direction {
            Some(direction) => byte_length(direction),
            None => 0,
        }) + list_bytes(self.in_scope) + list_bytes(self.out_of_scope) + list_bytes(self.domains) + list_bytes(
            self.platforms,
        ) + list_bytes(self.constraints) + list_bytes(self.acceptance_conditions) + list_bytes(self.artifact_hints)
            + list_bytes(self.interface_hints) + list_bytes(self.open_questions)
    }

    /// Why a Working Intent is invalid, if it is.
    pub open spec fn problem(self) -> Option<ErrorView> {
        first(
            bounded_text_problem(self.goal, "working_intent.goal"@, 4096),
            first(
                match self.current_direction {
                    Some(direction) => bounded_text_problem(direction, "working_intent.current_direction"@, 4096),
                    None => None,
                },
                first(
                    self.list_problem(),
                    first(
                        overlap_problem(self.in_scope, self.out_of_scope),
                        given(
                            self.total_bytes() > 65536,
                            invalid("Working Intent exceeds 65536 total UTF-8 bytes"@),
                        ),
                    ),
                ),
            ),
        )
    }

    /// The canonical semantics.
    pub open spec fn canonical(self) -> CanonicalWorkingIntentView {
        CanonicalWorkingIntentView {
            goal: normalized(self.goal),
            current_direction: match self.current_direction {
                Some(direction) => Some(normalized(direction)),
                None => None,
            },
            in_scope: canonical_items(self.in_scope),
            out_of_scope: canonical_items(self.out_of_scope),
            domains: canonical_items(self.domains),
            platforms: canonical_items(self.platforms),
            constraints: canonical_items(self.constraints),
            acceptance_conditions: canonical_items(self.acceptance_conditions),
            artifact_hints: canonical_items(self.artifact_hints),
            interface_hints: canonical_items(self.interface_hints),
            open_questions: canonical_items(self.open_questions),
        }
    }

    /// The hash of the canonical semantics.
    pub open spec fn semantic_hash(self) -> Seq<char> {
        "sha256:"@ + sha256_hex(encode_utf8(<CanonicalWorkingIntent as Json>::json(self.canonical())))
    }
}

/// List order and repetition of letter case or white space carry no meaning: two snapshots whose
/// texts agree when normalized and whose lists hold the same normalized entries have the same
/// canonical semantics, hence the same hash.
pub proof fn canonical_semantics_ignore_spelling_and_order(
    left: WorkingIntentSnapshotView,
    right: WorkingIntentSnapshotView,
)
    requires
        normalized(left.goal) == normalized(right.goal),
        left.current_direction is Some <==> right.current_direction is Some,
        left.current_direction is Some ==> normalized(left.current_direction->0) == normalized(
            right.current_direction->0,
        ),
        normalized_items(left.in_scope).to_multiset() == normalized_items(right.in_scope).to_multiset(),
        normalized_items(left.out_of_scope).to_multiset() == normalized_items(right.out_of_scope).to_multiset(),
        normalized_items(left.domains).to_multiset() == normalized_items(right.domains).to_multiset(),
        normalized_items(left.platforms).to_multiset() == normalized_items(right.platforms).to_multiset(),
        normalized_items(left.constraints).to_multiset() == normalized_items(right.constraints).to_multiset(),
        normalized_items(left.acceptance_conditions).to_multiset() == normalized_items(
            right.acceptance_conditions,
        ).to_multiset(),
        normalized_items(left.artifact_hints).to_multiset() == normalized_items(right.artifact_hints).to_multiset(),
        normalized_items(left.interface_hints).to_multiset() == normalized_items(right.interface_hints).to_multiset(),
        normalized_items(left.open_questions).to_multiset() == normalized_items(right.open_questions).to_multiset(),
    ensures
        left.canonical() == right.canonical(),
        left.semantic_hash() == right.semantic_hash(),
{
}

impl WorkingIntentSnapshot {
    /// Creates a goal-only Working Intent snapshot.
    pub fn new(goal: &str) -> (result: Result<Self>)
        ensures
            fails_as(result, bounded_text_problem(goal@, "working_intent.goal"@, 4096)),
            result is Ok ==> result->Ok_0.deep_view() == (WorkingIntentSnapshotView {
                goal: goal@,
                current_direction: None,
                in_scope: Seq::empty(),
                out_of_scope: Seq::empty(),
                domains: Seq::empty(),
                platforms: Seq::empty(),
                constraints: Seq::empty(),
                acceptance_conditions: Seq::empty(),
                artifact_hints: Seq::empty(),
                interface_hints: Seq::empty(),
                open_questions: Seq::empty(),
            }),
    {
        let snapshot = WorkingIntentSnapshot {
            goal: goal.to_owned(),
            current_direction: None,
            in_scope: Vec::new(),
            out_of_scope: Vec::new(),
            domains: Vec::new(),
            platforms: Vec::new(),
            constraints: Vec::new(),
            acceptance_conditions: Vec::new(),
            artifact_hints: Vec::new(),
            interface_hints: Vec::new(),
            open_questions: Vec::new(),
        };
        proof {
            let model = snapshot.deep_view();
            assert(model.in_scope =~= Seq::empty());
            assert(model.out_of_scope =~= Seq::empty());
            assert(model.domains =~= Seq::empty());
            assert(model.platforms =~= Seq::empty());
            assert(model.constraints =~= Seq::empty());
            assert(model.acceptance_conditions =~= Seq::empty());
            assert(model.artifact_hints =~= Seq::empty());
            assert(model.interface_hints =~= Seq::empty());
            assert(model.open_questions =~= Seq::empty());
            assert(overlap_problem(model.in_scope, model.out_of_scope) is None);
            reveal_with_fuel(first_from, 1);
        }
        snapshot.validate()?;
        Ok(snapshot)
    }

    fn validate_lists(&self) -> (result: Result<usize>)
        ensures
            fails_as(result, self.deep_view().list_problem()),
            result is Ok ==> result->Ok_0 <= 589824 && result->Ok_0 == list_bytes(self.in_scope.deep_view())
                + list_bytes(self.out_of_scope.deep_view()) + list_bytes(self.domains.deep_view()) + list_bytes(
                self.platforms.deep_view(),
            ) + list_bytes(self.constraints.deep_view()) + list_bytes(self.acceptance_conditions.deep_view())
                + list_bytes(self.artifact_hints.deep_view()) + list_bytes(self.interface_hints.deep_view())
                + list_bytes(self.open_questions.deep_view()),
    {
        validate_list(&self.in_scope, "working_intent.in_scope")?;
        validate_list(&self.out_of_scope, "working_intent.out_of_scope")?;
        validate_list(&self.domains, "working_intent.domains")?;
        validate_list(&self.platforms, "working_intent.platforms")?;
        validate_list(&self.constraints, "working_intent.constraints")?;
        validate_list(&self.acceptance_conditions, "working_intent.acceptance_conditions")?;
        validate_list(&self.artifact_hints, "working_intent.artifact_hints")?;
        validate_list(&self.interface_hints, "working_intent.interface_hints")?;
        validate_list(&self.open_questions, "working_intent.open_questions")?;
        Ok(
            count_list_bytes(&self.in_scope) + count_list_bytes(&self.out_of_scope) + count_list_bytes(&self.domains)
                + count_list_bytes(&self.platforms) + count_list_bytes(&self.constraints) + count_list_bytes(
                &self.acceptance_conditions,
            ) + count_list_bytes(&self.artifact_hints) + count_list_bytes(&self.interface_hints) + count_list_bytes(
                &self.open_questions,
            ),
        )
    }

    /// Validates bounded, non-empty, unique structured content and explicit scope consistency.
    pub fn validate(&self) -> (result: Result<()>)
        ensures
            fails_as(result, self.deep_view().problem()),
    {
        validate_text(self.goal.as_str(), "working_intent.goal", MAX_WORKING_INTENT_TEXT_BYTES)?;
        let mut total = byte_count(self.goal.as_str());
        if let Some(direction) = &self.current_direction {
            validate_text(
                direction.as_str(),
                "working_intent.current_direction",
                MAX_WORKING_INTENT_TEXT_BYTES,
            )?;
            total = total + byte_count(direction.as_str());
        }
        let listed = self.validate_lists()?;
        total = total + listed;
        validate_scopes(&self.in_scope, &self.out_of_scope)?;
        if total > MAX_WORKING_INTENT_TOTAL_BYTES {
            return Err(invalid_input("Working Intent exceeds 65536 total UTF-8 bytes"));
        }
        Ok(())
    }

    /// Returns a stable hash of bounded canonical semantics without changing authoritative text.
    ///
    /// Whitespace runs, letter case, and structured-list ordering are explicitly non-semantic.
    pub fn canonical_semantic_hash(&self) -> (result: Result<String>)
        ensures
            fails_as(result, self.deep_view().problem()),
            result is Ok ==> result->Ok_0@ == self.deep_view().semantic_hash() && is_prefixed_digest(
                result->Ok_0@,
                "sha256:"@,
            ),
    {
        self.validate()?;
        let canonical = self.canonical();
        let mut encoded = String::new();
        canonical.write_json(&mut encoded);
        assert(encoded@ =~= <CanonicalWorkingIntent as Json>::json(canonical.deep_view()));
        let mut bytes: Vec<u8> = Vec::new();
        push_text(&mut bytes, encoded.as_str());
        assert(bytes@ =~= encode_utf8(encoded@));
        let digest = sha256_text(&bytes);
        proof {
            prefixed_digests_have_one_form("sha256:"@, bytes@);
        }
        Ok(joined2("sha256:", digest.as_str()))
    }

    /// Compares canonical semantics while preserving both authoritative snapshots verbatim.
    pub fn canonically_equals(&self, other: &Self) -> (result: Result<bool>)
        ensures
            fails_as(result, first(self.deep_view().problem(), other.deep_view().problem())),
            result is Ok ==> result->Ok_0 == (self.deep_view().canonical() == other.deep_view().canonical()),
    {
        self.validate()?;
        other.validate()?;
        let left = self.canonical();
        let right = other.canonical();
        Ok(left.same(&right))
    }

    fn canonical(&self) -> (canonical: CanonicalWorkingIntent)
        ensures
            canonical.deep_view() == self.deep_view().canonical(),
    {
        CanonicalWorkingIntent {
            goal: normalize(self.goal.as_str()),
            current_direction: match &self.current_direction {
                Some(direction) => Some(normalize(direction.as_str())),
                None => None,
            },
            in_scope: canonical_list(&self.in_scope),
            out_of_scope: canonical_list(&self.out_of_scope),
            domains: canonical_list(&self.domains),
            platforms: canonical_list(&self.platforms),
            constraints: canonical_list(&self.constraints),
            acceptance_conditions: canonical_list(&self.acceptance_conditions),
            artifact_hints: canonical_list(&self.artifact_hints),
            interface_hints: canonical_list(&self.interface_hints),
            open_questions: canonical_list(&self.open_questions),
        }
    }
}

/// The names of the members of canonical semantics.
spec fn canonical_names() -> Seq<Seq<char>> {
    seq![
        "goal"@,
        "current_direction"@,
        "in_scope"@,
        "out_of_scope"@,
        "domains"@,
        "platforms"@,
        "constraints"@,
        "acceptance_conditions"@,
        "artifact_hints"@,
        "interface_hints"@,
        "open_questions"@,
    ]
}

impl CanonicalWorkingIntentView {
    /// The lists of canonical semantics.
    spec fn lists(self) -> Seq<Seq<Seq<char>>> {
        seq![
            self.in_scope,
            self.out_of_scope,
            self.domains,
            self.platforms,
            self.constraints,
            self.acceptance_conditions,
            self.artifact_hints,
            self.interface_hints,
            self.open_questions,
        ]
    }

    /// The values of the members of canonical semantics.
    spec fn values(self) -> Seq<Seq<char>> {
        seq![<String as Json>::json(self.goal), <Option<String> as Json>::json(self.current_direction)] + Seq::new(
            9,
            |i: int| <Vec<String> as Json>::json(self.lists()[i]),
        )
    }
}

proof fn canonical_members(model: CanonicalWorkingIntentView)
    ensures
        <CanonicalWorkingIntent as Json>::json(model) == object(
            first_members(canonical_names(), model.values(), canonical_names().len()),
        ),
{
    let (names, values) = (canonical_names(), model.values());
    reveal_with_fuel(first_members, 12);
    assert(values[0] == <String as Json>::json(model.goal));
    assert(values[1] == <Option<String> as Json>::json(model.current_direction));
    assert(values[2] == <Vec<String> as Json>::json(model.in_scope));
    assert(values[3] == <Vec<String> as Json>::json(model.out_of_scope));
    assert(values[4] == <Vec<String> as Json>::json(model.domains));
    assert(values[5] == <Vec<String> as Json>::json(model.platforms));
    assert(values[6] == <Vec<String> as Json>::json(model.constraints));
    assert(values[7] == <Vec<String> as Json>::json(model.acceptance_conditions));
    assert(values[8] == <Vec<String> as Json>::json(model.artifact_hints));
    assert(values[9] == <Vec<String> as Json>::json(model.interface_hints));
    assert(values[10] == <Vec<String> as Json>::json(model.open_questions));
}

proof fn texts_alone_read_back(left: Seq<char>, right: Seq<char>)
    ensures
        reads_back(<String as Json>::json(left), <String as Json>::json(right)),
        <String as Json>::json(left) == <String as Json>::json(right) ==> left == right,
{
    reveal(reads_back);
    let (a, b) = (<String as Json>::json(left), <String as Json>::json(right));
    assert forall|x: Seq<char>, y: Seq<char>| #[trigger] (a + x) == #[trigger] (b + y) implies a == b by {
        literals_read_back(left, right, x, y);
    }
    if a == b {
        literals_read_back(left, right, Seq::empty(), Seq::empty());
    }
}

proof fn options_alone_read_back(left: Option<Seq<char>>, right: Option<Seq<char>>)
    ensures
        reads_back(<Option<String> as Json>::json(left), <Option<String> as Json>::json(right)),
        <Option<String> as Json>::json(left) == <Option<String> as Json>::json(right) ==> left == right,
{
    reveal(reads_back);
    let (a, b) = (<Option<String> as Json>::json(left), <Option<String> as Json>::json(right));
    assert forall|x: Seq<char>, y: Seq<char>| #[trigger] (a + x) == #[trigger] (b + y) implies a == b by {
        options_read_back(left, right, x, y);
    }
    if a == b {
        options_read_back(left, right, Seq::empty(), Seq::empty());
    }
}

proof fn lists_alone_read_back(left: Seq<Seq<char>>, right: Seq<Seq<char>>)
    ensures
        reads_back(<Vec<String> as Json>::json(left), <Vec<String> as Json>::json(right)),
        <Vec<String> as Json>::json(left) == <Vec<String> as Json>::json(right) ==> left == right,
{
    reveal(reads_back);
    let (a, b) = (<Vec<String> as Json>::json(left), <Vec<String> as Json>::json(right));
    assert forall|x: Seq<char>, y: Seq<char>| #[trigger] (a + x) == #[trigger] (b + y) implies a == b by {
        lists_read_back(left, right, x, y);
    }
    if a == b {
        lists_read_back(left, right, Seq::empty(), Seq::empty());
    }
}

proof fn canonical_values_read_back(left: CanonicalWorkingIntentView, right: CanonicalWorkingIntentView, at: int)
    requires
        0 <= at < 11,
    ensures
        reads_back(left.values()[at], right.values()[at]),
{
    if at == 0 {
        texts_alone_read_back(left.goal, right.goal);
    } else if at == 1 {
        options_alone_read_back(left.current_direction, right.current_direction);
    } else {
        lists_alone_read_back(left.lists()[at - 2], right.lists()[at - 2]);
    }
}

proof fn same_lists(left: CanonicalWorkingIntentView, right: CanonicalWorkingIntentView, at: int)
    requires
        0 <= at < 9,
        left.values()[at + 2] == right.values()[at + 2],
    ensures
        left.lists()[at] == right.lists()[at],
{
    lists_alone_read_back(left.lists()[at], right.lists()[at]);
}

proof fn same_members_same_semantics(left: CanonicalWorkingIntentView, right: CanonicalWorkingIntentView)
    requires
        object(first_members(canonical_names(), left.values(), canonical_names().len())) == object(
            first_members(canonical_names(), right.values(), canonical_names().len()),
        ),
    ensures
        left == right,
{
    let names = canonical_names();
    let (x, y) = (left.values(), right.values());
    assert forall|i: int| 0 <= i < names.len() implies reads_back(#[trigger] x[i], y[i]) by {
        canonical_values_read_back(left, right, i);
    }
    objects_read_back(names, x, y, names.len());
    assert(x[0] == y[0] && x[1] == y[1]);
    texts_alone_read_back(left.goal, right.goal);
    options_alone_read_back(left.current_direction, right.current_direction);
    assert forall|i: int| 0 <= i < 9 implies #[trigger] left.lists()[i] == right.lists()[i] by {
        assert(x[i + 2] == y[i + 2]);
        same_lists(left, right, i);
    }
    assert(left.lists()[0] == right.lists()[0]);
    assert(left.lists()[1] == right.lists()[1]);
    assert(left.lists()[2] == right.lists()[2]);
    assert(left.lists()[3] == right.lists()[3]);
    assert(left.lists()[4] == right.lists()[4]);
    assert(left.lists()[5] == right.lists()[5]);
    assert(left.lists()[6] == right.lists()[6]);
    assert(left.lists()[7] == right.lists()[7]);
    assert(left.lists()[8] == right.lists()[8]);
}

/// Every dimension of canonical semantics changes what the semantic hash digests: two snapshots
/// whose hashes digest the same bytes have the same canonical semantics.
pub proof fn semantic_hashes_digest_every_dimension(left: WorkingIntentSnapshotView, right: WorkingIntentSnapshotView)
    requires
        encode_utf8(<CanonicalWorkingIntent as Json>::json(left.canonical())) == encode_utf8(
            <CanonicalWorkingIntent as Json>::json(right.canonical()),
        ),
    ensures
        left.canonical() == right.canonical(),
{
    let (a, b) = (left.canonical(), right.canonical());
    vstd::utf8::encode_utf8_decode_utf8(<CanonicalWorkingIntent as Json>::json(a));
    vstd::utf8::encode_utf8_decode_utf8(<CanonicalWorkingIntent as Json>::json(b));
    canonical_members(a);
    canonical_members(b);
    same_members_same_semantics(a, b);
}

/// The JSON text of [`WorkingIntentSnapshot`] writes every field of it under its own name.
pub proof fn working_intent_snapshot_json_writes_every_field(model: WorkingIntentSnapshotView)
    ensures
        writes(<WorkingIntentSnapshot as Json>::json(model), "goal"@, <String as Json>::json(model.goal)),
        model.current_direction is Some ==> writes(
            <WorkingIntentSnapshot as Json>::json(model),
            "current_direction"@,
            <Option<String> as Json>::json(model.current_direction),
        ),
        model.in_scope.len() > 0 ==> writes(
            <WorkingIntentSnapshot as Json>::json(model),
            "in_scope"@,
            <Vec<String> as Json>::json(model.in_scope),
        ),
        model.out_of_scope.len() > 0 ==> writes(
            <WorkingIntentSnapshot as Json>::json(model),
            "out_of_scope"@,
            <Vec<String> as Json>::json(model.out_of_scope),
        ),
        model.domains.len() > 0 ==> writes(
            <WorkingIntentSnapshot as Json>::json(model),
            "domains"@,
            <Vec<String> as Json>::json(model.domains),
        ),
        model.platforms.len() > 0 ==> writes(
            <WorkingIntentSnapshot as Json>::json(model),
            "platforms"@,
            <Vec<String> as Json>::json(model.platforms),
        ),
        model.constraints.len() > 0 ==> writes(
            <WorkingIntentSnapshot as Json>::json(model),
            "constraints"@,
            <Vec<String> as Json>::json(model.constraints),
        ),
        model.acceptance_conditions.len() > 0 ==> writes(
            <WorkingIntentSnapshot as Json>::json(model),
            "acceptance_conditions"@,
            <Vec<String> as Json>::json(model.acceptance_conditions),
        ),
        model.artifact_hints.len() > 0 ==> writes(
            <WorkingIntentSnapshot as Json>::json(model),
            "artifact_hints"@,
            <Vec<String> as Json>::json(model.artifact_hints),
        ),
        model.interface_hints.len() > 0 ==> writes(
            <WorkingIntentSnapshot as Json>::json(model),
            "interface_hints"@,
            <Vec<String> as Json>::json(model.interface_hints),
        ),
        model.open_questions.len() > 0 ==> writes(
            <WorkingIntentSnapshot as Json>::json(model),
            "open_questions"@,
            <Vec<String> as Json>::json(model.open_questions),
        ),
{
    let b0 = Seq::<char>::empty();
    let b1 = with_member(b0, "goal"@, <String as Json>::json(model.goal));
    members_are_written(b0, "goal"@, <String as Json>::json(model.goal));
    let b2 = with_member_if(
        b1,
        model.current_direction is Some,
        "current_direction"@,
        <Option<String> as Json>::json(model.current_direction),
    );
    members_there_are_written(
        b1,
        model.current_direction is Some,
        "current_direction"@,
        <Option<String> as Json>::json(model.current_direction),
    );
    let b3 = with_member_if(b2, model.in_scope.len() > 0, "in_scope"@, <Vec<String> as Json>::json(model.in_scope));
    members_there_are_written(b2, model.in_scope.len() > 0, "in_scope"@, <Vec<String> as Json>::json(model.in_scope));
    let b4 = with_member_if(
        b3,
        model.out_of_scope.len() > 0,
        "out_of_scope"@,
        <Vec<String> as Json>::json(model.out_of_scope),
    );
    members_there_are_written(
        b3,
        model.out_of_scope.len() > 0,
        "out_of_scope"@,
        <Vec<String> as Json>::json(model.out_of_scope),
    );
    let b5 = with_member_if(b4, model.domains.len() > 0, "domains"@, <Vec<String> as Json>::json(model.domains));
    members_there_are_written(b4, model.domains.len() > 0, "domains"@, <Vec<String> as Json>::json(model.domains));
    let b6 = with_member_if(
        b5,
        model.platforms.len() > 0,
        "platforms"@,
        <Vec<String> as Json>::json(model.platforms),
    );
    members_there_are_written(
        b5,
        model.platforms.len() > 0,
        "platforms"@,
        <Vec<String> as Json>::json(model.platforms),
    );
    let b7 = with_member_if(
        b6,
        model.constraints.len() > 0,
        "constraints"@,
        <Vec<String> as Json>::json(model.constraints),
    );
    members_there_are_written(
        b6,
        model.constraints.len() > 0,
        "constraints"@,
        <Vec<String> as Json>::json(model.constraints),
    );
    let b8 = with_member_if(
        b7,
        model.acceptance_conditions.len() > 0,
        "acceptance_conditions"@,
        <Vec<String> as Json>::json(model.acceptance_conditions),
    );
    members_there_are_written(
        b7,
        model.acceptance_conditions.len() > 0,
        "acceptance_conditions"@,
        <Vec<String> as Json>::json(model.acceptance_conditions),
    );
    let b9 = with_member_if(
        b8,
        model.artifact_hints.len() > 0,
        "artifact_hints"@,
        <Vec<String> as Json>::json(model.artifact_hints),
    );
    members_there_are_written(
        b8,
        model.artifact_hints.len() > 0,
        "artifact_hints"@,
        <Vec<String> as Json>::json(model.artifact_hints),
    );
    let b10 = with_member_if(
        b9,
        model.interface_hints.len() > 0,
        "interface_hints"@,
        <Vec<String> as Json>::json(model.interface_hints),
    );
    members_there_are_written(
        b9,
        model.interface_hints.len() > 0,
        "interface_hints"@,
        <Vec<String> as Json>::json(model.interface_hints),
    );
    let b11 = with_member_if(
        b10,
        model.open_questions.len() > 0,
        "open_questions"@,
        <Vec<String> as Json>::json(model.open_questions),
    );
    members_there_are_written(
        b10,
        model.open_questions.len() > 0,
        "open_questions"@,
        <Vec<String> as Json>::json(model.open_questions),
    );
    assert(model.json_members(b0) == b11);
    objects_write_their_body(b11);
}

/// The JSON text of [`CanonicalWorkingIntent`] writes every field of it under its own name.
pub proof fn canonical_working_intent_json_writes_every_field(model: CanonicalWorkingIntentView)
    ensures
        writes(<CanonicalWorkingIntent as Json>::json(model), "goal"@, <String as Json>::json(model.goal)),
        writes(
            <CanonicalWorkingIntent as Json>::json(model),
            "current_direction"@,
            <Option<String> as Json>::json(model.current_direction),
        ),
        writes(
            <CanonicalWorkingIntent as Json>::json(model),
            "in_scope"@,
            <Vec<String> as Json>::json(model.in_scope),
        ),
        writes(
            <CanonicalWorkingIntent as Json>::json(model),
            "out_of_scope"@,
            <Vec<String> as Json>::json(model.out_of_scope),
        ),
        writes(<CanonicalWorkingIntent as Json>::json(model), "domains"@, <Vec<String> as Json>::json(model.domains)),
        writes(
            <CanonicalWorkingIntent as Json>::json(model),
            "platforms"@,
            <Vec<String> as Json>::json(model.platforms),
        ),
        writes(
            <CanonicalWorkingIntent as Json>::json(model),
            "constraints"@,
            <Vec<String> as Json>::json(model.constraints),
        ),
        writes(
            <CanonicalWorkingIntent as Json>::json(model),
            "acceptance_conditions"@,
            <Vec<String> as Json>::json(model.acceptance_conditions),
        ),
        writes(
            <CanonicalWorkingIntent as Json>::json(model),
            "artifact_hints"@,
            <Vec<String> as Json>::json(model.artifact_hints),
        ),
        writes(
            <CanonicalWorkingIntent as Json>::json(model),
            "interface_hints"@,
            <Vec<String> as Json>::json(model.interface_hints),
        ),
        writes(
            <CanonicalWorkingIntent as Json>::json(model),
            "open_questions"@,
            <Vec<String> as Json>::json(model.open_questions),
        ),
{
    let b0 = Seq::<char>::empty();
    let b1 = with_member(b0, "goal"@, <String as Json>::json(model.goal));
    members_are_written(b0, "goal"@, <String as Json>::json(model.goal));
    let b2 = with_member(b1, "current_direction"@, <Option<String> as Json>::json(model.current_direction));
    members_are_written(b1, "current_direction"@, <Option<String> as Json>::json(model.current_direction));
    let b3 = with_member(b2, "in_scope"@, <Vec<String> as Json>::json(model.in_scope));
    members_are_written(b2, "in_scope"@, <Vec<String> as Json>::json(model.in_scope));
    let b4 = with_member(b3, "out_of_scope"@, <Vec<String> as Json>::json(model.out_of_scope));
    members_are_written(b3, "out_of_scope"@, <Vec<String> as Json>::json(model.out_of_scope));
    let b5 = with_member(b4, "domains"@, <Vec<String> as Json>::json(model.domains));
    members_are_written(b4, "domains"@, <Vec<String> as Json>::json(model.domains));
    let b6 = with_member(b5, "platforms"@, <Vec<String> as Json>::json(model.platforms));
    members_are_written(b5, "platforms"@, <Vec<String> as Json>::json(model.platforms));
    let b7 = with_member(b6, "constraints"@, <Vec<String> as Json>::json(model.constraints));
    members_are_written(b6, "constraints"@, <Vec<String> as Json>::json(model.constraints));
    let b8 = with_member(b7, "acceptance_conditions"@, <Vec<String> as Json>::json(model.acceptance_conditions));
    members_are_written(b7, "acceptance_conditions"@, <Vec<String> as Json>::json(model.acceptance_conditions));
    let b9 = with_member(b8, "artifact_hints"@, <Vec<String> as Json>::json(model.artifact_hints));
    members_are_written(b8, "artifact_hints"@, <Vec<String> as Json>::json(model.artifact_hints));
    let b10 = with_member(b9, "interface_hints"@, <Vec<String> as Json>::json(model.interface_hints));
    members_are_written(b9, "interface_hints"@, <Vec<String> as Json>::json(model.interface_hints));
    let b11 = with_member(b10, "open_questions"@, <Vec<String> as Json>::json(model.open_questions));
    members_are_written(b10, "open_questions"@, <Vec<String> as Json>::json(model.open_questions));
    assert(model.json_members(b0) == b11);
    objects_write_their_body(b11);
}

} // verus!
