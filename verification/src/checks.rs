//! The elementary checks that validation is made of.

use vstd::prelude::*;

use crate::error::{fails_as, first, invalid, invalid_input, given, ErrorView, Result};
use crate::text::{decimal, decimal_text, joined2, joined4};
use crate::value::Value;

verus! {

/// White space beyond ASCII: the next line and the no-break space, and the spaces and separators of
/// Unicode.
pub open spec fn is_white_beyond_ascii(character: char) -> bool {
    let code = character as u32;
    code == 0x85 || code == 0xa0 || code == 0x1680 || 0x2000 <= code <= 0x200a || code == 0x2028 || code == 0x2029
        || code == 0x202f || code == 0x205f || code == 0x3000
}

/// White space of ASCII: the space, and the controls from the tab to the carriage return.
pub open spec fn is_ascii_white(character: char) -> bool {
    character == ' ' || 9 <= character as u32 <= 13
}

/// White space.
pub open spec fn is_white(character: char) -> bool {
    if (character as u32) < 128 {
        is_ascii_white(character)
    } else {
        is_white_beyond_ascii(character)
    }
}

/// `char::is_whitespace`: whether a character has the Unicode `White_Space` property. These are the
/// 25 characters of [`is_white`].
pub assume_specification[ char::is_whitespace ](character: char) -> (white: bool)
    ensures
        white == is_white(character),
;

/// A text with nothing but white space in it.
pub open spec fn blank(text: Seq<char>) -> bool {
    forall|i: int| 0 <= i < text.len() ==> is_white(#[trigger] text[i])
}

/// Whether a text has nothing but white space in it.
pub fn is_blank(text: &str) -> (result: bool)
    ensures
        result == blank(text@),
{
    for character in it: text.chars()
        invariant
            it.seq() == text@,
            forall|i: int| 0 <= i < it.index() ==> is_white(#[trigger] text@[i]),
    {
        if !character.is_whitespace() {
            assert(!is_white(text@[it.index() as int]));
            return false;
        }
    }
    true
}

/// The words of a text: its maximal runs of characters that are not white space.
pub open spec fn words(text: Seq<char>) -> Seq<Seq<char>>
    decreases text.len(),
{
    if text.len() == 0 {
        Seq::empty()
    } else {
        let before = words(text.drop_last());
        if is_white(text.last()) {
            before
        } else if text.len() > 1 && !is_white(text[text.len() - 2]) {
            before.drop_last().push(before.last().push(text.last()))
        } else {
            before.push(seq![text.last()])
        }
    }
}

/// Splits a text into its words.
pub fn split_words(text: &str) -> (result: Vec<String>)
    ensures
        result.deep_view() == words(text@),
{
    let mut result: Vec<String> = Vec::new();
    let mut word = String::new();
    let mut inside = false;
    assert(result.deep_view() =~= words(text@.take(0)));
    for character in it: text.chars()
        invariant
            it.seq() == text@,
            inside == (it.index() > 0 && !is_white(text@[it.index() as int - 1])),
            inside ==> result.deep_view().push(word@) == words(text@.take(it.index() as int)),
            !inside ==> result.deep_view() == words(text@.take(it.index() as int)) && word@.len() == 0,
    {
        let ghost next = text@.take(it.index() as int + 1);
        proof {
            assert(next.drop_last() =~= text@.take(it.index() as int));
        }
        if character.is_whitespace() {
            if inside {
                let ghost before = result.deep_view().push(word@);
                result.push(word);
                word = String::new();
                assert(result.deep_view() =~= before);
            }
            inside = false;
        } else {
            let ghost before = result.deep_view().push(word@);
            assert(before.drop_last() =~= result.deep_view());
            assert(!inside ==> word@.push(character) =~= seq![character]);
            word.push(character);
            inside = true;
        }
    }
    assert(text@.take(text@.len() as int) =~= text@);
    if inside {
        let ghost before = result.deep_view().push(word@);
        result.push(word);
        assert(result.deep_view() =~= before);
    }
    result
}

/// The first failure among checks `from..count`, in order.
pub open spec fn first_from(
    problem: spec_fn(int) -> Option<ErrorView>,
    from: nat,
    count: nat,
) -> Option<ErrorView>
    decreases count - from,
{
    if from >= count {
        None
    } else {
        first(problem(from as int), first_from(problem, from + 1, count))
    }
}

/// No check fails exactly when each one passes.
pub proof fn nothing_fails(problem: spec_fn(int) -> Option<ErrorView>, from: nat, count: nat)
    ensures
        first_from(
            problem,
            from,
            count,
        ) is None <==> forall|i: int| from <= i < count ==> #[trigger] problem(i) is None,
    decreases count - from,
{
    if from < count {
        nothing_fails(problem, from + 1, count);
        if first_from(problem, from, count) is None {
            assert forall|i: int| from <= i < count implies #[trigger] problem(i) is None by {
                if i > from {
                }
            }
        }
    }
}

/// Requires some text.
pub open spec fn text_problem(value: Seq<char>, field: Seq<char>) -> Option<ErrorView> {
    given(blank(value), invalid(field + " must not be empty"@))
}

/// The name of one entry of a list.
pub open spec fn entry(field: Seq<char>, index: nat) -> Seq<char> {
    field + "["@ + decimal(index) + "]"@
}

/// The check of each entry of a list of texts.
pub open spec fn entry_problem(values: Seq<Seq<char>>, field: Seq<char>) -> spec_fn(int) -> Option<ErrorView> {
    |i: int| text_problem(values[i], entry(field, i as nat))
}

/// Requires every entry of a list to hold some text.
pub open spec fn text_items_problem(values: Seq<Seq<char>>, field: Seq<char>) -> Option<ErrorView> {
    first_from(entry_problem(values, field), 0, values.len())
}

/// Requires a list without duplicates.
pub open spec fn unique_problem<V>(values: Seq<V>, field: Seq<char>) -> Option<ErrorView> {
    given(!values.no_duplicates(), invalid(field + " must not contain duplicates"@))
}

/// Requires some text.
pub fn require_text(value: &str, field: &str) -> (result: Result<()>)
    ensures
        fails_as(result, text_problem(value@, field@)),
{
    if is_blank(value) {
        let message = joined2(field, " must not be empty");
        return Err(invalid_input(message.as_str()));
    }
    Ok(())
}

/// Requires some text where there is a value at all.
pub open spec fn optional_text_problem(value: Option<Seq<char>>, field: Seq<char>) -> Option<ErrorView> {
    match value {
        Some(text) => text_problem(text, field),
        None => None,
    }
}

/// Requires some text where there is a value at all.
pub fn require_optional_text(value: &Option<String>, field: &str) -> (result: Result<()>)
    ensures
        fails_as(result, optional_text_problem(value.deep_view(), field@)),
{
    match value {
        Some(text) => require_text(text.as_str(), field),
        None => Ok(()),
    }
}

/// Renders the name of one entry of a list.
pub fn entry_name(field: &str, index: usize) -> (name: String)
    ensures
        name@ == entry(field@, index as nat),
{
    let number = decimal_text(index as u64);
    joined4(field, "[", number.as_str(), "]")
}

/// Requires every entry of a list to hold some text.
pub fn require_text_items(values: &Vec<String>, field: &str) -> (result: Result<()>)
    ensures
        fails_as(result, text_items_problem(values.deep_view(), field@)),
{
    let ghost problem = entry_problem(values.deep_view(), field@);
    let mut index: usize = 0;
    while index < values.len()
        invariant
            index <= values@.len(),
            problem == entry_problem(values.deep_view(), field@),
            first_from(problem, 0, values@.len()) == first_from(problem, index as nat, values@.len()),
        decreases values@.len() - index,
    {
        let name = entry_name(field, index);
        assert(values.deep_view()[index as int] == values@[index as int]@);
        require_text(values[index].as_str(), name.as_str())?;
        index = index + 1;
    }
    Ok(())
}

/// Whether one of the first `count` values is the same as `value`.
fn seen_before<T: Value>(values: &Vec<T>, count: usize, value: &T) -> (seen: bool)
    requires
        count <= values@.len(),
    ensures
        seen == exists|i: int| 0 <= i < count && (#[trigger] values@[i]).deep_view() == value.deep_view(),
{
    let mut index: usize = 0;
    while index < count
        invariant
            index <= count <= values@.len(),
            forall|i: int| 0 <= i < index ==> (#[trigger] values@[i]).deep_view() != value.deep_view(),
        decreases count - index,
    {
        if values[index].same(value) {
            return true;
        }
        index = index + 1;
    }
    false
}

/// Whether no two values are the same.
pub fn all_distinct<T: Value>(values: &Vec<T>) -> (distinct: bool)
    ensures
        distinct == values.deep_view().no_duplicates(),
{
    let ghost model = values.deep_view();
    let mut index: usize = 0;
    while index < values.len()
        invariant
            index <= values@.len(),
            model == values.deep_view(),
            forall|i: int, j: int| 0 <= i < j < index ==> model[i] != model[j],
        decreases values@.len() - index,
    {
        if seen_before(values, index, &values[index]) {
            proof {
                let i = choose|i: int| 0 <= i < index
                    && (#[trigger] values@[i]).deep_view() == values@[index as int].deep_view();
                assert(model[i] == model[index as int]);
            }
            return false;
        }
        assert forall|i: int| 0 <= i < index implies model[i] != model[index as int] by {
            assert(model[i] == values@[i].deep_view());
        }
        index = index + 1;
    }
    true
}

/// Requires a list without duplicates.
pub fn require_unique<T: Value>(values: &Vec<T>, field: &str) -> (result: Result<()>)
    ensures
        fails_as(result, unique_problem(values.deep_view(), field@)),
{
    if !all_distinct(values) {
        let message = joined2(field, " must not contain duplicates");
        return Err(invalid_input(message.as_str()));
    }
    Ok(())
}

/// Whether `value` is among `values`.
pub fn is_among<T: Value>(values: &Vec<T>, value: &T) -> (found: bool)
    ensures
        found == values.deep_view().contains(value.deep_view()),
{
    let found = seen_before(values, values.len(), value);
    proof {
        let model = values.deep_view();
        if found {
            let i = choose|i: int| 0 <= i < values@.len() && (#[trigger] values@[i]).deep_view() == value.deep_view();
            assert(model[i] == value.deep_view());
        }
        if model.contains(value.deep_view()) {
            let i = choose|i: int| 0 <= i < model.len() && model[i] == value.deep_view();
            assert(values@[i].deep_view() == value.deep_view());
        }
    }
    found
}

} // verus!
