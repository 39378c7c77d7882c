//! Lexical pieces of source text: trimming, lines, identifiers, prefixes and quoted values.

use vstd::prelude::*;

use crate::checks::is_white;
use crate::text::{
    begins_with, characters, has_prefix, is_ascii_alphanumeric_character, is_lower, is_upper, split_on,
    split_text, text_of,
};
use crate::value::push_value;

verus! {

/// Whether a character beyond ASCII is alphabetic or numeric in Unicode.
pub uninterp spec fn is_alphanumeric_beyond_ascii(character: char) -> bool;

/// Whether a character is alphabetic or numeric: a letter or a digit of ASCII, or what Unicode
/// counts as such beyond it.
pub open spec fn is_alphanumeric_character(character: char) -> bool {
    if (character as u32) < 128 {
        is_ascii_alphanumeric_character(character)
    } else {
        is_alphanumeric_beyond_ascii(character)
    }
}

/// `char::is_alphanumeric`: whether a character is alphabetic or numeric in Unicode. In ASCII these
/// are the letters and the digits; beyond ASCII they are not listed.
pub assume_specification[ char::is_alphanumeric ](character: char) -> (result: bool)
    ensures
        (character as u32) < 128 ==> result == is_ascii_alphanumeric_character(character),
        (character as u32) >= 128 ==> result == is_alphanumeric_beyond_ascii(character),
;

/// Whether a character beyond ASCII is alphabetic in Unicode.
pub uninterp spec fn is_alphabetic_beyond_ascii(character: char) -> bool;

/// Whether a character is alphabetic: a letter of ASCII, or what Unicode counts as such beyond it.
pub open spec fn is_alphabetic_character(character: char) -> bool {
    if (character as u32) < 128 {
        is_upper(character) || is_lower(character)
    } else {
        is_alphabetic_beyond_ascii(character)
    }
}

/// `char::is_alphabetic`: whether a character is alphabetic in Unicode. In ASCII these are the
/// letters; beyond ASCII they are not listed.
pub assume_specification[ char::is_alphabetic ](character: char) -> (result: bool)
    ensures
        (character as u32) < 128 ==> result == (is_upper(character) || is_lower(character)),
        (character as u32) >= 128 ==> result == is_alphabetic_beyond_ascii(character),
;

/// A text without white space in front.
pub open spec fn trimmed_start(text: Seq<char>) -> Seq<char>
    decreases text.len(),
{
    if text.len() > 0 && is_white(text[0]) {
        trimmed_start(text.skip(1))
    } else {
        text
    }
}

/// A text without white space at the end.
pub open spec fn trimmed_end(text: Seq<char>) -> Seq<char>
    decreases text.len(),
{
    if text.len() > 0 && is_white(text.last()) {
        trimmed_end(text.drop_last())
    } else {
        text
    }
}

/// A text without white space around it.
pub open spec fn trimmed(text: Seq<char>) -> Seq<char> {
    trimmed_end(trimmed_start(text))
}

/// Removes white space around a text.
pub fn trim_text(text: &str) -> (result: String)
    ensures
        result@ == trimmed(text@),
{
    let chars = characters(text);
    let mut from: usize = 0;
    assert(chars@.skip(0) =~= chars@);
    while from < chars.len() && chars[from].is_whitespace()
        invariant
            from <= chars@.len(),
            trimmed_start(chars@.skip(from as int)) == trimmed_start(chars@),
        decreases chars@.len() - from,
    {
        assert(chars@.skip(from as int).skip(1) =~= chars@.skip(from + 1));
        from = from + 1;
    }
    let ghost rest = chars@.skip(from as int);
    assert(trimmed_start(chars@) == rest);
    let mut to: usize = chars.len();
    assert(chars@.subrange(from as int, to as int) =~= rest);
    while to > from && chars[to - 1].is_whitespace()
        invariant
            from <= to <= chars@.len(),
            trimmed_end(chars@.subrange(from as int, to as int)) == trimmed_end(rest),
        decreases to,
    {
        assert(chars@.subrange(from as int, to as int).drop_last() =~= chars@.subrange(from as int, to - 1));
        to = to - 1;
    }
    text_of(&chars, from, to)
}

/// A line without the carriage return in front of its line feed.
pub open spec fn without_return(line: Seq<char>) -> Seq<char> {
    if line.len() > 0 && line.last() == '\r' {
        line.drop_last()
    } else {
        line
    }
}

/// The lines of a text: each ends with a line feed, or a carriage return and a line feed, and what
/// follows the last line feed is a line unless it is empty.
pub open spec fn lines_of(text: Seq<char>) -> Seq<Seq<char>> {
    let pieces = split_on(text, '\n');
    let ended = Seq::new((pieces.len() - 1) as nat, |i: int| without_return(pieces[i]));
    if pieces.last().len() == 0 {
        ended
    } else {
        ended.push(pieces.last())
    }
}

/// Splits a text into lines.
pub fn split_lines(text: &str) -> (lines: Vec<String>)
    ensures
        lines.deep_view() == lines_of(text@),
{
    let pieces = split_text(text, '\n');
    let ghost model = split_on(text@, '\n');
    proof {
        crate::text::split_has_a_piece(text@, '\n');
        assert(model.len() == pieces@.len());
    }
    let last: usize = pieces.len() - 1;
    let ghost ended = Seq::new((model.len() - 1) as nat, |i: int| without_return(model[i]));
    let mut lines: Vec<String> = Vec::new();
    let mut index: usize = 0;
    assert(lines.deep_view() =~= ended.take(0));
    while index < last
        invariant
            index <= last,
            last == pieces@.len() - 1,
            pieces.deep_view() == model,
            ended == Seq::new((model.len() - 1) as nat, |i: int| without_return(model[i])),
            lines.deep_view() == ended.take(index as int),
        decreases last - index,
    {
        let piece = pieces[index].as_str();
        assert(piece@ == model[index as int]);
        let chars = characters(piece);
        let count: usize = chars.len();
        let line = if count > 0 && chars[count - 1] == '\r' {
            text_of(&chars, 0, count - 1)
        } else {
            text_of(&chars, 0, count)
        };
        proof {
            assert(line@ =~= without_return(piece@));
            assert(ended.take(index + 1) =~= ended.take(index as int).push(ended[index as int]));
        }
        push_value(&mut lines, line);
        index = index + 1;
    }
    assert(ended.take(last as int) =~= ended);
    assert(model.last() == pieces@[last as int]@);
    if !pieces[last].as_str().is_empty() {
        push_value(&mut lines, pieces[last].as_str().to_owned());
    }
    lines
}

/// The first position of a character, from a position on.
pub open spec fn first_position(text: Seq<char>, character: char, from: int) -> Option<int>
    decreases text.len() - from,
{
    if from < 0 || from >= text.len() {
        None
    } else if text[from] == character {
        Some(from)
    } else {
        first_position(text, character, from + 1)
    }
}

/// Finds the first position of a character, from a position on.
pub fn find_first(text: &Vec<char>, character: char, from: usize) -> (position: Option<usize>)
    ensures
        match position {
            Some(at) => first_position(text@, character, from as int) == Some(at as int) && from <= at < text@.len()
                && text@[at as int] == character,
            None => first_position(text@, character, from as int) is None,
        },
{
    let mut at: usize = from;
    while at < text.len()
        invariant
            from <= at,
            first_position(text@, character, at as int) == first_position(text@, character, from as int),
        decreases text@.len() - at,
    {
        if text[at] == character {
            return Some(at);
        }
        at = at + 1;
    }
    None
}

/// Whether a character belongs to an identifier.
pub open spec fn is_word_character(character: char) -> bool {
    is_alphanumeric_character(character) || character == '_'
}

/// How many characters of an identifier a text begins with.
pub open spec fn identifier_length(text: Seq<char>) -> nat
    decreases text.len(),
{
    if text.len() > 0 && is_word_character(text[0]) {
        1 + identifier_length(text.skip(1))
    } else {
        0
    }
}

/// The identifier that a text begins with, if it begins with one.
pub open spec fn identifier_of(text: Seq<char>) -> Option<Seq<char>> {
    if identifier_length(text) == 0 {
        None
    } else {
        Some(text.take(identifier_length(text) as int))
    }
}

/// An identifier is no longer than its text.
pub proof fn identifier_fits(text: Seq<char>)
    ensures
        identifier_length(text) <= text.len(),
    decreases text.len(),
{
    if text.len() > 0 && is_word_character(text[0]) {
        identifier_fits(text.skip(1));
    }
}

/// Reads the identifier that a text begins with.
pub fn identifier(value: &str) -> (name: Option<String>)
    ensures
        match name {
            Some(name) => identifier_of(value@) == Some(name@),
            None => identifier_of(value@) is None,
        },
{
    let chars = characters(value);
    let mut end: usize = 0;
    assert(chars@.skip(0) =~= chars@);
    while end < chars.len() && (chars[end].is_alphanumeric() || chars[end] == '_')
        invariant
            end <= chars@.len(),
            identifier_length(chars@) == end + identifier_length(chars@.skip(end as int)),
        decreases chars@.len() - end,
    {
        assert(chars@.skip(end as int).skip(1) =~= chars@.skip(end + 1));
        end = end + 1;
    }
    assert(identifier_length(chars@.skip(end as int)) == 0);
    if end == 0 {
        return None;
    }
    let name = text_of(&chars, 0, end);
    assert(name@ =~= value@.take(end as int));
    Some(name)
}

/// The first of some texts that a line begins with.
pub open spec fn leading(line: Seq<char>, prefixes: Seq<Seq<char>>, from: int) -> Option<Seq<char>>
    decreases prefixes.len() - from,
{
    if from < 0 || from >= prefixes.len() {
        None
    } else if begins_with(line, prefixes[from]) {
        Some(prefixes[from])
    } else {
        leading(line, prefixes, from + 1)
    }
}

/// A line without any number of leading prefixes.
pub open spec fn stripped(line: Seq<char>, prefixes: Seq<Seq<char>>) -> Seq<char>
    decreases line.len(),
{
    match leading(line, prefixes, 0) {
        Some(prefix) if 0 < prefix.len() <= line.len() => stripped(line.skip(prefix.len() as int), prefixes),
        _ => line,
    }
}

/// The rest of a text behind a prefix that it begins with.
pub fn rest_after(text: &str, prefix: &str) -> (rest: String)
    requires
        begins_with(text@, prefix@),
    ensures
        rest@ == text@.skip(prefix@.len() as int),
{
    let chars = characters(text);
    let skip = characters(prefix);
    let rest = text_of(&chars, skip.len(), chars.len());
    assert(rest@ =~= text@.skip(prefix@.len() as int));
    rest
}

/// Finds the first of some texts that a line begins with.
fn find_leading(line: &str, prefixes: &Vec<&'static str>) -> (found: Option<usize>)
    ensures
        match found {
            Some(at) => at < prefixes@.len() && leading(line@, prefixes.deep_view(), 0) == Some(
                prefixes.deep_view()[at as int],
            ) && begins_with(line@, prefixes.deep_view()[at as int]),
            None => leading(line@, prefixes.deep_view(), 0) is None,
        },
{
    let ghost model = prefixes.deep_view();
    let mut index: usize = 0;
    while index < prefixes.len()
        invariant
            index <= prefixes@.len(),
            model == prefixes.deep_view(),
            leading(line@, model, index as int) == leading(line@, model, 0),
        decreases prefixes@.len() - index,
    {
        assert(model[index as int] == prefixes@[index as int]@);
        if has_prefix(line, prefixes[index]) {
            return Some(index);
        }
        index = index + 1;
    }
    None
}

/// Removes any number of leading prefixes.
pub fn strip_prefixes(line: &str, prefixes: &Vec<&'static str>) -> (rest: String)
    ensures
        rest@ == stripped(line@, prefixes.deep_view()),
{
    let ghost model = prefixes.deep_view();
    let mut rest = line.to_owned();
    loop
        invariant
            model == prefixes.deep_view(),
            stripped(rest@, model) == stripped(line@, model),
        decreases rest@.len(),
    {
        match find_leading(rest.as_str(), prefixes) {
            Some(at) => {
                let prefix = prefixes[at];
                assert(model[at as int] == prefix@);
                if prefix.is_empty() {
                    return rest;
                }
                rest = rest_after(rest.as_str(), prefix);
            },
            None => {
                return rest;
            },
        }
    }
}

/// Whether a character opens and closes a quoted value.
pub open spec fn is_quote(character: char) -> bool {
    character == '\'' || character == '"' || character == '`'
}

/// The first position of a quote, from a position on.
pub open spec fn quote_position(text: Seq<char>, from: int) -> Option<int>
    decreases text.len() - from,
{
    if from < 0 || from >= text.len() {
        None
    } else if is_quote(text[from]) {
        Some(from)
    } else {
        quote_position(text, from + 1)
    }
}

/// The quoted values of a text from a position on: each runs to the next quote of its own kind.
pub open spec fn quoted_from(text: Seq<char>, from: int) -> Seq<Seq<char>>
    decreases text.len() - from,
{
    match quote_position(text, from) {
        Some(open) if from <= open < text.len() => match first_position(text, text[open], open + 1) {
            Some(close) if open < close < text.len() => seq![text.subrange(open + 1, close)] + quoted_from(
                text,
                close + 1,
            ),
            _ => Seq::empty(),
        },
        _ => Seq::empty(),
    }
}

/// Lists the quoted values of a text.
pub fn quoted_values(line: &str) -> (values: Vec<String>)
    ensures
        values.deep_view() == quoted_from(line@, 0),
{
    let chars = characters(line);
    let mut values: Vec<String> = Vec::new();
    let mut from: usize = 0;
    assert(values.deep_view() =~= Seq::empty());
    assert(values.deep_view() + quoted_from(line@, 0) =~= quoted_from(line@, 0));
    while from < chars.len()
        invariant
            from <= chars@.len(),
            chars@ == line@,
            values.deep_view() + quoted_from(line@, from as int) == quoted_from(line@, 0),
        decreases chars@.len() - from,
    {
        let mut open: usize = from;
        while open < chars.len() && chars[open] != '\'' && chars[open] != '"' && chars[open] != '`'
            invariant
                from <= open <= chars@.len(),
                chars@ == line@,
                quote_position(line@, open as int) == quote_position(line@, from as int),
            decreases chars@.len() - open,
        {
            open = open + 1;
        }
        if open >= chars.len() {
            assert(quoted_from(line@, from as int) =~= Seq::empty());
            assert(values.deep_view() =~= quoted_from(line@, 0));
            return values;
        }
        match find_first(&chars, chars[open], open + 1) {
            Some(close) => {
                let value = text_of(&chars, open + 1, close);
                let ghost before = values.deep_view();
                push_value(&mut values, value);
                from = close + 1;
                assert(values.deep_view() + quoted_from(line@, from as int) =~= before + (seq![value@]
                    + quoted_from(line@, from as int)));
            },
            None => {
                assert(quoted_from(line@, from as int) =~= Seq::empty());
                assert(values.deep_view() =~= quoted_from(line@, 0));
                return values;
            },
        }
    }
    assert(quoted_from(line@, from as int) =~= Seq::empty());
    assert(values.deep_view() =~= quoted_from(line@, 0));
    values
}

/// Sequences joined one after another.
pub open spec fn concatenated<T>(parts: spec_fn(int) -> Seq<T>, count: nat) -> Seq<T>
    decreases count,
{
    if count == 0 {
        Seq::empty()
    } else {
        concatenated(parts, (count - 1) as nat) + parts(count - 1)
    }
}

/// The concatenation depends only on the parts.
pub proof fn concatenated_same<T>(left: spec_fn(int) -> Seq<T>, right: spec_fn(int) -> Seq<T>, count: nat)
    requires
        forall|i: int| 0 <= i < count ==> #[trigger] left(i) == right(i),
    ensures
        concatenated(left, count) == concatenated(right, count),
    decreases count,
{
    if count > 0 {
        concatenated_same(left, right, (count - 1) as nat);
        assert(left(count - 1) == right(count - 1));
    }
}

} // verus!
