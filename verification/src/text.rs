//! Text as sequences of characters: building, splitting, comparing and rendering numbers.

use vstd::prelude::*;
use vstd::string::StringExecFns;

verus! {

/// `String::push` appends one character.
pub assume_specification[ String::push ](text: &mut String, character: char)
    ensures
        final(text)@ == old(text)@.push(character),
;

/// The characters of a text.
pub fn characters(text: &str) -> (chars: Vec<char>)
    ensures
        chars@ == text@,
{
    let mut chars: Vec<char> = Vec::new();
    for character in it: text.chars()
        invariant
            it.seq() == text@,
            chars@ == text@.take(it.index() as int),
    {
        proof {
            assert(
                text@.take(it.index() as int + 1) =~= text@.take(it.index() as int).push(text@[it.index() as int])
            );
        }
        chars.push(character);
    }
    assert(text@.take(text@.len() as int) =~= text@);
    chars
}

/// The text made of `chars[from..to]`.
pub fn text_of(chars: &Vec<char>, from: usize, to: usize) -> (text: String)
    requires
        from <= to <= chars@.len(),
    ensures
        text@ == chars@.subrange(from as int, to as int),
{
    let mut text = String::new();
    let mut at: usize = from;
    while at < to
        invariant
            from <= at <= to <= chars@.len(),
            text@ == chars@.subrange(from as int, at as int),
        decreases to - at,
    {
        proof {
            assert(
                chars@.subrange(from as int, at as int + 1) =~= chars@.subrange(
                    from as int,
                    at as int,
                ).push(chars@[at as int])
            );
        }
        text.push(chars[at]);
        at = at + 1;
    }
    text
}

/// Two texts joined.
pub fn joined2(a: &str, b: &str) -> (text: String)
    ensures
        text@ == a@ + b@,
{
    let mut text = a.to_owned();
    text.append(b);
    text
}

/// Three texts joined.
pub fn joined3(a: &str, b: &str, c: &str) -> (text: String)
    ensures
        text@ == a@ + b@ + c@,
{
    let mut text = a.to_owned();
    text.append(b);
    text.append(c);
    text
}

/// Four texts joined.
pub fn joined4(a: &str, b: &str, c: &str, d: &str) -> (text: String)
    ensures
        text@ == a@ + b@ + c@ + d@,
{
    let mut text = a.to_owned();
    text.append(b);
    text.append(c);
    text.append(d);
    text
}

/// Whether `text` begins with `prefix`.
pub open spec fn begins_with(text: Seq<char>, prefix: Seq<char>) -> bool {
    prefix.len() <= text.len() && text.take(prefix.len() as int) == prefix
}

/// Whether `text` ends with `suffix`.
pub open spec fn finishes_with(text: Seq<char>, suffix: Seq<char>) -> bool {
    suffix.len() <= text.len() && text.skip(text.len() - suffix.len()) == suffix
}

/// Whether `needle` stands in `text` at position `at`.
pub open spec fn stands_at(text: Seq<char>, needle: Seq<char>, at: int) -> bool {
    0 <= at && at + needle.len() <= text.len() && text.subrange(at, at + needle.len()) == needle
}

/// Whether `needle` occurs in `text`.
pub open spec fn occurs_in(text: Seq<char>, needle: Seq<char>) -> bool {
    exists|at: int| stands_at(text, needle, at)
}

/// Whether `needle` stands in `text` at position `at`.
pub fn is_at(text: &Vec<char>, needle: &Vec<char>, at: usize) -> (found: bool)
    requires
        at <= text@.len(),
    ensures
        found == stands_at(text@, needle@, at as int),
{
    let total: usize = text.len();
    if needle.len() > total - at {
        return false;
    }
    let mut index: usize = 0;
    while index < needle.len()
        invariant
            index <= needle@.len(),
            total == text@.len(),
            at + needle@.len() <= text@.len(),
            forall|i: int| 0 <= i < index ==> text@[at + i] == #[trigger] needle@[i],
        decreases needle@.len() - index,
    {
        if text[at + index] != needle[index] {
            assert(text@.subrange(at as int, at + needle@.len())[index as int] != needle@[index as int]);
            return false;
        }
        index = index + 1;
    }
    assert(text@.subrange(at as int, at + needle@.len()) =~= needle@);
    true
}

/// Whether `text` begins with `prefix`.
pub fn has_prefix(text: &str, prefix: &str) -> (found: bool)
    ensures
        found == begins_with(text@, prefix@),
{
    let chars = characters(text);
    let start = characters(prefix);
    let found = is_at(&chars, &start, 0);
    assert(
        prefix@.len() <= text@.len() ==> text@.subrange(0, prefix@.len() as int) =~= text@.take(prefix@.len() as int)
    );
    found
}

/// Whether `text` ends with `suffix`.
pub fn has_suffix(text: &str, suffix: &str) -> (found: bool)
    ensures
        found == finishes_with(text@, suffix@),
{
    let chars = characters(text);
    let end = characters(suffix);
    if end.len() > chars.len() {
        return false;
    }
    let at: usize = chars.len() - end.len();
    let found = is_at(&chars, &end, at);
    assert(text@.subrange(at as int, at + suffix@.len()) =~= text@.skip(text@.len() - suffix@.len()));
    found
}

/// Whether `needle` occurs in `text`.
pub fn has_part(text: &str, needle: &str) -> (found: bool)
    ensures
        found == occurs_in(text@, needle@),
{
    let chars = characters(text);
    let part = characters(needle);
    let mut at: usize = 0;
    while at < chars.len()
        invariant
            at <= chars@.len(),
            chars@ == text@,
            part@ == needle@,
            forall|i: int| 0 <= i < at ==> !stands_at(text@, needle@, i),
        decreases chars@.len() - at,
    {
        if is_at(&chars, &part, at) {
            return true;
        }
        at = at + 1;
    }
    if is_at(&chars, &part, at) {
        return true;
    }
    assert forall|i: int| !stands_at(text@, needle@, i) by {
        if i > at {
        }
    }
    false
}

/// What follows `prefix` in `text`, where `text` begins with it.
pub fn without_prefix(text: &str, prefix: &str) -> (rest: Option<String>)
    ensures
        rest is Some <==> begins_with(text@, prefix@),
        rest is Some ==> rest->0@ == text@.skip(prefix@.len() as int),
{
    if !has_prefix(text, prefix) {
        return None;
    }
    let chars = characters(text);
    let start = characters(prefix);
    let rest = text_of(&chars, start.len(), chars.len());
    assert(rest@ =~= text@.skip(prefix@.len() as int));
    Some(rest)
}

/// The pieces of a text between occurrences of a separator.
pub open spec fn split_on(text: Seq<char>, separator: char) -> Seq<Seq<char>>
    decreases text.len(),
{
    if text.len() == 0 {
        seq![Seq::empty()]
    } else {
        let before = split_on(text.drop_last(), separator);
        if text.last() == separator {
            before.push(Seq::empty())
        } else {
            before.drop_last().push(before.last().push(text.last()))
        }
    }
}

/// There is always at least one piece.
pub proof fn split_has_a_piece(text: Seq<char>, separator: char)
    ensures
        split_on(text, separator).len() > 0,
    decreases text.len(),
{
    if text.len() > 0 {
        split_has_a_piece(text.drop_last(), separator);
    }
}

/// Splits a text at every occurrence of a separator.
pub fn split_text(text: &str, separator: char) -> (pieces: Vec<String>)
    ensures
        pieces.deep_view() == split_on(text@, separator),
{
    let mut pieces: Vec<String> = Vec::new();
    let mut piece = String::new();
    proof {
        assert(pieces.deep_view().push(piece@) =~= split_on(text@.take(0), separator));
    }
    for character in it: text.chars()
        invariant
            it.seq() == text@,
            pieces.deep_view().push(piece@) == split_on(text@.take(it.index() as int), separator),
    {
        let ghost before = pieces.deep_view().push(piece@);
        proof {
            assert(text@.take(it.index() as int + 1).drop_last() =~= text@.take(it.index() as int));
            assert(before.drop_last() =~= pieces.deep_view());
        }
        if character == separator {
            let ghost done = pieces@;
            pieces.push(piece);
            piece = String::new();
            assert(pieces.deep_view() =~= before);
            assert(piece@ =~= Seq::<char>::empty());
        } else {
            piece.push(character);
        }
    }
    let ghost before = pieces.deep_view().push(piece@);
    pieces.push(piece);
    proof {
        assert(pieces.deep_view() =~= before);
        assert(text@.take(text@.len() as int) =~= text@);
    }
    pieces
}

/// Texts joined by a separator.
pub open spec fn joined_by(texts: Seq<Seq<char>>, separator: Seq<char>) -> Seq<char>
    decreases texts.len(),
{
    if texts.len() == 0 {
        Seq::empty()
    } else if texts.len() == 1 {
        texts[0]
    } else {
        joined_by(texts.drop_last(), separator) + separator + texts.last()
    }
}

/// Joins texts by a separator.
pub fn join_texts(texts: &Vec<String>, separator: &str) -> (text: String)
    ensures
        text@ == joined_by(texts.deep_view(), separator@),
{
    let ghost model = texts.deep_view();
    let mut text = String::new();
    let mut index: usize = 0;
    while index < texts.len()
        invariant
            index <= texts@.len(),
            model == texts.deep_view(),
            text@ == joined_by(model.take(index as int), separator@),
        decreases texts@.len() - index,
    {
        if index > 0 {
            text.append(separator);
        }
        text.append(texts[index].as_str());
        proof {
            let next = model.take(index as int + 1);
            assert(next.drop_last() =~= model.take(index as int));
            assert(next.last() == texts@[index as int]@);
            assert(text@ =~= joined_by(next, separator@));
        }
        index = index + 1;
    }
    assert(model.take(texts@.len() as int) =~= model);
    text
}

/// Whether two texts are the same.
pub fn same_text(left: &str, right: &str) -> (equal: bool)
    ensures
        equal == (left@ == right@),
{
    let a = left.to_owned();
    let b = right.to_owned();
    a == b
}

/// An ASCII uppercase letter.
pub open spec fn is_upper(character: char) -> bool {
    65 <= character as u32 <= 90
}

/// An ASCII lowercase letter.
pub open spec fn is_lower(character: char) -> bool {
    97 <= character as u32 <= 122
}

/// An ASCII digit.
pub open spec fn is_digit(character: char) -> bool {
    48 <= character as u32 <= 57
}

/// An ASCII letter or digit.
pub open spec fn is_ascii_alphanumeric_character(character: char) -> bool {
    is_upper(character) || is_lower(character) || is_digit(character)
}

/// Whether a character is an ASCII uppercase letter.
pub fn upper(character: char) -> (result: bool)
    ensures
        result == is_upper(character),
{
    let code: u32 = character as u32;
    65 <= code && code <= 90
}

/// Whether a character is an ASCII lowercase letter.
pub fn lower(character: char) -> (result: bool)
    ensures
        result == is_lower(character),
{
    let code: u32 = character as u32;
    97 <= code && code <= 122
}

/// Whether a character is an ASCII digit.
pub fn digit(character: char) -> (result: bool)
    ensures
        result == is_digit(character),
{
    let code: u32 = character as u32;
    48 <= code && code <= 57
}

/// Whether a character is an ASCII letter or digit.
pub fn alphanumeric(character: char) -> (result: bool)
    ensures
        result == is_ascii_alphanumeric_character(character),
{
    upper(character) || lower(character) || digit(character)
}

/// A character with ASCII uppercase letters mapped to lowercase.
pub open spec fn ascii_lower(character: char) -> char {
    if is_upper(character) {
        ((character as u32 + 32) as u32) as char
    } else {
        character
    }
}

/// A text with ASCII uppercase letters mapped to lowercase.
pub open spec fn lowered(text: Seq<char>) -> Seq<char> {
    Seq::new(text.len(), |i: int| ascii_lower(text[i]))
}

/// Maps ASCII uppercase letters to lowercase.
pub fn lower_text(text: &str) -> (result: String)
    ensures
        result@ == lowered(text@),
{
    let mut result = String::new();
    for character in it: text.chars()
        invariant
            it.seq() == text@,
            result@ == lowered(text@).take(it.index() as int),
    {
        proof {
            crate::value::take_next(lowered(text@), it.index() as int);
        }
        if upper(character) {
            let code: u32 = character as u32;
            let folded: u8 = (code + 32) as u8;
            result.push(folded as char);
        } else {
            result.push(character);
        }
    }
    proof {
        crate::value::take_all(lowered(text@));
    }
    result
}

/// The position of the last occurrence of a character.
pub open spec fn last_position(text: Seq<char>, character: char) -> Option<int>
    decreases text.len(),
{
    if text.len() == 0 {
        None
    } else if text.last() == character {
        Some(text.len() - 1)
    } else {
        last_position(text.drop_last(), character)
    }
}

/// Finds the last occurrence of a character.
pub fn find_last(text: &Vec<char>, character: char) -> (position: Option<usize>)
    ensures
        match position {
            Some(at) => at < text@.len() && last_position(text@, character) == Some(at as int),
            None => last_position(text@, character) is None,
        },
{
    let mut end: usize = text.len();
    assert(text@.take(end as int) =~= text@);
    while end > 0
        invariant
            end <= text@.len(),
            last_position(text@, character) == last_position(text@.take(end as int), character),
        decreases end,
    {
        proof {
            crate::value::take_next(text@, end as int - 1);
        }
        if text[end - 1] == character {
            return Some(end - 1);
        }
        end = end - 1;
    }
    None
}

/// What follows the last occurrence of a character, or the whole text where it does not occur.
pub open spec fn after_last(text: Seq<char>, character: char) -> Seq<char> {
    match last_position(text, character) {
        Some(at) => text.skip(at + 1),
        None => text,
    }
}

/// What precedes the last occurrence of a character, or the whole text where it does not occur.
pub open spec fn before_last(text: Seq<char>, character: char) -> Seq<char> {
    match last_position(text, character) {
        Some(at) => text.take(at),
        None => text,
    }
}

/// Cuts a text behind the last occurrence of a character.
pub fn text_after_last(text: &str, character: char) -> (rest: String)
    ensures
        rest@ == after_last(text@, character),
{
    let chars = characters(text);
    match find_last(&chars, character) {
        Some(at) => {
            let total: usize = chars.len();
            let rest = text_of(&chars, at + 1, total);
            assert(rest@ =~= text@.skip(at + 1));
            rest
        },
        None => text.to_owned(),
    }
}

/// Cuts a text before the last occurrence of a character.
pub fn text_before_last(text: &str, character: char) -> (start: String)
    ensures
        start@ == before_last(text@, character),
{
    let chars = characters(text);
    match find_last(&chars, character) {
        Some(at) => {
            let start = text_of(&chars, 0, at);
            assert(start@ =~= text@.take(at as int));
            start
        },
        None => text.to_owned(),
    }
}

/// Whether a character occurs in a text.
pub fn has_character(text: &str, character: char) -> (found: bool)
    ensures
        found == text@.contains(character),
{
    for current in it: text.chars()
        invariant
            it.seq() == text@,
            forall|i: int| 0 <= i < it.index() ==> text@[i] != character,
    {
        if current == character {
            assert(text@[it.index() as int] == character);
            return true;
        }
    }
    false
}

/// The decimal digit of a number below ten.
pub open spec fn decimal_digit(digit: nat) -> char {
    ('0' as nat + digit) as char
}

/// A number in decimal, without leading zeros.
pub open spec fn decimal(number: nat) -> Seq<char>
    decreases number,
{
    if number < 10 {
        seq![decimal_digit(number)]
    } else {
        decimal(number / 10).push(decimal_digit(number % 10))
    }
}

/// Renders one decimal digit.
fn digit_character(digit: u64) -> (character: char)
    requires
        digit < 10,
    ensures
        character == decimal_digit(digit as nat),
{
    (48u8 + digit as u8) as char
}

/// Renders a number in decimal.
pub fn decimal_text(number: u64) -> (text: String)
    ensures
        text@ == decimal(number as nat),
    decreases number,
{
    if number < 10 {
        let mut text = String::new();
        text.push(digit_character(number));
        assert(text@ =~= seq![decimal_digit(number as nat)]);
        text
    } else {
        let mut text = decimal_text(number / 10);
        text.push(digit_character(number % 10));
        text
    }
}

/// The lowercase hexadecimal digit of a number below sixteen.
pub open spec fn hex_digit(digit: nat) -> char {
    if digit < 10 {
        decimal_digit(digit)
    } else {
        ('a' as nat + (digit - 10)) as char
    }
}

/// Bytes in lowercase hexadecimal, two digits each.
pub open spec fn hex(bytes: Seq<u8>) -> Seq<char> {
    Seq::new(
        2 * bytes.len(),
        |i: int|
            if i % 2 == 0 {
                hex_digit(bytes[i / 2] as nat / 16)
            } else {
                hex_digit(bytes[i / 2] as nat % 16)
            },
    )
}

/// Renders one lowercase hexadecimal digit.
fn hex_character(digit: u8) -> (character: char)
    requires
        digit < 16,
    ensures
        character == hex_digit(digit as nat),
{
    if digit < 10 {
        (48u8 + digit) as char
    } else {
        (97u8 + (digit - 10)) as char
    }
}

/// Renders bytes in lowercase hexadecimal.
pub fn hex_text(bytes: &Vec<u8>) -> (text: String)
    ensures
        text@ == hex(bytes@),
{
    let mut text = String::new();
    let mut index: usize = 0;
    while index < bytes.len()
        invariant
            index <= bytes@.len(),
            text@ == hex(bytes@.take(index as int)),
        decreases bytes@.len() - index,
    {
        text.push(hex_character(bytes[index] / 16));
        text.push(hex_character(bytes[index] % 16));
        assert(text@ =~= hex(bytes@.take(index as int + 1)));
        index = index + 1;
    }
    assert(bytes@.take(bytes@.len() as int) =~= bytes@);
    text
}

} // verus!
