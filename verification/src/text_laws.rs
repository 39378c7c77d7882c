//! What holds of texts: prefixes, pieces, lines, words, trimming, case and numbers.

use vstd::prelude::*;

use crate::checks::{blank, is_white, words};
use crate::lexical::{first_position, lines_of, quoted_from, trimmed, trimmed_end, trimmed_start, without_return};
use crate::text::{
    after_last, before_last, begins_with, decimal, finishes_with, joined_by, last_position, lowered, split_on,
};

verus! {

/// A text begins with another exactly where it is that one and something behind it, and ends with
/// another exactly where it is something and that one.
pub proof fn beginnings_and_ends_are_parts(text: Seq<char>, part: Seq<char>, rest: Seq<char>)
    ensures
        begins_with(part + rest, part),
        finishes_with(rest + part, part),
        begins_with(text, part) ==> text == part + text.skip(part.len() as int),
        finishes_with(text, part) ==> text == text.take(text.len() - part.len()) + part,
{
    assert((part + rest).take(part.len() as int) =~= part);
    assert((rest + part).skip((rest + part).len() - part.len()) =~= part);
    if begins_with(text, part) {
        assert(text =~= part + text.skip(part.len() as int));
    }
    if finishes_with(text, part) {
        assert(text =~= text.take(text.len() - part.len()) + part);
    }
}

/// Whether a text does not hold a character.
pub open spec fn lacks(text: Seq<char>, character: char) -> bool {
    forall|i: int| 0 <= i < text.len() ==> text[i] != character
}

/// The pieces of a text do not hold the separator, and joined by it they are the text.
pub proof fn pieces_join_to_the_text(text: Seq<char>, separator: char)
    ensures
        split_on(text, separator).len() > 0,
        forall|i: int|
            0 <= i < split_on(text, separator).len() ==> lacks(#[trigger] split_on(text, separator)[i], separator),
        joined_by(split_on(text, separator), seq![separator]) == text,
    decreases text.len(),
{
    let pieces = split_on(text, separator);
    if text.len() == 0 {
        assert(joined_by(pieces, seq![separator]) =~= text);
    } else {
        let shorter = text.drop_last();
        let before = split_on(shorter, separator);
        pieces_join_to_the_text(shorter, separator);
        assert(text =~= shorter.push(text.last()));
        if text.last() == separator {
            assert(pieces.drop_last() =~= before);
            assert(joined_by(pieces, seq![separator]) =~= text);
            assert forall|i: int| 0 <= i < pieces.len() implies lacks(#[trigger] pieces[i], separator) by {
                if i < before.len() {
                    assert(lacks(before[i], separator));
                }
            }
        } else {
            assert(pieces.drop_last() =~= before.drop_last());
            assert(lacks(before[before.len() - 1], separator));
            assert forall|i: int| 0 <= i < pieces.len() implies lacks(#[trigger] pieces[i], separator) by {
                if i < before.len() - 1 {
                    assert(lacks(before[i], separator));
                }
            }
            if pieces.len() == 1 {
                assert(joined_by(pieces, seq![separator]) =~= text);
            } else {
                assert(joined_by(pieces, seq![separator]) =~= text);
            }
        }
    }
}

/// A text without the separator is one piece, and a separator ends the piece before it.
pub proof fn separators_end_pieces(front: Seq<char>, separator: char, back: Seq<char>)
    requires
        lacks(back, separator),
    ensures
        split_on(front + seq![separator] + back, separator) == split_on(front, separator).push(back),
        split_on(back, separator) == seq![back],
    decreases back.len(),
{
    let text = front + seq![separator] + back;
    if back.len() == 0 {
        assert(text =~= front.push(separator));
        assert(text.drop_last() =~= front);
        assert(back =~= Seq::empty());
    } else {
        let shorter = back.drop_last();
        separators_end_pieces(front, separator, shorter);
        assert(text.drop_last() =~= front + seq![separator] + shorter);
        assert(text.last() == back.last());
        assert(shorter.push(back.last()) =~= back);
        let before = split_on(front, separator).push(shorter);
        assert(before.drop_last().push(before.last().push(back.last())) =~= split_on(front, separator).push(back));
        assert(seq![shorter].drop_last().push(shorter.push(back.last())) =~= seq![back]);
    }
}

/// What stands before and behind the last occurrence of a character.
pub proof fn last_occurrences_part_the_text(front: Seq<char>, character: char, back: Seq<char>)
    requires
        lacks(back, character),
    ensures
        last_position(front + seq![character] + back, character) == Some(front.len() as int),
        after_last(front + seq![character] + back, character) == back,
        before_last(front + seq![character] + back, character) == front,
        last_position(back, character) is None,
        after_last(back, character) == back,
        before_last(back, character) == back,
    decreases back.len(),
{
    let text = front + seq![character] + back;
    if back.len() == 0 {
        assert(text.last() == character);
    } else {
        let shorter = back.drop_last();
        last_occurrences_part_the_text(front, character, shorter);
        assert(text.drop_last() =~= front + seq![character] + shorter);
        assert(text.last() == back.last());
    }
    assert(text.skip(front.len() as int + 1) =~= back);
    assert(text.take(front.len() as int) =~= front);
}

/// The white space of Unicode: twenty-five characters.
pub open spec fn is_space(character: char) -> bool {
    let code = character as u32;
    ||| 9 <= code <= 13
    ||| code == 32
    ||| code == 0x85
    ||| code == 0xa0
    ||| code == 0x1680
    ||| 0x2000 <= code <= 0x200a
    ||| code == 0x2028
    ||| code == 0x2029
    ||| code == 0x202f
    ||| code == 0x205f
    ||| code == 0x3000
}

/// White space is what Unicode counts as such.
pub proof fn white_space_is_listed(character: char)
    ensures
        is_white(character) == is_space(character),
{
}

/// A text is blank exactly where it is made of white space.
pub proof fn blank_texts_are_white_space(text: Seq<char>)
    ensures
        blank(text) <==> forall|i: int| 0 <= i < text.len() ==> is_space(#[trigger] text[i]),
{
    assert forall|i: int| 0 <= i < text.len() implies is_white(#[trigger] text[i]) == is_space(text[i]) by {
        white_space_is_listed(text[i]);
    }
}

proof fn starts_are_trimmed(text: Seq<char>) -> (lead: Seq<char>)
    ensures
        text == lead + trimmed_start(text),
        blank(lead),
        trimmed_start(text).len() > 0 ==> !is_white(trimmed_start(text)[0]),
    decreases text.len(),
{
    if text.len() > 0 && is_white(text[0]) {
        let lead = starts_are_trimmed(text.skip(1));
        let more = seq![text[0]] + lead;
        assert(text =~= seq![text[0]] + text.skip(1));
        assert(text =~= more + trimmed_start(text));
        assert forall|i: int| 0 <= i < more.len() implies is_white(#[trigger] more[i]) by {
            if i > 0 {
                assert(is_white(lead[i - 1]));
            }
        }
        more
    } else {
        assert(text =~= Seq::<char>::empty() + text);
        Seq::empty()
    }
}

proof fn ends_are_trimmed(text: Seq<char>) -> (tail: Seq<char>)
    ensures
        text == trimmed_end(text) + tail,
        blank(tail),
        trimmed_end(text).len() > 0 ==> !is_white(trimmed_end(text).last()),
        trimmed_end(text).len() > 0 ==> trimmed_end(text)[0] == text[0],
    decreases text.len(),
{
    if text.len() > 0 && is_white(text.last()) {
        let tail = ends_are_trimmed(text.drop_last());
        let more = tail.push(text.last());
        assert(text =~= text.drop_last().push(text.last()));
        assert(text =~= trimmed_end(text) + more);
        assert forall|i: int| 0 <= i < more.len() implies is_white(#[trigger] more[i]) by {
            if i < tail.len() {
                assert(is_white(tail[i]));
            }
        }
        more
    } else {
        assert(text =~= text + Seq::<char>::empty());
        Seq::empty()
    }
}

/// Trimming takes away white space at both ends, all of it, and nothing else.
pub proof fn trimming_takes_white_space_away(text: Seq<char>) -> (ends: (Seq<char>, Seq<char>))
    ensures
        text == ends.0 + trimmed(text) + ends.1,
        blank(ends.0),
        blank(ends.1),
        trimmed(text).len() > 0 ==> !is_white(trimmed(text)[0]) && !is_white(trimmed(text).last()),
{
    let lead = starts_are_trimmed(text);
    let tail = ends_are_trimmed(trimmed_start(text));
    assert(text =~= lead + trimmed(text) + tail);
    (lead, tail)
}

/// A text that ends in no white space and begins with none stays as it is.
pub proof fn trimmed_texts_stay(text: Seq<char>)
    requires
        text.len() > 0 ==> !is_white(text[0]) && !is_white(text.last()),
    ensures
        trimmed(text) == text,
{
}

/// The words of a text are those before a white space and those behind it, and a text without white
/// space is one word.
pub proof fn words_are_parted_by_white_space(front: Seq<char>, space: char, back: Seq<char>)
    requires
        is_white(space),
    ensures
        words(front + seq![space] + back) == words(front) + words(back),
        words(front.push(space)) == words(front),
    decreases back.len(),
{
    let text = front + seq![space] + back;
    assert(front.push(space).drop_last() =~= front);
    if back.len() == 0 {
        assert(text =~= front.push(space));
        assert(words(front) + words(back) =~= words(front));
    } else {
        let shorter = back.drop_last();
        words_are_parted_by_white_space(front, space, shorter);
        assert(text.drop_last() =~= front + seq![space] + shorter);
        assert(text.last() == back.last());
        if is_white(back.last()) {
        } else if back.len() > 1 {
            assert(text[text.len() - 2] == back[back.len() - 2]);
            if !is_white(back[back.len() - 2]) {
                words_end_in_the_last(shorter);
                let (a, b) = (words(front), words(shorter));
                assert((a + b).drop_last().push((a + b).last().push(back.last())) =~= a + b.drop_last().push(
                    b.last().push(back.last()),
                ));
            } else {
                assert(words(front) + words(back) =~= (words(front) + words(shorter)).push(seq![back.last()]));
            }
        } else {
            assert(text[text.len() - 2] == space);
            assert(shorter =~= Seq::empty());
            assert(words(front) + words(back) =~= words(front).push(seq![back.last()]));
        }
    }
}

proof fn words_end_in_the_last(text: Seq<char>)
    requires
        text.len() > 0,
        !is_white(text.last()),
    ensures
        words(text).len() > 0,
{
}

/// A text without white space is one word.
pub proof fn unbroken_texts_are_words(text: Seq<char>)
    requires
        text.len() > 0,
        forall|i: int| 0 <= i < text.len() ==> !is_white(#[trigger] text[i]),
    ensures
        words(text) == seq![text],
    decreases text.len(),
{
    let shorter = text.drop_last();
    assert(!is_white(text[text.len() - 1]));
    if text.len() > 1 {
        assert(!is_white(text[text.len() - 2]));
        assert forall|i: int| 0 <= i < shorter.len() implies !is_white(#[trigger] shorter[i]) by {
            assert(!is_white(text[i]));
        }
        unbroken_texts_are_words(shorter);
        assert(shorter.push(text.last()) =~= text);
        assert(words(text) =~= seq![text]);
    } else {
        assert(text =~= seq![text.last()]);
        assert(shorter =~= Seq::empty());
        assert(words(shorter) =~= Seq::empty());
        assert(words(text) =~= seq![text]);
    }
}

/// A line feed ends a line, with the carriage return before it; what stands behind the last one is a
/// line of its own, where it is not empty.
pub proof fn line_feeds_end_lines(front: Seq<char>, line: Seq<char>, last: Seq<char>)
    requires
        lacks(line, '\n'),
        lacks(last, '\n'),
    ensures
        lines_of(last) == (if last.len() == 0 {
            Seq::<Seq<char>>::empty()
        } else {
            seq![last]
        }),
        lines_of(line + seq!['\n'] + last) == (if last.len() == 0 {
            seq![without_return(line)]
        } else {
            seq![without_return(line), last]
        }),
{
    separators_end_pieces(front, '\n', last);
    separators_end_pieces(line, '\n', last);
    separators_end_pieces(front, '\n', line);
    assert(lines_of(last) =~= if last.len() == 0 {
        Seq::<Seq<char>>::empty()
    } else {
        seq![last]
    });
    assert(lines_of(line + seq!['\n'] + last) =~= if last.len() == 0 {
        seq![without_return(line)]
    } else {
        seq![without_return(line), last]
    });
}

/// Every line ends at a line feed: a further line behind one is a further line of the text.
pub proof fn further_lines_follow(front: Seq<char>, last: Seq<char>)
    requires
        lacks(last, '\n'),
        last.len() > 0,
    ensures
        lines_of(front + seq!['\n'] + last) == lines_of(front + seq!['\n']).push(last),
{
    separators_end_pieces(front, '\n', last);
    separators_end_pieces(front, '\n', Seq::empty());
    assert(front + seq!['\n'] + Seq::<char>::empty() =~= front + seq!['\n']);
    let pieces = split_on(front, '\n');
    let a = lines_of(front + seq!['\n']);
    let b = lines_of(front + seq!['\n'] + last);
    assert(a =~= Seq::new(pieces.len(), |i: int| without_return(pieces[i])));
    assert(b =~= a.push(last));
}

/// Lowering changes the capital letters of ASCII to small ones, one by one, and nothing else.
pub proof fn lowering_changes_capitals_only(text: Seq<char>, at: int)
    requires
        0 <= at < text.len(),
    ensures
        lowered(text).len() == text.len(),
        65 <= text[at] as u32 <= 90 ==> lowered(text)[at] as u32 == text[at] as u32 + 32,
        !(65 <= text[at] as u32 <= 90) ==> lowered(text)[at] == text[at],
        lowered(lowered(text)) == lowered(text),
{
    assert(lowered(lowered(text)) =~= lowered(text));
}

/// The value of a text of digits.
pub open spec fn decimal_value(text: Seq<char>) -> int
    decreases text.len(),
{
    if text.len() == 0 {
        0
    } else {
        decimal_value(text.drop_last()) * 10 + (text.last() as int - 48)
    }
}

/// A number in decimal has the value of the number, is made of digits, and begins with a zero only
/// where it is zero.
pub proof fn decimals_have_their_value(number: nat)
    ensures
        decimal_value(decimal(number)) == number,
        decimal(number).len() > 0,
        forall|i: int| 0 <= i < decimal(number).len() ==> 48 <= #[trigger] decimal(number)[i] as u32 <= 57,
        number > 0 ==> decimal(number)[0] != '0',
    decreases number,
{
    if number < 10 {
        assert(decimal(number).drop_last() =~= Seq::empty());
        assert(decimal_value(decimal(number).drop_last()) == 0);
    } else {
        decimals_have_their_value(number / 10);
        let before = decimal(number / 10);
        assert(decimal(number).drop_last() =~= before);
        assert(decimal(number)[0] == before[0]);
        assert forall|i: int| 0 <= i < decimal(number).len() implies 48 <= #[trigger] decimal(number)[i] as u32 <= 57 by {
            if i < before.len() {
                assert(decimal(number)[i] == before[i]);
            }
        }
    }
}

/// The first place of a character, where it occurs at all.
pub proof fn first_places_are_first(text: Seq<char>, character: char, from: int)
    requires
        0 <= from <= text.len(),
    ensures
        match first_position(text, character, from) {
            Some(at) => from <= at < text.len() && text[at] == character && forall|i: int|
                from <= i < at ==> text[i] != character,
            None => forall|i: int| from <= i < text.len() ==> text[i] != character,
        },
    decreases text.len() - from,
{
    if from < text.len() && text[from] != character {
        first_places_are_first(text, character, from + 1);
    }
}

/// A value in quotes is read without them: what stands between a quote and the next one of its kind.
pub proof fn quotes_are_taken_off(front: Seq<char>, quote: char, value: Seq<char>, back: Seq<char>)
    requires
        quote == '"' || quote == '\'' || quote == '`',
        lacks(value, quote),
        forall|i: int| 0 <= i < front.len() ==> front[i] != '"' && front[i] != '\'' && front[i] != '`',
    ensures
        quoted_from(front + seq![quote] + value + seq![quote] + back, 0).len() > 0,
        quoted_from(front + seq![quote] + value + seq![quote] + back, 0)[0] == value,
{
    let text = front + seq![quote] + value + seq![quote] + back;
    let (open, close) = (front.len() as int, (front.len() + 1 + value.len()) as int);
    quotes_are_found(text, 0, open);
    first_places_are_first(text, quote, open + 1);
    assert(text[open] == quote && text[close] == quote);
    assert forall|i: int| open < i < close implies text[i] != quote by {
        assert(text[i] == value[i - open - 1]);
    }
    assert(first_position(text, quote, open + 1) == Some(close));
    assert(text.subrange(open + 1, close) =~= value);
}

proof fn quotes_are_found(text: Seq<char>, from: int, at: int)
    requires
        0 <= from <= at < text.len(),
        text[at] == '"' || text[at] == '\'' || text[at] == '`',
        forall|i: int| from <= i < at ==> text[i] != '"' && text[i] != '\'' && text[i] != '`',
    ensures
        crate::lexical::quote_position(text, from) == Some(at),
    decreases at - from,
{
    if from < at {
        quotes_are_found(text, from + 1, at);
    }
}

} // verus!
