//! What holds of the text that JSON documents are written as.

use vstd::prelude::*;

use crate::json::{
    escaped, escaped_text, is_digits, is_exponent, is_fraction, is_integer_spelling, is_made_of, is_number_spelling,
    items_json, items_text, json_string, members_text, separator, Json, JsonView,
};
use crate::text::{decimal, hex_digit};

verus! {

/// A character is written as itself, unless it is a quote, a backslash or a control character.
pub proof fn plain_characters_are_written_as_they_are(character: char)
    ensures
        escaped(character) == seq![character] <==> character as u32 >= 32 && character != '"' && character != '\\',
        escaped(character).len() > 0,
        escaped(character) != seq![character] ==> escaped(character)[0] == '\\',
        forall|i: int| 0 <= i < escaped(character).len() ==> (#[trigger] escaped(character)[i]) as u32 >= 32,
        escaped('"') == seq!['\\', '"'],
        escaped('\\') == seq!['\\', '\\'],
        escaped('\n') == seq!['\\', 'n'],
        escaped('\r') == seq!['\\', 'r'],
        escaped('\t') == seq!['\\', 't'],
        character as u32 == 8 ==> escaped(character) == seq!['\\', 'b'],
        character as u32 == 12 ==> escaped(character) == seq!['\\', 'f'],
{
    let text = escaped(character);
    if text.len() == 1 {
        assert(text[0] == character);
    }
    if text.len() != 1 {
        assert(text.len() != seq![character].len());
    }
    if (character as u32) < 32 && text.len() == 6 {
        let high = hex_digit(character as nat / 16);
        let low = hex_digit(character as nat % 16);
        assert(high as u32 >= 32 && low as u32 >= 32);
    }
}

/// A text is written character by character, between quotes.
pub proof fn texts_are_written_in_quotes(front: Seq<char>, back: Seq<char>)
    ensures
        escaped_text(front + back) == escaped_text(front) + escaped_text(back),
        json_string(front) == seq!['"'] + escaped_text(front) + seq!['"'],
        json_string(Seq::empty()) == seq!['"', '"'],
        front.len() == 1 ==> escaped_text(front) == escaped(front[0]),
    decreases front.len(),
{
    reveal(json_string);
    let nothing = Seq::<char>::empty();
    assert(escaped_text(nothing) =~= nothing);
    assert(json_string(nothing) =~= seq!['"', '"']);
    if front.len() == 0 {
        assert(front + back =~= back);
        assert(escaped_text(front) + escaped_text(back) =~= escaped_text(back));
    } else {
        texts_are_written_in_quotes(front.skip(1), back);
        assert((front + back).skip(1) =~= front.skip(1) + back);
        assert(escaped_text(front + back) =~= escaped_text(front) + escaped_text(back));
        if front.len() == 1 {
            assert(front.skip(1) =~= nothing);
            assert(escaped_text(front) =~= escaped(front[0]));
        }
    }
}

/// Words, texts and empty collections are written by themselves.
pub proof fn values_are_written_by_kind(text: Seq<char>)
    ensures
        JsonView::Null.text() == "null"@,
        JsonView::Bool(true).text() == "true"@,
        JsonView::Bool(false).text() == "false"@,
        JsonView::Number(text).text() == text,
        JsonView::Text(text).text() == json_string(text),
        JsonView::Array(Seq::empty()).text() == "[]"@,
        JsonView::Object(Seq::empty()).text() == "{}"@,
{
    reveal_strlit("[");
    reveal_strlit("]");
    reveal_strlit("[]");
    reveal_strlit("{");
    reveal_strlit("}");
    reveal_strlit("{}");
    assert(JsonView::Array(Seq::empty()).text() =~= "[]"@);
    assert(JsonView::Object(Seq::empty()).text() =~= "{}"@);
}

/// One more item is written behind those before it, after a comma where there are any.
pub proof fn items_are_written_in_order(items: Seq<JsonView>, item: JsonView)
    ensures
        JsonView::Array(seq![item]).text() == "["@ + item.text() + "]"@,
        items.len() > 0 ==> JsonView::Array(items.push(item)).text() == "["@ + items_text(items, 0) + ","@ + item.text()
            + "]"@,
{
    further_items_follow(items, item, 0);
    further_items_follow(Seq::empty(), item, 0);
    assert(Seq::<JsonView>::empty().push(item) =~= seq![item]);
    assert(JsonView::Array(seq![item]).text() =~= "["@ + item.text() + "]"@);
    if items.len() > 0 {
        assert(JsonView::Array(items.push(item)).text() =~= "["@ + items_text(items, 0) + ","@ + item.text() + "]"@);
    }
}

proof fn further_items_follow(items: Seq<JsonView>, item: JsonView, from: nat)
    requires
        from <= items.len(),
    ensures
        items_text(items.push(item), from) == items_text(items, from) + separator(items.len()) + item.text(),
    decreases items.len() - from,
{
    let longer = items.push(item);
    if from < items.len() {
        further_items_follow(items, item, from + 1);
        assert(longer[from as int] == items[from as int]);
    } else {
        assert(items_text(longer, from + 1) =~= Seq::<char>::empty());
    }
    assert(items_text(longer, from) =~= items_text(items, from) + separator(items.len()) + item.text());
}

/// One more member is written behind those before it: its name in quotes, a colon and its value.
pub proof fn document_members_are_written_in_order(
    members: Seq<(Seq<char>, JsonView)>,
    name: Seq<char>,
    value: JsonView,
)
    ensures
        JsonView::Object(seq![(name, value)]).text() == "{"@ + json_string(name) + ":"@ + value.text() + "}"@,
        members.len() > 0 ==> JsonView::Object(members.push((name, value))).text() == "{"@ + members_text(members, 0)
            + ","@ + json_string(name) + ":"@ + value.text() + "}"@,
{
    further_members_follow(members, name, value, 0);
    further_members_follow(Seq::empty(), name, value, 0);
    assert(Seq::<(Seq<char>, JsonView)>::empty().push((name, value)) =~= seq![(name, value)]);
    assert(JsonView::Object(seq![(name, value)]).text() =~= "{"@ + json_string(name) + ":"@ + value.text() + "}"@);
    if members.len() > 0 {
        assert(JsonView::Object(members.push((name, value))).text() =~= "{"@ + members_text(members, 0) + ","@
            + json_string(name) + ":"@ + value.text() + "}"@);
    }
}

proof fn further_members_follow(members: Seq<(Seq<char>, JsonView)>, name: Seq<char>, value: JsonView, from: nat)
    requires
        from <= members.len(),
    ensures
        members_text(members.push((name, value)), from) == members_text(members, from) + separator(members.len())
            + json_string(name) + ":"@ + value.text(),
    decreases members.len() - from,
{
    let longer = members.push((name, value));
    if from < members.len() {
        further_members_follow(members, name, value, from + 1);
        assert(longer[from as int] == members[from as int]);
    } else {
        assert(members_text(longer, from + 1) =~= Seq::<char>::empty());
    }
    assert(members_text(longer, from) =~= members_text(members, from) + separator(members.len()) + json_string(name)
        + ":"@ + value.text());
}

/// A list of values is written in brackets, each value behind the one before it and a comma.
pub proof fn lists_are_written_in_order<T: Json>(models: Seq<T::V>, model: T::V)
    ensures
        <Vec<T> as Json>::json(Seq::empty()) == "[]"@,
        <Vec<T> as Json>::json(seq![model]) == "["@ + T::json(model) + "]"@,
        models.len() > 0 ==> <Vec<T> as Json>::json(models.push(model)) == "["@ + items_json::<T>(models) + ","@
            + T::json(model) + "]"@,
{
    reveal_strlit("[");
    reveal_strlit("]");
    reveal_strlit("[]");
    assert(<Vec<T> as Json>::json(Seq::empty()) =~= "[]"@);
    if models.len() > 0 {
        assert(models.push(model).drop_last() =~= models);
        assert(<Vec<T> as Json>::json(models.push(model)) =~= "["@ + items_json::<T>(models) + ","@ + T::json(model)
            + "]"@);
    }
}

/// Every number of 64 bits is spelled as a number, with or without a sign, and so are fractions and
/// powers of ten behind it.
pub proof fn numbers_are_spelled(number: u64, whole: nat, fraction: Seq<char>, exponent: Seq<char>)
    requires
        is_digits(fraction),
        is_digits(exponent),
    ensures
        is_number_spelling(decimal(number as nat)),
        0 < number <= 0x8000_0000_0000_0000u64 ==> is_number_spelling("-"@ + decimal(number as nat)),
        is_number_spelling(decimal(whole) + (seq!['.'] + fraction)),
        is_number_spelling("-"@ + decimal(whole) + (seq!['.'] + fraction)),
        is_number_spelling(decimal(whole) + (seq!['.'] + fraction) + (seq!['e', '-'] + exponent)),
        is_number_spelling(decimal(whole) + (seq!['e', '+'] + exponent)),
{
    reveal_strlit("");
    let nothing = Seq::<char>::empty();
    let point = seq!['.'] + fraction;
    let small = seq!['e', '-'] + exponent;
    let large = seq!['e', '+'] + exponent;
    assert(point.skip(1) =~= fraction);
    assert(small.skip(2) =~= exponent && large.skip(2) =~= exponent);
    assert(is_fraction(point) && is_exponent(small) && is_exponent(large));
    let digits = decimal(whole);
    assert(digits + point =~= ""@ + digits + point + nothing);
    assert(is_made_of(digits + point, false, whole, point, nothing));
    assert("-"@ + digits + point =~= "-"@ + digits + point + nothing);
    assert(is_made_of("-"@ + digits + point, true, whole, point, nothing));
    assert(digits + point + small =~= ""@ + digits + point + small);
    assert(is_made_of(digits + point + small, false, whole, point, small));
    assert(digits + large =~= ""@ + digits + nothing + large);
    assert(is_made_of(digits + large, false, whole, nothing, large));
    assert(is_integer_spelling(decimal(number as nat)));
}

} // verus!
