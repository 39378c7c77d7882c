//! JSON values and the canonical JSON text of the crate's snapshots.

use vstd::prelude::*;
use vstd::string::StringExecFns;

use crate::order::ascending;
use crate::text::{decimal, digit, hex_digit, is_digit};
use crate::value::Value;

verus! {

/// How a JSON string literal writes a character: quotes, backslashes and control characters are
/// escaped, the common ones by a letter and the others by their code.
pub open spec fn escaped(character: char) -> Seq<char> {
    if character == '"' || character == '\\' {
        seq!['\\', character]
    } else if character as u32 == 8 {
        seq!['\\', 'b']
    } else if character == '\t' {
        seq!['\\', 't']
    } else if character == '\n' {
        seq!['\\', 'n']
    } else if character as u32 == 12 {
        seq!['\\', 'f']
    } else if character == '\r' {
        seq!['\\', 'r']
    } else if (character as u32) < 32 {
        seq!['\\', 'u', '0', '0', hex_digit(character as nat / 16), hex_digit(character as nat % 16)]
    } else {
        seq![character]
    }
}

/// How a JSON string literal writes a text.
pub open spec fn escaped_text(text: Seq<char>) -> Seq<char>
    decreases text.len(),
{
    if text.len() == 0 {
        Seq::empty()
    } else {
        escaped(text[0]) + escaped_text(text.skip(1))
    }
}

/// A JSON string literal.
#[verifier::opaque]
pub open spec fn json_string(text: Seq<char>) -> Seq<char> {
    seq!['"'] + escaped_text(text) + seq!['"']
}

/// `serde_json::Value::to_string` of a text value: its JSON string literal, which escapes nothing
/// but quotes, backslashes and control characters.
#[verifier::external_body]
pub(crate) fn json_string_text(text: &str) -> (literal: String)
    ensures
        literal@ == json_string(text@),
{
    serde_json::Value::from(text).to_string()
}

/// The outermost level of a JSON document, with everything inside kept as JSON text.
#[derive(Debug)]
pub enum JsonLevel {
    Null,
    Bool,
    Number,
    Text { content: String },
    Array,
    Object { members: Vec<(String, String)> },
}

/// The model of [`JsonLevel`].
pub enum JsonLevelView {
    Null,
    Bool,
    Number,
    Text { content: Seq<char> },
    Array,
    Object { members: Seq<(Seq<char>, Seq<char>)> },
}

impl DeepView for JsonLevel {
    type V = JsonLevelView;

    open spec fn deep_view(&self) -> JsonLevelView {
        match self {
            JsonLevel::Null => JsonLevelView::Null,
            JsonLevel::Bool => JsonLevelView::Bool,
            JsonLevel::Number => JsonLevelView::Number,
            JsonLevel::Text { content } => JsonLevelView::Text { content: content@ },
            JsonLevel::Array => JsonLevelView::Array,
            JsonLevel::Object { members } => JsonLevelView::Object { members: members.deep_view() },
        }
    }
}

/// How many digits a text ends in.
pub open spec fn final_digits(text: Seq<char>) -> nat
    decreases text.len(),
{
    if text.len() == 0 || !is_digit(text.last()) {
        0
    } else {
        final_digits(text.drop_last()) + 1
    }
}

/// The longest run of digits that `serde_json` can count, which counts them in an `i32`.
pub const MAX_DIGIT_RUN: u32 = 0x7fff_ffff;

/// Whether every run of digits in a text can be counted.
pub open spec fn digits_are_countable(text: Seq<char>) -> bool {
    forall|end: int| 0 <= end <= text.len() ==> #[trigger] final_digits(text.take(end)) <= MAX_DIGIT_RUN
}

fn has_countable_digits(text: &str) -> (countable: bool)
    ensures
        countable == digits_are_countable(text@),
{
    let mut run: u32 = 0;
    for character in it: text.chars()
        invariant
            it.seq() == text@,
            run <= MAX_DIGIT_RUN,
            run == final_digits(text@.take(it.index() as int)),
            forall|end: int| 0 <= end <= it.index() ==> #[trigger] final_digits(text@.take(end)) <= MAX_DIGIT_RUN,
    {
        let ghost next = text@.take(it.index() as int + 1);
        assert(next.drop_last() =~= text@.take(it.index() as int));
        assert(next.last() == character);
        if digit(character) {
            if run == MAX_DIGIT_RUN {
                assert(final_digits(next) > MAX_DIGIT_RUN);
                return false;
            }
            run = run + 1;
        } else {
            run = 0;
        }
    }
    true
}

/// The outermost level of a JSON text, as `serde_json` parses it; none where the text is no JSON.
pub uninterp spec fn json_level(text: Seq<char>) -> Option<JsonLevelView>;

/// `serde_json::from_str` of a text to a `serde_json::Value`: the outermost level of the document,
/// one variant for each variant of the value. The members of an object come in the order of its
/// map, their values written as JSON again by `serde_json::Value::to_string`. A run of digits that
/// is too long to count is left out: its counter may overflow.
#[verifier::external_body]
pub(crate) fn read_json_level(text: &str) -> (level: Option<JsonLevel>)
    requires
        digits_are_countable(text@),
    ensures
        level.deep_view() == json_level(text@),
{
    serde_json::from_str::<serde_json::Value>(text).ok().map(|value| match value {
        serde_json::Value::Null => JsonLevel::Null,
        serde_json::Value::Bool(_) => JsonLevel::Bool,
        serde_json::Value::Number(_) => JsonLevel::Number,
        serde_json::Value::String(content) => JsonLevel::Text { content },
        serde_json::Value::Array(_) => JsonLevel::Array,
        serde_json::Value::Object(members) => JsonLevel::Object {
            members: members.into_iter().map(|(key, member)| (key, member.to_string())).collect(),
        },
    })
}

/// The outermost level of a document; none where the text is no JSON, or holds a run of digits that
/// is too long to count.
pub open spec fn document_level(text: Seq<char>) -> Option<JsonLevelView> {
    if digits_are_countable(text) {
        json_level(text)
    } else {
        None
    }
}

/// Reads the outermost level of a document.
pub fn read_level(text: &str) -> (level: Option<JsonLevel>)
    ensures
        level.deep_view() == document_level(text@),
{
    if has_countable_digits(text) {
        read_json_level(text)
    } else {
        None
    }
}

/// A JSON document. A number is kept in its canonical spelling, and an object as its members in
/// ascending order of their names, which is the order in which they are written:
/// [`JsonView::valid`] says so.
#[derive(Debug, PartialEq, Eq)]
pub enum JsonValue {
    Null,
    Bool(bool),
    Number(String),
    Text(String),
    Array(Vec<JsonValue>),
    Object(Vec<(String, JsonValue)>),
}

/// The model of [`JsonValue`].
pub enum JsonView {
    Null,
    Bool(bool),
    Number(Seq<char>),
    Text(Seq<char>),
    Array(Seq<JsonView>),
    Object(Seq<(Seq<char>, JsonView)>),
}

/// What a JSON document means.
pub open spec fn json_model(value: JsonValue) -> JsonView
    decreases value,
{
    match value {
        JsonValue::Null => JsonView::Null,
        JsonValue::Bool(flag) => JsonView::Bool(flag),
        JsonValue::Number(number) => JsonView::Number(number@),
        JsonValue::Text(text) => JsonView::Text(text@),
        JsonValue::Array(items) => JsonView::Array(
            Seq::new(
                items@.len(),
                |i: int|
                    if 0 <= i < items@.len() {
                        json_model(items@[i])
                    } else {
                        JsonView::Null
                    },
            ),
        ),
        JsonValue::Object(members) => JsonView::Object(
            Seq::new(
                members@.len(),
                |i: int|
                    if 0 <= i < members@.len() {
                        (members@[i].0@, json_model(members@[i].1))
                    } else {
                        (Seq::empty(), JsonView::Null)
                    },
            ),
        ),
    }
}

impl DeepView for JsonValue {
    type V = JsonView;

    open spec fn deep_view(&self) -> JsonView {
        json_model(*self)
    }
}

/// Whether a text is made of digits, of which it has at least one.
pub open spec fn is_digits(text: Seq<char>) -> bool {
    text.len() > 0 && forall|i: int| 0 <= i < text.len() ==> is_digit(#[trigger] text[i])
}

/// The canonical spelling of an integer that fits in 64 bits: no sign but a minus, no leading zeros.
pub open spec fn is_integer_spelling(text: Seq<char>) -> bool {
    ||| exists|number: u64| text == #[trigger] decimal(number as nat)
    ||| exists|number: u64|
        0 < number <= 0x8000_0000_0000_0000u64 && text == "-"@ + #[trigger] decimal(number as nat)
}

/// The fraction of a number: a point, then digits.
pub open spec fn is_fraction(text: Seq<char>) -> bool {
    text.len() > 0 && text[0] == '.' && is_digits(text.skip(1))
}

/// The exponent of a number: the letter, then digits, behind a sign or not.
pub open spec fn is_exponent(text: Seq<char>) -> bool {
    text.len() > 1 && text[0] == 'e' && (is_digits(text.skip(1)) || (text[1] == '+' || text[1] == '-') && is_digits(
        text.skip(2),
    ))
}

/// Whether a text spells a number out of its parts.
pub open spec fn is_made_of(
    text: Seq<char>,
    negative: bool,
    whole: nat,
    fraction: Seq<char>,
    exponent: Seq<char>,
) -> bool {
    &&& fraction.len() == 0 || is_fraction(fraction)
    &&& exponent.len() == 0 || is_exponent(exponent)
    &&& fraction.len() + exponent.len() > 0
    &&& text == (if negative {
        "-"@
    } else {
        ""@
    }) + decimal(whole) + fraction + exponent
}

/// The spelling of any other number: with a fraction, an exponent, or both.
pub open spec fn is_decimal_spelling(text: Seq<char>) -> bool {
    exists|negative: bool, whole: nat, fraction: Seq<char>, exponent: Seq<char>| #[trigger]
        is_made_of(text, negative, whole, fraction, exponent)
}

/// Whether a text spells a number: an integer in its one spelling, or a number with a fraction or an
/// exponent.
pub open spec fn is_number_spelling(text: Seq<char>) -> bool {
    is_integer_spelling(text) || is_decimal_spelling(text)
}

/// The names of the members of an object.
pub open spec fn member_names(members: Seq<(Seq<char>, JsonView)>) -> Seq<Seq<char>> {
    Seq::new(members.len(), |i: int| members[i].0)
}

impl JsonView {
    /// Whether a document is one that JSON has: its numbers are spelled as numbers, and the names of
    /// an object ascend, so that none occurs twice.
    pub open spec fn valid(self) -> bool
        decreases self,
    {
        match self {
            JsonView::Number(number) => is_number_spelling(number),
            JsonView::Array(items) => forall|i: int| 0 <= i < items.len() ==> (#[trigger] items[i]).valid(),
            JsonView::Object(members) => ascending::<String>(member_names(members)) && forall|i: int|
                0 <= i < members.len() ==> (#[trigger] members[i]).1.valid(),
            _ => true,
        }
    }

    /// The canonical text: no white space, members in order.
    pub open spec fn text(self) -> Seq<char>
        decreases self, 0nat,
    {
        match self {
            JsonView::Null => "null"@,
            JsonView::Bool(flag) => if flag {
                "true"@
            } else {
                "false"@
            },
            JsonView::Number(number) => number,
            JsonView::Text(text) => json_string(text),
            JsonView::Array(items) => "["@ + items_text(items, 0) + "]"@,
            JsonView::Object(members) => "{"@ + members_text(members, 0) + "}"@,
        }
    }

    /// Whether this is an object with at least one member.
    pub open spec fn has_members(self) -> bool {
        self matches JsonView::Object(members) && members.len() > 0
    }
}

/// What separates an item or a member at a position from the one before it.
pub open spec fn separator(at: nat) -> Seq<char> {
    if at == 0 {
        Seq::empty()
    } else {
        ","@
    }
}

/// The items of an array from a position on, separated by commas.
pub open spec fn items_text(items: Seq<JsonView>, from: nat) -> Seq<char>
    decreases items, items.len() - from,
{
    if from >= items.len() {
        Seq::empty()
    } else {
        separator(from) + items[from as int].text() + items_text(items, from + 1)
    }
}

/// The members of an object from a position on, separated by commas.
pub open spec fn members_text(members: Seq<(Seq<char>, JsonView)>, from: nat) -> Seq<char>
    decreases members, members.len() - from,
{
    if from >= members.len() {
        Seq::empty()
    } else {
        separator(from) + json_string(members[from as int].0) + ":"@ + members[from as int].1.text() + members_text(
            members,
            from + 1,
        )
    }
}

impl JsonValue {
    /// Writes the canonical text.
    pub fn write(&self, out: &mut String)
        ensures
            final(out)@ == old(out)@ + self.deep_view().text(),
        decreases self,
    {
        let ghost before = out@;
        match self {
            JsonValue::Null => out.append("null"),
            JsonValue::Bool(flag) => {
                if *flag {
                    out.append("true");
                } else {
                    out.append("false");
                }
            },
            JsonValue::Number(number) => out.append(number.as_str()),
            JsonValue::Text(text) => {
                let literal = json_string_text(text.as_str());
                out.append(literal.as_str());
            },
            JsonValue::Array(items) => {
                let ghost models = self.deep_view()->Array_0;
                out.append("[");
                let mut index: usize = 0;
                while index < items.len()
                    invariant
                        index <= items@.len() == models.len(),
                        *self == JsonValue::Array(*items),
                        self.deep_view() == JsonView::Array(models),
                        forall|i: int| 0 <= i < models.len() ==> #[trigger] models[i] == items@[i].deep_view(),
                        out@ + items_text(models, index as nat) == before + "["@ + items_text(models, 0),
                    decreases items@.len() - index,
                {
                    let ghost start = out@;
                    if index > 0 {
                        out.append(",");
                    }
                    assert(out@ =~= start + separator(index as nat));
                    let item = &items[index];
                    assert(decreases_to!(*items => items[index as int]));
                    assert(self->Array_0 == *items);
                    assert(decreases_to!(*self => self->Array_0));
                    item.write(out);
                    assert(models[index as int] == item.deep_view());
                    assert(out@ + items_text(models, index as nat + 1) =~= start + items_text(models, index as nat));
                    index = index + 1;
                }
                out.append("]");
                assert(out@ =~= before + self.deep_view().text());
            },
            JsonValue::Object(members) => {
                let ghost models = self.deep_view()->Object_0;
                out.append("{");
                let mut index: usize = 0;
                while index < members.len()
                    invariant
                        index <= members@.len() == models.len(),
                        *self == JsonValue::Object(*members),
                        self.deep_view() == JsonView::Object(models),
                        forall|i: int|
                            0 <= i < models.len() ==> (#[trigger] models[i]).0 == members@[i].0@ && models[i].1
                                == members@[i].1.deep_view(),
                        out@ + members_text(models, index as nat) == before + "{"@ + members_text(models, 0),
                    decreases members@.len() - index,
                {
                    let ghost start = out@;
                    if index > 0 {
                        out.append(",");
                    }
                    assert(out@ =~= start + separator(index as nat));
                    let member = &members[index];
                    assert(decreases_to!(*members => members[index as int]));
                    assert(self->Object_0 == *members);
                    assert(decreases_to!(*self => self->Object_0));
                    assert(decreases_to!(*member => member.1));
                    let key = json_string_text(member.0.as_str());
                    out.append(key.as_str());
                    out.append(":");
                    member.1.write(out);
                    assert(models[index as int].1 == member.1.deep_view());
                    assert(out@ + members_text(models, index as nat + 1) =~= start + members_text(
                        models,
                        index as nat,
                    ));
                    index = index + 1;
                }
                out.append("}");
                assert(out@ =~= before + self.deep_view().text());
            },
        }
    }

    /// Whether this is an object with at least one member.
    pub fn is_filled_object(&self) -> (result: bool)
        ensures
            result == self.deep_view().has_members(),
    {
        match self {
            JsonValue::Object(members) => members.len() > 0,
            _ => false,
        }
    }
}

impl Value for JsonValue {
    fn copied(&self) -> (copy: Self)
        decreases self,
    {
        match self {
            JsonValue::Null => JsonValue::Null,
            JsonValue::Bool(flag) => JsonValue::Bool(*flag),
            JsonValue::Number(number) => JsonValue::Number(number.clone()),
            JsonValue::Text(text) => JsonValue::Text(text.clone()),
            JsonValue::Array(items) => {
                let mut copies: Vec<JsonValue> = Vec::new();
                let mut index: usize = 0;
                while index < items.len()
                    invariant
                        index <= items@.len(),
                        *self == JsonValue::Array(*items),
                        copies@.len() == index,
                        forall|i: int| 0 <= i < index ==> json_model(#[trigger] copies@[i]) == json_model(items@[i]),
                    decreases items@.len() - index,
                {
                    let item = &items[index];
                    assert(decreases_to!(*items => items[index as int]));
                    assert(self->Array_0 == *items);
                    assert(decreases_to!(*self => self->Array_0));
                    copies.push(item.copied());
                    index = index + 1;
                }
                let copy = JsonValue::Array(copies);
                assert(json_model(copy)->Array_0 =~= json_model(*self)->Array_0);
                copy
            },
            JsonValue::Object(members) => {
                let mut copies: Vec<(String, JsonValue)> = Vec::new();
                let mut index: usize = 0;
                while index < members.len()
                    invariant
                        index <= members@.len(),
                        *self == JsonValue::Object(*members),
                        copies@.len() == index,
                        forall|i: int|
                            0 <= i < index ==> (#[trigger] copies@[i]).0@ == members@[i].0@
                                && json_model(copies@[i].1)
                                == json_model(members@[i].1),
                    decreases members@.len() - index,
                {
                    let member = &members[index];
                    assert(decreases_to!(*members => members[index as int]));
                    assert(self->Object_0 == *members);
                    assert(decreases_to!(*self => self->Object_0));
                    assert(decreases_to!(*member => member.1));
                    copies.push((member.0.clone(), member.1.copied()));
                    index = index + 1;
                }
                let copy = JsonValue::Object(copies);
                assert(json_model(copy)->Object_0 =~= json_model(*self)->Object_0);
                copy
            },
        }
    }

    fn same(&self, other: &Self) -> (equal: bool)
        decreases self,
    {
        match (self, other) {
            (JsonValue::Null, JsonValue::Null) => true,
            (JsonValue::Bool(left), JsonValue::Bool(right)) => *left == *right,
            (JsonValue::Number(left), JsonValue::Number(right)) => left.same(right),
            (JsonValue::Text(left), JsonValue::Text(right)) => left.same(right),
            (JsonValue::Array(left), JsonValue::Array(right)) => {
                let ghost (a, b) = (json_model(*self)->Array_0, json_model(*other)->Array_0);
                if left.len() != right.len() {
                    assert(a.len() != b.len());
                    return false;
                }
                let mut index: usize = 0;
                while index < left.len()
                    invariant
                        index <= left@.len() == right@.len(),
                        *self == JsonValue::Array(*left),
                        *other == JsonValue::Array(*right),
                        json_model(*self) == JsonView::Array(a),
                        json_model(*other) == JsonView::Array(b),
                        forall|i: int| 0 <= i < index ==> json_model(#[trigger] left@[i]) == json_model(right@[i]),
                    decreases left@.len() - index,
                {
                    let item = &left[index];
                    assert(decreases_to!(*left => left[index as int]));
                    assert(self->Array_0 == *left);
                    assert(decreases_to!(*self => self->Array_0));
                    if !item.same(&right[index]) {
                        assert(a[index as int] != b[index as int]);
                        return false;
                    }
                    index = index + 1;
                }
                assert(a =~= b);
                true
            },
            (JsonValue::Object(left), JsonValue::Object(right)) => {
                let ghost (a, b) = (json_model(*self)->Object_0, json_model(*other)->Object_0);
                if left.len() != right.len() {
                    assert(a.len() != b.len());
                    return false;
                }
                let mut index: usize = 0;
                while index < left.len()
                    invariant
                        index <= left@.len() == right@.len(),
                        *self == JsonValue::Object(*left),
                        *other == JsonValue::Object(*right),
                        json_model(*self) == JsonView::Object(a),
                        json_model(*other) == JsonView::Object(b),
                        forall|i: int|
                            0 <= i < index ==> (#[trigger] left@[i]).0@ == right@[i].0@ && json_model(left@[i].1)
                                == json_model(right@[i].1),
                    decreases left@.len() - index,
                {
                    let member = &left[index];
                    assert(decreases_to!(*left => left[index as int]));
                    assert(self->Object_0 == *left);
                    assert(decreases_to!(*self => self->Object_0));
                    assert(decreases_to!(*member => member.1));
                    if !member.0.same(&right[index].0) || !member.1.same(&right[index].1) {
                        assert(a[index as int] != b[index as int]);
                        return false;
                    }
                    index = index + 1;
                }
                assert(a =~= b);
                true
            },
            _ => false,
        }
    }
}

impl Clone for JsonValue {
    fn clone(&self) -> (copy: Self)
        ensures
            copy.deep_view() == self.deep_view(),
    {
        self.copied()
    }
}

/// A snapshot with a canonical JSON text that depends on its model alone.
pub trait Json: Value {
    /// The canonical JSON text.
    spec fn json(model: Self::V) -> Seq<char>;

    /// Appends the canonical JSON text.
    fn write_json(&self, out: &mut String)
        ensures
            final(out)@ == old(out)@ + Self::json(self.deep_view()),
    ;
}

/// The body of a JSON object with one more member.
pub open spec fn with_member(body: Seq<char>, name: Seq<char>, value: Seq<char>) -> Seq<char> {
    body + (if body.len() == 0 {
        "\""@
    } else {
        ",\""@
    }) + name + "\":"@ + value
}

/// The body of a JSON object with one more member, where that member is present.
pub open spec fn with_member_if(body: Seq<char>, present: bool, name: Seq<char>, value: Seq<char>) -> Seq<char> {
    if present {
        with_member(body, name, value)
    } else {
        body
    }
}

/// A JSON object around a body.
pub open spec fn object(body: Seq<char>) -> Seq<char> {
    "{"@ + body + "}"@
}

/// Adds a member whose value is already text.
pub(crate) fn push_member_text(body: &mut String, name: &str, value: &str)
    ensures
        final(body)@ == with_member(old(body)@, name@, value@),
{
    if body.as_str().is_empty() {
        body.append("\"");
    } else {
        body.append(",\"");
    }
    body.append(name);
    body.append("\":");
    body.append(value);
}

/// Adds a member.
pub(crate) fn push_member<T: Json>(body: &mut String, name: &str, value: &T)
    ensures
        final(body)@ == with_member(old(body)@, name@, T::json(value.deep_view())),
{
    let mut text = String::new();
    value.write_json(&mut text);
    assert(text@ =~= T::json(value.deep_view()));
    push_member_text(body, name, text.as_str());
}

/// Appends a JSON object around a body.
pub(crate) fn push_object(out: &mut String, body: &str)
    ensures
        final(out)@ == old(out)@ + object(body@),
{
    out.append("{");
    out.append(body);
    out.append("}");
    assert(out@ =~= old(out)@ + object(body@));
}

/// The items of a JSON array, separated by commas.
pub open spec fn items_json<T: Json>(models: Seq<T::V>) -> Seq<char>
    decreases models.len(),
{
    if models.len() == 0 {
        Seq::empty()
    } else if models.len() == 1 {
        T::json(models[0])
    } else {
        items_json::<T>(models.drop_last()) + ","@ + T::json(models.last())
    }
}

impl Json for String {
    open spec fn json(model: Seq<char>) -> Seq<char> {
        json_string(model)
    }

    fn write_json(&self, out: &mut String) {
        let literal = json_string_text(self.as_str());
        out.append(literal.as_str());
    }
}

impl Json for bool {
    open spec fn json(model: bool) -> Seq<char> {
        if model {
            "true"@
        } else {
            "false"@
        }
    }

    fn write_json(&self, out: &mut String) {
        if *self {
            out.append("true");
        } else {
            out.append("false");
        }
    }
}

impl Json for u64 {
    open spec fn json(model: u64) -> Seq<char> {
        crate::text::decimal(model as nat)
    }

    fn write_json(&self, out: &mut String) {
        let text = crate::text::decimal_text(*self);
        out.append(text.as_str());
    }
}

impl Json for u16 {
    open spec fn json(model: u16) -> Seq<char> {
        crate::text::decimal(model as nat)
    }

    fn write_json(&self, out: &mut String) {
        let text = crate::text::decimal_text(*self as u64);
        out.append(text.as_str());
    }
}

impl Json for u8 {
    open spec fn json(model: u8) -> Seq<char> {
        crate::text::decimal(model as nat)
    }

    fn write_json(&self, out: &mut String) {
        let text = crate::text::decimal_text(*self as u64);
        out.append(text.as_str());
    }
}

impl Json for usize {
    open spec fn json(model: usize) -> Seq<char> {
        crate::text::decimal(model as nat)
    }

    fn write_json(&self, out: &mut String) {
        let text = crate::text::decimal_text(*self as u64);
        out.append(text.as_str());
    }
}

impl Json for JsonValue {
    open spec fn json(model: JsonView) -> Seq<char> {
        model.text()
    }

    fn write_json(&self, out: &mut String) {
        self.write(out);
    }
}

impl<T: Json> Json for Option<T> {
    open spec fn json(model: Option<T::V>) -> Seq<char> {
        match model {
            Some(value) => T::json(value),
            None => "null"@,
        }
    }

    fn write_json(&self, out: &mut String) {
        match self {
            Some(value) => value.write_json(out),
            None => out.append("null"),
        }
    }
}

impl<T: Json> Json for Vec<T> {
    open spec fn json(model: Seq<T::V>) -> Seq<char> {
        "["@ + items_json::<T>(model) + "]"@
    }

    fn write_json(&self, out: &mut String) {
        let ghost model = self.deep_view();
        out.append("[");
        let mut index: usize = 0;
        while index < self.len()
            invariant
                index <= self@.len(),
                model == self.deep_view(),
                out@ == old(out)@ + "["@ + items_json::<T>(model.take(index as int)),
            decreases self@.len() - index,
        {
            if index > 0 {
                out.append(",");
            }
            self[index].write_json(out);
            proof {
                assert(model.take(index as int + 1).drop_last() =~= model.take(index as int));
                assert(model.take(index as int + 1).last() == self@[index as int].deep_view());
                assert(out@ =~= old(out)@ + "["@ + items_json::<T>(model.take(index as int + 1)));
            }
            index = index + 1;
        }
        out.append("]");
        assert(model.take(self@.len() as int) =~= model);
        assert(out@ =~= old(out)@ + Self::json(model));
    }
}

proof fn escapes_read_back(left: char, right: char, after_left: Seq<char>, after_right: Seq<char>)
    requires
        escaped(left) + after_left == escaped(right) + after_right,
    ensures
        left == right,
        after_left == after_right,
{
    let whole = escaped(left) + after_left;
    let other = escaped(right) + after_right;
    let (a, b) = (escaped(left), escaped(right));
    assert(a.len() > 0 && b.len() > 0);
    assert(whole[0] == a[0] && other[0] == b[0]);
    if a.len() > 1 {
        assert(whole[1] == a[1]);
    }
    if b.len() > 1 {
        assert(other[1] == b[1]);
    }
    if a.len() == 6 {
        assert(whole[4] == a[4] && whole[5] == a[5]);
    }
    if b.len() == 6 {
        assert(other[4] == b[4] && other[5] == b[5]);
    }
    assert(left == right);
    assert(whole.skip(a.len() as int) =~= after_left);
    assert(other.skip(b.len() as int) =~= after_right);
}

proof fn escaped_texts_read_back(left: Seq<char>, right: Seq<char>, after_left: Seq<char>, after_right: Seq<char>)
    requires
        escaped_text(left) + seq!['"'] + after_left == escaped_text(right) + seq!['"'] + after_right,
    ensures
        left == right,
        after_left == after_right,
    decreases left.len() + right.len(),
{
    let whole = escaped_text(left) + seq!['"'] + after_left;
    let other = escaped_text(right) + seq!['"'] + after_right;
    if left.len() == 0 && right.len() == 0 {
        assert(whole.skip(1) =~= after_left);
        assert(other.skip(1) =~= after_right);
        assert(left =~= right);
    } else if left.len() == 0 {
        assert(whole[0] == '"');
        assert(other[0] == escaped(right[0])[0]);
    } else if right.len() == 0 {
        assert(other[0] == '"');
        assert(whole[0] == escaped(left[0])[0]);
    } else {
        let (a, b) = (left.skip(1), right.skip(1));
        assert(whole =~= escaped(left[0]) + (escaped_text(a) + seq!['"'] + after_left));
        assert(other =~= escaped(right[0]) + (escaped_text(b) + seq!['"'] + after_right));
        escapes_read_back(
            left[0],
            right[0],
            escaped_text(a) + seq!['"'] + after_left,
            escaped_text(b) + seq!['"'] + after_right,
        );
        escaped_texts_read_back(a, b, after_left, after_right);
        assert(left =~= seq![left[0]] + a);
        assert(right =~= seq![right[0]] + b);
    }
}

/// A JSON string literal says where it ends and what it spells: different texts have different
/// literals, whatever comes behind them.
pub proof fn literals_read_back(left: Seq<char>, right: Seq<char>, after_left: Seq<char>, after_right: Seq<char>)
    requires
        json_string(left) + after_left == json_string(right) + after_right,
    ensures
        left == right,
        after_left == after_right,
{
    reveal(json_string);
    let whole = json_string(left) + after_left;
    assert(whole.skip(1) =~= escaped_text(left) + seq!['"'] + after_left);
    assert(whole.skip(1) =~= escaped_text(right) + seq!['"'] + after_right);
    escaped_texts_read_back(left, right, after_left, after_right);
}

/// An optional text is written as a literal or as `null`, and reads back.
pub proof fn options_read_back(
    left: Option<Seq<char>>,
    right: Option<Seq<char>>,
    after_left: Seq<char>,
    after_right: Seq<char>,
)
    requires
        <Option<String> as Json>::json(left) + after_left == <Option<String> as Json>::json(right) + after_right,
    ensures
        left == right,
        after_left == after_right,
{
    let whole = <Option<String> as Json>::json(left) + after_left;
    let other = <Option<String> as Json>::json(right) + after_right;
    reveal_strlit("null");
    match (left, right) {
        (Some(a), Some(b)) => {
            literals_read_back(a, b, after_left, after_right);
        },
        (None, None) => {
            assert(whole.skip(4) =~= after_left);
            assert(other.skip(4) =~= after_right);
        },
        (Some(a), None) => {
            reveal(json_string);
            assert(whole[0] == '"');
            assert(other[0] == 'n');
        },
        (None, Some(b)) => {
            reveal(json_string);
            assert(whole[0] == 'n');
            assert(other[0] == '"');
        },
    }
}

/// The texts of a list behind its first one.
spec fn more_items(texts: Seq<Seq<char>>) -> Seq<char>
    decreases texts.len(),
{
    if texts.len() == 0 {
        Seq::empty()
    } else {
        ","@ + json_string(texts[0]) + more_items(texts.skip(1))
    }
}

proof fn more_items_next(texts: Seq<Seq<char>>, text: Seq<char>)
    ensures
        more_items(texts.push(text)) == more_items(texts) + ","@ + json_string(text),
    decreases texts.len(),
{
    let longer = texts.push(text);
    if texts.len() == 0 {
        assert(longer.skip(1) =~= Seq::empty());
        assert(more_items(longer.skip(1)) =~= Seq::empty());
        assert(more_items(texts) =~= Seq::empty());
        assert(more_items(longer) =~= more_items(texts) + ","@ + json_string(text));
    } else {
        assert(longer.skip(1) =~= texts.skip(1).push(text));
        more_items_next(texts.skip(1), text);
        assert(longer[0] == texts[0]);
        assert(more_items(longer) =~= more_items(texts) + ","@ + json_string(text));
    }
}

proof fn items_from_the_front(texts: Seq<Seq<char>>)
    requires
        texts.len() > 0,
    ensures
        items_json::<String>(texts) == json_string(texts[0]) + more_items(texts.skip(1)),
    decreases texts.len(),
{
    if texts.len() == 1 {
        assert(texts.skip(1) =~= Seq::empty());
        assert(json_string(texts[0]) + more_items(texts.skip(1)) =~= json_string(texts[0]));
    } else {
        let shorter = texts.drop_last();
        items_from_the_front(shorter);
        assert(texts.skip(1) =~= shorter.skip(1).push(texts.last()));
        more_items_next(shorter.skip(1), texts.last());
        assert(items_json::<String>(texts) =~= json_string(texts[0]) + more_items(texts.skip(1)));
    }
}

proof fn more_items_read_back(
    left: Seq<Seq<char>>,
    right: Seq<Seq<char>>,
    after_left: Seq<char>,
    after_right: Seq<char>,
)
    requires
        more_items(left) + "]"@ + after_left == more_items(right) + "]"@ + after_right,
    ensures
        left == right,
        after_left == after_right,
    decreases left.len() + right.len(),
{
    reveal_strlit("]");
    reveal_strlit(",");
    let whole = more_items(left) + "]"@ + after_left;
    let other = more_items(right) + "]"@ + after_right;
    if left.len() > 0 {
        assert(whole[0] == ',');
    } else {
        assert(whole[0] == ']');
    }
    if right.len() > 0 {
        assert(other[0] == ',');
    } else {
        assert(other[0] == ']');
    }
    if left.len() == 0 {
        assert(whole.skip(1) =~= after_left);
        assert(other.skip(1) =~= after_right);
        assert(left =~= right);
    } else {
        let (a, b) = (left.skip(1), right.skip(1));
        let (x, y) = (more_items(a) + "]"@ + after_left, more_items(b) + "]"@ + after_right);
        assert(whole.skip(1) =~= json_string(left[0]) + x);
        assert(other.skip(1) =~= json_string(right[0]) + y);
        literals_read_back(left[0], right[0], x, y);
        more_items_read_back(a, b, after_left, after_right);
        assert(left =~= seq![left[0]] + a);
        assert(right =~= seq![right[0]] + b);
    }
}

/// A list of texts says where it ends and what it holds.
pub proof fn lists_read_back(
    left: Seq<Seq<char>>,
    right: Seq<Seq<char>>,
    after_left: Seq<char>,
    after_right: Seq<char>,
)
    requires
        <Vec<String> as Json>::json(left) + after_left == <Vec<String> as Json>::json(right) + after_right,
    ensures
        left == right,
        after_left == after_right,
{
    reveal(json_string);
    reveal_strlit("[");
    reveal_strlit("]");
    let whole = <Vec<String> as Json>::json(left) + after_left;
    let other = <Vec<String> as Json>::json(right) + after_right;
    if left.len() > 0 {
        items_from_the_front(left);
        assert(whole[1] == json_string(left[0])[0]);
    } else {
        assert(whole[1] == ']');
    }
    if right.len() > 0 {
        items_from_the_front(right);
        assert(other[1] == json_string(right[0])[0]);
    } else {
        assert(other[1] == ']');
    }
    if left.len() == 0 {
        assert(whole.skip(2) =~= after_left);
        assert(other.skip(2) =~= after_right);
        assert(left =~= right);
    } else {
        let (a, b) = (left.skip(1), right.skip(1));
        let (x, y) = (more_items(a) + "]"@ + after_left, more_items(b) + "]"@ + after_right);
        assert(whole.skip(1) =~= json_string(left[0]) + x);
        assert(other.skip(1) =~= json_string(right[0]) + y);
        literals_read_back(left[0], right[0], x, y);
        more_items_read_back(a, b, after_left, after_right);
        assert(left =~= seq![left[0]] + a);
        assert(right =~= seq![right[0]] + b);
    }
}

/// The body of a JSON object with the first members of some names and values.
pub open spec fn first_members(names: Seq<Seq<char>>, values: Seq<Seq<char>>, count: nat) -> Seq<char>
    decreases count,
{
    if count == 0 {
        Seq::empty()
    } else {
        with_member(first_members(names, values, (count - 1) as nat), names[count - 1], values[count - 1])
    }
}

/// Whether two values say where they end: where they begin the same text they are the same.
#[verifier::opaque]
pub open spec fn reads_back(left: Seq<char>, right: Seq<char>) -> bool {
    forall|x: Seq<char>, y: Seq<char>| #[trigger] (left + x) == #[trigger] (right + y) ==> left == right
}

proof fn members_are_a_prefix(
    names: Seq<Seq<char>>,
    values: Seq<Seq<char>>,
    count: nat,
    total: nat,
) -> (rest: Seq<char>)
    requires
        count <= total,
    ensures
        first_members(names, values, total) == first_members(names, values, count) + rest,
    decreases total - count,
{
    if count == total {
        let rest = Seq::<char>::empty();
        assert(first_members(names, values, count) + rest =~= first_members(names, values, count));
        rest
    } else {
        let shorter = members_are_a_prefix(names, values, count, (total - 1) as nat);
        let before = first_members(names, values, (total - 1) as nat);
        let all = first_members(names, values, total);
        let rest = all.skip(first_members(names, values, count).len() as int);
        assert(all.take(before.len() as int) =~= before);
        assert(all =~= first_members(names, values, count) + rest);
        rest
    }
}

proof fn value_reads_back(before: Seq<char>, left: Seq<char>, right: Seq<char>, x: Seq<char>, y: Seq<char>)
    requires
        before + left + x == before + right + y,
        reads_back(left, right),
    ensures
        left == right,
{
    reveal(reads_back);
    let whole = before + left + x;
    let other = before + right + y;
    assert(whole.skip(before.len() as int) =~= left + x);
    assert(other.skip(before.len() as int) =~= right + y);
    assert(left + x == right + y);
}

proof fn bodies_read_back(left: Seq<char>, right: Seq<char>)
    requires
        object(left) == object(right),
    ensures
        left == right,
{
    reveal_strlit("{");
    reveal_strlit("}");
    assert(object(left).skip(1).drop_last() =~= left);
    assert(object(right).skip(1).drop_last() =~= right);
}

/// Objects with the same names in the same order, whose values say where they end, are written alike
/// only where their values are the same.
pub proof fn objects_read_back(names: Seq<Seq<char>>, left: Seq<Seq<char>>, right: Seq<Seq<char>>, count: nat)
    requires
        left.len() == names.len(),
        right.len() == names.len(),
        count <= names.len(),
        forall|i: int| 0 <= i < names.len() ==> reads_back(#[trigger] left[i], right[i]),
        object(first_members(names, left, names.len())) == object(first_members(names, right, names.len())),
    ensures
        forall|i: int| 0 <= i < count ==> left[i] == right[i],
        first_members(names, left, count) == first_members(names, right, count),
    decreases count,
{
    if count > 0 {
        let before = (count - 1) as nat;
        objects_read_back(names, left, right, before);
        let total = names.len();
        let body = first_members(names, left, before);
        let x = members_are_a_prefix(names, left, count, total);
        let y = members_are_a_prefix(names, right, count, total);
        let head = body + (if body.len() == 0 {
            "\""@
        } else {
            ",\""@
        }) + names[count - 1] + "\":"@;
        bodies_read_back(first_members(names, left, total), first_members(names, right, total));
        value_reads_back(head, left[count - 1], right[count - 1], x, y);
    }
}

/// A character of a number.
spec fn in_number(character: char) -> bool {
    is_digit(character) || character == '-' || character == '+' || character == '.' || character == 'e'
}

proof fn decimals_are_digits(number: nat)
    ensures
        is_digits(decimal(number)),
    decreases number,
{
    if number >= 10 {
        decimals_are_digits(number / 10);
        let (shorter, whole) = (decimal(number / 10), decimal(number));
        assert forall|i: int| 0 <= i < whole.len() implies is_digit(#[trigger] whole[i]) by {
            if i < shorter.len() {
                assert(whole[i] == shorter[i]);
            }
        }
    }
}

proof fn exponents_hold_number_characters(text: Seq<char>)
    requires
        is_exponent(text),
    ensures
        forall|i: int| 0 <= i < text.len() ==> in_number(#[trigger] text[i]),
{
    assert forall|i: int| 0 <= i < text.len() implies in_number(#[trigger] text[i]) by {
        if is_digits(text.skip(1)) {
            if i > 0 {
                assert(text.skip(1)[i - 1] == text[i]);
            }
        } else if i > 1 {
            assert(text.skip(2)[i - 2] == text[i]);
        }
    }
}

proof fn numbers_hold_number_characters(text: Seq<char>)
    requires
        is_number_spelling(text),
    ensures
        text.len() > 0,
        is_digit(text[0]) || text[0] == '-',
        forall|i: int| 0 <= i < text.len() ==> in_number(#[trigger] text[i]),
{
    reveal_strlit("-");
    reveal_strlit("");
    let (negative, whole, fraction, exponent) = if is_integer_spelling(text) {
        if exists|number: u64| text == #[trigger] decimal(number as nat) {
            let number = choose|number: u64| text == #[trigger] decimal(number as nat);
            (false, number as nat, Seq::empty(), Seq::empty())
        } else {
            let number = choose|number: u64|
                0 < number <= 0x8000_0000_0000_0000u64 && text == "-"@ + #[trigger] decimal(number as nat);
            (true, number as nat, Seq::empty(), Seq::empty())
        }
    } else {
        choose|negative: bool, whole: nat, fraction: Seq<char>, exponent: Seq<char>| #[trigger]
            is_made_of(text, negative, whole, fraction, exponent)
    };
    let sign = if negative {
        "-"@
    } else {
        ""@
    };
    let digits = decimal(whole);
    decimals_are_digits(whole);
    assert(text =~= sign + digits + fraction + exponent);
    if exponent.len() > 0 {
        exponents_hold_number_characters(exponent);
    }
    assert forall|i: int| 0 <= i < text.len() implies in_number(#[trigger] text[i]) by {
        let (a, b) = (sign.len() as int, sign.len() + digits.len());
        let c = b + fraction.len();
        if i < a {
            assert(text[i] == sign[i]);
        } else if i < b {
            assert(text[i] == digits[i - a]);
        } else if i < c {
            assert(text[i] == fraction[i - b]);
            if i > b {
                assert(fraction.skip(1)[i - b - 1] == fraction[i - b]);
            }
        } else {
            assert(text[i] == exponent[i - c]);
        }
    }
    if negative {
        assert(text[0] == sign[0]);
    } else {
        assert(text[0] == digits[0]);
    }
}

/// Whether a document may end before a text.
pub open spec fn may_follow(after: Seq<char>) -> bool {
    after.len() == 0 || after[0] == ',' || after[0] == ']' || after[0] == '}'
}

/// What kind of document a character begins.
spec fn begins(value: JsonView, character: char) -> bool {
    match value {
        JsonView::Null => character == 'n',
        JsonView::Bool(flag) => character == (if flag {
            't'
        } else {
            'f'
        }),
        JsonView::Number(_) => is_digit(character) || character == '-',
        JsonView::Text(_) => character == '"',
        JsonView::Array(_) => character == '[',
        JsonView::Object(_) => character == '{',
    }
}

proof fn documents_begin(value: JsonView)
    requires
        value.valid(),
    ensures
        value.text().len() > 0,
        begins(value, value.text()[0]),
{
    reveal_strlit("null");
    reveal_strlit("true");
    reveal_strlit("false");
    reveal_strlit("[");
    reveal_strlit("{");
    match value {
        JsonView::Number(number) => {
            numbers_hold_number_characters(number);
        },
        JsonView::Text(_) => {
            reveal(json_string);
        },
        _ => {},
    }
}

proof fn numbers_read_back(left: Seq<char>, right: Seq<char>, after_left: Seq<char>, after_right: Seq<char>)
    requires
        is_number_spelling(left),
        is_number_spelling(right),
        may_follow(after_left),
        may_follow(after_right),
        left + after_left == right + after_right,
    ensures
        left == right,
        after_left == after_right,
{
    let (whole, other) = (left + after_left, right + after_right);
    numbers_hold_number_characters(left);
    numbers_hold_number_characters(right);
    if left.len() < right.len() {
        assert(whole[left.len() as int] == after_left[0]);
        assert(other[left.len() as int] == right[left.len() as int]);
    }
    if right.len() < left.len() {
        assert(other[right.len() as int] == after_right[0]);
        assert(whole[right.len() as int] == left[right.len() as int]);
    }
    assert(whole.take(left.len() as int) =~= left);
    assert(other.take(right.len() as int) =~= right);
    assert(whole.skip(left.len() as int) =~= after_left);
    assert(other.skip(right.len() as int) =~= after_right);
}

proof fn same_lead(lead: Seq<char>, left: Seq<char>, right: Seq<char>)
    requires
        lead + left == lead + right,
    ensures
        left == right,
{
    assert((lead + left).skip(lead.len() as int) =~= left);
    assert((lead + right).skip(lead.len() as int) =~= right);
}

/// What the items of an array from a position on begin with.
proof fn items_begin(items: Seq<JsonView>, from: nat, after: Seq<char>)
    requires
        from <= items.len(),
        forall|i: int| 0 <= i < items.len() ==> (#[trigger] items[i]).valid(),
    ensures
        ({
            let whole = items_text(items, from) + "]"@ + after;
            let rest = items_text(items, from + 1) + "]"@ + after;
            if from < items.len() {
                &&& whole == separator(from) + (items[from as int].text() + rest)
                &&& if from == 0 {
                    whole[0] != ']'
                } else {
                    whole[0] == ','
                }
            } else {
                whole == "]"@ + after && whole[0] == ']'
            }
        }),
{
    reveal_strlit("]");
    reveal_strlit(",");
    let whole = items_text(items, from) + "]"@ + after;
    if from < items.len() {
        documents_begin(items[from as int]);
        let rest = items[from as int].text() + (items_text(items, from + 1) + "]"@ + after);
        assert(whole =~= separator(from) + rest);
        assert(rest[0] == items[from as int].text()[0]);
    } else {
        assert(whole =~= "]"@ + after);
    }
}

proof fn items_read_back(
    left: Seq<JsonView>,
    right: Seq<JsonView>,
    from: nat,
    after_left: Seq<char>,
    after_right: Seq<char>,
)
    requires
        from <= left.len(),
        from <= right.len(),
        forall|i: int| 0 <= i < left.len() ==> (#[trigger] left[i]).valid(),
        forall|i: int| 0 <= i < right.len() ==> (#[trigger] right[i]).valid(),
        items_text(left, from) + "]"@ + after_left == items_text(right, from) + "]"@ + after_right,
    ensures
        left.len() == right.len(),
        forall|i: int| from <= i < left.len() ==> left[i] == right[i],
        after_left == after_right,
    decreases left, left.len() - from,
{
    items_begin(left, from, after_left);
    items_begin(right, from, after_right);
    if from < left.len() {
        let (a, b) = (
            items_text(left, from + 1) + "]"@ + after_left,
            items_text(right, from + 1) + "]"@ + after_right,
        );
        assert(from < right.len());
        assert(may_follow(a)) by {
            items_begin(left, from + 1, after_left);
        }
        assert(may_follow(b)) by {
            items_begin(right, from + 1, after_right);
        }
        let (x, y) = (left[from as int], right[from as int]);
        same_lead(separator(from), x.text() + a, y.text() + b);
        documents_read_back(x, y, a, b);
        items_read_back(left, right, from + 1, after_left, after_right);
    } else {
        same_lead("]"@, after_left, after_right);
    }
}

/// What the members of an object from a position on begin with.
proof fn members_begin(members: Seq<(Seq<char>, JsonView)>, from: nat, after: Seq<char>)
    requires
        from <= members.len(),
    ensures
        ({
            let whole = members_text(members, from) + "}"@ + after;
            let rest = members_text(members, from + 1) + "}"@ + after;
            if from < members.len() {
                let (name, value) = members[from as int];
                &&& whole == separator(from) + (json_string(name) + (":"@ + (value.text() + rest)))
                &&& whole[0] == (if from == 0 {
                    '"'
                } else {
                    ','
                })
            } else {
                whole == "}"@ + after && whole[0] == '}'
            }
        }),
{
    reveal_strlit("}");
    reveal_strlit(",");
    let whole = members_text(members, from) + "}"@ + after;
    if from < members.len() {
        let (name, value) = members[from as int];
        let rest = json_string(name) + (":"@ + (value.text() + (members_text(members, from + 1) + "}"@ + after)));
        assert(whole =~= separator(from) + rest);
        assert(rest[0] == '"') by {
            reveal(json_string);
        }
    } else {
        assert(whole =~= "}"@ + after);
    }
}

proof fn members_read_back(
    left: Seq<(Seq<char>, JsonView)>,
    right: Seq<(Seq<char>, JsonView)>,
    from: nat,
    after_left: Seq<char>,
    after_right: Seq<char>,
)
    requires
        from <= left.len(),
        from <= right.len(),
        forall|i: int| 0 <= i < left.len() ==> (#[trigger] left[i]).1.valid(),
        forall|i: int| 0 <= i < right.len() ==> (#[trigger] right[i]).1.valid(),
        members_text(left, from) + "}"@ + after_left == members_text(right, from) + "}"@ + after_right,
    ensures
        left.len() == right.len(),
        forall|i: int| from <= i < left.len() ==> left[i] == right[i],
        after_left == after_right,
    decreases left, left.len() - from,
{
    members_begin(left, from, after_left);
    members_begin(right, from, after_right);
    if from < left.len() {
        let (a, b) = (
            members_text(left, from + 1) + "}"@ + after_left,
            members_text(right, from + 1) + "}"@ + after_right,
        );
        assert(from < right.len());
        assert(may_follow(a)) by {
            members_begin(left, from + 1, after_left);
        }
        assert(may_follow(b)) by {
            members_begin(right, from + 1, after_right);
        }
        let (x, y) = (left[from as int], right[from as int]);
        let (u, v) = (":"@ + (x.1.text() + a), ":"@ + (y.1.text() + b));
        same_lead(separator(from), json_string(x.0) + u, json_string(y.0) + v);
        literals_read_back(x.0, y.0, u, v);
        same_lead(":"@, x.1.text() + a, y.1.text() + b);
        documents_read_back(x.1, y.1, a, b);
        members_read_back(left, right, from + 1, after_left, after_right);
    } else {
        same_lead("}"@, after_left, after_right);
    }
}

/// A valid document says where it ends and what it holds, whatever may follow it.
pub proof fn documents_read_back(left: JsonView, right: JsonView, after_left: Seq<char>, after_right: Seq<char>)
    requires
        left.valid(),
        right.valid(),
        may_follow(after_left),
        may_follow(after_right),
        left.text() + after_left == right.text() + after_right,
    ensures
        left == right,
        after_left == after_right,
    decreases left, 0int,
{
    let (whole, other) = (left.text() + after_left, right.text() + after_right);
    documents_begin(left);
    documents_begin(right);
    assert(whole[0] == left.text()[0] && other[0] == right.text()[0]);
    match (left, right) {
        (JsonView::Null, JsonView::Null) => {
            same_lead("null"@, after_left, after_right);
        },
        (JsonView::Bool(a), JsonView::Bool(b)) => {
            assert(a == b);
            same_lead(left.text(), after_left, after_right);
        },
        (JsonView::Number(a), JsonView::Number(b)) => {
            numbers_read_back(a, b, after_left, after_right);
        },
        (JsonView::Text(a), JsonView::Text(b)) => {
            literals_read_back(a, b, after_left, after_right);
        },
        (JsonView::Array(a), JsonView::Array(b)) => {
            assert(whole =~= "["@ + (items_text(a, 0) + "]"@ + after_left));
            assert(other =~= "["@ + (items_text(b, 0) + "]"@ + after_right));
            same_lead("["@, items_text(a, 0) + "]"@ + after_left, items_text(b, 0) + "]"@ + after_right);
            items_read_back(a, b, 0, after_left, after_right);
            assert(a =~= b);
        },
        (JsonView::Object(a), JsonView::Object(b)) => {
            assert(whole =~= "{"@ + (members_text(a, 0) + "}"@ + after_left));
            assert(other =~= "{"@ + (members_text(b, 0) + "}"@ + after_right));
            same_lead("{"@, members_text(a, 0) + "}"@ + after_left, members_text(b, 0) + "}"@ + after_right);
            members_read_back(a, b, 0, after_left, after_right);
            assert(a =~= b);
        },
        _ => {},
    }
}

/// Valid documents with one canonical text are one document.
pub proof fn documents_of_equal_text_are_equal(left: JsonView, right: JsonView)
    requires
        left.valid(),
        right.valid(),
        left.text() == right.text(),
    ensures
        left == right,
{
    documents_read_back(left, right, Seq::empty(), Seq::empty());
}

} // verus!
