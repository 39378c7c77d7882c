//! Opaque identifiers: a type-specific prefix followed by a canonical version 4 UUID.

use std::sync::Arc;

use vstd::prelude::*;
use vstd::string::StringExecFns;

use crate::digest::{framed, is_version_4, push_framed, stable_uuid, stable_uuid_number};
use crate::json::{json_string, json_string_text, Json};
use crate::order::{text_below, text_is_below, Ordered};
use crate::text::{begins_with, hex, hex_digit, hex_text, joined2, joined3, joined4, without_prefix};
use crate::value::Value;

verus! {

/// Error returned when an opaque domain identifier is malformed.
#[derive(Clone, Debug, PartialEq, Eq)]
pub struct IdParseError {
    expected_prefix: &'static str,
    message: String,
}

/// What an identifier error says: the prefix that was required and what was wrong.
pub struct IdParseErrorView {
    pub expected_prefix: Seq<char>,
    pub message: Seq<char>,
}

impl View for IdParseError {
    type V = IdParseErrorView;

    closed spec fn view(&self) -> IdParseErrorView {
        IdParseErrorView { expected_prefix: self.expected_prefix@, message: self.message@ }
    }
}

/// The text of an identifier error.
pub open spec fn id_error_text(error: IdParseErrorView) -> Seq<char> {
    if error.expected_prefix.len() == 0 {
        "expected a Repository ID of 1..64 ASCII bytes matching [A-Za-z][A-Za-z0-9._-]*: "@
            + error.message
    } else {
        "expected "@ + error.expected_prefix + " followed by a canonical RFC 4122 UUIDv4: "@
            + error.message
    }
}

impl IdParseError {
    fn new(expected_prefix: &'static str, message: &str) -> (error: Self)
        ensures
            error@ == (IdParseErrorView { expected_prefix: expected_prefix@, message: message@ }),
    {
        IdParseError { expected_prefix, message: message.to_owned() }
    }

    /// Prefix required by this identifier type.
    #[must_use]
    pub fn expected_prefix(&self) -> (prefix: &'static str)
        ensures
            prefix@ == self@.expected_prefix,
    {
        self.expected_prefix
    }

    /// Renders the requirement that was missed and why.
    #[must_use]
    pub fn to_string(&self) -> (text: String)
        ensures
            text@ == id_error_text(self@),
    {
        if self.expected_prefix.is_empty() {
            return joined2(
                "expected a Repository ID of 1..64 ASCII bytes matching [A-Za-z][A-Za-z0-9._-]*: ",
                self.message.as_str(),
            );
        }
        joined4(
            "expected ",
            self.expected_prefix,
            " followed by a canonical RFC 4122 UUIDv4: ",
            self.message.as_str(),
        )
    }
}

/// Which of the 32 hexadecimal digits of a UUID stands at position `at` of its hyphenated form.
pub open spec fn digit_index(at: int) -> int {
    if at < 8 {
        at
    } else if at < 13 {
        at - 1
    } else if at < 18 {
        at - 2
    } else if at < 23 {
        at - 3
    } else {
        at - 4
    }
}

/// The lowercase hyphenated form of a UUID: groups of 8, 4, 4, 4 and 12 hexadecimal digits.
pub open spec fn hyphenated(number: u128) -> Seq<char> {
    Seq::new(
        36,
        |at: int|
            if at == 8 || at == 13 || at == 18 || at == 23 {
                '-'
            } else {
                hex_digit(
                    (number as nat / vstd::arithmetic::power::pow(16, (31 - digit_index(at)) as nat) as nat)
                        % 16,
                )
            },
    )
}

/// What `uuid::Uuid::parse_str` makes of a text: the UUID as a number, or the text of its error.
pub uninterp spec fn parsed_uuid(text: Seq<char>) -> std::result::Result<u128, Seq<char>>;

/// `uuid::Uuid::new_v4`: a random UUID, marked as version 4 of the RFC 4122 variant.
#[verifier::external_body]
fn random_uuid() -> (number: u128)
    ensures
        is_version_4(number),
{
    uuid::Uuid::new_v4().as_u128()
}

/// `uuid::Uuid::hyphenated`: the lowercase hyphenated form of a UUID.
#[verifier::external_body]
pub(crate) fn uuid_text(number: u128) -> (text: String)
    ensures
        text@ == hyphenated(number),
{
    uuid::Uuid::from_u128(number).hyphenated().to_string()
}

/// `uuid::Uuid::parse_str`: the UUID that a text denotes, or why it denotes none. A hyphenated
/// form denotes the UUID that it is the form of.
#[verifier::external_body]
fn uuid_from_text(text: &str) -> (result: std::result::Result<u128, String>)
    ensures
        match result {
            Ok(number) => parsed_uuid(text@) == Ok::<u128, Seq<char>>(number),
            Err(message) => parsed_uuid(text@) == Err::<u128, Seq<char>>(message@),
        },
        forall|number: u128| text@ == #[trigger] hyphenated(number) ==> result is Ok && result->Ok_0 == number,
{
    uuid::Uuid::parse_str(text).map(|value| value.as_u128()).map_err(|error| error.to_string())
}

/// What parsing an identifier with a required prefix gives: its UUID, or what is wrong with it.
pub open spec fn parsed_id(value: Seq<char>, prefix: Seq<char>) -> std::result::Result<u128, Seq<char>> {
    if !begins_with(value, prefix) {
        Err("prefix does not match"@)
    } else {
        let raw = value.skip(prefix.len() as int);
        match parsed_uuid(raw) {
            Err(message) => Err("invalid UUID: "@ + message),
            Ok(number) => if !is_version_4(number) {
                Err("UUID is not version 4"@)
            } else if hyphenated(number) != raw {
                Err("UUID is not in lowercase hyphenated form"@)
            } else {
                Ok(number)
            },
        }
    }
}

/// Parses a prefixed canonical version 4 UUID.
fn parse_uuid(value: &str, prefix: &'static str) -> (result: std::result::Result<u128, IdParseError>)
    ensures
        match result {
            Ok(number) => parsed_id(value@, prefix@) == Ok::<u128, Seq<char>>(number)
                && is_version_4(number) && value@ == prefix@ + hyphenated(number),
            Err(error) => parsed_id(value@, prefix@) == Err::<u128, Seq<char>>(error@.message)
                && error@.expected_prefix == prefix@,
        },
        forall|number: u128|
            is_version_4(number) && value@ == prefix@ + #[trigger] hyphenated(number)
                ==> result == Ok::<u128, IdParseError>(number),
{
    proof {
        assert forall|number: u128| value@ == prefix@ + #[trigger] hyphenated(number) implies begins_with(value@, prefix@)
            && value@.skip(prefix@.len() as int) == hyphenated(number) by {
            assert(value@.take(prefix@.len() as int) =~= prefix@);
            assert(value@.skip(prefix@.len() as int) =~= hyphenated(number));
        }
    }
    let raw = match without_prefix(value, prefix) {
        Some(raw) => raw,
        None => {
            return Err(IdParseError::new(prefix, "prefix does not match"));
        },
    };
    let number = match uuid_from_text(raw.as_str()) {
        Ok(number) => number,
        Err(message) => {
            let message = joined2("invalid UUID: ", message.as_str());
            return Err(IdParseError::new(prefix, message.as_str()));
        },
    };
    if (number >> 76) & 0xf != 4 || (number >> 62) & 0x3 != 2 {
        return Err(IdParseError::new(prefix, "UUID is not version 4"));
    }
    let canonical = uuid_text(number);
    if canonical != raw {
        return Err(IdParseError::new(prefix, "UUID is not in lowercase hyphenated form"));
    }
    assert(value@ =~= value@.take(prefix@.len() as int) + value@.skip(prefix@.len() as int));
    Ok(number)
}

/// An opaque identifier: a number below 2^128 behind a prefix of its own type.
pub trait Identifier: Copy + Value + DeepView<V = Self> {
    /// The UUID portion, as a number.
    spec fn number(self) -> u128;

    /// The prefix of the type.
    spec fn prefix() -> Seq<char>;

    /// The prefix followed by the lowercase hyphenated UUID.
    spec fn text(self) -> Seq<char>;

    /// Whether the UUID is one that parsing accepts.
    spec fn canonical(self) -> bool;

    /// An identifier is its number.
    proof fn number_identifies(left: Self, right: Self)
        ensures
            left.number() == right.number() ==> left == right,
            left.deep_view() == left,
            left.text() == Self::prefix() + hyphenated(left.number()),
            left.canonical() == is_version_4(left.number()),
    ;

    /// The UUID portion, as a number.
    fn get(self) -> (number: u128)
        ensures
            number == self.number(),
    ;

    /// Renders the identifier.
    fn rendered(&self) -> (text: String)
        ensures
            text@ == self.text(),
    ;
}

/// Two different numbers have different hyphenated forms, so rendering loses nothing: an
/// identifier is determined by its text.
pub proof fn rendering_is_injective<I: Identifier>(left: I, right: I)
    requires
        left.text() == right.text(),
    ensures
        left == right,
{
    let a = left.number();
    let b = right.number();
    let prefix = I::prefix();
    I::number_identifies(left, right);
    I::number_identifies(right, left);
    assert(left.text().skip(prefix.len() as int) =~= hyphenated(a));
    assert(right.text().skip(prefix.len() as int) =~= hyphenated(b));
    hyphenation_is_injective(a, b);
}

/// The position in the hyphenated form of hexadecimal digit `index`.
spec fn digit_position(index: int) -> int {
    if index < 8 {
        index
    } else if index < 12 {
        index + 1
    } else if index < 16 {
        index + 2
    } else if index < 20 {
        index + 3
    } else {
        index + 4
    }
}

proof fn hyphenation_is_injective(a: u128, b: u128)
    requires
        hyphenated(a) == hyphenated(b),
    ensures
        a == b,
{
    use_digits(a, b, 32);
    vstd::arithmetic::power::lemma_pow0(16);
    assert(vstd::arithmetic::power::pow(16, 0nat) == 1);
    assert(a as nat / 1 == a as nat);
    assert(b as nat / 1 == b as nat);
}

/// Equal hyphenated forms agree on the number above every digit position.
proof fn use_digits(a: u128, b: u128, count: nat)
    requires
        hyphenated(a) == hyphenated(b),
        count <= 32,
    ensures
        a as nat / vstd::arithmetic::power::pow(16, (32 - count) as nat) as nat
            == b as nat / vstd::arithmetic::power::pow(16, (32 - count) as nat) as nat,
        vstd::arithmetic::power::pow(16, (32 - count) as nat) > 0,
    decreases count,
{
    vstd::arithmetic::power::lemma_pow_positive(16, (32 - count) as nat);
    if count == 0 {
        assert(vstd::arithmetic::power::pow(16, 32) > u128::MAX) by {
            reveal_with_fuel(vstd::arithmetic::power::pow, 33);
        }
        let p = vstd::arithmetic::power::pow(16, 32) as nat;
        vstd::arithmetic::div_mod::lemma_basic_div(a as int, p as int);
        vstd::arithmetic::div_mod::lemma_basic_div(b as int, p as int);
    } else {
        use_digits(a, b, (count - 1) as nat);
        let low = vstd::arithmetic::power::pow(16, (32 - count) as nat);
        vstd::arithmetic::power::lemma_pow_adds(16, (32 - count) as nat, 1);
        vstd::arithmetic::power::lemma_pow1(16);
        assert(vstd::arithmetic::power::pow(16, (33 - count) as nat) == low * 16);
        vstd::arithmetic::div_mod::lemma_div_denominator(a as int, low, 16);
        vstd::arithmetic::div_mod::lemma_div_denominator(b as int, low, 16);
        let x = a as nat / low as nat;
        let y = b as nat / low as nat;
        let at = digit_position(count - 1);
        assert(hyphenated(a)[at] == hyphenated(b)[at]);
        assert(digit_index(at) == count - 1);
        assert(hyphenated(a)[at] == hex_digit(x % 16));
        assert(hyphenated(b)[at] == hex_digit(y % 16));
        assert(x % 16 == y % 16);
        assert(x / 16 == y / 16);
    }
}

/// Maximum encoded length of one user-visible [`RepositoryId`].
pub const REPOSITORY_ID_MAX_BYTES: usize = 64;

/// JSON Schema-compatible pattern for one user-visible [`RepositoryId`].
pub const REPOSITORY_ID_PATTERN: &'static str = "^[A-Za-z][A-Za-z0-9._-]{0,63}$";

/// User-visible, team-stable identity of one logical source repository.
///
/// The exact ASCII spelling is the identity: `Android` and `android` are
/// distinct. Clones share one bounded immutable string allocation.
#[derive(Clone, Debug, PartialEq, Eq, PartialOrd, Ord, Hash)]
pub struct RepositoryId {
    spelling: Arc<String>,
}

/// An ASCII letter.
pub open spec fn is_letter_byte(byte: u8) -> bool {
    65 <= byte <= 90 || 97 <= byte <= 122
}

/// A byte allowed after the first in a [`RepositoryId`].
pub open spec fn is_repository_byte(byte: u8) -> bool {
    is_letter_byte(byte) || 48 <= byte <= 57 || byte == 46 || byte == 95 || byte == 45
}

/// A spelling that a [`RepositoryId`] may have.
pub open spec fn is_repository_spelling(bytes: Seq<u8>) -> bool {
    &&& 1 <= bytes.len() <= 64
    &&& is_letter_byte(bytes[0])
    &&& forall|i: int| 1 <= i < bytes.len() ==> is_repository_byte(#[trigger] bytes[i])
}

/// What is wrong with a spelling, if anything is.
pub open spec fn repository_spelling_problem(bytes: Seq<u8>, message: Seq<char>) -> bool {
    if bytes.len() == 0 {
        message == "value is empty"@
    } else if bytes.len() > 64 {
        message == "value exceeds 64 bytes"@
    } else if !is_letter_byte(bytes[0]) {
        message == "the first byte must be an ASCII letter"@
    } else {
        exists|at: int|
            1 <= at < bytes.len() && !is_repository_byte(#[trigger] bytes[at])
                && (forall|i: int| 1 <= i < at ==> is_repository_byte(#[trigger] bytes[i]))
                && message == "byte 0x"@ + hex(seq![bytes[at]]) + " is not allowed"@
    }
}

impl RepositoryId {
    /// Creates a unique syntactically valid identity for internal fixtures.
    #[must_use]
    pub fn new() -> (id: Self)
        ensures
            exists|number: u128| is_version_4(number) && id@ == "Repository-"@ + #[trigger] hyphenated(number),
            is_repository_spelling(vstd::utf8::encode_utf8(id@)),
    {
        let number = random_uuid();
        let uuid = uuid_text(number);
        let spelling = joined2("Repository-", uuid.as_str());
        proof {
            reveal_strlit("Repository-");
            let text = spelling@;
            assert(text == "Repository-"@ + hyphenated(number));
            assert forall|i: int| 0 <= i < 36 implies 48 <= #[trigger] hyphenated(number)[i] as u32 <= 57
                || 97 <= hyphenated(number)[i] as u32 <= 102 || hyphenated(number)[i] as u32 == 45 by {}
            assert(vstd::utf8::is_ascii_chars(text)) by {
                assert forall|i: int| 0 <= i < text.len() implies text[i] as u32 <= 127 by {
                    if i >= 11 {
                        assert(text[i] == hyphenated(number)[i - 11]);
                    }
                }
            }
            vstd::utf8::is_ascii_chars_encode_utf8(text);
            let bytes = vstd::utf8::encode_utf8(text);
            assert forall|i: int| 1 <= i < bytes.len() implies is_repository_byte(#[trigger] bytes[i]) by {
                assert(bytes[i] == text[i] as u8);
                if i >= 11 {
                    assert(text[i] == hyphenated(number)[i - 11]);
                }
            }
            assert(bytes[0] == text[0] as u8);
        }
        RepositoryId { spelling: Arc::new(spelling) }
    }

    /// Returns the exact user-visible spelling.
    #[must_use]
    pub fn as_str(&self) -> (spelling: &str)
        ensures
            spelling@ == self@,
    {
        self.spelling.as_str()
    }

    /// Renders the exact user-visible spelling.
    #[must_use]
    pub fn to_string(&self) -> (text: String)
        ensures
            text@ == self@,
    {
        self.as_str().to_owned()
    }

    /// Accepts 1 to 64 ASCII bytes: a letter, then letters, digits, `.`, `_` and `-`.
    pub fn parse(value: &str) -> (result: std::result::Result<Self, IdParseError>)
        ensures
            result is Ok <==> is_repository_spelling(vstd::utf8::encode_utf8(value@)),
            match result {
                Ok(id) => id@ == value@,
                Err(error) => error@.expected_prefix == ""@
                    && repository_spelling_problem(vstd::utf8::encode_utf8(value@), error@.message),
            },
    {
        let bytes: &[u8] = value.as_bytes();
        if bytes.len() == 0 {
            return Err(IdParseError::new("", "value is empty"));
        }
        if bytes.len() > REPOSITORY_ID_MAX_BYTES {
            return Err(IdParseError::new("", "value exceeds 64 bytes"));
        }
        let head: u8 = bytes[0];
        if !(65 <= head && head <= 90 || 97 <= head && head <= 122) {
            return Err(IdParseError::new("", "the first byte must be an ASCII letter"));
        }
        let mut index: usize = 1;
        while index < bytes.len()
            invariant
                1 <= index <= bytes@.len() <= 64,
                bytes@ == vstd::utf8::encode_utf8(value@),
                is_letter_byte(bytes@[0]),
                forall|i: int| 1 <= i < index ==> is_repository_byte(#[trigger] bytes@[i]),
            decreases bytes@.len() - index,
        {
            let byte: u8 = bytes[index];
            let letter = 65 <= byte && byte <= 90 || 97 <= byte && byte <= 122;
            if !(letter || 48 <= byte && byte <= 57 || byte == 46 || byte == 95 || byte == 45) {
                let mut one: Vec<u8> = Vec::new();
                one.push(byte);
                let digits = hex_text(&one);
                let message = joined3("byte 0x", digits.as_str(), " is not allowed");
                assert(one@ =~= seq![bytes@[index as int]]);
                return Err(IdParseError::new("", message.as_str()));
            }
            index = index + 1;
        }
        Ok(RepositoryId { spelling: Arc::new(value.to_owned()) })
    }
}

impl Default for RepositoryId {
    fn default() -> (id: Self)
        ensures
            is_repository_spelling(vstd::utf8::encode_utf8(id@)),
    {
        RepositoryId::new()
    }
}

impl View for RepositoryId {
    type V = Seq<char>;

    closed spec fn view(&self) -> Seq<char> {
        self.spelling@
    }
}

impl DeepView for RepositoryId {
    type V = Seq<char>;

    open spec fn deep_view(&self) -> Seq<char> {
        self@
    }
}

impl Value for RepositoryId {
    fn copied(&self) -> (copy: Self) {
        RepositoryId { spelling: self.spelling.clone() }
    }

    fn same(&self, other: &Self) -> (equal: bool) {
        *self.spelling == *other.spelling
    }
}

impl Ordered for RepositoryId {
    open spec fn below(left: Seq<char>, right: Seq<char>) -> bool {
        text_below(left, right)
    }

    proof fn order_laws(a: Seq<char>, b: Seq<char>, c: Seq<char>) {
        String::order_laws(a, b, c);
    }

    fn is_below(&self, other: &Self) -> (result: bool) {
        text_is_below(self.as_str(), other.as_str())
    }
}

impl std::str::FromStr for RepositoryId {
    type Err = IdParseError;

    fn from_str(value: &str) -> (result: std::result::Result<Self, IdParseError>)
        ensures
            result is Ok <==> is_repository_spelling(vstd::utf8::encode_utf8(value@)),
            match result {
                Ok(id) => id@ == value@,
                Err(error) => error@.expected_prefix == ""@
                    && repository_spelling_problem(vstd::utf8::encode_utf8(value@), error@.message),
            },
    {
        Self::parse(value)
    }
}

impl Json for RepositoryId {
    open spec fn json(model: Seq<char>) -> Seq<char> {
        json_string(model)
    }

    fn write_json(&self, out: &mut String) {
        let literal = json_string_text(self.as_str());
        out.append(literal.as_str());
    }
}

/// Opaque identity of a `ContextSpace`.
#[derive(Clone, Copy, Debug, PartialEq, Eq, PartialOrd, Ord, Hash, Structural)]
pub struct SpaceId {
    number: u128,
}

impl SpaceId {
    /// Required human-readable prefix.
    pub const PREFIX: &'static str = "spc_";

    /// Creates a fresh opaque identifier from the operating system CSPRNG.
    #[must_use]
    pub fn new() -> (id: Self)
        ensures
            id.canonical(),
    {
        SpaceId { number: random_uuid() }
    }

    /// Returns the UUID portion of the identifier, as a number.
    #[must_use]
    pub fn uuid(self) -> (number: u128)
        ensures
            number == self.number(),
    {
        self.number
    }

    /// Renders the prefix and the lowercase hyphenated UUID.
    #[must_use]
    pub fn to_string(&self) -> (text: String)
        ensures
            text@ == self.text(),
    {
        let uuid = uuid_text(self.number);
        joined2("spc_", uuid.as_str())
    }

    /// Parses the canonical rendering and nothing else.
    pub fn parse(value: &str) -> (result: std::result::Result<Self, IdParseError>)
        ensures
            match result {
                Ok(id) => parsed_id(value@, Self::prefix()) == Ok::<u128, Seq<char>>(id.number())
                    && id.canonical() && value@ == id.text(),
                Err(error) => parsed_id(value@, Self::prefix()) == Err::<u128, Seq<char>>(error@.message)
                    && error@.expected_prefix == Self::prefix(),
            },
            forall|id: Self| id.canonical()
                && value@ == #[trigger] id.text() ==> result == Ok::<Self, IdParseError>(id),
    {
        match parse_uuid(value, "spc_") {
            Ok(number) => {
                let id = SpaceId { number };
                Ok(id)
            },
            Err(error) => Err(error),
        }
    }
}

impl Default for SpaceId {
    fn default() -> (id: Self)
        ensures
            id.canonical(),
    {
        SpaceId::new()
    }
}

impl DeepView for SpaceId {
    type V = SpaceId;

    open spec fn deep_view(&self) -> SpaceId {
        *self
    }
}

impl Value for SpaceId {
    fn copied(&self) -> (copy: Self) {
        *self
    }

    fn same(&self, other: &Self) -> (equal: bool) {
        self.number == other.number
    }
}

impl Json for SpaceId {
    open spec fn json(model: SpaceId) -> Seq<char> {
        json_string(model.text())
    }

    fn write_json(&self, out: &mut String) {
        let text = self.to_string();
        let literal = json_string_text(text.as_str());
        out.append(literal.as_str());
    }
}

impl Ordered for SpaceId {
    open spec fn below(left: SpaceId, right: SpaceId) -> bool {
        left.number() < right.number()
    }

    proof fn order_laws(a: SpaceId, b: SpaceId, c: SpaceId) {
    }

    fn is_below(&self, other: &Self) -> (result: bool) {
        self.number < other.number
    }
}

impl Identifier for SpaceId {
    closed spec fn number(self) -> u128 {
        self.number
    }

    open spec fn prefix() -> Seq<char> {
        "spc_"@
    }

    open spec fn text(self) -> Seq<char> {
        Self::prefix() + hyphenated(self.number())
    }

    open spec fn canonical(self) -> bool {
        is_version_4(self.number())
    }

    proof fn number_identifies(left: Self, right: Self) {
    }

    fn get(self) -> (number: u128) {
        self.number
    }

    fn rendered(&self) -> (text: String) {
        self.to_string()
    }
}

impl std::str::FromStr for SpaceId {
    type Err = IdParseError;

    fn from_str(value: &str) -> (result: std::result::Result<Self, IdParseError>)
        ensures
            match result {
                Ok(id) => parsed_id(value@, Self::prefix()) == Ok::<u128, Seq<char>>(id.number())
                    && id.canonical() && value@ == id.text(),
                Err(error) => parsed_id(value@, Self::prefix()) == Err::<u128, Seq<char>>(error@.message)
                    && error@.expected_prefix == Self::prefix(),
            },
            forall|id: Self| id.canonical()
                && value@ == #[trigger] id.text() ==> result == Ok::<Self, IdParseError>(id),
    {
        Self::parse(value)
    }
}

/// Opaque identity of one explicitly configured local repository group.
#[derive(Clone, Copy, Debug, PartialEq, Eq, PartialOrd, Ord, Hash, Structural)]
pub struct RepositoryGroupId {
    number: u128,
}

impl RepositoryGroupId {
    /// Required human-readable prefix.
    pub const PREFIX: &'static str = "rpg_";

    /// Creates a fresh opaque identifier from the operating system CSPRNG.
    #[must_use]
    pub fn new() -> (id: Self)
        ensures
            id.canonical(),
    {
        RepositoryGroupId { number: random_uuid() }
    }

    /// Returns the UUID portion of the identifier, as a number.
    #[must_use]
    pub fn uuid(self) -> (number: u128)
        ensures
            number == self.number(),
    {
        self.number
    }

    /// Renders the prefix and the lowercase hyphenated UUID.
    #[must_use]
    pub fn to_string(&self) -> (text: String)
        ensures
            text@ == self.text(),
    {
        let uuid = uuid_text(self.number);
        joined2("rpg_", uuid.as_str())
    }

    /// Parses the canonical rendering and nothing else.
    pub fn parse(value: &str) -> (result: std::result::Result<Self, IdParseError>)
        ensures
            match result {
                Ok(id) => parsed_id(value@, Self::prefix()) == Ok::<u128, Seq<char>>(id.number())
                    && id.canonical() && value@ == id.text(),
                Err(error) => parsed_id(value@, Self::prefix()) == Err::<u128, Seq<char>>(error@.message)
                    && error@.expected_prefix == Self::prefix(),
            },
            forall|id: Self| id.canonical()
                && value@ == #[trigger] id.text() ==> result == Ok::<Self, IdParseError>(id),
    {
        match parse_uuid(value, "rpg_") {
            Ok(number) => {
                let id = RepositoryGroupId { number };
                Ok(id)
            },
            Err(error) => Err(error),
        }
    }
}

impl Default for RepositoryGroupId {
    fn default() -> (id: Self)
        ensures
            id.canonical(),
    {
        RepositoryGroupId::new()
    }
}

impl DeepView for RepositoryGroupId {
    type V = RepositoryGroupId;

    open spec fn deep_view(&self) -> RepositoryGroupId {
        *self
    }
}

impl Value for RepositoryGroupId {
    fn copied(&self) -> (copy: Self) {
        *self
    }

    fn same(&self, other: &Self) -> (equal: bool) {
        self.number == other.number
    }
}

impl Json for RepositoryGroupId {
    open spec fn json(model: RepositoryGroupId) -> Seq<char> {
        json_string(model.text())
    }

    fn write_json(&self, out: &mut String) {
        let text = self.to_string();
        let literal = json_string_text(text.as_str());
        out.append(literal.as_str());
    }
}

impl Ordered for RepositoryGroupId {
    open spec fn below(left: RepositoryGroupId, right: RepositoryGroupId) -> bool {
        left.number() < right.number()
    }

    proof fn order_laws(a: RepositoryGroupId, b: RepositoryGroupId, c: RepositoryGroupId) {
    }

    fn is_below(&self, other: &Self) -> (result: bool) {
        self.number < other.number
    }
}

impl Identifier for RepositoryGroupId {
    closed spec fn number(self) -> u128 {
        self.number
    }

    open spec fn prefix() -> Seq<char> {
        "rpg_"@
    }

    open spec fn text(self) -> Seq<char> {
        Self::prefix() + hyphenated(self.number())
    }

    open spec fn canonical(self) -> bool {
        is_version_4(self.number())
    }

    proof fn number_identifies(left: Self, right: Self) {
    }

    fn get(self) -> (number: u128) {
        self.number
    }

    fn rendered(&self) -> (text: String) {
        self.to_string()
    }
}

impl std::str::FromStr for RepositoryGroupId {
    type Err = IdParseError;

    fn from_str(value: &str) -> (result: std::result::Result<Self, IdParseError>)
        ensures
            match result {
                Ok(id) => parsed_id(value@, Self::prefix()) == Ok::<u128, Seq<char>>(id.number())
                    && id.canonical() && value@ == id.text(),
                Err(error) => parsed_id(value@, Self::prefix()) == Err::<u128, Seq<char>>(error@.message)
                    && error@.expected_prefix == Self::prefix(),
            },
            forall|id: Self| id.canonical()
                && value@ == #[trigger] id.text() ==> result == Ok::<Self, IdParseError>(id),
    {
        Self::parse(value)
    }
}

/// Opaque identity of one persistent Engineering Reference observation.
#[derive(Clone, Copy, Debug, PartialEq, Eq, PartialOrd, Ord, Hash, Structural)]
pub struct ReferenceId {
    number: u128,
}

impl ReferenceId {
    /// Required human-readable prefix.
    pub const PREFIX: &'static str = "ref_";

    /// Creates a fresh opaque identifier from the operating system CSPRNG.
    #[must_use]
    pub fn new() -> (id: Self)
        ensures
            id.canonical(),
    {
        ReferenceId { number: random_uuid() }
    }

    /// Returns the UUID portion of the identifier, as a number.
    #[must_use]
    pub fn uuid(self) -> (number: u128)
        ensures
            number == self.number(),
    {
        self.number
    }

    /// Renders the prefix and the lowercase hyphenated UUID.
    #[must_use]
    pub fn to_string(&self) -> (text: String)
        ensures
            text@ == self.text(),
    {
        let uuid = uuid_text(self.number);
        joined2("ref_", uuid.as_str())
    }

    /// Parses the canonical rendering and nothing else.
    pub fn parse(value: &str) -> (result: std::result::Result<Self, IdParseError>)
        ensures
            match result {
                Ok(id) => parsed_id(value@, Self::prefix()) == Ok::<u128, Seq<char>>(id.number())
                    && id.canonical() && value@ == id.text(),
                Err(error) => parsed_id(value@, Self::prefix()) == Err::<u128, Seq<char>>(error@.message)
                    && error@.expected_prefix == Self::prefix(),
            },
            forall|id: Self| id.canonical()
                && value@ == #[trigger] id.text() ==> result == Ok::<Self, IdParseError>(id),
    {
        match parse_uuid(value, "ref_") {
            Ok(number) => {
                let id = ReferenceId { number };
                Ok(id)
            },
            Err(error) => Err(error),
        }
    }
}

impl Default for ReferenceId {
    fn default() -> (id: Self)
        ensures
            id.canonical(),
    {
        ReferenceId::new()
    }
}

impl DeepView for ReferenceId {
    type V = ReferenceId;

    open spec fn deep_view(&self) -> ReferenceId {
        *self
    }
}

impl Value for ReferenceId {
    fn copied(&self) -> (copy: Self) {
        *self
    }

    fn same(&self, other: &Self) -> (equal: bool) {
        self.number == other.number
    }
}

impl Json for ReferenceId {
    open spec fn json(model: ReferenceId) -> Seq<char> {
        json_string(model.text())
    }

    fn write_json(&self, out: &mut String) {
        let text = self.to_string();
        let literal = json_string_text(text.as_str());
        out.append(literal.as_str());
    }
}

impl Ordered for ReferenceId {
    open spec fn below(left: ReferenceId, right: ReferenceId) -> bool {
        left.number() < right.number()
    }

    proof fn order_laws(a: ReferenceId, b: ReferenceId, c: ReferenceId) {
    }

    fn is_below(&self, other: &Self) -> (result: bool) {
        self.number < other.number
    }
}

impl Identifier for ReferenceId {
    closed spec fn number(self) -> u128 {
        self.number
    }

    open spec fn prefix() -> Seq<char> {
        "ref_"@
    }

    open spec fn text(self) -> Seq<char> {
        Self::prefix() + hyphenated(self.number())
    }

    open spec fn canonical(self) -> bool {
        is_version_4(self.number())
    }

    proof fn number_identifies(left: Self, right: Self) {
    }

    fn get(self) -> (number: u128) {
        self.number
    }

    fn rendered(&self) -> (text: String) {
        self.to_string()
    }
}

impl std::str::FromStr for ReferenceId {
    type Err = IdParseError;

    fn from_str(value: &str) -> (result: std::result::Result<Self, IdParseError>)
        ensures
            match result {
                Ok(id) => parsed_id(value@, Self::prefix()) == Ok::<u128, Seq<char>>(id.number())
                    && id.canonical() && value@ == id.text(),
                Err(error) => parsed_id(value@, Self::prefix()) == Err::<u128, Seq<char>>(error@.message)
                    && error@.expected_prefix == Self::prefix(),
            },
            forall|id: Self| id.canonical()
                && value@ == #[trigger] id.text() ==> result == Ok::<Self, IdParseError>(id),
    {
        Self::parse(value)
    }
}

/// Opaque identity of an Agent engineering task.
#[derive(Clone, Copy, Debug, PartialEq, Eq, PartialOrd, Ord, Hash, Structural)]
pub struct TaskId {
    number: u128,
}

impl TaskId {
    /// Required human-readable prefix.
    pub const PREFIX: &'static str = "tsk_";

    /// Creates a fresh opaque identifier from the operating system CSPRNG.
    #[must_use]
    pub fn new() -> (id: Self)
        ensures
            id.canonical(),
    {
        TaskId { number: random_uuid() }
    }

    /// Returns the UUID portion of the identifier, as a number.
    #[must_use]
    pub fn uuid(self) -> (number: u128)
        ensures
            number == self.number(),
    {
        self.number
    }

    /// Renders the prefix and the lowercase hyphenated UUID.
    #[must_use]
    pub fn to_string(&self) -> (text: String)
        ensures
            text@ == self.text(),
    {
        let uuid = uuid_text(self.number);
        joined2("tsk_", uuid.as_str())
    }

    /// Parses the canonical rendering and nothing else.
    pub fn parse(value: &str) -> (result: std::result::Result<Self, IdParseError>)
        ensures
            match result {
                Ok(id) => parsed_id(value@, Self::prefix()) == Ok::<u128, Seq<char>>(id.number())
                    && id.canonical() && value@ == id.text(),
                Err(error) => parsed_id(value@, Self::prefix()) == Err::<u128, Seq<char>>(error@.message)
                    && error@.expected_prefix == Self::prefix(),
            },
            forall|id: Self| id.canonical()
                && value@ == #[trigger] id.text() ==> result == Ok::<Self, IdParseError>(id),
    {
        match parse_uuid(value, "tsk_") {
            Ok(number) => {
                let id = TaskId { number };
                Ok(id)
            },
            Err(error) => Err(error),
        }
    }
}

impl Default for TaskId {
    fn default() -> (id: Self)
        ensures
            id.canonical(),
    {
        TaskId::new()
    }
}

impl DeepView for TaskId {
    type V = TaskId;

    open spec fn deep_view(&self) -> TaskId {
        *self
    }
}

impl Value for TaskId {
    fn copied(&self) -> (copy: Self) {
        *self
    }

    fn same(&self, other: &Self) -> (equal: bool) {
        self.number == other.number
    }
}

impl Json for TaskId {
    open spec fn json(model: TaskId) -> Seq<char> {
        json_string(model.text())
    }

    fn write_json(&self, out: &mut String) {
        let text = self.to_string();
        let literal = json_string_text(text.as_str());
        out.append(literal.as_str());
    }
}

impl Ordered for TaskId {
    open spec fn below(left: TaskId, right: TaskId) -> bool {
        left.number() < right.number()
    }

    proof fn order_laws(a: TaskId, b: TaskId, c: TaskId) {
    }

    fn is_below(&self, other: &Self) -> (result: bool) {
        self.number < other.number
    }
}

impl Identifier for TaskId {
    closed spec fn number(self) -> u128 {
        self.number
    }

    open spec fn prefix() -> Seq<char> {
        "tsk_"@
    }

    open spec fn text(self) -> Seq<char> {
        Self::prefix() + hyphenated(self.number())
    }

    open spec fn canonical(self) -> bool {
        is_version_4(self.number())
    }

    proof fn number_identifies(left: Self, right: Self) {
    }

    fn get(self) -> (number: u128) {
        self.number
    }

    fn rendered(&self) -> (text: String) {
        self.to_string()
    }
}

impl std::str::FromStr for TaskId {
    type Err = IdParseError;

    fn from_str(value: &str) -> (result: std::result::Result<Self, IdParseError>)
        ensures
            match result {
                Ok(id) => parsed_id(value@, Self::prefix()) == Ok::<u128, Seq<char>>(id.number())
                    && id.canonical() && value@ == id.text(),
                Err(error) => parsed_id(value@, Self::prefix()) == Err::<u128, Seq<char>>(error@.message)
                    && error@.expected_prefix == Self::prefix(),
            },
            forall|id: Self| id.canonical()
                && value@ == #[trigger] id.text() ==> result == Ok::<Self, IdParseError>(id),
    {
        Self::parse(value)
    }
}

/// Opaque identity of one Task's local runtime session.
#[derive(Clone, Copy, Debug, PartialEq, Eq, PartialOrd, Ord, Hash, Structural)]
pub struct TaskSessionId {
    number: u128,
}

impl TaskSessionId {
    /// Required human-readable prefix.
    pub const PREFIX: &'static str = "tss_";

    /// Creates a fresh opaque identifier from the operating system CSPRNG.
    #[must_use]
    pub fn new() -> (id: Self)
        ensures
            id.canonical(),
    {
        TaskSessionId { number: random_uuid() }
    }

    /// Returns the UUID portion of the identifier, as a number.
    #[must_use]
    pub fn uuid(self) -> (number: u128)
        ensures
            number == self.number(),
    {
        self.number
    }

    /// Renders the prefix and the lowercase hyphenated UUID.
    #[must_use]
    pub fn to_string(&self) -> (text: String)
        ensures
            text@ == self.text(),
    {
        let uuid = uuid_text(self.number);
        joined2("tss_", uuid.as_str())
    }

    /// Parses the canonical rendering and nothing else.
    pub fn parse(value: &str) -> (result: std::result::Result<Self, IdParseError>)
        ensures
            match result {
                Ok(id) => parsed_id(value@, Self::prefix()) == Ok::<u128, Seq<char>>(id.number())
                    && id.canonical() && value@ == id.text(),
                Err(error) => parsed_id(value@, Self::prefix()) == Err::<u128, Seq<char>>(error@.message)
                    && error@.expected_prefix == Self::prefix(),
            },
            forall|id: Self| id.canonical()
                && value@ == #[trigger] id.text() ==> result == Ok::<Self, IdParseError>(id),
    {
        match parse_uuid(value, "tss_") {
            Ok(number) => {
                let id = TaskSessionId { number };
                Ok(id)
            },
            Err(error) => Err(error),
        }
    }
}

impl Default for TaskSessionId {
    fn default() -> (id: Self)
        ensures
            id.canonical(),
    {
        TaskSessionId::new()
    }
}

impl DeepView for TaskSessionId {
    type V = TaskSessionId;

    open spec fn deep_view(&self) -> TaskSessionId {
        *self
    }
}

impl Value for TaskSessionId {
    fn copied(&self) -> (copy: Self) {
        *self
    }

    fn same(&self, other: &Self) -> (equal: bool) {
        self.number == other.number
    }
}

impl Json for TaskSessionId {
    open spec fn json(model: TaskSessionId) -> Seq<char> {
        json_string(model.text())
    }

    fn write_json(&self, out: &mut String) {
        let text = self.to_string();
        let literal = json_string_text(text.as_str());
        out.append(literal.as_str());
    }
}

impl Ordered for TaskSessionId {
    open spec fn below(left: TaskSessionId, right: TaskSessionId) -> bool {
        left.number() < right.number()
    }

    proof fn order_laws(a: TaskSessionId, b: TaskSessionId, c: TaskSessionId) {
    }

    fn is_below(&self, other: &Self) -> (result: bool) {
        self.number < other.number
    }
}

impl Identifier for TaskSessionId {
    closed spec fn number(self) -> u128 {
        self.number
    }

    open spec fn prefix() -> Seq<char> {
        "tss_"@
    }

    open spec fn text(self) -> Seq<char> {
        Self::prefix() + hyphenated(self.number())
    }

    open spec fn canonical(self) -> bool {
        is_version_4(self.number())
    }

    proof fn number_identifies(left: Self, right: Self) {
    }

    fn get(self) -> (number: u128) {
        self.number
    }

    fn rendered(&self) -> (text: String) {
        self.to_string()
    }
}

impl std::str::FromStr for TaskSessionId {
    type Err = IdParseError;

    fn from_str(value: &str) -> (result: std::result::Result<Self, IdParseError>)
        ensures
            match result {
                Ok(id) => parsed_id(value@, Self::prefix()) == Ok::<u128, Seq<char>>(id.number())
                    && id.canonical() && value@ == id.text(),
                Err(error) => parsed_id(value@, Self::prefix()) == Err::<u128, Seq<char>>(error@.message)
                    && error@.expected_prefix == Self::prefix(),
            },
            forall|id: Self| id.canonical()
                && value@ == #[trigger] id.text() ==> result == Ok::<Self, IdParseError>(id),
    {
        Self::parse(value)
    }
}

/// Opaque local identity of one external Agent session container.
#[derive(Clone, Copy, Debug, PartialEq, Eq, PartialOrd, Ord, Hash, Structural)]
pub struct ExternalSessionId {
    number: u128,
}

impl ExternalSessionId {
    /// Required human-readable prefix.
    pub const PREFIX: &'static str = "xss_";

    /// Creates a fresh opaque identifier from the operating system CSPRNG.
    #[must_use]
    pub fn new() -> (id: Self)
        ensures
            id.canonical(),
    {
        ExternalSessionId { number: random_uuid() }
    }

    /// Returns the UUID portion of the identifier, as a number.
    #[must_use]
    pub fn uuid(self) -> (number: u128)
        ensures
            number == self.number(),
    {
        self.number
    }

    /// Renders the prefix and the lowercase hyphenated UUID.
    #[must_use]
    pub fn to_string(&self) -> (text: String)
        ensures
            text@ == self.text(),
    {
        let uuid = uuid_text(self.number);
        joined2("xss_", uuid.as_str())
    }

    /// Parses the canonical rendering and nothing else.
    pub fn parse(value: &str) -> (result: std::result::Result<Self, IdParseError>)
        ensures
            match result {
                Ok(id) => parsed_id(value@, Self::prefix()) == Ok::<u128, Seq<char>>(id.number())
                    && id.canonical() && value@ == id.text(),
                Err(error) => parsed_id(value@, Self::prefix()) == Err::<u128, Seq<char>>(error@.message)
                    && error@.expected_prefix == Self::prefix(),
            },
            forall|id: Self| id.canonical()
                && value@ == #[trigger] id.text() ==> result == Ok::<Self, IdParseError>(id),
    {
        match parse_uuid(value, "xss_") {
            Ok(number) => {
                let id = ExternalSessionId { number };
                Ok(id)
            },
            Err(error) => Err(error),
        }
    }
}

impl Default for ExternalSessionId {
    fn default() -> (id: Self)
        ensures
            id.canonical(),
    {
        ExternalSessionId::new()
    }
}

impl DeepView for ExternalSessionId {
    type V = ExternalSessionId;

    open spec fn deep_view(&self) -> ExternalSessionId {
        *self
    }
}

impl Value for ExternalSessionId {
    fn copied(&self) -> (copy: Self) {
        *self
    }

    fn same(&self, other: &Self) -> (equal: bool) {
        self.number == other.number
    }
}

impl Json for ExternalSessionId {
    open spec fn json(model: ExternalSessionId) -> Seq<char> {
        json_string(model.text())
    }

    fn write_json(&self, out: &mut String) {
        let text = self.to_string();
        let literal = json_string_text(text.as_str());
        out.append(literal.as_str());
    }
}

impl Ordered for ExternalSessionId {
    open spec fn below(left: ExternalSessionId, right: ExternalSessionId) -> bool {
        left.number() < right.number()
    }

    proof fn order_laws(a: ExternalSessionId, b: ExternalSessionId, c: ExternalSessionId) {
    }

    fn is_below(&self, other: &Self) -> (result: bool) {
        self.number < other.number
    }
}

impl Identifier for ExternalSessionId {
    closed spec fn number(self) -> u128 {
        self.number
    }

    open spec fn prefix() -> Seq<char> {
        "xss_"@
    }

    open spec fn text(self) -> Seq<char> {
        Self::prefix() + hyphenated(self.number())
    }

    open spec fn canonical(self) -> bool {
        is_version_4(self.number())
    }

    proof fn number_identifies(left: Self, right: Self) {
    }

    fn get(self) -> (number: u128) {
        self.number
    }

    fn rendered(&self) -> (text: String) {
        self.to_string()
    }
}

impl std::str::FromStr for ExternalSessionId {
    type Err = IdParseError;

    fn from_str(value: &str) -> (result: std::result::Result<Self, IdParseError>)
        ensures
            match result {
                Ok(id) => parsed_id(value@, Self::prefix()) == Ok::<u128, Seq<char>>(id.number())
                    && id.canonical() && value@ == id.text(),
                Err(error) => parsed_id(value@, Self::prefix()) == Err::<u128, Seq<char>>(error@.message)
                    && error@.expected_prefix == Self::prefix(),
            },
            forall|id: Self| id.canonical()
                && value@ == #[trigger] id.text() ==> result == Ok::<Self, IdParseError>(id),
    {
        Self::parse(value)
    }
}

/// Opaque identity of one immutable Task Intent revision.
#[derive(Clone, Copy, Debug, PartialEq, Eq, PartialOrd, Ord, Hash, Structural)]
pub struct TaskIntentRevisionId {
    number: u128,
}

impl TaskIntentRevisionId {
    /// Required human-readable prefix.
    pub const PREFIX: &'static str = "tir_";

    /// Creates a fresh opaque identifier from the operating system CSPRNG.
    #[must_use]
    pub fn new() -> (id: Self)
        ensures
            id.canonical(),
    {
        TaskIntentRevisionId { number: random_uuid() }
    }

    /// Returns the UUID portion of the identifier, as a number.
    #[must_use]
    pub fn uuid(self) -> (number: u128)
        ensures
            number == self.number(),
    {
        self.number
    }

    /// Renders the prefix and the lowercase hyphenated UUID.
    #[must_use]
    pub fn to_string(&self) -> (text: String)
        ensures
            text@ == self.text(),
    {
        let uuid = uuid_text(self.number);
        joined2("tir_", uuid.as_str())
    }

    /// Parses the canonical rendering and nothing else.
    pub fn parse(value: &str) -> (result: std::result::Result<Self, IdParseError>)
        ensures
            match result {
                Ok(id) => parsed_id(value@, Self::prefix()) == Ok::<u128, Seq<char>>(id.number())
                    && id.canonical() && value@ == id.text(),
                Err(error) => parsed_id(value@, Self::prefix()) == Err::<u128, Seq<char>>(error@.message)
                    && error@.expected_prefix == Self::prefix(),
            },
            forall|id: Self| id.canonical()
                && value@ == #[trigger] id.text() ==> result == Ok::<Self, IdParseError>(id),
    {
        match parse_uuid(value, "tir_") {
            Ok(number) => {
                let id = TaskIntentRevisionId { number };
                Ok(id)
            },
            Err(error) => Err(error),
        }
    }
}

impl Default for TaskIntentRevisionId {
    fn default() -> (id: Self)
        ensures
            id.canonical(),
    {
        TaskIntentRevisionId::new()
    }
}

impl DeepView for TaskIntentRevisionId {
    type V = TaskIntentRevisionId;

    open spec fn deep_view(&self) -> TaskIntentRevisionId {
        *self
    }
}

impl Value for TaskIntentRevisionId {
    fn copied(&self) -> (copy: Self) {
        *self
    }

    fn same(&self, other: &Self) -> (equal: bool) {
        self.number == other.number
    }
}

impl Json for TaskIntentRevisionId {
    open spec fn json(model: TaskIntentRevisionId) -> Seq<char> {
        json_string(model.text())
    }

    fn write_json(&self, out: &mut String) {
        let text = self.to_string();
        let literal = json_string_text(text.as_str());
        out.append(literal.as_str());
    }
}

impl Ordered for TaskIntentRevisionId {
    open spec fn below(left: TaskIntentRevisionId, right: TaskIntentRevisionId) -> bool {
        left.number() < right.number()
    }

    proof fn order_laws(a: TaskIntentRevisionId, b: TaskIntentRevisionId, c: TaskIntentRevisionId) {
    }

    fn is_below(&self, other: &Self) -> (result: bool) {
        self.number < other.number
    }
}

impl Identifier for TaskIntentRevisionId {
    closed spec fn number(self) -> u128 {
        self.number
    }

    open spec fn prefix() -> Seq<char> {
        "tir_"@
    }

    open spec fn text(self) -> Seq<char> {
        Self::prefix() + hyphenated(self.number())
    }

    open spec fn canonical(self) -> bool {
        is_version_4(self.number())
    }

    proof fn number_identifies(left: Self, right: Self) {
    }

    fn get(self) -> (number: u128) {
        self.number
    }

    fn rendered(&self) -> (text: String) {
        self.to_string()
    }
}

impl std::str::FromStr for TaskIntentRevisionId {
    type Err = IdParseError;

    fn from_str(value: &str) -> (result: std::result::Result<Self, IdParseError>)
        ensures
            match result {
                Ok(id) => parsed_id(value@, Self::prefix()) == Ok::<u128, Seq<char>>(id.number())
                    && id.canonical() && value@ == id.text(),
                Err(error) => parsed_id(value@, Self::prefix()) == Err::<u128, Seq<char>>(error@.message)
                    && error@.expected_prefix == Self::prefix(),
            },
            forall|id: Self| id.canonical()
                && value@ == #[trigger] id.text() ==> result == Ok::<Self, IdParseError>(id),
    {
        Self::parse(value)
    }
}

/// Opaque identity of one Task Signal record.
#[derive(Clone, Copy, Debug, PartialEq, Eq, PartialOrd, Ord, Hash, Structural)]
pub struct SignalId {
    number: u128,
}

impl SignalId {
    /// Required human-readable prefix.
    pub const PREFIX: &'static str = "sig_";

    /// Creates a fresh opaque identifier from the operating system CSPRNG.
    #[must_use]
    pub fn new() -> (id: Self)
        ensures
            id.canonical(),
    {
        SignalId { number: random_uuid() }
    }

    /// Returns the UUID portion of the identifier, as a number.
    #[must_use]
    pub fn uuid(self) -> (number: u128)
        ensures
            number == self.number(),
    {
        self.number
    }

    /// Renders the prefix and the lowercase hyphenated UUID.
    #[must_use]
    pub fn to_string(&self) -> (text: String)
        ensures
            text@ == self.text(),
    {
        let uuid = uuid_text(self.number);
        joined2("sig_", uuid.as_str())
    }

    /// Parses the canonical rendering and nothing else.
    pub fn parse(value: &str) -> (result: std::result::Result<Self, IdParseError>)
        ensures
            match result {
                Ok(id) => parsed_id(value@, Self::prefix()) == Ok::<u128, Seq<char>>(id.number())
                    && id.canonical() && value@ == id.text(),
                Err(error) => parsed_id(value@, Self::prefix()) == Err::<u128, Seq<char>>(error@.message)
                    && error@.expected_prefix == Self::prefix(),
            },
            forall|id: Self| id.canonical()
                && value@ == #[trigger] id.text() ==> result == Ok::<Self, IdParseError>(id),
    {
        match parse_uuid(value, "sig_") {
            Ok(number) => {
                let id = SignalId { number };
                Ok(id)
            },
            Err(error) => Err(error),
        }
    }
}

impl Default for SignalId {
    fn default() -> (id: Self)
        ensures
            id.canonical(),
    {
        SignalId::new()
    }
}

impl DeepView for SignalId {
    type V = SignalId;

    open spec fn deep_view(&self) -> SignalId {
        *self
    }
}

impl Value for SignalId {
    fn copied(&self) -> (copy: Self) {
        *self
    }

    fn same(&self, other: &Self) -> (equal: bool) {
        self.number == other.number
    }
}

impl Json for SignalId {
    open spec fn json(model: SignalId) -> Seq<char> {
        json_string(model.text())
    }

    fn write_json(&self, out: &mut String) {
        let text = self.to_string();
        let literal = json_string_text(text.as_str());
        out.append(literal.as_str());
    }
}

impl Ordered for SignalId {
    open spec fn below(left: SignalId, right: SignalId) -> bool {
        left.number() < right.number()
    }

    proof fn order_laws(a: SignalId, b: SignalId, c: SignalId) {
    }

    fn is_below(&self, other: &Self) -> (result: bool) {
        self.number < other.number
    }
}

impl Identifier for SignalId {
    closed spec fn number(self) -> u128 {
        self.number
    }

    open spec fn prefix() -> Seq<char> {
        "sig_"@
    }

    open spec fn text(self) -> Seq<char> {
        Self::prefix() + hyphenated(self.number())
    }

    open spec fn canonical(self) -> bool {
        is_version_4(self.number())
    }

    proof fn number_identifies(left: Self, right: Self) {
    }

    fn get(self) -> (number: u128) {
        self.number
    }

    fn rendered(&self) -> (text: String) {
        self.to_string()
    }
}

impl std::str::FromStr for SignalId {
    type Err = IdParseError;

    fn from_str(value: &str) -> (result: std::result::Result<Self, IdParseError>)
        ensures
            match result {
                Ok(id) => parsed_id(value@, Self::prefix()) == Ok::<u128, Seq<char>>(id.number())
                    && id.canonical() && value@ == id.text(),
                Err(error) => parsed_id(value@, Self::prefix()) == Err::<u128, Seq<char>>(error@.message)
                    && error@.expected_prefix == Self::prefix(),
            },
            forall|id: Self| id.canonical()
                && value@ == #[trigger] id.text() ==> result == Ok::<Self, IdParseError>(id),
    {
        Self::parse(value)
    }
}

/// Opaque identity of one redacted local Capture record.
#[derive(Clone, Copy, Debug, PartialEq, Eq, PartialOrd, Ord, Hash, Structural)]
pub struct CaptureId {
    number: u128,
}

impl CaptureId {
    /// Required human-readable prefix.
    pub const PREFIX: &'static str = "cap_";

    /// Creates a fresh opaque identifier from the operating system CSPRNG.
    #[must_use]
    pub fn new() -> (id: Self)
        ensures
            id.canonical(),
    {
        CaptureId { number: random_uuid() }
    }

    /// Returns the UUID portion of the identifier, as a number.
    #[must_use]
    pub fn uuid(self) -> (number: u128)
        ensures
            number == self.number(),
    {
        self.number
    }

    /// Renders the prefix and the lowercase hyphenated UUID.
    #[must_use]
    pub fn to_string(&self) -> (text: String)
        ensures
            text@ == self.text(),
    {
        let uuid = uuid_text(self.number);
        joined2("cap_", uuid.as_str())
    }

    /// Parses the canonical rendering and nothing else.
    pub fn parse(value: &str) -> (result: std::result::Result<Self, IdParseError>)
        ensures
            match result {
                Ok(id) => parsed_id(value@, Self::prefix()) == Ok::<u128, Seq<char>>(id.number())
                    && id.canonical() && value@ == id.text(),
                Err(error) => parsed_id(value@, Self::prefix()) == Err::<u128, Seq<char>>(error@.message)
                    && error@.expected_prefix == Self::prefix(),
            },
            forall|id: Self| id.canonical()
                && value@ == #[trigger] id.text() ==> result == Ok::<Self, IdParseError>(id),
    {
        match parse_uuid(value, "cap_") {
            Ok(number) => {
                let id = CaptureId { number };
                Ok(id)
            },
            Err(error) => Err(error),
        }
    }
}

impl Default for CaptureId {
    fn default() -> (id: Self)
        ensures
            id.canonical(),
    {
        CaptureId::new()
    }
}

impl DeepView for CaptureId {
    type V = CaptureId;

    open spec fn deep_view(&self) -> CaptureId {
        *self
    }
}

impl Value for CaptureId {
    fn copied(&self) -> (copy: Self) {
        *self
    }

    fn same(&self, other: &Self) -> (equal: bool) {
        self.number == other.number
    }
}

impl Json for CaptureId {
    open spec fn json(model: CaptureId) -> Seq<char> {
        json_string(model.text())
    }

    fn write_json(&self, out: &mut String) {
        let text = self.to_string();
        let literal = json_string_text(text.as_str());
        out.append(literal.as_str());
    }
}

impl Ordered for CaptureId {
    open spec fn below(left: CaptureId, right: CaptureId) -> bool {
        left.number() < right.number()
    }

    proof fn order_laws(a: CaptureId, b: CaptureId, c: CaptureId) {
    }

    fn is_below(&self, other: &Self) -> (result: bool) {
        self.number < other.number
    }
}

impl Identifier for CaptureId {
    closed spec fn number(self) -> u128 {
        self.number
    }

    open spec fn prefix() -> Seq<char> {
        "cap_"@
    }

    open spec fn text(self) -> Seq<char> {
        Self::prefix() + hyphenated(self.number())
    }

    open spec fn canonical(self) -> bool {
        is_version_4(self.number())
    }

    proof fn number_identifies(left: Self, right: Self) {
    }

    fn get(self) -> (number: u128) {
        self.number
    }

    fn rendered(&self) -> (text: String) {
        self.to_string()
    }
}

impl std::str::FromStr for CaptureId {
    type Err = IdParseError;

    fn from_str(value: &str) -> (result: std::result::Result<Self, IdParseError>)
        ensures
            match result {
                Ok(id) => parsed_id(value@, Self::prefix()) == Ok::<u128, Seq<char>>(id.number())
                    && id.canonical() && value@ == id.text(),
                Err(error) => parsed_id(value@, Self::prefix()) == Err::<u128, Seq<char>>(error@.message)
                    && error@.expected_prefix == Self::prefix(),
            },
            forall|id: Self| id.canonical()
                && value@ == #[trigger] id.text() ==> result == Ok::<Self, IdParseError>(id),
    {
        Self::parse(value)
    }
}

/// Opaque identity of one Task's aggregated work episode.
#[derive(Clone, Copy, Debug, PartialEq, Eq, PartialOrd, Ord, Hash, Structural)]
pub struct WorkEpisodeId {
    number: u128,
}

impl WorkEpisodeId {
    /// Required human-readable prefix.
    pub const PREFIX: &'static str = "wep_";

    /// Creates a fresh opaque identifier from the operating system CSPRNG.
    #[must_use]
    pub fn new() -> (id: Self)
        ensures
            id.canonical(),
    {
        WorkEpisodeId { number: random_uuid() }
    }

    /// Returns the UUID portion of the identifier, as a number.
    #[must_use]
    pub fn uuid(self) -> (number: u128)
        ensures
            number == self.number(),
    {
        self.number
    }

    /// Renders the prefix and the lowercase hyphenated UUID.
    #[must_use]
    pub fn to_string(&self) -> (text: String)
        ensures
            text@ == self.text(),
    {
        let uuid = uuid_text(self.number);
        joined2("wep_", uuid.as_str())
    }

    /// Parses the canonical rendering and nothing else.
    pub fn parse(value: &str) -> (result: std::result::Result<Self, IdParseError>)
        ensures
            match result {
                Ok(id) => parsed_id(value@, Self::prefix()) == Ok::<u128, Seq<char>>(id.number())
                    && id.canonical() && value@ == id.text(),
                Err(error) => parsed_id(value@, Self::prefix()) == Err::<u128, Seq<char>>(error@.message)
                    && error@.expected_prefix == Self::prefix(),
            },
            forall|id: Self| id.canonical()
                && value@ == #[trigger] id.text() ==> result == Ok::<Self, IdParseError>(id),
    {
        match parse_uuid(value, "wep_") {
            Ok(number) => {
                let id = WorkEpisodeId { number };
                Ok(id)
            },
            Err(error) => Err(error),
        }
    }
}

impl Default for WorkEpisodeId {
    fn default() -> (id: Self)
        ensures
            id.canonical(),
    {
        WorkEpisodeId::new()
    }
}

impl DeepView for WorkEpisodeId {
    type V = WorkEpisodeId;

    open spec fn deep_view(&self) -> WorkEpisodeId {
        *self
    }
}

impl Value for WorkEpisodeId {
    fn copied(&self) -> (copy: Self) {
        *self
    }

    fn same(&self, other: &Self) -> (equal: bool) {
        self.number == other.number
    }
}

impl Json for WorkEpisodeId {
    open spec fn json(model: WorkEpisodeId) -> Seq<char> {
        json_string(model.text())
    }

    fn write_json(&self, out: &mut String) {
        let text = self.to_string();
        let literal = json_string_text(text.as_str());
        out.append(literal.as_str());
    }
}

impl Ordered for WorkEpisodeId {
    open spec fn below(left: WorkEpisodeId, right: WorkEpisodeId) -> bool {
        left.number() < right.number()
    }

    proof fn order_laws(a: WorkEpisodeId, b: WorkEpisodeId, c: WorkEpisodeId) {
    }

    fn is_below(&self, other: &Self) -> (result: bool) {
        self.number < other.number
    }
}

impl Identifier for WorkEpisodeId {
    closed spec fn number(self) -> u128 {
        self.number
    }

    open spec fn prefix() -> Seq<char> {
        "wep_"@
    }

    open spec fn text(self) -> Seq<char> {
        Self::prefix() + hyphenated(self.number())
    }

    open spec fn canonical(self) -> bool {
        is_version_4(self.number())
    }

    proof fn number_identifies(left: Self, right: Self) {
    }

    fn get(self) -> (number: u128) {
        self.number
    }

    fn rendered(&self) -> (text: String) {
        self.to_string()
    }
}

impl std::str::FromStr for WorkEpisodeId {
    type Err = IdParseError;

    fn from_str(value: &str) -> (result: std::result::Result<Self, IdParseError>)
        ensures
            match result {
                Ok(id) => parsed_id(value@, Self::prefix()) == Ok::<u128, Seq<char>>(id.number())
                    && id.canonical() && value@ == id.text(),
                Err(error) => parsed_id(value@, Self::prefix()) == Err::<u128, Seq<char>>(error@.message)
                    && error@.expected_prefix == Self::prefix(),
            },
            forall|id: Self| id.canonical()
                && value@ == #[trigger] id.text() ==> result == Ok::<Self, IdParseError>(id),
    {
        Self::parse(value)
    }
}

/// Opaque identity of one normalized work observation.
#[derive(Clone, Copy, Debug, PartialEq, Eq, PartialOrd, Ord, Hash, Structural)]
pub struct WorkObservationId {
    number: u128,
}

impl WorkObservationId {
    /// Required human-readable prefix.
    pub const PREFIX: &'static str = "wob_";

    /// Creates a fresh opaque identifier from the operating system CSPRNG.
    #[must_use]
    pub fn new() -> (id: Self)
        ensures
            id.canonical(),
    {
        WorkObservationId { number: random_uuid() }
    }

    /// Returns the UUID portion of the identifier, as a number.
    #[must_use]
    pub fn uuid(self) -> (number: u128)
        ensures
            number == self.number(),
    {
        self.number
    }

    /// Renders the prefix and the lowercase hyphenated UUID.
    #[must_use]
    pub fn to_string(&self) -> (text: String)
        ensures
            text@ == self.text(),
    {
        let uuid = uuid_text(self.number);
        joined2("wob_", uuid.as_str())
    }

    /// Parses the canonical rendering and nothing else.
    pub fn parse(value: &str) -> (result: std::result::Result<Self, IdParseError>)
        ensures
            match result {
                Ok(id) => parsed_id(value@, Self::prefix()) == Ok::<u128, Seq<char>>(id.number())
                    && id.canonical() && value@ == id.text(),
                Err(error) => parsed_id(value@, Self::prefix()) == Err::<u128, Seq<char>>(error@.message)
                    && error@.expected_prefix == Self::prefix(),
            },
            forall|id: Self| id.canonical()
                && value@ == #[trigger] id.text() ==> result == Ok::<Self, IdParseError>(id),
    {
        match parse_uuid(value, "wob_") {
            Ok(number) => {
                let id = WorkObservationId { number };
                Ok(id)
            },
            Err(error) => Err(error),
        }
    }
}

impl Default for WorkObservationId {
    fn default() -> (id: Self)
        ensures
            id.canonical(),
    {
        WorkObservationId::new()
    }
}

impl DeepView for WorkObservationId {
    type V = WorkObservationId;

    open spec fn deep_view(&self) -> WorkObservationId {
        *self
    }
}

impl Value for WorkObservationId {
    fn copied(&self) -> (copy: Self) {
        *self
    }

    fn same(&self, other: &Self) -> (equal: bool) {
        self.number == other.number
    }
}

impl Json for WorkObservationId {
    open spec fn json(model: WorkObservationId) -> Seq<char> {
        json_string(model.text())
    }

    fn write_json(&self, out: &mut String) {
        let text = self.to_string();
        let literal = json_string_text(text.as_str());
        out.append(literal.as_str());
    }
}

impl Ordered for WorkObservationId {
    open spec fn below(left: WorkObservationId, right: WorkObservationId) -> bool {
        left.number() < right.number()
    }

    proof fn order_laws(a: WorkObservationId, b: WorkObservationId, c: WorkObservationId) {
    }

    fn is_below(&self, other: &Self) -> (result: bool) {
        self.number < other.number
    }
}

impl Identifier for WorkObservationId {
    closed spec fn number(self) -> u128 {
        self.number
    }

    open spec fn prefix() -> Seq<char> {
        "wob_"@
    }

    open spec fn text(self) -> Seq<char> {
        Self::prefix() + hyphenated(self.number())
    }

    open spec fn canonical(self) -> bool {
        is_version_4(self.number())
    }

    proof fn number_identifies(left: Self, right: Self) {
    }

    fn get(self) -> (number: u128) {
        self.number
    }

    fn rendered(&self) -> (text: String) {
        self.to_string()
    }
}

impl std::str::FromStr for WorkObservationId {
    type Err = IdParseError;

    fn from_str(value: &str) -> (result: std::result::Result<Self, IdParseError>)
        ensures
            match result {
                Ok(id) => parsed_id(value@, Self::prefix()) == Ok::<u128, Seq<char>>(id.number())
                    && id.canonical() && value@ == id.text(),
                Err(error) => parsed_id(value@, Self::prefix()) == Err::<u128, Seq<char>>(error@.message)
                    && error@.expected_prefix == Self::prefix(),
            },
            forall|id: Self| id.canonical()
                && value@ == #[trigger] id.text() ==> result == Ok::<Self, IdParseError>(id),
    {
        Self::parse(value)
    }
}

/// Opaque identity of one Agent engineering checkpoint.
#[derive(Clone, Copy, Debug, PartialEq, Eq, PartialOrd, Ord, Hash, Structural)]
pub struct AgentCheckpointId {
    number: u128,
}

impl AgentCheckpointId {
    /// Required human-readable prefix.
    pub const PREFIX: &'static str = "ckp_";

    /// Creates a fresh opaque identifier from the operating system CSPRNG.
    #[must_use]
    pub fn new() -> (id: Self)
        ensures
            id.canonical(),
    {
        AgentCheckpointId { number: random_uuid() }
    }

    /// Returns the UUID portion of the identifier, as a number.
    #[must_use]
    pub fn uuid(self) -> (number: u128)
        ensures
            number == self.number(),
    {
        self.number
    }

    /// Renders the prefix and the lowercase hyphenated UUID.
    #[must_use]
    pub fn to_string(&self) -> (text: String)
        ensures
            text@ == self.text(),
    {
        let uuid = uuid_text(self.number);
        joined2("ckp_", uuid.as_str())
    }

    /// Parses the canonical rendering and nothing else.
    pub fn parse(value: &str) -> (result: std::result::Result<Self, IdParseError>)
        ensures
            match result {
                Ok(id) => parsed_id(value@, Self::prefix()) == Ok::<u128, Seq<char>>(id.number())
                    && id.canonical() && value@ == id.text(),
                Err(error) => parsed_id(value@, Self::prefix()) == Err::<u128, Seq<char>>(error@.message)
                    && error@.expected_prefix == Self::prefix(),
            },
            forall|id: Self| id.canonical()
                && value@ == #[trigger] id.text() ==> result == Ok::<Self, IdParseError>(id),
    {
        match parse_uuid(value, "ckp_") {
            Ok(number) => {
                let id = AgentCheckpointId { number };
                Ok(id)
            },
            Err(error) => Err(error),
        }
    }
}

impl Default for AgentCheckpointId {
    fn default() -> (id: Self)
        ensures
            id.canonical(),
    {
        AgentCheckpointId::new()
    }
}

impl DeepView for AgentCheckpointId {
    type V = AgentCheckpointId;

    open spec fn deep_view(&self) -> AgentCheckpointId {
        *self
    }
}

impl Value for AgentCheckpointId {
    fn copied(&self) -> (copy: Self) {
        *self
    }

    fn same(&self, other: &Self) -> (equal: bool) {
        self.number == other.number
    }
}

impl Json for AgentCheckpointId {
    open spec fn json(model: AgentCheckpointId) -> Seq<char> {
        json_string(model.text())
    }

    fn write_json(&self, out: &mut String) {
        let text = self.to_string();
        let literal = json_string_text(text.as_str());
        out.append(literal.as_str());
    }
}

impl Ordered for AgentCheckpointId {
    open spec fn below(left: AgentCheckpointId, right: AgentCheckpointId) -> bool {
        left.number() < right.number()
    }

    proof fn order_laws(a: AgentCheckpointId, b: AgentCheckpointId, c: AgentCheckpointId) {
    }

    fn is_below(&self, other: &Self) -> (result: bool) {
        self.number < other.number
    }
}

impl Identifier for AgentCheckpointId {
    closed spec fn number(self) -> u128 {
        self.number
    }

    open spec fn prefix() -> Seq<char> {
        "ckp_"@
    }

    open spec fn text(self) -> Seq<char> {
        Self::prefix() + hyphenated(self.number())
    }

    open spec fn canonical(self) -> bool {
        is_version_4(self.number())
    }

    proof fn number_identifies(left: Self, right: Self) {
    }

    fn get(self) -> (number: u128) {
        self.number
    }

    fn rendered(&self) -> (text: String) {
        self.to_string()
    }
}

impl std::str::FromStr for AgentCheckpointId {
    type Err = IdParseError;

    fn from_str(value: &str) -> (result: std::result::Result<Self, IdParseError>)
        ensures
            match result {
                Ok(id) => parsed_id(value@, Self::prefix()) == Ok::<u128, Seq<char>>(id.number())
                    && id.canonical() && value@ == id.text(),
                Err(error) => parsed_id(value@, Self::prefix()) == Err::<u128, Seq<char>>(error@.message)
                    && error@.expected_prefix == Self::prefix(),
            },
            forall|id: Self| id.canonical()
                && value@ == #[trigger] id.text() ==> result == Ok::<Self, IdParseError>(id),
    {
        Self::parse(value)
    }
}

/// Opaque identity of one structured checkpoint claim.
#[derive(Clone, Copy, Debug, PartialEq, Eq, PartialOrd, Ord, Hash, Structural)]
pub struct CheckpointClaimId {
    number: u128,
}

impl CheckpointClaimId {
    /// Required human-readable prefix.
    pub const PREFIX: &'static str = "clm_";

    /// Creates a fresh opaque identifier from the operating system CSPRNG.
    #[must_use]
    pub fn new() -> (id: Self)
        ensures
            id.canonical(),
    {
        CheckpointClaimId { number: random_uuid() }
    }

    /// Returns the UUID portion of the identifier, as a number.
    #[must_use]
    pub fn uuid(self) -> (number: u128)
        ensures
            number == self.number(),
    {
        self.number
    }

    /// Renders the prefix and the lowercase hyphenated UUID.
    #[must_use]
    pub fn to_string(&self) -> (text: String)
        ensures
            text@ == self.text(),
    {
        let uuid = uuid_text(self.number);
        joined2("clm_", uuid.as_str())
    }

    /// Parses the canonical rendering and nothing else.
    pub fn parse(value: &str) -> (result: std::result::Result<Self, IdParseError>)
        ensures
            match result {
                Ok(id) => parsed_id(value@, Self::prefix()) == Ok::<u128, Seq<char>>(id.number())
                    && id.canonical() && value@ == id.text(),
                Err(error) => parsed_id(value@, Self::prefix()) == Err::<u128, Seq<char>>(error@.message)
                    && error@.expected_prefix == Self::prefix(),
            },
            forall|id: Self| id.canonical()
                && value@ == #[trigger] id.text() ==> result == Ok::<Self, IdParseError>(id),
    {
        match parse_uuid(value, "clm_") {
            Ok(number) => {
                let id = CheckpointClaimId { number };
                Ok(id)
            },
            Err(error) => Err(error),
        }
    }
}

impl Default for CheckpointClaimId {
    fn default() -> (id: Self)
        ensures
            id.canonical(),
    {
        CheckpointClaimId::new()
    }
}

impl DeepView for CheckpointClaimId {
    type V = CheckpointClaimId;

    open spec fn deep_view(&self) -> CheckpointClaimId {
        *self
    }
}

impl Value for CheckpointClaimId {
    fn copied(&self) -> (copy: Self) {
        *self
    }

    fn same(&self, other: &Self) -> (equal: bool) {
        self.number == other.number
    }
}

impl Json for CheckpointClaimId {
    open spec fn json(model: CheckpointClaimId) -> Seq<char> {
        json_string(model.text())
    }

    fn write_json(&self, out: &mut String) {
        let text = self.to_string();
        let literal = json_string_text(text.as_str());
        out.append(literal.as_str());
    }
}

impl Ordered for CheckpointClaimId {
    open spec fn below(left: CheckpointClaimId, right: CheckpointClaimId) -> bool {
        left.number() < right.number()
    }

    proof fn order_laws(a: CheckpointClaimId, b: CheckpointClaimId, c: CheckpointClaimId) {
    }

    fn is_below(&self, other: &Self) -> (result: bool) {
        self.number < other.number
    }
}

impl Identifier for CheckpointClaimId {
    closed spec fn number(self) -> u128 {
        self.number
    }

    open spec fn prefix() -> Seq<char> {
        "clm_"@
    }

    open spec fn text(self) -> Seq<char> {
        Self::prefix() + hyphenated(self.number())
    }

    open spec fn canonical(self) -> bool {
        is_version_4(self.number())
    }

    proof fn number_identifies(left: Self, right: Self) {
    }

    fn get(self) -> (number: u128) {
        self.number
    }

    fn rendered(&self) -> (text: String) {
        self.to_string()
    }
}

impl std::str::FromStr for CheckpointClaimId {
    type Err = IdParseError;

    fn from_str(value: &str) -> (result: std::result::Result<Self, IdParseError>)
        ensures
            match result {
                Ok(id) => parsed_id(value@, Self::prefix()) == Ok::<u128, Seq<char>>(id.number())
                    && id.canonical() && value@ == id.text(),
                Err(error) => parsed_id(value@, Self::prefix()) == Err::<u128, Seq<char>>(error@.message)
                    && error@.expected_prefix == Self::prefix(),
            },
            forall|id: Self| id.canonical()
                && value@ == #[trigger] id.text() ==> result == Ok::<Self, IdParseError>(id),
    {
        Self::parse(value)
    }
}

/// Opaque identity of one automatic Candidate build.
#[derive(Clone, Copy, Debug, PartialEq, Eq, PartialOrd, Ord, Hash, Structural)]
pub struct CandidateBuildId {
    number: u128,
}

impl CandidateBuildId {
    /// Required human-readable prefix.
    pub const PREFIX: &'static str = "bld_";

    /// Creates a fresh opaque identifier from the operating system CSPRNG.
    #[must_use]
    pub fn new() -> (id: Self)
        ensures
            id.canonical(),
    {
        CandidateBuildId { number: random_uuid() }
    }

    /// Returns the UUID portion of the identifier, as a number.
    #[must_use]
    pub fn uuid(self) -> (number: u128)
        ensures
            number == self.number(),
    {
        self.number
    }

    /// Renders the prefix and the lowercase hyphenated UUID.
    #[must_use]
    pub fn to_string(&self) -> (text: String)
        ensures
            text@ == self.text(),
    {
        let uuid = uuid_text(self.number);
        joined2("bld_", uuid.as_str())
    }

    /// Parses the canonical rendering and nothing else.
    pub fn parse(value: &str) -> (result: std::result::Result<Self, IdParseError>)
        ensures
            match result {
                Ok(id) => parsed_id(value@, Self::prefix()) == Ok::<u128, Seq<char>>(id.number())
                    && id.canonical() && value@ == id.text(),
                Err(error) => parsed_id(value@, Self::prefix()) == Err::<u128, Seq<char>>(error@.message)
                    && error@.expected_prefix == Self::prefix(),
            },
            forall|id: Self| id.canonical()
                && value@ == #[trigger] id.text() ==> result == Ok::<Self, IdParseError>(id),
    {
        match parse_uuid(value, "bld_") {
            Ok(number) => {
                let id = CandidateBuildId { number };
                Ok(id)
            },
            Err(error) => Err(error),
        }
    }
}

impl Default for CandidateBuildId {
    fn default() -> (id: Self)
        ensures
            id.canonical(),
    {
        CandidateBuildId::new()
    }
}

impl DeepView for CandidateBuildId {
    type V = CandidateBuildId;

    open spec fn deep_view(&self) -> CandidateBuildId {
        *self
    }
}

impl Value for CandidateBuildId {
    fn copied(&self) -> (copy: Self) {
        *self
    }

    fn same(&self, other: &Self) -> (equal: bool) {
        self.number == other.number
    }
}

impl Json for CandidateBuildId {
    open spec fn json(model: CandidateBuildId) -> Seq<char> {
        json_string(model.text())
    }

    fn write_json(&self, out: &mut String) {
        let text = self.to_string();
        let literal = json_string_text(text.as_str());
        out.append(literal.as_str());
    }
}

impl Ordered for CandidateBuildId {
    open spec fn below(left: CandidateBuildId, right: CandidateBuildId) -> bool {
        left.number() < right.number()
    }

    proof fn order_laws(a: CandidateBuildId, b: CandidateBuildId, c: CandidateBuildId) {
    }

    fn is_below(&self, other: &Self) -> (result: bool) {
        self.number < other.number
    }
}

impl Identifier for CandidateBuildId {
    closed spec fn number(self) -> u128 {
        self.number
    }

    open spec fn prefix() -> Seq<char> {
        "bld_"@
    }

    open spec fn text(self) -> Seq<char> {
        Self::prefix() + hyphenated(self.number())
    }

    open spec fn canonical(self) -> bool {
        is_version_4(self.number())
    }

    proof fn number_identifies(left: Self, right: Self) {
    }

    fn get(self) -> (number: u128) {
        self.number
    }

    fn rendered(&self) -> (text: String) {
        self.to_string()
    }
}

impl std::str::FromStr for CandidateBuildId {
    type Err = IdParseError;

    fn from_str(value: &str) -> (result: std::result::Result<Self, IdParseError>)
        ensures
            match result {
                Ok(id) => parsed_id(value@, Self::prefix()) == Ok::<u128, Seq<char>>(id.number())
                    && id.canonical() && value@ == id.text(),
                Err(error) => parsed_id(value@, Self::prefix()) == Err::<u128, Seq<char>>(error@.message)
                    && error@.expected_prefix == Self::prefix(),
            },
            forall|id: Self| id.canonical()
                && value@ == #[trigger] id.text() ==> result == Ok::<Self, IdParseError>(id),
    {
        Self::parse(value)
    }
}

/// Opaque identity of one Candidate Space recommendation.
#[derive(Clone, Copy, Debug, PartialEq, Eq, PartialOrd, Ord, Hash, Structural)]
pub struct SpaceRecommendationId {
    number: u128,
}

impl SpaceRecommendationId {
    /// Required human-readable prefix.
    pub const PREFIX: &'static str = "rec_";

    /// Creates a fresh opaque identifier from the operating system CSPRNG.
    #[must_use]
    pub fn new() -> (id: Self)
        ensures
            id.canonical(),
    {
        SpaceRecommendationId { number: random_uuid() }
    }

    /// Returns the UUID portion of the identifier, as a number.
    #[must_use]
    pub fn uuid(self) -> (number: u128)
        ensures
            number == self.number(),
    {
        self.number
    }

    /// Renders the prefix and the lowercase hyphenated UUID.
    #[must_use]
    pub fn to_string(&self) -> (text: String)
        ensures
            text@ == self.text(),
    {
        let uuid = uuid_text(self.number);
        joined2("rec_", uuid.as_str())
    }

    /// Parses the canonical rendering and nothing else.
    pub fn parse(value: &str) -> (result: std::result::Result<Self, IdParseError>)
        ensures
            match result {
                Ok(id) => parsed_id(value@, Self::prefix()) == Ok::<u128, Seq<char>>(id.number())
                    && id.canonical() && value@ == id.text(),
                Err(error) => parsed_id(value@, Self::prefix()) == Err::<u128, Seq<char>>(error@.message)
                    && error@.expected_prefix == Self::prefix(),
            },
            forall|id: Self| id.canonical()
                && value@ == #[trigger] id.text() ==> result == Ok::<Self, IdParseError>(id),
    {
        match parse_uuid(value, "rec_") {
            Ok(number) => {
                let id = SpaceRecommendationId { number };
                Ok(id)
            },
            Err(error) => Err(error),
        }
    }

    /// The identity drawn from a stable seed.
    pub closed spec fn drawn_from(seed: Seq<u8>) -> Self {
        SpaceRecommendationId { number: stable_uuid(seed) }
    }

    /// Derives the identity of a stable seed.
    pub(crate) fn from_stable_seed(seed: &Vec<u8>) -> (id: Self)
        ensures
            id == Self::drawn_from(seed@),
            id.canonical(),
    {
        SpaceRecommendationId { number: stable_uuid_number(seed) }
    }
}

impl Default for SpaceRecommendationId {
    fn default() -> (id: Self)
        ensures
            id.canonical(),
    {
        SpaceRecommendationId::new()
    }
}

impl DeepView for SpaceRecommendationId {
    type V = SpaceRecommendationId;

    open spec fn deep_view(&self) -> SpaceRecommendationId {
        *self
    }
}

impl Value for SpaceRecommendationId {
    fn copied(&self) -> (copy: Self) {
        *self
    }

    fn same(&self, other: &Self) -> (equal: bool) {
        self.number == other.number
    }
}

impl Json for SpaceRecommendationId {
    open spec fn json(model: SpaceRecommendationId) -> Seq<char> {
        json_string(model.text())
    }

    fn write_json(&self, out: &mut String) {
        let text = self.to_string();
        let literal = json_string_text(text.as_str());
        out.append(literal.as_str());
    }
}

impl Ordered for SpaceRecommendationId {
    open spec fn below(left: SpaceRecommendationId, right: SpaceRecommendationId) -> bool {
        left.number() < right.number()
    }

    proof fn order_laws(a: SpaceRecommendationId, b: SpaceRecommendationId, c: SpaceRecommendationId) {
    }

    fn is_below(&self, other: &Self) -> (result: bool) {
        self.number < other.number
    }
}

impl Identifier for SpaceRecommendationId {
    closed spec fn number(self) -> u128 {
        self.number
    }

    open spec fn prefix() -> Seq<char> {
        "rec_"@
    }

    open spec fn text(self) -> Seq<char> {
        Self::prefix() + hyphenated(self.number())
    }

    open spec fn canonical(self) -> bool {
        is_version_4(self.number())
    }

    proof fn number_identifies(left: Self, right: Self) {
    }

    fn get(self) -> (number: u128) {
        self.number
    }

    fn rendered(&self) -> (text: String) {
        self.to_string()
    }
}

impl std::str::FromStr for SpaceRecommendationId {
    type Err = IdParseError;

    fn from_str(value: &str) -> (result: std::result::Result<Self, IdParseError>)
        ensures
            match result {
                Ok(id) => parsed_id(value@, Self::prefix()) == Ok::<u128, Seq<char>>(id.number())
                    && id.canonical() && value@ == id.text(),
                Err(error) => parsed_id(value@, Self::prefix()) == Err::<u128, Seq<char>>(error@.message)
                    && error@.expected_prefix == Self::prefix(),
            },
            forall|id: Self| id.canonical()
                && value@ == #[trigger] id.text() ==> result == Ok::<Self, IdParseError>(id),
    {
        Self::parse(value)
    }
}

/// Stable grouping key for Candidates produced from one Task Intent revision.
#[derive(Clone, Copy, Debug, PartialEq, Eq, PartialOrd, Ord, Hash, Structural)]
pub struct ProposedSpaceGroupKey {
    number: u128,
}

impl ProposedSpaceGroupKey {
    /// Required human-readable prefix.
    pub const PREFIX: &'static str = "psg_";

    /// Returns the UUID portion of the identifier, as a number.
    #[must_use]
    pub fn uuid(self) -> (number: u128)
        ensures
            number == self.number(),
    {
        self.number
    }

    /// Renders the prefix and the lowercase hyphenated UUID.
    #[must_use]
    pub fn to_string(&self) -> (text: String)
        ensures
            text@ == self.text(),
    {
        let uuid = uuid_text(self.number);
        joined2("psg_", uuid.as_str())
    }

    /// Parses the canonical rendering and nothing else.
    pub fn parse(value: &str) -> (result: std::result::Result<Self, IdParseError>)
        ensures
            match result {
                Ok(id) => parsed_id(value@, Self::prefix()) == Ok::<u128, Seq<char>>(id.number())
                    && id.canonical() && value@ == id.text(),
                Err(error) => parsed_id(value@, Self::prefix()) == Err::<u128, Seq<char>>(error@.message)
                    && error@.expected_prefix == Self::prefix(),
            },
            forall|id: Self| id.canonical()
                && value@ == #[trigger] id.text() ==> result == Ok::<Self, IdParseError>(id),
    {
        match parse_uuid(value, "psg_") {
            Ok(number) => {
                let id = ProposedSpaceGroupKey { number };
                Ok(id)
            },
            Err(error) => Err(error),
        }
    }

    /// The identity drawn from a stable seed.
    pub closed spec fn drawn_from(seed: Seq<u8>) -> Self {
        ProposedSpaceGroupKey { number: stable_uuid(seed) }
    }

    /// Derives the identity of a stable seed.
    pub(crate) fn from_stable_seed(seed: &Vec<u8>) -> (id: Self)
        ensures
            id == Self::drawn_from(seed@),
            id.canonical(),
    {
        ProposedSpaceGroupKey { number: stable_uuid_number(seed) }
    }

    /// Derives the stable grouping identity for one exact Task Intent revision.
    #[must_use]
    pub fn from_task_intent(task_id: TaskId, intent_revision_id: TaskIntentRevisionId) -> (key: Self)
        ensures
            key == Self::drawn_from(framed(task_id.text()) + framed(intent_revision_id.text())),
            key.canonical(),
    {
        let mut seed: Vec<u8> = Vec::new();
        let task = task_id.to_string();
        let revision = intent_revision_id.to_string();
        push_framed(&mut seed, task.as_str());
        push_framed(&mut seed, revision.as_str());
        assert(seed@ =~= framed(task_id.text()) + framed(intent_revision_id.text()));
        Self::from_stable_seed(&seed)
    }
}

impl DeepView for ProposedSpaceGroupKey {
    type V = ProposedSpaceGroupKey;

    open spec fn deep_view(&self) -> ProposedSpaceGroupKey {
        *self
    }
}

impl Value for ProposedSpaceGroupKey {
    fn copied(&self) -> (copy: Self) {
        *self
    }

    fn same(&self, other: &Self) -> (equal: bool) {
        self.number == other.number
    }
}

impl Json for ProposedSpaceGroupKey {
    open spec fn json(model: ProposedSpaceGroupKey) -> Seq<char> {
        json_string(model.text())
    }

    fn write_json(&self, out: &mut String) {
        let text = self.to_string();
        let literal = json_string_text(text.as_str());
        out.append(literal.as_str());
    }
}

impl Ordered for ProposedSpaceGroupKey {
    open spec fn below(left: ProposedSpaceGroupKey, right: ProposedSpaceGroupKey) -> bool {
        left.number() < right.number()
    }

    proof fn order_laws(a: ProposedSpaceGroupKey, b: ProposedSpaceGroupKey, c: ProposedSpaceGroupKey) {
    }

    fn is_below(&self, other: &Self) -> (result: bool) {
        self.number < other.number
    }
}

impl Identifier for ProposedSpaceGroupKey {
    closed spec fn number(self) -> u128 {
        self.number
    }

    open spec fn prefix() -> Seq<char> {
        "psg_"@
    }

    open spec fn text(self) -> Seq<char> {
        Self::prefix() + hyphenated(self.number())
    }

    open spec fn canonical(self) -> bool {
        is_version_4(self.number())
    }

    proof fn number_identifies(left: Self, right: Self) {
    }

    fn get(self) -> (number: u128) {
        self.number
    }

    fn rendered(&self) -> (text: String) {
        self.to_string()
    }
}

impl std::str::FromStr for ProposedSpaceGroupKey {
    type Err = IdParseError;

    fn from_str(value: &str) -> (result: std::result::Result<Self, IdParseError>)
        ensures
            match result {
                Ok(id) => parsed_id(value@, Self::prefix()) == Ok::<u128, Seq<char>>(id.number())
                    && id.canonical() && value@ == id.text(),
                Err(error) => parsed_id(value@, Self::prefix()) == Err::<u128, Seq<char>>(error@.message)
                    && error@.expected_prefix == Self::prefix(),
            },
            forall|id: Self| id.canonical()
                && value@ == #[trigger] id.text() ==> result == Ok::<Self, IdParseError>(id),
    {
        Self::parse(value)
    }
}

/// Opaque identity of an unassigned `ContextCandidate`.
#[derive(Clone, Copy, Debug, PartialEq, Eq, PartialOrd, Ord, Hash, Structural)]
pub struct CandidateId {
    number: u128,
}

impl CandidateId {
    /// Required human-readable prefix.
    pub const PREFIX: &'static str = "cnd_";

    /// Creates a fresh opaque identifier from the operating system CSPRNG.
    #[must_use]
    pub fn new() -> (id: Self)
        ensures
            id.canonical(),
    {
        CandidateId { number: random_uuid() }
    }

    /// Returns the UUID portion of the identifier, as a number.
    #[must_use]
    pub fn uuid(self) -> (number: u128)
        ensures
            number == self.number(),
    {
        self.number
    }

    /// Renders the prefix and the lowercase hyphenated UUID.
    #[must_use]
    pub fn to_string(&self) -> (text: String)
        ensures
            text@ == self.text(),
    {
        let uuid = uuid_text(self.number);
        joined2("cnd_", uuid.as_str())
    }

    /// Parses the canonical rendering and nothing else.
    pub fn parse(value: &str) -> (result: std::result::Result<Self, IdParseError>)
        ensures
            match result {
                Ok(id) => parsed_id(value@, Self::prefix()) == Ok::<u128, Seq<char>>(id.number())
                    && id.canonical() && value@ == id.text(),
                Err(error) => parsed_id(value@, Self::prefix()) == Err::<u128, Seq<char>>(error@.message)
                    && error@.expected_prefix == Self::prefix(),
            },
            forall|id: Self| id.canonical()
                && value@ == #[trigger] id.text() ==> result == Ok::<Self, IdParseError>(id),
    {
        match parse_uuid(value, "cnd_") {
            Ok(number) => {
                let id = CandidateId { number };
                Ok(id)
            },
            Err(error) => Err(error),
        }
    }
}

impl Default for CandidateId {
    fn default() -> (id: Self)
        ensures
            id.canonical(),
    {
        CandidateId::new()
    }
}

impl DeepView for CandidateId {
    type V = CandidateId;

    open spec fn deep_view(&self) -> CandidateId {
        *self
    }
}

impl Value for CandidateId {
    fn copied(&self) -> (copy: Self) {
        *self
    }

    fn same(&self, other: &Self) -> (equal: bool) {
        self.number == other.number
    }
}

impl Json for CandidateId {
    open spec fn json(model: CandidateId) -> Seq<char> {
        json_string(model.text())
    }

    fn write_json(&self, out: &mut String) {
        let text = self.to_string();
        let literal = json_string_text(text.as_str());
        out.append(literal.as_str());
    }
}

impl Ordered for CandidateId {
    open spec fn below(left: CandidateId, right: CandidateId) -> bool {
        left.number() < right.number()
    }

    proof fn order_laws(a: CandidateId, b: CandidateId, c: CandidateId) {
    }

    fn is_below(&self, other: &Self) -> (result: bool) {
        self.number < other.number
    }
}

impl Identifier for CandidateId {
    closed spec fn number(self) -> u128 {
        self.number
    }

    open spec fn prefix() -> Seq<char> {
        "cnd_"@
    }

    open spec fn text(self) -> Seq<char> {
        Self::prefix() + hyphenated(self.number())
    }

    open spec fn canonical(self) -> bool {
        is_version_4(self.number())
    }

    proof fn number_identifies(left: Self, right: Self) {
    }

    fn get(self) -> (number: u128) {
        self.number
    }

    fn rendered(&self) -> (text: String) {
        self.to_string()
    }
}

impl std::str::FromStr for CandidateId {
    type Err = IdParseError;

    fn from_str(value: &str) -> (result: std::result::Result<Self, IdParseError>)
        ensures
            match result {
                Ok(id) => parsed_id(value@, Self::prefix()) == Ok::<u128, Seq<char>>(id.number())
                    && id.canonical() && value@ == id.text(),
                Err(error) => parsed_id(value@, Self::prefix()) == Err::<u128, Seq<char>>(error@.message)
                    && error@.expected_prefix == Self::prefix(),
            },
            forall|id: Self| id.canonical()
                && value@ == #[trigger] id.text() ==> result == Ok::<Self, IdParseError>(id),
    {
        Self::parse(value)
    }
}

/// Opaque identity of one Candidate creation operation.
#[derive(Clone, Copy, Debug, PartialEq, Eq, PartialOrd, Ord, Hash, Structural)]
pub struct SubmissionId {
    number: u128,
}

impl SubmissionId {
    /// Required human-readable prefix.
    pub const PREFIX: &'static str = "sub_";

    /// Creates a fresh opaque identifier from the operating system CSPRNG.
    #[must_use]
    pub fn new() -> (id: Self)
        ensures
            id.canonical(),
    {
        SubmissionId { number: random_uuid() }
    }

    /// Returns the UUID portion of the identifier, as a number.
    #[must_use]
    pub fn uuid(self) -> (number: u128)
        ensures
            number == self.number(),
    {
        self.number
    }

    /// Renders the prefix and the lowercase hyphenated UUID.
    #[must_use]
    pub fn to_string(&self) -> (text: String)
        ensures
            text@ == self.text(),
    {
        let uuid = uuid_text(self.number);
        joined2("sub_", uuid.as_str())
    }

    /// Parses the canonical rendering and nothing else.
    pub fn parse(value: &str) -> (result: std::result::Result<Self, IdParseError>)
        ensures
            match result {
                Ok(id) => parsed_id(value@, Self::prefix()) == Ok::<u128, Seq<char>>(id.number())
                    && id.canonical() && value@ == id.text(),
                Err(error) => parsed_id(value@, Self::prefix()) == Err::<u128, Seq<char>>(error@.message)
                    && error@.expected_prefix == Self::prefix(),
            },
            forall|id: Self| id.canonical()
                && value@ == #[trigger] id.text() ==> result == Ok::<Self, IdParseError>(id),
    {
        match parse_uuid(value, "sub_") {
            Ok(number) => {
                let id = SubmissionId { number };
                Ok(id)
            },
            Err(error) => Err(error),
        }
    }
}

impl Default for SubmissionId {
    fn default() -> (id: Self)
        ensures
            id.canonical(),
    {
        SubmissionId::new()
    }
}

impl DeepView for SubmissionId {
    type V = SubmissionId;

    open spec fn deep_view(&self) -> SubmissionId {
        *self
    }
}

impl Value for SubmissionId {
    fn copied(&self) -> (copy: Self) {
        *self
    }

    fn same(&self, other: &Self) -> (equal: bool) {
        self.number == other.number
    }
}

impl Json for SubmissionId {
    open spec fn json(model: SubmissionId) -> Seq<char> {
        json_string(model.text())
    }

    fn write_json(&self, out: &mut String) {
        let text = self.to_string();
        let literal = json_string_text(text.as_str());
        out.append(literal.as_str());
    }
}

impl Ordered for SubmissionId {
    open spec fn below(left: SubmissionId, right: SubmissionId) -> bool {
        left.number() < right.number()
    }

    proof fn order_laws(a: SubmissionId, b: SubmissionId, c: SubmissionId) {
    }

    fn is_below(&self, other: &Self) -> (result: bool) {
        self.number < other.number
    }
}

impl Identifier for SubmissionId {
    closed spec fn number(self) -> u128 {
        self.number
    }

    open spec fn prefix() -> Seq<char> {
        "sub_"@
    }

    open spec fn text(self) -> Seq<char> {
        Self::prefix() + hyphenated(self.number())
    }

    open spec fn canonical(self) -> bool {
        is_version_4(self.number())
    }

    proof fn number_identifies(left: Self, right: Self) {
    }

    fn get(self) -> (number: u128) {
        self.number
    }

    fn rendered(&self) -> (text: String) {
        self.to_string()
    }
}

impl std::str::FromStr for SubmissionId {
    type Err = IdParseError;

    fn from_str(value: &str) -> (result: std::result::Result<Self, IdParseError>)
        ensures
            match result {
                Ok(id) => parsed_id(value@, Self::prefix()) == Ok::<u128, Seq<char>>(id.number())
                    && id.canonical() && value@ == id.text(),
                Err(error) => parsed_id(value@, Self::prefix()) == Err::<u128, Seq<char>>(error@.message)
                    && error@.expected_prefix == Self::prefix(),
            },
            forall|id: Self| id.canonical()
                && value@ == #[trigger] id.text() ==> result == Ok::<Self, IdParseError>(id),
    {
        Self::parse(value)
    }
}

/// Opaque identity of one Candidate confirmation fact.
#[derive(Clone, Copy, Debug, PartialEq, Eq, PartialOrd, Ord, Hash, Structural)]
pub struct ConfirmationId {
    number: u128,
}

impl ConfirmationId {
    /// Required human-readable prefix.
    pub const PREFIX: &'static str = "cfm_";

    /// Creates a fresh opaque identifier from the operating system CSPRNG.
    #[must_use]
    pub fn new() -> (id: Self)
        ensures
            id.canonical(),
    {
        ConfirmationId { number: random_uuid() }
    }

    /// Returns the UUID portion of the identifier, as a number.
    #[must_use]
    pub fn uuid(self) -> (number: u128)
        ensures
            number == self.number(),
    {
        self.number
    }

    /// Renders the prefix and the lowercase hyphenated UUID.
    #[must_use]
    pub fn to_string(&self) -> (text: String)
        ensures
            text@ == self.text(),
    {
        let uuid = uuid_text(self.number);
        joined2("cfm_", uuid.as_str())
    }

    /// Parses the canonical rendering and nothing else.
    pub fn parse(value: &str) -> (result: std::result::Result<Self, IdParseError>)
        ensures
            match result {
                Ok(id) => parsed_id(value@, Self::prefix()) == Ok::<u128, Seq<char>>(id.number())
                    && id.canonical() && value@ == id.text(),
                Err(error) => parsed_id(value@, Self::prefix()) == Err::<u128, Seq<char>>(error@.message)
                    && error@.expected_prefix == Self::prefix(),
            },
            forall|id: Self| id.canonical()
                && value@ == #[trigger] id.text() ==> result == Ok::<Self, IdParseError>(id),
    {
        match parse_uuid(value, "cfm_") {
            Ok(number) => {
                let id = ConfirmationId { number };
                Ok(id)
            },
            Err(error) => Err(error),
        }
    }
}

impl Default for ConfirmationId {
    fn default() -> (id: Self)
        ensures
            id.canonical(),
    {
        ConfirmationId::new()
    }
}

impl DeepView for ConfirmationId {
    type V = ConfirmationId;

    open spec fn deep_view(&self) -> ConfirmationId {
        *self
    }
}

impl Value for ConfirmationId {
    fn copied(&self) -> (copy: Self) {
        *self
    }

    fn same(&self, other: &Self) -> (equal: bool) {
        self.number == other.number
    }
}

impl Json for ConfirmationId {
    open spec fn json(model: ConfirmationId) -> Seq<char> {
        json_string(model.text())
    }

    fn write_json(&self, out: &mut String) {
        let text = self.to_string();
        let literal = json_string_text(text.as_str());
        out.append(literal.as_str());
    }
}

impl Ordered for ConfirmationId {
    open spec fn below(left: ConfirmationId, right: ConfirmationId) -> bool {
        left.number() < right.number()
    }

    proof fn order_laws(a: ConfirmationId, b: ConfirmationId, c: ConfirmationId) {
    }

    fn is_below(&self, other: &Self) -> (result: bool) {
        self.number < other.number
    }
}

impl Identifier for ConfirmationId {
    closed spec fn number(self) -> u128 {
        self.number
    }

    open spec fn prefix() -> Seq<char> {
        "cfm_"@
    }

    open spec fn text(self) -> Seq<char> {
        Self::prefix() + hyphenated(self.number())
    }

    open spec fn canonical(self) -> bool {
        is_version_4(self.number())
    }

    proof fn number_identifies(left: Self, right: Self) {
    }

    fn get(self) -> (number: u128) {
        self.number
    }

    fn rendered(&self) -> (text: String) {
        self.to_string()
    }
}

impl std::str::FromStr for ConfirmationId {
    type Err = IdParseError;

    fn from_str(value: &str) -> (result: std::result::Result<Self, IdParseError>)
        ensures
            match result {
                Ok(id) => parsed_id(value@, Self::prefix()) == Ok::<u128, Seq<char>>(id.number())
                    && id.canonical() && value@ == id.text(),
                Err(error) => parsed_id(value@, Self::prefix()) == Err::<u128, Seq<char>>(error@.message)
                    && error@.expected_prefix == Self::prefix(),
            },
            forall|id: Self| id.canonical()
                && value@ == #[trigger] id.text() ==> result == Ok::<Self, IdParseError>(id),
    {
        Self::parse(value)
    }
}

/// Opaque identity of one Context-to-Space association snapshot.
#[derive(Clone, Copy, Debug, PartialEq, Eq, PartialOrd, Ord, Hash, Structural)]
pub struct SpaceAssociationId {
    number: u128,
}

impl SpaceAssociationId {
    /// Required human-readable prefix.
    pub const PREFIX: &'static str = "asc_";

    /// Creates a fresh opaque identifier from the operating system CSPRNG.
    #[must_use]
    pub fn new() -> (id: Self)
        ensures
            id.canonical(),
    {
        SpaceAssociationId { number: random_uuid() }
    }

    /// Returns the UUID portion of the identifier, as a number.
    #[must_use]
    pub fn uuid(self) -> (number: u128)
        ensures
            number == self.number(),
    {
        self.number
    }

    /// Renders the prefix and the lowercase hyphenated UUID.
    #[must_use]
    pub fn to_string(&self) -> (text: String)
        ensures
            text@ == self.text(),
    {
        let uuid = uuid_text(self.number);
        joined2("asc_", uuid.as_str())
    }

    /// Parses the canonical rendering and nothing else.
    pub fn parse(value: &str) -> (result: std::result::Result<Self, IdParseError>)
        ensures
            match result {
                Ok(id) => parsed_id(value@, Self::prefix()) == Ok::<u128, Seq<char>>(id.number())
                    && id.canonical() && value@ == id.text(),
                Err(error) => parsed_id(value@, Self::prefix()) == Err::<u128, Seq<char>>(error@.message)
                    && error@.expected_prefix == Self::prefix(),
            },
            forall|id: Self| id.canonical()
                && value@ == #[trigger] id.text() ==> result == Ok::<Self, IdParseError>(id),
    {
        match parse_uuid(value, "asc_") {
            Ok(number) => {
                let id = SpaceAssociationId { number };
                Ok(id)
            },
            Err(error) => Err(error),
        }
    }
}

impl Default for SpaceAssociationId {
    fn default() -> (id: Self)
        ensures
            id.canonical(),
    {
        SpaceAssociationId::new()
    }
}

impl DeepView for SpaceAssociationId {
    type V = SpaceAssociationId;

    open spec fn deep_view(&self) -> SpaceAssociationId {
        *self
    }
}

impl Value for SpaceAssociationId {
    fn copied(&self) -> (copy: Self) {
        *self
    }

    fn same(&self, other: &Self) -> (equal: bool) {
        self.number == other.number
    }
}

impl Json for SpaceAssociationId {
    open spec fn json(model: SpaceAssociationId) -> Seq<char> {
        json_string(model.text())
    }

    fn write_json(&self, out: &mut String) {
        let text = self.to_string();
        let literal = json_string_text(text.as_str());
        out.append(literal.as_str());
    }
}

impl Ordered for SpaceAssociationId {
    open spec fn below(left: SpaceAssociationId, right: SpaceAssociationId) -> bool {
        left.number() < right.number()
    }

    proof fn order_laws(a: SpaceAssociationId, b: SpaceAssociationId, c: SpaceAssociationId) {
    }

    fn is_below(&self, other: &Self) -> (result: bool) {
        self.number < other.number
    }
}

impl Identifier for SpaceAssociationId {
    closed spec fn number(self) -> u128 {
        self.number
    }

    open spec fn prefix() -> Seq<char> {
        "asc_"@
    }

    open spec fn text(self) -> Seq<char> {
        Self::prefix() + hyphenated(self.number())
    }

    open spec fn canonical(self) -> bool {
        is_version_4(self.number())
    }

    proof fn number_identifies(left: Self, right: Self) {
    }

    fn get(self) -> (number: u128) {
        self.number
    }

    fn rendered(&self) -> (text: String) {
        self.to_string()
    }
}

impl std::str::FromStr for SpaceAssociationId {
    type Err = IdParseError;

    fn from_str(value: &str) -> (result: std::result::Result<Self, IdParseError>)
        ensures
            match result {
                Ok(id) => parsed_id(value@, Self::prefix()) == Ok::<u128, Seq<char>>(id.number())
                    && id.canonical() && value@ == id.text(),
                Err(error) => parsed_id(value@, Self::prefix()) == Err::<u128, Seq<char>>(error@.message)
                    && error@.expected_prefix == Self::prefix(),
            },
            forall|id: Self| id.canonical()
                && value@ == #[trigger] id.text() ==> result == Ok::<Self, IdParseError>(id),
    {
        Self::parse(value)
    }
}

/// Opaque identity of a `ContextItem`.
#[derive(Clone, Copy, Debug, PartialEq, Eq, PartialOrd, Ord, Hash, Structural)]
pub struct ContextId {
    number: u128,
}

impl ContextId {
    /// Required human-readable prefix.
    pub const PREFIX: &'static str = "ctx_";

    /// Creates a fresh opaque identifier from the operating system CSPRNG.
    #[must_use]
    pub fn new() -> (id: Self)
        ensures
            id.canonical(),
    {
        ContextId { number: random_uuid() }
    }

    /// Returns the UUID portion of the identifier, as a number.
    #[must_use]
    pub fn uuid(self) -> (number: u128)
        ensures
            number == self.number(),
    {
        self.number
    }

    /// Renders the prefix and the lowercase hyphenated UUID.
    #[must_use]
    pub fn to_string(&self) -> (text: String)
        ensures
            text@ == self.text(),
    {
        let uuid = uuid_text(self.number);
        joined2("ctx_", uuid.as_str())
    }

    /// Parses the canonical rendering and nothing else.
    pub fn parse(value: &str) -> (result: std::result::Result<Self, IdParseError>)
        ensures
            match result {
                Ok(id) => parsed_id(value@, Self::prefix()) == Ok::<u128, Seq<char>>(id.number())
                    && id.canonical() && value@ == id.text(),
                Err(error) => parsed_id(value@, Self::prefix()) == Err::<u128, Seq<char>>(error@.message)
                    && error@.expected_prefix == Self::prefix(),
            },
            forall|id: Self| id.canonical()
                && value@ == #[trigger] id.text() ==> result == Ok::<Self, IdParseError>(id),
    {
        match parse_uuid(value, "ctx_") {
            Ok(number) => {
                let id = ContextId { number };
                Ok(id)
            },
            Err(error) => Err(error),
        }
    }
}

impl Default for ContextId {
    fn default() -> (id: Self)
        ensures
            id.canonical(),
    {
        ContextId::new()
    }
}

impl DeepView for ContextId {
    type V = ContextId;

    open spec fn deep_view(&self) -> ContextId {
        *self
    }
}

impl Value for ContextId {
    fn copied(&self) -> (copy: Self) {
        *self
    }

    fn same(&self, other: &Self) -> (equal: bool) {
        self.number == other.number
    }
}

impl Json for ContextId {
    open spec fn json(model: ContextId) -> Seq<char> {
        json_string(model.text())
    }

    fn write_json(&self, out: &mut String) {
        let text = self.to_string();
        let literal = json_string_text(text.as_str());
        out.append(literal.as_str());
    }
}

impl Ordered for ContextId {
    open spec fn below(left: ContextId, right: ContextId) -> bool {
        left.number() < right.number()
    }

    proof fn order_laws(a: ContextId, b: ContextId, c: ContextId) {
    }

    fn is_below(&self, other: &Self) -> (result: bool) {
        self.number < other.number
    }
}

impl Identifier for ContextId {
    closed spec fn number(self) -> u128 {
        self.number
    }

    open spec fn prefix() -> Seq<char> {
        "ctx_"@
    }

    open spec fn text(self) -> Seq<char> {
        Self::prefix() + hyphenated(self.number())
    }

    open spec fn canonical(self) -> bool {
        is_version_4(self.number())
    }

    proof fn number_identifies(left: Self, right: Self) {
    }

    fn get(self) -> (number: u128) {
        self.number
    }

    fn rendered(&self) -> (text: String) {
        self.to_string()
    }
}

impl std::str::FromStr for ContextId {
    type Err = IdParseError;

    fn from_str(value: &str) -> (result: std::result::Result<Self, IdParseError>)
        ensures
            match result {
                Ok(id) => parsed_id(value@, Self::prefix()) == Ok::<u128, Seq<char>>(id.number())
                    && id.canonical() && value@ == id.text(),
                Err(error) => parsed_id(value@, Self::prefix()) == Err::<u128, Seq<char>>(error@.message)
                    && error@.expected_prefix == Self::prefix(),
            },
            forall|id: Self| id.canonical()
                && value@ == #[trigger] id.text() ==> result == Ok::<Self, IdParseError>(id),
    {
        Self::parse(value)
    }
}

/// Opaque identity of an Intent or Context revision.
#[derive(Clone, Copy, Debug, PartialEq, Eq, PartialOrd, Ord, Hash, Structural)]
pub struct RevisionId {
    number: u128,
}

impl RevisionId {
    /// Required human-readable prefix.
    pub const PREFIX: &'static str = "rev_";

    /// Creates a fresh opaque identifier from the operating system CSPRNG.
    #[must_use]
    pub fn new() -> (id: Self)
        ensures
            id.canonical(),
    {
        RevisionId { number: random_uuid() }
    }

    /// Returns the UUID portion of the identifier, as a number.
    #[must_use]
    pub fn uuid(self) -> (number: u128)
        ensures
            number == self.number(),
    {
        self.number
    }

    /// Renders the prefix and the lowercase hyphenated UUID.
    #[must_use]
    pub fn to_string(&self) -> (text: String)
        ensures
            text@ == self.text(),
    {
        let uuid = uuid_text(self.number);
        joined2("rev_", uuid.as_str())
    }

    /// Parses the canonical rendering and nothing else.
    pub fn parse(value: &str) -> (result: std::result::Result<Self, IdParseError>)
        ensures
            match result {
                Ok(id) => parsed_id(value@, Self::prefix()) == Ok::<u128, Seq<char>>(id.number())
                    && id.canonical() && value@ == id.text(),
                Err(error) => parsed_id(value@, Self::prefix()) == Err::<u128, Seq<char>>(error@.message)
                    && error@.expected_prefix == Self::prefix(),
            },
            forall|id: Self| id.canonical()
                && value@ == #[trigger] id.text() ==> result == Ok::<Self, IdParseError>(id),
    {
        match parse_uuid(value, "rev_") {
            Ok(number) => {
                let id = RevisionId { number };
                Ok(id)
            },
            Err(error) => Err(error),
        }
    }
}

impl Default for RevisionId {
    fn default() -> (id: Self)
        ensures
            id.canonical(),
    {
        RevisionId::new()
    }
}

impl DeepView for RevisionId {
    type V = RevisionId;

    open spec fn deep_view(&self) -> RevisionId {
        *self
    }
}

impl Value for RevisionId {
    fn copied(&self) -> (copy: Self) {
        *self
    }

    fn same(&self, other: &Self) -> (equal: bool) {
        self.number == other.number
    }
}

impl Json for RevisionId {
    open spec fn json(model: RevisionId) -> Seq<char> {
        json_string(model.text())
    }

    fn write_json(&self, out: &mut String) {
        let text = self.to_string();
        let literal = json_string_text(text.as_str());
        out.append(literal.as_str());
    }
}

impl Ordered for RevisionId {
    open spec fn below(left: RevisionId, right: RevisionId) -> bool {
        left.number() < right.number()
    }

    proof fn order_laws(a: RevisionId, b: RevisionId, c: RevisionId) {
    }

    fn is_below(&self, other: &Self) -> (result: bool) {
        self.number < other.number
    }
}

impl Identifier for RevisionId {
    closed spec fn number(self) -> u128 {
        self.number
    }

    open spec fn prefix() -> Seq<char> {
        "rev_"@
    }

    open spec fn text(self) -> Seq<char> {
        Self::prefix() + hyphenated(self.number())
    }

    open spec fn canonical(self) -> bool {
        is_version_4(self.number())
    }

    proof fn number_identifies(left: Self, right: Self) {
    }

    fn get(self) -> (number: u128) {
        self.number
    }

    fn rendered(&self) -> (text: String) {
        self.to_string()
    }
}

impl std::str::FromStr for RevisionId {
    type Err = IdParseError;

    fn from_str(value: &str) -> (result: std::result::Result<Self, IdParseError>)
        ensures
            match result {
                Ok(id) => parsed_id(value@, Self::prefix()) == Ok::<u128, Seq<char>>(id.number())
                    && id.canonical() && value@ == id.text(),
                Err(error) => parsed_id(value@, Self::prefix()) == Err::<u128, Seq<char>>(error@.message)
                    && error@.expected_prefix == Self::prefix(),
            },
            forall|id: Self| id.canonical()
                && value@ == #[trigger] id.text() ==> result == Ok::<Self, IdParseError>(id),
    {
        Self::parse(value)
    }
}

/// Opaque identity of an immutable event.
#[derive(Clone, Copy, Debug, PartialEq, Eq, PartialOrd, Ord, Hash, Structural)]
pub struct EventId {
    number: u128,
}

impl EventId {
    /// Required human-readable prefix.
    pub const PREFIX: &'static str = "evt_";

    /// Creates a fresh opaque identifier from the operating system CSPRNG.
    #[must_use]
    pub fn new() -> (id: Self)
        ensures
            id.canonical(),
    {
        EventId { number: random_uuid() }
    }

    /// Returns the UUID portion of the identifier, as a number.
    #[must_use]
    pub fn uuid(self) -> (number: u128)
        ensures
            number == self.number(),
    {
        self.number
    }

    /// Renders the prefix and the lowercase hyphenated UUID.
    #[must_use]
    pub fn to_string(&self) -> (text: String)
        ensures
            text@ == self.text(),
    {
        let uuid = uuid_text(self.number);
        joined2("evt_", uuid.as_str())
    }

    /// Parses the canonical rendering and nothing else.
    pub fn parse(value: &str) -> (result: std::result::Result<Self, IdParseError>)
        ensures
            match result {
                Ok(id) => parsed_id(value@, Self::prefix()) == Ok::<u128, Seq<char>>(id.number())
                    && id.canonical() && value@ == id.text(),
                Err(error) => parsed_id(value@, Self::prefix()) == Err::<u128, Seq<char>>(error@.message)
                    && error@.expected_prefix == Self::prefix(),
            },
            forall|id: Self| id.canonical()
                && value@ == #[trigger] id.text() ==> result == Ok::<Self, IdParseError>(id),
    {
        match parse_uuid(value, "evt_") {
            Ok(number) => {
                let id = EventId { number };
                Ok(id)
            },
            Err(error) => Err(error),
        }
    }
}

impl Default for EventId {
    fn default() -> (id: Self)
        ensures
            id.canonical(),
    {
        EventId::new()
    }
}

impl DeepView for EventId {
    type V = EventId;

    open spec fn deep_view(&self) -> EventId {
        *self
    }
}

impl Value for EventId {
    fn copied(&self) -> (copy: Self) {
        *self
    }

    fn same(&self, other: &Self) -> (equal: bool) {
        self.number == other.number
    }
}

impl Json for EventId {
    open spec fn json(model: EventId) -> Seq<char> {
        json_string(model.text())
    }

    fn write_json(&self, out: &mut String) {
        let text = self.to_string();
        let literal = json_string_text(text.as_str());
        out.append(literal.as_str());
    }
}

impl Ordered for EventId {
    open spec fn below(left: EventId, right: EventId) -> bool {
        left.number() < right.number()
    }

    proof fn order_laws(a: EventId, b: EventId, c: EventId) {
    }

    fn is_below(&self, other: &Self) -> (result: bool) {
        self.number < other.number
    }
}

impl Identifier for EventId {
    closed spec fn number(self) -> u128 {
        self.number
    }

    open spec fn prefix() -> Seq<char> {
        "evt_"@
    }

    open spec fn text(self) -> Seq<char> {
        Self::prefix() + hyphenated(self.number())
    }

    open spec fn canonical(self) -> bool {
        is_version_4(self.number())
    }

    proof fn number_identifies(left: Self, right: Self) {
    }

    fn get(self) -> (number: u128) {
        self.number
    }

    fn rendered(&self) -> (text: String) {
        self.to_string()
    }
}

impl std::str::FromStr for EventId {
    type Err = IdParseError;

    fn from_str(value: &str) -> (result: std::result::Result<Self, IdParseError>)
        ensures
            match result {
                Ok(id) => parsed_id(value@, Self::prefix()) == Ok::<u128, Seq<char>>(id.number())
                    && id.canonical() && value@ == id.text(),
                Err(error) => parsed_id(value@, Self::prefix()) == Err::<u128, Seq<char>>(error@.message)
                    && error@.expected_prefix == Self::prefix(),
            },
            forall|id: Self| id.canonical()
                && value@ == #[trigger] id.text() ==> result == Ok::<Self, IdParseError>(id),
    {
        Self::parse(value)
    }
}

/// Opaque identity of a publication transition.
#[derive(Clone, Copy, Debug, PartialEq, Eq, PartialOrd, Ord, Hash, Structural)]
pub struct PublicationId {
    number: u128,
}

impl PublicationId {
    /// Required human-readable prefix.
    pub const PREFIX: &'static str = "pub_";

    /// Creates a fresh opaque identifier from the operating system CSPRNG.
    #[must_use]
    pub fn new() -> (id: Self)
        ensures
            id.canonical(),
    {
        PublicationId { number: random_uuid() }
    }

    /// Returns the UUID portion of the identifier, as a number.
    #[must_use]
    pub fn uuid(self) -> (number: u128)
        ensures
            number == self.number(),
    {
        self.number
    }

    /// Renders the prefix and the lowercase hyphenated UUID.
    #[must_use]
    pub fn to_string(&self) -> (text: String)
        ensures
            text@ == self.text(),
    {
        let uuid = uuid_text(self.number);
        joined2("pub_", uuid.as_str())
    }

    /// Parses the canonical rendering and nothing else.
    pub fn parse(value: &str) -> (result: std::result::Result<Self, IdParseError>)
        ensures
            match result {
                Ok(id) => parsed_id(value@, Self::prefix()) == Ok::<u128, Seq<char>>(id.number())
                    && id.canonical() && value@ == id.text(),
                Err(error) => parsed_id(value@, Self::prefix()) == Err::<u128, Seq<char>>(error@.message)
                    && error@.expected_prefix == Self::prefix(),
            },
            forall|id: Self| id.canonical()
                && value@ == #[trigger] id.text() ==> result == Ok::<Self, IdParseError>(id),
    {
        match parse_uuid(value, "pub_") {
            Ok(number) => {
                let id = PublicationId { number };
                Ok(id)
            },
            Err(error) => Err(error),
        }
    }
}

impl Default for PublicationId {
    fn default() -> (id: Self)
        ensures
            id.canonical(),
    {
        PublicationId::new()
    }
}

impl DeepView for PublicationId {
    type V = PublicationId;

    open spec fn deep_view(&self) -> PublicationId {
        *self
    }
}

impl Value for PublicationId {
    fn copied(&self) -> (copy: Self) {
        *self
    }

    fn same(&self, other: &Self) -> (equal: bool) {
        self.number == other.number
    }
}

impl Json for PublicationId {
    open spec fn json(model: PublicationId) -> Seq<char> {
        json_string(model.text())
    }

    fn write_json(&self, out: &mut String) {
        let text = self.to_string();
        let literal = json_string_text(text.as_str());
        out.append(literal.as_str());
    }
}

impl Ordered for PublicationId {
    open spec fn below(left: PublicationId, right: PublicationId) -> bool {
        left.number() < right.number()
    }

    proof fn order_laws(a: PublicationId, b: PublicationId, c: PublicationId) {
    }

    fn is_below(&self, other: &Self) -> (result: bool) {
        self.number < other.number
    }
}

impl Identifier for PublicationId {
    closed spec fn number(self) -> u128 {
        self.number
    }

    open spec fn prefix() -> Seq<char> {
        "pub_"@
    }

    open spec fn text(self) -> Seq<char> {
        Self::prefix() + hyphenated(self.number())
    }

    open spec fn canonical(self) -> bool {
        is_version_4(self.number())
    }

    proof fn number_identifies(left: Self, right: Self) {
    }

    fn get(self) -> (number: u128) {
        self.number
    }

    fn rendered(&self) -> (text: String) {
        self.to_string()
    }
}

impl std::str::FromStr for PublicationId {
    type Err = IdParseError;

    fn from_str(value: &str) -> (result: std::result::Result<Self, IdParseError>)
        ensures
            match result {
                Ok(id) => parsed_id(value@, Self::prefix()) == Ok::<u128, Seq<char>>(id.number())
                    && id.canonical() && value@ == id.text(),
                Err(error) => parsed_id(value@, Self::prefix()) == Err::<u128, Seq<char>>(error@.message)
                    && error@.expected_prefix == Self::prefix(),
            },
            forall|id: Self| id.canonical()
                && value@ == #[trigger] id.text() ==> result == Ok::<Self, IdParseError>(id),
    {
        Self::parse(value)
    }
}

/// Opaque identity of an evidence snapshot.
#[derive(Clone, Copy, Debug, PartialEq, Eq, PartialOrd, Ord, Hash, Structural)]
pub struct EvidenceId {
    number: u128,
}

impl EvidenceId {
    /// Required human-readable prefix.
    pub const PREFIX: &'static str = "evd_";

    /// Creates a fresh opaque identifier from the operating system CSPRNG.
    #[must_use]
    pub fn new() -> (id: Self)
        ensures
            id.canonical(),
    {
        EvidenceId { number: random_uuid() }
    }

    /// Returns the UUID portion of the identifier, as a number.
    #[must_use]
    pub fn uuid(self) -> (number: u128)
        ensures
            number == self.number(),
    {
        self.number
    }

    /// Renders the prefix and the lowercase hyphenated UUID.
    #[must_use]
    pub fn to_string(&self) -> (text: String)
        ensures
            text@ == self.text(),
    {
        let uuid = uuid_text(self.number);
        joined2("evd_", uuid.as_str())
    }

    /// Parses the canonical rendering and nothing else.
    pub fn parse(value: &str) -> (result: std::result::Result<Self, IdParseError>)
        ensures
            match result {
                Ok(id) => parsed_id(value@, Self::prefix()) == Ok::<u128, Seq<char>>(id.number())
                    && id.canonical() && value@ == id.text(),
                Err(error) => parsed_id(value@, Self::prefix()) == Err::<u128, Seq<char>>(error@.message)
                    && error@.expected_prefix == Self::prefix(),
            },
            forall|id: Self| id.canonical()
                && value@ == #[trigger] id.text() ==> result == Ok::<Self, IdParseError>(id),
    {
        match parse_uuid(value, "evd_") {
            Ok(number) => {
                let id = EvidenceId { number };
                Ok(id)
            },
            Err(error) => Err(error),
        }
    }
}

impl Default for EvidenceId {
    fn default() -> (id: Self)
        ensures
            id.canonical(),
    {
        EvidenceId::new()
    }
}

impl DeepView for EvidenceId {
    type V = EvidenceId;

    open spec fn deep_view(&self) -> EvidenceId {
        *self
    }
}

impl Value for EvidenceId {
    fn copied(&self) -> (copy: Self) {
        *self
    }

    fn same(&self, other: &Self) -> (equal: bool) {
        self.number == other.number
    }
}

impl Json for EvidenceId {
    open spec fn json(model: EvidenceId) -> Seq<char> {
        json_string(model.text())
    }

    fn write_json(&self, out: &mut String) {
        let text = self.to_string();
        let literal = json_string_text(text.as_str());
        out.append(literal.as_str());
    }
}

impl Ordered for EvidenceId {
    open spec fn below(left: EvidenceId, right: EvidenceId) -> bool {
        left.number() < right.number()
    }

    proof fn order_laws(a: EvidenceId, b: EvidenceId, c: EvidenceId) {
    }

    fn is_below(&self, other: &Self) -> (result: bool) {
        self.number < other.number
    }
}

impl Identifier for EvidenceId {
    closed spec fn number(self) -> u128 {
        self.number
    }

    open spec fn prefix() -> Seq<char> {
        "evd_"@
    }

    open spec fn text(self) -> Seq<char> {
        Self::prefix() + hyphenated(self.number())
    }

    open spec fn canonical(self) -> bool {
        is_version_4(self.number())
    }

    proof fn number_identifies(left: Self, right: Self) {
    }

    fn get(self) -> (number: u128) {
        self.number
    }

    fn rendered(&self) -> (text: String) {
        self.to_string()
    }
}

impl std::str::FromStr for EvidenceId {
    type Err = IdParseError;

    fn from_str(value: &str) -> (result: std::result::Result<Self, IdParseError>)
        ensures
            match result {
                Ok(id) => parsed_id(value@, Self::prefix()) == Ok::<u128, Seq<char>>(id.number())
                    && id.canonical() && value@ == id.text(),
                Err(error) => parsed_id(value@, Self::prefix()) == Err::<u128, Seq<char>>(error@.message)
                    && error@.expected_prefix == Self::prefix(),
            },
            forall|id: Self| id.canonical()
                && value@ == #[trigger] id.text() ==> result == Ok::<Self, IdParseError>(id),
    {
        Self::parse(value)
    }
}

/// Opaque identity of a review record.
#[derive(Clone, Copy, Debug, PartialEq, Eq, PartialOrd, Ord, Hash, Structural)]
pub struct ReviewId {
    number: u128,
}

impl ReviewId {
    /// Required human-readable prefix.
    pub const PREFIX: &'static str = "rvw_";

    /// Creates a fresh opaque identifier from the operating system CSPRNG.
    #[must_use]
    pub fn new() -> (id: Self)
        ensures
            id.canonical(),
    {
        ReviewId { number: random_uuid() }
    }

    /// Returns the UUID portion of the identifier, as a number.
    #[must_use]
    pub fn uuid(self) -> (number: u128)
        ensures
            number == self.number(),
    {
        self.number
    }

    /// Renders the prefix and the lowercase hyphenated UUID.
    #[must_use]
    pub fn to_string(&self) -> (text: String)
        ensures
            text@ == self.text(),
    {
        let uuid = uuid_text(self.number);
        joined2("rvw_", uuid.as_str())
    }

    /// Parses the canonical rendering and nothing else.
    pub fn parse(value: &str) -> (result: std::result::Result<Self, IdParseError>)
        ensures
            match result {
                Ok(id) => parsed_id(value@, Self::prefix()) == Ok::<u128, Seq<char>>(id.number())
                    && id.canonical() && value@ == id.text(),
                Err(error) => parsed_id(value@, Self::prefix()) == Err::<u128, Seq<char>>(error@.message)
                    && error@.expected_prefix == Self::prefix(),
            },
            forall|id: Self| id.canonical()
                && value@ == #[trigger] id.text() ==> result == Ok::<Self, IdParseError>(id),
    {
        match parse_uuid(value, "rvw_") {
            Ok(number) => {
                let id = ReviewId { number };
                Ok(id)
            },
            Err(error) => Err(error),
        }
    }
}

impl Default for ReviewId {
    fn default() -> (id: Self)
        ensures
            id.canonical(),
    {
        ReviewId::new()
    }
}

impl DeepView for ReviewId {
    type V = ReviewId;

    open spec fn deep_view(&self) -> ReviewId {
        *self
    }
}

impl Value for ReviewId {
    fn copied(&self) -> (copy: Self) {
        *self
    }

    fn same(&self, other: &Self) -> (equal: bool) {
        self.number == other.number
    }
}

impl Json for ReviewId {
    open spec fn json(model: ReviewId) -> Seq<char> {
        json_string(model.text())
    }

    fn write_json(&self, out: &mut String) {
        let text = self.to_string();
        let literal = json_string_text(text.as_str());
        out.append(literal.as_str());
    }
}

impl Ordered for ReviewId {
    open spec fn below(left: ReviewId, right: ReviewId) -> bool {
        left.number() < right.number()
    }

    proof fn order_laws(a: ReviewId, b: ReviewId, c: ReviewId) {
    }

    fn is_below(&self, other: &Self) -> (result: bool) {
        self.number < other.number
    }
}

impl Identifier for ReviewId {
    closed spec fn number(self) -> u128 {
        self.number
    }

    open spec fn prefix() -> Seq<char> {
        "rvw_"@
    }

    open spec fn text(self) -> Seq<char> {
        Self::prefix() + hyphenated(self.number())
    }

    open spec fn canonical(self) -> bool {
        is_version_4(self.number())
    }

    proof fn number_identifies(left: Self, right: Self) {
    }

    fn get(self) -> (number: u128) {
        self.number
    }

    fn rendered(&self) -> (text: String) {
        self.to_string()
    }
}

impl std::str::FromStr for ReviewId {
    type Err = IdParseError;

    fn from_str(value: &str) -> (result: std::result::Result<Self, IdParseError>)
        ensures
            match result {
                Ok(id) => parsed_id(value@, Self::prefix()) == Ok::<u128, Seq<char>>(id.number())
                    && id.canonical() && value@ == id.text(),
                Err(error) => parsed_id(value@, Self::prefix()) == Err::<u128, Seq<char>>(error@.message)
                    && error@.expected_prefix == Self::prefix(),
            },
            forall|id: Self| id.canonical()
                && value@ == #[trigger] id.text() ==> result == Ok::<Self, IdParseError>(id),
    {
        Self::parse(value)
    }
}

/// Opaque identity of a semantic conflict.
#[derive(Clone, Copy, Debug, PartialEq, Eq, PartialOrd, Ord, Hash, Structural)]
pub struct ConflictId {
    number: u128,
}

impl ConflictId {
    /// Required human-readable prefix.
    pub const PREFIX: &'static str = "cnf_";

    /// Creates a fresh opaque identifier from the operating system CSPRNG.
    #[must_use]
    pub fn new() -> (id: Self)
        ensures
            id.canonical(),
    {
        ConflictId { number: random_uuid() }
    }

    /// Returns the UUID portion of the identifier, as a number.
    #[must_use]
    pub fn uuid(self) -> (number: u128)
        ensures
            number == self.number(),
    {
        self.number
    }

    /// Renders the prefix and the lowercase hyphenated UUID.
    #[must_use]
    pub fn to_string(&self) -> (text: String)
        ensures
            text@ == self.text(),
    {
        let uuid = uuid_text(self.number);
        joined2("cnf_", uuid.as_str())
    }

    /// Parses the canonical rendering and nothing else.
    pub fn parse(value: &str) -> (result: std::result::Result<Self, IdParseError>)
        ensures
            match result {
                Ok(id) => parsed_id(value@, Self::prefix()) == Ok::<u128, Seq<char>>(id.number())
                    && id.canonical() && value@ == id.text(),
                Err(error) => parsed_id(value@, Self::prefix()) == Err::<u128, Seq<char>>(error@.message)
                    && error@.expected_prefix == Self::prefix(),
            },
            forall|id: Self| id.canonical()
                && value@ == #[trigger] id.text() ==> result == Ok::<Self, IdParseError>(id),
    {
        match parse_uuid(value, "cnf_") {
            Ok(number) => {
                let id = ConflictId { number };
                Ok(id)
            },
            Err(error) => Err(error),
        }
    }
}

impl Default for ConflictId {
    fn default() -> (id: Self)
        ensures
            id.canonical(),
    {
        ConflictId::new()
    }
}

impl DeepView for ConflictId {
    type V = ConflictId;

    open spec fn deep_view(&self) -> ConflictId {
        *self
    }
}

impl Value for ConflictId {
    fn copied(&self) -> (copy: Self) {
        *self
    }

    fn same(&self, other: &Self) -> (equal: bool) {
        self.number == other.number
    }
}

impl Json for ConflictId {
    open spec fn json(model: ConflictId) -> Seq<char> {
        json_string(model.text())
    }

    fn write_json(&self, out: &mut String) {
        let text = self.to_string();
        let literal = json_string_text(text.as_str());
        out.append(literal.as_str());
    }
}

impl Ordered for ConflictId {
    open spec fn below(left: ConflictId, right: ConflictId) -> bool {
        left.number() < right.number()
    }

    proof fn order_laws(a: ConflictId, b: ConflictId, c: ConflictId) {
    }

    fn is_below(&self, other: &Self) -> (result: bool) {
        self.number < other.number
    }
}

impl Identifier for ConflictId {
    closed spec fn number(self) -> u128 {
        self.number
    }

    open spec fn prefix() -> Seq<char> {
        "cnf_"@
    }

    open spec fn text(self) -> Seq<char> {
        Self::prefix() + hyphenated(self.number())
    }

    open spec fn canonical(self) -> bool {
        is_version_4(self.number())
    }

    proof fn number_identifies(left: Self, right: Self) {
    }

    fn get(self) -> (number: u128) {
        self.number
    }

    fn rendered(&self) -> (text: String) {
        self.to_string()
    }
}

impl std::str::FromStr for ConflictId {
    type Err = IdParseError;

    fn from_str(value: &str) -> (result: std::result::Result<Self, IdParseError>)
        ensures
            match result {
                Ok(id) => parsed_id(value@, Self::prefix()) == Ok::<u128, Seq<char>>(id.number())
                    && id.canonical() && value@ == id.text(),
                Err(error) => parsed_id(value@, Self::prefix()) == Err::<u128, Seq<char>>(error@.message)
                    && error@.expected_prefix == Self::prefix(),
            },
            forall|id: Self| id.canonical()
                && value@ == #[trigger] id.text() ==> result == Ok::<Self, IdParseError>(id),
    {
        Self::parse(value)
    }
}

/// Opaque identity of a conflict resolution.
#[derive(Clone, Copy, Debug, PartialEq, Eq, PartialOrd, Ord, Hash, Structural)]
pub struct ResolutionId {
    number: u128,
}

impl ResolutionId {
    /// Required human-readable prefix.
    pub const PREFIX: &'static str = "rsl_";

    /// Creates a fresh opaque identifier from the operating system CSPRNG.
    #[must_use]
    pub fn new() -> (id: Self)
        ensures
            id.canonical(),
    {
        ResolutionId { number: random_uuid() }
    }

    /// Returns the UUID portion of the identifier, as a number.
    #[must_use]
    pub fn uuid(self) -> (number: u128)
        ensures
            number == self.number(),
    {
        self.number
    }

    /// Renders the prefix and the lowercase hyphenated UUID.
    #[must_use]
    pub fn to_string(&self) -> (text: String)
        ensures
            text@ == self.text(),
    {
        let uuid = uuid_text(self.number);
        joined2("rsl_", uuid.as_str())
    }

    /// Parses the canonical rendering and nothing else.
    pub fn parse(value: &str) -> (result: std::result::Result<Self, IdParseError>)
        ensures
            match result {
                Ok(id) => parsed_id(value@, Self::prefix()) == Ok::<u128, Seq<char>>(id.number())
                    && id.canonical() && value@ == id.text(),
                Err(error) => parsed_id(value@, Self::prefix()) == Err::<u128, Seq<char>>(error@.message)
                    && error@.expected_prefix == Self::prefix(),
            },
            forall|id: Self| id.canonical()
                && value@ == #[trigger] id.text() ==> result == Ok::<Self, IdParseError>(id),
    {
        match parse_uuid(value, "rsl_") {
            Ok(number) => {
                let id = ResolutionId { number };
                Ok(id)
            },
            Err(error) => Err(error),
        }
    }
}

impl Default for ResolutionId {
    fn default() -> (id: Self)
        ensures
            id.canonical(),
    {
        ResolutionId::new()
    }
}

impl DeepView for ResolutionId {
    type V = ResolutionId;

    open spec fn deep_view(&self) -> ResolutionId {
        *self
    }
}

impl Value for ResolutionId {
    fn copied(&self) -> (copy: Self) {
        *self
    }

    fn same(&self, other: &Self) -> (equal: bool) {
        self.number == other.number
    }
}

impl Json for ResolutionId {
    open spec fn json(model: ResolutionId) -> Seq<char> {
        json_string(model.text())
    }

    fn write_json(&self, out: &mut String) {
        let text = self.to_string();
        let literal = json_string_text(text.as_str());
        out.append(literal.as_str());
    }
}

impl Ordered for ResolutionId {
    open spec fn below(left: ResolutionId, right: ResolutionId) -> bool {
        left.number() < right.number()
    }

    proof fn order_laws(a: ResolutionId, b: ResolutionId, c: ResolutionId) {
    }

    fn is_below(&self, other: &Self) -> (result: bool) {
        self.number < other.number
    }
}

impl Identifier for ResolutionId {
    closed spec fn number(self) -> u128 {
        self.number
    }

    open spec fn prefix() -> Seq<char> {
        "rsl_"@
    }

    open spec fn text(self) -> Seq<char> {
        Self::prefix() + hyphenated(self.number())
    }

    open spec fn canonical(self) -> bool {
        is_version_4(self.number())
    }

    proof fn number_identifies(left: Self, right: Self) {
    }

    fn get(self) -> (number: u128) {
        self.number
    }

    fn rendered(&self) -> (text: String) {
        self.to_string()
    }
}

impl std::str::FromStr for ResolutionId {
    type Err = IdParseError;

    fn from_str(value: &str) -> (result: std::result::Result<Self, IdParseError>)
        ensures
            match result {
                Ok(id) => parsed_id(value@, Self::prefix()) == Ok::<u128, Seq<char>>(id.number())
                    && id.canonical() && value@ == id.text(),
                Err(error) => parsed_id(value@, Self::prefix()) == Err::<u128, Seq<char>>(error@.message)
                    && error@.expected_prefix == Self::prefix(),
            },
            forall|id: Self| id.canonical()
                && value@ == #[trigger] id.text() ==> result == Ok::<Self, IdParseError>(id),
    {
        Self::parse(value)
    }
}

} // verus!
