//! The shared error type, and the texts that everything else is written in.

use shared_context::checks::is_blank;
use shared_context::json::{read_level, Json, JsonLevel};
use shared_context::lexical::identifier;
use shared_context::value::Value;
use shared_context::{Error, ErrorKind, JsonValue, RepositoryId, RepositoryIdentity};

#[test]
fn shared_error_keeps_kind_and_message() {
    let error = Error::new(ErrorKind::InvariantViolation, "append-only contract failed");

    assert_eq!(error.kind(), ErrorKind::InvariantViolation);
    assert_eq!(error.message(), "append-only contract failed");
    assert_eq!(error.to_string(), "append-only contract failed");
}

#[test]
fn error_kinds_route_apart() {
    let kinds = [
        ErrorKind::InvalidInput,
        ErrorKind::InvariantViolation,
        ErrorKind::Io,
        ErrorKind::External,
        ErrorKind::Unsupported,
        ErrorKind::RepositoryNotConfigured,
        ErrorKind::MaintenanceBusy,
    ];
    for (left, kind) in kinds.iter().enumerate() {
        for (right, other) in kinds.iter().enumerate() {
            assert_eq!(Error::new(*kind, "x").kind() == *other, left == right);
        }
    }
}

#[test]
fn blank_texts_are_made_of_white_space() {
    for code in 0_u8..128 {
        let text = char::from(code).to_string();
        let white = code == 32 || (9..=13).contains(&code);
        let identity = RepositoryIdentity {
            repository_id: RepositoryId::new(),
            canonical_name: text,
        };
        assert_eq!(identity.validate().is_err(), white, "{code}");
    }
    for text in ["\u{a0}", "\u{2003}", "\u{3000}"] {
        assert!(is_blank(text));
    }
    assert!(!is_blank("\u{200b}"));
    assert!(is_blank(""));
}

#[test]
fn white_space_is_listed_for_every_character() {
    for character in '\0'..=char::MAX {
        let expected = matches!(
            u32::from(character),
            0x9..=0xd | 0x20 | 0x85 | 0xa0 | 0x1680 | 0x2000..=0x200a | 0x2028 | 0x2029 | 0x202f | 0x205f | 0x3000
        );
        let mut buffer = [0_u8; 4];
        assert_eq!(is_blank(character.encode_utf8(&mut buffer)), expected, "{character:?}");
    }
}

#[test]
fn identifiers_are_runs_of_letters_digits_and_underscores() {
    for code in 0_u8..128 {
        let text = char::from(code).to_string();
        let expected = code == b'_' || code.is_ascii_alphanumeric();
        assert_eq!(identifier(&text).is_some(), expected, "{code}");
    }
    assert_eq!(identifier("caf\u{e9}1-x"), Some("caf\u{e9}1".to_owned()));
}

#[test]
fn json_literals_escape_quotes_backslashes_and_controls_only() {
    let mut encoded = String::new();
    "a\"b\\c\u{8}\t\n\u{c}\r\u{1}\u{1f}\u{7f}/\u{e9}".to_owned().write_json(&mut encoded);
    assert_eq!(
        encoded,
        "\"a\\\"b\\\\c\\b\\t\\n\\f\\r\\u0001\\u001f\u{7f}/\u{e9}\""
    );
    let decoded: String = serde_json::from_str(&encoded).unwrap();
    assert_eq!(decoded, "a\"b\\c\u{8}\t\n\u{c}\r\u{1}\u{1f}\u{7f}/\u{e9}");
}

#[test]
fn json_documents_are_equal_by_what_they_hold() {
    let written = |value: &JsonValue| {
        let mut text = String::new();
        value.write(&mut text);
        text
    };
    let number = |text: &str| JsonValue::Number(text.to_owned());
    let member = |name: &str, value: JsonValue| (name.to_owned(), value);
    let documents = vec![
        JsonValue::Null,
        JsonValue::Bool(true),
        JsonValue::Bool(false),
        number("1"),
        number("12"),
        number("-1.5e-7"),
        JsonValue::Text("1".to_owned()),
        JsonValue::Text("null".to_owned()),
        JsonValue::Array(Vec::new()),
        JsonValue::Array(vec![number("1"), number("2")]),
        JsonValue::Array(vec![JsonValue::Array(vec![number("1"), number("2")])]),
        JsonValue::Object(Vec::new()),
        JsonValue::Object(vec![member("a", number("1")), member("b", JsonValue::Null)]),
        JsonValue::Object(vec![member("a", JsonValue::Object(vec![member("b", number("1"))]))]),
    ];
    for (at, left) in documents.iter().enumerate() {
        for (other, right) in documents.iter().enumerate() {
            assert_eq!(left.same(right), at == other);
            assert_eq!(written(left) == written(right), at == other);
        }
        assert!(left.copied().same(left));
        assert!(serde_json::from_str::<serde_json::Value>(&written(left)).is_ok());
    }
    assert!(!number("true").same(&JsonValue::Bool(true)));
}

#[test]
fn the_outermost_level_of_a_document_is_read() {
    assert!(matches!(read_level(" null "), Some(JsonLevel::Null)));
    assert!(matches!(read_level("true"), Some(JsonLevel::Bool)));
    assert!(matches!(read_level("-12.5e3"), Some(JsonLevel::Number)));
    assert!(matches!(read_level("[1, 2]"), Some(JsonLevel::Array)));
    assert!(read_level("{").is_none());
    match read_level("\"a\\n\"") {
        Some(JsonLevel::Text { content }) => assert_eq!(content, "a\n"),
        other => panic!("{other:?}"),
    }
    match read_level("{\"b\": [1, {\"c\": 2}], \"a\": \"x\"}") {
        Some(JsonLevel::Object { members }) => assert_eq!(
            members,
            [
                ("a".to_owned(), "\"x\"".to_owned()),
                ("b".to_owned(), "[1,{\"c\":2}]".to_owned()),
            ]
        ),
        other => panic!("{other:?}"),
    }
}

#[test]
fn json_documents_are_written_without_white_space() {
    let value = JsonValue::Object(vec![
        ("a".to_owned(), JsonValue::Array(vec![JsonValue::Null, JsonValue::Bool(true)])),
        ("b".to_owned(), JsonValue::Number("1.5".to_owned())),
    ]);
    let mut text = String::new();
    value.write(&mut text);
    assert_eq!(text, "{\"a\":[null,true],\"b\":1.5}");
}
