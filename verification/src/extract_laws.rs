//! What holds of the declarations, endpoints and schemas that are read out of sources.

use vstd::prelude::*;

use crate::checks::words;
use crate::engineering::ArtifactKind;
use crate::extract::{
    declaration_in, declared_by, discoveries, endpoint_discoveries, endpoints_among, endpoints_of, first_version,
    is_endpoint, is_operation, is_version, json_outline, keyword_patterns, line_discoveries, marks_test, member_keys,
    member_of, mentions_endpoint, modifier_texts, normal_key, numbered, object_member, object_members, occurrences,
    operation_of, operations_among, outline_discoveries, plain_discovery, proto_keyword, proto_line, protocol_of,
    route_discovery, routes_among, schemas_named, signature_head, signature_of, source_from, string_content, test_call,
    version_of, version_parts, without_slashes, yaml_after, yaml_discovery, yaml_line, yaml_state, DiscoveryView,
    JsonOutlineView, YamlState,
};
use crate::json::document_level;
use crate::lexical::{
    concatenated, identifier_length, identifier_of, is_alphanumeric_character, leading, lines_of, quoted_from, stripped,
    trimmed,
};
use crate::sources::{stem_of, SourceLanguage};
use crate::text::{begins_with, joined_by, lowered, occurs_in, stands_at};

verus! {

/// Whether a text is a name: letters, digits and underscores, at least one.
pub open spec fn is_name(text: Seq<char>) -> bool {
    text.len() > 0 && forall|i: int|
        0 <= i < text.len() ==> is_alphanumeric_character(#[trigger] text[i]) || text[i] == '_'
}

/// Whether a name ends before a text.
pub open spec fn ends_name(tail: Seq<char>) -> bool {
    tail.len() > 0 ==> !is_alphanumeric_character(tail[0]) && tail[0] != '_'
}

/// Whether a name begins with the word `test`.
pub open spec fn says_test(name: Seq<char>) -> bool {
    name.len() >= 4 && name[0] == 't' && name[1] == 'e' && name[2] == 's' && name[3] == 't'
}

proof fn saying_test(name: Seq<char>)
    ensures
        says_test(name) == begins_with(name, "test"@),
{
    reveal_strlit("test");
    if says_test(name) {
        assert(name.take(4) =~= "test"@);
    }
    if begins_with(name, "test"@) {
        assert(name.take(4)[0] == name[0] && name.take(4)[1] == name[1]);
        assert(name.take(4)[2] == name[2] && name.take(4)[3] == name[3]);
    }
}

/// The identifier that a name with something behind it begins with is the name.
pub proof fn names_are_identifiers(name: Seq<char>, tail: Seq<char>)
    requires
        is_name(name),
        ends_name(tail),
    ensures
        identifier_of(name + tail) == Some(name),
{
    name_lengths(name, tail);
    assert((name + tail).take(name.len() as int) =~= name);
}

proof fn name_lengths(name: Seq<char>, tail: Seq<char>)
    requires
        name.len() == 0 || is_name(name),
        ends_name(tail),
    ensures
        identifier_length(name + tail) == name.len(),
    decreases name.len(),
{
    let whole = name + tail;
    if name.len() > 0 {
        assert(whole[0] == name[0]);
        assert(whole.skip(1) =~= name.skip(1) + tail);
        assert forall|i: int| 0 <= i < name.skip(1).len() implies is_alphanumeric_character(
            #[trigger] name.skip(1)[i],
        ) || name.skip(1)[i] == '_' by {
            assert(name.skip(1)[i] == name[i + 1]);
        }
        name_lengths(name.skip(1), tail);
    } else {
        assert(whole =~= tail);
    }
}

/// A text without a name at its front has no identifier.
pub proof fn other_texts_have_no_identifier(text: Seq<char>)
    requires
        ends_name(text),
    ensures
        identifier_of(text) is None,
{
}

proof fn begins_differently(line: Seq<char>, prefix: Seq<char>, at: int)
    requires
        0 <= at < prefix.len(),
        at < line.len() ==> line[at] != prefix[at],
    ensures
        !begins_with(line, prefix),
{
    if begins_with(line, prefix) {
        assert(line.take(prefix.len() as int)[at] == line[at]);
    }
}

proof fn begins_with_its_front(front: Seq<char>, rest: Seq<char>)
    ensures
        begins_with(front + rest, front),
        (front + rest).skip(front.len() as int) == rest,
{
    assert((front + rest).take(front.len() as int) =~= front);
    assert((front + rest).skip(front.len() as int) =~= rest);
}

proof fn leading_is_first(line: Seq<char>, prefixes: Seq<Seq<char>>, from: int, at: int)
    requires
        0 <= from <= at < prefixes.len(),
        begins_with(line, prefixes[at]),
        forall|j: int| from <= j < at ==> !begins_with(line, #[trigger] prefixes[j]),
    ensures
        leading(line, prefixes, from) == Some(prefixes[at]),
    decreases at - from,
{
    if from < at {
        leading_is_first(line, prefixes, from + 1, at);
    }
}

proof fn leading_is_none(line: Seq<char>, prefixes: Seq<Seq<char>>, from: int)
    requires
        0 <= from,
        forall|j: int| from <= j < prefixes.len() ==> !begins_with(line, #[trigger] prefixes[j]),
    ensures
        leading(line, prefixes, from) is None,
    decreases prefixes.len() - from,
{
    if from < prefixes.len() {
        leading_is_none(line, prefixes, from + 1);
    }
}

proof fn modifier_is_dropped(modifier: Seq<char>, line: Seq<char>, modifiers: Seq<Seq<char>>, at: int)
    requires
        0 <= at < modifiers.len(),
        modifiers[at] == modifier,
        modifier.len() > 0,
        forall|j: int| 0 <= j < at ==> !begins_with(modifier + line, #[trigger] modifiers[j]),
    ensures
        stripped(modifier + line, modifiers) == stripped(line, modifiers),
{
    begins_with_its_front(modifier, line);
    leading_is_first(modifier + line, modifiers, 0, at);
}

proof fn nothing_is_dropped(line: Seq<char>, modifiers: Seq<Seq<char>>)
    requires
        forall|j: int| 0 <= j < modifiers.len() ==> !begins_with(line, #[trigger] modifiers[j]),
    ensures
        stripped(line, modifiers) == line,
{
    leading_is_none(line, modifiers, 0);
}

proof fn declared_is_first(
    line: Seq<char>,
    patterns: Seq<(Seq<char>, ArtifactKind)>,
    from: int,
    at: int,
    name: Seq<char>,
)
    requires
        0 <= from <= at < patterns.len(),
        begins_with(line, patterns[at].0),
        identifier_of(line.skip(patterns[at].0.len() as int)) == Some(name),
        forall|j: int| from <= j < at ==> !begins_with(line, (#[trigger] patterns[j]).0),
    ensures
        declared_by(line, patterns, from) == Some((patterns[at].1, name)),
    decreases at - from,
{
    if from < at {
        declared_is_first(line, patterns, from + 1, at, name);
    }
}

proof fn keyword_declares(
    keyword: Seq<char>,
    name: Seq<char>,
    tail: Seq<char>,
    patterns: Seq<(Seq<char>, ArtifactKind)>,
    at: int,
)
    requires
        is_name(name),
        ends_name(tail),
        0 <= at < patterns.len(),
        patterns[at].0 == keyword,
        forall|j: int| 0 <= j < at ==> !begins_with(keyword + name + tail, (#[trigger] patterns[j]).0),
    ensures
        declared_by(keyword + name + tail, patterns, 0) == Some((patterns[at].1, name)),
{
    let line = keyword + name + tail;
    assert(line =~= keyword + (name + tail));
    begins_with_its_front(keyword, name + tail);
    names_are_identifiers(name, tail);
    declared_is_first(line, patterns, 0, at, name);
}

/// A modifier in front of a declaration in Rust changes nothing.
pub proof fn rust_modifiers_change_nothing(line: Seq<char>, is_test: bool)
    ensures
        declaration_in(SourceLanguage::Rust, "pub "@ + line, is_test) == declaration_in(
            SourceLanguage::Rust,
            line,
            is_test,
        ),
        declaration_in(SourceLanguage::Rust, "pub(crate) "@ + line, is_test) == declaration_in(
            SourceLanguage::Rust,
            line,
            is_test,
        ),
        declaration_in(SourceLanguage::Rust, "async "@ + line, is_test) == declaration_in(
            SourceLanguage::Rust,
            line,
            is_test,
        ),
        declaration_in(SourceLanguage::Rust, "unsafe "@ + line, is_test) == declaration_in(
            SourceLanguage::Rust,
            line,
            is_test,
        ),
{
    reveal_strlit("pub ");
    reveal_strlit("pub(crate) ");
    reveal_strlit("async ");
    reveal_strlit("unsafe ");
    let modifiers = modifier_texts(SourceLanguage::Rust);
    modifier_is_dropped("pub "@, line, modifiers, 0);
    begins_differently("pub(crate) "@ + line, "pub "@, 3);
    modifier_is_dropped("pub(crate) "@, line, modifiers, 1);
    begins_differently("async "@ + line, "pub "@, 0);
    begins_differently("async "@ + line, "pub(crate) "@, 0);
    modifier_is_dropped("async "@, line, modifiers, 2);
    begins_differently("unsafe "@ + line, "pub "@, 0);
    begins_differently("unsafe "@ + line, "pub(crate) "@, 0);
    begins_differently("unsafe "@ + line, "async "@, 0);
    modifier_is_dropped("unsafe "@, line, modifiers, 3);
}

/// What a line of Rust declares: functions, structs, enums, traits and types are Symbols, a function under a test
/// attribute is a Test, and modules are Modules.
/// The name is the identifier behind the keyword, whatever follows it.
pub proof fn rust_declarations_are_read(name: Seq<char>, tail: Seq<char>, is_test: bool)
    requires
        is_name(name),
        ends_name(tail),
    ensures
        declaration_in(SourceLanguage::Rust, "fn "@ + name + tail, is_test) == Some(((if is_test {
            ArtifactKind::Test
        } else {
            ArtifactKind::Symbol
        }), name)),
        declaration_in(SourceLanguage::Rust, "struct "@ + name + tail, is_test) == Some((ArtifactKind::Symbol, name)),
        declaration_in(SourceLanguage::Rust, "enum "@ + name + tail, is_test) == Some((ArtifactKind::Symbol, name)),
        declaration_in(SourceLanguage::Rust, "trait "@ + name + tail, is_test) == Some((ArtifactKind::Symbol, name)),
        declaration_in(SourceLanguage::Rust, "type "@ + name + tail, is_test) == Some((ArtifactKind::Symbol, name)),
        declaration_in(SourceLanguage::Rust, "mod "@ + name + tail, is_test) == Some((ArtifactKind::Module, name)),
{
    reveal_strlit("async ");
    reveal_strlit("enum ");
    reveal_strlit("fn ");
    reveal_strlit("mod ");
    reveal_strlit("pub ");
    reveal_strlit("pub(crate) ");
    reveal_strlit("struct ");
    reveal_strlit("trait ");
    reveal_strlit("type ");
    reveal_strlit("unsafe ");
    let (modifiers, patterns) = (
        modifier_texts(SourceLanguage::Rust),
        keyword_patterns(SourceLanguage::Rust, is_test),
    );
    assert((name + tail).skip(0) =~= name + tail);
    let line = "fn "@ + name + tail;
    assert(line =~= "fn "@ + (name + tail));
    begins_differently(line, "pub "@, 0);
    begins_differently(line, "pub(crate) "@, 0);
    begins_differently(line, "async "@, 0);
    begins_differently(line, "unsafe "@, 0);
    nothing_is_dropped(line, modifiers);
    keyword_declares("fn "@, name, tail, patterns, 0);
    let line = "struct "@ + name + tail;
    assert(line =~= "struct "@ + (name + tail));
    begins_differently(line, "pub "@, 0);
    begins_differently(line, "pub(crate) "@, 0);
    begins_differently(line, "async "@, 0);
    begins_differently(line, "unsafe "@, 0);
    nothing_is_dropped(line, modifiers);
    begins_differently(line, "fn "@, 0);
    keyword_declares("struct "@, name, tail, patterns, 1);
    let line = "enum "@ + name + tail;
    assert(line =~= "enum "@ + (name + tail));
    begins_differently(line, "pub "@, 0);
    begins_differently(line, "pub(crate) "@, 0);
    begins_differently(line, "async "@, 0);
    begins_differently(line, "unsafe "@, 0);
    nothing_is_dropped(line, modifiers);
    begins_differently(line, "fn "@, 0);
    begins_differently(line, "struct "@, 0);
    keyword_declares("enum "@, name, tail, patterns, 2);
    let line = "trait "@ + name + tail;
    assert(line =~= "trait "@ + (name + tail));
    begins_differently(line, "pub "@, 0);
    begins_differently(line, "pub(crate) "@, 0);
    begins_differently(line, "async "@, 0);
    begins_differently(line, "unsafe "@, 0);
    nothing_is_dropped(line, modifiers);
    begins_differently(line, "fn "@, 0);
    begins_differently(line, "struct "@, 0);
    begins_differently(line, "enum "@, 0);
    keyword_declares("trait "@, name, tail, patterns, 3);
    let line = "type "@ + name + tail;
    assert(line =~= "type "@ + (name + tail));
    begins_differently(line, "pub "@, 0);
    begins_differently(line, "pub(crate) "@, 0);
    begins_differently(line, "async "@, 0);
    begins_differently(line, "unsafe "@, 0);
    nothing_is_dropped(line, modifiers);
    begins_differently(line, "fn "@, 0);
    begins_differently(line, "struct "@, 0);
    begins_differently(line, "enum "@, 0);
    begins_differently(line, "trait "@, 1);
    keyword_declares("type "@, name, tail, patterns, 4);
    let line = "mod "@ + name + tail;
    assert(line =~= "mod "@ + (name + tail));
    begins_differently(line, "pub "@, 0);
    begins_differently(line, "pub(crate) "@, 0);
    begins_differently(line, "async "@, 0);
    begins_differently(line, "unsafe "@, 0);
    nothing_is_dropped(line, modifiers);
    begins_differently(line, "fn "@, 0);
    begins_differently(line, "struct "@, 0);
    begins_differently(line, "enum "@, 0);
    begins_differently(line, "trait "@, 0);
    begins_differently(line, "type "@, 0);
    keyword_declares("mod "@, name, tail, patterns, 5);
}

/// A modifier in front of a declaration in TypeScript or JavaScript changes nothing.
pub proof fn typescript_modifiers_change_nothing(line: Seq<char>, is_test: bool)
    ensures
        declaration_in(SourceLanguage::TypeScriptJavaScript, "export "@ + line, is_test) == declaration_in(
            SourceLanguage::TypeScriptJavaScript,
            line,
            is_test,
        ),
        declaration_in(SourceLanguage::TypeScriptJavaScript, "default "@ + line, is_test) == declaration_in(
            SourceLanguage::TypeScriptJavaScript,
            line,
            is_test,
        ),
        declaration_in(SourceLanguage::TypeScriptJavaScript, "declare "@ + line, is_test) == declaration_in(
            SourceLanguage::TypeScriptJavaScript,
            line,
            is_test,
        ),
        declaration_in(SourceLanguage::TypeScriptJavaScript, "async "@ + line, is_test) == declaration_in(
            SourceLanguage::TypeScriptJavaScript,
            line,
            is_test,
        ),
{
    reveal_strlit("export ");
    reveal_strlit("default ");
    reveal_strlit("declare ");
    reveal_strlit("async ");
    let modifiers = modifier_texts(SourceLanguage::TypeScriptJavaScript);
    modifier_is_dropped("export "@, line, modifiers, 0);
    begins_differently("default "@ + line, "export "@, 0);
    modifier_is_dropped("default "@, line, modifiers, 1);
    begins_differently("declare "@ + line, "export "@, 0);
    begins_differently("declare "@ + line, "default "@, 2);
    modifier_is_dropped("declare "@, line, modifiers, 2);
    begins_differently("async "@ + line, "export "@, 0);
    begins_differently("async "@ + line, "default "@, 0);
    begins_differently("async "@ + line, "declare "@, 0);
    modifier_is_dropped("async "@, line, modifiers, 3);
}

/// What a line of TypeScript or JavaScript declares: functions, classes and constants are Symbols; interfaces, types
/// and enums are Schemas.
/// The name is the identifier behind the keyword, whatever follows it.
pub proof fn typescript_declarations_are_read(name: Seq<char>, tail: Seq<char>, is_test: bool)
    requires
        is_name(name),
        ends_name(tail),
    ensures
        declaration_in(SourceLanguage::TypeScriptJavaScript, "function "@ + name + tail, is_test) == Some(
            (ArtifactKind::Symbol, name),
        ),
        declaration_in(SourceLanguage::TypeScriptJavaScript, "class "@ + name + tail, is_test) == Some(
            (ArtifactKind::Symbol, name),
        ),
        declaration_in(SourceLanguage::TypeScriptJavaScript, "interface "@ + name + tail, is_test) == Some(
            (ArtifactKind::Schema, name),
        ),
        declaration_in(SourceLanguage::TypeScriptJavaScript, "type "@ + name + tail, is_test) == Some(
            (ArtifactKind::Schema, name),
        ),
        declaration_in(SourceLanguage::TypeScriptJavaScript, "enum "@ + name + tail, is_test) == Some(
            (ArtifactKind::Schema, name),
        ),
        declaration_in(SourceLanguage::TypeScriptJavaScript, "const "@ + name + tail, is_test) == Some(
            (ArtifactKind::Symbol, name),
        ),
{
    reveal_strlit("async ");
    reveal_strlit("class ");
    reveal_strlit("const ");
    reveal_strlit("declare ");
    reveal_strlit("default ");
    reveal_strlit("enum ");
    reveal_strlit("export ");
    reveal_strlit("function ");
    reveal_strlit("interface ");
    reveal_strlit("type ");
    let (modifiers, patterns) = (
        modifier_texts(SourceLanguage::TypeScriptJavaScript),
        keyword_patterns(SourceLanguage::TypeScriptJavaScript, is_test),
    );
    assert((name + tail).skip(0) =~= name + tail);
    let line = "function "@ + name + tail;
    assert(line =~= "function "@ + (name + tail));
    begins_differently(line, "export "@, 0);
    begins_differently(line, "default "@, 0);
    begins_differently(line, "declare "@, 0);
    begins_differently(line, "async "@, 0);
    nothing_is_dropped(line, modifiers);
    keyword_declares("function "@, name, tail, patterns, 0);
    let line = "class "@ + name + tail;
    assert(line =~= "class "@ + (name + tail));
    begins_differently(line, "export "@, 0);
    begins_differently(line, "default "@, 0);
    begins_differently(line, "declare "@, 0);
    begins_differently(line, "async "@, 0);
    nothing_is_dropped(line, modifiers);
    begins_differently(line, "function "@, 0);
    keyword_declares("class "@, name, tail, patterns, 1);
    let line = "interface "@ + name + tail;
    assert(line =~= "interface "@ + (name + tail));
    begins_differently(line, "export "@, 0);
    begins_differently(line, "default "@, 0);
    begins_differently(line, "declare "@, 0);
    begins_differently(line, "async "@, 0);
    nothing_is_dropped(line, modifiers);
    begins_differently(line, "function "@, 0);
    begins_differently(line, "class "@, 0);
    keyword_declares("interface "@, name, tail, patterns, 2);
    let line = "type "@ + name + tail;
    assert(line =~= "type "@ + (name + tail));
    begins_differently(line, "export "@, 0);
    begins_differently(line, "default "@, 0);
    begins_differently(line, "declare "@, 0);
    begins_differently(line, "async "@, 0);
    nothing_is_dropped(line, modifiers);
    begins_differently(line, "function "@, 0);
    begins_differently(line, "class "@, 0);
    begins_differently(line, "interface "@, 0);
    keyword_declares("type "@, name, tail, patterns, 3);
    let line = "enum "@ + name + tail;
    assert(line =~= "enum "@ + (name + tail));
    begins_differently(line, "export "@, 1);
    begins_differently(line, "default "@, 0);
    begins_differently(line, "declare "@, 0);
    begins_differently(line, "async "@, 0);
    nothing_is_dropped(line, modifiers);
    begins_differently(line, "function "@, 0);
    begins_differently(line, "class "@, 0);
    begins_differently(line, "interface "@, 0);
    begins_differently(line, "type "@, 0);
    keyword_declares("enum "@, name, tail, patterns, 4);
    let line = "const "@ + name + tail;
    assert(line =~= "const "@ + (name + tail));
    begins_differently(line, "export "@, 0);
    begins_differently(line, "default "@, 0);
    begins_differently(line, "declare "@, 0);
    begins_differently(line, "async "@, 0);
    nothing_is_dropped(line, modifiers);
    begins_differently(line, "function "@, 0);
    begins_differently(line, "class "@, 1);
    begins_differently(line, "interface "@, 0);
    begins_differently(line, "type "@, 0);
    begins_differently(line, "enum "@, 0);
    keyword_declares("const "@, name, tail, patterns, 5);
}

/// A modifier in front of a declaration in Swift changes nothing.
pub proof fn swift_modifiers_change_nothing(line: Seq<char>, is_test: bool)
    ensures
        declaration_in(SourceLanguage::Swift, "public "@ + line, is_test) == declaration_in(
            SourceLanguage::Swift,
            line,
            is_test,
        ),
        declaration_in(SourceLanguage::Swift, "private "@ + line, is_test) == declaration_in(
            SourceLanguage::Swift,
            line,
            is_test,
        ),
        declaration_in(SourceLanguage::Swift, "internal "@ + line, is_test) == declaration_in(
            SourceLanguage::Swift,
            line,
            is_test,
        ),
        declaration_in(SourceLanguage::Swift, "open "@ + line, is_test) == declaration_in(
            SourceLanguage::Swift,
            line,
            is_test,
        ),
        declaration_in(SourceLanguage::Swift, "static "@ + line, is_test) == declaration_in(
            SourceLanguage::Swift,
            line,
            is_test,
        ),
{
    reveal_strlit("public ");
    reveal_strlit("private ");
    reveal_strlit("internal ");
    reveal_strlit("open ");
    reveal_strlit("static ");
    let modifiers = modifier_texts(SourceLanguage::Swift);
    modifier_is_dropped("public "@, line, modifiers, 0);
    begins_differently("private "@ + line, "public "@, 1);
    modifier_is_dropped("private "@, line, modifiers, 1);
    begins_differently("internal "@ + line, "public "@, 0);
    begins_differently("internal "@ + line, "private "@, 0);
    modifier_is_dropped("internal "@, line, modifiers, 2);
    begins_differently("open "@ + line, "public "@, 0);
    begins_differently("open "@ + line, "private "@, 0);
    begins_differently("open "@ + line, "internal "@, 0);
    modifier_is_dropped("open "@, line, modifiers, 3);
    begins_differently("static "@ + line, "public "@, 0);
    begins_differently("static "@ + line, "private "@, 0);
    begins_differently("static "@ + line, "internal "@, 0);
    begins_differently("static "@ + line, "open "@, 0);
    modifier_is_dropped("static "@, line, modifiers, 4);
}

/// What a line of Swift declares: functions, classes and structs are Symbols, or Tests where their name says so;
/// enums and protocols are Schemas.
/// The name is the identifier behind the keyword, whatever follows it.
pub proof fn swift_declarations_are_read(name: Seq<char>, tail: Seq<char>, is_test: bool)
    requires
        is_name(name),
        ends_name(tail),
    ensures
        declaration_in(SourceLanguage::Swift, "func "@ + name + tail, is_test) == Some(((if says_test(name) {
            ArtifactKind::Test
        } else {
            ArtifactKind::Symbol
        }), name)),
        declaration_in(SourceLanguage::Swift, "class "@ + name + tail, is_test) == Some(((if says_test(name) {
            ArtifactKind::Test
        } else {
            ArtifactKind::Symbol
        }), name)),
        declaration_in(SourceLanguage::Swift, "struct "@ + name + tail, is_test) == Some(((if says_test(name) {
            ArtifactKind::Test
        } else {
            ArtifactKind::Symbol
        }), name)),
        declaration_in(SourceLanguage::Swift, "enum "@ + name + tail, is_test) == Some((ArtifactKind::Schema, name)),
        declaration_in(SourceLanguage::Swift, "protocol "@ + name + tail, is_test) == Some(
            (ArtifactKind::Schema, name),
        ),
{
    reveal_strlit("class ");
    reveal_strlit("enum ");
    reveal_strlit("func ");
    reveal_strlit("internal ");
    reveal_strlit("open ");
    reveal_strlit("private ");
    reveal_strlit("protocol ");
    reveal_strlit("public ");
    reveal_strlit("static ");
    reveal_strlit("struct ");
    saying_test(name);
    let (modifiers, patterns) = (
        modifier_texts(SourceLanguage::Swift),
        keyword_patterns(SourceLanguage::Swift, is_test),
    );
    assert((name + tail).skip(0) =~= name + tail);
    let line = "func "@ + name + tail;
    assert(line =~= "func "@ + (name + tail));
    begins_differently(line, "public "@, 0);
    begins_differently(line, "private "@, 0);
    begins_differently(line, "internal "@, 0);
    begins_differently(line, "open "@, 0);
    begins_differently(line, "static "@, 0);
    nothing_is_dropped(line, modifiers);
    keyword_declares("func "@, name, tail, patterns, 0);
    let line = "class "@ + name + tail;
    assert(line =~= "class "@ + (name + tail));
    begins_differently(line, "public "@, 0);
    begins_differently(line, "private "@, 0);
    begins_differently(line, "internal "@, 0);
    begins_differently(line, "open "@, 0);
    begins_differently(line, "static "@, 0);
    nothing_is_dropped(line, modifiers);
    begins_differently(line, "func "@, 0);
    keyword_declares("class "@, name, tail, patterns, 1);
    let line = "struct "@ + name + tail;
    assert(line =~= "struct "@ + (name + tail));
    begins_differently(line, "public "@, 0);
    begins_differently(line, "private "@, 0);
    begins_differently(line, "internal "@, 0);
    begins_differently(line, "open "@, 0);
    begins_differently(line, "static "@, 2);
    nothing_is_dropped(line, modifiers);
    begins_differently(line, "func "@, 0);
    begins_differently(line, "class "@, 0);
    keyword_declares("struct "@, name, tail, patterns, 2);
    let line = "enum "@ + name + tail;
    assert(line =~= "enum "@ + (name + tail));
    begins_differently(line, "public "@, 0);
    begins_differently(line, "private "@, 0);
    begins_differently(line, "internal "@, 0);
    begins_differently(line, "open "@, 0);
    begins_differently(line, "static "@, 0);
    nothing_is_dropped(line, modifiers);
    begins_differently(line, "func "@, 0);
    begins_differently(line, "class "@, 0);
    begins_differently(line, "struct "@, 0);
    keyword_declares("enum "@, name, tail, patterns, 3);
    let line = "protocol "@ + name + tail;
    assert(line =~= "protocol "@ + (name + tail));
    begins_differently(line, "public "@, 1);
    begins_differently(line, "private "@, 2);
    begins_differently(line, "internal "@, 0);
    begins_differently(line, "open "@, 0);
    begins_differently(line, "static "@, 0);
    nothing_is_dropped(line, modifiers);
    begins_differently(line, "func "@, 0);
    begins_differently(line, "class "@, 0);
    begins_differently(line, "struct "@, 0);
    begins_differently(line, "enum "@, 0);
    keyword_declares("protocol "@, name, tail, patterns, 4);
}

/// A modifier in front of a declaration in Kotlin changes nothing.
pub proof fn kotlin_modifiers_change_nothing(line: Seq<char>, is_test: bool)
    ensures
        declaration_in(SourceLanguage::Kotlin, "public "@ + line, is_test) == declaration_in(
            SourceLanguage::Kotlin,
            line,
            is_test,
        ),
        declaration_in(SourceLanguage::Kotlin, "private "@ + line, is_test) == declaration_in(
            SourceLanguage::Kotlin,
            line,
            is_test,
        ),
        declaration_in(SourceLanguage::Kotlin, "internal "@ + line, is_test) == declaration_in(
            SourceLanguage::Kotlin,
            line,
            is_test,
        ),
        declaration_in(SourceLanguage::Kotlin, "protected "@ + line, is_test) == declaration_in(
            SourceLanguage::Kotlin,
            line,
            is_test,
        ),
        declaration_in(SourceLanguage::Kotlin, "suspend "@ + line, is_test) == declaration_in(
            SourceLanguage::Kotlin,
            line,
            is_test,
        ),
        declaration_in(SourceLanguage::Kotlin, "data "@ + line, is_test) == declaration_in(
            SourceLanguage::Kotlin,
            line,
            is_test,
        ),
{
    reveal_strlit("public ");
    reveal_strlit("private ");
    reveal_strlit("internal ");
    reveal_strlit("protected ");
    reveal_strlit("suspend ");
    reveal_strlit("data ");
    let modifiers = modifier_texts(SourceLanguage::Kotlin);
    modifier_is_dropped("public "@, line, modifiers, 0);
    begins_differently("private "@ + line, "public "@, 1);
    modifier_is_dropped("private "@, line, modifiers, 1);
    begins_differently("internal "@ + line, "public "@, 0);
    begins_differently("internal "@ + line, "private "@, 0);
    modifier_is_dropped("internal "@, line, modifiers, 2);
    begins_differently("protected "@ + line, "public "@, 1);
    begins_differently("protected "@ + line, "private "@, 2);
    begins_differently("protected "@ + line, "internal "@, 0);
    modifier_is_dropped("protected "@, line, modifiers, 3);
    begins_differently("suspend "@ + line, "public "@, 0);
    begins_differently("suspend "@ + line, "private "@, 0);
    begins_differently("suspend "@ + line, "internal "@, 0);
    begins_differently("suspend "@ + line, "protected "@, 0);
    modifier_is_dropped("suspend "@, line, modifiers, 4);
    begins_differently("data "@ + line, "public "@, 0);
    begins_differently("data "@ + line, "private "@, 0);
    begins_differently("data "@ + line, "internal "@, 0);
    begins_differently("data "@ + line, "protected "@, 0);
    begins_differently("data "@ + line, "suspend "@, 0);
    modifier_is_dropped("data "@, line, modifiers, 5);
}

/// What a line of Kotlin declares: functions, classes and objects are Symbols, a function under a test annotation
/// is a Test, and interfaces and enum classes are Schemas.
/// The name is the identifier behind the keyword, whatever follows it.
pub proof fn kotlin_declarations_are_read(name: Seq<char>, tail: Seq<char>, is_test: bool)
    requires
        is_name(name),
        ends_name(tail),
    ensures
        declaration_in(SourceLanguage::Kotlin, "fun "@ + name + tail, is_test) == Some(((if is_test {
            ArtifactKind::Test
        } else {
            ArtifactKind::Symbol
        }), name)),
        declaration_in(SourceLanguage::Kotlin, "class "@ + name + tail, is_test) == Some(
            (ArtifactKind::Symbol, name),
        ),
        declaration_in(SourceLanguage::Kotlin, "object "@ + name + tail, is_test) == Some(
            (ArtifactKind::Symbol, name),
        ),
        declaration_in(SourceLanguage::Kotlin, "interface "@ + name + tail, is_test) == Some(
            (ArtifactKind::Schema, name),
        ),
        declaration_in(SourceLanguage::Kotlin, "enum class "@ + name + tail, is_test) == Some(
            (ArtifactKind::Schema, name),
        ),
{
    reveal_strlit("class ");
    reveal_strlit("data ");
    reveal_strlit("enum class ");
    reveal_strlit("fun ");
    reveal_strlit("interface ");
    reveal_strlit("internal ");
    reveal_strlit("object ");
    reveal_strlit("private ");
    reveal_strlit("protected ");
    reveal_strlit("public ");
    reveal_strlit("suspend ");
    let (modifiers, patterns) = (
        modifier_texts(SourceLanguage::Kotlin),
        keyword_patterns(SourceLanguage::Kotlin, is_test),
    );
    assert((name + tail).skip(0) =~= name + tail);
    let line = "fun "@ + name + tail;
    assert(line =~= "fun "@ + (name + tail));
    begins_differently(line, "public "@, 0);
    begins_differently(line, "private "@, 0);
    begins_differently(line, "internal "@, 0);
    begins_differently(line, "protected "@, 0);
    begins_differently(line, "suspend "@, 0);
    begins_differently(line, "data "@, 0);
    nothing_is_dropped(line, modifiers);
    keyword_declares("fun "@, name, tail, patterns, 0);
    let line = "class "@ + name + tail;
    assert(line =~= "class "@ + (name + tail));
    begins_differently(line, "public "@, 0);
    begins_differently(line, "private "@, 0);
    begins_differently(line, "internal "@, 0);
    begins_differently(line, "protected "@, 0);
    begins_differently(line, "suspend "@, 0);
    begins_differently(line, "data "@, 0);
    nothing_is_dropped(line, modifiers);
    begins_differently(line, "fun "@, 0);
    keyword_declares("class "@, name, tail, patterns, 1);
    let line = "object "@ + name + tail;
    assert(line =~= "object "@ + (name + tail));
    begins_differently(line, "public "@, 0);
    begins_differently(line, "private "@, 0);
    begins_differently(line, "internal "@, 0);
    begins_differently(line, "protected "@, 0);
    begins_differently(line, "suspend "@, 0);
    begins_differently(line, "data "@, 0);
    nothing_is_dropped(line, modifiers);
    begins_differently(line, "fun "@, 0);
    begins_differently(line, "class "@, 0);
    keyword_declares("object "@, name, tail, patterns, 2);
    let line = "interface "@ + name + tail;
    assert(line =~= "interface "@ + (name + tail));
    begins_differently(line, "public "@, 0);
    begins_differently(line, "private "@, 0);
    begins_differently(line, "internal "@, 5);
    begins_differently(line, "protected "@, 0);
    begins_differently(line, "suspend "@, 0);
    begins_differently(line, "data "@, 0);
    nothing_is_dropped(line, modifiers);
    begins_differently(line, "fun "@, 0);
    begins_differently(line, "class "@, 0);
    begins_differently(line, "object "@, 0);
    keyword_declares("interface "@, name, tail, patterns, 3);
    let line = "enum class "@ + name + tail;
    assert(line =~= "enum class "@ + (name + tail));
    begins_differently(line, "public "@, 0);
    begins_differently(line, "private "@, 0);
    begins_differently(line, "internal "@, 0);
    begins_differently(line, "protected "@, 0);
    begins_differently(line, "suspend "@, 0);
    begins_differently(line, "data "@, 0);
    nothing_is_dropped(line, modifiers);
    begins_differently(line, "fun "@, 0);
    begins_differently(line, "class "@, 0);
    begins_differently(line, "object "@, 0);
    begins_differently(line, "interface "@, 0);
    keyword_declares("enum class "@, name, tail, patterns, 4);
}

/// A modifier in front of a declaration in Java changes nothing.
pub proof fn java_modifiers_change_nothing(line: Seq<char>, is_test: bool)
    ensures
        declaration_in(SourceLanguage::Java, "public "@ + line, is_test) == declaration_in(
            SourceLanguage::Java,
            line,
            is_test,
        ),
        declaration_in(SourceLanguage::Java, "private "@ + line, is_test) == declaration_in(
            SourceLanguage::Java,
            line,
            is_test,
        ),
        declaration_in(SourceLanguage::Java, "protected "@ + line, is_test) == declaration_in(
            SourceLanguage::Java,
            line,
            is_test,
        ),
        declaration_in(SourceLanguage::Java, "abstract "@ + line, is_test) == declaration_in(
            SourceLanguage::Java,
            line,
            is_test,
        ),
        declaration_in(SourceLanguage::Java, "final "@ + line, is_test) == declaration_in(
            SourceLanguage::Java,
            line,
            is_test,
        ),
        declaration_in(SourceLanguage::Java, "static "@ + line, is_test) == declaration_in(
            SourceLanguage::Java,
            line,
            is_test,
        ),
        declaration_in(SourceLanguage::Java, "synchronized "@ + line, is_test) == declaration_in(
            SourceLanguage::Java,
            line,
            is_test,
        ),
        declaration_in(SourceLanguage::Java, "native "@ + line, is_test) == declaration_in(
            SourceLanguage::Java,
            line,
            is_test,
        ),
        declaration_in(SourceLanguage::Java, "strictfp "@ + line, is_test) == declaration_in(
            SourceLanguage::Java,
            line,
            is_test,
        ),
        declaration_in(SourceLanguage::Java, "default "@ + line, is_test) == declaration_in(
            SourceLanguage::Java,
            line,
            is_test,
        ),
{
    reveal_strlit("public ");
    reveal_strlit("private ");
    reveal_strlit("protected ");
    reveal_strlit("abstract ");
    reveal_strlit("final ");
    reveal_strlit("static ");
    reveal_strlit("synchronized ");
    reveal_strlit("native ");
    reveal_strlit("strictfp ");
    reveal_strlit("default ");
    let modifiers = modifier_texts(SourceLanguage::Java);
    modifier_is_dropped("public "@, line, modifiers, 0);
    begins_differently("private "@ + line, "public "@, 1);
    modifier_is_dropped("private "@, line, modifiers, 1);
    begins_differently("protected "@ + line, "public "@, 1);
    begins_differently("protected "@ + line, "private "@, 2);
    modifier_is_dropped("protected "@, line, modifiers, 2);
    begins_differently("abstract "@ + line, "public "@, 0);
    begins_differently("abstract "@ + line, "private "@, 0);
    begins_differently("abstract "@ + line, "protected "@, 0);
    modifier_is_dropped("abstract "@, line, modifiers, 3);
    begins_differently("final "@ + line, "public "@, 0);
    begins_differently("final "@ + line, "private "@, 0);
    begins_differently("final "@ + line, "protected "@, 0);
    begins_differently("final "@ + line, "abstract "@, 0);
    modifier_is_dropped("final "@, line, modifiers, 4);
    begins_differently("static "@ + line, "public "@, 0);
    begins_differently("static "@ + line, "private "@, 0);
    begins_differently("static "@ + line, "protected "@, 0);
    begins_differently("static "@ + line, "abstract "@, 0);
    begins_differently("static "@ + line, "final "@, 0);
    modifier_is_dropped("static "@, line, modifiers, 5);
    begins_differently("synchronized "@ + line, "public "@, 0);
    begins_differently("synchronized "@ + line, "private "@, 0);
    begins_differently("synchronized "@ + line, "protected "@, 0);
    begins_differently("synchronized "@ + line, "abstract "@, 0);
    begins_differently("synchronized "@ + line, "final "@, 0);
    begins_differently("synchronized "@ + line, "static "@, 1);
    modifier_is_dropped("synchronized "@, line, modifiers, 6);
    begins_differently("native "@ + line, "public "@, 0);
    begins_differently("native "@ + line, "private "@, 0);
    begins_differently("native "@ + line, "protected "@, 0);
    begins_differently("native "@ + line, "abstract "@, 0);
    begins_differently("native "@ + line, "final "@, 0);
    begins_differently("native "@ + line, "static "@, 0);
    begins_differently("native "@ + line, "synchronized "@, 0);
    modifier_is_dropped("native "@, line, modifiers, 7);
    begins_differently("strictfp "@ + line, "public "@, 0);
    begins_differently("strictfp "@ + line, "private "@, 0);
    begins_differently("strictfp "@ + line, "protected "@, 0);
    begins_differently("strictfp "@ + line, "abstract "@, 0);
    begins_differently("strictfp "@ + line, "final "@, 0);
    begins_differently("strictfp "@ + line, "static "@, 2);
    begins_differently("strictfp "@ + line, "synchronized "@, 1);
    begins_differently("strictfp "@ + line, "native "@, 0);
    modifier_is_dropped("strictfp "@, line, modifiers, 8);
    begins_differently("default "@ + line, "public "@, 0);
    begins_differently("default "@ + line, "private "@, 0);
    begins_differently("default "@ + line, "protected "@, 0);
    begins_differently("default "@ + line, "abstract "@, 0);
    begins_differently("default "@ + line, "final "@, 0);
    begins_differently("default "@ + line, "static "@, 0);
    begins_differently("default "@ + line, "synchronized "@, 0);
    begins_differently("default "@ + line, "native "@, 0);
    begins_differently("default "@ + line, "strictfp "@, 0);
    modifier_is_dropped("default "@, line, modifiers, 9);
}

/// What a line of Java declares: classes and records are Symbols; interfaces, enums and annotation types are Schemas.
/// The name is the identifier behind the keyword, whatever follows it.
pub proof fn java_declarations_are_read(name: Seq<char>, tail: Seq<char>, is_test: bool)
    requires
        is_name(name),
        ends_name(tail),
    ensures
        declaration_in(SourceLanguage::Java, "class "@ + name + tail, is_test) == Some((ArtifactKind::Symbol, name)),
        declaration_in(SourceLanguage::Java, "record "@ + name + tail, is_test) == Some((ArtifactKind::Symbol, name)),
        declaration_in(SourceLanguage::Java, "interface "@ + name + tail, is_test) == Some(
            (ArtifactKind::Schema, name),
        ),
        declaration_in(SourceLanguage::Java, "enum "@ + name + tail, is_test) == Some((ArtifactKind::Schema, name)),
        declaration_in(SourceLanguage::Java, "@interface "@ + name + tail, is_test) == Some(
            (ArtifactKind::Schema, name),
        ),
{
    reveal_strlit("@interface ");
    reveal_strlit("abstract ");
    reveal_strlit("class ");
    reveal_strlit("default ");
    reveal_strlit("enum ");
    reveal_strlit("final ");
    reveal_strlit("interface ");
    reveal_strlit("native ");
    reveal_strlit("private ");
    reveal_strlit("protected ");
    reveal_strlit("public ");
    reveal_strlit("record ");
    reveal_strlit("static ");
    reveal_strlit("strictfp ");
    reveal_strlit("synchronized ");
    let (modifiers, patterns) = (
        modifier_texts(SourceLanguage::Java),
        keyword_patterns(SourceLanguage::Java, is_test),
    );
    assert((name + tail).skip(0) =~= name + tail);
    let line = "class "@ + name + tail;
    assert(line =~= "class "@ + (name + tail));
    begins_differently(line, "public "@, 0);
    begins_differently(line, "private "@, 0);
    begins_differently(line, "protected "@, 0);
    begins_differently(line, "abstract "@, 0);
    begins_differently(line, "final "@, 0);
    begins_differently(line, "static "@, 0);
    begins_differently(line, "synchronized "@, 0);
    begins_differently(line, "native "@, 0);
    begins_differently(line, "strictfp "@, 0);
    begins_differently(line, "default "@, 0);
    nothing_is_dropped(line, modifiers);
    keyword_declares("class "@, name, tail, patterns, 0);
    let line = "record "@ + name + tail;
    assert(line =~= "record "@ + (name + tail));
    begins_differently(line, "public "@, 0);
    begins_differently(line, "private "@, 0);
    begins_differently(line, "protected "@, 0);
    begins_differently(line, "abstract "@, 0);
    begins_differently(line, "final "@, 0);
    begins_differently(line, "static "@, 0);
    begins_differently(line, "synchronized "@, 0);
    begins_differently(line, "native "@, 0);
    begins_differently(line, "strictfp "@, 0);
    begins_differently(line, "default "@, 0);
    nothing_is_dropped(line, modifiers);
    begins_differently(line, "class "@, 0);
    keyword_declares("record "@, name, tail, patterns, 1);
    let line = "interface "@ + name + tail;
    assert(line =~= "interface "@ + (name + tail));
    begins_differently(line, "public "@, 0);
    begins_differently(line, "private "@, 0);
    begins_differently(line, "protected "@, 0);
    begins_differently(line, "abstract "@, 0);
    begins_differently(line, "final "@, 0);
    begins_differently(line, "static "@, 0);
    begins_differently(line, "synchronized "@, 0);
    begins_differently(line, "native "@, 0);
    begins_differently(line, "strictfp "@, 0);
    begins_differently(line, "default "@, 0);
    nothing_is_dropped(line, modifiers);
    begins_differently(line, "class "@, 0);
    begins_differently(line, "record "@, 0);
    keyword_declares("interface "@, name, tail, patterns, 2);
    let line = "enum "@ + name + tail;
    assert(line =~= "enum "@ + (name + tail));
    begins_differently(line, "public "@, 0);
    begins_differently(line, "private "@, 0);
    begins_differently(line, "protected "@, 0);
    begins_differently(line, "abstract "@, 0);
    begins_differently(line, "final "@, 0);
    begins_differently(line, "static "@, 0);
    begins_differently(line, "synchronized "@, 0);
    begins_differently(line, "native "@, 0);
    begins_differently(line, "strictfp "@, 0);
    begins_differently(line, "default "@, 0);
    nothing_is_dropped(line, modifiers);
    begins_differently(line, "class "@, 0);
    begins_differently(line, "record "@, 0);
    begins_differently(line, "interface "@, 0);
    keyword_declares("enum "@, name, tail, patterns, 3);
    let line = "@interface "@ + name + tail;
    assert(line =~= "@interface "@ + (name + tail));
    begins_differently(line, "public "@, 0);
    begins_differently(line, "private "@, 0);
    begins_differently(line, "protected "@, 0);
    begins_differently(line, "abstract "@, 0);
    begins_differently(line, "final "@, 0);
    begins_differently(line, "static "@, 0);
    begins_differently(line, "synchronized "@, 0);
    begins_differently(line, "native "@, 0);
    begins_differently(line, "strictfp "@, 0);
    begins_differently(line, "default "@, 0);
    nothing_is_dropped(line, modifiers);
    begins_differently(line, "class "@, 0);
    begins_differently(line, "record "@, 0);
    begins_differently(line, "interface "@, 0);
    begins_differently(line, "enum "@, 0);
    keyword_declares("@interface "@, name, tail, patterns, 4);
}

/// The modifiers of a language.
pub open spec fn is_modifier_of(language: SourceLanguage, text: Seq<char>) -> bool {
    match language {
        SourceLanguage::Rust => text == "pub "@ || text == "pub(crate) "@ || text == "async "@ || text == "unsafe "@,
        SourceLanguage::TypeScriptJavaScript => {
            text == "export "@ || text == "default "@ || text == "declare "@ || text == "async "@
        },
        SourceLanguage::Swift => {
            text == "public "@ || text == "private "@ || text == "internal "@ || text == "open "@ || text == "static "@
        },
        SourceLanguage::Kotlin => {
            text == "public "@ || text == "private "@ || text == "internal "@ || text == "protected "@
                || text == "suspend "@ || text == "data "@
        },
        SourceLanguage::Java => {
            text == "public "@ || text == "private "@ || text == "protected "@ || text == "abstract "@
                || text == "final "@ || text == "static "@ || text == "synchronized "@ || text == "native "@
                || text == "strictfp "@ || text == "default "@
        },
        _ => false,
    }
}

/// Modifiers in front of a line.
pub open spec fn behind_modifiers(modifiers: Seq<Seq<char>>, line: Seq<char>) -> Seq<char>
    decreases modifiers.len(),
{
    if modifiers.len() == 0 {
        line
    } else {
        modifiers[0] + behind_modifiers(modifiers.skip(1), line)
    }
}

/// What a keyword of a language declares under a name, behind a line that marks a test or not.
pub open spec fn kind_declared(
    language: SourceLanguage,
    keyword: Seq<char>,
    name: Seq<char>,
    marked: bool,
) -> Option<ArtifactKind> {
    match language {
        SourceLanguage::Rust => {
            if keyword == "fn "@ {
                Some(if marked {
                    ArtifactKind::Test
                } else {
                    ArtifactKind::Symbol
                })
            } else if keyword == "struct "@ || keyword == "enum "@ || keyword == "trait "@ || keyword == "type "@ {
                Some(ArtifactKind::Symbol)
            } else if keyword == "mod "@ {
                Some(ArtifactKind::Module)
            } else {
                None
            }
        },
        SourceLanguage::TypeScriptJavaScript => {
            if keyword == "function "@ || keyword == "class "@ || keyword == "const "@ {
                Some(ArtifactKind::Symbol)
            } else if keyword == "interface "@ || keyword == "type "@ || keyword == "enum "@ {
                Some(ArtifactKind::Schema)
            } else {
                None
            }
        },
        SourceLanguage::Swift => {
            if keyword == "func "@ || keyword == "class "@ || keyword == "struct "@ {
                Some(if says_test(name) {
                    ArtifactKind::Test
                } else {
                    ArtifactKind::Symbol
                })
            } else if keyword == "enum "@ || keyword == "protocol "@ {
                Some(ArtifactKind::Schema)
            } else {
                None
            }
        },
        SourceLanguage::Kotlin => {
            if keyword == "fun "@ {
                Some(if marked {
                    ArtifactKind::Test
                } else {
                    ArtifactKind::Symbol
                })
            } else if keyword == "class "@ || keyword == "object "@ {
                Some(ArtifactKind::Symbol)
            } else if keyword == "interface "@ || keyword == "enum class "@ {
                Some(ArtifactKind::Schema)
            } else {
                None
            }
        },
        SourceLanguage::Java => {
            if keyword == "class "@ || keyword == "record "@ {
                Some(ArtifactKind::Symbol)
            } else if keyword == "interface "@ || keyword == "enum "@ || keyword == "@interface "@ {
                Some(ArtifactKind::Schema)
            } else {
                None
            }
        },
        _ => None,
    }
}

/// However many modifiers stand in front of a declaration, it declares the same.
pub proof fn modifiers_change_nothing(
    language: SourceLanguage,
    modifiers: Seq<Seq<char>>,
    line: Seq<char>,
    is_test: bool,
)
    requires
        forall|i: int| 0 <= i < modifiers.len() ==> is_modifier_of(language, #[trigger] modifiers[i]),
    ensures
        declaration_in(language, behind_modifiers(modifiers, line), is_test) == declaration_in(
            language,
            line,
            is_test,
        ),
    decreases modifiers.len(),
{
    if modifiers.len() > 0 {
        let rest = modifiers.skip(1);
        assert forall|i: int| 0 <= i < rest.len() implies is_modifier_of(language, #[trigger] rest[i]) by {
            assert(rest[i] == modifiers[i + 1]);
        }
        assert(is_modifier_of(language, modifiers[0]));
        modifiers_change_nothing(language, rest, line, is_test);
        let inner = behind_modifiers(rest, line);
        match language {
            SourceLanguage::Rust => rust_modifiers_change_nothing(inner, is_test),
            SourceLanguage::TypeScriptJavaScript => typescript_modifiers_change_nothing(inner, is_test),
            SourceLanguage::Swift => swift_modifiers_change_nothing(inner, is_test),
            SourceLanguage::Kotlin => kotlin_modifiers_change_nothing(inner, is_test),
            SourceLanguage::Java => java_modifiers_change_nothing(inner, is_test),
            _ => {},
        }
    }
}

/// Whether a line marks what follows it as a test.
pub open spec fn is_test_mark(language: SourceLanguage, line: Seq<char>) -> bool {
    match language {
        SourceLanguage::Rust => exists|rest: Seq<char>| line == #[trigger] ("#[test"@ + rest),
        SourceLanguage::Kotlin => line == "@Test"@,
        SourceLanguage::Java => line == "@Test"@,
        _ => false,
    }
}

proof fn marks_are_marks(language: SourceLanguage, line: Seq<char>)
    ensures
        marks_test(language, line) == is_test_mark(language, line),
{
    if language == SourceLanguage::Rust {
        if begins_with(line, "#[test"@) {
            let rest = line.skip("#[test"@.len() as int);
            assert(line =~= "#[test"@ + rest);
        }
        if is_test_mark(language, line) {
            let rest = choose|rest: Seq<char>| line == #[trigger] ("#[test"@ + rest);
            begins_with_its_front("#[test"@, rest);
        }
    }
}

proof fn keywords_declare(
    language: SourceLanguage,
    keyword: Seq<char>,
    name: Seq<char>,
    tail: Seq<char>,
    marked: bool,
)
    requires
        is_name(name),
        ends_name(tail),
        kind_declared(language, keyword, name, marked) is Some,
    ensures
        declaration_in(language, keyword + name + tail, marked) == Some(
            (kind_declared(language, keyword, name, marked)->Some_0, name),
        ),
{
    match language {
        SourceLanguage::Rust => rust_declarations_are_read(name, tail, marked),
        SourceLanguage::TypeScriptJavaScript => typescript_declarations_are_read(name, tail, marked),
        SourceLanguage::Swift => swift_declarations_are_read(name, tail, marked),
        SourceLanguage::Kotlin => kotlin_declarations_are_read(name, tail, marked),
        SourceLanguage::Java => java_declarations_are_read(name, tail, marked),
        _ => {},
    }
}

proof fn parts_are_in_the_whole<T>(parts: spec_fn(int) -> Seq<T>, count: nat, at: int, item: T)
    requires
        0 <= at < count,
        parts(at).contains(item),
    ensures
        concatenated(parts, count).contains(item),
    decreases count,
{
    let before = concatenated(parts, (count - 1) as nat);
    let last = parts(count - 1);
    let whole = concatenated(parts, count);
    if at < count - 1 {
        parts_are_in_the_whole(parts, (count - 1) as nat, at, item);
        let k = choose|k: int| 0 <= k < before.len() && before[k] == item;
        assert(whole[k] == item);
    } else {
        let k = choose|k: int| 0 <= k < last.len() && last[k] == item;
        assert(whole[before.len() + k] == item);
    }
}

/// Every declaration is discovered: a line of a source that is, behind its modifiers, a keyword of the
/// language and a name yields a discovery of what the keyword declares, under that name, with the
/// number of the line.
pub proof fn declarations_are_discovered(
    language: SourceLanguage,
    path: Seq<char>,
    text: Seq<char>,
    index: int,
    modifiers: Seq<Seq<char>>,
    keyword: Seq<char>,
    name: Seq<char>,
    tail: Seq<char>,
) -> (found: DiscoveryView)
    requires
        0 <= index < lines_of(text).len(),
        index < u32::MAX,
        forall|i: int| 0 <= i < modifiers.len() ==> is_modifier_of(language, #[trigger] modifiers[i]),
        is_name(name),
        ends_name(tail),
        trimmed(lines_of(text)[index]) == behind_modifiers(modifiers, keyword + name + tail),
        !is_test_mark(language, trimmed(lines_of(text)[index])),
        kind_declared(
            language,
            keyword,
            name,
            index > 0 && is_test_mark(language, trimmed(lines_of(text)[index - 1])),
        ) is Some,
    ensures
        discoveries(language, path, text).contains(found),
        Some(found.kind) == kind_declared(
            language,
            keyword,
            name,
            index > 0 && is_test_mark(language, trimmed(lines_of(text)[index - 1])),
        ),
        found.name == name,
        found.line == index + 1,
{
    let lines = lines_of(text);
    let line = trimmed(lines[index]);
    marks_are_marks(language, line);
    if index > 0 {
        marks_are_marks(language, trimmed(lines[index - 1]));
    }
    let marked = index > 0 && marks_test(language, trimmed(lines[index - 1]));
    keywords_declare(language, keyword, name, tail, marked);
    modifiers_change_nothing(language, modifiers, keyword + name + tail, marked);
    let parts = |at: int| line_discoveries(language, lines, at);
    let found = line_discoveries(language, lines, index)[0];
    assert(parts(index).contains(found));
    parts_are_in_the_whole(parts, lines.len(), index, found);
    found
}

proof fn wholes_are_made_of_parts<T>(parts: spec_fn(int) -> Seq<T>, count: nat, item: T) -> (at: int)
    requires
        concatenated(parts, count).contains(item),
    ensures
        0 <= at < count,
        parts(at).contains(item),
    decreases count,
{
    let before = concatenated(parts, (count - 1) as nat);
    let last = parts(count - 1);
    let whole = concatenated(parts, count);
    let k = choose|k: int| 0 <= k < whole.len() && whole[k] == item;
    if k < before.len() {
        assert(before[k] == item);
        wholes_are_made_of_parts(parts, (count - 1) as nat, item)
    } else {
        assert(last[k - before.len()] == item);
        count - 1
    }
}

/// Everything that is discovered in a source stands on the line whose number it has: it is declared
/// there, it is an endpoint that the line names, or a test that the line calls.
pub proof fn discoveries_stand_on_their_line(
    language: SourceLanguage,
    path: Seq<char>,
    text: Seq<char>,
    found: DiscoveryView,
) -> (index: int)
    requires
        language is Rust || language is TypeScriptJavaScript || language is Swift || language is Kotlin || language
            is Java,
        discoveries(language, path, text).contains(found),
    ensures
        0 <= index < lines_of(text).len(),
        index < u32::MAX ==> found.line == index + 1,
        ({
            let line = trimmed(lines_of(text)[index]);
            let marked = index > 0 && is_test_mark(language, trimmed(lines_of(text)[index - 1]));
            &&& !is_test_mark(language, line)
            &&& declaration_in(language, line, marked) == Some((found.kind, found.name)) || found.kind is Api
                && endpoints_of(line).contains(found.name) || found.kind is Test && language
                is TypeScriptJavaScript && test_call(line) == Some(found.name)
        }),
{
    let lines = lines_of(text);
    let parts = |at: int| line_discoveries(language, lines, at);
    let index = wholes_are_made_of_parts(parts, lines.len(), found);
    let line = trimmed(lines[index]);
    marks_are_marks(language, line);
    if index > 0 {
        marks_are_marks(language, trimmed(lines[index - 1]));
    }
    let all = line_discoveries(language, lines, index);
    let k = choose|k: int| 0 <= k < all.len() && all[k] == found;
    let keys = endpoints_of(line);
    let called = endpoint_discoveries(keys, numbered(index), line);
    let first = if declaration_in(
        language,
        line,
        index > 0 && marks_test(language, trimmed(lines[index - 1])),
    ) is Some {
        1int
    } else {
        0int
    };
    if first <= k < first + called.len() {
        assert(called[k - first] == found);
        assert(keys[k - first] == found.name);
    }
    index
}

/// Markup declares nothing.
pub proof fn markup_declares_nothing(path: Seq<char>, text: Seq<char>)
    ensures
        discoveries(SourceLanguage::Xml, path, text).len() == 0,
{
}

/// What a line of a Protocol Buffers source declares: messages and enums are Schemas, services and
/// calls are APIs.
pub proof fn proto_declarations_are_discovered(
    path: Seq<char>,
    text: Seq<char>,
    index: int,
    keyword: Seq<char>,
    name: Seq<char>,
    tail: Seq<char>,
) -> (found: DiscoveryView)
    requires
        0 <= index < lines_of(text).len(),
        index < u32::MAX,
        is_name(name),
        ends_name(tail),
        trimmed(lines_of(text)[index]) == keyword + name + tail,
        keyword == "message "@ || keyword == "enum "@ || keyword == "service "@ || keyword == "rpc "@,
    ensures
        discoveries(SourceLanguage::Proto, path, text).contains(found),
        found.kind == (if keyword == "message "@ || keyword == "enum "@ {
            ArtifactKind::Schema
        } else {
            ArtifactKind::Api
        }),
        found.name == name,
        found.line == index + 1,
        found.source == keyword + name + tail,
{
    reveal_strlit("message ");
    reveal_strlit("enum ");
    reveal_strlit("service ");
    reveal_strlit("rpc ");
    let lines = lines_of(text);
    let line = keyword + name + tail;
    assert(line =~= keyword + (name + tail));
    begins_with_its_front(keyword, name + tail);
    names_are_identifiers(name, tail);
    let parts = |at: int| proto_line(lines, at);
    let all = proto_line(lines, index);
    let a = proto_keyword(line, "message "@, ArtifactKind::Schema, numbered(index));
    let b = proto_keyword(line, "enum "@, ArtifactKind::Schema, numbered(index));
    let c = proto_keyword(line, "service "@, ArtifactKind::Api, numbered(index));
    let d = proto_keyword(line, "rpc "@, ArtifactKind::Api, numbered(index));
    assert(all == a + b + c + d);
    let found = if keyword == "message "@ {
        assert(all[0] == a[0]);
        a[0]
    } else if keyword == "enum "@ {
        assert(all[a.len() as int] == b[0]);
        b[0]
    } else if keyword == "service "@ {
        assert(all[(a.len() + b.len()) as int] == c[0]);
        c[0]
    } else {
        assert(all[(a.len() + b.len() + c.len()) as int] == d[0]);
        d[0]
    };
    assert(parts(index).contains(found));
    parts_are_in_the_whole(parts, lines.len(), index, found);
    found
}

/// The operations that an interface description can name, in any case.
pub proof fn operations_are_known(key: Seq<char>)
    ensures
        is_operation(key) <==> exists|at: int| 0 <= at < 7 && lowered(key) == #[trigger] operation_names()[at],
{
    let lower = lowered(key);
    let names = operation_names();
    if is_operation(key) {
        assert(lower == names[0] || lower == names[1] || lower == names[2] || lower == names[3] || lower == names[4]
            || lower == names[5] || lower == names[6]);
    }
}

/// The names of the operations.
pub open spec fn operation_names() -> Seq<Seq<char>> {
    seq!["get"@, "post"@, "put"@, "patch"@, "delete"@, "head"@, "options"@]
}

/// A YAML description opens its sections by their names, whatever came before.
pub proof fn sections_open_by_name(state: YamlState)
    ensures
        yaml_after(state, "paths:"@).section is Paths,
        yaml_after(state, "schemas:"@).section is Schemas,
        yaml_after(state, "components:"@).section is Components,
        yaml_discovery(state, "paths:"@, 1) is None,
        yaml_discovery(state, "schemas:"@, 1) is None,
        yaml_discovery(state, "components:"@, 1) is None,
{
    reveal_strlit("paths:");
    reveal_strlit("schemas:");
    reveal_strlit("components:");
    assert("paths:"@[0] == 'p' && "schemas:"@[0] == 's' && "components:"@[0] == 'c');
}

/// In the paths of a YAML description a key that is a route opens that route, and an operation below
/// it is an API at that route; nothing else there is discovered. Below its schemas every key is a
/// Schema. Elsewhere nothing is discovered.
pub proof fn yaml_keys_are_read_by_section(state: YamlState, key: Seq<char>, line: u32)
    requires
        key + ":"@ != "paths:"@,
        key + ":"@ != "schemas:"@,
        key + ":"@ != "components:"@,
    ensures
        state.section is Paths && key.len() > 0 && key[0] == '/' ==> yaml_after(state, key + ":"@).route == Some(key)
            && yaml_discovery(state, key + ":"@, line) is None,
        state.section is Paths && is_operation(key) && (key.len() == 0 || key[0] != '/') && state.route
            is Some ==> yaml_discovery(state, key + ":"@, line) == Some(
            DiscoveryView {
                kind: ArtifactKind::Api,
                name: state.route->Some_0,
                line,
                source: key + "("@ + state.route->Some_0 + ")"@,
            },
        ),
        state.section is Paths && (!is_operation(key) || state.route is None) ==> yaml_discovery(
            state,
            key + ":"@,
            line,
        ) is None,
        state.section is Schemas && key.len() > 0 ==> yaml_discovery(state, key + ":"@, line) == Some(
            DiscoveryView { kind: ArtifactKind::Schema, name: key, line, source: key },
        ),
        state.section is Other || state.section is Components ==> yaml_discovery(state, key + ":"@, line) is None,
        yaml_after(state, key + ":"@).section == state.section,
{
    reveal_strlit(":");
    reveal_strlit("/");
    let whole = key + ":"@;
    assert(whole.last() == ':');
    assert(whole.drop_last() =~= key);
    if key.len() > 0 && key[0] == '/' {
        assert(key.take(1) =~= "/"@);
    } else if begins_with(key, "/"@) {
        assert(key.take(1)[0] == key[0]);
    }
}

/// A line that is no key is not read at all.
pub proof fn other_yaml_lines_are_not_read(state: YamlState, line: Seq<char>, number: u32)
    requires
        line.len() == 0 || line.last() != ':',
    ensures
        yaml_discovery(state, line, number) is None,
        yaml_after(state, line) == state,
{
    reveal_strlit("paths:");
    reveal_strlit("schemas:");
    reveal_strlit("components:");
}

/// A YAML source is a Schema by its own name, and holds what its lines declare.
pub proof fn yaml_sources_are_schemas(path: Seq<char>, text: Seq<char>, index: int)
    requires
        0 <= index < lines_of(text).len(),
    ensures
        discoveries(SourceLanguage::Yaml, path, text).len() > 0,
        discoveries(SourceLanguage::Yaml, path, text)[0] == (DiscoveryView {
            kind: ArtifactKind::Schema,
            name: stem_of(path),
            line: 1,
            source: stem_of(path),
        }),
        yaml_discovery(
            yaml_state(lines_of(text), index as nat),
            trimmed(lines_of(text)[index]),
            numbered(index),
        ) matches Some(found) ==> discoveries(SourceLanguage::Yaml, path, text).contains(found),
        yaml_state(lines_of(text), (index + 1) as nat) == yaml_after(
            yaml_state(lines_of(text), index as nat),
            trimmed(lines_of(text)[index]),
        ),
        yaml_state(lines_of(text), 0).section is Other,
        index < u32::MAX ==> numbered(index) == index + 1,
{
    let lines = lines_of(text);
    let parts = |at: int| yaml_line(lines, at);
    let state = yaml_state(lines, index as nat);
    let rest = concatenated(parts, lines.len());
    let all = discoveries(SourceLanguage::Yaml, path, text);
    if let Some(found) = yaml_discovery(state, trimmed(lines[index]), numbered(index)) {
        assert(parts(index)[0] == found);
        assert(parts(index).contains(found));
        parts_are_in_the_whole(parts, lines.len(), index, found);
        let k = choose|k: int| 0 <= k < rest.len() && rest[k] == found;
        assert(all[k + 1] == found);
    }
}

/// An interface description in JSON is a Schema by the name that it gives itself, or else by its own
/// name; every operation of every route is an API, and every schema that it holds is a Schema.
pub proof fn outlines_are_discovered(
    path: Seq<char>,
    outline: JsonOutlineView,
    route: int,
    operation: int,
    schema: int,
)
    requires
        0 <= route < outline.routes.len(),
        0 <= operation < outline.routes[route].1.len(),
        0 <= schema < outline.schemas.len(),
    ensures
        ({
            let all = outline_discoveries(path, outline);
            let key = outline.routes[route].1[operation];
            &&& all[0].kind is Schema
            &&& all[0].name == (match outline.name {
                Some(name) => name,
                None => stem_of(path),
            })
            &&& is_operation(key) ==> all.contains(
                DiscoveryView {
                    kind: ArtifactKind::Api,
                    name: outline.routes[route].0,
                    line: 1,
                    source: key + "("@ + outline.routes[route].0 + ")"@,
                },
            )
            &&& all.contains(
                DiscoveryView {
                    kind: ArtifactKind::Schema,
                    name: outline.schemas[schema],
                    line: 1,
                    source: outline.schemas[schema],
                },
            )
        }),
{
    let all = outline_discoveries(path, outline);
    let parts = |i: int| operations_among(outline.routes[i].0, outline.routes[i].1);
    let rest = concatenated(parts, outline.routes.len());
    let (name, keys) = outline.routes[route];
    if is_operation(keys[operation]) {
        let found = route_discovery(keys[operation], name, 1);
        operations_are_found(name, keys, operation);
        assert(parts(route).contains(found));
        parts_are_in_the_whole(parts, outline.routes.len(), route, found);
        let k = choose|k: int| 0 <= k < rest.len() && rest[k] == found;
        assert(all[k + 1] == found);
    }
    let found = plain_discovery(ArtifactKind::Schema, outline.schemas[schema], 1);
    assert(schemas_named(outline.schemas)[schema] == found);
    assert(all[1 + rest.len() + schema] == found);
}

proof fn operations_are_found(route: Seq<char>, keys: Seq<Seq<char>>, at: int)
    requires
        0 <= at < keys.len(),
        is_operation(keys[at]),
    ensures
        operations_among(route, keys).contains(route_discovery(keys[at], route, 1)),
    decreases keys.len(),
{
    let shorter = keys.drop_last();
    let before = operations_among(route, shorter);
    let all = operations_among(route, keys);
    let found = route_discovery(keys[at], route, 1);
    if at < shorter.len() {
        operations_are_found(route, shorter, at);
        let k = choose|k: int| 0 <= k < before.len() && before[k] == found;
        assert(all[k] == found);
    } else {
        assert(all[before.len() as int] == found);
    }
}

/// A JSON document is named by its identity, or else by its title. Its routes and schemas are those
/// of an interface description only.
pub proof fn documents_are_outlined(text: Seq<char>)
    ensures
        json_outline(text) is None <==> document_level(text) is None,
        json_outline(text) matches Some(outline) ==> {
            &&& object_member(text, "$id"@) matches Some(value) ==> outline.name == string_content(value)
            &&& object_member(text, "$id"@) is None ==> (match object_member(text, "title"@) {
                Some(value) => outline.name == string_content(value),
                None => outline.name is None,
            })
            &&& object_member(text, "openapi"@) is None ==> outline.routes.len() == 0 && outline.schemas.len() == 0
            &&& outline.routes.len() > 0 ==> object_member(text, "paths"@) is Some
            &&& object_member(text, "openapi"@) is Some ==> {
                let components = object_member(text, "components"@);
                match components {
                    Some(inner) => match object_member(inner, "schemas"@) {
                        Some(schemas) => match object_members(schemas) {
                            Some(members) => outline.schemas.len() == members.len() && forall|i: int|
                                0 <= i < members.len() ==> outline.schemas[i] == (#[trigger] members[i]).0,
                            None => outline.schemas.len() == 0,
                        },
                        None => outline.schemas.len() == 0,
                    },
                    None => outline.schemas.len() == 0,
                }
            }
        },
        json_outline(text) is None ==> discoveries(SourceLanguage::Json, Seq::empty(), text).len() == 0,
{
}

/// Every path of an interface description with operations below it is a route with the keys of those
/// operations.
pub proof fn described_paths_are_routes(
    text: Seq<char>,
    paths: Seq<char>,
    members: Seq<(Seq<char>, Seq<char>)>,
    at: int,
)
    requires
        document_level(text) is Some,
        object_member(text, "openapi"@) is Some,
        object_member(text, "paths"@) == Some(paths),
        object_members(paths) == Some(members),
        0 <= at < members.len(),
        object_members(members[at].1) is Some,
    ensures
        json_outline(text) matches Some(outline) && exists|k: int|
            0 <= k < outline.routes.len() && (#[trigger] outline.routes[k]).0 == members[at].0 && outline.routes[k].1
                == member_keys(object_members(members[at].1)->Some_0),
{
    let k = routes_are_found(members, at);
    let outline = json_outline(text)->Some_0;
    assert(outline.routes == routes_among(members));
    assert(outline.routes[k].0 == members[at].0);
}

proof fn routes_are_found(members: Seq<(Seq<char>, Seq<char>)>, at: int) -> (place: int)
    requires
        0 <= at < members.len(),
        object_members(members[at].1) is Some,
    ensures
        0 <= place < routes_among(members).len(),
        routes_among(members)[place] == (members[at].0, member_keys(object_members(members[at].1)->Some_0)),
    decreases members.len(),
{
    let shorter = members.drop_last();
    if at < shorter.len() {
        routes_are_found(shorter, at)
    } else {
        routes_among(shorter).len() as int
    }
}

/// A member of an object is found under its name, and only there: the first of that name counts.
pub proof fn members_are_found(members: Seq<(Seq<char>, Seq<char>)>, key: Seq<char>, from: int)
    requires
        0 <= from <= members.len(),
    ensures
        match member_of(members, key, from) {
            Some(value) => exists|k: int|
                from <= k < members.len() && #[trigger] members[k] == (key, value) && forall|j: int|
                    from <= j < k ==> (#[trigger] members[j]).0 != key,
            None => forall|k: int| from <= k < members.len() ==> (#[trigger] members[k]).0 != key,
        },
    decreases members.len() - from,
{
    if from < members.len() {
        if members[from].0 == key {
            assert(members[from] == (key, members[from].1));
        } else {
            members_are_found(members, key, from + 1);
            if member_of(members, key, from + 1) is Some {
                let k = choose|k: int|
                    from + 1 <= k < members.len() && #[trigger] members[k] == (
                        key,
                        member_of(members, key, from + 1)->Some_0,
                    ) && forall|j: int| from + 1 <= j < k ==> (#[trigger] members[j]).0 != key;
                assert(members[k] == (key, member_of(members, key, from)->Some_0));
            }
        }
    }
}

/// Whether a text holds another one.
pub open spec fn holds(text: Seq<char>, part: Seq<char>) -> bool {
    exists|before: Seq<char>, after: Seq<char>| text == #[trigger] (before + part + after)
}

/// What occurs in a text stands between something and something else.
pub proof fn occurring_is_holding(text: Seq<char>, part: Seq<char>)
    ensures
        occurs_in(text, part) == holds(text, part),
{
    if occurs_in(text, part) {
        let at = choose|at: int| stands_at(text, part, at);
        assert(text =~= text.take(at) + part + text.skip(at + part.len()));
    }
    if holds(text, part) {
        let (before, after) = choose|before: Seq<char>, after: Seq<char>| text == #[trigger] (before + part + after);
        assert(text.subrange(before.len() as int, (before.len() + part.len()) as int) =~= part);
        assert(stands_at(text, part, before.len() as int));
    }
}

/// The words that show that a line speaks of endpoints.
pub open spec fn endpoint_words() -> Seq<Seq<char>> {
    seq!["fetch"@, "url"@, "route"@, "get("@, "post("@, "requestmapping"@, "endpoint"@]
}

/// A line speaks of endpoints exactly where one of those words stands in it, in any case.
pub proof fn lines_speak_of_endpoints(line: Seq<char>)
    ensures
        mentions_endpoint(line) <==> exists|at: int|
            0 <= at < 7 && holds(lowered(line), #[trigger] endpoint_words()[at]),
{
    let words = endpoint_words();
    let lower = lowered(line);
    assert forall|at: int| 0 <= at < 7 implies occurs_in(lower, #[trigger] words[at]) == holds(lower, words[at]) by {
        occurring_is_holding(lower, words[at]);
    }
    if mentions_endpoint(line) {
        assert(occurs_in(lower, words[0]) || occurs_in(lower, words[1]) || occurs_in(lower, words[2]) || occurs_in(
            lower,
            words[3],
        ) || occurs_in(lower, words[4]) || occurs_in(lower, words[5]) || occurs_in(lower, words[6]));
    }
}

/// Whether a quoted value is an endpoint: it begins with a slash, or names a protocol.
pub open spec fn names_endpoint(value: Seq<char>) -> bool {
    value.len() > 0 && value[0] == '/' || holds(value, "://"@)
}

proof fn endpoints_are_named(value: Seq<char>)
    ensures
        is_endpoint(value) == names_endpoint(value),
{
    reveal_strlit("/");
    occurring_is_holding(value, "://"@);
    if value.len() > 0 && value[0] == '/' {
        assert(value.take(1) =~= "/"@);
    } else if begins_with(value, "/"@) {
        assert(value.take(1)[0] == value[0]);
    }
}

/// The endpoints of a line are its quoted values that name one, on a line that speaks of endpoints:
/// each of them, in normal form, and nothing else.
pub proof fn endpoints_are_quoted(line: Seq<char>, at: int)
    requires
        0 <= at < quoted_from(line, 0).len(),
    ensures
        mentions_endpoint(line) && names_endpoint(quoted_from(line, 0)[at]) ==> endpoints_of(line).contains(
            normal_key(quoted_from(line, 0)[at]),
        ),
        !mentions_endpoint(line) ==> endpoints_of(line).len() == 0,
{
    endpoints_are_named(quoted_from(line, 0)[at]);
    if names_endpoint(quoted_from(line, 0)[at]) {
        endpoints_are_kept(quoted_from(line, 0), at);
    }
}

proof fn endpoints_are_kept(values: Seq<Seq<char>>, at: int)
    requires
        0 <= at < values.len(),
        is_endpoint(values[at]),
    ensures
        endpoints_among(values).contains(normal_key(values[at])),
    decreases values.len(),
{
    let shorter = values.drop_last();
    let before = endpoints_among(shorter);
    if at < shorter.len() {
        endpoints_are_kept(shorter, at);
        let k = choose|k: int| 0 <= k < before.len() && before[k] == normal_key(values[at]);
        assert(endpoints_among(values)[k] == normal_key(values[at]));
    } else {
        assert(endpoints_among(values)[before.len() as int] == normal_key(values[at]));
    }
}

/// An endpoint comes from a quoted value that names one.
pub proof fn endpoints_come_from_quotes(values: Seq<Seq<char>>, key: Seq<char>)
    requires
        endpoints_among(values).contains(key),
    ensures
        exists|at: int|
            0 <= at < values.len() && names_endpoint(#[trigger] values[at]) && key == normal_key(values[at]),
    decreases values.len(),
{
    let shorter = values.drop_last();
    let before = endpoints_among(shorter);
    if values.len() > 0 {
        endpoints_are_named(values.last());
        let all = endpoints_among(values);
        let k = choose|k: int| 0 <= k < all.len() && all[k] == key;
        if k < before.len() {
            assert(before[k] == key);
            endpoints_come_from_quotes(shorter, key);
            let at = choose|at: int|
                0 <= at < shorter.len() && names_endpoint(#[trigger] shorter[at]) && key == normal_key(shorter[at]);
            assert(names_endpoint(values[at]));
        } else {
            assert(names_endpoint(values[values.len() - 1]));
        }
    }
}

/// An endpoint in normal form has no white space at its ends and no slash at its end, unless it is
/// only a slash. Normal forms stay as they are.
pub proof fn normal_forms_are_normal(value: Seq<char>) -> (slashes: Seq<char>)
    ensures
        normal_key(value).len() > 1 ==> normal_key(value).last() != '/',
        trimmed(value) == normal_key(value) + slashes,
        forall|i: int| 0 <= i < slashes.len() ==> slashes[i] == '/',
        trimmed(value).len() > 0 ==> normal_key(value).len() > 0,
{
    slashes_are_dropped(trimmed(value))
}

proof fn slashes_are_dropped(value: Seq<char>) -> (slashes: Seq<char>)
    ensures
        without_slashes(value).len() > 1 ==> without_slashes(value).last() != '/',
        value.len() > 0 ==> without_slashes(value).len() > 0,
        value == without_slashes(value) + slashes,
        forall|i: int| 0 <= i < slashes.len() ==> slashes[i] == '/',
    decreases value.len(),
{
    if value.len() > 1 && value.last() == '/' {
        let slashes = slashes_are_dropped(value.drop_last());
        let more = slashes.push('/');
        assert(value.drop_last() == without_slashes(value) + slashes);
        assert(value =~= value.drop_last().push('/'));
        assert(value =~= without_slashes(value) + more);
        more
    } else {
        assert(value =~= value + Seq::<char>::empty());
        Seq::empty()
    }
}

/// A test is called by `test`, `it` or `describe`, in any case, and goes by the first quoted value.
pub proof fn tests_are_called(line: Seq<char>, rest: Seq<char>)
    ensures
        (lowered(line) == "test("@ + rest || lowered(line) == "it("@ + rest || lowered(line) == "describe("@ + rest)
            && quoted_from(line, 0).len() > 0 ==> test_call(line) == Some(quoted_from(line, 0)[0]),
        test_call(line) is Some ==> test_call(line) == Some(quoted_from(line, 0)[0]) && (begins_with(
            lowered(line),
            "test("@,
        ) || begins_with(lowered(line), "it("@) || begins_with(lowered(line), "describe("@)),
{
    begins_with_its_front("test("@, rest);
    begins_with_its_front("it("@, rest);
    begins_with_its_front("describe("@, rest);
}

/// Test calls are discovered in TypeScript and JavaScript.
pub proof fn called_tests_are_discovered(path: Seq<char>, text: Seq<char>, index: int) -> (found: DiscoveryView)
    requires
        0 <= index < lines_of(text).len(),
        test_call(trimmed(lines_of(text)[index])) is Some,
    ensures
        discoveries(SourceLanguage::TypeScriptJavaScript, path, text).contains(found),
        found.kind is Test,
        Some(found.name) == test_call(trimmed(lines_of(text)[index])),
        index < u32::MAX ==> found.line == index + 1,
{
    let lines = lines_of(text);
    let parts = |at: int| line_discoveries(SourceLanguage::TypeScriptJavaScript, lines, at);
    let all = parts(index);
    let found = all.last();
    assert(all[all.len() - 1] == found);
    parts_are_in_the_whole(parts, lines.len(), index, found);
    found
}

/// The endpoints of a line are discovered as APIs in every programming language, with its number.
pub proof fn named_endpoints_are_discovered(
    language: SourceLanguage,
    path: Seq<char>,
    text: Seq<char>,
    index: int,
    at: int,
) -> (found: DiscoveryView)
    requires
        language is Rust || language is TypeScriptJavaScript || language is Swift || language is Kotlin || language
            is Java,
        0 <= index < lines_of(text).len(),
        !is_test_mark(language, trimmed(lines_of(text)[index])),
        0 <= at < endpoints_of(trimmed(lines_of(text)[index])).len(),
    ensures
        discoveries(language, path, text).contains(found),
        found.kind is Api,
        found.name == endpoints_of(trimmed(lines_of(text)[index]))[at],
        found.source == trimmed(lines_of(text)[index]),
        index < u32::MAX ==> found.line == index + 1,
{
    let lines = lines_of(text);
    let line = trimmed(lines[index]);
    marks_are_marks(language, line);
    let parts = |at: int| line_discoveries(language, lines, at);
    let all = parts(index);
    let called = endpoint_discoveries(endpoints_of(line), numbered(index), line);
    let found = called[at];
    if declaration_in(language, line, index > 0 && marks_test(language, trimmed(lines[index - 1]))) is Some {
        assert(all[1 + at] == found);
    } else {
        assert(all[at] == found);
    }
    parts_are_in_the_whole(parts, lines.len(), index, found);
    found
}

/// The operation of an endpoint is told by the call around it: the first of these that it holds, and
/// any operation where it holds none.
pub proof fn operations_are_told_by_the_call(source: Seq<char>)
    ensures
        ({
            let lower = lowered(source);
            let (post, put, patch, delete, get, fetch, rpc) = (
                holds(lower, "post("@),
                holds(lower, "put("@),
                holds(lower, "patch("@),
                holds(lower, "delete("@),
                holds(lower, "get("@),
                holds(lower, "fetch"@),
                holds(lower, "rpc "@),
            );
            &&& post ==> operation_of(source) == "POST"@
            &&& !post && put ==> operation_of(source) == "PUT"@
            &&& !post && !put && patch ==> operation_of(source) == "PATCH"@
            &&& !post && !put && !patch && delete ==> operation_of(source) == "DELETE"@
            &&& !post && !put && !patch && !delete && (get || fetch) ==> operation_of(source) == "GET"@
            &&& !post && !put && !patch && !delete && !get && !fetch && rpc ==> operation_of(source) == "RPC"@
            &&& !post && !put && !patch && !delete && !get && !fetch && !rpc ==> operation_of(source) == "ANY"@
            &&& rpc ==> protocol_of(source) == "grpc"@
            &&& !rpc ==> protocol_of(source) == "http"@
        }),
{
    let lower = lowered(source);
    occurring_is_holding(lower, "post("@);
    occurring_is_holding(lower, "put("@);
    occurring_is_holding(lower, "patch("@);
    occurring_is_holding(lower, "delete("@);
    occurring_is_holding(lower, "get("@);
    occurring_is_holding(lower, "fetch"@);
    occurring_is_holding(lower, "rpc "@);
}

/// A version is a `v` and digits that the source holds; a source without one is unversioned.
pub proof fn versions_are_spelled(source: Seq<char>)
    ensures
        version_of(source) == "unversioned"@ || version_of(source).len() > 0 && version_of(source)[0] == 'v'
            && forall|i: int| 1 <= i < version_of(source).len() ==> 48 <= #[trigger] version_of(source)[i] as u32 <= 57,
        forall|at: int|
            0 <= at < version_parts(source).len() && is_version(#[trigger] version_parts(source)[at]) ==> version_of(
                source,
            ) != "unversioned"@,
{
    reveal_strlit("unversioned");
    versions_are_found(version_parts(source), 0);
    if first_version(version_parts(source), 0) is Some {
        assert(version_of(source)[0] == 'v' && "unversioned"@[0] == 'u');
    }
}

proof fn versions_are_found(parts: Seq<Seq<char>>, from: int)
    requires
        0 <= from <= parts.len(),
    ensures
        match first_version(parts, from) {
            Some(version) => is_version(version) && exists|k: int|
                from <= k < parts.len() && #[trigger] parts[k] == version && forall|j: int|
                    from <= j < k ==> !is_version(#[trigger] parts[j]),
            None => forall|k: int| from <= k < parts.len() ==> !is_version(#[trigger] parts[k]),
        },
    decreases parts.len() - from,
{
    if from < parts.len() && !is_version(parts[from]) {
        versions_are_found(parts, from + 1);
    }
}

/// A signature holds neither a brace nor an equals sign of its line: it is the words of what stands
/// before the first of them.
pub proof fn signatures_end_at_the_body(head: Seq<char>, rest: Seq<char>)
    requires
        forall|i: int| 0 <= i < head.len() ==> #[trigger] head[i] != '{' && head[i] != '=',
        rest.len() > 0 ==> rest[0] == '{' || rest[0] == '=',
    ensures
        signature_head(head + rest) == head,
    decreases head.len(),
{
    let whole = head + rest;
    if head.len() > 0 {
        assert(whole[0] == head[0]);
        assert(whole.skip(1) =~= head.skip(1) + rest);
        assert forall|i: int| 0 <= i < head.skip(1).len() implies #[trigger] head.skip(1)[i] != '{' && head.skip(
            1,
        )[i] != '=' by {
            assert(head.skip(1)[i] == head[i + 1]);
        }
        signatures_end_at_the_body(head.skip(1), rest);
        assert(seq![whole[0]] + head.skip(1) =~= head);
    } else {
        assert(whole =~= rest);
        assert(signature_head(whole) =~= head);
    }
}

/// A signature is made of the words of the first line of a source up to its body, one space apart.
pub proof fn signatures_are_the_first_line(source: Seq<char>)
    ensures
        lines_of(source).len() > 0 ==> signature_of(source) == joined_by(
            words(signature_head(lines_of(source)[0])),
            " "@,
        ),
{
}

/// The source of a declaration begins with its own line, and is that line alone where no brace opens.
pub proof fn sources_begin_with_their_line(lines: Seq<Seq<char>>, at: int, left: nat)
    requires
        0 <= at < lines.len(),
        left > 0,
    ensures
        ({
            let source = source_from(lines, at, left, 0, false);
            let first = lines[at] + "\n"@;
            &&& source.len() >= first.len()
            &&& source.take(first.len() as int) == first
            &&& !lines[at].contains('{') ==> source == first
            &&& occurrences(lines[at], '{') <= occurrences(lines[at], '}') ==> source == first
        }),
{
    let source = source_from(lines, at, left, 0, false);
    let first = lines[at] + "\n"@;
    assert(source.take(first.len() as int) =~= first);
    if !lines[at].contains('{') || occurrences(lines[at], '{') <= occurrences(lines[at], '}') {
        assert(source =~= first);
    }
}

} // verus!
