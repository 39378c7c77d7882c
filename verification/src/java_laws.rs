//! What holds of the lines that declare a Java method.

use vstd::prelude::*;

use crate::checks::words;
use crate::extract::{
    comment_open, declaring_words, in_type, is_control_word, is_modifier_word, is_statement_word, is_type_word,
    java_method, occurrences, reads_as_type,
};
use crate::lexical::{first_position, identifier_of, is_alphabetic_character, is_alphanumeric_character};
use crate::text::{begins_with, finishes_with, joined_by};

verus! {

/// A word that can stand in a type without further marks: letters only, and no word that begins or
/// belongs to a statement.
pub open spec fn is_plain_type(word: Seq<char>) -> bool {
    &&& word.len() > 0
    &&& forall|i: int| 0 <= i < word.len() ==> is_alphabetic_character(#[trigger] word[i]) && (word[i] as u32) < 128
    &&& !statement_words().contains(word)
}

/// The words of Java's statements.
pub open spec fn statement_words() -> Seq<Seq<char>> {
    seq![
        "return"@, "throw"@, "new"@, "else"@, "case"@, "do"@, "try"@, "finally"@, "assert"@, "yield"@, "if"@,
        "for"@, "while"@, "switch"@, "catch"@, "instanceof"@, "break"@, "continue"@, "import"@, "package"@,
    ]
}

/// The words that modify a Java method.
pub open spec fn method_modifiers() -> Seq<Seq<char>> {
    seq![
        "public"@, "protected"@, "private"@, "static"@, "final"@, "abstract"@, "default"@, "native"@,
        "synchronized"@, "strictfp"@,
    ]
}

/// The words that a method cannot have for its name.
pub open spec fn reserved_names() -> Seq<Seq<char>> {
    seq!["if"@, "for"@, "while"@, "switch"@, "catch"@, "return"@, "new"@, "synchronized"@]
}

/// Only a line that ends in a body or a semicolon declares a method, whose name stands before the first
/// bracket, is no reserved word, and has a type before it.
pub proof fn methods_are_typed_names(line: Seq<char>) -> (at: int)
    requires
        java_method(line) is Some,
    ensures
        0 <= at < line.len(),
        line[at] == '(',
        forall|i: int| 0 <= i < at ==> line[i] != '(',
        line.last() == '{' || line.last() == ';',
        words(line.take(at)).len() >= 2,
        words(line.take(at)).last() == java_method(line)->Some_0,
        !reserved_names().contains(java_method(line)->Some_0),
        reads_as_type(declaring_words(words(line.take(at)).drop_last())),
{
    let at = first_position(line, '(', 0)->Some_0;
    let name = java_method(line)->Some_0;
    first_positions_are_first(line, '(', 0);
    let reserved = reserved_names();
    if reserved.contains(name) {
        let k = choose|k: int| 0 <= k < reserved.len() && reserved[k] == name;
        assert(k == 0 || k == 1 || k == 2 || k == 3 || k == 4 || k == 5 || k == 6 || k == 7);
    }
    at
}

proof fn first_positions_are_first(text: Seq<char>, character: char, from: int)
    requires
        0 <= from,
        first_position(text, character, from) is Some,
    ensures
        from <= first_position(text, character, from)->Some_0 < text.len(),
        text[first_position(text, character, from)->Some_0] == character,
        forall|i: int| from <= i < first_position(text, character, from)->Some_0 ==> text[i] != character,
    decreases text.len() - from,
{
    if text[from] != character {
        first_positions_are_first(text, character, from + 1);
    }
}

proof fn first_positions_are_found(text: Seq<char>, character: char, from: int, at: int)
    requires
        0 <= from <= at < text.len(),
        text[at] == character,
        forall|i: int| from <= i < at ==> text[i] != character,
    ensures
        first_position(text, character, from) == Some(at),
    decreases at - from,
{
    if from < at {
        first_positions_are_found(text, character, from + 1, at);
    }
}

/// A type is made of letters, digits and the marks of Java's types, holds no word of a statement and does
/// not end in a modifier or an annotation; its angle brackets are as many opened as closed.
pub proof fn types_have_no_statements(parts: Seq<Seq<char>>, at: int, inner: int)
    requires
        reads_as_type(parts),
        0 <= at < parts.len(),
    ensures
        !statement_words().contains(parts[at]),
        !method_modifiers().contains(parts.last()),
        parts.last()[0] != '@',
        0 <= inner < parts[at].len() ==> is_alphanumeric_character(parts[at][inner]) || "_$.<>,[]?&@"@.contains(
            parts[at][inner],
        ),
        occurrences(joined_by(parts, " "@), '<') == occurrences(joined_by(parts, " "@), '>'),
{
    assert(is_type_word(parts[at]));
    let statements = statement_words();
    if statements.contains(parts[at]) {
        let k = choose|k: int| 0 <= k < statements.len() && statements[k] == parts[at];
        assert(k == 0 || k == 1 || k == 2 || k == 3 || k == 4 || k == 5 || k == 6 || k == 7 || k == 8 || k == 9
            || k == 10 || k == 11 || k == 12 || k == 13 || k == 14 || k == 15 || k == 16 || k == 17 || k == 18 || k
            == 19);
    }
    let modifiers = method_modifiers();
    if modifiers.contains(parts.last()) {
        let k = choose|k: int| 0 <= k < modifiers.len() && modifiers[k] == parts.last();
        assert(k == 0 || k == 1 || k == 2 || k == 3 || k == 4 || k == 5 || k == 6 || k == 7 || k == 8 || k == 9);
    }
    if 0 <= inner < parts[at].len() {
        let character = parts[at][inner];
        assert(in_type(character));
        reveal_strlit("_$.<>,[]?&@");
        let marks = "_$.<>,[]?&@"@;
        assert(marks[0] == '_' && marks[1] == '$' && marks[2] == '.' && marks[3] == '<' && marks[4] == '>' && marks[5]
            == ',' && marks[6] == '[' && marks[7] == ']' && marks[8] == '?' && marks[9] == '&' && marks[10] == '@');
    }
}

/// A name behind a type, with any of the modifiers before it, is the name of a method.
pub proof fn typed_names_are_methods(before: Seq<Seq<char>>, name: Seq<char>, line: Seq<char>, at: int)
    requires
        0 <= at < line.len(),
        line[at] == '(',
        forall|i: int| 0 <= i < at ==> line[i] != '(',
        line.last() == '{' || line.last() == ';',
        words(line.take(at)) == before.push(name),
        before.len() > 0,
        forall|i: int| 0 <= i < before.len() ==> is_plain_type(#[trigger] before[i]),
        !method_modifiers().contains(before.last()),
        identifier_of(name) == Some(name),
        is_alphabetic_character(name[0]) || name[0] == '_',
        !reserved_names().contains(name),
    ensures
        java_method(line) == Some(name),
{
    first_positions_are_found(line, '(', 0, at);
    assert(before.push(name).drop_last() =~= before);
    plain_words_declare(before);
    plain_words_have_no_brackets(before);
    assert forall|i: int| 0 <= i < before.len() implies is_type_word(#[trigger] before[i]) by {
        plain_words_are_types(before[i]);
    }
    plain_words_are_types(before[0]);
    plain_words_are_types(before.last());
    let modifiers = method_modifiers();
    let reserved = reserved_names();
    assert(modifiers[0] == "public"@ && modifiers[1] == "protected"@ && modifiers[2] == "private"@ && modifiers[3]
        == "static"@ && modifiers[4] == "final"@ && modifiers[5] == "abstract"@ && modifiers[6] == "default"@
        && modifiers[7] == "native"@ && modifiers[8] == "synchronized"@ && modifiers[9] == "strictfp"@);
    assert(reserved[0] == "if"@ && reserved[1] == "for"@ && reserved[2] == "while"@ && reserved[3] == "switch"@
        && reserved[4] == "catch"@ && reserved[5] == "return"@ && reserved[6] == "new"@ && reserved[7]
        == "synchronized"@);
    assert(!is_modifier_word(before.last()));
    assert(!is_control_word(name));
}

proof fn plain_words_are_types(word: Seq<char>)
    requires
        is_plain_type(word),
    ensures
        is_type_word(word),
        is_alphanumeric_character(word.last()),
        word[0] != '@',
        !begins_with(word, "/*"@),
        word != "}"@,
{
    let s = statement_words();
    assert(s[0] == "return"@ && s[1] == "throw"@ && s[2] == "new"@ && s[3] == "else"@ && s[4] == "case"@ && s[5]
        == "do"@ && s[6] == "try"@ && s[7] == "finally"@ && s[8] == "assert"@ && s[9] == "yield"@);
    assert(s[10] == "if"@ && s[11] == "for"@ && s[12] == "while"@ && s[13] == "switch"@ && s[14] == "catch"@ && s[15]
        == "instanceof"@ && s[16] == "break"@ && s[17] == "continue"@ && s[18] == "import"@ && s[19] == "package"@);
    assert(!is_statement_word(word));
    assert(is_alphabetic_character(word[0]));
    assert(is_alphabetic_character(word.last()));
    reveal_strlit("&&");
    reveal_strlit("}");
    reveal_strlit("/*");
    if word == "&&"@ {
        assert(word[0] == '&');
    }
    if word == "}"@ {
        assert(word[0] == '}');
    }
    if begins_with(word, "/*"@) {
        assert(word.take(2)[0] == '/');
    }
    assert forall|i: int| 0 <= i < word.len() implies in_type(#[trigger] word[i]) by {
        assert(is_alphabetic_character(word[i]));
    }
}

proof fn plain_words_declare(before: Seq<Seq<char>>)
    requires
        forall|i: int| 0 <= i < before.len() ==> is_plain_type(#[trigger] before[i]),
    ensures
        !comment_open(before),
        declaring_words(before) == before,
    decreases before.len(),
{
    if before.len() > 0 {
        let rest = before.drop_last();
        assert forall|i: int| 0 <= i < rest.len() implies is_plain_type(#[trigger] rest[i]) by {
            assert(rest[i] == before[i]);
        }
        plain_words_declare(rest);
        plain_words_are_types(before.last());
        assert(rest.push(before.last()) =~= before);
    }
}

proof fn texts_without_a_character(text: Seq<char>, character: char)
    requires
        forall|i: int| 0 <= i < text.len() ==> #[trigger] text[i] != character,
    ensures
        occurrences(text, character) == 0,
    decreases text.len(),
{
    if text.len() > 0 {
        let rest = text.drop_last();
        assert forall|i: int| 0 <= i < rest.len() implies #[trigger] rest[i] != character by {
            assert(rest[i] == text[i]);
        }
        texts_without_a_character(rest, character);
    }
}

proof fn plain_words_have_no_brackets(before: Seq<Seq<char>>)
    requires
        forall|i: int| 0 <= i < before.len() ==> is_plain_type(#[trigger] before[i]),
    ensures
        occurrences(joined_by(before, " "@), '<') == 0,
        occurrences(joined_by(before, " "@), '>') == 0,
        forall|k: int|
            0 <= k < joined_by(before, " "@).len() ==> #[trigger] joined_by(before, " "@)[k] != '<' && joined_by(
                before,
                " "@,
            )[k] != '>',
    decreases before.len(),
{
    reveal_strlit(" ");
    let whole = joined_by(before, " "@);
    if before.len() > 0 {
        let rest = before.drop_last();
        let last = before.last();
        assert forall|i: int| 0 <= i < rest.len() implies is_plain_type(#[trigger] rest[i]) by {
            assert(rest[i] == before[i]);
        }
        plain_words_have_no_brackets(rest);
        let front = joined_by(rest, " "@);
        assert(is_plain_type(before[before.len() - 1]));
        assert forall|k: int| 0 <= k < whole.len() implies #[trigger] whole[k] != '<' && whole[k] != '>' by {
            if before.len() == 1 {
                assert(whole[k] == last[k]);
                assert(is_alphabetic_character(last[k]));
            } else if k < front.len() {
                assert(whole[k] == front[k]);
            } else if k > front.len() {
                assert(whole[k] == last[k - front.len() - 1]);
                assert(is_alphabetic_character(last[k - front.len() - 1]));
            }
        }
    }
    texts_without_a_character(whole, '<');
    texts_without_a_character(whole, '>');
}

/// A comment between the words of a declaration is passed over, whether it is one word or several, and so
/// is the bracket that closes what came before.
pub proof fn comments_are_passed_over(before: Seq<Seq<char>>, comment: Seq<char>, inside: Seq<char>, end: Seq<char>)
    requires
        !comment_open(before),
        !finishes_with(inside, "*/"@),
        finishes_with(end, "*/"@),
    ensures
        begins_with(comment, "/*"@) ==> declaring_words(before.push(comment)) == declaring_words(before),
        begins_with(comment, "/*"@) && comment.len() >= 4 && finishes_with(comment, "*/"@) ==> !comment_open(
            before.push(comment),
        ),
        begins_with(comment, "/*"@) && (comment.len() < 4 || !finishes_with(comment, "*/"@)) ==> {
            &&& comment_open(before.push(comment))
            &&& comment_open(before.push(comment).push(inside))
            &&& !comment_open(before.push(comment).push(inside).push(end))
            &&& declaring_words(before.push(comment).push(inside).push(end)) == declaring_words(before)
        },
        !begins_with(comment, "/*"@) && comment != "}"@ ==> !comment_open(before.push(comment)) && declaring_words(
            before.push(comment),
        ) == declaring_words(before).push(comment),
        declaring_words(Seq::<Seq<char>>::empty().push("}"@)).len() == 0,
{
    let a = before.push(comment);
    let b = a.push(inside);
    let c = b.push(end);
    assert(a.drop_last() =~= before && b.drop_last() =~= a && c.drop_last() =~= b);
    if begins_with(comment, "/*"@) && (comment.len() < 4 || !finishes_with(comment, "*/"@)) {
        assert(comment_open(a));
        assert(declaring_words(a) == declaring_words(before));
        assert(comment_open(b));
        assert(declaring_words(b) == declaring_words(a));
        assert(!comment_open(c));
        assert(declaring_words(c) == declaring_words(b));
    }
    let nothing = Seq::<Seq<char>>::empty();
    let alone = nothing.push("}"@);
    assert(alone.drop_last() =~= nothing);
    assert(!comment_open(nothing));
    assert(declaring_words(nothing).len() == 0);
    assert(declaring_words(alone) == declaring_words(nothing));
}

} // verus!
