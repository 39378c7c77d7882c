//! Bounded lightweight extraction of declarations, endpoints and schemas from source text.

use vstd::prelude::*;

use crate::checks::{split_words, words};
use crate::engineering::ArtifactKind;
use crate::lexical::{
    concatenated, find_first, first_position, identifier, identifier_of, is_alphabetic_character,
    is_alphanumeric_character, lines_of, quoted_from, quoted_values, rest_after, split_lines, strip_prefixes,
    stripped, trim_text, trimmed,
};
use crate::json::{document_level, read_level, JsonLevel, JsonLevelView};
use crate::sources::{file_stem, stem_of, SourceLanguage};
use crate::text::{
    alphanumeric, begins_with, characters, digit, finishes_with, has_part, has_prefix, has_suffix,
    is_ascii_alphanumeric_character, is_digit, join_texts, joined4, joined_by, lower_text, lowered, occurs_in,
    same_text, text_of,
};
use crate::value::{push_value, take_next, Value};

verus! {

/// One thing that a source declares or calls.
#[derive(Clone, Debug, PartialEq, Eq)]
pub struct Discovery {
    pub kind: ArtifactKind,
    pub name: String,
    pub line: u32,
    pub source: String,
}

/// The model of [`Discovery`].
pub struct DiscoveryView {
    pub kind: ArtifactKind,
    pub name: Seq<char>,
    pub line: u32,
    pub source: Seq<char>,
}

impl DeepView for Discovery {
    type V = DiscoveryView;

    open spec fn deep_view(&self) -> DiscoveryView {
        DiscoveryView {
            kind: self.kind.deep_view(),
            name: self.name.deep_view(),
            line: self.line.deep_view(),
            source: self.source.deep_view(),
        }
    }
}

impl Value for Discovery {
    fn copied(&self) -> (copy: Self) {
        Discovery {
            kind: self.kind.copied(),
            name: self.name.copied(),
            line: self.line.copied(),
            source: self.source.copied(),
        }
    }

    fn same(&self, other: &Self) -> (equal: bool) {
        self.kind.same(&other.kind)
            && self.name.same(&other.name)
            && self.line.same(&other.line)
            && self.source.same(&other.source)
    }
}

/// The number of the line at an index, as far as it can be counted.
pub open spec fn numbered(index: int) -> u32 {
    if index + 1 <= u32::MAX {
        (index + 1) as u32
    } else {
        u32::MAX
    }
}

fn line_number(index: usize) -> (line: u32)
    ensures
        line == numbered(index as int),
{
    if index < u32::MAX as usize {
        (index + 1) as u32
    } else {
        u32::MAX
    }
}

/// Modifiers that may stand in front of a declaration.
pub open spec fn modifier_texts(language: SourceLanguage) -> Seq<Seq<char>> {
    match language {
        SourceLanguage::Rust => seq!["pub "@, "pub(crate) "@, "async "@, "unsafe "@],
        SourceLanguage::TypeScriptJavaScript => seq!["export "@, "default "@, "declare "@, "async "@],
        SourceLanguage::Swift => seq!["public "@, "private "@, "internal "@, "open "@, "static "@],
        SourceLanguage::Kotlin => seq![
            "public "@,
            "private "@,
            "internal "@,
            "protected "@,
            "suspend "@,
            "data "@,
        ],
        SourceLanguage::Java => seq![
            "public "@,
            "private "@,
            "protected "@,
            "abstract "@,
            "final "@,
            "static "@,
            "synchronized "@,
            "native "@,
            "strictfp "@,
            "default "@,
        ],
        _ => Seq::empty(),
    }
}

fn modifiers(language: SourceLanguage) -> (texts: Vec<&'static str>)
    ensures
        texts.deep_view() == modifier_texts(language),
{
    let texts: Vec<&'static str> = match language {
        SourceLanguage::Rust => vec!["pub ", "pub(crate) ", "async ", "unsafe "],
        SourceLanguage::TypeScriptJavaScript => vec!["export ", "default ", "declare ", "async "],
        SourceLanguage::Swift => vec!["public ", "private ", "internal ", "open ", "static "],
        SourceLanguage::Kotlin => vec!["public ", "private ", "internal ", "protected ", "suspend ", "data "],
        SourceLanguage::Java => vec![
            "public ",
            "private ",
            "protected ",
            "abstract ",
            "final ",
            "static ",
            "synchronized ",
            "native ",
            "strictfp ",
            "default ",
        ],
        _ => Vec::new(),
    };
    assert(texts.deep_view() =~= modifier_texts(language));
    texts
}

/// Keywords that introduce declarations, with the kind of Artifact that each declares.
pub open spec fn keyword_patterns(language: SourceLanguage, is_test: bool) -> Seq<(Seq<char>, ArtifactKind)> {
    let function = if is_test {
        ArtifactKind::Test
    } else {
        ArtifactKind::Symbol
    };
    match language {
        SourceLanguage::Rust => seq![
            ("fn "@, function),
            ("struct "@, ArtifactKind::Symbol),
            ("enum "@, ArtifactKind::Symbol),
            ("trait "@, ArtifactKind::Symbol),
            ("type "@, ArtifactKind::Symbol),
            ("mod "@, ArtifactKind::Module),
        ],
        SourceLanguage::TypeScriptJavaScript => seq![
            ("function "@, ArtifactKind::Symbol),
            ("class "@, ArtifactKind::Symbol),
            ("interface "@, ArtifactKind::Schema),
            ("type "@, ArtifactKind::Schema),
            ("enum "@, ArtifactKind::Schema),
            ("const "@, ArtifactKind::Symbol),
        ],
        SourceLanguage::Swift => seq![
            ("func "@, ArtifactKind::Symbol),
            ("class "@, ArtifactKind::Symbol),
            ("struct "@, ArtifactKind::Symbol),
            ("enum "@, ArtifactKind::Schema),
            ("protocol "@, ArtifactKind::Schema),
        ],
        SourceLanguage::Kotlin => seq![
            ("fun "@, function),
            ("class "@, ArtifactKind::Symbol),
            ("object "@, ArtifactKind::Symbol),
            ("interface "@, ArtifactKind::Schema),
            ("enum class "@, ArtifactKind::Schema),
        ],
        SourceLanguage::Java => seq![
            ("class "@, ArtifactKind::Symbol),
            ("record "@, ArtifactKind::Symbol),
            ("interface "@, ArtifactKind::Schema),
            ("enum "@, ArtifactKind::Schema),
            ("@interface "@, ArtifactKind::Schema),
        ],
        _ => Seq::empty(),
    }
}

fn keywords(language: SourceLanguage, is_test: bool) -> (patterns: Vec<(&'static str, ArtifactKind)>)
    ensures
        patterns.deep_view() == keyword_patterns(language, is_test),
{
    let function = if is_test {
        ArtifactKind::Test
    } else {
        ArtifactKind::Symbol
    };
    let patterns: Vec<(&'static str, ArtifactKind)> = match language {
        SourceLanguage::Rust => vec![
            ("fn ", function),
            ("struct ", ArtifactKind::Symbol),
            ("enum ", ArtifactKind::Symbol),
            ("trait ", ArtifactKind::Symbol),
            ("type ", ArtifactKind::Symbol),
            ("mod ", ArtifactKind::Module),
        ],
        SourceLanguage::TypeScriptJavaScript => vec![
            ("function ", ArtifactKind::Symbol),
            ("class ", ArtifactKind::Symbol),
            ("interface ", ArtifactKind::Schema),
            ("type ", ArtifactKind::Schema),
            ("enum ", ArtifactKind::Schema),
            ("const ", ArtifactKind::Symbol),
        ],
        SourceLanguage::Swift => vec![
            ("func ", ArtifactKind::Symbol),
            ("class ", ArtifactKind::Symbol),
            ("struct ", ArtifactKind::Symbol),
            ("enum ", ArtifactKind::Schema),
            ("protocol ", ArtifactKind::Schema),
        ],
        SourceLanguage::Kotlin => vec![
            ("fun ", function),
            ("class ", ArtifactKind::Symbol),
            ("object ", ArtifactKind::Symbol),
            ("interface ", ArtifactKind::Schema),
            ("enum class ", ArtifactKind::Schema),
        ],
        SourceLanguage::Java => vec![
            ("class ", ArtifactKind::Symbol),
            ("record ", ArtifactKind::Symbol),
            ("interface ", ArtifactKind::Schema),
            ("enum ", ArtifactKind::Schema),
            ("@interface ", ArtifactKind::Schema),
        ],
        _ => Vec::new(),
    };
    assert(patterns.deep_view() =~= keyword_patterns(language, is_test));
    patterns
}

/// What the first matching keyword, from an index on, declares.
pub open spec fn declared_by(
    line: Seq<char>,
    patterns: Seq<(Seq<char>, ArtifactKind)>,
    from: int,
) -> Option<(ArtifactKind, Seq<char>)>
    decreases patterns.len() - from,
{
    if from < 0 || from >= patterns.len() {
        None
    } else {
        let (prefix, kind) = patterns[from];
        if begins_with(line, prefix) && identifier_of(line.skip(prefix.len() as int)) is Some {
            Some((kind, identifier_of(line.skip(prefix.len() as int))->Some_0))
        } else {
            declared_by(line, patterns, from + 1)
        }
    }
}

fn declaration_tokens(line: &str, patterns: &Vec<(&'static str, ArtifactKind)>) -> (found: Option<
    (ArtifactKind, String),
>)
    ensures
        found.deep_view() == declared_by(line@, patterns.deep_view(), 0),
{
    let ghost model = patterns.deep_view();
    let mut index: usize = 0;
    while index < patterns.len()
        invariant
            index <= patterns@.len(),
            model == patterns.deep_view(),
            declared_by(line@, model, index as int) == declared_by(line@, model, 0),
        decreases patterns@.len() - index,
    {
        let prefix = patterns[index].0;
        assert(model[index as int] == (prefix@, patterns@[index as int].1));
        if has_prefix(line, prefix) {
            let rest = rest_after(line, prefix);
            if let Some(name) = identifier(rest.as_str()) {
                return Some((patterns[index].1, name));
            }
        }
        index = index + 1;
    }
    assert(model.len() == patterns@.len());
    None
}

/// Whether a word looks like a call or a control structure rather than a declared method.
pub open spec fn is_control_word(word: Seq<char>) -> bool {
    word == "if"@ || word == "for"@ || word == "while"@ || word == "switch"@ || word == "catch"@ || word
        == "return"@ || word == "new"@ || word == "synchronized"@
}

fn is_control(word: &str) -> (found: bool)
    ensures
        found == is_control_word(word@),
{
    same_text(word, "if") || same_text(word, "for") || same_text(word, "while") || same_text(word, "switch")
        || same_text(word, "catch") || same_text(word, "return") || same_text(word, "new") || same_text(
        word,
        "synchronized",
    )
}

/// Whether a word begins or joins a statement, so that no type holds it.
pub open spec fn is_statement_word(word: Seq<char>) -> bool {
    word == "return"@ || word == "throw"@ || word == "new"@ || word == "else"@ || word == "case"@
        || word == "do"@ || word == "try"@ || word == "finally"@ || word == "assert"@ || word == "yield"@
        || word == "if"@ || word == "for"@ || word == "while"@ || word == "switch"@ || word == "catch"@
        || word == "instanceof"@ || word == "break"@ || word == "continue"@ || word == "import"@
        || word == "package"@
}

fn joins_statement(word: &str) -> (found: bool)
    ensures
        found == is_statement_word(word@),
{
    same_text(word, "return") || same_text(word, "throw") || same_text(word, "new") || same_text(word, "else")
        || same_text(word, "case") || same_text(word, "do") || same_text(word, "try")
        || same_text(word, "finally") || same_text(word, "assert") || same_text(word, "yield")
        || same_text(word, "if") || same_text(word, "for") || same_text(word, "while")
        || same_text(word, "switch") || same_text(word, "catch") || same_text(word, "instanceof")
        || same_text(word, "break") || same_text(word, "continue") || same_text(word, "import")
        || same_text(word, "package")
}

/// Whether a word says how a Java member is declared rather than what its type is.
pub open spec fn is_modifier_word(word: Seq<char>) -> bool {
    word == "public"@ || word == "protected"@ || word == "private"@ || word == "static"@ || word == "final"@
        || word == "abstract"@ || word == "default"@ || word == "native"@ || word == "synchronized"@
        || word == "strictfp"@
}

fn is_modifier(word: &str) -> (found: bool)
    ensures
        found == is_modifier_word(word@),
{
    same_text(word, "public") || same_text(word, "protected") || same_text(word, "private")
        || same_text(word, "static") || same_text(word, "final") || same_text(word, "abstract")
        || same_text(word, "default") || same_text(word, "native") || same_text(word, "synchronized")
        || same_text(word, "strictfp")
}

/// A character that a Java modifier, annotation or type may hold.
pub open spec fn in_type(character: char) -> bool {
    is_alphanumeric_character(character) || character == '_' || character == '$' || character == '.' || character
        == '<' || character == '>' || character == ',' || character == '[' || character == ']' || character == '?'
        || character == '&' || character == '@'
}

/// Whether a word can stand before the name of a declared Java method: it joins no statement and no
/// conditions, and holds only what modifiers, annotations and types hold.
pub open spec fn is_type_word(word: Seq<char>) -> bool {
    &&& !is_statement_word(word)
    &&& word != "&&"@
    &&& forall|i: int| 0 <= i < word.len() ==> in_type(#[trigger] word[i])
}

fn may_stand_in_type(word: &str) -> (found: bool)
    ensures
        found == is_type_word(word@),
{
    if joins_statement(word) || same_text(word, "&&") {
        return false;
    }
    let letters = characters(word);
    let mut index: usize = 0;
    while index < letters.len()
        invariant
            index <= letters@.len(),
            letters@ == word@,
            forall|i: int| 0 <= i < index ==> in_type(#[trigger] word@[i]),
        decreases letters@.len() - index,
    {
        let letter = letters[index];
        if !(letter.is_alphanumeric() || letter == '_' || letter == '$' || letter == '.' || letter == '<' || letter
            == '>' || letter == ',' || letter == '[' || letter == ']' || letter == '?' || letter == '&' || letter
            == '@') {
            assert(!in_type(word@[index as int]));
            return false;
        }
        index = index + 1;
    }
    true
}

/// Whether a word can begin a declaration: a modifier, an annotation, type parameters or a type.
pub open spec fn begins_declaration(word: Seq<char>) -> bool {
    word.len() > 0 && (is_alphabetic_character(word[0]) || word[0] == '_' || word[0] == '$' || word[0] == '@'
        || word[0] == '<')
}

/// Whether a word can end a return type: it is neither an annotation nor a modifier, and ends as a
/// name, type arguments or an array type ends.
pub open spec fn ends_type(word: Seq<char>) -> bool {
    &&& word.len() > 0
    &&& word[0] != '@'
    &&& !is_modifier_word(word)
    &&& is_alphanumeric_character(word.last()) || word.last() == '_' || word.last() == '$' || word.last() == '>'
        || word.last() == ']'
}

/// Whether words read as what stands before the name of a declared Java method: a return type,
/// after whatever modifiers, annotations and type parameters, with its angle brackets paired.
pub open spec fn reads_as_type(words: Seq<Seq<char>>) -> bool {
    &&& words.len() > 0
    &&& begins_declaration(words[0])
    &&& ends_type(words.last())
    &&& forall|i: int| 0 <= i < words.len() ==> is_type_word(#[trigger] words[i])
    &&& occurrences(joined_by(words, " "@), '<') == occurrences(joined_by(words, " "@), '>')
}

fn count_character(text: &Vec<char>, character: char) -> (count: usize)
    ensures
        count == occurrences(text@, character),
{
    let mut count: usize = 0;
    let mut index: usize = 0;
    assert(text@.take(0) =~= Seq::empty());
    while index < text.len()
        invariant
            count <= index <= text@.len(),
            count == occurrences(text@.take(index as int), character),
        decreases text@.len() - index,
    {
        proof {
            take_next(text@, index as int);
        }
        if text[index] == character {
            count = count + 1;
        }
        index = index + 1;
    }
    assert(text@.take(index as int) =~= text@);
    count
}

/// Whether words read as what stands before the name of a declared method.
fn names_type(words: &Vec<String>) -> (found: bool)
    ensures
        found == reads_as_type(words.deep_view()),
{
    let ghost model = words.deep_view();
    let count: usize = words.len();
    assert(model.len() == count);
    if count == 0 {
        return false;
    }
    assert(model[0] == words@[0]@);
    assert(model.last() == words@[count as int - 1]@);
    let first = characters(words[0].as_str());
    if first.len() == 0 || !(first[0].is_alphabetic() || first[0] == '_' || first[0] == '$' || first[0] == '@'
        || first[0] == '<') {
        return false;
    }
    let end = words[count - 1].as_str();
    let last = characters(end);
    if last.len() == 0 || last[0] == '@' || is_modifier(end) {
        return false;
    }
    let tip = last[last.len() - 1];
    if !(tip.is_alphanumeric() || tip == '_' || tip == '$' || tip == '>' || tip == ']') {
        return false;
    }
    let mut index: usize = 0;
    while index < count
        invariant
            index <= count == words@.len(),
            model == words.deep_view(),
            forall|i: int| 0 <= i < index ==> is_type_word(#[trigger] model[i]),
        decreases count - index,
    {
        assert(model[index as int] == words@[index as int]@);
        if !may_stand_in_type(words[index].as_str()) {
            return false;
        }
        index = index + 1;
    }
    let text = join_texts(words, " ");
    let letters = characters(text.as_str());
    count_character(&letters, '<') == count_character(&letters, '>')
}

/// Whether a block comment is open behind a word.
pub open spec fn leaves_comment_open(word: Seq<char>, open: bool) -> bool {
    if open {
        !finishes_with(word, "*/"@)
    } else {
        begins_with(word, "/*"@) && !(word.len() >= 4 && finishes_with(word, "*/"@))
    }
}

/// Whether a block comment is open behind words.
pub open spec fn comment_open(words: Seq<Seq<char>>) -> bool
    decreases words.len(),
{
    words.len() > 0 && leaves_comment_open(words.last(), comment_open(words.drop_last()))
}

/// The words that stand in no block comment, without closing braces at the front.
pub open spec fn declaring_words(words: Seq<Seq<char>>) -> Seq<Seq<char>>
    decreases words.len(),
{
    if words.len() == 0 {
        Seq::empty()
    } else {
        let before = declaring_words(words.drop_last());
        let word = words.last();
        if comment_open(words.drop_last()) || begins_with(word, "/*"@) || before.len() == 0 && word == "}"@ {
            before
        } else {
            before.push(word)
        }
    }
}

/// Whether all words but the last declare what the last one names: none leaves a block comment open,
/// and those outside of comments read as a type.
fn declares_last(words: &Vec<String>) -> (found: bool)
    requires
        words@.len() > 0,
    ensures
        found == (!comment_open(words.deep_view().drop_last()) && reads_as_type(
            declaring_words(words.deep_view().drop_last()),
        )),
{
    let ghost model = words.deep_view();
    let ghost before = model.drop_last();
    let count: usize = words.len() - 1;
    let mut kept: Vec<String> = Vec::new();
    let mut open = false;
    let mut index: usize = 0;
    assert(before.take(0) =~= Seq::empty());
    assert(kept.deep_view() =~= Seq::empty());
    while index < count
        invariant
            index <= count == words@.len() - 1,
            model == words.deep_view(),
            before == model.drop_last(),
            open == comment_open(before.take(index as int)),
            kept.deep_view() == declaring_words(before.take(index as int)),
        decreases count - index,
    {
        assert(before[index as int] == words@[index as int]@);
        proof {
            take_next(before, index as int);
        }
        assert(kept.deep_view().len() == kept@.len());
        let word = words[index].as_str();
        let begins = has_prefix(word, "/*");
        if !(open || begins || kept.len() == 0 && same_text(word, "}")) {
            push_value(&mut kept, words[index].copied());
        }
        let letters = characters(word);
        let finishes = has_suffix(word, "*/");
        open = if open {
            !finishes
        } else {
            begins && !(letters.len() >= 4 && finishes)
        };
        index = index + 1;
    }
    assert(before.take(index as int) =~= before);
    !open && names_type(&kept)
}

/// The name of the Java method that a line declares, if it declares one: a return type, then the
/// name, then an argument list, on a line that ends with a brace or a semicolon. A line on which
/// what precedes the name is no type calls a method rather than declaring one.
pub open spec fn java_method(line: Seq<char>) -> Option<Seq<char>> {
    match first_position(line, '(', 0) {
        Some(at) if 0 <= at < line.len() && (line.last() == '{' || line.last() == ';') => {
            let tokens = words(line.take(at));
            let (before, name) = (tokens.drop_last(), tokens.last());
            if tokens.len() > 0 && !comment_open(before) && reads_as_type(declaring_words(before))
                && !is_control_word(name) && identifier_of(name) == Some(name) && (is_alphabetic_character(name[0])
                || name[0] == '_') {
                Some(name)
            } else {
                None
            }
        },
        _ => None,
    }
}

/// Reads the name out of a Java method declaration, or nothing when the line is not one.
pub fn java_method_name(line: &str) -> (name: Option<String>)
    ensures
        name.deep_view() == java_method(line@),
{
    let chars = characters(line);
    match find_first(&chars, '(', 0) {
        None => None,
        Some(at) => {
            let last = chars[chars.len() - 1];
            if last != '{' && last != ';' {
                return None;
            }
            let head = text_of(&chars, 0, at);
            assert(head@ =~= line@.take(at as int));
            let tokens = split_words(head.as_str());
            let ghost model = words(head@);
            assert(model.len() == tokens@.len());
            if tokens.len() == 0 || !declares_last(&tokens) {
                return None;
            }
            let name = tokens[tokens.len() - 1].copied();
            assert(name@ == model.last());
            if is_control(name.as_str()) {
                return None;
            }
            match identifier(name.as_str()) {
                Some(word) => {
                    if !word.same(&name) {
                        return None;
                    }
                    let letters = characters(name.as_str());
                    proof {
                        crate::lexical::identifier_fits(name@);
                    }
                    if letters[0].is_alphabetic() || letters[0] == '_' {
                        Some(name)
                    } else {
                        None
                    }
                },
                None => None,
            }
        },
    }
}

/// What a trimmed line declares in a language.
pub open spec fn declaration_in(
    language: SourceLanguage,
    line: Seq<char>,
    is_test: bool,
) -> Option<(ArtifactKind, Seq<char>)> {
    let rest = stripped(line, modifier_texts(language));
    let declared = declared_by(rest, keyword_patterns(language, is_test), 0);
    match language {
        SourceLanguage::Swift => match declared {
            Some((kind, name)) if kind == ArtifactKind::Symbol && begins_with(name, "test"@) => Some(
                (ArtifactKind::Test, name),
            ),
            _ => declared,
        },
        SourceLanguage::Java => match declared {
            Some(found) => Some(found),
            None => match java_method(rest) {
                Some(name) => Some(
                    (
                        if is_test {
                            ArtifactKind::Test
                        } else {
                            ArtifactKind::Symbol
                        },
                        name,
                    ),
                ),
                None => None,
            },
        },
        _ => declared,
    }
}

fn declaration(language: SourceLanguage, line: &str, is_test: bool) -> (found: Option<(ArtifactKind, String)>)
    ensures
        found.deep_view() == declaration_in(language, line@, is_test),
{
    let prefixes = modifiers(language);
    let rest = strip_prefixes(line, &prefixes);
    let patterns = keywords(language, is_test);
    let declared = declaration_tokens(rest.as_str(), &patterns);
    match language {
        SourceLanguage::Swift => match declared {
            Some((kind, name)) => {
                if kind == ArtifactKind::Symbol && has_prefix(name.as_str(), "test") {
                    Some((ArtifactKind::Test, name))
                } else {
                    Some((kind, name))
                }
            },
            None => None,
        },
        SourceLanguage::Java => match declared {
            Some(found) => Some(found),
            None => match java_method_name(rest.as_str()) {
                Some(name) => Some(
                    (
                        if is_test {
                            ArtifactKind::Test
                        } else {
                            ArtifactKind::Symbol
                        },
                        name,
                    ),
                ),
                None => None,
            },
        },
        _ => declared,
    }
}

/// How often a character occurs.
pub open spec fn occurrences(text: Seq<char>, character: char) -> nat
    decreases text.len(),
{
    if text.len() == 0 {
        0
    } else {
        occurrences(text.drop_last(), character) + if text.last() == character {
            1nat
        } else {
            0
        }
    }
}

/// How many lines a declaration is followed over.
pub const MAX_DECLARATION_LINES: usize = 32;

/// The source of a declaration: its lines up to the one that closes its braces, or its first line
/// where that opens none.
pub open spec fn source_from(
    lines: Seq<Seq<char>>,
    at: int,
    left: nat,
    balance: int,
    opened: bool,
) -> Seq<char>
    decreases left,
{
    if left == 0 || at < 0 || at >= lines.len() {
        Seq::empty()
    } else {
        let line = lines[at];
        let depth = balance + occurrences(line, '{') - occurrences(line, '}');
        let open = opened || line.contains('{');
        let rest = if open && depth > 0 {
            source_from(lines, at + 1, (left - 1) as nat, depth, open)
        } else {
            Seq::empty()
        };
        line + "\n"@ + rest
    }
}

/// The braces of a line: how many more open than close, and whether one opens.
fn braces(line: &str) -> (result: (i128, bool))
    ensures
        result.0 == occurrences(line@, '{') - occurrences(line@, '}'),
        result.1 == line@.contains('{'),
        -0xffff_ffff_ffff_ffff <= result.0 <= 0xffff_ffff_ffff_ffff,
{
    let chars = characters(line);
    let mut depth: i128 = 0;
    let mut opened = false;
    let mut index: usize = 0;
    assert(chars@.take(0) =~= Seq::empty());
    while index < chars.len()
        invariant
            index <= chars@.len(),
            depth == occurrences(chars@.take(index as int), '{') - occurrences(chars@.take(index as int), '}'),
            -(index as int) <= depth <= index,
            opened == exists|i: int| 0 <= i < index && #[trigger] chars@[i] == '{',
        decreases chars@.len() - index,
    {
        proof {
            take_next(chars@, index as int);
        }
        if chars[index] == '{' {
            depth = depth + 1;
            opened = true;
        } else if chars[index] == '}' {
            depth = depth - 1;
        }
        index = index + 1;
    }
    assert(chars@.take(index as int) =~= chars@);
    (depth, opened)
}

/// Collects the source of the declaration at an index.
fn declaration_source(lines: &Vec<String>, start: usize) -> (source: String)
    ensures
        source@ == source_from(lines.deep_view(), start as int, MAX_DECLARATION_LINES as nat, 0, false),
{
    let ghost model = lines.deep_view();
    let mut source = String::new();
    let mut at: usize = start;
    let mut left: usize = MAX_DECLARATION_LINES;
    let mut balance: i128 = 0;
    let mut opened = false;
    let ghost whole = source_from(model, start as int, MAX_DECLARATION_LINES as nat, 0, false);
    assert(source@ + whole =~= whole);
    while left > 0 && at < lines.len()
        invariant
            model == lines.deep_view(),
            whole == source_from(lines.deep_view(), start as int, MAX_DECLARATION_LINES as nat, 0, false),
            left <= MAX_DECLARATION_LINES,
            -((MAX_DECLARATION_LINES - left) * 0xffff_ffff_ffff_ffff) <= balance <= (MAX_DECLARATION_LINES - left)
                * 0xffff_ffff_ffff_ffff,
            source@ + source_from(model, at as int, left as nat, balance as int, opened) == whole,
        decreases left,
    {
        assert(model[at as int] == lines@[at as int]@);
        let line = lines[at].as_str();
        let (depth, opens) = braces(line);
        let ghost before = source@;
        let ghost line_model = model[at as int];
        source.append(line);
        source.append("\n");
        balance = balance + depth;
        opened = opened || opens;
        if !(opened && balance > 0) {
            assert(source@ =~= whole);
            return source;
        }
        at = at + 1;
        left = left - 1;
        assert(source@ + source_from(model, at as int, left as nat, balance as int, opened) =~= before + (line_model
            + "\n"@ + source_from(model, at as int, left as nat, balance as int, opened)));
    }
    assert(source@ =~= whole);
    source
}

/// An endpoint key without white space around it and without trailing slashes.
pub open spec fn without_slashes(value: Seq<char>) -> Seq<char>
    decreases value.len(),
{
    if value.len() > 1 && value.last() == '/' {
        without_slashes(value.drop_last())
    } else {
        value
    }
}

/// The normal form of an endpoint key.
pub open spec fn normal_key(value: Seq<char>) -> Seq<char> {
    without_slashes(trimmed(value))
}

/// Normalizes an endpoint key.
pub fn normalize_api_key(value: &str) -> (key: String)
    ensures
        key@ == normal_key(value@),
{
    let text = trim_text(value);
    let chars = characters(text.as_str());
    let mut end: usize = chars.len();
    assert(chars@.take(end as int) =~= text@);
    while end > 1 && chars[end - 1] == '/'
        invariant
            end <= chars@.len(),
            chars@ == text@,
            without_slashes(chars@.take(end as int)) == without_slashes(text@),
        decreases end,
    {
        assert(chars@.take(end as int).drop_last() =~= chars@.take(end - 1));
        end = end - 1;
    }
    let key = text_of(&chars, 0, end);
    assert(key@ =~= chars@.take(end as int));
    key
}

/// Whether a line mentions something that calls or serves an endpoint.
pub open spec fn mentions_endpoint(line: Seq<char>) -> bool {
    let lower = lowered(line);
    occurs_in(lower, "fetch"@) || occurs_in(lower, "url"@) || occurs_in(lower, "route"@) || occurs_in(lower, "get("@)
        || occurs_in(lower, "post("@) || occurs_in(lower, "requestmapping"@) || occurs_in(lower, "endpoint"@)
}

/// Whether a quoted value is an endpoint.
pub open spec fn is_endpoint(value: Seq<char>) -> bool {
    begins_with(value, "/"@) || occurs_in(value, "://"@)
}

/// The endpoints among quoted values, in normal form.
pub open spec fn endpoints_among(values: Seq<Seq<char>>) -> Seq<Seq<char>>
    decreases values.len(),
{
    if values.len() == 0 {
        Seq::empty()
    } else {
        let before = endpoints_among(values.drop_last());
        if is_endpoint(values.last()) {
            before.push(normal_key(values.last()))
        } else {
            before
        }
    }
}

/// The endpoints that a line calls or serves.
pub open spec fn endpoints_of(line: Seq<char>) -> Seq<Seq<char>> {
    if mentions_endpoint(line) {
        endpoints_among(quoted_from(line, 0))
    } else {
        Seq::empty()
    }
}

/// Lists the endpoints that a line calls or serves.
pub fn api_keys(line: &str) -> (keys: Vec<String>)
    ensures
        keys.deep_view() == endpoints_of(line@),
{
    let mut keys: Vec<String> = Vec::new();
    assert(keys.deep_view() =~= Seq::empty());
    let lower = lower_text(line);
    let text = lower.as_str();
    if !(has_part(text, "fetch") || has_part(text, "url") || has_part(text, "route") || has_part(text, "get(")
        || has_part(text, "post(") || has_part(text, "requestmapping") || has_part(text, "endpoint")) {
        return keys;
    }
    let values = quoted_values(line);
    let ghost model = quoted_from(line@, 0);
    let mut index: usize = 0;
    assert(model.take(0) =~= Seq::empty());
    while index < values.len()
        invariant
            index <= values@.len(),
            values.deep_view() == model,
            keys.deep_view() == endpoints_among(model.take(index as int)),
        decreases values@.len() - index,
    {
        assert(model[index as int] == values@[index as int]@);
        proof {
            take_next(model, index as int);
        }
        let value = values[index].as_str();
        if has_prefix(value, "/") || has_part(value, "://") {
            push_value(&mut keys, normalize_api_key(value));
        }
        index = index + 1;
    }
    assert(model.take(index as int) =~= model);
    keys
}

/// The name that a test call gives its test.
pub open spec fn test_call(line: Seq<char>) -> Option<Seq<char>> {
    let lower = lowered(line);
    if (begins_with(lower, "test("@) || begins_with(lower, "it("@) || begins_with(lower, "describe("@))
        && quoted_from(line, 0).len() > 0 {
        Some(quoted_from(line, 0)[0])
    } else {
        None
    }
}

fn test_call_name(line: &str) -> (name: Option<String>)
    ensures
        name.deep_view() == test_call(line@),
{
    let lower = lower_text(line);
    let text = lower.as_str();
    if !(has_prefix(text, "test(") || has_prefix(text, "it(") || has_prefix(text, "describe(")) {
        return None;
    }
    let values = quoted_values(line);
    assert(quoted_from(line@, 0).len() == values@.len());
    if values.len() > 0 {
        assert(quoted_from(line@, 0)[0] == values@[0]@);
        Some(values[0].copied())
    } else {
        None
    }
}

/// Whether a line marks the next one as a test.
pub open spec fn marks_test(language: SourceLanguage, line: Seq<char>) -> bool {
    match language {
        SourceLanguage::Rust => begins_with(line, "#[test"@),
        SourceLanguage::Kotlin => line == "@Test"@,
        SourceLanguage::Java => line == "@Test"@,
        _ => false,
    }
}

fn is_test_mark(language: SourceLanguage, line: &str) -> (found: bool)
    ensures
        found == marks_test(language, line@),
{
    match language {
        SourceLanguage::Rust => has_prefix(line, "#[test"),
        SourceLanguage::Kotlin | SourceLanguage::Java => same_text(line, "@Test"),
        _ => false,
    }
}

/// The discoveries that endpoints make.
pub open spec fn endpoint_discoveries(keys: Seq<Seq<char>>, line: u32, source: Seq<char>) -> Seq<DiscoveryView> {
    Seq::new(keys.len(), |i: int| DiscoveryView { kind: ArtifactKind::Api, name: keys[i], line, source })
}

/// What one line of code declares, calls and tests.
pub open spec fn line_discoveries(
    language: SourceLanguage,
    lines: Seq<Seq<char>>,
    index: int,
) -> Seq<DiscoveryView> {
    let line = trimmed(lines[index]);
    let is_test = index > 0 && marks_test(language, trimmed(lines[index - 1]));
    if marks_test(language, line) {
        Seq::empty()
    } else {
        let declared = match declaration_in(language, line, is_test) {
            Some((kind, name)) => seq![
                DiscoveryView {
                    kind,
                    name,
                    line: numbered(index),
                    source: source_from(lines, index, MAX_DECLARATION_LINES as nat, 0, false),
                },
            ],
            None => Seq::empty(),
        };
        let called = endpoint_discoveries(endpoints_of(line), numbered(index), line);
        let tested = if language == SourceLanguage::TypeScriptJavaScript && test_call(line) is Some {
            seq![
                DiscoveryView {
                    kind: ArtifactKind::Test,
                    name: test_call(line)->Some_0,
                    line: numbered(index),
                    source: line,
                },
            ]
        } else {
            Seq::empty()
        };
        declared + called + tested
    }
}

/// What source code declares, calls and tests, line by line.
pub open spec fn code_discoveries(language: SourceLanguage, text: Seq<char>) -> Seq<DiscoveryView> {
    let lines = lines_of(text);
    concatenated(|index: int| line_discoveries(language, lines, index), lines.len())
}

fn add_line_discoveries(
    language: SourceLanguage,
    lines: &Vec<String>,
    index: usize,
    is_test: bool,
    found: &mut Vec<Discovery>,
)
    requires
        index < lines@.len(),
        is_test == (index > 0 && marks_test(language, trimmed(lines.deep_view()[index - 1]))),
        !marks_test(language, trimmed(lines.deep_view()[index as int])),
    ensures
        final(found).deep_view() == old(found).deep_view() + line_discoveries(
            language,
            lines.deep_view(),
            index as int,
        ),
{
    let ghost start = found.deep_view();
    let ghost model = lines.deep_view();
    assert(model[index as int] == lines@[index as int]@);
    let text = trim_text(lines[index].as_str());
    let line = text.as_str();
    let number = line_number(index);
    let declared = declaration(language, line, is_test);
    if let Some((kind, name)) = declared {
        let source = declaration_source(lines, index);
        push_value(found, Discovery { kind, name, line: number, source });
    }
    let ghost middle = found.deep_view();
    let keys = api_keys(line);
    let ghost keys_model = endpoints_of(line@);
    let ghost expected = endpoint_discoveries(keys_model, number, line@);
    let mut at: usize = 0;
    assert(middle + expected.take(0) =~= middle);
    while at < keys.len()
        invariant
            at <= keys@.len(),
            line@ == text@,
            keys.deep_view() == keys_model,
            expected == endpoint_discoveries(keys_model, number, text@),
            found.deep_view() == middle + expected.take(at as int),
        decreases keys@.len() - at,
    {
        assert(keys_model[at as int] == keys@[at as int]@);
        push_value(
            found,
            Discovery { kind: ArtifactKind::Api, name: keys[at].copied(), line: number, source: text.copied() },
        );
        proof {
            take_next(expected, at as int);
            assert(found.deep_view() =~= middle + expected.take(at + 1));
        }
        at = at + 1;
    }
    assert(expected.take(at as int) =~= expected);
    if language == SourceLanguage::TypeScriptJavaScript {
        if let Some(name) = test_call_name(text.as_str()) {
            push_value(
                found,
                Discovery { kind: ArtifactKind::Test, name, line: number, source: text.copied() },
            );
        }
    }
    assert(found.deep_view() =~= start + line_discoveries(language, model, index as int));
}

/// Extracts what source code declares, calls and tests.
fn extract_code(language: SourceLanguage, text: &str) -> (found: Vec<Discovery>)
    ensures
        found.deep_view() == code_discoveries(language, text@),
{
    let lines = split_lines(text);
    let ghost model = lines_of(text@);
    let ghost parts = |index: int| line_discoveries(language, model, index);
    let mut found: Vec<Discovery> = Vec::new();
    let mut is_test = false;
    let mut index: usize = 0;
    assert(found.deep_view() =~= Seq::empty());
    while index < lines.len()
        invariant
            index <= lines@.len(),
            lines.deep_view() == model,
            parts == (|index: int| line_discoveries(language, model, index)),
            is_test == (index > 0 && marks_test(language, trimmed(model[index - 1]))),
            found.deep_view() == concatenated(parts, index as nat),
        decreases lines@.len() - index,
    {
        assert(model[index as int] == lines@[index as int]@);
        let line = trim_text(lines[index].as_str());
        if is_test_mark(language, line.as_str()) {
            is_test = true;
            assert(parts(index as int) =~= Seq::empty());
            assert(found.deep_view() =~= concatenated(parts, index as nat) + parts(index as int));
        } else {
            add_line_discoveries(language, &lines, index, is_test, &mut found);
            is_test = false;
        }
        index = index + 1;
    }
    found
}

/// A discovery that is its own source.
pub open spec fn plain_discovery(kind: ArtifactKind, name: Seq<char>, line: u32) -> DiscoveryView {
    DiscoveryView { kind, name, line, source: name }
}

fn discovery(kind: ArtifactKind, name: &str, line: u32) -> (found: Discovery)
    ensures
        found.deep_view() == plain_discovery(kind, name@, line),
{
    Discovery { kind, name: name.to_owned(), line, source: name.to_owned() }
}

/// Whether a key names an HTTP operation, in whichever case.
pub open spec fn is_operation(key: Seq<char>) -> bool {
    let lower = lowered(key);
    lower == "get"@ || lower == "post"@ || lower == "put"@ || lower == "patch"@ || lower == "delete"@ || lower
        == "head"@ || lower == "options"@
}

fn names_operation(key: &str) -> (found: bool)
    ensures
        found == is_operation(key@),
{
    let lower = lower_text(key);
    let text = lower.as_str();
    same_text(text, "get") || same_text(text, "post") || same_text(text, "put") || same_text(text, "patch")
        || same_text(text, "delete") || same_text(text, "head") || same_text(text, "options")
}

/// An operation on a route.
pub open spec fn route_discovery(operation: Seq<char>, route: Seq<char>, line: u32) -> DiscoveryView {
    DiscoveryView { kind: ArtifactKind::Api, name: route, line, source: operation + "("@ + route + ")"@ }
}

fn discover_route(operation: &str, route: &str, line: u32) -> (found: Discovery)
    ensures
        found.deep_view() == route_discovery(operation@, route@, line),
{
    Discovery {
        kind: ArtifactKind::Api,
        name: route.to_owned(),
        line,
        source: joined4(operation, "(", route, ")"),
    }
}

/// What a JSON document says about itself: its name, and, where it is an OpenAPI document, its
/// routes with their keys and the names of its schemas.
#[derive(Clone, Debug, PartialEq, Eq)]
pub struct JsonOutline {
    pub name: Option<String>,
    pub routes: Vec<(String, Vec<String>)>,
    pub schemas: Vec<String>,
}

/// The model of [`JsonOutline`].
pub struct JsonOutlineView {
    pub name: Option<Seq<char>>,
    pub routes: Seq<(Seq<char>, Seq<Seq<char>>)>,
    pub schemas: Seq<Seq<char>>,
}

impl DeepView for JsonOutline {
    type V = JsonOutlineView;

    open spec fn deep_view(&self) -> JsonOutlineView {
        JsonOutlineView {
            name: self.name.deep_view(),
            routes: self.routes.deep_view(),
            schemas: self.schemas.deep_view(),
        }
    }
}

impl Value for JsonOutline {
    fn copied(&self) -> (copy: Self) {
        JsonOutline {
            name: self.name.copied(),
            routes: self.routes.copied(),
            schemas: self.schemas.copied(),
        }
    }

    fn same(&self, other: &Self) -> (equal: bool) {
        self.name.same(&other.name)
            && self.routes.same(&other.routes)
            && self.schemas.same(&other.schemas)
    }
}

/// The operations among the keys of a route.
pub open spec fn operations_among(route: Seq<char>, keys: Seq<Seq<char>>) -> Seq<DiscoveryView>
    decreases keys.len(),
{
    if keys.len() == 0 {
        Seq::empty()
    } else {
        let before = operations_among(route, keys.drop_last());
        if is_operation(keys.last()) {
            before.push(route_discovery(keys.last(), route, 1))
        } else {
            before
        }
    }
}

/// The schemas that names declare.
pub open spec fn schemas_named(names: Seq<Seq<char>>) -> Seq<DiscoveryView> {
    Seq::new(names.len(), |i: int| plain_discovery(ArtifactKind::Schema, names[i], 1))
}

/// What the outline of a JSON document declares: the document itself, then its operations route by
/// route, then its schemas.
pub open spec fn outline_discoveries(path: Seq<char>, outline: JsonOutlineView) -> Seq<DiscoveryView> {
    let name = match outline.name {
        Some(name) => name,
        None => stem_of(path),
    };
    seq![plain_discovery(ArtifactKind::Schema, name, 1)] + concatenated(
        |i: int| operations_among(outline.routes[i].0, outline.routes[i].1),
        outline.routes.len(),
    ) + schemas_named(outline.schemas)
}

fn add_operations(route: &str, keys: &Vec<String>, found: &mut Vec<Discovery>)
    ensures
        final(found).deep_view() == old(found).deep_view() + operations_among(route@, keys.deep_view()),
{
    let ghost start = found.deep_view();
    let ghost model = keys.deep_view();
    let mut index: usize = 0;
    assert(model.take(0) =~= Seq::empty());
    assert(start + operations_among(route@, model.take(0)) =~= start);
    while index < keys.len()
        invariant
            index <= keys@.len(),
            model == keys.deep_view(),
            found.deep_view() == start + operations_among(route@, model.take(index as int)),
        decreases keys@.len() - index,
    {
        assert(model[index as int] == keys@[index as int]@);
        proof {
            take_next(model, index as int);
        }
        if names_operation(keys[index].as_str()) {
            push_value(found, discover_route(keys[index].as_str(), route, 1));
        }
        assert(found.deep_view() =~= start + operations_among(route@, model.take(index + 1)));
        index = index + 1;
    }
    assert(model.take(index as int) =~= model);
}

/// Lists what the outline of a JSON document declares.
pub fn discover_outline(path: &str, outline: &JsonOutline) -> (found: Vec<Discovery>)
    ensures
        found.deep_view() == outline_discoveries(path@, outline.deep_view()),
{
    let ghost model = outline.deep_view();
    let mut found: Vec<Discovery> = Vec::new();
    match &outline.name {
        Some(name) => {
            push_value(&mut found, discovery(ArtifactKind::Schema, name.as_str(), 1));
        },
        None => {
            let stem = file_stem(path);
            push_value(&mut found, discovery(ArtifactKind::Schema, stem.as_str(), 1));
        },
    }
    let ghost head = found.deep_view();
    let ghost parts = |i: int| operations_among(model.routes[i].0, model.routes[i].1);
    let mut index: usize = 0;
    assert(head + concatenated(parts, 0) =~= head);
    while index < outline.routes.len()
        invariant
            index <= outline.routes@.len(),
            model == outline.deep_view(),
            parts == (|i: int| operations_among(model.routes[i].0, model.routes[i].1)),
            found.deep_view() == head + concatenated(parts, index as nat),
        decreases outline.routes@.len() - index,
    {
        assert(model.routes[index as int] == outline.routes@[index as int].deep_view());
        let route = &outline.routes[index];
        add_operations(route.0.as_str(), &route.1, &mut found);
        assert(found.deep_view() =~= head + (concatenated(parts, index as nat) + parts(index as int)));
        index = index + 1;
    }
    assert(model.routes.len() == outline.routes@.len());
    let ghost middle = found.deep_view();
    let ghost expected = schemas_named(model.schemas);
    let mut at: usize = 0;
    assert(middle + expected.take(0) =~= middle);
    while at < outline.schemas.len()
        invariant
            at <= outline.schemas@.len(),
            model == outline.deep_view(),
            expected == schemas_named(model.schemas),
            found.deep_view() == middle + expected.take(at as int),
        decreases outline.schemas@.len() - at,
    {
        assert(model.schemas[at as int] == outline.schemas@[at as int]@);
        push_value(&mut found, discovery(ArtifactKind::Schema, outline.schemas[at].as_str(), 1));
        proof {
            take_next(expected, at as int);
            assert(found.deep_view() =~= middle + expected.take(at + 1));
        }
        at = at + 1;
    }
    assert(model.schemas.len() == outline.schemas@.len());
    assert(expected.take(at as int) =~= expected);
    assert(found.deep_view() =~= outline_discoveries(path@, model));
    found
}

/// The value of a member of an object, if it has it.
pub open spec fn member_of(members: Seq<(Seq<char>, Seq<char>)>, key: Seq<char>, from: int) -> Option<Seq<char>>
    decreases members.len() - from,
{
    if from < 0 || from >= members.len() {
        None
    } else if members[from].0 == key {
        Some(members[from].1)
    } else {
        member_of(members, key, from + 1)
    }
}

fn find_member<'a>(members: &'a Vec<(String, String)>, key: &str) -> (found: Option<&'a String>)
    ensures
        match found {
            Some(value) => member_of(members.deep_view(), key@, 0) == Some(value@),
            None => member_of(members.deep_view(), key@, 0) is None,
        },
{
    let ghost model = members.deep_view();
    let mut index: usize = 0;
    while index < members.len()
        invariant
            index <= members@.len(),
            model == members.deep_view(),
            member_of(model, key@, index as int) == member_of(model, key@, 0),
        decreases members@.len() - index,
    {
        assert(model[index as int] == members@[index as int].deep_view());
        if same_text(members[index].0.as_str(), key) {
            return Some(&members[index].1);
        }
        index = index + 1;
    }
    assert(model.len() == members@.len());
    None
}

/// The members of a JSON text that is an object; none otherwise.
pub open spec fn object_members(text: Seq<char>) -> Option<Seq<(Seq<char>, Seq<char>)>> {
    match document_level(text) {
        Some(JsonLevelView::Object { members }) => Some(members),
        _ => None,
    }
}

fn read_object(text: &str) -> (members: Option<Vec<(String, String)>>)
    ensures
        members.deep_view() == object_members(text@),
{
    match read_level(text) {
        Some(JsonLevel::Object { members }) => Some(members),
        _ => None,
    }
}

/// A member of a JSON text that is an object, if it has it.
pub open spec fn object_member(text: Seq<char>, key: Seq<char>) -> Option<Seq<char>> {
    match object_members(text) {
        Some(members) => member_of(members, key, 0),
        None => None,
    }
}

fn read_member(text: &str, key: &str) -> (value: Option<String>)
    ensures
        value.deep_view() == object_member(text@, key@),
{
    match read_object(text) {
        Some(members) => match find_member(&members, key) {
            Some(value) => Some(value.copied()),
            None => None,
        },
        None => None,
    }
}

/// The text that a JSON text holds, where it is a string.
pub open spec fn string_content(text: Seq<char>) -> Option<Seq<char>> {
    match document_level(text) {
        Some(JsonLevelView::Text { content }) => Some(content),
        _ => None,
    }
}

fn read_string(text: &str) -> (content: Option<String>)
    ensures
        content.deep_view() == string_content(text@),
{
    match read_level(text) {
        Some(JsonLevel::Text { content }) => Some(content),
        _ => None,
    }
}

/// The keys of an object.
pub open spec fn member_keys(members: Seq<(Seq<char>, Seq<char>)>) -> Seq<Seq<char>> {
    Seq::new(members.len(), |i: int| members[i].0)
}

fn keys_of_members(members: &Vec<(String, String)>) -> (keys: Vec<String>)
    ensures
        keys.deep_view() == member_keys(members.deep_view()),
{
    let ghost model = members.deep_view();
    let ghost expected = member_keys(model);
    let mut keys: Vec<String> = Vec::new();
    let mut index: usize = 0;
    assert(keys.deep_view() =~= expected.take(0));
    while index < members.len()
        invariant
            index <= members@.len(),
            model == members.deep_view(),
            expected == member_keys(model),
            keys.deep_view() == expected.take(index as int),
        decreases members@.len() - index,
    {
        assert(model[index as int] == members@[index as int].deep_view());
        push_value(&mut keys, members[index].0.copied());
        proof {
            take_next(expected, index as int);
        }
        index = index + 1;
    }
    assert(model.len() == members@.len());
    assert(expected.take(index as int) =~= expected);
    keys
}

/// The name that a JSON document gives itself: its `$id`, or else its `title`, where that is text.
pub open spec fn document_name(text: Seq<char>) -> Option<Seq<char>> {
    let named = match object_member(text, "$id"@) {
        Some(value) => Some(value),
        None => object_member(text, "title"@),
    };
    match named {
        Some(value) => string_content(value),
        None => None,
    }
}

fn read_document_name(text: &str) -> (name: Option<String>)
    ensures
        name.deep_view() == document_name(text@),
{
    let named = match read_member(text, "$id") {
        Some(value) => Some(value),
        None => read_member(text, "title"),
    };
    match named {
        Some(value) => read_string(value.as_str()),
        None => None,
    }
}

/// The routes whose value is an object, with the keys of that object.
pub open spec fn routes_among(members: Seq<(Seq<char>, Seq<char>)>) -> Seq<(Seq<char>, Seq<Seq<char>>)>
    decreases members.len(),
{
    if members.len() == 0 {
        Seq::empty()
    } else {
        let before = routes_among(members.drop_last());
        match object_members(members.last().1) {
            Some(operations) => before.push((members.last().0, member_keys(operations))),
            None => before,
        }
    }
}

fn read_routes(members: &Vec<(String, String)>) -> (routes: Vec<(String, Vec<String>)>)
    ensures
        routes.deep_view() == routes_among(members.deep_view()),
{
    let ghost model = members.deep_view();
    let mut routes: Vec<(String, Vec<String>)> = Vec::new();
    let mut index: usize = 0;
    assert(model.take(0) =~= Seq::empty());
    assert(routes.deep_view() =~= Seq::empty());
    while index < members.len()
        invariant
            index <= members@.len(),
            model == members.deep_view(),
            routes.deep_view() == routes_among(model.take(index as int)),
        decreases members@.len() - index,
    {
        assert(model[index as int] == members@[index as int].deep_view());
        proof {
            take_next(model, index as int);
        }
        let member = &members[index];
        if let Some(operations) = read_object(member.1.as_str()) {
            let keys = keys_of_members(&operations);
            push_value(&mut routes, (member.0.copied(), keys));
        }
        index = index + 1;
    }
    assert(model.len() == members@.len());
    assert(model.take(index as int) =~= model);
    routes
}

/// The outline of a JSON document; none where the text is no JSON that can be read.
pub open spec fn json_outline(text: Seq<char>) -> Option<JsonOutlineView> {
    if document_level(text) is None {
        None
    } else if object_member(text, "openapi"@) is Some {
        Some(
            JsonOutlineView {
                name: document_name(text),
                routes: match object_member(text, "paths"@) {
                    Some(paths) => match object_members(paths) {
                        Some(members) => routes_among(members),
                        None => Seq::empty(),
                    },
                    None => Seq::empty(),
                },
                schemas: match object_member(text, "components"@) {
                    Some(components) => match object_member(components, "schemas"@) {
                        Some(schemas) => match object_members(schemas) {
                            Some(members) => member_keys(members),
                            None => Seq::empty(),
                        },
                        None => Seq::empty(),
                    },
                    None => Seq::empty(),
                },
            },
        )
    } else {
        Some(JsonOutlineView { name: document_name(text), routes: Seq::empty(), schemas: Seq::empty() })
    }
}

fn no_routes() -> (routes: Vec<(String, Vec<String>)>)
    ensures
        routes.deep_view() == Seq::<(Seq<char>, Seq<Seq<char>>)>::empty(),
{
    let routes: Vec<(String, Vec<String>)> = Vec::new();
    assert(routes.deep_view() =~= Seq::empty());
    routes
}

fn no_texts() -> (texts: Vec<String>)
    ensures
        texts.deep_view() == Seq::<Seq<char>>::empty(),
{
    let texts: Vec<String> = Vec::new();
    assert(texts.deep_view() =~= Seq::empty());
    texts
}

/// Reads the outline of a JSON document.
pub fn read_outline(text: &str) -> (outline: Option<JsonOutline>)
    ensures
        outline.deep_view() == json_outline(text@),
{
    if read_level(text).is_none() {
        return None;
    }
    let name = read_document_name(text);
    if read_member(text, "openapi").is_none() {
        return Some(JsonOutline { name, routes: no_routes(), schemas: no_texts() });
    }
    let routes = match read_member(text, "paths") {
        Some(paths) => match read_object(paths.as_str()) {
            Some(members) => read_routes(&members),
            None => no_routes(),
        },
        None => no_routes(),
    };
    let schemas = match read_member(text, "components") {
        Some(components) => match read_member(components.as_str(), "schemas") {
            Some(schemas) => match read_object(schemas.as_str()) {
                Some(members) => keys_of_members(&members),
                None => no_texts(),
            },
            None => no_texts(),
        },
        None => no_texts(),
    };
    Some(JsonOutline { name, routes, schemas })
}

/// What a JSON source declares; nothing where the text is no JSON.
pub open spec fn json_discoveries(path: Seq<char>, text: Seq<char>) -> Seq<DiscoveryView> {
    match json_outline(text) {
        Some(outline) => outline_discoveries(path, outline),
        None => Seq::empty(),
    }
}

fn extract_json(path: &str, text: &str) -> (found: Vec<Discovery>)
    ensures
        found.deep_view() == json_discoveries(path@, text@),
{
    match read_outline(text) {
        Some(outline) => discover_outline(path, &outline),
        None => {
            let found: Vec<Discovery> = Vec::new();
            assert(found.deep_view() =~= Seq::empty());
            found
        },
    }
}

/// The section of a YAML document that is being read.
#[derive(Clone, Copy, Debug, PartialEq, Eq, Structural)]
pub enum YamlSection {
    Other,
    Paths,
    Components,
    Schemas,
}

impl DeepView for YamlSection {
    type V = YamlSection;

    open spec fn deep_view(&self) -> YamlSection {
        *self
    }
}

impl Value for YamlSection {
    fn copied(&self) -> (copy: Self) {
        *self
    }

    fn same(&self, other: &Self) -> (equal: bool) {
        *self == *other
    }
}

/// Where the reading of a YAML document stands: its section, and the last route of its paths.
pub struct YamlState {
    pub section: YamlSection,
    pub route: Option<Seq<char>>,
}

/// The section that a trimmed line opens.
pub open spec fn opened_section(line: Seq<char>) -> Option<YamlSection> {
    if line == "paths:"@ {
        Some(YamlSection::Paths)
    } else if line == "schemas:"@ {
        Some(YamlSection::Schemas)
    } else if line == "components:"@ {
        Some(YamlSection::Components)
    } else {
        None
    }
}

/// The key of a trimmed line that ends with a colon.
pub open spec fn yaml_key(line: Seq<char>) -> Option<Seq<char>> {
    if line.len() > 0 && line.last() == ':' {
        Some(line.drop_last())
    } else {
        None
    }
}

/// Where the reading stands behind a trimmed line.
pub open spec fn yaml_after(state: YamlState, line: Seq<char>) -> YamlState {
    match opened_section(line) {
        Some(section) => YamlState { section, route: state.route },
        None => match yaml_key(line) {
            Some(key) if state.section == YamlSection::Paths && begins_with(key, "/"@) => YamlState {
                section: state.section,
                route: Some(key),
            },
            _ => state,
        },
    }
}

/// What a trimmed line declares, where the reading stands in front of it.
pub open spec fn yaml_discovery(state: YamlState, line: Seq<char>, number: u32) -> Option<DiscoveryView> {
    if opened_section(line) is Some {
        None
    } else {
        match yaml_key(line) {
            None => None,
            Some(key) => {
                if state.section == YamlSection::Paths {
                    if !begins_with(key, "/"@) && is_operation(key) && state.route is Some {
                        Some(route_discovery(key, state.route->Some_0, number))
                    } else {
                        None
                    }
                } else if state.section == YamlSection::Schemas && key.len() > 0 {
                    Some(plain_discovery(ArtifactKind::Schema, key, number))
                } else {
                    None
                }
            },
        }
    }
}

/// Where the reading of a YAML document stands in front of a line.
pub open spec fn yaml_state(lines: Seq<Seq<char>>, count: nat) -> YamlState
    decreases count,
{
    if count == 0 {
        YamlState { section: YamlSection::Other, route: None }
    } else {
        yaml_after(yaml_state(lines, (count - 1) as nat), trimmed(lines[count - 1]))
    }
}

/// What one line of a YAML document declares.
pub open spec fn yaml_line(lines: Seq<Seq<char>>, index: int) -> Seq<DiscoveryView> {
    match yaml_discovery(yaml_state(lines, index as nat), trimmed(lines[index]), numbered(index)) {
        Some(found) => seq![found],
        None => Seq::empty(),
    }
}

/// What a YAML source declares: itself, then the operations of its routes and its schemas, line by
/// line.
pub open spec fn yaml_discoveries(path: Seq<char>, text: Seq<char>) -> Seq<DiscoveryView> {
    let lines = lines_of(text);
    seq![plain_discovery(ArtifactKind::Schema, stem_of(path), 1)] + concatenated(
        |index: int| yaml_line(lines, index),
        lines.len(),
    )
}

fn section_opened(line: &str) -> (section: Option<YamlSection>)
    ensures
        section == opened_section(line@),
{
    if same_text(line, "paths:") {
        Some(YamlSection::Paths)
    } else if same_text(line, "schemas:") {
        Some(YamlSection::Schemas)
    } else if same_text(line, "components:") {
        Some(YamlSection::Components)
    } else {
        None
    }
}

fn key_of_line(line: &str) -> (key: Option<String>)
    ensures
        key.deep_view() == yaml_key(line@),
{
    let chars = characters(line);
    let count: usize = chars.len();
    if count > 0 && chars[count - 1] == ':' {
        let key = text_of(&chars, 0, count - 1);
        assert(key@ =~= line@.drop_last());
        Some(key)
    } else {
        None
    }
}

fn extract_yaml(path: &str, text: &str) -> (found: Vec<Discovery>)
    ensures
        found.deep_view() == yaml_discoveries(path@, text@),
{
    let lines = split_lines(text);
    let ghost model = lines_of(text@);
    let ghost parts = |index: int| yaml_line(model, index);
    let mut found: Vec<Discovery> = Vec::new();
    let stem = file_stem(path);
    push_value(&mut found, discovery(ArtifactKind::Schema, stem.as_str(), 1));
    let ghost head = found.deep_view();
    let mut section = YamlSection::Other;
    let mut route: Option<String> = None;
    let mut index: usize = 0;
    proof {
        assert(head =~= seq![plain_discovery(ArtifactKind::Schema, stem_of(path@), 1)]);
        assert(head + concatenated(parts, 0) =~= head);
    }
    while index < lines.len()
        invariant
            index <= lines@.len(),
            lines.deep_view() == model,
            parts == (|index: int| yaml_line(model, index)),
            yaml_state(model, index as nat) == (YamlState { section, route: route.deep_view() }),
            found.deep_view() == head + concatenated(parts, index as nat),
        decreases lines@.len() - index,
    {
        assert(model[index as int] == lines@[index as int]@);
        let line = trim_text(lines[index].as_str());
        let ghost state = yaml_state(model, index as nat);
        let ghost before = found.deep_view();
        match section_opened(line.as_str()) {
            Some(opened) => {
                section = opened;
            },
            None => {
                if let Some(key) = key_of_line(line.as_str()) {
                    let is_route = has_prefix(key.as_str(), "/");
                    match section {
                        YamlSection::Paths => {
                            if is_route {
                                route = Some(key);
                            } else if names_operation(key.as_str()) {
                                if let Some(current) = &route {
                                    push_value(
                                        &mut found,
                                        discover_route(key.as_str(), current.as_str(), line_number(index)),
                                    );
                                }
                            }
                        },
                        YamlSection::Schemas => {
                            if !key.as_str().is_empty() {
                                push_value(
                                    &mut found,
                                    discovery(ArtifactKind::Schema, key.as_str(), line_number(index)),
                                );
                            }
                        },
                        _ => {},
                    }
                }
            },
        }
        proof {
            assert(yaml_state(model, (index + 1) as nat) == yaml_after(state, trimmed(model[index as int])));
            assert(found.deep_view() =~= before + parts(index as int));
            assert(found.deep_view() =~= head + (concatenated(parts, index as nat) + parts(index as int)));
        }
        index = index + 1;
    }
    assert(model.len() == lines@.len());
    found
}

/// What one keyword declares on a trimmed line of a protocol definition.
pub open spec fn proto_keyword(
    line: Seq<char>,
    prefix: Seq<char>,
    kind: ArtifactKind,
    number: u32,
) -> Seq<DiscoveryView> {
    if begins_with(line, prefix) && identifier_of(line.skip(prefix.len() as int)) is Some {
        seq![
            DiscoveryView {
                kind,
                name: identifier_of(line.skip(prefix.len() as int))->Some_0,
                line: number,
                source: line,
            },
        ]
    } else {
        Seq::empty()
    }
}

/// What one line of a protocol definition declares.
pub open spec fn proto_line(lines: Seq<Seq<char>>, index: int) -> Seq<DiscoveryView> {
    let line = trimmed(lines[index]);
    let number = numbered(index);
    proto_keyword(line, "message "@, ArtifactKind::Schema, number) + proto_keyword(
        line,
        "enum "@,
        ArtifactKind::Schema,
        number,
    ) + proto_keyword(line, "service "@, ArtifactKind::Api, number) + proto_keyword(
        line,
        "rpc "@,
        ArtifactKind::Api,
        number,
    )
}

/// What a protocol definition declares, line by line.
pub open spec fn proto_discoveries(text: Seq<char>) -> Seq<DiscoveryView> {
    let lines = lines_of(text);
    concatenated(|index: int| proto_line(lines, index), lines.len())
}

fn add_proto_keyword(line: &str, prefix: &str, kind: ArtifactKind, number: u32, found: &mut Vec<Discovery>)
    ensures
        final(found).deep_view() == old(found).deep_view() + proto_keyword(line@, prefix@, kind, number),
{
    let ghost start = found.deep_view();
    if has_prefix(line, prefix) {
        let rest = rest_after(line, prefix);
        if let Some(name) = identifier(rest.as_str()) {
            push_value(found, Discovery { kind, name, line: number, source: line.to_owned() });
        }
    }
    assert(found.deep_view() =~= start + proto_keyword(line@, prefix@, kind, number));
}

fn extract_proto(text: &str) -> (found: Vec<Discovery>)
    ensures
        found.deep_view() == proto_discoveries(text@),
{
    let lines = split_lines(text);
    let ghost model = lines_of(text@);
    let ghost parts = |index: int| proto_line(model, index);
    let mut found: Vec<Discovery> = Vec::new();
    let mut index: usize = 0;
    assert(found.deep_view() =~= Seq::empty());
    while index < lines.len()
        invariant
            index <= lines@.len(),
            lines.deep_view() == model,
            parts == (|index: int| proto_line(model, index)),
            found.deep_view() == concatenated(parts, index as nat),
        decreases lines@.len() - index,
    {
        assert(model[index as int] == lines@[index as int]@);
        let line = trim_text(lines[index].as_str());
        let number = line_number(index);
        let ghost before = found.deep_view();
        add_proto_keyword(line.as_str(), "message ", ArtifactKind::Schema, number, &mut found);
        add_proto_keyword(line.as_str(), "enum ", ArtifactKind::Schema, number, &mut found);
        add_proto_keyword(line.as_str(), "service ", ArtifactKind::Api, number, &mut found);
        add_proto_keyword(line.as_str(), "rpc ", ArtifactKind::Api, number, &mut found);
        assert(found.deep_view() =~= before + parts(index as int));
        index = index + 1;
    }
    assert(model.len() == lines@.len());
    found
}

/// What a source declares. XML carries no symbol that a deterministic locator could name.
pub open spec fn discoveries(language: SourceLanguage, path: Seq<char>, text: Seq<char>) -> Seq<DiscoveryView> {
    match language {
        SourceLanguage::Json => json_discoveries(path, text),
        SourceLanguage::Yaml => yaml_discoveries(path, text),
        SourceLanguage::Proto => proto_discoveries(text),
        SourceLanguage::Xml => Seq::empty(),
        _ => code_discoveries(language, text),
    }
}

/// Extracts what a source declares.
pub fn extract(language: SourceLanguage, path: &str, text: &str) -> (found: Vec<Discovery>)
    ensures
        found.deep_view() == discoveries(language, path@, text@),
{
    match language {
        SourceLanguage::Json => extract_json(path, text),
        SourceLanguage::Yaml => extract_yaml(path, text),
        SourceLanguage::Proto => extract_proto(text),
        SourceLanguage::Xml => {
            let found: Vec<Discovery> = Vec::new();
            assert(found.deep_view() =~= Seq::empty());
            found
        },
        _ => extract_code(language, text),
    }
}

/// The part of a text in front of a brace or an equals sign.
pub open spec fn signature_head(text: Seq<char>) -> Seq<char>
    decreases text.len(),
{
    if text.len() == 0 || text[0] == '{' || text[0] == '=' {
        Seq::empty()
    } else {
        seq![text[0]] + signature_head(text.skip(1))
    }
}

/// The signature of a declaration: the words of its first line in front of a brace or an equals
/// sign.
pub open spec fn signature_of(source: Seq<char>) -> Seq<char> {
    let lines = lines_of(source);
    let line = if lines.len() > 0 {
        lines[0]
    } else {
        source
    };
    joined_by(words(signature_head(line)), " "@)
}

fn head_of_signature(text: &str) -> (head: String)
    ensures
        head@ == signature_head(text@),
{
    let chars = characters(text);
    let mut end: usize = 0;
    assert(chars@.skip(0) =~= chars@);
    assert(chars@.take(0) + signature_head(chars@.skip(0)) =~= signature_head(chars@));
    while end < chars.len() && chars[end] != '{' && chars[end] != '='
        invariant
            end <= chars@.len(),
            chars@.take(end as int) + signature_head(chars@.skip(end as int)) == signature_head(chars@),
        decreases chars@.len() - end,
    {
        proof {
            assert(chars@.skip(end as int).skip(1) =~= chars@.skip(end + 1));
            take_next(chars@, end as int);
            assert(chars@.take(end + 1) + signature_head(chars@.skip(end + 1)) =~= chars@.take(end as int) + (seq![
                chars@[end as int],
            ] + signature_head(chars@.skip(end + 1))));
        }
        end = end + 1;
    }
    let head = text_of(&chars, 0, end);
    assert(head@ =~= chars@.take(end as int));
    assert(head@ =~= signature_head(chars@));
    head
}

/// Normalizes the signature of a declaration.
pub fn normalize_signature(value: &str) -> (signature: String)
    ensures
        signature@ == signature_of(value@),
{
    let lines = split_lines(value);
    assert(lines_of(value@).len() == lines@.len());
    let head = if lines.len() > 0 {
        assert(lines_of(value@)[0] == lines@[0]@);
        head_of_signature(lines[0].as_str())
    } else {
        head_of_signature(value)
    };
    let parts = split_words(head.as_str());
    join_texts(&parts, " ")
}

/// The protocol of an endpoint.
pub open spec fn protocol_of(source: Seq<char>) -> Seq<char> {
    if occurs_in(lowered(source), "rpc "@) {
        "grpc"@
    } else {
        "http"@
    }
}

/// The protocol of an endpoint.
pub fn api_protocol(source: &str) -> (protocol: &'static str)
    ensures
        protocol@ == protocol_of(source@),
{
    let lower = lower_text(source);
    if has_part(lower.as_str(), "rpc ") {
        "grpc"
    } else {
        "http"
    }
}

/// The operation of an endpoint.
pub open spec fn operation_of(source: Seq<char>) -> Seq<char> {
    let lower = lowered(source);
    if occurs_in(lower, "post("@) {
        "POST"@
    } else if occurs_in(lower, "put("@) {
        "PUT"@
    } else if occurs_in(lower, "patch("@) {
        "PATCH"@
    } else if occurs_in(lower, "delete("@) {
        "DELETE"@
    } else if occurs_in(lower, "get("@) {
        "GET"@
    } else if occurs_in(lower, "fetch"@) {
        "GET"@
    } else if occurs_in(lower, "rpc "@) {
        "RPC"@
    } else {
        "ANY"@
    }
}

/// The operation of an endpoint.
pub fn api_operation(source: &str) -> (operation: &'static str)
    ensures
        operation@ == operation_of(source@),
{
    let lower = lower_text(source);
    let text = lower.as_str();
    if has_part(text, "post(") {
        "POST"
    } else if has_part(text, "put(") {
        "PUT"
    } else if has_part(text, "patch(") {
        "PATCH"
    } else if has_part(text, "delete(") {
        "DELETE"
    } else if has_part(text, "get(") {
        "GET"
    } else if has_part(text, "fetch") {
        "GET"
    } else if has_part(text, "rpc ") {
        "RPC"
    } else {
        "ANY"
    }
}

/// Whether a character belongs to a version.
pub open spec fn is_version_character(character: char) -> bool {
    is_ascii_alphanumeric_character(character) || character == '.'
}

/// The parts of a text between characters that belong to no version.
pub open spec fn version_parts(text: Seq<char>) -> Seq<Seq<char>>
    decreases text.len(),
{
    if text.len() == 0 {
        seq![Seq::empty()]
    } else {
        let before = version_parts(text.drop_last());
        if is_version_character(text.last()) {
            before.drop_last().push(before.last().push(text.last()))
        } else {
            before.push(Seq::empty())
        }
    }
}

/// Whether a part is a version: a `v` and then nothing but digits.
pub open spec fn is_version(part: Seq<char>) -> bool {
    part.len() > 0 && part[0] == 'v' && forall|i: int| 1 <= i < part.len() ==> is_digit(#[trigger] part[i])
}

/// The first version among parts, from an index on.
pub open spec fn first_version(parts: Seq<Seq<char>>, from: int) -> Option<Seq<char>>
    decreases parts.len() - from,
{
    if from < 0 || from >= parts.len() {
        None
    } else if is_version(parts[from]) {
        Some(parts[from])
    } else {
        first_version(parts, from + 1)
    }
}

/// The version of a schema.
pub open spec fn version_of(source: Seq<char>) -> Seq<char> {
    match first_version(version_parts(source), 0) {
        Some(version) => version,
        None => "unversioned"@,
    }
}

fn split_versions(text: &str) -> (parts: Vec<String>)
    ensures
        parts.deep_view() == version_parts(text@),
{
    let chars = characters(text);
    let mut parts: Vec<String> = Vec::new();
    let mut part = String::new();
    let mut index: usize = 0;
    assert(chars@.take(0) =~= Seq::empty());
    assert(parts.deep_view().push(part@) =~= version_parts(chars@.take(0)));
    while index < chars.len()
        invariant
            index <= chars@.len(),
            parts.deep_view().push(part@) == version_parts(chars@.take(index as int)),
        decreases chars@.len() - index,
    {
        let ghost before = parts.deep_view().push(part@);
        proof {
            take_next(chars@, index as int);
            assert(before.drop_last() =~= parts.deep_view());
        }
        let character = chars[index];
        if alphanumeric(character) || character == '.' {
            part.push(character);
        } else {
            push_value(&mut parts, part);
            part = String::new();
            assert(parts.deep_view() =~= before);
        }
        assert(parts.deep_view().push(part@) =~= version_parts(chars@.take(index + 1)));
        index = index + 1;
    }
    assert(chars@.take(index as int) =~= chars@);
    push_value(&mut parts, part);
    parts
}

fn is_version_text(part: &str) -> (found: bool)
    ensures
        found == is_version(part@),
{
    let chars = characters(part);
    if chars.len() == 0 || chars[0] != 'v' {
        return false;
    }
    let mut index: usize = 1;
    while index < chars.len()
        invariant
            1 <= index <= chars@.len(),
            chars@ == part@,
            forall|i: int| 1 <= i < index ==> is_digit(#[trigger] chars@[i]),
        decreases chars@.len() - index,
    {
        if !digit(chars[index]) {
            return false;
        }
        index = index + 1;
    }
    true
}

/// The version of a schema.
pub fn schema_version(source: &str) -> (version: String)
    ensures
        version@ == version_of(source@),
{
    let parts = split_versions(source);
    let ghost model = version_parts(source@);
    let mut index: usize = 0;
    while index < parts.len()
        invariant
            index <= parts@.len(),
            parts.deep_view() == model,
            model == version_parts(source@),
            first_version(model, index as int) == first_version(model, 0),
        decreases parts@.len() - index,
    {
        assert(model[index as int] == parts@[index as int]@);
        if is_version_text(parts[index].as_str()) {
            return parts[index].copied();
        }
        index = index + 1;
    }
    assert(model.len() == parts@.len());
    "unversioned".to_owned()
}

} // verus!
