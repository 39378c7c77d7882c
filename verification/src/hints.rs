//! Pure extraction of repository coordinates from free Agent prose.
//!
//! Agents write `ProductAnchorAssem.kt:202` and `ISearchLiveEntryService` inside statements,
//! rationales and Evidence text regardless of which field they are filling. Everything in this
//! module is a pure function of its input text; nothing consults a checkout.

use vstd::prelude::*;

use crate::json::{JsonValue, JsonView};
use crate::order::{ascending, insert_unique};
use crate::text::{
    after_last, alphanumeric, before_last, characters, digit, has_character, is_ascii_alphanumeric_character,
    is_digit, is_lower, is_upper, joined2, last_position, lower, lower_text, lowered, same_text,
    text_after_last, text_before_last, text_of, upper,
};
use crate::value::{filter_keeps, filter_push, push_value, take_all, take_next, Value};
use crate::working_intent::lowercase;

verus! {

/// One textual spelling that looks like a repository file path.
#[derive(Clone, Debug, PartialEq, Eq, Default, PartialOrd, Ord)]
pub struct PathCandidate {
    /// Exact spelling as written by the Agent, without the trailing line span.
    pub path: String,
    /// Final path component of [`PathCandidate::path`].
    pub basename: String,
    /// True when the spelling already carries at least one directory component.
    pub has_directory: bool,
    /// True when the Agent wrote a host-absolute spelling (`/private/tmp/notes.md`, `~/x/a.md`).
    ///
    /// [`PathCandidate::path`] is always stored without its leading separator, so this flag is the
    /// only surviving record that the spelling named a location on the machine rather than a
    /// coordinate inside a repository. A resolver must not place such a spelling by its basename.
    pub absolute: bool,
    /// `:120` or `:120-140` as written, kept for the hint text only.
    pub line_span: Option<String>,
}

/// The model of [`PathCandidate`].
pub struct PathCandidateView {
    pub path: Seq<char>,
    pub basename: Seq<char>,
    pub has_directory: bool,
    pub absolute: bool,
    pub line_span: Option<Seq<char>>,
}

impl DeepView for PathCandidate {
    type V = PathCandidateView;

    open spec fn deep_view(&self) -> PathCandidateView {
        PathCandidateView {
            path: self.path.deep_view(),
            basename: self.basename.deep_view(),
            has_directory: self.has_directory.deep_view(),
            absolute: self.absolute.deep_view(),
            line_span: self.line_span.deep_view(),
        }
    }
}

impl Value for PathCandidate {
    fn copied(&self) -> (copy: Self) {
        PathCandidate {
            path: self.path.copied(),
            basename: self.basename.copied(),
            has_directory: self.has_directory.copied(),
            absolute: self.absolute.copied(),
            line_span: self.line_span.copied(),
        }
    }

    fn same(&self, other: &Self) -> (equal: bool) {
        self.path.same(&other.path)
            && self.basename.same(&other.basename)
            && self.has_directory.same(&other.has_directory)
            && self.absolute.same(&other.absolute)
            && self.line_span.same(&other.line_span)
    }
}

impl PathCandidateView {
    /// The spelling with its line span.
    pub open spec fn hint(self) -> Seq<char> {
        match self.line_span {
            Some(span) => self.path + span,
            None => self.path,
        }
    }

    /// The basename without its extension.
    pub open spec fn stem(self) -> Seq<char> {
        before_last(self.basename, '.')
    }
}

impl PathCandidate {
    /// The spelling as it is preserved in retrieval text, line span included.
    #[must_use]
    pub fn hint_text(&self) -> (text: String)
        ensures
            text@ == self.deep_view().hint(),
    {
        match &self.line_span {
            Some(span) => joined2(self.path.as_str(), span.as_str()),
            None => self.path.clone(),
        }
    }

    /// Basename without its extension, the form a human types when searching.
    #[must_use]
    pub fn stem(&self) -> (stem: String)
        ensures
            stem@ == self.deep_view().stem(),
    {
        text_before_last(self.basename.as_str(), '.')
    }
}

/// Complete reading of one text: every path spelling and every identifier spelling.
#[derive(Clone, Debug, PartialEq, Eq, Default)]
pub struct TextScan {
    pub paths: Vec<PathCandidate>,
    pub identifiers: Vec<String>,
}

/// The model of [`TextScan`].
pub struct TextScanView {
    pub paths: Seq<PathCandidateView>,
    pub identifiers: Seq<Seq<char>>,
}

impl DeepView for TextScan {
    type V = TextScanView;

    open spec fn deep_view(&self) -> TextScanView {
        TextScanView {
            paths: self.paths.deep_view(),
            identifiers: self.identifiers.deep_view(),
        }
    }
}

impl Value for TextScan {
    fn copied(&self) -> (copy: Self) {
        TextScan {
            paths: self.paths.copied(),
            identifiers: self.identifiers.copied(),
        }
    }

    fn same(&self, other: &Self) -> (equal: bool) {
        self.paths.same(&other.paths)
            && self.identifiers.same(&other.identifiers)
    }
}

/// A reading that found nothing.
pub open spec fn nothing_found() -> TextScanView {
    TextScanView { paths: Seq::empty(), identifiers: Seq::empty() }
}

impl TextScanView {
    /// One reading followed by another.
    pub open spec fn and(self, other: Self) -> Self {
        TextScanView { paths: self.paths + other.paths, identifiers: self.identifiers + other.identifiers }
    }
}

fn empty_scan() -> (scan: TextScan)
    ensures
        scan.deep_view() == nothing_found(),
{
    let scan = TextScan { paths: Vec::new(), identifiers: Vec::new() };
    assert(scan.deep_view().paths =~= Seq::empty());
    assert(scan.deep_view().identifiers =~= Seq::empty());
    scan
}

/// A character of a path-shaped run.
pub open spec fn in_run(character: char) -> bool {
    is_ascii_alphanumeric_character(character) || character == '_' || character == '.' || character == '/'
        || character == '-'
}

fn is_run_character(character: char) -> (result: bool)
    ensures
        result == in_run(character),
{
    alphanumeric(character) || character == '_' || character == '.' || character == '/' || character == '-'
}

/// Where the run that reaches `from` ends.
pub open spec fn run_end(text: Seq<char>, from: int) -> int
    decreases text.len() - from,
{
    if 0 <= from < text.len() && in_run(text[from]) {
        run_end(text, from + 1)
    } else {
        from
    }
}

/// Where the digits that reach `from` end.
pub open spec fn digits_end(text: Seq<char>, from: int) -> int
    decreases text.len() - from,
{
    if 0 <= from < text.len() && is_digit(text[from]) {
        digits_end(text, from + 1)
    } else {
        from
    }
}

/// Where a line span `:120` or `:120-140` that starts at `from` ends; `from` where there is none.
pub open spec fn span_end(text: Seq<char>, from: int) -> int {
    if 0 <= from < text.len() && text[from] == ':' && digits_end(text, from + 1) > from + 1 {
        let first = digits_end(text, from + 1);
        if first < text.len() && text[first] == '-' && digits_end(text, first + 1) > first + 1 {
            digits_end(text, first + 1)
        } else {
            first
        }
    } else {
        from
    }
}

/// The line span that starts at `from`, if there is one.
pub open spec fn line_span(text: Seq<char>, from: int) -> Option<Seq<char>> {
    if span_end(text, from) > from {
        Some(text.subrange(from, span_end(text, from)))
    } else {
        None
    }
}

proof fn digits_end_bounds(text: Seq<char>, from: int)
    requires
        0 <= from <= text.len(),
    ensures
        from <= digits_end(text, from) <= text.len(),
    decreases text.len() - from,
{
    if from < text.len() && is_digit(text[from]) {
        digits_end_bounds(text, from + 1);
    }
}

proof fn run_end_bounds(text: Seq<char>, from: int)
    requires
        0 <= from <= text.len(),
    ensures
        from <= run_end(text, from) <= text.len(),
        from < text.len() && in_run(text[from]) ==> run_end(text, from) > from,
    decreases text.len() - from,
{
    if from < text.len() && in_run(text[from]) {
        run_end_bounds(text, from + 1);
    }
}

proof fn span_end_bounds(text: Seq<char>, from: int)
    requires
        0 <= from <= text.len(),
    ensures
        from <= span_end(text, from) <= text.len(),
{
    if from < text.len() {
        digits_end_bounds(text, from + 1);
        let first = digits_end(text, from + 1);
        if first < text.len() {
            digits_end_bounds(text, first + 1);
        }
    }
}

fn find_digits_end(text: &Vec<char>, from: usize) -> (end: usize)
    requires
        from <= text@.len(),
    ensures
        end == digits_end(text@, from as int),
        from <= end <= text@.len(),
{
    let mut end: usize = from;
    while end < text.len() && digit(text[end])
        invariant
            from <= end <= text@.len(),
            digits_end(text@, from as int) == digits_end(text@, end as int),
        decreases text@.len() - end,
    {
        end = end + 1;
    }
    end
}

/// Reads a trailing `:120` or `:120-140` immediately after one run.
fn read_line_span(text: &Vec<char>, from: usize) -> (end: usize)
    requires
        from <= text@.len(),
    ensures
        end == span_end(text@, from as int),
        from <= end <= text@.len(),
{
    if from >= text.len() || text[from] != ':' {
        return from;
    }
    let first = find_digits_end(text, from + 1);
    if first == from + 1 {
        return from;
    }
    if first < text.len() && text[first] == '-' {
        let second = find_digits_end(text, first + 1);
        if second > first + 1 {
            return second;
        }
    }
    first
}

/// A character that is dropped from the end of a run, and from both ends to read what it names.
pub open spec fn is_edge(character: char) -> bool {
    character == '.' || character == '-' || character == '/'
}

/// A run without the edge characters at both ends.
pub open spec fn trimmed_run(run: Seq<char>) -> Seq<char>
    decreases run.len(),
{
    if run.len() == 0 {
        run
    } else if is_edge(run[0]) {
        trimmed_run(run.skip(1))
    } else if is_edge(run.last()) {
        trimmed_run(run.drop_last())
    } else {
        run
    }
}

fn trim_run(run: &Vec<char>) -> (text: String)
    ensures
        text@ == trimmed_run(run@),
{
    let mut start: usize = 0;
    let mut end: usize = run.len();
    assert(run@.subrange(0, end as int) =~= run@);
    while start < end && (run[start] == '.' || run[start] == '-' || run[start] == '/')
        invariant
            start <= end == run@.len(),
            trimmed_run(run@) == trimmed_run(run@.subrange(start as int, end as int)),
        decreases end - start,
    {
        assert(run@.subrange(start as int, end as int).skip(1) =~= run@.subrange(start as int + 1, end as int));
        start = start + 1;
    }
    while start < end && (run[end - 1] == '.' || run[end - 1] == '-' || run[end - 1] == '/')
        invariant
            start <= end <= run@.len(),
            start < end ==> !is_edge(run@[start as int]),
            trimmed_run(run@) == trimmed_run(run@.subrange(start as int, end as int)),
        decreases end - start,
    {
        assert(run@.subrange(start as int, end as int).drop_last() =~= run@.subrange(start as int, end - 1));
        end = end - 1;
    }
    text_of(run, start, end)
}

/// A run without the edge characters at its end.
pub open spec fn without_tail(run: Seq<char>) -> Seq<char>
    decreases run.len(),
{
    if run.len() > 0 && is_edge(run.last()) {
        without_tail(run.drop_last())
    } else {
        run
    }
}

/// A run from its first path component on: what leads up to it are separators and dashes. A dot
/// begins a component.
pub open spec fn without_lead(run: Seq<char>) -> Seq<char>
    decreases run.len(),
{
    if run.len() > 0 && (run[0] == '/' || run[0] == '-') {
        without_lead(run.skip(1))
    } else {
        run
    }
}

/// Whether a path begins with a directory that is spelled with a dot in front: the current or the
/// parent directory, or one whose own name begins with a dot.
pub open spec fn begins_with_dot_directory(path: Seq<char>) -> bool {
    &&& path.len() > 2
    &&& path[0] == '.'
    &&& path[1] == '/' || !is_edge(path[1]) || path[1] == '.' && path[2] == '/'
}

/// The path that a run spells. Leading separators and the punctuation at both ends are dropped; a
/// dot in front is kept where it begins a directory.
pub open spec fn spelled_path(run: Seq<char>) -> Seq<char> {
    let path = without_lead(without_tail(run));
    if trimmed_run(run).contains('/') && begins_with_dot_directory(path) {
        path
    } else {
        trimmed_run(run)
    }
}

fn spell_path(run: &Vec<char>) -> (text: String)
    ensures
        text@ == spelled_path(run@),
{
    let mut start: usize = 0;
    let mut end: usize = run.len();
    assert(run@.subrange(0, end as int) =~= run@);
    while 0 < end && (run[end - 1] == '.' || run[end - 1] == '-' || run[end - 1] == '/')
        invariant
            end <= run@.len(),
            without_tail(run@) == without_tail(run@.subrange(0, end as int)),
        decreases end,
    {
        assert(run@.subrange(0, end as int).drop_last() =~= run@.subrange(0, end - 1));
        end = end - 1;
    }
    while start < end && (run[start] == '-' || run[start] == '/')
        invariant
            start <= end <= run@.len(),
            without_lead(without_tail(run@)) == without_lead(run@.subrange(start as int, end as int)),
        decreases end - start,
    {
        assert(run@.subrange(start as int, end as int).skip(1) =~= run@.subrange(start as int + 1, end as int));
        start = start + 1;
    }
    let trimmed = trim_run(run);
    let path = text_of(run, start, end);
    assert(path@ == without_lead(without_tail(run@)));
    let letters = characters(path.as_str());
    let dotted = letters.len() > 2 && letters[0] == '.' && (letters[1] == '/' || letters[1] == '.' && letters[2] == '/'
        || letters[1] != '.' && letters[1] != '-');
    assert(dotted == begins_with_dot_directory(path@));
    if dotted && has_character(trimmed.as_str(), '/') {
        path
    } else {
        trimmed
    }
}

/// File extensions that make a dotted run a repository path rather than prose.
pub open spec fn is_path_extension(extension: Seq<char>) -> bool {
    extension == "kt"@ || extension == "java"@ || extension == "rs"@ || extension == "ts"@ || extension == "tsx"@
        || extension == "js"@ || extension == "py"@ || extension == "go"@ || extension == "swift"@ || extension
        == "m"@ || extension == "mm"@ || extension == "kts"@ || extension == "gradle"@ || extension == "yaml"@
        || extension == "yml"@ || extension == "toml"@ || extension == "json"@ || extension == "proto"@ || extension
        == "xml"@ || extension == "md"@ || extension == "lepus"@ || extension == "ttml"@ || extension == "ttss"@
        || extension == "scss"@ || extension == "cjs"@
}

fn path_extension(extension: &str) -> (result: bool)
    ensures
        result == is_path_extension(extension@),
{
    same_text(extension, "kt") || same_text(extension, "java") || same_text(extension, "rs")
        || same_text(extension, "ts") || same_text(extension, "tsx") || same_text(extension, "js")
        || same_text(extension, "py") || same_text(extension, "go") || same_text(extension, "swift")
        || same_text(extension, "m") || same_text(extension, "mm") || same_text(extension, "kts")
        || same_text(extension, "gradle") || same_text(extension, "yaml") || same_text(extension, "yml")
        || same_text(extension, "toml") || same_text(extension, "json") || same_text(extension, "proto")
        || same_text(extension, "xml") || same_text(extension, "md") || same_text(extension, "lepus")
        || same_text(extension, "ttml") || same_text(extension, "ttss") || same_text(extension, "scss")
        || same_text(extension, "cjs")
}

/// Words that look like identifiers but name no repository coordinate.
pub open spec fn is_stop_word(word: Seq<char>) -> bool {
    word == "head"@ || word == "readme"@ || word == "license"@ || word == "todo"@ || word == "fixme"@ || word
        == "changelog"@ || word == "makefile"@ || word == "dockerfile"@ || word == "gitignore"@
}

fn stop_word(word: &str) -> (result: bool)
    ensures
        result == is_stop_word(word@),
{
    same_text(word, "head") || same_text(word, "readme") || same_text(word, "license") || same_text(word, "todo")
        || same_text(word, "fixme") || same_text(word, "changelog") || same_text(word, "makefile")
        || same_text(word, "dockerfile") || same_text(word, "gitignore")
}

/// The path that a trimmed run names, when it names one: a dotted name with a supported extension
/// that does not begin with a dot. It is recorded as it was spelled.
pub open spec fn path_reading(
    value: Seq<char>,
    spelled: Seq<char>,
    absolute: bool,
    span: Option<Seq<char>>,
) -> Option<PathCandidateView> {
    let name = after_last(value, '/');
    if last_position(value, '.') is Some && is_path_extension(lowered(after_last(value, '.'))) && name.len() > 0
        && name[0] != '.' {
        Some(
            PathCandidateView {
                path: spelled,
                basename: after_last(spelled, '/'),
                has_directory: spelled.contains('/'),
                absolute,
                line_span: span,
            },
        )
    } else {
        None
    }
}

fn path_candidate(
    value: &str,
    spelled: String,
    absolute: bool,
    span: Option<String>,
) -> (candidate: Option<PathCandidate>)
    ensures
        candidate.deep_view() == path_reading(value@, spelled@, absolute, span.deep_view()),
{
    let chars = characters(value);
    let dot = crate::text::find_last(&chars, '.');
    if dot.is_none() {
        return None;
    }
    let extension = text_after_last(value, '.');
    let folded = lower_text(extension.as_str());
    if !path_extension(folded.as_str()) {
        return None;
    }
    let name = text_after_last(value, '/');
    let letters = characters(name.as_str());
    if letters.len() == 0 || letters[0] == '.' {
        return None;
    }
    let basename = text_after_last(spelled.as_str(), '/');
    let has_directory = has_character(spelled.as_str(), '/');
    Some(PathCandidate { path: spelled, basename, has_directory, absolute, line_span: span })
}

/// Whether a CamelCase segment starts at position `at`.
pub open spec fn starts_segment(text: Seq<char>, at: int) -> bool {
    is_upper(text[at]) && (!is_upper(text[at - 1]) || at + 1 < text.len() && is_lower(text[at + 1]))
}

/// The number of CamelCase segments that start in `1..count`, and one.
pub open spec fn segments_before(text: Seq<char>, count: int) -> nat
    decreases count,
{
    if count <= 1 {
        1
    } else if starts_segment(text, count - 1) {
        segments_before(text, count - 1) + 1
    } else {
        segments_before(text, count - 1)
    }
}

/// Counts CamelCase segments the way `ILiveEntryService` splits into `I|Live|Entry|Service`.
#[must_use]
pub fn camel_case_segments(value: &str) -> (segments: usize)
    ensures
        segments == segments_before(value@, value@.len() as int),
{
    let chars = characters(value);
    let mut segments: usize = 1;
    let mut index: usize = 1;
    while index < chars.len()
        invariant
            1 <= index,
            index <= chars@.len() || index == 1,
            chars@ == value@,
            segments <= index,
            segments == segments_before(value@, index as int),
        decreases chars@.len() - index,
    {
        let current = chars[index];
        let previous = chars[index - 1];
        if upper(current) && (!upper(previous) || index + 1 < chars.len() && lower(chars[index + 1])) {
            segments = segments + 1;
        }
        index = index + 1;
    }
    segments
}

/// A character of an identifier.
pub open spec fn in_identifier(character: char) -> bool {
    is_ascii_alphanumeric_character(character) || character == '_'
}

/// A character that does not tell an identifier from a word in capitals.
pub open spec fn is_capital(character: char) -> bool {
    is_upper(character) || is_digit(character) || character == '_'
}

/// Whether a segment of a run is an identifier spelling.
pub open spec fn is_identifier_spelling(segment: Seq<char>) -> bool {
    &&& segment.len() > 0
    &&& forall|i: int| 0 <= i < segment.len() ==> in_identifier(#[trigger] segment[i])
    &&& !(forall|i: int| 0 <= i < segment.len() ==> is_capital(#[trigger] segment[i]))
    &&& !is_stop_word(lowered(segment))
    &&& if segment.contains('_') {
        segment.len() >= 6
    } else {
        segment.len() >= 4 && (is_upper(segment[0]) || is_lower(segment[0])) && segments_before(
            segment,
            segment.len() as int,
        ) >= 2
    }
}

fn identifier_candidate(segment: &str) -> (result: bool)
    ensures
        result == is_identifier_spelling(segment@),
{
    let chars = characters(segment);
    if chars.len() == 0 {
        return false;
    }
    let mut capitals = true;
    let mut index: usize = 0;
    while index < chars.len()
        invariant
            index <= chars@.len(),
            chars@ == segment@,
            forall|i: int| 0 <= i < index ==> in_identifier(#[trigger] segment@[i]),
            capitals == (forall|i: int| 0 <= i < index ==> is_capital(#[trigger] segment@[i])),
        decreases chars@.len() - index,
    {
        let character = chars[index];
        assert(character == segment@[index as int]);
        if !(alphanumeric(character) || character == '_') {
            assert(!in_identifier(segment@[index as int]));
            return false;
        }
        if !(upper(character) || digit(character) || character == '_') {
            assert(!is_capital(segment@[index as int]));
            capitals = false;
        }
        index = index + 1;
    }
    if capitals {
        return false;
    }
    let folded = lower_text(segment);
    if stop_word(folded.as_str()) {
        return false;
    }
    if has_character(segment, '_') {
        return chars.len() >= 6;
    }
    if chars.len() < 4 || !(upper(chars[0]) || lower(chars[0])) {
        return false;
    }
    camel_case_segments(segment) >= 2
}

/// The identifier spellings of a trimmed run: those of its segments between `.`, `/` and `-`.
pub open spec fn identifiers_in(segments: Seq<Seq<char>>) -> Seq<Seq<char>> {
    segments.filter(|segment: Seq<char>| is_identifier_spelling(segment))
}

/// The segments of a run between edge characters.
pub open spec fn segments_of(run: Seq<char>) -> Seq<Seq<char>>
    decreases run.len(),
{
    if run.len() == 0 {
        seq![Seq::empty()]
    } else {
        let before = segments_of(run.drop_last());
        if is_edge(run.last()) {
            before.push(Seq::empty())
        } else {
            before.drop_last().push(before.last().push(run.last()))
        }
    }
}

fn split_segments(run: &str) -> (pieces: Vec<String>)
    ensures
        pieces.deep_view() == segments_of(run@),
{
    let mut pieces: Vec<String> = Vec::new();
    let mut piece = String::new();
    assert(pieces.deep_view().push(piece@) =~= segments_of(run@.take(0)));
    for character in it: run.chars()
        invariant
            it.seq() == run@,
            pieces.deep_view().push(piece@) == segments_of(run@.take(it.index() as int)),
    {
        let ghost before = pieces.deep_view().push(piece@);
        proof {
            take_next(run@, it.index() as int);
            assert(before.drop_last() =~= pieces.deep_view());
        }
        if character == '.' || character == '-' || character == '/' {
            push_value(&mut pieces, piece);
            piece = String::new();
        } else {
            piece.push(character);
        }
    }
    push_value(&mut pieces, piece);
    proof {
        take_all(run@);
    }
    pieces
}

/// The reading of one run: a path spelling, or the identifier spellings in it.
pub open spec fn run_reading(run: Seq<char>, span: Option<Seq<char>>) -> TextScanView {
    let value = trimmed_run(run);
    let absolute = run.len() > 0 && run[0] == '/';
    if value.len() == 0 {
        nothing_found()
    } else {
        match path_reading(value, spelled_path(run), absolute, span) {
            Some(candidate) => TextScanView { paths: seq![candidate], identifiers: Seq::empty() },
            None => TextScanView { paths: Seq::empty(), identifiers: identifiers_in(segments_of(value)) },
        }
    }
}

fn classify_run(run: &Vec<char>, span: Option<String>, scan: &mut TextScan)
    ensures
        final(scan).deep_view() == old(scan).deep_view().and(run_reading(run@, span.deep_view())),
{
    let absolute = run.len() > 0 && run[0] == '/';
    let value = trim_run(run);
    let ghost before = scan.deep_view();
    if value.as_str().is_empty() {
        assert(before.and(nothing_found()).paths =~= before.paths);
        assert(before.and(nothing_found()).identifiers =~= before.identifiers);
        return ;
    }
    if let Some(candidate) = path_candidate(value.as_str(), spell_path(run), absolute, span) {
        push_value(&mut scan.paths, candidate);
        proof {
            let model = candidate.deep_view();
            assert(before.paths + seq![model] =~= before.paths.push(model));
            assert(before.identifiers + Seq::<Seq<char>>::empty() =~= before.identifiers);
        }
        return ;
    }
    let pieces = split_segments(value.as_str());
    let ghost model = segments_of(value@);
    let ghost pick = |segment: Seq<char>| is_identifier_spelling(segment);
    let mut index: usize = 0;
    proof {
        assert(model.take(0).filter(pick) =~= Seq::<Seq<char>>::empty()) by {
            reveal(Seq::filter);
        }
        assert(before.identifiers + Seq::<Seq<char>>::empty() =~= before.identifiers);
        assert(before.paths + Seq::<PathCandidateView>::empty() =~= before.paths);
    }
    while index < pieces.len()
        invariant
            index <= pieces@.len(),
            pieces.deep_view() == model,
            pick == (|segment: Seq<char>| is_identifier_spelling(segment)),
            scan.deep_view().paths == before.paths,
            scan.deep_view().identifiers == before.identifiers + model.take(index as int).filter(pick),
        decreases pieces@.len() - index,
    {
        assert(pieces@[index as int]@ == model[index as int]);
        let kept = identifier_candidate(pieces[index].as_str());
        proof {
            take_next(model, index as int);
            filter_push(model.take(index as int), model[index as int], pick);
        }
        if kept {
            push_value(&mut scan.identifiers, pieces[index].clone());
            assert(scan.deep_view().identifiers =~= before.identifiers + model.take(index as int + 1).filter(pick));
        }
        index = index + 1;
    }
    proof {
        take_all(model);
    }
}

/// The reading of a text from a position on.
pub open spec fn scan_from(text: Seq<char>, from: int) -> TextScanView
    decreases text.len() - from,
{
    if from < 0 || from >= text.len() {
        nothing_found()
    } else if !in_run(text[from]) {
        scan_from(text, from + 1)
    } else {
        let end = run_end(text, from);
        let next = span_end(text, end);
        let reading = run_reading(text.subrange(from, end), line_span(text, end));
        if from < next <= text.len() {
            reading.and(scan_from(text, next))
        } else {
            reading
        }
    }
}

/// The reading of a text.
pub open spec fn reading_of(text: Seq<char>) -> TextScanView {
    scan_from(text, 0)
}

/// Splits one text into maximal ASCII path-shaped runs and classifies each run.
#[must_use]
pub fn scan_text(text: &str) -> (scan: TextScan)
    ensures
        scan.deep_view() == reading_of(text@),
{
    let chars = characters(text);
    let mut scan = empty_scan();
    let mut index: usize = 0;
    proof {
        let whole = scan_from(text@, 0);
        assert(nothing_found().and(whole).paths =~= whole.paths);
        assert(nothing_found().and(whole).identifiers =~= whole.identifiers);
    }
    while index < chars.len()
        invariant
            index <= chars@.len(),
            chars@ == text@,
            scan.deep_view().and(scan_from(text@, index as int)) == scan_from(text@, 0),
        decreases chars@.len() - index,
    {
        if !is_run_character(chars[index]) {
            index = index + 1;
            continue ;
        }
        let start = index;
        let mut end = index;
        while end < chars.len() && is_run_character(chars[end])
            invariant
                start <= end <= chars@.len(),
                chars@ == text@,
                end > start || start < chars@.len() && in_run(text@[start as int]),
                run_end(text@, start as int) == run_end(text@, end as int),
            decreases chars@.len() - end,
        {
            end = end + 1;
        }
        proof {
            run_end_bounds(text@, start as int);
            span_end_bounds(text@, end as int);
        }
        let run_text = text_of(&chars, start, end);
        let run = characters(run_text.as_str());
        let next = read_line_span(&chars, end);
        let span = if next > end {
            Some(text_of(&chars, end, next))
        } else {
            None
        };
        let ghost before = scan.deep_view();
        let ghost reading = run_reading(run@, span.deep_view());
        assert(span.deep_view() == line_span(text@, end as int));
        classify_run(&run, span, &mut scan);
        proof {
            let rest = scan_from(text@, next as int);
            assert(scan_from(text@, start as int) == reading.and(rest));
            assert(before.and(reading.and(rest)).paths =~= before.and(reading).and(rest).paths);
            assert(before.and(reading.and(rest)).identifiers =~= before.and(reading).and(rest).identifiers);
        }
        index = next;
    }
    proof {
        let found = scan.deep_view();
        assert(found.and(nothing_found()).paths =~= found.paths);
        assert(found.and(nothing_found()).identifiers =~= found.identifiers);
    }
    scan
}

/// The reading of several texts, in order.
pub open spec fn reading_of_all(texts: Seq<Seq<char>>) -> TextScanView
    decreases texts.len(),
{
    if texts.len() == 0 {
        nothing_found()
    } else {
        reading_of_all(texts.drop_last()).and(reading_of(texts.last()))
    }
}

/// The characters of each text.
pub open spec fn contents(texts: Seq<&str>) -> Seq<Seq<char>> {
    Seq::new(texts.len(), |i: int| texts[i]@)
}

/// Reads several texts as one, preserving the order in which spellings were written.
#[must_use]
pub fn scan_texts(texts: &[&str]) -> (scan: TextScan)
    ensures
        scan.deep_view() == reading_of_all(contents(texts@)),
{
    let ghost model = contents(texts@);
    let mut scan = empty_scan();
    let mut index: usize = 0;
    while index < texts.len()
        invariant
            index <= texts@.len(),
            model == contents(texts@),
            scan.deep_view() == reading_of_all(model.take(index as int)),
        decreases texts@.len() - index,
    {
        let mut found = scan_text(texts[index]);
        let ghost before = scan.deep_view();
        let ghost reading = found.deep_view();
        scan.paths.append(&mut found.paths);
        scan.identifiers.append(&mut found.identifiers);
        proof {
            take_next(model, index as int);
            assert(scan.deep_view().paths =~= before.paths + reading.paths);
            assert(scan.deep_view().identifiers =~= before.identifiers + reading.identifiers);
        }
        index = index + 1;
    }
    proof {
        take_all(model);
    }
    scan
}

/// Whether a path spelling contributes a hint term.
pub open spec fn contributes(path: PathCandidateView, term: Seq<char>) -> bool {
    term == path.basename || path.stem().len() > 0 && term == path.stem() || path.has_directory && term == path.path
}

/// The hint terms of a reading.
pub open spec fn hint_terms(scan: TextScanView) -> Set<Seq<char>> {
    Set::new(
        |term: Seq<char>|
            scan.identifiers.contains(term) || exists|i: int|
                0 <= i < scan.paths.len() && contributes(#[trigger] scan.paths[i], term),
    )
}

/// Every searchable hint term one body of Claim prose contributes.
///
/// The terms are the identifier spellings plus, for every path spelling, its basename, its
/// extension-free basename and, when the Agent wrote a directory, the full path. The line span is
/// deliberately dropped: it is not a retrieval term.
#[must_use]
pub fn derived_hint_terms(texts: &[&str]) -> (terms: Vec<String>)
    ensures
        ascending::<String>(terms.deep_view()),
        terms.deep_view().to_set() == hint_terms(reading_of_all(contents(texts@))),
{
    let scan = scan_texts(texts);
    let ghost model = scan.deep_view();
    let mut terms: Vec<String> = Vec::new();
    let mut index: usize = 0;
    while index < scan.paths.len()
        invariant
            index <= scan.paths@.len(),
            model == scan.deep_view(),
            ascending::<String>(terms.deep_view()),
            forall|term: Seq<char>| #[trigger]
                terms.deep_view().to_set().contains(term) <==> exists|i: int|
                    0 <= i < index && contributes(#[trigger] model.paths[i], term),
        decreases scan.paths@.len() - index,
    {
        let ghost before = terms.deep_view().to_set();
        let path = &scan.paths[index];
        let ghost candidate = model.paths[index as int];
        assert(path.deep_view() == candidate);
        insert_unique(&mut terms, path.basename.clone());
        let stem = path.stem();
        if !stem.as_str().is_empty() {
            insert_unique(&mut terms, stem);
        }
        if path.has_directory {
            insert_unique(&mut terms, path.path.clone());
        }
        proof {
            let after = terms.deep_view().to_set();
            assert forall|term: Seq<char>| #[trigger] after.contains(term) <==> exists|i: int|
                0 <= i < index + 1 && contributes(#[trigger] model.paths[i], term) by {
                assert(after.contains(term) <==> before.contains(term) || contributes(candidate, term));
                if before.contains(term) {
                    let i = choose|i: int| 0 <= i < index && contributes(#[trigger] model.paths[i], term);
                    assert(contributes(model.paths[i], term));
                }
                if contributes(candidate, term) {
                    assert(contributes(model.paths[index as int], term));
                }
            }
        }
        index = index + 1;
    }
    let ghost from_paths = terms.deep_view().to_set();
    let mut at: usize = 0;
    while at < scan.identifiers.len()
        invariant
            at <= scan.identifiers@.len(),
            model == scan.deep_view(),
            ascending::<String>(terms.deep_view()),
            forall|term: Seq<char>| #[trigger]
                terms.deep_view().to_set().contains(term) <==> from_paths.contains(term) || exists|i: int|
                    0 <= i < at && #[trigger] model.identifiers[i] == term,
        decreases scan.identifiers@.len() - at,
    {
        let ghost before = terms.deep_view().to_set();
        assert(scan.identifiers@[at as int]@ == model.identifiers[at as int]);
        insert_unique(&mut terms, scan.identifiers[at].clone());
        proof {
            let after = terms.deep_view().to_set();
            assert forall|term: Seq<char>| #[trigger] after.contains(term) <==> from_paths.contains(term)
                || exists|i: int| 0 <= i < at + 1 && #[trigger] model.identifiers[i] == term by {
                assert(after.contains(term) <==> before.contains(term) || term == model.identifiers[at as int]);
            }
        }
        at = at + 1;
    }
    assert(terms.deep_view().to_set() =~= hint_terms(model));
    terms
}

/// The non-empty stems of the path spellings of a reading.
pub open spec fn path_stems(scan: TextScanView) -> Set<Seq<char>> {
    Set::new(
        |stem: Seq<char>|
            stem.len() > 0 && exists|i: int| 0 <= i < scan.paths.len() && (#[trigger] scan.paths[i]).stem() == stem,
    )
}

/// Extension-free basenames of every path spelling in one body of prose.
///
/// These are the file-backed coordinates: an Agent writing a file name named a file, whereas an
/// Agent writing `canShow` in a sentence merely used a word that happens to be spelled like code.
#[must_use]
pub fn derived_path_stems(texts: &[&str]) -> (stems: Vec<String>)
    ensures
        ascending::<String>(stems.deep_view()),
        stems.deep_view().to_set() == path_stems(reading_of_all(contents(texts@))),
{
    let scan = scan_texts(texts);
    let ghost model = scan.deep_view();
    let mut stems: Vec<String> = Vec::new();
    let mut index: usize = 0;
    while index < scan.paths.len()
        invariant
            index <= scan.paths@.len(),
            model == scan.deep_view(),
            ascending::<String>(stems.deep_view()),
            forall|stem: Seq<char>| #[trigger]
                stems.deep_view().to_set().contains(stem) <==> stem.len() > 0 && exists|i: int|
                    0 <= i < index && (#[trigger] model.paths[i]).stem() == stem,
        decreases scan.paths@.len() - index,
    {
        let ghost before = stems.deep_view().to_set();
        assert(scan.paths@[index as int].deep_view() == model.paths[index as int]);
        let stem = scan.paths[index].stem();
        if !stem.as_str().is_empty() {
            insert_unique(&mut stems, stem);
        }
        proof {
            let after = stems.deep_view().to_set();
            assert forall|stem: Seq<char>| #[trigger] after.contains(stem) <==> stem.len() > 0 && exists|i: int|
                0 <= i < index + 1 && (#[trigger] model.paths[i]).stem() == stem by {
                assert(after.contains(stem) <==> before.contains(stem) || stem.len() > 0 && stem
                    == model.paths[index as int].stem());
            }
        }
        index = index + 1;
    }
    assert(stems.deep_view().to_set() =~= path_stems(model));
    stems
}

/// The identifier-shaped terms of a reading, in lower case.
pub open spec fn folded_identifiers(scan: TextScanView) -> Set<Seq<char>> {
    Set::new(
        |term: Seq<char>|
            (exists|i: int| 0 <= i < scan.identifiers.len() && lowercase(#[trigger] scan.identifiers[i]) == term) || (
            exists|i: int|
                0 <= i < scan.paths.len() && is_identifier_spelling((#[trigger] scan.paths[i]).stem()) && lowercase(
                    scan.paths[i].stem(),
                ) == term),
    )
}

/// The identifier-shaped terms of one body of prose, deduplicated and normalized to lower case.
///
/// This is a comparison key: the same spelling inside two texts must compare equal, and case is
/// the only difference the two spellings are allowed to have.
#[must_use]
pub fn normalized_identifiers(texts: &[&str]) -> (identifiers: Vec<String>)
    ensures
        ascending::<String>(identifiers.deep_view()),
        identifiers.deep_view().to_set() == folded_identifiers(reading_of_all(contents(texts@))),
{
    let scan = scan_texts(texts);
    let ghost model = scan.deep_view();
    let mut terms: Vec<String> = Vec::new();
    let mut index: usize = 0;
    while index < scan.identifiers.len()
        invariant
            index <= scan.identifiers@.len(),
            model == scan.deep_view(),
            ascending::<String>(terms.deep_view()),
            forall|term: Seq<char>| #[trigger]
                terms.deep_view().to_set().contains(term) <==> exists|i: int|
                    0 <= i < index && lowercase(#[trigger] model.identifiers[i]) == term,
        decreases scan.identifiers@.len() - index,
    {
        let ghost before = terms.deep_view().to_set();
        assert(scan.identifiers@[index as int]@ == model.identifiers[index as int]);
        insert_unique(&mut terms, scan.identifiers[index].as_str().to_lowercase());
        proof {
            let after = terms.deep_view().to_set();
            assert forall|term: Seq<char>| #[trigger] after.contains(term) <==> exists|i: int|
                0 <= i < index + 1 && lowercase(#[trigger] model.identifiers[i]) == term by {
                assert(after.contains(term) <==> before.contains(term) || term == lowercase(
                    model.identifiers[index as int],
                ));
            }
        }
        index = index + 1;
    }
    let ghost spelled = terms.deep_view().to_set();
    let mut at: usize = 0;
    while at < scan.paths.len()
        invariant
            at <= scan.paths@.len(),
            model == scan.deep_view(),
            ascending::<String>(terms.deep_view()),
            forall|term: Seq<char>| #[trigger]
                terms.deep_view().to_set().contains(term) <==> spelled.contains(term) || exists|i: int|
                    0 <= i < at && is_identifier_spelling((#[trigger] model.paths[i]).stem()) && lowercase(
                        model.paths[i].stem(),
                    ) == term,
        decreases scan.paths@.len() - at,
    {
        let ghost before = terms.deep_view().to_set();
        assert(scan.paths@[at as int].deep_view() == model.paths[at as int]);
        let stem = scan.paths[at].stem();
        if identifier_candidate(stem.as_str()) {
            insert_unique(&mut terms, stem.as_str().to_lowercase());
        }
        proof {
            let after = terms.deep_view().to_set();
            let current = model.paths[at as int].stem();
            assert forall|term: Seq<char>| #[trigger] after.contains(term) <==> spelled.contains(term) || exists|i: int|
                0 <= i < at + 1 && is_identifier_spelling((#[trigger] model.paths[i]).stem()) && lowercase(
                    model.paths[i].stem(),
                ) == term by {
                assert(after.contains(term) <==> before.contains(term) || is_identifier_spelling(current) && term
                    == lowercase(current));
            }
        }
        at = at + 1;
    }
    assert(terms.deep_view().to_set() =~= folded_identifiers(model));
    terms
}

/// The string leaves of a JSON document, in order.
pub open spec fn string_leaves(value: JsonView) -> Seq<Seq<char>>
    decreases value, 0nat,
{
    match value {
        JsonView::Text(text) => seq![text],
        JsonView::Array(items) => item_leaves(items, 0),
        JsonView::Object(members) => member_leaves(members, 0),
        _ => Seq::empty(),
    }
}

/// The string leaves of the items of an array, from a position on.
pub open spec fn item_leaves(items: Seq<JsonView>, from: nat) -> Seq<Seq<char>>
    decreases items, items.len() - from,
{
    if from >= items.len() {
        Seq::empty()
    } else {
        string_leaves(items[from as int]) + item_leaves(items, from + 1)
    }
}

/// The string leaves of the members of an object, from a position on.
pub open spec fn member_leaves(members: Seq<(Seq<char>, JsonView)>, from: nat) -> Seq<Seq<char>>
    decreases members, members.len() - from,
{
    if from >= members.len() {
        Seq::empty()
    } else {
        string_leaves(members[from as int].1) + member_leaves(members, from + 1)
    }
}

/// Collects every string leaf of one JSON document, so structured Evidence content is read as
/// prose without its keys leaking into the identifier set.
pub fn json_string_leaves(value: &JsonValue, out: &mut Vec<String>)
    ensures
        final(out).deep_view() == old(out).deep_view() + string_leaves(value.deep_view()),
    decreases value,
{
    let ghost before = out.deep_view();
    match value {
        JsonValue::Text(text) => {
            push_value(out, text.clone());
            assert(before + seq![text@] =~= before.push(text@));
        },
        JsonValue::Array(items) => {
            let ghost models = value.deep_view()->Array_0;
            let mut index: usize = 0;
            while index < items.len()
                invariant
                    index <= items@.len() == models.len(),
                    *value == JsonValue::Array(*items),
                    value.deep_view() == JsonView::Array(models),
                    forall|i: int| 0 <= i < models.len() ==> #[trigger] models[i] == items@[i].deep_view(),
                    out.deep_view() + item_leaves(models, index as nat) == before + item_leaves(models, 0),
                decreases items@.len() - index,
            {
                let ghost start = out.deep_view();
                let item = &items[index];
                assert(decreases_to!(*items => items[index as int]));
                assert(value->Array_0 == *items);
                assert(decreases_to!(*value => value->Array_0));
                json_string_leaves(item, out);
                assert(models[index as int] == item.deep_view());
                assert(out.deep_view() + item_leaves(models, index as nat + 1) =~= start + item_leaves(
                    models,
                    index as nat,
                ));
                index = index + 1;
            }
            assert(out.deep_view() + Seq::<Seq<char>>::empty() =~= out.deep_view());
        },
        JsonValue::Object(members) => {
            let ghost models = value.deep_view()->Object_0;
            let mut index: usize = 0;
            while index < members.len()
                invariant
                    index <= members@.len() == models.len(),
                    *value == JsonValue::Object(*members),
                    value.deep_view() == JsonView::Object(models),
                    forall|i: int| 0 <= i < models.len() ==> (#[trigger] models[i]).1 == members@[i].1.deep_view(),
                    out.deep_view() + member_leaves(models, index as nat) == before + member_leaves(models, 0),
                decreases members@.len() - index,
            {
                let ghost start = out.deep_view();
                let member = &members[index];
                assert(decreases_to!(*members => members[index as int]));
                assert(value->Object_0 == *members);
                assert(decreases_to!(*value => value->Object_0));
                assert(decreases_to!(*member => member.1));
                json_string_leaves(&member.1, out);
                assert(models[index as int].1 == member.1.deep_view());
                assert(out.deep_view() + member_leaves(models, index as nat + 1) =~= start + member_leaves(
                    models,
                    index as nat,
                ));
                index = index + 1;
            }
            assert(out.deep_view() + Seq::<Seq<char>>::empty() =~= out.deep_view());
        },
        _ => {
            assert(before + Seq::<Seq<char>>::empty() =~= before);
        },
    }
}

/// Whether a text is made of the characters of a path-shaped run.
pub open spec fn is_run(text: Seq<char>) -> bool {
    forall|i: int| 0 <= i < text.len() ==> in_run(#[trigger] text[i])
}

/// Whether a reading holds only spellings of path-shaped runs, and paths without a leading
/// separator.
pub open spec fn is_spelled(scan: TextScanView) -> bool {
    &&& forall|i: int| 0 <= i < scan.identifiers.len() ==> is_run(#[trigger] scan.identifiers[i])
    &&& forall|i: int|
        0 <= i < scan.paths.len() ==> is_run((#[trigger] scan.paths[i]).path) && is_run(scan.paths[i].basename)
            && scan.paths[i].path.len() > 0 && scan.paths[i].path[0] != '/'
}

proof fn trimming_keeps_runs(run: Seq<char>)
    requires
        is_run(run),
    ensures
        is_run(trimmed_run(run)),
    decreases run.len(),
{
    if run.len() == 0 {
    } else if is_edge(run[0]) {
        trimming_keeps_runs(run.skip(1));
    } else if is_edge(run.last()) {
        trimming_keeps_runs(run.drop_last());
    }
}

proof fn dropping_the_tail_keeps_runs(run: Seq<char>)
    requires
        is_run(run),
    ensures
        is_run(without_tail(run)),
        trimmed_run(run) == trimmed_run(without_tail(run)),
    decreases run.len(),
{
    if run.len() > 0 && is_edge(run.last()) {
        dropping_the_tail_keeps_runs(run.drop_last());
        trimming_ignores_the_tail(run);
    }
}

proof fn trimming_ignores_the_tail(run: Seq<char>)
    requires
        run.len() > 0,
        is_edge(run.last()),
    ensures
        trimmed_run(run) == trimmed_run(run.drop_last()),
    decreases run.len(),
{
    if is_edge(run[0]) {
        if run.len() > 1 {
            trimming_ignores_the_tail(run.skip(1));
            assert(run.skip(1).drop_last() =~= run.drop_last().skip(1));
        } else {
            assert(run.skip(1) =~= run.drop_last());
        }
    }
}

proof fn dropping_the_lead_keeps_runs(run: Seq<char>)
    requires
        is_run(run),
    ensures
        is_run(without_lead(run)),
        trimmed_run(run) == trimmed_run(without_lead(run)),
        without_lead(run).len() > 0 ==> without_lead(run)[0] != '/',
    decreases run.len(),
{
    if run.len() > 0 && (run[0] == '/' || run[0] == '-') {
        dropping_the_lead_keeps_runs(run.skip(1));
    }
}

proof fn trimming_trims(run: Seq<char>)
    ensures
        trimmed_run(run).len() > 0 ==> trimmed_run(run)[0] != '/',
        trimmed_run(trimmed_run(run)) == trimmed_run(run),
    decreases run.len(),
{
    if run.len() == 0 {
    } else if is_edge(run[0]) {
        trimming_trims(run.skip(1));
    } else if is_edge(run.last()) {
        trimming_trims(run.drop_last());
    }
}

/// The path that a run spells is a run that names the same thing.
proof fn spelled_paths_are_runs(run: Seq<char>)
    requires
        is_run(run),
    ensures
        is_run(spelled_path(run)),
        trimmed_run(spelled_path(run)) == trimmed_run(run),
        trimmed_run(run).len() > 0 ==> spelled_path(run).len() > 0,
        spelled_path(run).len() > 0 ==> spelled_path(run)[0] != '/',
{
    trimming_keeps_runs(run);
    trimming_trims(run);
    dropping_the_tail_keeps_runs(run);
    dropping_the_lead_keeps_runs(without_tail(run));
}

proof fn dropping_the_tail_ends_in_a_name(run: Seq<char>)
    ensures
        without_tail(run).len() > 0 ==> !is_edge(without_tail(run).last()),
    decreases run.len(),
{
    if run.len() > 0 && is_edge(run.last()) {
        dropping_the_tail_ends_in_a_name(run.drop_last());
    }
}

proof fn dropping_the_lead_keeps_the_end(run: Seq<char>)
    ensures
        without_lead(run).len() > 0 ==> without_lead(run).last() == run.last(),
    decreases run.len(),
{
    if run.len() > 0 && (run[0] == '/' || run[0] == '-') {
        dropping_the_lead_keeps_the_end(run.skip(1));
    }
}

proof fn last_position_behind(text: Seq<char>, character: char)
    requires
        text.len() > 0,
        text.skip(1).contains(character),
    ensures
        after_last(text, character) == after_last(text.skip(1), character),
    decreases text.len(),
{
    last_position_moves(text, character);
    last_position_bounds(text.skip(1), character);
    let at = last_position(text.skip(1), character)->Some_0;
    assert(text.skip(at + 2) =~= text.skip(1).skip(at + 1));
}

proof fn last_position_moves(text: Seq<char>, character: char)
    requires
        text.len() > 0,
        text.skip(1).contains(character),
    ensures
        last_position(text.skip(1), character) is Some,
        last_position(text, character) == Some(last_position(text.skip(1), character)->Some_0 + 1),
    decreases text.len(),
{
    let rest = text.skip(1);
    assert(rest.len() > 0 && rest.last() == text.last());
    if text.last() != character {
        let k = choose|k: int| 0 <= k < rest.len() && rest[k] == character;
        assert(rest.drop_last() =~= text.drop_last().skip(1));
        assert(rest.drop_last()[k] == character);
        last_position_moves(text.drop_last(), character);
    }
}

proof fn trimming_keeps_the_last_component(run: Seq<char>)
    requires
        run.len() > 0 ==> !is_edge(run.last()),
        trimmed_run(run).contains('/'),
    ensures
        run.contains('/'),
        after_last(run, '/') == after_last(trimmed_run(run), '/'),
    decreases run.len(),
{
    if run.len() > 0 && is_edge(run[0]) {
        let rest = run.skip(1);
        assert(rest.len() > 0 ==> rest.last() == run.last());
        trimming_keeps_the_last_component(rest);
        last_position_behind(run, '/');
        let k = choose|k: int| 0 <= k < rest.len() && rest[k] == '/';
        assert(run[k + 1] == '/');
    }
}

/// The path that a run spells names the file that the run names without the characters at its ends:
/// a dot that is kept in front changes neither the last component nor whether there is a directory.
pub proof fn spelled_paths_name_the_same_file(run: Seq<char>)
    requires
        is_run(run),
    ensures
        after_last(spelled_path(run), '/') == after_last(trimmed_run(run), '/'),
        spelled_path(run).contains('/') == trimmed_run(run).contains('/'),
{
    let tailless = without_tail(run);
    let path = without_lead(tailless);
    dropping_the_tail_keeps_runs(run);
    dropping_the_lead_keeps_runs(tailless);
    dropping_the_tail_ends_in_a_name(run);
    dropping_the_lead_keeps_the_end(tailless);
    if trimmed_run(run).contains('/') {
        assert(path.len() > 0 ==> tailless.len() > 0);
        trimming_keeps_the_last_component(path);
    }
}

proof fn last_position_bounds(text: Seq<char>, character: char)
    ensures
        last_position(text, character) matches Some(at) ==> 0 <= at < text.len(),
    decreases text.len(),
{
    if text.len() > 0 && text.last() != character {
        last_position_bounds(text.drop_last(), character);
    }
}

proof fn run_ends_with_run(text: Seq<char>, from: int)
    requires
        0 <= from <= text.len(),
    ensures
        from <= run_end(text, from) <= text.len(),
        is_run(text.subrange(from, run_end(text, from))),
    decreases text.len() - from,
{
    if from < text.len() && in_run(text[from]) {
        run_ends_with_run(text, from + 1);
        let end = run_end(text, from);
        let rest = text.subrange(from + 1, end);
        assert forall|i: int| 0 <= i < end - from implies in_run(#[trigger] text.subrange(from, end)[i]) by {
            if i > 0 {
                assert(text.subrange(from, end)[i] == rest[i - 1]);
            }
        }
    }
}

proof fn runs_read_as_spelled(run: Seq<char>, span: Option<Seq<char>>)
    requires
        is_run(run),
    ensures
        is_spelled(run_reading(run, span)),
{
    let value = trimmed_run(run);
    let reading = run_reading(run, span);
    trimming_keeps_runs(run);
    spelled_paths_are_runs(run);
    last_position_bounds(spelled_path(run), '/');
    if value.len() > 0 && path_reading(value, spelled_path(run), run[0] == '/', span) is None {
        let segments = segments_of(value);
        let keep = |segment: Seq<char>| is_identifier_spelling(segment);
        assert forall|i: int| 0 <= i < reading.identifiers.len() implies is_run(
            #[trigger] reading.identifiers[i],
        ) by {
            filter_keeps(segments, keep, i);
        }
    }
}

proof fn readings_add_up(left: TextScanView, right: TextScanView)
    requires
        is_spelled(left),
        is_spelled(right),
    ensures
        is_spelled(left.and(right)),
{
}

proof fn texts_read_as_spelled(text: Seq<char>, from: int)
    ensures
        is_spelled(scan_from(text, from)),
    decreases text.len() - from,
{
    if from < 0 || from >= text.len() {
    } else if !in_run(text[from]) {
        texts_read_as_spelled(text, from + 1);
    } else {
        let end = run_end(text, from);
        let next = span_end(text, end);
        run_ends_with_run(text, from);
        runs_read_as_spelled(text.subrange(from, end), line_span(text, end));
        if from < next <= text.len() {
            texts_read_as_spelled(text, next);
            readings_add_up(run_reading(text.subrange(from, end), line_span(text, end)), scan_from(text, next));
        }
    }
}

/// What is read out of texts is spelled in path-shaped runs, and a path is held without its leading
/// separator.
pub proof fn readings_are_spelled(texts: Seq<Seq<char>>)
    ensures
        is_spelled(reading_of_all(texts)),
    decreases texts.len(),
{
    if texts.len() > 0 {
        readings_are_spelled(texts.drop_last());
        texts_read_as_spelled(texts.last(), 0);
        readings_add_up(reading_of_all(texts.drop_last()), reading_of(texts.last()));
    }
}

/// A line span is no retrieval term: no hint term holds a colon.
pub proof fn hint_terms_hold_no_line_span(texts: Seq<Seq<char>>, term: Seq<char>)
    requires
        hint_terms(reading_of_all(texts)).contains(term),
    ensures
        is_run(term),
        !term.contains(':'),
{
    let scan = reading_of_all(texts);
    readings_are_spelled(texts);
    if scan.identifiers.contains(term) {
        let i = choose|i: int| 0 <= i < scan.identifiers.len() && scan.identifiers[i] == term;
        assert(is_run(scan.identifiers[i]));
    } else {
        let i = choose|i: int| 0 <= i < scan.paths.len() && contributes(#[trigger] scan.paths[i], term);
        let path = scan.paths[i];
        last_position_bounds(path.basename, '.');
        assert(is_run(path.basename));
        assert(is_run(path.path));
    }
}

} // verus!
