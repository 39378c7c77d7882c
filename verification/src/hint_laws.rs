//! What holds of the paths and identifiers that are read out of free text.

use vstd::prelude::*;

use crate::hints::{
    contributes, digits_end, folded_identifiers, hint_terms, in_run, is_identifier_spelling, item_leaves, line_span,
    member_leaves, path_reading, path_stems, reading_of_all, run_end, run_reading, scan_from, segments_before,
    segments_of, span_end, spelled_path, starts_segment, string_leaves, trimmed_run, PathCandidateView, TextScanView,
};
use crate::json::JsonView;
use crate::text::{after_last, before_last, last_position, lowered};
use crate::working_intent::lowercase;

verus! {

/// The extensions that make a dotted run a path.
pub open spec fn names_a_file(extension: Seq<char>) -> bool {
    ||| extension == "kt"@ || extension == "kts"@ || extension == "java"@ || extension == "gradle"@
    ||| extension == "rs"@ || extension == "go"@ || extension == "py"@ || extension == "swift"@ || extension == "m"@
        || extension == "mm"@
    ||| extension == "ts"@ || extension == "tsx"@ || extension == "js"@ || extension == "cjs"@ || extension == "lepus"@
    ||| extension == "ttml"@ || extension == "ttss"@ || extension == "scss"@ || extension == "xml"@
    ||| extension == "yaml"@ || extension == "yml"@ || extension == "toml"@ || extension == "json"@ || extension
        == "proto"@ || extension == "md"@
}

/// A run is a path exactly where it ends with an extension that names a file, in any case, and its last
/// component does not begin with a dot. It is recorded as it was spelled, with its last component as
/// its basename, whether it has a directory, and its line span.
pub proof fn runs_with_an_extension_are_paths(
    value: Seq<char>,
    spelled: Seq<char>,
    absolute: bool,
    span: Option<Seq<char>>,
)
    ensures
        path_reading(value, spelled, absolute, span) is Some <==> value.contains('.') && names_a_file(
            lowered(after_last(value, '.')),
        ) && after_last(value, '/').len() > 0 && after_last(value, '/')[0] != '.',
        path_reading(value, spelled, absolute, span) matches Some(found) ==> found.path == spelled && found.basename
            == after_last(spelled, '/') && found.has_directory == spelled.contains('/') && found.absolute == absolute
            && found.line_span == span,
{
    positions_are_occurrences(value, '.');
}

proof fn positions_are_occurrences(text: Seq<char>, character: char)
    ensures
        last_position(text, character) is Some <==> text.contains(character),
    decreases text.len(),
{
    if text.len() > 0 {
        let shorter = text.drop_last();
        positions_are_occurrences(shorter, character);
        if text.last() == character {
            assert(text[text.len() - 1] == character);
        } else if text.contains(character) {
            let k = choose|k: int| 0 <= k < text.len() && text[k] == character;
            assert(shorter[k] == character);
        } else if shorter.contains(character) {
            let k = choose|k: int| 0 <= k < shorter.len() && shorter[k] == character;
            assert(text[k] == character);
        }
    }
}

/// A run is read as its path, or else as the identifiers among its segments; a run of nothing but
/// dots, dashes and separators is read as nothing. It is absolute exactly where it begins with a
/// separator.
pub proof fn runs_are_paths_or_identifiers(run: Seq<char>, span: Option<Seq<char>>)
    ensures
        ({
            let reading = run_reading(run, span);
            let value = trimmed_run(run);
            let found = path_reading(value, spelled_path(run), run.len() > 0 && run[0] == '/', span);
            &&& value.len() == 0 ==> reading.paths.len() == 0 && reading.identifiers.len() == 0
            &&& value.len() > 0 && found is Some ==> reading.paths == seq![found->Some_0]
                && reading.identifiers.len() == 0
            &&& value.len() > 0 && found is None ==> reading.paths.len() == 0 && reading.identifiers == segments_of(
                value,
            ).filter(|segment: Seq<char>| is_identifier_spelling(segment))
        }),
{
}

/// Dots, dashes and separators at both ends of a run are dropped, and nothing else.
pub proof fn runs_are_trimmed(run: Seq<char>) -> (ends: (Seq<char>, Seq<char>))
    ensures
        run == ends.0 + trimmed_run(run) + ends.1,
        trimmed_run(run).len() > 0 ==> !is_mark(trimmed_run(run)[0]) && !is_mark(trimmed_run(run).last()),
        forall|i: int| 0 <= i < ends.0.len() ==> is_mark(#[trigger] ends.0[i]),
        forall|i: int| 0 <= i < ends.1.len() ==> is_mark(#[trigger] ends.1[i]),
    decreases run.len(),
{
    if run.len() == 0 {
        assert(run =~= Seq::<char>::empty() + trimmed_run(run) + Seq::<char>::empty());
        (Seq::empty(), Seq::empty())
    } else if is_mark(run[0]) {
        let (a, b) = runs_are_trimmed(run.skip(1));
        let more = seq![run[0]] + a;
        assert(run =~= seq![run[0]] + run.skip(1));
        assert(run =~= more + trimmed_run(run) + b);
        assert forall|i: int| 0 <= i < more.len() implies is_mark(#[trigger] more[i]) by {
            if i > 0 {
                assert(is_mark(a[i - 1]));
            }
        }
        (more, b)
    } else if is_mark(run.last()) {
        let (a, b) = runs_are_trimmed(run.drop_last());
        let more = b.push(run.last());
        assert(run =~= run.drop_last().push(run.last()));
        assert(run =~= a + trimmed_run(run) + more);
        assert forall|i: int| 0 <= i < more.len() implies is_mark(#[trigger] more[i]) by {
            if i < b.len() {
                assert(is_mark(b[i]));
            }
        }
        (a, more)
    } else {
        assert(run =~= Seq::<char>::empty() + trimmed_run(run) + Seq::<char>::empty());
        (Seq::empty(), Seq::empty())
    }
}

/// A dot, a dash or a separator.
pub open spec fn is_mark(character: char) -> bool {
    character == '.' || character == '-' || character == '/'
}

/// A letter or a digit of ASCII.
pub open spec fn is_letter_or_digit(character: char) -> bool {
    48 <= character as u32 <= 57 || 65 <= character as u32 <= 90 || 97 <= character as u32 <= 122
}

/// A path-shaped run is made of letters, digits, underscores, dots, dashes and separators.
pub proof fn runs_are_made_of(character: char)
    ensures
        in_run(character) <==> is_letter_or_digit(character) || character == '_' || is_mark(character),
{
}

/// Whether a new word begins inside a text: at a capital behind another character, or at a capital
/// that a small letter follows.
pub open spec fn has_inner_word(text: Seq<char>) -> bool {
    exists|at: int|
        1 <= at < text.len() && 65 <= #[trigger] text[at] as u32 <= 90 && (!(65 <= text[at - 1] as u32 <= 90) || at + 1
            < text.len() && 97 <= text[at + 1] as u32 <= 122)
}

/// A segment is an identifier exactly where it is made of letters, digits and underscores, is not all
/// capitals, is no word of prose, and is either long enough with an underscore in it, or begins with a
/// letter and holds a further word.
pub proof fn identifiers_look_like_code(segment: Seq<char>)
    ensures
        is_identifier_spelling(segment) <==> {
            &&& segment.len() > 0
            &&& forall|i: int| 0 <= i < segment.len() ==> is_letter_or_digit(
                #[trigger] segment[i],
            ) || segment[i] == '_'
            &&& exists|i: int| 0 <= i < segment.len() && 97 <= #[trigger] segment[i] as u32 <= 122
            &&& !is_prose(lowered(segment))
            &&& segment.contains('_') ==> segment.len() >= 6
            &&& !segment.contains('_') ==> segment.len() >= 4 && !(48 <= segment[0] as u32 <= 57) && has_inner_word(
                segment,
            )
        },
{
    segments_count_inner_words(segment, segment.len() as int);
    if forall|i: int| 0 <= i < segment.len() ==> crate::hints::in_identifier(#[trigger] segment[i]) {
        assert forall|i: int| 0 <= i < segment.len() implies is_letter_or_digit(#[trigger] segment[i]) || segment[i]
            == '_' by {
            assert(crate::hints::in_identifier(segment[i]));
        }
        if !(forall|i: int| 0 <= i < segment.len() ==> crate::hints::is_capital(#[trigger] segment[i])) {
            let k = choose|k: int| 0 <= k < segment.len() && !crate::hints::is_capital(#[trigger] segment[k]);
            assert(97 <= segment[k] as u32 <= 122);
        }
    }
    if forall|i: int| 0 <= i < segment.len() ==> is_letter_or_digit(#[trigger] segment[i]) || segment[i] == '_' {
        assert forall|i: int| 0 <= i < segment.len() implies crate::hints::in_identifier(#[trigger] segment[i]) by {
            assert(is_letter_or_digit(segment[i]) || segment[i] == '_');
        }
        if exists|i: int| 0 <= i < segment.len() && 97 <= #[trigger] segment[i] as u32 <= 122 {
            let k = choose|k: int| 0 <= k < segment.len() && 97 <= #[trigger] segment[k] as u32 <= 122;
            assert(!crate::hints::is_capital(segment[k]));
        }
    }
    if has_inner_word(segment) {
        let at = choose|at: int|
            1 <= at < segment.len() && 65 <= #[trigger] segment[at] as u32 <= 90 && (!(65 <= segment[at - 1] as u32 <= 90)
                || at + 1 < segment.len() && 97 <= segment[at + 1] as u32 <= 122);
        assert(starts_segment(segment, at));
    }
}

/// Words that are prose whatever their spelling.
pub open spec fn is_prose(word: Seq<char>) -> bool {
    ||| word == "head"@ || word == "readme"@ || word == "license"@ || word == "todo"@ || word == "fixme"@
    ||| word == "changelog"@ || word == "makefile"@ || word == "dockerfile"@ || word == "gitignore"@
}

proof fn segments_count_inner_words(text: Seq<char>, count: int)
    requires
        0 <= count <= text.len(),
    ensures
        segments_before(text, count) >= 2 <==> exists|at: int| 1 <= at < count && #[trigger] starts_segment(text, at),
        segments_before(text, count) >= 1,
    decreases count,
{
    if count > 1 {
        segments_count_inner_words(text, count - 1);
        if starts_segment(text, count - 1) {
            assert(starts_segment(text, count - 1));
        }
    }
    if segments_before(text, count) >= 2 {
        let at = choose|at: int| 1 <= at < count && #[trigger] starts_segment(text, at);
        assert(starts_segment(text, at));
    }
}

/// A run ends where the first character comes that is not of a run, and what follows it is read on.
pub proof fn texts_are_read_run_by_run(text: Seq<char>, from: int, end: int)
    requires
        0 <= from < end <= text.len(),
        forall|i: int| from <= i < end ==> in_run(#[trigger] text[i]),
        end < text.len() ==> !in_run(text[end]),
    ensures
        run_end(text, from) == end,
        ({
            let next = span_end(text, end);
            scan_from(text, from) == run_reading(text.subrange(from, end), line_span(text, end)).and(
                scan_from(text, next),
            )
        }),
        end == text.len() || text[end] != ':' ==> span_end(text, end) == end && line_span(text, end) is None,
{
    runs_end(text, from, end);
    spans_end(text, end);
    let next = span_end(text, end);
    let reading = run_reading(text.subrange(from, end), line_span(text, end));
    if next >= text.len() {
        let rest = scan_from(text, next);
        assert(reading.and(rest).paths =~= reading.paths);
        assert(reading.and(rest).identifiers =~= reading.identifiers);
    }
}

proof fn runs_end(text: Seq<char>, from: int, end: int)
    requires
        0 <= from <= end <= text.len(),
        forall|i: int| from <= i < end ==> in_run(#[trigger] text[i]),
        end < text.len() ==> !in_run(text[end]),
    ensures
        run_end(text, from) == end,
    decreases end - from,
{
    if from < end {
        assert(in_run(text[from]));
        runs_end(text, from + 1, end);
    }
}

proof fn digits_are_counted(text: Seq<char>, from: int)
    requires
        0 <= from <= text.len(),
    ensures
        from <= digits_end(text, from) <= text.len(),
    decreases text.len() - from,
{
    if from < text.len() && crate::text::is_digit(text[from]) {
        digits_are_counted(text, from + 1);
    }
}

proof fn spans_end(text: Seq<char>, from: int)
    requires
        0 <= from <= text.len(),
    ensures
        from <= span_end(text, from) <= text.len(),
{
    if from < text.len() {
        digits_are_counted(text, from + 1);
        let first = digits_end(text, from + 1);
        if first < text.len() {
            digits_are_counted(text, first + 1);
        }
    }
}

/// What is not of a run is passed over.
pub proof fn other_characters_are_passed_over(text: Seq<char>, from: int)
    requires
        0 <= from < text.len(),
        !in_run(text[from]),
    ensures
        scan_from(text, from) == scan_from(text, from + 1),
{
}

/// Several texts are read one after another, and their spellings are kept in that order.
pub proof fn texts_are_read_in_order(texts: Seq<Seq<char>>, text: Seq<char>)
    ensures
        reading_of_all(texts.push(text)).paths == reading_of_all(texts).paths + scan_from(text, 0).paths,
        reading_of_all(texts.push(text)).identifiers == reading_of_all(texts).identifiers + scan_from(
            text,
            0,
        ).identifiers,
{
    assert(texts.push(text).drop_last() =~= texts);
}

/// The hint of a path is its spelling with its line span, and its stem is its basename up to the last
/// dot.
pub proof fn hints_keep_the_line_span(path: PathCandidateView)
    ensures
        path.line_span matches Some(span) ==> path.hint() == path.path + span,
        path.line_span is None ==> path.hint() == path.path,
        path.stem() == before_last(path.basename, '.'),
{
}

/// The terms of a reading are its identifiers, and of every path its basename, its stem, and its
/// spelling where it has a directory; and nothing else.
pub proof fn readings_give_their_terms(scan: TextScanView, term: Seq<char>, at: int)
    requires
        0 <= at < scan.paths.len(),
    ensures
        hint_terms(scan).contains(scan.paths[at].basename),
        scan.paths[at].stem().len() > 0 ==> hint_terms(scan).contains(scan.paths[at].stem()),
        scan.paths[at].has_directory ==> hint_terms(scan).contains(scan.paths[at].path),
        scan.identifiers.contains(term) ==> hint_terms(scan).contains(term),
        scan.paths[at].stem().len() > 0 ==> path_stems(scan).contains(scan.paths[at].stem()),
        scan.identifiers.contains(term) ==> folded_identifiers(scan).contains(lowercase(term)),
        is_identifier_spelling(scan.paths[at].stem()) ==> folded_identifiers(scan).contains(
            lowercase(scan.paths[at].stem()),
        ),
{
    assert(contributes(scan.paths[at], scan.paths[at].basename));
    if scan.paths[at].stem().len() > 0 {
        assert(contributes(scan.paths[at], scan.paths[at].stem()));
    }
    if scan.paths[at].has_directory {
        assert(contributes(scan.paths[at], scan.paths[at].path));
    }
    if scan.identifiers.contains(term) {
        let k = choose|k: int| 0 <= k < scan.identifiers.len() && scan.identifiers[k] == term;
        assert(lowercase(scan.identifiers[k]) == lowercase(term));
    }
}

/// A term that is neither an identifier nor comes from a path is no term.
pub proof fn terms_come_from_the_reading(scan: TextScanView, term: Seq<char>)
    requires
        hint_terms(scan).contains(term),
        !scan.identifiers.contains(term),
    ensures
        exists|at: int|
            0 <= at < scan.paths.len() && (term == (#[trigger] scan.paths[at]).basename || term == scan.paths[at].stem()
                || scan.paths[at].has_directory && term == scan.paths[at].path),
{
    let at = choose|at: int| 0 <= at < scan.paths.len() && contributes(#[trigger] scan.paths[at], term);
    assert(contributes(scan.paths[at], term));
}

/// The string leaves of a document are its texts, those of the items of its lists in order, and those
/// of the values of its members; names of members and other values are no leaves.
pub proof fn leaves_are_texts(text: Seq<char>, items: Seq<JsonView>, members: Seq<(Seq<char>, JsonView)>, at: int)
    ensures
        string_leaves(JsonView::Text(text)) == seq![text],
        string_leaves(JsonView::Null).len() == 0,
        string_leaves(JsonView::Bool(true)).len() == 0,
        string_leaves(JsonView::Bool(false)).len() == 0,
        string_leaves(JsonView::Number(text)).len() == 0,
        string_leaves(JsonView::Array(Seq::empty())).len() == 0,
        string_leaves(JsonView::Object(Seq::empty())).len() == 0,
        0 <= at < items.len() && string_leaves(items[at]).contains(text) ==> string_leaves(
            JsonView::Array(items),
        ).contains(text),
        0 <= at < members.len() && string_leaves(members[at].1).contains(text) ==> string_leaves(
            JsonView::Object(members),
        ).contains(text),
{
    if 0 <= at < items.len() && string_leaves(items[at]).contains(text) {
        items_give_their_leaves(items, 0, at, text);
    }
    if 0 <= at < members.len() && string_leaves(members[at].1).contains(text) {
        members_give_their_leaves(members, 0, at, text);
    }
}

/// The leaves of a longer list or object are those of the shorter one, and then those of what follows.
pub proof fn leaves_keep_their_order(
    items: Seq<JsonView>,
    item: JsonView,
    members: Seq<(Seq<char>, JsonView)>,
    name: Seq<char>,
)
    ensures
        string_leaves(JsonView::Array(items.push(item))) == string_leaves(JsonView::Array(items)) + string_leaves(
            item,
        ),
        string_leaves(JsonView::Object(members.push((name, item)))) == string_leaves(JsonView::Object(members))
            + string_leaves(item),
{
    items_follow(items, item, 0);
    members_follow(members, name, item, 0);
}

proof fn items_follow(items: Seq<JsonView>, item: JsonView, from: nat)
    requires
        from <= items.len(),
    ensures
        item_leaves(items.push(item), from) == item_leaves(items, from) + string_leaves(item),
    decreases items.len() - from,
{
    let longer = items.push(item);
    if from < items.len() {
        items_follow(items, item, from + 1);
        assert(longer[from as int] == items[from as int]);
        assert(item_leaves(longer, from) =~= item_leaves(items, from) + string_leaves(item));
    } else {
        assert(item_leaves(longer, from + 1) =~= Seq::<Seq<char>>::empty());
        assert(item_leaves(longer, from) =~= item_leaves(items, from) + string_leaves(item));
    }
}

proof fn members_follow(members: Seq<(Seq<char>, JsonView)>, name: Seq<char>, item: JsonView, from: nat)
    requires
        from <= members.len(),
    ensures
        member_leaves(members.push((name, item)), from) == member_leaves(members, from) + string_leaves(item),
    decreases members.len() - from,
{
    let longer = members.push((name, item));
    if from < members.len() {
        members_follow(members, name, item, from + 1);
        assert(longer[from as int] == members[from as int]);
        assert(member_leaves(longer, from) =~= member_leaves(members, from) + string_leaves(item));
    } else {
        assert(member_leaves(longer, from + 1) =~= Seq::<Seq<char>>::empty());
        assert(member_leaves(longer, from) =~= member_leaves(members, from) + string_leaves(item));
    }
}

proof fn items_give_their_leaves(items: Seq<JsonView>, from: nat, at: int, text: Seq<char>)
    requires
        from <= at < items.len(),
        string_leaves(items[at]).contains(text),
    ensures
        item_leaves(items, from).contains(text),
    decreases at - from,
{
    let first = string_leaves(items[from as int]);
    let rest = item_leaves(items, from + 1);
    let all = item_leaves(items, from);
    if from == at {
        let k = choose|k: int| 0 <= k < first.len() && first[k] == text;
        assert(all[k] == text);
    } else {
        items_give_their_leaves(items, from + 1, at, text);
        let k = choose|k: int| 0 <= k < rest.len() && rest[k] == text;
        assert(all[first.len() + k] == text);
    }
}

proof fn members_give_their_leaves(members: Seq<(Seq<char>, JsonView)>, from: nat, at: int, text: Seq<char>)
    requires
        from <= at < members.len(),
        string_leaves(members[at].1).contains(text),
    ensures
        member_leaves(members, from).contains(text),
    decreases at - from,
{
    let first = string_leaves(members[from as int].1);
    let rest = member_leaves(members, from + 1);
    let all = member_leaves(members, from);
    if from == at {
        let k = choose|k: int| 0 <= k < first.len() && first[k] == text;
        assert(all[k] == text);
    } else {
        members_give_their_leaves(members, from + 1, at, text);
        let k = choose|k: int| 0 <= k < rest.len() && rest[k] == text;
        assert(all[first.len() + k] == text);
    }
}

} // verus!
