//! What holds of scanning planned sources: what is read, what is skipped and why, and what a snapshot
//! holds.

use vstd::prelude::*;

use crate::engineering::{ArtifactKind, ArtifactLocatorView, RepositoryIdentityView};
use crate::extract::{discoveries, normal_key, operation_of, protocol_of, signature_of, version_of, DiscoveryView};
use crate::extract_laws::{holds, occurring_is_holding};
use crate::snapshot::{
    artifact_of, artifacts_in, committed, findings_of, generation_components, located, located_all, observation_of,
    reason_text, skipped_components, source_components, state_skip, state_text, with_artifact, with_findings,
    FindingView, PathState, SnapshotArtifactView, SourceFileView, SourceScanView,
};
use crate::sources::{
    is_binary_content, is_generated, is_ignored, is_ignored_component, language_of, language_text, listed_paths,
    module_of, modules_of, parent_of, plan_problem, ArtifactObservation, ArtifactSourceState, RepositoryScanPlanView,
    ScanCoverageView, SkippedFileReason, SkippedFileView, SourceLanguage,
};
use crate::text::{finishes_with, last_position, lowered, split_on};
use crate::value::filter_keeps;

verus! {

proof fn ends_differently(text: Seq<char>, suffix: Seq<char>, back: int)
    requires
        1 <= back <= suffix.len(),
        back <= text.len() ==> text[text.len() - back] != suffix[suffix.len() - back],
    ensures
        !finishes_with(text, suffix),
{
    if finishes_with(text, suffix) {
        assert(text.skip(text.len() - suffix.len())[suffix.len() - back] == text[text.len() - back]);
    }
}

proof fn ends_with_its_end(front: Seq<char>, end: Seq<char>)
    requires
        forall|i: int| 0 <= i < end.len() ==> crate::text::ascii_lower(#[trigger] end[i]) == end[i],
    ensures
        finishes_with(lowered(front + end), end),
        lowered(front + end) == lowered(front) + end,
{
    let whole = lowered(front + end);
    assert(whole =~= lowered(front) + end);
    assert(whole.skip(whole.len() - end.len()) =~= end);
}

/// The language of a path is told by its extension, whatever stands before it.
pub proof fn extensions_tell_the_language(front: Seq<char>)
    ensures
        language_of(front + ".ts"@) == Some(SourceLanguage::TypeScriptJavaScript),
        language_of(front + ".tsx"@) == Some(SourceLanguage::TypeScriptJavaScript),
        language_of(front + ".js"@) == Some(SourceLanguage::TypeScriptJavaScript),
        language_of(front + ".jsx"@) == Some(SourceLanguage::TypeScriptJavaScript),
        language_of(front + ".mjs"@) == Some(SourceLanguage::TypeScriptJavaScript),
        language_of(front + ".cjs"@) == Some(SourceLanguage::TypeScriptJavaScript),
        language_of(front + ".rs"@) == Some(SourceLanguage::Rust),
        language_of(front + ".swift"@) == Some(SourceLanguage::Swift),
        language_of(front + ".kt"@) == Some(SourceLanguage::Kotlin),
        language_of(front + ".kts"@) == Some(SourceLanguage::Kotlin),
        language_of(front + ".java"@) == Some(SourceLanguage::Java),
        language_of(front + ".json"@) == Some(SourceLanguage::Json),
        language_of(front + ".yaml"@) == Some(SourceLanguage::Yaml),
        language_of(front + ".yml"@) == Some(SourceLanguage::Yaml),
        language_of(front + ".proto"@) == Some(SourceLanguage::Proto),
        language_of(front + ".xml"@) == Some(SourceLanguage::Xml),
{
    reveal_strlit(".ts");
    reveal_strlit(".tsx");
    reveal_strlit(".js");
    reveal_strlit(".jsx");
    reveal_strlit(".mjs");
    reveal_strlit(".cjs");
    reveal_strlit(".rs");
    reveal_strlit(".swift");
    reveal_strlit(".kt");
    reveal_strlit(".kts");
    reveal_strlit(".java");
    reveal_strlit(".json");
    reveal_strlit(".yaml");
    reveal_strlit(".yml");
    reveal_strlit(".proto");
    reveal_strlit(".xml");
    let lower = lowered(front + ".ts"@);
    ends_with_its_end(front, ".ts"@);
    let lower = lowered(front + ".tsx"@);
    ends_with_its_end(front, ".tsx"@);
    let lower = lowered(front + ".js"@);
    ends_with_its_end(front, ".js"@);
    let lower = lowered(front + ".jsx"@);
    ends_with_its_end(front, ".jsx"@);
    let lower = lowered(front + ".mjs"@);
    ends_with_its_end(front, ".mjs"@);
    let lower = lowered(front + ".cjs"@);
    ends_with_its_end(front, ".cjs"@);
    let lower = lowered(front + ".rs"@);
    ends_with_its_end(front, ".rs"@);
    ends_differently(lower, ".ts"@, 2);
    ends_differently(lower, ".tsx"@, 1);
    ends_differently(lower, ".js"@, 2);
    ends_differently(lower, ".jsx"@, 1);
    ends_differently(lower, ".mjs"@, 2);
    ends_differently(lower, ".cjs"@, 2);
    let lower = lowered(front + ".swift"@);
    ends_with_its_end(front, ".swift"@);
    ends_differently(lower, ".ts"@, 1);
    ends_differently(lower, ".tsx"@, 1);
    ends_differently(lower, ".js"@, 1);
    ends_differently(lower, ".jsx"@, 1);
    ends_differently(lower, ".mjs"@, 1);
    ends_differently(lower, ".cjs"@, 1);
    ends_differently(lower, ".rs"@, 1);
    let lower = lowered(front + ".kt"@);
    ends_with_its_end(front, ".kt"@);
    ends_differently(lower, ".ts"@, 1);
    ends_differently(lower, ".tsx"@, 1);
    ends_differently(lower, ".js"@, 1);
    ends_differently(lower, ".jsx"@, 1);
    ends_differently(lower, ".mjs"@, 1);
    ends_differently(lower, ".cjs"@, 1);
    ends_differently(lower, ".rs"@, 1);
    ends_differently(lower, ".swift"@, 2);
    let lower = lowered(front + ".kts"@);
    ends_with_its_end(front, ".kts"@);
    ends_differently(lower, ".ts"@, 3);
    ends_differently(lower, ".tsx"@, 1);
    ends_differently(lower, ".js"@, 2);
    ends_differently(lower, ".jsx"@, 1);
    ends_differently(lower, ".mjs"@, 2);
    ends_differently(lower, ".cjs"@, 2);
    ends_differently(lower, ".rs"@, 2);
    ends_differently(lower, ".swift"@, 1);
    let lower = lowered(front + ".java"@);
    ends_with_its_end(front, ".java"@);
    ends_differently(lower, ".ts"@, 1);
    ends_differently(lower, ".tsx"@, 1);
    ends_differently(lower, ".js"@, 1);
    ends_differently(lower, ".jsx"@, 1);
    ends_differently(lower, ".mjs"@, 1);
    ends_differently(lower, ".cjs"@, 1);
    ends_differently(lower, ".rs"@, 1);
    ends_differently(lower, ".swift"@, 1);
    ends_differently(lower, ".kt"@, 1);
    ends_differently(lower, ".kts"@, 1);
    let lower = lowered(front + ".json"@);
    ends_with_its_end(front, ".json"@);
    ends_differently(lower, ".ts"@, 1);
    ends_differently(lower, ".tsx"@, 1);
    ends_differently(lower, ".js"@, 1);
    ends_differently(lower, ".jsx"@, 1);
    ends_differently(lower, ".mjs"@, 1);
    ends_differently(lower, ".cjs"@, 1);
    ends_differently(lower, ".rs"@, 1);
    ends_differently(lower, ".swift"@, 1);
    ends_differently(lower, ".kt"@, 1);
    ends_differently(lower, ".kts"@, 1);
    ends_differently(lower, ".java"@, 1);
    let lower = lowered(front + ".yaml"@);
    ends_with_its_end(front, ".yaml"@);
    ends_differently(lower, ".ts"@, 1);
    ends_differently(lower, ".tsx"@, 1);
    ends_differently(lower, ".js"@, 1);
    ends_differently(lower, ".jsx"@, 1);
    ends_differently(lower, ".mjs"@, 1);
    ends_differently(lower, ".cjs"@, 1);
    ends_differently(lower, ".rs"@, 1);
    ends_differently(lower, ".swift"@, 1);
    ends_differently(lower, ".kt"@, 1);
    ends_differently(lower, ".kts"@, 1);
    ends_differently(lower, ".java"@, 1);
    ends_differently(lower, ".json"@, 1);
    let lower = lowered(front + ".yml"@);
    ends_with_its_end(front, ".yml"@);
    ends_differently(lower, ".ts"@, 1);
    ends_differently(lower, ".tsx"@, 1);
    ends_differently(lower, ".js"@, 1);
    ends_differently(lower, ".jsx"@, 1);
    ends_differently(lower, ".mjs"@, 1);
    ends_differently(lower, ".cjs"@, 1);
    ends_differently(lower, ".rs"@, 1);
    ends_differently(lower, ".swift"@, 1);
    ends_differently(lower, ".kt"@, 1);
    ends_differently(lower, ".kts"@, 1);
    ends_differently(lower, ".java"@, 1);
    ends_differently(lower, ".json"@, 1);
    let lower = lowered(front + ".proto"@);
    ends_with_its_end(front, ".proto"@);
    ends_differently(lower, ".ts"@, 1);
    ends_differently(lower, ".tsx"@, 1);
    ends_differently(lower, ".js"@, 1);
    ends_differently(lower, ".jsx"@, 1);
    ends_differently(lower, ".mjs"@, 1);
    ends_differently(lower, ".cjs"@, 1);
    ends_differently(lower, ".rs"@, 1);
    ends_differently(lower, ".swift"@, 1);
    ends_differently(lower, ".kt"@, 1);
    ends_differently(lower, ".kts"@, 1);
    ends_differently(lower, ".java"@, 1);
    ends_differently(lower, ".json"@, 1);
    ends_differently(lower, ".yaml"@, 1);
    ends_differently(lower, ".yml"@, 1);
    let lower = lowered(front + ".xml"@);
    ends_with_its_end(front, ".xml"@);
    ends_differently(lower, ".ts"@, 1);
    ends_differently(lower, ".tsx"@, 1);
    ends_differently(lower, ".js"@, 1);
    ends_differently(lower, ".jsx"@, 1);
    ends_differently(lower, ".mjs"@, 1);
    ends_differently(lower, ".cjs"@, 1);
    ends_differently(lower, ".rs"@, 1);
    ends_differently(lower, ".swift"@, 1);
    ends_differently(lower, ".kt"@, 1);
    ends_differently(lower, ".kts"@, 1);
    ends_differently(lower, ".java"@, 1);
    ends_differently(lower, ".json"@, 1);
    ends_differently(lower, ".yaml"@, 3);
    ends_differently(lower, ".yml"@, 3);
    ends_differently(lower, ".proto"@, 1);
}

/// The extensions of a language.
pub open spec fn is_extension_of(language: SourceLanguage, extension: Seq<char>) -> bool {
    match language {
        SourceLanguage::TypeScriptJavaScript => {
            extension == ".ts"@ || extension == ".tsx"@ || extension == ".js"@ || extension == ".jsx"@
                || extension == ".mjs"@ || extension == ".cjs"@
        },
        SourceLanguage::Rust => extension == ".rs"@,
        SourceLanguage::Swift => extension == ".swift"@,
        SourceLanguage::Kotlin => extension == ".kt"@ || extension == ".kts"@,
        SourceLanguage::Java => extension == ".java"@,
        SourceLanguage::Json => extension == ".json"@,
        SourceLanguage::Yaml => extension == ".yaml"@ || extension == ".yml"@,
        SourceLanguage::Proto => extension == ".proto"@,
        SourceLanguage::Xml => extension == ".xml"@,
    }
}

/// A path whose language is known ends with an extension of that language, in any case; the case of a
/// path does not matter.
pub proof fn languages_have_their_extensions(path: Seq<char>) -> (extension: Seq<char>)
    ensures
        language_of(path) matches Some(language) ==> is_extension_of(language, extension) && finishes_with(
            lowered(path),
            extension,
        ),
        language_of(lowered(path)) == language_of(path),
{
    let lower = lowered(path);
    assert(lowered(lower) =~= lower);
    if finishes_with(lower, ".ts"@) {
        ".ts"@
    } else if finishes_with(lower, ".tsx"@) {
        ".tsx"@
    } else if finishes_with(lower, ".js"@) {
        ".js"@
    } else if finishes_with(lower, ".jsx"@) {
        ".jsx"@
    } else if finishes_with(lower, ".mjs"@) {
        ".mjs"@
    } else if finishes_with(lower, ".cjs"@) {
        ".cjs"@
    } else if finishes_with(lower, ".rs"@) {
        ".rs"@
    } else if finishes_with(lower, ".swift"@) {
        ".swift"@
    } else if finishes_with(lower, ".kt"@) {
        ".kt"@
    } else if finishes_with(lower, ".kts"@) {
        ".kts"@
    } else if finishes_with(lower, ".java"@) {
        ".java"@
    } else if finishes_with(lower, ".json"@) {
        ".json"@
    } else if finishes_with(lower, ".yaml"@) {
        ".yaml"@
    } else if finishes_with(lower, ".yml"@) {
        ".yml"@
    } else if finishes_with(lower, ".proto"@) {
        ".proto"@
    } else if finishes_with(lower, ".xml"@) {
        ".xml"@
    } else {
        Seq::empty()
    }
}

/// The directories that are never read.
pub open spec fn is_unread_directory(name: Seq<char>) -> bool {
    name == ".git"@ || name == "target"@ || name == "node_modules"@ || name == "vendor"@ || name == "vendors"@
        || name == "dist"@ || name == "build"@ || name == "pods"@ || name == "deriveddata"@ || name == ".env"@
        || name == ".secrets"@ || name == "secrets"@ || name == ".credentials"@ || name == "credentials"@
        || name == ".ssh"@ || name == ".aws"@
}

/// A path is ignored exactly where one of its components, in any case, is a directory that is never
/// read.
pub proof fn unread_directories_are_ignored(path: Seq<char>)
    ensures
        is_ignored(path) <==> exists|i: int|
            0 <= i < split_on(path, '/').len() && is_unread_directory(lowered(#[trigger] split_on(path, '/')[i])),
{
    let pieces = split_on(path, '/');
    assert forall|i: int| 0 <= i < pieces.len() implies is_ignored_component(lowered(#[trigger] pieces[i]))
        == is_unread_directory(lowered(pieces[i])) by {}
}

/// A path is generated exactly where it says so, or is a minified script or a lock file, in any case.
pub proof fn generated_paths_say_so(path: Seq<char>)
    ensures
        is_generated(path) <==> holds(lowered(path), ".generated."@) || finishes_with(lowered(path), ".min.js"@)
            || finishes_with(lowered(path), "package-lock.json"@) || finishes_with(lowered(path), "pnpm-lock.yaml"@),
{
    occurring_is_holding(lowered(path), ".generated."@);
}

/// Content is binary exactly where it is no UTF-8, or holds a zero byte among its first 8192 bytes.
pub proof fn binary_content_holds_zeros(bytes: Seq<u8>)
    ensures
        is_binary_content(bytes) <==> !vstd::utf8::valid_utf8(bytes) || exists|i: int|
            0 <= i < bytes.len() && i < 8192 && #[trigger] bytes[i] == 0,
{
}

/// The parent of a path is what stands before its last separator; a path without one has none, and
/// belongs to the root module.
pub proof fn parents_stand_before_the_last_separator(front: Seq<char>, name: Seq<char>)
    requires
        !name.contains('/'),
    ensures
        parent_of(front + seq!['/'] + name) == Some(front),
        module_of(front + seq!['/'] + name) == front,
        parent_of(name) is None,
        module_of(name) == "root"@,
{
    let path = front + seq!['/'] + name;
    assert(path[front.len() as int] == '/');
    last_separators_are_found(front, name);
    assert(path.take(front.len() as int) =~= front);
}

proof fn last_separators_are_found(front: Seq<char>, name: Seq<char>)
    requires
        !name.contains('/'),
    ensures
        last_position(front + seq!['/'] + name, '/') == Some(front.len() as int),
    decreases name.len(),
{
    let path = front + seq!['/'] + name;
    if name.len() > 0 {
        let shorter = name.drop_last();
        assert(path.last() == name.last());
        assert(name.contains(name.last()));
        assert forall|i: int| 0 <= i < shorter.len() implies shorter[i] != '/' by {
            assert(name.contains(name[i]));
        }
        assert(path.drop_last() =~= front + seq!['/'] + shorter);
        last_separators_are_found(front, shorter);
    } else {
        assert(path =~= front.push('/'));
    }
}

/// What stops a planned path before the file system is asked: the limit of files, a directory that is
/// never read, a generated file, a language that is not known, in this order.
pub proof fn paths_are_skipped_by_spelling(scan: SourceScanView, path: Seq<char>)
    ensures
        ({
            let full = scan.sources.len() >= scan.limits.max_files;
            let reason = scan.consideration_skip(path);
            &&& full ==> reason == Some(SkippedFileReason::FileLimit)
            &&& !full && is_ignored(path) ==> reason == Some(SkippedFileReason::IgnoredDirectory)
            &&& !full && !is_ignored(path) && is_generated(path) ==> reason == Some(SkippedFileReason::Generated)
            &&& !full && !is_ignored(path) && !is_generated(path) && language_of(path) is None ==> reason == Some(
                SkippedFileReason::UnsupportedLanguage,
            )
            &&& !full && !is_ignored(path) && !is_generated(path) && language_of(path) is Some ==> reason is None
        }),
{
}

/// What stops a path for what is found there: nothing, a link, or a file that is not under version
/// control.
pub proof fn paths_are_skipped_by_state(known: bool)
    ensures
        state_skip(PathState::Missing, known) == Some(SkippedFileReason::Missing),
        state_skip(PathState::Symlink, known) == Some(SkippedFileReason::Symlink),
        state_skip(PathState::Present, false) == Some(SkippedFileReason::Untracked),
        state_skip(PathState::Present, true) is None,
{
}

/// What stops a path for where it lies and how large it is: it leaves the Repository, is larger than a
/// file may be, or would take the scan over its total.
pub proof fn paths_are_skipped_by_place_and_size(scan: SourceScanView, inside: bool, size: u64)
    ensures
        ({
            let reason = scan.placement_skip(inside, size);
            let large = size > scan.limits.max_file_bytes;
            let over = scan.scanned_bytes + size > scan.limits.max_total_bytes;
            &&& !inside ==> reason == Some(SkippedFileReason::EscapesRepository)
            &&& inside && large ==> reason == Some(SkippedFileReason::Oversized)
            &&& inside && !large && over && scan.scanned_bytes + size <= u64::MAX ==> reason == Some(
                SkippedFileReason::TotalByteLimit,
            )
            &&& inside && !large && !over ==> reason is None
        }),
{
}

/// A path that is skipped is listed with its reason and nothing else changes; a source that is accepted
/// is added with its bytes and nothing else changes.
pub proof fn steps_change_only_their_own(
    scan: SourceScanView,
    path: Seq<char>,
    reason: SkippedFileReason,
    source: SourceFileView,
)
    ensures
        ({
            let after = scan.skipping(path, reason);
            &&& after.skipped == scan.skipped.push(SkippedFileView { path, reason })
            &&& after.sources == scan.sources
            &&& after.covered == scan.covered
            &&& after.unfinished == scan.unfinished
            &&& after.scanned_bytes == scan.scanned_bytes
            &&& after.expired == scan.expired
            &&& after.limits == scan.limits
        }),
        ({
            let after = scan.accepting(source);
            &&& after.sources == scan.sources.push(source)
            &&& after.skipped == scan.skipped
            &&& after.covered == scan.covered
            &&& after.unfinished == scan.unfinished
            &&& after.expired == scan.expired
            &&& after.limits == scan.limits
            &&& scan.scanned_bytes + source.size <= u64::MAX ==> after.scanned_bytes == scan.scanned_bytes + source.size
        }),
        scan.skipping_if(path, None) == scan,
        scan.skipping_if(path, Some(reason)) == scan.skipping(path, reason),
{
}

/// A discovery becomes an Artifact at a locator that says where it is and what it is: Symbols by name
/// and signature, Tests and Schemas by their qualified names, APIs by protocol, operation and route.
pub proof fn discoveries_are_located(source: SourceFileView, found: DiscoveryView)
    ensures
        ({
            let module = module_of(source.path);
            match found.kind {
                ArtifactKind::Symbol => located(source, found) == Some(
                    ArtifactLocatorView::Symbol {
                        path: source.path,
                        language: language_text(source.language),
                        module,
                        enclosing_type: None,
                        symbol_name: found.name,
                        signature: signature_of(found.source),
                    },
                ),
                ArtifactKind::Test => located(source, found) == Some(
                    ArtifactLocatorView::Test { path: source.path, qualified_test_name: module + "::"@ + found.name },
                ),
                ArtifactKind::Api => located(source, found) == Some(
                    ArtifactLocatorView::Api {
                        path: source.path,
                        protocol: protocol_of(found.source),
                        operation: operation_of(found.source),
                        normalized_route: normal_key(found.name),
                    },
                ),
                ArtifactKind::Schema => located(source, found) == Some(
                    ArtifactLocatorView::Schema {
                        path: source.path,
                        namespace: module,
                        version: version_of(found.source),
                        qualified_name: module + "::"@ + found.name,
                    },
                ),
                _ => located(source, found) is None,
            }
        }),
{
}

/// Every source is an Artifact itself, and so is its module where it has one.
pub proof fn sources_are_artifacts(source: SourceFileView)
    ensures
        findings_of(source).len() > 0,
        findings_of(source)[0].locator == (ArtifactLocatorView::File { path: source.path }),
        findings_of(source)[0].display_name == source.path,
        findings_of(source)[0].line is None,
        parent_of(source.path) matches Some(parent) ==> findings_of(source).len() > 1
            && findings_of(source)[1].locator
            == (ArtifactLocatorView::Module { path: parent }) && findings_of(source)[1].line is None,
{
}

/// Every discovery that has a locator is a finding of its source, with its name and line.
pub proof fn located_discoveries_are_findings(source: SourceFileView, at: int)
    requires
        0 <= at < discoveries(source.language, source.path, source.text).len(),
        located(source, discoveries(source.language, source.path, source.text)[at]) is Some,
    ensures
        ({
            let found = discoveries(source.language, source.path, source.text)[at];
            findings_of(source).contains(
                FindingView {
                    locator: located(source, found)->Some_0,
                    display_name: found.name,
                    line: Some(found.line),
                },
            )
        }),
{
    let all = discoveries(source.language, source.path, source.text);
    let finding = FindingView {
        locator: located(source, all[at])->Some_0,
        display_name: all[at].name,
        line: Some(all[at].line),
    };
    located_are_listed(source, all, at);
    let rest = located_all(source, all);
    let k = choose|k: int| 0 <= k < rest.len() && rest[k] == finding;
    let offset = findings_of(source).len() - rest.len();
    assert(findings_of(source)[offset + k] == finding);
}

proof fn located_are_listed(source: SourceFileView, found: Seq<DiscoveryView>, at: int)
    requires
        0 <= at < found.len(),
        located(source, found[at]) is Some,
    ensures
        located_all(source, found).contains(
            FindingView {
                locator: located(source, found[at])->Some_0,
                display_name: found[at].name,
                line: Some(found[at].line),
            },
        ),
    decreases found.len(),
{
    let shorter = found.drop_last();
    let before = located_all(source, shorter);
    let all = located_all(source, found);
    let finding = FindingView {
        locator: located(source, found[at])->Some_0,
        display_name: found[at].name,
        line: Some(found[at].line),
    };
    if at < shorter.len() {
        located_are_listed(source, shorter, at);
        let k = choose|k: int| 0 <= k < before.len() && before[k] == finding;
        assert(all[k] == finding);
    } else {
        assert(all[before.len() as int] == finding);
    }
}

/// Whether a snapshot holds an Artifact for a finding, and saw it where it was found.
pub open spec fn is_recorded(
    artifacts: Map<Seq<char>, SnapshotArtifactView>,
    repository: RepositoryIdentityView,
    source: SourceFileView,
    finding: FindingView,
) -> bool {
    let artifact = artifact_of(repository, finding);
    let key = artifact.artifact_key.digest;
    &&& artifacts.contains_key(key)
    &&& artifacts[key].artifact.artifact_key.digest == key
    &&& artifacts[key].observations.to_set().contains(observation_of(source, finding))
}

/// An Artifact of a finding has the finding's locator, name and Repository; an observation says where,
/// in what language and in what state it was seen.
pub proof fn artifacts_say_what_was_found(
    repository: RepositoryIdentityView,
    source: SourceFileView,
    finding: FindingView,
)
    ensures
        artifact_of(repository, finding).repository == repository,
        artifact_of(repository, finding).artifact_key.locator == finding.locator,
        artifact_of(repository, finding).artifact_key.repository_id == repository.repository_id,
        artifact_of(repository, finding).display_name == finding.display_name,
        observation_of(source, finding).path == source.path,
        observation_of(source, finding).line == finding.line,
        observation_of(source, finding).language == source.language,
        observation_of(source, finding).source_state == source.source_state,
{
}

proof fn recording_records(
    artifacts: Map<Seq<char>, SnapshotArtifactView>,
    repository: RepositoryIdentityView,
    source: SourceFileView,
    finding: FindingView,
    other_source: SourceFileView,
    other: FindingView,
)
    requires
        keys_are_digests(artifacts),
    ensures
        ({
            let after = with_artifact(artifacts, artifact_of(repository, finding), observation_of(source, finding));
            &&& keys_are_digests(after)
            &&& is_recorded(after, repository, source, finding)
            &&& is_recorded(artifacts, repository, other_source, other) ==> is_recorded(
                after,
                repository,
                other_source,
                other,
            )
        }),
{
    let artifact = artifact_of(repository, finding);
    let observation = observation_of(source, finding);
    let key = artifact.artifact_key.digest;
    let after = with_artifact(artifacts, artifact, observation);
    if artifacts.contains_key(key) {
        let all = artifacts[key].observations.to_set().insert(observation);
        crate::order::listing_lists::<ArtifactObservation>(all);
        assert(after[key].observations.to_set() == all);
    } else {
        assert(after[key].observations.contains(after[key].observations[0]));
    }
    let other_key = artifact_of(repository, other).artifact_key.digest;
    if is_recorded(artifacts, repository, other_source, other) && other_key != key {
        assert(after[other_key] == artifacts[other_key]);
    }
}

/// Whether Artifacts are held under their digests.
pub open spec fn keys_are_digests(artifacts: Map<Seq<char>, SnapshotArtifactView>) -> bool {
    forall|key: Seq<char>| #[trigger]
        artifacts.contains_key(key) ==> artifacts[key].artifact.artifact_key.digest == key
}

proof fn findings_are_recorded(
    artifacts: Map<Seq<char>, SnapshotArtifactView>,
    repository: RepositoryIdentityView,
    source: SourceFileView,
    count: nat,
    at: int,
    other_source: SourceFileView,
    other: FindingView,
)
    requires
        keys_are_digests(artifacts),
        count <= findings_of(source).len(),
    ensures
        keys_are_digests(with_findings(artifacts, repository, source, count)),
        0 <= at < count ==> is_recorded(
            with_findings(artifacts, repository, source, count),
            repository,
            source,
            findings_of(source)[at],
        ),
        is_recorded(artifacts, repository, other_source, other) ==> is_recorded(
            with_findings(artifacts, repository, source, count),
            repository,
            other_source,
            other,
        ),
    decreases count,
{
    if count > 0 {
        let before = with_findings(artifacts, repository, source, (count - 1) as nat);
        let finding = findings_of(source)[count - 1];
        findings_are_recorded(artifacts, repository, source, (count - 1) as nat, at, other_source, other);
        recording_records(before, repository, source, finding, other_source, other);
        if 0 <= at < count - 1 {
            recording_records(before, repository, source, finding, source, findings_of(source)[at]);
        }
    }
}

/// Every finding of every source that was parsed is an Artifact of the snapshot, which was seen where
/// it was found.
pub proof fn every_finding_is_recorded(
    repository: RepositoryIdentityView,
    sources: Seq<SourceFileView>,
    source: int,
    at: int,
)
    requires
        0 <= source < sources.len(),
        0 <= at < findings_of(sources[source]).len(),
    ensures
        is_recorded(artifacts_in(repository, sources), repository, sources[source], findings_of(sources[source])[at]),
        keys_are_digests(artifacts_in(repository, sources)),
    decreases sources.len(),
{
    let shorter = sources.drop_last();
    let before = artifacts_in(repository, shorter);
    let last = sources.last();
    artifacts_have_their_keys(repository, shorter);
    if source < shorter.len() {
        every_finding_is_recorded(repository, shorter, source, at);
        findings_are_recorded(
            before,
            repository,
            last,
            findings_of(last).len(),
            0,
            sources[source],
            findings_of(sources[source])[at],
        );
    } else {
        findings_are_recorded(
            before,
            repository,
            last,
            findings_of(last).len(),
            at,
            last,
            findings_of(last)[at],
        );
    }
}

proof fn artifacts_have_their_keys(repository: RepositoryIdentityView, sources: Seq<SourceFileView>)
    ensures
        keys_are_digests(artifacts_in(repository, sources)),
    decreases sources.len(),
{
    if sources.len() > 0 {
        let last = sources.last();
        artifacts_have_their_keys(repository, sources.drop_last());
        sources_are_artifacts(last);
        findings_are_recorded(
            artifacts_in(repository, sources.drop_last()),
            repository,
            last,
            findings_of(last).len(),
            0,
            last,
            findings_of(last)[0],
        );
    }
}

/// A snapshot is of its Repository and plan, and says how far it came: what it covers, how many files
/// and bytes it read, and what it skipped. Nothing is committed where nothing was inspected.
pub proof fn snapshots_say_how_far_they_came(
    scan: SourceScanView,
    parsed: int,
    repository: RepositoryIdentityView,
    plan: RepositoryScanPlanView,
    head_tree_oid: Seq<char>,
)
    requires
        0 <= parsed,
    ensures
        committed(scan, parsed, repository, plan, head_tree_oid) is None <==> scan.cut_at(parsed).covered.len() == 0,
        committed(scan, parsed, repository, plan, head_tree_oid) matches Some(snapshot) ==> {
            &&& snapshot.repository_id == repository.repository_id
            &&& snapshot.head_tree_oid == head_tree_oid
            &&& snapshot.planned_paths == plan.paths
            &&& snapshot.skipped_files == scan.skipped
            &&& parsed >= scan.sources.len() ==> snapshot.scanned_files == scan.sources.len() as usize
                && snapshot.scanned_bytes == scan.scanned_bytes
            &&& parsed < scan.sources.len() ==> snapshot.scanned_files == parsed as usize
            &&& snapshot.coverage is Complete <==> scan.cut_at(parsed).unfinished.len() == 0
            &&& snapshot.coverage matches ScanCoverageView::Partial { covered, unfinished } ==> covered == scan.cut_at(
                parsed,
            ).covered && unfinished == scan.cut_at(parsed).unfinished
        },
{
}

/// What a generation digests: the policy, the Repository, the tree, the coverage, the plan, and for
/// every source and skipped file its path with its version and state, or with its reason.
pub proof fn generations_digest_everything_read(
    repository_id: Seq<char>,
    head_tree_oid: Seq<char>,
    planned: Seq<Seq<char>>,
    coverage: ScanCoverageView,
    sources: Seq<SourceFileView>,
    skipped: Seq<SkippedFileView>,
    plan_at: int,
    source_at: int,
    skipped_at: int,
)
    ensures
        ({
            let all = generation_components(repository_id, head_tree_oid, planned, coverage, sources, skipped);
            &&& all.len() > 4
                || planned.len() == 0
            &&& all[1] == repository_id
            &&& all[2] == head_tree_oid
            &&& all[3] == coverage.tag()
            &&& 0 <= plan_at < planned.len() ==> all[4 + plan_at] == planned[plan_at]
            &&& 0 <= source_at < sources.len() ==> all.contains(sources[source_at].path) && all.contains(
                sources[source_at].version_digest,
            ) && all.contains(state_text(sources[source_at].source_state))
            &&& 0 <= skipped_at < skipped.len() ==> all.contains(skipped[skipped_at].path) && all.contains(
                reason_text(skipped[skipped_at].reason),
            )
            &&& source_components(sources).len() == 3 * sources.len()
            &&& skipped_components(skipped).len() == 2 * skipped.len()
        }),
{
    let all = generation_components(repository_id, head_tree_oid, planned, coverage, sources, skipped);
    let covered = match coverage {
        ScanCoverageView::Complete => Seq::empty(),
        ScanCoverageView::Partial { covered, unfinished: _ } => covered,
    };
    let a = source_components(sources);
    let b = skipped_components(skipped);
    let start = 4 + planned.len() + covered.len();
    sources_are_digested(sources, source_at);
    skipped_are_digested(skipped, skipped_at);
    if 0 <= source_at < sources.len() {
        assert(all[start + 3 * source_at] == a[3 * source_at]);
        assert(all[start + 3 * source_at + 1] == a[3 * source_at + 1]);
        assert(all[start + 3 * source_at + 2] == a[3 * source_at + 2]);
    }
    if 0 <= skipped_at < skipped.len() {
        assert(all[start + a.len() + 2 * skipped_at] == b[2 * skipped_at]);
        assert(all[start + a.len() + 2 * skipped_at + 1] == b[2 * skipped_at + 1]);
    }
}

proof fn sources_are_digested(sources: Seq<SourceFileView>, at: int)
    ensures
        source_components(sources).len() == 3 * sources.len(),
        0 <= at < sources.len() ==> source_components(sources)[3 * at] == sources[at].path && source_components(
            sources,
        )[3 * at + 1] == sources[at].version_digest && source_components(sources)[3 * at + 2] == state_text(
            sources[at].source_state,
        ),
    decreases sources.len(),
{
    if sources.len() > 0 {
        sources_are_digested(sources.drop_last(), at);
    }
}

proof fn skipped_are_digested(skipped: Seq<SkippedFileView>, at: int)
    ensures
        skipped_components(skipped).len() == 2 * skipped.len(),
        0 <= at < skipped.len() ==> skipped_components(skipped)[2 * at] == skipped[at].path && skipped_components(
            skipped,
        )[2 * at + 1] == reason_text(skipped[at].reason),
    decreases skipped.len(),
{
    if skipped.len() > 0 {
        skipped_are_digested(skipped.drop_last(), at);
    }
}

/// The states of sources are digested under different names.
pub proof fn states_are_told_apart()
    ensures
        state_text(ArtifactSourceState::TrackedHead) != state_text(ArtifactSourceState::TrackedWorkingModification),
{
    reveal_strlit("tracked_head");
    reveal_strlit("tracked_working_modification");
    assert("tracked_head"@.len() != "tracked_working_modification"@.len());
}

/// A plan is valid exactly where it has a path, and at most ten thousand different ones.
pub proof fn plans_are_bounded(paths: Seq<Seq<char>>)
    ensures
        plan_problem(paths) is None <==> paths.len() > 0 && paths.to_set().len() <= 10_000,
{
}

/// What a query of version control reports counts only where it was asked for.
pub proof fn reported_paths_were_asked_for(output: Seq<char>, requested: Set<Seq<char>>, path: Seq<char>)
    ensures
        listed_paths(output, requested).contains(path) ==> requested.contains(path) && path.len() > 0 && split_on(
            output,
            '\0',
        ).contains(path),
{
    let keep = |path: Seq<char>| path.len() > 0 && requested.contains(path);
    let all = listed_paths(output, requested);
    if all.contains(path) {
        let k = choose|k: int| 0 <= k < all.len() && all[k] == path;
        filter_keeps(split_on(output, '\0'), keep, k);
    }
}

/// The modules that a partial scan leaves open are those of its unfinished paths.
pub proof fn open_modules_hold_unfinished_paths(covered: Seq<Seq<char>>, unfinished: Seq<Seq<char>>, at: int)
    requires
        0 <= at < unfinished.len(),
    ensures
        (ScanCoverageView::Partial { covered, unfinished }).open_modules().contains(module_of(unfinished[at])),
        (ScanCoverageView::Complete).open_modules() == Set::<Seq<char>>::empty(),
{
    assert(modules_of(unfinished)[at] == module_of(unfinished[at]));
}

} // verus!
