//! Source paths, languages, scan plans, and how much of a plan a scan has read.

use vstd::prelude::*;

use crate::collections::SortedSet;
use crate::engineering::RepoRelativePath;
use crate::error::{fails_as, first, given, invalid, invalid_input, ErrorView, Result};
use crate::ids::RepositoryId;
use crate::lexical::{trim_text, trimmed};
use crate::order::{ascending, set_listing, text_below, text_is_below, Ordered};
use crate::text::{
    after_last, before_last, begins_with, characters, decimal, decimal_text, finishes_with, has_character,
    has_part, has_prefix, has_suffix, joined2, last_position, lower_text, lowered, occurs_in, same_text,
    split_on, split_text, text_after_last, text_before_last, text_of,
};
use crate::value::{filter_push, push_value, take_next, Value};

verus! {

/// The policy under which snapshots are taken, as generations name it.
pub const POLICY_VERSION: &'static str = "planned-paths-plus-safe-tracked-modifications-v2";

/// Global hard bound for one explicit Repository scan plan.
pub const MAX_REPOSITORY_SCAN_PLAN_PATHS: usize = 10_000;

/// Hard ceiling on one batched Git pathspec argument list, in bytes.
pub const MAX_GIT_PATHSPEC_ARGV_BYTES: usize = 98_304;

/// Exact source policy used for a `RepositorySnapshot`.
#[derive(Clone, Copy, Debug, PartialEq, Eq, Structural)]
pub enum SnapshotSourcePolicy {
    /// Read only explicit planned tracked paths and their safe current modifications.
    PlannedPathsWithSafeTrackedModifications,
}

impl DeepView for SnapshotSourcePolicy {
    type V = SnapshotSourcePolicy;

    open spec fn deep_view(&self) -> SnapshotSourcePolicy {
        *self
    }
}

impl Value for SnapshotSourcePolicy {
    fn copied(&self) -> (copy: Self) {
        *self
    }

    fn same(&self, other: &Self) -> (equal: bool) {
        *self == *other
    }
}

/// Which version-controlled source supplied one observation.
#[derive(Clone, Copy, Debug, PartialEq, Eq, Structural)]
pub enum ArtifactSourceState {
    TrackedHead,
    TrackedWorkingModification,
}

impl DeepView for ArtifactSourceState {
    type V = ArtifactSourceState;

    open spec fn deep_view(&self) -> ArtifactSourceState {
        *self
    }
}

impl Value for ArtifactSourceState {
    fn copied(&self) -> (copy: Self) {
        *self
    }

    fn same(&self, other: &Self) -> (equal: bool) {
        *self == *other
    }
}

/// Language family selected by bounded lightweight extraction.
#[derive(Clone, Copy, Debug, PartialEq, Eq, Structural)]
pub enum SourceLanguage {
    Rust,
    TypeScriptJavaScript,
    Swift,
    Kotlin,
    Java,
    Json,
    Yaml,
    Proto,
    Xml,
}

impl DeepView for SourceLanguage {
    type V = SourceLanguage;

    open spec fn deep_view(&self) -> SourceLanguage {
        *self
    }
}

impl Value for SourceLanguage {
    fn copied(&self) -> (copy: Self) {
        *self
    }

    fn same(&self, other: &Self) -> (equal: bool) {
        *self == *other
    }
}

/// One path-level observation of an Artifact. Source contents are never retained.
#[derive(Clone, Debug, PartialEq, Eq)]
pub struct ArtifactObservation {
    pub path: String,
    pub line: Option<u32>,
    pub language: SourceLanguage,
    pub source_state: ArtifactSourceState,
}

/// The model of [`ArtifactObservation`].
pub struct ArtifactObservationView {
    pub path: Seq<char>,
    pub line: Option<u32>,
    pub language: SourceLanguage,
    pub source_state: ArtifactSourceState,
}

impl DeepView for ArtifactObservation {
    type V = ArtifactObservationView;

    open spec fn deep_view(&self) -> ArtifactObservationView {
        ArtifactObservationView {
            path: self.path.deep_view(),
            line: self.line.deep_view(),
            language: self.language.deep_view(),
            source_state: self.source_state.deep_view(),
        }
    }
}

impl Value for ArtifactObservation {
    fn copied(&self) -> (copy: Self) {
        ArtifactObservation {
            path: self.path.copied(),
            line: self.line.copied(),
            language: self.language.copied(),
            source_state: self.source_state.copied(),
        }
    }

    fn same(&self, other: &Self) -> (equal: bool) {
        self.path.same(&other.path)
            && self.line.same(&other.line)
            && self.language.same(&other.language)
            && self.source_state.same(&other.source_state)
    }
}

/// Why one path did not enter the source snapshot.
#[derive(Clone, Copy, Debug, PartialEq, Eq, Structural)]
pub enum SkippedFileReason {
    Missing,
    Untracked,
    IgnoredDirectory,
    Generated,
    UnsupportedLanguage,
    Symlink,
    EscapesRepository,
    Oversized,
    Binary,
    FileLimit,
    TotalByteLimit,
}

impl DeepView for SkippedFileReason {
    type V = SkippedFileReason;

    open spec fn deep_view(&self) -> SkippedFileReason {
        *self
    }
}

impl Value for SkippedFileReason {
    fn copied(&self) -> (copy: Self) {
        *self
    }

    fn same(&self, other: &Self) -> (equal: bool) {
        *self == *other
    }
}

/// One path that did not enter the source snapshot.
#[derive(Clone, Debug, PartialEq, Eq)]
pub struct SkippedFile {
    pub path: String,
    pub reason: SkippedFileReason,
}

/// The model of [`SkippedFile`].
pub struct SkippedFileView {
    pub path: Seq<char>,
    pub reason: SkippedFileReason,
}

impl DeepView for SkippedFile {
    type V = SkippedFileView;

    open spec fn deep_view(&self) -> SkippedFileView {
        SkippedFileView {
            path: self.path.deep_view(),
            reason: self.reason.deep_view(),
        }
    }
}

impl Value for SkippedFile {
    fn copied(&self) -> (copy: Self) {
        SkippedFile {
            path: self.path.copied(),
            reason: self.reason.copied(),
        }
    }

    fn same(&self, other: &Self) -> (equal: bool) {
        self.path.same(&other.path)
            && self.reason.same(&other.reason)
    }
}

/// How much of a scan plan one snapshot actually inspected.
///
/// A budgeted scan may stop before the whole plan is read. The snapshot it still commits is then
/// only authoritative for the paths it reached, and every consumer that would otherwise conclude
/// "this Artifact is gone" has to know where the evidence stops. `Complete` says the plan was read
/// end to end; `Partial` names both halves explicitly so no consumer has to infer the boundary.
#[derive(Clone, Debug, PartialEq, Eq)]
pub enum ScanCoverage {
    /// Every planned path was inspected.
    Complete,
    /// The budget expired mid-plan; only `covered` carries evidence.
    Partial {
        /// Planned paths the scan actually inspected, sorted and deduplicated.
        covered: Vec<RepoRelativePath>,
        /// Planned paths the scan never reached, sorted and deduplicated.
        unfinished: Vec<RepoRelativePath>,
    },
}

/// The model of [`ScanCoverage`].
pub enum ScanCoverageView {
    Complete,
    Partial {
        covered: Seq<Seq<char>>,
        unfinished: Seq<Seq<char>>,
    },
}

impl DeepView for ScanCoverage {
    type V = ScanCoverageView;

    open spec fn deep_view(&self) -> ScanCoverageView {
        match self {
            ScanCoverage::Complete => ScanCoverageView::Complete,
            ScanCoverage::Partial { covered, unfinished } => {
                ScanCoverageView::Partial { covered: covered.deep_view(), unfinished: unfinished.deep_view() }
            },
        }
    }
}

impl Value for ScanCoverage {
    fn copied(&self) -> (copy: Self) {
        match self {
            ScanCoverage::Complete => ScanCoverage::Complete,
            ScanCoverage::Partial { covered, unfinished } => {
                ScanCoverage::Partial { covered: covered.copied(), unfinished: unfinished.copied() }
            },
        }
    }

    fn same(&self, other: &Self) -> (equal: bool) {
        match (self, other) {
            (ScanCoverage::Complete, ScanCoverage::Complete) => true,
            (
                ScanCoverage::Partial { covered: left_covered, unfinished: left_unfinished },
                ScanCoverage::Partial { covered: right_covered, unfinished: right_unfinished },
            ) => left_covered.same(right_covered) && left_unfinished.same(right_unfinished),
            _ => false,
        }
    }
}

/// Hard bounds applied before any source parsing.
#[derive(Clone, Copy, Debug, PartialEq, Eq, Structural)]
pub struct RepositoryScannerLimits {
    pub max_files: usize,
    pub max_file_bytes: u64,
    pub max_total_bytes: u64,
}

impl DeepView for RepositoryScannerLimits {
    type V = RepositoryScannerLimits;

    open spec fn deep_view(&self) -> RepositoryScannerLimits {
        *self
    }
}

impl Value for RepositoryScannerLimits {
    fn copied(&self) -> (copy: Self) {
        *self
    }

    fn same(&self, other: &Self) -> (equal: bool) {
        *self == *other
    }
}

/// Typed, deterministic, bounded set of Repository-relative paths to inspect.
#[derive(Clone, Debug, PartialEq, Eq)]
pub struct RepositoryScanPlan {
    repository_id: RepositoryId,
    paths: Vec<RepoRelativePath>,
}

/// The model of [`RepositoryScanPlan`].
pub struct RepositoryScanPlanView {
    pub repository_id: Seq<char>,
    pub paths: Seq<Seq<char>>,
}

impl DeepView for RepositoryScanPlan {
    type V = RepositoryScanPlanView;

    closed spec fn deep_view(&self) -> RepositoryScanPlanView {
        RepositoryScanPlanView {
            repository_id: self.repository_id.deep_view(),
            paths: self.paths.deep_view(),
        }
    }
}

impl Value for RepositoryScanPlan {
    fn copied(&self) -> (copy: Self) {
        RepositoryScanPlan {
            repository_id: self.repository_id.copied(),
            paths: self.paths.copied(),
        }
    }

    fn same(&self, other: &Self) -> (equal: bool) {
        self.repository_id.same(&other.repository_id)
            && self.paths.same(&other.paths)
    }
}

/// The place of a language among all of them.
pub open spec fn language_rank(language: SourceLanguage) -> u8 {
    match language {
        SourceLanguage::Rust => 0,
        SourceLanguage::TypeScriptJavaScript => 1,
        SourceLanguage::Swift => 2,
        SourceLanguage::Kotlin => 3,
        SourceLanguage::Java => 4,
        SourceLanguage::Json => 5,
        SourceLanguage::Yaml => 6,
        SourceLanguage::Proto => 7,
        SourceLanguage::Xml => 8,
    }
}

fn language_place(language: SourceLanguage) -> (place: u8)
    ensures
        place == language_rank(language),
{
    match language {
        SourceLanguage::Rust => 0,
        SourceLanguage::TypeScriptJavaScript => 1,
        SourceLanguage::Swift => 2,
        SourceLanguage::Kotlin => 3,
        SourceLanguage::Java => 4,
        SourceLanguage::Json => 5,
        SourceLanguage::Yaml => 6,
        SourceLanguage::Proto => 7,
        SourceLanguage::Xml => 8,
    }
}

/// Whether one line comes before another; an absent line comes first.
pub open spec fn line_below(left: Option<u32>, right: Option<u32>) -> bool {
    match (left, right) {
        (None, Some(_)) => true,
        (Some(left), Some(right)) => left < right,
        _ => false,
    }
}

/// Whether one source state comes before another.
pub open spec fn state_below(left: ArtifactSourceState, right: ArtifactSourceState) -> bool {
    left == ArtifactSourceState::TrackedHead && right == ArtifactSourceState::TrackedWorkingModification
}

impl Ordered for ArtifactObservation {
    open spec fn below(left: ArtifactObservationView, right: ArtifactObservationView) -> bool {
        if left.path != right.path {
            text_below(left.path, right.path)
        } else if left.line != right.line {
            line_below(left.line, right.line)
        } else if left.language != right.language {
            language_rank(left.language) < language_rank(right.language)
        } else {
            state_below(left.source_state, right.source_state)
        }
    }

    proof fn order_laws(a: ArtifactObservationView, b: ArtifactObservationView, c: ArtifactObservationView) {
        String::order_laws(a.path, b.path, c.path);
        String::order_laws(b.path, a.path, c.path);
    }

    fn is_below(&self, other: &Self) -> (result: bool) {
        if !self.path.same(&other.path) {
            text_is_below(self.path.as_str(), other.path.as_str())
        } else if !self.line.same(&other.line) {
            match (self.line, other.line) {
                (None, Some(_)) => true,
                (Some(left), Some(right)) => left < right,
                _ => false,
            }
        } else if self.language != other.language {
            language_place(self.language) < language_place(other.language)
        } else {
            self.source_state == ArtifactSourceState::TrackedHead && other.source_state
                == ArtifactSourceState::TrackedWorkingModification
        }
    }
}

/// What stands in front of the last component of a path, if anything does.
pub open spec fn parent_of(path: Seq<char>) -> Option<Seq<char>> {
    if path.contains('/') {
        Some(before_last(path, '/'))
    } else {
        None
    }
}

/// The directory that names the module of a path; a path at the top belongs to `root`.
pub open spec fn module_of(path: Seq<char>) -> Seq<char> {
    match parent_of(path) {
        Some(parent) => parent,
        None => "root"@,
    }
}

/// The last component of a path without its extension. A leading dot starts no extension.
pub open spec fn stem_of(path: Seq<char>) -> Seq<char> {
    let name = after_last(path, '/');
    match last_position(name, '.') {
        Some(at) if at > 0 => name.take(at),
        _ => name,
    }
}

/// The directory of a path, if it lies in one.
pub fn parent_path(path: &str) -> (parent: Option<String>)
    ensures
        match parent {
            Some(parent) => parent_of(path@) == Some(parent@),
            None => parent_of(path@) is None,
        },
{
    if has_character(path, '/') {
        Some(text_before_last(path, '/'))
    } else {
        None
    }
}

/// The module of a path.
pub fn module_name(path: &str) -> (module: String)
    ensures
        module@ == module_of(path@),
{
    match parent_path(path) {
        Some(parent) => parent,
        None => "root".to_owned(),
    }
}

/// The last component of a path without its extension.
pub fn file_stem(path: &str) -> (stem: String)
    ensures
        stem@ == stem_of(path@),
{
    let name = text_after_last(path, '/');
    let chars = characters(name.as_str());
    match crate::text::find_last(&chars, '.') {
        Some(at) => {
            if at > 0 {
                let stem = text_of(&chars, 0, at);
                assert(stem@ =~= name@.take(at as int));
                stem
            } else {
                name
            }
        },
        None => name,
    }
}

/// The language of a path, by its extension in whichever case.
pub open spec fn language_of(path: Seq<char>) -> Option<SourceLanguage> {
    let lower = lowered(path);
    if finishes_with(lower, ".ts"@) || finishes_with(lower, ".tsx"@) || finishes_with(lower, ".js"@)
        || finishes_with(lower, ".jsx"@) || finishes_with(lower, ".mjs"@) || finishes_with(lower, ".cjs"@) {
        Some(SourceLanguage::TypeScriptJavaScript)
    } else if finishes_with(lower, ".rs"@) {
        Some(SourceLanguage::Rust)
    } else if finishes_with(lower, ".swift"@) {
        Some(SourceLanguage::Swift)
    } else if finishes_with(lower, ".kt"@) || finishes_with(lower, ".kts"@) {
        Some(SourceLanguage::Kotlin)
    } else if finishes_with(lower, ".java"@) {
        Some(SourceLanguage::Java)
    } else if finishes_with(lower, ".json"@) {
        Some(SourceLanguage::Json)
    } else if finishes_with(lower, ".yaml"@) || finishes_with(lower, ".yml"@) {
        Some(SourceLanguage::Yaml)
    } else if finishes_with(lower, ".proto"@) {
        Some(SourceLanguage::Proto)
    } else if finishes_with(lower, ".xml"@) {
        Some(SourceLanguage::Xml)
    } else {
        None
    }
}

/// The language of a path.
pub fn language_for_path(path: &str) -> (language: Option<SourceLanguage>)
    ensures
        language == language_of(path@),
{
    let lower = lower_text(path);
    let lower = lower.as_str();
    if has_suffix(lower, ".ts") || has_suffix(lower, ".tsx") || has_suffix(lower, ".js") || has_suffix(lower, ".jsx")
        || has_suffix(lower, ".mjs") || has_suffix(lower, ".cjs") {
        Some(SourceLanguage::TypeScriptJavaScript)
    } else if has_suffix(lower, ".rs") {
        Some(SourceLanguage::Rust)
    } else if has_suffix(lower, ".swift") {
        Some(SourceLanguage::Swift)
    } else if has_suffix(lower, ".kt") || has_suffix(lower, ".kts") {
        Some(SourceLanguage::Kotlin)
    } else if has_suffix(lower, ".java") {
        Some(SourceLanguage::Java)
    } else if has_suffix(lower, ".json") {
        Some(SourceLanguage::Json)
    } else if has_suffix(lower, ".yaml") || has_suffix(lower, ".yml") {
        Some(SourceLanguage::Yaml)
    } else if has_suffix(lower, ".proto") {
        Some(SourceLanguage::Proto)
    } else if has_suffix(lower, ".xml") {
        Some(SourceLanguage::Xml)
    } else {
        None
    }
}

/// The name of a language in locators.
pub open spec fn language_text(language: SourceLanguage) -> Seq<char> {
    match language {
        SourceLanguage::Rust => "rust"@,
        SourceLanguage::TypeScriptJavaScript => "typescript-javascript"@,
        SourceLanguage::Swift => "swift"@,
        SourceLanguage::Kotlin => "kotlin"@,
        SourceLanguage::Java => "java"@,
        SourceLanguage::Json => "json"@,
        SourceLanguage::Yaml => "yaml"@,
        SourceLanguage::Proto => "proto"@,
        SourceLanguage::Xml => "xml"@,
    }
}

/// The name of a language in locators.
pub fn language_name(language: SourceLanguage) -> (name: &'static str)
    ensures
        name@ == language_text(language),
{
    match language {
        SourceLanguage::Rust => "rust",
        SourceLanguage::TypeScriptJavaScript => "typescript-javascript",
        SourceLanguage::Swift => "swift",
        SourceLanguage::Kotlin => "kotlin",
        SourceLanguage::Java => "java",
        SourceLanguage::Json => "json",
        SourceLanguage::Yaml => "yaml",
        SourceLanguage::Proto => "proto",
        SourceLanguage::Xml => "xml",
    }
}

/// Whether a lowercase path component names a directory that is never read.
pub open spec fn is_ignored_component(component: Seq<char>) -> bool {
    component == ".git"@ || component == "target"@ || component == "node_modules"@ || component == "vendor"@
        || component == "vendors"@ || component == "dist"@ || component == "build"@ || component == "pods"@
        || component == "deriveddata"@ || component == ".env"@ || component == ".secrets"@ || component == "secrets"@
        || component == ".credentials"@ || component == "credentials"@ || component == ".ssh"@ || component
        == ".aws"@
}

fn is_ignored_name(component: &str) -> (ignored: bool)
    ensures
        ignored == is_ignored_component(component@),
{
    same_text(component, ".git") || same_text(component, "target") || same_text(component, "node_modules")
        || same_text(component, "vendor") || same_text(component, "vendors") || same_text(component, "dist")
        || same_text(component, "build") || same_text(component, "pods") || same_text(component, "deriveddata")
        || same_text(component, ".env") || same_text(component, ".secrets") || same_text(component, "secrets")
        || same_text(component, ".credentials") || same_text(component, "credentials") || same_text(
        component,
        ".ssh",
    ) || same_text(component, ".aws")
}

/// Whether a path lies in a directory that is never read, in whichever case it is spelled.
pub open spec fn is_ignored(path: Seq<char>) -> bool {
    exists|i: int|
        0 <= i < split_on(path, '/').len() && is_ignored_component(lowered(#[trigger] split_on(path, '/')[i]))
}

/// Whether a path lies in a directory that is never read.
pub fn is_ignored_path(path: &str) -> (ignored: bool)
    ensures
        ignored == is_ignored(path@),
{
    let components = split_text(path, '/');
    let ghost model = split_on(path@, '/');
    let mut index: usize = 0;
    while index < components.len()
        invariant
            index <= components@.len(),
            model == split_on(path@, '/'),
            components.deep_view() == model,
            forall|i: int| 0 <= i < index ==> !is_ignored_component(lowered(#[trigger] model[i])),
        decreases components@.len() - index,
    {
        assert(model[index as int] == components@[index as int]@);
        let lower = lower_text(components[index].as_str());
        if is_ignored_name(lower.as_str()) {
            return true;
        }
        index = index + 1;
    }
    assert(model.len() == components@.len());
    false
}

/// Whether a path names generated source.
pub open spec fn is_generated(path: Seq<char>) -> bool {
    let lower = lowered(path);
    occurs_in(lower, ".generated."@) || finishes_with(lower, ".min.js"@) || finishes_with(
        lower,
        "package-lock.json"@,
    ) || finishes_with(lower, "pnpm-lock.yaml"@)
}

/// Whether a path names generated source.
pub fn is_generated_path(path: &str) -> (generated: bool)
    ensures
        generated == is_generated(path@),
{
    let lower = lower_text(path);
    let lower = lower.as_str();
    has_part(lower, ".generated.") || has_suffix(lower, ".min.js") || has_suffix(lower, "package-lock.json")
        || has_suffix(lower, "pnpm-lock.yaml")
}

/// How many bytes are searched for a zero byte.
pub const BINARY_PROBE_BYTES: usize = 8_192;

/// Whether bytes are no text: a zero byte stands near the front, or they are not UTF-8.
pub open spec fn is_binary_content(bytes: Seq<u8>) -> bool {
    (exists|i: int| 0 <= i < bytes.len() && i < BINARY_PROBE_BYTES && #[trigger] bytes[i] == 0)
        || !vstd::utf8::valid_utf8(bytes)
}

/// `std::str::from_utf8`: the text whose UTF-8 encoding is `bytes`, where they are UTF-8.
#[verifier::external_body]
fn utf8_text(bytes: &Vec<u8>) -> (text: Option<String>)
    ensures
        text is Some == vstd::utf8::valid_utf8(bytes@),
        text is Some ==> vstd::utf8::encode_utf8(text->Some_0@) == bytes@,
{
    std::str::from_utf8(bytes.as_slice()).ok().map(|text| text.to_owned())
}

/// The text of a source, unless its bytes are binary.
pub fn source_text(bytes: &Vec<u8>) -> (text: Option<String>)
    ensures
        text is Some == !is_binary_content(bytes@),
        text is Some ==> vstd::utf8::encode_utf8(text->Some_0@) == bytes@,
{
    let mut index: usize = 0;
    while index < bytes.len() && index < BINARY_PROBE_BYTES
        invariant
            index <= bytes@.len(),
            index <= BINARY_PROBE_BYTES,
            forall|i: int| 0 <= i < index ==> #[trigger] bytes@[i] != 0,
        decreases bytes@.len() - index,
    {
        if bytes[index] == 0 {
            return None;
        }
        index = index + 1;
    }
    utf8_text(bytes)
}

/// Whether bytes are no text.
pub fn is_binary(bytes: &Vec<u8>) -> (binary: bool)
    ensures
        binary == is_binary_content(bytes@),
{
    source_text(bytes).is_none()
}

impl ScanCoverageView {
    /// Whether the whole plan was read.
    pub open spec fn complete(self) -> bool {
        self is Complete
    }

    /// Whether there is evidence about a path: of everything planned, or of exactly what was read.
    pub open spec fn has_path(self, path: Seq<char>) -> bool {
        match self {
            ScanCoverageView::Complete => true,
            ScanCoverageView::Partial { covered, unfinished: _ } => covered.contains(path),
        }
    }

    /// Whether there is evidence about anything inside a directory.
    pub open spec fn has_directory(self, path: Seq<char>) -> bool {
        match self {
            ScanCoverageView::Complete => true,
            ScanCoverageView::Partial { covered, unfinished: _ } => exists|i: int|
                0 <= i < covered.len() && begins_with(#[trigger] covered[i], path + "/"@),
        }
    }

    /// The directories that still hold an unread planned path.
    pub open spec fn open_modules(self) -> Set<Seq<char>> {
        match self {
            ScanCoverageView::Complete => Set::empty(),
            ScanCoverageView::Partial { covered: _, unfinished } => modules_of(unfinished).to_set(),
        }
    }

    /// How generations name the coverage.
    pub open spec fn tag(self) -> Seq<char> {
        match self {
            ScanCoverageView::Complete => "coverage:complete"@,
            ScanCoverageView::Partial { covered, unfinished: _ } => "coverage:partial:"@ + decimal(covered.len()),
        }
    }
}

/// The modules of paths.
pub open spec fn modules_of(paths: Seq<Seq<char>>) -> Seq<Seq<char>> {
    Seq::new(paths.len(), |i: int| module_of(paths[i]))
}

impl ScanCoverage {
    /// Reports whether this snapshot read its whole plan.
    #[must_use]
    pub fn is_complete(&self) -> (complete: bool)
        ensures
            complete == self.deep_view().complete(),
    {
        match self {
            ScanCoverage::Complete => true,
            ScanCoverage::Partial { covered: _, unfinished: _ } => false,
        }
    }

    /// Reports whether the snapshot carries evidence about `path`.
    ///
    /// A complete scan covers everything it planned; a partial one covers exactly what it read.
    #[must_use]
    pub fn covers_path(&self, path: &str) -> (covers: bool)
        ensures
            covers == self.deep_view().has_path(path@),
    {
        match self {
            ScanCoverage::Complete => true,
            ScanCoverage::Partial { covered, unfinished: _ } => {
                let mut index: usize = 0;
                while index < covered.len()
                    invariant
                        index <= covered@.len(),
                        self.deep_view() is Partial,
                        self.deep_view()->covered == covered.deep_view(),
                        forall|i: int| 0 <= i < index ==> covered.deep_view()[i] != path@,
                    decreases covered@.len() - index,
                {
                    assert(covered.deep_view()[index as int] == covered@[index as int]@);
                    if same_text(covered[index].as_str(), path) {
                        assert(covered.deep_view().contains(path@));
                        return true;
                    }
                    index = index + 1;
                }
                assert(covered.deep_view().len() == covered@.len());
                false
            },
        }
    }

    /// Reports whether the snapshot carries evidence about anything inside directory `path`.
    ///
    /// Module Artifacts name a directory rather than a file, so a directory is covered as soon as
    /// one file beneath it was read.
    #[must_use]
    pub fn covers_directory(&self, path: &str) -> (covers: bool)
        ensures
            covers == self.deep_view().has_directory(path@),
    {
        match self {
            ScanCoverage::Complete => true,
            ScanCoverage::Partial { covered, unfinished: _ } => {
                let prefix = joined2(path, "/");
                let mut index: usize = 0;
                while index < covered.len()
                    invariant
                        index <= covered@.len(),
                        self.deep_view() is Partial,
                        self.deep_view()->covered == covered.deep_view(),
                        prefix@ == path@ + "/"@,
                        forall|i: int| 0 <= i < index ==> !begins_with(#[trigger] covered.deep_view()[i], prefix@),
                    decreases covered@.len() - index,
                {
                    assert(covered.deep_view()[index as int] == covered@[index as int]@);
                    if has_prefix(covered[index].as_str(), prefix.as_str()) {
                        return true;
                    }
                    index = index + 1;
                }
                assert(covered.deep_view().len() == covered@.len());
                false
            },
        }
    }

    /// Directory prefixes that still hold at least one unread planned path, in order and once each.
    /// The top directory goes by the name `root`.
    #[must_use]
    pub fn unfinished_prefixes(&self) -> (prefixes: Vec<String>)
        ensures
            prefixes.deep_view() == set_listing::<String>(self.deep_view().open_modules()),
            ascending::<String>(prefixes.deep_view()),
            prefixes.deep_view().to_set() == self.deep_view().open_modules(),
    {
        match self {
            ScanCoverage::Complete => {
                let none: SortedSet<String> = SortedSet::new();
                none.items().copied()
            },
            ScanCoverage::Partial { covered: _, unfinished } => {
                let mut modules: Vec<String> = Vec::new();
                let ghost model = modules_of(unfinished.deep_view());
                let mut index: usize = 0;
                assert(modules.deep_view() =~= model.take(0));
                while index < unfinished.len()
                    invariant
                        index <= unfinished@.len(),
                        model == modules_of(unfinished.deep_view()),
                        modules.deep_view() == model.take(index as int),
                    decreases unfinished@.len() - index,
                {
                    assert(unfinished.deep_view()[index as int] == unfinished@[index as int]@);
                    push_value(&mut modules, module_name(unfinished[index].as_str()));
                    proof {
                        take_next(model, index as int);
                    }
                    index = index + 1;
                }
                assert(model.take(index as int) =~= model);
                SortedSet::of_list(&modules).items().copied()
            },
        }
    }

    /// How generations name the coverage.
    pub(crate) fn digest_tag(&self) -> (tag: String)
        ensures
            tag@ == self.deep_view().tag(),
    {
        match self {
            ScanCoverage::Complete => "coverage:complete".to_owned(),
            ScanCoverage::Partial { covered, unfinished: _ } => {
                let count = decimal_text(covered.len() as u64);
                assert(covered.deep_view().len() == covered@.len());
                joined2("coverage:partial:", count.as_str())
            },
        }
    }
}

/// A complete scan has evidence about everything.
pub proof fn complete_coverage_covers_everything(coverage: ScanCoverageView, path: Seq<char>)
    requires
        coverage.complete(),
    ensures
        coverage.has_path(path),
        coverage.has_directory(path),
        coverage.open_modules() == Set::<Seq<char>>::empty(),
{
}

/// Why a plan is refused, if it is.
pub open spec fn plan_problem(paths: Seq<Seq<char>>) -> Option<ErrorView> {
    first(
        given(paths.len() == 0, invalid("Repository ScanPlan must contain at least one path"@)),
        given(
            paths.to_set().len() > MAX_REPOSITORY_SCAN_PLAN_PATHS,
            invalid("Repository ScanPlan exceeds 10000 paths"@),
        ),
    )
}

impl RepositoryScanPlanView {
    /// Whether the planned paths are sorted, distinct, present, and within the bound.
    pub open spec fn is_bounded(self) -> bool {
        ascending::<RepoRelativePath>(self.paths) && 0 < self.paths.len() <= MAX_REPOSITORY_SCAN_PLAN_PATHS
    }
}

impl RepositoryScanPlan {
    /// Creates a stable sorted plan and removes duplicate paths.
    pub fn new(repository_id: RepositoryId, paths: Vec<RepoRelativePath>) -> (result: Result<Self>)
        ensures
            fails_as(result, plan_problem(paths.deep_view())),
            result is Ok ==> result->Ok_0.deep_view() == (RepositoryScanPlanView {
                repository_id: repository_id@,
                paths: set_listing::<RepoRelativePath>(paths.deep_view().to_set()),
            }) && result->Ok_0.deep_view().is_bounded(),
    {
        let ghost model = paths.deep_view();
        let unique = SortedSet::of_list(&paths);
        let count = unique.len();
        if paths.len() == 0 {
            return Err(invalid_input("Repository ScanPlan must contain at least one path"));
        }
        if count > MAX_REPOSITORY_SCAN_PLAN_PATHS {
            return Err(invalid_input("Repository ScanPlan exceeds 10000 paths"));
        }
        let listed = unique.items().copied();
        proof {
            assert(model[0] == paths@[0]@);
            assert(unique.deep_view().contains(model[0]));
            crate::order::set_listing_is_unique::<RepoRelativePath>(listed.deep_view(), unique.listing());
            assert(count > 0);
        }
        Ok(RepositoryScanPlan { repository_id, paths: listed })
    }

    /// The Repository that the plan belongs to.
    #[must_use]
    pub fn repository_id(&self) -> (repository_id: RepositoryId)
        ensures
            repository_id@ == self.deep_view().repository_id,
    {
        self.repository_id.copied()
    }

    /// The planned paths, sorted and distinct.
    #[must_use]
    pub fn paths(&self) -> (paths: &Vec<RepoRelativePath>)
        ensures
            paths.deep_view() == self.deep_view().paths,
    {
        &self.paths
    }
}

impl Default for RepositoryScannerLimits {
    fn default() -> (limits: Self)
        ensures
            limits == (RepositoryScannerLimits {
                max_files: 10_000,
                max_file_bytes: 1_048_576,
                max_total_bytes: 33_554_432,
            }),
    {
        RepositoryScannerLimits { max_files: 10_000, max_file_bytes: 1_048_576, max_total_bytes: 33_554_432 }
    }
}

/// The bytes that paths take in an argument list, each with a separator.
pub open spec fn argument_bytes(paths: Seq<Seq<char>>) -> nat
    decreases paths.len(),
{
    if paths.len() == 0 {
        0
    } else {
        argument_bytes(paths.drop_last()) + path_bytes(paths.last())
    }
}

/// The bytes that one path takes in an argument list.
pub open spec fn path_bytes(path: Seq<char>) -> nat {
    vstd::utf8::encode_utf8(path).len() + 1
}

/// Batches one after another.
pub open spec fn rejoined(batches: Seq<Seq<Seq<char>>>) -> Seq<Seq<char>>
    decreases batches.len(),
{
    if batches.len() == 0 {
        Seq::empty()
    } else {
        rejoined(batches.drop_last()) + batches.last()
    }
}

/// Whether a batch stays under the ceiling, unless a single path exceeds it.
pub open spec fn fits(batch: Seq<Seq<char>>) -> bool {
    batch.len() > 0 && (batch.len() > 1 ==> argument_bytes(batch) <= MAX_GIT_PATHSPEC_ARGV_BYTES)
}

/// Whether batches split paths greedily: nothing is lost or reordered, every batch fits, and no
/// batch has room for the first path of the next one.
pub open spec fn splits_greedily(batches: Seq<Seq<Seq<char>>>, paths: Seq<Seq<char>>) -> bool {
    &&& rejoined(batches) == paths
    &&& forall|i: int| 0 <= i < batches.len() ==> fits(#[trigger] batches[i])
    &&& forall|i: int|
        0 <= i < batches.len() - 1 ==> argument_bytes(#[trigger] batches[i]) + path_bytes(batches[i + 1][0])
            > MAX_GIT_PATHSPEC_ARGV_BYTES
}

/// Whether finished batches and an open one split the paths so far.
spec fn is_splitting(done: Seq<Seq<Seq<char>>>, open: Seq<Seq<char>>, paths: Seq<Seq<char>>) -> bool {
    &&& rejoined(done) + open == paths
    &&& paths.len() > 0 ==> open.len() > 0
    &&& open.len() > 0 ==> fits(open)
    &&& forall|i: int| 0 <= i < done.len() ==> fits(#[trigger] done[i])
    &&& forall|i: int|
        0 <= i < done.len() - 1 ==> argument_bytes(#[trigger] done[i]) + path_bytes(done[i + 1][0])
            > MAX_GIT_PATHSPEC_ARGV_BYTES
    &&& done.len() > 0 ==> open.len() > 0 && argument_bytes(done.last()) + path_bytes(open[0])
        > MAX_GIT_PATHSPEC_ARGV_BYTES
}

/// Whether the open batch has no room for another path.
spec fn is_full(open: Seq<Seq<char>>, path: Seq<char>) -> bool {
    open.len() > 0 && argument_bytes(open) + path_bytes(path) > MAX_GIT_PATHSPEC_ARGV_BYTES
}

proof fn one_path_batch(path: Seq<char>)
    ensures
        argument_bytes(seq![path]) == path_bytes(path),
        fits(seq![path]),
{
    assert(seq![path].drop_last() =~= Seq::empty());
    assert(argument_bytes(Seq::empty()) == 0);
}

proof fn closing_a_batch(done: Seq<Seq<Seq<char>>>, open: Seq<Seq<char>>, paths: Seq<Seq<char>>, path: Seq<char>)
    requires
        is_splitting(done, open, paths),
        is_full(open, path),
    ensures
        is_splitting(done.push(open), seq![path], paths.push(path)),
{
    let after = done.push(open);
    assert(after.drop_last() =~= done);
    assert(rejoined(after) + seq![path] =~= paths.push(path));
    one_path_batch(path);
    assert forall|i: int| 0 <= i < after.len() - 1 implies argument_bytes(#[trigger] after[i]) + path_bytes(
        after[i + 1][0],
    ) > MAX_GIT_PATHSPEC_ARGV_BYTES by {
        assert(after[i] == done[i]);
        if i + 1 < done.len() {
            assert(after[i + 1] == done[i + 1]);
        }
    }
    assert forall|i: int| 0 <= i < after.len() implies fits(#[trigger] after[i]) by {
        if i < done.len() {
            assert(after[i] == done[i]);
        }
    }
}

proof fn filling_a_batch(done: Seq<Seq<Seq<char>>>, open: Seq<Seq<char>>, paths: Seq<Seq<char>>, path: Seq<char>)
    requires
        is_splitting(done, open, paths),
        !is_full(open, path),
    ensures
        is_splitting(done, open.push(path), paths.push(path)),
        argument_bytes(open.push(path)) == argument_bytes(open) + path_bytes(path),
{
    assert(open.push(path).drop_last() =~= open);
    assert(rejoined(done) + open.push(path) =~= paths.push(path));
    if open.len() > 0 {
        assert(open.push(path)[0] == open[0]);
    }
}

proof fn finishing_batches(done: Seq<Seq<Seq<char>>>, open: Seq<Seq<char>>, paths: Seq<Seq<char>>)
    requires
        is_splitting(done, open, paths),
    ensures
        open.len() == 0 ==> splits_greedily(done, paths),
        open.len() > 0 ==> splits_greedily(done.push(open), paths),
{
    if open.len() == 0 {
        assert(rejoined(done) + open =~= rejoined(done));
    } else {
        let after = done.push(open);
        assert(after.drop_last() =~= done);
        assert(rejoined(after) =~= paths);
        assert forall|i: int| 0 <= i < after.len() - 1 implies argument_bytes(#[trigger] after[i]) + path_bytes(
            after[i + 1][0],
        ) > MAX_GIT_PATHSPEC_ARGV_BYTES by {
            assert(after[i] == done[i]);
            if i + 1 < done.len() {
                assert(after[i + 1] == done[i + 1]);
            }
        }
        assert forall|i: int| 0 <= i < after.len() implies fits(#[trigger] after[i]) by {
            if i < done.len() {
                assert(after[i] == done[i]);
            }
        }
    }
}

/// Splits a plan into pathspec argument batches that stay under the argument-list ceiling.
pub fn pathspec_batches(planned_paths: &Vec<RepoRelativePath>) -> (batches: Vec<Vec<String>>)
    ensures
        splits_greedily(batches.deep_view(), planned_paths.deep_view()),
{
    let ghost paths = planned_paths.deep_view();
    let mut batches: Vec<Vec<String>> = Vec::new();
    let mut batch: Vec<String> = Vec::new();
    let mut bytes: u128 = 0;
    let mut index: usize = 0;
    proof {
        assert(batches.deep_view() =~= Seq::empty());
        assert(batch.deep_view() =~= Seq::empty());
        assert(rejoined(batches.deep_view()) + batch.deep_view() =~= paths.take(0));
    }
    while index < planned_paths.len()
        invariant
            index <= planned_paths@.len(),
            paths == planned_paths.deep_view(),
            is_splitting(batches.deep_view(), batch.deep_view(), paths.take(index as int)),
            bytes == argument_bytes(batch.deep_view()),
            bytes <= index * (usize::MAX as u128 + 1),
        decreases planned_paths@.len() - index,
    {
        let value = planned_paths[index].as_str();
        assert(paths[index as int] == value@);
        let size: u128 = value.as_bytes().len() as u128 + 1;
        assert(size == path_bytes(value@));
        assert(bytes + size <= (index + 1) * (usize::MAX as u128 + 1)) by (nonlinear_arith)
            requires
                bytes <= index * (usize::MAX as u128 + 1),
                size <= usize::MAX as u128 + 1,
        ;
        assert((index + 1) * (usize::MAX as u128 + 1) <= u128::MAX) by (nonlinear_arith)
            requires
                index + 1 <= usize::MAX as u128,
                usize::MAX as u128 <= 0xffff_ffff_ffff_ffffu128,
        ;
        let ghost done = batches.deep_view();
        let ghost open = batch.deep_view();
        let ghost before = paths.take(index as int);
        assert(batch@.len() == open.len());
        proof {
            take_next(paths, index as int);
            one_path_batch(value@);
            if is_full(open, value@) {
                closing_a_batch(done, open, before, value@);
            } else {
                filling_a_batch(done, open, before, value@);
            }
        }
        if batch.len() > 0 && bytes + size > MAX_GIT_PATHSPEC_ARGV_BYTES as u128 {
            let mut full: Vec<String> = Vec::new();
            std::mem::swap(&mut full, &mut batch);
            push_value(&mut batches, full);
            bytes = 0;
            assert(batch.deep_view() =~= Seq::empty());
            assert(Seq::<Seq<char>>::empty().push(value@) =~= seq![value@]);
        }
        bytes = bytes + size;
        push_value(&mut batch, value.to_owned());
        index = index + 1;
    }
    proof {
        assert(paths.take(index as int) =~= paths);
        finishing_batches(batches.deep_view(), batch.deep_view(), paths);
        assert(batch@.len() == batch.deep_view().len());
    }
    if batch.len() > 0 {
        push_value(&mut batches, batch);
    }
    batches
}

/// Facts about the paths of one whole scan plan, gathered up front in batched local Git calls.
#[derive(Clone, Debug, PartialEq, Eq)]
pub struct TrackedPathFacts {
    known: SortedSet<String>,
    modified: SortedSet<String>,
}

/// The model of [`TrackedPathFacts`].
pub struct TrackedPathFactsView {
    pub known: Set<Seq<char>>,
    pub modified: Set<Seq<char>>,
}

impl DeepView for TrackedPathFacts {
    type V = TrackedPathFactsView;

    closed spec fn deep_view(&self) -> TrackedPathFactsView {
        TrackedPathFactsView {
            known: self.known.deep_view(),
            modified: self.modified.deep_view(),
        }
    }
}

impl Value for TrackedPathFacts {
    fn copied(&self) -> (copy: Self) {
        TrackedPathFacts {
            known: self.known.copied(),
            modified: self.modified.copied(),
        }
    }

    fn same(&self, other: &Self) -> (equal: bool) {
        self.known.same(&other.known)
            && self.modified.same(&other.modified)
    }
}

/// The paths that NUL-separated Git output names and the plan asked for.
///
/// Git resolves each argument as a pathspec, so a batched query can report paths outside the plan;
/// those are left out.
pub open spec fn listed_paths(output: Seq<char>, requested: Set<Seq<char>>) -> Seq<Seq<char>> {
    split_on(output, '\0').filter(|path: Seq<char>| path.len() > 0 && requested.contains(path))
}

/// Lists the paths that NUL-separated Git output names and the plan asked for.
pub fn requested_paths(output: &str, requested: &SortedSet<String>) -> (paths: Vec<String>)
    ensures
        paths.deep_view() == listed_paths(output@, requested.deep_view()),
{
    let pieces = split_text(output, '\0');
    let ghost model = split_on(output@, '\0');
    let ghost wanted = requested.deep_view();
    let ghost keep = |path: Seq<char>| path.len() > 0 && wanted.contains(path);
    let mut paths: Vec<String> = Vec::new();
    let mut index: usize = 0;
    proof {
        reveal(Seq::filter);
        assert(model.take(0).filter(keep) =~= Seq::empty());
        assert(paths.deep_view() =~= Seq::empty());
    }
    while index < pieces.len()
        invariant
            index <= pieces@.len(),
            pieces.deep_view() == model,
            wanted == requested.deep_view(),
            keep == (|path: Seq<char>| path.len() > 0 && wanted.contains(path)),
            paths.deep_view() == model.take(index as int).filter(keep),
        decreases pieces@.len() - index,
    {
        assert(model[index as int] == pieces@[index as int]@);
        proof {
            take_next(model, index as int);
            filter_push(model.take(index as int), model[index as int], keep);
        }
        if !pieces[index].as_str().is_empty() && requested.contains(&pieces[index]) {
            push_value(&mut paths, pieces[index].copied());
        }
        index = index + 1;
    }
    assert(model.take(index as int) =~= model);
    paths
}

impl TrackedPathFacts {
    /// No facts yet.
    pub fn new() -> (facts: Self)
        ensures
            facts.deep_view().known == Set::<Seq<char>>::empty(),
            facts.deep_view().modified == Set::<Seq<char>>::empty(),
    {
        TrackedPathFacts { known: SortedSet::new(), modified: SortedSet::new() }
    }

    /// Adds what one query for version-controlled paths reported.
    pub fn add_known(&mut self, output: &str, requested: &SortedSet<String>)
        ensures
            final(self).deep_view().known == old(self).deep_view().known.union(
                listed_paths(output@, requested.deep_view()).to_set(),
            ),
            final(self).deep_view().modified == old(self).deep_view().modified,
    {
        let paths = requested_paths(output, requested);
        add_paths(&mut self.known, &paths);
    }

    /// Adds what one query for modified paths reported.
    pub fn add_modified(&mut self, output: &str, requested: &SortedSet<String>)
        ensures
            final(self).deep_view().modified == old(self).deep_view().modified.union(
                listed_paths(output@, requested.deep_view()).to_set(),
            ),
            final(self).deep_view().known == old(self).deep_view().known,
    {
        let paths = requested_paths(output, requested);
        add_paths(&mut self.modified, &paths);
    }

    /// Whether a path is under version control.
    pub fn is_tracked(&self, relative: &String) -> (found: bool)
        ensures
            found == self.deep_view().known.contains(relative@),
    {
        self.known.contains(relative)
    }

    /// Which source supplies a path.
    pub fn source_state(&self, relative: &String) -> (state: ArtifactSourceState)
        ensures
            state == supplied_by(self.deep_view().modified, relative@),
    {
        if self.modified.contains(relative) {
            ArtifactSourceState::TrackedWorkingModification
        } else {
            ArtifactSourceState::TrackedHead
        }
    }
}

/// Which source supplies a path, where some paths are modified.
pub open spec fn supplied_by(modified: Set<Seq<char>>, relative: Seq<char>) -> ArtifactSourceState {
    if modified.contains(relative) {
        ArtifactSourceState::TrackedWorkingModification
    } else {
        ArtifactSourceState::TrackedHead
    }
}

fn add_paths(set: &mut SortedSet<String>, paths: &Vec<String>)
    ensures
        final(set).deep_view() == old(set).deep_view().union(paths.deep_view().to_set()),
{
    let ghost start = set.deep_view();
    let ghost model = paths.deep_view();
    let mut index: usize = 0;
    assert(start =~= start.union(model.take(0).to_set()));
    while index < paths.len()
        invariant
            index <= paths@.len(),
            model == paths.deep_view(),
            set.deep_view() == start.union(model.take(index as int).to_set()),
        decreases paths@.len() - index,
    {
        assert(model[index as int] == paths@[index as int]@);
        set.insert(paths[index].copied());
        proof {
            take_next(model, index as int);
            crate::collections::pushed_set(model.take(index as int), model[index as int]);
            assert(set.deep_view() =~= start.union(model.take(index + 1).to_set()));
        }
        index = index + 1;
    }
    assert(model.take(index as int) =~= model);
}

/// Hard ceiling on captured stdout for one batched local Git call.
pub const MAX_GIT_STDOUT_BYTES: usize = 16_777_216;

/// Hard ceiling on captured stderr for one local Git call.
pub const MAX_GIT_STDERR_BYTES: usize = 8_192;

/// Wall-clock ceiling for one local Git call, in milliseconds.
pub const GIT_CALL_TIMEOUT_MILLIS: u64 = 30_000;

/// Floor applied to a budget-derived Git timeout, in milliseconds, so that a nearly spent budget
/// still asks once.
pub const GIT_CALL_MIN_TIMEOUT_MILLIS: u64 = 250;

/// What remains of a budget, held between the floor and the ceiling of a Git call.
pub open spec fn call_timeout(remaining_millis: Option<u64>) -> u64 {
    match remaining_millis {
        None => GIT_CALL_TIMEOUT_MILLIS,
        Some(remaining) => if remaining < GIT_CALL_MIN_TIMEOUT_MILLIS {
            GIT_CALL_MIN_TIMEOUT_MILLIS
        } else if remaining > GIT_CALL_TIMEOUT_MILLIS {
            GIT_CALL_TIMEOUT_MILLIS
        } else {
            remaining
        },
    }
}

/// The timeout of one Git call, in milliseconds, given what remains of the budget it has to fit
/// inside.
pub fn git_call_timeout(remaining_millis: Option<u64>) -> (timeout: u64)
    ensures
        timeout == call_timeout(remaining_millis),
{
    match remaining_millis {
        None => GIT_CALL_TIMEOUT_MILLIS,
        Some(remaining) => {
            if remaining < GIT_CALL_MIN_TIMEOUT_MILLIS {
                GIT_CALL_MIN_TIMEOUT_MILLIS
            } else if remaining > GIT_CALL_TIMEOUT_MILLIS {
                GIT_CALL_TIMEOUT_MILLIS
            } else {
                remaining
            }
        },
    }
}

/// What a stream holds after a chunk: no more than the ceiling.
pub open spec fn held_after(held: Seq<u8>, chunk: Seq<u8>, limit: nat) -> Seq<u8> {
    if held.len() + chunk.len() <= limit {
        held + chunk
    } else {
        held + chunk.take(limit - held.len())
    }
}

/// Whether the ceiling drops something of a chunk.
pub open spec fn is_capped_by(held: Seq<u8>, chunk: Seq<u8>, limit: nat) -> bool {
    held.len() + chunk.len() > limit
}

/// One child stream drained so far, and whether the ceiling dropped anything.
pub struct CapturedStream {
    pub bytes: Vec<u8>,
    pub capped: bool,
}

impl CapturedStream {
    /// Nothing captured yet.
    pub fn new() -> (stream: Self)
        ensures
            stream.bytes@.len() == 0,
            !stream.capped,
    {
        CapturedStream { bytes: Vec::new(), capped: false }
    }

    /// Takes one chunk, and keeps what fits under the ceiling.
    pub fn take_chunk(&mut self, chunk: &[u8], limit: usize)
        requires
            old(self).bytes@.len() <= limit,
        ensures
            final(self).bytes@ == held_after(old(self).bytes@, chunk@, limit as nat),
            final(self).capped == (old(self).capped || is_capped_by(old(self).bytes@, chunk@, limit as nat)),
            final(self).bytes@.len() <= limit,
    {
        let ghost start = self.bytes@;
        let room: usize = limit - self.bytes.len();
        let keep: usize = if chunk.len() <= room {
            chunk.len()
        } else {
            room
        };
        let mut index: usize = 0;
        assert(start + chunk@.take(0) =~= start);
        while index < keep
            invariant
                index <= keep <= chunk@.len(),
                self.capped == old(self).capped,
                self.bytes@ == start + chunk@.take(index as int),
            decreases keep - index,
        {
            self.bytes.push(chunk[index]);
            assert(self.bytes@ =~= start + chunk@.take(index + 1));
            index = index + 1;
        }
        assert(chunk@.take(chunk@.len() as int) =~= chunk@);
        if chunk.len() > room {
            self.capped = true;
        }
    }
}

impl CapturedStream {
    /// What a stream held, where the ceiling dropped nothing of it.
    pub fn whole(self) -> (result: Result<Vec<u8>>)
        ensures
            fails_as(
                result,
                given(
                    self.capped,
                    invalid("local Git snapshot command produced more output than the scanner accepts"@),
                ),
            ),
            result is Ok ==> result->Ok_0@ == self.bytes@,
    {
        if self.capped {
            return Err(invalid_input("local Git snapshot command produced more output than the scanner accepts"));
        }
        Ok(self.bytes)
    }
}

/// Requires a local Git call to have succeeded; where it did not, the error carries what it
/// complained of.
pub fn check_git_status(code: Option<i32>, complaint: &str) -> (result: Result<()>)
    ensures
        fails_as(
            result,
            given(
                code != Some(0i32),
                invalid("local Git snapshot command failed: "@ + trimmed(complaint@)),
            ),
        ),
{
    match code {
        Some(0) => Ok(()),
        _ => {
            let complaint = trim_text(complaint);
            let message = joined2("local Git snapshot command failed: ", complaint.as_str());
            Err(invalid_input(message.as_str()))
        },
    }
}

} // verus!
