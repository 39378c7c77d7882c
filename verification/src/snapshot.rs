//! Scanning planned sources step by step, and the snapshots that scans commit.

use vstd::prelude::*;

use crate::checks::first_from;
use crate::collections::SortedMap;
use crate::digest::{fits_frame, frame_all, framed_all, framing_is_injective, sha256_hex, sha256_text};
use crate::engineering::{
    derived_key, ArtifactKey, ArtifactKind, ArtifactLocator, ArtifactLocatorView, EngineeringArtifact,
    EngineeringArtifactView, RepoRelativePath, RepositoryIdentity, RepositoryIdentityView,
};
use crate::error::{
    fails_as, first, given, invalid, invalid_input, invariant_violation, violated, ErrorView, Result,
};
use crate::extract::{
    api_operation, api_protocol, discoveries, extract, normal_key, normalize_api_key, normalize_signature,
    operation_of, protocol_of, schema_version, signature_of, version_of, Discovery, DiscoveryView,
};
use crate::ids::RepositoryId;
use crate::order::{
    ascending, ascending_has_no_duplicates, insert_unique, is_set_listing, placed_in_order, set_listing,
    sort_stably, sort_values, sorted_listing, sorted_listing_exists, sorting_keeps_items,
    sorting_orders_items, stably_sorted, Ordered, Placed,
};
use crate::sources::{
    is_binary_content, is_generated, is_generated_path, is_ignored, is_ignored_path, language_for_path,
    language_name, language_of, language_text, module_name, module_of, parent_of, parent_path, source_text,
    ArtifactObservation, ArtifactObservationView, ArtifactSourceState, RepositoryScanPlan,
    RepositoryScanPlanView, RepositoryScannerLimits, ScanCoverage, ScanCoverageView, SkippedFile,
    SkippedFileReason, SkippedFileView, SnapshotSourcePolicy, SourceLanguage, POLICY_VERSION,
};
use crate::text::{joined2, joined3};
use crate::value::{filter_keeps, filter_push, push_value, take_next, Value};

verus! {

/// One derived Artifact plus exact snapshot provenance.
#[derive(Clone, Debug, PartialEq, Eq)]
pub struct SnapshotArtifact {
    pub artifact: EngineeringArtifact,
    pub snapshot_generation: String,
    pub source_policy: SnapshotSourcePolicy,
    pub observations: Vec<ArtifactObservation>,
}

/// The model of [`SnapshotArtifact`].
pub struct SnapshotArtifactView {
    pub artifact: EngineeringArtifactView,
    pub snapshot_generation: Seq<char>,
    pub source_policy: SnapshotSourcePolicy,
    pub observations: Seq<ArtifactObservationView>,
}

impl DeepView for SnapshotArtifact {
    type V = SnapshotArtifactView;

    open spec fn deep_view(&self) -> SnapshotArtifactView {
        SnapshotArtifactView {
            artifact: self.artifact.deep_view(),
            snapshot_generation: self.snapshot_generation.deep_view(),
            source_policy: self.source_policy.deep_view(),
            observations: self.observations.deep_view(),
        }
    }
}

impl Value for SnapshotArtifact {
    fn copied(&self) -> (copy: Self) {
        SnapshotArtifact {
            artifact: self.artifact.copied(),
            snapshot_generation: self.snapshot_generation.copied(),
            source_policy: self.source_policy.copied(),
            observations: self.observations.copied(),
        }
    }

    fn same(&self, other: &Self) -> (equal: bool) {
        self.artifact.same(&other.artifact)
            && self.snapshot_generation.same(&other.snapshot_generation)
            && self.source_policy.same(&other.source_policy)
            && self.observations.same(&other.observations)
    }
}

/// Deterministic derived snapshot of one available Repository.
#[derive(Clone, Debug, PartialEq, Eq)]
pub struct RepositorySnapshot {
    pub repository_id: RepositoryId,
    pub source_policy: SnapshotSourcePolicy,
    pub policy_version: &'static str,
    pub head_tree_oid: String,
    pub generation: String,
    pub planned_paths: Vec<RepoRelativePath>,
    /// How much of `planned_paths` this snapshot is authoritative for.
    pub coverage: ScanCoverage,
    pub artifacts: Vec<SnapshotArtifact>,
    pub scanned_files: usize,
    pub scanned_bytes: u64,
    pub skipped_files: Vec<SkippedFile>,
}

/// The model of [`RepositorySnapshot`].
pub struct RepositorySnapshotView {
    pub repository_id: Seq<char>,
    pub source_policy: SnapshotSourcePolicy,
    pub policy_version: Seq<char>,
    pub head_tree_oid: Seq<char>,
    pub generation: Seq<char>,
    pub planned_paths: Seq<Seq<char>>,
    pub coverage: ScanCoverageView,
    pub artifacts: Seq<SnapshotArtifactView>,
    pub scanned_files: usize,
    pub scanned_bytes: u64,
    pub skipped_files: Seq<SkippedFileView>,
}

impl DeepView for RepositorySnapshot {
    type V = RepositorySnapshotView;

    open spec fn deep_view(&self) -> RepositorySnapshotView {
        RepositorySnapshotView {
            repository_id: self.repository_id.deep_view(),
            source_policy: self.source_policy.deep_view(),
            policy_version: self.policy_version.deep_view(),
            head_tree_oid: self.head_tree_oid.deep_view(),
            generation: self.generation.deep_view(),
            planned_paths: self.planned_paths.deep_view(),
            coverage: self.coverage.deep_view(),
            artifacts: self.artifacts.deep_view(),
            scanned_files: self.scanned_files.deep_view(),
            scanned_bytes: self.scanned_bytes.deep_view(),
            skipped_files: self.skipped_files.deep_view(),
        }
    }
}

impl Value for RepositorySnapshot {
    fn copied(&self) -> (copy: Self) {
        RepositorySnapshot {
            repository_id: self.repository_id.copied(),
            source_policy: self.source_policy.copied(),
            policy_version: self.policy_version.copied(),
            head_tree_oid: self.head_tree_oid.copied(),
            generation: self.generation.copied(),
            planned_paths: self.planned_paths.copied(),
            coverage: self.coverage.copied(),
            artifacts: self.artifacts.copied(),
            scanned_files: self.scanned_files.copied(),
            scanned_bytes: self.scanned_bytes.copied(),
            skipped_files: self.skipped_files.copied(),
        }
    }

    fn same(&self, other: &Self) -> (equal: bool) {
        self.repository_id.same(&other.repository_id)
            && self.source_policy.same(&other.source_policy)
            && self.policy_version.same(&other.policy_version)
            && self.head_tree_oid.same(&other.head_tree_oid)
            && self.generation.same(&other.generation)
            && self.planned_paths.same(&other.planned_paths)
            && self.coverage.same(&other.coverage)
            && self.artifacts.same(&other.artifacts)
            && self.scanned_files.same(&other.scanned_files)
            && self.scanned_bytes.same(&other.scanned_bytes)
            && self.skipped_files.same(&other.skipped_files)
    }
}

/// Typed availability result; an absent checkout is not a generic parser error.
#[derive(Clone, Debug, PartialEq, Eq)]
pub enum RepositoryScanOutcome {
    Available(RepositorySnapshot),
    Unavailable {
        repository_id: RepositoryId,
        reason: String,
    },
}

/// The model of [`RepositoryScanOutcome`].
pub enum RepositoryScanOutcomeView {
    Available(RepositorySnapshotView),
    Unavailable {
        repository_id: Seq<char>,
        reason: Seq<char>,
    },
}

impl DeepView for RepositoryScanOutcome {
    type V = RepositoryScanOutcomeView;

    open spec fn deep_view(&self) -> RepositoryScanOutcomeView {
        match self {
            RepositoryScanOutcome::Available(inner) => RepositoryScanOutcomeView::Available(inner.deep_view()),
            RepositoryScanOutcome::Unavailable { repository_id, reason } => RepositoryScanOutcomeView::Unavailable {
                repository_id: repository_id.deep_view(),
                reason: reason.deep_view(),
            },
        }
    }
}

impl Value for RepositoryScanOutcome {
    fn copied(&self) -> (copy: Self) {
        match self {
            RepositoryScanOutcome::Available(inner) => RepositoryScanOutcome::Available(inner.copied()),
            RepositoryScanOutcome::Unavailable { repository_id, reason } => {
                RepositoryScanOutcome::Unavailable { repository_id: repository_id.copied(), reason: reason.copied() }
            },
        }
    }

    fn same(&self, other: &Self) -> (equal: bool) {
        match (self, other) {
            (
                RepositoryScanOutcome::Available(left_inner),
                RepositoryScanOutcome::Available(right_inner),
            ) => left_inner.same(right_inner),
            (
                RepositoryScanOutcome::Unavailable { repository_id: left_repository_id, reason: left_reason },
                RepositoryScanOutcome::Unavailable { repository_id: right_repository_id, reason: right_reason },
            ) => left_repository_id.same(right_repository_id) && left_reason.same(right_reason),
            _ => false,
        }
    }
}

/// One accepted source: its text, and the digest of its bytes.
#[derive(Clone, Debug, PartialEq, Eq)]
pub struct SourceFile {
    pub path: String,
    pub language: SourceLanguage,
    pub source_state: ArtifactSourceState,
    pub version_digest: String,
    pub size: u64,
    pub text: String,
}

/// The model of [`SourceFile`].
pub struct SourceFileView {
    pub path: Seq<char>,
    pub language: SourceLanguage,
    pub source_state: ArtifactSourceState,
    pub version_digest: Seq<char>,
    pub size: u64,
    pub text: Seq<char>,
}

impl DeepView for SourceFile {
    type V = SourceFileView;

    open spec fn deep_view(&self) -> SourceFileView {
        SourceFileView {
            path: self.path.deep_view(),
            language: self.language.deep_view(),
            source_state: self.source_state.deep_view(),
            version_digest: self.version_digest.deep_view(),
            size: self.size.deep_view(),
            text: self.text.deep_view(),
        }
    }
}

impl Value for SourceFile {
    fn copied(&self) -> (copy: Self) {
        SourceFile {
            path: self.path.copied(),
            language: self.language.copied(),
            source_state: self.source_state.copied(),
            version_digest: self.version_digest.copied(),
            size: self.size.copied(),
            text: self.text.copied(),
        }
    }

    fn same(&self, other: &Self) -> (equal: bool) {
        self.path.same(&other.path)
            && self.language.same(&other.language)
            && self.source_state.same(&other.source_state)
            && self.version_digest.same(&other.version_digest)
            && self.size.same(&other.size)
            && self.text.same(&other.text)
    }
}

/// What the file system says of a planned path.
#[derive(Clone, Copy, Debug, PartialEq, Eq, Structural)]
pub enum PathState {
    Missing,
    Symlink,
    Present,
}

impl DeepView for PathState {
    type V = PathState;

    open spec fn deep_view(&self) -> PathState {
        *self
    }
}

impl Value for PathState {
    fn copied(&self) -> (copy: Self) {
        *self
    }

    fn same(&self, other: &Self) -> (equal: bool) {
        *self == *other
    }
}

/// Where the scan of a plan stands: what was inspected, what was left, and what was found.
#[derive(Clone, Debug, PartialEq, Eq)]
pub struct SourceScan {
    pub limits: RepositoryScannerLimits,
    pub covered: Vec<RepoRelativePath>,
    pub unfinished: Vec<RepoRelativePath>,
    pub sources: Vec<SourceFile>,
    pub skipped: Vec<SkippedFile>,
    pub scanned_bytes: u64,
    pub expired: bool,
}

/// The model of [`SourceScan`].
pub struct SourceScanView {
    pub limits: RepositoryScannerLimits,
    pub covered: Seq<Seq<char>>,
    pub unfinished: Seq<Seq<char>>,
    pub sources: Seq<SourceFileView>,
    pub skipped: Seq<SkippedFileView>,
    pub scanned_bytes: u64,
    pub expired: bool,
}

impl DeepView for SourceScan {
    type V = SourceScanView;

    open spec fn deep_view(&self) -> SourceScanView {
        SourceScanView {
            limits: self.limits.deep_view(),
            covered: self.covered.deep_view(),
            unfinished: self.unfinished.deep_view(),
            sources: self.sources.deep_view(),
            skipped: self.skipped.deep_view(),
            scanned_bytes: self.scanned_bytes.deep_view(),
            expired: self.expired.deep_view(),
        }
    }
}

impl Value for SourceScan {
    fn copied(&self) -> (copy: Self) {
        SourceScan {
            limits: self.limits.copied(),
            covered: self.covered.copied(),
            unfinished: self.unfinished.copied(),
            sources: self.sources.copied(),
            skipped: self.skipped.copied(),
            scanned_bytes: self.scanned_bytes.copied(),
            expired: self.expired.copied(),
        }
    }

    fn same(&self, other: &Self) -> (equal: bool) {
        self.limits.same(&other.limits)
            && self.covered.same(&other.covered)
            && self.unfinished.same(&other.unfinished)
            && self.sources.same(&other.sources)
            && self.skipped.same(&other.skipped)
            && self.scanned_bytes.same(&other.scanned_bytes)
            && self.expired.same(&other.expired)
    }
}

/// Deterministic bounded Repository snapshot scanner.
#[derive(Clone, Copy, Debug, PartialEq, Eq, Structural)]
pub struct RepositoryScanner {
    pub limits: RepositoryScannerLimits,
}

impl DeepView for RepositoryScanner {
    type V = RepositoryScanner;

    open spec fn deep_view(&self) -> RepositoryScanner {
        *self
    }
}

impl Value for RepositoryScanner {
    fn copied(&self) -> (copy: Self) {
        *self
    }

    fn same(&self, other: &Self) -> (equal: bool) {
        *self == *other
    }
}

/// What a scan looks like before its first path.
pub open spec fn fresh_scan(limits: RepositoryScannerLimits) -> SourceScanView {
    SourceScanView {
        limits,
        covered: Seq::empty(),
        unfinished: Seq::empty(),
        sources: Seq::empty(),
        skipped: Seq::empty(),
        scanned_bytes: 0,
        expired: false,
    }
}

/// Why a scan is refused before it starts, if it is.
pub open spec fn scan_problem(repository: RepositoryIdentityView, plan: RepositoryScanPlanView) -> Option<ErrorView> {
    first(
        repository.problem(),
        given(
            plan.repository_id != repository.repository_id,
            invalid("Repository ScanPlan must belong to the scanned Repository"@),
        ),
    )
}

/// What a new scan leaves of a prior snapshot: the snapshot itself, where the new one is of its
/// generation.
pub open spec fn reused(
    previous: RepositorySnapshotView,
    current: RepositoryScanOutcomeView,
) -> RepositoryScanOutcomeView {
    match current {
        RepositoryScanOutcomeView::Available(snapshot) if snapshot.generation
            == previous.generation => RepositoryScanOutcomeView::Available(previous),
        _ => current,
    }
}

/// The outcome for a Repository whose checkout is absent.
pub open spec fn absent_checkout(repository_id: Seq<char>) -> RepositoryScanOutcomeView {
    RepositoryScanOutcomeView::Unavailable { repository_id, reason: "Repository checkout is unavailable"@ }
}

impl RepositoryScanner {
    /// A scanner with hard bounds.
    #[must_use]
    pub fn new(limits: RepositoryScannerLimits) -> (scanner: Self)
        ensures
            scanner.limits == limits,
    {
        RepositoryScanner { limits }
    }

    /// The hard bounds of the scanner.
    #[must_use]
    pub fn limits(&self) -> (limits: RepositoryScannerLimits)
        ensures
            limits == self.limits,
    {
        self.limits
    }

    /// Starts the scan of a plan.
    pub fn start(&self, repository: &RepositoryIdentity, plan: &RepositoryScanPlan) -> (result: Result<SourceScan>)
        ensures
            fails_as(result, scan_problem(repository.deep_view(), plan.deep_view())),
            result is Ok ==> result->Ok_0.deep_view() == fresh_scan(self.limits),
    {
        repository.validate()?;
        let owner = plan.repository_id();
        if !owner.same(&repository.repository_id) {
            return Err(invalid_input("Repository ScanPlan must belong to the scanned Repository"));
        }
        let scan = SourceScan {
            limits: self.limits,
            covered: Vec::new(),
            unfinished: Vec::new(),
            sources: Vec::new(),
            skipped: Vec::new(),
            scanned_bytes: 0,
            expired: false,
        };
        proof {
            assert(scan.covered.deep_view() =~= Seq::empty());
            assert(scan.unfinished.deep_view() =~= Seq::empty());
            assert(scan.sources.deep_view() =~= Seq::empty());
            assert(scan.skipped.deep_view() =~= Seq::empty());
        }
        Ok(scan)
    }

    /// The outcome for a Repository whose checkout is absent.
    pub fn unavailable(&self, repository: &RepositoryIdentity) -> (outcome: RepositoryScanOutcome)
        ensures
            outcome.deep_view() == absent_checkout(repository.deep_view().repository_id),
    {
        RepositoryScanOutcome::Unavailable {
            repository_id: repository.repository_id.copied(),
            reason: "Repository checkout is unavailable".to_owned(),
        }
    }

    /// Requires an outcome of a scan without a budget, which nothing can abandon.
    pub fn require_outcome(&self, outcome: Option<RepositoryScanOutcome>) -> (result: Result<RepositoryScanOutcome>)
        ensures
            fails_as(
                result,
                given(outcome is None, violated("an unbudgeted Repository scan cannot be abandoned"@)),
            ),
            result is Ok ==> outcome == Some(result->Ok_0),
    {
        match outcome {
            Some(outcome) => Ok(outcome),
            None => Err(invariant_violation("an unbudgeted Repository scan cannot be abandoned")),
        }
    }

    /// Keeps a prior snapshot that a new scan of the same generation repeats.
    pub fn reuse(
        &self,
        previous: &RepositorySnapshot,
        current: RepositoryScanOutcome,
    ) -> (outcome: RepositoryScanOutcome)
        ensures
            outcome.deep_view() == reused(previous.deep_view(), current.deep_view()),
    {
        let repeats = match &current {
            RepositoryScanOutcome::Available(snapshot) => snapshot.generation.same(&previous.generation),
            RepositoryScanOutcome::Unavailable { repository_id: _, reason: _ } => false,
        };
        if repeats {
            RepositoryScanOutcome::Available(previous.copied())
        } else {
            current
        }
    }
}

impl Default for RepositoryScanner {
    fn default() -> (scanner: Self)
        ensures
            scanner.limits == (RepositoryScannerLimits {
                max_files: 10_000,
                max_file_bytes: 1_048_576,
                max_total_bytes: 33_554_432,
            }),
    {
        RepositoryScanner { limits: RepositoryScannerLimits::default() }
    }
}

/// Why a path is skipped for its spelling alone, if it is.
pub open spec fn spelling_skip(path: Seq<char>) -> Option<SkippedFileReason> {
    if is_ignored(path) {
        Some(SkippedFileReason::IgnoredDirectory)
    } else if is_generated(path) {
        Some(SkippedFileReason::Generated)
    } else if language_of(path) is None {
        Some(SkippedFileReason::UnsupportedLanguage)
    } else {
        None
    }
}

/// Why a path is skipped for what the file system and Git say of it, if it is.
pub open spec fn state_skip(state: PathState, known: bool) -> Option<SkippedFileReason> {
    match state {
        PathState::Missing => Some(SkippedFileReason::Missing),
        PathState::Symlink => Some(SkippedFileReason::Symlink),
        PathState::Present => {
            if known {
                None
            } else {
                Some(SkippedFileReason::Untracked)
            }
        },
    }
}

/// The sum of two counts, as far as it can be counted.
pub open spec fn capped_sum(left: u64, right: u64) -> u64 {
    if left + right <= u64::MAX {
        (left + right) as u64
    } else {
        u64::MAX
    }
}

fn sum_capped(left: u64, right: u64) -> (sum: u64)
    ensures
        sum == capped_sum(left, right),
{
    if left <= u64::MAX - right {
        left + right
    } else {
        u64::MAX
    }
}

impl SourceScanView {
    /// The scan with a path skipped.
    pub open spec fn skipping(self, path: Seq<char>, reason: SkippedFileReason) -> SourceScanView {
        SourceScanView { skipped: self.skipped.push(SkippedFileView { path, reason }), ..self }
    }

    /// The scan with a path skipped, where there is a reason.
    pub open spec fn skipping_if(self, path: Seq<char>, reason: Option<SkippedFileReason>) -> SourceScanView {
        match reason {
            Some(reason) => self.skipping(path, reason),
            None => self,
        }
    }

    /// Why a path is skipped for its spelling or for the number of sources, if it is.
    pub open spec fn consideration_skip(self, path: Seq<char>) -> Option<SkippedFileReason> {
        if self.sources.len() >= self.limits.max_files {
            Some(SkippedFileReason::FileLimit)
        } else {
            spelling_skip(path)
        }
    }

    /// The scan once a path is considered: left unfinished where the budget has expired, and
    /// covered otherwise.
    pub open spec fn considering(self, path: Seq<char>, expired: bool) -> SourceScanView {
        if self.expired || expired {
            SourceScanView { expired: true, unfinished: self.unfinished.push(path), ..self }
        } else {
            SourceScanView { covered: self.covered.push(path), ..self }.skipping_if(
                path,
                self.consideration_skip(path),
            )
        }
    }

    /// Why a path is skipped for where it lies and how large it is, if it is.
    pub open spec fn placement_skip(self, inside: bool, size: u64) -> Option<SkippedFileReason> {
        if !inside {
            Some(SkippedFileReason::EscapesRepository)
        } else if size > self.limits.max_file_bytes {
            Some(SkippedFileReason::Oversized)
        } else if capped_sum(self.scanned_bytes, size) > self.limits.max_total_bytes {
            Some(SkippedFileReason::TotalByteLimit)
        } else {
            None
        }
    }

    /// The scan with a source accepted.
    pub open spec fn accepting(self, source: SourceFileView) -> SourceScanView {
        SourceScanView {
            scanned_bytes: capped_sum(self.scanned_bytes, source.size),
            sources: self.sources.push(source),
            ..self
        }
    }
}

/// How the version of some bytes is named.
pub open spec fn version_digest_of(bytes: Seq<u8>) -> Seq<char> {
    "version:"@ + sha256_hex(bytes)
}

fn file_version_digest(bytes: &Vec<u8>) -> (digest: String)
    ensures
        digest@ == version_digest_of(bytes@),
{
    let hash = sha256_text(bytes);
    joined2("version:", hash.as_str())
}

/// Whether a source holds the given bytes.
pub open spec fn is_source_of(
    source: SourceFileView,
    path: Seq<char>,
    bytes: Seq<u8>,
    source_state: ArtifactSourceState,
) -> bool {
    &&& source.path == path
    &&& language_of(path) == Some(source.language)
    &&& source.source_state == source_state
    &&& source.version_digest == version_digest_of(bytes)
    &&& source.size == bytes.len()
    &&& vstd::utf8::encode_utf8(source.text) == bytes
}

impl SourceScan {
    fn skip(&mut self, path: &RepoRelativePath, reason: SkippedFileReason)
        ensures
            final(self).deep_view() == old(self).deep_view().skipping(path@, reason),
    {
        push_value(&mut self.skipped, SkippedFile { path: path.as_str().to_owned(), reason });
    }

    /// Considers the next planned path. Tells whether the file system has to be asked about it.
    pub fn consider(&mut self, path: &RepoRelativePath, expired: bool) -> (inspect: bool)
        ensures
            final(self).deep_view() == old(self).deep_view().considering(path@, expired),
            inspect == (!old(self).deep_view().expired && !expired && old(self).deep_view().consideration_skip(
                path@,
            ) is None),
    {
        if self.expired || expired {
            self.expired = true;
            push_value(&mut self.unfinished, path.copied());
            return false;
        }
        assert(self.sources.deep_view().len() == self.sources@.len());
        push_value(&mut self.covered, path.copied());
        if self.sources.len() >= self.limits.max_files {
            self.skip(path, SkippedFileReason::FileLimit);
            return false;
        }
        let text = path.as_str();
        if is_ignored_path(text) {
            self.skip(path, SkippedFileReason::IgnoredDirectory);
            return false;
        }
        if is_generated_path(text) {
            self.skip(path, SkippedFileReason::Generated);
            return false;
        }
        if language_for_path(text).is_none() {
            self.skip(path, SkippedFileReason::UnsupportedLanguage);
            return false;
        }
        true
    }

    /// Takes what the file system and Git say of a path. Tells whether it has to be located.
    pub fn inspect(&mut self, path: &RepoRelativePath, state: PathState, known: bool) -> (locate: bool)
        ensures
            final(self).deep_view() == old(self).deep_view().skipping_if(path@, state_skip(state, known)),
            locate == state_skip(state, known) is None,
    {
        match state {
            PathState::Missing => {
                self.skip(path, SkippedFileReason::Missing);
                false
            },
            PathState::Symlink => {
                self.skip(path, SkippedFileReason::Symlink);
                false
            },
            PathState::Present => {
                if !known {
                    self.skip(path, SkippedFileReason::Untracked);
                }
                known
            },
        }
    }

    /// Takes where a path lies and how large it is. Tells whether it has to be read.
    pub fn locate(&mut self, path: &RepoRelativePath, inside: bool, size: u64) -> (read: bool)
        ensures
            final(self).deep_view() == old(self).deep_view().skipping_if(
                path@,
                old(self).deep_view().placement_skip(inside, size),
            ),
            read == old(self).deep_view().placement_skip(inside, size) is None,
    {
        if !inside {
            self.skip(path, SkippedFileReason::EscapesRepository);
            return false;
        }
        if size > self.limits.max_file_bytes {
            self.skip(path, SkippedFileReason::Oversized);
            return false;
        }
        if sum_capped(self.scanned_bytes, size) > self.limits.max_total_bytes {
            self.skip(path, SkippedFileReason::TotalByteLimit);
            return false;
        }
        true
    }

    /// Takes the bytes of a path in a known language: text is accepted as a source, anything else
    /// is skipped.
    pub fn accept(&mut self, path: &RepoRelativePath, bytes: &Vec<u8>, source_state: ArtifactSourceState)
        requires
            language_of(path@) is Some,
        ensures
            is_binary_content(bytes@) ==> final(self).deep_view() == old(self).deep_view().skipping(
                path@,
                SkippedFileReason::Binary,
            ),
            !is_binary_content(bytes@) ==> final(self).deep_view().sources.len() > 0 && is_source_of(
                final(self).deep_view().sources.last(),
                path@,
                bytes@,
                source_state,
            ) && final(self).deep_view() == old(self).deep_view().accepting(final(self).deep_view().sources.last()),
    {
        match (source_text(bytes), language_for_path(path.as_str())) {
            (Some(text), Some(language)) => {
                let size: u64 = bytes.len() as u64;
                self.scanned_bytes = sum_capped(self.scanned_bytes, size);
                push_value(
                    &mut self.sources,
                    SourceFile {
                        path: path.as_str().to_owned(),
                        language,
                        source_state,
                        version_digest: file_version_digest(bytes),
                        size,
                        text,
                    },
                );
            },
            _ => {
                self.skip(path, SkippedFileReason::Binary);
            },
        }
    }
}

/// What a source shows, before it becomes an Artifact.
#[derive(Clone, Debug, PartialEq, Eq)]
pub struct Finding {
    pub locator: ArtifactLocator,
    pub display_name: String,
    pub line: Option<u32>,
}

/// The model of [`Finding`].
pub struct FindingView {
    pub locator: ArtifactLocatorView,
    pub display_name: Seq<char>,
    pub line: Option<u32>,
}

impl DeepView for Finding {
    type V = FindingView;

    open spec fn deep_view(&self) -> FindingView {
        FindingView {
            locator: self.locator.deep_view(),
            display_name: self.display_name.deep_view(),
            line: self.line.deep_view(),
        }
    }
}

impl Value for Finding {
    fn copied(&self) -> (copy: Self) {
        Finding {
            locator: self.locator.copied(),
            display_name: self.display_name.copied(),
            line: self.line.copied(),
        }
    }

    fn same(&self, other: &Self) -> (equal: bool) {
        self.locator.same(&other.locator)
            && self.display_name.same(&other.display_name)
            && self.line.same(&other.line)
    }
}

/// The locator of a discovery, where its kind has one.
pub open spec fn located(source: SourceFileView, found: DiscoveryView) -> Option<ArtifactLocatorView> {
    let module = module_of(source.path);
    match found.kind {
        ArtifactKind::Symbol => Some(
            ArtifactLocatorView::Symbol {
                path: source.path,
                language: language_text(source.language),
                module,
                enclosing_type: None,
                symbol_name: found.name,
                signature: signature_of(found.source),
            },
        ),
        ArtifactKind::Test => Some(
            ArtifactLocatorView::Test { path: source.path, qualified_test_name: module + "::"@ + found.name },
        ),
        ArtifactKind::Api => Some(
            ArtifactLocatorView::Api {
                path: source.path,
                protocol: protocol_of(found.source),
                operation: operation_of(found.source),
                normalized_route: normal_key(found.name),
            },
        ),
        ArtifactKind::Schema => Some(
            ArtifactLocatorView::Schema {
                path: source.path,
                namespace: module,
                version: version_of(found.source),
                qualified_name: module + "::"@ + found.name,
            },
        ),
        _ => None,
    }
}

/// The findings that discoveries make.
pub open spec fn located_all(source: SourceFileView, found: Seq<DiscoveryView>) -> Seq<FindingView>
    decreases found.len(),
{
    if found.len() == 0 {
        Seq::empty()
    } else {
        let before = located_all(source, found.drop_last());
        match located(source, found.last()) {
            Some(locator) => before.push(
                FindingView { locator, display_name: found.last().name, line: Some(found.last().line) },
            ),
            None => before,
        }
    }
}

/// What a source shows: the file, its module where it lies in one, and what it declares.
pub open spec fn findings_of(source: SourceFileView) -> Seq<FindingView> {
    let file = seq![
        FindingView {
            locator: ArtifactLocatorView::File { path: source.path },
            display_name: source.path,
            line: None,
        },
    ];
    let module = match parent_of(source.path) {
        Some(parent) => seq![
            FindingView {
                locator: ArtifactLocatorView::Module { path: parent },
                display_name: module_of(source.path),
                line: None,
            },
        ],
        None => Seq::empty(),
    };
    file + module + located_all(source, discoveries(source.language, source.path, source.text))
}

fn stored_path(text: &str) -> (path: RepoRelativePath)
    ensures
        path@ == text@,
{
    RepoRelativePath::from_stored(text.to_owned())
}

fn locate_discovery(source: &SourceFile, found: &Discovery) -> (locator: Option<ArtifactLocator>)
    ensures
        locator.deep_view() == located(source.deep_view(), found.deep_view()),
{
    let module = module_name(source.path.as_str());
    match found.kind {
        ArtifactKind::Symbol => Some(
            ArtifactLocator::Symbol {
                path: stored_path(source.path.as_str()),
                language: language_name(source.language).to_owned(),
                module,
                enclosing_type: None,
                symbol_name: found.name.copied(),
                signature: normalize_signature(found.source.as_str()),
            },
        ),
        ArtifactKind::Test => Some(
            ArtifactLocator::Test {
                path: stored_path(source.path.as_str()),
                qualified_test_name: joined3(module.as_str(), "::", found.name.as_str()),
            },
        ),
        ArtifactKind::Api => Some(
            ArtifactLocator::Api {
                path: stored_path(source.path.as_str()),
                protocol: api_protocol(found.source.as_str()).to_owned(),
                operation: api_operation(found.source.as_str()).to_owned(),
                normalized_route: normalize_api_key(found.name.as_str()),
            },
        ),
        ArtifactKind::Schema => {
            let qualified_name = joined3(module.as_str(), "::", found.name.as_str());
            Some(
                ArtifactLocator::Schema {
                    path: stored_path(source.path.as_str()),
                    namespace: module,
                    version: schema_version(found.source.as_str()),
                    qualified_name,
                },
            )
        },
        _ => None,
    }
}

/// Lists what a source shows.
fn list_findings(source: &SourceFile) -> (findings: Vec<Finding>)
    ensures
        findings.deep_view() == findings_of(source.deep_view()),
{
    let ghost model = source.deep_view();
    let mut findings: Vec<Finding> = Vec::new();
    push_value(
        &mut findings,
        Finding {
            locator: ArtifactLocator::File { path: stored_path(source.path.as_str()) },
            display_name: source.path.copied(),
            line: None,
        },
    );
    if let Some(parent) = parent_path(source.path.as_str()) {
        push_value(
            &mut findings,
            Finding {
                locator: ArtifactLocator::Module { path: stored_path(parent.as_str()) },
                display_name: module_name(source.path.as_str()),
                line: None,
            },
        );
    }
    let ghost head = findings.deep_view();
    let found = extract(source.language, source.path.as_str(), source.text.as_str());
    let ghost all = discoveries(model.language, model.path, model.text);
    let mut index: usize = 0;
    assert(all.take(0) =~= Seq::empty());
    assert(head + located_all(model, all.take(0)) =~= head);
    while index < found.len()
        invariant
            index <= found@.len(),
            model == source.deep_view(),
            found.deep_view() == all,
            findings.deep_view() == head + located_all(model, all.take(index as int)),
        decreases found@.len() - index,
    {
        assert(all[index as int] == found@[index as int].deep_view());
        proof {
            take_next(all, index as int);
        }
        if let Some(locator) = locate_discovery(source, &found[index]) {
            push_value(
                &mut findings,
                Finding { locator, display_name: found[index].name.copied(), line: Some(found[index].line) },
            );
        }
        assert(findings.deep_view() =~= head + located_all(model, all.take(index + 1)));
        index = index + 1;
    }
    assert(all.len() == found@.len());
    assert(all.take(index as int) =~= all);
    assert(findings.deep_view() =~= findings_of(model));
    findings
}

/// The Artifact that a finding becomes in a Repository.
pub open spec fn artifact_of(repository: RepositoryIdentityView, finding: FindingView) -> EngineeringArtifactView {
    EngineeringArtifactView {
        repository,
        artifact_key: derived_key(repository.repository_id, finding.locator),
        display_name: finding.display_name,
    }
}

/// Why a finding becomes no Artifact, if it does not.
pub open spec fn finding_problem(repository: RepositoryIdentityView, finding: FindingView) -> Option<ErrorView> {
    first(finding.locator.problem(), artifact_of(repository, finding).problem())
}

/// Why the findings of a source become no Artifacts, if they do not.
pub open spec fn source_problem(repository: RepositoryIdentityView, source: SourceFileView) -> Option<ErrorView> {
    let findings = findings_of(source);
    first_from(|i: int| finding_problem(repository, findings[i]), 0, findings.len())
}

fn artifact(repository: &RepositoryIdentity, finding: &Finding) -> (result: Result<EngineeringArtifact>)
    ensures
        fails_as(result, finding_problem(repository.deep_view(), finding.deep_view())),
        result is Ok ==> result->Ok_0.deep_view() == artifact_of(repository.deep_view(), finding.deep_view()),
{
    let key = ArtifactKey::derive(repository.repository_id.copied(), finding.locator.copied())?;
    let artifact = EngineeringArtifact {
        repository: repository.copied(),
        artifact_key: key,
        display_name: finding.display_name.copied(),
    };
    artifact.validate()?;
    Ok(artifact)
}

/// The observation that a finding makes of its source.
pub open spec fn observation_of(source: SourceFileView, finding: FindingView) -> ArtifactObservationView {
    ArtifactObservationView {
        path: source.path,
        line: finding.line,
        language: source.language,
        source_state: source.source_state,
    }
}

/// Artifacts by digest, with one more observation: of a new Artifact, or among the sorted distinct
/// observations of a known one.
pub open spec fn with_artifact(
    artifacts: Map<Seq<char>, SnapshotArtifactView>,
    artifact: EngineeringArtifactView,
    observation: ArtifactObservationView,
) -> Map<Seq<char>, SnapshotArtifactView> {
    let key = artifact.artifact_key.digest;
    if artifacts.contains_key(key) {
        let known = artifacts[key];
        artifacts.insert(
            key,
            SnapshotArtifactView {
                observations: set_listing::<ArtifactObservation>(known.observations.to_set().insert(observation)),
                ..known
            },
        )
    } else {
        artifacts.insert(
            key,
            SnapshotArtifactView {
                artifact,
                snapshot_generation: ""@,
                source_policy: SnapshotSourcePolicy::PlannedPathsWithSafeTrackedModifications,
                observations: seq![observation],
            },
        )
    }
}

/// Artifacts with the first findings of a source.
pub open spec fn with_findings(
    artifacts: Map<Seq<char>, SnapshotArtifactView>,
    repository: RepositoryIdentityView,
    source: SourceFileView,
    count: nat,
) -> Map<Seq<char>, SnapshotArtifactView>
    decreases count,
{
    if count == 0 {
        artifacts
    } else {
        let finding = findings_of(source)[count - 1];
        with_artifact(
            with_findings(artifacts, repository, source, (count - 1) as nat),
            artifact_of(repository, finding),
            observation_of(source, finding),
        )
    }
}

/// The Artifacts that sources show, by digest.
pub open spec fn artifacts_in(
    repository: RepositoryIdentityView,
    sources: Seq<SourceFileView>,
) -> Map<Seq<char>, SnapshotArtifactView>
    decreases sources.len(),
{
    if sources.len() == 0 {
        Map::empty()
    } else {
        with_findings(
            artifacts_in(repository, sources.drop_last()),
            repository,
            sources.last(),
            findings_of(sources.last()).len(),
        )
    }
}

/// Whether the observations of every Artifact are sorted and distinct.
pub open spec fn observations_ascend(artifacts: Map<Seq<char>, SnapshotArtifactView>) -> bool {
    forall|key: Seq<char>| #[trigger]
        artifacts.contains_key(key) ==> ascending::<ArtifactObservation>(artifacts[key].observations)
}

fn insert_artifact(
    artifacts: &mut SortedMap<String, SnapshotArtifact>,
    artifact: EngineeringArtifact,
    observation: ArtifactObservation,
)
    requires
        observations_ascend(old(artifacts).deep_view()),
    ensures
        final(artifacts).deep_view() == with_artifact(
            old(artifacts).deep_view(),
            artifact.deep_view(),
            observation.deep_view(),
        ),
        observations_ascend(final(artifacts).deep_view()),
{
    let ghost before = artifacts.deep_view();
    let ghost seen = observation.deep_view();
    let key = artifact.artifact_key.digest().to_owned();
    let known = match artifacts.get(&key) {
        Some(existing) => Some(existing.copied()),
        None => None,
    };
    match known {
        Some(existing) => {
            let mut observations = existing.observations;
            assert(observations.deep_view() == before[key@].observations);
            insert_unique(&mut observations, observation);
            proof {
                is_set_listing::<ArtifactObservation>(observations.deep_view());
            }
            artifacts.insert(
                key,
                SnapshotArtifact {
                    artifact: existing.artifact,
                    snapshot_generation: existing.snapshot_generation,
                    source_policy: existing.source_policy,
                    observations,
                },
            );
        },
        None => {
            let mut observations: Vec<ArtifactObservation> = Vec::new();
            assert(observations.deep_view() =~= Seq::empty());
            push_value(&mut observations, observation);
            assert(observations.deep_view() =~= seq![seen]);
            artifacts.insert(
                key,
                SnapshotArtifact {
                    artifact,
                    snapshot_generation: "".to_owned(),
                    source_policy: SnapshotSourcePolicy::PlannedPathsWithSafeTrackedModifications,
                    observations,
                },
            );
        },
    }
    assert forall|other: Seq<char>| #[trigger] artifacts.deep_view().contains_key(other) implies ascending::<
        ArtifactObservation,
    >(artifacts.deep_view()[other].observations) by {
        if other != artifact.deep_view().artifact_key.digest {
            assert(before.contains_key(other));
        }
    }
}

/// A scan whose sources are being parsed one by one.
pub struct SourceParse {
    pub scan: SourceScan,
    pub artifacts: SortedMap<String, SnapshotArtifact>,
    pub parsed: usize,
}

impl Placed for SourceFile {
    type Key = String;

    open spec fn place(model: SourceFileView) -> Seq<char> {
        model.path
    }

    fn place_key(&self) -> (key: String) {
        self.path.copied()
    }
}

impl Placed for SkippedFile {
    type Key = String;

    open spec fn place(model: SkippedFileView) -> Seq<char> {
        model.path
    }

    fn place_key(&self) -> (key: String) {
        self.path.copied()
    }
}

impl SourceScanView {
    /// The scan with its sources and its skipped files in the order of their paths.
    pub open spec fn by_path(self) -> SourceScanView {
        SourceScanView {
            sources: stably_sorted::<SourceFile>(self.sources),
            skipped: stably_sorted::<SkippedFile>(self.skipped),
            ..self
        }
    }

    /// Whether the sources and the skipped files are in the order of their paths.
    pub open spec fn in_path_order(self) -> bool {
        placed_in_order::<SourceFile>(self.sources) && placed_in_order::<SkippedFile>(self.skipped)
    }
}

/// Ordering a scan by path puts its sources and its skipped files in that order, and loses none.
pub proof fn ordered_scans_are_in_path_order(scan: SourceScanView)
    ensures
        scan.by_path().in_path_order(),
        scan.by_path().sources.to_multiset() == scan.sources.to_multiset(),
        scan.by_path().skipped.to_multiset() == scan.skipped.to_multiset(),
        scan.by_path().sources.len() == scan.sources.len(),
        scan.by_path().skipped.len() == scan.skipped.len(),
{
    sorting_orders_items::<SourceFile>(scan.sources);
    sorting_orders_items::<SkippedFile>(scan.skipped);
    sorting_keeps_items::<SourceFile>(scan.sources);
    sorting_keeps_items::<SkippedFile>(scan.skipped);
}

impl SourceParse {
    /// Whether the Artifacts are those of the sources parsed so far.
    pub open spec fn follows(self, repository: RepositoryIdentityView) -> bool {
        &&& self.parsed <= self.scan.deep_view().sources.len()
        &&& self.artifacts.deep_view() == artifacts_in(
            repository,
            self.scan.deep_view().sources.take(self.parsed as int),
        )
        &&& observations_ascend(self.artifacts.deep_view())
        &&& self.scan.deep_view().in_path_order()
    }

    /// Starts parsing the sources of a scan, in the order of their paths.
    pub fn start(scan: SourceScan) -> (parse: SourceParse)
        ensures
            parse.scan.deep_view() == scan.deep_view().by_path(),
            parse.parsed == 0,
            forall|repository: RepositoryIdentityView| #[trigger] parse.follows(repository),
    {
        proof {
            ordered_scans_are_in_path_order(scan.deep_view());
            assert(scan.deep_view().by_path().sources.take(0) =~= Seq::empty());
        }
        let sources = sort_stably(&scan.sources);
        let skipped = sort_stably(&scan.skipped);
        let scan = SourceScan {
            limits: scan.limits,
            covered: scan.covered,
            unfinished: scan.unfinished,
            sources,
            skipped,
            scanned_bytes: scan.scanned_bytes,
            expired: scan.expired,
        };
        SourceParse { scan, artifacts: SortedMap::new(), parsed: 0 }
    }

    /// Whether a source is left to parse.
    pub fn has_more(&self) -> (more: bool)
        ensures
            more == (self.parsed < self.scan.deep_view().sources.len()),
    {
        assert(self.scan.sources.deep_view().len() == self.scan.sources@.len());
        self.parsed < self.scan.sources.len()
    }

    /// Parses the next source.
    pub fn parse_next(&mut self, repository: &RepositoryIdentity) -> (result: Result<()>)
        requires
            old(self).follows(repository.deep_view()),
            old(self).parsed < old(self).scan.deep_view().sources.len(),
        ensures
            fails_as(
                result,
                source_problem(
                    repository.deep_view(),
                    old(self).scan.deep_view().sources[old(self).parsed as int],
                ),
            ),
            result is Ok ==> final(self).follows(repository.deep_view()) && final(self).scan == old(self).scan
                && final(self).parsed == old(self).parsed + 1,
    {
        let ghost owner = repository.deep_view();
        let ghost sources = self.scan.deep_view().sources;
        let ghost start = self.artifacts.deep_view();
        let count: usize = self.scan.sources.len();
        let source = &self.scan.sources[self.parsed];
        let ghost model = source.deep_view();
        assert(model == sources[self.parsed as int]);
        let findings = list_findings(source);
        let ghost all = findings_of(model);
        let ghost problem = |i: int| finding_problem(owner, all[i]);
        let mut index: usize = 0;
        while index < findings.len()
            invariant
                index <= findings@.len(),
                findings.deep_view() == all,
                all == findings_of(model),
                model == source.deep_view(),
                owner == repository.deep_view(),
                problem == (|i: int| finding_problem(owner, all[i])),
                first_from(problem, 0, all.len()) == first_from(problem, index as nat, all.len()),
                source_problem(owner, model) == first_from(problem, 0, all.len()),
                sources[old(self).parsed as int] == model,
                sources == old(self).scan.deep_view().sources,
                self.artifacts.deep_view() == with_findings(start, owner, model, index as nat),
                observations_ascend(self.artifacts.deep_view()),
                self.scan == old(self).scan,
                self.parsed == old(self).parsed,
                self.parsed < count == self.scan.sources@.len(),
                *source == self.scan.sources@[self.parsed as int],
            decreases findings@.len() - index,
        {
            assert(all[index as int] == findings@[index as int].deep_view());
            let finding = &findings[index];
            let found = artifact(repository, finding)?;
            let observation = ArtifactObservation {
                path: source.path.copied(),
                line: finding.line,
                language: source.language,
                source_state: source.source_state,
            };
            insert_artifact(&mut self.artifacts, found, observation);
            index = index + 1;
        }
        assert(all.len() == findings@.len());
        proof {
            take_next(sources, self.parsed as int);
        }
        self.parsed = self.parsed + 1;
        Ok(())
    }
}

/// The paths of sources.
pub open spec fn source_paths(sources: Seq<SourceFileView>) -> Seq<Seq<char>> {
    Seq::new(sources.len(), |i: int| sources[i].path)
}

/// The bytes of sources, as far as they can be counted.
pub open spec fn total_bytes(sources: Seq<SourceFileView>) -> u64
    decreases sources.len(),
{
    if sources.len() == 0 {
        0
    } else {
        capped_sum(total_bytes(sources.drop_last()), sources.last().size)
    }
}

impl SourceScanView {
    /// The scan without the sources that were not parsed: their paths are unfinished, not covered.
    pub open spec fn cut_at(self, parsed: int) -> SourceScanView {
        if parsed >= self.sources.len() {
            self
        } else {
            let unread = source_paths(self.sources.skip(parsed));
            SourceScanView {
                covered: self.covered.filter(|path: Seq<char>| !unread.contains(path)),
                unfinished: sorted_listing::<RepoRelativePath>((self.unfinished + unread).to_multiset()),
                sources: self.sources.take(parsed),
                scanned_bytes: total_bytes(self.sources.take(parsed)),
                ..self
            }
        }
    }

    /// How much of the plan was read.
    pub open spec fn coverage(self) -> ScanCoverageView {
        if self.unfinished.len() == 0 {
            ScanCoverageView::Complete
        } else {
            ScanCoverageView::Partial { covered: self.covered, unfinished: self.unfinished }
        }
    }
}

/// The name of a source state in generations.
pub open spec fn state_text(state: ArtifactSourceState) -> Seq<char> {
    match state {
        ArtifactSourceState::TrackedHead => "tracked_head"@,
        ArtifactSourceState::TrackedWorkingModification => "tracked_working_modification"@,
    }
}

fn state_name(state: ArtifactSourceState) -> (name: &'static str)
    ensures
        name@ == state_text(state),
{
    match state {
        ArtifactSourceState::TrackedHead => "tracked_head",
        ArtifactSourceState::TrackedWorkingModification => "tracked_working_modification",
    }
}

/// The name of a reason in generations.
pub open spec fn reason_text(reason: SkippedFileReason) -> Seq<char> {
    match reason {
        SkippedFileReason::Missing => "missing"@,
        SkippedFileReason::Untracked => "untracked"@,
        SkippedFileReason::IgnoredDirectory => "ignored_directory"@,
        SkippedFileReason::Generated => "generated"@,
        SkippedFileReason::UnsupportedLanguage => "unsupported_language"@,
        SkippedFileReason::Symlink => "symlink"@,
        SkippedFileReason::EscapesRepository => "escapes_repository"@,
        SkippedFileReason::Oversized => "oversized"@,
        SkippedFileReason::Binary => "binary"@,
        SkippedFileReason::FileLimit => "file_limit"@,
        SkippedFileReason::TotalByteLimit => "total_byte_limit"@,
    }
}

fn skipped_reason_name(reason: SkippedFileReason) -> (name: &'static str)
    ensures
        name@ == reason_text(reason),
{
    match reason {
        SkippedFileReason::Missing => "missing",
        SkippedFileReason::Untracked => "untracked",
        SkippedFileReason::IgnoredDirectory => "ignored_directory",
        SkippedFileReason::Generated => "generated",
        SkippedFileReason::UnsupportedLanguage => "unsupported_language",
        SkippedFileReason::Symlink => "symlink",
        SkippedFileReason::EscapesRepository => "escapes_repository",
        SkippedFileReason::Oversized => "oversized",
        SkippedFileReason::Binary => "binary",
        SkippedFileReason::FileLimit => "file_limit",
        SkippedFileReason::TotalByteLimit => "total_byte_limit",
    }
}

/// What sources add to a generation.
pub open spec fn source_components(sources: Seq<SourceFileView>) -> Seq<Seq<char>>
    decreases sources.len(),
{
    if sources.len() == 0 {
        Seq::empty()
    } else {
        source_components(sources.drop_last()) + seq![
            sources.last().path,
            sources.last().version_digest,
            state_text(sources.last().source_state),
        ]
    }
}

/// What skipped files add to a generation.
pub open spec fn skipped_components(skipped: Seq<SkippedFileView>) -> Seq<Seq<char>>
    decreases skipped.len(),
{
    if skipped.len() == 0 {
        Seq::empty()
    } else {
        skipped_components(skipped.drop_last()) + seq![skipped.last().path, reason_text(skipped.last().reason)]
    }
}

/// What a generation is made of: the policy, the Repository, its tree, the coverage, the plan, what
/// a partial scan covered, the sources, and what was skipped.
pub open spec fn generation_components(
    repository_id: Seq<char>,
    head_tree_oid: Seq<char>,
    planned: Seq<Seq<char>>,
    coverage: ScanCoverageView,
    sources: Seq<SourceFileView>,
    skipped: Seq<SkippedFileView>,
) -> Seq<Seq<char>> {
    seq![POLICY_VERSION@, repository_id, head_tree_oid, coverage.tag()] + planned + match coverage {
        ScanCoverageView::Complete => Seq::empty(),
        ScanCoverageView::Partial { covered, unfinished: _ } => covered,
    } + source_components(sources) + skipped_components(skipped)
}

/// The generation of a snapshot.
pub open spec fn generation_of(
    repository_id: Seq<char>,
    head_tree_oid: Seq<char>,
    planned: Seq<Seq<char>>,
    coverage: ScanCoverageView,
    sources: Seq<SourceFileView>,
    skipped: Seq<SkippedFileView>,
) -> Seq<char> {
    "snap_"@ + sha256_hex(
        framed_all(generation_components(repository_id, head_tree_oid, planned, coverage, sources, skipped)),
    )
}

impl RepositorySnapshotView {
    /// What the generation of a snapshot over some sources digests.
    pub open spec fn digested(self, sources: Seq<SourceFileView>) -> Seq<Seq<char>> {
        generation_components(
            self.repository_id,
            self.head_tree_oid,
            self.planned_paths,
            self.coverage,
            sources,
            self.skipped_files,
        )
    }
}

/// A partial snapshot does not claim the generation of a complete one: what the two digest differs.
pub proof fn partial_generations_digest_other_bytes(
    left: RepositorySnapshotView,
    right: RepositorySnapshotView,
    left_sources: Seq<SourceFileView>,
    right_sources: Seq<SourceFileView>,
)
    requires
        left.coverage.complete(),
        !right.coverage.complete(),
        forall|i: int|
            0 <= i < left.digested(left_sources).len() ==> fits_frame(#[trigger] left.digested(left_sources)[i]),
        forall|i: int|
            0 <= i < right.digested(right_sources).len() ==> fits_frame(#[trigger] right.digested(right_sources)[i]),
    ensures
        framed_all(left.digested(left_sources)) != framed_all(right.digested(right_sources)),
{
    if framed_all(left.digested(left_sources)) == framed_all(right.digested(right_sources)) {
        framing_is_injective(left.digested(left_sources), right.digested(right_sources));
        assert(left.digested(left_sources)[3] == left.coverage.tag());
        assert(right.digested(right_sources)[3] == right.coverage.tag());
        reveal_strlit("coverage:complete");
        reveal_strlit("coverage:partial:");
        assert(left.coverage.tag()[9] == 'c');
        assert(right.coverage.tag()[9] == 'p');
    }
}

fn push_paths(components: &mut Vec<String>, paths: &Vec<RepoRelativePath>)
    ensures
        final(components).deep_view() == old(components).deep_view() + paths.deep_view(),
{
    let ghost start = components.deep_view();
    let ghost model = paths.deep_view();
    let mut index: usize = 0;
    assert(start + model.take(0) =~= start);
    while index < paths.len()
        invariant
            index <= paths@.len(),
            model == paths.deep_view(),
            components.deep_view() == start + model.take(index as int),
        decreases paths@.len() - index,
    {
        assert(model[index as int] == paths@[index as int]@);
        push_value(components, paths[index].as_str().to_owned());
        proof {
            take_next(model, index as int);
            assert(components.deep_view() =~= start + model.take(index + 1));
        }
        index = index + 1;
    }
    assert(model.take(index as int) =~= model);
}

fn push_sources(components: &mut Vec<String>, sources: &Vec<SourceFile>)
    ensures
        final(components).deep_view() == old(components).deep_view() + source_components(sources.deep_view()),
{
    let ghost start = components.deep_view();
    let ghost model = sources.deep_view();
    let mut index: usize = 0;
    assert(model.take(0) =~= Seq::empty());
    assert(start + source_components(model.take(0)) =~= start);
    while index < sources.len()
        invariant
            index <= sources@.len(),
            model == sources.deep_view(),
            components.deep_view() == start + source_components(model.take(index as int)),
        decreases sources@.len() - index,
    {
        assert(model[index as int] == sources@[index as int].deep_view());
        let source = &sources[index];
        push_value(components, source.path.copied());
        push_value(components, source.version_digest.copied());
        push_value(components, state_name(source.source_state).to_owned());
        proof {
            take_next(model, index as int);
            assert(components.deep_view() =~= start + source_components(model.take(index + 1)));
        }
        index = index + 1;
    }
    assert(model.take(index as int) =~= model);
}

fn push_skipped(components: &mut Vec<String>, skipped: &Vec<SkippedFile>)
    ensures
        final(components).deep_view() == old(components).deep_view() + skipped_components(skipped.deep_view()),
{
    let ghost start = components.deep_view();
    let ghost model = skipped.deep_view();
    let mut index: usize = 0;
    assert(model.take(0) =~= Seq::empty());
    assert(start + skipped_components(model.take(0)) =~= start);
    while index < skipped.len()
        invariant
            index <= skipped@.len(),
            model == skipped.deep_view(),
            components.deep_view() == start + skipped_components(model.take(index as int)),
        decreases skipped@.len() - index,
    {
        assert(model[index as int] == skipped@[index as int].deep_view());
        let file = &skipped[index];
        push_value(components, file.path.copied());
        push_value(components, skipped_reason_name(file.reason).to_owned());
        proof {
            take_next(model, index as int);
            assert(components.deep_view() =~= start + skipped_components(model.take(index + 1)));
        }
        index = index + 1;
    }
    assert(model.take(index as int) =~= model);
}

/// Names the generation of a snapshot.
fn snapshot_generation(
    repository_id: &RepositoryId,
    head_tree_oid: &str,
    planned_paths: &Vec<RepoRelativePath>,
    coverage: &ScanCoverage,
    sources: &Vec<SourceFile>,
    skipped_files: &Vec<SkippedFile>,
) -> (generation: String)
    ensures
        generation@ == generation_of(
            repository_id@,
            head_tree_oid@,
            planned_paths.deep_view(),
            coverage.deep_view(),
            sources.deep_view(),
            skipped_files.deep_view(),
        ),
{
    let mut components: Vec<String> = Vec::new();
    push_value(&mut components, POLICY_VERSION.to_owned());
    push_value(&mut components, repository_id.to_string());
    push_value(&mut components, head_tree_oid.to_owned());
    push_value(&mut components, coverage.digest_tag());
    assert(components.deep_view() =~= seq![
        POLICY_VERSION@,
        repository_id@,
        head_tree_oid@,
        coverage.deep_view().tag(),
    ]);
    push_paths(&mut components, planned_paths);
    if let ScanCoverage::Partial { covered, unfinished: _ } = coverage {
        push_paths(&mut components, covered);
    }
    push_sources(&mut components, sources);
    push_skipped(&mut components, skipped_files);
    assert(components.deep_view() =~= generation_components(
        repository_id@,
        head_tree_oid@,
        planned_paths.deep_view(),
        coverage.deep_view(),
        sources.deep_view(),
        skipped_files.deep_view(),
    ));
    let bytes = frame_all(&components);
    let hash = sha256_text(&bytes);
    joined2("snap_", hash.as_str())
}

/// Artifacts by digest, each stamped with a generation.
pub open spec fn stamped(
    artifacts: Map<Seq<char>, SnapshotArtifactView>,
    generation: Seq<char>,
) -> Seq<SnapshotArtifactView> {
    let keys = set_listing::<String>(artifacts.dom());
    Seq::new(
        keys.len(),
        |i: int| SnapshotArtifactView { snapshot_generation: generation, ..artifacts[keys[i]] },
    )
}

fn stamp(artifacts: &SortedMap<String, SnapshotArtifact>, generation: &str) -> (list: Vec<SnapshotArtifact>)
    ensures
        list.deep_view() == stamped(artifacts.deep_view(), generation@),
{
    let ghost map = artifacts.deep_view();
    let count = artifacts.len();
    let ghost keys = artifacts.listing();
    proof {
        is_set_listing::<String>(keys);
    }
    let ghost expected = stamped(map, generation@);
    let mut list: Vec<SnapshotArtifact> = Vec::new();
    let mut index: usize = 0;
    assert(list.deep_view() =~= expected.take(0));
    while index < count
        invariant
            index <= count,
            count == keys.len(),
            keys == artifacts.listing(),
            map == artifacts.deep_view(),
            keys == set_listing::<String>(map.dom()),
            expected == stamped(map, generation@),
            list.deep_view() == expected.take(index as int),
        decreases count - index,
    {
        let known = artifacts.value_at(index);
        push_value(
            &mut list,
            SnapshotArtifact {
                artifact: known.artifact.copied(),
                snapshot_generation: generation.to_owned(),
                source_policy: known.source_policy,
                observations: known.observations.copied(),
            },
        );
        proof {
            take_next(expected, index as int);
        }
        index = index + 1;
    }
    assert(expected.take(index as int) =~= expected);
    list
}

/// What a scan commits: nothing where no planned path was inspected.
pub open spec fn committed(
    scan: SourceScanView,
    parsed: int,
    repository: RepositoryIdentityView,
    plan: RepositoryScanPlanView,
    head_tree_oid: Seq<char>,
) -> Option<RepositorySnapshotView> {
    let read = scan.cut_at(parsed);
    let generation = generation_of(
        repository.repository_id,
        head_tree_oid,
        plan.paths,
        read.coverage(),
        read.sources,
        read.skipped,
    );
    if read.covered.len() == 0 {
        None
    } else {
        Some(
            RepositorySnapshotView {
                repository_id: repository.repository_id,
                source_policy: SnapshotSourcePolicy::PlannedPathsWithSafeTrackedModifications,
                policy_version: POLICY_VERSION@,
                head_tree_oid,
                generation,
                planned_paths: plan.paths,
                coverage: read.coverage(),
                artifacts: stamped(artifacts_in(repository, read.sources), generation),
                scanned_files: read.sources.len() as usize,
                scanned_bytes: read.scanned_bytes,
                skipped_files: read.skipped,
            },
        )
    }
}

fn keep_covered(covered: &Vec<RepoRelativePath>, unread: &Vec<RepoRelativePath>) -> (kept: Vec<RepoRelativePath>)
    ensures
        kept.deep_view() == covered.deep_view().filter(
            |path: Seq<char>| !unread.deep_view().contains(path),
        ),
{
    let ghost model = covered.deep_view();
    let ghost left = unread.deep_view();
    let ghost keep = |path: Seq<char>| !left.contains(path);
    let mut kept: Vec<RepoRelativePath> = Vec::new();
    let mut index: usize = 0;
    proof {
        reveal(Seq::filter);
        assert(model.take(0).filter(keep) =~= Seq::empty());
        assert(kept.deep_view() =~= Seq::empty());
    }
    while index < covered.len()
        invariant
            index <= covered@.len(),
            model == covered.deep_view(),
            left == unread.deep_view(),
            keep == (|path: Seq<char>| !left.contains(path)),
            kept.deep_view() == model.take(index as int).filter(keep),
        decreases covered@.len() - index,
    {
        assert(model[index as int] == covered@[index as int]@);
        proof {
            take_next(model, index as int);
            filter_push(model.take(index as int), model[index as int], keep);
        }
        if !crate::checks::is_among(unread, &covered[index]) {
            push_value(&mut kept, covered[index].copied());
        }
        index = index + 1;
    }
    assert(model.take(index as int) =~= model);
    kept
}

fn paths_from(sources: &Vec<SourceFile>, from: usize) -> (paths: Vec<RepoRelativePath>)
    requires
        from <= sources@.len(),
    ensures
        paths.deep_view() == source_paths(sources.deep_view().skip(from as int)),
{
    let ghost model = sources.deep_view();
    let ghost expected = source_paths(model.skip(from as int));
    let mut paths: Vec<RepoRelativePath> = Vec::new();
    let mut index: usize = from;
    assert(paths.deep_view() =~= expected.take(0));
    while index < sources.len()
        invariant
            from <= index <= sources@.len(),
            model == sources.deep_view(),
            expected == source_paths(model.skip(from as int)),
            paths.deep_view() == expected.take(index - from),
        decreases sources@.len() - index,
    {
        assert(model[index as int] == sources@[index as int].deep_view());
        assert(model.skip(from as int)[index - from] == model[index as int]);
        push_value(&mut paths, stored_path(sources[index].path.as_str()));
        proof {
            take_next(expected, index - from);
        }
        index = index + 1;
    }
    assert(expected.take(index - from) =~= expected);
    paths
}

fn first_sources(sources: &Vec<SourceFile>, count: usize) -> (result: (Vec<SourceFile>, u64))
    requires
        count <= sources@.len(),
    ensures
        result.0.deep_view() == sources.deep_view().take(count as int),
        result.1 == total_bytes(sources.deep_view().take(count as int)),
{
    let ghost model = sources.deep_view();
    let mut kept: Vec<SourceFile> = Vec::new();
    let mut bytes: u64 = 0;
    let mut index: usize = 0;
    assert(model.take(0) =~= Seq::empty());
    assert(kept.deep_view() =~= model.take(0));
    while index < count
        invariant
            index <= count <= sources@.len(),
            model == sources.deep_view(),
            kept.deep_view() == model.take(index as int),
            bytes == total_bytes(model.take(index as int)),
        decreases count - index,
    {
        assert(model[index as int] == sources@[index as int].deep_view());
        proof {
            take_next(model, index as int);
        }
        bytes = sum_capped(bytes, sources[index].size);
        push_value(&mut kept, sources[index].copied());
        index = index + 1;
    }
    (kept, bytes)
}

fn join_paths(left: &Vec<RepoRelativePath>, right: &Vec<RepoRelativePath>) -> (all: Vec<RepoRelativePath>)
    ensures
        all.deep_view() == left.deep_view() + right.deep_view(),
{
    let mut all = left.copied();
    let ghost model = right.deep_view();
    let mut index: usize = 0;
    assert(all.deep_view() =~= left.deep_view() + model.take(0));
    while index < right.len()
        invariant
            index <= right@.len(),
            model == right.deep_view(),
            all.deep_view() == left.deep_view() + model.take(index as int),
        decreases right@.len() - index,
    {
        assert(model[index as int] == right@[index as int]@);
        push_value(&mut all, right[index].copied());
        proof {
            take_next(model, index as int);
            assert(all.deep_view() =~= left.deep_view() + model.take(index + 1));
        }
        index = index + 1;
    }
    assert(model.take(index as int) =~= model);
    all
}

impl SourceScan {
    /// Leaves out the sources that were not parsed.
    fn cut(self, parsed: usize) -> (scan: SourceScan)
        requires
            parsed <= self.deep_view().sources.len(),
        ensures
            scan.deep_view() == self.deep_view().cut_at(parsed as int),
    {
        assert(self.sources.deep_view().len() == self.sources@.len());
        if parsed >= self.sources.len() {
            return self;
        }
        let unread = paths_from(&self.sources, parsed);
        let covered = keep_covered(&self.covered, &unread);
        let unfinished = sort_values(join_paths(&self.unfinished, &unread));
        let (sources, scanned_bytes) = first_sources(&self.sources, parsed);
        proof {
            let left = source_paths(self.deep_view().sources.skip(parsed as int));
            assert(unread.deep_view() == left);
            assert(covered.deep_view() == self.deep_view().covered.filter(|path: Seq<char>| !left.contains(path)));
        }
        SourceScan {
            limits: self.limits,
            covered,
            unfinished,
            sources,
            skipped: self.skipped,
            scanned_bytes,
            expired: self.expired,
        }
    }
}

impl SourceParse {
    /// Commits what was scanned and parsed: nothing where no planned path was inspected.
    pub fn commit(self, repository: &RepositoryIdentity, plan: &RepositoryScanPlan, head_tree_oid: &str) -> (outcome:
        Option<RepositoryScanOutcome>)
        requires
            self.follows(repository.deep_view()),
        ensures
            outcome.deep_view() == (match committed(
                self.scan.deep_view(),
                self.parsed as int,
                repository.deep_view(),
                plan.deep_view(),
                head_tree_oid@,
            ) {
                Some(snapshot) => Some(RepositoryScanOutcomeView::Available(snapshot)),
                None => None,
            }),
            outcome.deep_view() matches Some(RepositoryScanOutcomeView::Available(snapshot)) ==> placed_in_order::<
                SkippedFile,
            >(snapshot.skipped_files),
    {
        let ghost whole = self.scan.deep_view();
        let ghost parsed = self.parsed as int;
        let artifacts = self.artifacts;
        let read = self.scan.cut(self.parsed);
        proof {
            assert(read.deep_view().sources == whole.sources.take(parsed)) by {
                if parsed >= whole.sources.len() {
                    assert(whole.sources.take(parsed) =~= whole.sources);
                }
            }
            assert(read.covered.deep_view().len() == read.covered@.len());
            assert(read.unfinished.deep_view().len() == read.unfinished@.len());
            assert(read.sources.deep_view().len() == read.sources@.len());
        }
        let ghost model = read.deep_view();
        if read.covered.len() == 0 {
            return None;
        }
        let coverage = if read.unfinished.len() == 0 {
            ScanCoverage::Complete
        } else {
            ScanCoverage::Partial { covered: read.covered, unfinished: read.unfinished }
        };
        assert(coverage.deep_view() == model.coverage());
        let generation = snapshot_generation(
            &repository.repository_id,
            head_tree_oid,
            plan.paths(),
            &coverage,
            &read.sources,
            &read.skipped,
        );
        let list = stamp(&artifacts, generation.as_str());
        Some(
            RepositoryScanOutcome::Available(
                RepositorySnapshot {
                    repository_id: repository.repository_id.copied(),
                    source_policy: SnapshotSourcePolicy::PlannedPathsWithSafeTrackedModifications,
                    policy_version: POLICY_VERSION,
                    head_tree_oid: head_tree_oid.to_owned(),
                    generation,
                    planned_paths: plan.paths().copied(),
                    coverage,
                    artifacts: list,
                    scanned_files: read.sources.len(),
                    scanned_bytes: read.scanned_bytes,
                    skipped_files: read.skipped,
                },
            ),
        )
    }
}

/// Why the sources of a scan become no Artifacts, if they do not.
pub open spec fn sources_problem(
    repository: RepositoryIdentityView,
    sources: Seq<SourceFileView>,
) -> Option<ErrorView> {
    first_from(|i: int| source_problem(repository, sources[i]), 0, sources.len())
}

impl SourceScan {
    /// Parses every source and commits the scan, without a budget.
    pub fn commit_all(self, repository: &RepositoryIdentity, plan: &RepositoryScanPlan, head_tree_oid: &str) -> (result:
        Result<Option<RepositoryScanOutcome>>)
        ensures
            fails_as(result, sources_problem(repository.deep_view(), self.deep_view().by_path().sources)),
            result is Ok ==> result->Ok_0.deep_view() == (match committed(
                self.deep_view().by_path(),
                self.deep_view().sources.len() as int,
                repository.deep_view(),
                plan.deep_view(),
                head_tree_oid@,
            ) {
                Some(snapshot) => Some(RepositoryScanOutcomeView::Available(snapshot)),
                None => None,
            }),
    {
        let ghost owner = repository.deep_view();
        let ghost whole = self.deep_view().by_path();
        let ghost sources = whole.sources;
        let ghost problem = |i: int| source_problem(owner, sources[i]);
        proof {
            ordered_scans_are_in_path_order(self.deep_view());
        }
        let mut parse = SourceParse::start(self);
        assert(parse.follows(owner));
        while parse.has_more()
            invariant
                owner == repository.deep_view(),
                whole == self.deep_view().by_path(),
                parse.scan.deep_view() == whole,
                sources == whole.sources,
                parse.parsed <= sources.len(),
                parse.follows(owner),
                problem == (|i: int| source_problem(owner, sources[i])),
                sources_problem(owner, sources) == first_from(problem, 0, sources.len()),
                first_from(problem, 0, sources.len()) == first_from(problem, parse.parsed as nat, sources.len()),
            decreases sources.len() - parse.parsed,
        {
            parse.parse_next(repository)?;
        }
        Ok(parse.commit(repository, plan, head_tree_oid))
    }
}

/// A scan that reads its whole plan, and parses every source, commits complete coverage.
pub proof fn whole_scans_are_complete(
    scan: SourceScanView,
    repository: RepositoryIdentityView,
    plan: RepositoryScanPlanView,
    head_tree_oid: Seq<char>,
)
    requires
        scan.unfinished.len() == 0,
        scan.covered.len() > 0,
    ensures
        committed(scan, scan.sources.len() as int, repository, plan, head_tree_oid) is Some,
        committed(scan, scan.sources.len() as int, repository, plan, head_tree_oid)->Some_0.coverage.complete(),
{
}

/// A planned path is either covered or left unfinished, and only a budget leaves one unfinished.
pub proof fn considering_covers_or_leaves(scan: SourceScanView, path: Seq<char>, expired: bool)
    ensures
        expired || scan.expired ==> scan.considering(path, expired).unfinished == scan.unfinished.push(path)
            && scan.considering(path, expired).covered == scan.covered,
        !expired && !scan.expired ==> scan.considering(path, expired).covered == scan.covered.push(path)
            && scan.considering(path, expired).unfinished == scan.unfinished,
        scan.considering(path, expired).expired == (scan.expired || expired),
{
}

impl SourceScanView {
    /// Whether a scan accounts for the paths that it considered so far, in order: each is covered
    /// or left unfinished, and its sources are different covered paths.
    pub open spec fn accounts_for(self, paths: Seq<Seq<char>>) -> bool {
        &&& self.covered + self.unfinished == paths
        &&& !self.expired ==> self.unfinished.len() == 0
        &&& source_paths(self.sources).no_duplicates()
        &&& forall|i: int| 0 <= i < self.sources.len() ==> self.covered.contains((#[trigger] self.sources[i]).path)
    }
}

impl SourceScanView {
    /// Whether a scan holds no more sources and no more bytes than its limits allow.
    pub open spec fn within_limits(self) -> bool {
        self.sources.len() <= self.limits.max_files && self.scanned_bytes <= self.limits.max_total_bytes
    }
}

/// A scan is bounded: a source that was considered and located, and that is no larger than it was
/// located as, keeps a scan within its limits.
pub proof fn scans_stay_within_limits(scan: SourceScanView, source: SourceFileView, inside: bool, size: u64)
    requires
        scan.within_limits(),
        scan.consideration_skip(source.path) is None,
        scan.placement_skip(inside, size) is None,
        source.size <= size,
    ensures
        scan.accepting(source).within_limits(),
        source.size <= scan.limits.max_file_bytes,
{
}

/// A scan that has begun accounts for nothing yet.
pub proof fn fresh_scans_account_for_nothing(limits: RepositoryScannerLimits)
    ensures
        fresh_scan(limits).accounts_for(Seq::empty()),
{
    assert(fresh_scan(limits).covered + fresh_scan(limits).unfinished =~= Seq::<Seq<char>>::empty());
}

/// Considering a path accounts for it, and skipping a path changes nothing.
pub proof fn considered_paths_are_accounted_for(
    scan: SourceScanView,
    paths: Seq<Seq<char>>,
    path: Seq<char>,
    expired: bool,
    skipped: Seq<char>,
    reason: Option<SkippedFileReason>,
)
    requires
        scan.accounts_for(paths),
    ensures
        scan.considering(path, expired).accounts_for(paths.push(path)),
        scan.skipping_if(skipped, reason).accounts_for(paths),
{
    let after = scan.considering(path, expired);
    assert(after.covered + after.unfinished =~= paths.push(path));
    assert forall|i: int| 0 <= i < after.sources.len() implies after.covered.contains(
        (#[trigger] after.sources[i]).path,
    ) by {
        assert(scan.sources[i] == after.sources[i]);
        let k = choose|k: int| 0 <= k < scan.covered.len() && scan.covered[k] == scan.sources[i].path;
        assert(after.covered[k] == scan.sources[i].path);
    }
}

/// Accepting a covered path as a source, once, keeps every path accounted for.
pub proof fn accepted_sources_are_accounted_for(scan: SourceScanView, paths: Seq<Seq<char>>, source: SourceFileView)
    requires
        scan.accounts_for(paths),
        scan.covered.contains(source.path),
        !source_paths(scan.sources).contains(source.path),
    ensures
        scan.accepting(source).accounts_for(paths),
{
    let before = source_paths(scan.sources);
    let after = source_paths(scan.accepting(source).sources);
    assert forall|i: int, j: int| 0 <= i < after.len()
        && 0 <= j < after.len()
        && i != j implies after[i] != after[j] by {
        if i < before.len() && j < before.len() {
            assert(after[i] == before[i] && after[j] == before[j]);
        } else if i < before.len() {
            assert(after[i] == before[i]);
        } else {
            assert(after[j] == before[j]);
        }
    }
}

/// Ordering a scan by path keeps every path accounted for.
pub proof fn ordered_scans_account_for_their_paths(scan: SourceScanView, paths: Seq<Seq<char>>)
    requires
        scan.accounts_for(paths),
    ensures
        scan.by_path().accounts_for(paths),
{
    let sorted = scan.by_path().sources;
    let before = source_paths(scan.sources);
    let after = source_paths(sorted);
    ordered_scans_are_in_path_order(scan);
    scan.sources.to_multiset_ensures();
    sorted.to_multiset_ensures();
    assert forall|i: int, j: int| 0 <= i < scan.sources.len() && 0 <= j < scan.sources.len() && i
        != j implies scan.sources[i] != scan.sources[j] by {
        assert(before[i] != before[j]);
    }
    scan.sources.lemma_multiset_has_no_duplicates();
    sorted.lemma_multiset_has_no_duplicates_conv();
    assert forall|i: int| 0 <= i < sorted.len() implies #[trigger] scan.sources.contains(sorted[i]) by {
        assert(sorted.to_multiset().contains(sorted[i]));
        assert(scan.sources.to_multiset().contains(sorted[i]));
    }
    assert forall|i: int, j: int| 0 <= i < after.len()
        && 0 <= j < after.len()
        && i != j implies after[i] != after[j] by {
        assert(scan.sources.contains(sorted[i]) && scan.sources.contains(sorted[j]));
        let k = choose|k: int| 0 <= k < scan.sources.len() && scan.sources[k] == sorted[i];
        let l = choose|l: int| 0 <= l < scan.sources.len() && scan.sources[l] == sorted[j];
        assert(sorted[i] != sorted[j]);
        assert(before[k] != before[l]);
    }
    assert forall|i: int| 0 <= i < sorted.len() implies scan.covered.contains((#[trigger] sorted[i]).path) by {
        assert(scan.sources.contains(sorted[i]));
        let k = choose|k: int| 0 <= k < scan.sources.len() && scan.sources[k] == sorted[i];
        assert(scan.covered.contains(scan.sources[k].path));
    }
}

/// Moving different entries of a list without duplicates out of it leaves the same entries in all.
proof fn parted_lists_add_up(list: Seq<Seq<char>>, out: Seq<Seq<char>>)
    requires
        list.no_duplicates(),
        out.no_duplicates(),
        forall|i: int| 0 <= i < out.len() ==> list.contains(#[trigger] out[i]),
    ensures
        list.filter(|item: Seq<char>| !out.contains(item)).to_multiset().add(out.to_multiset()) == list.to_multiset(),
{
    let keep = |item: Seq<char>| !out.contains(item);
    let kept = list.filter(keep);
    let parts = kept.to_multiset().add(out.to_multiset());
    kept_entries_are_different(list, keep);
    list.to_multiset_ensures();
    kept.to_multiset_ensures();
    out.to_multiset_ensures();
    list.lemma_multiset_has_no_duplicates();
    kept.lemma_multiset_has_no_duplicates();
    out.lemma_multiset_has_no_duplicates();
    assert forall|item: Seq<char>| parts.count(item) == list.to_multiset().count(item) by {
        assert(kept.contains(item) == (list.contains(item) && !out.contains(item))) by {
            filtered_contains(list, keep, item);
        }
        assert(kept.contains(item) == (kept.to_multiset().count(item) > 0));
        assert(out.contains(item) == (out.to_multiset().count(item) > 0));
        assert(list.contains(item) == (list.to_multiset().count(item) > 0));
        if out.contains(item) {
            let i = choose|i: int| 0 <= i < out.len() && out[i] == item;
            assert(list.contains(out[i]));
        }
    }
    assert(parts =~= list.to_multiset());
}

proof fn filtered_contains(list: Seq<Seq<char>>, keep: spec_fn(Seq<char>) -> bool, item: Seq<char>)
    ensures
        list.filter(keep).contains(item) == (list.contains(item) && keep(item)),
    decreases list.len(),
{
    reveal(Seq::filter);
    if list.len() > 0 {
        let shorter = list.drop_last();
        let last = list.last();
        filtered_contains(shorter, keep, item);
        assert(list =~= shorter.push(last));
        assert(list.contains(item) == (shorter.contains(item) || item == last)) by {
            if shorter.contains(item) {
                let i = choose|i: int| 0 <= i < shorter.len() && shorter[i] == item;
                assert(list[i] == item);
            }
            if list.contains(item) && item != last {
                let i = choose|i: int| 0 <= i < list.len() && list[i] == item;
                assert(shorter[i] == item);
            }
            assert(list[list.len() - 1] == last);
        }
        let before = shorter.filter(keep);
        assert(list.filter(keep) == if keep(last) { before.push(last) } else { before });
        if keep(last) {
            assert(before.push(last).contains(item) == (before.contains(item) || item == last)) by {
                if before.contains(item) {
                    let i = choose|i: int| 0 <= i < before.len() && before[i] == item;
                    assert(before.push(last)[i] == item);
                }
                assert(before.push(last)[before.len() as int] == last);
                if before.push(last).contains(item) && item != last {
                    let i = choose|i: int| 0 <= i < before.push(last).len() && before.push(last)[i] == item;
                    assert(before[i] == item);
                }
            }
        }
    }
}

proof fn kept_entries_are_different(list: Seq<Seq<char>>, keep: spec_fn(Seq<char>) -> bool)
    requires
        list.no_duplicates(),
    ensures
        list.filter(keep).no_duplicates(),
    decreases list.len(),
{
    reveal(Seq::filter);
    if list.len() > 0 {
        let shorter = list.drop_last();
        let last = list.last();
        let before = shorter.filter(keep);
        kept_entries_are_different(shorter, keep);
        filtered_contains(shorter, keep, last);
        assert(!shorter.contains(last)) by {
            if shorter.contains(last) {
                let i = choose|i: int| 0 <= i < shorter.len() && shorter[i] == last;
                assert(list[i] == list[list.len() - 1]);
            }
        }
        if keep(last) {
            let after = before.push(last);
            assert forall|i: int, j: int| 0 <= i < after.len() && 0 <= j < after.len() && i != j implies after[i]
                != after[j] by {
                if i < before.len() {
                    assert(before.contains(before[i]));
                }
                if j < before.len() {
                    assert(before.contains(before[j]));
                }
            }
        }
    }
}

/// However far a scan came, its coverage accounts for every planned path exactly once: what is
/// covered and what is unfinished add up to the plan.
pub proof fn coverage_accounts_for_the_plan(scan: SourceScanView, paths: Seq<Seq<char>>, parsed: int)
    requires
        scan.accounts_for(paths),
        paths.no_duplicates(),
        0 <= parsed,
    ensures
        match scan.cut_at(parsed).coverage() {
            ScanCoverageView::Complete => scan.cut_at(parsed).covered == paths,
            ScanCoverageView::Partial { covered, unfinished } => covered.to_multiset().add(unfinished.to_multiset())
                == paths.to_multiset(),
        },
{
    let read = scan.cut_at(parsed);
    vstd::seq_lib::lemma_multiset_commutative(scan.covered, scan.unfinished);
    if parsed >= scan.sources.len() {
        if scan.unfinished.len() == 0 {
            assert(scan.covered + scan.unfinished =~= scan.covered);
        }
    } else {
        let unread = source_paths(scan.sources.skip(parsed));
        let all = source_paths(scan.sources);
        let left = scan.unfinished + unread;
        assert forall|i: int, j: int| 0 <= i < unread.len() && 0 <= j < unread.len() && i != j implies unread[i]
            != unread[j] by {
            assert(unread[i] == all[parsed + i] && unread[j] == all[parsed + j]);
        }
        assert forall|i: int| 0 <= i < unread.len() implies scan.covered.contains(#[trigger] unread[i]) by {
            assert(unread[i] == scan.sources[parsed + i].path);
        }
        assert forall|i: int, j: int| 0 <= i < scan.covered.len() && 0 <= j < scan.covered.len() && i
            != j implies scan.covered[i] != scan.covered[j] by {
            assert(scan.covered[i] == paths[i] && scan.covered[j] == paths[j]);
        }
        parted_lists_add_up(scan.covered, unread);
        sorted_listing_exists::<RepoRelativePath>(left);
        vstd::seq_lib::lemma_multiset_commutative(scan.unfinished, unread);
        left.to_multiset_ensures();
        read.unfinished.to_multiset_ensures();
        assert(read.unfinished.len() == left.len());
        assert(read.covered.to_multiset().add(read.unfinished.to_multiset()) =~= scan.covered.to_multiset().add(
            scan.unfinished.to_multiset(),
        ));
    }
}

proof fn kept_entries_ascend(list: Seq<Seq<char>>, keep: spec_fn(Seq<char>) -> bool)
    requires
        ascending::<RepoRelativePath>(list),
    ensures
        ascending::<RepoRelativePath>(list.filter(keep)),
        forall|i: int| 0 <= i < list.filter(keep).len() ==> list.contains(#[trigger] list.filter(keep)[i]),
    decreases list.len(),
{
    reveal(Seq::filter);
    if list.len() > 0 {
        let shorter = list.drop_last();
        let kept = shorter.filter(keep);
        kept_entries_ascend(shorter, keep);
        let after = list.filter(keep);
        assert(after == if keep(list.last()) {
            kept.push(list.last())
        } else {
            kept
        });
        assert forall|i: int| 0 <= i < after.len() implies list.contains(#[trigger] after[i]) by {
            if i < kept.len() {
                assert(after[i] == kept[i]);
                let k = choose|k: int| 0 <= k < shorter.len() && shorter[k] == kept[i];
                assert(list[k] == after[i]);
            } else {
                assert(list[list.len() - 1] == after[i]);
            }
        }
        assert forall|i: int, j: int| 0 <= i < j < after.len() implies <RepoRelativePath as Ordered>::below(
            #[trigger] after[i],
            #[trigger] after[j],
        ) by {
            assert(after[i] == kept[i]);
            if j < kept.len() {
                assert(after[j] == kept[j]);
            } else {
                assert(shorter.contains(kept[i]));
                let k = choose|k: int| 0 <= k < shorter.len() && shorter[k] == kept[i];
                assert(list[k] == after[i] && list[list.len() - 1] == after[j]);
            }
        }
    }
}

/// The coverage of a plan names its paths sorted and once each, as far as a scan came.
pub proof fn coverage_is_sorted(scan: SourceScanView, paths: Seq<Seq<char>>, parsed: int)
    requires
        scan.accounts_for(paths),
        ascending::<RepoRelativePath>(paths),
        0 <= parsed,
    ensures
        match scan.cut_at(parsed).coverage() {
            ScanCoverageView::Complete => true,
            ScanCoverageView::Partial { covered, unfinished } => ascending::<RepoRelativePath>(covered)
                && ascending::<RepoRelativePath>(unfinished),
        },
{
    let read = scan.cut_at(parsed);
    let split = scan.covered.len();
    assert forall|i: int, j: int| 0 <= i < j < split implies <RepoRelativePath as Ordered>::below(
        #[trigger] scan.covered[i],
        #[trigger] scan.covered[j],
    ) by {
        assert(scan.covered[i] == paths[i] && scan.covered[j] == paths[j]);
    }
    assert forall|i: int, j: int| 0 <= i < j < scan.unfinished.len() implies <RepoRelativePath as Ordered>::below(
        #[trigger] scan.unfinished[i],
        #[trigger] scan.unfinished[j],
    ) by {
        assert(scan.unfinished[i] == paths[split + i] && scan.unfinished[j] == paths[split + j]);
    }
    if parsed < scan.sources.len() {
        let unread = source_paths(scan.sources.skip(parsed));
        let left = scan.unfinished + unread;
        let listed = read.unfinished;
        kept_entries_ascend(scan.covered, |path: Seq<char>| !unread.contains(path));
        ascending_has_no_duplicates::<RepoRelativePath>(paths);
        coverage_accounts_for_the_plan(scan, paths, parsed);
        unparsed_sources_are_not_covered(scan, parsed, parsed);
        sorted_listing_exists::<RepoRelativePath>(left);
        paths.lemma_multiset_has_no_duplicates();
        assert forall|path: Seq<char>| listed.to_multiset().contains(path) implies #[trigger] listed.to_multiset().count(path) == 1 by {
            let total = read.covered.to_multiset().add(listed.to_multiset());
            assert(total.count(path) == read.covered.to_multiset().count(path) + listed.to_multiset().count(path));
            assert(paths.to_multiset().contains(path));
        }
        listed.lemma_multiset_has_no_duplicates_conv();
        assert forall|i: int, j: int| 0 <= i < j < listed.len() implies <RepoRelativePath as Ordered>::below(
            #[trigger] listed[i],
            #[trigger] listed[j],
        ) by {
            <RepoRelativePath as Ordered>::order_laws(listed[i], listed[j], listed[i]);
            assert(listed[i] != listed[j]);
        }
    }
}

/// Where a scan stops before its last source, the paths that it did not parse count as unfinished
/// and not as covered: a snapshot never claims evidence about what was not read.
pub proof fn unparsed_sources_are_not_covered(scan: SourceScanView, parsed: int, at: int)
    requires
        0 <= parsed <= at < scan.sources.len(),
    ensures
        !scan.cut_at(parsed).coverage().complete(),
        !scan.cut_at(parsed).coverage().has_path(scan.sources[at].path),
        scan.cut_at(parsed).unfinished.contains(scan.sources[at].path),
{
    let path = scan.sources[at].path;
    let unread = source_paths(scan.sources.skip(parsed));
    let read = scan.cut_at(parsed);
    assert(unread[at - parsed] == path);
    assert(unread.contains(path));
    let keep = |path: Seq<char>| !unread.contains(path);
    let left = scan.unfinished + unread;
    sorted_listing_exists::<RepoRelativePath>(left);
    assert(left[scan.unfinished.len() + at - parsed] == path);
    left.to_multiset_ensures();
    read.unfinished.to_multiset_ensures();
    assert(left.contains(path));
    assert(left.to_multiset().contains(path));
    assert(read.unfinished.to_multiset().contains(path));
    assert(read.unfinished.contains(path));
    assert(!read.covered.contains(path)) by {
        if read.covered.contains(path) {
            let i = choose|i: int| 0 <= i < read.covered.len() && read.covered[i] == path;
            filter_keeps(scan.covered, keep, i);
        }
    }
    assert(read.unfinished.len() > 0);
}

} // verus!
