//! Bounded, deterministic scans of planned paths.

use std::collections::{BTreeMap, BTreeSet};
use std::time::{Duration, Instant};

use shared_context::extract::{
    api_operation, api_protocol, extract, java_method_name, normalize_signature, schema_version,
};
use shared_context::sources::{
    check_git_status, git_call_timeout, is_binary, is_generated_path, is_ignored_path, language_for_path,
    pathspec_batches, source_text,
};
use shared_context::{
    ArtifactKind, ArtifactLocator, ArtifactSourceState, CapturedStream, ErrorKind, PathState,
    RepoRelativePath, RepositoryId, RepositoryIdentity, RepositoryScanOutcome, RepositoryScanPlan,
    RepositoryScanner, RepositoryScannerLimits, RepositorySnapshot, ScanCoverage,
    SkippedFileReason, SortedSet, SourceLanguage, SourceParse, TrackedPathFacts,
    MAX_REPOSITORY_SCAN_PLAN_PATHS,
};

/// A checkout in memory: what the paths hold, and which of them the head knows as they are.
#[derive(Clone, Default)]
struct Checkout {
    files: BTreeMap<String, Vec<u8>>,
    modified: BTreeSet<String>,
    untracked: BTreeSet<String>,
    links: BTreeSet<String>,
    committed: bool,
}

fn write(repo: &mut Checkout, relative: &str, content: &str) {
    if repo.committed {
        if repo.files.contains_key(relative) {
            repo.modified.insert(relative.to_owned());
        } else {
            repo.untracked.insert(relative.to_owned());
        }
    }
    repo.files.insert(relative.to_owned(), content.as_bytes().to_vec());
}

fn commit_all(repo: &mut Checkout) {
    repo.modified.clear();
    repo.untracked.clear();
    repo.committed = true;
}

/// Scans a checkout; the budget expires after so many planned paths and so many parsed sources.
fn scan_within(
    scanner: RepositoryScanner,
    repository: &RepositoryIdentity,
    repo: &Checkout,
    plan: &RepositoryScanPlan,
    paths: usize,
    sources: usize,
) -> Option<RepositoryScanOutcome> {
    let mut scan = scanner.start(repository, plan).unwrap();
    for (index, path) in plan.paths().iter().enumerate() {
        let relative = path.as_str().to_owned();
        if !scan.consider(path, index >= paths) {
            continue;
        }
        let state = if repo.links.contains(&relative) {
            PathState::Symlink
        } else if repo.files.contains_key(&relative) {
            PathState::Present
        } else {
            PathState::Missing
        };
        if !scan.inspect(path, state, !repo.untracked.contains(&relative)) {
            continue;
        }
        let bytes = &repo.files[&relative];
        if !scan.locate(path, true, bytes.len() as u64) {
            continue;
        }
        let source_state = if repo.modified.contains(&relative) {
            ArtifactSourceState::TrackedWorkingModification
        } else {
            ArtifactSourceState::TrackedHead
        };
        scan.accept(path, bytes, source_state);
    }
    let mut parse = SourceParse::start(scan);
    let mut parsed = 0;
    while parse.has_more() && parsed < sources {
        parse.parse_next(repository).unwrap();
        parsed += 1;
    }
    parse.commit(repository, plan, "0123456789abcdef0123456789abcdef01234567")
}

fn scan(
    scanner: RepositoryScanner,
    repository: &RepositoryIdentity,
    repo: &Checkout,
    plan: &RepositoryScanPlan,
) -> RepositoryScanOutcome {
    let outcome = scan_within(scanner, repository, repo, plan, usize::MAX, usize::MAX);
    scanner.require_outcome(outcome).unwrap()
}

fn identity(name: &str) -> RepositoryIdentity {
    RepositoryIdentity {
        repository_id: RepositoryId::new(),
        canonical_name: name.to_owned(),
    }
}

fn plan(repository: &RepositoryIdentity, paths: &[&str]) -> RepositoryScanPlan {
    RepositoryScanPlan::new(
        repository.repository_id.clone(),
        paths
            .iter()
            .map(|path| RepoRelativePath::new(path).unwrap())
            .collect(),
    )
    .unwrap()
}

fn available(outcome: RepositoryScanOutcome) -> RepositorySnapshot {
    match outcome {
        RepositoryScanOutcome::Available(snapshot) => snapshot,
        RepositoryScanOutcome::Unavailable { reason, .. } => {
            panic!("Repository unexpectedly unavailable: {reason}")
        }
    }
}

fn seed_languages(repo: &mut Checkout) {
    write(
        repo,
        "rust/src/lib.rs",
        r#"
pub struct RustResult { value: String }
pub fn rust_search() { client.get("/api/search"); }
#[test]
fn rust_contract_test() { assert!(true); }
"#,
    );
    write(
        repo,
        "web/src/search.ts",
        r#"
export interface SearchResponse { value: string }
export function webSearch() { return fetch("/api/search"); }
test("web contract test", () => true);
"#,
    );
    write(
        repo,
        "ios/Sources/Search.swift",
        r#"
struct SwiftResult { let value: String }
func swiftSearch() { let url = URL(string: "/api/search") }
func testSwiftContract() { }
"#,
    );
    write(
        repo,
        "android/src/Search.kt",
        r#"
data class KotlinResult(val value: String)
fun kotlinSearch() { client.get("/api/search") }
@Test
fun kotlinContract() { }
"#,
    );
    write(
        repo,
        "schema/openapi.json",
        r#"{"openapi":"3.0.0","paths":{"/api/search":{}},"components":{"schemas":{"SearchResponse":{}}}}"#,
    );
    write(
        repo,
        "schema/search.proto",
        r"
message SearchResponse { string value = 1; }
service SearchService { rpc Search (SearchResponse) returns (SearchResponse); }
",
    );
}

#[test]
fn discovers_bounded_cross_language_artifacts_in_stable_order() {
    let mut repo = Checkout::default();
    seed_languages(&mut repo);
    write(
        &mut repo,
        "web/src/secret_marker.ts",
        "export const visible = 'FULL_SOURCE_MUST_NOT_BE_STORED';",
    );
    commit_all(&mut repo);
    let repository = identity("cross-language");
    let scanner = RepositoryScanner::default();
    let scan_plan = plan(
        &repository,
        &[
            "rust/src/lib.rs",
            "web/src/search.ts",
            "ios/Sources/Search.swift",
            "android/src/Search.kt",
            "schema/openapi.json",
            "schema/search.proto",
            "web/src/secret_marker.ts",
        ],
    );

    let first = available(scan(scanner, &repository, &repo, &scan_plan));
    let second = available(scan(scanner, &repository, &repo, &scan_plan));

    assert_eq!(first, second);
    assert_eq!(
        first.policy_version,
        "planned-paths-plus-safe-tracked-modifications-v2"
    );
    assert!(first.generation.starts_with("snap_"));
    assert!(first.artifacts.windows(2).all(
        |pair| pair[0].artifact.artifact_key.digest() < pair[1].artifact.artifact_key.digest()
    ));
    let kinds = first
        .artifacts
        .iter()
        .map(|artifact| artifact.artifact.artifact_key.kind())
        .collect::<BTreeSet<_>>();
    for expected in [
        ArtifactKind::Module,
        ArtifactKind::File,
        ArtifactKind::Symbol,
        ArtifactKind::Api,
        ArtifactKind::Schema,
        ArtifactKind::Test,
    ] {
        assert!(kinds.contains(&expected), "missing {expected:?}");
    }
    assert!(first.artifacts.iter().any(|artifact| matches!(
        artifact.artifact.artifact_key.locator(),
        ArtifactLocator::Symbol {
            path,
            language,
            module,
            enclosing_type: None,
            symbol_name,
            signature,
        } if path.as_str() == "web/src/search.ts"
            && language == "typescript-javascript"
            && module == "web/src"
            && symbol_name == "webSearch"
            && signature == "export function webSearch()"
    )));
    assert!(first.artifacts.iter().any(|artifact| matches!(
        artifact.artifact.artifact_key.locator(),
        ArtifactLocator::Api {
            path,
            protocol,
            operation,
            normalized_route,
        } if path.as_str() == "web/src/search.ts"
            && protocol == "http"
            && operation == "GET"
            && normalized_route == "/api/search"
    )));
    assert!(first.artifacts.iter().any(|artifact| matches!(
        artifact.artifact.artifact_key.locator(),
        ArtifactLocator::Schema {
            path,
            namespace,
            version,
            qualified_name,
        } if path.as_str() == "web/src/search.ts"
            && namespace == "web/src"
            && version == "unversioned"
            && qualified_name == "web/src::SearchResponse"
    )));
    assert!(first.artifacts.iter().any(|artifact| matches!(
        artifact.artifact.artifact_key.locator(),
        ArtifactLocator::Test {
            path,
            qualified_test_name,
        } if path.as_str() == "rust/src/lib.rs"
            && qualified_test_name == "rust/src::rust_contract_test"
    )));
    let apis = first
        .artifacts
        .iter()
        .filter(|artifact| {
            artifact.artifact.artifact_key.kind() == ArtifactKind::Api
                && artifact.artifact.display_name == "/api/search"
        })
        .collect::<Vec<_>>();
    assert!(!apis.is_empty());
    assert_eq!(
        apis.iter()
            .map(|artifact| &artifact.artifact.artifact_key)
            .collect::<BTreeSet<_>>()
            .len(),
        apis.len(),
        "same route in different repository-relative files remains distinct"
    );
    assert!(
        apis.iter()
            .all(|artifact| !artifact.observations.is_empty())
    );
    let schemas = first
        .artifacts
        .iter()
        .filter(|artifact| {
            artifact.artifact.artifact_key.kind() == ArtifactKind::Schema
                && artifact.artifact.display_name == "SearchResponse"
        })
        .collect::<Vec<_>>();
    assert!(!schemas.is_empty());
    assert_eq!(
        schemas
            .iter()
            .map(|artifact| &artifact.artifact.artifact_key)
            .collect::<BTreeSet<_>>()
            .len(),
        schemas.len(),
        "same Schema name in different files remains distinct"
    );
    assert!(
        schemas
            .iter()
            .all(|artifact| !artifact.observations.is_empty())
    );
    let test_languages = first
        .artifacts
        .iter()
        .filter(|artifact| artifact.artifact.artifact_key.kind() == ArtifactKind::Test)
        .flat_map(|artifact| artifact.observations.iter())
        .map(|observation| observation.language)
        .collect::<Vec<_>>();
    for expected in [
        SourceLanguage::Rust,
        SourceLanguage::TypeScriptJavaScript,
        SourceLanguage::Swift,
        SourceLanguage::Kotlin,
    ] {
        assert!(test_languages.contains(&expected), "missing {expected:?}");
    }
    assert!(first.artifacts.iter().all(|artifact| {
        artifact.snapshot_generation == first.generation
            && artifact
                .observations
                .iter()
                .all(|observation| observation.source_state == ArtifactSourceState::TrackedHead)
    }));
    assert!(!format!("{first:?}").contains("FULL_SOURCE_MUST_NOT_BE_STORED"));
}

#[test]
fn tracked_modifications_are_included_while_untracked_and_unsafe_files_are_skipped() {
    let mut repo = Checkout::default();
    write(&mut repo, "src/current.ts", "export function before() {}\n");
    write(&mut repo, "vendor/ignored.rs", "pub fn vendor() {}\n");
    write(
        &mut repo,
        "src/client.generated.ts",
        "export const generated = 1;\n",
    );
    write(&mut repo, ".secrets/token.json", "{\"token\":\"secret\"}\n");
    write(&mut repo, "src/large.ts", &"x".repeat(512));
    write(&mut repo, "src/binary.json", "{\0binary}");
    repo.links.insert("src/link.ts".to_owned());
    commit_all(&mut repo);
    write(&mut repo, "src/current.ts", "export function after() {}\n");
    write(
        &mut repo,
        "src/untracked.ts",
        "export function untracked() {}\n",
    );
    let scanner = RepositoryScanner::new(RepositoryScannerLimits {
        max_files: 100,
        max_file_bytes: 128,
        max_total_bytes: 4096,
    });
    let repository = identity("bounded");
    let scan_plan = plan(
        &repository,
        &[
            "src/current.ts",
            "vendor/ignored.rs",
            "src/client.generated.ts",
            ".secrets/token.json",
            "src/large.ts",
            "src/binary.json",
            "src/link.ts",
            "src/untracked.ts",
        ],
    );

    let snapshot = available(scan(scanner, &repository, &repo, &scan_plan));

    assert!(snapshot.artifacts.iter().any(|artifact| {
        artifact.artifact.display_name == "after"
            && artifact.observations.iter().any(|observation| {
                observation.source_state == ArtifactSourceState::TrackedWorkingModification
            })
    }));
    assert!(
        !snapshot
            .artifacts
            .iter()
            .any(|artifact| artifact.artifact.display_name == "before"
                || artifact.artifact.display_name == "untracked")
    );
    let reasons = snapshot
        .skipped_files
        .iter()
        .map(|skipped| skipped.reason)
        .collect::<Vec<_>>();
    for expected in [
        SkippedFileReason::IgnoredDirectory,
        SkippedFileReason::Generated,
        SkippedFileReason::Oversized,
        SkippedFileReason::Binary,
        SkippedFileReason::Untracked,
    ] {
        assert!(reasons.contains(&expected), "missing {expected:?}");
    }
    assert!(reasons.contains(&SkippedFileReason::Symlink));
}

#[test]
fn file_move_changes_exact_path_key_without_relocation_guessing() {
    let mut repo = Checkout::default();
    write(
        &mut repo,
        "old/search.rs",
        "pub fn stable_body() { answer(); }\n",
    );
    commit_all(&mut repo);
    let repository = identity("move");
    let scanner = RepositoryScanner::default();
    let before_plan = plan(&repository, &["old/search.rs"]);
    let before = available(scan(scanner, &repository, &repo, &before_plan));
    let moved = repo.files.remove("old/search.rs").unwrap();
    repo.files.insert("new/search.rs".to_owned(), moved);
    let after_plan = plan(&repository, &["new/search.rs"]);
    let after = available(scan(scanner, &repository, &repo, &after_plan));
    let before_file = before
        .artifacts
        .iter()
        .find(|artifact| artifact.artifact.artifact_key.kind() == ArtifactKind::File)
        .unwrap();
    let after_file = after
        .artifacts
        .iter()
        .find(|artifact| artifact.artifact.artifact_key.kind() == ArtifactKind::File)
        .unwrap();

    assert_ne!(
        before_file.artifact.artifact_key,
        after_file.artifact.artifact_key
    );
}

#[test]
fn symbol_rename_changes_qualified_locator_key() {
    let mut repo = Checkout::default();
    write(&mut repo, "src/lib.rs", "pub fn old_name() { answer(); }\n");
    commit_all(&mut repo);
    let repository = identity("rename");
    let scanner = RepositoryScanner::default();
    let scan_plan = plan(&repository, &["src/lib.rs"]);
    let before = available(scan(scanner, &repository, &repo, &scan_plan));
    write(&mut repo, "src/lib.rs", "pub fn new_name() { answer(); }\n");
    let after = available(scan(scanner, &repository, &repo, &scan_plan));
    let old = before
        .artifacts
        .iter()
        .find(|artifact| artifact.artifact.display_name == "old_name")
        .unwrap();
    let new = after
        .artifacts
        .iter()
        .find(|artifact| artifact.artifact.display_name == "new_name")
        .unwrap();

    assert_ne!(old.artifact.artifact_key, new.artifact.artifact_key);
}

#[test]
fn content_change_at_same_path_and_signature_keeps_locator_identity() {
    let mut repo = Checkout::default();
    write(&mut repo, "src/lib.rs", "pub fn stable() { before(); }\n");
    commit_all(&mut repo);
    let repository = identity("content-change");
    let scanner = RepositoryScanner::default();
    let scan_plan = plan(&repository, &["src/lib.rs"]);
    let before = available(scan(scanner, &repository, &repo, &scan_plan));
    write(&mut repo, "src/lib.rs", "pub fn stable() { after(); }\n");
    let after = available(scan(scanner, &repository, &repo, &scan_plan));
    assert_ne!(before.generation, after.generation);
    for kind in [ArtifactKind::File, ArtifactKind::Symbol] {
        let before_key = &before
            .artifacts
            .iter()
            .find(|artifact| artifact.artifact.artifact_key.kind() == kind)
            .unwrap()
            .artifact
            .artifact_key;
        let after_key = &after
            .artifacts
            .iter()
            .find(|artifact| artifact.artifact.artifact_key.kind() == kind)
            .unwrap()
            .artifact
            .artifact_key;
        assert_eq!(before_key, after_key);
    }
}

#[test]
fn same_name_symbols_in_different_modules_do_not_collide() {
    let mut repo = Checkout::default();
    write(&mut repo, "one/result.ts", "export class Result {}\n");
    write(&mut repo, "two/result.ts", "export class Result {}\n");
    commit_all(&mut repo);
    let repository = identity("modules");
    let scan_plan = plan(&repository, &["one/result.ts", "two/result.ts"]);
    let snapshot = available(
        scan(RepositoryScanner::default(), &repository, &repo, &scan_plan),
    );
    let keys = snapshot
        .artifacts
        .iter()
        .filter(|artifact| artifact.artifact.display_name == "Result")
        .map(|artifact| artifact.artifact.artifact_key.clone())
        .collect::<BTreeSet<_>>();
    assert_eq!(keys.len(), 2);
}

#[test]
fn incremental_scan_is_identical_to_scratch_for_same_generation() {
    let mut repo = Checkout::default();
    write(&mut repo, "src/lib.rs", "pub fn first() {}\n");
    commit_all(&mut repo);
    let repository = identity("incremental");
    let scanner = RepositoryScanner::default();
    let scan_plan = plan(&repository, &["src/lib.rs"]);
    let initial = available(scan(scanner, &repository, &repo, &scan_plan));
    write(
        &mut repo,
        "src/lib.rs",
        "pub fn first() {}\npub fn second() {}\n",
    );

    let incremental = available(
        scanner.reuse(&initial, scan(scanner, &repository, &repo, &scan_plan)),
    );
    let scratch = available(scan(scanner, &repository, &repo, &scan_plan));

    assert_eq!(incremental, scratch);
    assert_ne!(initial.generation, incremental.generation);
}

#[test]
fn unavailable_repository_is_a_typed_outcome() {
    let repository = identity("unavailable");
    let scan_plan = plan(&repository, &["src/missing.rs"]);
    assert!(RepositoryScanner::default().start(&repository, &scan_plan).is_ok());
    let outcome = RepositoryScanner::default()
        .unavailable(&repository);
    assert!(matches!(
        outcome,
        RepositoryScanOutcome::Unavailable {
            repository_id,
            ..
        } if repository_id == repository.repository_id
    ));
}

#[test]
fn sparse_plan_reads_only_deduplicated_reference_paths() {
    let mut repo = Checkout::default();
    write(&mut repo, "src/referenced.rs", "pub fn referenced_only() {}\n");
    for index in 0..200 {
        write(
            &mut repo,
            &format!("src/unreferenced_{index}.rs"),
            &format!("pub fn unreferenced_{index}() {{}}\n"),
        );
    }
    write(
        &mut repo,
        "src/unreadable_unreferenced.rs",
        "pub fn must_never_be_read() {}\n",
    );
    commit_all(&mut repo);
    let repository = identity("sparse");
    let scan_plan = RepositoryScanPlan::new(
        repository.repository_id.clone(),
        vec![
            RepoRelativePath::new("src/referenced.rs").unwrap(),
            RepoRelativePath::new("src/referenced.rs").unwrap(),
        ],
    )
    .unwrap();

    assert_eq!(scan_plan.paths().len(), 1);
    let snapshot = available(scan(RepositoryScanner::default(), &repository, &repo, &scan_plan));
    assert_eq!(&snapshot.planned_paths, scan_plan.paths());
    assert_eq!(snapshot.scanned_files, 1);
    assert!(snapshot.artifacts.iter().all(|artifact| {
        artifact
            .observations
            .iter()
            .all(|observation| observation.path == "src/referenced.rs")
    }));
    assert!(!format!("{snapshot:?}").contains("unreferenced_"));
}

#[test]
fn empty_or_missing_plan_never_falls_back_to_repository_enumeration() {
    let mut repo = Checkout::default();
    write(
        &mut repo,
        "src/should_not_scan.rs",
        "pub fn forbidden_fallback() {}\n",
    );
    commit_all(&mut repo);
    let repository = identity("missing-plan");
    assert!(RepositoryScanPlan::new(repository.repository_id.clone(), Vec::new()).is_err());
    assert!(
        RepositoryScanPlan::new(
            repository.repository_id.clone(),
            (0..=MAX_REPOSITORY_SCAN_PLAN_PATHS)
                .map(|index| RepoRelativePath::new(&format!("src/path_{index}.rs")).unwrap())
                .collect(),
        )
        .is_err()
    );
    let missing = plan(&repository, &["src/missing.rs"]);

    let snapshot = available(
        scan(RepositoryScanner::default(), &repository, &repo, &missing),
    );
    assert_eq!(snapshot.scanned_files, 0);
    assert!(snapshot.artifacts.is_empty());
    assert_eq!(snapshot.skipped_files.len(), 1);
    assert_eq!(snapshot.skipped_files[0].path, "src/missing.rs");
    assert_eq!(snapshot.skipped_files[0].reason, SkippedFileReason::Missing);
    assert!(!format!("{snapshot:?}").contains("forbidden_fallback"));
}

/// Wall-clock budget a Confirmation-time rescan is allowed to spend.
const AUTO_SCAN_BUDGET: Duration = Duration::from_secs(2);
/// Plan size that a Confirmation in a monorepo produces.
const LARGE_PLAN_PATHS: usize = 1_000;

fn seed_large_plan(repo: &mut Checkout, files: usize, declarations: usize) -> Vec<String> {
    let mut paths = Vec::with_capacity(files);
    for index in 0..files {
        let relative = format!("module{:03}/src/unit{index:04}.rs", index % 64);
        let mut body = String::new();
        for item in 0..declarations {
            body.push_str(&format!("pub fn unit_{index}_{item}() -> u32 {{ {item} }}\n"));
        }
        write(repo, &relative, &body);
        paths.push(relative);
    }
    paths
}

#[test]
fn a_thousand_planned_paths_scan_inside_the_confirmation_budget() {
    let mut repo = Checkout::default();
    let paths = seed_large_plan(&mut repo, LARGE_PLAN_PATHS, 4);
    commit_all(&mut repo);
    let repository = identity("monorepo");
    let scan_plan = plan(
        &repository,
        &paths.iter().map(String::as_str).collect::<Vec<_>>(),
    );

    let started = Instant::now();
    let outcome = scan_within(
        RepositoryScanner::default(),
        &repository,
        &repo,
        &scan_plan,
        usize::MAX,
        usize::MAX,
    )
    .expect("a budgeted scan of a thousand planned paths must produce a snapshot");
    let elapsed = started.elapsed();

    let snapshot = available(outcome);
    assert_eq!(
        snapshot.scanned_files, LARGE_PLAN_PATHS,
        "every planned path must be read inside the budget"
    );
    assert!(
        snapshot.coverage.is_complete(),
        "a scan that finishes inside its budget is complete, not partial"
    );
    assert!(
        elapsed < AUTO_SCAN_BUDGET,
        "scanning {LARGE_PLAN_PATHS} planned paths took {elapsed:?}, over the \
         {AUTO_SCAN_BUDGET:?} Confirmation budget"
    );
    println!("scanned {LARGE_PLAN_PATHS} planned paths in {elapsed:?}");
}

#[test]
fn an_expired_budget_commits_the_scanned_subset_and_names_what_it_never_reached() {
    let mut repo = Checkout::default();
    let paths = seed_large_plan(&mut repo, 300, 200);
    commit_all(&mut repo);
    let repository = identity("partial");
    let scan_plan = plan(
        &repository,
        &paths.iter().map(String::as_str).collect::<Vec<_>>(),
    );

    let complete = available(
        scan(RepositoryScanner::default(), &repository, &repo, &scan_plan),
    );
    let partial = scan_within(
        RepositoryScanner::default(),
        &repository,
        &repo,
        &scan_plan,
        120,
        usize::MAX,
    )
    .map(available);
    let snapshot = partial.expect("a budget that expires mid-plan still commits what it read");

    let ScanCoverage::Partial {
        covered,
        unfinished,
    } = &snapshot.coverage
    else {
        panic!("a scan cut short by its budget must record partial coverage");
    };
    assert!(!covered.is_empty(), "the scanned subset must be committed");
    assert!(
        !unfinished.is_empty(),
        "the unread range must be named, not silently dropped"
    );
    assert_eq!(
        covered.len() + unfinished.len(),
        scan_plan.paths().len(),
        "coverage must account for every planned path exactly once"
    );
    assert!(
        !snapshot.artifacts.is_empty(),
        "the committed subset must carry the Artifacts it did read"
    );
    assert_ne!(
        snapshot.generation, complete.generation,
        "a partial snapshot must not claim the generation of a complete one"
    );
    assert!(
        !snapshot.coverage.unfinished_prefixes().is_empty(),
        "the projection needs directory prefixes for the unread range"
    );
    let first_covered = covered.first().unwrap().as_str().to_owned();
    assert!(snapshot.coverage.covers_path(&first_covered));
    assert!(
        !snapshot
            .coverage
            .covers_path(unfinished.first().unwrap().as_str())
    );
}

#[test]
fn android_java_and_xml_artifacts_are_scanned_rather_than_skipped() {
    let mut repo = Checkout::default();
    write(
        &mut repo,
        "app/src/main/java/com/example/live/AvatarImageWithLive.java",
        r#"package com.example.live;

public class AvatarImageWithLive extends FrameLayout {
    private static final String TAG = "AvatarImageWithLive";

    public AvatarImageWithLive(Context context) {
        super(context);
    }

    public void bindAvatar(User user) {
        setUser(user);
    }

    protected int measureAvatarSize(int spec) {
        return spec;
    }

    interface LiveStatusListener {
        void onLiveStatusChanged(boolean live);
    }
}
"#,
    );
    write(
        &mut repo,
        "app/src/main/res/layout/avatar_image_with_live.xml",
        r#"<?xml version="1.0" encoding="utf-8"?>
<merge xmlns:android="http://schemas.android.com/apk/res/android">
    <ImageView android:id="@+id/avatar" />
</merge>
"#,
    );
    write(
        &mut repo,
        "app/src/main/res/drawable/live_ring.xml",
        r#"<?xml version="1.0" encoding="utf-8"?>
<shape xmlns:android="http://schemas.android.com/apk/res/android" />
"#,
    );
    commit_all(&mut repo);
    let repository = identity("android");
    let scan_plan = plan(
        &repository,
        &[
            "app/src/main/java/com/example/live/AvatarImageWithLive.java",
            "app/src/main/res/drawable/live_ring.xml",
            "app/src/main/res/layout/avatar_image_with_live.xml",
        ],
    );
    let snapshot = available(
        scan(RepositoryScanner::default(), &repository, &repo, &scan_plan),
    );

    assert_eq!(snapshot.scanned_files, 3);
    assert!(
        snapshot.skipped_files.is_empty(),
        "no Android artifact may be skipped as an unsupported language: {:?}",
        snapshot.skipped_files
    );
    for relative in [
        "app/src/main/java/com/example/live/AvatarImageWithLive.java",
        "app/src/main/res/drawable/live_ring.xml",
        "app/src/main/res/layout/avatar_image_with_live.xml",
    ] {
        assert!(
            snapshot.artifacts.iter().any(|artifact| {
                artifact.artifact.artifact_key.kind() == ArtifactKind::File
                    && artifact.artifact.artifact_key.locator().path().as_str() == relative
            }),
            "{relative} must resolve as a File Artifact"
        );
    }
    let symbols = snapshot
        .artifacts
        .iter()
        .filter(|artifact| artifact.artifact.artifact_key.kind() == ArtifactKind::Symbol)
        .map(|artifact| artifact.artifact.display_name.clone())
        .collect::<BTreeSet<_>>();
    assert!(symbols.contains("AvatarImageWithLive"), "{symbols:?}");
    assert!(symbols.contains("bindAvatar"), "{symbols:?}");
    assert!(symbols.contains("measureAvatarSize"), "{symbols:?}");
    let schemas = snapshot
        .artifacts
        .iter()
        .filter(|artifact| artifact.artifact.artifact_key.kind() == ArtifactKind::Schema)
        .map(|artifact| artifact.artifact.display_name.clone())
        .collect::<BTreeSet<_>>();
    assert!(schemas.contains("LiveStatusListener"), "{schemas:?}");
    assert!(
        !snapshot.artifacts.iter().any(|artifact| {
            std::path::Path::new(artifact.artifact.artifact_key.locator().path().as_str())
                .extension()
                .is_some_and(|extension| extension.eq_ignore_ascii_case("xml"))
                && artifact.artifact.artifact_key.kind() == ArtifactKind::Symbol
        }),
        "XML carries no symbol a deterministic locator could name"
    );
}

/// A budget that expires before anything was read commits nothing.
#[test]
fn an_expired_budget_without_sources_commits_nothing() {
    let mut repo = Checkout::default();
    write(&mut repo, "src/lib.rs", "pub fn first() {}\n");
    commit_all(&mut repo);
    let repository = identity("expired");
    let scan_plan = plan(&repository, &["src/lib.rs"]);
    let scanner = RepositoryScanner::default();
    assert!(scan_within(scanner, &repository, &repo, &scan_plan, 0, 0).is_none());
    assert_eq!(
        scanner.require_outcome(None).unwrap_err().kind(),
        ErrorKind::InvariantViolation
    );
}

/// Sources that were read but not parsed are not covered.
#[test]
fn unparsed_sources_are_named_as_unfinished() {
    let mut repo = Checkout::default();
    write(&mut repo, "src/a.rs", "pub fn first() {}\n");
    write(&mut repo, "src/b.rs", "pub fn second() {}\n");
    commit_all(&mut repo);
    let repository = identity("unparsed");
    let scan_plan = plan(&repository, &["src/a.rs", "src/b.rs"]);
    let scanner = RepositoryScanner::default();
    let snapshot = available(
        scan_within(scanner, &repository, &repo, &scan_plan, usize::MAX, 1).unwrap(),
    );
    assert!(snapshot.coverage.covers_path("src/a.rs"));
    assert!(!snapshot.coverage.covers_path("src/b.rs"));
    assert!(snapshot.coverage.covers_directory("src"));
    assert!(!snapshot.coverage.covers_directory("tests"));
    assert_eq!(snapshot.coverage.unfinished_prefixes(), vec!["src".to_owned()]);
    assert_eq!(snapshot.scanned_files, 1);
}

/// Committing all sources at once is the same as parsing them one by one.
#[test]
fn committing_all_sources_equals_parsing_them_one_by_one() {
    let mut repo = Checkout::default();
    write(&mut repo, "src/a.rs", "pub fn first() {}\n");
    commit_all(&mut repo);
    let repository = identity("all");
    let scan_plan = plan(&repository, &["src/a.rs"]);
    let scanner = RepositoryScanner::default();
    let mut direct = scanner.start(&repository, &scan_plan).unwrap();
    let path = RepoRelativePath::new("src/a.rs").unwrap();
    assert!(direct.consider(&path, false));
    assert!(direct.inspect(&path, PathState::Present, true));
    assert!(direct.locate(&path, true, 18));
    direct.accept(&path, &b"pub fn first() {}\n".to_vec(), ArtifactSourceState::TrackedHead);
    let committed = direct
        .commit_all(&repository, &scan_plan, "0123456789abcdef0123456789abcdef01234567")
        .unwrap()
        .unwrap();
    assert_eq!(committed, scan(scanner, &repository, &repo, &scan_plan));
}

#[test]
fn what_is_skipped_and_parsed_comes_in_the_order_of_paths() {
    let repository = identity("ordered");
    let names = ["a.rs", "b.rs", "target/x.rs", "z.bin"];
    let scan_plan = plan(&repository, &names);
    let scanned = |order: &[usize]| {
        let mut scan = RepositoryScanner::default().start(&repository, &scan_plan).unwrap();
        for index in order {
            let path = RepoRelativePath::new(names[*index]).unwrap();
            if scan.consider(&path, false) {
                assert!(scan.inspect(&path, PathState::Present, true));
                assert!(scan.locate(&path, true, 14));
                scan.accept(&path, &b"pub fn a() {}\n".to_vec(), ArtifactSourceState::TrackedHead);
            }
        }
        let outcome = scan
            .commit_all(&repository, &scan_plan, "0123456789abcdef0123456789abcdef01234567")
            .unwrap()
            .unwrap();
        match outcome {
            RepositoryScanOutcome::Available(snapshot) => snapshot,
            other => panic!("{other:?}"),
        }
    };
    let forward = scanned(&[0, 1, 2, 3]);
    let backward = scanned(&[3, 2, 1, 0]);
    let paths = |snapshot: &RepositorySnapshot| {
        snapshot.skipped_files.iter().map(|file| file.path.clone()).collect::<Vec<_>>()
    };
    assert_eq!(paths(&forward), ["target/x.rs", "z.bin"]);
    assert_eq!(paths(&backward), ["target/x.rs", "z.bin"]);
    assert_eq!(forward.generation, backward.generation);
    assert_eq!(forward.artifacts, backward.artifacts);
}

#[test]
fn file_and_byte_limits_skip_what_comes_after() {
    let mut repo = Checkout::default();
    write(&mut repo, "a.rs", "pub fn a() {}\n");
    write(&mut repo, "b.rs", "pub fn b() {}\n");
    commit_all(&mut repo);
    let repository = identity("limits");
    let scan_plan = plan(&repository, &["a.rs", "b.rs"]);
    for (limits, reason) in [
        (
            RepositoryScannerLimits { max_files: 1, max_file_bytes: 100, max_total_bytes: 100 },
            SkippedFileReason::FileLimit,
        ),
        (
            RepositoryScannerLimits { max_files: 9, max_file_bytes: 100, max_total_bytes: 20 },
            SkippedFileReason::TotalByteLimit,
        ),
    ] {
        let snapshot =
            available(scan(RepositoryScanner::new(limits), &repository, &repo, &scan_plan));
        assert_eq!(snapshot.scanned_files, 1);
        assert_eq!(snapshot.scanned_bytes, 14);
        assert_eq!(snapshot.skipped_files.len(), 1);
        assert_eq!(snapshot.skipped_files[0].path, "b.rs");
        assert_eq!(snapshot.skipped_files[0].reason, reason);
    }
}

#[test]
fn a_plan_of_another_repository_is_refused() {
    let scan_plan = plan(&identity("other"), &["a.rs"]);
    let error = RepositoryScanner::default().start(&identity("own"), &scan_plan).unwrap_err();
    assert_eq!(error.kind(), ErrorKind::InvalidInput);
}

#[test]
fn text_is_valid_utf8_without_nul_bytes_in_its_head() {
    assert_eq!(source_text(&"caf\u{e9}".as_bytes().to_vec()), Some("caf\u{e9}".to_owned()));
    assert_eq!(source_text(&vec![0xff, 0xfe]), None);
    assert!(is_binary(&b"a\0b".to_vec()));
    assert!(is_binary(&vec![0xc3]));
    assert!(!is_binary(&b"plain".to_vec()));
}

#[test]
fn pathspec_batches_keep_every_path_in_order() {
    let paths = (0..5_000)
        .map(|index| RepoRelativePath::new(&format!("src/module/path_{index:05}.rs")).unwrap())
        .collect::<Vec<_>>();
    let batches = pathspec_batches(&paths);
    assert!(batches.len() > 1);
    let all = batches.into_iter().flatten().collect::<Vec<_>>();
    assert_eq!(all.len(), paths.len());
    assert!(all.iter().zip(&paths).all(|(text, path)| text == path.as_str()));
}

#[test]
fn tracked_facts_are_what_git_printed_of_the_requested_paths() {
    let mut requested = SortedSet::new();
    requested.insert("a.rs".to_owned());
    requested.insert("b.rs".to_owned());
    let mut facts = TrackedPathFacts::new();
    facts.add_known("a.rs\0c.rs\0", &requested);
    facts.add_modified("a.rs\0", &requested);
    assert!(facts.is_tracked(&"a.rs".to_owned()));
    assert!(!facts.is_tracked(&"b.rs".to_owned()));
    assert!(!facts.is_tracked(&"c.rs".to_owned()));
    assert_eq!(
        facts.source_state(&"a.rs".to_owned()),
        ArtifactSourceState::TrackedWorkingModification
    );
    assert_eq!(facts.source_state(&"b.rs".to_owned()), ArtifactSourceState::TrackedHead);
}

#[test]
fn captured_streams_stop_at_their_limit() {
    let mut stream = CapturedStream::new();
    stream.take_chunk(b"abc", 5);
    assert!(!stream.capped);
    stream.take_chunk(b"def", 5);
    assert_eq!(stream.bytes, b"abcde".to_vec());
    assert!(stream.capped);
    assert_eq!(stream.whole().unwrap_err().kind(), ErrorKind::InvalidInput);
    let mut short = CapturedStream::new();
    short.take_chunk(b"abc", 3);
    assert_eq!(short.whole().unwrap(), b"abc".to_vec());
}

#[test]
fn failed_git_calls_carry_their_complaint() {
    assert!(check_git_status(Some(0), "ignored").is_ok());
    for code in [Some(128), None] {
        let error = check_git_status(code, " fatal: not a repository\n").unwrap_err();
        assert_eq!(
            error.message(),
            "local Git snapshot command failed: fatal: not a repository"
        );
    }
}

#[test]
fn a_git_call_gets_what_is_left_within_bounds() {
    assert_eq!(git_call_timeout(None), 30_000);
    assert_eq!(git_call_timeout(Some(100)), 250);
    assert_eq!(git_call_timeout(Some(1_500)), 1_500);
    assert_eq!(git_call_timeout(Some(90_000)), 30_000);
}

#[test]
fn languages_ignored_and_generated_paths_go_by_spelling() {
    assert_eq!(language_for_path("a/B.java"), Some(SourceLanguage::Java));
    assert_eq!(language_for_path("a/b.yml"), Some(SourceLanguage::Yaml));
    assert_eq!(language_for_path("a/b.txt"), None);
    assert!(is_ignored_path("a/node_modules/b.ts"));
    assert!(!is_ignored_path("a/modules/b.ts"));
    assert!(is_generated_path("src/client.generated.ts"));
    assert!(!is_generated_path("src/client.ts"));
}

#[test]
fn openapi_documents_name_their_routes_and_schemas() {
    let found = extract(
        SourceLanguage::Json,
        "schema/openapi.json",
        r#"{"openapi":"3.0.0","paths":{"/api/search":{"get":{}}},"components":{"schemas":{"SearchResponse":{}}}}"#,
    );
    assert!(found.iter().any(|discovery| discovery.kind == ArtifactKind::Api
        && discovery.name == "/api/search"));
    assert!(found.iter().any(|discovery| discovery.kind == ArtifactKind::Schema
        && discovery.name == "SearchResponse"));
    assert!(extract(SourceLanguage::Json, "a.json", "{not json").is_empty());
}

fn found(language: SourceLanguage, path: &str, text: &str) -> Vec<(ArtifactKind, String, u32)> {
    extract(language, path, text)
        .into_iter()
        .map(|discovery| (discovery.kind, discovery.name, discovery.line))
        .collect()
}

fn named(kind: ArtifactKind, name: &str, line: u32) -> (ArtifactKind, String, u32) {
    (kind, name.to_owned(), line)
}

#[test]
fn yaml_documents_name_operations_below_paths_and_schemas_below_components() {
    let text = "openapi: 3.0.0\npaths:\n  /v2/search:\n    get:\n      summary: x\n    POST:\n  /v2/feed:\n    trace:\ncomponents:\n  schemas:\n    SearchResponse:\n      type: object\n";
    assert_eq!(
        found(SourceLanguage::Yaml, "api/search.yaml", text),
        vec![
            named(ArtifactKind::Schema, "search", 1),
            named(ArtifactKind::Api, "/v2/search", 4),
            named(ArtifactKind::Api, "/v2/search", 6),
            named(ArtifactKind::Schema, "SearchResponse", 11),
        ]
    );
    let sources = extract(SourceLanguage::Yaml, "api/search.yaml", text)
        .into_iter()
        .map(|discovery| discovery.source)
        .collect::<Vec<_>>();
    assert_eq!(sources, ["search", "get(/v2/search)", "POST(/v2/search)", "SearchResponse"]);
}

#[test]
fn proto_files_name_messages_enums_services_and_calls() {
    let text = "message SearchResponse { string value = 1; }\nservice SearchService {\n  rpc Find (A) returns (B);\nenum Kind {}\nmessages Foo\n";
    assert_eq!(
        found(SourceLanguage::Proto, "search.proto", text),
        vec![
            named(ArtifactKind::Schema, "SearchResponse", 1),
            named(ArtifactKind::Api, "SearchService", 2),
            named(ArtifactKind::Api, "Find", 3),
            named(ArtifactKind::Schema, "Kind", 4),
        ]
    );
}

#[test]
fn json_documents_take_their_name_from_the_first_that_names_them() {
    let name = |text: &str| found(SourceLanguage::Json, "schema/a.v1.json", text)[0].1.clone();
    assert_eq!(name(r#"{"$id":"search","title":"other"}"#), "search");
    assert_eq!(name(r#"{"title":"other"}"#), "other");
    assert_eq!(name(r#"{"$id":7,"title":"other"}"#), "a.v1");
    assert_eq!(name("[1,2]"), "a.v1");
    let text = r#"{"openapi":null,"paths":{"/b":{"POST":{},"x":{}},"/a":{"get":{},"delete":{}}},"components":{"schemas":{"Z":1,"Y":{}}}}"#;
    assert_eq!(
        found(SourceLanguage::Json, "a.json", text),
        vec![
            named(ArtifactKind::Schema, "a", 1),
            named(ArtifactKind::Api, "/a", 1),
            named(ArtifactKind::Api, "/a", 1),
            named(ArtifactKind::Api, "/b", 1),
            named(ArtifactKind::Schema, "Y", 1),
            named(ArtifactKind::Schema, "Z", 1),
        ]
    );
}

#[test]
fn java_lines_declare_types_and_methods() {
    let text = "@Test\npublic void checksLogin() {\n}\nfinal class Foo {\n@interface Marker {\nvoid ping();\nelse if (x) {\nif (x) {\nx = foo.bar(y);\nfoo.bar(x);\nabstract static enum Mode {\nint measure(int a)\n";
    assert_eq!(
        found(SourceLanguage::Java, "A.java", text),
        vec![
            named(ArtifactKind::Test, "checksLogin", 2),
            named(ArtifactKind::Symbol, "Foo", 4),
            named(ArtifactKind::Schema, "Marker", 5),
            named(ArtifactKind::Symbol, "ping", 6),
            named(ArtifactKind::Schema, "Mode", 11),
        ]
    );
}

#[test]
fn java_lines_that_call_or_assign_declare_nothing() {
    for line in [
        "return compute(value);",
        "throw new Foo(x);",
        "int x = compute(v);",
        "else foo(x);",
        "} else foo(x) {",
        "case A: foo(x);",
        "default: foo(x);",
        "new Foo(x);",
        "a + compute(x);",
        "total += compute(x);",
        "&& ready(x);",
        "count < size(x);",
        "* Says what it does (or not);",
        "// calls foo(x);",
        "assert isReady(x);",
        "super(x);",
        "b, compute(x);",
        "a & mask(x);",
        "a << shift(x);",
        "/* calls foo(x);",
        "* @Inject Foo(Bar bar) {",
        "@Inject Foo(Bar bar) {",
        "@Inject public Foo(Bar bar) {",
    ] {
        assert_eq!(java_method_name(line), None, "{line}");
    }
    for (line, name) in [
        ("void ping();", "ping"),
        ("@Override public int measure(int a) {", "measure"),
        ("List<? extends Foo> listed() {", "listed"),
        ("<T extends A & B> Map<String, T[]> grouped(T value) {", "grouped"),
        ("default java.util.List<String> names() {", "names"),
        ("synchronized void guarded() {", "guarded"),
        ("$Type _made();", "_made"),
        ("/* package */ void opened() {", "opened"),
        ("static /*package*/ int counted();", "counted"),
        ("} public void closed() {", "closed"),
        ("Map < String , List<Foo >> spaced() {", "spaced"),
        ("int[] indexed(int at);", "indexed"),
    ] {
        assert_eq!(java_method_name(line).as_deref(), Some(name), "{line}");
    }
}

#[test]
fn kotlin_swift_rust_and_typescript_lines_declare_by_keyword() {
    assert_eq!(
        found(
            SourceLanguage::Kotlin,
            "a.kt",
            "data class X(val a: Int)\nenum class Y {\n@Test\nsuspend fun z() {\nfun w() {\n"
        ),
        vec![
            named(ArtifactKind::Symbol, "X", 1),
            named(ArtifactKind::Schema, "Y", 2),
            named(ArtifactKind::Test, "z", 4),
            named(ArtifactKind::Symbol, "w", 5),
        ]
    );
    assert_eq!(
        found(
            SourceLanguage::Swift,
            "a.swift",
            "public func testA() {\nprotocol P {\nopen class testing {\n"
        ),
        vec![
            named(ArtifactKind::Test, "testA", 1),
            named(ArtifactKind::Schema, "P", 2),
            named(ArtifactKind::Test, "testing", 3),
        ]
    );
    assert_eq!(
        found(
            SourceLanguage::Rust,
            "a.rs",
            "pub(crate) async fn a() {}\n#[test]\nfn b() {}\nmod tests {\npub unsafe trait T {}\n"
        ),
        vec![
            named(ArtifactKind::Symbol, "a", 1),
            named(ArtifactKind::Test, "b", 3),
            named(ArtifactKind::Module, "tests", 4),
            named(ArtifactKind::Symbol, "T", 5),
        ]
    );
    assert_eq!(
        found(
            SourceLanguage::TypeScriptJavaScript,
            "a.ts",
            "export default class A {}\nit('reads `it`', () => fetch(\"/api/x//\"))\nconst b = 'https://x.y/z';\n"
        ),
        vec![
            named(ArtifactKind::Symbol, "A", 1),
            named(ArtifactKind::Api, "/api/x", 2),
            named(ArtifactKind::Test, "reads `it`", 2),
            named(ArtifactKind::Symbol, "b", 3),
        ]
    );
}

#[test]
fn declarations_read_until_their_braces_close() {
    let found = extract(SourceLanguage::Rust, "a.rs", "fn a() {\n  b();\n}\nfn c();\n");
    assert_eq!(found[0].source, "fn a() {\n  b();\n}\n");
    assert_eq!(found[1].source, "fn c();\n");
    assert_eq!(normalize_signature("fn  a( x )  -> u8 { 1 }"), "fn a( x ) -> u8");
    assert_eq!(normalize_signature("let a = b"), "let a");
    assert_eq!(api_protocol("rpc Find (A)"), "grpc");
    assert_eq!(api_protocol("get(x)"), "http");
    assert_eq!(api_operation("client.DELETE(x)"), "DELETE");
    assert_eq!(api_operation("rpc Find"), "RPC");
    assert_eq!(api_operation("url"), "ANY");
    assert_eq!(schema_version("message A v12 {"), "v12");
    assert_eq!(schema_version("message A vx1 {"), "unversioned");
    assert_eq!(schema_version("let v = 1"), "v");
}

#[test]
fn alphabets_beyond_ascii_make_identifiers() {
    let found = extract(SourceLanguage::Rust, "src/a.rs", "pub fn \u{e9}t\u{e9}() {}\n");
    assert!(found.iter().any(|discovery| discovery.name == "\u{e9}t\u{e9}"), "{found:?}");
}
