//! The Repository Registry, the stored projection and relocation diagnoses.

use shared_context::registry::{
    catalog_fingerprint, check_locator_link, check_scan_link, check_scan_root,
    check_worktree_root, inspect_state, inspect_top_level, is_inside, normalize_catalog,
    parse_repository_id, project_catalog, projected_count, registered_from_row, require_canonical, require_listed,
    stored_count,
};
use shared_context::relocation::{relocation_candidate, relocation_of, removing_commit};
use shared_context::storage::{is_write_ahead, projection_schema, registry_schema};
use shared_context::{
    relocatable_path, ArtifactLocator, CatalogRepositorySpec, CheckoutPath, CheckoutState,
    EngineeringProjectionStore, ErrorKind, InspectedRepository, ObservedCheckout,
    ObservedRepository, RegisteredRepository, RelocationCandidate, RepoRelativePath,
    RepositoryAvailability, RepositoryCatalogSyncReport, RepositoryId, RepositoryRegistry, Result,
    RetryState, SchemaStep,
};

fn spec(repository_id: RepositoryId, paths: &[&str]) -> CatalogRepositorySpec {
    CatalogRepositorySpec {
        repository_id,
        checkout_paths: paths.iter().map(|path| CheckoutPath::new(path)).collect(),
    }
}

/// Projects a Catalog whose checkouts are in the given states, and lists it.
fn synchronized(
    specs: &Vec<CatalogRepositorySpec>,
    state: CheckoutState,
) -> Result<(RepositoryCatalogSyncReport, Vec<RegisteredRepository>)> {
    let catalog = normalize_catalog(specs)?;
    let mut inspected = Vec::new();
    for repository in &catalog {
        let mut locators = Vec::new();
        for path in &repository.checkout_paths {
            let locator = match inspect_state(path, state)? {
                Some(locator) => locator,
                None => {
                    require_canonical(path, path)?;
                    inspect_top_level(path, Some(path))?
                }
            };
            locators.push(locator);
        }
        inspected.push(InspectedRepository {
            repository_id: repository.repository_id.clone(),
            locators,
        });
    }
    project_catalog(&inspected).map(|(registered, report)| (report, registered))
}

/// The identity that a checkout path belongs to.
fn owner_of(registered: &[RegisteredRepository], checkout: &str) -> Option<RepositoryId> {
    let path = CheckoutPath::new(checkout);
    registered
        .iter()
        .find(|repository| repository.locators.iter().any(|locator| locator.checkout_path == path))
        .map(|repository| repository.identity.repository_id.clone())
}

#[test]
fn explicit_catalog_identity_owns_zero_or_many_checkouts_without_git_inference() {
    let first_id = RepositoryId::new();
    let second_id = RepositoryId::new();
    let empty_id = RepositoryId::new();
    let (report, registered) = synchronized(
        &vec![
            spec(first_id.clone(), &["/work/primary"]),
            spec(second_id.clone(), &["/work/worktree"]),
            spec(empty_id.clone(), &[]),
        ],
        CheckoutState::WorktreeRoot,
    )
    .unwrap();
    assert_eq!(report.repository_count, 3);
    assert_eq!(report.locator_count, 2);
    assert_ne!(first_id, second_id, "Git common-dir must not merge Catalog IDs");
    assert_eq!(owner_of(&registered, "/work/primary").unwrap(), first_id);
    assert_eq!(owner_of(&registered, "/work/worktree").unwrap(), second_id);
    let empty = registered
        .iter()
        .find(|repository| repository.identity.repository_id == empty_id)
        .unwrap();
    assert_eq!(empty.availability, RepositoryAvailability::Unavailable);
    assert!(empty.locators.is_empty());
}

#[test]
fn deleting_registry_and_syncing_catalog_restores_exact_ids_and_locators() {
    let specs = vec![
        spec(RepositoryId::new(), &["/work/first/repo"]),
        spec(RepositoryId::new(), &["/work/second/repo"]),
    ];
    let expected = synchronized(&specs, CheckoutState::WorktreeRoot).unwrap();
    let rebuilt = synchronized(&specs, CheckoutState::WorktreeRoot).unwrap();
    assert_eq!(rebuilt, expected);
    let reversed = specs.into_iter().rev().collect::<Vec<_>>();
    assert_eq!(synchronized(&reversed, CheckoutState::WorktreeRoot).unwrap(), expected);
}

#[test]
fn missing_paths_restore_as_unavailable_and_invalid_catalog_is_atomic() {
    let repository_id = RepositoryId::new();
    assert!(synchronized(
        &vec![
            spec(repository_id.clone(), &["/work/repo"]),
            spec(RepositoryId::new(), &["/work/repo"]),
        ],
        CheckoutState::WorktreeRoot,
    )
    .is_err());

    let (report, registered) =
        synchronized(&vec![spec(repository_id, &["/work/repo"])], CheckoutState::Missing).unwrap();
    assert_eq!(report.unavailable_locator_count, 1);
    assert_eq!(registered[0].availability, RepositoryAvailability::Unavailable);
    assert_eq!(registered[0].locators[0].checkout_path, CheckoutPath::new("/work/repo"));
}

#[test]
fn symlink_subdirectory_relative_and_non_git_catalog_paths_are_rejected() {
    let specs = |path: &str| vec![spec(RepositoryId::new(), &[path])];
    assert!(synchronized(&specs("relative/repo"), CheckoutState::WorktreeRoot).is_err());
    assert!(synchronized(&specs("/work/link"), CheckoutState::Symlink).is_err());
    assert!(synchronized(&specs("/work/file"), CheckoutState::NotADirectory).is_err());
    let root = CheckoutPath::new("/work/repo");
    let nested = CheckoutPath::new("/work/repo/nested");
    assert!(inspect_top_level(&nested, Some(&root)).is_err());
    assert!(inspect_top_level(&nested, None).is_err());
    assert!(require_canonical(&nested, &root).is_err());
}

#[test]
fn catalogs_are_bounded_and_unique() {
    let many = (0..257).map(|_| spec(RepositoryId::new(), &[])).collect::<Vec<_>>();
    assert!(normalize_catalog(&many).is_err());
    let paths = (0..33).map(|index| format!("/work/{index}")).collect::<Vec<_>>();
    let texts = paths.iter().map(String::as_str).collect::<Vec<_>>();
    assert!(normalize_catalog(&vec![spec(RepositoryId::new(), &texts)]).is_err());
    assert!(normalize_catalog(&vec![spec(RepositoryId::new(), &texts[..32])]).is_ok());
    let id = RepositoryId::new();
    assert!(normalize_catalog(&vec![spec(id.clone(), &[]), spec(id, &[])]).is_err());
    assert!(normalize_catalog(&vec![spec(RepositoryId::new(), &["/a", "/a"])]).is_err());
}

#[test]
fn fingerprints_are_labelled_digests_of_framed_components() {
    let observed = |state: CheckoutState| {
        vec![ObservedRepository {
            repository_id: RepositoryId::parse("Android").unwrap(),
            checkouts: vec![ObservedCheckout { path: CheckoutPath::new("/work/a"), state }],
        }]
    };
    assert_eq!(
        catalog_fingerprint(&observed(CheckoutState::Missing)),
        "cat_77b210e739076e0afd97ad8bad83ea478c741b627c376400b53bea9dd6314530"
    );
    assert_ne!(
        catalog_fingerprint(&observed(CheckoutState::Missing)),
        catalog_fingerprint(&observed(CheckoutState::Directory))
    );
}

#[test]
fn registries_live_below_their_root() {
    let registry = RepositoryRegistry::for_home("/home/someone");
    assert_eq!(registry.root(), "/home/someone/.shared-context");
    assert_eq!(registry.state(), "/home/someone/.shared-context/state");
    assert_eq!(
        registry.database_path(),
        "/home/someone/.shared-context/state/repository-registry.sqlite"
    );
    let store = EngineeringProjectionStore::at("/srv/context");
    assert_eq!(store.root(), "/srv/context");
    assert_eq!(store.state(), "/srv/context/state");
    assert_eq!(store.database_path(), "/srv/context/state/engineering.sqlite");
}

#[test]
fn stored_counts_and_rows_read_back() {
    assert_eq!(stored_count(7, "too many").unwrap(), 7);
    assert_eq!(projected_count(7), 7);
    assert_eq!(projected_count(-1), 0);
    let id = RepositoryId::parse("Android").unwrap();
    let row = registered_from_row(&id, "Android".to_owned(), true, Vec::new()).unwrap();
    assert_eq!(row.availability, RepositoryAvailability::Available);
    assert_eq!(require_listed(Some(row.clone())).unwrap(), row);
    assert_eq!(require_listed(None).unwrap_err().kind(), ErrorKind::InvariantViolation);
    assert!(registered_from_row(&id, " ".to_owned(), true, Vec::new()).is_err());
    assert_eq!(parse_repository_id("1").unwrap_err().kind(), ErrorKind::InvariantViolation);
    assert_eq!(parse_repository_id("Android").unwrap(), id);
}

#[test]
fn schemas_are_created_upgraded_or_refused() {
    assert_eq!(registry_schema(0).unwrap(), SchemaStep::Create);
    assert_eq!(registry_schema(3).unwrap(), SchemaStep::Create);
    assert_eq!(registry_schema(4).unwrap(), SchemaStep::Current);
    assert!(registry_schema(5).is_err());
    assert!(projection_schema(99).is_err());
    assert_eq!(projection_schema(0).unwrap(), SchemaStep::Create);
}

#[test]
fn links_are_no_checkouts() {
    assert!(check_scan_link(false).is_ok());
    assert!(check_locator_link(false).is_ok());
    assert_eq!(
        check_scan_link(true).unwrap_err().message(),
        "Repository checkout path must not be a symlink"
    );
    assert_eq!(
        check_locator_link(true).unwrap_err().message(),
        "Repository checkout locator must not be a symlink"
    );
    assert!(check_scan_root("/work/repo").is_ok());
    assert!(check_scan_root("/work/../repo").is_err());
    assert!(check_worktree_root(&CheckoutPath::new("/a/b"), &CheckoutPath::new("/a//b/.")).is_ok());
    assert!(check_worktree_root(&CheckoutPath::new("/a/b"), &CheckoutPath::new("/a")).is_err());
    assert!(is_inside(&CheckoutPath::new("/a/b/c"), &CheckoutPath::new("/a/b")));
    assert!(!is_inside(&CheckoutPath::new("/a/bc"), &CheckoutPath::new("/a/b")));
    assert!(is_write_ahead("WAL"));
    assert!(!is_write_ahead("delete"));
}

#[test]
fn retries_back_off_and_stop() {
    let mut state = RetryState::start();
    let mut waited = Vec::new();
    while let Some((next, pause)) = state.after_failure(true, 3_000) {
        waited.push(pause);
        state = next;
    }
    assert_eq!(waited.len(), 19);
    assert_eq!(waited[..5], [25, 50, 100, 200, 250]);
    assert!(waited.iter().all(|pause| *pause <= 250));
    assert!(RetryState::start().after_failure(false, 3_000).is_none());
    assert!(RetryState::start().after_failure(true, 0).is_none());
}

#[test]
fn a_unique_rename_is_a_relocation_candidate() {
    let path = RepoRelativePath::new("old/a.rs").unwrap();
    let commit = "0123456789abcdef";
    assert_eq!(removing_commit("0123456789abcdef\n"), Some(commit.to_owned()));
    assert_eq!(removing_commit("\n"), None);
    assert_eq!(removing_commit("not a commit\n"), None);
    assert_eq!(
        relocation_candidate(&path, commit, "R100\told/a.rs\tnew/a.rs\nR100\tx\ty\n"),
        Some(RelocationCandidate {
            from: "old/a.rs".to_owned(),
            to: "new/a.rs".to_owned(),
            commit: commit.to_owned(),
        })
    );
    assert_eq!(
        relocation_candidate(&path, commit, "R100\told/a.rs\tnew/a.rs\nR90\told/a.rs\tnew/b.rs\n"),
        None
    );
    assert_eq!(relocation_candidate(&path, commit, "D\told/a.rs\n"), None);
}

#[test]
fn a_path_that_still_exists_has_no_relocation() {
    let path = RepoRelativePath::new("old/a.rs").unwrap();
    let renames = "R100\told/a.rs\tnew/a.rs\n";
    assert_eq!(relocation_of(&path, true, "0123456789abcdef", renames), None);
    assert_eq!(
        relocation_of(&path, false, "0123456789abcdef", renames).unwrap().to,
        "new/a.rs"
    );
}

#[test]
fn only_located_kinds_are_relocatable() {
    let path = RepoRelativePath::new("src/a.rs").unwrap();
    let file = ArtifactLocator::File { path: path.clone() };
    assert_eq!(relocatable_path(&file), Some(&path));
}
