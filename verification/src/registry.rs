//! The explicit Repository Catalog, and the disposable Registry projected from it.

use vstd::prelude::*;

use crate::checks::{first_from, is_among};
use crate::digest::{fits_frame, frame_all, framed_all, framing_is_injective, sha256_hex, sha256_text};
use crate::engineering::{RepositoryIdentity, RepositoryIdentityView};
use crate::error::{
    fails_as, first, given, invalid, invalid_input, invariant_violation, violated, ErrorView, Result,
};
use crate::ids::{
    id_error_text, is_repository_spelling, repository_spelling_problem, IdParseErrorView, RepositoryId,
};
use crate::lexical::concatenated;
use crate::order::{Placed, one_per_place, sort_stably, sorting_ignores_order, stably_sorted};
use crate::text::{
    begins_with, finishes_with, has_prefix, has_suffix, joined2, joined3, joined4, same_text, split_on,
    split_text,
};
use crate::value::{filter_push, push_value, take_next, Value};

verus! {

/// The largest number of identities in a Catalog.
pub const MAX_CATALOG_REPOSITORIES: usize = 256;

/// The largest number of checkouts of one Repository.
pub const MAX_CHECKOUTS_PER_REPOSITORY: usize = 32;

/// Version tag of the Catalog fingerprint recipe. Bumping it invalidates every persisted
/// fingerprint, which only forces one extra full synchronization.
pub const CATALOG_FINGERPRINT_VERSION: &'static str = "catalog-fingerprint-v1";

/// Current local accessibility of one configured checkout or Repository.
#[derive(Clone, Copy, Debug, PartialEq, Eq, Structural)]
pub enum RepositoryAvailability {
    Available,
    Unavailable,
}

impl DeepView for RepositoryAvailability {
    type V = RepositoryAvailability;

    open spec fn deep_view(&self) -> RepositoryAvailability {
        *self
    }
}

impl Value for RepositoryAvailability {
    fn copied(&self) -> (copy: Self) {
        *self
    }

    fn same(&self, other: &Self) -> (equal: bool) {
        *self == *other
    }
}

/// The path of a checkout, compared by its components.
#[derive(Clone, Debug, PartialEq, Eq)]
pub struct CheckoutPath {
    pub text: String,
}

/// The model of [`CheckoutPath`].
pub struct CheckoutPathView {
    pub text: Seq<char>,
}

impl DeepView for CheckoutPath {
    type V = CheckoutPathView;

    open spec fn deep_view(&self) -> CheckoutPathView {
        CheckoutPathView {
            text: self.text.deep_view(),
        }
    }
}

impl Value for CheckoutPath {
    fn copied(&self) -> (copy: Self) {
        CheckoutPath {
            text: self.text.copied(),
        }
    }

    fn same(&self, other: &Self) -> (equal: bool) {
        self.text.same(&other.text)
    }
}

/// Trusted Catalog input for rebuilding the disposable Registry projection.
#[derive(Clone, Debug, PartialEq, Eq)]
pub struct CatalogRepositorySpec {
    pub repository_id: RepositoryId,
    pub checkout_paths: Vec<CheckoutPath>,
}

/// The model of [`CatalogRepositorySpec`].
pub struct CatalogRepositorySpecView {
    pub repository_id: Seq<char>,
    pub checkout_paths: Seq<CheckoutPathView>,
}

impl DeepView for CatalogRepositorySpec {
    type V = CatalogRepositorySpecView;

    open spec fn deep_view(&self) -> CatalogRepositorySpecView {
        CatalogRepositorySpecView {
            repository_id: self.repository_id.deep_view(),
            checkout_paths: self.checkout_paths.deep_view(),
        }
    }
}

impl Value for CatalogRepositorySpec {
    fn copied(&self) -> (copy: Self) {
        CatalogRepositorySpec {
            repository_id: self.repository_id.copied(),
            checkout_paths: self.checkout_paths.copied(),
        }
    }

    fn same(&self, other: &Self) -> (equal: bool) {
        self.repository_id.same(&other.repository_id)
            && self.checkout_paths.same(&other.checkout_paths)
    }
}

/// One private locator projected from the explicit Catalog.
#[derive(Clone, Debug, PartialEq, Eq)]
pub struct LocalRepositoryLocator {
    pub checkout_path: CheckoutPath,
    pub availability: RepositoryAvailability,
}

/// The model of [`LocalRepositoryLocator`].
pub struct LocalRepositoryLocatorView {
    pub checkout_path: CheckoutPathView,
    pub availability: RepositoryAvailability,
}

impl DeepView for LocalRepositoryLocator {
    type V = LocalRepositoryLocatorView;

    open spec fn deep_view(&self) -> LocalRepositoryLocatorView {
        LocalRepositoryLocatorView {
            checkout_path: self.checkout_path.deep_view(),
            availability: self.availability.deep_view(),
        }
    }
}

impl Value for LocalRepositoryLocator {
    fn copied(&self) -> (copy: Self) {
        LocalRepositoryLocator {
            checkout_path: self.checkout_path.copied(),
            availability: self.availability.copied(),
        }
    }

    fn same(&self, other: &Self) -> (equal: bool) {
        self.checkout_path.same(&other.checkout_path)
            && self.availability.same(&other.availability)
    }
}

/// Complete Registry projection for one stable Catalog identity.
#[derive(Clone, Debug, PartialEq, Eq)]
pub struct RegisteredRepository {
    pub identity: RepositoryIdentity,
    pub availability: RepositoryAvailability,
    pub locators: Vec<LocalRepositoryLocator>,
}

/// The model of [`RegisteredRepository`].
pub struct RegisteredRepositoryView {
    pub identity: RepositoryIdentityView,
    pub availability: RepositoryAvailability,
    pub locators: Seq<LocalRepositoryLocatorView>,
}

impl DeepView for RegisteredRepository {
    type V = RegisteredRepositoryView;

    open spec fn deep_view(&self) -> RegisteredRepositoryView {
        RegisteredRepositoryView {
            identity: self.identity.deep_view(),
            availability: self.availability.deep_view(),
            locators: self.locators.deep_view(),
        }
    }
}

impl Value for RegisteredRepository {
    fn copied(&self) -> (copy: Self) {
        RegisteredRepository {
            identity: self.identity.copied(),
            availability: self.availability.copied(),
            locators: self.locators.copied(),
        }
    }

    fn same(&self, other: &Self) -> (equal: bool) {
        self.identity.same(&other.identity)
            && self.availability.same(&other.availability)
            && self.locators.same(&other.locators)
    }
}

/// Summary of one atomic Catalog-to-Registry synchronization.
#[derive(Clone, Copy, Debug, PartialEq, Eq, Structural)]
pub struct RepositoryCatalogSyncReport {
    pub repository_count: usize,
    pub locator_count: usize,
    pub unavailable_locator_count: usize,
}

impl DeepView for RepositoryCatalogSyncReport {
    type V = RepositoryCatalogSyncReport;

    open spec fn deep_view(&self) -> RepositoryCatalogSyncReport {
        *self
    }
}

impl Value for RepositoryCatalogSyncReport {
    fn copied(&self) -> (copy: Self) {
        *self
    }

    fn same(&self, other: &Self) -> (equal: bool) {
        *self == *other
    }
}

/// What the file system says of a configured checkout.
#[derive(Clone, Copy, Debug, PartialEq, Eq, Structural)]
pub enum CheckoutState {
    Missing,
    Symlink,
    NotADirectory,
    Directory,
    WorktreeRoot,
}

impl DeepView for CheckoutState {
    type V = CheckoutState;

    open spec fn deep_view(&self) -> CheckoutState {
        *self
    }
}

impl Value for CheckoutState {
    fn copied(&self) -> (copy: Self) {
        *self
    }

    fn same(&self, other: &Self) -> (equal: bool) {
        *self == *other
    }
}

/// One configured checkout and its state.
#[derive(Clone, Debug, PartialEq, Eq)]
pub struct ObservedCheckout {
    pub path: CheckoutPath,
    pub state: CheckoutState,
}

/// The model of [`ObservedCheckout`].
pub struct ObservedCheckoutView {
    pub path: CheckoutPathView,
    pub state: CheckoutState,
}

impl DeepView for ObservedCheckout {
    type V = ObservedCheckoutView;

    open spec fn deep_view(&self) -> ObservedCheckoutView {
        ObservedCheckoutView {
            path: self.path.deep_view(),
            state: self.state.deep_view(),
        }
    }
}

impl Value for ObservedCheckout {
    fn copied(&self) -> (copy: Self) {
        ObservedCheckout {
            path: self.path.copied(),
            state: self.state.copied(),
        }
    }

    fn same(&self, other: &Self) -> (equal: bool) {
        self.path.same(&other.path)
            && self.state.same(&other.state)
    }
}

/// One configured Repository and the states of its checkouts.
#[derive(Clone, Debug, PartialEq, Eq)]
pub struct ObservedRepository {
    pub repository_id: RepositoryId,
    pub checkouts: Vec<ObservedCheckout>,
}

/// The model of [`ObservedRepository`].
pub struct ObservedRepositoryView {
    pub repository_id: Seq<char>,
    pub checkouts: Seq<ObservedCheckoutView>,
}

impl DeepView for ObservedRepository {
    type V = ObservedRepositoryView;

    open spec fn deep_view(&self) -> ObservedRepositoryView {
        ObservedRepositoryView {
            repository_id: self.repository_id.deep_view(),
            checkouts: self.checkouts.deep_view(),
        }
    }
}

impl Value for ObservedRepository {
    fn copied(&self) -> (copy: Self) {
        ObservedRepository {
            repository_id: self.repository_id.copied(),
            checkouts: self.checkouts.copied(),
        }
    }

    fn same(&self, other: &Self) -> (equal: bool) {
        self.repository_id.same(&other.repository_id)
            && self.checkouts.same(&other.checkouts)
    }
}

/// One configured Repository and its inspected locators.
#[derive(Clone, Debug, PartialEq, Eq)]
pub struct InspectedRepository {
    pub repository_id: RepositoryId,
    pub locators: Vec<LocalRepositoryLocator>,
}

/// The model of [`InspectedRepository`].
pub struct InspectedRepositoryView {
    pub repository_id: Seq<char>,
    pub locators: Seq<LocalRepositoryLocatorView>,
}

impl DeepView for InspectedRepository {
    type V = InspectedRepositoryView;

    open spec fn deep_view(&self) -> InspectedRepositoryView {
        InspectedRepositoryView {
            repository_id: self.repository_id.deep_view(),
            locators: self.locators.deep_view(),
        }
    }
}

impl Value for InspectedRepository {
    fn copied(&self) -> (copy: Self) {
        InspectedRepository {
            repository_id: self.repository_id.copied(),
            locators: self.locators.copied(),
        }
    }

    fn same(&self, other: &Self) -> (equal: bool) {
        self.repository_id.same(&other.repository_id)
            && self.locators.same(&other.locators)
    }
}

/// A path below a directory.
pub open spec fn path_below(directory: Seq<char>, name: Seq<char>) -> Seq<char> {
    if directory.len() == 0 || finishes_with(directory, "/"@) {
        directory + name
    } else {
        directory + "/"@ + name
    }
}

/// Joins the name of an entry to a directory.
pub fn join_path(directory: &str, name: &str) -> (path: String)
    ensures
        path@ == path_below(directory@, name@),
{
    if directory.is_empty() || has_suffix(directory, "/") {
        joined2(directory, name)
    } else {
        joined3(directory, "/", name)
    }
}

/// Whether a component of a path says where to go.
pub open spec fn is_named_component(component: Seq<char>) -> bool {
    component.len() > 0 && component != "."@
}

/// The components of a path: what stands between slashes, without empty and dot components.
pub open spec fn path_components(path: Seq<char>) -> Seq<Seq<char>> {
    split_on(path, '/').filter(|component: Seq<char>| is_named_component(component))
}

/// Splits a path into its components.
pub fn components_of(path: &str) -> (components: Vec<String>)
    ensures
        components.deep_view() == path_components(path@),
{
    let pieces = split_text(path, '/');
    let ghost model = split_on(path@, '/');
    let ghost keep = |component: Seq<char>| is_named_component(component);
    let mut components: Vec<String> = Vec::new();
    let mut index: usize = 0;
    proof {
        reveal(Seq::filter);
        assert(model.take(0).filter(keep) =~= Seq::empty());
        assert(components.deep_view() =~= Seq::empty());
    }
    while index < pieces.len()
        invariant
            index <= pieces@.len(),
            pieces.deep_view() == model,
            keep == (|component: Seq<char>| is_named_component(component)),
            components.deep_view() == model.take(index as int).filter(keep),
        decreases pieces@.len() - index,
    {
        assert(model[index as int] == pieces@[index as int]@);
        proof {
            take_next(model, index as int);
            filter_push(model.take(index as int), model[index as int], keep);
        }
        if !pieces[index].as_str().is_empty() && !same_text(pieces[index].as_str(), ".") {
            push_value(&mut components, pieces[index].copied());
        }
        index = index + 1;
    }
    assert(model.take(index as int) =~= model);
    components
}

/// Why a path is no safe absolute one, if it is none.
pub open spec fn absolute_problem(path: Seq<char>) -> Option<ErrorView> {
    given(
        !begins_with(path, "/"@) || path_components(path).contains(".."@),
        invalid("Repository checkout path must be absolute without dot segments"@),
    )
}

/// Requires an absolute path without dot segments.
pub fn validate_absolute_path(path: &str) -> (result: Result<()>)
    ensures
        fails_as(result, absolute_problem(path@)),
{
    if !has_prefix(path, "/") {
        return Err(invalid_input("Repository checkout path must be absolute without dot segments"));
    }
    let components = components_of(path);
    let parent = "..".to_owned();
    if is_among(&components, &parent) {
        return Err(invalid_input("Repository checkout path must be absolute without dot segments"));
    }
    Ok(())
}

/// Requires the path of a checkout that is to be scanned to be safe.
pub fn check_scan_root(path: &str) -> (result: Result<()>)
    ensures
        fails_as(
            result,
            given(absolute_problem(path@) is Some, invalid("Repository checkout path is unsafe"@)),
        ),
{
    match validate_absolute_path(path) {
        Ok(_) => Ok(()),
        Err(_) => Err(invalid_input("Repository checkout path is unsafe")),
    }
}

/// Requires the root of a scanned checkout not to be a link.
pub fn check_scan_link(is_link: bool) -> (result: Result<()>)
    ensures
        fails_as(result, given(is_link, invalid("Repository checkout path must not be a symlink"@))),
{
    if is_link {
        return Err(invalid_input("Repository checkout path must not be a symlink"));
    }
    Ok(())
}

/// Requires a checkout that is asked for not to be a link.
pub fn check_locator_link(is_link: bool) -> (result: Result<()>)
    ensures
        fails_as(result, given(is_link, invalid("Repository checkout locator must not be a symlink"@))),
{
    if is_link {
        return Err(invalid_input("Repository checkout locator must not be a symlink"));
    }
    Ok(())
}

/// Requires a scanned checkout to be the worktree root that Git reports.
pub fn check_worktree_root(root: &CheckoutPath, top_level: &CheckoutPath) -> (result: Result<()>)
    ensures
        fails_as(
            result,
            given(
                root.deep_view().components() != top_level.deep_view().components(),
                invalid("Repository checkout path must be the worktree root"@),
            ),
        ),
{
    if !root.is_same(top_level) {
        return Err(invalid_input("Repository checkout path must be the worktree root"));
    }
    Ok(())
}

/// Whether a canonical path lies in a directory: its components begin with those of the directory.
pub open spec fn lies_in(path: CheckoutPathView, directory: CheckoutPathView) -> bool {
    let inner = path.components();
    let outer = directory.components();
    outer.len() <= inner.len() && inner.take(outer.len() as int) == outer
}

/// Whether a canonical path lies in a directory.
pub fn is_inside(path: &CheckoutPath, directory: &CheckoutPath) -> (inside: bool)
    ensures
        inside == lies_in(path.deep_view(), directory.deep_view()),
{
    let inner = components_of(path.text.as_str());
    let outer = components_of(directory.text.as_str());
    let ghost whole = inner.deep_view();
    let ghost front = outer.deep_view();
    assert(whole.len() == inner@.len() && front.len() == outer@.len());
    if outer.len() > inner.len() {
        return false;
    }
    let mut index: usize = 0;
    while index < outer.len()
        invariant
            index <= outer@.len() <= inner@.len(),
            whole == inner.deep_view(),
            front == outer.deep_view(),
            whole == path.deep_view().components(),
            front == directory.deep_view().components(),
            forall|i: int| 0 <= i < index ==> #[trigger] whole[i] == front[i],
        decreases outer@.len() - index,
    {
        assert(whole[index as int] == inner@[index as int]@);
        assert(front[index as int] == outer@[index as int]@);
        if !inner[index].same(&outer[index]) {
            assert(whole.take(front.len() as int)[index as int] != front[index as int]);
            return false;
        }
        index = index + 1;
    }
    assert(whole.take(front.len() as int) =~= front);
    true
}

/// Reads back a persisted identity.
pub fn parse_repository_id(value: &str) -> (result: Result<RepositoryId>)
    ensures
        match result {
            Ok(id) => id@ == value@ && is_repository_spelling(vstd::utf8::encode_utf8(value@)),
            Err(error) => error@.kind == crate::error::ErrorKind::InvariantViolation && exists|reason: Seq<char>|
                #[trigger]
                repository_spelling_problem(vstd::utf8::encode_utf8(value@), reason) && error@.message
                    == "persisted RepositoryId is invalid: "@ + id_error_text(
                    IdParseErrorView { expected_prefix: ""@, message: reason },
                ),
        },
{
    match RepositoryId::parse(value) {
        Ok(id) => Ok(id),
        Err(error) => {
            let text = error.to_string();
            let message = joined2("persisted RepositoryId is invalid: ", text.as_str());
            assert(repository_spelling_problem(vstd::utf8::encode_utf8(value@), error@.message));
            Err(invariant_violation(message.as_str()))
        },
    }
}

impl CheckoutPathView {
    /// The components by which the path is compared.
    pub open spec fn components(self) -> Seq<Seq<char>> {
        path_components(self.text)
    }
}

impl CheckoutPath {
    /// A path with the given spelling.
    pub fn new(text: &str) -> (path: Self)
        ensures
            path.deep_view().text == text@,
    {
        CheckoutPath { text: text.to_owned() }
    }

    /// The spelling of the path.
    pub fn as_str(&self) -> (text: &str)
        ensures
            text@ == self.deep_view().text,
    {
        self.text.as_str()
    }

    /// Whether two absolute paths have the same components.
    pub fn is_same(&self, other: &CheckoutPath) -> (same: bool)
        ensures
            same == (self.deep_view().components() == other.deep_view().components()),
    {
        let left = components_of(self.text.as_str());
        let right = components_of(other.text.as_str());
        left.same(&right)
    }
}

impl Placed for CheckoutPath {
    type Key = Vec<String>;

    open spec fn place(model: CheckoutPathView) -> Seq<Seq<char>> {
        model.components()
    }

    fn place_key(&self) -> (key: Vec<String>) {
        components_of(self.text.as_str())
    }
}

impl Placed for CatalogRepositorySpec {
    type Key = RepositoryId;

    open spec fn place(model: CatalogRepositorySpecView) -> Seq<char> {
        model.repository_id
    }

    fn place_key(&self) -> (key: RepositoryId) {
        self.repository_id.copied()
    }
}

/// Whether a path is among others, by components.
pub open spec fn has_path(paths: Seq<CheckoutPathView>, path: CheckoutPathView) -> bool {
    exists|i: int| 0 <= i < paths.len() && (#[trigger] paths[i]).components() == path.components()
}

fn holds_path(paths: &Vec<CheckoutPath>, count: usize, path: &CheckoutPath) -> (found: bool)
    requires
        count <= paths@.len(),
    ensures
        found == has_path(paths.deep_view().take(count as int), path.deep_view()),
{
    let ghost model = paths.deep_view();
    let ghost some = model.take(count as int);
    let mut index: usize = 0;
    while index < count
        invariant
            index <= count <= paths@.len(),
            model == paths.deep_view(),
            some == model.take(count as int),
            forall|i: int| 0 <= i < index ==> (#[trigger] some[i]).components() != path.deep_view().components(),
        decreases count - index,
    {
        assert(some[index as int] == paths@[index as int].deep_view());
        if paths[index].is_same(path) {
            return true;
        }
        index = index + 1;
    }
    false
}

/// The first of some Repositories that has a path, from an index on.
pub open spec fn first_owner(
    repositories: Seq<CatalogRepositorySpecView>,
    path: CheckoutPathView,
    from: int,
    count: int,
) -> Option<Seq<char>>
    decreases count - from,
{
    if from < 0 || from >= count {
        None
    } else if has_path(repositories[from].checkout_paths, path) {
        Some(repositories[from].repository_id)
    } else {
        first_owner(repositories, path, from + 1, count)
    }
}

fn find_first_owner(repositories: &Vec<CatalogRepositorySpec>, count: usize, path: &CheckoutPath) -> (owner: Option<
    RepositoryId,
>)
    requires
        count <= repositories@.len(),
    ensures
        owner.deep_view() == first_owner(repositories.deep_view(), path.deep_view(), 0, count as int),
{
    let ghost model = repositories.deep_view();
    let mut index: usize = 0;
    while index < count
        invariant
            index <= count <= repositories@.len(),
            model == repositories.deep_view(),
            first_owner(model, path.deep_view(), index as int, count as int) == first_owner(
                model,
                path.deep_view(),
                0,
                count as int,
            ),
        decreases count - index,
    {
        assert(model[index as int] == repositories@[index as int].deep_view());
        let paths = &repositories[index].checkout_paths;
        assert(paths.deep_view().take(paths@.len() as int) =~= paths.deep_view());
        if holds_path(paths, paths.len(), path) {
            return Some(repositories[index].repository_id.copied());
        }
        index = index + 1;
    }
    None
}

/// The identities of Repositories.
pub open spec fn catalog_ids(repositories: Seq<CatalogRepositorySpecView>) -> Seq<Seq<char>> {
    Seq::new(repositories.len(), |i: int| repositories[i].repository_id)
}

/// Why one path of a Repository is refused, if it is.
pub open spec fn checkout_problem(
    repositories: Seq<CatalogRepositorySpecView>,
    at: int,
) -> spec_fn(int) -> Option<ErrorView> {
    |i: int|
        {
            let repository = repositories[at];
            let path = repository.checkout_paths[i];
            first(
                absolute_problem(path.text),
                first(
                    given(
                        has_path(repository.checkout_paths.take(i), path),
                        invalid("duplicate Catalog checkout path: "@ + path.text),
                    ),
                    match first_owner(repositories, path, 0, at) {
                        Some(owner) => invalid(
                            "Catalog checkout path belongs to both "@ + owner + " and "@ + repository.repository_id,
                        ),
                        None => None,
                    },
                ),
            )
        }
}

/// Why one Repository of a Catalog is refused, if it is.
pub open spec fn repository_problem(
    repositories: Seq<CatalogRepositorySpecView>,
) -> spec_fn(int) -> Option<ErrorView> {
    |i: int|
        first(
            given(
                catalog_ids(repositories).take(i).contains(repositories[i].repository_id),
                invalid("duplicate Catalog RepositoryId: "@ + repositories[i].repository_id),
            ),
            first(
                given(
                    repositories[i].checkout_paths.len() > MAX_CHECKOUTS_PER_REPOSITORY,
                    invalid("Repository "@ + repositories[i].repository_id + " exceeds 32 checkout paths"@),
                ),
                first_from(
                    checkout_problem(repositories, i),
                    0,
                    repositories[i].checkout_paths.len(),
                ),
            ),
        )
}

/// Why a Catalog is refused, if it is.
pub open spec fn catalog_problem(repositories: Seq<CatalogRepositorySpecView>) -> Option<ErrorView> {
    first(
        given(
            repositories.len() > MAX_CATALOG_REPOSITORIES,
            invalid("Repository Catalog exceeds 256 identities"@),
        ),
        first_from(repository_problem(repositories), 0, repositories.len()),
    )
}

/// A Repository with its checkouts in order.
pub open spec fn with_ordered_paths(repository: CatalogRepositorySpecView) -> CatalogRepositorySpecView {
    CatalogRepositorySpecView {
        repository_id: repository.repository_id,
        checkout_paths: stably_sorted::<CheckoutPath>(repository.checkout_paths),
    }
}

/// A Catalog in order: by identity, each with its checkouts by components.
pub open spec fn ordered_catalog(repositories: Seq<CatalogRepositorySpecView>) -> Seq<CatalogRepositorySpecView> {
    let sorted = stably_sorted::<CatalogRepositorySpec>(repositories);
    Seq::new(sorted.len(), |i: int| with_ordered_paths(sorted[i]))
}

/// Normalizing a Catalog without repeated identities does not depend on the order in which it is
/// written.
pub proof fn normalizing_ignores_order(left: Seq<CatalogRepositorySpecView>, right: Seq<CatalogRepositorySpecView>)
    requires
        left.to_multiset() == right.to_multiset(),
        one_per_place::<CatalogRepositorySpec>(left.to_multiset()),
    ensures
        ordered_catalog(left) == ordered_catalog(right),
{
    sorting_ignores_order::<CatalogRepositorySpec>(left, right);
}

fn validate_checkouts(repositories: &Vec<CatalogRepositorySpec>, at: usize) -> (result: Result<()>)
    requires
        at < repositories@.len(),
    ensures
        fails_as(
            result,
            first_from(
                checkout_problem(repositories.deep_view(), at as int),
                0,
                repositories.deep_view()[at as int].checkout_paths.len(),
            ),
        ),
{
    let ghost model = repositories.deep_view();
    let ghost problem = checkout_problem(model, at as int);
    let repository = &repositories[at];
    assert(model[at as int] == repository.deep_view());
    let paths = &repository.checkout_paths;
    let ghost all = paths.deep_view();
    let mut index: usize = 0;
    while index < paths.len()
        invariant
            index <= paths@.len(),
            at < repositories@.len(),
            model == repositories.deep_view(),
            model[at as int] == repository.deep_view(),
            all == paths.deep_view(),
            all == model[at as int].checkout_paths,
            problem == checkout_problem(model, at as int),
            first_from(problem, 0, all.len()) == first_from(problem, index as nat, all.len()),
        decreases paths@.len() - index,
    {
        assert(all[index as int] == paths@[index as int].deep_view());
        let path = &paths[index];
        validate_absolute_path(path.text.as_str())?;
        if holds_path(paths, index, path) {
            let message = joined2("duplicate Catalog checkout path: ", path.text.as_str());
            return Err(invalid_input(message.as_str()));
        }
        if let Some(owner) = find_first_owner(repositories, at, path) {
            let message = joined4(
                "Catalog checkout path belongs to both ",
                owner.as_str(),
                " and ",
                repository.repository_id.as_str(),
            );
            return Err(invalid_input(message.as_str()));
        }
        index = index + 1;
    }
    assert(all.len() == paths@.len());
    Ok(())
}

/// Validates a Catalog and puts it in order.
pub fn normalize_catalog(repositories: &Vec<CatalogRepositorySpec>) -> (result: Result<Vec<CatalogRepositorySpec>>)
    ensures
        fails_as(result, catalog_problem(repositories.deep_view())),
        result is Ok ==> result->Ok_0.deep_view() == ordered_catalog(repositories.deep_view()),
{
    let ghost model = repositories.deep_view();
    assert(model.len() == repositories@.len());
    if repositories.len() > MAX_CATALOG_REPOSITORIES {
        return Err(invalid_input("Repository Catalog exceeds 256 identities"));
    }
    let ghost problem = repository_problem(model);
    let ghost ids_model = catalog_ids(model);
    let mut ids: Vec<RepositoryId> = Vec::new();
    let mut index: usize = 0;
    assert(ids.deep_view() =~= ids_model.take(0));
    while index < repositories.len()
        invariant
            index <= repositories@.len() <= MAX_CATALOG_REPOSITORIES,
            model == repositories.deep_view(),
            problem == repository_problem(model),
            ids_model == catalog_ids(model),
            ids.deep_view() == ids_model.take(index as int),
            first_from(problem, 0, model.len()) == first_from(problem, index as nat, model.len()),
        decreases repositories@.len() - index,
    {
        assert(model[index as int] == repositories@[index as int].deep_view());
        let repository = &repositories[index];
        assert(model[index as int].checkout_paths.len() == repository.checkout_paths@.len());
        if is_among(&ids, &repository.repository_id) {
            let message = joined2("duplicate Catalog RepositoryId: ", repository.repository_id.as_str());
            return Err(invalid_input(message.as_str()));
        }
        if repository.checkout_paths.len() > MAX_CHECKOUTS_PER_REPOSITORY {
            let message = joined3("Repository ", repository.repository_id.as_str(), " exceeds 32 checkout paths");
            return Err(invalid_input(message.as_str()));
        }
        validate_checkouts(repositories, index)?;
        push_value(&mut ids, repository.repository_id.copied());
        proof {
            take_next(ids_model, index as int);
        }
        index = index + 1;
    }
    Ok(order_catalog(repositories))
}

fn order_catalog(repositories: &Vec<CatalogRepositorySpec>) -> (ordered: Vec<CatalogRepositorySpec>)
    ensures
        ordered.deep_view() == ordered_catalog(repositories.deep_view()),
{
    let sorted = sort_stably(repositories);
    let ghost model = sorted.deep_view();
    let ghost expected = ordered_catalog(repositories.deep_view());
    let mut ordered: Vec<CatalogRepositorySpec> = Vec::new();
    let mut index: usize = 0;
    assert(ordered.deep_view() =~= expected.take(0));
    while index < sorted.len()
        invariant
            index <= sorted@.len(),
            model == sorted.deep_view(),
            expected.len() == model.len(),
            forall|i: int| 0 <= i < model.len() ==> #[trigger] expected[i] == with_ordered_paths(model[i]),
            ordered.deep_view() == expected.take(index as int),
        decreases sorted@.len() - index,
    {
        assert(model[index as int] == sorted@[index as int].deep_view());
        assert(expected[index as int] == with_ordered_paths(model[index as int]));
        push_value(
            &mut ordered,
            CatalogRepositorySpec {
                repository_id: sorted[index].repository_id.copied(),
                checkout_paths: sort_stably(&sorted[index].checkout_paths),
            },
        );
        proof {
            take_next(expected, index as int);
        }
        index = index + 1;
    }
    assert(expected.take(index as int) =~= expected);
    ordered
}

/// The name of a checkout state in fingerprints.
pub open spec fn state_signature(state: CheckoutState) -> Seq<char> {
    match state {
        CheckoutState::Missing => "missing"@,
        CheckoutState::Symlink => "symlink"@,
        CheckoutState::NotADirectory => "not-a-directory"@,
        CheckoutState::Directory => "directory"@,
        CheckoutState::WorktreeRoot => "worktree-root"@,
    }
}

/// The name of a checkout state in fingerprints.
pub fn checkout_state_signature(state: CheckoutState) -> (signature: &'static str)
    ensures
        signature@ == state_signature(state),
{
    match state {
        CheckoutState::Missing => "missing",
        CheckoutState::Symlink => "symlink",
        CheckoutState::NotADirectory => "not-a-directory",
        CheckoutState::Directory => "directory",
        CheckoutState::WorktreeRoot => "worktree-root",
    }
}

/// Different states have different signatures.
pub proof fn signatures_tell_states_apart(left: CheckoutState, right: CheckoutState)
    requires
        state_signature(left) == state_signature(right),
    ensures
        left == right,
{
    reveal_strlit("missing");
    reveal_strlit("symlink");
    reveal_strlit("not-a-directory");
    reveal_strlit("directory");
    reveal_strlit("worktree-root");
    assert("missing"@.len() == 7 && "missing"@[0] == 'm');
    assert("symlink"@.len() == 7 && "symlink"@[0] == 's');
    assert("not-a-directory"@.len() == 15);
    assert("directory"@.len() == 9);
    assert("worktree-root"@.len() == 13);
    assert(state_signature(left).len() == state_signature(right).len());
    assert(state_signature(left)[0] == state_signature(right)[0]);
}

/// What the checkouts of a Repository add to a fingerprint.
pub open spec fn checkout_components(checkouts: Seq<ObservedCheckoutView>) -> Seq<Seq<char>> {
    concatenated(
        |i: int| seq![checkouts[i].path.text, state_signature(checkouts[i].state)],
        checkouts.len(),
    )
}

/// What a Repository adds to a fingerprint.
pub open spec fn repository_components(repository: ObservedRepositoryView) -> Seq<Seq<char>> {
    seq![repository.repository_id] + checkout_components(repository.checkouts)
}

/// What the Repositories of a Catalog add to a fingerprint.
pub open spec fn catalog_components(repositories: Seq<ObservedRepositoryView>) -> Seq<Seq<char>> {
    concatenated(|i: int| repository_components(repositories[i]), repositories.len())
}

/// What a fingerprint digests.
pub open spec fn fingerprint_components(repositories: Seq<ObservedRepositoryView>) -> Seq<Seq<char>> {
    seq![CATALOG_FINGERPRINT_VERSION@] + catalog_components(repositories)
}

/// The fingerprint of a Catalog and the states of its checkouts.
pub open spec fn fingerprint_of(repositories: Seq<ObservedRepositoryView>) -> Seq<char> {
    "cat_"@ + sha256_hex(framed_all(fingerprint_components(repositories)))
}

/// Whether a text starts like an absolute path.
pub open spec fn starts_absolute(text: Seq<char>) -> bool {
    text.len() > 0 && text[0] == '/'
}

/// Whether an observed Catalog is one: no identity reads as a path, every path is absolute, and
/// each text fits its frame.
pub open spec fn is_observed_catalog(repositories: Seq<ObservedRepositoryView>) -> bool {
    &&& forall|i: int|
        0 <= i < repositories.len() ==> !starts_absolute((#[trigger] repositories[i]).repository_id)
    &&& forall|i: int, j: int|
        0 <= i < repositories.len() && 0 <= j < repositories[i].checkouts.len() ==> starts_absolute(
            (#[trigger] repositories[i].checkouts[j]).path.text,
        )
    &&& forall|i: int|
        0 <= i < fingerprint_components(repositories).len() ==> fits_frame(
            #[trigger] fingerprint_components(repositories)[i],
        )
}

proof fn first_part<T>(parts: spec_fn(int) -> Seq<T>, rest: spec_fn(int) -> Seq<T>, count: nat)
    requires
        count > 0,
        forall|i: int| 0 <= i < count - 1 ==> #[trigger] rest(i) == parts(i + 1),
    ensures
        concatenated(parts, count) == parts(0) + concatenated(rest, (count - 1) as nat),
    decreases count,
{
    if count == 1 {
        assert(concatenated(parts, 0) =~= Seq::empty());
        assert(concatenated(parts, count) =~= parts(0) + concatenated(rest, 0));
    } else {
        first_part(parts, rest, (count - 1) as nat);
        assert(rest(count - 2) == parts(count - 1));
        assert(concatenated(parts, count) =~= parts(0) + concatenated(rest, (count - 1) as nat));
    }
}

proof fn checkouts_read_back(
    left: Seq<ObservedCheckoutView>,
    right: Seq<ObservedCheckoutView>,
    after_left: Seq<Seq<char>>,
    after_right: Seq<Seq<char>>,
)
    requires
        checkout_components(left) + after_left == checkout_components(right) + after_right,
        after_left.len() > 0 ==> !starts_absolute(after_left[0]),
        after_right.len() > 0 ==> !starts_absolute(after_right[0]),
        forall|j: int| 0 <= j < left.len() ==> starts_absolute((#[trigger] left[j]).path.text),
        forall|j: int| 0 <= j < right.len() ==> starts_absolute((#[trigger] right[j]).path.text),
    ensures
        left == right,
        after_left == after_right,
    decreases left.len() + right.len(),
{
    let whole = checkout_components(left) + after_left;
    if left.len() > 0 {
        let rest = left.skip(1);
        first_part(
            |i: int| seq![left[i].path.text, state_signature(left[i].state)],
            |i: int| seq![rest[i].path.text, state_signature(rest[i].state)],
            left.len(),
        );
        assert(whole[0] == left[0].path.text);
        assert(whole[1] == state_signature(left[0].state));
        assert(whole.skip(2) =~= checkout_components(rest) + after_left);
    } else {
        assert(whole =~= after_left);
    }
    if right.len() > 0 {
        let rest = right.skip(1);
        first_part(
            |i: int| seq![right[i].path.text, state_signature(right[i].state)],
            |i: int| seq![rest[i].path.text, state_signature(rest[i].state)],
            right.len(),
        );
        assert(whole[0] == right[0].path.text);
        assert(whole[1] == state_signature(right[0].state));
        assert(whole.skip(2) =~= checkout_components(rest) + after_right);
    } else {
        assert(whole =~= after_right);
    }
    if left.len() > 0 && right.len() > 0 {
        signatures_tell_states_apart(left[0].state, right[0].state);
        assert(left[0] == right[0]);
        assert forall|j: int| 0 <= j < left.skip(1).len() implies starts_absolute(
            (#[trigger] left.skip(1)[j]).path.text,
        ) by {
            assert(left.skip(1)[j] == left[j + 1]);
        }
        assert forall|j: int| 0 <= j < right.skip(1).len() implies starts_absolute(
            (#[trigger] right.skip(1)[j]).path.text,
        ) by {
            assert(right.skip(1)[j] == right[j + 1]);
        }
        checkouts_read_back(left.skip(1), right.skip(1), after_left, after_right);
        assert(left =~= seq![left[0]] + left.skip(1));
        assert(right =~= seq![right[0]] + right.skip(1));
    } else {
        assert(left =~= right);
    }
}

proof fn catalog_parts(repositories: Seq<ObservedRepositoryView>)
    requires
        repositories.len() > 0,
    ensures
        catalog_components(repositories) == seq![repositories[0].repository_id] + (checkout_components(
            repositories[0].checkouts,
        ) + catalog_components(repositories.skip(1))),
{
    let rest = repositories.skip(1);
    first_part(
        |i: int| repository_components(repositories[i]),
        |i: int| repository_components(rest[i]),
        repositories.len(),
    );
    assert(catalog_components(repositories) =~= seq![repositories[0].repository_id] + (checkout_components(
        repositories[0].checkouts,
    ) + catalog_components(rest)));
}

proof fn catalogs_read_back(left: Seq<ObservedRepositoryView>, right: Seq<ObservedRepositoryView>)
    requires
        catalog_components(left) == catalog_components(right),
        forall|i: int| 0 <= i < left.len() ==> !starts_absolute((#[trigger] left[i]).repository_id),
        forall|i: int| 0 <= i < right.len() ==> !starts_absolute((#[trigger] right[i]).repository_id),
        forall|i: int, j: int|
            0 <= i < left.len() && 0 <= j < left[i].checkouts.len() ==> starts_absolute(
                (#[trigger] left[i].checkouts[j]).path.text,
            ),
        forall|i: int, j: int|
            0 <= i < right.len() && 0 <= j < right[i].checkouts.len() ==> starts_absolute(
                (#[trigger] right[i].checkouts[j]).path.text,
            ),
    ensures
        left == right,
    decreases left.len() + right.len(),
{
    if left.len() == 0 || right.len() == 0 {
        if left.len() > 0 {
            catalog_parts(left);
            assert(catalog_components(left).len() > 0);
        }
        if right.len() > 0 {
            catalog_parts(right);
            assert(catalog_components(right).len() > 0);
        }
        assert(left =~= right);
    } else {
        catalog_parts(left);
        catalog_parts(right);
        let (a, b) = (left.skip(1), right.skip(1));
        let whole = catalog_components(left);
        assert(whole[0] == left[0].repository_id);
        assert(whole[0] == right[0].repository_id);
        assert(whole.skip(1) =~= checkout_components(left[0].checkouts) + catalog_components(a));
        assert(whole.skip(1) =~= checkout_components(right[0].checkouts) + catalog_components(b));
        if a.len() > 0 {
            catalog_parts(a);
            assert(a[0] == left[1]);
        }
        if b.len() > 0 {
            catalog_parts(b);
            assert(b[0] == right[1]);
        }
        assert forall|j: int| 0 <= j < left[0].checkouts.len() implies starts_absolute(
            (#[trigger] left[0].checkouts[j]).path.text,
        ) by {}
        checkouts_read_back(left[0].checkouts, right[0].checkouts, catalog_components(a), catalog_components(b));
        assert forall|i: int| 0 <= i < a.len() implies !starts_absolute((#[trigger] a[i]).repository_id) by {
            assert(a[i] == left[i + 1]);
        }
        assert forall|i: int| 0 <= i < b.len() implies !starts_absolute((#[trigger] b[i]).repository_id) by {
            assert(b[i] == right[i + 1]);
        }
        assert forall|i: int, j: int| 0 <= i < a.len() && 0 <= j < a[i].checkouts.len() implies starts_absolute(
            (#[trigger] a[i].checkouts[j]).path.text,
        ) by {
            assert(a[i].checkouts[j] == left[i + 1].checkouts[j]);
        }
        assert forall|i: int, j: int| 0 <= i < b.len() && 0 <= j < b[i].checkouts.len() implies starts_absolute(
            (#[trigger] b[i].checkouts[j]).path.text,
        ) by {
            assert(b[i].checkouts[j] == right[i + 1].checkouts[j]);
        }
        catalogs_read_back(a, b);
        assert(left =~= seq![left[0]] + a);
        assert(right =~= seq![right[0]] + b);
    }
}

/// A fingerprint digests exactly what a synchronization projects: two observed Catalogs whose
/// fingerprints digest the same bytes have the same identities, paths and checkout states.
pub proof fn fingerprints_cover_the_catalog(left: Seq<ObservedRepositoryView>, right: Seq<ObservedRepositoryView>)
    requires
        is_observed_catalog(left),
        is_observed_catalog(right),
        framed_all(fingerprint_components(left)) == framed_all(fingerprint_components(right)),
    ensures
        left == right,
{
    framing_is_injective(fingerprint_components(left), fingerprint_components(right));
    assert(fingerprint_components(left).skip(1) =~= catalog_components(left));
    assert(fingerprint_components(right).skip(1) =~= catalog_components(right));
    catalogs_read_back(left, right);
}

fn push_checkouts(components: &mut Vec<String>, checkouts: &Vec<ObservedCheckout>)
    ensures
        final(components).deep_view() == old(components).deep_view() + checkout_components(checkouts.deep_view()),
{
    let ghost start = components.deep_view();
    let ghost model = checkouts.deep_view();
    let ghost parts = |i: int| seq![model[i].path.text, state_signature(model[i].state)];
    let mut index: usize = 0;
    assert(start + concatenated(parts, 0) =~= start);
    while index < checkouts.len()
        invariant
            index <= checkouts@.len(),
            model == checkouts.deep_view(),
            parts == (|i: int| seq![model[i].path.text, state_signature(model[i].state)]),
            components.deep_view() == start + concatenated(parts, index as nat),
        decreases checkouts@.len() - index,
    {
        assert(model[index as int] == checkouts@[index as int].deep_view());
        push_value(components, checkouts[index].path.text.copied());
        push_value(components, checkout_state_signature(checkouts[index].state).to_owned());
        assert(components.deep_view() =~= start + (concatenated(parts, index as nat) + parts(index as int)));
        index = index + 1;
    }
    assert(model.len() == checkouts@.len());
}

/// Deterministic fingerprint of one already-normalized Catalog together with the local state of
/// every configured checkout.
pub fn catalog_fingerprint(repositories: &Vec<ObservedRepository>) -> (fingerprint: String)
    ensures
        fingerprint@ == fingerprint_of(repositories.deep_view()),
{
    let ghost model = repositories.deep_view();
    let ghost parts = |i: int| repository_components(model[i]);
    let mut components: Vec<String> = Vec::new();
    push_value(&mut components, CATALOG_FINGERPRINT_VERSION.to_owned());
    let ghost head = components.deep_view();
    let mut index: usize = 0;
    proof {
        assert(head =~= seq![CATALOG_FINGERPRINT_VERSION@]);
        assert(head + concatenated(parts, 0) =~= head);
    }
    while index < repositories.len()
        invariant
            index <= repositories@.len(),
            model == repositories.deep_view(),
            parts == (|i: int| repository_components(model[i])),
            components.deep_view() == head + concatenated(parts, index as nat),
        decreases repositories@.len() - index,
    {
        assert(model[index as int] == repositories@[index as int].deep_view());
        push_value(&mut components, repositories[index].repository_id.to_string());
        push_checkouts(&mut components, &repositories[index].checkouts);
        assert(components.deep_view() =~= head + (concatenated(parts, index as nat) + parts(index as int)));
        index = index + 1;
    }
    assert(model.len() == repositories@.len());
    let bytes = frame_all(&components);
    let hash = sha256_text(&bytes);
    joined2("cat_", hash.as_str())
}

/// Why the state of a configured checkout is refused, if it is.
pub open spec fn state_problem(state: CheckoutState) -> Option<ErrorView> {
    match state {
        CheckoutState::Symlink => invalid("configured Repository checkout must not be a symlink"@),
        CheckoutState::NotADirectory => invalid("configured Repository checkout must be a directory"@),
        _ => None,
    }
}

/// The locator of a configured checkout that its state alone decides.
pub open spec fn missing_locator(path: CheckoutPathView, state: CheckoutState) -> Option<LocalRepositoryLocatorView> {
    if state == CheckoutState::Missing {
        Some(
            LocalRepositoryLocatorView { checkout_path: path, availability: RepositoryAvailability::Unavailable },
        )
    } else {
        None
    }
}

/// Takes the state of a configured checkout: a missing one is an unavailable locator, and a
/// directory has to be inspected further.
pub fn inspect_state(path: &CheckoutPath, state: CheckoutState) -> (result: Result<Option<LocalRepositoryLocator>>)
    ensures
        fails_as(result, first(absolute_problem(path.deep_view().text), state_problem(state))),
        result is Ok ==> result->Ok_0.deep_view() == missing_locator(path.deep_view(), state),
{
    validate_absolute_path(path.text.as_str())?;
    match state {
        CheckoutState::Missing => Ok(
            Some(
                LocalRepositoryLocator {
                    checkout_path: path.copied(),
                    availability: RepositoryAvailability::Unavailable,
                },
            ),
        ),
        CheckoutState::Symlink => Err(invalid_input("configured Repository checkout must not be a symlink")),
        CheckoutState::NotADirectory => Err(invalid_input("configured Repository checkout must be a directory")),
        _ => Ok(None),
    }
}

/// Requires a configured path to be canonical already.
pub fn require_canonical(path: &CheckoutPath, canonical: &CheckoutPath) -> (result: Result<()>)
    ensures
        fails_as(
            result,
            given(
                path.deep_view().components() != canonical.deep_view().components(),
                invalid("configured Repository checkout path must already be canonical"@),
            ),
        ),
{
    if !path.is_same(canonical) {
        return Err(invalid_input("configured Repository checkout path must already be canonical"));
    }
    Ok(())
}

/// Why the top level that Git reports does not fit a checkout.
pub open spec fn top_level_problem(canonical: CheckoutPathView, top_level: Option<CheckoutPathView>) -> Option<
    ErrorView,
> {
    match top_level {
        None => invalid("configured checkout is not a Git Repository"@),
        Some(top) => given(
            top.components() != canonical.components(),
            invalid("configured Repository checkout must identify the Git worktree root"@),
        ),
    }
}

/// Takes the top level that Git reports for a canonical checkout: it must be the checkout itself.
pub fn inspect_top_level(canonical: &CheckoutPath, top_level: Option<&CheckoutPath>) -> (result: Result<
    LocalRepositoryLocator,
>)
    ensures
        fails_as(
            result,
            top_level_problem(
                canonical.deep_view(),
                match top_level {
                    None => None,
                    Some(top) => Some(top.deep_view()),
                },
            ),
        ),
        result is Ok ==> result->Ok_0.deep_view() == (LocalRepositoryLocatorView {
            checkout_path: canonical.deep_view(),
            availability: RepositoryAvailability::Available,
        }),
{
    match top_level {
        None => Err(invalid_input("configured checkout is not a Git Repository")),
        Some(top) => {
            if !top.is_same(canonical) {
                return Err(
                    invalid_input("configured Repository checkout must identify the Git worktree root"),
                );
            }
            Ok(
                LocalRepositoryLocator {
                    checkout_path: canonical.copied(),
                    availability: RepositoryAvailability::Available,
                },
            )
        },
    }
}

/// Whether some locator is available.
pub open spec fn any_available(locators: Seq<LocalRepositoryLocatorView>) -> bool {
    exists|i: int|
        0 <= i < locators.len() && (#[trigger] locators[i]).availability == RepositoryAvailability::Available
}

/// How many locators are unavailable.
pub open spec fn unavailable_count(locators: Seq<LocalRepositoryLocatorView>) -> nat
    decreases locators.len(),
{
    if locators.len() == 0 {
        0
    } else {
        unavailable_count(locators.drop_last()) + if locators.last().availability
            == RepositoryAvailability::Unavailable {
            1nat
        } else {
            0
        }
    }
}

/// The projection of an inspected Repository. Its name is its identity.
pub open spec fn registered(repository: InspectedRepositoryView) -> RegisteredRepositoryView {
    RegisteredRepositoryView {
        identity: RepositoryIdentityView {
            repository_id: repository.repository_id,
            canonical_name: repository.repository_id,
        },
        availability: if any_available(repository.locators) {
            RepositoryAvailability::Available
        } else {
            RepositoryAvailability::Unavailable
        },
        locators: repository.locators,
    }
}

/// The sum of two counts, as far as it can be counted.
pub open spec fn count_sum(left: nat, right: nat) -> nat {
    if left + right <= usize::MAX {
        left + right
    } else {
        usize::MAX as nat
    }
}

fn sum_counts(left: usize, right: usize) -> (sum: usize)
    ensures
        sum == count_sum(left as nat, right as nat),
{
    if left <= usize::MAX - right {
        left + right
    } else {
        usize::MAX
    }
}

/// The number of locators, as far as it can be counted.
pub open spec fn locator_total(repositories: Seq<InspectedRepositoryView>) -> nat
    decreases repositories.len(),
{
    if repositories.len() == 0 {
        0
    } else {
        count_sum(locator_total(repositories.drop_last()), repositories.last().locators.len())
    }
}

/// The number of unavailable locators, as far as it can be counted.
pub open spec fn unavailable_total(repositories: Seq<InspectedRepositoryView>) -> nat
    decreases repositories.len(),
{
    if repositories.len() == 0 {
        0
    } else {
        count_sum(unavailable_total(repositories.drop_last()), unavailable_count(repositories.last().locators))
    }
}

/// Unavailable locators are some of the locators.
pub proof fn unavailable_are_locators(locators: Seq<LocalRepositoryLocatorView>)
    ensures
        unavailable_count(locators) <= locators.len(),
    decreases locators.len(),
{
    if locators.len() > 0 {
        unavailable_are_locators(locators.drop_last());
    }
}

fn judge_locators(locators: &Vec<LocalRepositoryLocator>) -> (result: (RepositoryAvailability, usize))
    ensures
        result.0 == (if any_available(locators.deep_view()) {
            RepositoryAvailability::Available
        } else {
            RepositoryAvailability::Unavailable
        }),
        result.1 == unavailable_count(locators.deep_view()),
{
    let ghost model = locators.deep_view();
    let mut availability = RepositoryAvailability::Unavailable;
    let mut unavailable: usize = 0;
    let mut index: usize = 0;
    assert(model.take(0) =~= Seq::empty());
    while index < locators.len()
        invariant
            index <= locators@.len(),
            model == locators.deep_view(),
            unavailable <= index,
            unavailable == unavailable_count(model.take(index as int)),
            availability == RepositoryAvailability::Available <==> exists|i: int|
                0 <= i < index && (#[trigger] model[i]).availability == RepositoryAvailability::Available,
        decreases locators@.len() - index,
    {
        assert(model[index as int] == locators@[index as int].deep_view());
        proof {
            take_next(model, index as int);
        }
        match locators[index].availability {
            RepositoryAvailability::Available => {
                availability = RepositoryAvailability::Available;
            },
            RepositoryAvailability::Unavailable => {
                unavailable = unavailable + 1;
            },
        }
        index = index + 1;
    }
    assert(model.take(index as int) =~= model);
    assert(model.len() == locators@.len());
    (availability, unavailable)
}

/// The projections of inspected Repositories.
pub open spec fn registered_all(repositories: Seq<InspectedRepositoryView>) -> Seq<RegisteredRepositoryView> {
    Seq::new(repositories.len(), |i: int| registered(repositories[i]))
}

/// Projects inspected Repositories: one identity and its locators each, and a report of them all.
pub fn project_catalog(repositories: &Vec<InspectedRepository>) -> (result: Result<
    (Vec<RegisteredRepository>, RepositoryCatalogSyncReport),
>)
    ensures
        fails_as(
            result,
            first_from(
                |i: int| registered(repositories.deep_view()[i]).identity.problem(),
                0,
                repositories.deep_view().len(),
            ),
        ),
        result is Ok ==> result->Ok_0.0.deep_view() == registered_all(repositories.deep_view())
            && result->Ok_0.1 == (RepositoryCatalogSyncReport {
            repository_count: repositories.deep_view().len() as usize,
            locator_count: locator_total(repositories.deep_view()) as usize,
            unavailable_locator_count: unavailable_total(repositories.deep_view()) as usize,
        }),
{
    let ghost model = repositories.deep_view();
    let ghost problem = |i: int| registered(model[i]).identity.problem();
    let ghost all = registered_all(model);
    let mut projected: Vec<RegisteredRepository> = Vec::new();
    let mut locator_count: usize = 0;
    let mut unavailable_locator_count: usize = 0;
    let mut index: usize = 0;
    assert(model.take(0) =~= Seq::empty());
    assert(projected.deep_view() =~= all.take(0));
    while index < repositories.len()
        invariant
            index <= repositories@.len(),
            model == repositories.deep_view(),
            problem == (|i: int| registered(model[i]).identity.problem()),
            all == registered_all(model),
            projected.deep_view() == all.take(index as int),
            locator_count == locator_total(model.take(index as int)),
            unavailable_locator_count == unavailable_total(model.take(index as int)),
            first_from(problem, 0, model.len()) == first_from(problem, index as nat, model.len()),
        decreases repositories@.len() - index,
    {
        assert(model[index as int] == repositories@[index as int].deep_view());
        let repository = &repositories[index];
        assert(model[index as int].locators.len() == repository.locators@.len());
        let identity = RepositoryIdentity {
            repository_id: repository.repository_id.copied(),
            canonical_name: repository.repository_id.to_string(),
        };
        identity.validate()?;
        let (availability, unavailable) = judge_locators(&repository.locators);
        locator_count = sum_counts(locator_count, repository.locators.len());
        unavailable_locator_count = sum_counts(unavailable_locator_count, unavailable);
        push_value(
            &mut projected,
            RegisteredRepository { identity, availability, locators: repository.locators.copied() },
        );
        proof {
            take_next(model, index as int);
            take_next(all, index as int);
        }
        index = index + 1;
    }
    proof {
        assert(model.len() == repositories@.len());
        assert(model.take(index as int) =~= model);
        assert(all.take(index as int) =~= all);
    }
    Ok(
        (
            projected,
            RepositoryCatalogSyncReport {
                repository_count: repositories.len(),
                locator_count,
                unavailable_locator_count,
            },
        ),
    )
}

/// Takes a stored Repository as it was read.
pub fn registered_from_row(
    repository_id: &RepositoryId,
    canonical_name: String,
    available: bool,
    locators: Vec<LocalRepositoryLocator>,
) -> (result: Result<RegisteredRepository>)
    ensures
        fails_as(
            result,
            (RepositoryIdentityView { repository_id: repository_id@, canonical_name: canonical_name@ }).problem(),
        ),
        result is Ok ==> result->Ok_0.deep_view() == (RegisteredRepositoryView {
            identity: RepositoryIdentityView { repository_id: repository_id@, canonical_name: canonical_name@ },
            availability: if available {
                RepositoryAvailability::Available
            } else {
                RepositoryAvailability::Unavailable
            },
            locators: locators.deep_view(),
        }),
{
    let identity = RepositoryIdentity { repository_id: repository_id.copied(), canonical_name };
    identity.validate()?;
    Ok(
        RegisteredRepository {
            identity,
            availability: if available {
                RepositoryAvailability::Available
            } else {
                RepositoryAvailability::Unavailable
            },
            locators,
        },
    )
}

/// Requires a Repository that was listed to be there.
pub fn require_listed(repository: Option<RegisteredRepository>) -> (result: Result<RegisteredRepository>)
    ensures
        fails_as(result, given(repository is None, violated("listed Repository disappeared during read"@))),
        result is Ok ==> repository == Some(result->Ok_0),
{
    match repository {
        Some(repository) => Ok(repository),
        None => Err(invariant_violation("listed Repository disappeared during read")),
    }
}

/// The count that a stored value stands for.
pub open spec fn count_read(value: i64) -> usize {
    if 0 <= value <= usize::MAX {
        value as usize
    } else {
        0
    }
}

/// Reads back one persisted projection count. The Registry only ever stores counts it produced
/// itself, so an out-of-range value is disposable state, not an error.
pub fn projected_count(value: i64) -> (count: usize)
    ensures
        count == count_read(value),
{
    if value >= 0 && value as u64 <= usize::MAX as u64 {
        value as usize
    } else {
        0
    }
}

/// The stored form of a count.
pub fn stored_count(count: usize, message: &str) -> (result: Result<i64>)
    ensures
        fails_as(result, given(count > i64::MAX, violated(message@))),
        result is Ok ==> result->Ok_0 == count,
{
    if count as u64 > i64::MAX as u64 {
        return Err(invariant_violation(message));
    }
    Ok(count as i64)
}

/// A count that was stored reads back as it was.
pub proof fn stored_counts_read_back(count: usize)
    requires
        count <= i64::MAX,
    ensures
        0 <= count as i64 <= usize::MAX,
        count as i64 as usize == count,
{
}

/// Owner of the disposable private Repository Registry database.
#[derive(Clone, Debug, PartialEq, Eq)]
pub struct RepositoryRegistry {
    root: String,
    state: String,
    database: String,
}

/// The model of [`RepositoryRegistry`].
pub struct RepositoryRegistryView {
    pub root: Seq<char>,
    pub state: Seq<char>,
    pub database: Seq<char>,
}

impl DeepView for RepositoryRegistry {
    type V = RepositoryRegistryView;

    closed spec fn deep_view(&self) -> RepositoryRegistryView {
        RepositoryRegistryView {
            root: self.root.deep_view(),
            state: self.state.deep_view(),
            database: self.database.deep_view(),
        }
    }
}

impl Value for RepositoryRegistry {
    fn copied(&self) -> (copy: Self) {
        RepositoryRegistry {
            root: self.root.copied(),
            state: self.state.copied(),
            database: self.database.copied(),
        }
    }

    fn same(&self, other: &Self) -> (equal: bool) {
        self.root.same(&other.root)
            && self.state.same(&other.state)
            && self.database.same(&other.database)
    }
}

impl RepositoryRegistry {
    /// The Registry of the installation below a home directory.
    pub fn for_home(home: &str) -> (registry: Self)
        ensures
            registry.deep_view().root == path_below(home@, ".shared-context"@),
            registry.deep_view().state == path_below(registry.deep_view().root, "state"@),
            registry.deep_view().database == path_below(registry.deep_view().state, "repository-registry.sqlite"@),
    {
        let root = join_path(home, ".shared-context");
        Self::at(root.as_str())
    }

    /// The Registry at one Shared Context installation root.
    pub fn at(root: &str) -> (registry: Self)
        ensures
            registry.deep_view().root == root@,
            registry.deep_view().state == path_below(root@, "state"@),
            registry.deep_view().database == path_below(registry.deep_view().state, "repository-registry.sqlite"@),
    {
        let state = join_path(root, "state");
        let database = join_path(state.as_str(), "repository-registry.sqlite");
        RepositoryRegistry { root: root.to_owned(), state, database }
    }

    /// The installation root.
    #[must_use]
    pub fn root(&self) -> (path: &str)
        ensures
            path@ == self.deep_view().root,
    {
        self.root.as_str()
    }

    /// The directory of local state.
    #[must_use]
    pub fn state(&self) -> (path: &str)
        ensures
            path@ == self.deep_view().state,
    {
        self.state.as_str()
    }

    /// The Registry database.
    #[must_use]
    pub fn database_path(&self) -> (path: &str)
        ensures
            path@ == self.deep_view().database,
    {
        self.database.as_str()
    }
}

} // verus!
