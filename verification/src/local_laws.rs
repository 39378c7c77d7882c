//! What holds of the local Catalog, of the stored projection, of relocations and of focus lookups.

use vstd::prelude::*;

use crate::checks::blank;
use crate::error::ErrorKind;
use crate::focus::{hit_contexts, hits_among, lookup_of, ArtifactFocusOutcome, FocusRowView};
use crate::lexical::{lines_of, trimmed};
use crate::model_laws::{blames_input, first_failures_are_failures};
use crate::registry::{
    absolute_problem, any_available, catalog_ids, catalog_problem, checkout_problem, first_owner, has_path,
    is_named_component, lies_in, locator_total, ordered_catalog, path_below, path_components, registered,
    registered_all, repository_problem, state_problem, unavailable_count, unavailable_total, with_ordered_paths,
    CatalogRepositorySpec, CatalogRepositorySpecView, CheckoutPath, CheckoutPathView, CheckoutState,
    InspectedRepositoryView, LocalRepositoryLocatorView, RepositoryAvailability,
};
use crate::relocation::{commit_in, destinations_in, relocation_in, renamed_to};
use crate::storage::{
    focus_failure, is_contention, kind_of_code, rebuild_problem, storage_failure, RetryState, SqliteFailureKind,
};
use crate::text::{begins_with, finishes_with, split_on};
use crate::text_laws::{lacks, separators_end_pieces};

verus! {

/// A path is joined to a directory by one separator.
pub proof fn paths_are_joined_by_one_separator(directory: Seq<char>, name: Seq<char>)
    ensures
        directory.len() == 0 ==> path_below(directory, name) == name,
        directory.len() > 0 && directory.last() == '/' ==> path_below(directory, name) == directory + name,
        directory.len() > 0
            && directory.last() != '/' ==> path_below(directory, name) == directory + seq!['/'] + name,
{
    reveal_strlit("/");
    if directory.len() == 0 {
        assert(directory + name =~= name);
    } else if directory.last() == '/' {
        assert(directory.skip(directory.len() - 1) =~= "/"@);
    } else {
        if finishes_with(directory, "/"@) {
            assert(directory.skip(directory.len() - 1)[0] == directory.last());
        }
        assert("/"@ =~= seq!['/']);
    }
}

/// A checkout path is absolute exactly where it begins with a separator and no component leads up.
pub proof fn absolute_paths_do_not_lead_up(path: Seq<char>)
    ensures
        absolute_problem(path) is None <==> path.len() > 0
            && path[0] == '/'
            && !path_components(path).contains(".."@),
        blames_input(absolute_problem(path)),
{
    reveal_strlit("/");
    if path.len() > 0 && path[0] == '/' {
        assert(path.take(1) =~= "/"@);
    } else if begins_with(path, "/"@) {
        assert(path.take(1)[0] == path[0]);
    }
}

/// The components of a path are what stands between its separators, without empty ones and single
/// dots.
pub proof fn components_are_named(path: Seq<char>, at: int)
    requires
        0 <= at < path_components(path).len(),
    ensures
        path_components(path)[at].len() > 0,
        path_components(path)[at] != "."@,
        split_on(path, '/').contains(path_components(path)[at]),
{
    crate::value::filter_keeps(split_on(path, '/'), |component: Seq<char>| is_named_component(component), at);
}

/// A path lies in a directory exactly where its components begin with those of the directory.
pub proof fn inner_paths_begin_with_the_directory(path: CheckoutPathView, directory: CheckoutPathView)
    ensures
        lies_in(path, directory) <==> exists|rest: Seq<Seq<char>>|
            path.components() == #[trigger] (directory.components() + rest),
        lies_in(path, path),
{
    let (inner, outer) = (path.components(), directory.components());
    if lies_in(path, directory) {
        assert(inner =~= outer + inner.skip(outer.len() as int));
    }
    if exists|rest: Seq<Seq<char>>| inner == #[trigger] (outer + rest) {
        let rest = choose|rest: Seq<Seq<char>>| inner == #[trigger] (outer + rest);
        assert(inner.take(outer.len() as int) =~= outer);
    }
    assert(inner.take(inner.len() as int) =~= inner);
}

/// A valid Catalog has at most 256 Repositories under different identities, each with at most 32
/// checkouts, all of them absolute, and no checkout twice, within a Repository or across two.
pub proof fn valid_catalogs_own_each_checkout_once(
    repositories: Seq<CatalogRepositorySpecView>,
    i: int,
    j: int,
    k: int,
    l: int,
)
    requires
        catalog_problem(repositories) is None,
    ensures
        repositories.len() <= 256,
        0 <= i < repositories.len() ==> repositories[i].checkout_paths.len() <= 32,
        0 <= i < j < repositories.len() ==> repositories[i].repository_id != repositories[j].repository_id,
        0 <= i < repositories.len() && 0 <= k < repositories[i].checkout_paths.len() ==> absolute_problem(
            repositories[i].checkout_paths[k].text,
        ) is None,
        0 <= i < repositories.len() && 0 <= k < l < repositories[i].checkout_paths.len() ==> (
        repositories[i].checkout_paths[k].components() != repositories[i].checkout_paths[l].components()),
        0 <= i < j < repositories.len() && 0 <= k < repositories[i].checkout_paths.len() && 0 <= l
            < repositories[j].checkout_paths.len() ==> repositories[i].checkout_paths[k].components()
            != repositories[j].checkout_paths[l].components(),
{
    let problem = repository_problem(repositories);
    first_failures_are_failures(problem, 0, repositories.len());
    if 0 <= i < repositories.len() {
        assert(problem(i) is None);
        let own = checkout_problem(repositories, i);
        first_failures_are_failures(own, 0, repositories[i].checkout_paths.len());
        if 0 <= k < repositories[i].checkout_paths.len() {
            assert(own(k) is None);
        }
        if 0 <= k < l < repositories[i].checkout_paths.len() {
            assert(own(l) is None);
            let earlier = repositories[i].checkout_paths.take(l);
            assert(earlier[k].components() == repositories[i].checkout_paths[k].components());
        }
        if i < j < repositories.len() {
            assert(problem(j) is None);
            let ids = catalog_ids(repositories).take(j);
            assert(ids[i] == repositories[i].repository_id);
            if ids[i] == repositories[j].repository_id {
                assert(ids.contains(repositories[j].repository_id));
            }
            let others = checkout_problem(repositories, j);
            first_failures_are_failures(others, 0, repositories[j].checkout_paths.len());
            if 0 <= k < repositories[i].checkout_paths.len() && 0 <= l < repositories[j].checkout_paths.len() {
                let path = repositories[j].checkout_paths[l];
                assert(others(l) is None);
                owners_are_found(repositories, path, 0, j);
                if repositories[i].checkout_paths[k].components() == path.components() {
                    assert(has_path(repositories[i].checkout_paths, path));
                }
            }
        }
    }
}

proof fn owners_are_found(repositories: Seq<CatalogRepositorySpecView>, path: CheckoutPathView, from: int, count: int)
    requires
        0 <= from <= count <= repositories.len(),
    ensures
        first_owner(repositories, path, from, count) is None <==> forall|i: int|
            from <= i < count ==> !has_path((#[trigger] repositories[i]).checkout_paths, path),
    decreases count - from,
{
    if from < count {
        owners_are_found(repositories, path, from + 1, count);
    }
}

/// Normalizing a Catalog keeps every Repository, with every one of its checkouts, and orders both.
pub proof fn normalizing_keeps_everything(
    repositories: Seq<CatalogRepositorySpecView>,
    repository: CatalogRepositorySpecView,
)
    ensures
        ordered_catalog(repositories).len() == repositories.len(),
        with_ordered_paths(repository).repository_id == repository.repository_id,
        with_ordered_paths(repository).checkout_paths.to_multiset() == repository.checkout_paths.to_multiset(),
        crate::order::placed_in_order::<CheckoutPath>(with_ordered_paths(repository).checkout_paths),
        repositories.contains(repository) ==> ordered_catalog(repositories).contains(with_ordered_paths(repository)),
{
    let sorted = crate::order::stably_sorted::<CatalogRepositorySpec>(repositories);
    crate::order::sorting_keeps_items::<CatalogRepositorySpec>(repositories);
    crate::order::sorting_keeps_items::<CheckoutPath>(repository.checkout_paths);
    crate::order::sorting_orders_items::<CheckoutPath>(repository.checkout_paths);
    repositories.to_multiset_ensures();
    sorted.to_multiset_ensures();
    if repositories.contains(repository) {
        assert(repositories.to_multiset().contains(repository));
        assert(sorted.contains(repository));
        let k = choose|k: int| 0 <= k < sorted.len() && sorted[k] == repository;
        assert(ordered_catalog(repositories)[k] == with_ordered_paths(repository));
    }
}

/// A checkout is refused where it is a link or no directory; a missing one is only not available.
pub proof fn links_and_files_are_no_checkouts(state: CheckoutState)
    ensures
        state_problem(state) is Some <==> state is Symlink || state is NotADirectory,
        blames_input(state_problem(state)),
{
}

/// A Repository is registered under its own identity with its own locators, and is available exactly
/// where one of them is.
pub proof fn one_available_checkout_is_enough(repository: InspectedRepositoryView)
    ensures
        registered(repository).identity.repository_id == repository.repository_id,
        registered(repository).identity.canonical_name == repository.repository_id,
        registered(repository).locators == repository.locators,
        registered(repository).availability is Available <==> exists|i: int|
            0 <= i < repository.locators.len() && (#[trigger] repository.locators[i]).availability is Available,
        repository.locators.len() == 0 ==> registered(repository).availability is Unavailable,
{
    if any_available(repository.locators) {
        let i = choose|i: int|
            0 <= i < repository.locators.len() && (#[trigger] repository.locators[i]).availability
                == RepositoryAvailability::Available;
        assert(repository.locators[i].availability is Available);
    }
}

/// A report counts every locator, and of those the ones that are not available.
pub proof fn reports_count_locators(
    repositories: Seq<InspectedRepositoryView>,
    repository: InspectedRepositoryView,
    locators: Seq<LocalRepositoryLocatorView>,
    locator: LocalRepositoryLocatorView,
)
    ensures
        locator_total(Seq::empty()) == 0,
        unavailable_total(Seq::empty()) == 0,
        unavailable_count(Seq::empty()) == 0,
        unavailable_count(locators.push(locator)) == unavailable_count(locators) + (if locator.availability
            is Unavailable {
            1int
        } else {
            0int
        }),
        locator_total(repositories) + repository.locators.len() <= usize::MAX ==> locator_total(
            repositories.push(repository),
        ) == locator_total(repositories) + repository.locators.len(),
        unavailable_total(repositories) + unavailable_count(repository.locators) <= usize::MAX ==> unavailable_total(
            repositories.push(repository),
        ) == unavailable_total(repositories) + unavailable_count(repository.locators),
        registered_all(repositories.push(repository)) == registered_all(repositories).push(registered(repository)),
{
    assert(locators.push(locator).drop_last() =~= locators);
    assert(repositories.push(repository).drop_last() =~= repositories);
    assert(
        registered_all(repositories.push(repository)) =~= registered_all(repositories).push(registered(repository))
    );
}

/// The switch to write-ahead logging is tried again only while the database is busy, fewer than twenty
/// times, and while time is left.
pub proof fn only_busy_databases_are_retried(state: RetryState, busy: bool, remaining_millis: u64)
    ensures
        state.retries(busy, remaining_millis) <==> busy && state.attempt < 19 && remaining_millis > 0,
{
}

/// The failures of the database that another process causes are told by the lowest byte of their code.
pub proof fn contention_is_told_by_the_code(code: i32)
    ensures
        code == 5 ==> kind_of_code(Some(code)) is Busy,
        code == 6 ==> kind_of_code(Some(code)) is Locked,
        0 <= code < 256 && code != 5 && code != 6 ==> kind_of_code(Some(code)) is Other,
        kind_of_code(None) is Other,
        is_contention(SqliteFailureKind::Busy),
        is_contention(SqliteFailureKind::Locked),
        !is_contention(SqliteFailureKind::Other),
{
    let bits = code as u32;
    if 0 <= code < 256 {
        assert(bits & 0xff == bits) by (bit_vector)
            requires
                bits < 256,
        ;
    }
}

/// A lookup that another process locks out is busy; every other failure of storage is one of input and
/// output, and names what was done and what went wrong.
pub proof fn locked_lookups_are_busy(context: Seq<char>, kind: SqliteFailureKind, text: Seq<char>)
    ensures
        kind is Busy || kind is Locked <==> focus_failure(context, kind, text).kind == ErrorKind::MaintenanceBusy,
        kind is Other ==> focus_failure(context, kind, text) == storage_failure(context, text),
        storage_failure(context, text).kind == ErrorKind::Io,
        storage_failure(context, text).message == context + ": "@ + text,
{
}

/// A projection may be stored exactly where it is valid and its tree, where it names one, is not empty.
pub proof fn stored_projections_are_valid(
    projection: crate::resolver::EngineeringProjectionView,
    tree: Option<Seq<char>>,
)
    ensures
        rebuild_problem(projection, tree) is None <==> projection.problem() is None && (tree is Some ==> !blank(
            tree->Some_0,
        )),
{
}

/// A commit is read where history names one: hexadecimal digits, with white space around them or not.
pub proof fn commits_are_hexadecimal(output: Seq<char>)
    ensures
        commit_in(output) is Some <==> trimmed(output).len() > 0 && forall|i: int|
            0 <= i < trimmed(output).len() ==> 48 <= #[trigger] trimmed(output)[i] as u32 <= 57 || 65 <= trimmed(
                output,
            )[i] as u32 <= 70 || 97 <= trimmed(output)[i] as u32 <= 102,
        commit_in(output) matches Some(commit) ==> commit == trimmed(output),
{
    let commit = trimmed(output);
    if commit_in(output) is Some {
        assert forall|i: int| 0 <= i < commit.len() implies 48 <= #[trigger] commit[i] as u32 <= 57 || 65
            <= commit[i] as u32 <= 70 || 97 <= commit[i] as u32 <= 102 by {
            assert(crate::relocation::is_hex_digit(commit[i]));
        }
    }
    if forall|i: int|
        0 <= i < commit.len() ==> 48 <= #[trigger] commit[i] as u32 <= 57 || 65 <= commit[i] as u32 <= 70 || 97
            <= commit[i] as u32 <= 102 {
        assert forall|i: int| 0 <= i < commit.len() implies crate::relocation::is_hex_digit(#[trigger] commit[i]) by {
            assert(48 <= commit[i] as u32 <= 57 || 65 <= commit[i] as u32 <= 70 || 97 <= commit[i] as u32 <= 102);
        }
    }
}

/// A rename entry names where its path went; an entry of another path, and one that is no rename, does
/// not.
pub proof fn rename_entries_name_the_destination(score: Seq<char>, from: Seq<char>, to: Seq<char>, path: Seq<char>)
    requires
        lacks(score, '\t'),
        lacks(from, '\t'),
        lacks(to, '\t'),
    ensures
        score.len() > 0 && score[0] == 'R' && from == path ==> renamed_to(
            score + seq!['\t'] + from + seq!['\t'] + to,
            path,
        ) == Some(to),
        score.len() == 0 || score[0] != 'R' || from != path ==> renamed_to(
            score + seq!['\t'] + from + seq!['\t'] + to,
            path,
        ) is None,
{
    reveal_strlit("R");
    separators_end_pieces(score, '\t', from);
    separators_end_pieces(score + seq!['\t'] + from, '\t', to);
    separators_end_pieces(from, '\t', score);
    let fields = split_on(score + seq!['\t'] + from + seq!['\t'] + to, '\t');
    assert(fields =~= seq![score, from, to]);
    if score.len() > 0 && score[0] == 'R' {
        assert(score.take(1) =~= "R"@);
    } else if begins_with(score, "R"@) {
        assert(score.take(1)[0] == score[0]);
    }
}

/// A relocation names the path, the commit, and a destination that an entry names; it is there where
/// the entries of the path name exactly one.
pub proof fn relocations_are_stated_by_history(path: Seq<char>, commit: Seq<char>, output: Seq<char>)
    ensures
        relocation_in(path, commit, output) is Some <==> destinations_in(output, path).len() == 1,
        destinations_in(output, path).finite(),
        relocation_in(path, commit, output) matches Some(found) ==> found.from == path && found.commit == commit
            && exists|i: int|
            0 <= i < lines_of(output).len() && renamed_to(#[trigger] lines_of(output)[i], path) == Some(found.to),
{
    let lines = lines_of(output);
    let all = destinations_in(output, path);
    destinations_are_finite(lines, path);
    assert(all =~= destinations_among(lines, path));
    if all.len() == 1 {
        if all =~= Set::empty() {
            assert(all.len() == 0);
        }
        assert(all.contains(all.choose()));
    }
}

spec fn destinations_among(lines: Seq<Seq<char>>, path: Seq<char>) -> Set<Seq<char>> {
    Set::new(
        |to: Seq<char>| exists|i: int| 0 <= i < lines.len() && renamed_to(#[trigger] lines[i], path) == Some(to),
    )
}

proof fn destinations_are_finite(lines: Seq<Seq<char>>, path: Seq<char>)
    ensures
        destinations_among(lines, path).finite(),
    decreases lines.len(),
{
    let all = destinations_among(lines, path);
    if lines.len() == 0 {
        assert(all =~= Set::empty());
    } else {
        let shorter = lines.drop_last();
        let before = destinations_among(shorter, path);
        destinations_are_finite(shorter, path);
        let grown = match renamed_to(lines.last(), path) {
            Some(to) => before.insert(to),
            None => before,
        };
        assert forall|to: Seq<char>| all.contains(to) == grown.contains(to) by {
            if all.contains(to) {
                let i = choose|i: int| 0 <= i < lines.len() && renamed_to(#[trigger] lines[i], path) == Some(to);
                if i < shorter.len() {
                    assert(renamed_to(shorter[i], path) == Some(to));
                }
            }
            if before.contains(to) {
                let i = choose|i: int| 0 <= i < shorter.len() && renamed_to(#[trigger] shorter[i], path) == Some(to);
                assert(renamed_to(lines[i], path) == Some(to));
            }
            if renamed_to(lines.last(), path) == Some(to) {
                assert(renamed_to(lines[lines.len() - 1], path) == Some(to));
            }
        }
        assert(all =~= grown);
    }
}

/// Every accepted, eligible row with a statement is a hit of a completed lookup that has room for all;
/// a lookup that did not complete has none.
pub proof fn eligible_rows_are_hits(rows: Seq<FocusRowView>, limit: nat, at: int)
    requires
        0 <= at < rows.len(),
    ensures
        rows[at].status is Accepted && rows[at].automatic_injection_eligible && rows[at].statement is Some
            ==> hit_contexts(hits_among(rows)).contains(rows[at].context_id),
        hits_among(rows).len() <= limit ==> lookup_of(ArtifactFocusOutcome::Completed, rows, limit).hits == hits_among(
            rows,
        ),
        hits_among(rows).len() > limit ==> lookup_of(ArtifactFocusOutcome::Completed, rows, limit).hits == hits_among(
            rows,
        ).take(limit as int),
        lookup_of(ArtifactFocusOutcome::ProjectionAbsent, rows, limit).hits.len() == 0,
        lookup_of(ArtifactFocusOutcome::BudgetExceeded, rows, limit).hits.len() == 0,
        lookup_of(ArtifactFocusOutcome::Completed, rows, limit).outcome is Completed,
        lookup_of(ArtifactFocusOutcome::ProjectionAbsent, rows, limit).outcome is ProjectionAbsent,
        lookup_of(ArtifactFocusOutcome::BudgetExceeded, rows, limit).outcome is BudgetExceeded,
    decreases rows.len(),
{
    let shorter = rows.drop_last();
    let (before, all) = (hits_among(shorter), hits_among(rows));
    if at < shorter.len() {
        eligible_rows_are_hits(shorter, limit, at);
        let contexts = hit_contexts(before);
        if contexts.contains(rows[at].context_id) {
            let k = choose|k: int| 0 <= k < contexts.len() && contexts[k] == rows[at].context_id;
            assert(hit_contexts(all)[k] == rows[at].context_id);
        }
    } else if rows[at].status is Accepted && rows[at].automatic_injection_eligible && rows[at].statement is Some {
        if hit_contexts(before).contains(rows[at].context_id) {
            assert(all == before);
        } else {
            assert(hit_contexts(all)[before.len() as int] == rows[at].context_id);
        }
    }
}

/// A hit says what an eligible row of its Context says.
pub proof fn hits_say_what_their_row_says(rows: Seq<FocusRowView>, at: int)
    requires
        0 <= at < hits_among(rows).len(),
    ensures
        exists|k: int|
            0 <= k < rows.len() && (#[trigger] rows[k]).context_id == hits_among(rows)[at].context_id
                && rows[k].statement == Some(hits_among(rows)[at].statement) && rows[k].status is Accepted
                && rows[k].automatic_injection_eligible,
    decreases rows.len(),
{
    let shorter = rows.drop_last();
    let before = hits_among(shorter);
    if rows.len() > 0 {
        if at < before.len() {
            hits_say_what_their_row_says(shorter, at);
            let k = choose|k: int|
                0 <= k < shorter.len() && (#[trigger] shorter[k]).context_id == before[at].context_id
                    && shorter[k].statement == Some(before[at].statement) && shorter[k].status is Accepted
                    && shorter[k].automatic_injection_eligible;
            assert(rows[k].context_id == hits_among(rows)[at].context_id);
        } else {
            assert(rows[rows.len() - 1].context_id == hits_among(rows)[at].context_id);
        }
    }
}

} // verus!
