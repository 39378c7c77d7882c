//! What holds of what the library is handed: paths for one call of git, sources that were read, and
//! the projection that snapshots are built of.

use vstd::prelude::*;
use vstd::utf8::encode_utf8;

use crate::confirmation::{CandidateConfirmationInputsView, CandidateConfirmationPlanIdentitiesView};
use crate::digest::sha256_hex;
use crate::engineering::RepositoryIdentityView;
use crate::episode::WorkEpisodeView;
use crate::graph_build::{build_problem, owner_of, root_problem, Spaces};
use crate::graph_contexts::ProjectedEngineeringReferenceView;
use crate::json::Json;
use crate::model_laws::first_failures_are_failures;
use crate::registry::{count_read, missing_locator, top_level_problem, CheckoutPathView, CheckoutState};
use crate::snapshot::{
    absent_checkout, artifact_of, finding_problem, findings_of, is_source_of, reused, scan_problem, source_problem,
    sources_problem, RepositoryScanOutcomeView, RepositorySnapshotView, SourceFileView,
};
use crate::sources::{
    argument_bytes, call_timeout, held_after, is_capped_by, language_of, rejoined, splits_greedily, stem_of,
    supplied_by, ArtifactSourceState, RepositoryScanPlanView,
};
use crate::storage::{
    projection_schema_problem, registry_schema_problem, schema_step, signed_decimal, storage_failure, RetryState,
};
use crate::text::decimal;
use crate::text_laws::{lacks, last_occurrences_part_the_text};
use crate::working_intent::{CanonicalWorkingIntent, WorkingIntentSnapshotView};

verus! {

/// A path takes its bytes and the one that ends it, and paths take what each of them takes.
pub proof fn arguments_are_ended_by_a_byte(paths: Seq<Seq<char>>, path: Seq<char>)
    ensures
        argument_bytes(Seq::<Seq<char>>::empty()) == 0,
        argument_bytes(paths.push(path)) == argument_bytes(paths) + encode_utf8(path).len() + 1,
        argument_bytes(seq![path]) == encode_utf8(path).len() + 1,
{
    assert(paths.push(path).drop_last() =~= paths);
    assert(seq![path].drop_last() =~= Seq::<Seq<char>>::empty());
    assert(argument_bytes(Seq::<Seq<char>>::empty()) == 0);
}

/// Paths are split into calls that hold them all in their order; no call is empty, only a path by
/// itself is longer than 98,304 bytes, and no call could take the first path of the next one.
pub proof fn calls_take_as_many_paths_as_fit(batches: Seq<Seq<Seq<char>>>, paths: Seq<Seq<char>>, at: int)
    requires
        splits_greedily(batches, paths),
        0 <= at < batches.len(),
    ensures
        batches[at].len() > 0,
        batches[at].len() == 1 || argument_bytes(batches[at]) <= 98_304,
        at + 1 < batches.len() ==> argument_bytes(batches[at].push(batches[at + 1][0])) > 98_304,
        forall|i: int| 0 <= i < batches[at].len() ==> paths.contains(#[trigger] batches[at][i]),
{
    if at + 1 < batches.len() {
        arguments_are_ended_by_a_byte(batches[at], batches[at + 1][0]);
    }
    assert forall|i: int| 0 <= i < batches[at].len() implies paths.contains(#[trigger] batches[at][i]) by {
        calls_are_rejoined(batches, at, i);
    }
}

proof fn calls_are_rejoined(batches: Seq<Seq<Seq<char>>>, at: int, i: int)
    requires
        0 <= at < batches.len(),
        0 <= i < batches[at].len(),
    ensures
        rejoined(batches).contains(batches[at][i]),
    decreases batches.len(),
{
    let before = rejoined(batches.drop_last());
    let whole = rejoined(batches);
    if at < batches.len() - 1 {
        calls_are_rejoined(batches.drop_last(), at, i);
        let k = choose|k: int| 0 <= k < before.len() && before[k] == batches[at][i];
        assert(whole[k] == batches[at][i]);
    } else {
        assert(whole[before.len() + i] == batches[at][i]);
    }
}

/// Every path that is split is in one of the calls.
pub proof fn no_path_is_left_out(
    batches: Seq<Seq<Seq<char>>>,
    paths: Seq<Seq<char>>,
    place: int,
) -> (found: (int, int))
    requires
        splits_greedily(batches, paths),
        0 <= place < paths.len(),
    ensures
        0 <= found.0 < batches.len(),
        0 <= found.1 < batches[found.0].len(),
        batches[found.0][found.1] == paths[place],
{
    rejoined_paths_are_called(batches, place)
}

proof fn rejoined_paths_are_called(batches: Seq<Seq<Seq<char>>>, place: int) -> (found: (int, int))
    requires
        0 <= place < rejoined(batches).len(),
    ensures
        0 <= found.0 < batches.len(),
        0 <= found.1 < batches[found.0].len(),
        batches[found.0][found.1] == rejoined(batches)[place],
    decreases batches.len(),
{
    let before = rejoined(batches.drop_last());
    if place < before.len() {
        rejoined_paths_are_called(batches.drop_last(), place)
    } else {
        (batches.len() - 1, place - before.len())
    }
}

/// A source that was read has the path, the bytes and the state that it was read with, the language of
/// its path, and the digest of its bytes for its version.
pub proof fn sources_are_what_was_read(
    source: SourceFileView,
    path: Seq<char>,
    bytes: Seq<u8>,
    source_state: ArtifactSourceState,
)
    requires
        is_source_of(source, path, bytes, source_state),
    ensures
        source.path == path,
        source.source_state == source_state,
        source.size == bytes.len(),
        encode_utf8(source.text) == bytes,
        source.version_digest == "version:"@ + sha256_hex(bytes),
        language_of(path) == Some(source.language),
{
}

/// The stem of a path is its name without the extension: a dot that the name begins with starts no
/// extension.
pub proof fn stems_have_no_extension(directory: Seq<char>, name: Seq<char>, extension: Seq<char>)
    requires
        lacks(name, '/'),
        lacks(extension, '/'),
        lacks(extension, '.'),
        name.len() > 0,
    ensures
        stem_of(name + seq!['.'] + extension) == name,
        stem_of(directory + seq!['/'] + (name + seq!['.'] + extension)) == name,
        stem_of(seq!['.'] + extension) == seq!['.'] + extension,
        stem_of(extension) == extension,
        stem_of(directory + seq!['/'] + extension) == extension,
{
    let full = name + seq!['.'] + extension;
    assert forall|k: int| 0 <= k < full.len() implies full[k] != '/' by {
        if k < name.len() {
            assert(name[k] != '/');
        } else if k > name.len() {
            assert(extension[k - name.len() - 1] != '/');
        }
    }
    let hidden = Seq::<char>::empty() + seq!['.'] + extension;
    assert(hidden =~= seq!['.'] + extension);
    assert forall|k: int| 0 <= k < hidden.len() implies hidden[k] != '/' by {
        if k > 0 {
            assert(extension[k - 1] != '/');
        }
    }
    last_occurrences_part_the_text(directory, '/', full);
    last_occurrences_part_the_text(directory, '/', extension);
    last_occurrences_part_the_text(directory, '/', hidden);
    last_occurrences_part_the_text(name, '.', extension);
    last_occurrences_part_the_text(Seq::empty(), '.', extension);
    assert(full.take(name.len() as int) =~= name);
}

/// A source is accepted only where everything found in it can be located and recorded.
pub proof fn accepted_sources_have_valid_findings(
    repository: RepositoryIdentityView,
    sources: Seq<SourceFileView>,
    at: int,
    inner: int,
)
    requires
        sources_problem(repository, sources) is None,
        0 <= at < sources.len(),
        0 <= inner < findings_of(sources[at]).len(),
    ensures
        findings_of(sources[at])[inner].locator.problem() is None,
        artifact_of(repository, findings_of(sources[at])[inner]).problem() is None,
{
    let problems = |i: int| source_problem(repository, sources[i]);
    first_failures_are_failures(problems, 0, sources.len());
    assert(problems(at) is None);
    let findings = findings_of(sources[at]);
    let problem = |i: int| finding_problem(repository, findings[i]);
    first_failures_are_failures(problem, 0, findings.len());
    assert(problem(inner) is None);
}

/// A Repository whose checkout is not there is unavailable, and says so.
pub proof fn absent_checkouts_are_unavailable(repository_id: Seq<char>)
    ensures
        absent_checkout(repository_id) == (RepositoryScanOutcomeView::Unavailable {
            repository_id,
            reason: "Repository checkout is unavailable"@,
        }),
{
}

/// A scan begins exactly with a valid Repository and a plan of the same Repository.
pub proof fn scans_follow_their_own_plan(repository: RepositoryIdentityView, plan: RepositoryScanPlanView)
    ensures
        scan_problem(repository, plan) is None <==> repository.problem() is None && plan.repository_id
            == repository.repository_id,
{
}

/// A new version of an Episode changes nothing but the version.
pub proof fn versions_change_nothing_else(episode: WorkEpisodeView, version: u64)
    ensures
        episode.at_version(version).version == version,
        episode.at_version(version).at_version(episode.version) == episode,
{
}

/// Snapshots are built only where every Reference has its Context, and the Context its revision.
pub proof fn granted_builds_have_their_revisions(
    spaces: Spaces,
    references: Seq<ProjectedEngineeringReferenceView>,
    at: int,
)
    requires
        build_problem(spaces, references) is None,
        0 <= at < references.len(),
    ensures
        owner_of(spaces, references[at].context_id) is Some,
        owner_of(spaces, references[at].context_id)->Some_0.2.revisions.contains_key(references[at].revision_id),
{
    let problem = |i: int| root_problem(spaces, references[i]);
    first_failures_are_failures(problem, 0, references.len());
    assert(problem(at) is None);
}

/// A plan is reserved exactly where the inputs, the association, every opening, the confirmation and the
/// plan itself are valid.
pub proof fn reserved_plans_are_valid(
    inputs: CandidateConfirmationInputsView,
    ids: CandidateConfirmationPlanIdentitiesView,
    at: int,
)
    requires
        inputs.reservation_problem(ids) is None,
    ensures
        inputs.problem() is None,
        inputs.association(ids).problem() is None,
        inputs.confirmation(ids).problem() is None,
        inputs.plan(ids).problem() is None,
        0 <= at < inputs.conflict_openings.len() ==> inputs.opening_problem(ids)(at) is None,
{
    let problem = inputs.opening_problem(ids);
    first_failures_are_failures(problem, 0, inputs.conflict_openings.len());
    if 0 <= at < inputs.conflict_openings.len() {
        assert(problem(at) is None);
    }
}

/// Equal contents have equal hashes, and every hash is a digest behind `sha256:`.
pub proof fn contents_are_hashed(left: WorkingIntentSnapshotView, right: WorkingIntentSnapshotView)
    ensures
        left.semantic_hash() == "sha256:"@ + sha256_hex(
            encode_utf8(<CanonicalWorkingIntent as Json>::json(left.canonical())),
        ),
        left.canonical() == right.canonical() ==> left.semantic_hash() == right.semantic_hash(),
{
}

/// A number below zero is written as a dash and its distance from zero.
pub proof fn signed_numbers_have_a_sign(number: i64)
    ensures
        number >= 0 ==> signed_decimal(number) == decimal(number as nat),
        number < 0 ==> signed_decimal(number) == "-"@ + decimal((0 - number) as nat),
{
}

/// What goes wrong in storage is told with what was being done and why it failed.
pub proof fn storage_failures_say_what_was_done(context: Seq<char>, text: Seq<char>)
    ensures
        storage_failure(context, text).kind is Io,
        storage_failure(context, text).message == context + ": "@ + text,
{
}

/// A call of git has what remains of its budget, but at least 250 and at most 30,000 milliseconds; more
/// time left never makes it shorter.
pub proof fn calls_have_what_remains(remaining: u64, more: u64)
    ensures
        call_timeout(None) == 30_000,
        250 <= call_timeout(Some(remaining)) <= 30_000,
        250 <= remaining <= 30_000 ==> call_timeout(Some(remaining)) == remaining,
        remaining <= more ==> call_timeout(Some(remaining)) <= call_timeout(Some(more)),
{
}

/// A stream holds the beginning of what it was given, as much of it as its ceiling allows, and is capped
/// exactly where something was left out.
pub proof fn streams_hold_what_fits(held: Seq<u8>, chunk: Seq<u8>, limit: nat, at: int)
    requires
        held.len() <= limit,
    ensures
        held_after(held, chunk, limit).len() <= limit,
        is_capped_by(held, chunk, limit) ==> held_after(held, chunk, limit).len() == limit,
        !is_capped_by(held, chunk, limit) <==> held_after(held, chunk, limit).len() == held.len() + chunk.len(),
        0 <= at < held_after(held, chunk, limit).len() ==> held_after(held, chunk, limit)[at] == (held + chunk)[at],
{
}

/// A path comes from the working tree exactly where it is modified.
pub proof fn modified_paths_come_from_the_working_tree(modified: Set<Seq<char>>, relative: Seq<char>)
    ensures
        supplied_by(modified, relative) is TrackedWorkingModification <==> modified.contains(relative),
        supplied_by(modified, relative) is TrackedHead <==> !modified.contains(relative),
{
}

/// A database of version 4 is current and an empty one is created; a Registry of version 3 is upgraded,
/// and every other version is refused.
pub proof fn schemas_are_current_created_or_refused(version: i64)
    ensures
        schema_step(version) is Current <==> version == 4,
        schema_step(version) is Create <==> version != 4,
        registry_schema_problem(version) is None <==> version == 0 || version == 3 || version == 4,
        projection_schema_problem(version) is None <==> version == 0 || version == 4,
{
}

/// Pauses double from one failure to the next, up to 250 milliseconds, and none outlasts the time that
/// remains.
pub proof fn pauses_double_up_to_a_limit(state: RetryState, remaining_millis: u64)
    requires
        state.backoff_millis <= 250,
    ensures
        state.next_backoff() <= 250,
        state.backoff_millis <= 125 ==> state.next_backoff() == 2 * state.backoff_millis,
        state.backoff_millis >= 125 ==> state.next_backoff() == 250,
        state.pause(remaining_millis) <= remaining_millis,
        state.pause(remaining_millis) <= state.backoff_millis,
        state.pause(remaining_millis) == remaining_millis || state.pause(remaining_millis) == state.backoff_millis,
{
}

/// A configured checkout that is missing has an unavailable locator at its path; any other state leaves the
/// locator to be found out.
pub proof fn missing_checkouts_are_unavailable(path: CheckoutPathView, state: CheckoutState)
    ensures
        missing_locator(path, state) is Some <==> state is Missing,
        missing_locator(path, state) matches Some(locator) ==> locator.checkout_path == path && locator.availability
            is Unavailable,
{
}

/// A checkout is taken only where git reports it as the top level of its own worktree.
pub proof fn checkouts_are_their_own_top_level(canonical: CheckoutPathView, top: CheckoutPathView)
    ensures
        top_level_problem(canonical, None) is Some,
        top_level_problem(canonical, Some(canonical)) is None,
        top_level_problem(canonical, Some(top)) is None <==> top.components() == canonical.components(),
{
}

/// A count that was stored reads back as it was, and nothing below zero is a count.
pub proof fn counts_read_back(count: usize, value: i64)
    ensures
        count <= i64::MAX ==> count_read(count as i64) == count,
        value < 0 ==> count_read(value) == 0,
{
}

/// A scan of the same generation gives back the prior snapshot, and any other outcome stays as it is.
pub proof fn same_generations_are_reused(
    previous: RepositorySnapshotView,
    current: RepositorySnapshotView,
    repository_id: Seq<char>,
    reason: Seq<char>,
)
    ensures
        current.generation == previous.generation ==> reused(previous, RepositoryScanOutcomeView::Available(current))
            == RepositoryScanOutcomeView::Available(previous),
        current.generation != previous.generation ==> reused(previous, RepositoryScanOutcomeView::Available(current))
            == RepositoryScanOutcomeView::Available(current),
        reused(previous, RepositoryScanOutcomeView::Unavailable { repository_id, reason }) == (
        RepositoryScanOutcomeView::Unavailable { repository_id, reason }),
{
}

} // verus!
