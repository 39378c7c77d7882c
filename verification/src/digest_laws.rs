//! What holds of the order of texts and lists, of identities drawn from a digest, and of what the
//! digested generations and fingerprints cover.

use vstd::prelude::*;

use crate::digest::{big_endian_number, framed_all, is_version_4, sha256_hex, sha256_of, stable_uuid};
use crate::graph_contexts::{
    GraphContextSnapshot, GraphContextSnapshotView, ProjectedEngineeringReference, ProjectedEngineeringReferenceView,
};
use crate::ids::Identifier;
use crate::json::Json;
use crate::lexical::concatenated;
use crate::order::{list_below, text_below, Ordered};
use crate::projection_laws::parts_are_in_the_whole;
use crate::registry::{
    checkout_components, fingerprint_components, fingerprint_of, repository_components, state_signature, CheckoutState,
    ObservedRepositoryView,
};
use crate::resolver::{
    context_components, ordered_ids, outcome_component, outcome_components, outcome_for, projection_generation_of,
    reference_components, resolved_component, resolved_components, ResolvedReferenceProjectionView,
    RESOLVER_POLICY_VERSION,
};
use crate::snapshot::{
    generation_components, generation_of, version_digest_of, RepositoryScanOutcomeView, SourceFileView,
};
use crate::sources::{ScanCoverageView, SkippedFileView, POLICY_VERSION};

verus! {

/// Two texts are ordered as the first characters in which they differ; a text comes before its
/// continuations.
pub proof fn texts_are_ordered_at_their_first_difference(left: Seq<char>, right: Seq<char>, at: int)
    requires
        0 <= at <= left.len(),
        at <= right.len(),
        forall|i: int| 0 <= i < at ==> left[i] == right[i],
        at < left.len() && at < right.len() ==> left[at] != right[at],
    ensures
        text_below(left, right) <==> at < right.len() && (at == left.len() || (left[at] as u32) < (right[at] as u32)),
    decreases at,
{
    if at > 0 {
        let (l, r) = (left.skip(1), right.skip(1));
        assert forall|i: int| 0 <= i < at - 1 implies l[i] == r[i] by {
            assert(left[i + 1] == right[i + 1]);
        }
        texts_are_ordered_at_their_first_difference(l, r, at - 1);
    }
}

/// Two lists are ordered as the first items in which they differ; a list comes before its
/// continuations.
pub proof fn lists_are_ordered_at_their_first_difference<T: Ordered>(left: Seq<T::V>, right: Seq<T::V>, at: int)
    requires
        0 <= at <= left.len(),
        at <= right.len(),
        forall|i: int| 0 <= i < at ==> left[i] == right[i],
        at < left.len() && at < right.len() ==> left[at] != right[at],
    ensures
        list_below::<T>(left, right) <==> at < right.len() && (at == left.len() || T::below(left[at], right[at])),
    decreases at,
{
    if at > 0 {
        let (l, r) = (left.skip(1), right.skip(1));
        assert forall|i: int| 0 <= i < at - 1 implies l[i] == r[i] by {
            assert(left[i + 1] == right[i + 1]);
        }
        lists_are_ordered_at_their_first_difference::<T>(l, r, at - 1);
    }
}

/// A number of up to sixteen bytes grows by the byte behind it as a number to the base 256 does.
pub proof fn bytes_are_digits_of_a_number(bytes: Seq<u8>, byte: u8)
    requires
        big_endian_number(bytes) < 0x0100_0000_0000_0000_0000_0000_0000_0000u128,
    ensures
        big_endian_number(bytes.push(byte)) == big_endian_number(bytes) * 256 + byte,
        big_endian_number(Seq::<u8>::empty()) == 0,
{
    let number = big_endian_number(bytes);
    assert(bytes.push(byte).drop_last() =~= bytes);
    let wide = byte as u128;
    assert((number << 8) | wide == number * 256 + wide) by (bit_vector)
        requires
            number < 0x0100_0000_0000_0000_0000_0000_0000_0000u128,
            wide < 256,
    ;
}

/// An identity drawn from a seed is a version 4 UUID whose other bits are those of the digest.
pub proof fn drawn_identities_keep_the_digest(seed: Seq<u8>)
    ensures
        is_version_4(stable_uuid(seed)),
        stable_uuid(seed) >> 80 == big_endian_number(sha256_of(seed).take(16)) >> 80,
        stable_uuid(seed) & 0x3fff_ffff_ffff_ffffu128 == big_endian_number(sha256_of(seed).take(16))
            & 0x3fff_ffff_ffff_ffffu128,
        (stable_uuid(seed) >> 64) & 0xfffu128 == (big_endian_number(sha256_of(seed).take(16)) >> 64) & 0xfffu128,
{
    let number = big_endian_number(sha256_of(seed).take(16));
    let marked = stable_uuid(seed);
    assert((marked >> 76) & 0xf == 4 && (marked >> 62) & 0x3 == 2 && marked >> 80 == number >> 80 && marked
        & 0x3fff_ffff_ffff_ffffu128 == number & 0x3fff_ffff_ffff_ffffu128 && (marked >> 64) & 0xfffu128 == (number
        >> 64) & 0xfffu128) by (bit_vector)
        requires
            marked == (number & 0xffff_ffff_ffff_0fff_3fff_ffff_ffff_ffffu128)
                | 0x0000_0000_0000_4000_8000_0000_0000_0000u128,
    ;
}

/// A checkout's state is digested by its own word.
pub proof fn states_are_digested_by_name()
    ensures
        state_signature(CheckoutState::Missing) == "missing"@,
        state_signature(CheckoutState::Symlink) == "symlink"@,
        state_signature(CheckoutState::NotADirectory) == "not-a-directory"@,
        state_signature(CheckoutState::Directory) == "directory"@,
        state_signature(CheckoutState::WorktreeRoot) == "worktree-root"@,
{
}

/// The fingerprint of a catalog is the digest, behind `cat_`, of parts that begin with the version of
/// the fingerprint and hold every Repository, and every checkout's path and state.
pub proof fn fingerprints_digest_every_checkout(repositories: Seq<ObservedRepositoryView>, at: int, checkout: int) -> (
    parts: Seq<Seq<char>>)
    requires
        0 <= at < repositories.len(),
    ensures
        fingerprint_of(repositories) == "cat_"@ + sha256_hex(framed_all(parts)),
        parts[0] == "catalog-fingerprint-v1"@,
        parts.contains(repositories[at].repository_id),
        0 <= checkout < repositories[at].checkouts.len() ==> parts.contains(
            repositories[at].checkouts[checkout].path.text,
        ) && parts.contains(state_signature(repositories[at].checkouts[checkout].state)),
{
    let parts = fingerprint_components(repositories);
    let of_repositories = |i: int| repository_components(repositories[i]);
    let all = concatenated(of_repositories, repositories.len());
    let own = repository_components(repositories[at]);
    assert forall|item: Seq<char>| #[trigger] own.contains(item) implies parts.contains(item) by {
        assert(of_repositories(at) == own);
        parts_are_in_the_whole(of_repositories, repositories.len(), at, item);
        let k = choose|k: int| 0 <= k < all.len() && all[k] == item;
        assert(parts[k + 1] == item);
    }
    assert(own[0] == repositories[at].repository_id);
    assert(own.contains(own[0]));
    if 0 <= checkout < repositories[at].checkouts.len() {
        let checkouts = repositories[at].checkouts;
        let of_checkouts = |i: int| seq![checkouts[i].path.text, state_signature(checkouts[i].state)];
        let inner = concatenated(of_checkouts, checkouts.len());
        assert(inner == checkout_components(checkouts));
        let pair = of_checkouts(checkout);
        assert(pair.contains(pair[0]) && pair.contains(pair[1]));
        parts_are_in_the_whole(of_checkouts, checkouts.len(), checkout, pair[0]);
        parts_are_in_the_whole(of_checkouts, checkouts.len(), checkout, pair[1]);
        let a = choose|k: int| 0 <= k < inner.len() && inner[k] == pair[0];
        let b = choose|k: int| 0 <= k < inner.len() && inner[k] == pair[1];
        assert(own[a + 1] == pair[0] && own[b + 1] == pair[1]);
        assert(own.contains(pair[0]) && own.contains(pair[1]));
    }
    parts
}

/// The version of a source is the digest of its bytes behind `version:`.
pub proof fn versions_are_digests(bytes: Seq<u8>)
    ensures
        version_digest_of(bytes) == "version:"@ + sha256_hex(bytes),
{
}

/// The generation of a snapshot is the digest, behind `snap_`, of parts that begin with the policy, the
/// Repository, its tree and the coverage, and hold every planned path and, of a scan that stopped,
/// every path it covered.
pub proof fn snapshot_generations_digest_the_plan(
    repository_id: Seq<char>,
    head_tree_oid: Seq<char>,
    planned: Seq<Seq<char>>,
    coverage: ScanCoverageView,
    sources: Seq<SourceFileView>,
    skipped: Seq<SkippedFileView>,
    at: int,
) -> (parts: Seq<Seq<char>>)
    ensures
        generation_of(repository_id, head_tree_oid, planned, coverage, sources, skipped) == "snap_"@ + sha256_hex(
            framed_all(parts),
        ),
        parts.len() >= 4,
        parts[0] == POLICY_VERSION@,
        parts[1] == repository_id,
        parts[2] == head_tree_oid,
        parts[3] == coverage.tag(),
        0 <= at < planned.len() ==> parts[4 + at] == planned[at],
        coverage matches ScanCoverageView::Partial { covered, unfinished: _ } ==> (0 <= at < covered.len()
            ==> parts[4 + planned.len() + at] == covered[at]),
{
    generation_components(repository_id, head_tree_oid, planned, coverage, sources, skipped)
}

/// The generation of a projection is the digest, behind `eng_`, of parts that begin with the policy and
/// hold every Reference as it is written, every snapshot as it is written, every Repository that was
/// scanned with what came of it, and what every Reference resolved to.
pub proof fn projection_generations_digest_every_input(
    references: Seq<ProjectedEngineeringReferenceView>,
    outcomes: Seq<RepositoryScanOutcomeView>,
    contexts: Seq<GraphContextSnapshotView>,
    resolved: Seq<ResolvedReferenceProjectionView>,
    at: int,
    inner: int,
) -> (parts: Seq<Seq<char>>)
    ensures
        projection_generation_of(references, outcomes, contexts, resolved) == "eng_"@ + sha256_hex(framed_all(parts)),
        parts.len() > 0,
        parts[0] == RESOLVER_POLICY_VERSION@,
        0 <= at < references.len() ==> parts.contains(<ProjectedEngineeringReference as Json>::json(references[at]))
            && parts.contains(references[at].reference.reference_id.text()),
        0 <= at < contexts.len() ==> parts.contains(<GraphContextSnapshot as Json>::json(contexts[at])),
        0 <= at < ordered_ids(outcomes).len() ==> parts.contains(ordered_ids(outcomes)[at]) && (outcome_for(
            outcomes,
            ordered_ids(outcomes)[at],
            0,
        ) matches Some(outcome) ==> parts.contains(outcome_component(outcome))),
        0 <= at < resolved.len() && 0 <= inner < resolved_component(resolved[at]).len() ==> parts.contains(
            resolved_component(resolved[at])[inner],
        ),
{
    let first = seq![RESOLVER_POLICY_VERSION@];
    let a = reference_components(references);
    let b = context_components(contexts);
    let c = outcome_components(outcomes);
    let d = resolved_components(resolved);
    let parts = first + a + b + c + d;
    assert(parts[0] == first[0]);
    if 0 <= at < references.len() {
        references_are_digested(references, at);
        lists_are_in_the_whole(first, a, b, c, d, <ProjectedEngineeringReference as Json>::json(references[at]));
        lists_are_in_the_whole(first, a, b, c, d, references[at].reference.reference_id.text());
    }
    if 0 <= at < contexts.len() {
        assert(b.contains(b[at]));
        lists_are_in_the_whole(first, a, b, c, d, b[at]);
    }
    if 0 <= at < ordered_ids(outcomes).len() {
        let id = ordered_ids(outcomes)[at];
        outcomes_are_digested(outcomes, at);
        lists_are_in_the_whole(first, a, b, c, d, id);
        if let Some(outcome) = outcome_for(outcomes, id, 0) {
            lists_are_in_the_whole(first, a, b, c, d, outcome_component(outcome));
        }
    }
    if 0 <= at < resolved.len() && 0 <= inner < resolved_component(resolved[at]).len() {
        let of = |i: int| resolved_component(resolved[i]);
        let own = of(at);
        assert(own.contains(own[inner]));
        parts_are_in_the_whole(of, resolved.len(), at, own[inner]);
        assert(concatenated(of, resolved.len()) == d);
        lists_are_in_the_whole(first, a, b, c, d, own[inner]);
    }
    parts
}

proof fn references_are_digested(references: Seq<ProjectedEngineeringReferenceView>, at: int)
    requires
        0 <= at < references.len(),
    ensures
        reference_components(references).contains(<ProjectedEngineeringReference as Json>::json(references[at])),
        reference_components(references).contains(references[at].reference.reference_id.text()),
{
    let of = |i: int|
        seq![
            references[i].reference.reference_id.text(),
            <ProjectedEngineeringReference as Json>::json(references[i]),
        ];
    let own = of(at);
    assert(own.contains(own[0]) && own.contains(own[1]));
    parts_are_in_the_whole(of, references.len(), at, own[0]);
    parts_are_in_the_whole(of, references.len(), at, own[1]);
    assert(concatenated(of, references.len()) == reference_components(references));
}

proof fn outcomes_are_digested(outcomes: Seq<RepositoryScanOutcomeView>, at: int)
    requires
        0 <= at < ordered_ids(outcomes).len(),
    ensures
        outcome_components(outcomes).contains(ordered_ids(outcomes)[at]),
        outcome_for(outcomes, ordered_ids(outcomes)[at], 0) matches Some(outcome) ==> outcome_components(
            outcomes,
        ).contains(outcome_component(outcome)),
{
    let ids = ordered_ids(outcomes);
    let of = |i: int|
        seq![
            ids[i],
            match outcome_for(outcomes, ids[i], 0) {
                Some(outcome) => outcome_component(outcome),
                None => ""@,
            },
        ];
    let own = of(at);
    assert(own.contains(own[0]) && own.contains(own[1]));
    parts_are_in_the_whole(of, ids.len(), at, own[0]);
    parts_are_in_the_whole(of, ids.len(), at, own[1]);
    assert(concatenated(of, ids.len()) == outcome_components(outcomes));
}

proof fn lists_are_in_the_whole<T>(first: Seq<T>, a: Seq<T>, b: Seq<T>, c: Seq<T>, d: Seq<T>, item: T)
    requires
        a.contains(item) || b.contains(item) || c.contains(item) || d.contains(item),
    ensures
        (first + a + b + c + d).contains(item),
{
    let whole = first + a + b + c + d;
    if a.contains(item) {
        let k = choose|k: int| 0 <= k < a.len() && a[k] == item;
        assert(whole[first.len() + k] == item);
    } else if b.contains(item) {
        let k = choose|k: int| 0 <= k < b.len() && b[k] == item;
        assert(whole[first.len() + a.len() + k] == item);
    } else if c.contains(item) {
        let k = choose|k: int| 0 <= k < c.len() && c[k] == item;
        assert(whole[first.len() + a.len() + b.len() + k] == item);
    } else {
        let k = choose|k: int| 0 <= k < d.len() && d[k] == item;
        assert(whole[first.len() + a.len() + b.len() + c.len() + k] == item);
    }
}

} // verus!
