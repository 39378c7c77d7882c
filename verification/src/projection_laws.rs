//! What holds of valid graph snapshots and engineering projections, and of what they are identified by.

use vstd::prelude::*;

use crate::checks::blank;
use crate::engineering::ResolutionStatus;
use crate::graph_contexts::{
    completeness, GraphContextRelation, GraphContextSafetyBlocker, GraphContextSnapshot, GraphContextSnapshotView,
    ProjectedEngineeringReferenceView,
};
use crate::ids::{Identifier, ReferenceId};
use crate::lexical::concatenated;
use crate::model_laws::first_failures_are_failures;
use crate::order::{ascending, Ordered, Placed};
use crate::resolver::{
    evidence_components, ids_of, incomplete_scan, incomplete_scans_of, is_fraction, is_target, keys_of_artifacts,
    ordered_ids, outcome_component, outcome_for, outcome_ids, places_of, projection_of, resolve_problem,
    resolved_component, status_text, step_problem, ContextPlace, EngineeringProjectionView, MatchBasis,
    ResolvedReferenceProjectionView,
};
use crate::snapshot::{RepositoryScanOutcomeView, RepositorySnapshotView};
use crate::sources::ScanCoverageView;

verus! {

/// A snapshot is valid exactly where its Space has a title, its revision is valid, its completeness is
/// that of the evidence, it is eligible exactly where it is accepted, complete and not blocked, it says
/// what blocks it, and its relations are in order, none twice.
pub proof fn valid_snapshots_are_consistent(snapshot: GraphContextSnapshotView)
    ensures
        snapshot.problem() is None <==> {
            let safe = snapshot.status is Accepted && completeness(snapshot.revision) == 1_000
                && snapshot.revision.evidence.len() > 0 && snapshot.safety.blockers == Set::<
                GraphContextSafetyBlocker,
            >::empty();
            &&& !blank(snapshot.space_title)
            &&& snapshot.revision.invalidity() is None
            &&& snapshot.evidence_completeness == completeness(snapshot.revision)
            &&& snapshot.safety.automatic_injection_eligible == safe
            &&& safe || snapshot.safety.blockers != Set::<GraphContextSafetyBlocker>::empty()
            &&& ascending::<GraphContextRelation>(snapshot.relations)
        },
{
}

/// A resolved Reference is valid only where its resolution is, of the same identity; it has an
/// association exactly where it is resolved, and with the same Context and Artifact; its confidences are
/// fractions, and its Artifacts are valid, different, and those of the resolution.
pub proof fn valid_resolved_references_are_consistent(resolved: ResolvedReferenceProjectionView, at: int, other: int)
    requires
        resolved.problem() is None,
    ensures
        resolved.resolution.problem() is None,
        resolved.reference_id == resolved.resolution.reference_id,
        resolved.resolution.status is Resolved ==> resolved.association is Some,
        resolved.association matches Some(association) ==> association.problem() is None && association.context_id
            == resolved.context_id && association.revision_id == resolved.revision_id
            && resolved.resolution.resolved_artifact == Some(association.artifact_key),
        0 <= at < resolved.evidence.len() ==> resolved.evidence[at].confidence_bits <= 0x3ff0_0000_0000_0000u64
            || resolved.evidence[at].confidence_bits == 0x8000_0000_0000_0000u64,
        0 <= at < resolved.artifacts.len() ==> resolved.artifacts[at].problem() is None,
        0 <= other < at < resolved.artifacts.len() ==> resolved.artifacts[other].artifact_key
            != resolved.artifacts[at].artifact_key,
        resolved.resolution.status is Missing || resolved.resolution.status is Unavailable ==> resolved.artifacts.len()
            == 0,
        resolved.resolution.status is Ambiguous && 0 <= at < resolved.resolution.candidates.len() ==> keys_of_artifacts(
            resolved.artifacts,
        ).contains(resolved.resolution.candidates[at]),
        resolved.resolution.status is Resolved ==> keys_of_artifacts(resolved.artifacts).contains(
            resolved.resolution.resolved_artifact->Some_0,
        ),
{
    let problem = resolved.artifact_problem();
    let keys = keys_of_artifacts(resolved.artifacts);
    let expected = resolved.expected_keys();
    first_failures_are_failures(problem, 0, resolved.artifacts.len());
    crate::artifact_laws::valid_resolutions_fit_their_status(resolved.resolution);
    assert(keys.to_set() == expected.to_set());
    if 0 <= at < resolved.evidence.len() {
        assert(!resolved.has_wild_confidence());
        assert(is_fraction(resolved.evidence[at].confidence_bits));
    }
    if 0 <= at < resolved.artifacts.len() {
        assert(problem(at) is None);
        if 0 <= other < at {
            assert(keys.take(at)[other] == resolved.artifacts[other].artifact_key);
        }
    }
    if resolved.resolution.status is Missing || resolved.resolution.status is Unavailable {
        if keys.len() > 0 {
            assert(keys.contains(keys[0]));
            assert(keys.to_set().contains(keys[0]));
            assert(expected.to_set().contains(keys[0]));
        }
    }
    if resolved.resolution.status is Ambiguous && 0 <= at < resolved.resolution.candidates.len() {
        assert(expected.contains(expected[at]));
        assert(expected.to_set().contains(expected[at]));
        assert(keys.to_set().contains(expected[at]));
    }
    if resolved.resolution.status is Resolved {
        assert(expected.contains(expected[0]));
        assert(expected.to_set().contains(expected[0]));
        assert(keys.to_set().contains(expected[0]));
    }
}

/// A valid projection is of this policy, has a generation that every Reference carries, holds valid
/// snapshots and References, none twice, in order, every relation leads to a snapshot that it holds, and
/// every Reference has the snapshot of its revision.
pub proof fn valid_projections_are_self_contained(projection: EngineeringProjectionView, at: int, other: int)
    requires
        projection.problem() is None,
    ensures
        !blank(projection.artifact_generation),
        0 <= at < projection.contexts.len() ==> projection.contexts[at].problem() is None,
        0 <= other < at < projection.contexts.len() ==> projection.contexts[other].context_id
            != projection.contexts[at].context_id || projection.contexts[other].revision.revision_id
            != projection.contexts[at].revision.revision_id,
        0 <= at < projection.contexts.len() && 0 <= other < projection.contexts[at].relations.len() ==> exists|k: int|
            0 <= k < projection.contexts.len() && (#[trigger] projection.contexts[k]).context_id
                == projection.contexts[at].relations[other].target_context_id
                && projection.contexts[k].revision.revision_id
                == projection.contexts[at].relations[other].target_revision_id && projection.contexts[k].space_id
                == projection.contexts[at].relations[other].target_space_id,
        0 <= at < projection.references.len() ==> projection.references[at].problem() is None
            && projection.references[at].artifact_generation == projection.artifact_generation && exists|k: int|
            0 <= k < projection.contexts.len() && (#[trigger] projection.contexts[k]).context_id
                == projection.references[at].context_id && projection.contexts[k].revision.revision_id
                == projection.references[at].revision_id,
        0 <= other < at < projection.references.len() ==> projection.references[other].reference_id
            != projection.references[at].reference_id,
        0 < at < projection.contexts.len() ==> !ContextPlace::below(
            <GraphContextSnapshot as Placed>::place(projection.contexts[at]),
            <GraphContextSnapshot as Placed>::place(projection.contexts[at - 1]),
        ),
        0 < at < projection.references.len() ==> !ReferenceId::below(
            projection.references[at].reference_id,
            projection.references[at - 1].reference_id,
        ),
{
    if 0 < at < projection.contexts.len() {
        let keys = places_of(projection.contexts);
        assert(keys[at - 1 + 1] == keys[at]);
        assert(!ContextPlace::below(keys[at], keys[at - 1]));
    }
    if 0 < at < projection.references.len() {
        let keys = ids_of(projection.references);
        assert(keys[at - 1 + 1] == keys[at]);
        assert(!ReferenceId::below(keys[at], keys[at - 1]));
    }
    let contexts = projection.context_problem();
    let references = projection.reference_problem();
    let places = places_of(projection.contexts);
    first_failures_are_failures(contexts, 0, projection.contexts.len());
    first_failures_are_failures(references, 0, projection.references.len());
    if 0 <= at < projection.contexts.len() {
        assert(contexts(at) is None);
        if 0 <= other < at {
            assert(places.take(at)[other] == <GraphContextSnapshot as Placed>::place(projection.contexts[other]));
        }
        if 0 <= other < projection.contexts[at].relations.len() {
            let relation = projection.contexts[at].relations[other];
            assert(!crate::resolver::has_loose_relation(projection.contexts, projection.contexts[at]));
            assert(crate::resolver::target_captured(projection.contexts, relation));
            let k = choose|k: int|
                0 <= k < projection.contexts.len() && is_target(#[trigger] projection.contexts[k], relation);
            assert(projection.contexts[k].context_id == relation.target_context_id);
        }
    }
    if 0 <= at < projection.references.len() {
        assert(references(at) is None);
        let place = ContextPlace {
            context_id: projection.references[at].context_id,
            revision_id: projection.references[at].revision_id,
        };
        assert(places.contains(place));
        let k = choose|k: int| 0 <= k < places.len() && places[k] == place;
        assert(projection.contexts[k].context_id == projection.references[at].context_id);
        if 0 <= other < at {
            let ids = ids_of(projection.references);
            assert(ids.take(at)[other] == projection.references[other].reference_id);
        }
    }
}

/// A scan that stopped is recorded with its Repository and generation, how many paths it read and how
/// many it did not; a whole scan and one that did not run are not.
pub proof fn only_stopped_scans_are_recorded(snapshot: RepositorySnapshotView, reason: Seq<char>)
    ensures
        snapshot.coverage is Complete ==> incomplete_scan(RepositoryScanOutcomeView::Available(snapshot)) is None,
        snapshot.coverage matches ScanCoverageView::Partial { covered, unfinished } ==> {
            let found = incomplete_scan(RepositoryScanOutcomeView::Available(snapshot));
            &&& found is Some
            &&& found->Some_0.repository_id == snapshot.repository_id
            &&& found->Some_0.repository_generation == snapshot.generation
            &&& found->Some_0.scanned_paths == covered.len() as usize
            &&& found->Some_0.unfinished_paths == unfinished.len() as usize
        },
        incomplete_scan(
            RepositoryScanOutcomeView::Unavailable { repository_id: snapshot.repository_id, reason },
        ) is None,
{
}

/// A resolution is refused where a snapshot is invalid, a Repository was scanned twice, or a Reference is
/// invalid or there twice.
pub proof fn granted_resolutions_have_valid_inputs(
    references: Seq<ProjectedEngineeringReferenceView>,
    outcomes: Seq<RepositoryScanOutcomeView>,
    contexts: Seq<GraphContextSnapshotView>,
)
    requires
        resolve_problem(references, outcomes, contexts) is None,
    ensures
        outcome_ids(outcomes).no_duplicates(),
        projection_of(references, outcomes, contexts).problem() is None,
        forall|i: int|
            0 <= i < references.len() ==> (#[trigger] references[i]).reference.draft().problem() is None,
        forall|i: int| 0 <= i < contexts.len() ==> (#[trigger] contexts[i]).problem() is None,
{
    let ordered = crate::order::stably_sorted::<crate::graph_contexts::ProjectedEngineeringReference>(references);
    let listed = crate::order::stably_sorted::<GraphContextSnapshot>(contexts);
    crate::order::sorting_keeps_items::<crate::graph_contexts::ProjectedEngineeringReference>(references);
    crate::order::sorting_keeps_items::<GraphContextSnapshot>(contexts);
    let steps = step_problem(ordered, outcomes);
    let problems = |i: int| listed[i].problem();
    first_failures_are_failures(steps, 0, ordered.len());
    first_failures_are_failures(problems, 0, listed.len());
    references.to_multiset_ensures();
    ordered.to_multiset_ensures();
    contexts.to_multiset_ensures();
    listed.to_multiset_ensures();
    assert forall|i: int| 0 <= i < references.len() implies (#[trigger] references[i]).reference.draft().problem()
        is None by {
        assert(references.contains(references[i]));
        assert(references.to_multiset().contains(references[i]));
        assert(ordered.contains(references[i]));
        let k = choose|k: int| 0 <= k < ordered.len() && ordered[k] == references[i];
        assert(steps(k) is None);
    }
    assert forall|i: int| 0 <= i < contexts.len() implies (#[trigger] contexts[i]).problem() is None by {
        assert(contexts.contains(contexts[i]));
        assert(contexts.to_multiset().contains(contexts[i]));
        assert(listed.contains(contexts[i]));
        let k = choose|k: int| 0 <= k < listed.len() && listed[k] == contexts[i];
        assert(problems(k) is None);
    }
}

/// The statuses and bases that a generation digests are told apart by their names.
pub proof fn digested_names_are_told_apart(status: ResolutionStatus, outcome: RepositoryScanOutcomeView)
    ensures
        status is Resolved ==> status_text(status) == "Resolved"@,
        status is Ambiguous ==> status_text(status) == "Ambiguous"@,
        status is Missing ==> status_text(status) == "Missing"@,
        status is Unavailable ==> status_text(status) == "Unavailable"@,
        outcome matches RepositoryScanOutcomeView::Available(snapshot) ==> outcome_component(outcome)
            == snapshot.generation,
        outcome matches RepositoryScanOutcomeView::Unavailable { repository_id: _, reason } ==> outcome_component(
            outcome,
        ) == reason,
        MatchBasis::ExactFilePath.name() == "ExactFilePath"@,
        MatchBasis::ExactModulePath.name() == "ExactModulePath"@,
        MatchBasis::ExactApiLocator.name() == "ExactApiLocator"@,
        MatchBasis::ExactSchemaLocator.name() == "ExactSchemaLocator"@,
        MatchBasis::ExactQualifiedSymbolLocator.name() == "ExactQualifiedSymbolLocator"@,
        MatchBasis::ExactQualifiedTestLocator.name() == "ExactQualifiedTestLocator"@,
        MatchBasis::RepositoryUnavailable.name() == "RepositoryUnavailable"@,
        MatchBasis::ExactFilePath.reason() == "exact repository-relative File path"@,
        MatchBasis::ExactModulePath.reason() == "exact repository-relative Module path"@,
        MatchBasis::ExactApiLocator.reason() == "exact protocol, operation, and route"@,
        MatchBasis::ExactSchemaLocator.reason() == "exact namespace, version, and qualified Schema"@,
        MatchBasis::ExactQualifiedSymbolLocator.reason() == "exact qualified Symbol signature"@,
        MatchBasis::ExactQualifiedTestLocator.reason() == "exact qualified Test name"@,
        MatchBasis::RepositoryUnavailable.reason() == "repository availability"@,
        MatchBasis::RepositoryUnavailable.confidence() == 0,
        MatchBasis::ExactFilePath.confidence() == 0x3ff0_0000_0000_0000u64,
        MatchBasis::ExactModulePath.confidence() == 0x3ff0_0000_0000_0000u64,
        MatchBasis::ExactApiLocator.confidence() == 0x3ff0_0000_0000_0000u64,
        MatchBasis::ExactSchemaLocator.confidence() == 0x3ff0_0000_0000_0000u64,
        MatchBasis::ExactQualifiedSymbolLocator.confidence() == 0x3ff0_0000_0000_0000u64,
        MatchBasis::ExactQualifiedTestLocator.confidence() == 0x3ff0_0000_0000_0000u64,
{
}

/// The generation of a projection digests every resolved Reference: its identity, its status, and of
/// every piece of evidence the Artifact and the basis.
pub proof fn generations_digest_every_resolution(resolved: ResolvedReferenceProjectionView, at: int)
    requires
        0 <= at < resolved.evidence.len(),
    ensures
        resolved_component(resolved)[0] == resolved.reference_id.text(),
        resolved_component(resolved)[1] == status_text(resolved.resolution.status),
        resolved_component(resolved).contains(resolved.evidence[at].basis.name()),
        resolved.evidence[at].artifact_key matches Some(key) ==> resolved_component(resolved).contains(key.digest),
{
    let parts = |i: int|
        match resolved.evidence[i].artifact_key {
            Some(key) => seq![key.digest, resolved.evidence[i].basis.name()],
            None => seq![resolved.evidence[i].basis.name()],
        };
    let all = evidence_components(resolved.evidence);
    assert(all == concatenated(parts, resolved.evidence.len()));
    let own = parts(at);
    assert(own.contains(own[own.len() - 1]));
    parts_are_in_the_whole(parts, resolved.evidence.len(), at, own[own.len() - 1]);
    parts_are_in_the_whole(parts, resolved.evidence.len(), at, own[0]);
    let whole = resolved_component(resolved);
    assert forall|item: Seq<char>| #[trigger] all.contains(item) implies whole.contains(item) by {
        let k = choose|k: int| 0 <= k < all.len() && all[k] == item;
        assert(whole[k + 2] == item);
    }
}

/// What a part holds, the whole holds.
pub proof fn parts_are_in_the_whole<T>(parts: spec_fn(int) -> Seq<T>, count: nat, at: int, item: T)
    requires
        0 <= at < count,
        parts(at).contains(item),
    ensures
        concatenated(parts, count).contains(item),
    decreases count,
{
    let before = concatenated(parts, (count - 1) as nat);
    let last = parts(count - 1);
    let whole = concatenated(parts, count);
    if at < count - 1 {
        parts_are_in_the_whole(parts, (count - 1) as nat, at, item);
        let k = choose|k: int| 0 <= k < before.len() && before[k] == item;
        assert(whole[k] == item);
    } else {
        let k = choose|k: int| 0 <= k < last.len() && last[k] == item;
        assert(whole[before.len() + k] == item);
    }
}

/// A projection lists every scan that stopped, of each Repository once, and nothing else.
pub proof fn stopped_scans_are_listed(outcomes: Seq<RepositoryScanOutcomeView>, at: int)
    requires
        0 <= at < ordered_ids(outcomes).len(),
    ensures
        outcome_for(outcomes, ordered_ids(outcomes)[at], 0) matches Some(outcome) ==> (incomplete_scan(
            outcome,
        ) matches Some(scan) ==> incomplete_scans_of(outcomes).contains(scan)),
{
    let ids = ordered_ids(outcomes);
    let parts = |i: int|
        match outcome_for(outcomes, ids[i], 0) {
            Some(outcome) => match incomplete_scan(outcome) {
                Some(scan) => seq![scan],
                None => Seq::empty(),
            },
            None => Seq::empty(),
        };
    assert(concatenated(parts, ids.len()) == incomplete_scans_of(outcomes));
    if let Some(outcome) = outcome_for(outcomes, ids[at], 0) {
        if let Some(scan) = incomplete_scan(outcome) {
            let own = parts(at);
            assert(own[0] == scan);
            assert(own.contains(scan));
            parts_are_in_the_whole(parts, ids.len(), at, scan);
        }
    }
}

/// A projection is of this policy, holds the snapshots and one resolved Reference for each Reference, in
/// order, and all of them carry its generation.
pub proof fn projections_hold_their_inputs(
    references: Seq<ProjectedEngineeringReferenceView>,
    outcomes: Seq<RepositoryScanOutcomeView>,
    contexts: Seq<GraphContextSnapshotView>,
    at: int,
)
    ensures
        ({
            let projection = projection_of(references, outcomes, contexts);
            &&& projection.policy_version == "historical-context-snapshot-resolution-v2"@
            &&& projection.contexts.to_multiset() == contexts.to_multiset()
            &&& projection.references.len() == references.len()
            &&& 0 <= at < references.len() ==> projection.references[at].artifact_generation
                == projection.artifact_generation
        }),
{
    let ordered = crate::order::stably_sorted::<crate::graph_contexts::ProjectedEngineeringReference>(references);
    crate::order::sorting_keeps_items::<crate::graph_contexts::ProjectedEngineeringReference>(references);
    crate::order::sorting_keeps_items::<GraphContextSnapshot>(contexts);
    references.to_multiset_ensures();
    ordered.to_multiset_ensures();
    assert(ordered.len() == references.len());
}

} // verus!
