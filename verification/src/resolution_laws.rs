//! What holds of References that are resolved against scanned snapshots.

use vstd::prelude::*;

use crate::engineering::{ArtifactLocatorView, EngineeringReferenceView};
use crate::graph_contexts::{GraphContextSnapshotView, ProjectedEngineeringReference, ProjectedEngineeringReferenceView};
use crate::order::{sorting_keeps_items, stably_sorted};
use crate::resolver::{
    basis_of, candidates_for, covers_locator, is_named, outcome_for, outcome_id, projection_of, resolution_of_reference,
    ResolvedReferenceProjectionView,
};
use crate::snapshot::{RepositoryScanOutcomeView, RepositorySnapshotView, SnapshotArtifact, SnapshotArtifactView};
use crate::sources::ScanCoverageView;
use crate::value::filter_keeps;

verus! {

/// Whether an Artifact is the one that a Reference names: of its Repository, of its kind, and at
/// exactly its locator.
pub open spec fn names(reference: EngineeringReferenceView, artifact: SnapshotArtifactView) -> bool {
    &&& artifact.artifact.repository.repository_id == reference.repository_id
    &&& artifact.artifact.artifact_key.locator == reference.locator
    &&& artifact.artifact.artifact_key.locator.kind() == reference.artifact_kind
}

proof fn candidates_are_named(reference: EngineeringReferenceView, artifacts: Seq<SnapshotArtifactView>)
    ensures
        forall|i: int|
            0 <= i < candidates_for(reference, artifacts).len() ==> names(
                reference,
                #[trigger] candidates_for(reference, artifacts)[i],
            ) && artifacts.contains(candidates_for(reference, artifacts)[i]),
        forall|k: int|
            0 <= k < artifacts.len() && names(reference, #[trigger] artifacts[k]) ==> candidates_for(
                reference,
                artifacts,
            ).contains(artifacts[k]),
{
    let keep = |artifact: SnapshotArtifactView| is_named(reference, artifact);
    let named = artifacts.filter(keep);
    let candidates = candidates_for(reference, artifacts);
    sorting_keeps_items::<SnapshotArtifact>(named);
    named.to_multiset_ensures();
    candidates.to_multiset_ensures();
    assert forall|i: int| 0 <= i < candidates.len() implies names(reference, #[trigger] candidates[i])
        && artifacts.contains(candidates[i]) by {
        assert(candidates.contains(candidates[i]));
        assert(candidates.to_multiset().contains(candidates[i]));
        assert(named.contains(candidates[i]));
        let k = choose|k: int| 0 <= k < named.len() && named[k] == candidates[i];
        filter_keeps(artifacts, keep, k);
    }
    assert forall|k: int| 0 <= k < artifacts.len() && names(
        reference,
        #[trigger] artifacts[k],
    ) implies candidates.contains(artifacts[k]) by {
        kept_items_stay(artifacts, keep, k);
        assert(named.to_multiset().contains(artifacts[k]));
        assert(candidates.to_multiset().contains(artifacts[k]));
    }
}

proof fn kept_items_stay<A>(items: Seq<A>, keep: spec_fn(A) -> bool, at: int)
    requires
        0 <= at < items.len(),
        keep(items[at]),
    ensures
        items.filter(keep).contains(items[at]),
    decreases items.len(),
{
    reveal(Seq::filter);
    let shorter = items.drop_last();
    let before = shorter.filter(keep);
    if at < shorter.len() {
        kept_items_stay(shorter, keep, at);
        let k = choose|k: int| 0 <= k < before.len() && before[k] == shorter[at];
        assert(items.filter(keep)[k] == items[at]);
    } else {
        assert(items.filter(keep)[before.len() as int] == items[at]);
    }
}

/// The association of a resolved Reference has the kind that its relation calls for: what consumes or
/// depends on an Artifact uses it, what implements it implements it, what validates it is validated
/// by it, what constrains it is constrained by it, and what defines it defines its contract where it
/// is an API or a schema, and implements it otherwise.
pub proof fn associations_have_the_kind_of_their_relation(
    projected: ProjectedEngineeringReferenceView,
    outcome: Option<RepositoryScanOutcomeView>,
)
    requires
        resolution_of_reference(projected, outcome).association is Some,
    ensures
        ({
            let relation = projected.reference.relation;
            let kind = resolution_of_reference(projected, outcome).association->Some_0.kind;
            let contract = projected.reference.locator is Api || projected.reference.locator is Schema;
            &&& relation is Consumes ==> kind is Uses
            &&& relation is DependsOn ==> kind is Uses
            &&& relation is Implements ==> kind is Implements
            &&& relation is Validates ==> kind is ValidatedBy
            &&& relation is Constrains ==> kind is ConstrainedBy
            &&& relation is Defines && contract ==> kind is DefinesContract
            &&& relation is Defines && !contract ==> kind is Implements
        }),
{
    let snapshot = outcome->Some_0->Available_0;
    candidates_are_named(projected.reference, snapshot.artifacts);
}

/// An association joins the Context revision that a Reference was recorded on with the Artifact at
/// the Reference's own locator, by that one Reference, and with full confidence.
pub proof fn associations_join_what_was_referenced(
    projected: ProjectedEngineeringReferenceView,
    outcome: Option<RepositoryScanOutcomeView>,
)
    requires
        resolution_of_reference(projected, outcome).association is Some,
    ensures
        ({
            let association = resolution_of_reference(projected, outcome).association->Some_0;
            &&& association.context_id == projected.context_id
            &&& association.revision_id == projected.revision_id
            &&& association.artifact_key.locator == projected.reference.locator
            &&& association.source_reference_ids == seq![projected.reference.reference_id]
            &&& association.confidence_bits == 0x3ff0_0000_0000_0000u64
        }),
{
    let snapshot = outcome->Some_0->Available_0;
    candidates_are_named(projected.reference, snapshot.artifacts);
}

/// Whether a scan may speak of a locator: a whole scan of everything, a partial one of the paths that
/// it read. A module is read where a path inside it is.
pub open spec fn was_read(coverage: ScanCoverageView, locator: ArtifactLocatorView) -> bool {
    match coverage {
        ScanCoverageView::Complete => true,
        ScanCoverageView::Partial { covered, unfinished: _ } => exists|i: int|
            0 <= i < covered.len() && (if locator is Module {
                is_inside(#[trigger] covered[i], locator.path())
            } else {
                covered[i] == locator.path()
            }),
    }
}

/// Whether a path lies inside a directory.
pub open spec fn is_inside(path: Seq<char>, directory: Seq<char>) -> bool {
    path.len() > directory.len() && path.take(directory.len() as int) == directory && path[directory.len() as int]
        == '/'
}

proof fn being_inside_is_a_prefix(path: Seq<char>, directory: Seq<char>)
    ensures
        crate::text::begins_with(path, directory + "/"@) == is_inside(path, directory),
{
    reveal_strlit("/");
    let prefix = directory + "/"@;
    if crate::text::begins_with(path, prefix) {
        assert(path.take(directory.len() as int) =~= directory) by {
            assert forall|i: int| 0 <= i < directory.len() implies path[i] == directory[i] by {
                assert(path.take(prefix.len() as int)[i] == prefix[i]);
            }
        }
        assert(path.take(prefix.len() as int)[directory.len() as int] == prefix[directory.len() as int]);
    }
    if is_inside(path, directory) {
        assert(path.take(prefix.len() as int) =~= prefix) by {
            assert forall|i: int| 0 <= i < directory.len() implies path[i] == directory[i] by {
                assert(path.take(directory.len() as int)[i] == path[i]);
            }
        }
    }
}

proof fn covering_is_reading(coverage: ScanCoverageView, locator: ArtifactLocatorView)
    ensures
        covers_locator(coverage, locator) == was_read(coverage, locator),
{
    match coverage {
        ScanCoverageView::Complete => {},
        ScanCoverageView::Partial { covered, unfinished: _ } => {
            let path = locator.path();
            assert forall|i: int| 0 <= i < covered.len() implies crate::text::begins_with(
                #[trigger] covered[i],
                path + "/"@,
            ) == is_inside(covered[i], path) by {
                being_inside_is_a_prefix(covered[i], path);
            }
        },
    }
}

/// What becomes of a Reference is decided by the Artifacts that it names and by what was read: it
/// resolves where it names one Artifact of the snapshot, is ambiguous where it names several or one
/// that was seen in several places, and is missing only where what it names was read.
pub proof fn references_resolve_by_what_they_name(
    projected: ProjectedEngineeringReferenceView,
    snapshot: RepositorySnapshotView,
)
    ensures
        ({
            let resolved = resolution_of_reference(projected, Some(RepositoryScanOutcomeView::Available(snapshot)));
            let status = resolved.resolution.status;
            let named = exists|k: int|
                0 <= k < snapshot.artifacts.len() && names(projected.reference, #[trigger] snapshot.artifacts[k]);
            &&& named <==> status is Resolved || status is Ambiguous
            &&& status is Missing <==> !named && was_read(snapshot.coverage, projected.reference.locator)
            &&& status is Unavailable <==> !named && !was_read(snapshot.coverage, projected.reference.locator)
            &&& resolved.repository_generation == Some(snapshot.generation)
        }),
{
    let candidates = candidates_for(projected.reference, snapshot.artifacts);
    candidates_are_named(projected.reference, snapshot.artifacts);
    covering_is_reading(snapshot.coverage, projected.reference.locator);
    if candidates.len() > 0 {
        let k = choose|k: int| 0 <= k < snapshot.artifacts.len() && snapshot.artifacts[k] == candidates[0];
        assert(names(projected.reference, snapshot.artifacts[k]));
    }
}

/// A file or a module is never ambiguous for being seen in several places, and any other Artifact is.
pub proof fn several_sightings_are_ambiguous(
    projected: ProjectedEngineeringReferenceView,
    snapshot: RepositorySnapshotView,
    at: int,
)
    requires
        0 <= at < snapshot.artifacts.len(),
        names(projected.reference, snapshot.artifacts[at]),
        forall|k: int|
            0 <= k < snapshot.artifacts.len() && k != at ==> !names(
                projected.reference,
                #[trigger] snapshot.artifacts[k],
            ),
    ensures
        ({
            let resolved = resolution_of_reference(projected, Some(RepositoryScanOutcomeView::Available(snapshot)));
            let sole = projected.reference.locator is File || projected.reference.locator is Module
                || snapshot.artifacts[at].observations.len() <= 1;
            &&& sole ==> resolved.resolution.status is Resolved
            &&& sole ==> resolved.resolution.resolved_artifact == Some(snapshot.artifacts[at].artifact.artifact_key)
            &&& sole ==> resolved.artifacts == seq![snapshot.artifacts[at].artifact]
            &&& !sole ==> resolved.resolution.status is Ambiguous
            &&& !sole ==> resolved.resolution.resolved_artifact is None
        }),
{
    let reference = projected.reference;
    let keep = |artifact: SnapshotArtifactView| is_named(reference, artifact);
    let candidates = candidates_for(reference, snapshot.artifacts);
    candidates_are_named(reference, snapshot.artifacts);
    sole_items_stay_alone(snapshot.artifacts, keep, at);
    let named = snapshot.artifacts.filter(keep);
    sorting_keeps_items::<SnapshotArtifact>(named);
    named.to_multiset_ensures();
    candidates.to_multiset_ensures();
    assert(candidates.len() == 1);
    assert(candidates.contains(snapshot.artifacts[at]));
    assert(candidates[0] == snapshot.artifacts[at]);
}

proof fn sole_items_stay_alone<A>(items: Seq<A>, keep: spec_fn(A) -> bool, at: int)
    requires
        0 <= at < items.len(),
        keep(items[at]),
        forall|k: int| 0 <= k < items.len() && k != at ==> !keep(#[trigger] items[k]),
    ensures
        items.filter(keep) == seq![items[at]],
    decreases items.len(),
{
    reveal(Seq::filter);
    let shorter = items.drop_last();
    if at < shorter.len() {
        assert forall|k: int| 0 <= k < shorter.len() && k != at implies !keep(#[trigger] shorter[k]) by {
            assert(!keep(items[k]));
        }
        sole_items_stay_alone(shorter, keep, at);
        assert(!keep(items[items.len() - 1]));
    } else {
        assert forall|k: int| 0 <= k < shorter.len() implies !keep(#[trigger] shorter[k]) by {
            assert(!keep(items[k]));
        }
        nothing_stays(shorter, keep);
        assert(items.filter(keep) =~= seq![items[at]]);
    }
}

proof fn nothing_stays<A>(items: Seq<A>, keep: spec_fn(A) -> bool)
    requires
        forall|k: int| 0 <= k < items.len() ==> !keep(#[trigger] items[k]),
    ensures
        items.filter(keep) == Seq::<A>::empty(),
    decreases items.len(),
{
    reveal(Seq::filter);
    if items.len() > 0 {
        let shorter = items.drop_last();
        assert forall|k: int| 0 <= k < shorter.len() implies !keep(#[trigger] shorter[k]) by {
            assert(!keep(items[k]));
        }
        nothing_stays(shorter, keep);
        assert(!keep(items[items.len() - 1]));
    }
}

/// What a Reference matched by is told by the kind of its locator.
pub proof fn evidence_tells_what_matched(locator: ArtifactLocatorView)
    ensures
        locator is File ==> basis_of(locator) is ExactFilePath,
        locator is Module ==> basis_of(locator) is ExactModulePath,
        locator is Api ==> basis_of(locator) is ExactApiLocator,
        locator is Schema ==> basis_of(locator) is ExactSchemaLocator,
        locator is Symbol ==> basis_of(locator) is ExactQualifiedSymbolLocator,
        locator is Test ==> basis_of(locator) is ExactQualifiedTestLocator,
{
}

/// Every piece of evidence of a resolution is about an Artifact at the Reference's own locator, or is
/// that its Repository was not available; a Reference whose Repository is not available keeps its
/// identity and its locator, and matches nothing.
pub proof fn evidence_is_about_the_reference(
    projected: ProjectedEngineeringReferenceView,
    outcome: Option<RepositoryScanOutcomeView>,
    at: int,
)
    requires
        0 <= at < resolution_of_reference(projected, outcome).evidence.len(),
    ensures
        ({
            let resolved = resolution_of_reference(projected, outcome);
            match resolved.evidence[at].artifact_key {
                Some(key) => key.locator == projected.reference.locator && resolved.evidence[at].confidence_bits
                    == 0x3ff0_0000_0000_0000u64 && (resolved.resolution.status is Resolved
                    || resolved.resolution.status is Ambiguous),
                None => resolved.evidence[at].basis is RepositoryUnavailable && resolved.evidence[at].confidence_bits
                    == 0 && resolved.resolution.status is Unavailable,
            }
        }),
{
    if outcome is Some && outcome->Some_0 is Available {
        candidates_are_named(projected.reference, outcome->Some_0->Available_0.artifacts);
    }
}

/// A resolution keeps the identity of what was referenced, whatever became of it.
pub proof fn resolutions_keep_their_identity(
    projected: ProjectedEngineeringReferenceView,
    outcome: Option<RepositoryScanOutcomeView>,
)
    ensures
        ({
            let resolved = resolution_of_reference(projected, outcome);
            &&& resolved.context_id == projected.context_id
            &&& resolved.revision_id == projected.revision_id
            &&& resolved.reference_id == projected.reference.reference_id
            &&& resolved.locator == Some(projected.reference.locator)
            &&& resolved.resolution.reference_id == projected.reference.reference_id
            &&& resolved.resolution.repository_id == projected.reference.repository_id
            &&& outcome is None ==> resolved.resolution.status is Unavailable && resolved.artifacts.len() == 0
        }),
{
}

/// Ambiguous candidates are all Artifacts that the Reference names.
pub proof fn ambiguous_references_list_every_candidate(
    projected: ProjectedEngineeringReferenceView,
    snapshot: RepositorySnapshotView,
    at: int,
)
    requires
        0 <= at < snapshot.artifacts.len(),
        names(projected.reference, snapshot.artifacts[at]),
    ensures
        ({
            let resolved = resolution_of_reference(projected, Some(RepositoryScanOutcomeView::Available(snapshot)));
            &&& resolved.resolution.candidates.contains(snapshot.artifacts[at].artifact.artifact_key)
            &&& resolved.artifacts.contains(snapshot.artifacts[at].artifact)
        }),
{
    let candidates = candidates_for(projected.reference, snapshot.artifacts);
    let resolved = resolution_of_reference(projected, Some(RepositoryScanOutcomeView::Available(snapshot)));
    candidates_are_named(projected.reference, snapshot.artifacts);
    let k = choose|k: int| 0 <= k < candidates.len() && candidates[k] == snapshot.artifacts[at];
    assert(resolved.resolution.candidates[k] == snapshot.artifacts[at].artifact.artifact_key);
    assert(resolved.artifacts[k] == snapshot.artifacts[at].artifact);
}

proof fn outcomes_are_found(outcomes: Seq<RepositoryScanOutcomeView>, repository_id: Seq<char>, from: int)
    requires
        0 <= from <= outcomes.len(),
    ensures
        match outcome_for(outcomes, repository_id, from) {
            Some(outcome) => outcome_id(outcome) == repository_id && exists|k: int|
                from <= k < outcomes.len() && #[trigger] outcomes[k] == outcome,
            None => forall|k: int| from <= k < outcomes.len() ==> outcome_id(#[trigger] outcomes[k]) != repository_id,
        },
    decreases outcomes.len() - from,
{
    if from < outcomes.len() && outcome_id(outcomes[from]) != repository_id {
        outcomes_are_found(outcomes, repository_id, from + 1);
    }
}

/// Whose scan an outcome is.
pub open spec fn scan_of(outcome: RepositoryScanOutcomeView) -> Seq<char> {
    match outcome {
        RepositoryScanOutcomeView::Available(snapshot) => snapshot.repository_id,
        RepositoryScanOutcomeView::Unavailable { repository_id, reason: _ } => repository_id,
    }
}

/// A projection resolves every Reference that it is given once, against the scan of the Reference's
/// own Repository, and stamps each with its own generation.
pub proof fn projections_resolve_every_reference(
    references: Seq<ProjectedEngineeringReferenceView>,
    outcomes: Seq<RepositoryScanOutcomeView>,
    contexts: Seq<GraphContextSnapshotView>,
    at: int,
)
    requires
        0 <= at < references.len(),
    ensures
        ({
            let projection = projection_of(references, outcomes, contexts);
            &&& projection.references.len() == references.len()
            &&& projection.contexts.to_multiset() == contexts.to_multiset()
            &&& exists|k: int, outcome: Option<RepositoryScanOutcomeView>|
                0 <= k < projection.references.len() && #[trigger] resolves_with(
                    projection.references[k],
                    projection.artifact_generation,
                    references[at],
                    outcome,
                ) && match outcome {
                    Some(outcome) => outcomes.contains(outcome) && scan_of(outcome)
                        == references[at].reference.repository_id,
                    None => forall|j: int|
                        0 <= j < outcomes.len() ==> scan_of(#[trigger] outcomes[j])
                            != references[at].reference.repository_id,
                }
        }),
{
    let ordered = stably_sorted::<ProjectedEngineeringReference>(references);
    sorting_keeps_items::<ProjectedEngineeringReference>(references);
    sorting_keeps_items::<crate::graph_contexts::GraphContextSnapshot>(contexts);
    references.to_multiset_ensures();
    ordered.to_multiset_ensures();
    assert(references.contains(references[at]));
    assert(references.to_multiset().contains(references[at]));
    assert(ordered.contains(references[at]));
    let k = choose|k: int| 0 <= k < ordered.len() && ordered[k] == references[at];
    let id = references[at].reference.repository_id;
    let outcome = outcome_for(outcomes, id, 0);
    outcomes_are_found(outcomes, id, 0);
    let projection = projection_of(references, outcomes, contexts);
    assert(resolves_with(projection.references[k], projection.artifact_generation, references[at], outcome));
    if outcome is None {
        assert forall|j: int| 0 <= j < outcomes.len() implies scan_of(#[trigger] outcomes[j]) != id by {
            assert(outcome_id(outcomes[j]) != id);
        }
    }
}

/// Whether a projected resolution is that of a Reference against an outcome.
pub open spec fn resolves_with(
    resolved: ResolvedReferenceProjectionView,
    generation: Seq<char>,
    projected: ProjectedEngineeringReferenceView,
    outcome: Option<RepositoryScanOutcomeView>,
) -> bool {
    resolved == (ResolvedReferenceProjectionView {
        artifact_generation: generation,
        ..resolution_of_reference(projected, outcome)
    })
}

} // verus!
