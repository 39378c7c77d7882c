//! What holds of the Context snapshots of the engineering graph.

use vstd::multiset::Multiset;
use vstd::prelude::*;

use crate::checks::blank;
use crate::contexts::{lifecycle, revision_entries_agree, revision_entry};
use crate::events::{
    AutoInjectionBlocker, ContextGovernanceStatusView, ContextProjectionView, ContextSpaceProjectionView,
    ReducerEventView, RevisionLifecycle,
};
use crate::gather::{gives_key, keyed_value};
use crate::graph_build::{
    build_problem, built_snapshots, captured_nodes, expanded, fixed_relation, fixed_relations,
    fixed_relations_are_finite, holds_last, keys_of_nodes, last_place, near_nodes, node_of, node_problem, node_revision,
    owner_of, relation_target, root_of, roots_of, snapshot_at, targets_of, title_of, titles_of, Spaces,
};
use crate::graph_contexts::{
    completeness, evidence_worth, recorded, safety_blockers, safety_of, status_of, total_worth, GraphContextRelation,
    GraphContextSafetyBlocker, GraphContextStatus, GraphKey, GraphNode, ProjectedEngineeringReferenceView,
};
use crate::ids::{ContextId, RevisionId, SpaceId};
use crate::laws::projected_contexts_are_their_own;
use crate::model::{ContextRevisionView, EvidenceSnapshotView};
use crate::model_laws::first_failures_are_failures;
use crate::order::{listing_lists, set_listing};
use crate::reducer::{context_projection, projection};
use crate::text::joined_by;

verus! {

/// Whether governance accepts a revision.
pub open spec fn governs(status: ContextGovernanceStatusView, revision_id: RevisionId) -> bool {
    status matches ContextGovernanceStatusView::Accepted { publication_id: _, revision_id: current } && current
        == revision_id
}

/// Whether governance has withdrawn a revision.
pub open spec fn withdraws(status: ContextGovernanceStatusView, revision_id: RevisionId) -> bool {
    status matches ContextGovernanceStatusView::Deprecated { publication_id: _, revision_id: current } && current
        == revision_id
}

/// A revision is accepted exactly where governance accepts that revision, deprecated exactly where
/// governance has withdrawn it, and otherwise superseded where it was replaced.
pub proof fn lifecycles_follow_governance(
    status: ContextGovernanceStatusView,
    replaced: bool,
    revision_id: RevisionId,
)
    ensures
        (lifecycle(status, replaced, revision_id) is Accepted) == governs(status, revision_id),
        (lifecycle(status, replaced, revision_id) is Deprecated) == withdraws(status, revision_id),
        (lifecycle(status, replaced, revision_id) is Superseded) == (replaced && !governs(status, revision_id)
            && !withdraws(status, revision_id)),
        (lifecycle(status, replaced, revision_id) is Candidate) == (!replaced && !governs(status, revision_id)
            && !withdraws(status, revision_id)),
{
}

/// The graph shows a revision as accepted only where its lifecycle is, and a Context in a governance
/// conflict as nothing else: a superseded, deprecated or candidate revision is never accepted.
pub proof fn graph_statuses_follow_the_lifecycle(context: ContextProjectionView, lifecycle: RevisionLifecycle)
    ensures
        context.governance is GovernanceConflict <==> status_of(context, lifecycle) is GovernanceConflict,
        status_of(context, lifecycle) is Accepted ==> lifecycle is Accepted,
        status_of(context, lifecycle) is Superseded ==> lifecycle is Superseded,
        status_of(context, lifecycle) is Deprecated ==> lifecycle is Deprecated,
        status_of(context, lifecycle) is Candidate ==> lifecycle is Candidate,
{
}

/// A projected Context holds its revisions under their own identities, each with the lifecycle that
/// governance gives it: the revision that the graph shows as accepted is the one that governance
/// accepts.
pub proof fn accepted_snapshots_are_governed(
    events: Multiset<ReducerEventView>,
    space_id: SpaceId,
    context_id: ContextId,
    revision_id: RevisionId,
)
    requires
        context_projection(events, space_id, context_id).revisions.contains_key(revision_id),
    ensures
        ({
            let context = context_projection(events, space_id, context_id);
            let entry = context.revisions[revision_id];
            &&& entry.revision.revision_id == revision_id
            &&& (entry.lifecycle is Accepted) == governs(context.governance, revision_id)
            &&& status_of(context, entry.lifecycle) is Accepted ==> governs(context.governance, revision_id)
            &&& governs(context.governance, revision_id) ==> status_of(context, entry.lifecycle) is Accepted
            &&& withdraws(context.governance, revision_id) ==> status_of(context, entry.lifecycle) is Deprecated
        }),
{
    let entries = |event: ReducerEventView| revision_entry(events, space_id, context_id, event);
    let adding = choose|event: ReducerEventView| #[trigger]
        events.contains(event) && gives_key(entries, event, revision_id);
    revision_entries_agree(events, space_id, context_id);
    keyed_value(events, entries, adding);
}

/// Whether a piece of evidence is complete: it says what it supports and how it is read, holds
/// content, and names its limitations.
pub open spec fn is_complete(item: EvidenceSnapshotView) -> bool {
    &&& !blank(item.supports)
    &&& item.content.has_members()
    &&& !blank(item.interpretation)
    &&& item.limitations.len() > 0
}

/// A piece of evidence is worth a quarter of the whole for each of its parts.
pub proof fn evidence_is_worth_its_parts(item: EvidenceSnapshotView)
    ensures
        evidence_worth(item) <= 1_000,
        evidence_worth(item) == 1_000 <==> is_complete(item),
        evidence_worth(item) == 0 <==> blank(item.supports) && !item.content.has_members() && blank(
            item.interpretation,
        ) && item.limitations.len() == 0,
        evidence_worth(item) % 250 == 0,
{
}

proof fn worth_adds_up(evidence: Seq<EvidenceSnapshotView>)
    ensures
        total_worth(evidence) <= 1_000 * evidence.len(),
        total_worth(evidence) == 1_000 * evidence.len() <==> forall|i: int|
            0 <= i < evidence.len() ==> is_complete(#[trigger] evidence[i]),
    decreases evidence.len(),
{
    if evidence.len() > 0 {
        let shorter = evidence.drop_last();
        worth_adds_up(shorter);
        evidence_is_worth_its_parts(evidence.last());
        if forall|i: int| 0 <= i < evidence.len() ==> is_complete(#[trigger] evidence[i]) {
            assert forall|i: int| 0 <= i < shorter.len() implies is_complete(#[trigger] shorter[i]) by {
                assert(is_complete(evidence[i]));
            }
            assert(is_complete(evidence[evidence.len() - 1]));
        }
        if total_worth(evidence) == 1_000 * evidence.len() {
            assert forall|i: int| 0 <= i < evidence.len() implies is_complete(#[trigger] evidence[i]) by {
                if i < shorter.len() {
                    assert(is_complete(shorter[i]));
                }
            }
        }
    }
}

/// Evidence is complete, at a thousand, exactly where there is some and all of it is complete; a
/// revision without evidence is worth nothing.
pub proof fn complete_evidence_is_complete_throughout(revision: ContextRevisionView)
    ensures
        completeness(revision) <= 1_000,
        completeness(revision) == 1_000 <==> revision.evidence.len() > 0 && forall|i: int|
            0 <= i < revision.evidence.len() ==> is_complete(#[trigger] revision.evidence[i]),
        revision.evidence.len() == 0 ==> completeness(revision) == 0,
{
    let (total, count) = (total_worth(revision.evidence), revision.evidence.len());
    worth_adds_up(revision.evidence);
    if count > 0 {
        assert(total / count <= 1_000) by (nonlinear_arith)
            requires
                total <= 1_000 * count,
                count > 0,
        ;
        assert(total / count == 1_000 <==> total == 1_000 * count) by (nonlinear_arith)
            requires
                total <= 1_000 * count,
                count > 0,
        ;
    }
}

/// Whether a revision has evidence, and all of it is complete.
pub open spec fn is_complete_throughout(revision: ContextRevisionView) -> bool {
    revision.evidence.len() > 0 && forall|i: int|
        0 <= i < revision.evidence.len() ==> is_complete(#[trigger] revision.evidence[i])
}

/// A revision may be injected automatically exactly where it is accepted, has evidence that is
/// complete throughout, and nothing blocks its Context.
pub proof fn only_safe_revisions_are_eligible(
    context: ContextProjectionView,
    revision: ContextRevisionView,
    status: GraphContextStatus,
)
    ensures
        safety_of(context, revision, status).automatic_injection_eligible <==> status is Accepted
            && is_complete_throughout(revision) && context.auto_injection.blockers == Set::<
            AutoInjectionBlocker,
        >::empty(),
{
    let blockers = safety_blockers(context, revision, status);
    complete_evidence_is_complete_throughout(revision);
    let sources = context.auto_injection.blockers;
    if blockers == Set::<GraphContextSafetyBlocker>::empty() {
        assert forall|source: AutoInjectionBlocker| !sources.contains(source) by {
            if sources.contains(source) {
                assert(blockers.contains(recorded(source)));
            }
        }
        assert(sources =~= Set::empty());
        assert(!blockers.contains(GraphContextSafetyBlocker::IncompleteEvidence));
        assert(!blockers.contains(GraphContextSafetyBlocker::NotAccepted));
    }
    if sources == Set::<AutoInjectionBlocker>::empty() && status is Accepted && completeness(revision) == 1_000 {
        assert(blockers =~= Set::empty());
    }
}

/// Whatever stands against a revision is recorded, and nothing else: that it is not accepted, that
/// its evidence is incomplete, and what blocks its Context.
pub proof fn safety_records_every_blocker(
    context: ContextProjectionView,
    revision: ContextRevisionView,
    status: GraphContextStatus,
    conflict_id: crate::ids::ConflictId,
)
    ensures
        safety_of(context, revision, status).blockers.contains(GraphContextSafetyBlocker::NotAccepted) <==> !(status
            is Accepted) || context.auto_injection.blockers.contains(AutoInjectionBlocker::NotAccepted),
        safety_of(context, revision, status).blockers.contains(GraphContextSafetyBlocker::IncompleteEvidence)
            <==> !is_complete_throughout(revision),
        safety_of(context, revision, status).blockers.contains(GraphContextSafetyBlocker::GovernanceConflict)
            <==> context.auto_injection.blockers.contains(AutoInjectionBlocker::GovernanceConflict),
        safety_of(context, revision, status).blockers.contains(
            GraphContextSafetyBlocker::UnresolvedSemanticConflict { conflict_id },
        ) <==> context.auto_injection.blockers.contains(AutoInjectionBlocker::UnresolvedSemanticConflict(conflict_id)),
{
    let blockers = safety_blockers(context, revision, status);
    let sources = context.auto_injection.blockers;
    complete_evidence_is_complete_throughout(revision);
    assert forall|source: AutoInjectionBlocker| #[trigger] sources.contains(source) implies blockers.contains(
        recorded(source),
    ) by {}
    assert(sources.contains(AutoInjectionBlocker::NotAccepted) ==> blockers.contains(
        GraphContextSafetyBlocker::NotAccepted,
    ));
    assert(sources.contains(AutoInjectionBlocker::GovernanceConflict) ==> blockers.contains(
        GraphContextSafetyBlocker::GovernanceConflict,
    ));
    let source = AutoInjectionBlocker::UnresolvedSemanticConflict(conflict_id);
    assert(sources.contains(source) ==> blockers.contains(recorded(source)));
}

/// The owner of a Context holds a Context of that identity.
pub proof fn owners_hold_their_context(spaces: Spaces, context_id: ContextId)
    requires
        owner_of(spaces, context_id) is Some,
    ensures
        ({
            let (space_id, space, context) = owner_of(spaces, context_id)->Some_0;
            &&& spaces.contains_key(space_id)
            &&& space == spaces[space_id]
            &&& context.context_id == context_id
            &&& exists|key: ContextId| #[trigger] space.contexts.contains_key(key) && space.contexts[key] == context
        }),
{
    let place = last_place(spaces, context_id, false)->Some_0;
    assert(holds_last(spaces, context_id, false, place));
    assert(spaces[place.0].contexts.contains_key(place.1));
}

/// A relation leads to the revision that governance accepts for its target, and nowhere where the
/// target is not accepted.
pub proof fn relations_lead_to_accepted_revisions(
    spaces: Spaces,
    relation: crate::engineering::ContextRelationView,
    node: GraphNode,
) -> (key: ContextId)
    requires
        relation_target(spaces, relation) == Some(node),
    ensures
        node.context_id == relation.target_context_id,
        spaces.contains_key(node.space_id),
        spaces[node.space_id].contexts.contains_key(key),
        spaces[node.space_id].contexts[key].context_id == relation.target_context_id,
        governs(spaces[node.space_id].contexts[key].governance, node.revision_id),
{
    let place = last_place(spaces, relation.target_context_id, true)->Some_0;
    assert(holds_last(spaces, relation.target_context_id, true, place));
    place.1
}

/// A build captures the revisions that References were recorded on, what these relate to, and what
/// those relate to in turn.
pub proof fn builds_capture_two_steps(
    spaces: Spaces,
    references: Seq<ProjectedEngineeringReferenceView>,
    at: int,
    near: GraphNode,
    far: GraphNode,
)
    requires
        0 <= at < references.len(),
    ensures
        ({
            let root = root_of(spaces, references[at]);
            let captured = captured_nodes(spaces, references);
            &&& root.context_id == references[at].context_id
            &&& root.revision_id == references[at].revision_id
            &&& captured.contains(root)
            &&& targets_of(spaces, root).contains(near) ==> captured.contains(near)
            &&& targets_of(spaces, root).contains(near) && targets_of(spaces, near).contains(far)
                ==> captured.contains(far)
        }),
{
    let root = root_of(spaces, references[at]);
    let roots = Seq::new(references.len(), |i: int| root_of(spaces, references[i]));
    assert(roots[at] == root);
    assert(roots_of(spaces, references).contains(root));
    let close = near_nodes(spaces, references);
    assert(close.contains(root));
    if targets_of(spaces, root).contains(near) {
        assert(close.contains(near));
    }
}

/// A build captures nothing else.
pub proof fn builds_capture_nothing_else(
    spaces: Spaces,
    references: Seq<ProjectedEngineeringReferenceView>,
    node: GraphNode,
)
    requires
        captured_nodes(spaces, references).contains(node),
    ensures
        exists|at: int|
            0 <= at < references.len() && reaches(spaces, root_of(spaces, #[trigger] references[at]), node),
{
    let roots = roots_of(spaces, references);
    let close = near_nodes(spaces, references);
    let middle = if close.contains(node) {
        node
    } else {
        choose|middle: GraphNode| #[trigger] close.contains(middle) && targets_of(spaces, middle).contains(node)
    };
    let root = if roots.contains(middle) {
        middle
    } else {
        choose|root: GraphNode| #[trigger] roots.contains(root) && targets_of(spaces, root).contains(middle)
    };
    let list = Seq::new(references.len(), |i: int| root_of(spaces, references[i]));
    let at = choose|at: int| 0 <= at < list.len() && list[at] == root;
    assert(root_of(spaces, references[at]) == root);
    assert(reaches(spaces, root, node)) by {
        if middle == root {
            assert(root == node || targets_of(spaces, root).contains(node));
        } else {
            assert(targets_of(spaces, root).contains(middle));
            if middle == node {
            } else {
                assert(targets_of(spaces, middle).contains(node));
            }
        }
    }
}

/// Whether at most two relations lead from one revision to another.
pub open spec fn reaches(spaces: Spaces, from: GraphNode, to: GraphNode) -> bool {
    ||| from == to
    ||| targets_of(spaces, from).contains(to)
    ||| exists|middle: GraphNode| #[trigger]
        targets_of(spaces, from).contains(middle) && targets_of(spaces, middle).contains(to)
}

/// Only accepted revisions lead on, and by their own relations.
pub proof fn only_accepted_revisions_lead_on(spaces: Spaces, node: GraphNode, target: GraphNode)
    requires
        targets_of(spaces, node).contains(target),
    ensures
        node_revision(spaces, node) matches Some((_, context, revision)) && status_of(context, revision.lifecycle)
            is Accepted && exists|i: int|
            0 <= i < revision.revision.relations.len() && relation_target(
                spaces,
                #[trigger] revision.revision.relations[i],
            ) == Some(target),
{
    let i = choose|i: int|
        0 <= i < expanded(spaces, node).len() && relation_target(spaces, #[trigger] expanded(spaces, node)[i]) == Some(
            target,
        );
    assert(relation_target(spaces, expanded(spaces, node)[i]) == Some(target));
}

/// Every snapshot of a build says of its revision what the projection says: the revision is the one
/// that its Context holds, it is accepted only where governance accepts it, and it is eligible for
/// automatic injection only where it is accepted, complete, and its Context is not blocked.
pub proof fn snapshots_follow_the_projection(
    events: Multiset<ReducerEventView>,
    references: Seq<ProjectedEngineeringReferenceView>,
    at: int,
)
    requires
        0 <= at < built_snapshots(projection(events).spaces, references).len(),
        node_revision(
            projection(events).spaces,
            node_of(
                set_listing::<GraphKey>(keys_of_nodes(captured_nodes(projection(events).spaces, references)))[at],
            ),
        ) is Some,
    ensures
        ({
            let spaces = projection(events).spaces;
            let snapshot = built_snapshots(spaces, references)[at];
            let owner = owner_of(spaces, snapshot.context_id);
            let (_, space, context) = owner->Some_0;
            let revision_id = snapshot.revision.revision_id;
            &&& owner is Some
            &&& context.context_id == snapshot.context_id
            &&& context.revisions.contains_key(revision_id)
            &&& context.revisions[revision_id].revision == snapshot.revision
            &&& snapshot.status is Accepted <==> governs(context.governance, revision_id)
            &&& snapshot.status is GovernanceConflict <==> context.governance is GovernanceConflict
            &&& snapshot.evidence_completeness == completeness(snapshot.revision)
            &&& snapshot.safety.automatic_injection_eligible ==> governs(context.governance, revision_id)
                && context.auto_injection.blockers == Set::<AutoInjectionBlocker>::empty()
                && snapshot.evidence_completeness == 1_000
            &&& snapshot.space_title == title_of(space)
        }),
{
    let spaces = projection(events).spaces;
    let keys = set_listing::<GraphKey>(keys_of_nodes(captured_nodes(spaces, references)));
    let node = node_of(keys[at]);
    let (space_id, space, context) = owner_of(spaces, node.context_id)->Some_0;
    let place = last_place(spaces, node.context_id, false)->Some_0;
    assert(holds_last(spaces, node.context_id, false, place));
    projected_contexts_are_their_own(events, place.0, place.1);
    accepted_snapshots_are_governed(events, place.0, place.1, node.revision_id);
    let entry = context.revisions[node.revision_id];
    only_safe_revisions_are_eligible(context, entry.revision, status_of(context, entry.lifecycle));
    complete_evidence_is_complete_throughout(entry.revision);
}

/// The snapshot of an accepted revision that is near a Reference has, for every relation of the revision
/// to a captured revision, a relation of the same kind, rationale and supports that names the Space,
/// Context and revision it leads to.
pub proof fn snapshots_keep_relations_to_captured_revisions(
    spaces: Spaces,
    near: Set<GraphNode>,
    included: Set<GraphNode>,
    node: GraphNode,
    at: int,
    target: GraphNode,
) -> (place: int)
    requires
        node_revision(spaces, node) is Some,
        snapshot_at(spaces, near, included, node).status is Accepted,
        near.contains(node),
        0 <= at < node_revision(spaces, node)->Some_0.2.revision.relations.len(),
        relation_target(spaces, node_revision(spaces, node)->Some_0.2.revision.relations[at]) == Some(target),
        included.contains(target),
    ensures
        ({
            let relation = node_revision(spaces, node)->Some_0.2.revision.relations[at];
            let kept = snapshot_at(spaces, near, included, node).relations;
            &&& 0 <= place < kept.len()
            &&& kept[place].target_space_id == target.space_id
            &&& kept[place].target_context_id == target.context_id
            &&& kept[place].target_revision_id == target.revision_id
            &&& kept[place].kind == relation.kind
            &&& kept[place].rationale == relation.rationale
            &&& kept[place].supports == relation.supports
        }),
{
    let relations = node_revision(spaces, node)->Some_0.2.revision.relations;
    let all = fixed_relations(spaces, included, relations);
    let fixed = fixed_relation(spaces, included, relations[at])->Some_0;
    assert(fixed_relation(spaces, included, relations[at]) == Some(fixed));
    assert(all.contains(fixed));
    fixed_relations_are_finite(spaces, included, relations);
    listing_lists::<GraphContextRelation>(all);
    let kept = set_listing::<GraphContextRelation>(all);
    assert(kept.to_set().contains(fixed));
    choose|place: int| 0 <= place < kept.len() && kept[place] == fixed
}

/// Every relation of a snapshot is one of its revision, leads to a captured revision that is accepted, and
/// belongs to an accepted revision near a Reference.
pub proof fn snapshots_have_no_other_relations(
    spaces: Spaces,
    near: Set<GraphNode>,
    included: Set<GraphNode>,
    node: GraphNode,
    place: int,
) -> (at: int)
    requires
        node_revision(spaces, node) is Some,
        0 <= place < snapshot_at(spaces, near, included, node).relations.len(),
    ensures
        ({
            let relations = node_revision(spaces, node)->Some_0.2.revision.relations;
            let kept = snapshot_at(spaces, near, included, node).relations[place];
            let target = GraphNode {
                space_id: kept.target_space_id,
                context_id: kept.target_context_id,
                revision_id: kept.target_revision_id,
            };
            &&& snapshot_at(spaces, near, included, node).status is Accepted
            &&& near.contains(node)
            &&& 0 <= at < relations.len()
            &&& relation_target(spaces, relations[at]) == Some(target)
            &&& included.contains(target)
            &&& kept.kind == relations[at].kind
            &&& kept.rationale == relations[at].rationale
            &&& kept.supports == relations[at].supports
        }),
{
    let relations = node_revision(spaces, node)->Some_0.2.revision.relations;
    let all = fixed_relations(spaces, included, relations);
    fixed_relations_are_finite(spaces, included, relations);
    listing_lists::<GraphContextRelation>(all);
    let kept = set_listing::<GraphContextRelation>(all);
    assert(kept.to_set().contains(kept[place]));
    choose|at: int|
        0 <= at < relations.len() && fixed_relation(spaces, included, #[trigger] relations[at]) == Some(kept[place])
}

/// The titles of a Space are those of its intent heads; a Space with one title has it for its own.
pub proof fn spaces_are_titled_by_their_heads(
    space: ContextSpaceProjectionView,
    head: RevisionId,
    title: Seq<char>,
)
    ensures
        space.intent.heads.contains(head) && space.intent.revisions.contains_key(head) ==> titles_of(space).contains(
            space.intent.revisions[head].intent.title,
        ),
        (forall|other: RevisionId| #[trigger]
            space.intent.heads.contains(other) && space.intent.revisions.contains_key(other)
                ==> space.intent.revisions[other].intent.title != title) ==> !titles_of(space).contains(title),
        titles_of(space) == Set::<Seq<char>>::empty().insert(title) ==> title_of(space) == title,
{
    if titles_of(space) == Set::<Seq<char>>::empty().insert(title) {
        let all = titles_of(space);
        listing_lists::<String>(all);
        let listing = set_listing::<String>(all);
        crate::order::ascending_has_no_duplicates::<String>(listing);
        assert(listing.to_set().contains(title));
        assert forall|i: int| 0 <= i < listing.len() implies #[trigger] listing[i] == title by {
            assert(listing.to_set().contains(listing[i]));
        }
        if listing.len() > 1 {
            assert(listing[0] == listing[1]);
        }
        assert(listing.len() == 1);
    }
}

/// The parts of a title are parted by bars, in order.
pub proof fn titles_are_parted_by_bars(space: ContextSpaceProjectionView, front: Seq<Seq<char>>, last: Seq<char>)
    requires
        front.len() > 0,
        set_listing::<String>(titles_of(space)) == front.push(last),
    ensures
        title_of(space) == joined_by(front, " | "@) + " | "@ + last,
{
    assert(front.push(last).drop_last() =~= front);
}

/// A build is granted only where every captured revision is there, belongs to a Space with a title, and
/// makes a valid snapshot.
pub proof fn granted_builds_make_valid_snapshots(
    spaces: Spaces,
    references: Seq<ProjectedEngineeringReferenceView>,
    at: int,
)
    requires
        build_problem(spaces, references) is None,
        0 <= at < set_listing::<GraphNode>(captured_nodes(spaces, references)).len(),
    ensures
        ({
            let (near, included) = (near_nodes(spaces, references), captured_nodes(spaces, references));
            let node = set_listing::<GraphNode>(included)[at];
            &&& node_revision(spaces, node) is Some
            &&& titles_of(node_revision(spaces, node)->Some_0.0) != Set::<Seq<char>>::empty()
            &&& snapshot_at(spaces, near, included, node).problem() is None
        }),
{
    let (near, included) = (near_nodes(spaces, references), captured_nodes(spaces, references));
    let nodes = set_listing::<GraphNode>(included);
    let problem = |i: int| node_problem(spaces, near, included, nodes[i]);
    first_failures_are_failures(problem, 0, nodes.len());
    assert(problem(at) is None);
}

} // verus!
