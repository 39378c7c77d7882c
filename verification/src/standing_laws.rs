//! What is enough for an Event to stand: laws that say which Events the reduction must keep.

use vstd::multiset::Multiset;
use vstd::prelude::*;

use crate::confirmation::{ContextSpaceAssociationOrigin, ContextSpaceAssociationView};
use crate::conflict_laws::{scopes_are_apart, scopes_that_meet_in_every_dimension_overlap};
use crate::conflicts::{
    conflict_of, participant_revision, participant_stands, resolution_node, resolution_nodes, resolution_of, resolves,
    scopes_overlap, share_topic, valid_conflict, valid_resolution,
};
use crate::contexts::valid_intent;
use crate::dag::{answers, grounded_deeper, grounded_within, is_grounded, parent_grounded, DagNodeView};
use crate::definitions::sound;
use crate::engineering::ContextRelationView;
use crate::events::{ReducerEventView, ReducerPayloadView};
use crate::governance::{
    association_node, association_nodes, association_of, candidate_exists, context_lives, is_reviewed, live_context,
    live_revision, publication_node, publication_nodes, publication_of, valid_association, valid_publication,
};
use crate::ids::{ContextId, SpaceId};
use crate::lineage::{
    adds_to, context_exists, context_node, context_nodes, first_relation_fault, grounded_revision, intent_node,
    intent_nodes, intent_of, live, newly_quarantined, parent_quarantined, quarantine, quarantine_after, relation_fault,
    revision_fault, revision_of,
};
use crate::model::{
    participant_contexts, result_contexts, ApplicabilityView, ConflictResolutionView, ContextRevisionView,
    IntentRevisionView, PublicationView, SemanticConflictView,
};
use crate::ownership::{ambiguous, valid_spaces};

verus! {

/// A node stands where, for every parent that it names, a node of its own group with that identity
/// stands.
pub proof fn nodes_of_standing_parents_stand(nodes: Set<DagNodeView>, node: DagNodeView, parents: Seq<DagNodeView>)
    requires
        parents.len() == node.parents.len(),
        forall|i: int|
            0 <= i < parents.len() ==> nodes.contains(#[trigger] parents[i]) && parents[i].id == node.parents[i]
                && parents[i].group == node.group && is_grounded(nodes, parents[i]),
    ensures
        is_grounded(nodes, node),
{
    let depth = common_depth(nodes, parents);
    assert forall|i: int| 0 <= i < node.parents.len() implies parent_grounded(
        nodes,
        depth,
        node,
        #[trigger] node.parents[i],
    ) by {
        assert(nodes.contains(parents[i]));
        assert(answers(parents[i], node, node.parents[i]));
    }
    assert(grounded_within(nodes, depth + 1, node));
}

proof fn common_depth(nodes: Set<DagNodeView>, parents: Seq<DagNodeView>) -> (depth: nat)
    requires
        forall|i: int| 0 <= i < parents.len() ==> is_grounded(nodes, #[trigger] parents[i]),
    ensures
        forall|i: int| 0 <= i < parents.len() ==> grounded_within(nodes, depth, #[trigger] parents[i]),
    decreases parents.len(),
{
    if parents.len() == 0 {
        0
    } else {
        let rest = parents.drop_last();
        assert forall|i: int| 0 <= i < rest.len() implies is_grounded(nodes, #[trigger] rest[i]) by {
            assert(rest[i] == parents[i]);
        }
        let before = common_depth(nodes, rest);
        assert(is_grounded(nodes, parents[parents.len() - 1]));
        let own = choose|depth: nat| #[trigger] grounded_within(nodes, depth, parents.last());
        let depth = before + own;
        assert forall|i: int| 0 <= i < parents.len() implies grounded_within(nodes, depth, #[trigger] parents[i]) by {
            if i < rest.len() {
                assert(rest[i] == parents[i]);
                much_deeper(nodes, before, own, parents[i]);
            } else {
                much_deeper(nodes, own, before, parents[i]);
            }
        }
        depth
    }
}

proof fn much_deeper(nodes: Set<DagNodeView>, depth: nat, more: nat, node: DagNodeView)
    requires
        grounded_within(nodes, depth, node),
    ensures
        grounded_within(nodes, depth + more, node),
    decreases more,
{
    if more > 0 {
        much_deeper(nodes, depth, (more - 1) as nat, node);
        grounded_deeper(nodes, depth + (more - 1) as nat, node);
        assert(depth + more == depth + (more - 1) as nat + 1);
    }
}

/// A sound publication of a live revision is valid where every review that it names is a valid review of
/// that revision, and every publication that it follows is a valid one of the same Context.
pub proof fn publications_of_live_revisions_are_valid(
    events: Multiset<ReducerEventView>,
    event: ReducerEventView,
    space_id: SpaceId,
    context_id: ContextId,
    publication: PublicationView,
    earlier: Seq<ReducerEventView>,
)
    requires
        events.contains(event),
        event.payload == (ReducerPayloadView::ContextPublicationChanged { space_id, context_id, publication }),
        sound(events, event),
        live_revision(events, space_id, context_id, publication.revision_id),
        forall|i: int|
            0 <= i < publication.review_event_ids.len() ==> is_reviewed(
                events,
                #[trigger] publication.review_event_ids[i],
                space_id,
                context_id,
                publication.revision_id,
            ),
        earlier.len() == publication.previous_publication_ids.len(),
        forall|i: int|
            0 <= i < earlier.len() ==> events.contains(#[trigger] earlier[i]) && valid_publication(events, earlier[i])
                && publication_of(earlier[i])->Some_0.1 == context_id && publication_of(
                earlier[i],
            )->Some_0.2.publication_id == publication.previous_publication_ids[i],
    ensures
        valid_publication(events, event),
{
    let nodes = publication_nodes(events);
    let node = publication_node(events, event)->Some_0;
    let parents = Seq::new(earlier.len(), |i: int| publication_node(events, earlier[i])->Some_0);
    assert forall|i: int| 0 <= i < parents.len() implies nodes.contains(#[trigger] parents[i]) && parents[i].id
        == node.parents[i] && parents[i].group == node.group && is_grounded(nodes, parents[i]) by {
        assert(events.contains(earlier[i]) && publication_node(events, earlier[i]) == Some(parents[i]));
    }
    nodes_of_standing_parents_stand(nodes, node, parents);
}

/// A sound intent revision of a valid Space is valid where every revision that it follows is a valid one
/// of the same Space.
pub proof fn intents_of_valid_spaces_are_valid(
    events: Multiset<ReducerEventView>,
    event: ReducerEventView,
    space_id: SpaceId,
    revision: IntentRevisionView,
    earlier: Seq<ReducerEventView>,
)
    requires
        events.contains(event),
        intent_of(event) == Some((space_id, revision)),
        sound(events, event),
        valid_spaces(events).contains(space_id),
        earlier.len() == revision.parent_revision_ids.len(),
        forall|i: int|
            0 <= i < earlier.len() ==> events.contains(#[trigger] earlier[i]) && valid_intent(events, earlier[i])
                && intent_of(earlier[i])->Some_0.0 == space_id && intent_of(earlier[i])->Some_0.1.revision_id
                == revision.parent_revision_ids[i],
    ensures
        valid_intent(events, event),
{
    let nodes = intent_nodes(events);
    let node = intent_node(events, event)->Some_0;
    let parents = Seq::new(earlier.len(), |i: int| intent_node(events, earlier[i])->Some_0);
    assert forall|i: int| 0 <= i < parents.len() implies nodes.contains(#[trigger] parents[i]) && parents[i].id
        == node.parents[i] && parents[i].group == node.group && is_grounded(nodes, parents[i]) by {
        assert(events.contains(earlier[i]) && intent_node(events, earlier[i]) == Some(parents[i]));
    }
    nodes_of_standing_parents_stand(nodes, node, parents);
}

/// A sound correction of valid Spaces for a Context that lives is valid where every association that it
/// follows is a valid one of the same Context; one by a confirmation needs the Context to live in the
/// primary Space, and the Candidate to exist.
pub proof fn associations_of_valid_spaces_are_valid(
    events: Multiset<ReducerEventView>,
    event: ReducerEventView,
    association: ContextSpaceAssociationView,
    earlier: Seq<ReducerEventView>,
)
    requires
        events.contains(event),
        association_of(event) == Some(association),
        sound(events, event),
        valid_spaces(events).contains(association.primary_space_id),
        forall|i: int|
            0 <= i < association.related_space_ids.len() ==> valid_spaces(events).contains(
                #[trigger] association.related_space_ids[i],
            ),
        context_lives(events, association.context_id),
        association.origin matches ContextSpaceAssociationOrigin::CandidateConfirmation { candidate_id } ==> live_context(
            events,
            association.primary_space_id,
            association.context_id,
        ) && candidate_exists(events, candidate_id),
        earlier.len() == association.previous_association_ids.len(),
        forall|i: int|
            0 <= i < earlier.len() ==> events.contains(#[trigger] earlier[i]) && valid_association(events, earlier[i])
                && association_of(earlier[i])->Some_0.context_id == association.context_id && association_of(
                earlier[i],
            )->Some_0.association_id == association.previous_association_ids[i],
    ensures
        valid_association(events, event),
{
    let nodes = association_nodes(events);
    let node = association_node(events, event)->Some_0;
    let parents = Seq::new(earlier.len(), |i: int| association_node(events, earlier[i])->Some_0);
    assert forall|i: int| 0 <= i < parents.len() implies nodes.contains(#[trigger] parents[i]) && parents[i].id
        == node.parents[i] && parents[i].group == node.group && is_grounded(nodes, parents[i]) by {
        assert(events.contains(earlier[i]) && association_node(events, earlier[i]) == Some(parents[i]));
    }
    nodes_of_standing_parents_stand(nodes, node, parents);
}

/// A sound resolution that settles a valid conflict is valid where every resolution that it follows is a
/// valid one of the same conflict.
pub proof fn resolutions_of_valid_conflicts_are_valid(
    events: Multiset<ReducerEventView>,
    event: ReducerEventView,
    opening: ReducerEventView,
    space_id: SpaceId,
    conflict: SemanticConflictView,
    resolution: ConflictResolutionView,
    earlier: Seq<ReducerEventView>,
)
    requires
        events.contains(event),
        events.contains(opening),
        sound(events, event),
        valid_conflict(events, opening),
        conflict_of(opening) == Some((space_id, conflict)),
        resolution_of(event) == Some((space_id, conflict.conflict_id, resolution)),
        result_contexts(resolution.results).to_set() == participant_contexts(conflict.participants).to_set(),
        forall|i: int|
            0 <= i < resolution.results.len() ==> live_revision(
                events,
                space_id,
                (#[trigger] resolution.results[i]).context_id,
                resolution.results[i].revision_id,
            ),
        forall|i: int|
            0 <= i < resolution.related_publication_ids.len() ==> crate::conflicts::is_participant_publication(
                events,
                space_id,
                conflict.participants,
                #[trigger] resolution.related_publication_ids[i],
            ),
        earlier.len() == resolution.previous_resolution_ids.len(),
        forall|i: int|
            0 <= i < earlier.len() ==> events.contains(#[trigger] earlier[i]) && valid_resolution(events, earlier[i])
                && resolution_of(earlier[i])->Some_0.1 == conflict.conflict_id && resolution_of(
                earlier[i],
            )->Some_0.2.resolution_id == resolution.previous_resolution_ids[i],
    ensures
        valid_resolution(events, event),
{
    assert(resolves(events, opening, event));
    let nodes = resolution_nodes(events);
    let node = resolution_node(events, event)->Some_0;
    let parents = Seq::new(earlier.len(), |i: int| resolution_node(events, earlier[i])->Some_0);
    assert forall|i: int| 0 <= i < parents.len() implies nodes.contains(#[trigger] parents[i]) && parents[i].id
        == node.parents[i] && parents[i].group == node.group && is_grounded(nodes, parents[i]) by {
        assert(events.contains(earlier[i]) && resolution_node(events, earlier[i]) == Some(parents[i]));
    }
    nodes_of_standing_parents_stand(nodes, node, parents);
}

/// A sound revision of a valid Space and a Context that one Space claims lives where its relations are
/// valid and lead to other Contexts with a live revision, every revision that it follows is grounded in
/// the same Context, and none of them is quarantined.
pub proof fn unfaulted_revisions_live(
    events: Multiset<ReducerEventView>,
    event: ReducerEventView,
    space_id: SpaceId,
    context_id: ContextId,
    revision: ContextRevisionView,
    earlier: Seq<ReducerEventView>,
)
    requires
        events.contains(event),
        revision_of(event) == Some((space_id, context_id, revision)),
        sound(events, event),
        valid_spaces(events).contains(space_id),
        !ambiguous(events, context_id),
        forall|i: int|
            0 <= i < revision.relations.len() ==> (#[trigger] revision.relations[i]).problem() is None
                && revision.relations[i].target_context_id != context_id && context_lives(
                events,
                revision.relations[i].target_context_id,
            ),
        earlier.len() == revision.parent_revision_ids.len(),
        forall|i: int|
            0 <= i < earlier.len() ==> events.contains(#[trigger] earlier[i]) && grounded_revision(events, earlier[i])
                && revision_of(earlier[i])->Some_0.1 == context_id && revision_of(earlier[i])->Some_0.2.revision_id
                == revision.parent_revision_ids[i],
        forall|other: ReducerEventView| #[trigger]
            quarantine(events).contains(other) && adds_to(other, context_id) ==> !revision.parent_revision_ids.contains(
                revision_of(other)->Some_0.2.revision_id,
            ),
    ensures
        live(events, event),
{
    let nodes = context_nodes(events);
    let node = context_node(events, event)->Some_0;
    let parents = Seq::new(earlier.len(), |i: int| context_node(events, earlier[i])->Some_0);
    assert forall|i: int| 0 <= i < parents.len() implies nodes.contains(#[trigger] parents[i]) && parents[i].id
        == node.parents[i] && parents[i].group == node.group && is_grounded(nodes, parents[i]) by {
        assert(events.contains(earlier[i]) && context_node(events, earlier[i]) == Some(parents[i]));
    }
    nodes_of_standing_parents_stand(nodes, node, parents);
    assert forall|rounds: nat| !(#[trigger] quarantine_after(events, rounds)).contains(event) by {
        never_faulted(events, event, context_id, revision, rounds);
    }
}

proof fn never_faulted(
    events: Multiset<ReducerEventView>,
    event: ReducerEventView,
    context_id: ContextId,
    revision: ContextRevisionView,
    rounds: nat,
)
    requires
        revision_of(event) is Some,
        revision_of(event)->Some_0.1 == context_id,
        revision_of(event)->Some_0.2 == revision,
        forall|i: int|
            0 <= i < revision.relations.len() ==> (#[trigger] revision.relations[i]).problem() is None
                && revision.relations[i].target_context_id != context_id && context_lives(
                events,
                revision.relations[i].target_context_id,
            ),
        forall|other: ReducerEventView| #[trigger]
            quarantine(events).contains(other) && adds_to(other, context_id) ==> !revision.parent_revision_ids.contains(
                revision_of(other)->Some_0.2.revision_id,
            ),
    ensures
        !quarantine_after(events, rounds).contains(event),
    decreases rounds,
{
    if rounds > 0 {
        let before = quarantine_after(events, (rounds - 1) as nat);
        never_faulted(events, event, context_id, revision, (rounds - 1) as nat);
        assert forall|i: int| 0 <= i < revision.relations.len() implies relation_fault(
            events,
            before,
            context_id,
            #[trigger] revision.relations[i],
        ) is None by {
            let target = revision.relations[i].target_context_id;
            assert(context_lives(events, target));
            let live_one = choose|other: ReducerEventView| #[trigger]
                events.contains(other) && crate::governance::live_anywhere(events, other, target);
            assert(!quarantine(events).contains(live_one));
            assert(!before.contains(live_one)) by {
                if before.contains(live_one) {
                    assert(quarantine(events).contains(live_one));
                }
            }
            assert(context_exists(events, before, target));
        }
        no_relation_is_faulted(events, before, context_id, revision.relations, 0);
        if parent_quarantined(before, context_id, revision.parent_revision_ids) {
            let other = choose|other: ReducerEventView| #[trigger]
                before.contains(other) && adds_to(other, context_id) && revision.parent_revision_ids.contains(
                    revision_of(other)->Some_0.2.revision_id,
                );
            assert(quarantine(events).contains(other));
        }
        assert(revision_fault(events, before, event) is None);
        assert(!newly_quarantined(events, before, event));
    }
}

proof fn no_relation_is_faulted(
    events: Multiset<ReducerEventView>,
    before: Set<ReducerEventView>,
    context_id: ContextId,
    relations: Seq<ContextRelationView>,
    from: int,
)
    requires
        0 <= from <= relations.len(),
        forall|i: int|
            0 <= i < relations.len() ==> relation_fault(events, before, context_id, #[trigger] relations[i]) is None,
    ensures
        first_relation_fault(events, before, context_id, relations, from) is None,
    decreases relations.len() - from,
{
    if from < relations.len() {
        no_relation_is_faulted(events, before, context_id, relations, from + 1);
    }
}

proof fn scopes_not_apart_overlap(left: ApplicabilityView, right: ApplicabilityView)
    requires
        !scopes_are_apart(left, right),
    ensures
        scopes_overlap(left, right),
{
    scopes_that_meet_in_every_dimension_overlap(left, right);
}

/// A sound conflict of a valid Space is valid where its participants take part in it, all on one topic,
/// and no two scopes of it and of them are apart.
pub proof fn conflicts_between_rivals_are_valid(
    events: Multiset<ReducerEventView>,
    event: ReducerEventView,
    space_id: SpaceId,
    conflict: SemanticConflictView,
)
    requires
        events.contains(event),
        conflict_of(event) == Some((space_id, conflict)),
        sound(events, event),
        valid_spaces(events).contains(space_id),
        forall|i: int|
            0 <= i < conflict.participants.len() ==> participant_stands(
                events,
                space_id,
                #[trigger] conflict.participants[i],
            ),
        forall|i: int, j: int|
            0 <= i < j < conflict.participants.len() ==> {
                let left = participant_revision(events, space_id, #[trigger] conflict.participants[i]);
                let right = participant_revision(events, space_id, #[trigger] conflict.participants[j]);
                left.topic_key == right.topic_key && !scopes_are_apart(left.applicability, right.applicability)
            },
        forall|i: int|
            0 <= i < conflict.participants.len() ==> !scopes_are_apart(
                conflict.applicability,
                participant_revision(events, space_id, #[trigger] conflict.participants[i]).applicability,
            ),
    ensures
        valid_conflict(events, event),
{
    let parts = conflict.participants;
    assert forall|i: int, j: int| 0 <= i < j < parts.len() implies share_topic(
        participant_revision(events, space_id, #[trigger] parts[i]),
        participant_revision(events, space_id, #[trigger] parts[j]),
    ) by {
        scopes_not_apart_overlap(
            participant_revision(events, space_id, parts[i]).applicability,
            participant_revision(events, space_id, parts[j]).applicability,
        );
    }
    assert forall|i: int| 0 <= i < parts.len() implies scopes_overlap(
        conflict.applicability,
        participant_revision(events, space_id, #[trigger] parts[i]).applicability,
    ) by {
        scopes_not_apart_overlap(
            conflict.applicability,
            participant_revision(events, space_id, parts[i]).applicability,
        );
    }
}

} // verus!
