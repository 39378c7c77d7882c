//! Capturing Context revisions around References, up to two relations away.

use vstd::prelude::*;

use crate::checks::first_from;
use crate::collections::{SortedMap, SortedSet};
use crate::engineering::{ContextRelation, ContextRelationView};
use crate::error::{fails_as, first, given, invariant_violation, violated, ErrorView, Result};
use crate::events::{
    ContextGovernanceStatus, ContextGovernanceStatusView, ContextProjection, ContextProjectionView,
    ContextSpaceProjection, ContextSpaceProjectionView, DomainProjection, RevisionProjection,
    RevisionProjectionView,
};
use crate::gather::{gathered_first, gathered_next, gathered_none};
use crate::graph_contexts::{
    completeness, graph_context_safety, graph_context_status, safety_of, status_of, GraphContextRelation,
    GraphContextRelationView, GraphContextSnapshot, GraphContextSnapshotView, GraphContextStatus, GraphKey,
    GraphNode, ProjectedEngineeringReference, ProjectedEngineeringReferenceView,
};
use crate::ids::{ContextId, RevisionId, SpaceId};
use crate::order::{is_set_listing, listing_lists, set_listing, Ordered};
use crate::text::{join_texts, joined_by};
use crate::value::{push_value, take_next, Value};

verus! {

/// The Spaces of a projection.
pub type Spaces = Map<SpaceId, ContextSpaceProjectionView>;

/// Whether a Space holds, under a key, the projection of a Context.
pub open spec fn holds_context(
    spaces: Spaces,
    context_id: ContextId,
    only_accepted: bool,
    space_id: SpaceId,
    key: ContextId,
) -> bool {
    &&& spaces.contains_key(space_id)
    &&& spaces[space_id].contexts.contains_key(key)
    &&& spaces[space_id].contexts[key].context_id == context_id
    &&& only_accepted ==> spaces[space_id].contexts[key].governance is Accepted
}

/// Whether one place in the Spaces comes before another.
pub open spec fn place_below(space_id: SpaceId, key: ContextId, other_space: SpaceId, other_key: ContextId) -> bool {
    if space_id != other_space {
        SpaceId::below(space_id, other_space)
    } else {
        ContextId::below(key, other_key)
    }
}

/// Whether a place is the last one that holds a Context.
pub open spec fn holds_last(
    spaces: Spaces,
    context_id: ContextId,
    only_accepted: bool,
    place: (SpaceId, ContextId),
) -> bool {
    &&& holds_context(spaces, context_id, only_accepted, place.0, place.1)
    &&& forall|space_id: SpaceId, key: ContextId| #[trigger]
        holds_context(spaces, context_id, only_accepted, space_id, key) ==> !place_below(
            place.0,
            place.1,
            space_id,
            key,
        )
}

/// The last place that holds a Context, if one does.
pub open spec fn last_place(
    spaces: Spaces,
    context_id: ContextId,
    only_accepted: bool,
) -> Option<(SpaceId, ContextId)> {
    if exists|place: (SpaceId, ContextId)| holds_last(spaces, context_id, only_accepted, place) {
        Some(choose|place: (SpaceId, ContextId)| holds_last(spaces, context_id, only_accepted, place))
    } else {
        None
    }
}

/// There is one last place.
proof fn last_place_is_unique(
    spaces: Spaces,
    context_id: ContextId,
    only_accepted: bool,
    place: (SpaceId, ContextId),
)
    requires
        holds_last(spaces, context_id, only_accepted, place),
    ensures
        last_place(spaces, context_id, only_accepted) == Some(place),
{
    let chosen = choose|chosen: (SpaceId, ContextId)| holds_last(spaces, context_id, only_accepted, chosen);
    assert(holds_last(spaces, context_id, only_accepted, chosen));
    SpaceId::order_laws(place.0, chosen.0, place.0);
    ContextId::order_laws(place.1, chosen.1, place.1);
    assert(holds_context(spaces, context_id, only_accepted, chosen.0, chosen.1));
    assert(holds_context(spaces, context_id, only_accepted, place.0, place.1));
}

fn is_accepted(context: &ContextProjection) -> (accepted: bool)
    ensures
        accepted == (context.deep_view().governance is Accepted),
{
    match &context.governance {
        ContextGovernanceStatus::Accepted { publication_id: _, revision_id: _ } => true,
        _ => false,
    }
}

/// Whether a key is the last one in a Space that holds a Context.
spec fn last_in_space(
    contexts: Map<ContextId, ContextProjectionView>,
    context_id: ContextId,
    only_accepted: bool,
    key: ContextId,
) -> bool {
    &&& in_space(contexts, context_id, only_accepted, key)
    &&& forall|other: ContextId| #[trigger]
        in_space(contexts, context_id, only_accepted, other) ==> !ContextId::below(key, other)
}

spec fn in_space(
    contexts: Map<ContextId, ContextProjectionView>,
    context_id: ContextId,
    only_accepted: bool,
    key: ContextId,
) -> bool {
    contexts.contains_key(key) && contexts[key].context_id == context_id && (only_accepted
        ==> contexts[key].governance is Accepted)
}

fn find_in_space(
    contexts: &SortedMap<ContextId, ContextProjection>,
    context_id: ContextId,
    only_accepted: bool,
) -> (found: Option<ContextId>)
    ensures
        match found {
            Some(key) => last_in_space(contexts.deep_view(), context_id, only_accepted, key),
            None => forall|key: ContextId| !in_space(contexts.deep_view(), context_id, only_accepted, key),
        },
{
    let ghost map = contexts.deep_view();
    let ghost keys = contexts.listing();
    let count = contexts.len();
    let mut left: usize = count;
    while left > 0
        invariant
            left <= count == keys.len(),
            keys == contexts.listing(),
            map == contexts.deep_view(),
            crate::order::ascending::<ContextId>(keys),
            keys.to_set() == map.dom(),
            forall|i: int| left <= i < keys.len() ==> !in_space(map, context_id, only_accepted, #[trigger] keys[i]),
        decreases left,
    {
        let at: usize = left - 1;
        let key = *contexts.key_at(at);
        let context = contexts.value_at(at);
        assert(keys[at as int] == key);
        if context.context_id == context_id && (!only_accepted || is_accepted(context)) {
            proof {
                assert(in_space(map, context_id, only_accepted, key));
                assert forall|other: ContextId| #[trigger]
                    in_space(map, context_id, only_accepted, other) implies !ContextId::below(key, other) by {
                    assert(keys.to_set().contains(other));
                    let i = choose|i: int| 0 <= i < keys.len() && keys[i] == other;
                    if i < at {
                        assert(ContextId::below(keys[i], keys[at as int]));
                        ContextId::order_laws(key, other, key);
                    } else if i == at {
                        ContextId::order_laws(key, other, key);
                    }
                }
            }
            return Some(key);
        }
        left = at;
    }
    proof {
        assert forall|key: ContextId| !in_space(map, context_id, only_accepted, key) by {
            if in_space(map, context_id, only_accepted, key) {
                assert(keys.to_set().contains(key));
                let i = choose|i: int| 0 <= i < keys.len() && keys[i] == key;
                assert(!in_space(map, context_id, only_accepted, keys[i]));
            }
        }
    }
    None
}

/// Finds the last place that holds a Context.
fn find_place(
    spaces: &SortedMap<SpaceId, ContextSpaceProjection>,
    context_id: ContextId,
    only_accepted: bool,
) -> (place: Option<(SpaceId, ContextId)>)
    ensures
        place == last_place(spaces.deep_view(), context_id, only_accepted),
        match place {
            Some((space_id, key)) => holds_context(spaces.deep_view(), context_id, only_accepted, space_id, key),
            None => true,
        },
{
    let ghost map = spaces.deep_view();
    let ghost keys = spaces.listing();
    let count = spaces.len();
    let mut left: usize = count;
    while left > 0
        invariant
            left <= count == keys.len(),
            keys == spaces.listing(),
            map == spaces.deep_view(),
            crate::order::ascending::<SpaceId>(keys),
            keys.to_set() == map.dom(),
            forall|i: int, key: ContextId|
                left <= i < keys.len() ==> !#[trigger] holds_context(map, context_id, only_accepted, keys[i], key),
        decreases left,
    {
        let at: usize = left - 1;
        let space_id = *spaces.key_at(at);
        let space = spaces.value_at(at);
        assert(keys[at as int] == space_id);
        assert(map[space_id].contexts == space.contexts.deep_view());
        if let Some(key) = find_in_space(&space.contexts, context_id, only_accepted) {
            proof {
                assert(holds_context(map, context_id, only_accepted, space_id, key));
                assert forall|other: SpaceId, inner: ContextId| #[trigger]
                    holds_context(map, context_id, only_accepted, other, inner) implies !place_below(
                    space_id,
                    key,
                    other,
                    inner,
                ) by {
                    assert(keys.to_set().contains(other));
                    let i = choose|i: int| 0 <= i < keys.len() && keys[i] == other;
                    if i > at {
                        assert(!holds_context(map, context_id, only_accepted, keys[i], inner));
                    } else if i < at {
                        assert(SpaceId::below(keys[i], keys[at as int]));
                        SpaceId::order_laws(space_id, other, space_id);
                    } else {
                        assert(in_space(space.contexts.deep_view(), context_id, only_accepted, inner));
                    }
                }
                last_place_is_unique(map, context_id, only_accepted, (space_id, key));
            }
            return Some((space_id, key));
        }
        proof {
            assert forall|i: int, key: ContextId| at <= i < keys.len() implies !#[trigger] holds_context(
                map,
                context_id,
                only_accepted,
                keys[i],
                key,
            ) by {
                if i == at {
                    assert(!in_space(space.contexts.deep_view(), context_id, only_accepted, key));
                }
            }
        }
        left = at;
    }
    proof {
        if exists|place: (SpaceId, ContextId)| holds_last(map, context_id, only_accepted, place) {
            let place = choose|place: (SpaceId, ContextId)| holds_last(map, context_id, only_accepted, place);
            assert(keys.to_set().contains(place.0));
            let i = choose|i: int| 0 <= i < keys.len() && keys[i] == place.0;
            assert(!holds_context(map, context_id, only_accepted, keys[i], place.1));
        }
    }
    None
}

/// The Space that owns a Context, and the Context.
pub open spec fn owner_of(
    spaces: Spaces,
    context_id: ContextId,
) -> Option<(SpaceId, ContextSpaceProjectionView, ContextProjectionView)> {
    match last_place(spaces, context_id, false) {
        Some((space_id, key)) => Some((space_id, spaces[space_id], spaces[space_id].contexts[key])),
        None => None,
    }
}

fn find_owner<'a>(spaces: &'a SortedMap<SpaceId, ContextSpaceProjection>, context_id: ContextId) -> (owner: Option<
    (SpaceId, &'a ContextSpaceProjection, &'a ContextProjection),
>)
    ensures
        match owner {
            Some((space_id, space, context)) => owner_of(spaces.deep_view(), context_id) == Some(
                (space_id, space.deep_view(), context.deep_view()),
            ),
            None => owner_of(spaces.deep_view(), context_id) is None,
        },
{
    match find_place(spaces, context_id, false) {
        Some((space_id, key)) => match spaces.get(&space_id) {
            Some(space) => match space.contexts.get(&key) {
                Some(context) => Some((space_id, space, context)),
                None => None,
            },
            None => None,
        },
        None => None,
    }
}

/// The accepted revision of a Context, and its Space.
pub open spec fn accepted_target(spaces: Spaces, context_id: ContextId) -> Option<(SpaceId, RevisionId)> {
    match last_place(spaces, context_id, true) {
        Some((space_id, key)) => match spaces[space_id].contexts[key].governance {
            ContextGovernanceStatusView::Accepted { publication_id: _, revision_id } => Some((space_id, revision_id)),
            _ => None,
        },
        None => None,
    }
}

fn find_target(spaces: &SortedMap<SpaceId, ContextSpaceProjection>, context_id: ContextId) -> (target: Option<
    (SpaceId, RevisionId),
>)
    ensures
        target == accepted_target(spaces.deep_view(), context_id),
{
    match find_place(spaces, context_id, true) {
        Some((space_id, key)) => match spaces.get(&space_id) {
            Some(space) => match space.contexts.get(&key) {
                Some(context) => match &context.governance {
                    ContextGovernanceStatus::Accepted { publication_id: _, revision_id } => Some(
                        (space_id, *revision_id),
                    ),
                    _ => None,
                },
                None => None,
            },
            None => None,
        },
        None => None,
    }
}

/// Why a Reference roots no snapshot, if it does not.
pub open spec fn root_problem(spaces: Spaces, reference: ProjectedEngineeringReferenceView) -> Option<ErrorView> {
    match owner_of(spaces, reference.context_id) {
        None => violated("projected Engineering Reference Context owner is missing"@),
        Some((_, _, context)) => given(
            !context.revisions.contains_key(reference.revision_id),
            violated("projected Engineering Reference Revision is missing from its Context"@),
        ),
    }
}

/// The revision that a Reference roots a snapshot of.
pub open spec fn root_of(spaces: Spaces, reference: ProjectedEngineeringReferenceView) -> GraphNode {
    GraphNode {
        space_id: owner_of(spaces, reference.context_id)->Some_0.0,
        context_id: reference.context_id,
        revision_id: reference.revision_id,
    }
}

/// The revisions that References root snapshots of.
pub open spec fn roots_of(spaces: Spaces, references: Seq<ProjectedEngineeringReferenceView>) -> Set<GraphNode> {
    Seq::new(references.len(), |i: int| root_of(spaces, references[i])).to_set()
}

/// The projection of the revision at a node.
pub open spec fn node_revision(
    spaces: Spaces,
    node: GraphNode,
) -> Option<(ContextSpaceProjectionView, ContextProjectionView, RevisionProjectionView)> {
    match owner_of(spaces, node.context_id) {
        Some((_, space, context)) => {
            if context.revisions.contains_key(node.revision_id) {
                Some((space, context, context.revisions[node.revision_id]))
            } else {
                None
            }
        },
        None => None,
    }
}

fn find_revision<'a>(spaces: &'a SortedMap<SpaceId, ContextSpaceProjection>, node: GraphNode) -> (found: Option<
    (&'a ContextSpaceProjection, &'a ContextProjection, &'a RevisionProjection),
>)
    ensures
        match found {
            Some((space, context, revision)) => node_revision(spaces.deep_view(), node) == Some(
                (space.deep_view(), context.deep_view(), revision.deep_view()),
            ),
            None => node_revision(spaces.deep_view(), node) is None,
        },
{
    match find_owner(spaces, node.context_id) {
        Some((_, space, context)) => match context.revisions.get(&node.revision_id) {
            Some(revision) => Some((space, context, revision)),
            None => None,
        },
        None => None,
    }
}

/// The node that a relation leads to: the accepted revision of its target.
pub open spec fn relation_target(spaces: Spaces, relation: ContextRelationView) -> Option<GraphNode> {
    match accepted_target(spaces, relation.target_context_id) {
        Some((space_id, revision_id)) => Some(
            GraphNode { space_id, context_id: relation.target_context_id, revision_id },
        ),
        None => None,
    }
}

fn target_of(spaces: &SortedMap<SpaceId, ContextSpaceProjection>, relation: &ContextRelation) -> (target: Option<
    GraphNode,
>)
    ensures
        target == relation_target(spaces.deep_view(), relation.deep_view()),
{
    match find_target(spaces, relation.target_context_id) {
        Some((space_id, revision_id)) => Some(
            GraphNode { space_id, context_id: relation.target_context_id, revision_id },
        ),
        None => None,
    }
}

/// The relations that a node is expanded over: those of an accepted revision.
pub open spec fn expanded(spaces: Spaces, node: GraphNode) -> Seq<ContextRelationView> {
    match node_revision(spaces, node) {
        Some((_, context, revision)) => {
            if status_of(context, revision.lifecycle) == GraphContextStatus::Accepted {
                revision.revision.relations
            } else {
                Seq::empty()
            }
        },
        None => Seq::empty(),
    }
}

/// The nodes that a node leads to.
pub open spec fn targets_of(spaces: Spaces, node: GraphNode) -> Set<GraphNode> {
    Set::new(
        |target: GraphNode| exists|i: int|
            0 <= i < expanded(spaces, node).len() && relation_target(spaces, #[trigger] expanded(spaces, node)[i])
                == Some(target),
    )
}

/// Nodes and the nodes that they lead to.
pub open spec fn one_step(spaces: Spaces, nodes: Set<GraphNode>) -> Set<GraphNode> {
    Set::new(
        |target: GraphNode| nodes.contains(target) || exists|node: GraphNode| #[trigger]
            nodes.contains(node) && targets_of(spaces, node).contains(target),
    )
}

fn add_targets(
    spaces: &SortedMap<SpaceId, ContextSpaceProjection>,
    relations: &Vec<ContextRelation>,
    found: &mut SortedSet<GraphNode>,
)
    ensures
        final(found).deep_view() == old(found).deep_view().union(
            Set::new(
                |target: GraphNode| exists|i: int|
                    0 <= i < relations.deep_view().len() && relation_target(
                        spaces.deep_view(),
                        #[trigger] relations.deep_view()[i],
                    ) == Some(target),
            ),
        ),
{
    let ghost map = spaces.deep_view();
    let ghost model = relations.deep_view();
    let ghost start = found.deep_view();
    let ghost share = |relation: ContextRelationView| crate::gather::only(relation_target(map, relation));
    let mut index: usize = 0;
    proof {
        gathered_none(model, share);
        assert(start =~= start.union(Set::empty()));
    }
    while index < relations.len()
        invariant
            index <= relations@.len(),
            map == spaces.deep_view(),
            model == relations.deep_view(),
            share == (|relation: ContextRelationView| crate::gather::only(relation_target(map, relation))),
            found.deep_view() == start.union(gathered_first(model, share, index as int)),
        decreases relations@.len() - index,
    {
        assert(model[index as int] == relations@[index as int].deep_view());
        if let Some(target) = target_of(spaces, &relations[index]) {
            found.insert(target);
        }
        proof {
            gathered_next(model, share, index as int);
            assert(found.deep_view() =~= start.union(gathered_first(model, share, index + 1)));
        }
        index = index + 1;
    }
    proof {
        assert(model.len() == relations@.len());
        let all = Set::new(
            |target: GraphNode| exists|i: int|
                0 <= i < model.len() && relation_target(map, #[trigger] model[i]) == Some(target),
        );
        let firsts = gathered_first(model, share, model.len() as int);
        assert forall|target: GraphNode| firsts.contains(target) == all.contains(target) by {
            if firsts.contains(target) {
                let i = choose|i: int| 0 <= i < model.len() && share(#[trigger] model[i]).contains(target);
                assert(relation_target(map, model[i]) == Some(target));
            }
            if all.contains(target) {
                let i = choose|i: int|
                    0 <= i < model.len() && relation_target(map, #[trigger] model[i]) == Some(target);
                assert(share(model[i]).contains(target));
            }
        }
        assert(firsts =~= all);
    }
}

/// Expands nodes by one step.
fn expand(spaces: &SortedMap<SpaceId, ContextSpaceProjection>, nodes: &SortedSet<GraphNode>) -> (found: SortedSet<
    GraphNode,
>)
    ensures
        found.deep_view() == one_step(spaces.deep_view(), nodes.deep_view()),
{
    let ghost map = spaces.deep_view();
    let ghost listing = nodes.listing();
    let ghost share = |node: GraphNode| targets_of(map, node);
    let mut found = nodes.copied();
    let ghost start = found.deep_view();
    let count = nodes.len();
    let mut index: usize = 0;
    proof {
        gathered_none(listing, share);
        assert(start =~= start.union(Set::empty()));
    }
    while index < count
        invariant
            index <= count == listing.len(),
            map == spaces.deep_view(),
            listing == nodes.listing(),
            share == (|node: GraphNode| targets_of(map, node)),
            found.deep_view() == start.union(gathered_first(listing, share, index as int)),
        decreases count - index,
    {
        let node = *nodes.at(index);
        assert(node == listing[index as int]);
        let ghost before = found.deep_view();
        if let Some((_, context, revision)) = find_revision(spaces, node) {
            if graph_context_status(context, revision.lifecycle) == GraphContextStatus::Accepted {
                add_targets(spaces, &revision.revision.relations, &mut found);
            }
        }
        proof {
            gathered_next(listing, share, index as int);
            assert(found.deep_view() =~= before.union(targets_of(map, node)));
            assert(found.deep_view() =~= start.union(gathered_first(listing, share, index + 1)));
        }
        index = index + 1;
    }
    proof {
        let all = one_step(map, nodes.deep_view());
        let set = nodes.deep_view();
        assert forall|target: GraphNode| found.deep_view().contains(target) == all.contains(target) by {
            if gathered_first(listing, share, count as int).contains(target) {
                let i = choose|i: int| 0 <= i < listing.len() && share(#[trigger] listing[i]).contains(target);
                assert(listing.to_set().contains(listing[i]));
                assert(set.contains(listing[i]));
            }
            if all.contains(target) && !set.contains(target) {
                let node = choose|node: GraphNode| #[trigger]
                    set.contains(node) && targets_of(map, node).contains(target);
                assert(listing.to_set().contains(node));
                let i = choose|i: int| 0 <= i < listing.len() && listing[i] == node;
                assert(share(listing[i]).contains(target));
            }
        }
        assert(found.deep_view() =~= all);
    }
    found
}

/// The titles of the intent heads of a Space.
pub open spec fn titles_of(space: ContextSpaceProjectionView) -> Set<Seq<char>> {
    Set::new(
        |title: Seq<char>| exists|head: RevisionId| #[trigger]
            space.intent.heads.contains(head) && space.intent.revisions.contains_key(head)
                && space.intent.revisions[head].intent.title == title,
    )
}

/// The title of a Space: the titles of its intent heads, sorted and joined.
pub open spec fn title_of(space: ContextSpaceProjectionView) -> Seq<char> {
    joined_by(set_listing::<String>(titles_of(space)), " | "@)
}

fn graph_space_title(space: &ContextSpaceProjection) -> (result: Result<String>)
    ensures
        fails_as(
            result,
            given(
                titles_of(space.deep_view()) == Set::<Seq<char>>::empty(),
                violated("Graph Context Space has no Intent title"@),
            ),
        ),
        result is Ok ==> result->Ok_0@ == title_of(space.deep_view()),
{
    let ghost model = space.deep_view();
    let ghost listing = space.intent.heads.listing();
    let ghost share = |head: RevisionId|
        if model.intent.revisions.contains_key(head) {
            Set::<Seq<char>>::empty().insert(model.intent.revisions[head].intent.title)
        } else {
            Set::empty()
        };
    let mut titles: SortedSet<String> = SortedSet::new();
    let count = space.intent.heads.len();
    let mut index: usize = 0;
    proof {
        gathered_none(listing, share);
    }
    while index < count
        invariant
            index <= count == listing.len(),
            model == space.deep_view(),
            listing == space.intent.heads.listing(),
            share == (|head: RevisionId|
                if model.intent.revisions.contains_key(head) {
                    Set::<Seq<char>>::empty().insert(model.intent.revisions[head].intent.title)
                } else {
                    Set::empty()
                }),
            titles.deep_view() == gathered_first(listing, share, index as int),
        decreases count - index,
    {
        let head = space.intent.heads.at(index);
        if let Some(revision) = space.intent.revisions.get(head) {
            titles.insert(revision.intent.title.copied());
        }
        proof {
            gathered_next(listing, share, index as int);
            assert(titles.deep_view() =~= gathered_first(listing, share, index + 1));
        }
        index = index + 1;
    }
    proof {
        let all = titles_of(model);
        let heads = model.intent.heads;
        assert forall|title: Seq<char>| titles.deep_view().contains(title) == all.contains(title) by {
            if titles.deep_view().contains(title) {
                let i = choose|i: int| 0 <= i < listing.len() && share(#[trigger] listing[i]).contains(title);
                assert(listing.to_set().contains(listing[i]));
                assert(heads.contains(listing[i]));
            }
            if all.contains(title) {
                let head = choose|head: RevisionId| #[trigger]
                    heads.contains(head) && model.intent.revisions.contains_key(head)
                        && model.intent.revisions[head].intent.title == title;
                assert(listing.to_set().contains(head));
                let i = choose|i: int| 0 <= i < listing.len() && listing[i] == head;
                assert(share(listing[i]).contains(title));
            }
        }
        assert(titles.deep_view() =~= all);
    }
    if titles.is_empty() {
        return Err(invariant_violation("Graph Context Space has no Intent title"));
    }
    Ok(join_texts(titles.items(), " | "))
}

/// A relation with its target revision fixed, where that revision is captured too.
pub open spec fn fixed_relation(
    spaces: Spaces,
    included: Set<GraphNode>,
    relation: ContextRelationView,
) -> Option<GraphContextRelationView> {
    match relation_target(spaces, relation) {
        Some(target) if included.contains(target) => Some(
            GraphContextRelationView {
                target_space_id: target.space_id,
                target_context_id: target.context_id,
                target_revision_id: target.revision_id,
                kind: relation.kind,
                rationale: relation.rationale,
                supports: relation.supports,
            },
        ),
        _ => None,
    }
}

/// Relations with their target revisions fixed.
pub open spec fn fixed_relations(
    spaces: Spaces,
    included: Set<GraphNode>,
    relations: Seq<ContextRelationView>,
) -> Set<GraphContextRelationView> {
    Set::new(
        |fixed: GraphContextRelationView| exists|i: int|
            0 <= i < relations.len() && fixed_relation(spaces, included, #[trigger] relations[i]) == Some(fixed),
    )
}

fn fix_relations(
    spaces: &SortedMap<SpaceId, ContextSpaceProjection>,
    included: &SortedSet<GraphNode>,
    relations: &Vec<ContextRelation>,
) -> (fixed: SortedSet<GraphContextRelation>)
    ensures
        fixed.deep_view() == fixed_relations(spaces.deep_view(), included.deep_view(), relations.deep_view()),
{
    let ghost map = spaces.deep_view();
    let ghost set = included.deep_view();
    let ghost model = relations.deep_view();
    let ghost share = |relation: ContextRelationView| crate::gather::only(fixed_relation(map, set, relation));
    let mut fixed: SortedSet<GraphContextRelation> = SortedSet::new();
    let mut index: usize = 0;
    proof {
        gathered_none(model, share);
    }
    while index < relations.len()
        invariant
            index <= relations@.len(),
            map == spaces.deep_view(),
            set == included.deep_view(),
            model == relations.deep_view(),
            share == (|relation: ContextRelationView| crate::gather::only(fixed_relation(map, set, relation))),
            fixed.deep_view() == gathered_first(model, share, index as int),
        decreases relations@.len() - index,
    {
        assert(model[index as int] == relations@[index as int].deep_view());
        let relation = &relations[index];
        if let Some(target) = target_of(spaces, relation) {
            if included.contains(&target) {
                fixed.insert(
                    GraphContextRelation {
                        target_space_id: target.space_id,
                        target_context_id: target.context_id,
                        target_revision_id: target.revision_id,
                        kind: relation.kind,
                        rationale: relation.rationale.copied(),
                        supports: relation.supports.copied(),
                    },
                );
            }
        }
        proof {
            gathered_next(model, share, index as int);
            assert(fixed.deep_view() =~= gathered_first(model, share, index + 1));
        }
        index = index + 1;
    }
    proof {
        assert(model.len() == relations@.len());
        let all = fixed_relations(map, set, model);
        assert forall|relation: GraphContextRelationView| fixed.deep_view().contains(relation) == all.contains(
            relation,
        ) by {
            if fixed.deep_view().contains(relation) {
                let i = choose|i: int| 0 <= i < model.len() && share(#[trigger] model[i]).contains(relation);
                assert(fixed_relation(map, set, model[i]) == Some(relation));
            }
            if all.contains(relation) {
                let i = choose|i: int|
                    0 <= i < model.len() && fixed_relation(map, set, #[trigger] model[i]) == Some(relation);
                assert(share(model[i]).contains(relation));
            }
        }
        assert(fixed.deep_view() =~= all);
    }
    fixed
}

/// The snapshot at a node. Relations are captured for an accepted revision that is fewer than two
/// steps away from a root.
pub open spec fn snapshot_at(
    spaces: Spaces,
    near: Set<GraphNode>,
    included: Set<GraphNode>,
    node: GraphNode,
) -> GraphContextSnapshotView {
    let (space, context, revision) = node_revision(spaces, node)->Some_0;
    let status = status_of(context, revision.lifecycle);
    GraphContextSnapshotView {
        space_id: node.space_id,
        space_title: title_of(space),
        context_id: node.context_id,
        revision: revision.revision,
        status,
        evidence_completeness: completeness(revision.revision),
        safety: safety_of(context, revision.revision, status),
        relations: if status == GraphContextStatus::Accepted && near.contains(node) {
            set_listing::<GraphContextRelation>(fixed_relations(spaces, included, revision.revision.relations))
        } else {
            Seq::empty()
        },
    }
}

/// Why there is no consistent snapshot at a node, if there is none.
pub open spec fn node_problem(
    spaces: Spaces,
    near: Set<GraphNode>,
    included: Set<GraphNode>,
    node: GraphNode,
) -> Option<ErrorView> {
    match node_revision(spaces, node) {
        None => violated("Graph Context Revision disappeared during snapshot build"@),
        Some((space, _, _)) => first(
            given(
                titles_of(space) == Set::<Seq<char>>::empty(),
                violated("Graph Context Space has no Intent title"@),
            ),
            snapshot_at(spaces, near, included, node).problem(),
        ),
    }
}

fn capture(
    spaces: &SortedMap<SpaceId, ContextSpaceProjection>,
    near: &SortedSet<GraphNode>,
    included: &SortedSet<GraphNode>,
    node: GraphNode,
) -> (result: Result<GraphContextSnapshot>)
    ensures
        fails_as(result, node_problem(spaces.deep_view(), near.deep_view(), included.deep_view(), node)),
        result is Ok ==> result->Ok_0.deep_view() == snapshot_at(
            spaces.deep_view(),
            near.deep_view(),
            included.deep_view(),
            node,
        ),
{
    match find_revision(spaces, node) {
        None => Err(invariant_violation("Graph Context Revision disappeared during snapshot build")),
        Some((space, context, revision)) => {
            let status = graph_context_status(context, revision.lifecycle);
            let (evidence_completeness, safety) = graph_context_safety(context, &revision.revision, status);
            let relations: Vec<GraphContextRelation> = if status == GraphContextStatus::Accepted && near.contains(
                &node,
            ) {
                fix_relations(spaces, included, &revision.revision.relations).items().copied()
            } else {
                let none: Vec<GraphContextRelation> = Vec::new();
                assert(none.deep_view() =~= Seq::empty());
                none
            };
            let space_title = graph_space_title(space)?;
            let snapshot = GraphContextSnapshot {
                space_id: node.space_id,
                space_title,
                context_id: node.context_id,
                revision: revision.revision.copied(),
                status,
                evidence_completeness,
                safety,
                relations,
            };
            snapshot.validate()?;
            Ok(snapshot)
        },
    }
}

/// The node of a key.
pub open spec fn node_of(key: GraphKey) -> GraphNode {
    GraphNode { space_id: key.space_id, context_id: key.context_id, revision_id: key.revision_id }
}

/// The keys of nodes.
pub open spec fn keys_of_nodes(nodes: Set<GraphNode>) -> Set<GraphKey> {
    Set::new(|key: GraphKey| nodes.contains(node_of(key)))
}

/// Everything that is captured: the roots, and what they lead to in two steps.
pub open spec fn captured_nodes(
    spaces: Spaces,
    references: Seq<ProjectedEngineeringReferenceView>,
) -> Set<GraphNode> {
    one_step(spaces, near_nodes(spaces, references))
}

/// What is captured with its relations: the roots, and what they lead to in one step.
pub open spec fn near_nodes(spaces: Spaces, references: Seq<ProjectedEngineeringReferenceView>) -> Set<GraphNode> {
    one_step(spaces, roots_of(spaces, references))
}

/// Why a Graph build captures no snapshots, if it does not.
pub open spec fn build_problem(
    spaces: Spaces,
    references: Seq<ProjectedEngineeringReferenceView>,
) -> Option<ErrorView> {
    let near = near_nodes(spaces, references);
    let included = captured_nodes(spaces, references);
    let nodes = set_listing::<GraphNode>(included);
    first(
        first_from(|i: int| root_problem(spaces, references[i]), 0, references.len()),
        first(
            given(
                exists|node: GraphNode| #[trigger] near.contains(node) && node_revision(spaces, node) is None,
                violated("Graph relation source Revision disappeared during build"@),
            ),
            first_from(|i: int| node_problem(spaces, near, included, nodes[i]), 0, nodes.len()),
        ),
    )
}

/// The snapshots of a Graph build, listed by Context, revision and Space.
pub open spec fn built_snapshots(
    spaces: Spaces,
    references: Seq<ProjectedEngineeringReferenceView>,
) -> Seq<GraphContextSnapshotView> {
    let near = near_nodes(spaces, references);
    let included = captured_nodes(spaces, references);
    let keys = set_listing::<GraphKey>(keys_of_nodes(included));
    Seq::new(keys.len(), |i: int| snapshot_at(spaces, near, included, node_of(keys[i])))
}

fn find_roots(
    spaces: &SortedMap<SpaceId, ContextSpaceProjection>,
    references: &Vec<ProjectedEngineeringReference>,
) -> (result: Result<SortedSet<GraphNode>>)
    ensures
        fails_as(
            result,
            first_from(
                |i: int| root_problem(spaces.deep_view(), references.deep_view()[i]),
                0,
                references.deep_view().len(),
            ),
        ),
        result is Ok ==> result->Ok_0.deep_view() == roots_of(spaces.deep_view(), references.deep_view()),
{
    let ghost map = spaces.deep_view();
    let ghost model = references.deep_view();
    let ghost problem = |i: int| root_problem(map, model[i]);
    let ghost expected = Seq::new(model.len(), |i: int| root_of(map, model[i]));
    let mut roots: Vec<GraphNode> = Vec::new();
    let mut index: usize = 0;
    assert(roots.deep_view() =~= expected.take(0));
    while index < references.len()
        invariant
            index <= references@.len(),
            map == spaces.deep_view(),
            model == references.deep_view(),
            problem == (|i: int| root_problem(map, model[i])),
            expected == Seq::new(model.len(), |i: int| root_of(map, model[i])),
            first_from(problem, 0, model.len()) == first_from(problem, index as nat, model.len()),
            roots.deep_view() == expected.take(index as int),
        decreases references@.len() - index,
    {
        assert(model[index as int] == references@[index as int].deep_view());
        let reference = &references[index];
        match find_owner(spaces, reference.context_id) {
            None => {
                return Err(invariant_violation("projected Engineering Reference Context owner is missing"));
            },
            Some((space_id, _, context)) => {
                if !context.revisions.contains_key(&reference.revision_id) {
                    return Err(
                        invariant_violation(
                            "projected Engineering Reference Revision is missing from its Context",
                        ),
                    );
                }
                push_value(
                    &mut roots,
                    GraphNode { space_id, context_id: reference.context_id, revision_id: reference.revision_id },
                );
            },
        }
        proof {
            take_next(expected, index as int);
        }
        index = index + 1;
    }
    assert(model.len() == references@.len());
    assert(expected.take(index as int) =~= expected);
    Ok(SortedSet::of_list(&roots))
}

/// Whether every node has its revision.
fn have_revisions(spaces: &SortedMap<SpaceId, ContextSpaceProjection>, nodes: &SortedSet<GraphNode>) -> (all: bool)
    ensures
        all == !(exists|node: GraphNode| #[trigger]
            nodes.deep_view().contains(node) && node_revision(spaces.deep_view(), node) is None),
{
    let ghost map = spaces.deep_view();
    let ghost listing = nodes.listing();
    let count = nodes.len();
    let mut index: usize = 0;
    while index < count
        invariant
            index <= count == listing.len(),
            map == spaces.deep_view(),
            listing == nodes.listing(),
            forall|i: int| 0 <= i < index ==> node_revision(map, #[trigger] listing[i]) is Some,
        decreases count - index,
    {
        let node = *nodes.at(index);
        if find_revision(spaces, node).is_none() {
            return false;
        }
        index = index + 1;
    }
    proof {
        assert forall|node: GraphNode| #[trigger] nodes.deep_view().contains(node) implies node_revision(
            map,
            node,
        ) is Some by {
            assert(listing.to_set().contains(node));
            let i = choose|i: int| 0 <= i < listing.len() && listing[i] == node;
            assert(node_revision(map, listing[i]) is Some);
        }
    }
    true
}

/// Captures every node, in the order of nodes, and lists the snapshots in the order of keys.
fn capture_all(
    spaces: &SortedMap<SpaceId, ContextSpaceProjection>,
    near: &SortedSet<GraphNode>,
    included: &SortedSet<GraphNode>,
) -> (result: Result<SortedMap<GraphKey, GraphContextSnapshot>>)
    ensures
        fails_as(
            result,
            first_from(
                |i: int|
                    node_problem(
                        spaces.deep_view(),
                        near.deep_view(),
                        included.deep_view(),
                        set_listing::<GraphNode>(included.deep_view())[i],
                    ),
                0,
                set_listing::<GraphNode>(included.deep_view()).len(),
            ),
        ),
        result is Ok ==> result->Ok_0.deep_view().dom() == keys_of_nodes(included.deep_view())
            && forall|key: GraphKey|
         #[trigger]
            result->Ok_0.deep_view().contains_key(key) ==> result->Ok_0.deep_view()[key] == snapshot_at(
                spaces.deep_view(),
                near.deep_view(),
                included.deep_view(),
                node_of(key),
            ),
{
    let ghost map = spaces.deep_view();
    let ghost close = near.deep_view();
    let ghost set = included.deep_view();
    let nodes = included.items();
    let ghost model = set_listing::<GraphNode>(set);
    let ghost problem = |i: int| node_problem(map, close, set, model[i]);
    let mut captured: SortedMap<GraphKey, GraphContextSnapshot> = SortedMap::new();
    let mut index: usize = 0;
    while index < nodes.len()
        invariant
            index <= nodes@.len(),
            map == spaces.deep_view(),
            close == near.deep_view(),
            set == included.deep_view(),
            model == set_listing::<GraphNode>(set),
            nodes.deep_view() == model,
            problem == (|i: int| node_problem(map, close, set, model[i])),
            first_from(problem, 0, model.len()) == first_from(problem, index as nat, model.len()),
            forall|key: GraphKey| #[trigger]
                captured.deep_view().contains_key(key) ==> captured.deep_view()[key] == snapshot_at(
                    map,
                    close,
                    set,
                    node_of(key),
                ),
            forall|key: GraphKey| #[trigger]
                captured.deep_view().contains_key(key) <==> model.take(index as int).contains(node_of(key)),
        decreases nodes@.len() - index,
    {
        let node = nodes[index];
        assert(model[index as int] == node);
        let snapshot = capture(spaces, near, included, node)?;
        let key = GraphKey {
            context_id: node.context_id,
            revision_id: node.revision_id,
            space_id: node.space_id,
        };
        let ghost before = captured.deep_view();
        captured.insert(key, snapshot);
        proof {
            take_next(model, index as int);
            let shorter = model.take(index as int);
            let longer = model.take(index + 1);
            assert forall|other: GraphKey| #[trigger] captured.deep_view().contains_key(other) <==> longer.contains(
                node_of(other),
            ) by {
                if captured.deep_view().contains_key(other) {
                    if other == key {
                        assert(longer[index as int] == node_of(other));
                    } else {
                        assert(before.contains_key(other));
                        let i = choose|i: int| 0 <= i < shorter.len() && shorter[i] == node_of(other);
                        assert(longer[i] == node_of(other));
                    }
                }
                if longer.contains(node_of(other)) {
                    let i = choose|i: int| 0 <= i < longer.len() && longer[i] == node_of(other);
                    if i < index {
                        assert(shorter[i] == node_of(other));
                        assert(before.contains_key(other));
                    } else {
                        assert(other == key);
                    }
                }
            }
        }
        index = index + 1;
    }
    proof {
        assert(model.len() == nodes@.len());
        assert(model.take(index as int) =~= model);
        assert forall|key: GraphKey| captured.deep_view().dom().contains(key) == keys_of_nodes(set).contains(key) by {
            assert(captured.deep_view().contains_key(key) <==> model.contains(node_of(key)));
            assert(model.to_set().contains(node_of(key)) == set.contains(node_of(key)));
        }
        assert(captured.deep_view().dom() =~= keys_of_nodes(set));
    }
    Ok(captured)
}

/// Captures immutable Context revisions, build-time safety, and relation target revisions.
pub fn build_graph_context_snapshots(
    projection: &DomainProjection,
    references: &Vec<ProjectedEngineeringReference>,
) -> (result: Result<Vec<GraphContextSnapshot>>)
    ensures
        fails_as(result, build_problem(projection.deep_view().spaces, references.deep_view())),
        result is Ok ==> result->Ok_0.deep_view() == built_snapshots(
            projection.deep_view().spaces,
            references.deep_view(),
        ),
{
    let spaces = &projection.spaces;
    let ghost map = spaces.deep_view();
    let ghost model = references.deep_view();
    let roots = find_roots(spaces, references)?;
    let near = expand(spaces, &roots);
    let included = expand(spaces, &near);
    if !have_revisions(spaces, &near) {
        return Err(invariant_violation("Graph relation source Revision disappeared during build"));
    }
    let captured = capture_all(spaces, &near, &included)?;
    let count = captured.len();
    let ghost keys = captured.listing();
    let ghost expected = built_snapshots(map, model);
    proof {
        is_set_listing::<GraphKey>(keys);
    }
    let mut snapshots: Vec<GraphContextSnapshot> = Vec::new();
    let mut index: usize = 0;
    assert(snapshots.deep_view() =~= expected.take(0));
    while index < count
        invariant
            index <= count == keys.len(),
            keys == captured.listing(),
            keys == set_listing::<GraphKey>(keys_of_nodes(captured_nodes(map, model))),
            expected == built_snapshots(map, model),
            forall|key: GraphKey| #[trigger]
                captured.deep_view().contains_key(key) ==> captured.deep_view()[key] == snapshot_at(
                    map,
                    near_nodes(map, model),
                    captured_nodes(map, model),
                    node_of(key),
                ),
            snapshots.deep_view() == expected.take(index as int),
        decreases count - index,
    {
        let key = captured.key_at(index);
        let snapshot = captured.value_at(index);
        push_value(&mut snapshots, snapshot.copied());
        proof {
            take_next(expected, index as int);
        }
        index = index + 1;
    }
    assert(expected.take(index as int) =~= expected);
    Ok(snapshots)
}

/// The relations of a revision that lead to captured revisions are finitely many.
pub proof fn fixed_relations_are_finite(spaces: Spaces, included: Set<GraphNode>, relations: Seq<ContextRelationView>)
    ensures
        fixed_relations(spaces, included, relations).finite(),
    decreases relations.len(),
{
    let all = fixed_relations(spaces, included, relations);
    if relations.len() == 0 {
        assert(all =~= Set::empty());
    } else {
        let shorter = relations.drop_last();
        let before = fixed_relations(spaces, included, shorter);
        fixed_relations_are_finite(spaces, included, shorter);
        let with_last = match fixed_relation(spaces, included, relations.last()) {
            Some(fixed) => before.insert(fixed),
            None => before,
        };
        assert forall|fixed: GraphContextRelationView| all.contains(fixed) == with_last.contains(fixed) by {
            if all.contains(fixed) {
                let i = choose|i: int|
                    0 <= i < relations.len()
                        && fixed_relation(spaces, included, #[trigger] relations[i]) == Some(fixed);
                if i < shorter.len() {
                    assert(fixed_relation(spaces, included, shorter[i]) == Some(fixed));
                }
            }
            if before.contains(fixed) {
                let i = choose|i: int|
                    0 <= i < shorter.len() && fixed_relation(spaces, included, #[trigger] shorter[i]) == Some(fixed);
                assert(fixed_relation(spaces, included, relations[i]) == Some(fixed));
            }
            if fixed_relation(spaces, included, relations.last()) == Some(fixed) {
                assert(fixed_relation(spaces, included, relations[relations.len() - 1]) == Some(fixed));
            }
        }
        assert(all =~= with_last);
    }
}

/// A capture is self-contained: the relations that it holds lead to revisions that it captures,
/// from accepted revisions only.
pub proof fn captured_relations_lead_to_captured_revisions(
    spaces: Spaces,
    references: Seq<ProjectedEngineeringReferenceView>,
    at: int,
    relation: GraphContextRelationView,
)
    requires
        0 <= at < built_snapshots(spaces, references).len(),
        built_snapshots(spaces, references)[at].relations.contains(relation),
    ensures
        built_snapshots(spaces, references)[at].status == GraphContextStatus::Accepted,
        captured_nodes(spaces, references).contains(
            GraphNode {
                space_id: relation.target_space_id,
                context_id: relation.target_context_id,
                revision_id: relation.target_revision_id,
            },
        ),
        accepted_target(spaces, relation.target_context_id) == Some(
            (relation.target_space_id, relation.target_revision_id),
        ),
{
    let included = captured_nodes(spaces, references);
    let keys = set_listing::<GraphKey>(keys_of_nodes(included));
    let node = node_of(keys[at]);
    let (_, _, revision) = node_revision(spaces, node)->Some_0;
    let relations = revision.revision.relations;
    let all = fixed_relations(spaces, included, relations);
    fixed_relations_are_finite(spaces, included, relations);
    listing_lists::<GraphContextRelation>(all);
    assert(set_listing::<GraphContextRelation>(all).to_set().contains(relation));
    assert(all.contains(relation));
}

} // verus!
