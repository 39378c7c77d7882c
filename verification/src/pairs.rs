//! Pairs of accepted Contexts that require human semantic review.

use vstd::prelude::*;

use crate::collections::{SortedMap, SortedSet};
use crate::conflicts::{applicability_overlaps, can_conflict, scopes_overlap};
use crate::events::{
    ContextGovernanceStatus, ContextGovernanceStatusView, ContextProjection, ContextProjectionView,
    ContextSpaceProjection, ContextSpaceProjectionView, SemanticConflictCandidate,
    SemanticConflictCandidateView,
};
use crate::gather::{gathered_first, gathered_next, gathered_none};
use crate::ids::{ContextId, SpaceId};
use crate::model::{
    ConflictParticipant, ConflictParticipantView, ContextKind, ContextRevision, ContextRevisionView,
};
use crate::order::{ascending, set_listing, Ordered};
use crate::value::Value;

verus! {

/// The accepted Decision or Contract of a Context, as a participant of a conflict.
pub open spec fn candidate_participant(context: ContextProjectionView) -> Option<
    (ConflictParticipantView, ContextRevisionView),
> {
    match context.governance {
        ContextGovernanceStatusView::Accepted { publication_id, revision_id } => {
            if context.revisions.contains_key(revision_id) && can_conflict(
                context.revisions[revision_id].revision.kind,
            ) {
                Some(
                    (
                        ConflictParticipantView { context_id: context.context_id, revision_id, publication_id },
                        context.revisions[revision_id].revision,
                    ),
                )
            } else {
                None
            }
        },
        _ => None,
    }
}

/// The pair that two Contexts of a Space make: both accepted, on one topic, in overlapping scopes.
/// An absent topic is shared with nothing.
pub open spec fn candidate_pair(
    space_id: SpaceId,
    left: ContextProjectionView,
    right: ContextProjectionView,
) -> Option<SemanticConflictCandidateView> {
    match (candidate_participant(left), candidate_participant(right)) {
        (Some((first, one)), Some((second, other))) => {
            if one.topic_key is Some && one.topic_key == other.topic_key && scopes_overlap(
                one.applicability,
                other.applicability,
            ) {
                Some(
                    SemanticConflictCandidateView {
                        space_id,
                        topic_key: one.topic_key->Some_0,
                        participants: seq![first, second],
                    },
                )
            } else {
                None
            }
        },
        _ => None,
    }
}

/// The pairs of a Context with later ones of its Space.
pub open spec fn pairs_from(
    space_id: SpaceId,
    contexts: Map<ContextId, ContextProjectionView>,
    left: ContextId,
) -> Set<SemanticConflictCandidateView> {
    Set::new(
        |pair: SemanticConflictCandidateView| exists|right: ContextId| #[trigger]
            contexts.contains_key(right) && ContextId::below(left, right) && candidate_pair(
                space_id,
                contexts[left],
                contexts[right],
            ) == Some(pair),
    )
}

/// The pairs of a Space.
pub open spec fn pairs_in(
    space_id: SpaceId,
    contexts: Map<ContextId, ContextProjectionView>,
) -> Set<SemanticConflictCandidateView> {
    Set::new(
        |pair: SemanticConflictCandidateView| exists|left: ContextId| #[trigger]
            contexts.contains_key(left) && pairs_from(space_id, contexts, left).contains(pair),
    )
}

/// The pairs of all Spaces.
pub open spec fn all_pairs(
    spaces: Map<SpaceId, ContextSpaceProjectionView>,
) -> Set<SemanticConflictCandidateView> {
    Set::new(
        |pair: SemanticConflictCandidateView| exists|space_id: SpaceId| #[trigger]
            spaces.contains_key(space_id) && pairs_in(space_id, spaces[space_id].contexts).contains(pair),
    )
}

/// A pair joins two different Contexts of one Space, both accepted, that name the same topic in
/// overlapping scopes: a Context without a topic key never pairs.
pub proof fn pairs_share_a_topic(
    spaces: Map<SpaceId, ContextSpaceProjectionView>,
    pair: SemanticConflictCandidateView,
) -> (joined: (ContextId, ContextId))
    requires
        all_pairs(spaces).contains(pair),
    ensures
        spaces.contains_key(pair.space_id),
        joined.0 != joined.1,
        spaces[pair.space_id].contexts.contains_key(joined.0),
        spaces[pair.space_id].contexts.contains_key(joined.1),
        spaces[pair.space_id].contexts[joined.0].governance is Accepted,
        spaces[pair.space_id].contexts[joined.1].governance is Accepted,
        candidate_participant(spaces[pair.space_id].contexts[joined.0]) matches Some((first, one))
            && candidate_participant(spaces[pair.space_id].contexts[joined.1]) matches Some((second, other))
            && pair.participants == seq![first, second] && one.topic_key == Some(pair.topic_key) && other.topic_key
            == Some(pair.topic_key) && scopes_overlap(one.applicability, other.applicability),
{
    let space_id = choose|space_id: SpaceId| #[trigger]
        spaces.contains_key(space_id) && pairs_in(space_id, spaces[space_id].contexts).contains(pair);
    let contexts = spaces[space_id].contexts;
    let left = choose|left: ContextId| #[trigger]
        contexts.contains_key(left) && pairs_from(space_id, contexts, left).contains(pair);
    let right = choose|right: ContextId| #[trigger]
        contexts.contains_key(right) && ContextId::below(left, right) && candidate_pair(
            space_id,
            contexts[left],
            contexts[right],
        ) == Some(pair);
    ContextId::order_laws(left, left, left);
    (left, right)
}

fn semantic_candidate_participant(context: &ContextProjection) -> (found: Option<
    (ConflictParticipant, &ContextRevision),
>)
    ensures
        match found {
            Some((participant, revision)) => candidate_participant(context.deep_view()) == Some(
                (participant.deep_view(), revision.deep_view()),
            ),
            None => candidate_participant(context.deep_view()) is None,
        },
{
    match &context.governance {
        ContextGovernanceStatus::Accepted { publication_id, revision_id } => {
            match context.revisions.get(revision_id) {
                Some(projection) => match projection.revision.kind {
                    ContextKind::Decision | ContextKind::Contract => Some(
                        (
                            ConflictParticipant {
                                context_id: context.context_id,
                                revision_id: *revision_id,
                                publication_id: *publication_id,
                            },
                            &projection.revision,
                        ),
                    ),
                    _ => None,
                },
                None => None,
            }
        },
        _ => None,
    }
}

fn pair_of(space_id: SpaceId, left: &ContextProjection, right: &ContextProjection) -> (pair: Option<
    SemanticConflictCandidate,
>)
    ensures
        pair.deep_view() == candidate_pair(space_id, left.deep_view(), right.deep_view()),
{
    match (semantic_candidate_participant(left), semantic_candidate_participant(right)) {
        (Some((first, one)), Some((second, other))) => {
            if let Some(topic) = &one.topic_key {
                if one.topic_key.same(&other.topic_key) && applicability_overlaps(
                    &one.applicability,
                    &other.applicability,
                ) {
                    let ghost models = seq![first.deep_view(), second.deep_view()];
                    let participants = vec![first, second];
                    assert(participants.deep_view() =~= models);
                    return Some(SemanticConflictCandidate { space_id, topic_key: topic.copied(), participants });
                }
            }
            None
        },
        _ => None,
    }
}

/// Adds the pairs of a Context with later ones of its Space.
fn add_pairs_from(
    space_id: SpaceId,
    contexts: &SortedMap<ContextId, ContextProjection>,
    left: usize,
    found: &mut SortedSet<SemanticConflictCandidate>,
)
    requires
        left < contexts.listing().len(),
    ensures
        final(found).deep_view() == old(found).deep_view().union(
            pairs_from(space_id, contexts.deep_view(), contexts.listing()[left as int]),
        ),
{
    let ghost all = contexts.deep_view();
    let ghost keys = contexts.listing();
    let ghost start = found.deep_view();
    let ghost key = keys[left as int];
    let count = contexts.len();
    let first = contexts.value_at(left);
    let ghost share = |other: ContextId| crate::gather::only(candidate_pair(space_id, all[key], all[other]));
    let ghost rest = keys.skip(left + 1);
    proof {
        gathered_none(rest, share);
        assert(start =~= start.union(Set::empty()));
    }
    let mut index: usize = left + 1;
    while index < count
        invariant
            left < index <= count,
            count == keys.len(),
            keys == contexts.listing(),
            all == contexts.deep_view(),
            key == keys[left as int],
            first.deep_view() == all[key],
            rest == keys.skip(left + 1),
            share == (|other: ContextId| crate::gather::only(candidate_pair(space_id, all[key], all[other]))),
            found.deep_view() == start.union(gathered_first(rest, share, index - left - 1)),
        decreases count - index,
    {
        let second = contexts.value_at(index);
        assert(rest[index - left - 1] == keys[index as int]);
        if let Some(pair) = pair_of(space_id, first, second) {
            found.insert(pair);
        }
        proof {
            gathered_next(rest, share, index - left - 1);
            assert(found.deep_view() =~= start.union(gathered_first(rest, share, index - left)));
        }
        index = index + 1;
    }
    proof {
        let firsts = gathered_first(rest, share, rest.len() as int);
        let pairs = pairs_from(space_id, all, key);
        assert forall|pair: SemanticConflictCandidateView| firsts.contains(pair) == pairs.contains(pair) by {
            if firsts.contains(pair) {
                let i = choose|i: int| 0 <= i < rest.len() && share(#[trigger] rest[i]).contains(pair);
                assert(rest[i] == keys[left + 1 + i]);
                assert(keys.to_set().contains(rest[i]));
                assert(all.contains_key(rest[i]));
                assert(ContextId::below(keys[left as int], keys[left + 1 + i]));
            }
            if pairs.contains(pair) {
                let right = choose|right: ContextId| #[trigger]
                    all.contains_key(right) && ContextId::below(key, right) && candidate_pair(
                        space_id,
                        all[key],
                        all[right],
                    ) == Some(pair);
                assert(keys.to_set().contains(right));
                let j = choose|j: int| 0 <= j < keys.len() && keys[j] == right;
                if j < left {
                    assert(ContextId::below(keys[j], keys[left as int]));
                    ContextId::order_laws(key, right, key);
                }
                if j == left {
                    ContextId::order_laws(key, right, key);
                }
                assert(rest[j - left - 1] == right);
                assert(share(rest[j - left - 1]).contains(pair));
            }
        }
        assert(firsts =~= pairs);
    }
}

/// Adds the pairs of a Space.
fn add_pairs_in(
    space_id: SpaceId,
    contexts: &SortedMap<ContextId, ContextProjection>,
    found: &mut SortedSet<SemanticConflictCandidate>,
)
    ensures
        final(found).deep_view() == old(found).deep_view().union(pairs_in(space_id, contexts.deep_view())),
{
    let ghost all = contexts.deep_view();
    let ghost keys = contexts.listing();
    let ghost start = found.deep_view();
    let count = contexts.len();
    let ghost share = |left: ContextId| pairs_from(space_id, all, left);
    proof {
        gathered_none(keys, share);
        assert(start =~= start.union(Set::empty()));
    }
    let mut index: usize = 0;
    while index < count
        invariant
            index <= count,
            count == keys.len(),
            keys == contexts.listing(),
            all == contexts.deep_view(),
            share == (|left: ContextId| pairs_from(space_id, all, left)),
            found.deep_view() == start.union(gathered_first(keys, share, index as int)),
        decreases count - index,
    {
        add_pairs_from(space_id, contexts, index, found);
        proof {
            gathered_next(keys, share, index as int);
            assert(found.deep_view() =~= start.union(gathered_first(keys, share, index + 1)));
        }
        index = index + 1;
    }
    proof {
        let firsts = gathered_first(keys, share, keys.len() as int);
        let pairs = pairs_in(space_id, all);
        assert forall|pair: SemanticConflictCandidateView| firsts.contains(pair) == pairs.contains(pair) by {
            if firsts.contains(pair) {
                let i = choose|i: int| 0 <= i < keys.len() && share(#[trigger] keys[i]).contains(pair);
                assert(keys.to_set().contains(keys[i]));
                assert(all.contains_key(keys[i]));
            }
            if pairs.contains(pair) {
                let left = choose|left: ContextId| #[trigger]
                    all.contains_key(left) && pairs_from(space_id, all, left).contains(pair);
                assert(keys.to_set().contains(left));
                let i = choose|i: int| 0 <= i < keys.len() && keys[i] == left;
                assert(share(keys[i]).contains(pair));
            }
        }
        assert(firsts =~= pairs);
    }
}

/// Lists the pairs of accepted Contexts that require human semantic review, in order.
pub fn conflict_candidates(spaces: &SortedMap<SpaceId, ContextSpaceProjection>) -> (candidates: Vec<
    SemanticConflictCandidate,
>)
    ensures
        candidates.deep_view() == set_listing::<SemanticConflictCandidate>(all_pairs(spaces.deep_view())),
        ascending::<SemanticConflictCandidate>(candidates.deep_view()),
        candidates.deep_view().to_set() == all_pairs(spaces.deep_view()),
{
    let ghost all = spaces.deep_view();
    let ghost keys = spaces.listing();
    let mut found: SortedSet<SemanticConflictCandidate> = SortedSet::new();
    let count = spaces.len();
    let ghost share = |space_id: SpaceId| pairs_in(space_id, all[space_id].contexts);
    proof {
        gathered_none(keys, share);
    }
    let mut index: usize = 0;
    while index < count
        invariant
            index <= count,
            count == keys.len(),
            keys == spaces.listing(),
            all == spaces.deep_view(),
            share == (|space_id: SpaceId| pairs_in(space_id, all[space_id].contexts)),
            found.deep_view() == gathered_first(keys, share, index as int),
        decreases count - index,
    {
        let space_id = *spaces.key_at(index);
        let space = spaces.value_at(index);
        assert(space_id == keys[index as int]);
        add_pairs_in(space_id, &space.contexts, &mut found);
        proof {
            gathered_next(keys, share, index as int);
        }
        index = index + 1;
    }
    proof {
        let pairs = all_pairs(all);
        assert forall|pair: SemanticConflictCandidateView| found.deep_view().contains(pair) == pairs.contains(pair) by {
            if found.deep_view().contains(pair) {
                let i = choose|i: int| 0 <= i < keys.len() && share(#[trigger] keys[i]).contains(pair);
                assert(keys.to_set().contains(keys[i]));
                assert(all.contains_key(keys[i]));
            }
            if pairs.contains(pair) {
                let space_id = choose|space_id: SpaceId| #[trigger]
                    all.contains_key(space_id) && pairs_in(space_id, all[space_id].contexts).contains(pair);
                assert(keys.to_set().contains(space_id));
                let i = choose|i: int| 0 <= i < keys.len() && keys[i] == space_id;
                assert(share(keys[i]).contains(pair));
            }
        }
        assert(found.deep_view() =~= pairs);
    }
    found.items().copied()
}

} // verus!
