//! The state of confirmed conflicts, and what keeps Contexts from automatic injection.

use vstd::multiset::Multiset;
use vstd::prelude::*;

use crate::collections::{SortedMap, SortedSet};
use crate::conflicts::{conflict_of, resolution_head, resolution_of, valid_conflict, valid_resolution};
use crate::contexts::{add_head_publications, governance, head_publications, Standing};
use crate::definitions::{definition, defines, definitions, sound_definitions_are_unique, DefinitionKind};
use crate::events::{
    AutoInjectionBlocker, AutoInjectionEligibility, AutoInjectionEligibilityView, ContextGovernanceStatus,
    ContextGovernanceStatusView, ReducerEvent, ReducerEventView, ReducerPayload, SemanticConflictOpenReason,
    SemanticConflictProjection, SemanticConflictProjectionView, SemanticConflictStatus,
    SemanticConflictStatusView,
};
use crate::gather::{
    flags_are, gathered, gathered_first, gathered_next, gathered_none, gathered_whole, holds_first,
    holds_next, holds_whole, is_member, keyed, one_value_each, place_in,
};
use crate::governance::{publication_head, publication_of};
use crate::ids::{ConflictId, ContextId, PublicationId, ResolutionId, SpaceId};
use crate::model::{
    contexts_of_participants, participant_contexts, ConflictParticipant, ConflictParticipantView,
    ConflictResolution, ConflictResolutionView, SemanticConflict, SemanticConflictView,
};
use crate::value::Value;

verus! {

/// Which events open valid conflicts, and which add valid resolutions and resolution heads, place
/// by place.
pub struct Disputes {
    pub conflicts: Vec<bool>,
    pub resolutions: Vec<bool>,
    pub resolution_heads: Vec<bool>,
}

impl Disputes {
    /// Whether this tells of a list of events.
    pub open spec fn describe(self, events: Seq<ReducerEventView>) -> bool {
        let members = events.to_multiset();
        &&& flags_are(self.conflicts@, events, |event: ReducerEventView| valid_conflict(members, event))
        &&& flags_are(self.resolutions@, events, |event: ReducerEventView| valid_resolution(members, event))
        &&& flags_are(self.resolution_heads@, events, |event: ReducerEventView| resolution_head(members, event))
    }
}

/// The resolution head that an event adds to a conflict.
pub open spec fn resolution_head_share(
    events: Multiset<ReducerEventView>,
    conflict_id: ConflictId,
    event: ReducerEventView,
) -> Set<ResolutionId> {
    if heads_conflict(events, conflict_id, event) {
        Set::empty().insert(resolution_of(event)->Some_0.2.resolution_id)
    } else {
        Set::empty()
    }
}

/// Whether an event adds a resolution head to a conflict.
pub open spec fn heads_conflict(
    events: Multiset<ReducerEventView>,
    conflict_id: ConflictId,
    event: ReducerEventView,
) -> bool {
    resolution_head(events, event) && resolution_of(event)->Some_0.1 == conflict_id
}

/// The resolution heads of a conflict.
pub open spec fn head_resolutions(
    events: Multiset<ReducerEventView>,
    conflict_id: ConflictId,
) -> Set<ResolutionId> {
    gathered(events, |event: ReducerEventView| resolution_head_share(events, conflict_id, event))
}

/// Adds the resolution heads of a conflict.
fn add_head_resolutions(
    events: &Vec<ReducerEvent>,
    disputes: &Disputes,
    conflict_id: ConflictId,
    heads: &mut SortedSet<ResolutionId>,
)
    requires
        disputes.describe(events.deep_view()),
    ensures
        final(heads).deep_view() == old(heads).deep_view().union(
            gathered(
                events.deep_view().to_multiset(),
                |event: ReducerEventView| resolution_head_share(events.deep_view().to_multiset(), conflict_id, event),
            ),
        ),
{
    let ghost list = events.deep_view();
    let ghost members = list.to_multiset();
    let ghost share = |event: ReducerEventView| resolution_head_share(members, conflict_id, event);
    let ghost start = heads.deep_view();
    proof {
        gathered_none(list, share);
        assert(start =~= start.union(Set::empty()));
    }
    let mut index: usize = 0;
    while index < events.len()
        invariant
            index <= events@.len(),
            list == events.deep_view(),
            members == list.to_multiset(),
            share == (|event: ReducerEventView| resolution_head_share(members, conflict_id, event)),
            disputes.describe(events.deep_view()),
            heads.deep_view() == start.union(gathered_first(list, share, index as int)),
        decreases events@.len() - index,
    {
        add_head_resolutions_at(events, index, disputes, conflict_id, heads);
        proof {
            gathered_next(list, share, index as int);
            assert(heads.deep_view() =~= start.union(gathered_first(list, share, index + 1)));
        }
        index = index + 1;
    }
    proof {
        gathered_whole(list, share);
    }
}

fn add_head_resolutions_at(
    events: &Vec<ReducerEvent>,
    at: usize,
    disputes: &Disputes,
    conflict_id: ConflictId,
    heads: &mut SortedSet<ResolutionId>,
)
    requires
        at < events@.len(),
        disputes.describe(events.deep_view()),
    ensures
        final(heads).deep_view() == old(heads).deep_view().union(
            resolution_head_share(events.deep_view().to_multiset(), conflict_id, events.deep_view()[at as int]),
        ),
{
    let ghost list = events.deep_view();
    let ghost start = heads.deep_view();
    assert(list[at as int] == events@[at as int].deep_view());
    assert(disputes.resolution_heads@[at as int] == resolution_head(list.to_multiset(), list[at as int]));
    if let ReducerPayload::SemanticConflictResolutionAdded { space_id: _, conflict_id: other, resolution } =
        &events[at].payload {
        if disputes.resolution_heads[at] && *other == conflict_id {
            heads.insert(resolution.resolution_id);
        }
    }
    assert(heads.deep_view() =~= start.union(
        resolution_head_share(list.to_multiset(), conflict_id, list[at as int]),
    ));
}

/// The publication head that an event adds to a participant.
pub open spec fn part_head_share(
    events: Multiset<ReducerEventView>,
    space_id: SpaceId,
    participants: Seq<ConflictParticipantView>,
    event: ReducerEventView,
) -> Set<PublicationId> {
    if publication_head(events, event) && publication_of(event)->Some_0.0 == space_id && participant_contexts(
        participants,
    ).contains(publication_of(event)->Some_0.1) {
        Set::empty().insert(publication_of(event)->Some_0.2.publication_id)
    } else {
        Set::empty()
    }
}

/// The current publication heads of all participants.
pub open spec fn part_heads(
    events: Multiset<ReducerEventView>,
    space_id: SpaceId,
    participants: Seq<ConflictParticipantView>,
) -> Set<PublicationId> {
    gathered(events, |event: ReducerEventView| part_head_share(events, space_id, participants, event))
}

/// Adds the current publication heads of all participants.
fn add_part_heads(
    events: &Vec<ReducerEvent>,
    standing: &Standing,
    space_id: SpaceId,
    participants: &Vec<ConflictParticipant>,
    heads: &mut SortedSet<PublicationId>,
)
    requires
        standing.describe(events.deep_view()),
    ensures
        final(heads).deep_view() == old(heads).deep_view().union(
            gathered(
                events.deep_view().to_multiset(),
                |event: ReducerEventView| part_head_share(
                    events.deep_view().to_multiset(),
                    space_id,
                    participants.deep_view(),
                    event,
                ),
            ),
        ),
{
    let ghost list = events.deep_view();
    let ghost members = list.to_multiset();
    let ghost share = |event: ReducerEventView| part_head_share(members, space_id, participants.deep_view(), event);
    let ghost start = heads.deep_view();
    proof {
        gathered_none(list, share);
        assert(start =~= start.union(Set::empty()));
    }
    let mut index: usize = 0;
    while index < events.len()
        invariant
            index <= events@.len(),
            list == events.deep_view(),
            members == list.to_multiset(),
            share == (|event: ReducerEventView| part_head_share(members, space_id, participants.deep_view(), event)),
            standing.describe(events.deep_view()),
            heads.deep_view() == start.union(gathered_first(list, share, index as int)),
        decreases events@.len() - index,
    {
        add_part_heads_at(events, index, standing, space_id, participants, heads);
        proof {
            gathered_next(list, share, index as int);
            assert(heads.deep_view() =~= start.union(gathered_first(list, share, index + 1)));
        }
        index = index + 1;
    }
    proof {
        gathered_whole(list, share);
    }
}

fn add_part_heads_at(
    events: &Vec<ReducerEvent>,
    at: usize,
    standing: &Standing,
    space_id: SpaceId,
    participants: &Vec<ConflictParticipant>,
    heads: &mut SortedSet<PublicationId>,
)
    requires
        at < events@.len(),
        standing.describe(events.deep_view()),
    ensures
        final(heads).deep_view() == old(heads).deep_view().union(
            part_head_share(
                events.deep_view().to_multiset(),
                space_id,
                participants.deep_view(),
                events.deep_view()[at as int],
            ),
        ),
{
    let ghost list = events.deep_view();
    let ghost start = heads.deep_view();
    assert(list[at as int] == events@[at as int].deep_view());
    assert(standing.publication_heads@[at as int] == publication_head(list.to_multiset(), list[at as int]));
    if let ReducerPayload::ContextPublicationChanged { space_id: space, context_id, publication } =
        &events[at].payload {
        let contexts = contexts_of_participants(participants);
        if standing.publication_heads[at] && *space == space_id && crate::checks::is_among(&contexts, context_id) {
            heads.insert(publication.publication_id);
        }
    }
    assert(heads.deep_view() =~= start.union(
        part_head_share(list.to_multiset(), space_id, participants.deep_view(), list[at as int]),
    ));
}

/// Whether every participant has exactly one publication head.
pub open spec fn converged(
    events: Multiset<ReducerEventView>,
    space_id: SpaceId,
    participants: Seq<ConflictParticipantView>,
) -> bool {
    forall|i: int|
        0 <= i < participants.len() ==> has_one_head(events, space_id, #[trigger] participants[i])
}

/// Whether a participant has exactly one publication head.
pub open spec fn has_one_head(
    events: Multiset<ReducerEventView>,
    space_id: SpaceId,
    participant: ConflictParticipantView,
) -> bool {
    head_publications(events, space_id, participant.context_id).len() == 1
}

fn is_converged(
    events: &Vec<ReducerEvent>,
    standing: &Standing,
    space_id: SpaceId,
    participants: &Vec<ConflictParticipant>,
) -> (all: bool)
    requires
        standing.describe(events.deep_view()),
    ensures
        all == converged(events.deep_view().to_multiset(), space_id, participants.deep_view()),
{
    let ghost members = events.deep_view().to_multiset();
    let ghost model = participants.deep_view();
    let mut index: usize = 0;
    while index < participants.len()
        invariant
            index <= participants@.len(),
            members == events.deep_view().to_multiset(),
            model == participants.deep_view(),
            standing.describe(events.deep_view()),
            forall|i: int| 0 <= i < index ==> has_one_head(members, space_id, #[trigger] model[i]),
        decreases participants@.len() - index,
    {
        assert(model[index as int] == participants@[index as int].deep_view());
        let mut heads: SortedSet<PublicationId> = SortedSet::new();
        add_head_publications(events, standing, space_id, participants[index].context_id, &mut heads);
        assert(heads.deep_view() =~= head_publications(members, space_id, model[index as int].context_id));
        if heads.len() != 1 {
            assert(!has_one_head(members, space_id, model[index as int]));
            return false;
        }
        index = index + 1;
    }
    assert(model.len() == participants@.len());
    true
}

/// Whether a resolution head relates to exactly the given publications.
pub open spec fn relates_exactly(
    events: Multiset<ReducerEventView>,
    conflict_id: ConflictId,
    current: Set<PublicationId>,
    event: ReducerEventView,
) -> bool {
    heads_conflict(events, conflict_id, event) && resolution_of(event)->Some_0.2.related_publication_ids.to_set()
        == current
}

/// Whether some resolution head relates to exactly the given publications.
pub open spec fn covers_current(
    events: Multiset<ReducerEventView>,
    conflict_id: ConflictId,
    current: Set<PublicationId>,
) -> bool {
    exists|event: ReducerEventView| #[trigger]
        events.contains(event) && relates_exactly(events, conflict_id, current, event)
}

/// Whether some resolution head relates to exactly the given publications.
fn is_current_covered(
    events: &Vec<ReducerEvent>,
    disputes: &Disputes,
    conflict_id: ConflictId,
    current: &SortedSet<PublicationId>,
) -> (found: bool)
    requires
        disputes.describe(events.deep_view()),
    ensures
        found == exists|event: ReducerEventView| #[trigger] events.deep_view().to_multiset().contains(event)
            && relates_exactly(events.deep_view().to_multiset(), conflict_id, current.deep_view(), event),
{
    let ghost list = events.deep_view();
    let ghost members = list.to_multiset();
    let mut index: usize = 0;
    while index < events.len()
        invariant
            index <= events@.len(),
            list == events.deep_view(),
            members == list.to_multiset(),
            disputes.describe(events.deep_view()),
            forall|i: int| 0 <= i < index ==> !(
                relates_exactly(members, conflict_id, current.deep_view(), #[trigger] list[i])
            ),
        decreases events@.len() - index,
    {
        if is_current_covered_at(events, index, disputes, conflict_id, current) {
            proof {
                is_member(list, index as int);
            }
            return true;
        }
        index = index + 1;
    }
    proof {
        if exists|event: ReducerEventView| #[trigger] members.contains(event)
            && relates_exactly(members, conflict_id, current.deep_view(), event) {
            let event = choose|event: ReducerEventView| #[trigger] members.contains(event)
                && relates_exactly(members, conflict_id, current.deep_view(), event);
            let at = place_in(list, event);
        }
    }
    false
}

fn is_current_covered_at(
    events: &Vec<ReducerEvent>,
    at: usize,
    disputes: &Disputes,
    conflict_id: ConflictId,
    current: &SortedSet<PublicationId>,
) -> (found: bool)
    requires
        at < events@.len(),
        disputes.describe(events.deep_view()),
    ensures
        found == relates_exactly(
            events.deep_view().to_multiset(),
            conflict_id,
            current.deep_view(),
            events.deep_view()[at as int],
        ),
{
    let ghost list = events.deep_view();
    assert(list[at as int] == events@[at as int].deep_view());
    assert(disputes.resolution_heads@[at as int] == resolution_head(list.to_multiset(), list[at as int]));
    match &events[at].payload {
        ReducerPayload::SemanticConflictResolutionAdded { space_id: _, conflict_id: other, resolution } => {
            if !disputes.resolution_heads[at] || *other != conflict_id {
                return false;
            }
            let related = SortedSet::of_list(&resolution.related_publication_ids);
            related.same(current)
        },
        _ => false,
    }
}

/// Why a conflict is open.
pub open spec fn open_reasons(
    events: Multiset<ReducerEventView>,
    space_id: SpaceId,
    conflict: SemanticConflictView,
) -> Set<SemanticConflictOpenReason> {
    let heads = head_resolutions(events, conflict.conflict_id);
    let current = part_heads(events, space_id, conflict.participants);
    let unsettled = if heads.len() == 0 {
        Set::empty().insert(SemanticConflictOpenReason::NoResolution)
    } else if heads.len() > 1 {
        Set::empty().insert(SemanticConflictOpenReason::ResolutionConflict)
    } else if covers_current(events, conflict.conflict_id, current) {
        Set::empty()
    } else {
        Set::empty().insert(SemanticConflictOpenReason::ResolutionDoesNotCoverCurrentPublicationHeads)
    };
    if converged(events, space_id, conflict.participants) {
        unsettled
    } else {
        unsettled.insert(SemanticConflictOpenReason::PublicationHeadsNotConverged)
    }
}

/// The state of a conflict: resolved by its single resolution head where nothing keeps it open.
pub open spec fn conflict_status(
    events: Multiset<ReducerEventView>,
    space_id: SpaceId,
    conflict: SemanticConflictView,
) -> SemanticConflictStatusView {
    let reasons = open_reasons(events, space_id, conflict);
    if reasons == Set::<SemanticConflictOpenReason>::empty() {
        SemanticConflictStatusView::Resolved {
            resolution_id: head_resolutions(events, conflict.conflict_id).choose(),
        }
    } else {
        SemanticConflictStatusView::Open { reasons }
    }
}

/// Determines the state of a conflict.
fn judge(
    events: &Vec<ReducerEvent>,
    standing: &Standing,
    disputes: &Disputes,
    heads: &SortedSet<ResolutionId>,
    space_id: SpaceId,
    conflict: &SemanticConflict,
) -> (status: SemanticConflictStatus)
    requires
        standing.describe(events.deep_view()),
        disputes.describe(events.deep_view()),
        heads.deep_view() == head_resolutions(
            events.deep_view().to_multiset(),
            conflict.deep_view().conflict_id,
        ),
    ensures
        status.deep_view() == conflict_status(events.deep_view().to_multiset(), space_id, conflict.deep_view()),
{
    let ghost members = events.deep_view().to_multiset();
    let ghost model = conflict.deep_view();
    let count = heads.len();
    let mut reasons: SortedSet<SemanticConflictOpenReason> = SortedSet::new();
    if count == 0 {
        reasons.insert(SemanticConflictOpenReason::NoResolution);
    } else if count > 1 {
        reasons.insert(SemanticConflictOpenReason::ResolutionConflict);
    } else {
        let mut current: SortedSet<PublicationId> = SortedSet::new();
        add_part_heads(events, standing, space_id, &conflict.participants, &mut current);
        assert(current.deep_view() =~= part_heads(members, space_id, model.participants));
        let covered = is_current_covered(events, disputes, conflict.conflict_id, &current);
        assert(covered == covers_current(members, model.conflict_id, current.deep_view()));
        if !covered {
            reasons.insert(SemanticConflictOpenReason::ResolutionDoesNotCoverCurrentPublicationHeads);
        }
    }
    if !is_converged(events, standing, space_id, &conflict.participants) {
        reasons.insert(SemanticConflictOpenReason::PublicationHeadsNotConverged);
    }
    assert(reasons.deep_view() =~= open_reasons(members, space_id, model));
    if reasons.is_empty() {
        proof {
            if count != 1 {
                assert(reasons.deep_view().contains(SemanticConflictOpenReason::NoResolution)
                    || reasons.deep_view().contains(SemanticConflictOpenReason::ResolutionConflict));
            }
        }
        let only = *heads.at(0);
        proof {
            let set = heads.deep_view();
            let chosen = set.choose();
            assert(set.contains(chosen));
            if chosen != only {
                assert(set.remove(only).contains(chosen));
                assert(set.remove(only).len() == 0);
            }
        }
        SemanticConflictStatus::Resolved { resolution_id: only }
    } else {
        SemanticConflictStatus::Open { reasons }
    }
}

/// The valid resolution that an event adds to a conflict.
pub open spec fn resolution_entry(
    events: Multiset<ReducerEventView>,
    conflict_id: ConflictId,
    event: ReducerEventView,
) -> Option<(ResolutionId, ConflictResolutionView)> {
    if valid_resolution(events, event) && resolution_of(event)->Some_0.1 == conflict_id {
        Some((resolution_of(event)->Some_0.2.resolution_id, resolution_of(event)->Some_0.2))
    } else {
        None
    }
}

/// A conflict, and a resolution, is defined by the event that holds it.
pub proof fn defines_dispute(event: ReducerEventView)
    ensures
        conflict_of(event) is Some ==> defines(
            event,
            definition(DefinitionKind::Conflict, conflict_of(event)->Some_0.1.conflict_id),
        ),
        resolution_of(event) is Some ==> defines(
            event,
            definition(DefinitionKind::Resolution, resolution_of(event)->Some_0.2.resolution_id),
        ),
{
    let all = definitions(event);
    assert(all.contains(all[1])) by {
        assert(all.len() > 1);
    }
}

/// A resolution identity holds one valid resolution.
pub proof fn resolution_entries_agree(events: Multiset<ReducerEventView>, conflict_id: ConflictId)
    ensures
        one_value_each(events, |event: ReducerEventView| resolution_entry(events, conflict_id, event)),
{
    let entry = |event: ReducerEventView| resolution_entry(events, conflict_id, event);
    assert forall|a: ReducerEventView, b: ReducerEventView| #[trigger]
        events.contains(a) && #[trigger] events.contains(b) && entry(a) is Some && entry(b) is Some && entry(
            a,
        )->Some_0.0 == entry(b)->Some_0.0 implies entry(a) == entry(b) by {
        defines_dispute(a);
        defines_dispute(b);
        sound_definitions_are_unique(
            events,
            a,
            b,
            definition(DefinitionKind::Resolution, resolution_of(a)->Some_0.2.resolution_id),
        );
    }
}

/// Projects the valid resolutions of a conflict.
fn project_resolutions(
    events: &Vec<ReducerEvent>,
    disputes: &Disputes,
    conflict_id: ConflictId,
) -> (map: SortedMap<ResolutionId, ConflictResolution>)
    requires
        disputes.describe(events.deep_view()),
    ensures
        map.deep_view() == keyed(
            events.deep_view().to_multiset(),
            |event: ReducerEventView| resolution_entry(events.deep_view().to_multiset(), conflict_id, event),
        ),
{
    let ghost list = events.deep_view();
    let ghost members = list.to_multiset();
    let ghost entry = |event: ReducerEventView| resolution_entry(members, conflict_id, event);
    proof {
        resolution_entries_agree(members, conflict_id);
    }
    let mut map: SortedMap<ResolutionId, ConflictResolution> = SortedMap::new();
    let mut index: usize = 0;
    while index < events.len()
        invariant
            index <= events@.len(),
            list == events.deep_view(),
            members == list.to_multiset(),
            entry == (|event: ReducerEventView| resolution_entry(members, conflict_id, event)),
            one_value_each(members, entry),
            disputes.describe(events.deep_view()),
            holds_first(map.deep_view(), list, entry, index as int),
        decreases events@.len() - index,
    {
        let found = project_resolutions_at(events, index, disputes, conflict_id);
        proof {
            holds_next(map.deep_view(), list, entry, index as int);
        }
        if let Some((key, value)) = found {
            map.insert(key, value);
        }
        index = index + 1;
    }
    proof {
        holds_whole(map.deep_view(), list, entry);
    }
    map
}

fn project_resolutions_at(
    events: &Vec<ReducerEvent>,
    at: usize,
    disputes: &Disputes,
    conflict_id: ConflictId,
) -> (entry: Option<(ResolutionId, ConflictResolution)>)
    requires
        at < events@.len(),
        disputes.describe(events.deep_view()),
    ensures
        entry.deep_view() == resolution_entry(
            events.deep_view().to_multiset(),
            conflict_id,
            events.deep_view()[at as int],
        ),
{
    let ghost list = events.deep_view();
    assert(list[at as int] == events@[at as int].deep_view());
    assert(disputes.resolutions@[at as int] == valid_resolution(list.to_multiset(), list[at as int]));
    match &events[at].payload {
        ReducerPayload::SemanticConflictResolutionAdded { space_id: _, conflict_id: other, resolution } if
            disputes.resolutions[at] && *other == conflict_id => Some(
            (resolution.resolution_id, resolution.copied()),
        ),
        _ => None,
    }
}

/// The projection of the valid conflict that an event opens.
pub open spec fn conflict_entry(
    events: Multiset<ReducerEventView>,
    event: ReducerEventView,
) -> Option<(ConflictId, SemanticConflictProjectionView)> {
    if valid_conflict(events, event) {
        let (space_id, conflict) = conflict_of(event)->Some_0;
        let conflict_id = conflict.conflict_id;
        Some(
            (
                conflict_id,
                SemanticConflictProjectionView {
                    space_id,
                    conflict,
                    resolutions: keyed(
                        events,
                        |event: ReducerEventView| resolution_entry(events, conflict_id, event),
                    ),
                    resolution_heads: head_resolutions(events, conflict_id),
                    status: conflict_status(events, space_id, conflict),
                },
            ),
        )
    } else {
        None
    }
}

/// A conflict identity holds one valid conflict.
pub proof fn conflict_entries_agree(events: Multiset<ReducerEventView>)
    ensures
        one_value_each(events, |event: ReducerEventView| conflict_entry(events, event)),
{
    let entry = |event: ReducerEventView| conflict_entry(events, event);
    assert forall|a: ReducerEventView, b: ReducerEventView| #[trigger]
        events.contains(a) && #[trigger] events.contains(b) && entry(a) is Some && entry(b) is Some && entry(
            a,
        )->Some_0.0 == entry(b)->Some_0.0 implies entry(a) == entry(b) by {
        defines_dispute(a);
        defines_dispute(b);
        sound_definitions_are_unique(
            events,
            a,
            b,
            definition(DefinitionKind::Conflict, conflict_of(a)->Some_0.1.conflict_id),
        );
    }
}

/// Projects the valid conflicts.
pub fn project_conflicts(
    events: &Vec<ReducerEvent>,
    standing: &Standing,
    disputes: &Disputes,
) -> (map: SortedMap<ConflictId, SemanticConflictProjection>)
    requires
        standing.describe(events.deep_view()),
        disputes.describe(events.deep_view()),
    ensures
        map.deep_view() == keyed(
            events.deep_view().to_multiset(),
            |event: ReducerEventView| conflict_entry(events.deep_view().to_multiset(), event),
        ),
{
    let ghost list = events.deep_view();
    let ghost members = list.to_multiset();
    let ghost entry = |event: ReducerEventView| conflict_entry(members, event);
    proof {
        conflict_entries_agree(members);
    }
    let mut map: SortedMap<ConflictId, SemanticConflictProjection> = SortedMap::new();
    let mut index: usize = 0;
    while index < events.len()
        invariant
            index <= events@.len(),
            list == events.deep_view(),
            members == list.to_multiset(),
            entry == (|event: ReducerEventView| conflict_entry(members, event)),
            one_value_each(members, entry),
            standing.describe(events.deep_view()),
            disputes.describe(events.deep_view()),
            holds_first(map.deep_view(), list, entry, index as int),
        decreases events@.len() - index,
    {
        let found = project_conflicts_at(events, index, standing, disputes);
        proof {
            holds_next(map.deep_view(), list, entry, index as int);
        }
        if let Some((key, value)) = found {
            map.insert(key, value);
        }
        index = index + 1;
    }
    proof {
        holds_whole(map.deep_view(), list, entry);
    }
    map
}

fn project_conflicts_at(
    events: &Vec<ReducerEvent>,
    at: usize,
    standing: &Standing,
    disputes: &Disputes,
) -> (entry: Option<(ConflictId, SemanticConflictProjection)>)
    requires
        at < events@.len(),
        standing.describe(events.deep_view()),
        disputes.describe(events.deep_view()),
    ensures
        entry.deep_view() == conflict_entry(events.deep_view().to_multiset(), events.deep_view()[at as int]),
{
    let ghost list = events.deep_view();
    let ghost members = list.to_multiset();
    assert(list[at as int] == events@[at as int].deep_view());
    assert(disputes.conflicts@[at as int] == valid_conflict(members, list[at as int]));
    match &events[at].payload {
        ReducerPayload::SemanticConflictOpened { space_id, conflict } if disputes.conflicts[at] => {
            let mut heads: SortedSet<ResolutionId> = SortedSet::new();
            add_head_resolutions(events, disputes, conflict.conflict_id, &mut heads);
            assert(heads.deep_view() =~= head_resolutions(members, conflict.deep_view().conflict_id));
            let status = judge(events, standing, disputes, &heads, *space_id, conflict);
            Some(
                (
                    conflict.conflict_id,
                    SemanticConflictProjection {
                        space_id: *space_id,
                        conflict: conflict.copied(),
                        resolutions: project_resolutions(events, disputes, conflict.conflict_id),
                        resolution_heads: heads,
                        status,
                    },
                ),
            )
        },
        _ => None,
    }
}

/// What an open conflict keeps from automatic injection.
pub open spec fn conflict_blocker_share(
    events: Multiset<ReducerEventView>,
    space_id: SpaceId,
    context_id: ContextId,
    event: ReducerEventView,
) -> Set<AutoInjectionBlocker> {
    match conflict_entry(events, event) {
        Some((conflict_id, projection)) => {
            if projection.status is Open && projection.space_id == space_id && participant_contexts(
                projection.conflict.participants,
            ).contains(context_id) {
                Set::empty().insert(AutoInjectionBlocker::UnresolvedSemanticConflict(conflict_id))
            } else {
                Set::empty()
            }
        },
        None => Set::empty(),
    }
}

/// What governance keeps from automatic injection.
pub open spec fn governance_blockers(status: ContextGovernanceStatusView) -> Set<AutoInjectionBlocker> {
    match status {
        ContextGovernanceStatusView::Accepted { publication_id: _, revision_id: _ } => Set::empty(),
        ContextGovernanceStatusView::GovernanceConflict { publication_ids: _ } => Set::empty().insert(
            AutoInjectionBlocker::GovernanceConflict,
        ),
        _ => Set::empty().insert(AutoInjectionBlocker::NotAccepted),
    }
}

/// What keeps a Context of a Space from automatic injection.
pub open spec fn blockers(
    events: Multiset<ReducerEventView>,
    space_id: SpaceId,
    context_id: ContextId,
) -> Set<AutoInjectionBlocker> {
    governance_blockers(governance(events, space_id, context_id)).union(
        gathered(events, |event: ReducerEventView| conflict_blocker_share(events, space_id, context_id, event)),
    )
}

/// Whether a Context of a Space may be injected automatically: nothing may block it.
pub open spec fn eligibility(
    events: Multiset<ReducerEventView>,
    space_id: SpaceId,
    context_id: ContextId,
) -> AutoInjectionEligibilityView {
    AutoInjectionEligibilityView {
        eligible: blockers(events, space_id, context_id) == Set::<AutoInjectionBlocker>::empty(),
        blockers: blockers(events, space_id, context_id),
    }
}

/// Adds what open conflicts keep from automatic injection.
fn add_conflict_blockers(
    conflicts: &SortedMap<ConflictId, SemanticConflictProjection>,
    Ghost(events): Ghost<Multiset<ReducerEventView>>,
    space_id: SpaceId,
    context_id: ContextId,
    found: &mut SortedSet<AutoInjectionBlocker>,
)
    requires
        conflicts.deep_view() == keyed(events, |event: ReducerEventView| conflict_entry(events, event)),
    ensures
        final(found).deep_view() == old(found).deep_view().union(
            gathered(events, |event: ReducerEventView| conflict_blocker_share(events, space_id, context_id, event)),
        ),
{
    let ghost all = conflicts.deep_view();
    let ghost keys = conflicts.listing();
    let ghost start = found.deep_view();
    let ghost share = |conflict_id: ConflictId| projected_blocker(all, space_id, context_id, conflict_id);
    let count = conflicts.len();
    proof {
        gathered_none(keys, share);
        assert(start =~= start.union(Set::empty()));
    }
    let mut index: usize = 0;
    while index < count
        invariant
            index <= count,
            count == keys.len(),
            keys == conflicts.listing(),
            all == conflicts.deep_view(),
            keys.to_set() == all.dom(),
            share == (|conflict_id: ConflictId| projected_blocker(all, space_id, context_id, conflict_id)),
            found.deep_view() == start.union(gathered_first(keys, share, index as int)),
        decreases count - index,
    {
        let conflict_id = *conflicts.key_at(index);
        let projection = conflicts.value_at(index);
        assert(keys[index as int] == conflict_id);
        if let SemanticConflictStatus::Open { reasons: _ } = &projection.status {
            let contexts = contexts_of_participants(&projection.conflict.participants);
            if projection.space_id == space_id && crate::checks::is_among(&contexts, &context_id) {
                found.insert(AutoInjectionBlocker::UnresolvedSemanticConflict(conflict_id));
            }
        }
        proof {
            gathered_next(keys, share, index as int);
            assert(found.deep_view() =~= start.union(gathered_first(keys, share, index + 1)));
        }
        index = index + 1;
    }
    proof {
        let firsts = gathered_first(keys, share, keys.len() as int);
        let shares = |event: ReducerEventView| conflict_blocker_share(events, space_id, context_id, event);
        let entry = |event: ReducerEventView| conflict_entry(events, event);
        conflict_entries_agree(events);
        assert forall|blocker: AutoInjectionBlocker| firsts.contains(blocker) == gathered(events, shares).contains(
            blocker,
        ) by {
            if firsts.contains(blocker) {
                let i = choose|i: int| 0 <= i < keys.len() && share(#[trigger] keys[i]).contains(blocker);
                assert(keys.to_set().contains(keys[i]));
                assert(all.contains_key(keys[i]));
                let event = choose|event: ReducerEventView| #[trigger]
                    events.contains(event) && crate::gather::gives_key(entry, event, keys[i]);
                crate::gather::keyed_value(events, entry, event);
                assert(shares(event).contains(blocker));
            }
            if gathered(events, shares).contains(blocker) {
                let event = choose|event: ReducerEventView| #[trigger]
                    events.contains(event) && shares(event).contains(blocker);
                crate::gather::keyed_value(events, entry, event);
                let key = conflict_entry(events, event)->Some_0.0;
                assert(all.contains_key(key));
                assert(keys.to_set().contains(key));
                let i = choose|i: int| 0 <= i < keys.len() && keys[i] == key;
                assert(share(keys[i]).contains(blocker));
            }
        }
        assert(firsts =~= gathered(events, shares));
    }
}

/// What a projected conflict keeps from automatic injection.
spec fn projected_blocker(
    conflicts: Map<ConflictId, SemanticConflictProjectionView>,
    space_id: SpaceId,
    context_id: ContextId,
    conflict_id: ConflictId,
) -> Set<AutoInjectionBlocker> {
    let projection = conflicts[conflict_id];
    if projection.status is Open && projection.space_id == space_id && participant_contexts(
        projection.conflict.participants,
    ).contains(context_id) {
        Set::empty().insert(AutoInjectionBlocker::UnresolvedSemanticConflict(conflict_id))
    } else {
        Set::empty()
    }
}

/// Determines whether a Context of a Space may be injected automatically.
pub fn judge_eligibility(
    conflicts: &SortedMap<ConflictId, SemanticConflictProjection>,
    Ghost(events): Ghost<Multiset<ReducerEventView>>,
    status: &ContextGovernanceStatus,
    space_id: SpaceId,
    context_id: ContextId,
) -> (result: AutoInjectionEligibility)
    requires
        conflicts.deep_view() == keyed(events, |event: ReducerEventView| conflict_entry(events, event)),
        status.deep_view() == governance(events, space_id, context_id),
    ensures
        result.deep_view() == eligibility(events, space_id, context_id),
{
    let mut found: SortedSet<AutoInjectionBlocker> = SortedSet::new();
    match status {
        ContextGovernanceStatus::Accepted { publication_id: _, revision_id: _ } => {},
        ContextGovernanceStatus::GovernanceConflict { publication_ids: _ } => {
            found.insert(AutoInjectionBlocker::GovernanceConflict);
        },
        _ => {
            found.insert(AutoInjectionBlocker::NotAccepted);
        },
    }
    assert(found.deep_view() =~= governance_blockers(status.deep_view()));
    add_conflict_blockers(conflicts, Ghost(events), space_id, context_id, &mut found);
    AutoInjectionEligibility { eligible: found.is_empty(), blockers: found }
}

} // verus!
