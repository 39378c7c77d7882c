//! Confirmed semantic conflicts, their resolutions, and the pairs that call for one.

use vstd::multiset::Multiset;
use vstd::prelude::*;

use crate::collections::SortedSet;
use crate::contexts::{defines_own, published_in, Standing};
use crate::dag::{nodes_among, nodes_are, DagNode, DagNodeView};
use crate::definitions::{
    add_event_diagnostic, definition, definitions, diagnostic, one_event, sound, sound_definitions_are_unique,
    DefinitionKind,
};
use crate::events::{
    ReducerDiagnostic, ReducerDiagnosticCode, ReducerDiagnosticView, ReducerEvent, ReducerEventView,
    ReducerPayload, ReducerPayloadView,
};
use crate::gather::{
    flags_are, gathered, gathered_first, gathered_next, gathered_none, gathered_same, gathered_whole,
    is_member, place_in,
};
use crate::governance::{
    has_live_revision, live_as, live_is_revision, live_revision, publication_of, valid_publication,
};
use crate::ids::{ConflictId, Identifier, PublicationId, SpaceId};
use crate::lineage::{
    id_numbers, is_head_member, is_valid_member, lineage_complaint, live, numbers_of, revision_of,
    validate_dag, Line, Lineage,
};
use crate::model::{
    contexts_of, contexts_of_participants, participant_contexts, result_contexts, Applicability,
    ApplicabilityView, ConflictParticipant, ConflictParticipantView, ConflictResolution,
    ConflictResolutionResult, ConflictResolutionResultView, ConflictResolutionView, ContextKind,
    ContextRevision, ContextRevisionView, PublicationAction, SemanticConflict, SemanticConflictView,
};
use crate::ownership::valid_spaces;
use crate::text::joined3;
use crate::value::{push_value, Value};

verus! {

/// Whether two scopes overlap in one dimension: an omitted dimension is unrestricted, and others
/// overlap where they share an exact value.
pub open spec fn dimension_overlaps(left: Seq<Seq<char>>, right: Seq<Seq<char>>) -> bool {
    left.len() == 0 || right.len() == 0 || exists|i: int|
        0 <= i < left.len() && right.contains(#[trigger] left[i])
}

/// Whether two scopes overlap in every dimension.
pub open spec fn scopes_overlap(left: ApplicabilityView, right: ApplicabilityView) -> bool {
    &&& dimension_overlaps(left.domains, right.domains)
    &&& dimension_overlaps(left.platforms, right.platforms)
    &&& dimension_overlaps(left.conditions, right.conditions)
}

fn scope_dimension_overlaps(left: &Vec<String>, right: &Vec<String>) -> (overlaps: bool)
    ensures
        overlaps == dimension_overlaps(left.deep_view(), right.deep_view()),
{
    assert(left.deep_view().len() == left@.len());
    assert(right.deep_view().len() == right@.len());
    if left.len() == 0 || right.len() == 0 {
        return true;
    }
    let mut index: usize = 0;
    while index < left.len()
        invariant
            index <= left@.len(),
            forall|i: int| 0 <= i < index ==> !right.deep_view().contains(#[trigger] left.deep_view()[i]),
        decreases left@.len() - index,
    {
        assert(left.deep_view()[index as int] == left@[index as int].deep_view());
        if crate::checks::is_among(right, &left[index]) {
            return true;
        }
        index = index + 1;
    }
    false
}

/// Whether two scopes overlap.
pub fn applicability_overlaps(left: &Applicability, right: &Applicability) -> (overlaps: bool)
    ensures
        overlaps == scopes_overlap(left.deep_view(), right.deep_view()),
{
    scope_dimension_overlaps(&left.domains, &right.domains) && scope_dimension_overlaps(
        &left.platforms,
        &right.platforms,
    ) && scope_dimension_overlaps(&left.conditions, &right.conditions)
}

/// Overlap does not depend on which scope comes first.
pub proof fn overlap_is_symmetric(left: ApplicabilityView, right: ApplicabilityView)
    ensures
        scopes_overlap(left, right) == scopes_overlap(right, left),
{
    dimension_overlap_is_symmetric(left.domains, right.domains);
    dimension_overlap_is_symmetric(right.domains, left.domains);
    dimension_overlap_is_symmetric(left.platforms, right.platforms);
    dimension_overlap_is_symmetric(right.platforms, left.platforms);
    dimension_overlap_is_symmetric(left.conditions, right.conditions);
    dimension_overlap_is_symmetric(right.conditions, left.conditions);
}

proof fn dimension_overlap_is_symmetric(left: Seq<Seq<char>>, right: Seq<Seq<char>>)
    ensures
        dimension_overlaps(left, right) ==> dimension_overlaps(right, left),
{
    if left.len() > 0 && right.len() > 0 && dimension_overlaps(left, right) {
        let i = choose|i: int| 0 <= i < left.len() && right.contains(#[trigger] left[i]);
        let j = choose|j: int| 0 <= j < right.len() && right[j] == left[i];
        assert(left.contains(right[j]));
    }
}

/// Whether a kind of Context can take part in a semantic conflict.
pub open spec fn can_conflict(kind: ContextKind) -> bool {
    kind == ContextKind::Decision || kind == ContextKind::Contract
}

fn is_conflicting_kind(kind: ContextKind) -> (result: bool)
    ensures
        result == can_conflict(kind),
{
    match kind {
        ContextKind::Decision | ContextKind::Contract => true,
        _ => false,
    }
}

/// Whether an event adds the live Decision or Contract that a participant names.
pub open spec fn takes_part(
    events: Multiset<ReducerEventView>,
    event: ReducerEventView,
    space_id: SpaceId,
    participant: ConflictParticipantView,
) -> bool {
    live_as(events, event, space_id, participant.context_id, participant.revision_id) && can_conflict(
        revision_of(event)->Some_0.2.kind,
    )
}

/// Whether an event is the valid publication that a participant names.
pub open spec fn publishes_part(
    events: Multiset<ReducerEventView>,
    event: ReducerEventView,
    space_id: SpaceId,
    participant: ConflictParticipantView,
) -> bool {
    &&& published_in(events, event, space_id, participant.context_id)
    &&& publication_of(event)->Some_0.2.publication_id == participant.publication_id
    &&& publication_of(event)->Some_0.2.action == PublicationAction::Publish
    &&& publication_of(event)->Some_0.2.revision_id == participant.revision_id
}

/// Whether a participant is a live Decision or Contract with the publication that it names.
pub open spec fn participant_stands(
    events: Multiset<ReducerEventView>,
    space_id: SpaceId,
    participant: ConflictParticipantView,
) -> bool {
    &&& exists|event: ReducerEventView| #[trigger]
        events.contains(event) && takes_part(events, event, space_id, participant)
    &&& exists|event: ReducerEventView| #[trigger]
        events.contains(event) && publishes_part(events, event, space_id, participant)
}

/// The revision of a participant.
pub open spec fn participant_revision(
    events: Multiset<ReducerEventView>,
    space_id: SpaceId,
    participant: ConflictParticipantView,
) -> ContextRevisionView {
    revision_of(
        choose|event: ReducerEventView| #[trigger]
            events.contains(event) && takes_part(events, event, space_id, participant),
    )->Some_0.2
}

/// The revision of a participant is the one that takes part.
proof fn participant_is_unique(
    events: Multiset<ReducerEventView>,
    space_id: SpaceId,
    participant: ConflictParticipantView,
    event: ReducerEventView,
)
    requires
        events.contains(event),
        takes_part(events, event, space_id, participant),
    ensures
        participant_revision(events, space_id, participant) == revision_of(event)->Some_0.2,
{
    let other = choose|other: ReducerEventView| #[trigger]
        events.contains(other) && takes_part(events, other, space_id, participant);
    defines_own(event);
    defines_own(other);
    live_is_revision(events, event);
    live_is_revision(events, other);
    sound_definitions_are_unique(
        events,
        event,
        other,
        definition(DefinitionKind::ContextRevision, participant.revision_id),
    );
}

/// The Space and the conflict that an event opens.
pub open spec fn conflict_of(event: ReducerEventView) -> Option<(SpaceId, SemanticConflictView)> {
    match event.payload {
        ReducerPayloadView::SemanticConflictOpened { space_id, conflict } => Some((space_id, conflict)),
        _ => None,
    }
}

/// Whether a conflict refers to standing participants of one valid Space, with one topic and
/// overlapping scopes.
pub open spec fn conflict_refers(
    events: Multiset<ReducerEventView>,
    space_id: SpaceId,
    conflict: SemanticConflictView,
) -> bool {
    let parts = conflict.participants;
    &&& valid_spaces(events).contains(space_id)
    &&& forall|i: int| 0 <= i < parts.len() ==> participant_stands(events, space_id, #[trigger] parts[i])
    &&& forall|i: int, j: int|
        0 <= i < j < parts.len() ==> share_topic(
            participant_revision(events, space_id, #[trigger] parts[i]),
            participant_revision(events, space_id, #[trigger] parts[j]),
        )
    &&& forall|i: int|
        0 <= i < parts.len() ==> scopes_overlap(
            conflict.applicability,
            participant_revision(events, space_id, #[trigger] parts[i]).applicability,
        )
}

/// Whether two revisions have the same topic and overlapping scopes.
pub open spec fn share_topic(left: ContextRevisionView, right: ContextRevisionView) -> bool {
    left.topic_key == right.topic_key && scopes_overlap(left.applicability, right.applicability)
}

/// Whether an event opens a valid conflict.
pub open spec fn valid_conflict(events: Multiset<ReducerEventView>, event: ReducerEventView) -> bool {
    match conflict_of(event) {
        Some((space_id, conflict)) => sound(events, event) && conflict_refers(events, space_id, conflict),
        None => false,
    }
}

/// What conflicts contribute to the diagnostics.
pub open spec fn conflict_complaints(
    events: Multiset<ReducerEventView>,
    event: ReducerEventView,
) -> Set<ReducerDiagnosticView> {
    match conflict_of(event) {
        Some((_, conflict)) => {
            let text = conflict.conflict_id.text();
            if sound(events, event) && !valid_conflict(events, event) {
                Set::empty().insert(
                    diagnostic(
                        ReducerDiagnosticCode::InvalidSemanticConflictReference,
                        text,
                        one_event(event.event_id),
                        "semantic conflict "@ + text
                            + " must reference valid same-space publish nodes with one overlapping topic"@,
                    ),
                )
            } else {
                Set::empty()
            }
        },
        None => Set::empty(),
    }
}

/// Finds the live Decision or Contract that a participant names.
fn find_part(
    events: &Vec<ReducerEvent>,
    standing: &Standing,
    space_id: SpaceId,
    participant: &ConflictParticipant,
) -> (found: Option<usize>)
    requires
        standing.describe(events.deep_view()),
    ensures
        match found {
            Some(at) => at < events@.len() && takes_part(
                events.deep_view().to_multiset(),
                events.deep_view()[at as int],
                space_id,
                participant.deep_view(),
            ),
            None => forall|event: ReducerEventView| #[trigger]
                events.deep_view().to_multiset().contains(event) ==> !takes_part(
                    events.deep_view().to_multiset(),
                    event,
                    space_id,
                    participant.deep_view(),
                ),
        },
{
    let ghost list = events.deep_view();
    let ghost members = list.to_multiset();
    let ghost model = participant.deep_view();
    let mut index: usize = 0;
    while index < events.len()
        invariant
            index <= events@.len(),
            list == events.deep_view(),
            members == list.to_multiset(),
            model == participant.deep_view(),
            standing.describe(list),
            forall|i: int| 0 <= i < index ==> !takes_part(members, #[trigger] list[i], space_id, model),
        decreases events@.len() - index,
    {
        assert(list[index as int] == events@[index as int].deep_view());
        assert(standing.live@[index as int] == live(members, list[index as int]));
        if standing.live[index] {
            proof {
                live_is_revision(members, list[index as int]);
            }
            if let ReducerPayload::ContextRevisionAdded { space_id: space, context_id, revision } =
                &events[index].payload {
                if *space == space_id && *context_id == participant.context_id && revision.revision_id
                    == participant.revision_id && is_conflicting_kind(revision.kind) {
                    return Some(index);
                }
            }
        }
        index = index + 1;
    }
    proof {
        assert forall|event: ReducerEventView| #[trigger] members.contains(event) implies !takes_part(
            members,
            event,
            space_id,
            model,
        ) by {
            let i = place_in(list, event);
            assert(!takes_part(members, list[i], space_id, model));
        }
    }
    None
}

/// Whether there is the valid publication that a participant names.
fn has_part_publication(
    events: &Vec<ReducerEvent>,
    standing: &Standing,
    space_id: SpaceId,
    participant: &ConflictParticipant,
) -> (found: bool)
    requires
        standing.describe(events.deep_view()),
    ensures
        found == exists|event: ReducerEventView| #[trigger] events.deep_view().to_multiset().contains(event)
            && publishes_part(events.deep_view().to_multiset(), event, space_id, participant.deep_view()),
{
    let ghost list = events.deep_view();
    let ghost members = list.to_multiset();
    let mut index: usize = 0;
    while index < events.len()
        invariant
            index <= events@.len(),
            list == events.deep_view(),
            members == list.to_multiset(),
            standing.describe(events.deep_view()),
            forall|i: int| 0 <= i < index ==> !(
                publishes_part(members, #[trigger] list[i], space_id, participant.deep_view())
            ),
        decreases events@.len() - index,
    {
        if has_part_publication_at(events, index, standing, space_id, participant) {
            proof {
                is_member(list, index as int);
            }
            return true;
        }
        index = index + 1;
    }
    proof {
        if exists|event: ReducerEventView| #[trigger] members.contains(event)
            && publishes_part(members, event, space_id, participant.deep_view()) {
            let event = choose|event: ReducerEventView| #[trigger] members.contains(event)
                && publishes_part(members, event, space_id, participant.deep_view());
            let at = place_in(list, event);
        }
    }
    false
}

fn has_part_publication_at(
    events: &Vec<ReducerEvent>,
    at: usize,
    standing: &Standing,
    space_id: SpaceId,
    participant: &ConflictParticipant,
) -> (found: bool)
    requires
        at < events@.len(),
        standing.describe(events.deep_view()),
    ensures
        found == publishes_part(
            events.deep_view().to_multiset(),
            events.deep_view()[at as int],
            space_id,
            participant.deep_view(),
        ),
{
    let ghost list = events.deep_view();
    assert(list[at as int] == events@[at as int].deep_view());
    assert(standing.publications@[at as int] == valid_publication(list.to_multiset(), list[at as int]));
    match &events[at].payload {
        ReducerPayload::ContextPublicationChanged { space_id: space, context_id, publication } => {
            standing.publications[at] && *space == space_id && *context_id == participant.context_id
                && publication.publication_id == participant.publication_id && publication.action
                == PublicationAction::Publish && publication.revision_id == participant.revision_id
        },
        _ => false,
    }
}

/// Finds the revisions of all participants, where all of them stand.
fn find_parts(
    events: &Vec<ReducerEvent>,
    standing: &Standing,
    space_id: SpaceId,
    participants: &Vec<ConflictParticipant>,
) -> (found: Option<Vec<usize>>)
    requires
        standing.describe(events.deep_view()),
    ensures
        match found {
            Some(places) => places@.len() == participants@.len() && (forall|i: int|
                0 <= i < places@.len() ==> participant_stands(
                    events.deep_view().to_multiset(),
                    space_id,
                    #[trigger] participants.deep_view()[i],
                )) && (forall|i: int|
                0 <= i < places@.len() ==> (#[trigger] places@[i]) < events@.len() && takes_part(
                    events.deep_view().to_multiset(),
                    events.deep_view()[places@[i] as int],
                    space_id,
                    participants.deep_view()[i],
                )),
            None => exists|i: int|
                0 <= i < participants@.len() && !participant_stands(
                    events.deep_view().to_multiset(),
                    space_id,
                    #[trigger] participants.deep_view()[i],
                ),
        },
{
    let ghost list = events.deep_view();
    let ghost members = list.to_multiset();
    let ghost model = participants.deep_view();
    let mut places: Vec<usize> = Vec::new();
    let mut index: usize = 0;
    while index < participants.len()
        invariant
            index <= participants@.len(),
            list == events.deep_view(),
            members == list.to_multiset(),
            model == participants.deep_view(),
            standing.describe(list),
            places@.len() == index,
            forall|i: int| 0 <= i < index ==> participant_stands(members, space_id, #[trigger] model[i]),
            forall|i: int|
                0 <= i < index ==> (#[trigger] places@[i]) < events@.len() && takes_part(
                    members,
                    list[places@[i] as int],
                    space_id,
                    model[i],
                ),
        decreases participants@.len() - index,
    {
        let participant = &participants[index];
        assert(model[index as int] == participant.deep_view());
        match find_part(events, standing, space_id, participant) {
            None => {
                assert(!participant_stands(members, space_id, model[index as int]));
                return None;
            },
            Some(at) => {
                if !has_part_publication(events, standing, space_id, participant) {
                    assert(!participant_stands(members, space_id, model[index as int]));
                    return None;
                }
                proof {
                    is_member(list, at as int);
                    assert(participant_stands(members, space_id, model[index as int]));
                }
                places.push(at);
            },
        }
        index = index + 1;
    }
    Some(places)
}

/// Whether two events add revisions with the same topic and overlapping scopes.
fn do_share_topic(left: &ReducerEvent, right: &ReducerEvent) -> (shared: bool)
    requires
        revision_of(left.deep_view()) is Some,
        revision_of(right.deep_view()) is Some,
    ensures
        shared == share_topic(
            revision_of(left.deep_view())->Some_0.2,
            revision_of(right.deep_view())->Some_0.2,
        ),
{
    match (&left.payload, &right.payload) {
        (
            ReducerPayload::ContextRevisionAdded { space_id: _, context_id: _, revision: first },
            ReducerPayload::ContextRevisionAdded { space_id: _, context_id: _, revision: second },
        ) => first.topic_key.same(&second.topic_key) && applicability_overlaps(
            &first.applicability,
            &second.applicability,
        ),
        _ => false,
    }
}

fn overlaps_scope(scope: &Applicability, event: &ReducerEvent) -> (overlaps: bool)
    requires
        revision_of(event.deep_view()) is Some,
    ensures
        overlaps == scopes_overlap(
            scope.deep_view(),
            revision_of(event.deep_view())->Some_0.2.applicability,
        ),
{
    match &event.payload {
        ReducerPayload::ContextRevisionAdded { space_id: _, context_id: _, revision } => applicability_overlaps(
            scope,
            &revision.applicability,
        ),
        _ => false,
    }
}

/// Whether the references of a conflict are valid.
fn refers_to_standing(
    events: &Vec<ReducerEvent>,
    standing: &Standing,
    space_id: SpaceId,
    conflict: &SemanticConflict,
) -> (valid: bool)
    requires
        standing.describe(events.deep_view()),
    ensures
        valid == conflict_refers(events.deep_view().to_multiset(), space_id, conflict.deep_view()),
{
    let ghost list = events.deep_view();
    let ghost members = list.to_multiset();
    let ghost model = conflict.deep_view();
    let ghost parts = model.participants;
    if !standing.facts.spaces.contains(&space_id) {
        return false;
    }
    match find_parts(events, standing, space_id, &conflict.participants) {
        None => false,
        Some(places) => {
            proof {
                assert(parts.len() == places@.len());
                assert forall|i: int| 0 <= i < places@.len() implies revision_of(
                    list[#[trigger] places@[i] as int],
                ) is Some
                    && participant_revision(members, space_id, parts[i])
                    == revision_of(list[places@[i] as int])->Some_0.2 by {
                    is_member(list, places@[i] as int);
                    live_is_revision(members, list[places@[i] as int]);
                    participant_is_unique(members, space_id, parts[i], list[places@[i] as int]);
                }
            }
            let mut left: usize = 0;
            while left < places.len()
                invariant
                    left <= places@.len(),
                    places@.len() == parts.len(),
                    list == events.deep_view(),
                    members == list.to_multiset(),
                    parts == model.participants,
                    model == conflict.deep_view(),
                    forall|i: int|
                        0 <= i < places@.len() ==> (#[trigger] places@[i]) < events@.len() && revision_of(
                            list[places@[i] as int],
                        ) is Some && participant_revision(members, space_id, parts[i]) == revision_of(
                            list[places@[i] as int],
                        )->Some_0.2,
                    forall|i: int, j: int|
                        0 <= i < left && i < j < parts.len() ==> share_topic(
                            participant_revision(members, space_id, #[trigger] parts[i]),
                            participant_revision(members, space_id, #[trigger] parts[j]),
                        ),
                    forall|i: int|
                        0 <= i < left ==> scopes_overlap(
                            model.applicability,
                            participant_revision(members, space_id, #[trigger] parts[i]).applicability,
                        ),
                decreases places@.len() - left,
            {
                let first = places[left];
                assert(list[first as int] == events@[first as int].deep_view());
                if !overlaps_scope(&conflict.applicability, &events[first]) {
                    assert(!scopes_overlap(
                        model.applicability,
                        participant_revision(members, space_id, parts[left as int]).applicability,
                    ));
                    return false;
                }
                let mut right: usize = left + 1;
                while right < places.len()
                    invariant
                        left < right <= places@.len(),
                        places@.len() == parts.len(),
                        first == places@[left as int],
                        list == events.deep_view(),
                        members == list.to_multiset(),
                        parts == model.participants,
                        model == conflict.deep_view(),
                        forall|i: int|
                            0 <= i < places@.len() ==> (#[trigger] places@[i]) < events@.len() && revision_of(
                                list[places@[i] as int],
                            ) is Some && participant_revision(members, space_id, parts[i]) == revision_of(
                                list[places@[i] as int],
                            )->Some_0.2,
                        forall|j: int|
                            left < j < right ==> share_topic(
                                participant_revision(members, space_id, parts[left as int]),
                                participant_revision(members, space_id, #[trigger] parts[j]),
                            ),
                    decreases places@.len() - right,
                {
                    let second = places[right];
                    assert(list[first as int] == events@[first as int].deep_view());
                    assert(list[second as int] == events@[second as int].deep_view());
                    if !do_share_topic(&events[first], &events[second]) {
                        assert(!share_topic(
                            participant_revision(members, space_id, parts[left as int]),
                            participant_revision(members, space_id, parts[right as int]),
                        ));
                        return false;
                    }
                    right = right + 1;
                }
                left = left + 1;
            }
            true
        },
    }
}

/// Which events open valid conflicts.
pub fn list_conflicts(events: &Vec<ReducerEvent>, standing: &Standing) -> (flags: Vec<bool>)
    requires
        standing.describe(events.deep_view()),
    ensures
        flags_are(
            flags@,
            events.deep_view(),
            |event: ReducerEventView| valid_conflict(events.deep_view().to_multiset(), event),
        ),
{
    let ghost list = events.deep_view();
    let ghost members = list.to_multiset();
    let mut flags: Vec<bool> = Vec::new();
    let mut index: usize = 0;
    while index < events.len()
        invariant
            index <= events@.len(),
            list == events.deep_view(),
            members == list.to_multiset(),
            standing.describe(events.deep_view()),
            flags@.len() == index,
            forall|i: int| 0 <= i < index ==> #[trigger] flags@[i] == valid_conflict(members, list[i]),
        decreases events@.len() - index,
    {
        let flag = list_conflicts_at(events, index, standing);
        flags.push(flag);
        index = index + 1;
    }
    flags
}

fn list_conflicts_at(events: &Vec<ReducerEvent>, at: usize, standing: &Standing) -> (flag: bool)
    requires
        at < events@.len(),
        standing.describe(events.deep_view()),
    ensures
        flag == valid_conflict(events.deep_view().to_multiset(), events.deep_view()[at as int]),
{
    let ghost list = events.deep_view();
    assert(list[at as int] == events@[at as int].deep_view());
    assert(standing.facts.sound@[at as int] == sound(list.to_multiset(), list[at as int]));
    match &events[at].payload {
        ReducerPayload::SemanticConflictOpened { space_id, conflict } => standing.facts.sound[at]
            && refers_to_standing(events, standing, *space_id, conflict),
        _ => false,
    }
}

/// Adds what conflicts contribute to the diagnostics.
pub fn complain_of_conflicts(
    events: &Vec<ReducerEvent>,
    standing: &Standing,
    conflicts: &Vec<bool>,
    complaints: &mut SortedSet<ReducerDiagnostic>,
)
    requires
        standing.describe(events.deep_view()),
        flags_are(
            conflicts@,
            events.deep_view(),
            |event: ReducerEventView| valid_conflict(events.deep_view().to_multiset(), event),
        ),
    ensures
        final(complaints).deep_view() == old(complaints).deep_view().union(
            gathered(
                events.deep_view().to_multiset(),
                |event: ReducerEventView| conflict_complaints(events.deep_view().to_multiset(), event),
            ),
        ),
{
    let ghost list = events.deep_view();
    let ghost members = list.to_multiset();
    let ghost share = |event: ReducerEventView| conflict_complaints(members, event);
    let ghost start = complaints.deep_view();
    proof {
        gathered_none(list, share);
        assert(start =~= start.union(Set::empty()));
    }
    let mut index: usize = 0;
    while index < events.len()
        invariant
            index <= events@.len(),
            list == events.deep_view(),
            members == list.to_multiset(),
            share == (|event: ReducerEventView| conflict_complaints(members, event)),
            standing.describe(events.deep_view()),
            flags_are(
                conflicts@,
                events.deep_view(),
                |event: ReducerEventView| valid_conflict(events.deep_view().to_multiset(), event),
            ),
            complaints.deep_view() == start.union(gathered_first(list, share, index as int)),
        decreases events@.len() - index,
    {
        complain_of_conflicts_at(events, index, standing, conflicts, complaints);
        proof {
            gathered_next(list, share, index as int);
            assert(complaints.deep_view() =~= start.union(gathered_first(list, share, index + 1)));
        }
        index = index + 1;
    }
    proof {
        gathered_whole(list, share);
    }
}

fn complain_of_conflicts_at(
    events: &Vec<ReducerEvent>,
    at: usize,
    standing: &Standing,
    conflicts: &Vec<bool>,
    complaints: &mut SortedSet<ReducerDiagnostic>,
)
    requires
        at < events@.len(),
        standing.describe(events.deep_view()),
        flags_are(
            conflicts@,
            events.deep_view(),
            |event: ReducerEventView| valid_conflict(events.deep_view().to_multiset(), event),
        ),
    ensures
        final(complaints).deep_view() == old(complaints).deep_view().union(
            conflict_complaints(events.deep_view().to_multiset(), events.deep_view()[at as int]),
        ),
{
    let ghost list = events.deep_view();
    let ghost start = complaints.deep_view();
    assert(list[at as int] == events@[at as int].deep_view());
    assert(standing.facts.sound@[at as int] == sound(list.to_multiset(), list[at as int]));
    if let ReducerPayload::SemanticConflictOpened { space_id: _, conflict } = &events[at].payload {
        if standing.facts.sound[at] && !conflicts[at] {
            let text = conflict.conflict_id.to_string();
            let message = joined3(
                "semantic conflict ",
                text.as_str(),
                " must reference valid same-space publish nodes with one overlapping topic",
            );
            add_event_diagnostic(
                complaints,
                ReducerDiagnosticCode::InvalidSemanticConflictReference,
                text.as_str(),
                events[at].event_id,
                message,
            );
        }
    }
    assert(complaints.deep_view() =~= start.union(conflict_complaints(list.to_multiset(), list[at as int])));
}

/// The Space, the conflict and the resolution that an event adds.
pub open spec fn resolution_of(event: ReducerEventView) -> Option<(SpaceId, ConflictId, ConflictResolutionView)> {
    match event.payload {
        ReducerPayloadView::SemanticConflictResolutionAdded { space_id, conflict_id, resolution } => Some(
            (space_id, conflict_id, resolution),
        ),
        _ => None,
    }
}

/// Whether an event opens the valid conflict of a Space that is meant.
pub open spec fn opens(
    events: Multiset<ReducerEventView>,
    event: ReducerEventView,
    space_id: SpaceId,
    conflict_id: ConflictId,
) -> bool {
    valid_conflict(events, event)
        && conflict_of(event)->Some_0.0 == space_id
        && conflict_of(event)->Some_0.1.conflict_id
        == conflict_id
}

/// Whether a publication belongs to a participant of a conflict.
pub open spec fn publishes_for(
    events: Multiset<ReducerEventView>,
    event: ReducerEventView,
    space_id: SpaceId,
    participants: Seq<ConflictParticipantView>,
    publication_id: PublicationId,
) -> bool {
    &&& valid_publication(events, event)
    &&& publication_of(event)->Some_0.0 == space_id
    &&& participant_contexts(participants).contains(publication_of(event)->Some_0.1)
    &&& publication_of(event)->Some_0.2.publication_id == publication_id
}

/// Whether a participant of a conflict has a publication.
pub open spec fn is_participant_publication(
    events: Multiset<ReducerEventView>,
    space_id: SpaceId,
    participants: Seq<ConflictParticipantView>,
    publication_id: PublicationId,
) -> bool {
    exists|event: ReducerEventView| #[trigger]
        events.contains(event) && publishes_for(events, event, space_id, participants, publication_id)
}

/// Whether a resolution covers every participant of a conflict with live revisions, and relates
/// to publications of participants only.
pub open spec fn resolution_refers(
    events: Multiset<ReducerEventView>,
    space_id: SpaceId,
    conflict: SemanticConflictView,
    resolution: ConflictResolutionView,
) -> bool {
    &&& result_contexts(resolution.results).to_set() == participant_contexts(conflict.participants).to_set()
    &&& results_stand(events, space_id, resolution.results)
    &&& publications_relate(events, space_id, conflict.participants, resolution.related_publication_ids)
}

/// Whether all results of a resolution are live revisions.
pub open spec fn results_stand(
    events: Multiset<ReducerEventView>,
    space_id: SpaceId,
    results: Seq<ConflictResolutionResultView>,
) -> bool {
    forall|i: int| 0 <= i < results.len() ==> result_stands(events, space_id, #[trigger] results[i])
}

/// Whether all of some publications belong to participants of a conflict.
pub open spec fn publications_relate(
    events: Multiset<ReducerEventView>,
    space_id: SpaceId,
    participants: Seq<ConflictParticipantView>,
    related: Seq<PublicationId>,
) -> bool {
    forall|i: int|
        0 <= i < related.len() ==> is_participant_publication(events, space_id, participants, #[trigger] related[i])
}

/// Whether a result of a resolution is a live revision.
pub open spec fn result_stands(
    events: Multiset<ReducerEventView>,
    space_id: SpaceId,
    result: ConflictResolutionResultView,
) -> bool {
    live_revision(events, space_id, result.context_id, result.revision_id)
}

/// Whether a resolution resolves the valid conflict that an event opens.
pub open spec fn resolves(
    events: Multiset<ReducerEventView>,
    opening: ReducerEventView,
    event: ReducerEventView,
) -> bool {
    match resolution_of(event) {
        Some((space_id, conflict_id, resolution)) => opens(events, opening, space_id, conflict_id)
            && resolution_refers(events, space_id, conflict_of(opening)->Some_0.1, resolution),
        None => false,
    }
}

/// The resolution that an event contributes to the lineage of its conflict.
pub open spec fn resolution_node(
    events: Multiset<ReducerEventView>,
    event: ReducerEventView,
) -> Option<DagNodeView> {
    match resolution_of(event) {
        Some((space_id, conflict_id, resolution)) => {
            if sound(events, event) && exists|opening: ReducerEventView| #[trigger]
                events.contains(opening) && resolves(events, opening, event) {
                Some(
                    DagNodeView {
                        id: resolution.resolution_id.number(),
                        group: conflict_id.number(),
                        event_id: event.event_id,
                        parents: id_numbers(resolution.previous_resolution_ids),
                    },
                )
            } else {
                None
            }
        },
        None => None,
    }
}

/// The resolutions of valid conflicts.
pub open spec fn resolution_nodes(events: Multiset<ReducerEventView>) -> Set<DagNodeView> {
    nodes_among(events, |event: ReducerEventView| resolution_node(events, event))
}

/// Whether an event adds a valid resolution.
pub open spec fn valid_resolution(events: Multiset<ReducerEventView>, event: ReducerEventView) -> bool {
    is_valid_member(resolution_nodes(events), resolution_node(events, event))
}

/// Whether an event adds a resolution that no valid resolution succeeds.
pub open spec fn resolution_head(events: Multiset<ReducerEventView>, event: ReducerEventView) -> bool {
    is_head_member(resolution_nodes(events), resolution_node(events, event))
}

/// What the references of resolutions contribute to the diagnostics.
pub open spec fn resolution_complaints(
    events: Multiset<ReducerEventView>,
    event: ReducerEventView,
) -> Set<ReducerDiagnosticView> {
    match resolution_of(event) {
        Some((space_id, conflict_id, resolution)) => {
            let text = resolution.resolution_id.text();
            if !sound(events, event) {
                Set::empty()
            } else if !(exists|opening: ReducerEventView| #[trigger]
                events.contains(opening) && opens(events, opening, space_id, conflict_id)) {
                Set::empty().insert(
                    diagnostic(
                        ReducerDiagnosticCode::InvalidResolutionReference,
                        text,
                        one_event(event.event_id),
                        "resolution "@ + text
                            + " references a missing, quarantined, or cross-space conflict"@,
                    ),
                )
            } else if !(exists|opening: ReducerEventView| #[trigger]
                events.contains(opening) && resolves(events, opening, event)) {
                Set::empty().insert(
                    diagnostic(
                        ReducerDiagnosticCode::InvalidResolutionReference,
                        text,
                        one_event(event.event_id),
                        "resolution "@ + text
                            + " must cover every participant with valid same-conflict revisions and publications"@,
                    ),
                )
            } else {
                Set::empty()
            }
        },
        None => Set::empty(),
    }
}

/// What resolution lineages contribute to the diagnostics.
pub open spec fn resolution_lineage_complaints(
    events: Multiset<ReducerEventView>,
    event: ReducerEventView,
) -> Set<ReducerDiagnosticView> {
    lineage_complaint(Lineage::Resolution, resolution_nodes(events), resolution_node(events, event))
}

/// Whether a participant of a conflict has a publication.
fn has_participant_publication(
    events: &Vec<ReducerEvent>,
    standing: &Standing,
    space_id: SpaceId,
    participants: &Vec<ConflictParticipant>,
    publication_id: PublicationId,
) -> (found: bool)
    requires
        standing.describe(events.deep_view()),
    ensures
        found == exists|event: ReducerEventView| #[trigger] events.deep_view().to_multiset().contains(event)
            && publishes_for(
                events.deep_view().to_multiset(),
                event,
                space_id,
                participants.deep_view(),
                publication_id,
            ),
{
    let ghost list = events.deep_view();
    let ghost members = list.to_multiset();
    let mut index: usize = 0;
    while index < events.len()
        invariant
            index <= events@.len(),
            list == events.deep_view(),
            members == list.to_multiset(),
            standing.describe(events.deep_view()),
            forall|i: int| 0 <= i < index ==> !(
                publishes_for(members, #[trigger] list[i], space_id, participants.deep_view(), publication_id)
            ),
        decreases events@.len() - index,
    {
        if has_participant_publication_at(events, index, standing, space_id, participants, publication_id) {
            proof {
                is_member(list, index as int);
            }
            return true;
        }
        index = index + 1;
    }
    proof {
        if exists|event: ReducerEventView| #[trigger] members.contains(event)
            && publishes_for(members, event, space_id, participants.deep_view(), publication_id) {
            let event = choose|event: ReducerEventView| #[trigger] members.contains(event)
                && publishes_for(members, event, space_id, participants.deep_view(), publication_id);
            let at = place_in(list, event);
        }
    }
    false
}

fn has_participant_publication_at(
    events: &Vec<ReducerEvent>,
    at: usize,
    standing: &Standing,
    space_id: SpaceId,
    participants: &Vec<ConflictParticipant>,
    publication_id: PublicationId,
) -> (found: bool)
    requires
        at < events@.len(),
        standing.describe(events.deep_view()),
    ensures
        found == publishes_for(
            events.deep_view().to_multiset(),
            events.deep_view()[at as int],
            space_id,
            participants.deep_view(),
            publication_id,
        ),
{
    let ghost list = events.deep_view();
    assert(list[at as int] == events@[at as int].deep_view());
    assert(standing.publications@[at as int] == valid_publication(list.to_multiset(), list[at as int]));
    match &events[at].payload {
        ReducerPayload::ContextPublicationChanged { space_id: space, context_id, publication } => {
            if !standing.publications[at] || *space != space_id || publication.publication_id != publication_id {
                return false;
            }
            let contexts = contexts_of_participants(participants);
            crate::checks::is_among(&contexts, context_id)
        },
        _ => false,
    }
}

/// Whether two lists have the same items.
pub(crate) fn same_items<T: Value>(left: &Vec<T>, right: &Vec<T>) -> (same: bool)
    ensures
        same == (left.deep_view().to_set() == right.deep_view().to_set()),
{
    let covered = all_items_among(left, right);
    let covers = all_items_among(right, left);
    proof {
        let a = left.deep_view();
        let b = right.deep_view();
        if covered && covers {
            assert(a.to_set() =~= b.to_set()) by {
                assert forall|item: T::V| a.to_set().contains(item) == b.to_set().contains(item) by {
                    if a.contains(item) {
                        let i = choose|i: int| 0 <= i < a.len() && a[i] == item;
                        assert(b.contains(a[i]));
                    }
                    if b.contains(item) {
                        let i = choose|i: int| 0 <= i < b.len() && b[i] == item;
                        assert(a.contains(b[i]));
                    }
                }
            }
        }
        if a.to_set() == b.to_set() {
            assert forall|i: int| 0 <= i < a.len() implies b.contains(#[trigger] a[i]) by {
                assert(a.to_set().contains(a[i]));
                assert(b.to_set().contains(a[i]));
            }
            assert forall|i: int| 0 <= i < b.len() implies a.contains(#[trigger] b[i]) by {
                assert(b.to_set().contains(b[i]));
                assert(a.to_set().contains(b[i]));
            }
        }
    }
    covered && covers
}

fn all_items_among<T: Value>(items: &Vec<T>, others: &Vec<T>) -> (all: bool)
    ensures
        all == forall|i: int|
            0 <= i < items.deep_view().len() ==> others.deep_view().contains(#[trigger] items.deep_view()[i]),
{
    let mut index: usize = 0;
    while index < items.len()
        invariant
            index <= items@.len(),
            forall|i: int| 0 <= i < index ==> others.deep_view().contains(#[trigger] items.deep_view()[i]),
        decreases items@.len() - index,
    {
        assert(items.deep_view()[index as int] == items@[index as int].deep_view());
        if !crate::checks::is_among(others, &items[index]) {
            return false;
        }
        index = index + 1;
    }
    assert(items.deep_view().len() == items@.len());
    true
}

fn do_results_stand(
    events: &Vec<ReducerEvent>,
    standing: &Standing,
    space_id: SpaceId,
    results: &Vec<ConflictResolutionResult>,
) -> (all: bool)
    requires
        standing.describe(events.deep_view()),
    ensures
        all == results_stand(events.deep_view().to_multiset(), space_id, results.deep_view()),
{
    let ghost members = events.deep_view().to_multiset();
    let ghost model = results.deep_view();
    let mut index: usize = 0;
    while index < results.len()
        invariant
            index <= results@.len(),
            members == events.deep_view().to_multiset(),
            model == results.deep_view(),
            standing.describe(events.deep_view()),
            forall|i: int| 0 <= i < index ==> result_stands(members, space_id, #[trigger] model[i]),
        decreases results@.len() - index,
    {
        assert(model[index as int] == results@[index as int].deep_view());
        let stands = has_live_revision(
            events,
            &standing.live,
            space_id,
            results[index].context_id,
            results[index].revision_id,
        );
        assert(stands == result_stands(members, space_id, model[index as int]));
        if !stands {
            return false;
        }
        index = index + 1;
    }
    assert(model.len() == results@.len());
    true
}

fn do_publications_relate(
    events: &Vec<ReducerEvent>,
    standing: &Standing,
    space_id: SpaceId,
    participants: &Vec<ConflictParticipant>,
    related: &Vec<PublicationId>,
) -> (all: bool)
    requires
        standing.describe(events.deep_view()),
    ensures
        all == publications_relate(
            events.deep_view().to_multiset(),
            space_id,
            participants.deep_view(),
            related.deep_view(),
        ),
{
    let ghost members = events.deep_view().to_multiset();
    let ghost model = related.deep_view();
    let ghost parts = participants.deep_view();
    let mut index: usize = 0;
    while index < related.len()
        invariant
            index <= related@.len(),
            members == events.deep_view().to_multiset(),
            model == related.deep_view(),
            parts == participants.deep_view(),
            standing.describe(events.deep_view()),
            forall|i: int| 0 <= i < index ==> is_participant_publication(
                members,
                space_id,
                parts,
                #[trigger] model[i],
            ),
        decreases related@.len() - index,
    {
        assert(model[index as int] == related@[index as int]);
        let belongs = has_participant_publication(events, standing, space_id, participants, related[index]);
        assert(belongs == is_participant_publication(members, space_id, parts, model[index as int]));
        if !belongs {
            return false;
        }
        index = index + 1;
    }
    assert(model.len() == related@.len());
    true
}

/// Whether a resolution covers a conflict.
fn covers_conflict(
    events: &Vec<ReducerEvent>,
    standing: &Standing,
    space_id: SpaceId,
    conflict: &SemanticConflict,
    resolution: &ConflictResolution,
) -> (covers: bool)
    requires
        standing.describe(events.deep_view()),
    ensures
        covers == resolution_refers(
            events.deep_view().to_multiset(),
            space_id,
            conflict.deep_view(),
            resolution.deep_view(),
        ),
{
    let results = contexts_of(&resolution.results);
    let parts = contexts_of_participants(&conflict.participants);
    let same = same_items(&results, &parts);
    let stand = do_results_stand(events, standing, space_id, &resolution.results);
    let relate = do_publications_relate(
        events,
        standing,
        space_id,
        &conflict.participants,
        &resolution.related_publication_ids,
    );
    same && stand && relate
}

/// Whether a valid conflict of a Space is open to resolutions.
fn has_opening(
    events: &Vec<ReducerEvent>,
    conflicts: &Vec<bool>,
    space_id: SpaceId,
    conflict_id: ConflictId,
) -> (found: bool)
    requires
        flags_are(
            conflicts@,
            events.deep_view(),
            |event: ReducerEventView| valid_conflict(events.deep_view().to_multiset(), event),
        ),
    ensures
        found == exists|event: ReducerEventView| #[trigger] events.deep_view().to_multiset().contains(event)
            && opens(events.deep_view().to_multiset(), event, space_id, conflict_id),
{
    let ghost list = events.deep_view();
    let ghost members = list.to_multiset();
    let mut index: usize = 0;
    while index < events.len()
        invariant
            index <= events@.len(),
            list == events.deep_view(),
            members == list.to_multiset(),
            flags_are(
                conflicts@,
                events.deep_view(),
                |event: ReducerEventView| valid_conflict(events.deep_view().to_multiset(), event),
            ),
            forall|i: int| 0 <= i < index ==> !(opens(members, #[trigger] list[i], space_id, conflict_id)),
        decreases events@.len() - index,
    {
        if has_opening_at(events, index, conflicts, space_id, conflict_id) {
            proof {
                is_member(list, index as int);
            }
            return true;
        }
        index = index + 1;
    }
    proof {
        if exists|event: ReducerEventView| #[trigger] members.contains(event)
            && opens(members, event, space_id, conflict_id) {
            let event = choose|event: ReducerEventView| #[trigger] members.contains(event)
                && opens(members, event, space_id, conflict_id);
            let at = place_in(list, event);
        }
    }
    false
}

fn has_opening_at(
    events: &Vec<ReducerEvent>,
    at: usize,
    conflicts: &Vec<bool>,
    space_id: SpaceId,
    conflict_id: ConflictId,
) -> (found: bool)
    requires
        at < events@.len(),
        flags_are(
            conflicts@,
            events.deep_view(),
            |event: ReducerEventView| valid_conflict(events.deep_view().to_multiset(), event),
        ),
    ensures
        found == opens(events.deep_view().to_multiset(), events.deep_view()[at as int], space_id, conflict_id),
{
    let ghost list = events.deep_view();
    assert(list[at as int] == events@[at as int].deep_view());
    assert(conflicts@[at as int] == valid_conflict(list.to_multiset(), list[at as int]));
    match &events[at].payload {
        ReducerPayload::SemanticConflictOpened { space_id: space, conflict } => {
            conflicts[at] && *space == space_id && conflict.conflict_id == conflict_id
        },
        _ => false,
    }
}

/// Whether an event adds a resolution that covers a valid conflict.
fn is_resolving(events: &Vec<ReducerEvent>, standing: &Standing, conflicts: &Vec<bool>, at: usize) -> (found: bool)
    requires
        at < events@.len(),
        standing.describe(events.deep_view()),
        flags_are(
            conflicts@,
            events.deep_view(),
            |event: ReducerEventView| valid_conflict(events.deep_view().to_multiset(), event),
        ),
    ensures
        found == exists|event: ReducerEventView| #[trigger] events.deep_view().to_multiset().contains(event)
            && resolves(events.deep_view().to_multiset(), event, events.deep_view()[at as int]),
{
    let ghost list = events.deep_view();
    let ghost members = list.to_multiset();
    let mut index: usize = 0;
    while index < events.len()
        invariant
            index <= events@.len(),
            list == events.deep_view(),
            members == list.to_multiset(),
            at < events@.len(),
            standing.describe(events.deep_view()),
            flags_are(
                conflicts@,
                events.deep_view(),
                |event: ReducerEventView| valid_conflict(events.deep_view().to_multiset(), event),
            ),
            forall|i: int| 0 <= i < index ==> !(resolves(members, #[trigger] list[i], events.deep_view()[at as int])),
        decreases events@.len() - index,
    {
        if is_resolving_at(events, index, standing, conflicts, at) {
            proof {
                is_member(list, index as int);
            }
            return true;
        }
        index = index + 1;
    }
    proof {
        if exists|event: ReducerEventView| #[trigger] members.contains(event)
            && resolves(members, event, events.deep_view()[at as int]) {
            let event = choose|event: ReducerEventView| #[trigger] members.contains(event)
                && resolves(members, event, events.deep_view()[at as int]);
            let at = place_in(list, event);
        }
    }
    false
}

fn is_resolving_at(
    events: &Vec<ReducerEvent>,
    opening: usize,
    standing: &Standing,
    conflicts: &Vec<bool>,
    at: usize,
) -> (found: bool)
    requires
        opening < events@.len(),
        at < events@.len(),
        standing.describe(events.deep_view()),
        flags_are(
            conflicts@,
            events.deep_view(),
            |event: ReducerEventView| valid_conflict(events.deep_view().to_multiset(), event),
        ),
    ensures
        found == resolves(
            events.deep_view().to_multiset(),
            events.deep_view()[opening as int],
            events.deep_view()[at as int],
        ),
{
    let ghost list = events.deep_view();
    assert(list[at as int] == events@[at as int].deep_view());
    assert(list[opening as int] == events@[opening as int].deep_view());
    match &events[at].payload {
        ReducerPayload::SemanticConflictResolutionAdded { space_id, conflict_id, resolution } => {
            if !has_opening_at(events, opening, conflicts, *space_id, *conflict_id) {
                return false;
            }
            match &events[opening].payload {
                ReducerPayload::SemanticConflictOpened { space_id: _, conflict } => covers_conflict(
                    events,
                    standing,
                    *space_id,
                    conflict,
                    resolution,
                ),
                _ => false,
            }
        },
        _ => false,
    }
}

/// Lists the resolutions of valid conflicts.
fn list_resolutions(
    events: &Vec<ReducerEvent>,
    standing: &Standing,
    conflicts: &Vec<bool>,
) -> (nodes: Vec<Option<DagNode>>)
    requires
        standing.describe(events.deep_view()),
        flags_are(
            conflicts@,
            events.deep_view(),
            |event: ReducerEventView| valid_conflict(events.deep_view().to_multiset(), event),
        ),
    ensures
        nodes_are(
            nodes.deep_view(),
            events.deep_view(),
            |event: ReducerEventView| resolution_node(events.deep_view().to_multiset(), event),
        ),
{
    let ghost list = events.deep_view();
    let ghost members = list.to_multiset();
    let mut nodes: Vec<Option<DagNode>> = Vec::new();
    let mut index: usize = 0;
    while index < events.len()
        invariant
            index <= events@.len(),
            list == events.deep_view(),
            members == list.to_multiset(),
            standing.describe(events.deep_view()),
            flags_are(
                conflicts@,
                events.deep_view(),
                |event: ReducerEventView| valid_conflict(events.deep_view().to_multiset(), event),
            ),
            nodes@.len() == index,
            forall|i: int| 0 <= i < index ==> #[trigger] nodes.deep_view()[i] == resolution_node(members, list[i]),
        decreases events@.len() - index,
    {
        let node = list_resolutions_at(events, index, standing, conflicts);
        let ghost before = nodes.deep_view();
        push_value(&mut nodes, node);
        assert forall|i: int| 0 <= i < index + 1 implies #[trigger] nodes.deep_view()[i] == resolution_node(members, list[i]) by {
            if i < index {
                assert(before[i] == resolution_node(members, list[i]));
            }
        }
        index = index + 1;
    }
    nodes
}

fn list_resolutions_at(
    events: &Vec<ReducerEvent>,
    at: usize,
    standing: &Standing,
    conflicts: &Vec<bool>,
) -> (node: Option<DagNode>)
    requires
        at < events@.len(),
        standing.describe(events.deep_view()),
        flags_are(
            conflicts@,
            events.deep_view(),
            |event: ReducerEventView| valid_conflict(events.deep_view().to_multiset(), event),
        ),
    ensures
        node.deep_view() == resolution_node(events.deep_view().to_multiset(), events.deep_view()[at as int]),
{
    let ghost list = events.deep_view();
    assert(list[at as int] == events@[at as int].deep_view());
    assert(standing.facts.sound@[at as int] == sound(list.to_multiset(), list[at as int]));
    match &events[at].payload {
        ReducerPayload::SemanticConflictResolutionAdded { space_id: _, conflict_id, resolution } => {
            if standing.facts.sound[at] && is_resolving(events, standing, conflicts, at) {
                Some(
                    DagNode {
                        id: resolution.resolution_id.get(),
                        group: conflict_id.get(),
                        event_id: events[at].event_id,
                        parents: numbers_of(&resolution.previous_resolution_ids),
                    },
                )
            } else {
                None
            }
        },
        _ => None,
    }
}

/// Adds what the references of resolutions contribute to the diagnostics.
fn complain_of_resolutions(
    events: &Vec<ReducerEvent>,
    standing: &Standing,
    conflicts: &Vec<bool>,
    complaints: &mut SortedSet<ReducerDiagnostic>,
)
    requires
        standing.describe(events.deep_view()),
        flags_are(
            conflicts@,
            events.deep_view(),
            |event: ReducerEventView| valid_conflict(events.deep_view().to_multiset(), event),
        ),
    ensures
        final(complaints).deep_view() == old(complaints).deep_view().union(
            gathered(
                events.deep_view().to_multiset(),
                |event: ReducerEventView| resolution_complaints(events.deep_view().to_multiset(), event),
            ),
        ),
{
    let ghost list = events.deep_view();
    let ghost members = list.to_multiset();
    let ghost share = |event: ReducerEventView| resolution_complaints(members, event);
    let ghost start = complaints.deep_view();
    proof {
        gathered_none(list, share);
        assert(start =~= start.union(Set::empty()));
    }
    let mut index: usize = 0;
    while index < events.len()
        invariant
            index <= events@.len(),
            list == events.deep_view(),
            members == list.to_multiset(),
            share == (|event: ReducerEventView| resolution_complaints(members, event)),
            standing.describe(events.deep_view()),
            flags_are(
                conflicts@,
                events.deep_view(),
                |event: ReducerEventView| valid_conflict(events.deep_view().to_multiset(), event),
            ),
            complaints.deep_view() == start.union(gathered_first(list, share, index as int)),
        decreases events@.len() - index,
    {
        complain_of_resolutions_at(events, index, standing, conflicts, complaints);
        proof {
            gathered_next(list, share, index as int);
            assert(complaints.deep_view() =~= start.union(gathered_first(list, share, index + 1)));
        }
        index = index + 1;
    }
    proof {
        gathered_whole(list, share);
    }
}

fn complain_of_resolutions_at(
    events: &Vec<ReducerEvent>,
    at: usize,
    standing: &Standing,
    conflicts: &Vec<bool>,
    complaints: &mut SortedSet<ReducerDiagnostic>,
)
    requires
        at < events@.len(),
        standing.describe(events.deep_view()),
        flags_are(
            conflicts@,
            events.deep_view(),
            |event: ReducerEventView| valid_conflict(events.deep_view().to_multiset(), event),
        ),
    ensures
        final(complaints).deep_view() == old(complaints).deep_view().union(
            resolution_complaints(events.deep_view().to_multiset(), events.deep_view()[at as int]),
        ),
{
    let ghost list = events.deep_view();
    let ghost start = complaints.deep_view();
    assert(list[at as int] == events@[at as int].deep_view());
    assert(standing.facts.sound@[at as int] == sound(list.to_multiset(), list[at as int]));
    if let ReducerPayload::SemanticConflictResolutionAdded { space_id, conflict_id, resolution } =
        &events[at].payload {
        if standing.facts.sound[at] {
            let text = resolution.resolution_id.to_string();
            if !has_opening(events, conflicts, *space_id, *conflict_id) {
                let message = joined3(
                    "resolution ",
                    text.as_str(),
                    " references a missing, quarantined, or cross-space conflict",
                );
                add_event_diagnostic(
                    complaints,
                    ReducerDiagnosticCode::InvalidResolutionReference,
                    text.as_str(),
                    events[at].event_id,
                    message,
                );
            } else if !is_resolving(events, standing, conflicts, at) {
                let message = joined3(
                    "resolution ",
                    text.as_str(),
                    " must cover every participant with valid same-conflict revisions and publications",
                );
                add_event_diagnostic(
                    complaints,
                    ReducerDiagnosticCode::InvalidResolutionReference,
                    text.as_str(),
                    events[at].event_id,
                    message,
                );
            }
        }
    }
    assert(complaints.deep_view() =~= start.union(resolution_complaints(list.to_multiset(), list[at as int])));
}

/// Validates the resolutions.
pub fn reduce_resolutions(
    events: &Vec<ReducerEvent>,
    standing: &Standing,
    conflicts: &Vec<bool>,
    complaints: &mut SortedSet<ReducerDiagnostic>,
) -> (line: Line)
    requires
        standing.describe(events.deep_view()),
        flags_are(
            conflicts@,
            events.deep_view(),
            |event: ReducerEventView| valid_conflict(events.deep_view().to_multiset(), event),
        ),
    ensures
        flags_are(
            line.valid@,
            events.deep_view(),
            |event: ReducerEventView| valid_resolution(events.deep_view().to_multiset(), event),
        ),
        flags_are(
            line.heads@,
            events.deep_view(),
            |event: ReducerEventView| resolution_head(events.deep_view().to_multiset(), event),
        ),
        final(complaints).deep_view() == old(complaints).deep_view().union(
            gathered(
                events.deep_view().to_multiset(),
                |event: ReducerEventView| resolution_complaints(events.deep_view().to_multiset(), event),
            ),
        ).union(
            gathered(
                events.deep_view().to_multiset(),
                |event: ReducerEventView| resolution_lineage_complaints(events.deep_view().to_multiset(), event),
            ),
        ),
{
    let ghost list = events.deep_view();
    let ghost members = list.to_multiset();
    complain_of_resolutions(events, standing, conflicts, complaints);
    let nodes = list_resolutions(events, standing, conflicts);
    let line = validate_dag(
        Ghost(list),
        Ghost(|event: ReducerEventView| resolution_node(members, event)),
        &nodes,
        Lineage::Resolution,
        complaints,
    );
    proof {
        gathered_same(
            members,
            |event: ReducerEventView|
                lineage_complaint(
                    Lineage::Resolution,
                    nodes_among(members, |event: ReducerEventView| resolution_node(members, event)),
                    resolution_node(members, event),
                ),
            |event: ReducerEventView| resolution_lineage_complaints(members, event),
        );
        assert forall|i: int| 0 <= i < list.len() implies #[trigger] line.valid@[i] == valid_resolution(
            members,
            list[i],
        ) by {}
        assert forall|i: int| 0 <= i < list.len() implies #[trigger] line.heads@[i] == resolution_head(
            members,
            list[i],
        ) by {}
    }
    line
}

} // verus!
