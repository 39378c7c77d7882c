//! Which Spaces exist, and which Space owns a Context.

use vstd::multiset::Multiset;
use vstd::prelude::*;

use crate::collections::SortedSet;
use crate::definitions::{
    add_diagnostic, add_event_diagnostic, definition, diagnostic, duplicated, one_event, sound, Definition,
    DefinitionKind, Definitions,
};
use crate::events::{
    ReducerDiagnostic, ReducerDiagnosticCode, ReducerDiagnosticView, ReducerEvent, ReducerEventView,
    ReducerPayload, ReducerPayloadView,
};
use crate::gather::{
    flags_are, gathered, gathered_first, gathered_next, gathered_none, gathered_whole, is_member, place_in,
};
use crate::ids::{ContextId, EventId, Identifier, SpaceId};
use crate::model::{contexts_of, contexts_of_participants, participant_contexts, result_contexts};
use crate::text::{joined2, joined3};
use crate::value::Value;

verus! {

/// The Space that an event validly creates.
pub open spec fn founded(events: Multiset<ReducerEventView>, event: ReducerEventView) -> Set<SpaceId> {
    match event.payload {
        ReducerPayloadView::SpaceCreated { space_id, intent_revision: _ } => {
            if sound(events, event) && !duplicated(events, definition(DefinitionKind::SpaceCreation, space_id)) {
                Set::empty().insert(space_id)
            } else {
                Set::empty()
            }
        },
        _ => Set::empty(),
    }
}

/// The valid Spaces: created once, by a sound event.
pub open spec fn valid_spaces(events: Multiset<ReducerEventView>) -> Set<SpaceId> {
    gathered(events, |event: ReducerEventView| founded(events, event))
}

/// Adds the valid Spaces.
pub fn add_valid_spaces(
    events: &Vec<ReducerEvent>,
    defined: &Definitions,
    sound_events: &Vec<bool>,
    spaces: &mut SortedSet<SpaceId>,
)
    requires
        defined.describe(events.deep_view()),
        flags_are(
            sound_events@,
            events.deep_view(),
            |event: ReducerEventView| sound(events.deep_view().to_multiset(), event),
        ),
    ensures
        final(spaces).deep_view() == old(spaces).deep_view().union(
            gathered(
                events.deep_view().to_multiset(),
                |event: ReducerEventView| founded(events.deep_view().to_multiset(), event),
            ),
        ),
{
    let ghost list = events.deep_view();
    let ghost members = list.to_multiset();
    let ghost share = |event: ReducerEventView| founded(members, event);
    let ghost start = spaces.deep_view();
    proof {
        gathered_none(list, share);
        assert(start =~= start.union(Set::empty()));
    }
    let mut index: usize = 0;
    while index < events.len()
        invariant
            index <= events@.len(),
            list == events.deep_view(),
            members == list.to_multiset(),
            share == (|event: ReducerEventView| founded(members, event)),
            defined.describe(events.deep_view()),
            flags_are(
                sound_events@,
                events.deep_view(),
                |event: ReducerEventView| sound(events.deep_view().to_multiset(), event),
            ),
            spaces.deep_view() == start.union(gathered_first(list, share, index as int)),
        decreases events@.len() - index,
    {
        add_valid_spaces_at(events, index, defined, sound_events, spaces);
        proof {
            gathered_next(list, share, index as int);
            assert(spaces.deep_view() =~= start.union(gathered_first(list, share, index + 1)));
        }
        index = index + 1;
    }
    proof {
        gathered_whole(list, share);
    }
}

fn add_valid_spaces_at(
    events: &Vec<ReducerEvent>,
    at: usize,
    defined: &Definitions,
    sound_events: &Vec<bool>,
    spaces: &mut SortedSet<SpaceId>,
)
    requires
        at < events@.len(),
        defined.describe(events.deep_view()),
        flags_are(
            sound_events@,
            events.deep_view(),
            |event: ReducerEventView| sound(events.deep_view().to_multiset(), event),
        ),
    ensures
        final(spaces).deep_view() == old(spaces).deep_view().union(
            founded(events.deep_view().to_multiset(), events.deep_view()[at as int]),
        ),
{
    let ghost start = spaces.deep_view();
    let ghost list = events.deep_view();
    assert(list[at as int] == events@[at as int].deep_view());
    if let ReducerPayload::SpaceCreated { space_id, intent_revision: _ } = &events[at].payload {
        if sound_events[at] {
            let creation = Definition { kind: DefinitionKind::SpaceCreation, number: space_id.get() };
            if !defined.is_duplicated(Ghost(list), creation) {
                spaces.insert(*space_id);
            }
        }
    }
    assert(spaces.deep_view() =~= start.union(founded(list.to_multiset(), list[at as int])));
}

/// The Contexts that an event claims for its Space.
pub open spec fn claimed(event: ReducerEventView) -> Seq<ContextId> {
    match event.payload {
        ReducerPayloadView::ContextRevisionAdded { space_id: _, context_id, revision: _ } => seq![context_id],
        ReducerPayloadView::ContextReviewed { space_id: _, context_id, review: _ } => seq![context_id],
        ReducerPayloadView::ContextPublicationChanged { space_id: _, context_id, publication: _ } => seq![context_id],
        ReducerPayloadView::SemanticConflictOpened { space_id: _, conflict } => participant_contexts(
            conflict.participants,
        ),
        ReducerPayloadView::SemanticConflictResolutionAdded { space_id: _, conflict_id: _, resolution } =>
            result_contexts(resolution.results),
        _ => Seq::empty(),
    }
}

/// The Space for which an event claims Contexts.
pub open spec fn claimant(event: ReducerEventView) -> Option<SpaceId> {
    match event.payload {
        ReducerPayloadView::ContextRevisionAdded { space_id, context_id: _, revision: _ } => Some(space_id),
        ReducerPayloadView::ContextReviewed { space_id, context_id: _, review: _ } => Some(space_id),
        ReducerPayloadView::ContextPublicationChanged { space_id, context_id: _, publication: _ } => Some(space_id),
        ReducerPayloadView::SemanticConflictOpened { space_id, conflict: _ } => Some(space_id),
        ReducerPayloadView::SemanticConflictResolutionAdded { space_id, conflict_id: _, resolution: _ } => Some(
            space_id,
        ),
        _ => None,
    }
}

/// Whether events claim a Context for different Spaces.
pub open spec fn ambiguous(events: Multiset<ReducerEventView>, context: ContextId) -> bool {
    exists|a: ReducerEventView, b: ReducerEventView| #[trigger]
        events.contains(a) && #[trigger] events.contains(b) && claimed(a).contains(context) && claimed(b).contains(
            context,
        ) && claimant(a) != claimant(b)
}

/// The ambiguous Contexts that an event claims.
pub open spec fn disputed(events: Multiset<ReducerEventView>, event: ReducerEventView) -> Set<ContextId> {
    Set::new(|context: ContextId| claimed(event).contains(context) && ambiguous(events, context))
}

/// A Context is disputed exactly where it is ambiguous.
pub proof fn disputed_are_ambiguous(events: Multiset<ReducerEventView>, context: ContextId)
    ensures
        gathered(events, |event: ReducerEventView| disputed(events, event)).contains(context) == ambiguous(
            events,
            context,
        ),
{
    if ambiguous(events, context) {
        let (a, b) = choose|a: ReducerEventView, b: ReducerEventView| #[trigger]
            events.contains(a) && #[trigger] events.contains(b) && claimed(a).contains(context) && claimed(b).contains(
                context,
            ) && claimant(a) != claimant(b);
        assert(events.contains(a) && disputed(events, a).contains(context));
    }
}

/// The events that claim a Context.
pub open spec fn claiming(events: Multiset<ReducerEventView>, context: ContextId) -> Set<EventId> {
    gathered(events, |event: ReducerEventView| claiming_share(event, context))
}

/// An event, where it claims a Context.
pub open spec fn claiming_share(event: ReducerEventView, context: ContextId) -> Set<EventId> {
    if claimed(event).contains(context) {
        one_event(event.event_id)
    } else {
        Set::empty()
    }
}

/// The diagnostic of an ambiguous Context.
pub open spec fn ambiguity_diagnostic(
    events: Multiset<ReducerEventView>,
    context: ContextId,
) -> ReducerDiagnosticView {
    diagnostic(
        ReducerDiagnosticCode::AmbiguousContextOwner,
        context.text(),
        claiming(events, context),
        "context "@ + context.text() + " is referenced from multiple spaces"@,
    )
}

/// What the ambiguous Contexts that an event claims contribute to the diagnostics.
pub open spec fn ambiguity_complaints(
    events: Multiset<ReducerEventView>,
    event: ReducerEventView,
) -> Set<ReducerDiagnosticView> {
    Set::new(
        |complaint: ReducerDiagnosticView| exists|i: int|
            0 <= i < claimed(event).len()
                && claim_complaint(events, #[trigger] claimed(event)[i]).contains(complaint),
    )
}

/// What one claimed Context contributes to the diagnostics.
pub open spec fn claim_complaint(
    events: Multiset<ReducerEventView>,
    context: ContextId,
) -> Set<ReducerDiagnosticView> {
    if ambiguous(events, context) {
        Set::empty().insert(ambiguity_diagnostic(events, context))
    } else {
        Set::empty()
    }
}

/// Lists the Contexts that an event claims.
pub fn claims_of(event: &ReducerEvent) -> (contexts: Vec<ContextId>)
    ensures
        contexts.deep_view() == claimed(event.deep_view()),
{
    let contexts = match &event.payload {
        ReducerPayload::ContextRevisionAdded { space_id: _, context_id, revision: _ } => single(*context_id),
        ReducerPayload::ContextReviewed { space_id: _, context_id, review: _ } => single(*context_id),
        ReducerPayload::ContextPublicationChanged { space_id: _, context_id, publication: _ } => single(*context_id),
        ReducerPayload::SemanticConflictOpened { space_id: _, conflict } => contexts_of_participants(
            &conflict.participants,
        ),
        ReducerPayload::SemanticConflictResolutionAdded { space_id: _, conflict_id: _, resolution } => contexts_of(
            &resolution.results,
        ),
        _ => Vec::new(),
    };
    assert(contexts.deep_view() =~= claimed(event.deep_view()));
    contexts
}

fn single<T: DeepView>(item: T) -> (list: Vec<T>)
    ensures
        list.deep_view() == seq![item.deep_view()],
{
    let mut list: Vec<T> = Vec::new();
    list.push(item);
    assert(list.deep_view() =~= seq![item.deep_view()]);
    list
}

fn claimant_of(event: &ReducerEvent) -> (space: Option<SpaceId>)
    ensures
        space == claimant(event.deep_view()),
{
    match &event.payload {
        ReducerPayload::ContextRevisionAdded { space_id, context_id: _, revision: _ } => Some(*space_id),
        ReducerPayload::ContextReviewed { space_id, context_id: _, review: _ } => Some(*space_id),
        ReducerPayload::ContextPublicationChanged { space_id, context_id: _, publication: _ } => Some(*space_id),
        ReducerPayload::SemanticConflictOpened { space_id, conflict: _ } => Some(*space_id),
        ReducerPayload::SemanticConflictResolutionAdded {
            space_id,
            conflict_id: _,
            resolution: _,
        } => Some(*space_id),
        _ => None,
    }
}

/// Whether events claim a Context for different Spaces.
fn is_ambiguous(events: &Vec<ReducerEvent>, context: ContextId) -> (found: bool)
    ensures
        found == ambiguous(events.deep_view().to_multiset(), context),
{
    let ghost list = events.deep_view();
    let ghost members = list.to_multiset();
    let mut owner: Option<Option<SpaceId>> = None;
    let ghost mut first: int = 0;
    let mut index: usize = 0;
    while index < events.len()
        invariant
            index <= events@.len(),
            list == events.deep_view(),
            members == list.to_multiset(),
            owner is Some ==> 0 <= first < index && claimed(list[first]).contains(context) && claimant(list[first])
                == owner->Some_0,
            forall|i: int|
                0 <= i < index && claimed(#[trigger] list[i]).contains(context) ==> owner is Some && claimant(list[i])
                    == owner->Some_0,
        decreases events@.len() - index,
    {
        assert(list[index as int] == events@[index as int].deep_view());
        let claims = claims_of(&events[index]);
        if crate::checks::is_among(&claims, &context) {
            let space = claimant_of(&events[index]);
            match owner {
                None => {
                    owner = Some(space);
                    proof {
                        first = index as int;
                    }
                },
                Some(known) => {
                    if known != space {
                        proof {
                            is_member(list, first);
                            is_member(list, index as int);
                        }
                        return true;
                    }
                },
            }
        }
        index = index + 1;
    }
    proof {
        if ambiguous(members, context) {
            let (a, b) = choose|a: ReducerEventView, b: ReducerEventView| #[trigger]
                members.contains(a) && #[trigger] members.contains(b) && claimed(a).contains(context) && claimed(
                    b,
                ).contains(context) && claimant(a) != claimant(b);
            let i = place_in(list, a);
            let j = place_in(list, b);
            assert(claimant(list[i]) == claimant(list[j]));
        }
    }
    false
}

/// Adds the ambiguous Contexts.
pub fn add_disputed(events: &Vec<ReducerEvent>, contexts: &mut SortedSet<ContextId>)
    ensures
        final(contexts).deep_view() == old(contexts).deep_view().union(
            gathered(
                events.deep_view().to_multiset(),
                |event: ReducerEventView| disputed(events.deep_view().to_multiset(), event),
            ),
        ),
{
    let ghost list = events.deep_view();
    let ghost members = list.to_multiset();
    let ghost share = |event: ReducerEventView| disputed(members, event);
    let ghost start = contexts.deep_view();
    proof {
        gathered_none(list, share);
        assert(start =~= start.union(Set::empty()));
    }
    let mut index: usize = 0;
    while index < events.len()
        invariant
            index <= events@.len(),
            list == events.deep_view(),
            members == list.to_multiset(),
            share == (|event: ReducerEventView| disputed(members, event)),
            contexts.deep_view() == start.union(gathered_first(list, share, index as int)),
        decreases events@.len() - index,
    {
        add_disputed_at(events, index, contexts);
        proof {
            gathered_next(list, share, index as int);
            assert(contexts.deep_view() =~= start.union(gathered_first(list, share, index + 1)));
        }
        index = index + 1;
    }
    proof {
        gathered_whole(list, share);
    }
}

fn add_disputed_at(events: &Vec<ReducerEvent>, at: usize, contexts: &mut SortedSet<ContextId>)
    requires
        at < events@.len(),
    ensures
        final(contexts).deep_view() == old(contexts).deep_view().union(
            disputed(events.deep_view().to_multiset(), events.deep_view()[at as int]),
        ),
{
    let ghost list = events.deep_view();
    let ghost members = list.to_multiset();
    let ghost event = list[at as int];
    let ghost start = contexts.deep_view();
    let claims = claims_of(&events[at]);
    let ghost share = |context: ContextId|
        if ambiguous(members, context) {
            Set::<ContextId>::empty().insert(context)
        } else {
            Set::empty()
        };
    proof {
        gathered_none(claimed(event), share);
        assert(start =~= start.union(Set::empty()));
    }
    let mut index: usize = 0;
    while index < claims.len()
        invariant
            index <= claims@.len(),
            list == events.deep_view(),
            members == list.to_multiset(),
            claims.deep_view() == claimed(event),
            share == (|context: ContextId|
                if ambiguous(members, context) {
                    Set::<ContextId>::empty().insert(context)
                } else {
                    Set::empty()
                }),
            contexts.deep_view() == start.union(gathered_first(claimed(event), share, index as int)),
        decreases claims@.len() - index,
    {
        assert(claims.deep_view()[index as int] == claims@[index as int]);
        if is_ambiguous(events, claims[index]) {
            contexts.insert(claims[index]);
        }
        proof {
            gathered_next(claimed(event), share, index as int);
            assert(contexts.deep_view() =~= start.union(gathered_first(claimed(event), share, index + 1)));
        }
        index = index + 1;
    }
    proof {
        let found = gathered_first(claimed(event), share, claims@.len() as int);
        assert(claims.deep_view().len() == claims@.len());
        assert forall|context: ContextId| found.contains(context) == disputed(members, event).contains(context) by {
            if disputed(members, event).contains(context) {
                let i = choose|i: int| 0 <= i < claimed(event).len() && claimed(event)[i] == context;
                assert(share(claimed(event)[i]).contains(context));
            }
        }
        assert(found =~= disputed(members, event));
    }
}

/// Adds the events that claim a Context.
fn add_claiming(events: &Vec<ReducerEvent>, context: ContextId, ids: &mut SortedSet<EventId>)
    ensures
        final(ids).deep_view() == old(ids).deep_view().union(claiming(events.deep_view().to_multiset(), context)),
{
    let ghost list = events.deep_view();
    let ghost share = |event: ReducerEventView| claiming_share(event, context);
    let ghost start = ids.deep_view();
    proof {
        gathered_none(list, share);
        assert(start =~= start.union(Set::empty()));
    }
    let mut index: usize = 0;
    while index < events.len()
        invariant
            index <= events@.len(),
            list == events.deep_view(),
            share == (|event: ReducerEventView| claiming_share(event, context)),
            ids.deep_view() == start.union(gathered_first(list, share, index as int)),
        decreases events@.len() - index,
    {
        assert(list[index as int] == events@[index as int].deep_view());
        let claims = claims_of(&events[index]);
        if crate::checks::is_among(&claims, &context) {
            ids.insert(events[index].event_id);
        }
        proof {
            gathered_next(list, share, index as int);
            assert(ids.deep_view() =~= start.union(gathered_first(list, share, index + 1)));
        }
        index = index + 1;
    }
    proof {
        gathered_whole(list, share);
    }
}

/// Adds what ambiguous Contexts contribute to the diagnostics.
pub fn complain_of_ambiguity(events: &Vec<ReducerEvent>, complaints: &mut SortedSet<ReducerDiagnostic>)
    ensures
        final(complaints).deep_view() == old(complaints).deep_view().union(
            gathered(
                events.deep_view().to_multiset(),
                |event: ReducerEventView| ambiguity_complaints(events.deep_view().to_multiset(), event),
            ),
        ),
{
    let ghost list = events.deep_view();
    let ghost members = list.to_multiset();
    let ghost share = |event: ReducerEventView| ambiguity_complaints(members, event);
    let ghost start = complaints.deep_view();
    proof {
        gathered_none(list, share);
        assert(start =~= start.union(Set::empty()));
    }
    let mut index: usize = 0;
    while index < events.len()
        invariant
            index <= events@.len(),
            list == events.deep_view(),
            members == list.to_multiset(),
            share == (|event: ReducerEventView| ambiguity_complaints(members, event)),
            complaints.deep_view() == start.union(gathered_first(list, share, index as int)),
        decreases events@.len() - index,
    {
        complain_of_ambiguity_at(events, index, complaints);
        proof {
            gathered_next(list, share, index as int);
            assert(complaints.deep_view() =~= start.union(gathered_first(list, share, index + 1)));
        }
        index = index + 1;
    }
    proof {
        gathered_whole(list, share);
    }
}

fn complain_of_ambiguity_at(events: &Vec<ReducerEvent>, at: usize, complaints: &mut SortedSet<ReducerDiagnostic>)
    requires
        at < events@.len(),
    ensures
        final(complaints).deep_view() == old(complaints).deep_view().union(
            ambiguity_complaints(events.deep_view().to_multiset(), events.deep_view()[at as int]),
        ),
{
    let ghost list = events.deep_view();
    let ghost members = list.to_multiset();
    let ghost event = list[at as int];
    let ghost start = complaints.deep_view();
    let claims = claims_of(&events[at]);
    let ghost share = |context: ContextId| claim_complaint(members, context);
    proof {
        gathered_none(claimed(event), share);
        assert(start =~= start.union(Set::empty()));
    }
    let mut index: usize = 0;
    while index < claims.len()
        invariant
            index <= claims@.len(),
            list == events.deep_view(),
            members == list.to_multiset(),
            claims.deep_view() == claimed(event),
            share == (|context: ContextId| claim_complaint(members, context)),
            complaints.deep_view() == start.union(gathered_first(claimed(event), share, index as int)),
        decreases claims@.len() - index,
    {
        assert(claims.deep_view()[index as int] == claims@[index as int]);
        let context = claims[index];
        if is_ambiguous(events, context) {
            let mut ids: SortedSet<EventId> = SortedSet::new();
            add_claiming(events, context, &mut ids);
            assert(ids.deep_view() =~= claiming(members, context));
            let text = context.to_string();
            let message = joined3("context ", text.as_str(), " is referenced from multiple spaces");
            add_diagnostic(
                complaints,
                ReducerDiagnosticCode::AmbiguousContextOwner,
                text.as_str(),
                &ids,
                message,
            );
        }
        proof {
            gathered_next(claimed(event), share, index as int);
            assert(complaints.deep_view() =~= start.union(gathered_first(claimed(event), share, index + 1)));
        }
        index = index + 1;
    }
    assert(gathered_first(claimed(event), share, claims@.len() as int) =~= ambiguity_complaints(members, event)) by {
        assert(claims.deep_view().len() == claims@.len());
    }
}

/// The Spaces that an event relies on.
pub open spec fn needed_spaces(event: ReducerEventView) -> Seq<SpaceId> {
    match event.payload {
        ReducerPayloadView::CandidateConfirmed { confirmation } => {
            let named = seq![confirmation.primary_space_id] + confirmation.related_space_ids;
            match confirmation.created_space_id {
                Some(space_id) => named.push(space_id),
                None => named,
            }
        },
        ReducerPayloadView::ContextSpaceAssociationChanged { association } => seq![association.primary_space_id]
            + association.related_space_ids,
        ReducerPayloadView::SpaceIntentRevisionAdded { space_id, intent_revision: _ } => seq![space_id],
        _ => match claimant(event) {
            Some(space_id) => seq![space_id],
            None => Seq::empty(),
        },
    }
}

/// What a needed Space contributes to the diagnostics.
pub open spec fn missing_space_complaint(
    events: Multiset<ReducerEventView>,
    event_id: EventId,
    space_id: SpaceId,
) -> Set<ReducerDiagnosticView> {
    if valid_spaces(events).contains(space_id) {
        Set::empty()
    } else {
        Set::empty().insert(
            diagnostic(
                ReducerDiagnosticCode::MissingSpace,
                space_id.text(),
                one_event(event_id),
                "event references missing or quarantined space "@ + space_id.text(),
            ),
        )
    }
}

/// What the Spaces that an event needs contribute to the diagnostics.
pub open spec fn missing_space_complaints(
    events: Multiset<ReducerEventView>,
    event: ReducerEventView,
) -> Set<ReducerDiagnosticView> {
    Set::new(
        |complaint: ReducerDiagnosticView| exists|i: int|
            0 <= i < needed_spaces(event).len() && missing_space_complaint(
                events,
                event.event_id,
                #[trigger] needed_spaces(event)[i],
            ).contains(complaint),
    )
}

fn spaces_needed(event: &ReducerEvent) -> (spaces: Vec<SpaceId>)
    ensures
        spaces.deep_view() == needed_spaces(event.deep_view()),
{
    let spaces = match &event.payload {
        ReducerPayload::CandidateConfirmed { confirmation } => {
            let mut spaces = with_first(confirmation.primary_space_id, &confirmation.related_space_ids);
            if let Some(space_id) = confirmation.created_space_id {
                crate::value::push_value(&mut spaces, space_id);
            }
            spaces
        },
        ReducerPayload::ContextSpaceAssociationChanged { association } => with_first(
            association.primary_space_id,
            &association.related_space_ids,
        ),
        ReducerPayload::SpaceIntentRevisionAdded { space_id, intent_revision: _ } => single(*space_id),
        _ => match claimant_of(event) {
            Some(space_id) => single(space_id),
            None => Vec::new(),
        },
    };
    assert(spaces.deep_view() =~= needed_spaces(event.deep_view()));
    spaces
}

fn with_first(first: SpaceId, rest: &Vec<SpaceId>) -> (all: Vec<SpaceId>)
    ensures
        all.deep_view() == seq![first] + rest.deep_view(),
{
    let mut all: Vec<SpaceId> = single(first);
    let mut index: usize = 0;
    assert(all.deep_view() =~= seq![first] + rest.deep_view().take(0));
    while index < rest.len()
        invariant
            index <= rest@.len(),
            all.deep_view() == seq![first] + rest.deep_view().take(index as int),
        decreases rest@.len() - index,
    {
        crate::value::push_value(&mut all, rest[index]);
        assert(all.deep_view() =~= seq![first] + rest.deep_view().take(index + 1));
        index = index + 1;
    }
    assert(rest.deep_view().take(index as int) =~= rest.deep_view());
    all
}

/// Adds what missing Spaces contribute to the diagnostics.
pub fn complain_of_missing_spaces(
    events: &Vec<ReducerEvent>,
    spaces: &SortedSet<SpaceId>,
    complaints: &mut SortedSet<ReducerDiagnostic>,
)
    requires
        spaces.deep_view() == valid_spaces(events.deep_view().to_multiset()),
    ensures
        final(complaints).deep_view() == old(complaints).deep_view().union(
            gathered(
                events.deep_view().to_multiset(),
                |event: ReducerEventView| missing_space_complaints(events.deep_view().to_multiset(), event),
            ),
        ),
{
    let ghost list = events.deep_view();
    let ghost members = list.to_multiset();
    let ghost share = |event: ReducerEventView| missing_space_complaints(members, event);
    let ghost start = complaints.deep_view();
    proof {
        gathered_none(list, share);
        assert(start =~= start.union(Set::empty()));
    }
    let mut index: usize = 0;
    while index < events.len()
        invariant
            index <= events@.len(),
            list == events.deep_view(),
            members == list.to_multiset(),
            share == (|event: ReducerEventView| missing_space_complaints(members, event)),
            spaces.deep_view() == valid_spaces(events.deep_view().to_multiset()),
            complaints.deep_view() == start.union(gathered_first(list, share, index as int)),
        decreases events@.len() - index,
    {
        complain_of_missing_spaces_at(events, index, spaces, complaints);
        proof {
            gathered_next(list, share, index as int);
            assert(complaints.deep_view() =~= start.union(gathered_first(list, share, index + 1)));
        }
        index = index + 1;
    }
    proof {
        gathered_whole(list, share);
    }
}

fn complain_of_missing_spaces_at(
    events: &Vec<ReducerEvent>,
    at: usize,
    spaces: &SortedSet<SpaceId>,
    complaints: &mut SortedSet<ReducerDiagnostic>,
)
    requires
        at < events@.len(),
        spaces.deep_view() == valid_spaces(events.deep_view().to_multiset()),
    ensures
        final(complaints).deep_view() == old(complaints).deep_view().union(
            missing_space_complaints(events.deep_view().to_multiset(), events.deep_view()[at as int]),
        ),
{
    let ghost list = events.deep_view();
    let ghost members = list.to_multiset();
    let ghost event = list[at as int];
    let ghost start = complaints.deep_view();
    let needed = spaces_needed(&events[at]);
    let ghost share = |space_id: SpaceId| missing_space_complaint(members, event.event_id, space_id);
    proof {
        gathered_none(needed_spaces(event), share);
        assert(start =~= start.union(Set::empty()));
    }
    let mut index: usize = 0;
    while index < needed.len()
        invariant
            index <= needed@.len(),
            at < events@.len(),
            list == events.deep_view(),
            members == list.to_multiset(),
            event == events@[at as int].deep_view(),
            spaces.deep_view() == valid_spaces(members),
            needed.deep_view() == needed_spaces(event),
            share == (|space_id: SpaceId| missing_space_complaint(members, event.event_id, space_id)),
            complaints.deep_view() == start.union(gathered_first(needed_spaces(event), share, index as int)),
        decreases needed@.len() - index,
    {
        assert(needed.deep_view()[index as int] == needed@[index as int]);
        let space_id = needed[index];
        if !spaces.contains(&space_id) {
            let text = space_id.to_string();
            let message = joined2("event references missing or quarantined space ", text.as_str());
            add_event_diagnostic(
                complaints,
                ReducerDiagnosticCode::MissingSpace,
                text.as_str(),
                events[at].event_id,
                message,
            );
        }
        proof {
            gathered_next(needed_spaces(event), share, index as int);
            assert(complaints.deep_view() =~= start.union(gathered_first(needed_spaces(event), share, index + 1)));
        }
        index = index + 1;
    }
    assert(gathered_first(needed_spaces(event), share, needed@.len() as int) =~= missing_space_complaints(
        members,
        event,
    )) by {
        assert(needed.deep_view().len() == needed@.len());
    }
}

/// What is known of the events before their contents are read: which are sound, which Spaces are
/// valid, and which Contexts are ambiguous.
pub struct Facts {
    pub sound: Vec<bool>,
    pub spaces: SortedSet<SpaceId>,
    pub ambiguous: SortedSet<ContextId>,
}

impl Facts {
    /// Whether these are the facts about a list of events.
    pub open spec fn describe(self, events: Seq<ReducerEventView>) -> bool {
        &&& flags_are(self.sound@, events, |event: ReducerEventView| sound(events.to_multiset(), event))
        &&& self.spaces.deep_view() == valid_spaces(events.to_multiset())
        &&& self.ambiguous.deep_view() == gathered(
            events.to_multiset(),
            |event: ReducerEventView| disputed(events.to_multiset(), event),
        )
    }

    /// Establishes the facts about a list of events.
    pub fn of(events: &Vec<ReducerEvent>, defined: &Definitions) -> (facts: Facts)
        requires
            defined.describe(events.deep_view()),
        ensures
            facts.describe(events.deep_view()),
    {
        let sound_events = defined.sound_flags(Ghost(events.deep_view()));
        let mut spaces: SortedSet<SpaceId> = SortedSet::new();
        add_valid_spaces(events, defined, &sound_events, &mut spaces);
        let mut contexts: SortedSet<ContextId> = SortedSet::new();
        add_disputed(events, &mut contexts);
        proof {
            let members = events.deep_view().to_multiset();
            assert(spaces.deep_view() =~= valid_spaces(members));
            assert(contexts.deep_view() =~= gathered(
                members,
                |event: ReducerEventView| disputed(members, event),
            ));
        }
        Facts { sound: sound_events, spaces, ambiguous: contexts }
    }

    /// Whether a Context is ambiguous.
    pub fn is_ambiguous(&self, Ghost(events): Ghost<Seq<ReducerEventView>>, context: ContextId) -> (found: bool)
        requires
            self.describe(events),
        ensures
            found == ambiguous(events.to_multiset(), context),
    {
        proof {
            disputed_are_ambiguous(events.to_multiset(), context);
        }
        self.ambiguous.contains(&context)
    }
}

} // verus!
