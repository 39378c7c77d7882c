//! Confirmed Candidates and engineering references, checked against everything they rely on.

use vstd::multiset::Multiset;
use vstd::prelude::*;

use crate::candidates::confirmation_of;
use crate::collections::{SortedMap, SortedSet};
use crate::confirmation::{
    content_hash, context_revision_content_hash, CandidateConfirmation, CandidateConfirmationView,
    ContextSpaceAssociationOrigin,
};
use crate::contexts::{published_in, Standing};
use crate::definitions::{
    add_event_diagnostic, definition, defines, definitions, diagnostic, duplicated, one_event, sound,
    sound_definitions_are_unique, Definition, DefinitionKind, Definitions,
};
use crate::engineering::EngineeringReferenceView;
use crate::events::{
    CandidateConfirmationProjection, CandidateConfirmationProjectionView, EngineeringReferenceProjection,
    EngineeringReferenceProjectionView, ReducerDiagnostic, ReducerDiagnosticCode, ReducerDiagnosticView,
    ReducerEvent, ReducerEventView, ReducerPayload, ReducerPayloadView,
};
use crate::gather::{
    flags_are, gathered, gathered_first, gathered_next, gathered_none, gathered_whole, holds_first,
    holds_next, holds_whole, is_member, keyed, one_value_each, place_in,
};
use crate::governance::{
    all_among, are_all_valid, association_of, candidate_of, context_lives, creates_candidate,
    does_context_live, live_anywhere, live_as, live_is_revision, publication_of, valid_association,
    valid_publication,
};
use crate::ids::{ConfirmationId, ContextId, EventId, Identifier, ReferenceId, RevisionId, SpaceId};
use crate::lineage::{live, revision_of};
use crate::model::{ContextRevision, PublicationAction};
use crate::ownership::valid_spaces;
use crate::text::{joined3, joined4};
use crate::value::Value;

verus! {

/// Whether an event creates the Candidate of a confirmation, and the edits of the confirmation
/// turn its content into the confirmed content.
pub open spec fn is_confirmed_candidate(
    events: Multiset<ReducerEventView>,
    confirmation: CandidateConfirmationView,
    event: ReducerEventView,
) -> bool {
    &&& creates_candidate(events, event, confirmation.candidate_id)
    &&& candidate_of(event)->Some_0.submission_id == confirmation.submission_id
    &&& candidate_of(event)->Some_0.source_episode == confirmation.source_episode
    &&& confirmation.edits.edited(candidate_of(event)->Some_0.content).invalidity() is None
    &&& content_hash(
        confirmation.edits.edited(candidate_of(event)->Some_0.content),
    ) == confirmation.final_content_hash
}

/// Whether an event is the valid association that a confirmation names.
pub open spec fn is_confirmed_association(
    events: Multiset<ReducerEventView>,
    confirmation: CandidateConfirmationView,
    event: ReducerEventView,
) -> bool {
    &&& valid_association(events, event)
    &&& association_of(event)->Some_0.association_id == confirmation.space_association_id
    &&& event.event_id == confirmation.causal_refs.space_association_event_id
    &&& association_of(event)->Some_0.context_id == confirmation.result_context_id
    &&& association_of(event)->Some_0.primary_space_id == confirmation.primary_space_id
    &&& association_of(event)->Some_0.related_space_ids.to_set() == confirmation.related_space_ids.to_set()
    &&& association_of(event)->Some_0.origin == (ContextSpaceAssociationOrigin::CandidateConfirmation {
        candidate_id: confirmation.candidate_id,
    })
}

/// Whether an event adds the live revision that a confirmation names, with the confirmed content.
pub open spec fn is_confirmed_revision(
    events: Multiset<ReducerEventView>,
    confirmation: CandidateConfirmationView,
    event: ReducerEventView,
) -> bool {
    &&& live_as(
        events,
        event,
        confirmation.primary_space_id,
        confirmation.result_context_id,
        confirmation.result_revision_id,
    )
    &&& event.event_id == confirmation.causal_refs.context_revision_event_id
    &&& content_hash(revision_of(event)->Some_0.2.draft()) == confirmation.final_content_hash
}

/// Whether an event adds the valid publication that a confirmation names.
pub open spec fn is_confirmed_publication(
    events: Multiset<ReducerEventView>,
    confirmation: CandidateConfirmationView,
    event: ReducerEventView,
) -> bool {
    &&& published_in(events, event, confirmation.primary_space_id, confirmation.result_context_id)
    &&& publication_of(event)->Some_0.2.publication_id == confirmation.publication_id
    &&& event.event_id == confirmation.causal_refs.publication_event_id
    &&& publication_of(event)->Some_0.2.action == PublicationAction::Publish
    &&& publication_of(event)->Some_0.2.revision_id == confirmation.result_revision_id
}

/// Whether an event creates a Space.
pub open spec fn creates_space(event: ReducerEventView, space_id: SpaceId) -> bool {
    match event.payload {
        ReducerPayloadView::SpaceCreated { space_id: created, intent_revision: _ } => created == space_id,
        _ => false,
    }
}

/// Whether an event, known by its identity, creates a Space.
pub open spec fn is_creation(space_id: SpaceId, event_id: EventId, event: ReducerEventView) -> bool {
    creates_space(event, space_id) && event.event_id == event_id
}

/// Whether the Space that a confirmation created is created once, by the event that it names.
pub open spec fn created_space_matches(
    events: Multiset<ReducerEventView>,
    confirmation: CandidateConfirmationView,
) -> bool {
    match (confirmation.created_space_id, confirmation.causal_refs.space_created_event_id) {
        (Some(space_id), Some(event_id)) => !duplicated(
            events,
            definition(DefinitionKind::SpaceCreation, space_id),
        ) && exists|event: ReducerEventView| #[trigger]
            events.contains(event) && is_creation(space_id, event_id, event),
        (None, None) => true,
        _ => false,
    }
}

/// The Context, the revision and the reference that an event records.
pub open spec fn reference_of(event: ReducerEventView) -> Option<(ContextId, RevisionId, EngineeringReferenceView)> {
    match event.payload {
        ReducerPayloadView::EngineeringReferenceRecorded { context_id, revision_id, reference } => Some(
            (context_id, revision_id, reference),
        ),
        _ => None,
    }
}

/// Whether an event records a reference that nothing else defines.
pub open spec fn unique_reference(events: Multiset<ReducerEventView>, event: ReducerEventView) -> bool {
    &&& sound(events, event)
    &&& reference_of(event) is Some
    &&& !duplicated(events, definition(DefinitionKind::Reference, reference_of(event)->Some_0.2.reference_id))
}

/// Whether an event records a valid reference, known by the identity of the event, to a revision.
pub open spec fn is_confirmed_reference(
    events: Multiset<ReducerEventView>,
    context_id: ContextId,
    revision_id: RevisionId,
    event_id: EventId,
    event: ReducerEventView,
) -> bool {
    &&& unique_reference(events, event)
    &&& event.event_id == event_id
    &&& reference_of(event)->Some_0.0 == context_id
    &&& reference_of(event)->Some_0.1 == revision_id
    &&& reference_of(event)->Some_0.2.draft().problem() is None
}

/// Whether a confirmation has a reference event.
pub open spec fn reference_matches(
    events: Multiset<ReducerEventView>,
    context_id: ContextId,
    revision_id: RevisionId,
    event_id: EventId,
) -> bool {
    exists|event: ReducerEventView| #[trigger]
        events.contains(event) && is_confirmed_reference(events, context_id, revision_id, event_id, event)
}

/// Whether a confirmation has all of its reference events.
pub open spec fn references_match(
    events: Multiset<ReducerEventView>,
    context_id: ContextId,
    revision_id: RevisionId,
    event_ids: Seq<EventId>,
) -> bool {
    forall|i: int|
        0 <= i < event_ids.len() ==> reference_matches(events, context_id, revision_id, #[trigger] event_ids[i])
}

/// Whether a confirmation matches its Candidate, causal association, revision, publication,
/// Spaces, references and final content.
#[verifier::opaque]
pub open spec fn confirmation_matches(
    events: Multiset<ReducerEventView>,
    confirmation: CandidateConfirmationView,
) -> bool {
    &&& exists|event: ReducerEventView| #[trigger]
        events.contains(event) && is_confirmed_candidate(events, confirmation, event)
    &&& exists|event: ReducerEventView| #[trigger]
        events.contains(event) && is_confirmed_association(events, confirmation, event)
    &&& exists|event: ReducerEventView| #[trigger]
        events.contains(event) && is_confirmed_revision(events, confirmation, event)
    &&& exists|event: ReducerEventView| #[trigger]
        events.contains(event) && is_confirmed_publication(events, confirmation, event)
    &&& created_space_matches(events, confirmation)
    &&& references_match(
        events,
        confirmation.result_context_id,
        confirmation.result_revision_id,
        confirmation.causal_refs.engineering_reference_event_ids,
    )
    &&& valid_spaces(events).contains(confirmation.primary_space_id)
    &&& all_among(confirmation.related_space_ids, valid_spaces(events))
}

/// Whether an event records a valid confirmation.
pub open spec fn valid_confirmation(events: Multiset<ReducerEventView>, event: ReducerEventView) -> bool {
    sound(events, event) && confirmation_of(event) is Some && confirmation_matches(
        events,
        confirmation_of(event)->Some_0,
    )
}

/// The projection of the valid confirmation that an event records.
pub open spec fn confirmation_entry(
    events: Multiset<ReducerEventView>,
    event: ReducerEventView,
) -> Option<(ConfirmationId, CandidateConfirmationProjectionView)> {
    if valid_confirmation(events, event) {
        let confirmation = confirmation_of(event)->Some_0;
        Some(
            (
                confirmation.confirmation_id,
                CandidateConfirmationProjectionView { event_id: event.event_id, confirmation },
            ),
        )
    } else {
        None
    }
}

/// What confirmations contribute to the diagnostics.
pub open spec fn confirmation_complaints(
    events: Multiset<ReducerEventView>,
    event: ReducerEventView,
) -> Set<ReducerDiagnosticView> {
    match confirmation_of(event) {
        Some(confirmation) => {
            let text = confirmation.confirmation_id.text();
            if sound(events, event) && !valid_confirmation(events, event) {
                Set::empty().insert(
                    diagnostic(
                        ReducerDiagnosticCode::InvalidCandidateConfirmation,
                        text,
                        one_event(event.event_id),
                        "Candidate Confirmation "@ + text
                            + " does not match its Candidate, causal association, revision, publication, Space, or final content"@,
                    ),
                )
            } else {
                Set::empty()
            }
        },
        None => Set::empty(),
    }
}

/// Whether the Candidate of a confirmation is created, with the confirmed content.
fn has_confirmed_candidate(
    events: &Vec<ReducerEvent>,
    standing: &Standing,
    confirmation: &CandidateConfirmation,
) -> (found: bool)
    requires
        standing.describe(events.deep_view()),
    ensures
        found == exists|event: ReducerEventView| #[trigger] events.deep_view().to_multiset().contains(event)
            && is_confirmed_candidate(events.deep_view().to_multiset(), confirmation.deep_view(), event),
{
    let ghost list = events.deep_view();
    let ghost members = list.to_multiset();
    let mut index: usize = 0;
    while index < events.len()
        invariant
            index <= events@.len(),
            list == events.deep_view(),
            members == list.to_multiset(),
            standing.describe(events.deep_view()),
            forall|i: int| 0 <= i < index ==> !(
                is_confirmed_candidate(members, confirmation.deep_view(), #[trigger] list[i])
            ),
        decreases events@.len() - index,
    {
        if has_confirmed_candidate_at(events, index, standing, confirmation) {
            proof {
                is_member(list, index as int);
            }
            return true;
        }
        index = index + 1;
    }
    proof {
        if exists|event: ReducerEventView| #[trigger] members.contains(event)
            && is_confirmed_candidate(members, confirmation.deep_view(), event) {
            let event = choose|event: ReducerEventView| #[trigger] members.contains(event)
                && is_confirmed_candidate(members, confirmation.deep_view(), event);
            let at = place_in(list, event);
        }
    }
    false
}

fn has_confirmed_candidate_at(
    events: &Vec<ReducerEvent>,
    at: usize,
    standing: &Standing,
    confirmation: &CandidateConfirmation,
) -> (found: bool)
    requires
        at < events@.len(),
        standing.describe(events.deep_view()),
    ensures
        found == is_confirmed_candidate(
            events.deep_view().to_multiset(),
            confirmation.deep_view(),
            events.deep_view()[at as int],
        ),
{
    let ghost list = events.deep_view();
    assert(list[at as int] == events@[at as int].deep_view());
    assert(standing.facts.sound@[at as int] == sound(list.to_multiset(), list[at as int]));
    match &events[at].payload {
        ReducerPayload::ContextCandidateCreated { candidate } => {
            if !standing.facts.sound[at] || candidate.candidate_id != confirmation.candidate_id
                || candidate.submission_id != confirmation.submission_id || candidate.source_episode
                != confirmation.source_episode {
                return false;
            }
            match confirmation.edits.apply(&candidate.content) {
                Ok(edited) => {
                    let hash = context_revision_content_hash(&edited);
                    hash.same(&confirmation.final_content_hash)
                },
                Err(_) => false,
            }
        },
        _ => false,
    }
}

/// Whether the association that a confirmation names is valid and says the same.
fn has_confirmed_association(
    events: &Vec<ReducerEvent>,
    standing: &Standing,
    confirmation: &CandidateConfirmation,
) -> (found: bool)
    requires
        standing.describe(events.deep_view()),
    ensures
        found == exists|event: ReducerEventView| #[trigger] events.deep_view().to_multiset().contains(event)
            && is_confirmed_association(events.deep_view().to_multiset(), confirmation.deep_view(), event),
{
    let ghost list = events.deep_view();
    let ghost members = list.to_multiset();
    let mut index: usize = 0;
    while index < events.len()
        invariant
            index <= events@.len(),
            list == events.deep_view(),
            members == list.to_multiset(),
            standing.describe(events.deep_view()),
            forall|i: int| 0 <= i < index ==> !(
                is_confirmed_association(members, confirmation.deep_view(), #[trigger] list[i])
            ),
        decreases events@.len() - index,
    {
        if has_confirmed_association_at(events, index, standing, confirmation) {
            proof {
                is_member(list, index as int);
            }
            return true;
        }
        index = index + 1;
    }
    proof {
        if exists|event: ReducerEventView| #[trigger] members.contains(event)
            && is_confirmed_association(members, confirmation.deep_view(), event) {
            let event = choose|event: ReducerEventView| #[trigger] members.contains(event)
                && is_confirmed_association(members, confirmation.deep_view(), event);
            let at = place_in(list, event);
        }
    }
    false
}

fn has_confirmed_association_at(
    events: &Vec<ReducerEvent>,
    at: usize,
    standing: &Standing,
    confirmation: &CandidateConfirmation,
) -> (found: bool)
    requires
        at < events@.len(),
        standing.describe(events.deep_view()),
    ensures
        found == is_confirmed_association(
            events.deep_view().to_multiset(),
            confirmation.deep_view(),
            events.deep_view()[at as int],
        ),
{
    let ghost list = events.deep_view();
    assert(list[at as int] == events@[at as int].deep_view());
    assert(standing.associations@[at as int] == valid_association(list.to_multiset(), list[at as int]));
    match &events[at].payload {
        ReducerPayload::ContextSpaceAssociationChanged { association } => {
            if !standing.associations[at] || association.association_id != confirmation.space_association_id
                || events[at].event_id != confirmation.causal_refs.space_association_event_id
                || association.context_id != confirmation.result_context_id || association.primary_space_id
                != confirmation.primary_space_id {
                return false;
            }
            let related = SortedSet::of_list(&association.related_space_ids);
            let confirmed = SortedSet::of_list(&confirmation.related_space_ids);
            if !related.same(&confirmed) {
                return false;
            }
            match association.origin {
                ContextSpaceAssociationOrigin::CandidateConfirmation { candidate_id } => candidate_id
                    == confirmation.candidate_id,
                ContextSpaceAssociationOrigin::Correction => false,
            }
        },
        _ => false,
    }
}

/// Whether the revision that a confirmation names lives, with the confirmed content.
fn has_confirmed_revision(
    events: &Vec<ReducerEvent>,
    standing: &Standing,
    confirmation: &CandidateConfirmation,
) -> (found: bool)
    requires
        standing.describe(events.deep_view()),
    ensures
        found == exists|event: ReducerEventView| #[trigger] events.deep_view().to_multiset().contains(event)
            && is_confirmed_revision(events.deep_view().to_multiset(), confirmation.deep_view(), event),
{
    let ghost list = events.deep_view();
    let ghost members = list.to_multiset();
    let mut index: usize = 0;
    while index < events.len()
        invariant
            index <= events@.len(),
            list == events.deep_view(),
            members == list.to_multiset(),
            standing.describe(events.deep_view()),
            forall|i: int| 0 <= i < index ==> !(
                is_confirmed_revision(members, confirmation.deep_view(), #[trigger] list[i])
            ),
        decreases events@.len() - index,
    {
        if has_confirmed_revision_at(events, index, standing, confirmation) {
            proof {
                is_member(list, index as int);
            }
            return true;
        }
        index = index + 1;
    }
    proof {
        if exists|event: ReducerEventView| #[trigger] members.contains(event)
            && is_confirmed_revision(members, confirmation.deep_view(), event) {
            let event = choose|event: ReducerEventView| #[trigger] members.contains(event)
                && is_confirmed_revision(members, confirmation.deep_view(), event);
            let at = place_in(list, event);
        }
    }
    false
}

fn has_confirmed_revision_at(
    events: &Vec<ReducerEvent>,
    at: usize,
    standing: &Standing,
    confirmation: &CandidateConfirmation,
) -> (found: bool)
    requires
        at < events@.len(),
        standing.describe(events.deep_view()),
    ensures
        found == is_confirmed_revision(
            events.deep_view().to_multiset(),
            confirmation.deep_view(),
            events.deep_view()[at as int],
        ),
{
    let ghost list = events.deep_view();
    assert(list[at as int] == events@[at as int].deep_view());
    assert(standing.live@[at as int] == live(list.to_multiset(), list[at as int]));
    if !standing.live[at] {
        return false;
    }
    proof {
        live_is_revision(list.to_multiset(), list[at as int]);
    }
    match &events[at].payload {
        ReducerPayload::ContextRevisionAdded { space_id, context_id, revision } => {
            if *space_id != confirmation.primary_space_id || *context_id != confirmation.result_context_id
                || revision.revision_id != confirmation.result_revision_id || events[at].event_id
                != confirmation.causal_refs.context_revision_event_id {
                return false;
            }
            let draft = crate::confirmation::context_revision_as_draft(revision);
            let hash = context_revision_content_hash(&draft);
            hash.same(&confirmation.final_content_hash)
        },
        _ => false,
    }
}

/// Whether the publication that a confirmation names is valid and publishes its revision.
fn has_confirmed_publication(
    events: &Vec<ReducerEvent>,
    standing: &Standing,
    confirmation: &CandidateConfirmation,
) -> (found: bool)
    requires
        standing.describe(events.deep_view()),
    ensures
        found == exists|event: ReducerEventView| #[trigger] events.deep_view().to_multiset().contains(event)
            && is_confirmed_publication(events.deep_view().to_multiset(), confirmation.deep_view(), event),
{
    let ghost list = events.deep_view();
    let ghost members = list.to_multiset();
    let mut index: usize = 0;
    while index < events.len()
        invariant
            index <= events@.len(),
            list == events.deep_view(),
            members == list.to_multiset(),
            standing.describe(events.deep_view()),
            forall|i: int| 0 <= i < index ==> !(
                is_confirmed_publication(members, confirmation.deep_view(), #[trigger] list[i])
            ),
        decreases events@.len() - index,
    {
        if has_confirmed_publication_at(events, index, standing, confirmation) {
            proof {
                is_member(list, index as int);
            }
            return true;
        }
        index = index + 1;
    }
    proof {
        if exists|event: ReducerEventView| #[trigger] members.contains(event)
            && is_confirmed_publication(members, confirmation.deep_view(), event) {
            let event = choose|event: ReducerEventView| #[trigger] members.contains(event)
                && is_confirmed_publication(members, confirmation.deep_view(), event);
            let at = place_in(list, event);
        }
    }
    false
}

fn has_confirmed_publication_at(
    events: &Vec<ReducerEvent>,
    at: usize,
    standing: &Standing,
    confirmation: &CandidateConfirmation,
) -> (found: bool)
    requires
        at < events@.len(),
        standing.describe(events.deep_view()),
    ensures
        found == is_confirmed_publication(
            events.deep_view().to_multiset(),
            confirmation.deep_view(),
            events.deep_view()[at as int],
        ),
{
    let ghost list = events.deep_view();
    assert(list[at as int] == events@[at as int].deep_view());
    assert(standing.publications@[at as int] == valid_publication(list.to_multiset(), list[at as int]));
    match &events[at].payload {
        ReducerPayload::ContextPublicationChanged { space_id, context_id, publication } => {
            standing.publications[at] && *space_id == confirmation.primary_space_id && *context_id
                == confirmation.result_context_id && publication.publication_id == confirmation.publication_id
                && events[at].event_id == confirmation.causal_refs.publication_event_id && publication.action
                == PublicationAction::Publish && publication.revision_id == confirmation.result_revision_id
        },
        _ => false,
    }
}

/// Whether an event, known by its identity, creates a Space.
fn has_creation(events: &Vec<ReducerEvent>, space_id: SpaceId, event_id: EventId) -> (found: bool)
    ensures
        found == exists|event: ReducerEventView| #[trigger] events.deep_view().to_multiset().contains(event)
            && is_creation(space_id, event_id, event),
{
    let ghost list = events.deep_view();
    let ghost members = list.to_multiset();
    let mut index: usize = 0;
    while index < events.len()
        invariant
            index <= events@.len(),
            list == events.deep_view(),
            members == list.to_multiset(),
            forall|i: int| 0 <= i < index ==> !(is_creation(space_id, event_id, #[trigger] list[i])),
        decreases events@.len() - index,
    {
        if has_creation_at(events, index, space_id, event_id) {
            proof {
                is_member(list, index as int);
            }
            return true;
        }
        index = index + 1;
    }
    proof {
        if exists|event: ReducerEventView| #[trigger] members.contains(event)
            && is_creation(space_id, event_id, event) {
            let event = choose|event: ReducerEventView| #[trigger] members.contains(event)
                && is_creation(space_id, event_id, event);
            let at = place_in(list, event);
        }
    }
    false
}

fn has_creation_at(events: &Vec<ReducerEvent>, at: usize, space_id: SpaceId, event_id: EventId) -> (found: bool)
    requires
        at < events@.len(),
    ensures
        found == is_creation(space_id, event_id, events.deep_view()[at as int]),
{
    assert(events.deep_view()[at as int] == events@[at as int].deep_view());
    match &events[at].payload {
        ReducerPayload::SpaceCreated { space_id: created, intent_revision: _ } => *created == space_id
            && events[at].event_id == event_id,
        _ => false,
    }
}

fn does_created_space_match(
    events: &Vec<ReducerEvent>,
    defined: &Definitions,
    confirmation: &CandidateConfirmation,
) -> (matches: bool)
    requires
        defined.describe(events.deep_view()),
    ensures
        matches == created_space_matches(events.deep_view().to_multiset(), confirmation.deep_view()),
{
    match (confirmation.created_space_id, confirmation.causal_refs.space_created_event_id) {
        (Some(space_id), Some(event_id)) => {
            let creation = Definition { kind: DefinitionKind::SpaceCreation, number: space_id.get() };
            if defined.is_duplicated(Ghost(events.deep_view()), creation) {
                return false;
            }
            has_creation(events, space_id, event_id)
        },
        (None, None) => true,
        _ => false,
    }
}

/// Whether an event records a reference that nothing else defines.
fn is_unique_reference(
    events: &Vec<ReducerEvent>,
    at: usize,
    standing: &Standing,
    defined: &Definitions,
) -> (unique: bool)
    requires
        at < events@.len(),
        standing.describe(events.deep_view()),
        defined.describe(events.deep_view()),
    ensures
        unique == unique_reference(events.deep_view().to_multiset(), events.deep_view()[at as int]),
{
    let ghost list = events.deep_view();
    assert(list[at as int] == events@[at as int].deep_view());
    assert(standing.facts.sound@[at as int] == sound(list.to_multiset(), list[at as int]));
    match &events[at].payload {
        ReducerPayload::EngineeringReferenceRecorded { context_id: _, revision_id: _, reference } => {
            if !standing.facts.sound[at] {
                return false;
            }
            let own = Definition { kind: DefinitionKind::Reference, number: reference.reference_id.get() };
            !defined.is_duplicated(Ghost(list), own)
        },
        _ => false,
    }
}

/// Whether an event, known by its identity, records a valid reference to a revision.
fn has_confirmed_reference(
    events: &Vec<ReducerEvent>,
    standing: &Standing,
    defined: &Definitions,
    context_id: ContextId,
    revision_id: RevisionId,
    event_id: EventId,
) -> (found: bool)
    requires
        standing.describe(events.deep_view()),
        defined.describe(events.deep_view()),
    ensures
        found == exists|event: ReducerEventView| #[trigger] events.deep_view().to_multiset().contains(event)
            && is_confirmed_reference(events.deep_view().to_multiset(), context_id, revision_id, event_id, event),
{
    let ghost list = events.deep_view();
    let ghost members = list.to_multiset();
    let mut index: usize = 0;
    while index < events.len()
        invariant
            index <= events@.len(),
            list == events.deep_view(),
            members == list.to_multiset(),
            standing.describe(events.deep_view()),
            defined.describe(events.deep_view()),
            forall|i: int| 0 <= i < index ==> !(
                is_confirmed_reference(members, context_id, revision_id, event_id, #[trigger] list[i])
            ),
        decreases events@.len() - index,
    {
        if has_confirmed_reference_at(events, index, standing, defined, context_id, revision_id, event_id) {
            proof {
                is_member(list, index as int);
            }
            return true;
        }
        index = index + 1;
    }
    proof {
        if exists|event: ReducerEventView| #[trigger] members.contains(event)
            && is_confirmed_reference(members, context_id, revision_id, event_id, event) {
            let event = choose|event: ReducerEventView| #[trigger] members.contains(event)
                && is_confirmed_reference(members, context_id, revision_id, event_id, event);
            let at = place_in(list, event);
        }
    }
    false
}

fn has_confirmed_reference_at(
    events: &Vec<ReducerEvent>,
    at: usize,
    standing: &Standing,
    defined: &Definitions,
    context_id: ContextId,
    revision_id: RevisionId,
    event_id: EventId,
) -> (found: bool)
    requires
        at < events@.len(),
        standing.describe(events.deep_view()),
        defined.describe(events.deep_view()),
    ensures
        found == is_confirmed_reference(
            events.deep_view().to_multiset(),
            context_id,
            revision_id,
            event_id,
            events.deep_view()[at as int],
        ),
{
    let ghost list = events.deep_view();
    assert(list[at as int] == events@[at as int].deep_view());
    match &events[at].payload {
        ReducerPayload::EngineeringReferenceRecorded { context_id: context, revision_id: revision, reference } => {
            if events[at].event_id != event_id || *context != context_id || *revision != revision_id {
                return false;
            }
            match reference.validate() {
                Ok(_) => is_unique_reference(events, at, standing, defined),
                Err(_) => false,
            }
        },
        _ => false,
    }
}

fn do_references_match(
    events: &Vec<ReducerEvent>,
    standing: &Standing,
    defined: &Definitions,
    context_id: ContextId,
    revision_id: RevisionId,
    event_ids: &Vec<EventId>,
) -> (all: bool)
    requires
        standing.describe(events.deep_view()),
        defined.describe(events.deep_view()),
    ensures
        all == references_match(
            events.deep_view().to_multiset(),
            context_id,
            revision_id,
            event_ids.deep_view(),
        ),
{
    let ghost members = events.deep_view().to_multiset();
    let ghost model = event_ids.deep_view();
    let mut index: usize = 0;
    while index < event_ids.len()
        invariant
            index <= event_ids@.len(),
            members == events.deep_view().to_multiset(),
            model == event_ids.deep_view(),
            standing.describe(events.deep_view()),
            defined.describe(events.deep_view()),
            forall|i: int|
                0 <= i < index ==> reference_matches(members, context_id, revision_id, #[trigger] model[i]),
        decreases event_ids@.len() - index,
    {
        assert(model[index as int] == event_ids@[index as int]);
        let found = has_confirmed_reference(
            events,
            standing,
            defined,
            context_id,
            revision_id,
            event_ids[index],
        );
        assert(found == reference_matches(members, context_id, revision_id, model[index as int]));
        if !found {
            return false;
        }
        index = index + 1;
    }
    assert(model.len() == event_ids@.len());
    true
}

/// Whether a confirmation matches everything that it relies on.
fn does_confirmation_match(
    events: &Vec<ReducerEvent>,
    standing: &Standing,
    defined: &Definitions,
    confirmation: &CandidateConfirmation,
) -> (matches: bool)
    requires
        standing.describe(events.deep_view()),
        defined.describe(events.deep_view()),
    ensures
        matches == confirmation_matches(events.deep_view().to_multiset(), confirmation.deep_view()),
{
    proof {
        reveal(confirmation_matches);
    }
    if !has_confirmed_candidate(events, standing, confirmation) {
        return false;
    }
    if !has_confirmed_association(events, standing, confirmation) {
        return false;
    }
    if !has_confirmed_revision(events, standing, confirmation) {
        return false;
    }
    if !has_confirmed_publication(events, standing, confirmation) {
        return false;
    }
    does_created_space_match(events, defined, confirmation) && do_references_match(
        events,
        standing,
        defined,
        confirmation.result_context_id,
        confirmation.result_revision_id,
        &confirmation.causal_refs.engineering_reference_event_ids,
    ) && standing.facts.spaces.contains(&confirmation.primary_space_id) && are_all_valid(
        &confirmation.related_space_ids,
        &standing.facts.spaces,
    )
}

/// Which events record valid confirmations.
pub fn list_confirmations(
    events: &Vec<ReducerEvent>,
    standing: &Standing,
    defined: &Definitions,
) -> (flags: Vec<bool>)
    requires
        standing.describe(events.deep_view()),
        defined.describe(events.deep_view()),
    ensures
        flags_are(
            flags@,
            events.deep_view(),
            |event: ReducerEventView| valid_confirmation(events.deep_view().to_multiset(), event),
        ),
{
    let ghost list = events.deep_view();
    let ghost members = list.to_multiset();
    let mut flags: Vec<bool> = Vec::new();
    let mut index: usize = 0;
    while index < events.len()
        invariant
            index <= events@.len(),
            list == events.deep_view(),
            members == list.to_multiset(),
            standing.describe(events.deep_view()),
            defined.describe(events.deep_view()),
            flags@.len() == index,
            forall|i: int| 0 <= i < index ==> #[trigger] flags@[i] == valid_confirmation(members, list[i]),
        decreases events@.len() - index,
    {
        let flag = list_confirmations_at(events, index, standing, defined);
        flags.push(flag);
        index = index + 1;
    }
    flags
}

fn list_confirmations_at(
    events: &Vec<ReducerEvent>,
    at: usize,
    standing: &Standing,
    defined: &Definitions,
) -> (flag: bool)
    requires
        at < events@.len(),
        standing.describe(events.deep_view()),
        defined.describe(events.deep_view()),
    ensures
        flag == valid_confirmation(events.deep_view().to_multiset(), events.deep_view()[at as int]),
{
    let ghost list = events.deep_view();
    assert(list[at as int] == events@[at as int].deep_view());
    assert(standing.facts.sound@[at as int] == sound(list.to_multiset(), list[at as int]));
    match &events[at].payload {
        ReducerPayload::CandidateConfirmed { confirmation } => standing.facts.sound[at] && does_confirmation_match(
            events,
            standing,
            defined,
            &**confirmation,
        ),
        _ => false,
    }
}

/// Adds what confirmations contribute to the diagnostics.
pub fn complain_of_confirmations(
    events: &Vec<ReducerEvent>,
    standing: &Standing,
    confirmations: &Vec<bool>,
    complaints: &mut SortedSet<ReducerDiagnostic>,
)
    requires
        standing.describe(events.deep_view()),
        flags_are(
            confirmations@,
            events.deep_view(),
            |event: ReducerEventView| valid_confirmation(events.deep_view().to_multiset(), event),
        ),
    ensures
        final(complaints).deep_view() == old(complaints).deep_view().union(
            gathered(
                events.deep_view().to_multiset(),
                |event: ReducerEventView| confirmation_complaints(events.deep_view().to_multiset(), event),
            ),
        ),
{
    let ghost list = events.deep_view();
    let ghost members = list.to_multiset();
    let ghost share = |event: ReducerEventView| confirmation_complaints(members, event);
    let ghost start = complaints.deep_view();
    proof {
        gathered_none(list, share);
        assert(start =~= start.union(Set::empty()));
    }
    let mut index: usize = 0;
    while index < events.len()
        invariant
            index <= events@.len(),
            list == events.deep_view(),
            members == list.to_multiset(),
            share == (|event: ReducerEventView| confirmation_complaints(members, event)),
            standing.describe(events.deep_view()),
            flags_are(
                confirmations@,
                events.deep_view(),
                |event: ReducerEventView| valid_confirmation(events.deep_view().to_multiset(), event),
            ),
            complaints.deep_view() == start.union(gathered_first(list, share, index as int)),
        decreases events@.len() - index,
    {
        complain_of_confirmations_at(events, index, standing, confirmations, complaints);
        proof {
            gathered_next(list, share, index as int);
            assert(complaints.deep_view() =~= start.union(gathered_first(list, share, index + 1)));
        }
        index = index + 1;
    }
    proof {
        gathered_whole(list, share);
    }
}

fn complain_of_confirmations_at(
    events: &Vec<ReducerEvent>,
    at: usize,
    standing: &Standing,
    confirmations: &Vec<bool>,
    complaints: &mut SortedSet<ReducerDiagnostic>,
)
    requires
        at < events@.len(),
        standing.describe(events.deep_view()),
        flags_are(
            confirmations@,
            events.deep_view(),
            |event: ReducerEventView| valid_confirmation(events.deep_view().to_multiset(), event),
        ),
    ensures
        final(complaints).deep_view() == old(complaints).deep_view().union(
            confirmation_complaints(events.deep_view().to_multiset(), events.deep_view()[at as int]),
        ),
{
    let ghost list = events.deep_view();
    let ghost start = complaints.deep_view();
    assert(list[at as int] == events@[at as int].deep_view());
    assert(standing.facts.sound@[at as int] == sound(list.to_multiset(), list[at as int]));
    assert(confirmations@[at as int] == valid_confirmation(list.to_multiset(), list[at as int]));
    if let ReducerPayload::CandidateConfirmed { confirmation } = &events[at].payload {
        if standing.facts.sound[at] && !confirmations[at] {
            let text = confirmation.confirmation_id.to_string();
            let message = joined3(
                "Candidate Confirmation ",
                text.as_str(),
                " does not match its Candidate, causal association, revision, publication, Space, or final content",
            );
            add_event_diagnostic(
                complaints,
                ReducerDiagnosticCode::InvalidCandidateConfirmation,
                text.as_str(),
                events[at].event_id,
                message,
            );
        }
    }
    assert(complaints.deep_view() =~= start.union(confirmation_complaints(list.to_multiset(), list[at as int])));
}

/// A confirmation is defined by the event that records it.
proof fn defines_confirmation(event: ReducerEventView)
    requires
        confirmation_of(event) is Some,
    ensures
        defines(event, definition(DefinitionKind::Confirmation, confirmation_of(event)->Some_0.confirmation_id)),
{
    let all = definitions(event);
    assert(all.contains(all[1]));
}

/// A confirmation identity holds one valid confirmation.
pub proof fn confirmation_entries_agree(events: Multiset<ReducerEventView>)
    ensures
        one_value_each(events, |event: ReducerEventView| confirmation_entry(events, event)),
{
    let entry = |event: ReducerEventView| confirmation_entry(events, event);
    assert forall|a: ReducerEventView, b: ReducerEventView| #[trigger]
        events.contains(a) && #[trigger] events.contains(b) && entry(a) is Some && entry(b) is Some && entry(
            a,
        )->Some_0.0 == entry(b)->Some_0.0 implies entry(a) == entry(b) by {
        defines_confirmation(a);
        defines_confirmation(b);
        sound_definitions_are_unique(
            events,
            a,
            b,
            definition(DefinitionKind::Confirmation, confirmation_of(a)->Some_0.confirmation_id),
        );
    }
}

/// Projects the valid confirmations.
pub fn project_confirmations(
    events: &Vec<ReducerEvent>,
    confirmations: &Vec<bool>,
) -> (map: SortedMap<ConfirmationId, CandidateConfirmationProjection>)
    requires
        flags_are(
            confirmations@,
            events.deep_view(),
            |event: ReducerEventView| valid_confirmation(events.deep_view().to_multiset(), event),
        ),
    ensures
        map.deep_view() == keyed(
            events.deep_view().to_multiset(),
            |event: ReducerEventView| confirmation_entry(events.deep_view().to_multiset(), event),
        ),
{
    let ghost list = events.deep_view();
    let ghost members = list.to_multiset();
    let ghost entry = |event: ReducerEventView| confirmation_entry(members, event);
    proof {
        confirmation_entries_agree(members);
    }
    let mut map: SortedMap<ConfirmationId, CandidateConfirmationProjection> = SortedMap::new();
    let mut index: usize = 0;
    while index < events.len()
        invariant
            index <= events@.len(),
            list == events.deep_view(),
            members == list.to_multiset(),
            entry == (|event: ReducerEventView| confirmation_entry(members, event)),
            one_value_each(members, entry),
            flags_are(
                confirmations@,
                events.deep_view(),
                |event: ReducerEventView| valid_confirmation(events.deep_view().to_multiset(), event),
            ),
            holds_first(map.deep_view(), list, entry, index as int),
        decreases events@.len() - index,
    {
        let found = project_confirmations_at(events, index, confirmations);
        proof {
            holds_next(map.deep_view(), list, entry, index as int);
        }
        if let Some((key, value)) = found {
            map.insert(key, value);
        }
        index = index + 1;
    }
    proof {
        holds_whole(map.deep_view(), list, entry);
    }
    map
}

fn project_confirmations_at(events: &Vec<ReducerEvent>, at: usize, confirmations: &Vec<bool>) -> (entry: Option<
    (ConfirmationId, CandidateConfirmationProjection),
>)
    requires
        at < events@.len(),
        flags_are(
            confirmations@,
            events.deep_view(),
            |event: ReducerEventView| valid_confirmation(events.deep_view().to_multiset(), event),
        ),
    ensures
        entry.deep_view() == confirmation_entry(events.deep_view().to_multiset(), events.deep_view()[at as int]),
{
    let ghost list = events.deep_view();
    assert(list[at as int] == events@[at as int].deep_view());
    assert(confirmations@[at as int] == valid_confirmation(list.to_multiset(), list[at as int]));
    match &events[at].payload {
        ReducerPayload::CandidateConfirmed { confirmation } if confirmations[at] => Some(
            (
                confirmation.confirmation_id,
                CandidateConfirmationProjection {
                    event_id: events[at].event_id,
                    confirmation: (**confirmation).copied(),
                },
            ),
        ),
        _ => None,
    }
}

/// Whether an event adds a given live revision to a Context, in whichever Space owns it.
pub open spec fn live_target(
    events: Multiset<ReducerEventView>,
    context_id: ContextId,
    revision_id: RevisionId,
    event: ReducerEventView,
) -> bool {
    live_anywhere(events, event, context_id) && revision_of(event)->Some_0.2.revision_id == revision_id
}

/// Whether a Context has a given live revision, in whichever Space owns it.
pub open spec fn target_lives(
    events: Multiset<ReducerEventView>,
    context_id: ContextId,
    revision_id: RevisionId,
) -> bool {
    exists|event: ReducerEventView| #[trigger]
        events.contains(event) && live_target(events, context_id, revision_id, event)
}

/// The Space that owns a live revision of a Context.
pub open spec fn target_space(
    events: Multiset<ReducerEventView>,
    context_id: ContextId,
    revision_id: RevisionId,
) -> SpaceId {
    revision_of(
        choose|event: ReducerEventView| #[trigger]
            events.contains(event) && live_target(events, context_id, revision_id, event),
    )->Some_0.0
}

/// The projection of the valid reference that an event records.
pub open spec fn reference_entry(
    events: Multiset<ReducerEventView>,
    event: ReducerEventView,
) -> Option<(ReferenceId, EngineeringReferenceProjectionView)> {
    if unique_reference(events, event) {
        let (context_id, revision_id, reference) = reference_of(event)->Some_0;
        if reference.draft().problem() is None && target_lives(events, context_id, revision_id) {
            Some(
                (
                    reference.reference_id,
                    EngineeringReferenceProjectionView {
                        event_id: event.event_id,
                        space_id: target_space(events, context_id, revision_id),
                        context_id,
                        revision_id,
                        reference,
                    },
                ),
            )
        } else {
            None
        }
    } else {
        None
    }
}

/// What references contribute to the diagnostics.
pub open spec fn reference_complaints(
    events: Multiset<ReducerEventView>,
    event: ReducerEventView,
) -> Set<ReducerDiagnosticView> {
    if unique_reference(events, event) {
        let (context_id, revision_id, reference) = reference_of(event)->Some_0;
        let text = reference.reference_id.text();
        match reference.draft().problem() {
            Some(error) => Set::empty().insert(
                diagnostic(
                    ReducerDiagnosticCode::InvalidEngineeringReference,
                    text,
                    one_event(event.event_id),
                    "engineering reference "@ + text + " is invalid: "@ + error.message,
                ),
            ),
            None => {
                if !context_lives(events, context_id) {
                    Set::empty().insert(
                        diagnostic(
                            ReducerDiagnosticCode::InvalidEngineeringReferenceTarget,
                            text,
                            one_event(event.event_id),
                            "engineering reference "@ + text + " targets missing or quarantined context "@
                                + context_id.text(),
                        ),
                    )
                } else if !target_lives(events, context_id, revision_id) {
                    Set::empty().insert(
                        diagnostic(
                            ReducerDiagnosticCode::InvalidEngineeringReferenceTarget,
                            text,
                            one_event(event.event_id),
                            "engineering reference "@ + text + " revision "@ + revision_id.text()
                                + " does not belong to context "@ + context_id.text(),
                        ),
                    )
                } else {
                    Set::empty()
                }
            },
        }
    } else {
        Set::empty()
    }
}

/// Finds a given live revision of a Context.
fn find_target(events: &Vec<ReducerEvent>, standing: &Standing, context_id: ContextId, revision_id: RevisionId) -> (found:
    Option<SpaceId>)
    requires
        standing.describe(events.deep_view()),
    ensures
        match found {
            Some(space_id) => target_lives(events.deep_view().to_multiset(), context_id, revision_id) && space_id
                == target_space(events.deep_view().to_multiset(), context_id, revision_id),
            None => !target_lives(events.deep_view().to_multiset(), context_id, revision_id),
        },
{
    let ghost list = events.deep_view();
    let ghost members = list.to_multiset();
    let mut index: usize = 0;
    while index < events.len()
        invariant
            index <= events@.len(),
            list == events.deep_view(),
            members == list.to_multiset(),
            standing.describe(list),
            forall|i: int| 0 <= i < index ==> !live_target(members, context_id, revision_id, #[trigger] list[i]),
        decreases events@.len() - index,
    {
        assert(list[index as int] == events@[index as int].deep_view());
        assert(standing.live@[index as int] == live(members, list[index as int]));
        if standing.live[index] {
            proof {
                live_is_revision(members, list[index as int]);
            }
            if let ReducerPayload::ContextRevisionAdded { space_id, context_id: context, revision } =
                &events[index].payload {
                if *context == context_id && revision.revision_id == revision_id {
                    proof {
                        is_member(list, index as int);
                        assert(live_target(members, context_id, revision_id, list[index as int]));
                        let other = choose|event: ReducerEventView| #[trigger]
                            members.contains(event) && live_target(members, context_id, revision_id, event);
                        crate::contexts::defines_own(list[index as int]);
                        crate::contexts::defines_own(other);
                        live_is_revision(members, other);
                        sound_definitions_are_unique(
                            members,
                            list[index as int],
                            other,
                            definition(DefinitionKind::ContextRevision, revision_id),
                        );
                    }
                    return Some(*space_id);
                }
            }
        }
        index = index + 1;
    }
    proof {
        if target_lives(members, context_id, revision_id) {
            let event = choose|event: ReducerEventView| #[trigger]
                members.contains(event) && live_target(members, context_id, revision_id, event);
            let i = place_in(list, event);
            assert(live_target(members, context_id, revision_id, list[i]));
        }
    }
    None
}

/// Adds what references contribute to the diagnostics.
pub fn complain_of_references(
    events: &Vec<ReducerEvent>,
    standing: &Standing,
    defined: &Definitions,
    complaints: &mut SortedSet<ReducerDiagnostic>,
)
    requires
        standing.describe(events.deep_view()),
        defined.describe(events.deep_view()),
    ensures
        final(complaints).deep_view() == old(complaints).deep_view().union(
            gathered(
                events.deep_view().to_multiset(),
                |event: ReducerEventView| reference_complaints(events.deep_view().to_multiset(), event),
            ),
        ),
{
    let ghost list = events.deep_view();
    let ghost members = list.to_multiset();
    let ghost share = |event: ReducerEventView| reference_complaints(members, event);
    let ghost start = complaints.deep_view();
    proof {
        gathered_none(list, share);
        assert(start =~= start.union(Set::empty()));
    }
    let mut index: usize = 0;
    while index < events.len()
        invariant
            index <= events@.len(),
            list == events.deep_view(),
            members == list.to_multiset(),
            share == (|event: ReducerEventView| reference_complaints(members, event)),
            standing.describe(events.deep_view()),
            defined.describe(events.deep_view()),
            complaints.deep_view() == start.union(gathered_first(list, share, index as int)),
        decreases events@.len() - index,
    {
        complain_of_references_at(events, index, standing, defined, complaints);
        proof {
            gathered_next(list, share, index as int);
            assert(complaints.deep_view() =~= start.union(gathered_first(list, share, index + 1)));
        }
        index = index + 1;
    }
    proof {
        gathered_whole(list, share);
    }
}

fn complain_of_references_at(
    events: &Vec<ReducerEvent>,
    at: usize,
    standing: &Standing,
    defined: &Definitions,
    complaints: &mut SortedSet<ReducerDiagnostic>,
)
    requires
        at < events@.len(),
        standing.describe(events.deep_view()),
        defined.describe(events.deep_view()),
    ensures
        final(complaints).deep_view() == old(complaints).deep_view().union(
            reference_complaints(events.deep_view().to_multiset(), events.deep_view()[at as int]),
        ),
{
    let ghost list = events.deep_view();
    let ghost members = list.to_multiset();
    let ghost start = complaints.deep_view();
    assert(list[at as int] == events@[at as int].deep_view());
    if let ReducerPayload::EngineeringReferenceRecorded { context_id, revision_id, reference } = &events[at].payload {
        if is_unique_reference(events, at, standing, defined) {
            let text = reference.reference_id.to_string();
            let event_id = events[at].event_id;
            match reference.validate() {
                Err(error) => {
                    let message = joined4(
                        "engineering reference ",
                        text.as_str(),
                        " is invalid: ",
                        error.message(),
                    );
                    add_event_diagnostic(
                        complaints,
                        ReducerDiagnosticCode::InvalidEngineeringReference,
                        text.as_str(),
                        event_id,
                        message,
                    );
                },
                Ok(_) => {
                    let context = context_id.to_string();
                    if !does_context_live(events, &standing.live, *context_id) {
                        assert(!context_lives(members, *context_id));
                        let message = joined4(
                            "engineering reference ",
                            text.as_str(),
                            " targets missing or quarantined context ",
                            context.as_str(),
                        );
                        add_event_diagnostic(
                            complaints,
                            ReducerDiagnosticCode::InvalidEngineeringReferenceTarget,
                            text.as_str(),
                            event_id,
                            message,
                        );
                    } else if find_target(events, standing, *context_id, *revision_id).is_none() {
                        assert(context_lives(members, *context_id));
                        let revision = revision_id.to_string();
                        let owner = joined4(
                            text.as_str(),
                            " revision ",
                            revision.as_str(),
                            " does not belong to context ",
                        );
                        let message = joined3("engineering reference ", owner.as_str(), context.as_str());
                        assert(message@ =~= "engineering reference "@ + text@ + " revision "@ + revision@
                            + " does not belong to context "@ + context@);
                        add_event_diagnostic(
                            complaints,
                            ReducerDiagnosticCode::InvalidEngineeringReferenceTarget,
                            text.as_str(),
                            event_id,
                            message,
                        );
                    } else {
                        assert(context_lives(members, *context_id));
                    }
                },
            }
        }
    }
    assert(complaints.deep_view() =~= start.union(reference_complaints(members, list[at as int])));
}

/// A reference identity that nothing else defines holds one reference.
pub proof fn reference_entries_agree(events: Multiset<ReducerEventView>)
    ensures
        one_value_each(events, |event: ReducerEventView| reference_entry(events, event)),
{
    let entry = |event: ReducerEventView| reference_entry(events, event);
    assert forall|a: ReducerEventView, b: ReducerEventView| #[trigger]
        events.contains(a) && #[trigger] events.contains(b) && entry(a) is Some && entry(b) is Some && entry(
            a,
        )->Some_0.0 == entry(b)->Some_0.0 implies entry(a) == entry(b) by {
        if a != b {
            let own = definition(DefinitionKind::Reference, reference_of(a)->Some_0.2.reference_id);
            let first = definitions(a);
            let second = definitions(b);
            assert(first[1] == own && second[1] == own);
            assert(first.contains(own) && second.contains(own));
            crate::gather::different_are_many(
                events,
                |event: ReducerEventView| defines(event, own),
                a,
                b,
            );
        }
    }
}

/// Projects the valid references.
pub fn project_references(
    events: &Vec<ReducerEvent>,
    standing: &Standing,
    defined: &Definitions,
) -> (map: SortedMap<ReferenceId, EngineeringReferenceProjection>)
    requires
        standing.describe(events.deep_view()),
        defined.describe(events.deep_view()),
    ensures
        map.deep_view() == keyed(
            events.deep_view().to_multiset(),
            |event: ReducerEventView| reference_entry(events.deep_view().to_multiset(), event),
        ),
{
    let ghost list = events.deep_view();
    let ghost members = list.to_multiset();
    let ghost entry = |event: ReducerEventView| reference_entry(members, event);
    proof {
        reference_entries_agree(members);
    }
    let mut map: SortedMap<ReferenceId, EngineeringReferenceProjection> = SortedMap::new();
    let mut index: usize = 0;
    while index < events.len()
        invariant
            index <= events@.len(),
            list == events.deep_view(),
            members == list.to_multiset(),
            entry == (|event: ReducerEventView| reference_entry(members, event)),
            one_value_each(members, entry),
            standing.describe(events.deep_view()),
            defined.describe(events.deep_view()),
            holds_first(map.deep_view(), list, entry, index as int),
        decreases events@.len() - index,
    {
        let found = project_references_at(events, index, standing, defined);
        proof {
            holds_next(map.deep_view(), list, entry, index as int);
        }
        if let Some((key, value)) = found {
            map.insert(key, value);
        }
        index = index + 1;
    }
    proof {
        holds_whole(map.deep_view(), list, entry);
    }
    map
}

fn project_references_at(
    events: &Vec<ReducerEvent>,
    at: usize,
    standing: &Standing,
    defined: &Definitions,
) -> (entry: Option<(ReferenceId, EngineeringReferenceProjection)>)
    requires
        at < events@.len(),
        standing.describe(events.deep_view()),
        defined.describe(events.deep_view()),
    ensures
        entry.deep_view() == reference_entry(events.deep_view().to_multiset(), events.deep_view()[at as int]),
{
    let ghost list = events.deep_view();
    assert(list[at as int] == events@[at as int].deep_view());
    match &events[at].payload {
        ReducerPayload::EngineeringReferenceRecorded { context_id, revision_id, reference } => {
            if !is_unique_reference(events, at, standing, defined) {
                return None;
            }
            if let Err(_) = reference.validate() {
                return None;
            }
            match find_target(events, standing, *context_id, *revision_id) {
                Some(space_id) => Some(
                    (
                        reference.reference_id,
                        EngineeringReferenceProjection {
                            event_id: events[at].event_id,
                            space_id,
                            context_id: *context_id,
                            revision_id: *revision_id,
                            reference: reference.copied(),
                        },
                    ),
                ),
                None => None,
            }
        },
        _ => None,
    }
}

} // verus!
