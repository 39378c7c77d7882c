//! What events define, which definitions collide, and which events are sound.

use vstd::multiset::Multiset;
use vstd::prelude::*;

use crate::collections::SortedSet;
use crate::events::{
    ReducerDiagnostic, ReducerDiagnosticCode, ReducerDiagnosticView, ReducerEvent, ReducerEventView,
    ReducerPayload, ReducerPayloadView,
};
use crate::gather::{
    different_are_many, flags_are, gathered, gathered_first, gathered_next, gathered_none, gathered_whole,
    is_member, many, many_at, place_in, places_of_many,
};
use crate::ids::{
    hyphenated, uuid_text, CandidateId, ConfirmationId, ConflictId, EventId, EvidenceId, Identifier,
    PublicationId, ReferenceId, ResolutionId, ReviewId, RevisionId, SpaceAssociationId, SpaceId, SubmissionId,
};
use crate::order::set_listing;
use crate::text::{joined2, joined3};
use crate::value::Value;

verus! {

/// What an event can define, each by an identity of its own.
#[derive(Clone, Copy, Debug, PartialEq, Eq, Structural)]
pub enum DefinitionKind {
    Event,
    Candidate,
    Submission,
    Confirmation,
    ConfirmedCandidate,
    Association,
    SpaceCreation,
    IntentRevision,
    ContextRevision,
    Review,
    Publication,
    Evidence,
    Conflict,
    Resolution,
    Reference,
}

impl DeepView for DefinitionKind {
    type V = DefinitionKind;

    open spec fn deep_view(&self) -> DefinitionKind {
        *self
    }
}

impl Value for DefinitionKind {
    fn copied(&self) -> (copy: Self) {
        *self
    }

    fn same(&self, other: &Self) -> (equal: bool) {
        *self == *other
    }
}

/// One identity that an event defines.
#[derive(Clone, Copy, Debug, PartialEq, Eq, Structural)]
pub struct Definition {
    pub kind: DefinitionKind,
    pub number: u128,
}

impl DeepView for Definition {
    type V = Definition;

    open spec fn deep_view(&self) -> Definition {
        *self
    }
}

impl Value for Definition {
    fn copied(&self) -> (copy: Self) {
        *self
    }

    fn same(&self, other: &Self) -> (equal: bool) {
        *self == *other
    }
}

/// A definition of a kind.
pub open spec fn definition<I: Identifier>(kind: DefinitionKind, id: I) -> Definition {
    Definition { kind, number: id.number() }
}

/// The identities of the evidence of a revision.
pub open spec fn evidence_definitions(evidence: Seq<crate::model::EvidenceSnapshotView>) -> Seq<Definition> {
    Seq::new(evidence.len(), |i: int| definition(DefinitionKind::Evidence, evidence[i].evidence_id))
}

/// What the payload of an event defines.
pub open spec fn payload_definitions(payload: ReducerPayloadView) -> Seq<Definition> {
    match payload {
        ReducerPayloadView::ContextCandidateCreated { candidate } => seq![
            definition(DefinitionKind::Candidate, candidate.candidate_id),
            definition(DefinitionKind::Submission, candidate.submission_id),
        ],
        ReducerPayloadView::CandidateConfirmed { confirmation } => seq![
            definition(DefinitionKind::Confirmation, confirmation.confirmation_id),
            definition(DefinitionKind::ConfirmedCandidate, confirmation.candidate_id),
        ],
        ReducerPayloadView::SpaceCreated { space_id, intent_revision } => seq![
            definition(DefinitionKind::SpaceCreation, space_id),
            definition(DefinitionKind::IntentRevision, intent_revision.revision_id),
        ],
        ReducerPayloadView::SpaceIntentRevisionAdded { space_id: _, intent_revision } => seq![
            definition(DefinitionKind::IntentRevision, intent_revision.revision_id),
        ],
        ReducerPayloadView::ContextRevisionAdded { space_id: _, context_id: _, revision } => seq![
            definition(DefinitionKind::ContextRevision, revision.revision_id),
        ] + evidence_definitions(revision.evidence),
        ReducerPayloadView::ContextReviewed { space_id: _, context_id: _, review } => seq![
            definition(DefinitionKind::Review, review.review_id),
        ],
        ReducerPayloadView::ContextPublicationChanged { space_id: _, context_id: _, publication } => seq![
            definition(DefinitionKind::Publication, publication.publication_id),
        ],
        ReducerPayloadView::ContextSpaceAssociationChanged { association } => seq![
            definition(DefinitionKind::Association, association.association_id),
        ],
        ReducerPayloadView::SemanticConflictOpened { space_id: _, conflict } => seq![
            definition(DefinitionKind::Conflict, conflict.conflict_id),
        ],
        ReducerPayloadView::SemanticConflictResolutionAdded { space_id: _, conflict_id: _, resolution } => seq![
            definition(DefinitionKind::Resolution, resolution.resolution_id),
        ],
        ReducerPayloadView::EngineeringReferenceRecorded { context_id: _, revision_id: _, reference } => seq![
            definition(DefinitionKind::Reference, reference.reference_id),
        ],
    }
}

/// What an event defines.
pub open spec fn definitions(event: ReducerEventView) -> Seq<Definition> {
    seq![definition(DefinitionKind::Event, event.event_id)] + payload_definitions(event.payload)
}

/// Whether an event defines something.
pub open spec fn defines(event: ReducerEventView, defined: Definition) -> bool {
    definitions(event).contains(defined)
}

/// Whether one event defines something more than once.
pub open spec fn repeats(event: ReducerEventView, defined: Definition) -> bool {
    exists|i: int, j: int|
        0 <= i < j < definitions(event).len() && #[trigger] definitions(event)[i] == defined && #[trigger] definitions(
            event,
        )[j] == defined
}

/// Whether something has more than one definition.
pub open spec fn duplicated(events: Multiset<ReducerEventView>, defined: Definition) -> bool {
    many(events, |event: ReducerEventView| defines(event, defined)) || exists|event: ReducerEventView| #[trigger]
        events.contains(event) && repeats(event, defined)
}

/// Whether a second definition disqualifies the events that define a kind. A Space created twice
/// only loses the Space, and a reference recorded twice only the reference.
pub open spec fn disqualifies(kind: DefinitionKind) -> bool {
    kind != DefinitionKind::SpaceCreation && kind != DefinitionKind::Reference
}

/// Whether a revision identity is defined by an intent and by a Context.
pub open spec fn crosses_kinds(events: Multiset<ReducerEventView>, number: u128) -> bool {
    is_defined(events, Definition { kind: DefinitionKind::IntentRevision, number }) && is_defined(
        events,
        Definition { kind: DefinitionKind::ContextRevision, number },
    )
}

/// Whether some event defines something.
pub open spec fn is_defined(events: Multiset<ReducerEventView>, defined: Definition) -> bool {
    exists|event: ReducerEventView| #[trigger] events.contains(event) && defines(event, defined)
}

/// Whether a definition disqualifies the event that holds it.
pub open spec fn collides(events: Multiset<ReducerEventView>, defined: Definition) -> bool {
    ||| disqualifies(defined.kind) && duplicated(events, defined)
    ||| defined.kind == DefinitionKind::IntentRevision && crosses_kinds(events, defined.number)
    ||| defined.kind == DefinitionKind::ContextRevision && crosses_kinds(events, defined.number)
}

/// Whether an event is present and none of its definitions collides.
pub open spec fn sound(events: Multiset<ReducerEventView>, event: ReducerEventView) -> bool {
    events.contains(event) && forall|i: int|
        0 <= i < definitions(event).len() ==> !collides(events, #[trigger] definitions(event)[i])
}

/// Among sound events a definition has one owner.
pub proof fn sound_definitions_are_unique(
    events: Multiset<ReducerEventView>,
    a: ReducerEventView,
    b: ReducerEventView,
    defined: Definition,
)
    requires
        sound(events, a),
        events.contains(b),
        disqualifies(defined.kind),
        defines(a, defined),
        defines(b, defined),
    ensures
        a == b,
{
    if a != b {
        different_are_many(events, |event: ReducerEventView| defines(event, defined), a, b);
        let i = choose|i: int| 0 <= i < definitions(a).len() && definitions(a)[i] == defined;
        assert(collides(events, definitions(a)[i]));
    }
}

/// An event with a duplicated identity, or one that another kind of revision uses too, is never
/// sound, whichever of the colliding events it is: no winner is selected.
pub proof fn colliding_events_are_unsound(
    events: Multiset<ReducerEventView>,
    event: ReducerEventView,
    defined: Definition,
)
    requires
        defines(event, defined),
        collides(events, defined),
    ensures
        !sound(events, event),
{
    let i = choose|i: int| 0 <= i < definitions(event).len() && definitions(event)[i] == defined;
    assert(collides(events, definitions(event)[i]));
}

/// The events that define something.
pub open spec fn definers(events: Multiset<ReducerEventView>, defined: Definition) -> Set<EventId> {
    gathered(
        events,
        |event: ReducerEventView|
            if defines(event, defined) {
                Set::empty().insert(event.event_id)
            } else {
                Set::empty()
            },
    )
}

/// A diagnostic about an entity.
pub open spec fn diagnostic(
    code: ReducerDiagnosticCode,
    entity_id: Seq<char>,
    event_ids: Set<EventId>,
    message: Seq<char>,
) -> ReducerDiagnosticView {
    ReducerDiagnosticView { code, entity_id, event_ids: set_listing::<EventId>(event_ids), message }
}

/// The set of one event.
pub open spec fn one_event(event_id: EventId) -> Set<EventId> {
    Set::empty().insert(event_id)
}

/// How an identity of a kind is written.
pub open spec fn kind_prefix(kind: DefinitionKind) -> Seq<char> {
    match kind {
        DefinitionKind::Event => EventId::prefix(),
        DefinitionKind::Candidate => CandidateId::prefix(),
        DefinitionKind::Submission => SubmissionId::prefix(),
        DefinitionKind::Confirmation => ConfirmationId::prefix(),
        DefinitionKind::ConfirmedCandidate => CandidateId::prefix(),
        DefinitionKind::Association => SpaceAssociationId::prefix(),
        DefinitionKind::SpaceCreation => SpaceId::prefix(),
        DefinitionKind::IntentRevision => RevisionId::prefix(),
        DefinitionKind::ContextRevision => RevisionId::prefix(),
        DefinitionKind::Review => ReviewId::prefix(),
        DefinitionKind::Publication => PublicationId::prefix(),
        DefinitionKind::Evidence => EvidenceId::prefix(),
        DefinitionKind::Conflict => ConflictId::prefix(),
        DefinitionKind::Resolution => ResolutionId::prefix(),
        DefinitionKind::Reference => ReferenceId::prefix(),
    }
}

/// How what is defined is written.
pub open spec fn definition_text(defined: Definition) -> Seq<char> {
    kind_prefix(defined.kind) + hyphenated(defined.number)
}

/// What names a kind in front of a duplicated identity.
pub open spec fn kind_name(kind: DefinitionKind) -> Seq<char> {
    match kind {
        DefinitionKind::Event => "event ID "@,
        DefinitionKind::Candidate => "candidate ID "@,
        DefinitionKind::Submission => "submission ID "@,
        DefinitionKind::Confirmation => "confirmation ID "@,
        DefinitionKind::ConfirmedCandidate => "candidate "@,
        DefinitionKind::Association => "Space Association ID "@,
        DefinitionKind::SpaceCreation => "space "@,
        DefinitionKind::IntentRevision => "revision ID "@,
        DefinitionKind::ContextRevision => "revision ID "@,
        DefinitionKind::Review => "review ID "@,
        DefinitionKind::Publication => "publication ID "@,
        DefinitionKind::Evidence => "evidence ID "@,
        DefinitionKind::Conflict => "conflict ID "@,
        DefinitionKind::Resolution => "resolution ID "@,
        DefinitionKind::Reference => "engineering reference ID "@,
    }
}

/// What is said behind a duplicated identity.
pub open spec fn kind_complaint(kind: DefinitionKind) -> Seq<char> {
    match kind {
        DefinitionKind::Submission => " has multiple Candidate definitions"@,
        DefinitionKind::ConfirmedCandidate => " has multiple Confirmation Events; no result is selected"@,
        DefinitionKind::SpaceCreation => " has multiple creation events"@,
        _ => " has multiple definitions"@,
    }
}

/// How a duplicated identity of a kind is classified.
pub open spec fn kind_code(kind: DefinitionKind) -> ReducerDiagnosticCode {
    match kind {
        DefinitionKind::Event => ReducerDiagnosticCode::DuplicateEventId,
        DefinitionKind::Candidate => ReducerDiagnosticCode::DuplicateCandidateId,
        DefinitionKind::Submission => ReducerDiagnosticCode::DuplicateSubmissionId,
        DefinitionKind::Confirmation => ReducerDiagnosticCode::DuplicateConfirmationId,
        DefinitionKind::ConfirmedCandidate => ReducerDiagnosticCode::CandidateConfirmationConflict,
        DefinitionKind::Association => ReducerDiagnosticCode::DuplicateSpaceAssociationId,
        DefinitionKind::SpaceCreation => ReducerDiagnosticCode::DuplicateSpaceCreation,
        DefinitionKind::IntentRevision => ReducerDiagnosticCode::DuplicateRevisionId,
        DefinitionKind::ContextRevision => ReducerDiagnosticCode::DuplicateRevisionId,
        DefinitionKind::Review => ReducerDiagnosticCode::DuplicateReviewId,
        DefinitionKind::Publication => ReducerDiagnosticCode::DuplicatePublicationId,
        DefinitionKind::Evidence => ReducerDiagnosticCode::DuplicateEvidenceId,
        DefinitionKind::Conflict => ReducerDiagnosticCode::DuplicateConflictId,
        DefinitionKind::Resolution => ReducerDiagnosticCode::DuplicateResolutionId,
        DefinitionKind::Reference => ReducerDiagnosticCode::DuplicateReferenceId,
    }
}

/// The diagnostic of a duplicated definition.
pub open spec fn duplicate_diagnostic(
    events: Multiset<ReducerEventView>,
    defined: Definition,
) -> ReducerDiagnosticView {
    diagnostic(
        kind_code(defined.kind),
        definition_text(defined),
        definers(events, defined),
        kind_name(defined.kind) + definition_text(defined) + kind_complaint(defined.kind),
    )
}

/// The diagnostic of a revision identity that an intent and a Context define.
pub open spec fn crossing_diagnostic(events: Multiset<ReducerEventView>, number: u128) -> ReducerDiagnosticView {
    let intent = Definition { kind: DefinitionKind::IntentRevision, number };
    let context = Definition { kind: DefinitionKind::ContextRevision, number };
    diagnostic(
        ReducerDiagnosticCode::DuplicateRevisionId,
        definition_text(intent),
        definers(events, intent).union(definers(events, context)),
        "revision ID "@ + definition_text(intent) + " is defined by multiple aggregate kinds"@,
    )
}

/// What one definition contributes to the diagnostics.
pub open spec fn definition_complaints(
    events: Multiset<ReducerEventView>,
    defined: Definition,
) -> Set<ReducerDiagnosticView> {
    let duplicates = if duplicated(events, defined) {
        Set::empty().insert(duplicate_diagnostic(events, defined))
    } else {
        Set::empty()
    };
    if defined.kind == DefinitionKind::IntentRevision && crosses_kinds(events, defined.number) {
        duplicates.insert(crossing_diagnostic(events, defined.number))
    } else {
        duplicates
    }
}

/// What the definitions of an event contribute to the diagnostics.
pub open spec fn duplicate_complaints(
    events: Multiset<ReducerEventView>,
    event: ReducerEventView,
) -> Set<ReducerDiagnosticView> {
    Set::new(
        |complaint: ReducerDiagnosticView| exists|i: int|
            0 <= i < definitions(event).len() && definition_complaints(
                events,
                #[trigger] definitions(event)[i],
            ).contains(complaint),
    )
}

/// The events, the definitions they hold, and their models.
pub struct Definitions {
    pub lists: Vec<Vec<Definition>>,
}

impl Definitions {
    /// Whether these are the definitions of a list of events.
    pub open spec fn describe(self, events: Seq<ReducerEventView>) -> bool {
        &&& self.lists@.len() == events.len()
        &&& forall|i: int| 0 <= i < events.len() ==> (#[trigger] self.lists@[i])@ == definitions(events[i])
    }
}

fn push_definition<I: Identifier>(list: &mut Vec<Definition>, kind: DefinitionKind, id: I)
    ensures
        final(list)@ == old(list)@.push(definition(kind, id)),
{
    list.push(Definition { kind, number: id.get() });
}

/// Lists what an event defines.
pub fn definitions_of(event: &ReducerEvent) -> (list: Vec<Definition>)
    ensures
        list@ == definitions(event.deep_view()),
{
    let ghost model = event.deep_view();
    let mut list: Vec<Definition> = Vec::new();
    push_definition(&mut list, DefinitionKind::Event, event.event_id);
    match &event.payload {
        ReducerPayload::ContextCandidateCreated { candidate } => {
            push_definition(&mut list, DefinitionKind::Candidate, candidate.candidate_id);
            push_definition(&mut list, DefinitionKind::Submission, candidate.submission_id);
        },
        ReducerPayload::CandidateConfirmed { confirmation } => {
            push_definition(&mut list, DefinitionKind::Confirmation, confirmation.confirmation_id);
            push_definition(&mut list, DefinitionKind::ConfirmedCandidate, confirmation.candidate_id);
        },
        ReducerPayload::SpaceCreated { space_id, intent_revision } => {
            push_definition(&mut list, DefinitionKind::SpaceCreation, *space_id);
            push_definition(&mut list, DefinitionKind::IntentRevision, intent_revision.revision_id);
        },
        ReducerPayload::SpaceIntentRevisionAdded { space_id: _, intent_revision } => {
            push_definition(&mut list, DefinitionKind::IntentRevision, intent_revision.revision_id);
        },
        ReducerPayload::ContextRevisionAdded { space_id: _, context_id: _, revision } => {
            push_definition(&mut list, DefinitionKind::ContextRevision, revision.revision_id);
            let ghost start = list@;
            let ghost evidence = revision.evidence.deep_view();
            let mut index: usize = 0;
            while index < revision.evidence.len()
                invariant
                    index <= revision.evidence@.len(),
                    evidence == revision.evidence.deep_view(),
                    list@ == start + evidence_definitions(evidence).take(index as int),
                decreases revision.evidence@.len() - index,
            {
                assert(evidence[index as int] == revision.evidence@[index as int].deep_view());
                push_definition(&mut list, DefinitionKind::Evidence, revision.evidence[index].evidence_id);
                assert(evidence_definitions(evidence).take(index + 1) =~= evidence_definitions(evidence).take(
                    index as int,
                ).push(definition(DefinitionKind::Evidence, evidence[index as int].evidence_id)));
                index = index + 1;
            }
            assert(evidence_definitions(evidence).take(index as int) =~= evidence_definitions(evidence));
        },
        ReducerPayload::ContextReviewed { space_id: _, context_id: _, review } => {
            push_definition(&mut list, DefinitionKind::Review, review.review_id);
        },
        ReducerPayload::ContextPublicationChanged { space_id: _, context_id: _, publication } => {
            push_definition(&mut list, DefinitionKind::Publication, publication.publication_id);
        },
        ReducerPayload::ContextSpaceAssociationChanged { association } => {
            push_definition(&mut list, DefinitionKind::Association, association.association_id);
        },
        ReducerPayload::SemanticConflictOpened { space_id: _, conflict } => {
            push_definition(&mut list, DefinitionKind::Conflict, conflict.conflict_id);
        },
        ReducerPayload::SemanticConflictResolutionAdded { space_id: _, conflict_id: _, resolution } => {
            push_definition(&mut list, DefinitionKind::Resolution, resolution.resolution_id);
        },
        ReducerPayload::EngineeringReferenceRecorded { context_id: _, revision_id: _, reference } => {
            push_definition(&mut list, DefinitionKind::Reference, reference.reference_id);
        },
    }
    assert(list@ =~= definitions(model));
    list
}

impl Definitions {
    /// Lists what each event defines.
    pub fn of(events: &Vec<ReducerEvent>) -> (all: Definitions)
        ensures
            all.describe(events.deep_view()),
    {
        let mut lists: Vec<Vec<Definition>> = Vec::new();
        let mut index: usize = 0;
        while index < events.len()
            invariant
                index <= events@.len(),
                lists@.len() == index,
                forall|i: int| 0 <= i < index ==> (#[trigger] lists@[i])@ == definitions(events@[i].deep_view()),
            decreases events@.len() - index,
        {
            lists.push(definitions_of(&events[index]));
            index = index + 1;
        }
        Definitions { lists }
    }

    /// Whether one event defines something.
    fn defines_at(&self, Ghost(events): Ghost<Seq<ReducerEventView>>, at: usize, defined: Definition) -> (found: bool)
        requires
            self.describe(events),
            at < events.len(),
        ensures
            found == defines(events[at as int], defined),
    {
        let list = &self.lists[at];
        let mut index: usize = 0;
        while index < list.len()
            invariant
                index <= list@.len(),
                list@ == definitions(events[at as int]),
                forall|i: int| 0 <= i < index ==> list@[i] != defined,
            decreases list@.len() - index,
        {
            if list[index] == defined {
                assert(list@.contains(defined));
                return true;
            }
            index = index + 1;
        }
        false
    }

    /// Whether one event defines something more than once.
    fn repeats_at(&self, Ghost(events): Ghost<Seq<ReducerEventView>>, at: usize, defined: Definition) -> (found: bool)
        requires
            self.describe(events),
            at < events.len(),
        ensures
            found == repeats(events[at as int], defined),
    {
        let list = &self.lists[at];
        let mut seen = false;
        let ghost mut first: int = 0;
        let mut index: usize = 0;
        while index < list.len()
            invariant
                index <= list@.len(),
                list@ == definitions(events[at as int]),
                seen ==> 0 <= first < index && list@[first] == defined,
                forall|i: int| 0 <= i < index && #[trigger] list@[i] == defined ==> seen && i == first,
            decreases list@.len() - index,
        {
            if list[index] == defined {
                if seen {
                    assert(definitions(events[at as int])[first] == defined);
                    assert(definitions(events[at as int])[index as int] == defined);
                    return true;
                }
                seen = true;
                proof {
                    first = index as int;
                }
            }
            index = index + 1;
        }
        proof {
            if repeats(events[at as int], defined) {
                let (i, j) = choose|i: int, j: int|
                    0 <= i < j < definitions(events[at as int]).len() && #[trigger] definitions(events[at as int])[i]
                        == defined && #[trigger] definitions(events[at as int])[j] == defined;
                assert(list@[i] == defined && list@[j] == defined);
            }
        }
        false
    }

    /// Whether some event defines something.
    pub fn has(&self, Ghost(events): Ghost<Seq<ReducerEventView>>, defined: Definition) -> (found: bool)
        requires
            self.describe(events),
        ensures
            found == is_defined(events.to_multiset(), defined),
    {
        let mut index: usize = 0;
        while index < self.lists.len()
            invariant
                index <= self.lists@.len(),
                self.describe(events),
                forall|i: int| 0 <= i < index ==> !defines(#[trigger] events[i], defined),
            decreases self.lists@.len() - index,
        {
            if self.defines_at(Ghost(events), index, defined) {
                proof {
                    is_member(events, index as int);
                }
                return true;
            }
            index = index + 1;
        }
        proof {
            if is_defined(events.to_multiset(), defined) {
                let event = choose|event: ReducerEventView| #[trigger]
                    events.to_multiset().contains(event) && defines(event, defined);
                let i = place_in(events, event);
            }
        }
        false
    }

    /// Whether something has more than one definition.
    pub fn is_duplicated(&self, Ghost(events): Ghost<Seq<ReducerEventView>>, defined: Definition) -> (found: bool)
        requires
            self.describe(events),
        ensures
            found == duplicated(events.to_multiset(), defined),
    {
        let ghost property = |event: ReducerEventView| defines(event, defined);
        let mut seen = false;
        let ghost mut first: int = 0;
        let mut index: usize = 0;
        while index < self.lists.len()
            invariant
                index <= self.lists@.len(),
                self.describe(events),
                property == (|event: ReducerEventView| defines(event, defined)),
                seen ==> 0 <= first < index && defines(events[first], defined),
                forall|i: int| 0 <= i < index && defines(#[trigger] events[i], defined) ==> seen && i == first,
                forall|i: int| 0 <= i < index ==> !repeats(#[trigger] events[i], defined),
            decreases self.lists@.len() - index,
        {
            if self.repeats_at(Ghost(events), index, defined) {
                proof {
                    is_member(events, index as int);
                }
                return true;
            }
            if self.defines_at(Ghost(events), index, defined) {
                if seen {
                    proof {
                        many_at(events, property, first, index as int);
                    }
                    return true;
                }
                seen = true;
                proof {
                    first = index as int;
                }
            }
            index = index + 1;
        }
        proof {
            if many(events.to_multiset(), property) {
                let (i, j) = places_of_many(events, property);
                assert(defines(events[i], defined) && defines(events[j], defined));
            }
            if exists|event: ReducerEventView| #[trigger]
                events.to_multiset().contains(event) && repeats(event, defined) {
                let event = choose|event: ReducerEventView| #[trigger]
                    events.to_multiset().contains(event) && repeats(event, defined);
                let i = place_in(events, event);
                assert(repeats(events[i], defined));
            }
        }
        false
    }

    /// Whether a revision identity is defined by an intent and by a Context.
    fn crosses(&self, Ghost(events): Ghost<Seq<ReducerEventView>>, number: u128) -> (found: bool)
        requires
            self.describe(events),
        ensures
            found == crosses_kinds(events.to_multiset(), number),
    {
        self.has(Ghost(events), Definition { kind: DefinitionKind::IntentRevision, number }) && self.has(
            Ghost(events),
            Definition { kind: DefinitionKind::ContextRevision, number },
        )
    }

    /// Whether a definition disqualifies the event that holds it.
    fn collision(&self, Ghost(events): Ghost<Seq<ReducerEventView>>, defined: Definition) -> (found: bool)
        requires
            self.describe(events),
        ensures
            found == collides(events.to_multiset(), defined),
    {
        match defined.kind {
            DefinitionKind::SpaceCreation | DefinitionKind::Reference => false,
            DefinitionKind::IntentRevision | DefinitionKind::ContextRevision => {
                self.is_duplicated(Ghost(events), defined) || self.crosses(Ghost(events), defined.number)
            },
            _ => self.is_duplicated(Ghost(events), defined),
        }
    }

    /// Which events are sound, place by place.
    pub fn sound_flags(&self, Ghost(events): Ghost<Seq<ReducerEventView>>) -> (flags: Vec<bool>)
        requires
            self.describe(events),
        ensures
            flags_are(flags@, events, |event: ReducerEventView| sound(events.to_multiset(), event)),
    {
        let mut flags: Vec<bool> = Vec::new();
        let mut index: usize = 0;
        while index < self.lists.len()
            invariant
                index <= self.lists@.len(),
                self.describe(events),
                flags@.len() == index,
                forall|i: int| 0 <= i < index ==> #[trigger] flags@[i] == sound(events.to_multiset(), events[i]),
            decreases self.lists@.len() - index,
        {
            let list = &self.lists[index];
            let mut clean = true;
            let mut place: usize = 0;
            while place < list.len()
                invariant
                    place <= list@.len(),
                    self.describe(events),
                    list@ == definitions(events[index as int]),
                    clean == forall|i: int|
                        0 <= i < place ==> !collides(
                            events.to_multiset(),
                            #[trigger] definitions(events[index as int])[i],
                        ),
                decreases list@.len() - place,
            {
                let collision = self.collision(Ghost(events), list[place]);
                assert(list@[place as int] == definitions(events[index as int])[place as int]);
                if collision {
                    clean = false;
                }
                place = place + 1;
            }
            proof {
                is_member(events, index as int);
            }
            flags.push(clean);
            index = index + 1;
        }
        flags
    }

    /// Adds the events that define something.
    fn add_definers(&self, events: &Vec<ReducerEvent>, defined: Definition, ids: &mut SortedSet<EventId>)
        requires
            self.describe(events.deep_view()),
        ensures
            final(ids).deep_view() == old(ids).deep_view().union(
                definers(events.deep_view().to_multiset(), defined),
            ),
    {
        let ghost list = events.deep_view();
        let ghost share = |event: ReducerEventView|
            if defines(event, defined) {
                Set::<EventId>::empty().insert(event.event_id)
            } else {
                Set::empty()
            };
        let ghost start = ids.deep_view();
        let mut index: usize = 0;
        proof {
            gathered_none(list, share);
            assert(start =~= start.union(Set::empty()));
        }
        while index < events.len()
            invariant
                index <= events@.len(),
                list == events.deep_view(),
                self.describe(list),
                share == (|event: ReducerEventView|
                    if defines(event, defined) {
                        Set::<EventId>::empty().insert(event.event_id)
                    } else {
                        Set::empty()
                    }),
                ids.deep_view() == start.union(gathered_first(list, share, index as int)),
            decreases events@.len() - index,
        {
            proof {
                gathered_next(list, share, index as int);
                assert(list[index as int] == events@[index as int].deep_view());
            }
            if self.defines_at(Ghost(list), index, defined) {
                ids.insert(events[index].event_id);
            }
            assert(ids.deep_view() =~= start.union(gathered_first(list, share, index + 1)));
            index = index + 1;
        }
        proof {
            gathered_whole(list, share);
        }
    }

    /// Adds what one definition contributes to the diagnostics.
    fn complain(&self, events: &Vec<ReducerEvent>, defined: Definition, complaints: &mut SortedSet<ReducerDiagnostic>)
        requires
            self.describe(events.deep_view()),
        ensures
            final(complaints).deep_view() == old(complaints).deep_view().union(
                definition_complaints(events.deep_view().to_multiset(), defined),
            ),
    {
        let ghost list = events.deep_view();
        let ghost start = complaints.deep_view();
        let ghost members = list.to_multiset();
        let text = write_definition(defined);
        if self.is_duplicated(Ghost(list), defined) {
            let mut ids: SortedSet<EventId> = SortedSet::new();
            self.add_definers(events, defined, &mut ids);
            assert(ids.deep_view() =~= definers(members, defined));
            let message = joined3(name_of_kind(defined.kind), text.as_str(), complaint_of_kind(defined.kind));
            add_diagnostic(complaints, code_of_kind(defined.kind), text.as_str(), &ids, message);
        }
        if defined.kind == DefinitionKind::IntentRevision && self.crosses(Ghost(list), defined.number) {
            let mut ids: SortedSet<EventId> = SortedSet::new();
            self.add_definers(events, defined, &mut ids);
            self.add_definers(
                events,
                Definition { kind: DefinitionKind::ContextRevision, number: defined.number },
                &mut ids,
            );
            assert(ids.deep_view() =~= definers(members, defined).union(
                definers(members, Definition { kind: DefinitionKind::ContextRevision, number: defined.number }),
            ));
            let message = joined3("revision ID ", text.as_str(), " is defined by multiple aggregate kinds");
            add_diagnostic(complaints, ReducerDiagnosticCode::DuplicateRevisionId, text.as_str(), &ids, message);
        }
        assert(complaints.deep_view() =~= start.union(definition_complaints(members, defined)));
    }

    /// Adds what the definitions of all events contribute to the diagnostics.
    pub fn complain_of_duplicates(&self, events: &Vec<ReducerEvent>, complaints: &mut SortedSet<ReducerDiagnostic>)
        requires
            self.describe(events.deep_view()),
        ensures
            final(complaints).deep_view() == old(complaints).deep_view().union(
                gathered(
                    events.deep_view().to_multiset(),
                    |event: ReducerEventView| duplicate_complaints(events.deep_view().to_multiset(), event),
                ),
            ),
    {
        let ghost list = events.deep_view();
        let ghost members = list.to_multiset();
        let ghost share = |event: ReducerEventView| duplicate_complaints(members, event);
        let ghost start = complaints.deep_view();
        let mut index: usize = 0;
        proof {
            gathered_none(list, share);
            assert(start =~= start.union(Set::empty()));
        }
        while index < events.len()
            invariant
                index <= events@.len(),
                list == events.deep_view(),
                members == list.to_multiset(),
                self.describe(list),
                share == (|event: ReducerEventView| duplicate_complaints(members, event)),
                complaints.deep_view() == start.union(gathered_first(list, share, index as int)),
            decreases events@.len() - index,
        {
            self.complain_at(events, index, complaints);
            proof {
                gathered_next(list, share, index as int);
                assert(complaints.deep_view() =~= start.union(gathered_first(list, share, index + 1)));
            }
            index = index + 1;
        }
        proof {
            gathered_whole(list, share);
        }
    }

    fn complain_at(&self, events: &Vec<ReducerEvent>, at: usize, complaints: &mut SortedSet<ReducerDiagnostic>)
        requires
            self.describe(events.deep_view()),
            at < events@.len(),
        ensures
            final(complaints).deep_view() == old(complaints).deep_view().union(
                duplicate_complaints(events.deep_view().to_multiset(), events.deep_view()[at as int]),
            ),
    {
        let ghost list = events.deep_view();
        let ghost members = list.to_multiset();
        let ghost event = list[at as int];
        let ghost start = complaints.deep_view();
        let held = &self.lists[at];
        let mut index: usize = 0;
        let ghost share = |defined: Definition| definition_complaints(members, defined);
        proof {
            gathered_none(definitions(event), share);
            assert(start =~= start.union(Set::empty()));
        }
        while index < held.len()
            invariant
                index <= held@.len(),
                list == events.deep_view(),
                members == list.to_multiset(),
                self.describe(list),
                held@ == definitions(event),
                share == (|defined: Definition| definition_complaints(members, defined)),
                complaints.deep_view() == start.union(gathered_first(definitions(event), share, index as int)),
            decreases held@.len() - index,
        {
            self.complain(events, held[index], complaints);
            proof {
                gathered_next(definitions(event), share, index as int);
                assert(complaints.deep_view() =~= start.union(
                    gathered_first(definitions(event), share, index + 1),
                ));
            }
            index = index + 1;
        }
        assert(
            gathered_first(definitions(event), share, held@.len() as int) =~= duplicate_complaints(members, event)
        );
    }
}

/// Adds a diagnostic.
pub fn add_diagnostic(
    complaints: &mut SortedSet<ReducerDiagnostic>,
    code: ReducerDiagnosticCode,
    entity_id: &str,
    event_ids: &SortedSet<EventId>,
    message: String,
)
    ensures
        final(complaints).deep_view() == old(complaints).deep_view().insert(
            diagnostic(code, entity_id@, event_ids.deep_view(), message@),
        ),
{
    complaints.insert(
        ReducerDiagnostic { code, entity_id: entity_id.to_owned(), event_ids: event_ids.items().copied(), message },
    );
}

/// Adds a diagnostic about one event.
pub fn add_event_diagnostic(
    complaints: &mut SortedSet<ReducerDiagnostic>,
    code: ReducerDiagnosticCode,
    entity_id: &str,
    event_id: EventId,
    message: String,
)
    ensures
        final(complaints).deep_view() == old(complaints).deep_view().insert(
            diagnostic(code, entity_id@, one_event(event_id), message@),
        ),
{
    let ids: SortedSet<EventId> = SortedSet::of(event_id);
    add_diagnostic(complaints, code, entity_id, &ids, message);
}

fn write_definition(defined: Definition) -> (text: String)
    ensures
        text@ == definition_text(defined),
{
    let uuid = uuid_text(defined.number);
    joined2(prefix_of_kind(defined.kind), uuid.as_str())
}

fn prefix_of_kind(kind: DefinitionKind) -> (result: &'static str)
    ensures
        result@ == kind_prefix(kind),
{
    match kind {
        DefinitionKind::Event => "evt_",
        DefinitionKind::Candidate => "cnd_",
        DefinitionKind::Submission => "sub_",
        DefinitionKind::Confirmation => "cfm_",
        DefinitionKind::ConfirmedCandidate => "cnd_",
        DefinitionKind::Association => "asc_",
        DefinitionKind::SpaceCreation => "spc_",
        DefinitionKind::IntentRevision => "rev_",
        DefinitionKind::ContextRevision => "rev_",
        DefinitionKind::Review => "rvw_",
        DefinitionKind::Publication => "pub_",
        DefinitionKind::Evidence => "evd_",
        DefinitionKind::Conflict => "cnf_",
        DefinitionKind::Resolution => "rsl_",
        DefinitionKind::Reference => "ref_",
    }
}

fn name_of_kind(kind: DefinitionKind) -> (result: &'static str)
    ensures
        result@ == kind_name(kind),
{
    match kind {
        DefinitionKind::Event => "event ID ",
        DefinitionKind::Candidate => "candidate ID ",
        DefinitionKind::Submission => "submission ID ",
        DefinitionKind::Confirmation => "confirmation ID ",
        DefinitionKind::ConfirmedCandidate => "candidate ",
        DefinitionKind::Association => "Space Association ID ",
        DefinitionKind::SpaceCreation => "space ",
        DefinitionKind::IntentRevision => "revision ID ",
        DefinitionKind::ContextRevision => "revision ID ",
        DefinitionKind::Review => "review ID ",
        DefinitionKind::Publication => "publication ID ",
        DefinitionKind::Evidence => "evidence ID ",
        DefinitionKind::Conflict => "conflict ID ",
        DefinitionKind::Resolution => "resolution ID ",
        DefinitionKind::Reference => "engineering reference ID ",
    }
}

fn complaint_of_kind(kind: DefinitionKind) -> (result: &'static str)
    ensures
        result@ == kind_complaint(kind),
{
    match kind {
        DefinitionKind::Submission => " has multiple Candidate definitions",
        DefinitionKind::ConfirmedCandidate => " has multiple Confirmation Events; no result is selected",
        DefinitionKind::SpaceCreation => " has multiple creation events",
        _ => " has multiple definitions",
    }
}

fn code_of_kind(kind: DefinitionKind) -> (result: ReducerDiagnosticCode)
    ensures
        result == kind_code(kind),
{
    match kind {
        DefinitionKind::Event => ReducerDiagnosticCode::DuplicateEventId,
        DefinitionKind::Candidate => ReducerDiagnosticCode::DuplicateCandidateId,
        DefinitionKind::Submission => ReducerDiagnosticCode::DuplicateSubmissionId,
        DefinitionKind::Confirmation => ReducerDiagnosticCode::DuplicateConfirmationId,
        DefinitionKind::ConfirmedCandidate => ReducerDiagnosticCode::CandidateConfirmationConflict,
        DefinitionKind::Association => ReducerDiagnosticCode::DuplicateSpaceAssociationId,
        DefinitionKind::SpaceCreation => ReducerDiagnosticCode::DuplicateSpaceCreation,
        DefinitionKind::IntentRevision => ReducerDiagnosticCode::DuplicateRevisionId,
        DefinitionKind::ContextRevision => ReducerDiagnosticCode::DuplicateRevisionId,
        DefinitionKind::Review => ReducerDiagnosticCode::DuplicateReviewId,
        DefinitionKind::Publication => ReducerDiagnosticCode::DuplicatePublicationId,
        DefinitionKind::Evidence => ReducerDiagnosticCode::DuplicateEvidenceId,
        DefinitionKind::Conflict => ReducerDiagnosticCode::DuplicateConflictId,
        DefinitionKind::Resolution => ReducerDiagnosticCode::DuplicateResolutionId,
        DefinitionKind::Reference => ReducerDiagnosticCode::DuplicateReferenceId,
    }
}

} // verus!
