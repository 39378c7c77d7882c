//! Live Contexts, the reviews and publications that govern them, and their Space associations.

use vstd::multiset::Multiset;
use vstd::prelude::*;

use crate::collections::SortedSet;
use crate::confirmation::{
    ContextSpaceAssociation, ContextSpaceAssociationOrigin, ContextSpaceAssociationView,
};
use crate::dag::{nodes_among, nodes_are, DagNode, DagNodeView};
use crate::definitions::{add_event_diagnostic, diagnostic, one_event, sound};
use crate::episode::ContextCandidateView;
use crate::events::{
    ReducerDiagnostic, ReducerDiagnosticCode, ReducerDiagnosticView, ReducerEvent, ReducerEventView,
    ReducerPayload, ReducerPayloadView,
};
use crate::gather::{
    flags_are, gathered, gathered_first, gathered_next, gathered_none, gathered_whole, is_member, place_in,
};
use crate::ids::{CandidateId, ContextId, EventId, Identifier, RevisionId, SpaceId};
use crate::lineage::{
    context_complaints, context_node, grounded_revision, id_numbers, is_head_member, is_valid_member,
    lineage_complaint, list_contexts, live, numbers_of, quarantine, relation_complaints, revision_of,
    validate_context_relations, validate_dag, Line, Lineage,
};
use crate::model::{Publication, PublicationView, ReviewView};
use crate::ownership::{valid_spaces, Facts};
use crate::text::joined3;
use crate::value::{push_value, Value};

verus! {

/// Whether an event adds a live revision to a Context of a Space.
pub open spec fn live_in(
    events: Multiset<ReducerEventView>,
    event: ReducerEventView,
    space_id: SpaceId,
    context_id: ContextId,
) -> bool {
    live(events, event) && revision_of(event)->Some_0.0 == space_id && revision_of(event)->Some_0.1 == context_id
}

/// Whether a Context of a Space has a live revision.
pub open spec fn live_context(events: Multiset<ReducerEventView>, space_id: SpaceId, context_id: ContextId) -> bool {
    exists|event: ReducerEventView| #[trigger]
        events.contains(event) && live_in(events, event, space_id, context_id)
}

/// Whether an event adds a live revision to a Context.
pub open spec fn live_anywhere(
    events: Multiset<ReducerEventView>,
    event: ReducerEventView,
    context_id: ContextId,
) -> bool {
    live(events, event) && revision_of(event)->Some_0.1 == context_id
}

/// Whether a Context has a live revision.
pub open spec fn context_lives(events: Multiset<ReducerEventView>, context_id: ContextId) -> bool {
    exists|event: ReducerEventView| #[trigger] events.contains(event) && live_anywhere(events, event, context_id)
}

/// Whether an event adds a given live revision to a Context of a Space.
pub open spec fn live_as(
    events: Multiset<ReducerEventView>,
    event: ReducerEventView,
    space_id: SpaceId,
    context_id: ContextId,
    revision_id: RevisionId,
) -> bool {
    live_in(events, event, space_id, context_id) && revision_of(event)->Some_0.2.revision_id == revision_id
}

/// Whether a Context of a Space has a given live revision.
pub open spec fn live_revision(
    events: Multiset<ReducerEventView>,
    space_id: SpaceId,
    context_id: ContextId,
    revision_id: RevisionId,
) -> bool {
    exists|event: ReducerEventView| #[trigger]
        events.contains(event) && live_as(events, event, space_id, context_id, revision_id)
}

/// Whether a live revision of the same Context names this one as a parent.
pub open spec fn succeeded(events: Multiset<ReducerEventView>, event: ReducerEventView) -> bool {
    exists|child: ReducerEventView| #[trigger] events.contains(child) && succeeds(events, child, event)
}

/// Whether an event adds a live revision that names another of the same Context as a parent.
pub open spec fn succeeds(
    events: Multiset<ReducerEventView>,
    child: ReducerEventView,
    event: ReducerEventView,
) -> bool {
    live(events, child) && revision_of(event) is Some && revision_of(child)->Some_0.1 == revision_of(event)->Some_0.1
        && revision_of(child)->Some_0.2.parent_revision_ids.contains(revision_of(event)->Some_0.2.revision_id)
}

/// Whether an event adds a live revision that no live revision succeeds.
pub open spec fn revision_head(events: Multiset<ReducerEventView>, event: ReducerEventView) -> bool {
    live(events, event) && !succeeded(events, event)
}

/// A live revision is a revision.
pub proof fn live_is_revision(events: Multiset<ReducerEventView>, event: ReducerEventView)
    requires
        live(events, event),
    ensures
        revision_of(event) is Some,
        sound(events, event),
        valid_spaces(events).contains(revision_of(event)->Some_0.0),
        !crate::ownership::ambiguous(events, revision_of(event)->Some_0.1),
{
}

/// Which events add live revisions, and which of those are heads, place by place.
pub struct LiveRevisions {
    pub live: Vec<bool>,
    pub heads: Vec<bool>,
}

impl LiveRevisions {
    /// Whether this tells of a list of events.
    pub open spec fn describe(self, events: Seq<ReducerEventView>) -> bool {
        &&& flags_are(self.live@, events, |event: ReducerEventView| live(events.to_multiset(), event))
        &&& flags_are(self.heads@, events, |event: ReducerEventView| revision_head(events.to_multiset(), event))
    }

    /// Validates the Context lineages and their relations.
    pub fn of(events: &Vec<ReducerEvent>, facts: &Facts, complaints: &mut SortedSet<ReducerDiagnostic>) -> (revisions:
        LiveRevisions)
        requires
            facts.describe(events.deep_view()),
        ensures
            revisions.describe(events.deep_view()),
            final(complaints).deep_view() == old(complaints).deep_view().union(
                gathered(
                    events.deep_view().to_multiset(),
                    |event: ReducerEventView| context_complaints(events.deep_view().to_multiset(), event),
                ),
            ).union(
                gathered(
                    events.deep_view().to_multiset(),
                    |event: ReducerEventView| relation_complaints(events.deep_view().to_multiset(), event),
                ),
            ),
    {
        let ghost list = events.deep_view();
        let ghost members = list.to_multiset();
        let nodes = list_contexts(events, facts);
        let line = validate_dag(
            Ghost(list),
            Ghost(|event: ReducerEventView| context_node(members, event)),
            &nodes,
            Lineage::Context,
            complaints,
        );
        proof {
            assert(complaints.deep_view() =~= old(complaints).deep_view().union(
                gathered(members, |event: ReducerEventView| context_complaints(members, event)),
            )) by {
                crate::gather::gathered_same(
                    members,
                    |event: ReducerEventView|
                        lineage_complaint(
                            Lineage::Context,
                            nodes_among(members, |event: ReducerEventView| context_node(members, event)),
                            context_node(members, event),
                        ),
                    |event: ReducerEventView| context_complaints(members, event),
                );
            }
            assert forall|i: int| 0 <= i < list.len() implies #[trigger] line.valid@[i] == grounded_revision(
                members,
                list[i],
            ) by {}
        }
        let quarantined = validate_context_relations(events, &line.valid, complaints);
        let live_events = list_live(events, &line.valid, &quarantined);
        let heads = list_revision_heads(events, &live_events);
        LiveRevisions { live: live_events, heads }
    }
}

/// Which events add live revisions.
fn list_live(events: &Vec<ReducerEvent>, grounded: &Vec<bool>, quarantined: &Vec<bool>) -> (flags: Vec<bool>)
    requires
        flags_are(
            grounded@,
            events.deep_view(),
            |event: ReducerEventView| grounded_revision(events.deep_view().to_multiset(), event),
        ),
        flags_are(
            quarantined@,
            events.deep_view(),
            |event: ReducerEventView| quarantine(events.deep_view().to_multiset()).contains(event),
        ),
    ensures
        flags_are(
            flags@,
            events.deep_view(),
            |event: ReducerEventView| live(events.deep_view().to_multiset(), event),
        ),
{
    let ghost list = events.deep_view();
    let ghost members = list.to_multiset();
    let mut flags: Vec<bool> = Vec::new();
    let mut index: usize = 0;
    while index < events.len()
        invariant
            index <= events@.len(),
            list == events.deep_view(),
            members == list.to_multiset(),
            flags_are(
                grounded@,
                events.deep_view(),
                |event: ReducerEventView| grounded_revision(events.deep_view().to_multiset(), event),
            ),
            flags_are(
                quarantined@,
                events.deep_view(),
                |event: ReducerEventView| quarantine(events.deep_view().to_multiset()).contains(event),
            ),
            flags@.len() == index,
            forall|i: int| 0 <= i < index ==> #[trigger] flags@[i] == live(members, list[i]),
        decreases events@.len() - index,
    {
        let flag = list_live_at(events, index, grounded, quarantined);
        flags.push(flag);
        index = index + 1;
    }
    flags
}

fn list_live_at(events: &Vec<ReducerEvent>, at: usize, grounded: &Vec<bool>, quarantined: &Vec<bool>) -> (flag: bool)
    requires
        at < events@.len(),
        flags_are(
            grounded@,
            events.deep_view(),
            |event: ReducerEventView| grounded_revision(events.deep_view().to_multiset(), event),
        ),
        flags_are(
            quarantined@,
            events.deep_view(),
            |event: ReducerEventView| quarantine(events.deep_view().to_multiset()).contains(event),
        ),
    ensures
        flag == live(events.deep_view().to_multiset(), events.deep_view()[at as int]),
{
    grounded[at] && !quarantined[at]
}

/// Which events add live revisions that no live revision succeeds.
fn list_revision_heads(events: &Vec<ReducerEvent>, live_events: &Vec<bool>) -> (flags: Vec<bool>)
    requires
        flags_are(
            live_events@,
            events.deep_view(),
            |event: ReducerEventView| live(events.deep_view().to_multiset(), event),
        ),
    ensures
        flags_are(
            flags@,
            events.deep_view(),
            |event: ReducerEventView| revision_head(events.deep_view().to_multiset(), event),
        ),
{
    let ghost list = events.deep_view();
    let ghost members = list.to_multiset();
    let mut flags: Vec<bool> = Vec::new();
    let mut index: usize = 0;
    while index < events.len()
        invariant
            index <= events@.len(),
            list == events.deep_view(),
            members == list.to_multiset(),
            flags_are(
                live_events@,
                events.deep_view(),
                |event: ReducerEventView| live(events.deep_view().to_multiset(), event),
            ),
            flags@.len() == index,
            forall|i: int| 0 <= i < index ==> #[trigger] flags@[i] == revision_head(members, list[i]),
        decreases events@.len() - index,
    {
        let flag = list_revision_heads_at(events, index, live_events);
        flags.push(flag);
        index = index + 1;
    }
    flags
}

fn list_revision_heads_at(events: &Vec<ReducerEvent>, at: usize, live_events: &Vec<bool>) -> (flag: bool)
    requires
        at < events@.len(),
        flags_are(
            live_events@,
            events.deep_view(),
            |event: ReducerEventView| live(events.deep_view().to_multiset(), event),
        ),
    ensures
        flag == revision_head(events.deep_view().to_multiset(), events.deep_view()[at as int]),
{
    live_events[at] && !is_succeeded(events, live_events, at)
}

/// Whether a live revision of the same Context names this one as a parent.
fn is_succeeded(events: &Vec<ReducerEvent>, live_events: &Vec<bool>, at: usize) -> (found: bool)
    requires
        at < events@.len(),
        flags_are(
            live_events@,
            events.deep_view(),
            |event: ReducerEventView| live(events.deep_view().to_multiset(), event),
        ),
    ensures
        found == exists|event: ReducerEventView| #[trigger] events.deep_view().to_multiset().contains(event)
            && succeeds(events.deep_view().to_multiset(), event, events.deep_view()[at as int]),
{
    let ghost list = events.deep_view();
    let ghost members = list.to_multiset();
    let mut index: usize = 0;
    while index < events.len()
        invariant
            index <= events@.len(),
            list == events.deep_view(),
            members == list.to_multiset(),
            at < events@.len(),
            flags_are(
                live_events@,
                events.deep_view(),
                |event: ReducerEventView| live(events.deep_view().to_multiset(), event),
            ),
            forall|i: int| 0 <= i < index ==> !(succeeds(members, #[trigger] list[i], events.deep_view()[at as int])),
        decreases events@.len() - index,
    {
        if is_succeeded_at(events, index, live_events, at) {
            proof {
                is_member(list, index as int);
            }
            return true;
        }
        index = index + 1;
    }
    proof {
        if exists|event: ReducerEventView| #[trigger] members.contains(event)
            && succeeds(members, event, events.deep_view()[at as int]) {
            let event = choose|event: ReducerEventView| #[trigger] members.contains(event)
                && succeeds(members, event, events.deep_view()[at as int]);
            let at = place_in(list, event);
        }
    }
    false
}

fn is_succeeded_at(events: &Vec<ReducerEvent>, index: usize, live_events: &Vec<bool>, at: usize) -> (found: bool)
    requires
        index < events@.len(),
        at < events@.len(),
        flags_are(
            live_events@,
            events.deep_view(),
            |event: ReducerEventView| live(events.deep_view().to_multiset(), event),
        ),
    ensures
        found == succeeds(
            events.deep_view().to_multiset(),
            events.deep_view()[index as int],
            events.deep_view()[at as int],
        ),
{
    let ghost list = events.deep_view();
    assert(list[index as int] == events@[index as int].deep_view());
    assert(list[at as int] == events@[at as int].deep_view());
    if !live_events[index] {
        return false;
    }
    proof {
        live_is_revision(list.to_multiset(), list[index as int]);
    }
    match (&events[index].payload, &events[at].payload) {
        (
            ReducerPayload::ContextRevisionAdded { space_id: _, context_id: child_context, revision: child },
            ReducerPayload::ContextRevisionAdded { space_id: _, context_id, revision },
        ) => *child_context == *context_id && crate::checks::is_among(
            &child.parent_revision_ids,
            &revision.revision_id,
        ),
        _ => false,
    }
}

/// Whether a Context of a Space has a live revision.
pub fn has_live_context(
    events: &Vec<ReducerEvent>,
    live_events: &Vec<bool>,
    space_id: SpaceId,
    context_id: ContextId,
) -> (found: bool)
    requires
        flags_are(
            live_events@,
            events.deep_view(),
            |event: ReducerEventView| live(events.deep_view().to_multiset(), event),
        ),
    ensures
        found == exists|event: ReducerEventView| #[trigger] events.deep_view().to_multiset().contains(event)
            && live_in(events.deep_view().to_multiset(), event, space_id, context_id),
{
    let ghost list = events.deep_view();
    let ghost members = list.to_multiset();
    let mut index: usize = 0;
    while index < events.len()
        invariant
            index <= events@.len(),
            list == events.deep_view(),
            members == list.to_multiset(),
            flags_are(
                live_events@,
                events.deep_view(),
                |event: ReducerEventView| live(events.deep_view().to_multiset(), event),
            ),
            forall|i: int| 0 <= i < index ==> !(live_in(members, #[trigger] list[i], space_id, context_id)),
        decreases events@.len() - index,
    {
        if has_live_context_at(events, index, live_events, space_id, context_id) {
            proof {
                is_member(list, index as int);
            }
            return true;
        }
        index = index + 1;
    }
    proof {
        if exists|event: ReducerEventView| #[trigger] members.contains(event)
            && live_in(members, event, space_id, context_id) {
            let event = choose|event: ReducerEventView| #[trigger] members.contains(event)
                && live_in(members, event, space_id, context_id);
            let at = place_in(list, event);
        }
    }
    false
}

fn has_live_context_at(
    events: &Vec<ReducerEvent>,
    at: usize,
    live_events: &Vec<bool>,
    space_id: SpaceId,
    context_id: ContextId,
) -> (found: bool)
    requires
        at < events@.len(),
        flags_are(
            live_events@,
            events.deep_view(),
            |event: ReducerEventView| live(events.deep_view().to_multiset(), event),
        ),
    ensures
        found == live_in(events.deep_view().to_multiset(), events.deep_view()[at as int], space_id, context_id),
{
    let ghost list = events.deep_view();
    assert(list[at as int] == events@[at as int].deep_view());
    if !live_events[at] {
        return false;
    }
    proof {
        live_is_revision(list.to_multiset(), list[at as int]);
    }
    match &events[at].payload {
        ReducerPayload::ContextRevisionAdded { space_id: space, context_id: context, revision: _ } => {
            *space == space_id && *context == context_id
        },
        _ => false,
    }
}

/// Whether a Context has a live revision.
pub fn does_context_live(events: &Vec<ReducerEvent>, live_events: &Vec<bool>, context_id: ContextId) -> (found: bool)
    requires
        flags_are(
            live_events@,
            events.deep_view(),
            |event: ReducerEventView| live(events.deep_view().to_multiset(), event),
        ),
    ensures
        found == exists|event: ReducerEventView| #[trigger] events.deep_view().to_multiset().contains(event)
            && live_anywhere(events.deep_view().to_multiset(), event, context_id),
{
    let ghost list = events.deep_view();
    let ghost members = list.to_multiset();
    let mut index: usize = 0;
    while index < events.len()
        invariant
            index <= events@.len(),
            list == events.deep_view(),
            members == list.to_multiset(),
            flags_are(
                live_events@,
                events.deep_view(),
                |event: ReducerEventView| live(events.deep_view().to_multiset(), event),
            ),
            forall|i: int| 0 <= i < index ==> !(live_anywhere(members, #[trigger] list[i], context_id)),
        decreases events@.len() - index,
    {
        if does_context_live_at(events, index, live_events, context_id) {
            proof {
                is_member(list, index as int);
            }
            return true;
        }
        index = index + 1;
    }
    proof {
        if exists|event: ReducerEventView| #[trigger] members.contains(event)
            && live_anywhere(members, event, context_id) {
            let event = choose|event: ReducerEventView| #[trigger] members.contains(event)
                && live_anywhere(members, event, context_id);
            let at = place_in(list, event);
        }
    }
    false
}

fn does_context_live_at(
    events: &Vec<ReducerEvent>,
    at: usize,
    live_events: &Vec<bool>,
    context_id: ContextId,
) -> (found: bool)
    requires
        at < events@.len(),
        flags_are(
            live_events@,
            events.deep_view(),
            |event: ReducerEventView| live(events.deep_view().to_multiset(), event),
        ),
    ensures
        found == live_anywhere(events.deep_view().to_multiset(), events.deep_view()[at as int], context_id),
{
    let ghost list = events.deep_view();
    assert(list[at as int] == events@[at as int].deep_view());
    if !live_events[at] {
        return false;
    }
    proof {
        live_is_revision(list.to_multiset(), list[at as int]);
    }
    match &events[at].payload {
        ReducerPayload::ContextRevisionAdded { space_id: _, context_id: context, revision: _ } => {
            *context == context_id
        },
        _ => false,
    }
}

/// Whether a Context of a Space has a given live revision.
pub fn has_live_revision(
    events: &Vec<ReducerEvent>,
    live_events: &Vec<bool>,
    space_id: SpaceId,
    context_id: ContextId,
    revision_id: RevisionId,
) -> (found: bool)
    requires
        flags_are(
            live_events@,
            events.deep_view(),
            |event: ReducerEventView| live(events.deep_view().to_multiset(), event),
        ),
    ensures
        found == exists|event: ReducerEventView| #[trigger] events.deep_view().to_multiset().contains(event)
            && live_as(events.deep_view().to_multiset(), event, space_id, context_id, revision_id),
{
    let ghost list = events.deep_view();
    let ghost members = list.to_multiset();
    let mut index: usize = 0;
    while index < events.len()
        invariant
            index <= events@.len(),
            list == events.deep_view(),
            members == list.to_multiset(),
            flags_are(
                live_events@,
                events.deep_view(),
                |event: ReducerEventView| live(events.deep_view().to_multiset(), event),
            ),
            forall|i: int| 0 <= i < index ==> !(
                live_as(members, #[trigger] list[i], space_id, context_id, revision_id)
            ),
        decreases events@.len() - index,
    {
        if has_live_revision_at(events, index, live_events, space_id, context_id, revision_id) {
            proof {
                is_member(list, index as int);
            }
            return true;
        }
        index = index + 1;
    }
    proof {
        if exists|event: ReducerEventView| #[trigger] members.contains(event)
            && live_as(members, event, space_id, context_id, revision_id) {
            let event = choose|event: ReducerEventView| #[trigger] members.contains(event)
                && live_as(members, event, space_id, context_id, revision_id);
            let at = place_in(list, event);
        }
    }
    false
}

fn has_live_revision_at(
    events: &Vec<ReducerEvent>,
    at: usize,
    live_events: &Vec<bool>,
    space_id: SpaceId,
    context_id: ContextId,
    revision_id: RevisionId,
) -> (found: bool)
    requires
        at < events@.len(),
        flags_are(
            live_events@,
            events.deep_view(),
            |event: ReducerEventView| live(events.deep_view().to_multiset(), event),
        ),
    ensures
        found == live_as(
            events.deep_view().to_multiset(),
            events.deep_view()[at as int],
            space_id,
            context_id,
            revision_id,
        ),
{
    let ghost list = events.deep_view();
    assert(list[at as int] == events@[at as int].deep_view());
    if !live_events[at] {
        return false;
    }
    proof {
        live_is_revision(list.to_multiset(), list[at as int]);
    }
    match &events[at].payload {
        ReducerPayload::ContextRevisionAdded { space_id: space, context_id: context, revision } => {
            *space == space_id && *context == context_id && revision.revision_id == revision_id
        },
        _ => false,
    }
}

/// The Space, the Context and the review that an event adds.
pub open spec fn review_of(event: ReducerEventView) -> Option<(SpaceId, ContextId, ReviewView)> {
    match event.payload {
        ReducerPayloadView::ContextReviewed { space_id, context_id, review } => Some((space_id, context_id, review)),
        _ => None,
    }
}

/// Whether an event adds a review of a live revision.
pub open spec fn valid_review(events: Multiset<ReducerEventView>, event: ReducerEventView) -> bool {
    match review_of(event) {
        Some((space_id, context_id, review)) => sound(events, event) && live_revision(
            events,
            space_id,
            context_id,
            review.revision_id,
        ),
        None => false,
    }
}

/// What reviews contribute to the diagnostics.
pub open spec fn review_complaints(
    events: Multiset<ReducerEventView>,
    event: ReducerEventView,
) -> Set<ReducerDiagnosticView> {
    match review_of(event) {
        Some((_, _, review)) => {
            if sound(events, event) && !valid_review(events, event) {
                Set::empty().insert(
                    diagnostic(
                        ReducerDiagnosticCode::InvalidReviewReference,
                        review.review_id.text(),
                        one_event(event.event_id),
                        "review "@ + review.review_id.text()
                            + " does not reference a valid revision in its context"@,
                    ),
                )
            } else {
                Set::empty()
            }
        },
        None => Set::empty(),
    }
}

/// Which events add valid reviews.
pub fn list_reviews(events: &Vec<ReducerEvent>, facts: &Facts, live_events: &Vec<bool>) -> (flags: Vec<bool>)
    requires
        facts.describe(events.deep_view()),
        flags_are(
            live_events@,
            events.deep_view(),
            |event: ReducerEventView| live(events.deep_view().to_multiset(), event),
        ),
    ensures
        flags_are(
            flags@,
            events.deep_view(),
            |event: ReducerEventView| valid_review(events.deep_view().to_multiset(), event),
        ),
{
    let ghost list = events.deep_view();
    let ghost members = list.to_multiset();
    let mut flags: Vec<bool> = Vec::new();
    let mut index: usize = 0;
    while index < events.len()
        invariant
            index <= events@.len(),
            list == events.deep_view(),
            members == list.to_multiset(),
            facts.describe(events.deep_view()),
            flags_are(
                live_events@,
                events.deep_view(),
                |event: ReducerEventView| live(events.deep_view().to_multiset(), event),
            ),
            flags@.len() == index,
            forall|i: int| 0 <= i < index ==> #[trigger] flags@[i] == valid_review(members, list[i]),
        decreases events@.len() - index,
    {
        let flag = list_reviews_at(events, index, facts, live_events);
        flags.push(flag);
        index = index + 1;
    }
    flags
}

fn list_reviews_at(events: &Vec<ReducerEvent>, at: usize, facts: &Facts, live_events: &Vec<bool>) -> (flag: bool)
    requires
        at < events@.len(),
        facts.describe(events.deep_view()),
        flags_are(
            live_events@,
            events.deep_view(),
            |event: ReducerEventView| live(events.deep_view().to_multiset(), event),
        ),
    ensures
        flag == valid_review(events.deep_view().to_multiset(), events.deep_view()[at as int]),
{
    let ghost list = events.deep_view();
    assert(list[at as int] == events@[at as int].deep_view());
    match &events[at].payload {
        ReducerPayload::ContextReviewed { space_id, context_id, review } => {
            facts.sound[at] && has_live_revision(events, live_events, *space_id, *context_id, review.revision_id)
        },
        _ => false,
    }
}

/// Adds what reviews contribute to the diagnostics.
pub fn complain_of_reviews(
    events: &Vec<ReducerEvent>,
    facts: &Facts,
    reviews: &Vec<bool>,
    complaints: &mut SortedSet<ReducerDiagnostic>,
)
    requires
        facts.describe(events.deep_view()),
        flags_are(
            reviews@,
            events.deep_view(),
            |event: ReducerEventView| valid_review(events.deep_view().to_multiset(), event),
        ),
    ensures
        final(complaints).deep_view() == old(complaints).deep_view().union(
            gathered(
                events.deep_view().to_multiset(),
                |event: ReducerEventView| review_complaints(events.deep_view().to_multiset(), event),
            ),
        ),
{
    let ghost list = events.deep_view();
    let ghost members = list.to_multiset();
    let ghost share = |event: ReducerEventView| review_complaints(members, event);
    let ghost start = complaints.deep_view();
    proof {
        gathered_none(list, share);
        assert(start =~= start.union(Set::empty()));
    }
    let mut index: usize = 0;
    while index < events.len()
        invariant
            index <= events@.len(),
            list == events.deep_view(),
            members == list.to_multiset(),
            share == (|event: ReducerEventView| review_complaints(members, event)),
            facts.describe(events.deep_view()),
            flags_are(
                reviews@,
                events.deep_view(),
                |event: ReducerEventView| valid_review(events.deep_view().to_multiset(), event),
            ),
            complaints.deep_view() == start.union(gathered_first(list, share, index as int)),
        decreases events@.len() - index,
    {
        complain_of_reviews_at(events, index, facts, reviews, complaints);
        proof {
            gathered_next(list, share, index as int);
            assert(complaints.deep_view() =~= start.union(gathered_first(list, share, index + 1)));
        }
        index = index + 1;
    }
    proof {
        gathered_whole(list, share);
    }
}

fn complain_of_reviews_at(
    events: &Vec<ReducerEvent>,
    at: usize,
    facts: &Facts,
    reviews: &Vec<bool>,
    complaints: &mut SortedSet<ReducerDiagnostic>,
)
    requires
        at < events@.len(),
        facts.describe(events.deep_view()),
        flags_are(
            reviews@,
            events.deep_view(),
            |event: ReducerEventView| valid_review(events.deep_view().to_multiset(), event),
        ),
    ensures
        final(complaints).deep_view() == old(complaints).deep_view().union(
            review_complaints(events.deep_view().to_multiset(), events.deep_view()[at as int]),
        ),
{
    let ghost list = events.deep_view();
    let ghost start = complaints.deep_view();
    assert(list[at as int] == events@[at as int].deep_view());
    if let ReducerPayload::ContextReviewed { space_id: _, context_id: _, review } = &events[at].payload {
        if facts.sound[at] && !reviews[at] {
            let text = review.review_id.to_string();
            let message = joined3("review ", text.as_str(), " does not reference a valid revision in its context");
            add_event_diagnostic(
                complaints,
                ReducerDiagnosticCode::InvalidReviewReference,
                text.as_str(),
                events[at].event_id,
                message,
            );
        }
    }
    assert(complaints.deep_view() =~= start.union(review_complaints(list.to_multiset(), list[at as int])));
}

/// The Space, the Context and the publication that an event adds.
pub open spec fn publication_of(event: ReducerEventView) -> Option<(SpaceId, ContextId, PublicationView)> {
    match event.payload {
        ReducerPayloadView::ContextPublicationChanged { space_id, context_id, publication } => Some(
            (space_id, context_id, publication),
        ),
        _ => None,
    }
}

/// Whether an event is a valid review, known by its identity, of a revision of a Context.
pub open spec fn reviews_as(
    events: Multiset<ReducerEventView>,
    event: ReducerEventView,
    event_id: EventId,
    space_id: SpaceId,
    context_id: ContextId,
    revision_id: RevisionId,
) -> bool {
    valid_review(events, event) && event.event_id == event_id && review_of(event)->Some_0.0 == space_id && review_of(
        event,
    )->Some_0.1 == context_id && review_of(event)->Some_0.2.revision_id == revision_id
}

/// Whether a publication rests on a valid review.
pub open spec fn is_reviewed(
    events: Multiset<ReducerEventView>,
    event_id: EventId,
    space_id: SpaceId,
    context_id: ContextId,
    revision_id: RevisionId,
) -> bool {
    exists|event: ReducerEventView| #[trigger]
        events.contains(event) && reviews_as(events, event, event_id, space_id, context_id, revision_id)
}

/// Whether the references of a publication are valid: its revision lives, and its reviews are
/// valid reviews of that revision.
pub open spec fn publication_refers(
    events: Multiset<ReducerEventView>,
    space_id: SpaceId,
    context_id: ContextId,
    publication: PublicationView,
) -> bool {
    &&& live_revision(events, space_id, context_id, publication.revision_id)
    &&& forall|i: int|
        0 <= i < publication.review_event_ids.len() ==> is_reviewed(
            events,
            #[trigger] publication.review_event_ids[i],
            space_id,
            context_id,
            publication.revision_id,
        )
}

/// The publication that an event contributes to the lineage of a live Context.
pub open spec fn publication_node(
    events: Multiset<ReducerEventView>,
    event: ReducerEventView,
) -> Option<DagNodeView> {
    match publication_of(event) {
        Some((space_id, context_id, publication)) => {
            if sound(events, event) && publication_refers(events, space_id, context_id, publication) {
                Some(
                    DagNodeView {
                        id: publication.publication_id.number(),
                        group: context_id.number(),
                        event_id: event.event_id,
                        parents: id_numbers(publication.previous_publication_ids),
                    },
                )
            } else {
                None
            }
        },
        None => None,
    }
}

/// The publications of live Contexts.
pub open spec fn publication_nodes(events: Multiset<ReducerEventView>) -> Set<DagNodeView> {
    nodes_among(events, |event: ReducerEventView| publication_node(events, event))
}

/// Whether an event adds a valid publication.
pub open spec fn valid_publication(events: Multiset<ReducerEventView>, event: ReducerEventView) -> bool {
    is_valid_member(publication_nodes(events), publication_node(events, event))
}

/// Whether an event adds a publication that no valid publication succeeds.
pub open spec fn publication_head(events: Multiset<ReducerEventView>, event: ReducerEventView) -> bool {
    is_head_member(publication_nodes(events), publication_node(events, event))
}

/// What the references of publications contribute to the diagnostics.
pub open spec fn publication_complaints(
    events: Multiset<ReducerEventView>,
    event: ReducerEventView,
) -> Set<ReducerDiagnosticView> {
    match publication_of(event) {
        Some((space_id, context_id, publication)) => {
            let text = publication.publication_id.text();
            if !sound(events, event) {
                Set::empty()
            } else if !live_context(events, space_id, context_id) {
                Set::empty().insert(
                    diagnostic(
                        ReducerDiagnosticCode::InvalidPublicationReference,
                        text,
                        one_event(event.event_id),
                        "publication "@ + text + " belongs to a missing or quarantined context"@,
                    ),
                )
            } else if !publication_refers(events, space_id, context_id, publication) {
                Set::empty().insert(
                    diagnostic(
                        ReducerDiagnosticCode::InvalidPublicationReference,
                        text,
                        one_event(event.event_id),
                        "publication "@ + text + " does not reference a valid same-context revision/review"@,
                    ),
                )
            } else {
                Set::empty()
            }
        },
        None => Set::empty(),
    }
}

/// What publication lineages contribute to the diagnostics.
pub open spec fn publication_lineage_complaints(
    events: Multiset<ReducerEventView>,
    event: ReducerEventView,
) -> Set<ReducerDiagnosticView> {
    lineage_complaint(Lineage::Publication, publication_nodes(events), publication_node(events, event))
}

/// Whether a publication rests on a valid review.
fn has_review(
    events: &Vec<ReducerEvent>,
    reviews: &Vec<bool>,
    event_id: EventId,
    space_id: SpaceId,
    context_id: ContextId,
    revision_id: RevisionId,
) -> (found: bool)
    requires
        flags_are(
            reviews@,
            events.deep_view(),
            |event: ReducerEventView| valid_review(events.deep_view().to_multiset(), event),
        ),
    ensures
        found == exists|event: ReducerEventView| #[trigger] events.deep_view().to_multiset().contains(event)
            && reviews_as(events.deep_view().to_multiset(), event, event_id, space_id, context_id, revision_id),
{
    let ghost list = events.deep_view();
    let ghost members = list.to_multiset();
    let mut index: usize = 0;
    while index < events.len()
        invariant
            index <= events@.len(),
            list == events.deep_view(),
            members == list.to_multiset(),
            flags_are(
                reviews@,
                events.deep_view(),
                |event: ReducerEventView| valid_review(events.deep_view().to_multiset(), event),
            ),
            forall|i: int| 0 <= i < index ==> !(
                reviews_as(members, #[trigger] list[i], event_id, space_id, context_id, revision_id)
            ),
        decreases events@.len() - index,
    {
        if has_review_at(events, index, reviews, event_id, space_id, context_id, revision_id) {
            proof {
                is_member(list, index as int);
            }
            return true;
        }
        index = index + 1;
    }
    proof {
        if exists|event: ReducerEventView| #[trigger] members.contains(event)
            && reviews_as(members, event, event_id, space_id, context_id, revision_id) {
            let event = choose|event: ReducerEventView| #[trigger] members.contains(event)
                && reviews_as(members, event, event_id, space_id, context_id, revision_id);
            let at = place_in(list, event);
        }
    }
    false
}

fn has_review_at(
    events: &Vec<ReducerEvent>,
    at: usize,
    reviews: &Vec<bool>,
    event_id: EventId,
    space_id: SpaceId,
    context_id: ContextId,
    revision_id: RevisionId,
) -> (found: bool)
    requires
        at < events@.len(),
        flags_are(
            reviews@,
            events.deep_view(),
            |event: ReducerEventView| valid_review(events.deep_view().to_multiset(), event),
        ),
    ensures
        found == reviews_as(
            events.deep_view().to_multiset(),
            events.deep_view()[at as int],
            event_id,
            space_id,
            context_id,
            revision_id,
        ),
{
    let ghost list = events.deep_view();
    assert(list[at as int] == events@[at as int].deep_view());
    match &events[at].payload {
        ReducerPayload::ContextReviewed { space_id: space, context_id: context, review } => {
            reviews[at] && events[at].event_id == event_id && *space == space_id && *context == context_id
                && review.revision_id == revision_id
        },
        _ => false,
    }
}

/// Whether the references of a publication are valid.
fn refers_validly(
    events: &Vec<ReducerEvent>,
    live_events: &Vec<bool>,
    reviews: &Vec<bool>,
    space_id: SpaceId,
    context_id: ContextId,
    publication: &Publication,
) -> (valid: bool)
    requires
        flags_are(
            live_events@,
            events.deep_view(),
            |event: ReducerEventView| live(events.deep_view().to_multiset(), event),
        ),
        flags_are(
            reviews@,
            events.deep_view(),
            |event: ReducerEventView| valid_review(events.deep_view().to_multiset(), event),
        ),
    ensures
        valid == publication_refers(
            events.deep_view().to_multiset(),
            space_id,
            context_id,
            publication.deep_view(),
        ),
{
    let ghost members = events.deep_view().to_multiset();
    let ghost model = publication.deep_view();
    if !has_live_revision(events, live_events, space_id, context_id, publication.revision_id) {
        return false;
    }
    let mut index: usize = 0;
    while index < publication.review_event_ids.len()
        invariant
            index <= publication.review_event_ids@.len(),
            members == events.deep_view().to_multiset(),
            model == publication.deep_view(),
            flags_are(
                reviews@,
                events.deep_view(),
                |event: ReducerEventView| valid_review(events.deep_view().to_multiset(), event),
            ),
            forall|i: int|
                0 <= i < index ==> is_reviewed(
                    members,
                    #[trigger] model.review_event_ids[i],
                    space_id,
                    context_id,
                    model.revision_id,
                ),
        decreases publication.review_event_ids@.len() - index,
    {
        assert(model.review_event_ids[index as int] == publication.review_event_ids@[index as int]);
        if !has_review(
            events,
            reviews,
            publication.review_event_ids[index],
            space_id,
            context_id,
            publication.revision_id,
        ) {
            assert(!is_reviewed(
                members,
                model.review_event_ids[index as int],
                space_id,
                context_id,
                model.revision_id,
            ));
            return false;
        }
        assert(is_reviewed(members, model.review_event_ids[index as int], space_id, context_id, model.revision_id));
        index = index + 1;
    }
    assert(model.review_event_ids.len() == publication.review_event_ids@.len());
    true
}

/// Lists the publications of live Contexts.
fn list_publications(
    events: &Vec<ReducerEvent>,
    facts: &Facts,
    live_events: &Vec<bool>,
    reviews: &Vec<bool>,
) -> (nodes: Vec<Option<DagNode>>)
    requires
        facts.describe(events.deep_view()),
        flags_are(
            live_events@,
            events.deep_view(),
            |event: ReducerEventView| live(events.deep_view().to_multiset(), event),
        ),
        flags_are(
            reviews@,
            events.deep_view(),
            |event: ReducerEventView| valid_review(events.deep_view().to_multiset(), event),
        ),
    ensures
        nodes_are(
            nodes.deep_view(),
            events.deep_view(),
            |event: ReducerEventView| publication_node(events.deep_view().to_multiset(), event),
        ),
{
    let ghost list = events.deep_view();
    let ghost members = list.to_multiset();
    let mut nodes: Vec<Option<DagNode>> = Vec::new();
    let mut index: usize = 0;
    while index < events.len()
        invariant
            index <= events@.len(),
            list == events.deep_view(),
            members == list.to_multiset(),
            facts.describe(events.deep_view()),
            flags_are(
                live_events@,
                events.deep_view(),
                |event: ReducerEventView| live(events.deep_view().to_multiset(), event),
            ),
            flags_are(
                reviews@,
                events.deep_view(),
                |event: ReducerEventView| valid_review(events.deep_view().to_multiset(), event),
            ),
            nodes@.len() == index,
            forall|i: int| 0 <= i < index ==> #[trigger] nodes.deep_view()[i] == publication_node(members, list[i]),
        decreases events@.len() - index,
    {
        let node = list_publications_at(events, index, facts, live_events, reviews);
        let ghost before = nodes.deep_view();
        push_value(&mut nodes, node);
        assert forall|i: int| 0 <= i < index + 1 implies #[trigger] nodes.deep_view()[i] == publication_node(members, list[i]) by {
            if i < index {
                assert(before[i] == publication_node(members, list[i]));
            }
        }
        index = index + 1;
    }
    nodes
}

fn list_publications_at(
    events: &Vec<ReducerEvent>,
    at: usize,
    facts: &Facts,
    live_events: &Vec<bool>,
    reviews: &Vec<bool>,
) -> (node: Option<DagNode>)
    requires
        at < events@.len(),
        facts.describe(events.deep_view()),
        flags_are(
            live_events@,
            events.deep_view(),
            |event: ReducerEventView| live(events.deep_view().to_multiset(), event),
        ),
        flags_are(
            reviews@,
            events.deep_view(),
            |event: ReducerEventView| valid_review(events.deep_view().to_multiset(), event),
        ),
    ensures
        node.deep_view() == publication_node(events.deep_view().to_multiset(), events.deep_view()[at as int]),
{
    let ghost list = events.deep_view();
    assert(list[at as int] == events@[at as int].deep_view());
    assert(facts.sound@[at as int] == sound(list.to_multiset(), list[at as int]));
    match &events[at].payload {
        ReducerPayload::ContextPublicationChanged { space_id, context_id, publication } => {
            if facts.sound[at] && refers_validly(events, live_events, reviews, *space_id, *context_id, publication) {
                Some(
                    DagNode {
                        id: publication.publication_id.get(),
                        group: context_id.get(),
                        event_id: events[at].event_id,
                        parents: numbers_of(&publication.previous_publication_ids),
                    },
                )
            } else {
                None
            }
        },
        _ => None,
    }
}

/// Adds what the references of publications contribute to the diagnostics.
fn complain_of_publications(
    events: &Vec<ReducerEvent>,
    facts: &Facts,
    live_events: &Vec<bool>,
    reviews: &Vec<bool>,
    complaints: &mut SortedSet<ReducerDiagnostic>,
)
    requires
        facts.describe(events.deep_view()),
        flags_are(
            live_events@,
            events.deep_view(),
            |event: ReducerEventView| live(events.deep_view().to_multiset(), event),
        ),
        flags_are(
            reviews@,
            events.deep_view(),
            |event: ReducerEventView| valid_review(events.deep_view().to_multiset(), event),
        ),
    ensures
        final(complaints).deep_view() == old(complaints).deep_view().union(
            gathered(
                events.deep_view().to_multiset(),
                |event: ReducerEventView| publication_complaints(events.deep_view().to_multiset(), event),
            ),
        ),
{
    let ghost list = events.deep_view();
    let ghost members = list.to_multiset();
    let ghost share = |event: ReducerEventView| publication_complaints(members, event);
    let ghost start = complaints.deep_view();
    proof {
        gathered_none(list, share);
        assert(start =~= start.union(Set::empty()));
    }
    let mut index: usize = 0;
    while index < events.len()
        invariant
            index <= events@.len(),
            list == events.deep_view(),
            members == list.to_multiset(),
            share == (|event: ReducerEventView| publication_complaints(members, event)),
            facts.describe(events.deep_view()),
            flags_are(
                live_events@,
                events.deep_view(),
                |event: ReducerEventView| live(events.deep_view().to_multiset(), event),
            ),
            flags_are(
                reviews@,
                events.deep_view(),
                |event: ReducerEventView| valid_review(events.deep_view().to_multiset(), event),
            ),
            complaints.deep_view() == start.union(gathered_first(list, share, index as int)),
        decreases events@.len() - index,
    {
        complain_of_publications_at(events, index, facts, live_events, reviews, complaints);
        proof {
            gathered_next(list, share, index as int);
            assert(complaints.deep_view() =~= start.union(gathered_first(list, share, index + 1)));
        }
        index = index + 1;
    }
    proof {
        gathered_whole(list, share);
    }
}

fn complain_of_publications_at(
    events: &Vec<ReducerEvent>,
    at: usize,
    facts: &Facts,
    live_events: &Vec<bool>,
    reviews: &Vec<bool>,
    complaints: &mut SortedSet<ReducerDiagnostic>,
)
    requires
        at < events@.len(),
        facts.describe(events.deep_view()),
        flags_are(
            live_events@,
            events.deep_view(),
            |event: ReducerEventView| live(events.deep_view().to_multiset(), event),
        ),
        flags_are(
            reviews@,
            events.deep_view(),
            |event: ReducerEventView| valid_review(events.deep_view().to_multiset(), event),
        ),
    ensures
        final(complaints).deep_view() == old(complaints).deep_view().union(
            publication_complaints(events.deep_view().to_multiset(), events.deep_view()[at as int]),
        ),
{
    let ghost list = events.deep_view();
    let ghost start = complaints.deep_view();
    assert(list[at as int] == events@[at as int].deep_view());
    assert(facts.sound@[at as int] == sound(list.to_multiset(), list[at as int]));
    if let ReducerPayload::ContextPublicationChanged { space_id, context_id, publication } = &events[at].payload {
        if facts.sound[at] {
            let text = publication.publication_id.to_string();
            if !has_live_context(events, live_events, *space_id, *context_id) {
                let message = joined3(
                    "publication ",
                    text.as_str(),
                    " belongs to a missing or quarantined context",
                );
                add_event_diagnostic(
                    complaints,
                    ReducerDiagnosticCode::InvalidPublicationReference,
                    text.as_str(),
                    events[at].event_id,
                    message,
                );
            } else if !refers_validly(events, live_events, reviews, *space_id, *context_id, publication) {
                let message = joined3(
                    "publication ",
                    text.as_str(),
                    " does not reference a valid same-context revision/review",
                );
                add_event_diagnostic(
                    complaints,
                    ReducerDiagnosticCode::InvalidPublicationReference,
                    text.as_str(),
                    events[at].event_id,
                    message,
                );
            }
        }
    }
    assert(complaints.deep_view() =~= start.union(publication_complaints(list.to_multiset(), list[at as int])));
}

/// Validates the publications.
pub fn reduce_publications(
    events: &Vec<ReducerEvent>,
    facts: &Facts,
    live_events: &Vec<bool>,
    reviews: &Vec<bool>,
    complaints: &mut SortedSet<ReducerDiagnostic>,
) -> (line: Line)
    requires
        facts.describe(events.deep_view()),
        flags_are(
            live_events@,
            events.deep_view(),
            |event: ReducerEventView| live(events.deep_view().to_multiset(), event),
        ),
        flags_are(
            reviews@,
            events.deep_view(),
            |event: ReducerEventView| valid_review(events.deep_view().to_multiset(), event),
        ),
    ensures
        flags_are(
            line.valid@,
            events.deep_view(),
            |event: ReducerEventView| valid_publication(events.deep_view().to_multiset(), event),
        ),
        flags_are(
            line.heads@,
            events.deep_view(),
            |event: ReducerEventView| publication_head(events.deep_view().to_multiset(), event),
        ),
        final(complaints).deep_view() == old(complaints).deep_view().union(
            gathered(
                events.deep_view().to_multiset(),
                |event: ReducerEventView| publication_complaints(events.deep_view().to_multiset(), event),
            ),
        ).union(
            gathered(
                events.deep_view().to_multiset(),
                |event: ReducerEventView| publication_lineage_complaints(events.deep_view().to_multiset(), event),
            ),
        ),
{
    let ghost list = events.deep_view();
    let ghost members = list.to_multiset();
    complain_of_publications(events, facts, live_events, reviews, complaints);
    let nodes = list_publications(events, facts, live_events, reviews);
    let line = validate_dag(
        Ghost(list),
        Ghost(|event: ReducerEventView| publication_node(members, event)),
        &nodes,
        Lineage::Publication,
        complaints,
    );
    proof {
        crate::gather::gathered_same(
            members,
            |event: ReducerEventView|
                lineage_complaint(
                    Lineage::Publication,
                    nodes_among(members, |event: ReducerEventView| publication_node(members, event)),
                    publication_node(members, event),
                ),
            |event: ReducerEventView| publication_lineage_complaints(members, event),
        );
        assert forall|i: int| 0 <= i < list.len() implies #[trigger] line.valid@[i] == valid_publication(
            members,
            list[i],
        ) by {}
        assert forall|i: int| 0 <= i < list.len() implies #[trigger] line.heads@[i] == publication_head(
            members,
            list[i],
        ) by {}
    }
    line
}

/// The association that an event records.
pub open spec fn association_of(event: ReducerEventView) -> Option<ContextSpaceAssociationView> {
    match event.payload {
        ReducerPayloadView::ContextSpaceAssociationChanged { association } => Some(association),
        _ => None,
    }
}

/// The Candidate that an event creates.
pub open spec fn candidate_of(event: ReducerEventView) -> Option<ContextCandidateView> {
    match event.payload {
        ReducerPayloadView::ContextCandidateCreated { candidate } => Some(candidate),
        _ => None,
    }
}

/// Whether a sound event creates a Candidate.
pub open spec fn creates_candidate(
    events: Multiset<ReducerEventView>,
    event: ReducerEventView,
    candidate_id: CandidateId,
) -> bool {
    sound(events, event) && candidate_of(event) is Some && candidate_of(event)->Some_0.candidate_id == candidate_id
}

/// Whether a Candidate is validly created.
pub open spec fn candidate_exists(events: Multiset<ReducerEventView>, candidate_id: CandidateId) -> bool {
    exists|event: ReducerEventView| #[trigger]
        events.contains(event) && creates_candidate(events, event, candidate_id)
}

/// Whether all of some Spaces are among others.
pub open spec fn all_among(spaces: Seq<SpaceId>, valid: Set<SpaceId>) -> bool {
    forall|i: int| 0 <= i < spaces.len() ==> valid.contains(#[trigger] spaces[i])
}

/// Whether an association names valid Spaces and a live Context, and, where it comes from a
/// Candidate, the Space that owns the Context and a valid Candidate.
pub open spec fn association_refers(
    events: Multiset<ReducerEventView>,
    association: ContextSpaceAssociationView,
) -> bool {
    &&& valid_spaces(events).contains(association.primary_space_id)
    &&& all_among(association.related_space_ids, valid_spaces(events))
    &&& context_lives(events, association.context_id)
    &&& match association.origin {
        ContextSpaceAssociationOrigin::CandidateConfirmation { candidate_id } => live_context(
            events,
            association.primary_space_id,
            association.context_id,
        ) && candidate_exists(events, candidate_id),
        ContextSpaceAssociationOrigin::Correction => true,
    }
}

/// The association that an event contributes to the lineage of its Context.
pub open spec fn association_node(
    events: Multiset<ReducerEventView>,
    event: ReducerEventView,
) -> Option<DagNodeView> {
    match association_of(event) {
        Some(association) => {
            if sound(events, event) && association_refers(events, association) {
                Some(
                    DagNodeView {
                        id: association.association_id.number(),
                        group: association.context_id.number(),
                        event_id: event.event_id,
                        parents: id_numbers(association.previous_association_ids),
                    },
                )
            } else {
                None
            }
        },
        None => None,
    }
}

/// The associations of live Contexts.
pub open spec fn association_nodes(events: Multiset<ReducerEventView>) -> Set<DagNodeView> {
    nodes_among(events, |event: ReducerEventView| association_node(events, event))
}

/// Whether an event records a valid association.
pub open spec fn valid_association(events: Multiset<ReducerEventView>, event: ReducerEventView) -> bool {
    is_valid_member(association_nodes(events), association_node(events, event))
}

/// Whether an event records an association that no valid association succeeds.
pub open spec fn association_head(events: Multiset<ReducerEventView>, event: ReducerEventView) -> bool {
    is_head_member(association_nodes(events), association_node(events, event))
}

/// What the references of associations contribute to the diagnostics.
pub open spec fn association_complaints(
    events: Multiset<ReducerEventView>,
    event: ReducerEventView,
) -> Set<ReducerDiagnosticView> {
    match association_of(event) {
        Some(association) => {
            let text = association.association_id.text();
            if sound(events, event) && !association_refers(events, association) {
                Set::empty().insert(
                    diagnostic(
                        ReducerDiagnosticCode::InvalidSpaceAssociationReference,
                        text,
                        one_event(event.event_id),
                        "Space Association "@ + text + " does not reference valid Spaces and an owned Context"@,
                    ),
                )
            } else {
                Set::empty()
            }
        },
        None => Set::empty(),
    }
}

/// What association lineages contribute to the diagnostics.
pub open spec fn association_lineage_complaints(
    events: Multiset<ReducerEventView>,
    event: ReducerEventView,
) -> Set<ReducerDiagnosticView> {
    lineage_complaint(Lineage::Association, association_nodes(events), association_node(events, event))
}

/// Whether a Candidate is validly created.
fn has_candidate(events: &Vec<ReducerEvent>, facts: &Facts, candidate_id: CandidateId) -> (found: bool)
    requires
        facts.describe(events.deep_view()),
    ensures
        found == exists|event: ReducerEventView| #[trigger] events.deep_view().to_multiset().contains(event)
            && creates_candidate(events.deep_view().to_multiset(), event, candidate_id),
{
    let ghost list = events.deep_view();
    let ghost members = list.to_multiset();
    let mut index: usize = 0;
    while index < events.len()
        invariant
            index <= events@.len(),
            list == events.deep_view(),
            members == list.to_multiset(),
            facts.describe(events.deep_view()),
            forall|i: int| 0 <= i < index ==> !(creates_candidate(members, #[trigger] list[i], candidate_id)),
        decreases events@.len() - index,
    {
        if has_candidate_at(events, index, facts, candidate_id) {
            proof {
                is_member(list, index as int);
            }
            return true;
        }
        index = index + 1;
    }
    proof {
        if exists|event: ReducerEventView| #[trigger] members.contains(event)
            && creates_candidate(members, event, candidate_id) {
            let event = choose|event: ReducerEventView| #[trigger] members.contains(event)
                && creates_candidate(members, event, candidate_id);
            let at = place_in(list, event);
        }
    }
    false
}

fn has_candidate_at(events: &Vec<ReducerEvent>, at: usize, facts: &Facts, candidate_id: CandidateId) -> (found: bool)
    requires
        at < events@.len(),
        facts.describe(events.deep_view()),
    ensures
        found == creates_candidate(events.deep_view().to_multiset(), events.deep_view()[at as int], candidate_id),
{
    let ghost list = events.deep_view();
    assert(list[at as int] == events@[at as int].deep_view());
    match &events[at].payload {
        ReducerPayload::ContextCandidateCreated { candidate } => {
            facts.sound[at] && candidate.candidate_id == candidate_id
        },
        _ => false,
    }
}

/// Whether all of some Spaces are among others.
pub fn are_all_valid(spaces: &Vec<SpaceId>, valid: &SortedSet<SpaceId>) -> (all: bool)
    ensures
        all == all_among(spaces.deep_view(), valid.deep_view()),
{
    let mut index: usize = 0;
    while index < spaces.len()
        invariant
            index <= spaces@.len(),
            forall|i: int| 0 <= i < index ==> valid.deep_view().contains(#[trigger] spaces.deep_view()[i]),
        decreases spaces@.len() - index,
    {
        assert(spaces.deep_view()[index as int] == spaces@[index as int]);
        if !valid.contains(&spaces[index]) {
            return false;
        }
        index = index + 1;
    }
    assert(spaces.deep_view().len() == spaces@.len());
    true
}

/// Whether the references of an association are valid.
fn associates_validly(
    events: &Vec<ReducerEvent>,
    facts: &Facts,
    live_events: &Vec<bool>,
    association: &ContextSpaceAssociation,
) -> (valid: bool)
    requires
        facts.describe(events.deep_view()),
        flags_are(
            live_events@,
            events.deep_view(),
            |event: ReducerEventView| live(events.deep_view().to_multiset(), event),
        ),
    ensures
        valid == association_refers(events.deep_view().to_multiset(), association.deep_view()),
{
    let ghost members = events.deep_view().to_multiset();
    let ghost model = association.deep_view();
    if !facts.spaces.contains(&association.primary_space_id) {
        return false;
    }
    if !are_all_valid(&association.related_space_ids, &facts.spaces) {
        return false;
    }
    let lives = does_context_live(events, live_events, association.context_id);
    assert(lives == context_lives(members, model.context_id));
    if !lives {
        return false;
    }
    match association.origin {
        ContextSpaceAssociationOrigin::CandidateConfirmation { candidate_id } => {
            let owned = has_live_context(
                events,
                live_events,
                association.primary_space_id,
                association.context_id,
            );
            assert(owned == live_context(members, model.primary_space_id, model.context_id));
            let created = has_candidate(events, facts, candidate_id);
            assert(created == candidate_exists(members, candidate_id));
            owned && created
        },
        ContextSpaceAssociationOrigin::Correction => true,
    }
}

/// Lists the associations of live Contexts.
fn list_associations(
    events: &Vec<ReducerEvent>,
    facts: &Facts,
    live_events: &Vec<bool>,
) -> (nodes: Vec<Option<DagNode>>)
    requires
        facts.describe(events.deep_view()),
        flags_are(
            live_events@,
            events.deep_view(),
            |event: ReducerEventView| live(events.deep_view().to_multiset(), event),
        ),
    ensures
        nodes_are(
            nodes.deep_view(),
            events.deep_view(),
            |event: ReducerEventView| association_node(events.deep_view().to_multiset(), event),
        ),
{
    let ghost list = events.deep_view();
    let ghost members = list.to_multiset();
    let mut nodes: Vec<Option<DagNode>> = Vec::new();
    let mut index: usize = 0;
    while index < events.len()
        invariant
            index <= events@.len(),
            list == events.deep_view(),
            members == list.to_multiset(),
            facts.describe(events.deep_view()),
            flags_are(
                live_events@,
                events.deep_view(),
                |event: ReducerEventView| live(events.deep_view().to_multiset(), event),
            ),
            nodes@.len() == index,
            forall|i: int| 0 <= i < index ==> #[trigger] nodes.deep_view()[i] == association_node(members, list[i]),
        decreases events@.len() - index,
    {
        let node = list_associations_at(events, index, facts, live_events);
        let ghost before = nodes.deep_view();
        push_value(&mut nodes, node);
        assert forall|i: int| 0 <= i < index + 1 implies #[trigger] nodes.deep_view()[i] == association_node(members, list[i]) by {
            if i < index {
                assert(before[i] == association_node(members, list[i]));
            }
        }
        index = index + 1;
    }
    nodes
}

fn list_associations_at(
    events: &Vec<ReducerEvent>,
    at: usize,
    facts: &Facts,
    live_events: &Vec<bool>,
) -> (node: Option<DagNode>)
    requires
        at < events@.len(),
        facts.describe(events.deep_view()),
        flags_are(
            live_events@,
            events.deep_view(),
            |event: ReducerEventView| live(events.deep_view().to_multiset(), event),
        ),
    ensures
        node.deep_view() == association_node(events.deep_view().to_multiset(), events.deep_view()[at as int]),
{
    let ghost list = events.deep_view();
    assert(list[at as int] == events@[at as int].deep_view());
    assert(facts.sound@[at as int] == sound(list.to_multiset(), list[at as int]));
    match &events[at].payload {
        ReducerPayload::ContextSpaceAssociationChanged { association } => {
            if facts.sound[at] && associates_validly(events, facts, live_events, association) {
                Some(
                    DagNode {
                        id: association.association_id.get(),
                        group: association.context_id.get(),
                        event_id: events[at].event_id,
                        parents: numbers_of(&association.previous_association_ids),
                    },
                )
            } else {
                None
            }
        },
        _ => None,
    }
}

/// Adds what the references of associations contribute to the diagnostics.
fn complain_of_associations(
    events: &Vec<ReducerEvent>,
    facts: &Facts,
    live_events: &Vec<bool>,
    complaints: &mut SortedSet<ReducerDiagnostic>,
)
    requires
        facts.describe(events.deep_view()),
        flags_are(
            live_events@,
            events.deep_view(),
            |event: ReducerEventView| live(events.deep_view().to_multiset(), event),
        ),
    ensures
        final(complaints).deep_view() == old(complaints).deep_view().union(
            gathered(
                events.deep_view().to_multiset(),
                |event: ReducerEventView| association_complaints(events.deep_view().to_multiset(), event),
            ),
        ),
{
    let ghost list = events.deep_view();
    let ghost members = list.to_multiset();
    let ghost share = |event: ReducerEventView| association_complaints(members, event);
    let ghost start = complaints.deep_view();
    proof {
        gathered_none(list, share);
        assert(start =~= start.union(Set::empty()));
    }
    let mut index: usize = 0;
    while index < events.len()
        invariant
            index <= events@.len(),
            list == events.deep_view(),
            members == list.to_multiset(),
            share == (|event: ReducerEventView| association_complaints(members, event)),
            facts.describe(events.deep_view()),
            flags_are(
                live_events@,
                events.deep_view(),
                |event: ReducerEventView| live(events.deep_view().to_multiset(), event),
            ),
            complaints.deep_view() == start.union(gathered_first(list, share, index as int)),
        decreases events@.len() - index,
    {
        complain_of_associations_at(events, index, facts, live_events, complaints);
        proof {
            gathered_next(list, share, index as int);
            assert(complaints.deep_view() =~= start.union(gathered_first(list, share, index + 1)));
        }
        index = index + 1;
    }
    proof {
        gathered_whole(list, share);
    }
}

fn complain_of_associations_at(
    events: &Vec<ReducerEvent>,
    at: usize,
    facts: &Facts,
    live_events: &Vec<bool>,
    complaints: &mut SortedSet<ReducerDiagnostic>,
)
    requires
        at < events@.len(),
        facts.describe(events.deep_view()),
        flags_are(
            live_events@,
            events.deep_view(),
            |event: ReducerEventView| live(events.deep_view().to_multiset(), event),
        ),
    ensures
        final(complaints).deep_view() == old(complaints).deep_view().union(
            association_complaints(events.deep_view().to_multiset(), events.deep_view()[at as int]),
        ),
{
    let ghost list = events.deep_view();
    let ghost start = complaints.deep_view();
    assert(list[at as int] == events@[at as int].deep_view());
    assert(facts.sound@[at as int] == sound(list.to_multiset(), list[at as int]));
    if let ReducerPayload::ContextSpaceAssociationChanged { association } = &events[at].payload {
        if facts.sound[at] && !associates_validly(events, facts, live_events, association) {
            let text = association.association_id.to_string();
            let message = joined3(
                "Space Association ",
                text.as_str(),
                " does not reference valid Spaces and an owned Context",
            );
            add_event_diagnostic(
                complaints,
                ReducerDiagnosticCode::InvalidSpaceAssociationReference,
                text.as_str(),
                events[at].event_id,
                message,
            );
        }
    }
    assert(complaints.deep_view() =~= start.union(association_complaints(list.to_multiset(), list[at as int])));
}

/// Validates the associations.
pub fn reduce_associations(
    events: &Vec<ReducerEvent>,
    facts: &Facts,
    live_events: &Vec<bool>,
    complaints: &mut SortedSet<ReducerDiagnostic>,
) -> (line: Line)
    requires
        facts.describe(events.deep_view()),
        flags_are(
            live_events@,
            events.deep_view(),
            |event: ReducerEventView| live(events.deep_view().to_multiset(), event),
        ),
    ensures
        flags_are(
            line.valid@,
            events.deep_view(),
            |event: ReducerEventView| valid_association(events.deep_view().to_multiset(), event),
        ),
        flags_are(
            line.heads@,
            events.deep_view(),
            |event: ReducerEventView| association_head(events.deep_view().to_multiset(), event),
        ),
        final(complaints).deep_view() == old(complaints).deep_view().union(
            gathered(
                events.deep_view().to_multiset(),
                |event: ReducerEventView| association_complaints(events.deep_view().to_multiset(), event),
            ),
        ).union(
            gathered(
                events.deep_view().to_multiset(),
                |event: ReducerEventView| association_lineage_complaints(events.deep_view().to_multiset(), event),
            ),
        ),
{
    let ghost list = events.deep_view();
    let ghost members = list.to_multiset();
    complain_of_associations(events, facts, live_events, complaints);
    let nodes = list_associations(events, facts, live_events);
    let line = validate_dag(
        Ghost(list),
        Ghost(|event: ReducerEventView| association_node(members, event)),
        &nodes,
        Lineage::Association,
        complaints,
    );
    proof {
        crate::gather::gathered_same(
            members,
            |event: ReducerEventView|
                lineage_complaint(
                    Lineage::Association,
                    nodes_among(members, |event: ReducerEventView| association_node(members, event)),
                    association_node(members, event),
                ),
            |event: ReducerEventView| association_lineage_complaints(members, event),
        );
        assert forall|i: int| 0 <= i < list.len() implies #[trigger] line.valid@[i] == valid_association(
            members,
            list[i],
        ) by {}
        assert forall|i: int| 0 <= i < list.len() implies #[trigger] line.heads@[i] == association_head(
            members,
            list[i],
        ) by {}
    }
    line
}

} // verus!
