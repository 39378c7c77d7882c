//! What holds of a reduction, fact by fact: what Events stand for, and where they are projected.

use vstd::multiset::Multiset;
use vstd::prelude::*;

use crate::candidates::{
    association_entries_agree, association_entry, candidate_entries_agree, candidate_entry, confirmation_conflict,
    confirmation_conflict_entry, head_associations, submission_conflict, submission_entries_agree, submission_entry,
};
use crate::confirmation::ContextSpaceAssociationOrigin;
use crate::confirmed::{
    confirmation_entries_agree, confirmation_entry, creates_space, reference_entries_agree, reference_entry,
    target_lives, valid_confirmation,
};
use crate::contexts::{
    governance, governing_is_unique, has_verdict, head_publications, head_share, heads_in, intent_head,
    publication_entries_agree, publication_entry, replaced_by, review_entries_agree, review_entry, review_events,
    review_summary, revision_entries_agree, revision_entry, superseded, valid_intent,
};
use crate::definitions::{defines, definition, duplicated, sound, Definition, DefinitionKind};
use crate::episode::submission_hash;
use crate::events::{ContextGovernanceStatusView, ReducerEventView, ReducerPayloadView};
use crate::gather::{gathered_is_finite, keyed_value};
use crate::governance::{
    association_head, candidate_exists, context_lives, is_reviewed, live_as, live_context, live_in, live_is_revision,
    live_revision, publication_head, publication_of, revision_head, succeeds, valid_association, valid_publication,
    valid_review,
};
use crate::ids::{ContextId, EventId, RevisionId, SpaceId};
use crate::lineage::{context_exists, live, parent_quarantined, quarantine, relation_fault, revision_fault};
use crate::model::{ContextRevisionView, PublicationView, ReviewVerdict, ReviewView};
use crate::ownership::{ambiguous, claimant, claimed, founded, needed_spaces, valid_spaces};
use crate::reducer::{
    context_entries_agree, context_entry, context_projection, intent_entries_agree, intent_entry, projection,
    space_entries_agree, space_entry, space_projection,
};
use crate::statuses::{conflict_entries_agree, conflict_entry};

verus! {

/// Every Event defines its own identity and the identities of what it brings.
pub proof fn events_define_what_they_bring(event: ReducerEventView)
    ensures
        defines(event, definition(DefinitionKind::Event, event.event_id)),
        match event.payload {
            ReducerPayloadView::ContextCandidateCreated { candidate } => defines(
                event,
                definition(DefinitionKind::Candidate, candidate.candidate_id),
            ) && defines(event, definition(DefinitionKind::Submission, candidate.submission_id)),
            ReducerPayloadView::CandidateConfirmed { confirmation } => defines(
                event,
                definition(DefinitionKind::Confirmation, confirmation.confirmation_id),
            ) && defines(event, definition(DefinitionKind::ConfirmedCandidate, confirmation.candidate_id)),
            ReducerPayloadView::SpaceCreated { space_id, intent_revision } => defines(
                event,
                definition(DefinitionKind::SpaceCreation, space_id),
            ) && defines(event, definition(DefinitionKind::IntentRevision, intent_revision.revision_id)),
            ReducerPayloadView::SpaceIntentRevisionAdded { space_id: _, intent_revision } => defines(
                event,
                definition(DefinitionKind::IntentRevision, intent_revision.revision_id),
            ),
            ReducerPayloadView::ContextRevisionAdded { space_id: _, context_id: _, revision } => defines(
                event,
                definition(DefinitionKind::ContextRevision, revision.revision_id),
            ) && forall|i: int|
                0 <= i < revision.evidence.len() ==> defines(
                    event,
                    definition(DefinitionKind::Evidence, (#[trigger] revision.evidence[i]).evidence_id),
                ),
            ReducerPayloadView::ContextReviewed { space_id: _, context_id: _, review } => defines(
                event,
                definition(DefinitionKind::Review, review.review_id),
            ),
            ReducerPayloadView::ContextPublicationChanged { space_id: _, context_id: _, publication } => defines(
                event,
                definition(DefinitionKind::Publication, publication.publication_id),
            ),
            ReducerPayloadView::ContextSpaceAssociationChanged { association } => defines(
                event,
                definition(DefinitionKind::Association, association.association_id),
            ),
            ReducerPayloadView::SemanticConflictOpened { space_id: _, conflict } => defines(
                event,
                definition(DefinitionKind::Conflict, conflict.conflict_id),
            ),
            ReducerPayloadView::SemanticConflictResolutionAdded { space_id: _, conflict_id: _, resolution } => defines(
                event,
                definition(DefinitionKind::Resolution, resolution.resolution_id),
            ),
            ReducerPayloadView::EngineeringReferenceRecorded { context_id: _, revision_id: _, reference } => defines(
                event,
                definition(DefinitionKind::Reference, reference.reference_id),
            ),
        },
{
    let own = crate::definitions::payload_definitions(event.payload);
    let all = crate::definitions::definitions(event);
    assert(all[0] == definition(DefinitionKind::Event, event.event_id));
    assert forall|i: int| 0 <= i < own.len() implies defines(event, #[trigger] own[i]) by {
        assert(all[i + 1] == own[i]);
    }
    match event.payload {
        ReducerPayloadView::ContextCandidateCreated { candidate } => {
            assert(defines(event, own[0]) && defines(event, own[1]));
        },
        ReducerPayloadView::CandidateConfirmed { confirmation } => {
            assert(defines(event, own[0]) && defines(event, own[1]));
        },
        ReducerPayloadView::SpaceCreated { space_id, intent_revision } => {
            assert(defines(event, own[0]) && defines(event, own[1]));
        },
        ReducerPayloadView::ContextRevisionAdded { space_id: _, context_id: _, revision } => {
            assert(defines(event, own[0]));
            assert forall|i: int| 0 <= i < revision.evidence.len() implies defines(
                event,
                definition(DefinitionKind::Evidence, (#[trigger] revision.evidence[i]).evidence_id),
            ) by {
                assert(own[i + 1] == definition(DefinitionKind::Evidence, revision.evidence[i].evidence_id));
                assert(defines(event, own[i + 1]));
            }
        },
        _ => {
            assert(defines(event, own[0]));
        },
    }
}

/// Two Events that define one identity are both unsound: no winner is selected. Only the creation of
/// a Space and the recording of a Reference leave an Event sound in itself.
pub proof fn shared_identities_are_unsound(
    events: Multiset<ReducerEventView>,
    a: ReducerEventView,
    b: ReducerEventView,
    defined: Definition,
)
    requires
        events.contains(a),
        events.contains(b),
        a != b,
        defines(a, defined),
        defines(b, defined),
        !(defined.kind is SpaceCreation),
        !(defined.kind is Reference),
    ensures
        !sound(events, a),
        !sound(events, b),
{
    crate::gather::different_are_many(events, |event: ReducerEventView| defines(event, defined), a, b);
    assert(duplicated(events, defined));
    crate::definitions::colliding_events_are_unsound(events, a, defined);
    crate::definitions::colliding_events_are_unsound(events, b, defined);
}

/// A Space is valid where a sound Event creates it and no other does; nothing else makes a Space.
pub proof fn spaces_are_founded_once(events: Multiset<ReducerEventView>, event: ReducerEventView, space_id: SpaceId)
    requires
        events.contains(event),
        sound(events, event),
        creates_space(event, space_id),
    ensures
        valid_spaces(events).contains(space_id) <==> !duplicated(
            events,
            definition(DefinitionKind::SpaceCreation, space_id),
        ),
        event.payload is SpaceCreated,
{
    let share = |event: ReducerEventView| founded(events, event);
    if !duplicated(events, definition(DefinitionKind::SpaceCreation, space_id)) {
        assert(share(event).contains(space_id));
    }
}

/// A valid Space is projected, under its own identity.
pub proof fn valid_spaces_are_projected(events: Multiset<ReducerEventView>, space_id: SpaceId)
    requires
        valid_spaces(events).contains(space_id),
    ensures
        projection(events).spaces.contains_key(space_id),
        projection(events).spaces[space_id].space_id == space_id,
        projection(events).spaces[space_id] == space_projection(events, space_id),
{
    let share = |event: ReducerEventView| founded(events, event);
    let founder = choose|event: ReducerEventView| #[trigger] events.contains(event)
        && share(event).contains(space_id);
    let entry = |event: ReducerEventView| space_entry(events, event);
    space_entries_agree(events);
    keyed_value(events, entry, founder);
}

/// A Space that is projected is valid: some sound Event creates it.
pub proof fn projected_spaces_are_valid(events: Multiset<ReducerEventView>, space_id: SpaceId)
    requires
        projection(events).spaces.contains_key(space_id),
    ensures
        valid_spaces(events).contains(space_id),
{
    let entry = |event: ReducerEventView| space_entry(events, event);
    let share = |event: ReducerEventView| founded(events, event);
    let founder = choose|event: ReducerEventView| #[trigger]
        events.contains(event) && crate::gather::gives_key(entry, event, space_id);
    assert(share(founder).contains(space_id));
}

/// A Context is claimed by every Event that adds to it, reviews it or publishes it, and by every
/// conflict and resolution that names it, each for the Space that the Event belongs to.
pub proof fn events_claim_their_contexts(event: ReducerEventView)
    ensures
        match event.payload {
            ReducerPayloadView::ContextRevisionAdded { space_id, context_id, revision: _ } => claimed(event)
                == seq![context_id] && claimant(event) == Some(space_id),
            ReducerPayloadView::ContextReviewed { space_id, context_id, review: _ } => claimed(event)
                == seq![context_id] && claimant(event) == Some(space_id),
            ReducerPayloadView::ContextPublicationChanged { space_id, context_id, publication: _ } => claimed(event)
                == seq![context_id] && claimant(event) == Some(space_id),
            ReducerPayloadView::SemanticConflictOpened { space_id, conflict } => claimed(event).len()
                == conflict.participants.len() && claimant(event) == Some(space_id) && forall|i: int|
                0 <= i < conflict.participants.len() ==> claimed(event)[i] == (
                #[trigger] conflict.participants[i]).context_id,
            ReducerPayloadView::SemanticConflictResolutionAdded { space_id, conflict_id: _, resolution } => claimed(
                event,
            ).len() == resolution.results.len() && claimant(event) == Some(space_id) && forall|i: int|
                0 <= i < resolution.results.len() ==> claimed(event)[i] == (
                    #[trigger] resolution.results[i]
                ).context_id,
            _ => claimed(event).len() == 0 && claimant(event) is None,
        },
{
}

/// A Context that Events of two Spaces claim is ambiguous, and none of its revisions lives.
pub proof fn contexts_of_two_spaces_do_not_live(
    events: Multiset<ReducerEventView>,
    a: ReducerEventView,
    b: ReducerEventView,
    event: ReducerEventView,
    context_id: ContextId,
)
    requires
        events.contains(a),
        events.contains(b),
        claimed(a).contains(context_id),
        claimed(b).contains(context_id),
        claimant(a) != claimant(b),
        crate::lineage::adds_to(event, context_id),
    ensures
        ambiguous(events, context_id),
        !live(events, event),
{
    assert(ambiguous(events, context_id));
}

/// A revision that lives is sound, belongs to a valid Space and to a Context that one Space claims,
/// and is not quarantined for its relations.
pub proof fn live_revisions_are_owned(
    events: Multiset<ReducerEventView>,
    event: ReducerEventView,
    space_id: SpaceId,
    context_id: ContextId,
    revision: ContextRevisionView,
)
    requires
        live(events, event),
        event.payload == (ReducerPayloadView::ContextRevisionAdded { space_id, context_id, revision }),
    ensures
        sound(events, event),
        valid_spaces(events).contains(space_id),
        !ambiguous(events, context_id),
        !quarantine(events).contains(event),
{
}

/// Why a revision is quarantined for its relations: one of them is invalid in itself, leads back to
/// its own Context, or leads to a Context that does not exist outside of quarantine; or a parent of
/// the revision is quarantined.
pub proof fn relations_must_lead_somewhere(
    events: Multiset<ReducerEventView>,
    quarantined: Set<ReducerEventView>,
    context_id: ContextId,
    relation: crate::engineering::ContextRelationView,
)
    ensures
        relation_fault(events, quarantined, context_id, relation) is None <==> relation.problem() is None
            && relation.target_context_id != context_id && context_exists(
            events,
            quarantined,
            relation.target_context_id,
        ),
{
}

/// A revision with a faulty relation, or with a quarantined parent, is faulty; any other is not.
pub proof fn faulty_revisions_have_a_reason(
    events: Multiset<ReducerEventView>,
    quarantined: Set<ReducerEventView>,
    event: ReducerEventView,
    space_id: SpaceId,
    context_id: ContextId,
    revision: ContextRevisionView,
)
    requires
        event.payload == (ReducerPayloadView::ContextRevisionAdded { space_id, context_id, revision }),
    ensures
        revision_fault(events, quarantined, event) is None <==> (forall|i: int|
            0 <= i < revision.relations.len() ==> relation_fault(
                events,
                quarantined,
                context_id,
                #[trigger] revision.relations[i],
            ) is None) && !parent_quarantined(quarantined, context_id, revision.parent_revision_ids),
{
    first_faults_are_faults(events, quarantined, context_id, revision.relations, 0);
}

proof fn first_faults_are_faults(
    events: Multiset<ReducerEventView>,
    quarantined: Set<ReducerEventView>,
    context_id: ContextId,
    relations: Seq<crate::engineering::ContextRelationView>,
    from: int,
)
    requires
        0 <= from,
    ensures
        crate::lineage::first_relation_fault(
            events,
            quarantined,
            context_id,
            relations,
            from,
        ) is None <==> forall|i: int|
            from <= i < relations.len() ==> relation_fault(events, quarantined, context_id, #[trigger] relations[i])
                is None,
    decreases relations.len() - from,
{
    if from < relations.len() {
        first_faults_are_faults(events, quarantined, context_id, relations, from + 1);
    }
}

/// A revision is a head exactly where it lives and no live revision of its Context names it as parent.
pub proof fn revision_heads_have_no_live_child(
    events: Multiset<ReducerEventView>,
    event: ReducerEventView,
    space_id: SpaceId,
    context_id: ContextId,
    revision: ContextRevisionView,
    child: ReducerEventView,
    next: ContextRevisionView,
    child_space: SpaceId,
)
    requires
        event.payload == (ReducerPayloadView::ContextRevisionAdded { space_id, context_id, revision }),
        child.payload == (
            ReducerPayloadView::ContextRevisionAdded { space_id: child_space, context_id, revision: next }
        ),
        events.contains(child),
        live(events, child),
        next.parent_revision_ids.contains(revision.revision_id),
    ensures
        !revision_head(events, event),
        revision_head(events, child) ==> live(events, child),
{
    assert(succeeds(events, child, event));
}

/// A review is valid exactly where it is sound and reviews a revision that lives in its Context.
pub proof fn valid_reviews_review_live_revisions(
    events: Multiset<ReducerEventView>,
    event: ReducerEventView,
    space_id: SpaceId,
    context_id: ContextId,
    review: ReviewView,
)
    requires
        event.payload == (ReducerPayloadView::ContextReviewed { space_id, context_id, review }),
    ensures
        valid_review(events, event) <==> sound(events, event) && live_revision(
            events,
            space_id,
            context_id,
            review.revision_id,
        ),
{
}

/// A revision lives in a Context of a Space where a live Event adds it there.
pub proof fn live_revisions_live_where_they_were_added(
    events: Multiset<ReducerEventView>,
    event: ReducerEventView,
    space_id: SpaceId,
    context_id: ContextId,
    revision: ContextRevisionView,
)
    requires
        events.contains(event),
        live(events, event),
        event.payload == (ReducerPayloadView::ContextRevisionAdded { space_id, context_id, revision }),
    ensures
        live_revision(events, space_id, context_id, revision.revision_id),
        live_context(events, space_id, context_id),
        context_lives(events, context_id),
{
    assert(live_as(events, event, space_id, context_id, revision.revision_id));
    assert(live_in(events, event, space_id, context_id));
    assert(crate::governance::live_anywhere(events, event, context_id));
}

/// A revision that lives somewhere was added there by a live Event.
pub proof fn what_lives_was_added(
    events: Multiset<ReducerEventView>,
    space_id: SpaceId,
    context_id: ContextId,
    revision_id: RevisionId,
) -> (event: ReducerEventView)
    requires
        live_revision(events, space_id, context_id, revision_id),
    ensures
        events.contains(event),
        live(events, event),
        event.payload matches ReducerPayloadView::ContextRevisionAdded {
            space_id: space,
            context_id: context,
            revision,
        }
            && space == space_id && context == context_id && revision.revision_id == revision_id,
{
    let event = choose|event: ReducerEventView| #[trigger]
        events.contains(event) && live_as(events, event, space_id, context_id, revision_id);
    live_is_revision(events, event);
    event
}

/// A valid publication is sound, publishes or withdraws a revision that lives in its Context, and
/// every review that it names is a valid review of that revision.
pub proof fn valid_publications_publish_live_revisions(
    events: Multiset<ReducerEventView>,
    event: ReducerEventView,
    space_id: SpaceId,
    context_id: ContextId,
    publication: PublicationView,
)
    requires
        valid_publication(events, event),
        event.payload == (ReducerPayloadView::ContextPublicationChanged { space_id, context_id, publication }),
    ensures
        sound(events, event),
        live_revision(events, space_id, context_id, publication.revision_id),
        forall|i: int|
            0 <= i < publication.review_event_ids.len() ==> is_reviewed(
                events,
                #[trigger] publication.review_event_ids[i],
                space_id,
                context_id,
                publication.revision_id,
            ),
{
}

/// What is reviewed has a valid review Event of that identity.
pub proof fn reviewed_revisions_have_a_review(
    events: Multiset<ReducerEventView>,
    event_id: EventId,
    space_id: SpaceId,
    context_id: ContextId,
    revision_id: RevisionId,
) -> (event: ReducerEventView)
    requires
        is_reviewed(events, event_id, space_id, context_id, revision_id),
    ensures
        events.contains(event),
        valid_review(events, event),
        event.event_id == event_id,
        event.payload matches ReducerPayloadView::ContextReviewed { space_id: space, context_id: context, review }
            && space == space_id && context == context_id && review.revision_id == revision_id,
{
    choose|event: ReducerEventView| #[trigger]
        events.contains(event) && crate::governance::reviews_as(
            events,
            event,
            event_id,
            space_id,
            context_id,
            revision_id,
        )
}

/// A Context without a publication head is unpublished, one with several is in conflict, and a single
/// head governs: the revision that it publishes is accepted, and the one that it withdraws deprecated.
pub proof fn heads_govern(
    events: Multiset<ReducerEventView>,
    space_id: SpaceId,
    context_id: ContextId,
    event: ReducerEventView,
    publication: PublicationView,
)
    requires
        events.contains(event),
        publication_head(events, event),
        event.payload == (ReducerPayloadView::ContextPublicationChanged { space_id, context_id, publication }),
    ensures
        ({
            let heads = head_publications(events, space_id, context_id);
            let status = governance(events, space_id, context_id);
            &&& heads.contains(publication.publication_id)
            &&& heads.len() == 1 && publication.action is Publish ==> status == (
                ContextGovernanceStatusView::Accepted {
                    publication_id: publication.publication_id,
                    revision_id: publication.revision_id,
                })
            &&& heads.len() == 1 && publication.action is Withdraw ==> status == (
                ContextGovernanceStatusView::Deprecated {
                    publication_id: publication.publication_id,
                    revision_id: publication.revision_id,
                })
            &&& heads.len() > 1 ==> status == (ContextGovernanceStatusView::GovernanceConflict {
                publication_ids: heads,
            })
            &&& !(status is Unpublished)
        }),
{
    let heads = head_publications(events, space_id, context_id);
    let share = |event: ReducerEventView| head_share(events, space_id, context_id, event);
    assert(heads_in(events, event, space_id, context_id));
    assert(share(event).contains(publication.publication_id));
    gathered_is_finite(events, share);
    assert(heads.contains(publication.publication_id));
    if heads.len() == 0 {
        assert(heads =~= Set::empty());
    }
    if heads.len() == 1 {
        governing_is_unique(events, space_id, context_id, event);
    }
}

/// Where no Event is a publication head of a Context, the Context is unpublished.
pub proof fn headless_contexts_are_unpublished(
    events: Multiset<ReducerEventView>,
    space_id: SpaceId,
    context_id: ContextId,
)
    requires
        forall|event: ReducerEventView| #[trigger]
            events.contains(event) ==> !heads_in(events, event, space_id, context_id),
    ensures
        governance(events, space_id, context_id) is Unpublished,
{
    assert(head_publications(events, space_id, context_id) =~= Set::empty());
}

/// The summary of the reviews of a revision tells whether valid reviews approve it and whether valid
/// reviews reject it.
pub proof fn reviews_are_summed_up(
    events: Multiset<ReducerEventView>,
    space_id: SpaceId,
    context_id: ContextId,
    revision_id: RevisionId,
)
    ensures
        ({
            let summary = review_summary(events, space_id, context_id, revision_id);
            let approved = has_verdict(events, space_id, context_id, revision_id, ReviewVerdict::Approve);
            let rejected = has_verdict(events, space_id, context_id, revision_id, ReviewVerdict::Reject);
            &&& summary is Mixed <==> approved && rejected
            &&& summary is Approved <==> approved && !rejected
            &&& summary is Rejected <==> !approved && rejected
            &&& summary is Unreviewed <==> !approved && !rejected
        }),
{
}

/// A verdict counts where a valid review of the revision gives it, and only there.
pub proof fn verdicts_are_given_by_reviews(
    events: Multiset<ReducerEventView>,
    event: ReducerEventView,
    space_id: SpaceId,
    context_id: ContextId,
    review: ReviewView,
)
    requires
        events.contains(event),
        valid_review(events, event),
        event.payload == (ReducerPayloadView::ContextReviewed { space_id, context_id, review }),
    ensures
        has_verdict(events, space_id, context_id, review.revision_id, review.verdict),
        review_events(events, space_id, context_id, review.revision_id).contains(event.event_id),
        context_projection(events, space_id, context_id).reviews.contains_key(event.event_id),
        context_projection(events, space_id, context_id).reviews[event.event_id] == review,
{
    assert(crate::contexts::gives_verdict(events, event, space_id, context_id, review.revision_id, review.verdict));
    let share = |event: ReducerEventView|
        crate::contexts::review_share(events, space_id, context_id, review.revision_id, event);
    assert(share(event).contains(event.event_id));
    let entry = |event: ReducerEventView| review_entry(events, space_id, context_id, event);
    review_entries_agree(events, space_id, context_id);
    keyed_value(events, entry, event);
}

/// A verdict that counts was given by a valid review of that revision.
pub proof fn counted_verdicts_were_given(
    events: Multiset<ReducerEventView>,
    space_id: SpaceId,
    context_id: ContextId,
    revision_id: RevisionId,
    verdict: ReviewVerdict,
) -> (event: ReducerEventView)
    requires
        has_verdict(events, space_id, context_id, revision_id, verdict),
    ensures
        events.contains(event),
        valid_review(events, event),
        event.payload matches ReducerPayloadView::ContextReviewed { space_id: space, context_id: context, review }
            && space == space_id && context == context_id && review.revision_id == revision_id && review.verdict
            == verdict,
{
    choose|event: ReducerEventView| #[trigger]
        events.contains(event) && crate::contexts::gives_verdict(
            events,
            event,
            space_id,
            context_id,
            revision_id,
            verdict,
        )
}

/// A revision is superseded where a valid publication of another revision of its Context names a
/// valid publication of it as the one before.
pub proof fn replaced_revisions_are_superseded(
    events: Multiset<ReducerEventView>,
    space_id: SpaceId,
    context_id: ContextId,
    earlier: ReducerEventView,
    later: ReducerEventView,
    before: PublicationView,
    after: PublicationView,
)
    requires
        events.contains(earlier) && valid_publication(events, earlier),
        events.contains(later) && valid_publication(events, later),
        earlier.payload == (ReducerPayloadView::ContextPublicationChanged {
            space_id,
            context_id,
            publication: before,
        }),
        later.payload == (ReducerPayloadView::ContextPublicationChanged {
            space_id,
            context_id,
            publication: after,
        }),
    ensures
        after.action is Publish && after.previous_publication_ids.contains(before.publication_id) && after.revision_id
            != before.revision_id ==> superseded(events, space_id, context_id, before.revision_id),
{
    if after.action is Publish && after.previous_publication_ids.contains(before.publication_id) && after.revision_id
        != before.revision_id {
        assert(replaced_by(events, earlier, later, space_id, context_id, before.revision_id));
    }
}

/// What is superseded was replaced so.
pub proof fn superseded_revisions_were_replaced(
    events: Multiset<ReducerEventView>,
    space_id: SpaceId,
    context_id: ContextId,
    revision_id: RevisionId,
) -> (found: (ReducerEventView, PublicationView, ReducerEventView, PublicationView))
    requires
        superseded(events, space_id, context_id, revision_id),
    ensures
        events.contains(found.0) && valid_publication(events, found.0),
        events.contains(found.2) && valid_publication(events, found.2),
        found.0.payload == (ReducerPayloadView::ContextPublicationChanged {
            space_id,
            context_id,
            publication: found.1,
        }),
        found.2.payload == (ReducerPayloadView::ContextPublicationChanged {
            space_id,
            context_id,
            publication: found.3,
        }),
        found.1.revision_id == revision_id,
        found.3.action is Publish,
        found.3.previous_publication_ids.contains(found.1.publication_id),
        found.3.revision_id != revision_id,
{
    let (earlier, later) = choose|earlier: ReducerEventView, later: ReducerEventView| #[trigger]
        events.contains(earlier) && #[trigger] events.contains(later) && replaced_by(
            events,
            earlier,
            later,
            space_id,
            context_id,
            revision_id,
        );
    (earlier, publication_of(earlier)->Some_0.2, later, publication_of(later)->Some_0.2)
}

/// Every live revision is projected in its Context under its own identity, as it was added, with its
/// reviews, whether it is a head, and the lifecycle that governance and its replacement give it.
pub proof fn live_revisions_are_projected(
    events: Multiset<ReducerEventView>,
    event: ReducerEventView,
    space_id: SpaceId,
    context_id: ContextId,
    revision: ContextRevisionView,
)
    requires
        events.contains(event),
        live(events, event),
        event.payload == (ReducerPayloadView::ContextRevisionAdded { space_id, context_id, revision }),
    ensures
        ({
            let context = context_projection(events, space_id, context_id);
            let entry = context.revisions[revision.revision_id];
            let status = governance(events, space_id, context_id);
            let replaced = superseded(events, space_id, context_id, revision.revision_id);
            &&& context.revisions.contains_key(revision.revision_id)
            &&& context.context_id == context_id
            &&& context.governance == status
            &&& entry.revision == revision
            &&& entry.is_head == revision_head(events, event)
            &&& entry.is_head ==> context.revision_heads.contains(revision.revision_id)
            &&& entry.review_summary == review_summary(events, space_id, context_id, revision.revision_id)
            &&& entry.review_event_ids == review_events(events, space_id, context_id, revision.revision_id)
            &&& entry.lifecycle is Accepted <==> crate::graph_laws::governs(status, revision.revision_id)
            &&& entry.lifecycle is Deprecated <==> crate::graph_laws::withdraws(status, revision.revision_id)
            &&& entry.lifecycle is Superseded ==> replaced
            &&& entry.lifecycle is Candidate ==> !replaced
        }),
{
    let entry = |event: ReducerEventView| revision_entry(events, space_id, context_id, event);
    revision_entries_agree(events, space_id, context_id);
    keyed_value(events, entry, event);
    let share = |event: ReducerEventView|
        crate::contexts::revision_head_share(events, space_id, context_id, event);
    if revision_head(events, event) {
        assert(share(event).contains(revision.revision_id));
    }
}

/// The Context of every live revision is projected in its Space.
pub proof fn live_contexts_are_projected(
    events: Multiset<ReducerEventView>,
    event: ReducerEventView,
    space_id: SpaceId,
    context_id: ContextId,
    revision: ContextRevisionView,
)
    requires
        events.contains(event),
        live(events, event),
        event.payload == (ReducerPayloadView::ContextRevisionAdded { space_id, context_id, revision }),
    ensures
        projection(events).spaces.contains_key(space_id),
        projection(events).spaces[space_id].contexts.contains_key(context_id),
        projection(events).spaces[space_id].contexts[context_id] == context_projection(events, space_id, context_id),
{
    live_revisions_are_owned(events, event, space_id, context_id, revision);
    valid_spaces_are_projected(events, space_id);
    let entry = |event: ReducerEventView| context_entry(events, space_id, event);
    context_entries_agree(events, space_id);
    keyed_value(events, entry, event);
}

/// Every valid publication is projected in its Context as it was made.
pub proof fn valid_publications_are_projected(
    events: Multiset<ReducerEventView>,
    event: ReducerEventView,
    space_id: SpaceId,
    context_id: ContextId,
    publication: PublicationView,
)
    requires
        events.contains(event),
        valid_publication(events, event),
        event.payload == (ReducerPayloadView::ContextPublicationChanged { space_id, context_id, publication }),
    ensures
        context_projection(events, space_id, context_id).publications.contains_key(publication.publication_id),
        context_projection(events, space_id, context_id).publications[publication.publication_id] == publication,
        publication_head(events, event) ==> context_projection(events, space_id, context_id).publication_heads.contains(
            publication.publication_id,
        ),
{
    let entry = |event: ReducerEventView| publication_entry(events, space_id, context_id, event);
    publication_entries_agree(events, space_id, context_id);
    keyed_value(events, entry, event);
    if publication_head(events, event) {
        let share = |event: ReducerEventView| head_share(events, space_id, context_id, event);
        assert(share(event).contains(publication.publication_id));
    }
}

/// Every valid intent revision is projected in its Space as it was made.
pub proof fn valid_intents_are_projected(
    events: Multiset<ReducerEventView>,
    event: ReducerEventView,
    space_id: SpaceId,
    revision: crate::model::IntentRevisionView,
)
    requires
        events.contains(event),
        valid_intent(events, event),
        event.payload == (ReducerPayloadView::SpaceIntentRevisionAdded { space_id, intent_revision: revision })
            || event.payload == (ReducerPayloadView::SpaceCreated { space_id, intent_revision: revision }),
    ensures
        space_projection(events, space_id).intent.revisions.contains_key(revision.revision_id),
        space_projection(events, space_id).intent.revisions[revision.revision_id] == revision,
        intent_head(events, event) ==> space_projection(events, space_id).intent.heads.contains(revision.revision_id),
{
    let entry = |event: ReducerEventView| intent_entry(events, space_id, event);
    intent_entries_agree(events, space_id);
    keyed_value(events, entry, event);
    let share = |event: ReducerEventView| crate::reducer::intent_head_share(events, space_id, event);
    if intent_head(events, event) {
        assert(share(event).contains(revision.revision_id));
    }
}

/// Every sound Candidate is projected as it was submitted, with the hash of its content.
pub proof fn sound_candidates_are_projected(
    events: Multiset<ReducerEventView>,
    event: ReducerEventView,
    candidate: crate::episode::ContextCandidateView,
)
    requires
        sound(events, event),
        event.payload == (ReducerPayloadView::ContextCandidateCreated { candidate }),
    ensures
        ({
            let all = projection(events);
            let submission = all.candidate_submissions[candidate.submission_id];
            &&& all.candidates.contains_key(candidate.candidate_id)
            &&& all.candidates[candidate.candidate_id].candidate == candidate
            &&& all.candidates[candidate.candidate_id].event_id == event.event_id
            &&& all.candidate_submissions.contains_key(candidate.submission_id)
            &&& submission.submission_id == candidate.submission_id
            &&& submission.candidate_id == candidate.candidate_id
            &&& submission.event_id == event.event_id
            &&& submission.source_episode == candidate.source_episode
            &&& submission.content_hash == submission_hash(candidate.source_episode, candidate.content)
        }),
{
    let candidates = |event: ReducerEventView| candidate_entry(events, event);
    candidate_entries_agree(events);
    keyed_value(events, candidates, event);
    let submissions = |event: ReducerEventView| submission_entry(events, event);
    submission_entries_agree(events);
    keyed_value(events, submissions, event);
}

/// A submission conflict lists every Event, Candidate and content that was submitted under the
/// identity.
pub proof fn submission_conflicts_list_every_submission(
    events: Multiset<ReducerEventView>,
    event: ReducerEventView,
    candidate: crate::episode::ContextCandidateView,
)
    requires
        events.contains(event),
        event.payload == (ReducerPayloadView::ContextCandidateCreated { candidate }),
    ensures
        ({
            let conflict = submission_conflict(events, candidate.submission_id);
            &&& conflict.submission_id == candidate.submission_id
            &&& conflict.event_ids.contains(event.event_id)
            &&& conflict.candidate_ids.contains(candidate.candidate_id)
            &&& conflict.content_hashes.contains(submission_hash(candidate.source_episode, candidate.content))
        }),
{
    let id = candidate.submission_id;
    let a = |event: ReducerEventView| crate::candidates::submission_event_share(id, event);
    let b = |event: ReducerEventView| crate::candidates::submission_candidate_share(id, event);
    let c = |event: ReducerEventView| crate::candidates::submission_content_share(id, event);
    assert(a(event).contains(event.event_id));
    assert(b(event).contains(candidate.candidate_id));
    assert(c(event).contains(submission_hash(candidate.source_episode, candidate.content)));
}

/// A confirmation conflict lists every confirmation of the Candidate.
pub proof fn confirmation_conflicts_list_every_confirmation(
    events: Multiset<ReducerEventView>,
    event: ReducerEventView,
    confirmation: crate::confirmation::CandidateConfirmationView,
)
    requires
        events.contains(event),
        event.payload == (ReducerPayloadView::CandidateConfirmed { confirmation }),
    ensures
        ({
            let conflict = confirmation_conflict(events, confirmation.candidate_id);
            &&& conflict.candidate_id == confirmation.candidate_id
            &&& conflict.event_ids.contains(event.event_id)
            &&& conflict.confirmation_ids.contains(confirmation.confirmation_id)
        }),
        duplicated(events, definition(DefinitionKind::ConfirmedCandidate, confirmation.candidate_id))
            <==> confirmation_conflict_entry(events, event) is Some,
{
    let id = confirmation.candidate_id;
    let a = |event: ReducerEventView| crate::candidates::confirming_event_share(id, event);
    let b = |event: ReducerEventView| crate::candidates::confirming_share(id, event);
    assert(a(event).contains(event.event_id));
    assert(b(event).contains(confirmation.confirmation_id));
}

/// A valid association is sound, its Spaces are valid, its Context lives, and one that a Candidate was
/// confirmed by has its Context in the primary Space and a Candidate that exists. It is projected as
/// it was made.
pub proof fn valid_associations_are_projected(
    events: Multiset<ReducerEventView>,
    event: ReducerEventView,
    association: crate::confirmation::ContextSpaceAssociationView,
)
    requires
        events.contains(event),
        valid_association(events, event),
        event.payload == (ReducerPayloadView::ContextSpaceAssociationChanged { association }),
    ensures
        sound(events, event),
        valid_spaces(events).contains(association.primary_space_id),
        forall|i: int|
            0 <= i < association.related_space_ids.len() ==> valid_spaces(events).contains(
                #[trigger] association.related_space_ids[i],
            ),
        context_lives(events, association.context_id),
        association.origin matches ContextSpaceAssociationOrigin::CandidateConfirmation { candidate_id }
            ==> live_context(events, association.primary_space_id, association.context_id) && candidate_exists(
            events,
            candidate_id,
        ),
        projection(events).context_space_associations.contains_key(association.association_id),
        projection(events).context_space_associations[association.association_id].association == association,
        projection(events).context_space_associations[association.association_id].event_id == event.event_id,
        association_head(events, event) ==> head_associations(events, association.context_id).contains(
            association.association_id,
        ),
{
    let entry = |event: ReducerEventView| association_entry(events, event);
    association_entries_agree(events);
    keyed_value(events, entry, event);
    let share = |event: ReducerEventView|
        crate::candidates::association_head_share(events, association.context_id, event);
    if association_head(events, event) {
        assert(share(event).contains(association.association_id));
    }
}

/// Every valid confirmation is projected as it was made.
pub proof fn valid_confirmations_are_projected(
    events: Multiset<ReducerEventView>,
    event: ReducerEventView,
    confirmation: crate::confirmation::CandidateConfirmationView,
)
    requires
        events.contains(event),
        valid_confirmation(events, event),
        event.payload == (ReducerPayloadView::CandidateConfirmed { confirmation }),
    ensures
        projection(events).candidate_confirmations.contains_key(confirmation.confirmation_id),
        projection(events).candidate_confirmations[confirmation.confirmation_id].confirmation == confirmation,
        projection(events).candidate_confirmations[confirmation.confirmation_id].event_id == event.event_id,
{
    let entry = |event: ReducerEventView| confirmation_entry(events, event);
    confirmation_entries_agree(events);
    keyed_value(events, entry, event);
}

/// A Reference is projected exactly where it is sound and recorded once, is valid in itself, and its
/// revision lives in its Context; it is projected as it was recorded.
pub proof fn references_to_live_revisions_are_projected(
    events: Multiset<ReducerEventView>,
    event: ReducerEventView,
    context_id: ContextId,
    revision_id: RevisionId,
    reference: crate::engineering::EngineeringReferenceView,
)
    requires
        sound(events, event),
        event.payload == (ReducerPayloadView::EngineeringReferenceRecorded { context_id, revision_id, reference }),
        !duplicated(events, definition(DefinitionKind::Reference, reference.reference_id)),
        reference.draft().problem() is None,
        target_lives(events, context_id, revision_id),
    ensures
        ({
            let entry = projection(events).engineering_references[reference.reference_id];
            &&& projection(events).engineering_references.contains_key(reference.reference_id)
            &&& entry.reference == reference
            &&& entry.context_id == context_id
            &&& entry.revision_id == revision_id
            &&& entry.event_id == event.event_id
        }),
{
    let entry = |event: ReducerEventView| reference_entry(events, event);
    reference_entries_agree(events);
    keyed_value(events, entry, event);
}

/// A Reference that is projected is valid, was recorded once, and its revision lives in its Context.
pub proof fn projected_references_target_live_revisions(
    events: Multiset<ReducerEventView>,
    event: ReducerEventView,
)
    requires
        reference_entry(events, event) is Some,
    ensures
        event.payload matches ReducerPayloadView::EngineeringReferenceRecorded { context_id, revision_id, reference }
            && sound(events, event) && !duplicated(
            events,
            definition(DefinitionKind::Reference, reference.reference_id),
        ) && reference.draft().problem() is None && target_lives(events, context_id, revision_id),
{
}

/// Every valid conflict is projected as it was opened, in its Space.
pub proof fn valid_conflicts_are_projected(
    events: Multiset<ReducerEventView>,
    event: ReducerEventView,
    space_id: SpaceId,
    conflict: crate::model::SemanticConflictView,
)
    requires
        events.contains(event),
        crate::conflicts::valid_conflict(events, event),
        event.payload == (ReducerPayloadView::SemanticConflictOpened { space_id, conflict }),
    ensures
        ({
            let entry = projection(events).semantic_conflicts[conflict.conflict_id];
            &&& projection(events).semantic_conflicts.contains_key(conflict.conflict_id)
            &&& entry.space_id == space_id
            &&& entry.conflict == conflict
            &&& entry.status == crate::statuses::conflict_status(events, space_id, conflict)
            &&& entry.resolution_heads == crate::statuses::head_resolutions(events, conflict.conflict_id)
            &&& valid_spaces(events).contains(space_id)
        }),
{
    let entry = |event: ReducerEventView| conflict_entry(events, event);
    conflict_entries_agree(events);
    keyed_value(events, entry, event);
}

/// The Spaces that an Event needs: those that it belongs to, relates and creates.
pub proof fn events_need_their_spaces(event: ReducerEventView)
    ensures
        claimant(event) matches Some(space_id) ==> needed_spaces(event).contains(space_id),
        match event.payload {
            ReducerPayloadView::CandidateConfirmed { confirmation } => needed_spaces(event).contains(
                confirmation.primary_space_id,
            ) && forall|i: int|
                0 <= i < confirmation.related_space_ids.len() ==> needed_spaces(event).contains(
                    #[trigger] confirmation.related_space_ids[i],
                ),
            ReducerPayloadView::ContextSpaceAssociationChanged { association } => needed_spaces(event).contains(
                association.primary_space_id,
            ) && forall|i: int|
                0 <= i < association.related_space_ids.len() ==> needed_spaces(event).contains(
                    #[trigger] association.related_space_ids[i],
                ),
            ReducerPayloadView::SpaceIntentRevisionAdded { space_id, intent_revision: _ } => needed_spaces(
                event,
            ).contains(space_id),
            _ => true,
        },
{
    let all = needed_spaces(event);
    if all.len() > 0 {
        assert(all.contains(all[0]));
    }
    match event.payload {
        ReducerPayloadView::CandidateConfirmed { confirmation } => {
            assert forall|i: int| 0 <= i < confirmation.related_space_ids.len() implies all.contains(
                #[trigger] confirmation.related_space_ids[i],
            ) by {
                assert(all[i + 1] == confirmation.related_space_ids[i]);
            }
        },
        ReducerPayloadView::ContextSpaceAssociationChanged { association } => {
            assert forall|i: int| 0 <= i < association.related_space_ids.len() implies all.contains(
                #[trigger] association.related_space_ids[i],
            ) by {
                assert(all[i + 1] == association.related_space_ids[i]);
            }
        },
        _ => {},
    }
}

} // verus!
