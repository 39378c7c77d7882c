//! Where what is projected comes from: everything in a projection goes back to an Event that stands.

use vstd::multiset::Multiset;
use vstd::prelude::*;

use crate::candidates::{
    association_conflict_entry, association_entry, association_head_share, association_heads_entry, candidate_entry,
    confirmation_conflict_entry, confirmation_of, head_associations, submission_conflict_entry, submission_entry,
};
use crate::confirmed::{confirmation_entry, reference_entry, reference_of, target_lives, valid_confirmation};
use crate::conflicts::{conflict_of, resolution_head, resolution_of, valid_conflict};
use crate::contexts::{
    head_share, intent_head, publication_entry, review_entry, revision_entry, revision_head_share, valid_intent,
};
use crate::definitions::{definition, duplicated, sound, DefinitionKind};
use crate::events::{ReducerDiagnosticView, ReducerEventView};
use crate::gather::{gathered, gives_key, keyed};
use crate::governance::{
    association_head, association_of, candidate_of, publication_head, publication_of, review_of, revision_head,
    valid_association, valid_publication, valid_review,
};
use crate::ids::{
    CandidateId, ConfirmationId, ConflictId, ContextId, EventId, PublicationId, ReferenceId, ResolutionId, RevisionId,
    SpaceAssociationId, SpaceId, SubmissionId,
};
use crate::lineage::{intent_of, live, revision_of};
use crate::model::{participant_contexts, ConflictParticipantView};
use crate::reducer::{
    all_diagnostics, complaints_of, context_entry, context_projection, intent_entry, intent_head_share, projection,
    space_projection,
};
use crate::statuses::{conflict_entry, head_resolutions, part_head_share, part_heads, resolution_head_share};

verus! {

proof fn giver<E, K, V>(members: Multiset<E>, entry: spec_fn(E) -> Option<(K, V)>, key: K) -> (member: E)
    requires
        keyed(members, entry).contains_key(key),
    ensures
        members.contains(member),
        entry(member) is Some,
        entry(member)->Some_0.0 == key,
{
    choose|member: E| #[trigger] members.contains(member) && gives_key(entry, member, key)
}

proof fn sharer<E, D>(members: Multiset<E>, share: spec_fn(E) -> Set<D>, item: D) -> (member: E)
    requires
        gathered(members, share).contains(item),
    ensures
        members.contains(member),
        share(member).contains(item),
{
    choose|member: E| #[trigger] members.contains(member) && share(member).contains(item)
}

/// Every revision of a projected Context was added there by an Event that lives.
pub proof fn projected_revisions_live(
    events: Multiset<ReducerEventView>,
    space_id: SpaceId,
    context_id: ContextId,
    revision_id: RevisionId,
) -> (event: ReducerEventView)
    requires
        context_projection(events, space_id, context_id).revisions.contains_key(revision_id),
    ensures
        events.contains(event),
        live(events, event),
        revision_of(event) is Some,
        revision_of(event)->Some_0.0 == space_id,
        revision_of(event)->Some_0.1 == context_id,
        revision_of(event)->Some_0.2.revision_id == revision_id,
{
    let entry = |event: ReducerEventView| revision_entry(events, space_id, context_id, event);
    giver(events, entry, revision_id)
}

/// Every revision head of a projected Context was added there and is a head.
pub proof fn projected_revision_heads_are_heads(
    events: Multiset<ReducerEventView>,
    space_id: SpaceId,
    context_id: ContextId,
    revision_id: RevisionId,
) -> (event: ReducerEventView)
    requires
        context_projection(events, space_id, context_id).revision_heads.contains(revision_id),
    ensures
        events.contains(event),
        revision_head(events, event),
        revision_of(event) is Some,
        revision_of(event)->Some_0.0 == space_id,
        revision_of(event)->Some_0.1 == context_id,
        revision_of(event)->Some_0.2.revision_id == revision_id,
{
    let share = |event: ReducerEventView| revision_head_share(events, space_id, context_id, event);
    sharer(events, share, revision_id)
}

/// Every review of a projected Context was given there by a valid Event of that identity.
pub proof fn projected_reviews_are_valid(
    events: Multiset<ReducerEventView>,
    space_id: SpaceId,
    context_id: ContextId,
    event_id: EventId,
) -> (event: ReducerEventView)
    requires
        context_projection(events, space_id, context_id).reviews.contains_key(event_id),
    ensures
        events.contains(event),
        valid_review(events, event),
        event.event_id == event_id,
        review_of(event)->Some_0.0 == space_id,
        review_of(event)->Some_0.1 == context_id,
{
    let entry = |event: ReducerEventView| review_entry(events, space_id, context_id, event);
    giver(events, entry, event_id)
}

/// Every publication of a projected Context was made there by a valid Event.
pub proof fn projected_publications_are_valid(
    events: Multiset<ReducerEventView>,
    space_id: SpaceId,
    context_id: ContextId,
    publication_id: PublicationId,
) -> (event: ReducerEventView)
    requires
        context_projection(events, space_id, context_id).publications.contains_key(publication_id),
    ensures
        events.contains(event),
        valid_publication(events, event),
        publication_of(event)->Some_0.0 == space_id,
        publication_of(event)->Some_0.1 == context_id,
        publication_of(event)->Some_0.2.publication_id == publication_id,
{
    let entry = |event: ReducerEventView| publication_entry(events, space_id, context_id, event);
    giver(events, entry, publication_id)
}

/// Every publication head of a projected Context was made there and is a head.
pub proof fn projected_publication_heads_are_heads(
    events: Multiset<ReducerEventView>,
    space_id: SpaceId,
    context_id: ContextId,
    publication_id: PublicationId,
) -> (event: ReducerEventView)
    requires
        context_projection(events, space_id, context_id).publication_heads.contains(publication_id),
    ensures
        events.contains(event),
        publication_head(events, event),
        publication_of(event)->Some_0.0 == space_id,
        publication_of(event)->Some_0.1 == context_id,
        publication_of(event)->Some_0.2.publication_id == publication_id,
{
    let share = |event: ReducerEventView| head_share(events, space_id, context_id, event);
    sharer(events, share, publication_id)
}

/// Every intent revision of a projected Space was added there by a valid Event.
pub proof fn projected_intents_are_valid(
    events: Multiset<ReducerEventView>,
    space_id: SpaceId,
    revision_id: RevisionId,
) -> (event: ReducerEventView)
    requires
        space_projection(events, space_id).intent.revisions.contains_key(revision_id),
    ensures
        events.contains(event),
        valid_intent(events, event),
        intent_of(event)->Some_0.0 == space_id,
        intent_of(event)->Some_0.1.revision_id == revision_id,
{
    let entry = |event: ReducerEventView| intent_entry(events, space_id, event);
    giver(events, entry, revision_id)
}

/// Every intent head of a projected Space was added there and is a head.
pub proof fn projected_intent_heads_are_heads(
    events: Multiset<ReducerEventView>,
    space_id: SpaceId,
    revision_id: RevisionId,
) -> (event: ReducerEventView)
    requires
        space_projection(events, space_id).intent.heads.contains(revision_id),
    ensures
        events.contains(event),
        intent_head(events, event),
        intent_of(event)->Some_0.0 == space_id,
        intent_of(event)->Some_0.1.revision_id == revision_id,
{
    let share = |event: ReducerEventView| intent_head_share(events, space_id, event);
    sharer(events, share, revision_id)
}

/// Every Context of a projected Space has a revision that lives there.
pub proof fn projected_contexts_live(
    events: Multiset<ReducerEventView>,
    space_id: SpaceId,
    context_id: ContextId,
) -> (event: ReducerEventView)
    requires
        space_projection(events, space_id).contexts.contains_key(context_id),
    ensures
        events.contains(event),
        live(events, event),
        revision_of(event)->Some_0.0 == space_id,
        revision_of(event)->Some_0.1 == context_id,
{
    let entry = |event: ReducerEventView| context_entry(events, space_id, event);
    giver(events, entry, context_id)
}

/// Every Candidate that is projected was submitted by a sound Event.
pub proof fn projected_candidates_are_sound(
    events: Multiset<ReducerEventView>,
    candidate_id: CandidateId,
) -> (event: ReducerEventView)
    requires
        projection(events).candidates.contains_key(candidate_id),
    ensures
        events.contains(event),
        sound(events, event),
        candidate_of(event) is Some,
        candidate_of(event)->Some_0.candidate_id == candidate_id,
{
    let entry = |event: ReducerEventView| candidate_entry(events, event);
    giver(events, entry, candidate_id)
}

/// Every submission that is projected was made by a sound Event.
pub proof fn projected_submissions_are_sound(
    events: Multiset<ReducerEventView>,
    submission_id: SubmissionId,
) -> (event: ReducerEventView)
    requires
        projection(events).candidate_submissions.contains_key(submission_id),
    ensures
        events.contains(event),
        sound(events, event),
        candidate_of(event) is Some,
        candidate_of(event)->Some_0.submission_id == submission_id,
{
    let entry = |event: ReducerEventView| submission_entry(events, event);
    giver(events, entry, submission_id)
}

/// Every submission conflict that is projected has a submission that is not sound.
pub proof fn projected_submission_conflicts_are_unsound(
    events: Multiset<ReducerEventView>,
    submission_id: SubmissionId,
) -> (event: ReducerEventView)
    requires
        projection(events).candidate_submission_conflicts.contains_key(submission_id),
    ensures
        events.contains(event),
        !sound(events, event),
        candidate_of(event) is Some,
        candidate_of(event)->Some_0.submission_id == submission_id,
{
    let entry = |event: ReducerEventView| submission_conflict_entry(events, event);
    giver(events, entry, submission_id)
}

/// Every confirmation that is projected was made by a valid Event.
pub proof fn projected_confirmations_are_valid(
    events: Multiset<ReducerEventView>,
    confirmation_id: ConfirmationId,
) -> (event: ReducerEventView)
    requires
        projection(events).candidate_confirmations.contains_key(confirmation_id),
    ensures
        events.contains(event),
        valid_confirmation(events, event),
        confirmation_of(event)->Some_0.confirmation_id == confirmation_id,
{
    let entry = |event: ReducerEventView| confirmation_entry(events, event);
    giver(events, entry, confirmation_id)
}

/// Every confirmation conflict that is projected is of a Candidate that is confirmed more than once.
pub proof fn projected_confirmation_conflicts_have_several(
    events: Multiset<ReducerEventView>,
    candidate_id: CandidateId,
) -> (event: ReducerEventView)
    requires
        projection(events).candidate_confirmation_conflicts.contains_key(candidate_id),
    ensures
        events.contains(event),
        confirmation_of(event) is Some,
        confirmation_of(event)->Some_0.candidate_id == candidate_id,
        duplicated(events, definition(DefinitionKind::ConfirmedCandidate, candidate_id)),
{
    let entry = |event: ReducerEventView| confirmation_conflict_entry(events, event);
    giver(events, entry, candidate_id)
}

/// Every association that is projected was made by a valid Event.
pub proof fn projected_associations_are_valid(
    events: Multiset<ReducerEventView>,
    association_id: SpaceAssociationId,
) -> (event: ReducerEventView)
    requires
        projection(events).context_space_associations.contains_key(association_id),
    ensures
        events.contains(event),
        valid_association(events, event),
        association_of(event)->Some_0.association_id == association_id,
{
    let entry = |event: ReducerEventView| association_entry(events, event);
    giver(events, entry, association_id)
}

/// Every Context with association heads has an association that is a head.
pub proof fn projected_association_heads_are_heads(
    events: Multiset<ReducerEventView>,
    context_id: ContextId,
) -> (event: ReducerEventView)
    requires
        projection(events).context_space_association_heads.contains_key(context_id),
    ensures
        events.contains(event),
        association_head(events, event),
        association_of(event)->Some_0.context_id == context_id,
{
    let entry = |event: ReducerEventView| association_heads_entry(events, event);
    giver(events, entry, context_id)
}

/// Every association head of a Context is a head and of that Context.
pub proof fn association_heads_of_a_context_are_its_own(
    events: Multiset<ReducerEventView>,
    context_id: ContextId,
    association_id: SpaceAssociationId,
) -> (event: ReducerEventView)
    requires
        head_associations(events, context_id).contains(association_id),
    ensures
        events.contains(event),
        association_head(events, event),
        association_of(event)->Some_0.context_id == context_id,
        association_of(event)->Some_0.association_id == association_id,
{
    let share = |event: ReducerEventView| association_head_share(events, context_id, event);
    sharer(events, share, association_id)
}

/// Every association conflict that is projected is of a Context with more than one head.
pub proof fn projected_association_conflicts_have_several_heads(
    events: Multiset<ReducerEventView>,
    context_id: ContextId,
) -> (event: ReducerEventView)
    requires
        projection(events).context_space_association_conflicts.contains_key(context_id),
    ensures
        events.contains(event),
        association_head(events, event),
        association_of(event)->Some_0.context_id == context_id,
        head_associations(events, context_id).len() > 1,
{
    let entry = |event: ReducerEventView| association_conflict_entry(events, event);
    giver(events, entry, context_id)
}

/// Every conflict that is projected was opened by a valid Event.
pub proof fn projected_conflicts_are_valid(
    events: Multiset<ReducerEventView>,
    conflict_id: ConflictId,
) -> (event: ReducerEventView)
    requires
        projection(events).semantic_conflicts.contains_key(conflict_id),
    ensures
        events.contains(event),
        valid_conflict(events, event),
        conflict_of(event)->Some_0.1.conflict_id == conflict_id,
{
    let entry = |event: ReducerEventView| conflict_entry(events, event);
    giver(events, entry, conflict_id)
}

/// Every resolution head of a conflict is a head and settles that conflict.
pub proof fn resolution_heads_of_a_conflict_are_its_own(
    events: Multiset<ReducerEventView>,
    conflict_id: ConflictId,
    resolution_id: ResolutionId,
) -> (event: ReducerEventView)
    requires
        head_resolutions(events, conflict_id).contains(resolution_id),
    ensures
        events.contains(event),
        resolution_head(events, event),
        resolution_of(event)->Some_0.1 == conflict_id,
        resolution_of(event)->Some_0.2.resolution_id == resolution_id,
{
    let share = |event: ReducerEventView| resolution_head_share(events, conflict_id, event);
    sharer(events, share, resolution_id)
}

/// Every current head of a conflict is a publication head of one of its participants, in its Space.
pub proof fn current_heads_are_heads(
    events: Multiset<ReducerEventView>,
    space_id: SpaceId,
    participants: Seq<ConflictParticipantView>,
    publication_id: PublicationId,
) -> (event: ReducerEventView)
    requires
        part_heads(events, space_id, participants).contains(publication_id),
    ensures
        events.contains(event),
        publication_head(events, event),
        publication_of(event)->Some_0.0 == space_id,
        participant_contexts(participants).contains(publication_of(event)->Some_0.1),
        publication_of(event)->Some_0.2.publication_id == publication_id,
{
    let share = |event: ReducerEventView| part_head_share(events, space_id, participants, event);
    sharer(events, share, publication_id)
}

/// Every Reference that is projected was recorded by a sound Event, on a revision that lives.
pub proof fn projected_references_are_recorded(
    events: Multiset<ReducerEventView>,
    reference_id: ReferenceId,
) -> (event: ReducerEventView)
    requires
        projection(events).engineering_references.contains_key(reference_id),
    ensures
        events.contains(event),
        sound(events, event),
        reference_of(event) is Some,
        reference_of(event)->Some_0.2.reference_id == reference_id,
        target_lives(events, reference_of(event)->Some_0.0, reference_of(event)->Some_0.1),
{
    let entry = |event: ReducerEventView| reference_entry(events, event);
    giver(events, entry, reference_id)
}

/// Every diagnostic is a complaint about one of the Events.
pub proof fn every_diagnostic_is_of_an_event(
    events: Multiset<ReducerEventView>,
    complaint: ReducerDiagnosticView,
) -> (event: ReducerEventView)
    requires
        all_diagnostics(events).contains(complaint),
    ensures
        events.contains(event),
        complaints_of(events, event).contains(complaint),
{
    let share = |event: ReducerEventView| complaints_of(events, event);
    sharer(events, share, complaint)
}

/// An Event is quarantined exactly where some diagnostic names it.
pub proof fn quarantined_events_are_named(events: Multiset<ReducerEventView>, event_id: EventId)
    ensures
        projection(events).quarantined_event_ids.contains(event_id) <==> exists|complaint: ReducerDiagnosticView| #[trigger]
            all_diagnostics(events).contains(complaint) && complaint.event_ids.contains(event_id),
{
}

} // verus!
