//! What holds of every reduction.

use vstd::multiset::Multiset;
use vstd::prelude::*;

use crate::candidates::{
    association_conflict_entry, association_entry, association_head_share, candidate_entry, confirmation_conflict_entry,
    confirmation_of, head_associations, submission_conflict_entry, submission_entry,
};
use crate::checks::{first_from, nothing_fails};
use crate::confirmation::{CandidateConfirmationPlanView, ContextSpaceAssociationOrigin};
use crate::confirmed::{
    confirmation_complaints, confirmation_entry, confirmation_matches, created_space_matches, is_confirmed_association,
    is_confirmed_candidate, is_confirmed_publication, is_confirmed_reference, is_confirmed_revision,
    reference_complaints, reference_entry, reference_matches, reference_of, unique_reference, valid_confirmation,
};
use crate::conflicts::{
    conflict_complaints, conflict_of, resolution_complaints, resolution_lineage_complaints, resolution_node,
    resolution_of, valid_conflict, valid_resolution,
};
use crate::contexts::{
    defines_own, governance, governing_event, head_publications, head_share, heads_in, identity_complaints,
    valid_intent,
};
use crate::definitions::{
    collides, crosses_kinds, crossing_diagnostic, definers, defines, definition, definition_complaints, definitions,
    diagnostic, disqualifies, duplicate_complaints, duplicate_diagnostic, duplicated, one_event, sound,
    sound_definitions_are_unique, Definition, DefinitionKind,
};
use crate::events::{
    empty_projection, AutoInjectionBlocker, ContextGovernanceStatusView, ReducerDiagnostic, ReducerDiagnosticCode,
    ReducerDiagnosticView, ReducerEventView, ReducerPayloadView, SemanticConflictCandidate,
};
use crate::gather::{gathered, gathered_is_finite, gives_key, keyed_value};
use crate::governance::{
    association_complaints, association_lineage_complaints, association_node, association_of, association_refers,
    candidate_of, live_is_revision, publication_complaints, publication_lineage_complaints, publication_node,
    publication_of, publication_refers, review_complaints, review_of, revision_head, succeeds, valid_association,
    valid_publication, valid_review,
};
use crate::ids::{CandidateId, ContextId, EventId, Identifier, PublicationId, RevisionId, SpaceAssociationId, SpaceId};
use crate::lineage::{
    adds_revision, adds_to, context_complaints, context_node, context_nodes, grounded_revision, intent_complaints,
    intent_node, intent_of, is_valid_member, lineage_complaint, live, newly_quarantined, parent_quarantined, quarantine,
    quarantine_after, relation_complaints, revision_of, round_complaint,
};
use crate::model::{participant_contexts, PublicationAction};
use crate::order::{listing_lists, set_listing};
use crate::ownership::{
    ambiguity_complaints, ambiguity_diagnostic, ambiguous, claim_complaint, claimed, claiming, claiming_share, founded,
    missing_space_complaint, missing_space_complaints, needed_spaces, valid_spaces,
};
use crate::pairs::all_pairs;
use crate::reducer::{
    all_diagnostics, complaints_of, context_entries_agree, context_entry, context_projection, projection,
    space_entries_agree, space_entry, space_projection,
};
use crate::statuses::{blockers, conflict_blocker_share, conflict_entry, eligibility, governance_blockers};

verus! {

/// Input order has no semantic effect: reducing any arrangement of the same events gives the same
/// result.
pub proof fn reduction_ignores_order(left: Seq<ReducerEventView>, right: Seq<ReducerEventView>)
    requires
        left.to_multiset() == right.to_multiset(),
    ensures
        projection(left.to_multiset()) == projection(right.to_multiset()),
{
}

/// Reducing nothing gives the empty projection.
pub proof fn nothing_reduces_to_nothing()
    ensures
        projection(Multiset::empty()) == empty_projection(),
{
    let none = Multiset::<ReducerEventView>::empty();
    let result = projection(none);
    let expected = empty_projection();
    assert(result.candidates =~= expected.candidates);
    assert(result.candidate_submissions =~= expected.candidate_submissions);
    assert(result.candidate_submission_conflicts =~= expected.candidate_submission_conflicts);
    assert(result.candidate_confirmations =~= expected.candidate_confirmations);
    assert(result.candidate_confirmation_conflicts =~= expected.candidate_confirmation_conflicts);
    assert(result.context_space_associations =~= expected.context_space_associations);
    assert(result.context_space_association_heads =~= expected.context_space_association_heads);
    assert(result.context_space_association_conflicts =~= expected.context_space_association_conflicts);
    assert(result.spaces =~= expected.spaces);
    assert(result.engineering_references =~= expected.engineering_references);
    assert(result.semantic_conflicts =~= expected.semantic_conflicts);
    assert(all_diagnostics(none) =~= Set::empty());
    assert(result.quarantined_event_ids =~= expected.quarantined_event_ids);
    assert(all_pairs(result.spaces) =~= Set::empty());
    listing_lists::<ReducerDiagnostic>(Set::empty());
    assert(set_listing::<ReducerDiagnostic>(Set::empty()) =~= Seq::empty()) by {
        let listing = set_listing::<ReducerDiagnostic>(Set::empty());
        if listing.len() > 0 {
            assert(listing.to_set().contains(listing[0]));
        }
    }
    listing_lists::<SemanticConflictCandidate>(Set::empty());
    assert(set_listing::<SemanticConflictCandidate>(Set::empty()) =~= Seq::empty()) by {
        let listing = set_listing::<SemanticConflictCandidate>(Set::empty());
        if listing.len() > 0 {
            assert(listing.to_set().contains(listing[0]));
        }
    }
}

/// An event whose definitions collide contributes to no projection: of colliding events no winner
/// is selected.
pub proof fn unsound_events_contribute_nothing(events: Multiset<ReducerEventView>, event: ReducerEventView)
    requires
        !sound(events, event),
    ensures
        candidate_entry(events, event) is None,
        submission_entry(events, event) is None,
        confirmation_entry(events, event) is None,
        association_entry(events, event) is None,
        space_entry(events, event) is None,
        reference_entry(events, event) is None,
        conflict_entry(events, event) is None,
        !valid_intent(events, event),
        !live(events, event),
        !valid_review(events, event),
        !valid_publication(events, event),
        !valid_resolution(events, event),
{
}

/// A submission is either usable or in conflict, never both: unrelated submissions remain usable.
pub proof fn submissions_are_usable_or_in_conflict(events: Multiset<ReducerEventView>, event: ReducerEventView)
    requires
        events.contains(event),
        candidate_of(event) is Some,
    ensures
        projection(events).candidate_submissions.contains_key(candidate_of(event)->Some_0.submission_id)
            != projection(events).candidate_submission_conflicts.contains_key(
            candidate_of(event)->Some_0.submission_id,
        ),
{
    let submission_id = candidate_of(event)->Some_0.submission_id;
    let usable = |event: ReducerEventView| submission_entry(events, event);
    let conflicting = |event: ReducerEventView| submission_conflict_entry(events, event);
    if sound(events, event) {
        assert(events.contains(event) && crate::gather::gives_key(usable, event, submission_id));
        if projection(events).candidate_submission_conflicts.contains_key(submission_id) {
            let other = choose|other: ReducerEventView| #[trigger]
                events.contains(other) && crate::gather::gives_key(conflicting, other, submission_id);
            defines_own(event);
            defines_own(other);
            sound_definitions_are_unique(
                events,
                event,
                other,
                definition(DefinitionKind::Submission, submission_id),
            );
        }
    } else {
        assert(events.contains(event) && crate::gather::gives_key(conflicting, event, submission_id));
        if projection(events).candidate_submissions.contains_key(submission_id) {
            let other = choose|other: ReducerEventView| #[trigger]
                events.contains(other) && crate::gather::gives_key(usable, other, submission_id);
            defines_own(event);
            defines_own(other);
            sound_definitions_are_unique(
                events,
                other,
                event,
                definition(DefinitionKind::Submission, submission_id),
            );
        }
    }
}

/// Whether an Event opens a conflict of a Space that names a Context as a participant.
pub open spec fn disputes(
    events: Multiset<ReducerEventView>,
    space_id: SpaceId,
    context_id: ContextId,
    opening: ReducerEventView,
) -> bool {
    &&& events.contains(opening)
    &&& valid_conflict(events, opening)
    &&& conflict_of(opening)->Some_0.0 == space_id
    &&& participant_contexts(conflict_of(opening)->Some_0.1.participants).contains(context_id)
}

/// A Context is eligible exactly when it is accepted and every conflict of its Space that names it
/// as a participant is resolved.
pub proof fn eligible_contexts_are_accepted_and_undisputed(
    events: Multiset<ReducerEventView>,
    space_id: SpaceId,
    context_id: ContextId,
)
    ensures
        eligibility(events, space_id, context_id).eligible <==> governance(events, space_id, context_id) is Accepted
            && forall|opening: ReducerEventView| #[trigger]
            disputes(
                events,
                space_id,
                context_id,
                opening,
            ) ==> conflict_entry(events, opening)->Some_0.1.status is Resolved,
{
    let all = blockers(events, space_id, context_id);
    let status = governance(events, space_id, context_id);
    let share = |event: ReducerEventView| conflict_blocker_share(events, space_id, context_id, event);
    if eligibility(events, space_id, context_id).eligible {
        assert(!all.contains(AutoInjectionBlocker::NotAccepted));
        assert(!all.contains(AutoInjectionBlocker::GovernanceConflict));
        assert(status is Accepted) by {
            if status is GovernanceConflict {
                assert(governance_blockers(status).contains(AutoInjectionBlocker::GovernanceConflict));
            } else if !(status is Accepted) {
                assert(governance_blockers(status).contains(AutoInjectionBlocker::NotAccepted));
            }
        }
        assert forall|opening: ReducerEventView| #[trigger]
            disputes(
                events,
                space_id,
                context_id,
                opening,
            ) implies conflict_entry(events, opening)->Some_0.1.status is Resolved by {
            if conflict_entry(events, opening)->Some_0.1.status is Open {
                let blocker = AutoInjectionBlocker::UnresolvedSemanticConflict(
                    conflict_of(opening)->Some_0.1.conflict_id,
                );
                assert(conflict_blocker_share(events, space_id, context_id, opening).contains(blocker));
                assert(share(opening).contains(blocker));
                assert(all.contains(blocker));
            }
        }
    } else if status is Accepted && forall|opening: ReducerEventView| #[trigger]
        disputes(
            events,
            space_id,
            context_id,
            opening,
        ) ==> conflict_entry(events, opening)->Some_0.1.status is Resolved {
        assert forall|blocker: AutoInjectionBlocker| !all.contains(blocker) by {
            if all.contains(blocker) {
                let opening = choose|opening: ReducerEventView| #[trigger]
                    events.contains(opening) && share(opening).contains(blocker);
                assert(disputes(events, space_id, context_id, opening));
            }
        }
        assert(all =~= Set::<AutoInjectionBlocker>::empty());
    }
}

/// A Context with more than one publication head is in a governance conflict and not eligible.
pub proof fn several_heads_block_injection(
    events: Multiset<ReducerEventView>,
    space_id: SpaceId,
    context_id: ContextId,
)
    requires
        head_publications(events, space_id, context_id).len() > 1,
    ensures
        governance(events, space_id, context_id) == (ContextGovernanceStatusView::GovernanceConflict {
            publication_ids: head_publications(events, space_id, context_id),
        }),
        !eligibility(events, space_id, context_id).eligible,
{
    let status = governance(events, space_id, context_id);
    assert(governance_blockers(status).contains(AutoInjectionBlocker::GovernanceConflict));
    assert(blockers(events, space_id, context_id).contains(AutoInjectionBlocker::GovernanceConflict));
}

/// The maps of a projection hold every Space and every Context under its own identity.
pub proof fn projected_contexts_are_their_own(
    events: Multiset<ReducerEventView>,
    space_id: SpaceId,
    context_id: ContextId,
)
    requires
        projection(events).spaces.contains_key(space_id),
        projection(events).spaces[space_id].contexts.contains_key(context_id),
    ensures
        projection(events).spaces[space_id] == space_projection(events, space_id),
        projection(events).spaces[space_id].contexts[context_id] == context_projection(events, space_id, context_id),
{
    let spaces = |event: ReducerEventView| space_entry(events, event);
    let founder = choose|event: ReducerEventView| #[trigger]
        events.contains(event) && gives_key(spaces, event, space_id);
    space_entries_agree(events);
    keyed_value(events, spaces, founder);
    let contexts = |event: ReducerEventView| context_entry(events, space_id, event);
    let adding = choose|event: ReducerEventView| #[trigger]
        events.contains(event) && gives_key(contexts, event, context_id);
    context_entries_agree(events, space_id);
    keyed_value(events, contexts, adding);
}

/// An empty set of blockers is the only eligible state.
pub proof fn eligible_contexts_are_unblocked(
    events: Multiset<ReducerEventView>,
    space_id: SpaceId,
    context_id: ContextId,
)
    requires
        projection(events).spaces.contains_key(space_id),
        projection(events).spaces[space_id].contexts.contains_key(context_id),
    ensures
        projection(events).spaces[space_id].contexts[context_id].auto_injection.eligible == (projection(
            events,
        ).spaces[space_id].contexts[context_id].auto_injection.blockers == Set::<AutoInjectionBlocker>::empty()),
{
    projected_contexts_are_their_own(events, space_id, context_id);
}

/// What is accepted was published: a valid Publication of the Context publishes the accepted
/// revision, the revision lives there, and the Reviews that the Publication names are valid
/// Reviews of it.
pub proof fn accepted_revisions_are_published(
    events: Multiset<ReducerEventView>,
    space_id: SpaceId,
    context_id: ContextId,
) -> (event: ReducerEventView)
    requires
        governance(events, space_id, context_id) is Accepted,
    ensures
        events.contains(event),
        valid_publication(events, event),
        publication_of(event) matches Some((space, context, publication)) && space == space_id && context
            == context_id && publication.action == PublicationAction::Publish && governance(
            events,
            space_id,
            context_id,
        ) == (ContextGovernanceStatusView::Accepted {
            publication_id: publication.publication_id,
            revision_id: publication.revision_id,
        }) && publication_refers(events, space_id, context_id, publication),
{
    let heads = head_publications(events, space_id, context_id);
    let share = |event: ReducerEventView| head_share(events, space_id, context_id, event);
    if heads =~= Set::<PublicationId>::empty() {
        assert(heads.len() == 0);
    }
    let id = choose|id: PublicationId| heads.contains(id);
    assert(heads.contains(id));
    let head = choose|event: ReducerEventView| #[trigger] events.contains(event) && share(event).contains(id);
    assert(events.contains(head) && heads_in(events, head, space_id, context_id));
    governing_event(events, space_id, context_id)
}

/// The Space association of a Context is in conflict exactly where it has several heads.
pub proof fn several_association_heads_are_a_conflict(events: Multiset<ReducerEventView>, context_id: ContextId)
    ensures
        projection(events).context_space_association_conflicts.contains_key(context_id) == (head_associations(
            events,
            context_id,
        ).len() > 1),
{
    let heads = head_associations(events, context_id);
    let entry = |event: ReducerEventView| association_conflict_entry(events, event);
    if heads.len() > 1 {
        let share = |event: ReducerEventView| association_head_share(events, context_id, event);
        if heads =~= Set::<SpaceAssociationId>::empty() {
            assert(heads.len() == 0);
        }
        let id = choose|id: SpaceAssociationId| heads.contains(id);
        assert(heads.contains(id));
        let head = choose|event: ReducerEventView| #[trigger] events.contains(event) && share(event).contains(id);
        assert(events.contains(head) && gives_key(entry, head, context_id));
    }
    if projection(events).context_space_association_conflicts.contains_key(context_id) {
        let head = choose|event: ReducerEventView| #[trigger]
            events.contains(event) && gives_key(entry, event, context_id);
        assert(entry(head) is Some);
    }
}

/// A Candidate with several confirmations has none that stands: no winner is selected.
pub proof fn conflicting_confirmations_do_not_stand(
    events: Multiset<ReducerEventView>,
    event: ReducerEventView,
)
    requires
        events.contains(event),
        confirmation_of(event) is Some,
        projection(events).candidate_confirmation_conflicts.contains_key(confirmation_of(event)->Some_0.candidate_id),
    ensures
        confirmation_entry(events, event) is None,
{
    let candidate_id = confirmation_of(event)->Some_0.candidate_id;
    let entry = |event: ReducerEventView| confirmation_conflict_entry(events, event);
    let other = choose|other: ReducerEventView| #[trigger]
        events.contains(other) && gives_key(entry, other, candidate_id);
    let confirmed = definition(DefinitionKind::ConfirmedCandidate, candidate_id);
    CandidateId::number_identifies(confirmation_of(other)->Some_0.candidate_id, candidate_id);
    assert(duplicated(events, confirmed));
    assert(definitions(event)[2] == confirmed);
    if sound(events, event) {
        assert(collides(events, definitions(event)[2]));
    }
}

/// The parents of a live revision are live revisions of the same Context.
pub proof fn live_revisions_have_live_parents(
    events: Multiset<ReducerEventView>,
    event: ReducerEventView,
    index: int,
) -> (parent: ReducerEventView)
    requires
        live(events, event),
        0 <= index < revision_of(event)->Some_0.2.parent_revision_ids.len(),
    ensures
        events.contains(parent),
        live(events, parent),
        adds_revision(
            parent,
            revision_of(event)->Some_0.1,
            revision_of(event)->Some_0.2.parent_revision_ids[index],
        ),
{
    let nodes = context_nodes(events);
    let node = context_node(events, event)->Some_0;
    let (space_id, context_id, revision) = revision_of(event)->Some_0;
    let parent_id = revision.parent_revision_ids[index];
    let depth = choose|depth: nat| #[trigger] crate::dag::grounded_within(nodes, depth, node);
    assert(node.parents[index] == parent_id.number());
    assert(crate::dag::parent_grounded(nodes, (depth - 1) as nat, node, node.parents[index]));
    let found = choose|found: crate::dag::DagNodeView| #[trigger]
        nodes.contains(found) && crate::dag::answers(found, node, node.parents[index])
            && crate::dag::grounded_within(nodes, (depth - 1) as nat, found);
    let parent = choose|parent: ReducerEventView| #[trigger]
        events.contains(parent) && context_node(events, parent) == Some(found);
    let (_, parent_context, parent_revision) = revision_of(parent)->Some_0;
    RevisionId::number_identifies(parent_revision.revision_id, parent_id);
    ContextId::number_identifies(parent_context, context_id);
    assert(grounded_revision(events, parent)) by {
        assert(crate::dag::is_grounded(nodes, found));
    }
    if quarantine(events).contains(parent) {
        let rounds = choose|rounds: nat| #[trigger] quarantine_after(events, rounds).contains(parent);
        let held = quarantine_after(events, rounds);
        assert(parent_quarantined(held, context_id, revision.parent_revision_ids)) by {
            assert(held.contains(parent) && adds_to(parent, context_id)
                && revision.parent_revision_ids.contains(parent_revision.revision_id));
        }
        assert(events.contains(event));
        assert(!quarantine_after(events, rounds).contains(event));
        assert(!quarantine_after(events, rounds + 1).contains(event));
        assert(newly_quarantined(events, held, event));
        assert(quarantine_after(events, rounds + 1).contains(event));
    }
    parent
}

/// No live revision of the same Context names a head as a parent.
pub proof fn heads_are_not_succeeded(
    events: Multiset<ReducerEventView>,
    head: ReducerEventView,
    other: ReducerEventView,
)
    requires
        revision_head(events, head),
        live(events, other),
        revision_of(other)->Some_0.1 == revision_of(head)->Some_0.1,
    ensures
        !revision_of(other)->Some_0.2.parent_revision_ids.contains(revision_of(head)->Some_0.2.revision_id),
{
    live_is_revision(events, head);
    live_is_revision(events, other);
    if revision_of(other)->Some_0.2.parent_revision_ids.contains(revision_of(head)->Some_0.2.revision_id) {
        assert(events.contains(other) && succeeds(events, other, head));
    }
}

/// Whether an event is represented in the projection by what it holds.
pub open spec fn stands(events: Multiset<ReducerEventView>, event: ReducerEventView) -> bool {
    match event.payload {
        ReducerPayloadView::ContextCandidateCreated { candidate: _ } => candidate_entry(events, event) is Some
            && submission_entry(events, event) is Some,
        ReducerPayloadView::CandidateConfirmed { confirmation: _ } => confirmation_entry(events, event) is Some,
        ReducerPayloadView::SpaceCreated { space_id: _, intent_revision: _ } => space_entry(events, event) is Some
            && valid_intent(events, event),
        ReducerPayloadView::SpaceIntentRevisionAdded { space_id: _, intent_revision: _ } => valid_intent(
            events,
            event,
        ),
        ReducerPayloadView::ContextRevisionAdded { space_id: _, context_id: _, revision: _ } => live(events, event),
        ReducerPayloadView::ContextReviewed { space_id: _, context_id: _, review: _ } => valid_review(events, event),
        ReducerPayloadView::ContextPublicationChanged { space_id: _, context_id: _, publication: _ } =>
            valid_publication(events, event),
        ReducerPayloadView::ContextSpaceAssociationChanged { association: _ } => association_entry(
            events,
            event,
        ) is Some,
        ReducerPayloadView::SemanticConflictOpened { space_id: _, conflict: _ } => conflict_entry(
            events,
            event,
        ) is Some,
        ReducerPayloadView::SemanticConflictResolutionAdded { space_id: _, conflict_id: _, resolution: _ } =>
            valid_resolution(events, event),
        ReducerPayloadView::EngineeringReferenceRecorded { context_id: _, revision_id: _, reference: _ } =>
            reference_entry(events, event) is Some,
    }
}

/// A diagnostic about one event concerns it.
proof fn one_event_is_listed(event_id: EventId)
    ensures
        set_listing::<EventId>(one_event(event_id)).contains(event_id),
{
    listing_lists::<EventId>(one_event(event_id));
    assert(set_listing::<EventId>(one_event(event_id)).to_set().contains(event_id));
}

/// What an event complains of quarantines the events that the complaint lists.
proof fn complaints_quarantine(
    events: Multiset<ReducerEventView>,
    event: ReducerEventView,
    complaint: ReducerDiagnosticView,
    event_id: EventId,
)
    requires
        events.contains(event),
        complaints_of(events, event).contains(complaint),
        complaint.event_ids.contains(event_id),
    ensures
        projection(events).quarantined_event_ids.contains(event_id),
{
    assert(all_diagnostics(events).contains(complaint));
}

/// A complaint of an event about itself quarantines it.
proof fn own_complaints_quarantine(
    events: Multiset<ReducerEventView>,
    event: ReducerEventView,
    code: ReducerDiagnosticCode,
    entity: Seq<char>,
    message: Seq<char>,
)
    requires
        events.contains(event),
        complaints_of(events, event).contains(diagnostic(code, entity, one_event(event.event_id), message)),
    ensures
        projection(events).quarantined_event_ids.contains(event.event_id),
{
    one_event_is_listed(event.event_id);
    complaints_quarantine(
        events,
        event,
        diagnostic(code, entity, one_event(event.event_id), message),
        event.event_id,
    );
}

/// An event is among those that define what it defines.
proof fn definers_list(events: Multiset<ReducerEventView>, event: ReducerEventView, defined: Definition)
    requires
        events.contains(event),
        defines(event, defined),
    ensures
        definers(events, defined).contains(event.event_id),
        definers(events, defined).finite(),
        set_listing::<EventId>(definers(events, defined)).contains(event.event_id),
{
    let share = |event: ReducerEventView|
        if defines(event, defined) {
            Set::<EventId>::empty().insert(event.event_id)
        } else {
            Set::empty()
        };
    gathered_is_finite(events, share);
    assert(share(event).contains(event.event_id));
    assert(definers(events, defined) == gathered(events, share));
    listing_lists::<EventId>(definers(events, defined));
    assert(set_listing::<EventId>(definers(events, defined)).to_set().contains(event.event_id));
}

/// What a duplicated definition complains of quarantines every event that holds it.
pub proof fn duplicates_are_quarantined(
    events: Multiset<ReducerEventView>,
    event: ReducerEventView,
    defined: Definition,
)
    requires
        events.contains(event),
        defines(event, defined),
        duplicated(events, defined),
    ensures
        projection(events).quarantined_event_ids.contains(event.event_id),
{
    let i = choose|i: int| 0 <= i < definitions(event).len() && definitions(event)[i] == defined;
    let complaint = duplicate_diagnostic(events, defined);
    assert(definition_complaints(events, definitions(event)[i]).contains(complaint));
    assert(duplicate_complaints(events, event).contains(complaint));
    assert(identity_complaints(events, event).contains(complaint));
    definers_list(events, event, defined);
    complaints_quarantine(events, event, complaint, event.event_id);
}

/// A revision identity that an intent and a Context share quarantines both.
pub proof fn crossing_revisions_are_quarantined(
    events: Multiset<ReducerEventView>,
    event: ReducerEventView,
    number: u128,
)
    requires
        events.contains(event),
        crosses_kinds(events, number),
        defines(event, Definition { kind: DefinitionKind::IntentRevision, number }) || defines(
            event,
            Definition { kind: DefinitionKind::ContextRevision, number },
        ),
    ensures
        projection(events).quarantined_event_ids.contains(event.event_id),
{
    let intent = Definition { kind: DefinitionKind::IntentRevision, number };
    let context = Definition { kind: DefinitionKind::ContextRevision, number };
    let holder = choose|holder: ReducerEventView| #[trigger] events.contains(holder) && defines(holder, intent);
    let other = choose|other: ReducerEventView| #[trigger] events.contains(other) && defines(other, context);
    let i = choose|i: int| 0 <= i < definitions(holder).len() && definitions(holder)[i] == intent;
    let complaint = crossing_diagnostic(events, number);
    assert(definition_complaints(events, definitions(holder)[i]).contains(complaint));
    assert(duplicate_complaints(events, holder).contains(complaint));
    assert(identity_complaints(events, holder).contains(complaint));
    definers_list(events, holder, intent);
    definers_list(events, other, context);
    let both = definers(events, intent).union(definers(events, context));
    listing_lists::<EventId>(both);
    if defines(event, intent) {
        definers_list(events, event, intent);
    } else {
        definers_list(events, event, context);
    }
    assert(set_listing::<EventId>(both).to_set().contains(event.event_id));
    complaints_quarantine(events, holder, complaint, event.event_id);
}

/// An event that is not sound is quarantined.
pub proof fn unsound_events_are_quarantined(events: Multiset<ReducerEventView>, event: ReducerEventView)
    requires
        events.contains(event),
        !sound(events, event),
    ensures
        projection(events).quarantined_event_ids.contains(event.event_id),
{
    let i = choose|i: int|
        0 <= i < definitions(event).len() && collides(events, #[trigger] definitions(event)[i]);
    let defined = definitions(event)[i];
    assert(defines(event, defined));
    if disqualifies(defined.kind) && duplicated(events, defined) {
        duplicates_are_quarantined(events, event, defined);
    } else {
        crossing_revisions_are_quarantined(events, event, defined.number);
    }
}

/// A missing Space quarantines the events that need it.
pub proof fn missing_spaces_quarantine(
    events: Multiset<ReducerEventView>,
    event: ReducerEventView,
    space_id: SpaceId,
)
    requires
        events.contains(event),
        needed_spaces(event).contains(space_id),
        !valid_spaces(events).contains(space_id),
    ensures
        projection(events).quarantined_event_ids.contains(event.event_id),
{
    let i = choose|i: int| 0 <= i < needed_spaces(event).len() && needed_spaces(event)[i] == space_id;
    let message = "event references missing or quarantined space "@ + space_id.text();
    let complaint = diagnostic(
        ReducerDiagnosticCode::MissingSpace,
        space_id.text(),
        one_event(event.event_id),
        message,
    );
    assert(missing_space_complaint(events, event.event_id, needed_spaces(event)[i]).contains(complaint));
    assert(missing_space_complaints(events, event).contains(complaint));
    own_complaints_quarantine(events, event, ReducerDiagnosticCode::MissingSpace, space_id.text(), message);
}

/// An ambiguous Context quarantines the events that claim it.
pub proof fn ambiguous_contexts_quarantine(
    events: Multiset<ReducerEventView>,
    event: ReducerEventView,
    context_id: ContextId,
)
    requires
        events.contains(event),
        claimed(event).contains(context_id),
        ambiguous(events, context_id),
    ensures
        projection(events).quarantined_event_ids.contains(event.event_id),
{
    let i = choose|i: int| 0 <= i < claimed(event).len() && claimed(event)[i] == context_id;
    let complaint = ambiguity_diagnostic(events, context_id);
    assert(claim_complaint(events, claimed(event)[i]).contains(complaint));
    assert(ambiguity_complaints(events, event).contains(complaint));
    let share = |event: ReducerEventView| claiming_share(event, context_id);
    gathered_is_finite(events, share);
    assert(share(event).contains(event.event_id));
    assert(claiming(events, context_id) == gathered(events, share));
    listing_lists::<EventId>(claiming(events, context_id));
    assert(set_listing::<EventId>(claiming(events, context_id)).to_set().contains(event.event_id));
    complaints_quarantine(events, event, complaint, event.event_id);
}

/// A member of a lineage that is not valid is quarantined.
proof fn invalid_members_are_quarantined(
    events: Multiset<ReducerEventView>,
    event: ReducerEventView,
    lineage: crate::lineage::Lineage,
    nodes: Set<crate::dag::DagNodeView>,
    node: Option<crate::dag::DagNodeView>,
)
    requires
        events.contains(event),
        node is Some,
        node->Some_0.event_id == event.event_id,
        !is_valid_member(nodes, node),
        lineage_complaint(lineage, nodes, node).subset_of(complaints_of(events, event)),
    ensures
        projection(events).quarantined_event_ids.contains(event.event_id),
{
    let found = node->Some_0;
    let text = crate::lineage::lineage_prefix(lineage) + crate::ids::hyphenated(found.id);
    if crate::dag::is_broken(nodes, found) {
        let message = crate::lineage::lineage_name(lineage) + " "@ + text
            + " has a missing, quarantined, or cross-aggregate parent"@;
        assert(lineage_complaint(lineage, nodes, node).contains(
            diagnostic(crate::lineage::broken_code(lineage), text, one_event(event.event_id), message),
        ));
        own_complaints_quarantine(events, event, crate::lineage::broken_code(lineage), text, message);
    } else {
        let message = crate::lineage::lineage_name(lineage) + " "@ + text + " is cyclic or depends on a cycle"@;
        assert(lineage_complaint(lineage, nodes, node).contains(
            diagnostic(crate::lineage::cycle_code(lineage), text, one_event(event.event_id), message),
        ));
        own_complaints_quarantine(events, event, crate::lineage::cycle_code(lineage), text, message);
    }
}

proof fn intents_stand_or_are_quarantined(events: Multiset<ReducerEventView>, event: ReducerEventView)
    requires
        sound(events, event),
        intent_of(event) is Some,
        valid_spaces(events).contains(intent_of(event)->Some_0.0),
        !valid_intent(events, event),
    ensures
        projection(events).quarantined_event_ids.contains(event.event_id),
{
    assert(intent_complaints(events, event).subset_of(complaints_of(events, event)));
    invalid_members_are_quarantined(
        events,
        event,
        crate::lineage::Lineage::Intent,
        crate::lineage::intent_nodes(events),
        intent_node(events, event),
    );
}

proof fn revisions_live_or_are_quarantined(events: Multiset<ReducerEventView>, event: ReducerEventView)
    requires
        sound(events, event),
        revision_of(event) is Some,
        !live(events, event),
    ensures
        projection(events).quarantined_event_ids.contains(event.event_id),
{
    let (space_id, context_id, revision) = revision_of(event)->Some_0;
    if !valid_spaces(events).contains(space_id) {
        assert(needed_spaces(event)[0] == space_id);
        assert(needed_spaces(event).contains(space_id));
        missing_spaces_quarantine(events, event, space_id);
    } else if ambiguous(events, context_id) {
        assert(claimed(event)[0] == context_id);
        assert(claimed(event).contains(context_id));
        ambiguous_contexts_quarantine(events, event, context_id);
    } else if !grounded_revision(events, event) {
        assert(context_complaints(events, event).subset_of(complaints_of(events, event)));
        invalid_members_are_quarantined(
            events,
            event,
            crate::lineage::Lineage::Context,
            context_nodes(events),
            context_node(events, event),
        );
    } else {
        let rounds = choose|rounds: nat| #[trigger] quarantine_after(events, rounds).contains(event);
        let first = first_round(events, event, rounds);
        let held = quarantine_after(events, first);
        let fault = crate::lineage::revision_fault(events, held, event)->Some_0;
        let text = revision.revision_id.text();
        let message = "context revision "@ + text + " has an invalid relation: "@ + fault.reason;
        let complaint = crate::lineage::fault_diagnostic(event, fault);
        assert(round_complaint(events, first, event).contains(complaint));
        assert(relation_complaints(events, event).contains(complaint));
        assert(complaints_of(events, event).contains(complaint));
        own_complaints_quarantine(events, event, fault.code, text, message);
    }
}

/// The round in which a revision is quarantined.
proof fn first_round(events: Multiset<ReducerEventView>, event: ReducerEventView, rounds: nat) -> (first: nat)
    requires
        quarantine_after(events, rounds).contains(event),
    ensures
        newly_quarantined(events, quarantine_after(events, first), event),
    decreases rounds,
{
    let before = quarantine_after(events, (rounds - 1) as nat);
    if before.contains(event) {
        first_round(events, event, (rounds - 1) as nat)
    } else {
        (rounds - 1) as nat
    }
}

proof fn reviews_stand_or_are_quarantined(events: Multiset<ReducerEventView>, event: ReducerEventView)
    requires
        sound(events, event),
        review_of(event) is Some,
        !valid_review(events, event),
    ensures
        projection(events).quarantined_event_ids.contains(event.event_id),
{
    let text = review_of(event)->Some_0.2.review_id.text();
    let message = "review "@ + text + " does not reference a valid revision in its context"@;
    assert(review_complaints(events, event).contains(
        diagnostic(ReducerDiagnosticCode::InvalidReviewReference, text, one_event(event.event_id), message),
    ));
    own_complaints_quarantine(events, event, ReducerDiagnosticCode::InvalidReviewReference, text, message);
}

proof fn publications_stand_or_are_quarantined(events: Multiset<ReducerEventView>, event: ReducerEventView)
    requires
        sound(events, event),
        publication_of(event) is Some,
        !valid_publication(events, event),
    ensures
        projection(events).quarantined_event_ids.contains(event.event_id),
{
    let (space_id, context_id, publication) = publication_of(event)->Some_0;
    let text = publication.publication_id.text();
    let code = ReducerDiagnosticCode::InvalidPublicationReference;
    if !crate::governance::publication_refers(events, space_id, context_id, publication) {
        if !crate::governance::live_context(events, space_id, context_id) {
            let message = "publication "@ + text + " belongs to a missing or quarantined context"@;
            assert(publication_complaints(events, event).contains(
                diagnostic(code, text, one_event(event.event_id), message),
            ));
            own_complaints_quarantine(events, event, code, text, message);
        } else {
            let message = "publication "@ + text + " does not reference a valid same-context revision/review"@;
            assert(publication_complaints(events, event).contains(
                diagnostic(code, text, one_event(event.event_id), message),
            ));
            own_complaints_quarantine(events, event, code, text, message);
        }
    } else {
        assert(publication_lineage_complaints(events, event).subset_of(complaints_of(events, event)));
        invalid_members_are_quarantined(
            events,
            event,
            crate::lineage::Lineage::Publication,
            crate::governance::publication_nodes(events),
            publication_node(events, event),
        );
    }
}

proof fn associations_stand_or_are_quarantined(events: Multiset<ReducerEventView>, event: ReducerEventView)
    requires
        sound(events, event),
        association_of(event) is Some,
        !valid_association(events, event),
    ensures
        projection(events).quarantined_event_ids.contains(event.event_id),
{
    let association = association_of(event)->Some_0;
    let text = association.association_id.text();
    let code = ReducerDiagnosticCode::InvalidSpaceAssociationReference;
    if !crate::governance::association_refers(events, association) {
        let message = "Space Association "@ + text + " does not reference valid Spaces and an owned Context"@;
        assert(association_complaints(events, event).contains(
            diagnostic(code, text, one_event(event.event_id), message),
        ));
        own_complaints_quarantine(events, event, code, text, message);
    } else {
        assert(association_lineage_complaints(events, event).subset_of(complaints_of(events, event)));
        invalid_members_are_quarantined(
            events,
            event,
            crate::lineage::Lineage::Association,
            crate::governance::association_nodes(events),
            association_node(events, event),
        );
    }
}

proof fn confirmations_stand_or_are_quarantined(events: Multiset<ReducerEventView>, event: ReducerEventView)
    requires
        sound(events, event),
        confirmation_of(event) is Some,
        confirmation_entry(events, event) is None,
    ensures
        projection(events).quarantined_event_ids.contains(event.event_id),
{
    let text = confirmation_of(event)->Some_0.confirmation_id.text();
    let code = ReducerDiagnosticCode::InvalidCandidateConfirmation;
    let message = "Candidate Confirmation "@ + text
        + " does not match its Candidate, causal association, revision, publication, Space, or final content"@;
    assert(confirmation_complaints(events, event).contains(
        diagnostic(code, text, one_event(event.event_id), message),
    ));
    own_complaints_quarantine(events, event, code, text, message);
}

proof fn conflicts_stand_or_are_quarantined(events: Multiset<ReducerEventView>, event: ReducerEventView)
    requires
        sound(events, event),
        conflict_of(event) is Some,
        !valid_conflict(events, event),
    ensures
        projection(events).quarantined_event_ids.contains(event.event_id),
{
    let text = conflict_of(event)->Some_0.1.conflict_id.text();
    let code = ReducerDiagnosticCode::InvalidSemanticConflictReference;
    let message = "semantic conflict "@ + text
        + " must reference valid same-space publish nodes with one overlapping topic"@;
    assert(conflict_complaints(events, event).contains(
        diagnostic(code, text, one_event(event.event_id), message),
    ));
    own_complaints_quarantine(events, event, code, text, message);
}

proof fn resolutions_stand_or_are_quarantined(events: Multiset<ReducerEventView>, event: ReducerEventView)
    requires
        sound(events, event),
        resolution_of(event) is Some,
        !valid_resolution(events, event),
    ensures
        projection(events).quarantined_event_ids.contains(event.event_id),
{
    let (space_id, conflict_id, resolution) = resolution_of(event)->Some_0;
    let text = resolution.resolution_id.text();
    let code = ReducerDiagnosticCode::InvalidResolutionReference;
    if !(exists|opening: ReducerEventView| #[trigger]
        events.contains(opening) && crate::conflicts::opens(events, opening, space_id, conflict_id)) {
        let message = "resolution "@ + text + " references a missing, quarantined, or cross-space conflict"@;
        assert(resolution_complaints(events, event).contains(
            diagnostic(code, text, one_event(event.event_id), message),
        ));
        own_complaints_quarantine(events, event, code, text, message);
    } else if !(exists|opening: ReducerEventView| #[trigger]
        events.contains(opening) && crate::conflicts::resolves(events, opening, event)) {
        let message = "resolution "@ + text
            + " must cover every participant with valid same-conflict revisions and publications"@;
        assert(resolution_complaints(events, event).contains(
            diagnostic(code, text, one_event(event.event_id), message),
        ));
        own_complaints_quarantine(events, event, code, text, message);
    } else {
        assert(resolution_lineage_complaints(events, event).subset_of(complaints_of(events, event)));
        invalid_members_are_quarantined(
            events,
            event,
            crate::lineage::Lineage::Resolution,
            crate::conflicts::resolution_nodes(events),
            resolution_node(events, event),
        );
    }
}

proof fn references_stand_or_are_quarantined(events: Multiset<ReducerEventView>, event: ReducerEventView)
    requires
        sound(events, event),
        reference_of(event) is Some,
        reference_entry(events, event) is None,
    ensures
        projection(events).quarantined_event_ids.contains(event.event_id),
{
    let (context_id, revision_id, reference) = reference_of(event)->Some_0;
    let text = reference.reference_id.text();
    let own = definition(DefinitionKind::Reference, reference.reference_id);
    if duplicated(events, own) {
        assert(definitions(event)[1] == own);
        assert(defines(event, own));
        duplicates_are_quarantined(events, event, own);
    } else {
        match reference.draft().problem() {
            Some(error) => {
                let code = ReducerDiagnosticCode::InvalidEngineeringReference;
                let message = "engineering reference "@ + text + " is invalid: "@ + error.message;
                assert(reference_complaints(events, event).contains(
                    diagnostic(code, text, one_event(event.event_id), message),
                ));
                own_complaints_quarantine(events, event, code, text, message);
            },
            None => {
                let code = ReducerDiagnosticCode::InvalidEngineeringReferenceTarget;
                if !crate::governance::context_lives(events, context_id) {
                    let message = "engineering reference "@ + text + " targets missing or quarantined context "@
                        + context_id.text();
                    assert(reference_complaints(events, event).contains(
                        diagnostic(code, text, one_event(event.event_id), message),
                    ));
                    own_complaints_quarantine(events, event, code, text, message);
                } else {
                    let message = "engineering reference "@ + text + " revision "@ + revision_id.text()
                        + " does not belong to context "@ + context_id.text();
                    assert(reference_complaints(events, event).contains(
                        diagnostic(code, text, one_event(event.event_id), message),
                    ));
                    own_complaints_quarantine(events, event, code, text, message);
                }
            },
        }
    }
}

/// Nothing is dropped silently: an event that does not stand in the projection is quarantined,
/// with a diagnostic that concerns it.
pub proof fn nothing_is_dropped_silently(events: Multiset<ReducerEventView>, event: ReducerEventView)
    requires
        events.contains(event),
    ensures
        stands(events, event) || projection(events).quarantined_event_ids.contains(event.event_id),
        stands(events, event) || exists|complaint: ReducerDiagnosticView| #[trigger]
            all_diagnostics(events).contains(complaint) && complaint.event_ids.contains(event.event_id),
{
    if !sound(events, event) {
        unsound_events_are_quarantined(events, event);
    } else if !stands(events, event) {
        match event.payload {
            ReducerPayloadView::SpaceCreated { space_id, intent_revision: _ } => {
                let creation = definition(DefinitionKind::SpaceCreation, space_id);
                if duplicated(events, creation) {
                    assert(definitions(event)[1] == creation);
                    assert(defines(event, creation));
                    duplicates_are_quarantined(events, event, creation);
                } else {
                    assert(founded(events, event).contains(space_id));
                    assert(valid_spaces(events).contains(space_id));
                    intents_stand_or_are_quarantined(events, event);
                }
            },
            ReducerPayloadView::SpaceIntentRevisionAdded { space_id, intent_revision: _ } => {
                if !valid_spaces(events).contains(space_id) {
                    assert(needed_spaces(event)[0] == space_id);
                    assert(needed_spaces(event).contains(space_id));
                    missing_spaces_quarantine(events, event, space_id);
                } else {
                    intents_stand_or_are_quarantined(events, event);
                }
            },
            ReducerPayloadView::ContextRevisionAdded { space_id: _, context_id: _, revision: _ } => {
                revisions_live_or_are_quarantined(events, event);
            },
            ReducerPayloadView::ContextReviewed { space_id: _, context_id: _, review: _ } => {
                reviews_stand_or_are_quarantined(events, event);
            },
            ReducerPayloadView::ContextPublicationChanged { space_id: _, context_id: _, publication: _ } => {
                publications_stand_or_are_quarantined(events, event);
            },
            ReducerPayloadView::ContextSpaceAssociationChanged { association: _ } => {
                associations_stand_or_are_quarantined(events, event);
            },
            ReducerPayloadView::CandidateConfirmed { confirmation: _ } => {
                confirmations_stand_or_are_quarantined(events, event);
            },
            ReducerPayloadView::SemanticConflictOpened { space_id: _, conflict: _ } => {
                conflicts_stand_or_are_quarantined(events, event);
            },
            ReducerPayloadView::SemanticConflictResolutionAdded { space_id: _, conflict_id: _, resolution: _ } => {
                resolutions_stand_or_are_quarantined(events, event);
            },
            ReducerPayloadView::EngineeringReferenceRecorded { context_id: _, revision_id: _, reference: _ } => {
                references_stand_or_are_quarantined(events, event);
            },
            ReducerPayloadView::ContextCandidateCreated { candidate: _ } => {},
        }
    }
}

/// The Event that adds the revision of a confirmation plan.
pub open spec fn revision_fact(plan: CandidateConfirmationPlanView) -> ReducerEventView {
    ReducerEventView {
        event_id: plan.event_ids.context_revision_event_id,
        payload: ReducerPayloadView::ContextRevisionAdded {
            space_id: plan.confirmation.primary_space_id,
            context_id: plan.result_context_id,
            revision: plan.result_revision,
        },
    }
}

/// The Event that records the Space association of a confirmation plan.
pub open spec fn association_fact(plan: CandidateConfirmationPlanView) -> ReducerEventView {
    ReducerEventView {
        event_id: plan.event_ids.space_association_event_id,
        payload: ReducerPayloadView::ContextSpaceAssociationChanged { association: plan.space_association },
    }
}

/// The Event that adds the publication of a confirmation plan.
pub open spec fn publication_fact(plan: CandidateConfirmationPlanView) -> ReducerEventView {
    ReducerEventView {
        event_id: plan.event_ids.publication_event_id,
        payload: ReducerPayloadView::ContextPublicationChanged {
            space_id: plan.confirmation.primary_space_id,
            context_id: plan.result_context_id,
            publication: plan.publication,
        },
    }
}

/// The Event that records one reference of a confirmation plan.
pub open spec fn reference_fact(plan: CandidateConfirmationPlanView, at: int) -> ReducerEventView {
    ReducerEventView {
        event_id: plan.event_ids.engineering_reference_event_ids[at],
        payload: ReducerPayloadView::EngineeringReferenceRecorded {
            context_id: plan.result_context_id,
            revision_id: plan.result_revision.revision_id,
            reference: plan.engineering_references[at],
        },
    }
}

/// The Event that confirms the Candidate of a confirmation plan.
pub open spec fn confirmation_fact(plan: CandidateConfirmationPlanView) -> ReducerEventView {
    ReducerEventView {
        event_id: plan.event_ids.confirmation_event_id,
        payload: ReducerPayloadView::CandidateConfirmed { confirmation: plan.confirmation },
    }
}

/// Whether the facts of a confirmation plan stand among events: the revision lives, the association
/// and the publication are valid, each reference is recorded once, the Candidate was created with
/// the confirmed content, and a new Space was created once, by the Event that the plan names.
pub open spec fn plan_stands(
    events: Multiset<ReducerEventView>,
    plan: CandidateConfirmationPlanView,
    candidate: ReducerEventView,
) -> bool {
    &&& live(events, revision_fact(plan))
    &&& events.contains(association_fact(plan)) && valid_association(events, association_fact(plan))
    &&& plan.space_association.origin == (ContextSpaceAssociationOrigin::CandidateConfirmation {
        candidate_id: plan.confirmation.candidate_id,
    })
    &&& events.contains(publication_fact(plan)) && valid_publication(events, publication_fact(plan))
    &&& plan.publication.action == PublicationAction::Publish
    &&& forall|i: int|
        0 <= i < plan.engineering_references.len() ==> unique_reference(events, #[trigger] reference_fact(plan, i))
    &&& events.contains(candidate) && is_confirmed_candidate(events, plan.confirmation, candidate)
    &&& created_space_matches(events, plan.confirmation)
    &&& sound(events, confirmation_fact(plan))
}

/// A valid confirmation plan closes over its own facts: where they stand, the confirmation stands.
pub proof fn standing_plans_are_confirmed(
    events: Multiset<ReducerEventView>,
    plan: CandidateConfirmationPlanView,
    candidate: ReducerEventView,
)
    requires
        plan.problem() is None,
        plan_stands(events, plan, candidate),
    ensures
        valid_confirmation(events, confirmation_fact(plan)),
{
    reveal(confirmation_matches);
    let confirmation = plan.confirmation;
    assert(!plan.facts_disagree());
    assert(!plan.events_disagree());
    assert(first_from(plan.reference_problem(), 0, plan.engineering_references.len()) is None);
    nothing_fails(plan.reference_problem(), 0, plan.engineering_references.len());
    let revision = revision_fact(plan);
    assert(events.contains(revision)) by {
        live_is_revision(events, revision);
    }
    assert(is_confirmed_revision(events, confirmation, revision));
    assert(is_confirmed_association(events, confirmation, association_fact(plan)));
    assert(is_confirmed_publication(events, confirmation, publication_fact(plan)));
    let ids = confirmation.causal_refs.engineering_reference_event_ids;
    assert forall|i: int| 0 <= i < ids.len() implies reference_matches(
        events,
        confirmation.result_context_id,
        confirmation.result_revision_id,
        #[trigger] ids[i],
    ) by {
        let event = reference_fact(plan, i);
        assert(plan.reference_problem()(i) is None);
        assert(unique_reference(events, event));
        assert(events.contains(event) && is_confirmed_reference(
            events,
            confirmation.result_context_id,
            confirmation.result_revision_id,
            ids[i],
            event,
        ));
    }
    assert(association_refers(events, plan.space_association));
}

} // verus!
