//! What holds of resolutions, confirmations and lineages, and of what is said of Events that do not
//! stand.

use vstd::multiset::Multiset;
use vstd::prelude::*;

use crate::confirmation::{content_hash, CandidateConfirmationView, ContextSpaceAssociationOrigin};
use crate::confirmed::{
    confirmation_complaints, confirmation_matches, is_confirmed_association, is_confirmed_candidate,
    is_confirmed_publication, is_confirmed_reference, is_confirmed_revision, reference_complaints, reference_matches,
    reference_of, valid_confirmation,
};
use crate::conflicts::{
    conflict_complaints, conflict_of, is_participant_publication, publishes_for, resolution_complaints, resolution_head,
    resolution_of, resolves, valid_conflict, valid_resolution,
};
use crate::dag::{
    answers, grounded_within, is_broken, is_grounded, is_head, is_known, parent_broken, parent_grounded, DagNodeView,
};
use crate::definitions::{diagnostic, kind_code, one_event, sound, DefinitionKind};
use crate::events::{ReducerDiagnosticCode, ReducerDiagnosticView, ReducerEventView, ReducerPayloadView};
use crate::governance::{
    association_complaints, association_of, association_refers, candidate_of, publication_complaints, publication_head,
    publication_node, publication_nodes, publication_of, publication_refers, review_complaints, valid_association,
    valid_publication, valid_review,
};
use crate::ids::{ConflictId, ContextId, EventId, Identifier, PublicationId, SpaceId};
use crate::lineage::{broken_code, cycle_code, live, revision_of, Lineage};
use crate::model::{
    participant_contexts, result_contexts, ConflictParticipantView, ConflictResolutionView, PublicationView,
    SemanticConflictView,
};
use crate::order::{listing_lists, set_listing};
use crate::ownership::valid_spaces;
use crate::statuses::{
    covers_current, head_resolutions, heads_conflict, part_head_share, part_heads, relates_exactly,
    resolution_head_share,
};

verus! {

/// A node that stands has, for every parent that it names, a node of its own group that stands.
pub proof fn standing_nodes_have_standing_parents(nodes: Set<DagNodeView>, node: DagNodeView, at: int) -> (parent:
    DagNodeView)
    requires
        is_grounded(nodes, node),
        0 <= at < node.parents.len(),
    ensures
        nodes.contains(parent),
        parent.id == node.parents[at],
        parent.group == node.group,
        is_grounded(nodes, parent),
{
    let depth = choose|depth: nat| #[trigger] grounded_within(nodes, depth, node);
    let before = (depth - 1) as nat;
    assert(parent_grounded(nodes, before, node, node.parents[at]));
    let parent = choose|parent: DagNodeView| #[trigger]
        nodes.contains(parent) && answers(parent, node, node.parents[at]) && grounded_within(nodes, before, parent);
    assert(grounded_within(nodes, before, parent));
    parent
}

/// A node without parents stands, and one that names a parent that is nowhere in its group is broken.
pub proof fn roots_stand_and_orphans_break(nodes: Set<DagNodeView>, node: DagNodeView, at: int)
    ensures
        node.parents.len() == 0 ==> is_grounded(nodes, node),
        0 <= at < node.parents.len() && (forall|other: DagNodeView| #[trigger]
            nodes.contains(other) ==> other.id != node.parents[at] || other.group != node.group) ==> is_broken(
            nodes,
            node,
        ) && !is_grounded(nodes, node),
{
    if node.parents.len() == 0 {
        assert(grounded_within(nodes, 1, node));
    }
    if 0 <= at < node.parents.len() && forall|other: DagNodeView| #[trigger]
        nodes.contains(other) ==> other.id != node.parents[at] || other.group != node.group {
        assert(!is_known(nodes, node, node.parents[at]));
        assert(parent_broken(nodes, 0, node, node.parents[at]));
        assert(crate::dag::broken_within(nodes, 1, node));
        if is_grounded(nodes, node) {
            let parent = standing_nodes_have_standing_parents(nodes, node, at);
        }
    }
}

/// A head stands, and no node of its group that stands names it as a parent.
pub proof fn heads_are_not_named(nodes: Set<DagNodeView>, node: DagNodeView, child: DagNodeView)
    ensures
        is_head(nodes, node) ==> is_grounded(nodes, node),
        is_head(nodes, node) && nodes.contains(child) && is_grounded(nodes, child) && child.group == node.group
            ==> !child.parents.contains(node.id),
        is_grounded(nodes, node) && !is_head(nodes, node) ==> exists|other: DagNodeView| #[trigger]
            nodes.contains(other) && is_grounded(nodes, other) && other.group == node.group && other.parents.contains(
                node.id,
            ),
{
}

/// Every earlier publication that a valid publication names is a valid publication of the same Context.
pub proof fn valid_publications_follow_valid_publications(
    events: Multiset<ReducerEventView>,
    event: ReducerEventView,
    space_id: SpaceId,
    context_id: ContextId,
    publication: PublicationView,
    at: int,
) -> (earlier: ReducerEventView)
    requires
        valid_publication(events, event),
        event.payload == (ReducerPayloadView::ContextPublicationChanged { space_id, context_id, publication }),
        0 <= at < publication.previous_publication_ids.len(),
    ensures
        events.contains(earlier),
        valid_publication(events, earlier),
        publication_of(earlier) is Some,
        publication_of(earlier)->Some_0.1 == context_id,
        publication_of(earlier)->Some_0.2.publication_id == publication.previous_publication_ids[at],
{
    let nodes = publication_nodes(events);
    let node = publication_node(events, event)->Some_0;
    let parent = standing_nodes_have_standing_parents(nodes, node, at);
    let earlier = choose|member: ReducerEventView| #[trigger]
        events.contains(member) && publication_node(events, member) == Some(parent);
    PublicationId::number_identifies(
        publication_of(earlier)->Some_0.2.publication_id,
        publication.previous_publication_ids[at],
    );
    ContextId::number_identifies(publication_of(earlier)->Some_0.1, context_id);
    earlier
}

/// A valid resolution settles a valid conflict of its Space: it gives a result for every participant and
/// for nothing else.
pub proof fn valid_resolutions_settle_every_participant(
    events: Multiset<ReducerEventView>,
    event: ReducerEventView,
    space_id: SpaceId,
    conflict_id: ConflictId,
    resolution: ConflictResolutionView,
) -> (opening: (ReducerEventView, SemanticConflictView))
    requires
        valid_resolution(events, event),
        event.payload == (ReducerPayloadView::SemanticConflictResolutionAdded { space_id, conflict_id, resolution }),
    ensures
        sound(events, event),
        events.contains(opening.0),
        valid_conflict(events, opening.0),
        opening.0.payload == (ReducerPayloadView::SemanticConflictOpened { space_id, conflict: opening.1 }),
        opening.1.conflict_id == conflict_id,
        forall|context_id: ContextId|
            result_contexts(resolution.results).contains(context_id) <==> #[trigger] participant_contexts(
                opening.1.participants,
            ).contains(context_id),
        forall|i: int|
            0 <= i < resolution.results.len() ==> crate::governance::live_revision(
                events,
                space_id,
                (#[trigger] resolution.results[i]).context_id,
                resolution.results[i].revision_id,
            ),
        forall|i: int|
            0 <= i < resolution.related_publication_ids.len() ==> is_participant_publication(
                events,
                space_id,
                opening.1.participants,
                #[trigger] resolution.related_publication_ids[i],
            ),
{
    let opening = choose|opening: ReducerEventView| #[trigger]
        events.contains(opening) && resolves(events, opening, event);
    let conflict = conflict_of(opening)->Some_0.1;
    let (given, needed) = (result_contexts(resolution.results), participant_contexts(conflict.participants));
    assert(given.to_set() == needed.to_set());
    assert forall|context_id: ContextId|
        given.contains(context_id) <==> #[trigger] needed.contains(context_id) by {
        assert(given.to_set().contains(context_id) == needed.to_set().contains(context_id));
    }
    assert forall|i: int| 0 <= i < resolution.results.len() implies crate::governance::live_revision(
        events,
        space_id,
        (#[trigger] resolution.results[i]).context_id,
        resolution.results[i].revision_id,
    ) by {
        assert(crate::conflicts::result_stands(events, space_id, resolution.results[i]));
    }
    (opening, conflict)
}

/// A publication is a participant's where a valid publication of a participating Context has that
/// identity.
pub proof fn participant_publications_are_published(
    events: Multiset<ReducerEventView>,
    space_id: SpaceId,
    participants: Seq<ConflictParticipantView>,
    publication_id: PublicationId,
) -> (event: ReducerEventView)
    requires
        is_participant_publication(events, space_id, participants, publication_id),
    ensures
        events.contains(event),
        valid_publication(events, event),
        publication_of(event) is Some,
        publication_of(event)->Some_0.0 == space_id,
        participant_contexts(participants).contains(publication_of(event)->Some_0.1),
        publication_of(event)->Some_0.2.publication_id == publication_id,
{
    choose|event: ReducerEventView| #[trigger]
        events.contains(event) && publishes_for(events, event, space_id, participants, publication_id)
}

/// A resolution covers what is current exactly where a resolution head of the conflict relates the
/// current publication heads of its participants and nothing else.
pub proof fn current_resolutions_relate_exactly_the_heads(
    events: Multiset<ReducerEventView>,
    conflict_id: ConflictId,
    current: Set<PublicationId>,
    event: ReducerEventView,
    space_id: SpaceId,
    resolution: ConflictResolutionView,
)
    requires
        events.contains(event),
        resolution_head(events, event),
        event.payload == (ReducerPayloadView::SemanticConflictResolutionAdded { space_id, conflict_id, resolution }),
    ensures
        resolution.related_publication_ids.to_set() == current ==> covers_current(events, conflict_id, current),
        head_resolutions(events, conflict_id).contains(resolution.resolution_id),
{
    if resolution.related_publication_ids.to_set() == current {
        assert(relates_exactly(events, conflict_id, current, event));
    }
    let share = |event: ReducerEventView| resolution_head_share(events, conflict_id, event);
    assert(heads_conflict(events, conflict_id, event));
    assert(share(event).contains(resolution.resolution_id));
}

/// What covers the current heads is a resolution head of the conflict that relates exactly them.
pub proof fn covering_resolutions_are_heads(
    events: Multiset<ReducerEventView>,
    conflict_id: ConflictId,
    current: Set<PublicationId>,
) -> (event: ReducerEventView)
    requires
        covers_current(events, conflict_id, current),
    ensures
        events.contains(event),
        resolution_head(events, event),
        resolution_of(event) is Some,
        resolution_of(event)->Some_0.1 == conflict_id,
        resolution_of(event)->Some_0.2.related_publication_ids.to_set() == current,
{
    choose|event: ReducerEventView| #[trigger]
        events.contains(event) && relates_exactly(events, conflict_id, current, event)
}

/// The current heads of a conflict are the publication heads of its participants in its Space.
pub proof fn current_heads_are_those_of_the_participants(
    events: Multiset<ReducerEventView>,
    space_id: SpaceId,
    participants: Seq<ConflictParticipantView>,
    event: ReducerEventView,
    context_id: ContextId,
    publication: PublicationView,
)
    requires
        events.contains(event),
        publication_head(events, event),
        event.payload == (ReducerPayloadView::ContextPublicationChanged { space_id, context_id, publication }),
        participant_contexts(participants).contains(context_id),
    ensures
        part_heads(events, space_id, participants).contains(publication.publication_id),
{
    let share = |event: ReducerEventView| part_head_share(events, space_id, participants, event);
    assert(share(event).contains(publication.publication_id));
}

/// A valid confirmation matches its facts: a sound Candidate that its edits make into valid content of
/// its hash, an association, a live revision with that content and a publication of it, each by the
/// Event and under the identity that it names.
pub proof fn valid_confirmations_match_their_facts(
    events: Multiset<ReducerEventView>,
    event: ReducerEventView,
    confirmation: CandidateConfirmationView,
) -> (facts: (ReducerEventView, ReducerEventView, ReducerEventView, ReducerEventView))
    requires
        valid_confirmation(events, event),
        event.payload == (ReducerPayloadView::CandidateConfirmed { confirmation }),
    ensures
        sound(events, event),
        ({
            let candidate = candidate_of(facts.0)->Some_0;
            let edited = confirmation.edits.edited(candidate.content);
            &&& events.contains(facts.0) && sound(events, facts.0) && candidate_of(facts.0) is Some
            &&& candidate.candidate_id == confirmation.candidate_id
            &&& candidate.submission_id == confirmation.submission_id
            &&& candidate.source_episode == confirmation.source_episode
            &&& edited.invalidity() is None
            &&& content_hash(edited) == confirmation.final_content_hash
        }),
        ({
            let association = association_of(facts.1)->Some_0;
            &&& events.contains(facts.1) && valid_association(events, facts.1)
            &&& facts.1.event_id == confirmation.causal_refs.space_association_event_id
            &&& association.association_id == confirmation.space_association_id
            &&& association.context_id == confirmation.result_context_id
            &&& association.primary_space_id == confirmation.primary_space_id
            &&& association.related_space_ids.to_set() == confirmation.related_space_ids.to_set()
            &&& association.origin == (ContextSpaceAssociationOrigin::CandidateConfirmation {
                candidate_id: confirmation.candidate_id,
            })
        }),
        ({
            let (space_id, context_id, revision) = revision_of(facts.2)->Some_0;
            &&& events.contains(facts.2) && live(events, facts.2)
            &&& facts.2.event_id == confirmation.causal_refs.context_revision_event_id
            &&& space_id == confirmation.primary_space_id
            &&& context_id == confirmation.result_context_id
            &&& revision.revision_id == confirmation.result_revision_id
            &&& content_hash(revision.draft()) == confirmation.final_content_hash
        }),
        ({
            let (space_id, context_id, publication) = publication_of(facts.3)->Some_0;
            &&& events.contains(facts.3) && valid_publication(events, facts.3)
            &&& facts.3.event_id == confirmation.causal_refs.publication_event_id
            &&& space_id == confirmation.primary_space_id
            &&& context_id == confirmation.result_context_id
            &&& publication.publication_id == confirmation.publication_id
            &&& publication.revision_id == confirmation.result_revision_id
            &&& publication.action is Publish
        }),
        valid_spaces(events).contains(confirmation.primary_space_id),
        forall|i: int|
            0 <= i < confirmation.related_space_ids.len() ==> valid_spaces(events).contains(
                #[trigger] confirmation.related_space_ids[i],
            ),
{
    reveal(confirmation_matches);
    let a = choose|fact: ReducerEventView| #[trigger]
        events.contains(fact) && is_confirmed_candidate(events, confirmation, fact);
    let b = choose|fact: ReducerEventView| #[trigger]
        events.contains(fact) && is_confirmed_association(events, confirmation, fact);
    let c = choose|fact: ReducerEventView| #[trigger]
        events.contains(fact) && is_confirmed_revision(events, confirmation, fact);
    let d = choose|fact: ReducerEventView| #[trigger]
        events.contains(fact) && is_confirmed_publication(events, confirmation, fact);
    (a, b, c, d)
}

/// The References of a valid confirmation were recorded once each, on the revision that it names, and
/// are valid; a Space that it created was created once, by the Event that it names.
pub proof fn valid_confirmations_match_their_references(
    events: Multiset<ReducerEventView>,
    event: ReducerEventView,
    confirmation: CandidateConfirmationView,
    at: int,
) -> (recording: ReducerEventView)
    requires
        valid_confirmation(events, event),
        event.payload == (ReducerPayloadView::CandidateConfirmed { confirmation }),
        0 <= at < confirmation.causal_refs.engineering_reference_event_ids.len(),
    ensures
        events.contains(recording),
        sound(events, recording),
        recording.event_id == confirmation.causal_refs.engineering_reference_event_ids[at],
        reference_of(recording) is Some,
        reference_of(recording)->Some_0.0 == confirmation.result_context_id,
        reference_of(recording)->Some_0.1 == confirmation.result_revision_id,
        reference_of(recording)->Some_0.2.draft().problem() is None,
        confirmation.created_space_id is Some <==> confirmation.causal_refs.space_created_event_id is Some,
        confirmation.created_space_id matches Some(space_id) ==> exists|creation: ReducerEventView| #[trigger]
            events.contains(creation) && creation.event_id
                == confirmation.causal_refs.space_created_event_id->Some_0 && crate::confirmed::creates_space(
                creation,
                space_id,
            ),
{
    reveal(confirmation_matches);
    let id = confirmation.causal_refs.engineering_reference_event_ids[at];
    assert(reference_matches(events, confirmation.result_context_id, confirmation.result_revision_id, id));
    if confirmation.created_space_id is Some {
        let space_id = confirmation.created_space_id->Some_0;
        let event_id = confirmation.causal_refs.space_created_event_id->Some_0;
        let creation = choose|creation: ReducerEventView| #[trigger]
            events.contains(creation) && crate::confirmed::is_creation(space_id, event_id, creation);
        assert(crate::confirmed::creates_space(creation, space_id));
    }
    choose|recording: ReducerEventView| #[trigger]
        events.contains(recording) && is_confirmed_reference(
            events,
            confirmation.result_context_id,
            confirmation.result_revision_id,
            id,
            recording,
        )
}

proof fn single_events_are_listed(event_id: EventId)
    ensures
        set_listing::<EventId>(one_event(event_id)).contains(event_id),
{
    listing_lists::<EventId>(one_event(event_id));
    let listing = set_listing::<EventId>(one_event(event_id));
    assert(listing.to_set().contains(event_id));
}

/// What is said of an Event that does not stand says what kind of fault it is, and names the Event.
pub proof fn complaints_name_their_fault(
    events: Multiset<ReducerEventView>,
    event: ReducerEventView,
    complaint: ReducerDiagnosticView,
)
    ensures
        review_complaints(events, event).contains(complaint) ==> complaint.code
            == ReducerDiagnosticCode::InvalidReviewReference && complaint.event_ids.contains(event.event_id),
        publication_complaints(events, event).contains(complaint) ==> complaint.code
            == ReducerDiagnosticCode::InvalidPublicationReference && complaint.event_ids.contains(event.event_id),
        association_complaints(events, event).contains(complaint) ==> complaint.code
            == ReducerDiagnosticCode::InvalidSpaceAssociationReference
                && complaint.event_ids.contains(event.event_id),
        confirmation_complaints(events, event).contains(complaint) ==> complaint.code
            == ReducerDiagnosticCode::InvalidCandidateConfirmation && complaint.event_ids.contains(event.event_id),
        conflict_complaints(events, event).contains(complaint) ==> complaint.code
            == ReducerDiagnosticCode::InvalidSemanticConflictReference
                && complaint.event_ids.contains(event.event_id),
        resolution_complaints(events, event).contains(complaint) ==> complaint.code
            == ReducerDiagnosticCode::InvalidResolutionReference && complaint.event_ids.contains(event.event_id),
        reference_complaints(events, event).contains(complaint) ==> (complaint.code
            == ReducerDiagnosticCode::InvalidEngineeringReference || complaint.code
            == ReducerDiagnosticCode::InvalidEngineeringReferenceTarget) && complaint.event_ids.contains(event.event_id),
{
    single_events_are_listed(event.event_id);
}

/// Sound Events that refer to nothing that stands are complained of: a review of a revision that does not
/// live, a publication without one, an association without its Spaces and Context, a confirmation that
/// does not match.
pub proof fn loose_references_are_complained_of(events: Multiset<ReducerEventView>, event: ReducerEventView)
    requires
        sound(events, event),
    ensures
        event.payload is ContextReviewed
            && !valid_review(events, event) ==> review_complaints(events, event).len() > 0
            || exists|complaint: ReducerDiagnosticView| #[trigger] review_complaints(events, event).contains(complaint),
        event.payload matches ReducerPayloadView::ContextPublicationChanged { space_id, context_id, publication }
            ==> !publication_refers(
                events,
                space_id,
                context_id,
                publication,
            ) ==> exists|complaint: ReducerDiagnosticView| #[trigger]
            publication_complaints(events, event).contains(complaint),
        event.payload matches ReducerPayloadView::ContextSpaceAssociationChanged { association }
            ==> !association_refers(events, association) ==> exists|complaint: ReducerDiagnosticView| #[trigger]
            association_complaints(events, event).contains(complaint),
        event.payload is CandidateConfirmed
            && !valid_confirmation(events, event) ==> exists|complaint: ReducerDiagnosticView| #[trigger]
            confirmation_complaints(events, event).contains(complaint),
{
    let ids = one_event(event.event_id);
    match event.payload {
        ReducerPayloadView::ContextReviewed { space_id: _, context_id: _, review } => {
            let complaint = diagnostic(
                ReducerDiagnosticCode::InvalidReviewReference,
                review.review_id.text(),
                ids,
                "review "@ + review.review_id.text() + " does not reference a valid revision in its context"@,
            );
            if !valid_review(events, event) {
                assert(review_complaints(events, event).contains(complaint));
            }
        },
        ReducerPayloadView::ContextPublicationChanged { space_id, context_id, publication } => {
            let text = publication.publication_id.text();
            let missing = diagnostic(
                ReducerDiagnosticCode::InvalidPublicationReference,
                text,
                ids,
                "publication "@ + text + " belongs to a missing or quarantined context"@,
            );
            let loose = diagnostic(
                ReducerDiagnosticCode::InvalidPublicationReference,
                text,
                ids,
                "publication "@ + text + " does not reference a valid same-context revision/review"@,
            );
            if !publication_refers(events, space_id, context_id, publication) {
                assert(publication_complaints(events, event).contains(missing) || publication_complaints(
                    events,
                    event,
                ).contains(loose));
            }
        },
        ReducerPayloadView::ContextSpaceAssociationChanged { association } => {
            let text = association.association_id.text();
            let complaint = diagnostic(
                ReducerDiagnosticCode::InvalidSpaceAssociationReference,
                text,
                ids,
                "Space Association "@ + text + " does not reference valid Spaces and an owned Context"@,
            );
            if !association_refers(events, association) {
                assert(association_complaints(events, event).contains(complaint));
            }
        },
        ReducerPayloadView::CandidateConfirmed { confirmation } => {
            let text = confirmation.confirmation_id.text();
            let complaint = diagnostic(
                ReducerDiagnosticCode::InvalidCandidateConfirmation,
                text,
                ids,
                "Candidate Confirmation "@ + text
                    + " does not match its Candidate, causal association, revision, publication, Space, or final content"@,
            );
            if !valid_confirmation(events, event) {
                assert(confirmation_complaints(events, event).contains(complaint));
            }
        },
        _ => {},
    }
}

/// Every kind of identity that is defined twice has its own code, and so has every lineage that is
/// broken or runs in a circle.
pub proof fn faults_have_their_codes()
    ensures
        kind_code(DefinitionKind::Event) is DuplicateEventId,
        kind_code(DefinitionKind::Candidate) is DuplicateCandidateId,
        kind_code(DefinitionKind::Submission) is DuplicateSubmissionId,
        kind_code(DefinitionKind::Confirmation) is DuplicateConfirmationId,
        kind_code(DefinitionKind::ConfirmedCandidate) is CandidateConfirmationConflict,
        kind_code(DefinitionKind::Association) is DuplicateSpaceAssociationId,
        kind_code(DefinitionKind::SpaceCreation) is DuplicateSpaceCreation,
        kind_code(DefinitionKind::IntentRevision) is DuplicateRevisionId,
        kind_code(DefinitionKind::ContextRevision) is DuplicateRevisionId,
        kind_code(DefinitionKind::Review) is DuplicateReviewId,
        kind_code(DefinitionKind::Publication) is DuplicatePublicationId,
        kind_code(DefinitionKind::Evidence) is DuplicateEvidenceId,
        kind_code(DefinitionKind::Conflict) is DuplicateConflictId,
        kind_code(DefinitionKind::Resolution) is DuplicateResolutionId,
        kind_code(DefinitionKind::Reference) is DuplicateReferenceId,
        broken_code(Lineage::Intent) is InvalidRevisionReference,
        broken_code(Lineage::Context) is InvalidRevisionReference,
        broken_code(Lineage::Publication) is InvalidPublicationReference,
        broken_code(Lineage::Association) is InvalidSpaceAssociationReference,
        broken_code(Lineage::Resolution) is InvalidResolutionReference,
        cycle_code(Lineage::Intent) is RevisionCycle,
        cycle_code(Lineage::Context) is RevisionCycle,
        cycle_code(Lineage::Publication) is PublicationCycle,
        cycle_code(Lineage::Association) is SpaceAssociationCycle,
        cycle_code(Lineage::Resolution) is ResolutionCycle,
{
}

} // verus!
