//! What holds of scopes, of the pairs that need a decision, and of semantic conflicts.

use vstd::multiset::Multiset;
use vstd::prelude::*;

use crate::conflicts::{
    conflict_complaints, participant_stands, publishes_part, scopes_overlap, takes_part, valid_conflict,
};
use crate::contexts::{defines_own, head_publications};
use crate::definitions::{definition, diagnostic, one_event, sound, sound_definitions_are_unique, DefinitionKind};
use crate::events::{
    ContextGovernanceStatusView, ContextProjectionView, ContextSpaceProjectionView, ReducerDiagnosticCode,
    ReducerDiagnosticView, ReducerEventView, ReducerPayloadView, SemanticConflictCandidateView,
    SemanticConflictOpenReason, SemanticConflictStatusView,
};
use crate::governance::{live_is_revision, valid_publication};
use crate::ids::{ContextId, Identifier, SpaceId};
use crate::lineage::live;
use crate::model::{
    ApplicabilityView, ConflictParticipantView, ContextKind, ContextRevisionView, PublicationAction,
    SemanticConflictView,
};
use crate::order::Ordered;
use crate::pairs::{all_pairs, candidate_pair, candidate_participant, pairs_from, pairs_in, pairs_share_a_topic};
use crate::statuses::{conflict_status, covers_current, head_resolutions, open_reasons, part_heads};

verus! {

/// Whether two lists have a value in common.
pub open spec fn share_a_value(left: Seq<Seq<char>>, right: Seq<Seq<char>>) -> bool {
    exists|i: int, j: int|
        0 <= i < left.len() && 0 <= j < right.len() && #[trigger] left[i] == #[trigger] right[j]
}

/// Whether two lists both name values, and no value is in both.
pub open spec fn are_apart(left: Seq<Seq<char>>, right: Seq<Seq<char>>) -> bool {
    left.len() > 0 && right.len() > 0 && forall|i: int, j: int|
        0 <= i < left.len() && 0 <= j < right.len() ==> #[trigger] left[i] != #[trigger] right[j]
}

/// Whether two scopes are apart in their domains, their platforms or their conditions.
pub open spec fn scopes_are_apart(left: ApplicabilityView, right: ApplicabilityView) -> bool {
    ||| are_apart(left.domains, right.domains)
    ||| are_apart(left.platforms, right.platforms)
    ||| are_apart(left.conditions, right.conditions)
}

/// Scopes that both list domains, platforms or conditions, and share none of them, do not overlap.
pub proof fn scopes_apart_in_one_dimension_do_not_overlap(left: ApplicabilityView, right: ApplicabilityView)
    ensures
        are_apart(left.domains, right.domains) ==> !scopes_overlap(left, right),
        are_apart(left.platforms, right.platforms) ==> !scopes_overlap(left, right),
        are_apart(left.conditions, right.conditions) ==> !scopes_overlap(left, right),
{
}

/// Scopes overlap where in each dimension one of them is unrestricted or they share a value.
pub proof fn scopes_that_meet_in_every_dimension_overlap(left: ApplicabilityView, right: ApplicabilityView)
    requires
        left.domains.len() == 0 || right.domains.len() == 0 || share_a_value(left.domains, right.domains),
        left.platforms.len() == 0 || right.platforms.len() == 0 || share_a_value(left.platforms, right.platforms),
        left.conditions.len() == 0 || right.conditions.len() == 0 || share_a_value(left.conditions, right.conditions),
    ensures
        scopes_overlap(left, right),
{
    assert forall|a: Seq<Seq<char>>, b: Seq<Seq<char>>|
        share_a_value(a, b) implies exists|i: int| 0 <= i < a.len() && #[trigger] b.contains(a[i]) by {
        let (i, j) = choose|i: int, j: int|
            0 <= i < a.len() && 0 <= j < b.len() && #[trigger] a[i] == #[trigger] b[j];
        assert(b.contains(a[i]));
    }
}

/// A scope without any restriction overlaps every scope, and every scope overlaps itself.
pub proof fn unrestricted_scopes_overlap_everything(left: ApplicabilityView, right: ApplicabilityView)
    ensures
        left.domains.len() == 0 && left.platforms.len() == 0 && left.conditions.len() == 0 ==> scopes_overlap(
            left,
            right,
        ),
        scopes_overlap(left, left),
{
    assert(left.domains.len() > 0 ==> left.domains.contains(left.domains[0]));
    assert(left.platforms.len() > 0 ==> left.platforms.contains(left.platforms[0]));
    assert(left.conditions.len() > 0 ==> left.conditions.contains(left.conditions[0]));
}

/// The revision that governance accepts for a Context.
pub open spec fn accepts(context: ContextProjectionView, revision: ContextRevisionView) -> bool {
    context.governance matches ContextGovernanceStatusView::Accepted { publication_id: _, revision_id }
        && context.revisions.contains_key(revision_id) && context.revisions[revision_id].revision == revision
}

/// Whether a revision is a Decision or a Contract.
pub open spec fn decides(revision: ContextRevisionView) -> bool {
    revision.kind == ContextKind::Decision || revision.kind == ContextKind::Contract
}

/// A pair that needs a decision joins the accepted revisions of two Contexts of its Space. Both are
/// Decisions or Contracts of its topic, and their scopes are not apart in any dimension.
pub proof fn pairs_join_rivals(
    spaces: Map<SpaceId, ContextSpaceProjectionView>,
    pair: SemanticConflictCandidateView,
) -> (joined: ((ContextId, ContextRevisionView), (ContextId, ContextRevisionView)))
    requires
        all_pairs(spaces).contains(pair),
    ensures
        spaces.contains_key(pair.space_id),
        ({
            let contexts = spaces[pair.space_id].contexts;
            let ((a, one), (b, other)) = joined;
            &&& a != b
            &&& contexts.contains_key(a) && contexts.contains_key(b)
            &&& accepts(contexts[a], one) && accepts(contexts[b], other)
            &&& decides(one) && decides(other)
            &&& one.topic_key == Some(pair.topic_key) && other.topic_key == Some(pair.topic_key)
            &&& !scopes_are_apart(one.applicability, other.applicability)
            &&& pair.participants.len() == 2
            &&& pair.participants[0].context_id == contexts[a].context_id
            &&& pair.participants[1].context_id == contexts[b].context_id
            &&& contexts[a].governance == (ContextGovernanceStatusView::Accepted {
                publication_id: pair.participants[0].publication_id,
                revision_id: pair.participants[0].revision_id,
            })
            &&& contexts[b].governance == (ContextGovernanceStatusView::Accepted {
                publication_id: pair.participants[1].publication_id,
                revision_id: pair.participants[1].revision_id,
            })
        }),
{
    let (a, b) = pairs_share_a_topic(spaces, pair);
    let contexts = spaces[pair.space_id].contexts;
    let (_, one) = candidate_participant(contexts[a])->Some_0;
    let (_, other) = candidate_participant(contexts[b])->Some_0;
    scopes_apart_in_one_dimension_do_not_overlap(one.applicability, other.applicability);
    ((a, one), (b, other))
}

/// Two Contexts of a Space whose accepted revisions are Decisions or Contracts of one topic with
/// overlapping scopes are paired.
pub proof fn rivals_are_paired(
    spaces: Map<SpaceId, ContextSpaceProjectionView>,
    space_id: SpaceId,
    a: ContextId,
    b: ContextId,
    one: ContextRevisionView,
    other: ContextRevisionView,
) -> (pair: SemanticConflictCandidateView)
    requires
        spaces.contains_key(space_id),
        spaces[space_id].contexts.contains_key(a),
        spaces[space_id].contexts.contains_key(b),
        a != b,
        accepts(spaces[space_id].contexts[a], one),
        accepts(spaces[space_id].contexts[b], other),
        decides(one),
        decides(other),
        one.topic_key is Some,
        one.topic_key == other.topic_key,
        scopes_overlap(one.applicability, other.applicability),
    ensures
        all_pairs(spaces).contains(pair),
        pair.space_id == space_id,
        Some(pair.topic_key) == one.topic_key,
        pair.participants.len() == 2,
        exists|i: int| 0 <= i < 2 && (#[trigger] pair.participants[i]).context_id
            == spaces[space_id].contexts[a].context_id,
        exists|i: int| 0 <= i < 2 && (#[trigger] pair.participants[i]).context_id
            == spaces[space_id].contexts[b].context_id,
{
    let contexts = spaces[space_id].contexts;
    ContextId::order_laws(a, b, a);
    crate::conflicts::overlap_is_symmetric(one.applicability, other.applicability);
    let (left, right) = if ContextId::below(a, b) {
        (a, b)
    } else {
        (b, a)
    };
    let pair = candidate_pair(space_id, contexts[left], contexts[right])->Some_0;
    assert(pairs_from(space_id, contexts, left).contains(pair));
    assert(pairs_in(space_id, contexts).contains(pair));
    assert(all_pairs(spaces).contains(pair));
    assert(pair.participants[0].context_id == contexts[left].context_id);
    assert(pair.participants[1].context_id == contexts[right].context_id);
    pair
}

/// A Context that is not accepted takes part in no pair.
pub proof fn only_accepted_contexts_are_paired(context: ContextProjectionView)
    ensures
        candidate_participant(context) is Some ==> context.governance is Accepted,
        candidate_participant(context) matches Some((participant, revision)) ==> accepts(context, revision)
            && decides(revision) && participant.context_id == context.context_id,
{
}

/// Whether an event adds a revision of a Context to a Space.
pub open spec fn adds(
    event: ReducerEventView,
    space_id: SpaceId,
    context_id: ContextId,
    revision: ContextRevisionView,
) -> bool {
    event.payload == (ReducerPayloadView::ContextRevisionAdded { space_id, context_id, revision })
}

proof fn participants_take_part(
    events: Multiset<ReducerEventView>,
    space_id: SpaceId,
    participant: ConflictParticipantView,
    event: ReducerEventView,
    revision: ContextRevisionView,
)
    requires
        participant_stands(events, space_id, participant),
        events.contains(event),
        live(events, event),
        adds(event, space_id, participant.context_id, revision),
        revision.revision_id == participant.revision_id,
    ensures
        takes_part(events, event, space_id, participant),
        crate::conflicts::participant_revision(events, space_id, participant) == revision,
        decides(revision),
{
    let other = choose|other: ReducerEventView| #[trigger]
        events.contains(other) && takes_part(events, other, space_id, participant);
    defines_own(event);
    defines_own(other);
    live_is_revision(events, event);
    live_is_revision(events, other);
    sound_definitions_are_unique(
        events,
        event,
        other,
        definition(DefinitionKind::ContextRevision, participant.revision_id),
    );
}

/// A valid conflict joins rivals: the live revisions that two of its participants name are Decisions
/// or Contracts of one topic, and neither their scopes nor the scope of the conflict are apart.
pub proof fn valid_conflicts_join_rivals(
    events: Multiset<ReducerEventView>,
    event: ReducerEventView,
    space_id: SpaceId,
    conflict: SemanticConflictView,
    at: (int, int),
    adding: (ReducerEventView, ReducerEventView),
    revisions: (ContextRevisionView, ContextRevisionView),
)
    requires
        valid_conflict(events, event),
        event.payload == (ReducerPayloadView::SemanticConflictOpened { space_id, conflict }),
        0 <= at.0 < at.1 < conflict.participants.len(),
        events.contains(adding.0) && live(events, adding.0),
        events.contains(adding.1) && live(events, adding.1),
        adds(adding.0, space_id, conflict.participants[at.0].context_id, revisions.0),
        adds(adding.1, space_id, conflict.participants[at.1].context_id, revisions.1),
        revisions.0.revision_id == conflict.participants[at.0].revision_id,
        revisions.1.revision_id == conflict.participants[at.1].revision_id,
    ensures
        decides(revisions.0) && decides(revisions.1),
        revisions.0.topic_key == revisions.1.topic_key,
        !scopes_are_apart(revisions.0.applicability, revisions.1.applicability),
        !scopes_are_apart(conflict.applicability, revisions.0.applicability),
        !scopes_are_apart(conflict.applicability, revisions.1.applicability),
{
    let parts = conflict.participants;
    participants_take_part(events, space_id, parts[at.0], adding.0, revisions.0);
    participants_take_part(events, space_id, parts[at.1], adding.1, revisions.1);
    scopes_apart_in_one_dimension_do_not_overlap(revisions.0.applicability, revisions.1.applicability);
    scopes_apart_in_one_dimension_do_not_overlap(conflict.applicability, revisions.0.applicability);
    scopes_apart_in_one_dimension_do_not_overlap(conflict.applicability, revisions.1.applicability);
}

/// A conflict that joins live revisions whose scopes are apart is not valid, and its Event is
/// quarantined as an invalid conflict reference.
pub proof fn conflicts_between_separate_scopes_are_refused(
    events: Multiset<ReducerEventView>,
    event: ReducerEventView,
    space_id: SpaceId,
    conflict: SemanticConflictView,
    at: (int, int),
    adding: (ReducerEventView, ReducerEventView),
    revisions: (ContextRevisionView, ContextRevisionView),
)
    requires
        event.payload == (ReducerPayloadView::SemanticConflictOpened { space_id, conflict }),
        sound(events, event),
        0 <= at.0 < at.1 < conflict.participants.len(),
        events.contains(adding.0) && live(events, adding.0),
        events.contains(adding.1) && live(events, adding.1),
        adds(adding.0, space_id, conflict.participants[at.0].context_id, revisions.0),
        adds(adding.1, space_id, conflict.participants[at.1].context_id, revisions.1),
        revisions.0.revision_id == conflict.participants[at.0].revision_id,
        revisions.1.revision_id == conflict.participants[at.1].revision_id,
        scopes_are_apart(revisions.0.applicability, revisions.1.applicability),
    ensures
        !valid_conflict(events, event),
        exists|complaint: ReducerDiagnosticView| #[trigger]
            conflict_complaints(events, event).contains(complaint) && complaint.code
                == ReducerDiagnosticCode::InvalidSemanticConflictReference,
{
    if valid_conflict(events, event) {
        valid_conflicts_join_rivals(events, event, space_id, conflict, at, adding, revisions);
    }
    let text = conflict.conflict_id.text();
    let complaint = diagnostic(
        ReducerDiagnosticCode::InvalidSemanticConflictReference,
        text,
        one_event(event.event_id),
        "semantic conflict "@ + text + " must reference valid same-space publish nodes with one overlapping topic"@,
    );
    assert(conflict_complaints(events, event).contains(complaint));
}

/// Every participant of a valid conflict was published: a valid Publication of its Context publishes
/// its revision under the identity that it names.
pub proof fn participants_are_published(
    events: Multiset<ReducerEventView>,
    event: ReducerEventView,
    space_id: SpaceId,
    conflict: SemanticConflictView,
    at: int,
) -> (publishing: ReducerEventView)
    requires
        valid_conflict(events, event),
        event.payload == (ReducerPayloadView::SemanticConflictOpened { space_id, conflict }),
        0 <= at < conflict.participants.len(),
    ensures
        events.contains(publishing),
        valid_publication(events, publishing),
        publishing.payload matches ReducerPayloadView::ContextPublicationChanged {
            space_id: space,
            context_id,
            publication,
        } && space == space_id && context_id == conflict.participants[at].context_id && publication.publication_id
            == conflict.participants[at].publication_id && publication.revision_id
            == conflict.participants[at].revision_id && publication.action == PublicationAction::Publish,
{
    assert(participant_stands(events, space_id, conflict.participants[at]));
    choose|publishing: ReducerEventView| #[trigger]
        events.contains(publishing) && publishes_part(events, publishing, space_id, conflict.participants[at])
}

/// Whether a conflict is resolved or open, and why it is open, from its resolutions and the
/// Publications of its participants.
pub proof fn conflicts_close_by_one_current_resolution(
    events: Multiset<ReducerEventView>,
    space_id: SpaceId,
    conflict: SemanticConflictView,
)
    ensures
        ({
            let heads = head_resolutions(events, conflict.conflict_id);
            let current = part_heads(events, space_id, conflict.participants);
            let status = conflict_status(events, space_id, conflict);
            let settled = forall|i: int|
                0 <= i < conflict.participants.len() ==> head_publications(
                    events,
                    space_id,
                    (#[trigger] conflict.participants[i]).context_id,
                ).len() == 1;
            &&& heads.len() == 0 ==> open_for(status, SemanticConflictOpenReason::NoResolution)
            &&& heads.len() > 1 ==> open_for(status, SemanticConflictOpenReason::ResolutionConflict)
            &&& !settled ==> open_for(status, SemanticConflictOpenReason::PublicationHeadsNotConverged)
            &&& heads.len() == 1 && !covers_current(events, conflict.conflict_id, current) ==> open_for(
                status,
                SemanticConflictOpenReason::ResolutionDoesNotCoverCurrentPublicationHeads,
            )
            &&& heads.len() == 1 && settled && covers_current(events, conflict.conflict_id, current) ==> status
                is Resolved
            &&& open_for(status, SemanticConflictOpenReason::NoResolution) ==> heads.len() == 0
            &&& open_for(status, SemanticConflictOpenReason::ResolutionConflict) ==> heads.len() > 1
            &&& open_for(status, SemanticConflictOpenReason::PublicationHeadsNotConverged) ==> !settled
            &&& open_for(
                status,
                SemanticConflictOpenReason::ResolutionDoesNotCoverCurrentPublicationHeads,
            ) ==> heads.len() == 1
        }),
{
    let heads = head_resolutions(events, conflict.conflict_id);
    let reasons = open_reasons(events, space_id, conflict);
    let settled = forall|i: int|
        0 <= i < conflict.participants.len() ==> head_publications(
            events,
            space_id,
            (#[trigger] conflict.participants[i]).context_id,
        ).len() == 1;
    assert(settled == crate::statuses::converged(events, space_id, conflict.participants)) by {
        if settled {
            assert forall|i: int| 0 <= i < conflict.participants.len() implies crate::statuses::has_one_head(
                events,
                space_id,
                #[trigger] conflict.participants[i],
            ) by {}
        }
        if crate::statuses::converged(events, space_id, conflict.participants) {
            assert forall|i: int| 0 <= i < conflict.participants.len() implies head_publications(
                events,
                space_id,
                (#[trigger] conflict.participants[i]).context_id,
            ).len() == 1 by {
                assert(crate::statuses::has_one_head(events, space_id, conflict.participants[i]));
            }
        }
    }
    if heads.len() == 0 {
        assert(reasons.contains(SemanticConflictOpenReason::NoResolution));
    }
    if heads.len() > 1 {
        assert(reasons.contains(SemanticConflictOpenReason::ResolutionConflict));
    }
    if !settled {
        assert(reasons.contains(SemanticConflictOpenReason::PublicationHeadsNotConverged));
    }
    if heads.len() == 1 && !covers_current(
        events,
        conflict.conflict_id,
        part_heads(events, space_id, conflict.participants),
    ) {
        assert(reasons.contains(SemanticConflictOpenReason::ResolutionDoesNotCoverCurrentPublicationHeads));
    }
}

/// Whether a conflict is open for a reason.
pub open spec fn open_for(status: SemanticConflictStatusView, reason: SemanticConflictOpenReason) -> bool {
    status matches SemanticConflictStatusView::Open { reasons } && reasons.contains(reason)
}

} // verus!
