//! Projections of Candidates, their submissions, and Context-to-Space associations.

use vstd::multiset::Multiset;
use vstd::prelude::*;

use crate::collections::{SortedMap, SortedSet};
use crate::confirmation::CandidateConfirmationView;
use crate::contexts::{defines_own, Standing};
use crate::definitions::{
    definition, duplicated, sound, sound_definitions_are_unique, Definition, DefinitionKind, Definitions,
};
use crate::episode::submission_hash;
use crate::events::{
    CandidateConfirmationConflict, CandidateConfirmationConflictView, CandidateProjection,
    CandidateProjectionView, CandidateSubmissionConflict, CandidateSubmissionConflictView,
    CandidateSubmissionProjection, CandidateSubmissionProjectionView, ContextSpaceAssociationConflict,
    ContextSpaceAssociationConflictView, ContextSpaceAssociationProjection,
    ContextSpaceAssociationProjectionView, ReducerEvent, ReducerEventView, ReducerPayload, ReducerPayloadView,
};
use crate::gather::{
    gathered, gathered_first, gathered_next, gathered_none, gathered_whole, holds_first, holds_next,
    holds_whole, keyed, one_value_each,
};
use crate::governance::{association_head, association_of, candidate_of, valid_association};
use crate::ids::{
    CandidateId, ConfirmationId, ContextId, EventId, Identifier, SpaceAssociationId, SubmissionId,
};
use crate::value::Value;

verus! {

/// The projection of the Candidate that a sound event creates.
pub open spec fn candidate_entry(
    events: Multiset<ReducerEventView>,
    event: ReducerEventView,
) -> Option<(CandidateId, CandidateProjectionView)> {
    match candidate_of(event) {
        Some(candidate) if sound(events, event) => Some(
            (candidate.candidate_id, CandidateProjectionView { event_id: event.event_id, candidate }),
        ),
        _ => None,
    }
}

/// A Candidate identity holds one sound Candidate.
pub proof fn candidate_entries_agree(events: Multiset<ReducerEventView>)
    ensures
        one_value_each(events, |event: ReducerEventView| candidate_entry(events, event)),
{
    let entry = |event: ReducerEventView| candidate_entry(events, event);
    assert forall|a: ReducerEventView, b: ReducerEventView| #[trigger]
        events.contains(a) && #[trigger] events.contains(b) && entry(a) is Some && entry(b) is Some && entry(
            a,
        )->Some_0.0 == entry(b)->Some_0.0 implies entry(a) == entry(b) by {
        defines_own(a);
        defines_own(b);
        sound_definitions_are_unique(
            events,
            a,
            b,
            definition(DefinitionKind::Candidate, candidate_of(a)->Some_0.candidate_id),
        );
    }
}

/// Projects the soundly created Candidates.
pub fn project_candidates(
    events: &Vec<ReducerEvent>,
    standing: &Standing,
) -> (map: SortedMap<CandidateId, CandidateProjection>)
    requires
        standing.describe(events.deep_view()),
    ensures
        map.deep_view() == keyed(
            events.deep_view().to_multiset(),
            |event: ReducerEventView| candidate_entry(events.deep_view().to_multiset(), event),
        ),
{
    let ghost list = events.deep_view();
    let ghost members = list.to_multiset();
    let ghost entry = |event: ReducerEventView| candidate_entry(members, event);
    proof {
        candidate_entries_agree(members);
    }
    let mut map: SortedMap<CandidateId, CandidateProjection> = SortedMap::new();
    let mut index: usize = 0;
    while index < events.len()
        invariant
            index <= events@.len(),
            list == events.deep_view(),
            members == list.to_multiset(),
            entry == (|event: ReducerEventView| candidate_entry(members, event)),
            one_value_each(members, entry),
            standing.describe(events.deep_view()),
            holds_first(map.deep_view(), list, entry, index as int),
        decreases events@.len() - index,
    {
        let found = project_candidates_at(events, index, standing);
        proof {
            holds_next(map.deep_view(), list, entry, index as int);
        }
        if let Some((key, value)) = found {
            map.insert(key, value);
        }
        index = index + 1;
    }
    proof {
        holds_whole(map.deep_view(), list, entry);
    }
    map
}

fn project_candidates_at(events: &Vec<ReducerEvent>, at: usize, standing: &Standing) -> (entry: Option<
    (CandidateId, CandidateProjection),
>)
    requires
        at < events@.len(),
        standing.describe(events.deep_view()),
    ensures
        entry.deep_view() == candidate_entry(events.deep_view().to_multiset(), events.deep_view()[at as int]),
{
    let ghost list = events.deep_view();
    assert(list[at as int] == events@[at as int].deep_view());
    assert(standing.facts.sound@[at as int] == sound(list.to_multiset(), list[at as int]));
    match &events[at].payload {
        ReducerPayload::ContextCandidateCreated { candidate } if standing.facts.sound[at] => Some(
            (
                candidate.candidate_id,
                CandidateProjection { event_id: events[at].event_id, candidate: candidate.copied() },
            ),
        ),
        _ => None,
    }
}

/// The projection of the submission of a soundly created Candidate.
pub open spec fn submission_entry(
    events: Multiset<ReducerEventView>,
    event: ReducerEventView,
) -> Option<(SubmissionId, CandidateSubmissionProjectionView)> {
    match candidate_of(event) {
        Some(candidate) if sound(events, event) => Some(
            (
                candidate.submission_id,
                CandidateSubmissionProjectionView {
                    submission_id: candidate.submission_id,
                    candidate_id: candidate.candidate_id,
                    event_id: event.event_id,
                    source_episode: candidate.source_episode,
                    content_hash: submission_hash(candidate.source_episode, candidate.content),
                },
            ),
        ),
        _ => None,
    }
}

/// A submission identity holds one sound Candidate.
pub proof fn submission_entries_agree(events: Multiset<ReducerEventView>)
    ensures
        one_value_each(events, |event: ReducerEventView| submission_entry(events, event)),
{
    let entry = |event: ReducerEventView| submission_entry(events, event);
    assert forall|a: ReducerEventView, b: ReducerEventView| #[trigger]
        events.contains(a) && #[trigger] events.contains(b) && entry(a) is Some && entry(b) is Some && entry(
            a,
        )->Some_0.0 == entry(b)->Some_0.0 implies entry(a) == entry(b) by {
        defines_own(a);
        defines_own(b);
        sound_definitions_are_unique(
            events,
            a,
            b,
            definition(DefinitionKind::Submission, candidate_of(a)->Some_0.submission_id),
        );
    }
}

/// Projects the submissions of soundly created Candidates.
pub fn project_submissions(
    events: &Vec<ReducerEvent>,
    standing: &Standing,
) -> (map: SortedMap<SubmissionId, CandidateSubmissionProjection>)
    requires
        standing.describe(events.deep_view()),
    ensures
        map.deep_view() == keyed(
            events.deep_view().to_multiset(),
            |event: ReducerEventView| submission_entry(events.deep_view().to_multiset(), event),
        ),
{
    let ghost list = events.deep_view();
    let ghost members = list.to_multiset();
    let ghost entry = |event: ReducerEventView| submission_entry(members, event);
    proof {
        submission_entries_agree(members);
    }
    let mut map: SortedMap<SubmissionId, CandidateSubmissionProjection> = SortedMap::new();
    let mut index: usize = 0;
    while index < events.len()
        invariant
            index <= events@.len(),
            list == events.deep_view(),
            members == list.to_multiset(),
            entry == (|event: ReducerEventView| submission_entry(members, event)),
            one_value_each(members, entry),
            standing.describe(events.deep_view()),
            holds_first(map.deep_view(), list, entry, index as int),
        decreases events@.len() - index,
    {
        let found = project_submissions_at(events, index, standing);
        proof {
            holds_next(map.deep_view(), list, entry, index as int);
        }
        if let Some((key, value)) = found {
            map.insert(key, value);
        }
        index = index + 1;
    }
    proof {
        holds_whole(map.deep_view(), list, entry);
    }
    map
}

fn project_submissions_at(events: &Vec<ReducerEvent>, at: usize, standing: &Standing) -> (entry: Option<
    (SubmissionId, CandidateSubmissionProjection),
>)
    requires
        at < events@.len(),
        standing.describe(events.deep_view()),
    ensures
        entry.deep_view() == submission_entry(events.deep_view().to_multiset(), events.deep_view()[at as int]),
{
    let ghost list = events.deep_view();
    assert(list[at as int] == events@[at as int].deep_view());
    assert(standing.facts.sound@[at as int] == sound(list.to_multiset(), list[at as int]));
    match &events[at].payload {
        ReducerPayload::ContextCandidateCreated { candidate } if standing.facts.sound[at] => Some(
            (
                candidate.submission_id,
                CandidateSubmissionProjection {
                    submission_id: candidate.submission_id,
                    candidate_id: candidate.candidate_id,
                    event_id: events[at].event_id,
                    source_episode: candidate.source_episode,
                    content_hash: candidate.submission_content_hash(),
                },
            ),
        ),
        _ => None,
    }
}

/// Whether an event creates a Candidate for a submission.
pub open spec fn submits(event: ReducerEventView, submission_id: SubmissionId) -> bool {
    candidate_of(event) is Some && candidate_of(event)->Some_0.submission_id == submission_id
}

/// The event of a submission.
pub open spec fn submission_event_share(submission_id: SubmissionId, event: ReducerEventView) -> Set<EventId> {
    if submits(event, submission_id) {
        Set::empty().insert(event.event_id)
    } else {
        Set::empty()
    }
}

/// The Candidate of a submission.
pub open spec fn submission_candidate_share(
    submission_id: SubmissionId,
    event: ReducerEventView,
) -> Set<CandidateId> {
    if submits(event, submission_id) {
        Set::empty().insert(candidate_of(event)->Some_0.candidate_id)
    } else {
        Set::empty()
    }
}

/// The content of a submission.
pub open spec fn submission_content_share(submission_id: SubmissionId, event: ReducerEventView) -> Set<Seq<char>> {
    if submits(event, submission_id) {
        Set::empty().insert(
            submission_hash(candidate_of(event)->Some_0.source_episode, candidate_of(event)->Some_0.content),
        )
    } else {
        Set::empty()
    }
}

/// Adds the events of a submission.
fn add_submission_events(events: &Vec<ReducerEvent>, submission_id: SubmissionId, found: &mut SortedSet<EventId>)
    ensures
        final(found).deep_view() == old(found).deep_view().union(
            gathered(
                events.deep_view().to_multiset(),
                |event: ReducerEventView| submission_event_share(submission_id, event),
            ),
        ),
{
    let ghost list = events.deep_view();
    let ghost members = list.to_multiset();
    let ghost share = |event: ReducerEventView| submission_event_share(submission_id, event);
    let ghost start = found.deep_view();
    proof {
        gathered_none(list, share);
        assert(start =~= start.union(Set::empty()));
    }
    let mut index: usize = 0;
    while index < events.len()
        invariant
            index <= events@.len(),
            list == events.deep_view(),
            members == list.to_multiset(),
            share == (|event: ReducerEventView| submission_event_share(submission_id, event)),
            found.deep_view() == start.union(gathered_first(list, share, index as int)),
        decreases events@.len() - index,
    {
        add_submission_events_at(events, index, submission_id, found);
        proof {
            gathered_next(list, share, index as int);
            assert(found.deep_view() =~= start.union(gathered_first(list, share, index + 1)));
        }
        index = index + 1;
    }
    proof {
        gathered_whole(list, share);
    }
}

fn add_submission_events_at(
    events: &Vec<ReducerEvent>,
    at: usize,
    submission_id: SubmissionId,
    found: &mut SortedSet<EventId>,
)
    requires
        at < events@.len(),
    ensures
        final(found).deep_view() == old(found).deep_view().union(
            submission_event_share(submission_id, events.deep_view()[at as int]),
        ),
{
    let ghost start = found.deep_view();
    assert(events.deep_view()[at as int] == events@[at as int].deep_view());
    if let ReducerPayload::ContextCandidateCreated { candidate } = &events[at].payload {
        if candidate.submission_id == submission_id {
            found.insert(events[at].event_id);
        }
    }
    assert(found.deep_view() =~= start.union(submission_event_share(submission_id, events.deep_view()[at as int])));
}

/// Adds the Candidates of a submission.
fn add_submission_candidates(
    events: &Vec<ReducerEvent>,
    submission_id: SubmissionId,
    found: &mut SortedSet<CandidateId>,
)
    ensures
        final(found).deep_view() == old(found).deep_view().union(
            gathered(
                events.deep_view().to_multiset(),
                |event: ReducerEventView| submission_candidate_share(submission_id, event),
            ),
        ),
{
    let ghost list = events.deep_view();
    let ghost members = list.to_multiset();
    let ghost share = |event: ReducerEventView| submission_candidate_share(submission_id, event);
    let ghost start = found.deep_view();
    proof {
        gathered_none(list, share);
        assert(start =~= start.union(Set::empty()));
    }
    let mut index: usize = 0;
    while index < events.len()
        invariant
            index <= events@.len(),
            list == events.deep_view(),
            members == list.to_multiset(),
            share == (|event: ReducerEventView| submission_candidate_share(submission_id, event)),
            found.deep_view() == start.union(gathered_first(list, share, index as int)),
        decreases events@.len() - index,
    {
        add_submission_candidates_at(events, index, submission_id, found);
        proof {
            gathered_next(list, share, index as int);
            assert(found.deep_view() =~= start.union(gathered_first(list, share, index + 1)));
        }
        index = index + 1;
    }
    proof {
        gathered_whole(list, share);
    }
}

fn add_submission_candidates_at(
    events: &Vec<ReducerEvent>,
    at: usize,
    submission_id: SubmissionId,
    found: &mut SortedSet<CandidateId>,
)
    requires
        at < events@.len(),
    ensures
        final(found).deep_view() == old(found).deep_view().union(
            submission_candidate_share(submission_id, events.deep_view()[at as int]),
        ),
{
    let ghost start = found.deep_view();
    assert(events.deep_view()[at as int] == events@[at as int].deep_view());
    if let ReducerPayload::ContextCandidateCreated { candidate } = &events[at].payload {
        if candidate.submission_id == submission_id {
            found.insert(candidate.candidate_id);
        }
    }
    assert(found.deep_view() =~= start.union(
        submission_candidate_share(submission_id, events.deep_view()[at as int]),
    ));
}

/// Adds the contents of a submission.
fn add_submission_contents(events: &Vec<ReducerEvent>, submission_id: SubmissionId, found: &mut SortedSet<String>)
    ensures
        final(found).deep_view() == old(found).deep_view().union(
            gathered(
                events.deep_view().to_multiset(),
                |event: ReducerEventView| submission_content_share(submission_id, event),
            ),
        ),
{
    let ghost list = events.deep_view();
    let ghost members = list.to_multiset();
    let ghost share = |event: ReducerEventView| submission_content_share(submission_id, event);
    let ghost start = found.deep_view();
    proof {
        gathered_none(list, share);
        assert(start =~= start.union(Set::empty()));
    }
    let mut index: usize = 0;
    while index < events.len()
        invariant
            index <= events@.len(),
            list == events.deep_view(),
            members == list.to_multiset(),
            share == (|event: ReducerEventView| submission_content_share(submission_id, event)),
            found.deep_view() == start.union(gathered_first(list, share, index as int)),
        decreases events@.len() - index,
    {
        add_submission_contents_at(events, index, submission_id, found);
        proof {
            gathered_next(list, share, index as int);
            assert(found.deep_view() =~= start.union(gathered_first(list, share, index + 1)));
        }
        index = index + 1;
    }
    proof {
        gathered_whole(list, share);
    }
}

fn add_submission_contents_at(
    events: &Vec<ReducerEvent>,
    at: usize,
    submission_id: SubmissionId,
    found: &mut SortedSet<String>,
)
    requires
        at < events@.len(),
    ensures
        final(found).deep_view() == old(found).deep_view().union(
            submission_content_share(submission_id, events.deep_view()[at as int]),
        ),
{
    let ghost start = found.deep_view();
    assert(events.deep_view()[at as int] == events@[at as int].deep_view());
    if let ReducerPayload::ContextCandidateCreated { candidate } = &events[at].payload {
        if candidate.submission_id == submission_id {
            found.insert(candidate.submission_content_hash());
        }
    }
    assert(found.deep_view() =~= start.union(
        submission_content_share(submission_id, events.deep_view()[at as int]),
    ));
}

/// The conflict of a submission that has no sound Candidate: everything that was submitted under
/// it.
pub open spec fn submission_conflict(
    events: Multiset<ReducerEventView>,
    submission_id: SubmissionId,
) -> CandidateSubmissionConflictView {
    CandidateSubmissionConflictView {
        submission_id,
        event_ids: gathered(events, |event: ReducerEventView| submission_event_share(submission_id, event)),
        candidate_ids: gathered(events, |event: ReducerEventView| submission_candidate_share(submission_id, event)),
        content_hashes: gathered(events, |event: ReducerEventView| submission_content_share(submission_id, event)),
    }
}

/// The conflict of the submission of an unsound Candidate.
pub open spec fn submission_conflict_entry(
    events: Multiset<ReducerEventView>,
    event: ReducerEventView,
) -> Option<(SubmissionId, CandidateSubmissionConflictView)> {
    match candidate_of(event) {
        Some(candidate) if !sound(events, event) => Some(
            (candidate.submission_id, submission_conflict(events, candidate.submission_id)),
        ),
        _ => None,
    }
}

proof fn submission_conflicts_agree(events: Multiset<ReducerEventView>)
    ensures
        one_value_each(events, |event: ReducerEventView| submission_conflict_entry(events, event)),
{
}

/// Projects the conflicts of submissions without a sound Candidate.
pub fn project_submission_conflicts(
    events: &Vec<ReducerEvent>,
    standing: &Standing,
) -> (map: SortedMap<SubmissionId, CandidateSubmissionConflict>)
    requires
        standing.describe(events.deep_view()),
    ensures
        map.deep_view() == keyed(
            events.deep_view().to_multiset(),
            |event: ReducerEventView| submission_conflict_entry(events.deep_view().to_multiset(), event),
        ),
{
    let ghost list = events.deep_view();
    let ghost members = list.to_multiset();
    let ghost entry = |event: ReducerEventView| submission_conflict_entry(members, event);
    proof {
        submission_conflicts_agree(members);
    }
    let mut map: SortedMap<SubmissionId, CandidateSubmissionConflict> = SortedMap::new();
    let mut index: usize = 0;
    while index < events.len()
        invariant
            index <= events@.len(),
            list == events.deep_view(),
            members == list.to_multiset(),
            entry == (|event: ReducerEventView| submission_conflict_entry(members, event)),
            one_value_each(members, entry),
            standing.describe(events.deep_view()),
            holds_first(map.deep_view(), list, entry, index as int),
        decreases events@.len() - index,
    {
        let found = project_submission_conflicts_at(events, index, standing);
        proof {
            holds_next(map.deep_view(), list, entry, index as int);
        }
        if let Some((key, value)) = found {
            map.insert(key, value);
        }
        index = index + 1;
    }
    proof {
        holds_whole(map.deep_view(), list, entry);
    }
    map
}

fn project_submission_conflicts_at(events: &Vec<ReducerEvent>, at: usize, standing: &Standing) -> (entry: Option<
    (SubmissionId, CandidateSubmissionConflict),
>)
    requires
        at < events@.len(),
        standing.describe(events.deep_view()),
    ensures
        entry.deep_view() == submission_conflict_entry(
            events.deep_view().to_multiset(),
            events.deep_view()[at as int],
        ),
{
    let ghost list = events.deep_view();
    let ghost members = list.to_multiset();
    assert(list[at as int] == events@[at as int].deep_view());
    assert(standing.facts.sound@[at as int] == sound(list.to_multiset(), list[at as int]));
    match &events[at].payload {
        ReducerPayload::ContextCandidateCreated { candidate } if !standing.facts.sound[at] => {
            let submission_id = candidate.submission_id;
            let mut event_ids: SortedSet<EventId> = SortedSet::new();
            add_submission_events(events, submission_id, &mut event_ids);
            let mut candidate_ids: SortedSet<CandidateId> = SortedSet::new();
            add_submission_candidates(events, submission_id, &mut candidate_ids);
            let mut content_hashes: SortedSet<String> = SortedSet::new();
            add_submission_contents(events, submission_id, &mut content_hashes);
            proof {
                let expected = submission_conflict(members, submission_id);
                assert(event_ids.deep_view() =~= expected.event_ids);
                assert(candidate_ids.deep_view() =~= expected.candidate_ids);
                assert(content_hashes.deep_view() =~= expected.content_hashes);
            }
            Some(
                (
                    submission_id,
                    CandidateSubmissionConflict { submission_id, event_ids, candidate_ids, content_hashes },
                ),
            )
        },
        _ => None,
    }
}

/// The confirmation that an event records.
pub open spec fn confirmation_of(event: ReducerEventView) -> Option<CandidateConfirmationView> {
    match event.payload {
        ReducerPayloadView::CandidateConfirmed { confirmation } => Some(confirmation),
        _ => None,
    }
}

/// Whether an event confirms a Candidate.
pub open spec fn confirms(event: ReducerEventView, candidate_id: CandidateId) -> bool {
    confirmation_of(event) is Some && confirmation_of(event)->Some_0.candidate_id == candidate_id
}

/// The event of a confirmation of a Candidate.
pub open spec fn confirming_event_share(candidate_id: CandidateId, event: ReducerEventView) -> Set<EventId> {
    if confirms(event, candidate_id) {
        Set::empty().insert(event.event_id)
    } else {
        Set::empty()
    }
}

/// The confirmation of a Candidate.
pub open spec fn confirming_share(candidate_id: CandidateId, event: ReducerEventView) -> Set<ConfirmationId> {
    if confirms(event, candidate_id) {
        Set::empty().insert(confirmation_of(event)->Some_0.confirmation_id)
    } else {
        Set::empty()
    }
}

/// Adds the events that confirm a Candidate.
fn add_confirming_events(events: &Vec<ReducerEvent>, candidate_id: CandidateId, found: &mut SortedSet<EventId>)
    ensures
        final(found).deep_view() == old(found).deep_view().union(
            gathered(
                events.deep_view().to_multiset(),
                |event: ReducerEventView| confirming_event_share(candidate_id, event),
            ),
        ),
{
    let ghost list = events.deep_view();
    let ghost members = list.to_multiset();
    let ghost share = |event: ReducerEventView| confirming_event_share(candidate_id, event);
    let ghost start = found.deep_view();
    proof {
        gathered_none(list, share);
        assert(start =~= start.union(Set::empty()));
    }
    let mut index: usize = 0;
    while index < events.len()
        invariant
            index <= events@.len(),
            list == events.deep_view(),
            members == list.to_multiset(),
            share == (|event: ReducerEventView| confirming_event_share(candidate_id, event)),
            found.deep_view() == start.union(gathered_first(list, share, index as int)),
        decreases events@.len() - index,
    {
        add_confirming_events_at(events, index, candidate_id, found);
        proof {
            gathered_next(list, share, index as int);
            assert(found.deep_view() =~= start.union(gathered_first(list, share, index + 1)));
        }
        index = index + 1;
    }
    proof {
        gathered_whole(list, share);
    }
}

fn add_confirming_events_at(
    events: &Vec<ReducerEvent>,
    at: usize,
    candidate_id: CandidateId,
    found: &mut SortedSet<EventId>,
)
    requires
        at < events@.len(),
    ensures
        final(found).deep_view() == old(found).deep_view().union(
            confirming_event_share(candidate_id, events.deep_view()[at as int]),
        ),
{
    let ghost start = found.deep_view();
    assert(events.deep_view()[at as int] == events@[at as int].deep_view());
    if let ReducerPayload::CandidateConfirmed { confirmation } = &events[at].payload {
        if confirmation.candidate_id == candidate_id {
            found.insert(events[at].event_id);
        }
    }
    assert(found.deep_view() =~= start.union(confirming_event_share(candidate_id, events.deep_view()[at as int])));
}

/// Adds the confirmations of a Candidate.
fn add_confirming(events: &Vec<ReducerEvent>, candidate_id: CandidateId, found: &mut SortedSet<ConfirmationId>)
    ensures
        final(found).deep_view() == old(found).deep_view().union(
            gathered(
                events.deep_view().to_multiset(),
                |event: ReducerEventView| confirming_share(candidate_id, event),
            ),
        ),
{
    let ghost list = events.deep_view();
    let ghost members = list.to_multiset();
    let ghost share = |event: ReducerEventView| confirming_share(candidate_id, event);
    let ghost start = found.deep_view();
    proof {
        gathered_none(list, share);
        assert(start =~= start.union(Set::empty()));
    }
    let mut index: usize = 0;
    while index < events.len()
        invariant
            index <= events@.len(),
            list == events.deep_view(),
            members == list.to_multiset(),
            share == (|event: ReducerEventView| confirming_share(candidate_id, event)),
            found.deep_view() == start.union(gathered_first(list, share, index as int)),
        decreases events@.len() - index,
    {
        add_confirming_at(events, index, candidate_id, found);
        proof {
            gathered_next(list, share, index as int);
            assert(found.deep_view() =~= start.union(gathered_first(list, share, index + 1)));
        }
        index = index + 1;
    }
    proof {
        gathered_whole(list, share);
    }
}

fn add_confirming_at(
    events: &Vec<ReducerEvent>,
    at: usize,
    candidate_id: CandidateId,
    found: &mut SortedSet<ConfirmationId>,
)
    requires
        at < events@.len(),
    ensures
        final(found).deep_view() == old(found).deep_view().union(
            confirming_share(candidate_id, events.deep_view()[at as int]),
        ),
{
    let ghost start = found.deep_view();
    assert(events.deep_view()[at as int] == events@[at as int].deep_view());
    if let ReducerPayload::CandidateConfirmed { confirmation } = &events[at].payload {
        if confirmation.candidate_id == candidate_id {
            found.insert(confirmation.confirmation_id);
        }
    }
    assert(found.deep_view() =~= start.union(confirming_share(candidate_id, events.deep_view()[at as int])));
}

/// The conflict of a Candidate that is confirmed more than once: no winner is selected.
pub open spec fn confirmation_conflict(
    events: Multiset<ReducerEventView>,
    candidate_id: CandidateId,
) -> CandidateConfirmationConflictView {
    CandidateConfirmationConflictView {
        candidate_id,
        confirmation_ids: gathered(events, |event: ReducerEventView| confirming_share(candidate_id, event)),
        event_ids: gathered(events, |event: ReducerEventView| confirming_event_share(candidate_id, event)),
    }
}

/// The conflict of the Candidate that an event confirms once more.
pub open spec fn confirmation_conflict_entry(
    events: Multiset<ReducerEventView>,
    event: ReducerEventView,
) -> Option<(CandidateId, CandidateConfirmationConflictView)> {
    match confirmation_of(event) {
        Some(confirmation) if duplicated(
            events,
            definition(DefinitionKind::ConfirmedCandidate, confirmation.candidate_id),
        ) => Some((confirmation.candidate_id, confirmation_conflict(events, confirmation.candidate_id))),
        _ => None,
    }
}

proof fn confirmation_conflicts_agree(events: Multiset<ReducerEventView>)
    ensures
        one_value_each(events, |event: ReducerEventView| confirmation_conflict_entry(events, event)),
{
}

/// Projects the conflicts of Candidates that are confirmed more than once.
pub fn project_confirmation_conflicts(
    events: &Vec<ReducerEvent>,
    defined: &Definitions,
) -> (map: SortedMap<CandidateId, CandidateConfirmationConflict>)
    requires
        defined.describe(events.deep_view()),
    ensures
        map.deep_view() == keyed(
            events.deep_view().to_multiset(),
            |event: ReducerEventView| confirmation_conflict_entry(events.deep_view().to_multiset(), event),
        ),
{
    let ghost list = events.deep_view();
    let ghost members = list.to_multiset();
    let ghost entry = |event: ReducerEventView| confirmation_conflict_entry(members, event);
    proof {
        confirmation_conflicts_agree(members);
    }
    let mut map: SortedMap<CandidateId, CandidateConfirmationConflict> = SortedMap::new();
    let mut index: usize = 0;
    while index < events.len()
        invariant
            index <= events@.len(),
            list == events.deep_view(),
            members == list.to_multiset(),
            entry == (|event: ReducerEventView| confirmation_conflict_entry(members, event)),
            one_value_each(members, entry),
            defined.describe(events.deep_view()),
            holds_first(map.deep_view(), list, entry, index as int),
        decreases events@.len() - index,
    {
        let found = project_confirmation_conflicts_at(events, index, defined);
        proof {
            holds_next(map.deep_view(), list, entry, index as int);
        }
        if let Some((key, value)) = found {
            map.insert(key, value);
        }
        index = index + 1;
    }
    proof {
        holds_whole(map.deep_view(), list, entry);
    }
    map
}

fn project_confirmation_conflicts_at(events: &Vec<ReducerEvent>, at: usize, defined: &Definitions) -> (entry: Option<
    (CandidateId, CandidateConfirmationConflict),
>)
    requires
        at < events@.len(),
        defined.describe(events.deep_view()),
    ensures
        entry.deep_view() == confirmation_conflict_entry(
            events.deep_view().to_multiset(),
            events.deep_view()[at as int],
        ),
{
    let ghost list = events.deep_view();
    let ghost members = list.to_multiset();
    assert(list[at as int] == events@[at as int].deep_view());
    match &events[at].payload {
        ReducerPayload::CandidateConfirmed { confirmation } => {
            let candidate_id = confirmation.candidate_id;
            let confirmed = Definition { kind: DefinitionKind::ConfirmedCandidate, number: candidate_id.get() };
            if !defined.is_duplicated(Ghost(list), confirmed) {
                return None;
            }
            let mut confirmation_ids: SortedSet<ConfirmationId> = SortedSet::new();
            add_confirming(events, candidate_id, &mut confirmation_ids);
            let mut event_ids: SortedSet<EventId> = SortedSet::new();
            add_confirming_events(events, candidate_id, &mut event_ids);
            proof {
                let expected = confirmation_conflict(members, candidate_id);
                assert(confirmation_ids.deep_view() =~= expected.confirmation_ids);
                assert(event_ids.deep_view() =~= expected.event_ids);
            }
            Some((candidate_id, CandidateConfirmationConflict { candidate_id, confirmation_ids, event_ids }))
        },
        _ => None,
    }
}

/// The projection of the valid association that an event records.
pub open spec fn association_entry(
    events: Multiset<ReducerEventView>,
    event: ReducerEventView,
) -> Option<(SpaceAssociationId, ContextSpaceAssociationProjectionView)> {
    if valid_association(events, event) {
        let association = association_of(event)->Some_0;
        Some(
            (
                association.association_id,
                ContextSpaceAssociationProjectionView { event_id: event.event_id, association },
            ),
        )
    } else {
        None
    }
}

/// An association identity holds one valid association.
pub proof fn association_entries_agree(events: Multiset<ReducerEventView>)
    ensures
        one_value_each(events, |event: ReducerEventView| association_entry(events, event)),
{
    let entry = |event: ReducerEventView| association_entry(events, event);
    assert forall|a: ReducerEventView, b: ReducerEventView| #[trigger]
        events.contains(a) && #[trigger] events.contains(b) && entry(a) is Some && entry(b) is Some && entry(
            a,
        )->Some_0.0 == entry(b)->Some_0.0 implies entry(a) == entry(b) by {
        defines_own(a);
        defines_own(b);
        sound_definitions_are_unique(
            events,
            a,
            b,
            definition(DefinitionKind::Association, association_of(a)->Some_0.association_id),
        );
    }
}

/// Projects the valid associations.
pub fn project_associations(
    events: &Vec<ReducerEvent>,
    standing: &Standing,
) -> (map: SortedMap<SpaceAssociationId, ContextSpaceAssociationProjection>)
    requires
        standing.describe(events.deep_view()),
    ensures
        map.deep_view() == keyed(
            events.deep_view().to_multiset(),
            |event: ReducerEventView| association_entry(events.deep_view().to_multiset(), event),
        ),
{
    let ghost list = events.deep_view();
    let ghost members = list.to_multiset();
    let ghost entry = |event: ReducerEventView| association_entry(members, event);
    proof {
        association_entries_agree(members);
    }
    let mut map: SortedMap<SpaceAssociationId, ContextSpaceAssociationProjection> = SortedMap::new();
    let mut index: usize = 0;
    while index < events.len()
        invariant
            index <= events@.len(),
            list == events.deep_view(),
            members == list.to_multiset(),
            entry == (|event: ReducerEventView| association_entry(members, event)),
            one_value_each(members, entry),
            standing.describe(events.deep_view()),
            holds_first(map.deep_view(), list, entry, index as int),
        decreases events@.len() - index,
    {
        let found = project_associations_at(events, index, standing);
        proof {
            holds_next(map.deep_view(), list, entry, index as int);
        }
        if let Some((key, value)) = found {
            map.insert(key, value);
        }
        index = index + 1;
    }
    proof {
        holds_whole(map.deep_view(), list, entry);
    }
    map
}

fn project_associations_at(events: &Vec<ReducerEvent>, at: usize, standing: &Standing) -> (entry: Option<
    (SpaceAssociationId, ContextSpaceAssociationProjection),
>)
    requires
        at < events@.len(),
        standing.describe(events.deep_view()),
    ensures
        entry.deep_view() == association_entry(events.deep_view().to_multiset(), events.deep_view()[at as int]),
{
    let ghost list = events.deep_view();
    assert(list[at as int] == events@[at as int].deep_view());
    assert(standing.associations@[at as int] == valid_association(list.to_multiset(), list[at as int]));
    match &events[at].payload {
        ReducerPayload::ContextSpaceAssociationChanged { association } if standing.associations[at] => Some(
            (
                association.association_id,
                ContextSpaceAssociationProjection {
                    event_id: events[at].event_id,
                    association: association.copied(),
                },
            ),
        ),
        _ => None,
    }
}

/// The association head that an event records for a Context.
pub open spec fn association_head_share(
    events: Multiset<ReducerEventView>,
    context_id: ContextId,
    event: ReducerEventView,
) -> Set<SpaceAssociationId> {
    if association_head(events, event) && association_of(event)->Some_0.context_id == context_id {
        Set::empty().insert(association_of(event)->Some_0.association_id)
    } else {
        Set::empty()
    }
}

/// The association heads of a Context.
pub open spec fn head_associations(
    events: Multiset<ReducerEventView>,
    context_id: ContextId,
) -> Set<SpaceAssociationId> {
    gathered(events, |event: ReducerEventView| association_head_share(events, context_id, event))
}

/// Adds the association heads of a Context.
fn add_head_associations(
    events: &Vec<ReducerEvent>,
    standing: &Standing,
    context_id: ContextId,
    heads: &mut SortedSet<SpaceAssociationId>,
)
    requires
        standing.describe(events.deep_view()),
    ensures
        final(heads).deep_view() == old(heads).deep_view().union(
            gathered(
                events.deep_view().to_multiset(),
                |event: ReducerEventView| association_head_share(events.deep_view().to_multiset(), context_id, event),
            ),
        ),
{
    let ghost list = events.deep_view();
    let ghost members = list.to_multiset();
    let ghost share = |event: ReducerEventView| association_head_share(members, context_id, event);
    let ghost start = heads.deep_view();
    proof {
        gathered_none(list, share);
        assert(start =~= start.union(Set::empty()));
    }
    let mut index: usize = 0;
    while index < events.len()
        invariant
            index <= events@.len(),
            list == events.deep_view(),
            members == list.to_multiset(),
            share == (|event: ReducerEventView| association_head_share(members, context_id, event)),
            standing.describe(events.deep_view()),
            heads.deep_view() == start.union(gathered_first(list, share, index as int)),
        decreases events@.len() - index,
    {
        add_head_associations_at(events, index, standing, context_id, heads);
        proof {
            gathered_next(list, share, index as int);
            assert(heads.deep_view() =~= start.union(gathered_first(list, share, index + 1)));
        }
        index = index + 1;
    }
    proof {
        gathered_whole(list, share);
    }
}

fn add_head_associations_at(
    events: &Vec<ReducerEvent>,
    at: usize,
    standing: &Standing,
    context_id: ContextId,
    heads: &mut SortedSet<SpaceAssociationId>,
)
    requires
        at < events@.len(),
        standing.describe(events.deep_view()),
    ensures
        final(heads).deep_view() == old(heads).deep_view().union(
            association_head_share(events.deep_view().to_multiset(), context_id, events.deep_view()[at as int]),
        ),
{
    let ghost list = events.deep_view();
    let ghost start = heads.deep_view();
    assert(list[at as int] == events@[at as int].deep_view());
    assert(standing.association_heads@[at as int] == association_head(list.to_multiset(), list[at as int]));
    if let ReducerPayload::ContextSpaceAssociationChanged { association } = &events[at].payload {
        if standing.association_heads[at] && association.context_id == context_id {
            heads.insert(association.association_id);
        }
    }
    assert(heads.deep_view() =~= start.union(
        association_head_share(list.to_multiset(), context_id, list[at as int]),
    ));
}

/// The association heads of the Context of an association head.
pub open spec fn association_heads_entry(
    events: Multiset<ReducerEventView>,
    event: ReducerEventView,
) -> Option<(ContextId, Set<SpaceAssociationId>)> {
    if association_head(events, event) {
        let context_id = association_of(event)->Some_0.context_id;
        Some((context_id, head_associations(events, context_id)))
    } else {
        None
    }
}

proof fn association_heads_agree(events: Multiset<ReducerEventView>)
    ensures
        one_value_each(events, |event: ReducerEventView| association_heads_entry(events, event)),
{
}

/// Projects the association heads of each Context that has some.
pub fn project_association_heads(
    events: &Vec<ReducerEvent>,
    standing: &Standing,
) -> (map: SortedMap<ContextId, SortedSet<SpaceAssociationId>>)
    requires
        standing.describe(events.deep_view()),
    ensures
        map.deep_view() == keyed(
            events.deep_view().to_multiset(),
            |event: ReducerEventView| association_heads_entry(events.deep_view().to_multiset(), event),
        ),
{
    let ghost list = events.deep_view();
    let ghost members = list.to_multiset();
    let ghost entry = |event: ReducerEventView| association_heads_entry(members, event);
    proof {
        association_heads_agree(members);
    }
    let mut map: SortedMap<ContextId, SortedSet<SpaceAssociationId>> = SortedMap::new();
    let mut index: usize = 0;
    while index < events.len()
        invariant
            index <= events@.len(),
            list == events.deep_view(),
            members == list.to_multiset(),
            entry == (|event: ReducerEventView| association_heads_entry(members, event)),
            one_value_each(members, entry),
            standing.describe(events.deep_view()),
            holds_first(map.deep_view(), list, entry, index as int),
        decreases events@.len() - index,
    {
        let found = project_association_heads_at(events, index, standing);
        proof {
            holds_next(map.deep_view(), list, entry, index as int);
        }
        if let Some((key, value)) = found {
            map.insert(key, value);
        }
        index = index + 1;
    }
    proof {
        holds_whole(map.deep_view(), list, entry);
    }
    map
}

fn project_association_heads_at(events: &Vec<ReducerEvent>, at: usize, standing: &Standing) -> (entry: Option<
    (ContextId, SortedSet<SpaceAssociationId>),
>)
    requires
        at < events@.len(),
        standing.describe(events.deep_view()),
    ensures
        entry.deep_view() == association_heads_entry(
            events.deep_view().to_multiset(),
            events.deep_view()[at as int],
        ),
{
    let ghost list = events.deep_view();
    let ghost members = list.to_multiset();
    assert(list[at as int] == events@[at as int].deep_view());
    assert(standing.association_heads@[at as int] == association_head(members, list[at as int]));
    match &events[at].payload {
        ReducerPayload::ContextSpaceAssociationChanged { association } if standing.association_heads[at] => {
            let mut heads: SortedSet<SpaceAssociationId> = SortedSet::new();
            add_head_associations(events, standing, association.context_id, &mut heads);
            assert(heads.deep_view() =~= head_associations(members, association.context_id));
            Some((association.context_id, heads))
        },
        _ => None,
    }
}

/// The conflict of the Context of an association head, where it has several: no winner is
/// selected.
pub open spec fn association_conflict_entry(
    events: Multiset<ReducerEventView>,
    event: ReducerEventView,
) -> Option<(ContextId, ContextSpaceAssociationConflictView)> {
    match association_heads_entry(events, event) {
        Some((context_id, head_ids)) if head_ids.len() > 1 => Some(
            (context_id, ContextSpaceAssociationConflictView { context_id, head_ids }),
        ),
        _ => None,
    }
}

proof fn association_conflicts_agree(events: Multiset<ReducerEventView>)
    ensures
        one_value_each(events, |event: ReducerEventView| association_conflict_entry(events, event)),
{
}

/// Projects the conflicts of Contexts with several association heads.
pub fn project_association_conflicts(
    events: &Vec<ReducerEvent>,
    standing: &Standing,
) -> (map: SortedMap<ContextId, ContextSpaceAssociationConflict>)
    requires
        standing.describe(events.deep_view()),
    ensures
        map.deep_view() == keyed(
            events.deep_view().to_multiset(),
            |event: ReducerEventView| association_conflict_entry(events.deep_view().to_multiset(), event),
        ),
{
    let ghost list = events.deep_view();
    let ghost members = list.to_multiset();
    let ghost entry = |event: ReducerEventView| association_conflict_entry(members, event);
    proof {
        association_conflicts_agree(members);
    }
    let mut map: SortedMap<ContextId, ContextSpaceAssociationConflict> = SortedMap::new();
    let mut index: usize = 0;
    while index < events.len()
        invariant
            index <= events@.len(),
            list == events.deep_view(),
            members == list.to_multiset(),
            entry == (|event: ReducerEventView| association_conflict_entry(members, event)),
            one_value_each(members, entry),
            standing.describe(events.deep_view()),
            holds_first(map.deep_view(), list, entry, index as int),
        decreases events@.len() - index,
    {
        let found = project_association_conflicts_at(events, index, standing);
        proof {
            holds_next(map.deep_view(), list, entry, index as int);
        }
        if let Some((key, value)) = found {
            map.insert(key, value);
        }
        index = index + 1;
    }
    proof {
        holds_whole(map.deep_view(), list, entry);
    }
    map
}

fn project_association_conflicts_at(events: &Vec<ReducerEvent>, at: usize, standing: &Standing) -> (entry: Option<
    (ContextId, ContextSpaceAssociationConflict),
>)
    requires
        at < events@.len(),
        standing.describe(events.deep_view()),
    ensures
        entry.deep_view() == association_conflict_entry(
            events.deep_view().to_multiset(),
            events.deep_view()[at as int],
        ),
{
    match project_association_heads_at(events, at, standing) {
        Some((context_id, head_ids)) => {
            if head_ids.len() > 1 {
                Some((context_id, ContextSpaceAssociationConflict { context_id, head_ids }))
            } else {
                None
            }
        },
        None => None,
    }
}

} // verus!
