//! The deterministic reduction of an event multiset, and what holds of it.

use vstd::multiset::Multiset;
use vstd::prelude::*;

use crate::candidates::{
    association_conflict_entry, association_entry, association_heads_entry, candidate_entry,
    confirmation_conflict_entry, project_association_conflicts, project_association_heads,
    project_associations, project_candidates, project_confirmation_conflicts, project_submission_conflicts,
    project_submissions, submission_conflict_entry, submission_entry,
};
use crate::collections::{SortedMap, SortedSet};
use crate::confirmed::{
    complain_of_confirmations, complain_of_references, confirmation_complaints, confirmation_entry,
    list_confirmations, project_confirmations, project_references, reference_complaints, reference_entry,
};
use crate::conflicts::{
    complain_of_conflicts, conflict_complaints, list_conflicts, reduce_resolutions, resolution_complaints,
    resolution_lineage_complaints,
};
use crate::contexts::{
    add_head_publications, add_revision_heads, defines_own, govern, governance, head_publications,
    identity_complaints, intent_head, project_publications, project_reviews, project_revisions,
    publication_entry, review_entry, revision_entry, revision_head_share, standing_complaints, valid_intent,
    Standing,
};
use crate::definitions::{definition, sound_definitions_are_unique, DefinitionKind, Definitions};
use crate::events::{
    ContextProjection, ContextProjectionView, ContextSpaceProjection, ContextSpaceProjectionView,
    DomainProjection, DomainProjectionView, IntentProjection, IntentProjectionView, ReducerDiagnostic,
    ReducerDiagnosticView, ReducerEvent, ReducerEventView, ReducerPayload, SemanticConflictProjection,
};
use crate::gather::{
    gathered, gathered_first, gathered_next, gathered_none, gathered_union, gathered_whole, holds_first,
    holds_next, holds_whole, keyed, one_value_each,
};
use crate::governance::live_is_revision;
use crate::ids::{ConflictId, ContextId, EventId, PublicationId, RevisionId, SpaceId};
use crate::lineage::{intent_of, live, revision_of};
use crate::model::{IntentRevision, IntentRevisionView};
use crate::order::set_listing;
use crate::ownership::founded;
use crate::pairs::{all_pairs, conflict_candidates};
use crate::statuses::{conflict_entry, eligibility, judge_eligibility, project_conflicts, Disputes};
use crate::value::Value;

verus! {

/// The projection of a Context of a Space.
pub open spec fn context_projection(
    events: Multiset<ReducerEventView>,
    space_id: SpaceId,
    context_id: ContextId,
) -> ContextProjectionView {
    ContextProjectionView {
        context_id,
        revisions: keyed(events, |event: ReducerEventView| revision_entry(events, space_id, context_id, event)),
        revision_heads: gathered(
            events,
            |event: ReducerEventView| revision_head_share(events, space_id, context_id, event),
        ),
        reviews: keyed(events, |event: ReducerEventView| review_entry(events, space_id, context_id, event)),
        publications: keyed(events, |event: ReducerEventView| publication_entry(events, space_id, context_id, event)),
        publication_heads: head_publications(events, space_id, context_id),
        governance: governance(events, space_id, context_id),
        auto_injection: eligibility(events, space_id, context_id),
    }
}

fn project_context(
    events: &Vec<ReducerEvent>,
    standing: &Standing,
    conflicts: &SortedMap<ConflictId, SemanticConflictProjection>,
    space_id: SpaceId,
    context_id: ContextId,
) -> (context: ContextProjection)
    requires
        standing.describe(events.deep_view()),
        conflicts.deep_view() == keyed(
            events.deep_view().to_multiset(),
            |event: ReducerEventView| conflict_entry(events.deep_view().to_multiset(), event),
        ),
    ensures
        context.deep_view() == context_projection(events.deep_view().to_multiset(), space_id, context_id),
{
    let ghost members = events.deep_view().to_multiset();
    let mut publication_heads: SortedSet<PublicationId> = SortedSet::new();
    add_head_publications(events, standing, space_id, context_id, &mut publication_heads);
    assert(publication_heads.deep_view() =~= head_publications(members, space_id, context_id));
    let mut revision_heads: SortedSet<RevisionId> = SortedSet::new();
    add_revision_heads(events, standing, space_id, context_id, &mut revision_heads);
    assert(revision_heads.deep_view() =~= gathered(
        members,
        |event: ReducerEventView| revision_head_share(members, space_id, context_id, event),
    ));
    let status = govern(events, standing, &publication_heads, space_id, context_id);
    let auto_injection = judge_eligibility(conflicts, Ghost(members), &status, space_id, context_id);
    ContextProjection {
        context_id,
        revisions: project_revisions(events, standing, &status, space_id, context_id),
        revision_heads,
        reviews: project_reviews(events, standing, space_id, context_id),
        publications: project_publications(events, standing, space_id, context_id),
        publication_heads,
        governance: status,
        auto_injection,
    }
}

/// The projection of the Context of a Space to which an event adds a live revision.
pub open spec fn context_entry(
    events: Multiset<ReducerEventView>,
    space_id: SpaceId,
    event: ReducerEventView,
) -> Option<(ContextId, ContextProjectionView)> {
    if live(events, event) && revision_of(event)->Some_0.0 == space_id {
        let context_id = revision_of(event)->Some_0.1;
        Some((context_id, context_projection(events, space_id, context_id)))
    } else {
        None
    }
}

/// A Context has one projection.
pub proof fn context_entries_agree(events: Multiset<ReducerEventView>, space_id: SpaceId)
    ensures
        one_value_each(events, |event: ReducerEventView| context_entry(events, space_id, event)),
{
}

/// Projects the Contexts of a Space, each once.
fn project_contexts(
    events: &Vec<ReducerEvent>,
    standing: &Standing,
    conflicts: &SortedMap<ConflictId, SemanticConflictProjection>,
    space_id: SpaceId,
) -> (map: SortedMap<ContextId, ContextProjection>)
    requires
        standing.describe(events.deep_view()),
        conflicts.deep_view() == keyed(
            events.deep_view().to_multiset(),
            |event: ReducerEventView| conflict_entry(events.deep_view().to_multiset(), event),
        ),
    ensures
        map.deep_view() == keyed(
            events.deep_view().to_multiset(),
            |event: ReducerEventView| context_entry(events.deep_view().to_multiset(), space_id, event),
        ),
{
    let ghost list = events.deep_view();
    let ghost members = list.to_multiset();
    let ghost entry = |event: ReducerEventView| context_entry(members, space_id, event);
    proof {
        context_entries_agree(members, space_id);
    }
    let mut map: SortedMap<ContextId, ContextProjection> = SortedMap::new();
    let mut index: usize = 0;
    while index < events.len()
        invariant
            index <= events@.len(),
            list == events.deep_view(),
            members == list.to_multiset(),
            entry == (|event: ReducerEventView| context_entry(members, space_id, event)),
            one_value_each(members, entry),
            standing.describe(events.deep_view()),
            conflicts.deep_view() == keyed(
                events.deep_view().to_multiset(),
                |event: ReducerEventView| conflict_entry(events.deep_view().to_multiset(), event),
            ),
            holds_first(map.deep_view(), list, entry, index as int),
        decreases events@.len() - index,
    {
        let ghost before = map.deep_view();
        let ghost event = list[index as int];
        assert(event == events@[index as int].deep_view());
        assert(standing.live@[index as int] == live(members, event));
        proof {
            holds_next(before, list, entry, index as int);
            if live(members, event) {
                live_is_revision(members, event);
            }
        }
        if standing.live[index] {
            if let ReducerPayload::ContextRevisionAdded { space_id: space, context_id, revision: _ } =
                &events[index].payload {
                if *space == space_id {
                    if map.contains_key(context_id) {
                        proof {
                            let i = choose|i: int|
                                0 <= i < index && crate::gather::gives_key(entry, #[trigger] list[i], *context_id);
                            assert(entry(list[i]) is Some);
                            assert(before[*context_id] == context_projection(members, space_id, *context_id));
                            assert(before.insert(*context_id, before[*context_id]) =~= before);
                        }
                    } else {
                        let context = project_context(events, standing, conflicts, space_id, *context_id);
                        map.insert(*context_id, context);
                    }
                }
            }
        }
        index = index + 1;
    }
    proof {
        holds_whole(map.deep_view(), list, entry);
    }
    map
}

/// The valid intent revision that an event adds to a Space.
pub open spec fn intent_entry(
    events: Multiset<ReducerEventView>,
    space_id: SpaceId,
    event: ReducerEventView,
) -> Option<(RevisionId, IntentRevisionView)> {
    if valid_intent(events, event) && intent_of(event)->Some_0.0 == space_id {
        let revision = intent_of(event)->Some_0.1;
        Some((revision.revision_id, revision))
    } else {
        None
    }
}

/// An intent revision identity holds one valid intent revision.
pub proof fn intent_entries_agree(events: Multiset<ReducerEventView>, space_id: SpaceId)
    ensures
        one_value_each(events, |event: ReducerEventView| intent_entry(events, space_id, event)),
{
    let entry = |event: ReducerEventView| intent_entry(events, space_id, event);
    assert forall|a: ReducerEventView, b: ReducerEventView| #[trigger]
        events.contains(a) && #[trigger] events.contains(b) && entry(a) is Some && entry(b) is Some && entry(
            a,
        )->Some_0.0 == entry(b)->Some_0.0 implies entry(a) == entry(b) by {
        defines_own(a);
        defines_own(b);
        sound_definitions_are_unique(
            events,
            a,
            b,
            definition(DefinitionKind::IntentRevision, intent_of(a)->Some_0.1.revision_id),
        );
    }
}

/// Projects the valid intent revisions of a Space.
fn project_intents(
    events: &Vec<ReducerEvent>,
    standing: &Standing,
    space_id: SpaceId,
) -> (map: SortedMap<RevisionId, IntentRevision>)
    requires
        standing.describe(events.deep_view()),
    ensures
        map.deep_view() == keyed(
            events.deep_view().to_multiset(),
            |event: ReducerEventView| intent_entry(events.deep_view().to_multiset(), space_id, event),
        ),
{
    let ghost list = events.deep_view();
    let ghost members = list.to_multiset();
    let ghost entry = |event: ReducerEventView| intent_entry(members, space_id, event);
    proof {
        intent_entries_agree(members, space_id);
    }
    let mut map: SortedMap<RevisionId, IntentRevision> = SortedMap::new();
    let mut index: usize = 0;
    while index < events.len()
        invariant
            index <= events@.len(),
            list == events.deep_view(),
            members == list.to_multiset(),
            entry == (|event: ReducerEventView| intent_entry(members, space_id, event)),
            one_value_each(members, entry),
            standing.describe(events.deep_view()),
            holds_first(map.deep_view(), list, entry, index as int),
        decreases events@.len() - index,
    {
        let found = project_intents_at(events, index, standing, space_id);
        proof {
            holds_next(map.deep_view(), list, entry, index as int);
        }
        if let Some((key, value)) = found {
            map.insert(key, value);
        }
        index = index + 1;
    }
    proof {
        holds_whole(map.deep_view(), list, entry);
    }
    map
}

fn project_intents_at(events: &Vec<ReducerEvent>, at: usize, standing: &Standing, space_id: SpaceId) -> (entry: Option<
    (RevisionId, IntentRevision),
>)
    requires
        at < events@.len(),
        standing.describe(events.deep_view()),
    ensures
        entry.deep_view() == intent_entry(
            events.deep_view().to_multiset(),
            space_id,
            events.deep_view()[at as int],
        ),
{
    let ghost list = events.deep_view();
    assert(list[at as int] == events@[at as int].deep_view());
    assert(standing.intents@[at as int] == valid_intent(list.to_multiset(), list[at as int]));
    if !standing.intents[at] {
        return None;
    }
    match &events[at].payload {
        ReducerPayload::SpaceCreated { space_id: space, intent_revision } | ReducerPayload::SpaceIntentRevisionAdded {
            space_id: space,
            intent_revision,
        } => {
            if *space == space_id {
                Some((intent_revision.revision_id, intent_revision.copied()))
            } else {
                None
            }
        },
        _ => None,
    }
}

/// The head intent revision that an event adds to a Space.
pub open spec fn intent_head_share(
    events: Multiset<ReducerEventView>,
    space_id: SpaceId,
    event: ReducerEventView,
) -> Set<RevisionId> {
    if intent_head(events, event) && intent_of(event)->Some_0.0 == space_id {
        Set::empty().insert(intent_of(event)->Some_0.1.revision_id)
    } else {
        Set::empty()
    }
}

/// Adds the head intent revisions of a Space.
fn add_intent_heads(
    events: &Vec<ReducerEvent>,
    standing: &Standing,
    space_id: SpaceId,
    heads: &mut SortedSet<RevisionId>,
)
    requires
        standing.describe(events.deep_view()),
    ensures
        final(heads).deep_view() == old(heads).deep_view().union(
            gathered(
                events.deep_view().to_multiset(),
                |event: ReducerEventView| intent_head_share(events.deep_view().to_multiset(), space_id, event),
            ),
        ),
{
    let ghost list = events.deep_view();
    let ghost members = list.to_multiset();
    let ghost share = |event: ReducerEventView| intent_head_share(members, space_id, event);
    let ghost start = heads.deep_view();
    proof {
        gathered_none(list, share);
        assert(start =~= start.union(Set::empty()));
    }
    let mut index: usize = 0;
    while index < events.len()
        invariant
            index <= events@.len(),
            list == events.deep_view(),
            members == list.to_multiset(),
            share == (|event: ReducerEventView| intent_head_share(members, space_id, event)),
            standing.describe(events.deep_view()),
            heads.deep_view() == start.union(gathered_first(list, share, index as int)),
        decreases events@.len() - index,
    {
        add_intent_heads_at(events, index, standing, space_id, heads);
        proof {
            gathered_next(list, share, index as int);
            assert(heads.deep_view() =~= start.union(gathered_first(list, share, index + 1)));
        }
        index = index + 1;
    }
    proof {
        gathered_whole(list, share);
    }
}

fn add_intent_heads_at(
    events: &Vec<ReducerEvent>,
    at: usize,
    standing: &Standing,
    space_id: SpaceId,
    heads: &mut SortedSet<RevisionId>,
)
    requires
        at < events@.len(),
        standing.describe(events.deep_view()),
    ensures
        final(heads).deep_view() == old(heads).deep_view().union(
            intent_head_share(events.deep_view().to_multiset(), space_id, events.deep_view()[at as int]),
        ),
{
    let ghost list = events.deep_view();
    let ghost start = heads.deep_view();
    assert(list[at as int] == events@[at as int].deep_view());
    assert(standing.intent_heads@[at as int] == intent_head(list.to_multiset(), list[at as int]));
    if standing.intent_heads[at] {
        match &events[at].payload {
            ReducerPayload::SpaceCreated { space_id: space, intent_revision }
            | ReducerPayload::SpaceIntentRevisionAdded { space_id: space, intent_revision } => {
                if *space == space_id {
                    heads.insert(intent_revision.revision_id);
                }
            },
            _ => {},
        }
    }
    assert(heads.deep_view() =~= start.union(intent_head_share(list.to_multiset(), space_id, list[at as int])));
}

/// The projection of a Space.
pub open spec fn space_projection(
    events: Multiset<ReducerEventView>,
    space_id: SpaceId,
) -> ContextSpaceProjectionView {
    ContextSpaceProjectionView {
        space_id,
        intent: IntentProjectionView {
            revisions: keyed(events, |event: ReducerEventView| intent_entry(events, space_id, event)),
            heads: gathered(events, |event: ReducerEventView| intent_head_share(events, space_id, event)),
        },
        contexts: keyed(events, |event: ReducerEventView| context_entry(events, space_id, event)),
    }
}

/// The projection of the Space that an event validly creates.
pub open spec fn space_entry(
    events: Multiset<ReducerEventView>,
    event: ReducerEventView,
) -> Option<(SpaceId, ContextSpaceProjectionView)> {
    match event.payload {
        crate::events::ReducerPayloadView::SpaceCreated { space_id, intent_revision: _ } => {
            if founded(events, event).contains(space_id) {
                Some((space_id, space_projection(events, space_id)))
            } else {
                None
            }
        },
        _ => None,
    }
}

/// A Space has one projection.
pub proof fn space_entries_agree(events: Multiset<ReducerEventView>)
    ensures
        one_value_each(events, |event: ReducerEventView| space_entry(events, event)),
{
}

/// Projects the valid Spaces.
fn project_spaces(
    events: &Vec<ReducerEvent>,
    standing: &Standing,
    defined: &Definitions,
    conflicts: &SortedMap<ConflictId, SemanticConflictProjection>,
) -> (map: SortedMap<SpaceId, ContextSpaceProjection>)
    requires
        standing.describe(events.deep_view()),
        defined.describe(events.deep_view()),
        conflicts.deep_view() == keyed(
            events.deep_view().to_multiset(),
            |event: ReducerEventView| conflict_entry(events.deep_view().to_multiset(), event),
        ),
    ensures
        map.deep_view() == keyed(
            events.deep_view().to_multiset(),
            |event: ReducerEventView| space_entry(events.deep_view().to_multiset(), event),
        ),
{
    let ghost list = events.deep_view();
    let ghost members = list.to_multiset();
    let ghost entry = |event: ReducerEventView| space_entry(members, event);
    proof {
        space_entries_agree(members);
    }
    let mut map: SortedMap<SpaceId, ContextSpaceProjection> = SortedMap::new();
    let mut index: usize = 0;
    while index < events.len()
        invariant
            index <= events@.len(),
            list == events.deep_view(),
            members == list.to_multiset(),
            entry == (|event: ReducerEventView| space_entry(members, event)),
            one_value_each(members, entry),
            standing.describe(events.deep_view()),
            defined.describe(events.deep_view()),
            conflicts.deep_view() == keyed(
                events.deep_view().to_multiset(),
                |event: ReducerEventView| conflict_entry(events.deep_view().to_multiset(), event),
            ),
            holds_first(map.deep_view(), list, entry, index as int),
        decreases events@.len() - index,
    {
        let found = project_spaces_at(events, index, standing, defined, conflicts);
        proof {
            holds_next(map.deep_view(), list, entry, index as int);
        }
        if let Some((key, value)) = found {
            map.insert(key, value);
        }
        index = index + 1;
    }
    proof {
        holds_whole(map.deep_view(), list, entry);
    }
    map
}

fn project_spaces_at(
    events: &Vec<ReducerEvent>,
    at: usize,
    standing: &Standing,
    defined: &Definitions,
    conflicts: &SortedMap<ConflictId, SemanticConflictProjection>,
) -> (entry: Option<(SpaceId, ContextSpaceProjection)>)
    requires
        at < events@.len(),
        standing.describe(events.deep_view()),
        defined.describe(events.deep_view()),
        conflicts.deep_view() == keyed(
            events.deep_view().to_multiset(),
            |event: ReducerEventView| conflict_entry(events.deep_view().to_multiset(), event),
        ),
    ensures
        entry.deep_view() == space_entry(events.deep_view().to_multiset(), events.deep_view()[at as int]),
{
    let ghost list = events.deep_view();
    let ghost members = list.to_multiset();
    assert(list[at as int] == events@[at as int].deep_view());
    assert(standing.facts.sound@[at as int] == crate::definitions::sound(members, list[at as int]));
    match &events[at].payload {
        ReducerPayload::SpaceCreated { space_id, intent_revision: _ } => {
            if !standing.facts.sound[at] {
                return None;
            }
            let creation = crate::definitions::Definition {
                kind: DefinitionKind::SpaceCreation,
                number: space_id.uuid(),
            };
            if defined.is_duplicated(Ghost(list), creation) {
                return None;
            }
            let space_id = *space_id;
            let mut heads: SortedSet<RevisionId> = SortedSet::new();
            add_intent_heads(events, standing, space_id, &mut heads);
            assert(heads.deep_view() =~= gathered(
                members,
                |event: ReducerEventView| intent_head_share(members, space_id, event),
            ));
            let intent = IntentProjection { revisions: project_intents(events, standing, space_id), heads };
            let contexts = project_contexts(events, standing, conflicts, space_id);
            Some((space_id, ContextSpaceProjection { space_id, intent, contexts }))
        },
        _ => None,
    }
}

/// What an event contributes to the diagnostics.
pub open spec fn complaints_of(
    events: Multiset<ReducerEventView>,
    event: ReducerEventView,
) -> Set<ReducerDiagnosticView> {
    identity_complaints(events, event).union(standing_complaints(events, event)).union(
        confirmation_complaints(events, event),
    ).union(reference_complaints(events, event)).union(conflict_complaints(events, event)).union(
        resolution_complaints(events, event),
    ).union(resolution_lineage_complaints(events, event))
}

/// All diagnostics.
pub open spec fn all_diagnostics(events: Multiset<ReducerEventView>) -> Set<ReducerDiagnosticView> {
    gathered(events, |event: ReducerEventView| complaints_of(events, event))
}

proof fn complaints_add_up(events: Multiset<ReducerEventView>)
    ensures
        all_diagnostics(events) == gathered(
            events,
            |event: ReducerEventView| identity_complaints(events, event),
        ).union(gathered(events, |event: ReducerEventView| standing_complaints(events, event))).union(
            gathered(events, |event: ReducerEventView| confirmation_complaints(events, event)),
        ).union(gathered(events, |event: ReducerEventView| reference_complaints(events, event))).union(
            gathered(events, |event: ReducerEventView| conflict_complaints(events, event)),
        ).union(gathered(events, |event: ReducerEventView| resolution_complaints(events, event))).union(
            gathered(events, |event: ReducerEventView| resolution_lineage_complaints(events, event)),
        ),
{
    let f1 = |event: ReducerEventView| identity_complaints(events, event);
    let f2 = |event: ReducerEventView| f1(event).union(standing_complaints(events, event));
    let f3 = |event: ReducerEventView| f2(event).union(confirmation_complaints(events, event));
    let f4 = |event: ReducerEventView| f3(event).union(reference_complaints(events, event));
    let f5 = |event: ReducerEventView| f4(event).union(conflict_complaints(events, event));
    let f6 = |event: ReducerEventView| f5(event).union(resolution_complaints(events, event));
    let f7 = |event: ReducerEventView| complaints_of(events, event);
    gathered_union(events, f1, |event: ReducerEventView| standing_complaints(events, event), f2);
    gathered_union(events, f2, |event: ReducerEventView| confirmation_complaints(events, event), f3);
    gathered_union(events, f3, |event: ReducerEventView| reference_complaints(events, event), f4);
    gathered_union(events, f4, |event: ReducerEventView| conflict_complaints(events, event), f5);
    gathered_union(events, f5, |event: ReducerEventView| resolution_complaints(events, event), f6);
    gathered_union(events, f6, |event: ReducerEventView| resolution_lineage_complaints(events, event), f7);
}

/// The events that some diagnostic concerns.
pub open spec fn concerned(diagnostics: Set<ReducerDiagnosticView>) -> Set<EventId> {
    Set::new(
        |event_id: EventId| exists|complaint: ReducerDiagnosticView| #[trigger]
            diagnostics.contains(complaint) && complaint.event_ids.contains(event_id),
    )
}

/// Whether one of some diagnostics concerns an event.
pub open spec fn explained(diagnostics: Seq<ReducerDiagnosticView>, event_id: EventId) -> bool {
    exists|i: int| 0 <= i < diagnostics.len() && (#[trigger] diagnostics[i]).event_ids.contains(event_id)
}

/// The result of reducing an event multiset.
pub open spec fn projection(events: Multiset<ReducerEventView>) -> DomainProjectionView {
    let spaces = keyed(events, |event: ReducerEventView| space_entry(events, event));
    DomainProjectionView {
        candidates: keyed(events, |event: ReducerEventView| candidate_entry(events, event)),
        candidate_submissions: keyed(events, |event: ReducerEventView| submission_entry(events, event)),
        candidate_submission_conflicts: keyed(
            events,
            |event: ReducerEventView| submission_conflict_entry(events, event),
        ),
        candidate_confirmations: keyed(events, |event: ReducerEventView| confirmation_entry(events, event)),
        candidate_confirmation_conflicts: keyed(
            events,
            |event: ReducerEventView| confirmation_conflict_entry(events, event),
        ),
        context_space_associations: keyed(events, |event: ReducerEventView| association_entry(events, event)),
        context_space_association_heads: keyed(
            events,
            |event: ReducerEventView| association_heads_entry(events, event),
        ),
        context_space_association_conflicts: keyed(
            events,
            |event: ReducerEventView| association_conflict_entry(events, event),
        ),
        spaces,
        engineering_references: keyed(events, |event: ReducerEventView| reference_entry(events, event)),
        semantic_conflict_candidates: set_listing::<crate::events::SemanticConflictCandidate>(all_pairs(spaces)),
        semantic_conflicts: keyed(events, |event: ReducerEventView| conflict_entry(events, event)),
        quarantined_event_ids: concerned(all_diagnostics(events)),
        diagnostics: set_listing::<ReducerDiagnostic>(all_diagnostics(events)),
    }
}

fn add_all(ids: &Vec<EventId>, found: &mut SortedSet<EventId>)
    ensures
        final(found).deep_view() == old(found).deep_view().union(ids.deep_view().to_set()),
{
    let ghost start = found.deep_view();
    let ghost model = ids.deep_view();
    let mut index: usize = 0;
    assert(start =~= start.union(model.take(0).to_set()));
    while index < ids.len()
        invariant
            index <= ids@.len(),
            model == ids.deep_view(),
            found.deep_view() == start.union(model.take(index as int).to_set()),
        decreases ids@.len() - index,
    {
        assert(model[index as int] == ids@[index as int]);
        found.insert(ids[index]);
        proof {
            crate::value::take_next(model, index as int);
            let before = model.take(index as int);
            let after = model.take(index + 1);
            assert forall|id: EventId| after.to_set().contains(id) == (before.to_set().contains(id) || id
                == model[index as int]) by {
                if after.contains(id) {
                    let i = choose|i: int| 0 <= i < after.len() && after[i] == id;
                    if i < index {
                        assert(before[i] == id);
                    }
                }
                if before.contains(id) {
                    let i = choose|i: int| 0 <= i < before.len() && before[i] == id;
                    assert(after[i] == id);
                }
                if id == model[index as int] {
                    assert(after[index as int] == id);
                }
            }
            assert(found.deep_view() =~= start.union(after.to_set()));
        }
        index = index + 1;
    }
    assert(model.take(index as int) =~= model);
}

/// The events that diagnostics concern.
fn collect_concerned(diagnostics: &Vec<ReducerDiagnostic>) -> (found: SortedSet<EventId>)
    ensures
        found.deep_view() == concerned(diagnostics.deep_view().to_set()),
{
    let ghost list = diagnostics.deep_view();
    let ghost share = |complaint: ReducerDiagnosticView| complaint.event_ids.to_set();
    let mut found: SortedSet<EventId> = SortedSet::new();
    let mut index: usize = 0;
    proof {
        gathered_none(list, share);
    }
    while index < diagnostics.len()
        invariant
            index <= diagnostics@.len(),
            list == diagnostics.deep_view(),
            share == (|complaint: ReducerDiagnosticView| complaint.event_ids.to_set()),
            found.deep_view() == gathered_first(list, share, index as int),
        decreases diagnostics@.len() - index,
    {
        assert(list[index as int] == diagnostics@[index as int].deep_view());
        add_all(&diagnostics[index].event_ids, &mut found);
        proof {
            gathered_next(list, share, index as int);
        }
        index = index + 1;
    }
    proof {
        let all = concerned(list.to_set());
        assert(list.len() == diagnostics@.len());
        assert forall|id: EventId| found.deep_view().contains(id) == all.contains(id) by {
            if found.deep_view().contains(id) {
                let i = choose|i: int| 0 <= i < list.len() && share(#[trigger] list[i]).contains(id);
                assert(list.to_set().contains(list[i]));
                assert(list[i].event_ids.contains(id));
            }
            if all.contains(id) {
                let complaint = choose|complaint: ReducerDiagnosticView| #[trigger]
                    list.to_set().contains(complaint) && complaint.event_ids.contains(id);
                let i = choose|i: int| 0 <= i < list.len() && list[i] == complaint;
                assert(share(list[i]).contains(id));
            }
        }
        assert(found.deep_view() =~= all);
    }
    found
}

/// Validates conflicts and resolutions.
fn reduce_disputes(
    events: &Vec<ReducerEvent>,
    standing: &Standing,
    complaints: &mut SortedSet<ReducerDiagnostic>,
) -> (disputes: Disputes)
    requires
        standing.describe(events.deep_view()),
    ensures
        disputes.describe(events.deep_view()),
        final(complaints).deep_view() == old(complaints).deep_view().union(
            gathered(
                events.deep_view().to_multiset(),
                |event: ReducerEventView| conflict_complaints(events.deep_view().to_multiset(), event),
            ),
        ).union(
            gathered(
                events.deep_view().to_multiset(),
                |event: ReducerEventView| resolution_complaints(events.deep_view().to_multiset(), event),
            ),
        ).union(
            gathered(
                events.deep_view().to_multiset(),
                |event: ReducerEventView| resolution_lineage_complaints(events.deep_view().to_multiset(), event),
            ),
        ),
{
    let conflicts = list_conflicts(events, standing);
    complain_of_conflicts(events, standing, &conflicts, complaints);
    let resolutions = reduce_resolutions(events, standing, &conflicts, complaints);
    Disputes { conflicts, resolutions: resolutions.valid, resolution_heads: resolutions.heads }
}

/// Reduces a complete in-memory event multiset without consulting storage or a clock.
///
/// Input order has no semantic effect. Duplicate definitions, ambiguous ownership,
/// dangling or cross-aggregate references, and cyclic nodes are quarantined as a set before
/// heads and lifecycle states are derived.
#[must_use]
pub fn reduce(events: &Vec<ReducerEvent>) -> (result: DomainProjection)
    ensures
        result.deep_view() == projection(events.deep_view().to_multiset()),
        forall|event_id: EventId| #[trigger]
            result.deep_view().quarantined_event_ids.contains(event_id) == explained(
                result.deep_view().diagnostics,
                event_id,
            ),
{
    let ghost members = events.deep_view().to_multiset();
    let defined = Definitions::of(events);
    let mut complaints: SortedSet<ReducerDiagnostic> = SortedSet::new();
    let standing = Standing::of(events, &defined, &mut complaints);
    let confirmations = list_confirmations(events, &standing, &defined);
    complain_of_confirmations(events, &standing, &confirmations, &mut complaints);
    complain_of_references(events, &standing, &defined, &mut complaints);
    let disputes = reduce_disputes(events, &standing, &mut complaints);
    proof {
        complaints_add_up(members);
        assert(complaints.deep_view() =~= all_diagnostics(members));
    }
    let semantic_conflicts = project_conflicts(events, &standing, &disputes);
    let spaces = project_spaces(events, &standing, &defined, &semantic_conflicts);
    let semantic_conflict_candidates = conflict_candidates(&spaces);
    let diagnostics = complaints.items().copied();
    let quarantined_event_ids = collect_concerned(&diagnostics);
    proof {
        let list = diagnostics.deep_view();
        let quarantined = quarantined_event_ids.deep_view();
        assert forall|event_id: EventId| #[trigger] quarantined.contains(event_id) == explained(list, event_id) by {
            if quarantined.contains(event_id) {
                let complaint = choose|complaint: ReducerDiagnosticView| #[trigger]
                    list.to_set().contains(complaint) && complaint.event_ids.contains(event_id);
                let i = choose|i: int| 0 <= i < list.len() && list[i] == complaint;
                assert(list[i].event_ids.contains(event_id));
            }
            if explained(list, event_id) {
                let i = choose|i: int| 0 <= i < list.len() && (#[trigger] list[i]).event_ids.contains(event_id);
                assert(list.to_set().contains(list[i]));
            }
        }
    }
    DomainProjection {
        candidates: project_candidates(events, &standing),
        candidate_submissions: project_submissions(events, &standing),
        candidate_submission_conflicts: project_submission_conflicts(events, &standing),
        candidate_confirmations: project_confirmations(events, &confirmations),
        candidate_confirmation_conflicts: project_confirmation_conflicts(events, &defined),
        context_space_associations: project_associations(events, &standing),
        context_space_association_heads: project_association_heads(events, &standing),
        context_space_association_conflicts: project_association_conflicts(events, &standing),
        spaces,
        engineering_references: project_references(events, &standing, &defined),
        semantic_conflict_candidates,
        semantic_conflicts,
        quarantined_event_ids,
        diagnostics,
    }
}

} // verus!
