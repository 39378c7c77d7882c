//! What stands after validation, and the projection of one Context.

use vstd::multiset::Multiset;
use vstd::prelude::*;

use crate::collections::{SortedMap, SortedSet};
use crate::dag::nodes_among;
use crate::definitions::{
    definition, defines, definitions, sound_definitions_are_unique, DefinitionKind, Definitions,
};
use crate::events::{
    ContextGovernanceStatus, ContextGovernanceStatusView, ReducerDiagnostic, ReducerDiagnosticView,
    ReducerEvent, ReducerEventView, ReducerPayload, ReviewSummary, RevisionLifecycle, RevisionProjection,
    RevisionProjectionView,
};
use crate::gather::{
    flags_are, gathered, gathered_first, gathered_next, gathered_none, gathered_same, gathered_whole,
    holds_first, holds_next, holds_whole, is_member, keyed, one_value_each, place_in,
};
use crate::governance::{
    association_complaints, association_head, association_lineage_complaints, association_of, candidate_of,
    complain_of_reviews, list_reviews, live_in, live_is_revision, publication_complaints, publication_head,
    publication_lineage_complaints, publication_of, reduce_associations, reduce_publications,
    review_complaints, review_of, revision_head, valid_association, valid_publication, valid_review,
    LiveRevisions,
};
use crate::ids::{ContextId, EventId, PublicationId, RevisionId, SpaceId};
use crate::lineage::{
    context_complaints, intent_complaints, intent_node, intent_nodes, intent_of, is_head_member,
    is_valid_member, lineage_complaint, list_intents, live, relation_complaints, revision_of, validate_dag,
    Lineage,
};
use crate::model::{Publication, PublicationAction, PublicationView, Review, ReviewVerdict, ReviewView};
use crate::ownership::{
    ambiguity_complaints, complain_of_ambiguity, complain_of_missing_spaces, missing_space_complaints, Facts,
};
use crate::value::Value;

verus! {

/// Whether an event adds a valid intent revision.
pub open spec fn valid_intent(events: Multiset<ReducerEventView>, event: ReducerEventView) -> bool {
    is_valid_member(intent_nodes(events), intent_node(events, event))
}

/// Whether an event adds an intent revision that no valid one succeeds.
pub open spec fn intent_head(events: Multiset<ReducerEventView>, event: ReducerEventView) -> bool {
    is_head_member(intent_nodes(events), intent_node(events, event))
}

/// What stands after validation, place by place.
pub struct Standing {
    pub facts: Facts,
    pub intents: Vec<bool>,
    pub intent_heads: Vec<bool>,
    pub live: Vec<bool>,
    pub revision_heads: Vec<bool>,
    pub reviews: Vec<bool>,
    pub publications: Vec<bool>,
    pub publication_heads: Vec<bool>,
    pub associations: Vec<bool>,
    pub association_heads: Vec<bool>,
}

impl Standing {
    /// Whether this is what stands of a list of events.
    pub open spec fn describe(self, events: Seq<ReducerEventView>) -> bool {
        let members = events.to_multiset();
        &&& self.facts.describe(events)
        &&& flags_are(self.intents@, events, |event: ReducerEventView| valid_intent(members, event))
        &&& flags_are(self.intent_heads@, events, |event: ReducerEventView| intent_head(members, event))
        &&& flags_are(self.live@, events, |event: ReducerEventView| live(members, event))
        &&& flags_are(self.revision_heads@, events, |event: ReducerEventView| revision_head(members, event))
        &&& flags_are(self.reviews@, events, |event: ReducerEventView| valid_review(members, event))
        &&& flags_are(self.publications@, events, |event: ReducerEventView| valid_publication(members, event))
        &&& flags_are(self.publication_heads@, events, |event: ReducerEventView| publication_head(members, event))
        &&& flags_are(self.associations@, events, |event: ReducerEventView| valid_association(members, event))
        &&& flags_are(self.association_heads@, events, |event: ReducerEventView| association_head(members, event))
    }
}

/// What an event contributes to the diagnostics by its definitions, owners and Spaces.
pub open spec fn identity_complaints(
    events: Multiset<ReducerEventView>,
    event: ReducerEventView,
) -> Set<ReducerDiagnosticView> {
    crate::definitions::duplicate_complaints(events, event).union(ambiguity_complaints(events, event)).union(
        missing_space_complaints(events, event),
    )
}

/// What an event contributes to the diagnostics by its lineage and references.
pub open spec fn standing_complaints(
    events: Multiset<ReducerEventView>,
    event: ReducerEventView,
) -> Set<ReducerDiagnosticView> {
    intent_complaints(events, event).union(context_complaints(events, event)).union(
        relation_complaints(events, event),
    ).union(review_complaints(events, event)).union(publication_complaints(events, event)).union(
        publication_lineage_complaints(events, event),
    ).union(association_complaints(events, event)).union(association_lineage_complaints(events, event))
}

proof fn identity_complaints_add_up(events: Multiset<ReducerEventView>)
    ensures
        gathered(events, |event: ReducerEventView| identity_complaints(events, event)) == gathered(
            events,
            |event: ReducerEventView| crate::definitions::duplicate_complaints(events, event),
        ).union(gathered(events, |event: ReducerEventView| ambiguity_complaints(events, event))).union(
            gathered(events, |event: ReducerEventView| missing_space_complaints(events, event)),
        ),
{
    let a = |event: ReducerEventView| crate::definitions::duplicate_complaints(events, event);
    let b = |event: ReducerEventView| ambiguity_complaints(events, event);
    let c = |event: ReducerEventView| missing_space_complaints(events, event);
    let ab = |event: ReducerEventView|
        crate::definitions::duplicate_complaints(events, event).union(ambiguity_complaints(events, event));
    crate::gather::gathered_union(events, a, b, ab);
    crate::gather::gathered_union(events, ab, c, |event: ReducerEventView| identity_complaints(events, event));
}

proof fn standing_complaints_add_up(events: Multiset<ReducerEventView>)
    ensures
        gathered(events, |event: ReducerEventView| standing_complaints(events, event)) == gathered(
            events,
            |event: ReducerEventView| intent_complaints(events, event),
        ).union(gathered(events, |event: ReducerEventView| context_complaints(events, event))).union(
            gathered(events, |event: ReducerEventView| relation_complaints(events, event)),
        ).union(gathered(events, |event: ReducerEventView| review_complaints(events, event))).union(
            gathered(events, |event: ReducerEventView| publication_complaints(events, event)),
        ).union(gathered(events, |event: ReducerEventView| publication_lineage_complaints(events, event))).union(
            gathered(events, |event: ReducerEventView| association_complaints(events, event)),
        ).union(gathered(events, |event: ReducerEventView| association_lineage_complaints(events, event))),
{
    let f1 = |event: ReducerEventView| intent_complaints(events, event);
    let f2 = |event: ReducerEventView| intent_complaints(events, event).union(context_complaints(events, event));
    let f3 = |event: ReducerEventView| f2(event).union(relation_complaints(events, event));
    let f4 = |event: ReducerEventView| f3(event).union(review_complaints(events, event));
    let f5 = |event: ReducerEventView| f4(event).union(publication_complaints(events, event));
    let f6 = |event: ReducerEventView| f5(event).union(publication_lineage_complaints(events, event));
    let f7 = |event: ReducerEventView| f6(event).union(association_complaints(events, event));
    let f8 = |event: ReducerEventView| standing_complaints(events, event);
    crate::gather::gathered_union(events, f1, |event: ReducerEventView| context_complaints(events, event), f2);
    crate::gather::gathered_union(events, f2, |event: ReducerEventView| relation_complaints(events, event), f3);
    crate::gather::gathered_union(events, f3, |event: ReducerEventView| review_complaints(events, event), f4);
    crate::gather::gathered_union(events, f4, |event: ReducerEventView| publication_complaints(events, event), f5);
    crate::gather::gathered_union(
        events,
        f5,
        |event: ReducerEventView| publication_lineage_complaints(events, event),
        f6,
    );
    crate::gather::gathered_union(events, f6, |event: ReducerEventView| association_complaints(events, event), f7);
    crate::gather::gathered_union(
        events,
        f7,
        |event: ReducerEventView| association_lineage_complaints(events, event),
        f8,
    );
}

impl Standing {
    /// Establishes the facts and adds what definitions, owners and Spaces contribute to the
    /// diagnostics.
    fn identify(events: &Vec<ReducerEvent>, defined: &Definitions, complaints: &mut SortedSet<ReducerDiagnostic>) -> (facts:
        Facts)
        requires
            defined.describe(events.deep_view()),
        ensures
            facts.describe(events.deep_view()),
            final(complaints).deep_view() == old(complaints).deep_view().union(
                gathered(
                    events.deep_view().to_multiset(),
                    |event: ReducerEventView| identity_complaints(events.deep_view().to_multiset(), event),
                ),
            ),
    {
        let ghost members = events.deep_view().to_multiset();
        let ghost start = complaints.deep_view();
        let facts = Facts::of(events, defined);
        defined.complain_of_duplicates(events, complaints);
        complain_of_ambiguity(events, complaints);
        complain_of_missing_spaces(events, &facts.spaces, complaints);
        proof {
            identity_complaints_add_up(members);
            assert(complaints.deep_view() =~= start.union(
                gathered(members, |event: ReducerEventView| identity_complaints(members, event)),
            ));
        }
        facts
    }

    /// Validates events, and adds what is refused to the diagnostics.
    pub fn of(events: &Vec<ReducerEvent>, defined: &Definitions, complaints: &mut SortedSet<ReducerDiagnostic>) -> (standing:
        Standing)
        requires
            defined.describe(events.deep_view()),
        ensures
            standing.describe(events.deep_view()),
            final(complaints).deep_view() == old(complaints).deep_view().union(
                gathered(
                    events.deep_view().to_multiset(),
                    |event: ReducerEventView| identity_complaints(events.deep_view().to_multiset(), event),
                ),
            ).union(
                gathered(
                    events.deep_view().to_multiset(),
                    |event: ReducerEventView| standing_complaints(events.deep_view().to_multiset(), event),
                ),
            ),
    {
        let ghost list = events.deep_view();
        let ghost members = list.to_multiset();
        let facts = Self::identify(events, defined, complaints);
        let ghost middle = complaints.deep_view();
        let nodes = list_intents(events, &facts);
        let intents = validate_dag(
            Ghost(list),
            Ghost(|event: ReducerEventView| intent_node(members, event)),
            &nodes,
            Lineage::Intent,
            complaints,
        );
        proof {
            gathered_same(
                members,
                |event: ReducerEventView|
                    lineage_complaint(
                        Lineage::Intent,
                        nodes_among(members, |event: ReducerEventView| intent_node(members, event)),
                        intent_node(members, event),
                    ),
                |event: ReducerEventView| intent_complaints(members, event),
            );
            assert forall|i: int| 0 <= i < list.len() implies #[trigger] intents.valid@[i] == valid_intent(
                members,
                list[i],
            ) by {}
            assert forall|i: int| 0 <= i < list.len() implies #[trigger] intents.heads@[i] == intent_head(
                members,
                list[i],
            ) by {}
        }
        let revisions = LiveRevisions::of(events, &facts, complaints);
        let reviews = list_reviews(events, &facts, &revisions.live);
        complain_of_reviews(events, &facts, &reviews, complaints);
        let publications = reduce_publications(events, &facts, &revisions.live, &reviews, complaints);
        let associations = reduce_associations(events, &facts, &revisions.live, complaints);
        proof {
            standing_complaints_add_up(members);
            assert(complaints.deep_view() =~= middle.union(
                gathered(members, |event: ReducerEventView| standing_complaints(members, event)),
            ));
        }
        Standing {
            facts,
            intents: intents.valid,
            intent_heads: intents.heads,
            live: revisions.live,
            revision_heads: revisions.heads,
            reviews,
            publications: publications.valid,
            publication_heads: publications.heads,
            associations: associations.valid,
            association_heads: associations.heads,
        }
    }
}

/// An event defines the identity of what it adds.
pub proof fn defines_own(event: ReducerEventView)
    ensures
        defines(event, definition(DefinitionKind::Event, event.event_id)),
        intent_of(event) is Some ==> defines(
            event,
            definition(DefinitionKind::IntentRevision, intent_of(event)->Some_0.1.revision_id),
        ),
        revision_of(event) is Some ==> defines(
            event,
            definition(DefinitionKind::ContextRevision, revision_of(event)->Some_0.2.revision_id),
        ),
        review_of(event) is Some ==> defines(
            event,
            definition(DefinitionKind::Review, review_of(event)->Some_0.2.review_id),
        ),
        publication_of(event) is Some ==> defines(
            event,
            definition(DefinitionKind::Publication, publication_of(event)->Some_0.2.publication_id),
        ),
        association_of(event) is Some ==> defines(
            event,
            definition(DefinitionKind::Association, association_of(event)->Some_0.association_id),
        ),
        candidate_of(event) is Some ==> defines(
            event,
            definition(DefinitionKind::Candidate, candidate_of(event)->Some_0.candidate_id),
        ) && defines(event, definition(DefinitionKind::Submission, candidate_of(event)->Some_0.submission_id)),
{
    let all = definitions(event);
    assert(all[0] == definition(DefinitionKind::Event, event.event_id));
    assert(all.contains(all[0]));
    assert(all.contains(all[1])) by {
        assert(all.len() > 1);
    }
    if candidate_of(event) is Some {
        assert(all.contains(all[2]));
    }
    if event.payload is SpaceCreated {
        assert(all.contains(all[2]));
    }
}

/// Whether an event adds a publication to a Context of a Space.
pub open spec fn publishes_in(event: ReducerEventView, space_id: SpaceId, context_id: ContextId) -> bool {
    publication_of(event) is Some && publication_of(event)->Some_0.0 == space_id && publication_of(event)->Some_0.1
        == context_id
}

/// Whether an event adds a publication head to a Context of a Space.
pub open spec fn heads_in(
    events: Multiset<ReducerEventView>,
    event: ReducerEventView,
    space_id: SpaceId,
    context_id: ContextId,
) -> bool {
    publication_head(events, event) && publishes_in(event, space_id, context_id)
}

/// The publication head that an event adds to a Context of a Space.
pub open spec fn head_share(
    events: Multiset<ReducerEventView>,
    space_id: SpaceId,
    context_id: ContextId,
    event: ReducerEventView,
) -> Set<PublicationId> {
    if heads_in(events, event, space_id, context_id) {
        Set::empty().insert(publication_of(event)->Some_0.2.publication_id)
    } else {
        Set::empty()
    }
}

/// The publication heads of a Context of a Space.
pub open spec fn head_publications(
    events: Multiset<ReducerEventView>,
    space_id: SpaceId,
    context_id: ContextId,
) -> Set<PublicationId> {
    gathered(events, |event: ReducerEventView| head_share(events, space_id, context_id, event))
}

/// Adds the publication heads of a Context of a Space.
pub fn add_head_publications(
    events: &Vec<ReducerEvent>,
    standing: &Standing,
    space_id: SpaceId,
    context_id: ContextId,
    heads: &mut SortedSet<PublicationId>,
)
    requires
        standing.describe(events.deep_view()),
    ensures
        final(heads).deep_view() == old(heads).deep_view().union(
            gathered(
                events.deep_view().to_multiset(),
                |event: ReducerEventView| head_share(events.deep_view().to_multiset(), space_id, context_id, event),
            ),
        ),
{
    let ghost list = events.deep_view();
    let ghost members = list.to_multiset();
    let ghost share = |event: ReducerEventView| head_share(members, space_id, context_id, event);
    let ghost start = heads.deep_view();
    proof {
        gathered_none(list, share);
        assert(start =~= start.union(Set::empty()));
    }
    let mut index: usize = 0;
    while index < events.len()
        invariant
            index <= events@.len(),
            list == events.deep_view(),
            members == list.to_multiset(),
            share == (|event: ReducerEventView| head_share(members, space_id, context_id, event)),
            standing.describe(events.deep_view()),
            heads.deep_view() == start.union(gathered_first(list, share, index as int)),
        decreases events@.len() - index,
    {
        add_head_publications_at(events, index, standing, space_id, context_id, heads);
        proof {
            gathered_next(list, share, index as int);
            assert(heads.deep_view() =~= start.union(gathered_first(list, share, index + 1)));
        }
        index = index + 1;
    }
    proof {
        gathered_whole(list, share);
    }
}

fn add_head_publications_at(
    events: &Vec<ReducerEvent>,
    at: usize,
    standing: &Standing,
    space_id: SpaceId,
    context_id: ContextId,
    heads: &mut SortedSet<PublicationId>,
)
    requires
        at < events@.len(),
        standing.describe(events.deep_view()),
    ensures
        final(heads).deep_view() == old(heads).deep_view().union(
            head_share(events.deep_view().to_multiset(), space_id, context_id, events.deep_view()[at as int]),
        ),
{
    let ghost list = events.deep_view();
    let ghost start = heads.deep_view();
    assert(list[at as int] == events@[at as int].deep_view());
    assert(standing.publication_heads@[at as int] == publication_head(list.to_multiset(), list[at as int]));
    if let ReducerPayload::ContextPublicationChanged { space_id: space, context_id: context, publication } =
        &events[at].payload {
        if standing.publication_heads[at] && *space == space_id && *context == context_id {
            heads.insert(publication.publication_id);
        }
    }
    assert(heads.deep_view() =~= start.union(
        head_share(list.to_multiset(), space_id, context_id, list[at as int]),
    ));
}

/// The publication head of a Context of a Space that has one.
pub open spec fn governing_event(
    events: Multiset<ReducerEventView>,
    space_id: SpaceId,
    context_id: ContextId,
) -> ReducerEventView {
    choose|event: ReducerEventView| #[trigger]
        events.contains(event) && heads_in(events, event, space_id, context_id)
}

/// The governance state of a Context of a Space: it follows the publication heads, and selects no
/// winner among several.
pub open spec fn governance(
    events: Multiset<ReducerEventView>,
    space_id: SpaceId,
    context_id: ContextId,
) -> ContextGovernanceStatusView {
    let heads = head_publications(events, space_id, context_id);
    if heads.len() == 0 {
        ContextGovernanceStatusView::Unpublished
    } else if heads.len() == 1 {
        let publication = publication_of(governing_event(events, space_id, context_id))->Some_0.2;
        match publication.action {
            PublicationAction::Publish => ContextGovernanceStatusView::Accepted {
                publication_id: publication.publication_id,
                revision_id: publication.revision_id,
            },
            PublicationAction::Withdraw => ContextGovernanceStatusView::Deprecated {
                publication_id: publication.publication_id,
                revision_id: publication.revision_id,
            },
        }
    } else {
        ContextGovernanceStatusView::GovernanceConflict { publication_ids: heads }
    }
}

/// Where a single publication head governs, it is the one that was chosen.
pub proof fn governing_is_unique(
    events: Multiset<ReducerEventView>,
    space_id: SpaceId,
    context_id: ContextId,
    event: ReducerEventView,
)
    requires
        head_publications(events, space_id, context_id).finite(),
        head_publications(events, space_id, context_id).len() == 1,
        events.contains(event),
        heads_in(events, event, space_id, context_id),
    ensures
        governing_event(events, space_id, context_id) == event,
{
    let heads = head_publications(events, space_id, context_id);
    let other = governing_event(events, space_id, context_id);
    assert(events.contains(other) && heads_in(events, other, space_id, context_id));
    let left = publication_of(event)->Some_0.2.publication_id;
    let right = publication_of(other)->Some_0.2.publication_id;
    assert(heads.contains(left)) by {
        assert(head_share(events, space_id, context_id, event).contains(left));
    }
    assert(heads.contains(right)) by {
        assert(head_share(events, space_id, context_id, other).contains(right));
    }
    assert(left == right) by {
        if left != right {
            assert(heads.remove(left).contains(right));
            assert(heads.remove(left).len() == 0);
        }
    }
    defines_own(event);
    defines_own(other);
    sound_definitions_are_unique(events, event, other, definition(DefinitionKind::Publication, left));
}

/// Finds a publication head of a Context of a Space.
fn find_head(events: &Vec<ReducerEvent>, standing: &Standing, space_id: SpaceId, context_id: ContextId) -> (found:
    Option<usize>)
    requires
        standing.describe(events.deep_view()),
    ensures
        match found {
            Some(at) => at < events@.len() && heads_in(
                events.deep_view().to_multiset(),
                events.deep_view()[at as int],
                space_id,
                context_id,
            ),
            None => head_publications(events.deep_view().to_multiset(), space_id, context_id) == Set::<
                PublicationId,
            >::empty(),
        },
{
    let ghost list = events.deep_view();
    let ghost members = list.to_multiset();
    let mut index: usize = 0;
    while index < events.len()
        invariant
            index <= events@.len(),
            list == events.deep_view(),
            members == list.to_multiset(),
            standing.describe(list),
            forall|i: int| 0 <= i < index ==> !heads_in(members, #[trigger] list[i], space_id, context_id),
        decreases events@.len() - index,
    {
        assert(list[index as int] == events@[index as int].deep_view());
        assert(standing.publication_heads@[index as int] == publication_head(members, list[index as int]));
        if let ReducerPayload::ContextPublicationChanged { space_id: space, context_id: context, publication: _ } =
            &events[index].payload {
            if standing.publication_heads[index] && *space == space_id && *context == context_id {
                return Some(index);
            }
        }
        index = index + 1;
    }
    proof {
        let heads = head_publications(members, space_id, context_id);
        assert forall|id: PublicationId| !heads.contains(id) by {
            if heads.contains(id) {
                let event = choose|event: ReducerEventView| #[trigger]
                    members.contains(event) && head_share(members, space_id, context_id, event).contains(id);
                let i = place_in(list, event);
                assert(heads_in(members, list[i], space_id, context_id));
            }
        }
        assert(heads =~= Set::empty());
    }
    None
}

/// The governance state of a Context of a Space.
pub fn govern(
    events: &Vec<ReducerEvent>,
    standing: &Standing,
    heads: &SortedSet<PublicationId>,
    space_id: SpaceId,
    context_id: ContextId,
) -> (status: ContextGovernanceStatus)
    requires
        standing.describe(events.deep_view()),
        heads.deep_view() == head_publications(events.deep_view().to_multiset(), space_id, context_id),
    ensures
        status.deep_view() == governance(events.deep_view().to_multiset(), space_id, context_id),
{
    let ghost list = events.deep_view();
    let ghost members = list.to_multiset();
    let count = heads.len();
    match find_head(events, standing, space_id, context_id) {
        None => ContextGovernanceStatus::Unpublished,
        Some(at) => {
            assert(list[at as int] == events@[at as int].deep_view());
            proof {
                is_member(list, at as int);
                let id = publication_of(list[at as int])->Some_0.2.publication_id;
                assert(head_share(members, space_id, context_id, list[at as int]).contains(id));
                assert(heads.deep_view().contains(id));
            }
            if count == 1 {
                proof {
                    governing_is_unique(members, space_id, context_id, list[at as int]);
                }
                if let ReducerPayload::ContextPublicationChanged { space_id: _, context_id: _, publication } =
                    &events[at].payload {
                    return match publication.action {
                        PublicationAction::Publish => ContextGovernanceStatus::Accepted {
                            publication_id: publication.publication_id,
                            revision_id: publication.revision_id,
                        },
                        PublicationAction::Withdraw => ContextGovernanceStatus::Deprecated {
                            publication_id: publication.publication_id,
                            revision_id: publication.revision_id,
                        },
                    };
                }
            }
            ContextGovernanceStatus::GovernanceConflict { publication_ids: heads.copied() }
        },
    }
}

/// Whether an event adds a valid publication to a Context of a Space.
pub open spec fn published_in(
    events: Multiset<ReducerEventView>,
    event: ReducerEventView,
    space_id: SpaceId,
    context_id: ContextId,
) -> bool {
    valid_publication(events, event) && publishes_in(event, space_id, context_id)
}

/// Whether a publication replaces another one of a different revision.
pub open spec fn replaces(later: PublicationView, earlier: PublicationView) -> bool {
    later.action == PublicationAction::Publish && later.previous_publication_ids.contains(earlier.publication_id)
        && later.revision_id != earlier.revision_id
}

/// Whether an event adds a valid publication that another one replaces.
pub open spec fn replaced_by(
    events: Multiset<ReducerEventView>,
    earlier: ReducerEventView,
    later: ReducerEventView,
    space_id: SpaceId,
    context_id: ContextId,
    revision_id: RevisionId,
) -> bool {
    &&& published_in(events, earlier, space_id, context_id)
    &&& published_in(events, later, space_id, context_id)
    &&& publication_of(earlier)->Some_0.2.revision_id == revision_id
    &&& replaces(publication_of(later)->Some_0.2, publication_of(earlier)->Some_0.2)
}

/// Whether a revision was published and then replaced by another.
pub open spec fn superseded(
    events: Multiset<ReducerEventView>,
    space_id: SpaceId,
    context_id: ContextId,
    revision_id: RevisionId,
) -> bool {
    exists|earlier: ReducerEventView, later: ReducerEventView| #[trigger]
        events.contains(earlier) && #[trigger] events.contains(later) && replaced_by(
            events,
            earlier,
            later,
            space_id,
            context_id,
            revision_id,
        )
}

fn is_replaced_by(
    events: &Vec<ReducerEvent>,
    standing: &Standing,
    earlier: usize,
    later: usize,
    space_id: SpaceId,
    context_id: ContextId,
    revision_id: RevisionId,
) -> (found: bool)
    requires
        earlier < events@.len(),
        later < events@.len(),
        standing.describe(events.deep_view()),
    ensures
        found == replaced_by(
            events.deep_view().to_multiset(),
            events.deep_view()[earlier as int],
            events.deep_view()[later as int],
            space_id,
            context_id,
            revision_id,
        ),
{
    let ghost list = events.deep_view();
    let ghost members = list.to_multiset();
    assert(list[earlier as int] == events@[earlier as int].deep_view());
    assert(list[later as int] == events@[later as int].deep_view());
    assert(standing.publications@[earlier as int] == valid_publication(members, list[earlier as int]));
    assert(standing.publications@[later as int] == valid_publication(members, list[later as int]));
    if !standing.publications[earlier] || !standing.publications[later] {
        return false;
    }
    match (&events[earlier].payload, &events[later].payload) {
        (
            ReducerPayload::ContextPublicationChanged {
                space_id: earlier_space,
                context_id: earlier_context,
                publication: before,
            },
            ReducerPayload::ContextPublicationChanged {
                space_id: later_space,
                context_id: later_context,
                publication: after,
            },
        ) => *earlier_space == space_id && *earlier_context == context_id && *later_space == space_id
            && *later_context == context_id && before.revision_id == revision_id && after.action
            == PublicationAction::Publish && crate::checks::is_among(
            &after.previous_publication_ids,
            &before.publication_id,
        ) && after.revision_id != before.revision_id,
        _ => false,
    }
}

/// Whether a revision was published and then replaced by another.
pub fn is_superseded(
    events: &Vec<ReducerEvent>,
    standing: &Standing,
    space_id: SpaceId,
    context_id: ContextId,
    revision_id: RevisionId,
) -> (found: bool)
    requires
        standing.describe(events.deep_view()),
    ensures
        found == superseded(events.deep_view().to_multiset(), space_id, context_id, revision_id),
{
    let ghost list = events.deep_view();
    let ghost members = list.to_multiset();
    let mut earlier: usize = 0;
    while earlier < events.len()
        invariant
            earlier <= events@.len(),
            list == events.deep_view(),
            members == list.to_multiset(),
            standing.describe(list),
            forall|i: int, j: int|
                0 <= i < earlier && 0 <= j < list.len() ==> !replaced_by(
                    members,
                    #[trigger] list[i],
                    #[trigger] list[j],
                    space_id,
                    context_id,
                    revision_id,
                ),
        decreases events@.len() - earlier,
    {
        assert(standing.publications@[earlier as int] == valid_publication(members, list[earlier as int]));
        let mut later: usize = if standing.publications[earlier] {
            0
        } else {
            events.len()
        };
        while later < events.len()
            invariant
                earlier < events@.len(),
                later <= events@.len(),
                list == events.deep_view(),
                members == list.to_multiset(),
                standing.describe(list),
                forall|j: int|
                    0 <= j < later ==> !replaced_by(
                        members,
                        list[earlier as int],
                        #[trigger] list[j],
                        space_id,
                        context_id,
                        revision_id,
                    ),
            decreases events@.len() - later,
        {
            if is_replaced_by(events, standing, earlier, later, space_id, context_id, revision_id) {
                proof {
                    is_member(list, earlier as int);
                    is_member(list, later as int);
                }
                return true;
            }
            later = later + 1;
        }
        earlier = earlier + 1;
    }
    proof {
        if superseded(members, space_id, context_id, revision_id) {
            let (a, b) = choose|a: ReducerEventView, b: ReducerEventView| #[trigger]
                members.contains(a) && #[trigger] members.contains(b) && replaced_by(
                    members,
                    a,
                    b,
                    space_id,
                    context_id,
                    revision_id,
                );
            let i = place_in(list, a);
            let j = place_in(list, b);
            assert(replaced_by(members, list[i], list[j], space_id, context_id, revision_id));
        }
    }
    false
}

/// Whether an event adds a valid review of a revision of a Context of a Space.
pub open spec fn reviews_revision(
    events: Multiset<ReducerEventView>,
    event: ReducerEventView,
    space_id: SpaceId,
    context_id: ContextId,
    revision_id: RevisionId,
) -> bool {
    valid_review(events, event) && review_of(event)->Some_0.0 == space_id && review_of(event)->Some_0.1 == context_id
        && review_of(event)->Some_0.2.revision_id == revision_id
}

/// Whether an event adds a valid review with a verdict.
pub open spec fn gives_verdict(
    events: Multiset<ReducerEventView>,
    event: ReducerEventView,
    space_id: SpaceId,
    context_id: ContextId,
    revision_id: RevisionId,
    verdict: ReviewVerdict,
) -> bool {
    reviews_revision(events, event, space_id, context_id, revision_id)
        && review_of(event)->Some_0.2.verdict == verdict
}

/// Whether a revision has a valid review with a verdict.
pub open spec fn has_verdict(
    events: Multiset<ReducerEventView>,
    space_id: SpaceId,
    context_id: ContextId,
    revision_id: RevisionId,
    verdict: ReviewVerdict,
) -> bool {
    exists|event: ReducerEventView| #[trigger]
        events.contains(event) && gives_verdict(events, event, space_id, context_id, revision_id, verdict)
}

/// What the reviews of a revision say together.
pub open spec fn review_summary(
    events: Multiset<ReducerEventView>,
    space_id: SpaceId,
    context_id: ContextId,
    revision_id: RevisionId,
) -> ReviewSummary {
    let approved = has_verdict(events, space_id, context_id, revision_id, ReviewVerdict::Approve);
    let rejected = has_verdict(events, space_id, context_id, revision_id, ReviewVerdict::Reject);
    if approved && rejected {
        ReviewSummary::Mixed
    } else if approved {
        ReviewSummary::Approved
    } else if rejected {
        ReviewSummary::Rejected
    } else {
        ReviewSummary::Unreviewed
    }
}

/// Whether a revision has a valid review with a verdict.
fn is_judged(
    events: &Vec<ReducerEvent>,
    standing: &Standing,
    space_id: SpaceId,
    context_id: ContextId,
    revision_id: RevisionId,
    verdict: ReviewVerdict,
) -> (found: bool)
    requires
        standing.describe(events.deep_view()),
    ensures
        found == exists|event: ReducerEventView| #[trigger] events.deep_view().to_multiset().contains(event)
            && gives_verdict(events.deep_view().to_multiset(), event, space_id, context_id, revision_id, verdict),
{
    let ghost list = events.deep_view();
    let ghost members = list.to_multiset();
    let mut index: usize = 0;
    while index < events.len()
        invariant
            index <= events@.len(),
            list == events.deep_view(),
            members == list.to_multiset(),
            standing.describe(events.deep_view()),
            forall|i: int| 0 <= i < index ==> !(
                gives_verdict(members, #[trigger] list[i], space_id, context_id, revision_id, verdict)
            ),
        decreases events@.len() - index,
    {
        if is_judged_at(events, index, standing, space_id, context_id, revision_id, verdict) {
            proof {
                is_member(list, index as int);
            }
            return true;
        }
        index = index + 1;
    }
    proof {
        if exists|event: ReducerEventView| #[trigger] members.contains(event)
            && gives_verdict(members, event, space_id, context_id, revision_id, verdict) {
            let event = choose|event: ReducerEventView| #[trigger] members.contains(event)
                && gives_verdict(members, event, space_id, context_id, revision_id, verdict);
            let at = place_in(list, event);
        }
    }
    false
}

fn is_judged_at(
    events: &Vec<ReducerEvent>,
    at: usize,
    standing: &Standing,
    space_id: SpaceId,
    context_id: ContextId,
    revision_id: RevisionId,
    verdict: ReviewVerdict,
) -> (found: bool)
    requires
        at < events@.len(),
        standing.describe(events.deep_view()),
    ensures
        found == gives_verdict(
            events.deep_view().to_multiset(),
            events.deep_view()[at as int],
            space_id,
            context_id,
            revision_id,
            verdict,
        ),
{
    let ghost list = events.deep_view();
    assert(list[at as int] == events@[at as int].deep_view());
    assert(standing.reviews@[at as int] == valid_review(list.to_multiset(), list[at as int]));
    match &events[at].payload {
        ReducerPayload::ContextReviewed { space_id: space, context_id: context, review } => {
            standing.reviews[at] && *space == space_id && *context == context_id && review.revision_id == revision_id
                && review.verdict == verdict
        },
        _ => false,
    }
}

fn summarize(
    events: &Vec<ReducerEvent>,
    standing: &Standing,
    space_id: SpaceId,
    context_id: ContextId,
    revision_id: RevisionId,
) -> (summary: ReviewSummary)
    requires
        standing.describe(events.deep_view()),
    ensures
        summary == review_summary(events.deep_view().to_multiset(), space_id, context_id, revision_id),
{
    let ghost members = events.deep_view().to_multiset();
    let approved = is_judged(events, standing, space_id, context_id, revision_id, ReviewVerdict::Approve);
    assert(approved == has_verdict(members, space_id, context_id, revision_id, ReviewVerdict::Approve));
    let rejected = is_judged(events, standing, space_id, context_id, revision_id, ReviewVerdict::Reject);
    assert(rejected == has_verdict(members, space_id, context_id, revision_id, ReviewVerdict::Reject));
    match (approved, rejected) {
        (false, false) => ReviewSummary::Unreviewed,
        (true, false) => ReviewSummary::Approved,
        (false, true) => ReviewSummary::Rejected,
        (true, true) => ReviewSummary::Mixed,
    }
}

/// The review event of a revision.
pub open spec fn review_share(
    events: Multiset<ReducerEventView>,
    space_id: SpaceId,
    context_id: ContextId,
    revision_id: RevisionId,
    event: ReducerEventView,
) -> Set<EventId> {
    if reviews_revision(events, event, space_id, context_id, revision_id) {
        Set::empty().insert(event.event_id)
    } else {
        Set::empty()
    }
}

/// The review events of a revision.
pub open spec fn review_events(
    events: Multiset<ReducerEventView>,
    space_id: SpaceId,
    context_id: ContextId,
    revision_id: RevisionId,
) -> Set<EventId> {
    gathered(events, |event: ReducerEventView| review_share(events, space_id, context_id, revision_id, event))
}

/// Adds the review events of a revision.
fn add_review_events(
    events: &Vec<ReducerEvent>,
    standing: &Standing,
    space_id: SpaceId,
    context_id: ContextId,
    revision_id: RevisionId,
    ids: &mut SortedSet<EventId>,
)
    requires
        standing.describe(events.deep_view()),
    ensures
        final(ids).deep_view() == old(ids).deep_view().union(
            gathered(
                events.deep_view().to_multiset(),
                |event: ReducerEventView| review_share(
                    events.deep_view().to_multiset(),
                    space_id,
                    context_id,
                    revision_id,
                    event,
                ),
            ),
        ),
{
    let ghost list = events.deep_view();
    let ghost members = list.to_multiset();
    let ghost share = |event: ReducerEventView| review_share(members, space_id, context_id, revision_id, event);
    let ghost start = ids.deep_view();
    proof {
        gathered_none(list, share);
        assert(start =~= start.union(Set::empty()));
    }
    let mut index: usize = 0;
    while index < events.len()
        invariant
            index <= events@.len(),
            list == events.deep_view(),
            members == list.to_multiset(),
            share == (|event: ReducerEventView| review_share(members, space_id, context_id, revision_id, event)),
            standing.describe(events.deep_view()),
            ids.deep_view() == start.union(gathered_first(list, share, index as int)),
        decreases events@.len() - index,
    {
        add_review_events_at(events, index, standing, space_id, context_id, revision_id, ids);
        proof {
            gathered_next(list, share, index as int);
            assert(ids.deep_view() =~= start.union(gathered_first(list, share, index + 1)));
        }
        index = index + 1;
    }
    proof {
        gathered_whole(list, share);
    }
}

fn add_review_events_at(
    events: &Vec<ReducerEvent>,
    at: usize,
    standing: &Standing,
    space_id: SpaceId,
    context_id: ContextId,
    revision_id: RevisionId,
    ids: &mut SortedSet<EventId>,
)
    requires
        at < events@.len(),
        standing.describe(events.deep_view()),
    ensures
        final(ids).deep_view() == old(ids).deep_view().union(
            review_share(
                events.deep_view().to_multiset(),
                space_id,
                context_id,
                revision_id,
                events.deep_view()[at as int],
            ),
        ),
{
    let ghost list = events.deep_view();
    let ghost start = ids.deep_view();
    assert(list[at as int] == events@[at as int].deep_view());
    assert(standing.reviews@[at as int] == valid_review(list.to_multiset(), list[at as int]));
    if let ReducerPayload::ContextReviewed { space_id: space, context_id: context, review } = &events[at].payload {
        if standing.reviews[at] && *space == space_id && *context == context_id && review.revision_id == revision_id {
            ids.insert(events[at].event_id);
        }
    }
    assert(ids.deep_view() =~= start.union(
        review_share(list.to_multiset(), space_id, context_id, revision_id, list[at as int]),
    ));
}

/// The lifecycle of a revision, as governance and replaced publications tell it.
pub open spec fn lifecycle(
    status: ContextGovernanceStatusView,
    replaced: bool,
    revision_id: RevisionId,
) -> RevisionLifecycle {
    match status {
        ContextGovernanceStatusView::Accepted { publication_id: _, revision_id: current } if current
            == revision_id => RevisionLifecycle::Accepted,
        ContextGovernanceStatusView::Deprecated { publication_id: _, revision_id: current } if current
            == revision_id => RevisionLifecycle::Deprecated,
        _ => {
            if replaced {
                RevisionLifecycle::Superseded
            } else {
                RevisionLifecycle::Candidate
            }
        },
    }
}

fn lifecycle_of(
    status: &ContextGovernanceStatus,
    replaced: bool,
    revision_id: RevisionId,
) -> (result: RevisionLifecycle)
    ensures
        result == lifecycle(status.deep_view(), replaced, revision_id),
{
    match status {
        ContextGovernanceStatus::Accepted { publication_id: _, revision_id: current } if *current == revision_id => {
            RevisionLifecycle::Accepted
        },
        ContextGovernanceStatus::Deprecated { publication_id: _, revision_id: current } if *current
            == revision_id => { RevisionLifecycle::Deprecated },
        _ => {
            if replaced {
                RevisionLifecycle::Superseded
            } else {
                RevisionLifecycle::Candidate
            }
        },
    }
}

/// The projection of the live revision that an event adds to a Context of a Space.
pub open spec fn revision_entry(
    events: Multiset<ReducerEventView>,
    space_id: SpaceId,
    context_id: ContextId,
    event: ReducerEventView,
) -> Option<(RevisionId, RevisionProjectionView)> {
    if live_in(events, event, space_id, context_id) {
        let revision = revision_of(event)->Some_0.2;
        let revision_id = revision.revision_id;
        Some(
            (
                revision_id,
                RevisionProjectionView {
                    revision,
                    is_head: revision_head(events, event),
                    review_summary: review_summary(events, space_id, context_id, revision_id),
                    review_event_ids: review_events(events, space_id, context_id, revision_id),
                    lifecycle: lifecycle(
                        governance(events, space_id, context_id),
                        superseded(events, space_id, context_id, revision_id),
                        revision_id,
                    ),
                },
            ),
        )
    } else {
        None
    }
}

/// A live revision has one projection.
pub proof fn revision_entries_agree(events: Multiset<ReducerEventView>, space_id: SpaceId, context_id: ContextId)
    ensures
        one_value_each(events, |event: ReducerEventView| revision_entry(events, space_id, context_id, event)),
{
    let entry = |event: ReducerEventView| revision_entry(events, space_id, context_id, event);
    assert forall|a: ReducerEventView, b: ReducerEventView| #[trigger]
        events.contains(a) && #[trigger] events.contains(b) && entry(a) is Some && entry(b) is Some && entry(
            a,
        )->Some_0.0 == entry(b)->Some_0.0 implies entry(a) == entry(b) by {
        defines_own(a);
        defines_own(b);
        sound_definitions_are_unique(
            events,
            a,
            b,
            definition(DefinitionKind::ContextRevision, revision_of(a)->Some_0.2.revision_id),
        );
    }
}

/// Projects the live revisions of a Context of a Space.
pub fn project_revisions(
    events: &Vec<ReducerEvent>,
    standing: &Standing,
    status: &ContextGovernanceStatus,
    space_id: SpaceId,
    context_id: ContextId,
) -> (map: SortedMap<RevisionId, RevisionProjection>)
    requires
        standing.describe(events.deep_view()),
        status.deep_view() == governance(events.deep_view().to_multiset(), space_id, context_id),
    ensures
        map.deep_view() == keyed(
            events.deep_view().to_multiset(),
            |event: ReducerEventView| revision_entry(events.deep_view().to_multiset(), space_id, context_id, event),
        ),
{
    let ghost list = events.deep_view();
    let ghost members = list.to_multiset();
    let ghost entry = |event: ReducerEventView| revision_entry(members, space_id, context_id, event);
    proof {
        revision_entries_agree(members, space_id, context_id);
    }
    let mut map: SortedMap<RevisionId, RevisionProjection> = SortedMap::new();
    let mut index: usize = 0;
    while index < events.len()
        invariant
            index <= events@.len(),
            list == events.deep_view(),
            members == list.to_multiset(),
            entry == (|event: ReducerEventView| revision_entry(members, space_id, context_id, event)),
            one_value_each(members, entry),
            standing.describe(events.deep_view()),
            status.deep_view() == governance(events.deep_view().to_multiset(), space_id, context_id),
            holds_first(map.deep_view(), list, entry, index as int),
        decreases events@.len() - index,
    {
        let found = project_revisions_at(events, index, standing, status, space_id, context_id);
        proof {
            holds_next(map.deep_view(), list, entry, index as int);
        }
        if let Some((key, value)) = found {
            map.insert(key, value);
        }
        index = index + 1;
    }
    proof {
        holds_whole(map.deep_view(), list, entry);
    }
    map
}

fn project_revisions_at(
    events: &Vec<ReducerEvent>,
    at: usize,
    standing: &Standing,
    status: &ContextGovernanceStatus,
    space_id: SpaceId,
    context_id: ContextId,
) -> (entry: Option<(RevisionId, RevisionProjection)>)
    requires
        at < events@.len(),
        standing.describe(events.deep_view()),
        status.deep_view() == governance(events.deep_view().to_multiset(), space_id, context_id),
    ensures
        entry.deep_view() == revision_entry(
            events.deep_view().to_multiset(),
            space_id,
            context_id,
            events.deep_view()[at as int],
        ),
{
    let ghost list = events.deep_view();
    let ghost members = list.to_multiset();
    assert(list[at as int] == events@[at as int].deep_view());
    assert(standing.live@[at as int] == live(members, list[at as int]));
    assert(standing.revision_heads@[at as int] == revision_head(members, list[at as int]));
    if !standing.live[at] {
        return None;
    }
    match &events[at].payload {
        ReducerPayload::ContextRevisionAdded { space_id: space, context_id: context, revision } if *space == space_id
            && *context == context_id => {
            let revision_id = revision.revision_id;
            let mut review_event_ids: SortedSet<EventId> = SortedSet::new();
            add_review_events(events, standing, space_id, context_id, revision_id, &mut review_event_ids);
            assert(review_event_ids.deep_view() =~= review_events(members, space_id, context_id, revision_id));
            let replaced = is_superseded(events, standing, space_id, context_id, revision_id);
            Some(
                (
                    revision_id,
                    RevisionProjection {
                        revision: revision.copied(),
                        is_head: standing.revision_heads[at],
                        review_summary: summarize(events, standing, space_id, context_id, revision_id),
                        review_event_ids,
                        lifecycle: lifecycle_of(status, replaced, revision_id),
                    },
                ),
            )
        },
        _ => None,
    }
}

/// The head revision that an event adds to a Context of a Space.
pub open spec fn revision_head_share(
    events: Multiset<ReducerEventView>,
    space_id: SpaceId,
    context_id: ContextId,
    event: ReducerEventView,
) -> Set<RevisionId> {
    if live_in(events, event, space_id, context_id) && revision_head(events, event) {
        Set::empty().insert(revision_of(event)->Some_0.2.revision_id)
    } else {
        Set::empty()
    }
}

/// Adds the head revisions of a Context of a Space.
pub fn add_revision_heads(
    events: &Vec<ReducerEvent>,
    standing: &Standing,
    space_id: SpaceId,
    context_id: ContextId,
    heads: &mut SortedSet<RevisionId>,
)
    requires
        standing.describe(events.deep_view()),
    ensures
        final(heads).deep_view() == old(heads).deep_view().union(
            gathered(
                events.deep_view().to_multiset(),
                |event: ReducerEventView| revision_head_share(
                    events.deep_view().to_multiset(),
                    space_id,
                    context_id,
                    event,
                ),
            ),
        ),
{
    let ghost list = events.deep_view();
    let ghost members = list.to_multiset();
    let ghost share = |event: ReducerEventView| revision_head_share(members, space_id, context_id, event);
    let ghost start = heads.deep_view();
    proof {
        gathered_none(list, share);
        assert(start =~= start.union(Set::empty()));
    }
    let mut index: usize = 0;
    while index < events.len()
        invariant
            index <= events@.len(),
            list == events.deep_view(),
            members == list.to_multiset(),
            share == (|event: ReducerEventView| revision_head_share(members, space_id, context_id, event)),
            standing.describe(events.deep_view()),
            heads.deep_view() == start.union(gathered_first(list, share, index as int)),
        decreases events@.len() - index,
    {
        add_revision_heads_at(events, index, standing, space_id, context_id, heads);
        proof {
            gathered_next(list, share, index as int);
            assert(heads.deep_view() =~= start.union(gathered_first(list, share, index + 1)));
        }
        index = index + 1;
    }
    proof {
        gathered_whole(list, share);
    }
}

fn add_revision_heads_at(
    events: &Vec<ReducerEvent>,
    at: usize,
    standing: &Standing,
    space_id: SpaceId,
    context_id: ContextId,
    heads: &mut SortedSet<RevisionId>,
)
    requires
        at < events@.len(),
        standing.describe(events.deep_view()),
    ensures
        final(heads).deep_view() == old(heads).deep_view().union(
            revision_head_share(
                events.deep_view().to_multiset(),
                space_id,
                context_id,
                events.deep_view()[at as int],
            ),
        ),
{
    let ghost list = events.deep_view();
    let ghost start = heads.deep_view();
    assert(list[at as int] == events@[at as int].deep_view());
    assert(standing.revision_heads@[at as int] == revision_head(list.to_multiset(), list[at as int]));
    if let ReducerPayload::ContextRevisionAdded { space_id: space, context_id: context, revision } =
        &events[at].payload {
        if standing.revision_heads[at] && *space == space_id && *context == context_id {
            heads.insert(revision.revision_id);
        }
    }
    proof {
        if revision_head(list.to_multiset(), list[at as int]) {
            live_is_revision(list.to_multiset(), list[at as int]);
        }
    }
    assert(heads.deep_view() =~= start.union(
        revision_head_share(list.to_multiset(), space_id, context_id, list[at as int]),
    ));
}

/// The valid review that an event adds to a Context of a Space.
pub open spec fn review_entry(
    events: Multiset<ReducerEventView>,
    space_id: SpaceId,
    context_id: ContextId,
    event: ReducerEventView,
) -> Option<(EventId, ReviewView)> {
    if valid_review(events, event) && review_of(event)->Some_0.0 == space_id && review_of(event)->Some_0.1
        == context_id {
        Some((event.event_id, review_of(event)->Some_0.2))
    } else {
        None
    }
}

/// A review event holds one review.
pub proof fn review_entries_agree(events: Multiset<ReducerEventView>, space_id: SpaceId, context_id: ContextId)
    ensures
        one_value_each(events, |event: ReducerEventView| review_entry(events, space_id, context_id, event)),
{
    let entry = |event: ReducerEventView| review_entry(events, space_id, context_id, event);
    assert forall|a: ReducerEventView, b: ReducerEventView| #[trigger]
        events.contains(a) && #[trigger] events.contains(b) && entry(a) is Some && entry(b) is Some && entry(
            a,
        )->Some_0.0 == entry(b)->Some_0.0 implies entry(a) == entry(b) by {
        defines_own(a);
        defines_own(b);
        sound_definitions_are_unique(events, a, b, definition(DefinitionKind::Event, a.event_id));
    }
}

/// Projects the valid reviews of a Context of a Space.
pub fn project_reviews(
    events: &Vec<ReducerEvent>,
    standing: &Standing,
    space_id: SpaceId,
    context_id: ContextId,
) -> (map: SortedMap<EventId, Review>)
    requires
        standing.describe(events.deep_view()),
    ensures
        map.deep_view() == keyed(
            events.deep_view().to_multiset(),
            |event: ReducerEventView| review_entry(events.deep_view().to_multiset(), space_id, context_id, event),
        ),
{
    let ghost list = events.deep_view();
    let ghost members = list.to_multiset();
    let ghost entry = |event: ReducerEventView| review_entry(members, space_id, context_id, event);
    proof {
        review_entries_agree(members, space_id, context_id);
    }
    let mut map: SortedMap<EventId, Review> = SortedMap::new();
    let mut index: usize = 0;
    while index < events.len()
        invariant
            index <= events@.len(),
            list == events.deep_view(),
            members == list.to_multiset(),
            entry == (|event: ReducerEventView| review_entry(members, space_id, context_id, event)),
            one_value_each(members, entry),
            standing.describe(events.deep_view()),
            holds_first(map.deep_view(), list, entry, index as int),
        decreases events@.len() - index,
    {
        let found = project_reviews_at(events, index, standing, space_id, context_id);
        proof {
            holds_next(map.deep_view(), list, entry, index as int);
        }
        if let Some((key, value)) = found {
            map.insert(key, value);
        }
        index = index + 1;
    }
    proof {
        holds_whole(map.deep_view(), list, entry);
    }
    map
}

fn project_reviews_at(
    events: &Vec<ReducerEvent>,
    at: usize,
    standing: &Standing,
    space_id: SpaceId,
    context_id: ContextId,
) -> (entry: Option<(EventId, Review)>)
    requires
        at < events@.len(),
        standing.describe(events.deep_view()),
    ensures
        entry.deep_view() == review_entry(
            events.deep_view().to_multiset(),
            space_id,
            context_id,
            events.deep_view()[at as int],
        ),
{
    let ghost list = events.deep_view();
    assert(list[at as int] == events@[at as int].deep_view());
    assert(standing.reviews@[at as int] == valid_review(list.to_multiset(), list[at as int]));
    match &events[at].payload {
        ReducerPayload::ContextReviewed { space_id: space, context_id: context, review } if standing.reviews[at]
            && *space == space_id && *context == context_id => Some((events[at].event_id, review.copied())),
        _ => None,
    }
}

/// The valid publication that an event adds to a Context of a Space.
pub open spec fn publication_entry(
    events: Multiset<ReducerEventView>,
    space_id: SpaceId,
    context_id: ContextId,
    event: ReducerEventView,
) -> Option<(PublicationId, PublicationView)> {
    if published_in(events, event, space_id, context_id) {
        Some((publication_of(event)->Some_0.2.publication_id, publication_of(event)->Some_0.2))
    } else {
        None
    }
}

/// A publication identity holds one valid publication.
pub proof fn publication_entries_agree(events: Multiset<ReducerEventView>, space_id: SpaceId, context_id: ContextId)
    ensures
        one_value_each(events, |event: ReducerEventView| publication_entry(events, space_id, context_id, event)),
{
    let entry = |event: ReducerEventView| publication_entry(events, space_id, context_id, event);
    assert forall|a: ReducerEventView, b: ReducerEventView| #[trigger]
        events.contains(a) && #[trigger] events.contains(b) && entry(a) is Some && entry(b) is Some && entry(
            a,
        )->Some_0.0 == entry(b)->Some_0.0 implies entry(a) == entry(b) by {
        defines_own(a);
        defines_own(b);
        sound_definitions_are_unique(
            events,
            a,
            b,
            definition(DefinitionKind::Publication, publication_of(a)->Some_0.2.publication_id),
        );
    }
}

/// Projects the valid publications of a Context of a Space.
pub fn project_publications(
    events: &Vec<ReducerEvent>,
    standing: &Standing,
    space_id: SpaceId,
    context_id: ContextId,
) -> (map: SortedMap<PublicationId, Publication>)
    requires
        standing.describe(events.deep_view()),
    ensures
        map.deep_view() == keyed(
            events.deep_view().to_multiset(),
            |event: ReducerEventView| publication_entry(
                events.deep_view().to_multiset(),
                space_id,
                context_id,
                event,
            ),
        ),
{
    let ghost list = events.deep_view();
    let ghost members = list.to_multiset();
    let ghost entry = |event: ReducerEventView| publication_entry(members, space_id, context_id, event);
    proof {
        publication_entries_agree(members, space_id, context_id);
    }
    let mut map: SortedMap<PublicationId, Publication> = SortedMap::new();
    let mut index: usize = 0;
    while index < events.len()
        invariant
            index <= events@.len(),
            list == events.deep_view(),
            members == list.to_multiset(),
            entry == (|event: ReducerEventView| publication_entry(members, space_id, context_id, event)),
            one_value_each(members, entry),
            standing.describe(events.deep_view()),
            holds_first(map.deep_view(), list, entry, index as int),
        decreases events@.len() - index,
    {
        let found = project_publications_at(events, index, standing, space_id, context_id);
        proof {
            holds_next(map.deep_view(), list, entry, index as int);
        }
        if let Some((key, value)) = found {
            map.insert(key, value);
        }
        index = index + 1;
    }
    proof {
        holds_whole(map.deep_view(), list, entry);
    }
    map
}

fn project_publications_at(
    events: &Vec<ReducerEvent>,
    at: usize,
    standing: &Standing,
    space_id: SpaceId,
    context_id: ContextId,
) -> (entry: Option<(PublicationId, Publication)>)
    requires
        at < events@.len(),
        standing.describe(events.deep_view()),
    ensures
        entry.deep_view() == publication_entry(
            events.deep_view().to_multiset(),
            space_id,
            context_id,
            events.deep_view()[at as int],
        ),
{
    let ghost list = events.deep_view();
    assert(list[at as int] == events@[at as int].deep_view());
    assert(standing.publications@[at as int] == valid_publication(list.to_multiset(), list[at as int]));
    match &events[at].payload {
        ReducerPayload::ContextPublicationChanged { space_id: space, context_id: context, publication } if
            standing.publications[at] && *space == space_id && *context == context_id => Some(
            (publication.publication_id, publication.copied()),
        ),
        _ => None,
    }
}

} // verus!
