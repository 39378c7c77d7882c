//! Revision, publication, association and resolution lineages, and the Context relations that
//! quarantine revisions.

use vstd::multiset::Multiset;
use vstd::prelude::*;

use crate::collections::SortedSet;
use crate::dag::{
    broken_flags, flags_tell, grounded_flags, head_flags, is_broken, is_grounded, is_head, no_flags, node_set,
    node_sets_agree, nodes_among, nodes_are, same_flags, unflagged, unflagged_falls, DagNode, DagNodeView,
};
use crate::definitions::{add_event_diagnostic, diagnostic, one_event, sound};
use crate::engineering::{ContextRelation, ContextRelationView};
use crate::events::{
    ReducerDiagnostic, ReducerDiagnosticCode, ReducerDiagnosticView, ReducerEvent, ReducerEventView,
    ReducerPayload, ReducerPayloadView,
};
use crate::gather::{
    flags_are, gathered, gathered_first, gathered_next, gathered_none, gathered_same, gathered_union,
    gathered_whole, is_member, place_in,
};
use crate::ids::{
    hyphenated, uuid_text, ContextId, Identifier, PublicationId, ResolutionId, RevisionId, SpaceAssociationId,
    SpaceId,
};
use crate::model::ContextRevisionView;
use crate::ownership::{ambiguous, valid_spaces, Facts};
use crate::text::{joined2, joined3, joined4};
use crate::value::{push_value, Value};

verus! {

/// The lineages that are validated as graphs.
#[derive(Clone, Copy, Debug, PartialEq, Eq, Structural)]
pub enum Lineage {
    Intent,
    Context,
    Publication,
    Association,
    Resolution,
}

impl DeepView for Lineage {
    type V = Lineage;

    open spec fn deep_view(&self) -> Lineage {
        *self
    }
}

impl Value for Lineage {
    fn copied(&self) -> (copy: Self) {
        *self
    }

    fn same(&self, other: &Self) -> (equal: bool) {
        *self == *other
    }
}

/// What a member of a lineage is called.
pub open spec fn lineage_name(lineage: Lineage) -> Seq<char> {
    match lineage {
        Lineage::Intent => "intent revision"@,
        Lineage::Context => "context revision"@,
        Lineage::Publication => "publication"@,
        Lineage::Association => "Context Space Association"@,
        Lineage::Resolution => "semantic conflict resolution"@,
    }
}

/// The prefix of an identity of a lineage.
pub open spec fn lineage_prefix(lineage: Lineage) -> Seq<char> {
    match lineage {
        Lineage::Intent => RevisionId::prefix(),
        Lineage::Context => RevisionId::prefix(),
        Lineage::Publication => PublicationId::prefix(),
        Lineage::Association => SpaceAssociationId::prefix(),
        Lineage::Resolution => ResolutionId::prefix(),
    }
}

/// How a broken member of a lineage is classified.
pub open spec fn broken_code(lineage: Lineage) -> ReducerDiagnosticCode {
    match lineage {
        Lineage::Intent => ReducerDiagnosticCode::InvalidRevisionReference,
        Lineage::Context => ReducerDiagnosticCode::InvalidRevisionReference,
        Lineage::Publication => ReducerDiagnosticCode::InvalidPublicationReference,
        Lineage::Association => ReducerDiagnosticCode::InvalidSpaceAssociationReference,
        Lineage::Resolution => ReducerDiagnosticCode::InvalidResolutionReference,
    }
}

/// How a cyclic member of a lineage is classified.
pub open spec fn cycle_code(lineage: Lineage) -> ReducerDiagnosticCode {
    match lineage {
        Lineage::Intent => ReducerDiagnosticCode::RevisionCycle,
        Lineage::Context => ReducerDiagnosticCode::RevisionCycle,
        Lineage::Publication => ReducerDiagnosticCode::PublicationCycle,
        Lineage::Association => ReducerDiagnosticCode::SpaceAssociationCycle,
        Lineage::Resolution => ReducerDiagnosticCode::ResolutionCycle,
    }
}

fn name_of(lineage: Lineage) -> (result: &'static str)
    ensures
        result@ == lineage_name(lineage),
{
    match lineage {
        Lineage::Intent => "intent revision",
        Lineage::Context => "context revision",
        Lineage::Publication => "publication",
        Lineage::Association => "Context Space Association",
        Lineage::Resolution => "semantic conflict resolution",
    }
}

fn prefix_of(lineage: Lineage) -> (result: &'static str)
    ensures
        result@ == lineage_prefix(lineage),
{
    match lineage {
        Lineage::Intent => "rev_",
        Lineage::Context => "rev_",
        Lineage::Publication => "pub_",
        Lineage::Association => "asc_",
        Lineage::Resolution => "rsl_",
    }
}

fn broken_code_of(lineage: Lineage) -> (result: ReducerDiagnosticCode)
    ensures
        result == broken_code(lineage),
{
    match lineage {
        Lineage::Intent => ReducerDiagnosticCode::InvalidRevisionReference,
        Lineage::Context => ReducerDiagnosticCode::InvalidRevisionReference,
        Lineage::Publication => ReducerDiagnosticCode::InvalidPublicationReference,
        Lineage::Association => ReducerDiagnosticCode::InvalidSpaceAssociationReference,
        Lineage::Resolution => ReducerDiagnosticCode::InvalidResolutionReference,
    }
}

fn cycle_code_of(lineage: Lineage) -> (result: ReducerDiagnosticCode)
    ensures
        result == cycle_code(lineage),
{
    match lineage {
        Lineage::Intent => ReducerDiagnosticCode::RevisionCycle,
        Lineage::Context => ReducerDiagnosticCode::RevisionCycle,
        Lineage::Publication => ReducerDiagnosticCode::PublicationCycle,
        Lineage::Association => ReducerDiagnosticCode::SpaceAssociationCycle,
        Lineage::Resolution => ReducerDiagnosticCode::ResolutionCycle,
    }
}

/// What a member of a lineage contributes to the diagnostics.
pub open spec fn lineage_complaint(
    lineage: Lineage,
    nodes: Set<DagNodeView>,
    node: Option<DagNodeView>,
) -> Set<ReducerDiagnosticView> {
    match node {
        None => Set::empty(),
        Some(node) => {
            let text = lineage_prefix(lineage) + hyphenated(node.id);
            if is_broken(nodes, node) {
                Set::empty().insert(
                    diagnostic(
                        broken_code(lineage),
                        text,
                        one_event(node.event_id),
                        lineage_name(lineage) + " "@ + text
                            + " has a missing, quarantined, or cross-aggregate parent"@,
                    ),
                )
            } else if !is_grounded(nodes, node) {
                Set::empty().insert(
                    diagnostic(
                        cycle_code(lineage),
                        text,
                        one_event(node.event_id),
                        lineage_name(lineage) + " "@ + text + " is cyclic or depends on a cycle"@,
                    ),
                )
            } else {
                Set::empty()
            }
        },
    }
}

/// The grounded members and the heads of a lineage, place by place.
pub struct Line {
    pub valid: Vec<bool>,
    pub heads: Vec<bool>,
}

impl Line {
    /// Whether this tells which of some events are grounded members and heads of a lineage.
    pub open spec fn describe(
        self,
        events: Seq<ReducerEventView>,
        node: spec_fn(ReducerEventView) -> Option<DagNodeView>,
    ) -> bool {
        let nodes = nodes_among(events.to_multiset(), node);
        &&& flags_are(self.valid@, events, |event: ReducerEventView| is_valid_member(nodes, node(event)))
        &&& flags_are(self.heads@, events, |event: ReducerEventView| is_head_member(nodes, node(event)))
    }
}

/// Whether there is a node and it is grounded.
pub open spec fn is_valid_member(nodes: Set<DagNodeView>, node: Option<DagNodeView>) -> bool {
    node is Some && is_grounded(nodes, node->Some_0)
}

/// Whether there is a node and it is a head.
pub open spec fn is_head_member(nodes: Set<DagNodeView>, node: Option<DagNodeView>) -> bool {
    node is Some && is_head(nodes, node->Some_0)
}

/// Validates one lineage of some events.
pub fn validate_dag(
    Ghost(events): Ghost<Seq<ReducerEventView>>,
    Ghost(node): Ghost<spec_fn(ReducerEventView) -> Option<DagNodeView>>,
    nodes: &Vec<Option<DagNode>>,
    lineage: Lineage,
    complaints: &mut SortedSet<ReducerDiagnostic>,
) -> (line: Line)
    requires
        nodes_are(nodes.deep_view(), events, node),
    ensures
        line.describe(events, node),
        final(complaints).deep_view() == old(complaints).deep_view().union(
            gathered(
                events.to_multiset(),
                |event: ReducerEventView|
                    lineage_complaint(lineage, nodes_among(events.to_multiset(), node), node(event)),
            ),
        ),
{
    let ghost list = nodes.deep_view();
    let ghost all = nodes_among(events.to_multiset(), node);
    proof {
        node_sets_agree(list, events, node);
    }
    let broken = broken_flags(nodes);
    let grounded = grounded_flags(nodes);
    let heads = head_flags(nodes, &grounded);
    let ghost share = |event: ReducerEventView| lineage_complaint(lineage, all, node(event));
    let ghost start = complaints.deep_view();
    proof {
        gathered_none(events, share);
        assert(start =~= start.union(Set::empty()));
    }
    let mut index: usize = 0;
    while index < nodes.len()
        invariant
            index <= nodes@.len(),
            list == nodes.deep_view(),
            nodes_are(list, events, node),
            all == node_set(list),
            flags_tell(broken@, list, |node: DagNodeView| is_broken(node_set(list), node)),
            flags_tell(grounded@, list, |node: DagNodeView| is_grounded(node_set(list), node)),
            share == (|event: ReducerEventView| lineage_complaint(lineage, all, node(event))),
            complaints.deep_view() == start.union(gathered_first(events, share, index as int)),
        decreases nodes@.len() - index,
    {
        assert(list[index as int] == nodes@[index as int].deep_view());
        assert(list[index as int] == node(events[index as int]));
        if let Some(found) = &nodes[index] {
            let ghost model = found.deep_view();
            assert(broken@[index as int] == is_broken(all, model));
            assert(grounded@[index as int] == is_grounded(all, model));
            if broken[index] {
                complain_of_member(lineage, found, true, complaints);
            } else if !grounded[index] {
                complain_of_member(lineage, found, false, complaints);
            }
        }
        proof {
            gathered_next(events, share, index as int);
            assert(complaints.deep_view() =~= start.union(gathered_first(events, share, index + 1)));
        }
        index = index + 1;
    }
    proof {
        assert(list.len() == nodes@.len());
        gathered_whole(events, share);
        assert forall|i: int| 0 <= i < events.len() implies #[trigger] grounded@[i] == is_valid_member(
            all,
            node(events[i]),
        ) by {
            assert(list[i] == node(events[i]));
        }
        assert forall|i: int| 0 <= i < events.len() implies #[trigger] heads@[i] == is_head_member(
            all,
            node(events[i]),
        ) by {
            assert(list[i] == node(events[i]));
        }
    }
    Line { valid: grounded, heads }
}

fn complain_of_member(
    lineage: Lineage,
    node: &DagNode,
    broken: bool,
    complaints: &mut SortedSet<ReducerDiagnostic>,
)
    ensures
        final(complaints).deep_view() == old(complaints).deep_view().insert(
            ({
                let text = lineage_prefix(lineage) + hyphenated(node.id);
                if broken {
                    diagnostic(
                        broken_code(lineage),
                        text,
                        one_event(node.event_id),
                        lineage_name(lineage) + " "@ + text
                            + " has a missing, quarantined, or cross-aggregate parent"@,
                    )
                } else {
                    diagnostic(
                        cycle_code(lineage),
                        text,
                        one_event(node.event_id),
                        lineage_name(lineage) + " "@ + text + " is cyclic or depends on a cycle"@,
                    )
                }
            }),
        ),
{
    let uuid = uuid_text(node.id);
    let text = joined2(prefix_of(lineage), uuid.as_str());
    if broken {
        let message = joined4(
            name_of(lineage),
            " ",
            text.as_str(),
            " has a missing, quarantined, or cross-aggregate parent",
        );
        add_event_diagnostic(complaints, broken_code_of(lineage), text.as_str(), node.event_id, message);
    } else {
        let message = joined4(name_of(lineage), " ", text.as_str(), " is cyclic or depends on a cycle");
        add_event_diagnostic(complaints, cycle_code_of(lineage), text.as_str(), node.event_id, message);
    }
}

/// The numbers of identities.
pub open spec fn id_numbers<I: Identifier>(ids: Seq<I>) -> Seq<u128> {
    Seq::new(ids.len(), |i: int| ids[i].number())
}

/// Lists the numbers of identities.
pub fn numbers_of<I: Identifier>(ids: &Vec<I>) -> (numbers: Vec<u128>)
    ensures
        numbers.deep_view() == id_numbers(ids.deep_view()),
{
    let ghost model = ids.deep_view();
    let mut numbers: Vec<u128> = Vec::new();
    let mut index: usize = 0;
    while index < ids.len()
        invariant
            index <= ids@.len(),
            model == ids.deep_view(),
            numbers.deep_view() == id_numbers(model).take(index as int),
        decreases ids@.len() - index,
    {
        proof {
            I::number_identifies(ids@[index as int], ids@[index as int]);
            assert(model[index as int] == ids@[index as int].deep_view());
        }
        push_value(&mut numbers, ids[index].get());
        assert(numbers.deep_view() =~= id_numbers(model).take(index + 1));
        index = index + 1;
    }
    assert(id_numbers(model).take(index as int) =~= id_numbers(model));
    numbers
}

/// The intent revision that an event contributes to the lineage of a valid Space.
pub open spec fn intent_node(events: Multiset<ReducerEventView>, event: ReducerEventView) -> Option<DagNodeView> {
    match intent_of(event) {
        Some((space_id, revision)) => {
            if sound(events, event) && valid_spaces(events).contains(space_id) {
                Some(
                    DagNodeView {
                        id: revision.revision_id.number(),
                        group: space_id.number(),
                        event_id: event.event_id,
                        parents: id_numbers(revision.parent_revision_ids),
                    },
                )
            } else {
                None
            }
        },
        None => None,
    }
}

/// The Space and the intent revision that an event adds to it.
pub open spec fn intent_of(event: ReducerEventView) -> Option<(SpaceId, crate::model::IntentRevisionView)> {
    match event.payload {
        ReducerPayloadView::SpaceCreated { space_id, intent_revision } => Some((space_id, intent_revision)),
        ReducerPayloadView::SpaceIntentRevisionAdded { space_id, intent_revision } => {
            Some((space_id, intent_revision))
        },
        _ => None,
    }
}

/// The intent revisions of valid Spaces.
pub open spec fn intent_nodes(events: Multiset<ReducerEventView>) -> Set<DagNodeView> {
    nodes_among(events, |event: ReducerEventView| intent_node(events, event))
}

/// What intent lineages contribute to the diagnostics.
pub open spec fn intent_complaints(
    events: Multiset<ReducerEventView>,
    event: ReducerEventView,
) -> Set<ReducerDiagnosticView> {
    lineage_complaint(Lineage::Intent, intent_nodes(events), intent_node(events, event))
}

/// Lists the intent revisions of valid Spaces.
pub fn list_intents(events: &Vec<ReducerEvent>, facts: &Facts) -> (nodes: Vec<Option<DagNode>>)
    requires
        facts.describe(events.deep_view()),
    ensures
        nodes_are(
            nodes.deep_view(),
            events.deep_view(),
            |event: ReducerEventView| intent_node(events.deep_view().to_multiset(), event),
        ),
{
    let ghost list = events.deep_view();
    let ghost members = list.to_multiset();
    let mut nodes: Vec<Option<DagNode>> = Vec::new();
    let mut index: usize = 0;
    while index < events.len()
        invariant
            index <= events@.len(),
            list == events.deep_view(),
            members == list.to_multiset(),
            facts.describe(events.deep_view()),
            nodes@.len() == index,
            forall|i: int| 0 <= i < index ==> #[trigger] nodes.deep_view()[i] == intent_node(members, list[i]),
        decreases events@.len() - index,
    {
        let node = list_intents_at(events, index, facts);
        let ghost before = nodes.deep_view();
        push_value(&mut nodes, node);
        assert forall|i: int| 0 <= i < index + 1 implies #[trigger] nodes.deep_view()[i] == intent_node(members, list[i]) by {
            if i < index {
                assert(before[i] == intent_node(members, list[i]));
            }
        }
        index = index + 1;
    }
    nodes
}

fn list_intents_at(events: &Vec<ReducerEvent>, at: usize, facts: &Facts) -> (node: Option<DagNode>)
    requires
        at < events@.len(),
        facts.describe(events.deep_view()),
    ensures
        node.deep_view() == intent_node(events.deep_view().to_multiset(), events.deep_view()[at as int]),
{
    let ghost list = events.deep_view();
    let event = &events[at];
    assert(list[at as int] == event.deep_view());
    assert(facts.sound@[at as int] == sound(list.to_multiset(), list[at as int]));
    match &event.payload {
        ReducerPayload::SpaceCreated { space_id, intent_revision } | ReducerPayload::SpaceIntentRevisionAdded {
            space_id,
            intent_revision,
        } => {
            if facts.sound[at] && facts.spaces.contains(space_id) {
                Some(
                    DagNode {
                        id: intent_revision.revision_id.get(),
                        group: space_id.get(),
                        event_id: event.event_id,
                        parents: numbers_of(&intent_revision.parent_revision_ids),
                    },
                )
            } else {
                None
            }
        },
        _ => None,
    }
}

/// The Space, the Context and the revision that an event adds to it.
pub open spec fn revision_of(event: ReducerEventView) -> Option<(SpaceId, ContextId, ContextRevisionView)> {
    match event.payload {
        ReducerPayloadView::ContextRevisionAdded { space_id, context_id, revision } => Some(
            (space_id, context_id, revision),
        ),
        _ => None,
    }
}

/// The revision that an event contributes to the lineage of an owned Context.
pub open spec fn context_node(events: Multiset<ReducerEventView>, event: ReducerEventView) -> Option<DagNodeView> {
    match revision_of(event) {
        Some((space_id, context_id, revision)) => {
            if sound(events, event) && valid_spaces(events).contains(space_id) && !ambiguous(events, context_id) {
                Some(
                    DagNodeView {
                        id: revision.revision_id.number(),
                        group: context_id.number(),
                        event_id: event.event_id,
                        parents: id_numbers(revision.parent_revision_ids),
                    },
                )
            } else {
                None
            }
        },
        None => None,
    }
}

/// The revisions of owned Contexts.
pub open spec fn context_nodes(events: Multiset<ReducerEventView>) -> Set<DagNodeView> {
    nodes_among(events, |event: ReducerEventView| context_node(events, event))
}

/// What Context lineages contribute to the diagnostics.
pub open spec fn context_complaints(
    events: Multiset<ReducerEventView>,
    event: ReducerEventView,
) -> Set<ReducerDiagnosticView> {
    lineage_complaint(Lineage::Context, context_nodes(events), context_node(events, event))
}

/// Lists the revisions of owned Contexts.
pub fn list_contexts(events: &Vec<ReducerEvent>, facts: &Facts) -> (nodes: Vec<Option<DagNode>>)
    requires
        facts.describe(events.deep_view()),
    ensures
        nodes_are(
            nodes.deep_view(),
            events.deep_view(),
            |event: ReducerEventView| context_node(events.deep_view().to_multiset(), event),
        ),
{
    let ghost list = events.deep_view();
    let ghost members = list.to_multiset();
    let mut nodes: Vec<Option<DagNode>> = Vec::new();
    let mut index: usize = 0;
    while index < events.len()
        invariant
            index <= events@.len(),
            list == events.deep_view(),
            members == list.to_multiset(),
            facts.describe(events.deep_view()),
            nodes@.len() == index,
            forall|i: int| 0 <= i < index ==> #[trigger] nodes.deep_view()[i] == context_node(members, list[i]),
        decreases events@.len() - index,
    {
        let node = list_contexts_at(events, index, facts);
        let ghost before = nodes.deep_view();
        push_value(&mut nodes, node);
        assert forall|i: int| 0 <= i < index + 1 implies #[trigger] nodes.deep_view()[i] == context_node(members, list[i]) by {
            if i < index {
                assert(before[i] == context_node(members, list[i]));
            }
        }
        index = index + 1;
    }
    nodes
}

fn list_contexts_at(events: &Vec<ReducerEvent>, at: usize, facts: &Facts) -> (node: Option<DagNode>)
    requires
        at < events@.len(),
        facts.describe(events.deep_view()),
    ensures
        node.deep_view() == context_node(events.deep_view().to_multiset(), events.deep_view()[at as int]),
{
    let ghost list = events.deep_view();
    let event = &events[at];
    assert(list[at as int] == event.deep_view());
    assert(facts.sound@[at as int] == sound(list.to_multiset(), list[at as int]));
    match &event.payload {
        ReducerPayload::ContextRevisionAdded { space_id, context_id, revision } => {
            if facts.sound[at] && facts.spaces.contains(space_id) && !facts.is_ambiguous(Ghost(list), *context_id) {
                Some(
                    DagNode {
                        id: revision.revision_id.get(),
                        group: context_id.get(),
                        event_id: event.event_id,
                        parents: numbers_of(&revision.parent_revision_ids),
                    },
                )
            } else {
                None
            }
        },
        _ => None,
    }
}

/// Whether an event adds a grounded revision to an owned Context.
pub open spec fn grounded_revision(events: Multiset<ReducerEventView>, event: ReducerEventView) -> bool {
    is_valid_member(context_nodes(events), context_node(events, event))
}

/// Whether an event adds a revision to a Context.
pub open spec fn adds_to(event: ReducerEventView, context_id: ContextId) -> bool {
    revision_of(event) is Some && revision_of(event)->Some_0.1 == context_id
}

/// Whether an event adds a given revision to a Context.
pub open spec fn adds_revision(event: ReducerEventView, context_id: ContextId, revision_id: RevisionId) -> bool {
    adds_to(event, context_id) && revision_of(event)->Some_0.2.revision_id == revision_id
}

/// Whether a Context has a grounded revision outside a quarantine.
pub open spec fn context_exists(
    events: Multiset<ReducerEventView>,
    quarantine: Set<ReducerEventView>,
    context_id: ContextId,
) -> bool {
    exists|event: ReducerEventView| #[trigger]
        events.contains(event) && grounded_revision(events, event) && !quarantine.contains(event) && adds_to(
            event,
            context_id,
        )
}

/// Why a revision is quarantined for its relations.
#[derive(Clone, Debug, PartialEq, Eq)]
pub struct RelationFault {
    pub code: ReducerDiagnosticCode,
    pub reason: String,
}

/// The model of [`RelationFault`].
pub struct RelationFaultView {
    pub code: ReducerDiagnosticCode,
    pub reason: Seq<char>,
}

impl DeepView for RelationFault {
    type V = RelationFaultView;

    open spec fn deep_view(&self) -> RelationFaultView {
        RelationFaultView {
            code: self.code.deep_view(),
            reason: self.reason.deep_view(),
        }
    }
}

impl Value for RelationFault {
    fn copied(&self) -> (copy: Self) {
        RelationFault {
            code: self.code.copied(),
            reason: self.reason.copied(),
        }
    }

    fn same(&self, other: &Self) -> (equal: bool) {
        self.code.same(&other.code)
            && self.reason.same(&other.reason)
    }
}

/// Why one relation of a revision is refused, if it is.
pub open spec fn relation_fault(
    events: Multiset<ReducerEventView>,
    quarantine: Set<ReducerEventView>,
    context_id: ContextId,
    relation: ContextRelationView,
) -> Option<RelationFaultView> {
    match relation.problem() {
        Some(error) => Some(
            RelationFaultView { code: ReducerDiagnosticCode::InvalidContextRelation, reason: error.message },
        ),
        None => {
            if relation.target_context_id == context_id || !context_exists(
                events,
                quarantine,
                relation.target_context_id,
            ) {
                Some(
                    RelationFaultView {
                        code: ReducerDiagnosticCode::InvalidContextRelationTarget,
                        reason: "target Context "@ + relation.target_context_id.text()
                            + " is self-referential, missing, or quarantined"@,
                    },
                )
            } else {
                None
            }
        },
    }
}

/// Why the first refused relation of a revision, from an index on, is refused.
pub open spec fn first_relation_fault(
    events: Multiset<ReducerEventView>,
    quarantine: Set<ReducerEventView>,
    context_id: ContextId,
    relations: Seq<ContextRelationView>,
    from: int,
) -> Option<RelationFaultView>
    decreases relations.len() - from,
{
    if from < 0 || from >= relations.len() {
        None
    } else {
        match relation_fault(events, quarantine, context_id, relations[from]) {
            Some(fault) => Some(fault),
            None => first_relation_fault(events, quarantine, context_id, relations, from + 1),
        }
    }
}

/// Whether a revision has a parent in a quarantine.
pub open spec fn parent_quarantined(
    quarantine: Set<ReducerEventView>,
    context_id: ContextId,
    parents: Seq<RevisionId>,
) -> bool {
    exists|event: ReducerEventView| #[trigger]
        quarantine.contains(event) && adds_to(event, context_id) && parents.contains(
            revision_of(event)->Some_0.2.revision_id,
        )
}

/// Why a revision is quarantined, given the quarantine so far.
pub open spec fn revision_fault(
    events: Multiset<ReducerEventView>,
    quarantine: Set<ReducerEventView>,
    event: ReducerEventView,
) -> Option<RelationFaultView> {
    match revision_of(event) {
        None => None,
        Some((_, context_id, revision)) => {
            match first_relation_fault(events, quarantine, context_id, revision.relations, 0) {
                Some(fault) => Some(fault),
                None => {
                    if parent_quarantined(quarantine, context_id, revision.parent_revision_ids) {
                        Some(
                            RelationFaultView {
                                code: ReducerDiagnosticCode::InvalidRevisionReference,
                                reason: "revision depends on a relation-quarantined parent"@,
                            },
                        )
                    } else {
                        None
                    }
                },
            }
        },
    }
}

/// The quarantine after some rounds: each adds the grounded revisions that have a fault in view
/// of the quarantine before.
pub open spec fn quarantine_after(events: Multiset<ReducerEventView>, rounds: nat) -> Set<ReducerEventView>
    decreases rounds,
{
    if rounds == 0 {
        Set::empty()
    } else {
        let before = quarantine_after(events, (rounds - 1) as nat);
        Set::new(|event: ReducerEventView| before.contains(event) || newly_quarantined(events, before, event))
    }
}

/// Whether a grounded revision joins a quarantine in the next round.
pub open spec fn newly_quarantined(
    events: Multiset<ReducerEventView>,
    quarantine: Set<ReducerEventView>,
    event: ReducerEventView,
) -> bool {
    &&& events.contains(event)
    &&& grounded_revision(events, event)
    &&& !quarantine.contains(event)
    &&& revision_fault(events, quarantine, event) is Some
}

/// The revisions that relations quarantine.
pub open spec fn quarantine(events: Multiset<ReducerEventView>) -> Set<ReducerEventView> {
    Set::new(
        |event: ReducerEventView| exists|rounds: nat| #[trigger] quarantine_after(events, rounds).contains(event),
    )
}

/// The diagnostic of a fault.
pub open spec fn fault_diagnostic(event: ReducerEventView, fault: RelationFaultView) -> ReducerDiagnosticView {
    let text = revision_of(event)->Some_0.2.revision_id.text();
    diagnostic(
        fault.code,
        text,
        one_event(event.event_id),
        "context revision "@ + text + " has an invalid relation: "@ + fault.reason,
    )
}

/// What a round contributes to the diagnostics.
pub open spec fn round_complaint(
    events: Multiset<ReducerEventView>,
    rounds: nat,
    event: ReducerEventView,
) -> Set<ReducerDiagnosticView> {
    let before = quarantine_after(events, rounds);
    if newly_quarantined(events, before, event) {
        Set::empty().insert(fault_diagnostic(event, revision_fault(events, before, event)->Some_0))
    } else {
        Set::empty()
    }
}

/// What the relations of a revision contribute to the diagnostics.
pub open spec fn relation_complaints(
    events: Multiset<ReducerEventView>,
    event: ReducerEventView,
) -> Set<ReducerDiagnosticView> {
    Set::new(
        |complaint: ReducerDiagnosticView| exists|rounds: nat| #[trigger]
            round_complaint(events, rounds, event).contains(complaint),
    )
}

/// Whether an event adds a revision that stands: grounded, and not quarantined.
pub open spec fn live(events: Multiset<ReducerEventView>, event: ReducerEventView) -> bool {
    grounded_revision(events, event) && !quarantine(events).contains(event)
}

/// Only events are quarantined, and a quarantine never shrinks.
proof fn quarantine_grows(events: Multiset<ReducerEventView>, rounds: nat, more: nat, event: ReducerEventView)
    requires
        quarantine_after(events, rounds).contains(event),
    ensures
        events.contains(event),
        grounded_revision(events, event),
        quarantine_after(events, rounds + more).contains(event),
    decreases rounds + more,
{
    if more > 0 {
        quarantine_grows(events, rounds, (more - 1) as nat, event);
        assert(rounds + more - 1 == rounds + (more - 1) as nat);
    } else if rounds > 0 {
        let before = quarantine_after(events, (rounds - 1) as nat);
        if before.contains(event) {
            quarantine_grows(events, (rounds - 1) as nat, 0, event);
        }
    }
}

/// A round that adds nothing is the last one.
proof fn quarantine_settles(events: Multiset<ReducerEventView>, rounds: nat, more: nat)
    requires
        forall|event: ReducerEventView| !newly_quarantined(events, quarantine_after(events, rounds), event),
    ensures
        quarantine_after(events, rounds + more) == quarantine_after(events, rounds),
    decreases more,
{
    if more > 0 {
        quarantine_settles(events, rounds, (more - 1) as nat);
        let before = quarantine_after(events, (rounds + more - 1) as nat);
        assert(rounds + more - 1 == rounds + (more - 1) as nat);
        assert(before == quarantine_after(events, rounds));
        assert(quarantine_after(events, rounds + more) =~= before);
    }
}

/// What the rounds before some round contribute to the diagnostics.
spec fn earlier_complaints(
    events: Multiset<ReducerEventView>,
    rounds: nat,
    event: ReducerEventView,
) -> Set<ReducerDiagnosticView> {
    Set::new(
        |complaint: ReducerDiagnosticView| exists|round: nat|
            round < rounds && #[trigger] round_complaint(events, round, event).contains(complaint),
    )
}

/// Whether a Context has a grounded revision outside the quarantine.
fn has_context(
    events: &Vec<ReducerEvent>,
    grounded: &Vec<bool>,
    quarantined: &Vec<bool>,
    Ghost(rounds): Ghost<nat>,
    context_id: ContextId,
) -> (found: bool)
    requires
        flags_are(
            grounded@,
            events.deep_view(),
            |event: ReducerEventView| grounded_revision(events.deep_view().to_multiset(), event),
        ),
        flags_are(
            quarantined@,
            events.deep_view(),
            |event: ReducerEventView| quarantine_after(events.deep_view().to_multiset(), rounds).contains(event),
        ),
    ensures
        found == context_exists(
            events.deep_view().to_multiset(),
            quarantine_after(events.deep_view().to_multiset(), rounds),
            context_id,
        ),
{
    let ghost list = events.deep_view();
    let ghost members = list.to_multiset();
    let ghost held = quarantine_after(members, rounds);
    let mut index: usize = 0;
    while index < events.len()
        invariant
            index <= events@.len(),
            list == events.deep_view(),
            members == list.to_multiset(),
            held == quarantine_after(members, rounds),
            flags_are(grounded@, list, |event: ReducerEventView| grounded_revision(members, event)),
            flags_are(quarantined@, list, |event: ReducerEventView| held.contains(event)),
            forall|i: int|
                0 <= i < index ==> !(grounded_revision(members, #[trigger] list[i]) && !held.contains(list[i])
                    && adds_to(list[i], context_id)),
        decreases events@.len() - index,
    {
        assert(list[index as int] == events@[index as int].deep_view());
        assert(grounded@[index as int] == grounded_revision(members, list[index as int]));
        assert(quarantined@[index as int] == held.contains(list[index as int]));
        if let ReducerPayload::ContextRevisionAdded { space_id: _, context_id: other, revision: _ } =
            &events[index].payload {
            if grounded[index] && !quarantined[index] && *other == context_id {
                proof {
                    is_member(list, index as int);
                }
                return true;
            }
        }
        index = index + 1;
    }
    proof {
        if context_exists(members, held, context_id) {
            let event = choose|event: ReducerEventView| #[trigger]
                members.contains(event) && grounded_revision(members, event) && !held.contains(event) && adds_to(
                    event,
                    context_id,
                );
            let i = place_in(list, event);
            assert(adds_to(list[i], context_id));
        }
    }
    false
}

/// Whether a revision has a parent in the quarantine.
fn has_quarantined_parent(
    events: &Vec<ReducerEvent>,
    quarantined: &Vec<bool>,
    Ghost(rounds): Ghost<nat>,
    context_id: ContextId,
    parents: &Vec<RevisionId>,
) -> (found: bool)
    requires
        flags_are(
            quarantined@,
            events.deep_view(),
            |event: ReducerEventView| quarantine_after(events.deep_view().to_multiset(), rounds).contains(event),
        ),
    ensures
        found == parent_quarantined(
            quarantine_after(events.deep_view().to_multiset(), rounds),
            context_id,
            parents.deep_view(),
        ),
{
    let ghost list = events.deep_view();
    let ghost members = list.to_multiset();
    let ghost held = quarantine_after(members, rounds);
    let mut index: usize = 0;
    while index < events.len()
        invariant
            index <= events@.len(),
            list == events.deep_view(),
            members == list.to_multiset(),
            held == quarantine_after(members, rounds),
            flags_are(quarantined@, list, |event: ReducerEventView| held.contains(event)),
            forall|i: int|
                0 <= i < index ==> !(held.contains(#[trigger] list[i]) && adds_to(list[i], context_id)
                    && parents.deep_view().contains(revision_of(list[i])->Some_0.2.revision_id)),
        decreases events@.len() - index,
    {
        assert(list[index as int] == events@[index as int].deep_view());
        assert(quarantined@[index as int] == held.contains(list[index as int]));
        if let ReducerPayload::ContextRevisionAdded { space_id: _, context_id: other, revision } =
            &events[index].payload {
            if quarantined[index] && *other == context_id && crate::checks::is_among(
                parents,
                &revision.revision_id,
            ) {
                return true;
            }
        }
        index = index + 1;
    }
    proof {
        if parent_quarantined(held, context_id, parents.deep_view()) {
            let event = choose|event: ReducerEventView| #[trigger]
                held.contains(event) && adds_to(event, context_id) && parents.deep_view().contains(
                    revision_of(event)->Some_0.2.revision_id,
                );
            quarantine_grows(members, rounds, 0, event);
            let i = place_in(list, event);
            assert(adds_to(list[i], context_id));
        }
    }
    false
}

/// Why the first refused relation of a revision is refused.
fn find_relation_fault(
    events: &Vec<ReducerEvent>,
    grounded: &Vec<bool>,
    quarantined: &Vec<bool>,
    Ghost(rounds): Ghost<nat>,
    context_id: ContextId,
    relations: &Vec<ContextRelation>,
) -> (fault: Option<RelationFault>)
    requires
        flags_are(
            grounded@,
            events.deep_view(),
            |event: ReducerEventView| grounded_revision(events.deep_view().to_multiset(), event),
        ),
        flags_are(
            quarantined@,
            events.deep_view(),
            |event: ReducerEventView| quarantine_after(events.deep_view().to_multiset(), rounds).contains(event),
        ),
    ensures
        fault.deep_view() == first_relation_fault(
            events.deep_view().to_multiset(),
            quarantine_after(events.deep_view().to_multiset(), rounds),
            context_id,
            relations.deep_view(),
            0,
        ),
{
    let ghost members = events.deep_view().to_multiset();
    let ghost held = quarantine_after(members, rounds);
    let ghost model = relations.deep_view();
    let mut index: usize = 0;
    while index < relations.len()
        invariant
            index <= relations@.len(),
            members == events.deep_view().to_multiset(),
            held == quarantine_after(members, rounds),
            model == relations.deep_view(),
            flags_are(
                grounded@,
                events.deep_view(),
                |event: ReducerEventView| grounded_revision(events.deep_view().to_multiset(), event),
            ),
            flags_are(
                quarantined@,
                events.deep_view(),
                |event: ReducerEventView| quarantine_after(events.deep_view().to_multiset(), rounds).contains(event),
            ),
            first_relation_fault(members, held, context_id, model, 0) == first_relation_fault(
                members,
                held,
                context_id,
                model,
                index as int,
            ),
        decreases relations@.len() - index,
    {
        let relation = &relations[index];
        assert(model[index as int] == relation.deep_view());
        if let Err(error) = relation.validate() {
            return Some(
                RelationFault { code: ReducerDiagnosticCode::InvalidContextRelation, reason: error.to_string() },
            );
        }
        let target = relation.target_context_id;
        if target == context_id || !has_context(events, grounded, quarantined, Ghost(rounds), target) {
            let text = target.to_string();
            return Some(
                RelationFault {
                    code: ReducerDiagnosticCode::InvalidContextRelationTarget,
                    reason: joined3(
                        "target Context ",
                        text.as_str(),
                        " is self-referential, missing, or quarantined",
                    ),
                },
            );
        }
        index = index + 1;
    }
    assert(model.len() == relations@.len());
    None
}

/// Why the revision that an event adds is quarantined, if it is.
fn find_revision_fault(
    events: &Vec<ReducerEvent>,
    grounded: &Vec<bool>,
    quarantined: &Vec<bool>,
    Ghost(rounds): Ghost<nat>,
    at: usize,
) -> (fault: Option<RelationFault>)
    requires
        at < events@.len(),
        flags_are(
            grounded@,
            events.deep_view(),
            |event: ReducerEventView| grounded_revision(events.deep_view().to_multiset(), event),
        ),
        flags_are(
            quarantined@,
            events.deep_view(),
            |event: ReducerEventView| quarantine_after(events.deep_view().to_multiset(), rounds).contains(event),
        ),
    ensures
        fault.deep_view() == revision_fault(
            events.deep_view().to_multiset(),
            quarantine_after(events.deep_view().to_multiset(), rounds),
            events.deep_view()[at as int],
        ),
{
    assert(events.deep_view()[at as int] == events@[at as int].deep_view());
    if let ReducerPayload::ContextRevisionAdded { space_id: _, context_id, revision } = &events[at].payload {
        let fault = find_relation_fault(
            events,
            grounded,
            quarantined,
            Ghost(rounds),
            *context_id,
            &revision.relations,
        );
        if fault.is_some() {
            return fault;
        }
        if has_quarantined_parent(events, quarantined, Ghost(rounds), *context_id, &revision.parent_revision_ids) {
            let reason = "revision depends on a relation-quarantined parent".to_owned();
            return Some(RelationFault { code: ReducerDiagnosticCode::InvalidRevisionReference, reason });
        }
    }
    None
}

/// One round of the quarantine.
fn quarantine_round(
    events: &Vec<ReducerEvent>,
    grounded: &Vec<bool>,
    quarantined: &Vec<bool>,
    Ghost(rounds): Ghost<nat>,
    complaints: &mut SortedSet<ReducerDiagnostic>,
) -> (next: Vec<bool>)
    requires
        flags_are(
            grounded@,
            events.deep_view(),
            |event: ReducerEventView| grounded_revision(events.deep_view().to_multiset(), event),
        ),
        flags_are(
            quarantined@,
            events.deep_view(),
            |event: ReducerEventView| quarantine_after(events.deep_view().to_multiset(), rounds).contains(event),
        ),
    ensures
        flags_are(
            next@,
            events.deep_view(),
            |event: ReducerEventView| quarantine_after(events.deep_view().to_multiset(), rounds + 1).contains(event),
        ),
        final(complaints).deep_view() == old(complaints).deep_view().union(
            gathered(
                events.deep_view().to_multiset(),
                |event: ReducerEventView| round_complaint(events.deep_view().to_multiset(), rounds, event),
            ),
        ),
{
    let ghost list = events.deep_view();
    let ghost members = list.to_multiset();
    let ghost held = quarantine_after(members, rounds);
    let ghost share = |event: ReducerEventView| round_complaint(members, rounds, event);
    let ghost start = complaints.deep_view();
    proof {
        gathered_none(list, share);
        assert(start =~= start.union(Set::empty()));
    }
    let mut next: Vec<bool> = Vec::new();
    let mut index: usize = 0;
    while index < events.len()
        invariant
            index <= events@.len(),
            list == events.deep_view(),
            members == list.to_multiset(),
            held == quarantine_after(members, rounds),
            flags_are(
                grounded@,
                events.deep_view(),
                |event: ReducerEventView| grounded_revision(events.deep_view().to_multiset(), event),
            ),
            flags_are(
                quarantined@,
                events.deep_view(),
                |event: ReducerEventView| quarantine_after(events.deep_view().to_multiset(), rounds).contains(event),
            ),
            share == (|event: ReducerEventView| round_complaint(members, rounds, event)),
            complaints.deep_view() == start.union(gathered_first(list, share, index as int)),
            next@.len() == index,
            forall|i: int|
                0 <= i < index ==> #[trigger] next@[i] == quarantine_after(members, rounds + 1).contains(list[i]),
        decreases events@.len() - index,
    {
        let ghost event = list[index as int];
        assert(event == events@[index as int].deep_view());
        assert(grounded@[index as int] == grounded_revision(members, event));
        assert(quarantined@[index as int] == held.contains(event));
        proof {
            is_member(list, index as int);
            gathered_next(list, share, index as int);
        }
        let mut flag = quarantined[index];
        if grounded[index] && !quarantined[index] {
            if let Some(fault) = find_revision_fault(events, grounded, quarantined, Ghost(rounds), index) {
                assert(newly_quarantined(members, held, event));
                flag = true;
                complain_of_fault(&events[index], &fault, complaints);
            }
        }
        assert(flag == quarantine_after(members, rounds + 1).contains(event));
        assert(complaints.deep_view() =~= start.union(gathered_first(list, share, index + 1)));
        next.push(flag);
        index = index + 1;
    }
    proof {
        gathered_whole(list, share);
    }
    next
}

fn complain_of_fault(event: &ReducerEvent, fault: &RelationFault, complaints: &mut SortedSet<ReducerDiagnostic>)
    requires
        revision_of(event.deep_view()) is Some,
    ensures
        final(complaints).deep_view() == old(complaints).deep_view().insert(
            fault_diagnostic(event.deep_view(), fault.deep_view()),
        ),
{
    if let ReducerPayload::ContextRevisionAdded { space_id: _, context_id: _, revision } = &event.payload {
        let text = revision.revision_id.to_string();
        let message = joined4(
            "context revision ",
            text.as_str(),
            " has an invalid relation: ",
            fault.reason.as_str(),
        );
        add_event_diagnostic(complaints, fault.code, text.as_str(), event.event_id, message);
    }
}

/// Quarantines revisions with refused relations, round by round until a round adds nothing.
pub fn validate_context_relations(
    events: &Vec<ReducerEvent>,
    grounded: &Vec<bool>,
    complaints: &mut SortedSet<ReducerDiagnostic>,
) -> (quarantined: Vec<bool>)
    requires
        flags_are(
            grounded@,
            events.deep_view(),
            |event: ReducerEventView| grounded_revision(events.deep_view().to_multiset(), event),
        ),
    ensures
        flags_are(
            quarantined@,
            events.deep_view(),
            |event: ReducerEventView| quarantine(events.deep_view().to_multiset()).contains(event),
        ),
        final(complaints).deep_view() == old(complaints).deep_view().union(
            gathered(
                events.deep_view().to_multiset(),
                |event: ReducerEventView| relation_complaints(events.deep_view().to_multiset(), event),
            ),
        ),
{
    let ghost list = events.deep_view();
    let ghost members = list.to_multiset();
    let ghost start = complaints.deep_view();
    let ghost mut rounds: nat = 0;
    let mut quarantined = no_flags(events.len());
    proof {
        assert(start =~= start.union(
            gathered(members, |event: ReducerEventView| earlier_complaints(members, 0, event)),
        ));
    }
    loop
        invariant
            start == old(complaints).deep_view(),
            list == events.deep_view(),
            members == list.to_multiset(),
            flags_are(
                grounded@,
                events.deep_view(),
                |event: ReducerEventView| grounded_revision(events.deep_view().to_multiset(), event),
            ),
            flags_are(
                quarantined@,
                events.deep_view(),
                |event: ReducerEventView| quarantine_after(events.deep_view().to_multiset(), rounds).contains(event),
            ),
            complaints.deep_view() == start.union(
                gathered(members, |event: ReducerEventView| earlier_complaints(members, rounds, event)),
            ),
        decreases unflagged(quarantined@),
    {
        let next = quarantine_round(events, grounded, &quarantined, Ghost(rounds), complaints);
        proof {
            assert forall|i: int| 0 <= i < quarantined@.len() && quarantined@[i] implies #[trigger] next@[i] by {
                quarantine_grows(members, rounds, 1, list[i]);
            }
            unflagged_falls(quarantined@, next@);
            earlier_complaints_add_up(members, rounds, start, complaints.deep_view());
        }
        if same_flags(&quarantined, &next) {
            proof {
                assert forall|event: ReducerEventView| !newly_quarantined(
                    members,
                    quarantine_after(members, rounds),
                    event,
                ) by {
                    if newly_quarantined(members, quarantine_after(members, rounds), event) {
                        let i = place_in(list, event);
                        assert(next@[i] == quarantine_after(members, rounds + 1).contains(list[i]));
                        assert(quarantined@[i] == quarantine_after(members, rounds).contains(list[i]));
                    }
                }
                settled(members, rounds);
                assert(forall|i: int|
                    0 <= i < list.len() ==> #[trigger] quarantined@[i] == quarantine(members).contains(list[i]));
                assert(complaints.deep_view() == start.union(
                    gathered(members, |event: ReducerEventView| relation_complaints(members, event)),
                ));
            }
            return quarantined;
        }
        quarantined = next;
        proof {
            rounds = rounds + 1;
        }
    }
}

proof fn earlier_complaints_add_up(
    events: Multiset<ReducerEventView>,
    rounds: nat,
    start: Set<ReducerDiagnosticView>,
    now: Set<ReducerDiagnosticView>,
)
    requires
        now == start.union(
            gathered(events, |event: ReducerEventView| earlier_complaints(events, rounds, event)),
        ).union(gathered(events, |event: ReducerEventView| round_complaint(events, rounds, event))),
    ensures
        now == start.union(
            gathered(events, |event: ReducerEventView| earlier_complaints(events, rounds + 1, event)),
        ),
{
    let earlier = |event: ReducerEventView| earlier_complaints(events, rounds, event);
    let round = |event: ReducerEventView| round_complaint(events, rounds, event);
    let all = |event: ReducerEventView| earlier_complaints(events, rounds + 1, event);
    assert forall|event: ReducerEventView| #[trigger] events.contains(event) implies all(event) == earlier(event).union(
        round(event),
    ) by {
        let whole = earlier_complaints(events, rounds + 1, event);
        let parts = earlier_complaints(events, rounds, event).union(round_complaint(events, rounds, event));
        assert forall|complaint: ReducerDiagnosticView| whole.contains(complaint) implies parts.contains(complaint) by {
            let k = choose|k: nat| k < rounds + 1 && #[trigger] round_complaint(events, k, event).contains(complaint);
            assert(k < rounds || k == rounds);
        }
        assert(whole =~= parts);
    }
    gathered_union(events, earlier, round, all);
    assert(now =~= start.union(gathered(events, all)));
}

/// What holds once a round adds nothing.
proof fn settled(events: Multiset<ReducerEventView>, rounds: nat)
    requires
        forall|event: ReducerEventView| !newly_quarantined(events, quarantine_after(events, rounds), event),
    ensures
        quarantine(events) == quarantine_after(events, rounds),
        gathered(events, |event: ReducerEventView| earlier_complaints(events, rounds + 1, event)) == gathered(
            events,
            |event: ReducerEventView| relation_complaints(events, event),
        ),
{
    assert forall|event: ReducerEventView| quarantine(events).contains(event) == quarantine_after(
        events,
        rounds,
    ).contains(event) by {
        if quarantine(events).contains(event) {
            let other = choose|other: nat| #[trigger] quarantine_after(events, other).contains(event);
            if other < rounds {
                quarantine_grows(events, other, (rounds - other) as nat, event);
            } else {
                quarantine_settles(events, rounds, (other - rounds) as nat);
            }
        }
    }
    assert(quarantine(events) =~= quarantine_after(events, rounds));
    let earlier = |event: ReducerEventView| earlier_complaints(events, rounds + 1, event);
    let all = |event: ReducerEventView| relation_complaints(events, event);
    assert forall|event: ReducerEventView| #[trigger] events.contains(event) implies earlier(event) == all(event) by {
        let some = earlier_complaints(events, rounds + 1, event);
        let every = relation_complaints(events, event);
        assert forall|complaint: ReducerDiagnosticView| every.contains(complaint) implies some.contains(complaint) by {
            let k = choose|k: nat| #[trigger] round_complaint(events, k, event).contains(complaint);
            if k >= rounds {
                quarantine_settles(events, rounds, (k - rounds) as nat);
            }
            assert(k < rounds + 1);
        }
        assert(some =~= every);
    }
    gathered_same(events, earlier, all);
}

} // verus!
