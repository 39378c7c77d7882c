//! Grouped graphs of immutable nodes: which nodes are broken, grounded, cyclic, or heads.

use vstd::multiset::Multiset;
use vstd::prelude::*;

use crate::gather::{is_member, place_in};
use crate::ids::EventId;
use crate::value::Value;

verus! {

/// One node: it belongs to a group, and names parents that must belong to the same group.
#[derive(Clone, Debug, PartialEq, Eq)]
pub struct DagNode {
    pub id: u128,
    pub group: u128,
    pub event_id: EventId,
    pub parents: Vec<u128>,
}

/// The model of [`DagNode`].
pub struct DagNodeView {
    pub id: u128,
    pub group: u128,
    pub event_id: EventId,
    pub parents: Seq<u128>,
}

impl DeepView for DagNode {
    type V = DagNodeView;

    open spec fn deep_view(&self) -> DagNodeView {
        DagNodeView {
            id: self.id.deep_view(),
            group: self.group.deep_view(),
            event_id: self.event_id.deep_view(),
            parents: self.parents.deep_view(),
        }
    }
}

impl Value for DagNode {
    fn copied(&self) -> (copy: Self) {
        DagNode {
            id: self.id.copied(),
            group: self.group.copied(),
            event_id: self.event_id.copied(),
            parents: self.parents.copied(),
        }
    }

    fn same(&self, other: &Self) -> (equal: bool) {
        self.id.same(&other.id)
            && self.group.same(&other.group)
            && self.event_id.same(&other.event_id)
            && self.parents.same(&other.parents)
    }
}

/// Whether a node answers to an identity that another node names as a parent.
pub open spec fn answers(node: DagNodeView, child: DagNodeView, parent: u128) -> bool {
    node.id == parent && node.group == child.group
}

/// Whether a parent is known in the group of its child.
pub open spec fn is_known(nodes: Set<DagNodeView>, child: DagNodeView, parent: u128) -> bool {
    exists|node: DagNodeView| #[trigger] nodes.contains(node) && answers(node, child, parent)
}

/// Whether a missing parent is reached in fewer than `depth` steps.
pub open spec fn broken_within(nodes: Set<DagNodeView>, depth: nat, node: DagNodeView) -> bool
    decreases depth, 0nat,
{
    depth > 0 && exists|i: int|
        0 <= i < node.parents.len() && parent_broken(nodes, (depth - 1) as nat, node, #[trigger] node.parents[i])
}

/// Whether a parent is missing, or reaches a missing one in fewer than `depth` steps.
pub open spec fn parent_broken(nodes: Set<DagNodeView>, depth: nat, child: DagNodeView, parent: u128) -> bool
    decreases depth, 1nat,
{
    !is_known(nodes, child, parent) || exists|node: DagNodeView| #[trigger]
        nodes.contains(node) && answers(node, child, parent) && broken_within(nodes, depth, node)
}

/// Whether every chain of parents ends in fewer than `depth` steps.
pub open spec fn grounded_within(nodes: Set<DagNodeView>, depth: nat, node: DagNodeView) -> bool
    decreases depth, 0nat,
{
    depth > 0 && forall|i: int|
        0 <= i < node.parents.len() ==> parent_grounded(nodes, (depth - 1) as nat, node, #[trigger] node.parents[i])
}

/// Whether a parent is known and its chains end in fewer than `depth` steps.
pub open spec fn parent_grounded(nodes: Set<DagNodeView>, depth: nat, child: DagNodeView, parent: u128) -> bool
    decreases depth, 1nat,
{
    exists|node: DagNodeView| #[trigger]
        nodes.contains(node) && answers(node, child, parent) && grounded_within(nodes, depth, node)
}

/// Whether a node has a missing or cross-group parent, directly or not.
pub open spec fn is_broken(nodes: Set<DagNodeView>, node: DagNodeView) -> bool {
    exists|depth: nat| #[trigger] broken_within(nodes, depth, node)
}

/// Whether a node rests on known nodes only, without a cycle.
pub open spec fn is_grounded(nodes: Set<DagNodeView>, node: DagNodeView) -> bool {
    exists|depth: nat| #[trigger] grounded_within(nodes, depth, node)
}

/// Whether a grounded node of the group names this one as a parent.
pub open spec fn is_referenced(nodes: Set<DagNodeView>, node: DagNodeView) -> bool {
    exists|child: DagNodeView| #[trigger]
        nodes.contains(child) && is_grounded(nodes, child) && child.group == node.group && child.parents.contains(
            node.id,
        )
}

/// Whether a node is grounded and no grounded node names it as a parent.
pub open spec fn is_head(nodes: Set<DagNodeView>, node: DagNodeView) -> bool {
    is_grounded(nodes, node) && !is_referenced(nodes, node)
}

/// The nodes of a list in which a place may be empty.
pub open spec fn node_set(list: Seq<Option<DagNodeView>>) -> Set<DagNodeView> {
    Set::new(|node: DagNodeView| list.contains(Some(node)))
}

/// The nodes that the members of a multiset contribute.
pub open spec fn nodes_among<E>(members: Multiset<E>, node: spec_fn(E) -> Option<DagNodeView>) -> Set<DagNodeView> {
    Set::new(
        |found: DagNodeView| exists|member: E| #[trigger] members.contains(member) && node(member) == Some(found),
    )
}

/// Whether a list holds, place by place, the nodes that the members of another contribute.
pub open spec fn nodes_are<E>(
    nodes: Seq<Option<DagNodeView>>,
    list: Seq<E>,
    node: spec_fn(E) -> Option<DagNodeView>,
) -> bool {
    &&& nodes.len() == list.len()
    &&& forall|i: int| 0 <= i < list.len() ==> #[trigger] nodes[i] == node(list[i])
}

/// The nodes do not depend on the order of the members.
pub proof fn node_sets_agree<E>(
    nodes: Seq<Option<DagNodeView>>,
    list: Seq<E>,
    node: spec_fn(E) -> Option<DagNodeView>,
)
    requires
        nodes_are(nodes, list, node),
    ensures
        node_set(nodes) == nodes_among(list.to_multiset(), node),
{
    let left = node_set(nodes);
    let right = nodes_among(list.to_multiset(), node);
    assert forall|found: DagNodeView| left.contains(found) == right.contains(found) by {
        if left.contains(found) {
            let i = choose|i: int| 0 <= i < nodes.len() && nodes[i] == Some(found);
            is_member(list, i);
            assert(node(list[i]) == Some(found));
        }
        if right.contains(found) {
            let member = choose|member: E| #[trigger]
                list.to_multiset().contains(member) && node(member) == Some(found);
            let i = place_in(list, member);
            assert(nodes[i] == Some(found));
        }
    }
    assert(left =~= right);
}

/// Whether flags tell, place by place, which nodes have a property.
pub open spec fn flags_tell(
    flags: Seq<bool>,
    list: Seq<Option<DagNodeView>>,
    property: spec_fn(DagNodeView) -> bool,
) -> bool {
    &&& flags.len() == list.len()
    &&& forall|i: int|
        0 <= i < list.len() ==> #[trigger] flags[i] == (list[i] is Some && property(list[i]->Some_0))
}

/// The number of places that are not flagged.
pub open spec fn unflagged(flags: Seq<bool>) -> nat
    decreases flags.len(),
{
    if flags.len() == 0 {
        0
    } else {
        unflagged(flags.drop_last()) + if flags.last() {
            0nat
        } else {
            1
        }
    }
}

/// Flags that are only added make the unflagged places fewer.
pub proof fn unflagged_falls(before: Seq<bool>, after: Seq<bool>)
    requires
        before.len() == after.len(),
        forall|i: int| 0 <= i < before.len() && before[i] ==> #[trigger] after[i],
    ensures
        unflagged(after) <= unflagged(before),
        before != after ==> unflagged(after) < unflagged(before),
    decreases before.len(),
{
    if before.len() > 0 {
        unflagged_falls(before.drop_last(), after.drop_last());
        if before.drop_last() == after.drop_last() && before.last() == after.last() {
            assert(before =~= before.drop_last().push(before.last()));
            assert(after =~= after.drop_last().push(after.last()));
        }
        assert(before.last() ==> after[before.len() - 1]);
    } else {
        assert(before =~= after);
    }
}

/// Whether a parent has no node in the group of the child, or a flagged one.
fn names_broken_parent(
    nodes: &Vec<Option<DagNode>>,
    flags: &Vec<bool>,
    child: &DagNode,
    parent: u128,
) -> (found: bool)
    requires
        flags@.len() == nodes@.len(),
    ensures
        found == (!is_known(node_set(nodes.deep_view()), child.deep_view(), parent) || exists|j: int|
            0 <= j < nodes@.len() && (#[trigger] nodes.deep_view()[j]) is Some && answers(
                nodes.deep_view()[j]->Some_0,
                child.deep_view(),
                parent,
            ) && flags@[j]),
{
    let ghost list = nodes.deep_view();
    let ghost model = child.deep_view();
    let mut known = false;
    let mut index: usize = 0;
    while index < nodes.len()
        invariant
            index <= nodes@.len(),
            flags@.len() == nodes@.len(),
            list == nodes.deep_view(),
            model == child.deep_view(),
            known ==> is_known(node_set(list), model, parent),
            forall|j: int|
                0 <= j < index
                    && (#[trigger] list[j]) is Some
                    && answers(list[j]->Some_0, model, parent) ==> !flags@[j]
                    && known,
        decreases nodes@.len() - index,
    {
        assert(list[index as int] == nodes@[index as int].deep_view());
        if let Some(node) = &nodes[index] {
            if node.id == parent && node.group == child.group {
                proof {
                    assert(list.contains(Some(node.deep_view())));
                    assert(node_set(list).contains(node.deep_view()));
                }
                known = true;
                if flags[index] {
                    return true;
                }
            }
        }
        index = index + 1;
    }
    proof {
        if is_known(node_set(list), model, parent) {
            let node = choose|node: DagNodeView| #[trigger]
                node_set(list).contains(node) && answers(node, model, parent);
            let j = choose|j: int| 0 <= j < list.len() && list[j] == Some(node);
            assert(list[j] is Some);
        }
    }
    !known
}

/// Whether a parent has a flagged node in the group of the child.
fn names_flagged_parent(
    nodes: &Vec<Option<DagNode>>,
    flags: &Vec<bool>,
    child: &DagNode,
    parent: u128,
) -> (found: bool)
    requires
        flags@.len() == nodes@.len(),
    ensures
        found == exists|j: int|
            0 <= j < nodes@.len() && (#[trigger] nodes.deep_view()[j]) is Some && answers(
                nodes.deep_view()[j]->Some_0,
                child.deep_view(),
                parent,
            ) && flags@[j],
{
    let ghost list = nodes.deep_view();
    let ghost model = child.deep_view();
    let mut index: usize = 0;
    while index < nodes.len()
        invariant
            index <= nodes@.len(),
            flags@.len() == nodes@.len(),
            list == nodes.deep_view(),
            model == child.deep_view(),
            forall|j: int|
                0 <= j < index
                    && (#[trigger] list[j]) is Some
                    && answers(list[j]->Some_0, model, parent) ==> !flags@[j],
        decreases nodes@.len() - index,
    {
        assert(list[index as int] == nodes@[index as int].deep_view());
        if let Some(node) = &nodes[index] {
            if node.id == parent && node.group == child.group && flags[index] {
                return true;
            }
        }
        index = index + 1;
    }
    false
}

/// What one pass over the parents finds: some parent is broken, given the flags.
spec fn breaks(list: Seq<Option<DagNodeView>>, flags: Seq<bool>, child: DagNodeView) -> bool {
    exists|k: int| 0 <= k < child.parents.len() && parent_breaks(list, flags, child, #[trigger] child.parents[k])
}

spec fn parent_breaks(list: Seq<Option<DagNodeView>>, flags: Seq<bool>, child: DagNodeView, parent: u128) -> bool {
    !is_known(node_set(list), child, parent) || parent_flagged(list, flags, child, parent)
}

spec fn parent_flagged(list: Seq<Option<DagNodeView>>, flags: Seq<bool>, child: DagNodeView, parent: u128) -> bool {
    exists|j: int|
        0 <= j < list.len() && (#[trigger] list[j]) is Some && answers(list[j]->Some_0, child, parent) && flags[j]
}

/// What one pass over the parents finds: every parent is flagged.
spec fn rests(list: Seq<Option<DagNodeView>>, flags: Seq<bool>, child: DagNodeView) -> bool {
    forall|k: int| 0 <= k < child.parents.len() ==> parent_flagged(list, flags, child, #[trigger] child.parents[k])
}

fn has_broken_parent(nodes: &Vec<Option<DagNode>>, flags: &Vec<bool>, child: &DagNode) -> (found: bool)
    requires
        flags@.len() == nodes@.len(),
    ensures
        found == breaks(nodes.deep_view(), flags@, child.deep_view()),
{
    let ghost list = nodes.deep_view();
    let ghost model = child.deep_view();
    let mut index: usize = 0;
    while index < child.parents.len()
        invariant
            index <= child.parents@.len(),
            flags@.len() == nodes@.len(),
            list == nodes.deep_view(),
            model == child.deep_view(),
            forall|k: int| 0 <= k < index ==> !parent_breaks(list, flags@, model, #[trigger] model.parents[k]),
        decreases child.parents@.len() - index,
    {
        assert(model.parents[index as int] == child.parents@[index as int]);
        if names_broken_parent(nodes, flags, child, child.parents[index]) {
            assert(parent_breaks(list, flags@, model, model.parents[index as int]));
            return true;
        }
        index = index + 1;
    }
    assert(model.parents.len() == child.parents@.len());
    false
}

fn rests_on_flagged(nodes: &Vec<Option<DagNode>>, flags: &Vec<bool>, child: &DagNode) -> (found: bool)
    requires
        flags@.len() == nodes@.len(),
    ensures
        found == rests(nodes.deep_view(), flags@, child.deep_view()),
{
    let ghost list = nodes.deep_view();
    let ghost model = child.deep_view();
    let mut index: usize = 0;
    while index < child.parents.len()
        invariant
            index <= child.parents@.len(),
            flags@.len() == nodes@.len(),
            list == nodes.deep_view(),
            model == child.deep_view(),
            forall|k: int| 0 <= k < index ==> parent_flagged(list, flags@, model, #[trigger] model.parents[k]),
        decreases child.parents@.len() - index,
    {
        assert(model.parents[index as int] == child.parents@[index as int]);
        if !names_flagged_parent(nodes, flags, child, child.parents[index]) {
            assert(!parent_flagged(list, flags@, model, model.parents[index as int]));
            return false;
        }
        index = index + 1;
    }
    assert(model.parents.len() == child.parents@.len());
    true
}

/// One pass: flags every node that `breaks`, and keeps the flags there were.
fn break_once(nodes: &Vec<Option<DagNode>>, flags: &Vec<bool>) -> (next: Vec<bool>)
    requires
        flags@.len() == nodes@.len(),
    ensures
        next@.len() == nodes@.len(),
        forall|i: int|
            0 <= i < nodes@.len() ==> #[trigger] next@[i] == (flags@[i] || (nodes.deep_view()[i] is Some && breaks(
                nodes.deep_view(),
                flags@,
                nodes.deep_view()[i]->Some_0,
            ))),
{
    let ghost list = nodes.deep_view();
    let mut next: Vec<bool> = Vec::new();
    let mut index: usize = 0;
    while index < nodes.len()
        invariant
            index <= nodes@.len(),
            flags@.len() == nodes@.len(),
            next@.len() == index,
            list == nodes.deep_view(),
            forall|i: int|
                0 <= i < index ==> #[trigger] next@[i] == (flags@[i] || (list[i] is Some && breaks(
                    list,
                    flags@,
                    list[i]->Some_0,
                ))),
        decreases nodes@.len() - index,
    {
        assert(list[index as int] == nodes@[index as int].deep_view());
        let mut flagged = flags[index];
        if !flagged {
            if let Some(node) = &nodes[index] {
                flagged = has_broken_parent(nodes, flags, node);
            }
        }
        next.push(flagged);
        index = index + 1;
    }
    next
}

/// One pass: flags every node that `rests`, and keeps the flags there were.
fn ground_once(nodes: &Vec<Option<DagNode>>, flags: &Vec<bool>) -> (next: Vec<bool>)
    requires
        flags@.len() == nodes@.len(),
    ensures
        next@.len() == nodes@.len(),
        forall|i: int|
            0 <= i < nodes@.len() ==> #[trigger] next@[i] == (flags@[i] || (nodes.deep_view()[i] is Some && rests(
                nodes.deep_view(),
                flags@,
                nodes.deep_view()[i]->Some_0,
            ))),
{
    let ghost list = nodes.deep_view();
    let mut next: Vec<bool> = Vec::new();
    let mut index: usize = 0;
    while index < nodes.len()
        invariant
            index <= nodes@.len(),
            flags@.len() == nodes@.len(),
            next@.len() == index,
            list == nodes.deep_view(),
            forall|i: int|
                0 <= i < index ==> #[trigger] next@[i] == (flags@[i] || (list[i] is Some && rests(
                    list,
                    flags@,
                    list[i]->Some_0,
                ))),
        decreases nodes@.len() - index,
    {
        assert(list[index as int] == nodes@[index as int].deep_view());
        let mut flagged = flags[index];
        if !flagged {
            if let Some(node) = &nodes[index] {
                flagged = rests_on_flagged(nodes, flags, node);
            }
        }
        next.push(flagged);
        index = index + 1;
    }
    next
}

/// As many unset flags as there are places.
pub fn no_flags(count: usize) -> (flags: Vec<bool>)
    ensures
        flags@.len() == count,
        forall|i: int| 0 <= i < count ==> !#[trigger] flags@[i],
{
    let mut flags: Vec<bool> = Vec::new();
    let mut index: usize = 0;
    while index < count
        invariant
            index <= count,
            flags@.len() == index,
            forall|i: int| 0 <= i < index ==> !#[trigger] flags@[i],
        decreases count - index,
    {
        flags.push(false);
        index = index + 1;
    }
    flags
}

/// Whether two lists of flags agree.
pub fn same_flags(left: &Vec<bool>, right: &Vec<bool>) -> (equal: bool)
    requires
        left@.len() == right@.len(),
    ensures
        equal == (left@ == right@),
{
    let mut index: usize = 0;
    while index < left.len()
        invariant
            index <= left@.len(),
            left@.len() == right@.len(),
            forall|i: int| 0 <= i < index ==> left@[i] == right@[i],
        decreases left@.len() - index,
    {
        if left[index] != right[index] {
            return false;
        }
        index = index + 1;
    }
    assert(left@ =~= right@);
    true
}

proof fn flagged_parents_break(list: Seq<Option<DagNodeView>>, flags: Seq<bool>, child: DagNodeView)
    requires
        flags.len() == list.len(),
        forall|i: int| 0 <= i < list.len()
            && #[trigger] flags[i] ==> list[i] is Some
            && is_broken(node_set(list), list[i]->Some_0),
        breaks(list, flags, child),
    ensures
        is_broken(node_set(list), child),
{
    let nodes = node_set(list);
    let k = choose|k: int| 0 <= k < child.parents.len()
        && parent_breaks(list, flags, child, #[trigger] child.parents[k]);
    let parent = child.parents[k];
    if !is_known(nodes, child, parent) {
        assert(parent_broken(nodes, 0, child, child.parents[k]));
        assert(broken_within(nodes, 1, child));
    } else {
        let j = choose|j: int|
            0 <= j < list.len()
                && (#[trigger] list[j]) is Some
                && answers(list[j]->Some_0, child, parent)
                && flags[j];
        let node = list[j]->Some_0;
        assert(nodes.contains(node)) by {
            assert(list.contains(Some(node)));
        }
        let depth = choose|depth: nat| #[trigger] broken_within(nodes, depth, node);
        assert(parent_broken(nodes, depth, child, child.parents[k]));
        assert(broken_within(nodes, depth + 1, child));
    }
}

proof fn broken_are_flagged(list: Seq<Option<DagNodeView>>, flags: Seq<bool>, depth: nat, i: int)
    requires
        flags.len() == list.len(),
        forall|i: int| 0 <= i < list.len()
            && (#[trigger] list[i]) is Some
            && breaks(list, flags, list[i]->Some_0) ==> flags[i],
        0 <= i < list.len(),
        list[i] is Some,
        broken_within(node_set(list), depth, list[i]->Some_0),
    ensures
        flags[i],
    decreases depth,
{
    let nodes = node_set(list);
    let child = list[i]->Some_0;
    let k = choose|k: int|
        0 <= k < child.parents.len() && parent_broken(nodes, (depth - 1) as nat, child, #[trigger] child.parents[k]);
    let parent = child.parents[k];
    if is_known(nodes, child, parent) {
        let node = choose|node: DagNodeView| #[trigger]
            nodes.contains(node) && answers(node, child, parent) && broken_within(nodes, (depth - 1) as nat, node);
        let j = choose|j: int| 0 <= j < list.len() && list[j] == Some(node);
        broken_are_flagged(list, flags, (depth - 1) as nat, j);
        assert(parent_flagged(list, flags, child, parent));
    }
    assert(parent_breaks(list, flags, child, child.parents[k]));
    assert(breaks(list, flags, child));
}

/// Which nodes are broken, place by place.
pub fn broken_flags(nodes: &Vec<Option<DagNode>>) -> (flags: Vec<bool>)
    ensures
        flags_tell(flags@, nodes.deep_view(), |node: DagNodeView| is_broken(node_set(nodes.deep_view()), node)),
{
    let ghost list = nodes.deep_view();
    let mut flags = no_flags(nodes.len());
    loop
        invariant
            flags@.len() == nodes@.len(),
            list == nodes.deep_view(),
            forall|i: int|
                0 <= i < list.len() && #[trigger] flags@[i] ==> list[i] is Some && is_broken(
                    node_set(list),
                    list[i]->Some_0,
                ),
        decreases unflagged(flags@),
    {
        let next = break_once(nodes, &flags);
        proof {
            assert forall|i: int| 0 <= i < list.len() && #[trigger] next@[i] implies list[i] is Some && is_broken(
                node_set(list),
                list[i]->Some_0,
            ) by {
                if !flags@[i] {
                    flagged_parents_break(list, flags@, list[i]->Some_0);
                }
            }
            unflagged_falls(flags@, next@);
        }
        if same_flags(&flags, &next) {
            proof {
                assert forall|i: int| 0 <= i < list.len() && (#[trigger] list[i]) is Some && breaks(
                    list,
                    flags@,
                    list[i]->Some_0,
                ) implies flags@[i] by {
                    assert(next@[i]);
                }
                assert forall|i: int| 0 <= i < list.len() implies #[trigger] flags@[i] == (list[i] is Some
                    && is_broken(node_set(list), list[i]->Some_0)) by {
                    if list[i] is Some && is_broken(node_set(list), list[i]->Some_0) {
                        let depth = choose|depth: nat| #[trigger]
                            broken_within(node_set(list), depth, list[i]->Some_0);
                        broken_are_flagged(list, flags@, depth, i);
                    }
                }
            }
            return flags;
        }
        flags = next;
    }
}

/// What rests within some depth rests within any greater one.
pub proof fn grounded_deeper(nodes: Set<DagNodeView>, depth: nat, node: DagNodeView)
    requires
        grounded_within(nodes, depth, node),
    ensures
        grounded_within(nodes, depth + 1, node),
    decreases depth,
{
    assert forall|i: int| 0 <= i < node.parents.len() implies parent_grounded(
        nodes,
        depth,
        node,
        #[trigger] node.parents[i],
    ) by {
        assert(parent_grounded(nodes, (depth - 1) as nat, node, node.parents[i]));
        let parent = choose|parent: DagNodeView| #[trigger]
            nodes.contains(parent) && answers(parent, node, node.parents[i]) && grounded_within(
                nodes,
                (depth - 1) as nat,
                parent,
            );
        grounded_deeper(nodes, (depth - 1) as nat, parent);
    }
}

proof fn flagged_parents_ground(list: Seq<Option<DagNodeView>>, flags: Seq<bool>, depth: nat, child: DagNodeView)
    requires
        flags.len() == list.len(),
        forall|i: int|
            0 <= i < list.len() && #[trigger] flags[i] ==> list[i] is Some && grounded_within(
                node_set(list),
                depth,
                list[i]->Some_0,
            ),
        rests(list, flags, child),
    ensures
        grounded_within(node_set(list), depth + 1, child),
{
    let nodes = node_set(list);
    assert forall|k: int| 0 <= k < child.parents.len() implies parent_grounded(
        nodes,
        depth,
        child,
        #[trigger] child.parents[k],
    ) by {
        assert(parent_flagged(list, flags, child, child.parents[k]));
        let j = choose|j: int|
            0 <= j < list.len() && (#[trigger] list[j]) is Some && answers(list[j]->Some_0, child, child.parents[k])
                && flags[j];
        assert(nodes.contains(list[j]->Some_0)) by {
            assert(list.contains(Some(list[j]->Some_0)));
        }
    }
}

proof fn grounded_are_flagged(list: Seq<Option<DagNodeView>>, flags: Seq<bool>, depth: nat, i: int)
    requires
        flags.len() == list.len(),
        forall|i: int| 0 <= i < list.len()
            && (#[trigger] list[i]) is Some
            && rests(list, flags, list[i]->Some_0) ==> flags[i],
        0 <= i < list.len(),
        list[i] is Some,
        grounded_within(node_set(list), depth, list[i]->Some_0),
    ensures
        flags[i],
    decreases depth,
{
    let nodes = node_set(list);
    let child = list[i]->Some_0;
    assert forall|k: int| 0 <= k < child.parents.len() implies parent_flagged(
        list,
        flags,
        child,
        #[trigger] child.parents[k],
    ) by {
        assert(parent_grounded(nodes, (depth - 1) as nat, child, child.parents[k]));
        let node = choose|node: DagNodeView| #[trigger]
            nodes.contains(node) && answers(node, child, child.parents[k]) && grounded_within(
                nodes,
                (depth - 1) as nat,
                node,
            );
        let j = choose|j: int| 0 <= j < list.len() && list[j] == Some(node);
        grounded_are_flagged(list, flags, (depth - 1) as nat, j);
        assert(list[j] is Some);
    }
}

/// Which nodes are grounded, place by place.
pub fn grounded_flags(nodes: &Vec<Option<DagNode>>) -> (flags: Vec<bool>)
    ensures
        flags_tell(flags@, nodes.deep_view(), |node: DagNodeView| is_grounded(node_set(nodes.deep_view()), node)),
{
    let ghost list = nodes.deep_view();
    let mut flags = no_flags(nodes.len());
    let ghost mut depth: nat = 0;
    loop
        invariant
            flags@.len() == nodes@.len(),
            list == nodes.deep_view(),
            forall|i: int|
                0 <= i < list.len() && #[trigger] flags@[i] ==> list[i] is Some && grounded_within(
                    node_set(list),
                    depth,
                    list[i]->Some_0,
                ),
        decreases unflagged(flags@),
    {
        let next = ground_once(nodes, &flags);
        proof {
            assert forall|i: int| 0 <= i < list.len() && #[trigger] next@[i] implies list[i] is Some && grounded_within(
                node_set(list),
                depth + 1,
                list[i]->Some_0,
            ) by {
                if flags@[i] {
                    grounded_deeper(node_set(list), depth, list[i]->Some_0);
                } else {
                    flagged_parents_ground(list, flags@, depth, list[i]->Some_0);
                }
            }
            unflagged_falls(flags@, next@);
        }
        if same_flags(&flags, &next) {
            proof {
                assert forall|i: int| 0 <= i < list.len() && (#[trigger] list[i]) is Some && rests(
                    list,
                    flags@,
                    list[i]->Some_0,
                ) implies flags@[i] by {
                    assert(next@[i]);
                }
                assert forall|i: int| 0 <= i < list.len() implies #[trigger] flags@[i] == (list[i] is Some
                    && is_grounded(node_set(list), list[i]->Some_0)) by {
                    if list[i] is Some && is_grounded(node_set(list), list[i]->Some_0) {
                        let other = choose|other: nat| #[trigger]
                            grounded_within(node_set(list), other, list[i]->Some_0);
                        grounded_are_flagged(list, flags@, other, i);
                    }
                }
            }
            return flags;
        }
        flags = next;
        proof {
            depth = depth + 1;
        }
    }
}

fn names(parents: &Vec<u128>, id: u128) -> (found: bool)
    ensures
        found == parents.deep_view().contains(id),
{
    crate::checks::is_among(parents, &id)
}

/// Which nodes are heads, place by place.
pub fn head_flags(nodes: &Vec<Option<DagNode>>, grounded: &Vec<bool>) -> (flags: Vec<bool>)
    requires
        flags_tell(grounded@, nodes.deep_view(), |node: DagNodeView| is_grounded(node_set(nodes.deep_view()), node)),
    ensures
        flags_tell(flags@, nodes.deep_view(), |node: DagNodeView| is_head(node_set(nodes.deep_view()), node)),
{
    let ghost list = nodes.deep_view();
    let mut flags: Vec<bool> = Vec::new();
    let mut index: usize = 0;
    while index < nodes.len()
        invariant
            index <= nodes@.len(),
            flags@.len() == index,
            list == nodes.deep_view(),
            flags_tell(grounded@, list, |node: DagNodeView| is_grounded(node_set(list), node)),
            forall|i: int|
                0 <= i < index ==> #[trigger] flags@[i] == (
                    list[i] is Some && is_head(node_set(list), list[i]->Some_0)
                ),
        decreases nodes@.len() - index,
    {
        assert(list[index as int] == nodes@[index as int].deep_view());
        let mut head = grounded[index];
        assert(head ==> list[index as int] is Some);
        if head {
            if let Some(node) = &nodes[index] {
                head = !is_named(nodes, grounded, node);
            }
        }
        flags.push(head);
        index = index + 1;
    }
    flags
}

fn is_named(nodes: &Vec<Option<DagNode>>, grounded: &Vec<bool>, node: &DagNode) -> (named: bool)
    requires
        flags_tell(grounded@, nodes.deep_view(), |node: DagNodeView| is_grounded(node_set(nodes.deep_view()), node)),
    ensures
        named == is_referenced(node_set(nodes.deep_view()), node.deep_view()),
{
    let ghost list = nodes.deep_view();
    let ghost model = node.deep_view();
    let mut index: usize = 0;
    while index < nodes.len()
        invariant
            index <= nodes@.len(),
            list == nodes.deep_view(),
            model == node.deep_view(),
            flags_tell(grounded@, list, |node: DagNodeView| is_grounded(node_set(list), node)),
            forall|j: int|
                0 <= j < index && (#[trigger] list[j]) is Some ==> !(is_grounded(node_set(list), list[j]->Some_0)
                    && list[j]->Some_0.group == model.group && list[j]->Some_0.parents.contains(model.id)),
        decreases nodes@.len() - index,
    {
        assert(list[index as int] == nodes@[index as int].deep_view());
        if let Some(child) = &nodes[index] {
            assert(grounded@[index as int] == is_grounded(node_set(list), child.deep_view()));
            if grounded[index] && child.group == node.group && names(&child.parents, node.id) {
                proof {
                    assert(list.contains(Some(child.deep_view())));
                    assert(node_set(list).contains(child.deep_view()));
                }
                return true;
            }
        }
        index = index + 1;
    }
    proof {
        if is_referenced(node_set(list), model) {
            let child = choose|child: DagNodeView| #[trigger]
                node_set(list).contains(child) && is_grounded(node_set(list), child) && child.group == model.group
                    && child.parents.contains(model.id);
            let j = choose|j: int| 0 <= j < list.len() && list[j] == Some(child);
            assert(list[j] is Some);
        }
    }
    false
}

/// A grounded node is not broken, where no two nodes of a group share an identity.
pub proof fn grounded_is_not_broken(nodes: Set<DagNodeView>, depth: nat, other: nat, node: DagNodeView)
    requires
        forall|a: DagNodeView, b: DagNodeView| #[trigger]
            nodes.contains(a) && #[trigger] nodes.contains(b) && a.id == b.id && a.group == b.group ==> a == b,
        grounded_within(nodes, depth, node),
    ensures
        !broken_within(nodes, other, node),
    decreases depth,
{
    if broken_within(nodes, other, node) {
        let i = choose|i: int|
            0 <= i < node.parents.len() && parent_broken(nodes, (other - 1) as nat, node, #[trigger] node.parents[i]);
        assert(parent_grounded(nodes, (depth - 1) as nat, node, node.parents[i]));
        let parent = choose|parent: DagNodeView| #[trigger]
            nodes.contains(parent) && answers(parent, node, node.parents[i]) && grounded_within(
                nodes,
                (depth - 1) as nat,
                parent,
            );
        assert(is_known(nodes, node, node.parents[i]));
        let broken = choose|broken: DagNodeView| #[trigger]
            nodes.contains(broken) && answers(broken, node, node.parents[i]) && broken_within(
                nodes,
                (other - 1) as nat,
                broken,
            );
        assert(broken == parent);
        grounded_is_not_broken(nodes, (depth - 1) as nat, (other - 1) as nat, parent);
    }
}

} // verus!
