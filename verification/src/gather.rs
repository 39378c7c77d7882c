//! What the members of a multiset contribute together, whatever their order.

use vstd::multiset::Multiset;
use vstd::prelude::*;

verus! {

/// Everything that some member contributes.
pub open spec fn gathered<E, D>(members: Multiset<E>, share: spec_fn(E) -> Set<D>) -> Set<D> {
    Set::new(|item: D| exists|member: E| #[trigger] members.contains(member) && share(member).contains(item))
}

/// Everything that one of the first members of a list contributes.
pub open spec fn gathered_first<E, D>(list: Seq<E>, share: spec_fn(E) -> Set<D>, count: int) -> Set<D> {
    Set::new(|item: D| exists|i: int| 0 <= i < count && share(#[trigger] list[i]).contains(item))
}

/// The set of what is there.
pub open spec fn only<D>(item: Option<D>) -> Set<D> {
    match item {
        Some(item) => Set::empty().insert(item),
        None => Set::empty(),
    }
}

/// A list and its multiset have the same members.
pub proof fn same_members<E>(list: Seq<E>, member: E)
    ensures
        list.to_multiset().contains(member) == list.contains(member),
{
    list.to_multiset_ensures();
    assert(list.contains(member) <==> list.to_multiset().count(member) > 0);
}

/// What stands in a list is a member of its multiset.
pub proof fn is_member<E>(list: Seq<E>, at: int)
    requires
        0 <= at < list.len(),
    ensures
        list.to_multiset().contains(list[at]),
{
    same_members(list, list[at]);
    assert(list.contains(list[at]));
}

/// Where a member of the multiset of a list stands.
pub proof fn place_in<E>(list: Seq<E>, member: E) -> (at: int)
    requires
        list.to_multiset().contains(member),
    ensures
        0 <= at < list.len(),
        list[at] == member,
{
    same_members(list, member);
    choose|at: int| 0 <= at < list.len() && list[at] == member
}

pub proof fn gathered_none<E, D>(list: Seq<E>, share: spec_fn(E) -> Set<D>)
    ensures
        gathered_first(list, share, 0) == Set::<D>::empty(),
{
    assert(gathered_first(list, share, 0) =~= Set::<D>::empty());
}

pub proof fn gathered_next<E, D>(list: Seq<E>, share: spec_fn(E) -> Set<D>, count: int)
    requires
        0 <= count < list.len(),
    ensures
        gathered_first(list, share, count + 1) == gathered_first(list, share, count).union(share(list[count])),
{
    let all = gathered_first(list, share, count + 1);
    let parts = gathered_first(list, share, count).union(share(list[count]));
    assert forall|item: D| all.contains(item) == parts.contains(item) by {
        if all.contains(item) {
            let i = choose|i: int| 0 <= i < count + 1 && share(#[trigger] list[i]).contains(item);
            if i < count {
                assert(gathered_first(list, share, count).contains(item));
            }
        }
        if gathered_first(list, share, count).contains(item) {
            let i = choose|i: int| 0 <= i < count && share(#[trigger] list[i]).contains(item);
            assert(0 <= i < count + 1);
        }
        if share(list[count]).contains(item) {
            assert(0 <= count < count + 1);
        }
    }
    assert(all =~= parts);
}

pub proof fn gathered_whole<E, D>(list: Seq<E>, share: spec_fn(E) -> Set<D>)
    ensures
        gathered_first(list, share, list.len() as int) == gathered(list.to_multiset(), share),
{
    let firsts = gathered_first(list, share, list.len() as int);
    let all = gathered(list.to_multiset(), share);
    assert forall|item: D| firsts.contains(item) == all.contains(item) by {
        if firsts.contains(item) {
            let i = choose|i: int| 0 <= i < list.len() && share(#[trigger] list[i]).contains(item);
            is_member(list, i);
        }
        if all.contains(item) {
            let member = choose|member: E| #[trigger]
                list.to_multiset().contains(member) && share(member).contains(item);
            let i = place_in(list, member);
            assert(share(list[i]).contains(item));
        }
    }
    assert(firsts =~= all);
}

/// Finite shares gather a finite set.
pub proof fn gathered_is_finite<E, D>(members: Multiset<E>, share: spec_fn(E) -> Set<D>)
    requires
        forall|member: E| #[trigger] members.contains(member) ==> share(member).finite(),
    ensures
        gathered(members, share).finite(),
{
    let shares = members.dom().map(share);
    members.dom().lemma_map_finite(share);
    assert forall|part: Set<D>| shares.contains(part) implies #[trigger] part.finite() by {
        let member = choose|member: E| members.dom().contains(member) && part == share(member);
        assert(members.contains(member));
    }
    shares.lemma_flatten_finite();
    assert(gathered(members, share) =~= shares.flatten()) by {
        assert forall|item: D| gathered(members, share).contains(item) == shares.flatten().contains(item) by {
            if gathered(members, share).contains(item) {
                let member = choose|member: E| #[trigger] members.contains(member) && share(member).contains(item);
                assert(members.dom().contains(member));
                assert(shares.contains(share(member)));
            }
            if shares.flatten().contains(item) {
                let part = choose|part: Set<D>| #[trigger] shares.contains(part) && part.contains(item);
                let member = choose|member: E| members.dom().contains(member) && part == share(member);
                assert(members.contains(member));
            }
        }
    }
}

/// Shares that are the same gather the same.
pub proof fn gathered_same<E, D>(members: Multiset<E>, left: spec_fn(E) -> Set<D>, right: spec_fn(E) -> Set<D>)
    requires
        forall|member: E| #[trigger] members.contains(member) ==> left(member) == right(member),
    ensures
        gathered(members, left) == gathered(members, right),
{
    assert(gathered(members, left) =~= gathered(members, right));
}

/// Shares that are unions gather a union.
pub proof fn gathered_union<E, D>(
    members: Multiset<E>,
    left: spec_fn(E) -> Set<D>,
    right: spec_fn(E) -> Set<D>,
    both: spec_fn(E) -> Set<D>,
)
    requires
        forall|member: E| #[trigger] members.contains(member) ==> both(member) == left(member).union(right(member)),
    ensures
        gathered(members, both) == gathered(members, left).union(gathered(members, right)),
{
    assert(gathered(members, both) =~= gathered(members, left).union(gathered(members, right)));
}

/// The map of every key and value that some member contributes.
pub open spec fn keyed<E, K, V>(members: Multiset<E>, entry: spec_fn(E) -> Option<(K, V)>) -> Map<K, V> {
    Map::new(
        |key: K| exists|member: E| #[trigger] members.contains(member) && gives_key(entry, member, key),
        |key: K| choose|value: V| #[trigger] is_given(members, entry, key, value),
    )
}

/// Whether some member contributes a value for a key.
pub open spec fn is_given<E, K, V>(
    members: Multiset<E>,
    entry: spec_fn(E) -> Option<(K, V)>,
    key: K,
    value: V,
) -> bool {
    exists|member: E| #[trigger] members.contains(member) && entry(member) == Some((key, value))
}

/// Whether a member contributes a value for a key.
pub open spec fn gives_key<E, K, V>(entry: spec_fn(E) -> Option<(K, V)>, member: E, key: K) -> bool {
    entry(member) is Some && entry(member)->Some_0.0 == key
}

/// Members that contribute the same key contribute the same value.
pub open spec fn one_value_each<E, K, V>(members: Multiset<E>, entry: spec_fn(E) -> Option<(K, V)>) -> bool {
    forall|a: E, b: E| #[trigger]
        members.contains(a) && #[trigger] members.contains(b) && entry(a) is Some && entry(b) is Some
            && entry(a)->Some_0.0 == entry(b)->Some_0.0 ==> entry(a) == entry(b)
}

/// Whether a map holds exactly what the first members of a list contribute.
pub open spec fn holds_first<E, K, V>(
    map: Map<K, V>,
    list: Seq<E>,
    entry: spec_fn(E) -> Option<(K, V)>,
    count: int,
) -> bool {
    &&& forall|i: int|
        0 <= i < count && entry(#[trigger] list[i]) is Some ==> map.contains_key(entry(list[i])->Some_0.0)
            && map[entry(list[i])->Some_0.0] == entry(list[i])->Some_0.1
    &&& forall|key: K| #[trigger] map.contains_key(key) ==> exists|i: int|
        0 <= i < count && gives_key(entry, #[trigger] list[i], key)
}

/// One more contribution to a map.
pub open spec fn with_entry<K, V>(map: Map<K, V>, entry: Option<(K, V)>) -> Map<K, V> {
    match entry {
        Some((key, value)) => map.insert(key, value),
        None => map,
    }
}

pub proof fn holds_next<E, K, V>(
    map: Map<K, V>,
    list: Seq<E>,
    entry: spec_fn(E) -> Option<(K, V)>,
    count: int,
)
    requires
        0 <= count < list.len(),
        one_value_each(list.to_multiset(), entry),
        holds_first(map, list, entry, count),
    ensures
        holds_first(with_entry(map, entry(list[count])), list, entry, count + 1),
{
    let after = with_entry(map, entry(list[count]));
    assert forall|i: int| 0 <= i < count + 1 && entry(#[trigger] list[i]) is Some implies after.contains_key(
        entry(list[i])->Some_0.0,
    ) && after[entry(list[i])->Some_0.0] == entry(list[i])->Some_0.1 by {
        is_member(list, i);
        is_member(list, count);
    }
    assert forall|key: K| #[trigger] after.contains_key(key) implies exists|i: int|
        0 <= i < count + 1 && gives_key(entry, #[trigger] list[i], key) by {
        if map.contains_key(key) {
            let i = choose|i: int| 0 <= i < count && gives_key(entry, #[trigger] list[i], key);
            assert(0 <= i < count + 1 && gives_key(entry, list[i], key));
        } else {
            assert(gives_key(entry, list[count], key));
        }
    }
}

pub proof fn holds_whole<E, K, V>(map: Map<K, V>, list: Seq<E>, entry: spec_fn(E) -> Option<(K, V)>)
    requires
        one_value_each(list.to_multiset(), entry),
        holds_first(map, list, entry, list.len() as int),
    ensures
        map == keyed(list.to_multiset(), entry),
{
    let members = list.to_multiset();
    let all = keyed(members, entry);
    assert forall|key: K| map.contains_key(key) == all.contains_key(key) by {
        if map.contains_key(key) {
            let i = choose|i: int| 0 <= i < list.len() && gives_key(entry, #[trigger] list[i], key);
            is_member(list, i);
        }
        if all.contains_key(key) {
            let member = choose|member: E| #[trigger] members.contains(member) && gives_key(entry, member, key);
            let i = place_in(list, member);
            assert(entry(list[i]) is Some);
        }
    }
    assert forall|key: K| #[trigger] map.contains_key(key) implies map[key] == all[key] by {
        let i = choose|i: int| 0 <= i < list.len() && gives_key(entry, #[trigger] list[i], key);
        is_member(list, i);
        keyed_value(members, entry, list[i]);
    }
    assert(map =~= all);
}

/// What a member contributes stands in the map.
pub proof fn keyed_value<E, K, V>(members: Multiset<E>, entry: spec_fn(E) -> Option<(K, V)>, member: E)
    requires
        one_value_each(members, entry),
        members.contains(member),
        entry(member) is Some,
    ensures
        keyed(members, entry).contains_key(entry(member)->Some_0.0),
        keyed(members, entry)[entry(member)->Some_0.0] == entry(member)->Some_0.1,
{
    let (key, value) = entry(member)->Some_0;
    assert(gives_key(entry, member, key));
    assert(is_given(members, entry, key, value));
    let chosen = choose|value: V| #[trigger] is_given(members, entry, key, value);
    let other = choose|other: E| #[trigger] members.contains(other) && entry(other) == Some((key, chosen));
    assert(entry(other) == entry(member));
}

/// Whether flags tell, place by place, which members of a list have a property.
pub open spec fn flags_are<E>(flags: Seq<bool>, list: Seq<E>, property: spec_fn(E) -> bool) -> bool {
    &&& flags.len() == list.len()
    &&& forall|i: int| 0 <= i < list.len() ==> #[trigger] flags[i] == property(list[i])
}

/// Whether more than one member, counted as often as it occurs, has a property.
pub open spec fn many<E>(members: Multiset<E>, property: spec_fn(E) -> bool) -> bool {
    exists|a: E, b: E| #[trigger]
        members.contains(a) && #[trigger] members.remove(a).contains(b) && property(a) && property(b)
}

/// Two places with a property make it occur more than once.
pub proof fn many_at<E>(list: Seq<E>, property: spec_fn(E) -> bool, i: int, j: int)
    requires
        0 <= i < j < list.len(),
        property(list[i]),
        property(list[j]),
    ensures
        many(list.to_multiset(), property),
{
    let a = list[i];
    let b = list[j];
    let members = list.to_multiset();
    list.to_multiset_ensures();
    is_member(list, i);
    assert(list.remove(i).to_multiset() =~= members.remove(a));
    assert(list.remove(i)[j - 1] == b);
    is_member(list.remove(i), j - 1);
    assert(members.remove(a).contains(b));
}

/// A property that occurs more than once has two places.
pub proof fn places_of_many<E>(list: Seq<E>, property: spec_fn(E) -> bool) -> (places: (int, int))
    requires
        many(list.to_multiset(), property),
    ensures
        0 <= places.0 < places.1 < list.len(),
        property(list[places.0]),
        property(list[places.1]),
{
    let members = list.to_multiset();
    let (a, b) = choose|a: E, b: E| #[trigger]
        members.contains(a) && #[trigger] members.remove(a).contains(b) && property(a) && property(b);
    let i = place_in(list, a);
    list.to_multiset_ensures();
    assert(list.remove(i).to_multiset() =~= members.remove(a));
    let k = place_in(list.remove(i), b);
    let j = if k < i {
        k
    } else {
        k + 1
    };
    assert(list[j] == b);
    if i < j {
        (i, j)
    } else {
        (j, i)
    }
}

/// Different members with a property make it occur more than once.
pub proof fn different_are_many<E>(members: Multiset<E>, property: spec_fn(E) -> bool, a: E, b: E)
    requires
        members.contains(a),
        members.contains(b),
        a != b,
        property(a),
        property(b),
    ensures
        many(members, property),
{
    assert(members.remove(a).contains(b));
}

} // verus!
