//! Sorted sets and maps, modelled by mathematical sets and maps.

use vstd::prelude::*;

use crate::json::{items_json, Json};
use crate::order::{
    ascending, insert_unique, is_listed, is_set_listing, set_listing, set_listing_is_unique, Ordered,
};
use crate::value::{take_next, Value};

verus! {

/// A set that lists its items in ascending order.
#[derive(Debug, PartialEq, Eq)]
pub struct SortedSet<T: Ordered> {
    items: Vec<T>,
}

/// One more item in a list is one more item in its set.
pub proof fn pushed_set<V>(list: Seq<V>, item: V)
    ensures
        list.push(item).to_set() == list.to_set().insert(item),
{
    let longer = list.push(item);
    assert forall|other: V| longer.to_set().contains(other) == list.to_set().insert(item).contains(other) by {
        if longer.contains(other) {
            let i = choose|i: int| 0 <= i < longer.len() && longer[i] == other;
            if i < list.len() {
                assert(list[i] == other);
            }
        }
        if list.contains(other) {
            let i = choose|i: int| 0 <= i < list.len() && list[i] == other;
            assert(longer[i] == other);
        }
        if other == item {
            assert(longer[list.len() as int] == other);
        }
    }
    assert(longer.to_set() =~= list.to_set().insert(item));
}

impl<T: Ordered> SortedSet<T> {
    #[verifier::type_invariant]
    spec fn is_sorted(self) -> bool {
        ascending::<T>(self.items.deep_view())
    }

    /// The items in ascending order.
    pub closed spec fn listing(self) -> Seq<T::V> {
        self.items.deep_view()
    }

    /// The empty set.
    pub fn new() -> (set: Self)
        ensures
            set.deep_view() == Set::<T::V>::empty(),
    {
        let items: Vec<T> = Vec::new();
        assert(items.deep_view() =~= Seq::empty());
        let set = SortedSet { items };
        assert(set.deep_view() =~= Set::empty());
        set
    }

    /// The set of one item.
    pub fn of(item: T) -> (set: Self)
        ensures
            set.deep_view() == Set::<T::V>::empty().insert(item.deep_view()),
    {
        let mut set = Self::new();
        set.insert(item);
        set
    }

    /// The set of the items of a list.
    pub fn of_list(list: &Vec<T>) -> (set: Self)
        ensures
            set.deep_view() == list.deep_view().to_set(),
    {
        let ghost model = list.deep_view();
        let mut set = Self::new();
        let mut index: usize = 0;
        assert(set.deep_view() =~= model.take(0).to_set());
        while index < list.len()
            invariant
                index <= list@.len(),
                model == list.deep_view(),
                set.deep_view() == model.take(index as int).to_set(),
            decreases list@.len() - index,
        {
            proof {
                assert(model[index as int] == list@[index as int].deep_view());
                take_next(model, index as int);
                pushed_set(model.take(index as int), model[index as int]);
            }
            set.insert(list[index].copied());
            index = index + 1;
        }
        assert(model.take(index as int) =~= model);
        set
    }

    /// Adds an item; tells whether it was new.
    pub fn insert(&mut self, item: T) -> (inserted: bool)
        ensures
            final(self).deep_view() == old(self).deep_view().insert(item.deep_view()),
            inserted == !old(self).deep_view().contains(item.deep_view()),
    {
        proof {
            use_type_invariant(&*self);
        }
        let mut items: Vec<T> = Vec::new();
        assert(items.deep_view() =~= Seq::empty());
        std::mem::swap(&mut self.items, &mut items);
        let inserted = insert_unique(&mut items, item);
        std::mem::swap(&mut self.items, &mut items);
        inserted
    }

    /// Whether an item is in the set.
    pub fn contains(&self, item: &T) -> (found: bool)
        ensures
            found == self.deep_view().contains(item.deep_view()),
    {
        proof {
            use_type_invariant(self);
        }
        is_listed(&self.items, item)
    }

    /// The number of items.
    pub fn len(&self) -> (count: usize)
        ensures
            count == self.listing().len(),
            count == self.deep_view().len(),
            self.deep_view().finite(),
            ascending::<T>(self.listing()),
            self.listing().to_set() == self.deep_view(),
    {
        proof {
            use_type_invariant(self);
            crate::order::ascending_has_no_duplicates::<T>(self.items.deep_view());
            self.items.deep_view().unique_seq_to_set();
        }
        self.items.len()
    }

    /// Whether the set has no items.
    pub fn is_empty(&self) -> (empty: bool)
        ensures
            empty == (self.deep_view() == Set::<T::V>::empty()),
    {
        let empty = self.items.len() == 0;
        proof {
            if empty {
                assert(self.items.deep_view() =~= Seq::empty());
                assert(self.deep_view() =~= Set::empty());
            } else {
                assert(self.items.deep_view()[0] == self.items@[0].deep_view());
                assert(self.deep_view().contains(self.items@[0].deep_view()));
            }
        }
        empty
    }

    /// The items in ascending order.
    pub fn items(&self) -> (items: &Vec<T>)
        ensures
            items.deep_view() == set_listing::<T>(self.deep_view()),
            ascending::<T>(items.deep_view()),
            items.deep_view().to_set() == self.deep_view(),
    {
        proof {
            use_type_invariant(self);
            is_set_listing::<T>(self.items.deep_view());
        }
        &self.items
    }

    /// The item at a position in ascending order.
    pub fn at(&self, index: usize) -> (item: &T)
        requires
            index < self.listing().len(),
        ensures
            item.deep_view() == self.listing()[index as int],
            self.deep_view().contains(item.deep_view()),
    {
        assert(self.items.deep_view()[index as int] == self.items@[index as int].deep_view());
        &self.items[index]
    }
}

impl<T: Ordered> DeepView for SortedSet<T> {
    type V = Set<T::V>;

    closed spec fn deep_view(&self) -> Set<T::V> {
        self.items.deep_view().to_set()
    }
}

impl<T: Ordered> Value for SortedSet<T> {
    fn copied(&self) -> (copy: Self) {
        proof {
            use_type_invariant(self);
        }
        SortedSet { items: self.items.copied() }
    }

    fn same(&self, other: &Self) -> (equal: bool) {
        proof {
            use_type_invariant(self);
            use_type_invariant(other);
            if self.items.deep_view().to_set() == other.items.deep_view().to_set() {
                set_listing_is_unique::<T>(self.items.deep_view(), other.items.deep_view());
            }
        }
        self.items.same(&other.items)
    }
}

impl<T: Ordered> Clone for SortedSet<T> {
    fn clone(&self) -> (copy: Self)
        ensures
            copy.deep_view() == self.deep_view(),
    {
        self.copied()
    }
}

/// A map that lists its keys in ascending order.
#[derive(Debug, PartialEq, Eq)]
pub struct SortedMap<K: Ordered, V: Value> {
    entries: Vec<(K, Box<V>)>,
}

/// The keys of entries.
pub open spec fn keys_of<K, V>(entries: Seq<(K, V)>) -> Seq<K> {
    Seq::new(entries.len(), |i: int| entries[i].0)
}

/// The map that entries with different keys make up.
pub open spec fn map_of<K, V>(entries: Seq<(K, V)>) -> Map<K, V> {
    Map::new(|key: K| keys_of(entries).contains(key), |key: K| entries[keys_of(entries).index_of(key)].1)
}

proof fn map_of_entry<K, V>(entries: Seq<(K, V)>, at: int)
    requires
        keys_of(entries).no_duplicates(),
        0 <= at < entries.len(),
    ensures
        map_of(entries).contains_key(entries[at].0),
        map_of(entries)[entries[at].0] == entries[at].1,
{
    let keys = keys_of(entries);
    assert(keys[at] == entries[at].0);
    assert(keys.contains(entries[at].0));
    let other = keys.index_of(entries[at].0);
    assert(keys[other] == entries[at].0);
    assert(other == at);
}

proof fn map_of_replaced<K, V>(entries: Seq<(K, V)>, at: int, value: V)
    requires
        keys_of(entries).no_duplicates(),
        0 <= at < entries.len(),
    ensures
        keys_of(entries.update(at, (entries[at].0, value))) == keys_of(entries),
        map_of(entries.update(at, (entries[at].0, value))) == map_of(entries).insert(entries[at].0, value),
{
    let after = entries.update(at, (entries[at].0, value));
    assert(keys_of(after) =~= keys_of(entries));
    assert forall|key: K| keys_of(entries).contains(key) implies #[trigger] map_of(after)[key] == map_of(entries).insert(
        entries[at].0,
        value,
    )[key] by {
        let i = keys_of(entries).index_of(key);
        assert(keys_of(entries)[i] == key);
        map_of_entry(entries, i);
        map_of_entry(after, i);
        assert(entries[i].0 == key);
        if i != at {
            assert(keys_of(entries)[at] != key);
        }
    }
    assert(keys_of(entries)[at] == entries[at].0);
    assert(map_of(after) =~= map_of(entries).insert(entries[at].0, value));
}

proof fn map_of_inserted<K, V>(entries: Seq<(K, V)>, at: int, key: K, value: V)
    requires
        keys_of(entries).no_duplicates(),
        !keys_of(entries).contains(key),
        0 <= at <= entries.len(),
    ensures
        keys_of(entries.insert(at, (key, value))) == keys_of(entries).insert(at, key),
        keys_of(entries.insert(at, (key, value))).no_duplicates(),
        map_of(entries.insert(at, (key, value))) == map_of(entries).insert(key, value),
{
    let after = entries.insert(at, (key, value));
    let before_keys = keys_of(entries);
    let after_keys = keys_of(after);
    assert(after_keys =~= before_keys.insert(at, key));
    assert forall|i: int, j: int| 0 <= i < after_keys.len()
        && 0 <= j < after_keys.len()
        && i != j implies after_keys[i]
        != after_keys[j] by {
        let a = if i < at {
            i
        } else {
            i - 1
        };
        let b = if j < at {
            j
        } else {
            j - 1
        };
        if i != at {
            assert(after_keys[i] == before_keys[a]);
        }
        if j != at {
            assert(after_keys[j] == before_keys[b]);
        }
    }
    assert(after[at] == (key, value));
    map_of_entry(after, at);
    assert forall|other: K| after_keys.contains(other) == (other == key || before_keys.contains(other)) by {
        if after_keys.contains(other) {
            let i = after_keys.index_of(other);
            assert(after_keys[i] == other);
            if i < at {
                assert(before_keys[i] == other);
            } else if i > at {
                assert(before_keys[i - 1] == other);
            }
        }
        if before_keys.contains(other) {
            let i = before_keys.index_of(other);
            assert(before_keys[i] == other);
            if i < at {
                assert(after_keys[i] == other);
            } else {
                assert(after_keys[i + 1] == other);
            }
        }
        if other == key {
            assert(after_keys[at] == key);
        }
    }
    assert forall|other: K| before_keys.contains(other) implies #[trigger] map_of(after)[other] == map_of(entries)[other] by {
        let i = before_keys.index_of(other);
        assert(before_keys[i] == other);
        map_of_entry(entries, i);
        if i < at {
            assert(after[i] == entries[i]);
            map_of_entry(after, i);
        } else {
            assert(after[i + 1] == entries[i]);
            map_of_entry(after, i + 1);
        }
    }
    assert(map_of(after) =~= map_of(entries).insert(key, value));
}

impl<K: Ordered, V: Value> SortedMap<K, V> {
    #[verifier::type_invariant]
    spec fn is_sorted(self) -> bool {
        ascending::<K>(keys_of(self.entries.deep_view()))
    }

    /// The keys in ascending order.
    pub closed spec fn listing(self) -> Seq<K::V> {
        keys_of(self.entries.deep_view())
    }

    /// The empty map.
    pub fn new() -> (map: Self)
        ensures
            map.deep_view() == Map::<K::V, V::V>::empty(),
    {
        let entries: Vec<(K, Box<V>)> = Vec::new();
        assert(entries.deep_view() =~= Seq::empty());
        let map = SortedMap { entries };
        assert(map.deep_view() =~= Map::empty());
        map
    }

    fn position(&self, key: &K) -> (position: Option<usize>)
        ensures
            match position {
                Some(at) => at < self.entries@.len() && self.entries@[at as int].0.deep_view() == key.deep_view(),
                None => !keys_of(self.entries.deep_view()).contains(key.deep_view()),
            },
    {
        proof {
            use_type_invariant(self);
        }
        let ghost keys = keys_of(self.entries.deep_view());
        let ghost model = key.deep_view();
        let place = key_place(&self.entries, key);
        if place > 0 && self.entries[place - 1].0.same(key) {
            return Some(place - 1);
        }
        proof {
            assert forall|i: int| 0 <= i < keys.len() implies keys[i] != model by {
                assert(keys[i] == self.entries@[i].0.deep_view());
                K::order_laws(model, model, model);
                if i < place - 1 {
                    K::order_laws(keys[i], keys[place - 1], model);
                    assert(keys[place - 1] == self.entries@[place - 1].0.deep_view());
                }
            }
        }
        None
    }

    /// What a key is mapped to.
    pub fn get(&self, key: &K) -> (value: Option<&V>)
        ensures
            match value {
                Some(found) => self.deep_view().contains_key(key.deep_view()) && found.deep_view()
                    == self.deep_view()[key.deep_view()],
                None => !self.deep_view().contains_key(key.deep_view()),
            },
    {
        proof {
            use_type_invariant(self);
        }
        match self.position(key) {
            Some(at) => {
                proof {
                    crate::order::ascending_has_no_duplicates::<K>(keys_of(self.entries.deep_view()));
                    map_of_entry(self.entries.deep_view(), at as int);
                    assert(self.entries.deep_view()[at as int] == self.entries@[at as int].deep_view());
                }
                Some(&self.entries[at].1)
            },
            None => None,
        }
    }

    /// Whether a key is mapped.
    pub fn contains_key(&self, key: &K) -> (found: bool)
        ensures
            found == self.deep_view().contains_key(key.deep_view()),
    {
        match self.position(key) {
            Some(at) => {
                assert(self.entries.deep_view()[at as int] == self.entries@[at as int].deep_view());
                assert(keys_of(self.entries.deep_view())[at as int] == key.deep_view());
                true
            },
            None => false,
        }
    }

    /// The number of entries.
    pub fn len(&self) -> (count: usize)
        ensures
            count == self.listing().len(),
            ascending::<K>(self.listing()),
            self.listing().to_set() == self.deep_view().dom(),
    {
        proof {
            use_type_invariant(self);
            assert(self.listing().to_set() =~= self.deep_view().dom());
        }
        self.entries.len()
    }

    /// The key at a position in ascending order.
    pub fn key_at(&self, index: usize) -> (key: &K)
        requires
            index < self.listing().len(),
        ensures
            key.deep_view() == self.listing()[index as int],
            self.deep_view().contains_key(key.deep_view()),
    {
        assert(self.entries.deep_view()[index as int] == self.entries@[index as int].deep_view());
        assert(keys_of(self.entries.deep_view())[index as int] == self.entries@[index as int].0.deep_view());
        &self.entries[index].0
    }

    /// The value at a position in ascending order of keys.
    pub fn value_at(&self, index: usize) -> (value: &V)
        requires
            index < self.listing().len(),
        ensures
            value.deep_view() == self.deep_view()[self.listing()[index as int]],
    {
        proof {
            use_type_invariant(self);
            crate::order::ascending_has_no_duplicates::<K>(keys_of(self.entries.deep_view()));
            map_of_entry(self.entries.deep_view(), index as int);
            assert(self.entries.deep_view()[index as int] == self.entries@[index as int].deep_view());
        }
        &self.entries[index].1
    }

    /// Maps a key to a value, in place of what it was mapped to.
    pub fn insert(&mut self, key: K, value: V)
        ensures
            final(self).deep_view() == old(self).deep_view().insert(key.deep_view(), value.deep_view()),
    {
        proof {
            use_type_invariant(&*self);
        }
        let ghost before = self.entries.deep_view();
        let ghost keys = keys_of(before);
        let ghost k = key.deep_view();
        let ghost v = value.deep_view();
        proof {
            crate::order::ascending_has_no_duplicates::<K>(keys);
        }
        let position = self.position(&key);
        let mut entries: Vec<(K, Box<V>)> = Vec::new();
        assert(entries.deep_view() =~= Seq::empty());
        std::mem::swap(&mut self.entries, &mut entries);
        match position {
            Some(at) => {
                proof {
                    assert(before[at as int] == entries@[at as int].deep_view());
                    map_of_replaced(before, at as int, v);
                }
                replace_entry(&mut entries, at, key, value);
            },
            None => {
                let place = key_place(&entries, &key);
                proof {
                    map_of_inserted(before, place as int, k, v);
                    ascending_with::<K>(keys, place as int, k);
                }
                insert_entry(&mut entries, place, key, value);
            },
        }
        std::mem::swap(&mut self.entries, &mut entries);
    }
}

fn replace_entry<K: Ordered, V: Value>(entries: &mut Vec<(K, Box<V>)>, at: usize, key: K, value: V)
    requires
        at < old(entries)@.len(),
        keys_of(old(entries).deep_view()).no_duplicates(),
        ascending::<K>(keys_of(old(entries).deep_view())),
        old(entries)@[at as int].0.deep_view() == key.deep_view(),
    ensures
        final(entries).deep_view() == old(entries).deep_view().update(
            at as int,
            (key.deep_view(), value.deep_view()),
        ),
        ascending::<K>(keys_of(final(entries).deep_view())),
{
    let ghost before = entries.deep_view();
    let ghost k = key.deep_view();
    let ghost v = value.deep_view();
    entries[at] = (key, Box::new(value));
    proof {
        assert(before[at as int].0 == k);
        assert(entries.deep_view() =~= before.update(at as int, (k, v)));
        map_of_replaced(before, at as int, v);
    }
}

fn insert_entry<K: Ordered, V: Value>(entries: &mut Vec<(K, Box<V>)>, place: usize, key: K, value: V)
    requires
        place <= old(entries)@.len(),
        ascending::<K>(keys_of(old(entries).deep_view()).insert(place as int, key.deep_view())),
    ensures
        final(entries).deep_view() == old(entries).deep_view().insert(
            place as int,
            (key.deep_view(), value.deep_view()),
        ),
        ascending::<K>(keys_of(final(entries).deep_view())),
{
    let ghost before = entries.deep_view();
    let ghost k = key.deep_view();
    let ghost v = value.deep_view();
    entries.insert(place, (key, Box::new(value)));
    proof {
        assert(entries.deep_view() =~= before.insert(place as int, (k, v)));
        assert(keys_of(entries.deep_view()) =~= keys_of(before).insert(place as int, k));
    }
}

/// Where a key belongs: behind every key that does not come after it.
fn key_place<K: Ordered, V: Value>(entries: &Vec<(K, Box<V>)>, key: &K) -> (place: usize)
    requires
        ascending::<K>(keys_of(entries.deep_view())),
    ensures
        place <= entries@.len(),
        forall|i: int|
            place <= i < entries@.len() ==> K::below(key.deep_view(), #[trigger] keys_of(entries.deep_view())[i]),
        place > 0 ==> !K::below(key.deep_view(), keys_of(entries.deep_view())[place - 1]),
{
    let ghost keys = keys_of(entries.deep_view());
    let ghost model = key.deep_view();
    let mut low: usize = 0;
    let mut high: usize = entries.len();
    while low < high
        invariant
            low <= high <= entries@.len(),
            keys == keys_of(entries.deep_view()),
            model == key.deep_view(),
            ascending::<K>(keys),
            forall|i: int| 0 <= i < low ==> !K::below(model, #[trigger] keys[i]),
            forall|i: int| high <= i < keys.len() ==> K::below(model, #[trigger] keys[i]),
        decreases high - low,
    {
        let middle: usize = low + (high - low) / 2;
        let ghost pivot = keys[middle as int];
        assert(entries.deep_view()[middle as int] == entries@[middle as int].deep_view());
        assert(pivot == entries@[middle as int].0.deep_view());
        if key.is_below(&entries[middle].0) {
            assert forall|i: int| middle <= i < keys.len() implies K::below(model, #[trigger] keys[i]) by {
                K::order_laws(model, pivot, keys[i]);
            }
            high = middle;
        } else {
            assert forall|i: int| 0 <= i <= middle implies !K::below(model, #[trigger] keys[i]) by {
                K::order_laws(model, keys[i], pivot);
            }
            low = middle + 1;
        }
    }
    low
}

/// Inserting a new key where it belongs keeps keys ascending.
proof fn ascending_with<K: Ordered>(keys: Seq<K::V>, place: int, key: K::V)
    requires
        ascending::<K>(keys),
        !keys.contains(key),
        0 <= place <= keys.len(),
        forall|i: int| place <= i < keys.len() ==> K::below(key, #[trigger] keys[i]),
        place > 0 ==> !K::below(key, keys[place - 1]),
    ensures
        ascending::<K>(keys.insert(place, key)),
{
    let after = keys.insert(place, key);
    assert forall|i: int| 0 <= i < place implies K::below(#[trigger] keys[i], key) by {
        K::order_laws(keys[place - 1], key, key);
        assert(keys.contains(keys[place - 1]));
        if i < place - 1 {
            K::order_laws(keys[i], keys[place - 1], key);
        }
    }
    assert forall|i: int, j: int| 0 <= i < j < after.len() implies K::below(
        #[trigger] after[i],
        #[trigger] after[j],
    ) by {
        if j == place {
            assert(K::below(keys[i], key));
        } else if i == place {
            assert(K::below(key, keys[j - 1]));
        } else {
            let a = if i < place {
                i
            } else {
                i - 1
            };
            let b = if j < place {
                j
            } else {
                j - 1
            };
            assert(K::below(keys[a], keys[b]));
        }
    }
}

impl<K: Ordered, V: Value> DeepView for SortedMap<K, V> {
    type V = Map<K::V, V::V>;

    closed spec fn deep_view(&self) -> Map<K::V, V::V> {
        map_of(self.entries.deep_view())
    }
}

impl<K: Ordered, V: Value> Value for SortedMap<K, V> {
    fn copied(&self) -> (copy: Self) {
        proof {
            use_type_invariant(self);
        }
        SortedMap { entries: self.entries.copied() }
    }

    fn same(&self, other: &Self) -> (equal: bool) {
        proof {
            use_type_invariant(self);
            use_type_invariant(other);
            let left = self.entries.deep_view();
            let right = other.entries.deep_view();
            if map_of(left) == map_of(right) {
                assert(keys_of(left).to_set() =~= map_of(left).dom());
                assert(keys_of(right).to_set() =~= map_of(right).dom());
                set_listing_is_unique::<K>(keys_of(left), keys_of(right));
                crate::order::ascending_has_no_duplicates::<K>(keys_of(left));
                assert forall|i: int| 0 <= i < left.len() implies left[i] == right[i] by {
                    map_of_entry(left, i);
                    map_of_entry(right, i);
                    assert(keys_of(left)[i] == keys_of(right)[i]);
                }
                assert(left.len() == keys_of(left).len());
                assert(right.len() == keys_of(right).len());
                assert(left =~= right);
            }
        }
        self.entries.same(&other.entries)
    }
}

impl<K: Ordered, V: Value> Clone for SortedMap<K, V> {
    fn clone(&self) -> (copy: Self)
        ensures
            copy.deep_view() == self.deep_view(),
    {
        self.copied()
    }
}

impl<T: Ordered + Json> Json for SortedSet<T> {
    open spec fn json(model: Set<T::V>) -> Seq<char> {
        "["@ + items_json::<T>(set_listing::<T>(model)) + "]"@
    }

    fn write_json(&self, out: &mut String) {
        self.items().write_json(out);
    }
}

impl<T: Ordered> Default for SortedSet<T> {
    fn default() -> (set: Self)
        ensures
            set.deep_view() == Set::<T::V>::empty(),
    {
        Self::new()
    }
}

impl<K: Ordered, V: Value> Default for SortedMap<K, V> {
    fn default() -> (map: Self)
        ensures
            map.deep_view() == Map::<K::V, V::V>::empty(),
    {
        Self::new()
    }
}

} // verus!
