//! Total orders, sorted listings and sorted sets.

use vstd::multiset::Multiset;
use vstd::prelude::*;

use crate::value::Value;

verus! {

/// A value with a strict total order on its models.
pub trait Ordered: Value {
    /// Whether one model comes before another.
    spec fn below(left: Self::V, right: Self::V) -> bool;

    /// The order is strict, transitive and total.
    proof fn order_laws(a: Self::V, b: Self::V, c: Self::V)
        ensures
            !Self::below(a, a),
            Self::below(a, b) && Self::below(b, c) ==> Self::below(a, c),
            a == b || Self::below(a, b) || Self::below(b, a),
    ;

    /// Whether this value comes before another.
    fn is_below(&self, other: &Self) -> (result: bool)
        ensures
            result == Self::below(self.deep_view(), other.deep_view()),
    ;
}

/// Strictly ascending: sorted, and nothing occurs twice.
pub open spec fn ascending<T: Ordered>(models: Seq<T::V>) -> bool {
    forall|i: int, j: int| 0 <= i < j < models.len() ==> T::below(#[trigger] models[i], #[trigger] models[j])
}

/// Sorted, where the same model may occur more than once.
pub open spec fn nondescending<T: Ordered>(models: Seq<T::V>) -> bool {
    forall|i: int, j: int| 0 <= i < j < models.len() ==> !T::below(#[trigger] models[j], #[trigger] models[i])
}

/// The sorted listing of a multiset.
pub open spec fn sorted_listing<T: Ordered>(models: Multiset<T::V>) -> Seq<T::V> {
    choose|listing: Seq<T::V>| nondescending::<T>(listing) && listing.to_multiset() == models
}

/// The sorted listing of a finite set.
pub open spec fn set_listing<T: Ordered>(models: Set<T::V>) -> Seq<T::V> {
    choose|listing: Seq<T::V>| ascending::<T>(listing) && listing.to_set() == models
}

/// A sorted listing is determined by its multiset.
pub proof fn sorted_listing_is_unique<T: Ordered>(left: Seq<T::V>, right: Seq<T::V>)
    requires
        nondescending::<T>(left),
        nondescending::<T>(right),
        left.to_multiset() == right.to_multiset(),
    ensures
        left == right,
    decreases left.len(),
{
    left.to_multiset_ensures();
    right.to_multiset_ensures();
    assert(left.len() == right.len());
    if left.len() > 0 {
        let a = left.last();
        let b = right.last();
        assert(right.to_multiset().count(a) > 0) by {
            assert(left.contains(a));
        }
        assert(right.contains(a));
        let j = choose|j: int| 0 <= j < right.len() && right[j] == a;
        assert(left.to_multiset().count(b) > 0) by {
            assert(right.contains(b));
        }
        assert(left.contains(b));
        let i = choose|i: int| 0 <= i < left.len() && left[i] == b;
        T::order_laws(a, b, a);
        assert(a == b);
        assert(left.drop_last().push(a) =~= left);
        assert(right.drop_last().push(b) =~= right);
        left.drop_last().to_multiset_ensures();
        right.drop_last().to_multiset_ensures();
        assert(left.drop_last().to_multiset().insert(a) == left.to_multiset());
        assert(right.drop_last().to_multiset().insert(b) == right.to_multiset());
        assert(left.drop_last().to_multiset() =~= right.drop_last().to_multiset()) by {
            assert forall|v: T::V| left.drop_last().to_multiset().count(v) == right.drop_last().to_multiset().count(v) by {
                let l = left.drop_last().to_multiset();
                let r = right.drop_last().to_multiset();
                assert(l.insert(a).count(v) == r.insert(a).count(v));
            }
        }
        sorted_listing_is_unique::<T>(left.drop_last(), right.drop_last());
        assert(left =~= right);
    } else {
        assert(left =~= right);
    }
}

/// A strictly ascending listing is determined by its set.
pub proof fn set_listing_is_unique<T: Ordered>(left: Seq<T::V>, right: Seq<T::V>)
    requires
        ascending::<T>(left),
        ascending::<T>(right),
        left.to_set() == right.to_set(),
    ensures
        left == right,
    decreases left.len() + right.len(),
{
    if left.len() == 0 {
        if right.len() > 0 {
            assert(right.to_set().contains(right[0]));
            assert(left.to_set().contains(right[0]));
        }
        assert(left =~= right);
    } else if right.len() == 0 {
        assert(left.to_set().contains(left[0]));
        assert(right.to_set().contains(left[0]));
    } else {
        let a = left.last();
        let b = right.last();
        assert(left.to_set().contains(a));
        assert(right.to_set().contains(a));
        assert(right.to_set().contains(b));
        assert(left.to_set().contains(b));
        let j = choose|j: int| 0 <= j < right.len() && right[j] == a;
        let i = choose|i: int| 0 <= i < left.len() && left[i] == b;
        T::order_laws(a, b, a);
        assert(a == b);
        ascending_has_no_duplicates::<T>(left);
        ascending_has_no_duplicates::<T>(right);
        assert forall|v: T::V| left.drop_last().to_set().contains(v) == right.drop_last().to_set().contains(v) by {
            if left.drop_last().to_set().contains(v) {
                let k = choose|k: int| 0 <= k < left.drop_last().len() && left.drop_last()[k] == v;
                assert(left[k] == v);
                assert(left.to_set().contains(v));
                assert(right.to_set().contains(v));
                let m = choose|m: int| 0 <= m < right.len() && right[m] == v;
                assert(m != right.len() - 1);
                assert(right.drop_last()[m] == v);
            }
            if right.drop_last().to_set().contains(v) {
                let k = choose|k: int| 0 <= k < right.drop_last().len() && right.drop_last()[k] == v;
                assert(right[k] == v);
                assert(right.to_set().contains(v));
                assert(left.to_set().contains(v));
                let m = choose|m: int| 0 <= m < left.len() && left[m] == v;
                assert(m != left.len() - 1);
                assert(left.drop_last()[m] == v);
            }
        }
        assert(left.drop_last().to_set() =~= right.drop_last().to_set());
        set_listing_is_unique::<T>(left.drop_last(), right.drop_last());
        assert(left.drop_last().push(a) =~= left);
        assert(right.drop_last().push(b) =~= right);
    }
}

/// Nothing occurs twice in a strictly ascending listing.
pub proof fn ascending_has_no_duplicates<T: Ordered>(models: Seq<T::V>)
    requires
        ascending::<T>(models),
    ensures
        models.no_duplicates(),
{
    assert forall|i: int, j: int| 0 <= i < models.len() && 0 <= j < models.len() && i != j implies models[i]
        != models[j] by {
        T::order_laws(models[i], models[j], models[i]);
    }
}

/// Every list has its sorted listing.
pub proof fn sorted_listing_exists<T: Ordered>(models: Seq<T::V>)
    ensures
        nondescending::<T>(sorted_listing::<T>(models.to_multiset())),
        sorted_listing::<T>(models.to_multiset()).to_multiset() == models.to_multiset(),
    decreases models.len(),
{
    if models.len() == 0 {
        assert(nondescending::<T>(models) && models.to_multiset() == models.to_multiset());
    } else {
        let shorter = models.drop_last();
        let model = models.last();
        sorted_listing_exists::<T>(shorter);
        let sorted = sorted_listing::<T>(shorter.to_multiset());
        let place = place_behind::<T>(sorted, model);
        let listing = sorted.insert(place, model);
        vstd::seq_lib::to_multiset_insert(sorted, place, model);
        shorter.to_multiset_ensures();
        assert(shorter.push(model) =~= models);
        assert(models.to_multiset() == shorter.to_multiset().insert(model));
        assert forall|i: int, j: int| 0 <= i < j < listing.len() implies !T::below(
            #[trigger] listing[j],
            #[trigger] listing[i],
        ) by {
            let a = if i < place {
                i
            } else {
                i - 1
            };
            let b = if j < place {
                j
            } else {
                j - 1
            };
            if j == place {
                assert(!T::below(model, sorted[i]));
            } else if i == place {
                T::order_laws(model, sorted[b], model);
            } else {
                assert(!T::below(sorted[b], sorted[a]));
            }
        }
        assert(nondescending::<T>(listing) && listing.to_multiset() == models.to_multiset());
    }
}

/// Where a model belongs among sorted ones: behind everything that does not come after it.
proof fn place_behind<T: Ordered>(models: Seq<T::V>, model: T::V) -> (place: int)
    requires
        nondescending::<T>(models),
    ensures
        0 <= place <= models.len(),
        forall|i: int| 0 <= i < place ==> !T::below(model, #[trigger] models[i]),
        forall|i: int| place <= i < models.len() ==> T::below(model, #[trigger] models[i]),
    decreases models.len(),
{
    if models.len() == 0 {
        0
    } else if T::below(model, models.last()) {
        let shorter = models.drop_last();
        assert forall|i: int, j: int| 0 <= i < j < shorter.len() implies !T::below(
            #[trigger] shorter[j],
            #[trigger] shorter[i],
        ) by {
            assert(!T::below(models[j], models[i]));
        }
        let place = place_behind::<T>(shorter, model);
        assert forall|i: int| 0 <= i < place implies !T::below(model, #[trigger] models[i]) by {
            assert(!T::below(model, shorter[i]));
        }
        assert forall|i: int| place <= i < models.len() implies T::below(model, #[trigger] models[i]) by {
            if i < shorter.len() {
                assert(T::below(model, shorter[i]));
            }
        }
        place
    } else {
        let last = models.last();
        assert forall|i: int| 0 <= i < models.len() implies !T::below(model, #[trigger] models[i]) by {
            if i < models.len() - 1 && T::below(model, models[i]) {
                assert(!T::below(last, models[i]));
                T::order_laws(model, models[i], last);
                T::order_laws(models[i], last, last);
            }
        }
        models.len() as int
    }
}

/// A sorted listing of a multiset is `sorted_listing` of it.
pub proof fn is_sorted_listing<T: Ordered>(listing: Seq<T::V>)
    requires
        nondescending::<T>(listing),
    ensures
        listing == sorted_listing::<T>(listing.to_multiset()),
{
    let chosen = sorted_listing::<T>(listing.to_multiset());
    assert(nondescending::<T>(chosen) && chosen.to_multiset() == listing.to_multiset());
    sorted_listing_is_unique::<T>(listing, chosen);
}

/// A strictly ascending listing of a set is `set_listing` of it.
pub proof fn is_set_listing<T: Ordered>(listing: Seq<T::V>)
    requires
        ascending::<T>(listing),
    ensures
        listing == set_listing::<T>(listing.to_set()),
{
    let chosen = set_listing::<T>(listing.to_set());
    assert(ascending::<T>(chosen) && chosen.to_set() == listing.to_set());
    set_listing_is_unique::<T>(listing, chosen);
}

/// Where a model belongs among ascending ones.
proof fn place_among<T: Ordered>(models: Seq<T::V>, model: T::V) -> (place: int)
    requires
        ascending::<T>(models),
        !models.contains(model),
    ensures
        0 <= place <= models.len(),
        forall|i: int| 0 <= i < place ==> T::below(#[trigger] models[i], model),
        forall|i: int| place <= i < models.len() ==> T::below(model, #[trigger] models[i]),
    decreases models.len(),
{
    if models.len() == 0 {
        0
    } else {
        let last = models.last();
        assert(models.contains(last));
        T::order_laws(last, model, last);
        if T::below(last, model) {
            assert forall|i: int| 0 <= i < models.len() implies T::below(#[trigger] models[i], model) by {
                if i < models.len() - 1 {
                    T::order_laws(models[i], last, model);
                }
            }
            models.len() as int
        } else {
            let shorter = models.drop_last();
            assert(!shorter.contains(model)) by {
                if shorter.contains(model) {
                    let i = choose|i: int| 0 <= i < shorter.len() && shorter[i] == model;
                    assert(models[i] == model);
                }
            }
            let place = place_among::<T>(shorter, model);
            assert forall|i: int| 0 <= i < place implies T::below(#[trigger] models[i], model) by {
                assert(T::below(shorter[i], model));
            }
            assert forall|i: int| place <= i < models.len() implies T::below(model, #[trigger] models[i]) by {
                if i < shorter.len() {
                    assert(T::below(model, shorter[i]));
                }
            }
            place
        }
    }
}

/// Every finite set has its ascending listing.
pub proof fn listing_lists<T: Ordered>(models: Set<T::V>)
    requires
        models.finite(),
    ensures
        ascending::<T>(set_listing::<T>(models)),
        set_listing::<T>(models).to_set() == models,
    decreases models.len(),
{
    if models.len() == 0 {
        let empty = Seq::<T::V>::empty();
        assert(models =~= Set::empty());
        assert(empty.to_set() =~= models);
        assert(ascending::<T>(empty) && empty.to_set() == models);
    } else {
        let model = models.choose();
        let rest = models.remove(model);
        listing_lists::<T>(rest);
        let shorter = set_listing::<T>(rest);
        assert(!shorter.contains(model)) by {
            if shorter.contains(model) {
                assert(shorter.to_set().contains(model));
            }
        }
        let place = place_among::<T>(shorter, model);
        let listing = shorter.insert(place, model);
        assert forall|i: int, j: int| 0 <= i < j < listing.len() implies T::below(
            #[trigger] listing[i],
            #[trigger] listing[j],
        ) by {
            let a = if i < place {
                i
            } else {
                i - 1
            };
            let b = if j < place {
                j
            } else {
                j - 1
            };
            if j == place {
                assert(T::below(shorter[i], model));
            } else if i == place {
                assert(T::below(model, shorter[b]));
            } else {
                assert(T::below(shorter[a], shorter[b]));
            }
        }
        assert forall|other: T::V| listing.to_set().contains(other) == models.contains(other) by {
            if listing.contains(other) {
                let i = choose|i: int| 0 <= i < listing.len() && listing[i] == other;
                if i != place {
                    let a = if i < place {
                        i
                    } else {
                        i - 1
                    };
                    assert(shorter[a] == other);
                    assert(shorter.to_set().contains(other));
                }
            }
            if models.contains(other) {
                if other == model {
                    assert(listing[place] == other);
                } else {
                    assert(shorter.to_set().contains(other));
                    let a = choose|a: int| 0 <= a < shorter.len() && shorter[a] == other;
                    if a < place {
                        assert(listing[a] == other);
                    } else {
                        assert(listing[a + 1] == other);
                    }
                }
            }
        }
        assert(listing.to_set() =~= models);
        assert(ascending::<T>(listing) && listing.to_set() == models);
    }
}

/// Where a value belongs in a sorted list: behind everything that does not come after it.
fn place_of<T: Ordered>(sorted: &Vec<T>, value: &T) -> (place: usize)
    requires
        nondescending::<T>(sorted.deep_view()),
    ensures
        place <= sorted@.len(),
        forall|i: int| place <= i < sorted@.len() ==> T::below(value.deep_view(), #[trigger] sorted@[i].deep_view()),
        place > 0 ==> !T::below(value.deep_view(), sorted@[place - 1].deep_view()),
{
    let ghost models = sorted.deep_view();
    let ghost model = value.deep_view();
    let mut low: usize = 0;
    let mut high: usize = sorted.len();
    while low < high
        invariant
            low <= high <= sorted@.len(),
            models == sorted.deep_view(),
            model == value.deep_view(),
            nondescending::<T>(models),
            forall|i: int| 0 <= i < low ==> !T::below(model, #[trigger] models[i]),
            forall|i: int| high <= i < models.len() ==> T::below(model, #[trigger] models[i]),
        decreases high - low,
    {
        let middle: usize = low + (high - low) / 2;
        let ghost pivot = models[middle as int];
        assert(pivot == sorted@[middle as int].deep_view());
        if value.is_below(&sorted[middle]) {
            assert forall|i: int| middle <= i < models.len() implies T::below(model, #[trigger] models[i]) by {
                T::order_laws(pivot, models[i], models[i]);
                T::order_laws(model, pivot, models[i]);
            }
            high = middle;
        } else {
            assert forall|i: int| 0 <= i <= middle implies !T::below(model, #[trigger] models[i]) by {
                T::order_laws(models[i], pivot, pivot);
                T::order_laws(model, models[i], pivot);
            }
            low = middle + 1;
        }
    }
    assert forall|i: int| low <= i < sorted@.len() implies T::below(model, #[trigger] sorted@[i].deep_view()) by {
        assert(models[i] == sorted@[i].deep_view());
    }
    assert(low > 0 ==> models[low - 1] == sorted@[low - 1].deep_view());
    low
}

proof fn ascending_is_nondescending<T: Ordered>(models: Seq<T::V>)
    requires
        ascending::<T>(models),
    ensures
        nondescending::<T>(models),
{
    assert forall|i: int, j: int| 0 <= i < j < models.len() implies !T::below(
        #[trigger] models[j],
        #[trigger] models[i],
    ) by {
        T::order_laws(models[i], models[j], models[i]);
    }
}

/// Whether a value is in a strictly ascending list.
pub fn is_listed<T: Ordered>(listing: &Vec<T>, value: &T) -> (found: bool)
    requires
        ascending::<T>(listing.deep_view()),
    ensures
        found == listing.deep_view().contains(value.deep_view()),
{
    let ghost models = listing.deep_view();
    let ghost model = value.deep_view();
    proof {
        ascending_is_nondescending::<T>(models);
    }
    let place = place_of(listing, value);
    if place > 0 && listing[place - 1].same(value) {
        assert(models[place - 1] == model);
        return true;
    }
    proof {
        assert forall|i: int| 0 <= i < models.len() implies models[i] != model by {
            assert(models[i] == listing@[i].deep_view());
            T::order_laws(model, model, model);
            if i < place - 1 {
                T::order_laws(models[i], models[place - 1], model);
                assert(models[place - 1] == listing@[place - 1].deep_view());
            }
        }
    }
    false
}

/// Inserts a value into a sorted list.
fn insert_sorted<T: Ordered>(sorted: &mut Vec<T>, value: T)
    requires
        nondescending::<T>(old(sorted).deep_view()),
    ensures
        nondescending::<T>(final(sorted).deep_view()),
        final(sorted).deep_view().to_multiset() == old(sorted).deep_view().to_multiset().insert(value.deep_view()),
{
    let place = place_of(sorted, &value);
    let ghost before = sorted.deep_view();
    let ghost model = value.deep_view();
    sorted.insert(place, value);
    proof {
        let after = sorted.deep_view();
        assert(after =~= before.insert(place as int, model));
        vstd::seq_lib::to_multiset_insert(before, place as int, model);
        assert forall|i: int, j: int| 0 <= i < j < after.len() implies !T::below(
            #[trigger] after[j],
            #[trigger] after[i],
        ) by {
            if i < place && j == place {
                if i < place - 1 {
                    T::order_laws(model, before[i], before[place - 1]);
                    T::order_laws(before[place - 1], before[i], model);
                    assert(!T::below(before[place - 1], before[i]));
                    if T::below(model, before[i]) {
                        T::order_laws(model, before[i], before[place - 1]);
                        T::order_laws(before[i], before[place - 1], before[i]);
                    }
                }
            } else if i == place {
                T::order_laws(model, before[j - 1], model);
            } else {
                let a = if i < place {
                    i
                } else {
                    i - 1
                };
                let b = if j < place {
                    j
                } else {
                    j - 1
                };
                assert(!T::below(before[b], before[a]));
            }
        }
    }
}

/// Sorts a list.
pub fn sort_values<T: Ordered>(values: Vec<T>) -> (sorted: Vec<T>)
    ensures
        nondescending::<T>(sorted.deep_view()),
        sorted.deep_view().to_multiset() == values.deep_view().to_multiset(),
        sorted.deep_view() == sorted_listing::<T>(values.deep_view().to_multiset()),
{
    let ghost total = values.deep_view().to_multiset();
    let mut rest = values;
    let mut sorted: Vec<T> = Vec::new();
    proof {
        assert(sorted.deep_view() =~= Seq::<T::V>::empty());
        Seq::<T::V>::empty().to_multiset_ensures();
        assert(sorted.deep_view().to_multiset().add(rest.deep_view().to_multiset()) =~= total);
    }
    while rest.len() > 0
        invariant
            nondescending::<T>(sorted.deep_view()),
            sorted.deep_view().to_multiset().add(rest.deep_view().to_multiset()) == total,
        decreases rest@.len(),
    {
        let ghost before = rest.deep_view();
        let ghost done = sorted.deep_view().to_multiset();
        if let Some(value) = rest.pop() {
            let ghost model = value.deep_view();
            proof {
                assert(before =~= rest.deep_view().push(model));
                rest.deep_view().to_multiset_ensures();
            }
            insert_sorted(&mut sorted, value);
            proof {
                assert(done.insert(model).add(rest.deep_view().to_multiset()) =~= done.add(
                    rest.deep_view().to_multiset().insert(model),
                ));
            }
        }
    }
    proof {
        assert(rest.deep_view() =~= Seq::<T::V>::empty());
        Seq::<T::V>::empty().to_multiset_ensures();
        assert(sorted.deep_view().to_multiset() =~= total);
        is_sorted_listing::<T>(sorted.deep_view());
    }
    sorted
}

/// Inserts a value into a strictly ascending list, unless it is there already.
pub fn insert_unique<T: Ordered>(set: &mut Vec<T>, value: T) -> (inserted: bool)
    requires
        ascending::<T>(old(set).deep_view()),
    ensures
        ascending::<T>(final(set).deep_view()),
        final(set).deep_view().to_set() == old(set).deep_view().to_set().insert(value.deep_view()),
        inserted == !old(set).deep_view().contains(value.deep_view()),
        !inserted ==> final(set).deep_view() == old(set).deep_view(),
{
    proof {
        ascending_is_nondescending::<T>(set.deep_view());
    }
    let place = place_of(set, &value);
    let ghost before = set.deep_view();
    let ghost model = value.deep_view();
    if place > 0 && !set[place - 1].is_below(&value) {
        proof {
            T::order_laws(before[place - 1], model, model);
            assert(before[place - 1] == model);
            assert(before.to_set().contains(model));
            assert(before.to_set().insert(model) =~= before.to_set());
        }
        return false;
    }
    set.insert(place, value);
    proof {
        let after = set.deep_view();
        assert(after =~= before.insert(place as int, model));
        assert forall|i: int| 0 <= i < place implies T::below(#[trigger] before[i], model) by {
            if i < place - 1 {
                T::order_laws(before[i], before[place - 1], model);
            }
        }
        assert forall|i: int, j: int| 0 <= i < j < after.len() implies T::below(
            #[trigger] after[i],
            #[trigger] after[j],
        ) by {
            if j == place {
                assert(T::below(before[i], model));
            } else if i == place {
                assert(T::below(model, before[j - 1]));
            } else {
                let a = if i < place {
                    i
                } else {
                    i - 1
                };
                let b = if j < place {
                    j
                } else {
                    j - 1
                };
                assert(T::below(before[a], before[b]));
            }
        }
        assert forall|v: T::V| after.to_set().contains(v) == before.to_set().insert(model).contains(v) by {
            if after.to_set().contains(v) {
                let k = choose|k: int| 0 <= k < after.len() && after[k] == v;
                if k < place {
                    assert(before[k] == v);
                } else if k > place {
                    assert(before[k - 1] == v);
                }
            }
            if before.to_set().contains(v) {
                let k = choose|k: int| 0 <= k < before.len() && before[k] == v;
                if k < place {
                    assert(after[k] == v);
                } else {
                    assert(after[k + 1] == v);
                }
            }
            if v == model {
                assert(after[place as int] == v);
            }
        }
        assert(after.to_set() =~= before.to_set().insert(model));
        if before.contains(model) {
            let k = choose|k: int| 0 <= k < before.len() && before[k] == model;
            T::order_laws(model, before[k], model);
        }
    }
    true
}

/// Whether one text comes before another, character by character.
pub open spec fn text_below(left: Seq<char>, right: Seq<char>) -> bool
    decreases right.len(),
{
    if right.len() == 0 {
        false
    } else if left.len() == 0 {
        true
    } else if left[0] != right[0] {
        (left[0] as u32) < (right[0] as u32)
    } else {
        text_below(left.skip(1), right.skip(1))
    }
}

proof fn codes_differ(a: char, b: char)
    ensures
        a != b ==> (a as u32) < (b as u32) || (b as u32) < (a as u32),
{
}

proof fn text_order_laws(a: Seq<char>, b: Seq<char>, c: Seq<char>)
    ensures
        !text_below(a, a),
        text_below(a, b) && text_below(b, c) ==> text_below(a, c),
        a == b || text_below(a, b) || text_below(b, a),
    decreases a.len() + b.len() + c.len(),
{
    if a.len() > 0 {
        text_order_laws(a.skip(1), b, c);
    }
    if a.len() > 0 && b.len() > 0 {
        if c.len() > 0 {
            text_order_laws(a.skip(1), b.skip(1), c.skip(1));
        } else {
            text_order_laws(a.skip(1), b.skip(1), c);
        }
        codes_differ(a[0], b[0]);
        if a.skip(1) == b.skip(1) && a[0] == b[0] {
            assert(a =~= b) by {
                assert forall|i: int| 0 <= i < a.len() implies a[i] == b[i] by {
                    if i > 0 {
                        assert(a.skip(1)[i - 1] == b.skip(1)[i - 1]);
                    }
                }
                assert(a.len() == a.skip(1).len() + 1);
                assert(b.len() == b.skip(1).len() + 1);
            }
        }
    } else if a.len() == 0 && b.len() == 0 {
        assert(a =~= b);
    }
}

/// Whether one list comes before another, item by item.
pub open spec fn list_below<T: Ordered>(left: Seq<T::V>, right: Seq<T::V>) -> bool
    decreases right.len(),
{
    if right.len() == 0 {
        false
    } else if left.len() == 0 {
        true
    } else if left[0] != right[0] {
        T::below(left[0], right[0])
    } else {
        list_below::<T>(left.skip(1), right.skip(1))
    }
}

proof fn list_order_laws<T: Ordered>(a: Seq<T::V>, b: Seq<T::V>, c: Seq<T::V>)
    ensures
        !list_below::<T>(a, a),
        list_below::<T>(a, b) && list_below::<T>(b, c) ==> list_below::<T>(a, c),
        a == b || list_below::<T>(a, b) || list_below::<T>(b, a),
    decreases a.len() + b.len() + c.len(),
{
    if a.len() > 0 {
        list_order_laws::<T>(a.skip(1), b, c);
    }
    if a.len() > 0 && b.len() > 0 {
        if c.len() > 0 {
            list_order_laws::<T>(a.skip(1), b.skip(1), c.skip(1));
            T::order_laws(a[0], b[0], c[0]);
            T::order_laws(b[0], a[0], c[0]);
        } else {
            list_order_laws::<T>(a.skip(1), b.skip(1), c);
            T::order_laws(a[0], b[0], b[0]);
        }
        if a.skip(1) == b.skip(1) && a[0] == b[0] {
            assert(a =~= b) by {
                assert forall|i: int| 0 <= i < a.len() implies a[i] == b[i] by {
                    if i > 0 {
                        assert(a.skip(1)[i - 1] == b.skip(1)[i - 1]);
                    }
                }
                assert(a.len() == a.skip(1).len() + 1);
                assert(b.len() == b.skip(1).len() + 1);
            }
        }
    } else if a.len() == 0 && b.len() == 0 {
        assert(a =~= b);
    }
}

impl<T: Ordered> Ordered for Vec<T> {
    open spec fn below(left: Seq<T::V>, right: Seq<T::V>) -> bool {
        list_below::<T>(left, right)
    }

    proof fn order_laws(a: Seq<T::V>, b: Seq<T::V>, c: Seq<T::V>) {
        list_order_laws::<T>(a, b, c);
        assert(<Vec<T> as Ordered>::below(a, a) == list_below::<T>(a, a));
        assert(<Vec<T> as Ordered>::below(a, b) == list_below::<T>(a, b));
        assert(<Vec<T> as Ordered>::below(b, a) == list_below::<T>(b, a));
        assert(<Vec<T> as Ordered>::below(b, c) == list_below::<T>(b, c));
        assert(<Vec<T> as Ordered>::below(a, c) == list_below::<T>(a, c));
    }

    fn is_below(&self, other: &Self) -> (result: bool) {
        let ghost left = self.deep_view();
        let ghost right = other.deep_view();
        let mut index: usize = 0;
        assert(left.skip(0) =~= left);
        assert(right.skip(0) =~= right);
        while index < self.len() && index < other.len()
            invariant
                index <= self@.len(),
                index <= other@.len(),
                left == self.deep_view(),
                right == other.deep_view(),
                list_below::<T>(left, right) == list_below::<T>(left.skip(index as int), right.skip(index as int)),
            decreases self@.len() - index,
        {
            assert(left[index as int] == self@[index as int].deep_view());
            assert(right[index as int] == other@[index as int].deep_view());
            if !self[index].same(&other[index]) {
                return self[index].is_below(&other[index]);
            }
            assert(left.skip(index as int).skip(1) =~= left.skip(index as int + 1));
            assert(right.skip(index as int).skip(1) =~= right.skip(index as int + 1));
            index = index + 1;
        }
        index < other.len()
    }
}

impl Ordered for String {
    open spec fn below(left: Seq<char>, right: Seq<char>) -> bool {
        text_below(left, right)
    }

    proof fn order_laws(a: Seq<char>, b: Seq<char>, c: Seq<char>) {
        text_order_laws(a, b, c);
    }

    fn is_below(&self, other: &Self) -> (result: bool) {
        text_is_below(self.as_str(), other.as_str())
    }
}

/// Whether one ASCII text comes before another.
fn ascii_is_below(left: &str, right: &str) -> (result: bool)
    requires
        left.is_ascii(),
        right.is_ascii(),
    ensures
        result == text_below(left@, right@),
{
    let a: &[u8] = left.as_bytes();
    let b: &[u8] = right.as_bytes();
    let mut index: usize = 0;
    proof {
        vstd::utf8::is_ascii_chars_encode_utf8(left@);
        vstd::utf8::is_ascii_chars_encode_utf8(right@);
        assert(left@.skip(0) =~= left@);
        assert(right@.skip(0) =~= right@);
    }
    while index < a.len() && index < b.len()
        invariant
            index <= a@.len() == left@.len(),
            index <= b@.len() == right@.len(),
            vstd::utf8::is_ascii_chars(left@),
            vstd::utf8::is_ascii_chars(right@),
            forall|i: int| 0 <= i < left@.len() ==> #[trigger] a@[i] == left@[i] as u8,
            forall|i: int| 0 <= i < right@.len() ==> #[trigger] b@[i] == right@[i] as u8,
            text_below(left@, right@) == text_below(left@.skip(index as int), right@.skip(index as int)),
        decreases a@.len() - index,
    {
        assert(left@[index as int] as u32 <= 127 && right@[index as int] as u32 <= 127);
        if a[index] != b[index] {
            return a[index] < b[index];
        }
        assert(left@.skip(index as int).skip(1) =~= left@.skip(index as int + 1));
        assert(right@.skip(index as int).skip(1) =~= right@.skip(index as int + 1));
        index = index + 1;
    }
    index < b.len()
}

/// Whether one text comes before another.
pub fn text_is_below(left: &str, right: &str) -> (result: bool)
    ensures
        result == text_below(left@, right@),
{
    if left.is_ascii() && right.is_ascii() {
        return ascii_is_below(left, right);
    }
    let a = crate::text::characters(left);
    let b = crate::text::characters(right);
    let mut index: usize = 0;
    assert(left@.skip(0) =~= left@);
    assert(right@.skip(0) =~= right@);
    while index < a.len() && index < b.len()
        invariant
            index <= a@.len(),
            index <= b@.len(),
            a@ == left@,
            b@ == right@,
            text_below(left@, right@) == text_below(left@.skip(index as int), right@.skip(index as int)),
        decreases a@.len() - index,
    {
        if a[index] != b[index] {
            return (a[index] as u32) < (b[index] as u32);
        }
        assert(left@.skip(index as int).skip(1) =~= left@.skip(index as int + 1));
        assert(right@.skip(index as int).skip(1) =~= right@.skip(index as int + 1));
        index = index + 1;
    }
    index < b.len()
}

/// A value with a key that says where it belongs among others.
pub trait Placed: Value {
    /// The type of the key.
    type Key: Ordered;

    /// The key of a model.
    spec fn place(model: Self::V) -> <Self::Key as DeepView>::V;

    /// The key of this value.
    fn place_key(&self) -> (key: Self::Key)
        ensures
            key.deep_view() == Self::place(self.deep_view()),
    ;
}

/// A sorted list with one more item, behind every item whose key does not come after its own.
pub open spec fn placed_behind<T: Placed>(sorted: Seq<T::V>, item: T::V) -> Seq<T::V>
    decreases sorted.len(),
{
    if sorted.len() == 0 || !<T::Key as Ordered>::below(T::place(item), T::place(sorted.last())) {
        sorted.push(item)
    } else {
        placed_behind::<T>(sorted.drop_last(), item).push(sorted.last())
    }
}

/// A list sorted by key, with items of equal keys in their former order.
pub open spec fn stably_sorted<T: Placed>(items: Seq<T::V>) -> Seq<T::V>
    decreases items.len(),
{
    if items.len() == 0 {
        Seq::empty()
    } else {
        placed_behind::<T>(stably_sorted::<T>(items.drop_last()), items.last())
    }
}

/// Placing an item adds that item and nothing else.
pub proof fn placing_adds_one<T: Placed>(sorted: Seq<T::V>, item: T::V)
    ensures
        placed_behind::<T>(sorted, item).len() == sorted.len() + 1,
        placed_behind::<T>(sorted, item).to_multiset() == sorted.to_multiset().insert(item),
    decreases sorted.len(),
{
    sorted.to_multiset_ensures();
    if sorted.len() > 0 && <T::Key as Ordered>::below(T::place(item), T::place(sorted.last())) {
        let shorter = sorted.drop_last();
        placing_adds_one::<T>(shorter, item);
        shorter.to_multiset_ensures();
        placed_behind::<T>(shorter, item).to_multiset_ensures();
        assert(shorter.push(sorted.last()) =~= sorted);
        assert(placed_behind::<T>(sorted, item).to_multiset() =~= sorted.to_multiset().insert(item));
    }
}

/// Sorting by key keeps every item, as often as it occurs.
pub proof fn sorting_keeps_items<T: Placed>(items: Seq<T::V>)
    ensures
        stably_sorted::<T>(items).len() == items.len(),
        stably_sorted::<T>(items).to_multiset() == items.to_multiset(),
    decreases items.len(),
{
    if items.len() > 0 {
        let shorter = items.drop_last();
        sorting_keeps_items::<T>(shorter);
        placing_adds_one::<T>(stably_sorted::<T>(shorter), items.last());
        shorter.to_multiset_ensures();
        assert(shorter.push(items.last()) =~= items);
    } else {
        assert(items =~= Seq::empty());
    }
}

/// Whether keys never descend.
pub open spec fn placed_in_order<T: Placed>(items: Seq<T::V>) -> bool {
    forall|i: int, j: int|
        0 <= i < j < items.len() ==> !<T::Key as Ordered>::below(
            T::place(#[trigger] items[j]),
            T::place(#[trigger] items[i]),
        )
}

/// Placing an item keeps the order.
proof fn placing_keeps_order<T: Placed>(sorted: Seq<T::V>, item: T::V)
    requires
        placed_in_order::<T>(sorted),
    ensures
        placed_in_order::<T>(placed_behind::<T>(sorted, item)),
        forall|i: int|
            0 <= i < placed_behind::<T>(sorted, item).len() ==> (#[trigger] placed_behind::<T>(sorted, item)[i]
                == item || sorted.contains(placed_behind::<T>(sorted, item)[i])),
    decreases sorted.len(),
{
    let after = placed_behind::<T>(sorted, item);
    if sorted.len() == 0 || !<T::Key as Ordered>::below(T::place(item), T::place(sorted.last())) {
        assert forall|i: int, j: int| 0 <= i < j < after.len() implies !<T::Key as Ordered>::below(
            T::place(#[trigger] after[j]),
            T::place(#[trigger] after[i]),
        ) by {
            if j == sorted.len() && i < sorted.len() - 1 {
                let (a, b, c) = (T::place(item), T::place(sorted[i]), T::place(sorted.last()));
                assert(!<T::Key as Ordered>::below(c, b));
                <T::Key as Ordered>::order_laws(a, b, c);
                <T::Key as Ordered>::order_laws(b, c, c);
            }
        }
        assert forall|i: int| 0 <= i < after.len() implies (
            #[trigger] after[i] == item || sorted.contains(after[i])
        ) by {
            if i < sorted.len() {
                assert(sorted[i] == after[i]);
            }
        }
    } else {
        let shorter = sorted.drop_last();
        let last = sorted.last();
        placing_keeps_order::<T>(shorter, item);
        let inner = placed_behind::<T>(shorter, item);
        assert forall|i: int, j: int| 0 <= i < j < after.len() implies !<T::Key as Ordered>::below(
            T::place(#[trigger] after[j]),
            T::place(#[trigger] after[i]),
        ) by {
            if j == inner.len() {
                assert(after[i] == inner[i]);
                if inner[i] == item {
                    <T::Key as Ordered>::order_laws(T::place(item), T::place(last), T::place(item));
                } else {
                    assert(shorter.contains(inner[i]));
                    let k = choose|k: int| 0 <= k < shorter.len() && shorter[k] == inner[i];
                    assert(sorted[k] == inner[i]);
                    assert(!<T::Key as Ordered>::below(T::place(sorted[sorted.len() - 1]), T::place(sorted[k])));
                }
            } else {
                assert(after[i] == inner[i] && after[j] == inner[j]);
            }
        }
        assert forall|i: int| 0 <= i < after.len() implies (
            #[trigger] after[i] == item || sorted.contains(after[i])
        ) by {
            if i == inner.len() {
                assert(sorted[sorted.len() - 1] == after[i]);
            } else {
                assert(after[i] == inner[i]);
                if inner[i] != item {
                    let k = choose|k: int| 0 <= k < shorter.len() && shorter[k] == inner[i];
                    assert(sorted[k] == after[i]);
                }
            }
        }
    }
}

/// Sorting by key puts items in order.
pub proof fn sorting_orders_items<T: Placed>(items: Seq<T::V>)
    ensures
        placed_in_order::<T>(stably_sorted::<T>(items)),
    decreases items.len(),
{
    if items.len() > 0 {
        sorting_orders_items::<T>(items.drop_last());
        placing_keeps_order::<T>(stably_sorted::<T>(items.drop_last()), items.last());
    }
}

/// Whether no two different items have the same key.
pub open spec fn one_per_place<T: Placed>(items: Multiset<T::V>) -> bool {
    forall|a: T::V, b: T::V| #[trigger]
        items.contains(a) && #[trigger] items.contains(b) && T::place(a) == T::place(b) ==> a == b
}

proof fn placed_listing_is_unique<T: Placed>(left: Seq<T::V>, right: Seq<T::V>)
    requires
        placed_in_order::<T>(left),
        placed_in_order::<T>(right),
        left.to_multiset() == right.to_multiset(),
        one_per_place::<T>(left.to_multiset()),
    ensures
        left == right,
    decreases left.len(),
{
    left.to_multiset_ensures();
    right.to_multiset_ensures();
    assert(left.len() == right.len());
    if left.len() > 0 {
        let a = left.last();
        let b = right.last();
        assert(right.to_multiset().count(a) > 0) by {
            assert(left.contains(a));
        }
        assert(left.to_multiset().count(b) > 0) by {
            assert(right.contains(b));
        }
        assert(right.contains(a));
        assert(left.contains(b));
        let j = choose|j: int| 0 <= j < right.len() && right[j] == a;
        let i = choose|i: int| 0 <= i < left.len() && left[i] == b;
        <T::Key as Ordered>::order_laws(T::place(a), T::place(b), T::place(a));
        assert(left.to_multiset().contains(a) && left.to_multiset().contains(b));
        assert(a == b);
        let (l, r) = (left.drop_last(), right.drop_last());
        assert(l.push(a) =~= left);
        assert(r.push(b) =~= right);
        l.to_multiset_ensures();
        r.to_multiset_ensures();
        assert(l.to_multiset() =~= r.to_multiset()) by {
            assert forall|v: T::V| l.to_multiset().count(v) == r.to_multiset().count(v) by {
                assert(l.to_multiset().insert(a).count(v) == r.to_multiset().insert(a).count(v));
            }
        }
        assert forall|x: T::V, y: T::V| #[trigger]
            l.to_multiset().contains(x) && #[trigger] l.to_multiset().contains(y) && T::place(x) == T::place(
                y,
            ) implies x == y by {
            assert(left.to_multiset().contains(x) && left.to_multiset().contains(y));
        }
        placed_listing_is_unique::<T>(l, r);
        assert(left =~= right);
    } else {
        assert(left =~= right);
    }
}

/// Sorting by key does not depend on the order of the items, where no two different items have the
/// same key.
pub proof fn sorting_ignores_order<T: Placed>(left: Seq<T::V>, right: Seq<T::V>)
    requires
        left.to_multiset() == right.to_multiset(),
        one_per_place::<T>(left.to_multiset()),
    ensures
        stably_sorted::<T>(left) == stably_sorted::<T>(right),
{
    sorting_keeps_items::<T>(left);
    sorting_keeps_items::<T>(right);
    sorting_orders_items::<T>(left);
    sorting_orders_items::<T>(right);
    placed_listing_is_unique::<T>(stably_sorted::<T>(left), stably_sorted::<T>(right));
}

/// Where an item belongs in a list: behind every item, from the end, whose key does not come after.
fn stable_place<T: Placed>(sorted: &Vec<T>, item: &T) -> (place: usize)
    ensures
        place <= sorted@.len(),
        placed_behind::<T>(sorted.deep_view(), item.deep_view()) == sorted.deep_view().insert(
            place as int,
            item.deep_view(),
        ),
{
    let ghost models = sorted.deep_view();
    let ghost model = item.deep_view();
    let key = item.place_key();
    let mut place: usize = sorted.len();
    let ghost whole = placed_behind::<T>(models, model);
    assert(models.take(place as int) =~= models);
    assert(whole =~= placed_behind::<T>(models.take(place as int), model) + models.skip(place as int));
    while place > 0 && key.is_below(&sorted[place - 1].place_key())
        invariant
            place <= sorted@.len(),
            models == sorted.deep_view(),
            model == item.deep_view(),
            key.deep_view() == T::place(model),
            whole == placed_behind::<T>(models.take(place as int), model) + models.skip(place as int),
        decreases place,
    {
        proof {
            assert(models[place - 1] == sorted@[place - 1].deep_view());
            assert(models.take(place as int).drop_last() =~= models.take(place - 1));
            assert(models.take(place as int).last() == models[place - 1]);
            assert(placed_behind::<T>(models.take(place as int), model) + models.skip(place as int)
                =~= placed_behind::<T>(models.take(place - 1), model) + models.skip(place - 1));
        }
        place = place - 1;
    }
    proof {
        assert(place > 0 ==> models.take(place as int).last() == sorted@[place - 1].deep_view());
        assert(placed_behind::<T>(models.take(place as int), model) == models.take(place as int).push(model));
        assert(whole =~= models.insert(place as int, model));
    }
    place
}

/// Sorts a list by key, with items of equal keys in their former order.
pub fn sort_stably<T: Placed>(items: &Vec<T>) -> (sorted: Vec<T>)
    ensures
        sorted.deep_view() == stably_sorted::<T>(items.deep_view()),
{
    let ghost model = items.deep_view();
    let mut sorted: Vec<T> = Vec::new();
    let mut index: usize = 0;
    assert(model.take(0) =~= Seq::empty());
    assert(sorted.deep_view() =~= stably_sorted::<T>(model.take(0)));
    while index < items.len()
        invariant
            index <= items@.len(),
            model == items.deep_view(),
            sorted.deep_view() == stably_sorted::<T>(model.take(index as int)),
        decreases items@.len() - index,
    {
        assert(model[index as int] == items@[index as int].deep_view());
        let item = items[index].copied();
        let place = stable_place(&sorted, &item);
        let ghost before = sorted.deep_view();
        let ghost added = item.deep_view();
        sorted.insert(place, item);
        proof {
            crate::value::take_next(model, index as int);
            assert(sorted.deep_view() =~= before.insert(place as int, added));
        }
        index = index + 1;
    }
    assert(model.take(index as int) =~= model);
    sorted
}

} // verus!
