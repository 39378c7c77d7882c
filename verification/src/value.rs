//! Values compared and copied by what they mean.

use vstd::prelude::*;

verus! {

/// A value with a mathematical model: copying keeps the model, and equality is equality of models.
pub trait Value: DeepView + Sized {
    /// A copy with the same model.
    fn copied(&self) -> (copy: Self)
        ensures
            copy.deep_view() == self.deep_view(),
    ;

    /// Whether two values have the same model.
    fn same(&self, other: &Self) -> (equal: bool)
        ensures
            equal == (self.deep_view() == other.deep_view()),
    ;
}

impl Value for String {
    fn copied(&self) -> (copy: Self) {
        self.clone()
    }

    fn same(&self, other: &Self) -> (equal: bool) {
        *self == *other
    }
}

impl Value for &'static str {
    fn copied(&self) -> (copy: Self) {
        *self
    }

    fn same(&self, other: &Self) -> (equal: bool) {
        crate::text::same_text(self, other)
    }
}

impl Value for u64 {
    fn copied(&self) -> (copy: Self) {
        *self
    }

    fn same(&self, other: &Self) -> (equal: bool) {
        *self == *other
    }
}

impl Value for u128 {
    fn copied(&self) -> (copy: Self) {
        *self
    }

    fn same(&self, other: &Self) -> (equal: bool) {
        *self == *other
    }
}

impl Value for u32 {
    fn copied(&self) -> (copy: Self) {
        *self
    }

    fn same(&self, other: &Self) -> (equal: bool) {
        *self == *other
    }
}

impl Value for u16 {
    fn copied(&self) -> (copy: Self) {
        *self
    }

    fn same(&self, other: &Self) -> (equal: bool) {
        *self == *other
    }
}

impl Value for u8 {
    fn copied(&self) -> (copy: Self) {
        *self
    }

    fn same(&self, other: &Self) -> (equal: bool) {
        *self == *other
    }
}

impl Value for usize {
    fn copied(&self) -> (copy: Self) {
        *self
    }

    fn same(&self, other: &Self) -> (equal: bool) {
        *self == *other
    }
}

impl Value for bool {
    fn copied(&self) -> (copy: Self) {
        *self
    }

    fn same(&self, other: &Self) -> (equal: bool) {
        *self == *other
    }
}

impl<A: Value, B: Value> Value for (A, B) {
    fn copied(&self) -> (copy: Self) {
        (self.0.copied(), self.1.copied())
    }

    fn same(&self, other: &Self) -> (equal: bool) {
        self.0.same(&other.0) && self.1.same(&other.1)
    }
}

impl<T: Value> Value for Option<T> {
    fn copied(&self) -> (copy: Self) {
        match self {
            Some(value) => Some(value.copied()),
            None => None,
        }
    }

    fn same(&self, other: &Self) -> (equal: bool) {
        match (self, other) {
            (Some(left), Some(right)) => left.same(right),
            (None, None) => true,
            _ => false,
        }
    }
}

impl<T: Value> Value for Box<T> {
    fn copied(&self) -> (copy: Self) {
        Box::new((**self).copied())
    }

    fn same(&self, other: &Self) -> (equal: bool) {
        (**self).same(&**other)
    }
}

impl<T: Value> Value for Vec<T> {
    fn copied(&self) -> (copy: Self) {
        let mut copy: Vec<T> = Vec::new();
        let mut index: usize = 0;
        while index < self.len()
            invariant
                index <= self@.len(),
                copy@.len() == index,
                forall|i: int| 0 <= i < index ==> (#[trigger] copy@[i]).deep_view() == self@[i].deep_view(),
            decreases self@.len() - index,
        {
            copy.push(self[index].copied());
            index = index + 1;
        }
        assert(copy.deep_view() =~= self.deep_view());
        copy
    }

    fn same(&self, other: &Self) -> (equal: bool) {
        if self.len() != other.len() {
            assert(self.deep_view().len() != other.deep_view().len());
            return false;
        }
        let mut index: usize = 0;
        while index < self.len()
            invariant
                index <= self@.len() == other@.len(),
                forall|i: int| 0 <= i < index ==> (#[trigger] self@[i]).deep_view() == other@[i].deep_view(),
            decreases self@.len() - index,
        {
            if !self[index].same(&other[index]) {
                assert(self.deep_view()[index as int] != other.deep_view()[index as int]);
                return false;
            }
            index = index + 1;
        }
        assert(self.deep_view() =~= other.deep_view());
        true
    }
}

/// Appends a value, and its model to the models.
pub(crate) fn push_value<T: DeepView>(values: &mut Vec<T>, value: T)
    ensures
        final(values)@ == old(values)@.push(value),
        final(values).deep_view() == old(values).deep_view().push(value.deep_view()),
{
    values.push(value);
    assert(values.deep_view() =~= old(values).deep_view().push(value.deep_view()));
}

/// A prefix with one more element.
pub proof fn take_next<T>(values: Seq<T>, count: int)
    requires
        0 <= count < values.len(),
    ensures
        values.take(count + 1) == values.take(count).push(values[count]),
        values.take(count + 1).drop_last() == values.take(count),
        values.take(count + 1).last() == values[count],
{
    assert(values.take(count + 1) =~= values.take(count).push(values[count]));
    assert(values.take(count + 1).drop_last() =~= values.take(count));
}

/// The whole is the prefix of full length.
pub proof fn take_all<T>(values: Seq<T>)
    ensures
        values.take(values.len() as int) == values,
{
    assert(values.take(values.len() as int) =~= values);
}

/// Filtering a sequence with one more element.
pub proof fn filter_push<A>(values: Seq<A>, value: A, keep: spec_fn(A) -> bool)
    ensures
        values.push(value).filter(keep) == (if keep(value) {
            values.filter(keep).push(value)
        } else {
            values.filter(keep)
        }),
{
    reveal(Seq::filter);
    assert(values.push(value).drop_last() =~= values);
}

/// What a filter keeps has the property, and stood in the list.
pub proof fn filter_keeps<A>(values: Seq<A>, keep: spec_fn(A) -> bool, at: int)
    requires
        0 <= at < values.filter(keep).len(),
    ensures
        keep(values.filter(keep)[at]),
        values.contains(values.filter(keep)[at]),
    decreases values.len(),
{
    reveal(Seq::filter);
    if values.len() > 0 {
        let shorter = values.drop_last();
        let kept = shorter.filter(keep);
        if at < kept.len() {
            filter_keeps(shorter, keep, at);
            let i = choose|i: int| 0 <= i < shorter.len() && shorter[i] == kept[at];
            assert(values[i] == kept[at]);
        } else {
            assert(values[values.len() - 1] == values.filter(keep)[at]);
        }
    }
}

} // verus!
