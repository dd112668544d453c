//! Consuming iteration over arrays and maps.
use vstd::prelude::*;

use super::{entries_value, items_value, AsRawMutObject, Keyed, Value, WafArray, WafMap, WafObject};

verus! {

/// An iterator that takes ownership of the elements of a [`WafArray`] or [`WafMap`], one at a
/// time, in order.
///
/// The iterator owns the elements it has not handed out yet: when it is dropped before the end,
/// those elements are dropped with it, each exactly once.
pub struct WafIter<T> {
    /// The elements not handed out yet, last one first.
    rest: Vec<T>,
}

impl<T> WafIter<T> {
    /// The elements this iterator has not handed out yet, in order.
    pub closed spec fn remaining(&self) -> Seq<T> {
        Seq::new(self.rest@.len(), |i: int| self.rest@[self.rest@.len() - 1 - i])
    }

    /// Takes ownership of the provided elements, to hand them out in order.
    fn from_vec(mut items: Vec<T>) -> (r: Self)
        ensures
            r.remaining() == items@,
    {
        let ghost all = items@;
        let mut rest: Vec<T> = Vec::new();
        while items.len() > 0
            invariant
                items@ == all.subrange(0, items@.len() as int),
                rest@.len() + items@.len() == all.len(),
                forall|j: int| 0 <= j < rest@.len() ==> #[trigger] rest@[j] == all[all.len() - 1 - j],
            decreases items@.len(),
        {
            let last = items.pop().unwrap();
            rest.push(last);
        }
        let r = WafIter { rest };
        assert(r.remaining() =~= all);
        r
    }

    /// Hands out the next element, or `None` once every element has been handed out.
    pub fn next(&mut self) -> (r: Option<T>)
        ensures
            old(self).remaining().len() == 0 ==> r is None && final(self).remaining() == old(self).remaining(),
            old(self).remaining().len() > 0 ==> r == Some(old(self).remaining()[0])
                && final(self).remaining() == old(self).remaining().drop_first(),
    {
        let r = self.rest.pop();
        assert(old(self).rest@.len() == 0 || self.remaining() =~= old(self).remaining().drop_first());
        assert(old(self).rest@.len() == 0 ==> self.remaining() =~= old(self).remaining());
        r
    }

    /// Returns the number of elements not handed out yet.
    pub fn len(&self) -> (r: usize)
        ensures
            r == self.remaining().len(),
    {
        self.rest.len()
    }
}

impl WafArray {
    /// Consumes this array into an iterator over its elements.
    pub fn into_iter(self) -> (r: WafIter<WafObject>)
        ensures
            Value::List(items_value(r.remaining())) == self.value_spec(),
    {
        WafIter::from_vec(self.items)
    }
}

impl WafMap {
    /// Consumes this map into an iterator over its entries.
    pub fn into_iter(self) -> (r: WafIter<Keyed<WafObject>>)
        ensures
            Value::Dict(entries_value(r.remaining())) == self.value_spec(),
    {
        WafIter::from_vec(self.entries)
    }
}

impl Keyed<WafArray> {
    /// Consumes this keyed array into an iterator over its elements; the key is dropped first.
    pub fn into_iter(self) -> (r: WafIter<WafObject>)
        ensures
            Value::List(items_value(r.remaining())) == self.value_spec(),
    {
        let array = self.value;
        array.into_iter()
    }
}

impl Keyed<WafMap> {
    /// Consumes this keyed map into an iterator over its entries; the key is dropped first.
    pub fn into_iter(self) -> (r: WafIter<Keyed<WafObject>>)
        ensures
            Value::Dict(entries_value(r.remaining())) == self.value_spec(),
    {
        let map = self.value;
        map.into_iter()
    }
}

} // verus!
