//! Containers whose slots borrow their values instead of owning them.
use vstd::prelude::*;

use crate::object::{AsRawMutObject, Keyed, Value, WafObject};

verus! {

/// An array whose slots borrow the objects they show; dropping it releases only its own slots.
pub struct DdwafObjArrayShallow<'a> {
    slots: Vec<Option<&'a WafObject>>,
}

/// A map whose slots borrow the keyed objects they show; dropping it releases only its own
/// slots.
pub struct DdwafObjMapShallow<'a> {
    slots: Vec<Option<&'a Keyed<WafObject>>>,
}

impl<'a> DdwafObjArrayShallow<'a> {
    /// Creates a shallow array of the provided size, every slot empty (an invalid object).
    pub fn new(size: u64) -> (r: Self)
        requires
            size <= usize::MAX,
        ensures
            r.len_spec() == size,
            forall|i: int| 0 <= i < size ==> r.slot_spec(i) is None,
    {
        let mut slots: Vec<Option<&'a WafObject>> = Vec::new();
        let mut i: usize = 0;
        while i < size as usize
            invariant
                0 <= i <= size,
                slots@.len() == i,
                forall|j: int| 0 <= j < i ==> (#[trigger] slots@[j]) is None,
            decreases size - i,
        {
            slots.push(None);
            i = i + 1;
        }
        DdwafObjArrayShallow { slots }
    }

    /// The number of slots.
    pub closed spec fn len_spec(&self) -> nat {
        self.slots@.len()
    }

    /// The content shown at a slot, if one was set.
    pub closed spec fn slot_spec(&self, i: int) -> Option<Value> {
        match self.slots@[i] {
            Some(o) => Some(o.value_spec()),
            None => None,
        }
    }

    /// Returns the number of slots.
    pub fn len(&self) -> (r: usize)
        ensures
            r == self.len_spec(),
    {
        self.slots.len()
    }

    /// Makes a slot show the provided object, without taking ownership of it.
    pub fn set_slot(&mut self, idx: u64, obj: &'a WafObject)
        requires
            idx < old(self).len_spec(),
        ensures
            final(self).len_spec() == old(self).len_spec(),
            final(self).slot_spec(idx as int) == Some(obj.value_spec()),
            forall|i: int| 0 <= i < old(self).len_spec() && i != idx ==> final(self).slot_spec(i)
                == old(self).slot_spec(i),
    {
        let n = self.slots.len();
        assert(idx < n);
        let i = idx as usize;
        self.slots[i] = Some(obj);
        assert(self.slots@ == old(self).slots@.update(idx as int, Some(obj)));
    }

    /// Returns the object a slot shows, if one was set.
    pub fn slot(&self, idx: usize) -> (r: Option<&'a WafObject>)
        requires
            idx < self.len_spec(),
        ensures
            r is None <==> self.slot_spec(idx as int) is None,
            r is Some ==> self.slot_spec(idx as int) == Some(r->0.value_spec()),
    {
        self.slots[idx]
    }
}

impl<'a> DdwafObjMapShallow<'a> {
    /// Creates a shallow map of the provided size, every slot empty (an invalid object with a
    /// blank key).
    pub fn new(size: u64) -> (r: Self)
        requires
            size <= usize::MAX,
        ensures
            r.len_spec() == size,
            forall|i: int| 0 <= i < size ==> r.slot_spec(i) is None,
    {
        let mut slots: Vec<Option<&'a Keyed<WafObject>>> = Vec::new();
        let mut i: usize = 0;
        while i < size as usize
            invariant
                0 <= i <= size,
                slots@.len() == i,
                forall|j: int| 0 <= j < i ==> (#[trigger] slots@[j]) is None,
            decreases size - i,
        {
            slots.push(None);
            i = i + 1;
        }
        DdwafObjMapShallow { slots }
    }

    /// The number of slots.
    pub closed spec fn len_spec(&self) -> nat {
        self.slots@.len()
    }

    /// The key and content shown at a slot, if one was set.
    pub closed spec fn slot_spec(&self, i: int) -> Option<(Seq<u8>, Value)> {
        match self.slots@[i] {
            Some(o) => Some((o.key_spec(), o.value_spec())),
            None => None,
        }
    }

    /// Returns the number of slots.
    pub fn len(&self) -> (r: usize)
        ensures
            r == self.len_spec(),
    {
        self.slots.len()
    }

    /// Makes a slot show the provided keyed object, without taking ownership of it.
    pub fn set_slot(&mut self, idx: u64, obj: &'a Keyed<WafObject>)
        requires
            idx < old(self).len_spec(),
        ensures
            final(self).len_spec() == old(self).len_spec(),
            final(self).slot_spec(idx as int) == Some((obj.key_spec(), obj.value_spec())),
            forall|i: int| 0 <= i < old(self).len_spec() && i != idx ==> final(self).slot_spec(i)
                == old(self).slot_spec(i),
    {
        let n = self.slots.len();
        assert(idx < n);
        let i = idx as usize;
        self.slots[i] = Some(obj);
        assert(self.slots@ == old(self).slots@.update(idx as int, Some(obj)));
    }

    /// Returns the keyed object a slot shows, if one was set.
    pub fn slot(&self, idx: usize) -> (r: Option<&'a Keyed<WafObject>>)
        requires
            idx < self.len_spec(),
        ensures
            r is None <==> self.slot_spec(idx as int) is None,
            r is Some ==> self.slot_spec(idx as int) == Some((r->0.key_spec(), r->0.value_spec())),
    {
        self.slots[idx]
    }
}

} // verus!
