//! A store that hands out generational handles: a handle names the value
//! it was given for, and once that value is removed the handle names
//! nothing, for ever, even when its place is taken by another value.

use vstd::prelude::*;

verus! {

/// The name of a value in an arena: the place it sits in and the generation
/// of that place at the time it was put there.
#[derive(Clone, Copy, Debug, PartialEq, Eq, Hash, Structural)]
pub struct Handle {
    pub index: usize,
    pub generation: u64,
}

/// One place of an arena. A vacant place whose generation has reached the
/// last number is never filled again.
#[derive(Debug)]
struct Slot<T> {
    generation: u64,
    value: Option<T>,
}

/// A store of values of type `T` under generational handles.
#[derive(Debug)]
pub struct Arena<T> {
    slots: Vec<Slot<T>>,
    free: Vec<usize>,
}

impl<T> View for Arena<T> {
    type V = Map<Handle, T>;

    /// The live handles and the value each one names.
    closed spec fn view(&self) -> Map<Handle, T> {
        Map::new(
            |h: Handle|
                h.index < self.slots@.len() && self.slots@[h.index as int].generation
                    == h.generation && self.slots@[h.index as int].value is Some,
            |h: Handle| self.slots@[h.index as int].value->0,
        )
    }
}

impl<T> Arena<T> {
    /// The free list names vacant places that can still be filled, each
    /// one once.
    pub closed spec fn wf(&self) -> bool {
        &&& forall|k: int|
            0 <= k < self.free@.len() ==> {
                &&& (#[trigger] self.free@[k]) < self.slots@.len()
                &&& self.slots@[self.free@[k] as int].value is None
                &&& self.slots@[self.free@[k] as int].generation < u64::MAX
            }
        &&& forall|j: int, k: int|
            0 <= j < k < self.free@.len() ==> self.free@[j] != self.free@[k]
    }

    /// The handle once named a value that has since been removed.
    pub closed spec fn retired(&self, h: Handle) -> bool {
        h.index < self.slots@.len() && (self.slots@[h.index as int].generation > h.generation || (
        self.slots@[h.index as int].generation == h.generation
            && self.slots@[h.index as int].value is None))
    }

    /// The number of places, vacant or not.
    pub closed spec fn capacity(&self) -> nat {
        self.slots@.len()
    }

    /// Nothing has ever been removed: every place is taken and of
    /// generation zero.
    pub closed spec fn dense(&self) -> bool {
        &&& self.free@.len() == 0
        &&& forall|i: int|
            0 <= i < self.slots@.len() ==> (#[trigger] self.slots@[i]).generation == 0
                && self.slots@[i].value is Some
    }

    /// An arena that holds nothing.
    pub fn new() -> (a: Arena<T>)
        ensures
            a.wf(),
            a@ == Map::<Handle, T>::empty(),
            a.capacity() == 0,
            a.dense(),
            forall|h: Handle| !a.retired(h),
    {
        let a = Arena { slots: Vec::new(), free: Vec::new() };
        assert(a@ =~= Map::<Handle, T>::empty());
        a
    }

    /// Whether the handle names a value.
    pub fn contains(&self, h: Handle) -> (b: bool)
        ensures
            b == self@.dom().contains(h),
    {
        h.index < self.slots.len() && self.slots[h.index].generation == h.generation
            && self.slots[h.index].value.is_some()
    }

    /// The value the handle names; `None` when it names nothing.
    pub fn get(&self, h: Handle) -> (r: Option<&T>)
        ensures
            self@.dom().contains(h) ==> r is Some && *r->0 == self@[h],
            !self@.dom().contains(h) ==> r is None,
    {
        if h.index < self.slots.len() && self.slots[h.index].generation == h.generation {
            self.slots[h.index].value.as_ref()
        } else {
            None
        }
    }

    /// The value the handle names, for changing in place; `None` when it
    /// names nothing.
    pub fn get_mut(&mut self, h: Handle) -> (r: Option<&mut T>)
        requires
            old(self).wf(),
        ensures
            !old(self)@.dom().contains(h) ==> r is None && final(self)@ == old(self)@,
            old(self)@.dom().contains(h) ==> r is Some && *r->0 == old(self)@[h] && final(self)@
                == old(self)@.insert(h, *final(r->0)),
            final(self).wf(),
            final(self).capacity() == old(self).capacity(),
            old(self).dense() ==> final(self).dense(),
            forall|g: Handle| final(self).retired(g) == old(self).retired(g),
    {
        if h.index < self.slots.len() && self.slots[h.index].generation == h.generation {
            match &mut self.slots[h.index].value {
                Some(v) => Some(v),
                None => None,
            }
        } else {
            None
        }
    }

    /// Stores `value` and returns the handle that names it from now on. The
    /// handle has never named anything before.
    pub fn insert(&mut self, value: T) -> (h: Handle)
        requires
            old(self).wf(),
        ensures
            final(self).wf(),
            !old(self)@.dom().contains(h),
            !old(self).retired(h),
            final(self)@ == old(self)@.insert(h, value),
            forall|g: Handle| old(self).retired(g) ==> final(self).retired(g),
            old(self).dense() ==> final(self).dense(),
            old(self).dense() ==> final(self).capacity() == old(self).capacity() + 1,
            old(self).dense() ==> h == (Handle {
                index: old(self).capacity() as usize,
                generation: 0,
            }),
    {
        match self.free.pop() {
            Some(index) => {
                assert(old(self).free@[old(self).free@.len() - 1] == index);
                let generation: u64 = self.slots[index].generation + 1;
                self.slots.set(index, Slot { generation, value: Some(value) });
                let h = Handle { index, generation };
                assert(self@ =~= old(self)@.insert(h, value));
                h
            },
            None => {
                let index = self.slots.len();
                self.slots.push(Slot { generation: 0, value: Some(value) });
                let h = Handle { index, generation: 0 };
                assert(self@ =~= old(self)@.insert(h, value));
                h
            },
        }
    }

    /// Takes out the value the handle names and retires the handle. `None`,
    /// and nothing changes, when the handle names nothing.
    pub fn remove(&mut self, h: Handle) -> (r: Option<T>)
        requires
            old(self).wf(),
        ensures
            final(self).wf(),
            old(self)@.dom().contains(h) ==> r == Some(old(self)@[h]),
            old(self)@.dom().contains(h) ==> final(self)@ == old(self)@.remove(h),
            old(self)@.dom().contains(h) ==> final(self).retired(h),
            !old(self)@.dom().contains(h) ==> r is None && final(self)@ == old(self)@,
            forall|g: Handle| old(self).retired(g) ==> final(self).retired(g),
    {
        if !self.contains(h) {
            return None;
        }
        let generation = self.slots[h.index].generation;
        let taken = self.slots[h.index].value.take();
        if generation < u64::MAX {
            self.free.push(h.index);
        }
        assert(self@ =~= old(self)@.remove(h));
        taken
    }

    /// The live handles, in the order of their places.
    pub fn handles(&self) -> (r: Vec<Handle>)
        ensures
            forall|h: Handle| r@.contains(h) <==> self@.dom().contains(h),
            forall|j: int, k: int| 0 <= j < k < r@.len() ==> r@[j].index < r@[k].index,
    {
        let mut out: Vec<Handle> = Vec::new();
        let mut i: usize = 0;
        while i < self.slots.len()
            invariant
                i <= self.slots@.len(),
                forall|h: Handle|
                    out@.contains(h) <==> (self@.dom().contains(h) && h.index < i),
                forall|k: int| 0 <= k < out@.len() ==> (#[trigger] out@[k]).index < i,
                forall|j: int, k: int| 0 <= j < k < out@.len() ==> out@[j].index < out@[k].index,
            decreases self.slots@.len() - i,
        {
            if self.slots[i].value.is_some() {
                let h = Handle { index: i, generation: self.slots[i].generation };
                let ghost before = out@;
                out.push(h);
                proof {
                    assert forall|g: Handle|
                        out@.contains(g) <==> (self@.dom().contains(g) && g.index < i + 1) by {
                        if out@.contains(g) {
                            let k = choose|k: int| 0 <= k < out@.len() && out@[k] == g;
                            if k < before.len() {
                                assert(before[k] == g);
                                assert(before.contains(g));
                            }
                        }
                        if self@.dom().contains(g) && g.index < i + 1 {
                            if g.index < i {
                                assert(before.contains(g));
                                let k = choose|k: int| 0 <= k < before.len() && before[k] == g;
                                assert(out@[k] == g);
                            } else {
                                assert(g == h);
                                assert(out@[before.len() as int] == g);
                            }
                        }
                    }
                }
            }
            i += 1;
        }
        out
    }
}

/// In an arena from which nothing has been removed, the live handles are
/// those of generation zero whose index is below the number of places.
pub proof fn lemma_dense_handles<T>(arena: Arena<T>, h: Handle)
    requires
        arena.dense(),
    ensures
        arena@.dom().contains(h) <==> (h.generation == 0 && h.index < arena.capacity()),
{
}

/// A handle cannot both name a value and be retired.
pub proof fn lemma_live_is_not_retired<T>(arena: Arena<T>, h: Handle)
    ensures
        !(arena@.dom().contains(h) && arena.retired(h)),
{
}

} // verus!
