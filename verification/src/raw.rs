//! Capacity-only backing storage for the dynamic array.

use vstd::prelude::*;

verus! {

/// Capacity after one growth step: an empty buffer acquires a single slot,
/// a non-empty one doubles.  Doubling amortizes repeated single-element
/// appends to constant time per append.
pub open spec fn grown_cap(c: nat) -> nat {
    if c == 0 {
        1
    } else {
        2 * c
    }
}

/// A buffer of element slots.
///
/// Each slot either holds a live element (`Some`) or is vacant (`None`).
/// The buffer only manages the slot count: it is created empty, grows
/// geometrically on demand, and never shrinks.  Which slots its owner
/// considers live is none of its business; the owner reads and writes
/// individual slots through [`RawVec::read`], [`RawVec::write`] and
/// [`RawVec::take`].
pub struct RawVec<T> {
    slots: Vec<Option<T>>,
}

impl<T> View for RawVec<T> {
    type V = Seq<Option<T>>;

    closed spec fn view(&self) -> Seq<Option<T>> {
        self.slots@
    }
}

impl<T> RawVec<T> {
    /// Capacity: the number of slots currently backed by storage.
    pub open spec fn spec_cap(&self) -> nat {
        self@.len()
    }

    /// A fresh buffer with no slots and no allocation.
    pub fn new() -> (r: Self)
        ensures
            r@ == Seq::<Option<T>>::empty(),
    {
        RawVec { slots: Vec::new() }
    }

    pub fn cap(&self) -> (c: usize)
        ensures
            c == self.spec_cap(),
    {
        self.slots.len()
    }

    /// Grow to the next capacity: existing slots keep their contents, the
    /// newly acquired slots are vacant.
    ///
    /// A doubling whose slot count would not be representable is ruled out
    /// by the precondition; running out of memory aborts the process inside
    /// the allocator and is not a recoverable outcome the contract speaks
    /// of.
    pub fn grow(&mut self)
        requires
            2 * old(self).spec_cap() <= usize::MAX,
        ensures
            final(self).spec_cap() == grown_cap(old(self).spec_cap()),
            forall|i: int| 0 <= i < old(self)@.len() ==> final(self)@[i] == old(self)@[i],
            forall|i: int|
                old(self)@.len() <= i < final(self)@.len() ==> final(self)@[i] is None,
    {
        let old_cap = self.slots.len();
        let new_cap = if old_cap == 0 {
            1
        } else {
            old_cap * 2
        };
        while self.slots.len() < new_cap
            invariant
                old_cap == old(self)@.len(),
                new_cap == grown_cap(old(self).spec_cap()),
                old_cap <= self.slots@.len() <= new_cap,
                forall|i: int| 0 <= i < old_cap ==> self.slots@[i] == old(self)@[i],
                forall|i: int| old_cap <= i < self.slots@.len() ==> self.slots@[i] is None,
            decreases new_cap - self.slots@.len(),
        {
            self.slots.push(None);
        }
    }

    /// Borrow the element in slot `i`, which must be occupied.
    pub fn read(&self, i: usize) -> (r: &T)
        requires
            i < self.spec_cap(),
            self@[i as int] is Some,
        ensures
            self@[i as int] == Some(*r),
    {
        self.slots[i].as_ref().unwrap()
    }

    /// Store `v` into slot `i`, dropping whatever the slot held.
    pub fn write(&mut self, i: usize, v: T)
        requires
            i < old(self).spec_cap(),
        ensures
            final(self)@ == old(self)@.update(i as int, Some(v)),
    {
        self.slots[i] = Some(v);
    }

    /// Move the contents of slot `i` out, leaving the slot vacant.
    pub fn take(&mut self, i: usize) -> (r: Option<T>)
        requires
            i < old(self).spec_cap(),
        ensures
            r == old(self)@[i as int],
            final(self)@ == old(self)@.update(i as int, None),
    {
        let slot = &mut self.slots[i];
        slot.take()
    }
}

} // verus!
