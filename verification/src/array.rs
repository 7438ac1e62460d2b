//! The dynamic array proper, and its consuming iterator.

use crate::raw::RawVec;
use crate::raw::grown_cap;
use vstd::prelude::*;

verus! {

/// A growable array: a [`RawVec`] plus a logical length.
///
/// The slots `[0, len)` of the buffer hold the live elements, in order; the
/// slots `[len, cap)` are vacant.  The abstract value of the array is the
/// sequence of its live elements.
pub struct Vec<T> {
    buf: RawVec<T>,
    len: usize,
}

impl<T> View for Vec<T> {
    type V = Seq<T>;

    closed spec fn view(&self) -> Seq<T> {
        Seq::new(self.len as nat, |i: int| self.buf@[i].unwrap())
    }
}

impl<T> Vec<T> {
    /// Well-formed: the length fits the capacity, every slot below the
    /// length is occupied, and every slot at or above it is vacant.
    pub closed spec fn wf(&self) -> bool {
        &&& self.len <= self.buf.spec_cap()
        &&& forall|i: int| 0 <= i < self.len ==> self.buf@[i] is Some
        &&& forall|i: int| self.len <= i < self.buf.spec_cap() ==> self.buf@[i] is None
    }

    /// Capacity of the backing buffer.
    pub closed spec fn spec_cap(&self) -> nat {
        self.buf.spec_cap()
    }

    /// A fresh array with no elements and no allocation.
    pub fn new() -> (r: Self)
        ensures
            r.wf(),
            r@ == Seq::<T>::empty(),
            r.spec_cap() == 0,
    {
        let r = Vec { buf: RawVec::new(), len: 0 };
        proof {
            assert(r@ =~= Seq::<T>::empty());
        }
        r
    }

    pub fn cap(&self) -> (c: usize)
        ensures
            c == self.spec_cap(),
    {
        self.buf.cap()
    }

    /// Number of live elements.
    pub fn len(&self) -> (n: usize)
        ensures
            n == self@.len(),
    {
        self.len
    }

    /// Append `value` at the end, growing the buffer first when it is full.
    pub fn push(&mut self, value: T)
        requires
            old(self).wf(),
            2 * old(self)@.len() <= usize::MAX,
        ensures
            final(self).wf(),
            final(self)@ == old(self)@.push(value),
            final(self).spec_cap() == (if old(self)@.len() < old(self).spec_cap() {
                old(self).spec_cap()
            } else {
                grown_cap(old(self).spec_cap())
            }),
    {
        if self.len == self.buf.cap() {
            self.buf.grow();
        }
        self.buf.write(self.len, value);
        self.len = self.len + 1;
        proof {
            assert(self@ =~= old(self)@.push(value));
        }
    }

    /// Remove and return the last element; `None` when the array is empty,
    /// whether or not storage is allocated.
    pub fn pop(&mut self) -> (r: Option<T>)
        requires
            old(self).wf(),
        ensures
            final(self).wf(),
            final(self).spec_cap() == old(self).spec_cap(),
            old(self)@.len() == 0 ==> r is None && final(self)@ == old(self)@,
            old(self)@.len() > 0 ==> r == Some(old(self)@.last()) && final(self)@ == old(
                self,
            )@.drop_last(),
    {
        if self.len == 0 {
            proof {
                assert(self@ =~= old(self)@);
            }
            None
        } else {
            self.len = self.len - 1;
            let r = self.buf.take(self.len);
            proof {
                assert(self@ =~= old(self)@.drop_last());
            }
            r
        }
    }

    /// Place `value` at position `index`, shifting the elements at
    /// `[index, len)` one slot to the right.  Grows first when the buffer is
    /// full.
    pub fn insert(&mut self, index: usize, value: T)
        requires
            old(self).wf(),
            index <= old(self)@.len(),
            2 * old(self)@.len() <= usize::MAX,
        ensures
            final(self).wf(),
            final(self)@ == old(self)@.insert(index as int, value),
            final(self).spec_cap() == (if old(self)@.len() < old(self).spec_cap() {
                old(self).spec_cap()
            } else {
                grown_cap(old(self).spec_cap())
            }),
    {
        if self.len == self.buf.cap() {
            self.buf.grow();
        }
        let ghost b0 = self.buf@;
        let mut j = self.len;
        while j > index
            invariant
                index <= j <= self.len,
                self.len < self.buf.spec_cap(),
                self.len == old(self).len,
                self.buf@.len() == b0.len(),
                forall|i: int| 0 <= i < j ==> self.buf@[i] == b0[i],
                forall|i: int| j < i <= self.len ==> self.buf@[i] == b0[i - 1],
                self.buf@[j as int] is None,
                forall|i: int| self.len < i < self.buf@.len() ==> self.buf@[i] is None,
                forall|i: int| 0 <= i < self.len ==> b0[i] is Some,
                forall|i: int| self.len <= i < b0.len() ==> b0[i] is None,
            decreases j,
        {
            j = j - 1;
            proof {
                assert(self.buf@[j as int] == b0[j as int]);
                assert(b0[j as int] is Some);
            }
            let moved = self.buf.take(j);
            self.buf.write(j + 1, moved.unwrap());
        }
        self.buf.write(index, value);
        self.len = self.len + 1;
        proof {
            let s = self.buf@;
            assert forall|i: int| 0 <= i < self.len implies s[i] is Some by {
                if i < index {
                    assert(s[i] == b0[i]);
                } else if i > index {
                    assert(s[i] == b0[i - 1]);
                }
            }
            assert(self@ =~= old(self)@.insert(index as int, value));
        }
    }

    /// Remove and return the element at position `index`, shifting the
    /// elements after it one slot to the left.  The one admissible position
    /// that holds no element — `index` equal to the length, which is all the
    /// precondition admits on an empty array — yields `None` and leaves the
    /// array unchanged.
    pub fn remove(&mut self, index: usize) -> (r: Option<T>)
        requires
            old(self).wf(),
            index <= old(self)@.len(),
        ensures
            final(self).wf(),
            final(self).spec_cap() == old(self).spec_cap(),
            index == old(self)@.len() ==> r is None && final(self)@ == old(self)@,
            index < old(self)@.len() ==> r == Some(old(self)@[index as int]) && final(self)@
                == old(self)@.remove(index as int),
    {
        if index >= self.len {
            proof {
                assert(self@ =~= old(self)@);
            }
            return None;
        }
        let ghost b0 = self.buf@;
        let r = self.buf.take(index);
        let mut j = index;
        while j + 1 < self.len
            invariant
                index <= j < self.len,
                self.len <= self.buf.spec_cap(),
                self.len == old(self).len,
                self.buf@.len() == b0.len(),
                forall|i: int| 0 <= i < index ==> self.buf@[i] == b0[i],
                forall|i: int| index <= i < j ==> self.buf@[i] == b0[i + 1],
                self.buf@[j as int] is None,
                forall|i: int| j < i < self.len ==> self.buf@[i] == b0[i],
                forall|i: int| self.len <= i < self.buf@.len() ==> self.buf@[i] is None,
                forall|i: int| 0 <= i < self.len ==> b0[i] is Some,
            decreases self.len - j,
        {
            proof {
                assert(self.buf@[j + 1] == b0[j + 1]);
                assert(b0[j + 1] is Some);
            }
            let moved = self.buf.take(j + 1);
            self.buf.write(j, moved.unwrap());
            j = j + 1;
        }
        self.len = self.len - 1;
        proof {
            let s = self.buf@;
            assert forall|i: int| 0 <= i < self.len implies s[i] is Some by {
                if i < index {
                    assert(s[i] == b0[i]);
                } else {
                    assert(s[i] == b0[i + 1]);
                }
            }
            assert(self@ =~= old(self)@.remove(index as int));
        }
        r
    }

    /// Borrow the element at position `i` of the live range.
    pub fn get(&self, i: usize) -> (r: &T)
        requires
            self.wf(),
            i < self@.len(),
        ensures
            *r == self@[i as int],
    {
        self.buf.read(i)
    }

    /// Overwrite the element at position `i` of the live range; the old
    /// element is dropped.
    pub fn set_at(&mut self, i: usize, value: T)
        requires
            old(self).wf(),
            i < old(self)@.len(),
        ensures
            final(self).wf(),
            final(self)@ == old(self)@.update(i as int, value),
            final(self).spec_cap() == old(self).spec_cap(),
    {
        self.buf.write(i, value);
        proof {
            assert(self@ =~= old(self)@.update(i as int, value));
        }
    }

    /// Convert the array into a consuming iterator over its elements.  The
    /// buffer moves to the iterator verbatim, capacity and contents intact;
    /// the array gives up its cleanup duty along with its elements.
    pub fn into_iter(self) -> (it: IntoIter<T>)
        requires
            self.wf(),
        ensures
            it.wf(),
            it@ == self@,
            it.spec_cap() == self.spec_cap(),
    {
        let Vec { buf, len } = self;
        let it = IntoIter { buf, front: 0, back: len };
        proof {
            assert(it@ =~= self@);
        }
        it
    }
}

/// A consuming iterator over a [`Vec`]'s elements.
///
/// It owns the buffer the array owned, and two cursors delimit the slots
/// `[front, back)` that still hold unyielded elements.  Elements can be
/// taken from either end, in any interleaving; the iterator is exhausted
/// exactly when the cursors meet.  Slots outside the cursor range are
/// vacant, so dropping the iterator early drops each unyielded element
/// exactly once and nothing else.
pub struct IntoIter<T> {
    buf: RawVec<T>,
    front: usize,
    back: usize,
}

impl<T> View for IntoIter<T> {
    type V = Seq<T>;

    closed spec fn view(&self) -> Seq<T> {
        Seq::new((self.back - self.front) as nat, |i: int| self.buf@[self.front + i].unwrap())
    }
}

impl<T> IntoIter<T> {
    /// Well-formed: the cursors are ordered and within capacity, the slots
    /// between them are occupied, and every other slot is vacant.
    pub closed spec fn wf(&self) -> bool {
        &&& self.front <= self.back <= self.buf.spec_cap()
        &&& forall|i: int| self.front <= i < self.back ==> self.buf@[i] is Some
        &&& forall|i: int| 0 <= i < self.front ==> self.buf@[i] is None
        &&& forall|i: int| self.back <= i < self.buf.spec_cap() ==> self.buf@[i] is None
    }

    /// Capacity of the buffer the iterator took over.
    pub closed spec fn spec_cap(&self) -> nat {
        self.buf.spec_cap()
    }

    /// Yield the frontmost unyielded element, or `None` once exhausted.
    pub fn next(&mut self) -> (r: Option<T>)
        requires
            old(self).wf(),
        ensures
            final(self).wf(),
            final(self).spec_cap() == old(self).spec_cap(),
            old(self)@.len() == 0 ==> r is None && final(self)@ == old(self)@,
            old(self)@.len() > 0 ==> r == Some(old(self)@.first()) && final(self)@ == old(
                self,
            )@.drop_first(),
    {
        if self.front == self.back {
            None
        } else {
            let r = self.buf.take(self.front);
            self.front = self.front + 1;
            proof {
                assert(self@ =~= old(self)@.drop_first());
            }
            r
        }
    }

    /// Yield the backmost unyielded element, or `None` once exhausted.
    pub fn next_back(&mut self) -> (r: Option<T>)
        requires
            old(self).wf(),
        ensures
            final(self).wf(),
            final(self).spec_cap() == old(self).spec_cap(),
            old(self)@.len() == 0 ==> r is None && final(self)@ == old(self)@,
            old(self)@.len() > 0 ==> r == Some(old(self)@.last()) && final(self)@ == old(
                self,
            )@.drop_last(),
    {
        if self.front == self.back {
            None
        } else {
            self.back = self.back - 1;
            let r = self.buf.take(self.back);
            proof {
                assert(self@ =~= old(self)@.drop_last());
            }
            r
        }
    }

    /// Exact count of the elements not yet yielded: the slot distance
    /// between the two cursors, reported as both a lower and an upper bound.
    pub fn size_hint(&self) -> (r: (usize, Option<usize>))
        requires
            self.wf(),
        ensures
            r.0 == self@.len(),
            r.1 == Some(r.0),
    {
        let n = self.back - self.front;
        (n, Some(n))
    }
}

} // verus!
