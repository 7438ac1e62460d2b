//! Container-wide properties, stated over the abstract sequences that the
//! operation contracts use.

use crate::raw::grown_cap;
use vstd::prelude::*;

verus! {

/// `c` is a power of two.
pub open spec fn is_pow2(c: nat) -> bool
    decreases c,
{
    if c <= 1 {
        c == 1
    } else {
        c % 2 == 0 && is_pow2((c / 2) as nat)
    }
}

/// The capacity is as tight as the growth policy allows for the length: an
/// array that has only ever been pushed to has either no allocation at all,
/// or the smallest power-of-two capacity that fits its elements.
pub open spec fn tight_cap(cap: nat, len: nat) -> bool {
    if cap == 0 {
        len == 0
    } else {
        is_pow2(cap) && len <= cap && cap < 2 * len
    }
}

/// Growth correctness: a fresh array satisfies `tight_cap(0, 0)` by
/// definition, and every push preserves `tight_cap` — the capacity clause of
/// [`crate::array::Vec::push`] says the new capacity is exactly the
/// expression below.  Hence after any number of pushes with no intervening
/// pops the capacity is 0 for an empty array and otherwise the smallest
/// power of two at or above the length, following 0, 1, 2, 4, 8, ...
pub proof fn lemma_capacity_growth(cap: nat, len: nat)
    requires
        tight_cap(cap, len),
    ensures
        tight_cap(
            if len < cap {
                cap
            } else {
                grown_cap(cap)
            },
            len + 1,
        ),
{
    if len >= cap && cap > 0 {
        assert((2 * cap) % 2 == 0);
        assert((2 * cap) / 2 == cap);
        assert(is_pow2(2 * cap));
    }
}

/// Last-in, first-out at the tail: a pop directly after a push yields the
/// pushed value and restores the sequence of elements exactly.  The push
/// contract turns the abstract value `s` into `s.push(v)`; the pop contract
/// then returns `Some` of its last element and leaves its `drop_last`, which
/// are `v` and `s` themselves.  Applied n times, n pushes of v1, ..., vn
/// followed by n pops yield vn, ..., v1.
pub proof fn lemma_push_then_pop<T>(s: Seq<T>, v: T)
    ensures
        s.push(v).len() == s.len() + 1,
        s.push(v).last() == v,
        s.push(v).drop_last() == s,
{
    assert(s.push(v).drop_last() =~= s);
}

/// Insert/remove round-trip: for any array value and any valid position
/// `i`, removing at `i` right after inserting `x` at `i` yields `x` back
/// and restores the original element sequence exactly.  The two operation
/// contracts turn `s` into `s.insert(i, x)` and back into
/// `s.insert(i, x).remove(i)`, with `Some(s.insert(i, x)[i])` returned.
pub proof fn lemma_insert_then_remove<T>(s: Seq<T>, i: int, x: T)
    requires
        0 <= i <= s.len(),
    ensures
        s.insert(i, x).len() == s.len() + 1,
        s.insert(i, x)[i] == x,
        s.insert(i, x).remove(i) == s,
{
    s.insert_ensures(i, x);
    s.insert(i, x).remove_ensures(i);
    assert(s.insert(i, x).remove(i) =~= s);
}

/// Front drain step: taking the first element shortens the remainder by
/// exactly one and removes one occurrence of exactly that element from the
/// bag of unyielded elements.  Together with [`lemma_drain_back`] and the
/// iterator contracts — which yield `first`/`last` and keep
/// `drop_first`/`drop_last`, returning `None` exactly on the empty
/// remainder — any interleaving of front and back consumption of an
/// iterator over n elements yields all n, each exactly once, and ends
/// exhausted in both directions.
pub proof fn lemma_drain_front<T>(s: Seq<T>)
    requires
        s.len() > 0,
    ensures
        s.drop_first().len() == s.len() - 1,
        s.drop_first().to_multiset() == s.to_multiset().remove(s.first()),
        s.to_multiset().count(s.first()) > 0,
{
    broadcast use vstd::seq_lib::group_to_multiset_ensures;

    assert(s.drop_first() =~= s.remove(0));
    assert(s.contains(s.first()));
}

/// Back drain step: the mirror image of [`lemma_drain_front`] for taking
/// the last element.
pub proof fn lemma_drain_back<T>(s: Seq<T>)
    requires
        s.len() > 0,
    ensures
        s.drop_last().len() == s.len() - 1,
        s.drop_last().to_multiset() == s.to_multiset().remove(s.last()),
        s.to_multiset().count(s.last()) > 0,
{
    broadcast use vstd::seq_lib::group_to_multiset_ensures;

    assert(s.drop_last() =~= s.remove(s.len() - 1));
    assert(s.contains(s.last()));
}

} // verus!
