//! The head and tail positions of a ring buffer of power-of-two capacity.
//!
//! Positions count pushes and pops modulo the range of `usize`; both start at
//! `usize::MAX`, so the first push already wraps the tail around to zero. The
//! element at position `p` lives in slot `p % capacity`, which stays
//! consistent across the wrap because the capacity is a power of two.

use vstd::prelude::*;
use vstd::arithmetic::div_mod::{lemma_fundamental_div_mod, lemma_mod_multiples_vanish, lemma_small_mod, lemma_mod_add_multiples_vanish};
use crate::capacity::{is_power_of_two, usize_range, lemma_power_of_two_divides_range};

verus! {

/// The number of steps from position `from` forward to position `to`, modulo
/// the range of `usize`.
pub open spec fn wrapped_distance(from: usize, to: usize) -> int {
    if from <= to {
        to - from
    } else {
        to - from + usize_range()
    }
}

/// The slot, among `cap`, of the position `i` steps after `base`.
pub open spec fn offset_slot(base: int, i: int, cap: int) -> int {
    (base + i) % cap
}

/// Positions that differ by a multiple of the range of `usize` fall on the
/// same slot of a power-of-two capacity.
pub proof fn lemma_wrap_same_slot(x: int, cap: int, k: int)
    requires
        is_power_of_two(cap),
        cap <= usize::MAX,
    ensures
        (x + k * usize_range()) % cap == x % cap,
{
    lemma_power_of_two_divides_range(cap);
    let m = usize_range() / cap;
    assert(k * usize_range() == cap * (k * m)) by (nonlinear_arith)
        requires
            usize_range() == cap * m,
    ;
    lemma_mod_multiples_vanish(k * m, x, cap);
}

/// The tail is `len` steps after the head, modulo the range of `usize`.
proof fn lemma_tail_follows_head(head: usize, tail: usize)
    ensures
        tail as int == (head + wrapped_distance(head, tail)) % usize_range(),
        head <= tail ==> tail == head + wrapped_distance(head, tail),
        head > tail ==> tail == head + wrapped_distance(head, tail) - usize_range(),
{
    lemma_small_mod(tail as nat, usize_range() as nat);
    if head > tail {
        lemma_mod_add_multiples_vanish(tail as int, usize_range());
    }
}

/// Fewer than `cap` consecutive positions fall on distinct slots.
pub proof fn lemma_slots_distinct(a: int, i: int, j: int, cap: int)
    requires
        cap > 0,
        0 <= i < j < cap,
    ensures
        offset_slot(a, i, cap) != offset_slot(a, j, cap),
{
    lemma_fundamental_div_mod(a + i, cap);
    lemma_fundamental_div_mod(a + j, cap);
    let q1 = (a + i) / cap;
    let q2 = (a + j) / cap;
    if (a + i) % cap == (a + j) % cap {
        let r = (a + i) % cap;
        assert(false) by (nonlinear_arith)
            requires
                a + i == cap * q1 + r,
                a + j == cap * q2 + r,
                0 < j - i < cap,
        ;
    }
}

/// The head and tail positions of a ring buffer with room for `cap` elements.
pub struct RingPositions {
    head: usize,
    tail: usize,
    cap: usize,
}

impl RingPositions {
    /// The position of the front element.
    pub closed spec fn spec_head(&self) -> usize {
        self.head
    }

    /// The position where the next element goes.
    pub closed spec fn spec_tail(&self) -> usize {
        self.tail
    }

    /// The largest number of elements the ring buffer can hold.
    pub closed spec fn spec_capacity(&self) -> nat {
        self.cap as nat
    }

    /// The number of elements held.
    pub open spec fn spec_len(&self) -> int {
        wrapped_distance(self.spec_head(), self.spec_tail())
    }

    /// The slot of the element at offset `i` from the front.
    pub open spec fn slot_of(&self, i: int) -> int {
        offset_slot(self.spec_head() as int, i, self.spec_capacity() as int)
    }

    #[verifier::type_invariant]
    pub(crate) closed spec fn inv(&self) -> bool {
        &&& is_power_of_two(self.cap as int)
        &&& wrapped_distance(self.head, self.tail) <= self.cap
    }

    /// Positions of an empty ring buffer with room for `capacity` elements:
    /// both at `usize::MAX`.
    pub fn new(capacity: usize) -> (p: Self)
        requires
            is_power_of_two(capacity as int),
        ensures
            p.spec_head() == usize::MAX,
            p.spec_tail() == usize::MAX,
            p.spec_capacity() == capacity,
            p.spec_len() == 0,
    {
        RingPositions { head: usize::MAX, tail: usize::MAX, cap: capacity }
    }

    /// The largest number of elements the ring buffer can hold: a nonzero
    /// power of two.
    pub fn capacity(&self) -> (c: usize)
        ensures
            c == self.spec_capacity(),
            is_power_of_two(c as int),
            c > 0,
    {
        proof {
            use_type_invariant(self);
            lemma_power_of_two_divides_range(self.cap as int);
        }
        self.cap
    }

    /// The number of elements held: the distance from the head to the tail,
    /// at most the capacity.
    pub fn size(&self) -> (n: usize)
        ensures
            n == self.spec_len(),
            n <= self.spec_capacity(),
    {
        proof {
            use_type_invariant(self);
        }
        self.tail.wrapping_sub(self.head)
    }

    /// The head and the tail; the tail is the size's number of steps after
    /// the head.
    pub fn positions(&self) -> (p: (usize, usize))
        ensures
            p == (self.spec_head(), self.spec_tail()),
            p.1 as int == (p.0 + self.spec_len()) % usize_range(),
            wrapped_distance(p.0, p.1) <= self.spec_capacity(),
    {
        proof {
            use_type_invariant(self);
            lemma_tail_follows_head(self.head, self.tail);
        }
        (self.head, self.tail)
    }

    /// The slot of the front element.
    pub fn head_slot(&self) -> (s: usize)
        ensures
            s == self.slot_of(0),
            s < self.spec_capacity(),
    {
        proof {
            use_type_invariant(self);
            lemma_power_of_two_divides_range(self.cap as int);
        }
        self.head % self.cap
    }

    /// The slot where the next element goes: the one after the last element.
    pub fn tail_slot(&self) -> (s: usize)
        ensures
            s == self.slot_of(self.spec_len()),
            s < self.spec_capacity(),
    {
        proof {
            use_type_invariant(self);
            lemma_power_of_two_divides_range(self.cap as int);
            lemma_tail_follows_head(self.head, self.tail);
            let len = wrapped_distance(self.head, self.tail);
            if self.head > self.tail {
                lemma_wrap_same_slot(self.head + len, self.cap as int, -1);
            }
        }
        self.tail % self.cap
    }

    /// Moves the tail one position on, after an element was put in the tail
    /// slot.
    pub fn advance_tail(&mut self)
        requires
            old(self).spec_len() < old(self).spec_capacity(),
        ensures
            final(self).spec_head() == old(self).spec_head(),
            final(self).spec_capacity() == old(self).spec_capacity(),
            final(self).spec_tail() as int == (old(self).spec_tail() + 1) % usize_range(),
            final(self).spec_len() == old(self).spec_len() + 1,
        no_unwind
    {
        proof {
            use_type_invariant(&*self);
            lemma_power_of_two_divides_range(self.cap as int);
            if self.tail < usize::MAX {
                lemma_small_mod((self.tail + 1) as nat, usize_range() as nat);
            }
        }
        // `wrapping_add(1)`, written out so that it is known not to unwind
        self.tail = if self.tail == usize::MAX { 0 } else { self.tail + 1 };
    }

    /// Moves the head one position on, after the front element was taken out
    /// of the head slot. Every element then has the slot of the one behind it
    /// before.
    pub fn advance_head(&mut self)
        requires
            old(self).spec_len() > 0,
        ensures
            final(self).spec_tail() == old(self).spec_tail(),
            final(self).spec_capacity() == old(self).spec_capacity(),
            final(self).spec_head() as int == (old(self).spec_head() + 1) % usize_range(),
            final(self).spec_len() == old(self).spec_len() - 1,
            forall|i: int| #[trigger] final(self).slot_of(i) == old(self).slot_of(i + 1),
        no_unwind
    {
        proof {
            use_type_invariant(&*self);
            if self.head < usize::MAX {
                lemma_small_mod((self.head + 1) as nat, usize_range() as nat);
            }
        }
        let ghost old_head = self.head as int;
        let ghost c = self.cap as int;
        // `wrapping_add(1)`, written out so that it is known not to unwind
        self.head = if self.head == usize::MAX { 0 } else { self.head + 1 };
        proof {
            assert forall|i: int| #[trigger] offset_slot(self.head as int, i, c) == offset_slot(old_head, i + 1, c) by {
                if old_head == usize::MAX {
                    lemma_wrap_same_slot(old_head + (i + 1), c, -1);
                }
            }
        }
    }
}

} // verus!
