//! A bounded first-in first-out ring buffer: slots indexed by its
//! `RingPositions`.

use vstd::prelude::*;
use crate::capacity::{is_power_of_two, usize_range};
use crate::positions::{RingPositions, offset_slot, lemma_slots_distinct, wrapped_distance};

verus! {

/// The state and result of pushing `x` onto a queue holding `s` with room for
/// `cap` elements: the element goes to the back, unless the queue is full, in
/// which case it comes back and the queue stays as it was.
pub open spec fn push_model<T>(s: Seq<T>, cap: nat, x: T) -> (Seq<T>, Result<(), T>) {
    if s.len() >= cap {
        (s, Err(x))
    } else {
        (s.push(x), Ok(()))
    }
}

/// The state and result of popping from a queue holding `s`: the front
/// element, or nothing when the queue is empty.
pub open spec fn pop_model<T>(s: Seq<T>) -> (Seq<T>, Option<T>) {
    if s.len() == 0 {
        (s, None)
    } else {
        (s.drop_first(), Some(s[0]))
    }
}

/// A bounded first-in first-out ring buffer of `T`.
pub struct SpmcQueueInner<T> {
    slots: Vec<Option<T>>,
    pos: RingPositions,
}

impl<T> SpmcQueueInner<T> {
    /// The largest number of elements the ring buffer can hold.
    pub closed spec fn spec_capacity(&self) -> nat {
        self.slots@.len()
    }

    /// The position of the front element.
    pub closed spec fn spec_head(&self) -> usize {
        self.pos.spec_head()
    }

    /// The position where the next element goes.
    pub closed spec fn spec_tail(&self) -> usize {
        self.pos.spec_tail()
    }

    #[verifier::type_invariant]
    spec fn inv(&self) -> bool {
        &&& self.slots@.len() == self.pos.spec_capacity()
        &&& forall|i: int| 0 <= i < self.pos.spec_len() ==> (#[trigger] self.slots@[self.pos.slot_of(i)]) is Some
    }
}

impl<T> SpmcQueueInner<T> {
    /// An empty ring buffer with room for `capacity` elements. Both positions
    /// start at `usize::MAX`.
    pub fn with_capacity(capacity: usize) -> (q: Self)
        requires
            is_power_of_two(capacity as int),
        ensures
            q@ == Seq::<T>::empty(),
            q.spec_capacity() == capacity,
            q.spec_head() == usize::MAX,
            q.spec_tail() == usize::MAX,
    {
        let mut slots: Vec<Option<T>> = Vec::with_capacity(capacity);
        let mut i: usize = 0;
        while i < capacity
            invariant
                i <= capacity,
                slots@.len() == i,
            decreases capacity - i,
        {
            slots.push(None);
            i = i + 1;
        }
        let q = SpmcQueueInner { slots, pos: RingPositions::new(capacity) };
        assert(q@ =~= Seq::<T>::empty());
        q
    }

    /// The largest number of elements the ring buffer can hold: a power of two.
    pub fn capacity(&self) -> (c: usize)
        ensures
            c == self.spec_capacity(),
            is_power_of_two(c as int),
    {
        proof {
            use_type_invariant(self);
        }
        self.pos.capacity()
    }

    /// The number of elements held: the distance from the head to the tail.
    pub fn size(&self) -> (n: usize)
        ensures
            n == self@.len(),
            n <= self.spec_capacity(),
    {
        proof {
            use_type_invariant(self);
            use_type_invariant(&self.pos);
        }
        self.pos.size()
    }

    /// Whether the ring buffer holds as many elements as it has room for.
    pub fn is_full(&self) -> (b: bool)
        ensures
            b == (self@.len() == self.spec_capacity()),
    {
        self.size() == self.capacity()
    }

    /// Whether the ring buffer holds no element.
    pub fn is_empty(&self) -> (b: bool)
        ensures
            b == (self@.len() == 0),
    {
        self.size() == 0
    }

    /// The positions of the head and of the tail.
    pub fn positions(&self) -> (p: (usize, usize))
        ensures
            p == (self.spec_head(), self.spec_tail()),
            p.1 as int == (p.0 + self@.len()) % usize_range(),
            wrapped_distance(p.0, p.1) <= self.spec_capacity(),
    {
        proof {
            use_type_invariant(self);
            use_type_invariant(&self.pos);
        }
        self.pos.positions()
    }

    /// Puts `item` at the back. When the ring buffer is full, it is left as
    /// it was and `item` is handed back in `Err`.
    pub fn push(&mut self, item: T) -> (r: Result<(), T>)
        ensures
            (final(self)@, r) == push_model(old(self)@, old(self).spec_capacity(), item),
            final(self).spec_capacity() == old(self).spec_capacity(),
            final(self).spec_head() == old(self).spec_head(),
            r is Ok ==> final(self).spec_tail() as int == (old(self).spec_tail() + 1) % usize_range(),
            r is Err ==> final(self).spec_tail() == old(self).spec_tail(),
    {
        proof {
            use_type_invariant(&*self);
            use_type_invariant(&self.pos);
        }
        if self.pos.size() == self.pos.capacity() {
            return Err(item);
        }
        let idx = self.pos.tail_slot();
        let ghost len = self.pos.spec_len();
        let ghost head = self.pos.spec_head() as int;
        let ghost c = self.slots@.len() as int;
        let ghost old_view = self@;
        proof {
            assert forall|i: int| 0 <= i < len implies #[trigger] offset_slot(head, i, c) != idx
                && self.slots@[offset_slot(head, i, c)] is Some by {
                lemma_slots_distinct(head, i, len, c);
                assert(self.slots@[self.pos.slot_of(i)] is Some);
            }
        }
        let mut incoming: Option<T> = Some(item);
        std::mem::swap(&mut self.slots[idx], &mut incoming);
        proof {
            assert forall|i: int| 0 <= i <= len implies (#[trigger] self.slots@[offset_slot(head, i, c)]) is Some by {
                if i < len {
                    assert(offset_slot(head, i, c) != idx);
                }
            }
        }
        self.pos.advance_tail();
        proof {
            assert(self@ =~= old_view.push(item)) by {
                assert forall|i: int| 0 <= i < len implies self@[i] == old_view[i] by {
                    assert(offset_slot(head, i, c) != idx);
                }
            }
        }
        Ok(())
    }

    /// Takes the front element out, or returns `None` when the ring buffer is
    /// empty, leaving it as it was.
    pub fn pop(&mut self) -> (r: Option<T>)
        ensures
            (final(self)@, r) == pop_model(old(self)@),
            final(self).spec_capacity() == old(self).spec_capacity(),
            final(self).spec_tail() == old(self).spec_tail(),
            r is Some ==> final(self).spec_head() as int == (old(self).spec_head() + 1) % usize_range(),
            r is None ==> final(self).spec_head() == old(self).spec_head(),
    {
        proof {
            use_type_invariant(&*self);
            use_type_invariant(&self.pos);
        }
        if self.pos.size() == 0 {
            assert(self@ =~= Seq::<T>::empty());
            return None;
        }
        let idx = self.pos.head_slot();
        let ghost len = self.pos.spec_len();
        let ghost head = self.pos.spec_head() as int;
        let ghost c = self.slots@.len() as int;
        let ghost old_view = self@;
        let ghost old_pos = self.pos;
        proof {
            assert(self.slots@[self.pos.slot_of(0)] is Some);
            assert forall|i: int| 0 <= i < len - 1 implies (#[trigger] self.slots@[offset_slot(head, i + 1, c)]) is Some
                && offset_slot(head, i + 1, c) != idx by {
                lemma_slots_distinct(head, 0, i + 1, c);
                assert(self.slots@[self.pos.slot_of(i + 1)] is Some);
            }
        }
        self.pos.advance_head();
        proof {
            assert forall|i: int| 0 <= i < len - 1 implies #[trigger] self.pos.slot_of(i) != idx by {
                assert(self.pos.slot_of(i) == old_pos.slot_of(i + 1));
            }
        }
        let mut taken: Option<T> = None;
        std::mem::swap(&mut self.slots[idx], &mut taken);
        proof {
            assert(self@ =~= old_view.drop_first()) by {
                assert forall|i: int| 0 <= i < len - 1 implies self@[i] == old_view[i + 1] by {
                    assert(self.pos.slot_of(i) == old_pos.slot_of(i + 1));
                }
            }
        }
        taken
    }
}

impl<T> View for SpmcQueueInner<T> {
    type V = Seq<T>;

    /// The elements held, front first.
    closed spec fn view(&self) -> Seq<T> {
        Seq::new(self.pos.spec_len() as nat, |i: int| self.slots@[self.pos.slot_of(i)]->0)
    }
}

} // verus!
