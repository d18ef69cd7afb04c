//! The producer handle and the consumer handles of a shared queue.
//!
//! All handles of a queue point to one `SharedQueue`: a `SpmcQueueInner` ring
//! buffer behind vstd's reader-writer lock, whose predicate fixes the ring
//! buffer's capacity. `push` and `pop` take the write lock and make one call
//! of the ring buffer's `push` or `pop`; `size`, `is_full` and `is_empty` take
//! a read lock and call the ring buffer's method of the same name. The ring
//! buffer's contracts say exactly what each call does to the elements. What
//! the ring buffer holds when the lock is taken depends on what the other
//! handles, possibly on other threads, did before; so the handles' own
//! contracts state what holds of every outcome: a size within the capacity,
//! an element handed back on a failed push, a handle that keeps its queue.
//!
//! The lock keeps the ring buffer in a cell that does not drop what it holds:
//! elements still in the queue when its last handle is dropped are not
//! dropped.

use vstd::prelude::*;
use vstd::rwlock::{RwLock, RwLockPredicate};
use std::marker::PhantomData;
use std::sync::{Arc, Mutex};
use crate::capacity::is_power_of_two;
use crate::positions::wrapped_distance;
use crate::ring::SpmcQueueInner;
use crate::sync::{share, strong_count};
use crate::text::{occupancy, occupancy_text, record, record_text};

verus! {

/// The predicate of the ring buffer's lock: its capacity is `cap`.
pub struct RingCapacityIs {
    pub cap: usize,
}

impl<T> RwLockPredicate<SpmcQueueInner<T>> for RingCapacityIs {
    open spec fn inv(self, q: SpmcQueueInner<T>) -> bool {
        q.spec_capacity() == self.cap
    }
}

/// The state that all handles of one queue share.
#[verifier::reject_recursive_types(T)]
pub struct SharedQueue<T> {
    ring: RwLock<SpmcQueueInner<T>, RingCapacityIs>,
    cap: usize,
    marker: PhantomData<Mutex<T>>,
}

/// Queue producer structure used for pushing elements into the queue.
///
/// There can be only one producer. It cannot be cloned, but it can be moved
/// to another thread.
#[verifier::reject_recursive_types(T)]
pub struct SpmcQueue<T> {
    inner: Arc<SharedQueue<T>>,
}

/// Queue consumer structure, used only for popping elements from the queue.
///
/// It is made from a producer by `SpmcQueue::to_consumer`, or by cloning an
/// existing consumer.
#[verifier::reject_recursive_types(T)]
pub struct SpmcQueueConsumer<T> {
    inner: Arc<SharedQueue<T>>,
}

impl<T> SharedQueue<T> {
    #[verifier::type_invariant]
    spec fn inv(&self) -> bool {
        &&& self.ring.pred().cap == self.cap
        &&& is_power_of_two(self.cap as int)
    }

    /// The largest number of elements the queue can hold.
    pub closed spec fn spec_capacity(&self) -> nat {
        self.cap as nat
    }

    /// An empty queue with room for `capacity` elements.
    fn new(capacity: usize) -> (q: Self)
        requires
            is_power_of_two(capacity as int),
        ensures
            q.spec_capacity() == capacity,
    {
        let ring = RwLock::new(SpmcQueueInner::with_capacity(capacity), Ghost(RingCapacityIs { cap: capacity }));
        SharedQueue { ring, cap: capacity, marker: PhantomData }
    }

    /// The largest number of elements the queue can hold: a power of two.
    fn capacity(&self) -> (c: usize)
        ensures
            c == self.spec_capacity(),
            is_power_of_two(c as int),
    {
        proof {
            use_type_invariant(self);
        }
        self.cap
    }

    /// One `push` of the ring buffer, under the write lock.
    fn push(&self, item: T) -> (r: Result<(), T>)
        ensures
            r matches Err(x) ==> x == item,
    {
        let (mut ring, handle) = self.ring.acquire_write();
        let r = ring.push(item);
        handle.release_write(ring);
        r
    }

    /// One `pop` of the ring buffer, under the write lock.
    fn pop(&self) -> Option<T> {
        let (mut ring, handle) = self.ring.acquire_write();
        let r = ring.pop();
        handle.release_write(ring);
        r
    }

    /// The head and the tail of the ring buffer, read together; at most the
    /// capacity apart.
    fn positions(&self) -> (p: (usize, usize))
        ensures
            wrapped_distance(p.0, p.1) <= self.spec_capacity(),
    {
        proof {
            use_type_invariant(self);
        }
        let reader = self.ring.acquire_read();
        let p = reader.borrow().positions();
        reader.release_read();
        p
    }

    /// The ring buffer's `size`, under a read lock: at most the capacity.
    fn size(&self) -> (n: usize)
        ensures
            n <= self.spec_capacity(),
    {
        proof {
            use_type_invariant(self);
        }
        let reader = self.ring.acquire_read();
        let n = reader.borrow().size();
        reader.release_read();
        n
    }

    /// The ring buffer's `is_full`, under a read lock.
    fn is_full(&self) -> bool {
        let reader = self.ring.acquire_read();
        let full = reader.borrow().is_full();
        reader.release_read();
        full
    }

    /// The ring buffer's `is_empty`, under a read lock.
    fn is_empty(&self) -> bool {
        let reader = self.ring.acquire_read();
        let empty = reader.borrow().is_empty();
        reader.release_read();
        empty
    }
}

impl<T> SpmcQueue<T> {
    /// The queue this producer pushes onto.
    pub closed spec fn shared(&self) -> SharedQueue<T> {
        *self.inner
    }

    /// The largest number of elements the queue can hold.
    pub open spec fn spec_capacity(&self) -> nat {
        self.shared().spec_capacity()
    }

    /// Whether `c` is a handle on the same shared queue as this producer: the
    /// value behind both `Arc`s is the same, as it is for a consumer made by
    /// `to_consumer`, by cloning such a consumer, or by `from`.
    pub open spec fn feeds(&self, c: &SpmcQueueConsumer<T>) -> bool {
        self.shared() == c.shared()
    }

    /// Creates a new empty queue with room for 1024 elements.
    pub fn new() -> (q: Self)
        ensures
            q.spec_capacity() == 1024,
    {
        proof {
            vstd::arithmetic::power2::lemma2_to64();
            assert(vstd::arithmetic::power2::pow2(10) == 1024);
        }
        Self::with_capacity(1024)
    }

    /// Creates a new empty queue with room for `capacity` elements, which
    /// must be a power of two.
    pub fn with_capacity(capacity: usize) -> (q: Self)
        requires
            is_power_of_two(capacity as int),
        ensures
            q.spec_capacity() == capacity,
    {
        SpmcQueue { inner: Arc::new(SharedQueue::new(capacity)) }
    }

    /// Pushes an element to the tail of the queue.
    ///
    /// On failure, when the queue is full, the element is handed back in
    /// `Err`. The producer keeps its queue.
    pub fn push(&mut self, item: T) -> (r: Result<(), T>)
        ensures
            r matches Err(x) ==> x == item,
            *final(self) == *old(self),
    {
        self.inner.push(item)
    }

    /// Pops an element from the head of the queue, or returns `None` when the
    /// queue is empty.
    pub fn pop(&self) -> Option<T> {
        self.inner.pop()
    }

    /// Creates a new consumer for the queue.
    pub fn to_consumer(&self) -> (c: SpmcQueueConsumer<T>)
        ensures
            self.feeds(&c),
            c.spec_capacity() == self.spec_capacity(),
    {
        SpmcQueueConsumer::new(share(&self.inner))
    }

    /// The largest number of elements the queue can hold.
    pub fn capacity(&self) -> (c: usize)
        ensures
            c == self.spec_capacity(),
            is_power_of_two(c as int),
    {
        self.inner.capacity()
    }

    /// The current number of elements in the queue, at most the capacity.
    pub fn size(&self) -> (n: usize)
        ensures
            n <= self.spec_capacity(),
    {
        self.inner.size()
    }

    /// Whether the queue is full.
    pub fn is_full(&self) -> bool {
        self.inner.is_full()
    }

    /// Whether the queue is empty.
    pub fn is_empty(&self) -> bool {
        self.inner.is_empty()
    }

    /// `SpmcQueue(size out of capacity)`.
    pub fn to_string(&self) -> (s: String)
        ensures
            exists|n: usize| n <= self.spec_capacity()
                && s@ == occupancy_text("SpmcQueue"@, n as nat, self.spec_capacity()),
    {
        let n = self.size();
        let s = occupancy("SpmcQueue", n, self.capacity());
        assert(s@ == occupancy_text("SpmcQueue"@, n as nat, self.spec_capacity()));
        s
    }

    /// `SpmcQueue { head: .., tail: .., consumers: .., capacity: .. }`, where
    /// `consumers` counts the other handles of the queue.
    pub fn debug_string(&self) -> (s: String)
        ensures
            exists|h: usize, t: usize, k: usize| wrapped_distance(h, t) <= self.spec_capacity()
                && s@ == record_text("SpmcQueue"@, seq![
                ("head"@, h as nat), ("tail"@, t as nat), ("consumers"@, k as nat),
                ("capacity"@, self.spec_capacity())]),
    {
        let (head, tail) = self.inner.positions();
        let consumers = strong_count(&self.inner) - 1;
        let capacity = self.capacity();
        let fields = [("head", head), ("tail", tail), ("consumers", consumers), ("capacity", capacity)];
        let s = record("SpmcQueue", &fields);
        assert(fields@.map_values(|f: (&str, usize)| (f.0@, f.1 as nat)) =~= seq![
                ("head"@, head as nat), ("tail"@, tail as nat), ("consumers"@, consumers as nat),
                ("capacity"@, self.spec_capacity())]);
        s
    }
}

impl<T> SpmcQueueConsumer<T> {
    /// The queue this consumer pops from.
    pub closed spec fn shared(&self) -> SharedQueue<T> {
        *self.inner
    }

    /// The largest number of elements the queue can hold.
    pub open spec fn spec_capacity(&self) -> nat {
        self.shared().spec_capacity()
    }

    /// Whether this consumer and `other` are handles on the same shared queue:
    /// the value behind both `Arc`s is the same.
    pub open spec fn same_queue(&self, other: &SpmcQueueConsumer<T>) -> bool {
        self.shared() == other.shared()
    }

    /// The consumer that a producer turns into.
    pub closed spec fn consumer_of(p: SpmcQueue<T>) -> Self {
        SpmcQueueConsumer { inner: p.inner }
    }

    fn new(inner: Arc<SharedQueue<T>>) -> (c: Self)
        ensures
            c.inner == inner,
    {
        SpmcQueueConsumer { inner }
    }

    /// Pops an element from the head of the queue, or returns `None` when the
    /// queue is empty.
    pub fn pop(&self) -> Option<T> {
        self.inner.pop()
    }

    /// The current number of elements in the queue, at most the capacity.
    pub fn size(&self) -> (n: usize)
        ensures
            n <= self.spec_capacity(),
    {
        self.inner.size()
    }

    /// The largest number of elements the queue can hold.
    pub fn capacity(&self) -> (c: usize)
        ensures
            c == self.spec_capacity(),
            is_power_of_two(c as int),
    {
        self.inner.capacity()
    }

    /// Whether the queue is empty.
    pub fn is_empty(&self) -> bool {
        self.inner.is_empty()
    }

    /// `SpmcQueueConsumer(size out of capacity)`.
    pub fn to_string(&self) -> (s: String)
        ensures
            exists|n: usize| n <= self.spec_capacity()
                && s@ == occupancy_text("SpmcQueueConsumer"@, n as nat, self.spec_capacity()),
    {
        let n = self.size();
        let s = occupancy("SpmcQueueConsumer", n, self.capacity());
        assert(s@ == occupancy_text("SpmcQueueConsumer"@, n as nat, self.spec_capacity()));
        s
    }

    /// `SpmcQueueConsumer { head: .., tail: .., capacity: .. }`.
    pub fn debug_string(&self) -> (s: String)
        ensures
            exists|h: usize, t: usize| wrapped_distance(h, t) <= self.spec_capacity()
                && s@ == record_text("SpmcQueueConsumer"@, seq![
                ("head"@, h as nat), ("tail"@, t as nat), ("capacity"@, self.spec_capacity())]),
    {
        let (head, tail) = self.inner.positions();
        let capacity = self.capacity();
        let fields = [("head", head), ("tail", tail), ("capacity", capacity)];
        let s = record("SpmcQueueConsumer", &fields);
        assert(fields@.map_values(|f: (&str, usize)| (f.0@, f.1 as nat)) =~= seq![
                ("head"@, head as nat), ("tail"@, tail as nat), ("capacity"@, self.spec_capacity())]);
        s
    }
}

impl<T> Default for SpmcQueue<T> {
    /// An empty queue with room for 1024 elements.
    fn default() -> (q: Self)
        ensures
            q.spec_capacity() == 1024,
    {
        Self::new()
    }
}

impl<T> Clone for SpmcQueueConsumer<T> {
    /// Another consumer of the same queue.
    fn clone(&self) -> (c: Self)
        ensures
            self.same_queue(&c),
            c.spec_capacity() == self.spec_capacity(),
    {
        SpmcQueueConsumer::new(share(&self.inner))
    }
}

impl<T> From<SpmcQueue<T>> for SpmcQueueConsumer<T> {
    /// Turns the producer into a consumer of the same queue.
    fn from(p: SpmcQueue<T>) -> (c: Self)
        ensures
            p.feeds(&c),
            c.spec_capacity() == p.spec_capacity(),
    {
        SpmcQueueConsumer::new(p.inner)
    }
}

impl<T> vstd::std_specs::convert::FromSpecImpl<SpmcQueue<T>> for SpmcQueueConsumer<T> {
    open spec fn obeys_from_spec() -> bool {
        true
    }

    open spec fn from_spec(p: SpmcQueue<T>) -> Self {
        SpmcQueueConsumer::consumer_of(p)
    }
}

} // verus!
