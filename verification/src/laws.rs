//! Laws of the queue, stated over the sequence model that the ring buffer's
//! `push` and `pop` follow.

use vstd::prelude::*;
use crate::ring::{push_model, pop_model};
use crate::positions::lemma_wrap_same_slot;
use crate::queue::{SpmcQueue, SpmcQueueConsumer};
use crate::capacity::{is_power_of_two, usize_range};
use vstd::arithmetic::div_mod::lemma_small_mod;

verus! {

/// The queue after pushing each element of `xs` in turn.
pub open spec fn push_all<T>(s: Seq<T>, cap: nat, xs: Seq<T>) -> Seq<T>
    decreases xs.len(),
{
    if xs.len() == 0 {
        s
    } else {
        push_all(push_model(s, cap, xs[0]).0, cap, xs.drop_first())
    }
}

/// The elements that repeated pops hand out until the queue is empty, in the
/// order in which they come.
pub open spec fn drain<T>(s: Seq<T>) -> Seq<T>
    decreases s.len(),
{
    if s.len() == 0 {
        Seq::empty()
    } else {
        match pop_model(s).1 {
            Some(x) => seq![x] + drain(pop_model(s).0),
            None => Seq::empty(),
        }
    }
}

proof fn lemma_push_all_appends<T>(s: Seq<T>, cap: nat, xs: Seq<T>)
    requires
        s.len() + xs.len() <= cap,
    ensures
        push_all(s, cap, xs) == s + xs,
    decreases xs.len(),
{
    if xs.len() == 0 {
        assert(s + xs =~= s);
    } else {
        lemma_push_all_appends(s.push(xs[0]), cap, xs.drop_first());
        assert(s.push(xs[0]) + xs.drop_first() =~= s + xs);
    }
}

proof fn lemma_drain_is_contents<T>(s: Seq<T>)
    ensures
        drain(s) == s,
    decreases s.len(),
{
    if s.len() > 0 {
        lemma_drain_is_contents(s.drop_first());
        assert(seq![s[0]] + s.drop_first() =~= s);
    } else {
        assert(s =~= Seq::<T>::empty());
    }
}

/// First in, first out: when the elements `xs` are pushed, one after the other,
/// onto a queue holding `s` with room for all of them, popping until the queue
/// is empty hands out the elements of `s` and then those of `xs`, in order.
pub proof fn law_first_in_first_out<T>(s: Seq<T>, cap: nat, xs: Seq<T>)
    requires
        s.len() + xs.len() <= cap,
    ensures
        drain(push_all(s, cap, xs)) == s + xs,
{
    lemma_push_all_appends(s, cap, xs);
    lemma_drain_is_contents(s + xs);
}

/// A push onto a full queue fails: the element comes back and the queue is
/// unchanged. A push onto a queue with room succeeds.
pub proof fn law_push_fails_exactly_when_full<T>(s: Seq<T>, cap: nat, x: T)
    requires
        s.len() <= cap,
    ensures
        push_model(s, cap, x).1 is Err <==> s.len() == cap,
        s.len() == cap ==> push_model(s, cap, x) == (s, Err::<(), T>(x)),
        push_model(s, cap, x).0.len() <= cap,
{
}

/// A pop from an empty queue fails and leaves the queue empty; a pop from a
/// queue that holds elements succeeds and removes exactly one.
pub proof fn law_pop_fails_exactly_when_empty<T>(s: Seq<T>)
    ensures
        pop_model(s).1 is None <==> s.len() == 0,
        s.len() == 0 ==> pop_model(s).0 == s,
        s.len() > 0 ==> pop_model(s).0.len() == s.len() - 1,
{
}

/// On an empty queue with room for at least one element, a pop undoes a push:
/// it hands back the pushed element and leaves the queue empty again.
pub proof fn law_pop_undoes_push_on_empty<T>(cap: nat, x: T)
    requires
        cap > 0,
    ensures
        pop_model(push_model(Seq::<T>::empty(), cap, x).0) == (Seq::<T>::empty(), Some(x)),
{
    assert(Seq::<T>::empty().push(x).drop_first() =~= Seq::<T>::empty());
}

/// Why the capacity must be a power of two: when a position `p` steps to the
/// next one, wrapping around the range of `usize`, its slot steps to the slot
/// of `p + 1`, as it does without the wrap.
pub proof fn law_wrapping_keeps_slot_order(p: usize, cap: int)
    requires
        is_power_of_two(cap),
        cap <= usize::MAX,
    ensures
        ((p + 1) % usize_range()) % cap == (p + 1) % cap,
{
    if p == usize::MAX {
        lemma_wrap_same_slot(p + 1, cap, -1);
        assert(usize_range() % usize_range() == 0) by (nonlinear_arith)
            requires usize_range() > 0;
    } else {
        lemma_small_mod((p + 1) as nat, usize_range() as nat);
    }
}

/// All consumers of one producer pop from the same queue, with the same
/// capacity; so do a consumer made by `to_consumer` and one that `from` made
/// of the producer itself.
pub proof fn law_consumers_of_one_producer_share_its_queue<T>(
    p: SpmcQueue<T>,
    c1: SpmcQueueConsumer<T>,
    c2: SpmcQueueConsumer<T>,
)
    requires
        p.feeds(&c1),
        p.feeds(&c2),
    ensures
        c1.same_queue(&c2),
        c1.spec_capacity() == c2.spec_capacity(),
{
}

/// The capacity of a queue stays the one it was made with: the producer keeps
/// it through every `push` (which leaves the producer as it was), and every
/// consumer of the queue, whether made by `to_consumer`, by cloning or by
/// `from`, reports the same.
pub proof fn law_capacity_is_fixed<T>(
    made: SpmcQueue<T>,
    later: SpmcQueue<T>,
    c: SpmcQueueConsumer<T>,
    d: SpmcQueueConsumer<T>,
)
    requires
        later == made,
        made.feeds(&c),
        c.same_queue(&d),
    ensures
        later.spec_capacity() == made.spec_capacity(),
        c.spec_capacity() == made.spec_capacity(),
        d.spec_capacity() == made.spec_capacity(),
{
}

/// However many elements are pushed, the queue never holds more than its
/// capacity.
pub proof fn law_never_over_capacity<T>(s: Seq<T>, cap: nat, xs: Seq<T>)
    requires
        s.len() <= cap,
    ensures
        push_all(s, cap, xs).len() <= cap,
    decreases xs.len(),
{
    if xs.len() > 0 {
        law_never_over_capacity(push_model(s, cap, xs[0]).0, cap, xs.drop_first());
    }
}

} // verus!
