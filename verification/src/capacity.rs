//! Capacities of the ring buffer: powers of two, which divide the range of
//! `usize`, so that a position taken modulo the capacity stays consistent when
//! the position wraps around.

use vstd::prelude::*;
use vstd::arithmetic::power2::{pow2, lemma2_to64, lemma_pow2_unfold, lemma_pow2_adds, lemma_pow2_strictly_increases, lemma_pow2_pos};

verus! {

/// `c` is a power of two.
pub open spec fn is_power_of_two(c: int) -> bool {
    exists|k: nat| #[trigger] pow2(k) == c
}

/// The number of distinct values of `usize`.
pub open spec fn usize_range() -> int {
    usize::MAX as int + 1
}

/// A nonzero value with a single bit set is a power of two.
proof fn lemma_single_bit_is_power_of_two(c: usize)
    requires
        c != 0,
        c & ((c - 1) as usize) == 0,
    ensures
        is_power_of_two(c as int),
    decreases c,
{
    if c == 1 {
        lemma2_to64();
        assert(pow2(0) == c);
    } else {
        assert(c & 1 == 0 && (c >> 1) != 0 && (c >> 1) & (((c >> 1) - 1) as usize) == 0
            && (c >> 1) * 2 == c) by (bit_vector)
            requires
                c != 0,
                c != 1,
                c & ((c - 1) as usize) == 0,
        ;
        let h: usize = c >> 1;
        lemma_single_bit_is_power_of_two(h);
        let k = choose|k: nat| #[trigger] pow2(k) == h;
        lemma_pow2_unfold(k + 1);
        assert(pow2(k + 1) == c);
    }
}

/// A power of two that fits in `usize` has a single bit set.
proof fn lemma_power_of_two_is_single_bit(k: nat)
    requires
        pow2(k) <= usize::MAX,
    ensures
        (pow2(k) as usize) != 0,
        (pow2(k) as usize) & ((pow2(k) - 1) as usize) == 0,
    decreases k,
{
    lemma_pow2_pos(k);
    if k == 0 {
        lemma2_to64();
        let one: usize = 1;
        assert(one & ((one - 1) as usize) == 0) by (bit_vector)
            requires one == 1;
    } else {
        lemma_pow2_unfold(k);
        let h: usize = pow2((k - 1) as nat) as usize;
        lemma_power_of_two_is_single_bit((k - 1) as nat);
        let c: usize = pow2(k) as usize;
        assert(c & ((c - 1) as usize) == 0) by (bit_vector)
            requires
                h != 0,
                h & ((h - 1) as usize) == 0,
                c == h * 2,
        ;
    }
}

/// A power-of-two capacity divides the number of values of `usize`.
pub proof fn lemma_power_of_two_divides_range(cap: int)
    requires
        is_power_of_two(cap),
        cap <= usize::MAX,
    ensures
        cap > 0,
        usize_range() % cap == 0,
        usize_range() == cap * (usize_range() / cap),
{
    let k = choose|k: nat| #[trigger] pow2(k) == cap;
    lemma_pow2_pos(k);
    lemma2_to64();
    let n: nat = if usize::MAX == 0xffff_ffffusize { 32 } else { 64 };
    assert(usize_range() == pow2(n));
    if k >= n {
        if k > n {
            lemma_pow2_strictly_increases(n, k);
        }
        assert(false);
    }
    lemma_pow2_adds(k, (n - k) as nat);
    lemma_pow2_pos((n - k) as nat);
    let m: int = pow2((n - k) as nat) as int;
    assert(usize_range() == cap * m);
    assert((cap * m) / cap == m && (cap * m) % cap == 0) by (nonlinear_arith)
        requires cap > 0, m > 0;
}

/// Tells whether `capacity` is one that a queue can have: a power of two.
/// This is the check `capacity != 0 && capacity & (capacity - 1) == 0`.
pub fn is_valid_capacity(capacity: usize) -> (ok: bool)
    ensures
        ok == is_power_of_two(capacity as int),
{
    let ok = capacity != 0 && capacity & (capacity - 1) == 0;
    proof {
        if ok {
            lemma_single_bit_is_power_of_two(capacity);
        } else if is_power_of_two(capacity as int) {
            let k = choose|k: nat| #[trigger] pow2(k) == capacity;
            lemma_power_of_two_is_single_bit(k);
        }
    }
    ok
}

} // verus!
