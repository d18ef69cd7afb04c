//! The standard library's shared ownership, as the queue handles use it, and
//! the mutex type whose thread-safety bounds the handles take on.

use vstd::prelude::*;
use std::sync::{Arc, Mutex};

verus! {

/// `std::sync::Mutex`, named only as a marker type: a queue of `T` may be sent
/// to and shared between threads exactly when a `Mutex<T>` may.
#[verifier::external_type_specification]
#[verifier::external_body]
#[verifier::reject_recursive_types(T)]
pub struct ExMutex<T: ?Sized>(Mutex<T>);

/// Calls `Arc::clone`, which makes another pointer to the same allocation;
/// the claim is that it points to the same value.
#[verifier::external_body]
pub(crate) fn share<X>(a: &Arc<X>) -> (b: Arc<X>)
    ensures
        b == *a,
{
    Arc::clone(a)
}

/// Calls `Arc::strong_count`, the number of `Arc` pointers to the allocation;
/// the claim is only that `a` itself counts, so it is at least one. The number
/// changes as other threads clone and drop their pointers.
#[verifier::external_body]
pub(crate) fn strong_count<X>(a: &Arc<X>) -> (n: usize)
    ensures
        n >= 1,
{
    Arc::strong_count(a)
}

} // verus!
