//! Single producer, multiple consumer bounded queue.
//!
//! The queue holds a fixed number of elements. `push` fails when the queue is
//! full and hands the element back; `pop` fails when the queue is empty.
//!
//! The ring buffer `SpmcQueueInner` keeps its elements in the order in which
//! they were pushed, as its contracts and the laws state over a sequence
//! model; its head and tail are `RingPositions`. The producer handle
//! `SpmcQueue` and the consumer handles `SpmcQueueConsumer` share one ring
//! buffer behind vstd's reader-writer lock, and each of their operations is
//! one call of the ring buffer's.

pub mod capacity;
pub mod positions;
pub mod ring;
pub mod laws;
pub mod sync;
pub mod text;
pub mod queue;

pub use queue::{SpmcQueue, SpmcQueueConsumer};
