# spmc_queue

A bounded single-producer, multiple-consumer queue, verified with Verus.

- `src/capacity.rs`: power-of-two capacities and the check for them.
- `src/positions.rs`: `RingPositions`, the head and tail that wrap around the
  range of `usize`, and the slot arithmetic across the wrap.
- `src/ring.rs`: the ring buffer `SpmcQueueInner`, whose `push` and `pop` are
  proved against a sequence model.
- `src/laws.rs`: laws over that model and over the handles.
- `src/queue.rs`: the producer `SpmcQueue` and the consumers `SpmcQueueConsumer`,
  which share one `SpmcQueueInner` behind vstd's `RwLock`; each of their
  operations is one call of the ring buffer's. Elements still in the queue
  when its last handle is dropped are not dropped.
- `src/sync.rs`: `Arc::clone`, `Arc::strong_count`, and `Mutex` as a marker type.
- `src/text.rs`: the text forms `Name(size out of capacity)` and `Name { field: value }`.
- `app/lib.rs`: threads around the queue.
