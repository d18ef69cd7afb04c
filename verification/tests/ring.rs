use spmc_queue::capacity::is_valid_capacity;
use spmc_queue::SpmcQueue;
use spmc_queue::ring::SpmcQueueInner;
use spmc_queue::text::{occupancy, record};

#[test]
fn ring_starts_at_the_top_of_usize() {
    let q: SpmcQueueInner<u32> = SpmcQueueInner::with_capacity(4);
    assert_eq!(q.positions(), (usize::MAX, usize::MAX));
    assert_eq!(q.size(), 0);
    assert_eq!(q.capacity(), 4);
    assert!(q.is_empty());
    assert!(!q.is_full());
}

#[test]
fn ring_first_in_first_out() {
    let mut q = SpmcQueueInner::with_capacity(4);
    assert_eq!(q.push(10), Ok(()));
    assert_eq!(q.push(20), Ok(()));
    assert_eq!(q.push(30), Ok(()));
    assert_eq!(q.pop(), Some(10));
    assert_eq!(q.push(40), Ok(()));
    assert_eq!(q.pop(), Some(20));
    assert_eq!(q.pop(), Some(30));
    assert_eq!(q.pop(), Some(40));
    assert_eq!(q.pop(), None);
}

#[test]
fn ring_push_on_full_hands_item_back() {
    let mut q = SpmcQueueInner::with_capacity(2);
    assert_eq!(q.push("a"), Ok(()));
    assert_eq!(q.push("b"), Ok(()));
    assert!(q.is_full());
    assert_eq!(q.size(), 2);
    assert_eq!(q.push("c"), Err("c"));
    assert_eq!(q.size(), 2);
    assert_eq!(q.pop(), Some("a"));
    assert_eq!(q.pop(), Some("b"));
    assert_eq!(q.pop(), None);
}

#[test]
fn ring_pop_on_empty_changes_nothing() {
    let mut q: SpmcQueueInner<u8> = SpmcQueueInner::with_capacity(1);
    assert_eq!(q.pop(), None);
    assert_eq!(q.positions(), (usize::MAX, usize::MAX));
    assert_eq!(q.push(7), Ok(()));
    assert_eq!(q.positions(), (usize::MAX, 0));
    assert_eq!(q.pop(), Some(7));
    assert_eq!(q.positions(), (0, 0));
    assert!(q.is_empty());
}

#[test]
fn ring_survives_many_wraps_of_its_slots() {
    let mut q = SpmcQueueInner::with_capacity(8);
    let mut next_in: u64 = 0;
    let mut next_out: u64 = 0;
    for round in 0..100u64 {
        let burst = round % 9;
        for _ in 0..burst {
            match q.push(next_in) {
                Ok(()) => next_in += 1,
                Err(x) => {
                    assert_eq!(x, next_in);
                    assert!(q.is_full());
                }
            }
        }
        for _ in 0..(round % 7) {
            match q.pop() {
                Some(x) => {
                    assert_eq!(x, next_out);
                    next_out += 1;
                }
                None => assert!(q.is_empty()),
            }
        }
        assert_eq!(q.size() as u64, next_in - next_out);
        assert!(q.size() <= 8);
    }
    while let Some(x) = q.pop() {
        assert_eq!(x, next_out);
        next_out += 1;
    }
    assert_eq!(next_in, next_out);
}

#[test]
fn capacity_must_be_a_power_of_two() {
    assert!(!is_valid_capacity(0));
    assert!(is_valid_capacity(1));
    assert!(is_valid_capacity(2));
    assert!(!is_valid_capacity(3));
    assert!(is_valid_capacity(64));
    assert!(!is_valid_capacity(96));
    assert!(is_valid_capacity(1024));
    assert!(!is_valid_capacity(usize::MAX));
    assert!(is_valid_capacity(1usize << (usize::BITS - 1)));
}

#[test]
fn queue_push_on_full_hands_item_back() {
    let mut p = SpmcQueue::with_capacity(2);
    assert!(p.push(1).is_ok());
    assert!(p.push(2).is_ok());
    assert_eq!(p.push(3), Err(3));
    assert!(p.is_full());
    assert_eq!(p.pop(), Some(1));
    assert_eq!(p.pop(), Some(2));
    assert_eq!(p.pop(), None);
}

#[test]
fn consumers_share_the_queue() {
    let mut p = SpmcQueue::new();
    let c1 = p.to_consumer();
    let c2 = c1.clone();
    p.push(1).unwrap();
    p.push(2).unwrap();
    assert_eq!(c1.pop(), Some(1));
    assert_eq!(c2.pop(), Some(2));
    assert_eq!(c1.pop(), None);
    assert_eq!(p.capacity(), 1024);
}

#[test]
fn display_text_of_queue_and_consumer() {
    let mut p: SpmcQueue<usize> = SpmcQueue::with_capacity(64);
    let c = p.to_consumer();
    assert_eq!(p.to_string(), "SpmcQueue(0 out of 64)");
    p.push(3).unwrap();
    p.push(4).unwrap();
    assert_eq!(c.to_string(), "SpmcQueueConsumer(2 out of 64)");
}

#[test]
fn debug_text_of_queue_and_consumer() {
    let mut p: SpmcQueue<usize> = SpmcQueue::with_capacity(64);
    let c = p.to_consumer();
    p.push(3).unwrap();
    let max = usize::MAX;
    assert_eq!(
        p.debug_string(),
        format!("SpmcQueue {{ head: {}, tail: 0, consumers: 1, capacity: 64 }}", max)
    );
    assert_eq!(c.pop(), Some(3));
    assert_eq!(c.debug_string(), "SpmcQueueConsumer { head: 0, tail: 0, capacity: 64 }");
}

#[test]
fn occupancy_and_record_texts() {
    assert_eq!(occupancy("Q", 12, 1024), "Q(12 out of 1024)");
    assert_eq!(occupancy("Q", 0, 7), "Q(0 out of 7)");
    assert_eq!(record("R", &[("a", 0), ("bc", 305)]), "R { a: 0, bc: 305 }");
    assert_eq!(record("R", &[("x", 9)]), "R { x: 9 }");
}

#[test]
fn queue_fills_to_exactly_its_capacity() {
    let mut p = SpmcQueue::default();
    assert!(p.is_empty());
    for i in 0..p.capacity() {
        assert!(!p.is_full());
        assert_eq!(p.push(i), Ok(()));
        assert_eq!(p.size(), i + 1);
        assert!(!p.is_empty());
    }
    assert_eq!(p.push(7), Err(7));
    assert!(p.is_full());
    for i in 0..1024 {
        assert_eq!(p.pop(), Some(i));
    }
    assert!(p.is_empty());
}
