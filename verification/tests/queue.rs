use spmc_queue::{SpmcQueue, SpmcQueueConsumer};
use std::sync::atomic::AtomicUsize;
use std::sync::atomic::Ordering::Relaxed;
use std::sync::Arc;

#[derive(Debug)]
struct DropTest(Arc<AtomicUsize>);

impl Drop for DropTest {
    fn drop(&mut self) {
        self.0.fetch_sub(1, Relaxed);
    }
}

impl DropTest {
    fn new(inner: &Arc<AtomicUsize>) -> Self {
        let i = inner.clone();
        i.fetch_add(1, Relaxed);
        DropTest(i)
    }
}

#[test]
fn example_test() {
    let mut p = SpmcQueue::default();
    let c = p.to_consumer();
    for i in 0..10 {
        p.push(i).unwrap();
    }
    let mut r = 0;
    while let Some(i) = c.pop() {
        assert_eq!(r, i);
        r += 1;
    }
}

#[test]
fn single_thread_usize() {
    let n = 128;
    let mut p = SpmcQueue::with_capacity(128);
    let c = p.to_consumer();

    assert_eq!(c.size(), 0);
    assert!(c.is_empty());
    assert!(p.is_empty());
    assert!(!p.is_full());

    p.push(5).unwrap();

    assert_eq!(c.size(), 1);
    assert!(!c.is_empty());
    assert!(!p.is_empty());
    assert!(!p.is_full());

    assert_eq!(c.pop(), Some(5));
    assert_eq!(c.size(), 0);
    assert!(c.pop().is_none());

    for i in 0..n {
        p.push(i).unwrap();
        assert_eq!(c.size(), i + 1);
    }

    let d = c.clone();

    for i in 0..n {
        assert_eq!(c.size(), n - i);
        assert_eq!(d.size(), n - i);
        if i < n / 2 {
            assert_eq!(c.pop(), Some(i));
        } else {
            assert_eq!(d.pop(), Some(i));
        }
    }
    assert!(c.pop().is_none());
    assert!(d.pop().is_none());
    assert_eq!(c.capacity(), n);
    assert_eq!(d.capacity(), n);
    assert_eq!(p.capacity(), n);
}

#[test]
fn single_thread_box() {
    let mut p = SpmcQueue::new();
    let c = p.to_consumer();
    p.push(Box::new(5)).unwrap();
    assert_eq!(c.pop(), Some(Box::new(5)));
    assert!(c.pop().is_none());
    let c2 = c.clone();
    p.push(Box::new(42)).unwrap();
    assert_eq!(c2.pop(), Some(Box::new(42)));
    assert!(c.pop().is_none());
}

#[test]
fn fmt_test() {
    let p: SpmcQueue<usize> = SpmcQueue::with_capacity(64);
    let c = p.to_consumer();
    println!("Display: {} {}", p.to_string(), c.to_string());
    println!("Debug: {} {}", p.debug_string(), c.debug_string());
}

#[test]
fn test_to_consumer() {
    let p: SpmcQueue<usize> = SpmcQueue::with_capacity(64);
    let c1 = p.to_consumer();
    let c2 = c1.clone();
    assert_eq!(c1.capacity(), p.capacity());
    assert_eq!(c1.capacity(), c2.capacity());
    /* this consumes the queue */
    let c3 = SpmcQueueConsumer::from(p);
    assert_eq!(c1.capacity(), c3.capacity());
}

#[test]
fn single_thread_drop_test() {
    let ctr = Arc::new(AtomicUsize::new(0));
    let mut p = SpmcQueue::with_capacity(128);
    let c = p.to_consumer();
    p.push(DropTest::new(&ctr)).unwrap();
    c.pop().unwrap();
    assert!(c.pop().is_none());
    core::mem::drop(p);
    core::mem::drop(c);
    assert_eq!(ctr.load(Relaxed), 0);
}

