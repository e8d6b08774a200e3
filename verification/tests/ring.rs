use bp3d_logger::handler::LogQueue;
use bp3d_logger::util::Location;
use bp3d_logger::{Level, LogMsg, RingBuffer};

#[test]
fn ring_is_fifo() {
    let mut r: RingBuffer<u32> = RingBuffer::new(4);
    assert!(r.is_empty());
    assert_eq!(r.capacity(), 4);
    assert!(r.push(1).is_ok());
    assert!(r.push(2).is_ok());
    assert!(r.push(3).is_ok());
    assert_eq!(r.len(), 3);
    assert_eq!(r.pop(), Some(1));
    assert_eq!(r.pop(), Some(2));
    assert_eq!(r.pop(), Some(3));
    assert_eq!(r.pop(), None);
}

#[test]
fn push_refuses_when_full() {
    let mut r: RingBuffer<u32> = RingBuffer::new(2);
    assert!(r.push(1).is_ok());
    assert!(r.push(2).is_ok());
    assert!(r.is_full());
    assert_eq!(r.push(3), Err(3));
    assert_eq!(r.len(), 2);
    assert_eq!(r.pop(), Some(1));
}

#[test]
fn force_push_evicts_the_oldest() {
    let mut r: RingBuffer<u32> = RingBuffer::new(2);
    assert_eq!(r.force_push(10), None);
    assert_eq!(r.force_push(20), None);
    assert_eq!(r.force_push(30), Some(10));
    assert_eq!(r.len(), 2);
    assert_eq!(r.pop(), Some(20));
    assert_eq!(r.pop(), Some(30));
}

#[test]
fn ring_never_exceeds_capacity() {
    let mut r: RingBuffer<u32> = RingBuffer::new(3);
    let mut i: u32 = 0;
    while i < 10 {
        r.force_push(i);
        assert!(r.len() <= 3);
        i += 1;
    }
    assert_eq!(r.pop(), Some(7));
}

#[test]
fn ring_clear_empties() {
    let mut r: RingBuffer<u32> = RingBuffer::new(3);
    assert!(r.push(1).is_ok());
    r.clear();
    assert!(r.is_empty());
    assert_eq!(r.pop(), None);
}

#[test]
fn log_queue_keeps_the_newest() {
    let mut q = LogQueue::new(2);
    let l = Location::new("app", "a.rs", 1);
    q.force_push(LogMsg::from_msg(l, Level::Info, "one"));
    q.force_push(LogMsg::from_msg(l, Level::Info, "two"));
    q.force_push(LogMsg::from_msg(l, Level::Info, "three"));
    assert_eq!(q.pop().unwrap().msg(), "two");
    assert_eq!(q.pop().unwrap().msg(), "three");
    assert!(q.pop().is_none());
}

#[test]
fn log_queue_default_then_clear() {
    let mut q = LogQueue::default();
    let l = Location::new("app", "a.rs", 1);
    q.force_push(LogMsg::from_msg(l, Level::Info, "one"));
    q.clear();
    assert!(q.pop().is_none());
}
