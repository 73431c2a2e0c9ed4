use midy::queue::{BoundedQueue, QueueFull};

#[test]
fn queue_is_first_in_first_out() {
    let mut q: BoundedQueue<u8> = BoundedQueue::new(4);
    assert!(q.is_empty());
    assert_eq!(q.enqueue(10), Ok(()));
    assert_eq!(q.enqueue(20), Ok(()));
    assert_eq!(q.enqueue(30), Ok(()));
    assert_eq!(q.len(), 3);
    assert_eq!(q.dequeue(), Some(10));
    assert_eq!(q.dequeue(), Some(20));
    assert_eq!(q.dequeue(), Some(30));
    assert_eq!(q.dequeue(), None);
}

#[test]
fn enqueue_on_full_queue_fails_and_preserves_contents() {
    let mut q: BoundedQueue<u16> = BoundedQueue::new(16);
    for i in 0..16u16 {
        assert_eq!(q.enqueue(i), Ok(()));
    }
    assert_eq!(q.len(), 16);
    // The seventeenth item is rejected; nothing already queued moves.
    assert_eq!(q.enqueue(99), Err(QueueFull));
    assert_eq!(q.len(), 16);
    for i in 0..16u16 {
        assert_eq!(q.dequeue(), Some(i));
    }
    assert_eq!(q.dequeue(), None);
}

#[test]
fn zero_capacity_queue_rejects_everything() {
    let mut q: BoundedQueue<u8> = BoundedQueue::new(0);
    assert_eq!(q.enqueue(1), Err(QueueFull));
    assert_eq!(q.dequeue(), None);
}
