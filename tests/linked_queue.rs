use concrust::queue::{BlockingQueue, UnboundedBlockingQueue};

#[test]
fn unbounded_new_queue_is_empty() {
    let queue: UnboundedBlockingQueue<i32> = UnboundedBlockingQueue::new();
    assert!(queue.is_empty());
    assert_eq!(queue.size(), 0);
}

#[test]
fn unbounded_enqueue_increases_size() {
    let queue: UnboundedBlockingQueue<i32> = UnboundedBlockingQueue::new();
    queue.enqueue(1);
    assert!(!queue.is_empty());
    assert_eq!(queue.size(), 1);
}

#[test]
fn unbounded_dequeue_decreases_size() {
    let queue: UnboundedBlockingQueue<i32> = UnboundedBlockingQueue::new();
    queue.enqueue(1);
    queue.enqueue(2);
    assert_eq!(queue.dequeue(), 1);
    assert_eq!(queue.size(), 1);
}

#[test]
fn unbounded_dequeues_in_fifo_order() {
    let queue: UnboundedBlockingQueue<i32> = UnboundedBlockingQueue::new();
    queue.enqueue(10);
    queue.enqueue(20);
    queue.enqueue(30);
    assert_eq!(queue.dequeue(), 10);
    assert_eq!(queue.dequeue(), 20);
    assert_eq!(queue.dequeue(), 30);
    assert!(queue.is_empty());
}

#[test]
fn unbounded_contains_enqueued_values() {
    let queue: UnboundedBlockingQueue<i32> = UnboundedBlockingQueue::new();
    assert!(!queue.contains(10));
    queue.enqueue(10);
    queue.enqueue(20);
    queue.enqueue(30);
    queue.enqueue(40);
    assert!(queue.contains(10));
    assert!(queue.contains(20));
    assert!(queue.contains(30));
    assert!(queue.contains(40));
    assert!(!queue.contains(50));
}

#[test]
fn unbounded_offer_always_accepts() {
    let queue: UnboundedBlockingQueue<i32> = UnboundedBlockingQueue::new();
    for i in 0..1000 {
        assert!(queue.offer(i));
    }
    assert_eq!(queue.size(), 1000);
    assert!(queue.contains(999));
}

#[test]
fn unbounded_peek_does_not_remove() {
    let queue: UnboundedBlockingQueue<i32> = UnboundedBlockingQueue::new();
    assert_eq!(queue.peek(), None);
    queue.enqueue(1);
    queue.enqueue(2);
    assert_eq!(queue.peek(), Some(1));
    assert_eq!(queue.peek(), Some(1));
    assert_eq!(queue.size(), 2);
}

#[test]
fn unbounded_works_through_the_trait() {
    let queue: UnboundedBlockingQueue<i32> = UnboundedBlockingQueue::new();
    let q: &dyn BlockingQueue<i32> = &queue;
    q.enqueue(1);
    q.enqueue(2);
    assert_eq!(q.len(), 2);
    assert_eq!(q.peek(), Some(1));
    assert_eq!(q.dequeue(), 1);
    assert!(!q.is_empty());
}
