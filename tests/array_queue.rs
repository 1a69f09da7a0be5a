use concrust::queue::{ArrayBlockingQueue, BlockingQueue};

const CAPACITY: usize = 16;

fn enqeue_times(times: i32, queue: &ArrayBlockingQueue<i32>) {
    for i in 0..times {
        queue.enqueue(i);
    }
}

fn dequeue_times(times: i32, queue: &ArrayBlockingQueue<i32>) {
    for _ in 0..times {
        queue.dequeue();
    }
}

#[test]
fn default_queue_has_capacity_sixteen() {
    let queue: ArrayBlockingQueue<i32> = ArrayBlockingQueue::new();
    assert_eq!(queue.remaining_capacity(), 16);
    assert_eq!(queue.capacity(), 16);
}

#[test]
fn new_queue_is_empty() {
    let queue: ArrayBlockingQueue<i32> = ArrayBlockingQueue::with_capacity(CAPACITY);
    assert!(queue.is_empty());
    assert_eq!(queue.len(), 0);
}

#[test]
fn capacity_is_rounded_to_power_of_two() {
    let queue: ArrayBlockingQueue<i32> = ArrayBlockingQueue::with_capacity(10);
    assert_eq!(queue.remaining_capacity(), 16);
    let queue: ArrayBlockingQueue<i32> = ArrayBlockingQueue::with_capacity(20);
    assert_eq!(queue.remaining_capacity(), 32);
    let queue: ArrayBlockingQueue<i32> = ArrayBlockingQueue::with_capacity(40);
    assert_eq!(queue.remaining_capacity(), 64);
}

#[test]
fn capacity_is_never_below_minimum() {
    let queue: ArrayBlockingQueue<i32> = ArrayBlockingQueue::with_capacity(6);
    assert_eq!(queue.remaining_capacity(), 16);
    let queue: ArrayBlockingQueue<i32> = ArrayBlockingQueue::with_capacity(0);
    assert_eq!(queue.remaining_capacity(), 16);
}

#[test]
fn capacity_at_power_of_two_boundaries() {
    let queue: ArrayBlockingQueue<i32> = ArrayBlockingQueue::with_capacity(16);
    assert_eq!(queue.capacity(), 16);
    let queue: ArrayBlockingQueue<i32> = ArrayBlockingQueue::with_capacity(17);
    assert_eq!(queue.capacity(), 32);
    let queue: ArrayBlockingQueue<i32> = ArrayBlockingQueue::with_capacity(64);
    assert_eq!(queue.capacity(), 64);
}

#[test]
fn enqueue_makes_queue_non_empty() {
    let queue: ArrayBlockingQueue<i32> = ArrayBlockingQueue::with_capacity(CAPACITY);
    queue.enqueue(1);
    assert!(!queue.is_empty());
    assert_eq!(queue.len(), 1);
    assert_eq!(queue.remaining_capacity(), CAPACITY - 1);
}

#[test]
fn full_queue_has_len_of_capacity() {
    let queue: ArrayBlockingQueue<i32> = ArrayBlockingQueue::with_capacity(CAPACITY);
    enqeue_times(CAPACITY as i32, &queue);
    assert_eq!(queue.len(), CAPACITY);
    assert_eq!(queue.remaining_capacity(), 0);
}

#[test]
fn contains_enqueued_value() {
    let queue: ArrayBlockingQueue<i32> = ArrayBlockingQueue::with_capacity(CAPACITY);
    queue.enqueue(1);
    assert!(queue.contains(1));
}

#[test]
fn does_not_contain_value_never_enqueued() {
    let queue: ArrayBlockingQueue<i32> = ArrayBlockingQueue::with_capacity(CAPACITY);
    assert!(!queue.contains(10));
}

#[test]
fn contains_all_enqueued_values() {
    let queue: ArrayBlockingQueue<i32> = ArrayBlockingQueue::with_capacity(CAPACITY);
    queue.enqueue(10);
    queue.enqueue(20);
    queue.enqueue(30);
    queue.enqueue(40);
    assert!(queue.contains(10));
    assert!(queue.contains(20));
    assert!(queue.contains(30));
    assert!(queue.contains(40));
    assert!(!queue.contains(50));
}

#[test]
fn dequeue_empties_queue() {
    let queue: ArrayBlockingQueue<i32> = ArrayBlockingQueue::with_capacity(CAPACITY);
    queue.enqueue(1);
    queue.dequeue();
    assert!(queue.is_empty());
}

#[test]
fn dequeues_each_enqueued_value() {
    let queue: ArrayBlockingQueue<i32> = ArrayBlockingQueue::with_capacity(CAPACITY);
    queue.enqueue(10);
    assert_eq!(queue.dequeue(), 10);
    queue.enqueue(20);
    assert_eq!(queue.dequeue(), 20);
    queue.enqueue(30);
    assert_eq!(queue.dequeue(), 30);
}

#[test]
fn dequeues_in_fifo_order() {
    let queue: ArrayBlockingQueue<i32> = ArrayBlockingQueue::with_capacity(CAPACITY);
    queue.enqueue(10);
    queue.enqueue(20);
    queue.enqueue(30);
    assert_eq!(queue.dequeue(), 10);
    assert_eq!(queue.dequeue(), 20);
    assert_eq!(queue.dequeue(), 30);
}

#[test]
fn offered_value_is_inserted_when_not_full() {
    let queue: ArrayBlockingQueue<i32> = ArrayBlockingQueue::with_capacity(CAPACITY);
    assert!(queue.offer(1));
    assert!(queue.contains(1));
}

#[test]
fn peek_shows_head_without_removing_it() {
    let queue: ArrayBlockingQueue<i32> = ArrayBlockingQueue::with_capacity(CAPACITY);
    queue.enqueue(1);
    queue.enqueue(2);
    queue.enqueue(3);
    assert_eq!(queue.peek(), Some(1));
    assert_eq!(queue.peek(), Some(1));
    assert_eq!(queue.len(), 3);
}

#[test]
fn peek_on_empty_queue_is_none() {
    let queue: ArrayBlockingQueue<i32> = ArrayBlockingQueue::with_capacity(CAPACITY);
    assert_eq!(queue.peek(), None);
}

#[test]
fn size_is_kept_through_many_insertions_and_deletions() {
    let queue: ArrayBlockingQueue<i32> = ArrayBlockingQueue::with_capacity(CAPACITY);
    for _ in 0..5 {
        let size = queue.len();
        enqeue_times(8, &queue);
        assert_eq!(queue.len(), size + 8);
        let size = queue.len();
        dequeue_times(6, &queue);
        assert_eq!(queue.len(), size - 6);
    }
}

#[test]
fn enqueue_dequeue_more_than_capacity_times() {
    let queue: ArrayBlockingQueue<i32> = ArrayBlockingQueue::with_capacity(CAPACITY);
    for i in 0..2 * CAPACITY {
        let elem = i as i32;
        queue.enqueue(elem);
        assert_eq!(queue.dequeue(), elem);
    }
}

#[test]
fn accepts_offers_until_full() {
    let queue: ArrayBlockingQueue<i32> = ArrayBlockingQueue::with_capacity(CAPACITY);
    for i in 0..CAPACITY {
        assert!(queue.offer(i as i32));
    }
    assert!(!queue.offer(99));
}

#[test]
fn rejects_offer_when_full() {
    let queue: ArrayBlockingQueue<i32> = ArrayBlockingQueue::with_capacity(CAPACITY);
    for i in 0..CAPACITY {
        queue.enqueue(i as i32);
    }
    assert!(!queue.offer(100));
    assert!(!queue.contains(100));
    assert_eq!(queue.len(), CAPACITY);
}

#[test]
fn works_through_the_trait() {
    let queue: ArrayBlockingQueue<i32> = ArrayBlockingQueue::with_capacity(CAPACITY);
    let q: &dyn BlockingQueue<i32> = &queue;
    assert!(q.is_empty());
    q.enqueue(3);
    assert!(q.offer(4));
    assert!(q.contains(4));
    assert_eq!(q.peek(), Some(3));
    assert_eq!(q.len(), 2);
    assert_eq!(q.dequeue(), 3);
}

#[test]
fn clones_share_one_queue() {
    let queue: ArrayBlockingQueue<i32> = ArrayBlockingQueue::with_capacity(CAPACITY);
    let other = queue.clone();
    queue.enqueue(1);
    other.enqueue(2);
    assert_eq!(other.dequeue(), 1);
    assert_eq!(queue.dequeue(), 2);
    assert!(other.is_empty());
}
