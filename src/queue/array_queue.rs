//! The bounded blocking queue: a [`RingBuffer`] behind one mutex, with one
//! condition variable for consumers waiting on an empty queue and one for
//! producers waiting on a full one.

use crate::capacity::{
    is_effective_capacity, lemma_min_capacity_is_power_of_two, lemma_next_power_of_two_unique,
    MAX_REQUEST, MIN_CAPACITY,
};
use crate::queue::BlockingQueue;
use crate::ring::RingBuffer;
use crate::sync::{guarded, lock, new_condvar, new_mutex, notify_all, wait_for};
use std::sync::{Arc, Condvar, Mutex};
use vstd::prelude::*;

verus! {

#[verifier::reject_recursive_types(T)]
struct ArrayQueueShared<T> {
    capacity: usize,
    state: Mutex<RingBuffer<T>>,
    not_empty: Condvar,
    not_full: Condvar,
}

/// A bounded blocking FIFO over a ring buffer whose capacity is a power of two,
/// at least [`MIN_CAPACITY`]. Clones share one queue.
#[derive(Clone)]
#[verifier::reject_recursive_types(T)]
pub struct ArrayBlockingQueue<T> {
    inner: Arc<ArrayQueueShared<T>>,
}

impl<T> ArrayBlockingQueue<T> {
    /// Number of slots the queue was made with.
    pub closed spec fn slots(&self) -> nat {
        self.inner.capacity as nat
    }

    /// A queue of the default capacity, [`MIN_CAPACITY`].
    pub fn new() -> (q: Self)
        ensures
            q.slots() == MIN_CAPACITY,
    {
        let q = Self::with_capacity(MIN_CAPACITY);
        proof {
            lemma_min_capacity_is_power_of_two();
            lemma_next_power_of_two_unique(MIN_CAPACITY as nat, q.slots(), MIN_CAPACITY as nat);
        }
        q
    }

    /// A queue with room for `capacity` elements, rounded up to a power of two
    /// and to at least [`MIN_CAPACITY`].
    pub fn with_capacity(capacity: usize) -> (q: Self)
        requires
            capacity <= MAX_REQUEST,
        ensures
            is_effective_capacity(capacity as nat, q.slots()),
    {
        let ring = RingBuffer::with_capacity(capacity);
        ArrayBlockingQueue {
            inner: Arc::new(
                ArrayQueueShared {
                    capacity: ring.capacity(),
                    state: new_mutex(ring),
                    not_empty: new_condvar(),
                    not_full: new_condvar(),
                },
            ),
        }
    }

    /// Number of elements that can still be stored.
    pub fn remaining_capacity(&self) -> (r: usize) {
        let mut held = lock(&self.inner.state);
        let ring = guarded(&mut held);
        ring.remaining_capacity()
    }

    /// Number of slots.
    pub fn capacity(&self) -> (r: usize)
        ensures
            r == self.slots(),
    {
        self.inner.capacity
    }

    /// Number of stored elements.
    pub fn len(&self) -> (r: usize) {
        let mut held = lock(&self.inner.state);
        let ring = guarded(&mut held);
        ring.len()
    }

    /// Whether nothing is stored.
    pub fn is_empty(&self) -> (r: bool) {
        let mut held = lock(&self.inner.state);
        let ring = guarded(&mut held);
        ring.is_empty()
    }

    /// Appends `val`, blocking while the queue is full, and wakes the consumers.
    pub fn enqueue(&self, val: T) {
        let mut held = Some(lock(&self.inner.state));
        let ring = wait_for(&self.inner.not_full, &mut held, RingBuffer::<T>::is_full);
        ring.push(val);
        notify_all(&self.inner.not_empty);
    }

    /// Removes and returns the head, blocking while the queue is empty, and
    /// wakes the producers.
    pub fn dequeue(&self) -> (r: T) {
        let mut held = Some(lock(&self.inner.state));
        let ring = wait_for(&self.inner.not_empty, &mut held, RingBuffer::<T>::is_empty);
        let val = ring.pop();
        notify_all(&self.inner.not_full);
        val
    }

    /// Appends `val` and wakes the consumers if there is room; returns `false`
    /// at once, dropping `val`, when the queue is full.
    pub fn offer(&self, val: T) -> (r: bool) {
        let mut held = lock(&self.inner.state);
        let ring = guarded(&mut held);
        if ring.offer(val) {
            notify_all(&self.inner.not_empty);
            true
        } else {
            false
        }
    }
}

impl<T: Copy> ArrayBlockingQueue<T> {
    /// A copy of the head, if there is one; nothing is removed.
    pub fn peek(&self) -> (r: Option<T>) {
        let mut held = lock(&self.inner.state);
        let ring = guarded(&mut held);
        ring.peek()
    }
}

impl<T: PartialEq> ArrayBlockingQueue<T> {
    /// Whether some stored element equals `val`.
    pub fn contains(&self, val: T) -> (r: bool) {
        let mut held = lock(&self.inner.state);
        let ring = guarded(&mut held);
        ring.contains(&val)
    }
}

impl<T: PartialEq + Copy> BlockingQueue<T> for ArrayBlockingQueue<T> {
    fn len(&self) -> usize {
        ArrayBlockingQueue::len(self)
    }

    fn is_empty(&self) -> bool {
        ArrayBlockingQueue::is_empty(self)
    }

    fn enqueue(&self, e: T) {
        ArrayBlockingQueue::enqueue(self, e)
    }

    fn dequeue(&self) -> T {
        ArrayBlockingQueue::dequeue(self)
    }

    fn contains(&self, e: T) -> bool {
        ArrayBlockingQueue::contains(self, e)
    }

    fn offer(&self, e: T) -> bool {
        ArrayBlockingQueue::offer(self, e)
    }

    fn peek(&self) -> Option<T> {
        ArrayBlockingQueue::peek(self)
    }
}

} // verus!
