//! The unbounded blocking queue: a [`Fifo`] behind one mutex and one condition
//! variable for consumers waiting on an empty queue. Producers never wait.
//!
//! One lock guards both ends: `contains` has to see the whole queue anyway,
//! and a producer that makes the queue non-empty wakes the consumers while
//! holding the lock they wait under, so no wake-up is lost. The size is also
//! kept in an atomic counter, so that `size` and `is_empty` take no lock.

use crate::fifo::Fifo;
use crate::queue::BlockingQueue;
use crate::sync::{guarded, lock, new_condvar, new_mutex, notify_all, wait_for};
use std::sync::atomic::{AtomicUsize, Ordering};
use std::sync::{Arc, Condvar, Mutex};
use vstd::prelude::*;

verus! {

#[verifier::reject_recursive_types(T)]
struct LinkedShared<T> {
    state: Mutex<Fifo<T>>,
    size: AtomicUsize,
    not_empty: Condvar,
}

/// An unbounded blocking FIFO: `enqueue` always succeeds at once, `dequeue`
/// waits while the queue is empty. Clones share one queue.
#[derive(Clone)]
#[verifier::reject_recursive_types(T)]
pub struct UnboundedBlockingQueue<T> {
    inner: Arc<LinkedShared<T>>,
}

impl<T> UnboundedBlockingQueue<T> {
    /// An empty queue.
    pub fn new() -> (q: Self) {
        UnboundedBlockingQueue {
            inner: Arc::new(
                LinkedShared {
                    state: new_mutex(Fifo::new()),
                    size: AtomicUsize::new(0),
                    not_empty: new_condvar(),
                },
            ),
        }
    }

    /// Number of stored elements, read without taking the lock. The count is
    /// kept in an atomic counter beside the [`Fifo`], updated under the lock
    /// with each push and pop; no contract ties the counter to the queue's
    /// contents.
    pub fn size(&self) -> (r: usize) {
        self.inner.size.load(Ordering::SeqCst)
    }

    /// Whether nothing is stored, read without taking the lock.
    pub fn is_empty(&self) -> (r: bool) {
        self.size() == 0
    }

    /// Appends `val`; wakes the consumers when the queue was empty.
    pub fn enqueue(&self, val: T) {
        let mut held = lock(&self.inner.state);
        let fifo = guarded(&mut held);
        let was_empty = fifo.is_empty();
        fifo.push(val);
        self.inner.size.fetch_add(1, Ordering::SeqCst);
        if was_empty {
            notify_all(&self.inner.not_empty);
        }
    }

    /// Removes and returns the head, blocking while the queue is empty.
    pub fn dequeue(&self) -> (r: T) {
        let mut held = Some(lock(&self.inner.state));
        let fifo = wait_for(&self.inner.not_empty, &mut held, Fifo::<T>::is_empty);
        let val = fifo.pop();
        self.inner.size.fetch_sub(1, Ordering::SeqCst);
        val
    }

    /// Appends `val`; always `true`, as the queue has no bound.
    pub fn offer(&self, val: T) -> (r: bool)
        ensures
            r,
    {
        self.enqueue(val);
        true
    }
}

impl<T: Copy> UnboundedBlockingQueue<T> {
    /// A copy of the head, if there is one; nothing is removed.
    pub fn peek(&self) -> (r: Option<T>) {
        let mut held = lock(&self.inner.state);
        let fifo = guarded(&mut held);
        fifo.peek()
    }
}

impl<T: PartialEq> UnboundedBlockingQueue<T> {
    /// Whether some stored element equals `val`.
    pub fn contains(&self, val: T) -> (r: bool) {
        let mut held = lock(&self.inner.state);
        let fifo = guarded(&mut held);
        fifo.contains(&val)
    }
}

impl<T: PartialEq + Copy> BlockingQueue<T> for UnboundedBlockingQueue<T> {
    fn len(&self) -> usize {
        UnboundedBlockingQueue::size(self)
    }

    fn is_empty(&self) -> bool {
        UnboundedBlockingQueue::is_empty(self)
    }

    fn enqueue(&self, e: T) {
        UnboundedBlockingQueue::enqueue(self, e)
    }

    fn dequeue(&self) -> T {
        UnboundedBlockingQueue::dequeue(self)
    }

    fn contains(&self, e: T) -> bool {
        UnboundedBlockingQueue::contains(self, e)
    }

    fn offer(&self, e: T) -> (r: bool)
        ensures
            r,
    {
        UnboundedBlockingQueue::offer(self, e)
    }

    fn peek(&self) -> Option<T> {
        UnboundedBlockingQueue::peek(self)
    }
}

} // verus!
