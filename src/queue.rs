//! The operations both blocking queues offer.

use vstd::prelude::*;

mod array_queue;
mod linked_queue;

pub use self::array_queue::ArrayBlockingQueue;
pub use self::linked_queue::UnboundedBlockingQueue;

verus! {

/// A FIFO shared between threads: producers block while it is full,
/// consumers while it is empty.
pub trait BlockingQueue<T> {
    /// Number of stored elements.
    fn len(&self) -> usize;

    /// Whether nothing is stored.
    fn is_empty(&self) -> bool;

    /// Appends `e`, waiting while the queue is full.
    fn enqueue(&self, e: T);

    /// Removes and returns the head, waiting while the queue is empty.
    fn dequeue(&self) -> T;

    /// Whether some stored element equals `e`.
    fn contains(&self, e: T) -> bool;

    /// Appends `e` unless the queue is full; never waits.
    fn offer(&self, e: T) -> bool;

    /// A copy of the head, if there is one.
    fn peek(&self) -> Option<T>;
}

} // verus!
