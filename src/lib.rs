//! Blocking queues and synchronisers for threads that share work: a bounded
//! ring-buffer queue, an unbounded queue, a count-down latch and a counting
//! semaphore with a scoped permit.
//!
//! Each shared handle keeps its state behind one std mutex and applies, under
//! that lock, an operation of a plain state type whose contract is exact:
//! [`ring::RingBuffer`], [`fifo::Fifo`], [`primitives::latch::LatchCount`] and
//! [`primitives::semaphore::Permits`].

pub mod capacity;
pub mod fifo;
pub mod primitives;
pub mod queue;
pub mod ring;
mod sync;
