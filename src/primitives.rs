//! Synchronisers: a count-down latch and a counting semaphore.

pub mod latch;
pub mod semaphore;

pub use self::latch::CountDownLatch;
pub use self::semaphore::{Semaphore, SemaphoreGuard};
