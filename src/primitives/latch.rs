//! A one-shot count-down latch: threads wait until the count reaches zero.

use crate::sync::{guarded, lock, new_condvar, new_mutex, notify_all, wait_for};
use std::sync::{Arc, Condvar, Mutex};
use vstd::prelude::*;

verus! {

/// The count after one count-down from `c`: one less, never below zero.
pub open spec fn counted_down(c: nat) -> nat {
    if c > 0 {
        (c - 1) as nat
    } else {
        0
    }
}

/// The count after `n` count-downs from `c`.
pub open spec fn counted_down_times(c: nat, n: nat) -> nat
    decreases n,
{
    if n == 0 {
        c
    } else {
        counted_down_times(counted_down(c), (n - 1) as nat)
    }
}

/// The state of a latch: how many count-downs are still awaited.
pub struct LatchCount {
    count: usize,
}

impl View for LatchCount {
    type V = nat;

    closed spec fn view(&self) -> nat {
        self.count as nat
    }
}

impl LatchCount {
    /// A latch that opens after `counts` count-downs; with zero it is open.
    pub fn new(counts: usize) -> (l: Self)
        ensures
            l@ == counts,
    {
        LatchCount { count: counts }
    }

    /// The current count.
    pub fn get(&self) -> (r: usize)
        ensures
            r == self@,
    {
        self.count
    }

    /// Whether the count has reached zero.
    pub fn is_open(&self) -> (r: bool)
        ensures
            r == (self@ == 0),
    {
        self.count == 0
    }

    /// Whether count-downs are still awaited.
    pub fn is_closed(&self) -> (r: bool)
        ensures
            r == (self@ != 0),
    {
        self.count != 0
    }

    /// Counts down once; at zero nothing changes. Returns whether this call
    /// brought the count to zero, so that the waiters are to be woken.
    pub fn count_down(&mut self) -> (opened: bool)
        ensures
            final(self)@ == counted_down(old(self)@),
            opened == (old(self)@ == 1),
    {
        if self.count > 0 {
            self.count = self.count - 1;
            self.count == 0
        } else {
            false
        }
    }
}

/// Counting down never goes below zero: `n` count-downs from `c` leave
/// `c - n`, or zero once `n >= c`; a latch at zero stays at zero.
pub proof fn law_count_down_one_shot(c: nat, n: nat)
    ensures
        counted_down_times(c, n) == if n >= c { 0 } else { (c - n) as nat },
        counted_down_times(0, n) == 0,
    decreases n,
{
    if n > 0 {
        law_count_down_one_shot(counted_down(c), (n - 1) as nat);
        law_count_down_one_shot(0, (n - 1) as nat);
    }
}

struct LatchShared {
    state: Mutex<LatchCount>,
    opened: Condvar,
}

/// A synchronisation aid that lets threads wait until a number of
/// count-downs, made by other threads, has happened. Once the count is zero
/// every waiter is released and later waits return at once; the count is never
/// reset. Clones share one latch.
#[derive(Clone)]
pub struct CountDownLatch {
    inner: Arc<LatchShared>,
}

impl CountDownLatch {
    /// A latch that opens after `counts` count-downs.
    pub fn new(counts: usize) -> (l: Self) {
        CountDownLatch {
            inner: Arc::new(
                LatchShared { state: new_mutex(LatchCount::new(counts)), opened: new_condvar() },
            ),
        }
    }

    /// Blocks the calling thread until the count is zero.
    pub fn wait(&self) {
        let mut held = Some(lock(&self.inner.state));
        let latch = wait_for(&self.inner.opened, &mut held, LatchCount::is_closed);
        assert(latch@ == 0);
    }

    /// Counts down once, waking every waiter when the count reaches zero; at
    /// zero it does nothing.
    pub fn count_down(&self) {
        let mut held = lock(&self.inner.state);
        let latch = guarded(&mut held);
        if latch.count_down() {
            notify_all(&self.inner.opened);
        }
    }

    /// The current count.
    pub fn get_counts(&self) -> (r: usize) {
        let mut held = lock(&self.inner.state);
        let latch = guarded(&mut held);
        latch.get()
    }
}

} // verus!
