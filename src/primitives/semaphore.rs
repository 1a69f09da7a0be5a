//! A counting semaphore whose permits are handed out as scoped guards.

use crate::sync::{guarded, lock_permits, new_condvar, new_mutex, notify_all, try_lock, wait_for};
use std::sync::{Arc, Condvar, Mutex};
use vstd::prelude::*;

verus! {

/// The available count after a release from `available` under a ceiling of
/// `max`: one more, never above `max`.
pub open spec fn released(available: nat, max: nat) -> nat {
    if available < max {
        available + 1
    } else {
        available
    }
}

/// How many of `attempts` successive non-blocking acquisitions succeed when
/// `available` permits are free and none is returned meanwhile.
pub open spec fn granted(available: nat, attempts: nat) -> nat
    decreases attempts,
{
    if attempts == 0 {
        0
    } else if available > 0 {
        1 + granted((available - 1) as nat, (attempts - 1) as nat)
    } else {
        granted(available, (attempts - 1) as nat)
    }
}

/// The state of a semaphore: free permits and the ceiling they were made with.
pub struct Permits {
    available: usize,
    max: usize,
}

impl Permits {
    #[verifier::type_invariant]
    closed spec fn wf(&self) -> bool {
        self.available <= self.max
    }

    /// Number of free permits.
    pub closed spec fn free(&self) -> nat {
        self.available as nat
    }

    /// The ceiling: the number of permits the semaphore was made with.
    pub closed spec fn ceiling(&self) -> nat {
        self.max as nat
    }

    /// `n` permits, all free.
    pub fn new(n: usize) -> (p: Self)
        ensures
            p.free() == n,
            p.ceiling() == n,
    {
        Permits { available: n, max: n }
    }

    /// Number of free permits.
    pub fn available(&self) -> (r: usize)
        ensures
            r == self.free(),
            r <= self.ceiling(),
    {
        proof {
            use_type_invariant(self);
        }
        self.available
    }

    /// Number of permits the semaphore was made with.
    pub fn max_permits(&self) -> (r: usize)
        ensures
            r == self.ceiling(),
    {
        self.max
    }

    /// Whether no permit is free.
    pub fn is_exhausted(&self) -> (r: bool)
        ensures
            r == (self.free() == 0),
    {
        self.available == 0
    }

    /// Takes a free permit if there is one.
    pub fn try_take(&mut self) -> (taken: bool)
        ensures
            taken == (old(self).free() > 0),
            final(self).free() == if taken { old(self).free() - 1 } else { old(self).free() as int },
            final(self).ceiling() == old(self).ceiling(),
    {
        proof {
            use_type_invariant(&*self);
        }
        if self.available > 0 {
            self.available = self.available - 1;
            true
        } else {
            false
        }
    }

    /// Returns a permit; at the ceiling nothing changes. Returns whether the
    /// count went up, so that the waiters are to be woken.
    pub fn give_back(&mut self) -> (returned: bool)
        ensures
            final(self).free() == released(old(self).free(), old(self).ceiling()),
            returned == (old(self).free() < old(self).ceiling()),
            final(self).ceiling() == old(self).ceiling(),
        opens_invariants none
        no_unwind
    {
        if self.available < self.max {
            self.available = self.available + 1;
            true
        } else {
            false
        }
    }
}

/// The free count never exceeds the ceiling: a release at the ceiling leaves
/// it there, and from a full pool exactly `max` of any run of non-blocking
/// acquisitions succeed.
pub proof fn law_release_ceiling(max: nat, attempts: nat)
    ensures
        released(max, max) == max,
        forall|a: nat| a <= max ==> #[trigger] released(a, max) <= max,
        granted(released(max, max), attempts) == if attempts <= max { attempts } else { max },
{
    lemma_granted(max, attempts);
}

/// `attempts` non-blocking acquisitions with `available` free permits succeed
/// `min(available, attempts)` times.
proof fn lemma_granted(available: nat, attempts: nat)
    ensures
        granted(available, attempts) == if attempts <= available { attempts } else { available },
    decreases attempts,
{
    if attempts > 0 {
        if available > 0 {
            lemma_granted((available - 1) as nat, (attempts - 1) as nat);
        } else {
            lemma_granted(available, (attempts - 1) as nat);
        }
    }
}

struct SemaphoreShared {
    max_permits: usize,
    state: Mutex<Permits>,
    returned: Condvar,
}

impl SemaphoreShared {
    fn release(&self)
        opens_invariants none
        no_unwind
    {
        let mut held = lock_permits(&self.state);
        let permits = guarded(&mut held);
        if permits.give_back() {
            notify_all(&self.returned);
        }
    }
}

/// A counting, blocking semaphore. Each acquisition takes one permit, waiting
/// while none is free, and hands out a guard that returns the permit when it is
/// dropped. Clones share one semaphore.
#[derive(Clone)]
pub struct Semaphore {
    inner: Arc<SemaphoreShared>,
}

/// One permit taken from a [`Semaphore`]; dropping it returns the permit.
pub struct SemaphoreGuard<'owner> {
    owner: &'owner SemaphoreShared,
}

impl<'owner> Drop for SemaphoreGuard<'owner> {
    fn drop(&mut self)
        opens_invariants none
        no_unwind
    {
        self.owner.release();
    }
}

impl Semaphore {
    /// The ceiling: the number of permits the semaphore was made with.
    pub closed spec fn ceiling(&self) -> nat {
        self.inner.max_permits as nat
    }

    /// A semaphore with `permissions` permits, all free.
    pub fn new(permissions: usize) -> (s: Self)
        ensures
            s.ceiling() == permissions,
    {
        Semaphore {
            inner: Arc::new(
                SemaphoreShared {
                    max_permits: permissions,
                    state: new_mutex(Permits::new(permissions)),
                    returned: new_condvar(),
                },
            ),
        }
    }

    /// Takes a permit, blocking the calling thread while none is free.
    pub fn acquire(&self) -> (g: SemaphoreGuard<'_>) {
        let mut held = Some(lock_permits(&self.inner.state));
        let permits = wait_for(&self.inner.returned, &mut held, Permits::is_exhausted);
        let taken = permits.try_take();
        assert(taken);
        SemaphoreGuard { owner: &*self.inner }
    }

    /// Takes a permit without blocking: `None` when none is free, and also when
    /// another thread holds the semaphore's lock at this moment.
    pub fn try_acquire(&self) -> (g: Option<SemaphoreGuard<'_>>) {
        match try_lock(&self.inner.state) {
            Some(mut held) => {
                let permits = guarded(&mut held);
                if permits.try_take() {
                    Some(SemaphoreGuard { owner: &*self.inner })
                } else {
                    None
                }
            },
            None => None,
        }
    }

    /// Number of permits the semaphore was made with; releases never raise
    /// the free count above it.
    pub fn max_permits(&self) -> (r: usize)
        ensures
            r == self.ceiling(),
    {
        self.inner.max_permits
    }

    /// Returns a permit and wakes the waiters; at the ceiling nothing changes.
    pub fn release(&self) {
        self.inner.release();
    }
}

} // verus!
