//! The std locking primitives the shared handles block on. Verus sees these
//! types as opaque: nothing below states what a mutex holds. What is inside
//! is known only through the type invariant of the state type stored there.

use std::sync::{Condvar, Mutex, MutexGuard, PoisonError};
use crate::primitives::semaphore::Permits;
use vstd::prelude::*;

verus! {

#[verifier::external_type_specification]
#[verifier::external_body]
#[verifier::reject_recursive_types(T)]
pub struct ExMutex<T: ?Sized>(Mutex<T>);

#[verifier::external_type_specification]
#[verifier::external_body]
#[verifier::reject_recursive_types(T)]
pub struct ExMutexGuard<'a, T: ?Sized + 'a>(MutexGuard<'a, T>);

#[verifier::external_type_specification]
#[verifier::external_body]
pub struct ExCondvar(Condvar);

/// Relies on `Mutex::new`: wraps `s` in a fresh, unlocked mutex.
#[verifier::external_body]
pub(crate) fn new_mutex<S>(s: S) -> (r: Mutex<S>) {
    Mutex::new(s)
}

/// Relies on `Mutex::lock`: blocks until the calling thread holds `m`.
/// A poisoned mutex is taken over with `PoisonError::into_inner`, so the call
/// does not fail. std lets `lock` panic when the calling thread already holds
/// `m`, so this may unwind.
#[verifier::external_body]
pub(crate) fn lock<S>(m: &Mutex<S>) -> (r: MutexGuard<'_, S>) {
    m.lock().unwrap_or_else(PoisonError::into_inner)
}

/// Relies on `Mutex::lock`, as [`lock`] does, for the mutex of a semaphore's
/// permits. No code outside this crate runs while that mutex is held, and no
/// function of this crate locks it while holding it, so the one case in which
/// std lets `lock` panic does not arise and the call does not unwind. A
/// permit guard's `Drop` relies on this.
#[verifier::external_body]
pub(crate) fn lock_permits(m: &Mutex<Permits>) -> (r: MutexGuard<'_, Permits>)
    opens_invariants none
    no_unwind
{
    m.lock().unwrap_or_else(PoisonError::into_inner)
}

/// Relies on `Mutex::try_lock`: takes `m` if no thread holds it, and never
/// blocks; `None` when it is held. A poisoned mutex is taken over as in [`lock`].
#[verifier::external_body]
pub(crate) fn try_lock<S>(m: &Mutex<S>) -> (r: Option<MutexGuard<'_, S>>) {
    match m.try_lock() {
        Ok(g) => Some(g),
        Err(std::sync::TryLockError::Poisoned(p)) => Some(p.into_inner()),
        Err(std::sync::TryLockError::WouldBlock) => None,
    }
}

/// Relies on `MutexGuard`'s `DerefMut`: the value the held mutex protects.
#[verifier::external_body]
pub(crate) fn guarded<'a, 'b, S>(g: &'b mut MutexGuard<'a, S>) -> (r: &'b mut S)
    opens_invariants none
    no_unwind
{
    &mut **g
}

/// Relies on `Condvar::new`: a condition variable with no waiters.
#[verifier::external_body]
pub(crate) fn new_condvar() -> (r: Condvar) {
    Condvar::new()
}

/// Relies on `Condvar::wait_while`: releases the mutex held in `held` while
/// `blocked` is true of the protected value, re-checking it after every
/// wake-up, and returns with the mutex held again and `blocked` false of the
/// value handed out. When the mutex was poisoned, `wait_while` returns the
/// guard inside its error without a final check; that guard is handed back
/// to `wait_while`, which tests `blocked` before it waits, until it returns
/// `Ok`.
#[verifier::external_body]
pub(crate) fn wait_for<'a, 'b, S, B: Fn(&S) -> bool>(
    cv: &Condvar,
    held: &'b mut Option<MutexGuard<'a, S>>,
    blocked: B,
) -> (r: &'b mut S)
    requires
        old(held).is_some(),
        forall|s: &S| blocked.requires((s,)),
    ensures
        blocked.ensures((&*r,), false),
{
    let mut g = held.take().unwrap();
    loop {
        match cv.wait_while(g, |s| blocked(s)) {
            Ok(ready) => {
                *held = Some(ready);
                return &mut **held.as_mut().unwrap();
            },
            Err(p) => g = p.into_inner(),
        }
    }
}

/// Relies on `Condvar::notify_all`: wakes every thread waiting on `cv`.
#[verifier::external_body]
pub(crate) fn notify_all(cv: &Condvar)
    opens_invariants none
    no_unwind
{
    cv.notify_all()
}

} // verus!
