//! The standard library's lock, condition variable and guard, as far as the future needs them.
//!
//! Nothing in this file is proved: each item states what is taken on trust of `std::sync`.

use crate::flag::Flag;
use std::sync::Arc;
use std::sync::Condvar;
use std::sync::Mutex;
use std::sync::MutexGuard;
use std::sync::WaitTimeoutResult;
use std::time::Duration;
use vstd::prelude::*;

verus! {

/// `std::sync::Mutex`, opaque: what it guards is seen only through a guard.
#[verifier::external_type_specification]
#[verifier::external_body]
#[verifier::reject_recursive_types(T)]
pub struct ExMutex<T: ?Sized>(Mutex<T>);

/// `std::sync::MutexGuard`, opaque: proof that the lock is held.
#[verifier::external_type_specification]
#[verifier::external_body]
#[verifier::reject_recursive_types(T)]
pub struct ExMutexGuard<'a, T: ?Sized + 'a>(MutexGuard<'a, T>);

/// `std::sync::Condvar`, opaque.
#[verifier::external_type_specification]
#[verifier::external_body]
pub struct ExCondvar(Condvar);

/// `std::sync::WaitTimeoutResult`, opaque.
#[verifier::external_type_specification]
#[verifier::external_body]
pub struct ExWaitTimeoutResult(WaitTimeoutResult);

/// `Condvar::new`: a fresh condition variable. Nothing is claimed of it.
pub assume_specification[ Condvar::new ]() -> (fresh: Condvar);

/// `Mutex::new`: a fresh lock around `t`. Nothing is claimed of it.
pub assume_specification<T>[ Mutex::<T>::new ](t: T) -> (fresh: Mutex<T>);

/// `Condvar::notify_all`: wakes every thread blocked on the condition variable.
pub assume_specification[ Condvar::notify_all ](signal: &Condvar);

/// `WaitTimeoutResult::timed_out`: whether the wait is known to have ended by its timeout.
pub assume_specification[ WaitTimeoutResult::timed_out ](outcome: &WaitTimeoutResult) -> (b: bool);

/// `Mutex::lock`: blocks until the lock is held, and returns the guard; `None` where the lock
/// is poisoned, that is, where a thread panicked while it held the lock. A thread that holds
/// the guard already must not call it again; every caller here lets its guard go first.
#[verifier::external_body]
pub(crate) fn acquire<'a, T>(slot: &'a Mutex<Option<T>>) -> (held: Option<MutexGuard<'a, Option<T>>>) {
    slot.lock().ok()
}

/// `DerefMut::deref_mut` of a guard: the guarded slot itself, for as long as the guard is borrowed.
#[verifier::external_body]
pub(crate) fn slot_mut<'a, 'b, T>(guard: &'a mut MutexGuard<'b, Option<T>>) -> (slot: &'a mut Option<T>) {
    &mut **guard
}

/// `Condvar::wait_while`: gives the lock up and sleeps until woken with the slot no longer
/// blocked, re-testing after every wakeup. Returns holding the lock again; `None` where the
/// lock is poisoned. Nothing is claimed of the slot: other threads write it while this one
/// sleeps.
#[verifier::external_body]
pub(crate) fn wait_while_blocked<'a, T>(
    signal: &Condvar,
    guard: MutexGuard<'a, Option<T>>,
    flag: &Flag,
) -> (held: Option<MutexGuard<'a, Option<T>>>) {
    signal.wait_while(guard, |slot| crate::state::still_blocked(slot, flag)).ok()
}

/// `Condvar::wait_timeout_while`: as `wait_while`, but gives up once `timeout` has passed since
/// the call began. The second component tells, through `timed_out`, whether it gave up.
/// `None` where the lock is poisoned.
#[verifier::external_body]
pub(crate) fn wait_timeout_while_blocked<'a, T>(
    signal: &Condvar,
    guard: MutexGuard<'a, Option<T>>,
    timeout: Duration,
    flag: &Flag,
) -> (held: Option<(MutexGuard<'a, Option<T>>, WaitTimeoutResult)>) {
    signal.wait_timeout_while(guard, timeout, |slot| crate::state::still_blocked(slot, flag)).ok()
}

/// `Arc::clone`: another owner of the same allocation, so equal to `owner` as a value.
#[verifier::external_body]
pub(crate) fn share<T>(owner: &Arc<T>) -> (other: Arc<T>)
    ensures
        other == *owner,
{
    Arc::clone(owner)
}

} // verus!
