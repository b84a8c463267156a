//! The shared cell and the two handles on it.

use crate::flag::Flag;
use crate::state::accepted;
use crate::state::claim;
use crate::state::fill;
use crate::state::settle;
use crate::sync::acquire;
use crate::sync::share;
use crate::sync::slot_mut;
use crate::sync::wait_timeout_while_blocked;
use crate::sync::wait_while_blocked;
use crate::text::cell_text;
use crate::text::glimpse;
use crate::text::handle_text;
use crate::text::render_cell;
use crate::text::render_handle;
use crate::text::Glimpse;
use std::sync::atomic::AtomicBool;
use std::sync::Arc;
use std::sync::Condvar;
use std::sync::Mutex;
use std::time::Duration;
use vstd::prelude::*;

verus! {

/// The cell that both handles share: the value slot behind its lock, and the signal that
/// waiters sleep on.
#[verifier::reject_recursive_types(T)]
pub struct Future<T> {
    signal: Condvar,
    result: Mutex<Option<T>>,
}

impl<T> Future<T> {
    /// An empty cell with a fresh signal.
    pub fn new() -> (cell: Self) {
        Self { signal: Condvar::new(), result: Mutex::new(None) }
    }

    /// Looks at the slot: locks it and tells whether it is full, or that the lock is poisoned.
    pub fn look(&self) -> (seen: Glimpse) {
        match acquire(&self.result) {
            None => Glimpse::Poisoned,
            Some(mut guard) => glimpse(slot_mut(&mut guard)),
        }
    }

    /// Describes the cell as it is seen now, without showing the value.
    pub fn describe(&self) -> (text: String)
        ensures
            exists|seen: Glimpse| text@ == cell_text(seen),
    {
        render_cell(self.look())
    }
}

/// The setter's pass through the cell's lock. When it goes away, it takes the lock and gives
/// it back at once. A waiter holds the lock from its test of the flag until it sleeps, so after
/// the pass every waiter that tested the flag before it was raised is asleep, and hears the
/// wake-up that follows.
#[verifier::reject_recursive_types(T)]
struct Fence<T> {
    cell: Arc<Future<T>>,
}

impl<T> Drop for Fence<T> {
    /// `Mutex::lock` on the cell's slot; the guard, or the poison, is let go at once. Taken on
    /// trust: the call does not unwind.
    #[verifier::external_body]
    fn drop(&mut self)
        opens_invariants none
        no_unwind
    {
        let _pass = self.cell.result.lock();
    }
}

/// The setter's share of the cell. When it goes away, every waiter is woken, so that none
/// sleeps on after its producer has gone.
#[verifier::reject_recursive_types(T)]
struct Waker<T> {
    cell: Arc<Future<T>>,
}

impl<T> Drop for Waker<T> {
    /// `Condvar::notify_all` on the cell's signal. Taken on trust: the call does not unwind.
    #[verifier::external_body]
    fn drop(&mut self)
        opens_invariants none
        no_unwind
    {
        self.cell.signal.notify_all();
    }
}

/// The producer's handle. It supplies the value, once, or cancels. Dropping it without having
/// set cancels: the fields go in the order written, so the flag is raised first, the lock is
/// passed through next, and the waiters are woken last.
#[verifier::reject_recursive_types(T)]
pub struct Setter<T> {
    cancelled: Flag,
    fence: Fence<T>,
    future: Waker<T>,
}

impl<T> Setter<T> {
    /// The cell this handle is bound to.
    pub closed spec fn cell(&self) -> Future<T> {
        *self.future.cell
    }

    /// The cancellation flag this handle is bound to.
    pub closed spec fn flag(&self) -> AtomicBool {
        self.cancelled.shared()
    }

    /// A setter bound to `future` and `cancelled`.
    pub(crate) fn new(future: Arc<Future<T>>, cancelled: Flag) -> (setter: Self)
        ensures
            setter.cell() == *future,
            setter.flag() == cancelled.shared(),
    {
        let fence = Fence { cell: share(&future) };
        Self { cancelled, fence, future: Waker { cell: future } }
    }

    /// Reads the cancellation flag, without taking the lock.
    pub fn is_cancelled(&self) -> (cancelled: bool) {
        self.cancelled.is_raised()
    }

    /// Describes the handle as it is seen now.
    pub fn describe(&self) -> (text: String)
        ensures
            exists|seen: Glimpse, cancelled: bool| text@ == handle_text("Setter"@, seen, cancelled),
    {
        render_handle("Setter", self.look(), self.is_cancelled())
    }

    /// Looks at the cell's slot.
    pub fn look(&self) -> (seen: Glimpse) {
        self.future.cell.look()
    }

    /// Raises the cancellation flag and wakes every waiter. Between the two it passes through
    /// the cell's lock, so that a waiter which tested the flag just before is asleep by then
    /// and hears the wake-up.
    pub fn cancel(&self) {
        self.cancelled.raise();
        {
            let _pass = acquire(&self.future.cell.result);
        }
        self.future.cell.signal.notify_all();
    }

    /// Hands `value` over, unless the future is seen to be cancelled: then `value` is dropped.
    /// A value that was written leaves the flag as it is: the handle goes without cancelling.
    /// On a poisoned lock nothing is written and the handle goes as one that never set: the
    /// future is cancelled.
    pub fn set(self, value: T) {
        let mut handle = self;
        match accepted(handle.is_cancelled(), value) {
            None => {},
            Some(kept) => {
                let written = match acquire(&handle.future.cell.result) {
                    None => false,
                    Some(mut guard) => {
                        fill(slot_mut(&mut guard), kept);
                        handle.future.cell.signal.notify_all();
                        true
                    },
                };
                if written {
                    handle.cancelled.disarm();
                }
            },
        }
    }
}

/// The consumer's handle. It waits for the value. Dropping it cancels.
#[verifier::reject_recursive_types(T)]
pub struct Getter<T> {
    future: Arc<Future<T>>,
    cancelled: Flag,
}

impl<T> Getter<T> {
    /// The cell this handle is bound to.
    pub closed spec fn cell(&self) -> Future<T> {
        *self.future
    }

    /// The cancellation flag this handle is bound to.
    pub closed spec fn flag(&self) -> AtomicBool {
        self.cancelled.shared()
    }

    /// A getter bound to `future` and `cancelled`.
    pub(crate) fn new(future: Arc<Future<T>>, cancelled: Flag) -> (getter: Self)
        ensures
            getter.cell() == *future,
            getter.flag() == cancelled.shared(),
    {
        Self { future, cancelled }
    }

    /// Reads the cancellation flag, without taking the lock.
    pub fn is_cancelled(&self) -> (cancelled: bool) {
        self.cancelled.is_raised()
    }

    /// Describes the handle as it is seen now.
    pub fn describe(&self) -> (text: String)
        ensures
            exists|seen: Glimpse, cancelled: bool| text@ == handle_text("Getter"@, seen, cancelled),
    {
        render_handle("Getter", self.look(), self.is_cancelled())
    }

    /// Raises the cancellation flag. Nobody is woken: only this side waits.
    pub fn cancel(&self) {
        self.cancelled.raise();
    }

    /// Looks at the cell's slot.
    pub fn look(&self) -> (seen: Glimpse) {
        self.future.look()
    }

    /// Sleeps until a value is there or the future is cancelled, then claims what the slot
    /// holds: the value, or `None` after a cancellation. On a poisoned lock the slot is not
    /// read and `None` is returned: no value will come.
    pub fn wait(self) -> (claimed: Option<T>) {
        match acquire(&self.future.result) {
            None => None,
            Some(guard) => match wait_while_blocked(&self.future.signal, guard, &self.cancelled) {
                None => None,
                Some(mut held) => claim(slot_mut(&mut held)),
            },
        }
    }

    /// As `wait`, but for `timeout` at most. After a timeout nothing is claimed and the handle
    /// itself comes back, fit for another wait. On a poisoned lock the slot is not read and
    /// `Ok(None)` is returned: no value will come.
    pub fn wait_timeout(self, timeout: Duration) -> (outcome: Result<Option<T>, Self>)
        ensures
            outcome matches Err(handle) ==> handle == self,
    {
        let settled = match acquire(&self.future.result) {
            None => Some(None),
            Some(guard) => match wait_timeout_while_blocked(
                &self.future.signal,
                guard,
                timeout,
                &self.cancelled,
            ) {
                None => Some(None),
                Some(held) => {
                    let (mut held, expiry) = held;
                    settle(slot_mut(&mut held), expiry.timed_out())
                },
            },
        };
        match settled {
            Some(claimed) => Ok(claimed),
            None => Err(self),
        }
    }
}

} // verus!
