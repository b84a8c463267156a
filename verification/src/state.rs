//! The state machine of one future, and the decisions taken on its value slot.

use crate::flag::Flag;
use vstd::prelude::*;

verus! {

/// Whether a waiter has to keep sleeping: nothing has arrived and nobody has cancelled.
pub open spec fn blocked<T>(slot: Option<T>, cancelled: bool) -> bool {
    slot is None && !cancelled
}

/// Decides whether a waiter that sees `slot` and the flag `cancelled` must keep sleeping.
pub fn must_wait<T>(slot: &Option<T>, cancelled: bool) -> (wait: bool)
    ensures
        wait == blocked(*slot, cancelled),
{
    slot.is_none() && !cancelled
}

/// The test a sleeping waiter repeats after every wakeup: reads the flag, then decides.
pub fn still_blocked<T>(slot: &Option<T>, flag: &Flag) -> (wait: bool)
    ensures
        wait ==> *slot is None,
{
    must_wait(slot, flag.is_raised())
}

/// What a setter hands on once it has read the flag: the value while the flag is down,
/// nothing once it is raised. A value set after a cancellation is dropped.
pub open spec fn admitted<T>(cancelled: bool, value: T) -> Option<T> {
    if cancelled {
        None
    } else {
        Some(value)
    }
}

/// Decides, for a setter that read the flag as `cancelled`, whether `value` is to be written.
pub fn accepted<T>(cancelled: bool, value: T) -> (kept: Option<T>)
    ensures
        kept == admitted(cancelled, value),
{
    if cancelled {
        None
    } else {
        Some(value)
    }
}

/// Writes `value` into the slot.
pub fn fill<T>(slot: &mut Option<T>, value: T)
    ensures
        *final(slot) == Some(value),
{
    *slot = Some(value);
}

/// A claim on a slot: what is taken, and what the slot holds afterwards. Whatever is there is
/// taken, and nothing is left, so that a value is handed out once.
pub open spec fn claimed<T>(slot: Option<T>) -> (Option<T>, Option<T>) {
    (slot, None)
}

/// The end of a bounded wait on a slot: what the waiter gets, and what the slot holds
/// afterwards. After a timeout on an empty slot the waiter gets nothing (`None`) and the slot
/// is as it was. Otherwise the waiter gets `Some` of its claim: a value that is there is
/// handed out, whatever the wait reports, a zero timeout included.
pub open spec fn settled<T>(slot: Option<T>, timed_out: bool) -> (Option<Option<T>>, Option<T>) {
    if timed_out && slot is None {
        (None, slot)
    } else {
        (Some(claimed(slot).0), claimed(slot).1)
    }
}

/// Claims the slot.
pub fn claim<T>(slot: &mut Option<T>) -> (taken: Option<T>)
    ensures
        (taken, *final(slot)) == claimed(*old(slot)),
{
    slot.take()
}

/// Ends a bounded wait that was reported as timed out, or was not.
pub fn settle<T>(slot: &mut Option<T>, timed_out: bool) -> (outcome: Option<Option<T>>)
    ensures
        (outcome, *final(slot)) == settled(*old(slot), timed_out),
{
    if timed_out && slot.is_none() {
        None
    } else {
        Some(claim(slot))
    }
}

/// How far a future has come. `Filled` and `Cancelled` are final.
#[derive(Clone, Copy, Debug, PartialEq, Eq, Structural)]
pub enum Phase {
    /// No value has been written and nobody has cancelled.
    Waiting,
    /// A value has been written; whether it has been claimed since does not matter.
    Filled,
    /// Somebody cancelled before any value was written.
    Cancelled,
}

/// One future at one instant, every step on it taken as a whole: what the slot holds, whether
/// the flag is raised, and whether a value was ever written.
pub struct Snapshot<T> {
    pub slot: Option<T>,
    pub cancelled: bool,
    pub filled: bool,
}

impl<T> Snapshot<T> {
    /// A future as the factory makes it.
    pub open spec fn fresh() -> Self {
        Snapshot { slot: None, cancelled: false, filled: false }
    }

    /// A slot that holds a value was written to.
    pub open spec fn wf(self) -> bool {
        self.slot is Some ==> self.filled
    }

    /// The phase an observer reports.
    pub open spec fn phase(self) -> Phase {
        if self.filled {
            Phase::Filled
        } else if self.cancelled {
            Phase::Cancelled
        } else {
            Phase::Waiting
        }
    }

    /// Whether a waiter sleeps on.
    pub open spec fn blocks(self) -> bool {
        blocked(self.slot, self.cancelled)
    }

    /// Either handle cancels, or is dropped.
    pub open spec fn cancel(self) -> Self {
        Snapshot { cancelled: true, ..self }
    }

    /// The setter sets `value`: written unless the flag is raised, dropped otherwise.
    pub open spec fn set(self, value: T) -> Self {
        match admitted(self.cancelled, value) {
            None => self,
            Some(kept) => Snapshot { slot: Some(kept), filled: true, ..self },
        }
    }

    /// A waiter that is not blocked claims: what it gets, and what is left.
    pub open spec fn claim(self) -> (Option<T>, Self) {
        (claimed(self.slot).0, Snapshot { slot: claimed(self.slot).1, ..self })
    }

    /// A bounded wait ends: `None` and no change after a timeout on an empty slot, else `Some`
    /// of the claim.
    pub open spec fn settle(self, timed_out: bool) -> (Option<Option<T>>, Self) {
        (settled(self.slot, timed_out).0, Snapshot { slot: settled(self.slot, timed_out).1, ..self })
    }
}

/// A value that is set while the flag is down is what the next claim returns, whether or not
/// the flag goes up in between, and what a bounded wait returns, whatever it reports of its
/// timeout; no waiter is blocked any more; the set itself leaves the flag down; and the claim
/// after that returns nothing: the value is delivered once.
pub proof fn lemma_single_delivery<T>(s: Snapshot<T>, v: T)
    requires
        !s.cancelled,
    ensures
        !s.set(v).blocks(),
        s.set(v).claim().0 == Some(v),
        forall|timed_out: bool| #[trigger] s.set(v).settle(timed_out).0 == Some(Some(v)),
        s.set(v).cancel().claim().0 == Some(v),
        s.set(v).cancelled == s.cancelled,
        s.set(v).claim().1.claim().0 is None,
        s.set(v).claim().1.cancel().claim().0 is None,
{
}

/// Once the setter is gone without having set, a waiter is not blocked, and claims nothing.
pub proof fn lemma_abandoned_waiter_released<T>(s: Snapshot<T>)
    requires
        s.wf(),
        !s.filled,
    ensures
        !s.cancel().blocks(),
        s.cancel().claim().0 is None,
{
}

/// A raised flag stays raised: no step lowers it. So once either handle is dropped, every
/// later reading of the flag is `true`.
pub proof fn lemma_cancelled_stays<T>(s: Snapshot<T>, v: T, timed_out: bool)
    ensures
        s.cancel().cancelled,
        s.cancelled ==> s.set(v).cancelled,
        s.cancelled ==> s.claim().1.cancelled,
        s.cancelled ==> s.settle(timed_out).1.cancelled,
{
}

/// Cancelling twice is cancelling once.
pub proof fn lemma_cancel_idempotent<T>(s: Snapshot<T>)
    ensures
        s.cancel().cancel() == s.cancel(),
{
}

/// A value set after the flag was raised is dropped: nothing changes, and a waiter on a slot
/// that was empty claims nothing.
pub proof fn lemma_set_after_cancel_discarded<T>(s: Snapshot<T>, v: T)
    ensures
        s.cancel().set(v) == s.cancel(),
        s.slot is None ==> s.cancel().set(v).claim().0 is None,
{
}

/// A timeout on an empty slot claims nothing and changes nothing, so a value that is set
/// afterwards is what a second bounded wait returns.
pub proof fn lemma_timeout_keeps_future<T>(s: Snapshot<T>, v: T, timed_out: bool)
    requires
        !s.cancelled,
        s.slot is None,
    ensures
        s.settle(true) == (None::<Option<T>>, s),
        s.settle(true).1.set(v).settle(timed_out).0 == Some(Some(v)),
{
}

/// `Filled` and `Cancelled` are final: no step leaves them.
pub proof fn lemma_phase_final<T>(s: Snapshot<T>, v: T, timed_out: bool)
    requires
        s.phase() != Phase::Waiting,
    ensures
        s.cancel().phase() == s.phase(),
        s.set(v).phase() == s.phase(),
        s.claim().1.phase() == s.phase(),
        s.settle(timed_out).1.phase() == s.phase(),
{
}

/// Every step keeps a well-formed snapshot well-formed.
pub proof fn lemma_steps_keep_wf<T>(s: Snapshot<T>, v: T, timed_out: bool)
    requires
        s.wf(),
    ensures
        s.cancel().wf(),
        s.set(v).wf(),
        s.claim().1.wf(),
        s.settle(timed_out).1.wf(),
{
}

/// A fresh future waits; from there a set fills it and a cancellation cancels it.
pub proof fn lemma_phase_first_step<T>(v: T)
    ensures
        Snapshot::<T>::fresh().wf(),
        Snapshot::<T>::fresh().phase() == Phase::Waiting,
        Snapshot::<T>::fresh().blocks(),
        Snapshot::<T>::fresh().set(v).phase() == Phase::Filled,
        Snapshot::<T>::fresh().cancel().phase() == Phase::Cancelled,
{
}

} // verus!
