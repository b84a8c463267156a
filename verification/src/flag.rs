//! The cancellation flag: raised once, by either side, and never lowered.

use crate::sync::share;
use std::sync::atomic::AtomicBool;
use std::sync::atomic::Ordering;
use std::sync::Arc;
use vstd::prelude::*;

verus! {

/// One owner's share of a cancellation flag. The flag is read and raised without any lock.
/// A share that is armed raises the flag when it is dropped: an owner that goes away cancels.
/// A share that was disarmed leaves the flag as it is.
pub struct Flag {
    raised: Arc<AtomicBool>,
    armed: bool,
}

impl Flag {
    /// The flag that this share belongs to.
    pub closed spec fn shared(&self) -> AtomicBool {
        *self.raised
    }

    /// Whether dropping this share raises the flag.
    pub closed spec fn armed(&self) -> bool {
        self.armed
    }

    /// A flag that is down, and an armed share of it.
    pub fn new() -> (flag: Self)
        ensures
            flag.armed(),
    {
        Flag { raised: Arc::new(AtomicBool::new(false)), armed: true }
    }

    /// Another share of the same flag, armed.
    pub fn share(&self) -> (other: Self)
        ensures
            other.shared() == self.shared(),
            other.armed(),
    {
        Flag { raised: share(&self.raised), armed: true }
    }

    /// Reads the flag.
    pub fn is_raised(&self) -> (raised: bool) {
        self.raised.load(Ordering::SeqCst)
    }

    /// Raises the flag. Raising a raised flag changes nothing.
    pub fn raise(&self) {
        self.raised.store(true, Ordering::SeqCst);
    }

    /// Disarms this share: dropping it no longer raises the flag.
    pub fn disarm(&mut self)
        ensures
            !final(self).armed(),
            final(self).shared() == old(self).shared(),
    {
        self.armed = false;
    }
}

impl Drop for Flag {
    /// `AtomicBool::fetch_or` with whether the share is armed, sequentially consistent: it
    /// raises the flag for an armed share and leaves it for a disarmed one. Taken on trust: the
    /// call does not unwind.
    #[verifier::external_body]
    fn drop(&mut self)
        opens_invariants none
        no_unwind
    {
        self.raised.fetch_or(self.armed, Ordering::SeqCst);
    }
}

} // verus!
