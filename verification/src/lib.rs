//! A single-assignment, cancellable future: one setter hands at most one value to one getter.

pub mod flag;
pub mod future;
pub mod state;
mod sync;
pub mod text;

pub use crate::future::Getter;
pub use crate::future::Setter;
use crate::future::Future;
use crate::flag::Flag;
use crate::sync::share;
use std::sync::Arc;
use vstd::prelude::*;

verus! {

/// Creates a future: an empty cell, a flag that is not raised, and the two handles on them.
pub fn new<T>() -> (pair: (Setter<T>, Getter<T>))
    ensures
        pair.0.cell() == pair.1.cell(),
        pair.0.flag() == pair.1.flag(),
{
    let future = Arc::new(Future::new());
    let cancelled = Flag::new();
    let setter = Setter::new(share(&future), cancelled.share());
    let getter = Getter::new(future, cancelled);
    (setter, getter)
}

} // verus!
