//! The swappable cell: a holder of exactly one logger at a time, read and
//! replaced through a shared reference by any number of threads.
//!
//! The cell is written through `&self`, and other threads may write between
//! any two calls of this one. What it holds now is therefore no function of
//! the cell as a value, and no contract here speaks of it. What it was made
//! with is fixed for good, and has a name; and what a load finds is always
//! that, or something that was handed to a store.

use vstd::prelude::*;

use crate::sink::Sink;
use arc_swap::ArcSwap;
use arc_swap::Guard;
use std::sync::Arc;

verus! {

/// The atomic slot for the current logger. Opaque: the strategy types inside
/// the outside crate's cell are private to that crate.
#[verifier::external_body]
pub struct SwappableCell {
    slot: ArcSwap<Sink>,
}

/// One logger as one `load` found it. It keeps that logger alive until it is
/// dropped, whatever is stored into the cell meanwhile.
#[verifier::external_body]
pub struct Current {
    guard: Guard<Arc<Sink>>,
}

/// The logger that a cell was made with. Storing into the cell does not
/// change it.
pub uninterp spec fn made_with(cell: SwappableCell) -> Sink;

impl SwappableCell {
    /// `ArcSwap::new` on the logger: a cell that was made with `initial`.
    #[verifier::external_body]
    pub(crate) fn new(initial: Sink) -> (cell: SwappableCell)
        ensures
            made_with(cell) == initial,
    {
        SwappableCell { slot: ArcSwap::new(Arc::new(initial)) }
    }

    /// `ArcSwapAny::load`: the logger that the cell holds at the moment of the
    /// call, whole. Which one that is depends on every thread that stores; it
    /// is the logger that the cell was made with or one that was handed to a
    /// store into this cell, never a mixture. The cell is written by `new` and
    /// `store` only.
    #[verifier::external_body]
    pub(crate) fn load(&self) -> (current: Current)
        ensures
            shown(current) == made_with(*self) || call_ensures(
                SwappableCell::store,
                (self, shown(current)),
                (),
            ),
    {
        Current { guard: self.slot.load() }
    }

    /// `ArcSwapAny::store` of the logger. The logger that leaves the cell is
    /// freed once no `Current` refers to it. Nothing is returned, and another
    /// thread may store next, so nothing is claimed.
    #[verifier::external_body]
    pub(crate) fn store(&self, logger: Sink)
    {
        self.slot.store(Arc::new(logger))
    }
}

/// The logger that a `Current` shows. A `Current` shows one logger for as
/// long as it lives.
pub uninterp spec fn shown(current: Current) -> Sink;

impl Current {
    /// `Deref` of the guard and of the pointer in it: the logger that was
    /// loaded, the same at every call.
    #[verifier::external_body]
    pub(crate) fn sink(&self) -> (sink: &Sink)
        ensures
            *sink == shown(*self),
    {
        &**self.guard
    }
}

} // verus!
