//! The dispatch handle: the one object that stands before the facade as "the"
//! logger and forwards every call to whichever logger the cell holds.

use vstd::prelude::*;

use crate::cell::{made_with, shown, Current, SwappableCell};
use crate::nop::NopLogger;
use crate::sink::{Logger, Sink};
use log::Log;
use std::sync::Arc;

verus! {

/// A handle on one swappable cell. Clones share the cell: equal handles are
/// the same handle.
pub struct Handle {
    cell: Arc<SwappableCell>,
}

/// `Arc::clone`: one more pointer to the same cell.
#[verifier::external_body]
fn share(cell: &Arc<SwappableCell>) -> (shared: Arc<SwappableCell>)
    ensures
        shared == *cell,
{
    Arc::clone(cell)
}

impl Handle {
    /// A handle on a cell of its own, which holds the built-in no-op logger.
    pub fn new() -> (handle: Handle)
        ensures
            handle.made_with() is Builtin,
    {
        Handle { cell: Arc::new(SwappableCell::new(Sink::Builtin(NopLogger))) }
    }

    /// Puts `logger` in the cell in place of the logger that is there.
    pub fn store(&self, logger: Logger)
        ensures
            self.stored(Sink::Installed(logger)),
    {
        self.cell.store(Sink::Installed(logger))
    }

    /// The logger that the cell of this handle was made with.
    pub closed spec fn made_with(&self) -> Sink {
        made_with(*self.cell)
    }

    /// `sink` was handed to a store into the cell of this very handle.
    pub closed spec fn stored(&self, sink: Sink) -> bool {
        call_ensures(SwappableCell::store, (&*self.cell, sink), ())
    }

    /// A load of the cell of this handle found `sink` there.
    pub closed spec fn loaded(&self, sink: Sink) -> bool {
        exists|current: Current| #[trigger]
            call_ensures(SwappableCell::load, (&*self.cell,), current) && shown(current) == sink
    }
}

impl Clone for Handle {
    /// Another handle on the same cell.
    fn clone(&self) -> (twin: Handle)
        ensures
            twin == *self,
    {
        Handle { cell: share(&self.cell) }
    }
}

impl Log for Handle {
    /// Loads once and asks the logger that was loaded: the answer is what
    /// [`Sink::enabled`] gave for it.
    fn enabled(&self, metadata: &log::Metadata) -> (wanted: bool)
        ensures
            exists|sink: Sink| #[trigger]
                self.loaded(sink) && call_ensures(Sink::enabled, (&sink, metadata), wanted),
    {
        let current = self.cell.load();
        let sink = current.sink();
        let wanted = sink.enabled(metadata);
        assert(self.loaded(*sink)) by {
            assert(call_ensures(SwappableCell::load, (&*self.cell,), current));
        }
        wanted
    }

    /// Loads once and hands the record to the logger that was loaded, through
    /// [`Sink::log`].
    fn log(&self, record: &log::Record)
        ensures
            exists|sink: Sink| #[trigger]
                self.loaded(sink) && call_ensures(Sink::log, (&sink, record), ()),
    {
        let current = self.cell.load();
        let sink = current.sink();
        sink.log(record);
        assert(self.loaded(*sink)) by {
            assert(call_ensures(SwappableCell::load, (&*self.cell,), current));
        }
    }

    /// Loads once and flushes the logger that was loaded, through
    /// [`Sink::flush`].
    fn flush(&self)
        ensures
            exists|sink: Sink| #[trigger] self.loaded(sink) && call_ensures(Sink::flush, (&sink,), ()),
    {
        let current = self.cell.load();
        let sink = current.sink();
        sink.flush();
        assert(self.loaded(*sink)) by {
            assert(call_ensures(SwappableCell::load, (&*self.cell,), current));
        }
    }
}

/// A load never finds a logger that nobody put there: what it finds in the
/// cell of a handle is the logger that the cell was made with, or one that
/// was handed to a store into that cell, whichever threads stored meanwhile.
pub proof fn lemma_loaded_was_put(handle: Handle, sink: Sink)
    requires
        handle.loaded(sink),
    ensures
        sink == handle.made_with() || handle.stored(sink),
{
}

/// As long as nothing was stored, the handle is silent: a logger that a load
/// finds in a cell which was made with the built-in logger, and that was
/// handed to no store, is the built-in logger, and whatever
/// [`Sink::enabled`] answers for it is `false`.
pub proof fn lemma_unstored_load_is_silent(
    handle: Handle,
    sink: Sink,
    metadata: &log::Metadata,
    wanted: bool,
)
    requires
        handle.made_with() is Builtin,
        handle.loaded(sink),
        !handle.stored(sink),
        call_ensures(Sink::enabled, (&sink, metadata), wanted),
    ensures
        sink is Builtin,
        !wanted,
{
}

/// The logger that a new handle is made with wants nothing: whatever
/// [`Sink::enabled`] answers for it, on any metadata, is `false`. This speaks
/// of the logger that the cell starts with, not of one that is stored later.
pub proof fn lemma_new_handle_is_made_silent(
    handle: Handle,
    metadata: &log::Metadata,
    wanted: bool,
)
    requires
        call_ensures(Handle::new, (), handle),
        call_ensures(Sink::enabled, (&handle.made_with(), metadata), wanted),
    ensures
        !wanted,
{
}

} // verus!
