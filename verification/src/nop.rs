//! The built-in logger that a fresh cell holds: it wants nothing and emits
//! nothing.

use vstd::prelude::*;

verus! {

/// The logger in place before the application installs one of its own.
pub struct NopLogger;

impl log::Log for NopLogger {
    /// No message is wanted, whatever its metadata.
    fn enabled(&self, _metadata: &log::Metadata) -> (wanted: bool)
        ensures
            !wanted,
    {
        false
    }

    /// Drops the record.
    fn log(&self, _record: &log::Record) {
    }

    /// Nothing is buffered, so nothing is flushed.
    fn flush(&self) {
    }
}

} // verus!
