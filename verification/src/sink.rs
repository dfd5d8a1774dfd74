//! What the cell holds: the built-in logger, which this crate answers for
//! itself, or a logger of the application, which answers for itself.

use vstd::prelude::*;

use crate::nop::NopLogger;
use log::Log;

verus! {

/// A logger of the application. Opaque: it is an object of the facade's
/// logger trait, which cannot be read here.
#[verifier::external_body]
pub struct Logger {
    inner: Box<dyn Log>,
}

impl Logger {
    /// `Box::new` on the application's logger, as an object of the trait.
    /// The logger that comes back is opaque, so nothing is claimed of it.
    #[verifier::external_body]
    pub fn new<L: Log + 'static>(logger: L) -> (boxed: Logger)
    {
        Logger { inner: Box::new(logger) }
    }

    /// `Log::enabled` of the application's logger. The answer is that
    /// logger's own, so nothing is claimed of it.
    #[verifier::external_body]
    pub(crate) fn enabled(&self, metadata: &log::Metadata) -> (wanted: bool)
    {
        self.inner.enabled(metadata)
    }

    /// `Log::log` of the application's logger.
    #[verifier::external_body]
    pub(crate) fn emit(&self, record: &log::Record)
    {
        self.inner.log(record)
    }

    /// `Log::flush` of the application's logger.
    #[verifier::external_body]
    pub(crate) fn flush(&self)
    {
        self.inner.flush()
    }

    /// This logger was asked whether it wants a message with `metadata`, and
    /// answered `wanted`.
    pub closed spec fn answered(&self, metadata: &log::Metadata, wanted: bool) -> bool {
        call_ensures(Logger::enabled, (self, metadata), wanted)
    }

    /// This logger was handed `record`.
    pub closed spec fn took(&self, record: &log::Record) -> bool {
        call_ensures(Logger::emit, (self, record), ())
    }

    /// This logger was told to flush.
    pub closed spec fn flushed(&self) -> bool {
        call_ensures(Logger::flush, (self,), ())
    }
}

/// The one logger that a cell holds at a time.
pub enum Sink {
    /// The logger that every cell is made with.
    Builtin(NopLogger),
    /// A logger that the application stored.
    Installed(Logger),
}

impl Sink {
    /// Whether this logger wants a message with this metadata. The built-in
    /// logger wants none; a logger of the application is asked, and its
    /// answer is the answer.
    pub fn enabled(&self, metadata: &log::Metadata) -> (wanted: bool)
        ensures
            self is Builtin ==> !wanted,
            self matches Sink::Installed(logger) ==> logger.answered(metadata, wanted),
    {
        match self {
            Sink::Builtin(nop) => nop.enabled(metadata),
            Sink::Installed(logger) => logger.enabled(metadata),
        }
    }

    /// Hands the record to this logger. The built-in logger drops it.
    pub fn log(&self, record: &log::Record)
        ensures
            self matches Sink::Installed(logger) ==> logger.took(record),
    {
        match self {
            Sink::Builtin(nop) => nop.log(record),
            Sink::Installed(logger) => logger.emit(record),
        }
    }

    /// Flushes this logger. The built-in logger has nothing to flush.
    pub fn flush(&self)
        ensures
            self matches Sink::Installed(logger) ==> logger.flushed(),
    {
        match self {
            Sink::Builtin(nop) => nop.flush(),
            Sink::Installed(logger) => logger.flush(),
        }
    }
}

} // verus!
