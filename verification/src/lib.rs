//! A logger for the `log` facade that can be replaced while the process runs.
//!
//! The facade takes one logger per process and keeps it for good. This crate
//! gives it a [`handle::Handle`] that forwards each call to whichever logger
//! its cell holds, and lets the application put another logger in that cell
//! at any time, from any thread, without a lock.
//!
//! Every entry point works on the one installation of the registry it is
//! given, which its first caller makes, and returns how that installation
//! stands with the facade.

use vstd::prelude::*;

use crate::facade::set_threshold;
use crate::handle::Handle;
use crate::registry::{Registry, Standing};
use crate::sink::{Logger, Sink};

mod cell;
mod facade;
pub mod handle;
pub mod nop;
pub mod registry;
pub mod sink;

verus! {

/// The facade was handed `level` as its threshold: a call of
/// `log::set_max_level` on `level` has returned.
pub closed spec fn threshold_set(level: log::LevelFilter) -> bool {
    call_ensures(set_threshold, (level,), ())
}

/// Hands `level` to the facade as the threshold for `logger`. It can be
/// called only once `logger` was handed to a store into the cell of `handle`.
fn set_threshold_behind(handle: &Handle, logger: Ghost<Logger>, level: log::LevelFilter)
    requires
        handle.stored(Sink::Installed(logger@)),
    ensures
        threshold_set(level),
{
    set_threshold(level)
}

/// The facade was handed `level` as its threshold behind `logger`: by a call
/// that could be made only once `logger` was handed to a store into the cell
/// of `handle`.
pub closed spec fn threshold_set_behind(
    handle: Handle,
    logger: Logger,
    level: log::LevelFilter,
) -> bool {
    call_ensures(set_threshold_behind, (&handle, Ghost(logger), level), ())
}

/// Installs `logger`, then sets the facade's threshold to `filter`, in that
/// order, so that the new threshold is never in force while the logger it was
/// chosen for is still to come.
pub fn configure(registry: &Registry, filter: log::LevelFilter, logger: Logger) -> (standing:
    Standing)
    ensures
        standing == registry.installed().standing,
        registry.installed().handle.made_with() is Builtin,
        registry.installed().offered(),
        registry.installed().handle.stored(Sink::Installed(logger)),
        threshold_set(filter),
        threshold_set_behind(registry.installed().handle, logger, filter),
{
    let ghost installed = logger;
    let standing = set_boxed_logger(registry, logger);
    set_threshold_behind(&registry.installation().handle, Ghost(installed), filter);
    standing
}

/// Puts `logger` in the cell of the registry's handle. The threshold stays.
pub fn set_boxed_logger(registry: &Registry, logger: Logger) -> (standing: Standing)
    ensures
        standing == registry.installed().standing,
        registry.installed().handle.made_with() is Builtin,
        registry.installed().offered(),
        registry.installed().handle.stored(Sink::Installed(logger)),
{
    let installation = registry.installation();
    installation.handle.store(logger);
    installation.standing
}

/// Sets the facade's threshold to `filter`. The logger stays.
pub fn set_max_level(registry: &Registry, filter: log::LevelFilter) -> (standing: Standing)
    ensures
        standing == registry.installed().standing,
        registry.installed().handle.made_with() is Builtin,
        registry.installed().offered(),
        threshold_set(filter),
{
    let installation = registry.installation();
    set_threshold(filter);
    installation.standing
}

/// Whatever is installed through one registry goes into one cell. After two
/// calls of [`set_boxed_logger`] on one registry, with any loggers and from
/// any threads, both loggers were stored in the cell of the registry's one
/// handle, that handle is the one that was offered to the facade, and both
/// calls returned the one standing that the facade's answer gave it.
pub proof fn lemma_stores_reach_the_offered_handle(
    registry: &Registry,
    first: Logger,
    second: Logger,
    after_first: Standing,
    after_second: Standing,
)
    requires
        call_ensures(set_boxed_logger, (registry, first), after_first),
        call_ensures(set_boxed_logger, (registry, second), after_second),
    ensures
        registry.installed().offered(),
        registry.installed().handle.stored(Sink::Installed(first)),
        registry.installed().handle.stored(Sink::Installed(second)),
        after_first == after_second,
        after_first == registry.installed().standing,
{
}

} // verus!
