//! The logging facade as this crate sees it: the facade's own types, carried
//! through unread, and its two process-wide entry points.
//!
//! What the facade holds is process-wide and open to every thread, so no
//! contract speaks of what it holds now. A contract can say which call was
//! made to it and what that call answered, and those that follow do.

use vstd::prelude::*;

use crate::handle::Handle;

verus! {

/// The facade's severity threshold. Carried through to the facade unread.
#[verifier::external_type_specification]
#[verifier::external_body]
pub struct ExLevelFilter(log::LevelFilter);

/// What the facade hands to a logger's `enabled`. Never interpreted here.
#[verifier::external_type_specification]
#[verifier::external_body]
pub struct ExMetadata<'a>(log::Metadata<'a>);

/// What the facade hands to a logger's `log`. Never interpreted here.
#[verifier::external_type_specification]
#[verifier::external_body]
pub struct ExRecord<'a>(log::Record<'a>);

/// The facade's refusal to take a second process-wide logger.
#[verifier::external_type_specification]
#[verifier::external_body]
pub struct ExSetLoggerError(log::SetLoggerError);

/// `log::set_max_level`: stores the threshold in the facade's process-wide
/// slot. It returns nothing and never fails, so nothing is claimed of it.
#[verifier::external_body]
pub(crate) fn set_threshold(level: log::LevelFilter)
{
    log::set_max_level(level)
}

/// `log::set_boxed_logger`, handed the dispatch handle in a box. The facade
/// takes the first logger it is ever offered and refuses every later one;
/// which of the two happens depends on what the rest of the process did
/// before, so nothing is claimed of the result.
#[verifier::external_body]
pub(crate) fn offer_to_facade(handle: Handle) -> (outcome: Result<(), log::SetLoggerError>)
{
    log::set_boxed_logger(Box::new(handle))
}

} // verus!
