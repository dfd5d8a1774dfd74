//! One-time installation: the place where the process-wide handle is made,
//! offered to the facade, and kept, exactly once however many callers arrive
//! first.

use vstd::prelude::*;

use crate::facade::offer_to_facade;
use crate::handle::Handle;
use once_cell::sync::OnceCell;

verus! {

/// A cell that is written at most once. Opaque.
#[verifier::external_type_specification]
#[verifier::external_body]
#[verifier::reject_recursive_types(T)]
pub struct ExOnceCell<T>(OnceCell<T>);

/// How a handle stands with the facade after it was offered.
#[derive(Clone, Copy, Debug, PartialEq, Eq, Structural)]
pub enum Standing {
    /// The facade took the handle: every log call of the process reaches it.
    Registered,
    /// Another logger was registered before: the handle and its cell work,
    /// but the facade does not forward to them.
    Shadow,
}

/// What one installation leaves behind.
pub struct Installation {
    /// The dispatch handle, on the cell that it was made with.
    pub handle: Handle,
    /// Whether the facade took it.
    pub standing: Standing,
}

/// The facade was offered `handle` as the logger of the process and answered
/// `outcome`: a call of `log::set_boxed_logger` on `handle` has returned it.
pub closed spec fn offered(handle: Handle, outcome: Result<(), log::SetLoggerError>) -> bool {
    call_ensures(offer_to_facade, (handle,), outcome)
}

impl Installation {
    /// The handle of this installation was offered to the facade, and the
    /// standing of this installation is what follows from the facade's answer
    /// to that offer.
    pub open spec fn offered(&self) -> bool {
        exists|outcome: Result<(), log::SetLoggerError>| #[trigger]
            offered(self.handle, outcome) && self.standing == standing_for(outcome)
    }
}

/// The standing that follows from the facade's answer to an offer: taken is
/// `Registered`, refused is `Shadow`.
pub open spec fn standing_for(outcome: Result<(), log::SetLoggerError>) -> Standing {
    if outcome is Ok {
        Standing::Registered
    } else {
        Standing::Shadow
    }
}

/// The standing that follows from the facade's answer to the offer: taken is
/// `Registered`, refused is `Shadow`. A refusal is a standing, not a failure.
pub fn standing_of(outcome: &Result<(), log::SetLoggerError>) -> (standing: Standing)
    ensures
        standing == standing_for(*outcome),
        outcome is Ok <==> standing == Standing::Registered,
        outcome is Err <==> standing == Standing::Shadow,
{
    match outcome {
        Ok(_) => Standing::Registered,
        Err(_) => Standing::Shadow,
    }
}

/// Makes a handle on a fresh cell and offers a clone of it to the facade.
/// What comes back holds that handle, and the standing that the facade's
/// answer gives it.
fn install() -> (installation: Installation)
    ensures
        installation.handle.made_with() is Builtin,
        installation.offered(),
{
    let handle = Handle::new();
    let outcome = offer_to_facade(handle.clone());
    let installation = Installation { handle, standing: standing_of(&outcome) };
    assert(offered(installation.handle, outcome));
    installation
}

/// What a slot holds from its first initialisation on. A slot that is reached
/// through `&` is written at most once, so this is one value for all readers.
pub uninterp spec fn held(slot: OnceCell<Installation>) -> Installation;

/// `OnceCell::new`: an empty slot.
#[verifier::external_body]
fn empty_slot() -> (slot: OnceCell<Installation>)
{
    OnceCell::new()
}

/// `OnceCell::get_or_init` with `install` as the initialiser. Of all callers
/// that find the slot empty, one runs `install`; every caller, then and later,
/// gets a reference to what that run returned, and so to a value of which
/// all holds that `install` ensures. The slots of this crate are made empty
/// and written here only.
#[verifier::external_body]
fn get_or_install(slot: &OnceCell<Installation>) -> (installation: &Installation)
    ensures
        *installation == held(*slot),
        installation.handle.made_with() is Builtin,
        installation.offered(),
{
    slot.get_or_init(install)
}

/// The home of one installation. An application keeps one for the process.
pub struct Registry {
    slot: OnceCell<Installation>,
}

impl Registry {
    /// A registry in which nothing is installed yet.
    pub fn new() -> (registry: Registry)
    {
        Registry { slot: empty_slot() }
    }

    /// The installation of this registry: the one that its first caller made.
    pub closed spec fn installed(&self) -> Installation {
        held(self.slot)
    }

    /// The installation of this registry, made now if no caller made it
    /// before. Every call on one registry returns the same installation: its
    /// handle stands on a cell that was made with the built-in logger, and is
    /// the handle that was offered to the facade.
    pub fn installation(&self) -> (installation: &Installation)
        ensures
            *installation == self.installed(),
            installation.handle.made_with() is Builtin,
            installation.offered(),
    {
        get_or_install(&self.slot)
    }
}

/// Installation is idempotent: whatever two calls of
/// [`Registry::installation`] on one registry return, it is one installation,
/// with one handle on one cell and one standing.
pub proof fn lemma_installation_is_unique(
    registry: &Registry,
    first: &Installation,
    second: &Installation,
)
    requires
        call_ensures(Registry::installation, (registry,), first),
        call_ensures(Registry::installation, (registry,), second),
    ensures
        first == second,
        first.handle == second.handle,
        first.standing == second.standing,
{
}

} // verus!
