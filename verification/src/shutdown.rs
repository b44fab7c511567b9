//! The shutdown flag: interception of the interrupt signal.
//!
//! While a [`ShutdownHandler`] is registered, an interrupt no longer ends
//! the process but raises a flag. The supervisor looks at the flag once per
//! poll and reports it to the controller, which answers a raised flag with
//! the shutdown plan.

use signal_hook::SigId;
use std::sync::atomic::AtomicBool;
use std::sync::atomic::Ordering;
use std::sync::Arc;
use vstd::prelude::*;

verus! {

/// The handle of a registered signal action. Nothing is known of its value.
#[verifier::external_type_specification]
#[verifier::external_body]
pub struct ExSigId(SigId);

/// The error of the operating system. Nothing is known of its value.
#[verifier::external_type_specification]
#[verifier::external_body]
pub struct ExIoError(std::io::Error);

/// The number of the interrupt signal. It is the same on every platform.
pub const INTERRUPT: i32 = 2;

/// `signal_hook::flag::register` arranges for `flag` to be set when
/// `signal` arrives, or fails where the operating system refuses. It panics
/// on the handful of signals that cannot be caught; the interrupt signal is
/// not among them, and no other is asked for here.
#[verifier::external_body]
fn register_flag(signal: i32, flag: &Arc<AtomicBool>) -> (id: Result<SigId, std::io::Error>)
    requires
        signal == INTERRUPT,
{
    signal_hook::flag::register(signal, Arc::clone(flag))
}

/// `signal_hook::low_level::unregister` removes a registered action and
/// says whether it was still there.
#[verifier::external_body]
fn unregister_action(id: SigId) -> (removed: bool) {
    signal_hook::low_level::unregister(id)
}

/// The interrupt signal could not be intercepted.
#[derive(Clone, Copy, Debug, PartialEq, Eq, Structural)]
pub enum RegisterError {
    Refused,
}

/// What became of a registration: the handle, or the library's own error in
/// place of the operating system's.
pub fn registration(id: Result<SigId, std::io::Error>) -> (made: Result<SigId, RegisterError>)
    ensures
        match id {
            Ok(handle) => made == Ok::<SigId, RegisterError>(handle),
            Err(_) => made == Err::<SigId, RegisterError>(RegisterError::Refused),
        },
{
    match id {
        Ok(handle) => Ok(handle),
        Err(_) => Err(RegisterError::Refused),
    }
}

/// An interception of the interrupt signal, from its registration to its
/// removal.
pub struct ShutdownHandler {
    flag: Arc<AtomicBool>,
    id: SigId,
}

impl ShutdownHandler {
    /// Starts intercepting the interrupt signal. Whether that succeeds is up
    /// to the operating system.
    pub fn register() -> (made: Result<ShutdownHandler, RegisterError>) {
        let flag = Arc::new(AtomicBool::new(false));
        match registration(register_flag(INTERRUPT, &flag)) {
            Ok(id) => Ok(ShutdownHandler { flag, id }),
            Err(refused) => Err(refused),
        }
    }

    /// Whether an interrupt has arrived since the registration.
    pub fn raised(&self) -> (raised: bool) {
        self.flag.load(Ordering::Relaxed)
    }

    /// Stops intercepting the interrupt signal, and says whether the
    /// interception was still in place.
    pub fn unregister(self) -> (removed: bool) {
        unregister_action(self.id)
    }
}

} // verus!
