//! The liveness flag and the interrupt handler that clears it.
//!
//! The flag is written once, by the handler, and read by the loop that keeps
//! the launcher alive. Nothing else is shared between the two.

use std::sync::atomic::{AtomicBool, Ordering};
use std::sync::Arc;
use vstd::prelude::*;

verus! {

/// A liveness flag that is set: the fleet is to be kept running.
pub(crate) fn raised() -> Arc<AtomicBool> {
    Arc::new(AtomicBool::new(true))
}

/// Reads the flag. What comes back depends on whether an interrupt has
/// arrived in the meantime.
pub(crate) fn is_raised(flag: &Arc<AtomicBool>) -> bool {
    flag.load(Ordering::Relaxed)
}

/// Clears the flag: the fleet is to be shut down.
pub(crate) fn lower(flag: &Arc<AtomicBool>) {
    flag.store(false, Ordering::Relaxed)
}

/// Calls `ctrlc::set_handler` with a handler that lowers `flag` on every
/// interrupt. On failure the text that the crate's error displays comes
/// back. Whether the handler could be installed depends on the operating
/// system and on whether this process has installed one before, so nothing
/// is claimed of the result.
#[verifier::external_body]
pub(crate) fn watch_interrupt(flag: &Arc<AtomicBool>) -> (installed: Result<(), String>) {
    let flag = Arc::clone(flag);
    match ctrlc::set_handler(move || lower(&flag)) {
        Ok(()) => Ok(()),
        Err(error) => Err(error.to_string()),
    }
}

} // verus!
