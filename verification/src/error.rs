//! Errors reported to the frontend's users.

use vstd::prelude::*;

verus! {

/// What can go wrong when reading the emulator's state.
#[derive(Clone, Copy, Debug, PartialEq, Eq, Structural)]
pub enum RetroRsError {
    /// The core has not yet handed over a frame (or the emulator was reset since).
    NoFramebufferError,
}

} // verus!
