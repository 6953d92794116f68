// SPDX-License-Identifier: GPL-2.0

//! The ways in which an operation on the device can fail.

use vstd::prelude::*;

verus! {

/// Why a call failed. Every failure belongs to the one call that met it:
/// the session and the device stay usable.
#[derive(Clone, Copy, Debug, PartialEq, Eq, Structural)]
pub enum Error {
    /// The host had no memory left for a new session.
    AllocationFailed,
    /// The random source could not supply a byte.
    RandomSourceUnavailable,
    /// The reader's buffer cannot hold the selected fact.
    BufferTooSmall,
    /// The device only opens and reads.
    OperationNotSupported,
}

} // verus!
