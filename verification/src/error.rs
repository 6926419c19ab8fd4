//! The errors of this library.

use vstd::prelude::*;

verus! {

/// Why a request could not be served.
#[derive(Debug, Clone, Copy, PartialEq, Eq, Structural)]
pub enum TotpError {
    /// The window length is zero seconds, so time cannot be divided into windows.
    InvalidWindow,
    /// The system clock reads a moment before the Unix epoch.
    ClockBeforeEpoch,
}

} // verus!
