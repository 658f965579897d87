//! Run-level failures of an acquisition.
//!
//! A caller sees either a complete sample log plus image, or exactly one of
//! these; there is no partial-success mode.  A discarded sampling window is
//! not an error: it is silently excluded from the log.

use vstd::prelude::*;

verus! {

/// Why an acquisition run failed.
#[derive(Clone, Copy, Debug, PartialEq, Eq, Structural)]
pub enum AcquisitionError {
    /// A required memory mapping could not be established; fatal at
    /// construction, no retry.
    DeviceUnavailable,
    /// No suitable display connector or mode, or unusable scan parameters;
    /// fatal before any thread starts.
    SetupFailure,
    /// A worker thread panicked; the whole run fails and no partial log is
    /// returned, to avoid silently returning a biased image.
    ThreadFailure,
}

} // verus!
