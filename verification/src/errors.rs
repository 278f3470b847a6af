//! Classified errors of the engine.
//!
//! Every failure a worker can hit is surfaced as one of these kinds,
//! never as a bare string, so that callers can tell a deliberate
//! cancellation from a genuine failure and react to each kind.

use vstd::prelude::*;

verus! {

/// The error kinds of the engine.
///
/// `Cancelled` is a deliberate stop requested through the progress
/// state, not a failure. `VerificationMismatch` carries the offset of
/// the first byte at which the device diverged from the image.
#[derive(Clone, Debug, PartialEq, Eq, Structural)]
pub enum EngineError {
    /// The operator declined, or lacks the rights to write the device.
    AuthorizationDenied,
    /// The consent mechanism itself failed.
    AuthorizationUnavailable,
    /// The download stream broke off.
    Network,
    /// Both decompression strategies failed on the payload.
    Decompression,
    /// A read or write on the image or the device failed.
    Io,
    /// The operation was stopped through the cancellation flag.
    Cancelled,
    /// The device differs from the image, first at this byte offset.
    VerificationMismatch(u64),
}

impl EngineError {
    /// Whether this outcome is a deliberate stop rather than a failure.
    pub fn is_cancellation(&self) -> (r: bool)
        ensures
            r == (*self is Cancelled),
    {
        match self {
            EngineError::Cancelled => true,
            _ => false,
        }
    }
}

} // verus!
