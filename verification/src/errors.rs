//! Error taxonomy of the transport, and the non-fatal warnings that a
//! session reports without aborting.

use vstd::prelude::*;

verus! {

/// Every failure the transport can surface to a caller.
#[derive(Clone, Copy, Debug, PartialEq, Eq, Structural)]
pub enum ProtocolError {
    /// No attached device matched the requested vendor/product identity.
    DeviceNotFound,
    /// The device's interface could not be claimed; fatal, the session is
    /// never created.
    ClaimFailed,
    /// An arm or disarm control transfer failed.
    ControlTransferFailed,
    /// The bulk write of a command failed at the transport level.
    BulkWriteFailed,
    /// The bulk read of a response failed at the transport level.
    BulkReadFailed,
    /// The response buffer held no terminator in its first 64 bytes, or the
    /// bytes before the terminator were not valid text.
    MalformedResponse,
    /// The decoded response began with the `?` validity marker.
    DeviceReportedError,
    /// The claimed interface could not be released; the device may need a
    /// power cycle.
    ReleaseFailed,
}

/// A condition that is reported to the caller but deliberately does not
/// abort the operation that observed it.
#[derive(Clone, Copy, Debug, PartialEq, Eq, Structural)]
pub enum Warning {
    /// The arm control transfer failed; session establishment continues.
    ArmFailed,
    /// A bulk write reported fewer bytes transferred than requested; the
    /// exchange still proceeds to read a response.
    ShortWrite,
}

} // verus!
