//! The fixed transfer parameters of the device protocol: the control
//! handshake shape, the bulk endpoint pair, the per-operation timeout, and
//! the two buffer sizes.

use vstd::prelude::*;

verus! {

/// Request type of the arm/disarm handshake: a vendor-specific,
/// device-directed, host-to-device control transfer.
pub const CONTROL_REQUEST_TYPE: u8 = 0x40;

/// Request code of the arm/disarm handshake.
pub const CONTROL_REQUEST: u8 = 2;

/// Value parameter that arms the device.
pub const ARM_VALUE: u16 = 2;

/// Value parameter that disarms the device.
pub const DISARM_VALUE: u16 = 4;

/// Index parameter of the arm/disarm handshake.
pub const CONTROL_INDEX: u16 = 0;

/// The one interface a session claims and releases.
pub const INTERFACE_NUMBER: u8 = 0;

/// Address of the bulk endpoint commands are written to.
pub const BULK_OUT_ENDPOINT: u8 = 0x02;

/// Address of the bulk endpoint responses are read from.
pub const BULK_IN_ENDPOINT: u8 = 0x82;

/// The fixed timeout of every transfer, in milliseconds.
pub const TIMEOUT_MS: u64 = 1000;

/// Size of the fixed response buffer; a response is meaningful only up to a
/// zero byte within this many bytes.
pub const RESPONSE_BUFFER_LEN: usize = 64;

/// Size of the buffer used for the one discarded read that flushes stale
/// data right after arming.
pub const CLEAR_BUFFER_LEN: usize = 4096;

} // verus!
