//! A minimal command/response transport over a USB device: session
//! establishment (find, claim, arm), a framed request/response exchange over
//! a bulk endpoint pair, and a clean teardown (disarm, release).
//!
//! The protocol decisions live here, verified: device lookup, the session
//! state machines, response framing and validity classification. The raw USB
//! transfers themselves are performed by a driver outside this crate, which
//! feeds their outcomes back into the state machines as events.

pub mod errors;
pub mod exchange;
pub mod framing;
pub mod protocol;
pub mod session;

use vstd::prelude::*;

verus! {

} // verus!
