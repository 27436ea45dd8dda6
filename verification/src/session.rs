//! Session lifecycle: find a device by identity, claim its interface, arm it
//! with a control handshake, and later disarm and release it.
//!
//! The raw transfers run outside this crate. Each lifecycle is a small state
//! machine: a state names the one transfer to perform next, the driver
//! performs it and hands the outcome back as an event, and the machine
//! decides what follows. Every decision — which failures are fatal, which
//! are downgraded to warnings, what is attempted regardless — is made here.

use vstd::prelude::*;

use crate::errors::ProtocolError;
use crate::errors::Warning;
use crate::protocol::BULK_IN_ENDPOINT;
use crate::protocol::BULK_OUT_ENDPOINT;
use crate::protocol::TIMEOUT_MS;

verus! {

/// The identity a device is looked up by: its vendor and product id.
#[derive(Clone, Copy, Debug, PartialEq, Eq, Structural)]
pub struct DeviceId {
    pub vendor_id: u16,
    pub product_id: u16,
}

/// Whether a device identity matches the requested vendor/product pair.
pub open spec fn id_matches(d: DeviceId, vid: u16, pid: u16) -> bool {
    d.vendor_id == vid && d.product_id == pid
}

/// Picks the device a session is opened on: the first entry matching the
/// requested identity, or nothing when no entry matches.
pub fn lookup_device(devices: &Vec<DeviceId>, vid: u16, pid: u16) -> (r: Option<usize>)
    ensures
        r matches Some(i) ==> i < devices@.len() && id_matches(devices@[i as int], vid, pid)
            && forall|j: int| 0 <= j < i ==> !id_matches(devices@[j], vid, pid),
        r is None ==> forall|j: int| 0 <= j < devices@.len() ==> !id_matches(devices@[j], vid, pid),
{
    let mut i: usize = 0;
    while i < devices.len()
        invariant
            0 <= i <= devices@.len(),
            forall|j: int| 0 <= j < i ==> !id_matches(devices@[j], vid, pid),
        decreases devices@.len() - i,
    {
        let d = devices[i];
        if d.vendor_id == vid && d.product_id == pid {
            return Some(i);
        }
        i = i + 1;
    }
    None
}

/// A live session: one claimed interface, armed, with its bulk endpoint pair
/// and per-operation timeout fixed by the protocol. Deliberately neither
/// copiable nor clonable: closing consumes it, so no exchange can follow.
#[derive(Debug, PartialEq, Eq, Structural)]
pub struct Session {
    pub bulk_out_endpoint: u8,
    pub bulk_in_endpoint: u8,
    pub timeout_ms: u64,
}

impl Session {
    /// A session is bound to the protocol's fixed endpoints and timeout.
    pub open spec fn wf(&self) -> bool {
        &&& self.bulk_out_endpoint == BULK_OUT_ENDPOINT
        &&& self.bulk_in_endpoint == BULK_IN_ENDPOINT
        &&& self.timeout_ms == TIMEOUT_MS
    }
}

/// The transfer an open in progress asks its driver for next.
#[derive(Clone, Copy, Debug, PartialEq, Eq, Structural)]
pub enum OpenAction {
    /// Enumerate the attached devices and open the first one matching the
    /// requested identity (`lookup_device` picks it).
    FindDevice,
    /// Claim the device's interface.
    ClaimInterface,
    /// Issue the arm control transfer.
    ArmTransfer,
    /// Issue the one discarded bulk read that flushes stale data.
    ClearRead,
    /// Nothing: the open has finished, successfully or not.
    Stop,
}

/// The outcome of an open transfer, handed back by the driver.
#[derive(Clone, Copy, Debug, PartialEq, Eq, Structural)]
pub enum OpenEvent {
    /// Whether a matching device was found and opened.
    Found(bool),
    /// Whether the interface claim succeeded.
    ClaimDone(bool),
    /// Whether the arm control transfer succeeded.
    ArmDone(bool),
    /// Whether the buffer-clearing read succeeded.
    ClearDone(bool),
}

/// Where an open in progress stands.
#[derive(Clone, Copy, Debug, PartialEq, Eq, Structural)]
pub enum OpenState {
    /// Looking the device up by identity.
    Finding,
    /// Device opened; claiming its interface.
    Claiming,
    /// Interface claimed; arming the device.
    Arming,
    /// Arm attempted (its failure is only a warning); flushing stale data.
    Clearing { arm_failed: bool },
    /// The session is established.
    Opened { arm_failed: bool },
    /// The open failed; no session exists.
    Failed { error: ProtocolError },
}

/// The transfer each open state asks for.
pub open spec fn open_required_action(st: OpenState) -> OpenAction {
    match st {
        OpenState::Finding => OpenAction::FindDevice,
        OpenState::Claiming => OpenAction::ClaimInterface,
        OpenState::Arming => OpenAction::ArmTransfer,
        OpenState::Clearing { .. } => OpenAction::ClearRead,
        OpenState::Opened { .. } => OpenAction::Stop,
        OpenState::Failed { .. } => OpenAction::Stop,
    }
}

/// The open transition relation. A missing device and a failed claim are
/// fatal; a failed arm is recorded and establishment continues; the outcome
/// of the buffer-clearing read is ignored. An event that does not answer the
/// state's required transfer changes nothing.
pub open spec fn open_next(st: OpenState, ev: OpenEvent) -> OpenState {
    match (st, ev) {
        (OpenState::Finding, OpenEvent::Found(true)) => OpenState::Claiming,
        (OpenState::Finding, OpenEvent::Found(false)) => OpenState::Failed {
            error: ProtocolError::DeviceNotFound,
        },
        (OpenState::Claiming, OpenEvent::ClaimDone(true)) => OpenState::Arming,
        (OpenState::Claiming, OpenEvent::ClaimDone(false)) => OpenState::Failed {
            error: ProtocolError::ClaimFailed,
        },
        (OpenState::Arming, OpenEvent::ArmDone(ok)) => OpenState::Clearing { arm_failed: !ok },
        (OpenState::Clearing { arm_failed }, OpenEvent::ClearDone(_)) => OpenState::Opened {
            arm_failed,
        },
        (_, _) => st,
    }
}

/// Starts an open: the first thing to do is find the device.
pub fn open_start() -> (st: OpenState)
    ensures
        st == OpenState::Finding,
{
    OpenState::Finding
}

/// The transfer the driver must perform in the given state.
pub fn open_action(st: &OpenState) -> (a: OpenAction)
    ensures
        a == open_required_action(*st),
{
    match st {
        OpenState::Finding => OpenAction::FindDevice,
        OpenState::Claiming => OpenAction::ClaimInterface,
        OpenState::Arming => OpenAction::ArmTransfer,
        OpenState::Clearing { .. } => OpenAction::ClearRead,
        OpenState::Opened { .. } => OpenAction::Stop,
        OpenState::Failed { .. } => OpenAction::Stop,
    }
}

/// Advances an open by one observed transfer outcome.
pub fn open_step(st: OpenState, ev: OpenEvent) -> (r: OpenState)
    ensures
        r == open_next(st, ev),
{
    match (st, ev) {
        (OpenState::Finding, OpenEvent::Found(true)) => OpenState::Claiming,
        (OpenState::Finding, OpenEvent::Found(false)) => OpenState::Failed {
            error: ProtocolError::DeviceNotFound,
        },
        (OpenState::Claiming, OpenEvent::ClaimDone(true)) => OpenState::Arming,
        (OpenState::Claiming, OpenEvent::ClaimDone(false)) => OpenState::Failed {
            error: ProtocolError::ClaimFailed,
        },
        (OpenState::Arming, OpenEvent::ArmDone(ok)) => OpenState::Clearing { arm_failed: !ok },
        (OpenState::Clearing { arm_failed }, OpenEvent::ClearDone(_)) => OpenState::Opened {
            arm_failed,
        },
        (_, _) => st,
    }
}

/// Turns a finished open into its result: the live session together with the
/// arm warning if the arm handshake failed, or the error that stopped the
/// open.
pub fn open_finish(st: &OpenState) -> (r: Result<(Session, Option<Warning>), ProtocolError>)
    requires
        open_required_action(*st) == OpenAction::Stop,
    ensures
        *st matches OpenState::Opened { arm_failed } ==> (r matches Ok((s, w)) && s.wf() && w == (
        if arm_failed {
            Some(Warning::ArmFailed)
        } else {
            None::<Warning>
        })),
        *st matches OpenState::Failed { error } ==> r == Err::<(Session, Option<Warning>),
            ProtocolError,
        >(error),
{
    match st {
        OpenState::Opened { arm_failed } => {
            let session = Session {
                bulk_out_endpoint: BULK_OUT_ENDPOINT,
                bulk_in_endpoint: BULK_IN_ENDPOINT,
                timeout_ms: TIMEOUT_MS,
            };
            let warning = if *arm_failed {
                Some(Warning::ArmFailed)
            } else {
                None
            };
            Ok((session, warning))
        },
        OpenState::Failed { error } => Err(*error),
        _ => Err(ProtocolError::DeviceNotFound),
    }
}

/// Opening with an identity that matches no device fails with
/// `DeviceNotFound`, and the failed state is terminal: it requests no
/// transfer and no event moves it.
pub proof fn lemma_unmatched_open_attempts_no_transfer()
    ensures
        open_next(OpenState::Finding, OpenEvent::Found(false)) == (OpenState::Failed {
            error: ProtocolError::DeviceNotFound,
        }),
        open_required_action(
            OpenState::Failed { error: ProtocolError::DeviceNotFound },
        ) == OpenAction::Stop,
        forall|ev: OpenEvent|
            open_next(OpenState::Failed { error: ProtocolError::DeviceNotFound }, ev)
                == (OpenState::Failed { error: ProtocolError::DeviceNotFound }),
{
}

/// The transfer a close in progress asks its driver for next.
#[derive(Clone, Copy, Debug, PartialEq, Eq, Structural)]
pub enum CloseAction {
    /// Issue the disarm control transfer.
    DisarmTransfer,
    /// Release the claimed interface.
    ReleaseInterface,
    /// Nothing: the close has finished.
    Stop,
}

/// The outcome of a close transfer, handed back by the driver.
#[derive(Clone, Copy, Debug, PartialEq, Eq, Structural)]
pub enum CloseEvent {
    /// Whether the disarm control transfer succeeded.
    DisarmDone(bool),
    /// Whether the interface release succeeded.
    ReleaseDone(bool),
}

/// Where a close in progress stands.
#[derive(Clone, Copy, Debug, PartialEq, Eq, Structural)]
pub enum CloseState {
    /// Disarming the device.
    Disarming,
    /// Disarm attempted; releasing the interface regardless of its outcome.
    Releasing { disarm_failed: bool },
    /// Both teardown steps were attempted.
    Closed { disarm_failed: bool, release_failed: bool },
}

/// The transfer each close state asks for.
pub open spec fn close_required_action(st: CloseState) -> CloseAction {
    match st {
        CloseState::Disarming => CloseAction::DisarmTransfer,
        CloseState::Releasing { .. } => CloseAction::ReleaseInterface,
        CloseState::Closed { .. } => CloseAction::Stop,
    }
}

/// The close transition relation: disarm and release are attempted
/// unconditionally in sequence, each exactly once, and each failure is
/// recorded rather than cutting the teardown short. An event that does not
/// answer the state's required transfer changes nothing.
pub open spec fn close_next(st: CloseState, ev: CloseEvent) -> CloseState {
    match (st, ev) {
        (CloseState::Disarming, CloseEvent::DisarmDone(ok)) => CloseState::Releasing {
            disarm_failed: !ok,
        },
        (CloseState::Releasing { disarm_failed }, CloseEvent::ReleaseDone(ok)) => CloseState::Closed {
            disarm_failed,
            release_failed: !ok,
        },
        (_, _) => st,
    }
}

/// Starts a close, consuming the session so no exchange can follow it: the
/// first thing to do is disarm the device.
pub fn close_start(session: Session) -> (st: CloseState)
    ensures
        st == CloseState::Disarming,
{
    let _ = session;
    CloseState::Disarming
}

/// The transfer the driver must perform in the given state.
pub fn close_action(st: &CloseState) -> (a: CloseAction)
    ensures
        a == close_required_action(*st),
{
    match st {
        CloseState::Disarming => CloseAction::DisarmTransfer,
        CloseState::Releasing { .. } => CloseAction::ReleaseInterface,
        CloseState::Closed { .. } => CloseAction::Stop,
    }
}

/// Advances a close by one observed transfer outcome.
pub fn close_step(st: CloseState, ev: CloseEvent) -> (r: CloseState)
    ensures
        r == close_next(st, ev),
{
    match (st, ev) {
        (CloseState::Disarming, CloseEvent::DisarmDone(ok)) => CloseState::Releasing {
            disarm_failed: !ok,
        },
        (CloseState::Releasing { disarm_failed }, CloseEvent::ReleaseDone(ok)) => CloseState::Closed {
            disarm_failed,
            release_failed: !ok,
        },
        (_, _) => st,
    }
}

/// What a finished close reports: both teardown steps ran, and each failure
/// is surfaced on its own.
#[derive(Clone, Copy, Debug, PartialEq, Eq)]
pub struct CloseOutcome {
    pub disarm_error: Option<ProtocolError>,
    pub release_error: Option<ProtocolError>,
}

impl CloseOutcome {
    /// A close succeeded when neither teardown step failed.
    pub open spec fn is_ok(&self) -> bool {
        self.disarm_error is None && self.release_error is None
    }
}

/// Turns a finished close into its composite result: the disarm failure and
/// the release failure, each surfaced independently.
pub fn close_finish(st: &CloseState) -> (r: CloseOutcome)
    requires
        st is Closed,
    ensures
        r.disarm_error == (if st->Closed_disarm_failed {
            Some(ProtocolError::ControlTransferFailed)
        } else {
            None::<ProtocolError>
        }),
        r.release_error == (if st->Closed_release_failed {
            Some(ProtocolError::ReleaseFailed)
        } else {
            None::<ProtocolError>
        }),
        r.is_ok() <==> !st->Closed_disarm_failed && !st->Closed_release_failed,
{
    match st {
        CloseState::Closed { disarm_failed, release_failed } => CloseOutcome {
            disarm_error: if *disarm_failed {
                Some(ProtocolError::ControlTransferFailed)
            } else {
                None
            },
            release_error: if *release_failed {
                Some(ProtocolError::ReleaseFailed)
            } else {
                None
            },
        },
        _ => CloseOutcome { disarm_error: None, release_error: None },
    }
}

/// A close attempts the disarm transfer exactly once and, whatever its
/// outcome, attempts the interface release exactly once: the machine walks
/// `Disarming`, `Releasing`, `Closed` in order, asking for each teardown
/// transfer once, for every combination of outcomes.
pub proof fn lemma_close_always_releases(disarm_ok: bool, release_ok: bool)
    ensures
        close_required_action(CloseState::Disarming) == CloseAction::DisarmTransfer,
        close_next(CloseState::Disarming, CloseEvent::DisarmDone(disarm_ok))
            == (CloseState::Releasing { disarm_failed: !disarm_ok }),
        close_required_action(CloseState::Releasing { disarm_failed: !disarm_ok })
            == CloseAction::ReleaseInterface,
        close_next(
            CloseState::Releasing { disarm_failed: !disarm_ok },
            CloseEvent::ReleaseDone(release_ok),
        ) == (CloseState::Closed { disarm_failed: !disarm_ok, release_failed: !release_ok }),
        close_required_action(
            CloseState::Closed { disarm_failed: !disarm_ok, release_failed: !release_ok },
        ) == CloseAction::Stop,
{
}

} // verus!
