//! The command/response exchange: write a command frame to the bulk-out
//! endpoint, read a response frame from the bulk-in endpoint, and decode it.
//!
//! Like the session lifecycle, the exchange is a state machine: the driver
//! performs the transfer the state asks for and hands back the outcome. The
//! one deliberate subtlety lives here: a write that reports fewer bytes than
//! requested is downgraded to a warning, and the exchange still reads.

use vstd::prelude::*;

use crate::errors::ProtocolError;
use crate::errors::Warning;
use crate::framing::_extract_response_from_raw_output;
use crate::framing::response_text;
use crate::framing::well_formed_response;
use crate::session::Session;

verus! {

/// The transfer an exchange in progress asks its driver for next.
#[derive(Clone, Copy, Debug, PartialEq, Eq, Structural)]
pub enum ExchangeAction {
    /// Write the command frame to the bulk-out endpoint.
    WriteCommand,
    /// Read up to the response-buffer size from the bulk-in endpoint.
    ReadResponse,
    /// Nothing: the exchange has finished, successfully or not.
    Stop,
}

/// The outcome of an exchange transfer, handed back by the driver.
#[derive(Clone, Copy, Debug, PartialEq, Eq, Structural)]
pub enum ExchangeEvent {
    /// How many bytes the bulk write reported transferring, or nothing on a
    /// transport failure.
    WriteDone(Option<usize>),
    /// Whether the bulk read succeeded; the driver keeps the bytes it read
    /// and hands them to `exchange_finish`.
    ReadDone(bool),
}

/// Where an exchange in progress stands.
#[derive(Clone, Copy, Debug, PartialEq, Eq, Structural)]
pub enum ExchangeState {
    /// Writing the command; `expected` is its full length in bytes.
    Writing { expected: usize },
    /// Write done (short or not); reading the response.
    Reading { short_write: bool },
    /// Response bytes received and awaiting decoding.
    Received { short_write: bool },
    /// The exchange failed at the transport level.
    Failed { error: ProtocolError },
}

/// The transfer each exchange state asks for.
pub open spec fn exchange_required_action(st: ExchangeState) -> ExchangeAction {
    match st {
        ExchangeState::Writing { .. } => ExchangeAction::WriteCommand,
        ExchangeState::Reading { .. } => ExchangeAction::ReadResponse,
        ExchangeState::Received { .. } => ExchangeAction::Stop,
        ExchangeState::Failed { .. } => ExchangeAction::Stop,
    }
}

/// The exchange transition relation. A failed write or read is fatal; a
/// write that reports fewer bytes than the command's length is recorded as
/// short and the exchange proceeds to read regardless. An event that does
/// not answer the state's required transfer changes nothing.
pub open spec fn exchange_next(st: ExchangeState, ev: ExchangeEvent) -> ExchangeState {
    match (st, ev) {
        (ExchangeState::Writing { .. }, ExchangeEvent::WriteDone(None)) => ExchangeState::Failed {
            error: ProtocolError::BulkWriteFailed,
        },
        (ExchangeState::Writing { expected }, ExchangeEvent::WriteDone(Some(n))) => ExchangeState::Reading {
            short_write: n != expected,
        },
        (ExchangeState::Reading { short_write }, ExchangeEvent::ReadDone(true)) => ExchangeState::Received {
            short_write,
        },
        (ExchangeState::Reading { .. }, ExchangeEvent::ReadDone(false)) => ExchangeState::Failed {
            error: ProtocolError::BulkReadFailed,
        },
        (_, _) => st,
    }
}

/// Starts an exchange on a live session: the first thing to do is write the
/// whole command.
pub fn exchange_start(session: &Session, command: &Vec<u8>) -> (st: ExchangeState)
    requires
        session.wf(),
    ensures
        st == (ExchangeState::Writing { expected: command@.len() as usize }),
{
    ExchangeState::Writing { expected: command.len() }
}

/// The transfer the driver must perform in the given state.
pub fn exchange_action(st: &ExchangeState) -> (a: ExchangeAction)
    ensures
        a == exchange_required_action(*st),
{
    match st {
        ExchangeState::Writing { .. } => ExchangeAction::WriteCommand,
        ExchangeState::Reading { .. } => ExchangeAction::ReadResponse,
        ExchangeState::Received { .. } => ExchangeAction::Stop,
        ExchangeState::Failed { .. } => ExchangeAction::Stop,
    }
}

/// Advances an exchange by one observed transfer outcome.
pub fn exchange_step(st: ExchangeState, ev: ExchangeEvent) -> (r: ExchangeState)
    ensures
        r == exchange_next(st, ev),
{
    match (st, ev) {
        (ExchangeState::Writing { .. }, ExchangeEvent::WriteDone(None)) => ExchangeState::Failed {
            error: ProtocolError::BulkWriteFailed,
        },
        (ExchangeState::Writing { expected }, ExchangeEvent::WriteDone(Some(n))) => ExchangeState::Reading {
            short_write: n != expected,
        },
        (ExchangeState::Reading { short_write }, ExchangeEvent::ReadDone(true)) => ExchangeState::Received {
            short_write,
        },
        (ExchangeState::Reading { .. }, ExchangeEvent::ReadDone(false)) => ExchangeState::Failed {
            error: ProtocolError::BulkReadFailed,
        },
        (_, _) => st,
    }
}

/// Turns a finished exchange into its result: the decoded response text,
/// with the short-write warning if one was recorded, or the error that
/// stopped the exchange. `raw` is the buffer the driver's read filled; it is
/// decoded here, so a response without a terminator or with invalid text
/// fails with `MalformedResponse`.
pub fn exchange_finish(st: &ExchangeState, raw: &Vec<u8>) -> (r: Result<
    (String, Option<Warning>),
    ProtocolError,
>)
    requires
        exchange_required_action(*st) == ExchangeAction::Stop,
    ensures
        *st matches ExchangeState::Failed { error } ==> r == Err::<(String, Option<Warning>),
            ProtocolError,
        >(error),
        *st matches ExchangeState::Received { short_write } ==> match r {
            Ok((text, warning)) => {
                &&& well_formed_response(raw@)
                &&& text@ == response_text(raw@)
                &&& warning == (if short_write {
                    Some(Warning::ShortWrite)
                } else {
                    None::<Warning>
                })
            },
            Err(e) => e == ProtocolError::MalformedResponse && !well_formed_response(raw@),
        },
{
    match st {
        ExchangeState::Received { short_write } => match _extract_response_from_raw_output(raw) {
            Ok(text) => {
                let warning = if *short_write {
                    Some(Warning::ShortWrite)
                } else {
                    None
                };
                Ok((text, warning))
            },
            Err(e) => Err(e),
        },
        ExchangeState::Failed { error } => Err(*error),
        _ => Err(ProtocolError::BulkReadFailed),
    }
}

/// A write that reports fewer bytes than requested does not abort the
/// exchange: it is recorded as a short write and the next required transfer
/// is still the response read; a successful read then completes the exchange
/// with the short write surfaced as a warning.
pub proof fn lemma_short_write_still_reads(expected: usize, written: usize)
    requires
        written < expected,
    ensures
        exchange_next(
            ExchangeState::Writing { expected },
            ExchangeEvent::WriteDone(Some(written)),
        ) == (ExchangeState::Reading { short_write: true }),
        exchange_required_action(
            ExchangeState::Reading { short_write: true },
        ) == ExchangeAction::ReadResponse,
        exchange_next(ExchangeState::Reading { short_write: true }, ExchangeEvent::ReadDone(true))
            == (ExchangeState::Received { short_write: true }),
{
}

} // verus!
