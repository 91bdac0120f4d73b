//! The decisions of one command exchange with the device.
//!
//! The exchange never touches the transport itself. Each step names one
//! action for the driver to perform; the driver performs it and hands back
//! what it observed as an event, until the exchange is done with an outcome.
//! Setup actions (clearing the input buffer, moving the request-to-send line,
//! writing a frame) are best effort: whatever the driver observed of them,
//! the exchange goes on.

use vstd::prelude::*;
use crate::codec::Color;
use crate::frame::{
    KIND_SET_PATTERN, KIND_QUERY_STATE, REPLY_LEN, Reply, set_pattern_bytes, query_bytes, reply_of,
    set_pattern_frame, query_frame, decode_reply,
};

verus! {

/// How long a query waits for the reply, in milliseconds, counted from
/// before the query byte is written.
pub const DEADLINE_MS: u64 = 10_000;

/// How long the driver sleeps between two checks of the input buffer, in
/// milliseconds.
pub const POLL_INTERVAL_MS: u64 = 1;

/// What the driver is asked to do next.
#[derive(Clone, Debug)]
pub enum Action {
    /// Write these bytes in one call; a failure is ignored.
    Write(Vec<u8>),
    /// Discard whatever waits in the input buffer; a failure is ignored.
    ClearInput,
    /// Set the request-to-send line to this level; a failure is ignored.
    SetRequestToSend(bool),
    /// Start the clock that the deadline is measured on.
    StartClock,
    /// Report the time since the clock started and the bytes waiting.
    CheckAvailable,
    /// Sleep this many milliseconds.
    Sleep(u64),
    /// Read exactly this many bytes in one call.
    ReadExact(usize),
}

/// What the driver observed while performing the last action.
#[derive(Clone, Debug)]
pub enum Event {
    /// The action was carried out, or tried; nothing to report.
    Performed,
    /// Milliseconds since the clock started, and the bytes waiting to be
    /// read (`None` where the transport could not say).
    Checked { elapsed_ms: u64, available: Option<u32> },
    /// The exact read filled the buffer.
    ReadOk([u8; REPLY_LEN]),
    /// The exact read failed, for this reason.
    ReadFailed(String),
}

/// How an exchange ended.
#[derive(Clone, Debug)]
pub enum Outcome {
    /// The command kind asks for nothing; the transport was not touched.
    NoOp,
    /// The SetPattern frame was handed to one write call.
    Sent,
    /// The device replied with its state.
    Query(Reply),
    /// The exact read of the reply failed; no state is reported.
    ReadError(String),
    /// The reply was not there before the deadline; no state is reported.
    Timeout,
}

/// An exchange under way, named by the action whose result it awaits.
#[derive(Clone, Copy, Debug, PartialEq, Eq, Structural)]
pub enum Exchange {
    SendingPattern,
    ClearingInput,
    LoweringRequest,
    StartingClock,
    SendingQuery,
    RaisingRequest,
    Polling,
    Sleeping,
    Reading,
}

/// One step: either the exchange goes on and asks for an action, or it is
/// done.
#[derive(Clone, Debug)]
pub enum Step {
    Next(Exchange, Action),
    Done(Outcome),
}

/// The bytes waiting, where a failed check counts as none.
pub open spec fn available_count(available: Option<u32>) -> u32 {
    match available {
        Some(n) => n,
        None => 0,
    }
}

impl Exchange {
    /// Starts the exchange for a command kind. SetPattern asks for its frame
    /// to be written; QueryState begins by clearing the input buffer; every
    /// other kind is done at once, with no action on the transport.
    pub fn start(kind: u8, pattern: u8, color_a: Color, color_b: Color) -> (r: Step)
        ensures
            kind == KIND_SET_PATTERN ==> (r matches Step::Next(e, Action::Write(f)) && e
                == Exchange::SendingPattern && f@ == set_pattern_bytes(pattern, color_a, color_b)),
            kind == KIND_QUERY_STATE ==> r == Step::Next(Exchange::ClearingInput, Action::ClearInput),
            kind != KIND_SET_PATTERN && kind != KIND_QUERY_STATE ==> r == Step::Done(Outcome::NoOp),
    {
        if kind == KIND_SET_PATTERN {
            Step::Next(Exchange::SendingPattern, Action::Write(set_pattern_frame(pattern, color_a, color_b)))
        } else if kind == KIND_QUERY_STATE {
            Step::Next(Exchange::ClearingInput, Action::ClearInput)
        } else {
            Step::Done(Outcome::NoOp)
        }
    }

    /// Takes what the driver observed and decides the next step.
    ///
    /// The query runs: clear input, lower request-to-send, start the clock,
    /// write the query byte, raise request-to-send, then check and sleep in
    /// turn. A check at or past the deadline ends in a timeout; before it, a
    /// check that finds a whole reply waiting asks for one exact read of it,
    /// and any other check asks for one poll interval of sleep. A check or a
    /// read that is answered by an event of another kind is asked for again.
    pub fn step(self, event: Event) -> (r: Step)
        ensures
            self == Exchange::SendingPattern ==> r == Step::Done(Outcome::Sent),
            self == Exchange::ClearingInput ==> r == Step::Next(
                Exchange::LoweringRequest,
                Action::SetRequestToSend(false),
            ),
            self == Exchange::LoweringRequest ==> r == Step::Next(
                Exchange::StartingClock,
                Action::StartClock,
            ),
            self == Exchange::StartingClock ==> (r matches Step::Next(e, Action::Write(f)) && e
                == Exchange::SendingQuery && f@ == query_bytes()),
            self == Exchange::SendingQuery ==> r == Step::Next(
                Exchange::RaisingRequest,
                Action::SetRequestToSend(true),
            ),
            self == Exchange::RaisingRequest || self == Exchange::Sleeping ==> r == Step::Next(
                Exchange::Polling,
                Action::CheckAvailable,
            ),
            self == Exchange::Polling ==> match event {
                Event::Checked { elapsed_ms, available } => if elapsed_ms >= DEADLINE_MS {
                    r == Step::Done(Outcome::Timeout)
                } else if available_count(available) >= REPLY_LEN {
                    r == Step::Next(Exchange::Reading, Action::ReadExact(REPLY_LEN))
                } else {
                    r == Step::Next(Exchange::Sleeping, Action::Sleep(POLL_INTERVAL_MS))
                },
                _ => r == Step::Next(Exchange::Polling, Action::CheckAvailable),
            },
            self == Exchange::Reading ==> match event {
                Event::ReadOk(buf) => r == Step::Done(Outcome::Query(reply_of(buf@))),
                Event::ReadFailed(cause) => r == Step::Done(Outcome::ReadError(cause)),
                _ => r == Step::Next(Exchange::Reading, Action::ReadExact(REPLY_LEN)),
            },
    {
        match self {
            Exchange::SendingPattern => Step::Done(Outcome::Sent),
            Exchange::ClearingInput => Step::Next(Exchange::LoweringRequest, Action::SetRequestToSend(false)),
            Exchange::LoweringRequest => Step::Next(Exchange::StartingClock, Action::StartClock),
            Exchange::StartingClock => Step::Next(Exchange::SendingQuery, Action::Write(query_frame())),
            Exchange::SendingQuery => Step::Next(Exchange::RaisingRequest, Action::SetRequestToSend(true)),
            Exchange::RaisingRequest | Exchange::Sleeping => Step::Next(Exchange::Polling, Action::CheckAvailable),
            Exchange::Polling => match event {
                Event::Checked { elapsed_ms, available } => {
                    let waiting: u32 = match available {
                        Some(n) => n,
                        None => 0,
                    };
                    if elapsed_ms >= DEADLINE_MS {
                        Step::Done(Outcome::Timeout)
                    } else if waiting as usize >= REPLY_LEN {
                        Step::Next(Exchange::Reading, Action::ReadExact(REPLY_LEN))
                    } else {
                        Step::Next(Exchange::Sleeping, Action::Sleep(POLL_INTERVAL_MS))
                    }
                },
                _ => Step::Next(Exchange::Polling, Action::CheckAvailable),
            },
            Exchange::Reading => match event {
                Event::ReadOk(buf) => Step::Done(Outcome::Query(decode_reply(&buf))),
                Event::ReadFailed(cause) => Step::Done(Outcome::ReadError(cause)),
                _ => Step::Next(Exchange::Reading, Action::ReadExact(REPLY_LEN)),
            },
        }
    }
}

} // verus!
