use vstd::prelude::*;
use vstd::string::StringExecFns;

use crate::ctx::DaemonCtx;
use crate::dispatch::{accepts, dispatched, handle_command, Effect};
use crate::message::{Command, Response};

verus! {

/// Where a client connection stands.
#[derive(PartialEq, Eq, Debug, Clone, Copy, Structural)]
pub enum SessionState {
    /// Waiting for the next line from the client.
    Reading,
    /// A response is being written back.
    Processing,
    /// The connection is over.
    Closed,
}

/// What happened on a connection.
#[derive(PartialEq, Eq, Debug)]
pub enum SessionEvent {
    /// A line arrived that reads as a command.
    Line(Command),
    /// A line arrived that does not read as a command; the text says why.
    Malformed(String),
    /// The pending response has been written.
    Sent,
    /// The client hung up.
    Disconnected,
    /// Reading or writing failed.
    IoFailed,
}

/// What the connection must do next.
#[derive(PartialEq, Eq, Debug)]
pub enum SessionAction {
    /// Write this response as one line, then carry out the effect.
    Send(Response, Option<Effect>),
    /// Drop the connection.
    Close,
    /// Nothing: wait for the next event.
    Wait,
}

pub open spec fn parse_error_prefix() -> Seq<char> {
    "Error: failed to parse client message as Command: "@
}

/// The diagnostic sent back for a line that is not a command.
pub open spec fn parse_error_message(reason: Seq<char>) -> Seq<char> {
    parse_error_prefix() + reason
}

/// The next state of a connection in state `s`, after event `e` at `now`,
/// and what it must do; `m`, `m2` are the daemon's state before and after.
pub open spec fn session_next(
    s: SessionState,
    e: SessionEvent,
    now: u64,
    m: crate::ctx::CtxModel,
    s2: SessionState,
    a: SessionAction,
    m2: crate::ctx::CtxModel,
) -> bool {
    if s == SessionState::Closed {
        s2 == SessionState::Closed && a == SessionAction::Wait && m2 == m
    } else {
        match e {
            SessionEvent::Disconnected | SessionEvent::IoFailed => {
                s2 == SessionState::Closed && a == SessionAction::Close && m2 == m
            },
            SessionEvent::Line(cmd) => if s == SessionState::Reading {
                &&& s2 == SessionState::Processing
                &&& a matches SessionAction::Send(resp, effect) && dispatched(m, cmd, now, m2, resp, effect)
            } else {
                s2 == s && a == SessionAction::Wait && m2 == m
            },
            SessionEvent::Malformed(reason) => if s == SessionState::Reading {
                &&& s2 == SessionState::Processing
                &&& a matches SessionAction::Send(Response::Error(msg), None) && msg@
                    == parse_error_message(reason@)
                &&& m2 == m
            } else {
                s2 == s && a == SessionAction::Wait && m2 == m
            },
            SessionEvent::Sent => if s == SessionState::Processing {
                s2 == SessionState::Reading && a == SessionAction::Wait && m2 == m
            } else {
                s2 == s && a == SessionAction::Wait && m2 == m
            },
        }
    }
}

/// Whether event `e` in state `s` can be handled at `now`.
pub open spec fn session_accepts(s: SessionState, e: SessionEvent, now: u64, m: crate::ctx::CtxModel) -> bool {
    s == SessionState::Reading && e is Line ==> accepts(m, e->Line_0, now)
}

/// One step of a client connection: a malformed line is answered with an
/// error and the connection reads on; a command is carried out and answered
/// with exactly one response; a hang-up or an I/O failure ends it.
pub fn session_step(s: SessionState, e: SessionEvent, state: &mut DaemonCtx, now: u64) -> (r: (
    SessionState,
    SessionAction,
))
    requires
        old(state).wf(),
        session_accepts(s, e, now, old(state)@),
    ensures
        session_next(s, e, now, old(state)@, r.0, r.1, final(state)@),
        final(state).wf(),
        final(state).sound() == old(state).sound(),
{
    if s == SessionState::Closed {
        return (SessionState::Closed, SessionAction::Wait);
    }
    match e {
        SessionEvent::Disconnected | SessionEvent::IoFailed => (SessionState::Closed, SessionAction::Close),
        SessionEvent::Line(cmd) => {
            if s == SessionState::Reading {
                let (resp, effect) = handle_command(cmd, state, now);
                (SessionState::Processing, SessionAction::Send(resp, effect))
            } else {
                (s, SessionAction::Wait)
            }
        },
        SessionEvent::Malformed(reason) => {
            if s == SessionState::Reading {
                let msg = String::from_str("Error: failed to parse client message as Command: ").concat(
                    reason.as_str(),
                );
                (SessionState::Processing, SessionAction::Send(Response::Error(msg), None))
            } else {
                (s, SessionAction::Wait)
            }
        },
        SessionEvent::Sent => {
            if s == SessionState::Processing {
                (SessionState::Reading, SessionAction::Wait)
            } else {
                (s, SessionAction::Wait)
            }
        },
    }
}

} // verus!
