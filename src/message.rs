use vstd::prelude::*;

use crate::timer::{TimerId, TimerInfoForClient};

verus! {

/// A request from a client, one per line.
#[derive(PartialEq, Eq, Debug, Clone, Copy, Structural)]
pub enum Command {
    List,
    /// Start a timer of `duration` milliseconds.
    AddTimer { duration: u64 },
    PauseTimer(TimerId),
    ResumeTimer(TimerId),
    CancelTimer(TimerId),
}

#[derive(PartialEq, Eq, Debug)]
pub enum ListResponse {
    Success { timers: Vec<TimerInfoForClient> },
}

impl ListResponse {
    pub fn ok(timers: Vec<TimerInfoForClient>) -> (r: ListResponse)
        ensures
            r == (ListResponse::Success { timers }),
    {
        ListResponse::Success { timers }
    }
}

#[derive(PartialEq, Eq, Debug, Clone, Copy, Structural)]
pub enum AddTimerResponse {
    Success { id: TimerId },
}

impl AddTimerResponse {
    pub fn ok(id: TimerId) -> (r: AddTimerResponse)
        ensures
            r == (AddTimerResponse::Success { id }),
    {
        AddTimerResponse::Success { id }
    }
}

#[derive(PartialEq, Eq, Debug, Clone, Copy, Structural)]
pub enum CancelTimerResponse {
    Success,
    TimerNotFound,
}

#[derive(PartialEq, Eq, Debug, Clone, Copy, Structural)]
pub enum PauseTimerResponse {
    Success,
    TimerNotFound,
    AlreadyPaused,
}

#[derive(PartialEq, Eq, Debug, Clone, Copy, Structural)]
pub enum ResumeTimerResponse {
    Success,
    TimerNotFound,
    AlreadyRunning,
}

/// The one line that answers a request: the answer to a command, or a
/// diagnostic for a line that was not a command.
#[derive(PartialEq, Eq, Debug)]
pub enum Response {
    List(ListResponse),
    AddTimer(AddTimerResponse),
    CancelTimer(CancelTimerResponse),
    PauseTimer(PauseTimerResponse),
    ResumeTimer(ResumeTimerResponse),
    Error(String),
}

impl From<ListResponse> for Response {
    fn from(r: ListResponse) -> (out: Response)
        ensures
            out == Response::List(r),
    {
        Response::List(r)
    }
}

impl vstd::std_specs::convert::FromSpecImpl<ListResponse> for Response {
    open spec fn obeys_from_spec() -> bool {
        true
    }

    open spec fn from_spec(r: ListResponse) -> Response {
        Response::List(r)
    }
}

impl From<AddTimerResponse> for Response {
    fn from(r: AddTimerResponse) -> (out: Response)
        ensures
            out == Response::AddTimer(r),
    {
        Response::AddTimer(r)
    }
}

impl vstd::std_specs::convert::FromSpecImpl<AddTimerResponse> for Response {
    open spec fn obeys_from_spec() -> bool {
        true
    }

    open spec fn from_spec(r: AddTimerResponse) -> Response {
        Response::AddTimer(r)
    }
}

impl From<CancelTimerResponse> for Response {
    fn from(r: CancelTimerResponse) -> (out: Response)
        ensures
            out == Response::CancelTimer(r),
    {
        Response::CancelTimer(r)
    }
}

impl vstd::std_specs::convert::FromSpecImpl<CancelTimerResponse> for Response {
    open spec fn obeys_from_spec() -> bool {
        true
    }

    open spec fn from_spec(r: CancelTimerResponse) -> Response {
        Response::CancelTimer(r)
    }
}

impl From<PauseTimerResponse> for Response {
    fn from(r: PauseTimerResponse) -> (out: Response)
        ensures
            out == Response::PauseTimer(r),
    {
        Response::PauseTimer(r)
    }
}

impl vstd::std_specs::convert::FromSpecImpl<PauseTimerResponse> for Response {
    open spec fn obeys_from_spec() -> bool {
        true
    }

    open spec fn from_spec(r: PauseTimerResponse) -> Response {
        Response::PauseTimer(r)
    }
}

impl From<ResumeTimerResponse> for Response {
    fn from(r: ResumeTimerResponse) -> (out: Response)
        ensures
            out == Response::ResumeTimer(r),
    {
        Response::ResumeTimer(r)
    }
}

impl vstd::std_specs::convert::FromSpecImpl<ResumeTimerResponse> for Response {
    open spec fn obeys_from_spec() -> bool {
        true
    }

    open spec fn from_spec(r: ResumeTimerResponse) -> Response {
        Response::ResumeTimer(r)
    }
}

} // verus!
