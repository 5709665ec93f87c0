use vstd::prelude::*;

use crate::ctx::{
    add_model, can_add, can_resume, cancel_model, pause_model, resume_model, Countdown, CtxModel,
    DaemonCtx,
};
use crate::message::{AddTimerResponse, Command, ListResponse, Response};
use crate::timers::is_snapshot;

verus! {

/// What the daemon must do with countdowns after a command.
#[derive(PartialEq, Eq, Debug, Clone, Copy, Structural)]
pub enum Effect {
    /// Run this countdown.
    Start(Countdown),
    /// Stop the countdown of this number; it no longer owns its timer.
    Stop(u64),
}

/// Whether `cmd` can be carried out at `now` without running out of
/// identifiers, countdown numbers or clock.
pub open spec fn accepts(m: CtxModel, cmd: Command, now: u64) -> bool {
    match cmd {
        Command::AddTimer { duration } => can_add(m, now, duration),
        Command::ResumeTimer(id) => can_resume(m, id.0, now),
        _ => true,
    }
}

pub open spec fn stop_effect(n: Option<u64>) -> Option<Effect> {
    match n {
        Some(k) => Some(Effect::Stop(k)),
        None => None,
    }
}

pub open spec fn start_effect(c: Option<Countdown>) -> Option<Effect> {
    match c {
        Some(k) => Some(Effect::Start(k)),
        None => None,
    }
}

/// Carrying out `cmd` at `now` takes state `m` to `m2`, answers `resp` and
/// asks for `effect`.
pub open spec fn dispatched(
    m: CtxModel,
    cmd: Command,
    now: u64,
    m2: CtxModel,
    resp: Response,
    effect: Option<Effect>,
) -> bool {
    match cmd {
        Command::List => {
            &&& m2 == m
            &&& effect is None
            &&& resp matches Response::List(ListResponse::Success { timers }) && is_snapshot(
                timers@,
                m.timers,
                now,
            )
        },
        Command::AddTimer { duration } => {
            let (m3, id, c) = add_model(m, now, duration);
            &&& m2 == m3
            &&& resp == Response::AddTimer(AddTimerResponse::Success { id })
            &&& effect == Some(Effect::Start(c))
        },
        Command::PauseTimer(id) => {
            let (m3, r, stop) = pause_model(m, id.0, now);
            &&& m2 == m3
            &&& resp == Response::PauseTimer(r)
            &&& effect == stop_effect(stop)
        },
        Command::ResumeTimer(id) => {
            let (m3, r, start) = resume_model(m, id.0, now);
            &&& m2 == m3
            &&& resp == Response::ResumeTimer(r)
            &&& effect == start_effect(start)
        },
        Command::CancelTimer(id) => {
            let (m3, r, stop) = cancel_model(m, id.0);
            &&& m2 == m3
            &&& resp == Response::CancelTimer(r)
            &&& effect == stop_effect(stop)
        },
    }
}

/// Whether `cmd` can be carried out on `state` at `now`.
pub fn accepts_command(state: &DaemonCtx, cmd: &Command, now: u64) -> (r: bool)
    ensures
        r == accepts(state@, *cmd, now),
{
    match cmd {
        Command::AddTimer { duration } => state.can_add_timer(now, *duration),
        Command::ResumeTimer(id) => state.can_resume_timer(*id, now),
        _ => true,
    }
}

/// Carries out one command at `now` and returns the answer for the client,
/// with what must happen to countdowns.
pub fn handle_command(cmd: Command, state: &mut DaemonCtx, now: u64) -> (r: (Response, Option<Effect>))
    requires
        old(state).wf(),
        accepts(old(state)@, cmd, now),
    ensures
        dispatched(old(state)@, cmd, now, final(state)@, r.0, r.1),
        final(state).wf(),
        final(state).sound() == old(state).sound(),
{
    match cmd {
        Command::List => {
            let timers = state.get_timerinfo_for_client(now);
            (Response::from(ListResponse::ok(timers)), None)
        },
        Command::AddTimer { duration } => {
            let (id, c) = state.add_timer(now, duration);
            (Response::from(AddTimerResponse::ok(id)), Some(Effect::Start(c)))
        },
        Command::PauseTimer(id) => {
            let (r, stop) = state.pause_timer(id, now);
            let effect = match stop {
                Some(k) => Some(Effect::Stop(k)),
                None => None,
            };
            (Response::from(r), effect)
        },
        Command::ResumeTimer(id) => {
            let (r, start) = state.resume_timer(id, now);
            let effect = match start {
                Some(c) => Some(Effect::Start(c)),
                None => None,
            };
            (Response::from(r), effect)
        },
        Command::CancelTimer(id) => {
            let (r, stop) = state.cancel_timer(id);
            let effect = match stop {
                Some(k) => Some(Effect::Stop(k)),
                None => None,
            };
            (Response::from(r), effect)
        },
    }
}

} // verus!
