use vstd::prelude::*;
use vstd::string::StringExecFns;

use crate::duration::{decimal, decimal_padded};

verus! {

/// Identifier of a timer: issued from 1 upwards and never reused.
#[derive(PartialEq, Eq, Hash, Debug, Clone, Copy, Structural)]
pub struct TimerId(pub u64);

impl TimerId {
    /// The first identifier that a daemon issues.
    pub fn first() -> (r: TimerId)
        ensures
            r.0 == 1,
    {
        TimerId(1)
    }

    /// The identifier that follows this one.
    pub fn next(self) -> (r: TimerId)
        requires
            self.0 < u64::MAX,
        ensures
            r.0 == self.0 + 1,
    {
        TimerId(self.0 + 1)
    }
}

impl TimerId {
    /// `#` followed by the number, as users see it.
    pub fn to_string(&self) -> (r: String)
        ensures
            r@ == "#"@ + decimal(self.0 as nat),
    {
        "#".to_owned().concat(decimal_padded(self.0, 0).as_str())
    }
}

impl Default for TimerId {
    fn default() -> (r: TimerId)
        ensures
            r.0 == 1,
    {
        TimerId::first()
    }
}

/// The state of one timer, as the registry holds it.
///
/// Times are milliseconds on the daemon's monotonic clock. A running timer
/// names the countdown that may expire it: once the timer is paused, resumed
/// or cancelled, that countdown no longer matches and can have no effect.
#[derive(PartialEq, Eq, Debug, Clone, Copy, Structural)]
pub enum Timer {
    Paused { remaining: u64 },
    Running { due: u64, countdown: u64 },
}

/// The state of a timer as a client sees it.
#[derive(PartialEq, Eq, Debug, Clone, Copy, Structural)]
pub enum TimerStateForClient {
    Paused,
    Running,
}

/// A snapshot of one timer, computed at the moment it is asked for.
#[derive(PartialEq, Eq, Debug, Clone, Copy, Structural)]
pub struct TimerInfoForClient {
    pub id: TimerId,
    pub state: TimerStateForClient,
    pub remaining_millis: u64,
}

/// Milliseconds left on a timer at `now`: the stored remainder of a paused
/// timer, or the time until the due instant of a running one (zero once it
/// has passed).
pub open spec fn remaining_at(t: Timer, now: u64) -> u64 {
    match t {
        Timer::Paused { remaining } => remaining,
        Timer::Running { due, .. } => if due > now {
            (due - now) as u64
        } else {
            0
        },
    }
}

pub open spec fn client_state(t: Timer) -> TimerStateForClient {
    match t {
        Timer::Paused { .. } => TimerStateForClient::Paused,
        Timer::Running { .. } => TimerStateForClient::Running,
    }
}

/// What a client is told about timer `id` in state `t` at `now`.
pub open spec fn info_of(id: u64, t: Timer, now: u64) -> TimerInfoForClient {
    TimerInfoForClient { id: TimerId(id), state: client_state(t), remaining_millis: remaining_at(t, now) }
}

impl TimerInfoForClient {
    pub fn new(id: TimerId, timer: &Timer, now: u64) -> (r: TimerInfoForClient)
        ensures
            r == info_of(id.0, *timer, now),
    {
        let (state, remaining_millis) = match timer {
            Timer::Paused { remaining } => (TimerStateForClient::Paused, *remaining),
            Timer::Running { due, .. } => {
                let left: u64 = if *due > now {
                    *due - now
                } else {
                    0
                };
                (TimerStateForClient::Running, left)
            },
        };
        TimerInfoForClient { id, state, remaining_millis }
    }
}

} // verus!
