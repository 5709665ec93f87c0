use vstd::prelude::*;

use crate::audio::Sound;
use crate::message::{CancelTimerResponse, PauseTimerResponse, ResumeTimerResponse};
use crate::timer::{remaining_at, Timer, TimerId, TimerInfoForClient};
use crate::timers::{is_snapshot, Timers};

verus! {

/// A countdown for the daemon to run: once `delay_millis` have passed, it is
/// handed back to [`DaemonCtx::expire`], which decides whether it still counts.
#[derive(PartialEq, Eq, Debug, Clone, Copy, Structural)]
pub struct Countdown {
    pub timer: TimerId,
    pub number: u64,
    pub delay_millis: u64,
}

/// What a daemon's state amounts to: the next identifier to issue, the next
/// countdown number to issue, and the live timers.
pub struct CtxModel {
    pub next_id: u64,
    pub next_countdown: u64,
    pub timers: Map<u64, Timer>,
}

/// Every live timer carries an identifier that was issued already, and every
/// running timer a countdown number that was issued already.
pub open spec fn model_wf(m: CtxModel) -> bool {
    &&& 1 <= m.next_id
    &&& forall|k: u64| #[trigger] m.timers.contains_key(k) ==> 1 <= k < m.next_id
    &&& forall|k: u64|
        #[trigger] m.timers.contains_key(k) && m.timers[k] is Running ==> m.timers[k]->countdown
            < m.next_countdown
}

pub open spec fn initial_model() -> CtxModel {
    CtxModel { next_id: 1, next_countdown: 0, timers: Map::empty() }
}

/// Whether a timer of `duration` milliseconds can be added at `now` without
/// running out of identifiers, countdown numbers or clock.
pub open spec fn can_add(m: CtxModel, now: u64, duration: u64) -> bool {
    m.next_id < u64::MAX && m.next_countdown < u64::MAX && now + duration <= u64::MAX
}

/// Whether timer `id` can be resumed at `now` without running out of
/// countdown numbers or clock.
pub open spec fn can_resume(m: CtxModel, id: u64, now: u64) -> bool {
    m.next_countdown < u64::MAX && (m.timers.contains_key(id) && m.timers[id] is Paused
        ==> now + m.timers[id]->remaining <= u64::MAX)
}

/// Adding a timer: it runs until `now + duration` under the next identifier,
/// counted down by the next countdown.
pub open spec fn add_model(m: CtxModel, now: u64, duration: u64) -> (CtxModel, TimerId, Countdown) {
    let id = TimerId(m.next_id);
    let c = Countdown { timer: id, number: m.next_countdown, delay_millis: duration };
    let t = Timer::Running { due: (now + duration) as u64, countdown: m.next_countdown };
    (
        CtxModel {
            next_id: (m.next_id + 1) as u64,
            next_countdown: (m.next_countdown + 1) as u64,
            timers: m.timers.insert(id.0, t),
        },
        id,
        c,
    )
}

/// Pausing a timer: a running one keeps what it had left at `now`, and its
/// countdown (the number returned) stops counting.
pub open spec fn pause_model(m: CtxModel, id: u64, now: u64) -> (CtxModel, PauseTimerResponse, Option<u64>) {
    match m.timers.get(id) {
        None => (m, PauseTimerResponse::TimerNotFound, None),
        Some(Timer::Paused { .. }) => (m, PauseTimerResponse::AlreadyPaused, None),
        Some(Timer::Running { due, countdown }) => (
            CtxModel {
                next_id: m.next_id,
                next_countdown: m.next_countdown,
                timers: m.timers.insert(id, Timer::Paused { remaining: remaining_at(m.timers[id], now) }),
            },
            PauseTimerResponse::Success,
            Some(countdown),
        ),
    }
}

/// Resuming a timer: a paused one runs again until `now` plus what it had
/// left, counted down by a new countdown.
pub open spec fn resume_model(m: CtxModel, id: u64, now: u64) -> (CtxModel, ResumeTimerResponse, Option<Countdown>) {
    match m.timers.get(id) {
        None => (m, ResumeTimerResponse::TimerNotFound, None),
        Some(Timer::Running { .. }) => (m, ResumeTimerResponse::AlreadyRunning, None),
        Some(Timer::Paused { remaining }) => (
            CtxModel {
                next_id: m.next_id,
                next_countdown: (m.next_countdown + 1) as u64,
                timers: m.timers.insert(
                    id,
                    Timer::Running { due: (now + remaining) as u64, countdown: m.next_countdown },
                ),
            },
            ResumeTimerResponse::Success,
            Some(Countdown { timer: TimerId(id), number: m.next_countdown, delay_millis: remaining }),
        ),
    }
}

/// Cancelling a timer: it is gone, and its countdown, if it was running,
/// stops counting.
pub open spec fn cancel_model(m: CtxModel, id: u64) -> (CtxModel, CancelTimerResponse, Option<u64>) {
    match m.timers.get(id) {
        None => (m, CancelTimerResponse::TimerNotFound, None),
        Some(t) => (
            CtxModel { next_id: m.next_id, next_countdown: m.next_countdown, timers: m.timers.remove(id) },
            CancelTimerResponse::Success,
            match t {
                Timer::Running { countdown, .. } => Some(countdown),
                Timer::Paused { .. } => None,
            },
        ),
    }
}

/// Whether countdown `c` still owns its timer: the timer is live, running,
/// and counted down by `c`.
pub open spec fn owns(m: CtxModel, c: Countdown) -> bool {
    m.timers.contains_key(c.timer.0) && m.timers[c.timer.0] is Running && m.timers[c.timer.0]->countdown
        == c.number
}

/// A countdown running out: only one that still owns its timer expires it,
/// which removes the timer; any other has no effect.
pub open spec fn expire_model(m: CtxModel, c: Countdown) -> (CtxModel, bool) {
    if owns(m, c) {
        (
            CtxModel { next_id: m.next_id, next_countdown: m.next_countdown, timers: m.timers.remove(c.timer.0) },
            true,
        )
    } else {
        (m, false)
    }
}

/// The daemon's shared state: the identifier counter, the registry of
/// timers and the notification sound. All of it changes through the methods
/// below, one call at a time, so that every change to one timer is serialized.
pub struct DaemonCtx {
    next_id: TimerId,
    next_countdown: u64,
    timers: Timers,
    elapsed_sound: Option<Sound>,
}

impl View for DaemonCtx {
    type V = CtxModel;

    closed spec fn view(&self) -> CtxModel {
        CtxModel { next_id: self.next_id.0, next_countdown: self.next_countdown, timers: self.timers@ }
    }
}

impl DaemonCtx {
    pub open spec fn wf(&self) -> bool {
        model_wf(self@)
    }

    pub closed spec fn sound(&self) -> Option<Sound> {
        self.elapsed_sound
    }

    /// A daemon with no timers, whose first identifier is 1.
    pub fn new(elapsed_sound: Option<Sound>) -> (r: DaemonCtx)
        ensures
            r@ == initial_model(),
            r.wf(),
            r.sound() == elapsed_sound,
    {
        let r = DaemonCtx { next_id: TimerId::first(), next_countdown: 0, timers: Timers::new(), elapsed_sound };
        assert(r@.timers =~= Map::<u64, Timer>::empty());
        r
    }

    /// The sound to play when a timer expires, if one was loaded.
    pub fn elapsed_sound(&self) -> (r: Option<&Sound>)
        ensures
            r == match self.sound() {
                Some(s) => Some(&s),
                None => None::<&Sound>,
            },
    {
        match &self.elapsed_sound {
            Some(s) => Some(s),
            None => None,
        }
    }

    /// Whether a timer of `duration` milliseconds can be added at `now`.
    pub fn can_add_timer(&self, now: u64, duration: u64) -> (r: bool)
        ensures
            r == can_add(self@, now, duration),
    {
        self.next_id.0 < u64::MAX && self.next_countdown < u64::MAX && duration <= u64::MAX - now
    }

    /// Whether timer `id` can be resumed at `now`.
    pub fn can_resume_timer(&self, id: TimerId, now: u64) -> (r: bool)
        ensures
            r == can_resume(self@, id.0, now),
    {
        if self.next_countdown == u64::MAX {
            return false;
        }
        match self.timers.get(id) {
            Some(Timer::Paused { remaining }) => remaining <= u64::MAX - now,
            _ => true,
        }
    }

    /// Issues the next identifier.
    pub fn new_timer_id(&mut self) -> (r: TimerId)
        requires
            old(self).wf(),
            old(self)@.next_id < u64::MAX,
        ensures
            r.0 == old(self)@.next_id,
            final(self)@ == (CtxModel { next_id: (r.0 + 1) as u64, ..old(self)@ }),
            final(self).wf(),
            final(self).sound() == old(self).sound(),
    {
        let id = self.next_id;
        self.next_id = id.next();
        id
    }

    /// A snapshot of every live timer as of `now`.
    pub fn get_timerinfo_for_client(&self, now: u64) -> (r: Vec<TimerInfoForClient>)
        ensures
            is_snapshot(r@, self@.timers, now),
    {
        self.timers.get_timerinfo_for_client(now)
    }

    /// Adds a timer of `duration` milliseconds at `now`. The timer is in the
    /// registry before its countdown is handed out, so even a countdown of
    /// zero finds it there.
    pub fn add_timer(&mut self, now: u64, duration: u64) -> (r: (TimerId, Countdown))
        requires
            old(self).wf(),
            can_add(old(self)@, now, duration),
        ensures
            (final(self)@, r.0, r.1) == add_model(old(self)@, now, duration),
            final(self).wf(),
            final(self).sound() == old(self).sound(),
    {
        let id = self.new_timer_id();
        let number = self.next_countdown;
        self.next_countdown = number + 1;
        let due = now + duration;
        self.timers.add(id, Timer::Running { due, countdown: number });
        (id, Countdown { timer: id, number, delay_millis: duration })
    }

    /// Pauses timer `id` at `now`; returns the countdown that must stop.
    pub fn pause_timer(&mut self, id: TimerId, now: u64) -> (r: (PauseTimerResponse, Option<u64>))
        requires
            old(self).wf(),
        ensures
            (final(self)@, r.0, r.1) == pause_model(old(self)@, id.0, now),
            final(self).wf(),
            final(self).sound() == old(self).sound(),
    {
        match self.timers.get(id) {
            None => (PauseTimerResponse::TimerNotFound, None),
            Some(Timer::Paused { .. }) => (PauseTimerResponse::AlreadyPaused, None),
            Some(Timer::Running { due, countdown }) => {
                let remaining: u64 = if due > now {
                    due - now
                } else {
                    0
                };
                self.timers.replace(id, Timer::Paused { remaining });
                (PauseTimerResponse::Success, Some(countdown))
            },
        }
    }

    /// Resumes timer `id` at `now`; returns the countdown that must start.
    pub fn resume_timer(&mut self, id: TimerId, now: u64) -> (r: (ResumeTimerResponse, Option<Countdown>))
        requires
            old(self).wf(),
            can_resume(old(self)@, id.0, now),
        ensures
            (final(self)@, r.0, r.1) == resume_model(old(self)@, id.0, now),
            final(self).wf(),
            final(self).sound() == old(self).sound(),
    {
        match self.timers.get(id) {
            None => (ResumeTimerResponse::TimerNotFound, None),
            Some(Timer::Running { .. }) => (ResumeTimerResponse::AlreadyRunning, None),
            Some(Timer::Paused { remaining }) => {
                let number = self.next_countdown;
                self.next_countdown = number + 1;
                self.timers.replace(id, Timer::Running { due: now + remaining, countdown: number });
                (
                    ResumeTimerResponse::Success,
                    Some(Countdown { timer: id, number, delay_millis: remaining }),
                )
            },
        }
    }

    /// Cancels timer `id`; returns the countdown that must stop, if it ran.
    pub fn cancel_timer(&mut self, id: TimerId) -> (r: (CancelTimerResponse, Option<u64>))
        requires
            old(self).wf(),
        ensures
            (final(self)@, r.0, r.1) == cancel_model(old(self)@, id.0),
            final(self).wf(),
            final(self).sound() == old(self).sound(),
    {
        match self.timers.get(id) {
            None => (CancelTimerResponse::TimerNotFound, None),
            Some(t) => {
                let _ = self.timers.remove(id);
                match t {
                    Timer::Running { countdown, .. } => (CancelTimerResponse::Success, Some(countdown)),
                    Timer::Paused { .. } => (CancelTimerResponse::Success, None),
                }
            },
        }
    }

    /// Countdown `c` has run out. If it still owns its timer, the timer is
    /// removed and `true` tells the caller to notify and play the sound;
    /// otherwise the timer was paused, resumed or cancelled first, and
    /// nothing happens.
    pub fn expire(&mut self, c: Countdown) -> (fired: bool)
        requires
            old(self).wf(),
        ensures
            (final(self)@, fired) == expire_model(old(self)@, c),
            final(self).wf(),
            final(self).sound() == old(self).sound(),
    {
        match self.timers.get(c.timer) {
            Some(Timer::Running { countdown, .. }) => {
                if countdown == c.number {
                    self.timers.elapse(c.timer);
                    true
                } else {
                    false
                }
            },
            _ => false,
        }
    }
}

} // verus!
