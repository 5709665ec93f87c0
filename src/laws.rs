use vstd::prelude::*;

use crate::ctx::{
    add_model, can_add, can_resume, cancel_model, expire_model, model_wf, owns, pause_model,
    resume_model, Countdown, CtxModel,
};
use crate::dispatch::accepts;
use crate::message::{CancelTimerResponse, Command, PauseTimerResponse, ResumeTimerResponse};
use crate::timer::remaining_at;
use crate::timers::is_snapshot;

verus! {

/// One thing that can happen to a daemon: a command at a given time, or a
/// countdown running out.
pub enum Step {
    Run(Command, u64),
    Expire(Countdown),
}

/// The state after one step.
pub open spec fn step_model(m: CtxModel, s: Step) -> CtxModel {
    match s {
        Step::Run(cmd, now) => match cmd {
            Command::List => m,
            Command::AddTimer { duration } => add_model(m, now, duration).0,
            Command::PauseTimer(id) => pause_model(m, id.0, now).0,
            Command::ResumeTimer(id) => resume_model(m, id.0, now).0,
            Command::CancelTimer(id) => cancel_model(m, id.0).0,
        },
        Step::Expire(c) => expire_model(m, c).0,
    }
}

/// Whether every step of `steps`, taken in order from `m`, can be carried out.
pub open spec fn run_ok(m: CtxModel, steps: Seq<Step>) -> bool
    decreases steps.len(),
{
    steps.len() > 0 ==> {
        &&& (steps[0] matches Step::Run(cmd, now) ==> accepts(m, cmd, now))
        &&& run_ok(step_model(m, steps[0]), steps.drop_first())
    }
}

/// The state after all of `steps`, taken in order from `m`.
pub open spec fn run_model(m: CtxModel, steps: Seq<Step>) -> CtxModel
    decreases steps.len(),
{
    if steps.len() == 0 {
        m
    } else {
        run_model(step_model(m, steps[0]), steps.drop_first())
    }
}

/// The identifiers that the additions among `steps` issue, in order.
pub open spec fn issued(m: CtxModel, steps: Seq<Step>) -> Seq<u64>
    decreases steps.len(),
{
    if steps.len() == 0 {
        Seq::empty()
    } else {
        let rest = issued(step_model(m, steps[0]), steps.drop_first());
        match steps[0] {
            Step::Run(Command::AddTimer { .. }, _) => seq![m.next_id] + rest,
            _ => rest,
        }
    }
}

proof fn lemma_issued_bounds(m: CtxModel, steps: Seq<Step>)
    requires
        run_ok(m, steps),
    ensures
        m.next_id <= run_model(m, steps).next_id,
        forall|i: int|
            0 <= i < issued(m, steps).len() ==> m.next_id <= #[trigger] issued(m, steps)[i] < run_model(
                m,
                steps,
            ).next_id,
        forall|i: int, j: int|
            0 <= i < j < issued(m, steps).len() ==> issued(m, steps)[i] < issued(m, steps)[j],
    decreases steps.len(),
{
    if steps.len() > 0 {
        let m1 = step_model(m, steps[0]);
        let rest = steps.drop_first();
        lemma_issued_bounds(m1, rest);
        let all = issued(m, steps);
        let tail = issued(m1, rest);
        assert(run_model(m, steps) == run_model(m1, rest));
        if steps[0] matches Step::Run(Command::AddTimer { .. }, _) {
            assert(m1.next_id == m.next_id + 1);
            assert(all == seq![m.next_id] + tail);
            assert forall|i: int| 0 <= i < all.len() implies m.next_id <= #[trigger] all[i] < run_model(
                m,
                steps,
            ).next_id by {
                if i > 0 {
                    assert(all[i] == tail[i - 1]);
                }
            }
            assert forall|i: int, j: int| 0 <= i < j < all.len() implies all[i] < all[j] by {
                assert(all[j] == tail[j - 1]);
                if i > 0 {
                    assert(all[i] == tail[i - 1]);
                }
            }
        } else {
            assert(m.next_id <= m1.next_id);
            assert(all == tail);
        }
    }
}

/// Identifiers issued by additions are strictly increasing, and so pairwise
/// distinct, whatever other commands and expiries come between them; none
/// of them belongs to a timer that was live before.
pub proof fn law_issued_ids_increase(m: CtxModel, steps: Seq<Step>)
    requires
        model_wf(m),
        run_ok(m, steps),
    ensures
        forall|i: int, j: int|
            0 <= i < j < issued(m, steps).len() ==> issued(m, steps)[i] < issued(m, steps)[j],
        forall|i: int|
            0 <= i < issued(m, steps).len() ==> !m.timers.contains_key(#[trigger] issued(m, steps)[i]),
{
    lemma_issued_bounds(m, steps);
}

/// Right after an addition of `duration` at `now` has returned identifier
/// `X`, a listing at any later time holds exactly one entry for `X`, with no
/// more than `duration` left; once its own countdown has expired it, a
/// listing holds none.
pub proof fn law_listing_after_add(
    m: CtxModel,
    now: u64,
    duration: u64,
    later: u64,
    s: Seq<crate::timer::TimerInfoForClient>,
    s2: Seq<crate::timer::TimerInfoForClient>,
)
    requires
        model_wf(m),
        can_add(m, now, duration),
        now <= later,
        is_snapshot(s, add_model(m, now, duration).0.timers, later),
        is_snapshot(
            s2,
            expire_model(add_model(m, now, duration).0, add_model(m, now, duration).2).0.timers,
            later,
        ),
    ensures
        exists|i: int|
            0 <= i < s.len() && #[trigger] s[i].id == add_model(m, now, duration).1 && s[i].remaining_millis
                <= duration,
        forall|i: int, j: int|
            0 <= i < s.len() && 0 <= j < s.len() && s[i].id == add_model(m, now, duration).1 && s[j].id
                == add_model(m, now, duration).1 ==> i == j,
        forall|i: int| 0 <= i < s2.len() ==> #[trigger] s2[i].id != add_model(m, now, duration).1,
{
    let (m1, id, c) = add_model(m, now, duration);
    assert(m1.timers.contains_key(id.0));
    let i = choose|i: int| 0 <= i < s.len() && #[trigger] s[i].id.0 == id.0;
    assert(s[i].id == id);
    assert(expire_model(m1, c).1);
    assert forall|i: int| 0 <= i < s2.len() implies #[trigger] s2[i].id != id by {
        assert(expire_model(m1, c).0.timers.contains_key(s2[i].id.0));
    }
}

/// Pausing a running timer and resuming it later leaves it running with the
/// time it had left when it was paused, and from then on it never has more.
pub proof fn law_pause_then_resume(m: CtxModel, id: u64, t1: u64, t2: u64, t3: u64)
    requires
        model_wf(m),
        m.timers.contains_key(id),
        m.timers[id] is Running,
        t1 <= t2 <= t3,
        can_resume(pause_model(m, id, t1).0, id, t2),
    ensures
        pause_model(m, id, t1).1 == PauseTimerResponse::Success,
        resume_model(pause_model(m, id, t1).0, id, t2).1 == ResumeTimerResponse::Success,
        resume_model(pause_model(m, id, t1).0, id, t2).0.timers[id] is Running,
        remaining_at(resume_model(pause_model(m, id, t1).0, id, t2).0.timers[id], t2) == remaining_at(
            m.timers[id],
            t1,
        ),
        remaining_at(resume_model(pause_model(m, id, t1).0, id, t2).0.timers[id], t3) <= remaining_at(
            m.timers[id],
            t1,
        ),
{
}

/// Pausing a paused timer answers `AlreadyPaused` and changes nothing, its
/// remaining time included.
pub proof fn law_pause_paused(m: CtxModel, id: u64, now: u64)
    requires
        m.timers.contains_key(id),
        m.timers[id] is Paused,
    ensures
        pause_model(m, id, now) == (m, PauseTimerResponse::AlreadyPaused, None::<u64>),
{
}

/// Cancelling, pausing or resuming an unknown identifier answers "not
/// found" and changes nothing.
pub proof fn law_unknown_id(m: CtxModel, id: u64, now: u64)
    requires
        !m.timers.contains_key(id),
    ensures
        cancel_model(m, id) == (m, CancelTimerResponse::TimerNotFound, None::<u64>),
        pause_model(m, id, now) == (m, PauseTimerResponse::TimerNotFound, None::<u64>),
        resume_model(m, id, now) == (m, ResumeTimerResponse::TimerNotFound, None::<Countdown>),
{
}

/// Whether listing `s` has an entry for timer `id`.
pub open spec fn listed(s: Seq<crate::timer::TimerInfoForClient>, id: u64) -> bool {
    exists|k: int| 0 <= k < s.len() && #[trigger] s[k].id.0 == id
}

/// Whether every step of `steps` is an addition.
pub open spec fn all_adds(steps: Seq<Step>) -> bool {
    forall|i: int| 0 <= i < steps.len() ==> #[trigger] steps[i] matches Step::Run(Command::AddTimer { .. }, _)
}

proof fn lemma_adds_stay(m: CtxModel, steps: Seq<Step>)
    requires
        run_ok(m, steps),
        all_adds(steps),
    ensures
        issued(m, steps).len() == steps.len(),
        forall|k: u64| m.timers.contains_key(k) ==> run_model(m, steps).timers.contains_key(k),
        forall|i: int|
            0 <= i < issued(m, steps).len() ==> run_model(m, steps).timers.contains_key(
                #[trigger] issued(m, steps)[i],
            ),
    decreases steps.len(),
{
    if steps.len() > 0 {
        let m1 = step_model(m, steps[0]);
        let rest = steps.drop_first();
        assert(steps[0] matches Step::Run(Command::AddTimer { .. }, _));
        assert(all_adds(rest)) by {
            assert forall|i: int| 0 <= i < rest.len() implies #[trigger] rest[i] matches Step::Run(
                Command::AddTimer { .. },
                _,
            ) by {
                assert(rest[i] == steps[i + 1]);
            }
        }
        lemma_adds_stay(m1, rest);
        let all = issued(m, steps);
        let tail = issued(m1, rest);
        assert(all == seq![m.next_id] + tail);
        assert(m1.timers.contains_key(m.next_id));
        assert(run_model(m, steps) == run_model(m1, rest));
        assert forall|k: u64| m.timers.contains_key(k) implies run_model(m, steps).timers.contains_key(k) by {
            assert(m1.timers.contains_key(k));
        }
        assert forall|i: int| 0 <= i < all.len() implies run_model(m, steps).timers.contains_key(
            #[trigger] all[i],
        ) by {
            if i > 0 {
                assert(all[i] == tail[i - 1]);
            }
        }
    }
}

/// After `N` additions, however their times fall, the `N` identifiers are
/// distinct and a listing taken afterwards holds every one of them.
pub proof fn law_adds_all_listed(m: CtxModel, steps: Seq<Step>, now: u64, s: Seq<crate::timer::TimerInfoForClient>)
    requires
        model_wf(m),
        run_ok(m, steps),
        all_adds(steps),
        is_snapshot(s, run_model(m, steps).timers, now),
    ensures
        issued(m, steps).len() == steps.len(),
        forall|i: int, j: int|
            0 <= i < issued(m, steps).len() && 0 <= j < issued(m, steps).len() && i != j
                ==> issued(m, steps)[i] != issued(m, steps)[j],
        forall|i: int| 0 <= i < issued(m, steps).len() ==> listed(s, #[trigger] issued(m, steps)[i]),
{
    lemma_issued_bounds(m, steps);
    lemma_adds_stay(m, steps);
    let ids = issued(m, steps);
    assert forall|i: int, j: int| 0 <= i < ids.len() && 0 <= j < ids.len() && i != j implies ids[i]
        != ids[j] by {
        if i < j {
            assert(ids[i] < ids[j]);
        } else {
            assert(ids[j] < ids[i]);
        }
    }
    assert forall|i: int| 0 <= i < issued(m, steps).len() implies listed(s, #[trigger] issued(m, steps)[i]) by {
        let key = ids[i];
        assert(run_model(m, steps).timers.contains_key(key));
        let k = choose|k: int| 0 <= k < s.len() && #[trigger] s[k].id.0 == key;
        assert(s[k].id.0 == key);
    }
}

/// Countdown `c` does not own its timer, and never can again: its timer's
/// identifier and its own number have both been issued already.
pub open spec fn disowned(m: CtxModel, c: Countdown) -> bool {
    c.timer.0 < m.next_id && c.number < m.next_countdown && !owns(m, c)
}

proof fn lemma_disowned_run(m: CtxModel, c: Countdown, steps: Seq<Step>)
    requires
        disowned(m, c),
        run_ok(m, steps),
    ensures
        disowned(run_model(m, steps), c),
    decreases steps.len(),
{
    if steps.len() > 0 {
        let m1 = step_model(m, steps[0]);
        assert(disowned(m1, c));
        lemma_disowned_run(m1, c, steps.drop_first());
    }
}

/// Once a running timer is paused or cancelled, the countdown that it had
/// can never expire anything, whatever commands and expiries follow.
pub proof fn law_stopped_countdown_never_fires(
    m: CtxModel,
    c: Countdown,
    now: u64,
    after_pause: Seq<Step>,
    after_cancel: Seq<Step>,
)
    requires
        model_wf(m),
        owns(m, c),
        run_ok(pause_model(m, c.timer.0, now).0, after_pause),
        run_ok(cancel_model(m, c.timer.0).0, after_cancel),
    ensures
        !expire_model(run_model(pause_model(m, c.timer.0, now).0, after_pause), c).1,
        !expire_model(run_model(cancel_model(m, c.timer.0).0, after_cancel), c).1,
{
    lemma_disowned_run(pause_model(m, c.timer.0, now).0, c, after_pause);
    lemma_disowned_run(cancel_model(m, c.timer.0).0, c, after_cancel);
}

} // verus!
