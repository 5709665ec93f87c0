use std::time::Duration;

use sand::audio::Sound;
use sand::client::{add_timer_command, parse_timer_id};
use sand::ctx::{Countdown, DaemonCtx};
use sand::dispatch::{accepts_command, handle_command, Effect};
use sand::message::{
    AddTimerResponse, CancelTimerResponse, Command, ListResponse, PauseTimerResponse, Response,
    ResumeTimerResponse,
};
use sand::paths::{sound_path_in, usrshare_sound_path, xdg_sound_path_in};
use sand::timer::{Timer, TimerId, TimerInfoForClient, TimerStateForClient};
use sand::timers::Timers;

fn listing(ctx: &mut DaemonCtx, now: u64) -> Vec<TimerInfoForClient> {
    match handle_command(Command::List, ctx, now).0 {
        Response::List(ListResponse::Success { timers }) => timers,
        _ => panic!("a listing was expected"),
    }
}

#[test]
fn ids_start_at_one_and_increase() {
    let mut ctx = DaemonCtx::new(None);
    let (a, _) = ctx.add_timer(0, 1000);
    let (b, _) = ctx.add_timer(0, 1000);
    let _ = ctx.cancel_timer(a);
    let (c, _) = ctx.add_timer(5, 10);
    assert_eq!((a, b, c), (TimerId(1), TimerId(2), TimerId(3)));
    assert_eq!(ctx.new_timer_id(), TimerId(4));
    assert_eq!(TimerId::default(), TimerId(1));
    assert_eq!(TimerId(7).next(), TimerId(8));
    assert_eq!(TimerId(42).to_string(), "#42");
}

#[test]
fn add_then_list_shows_one_entry() {
    let mut ctx = DaemonCtx::new(None);
    let (resp, effect) = handle_command(Command::AddTimer { duration: 5000 }, &mut ctx, 100);
    assert_eq!(resp, Response::AddTimer(AddTimerResponse::Success { id: TimerId(1) }));
    assert_eq!(
        effect,
        Some(Effect::Start(Countdown { timer: TimerId(1), number: 0, delay_millis: 5000 }))
    );
    let timers = listing(&mut ctx, 1100);
    assert_eq!(
        timers,
        vec![TimerInfoForClient { id: TimerId(1), state: TimerStateForClient::Running, remaining_millis: 4000 }]
    );
}

#[test]
fn zero_duration_timer_listed_once_then_expired() {
    let mut ctx = DaemonCtx::new(None);
    let (resp, effect) = handle_command(Command::AddTimer { duration: 0 }, &mut ctx, 50);
    assert_eq!(resp, Response::AddTimer(AddTimerResponse::Success { id: TimerId(1) }));
    let timers = listing(&mut ctx, 50);
    assert_eq!(timers.iter().filter(|t| t.id == TimerId(1)).count(), 1);
    assert_eq!(timers[0].remaining_millis, 0);
    let countdown = match effect {
        Some(Effect::Start(c)) => c,
        _ => panic!("a countdown was expected"),
    };
    assert!(ctx.expire(countdown));
    assert!(listing(&mut ctx, 51).is_empty());
    assert!(!ctx.expire(countdown));
}

#[test]
fn pause_then_resume_keeps_remaining() {
    let mut ctx = DaemonCtx::new(None);
    let (id, first) = ctx.add_timer(0, 10_000);
    let (resp, stop) = ctx.pause_timer(id, 4_000);
    assert_eq!(resp, PauseTimerResponse::Success);
    assert_eq!(stop, Some(first.number));
    assert_eq!(listing(&mut ctx, 9_000)[0].remaining_millis, 6_000);
    assert_eq!(listing(&mut ctx, 9_000)[0].state, TimerStateForClient::Paused);
    let (resp, start) = ctx.resume_timer(id, 20_000);
    assert_eq!(resp, ResumeTimerResponse::Success);
    let second = start.unwrap();
    assert_eq!(second.delay_millis, 6_000);
    assert_ne!(second.number, first.number);
    assert_eq!(listing(&mut ctx, 20_000)[0].remaining_millis, 6_000);
    assert_eq!(listing(&mut ctx, 21_000)[0].remaining_millis, 5_000);
    // the countdown that the pause stopped no longer owns the timer
    assert!(!ctx.expire(first));
    assert_eq!(listing(&mut ctx, 21_000).len(), 1);
    assert!(ctx.expire(second));
}

#[test]
fn pause_of_paused_timer_changes_nothing() {
    let mut ctx = DaemonCtx::new(None);
    let (id, _) = ctx.add_timer(0, 10_000);
    let _ = ctx.pause_timer(id, 1_000);
    let (resp, stop) = ctx.pause_timer(id, 5_000);
    assert_eq!(resp, PauseTimerResponse::AlreadyPaused);
    assert_eq!(stop, None);
    assert_eq!(listing(&mut ctx, 8_000)[0].remaining_millis, 9_000);
}

#[test]
fn resume_of_running_timer_is_refused() {
    let mut ctx = DaemonCtx::new(None);
    let (id, _) = ctx.add_timer(0, 10_000);
    let (resp, effect) = handle_command(Command::ResumeTimer(id), &mut ctx, 10);
    assert_eq!(resp, Response::ResumeTimer(ResumeTimerResponse::AlreadyRunning));
    assert_eq!(effect, None);
}

#[test]
fn unknown_id_is_not_found() {
    let mut ctx = DaemonCtx::new(None);
    let _ = ctx.add_timer(0, 10_000);
    let before = listing(&mut ctx, 0);
    let unknown = TimerId(9);
    assert_eq!(
        handle_command(Command::CancelTimer(unknown), &mut ctx, 0),
        (Response::CancelTimer(CancelTimerResponse::TimerNotFound), None)
    );
    assert_eq!(
        handle_command(Command::PauseTimer(unknown), &mut ctx, 0),
        (Response::PauseTimer(PauseTimerResponse::TimerNotFound), None)
    );
    assert_eq!(
        handle_command(Command::ResumeTimer(unknown), &mut ctx, 0),
        (Response::ResumeTimer(ResumeTimerResponse::TimerNotFound), None)
    );
    assert_eq!(listing(&mut ctx, 0), before);
}

#[test]
fn cancel_stops_running_countdown() {
    let mut ctx = DaemonCtx::new(None);
    let (id, c) = ctx.add_timer(0, 10_000);
    assert_eq!(
        handle_command(Command::CancelTimer(id), &mut ctx, 3),
        (Response::CancelTimer(CancelTimerResponse::Success), Some(Effect::Stop(c.number)))
    );
    assert!(!ctx.expire(c));
    let (id2, _) = ctx.add_timer(0, 10_000);
    let _ = ctx.pause_timer(id2, 1);
    assert_eq!(ctx.cancel_timer(id2), (CancelTimerResponse::Success, None));
    assert!(listing(&mut ctx, 5).is_empty());
}

#[test]
fn many_additions_are_all_listed() {
    let mut ctx = DaemonCtx::new(None);
    let mut ids = Vec::new();
    for i in 0..20u64 {
        let (id, _) = ctx.add_timer(i, 60_000);
        ids.push(id);
    }
    let listed = listing(&mut ctx, 30);
    assert_eq!(listed.len(), 20);
    for id in &ids {
        assert_eq!(listed.iter().filter(|t| t.id == *id).count(), 1);
    }
    for w in ids.windows(2) {
        assert!(w[0].0 < w[1].0);
    }
}

#[test]
fn capacity_checks() {
    let mut ctx = DaemonCtx::new(None);
    assert!(ctx.can_add_timer(10, u64::MAX - 10));
    assert!(!ctx.can_add_timer(11, u64::MAX - 10));
    assert!(!accepts_command(&ctx, &Command::AddTimer { duration: u64::MAX }, 1));
    let (id, _) = ctx.add_timer(0, u64::MAX - 5);
    let _ = ctx.pause_timer(id, 0);
    assert!(ctx.can_resume_timer(id, 5));
    assert!(!ctx.can_resume_timer(id, 6));
    assert!(accepts_command(&ctx, &Command::List, u64::MAX));
}

#[test]
fn registry_operations() {
    let mut timers = Timers::new();
    timers.add(TimerId(3), Timer::Paused { remaining: 7 });
    assert_eq!(timers.get(TimerId(3)), Some(Timer::Paused { remaining: 7 }));
    timers.replace(TimerId(3), Timer::Running { due: 9, countdown: 1 });
    assert_eq!(timers.get(TimerId(3)), Some(Timer::Running { due: 9, countdown: 1 }));
    assert_eq!(timers.get_timerinfo_for_client(4).len(), 1);
    assert_eq!(timers.remove(TimerId(3)), Some(Timer::Running { due: 9, countdown: 1 }));
    assert_eq!(timers.remove(TimerId(3)), None);
    assert_eq!(timers.get(TimerId(3)), None);
    assert!(Timers::default().get_timerinfo_for_client(0).is_empty());
}

#[test]
fn info_of_timers() {
    let t = TimerInfoForClient::new(TimerId(2), &Timer::Running { due: 100, countdown: 0 }, 150);
    assert_eq!(t.remaining_millis, 0);
    assert_eq!(t.state, TimerStateForClient::Running);
    let p = TimerInfoForClient::new(TimerId(2), &Timer::Paused { remaining: 30 }, 150);
    assert_eq!(p.remaining_millis, 30);
    assert_eq!(p.state, TimerStateForClient::Paused);
}

#[test]
fn sound_keeps_its_bytes() {
    let ctx = DaemonCtx::new(Some(Sound::from_bytes(vec![1, 2, 3])));
    assert_eq!(ctx.elapsed_sound().map(|s| s.as_bytes().to_vec()), Some(vec![1, 2, 3]));
    assert!(DaemonCtx::new(None).elapsed_sound().is_none());
}

#[test]
fn sound_paths() {
    assert_eq!(
        xdg_sound_path_in(Some("/home/u/.local/share".to_string())),
        Some("/home/u/.local/share/sand/timer_sound.opus".to_string())
    );
    assert_eq!(xdg_sound_path_in(None), None);
    assert_eq!(usrshare_sound_path(), Some("/usr/share/sand/timer_sound.opus".to_string()));
    assert_eq!(sound_path_in(None), Some("/usr/share/sand/timer_sound.opus".to_string()));
    assert_eq!(
        sound_path_in(Some("/d".to_string())),
        Some("/d/sand/timer_sound.opus".to_string())
    );
}

#[test]
fn start_request_sums_components() {
    assert_eq!(
        add_timer_command(&[Duration::from_secs(60), Duration::from_millis(1500)]),
        Some(Command::AddTimer { duration: 61_500 })
    );
    assert_eq!(add_timer_command(&[Duration::from_secs(u64::MAX), Duration::from_secs(1)]), None);
    assert_eq!(add_timer_command(&[Duration::from_secs(u64::MAX)]), None);
}

#[test]
fn response_conversions() {
    assert_eq!(
        Response::from(ListResponse::ok(vec![])),
        Response::List(ListResponse::Success { timers: vec![] })
    );
    assert_eq!(
        Response::from(AddTimerResponse::ok(TimerId(5))),
        Response::AddTimer(AddTimerResponse::Success { id: TimerId(5) })
    );
}

#[test]
fn timer_ids_as_users_write_them() {
    assert_eq!(parse_timer_id("3"), Some(TimerId(3)));
    assert_eq!(parse_timer_id("#12"), Some(TimerId(12)));
    assert_eq!(parse_timer_id("#"), None);
    assert_eq!(parse_timer_id(""), None);
    assert_eq!(parse_timer_id("3a"), None);
    assert_eq!(parse_timer_id("##3"), None);
    assert_eq!(parse_timer_id("18446744073709551616"), None);
}
