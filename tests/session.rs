use sand::ctx::DaemonCtx;
use sand::message::{Command, ListResponse, Response};
use sand::session::{session_step, SessionAction, SessionEvent, SessionState};
use sand::timer::TimerId;

#[test]
fn malformed_line_then_list_still_works() {
    let mut ctx = DaemonCtx::new(None);
    let (s, a) = session_step(
        SessionState::Reading,
        SessionEvent::Malformed("expected value at line 1 column 1".to_string()),
        &mut ctx,
        0,
    );
    assert_eq!(s, SessionState::Processing);
    assert_eq!(
        a,
        SessionAction::Send(
            Response::Error(
                "Error: failed to parse client message as Command: expected value at line 1 column 1"
                    .to_string()
            ),
            None
        )
    );
    let (s, a) = session_step(s, SessionEvent::Sent, &mut ctx, 0);
    assert_eq!((s, a), (SessionState::Reading, SessionAction::Wait));
    let (s, a) = session_step(s, SessionEvent::Line(Command::List), &mut ctx, 0);
    assert_eq!(s, SessionState::Processing);
    assert_eq!(a, SessionAction::Send(Response::List(ListResponse::Success { timers: vec![] }), None));
}

#[test]
fn add_then_list_on_one_connection() {
    let mut ctx = DaemonCtx::new(None);
    let (s, a) =
        session_step(SessionState::Reading, SessionEvent::Line(Command::AddTimer { duration: 0 }), &mut ctx, 7);
    match a {
        SessionAction::Send(Response::AddTimer(r), Some(_)) => {
            assert_eq!(r, sand::message::AddTimerResponse::Success { id: TimerId(1) })
        }
        other => panic!("unexpected {:?}", other),
    }
    let (s, _) = session_step(s, SessionEvent::Sent, &mut ctx, 7);
    let (_, a) = session_step(s, SessionEvent::Line(Command::List), &mut ctx, 7);
    match a {
        SessionAction::Send(Response::List(ListResponse::Success { timers }), None) => {
            assert!(timers.len() <= 1);
            assert!(timers.iter().all(|t| t.id == TimerId(1)));
        }
        other => panic!("unexpected {:?}", other),
    }
}

#[test]
fn hang_up_and_io_failure_close() {
    let mut ctx = DaemonCtx::new(None);
    assert_eq!(
        session_step(SessionState::Reading, SessionEvent::Disconnected, &mut ctx, 0),
        (SessionState::Closed, SessionAction::Close)
    );
    assert_eq!(
        session_step(SessionState::Processing, SessionEvent::IoFailed, &mut ctx, 0),
        (SessionState::Closed, SessionAction::Close)
    );
    assert_eq!(
        session_step(SessionState::Closed, SessionEvent::Line(Command::List), &mut ctx, 0),
        (SessionState::Closed, SessionAction::Wait)
    );
}
