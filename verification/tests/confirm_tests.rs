use channel_ops::confirm::{
    ConfirmationSession, ResponseEvent, ResponseToken, SessionState, CONFIRM_TIMEOUT_SECS,
};

const INVOKER: u64 = 11;
const ORIGIN: u64 = 22;
const T0: u64 = 1_000;

fn session() -> ConfirmationSession {
    ConfirmationSession::new(INVOKER, ORIGIN, T0, None)
}

fn event(user: u64, channel: u64, token: ResponseToken, at: u64) -> ResponseEvent {
    ResponseEvent { user, channel, token, at }
}

#[test]
fn a_new_session_awaits() {
    let s = session();
    assert_eq!(s.state, SessionState::Awaiting);
    assert_eq!(s.invoker, INVOKER);
    assert_eq!(s.origin, ORIGIN);
    assert_eq!(s.created_at, T0);
    assert_eq!(s.reason, None);
}

#[test]
fn matching_proceed_confirms() {
    let mut s = session();
    s.on_event(&event(INVOKER, ORIGIN, ResponseToken::Proceed, T0 + 5));
    assert_eq!(s.state, SessionState::Confirmed);
}

#[test]
fn matching_abort_cancels() {
    let mut s = session();
    s.on_event(&event(INVOKER, ORIGIN, ResponseToken::Abort, T0 + 5));
    assert_eq!(s.state, SessionState::Cancelled);
}

#[test]
fn wrong_user_is_ignored() {
    let mut s = session();
    s.on_event(&event(INVOKER + 1, ORIGIN, ResponseToken::Proceed, T0 + 5));
    assert_eq!(s.state, SessionState::Awaiting);
}

#[test]
fn wrong_channel_is_ignored() {
    let mut s = session();
    s.on_event(&event(INVOKER, ORIGIN + 1, ResponseToken::Proceed, T0 + 5));
    assert_eq!(s.state, SessionState::Awaiting);
}

#[test]
fn unrecognized_token_is_ignored() {
    let mut s = session();
    s.on_event(&event(INVOKER, ORIGIN, ResponseToken::Unrecognized, T0 + 5));
    assert_eq!(s.state, SessionState::Awaiting);
}

#[test]
fn a_second_matching_event_cannot_retrigger() {
    let mut s = session();
    s.on_event(&event(INVOKER, ORIGIN, ResponseToken::Abort, T0 + 5));
    assert_eq!(s.state, SessionState::Cancelled);
    s.on_event(&event(INVOKER, ORIGIN, ResponseToken::Proceed, T0 + 6));
    assert_eq!(s.state, SessionState::Cancelled);
}

#[test]
fn an_event_at_the_deadline_expires_the_session() {
    let mut s = session();
    s.on_event(&event(INVOKER, ORIGIN, ResponseToken::Proceed, T0 + CONFIRM_TIMEOUT_SECS));
    assert_eq!(s.state, SessionState::Expired);
}

#[test]
fn timeout_before_the_deadline_changes_nothing() {
    let mut s = session();
    s.on_timeout(T0 + CONFIRM_TIMEOUT_SECS - 1);
    assert_eq!(s.state, SessionState::Awaiting);
}

#[test]
fn timeout_at_the_deadline_expires() {
    let mut s = session();
    s.on_timeout(T0 + CONFIRM_TIMEOUT_SECS);
    assert_eq!(s.state, SessionState::Expired);
}

#[test]
fn first_matching_event_of_a_stream_decides() {
    let mut s = session();
    let events = vec![
        event(INVOKER + 9, ORIGIN, ResponseToken::Proceed, T0 + 1),
        event(INVOKER, ORIGIN + 9, ResponseToken::Abort, T0 + 2),
        event(INVOKER, ORIGIN, ResponseToken::Unrecognized, T0 + 3),
        event(INVOKER, ORIGIN, ResponseToken::Abort, T0 + 4),
        event(INVOKER, ORIGIN, ResponseToken::Proceed, T0 + 5),
    ];
    s.resolve_events(&events, T0 + CONFIRM_TIMEOUT_SECS);
    assert_eq!(s.state, SessionState::Cancelled);
}

#[test]
fn a_stream_with_no_matching_event_expires() {
    let mut s = session();
    let events = vec![
        event(INVOKER + 1, ORIGIN, ResponseToken::Proceed, T0 + 1),
        event(INVOKER, ORIGIN, ResponseToken::Unrecognized, T0 + 2),
    ];
    s.resolve_events(&events, T0 + CONFIRM_TIMEOUT_SECS);
    assert_eq!(s.state, SessionState::Expired);
}

#[test]
fn an_empty_stream_expires() {
    let mut s = session();
    s.resolve_events(&Vec::new(), T0 + CONFIRM_TIMEOUT_SECS);
    assert_eq!(s.state, SessionState::Expired);
}

#[test]
fn the_reason_rides_along_unchanged() {
    let mut s = ConfirmationSession::new(INVOKER, ORIGIN, T0, Some(String::from("spring clean")));
    s.resolve_events(
        &vec![event(INVOKER, ORIGIN, ResponseToken::Proceed, T0 + 3)],
        T0 + CONFIRM_TIMEOUT_SECS,
    );
    assert_eq!(s.state, SessionState::Confirmed);
    assert_eq!(s.reason, Some(String::from("spring clean")));
}
