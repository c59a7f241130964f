use wand_relay::session::{
    Action, CloseReason, Event, Frame, Phase, Session, COUNTER_PREFIX, PRODUCER_GONE,
};

fn open_session(now: u64) -> Session {
    let s = Session::new(5000, "im alive".to_string());
    let (s, _) = s.step(Event::Connected { status: 101, now });
    s
}

fn payload(data: &str, now: u64) -> Event {
    Event::Payload { data: data.to_string(), now }
}

fn send_payload(data: &str) -> Action {
    Action::Send(Frame::Payload(data.to_string()))
}

fn send_keepalive() -> Action {
    Action::Send(Frame::Keepalive("im alive".to_string()))
}

fn wait(timeout: u64, status: Option<&str>) -> Action {
    Action::Wait { timeout, status: status.map(|s| s.to_string()) }
}

#[test]
fn a_new_session_is_connecting() {
    let s = Session::new(5000, "im alive".to_string());
    assert_eq!(*s.phase(), Phase::Connecting);
    assert_eq!(s.sent(), 0);
    assert_eq!(s.pinger().interval(), 5000);
    assert_eq!(s.pinger().message(), "im alive");
    assert_eq!(COUNTER_PREFIX, "sent messages: ");
}

#[test]
fn accepted_handshake_starts_the_wait_and_shows_the_counter() {
    let s = Session::new(5000, "im alive".to_string());
    let (s, a) = s.step(Event::Connected { status: 200, now: 42 });
    assert_eq!(a, wait(5000, Some("\n\x1b[Fsent messages: 0")));
    assert_eq!(*s.phase(), Phase::Idle);
    assert_eq!(s.pinger().last_ping(), 42);
    assert_eq!(s.sent(), 0);
}

#[test]
fn informational_handshake_is_accepted_too() {
    let s = Session::new(5000, "im alive".to_string());
    let (s, a) = s.step(Event::Connected { status: 101, now: 0 });
    assert_eq!(a, wait(5000, Some("\n\x1b[Fsent messages: 0")));
    assert_eq!(*s.phase(), Phase::Idle);
}

#[test]
fn three_prompt_payloads_go_out_without_keepalives() {
    let mut s = open_session(0);
    let mut frames: Vec<Frame> = Vec::new();
    let mut clock: u64 = 100;
    for data in ["a", "b", "c"] {
        let (next, action) = s.step(payload(data, clock));
        match action {
            Action::Send(frame) => frames.push(frame),
            other => panic!("no frame for a payload: {other:?}"),
        }
        clock += 10;
        let (next, action) = next.step(Event::Sent { now: clock });
        assert!(matches!(action, Action::Wait { timeout: 5000, status: Some(_) }));
        clock += 300;
        s = next;
    }
    assert_eq!(
        frames,
        vec![
            Frame::Payload("a".to_string()),
            Frame::Payload("b".to_string()),
            Frame::Payload("c".to_string()),
        ]
    );
    assert_eq!(s.sent(), 3);
    assert_eq!(*s.phase(), Phase::Idle);
}

#[test]
fn twelve_silent_seconds_bring_two_keepalives() {
    let mut s = open_session(0);
    let mut frames: Vec<Frame> = Vec::new();
    let mut clock: u64 = 0;
    let mut timeout: u64 = 5000;
    while clock + timeout <= 12000 {
        clock += timeout;
        let (next, action) = s.step(Event::Timeout);
        match action {
            Action::Send(frame) => frames.push(frame),
            other => panic!("no keepalive after a silent interval: {other:?}"),
        }
        let (next, action) = next.step(Event::Sent { now: clock });
        match action {
            Action::Wait { timeout: t, status: None } => timeout = t,
            other => panic!("no wait after a keepalive: {other:?}"),
        }
        s = next;
    }
    assert_eq!(
        frames,
        vec![Frame::Keepalive("im alive".to_string()), Frame::Keepalive("im alive".to_string())]
    );
    assert_eq!(clock, 10000);
    assert_eq!(s.sent(), 0);
    assert_eq!(s.pinger().last_ping(), 10000);
}

#[test]
fn a_late_payload_follows_exactly_one_keepalive() {
    let s = open_session(1000);
    let (s, a) = s.step(payload("late", 6000));
    assert_eq!(a, send_keepalive());
    assert_eq!(*s.phase(), Phase::SendingKeepalive(Some("late".to_string())));
    let (s, a) = s.step(Event::Sent { now: 6001 });
    assert_eq!(a, send_payload("late"));
    assert_eq!(*s.phase(), Phase::SendingPayload);
    assert_eq!(s.pinger().last_ping(), 6001);
    assert_eq!(s.sent(), 0);
    let (s, a) = s.step(Event::Sent { now: 6002 });
    assert_eq!(a, wait(5000, Some("\x1b[Fsent messages: 1")));
    assert_eq!(s.pinger().last_ping(), 6002);
    assert_eq!(s.sent(), 1);
    let (_, a) = s.step(payload("prompt", 11001));
    assert_eq!(a, send_payload("prompt"));
}

#[test]
fn a_payload_just_before_the_interval_ends_goes_alone() {
    let s = open_session(1000);
    let (s, a) = s.step(payload("x", 5999));
    assert_eq!(a, send_payload("x"));
    assert_eq!(*s.phase(), Phase::SendingPayload);
}

#[test]
fn a_payload_sent_restarts_the_heartbeat() {
    let s = open_session(0);
    let (s, _) = s.step(payload("x", 4000));
    let (s, a) = s.step(Event::Sent { now: 4100 });
    assert_eq!(a, wait(5000, Some("\x1b[Fsent messages: 1")));
    let (s, a) = s.step(payload("y", 9000));
    assert_eq!(a, send_payload("y"));
    let (s, _) = s.step(Event::Sent { now: 9001 });
    let (_, a) = s.step(payload("z", 14001));
    assert_eq!(a, send_keepalive());
}

#[test]
fn a_keepalive_looks_the_same_whatever_the_payloads_hold() {
    let s = open_session(0);
    let (s, a) = s.step(payload("im alive", 10));
    assert_eq!(a, send_payload("im alive"));
    let (s, _) = s.step(Event::Sent { now: 11 });
    assert_eq!(s.sent(), 1);
    let (s, a) = s.step(Event::Timeout);
    assert_eq!(a, send_keepalive());
    let (s, _) = s.step(Event::Sent { now: 5011 });
    assert_eq!(s.sent(), 1);
}

#[test]
fn client_error_ends_the_session_with_a_hint() {
    let s = Session::new(5000, "im alive".to_string());
    let (s, a) = s.step(Event::Connected { status: 401, now: 0 });
    assert_eq!(
        a,
        Action::Finish {
            reason: CloseReason::NonRetryableServerResponse,
            message: "401 response from the server, bad token? Try to re-auth".to_string(),
        }
    );
    assert_eq!(*s.phase(), Phase::Closed(CloseReason::NonRetryableServerResponse));
}

#[test]
fn other_statuses_end_the_session_with_a_connection_error() {
    for (status, text) in [(503u16, "503"), (302u16, "302"), (99u16, "99"), (600u16, "600")] {
        let s = Session::new(5000, "im alive".to_string());
        let (s, a) = s.step(Event::Connected { status, now: 0 });
        assert_eq!(
            a,
            Action::Finish {
                reason: CloseReason::ConnectionError,
                message: format!("{text} response from the server, is it down?."),
            }
        );
        assert_eq!(*s.phase(), Phase::Closed(CloseReason::ConnectionError));
    }
}

#[test]
fn a_connection_that_cannot_be_made_is_a_connection_error() {
    let s = Session::new(5000, "im alive".to_string());
    let (s, a) = s.step(Event::ConnectFailed { error: "connection refused".to_string() });
    assert_eq!(
        a,
        Action::Finish {
            reason: CloseReason::ConnectionError,
            message: "connection refused".to_string(),
        }
    );
    assert_eq!(*s.phase(), Phase::Closed(CloseReason::ConnectionError));
}

#[test]
fn a_failed_write_is_a_connection_error() {
    let s = open_session(0);
    let (s, _) = s.step(payload("x", 1));
    let (s, a) = s.step(Event::SendFailed { error: "broken pipe".to_string() });
    assert_eq!(
        a,
        Action::Finish { reason: CloseReason::ConnectionError, message: "broken pipe".to_string() }
    );
    assert_eq!(*s.phase(), Phase::Closed(CloseReason::ConnectionError));
    assert_eq!(s.sent(), 0);

    let s = open_session(0);
    let (s, _) = s.step(Event::Timeout);
    let (s, a) = s.step(Event::SendFailed { error: "reset".to_string() });
    assert_eq!(
        a,
        Action::Finish { reason: CloseReason::ConnectionError, message: "reset".to_string() }
    );
    assert_eq!(*s.phase(), Phase::Closed(CloseReason::ConnectionError));
}

#[test]
fn a_closed_queue_ends_the_session() {
    let s = open_session(0);
    let (s, a) = s.step(Event::ProducerClosed);
    assert_eq!(PRODUCER_GONE, "inotify channel disconnected");
    assert_eq!(
        a,
        Action::Finish {
            reason: CloseReason::ProducerDisconnected,
            message: "inotify channel disconnected".to_string(),
        }
    );
    assert_eq!(*s.phase(), Phase::Closed(CloseReason::ProducerDisconnected));
}

#[test]
fn events_out_of_place_change_nothing() {
    let s = Session::new(5000, "im alive".to_string());
    let (s, a) = s.step(payload("early", 0));
    assert_eq!(a, Action::Ignored);
    let (s, a) = s.step(Event::Timeout);
    assert_eq!(a, Action::Ignored);
    let (s, a) = s.step(Event::Sent { now: 9 });
    assert_eq!(a, Action::Ignored);
    assert_eq!(s, Session::new(5000, "im alive".to_string()));

    let s = open_session(7);
    let (s, a) = s.step(Event::Sent { now: 9 });
    assert_eq!(a, Action::Ignored);
    let (s, a) = s.step(Event::Connected { status: 200, now: 9 });
    assert_eq!(a, Action::Ignored);
    assert_eq!(s, open_session(7));

    let (s, _) = s.step(payload("x", 8));
    let (s, a) = s.step(payload("y", 9));
    assert_eq!(a, Action::Ignored);
    let (s, a) = s.step(Event::ProducerClosed);
    assert_eq!(a, Action::Ignored);
    assert_eq!(*s.phase(), Phase::SendingPayload);
}

#[test]
fn a_closed_session_stays_closed() {
    let s = open_session(0);
    let (s, _) = s.step(Event::ProducerClosed);
    let (s, a) = s.step(payload("x", 1));
    assert_eq!(a, Action::Ignored);
    let (s, a) = s.step(Event::Connected { status: 200, now: 2 });
    assert_eq!(a, Action::Ignored);
    assert_eq!(*s.phase(), Phase::Closed(CloseReason::ProducerDisconnected));
}

#[test]
fn frame_text_is_what_goes_on_the_wire() {
    assert_eq!(Frame::Payload("{\"wands\":[]}".to_string()).text(), "{\"wands\":[]}");
    assert_eq!(Frame::Keepalive("im alive".to_string()).text(), "im alive");
}
