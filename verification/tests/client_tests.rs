use ymessenger::goloom::{Ack, GoloomMessage, MessageKind, ProtoEmpty, StatusCode};
use ymessenger::goloom_client::{
    GoloomEvent, backoff_secs, close_code_reason, dispatch, nonzero_or, should_retry_close, GoloomParams,
    Handshake, Reconnector, SessionEnd, SessionStart, SessionTimers, HANDSHAKE_TIMEOUT_SECS,
};

#[test]
fn close_policy_matrix() {
    // Terminal: never retry.
    for code in [1000u16, 4000, 4002, 4003, 4004, 4005, 4007, 4009, 4010, 4011] {
        assert!(!should_retry_close(code), "code {code} must be terminal");
    }
    // Retryable: drops, restarts, moves, timeouts.
    for code in [1001u16, 1006, 1011, 1012, 1013, 4001, 4006, 4008, 4100, 4101, 4102, 4103, 4104] {
        assert!(should_retry_close(code), "code {code} must retry");
    }
}

#[test]
fn backoff_doubles_then_caps_at_30() {
    assert_eq!(backoff_secs(0), 1);
    assert_eq!(backoff_secs(1), 2);
    assert_eq!(backoff_secs(4), 16);
    assert_eq!(backoff_secs(5), 30);
    assert_eq!(backoff_secs(40), 30);
}

#[test]
fn nonzero_or_keeps_nonzero() {
    assert_eq!(nonzero_or(0, 15), 15);
    assert_eq!(nonzero_or(7, 15), 7);
}

#[test]
fn close_without_frame_is_1006() {
    assert_eq!(close_code_reason(None), (1006, "no close frame (transport drop)".to_string()));
    assert_eq!(close_code_reason(Some((4009, "bye".into()))), (4009, "bye".to_string()));
}

#[test]
fn ping_is_acked_with_same_uid() {
    let out = dispatch(GoloomMessage { uid: "srv-ping-1".into(), kind: Some(MessageKind::Ping(ProtoEmpty {})) });
    let reply = out.reply.expect("ack");
    assert_eq!(reply.uid, "srv-ping-1");
    match reply.kind {
        Some(MessageKind::Ack(a)) => {
            let s = a.status.expect("status");
            assert_eq!(s.code, StatusCode::Success.to_i32());
        }
        _ => panic!("expected Ack"),
    }
    assert_eq!(out.events.len(), 1);
    match &out.events[0] {
        GoloomEvent::AckReceived { uid, code, description } => {
            assert_eq!(uid, "srv-ping-1");
            assert_eq!(*code, StatusCode::Success.to_i32());
            assert!(description.is_none());
        }
        other => panic!("expected AckReceived, got {other:?}"),
    }
}

#[test]
fn params_defaults() {
    let p = GoloomParams::new("room-1", "peer-1", "2.173.0");
    assert_eq!(p.ws_url, "wss://goloom.strm.yandex.net/join");
    assert!(p.send_audio && p.send_video && !p.send_sharing);
    assert_eq!(p.max_attempts, 10);
}

#[test]
fn reconnector_stops_on_terminal_close_and_retries_drops() {
    let mut r = Reconnector::new(3);
    match r.begin(false) {
        SessionStart::Run { prev_close_code, .. } => assert_eq!(prev_close_code, None),
        _ => panic!("first session must run"),
    }
    let o = r.finish(SessionEnd::ClosedByServer { code: 1006, reason: "drop".into() });
    assert!(!o.stop);
    assert_eq!(r.attempts, 1);
    assert_eq!(o.backoff_secs, 2);
    match r.begin(false) {
        SessionStart::Run { prev_close_code, .. } => assert_eq!(prev_close_code, Some(1006)),
        _ => panic!("second session must run"),
    }
    let o = r.finish(SessionEnd::ClosedByServer { code: 4009, reason: "kicked".into() });
    assert!(o.stop);
    assert_eq!(r.attempts, 1);
}

#[test]
fn reconnector_gives_up_after_budget() {
    let mut r = Reconnector::new(1);
    let o = r.finish(SessionEnd::Transport("reset".into()));
    assert!(!o.stop);
    match r.begin(false) {
        SessionStart::Stop { events } => assert_eq!(events.len(), 2),
        _ => panic!("budget used up"),
    }
    match r.begin(true) {
        SessionStart::Stop { events } => assert_eq!(events.len(), 1),
        _ => panic!("shutdown stops"),
    }
}

#[test]
fn session_timers_drive_pings_and_timeouts() {
    let mut t = SessionTimers::new(1_000);
    assert_eq!(HANDSHAKE_TIMEOUT_SECS, 15);
    assert!(t.on_ping_tick(2_000).is_none());
    assert_eq!(t.expired(15_999), None);
    assert_eq!(t.clone().expired(16_000), Some(SessionEnd::HandshakeTimeout));
    t.on_handshake(&Handshake { session_secret: None, ping_interval_secs: 7, ack_timeout_secs: 3 });
    assert!(t.handshook && t.ping_interval_secs == 7 && t.ack_timeout_secs == 3);
    assert_eq!(t.expired(60_000), None);
    let ping = t.on_ping_tick(20_000).expect("ping");
    assert!(matches!(ping.kind, Some(MessageKind::Ping(_))));
    assert_eq!(t.pending_ping, Some((ping.uid.clone(), 20_000)));
    let other = GoloomMessage { uid: "other".into(), kind: Some(MessageKind::Ack(Ack { status: None })) };
    assert!(!t.on_frame(&other));
    assert_eq!(t.expired(22_999), None);
    let mut late = t.clone();
    assert_eq!(late.expired(23_000), Some(SessionEnd::PingTimeout));
    assert_eq!(late.pending_ping, None);
    let ack = GoloomMessage { uid: ping.uid.clone(), kind: Some(MessageKind::Ack(Ack { status: None })) };
    assert!(t.on_frame(&ack));
    assert_eq!(t.pending_ping, None);
    assert_eq!(t.expired(99_000), None);
}
