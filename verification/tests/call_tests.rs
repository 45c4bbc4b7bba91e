use ymessenger::goloom::{ParticipantDescription, WebrtcIceCandidate};
use ymessenger::goloom_call::{
    failure_event, signal_message, CallAction, CallCommand, CallCore, CallEvent, CallParams, CallState, EngineOp, SignalOp,
};
use ymessenger::goloom_client::{GoloomEvent, IceServerInfo};
use ymessenger::goloom_media::{EngineRole, MediaEvent, MediaKind, MediaTrack, PeerState};
use ymessenger::models::MeetingCall;

fn params() -> CallParams {
    CallParams::from_meeting(
        "m1",
        &MeetingCall { room_id: Some("room-1".into()), credentials: Some("cred".into()), participant_id: None },
        Some("Bob".into()),
        "2.173.0",
    )
}

fn connected() -> GoloomEvent {
    GoloomEvent::Connected {
        session_secret: "s".into(),
        ice_servers: vec![IceServerInfo { urls: vec!["stun:stun.test".into()], username: String::new(), credential: String::new() }],
        capabilities: None,
        ping_interval_secs: 60,
        ack_timeout_secs: 60,
    }
}

fn desc(id: &str) -> ParticipantDescription {
    ParticipantDescription {
        id: id.into(),
        participant_attributes: vec![("name".into(), id.to_uppercase())],
        send_audio: true,
        send_video: false,
        send_sharing: false,
        hide_from_participants_list: false,
        disconnected_at: None,
        network_score: 0,
        connection_type: 0,
        ref_participant_id: None,
    }
}

fn states(actions: &[CallAction]) -> Vec<CallState> {
    actions
        .iter()
        .filter_map(|a| match a {
            CallAction::Emit(CallEvent::State(s)) => Some(s.clone()),
            _ => None,
        })
        .collect()
}

#[test]
fn params_from_meeting() {
    let p = params();
    assert_eq!(p.room_id, "room-1");
    assert!(p.participant_id.starts_with("desktop-") && p.participant_id.len() == 16);
    assert_eq!(p.credentials.as_deref(), Some("cred"));
    let g = p.goloom_params();
    assert_eq!(g.room_id, "room-1");
    assert_eq!(g.ws_url, "wss://goloom.strm.yandex.net/join");
}

#[test]
fn call_flow_offer_answer_ice_and_roster() {
    let mut c = CallCore::new(&params());
    assert_eq!(states(&c.begin().actions), vec![CallState::Joining]);

    let s = c.on_signaling(Some(connected()));
    assert!(!s.exit);
    assert_eq!(s.actions.len(), 3);
    assert!(matches!(s.actions[2], CallAction::Engine(EngineRole::Publisher, EngineOp::Start)));
    let s = c.on_start_result(EngineRole::Publisher, Ok(()));
    assert!(matches!(s.actions[0], CallAction::Engine(EngineRole::Subscriber, EngineOp::Start)));
    let s = c.on_start_result(EngineRole::Subscriber, Ok(()));
    assert_eq!(states(&s.actions), vec![CallState::Joined]);

    let track = MediaTrack { mid: None, kind: MediaKind::Screen, label: "screen".into(), description: String::new() };
    let s = c.on_publish(Some(MediaEvent::LocalOffer { sdp: "v=0".into(), tracks: vec![track] }));
    match &s.actions[0] {
        CallAction::Signal(SignalOp::PublisherOffer { pc_seq, sdp, tracks }) => {
            assert_eq!(*pc_seq, 1);
            assert_eq!(sdp, "v=0");
            assert_eq!(tracks.len(), 1);
        }
        other => panic!("expected an offer, got {other:?}"),
    }

    let s = c.on_signaling(Some(GoloomEvent::SubscriberOffer { pc_seq: 7, sdp: "v=0\r\no=srv-off".into() }));
    assert!(matches!(&s.actions[0], CallAction::Engine(EngineRole::Subscriber, EngineOp::HandleRemoteOffer(o)) if o.starts_with("v=0")));
    let s = c.on_subscribe(Some(MediaEvent::LocalAnswer { sdp: "answer".into() }));
    assert!(matches!(&s.actions[0], CallAction::Signal(SignalOp::SubscriberAnswer { pc_seq: 7, .. })));
    let s = c.on_subscribe(Some(MediaEvent::LocalAnswer { sdp: "again".into() }));
    assert!(s.actions.is_empty());

    let s = c.on_subscribe(Some(MediaEvent::LocalIce { mline_index: 0, candidate: "cand".into() }));
    match &s.actions[0] {
        CallAction::Signal(SignalOp::Ice(WebrtcIceCandidate { target, sdp_mline_index, pc_seq, .. })) => {
            assert_eq!(*target, 2);
            assert_eq!(*sdp_mline_index, Some(0));
            assert_eq!(*pc_seq, 1);
        }
        other => panic!("expected ice, got {other:?}"),
    }

    let s = c.on_signaling(Some(GoloomEvent::RosterUpsert(vec![desc("b"), desc("a"), desc("b")])));
    match &s.actions[0] {
        CallAction::Emit(CallEvent::Roster(list)) => {
            let ids: Vec<&str> = list.iter().map(|p| p.id.as_str()).collect();
            assert_eq!(ids, vec!["a", "b"]);
        }
        other => panic!("expected roster, got {other:?}"),
    }
    let s = c.on_signaling(Some(GoloomEvent::RosterRemove(vec!["a".into(), "zz".into()])));
    assert!(matches!(&s.actions[0], CallAction::Emit(CallEvent::Roster(list)) if list.len() == 1));

    let s = c.on_publish(Some(MediaEvent::ConnectionState(PeerState::Connected)));
    assert_eq!(states(&s.actions), vec![CallState::InCall]);

    let s = c.on_command(Some(CallCommand::Share(true)));
    assert!(matches!(s.actions[0], CallAction::Engine(EngineRole::Publisher, EngineOp::SetSharingEnabled(true))));
    assert!(matches!(s.actions[1], CallAction::Signal(SignalOp::UpdateMe { send_sharing: true, .. })));
    assert!(c.share_attached);

    let s = c.on_command(Some(CallCommand::End));
    assert!(s.exit);
    assert_eq!(states(&s.actions), vec![CallState::Ended { reason: "hangup".into() }]);
}

#[test]
fn start_failure_fails_call() {
    let mut c = CallCore::new(&params());
    c.on_signaling(Some(connected()));
    let s = c.on_start_result(EngineRole::Publisher, Err("no camera".into()));
    assert!(s.exit);
    assert!(matches!(s.actions[0], CallAction::Signal(SignalOp::Shutdown)));
    assert_eq!(
        states(&s.actions),
        vec![CallState::Failed { reason: "publish engine failed to start: no camera".into() }]
    );
}

#[test]
fn channels_closing_end_call() {
    let mut c = CallCore::new(&params());
    let s = c.on_signaling(None);
    assert!(s.exit);
    assert_eq!(states(&s.actions), vec![CallState::Ended { reason: "signaling closed".into() }]);
    let mut c = CallCore::new(&params());
    let s = c.on_subscribe(None);
    assert!(s.exit);
    assert_eq!(states(&s.actions), vec![CallState::Failed { reason: "subscribe engine gone".into() }]);
    let mut c = CallCore::new(&params());
    let s = c.on_signaling(Some(GoloomEvent::Disconnected { will_retry: true, reason: "drop".into() }));
    assert!(!s.exit);
    assert_eq!(states(&s.actions), vec![CallState::Reconnecting]);
}

#[test]
fn mute_before_engines_only_announces() {
    let mut c = CallCore::new(&params());
    let s = c.on_command(Some(CallCommand::MuteAudio(false)));
    assert_eq!(s.actions.len(), 1);
    assert!(matches!(s.actions[0], CallAction::Signal(SignalOp::UpdateMe { send_audio: false, send_video: true, send_sharing: false })));
}

#[test]
fn failure_messages() {
    let offer = CallAction::Signal(SignalOp::PublisherOffer { pc_seq: 1, sdp: String::new(), tracks: vec![] });
    assert!(matches!(failure_event(&offer, "x".into()), Some(CallEvent::Error(m)) if m == "offer send failed: x"));
    let stop = CallAction::Engine(EngineRole::Publisher, EngineOp::Stop);
    assert!(failure_event(&stop, "x".into()).is_none());
    let ice = CallAction::Engine(EngineRole::Publisher, EngineOp::AddRemoteIce { mline_index: 0, candidate: String::new() });
    assert!(matches!(failure_event(&ice, "bad".into()), Some(CallEvent::Error(m)) if m == "bad"));
}

#[test]
fn signal_message_wraps_answer_under_fresh_uid() {
    let m = signal_message(SignalOp::SubscriberAnswer { pc_seq: 3, sdp: "v=0".into() }).unwrap();
    assert_eq!(m.uid.len(), 36);
    match m.kind {
        Some(ymessenger::goloom::MessageKind::SubscriberSdpAnswer(a)) => {
            assert_eq!(a.pc_seq, 3);
            assert_eq!(a.sdp, "v=0");
        }
        other => panic!("unexpected {:?}", other),
    }
    assert!(signal_message(SignalOp::Shutdown).is_none());
}
