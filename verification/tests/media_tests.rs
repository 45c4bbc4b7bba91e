use ymessenger::goloom_media::{
    launch_string, EngineRole, EngineSource, MediaEvent, NullMediaEngine, PeerState, ShareSourceKind,
};

#[test]
fn null_engine_contract() {
    let mut engine = NullMediaEngine::new();
    let mut rx = engine.start().into_iter();
    match rx.next().expect("offer") {
        MediaEvent::LocalOffer { tracks, .. } => assert_eq!(tracks.len(), 3),
        other => panic!("expected offer, got {other:?}"),
    }
    let mut rx = engine.handle_remote_offer("v=0\r\no=remote").into_iter();
    // handle_remote_offer emits LocalAnswer (+ Connected state).
    let mut saw_answer = false;
    for _ in 0..4 {
        match rx.next().expect("answer") {
            MediaEvent::LocalAnswer { .. } => {
                saw_answer = true;
                break;
            }
            MediaEvent::ConnectionState(_) => continue,
            other => panic!("expected answer, got {other:?}"),
        }
    }
    assert!(saw_answer, "no LocalAnswer emitted");
    engine.add_remote_ice(0, "candidate:1 1 udp 1 127.0.0.1 9 typ host");
    engine.set_sharing_enabled(true);
    let log = engine.recorded();
    assert!(log.iter().any(|l| l == "start"));
    assert!(log.iter().any(|l| l.starts_with("remote-offer:")));
    assert!(log.iter().any(|l| l.starts_with("remote-ice:0:")));
    assert!(log.iter().any(|l| l == "sharing:true"));
}

#[test]
fn null_engine_log_entries() {
    let mut e = NullMediaEngine::answer_only();
    let ev = e.start();
    assert_eq!(ev.len(), 1);
    assert!(matches!(ev[0], MediaEvent::ConnectionState(PeerState::Connecting)));
    e.set_ice_servers(&vec![]);
    e.handle_remote_answer("v=0\r\nrest");
    e.set_audio_enabled(false);
    e.set_video_enabled(true);
    e.attach_share_source(ShareSourceKind::PipeWire { node: 42 });
    e.attach_share_source(ShareSourceKind::Default);
    let stop = e.stop();
    assert!(matches!(stop[0], MediaEvent::ConnectionState(PeerState::Closed)));
    assert_eq!(
        e.recorded(),
        vec![
            "start", "ice-servers:0", "remote-answer:v=0", "audio:false", "video:true",
            "share-pipewire:42", "share-source:default", "stop",
        ]
    );
}

#[test]
fn launch_descriptions() {
    let base = "webrtcbin name=webrtc bundle-policy=max-bundle";
    assert_eq!(launch_string(EngineRole::Subscriber, true, true, EngineSource::Test), base);
    assert_eq!(launch_string(EngineRole::Publisher, false, false, EngineSource::Auto), base);
    let a = launch_string(EngineRole::Publisher, true, false, EngineSource::Test);
    assert_eq!(
        a,
        format!("{base} audiotestsrc name=audiosrc is-live=true wave=sine freq=440 ! audioconvert ! audioresample ! opusenc ! rtpopuspay ! application/x-rtp,media=audio,encoding-name=OPUS,payload=96 ! webrtc.")
    );
    let v = launch_string(EngineRole::Publisher, false, true, EngineSource::Auto);
    assert!(v.starts_with(&format!("{base} autovideosrc name=videosrc ! tee name=t")));
    assert!(v.ends_with("webrtc. t. ! queue name=qprev ! videoconvert ! videoscale ! video/x-raw,format=RGBA ! appsink name=preview sync=false max-buffers=2 drop=true emit-signals=false"));
    let both = launch_string(EngineRole::Publisher, true, true, EngineSource::Auto);
    assert!(both.contains("autoaudiosrc name=audiosrc ! audioconvert"));
    assert!(both.contains("payload=96 ! webrtc. autovideosrc name=videosrc"));
}
