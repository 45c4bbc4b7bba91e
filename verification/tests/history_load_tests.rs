use ymessenger::history_load::{step, LoadAction, LoadEvent, LoadStage, SocketMark};
use ymessenger::messages::{Message, Timestamp};

fn one() -> Vec<Message> {
    vec![Message {
        id: "1_a".into(),
        chat_id: "c".into(),
        from_id: "u".into(),
        message_id: None,
        text: None,
        reply_to: None,
        created: Timestamp { secs: 1, nanos: 0 },
        edited: false,
        edited_at: None,
        updated: None,
        sent: true,
        delivered: true,
        read: true,
    }]
}

#[test]
fn socket_history_wins_when_connected() {
    let (s, a) = step(LoadStage::Start, LoadEvent::Begin { socket_ready: true }, true);
    assert!(matches!(a, LoadAction::AskSocket));
    let (s, a) = step(s, LoadEvent::Socket(Some(one())), true);
    assert_eq!(s, LoadStage::Done);
    assert!(matches!(a, LoadAction::Use { keep: true, persist: true, mark: SocketMark::Mark, .. }));
}

#[test]
fn empty_socket_page_falls_back_to_http() {
    let (s, _) = step(LoadStage::Start, LoadEvent::Begin { socket_ready: true }, true);
    let (s, a) = step(s, LoadEvent::Socket(Some(Vec::new())), true);
    assert!(matches!(a, LoadAction::AskHttp));
    let (s, a) = step(s, LoadEvent::Http(Ok(one())), true);
    assert_eq!(s, LoadStage::Done);
    assert!(matches!(a, LoadAction::Use { mark: SocketMark::Unmark, .. }));
}

#[test]
fn failed_http_uses_the_caches_when_opening_a_chat() {
    let (s, _) = step(LoadStage::Start, LoadEvent::Begin { socket_ready: false }, true);
    let (s, a) = step(s, LoadEvent::Http(Err("HTTP 418".into())), true);
    assert!(matches!(a, LoadAction::AskDatabase));
    let (s, a) = step(s, LoadEvent::Database(Some(Vec::new())), true);
    assert!(matches!(a, LoadAction::AskFileCache));
    let (done, a) = step(s.clone(), LoadEvent::FileCache(Some(one())), true);
    assert_eq!(done, LoadStage::Done);
    assert!(matches!(a, LoadAction::Use { keep: false, persist: false, mark: SocketMark::Keep, .. }));
    let (_, a) = step(s, LoadEvent::FileCache(None), true);
    assert!(matches!(a, LoadAction::Fail(e) if e == "HTTP 418"));
}

#[test]
fn refresh_reports_http_errors_at_once() {
    let (s, a) = step(LoadStage::AskedHttp, LoadEvent::Http(Err("down".into())), false);
    assert_eq!(s, LoadStage::Done);
    assert!(matches!(a, LoadAction::Fail(e) if e == "down"));
    let (s, a) = step(LoadStage::Done, LoadEvent::Http(Ok(one())), false);
    assert_eq!(s, LoadStage::Done);
    assert!(matches!(a, LoadAction::Ignore));
}
