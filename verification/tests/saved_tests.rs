use ymessenger::messages::Timestamp;
use ymessenger::saved::{SavedFilter, SavedMessage, SavedMessageStore};
use ymessenger::scheduled::{
    cancel, finish_send, reschedule, scheduled_for_chat, start_round, ScheduledMessage, ScheduledStatus,
};
use ymessenger::session_store::{session_cookies, SessionData};

fn saved(id: &str, at: i64, kind: Option<&str>, preview: Option<&str>) -> SavedMessage {
    SavedMessage {
        message_id: id.to_string(),
        source_chat_id: "c".to_string(),
        source_message: id.to_string(),
        saved_at: Timestamp { secs: at, nanos: 0 },
        note: None,
        media_type: kind.map(str::to_string),
        preview: preview.map(str::to_string),
    }
}

fn store() -> SavedMessageStore {
    let mut st = SavedMessageStore::new();
    st.add_message(saved("a", 1, None, Some("Привет МИР")));
    st.add_message(saved("b", 3, Some("image"), None));
    st.add_message(saved("c", 2, Some("text"), Some("other")));
    st.add_message(saved("d", 3, Some("link"), None));
    st
}

#[test]
fn saved_pages_are_newest_first_then_filtered() {
    let st = store();
    let ids = |v: Vec<SavedMessage>| v.into_iter().map(|m| m.message_id).collect::<Vec<_>>();
    assert_eq!(ids(st.get_messages(10, 0, SavedFilter::All)), vec!["b", "d", "c", "a"]);
    assert_eq!(ids(st.get_messages(2, 1, SavedFilter::All)), vec!["d", "c"]);
    assert_eq!(ids(st.get_messages(10, 0, SavedFilter::Text)), vec!["c", "a"]);
    assert_eq!(ids(st.get_messages(2, 0, SavedFilter::Text)), Vec::<String>::new());
    assert_eq!(ids(st.get_messages(10, 9, SavedFilter::All)), Vec::<String>::new());
}

#[test]
fn saved_search_notes_and_removal() {
    let mut st = store();
    st.update_note("c", "мир во всём мире".to_string());
    let found: Vec<String> = st.search("мир", 10).into_iter().map(|m| m.message_id).collect();
    assert_eq!(found, vec!["c", "a"]);
    assert_eq!(st.search("мир", 1).len(), 1);
    assert_eq!(st.search("d", 10)[0].message_id, "d");
    st.add_message(saved("a", 9, None, None));
    st.remove_message("a");
    assert_eq!(st.len(), 3);
    assert!(st.messages.iter().all(|m| m.message_id != "a"));
    st.update_note("zzz", "x".to_string());
    assert!(st.messages.iter().all(|m| m.note.is_none() || m.message_id == "c"));
}

fn sched(id: &str, chat: &str, at: i64, status: ScheduledStatus) -> ScheduledMessage {
    ScheduledMessage {
        message_id: id.to_string(),
        chat_id: chat.to_string(),
        text: format!("text {id}"),
        scheduled_at: Timestamp { secs: at, nanos: 0 },
        status,
        original_message_id: None,
    }
}

#[test]
fn sending_round_marks_due_messages() {
    let mut list = vec![
        sched("1", "c", 10, ScheduledStatus::Pending),
        sched("2", "c", 50, ScheduledStatus::Pending),
        sched("3", "d", 5, ScheduledStatus::Failed),
        sched("4", "d", 20, ScheduledStatus::Pending),
    ];
    let ids = start_round(&mut list, Timestamp { secs: 20, nanos: 0 });
    assert_eq!(ids, vec!["1", "4"]);
    assert_eq!(list[0].status, ScheduledStatus::Sending);
    assert_eq!(list[1].status, ScheduledStatus::Pending);
    assert_eq!(list[3].status, ScheduledStatus::Sending);
    finish_send(&mut list, "1", Some("srv-1".to_string()));
    finish_send(&mut list, "4", None);
    assert_eq!(list[0].status, ScheduledStatus::Sent);
    assert_eq!(list[0].original_message_id.as_deref(), Some("srv-1"));
    assert_eq!(list[3].status, ScheduledStatus::Failed);
    let shown: Vec<String> = scheduled_for_chat(&list, "d").into_iter().map(|m| m.message_id).collect();
    assert_eq!(shown, vec!["2", "3", "4"]);
}

#[test]
fn cancelling_and_rescheduling() {
    let mut list = vec![sched("1", "c", 10, ScheduledStatus::Pending), sched("1", "d", 10, ScheduledStatus::Pending)];
    cancel(&mut list, Some("d"), "1");
    assert_eq!(list.len(), 1);
    assert_eq!(list[0].chat_id, "c");
    assert_eq!(reschedule(&mut list, "1", Timestamp { secs: 99, nanos: 0 }), Ok(()));
    assert_eq!(list[0].scheduled_at.secs, 99);
    assert_eq!(reschedule(&mut list, "2", Timestamp { secs: 1, nanos: 0 }), Err("Message not found".to_string()));
    cancel(&mut list, None, "1");
    assert!(list.is_empty());
}

#[test]
fn stored_session_cookies_expire_after_thirty_days() {
    let data = SessionData {
        cookies: vec![("Session_id".into(), "3:1|42.x".into()), ("yandexuid".into(), "7".into())],
        csrf_token: Some("tok".into()),
        saved_at: 1_000,
    };
    let (h, c) = session_cookies(&data, 1_000 + 2_592_000);
    assert_eq!(h.as_deref(), Some("Session_id=3:1|42.x; yandexuid=7"));
    assert_eq!(c.as_deref(), Some("tok"));
    assert_eq!(session_cookies(&data, 1_000 + 2_592_001), (None, None));
    let empty = SessionData { cookies: vec![], csrf_token: Some("t".into()), saved_at: 0 };
    assert_eq!(session_cookies(&empty, 5), (None, None));
}

#[test]
fn a_repeated_id_marks_its_first_message() {
    let mut list = vec![sched("1", "c", 90, ScheduledStatus::Pending), sched("1", "c", 10, ScheduledStatus::Pending)];
    let ids = start_round(&mut list, Timestamp { secs: 20, nanos: 0 });
    assert_eq!(ids, vec!["1"]);
    assert_eq!(list[0].status, ScheduledStatus::Sending);
    assert_eq!(list[1].status, ScheduledStatus::Pending);
}
