use ymessenger::chat_state::{
    add_incoming, apply_edit, apply_status, change_chat, ends_with_text, forget_chat, is_chat_muted,
    pending_message, purge_message, seed_previews, send_failure, settle_sent, target_time, total_unread,
    edit_target, finish_edit, record_send, send_result, ChatChange,
};
use ymessenger::outbox::Outbox;
use ymessenger::chats::{Chat, ChatType};
use ymessenger::messages::{Message, MessageId, Timestamp};

fn msg(id: &str, mid: Option<&str>, secs: i64) -> Message {
    Message {
        id: id.to_string(),
        chat_id: "c".to_string(),
        from_id: "u".to_string(),
        message_id: mid.map(str::to_string),
        text: Some(format!("text {id}")),
        reply_to: None,
        created: Timestamp { secs, nanos: 0 },
        edited: false,
        edited_at: None,
        updated: None,
        sent: true,
        delivered: false,
        read: false,
    }
}

fn chat(id: &str, unread: u32, preview: Option<Message>) -> Chat {
    Chat {
        id: id.to_string(),
        title: None,
        chat_type: ChatType::Group,
        avatar_id: None,
        last_message: preview,
        pinned: false,
        unread_count: unread,
        muted: false,
        archived: false,
    }
}

#[test]
fn incoming_messages_are_deduplicated_and_ordered() {
    let mut list = vec![msg("5_aaa", Some("aaa"), 10), msg("7_bbb", None, 30)];
    assert!(add_incoming(&mut list, msg("6_ccc", None, 20)));
    let ids: Vec<&str> = list.iter().map(|m| m.id.as_str()).collect();
    assert_eq!(ids, vec!["5_aaa", "6_ccc", "7_bbb"]);
    assert!(!add_incoming(&mut list, msg("6_ccc", None, 99)));
    assert!(!add_incoming(&mut list, msg("x", Some("aaa"), 1)));
    assert!(!add_incoming(&mut list, msg("123_bbb", None, 1)));
    assert_eq!(list.len(), 3);
    assert!(ends_with_text("7_bbb", "_bbb"));
    assert!(!ends_with_text("b", "_bbb"));
}

#[test]
fn edits_and_deletions_find_messages_by_either_id() {
    let mut list = vec![msg("1_a", Some("a"), 10), msg("2_b", Some("b"), 20)];
    assert_eq!(target_time(&list, "b"), Some(Timestamp { secs: 20, nanos: 0 }));
    assert_eq!(target_time(&list, "zz"), None);
    let at = Timestamp { secs: 50, nanos: 0 };
    let edited = apply_edit(&mut list, "1_a", "new", at).unwrap();
    assert_eq!(edited.text.as_deref(), Some("new"));
    assert_eq!(edited.edited_at, Some(at));
    assert!(list[0].edited);
    assert_eq!(list[0].edited_at, Some(at));
    assert!(apply_edit(&mut list, "nope", "x", at).is_none());
    purge_message(&mut list, "a");
    assert_eq!(list.len(), 1);
    assert_eq!(list[0].id, "2_b");
}

#[test]
fn delivery_reports() {
    let mut list = vec![msg("1_a", Some("a"), 1), msg("2_b", None, 2)];
    list[1].sent = false;
    let changed = apply_status(&mut list, Some("a"), true, false);
    assert_eq!(changed, vec!["1_a"]);
    assert!(list[0].delivered && !list[0].read);
    let changed = apply_status(&mut list, None, false, true);
    assert_eq!(changed, vec!["1_a"]);
    assert!(list[0].read);
    assert!(!list[1].read);
    assert!(apply_status(&mut list, Some("b"), true, true) == vec!["2_b".to_string()]);
    assert!(list[1].delivered && list[1].read);
}

#[test]
fn outbox_placeholders() {
    let now = Timestamp { secs: 3, nanos: 0 };
    let p = pending_message("ob-1", "c", "me", "hi", None, now);
    assert!(!p.sent && !p.delivered);
    assert_eq!(p.reply_to, None);
    let r = pending_message("ob-3", "c", "me", "re", Some("m7"), now);
    assert_eq!(r.reply_to, Some(MessageId { chat_id: "c".into(), message_id: "m7".into() }));
    let mut list = vec![msg("x", None, 1), p];
    settle_sent(&mut list, "ob-1", msg("9_srv", None, 3));
    assert_eq!(list.len(), 2);
    assert_eq!(list[1].id, "9_srv");
    settle_sent(&mut list, "ob-2", msg("10_srv", None, 4));
    assert_eq!(list.len(), 3);
    assert_eq!(send_failure("closed", Some("418")), "ws: closed; session: 418");
    assert_eq!(send_failure("closed", None), "ws: closed; no session for HTTP fallback");
}

#[test]
fn chat_list_flags() {
    let mut chats = vec![chat("a", 2, None), chat("b", 5, None)];
    assert_eq!(total_unread(&chats), 7);
    change_chat(&mut chats, "b", ChatChange::Read);
    change_chat(&mut chats, "a", ChatChange::Muted(true));
    change_chat(&mut chats, "zz", ChatChange::Pinned(true));
    assert_eq!(total_unread(&chats), 2);
    assert!(is_chat_muted(&chats, "a"));
    assert!(!is_chat_muted(&chats, "zz"));
    let mut selected = Some("a".to_string());
    forget_chat(&mut chats, &mut selected, "a");
    assert_eq!(chats.len(), 1);
    assert_eq!(selected, None);
    let mut other = Some("b".to_string());
    forget_chat(&mut chats, &mut other, "zz");
    assert_eq!(other.as_deref(), Some("b"));
}

#[test]
fn previews_seed_empty_chats_only() {
    let chats = vec![chat("a", 0, Some(msg("p", None, 1))), chat("b", 0, Some(msg("q", None, 2))), chat("c", 0, None)];
    let mut by_chat = vec![("b".to_string(), vec![msg("old", None, 0)])];
    seed_previews(&mut by_chat, &chats);
    assert_eq!(by_chat.len(), 2);
    assert_eq!(by_chat[1].0, "a");
    assert_eq!(by_chat[1].1[0].id, "p");
    assert_eq!(by_chat[0].1[0].id, "old");
    let dup = vec![chat("a", 0, Some(msg("p2", None, 3)))];
    seed_previews(&mut by_chat, &dup);
    let mut keys: Vec<&str> = by_chat.iter().map(|e| e.0.as_str()).collect();
    keys.sort();
    keys.dedup();
    assert_eq!(keys.len(), by_chat.len());
    assert_eq!(by_chat[1].1[0].id, "p");
}

#[test]
fn edit_is_refused_without_target_or_connection() {
    let list = vec![msg("1_a", Some("a"), 10), msg("2_b", Some("b"), 20)];
    assert_eq!(edit_target(&list, "zz", true), Err("Сообщение не найдено".to_string()));
    assert_eq!(edit_target(&list, "zz", false), Err("Сообщение не найдено".to_string()));
    assert_eq!(edit_target(&list, "b", false), Err("Нет связи с сервером — правка невозможна".to_string()));
    assert_eq!(edit_target(&list, "2_b", true), Ok(Timestamp { secs: 20, nanos: 0 }));
}

#[test]
fn finished_edit_updates_list_or_builds_fallback() {
    let at = Timestamp { secs: 77, nanos: 5 };
    let mut list = vec![msg("1_a", Some("a"), 10)];
    let before = list.clone();
    let err = finish_edit(&mut list, "c", "a", "new", "me", at, Err("boom".into())).unwrap_err();
    assert_eq!(err, "edit failed: boom");
    assert_eq!(list, before);
    let m = finish_edit(&mut list, "c", "a", "new", "me", at, Ok(())).unwrap();
    assert_eq!(m.id, "1_a");
    assert_eq!(m.text.as_deref(), Some("new"));
    assert!(m.edited);
    assert_eq!(m.edited_at, Some(at));
    assert_eq!(list[0], m);
    let f = finish_edit(&mut list, "c", "gone", "txt", "me", at, Ok(())).unwrap();
    assert_eq!(list.len(), 1);
    assert_eq!(f.id, "gone");
    assert_eq!(f.message_id.as_deref(), Some("gone"));
    assert_eq!(f.chat_id, "c");
    assert_eq!(f.from_id, "me");
    assert_eq!(f.text.as_deref(), Some("txt"));
    assert!(f.edited && f.sent && f.delivered && !f.read);
    assert_eq!(f.edited_at, Some(at));
    assert_eq!(f.updated, Some(at));
    assert_eq!(f.created, at);
}

#[test]
fn send_ways_combine() {
    let m = msg("p1", Some("p1"), 1);
    assert_eq!(send_result(Ok(m.clone()), None), Ok(m.clone()));
    assert_eq!(send_result(Ok(m.clone()), Some(Err("x".into()))), Ok(m.clone()));
    assert_eq!(send_result(Err("closed".into()), Some(Ok(m.clone()))), Ok(m.clone()));
    assert_eq!(send_result(Err("closed".into()), Some(Err("418".into()))), Err("ws: closed; session: 418".to_string()));
    assert_eq!(
        send_result(Err("closed".into()), None),
        Err("ws: closed; no session for HTTP fallback".to_string())
    );
}

#[test]
fn sent_text_is_delivered_and_failed_text_is_queued() {
    let now = Timestamp { secs: 9, nanos: 0 };
    let mut list = vec![msg("1_a", Some("a"), 1)];
    let mut outbox = Outbox::default();
    let mut out = msg("p1", Some("p1"), 2);
    out.delivered = false;
    let shown = record_send(&mut list, &mut outbox, "c", "hi", None, "me", now, Ok(out));
    assert!(shown.sent && shown.delivered);
    assert_eq!(list.len(), 2);
    assert_eq!(list[1], shown);
    assert!(outbox.is_empty());
    let pending = record_send(&mut list, &mut outbox, "c", "later", Some("a"), "me", now, Err("down".into()));
    assert_eq!(outbox.len(), 1);
    let item = &outbox.items[0];
    assert_eq!(item.text, "later");
    assert_eq!(item.reply_to.as_deref(), Some("a"));
    assert_eq!(item.last_error.as_deref(), Some("down"));
    assert_eq!(pending.id, item.id);
    assert_eq!(pending.message_id.as_deref(), Some(item.id.as_str()));
    assert_eq!(pending.reply_to, Some(MessageId { chat_id: "c".into(), message_id: "a".into() }));
    assert!(!pending.sent && !pending.delivered);
    assert_eq!(pending.created, now);
    assert_eq!(list.len(), 3);
    assert_eq!(list[2], pending);
}
