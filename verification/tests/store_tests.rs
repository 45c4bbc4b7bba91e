use ymessenger::drafts::DraftStore;
use ymessenger::outbox::{Outbox, OutboxItem};

#[test]
fn test_draft_set_get_clear() {
    let mut store = DraftStore::default();
    store.set("c1", "hello");
    assert_eq!(store.get("c1").as_deref(), Some("hello"));
    store.set("c1", "  ");
    assert!(store.get("c1").is_none());
    store.set("c1", "x");
    store.clear("c1");
    assert!(store.get("c1").is_none());
}

#[test]
fn drafts_of_other_chats_stay() {
    let mut store = DraftStore::default();
    store.set("a", "one");
    store.set("b", "two");
    store.set("a", "three");
    assert_eq!(store.get("a").as_deref(), Some("three"));
    assert_eq!(store.get("b").as_deref(), Some("two"));
    assert!(store.clear("b"));
    assert!(!store.clear("b"));
    assert_eq!(store.get("a").as_deref(), Some("three"));
    assert_eq!(store.drafts.len(), 1);
}

#[test]
fn drafts_loaded_keep_first_of_a_chat() {
    let store = DraftStore::from_entries(vec![
        ("a".into(), "first".into()),
        ("a".into(), "second".into()),
        ("b".into(), " ".into()),
    ]);
    assert_eq!(store.get("a").as_deref(), Some("first"));
    assert!(store.get("b").is_none());
}

#[test]
fn test_outbox_enqueue_remove() {
    let mut box_ = Outbox::default();
    let item = box_.enqueue("c1", "hello", None, Some("net".into()));
    assert_eq!(box_.len(), 1);
    assert_eq!(box_.list()[0].text, "hello");
    box_.mark_attempt(&item.id, Some("retry".into()));
    assert_eq!(box_.list()[0].attempts, 1);
    box_.remove(&item.id);
    assert!(box_.is_empty());
}

fn item(id: &str, attempts: u32) -> OutboxItem {
    OutboxItem {
        id: id.into(),
        chat_id: "c".into(),
        text: "t".into(),
        reply_to: None,
        created_at: 0,
        attempts,
        last_error: None,
    }
}

#[test]
fn purge_drops_dead_items() {
    let mut b = Outbox { items: vec![item("a", 0), item("b", 20), item("c", 19), item("d", 25)] };
    assert_eq!(b.purge_dead(20), 2);
    let ids: Vec<String> = b.list().into_iter().map(|i| i.id).collect();
    assert_eq!(ids, vec!["a".to_string(), "c".to_string()]);
}

#[test]
fn attempts_saturate() {
    let mut b = Outbox { items: vec![item("a", u32::MAX)] };
    b.mark_attempt("a", None);
    assert_eq!(b.items[0].attempts, u32::MAX);
    b.mark_attempt("missing", Some("x".into()));
    assert_eq!(b.items[0].last_error, None);
}

#[test]
fn enqueue_keeps_reply_and_fresh_id() {
    let mut b = Outbox::default();
    let i = b.enqueue("c", "t", Some("m1"), None);
    assert_eq!(i.reply_to.as_deref(), Some("m1"));
    assert_eq!(i.id.len(), 36);
    assert_eq!(i.attempts, 0);
}
