use ymessenger::json::Json;
use ymessenger::messages::Timestamp;
use ymessenger::outgoing::{
    custom_payload, encode_payload, sent_text_message, service_id, text_payload, yuid_or_default, DEFAULT_YUID,
};

fn member<'a>(v: &'a Json, key: &str) -> &'a Json {
    match v {
        Json::Object(m) => &m.iter().find(|(k, _)| k == key).expect("member").1,
        _ => panic!("not an object"),
    }
}

fn text(v: &Json) -> &str {
    match v {
        Json::Str(s) => s,
        _ => panic!("not a string"),
    }
}

#[test]
fn service_ids_have_four_hex_groups() {
    let id = service_id();
    assert_eq!(id.len(), 19);
    let groups: Vec<&str> = id.split('-').collect();
    assert_eq!(groups.len(), 4);
    assert!(groups.iter().all(|g| g.len() == 4 && g.chars().all(|c| c.is_ascii_hexdigit() && !c.is_ascii_uppercase())));
}

#[test]
fn yuid_falls_back_to_default() {
    assert_eq!(yuid_or_default(Some("42".into())), "42");
    assert_eq!(yuid_or_default(None), DEFAULT_YUID);
}

#[test]
fn payloads() {
    let c = custom_payload("42", "abcd-ef01-2345-6789");
    let service = member(&c, "service");
    assert_eq!(text(member(service, "yuid")), "42");
    assert_eq!(text(member(service, "version")), "3.18.0");
    assert!(matches!(member(service, "isHistory"), Json::Bool(true)));
    assert_eq!(encode_payload("{}"), "e30=");

    let p = text_payload("chat", "hi", "pid", "e30=", Some("m0"));
    let plain = member(member(&p, "ClientMessage"), "Plain");
    assert_eq!(text(member(plain, "ChatId")), "chat");
    assert_eq!(text(member(member(plain, "Text"), "MessageText")), "hi");
    assert_eq!(text(member(plain, "ReplyTo")), "m0");
    let q = text_payload("chat", "hi", "pid", "e30=", None);
    match member(member(&q, "ClientMessage"), "Plain") {
        Json::Object(m) => assert_eq!(m.len(), 4),
        _ => panic!("not an object"),
    }
}

#[test]
fn sent_message_shows_at_once() {
    let now = Timestamp { secs: 5, nanos: 6 };
    let m = sent_text_message("pid", "chat", "me", "hello", now);
    assert_eq!(m.id, "pid");
    assert_eq!(m.message_id.as_deref(), Some("pid"));
    assert_eq!(m.text.as_deref(), Some("hello"));
    assert_eq!(m.created, now);
}
