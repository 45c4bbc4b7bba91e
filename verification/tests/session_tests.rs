use ymessenger::json::Json;
use ymessenger::session_store::{accept_loaded, cookies_and_uid, find_cookie, save_cookies_map, stamped, SessionData};

fn session(cookies: &[(&str, &str)]) -> SessionData {
    SessionData {
        cookies: cookies.iter().map(|(k, v)| (k.to_string(), v.to_string())).collect(),
        csrf_token: None,
        saved_at: 0,
    }
}

#[test]
fn test_yuid_from_session_id() {
    let data = session(&[("Session_id", "3:1.5.0.1:x:e.1.2:1|239644570.0.20002.3:1|3:1.sig")]);
    assert_eq!(data.yuid().as_deref(), Some("239644570"));
}

#[test]
fn test_cookie_header() {
    let data = session(&[("a", "1"), ("b", "2")]);
    let h = data.cookie_header();
    assert!(h.contains("a=1"));
    assert!(h.contains("b=2"));
}

#[test]
fn cookie_header_joins_in_order() {
    assert_eq!(session(&[("a", "1"), ("b", "2"), ("c", "")]).cookie_header(), "a=1; b=2; c=");
    assert_eq!(session(&[]).cookie_header(), "");
}

#[test]
fn yuid_falls_back_to_yandexuid_only_with_session_id() {
    let d = session(&[("Session_id", "no-uid-here"), ("yandexuid", "777")]);
    assert_eq!(d.yuid().as_deref(), Some("777"));
    assert_eq!(d.passport_uid().as_deref(), Some("777"));
    let d = session(&[("yandexuid", "777")]);
    assert_eq!(d.yuid(), None);
    let d = session(&[("Session_id", "x|12a.3"), ("yandexuid", "")]);
    assert_eq!(d.yuid(), None);
}

#[test]
fn session_id_presence() {
    assert!(session(&[("Session_id", "v")]).has_session_id());
    assert!(!session(&[("Session_id", "")]).has_session_id());
    assert!(!session(&[("other", "v")]).has_session_id());
}

#[test]
fn save_requires_session_id() {
    let err = save_cookies_map(vec![("a".into(), "1".into())], None, 5).unwrap_err();
    assert_eq!(err, "Session_id cookie missing — login incomplete");
    let ok = save_cookies_map(vec![("Session_id".into(), "s".into())], Some("t".into()), 5).unwrap();
    assert_eq!(ok.saved_at, 5);
    assert_eq!(ok.csrf_token.as_deref(), Some("t"));
}

#[test]
fn loaded_session_needs_cookies_and_stamp_keeps_time() {
    assert!(accept_loaded(session(&[])).is_none());
    assert!(accept_loaded(session(&[("a", "1")])).is_some());
    assert_eq!(stamped(session(&[]), 9).saved_at, 9);
    let mut s = session(&[]);
    s.saved_at = 3;
    assert_eq!(stamped(s, 9).saved_at, 3);
}

#[test]
fn raw_session_document_gives_header_and_uid() {
    let doc = Json::Object(vec![(
        "cookies".to_string(),
        Json::Object(vec![
            ("Session_id".to_string(), Json::Str("3:x|4242.rest".to_string())),
            ("yandexuid".to_string(), Json::Str("9".to_string())),
        ]),
    )]);
    let (h, uid) = cookies_and_uid(&doc).expect("cookies");
    assert_eq!(h, "Session_id=3:x|4242.rest; yandexuid=9");
    assert_eq!(uid, "4242");
    let bad = Json::Object(vec![(
        "cookies".to_string(),
        Json::Object(vec![("Session_id".to_string(), Json::Null)]),
    )]);
    assert!(cookies_and_uid(&bad).is_none());
}

#[test]
fn csrf_token_of_an_answer() {
    let doc = Json::Object(vec![("token".to_string(), Json::Str("abc".to_string()))]);
    assert_eq!(ymessenger::session_store::csrf_token_in(&doc).as_deref(), Some("abc"));
    assert_eq!(ymessenger::session_store::csrf_token_in(&Json::Null), None);
}

#[test]
fn switching_the_open_chat() {
    let mut current = Some("a".to_string());
    let (unsub, sub) = ymessenger::xiva::switch_chat(&mut current, Some("b".to_string()));
    assert_eq!(unsub.as_deref(), Some("a"));
    assert_eq!(sub.as_deref(), Some("b"));
    assert_eq!(current.as_deref(), Some("b"));
    let (unsub, sub) = ymessenger::xiva::switch_chat(&mut current, None);
    assert_eq!(unsub.as_deref(), Some("b"));
    assert!(sub.is_none() && current.is_none());
}

#[test]
fn cookie_lookup_by_name() {
    let c: Vec<(String, String)> = vec![("a".into(), "1".into()), ("Session_id".into(), "s".into())];
    assert_eq!(find_cookie(&c, "Session_id").map(|v| v.as_str()), Some("s"));
    assert_eq!(find_cookie(&c, "b"), None);
}
