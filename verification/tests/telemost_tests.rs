use ymessenger::auth_proxy::{check_code, env_optional, env_required, exchange_answer, oauth_callback_page, oauth_start_url, ProxyRefusal};
use ymessenger::json::Json;
use ymessenger::models::{MeetingCall, PersonalMeeting};
use ymessenger::telemost::{auth_header, join_url, payload_members, user_error_message, UserErrorText};
use ymessenger::text::html_escape;

fn obj(members: Vec<(&str, Json)>) -> Json {
    Json::Object(members.into_iter().map(|(k, v)| (k.to_string(), v)).collect())
}

fn s(v: &str) -> Json {
    Json::Str(v.to_string())
}

#[test]
fn join_links() {
    let m = PersonalMeeting { meeting_id: "m1".into(), join_url: Some("https://telemost.yandex.ru/j/m1".into()) };
    assert_eq!(join_url(&m), "https://telemost.yandex.ru/j/m1");
    let m = PersonalMeeting { meeting_id: "m2".into(), join_url: Some(String::new()) };
    assert_eq!(join_url(&m), "https://telemost.yandex.ru/j/m2");
}

#[test]
fn telemost_authorization() {
    assert_eq!(auth_header(Some("abc")), "OAuth abc");
    assert_eq!(auth_header(Some("OAuth abc")), "OAuth abc");
    assert_eq!(auth_header(None), "");
}

#[test]
fn user_errors_become_messages() {
    let v = obj(vec![(
        "UserErrors",
        obj(vec![("errors", Json::Array(vec![obj(vec![("code", s("LIMIT")), ("message", s("too many"))])]))]),
    )]);
    assert_eq!(user_error_message(&v), Some(UserErrorText::Text("LIMIT too many".into())));
    let raw = obj(vec![("user_errors", obj(vec![("errors", Json::Array(vec![s("odd")]))]))]);
    assert_eq!(user_error_message(&raw), Some(UserErrorText::Raw));
    let blank = obj(vec![("userErrors", obj(vec![("errors", Json::Array(vec![obj(vec![])]))]))]);
    assert_eq!(user_error_message(&blank), None);
    assert_eq!(user_error_message(&obj(vec![])), None);
}

#[test]
fn payload_candidates_in_order() {
    let v = obj(vec![
        ("meeting", obj(vec![])),
        ("success", Json::Bool(true)),
        ("data", Json::Array(vec![])),
    ]);
    assert_eq!(payload_members(&v), vec!["data", "meeting"]);
    let all = obj(vec![
        ("info", obj(vec![])),
        ("call", Json::Array(vec![])),
        ("result", obj(vec![])),
        ("meeting", obj(vec![])),
        ("data", obj(vec![])),
        ("success", obj(vec![])),
    ]);
    assert_eq!(payload_members(&all), vec!["success", "data", "meeting", "result", "call", "info"]);
    assert!(payload_members(&obj(vec![("success", Json::Null)])).is_empty());
}

#[test]
fn meeting_room_falls_back_to_meeting_id() {
    let c = MeetingCall { room_id: Some(String::new()), credentials: None, participant_id: None };
    assert_eq!(c.effective_room_id("m1"), "m1");
    let c = MeetingCall { room_id: Some("r1".into()), credentials: None, participant_id: None };
    assert_eq!(c.effective_room_id("m1"), "r1");
}

#[test]
fn proxy_settings_and_pages() {
    assert_eq!(env_required("X", None).unwrap_err(), "Missing required env var X");
    assert_eq!(env_required("X", Some("  ")).unwrap_err(), "Env var X cannot be empty");
    assert_eq!(env_required("X", Some(" v ")).unwrap(), "v");
    assert_eq!(env_optional(Some(" "), "d"), "d");
    assert_eq!(env_optional(Some(" e "), "d"), "e");
    assert_eq!(
        oauth_start_url("https://a", "c", "http://r", "s t"),
        "https://a?response_type=code&client_id=c&redirect_uri=http%3A%2F%2Fr&scope=s%20t&force_confirm=yes"
    );
    let page = oauth_callback_page(Some("<c>"), None, None);
    assert!(page.contains("&lt;c&gt;"));
    let err = oauth_callback_page(None, Some("denied"), None);
    assert!(err.contains("<p>denied</p><p>unknown error</p>"));
    assert_eq!(html_escape("a&b\"'"), "a&amp;b&quot;&#39;");
}

#[test]
fn proxy_exchange_answers() {
    assert_eq!(check_code("  "), Err(ProxyRefusal::BadRequest("code is required".into())));
    assert_eq!(check_code(" c "), Ok("c".into()));
    assert_eq!(exchange_answer(false, &obj(vec![])), Err(ProxyRefusal::UpstreamError));
    assert_eq!(
        exchange_answer(true, &obj(vec![("error", s("e"))])),
        Err(ProxyRefusal::BadRequest("oauth exchange failed: e (unknown error)".into()))
    );
    assert_eq!(exchange_answer(true, &obj(vec![])), Err(ProxyRefusal::BadGateway("missing access_token".into())));
    let t = exchange_answer(true, &obj(vec![("access_token", s("A"))])).unwrap();
    assert_eq!((t.access_token.as_str(), t.expires_in, t.user_id.clone()), ("A", 3600, None));
}
