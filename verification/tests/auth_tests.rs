use ymessenger::auth::{
    access_token_at, auth_code_url, auth_code_url_with_state, basic_authorization, basic_form,
    device_id, exchange_form, exchange_result, force_auth, parse_token_at, profile_name, proxy_result,
    refresh_result, time_until_expiry_at, user_from_info, AuthError, AuthSettings, ExchangeFlow,
    ExchangeRequest, ExchangeStep, OAuthToken, RefreshFlow, RefreshStep, TokenReply,
};
use ymessenger::auth::{authenticated_at, revoked_message, session_verdict, SessionVerdict};
use ymessenger::json::{Json, JsonNumber};
use ymessenger::token_store::{needs_refresh, refresh_url, response_from, store_from, TokenResponse};

fn obj(members: Vec<(&str, Json)>) -> Json {
    Json::Object(members.into_iter().map(|(k, v)| (k.to_string(), v)).collect())
}

fn s(v: &str) -> Json {
    Json::Str(v.to_string())
}

fn token(received_at: u64, expires_in: u64) -> OAuthToken {
    OAuthToken {
        access_token: "tok".into(),
        refresh_token: None,
        expires_in,
        token_type: "Bearer".into(),
        user_id: None,
        received_at,
    }
}

#[test]
fn expiry_five_minutes_early() {
    let t = token(1000, 3600);
    assert!(!t.is_expired_at(1000));
    assert!(!t.is_expired_at(4299));
    assert!(t.is_expired_at(4300));
    assert!(token(0, 300).is_expired_at(0));
    assert!(!token(0, 301).is_expired_at(u64::MAX));
    assert!(!token(0, 3600).is_expired());
}

#[test]
fn oauth_header_and_errors() {
    assert_eq!(token(0, 1).oauth_header(), "OAuth tok");
    assert_eq!(AuthError::NotFound.message(), "Token not found");
    assert_eq!(AuthError::Expired.message(), "Token expired");
    assert_eq!(AuthError::RefreshFailed("x".into()).message(), "Token refresh failed: x");
    assert_eq!(AuthError::HttpError("y".into()).message(), "HTTP error: y");
    assert_eq!(AuthError::ParseError("z".into()).message(), "Parse error: z");
}

#[test]
fn access_token_checks() {
    assert_eq!(access_token_at(None, 0), Err(AuthError::NotFound));
    assert_eq!(access_token_at(Some(&token(1000, 400)), 1200), Err(AuthError::Expired));
    assert_eq!(access_token_at(Some(&token(1000, 400)), 1000), Ok("tok".to_string()));
}

#[test]
fn seconds_until_expiry() {
    assert_eq!(time_until_expiry_at(&token(0, 200), 5), Some(0));
    assert_eq!(time_until_expiry_at(&token(0, 1000), 5), Some(700));
    assert_eq!(time_until_expiry_at(&token(100, 100), 150), Some(50));
    assert_eq!(time_until_expiry_at(&token(100, 100), 250), Some(0));
}

#[test]
fn settings_from_environment() {
    let d = AuthSettings::from_env(None, None, None, None, None);
    assert_eq!(d.client_id, "bef24ec2889b481bb39af0b430099845");
    assert_eq!(d.redirect_uri, None);
    assert_eq!(d.auth_proxy_url, None);
    assert_eq!(d.authorize_url, "https://oauth.yandex.ru/authorize");
    assert_eq!(d.token_urls, vec!["https://oauth.yandex.ru/token".to_string()]);
    let c = AuthSettings::from_env(
        Some(" id "),
        Some(" "),
        Some(" http://p/// "),
        Some("https://a"),
        Some("https://oauth.yandex.com/token"),
    );
    assert_eq!(c.client_id, "id");
    assert_eq!(c.redirect_uri, None);
    assert_eq!(c.auth_proxy_url.as_deref(), Some("http://p"));
    assert_eq!(c.authorize_url, "https://a");
    assert_eq!(
        c.token_urls,
        vec!["https://oauth.yandex.com/token".to_string(), "https://oauth.yandex.ru/token".to_string()]
    );
    assert!(force_auth(Some("TRUE")) && force_auth(Some("1")) && force_auth(Some("Yes")));
    assert!(!force_auth(Some("0")) && !force_auth(None));
}

#[test]
fn login_url() {
    let s = AuthSettings::from_env(Some("cid"), Some("http://cb/x y"), None, None, None);
    let u = auth_code_url_with_state(&s, "dev 1", "st");
    assert_eq!(
        u,
        "https://oauth.yandex.ru/authorize?response_type=token&client_id=cid&state=st&device_id=dev%201&device_name=Yandex%20Messenger%20Native&force_confirm=yes&redirect_uri=http%3A%2F%2Fcb%2Fx%20y"
    );
    let p = AuthSettings::from_env(None, None, Some("http://proxy"), None, None);
    assert_eq!(auth_code_url(&p, "d"), "http://proxy/oauth/start");
    let fresh = auth_code_url(&s, "d");
    assert!(fresh.contains("&state="));
    assert_eq!(device_id(Some(" abc ")), ("abc".to_string(), false));
    let (id, new) = device_id(Some("  "));
    assert!(new && id.len() == 36);
}

#[test]
fn token_from_redirect() {
    let url = "app://cb#access_token=A1&expires_in=7200&state=s1&user_id=u&junk&refresh_token=R";
    let (t, state) = parse_token_at(url, Some("s1"), 77).expect("token");
    assert_eq!(state.as_deref(), Some("s1"));
    assert_eq!(t.access_token, "A1");
    assert_eq!(t.expires_in, 7200);
    assert_eq!(t.user_id.as_deref(), Some("u"));
    assert_eq!(t.refresh_token.as_deref(), Some("R"));
    assert_eq!(t.token_type, "Bearer");
    assert_eq!(t.received_at, 77);
    assert_eq!(parse_token_at("app://cb", None, 0).unwrap_err(), "No fragment in URL");
    assert_eq!(
        parse_token_at("x#access_token=A&state=s2", Some("s1"), 0).unwrap_err(),
        "OAuth state mismatch: expected=s1, got=s2"
    );
    assert_eq!(
        parse_token_at("x#access_token=A", Some("s1"), 0).unwrap_err(),
        "OAuth state parameter missing (possible CSRF)"
    );
    assert_eq!(parse_token_at("x#access_token=A", Some(" "), 0).unwrap().1, None);
    assert_eq!(parse_token_at("x#access_token=A&state=s", None, 0).unwrap().1, None);
    assert_eq!(parse_token_at("x#state=s", None, 0).unwrap_err(), "No access_token in fragment");
    assert_eq!(parse_token_at("x#access_token=A&expires_in=soon", None, 0).unwrap().0.expires_in, 3600);
    assert_eq!(parse_token_at("x#access_token=A#rest&user_id=u", None, 0).unwrap().0.user_id, None);
}

#[test]
fn token_responses() {
    let ok = obj(vec![("access_token", s("A")), ("expires_in", Json::Number(JsonNumber::PosInt(60)))]);
    let t = exchange_result(&ok, "https://t", 9).unwrap();
    assert_eq!((t.access_token.as_str(), t.expires_in, t.received_at), ("A", 60, 9));
    let refused = obj(vec![("error", s("invalid_grant")), ("error_description", s("bad code"))]);
    assert_eq!(
        exchange_result(&refused, "https://t", 0).unwrap_err(),
        "OAuth exchange failed: invalid_grant (bad code) at https://t"
    );
    assert_eq!(exchange_result(&obj(vec![]), "u", 0).unwrap_err(), "No access_token in token response");
    assert_eq!(proxy_result(&obj(vec![]), 0).unwrap_err(), "No access_token in auth-proxy response");
    let r = refresh_result(&obj(vec![("access_token", s("N"))]), "old", "e".into(), 1).unwrap();
    assert_eq!(r.refresh_token.as_deref(), Some("old"));
    assert_eq!(r.expires_in, 3600);
    assert_eq!(refresh_result(&obj(vec![]), "old", "last".into(), 1).unwrap_err(), "last");
    assert_eq!(
        refresh_result(&obj(vec![("error", s("x"))]), "old", "last".into(), 1).unwrap_err(),
        "Refresh failed: x (unknown error)"
    );
    assert_eq!(
        refresh_result(&obj(vec![("access_token", Json::Null)]), "o", "l".into(), 1).unwrap_err(),
        "No access_token in refresh response"
    );
}

#[test]
fn exchange_forms_and_header() {
    let f = exchange_form(" c ", "id", "dev", Some("r"), Some("sec"));
    let keys: Vec<&str> = f.iter().map(|(k, _)| k.as_str()).collect();
    assert_eq!(keys, vec!["grant_type", "code", "client_id", "device_id", "device_name", "redirect_uri", "client_secret"]);
    assert_eq!(f[1].1, "c");
    assert_eq!(basic_form("c", None).len(), 2);
    assert_eq!(basic_authorization("id", "sec"), "Basic aWQ6c2Vj");
    assert_eq!(basic_authorization("a", "b"), "Basic YTpi");
}

#[test]
fn exchange_flow_falls_back_and_retries() {
    let (mut f, first) = ExchangeFlow::start(2, "https://one".into(), true, 5);
    assert!(matches!(first, ExchangeStep::Send(ExchangeRequest::Basic(0))));
    let refused = obj(vec![("error", s("invalid_client")), ("error_description", s("no basic"))]);
    let next = f.on_reply(ExchangeRequest::Basic(0), TokenReply::Body(refused));
    assert!(matches!(next, ExchangeStep::Send(ExchangeRequest::Form(0))));
    assert_eq!(f.last_error, "no basic");
    let bad = obj(vec![("error", s("invalid_grant"))]);
    let next = f.on_reply(ExchangeRequest::Form(0), TokenReply::Body(bad));
    assert!(matches!(next, ExchangeStep::Send(ExchangeRequest::Basic(1))));
    assert_eq!(f.last_error, "oauth exchange error");
    let next = f.on_reply(ExchangeRequest::Basic(1), TokenReply::Unsent("down".into()));
    match next {
        ExchangeStep::Finished(Err(e)) => {
            assert_eq!(e, "OAuth exchange failed: invalid_grant (unknown error) at https://one")
        }
        other => panic!("expected the kept refusal, got {other:?}"),
    }
    let (mut g, _) = ExchangeFlow::start(1, "u".into(), false, 5);
    match g.on_reply(ExchangeRequest::Form(0), TokenReply::Body(obj(vec![("access_token", s("T"))]))) {
        ExchangeStep::Finished(Ok(t)) => assert_eq!(t.access_token, "T"),
        other => panic!("expected a token, got {other:?}"),
    }
    let (_, none) = ExchangeFlow::start(0, "u".into(), false, 5);
    assert!(matches!(none, ExchangeStep::Finished(Err(e)) if e == "unknown oauth exchange error"));
}

#[test]
fn user_profile() {
    let info = obj(vec![
        ("id", s("42")),
        ("login", s("bob")),
        ("real_name", s("  ")),
        ("first_name", s("Bob")),
        ("last_name", s("Lee")),
        ("default_avatar_id", s("123")),
        ("default_phone", obj(vec![("number", s("+7"))])),
        ("is_bot", Json::Bool(true)),
    ]);
    let u = user_from_info(&info).unwrap();
    assert_eq!(u.id, "42");
    assert_eq!(u.display_name.as_deref(), Some("Bob Lee"));
    assert_eq!(u.avatar_id.as_deref(), Some("user_avatar/yapic/123"));
    assert_eq!(u.phone.as_deref(), Some("+7"));
    assert!(u.is_bot && !u.is_premium);
    assert_eq!(u.email.as_deref(), Some("bob"));
    assert_eq!(profile_name(&u).as_deref(), Some("Bob Lee"));
    let numeric = obj(vec![("uid", s("7")), ("default_avatar_id", Json::Number(JsonNumber::PosInt(9)))]);
    let n = user_from_info(&numeric).unwrap();
    assert_eq!(n.avatar_id.as_deref(), Some("user_avatar/yapic/9"));
    assert_eq!(n.display_name, None);
    assert_eq!(user_from_info(&obj(vec![])).unwrap_err(), "No id in user info response");
}

#[test]
fn refresh_flow_tries_next_endpoint_after_refusal() {
    let (mut flow, step) = RefreshFlow::start(2, "old".to_string(), 50);
    assert!(matches!(step, RefreshStep::Send(0)));
    let refused = obj(vec![("error", s("invalid_grant")), ("error_description", s("expired"))]);
    let step = flow.on_reply(0, TokenReply::Body(refused));
    assert!(matches!(step, RefreshStep::Send(1)));
    assert_eq!(flow.last_error, "Refresh failed: invalid_grant (expired)");
    let ok = obj(vec![("access_token", s("NEW"))]);
    match flow.on_reply(1, TokenReply::Body(ok)) {
        RefreshStep::Finished(Ok(t)) => {
            assert_eq!(t.access_token, "NEW");
            assert_eq!(t.refresh_token.as_deref(), Some("old"));
            assert_eq!(t.expires_in, 3600);
            assert_eq!(t.received_at, 50);
        }
        other => panic!("unexpected {:?}", other),
    }
}

#[test]
fn refresh_flow_reports_last_error_when_all_fail() {
    let (mut flow, _) = RefreshFlow::start(1, "old".to_string(), 50);
    match flow.on_reply(0, TokenReply::Unsent("timeout".to_string())) {
        RefreshStep::Finished(Err(e)) => assert_eq!(e, "Refresh request failed: timeout"),
        other => panic!("unexpected {:?}", other),
    }
    let (_, step) = RefreshFlow::start(0, "old".to_string(), 50);
    match step {
        RefreshStep::Finished(Err(e)) => assert_eq!(e, "unknown refresh error"),
        other => panic!("unexpected {:?}", other),
    }
}

#[test]
fn signed_in_only_with_a_live_token_and_no_forced_login() {
    let t = token(1000, 3600);
    assert!(authenticated_at(false, Some(&t), 1000));
    assert!(!authenticated_at(true, Some(&t), 1000));
    assert!(!authenticated_at(false, Some(&t), 4300));
    assert!(!authenticated_at(false, None, 0));
}

#[test]
fn session_check_statuses() {
    assert_eq!(session_verdict(200), SessionVerdict::Valid);
    assert_eq!(session_verdict(401), SessionVerdict::Revoked);
    assert_eq!(session_verdict(403), SessionVerdict::Revoked);
    assert_eq!(session_verdict(500), SessionVerdict::Failed);
    assert_eq!(revoked_message(), "Session invalidated: token revoked or expired");
}

#[test]
fn stored_token_lifetimes() {
    let tr = TokenResponse { access_token: "a".into(), refresh_token: "r".into(), expires_in: 3600 };
    let ts = store_from(tr, 1000);
    assert_eq!(ts.expires_at, 4600);
    assert_eq!(response_from(&ts, 1000).expires_in, 3600);
    assert_eq!(response_from(&ts, 4000).expires_in, 600);
    assert!(!needs_refresh(&ts, 4539));
    assert!(needs_refresh(&ts, 4540));
    assert_eq!(ymessenger::token_store::login_url("https://api.example"), "https://api.example/auth/login");
    assert_eq!(refresh_url("https://api.example"), "https://api.example/auth/refresh");
}
