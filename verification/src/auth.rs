//! OAuth: tokens and their expiry, the authorization URL, the token in the
//! redirect fragment, the token and profile responses, and the settings
//! that the environment may override. Requests, files and the environment
//! itself are the caller's part.

use vstd::prelude::*;
use vstd::utf8::encode_utf8;

use crate::config;
use crate::goloom::{is_uuid_v4_text, new_uid};
use crate::json::{self, Json, JsonNumber};
use crate::text::{self, all_ws, opt_str, parse_u64_spec, trimmed};

verus! {

// ── errors and tokens ───────────────────────────────────────────────

/// Authentication errors.
#[derive(Clone, Debug, PartialEq)]
pub enum AuthError {
    /// The user has not authenticated.
    NotFound,
    /// The access token has expired.
    Expired,
    RefreshFailed(String),
    HttpError(String),
    ParseError(String),
}

pub open spec fn auth_error_text(e: AuthError) -> Seq<char> {
    match e {
        AuthError::NotFound => "Token not found"@,
        AuthError::Expired => "Token expired"@,
        AuthError::RefreshFailed(m) => "Token refresh failed: "@ + m@,
        AuthError::HttpError(m) => "HTTP error: "@ + m@,
        AuthError::ParseError(m) => "Parse error: "@ + m@,
    }
}

impl AuthError {
    /// The error as shown to the user.
    pub fn message(&self) -> (s: String)
        ensures
            s@ == auth_error_text(*self),
    {
        match self {
            AuthError::NotFound => "Token not found".to_owned(),
            AuthError::Expired => "Token expired".to_owned(),
            AuthError::RefreshFailed(m) => {
                let mut s = "Token refresh failed: ".to_owned();
                s.append(m.as_str());
                s
            },
            AuthError::HttpError(m) => {
                let mut s = "HTTP error: ".to_owned();
                s.append(m.as_str());
                s
            },
            AuthError::ParseError(m) => {
                let mut s = "Parse error: ".to_owned();
                s.append(m.as_str());
                s
            },
        }
    }
}

/// An OAuth token with the time it was received.
#[derive(Clone, Debug, PartialEq)]
pub struct OAuthToken {
    pub access_token: String,
    pub refresh_token: Option<String>,
    /// Lifetime in seconds.
    pub expires_in: u64,
    pub token_type: String,
    pub user_id: Option<String>,
    /// Unix seconds when the token was received; 0 for tokens stored
    /// before this was recorded.
    pub received_at: u64,
}

/// Login credentials.
#[derive(Clone, Debug, PartialEq)]
pub struct Credentials {
    pub username: String,
    pub password: String,
}

/// Seconds of slack: a token counts as expired this long before it is.
pub const EXPIRY_MARGIN_SECS: u64 = 300;

impl OAuthToken {
    /// The expiry time can be computed: no overflow, and at least the
    /// margin (a legacy token, with no receive time, always can).
    pub open spec fn expiry_computable(self) -> bool {
        self.received_at == 0 || 300 <= self.received_at + self.expires_in <= u64::MAX
    }

    /// Expired at `now`, five minutes early: a legacy token when its
    /// lifetime is at most five minutes, another one from five minutes
    /// before `received_at + expires_in`.
    pub open spec fn expired_at(self, now: u64) -> bool {
        if self.received_at == 0 {
            self.expires_in <= 300
        } else {
            now >= self.received_at + self.expires_in - 300
        }
    }

    pub fn is_expired_at(&self, now: u64) -> (b: bool)
        requires
            self.expiry_computable(),
        ensures
            b == self.expired_at(now),
    {
        if self.received_at == 0 {
            self.expires_in <= EXPIRY_MARGIN_SECS
        } else {
            let expiry = self.received_at + self.expires_in;
            now >= expiry - EXPIRY_MARGIN_SECS
        }
    }

    /// Whether the token counts as expired now, by the system clock.
    pub fn is_expired(&self) -> (b: bool)
        requires
            self.expiry_computable(),
        ensures
            self.received_at == 0 ==> b == (self.expires_in <= 300),
            exists|now: u64| b == #[trigger] self.expired_at(now),
    {
        let now = crate::clock::unix_now_secs();
        self.is_expired_at(now)
    }

    /// `Authorization` header value.
    pub fn oauth_header(&self) -> (h: String)
        ensures
            h@ == "OAuth "@ + self.access_token@,
    {
        let mut h = "OAuth ".to_owned();
        h.append(self.access_token.as_str());
        h
    }
}

/// Seconds left before the token counts as expired at `now`.
pub open spec fn seconds_left(t: OAuthToken, now: u64) -> u64 {
    if t.received_at == 0 {
        if t.expires_in <= 300 {
            0
        } else {
            (t.expires_in - 300) as u64
        }
    } else if now >= t.received_at + t.expires_in {
        0
    } else {
        (t.received_at + t.expires_in - now) as u64
    }
}

pub fn time_until_expiry_at(t: &OAuthToken, now: u64) -> (r: Option<u64>)
    requires
        t.received_at + t.expires_in <= u64::MAX,
    ensures
        r == Some(seconds_left(*t, now)),
{
    if t.received_at == 0 {
        if t.expires_in <= EXPIRY_MARGIN_SECS {
            return Some(0);
        }
        return Some(t.expires_in - EXPIRY_MARGIN_SECS);
    }
    let expiry = t.received_at + t.expires_in;
    if now >= expiry {
        Some(0)
    } else {
        Some(expiry - now)
    }
}

/// Seconds until the token expires, by the system clock.
pub fn time_until_expiry_for(t: &OAuthToken) -> (r: Option<u64>)
    requires
        t.received_at + t.expires_in <= u64::MAX,
    ensures
        exists|now: u64| r == Some(#[trigger] seconds_left(*t, now)),
{
    let now = crate::clock::unix_now_secs();
    time_until_expiry_at(t, now)
}

// ── settings ────────────────────────────────────────────────────────

/// `s` without trailing `/`.
pub open spec fn without_trailing_slashes(s: Seq<char>) -> Seq<char>
    decreases s.len(),
{
    if s.len() > 0 && s.last() == '/' {
        without_trailing_slashes(s.drop_last())
    } else {
        s
    }
}

pub(crate) fn strip_trailing_slashes(s: &str) -> (r: String)
    ensures
        r@ == without_trailing_slashes(s@),
{
    let v = text::chars_of(s);
    let mut n = v.len();
    assert(v@.take(n as int) =~= v@);
    while n > 0 && v[n - 1] == '/'
        invariant
            n <= v@.len(),
            v@ == s@,
            without_trailing_slashes(s@) == without_trailing_slashes(v@.take(n as int)),
        decreases n,
    {
        assert(v@.take(n as int).drop_last() =~= v@.take(n - 1));
        n = n - 1;
    }
    assert(n > 0 ==> v@.take(n as int).last() == v@[n - 1]);
    let r = text::string_from_range(&v, 0, n);
    assert(r@ =~= v@.take(n as int));
    r
}

/// A setting from the environment: its trimmed value when that is not empty.
pub open spec fn env_value(v: Option<Seq<char>>) -> Option<Seq<char>> {
    match v {
        Some(s) => if trimmed(s).len() > 0 {
            Some(trimmed(s))
        } else {
            None
        },
        None => None,
    }
}

fn env_setting(v: Option<&str>) -> (r: Option<String>)
    ensures
        opt_str(r) == env_value(crate::goloom::opt_view(v)),
{
    match v {
        Some(s) => {
            let t = text::trim(s);
            if t.as_str().is_empty() {
                None
            } else {
                Some(t)
            }
        },
        None => None,
    }
}

/// Where the OAuth flow goes; each field may be overridden from the
/// environment.
#[derive(Clone, Debug)]
pub struct AuthSettings {
    pub client_id: String,
    pub redirect_uri: Option<String>,
    /// Base URL of an auth proxy that does the code exchange.
    pub auth_proxy_url: Option<String>,
    pub authorize_url: String,
    /// Token endpoints, tried in order.
    pub token_urls: Vec<String>,
}

pub open spec fn or_default(v: Option<Seq<char>>, d: Seq<char>) -> Seq<char> {
    match v {
        Some(s) => s,
        None => d,
    }
}

/// Token endpoints: the overriding one or the default; a `.com` endpoint is
/// followed by the `.ru` one.
pub open spec fn token_urls_for(custom: Option<Seq<char>>) -> Seq<Seq<char>> {
    let first = or_default(env_value(custom), config::OAUTH_TOKEN_URL@);
    if text::occurs_in(first, "oauth.yandex.com"@) {
        seq![first, "https://oauth.yandex.ru/token"@]
    } else {
        seq![first]
    }
}

/// What `YANDEX_AUTH_PROXY_URL` gives: trimmed, without trailing `/`, if
/// anything is left.
pub open spec fn proxy_value(v: Option<Seq<char>>) -> Option<Seq<char>> {
    match v {
        Some(s) => if without_trailing_slashes(trimmed(s)).len() > 0 {
            Some(without_trailing_slashes(trimmed(s)))
        } else {
            None
        },
        None => None,
    }
}

impl AuthSettings {
    /// Settings from the environment values of `YANDEX_CLIENT_ID`,
    /// `YANDEX_REDIRECT_URI`, `YANDEX_AUTH_PROXY_URL`,
    /// `YANDEX_OAUTH_AUTHORIZE_URL` and `YANDEX_OAUTH_TOKEN_URL`, with the
    /// built-in values where one is unset or blank.
    pub fn from_env(
        client_id: Option<&str>,
        redirect_uri: Option<&str>,
        auth_proxy_url: Option<&str>,
        authorize_url: Option<&str>,
        token_url: Option<&str>,
    ) -> (s: Self)
        ensures
            s.client_id@ == or_default(env_value(crate::goloom::opt_view(client_id)), config::OAUTH_CLIENT_ID@),
            opt_str(s.redirect_uri) == match env_value(crate::goloom::opt_view(redirect_uri)) {
                Some(r) => Some(r),
                None => env_value(Some(config::REDIRECT_URI@)),
            },
            opt_str(s.auth_proxy_url) == proxy_value(crate::goloom::opt_view(auth_proxy_url)),
            s.authorize_url@ == or_default(env_value(crate::goloom::opt_view(authorize_url)), config::OAUTH_AUTHORIZE_URL@),
            s.token_urls@.len() == token_urls_for(crate::goloom::opt_view(token_url)).len(),
            forall|i: int| 0 <= i < s.token_urls@.len() ==> #[trigger] s.token_urls@[i]@ == token_urls_for(crate::goloom::opt_view(token_url))[i],
    {
        let client = match env_setting(client_id) {
            Some(c) => c,
            None => config::OAUTH_CLIENT_ID.to_owned(),
        };
        let redirect = match env_setting(redirect_uri) {
            Some(r) => Some(r),
            None => env_setting(Some(config::REDIRECT_URI)),
        };
        let proxy = match auth_proxy_url {
            Some(p) => {
                let t = text::trim(p);
                let stripped = strip_trailing_slashes(t.as_str());
                if stripped.as_str().is_empty() {
                    None
                } else {
                    Some(stripped)
                }
            },
            None => None,
        };
        let authorize = match env_setting(authorize_url) {
            Some(a) => a,
            None => config::OAUTH_AUTHORIZE_URL.to_owned(),
        };
        let first = match env_setting(token_url) {
            Some(u) => u,
            None => config::OAUTH_TOKEN_URL.to_owned(),
        };
        let mut urls: Vec<String> = Vec::new();
        let dotcom = text::contains_text(first.as_str(), "oauth.yandex.com");
        urls.push(first);
        if dotcom {
            urls.push("https://oauth.yandex.ru/token".to_owned());
        }
        AuthSettings {
            client_id: client,
            redirect_uri: redirect,
            auth_proxy_url: proxy,
            authorize_url: authorize,
            token_urls: urls,
        }
    }
}

/// `YANDEX_FORCE_AUTH` forces a new login when it is `1`, `true` or `yes`
/// (the words in any case).
pub open spec fn force_auth_value(v: Option<Seq<char>>) -> bool {
    match v {
        Some(s) => s == "1"@ || text::lower_ascii(s) == "true"@ || text::lower_ascii(s) == "yes"@,
        None => false,
    }
}

pub fn force_auth(v: Option<&str>) -> (b: bool)
    ensures
        b == force_auth_value(crate::goloom::opt_view(v)),
{
    match v {
        Some(s) => {
            let l = text::to_lower_ascii(s);
            text::str_is(s, "1") || text::str_is(l.as_str(), "true") || text::str_is(l.as_str(), "yes")
        },
        None => false,
    }
}

/// The device id: the stored one, trimmed, when there is one; otherwise a
/// fresh random one, which the caller stores (the flag says so).
pub fn device_id(stored: Option<&str>) -> (r: (String, bool))
    ensures
        match env_value(crate::goloom::opt_view(stored)) {
            Some(d) => r.0@ == d && !r.1,
            None => is_uuid_v4_text(r.0@) && r.1,
        },
{
    match env_setting(stored) {
        Some(d) => (d, false),
        None => (new_uid(), true),
    }
}

// ── the authorization URL ───────────────────────────────────────────

/// A byte that `urlencoding::encode` leaves as it is.
pub open spec fn is_unreserved(b: u8) -> bool {
    (0x30 <= b <= 0x39) || (0x41 <= b <= 0x5a) || (0x61 <= b <= 0x7a) || b == 0x2d || b == 0x2e
        || b == 0x5f || b == 0x7e
}

/// Upper-case hex digit.
pub open spec fn hex_upper(d: u8) -> char {
    if d < 10 {
        (0x30 + d) as char
    } else {
        (0x41 + d - 10) as char
    }
}

/// Percent-encoding of bytes: unreserved bytes stay, every other byte
/// becomes `%` and two upper-case hex digits.
pub open spec fn percent_encoded(bytes: Seq<u8>) -> Seq<char>
    decreases bytes.len(),
{
    if bytes.len() == 0 {
        Seq::empty()
    } else {
        let b = bytes.last();
        percent_encoded(bytes.drop_last()) + if is_unreserved(b) {
            seq![b as char]
        } else {
            seq!['%', hex_upper(b / 16), hex_upper(b % 16)]
        }
    }
}

/// `urlencoding::encode`: percent-encodes every byte of the UTF-8 text
/// except ASCII letters, digits and `-`, `.`, `_`, `~`.
#[verifier::external_body]
pub(crate) fn url_encode(s: &str) -> (r: String)
    ensures
        r@ == percent_encoded(encode_utf8(s@)),
{
    urlencoding::encode(s).into_owned()
}

/// Query of the authorization URL.
pub open spec fn code_url_query(client_id: Seq<char>, state: Seq<char>, device_id: Seq<char>, redirect_uri: Option<Seq<char>>) -> Seq<char> {
    let base = "response_type=token&client_id="@ + percent_encoded(encode_utf8(client_id))
        + "&state="@ + percent_encoded(encode_utf8(state)) + "&device_id="@ + percent_encoded(
        encode_utf8(device_id),
    ) + "&device_name="@ + percent_encoded(encode_utf8("Yandex Messenger Native"@))
        + "&force_confirm=yes"@;
    match redirect_uri {
        Some(r) => base + "&redirect_uri="@ + percent_encoded(encode_utf8(r)),
        None => base,
    }
}

/// The URL that starts the login: the proxy's `/oauth/start` when a proxy
/// is set, otherwise the authorization endpoint with the token flow query.
pub open spec fn code_url(s: AuthSettings, device_id: Seq<char>, state: Seq<char>) -> Seq<char> {
    match s.auth_proxy_url {
        Some(p) => p@ + "/oauth/start"@,
        None => s.authorize_url@ + "?"@ + code_url_query(
            s.client_id@,
            state,
            device_id,
            opt_str(s.redirect_uri),
        ),
    }
}

pub fn auth_code_url_with_state(s: &AuthSettings, device_id: &str, state: &str) -> (u: String)
    ensures
        u@ == code_url(*s, device_id@, state@),
{
    match &s.auth_proxy_url {
        Some(p) => {
            let mut u = p.clone();
            u.append("/oauth/start");
            u
        },
        None => {
            let mut u = s.authorize_url.clone();
            u.append("?");
            u.append("response_type=token&client_id=");
            u.append(url_encode(s.client_id.as_str()).as_str());
            u.append("&state=");
            u.append(url_encode(state).as_str());
            u.append("&device_id=");
            u.append(url_encode(device_id).as_str());
            u.append("&device_name=");
            u.append(url_encode("Yandex Messenger Native").as_str());
            u.append("&force_confirm=yes");
            match &s.redirect_uri {
                Some(r) => {
                    u.append("&redirect_uri=");
                    u.append(url_encode(r.as_str()).as_str());
                },
                None => {},
            }
            proof {
                assert(u@ =~= code_url(*s, device_id@, state@));
            }
            u
        },
    }
}

/// The login URL with a fresh random `state`.
pub fn auth_code_url(s: &AuthSettings, device_id: &str) -> (u: String)
    ensures
        exists|state: Seq<char>| is_uuid_v4_text(state) && u@ == #[trigger] code_url(*s, device_id@, state),
{
    let state = new_uid();
    auth_code_url_with_state(s, device_id, state.as_str())
}


// ── the token in the redirect fragment ──────────────────────────────

/// The URL fragment: the text after the first `#`, up to a second `#`.
pub open spec fn fragment_of(url: Seq<char>) -> Option<Seq<char>> {
    match text::after_char(url, '#') {
        Some(rest) => Some(text::before_char(rest, '#')),
        None => None,
    }
}

/// Value of the first `key=value` pair named `key` in an `&`-separated
/// list (pairs without `=` are skipped).
pub open spec fn param_value(frag: Seq<char>, key: Seq<char>) -> Option<Seq<char>>
    decreases frag.len(),
{
    let piece = text::before_char(frag, '&');
    let here = match text::after_char(piece, '=') {
        Some(v) => if text::before_char(piece, '=') == key {
            Some(v)
        } else {
            None
        },
        None => None,
    };
    match here {
        Some(v) => Some(v),
        None => match text::after_char(frag, '&') {
            Some(rest) => {
                proof {
                    text::lemma_after_char_shorter(frag, '&');
                }
                param_value(rest, key)
            },
            None => None,
        },
    }
}

/// Why a redirect URL holds no usable token, if it does not: no fragment;
/// a `state` other than the expected one; no `state` when a non-blank one
/// is expected; no `access_token`.
pub open spec fn fragment_error(url: Seq<char>, expected_state: Option<Seq<char>>) -> Option<Seq<char>> {
    match fragment_of(url) {
        None => Some("No fragment in URL"@),
        Some(frag) => {
            let state_error = match expected_state {
                Some(e) => match param_value(frag, "state"@) {
                    Some(a) => if a != e {
                        Some("OAuth state mismatch: expected="@ + e + ", got="@ + a)
                    } else {
                        None
                    },
                    None => if all_ws(e) {
                        None
                    } else {
                        Some("OAuth state parameter missing (possible CSRF)"@)
                    },
                },
                None => None,
            };
            match state_error {
                Some(m) => Some(m),
                None => if param_value(frag, "access_token"@) is None {
                    Some("No access_token in fragment"@)
                } else {
                    None
                },
            }
        },
    }
}

/// `expires_in` of the fragment, or an hour when it is missing or not a
/// number.
pub open spec fn fragment_expires_in(frag: Seq<char>) -> u64 {
    match param_value(frag, "expires_in"@) {
        Some(v) => match parse_u64_spec(v) {
            Some(n) => n,
            None => 3600,
        },
        None => 3600,
    }
}

/// The token a redirect fragment carries, received at `now`.
pub open spec fn fragment_token(t: OAuthToken, frag: Seq<char>, now: u64) -> bool {
    &&& Some(t.access_token@) == param_value(frag, "access_token"@)
    &&& opt_str(t.refresh_token) == param_value(frag, "refresh_token"@)
    &&& t.expires_in == fragment_expires_in(frag)
    &&& t.token_type@ == "Bearer"@
    &&& opt_str(t.user_id) == param_value(frag, "user_id"@)
    &&& t.received_at == now
}

fn find_param(frag: &Vec<char>, key: &str) -> (r: Option<String>)
    ensures
        opt_str(r) == param_value(frag@, key@),
{
    let mut rest: Vec<char> = frag.clone();
    assert(rest@ == frag@);
    loop
        invariant
            param_value(frag@, key@) == param_value(rest@, key@),
        decreases rest@.len(),
    {
        let (piece, after) = text::split_once_char(&rest, '&');
        let (name, value) = text::split_once_char(&piece, '=');
        match value {
            Some(v) => {
                let n = text::string_from_chars(&name);
                if text::str_is(n.as_str(), key) {
                    return Some(text::string_from_chars(&v));
                }
            },
            None => {},
        }
        match after {
            Some(a) => {
                proof {
                    text::lemma_after_char_shorter(rest@, '&');
                }
                rest = a;
            },
            None => {
                return None;
            },
        }
    }
}

/// The state that was checked: the fragment's `state` when one was
/// expected and the fragment carries one (it then equals the expected one).
pub open spec fn validated_state(frag: Seq<char>, expected_state: Option<Seq<char>>) -> Option<Seq<char>> {
    match expected_state {
        Some(_) => param_value(frag, "state"@),
        None => None,
    }
}

/// The token in the fragment of a redirect URL, received at `now`,
/// checking `state` when one is expected; with it, the validated state.
pub fn parse_token_at(url: &str, expected_state: Option<&str>, now: u64) -> (r: Result<(OAuthToken, Option<String>), String>)
    ensures
        match r {
            Ok((t, st)) => fragment_error(url@, crate::goloom::opt_view(expected_state)) is None
                && fragment_token(t, fragment_of(url@)->0, now)
                && opt_str(st) == validated_state(fragment_of(url@)->0, crate::goloom::opt_view(expected_state)),
            Err(e) => fragment_error(url@, crate::goloom::opt_view(expected_state)) == Some(e@),
        },
{
    let chars = text::chars_of(url);
    let (_, after_hash) = text::split_once_char(&chars, '#');
    let frag = match after_hash {
        Some(rest) => text::split_once_char(&rest, '#').0,
        None => {
            return Err("No fragment in URL".to_owned());
        },
    };
    let validated: Option<String> = match expected_state {
        Some(expected) => match find_param(&frag, "state") {
            Some(actual) => {
                if !text::str_is(actual.as_str(), expected) {
                    let mut m = "OAuth state mismatch: expected=".to_owned();
                    m.append(expected);
                    m.append(", got=");
                    m.append(actual.as_str());
                    return Err(m);
                }
                Some(actual)
            },
            None => {
                if !text::is_blank(expected) {
                    return Err("OAuth state parameter missing (possible CSRF)".to_owned());
                }
                None
            },
        },
        None => None,
    };
    let access_token = match find_param(&frag, "access_token") {
        Some(a) => a,
        None => {
            return Err("No access_token in fragment".to_owned());
        },
    };
    let expires_in = match find_param(&frag, "expires_in") {
        Some(v) => {
            let digits = text::chars_of(v.as_str());
            match text::parse_u64(&digits) {
                Some(n) => n,
                None => 3600,
            }
        },
        None => 3600,
    };
    let user_id = find_param(&frag, "user_id");
    let refresh_token = find_param(&frag, "refresh_token");
    Ok(
        (
            OAuthToken {
                access_token,
                refresh_token,
                expires_in,
                token_type: "Bearer".to_owned(),
                user_id,
                received_at: now,
            },
            validated,
        ),
    )
}

/// The token in the fragment of a redirect URL, received now by the system
/// clock, checking `state` when one is expected; with it, the validated
/// state.
pub fn parse_token_from_url(url: &str, expected_state: Option<&str>) -> (r: Result<(OAuthToken, Option<String>), String>)
    ensures
        match r {
            Ok((t, st)) => fragment_error(url@, crate::goloom::opt_view(expected_state)) is None
                && (exists|now: u64| #[trigger] fragment_token(t, fragment_of(url@)->0, now))
                && opt_str(st) == validated_state(fragment_of(url@)->0, crate::goloom::opt_view(expected_state)),
            Err(e) => fragment_error(url@, crate::goloom::opt_view(expected_state)) == Some(e@),
        },
{
    let now = crate::clock::unix_now_secs();
    parse_token_at(url, expected_state, now)
}


// ── token responses ─────────────────────────────────────────────────

/// The token a JSON token response describes, received at `now`: its
/// `access_token`, `refresh_token`, `expires_in` (an hour by default) and
/// `user_id`.
pub open spec fn response_token(t: OAuthToken, j: Json, now: u64) -> bool {
    &&& Some(t.access_token@) == json::str_field(j, "access_token"@)
    &&& opt_str(t.refresh_token) == json::str_field(j, "refresh_token"@)
    &&& t.expires_in == match json::u64_field(j, "expires_in"@) {
        Some(n) => n,
        None => 3600,
    }
    &&& t.token_type@ == "Bearer"@
    &&& opt_str(t.user_id) == json::str_field(j, "user_id"@)
    &&& t.received_at == now
}

/// A token read from a token response carries the response's strings as
/// they are: its `access_token`; its `refresh_token` exactly when the
/// response holds one as a string, else none; likewise its `user_id`;
/// an `expires_in` that is a non-negative integer, else an hour; and the
/// type `Bearer`, received at `now`. This holds of the code exchange's
/// and the auth proxy's token alike.
pub proof fn response_token_carries_fields(t: OAuthToken, j: Json, now: u64)
    requires
        response_token(t, j, now),
    ensures
        j.field("access_token"@) matches Some(Json::Str(a)) && a@ == t.access_token@,
        j.field("refresh_token"@) matches Some(Json::Str(r)) ==> (t.refresh_token matches Some(x) && x@ == r@),
        !(j.field("refresh_token"@) matches Some(Json::Str(_))) ==> t.refresh_token is None,
        j.field("user_id"@) matches Some(Json::Str(u)) ==> (t.user_id matches Some(x) && x@ == u@),
        !(j.field("user_id"@) matches Some(Json::Str(_))) ==> t.user_id is None,
        j.field("expires_in"@) matches Some(Json::Number(JsonNumber::PosInt(n))) ==> t.expires_in == n,
        !(j.field("expires_in"@) matches Some(Json::Number(JsonNumber::PosInt(_)))) ==> t.expires_in == 3600,
        t.token_type@ == "Bearer"@,
        t.received_at == now,
{
}

fn token_from(j: &Json, access_token: String, now: u64) -> (t: OAuthToken)
    requires
        json::str_field(*j, "access_token"@) == Some(access_token@),
    ensures
        response_token(t, *j, now),
{
    OAuthToken {
        access_token,
        refresh_token: json::get_str(j, "refresh_token"),
        expires_in: match json::get_u64(j, "expires_in") {
            Some(n) => n,
            None => 3600,
        },
        token_type: "Bearer".to_owned(),
        user_id: json::get_str(j, "user_id"),
        received_at: now,
    }
}

/// `error_description`, or `default`.
pub open spec fn description_or(j: Json, default: Seq<char>) -> Seq<char> {
    or_default(json::str_field(j, "error_description"@), default)
}

fn description_or_default(j: &Json, default: &str) -> (s: String)
    ensures
        s@ == description_or(*j, default@),
{
    match json::get_str(j, "error_description") {
        Some(d) => d,
        None => default.to_owned(),
    }
}

/// The final token response of a code exchange: an `error` is reported
/// with its description and the first token endpoint; otherwise the
/// response must carry an `access_token`.
pub open spec fn exchange_outcome_ok(j: Json, first_url: Seq<char>) -> Result<(), Seq<char>> {
    match json::str_field(j, "error"@) {
        Some(err) => Err(
            "OAuth exchange failed: "@ + err + " ("@ + description_or(j, "unknown error"@) + ") at "@
                + first_url,
        ),
        None => if json::str_field(j, "access_token"@) is None {
            Err("No access_token in token response"@)
        } else {
            Ok(())
        },
    }
}

/// A code exchange's final answer fails exactly when it names an `error`
/// (the message then holds the error, its description and the endpoint)
/// or lacks a string `access_token`.
pub proof fn exchange_outcome_cases(j: Json, first_url: Seq<char>)
    ensures
        j.field("error"@) matches Some(Json::Str(e)) ==> exchange_outcome_ok(j, first_url) matches Err(m) && m
            == "OAuth exchange failed: "@ + e@ + " ("@ + (match j.field("error_description"@) {
            Some(Json::Str(d)) => d@,
            _ => "unknown error"@,
        }) + ") at "@ + first_url,
        !(j.field("error"@) matches Some(Json::Str(_))) ==> (exchange_outcome_ok(j, first_url) is Ok <==> j.field(
            "access_token"@,
        ) matches Some(Json::Str(_))),
        !(j.field("error"@) matches Some(Json::Str(_))) && !(j.field("access_token"@) matches Some(Json::Str(_)))
            ==> exchange_outcome_ok(j, first_url) == Err::<(), Seq<char>>("No access_token in token response"@),
{
}

pub fn exchange_result(j: &Json, first_url: &str, now: u64) -> (r: Result<OAuthToken, String>)
    ensures
        match r {
            Ok(t) => exchange_outcome_ok(*j, first_url@) is Ok && response_token(t, *j, now),
            Err(e) => exchange_outcome_ok(*j, first_url@) == Err::<(), Seq<char>>(e@),
        },
{
    match json::get_str(j, "error") {
        Some(err) => {
            let mut m = "OAuth exchange failed: ".to_owned();
            m.append(err.as_str());
            m.append(" (");
            m.append(description_or_default(j, "unknown error").as_str());
            m.append(") at ");
            m.append(first_url);
            return Err(m);
        },
        None => {},
    }
    match json::get_str(j, "access_token") {
        Some(a) => Ok(token_from(j, a, now)),
        None => Err("No access_token in token response".to_owned()),
    }
}

/// The token an auth proxy returned.
pub fn proxy_result(j: &Json, now: u64) -> (r: Result<OAuthToken, String>)
    ensures
        match r {
            Ok(t) => response_token(t, *j, now),
            Err(e) => json::str_field(*j, "access_token"@) is None && e@
                == "No access_token in auth-proxy response"@,
        },
{
    match json::get_str(j, "access_token") {
        Some(a) => Ok(token_from(j, a, now)),
        None => Err("No access_token in auth-proxy response".to_owned()),
    }
}

/// A refresh response: an `error` fails with its description; a response
/// without `access_token` fails with the last request error; the token
/// keeps the old refresh token unless a new one came.
pub open spec fn refreshed(j: Json, old_refresh: Seq<char>, last_error: Seq<char>, now: u64, r: Result<OAuthToken, String>) -> bool {
    match json::str_field(j, "error"@) {
        Some(err) => r matches Err(e) && e@ == "Refresh failed: "@ + err + " ("@ + description_or(
            j,
            "unknown error"@,
        ) + ")"@,
        None => if j.field("access_token"@) is None {
            r matches Err(e) && e@ == last_error
        } else if json::str_field(j, "access_token"@) is None {
            r matches Err(e) && e@ == "No access_token in refresh response"@
        } else {
            r matches Ok(t) && Some(t.access_token@) == json::str_field(j, "access_token"@)
                && opt_str(t.refresh_token) == Some(
                or_default(json::str_field(j, "refresh_token"@), old_refresh),
            ) && t.expires_in == (match json::u64_field(j, "expires_in"@) {
                Some(n) => n,
                None => 3600,
            }) && t.token_type@ == "Bearer"@ && opt_str(t.user_id) == json::str_field(
                j,
                "user_id"@,
            ) && t.received_at == now
        },
    }
}

pub fn refresh_result(j: &Json, old_refresh: &str, last_error: String, now: u64) -> (r: Result<OAuthToken, String>)
    ensures
        refreshed(*j, old_refresh@, last_error@, now, r),
{
    match json::get_str(j, "error") {
        Some(err) => {
            let mut m = "Refresh failed: ".to_owned();
            m.append(err.as_str());
            m.append(" (");
            m.append(description_or_default(j, "unknown error").as_str());
            m.append(")");
            return Err(m);
        },
        None => {},
    }
    if j.get("access_token").is_none() {
        return Err(last_error);
    }
    let access_token = match json::get_str(j, "access_token") {
        Some(a) => a,
        None => {
            return Err("No access_token in refresh response".to_owned());
        },
    };
    let refresh_token = match json::get_str(j, "refresh_token") {
        Some(n) => n,
        None => old_refresh.to_owned(),
    };
    Ok(OAuthToken {
        access_token,
        refresh_token: Some(refresh_token),
        expires_in: match json::get_u64(j, "expires_in") {
            Some(n) => n,
            None => 3600,
        },
        token_type: "Bearer".to_owned(),
        user_id: json::get_str(j, "user_id"),
        received_at: now,
    })
}


// ── the code exchange ───────────────────────────────────────────────

/// A character of the standard base64 alphabet.
pub open spec fn b64_char(v: nat) -> char {
    if v < 26 {
        (0x41 + v) as char
    } else if v < 52 {
        (0x61 + v - 26) as char
    } else if v < 62 {
        (0x30 + v - 52) as char
    } else if v == 62 {
        '+'
    } else {
        '/'
    }
}

/// Standard base64 with `=` padding: each 3 bytes become 4 characters of
/// 6 bits each; a last group of 1 or 2 bytes is padded.
pub open spec fn base64_of(b: Seq<u8>) -> Seq<char>
    decreases b.len(),
{
    if b.len() == 0 {
        Seq::empty()
    } else if b.len() == 1 {
        seq![b64_char(b[0] as nat / 4), b64_char((b[0] as nat % 4) * 16), '=', '=']
    } else if b.len() == 2 {
        seq![
            b64_char(b[0] as nat / 4),
            b64_char((b[0] as nat % 4) * 16 + b[1] as nat / 16),
            b64_char((b[1] as nat % 16) * 4),
            '=',
        ]
    } else {
        seq![
            b64_char(b[0] as nat / 4),
            b64_char((b[0] as nat % 4) * 16 + b[1] as nat / 16),
            b64_char((b[1] as nat % 16) * 4 + b[2] as nat / 64),
            b64_char(b[2] as nat % 64),
        ] + base64_of(b.skip(3))
    }
}

/// `base64::engine::general_purpose::STANDARD.encode`: standard alphabet
/// with padding. It panics when the encoded length overflows `usize`.
#[verifier::external_body]
pub(crate) fn base64_standard(bytes: &[u8]) -> (r: String)
    requires
        (bytes@.len() / 3) * 4 + (if bytes@.len() % 3 > 0 { 4int } else { 0int }) <= usize::MAX,
    ensures
        r@ == base64_of(bytes@),
{
    base64::Engine::encode(&base64::engine::general_purpose::STANDARD, bytes)
}

/// `Authorization` value for client credentials: `Basic` and the base64 of
/// `client_id:secret`.
pub fn basic_authorization(client_id: &str, secret: &str) -> (h: String)
    requires
        encode_utf8(client_id@ + ":"@ + secret@).len() <= usize::MAX / 2,
    ensures
        h@ == "Basic "@ + base64_of(encode_utf8(client_id@ + ":"@ + secret@)),
{
    let mut pair = client_id.to_owned();
    pair.append(":");
    pair.append(secret);
    let raw = pair.as_str().as_bytes();
    let mut h = "Basic ".to_owned();
    h.append(base64_standard(raw).as_str());
    h
}

fn pair(k: &str, v: String) -> (p: (String, String))
    ensures
        p.0@ == k@,
        p.1@ == v@,
{
    (k.to_owned(), v)
}

pub open spec fn pair_views(v: Seq<(String, String)>) -> Seq<(Seq<char>, Seq<char>)> {
    v.map_values(|p: (String, String)| (p.0@, p.1@))
}

/// Form of the code exchange request: grant, trimmed code, client and
/// device, then the redirect URI and the client secret when there are.
pub open spec fn exchange_form_of(code: Seq<char>, client_id: Seq<char>, device_id: Seq<char>, redirect: Option<Seq<char>>, secret: Option<Seq<char>>) -> Seq<(Seq<char>, Seq<char>)> {
    let base = seq![
        ("grant_type"@, "authorization_code"@),
        ("code"@, trimmed(code)),
        ("client_id"@, client_id),
        ("device_id"@, device_id),
        ("device_name"@, "Yandex Messenger Native"@),
    ];
    let with_redirect = match redirect {
        Some(r) => base.push(("redirect_uri"@, r)),
        None => base,
    };
    match secret {
        Some(s) => with_redirect.push(("client_secret"@, s)),
        None => with_redirect,
    }
}

pub fn exchange_form(code: &str, client_id: &str, device_id: &str, redirect: Option<&str>, secret: Option<&str>) -> (f: Vec<(String, String)>)
    ensures
        pair_views(f@) == exchange_form_of(code@, client_id@, device_id@, crate::goloom::opt_view(redirect), crate::goloom::opt_view(secret)),
{
    let mut f: Vec<(String, String)> = Vec::new();
    f.push(pair("grant_type", "authorization_code".to_owned()));
    f.push(pair("code", text::trim(code)));
    f.push(pair("client_id", client_id.to_owned()));
    f.push(pair("device_id", device_id.to_owned()));
    f.push(pair("device_name", "Yandex Messenger Native".to_owned()));
    match redirect {
        Some(r) => f.push(pair("redirect_uri", r.to_owned())),
        None => {},
    }
    match secret {
        Some(s) => f.push(pair("client_secret", s.to_owned())),
        None => {},
    }
    assert(pair_views(f@) =~= exchange_form_of(code@, client_id@, device_id@, crate::goloom::opt_view(redirect), crate::goloom::opt_view(secret)));
    f
}

/// Form of the request with client credentials in the header: grant,
/// trimmed code and the redirect URI when there is one.
pub open spec fn basic_form_of(code: Seq<char>, redirect: Option<Seq<char>>) -> Seq<(Seq<char>, Seq<char>)> {
    let base = seq![("grant_type"@, "authorization_code"@), ("code"@, trimmed(code))];
    match redirect {
        Some(r) => base.push(("redirect_uri"@, r)),
        None => base,
    }
}

pub fn basic_form(code: &str, redirect: Option<&str>) -> (f: Vec<(String, String)>)
    ensures
        pair_views(f@) == basic_form_of(code@, crate::goloom::opt_view(redirect)),
{
    let mut f: Vec<(String, String)> = Vec::new();
    f.push(pair("grant_type", "authorization_code".to_owned()));
    f.push(pair("code", text::trim(code)));
    match redirect {
        Some(r) => f.push(pair("redirect_uri", r.to_owned())),
        None => {},
    }
    assert(pair_views(f@) =~= basic_form_of(code@, crate::goloom::opt_view(redirect)));
    f
}

/// A request of the code exchange, to the token endpoint with this index.
#[derive(Clone, Copy, Debug, PartialEq, Eq)]
pub enum ExchangeRequest {
    /// Client credentials in a `Basic` header ([`basic_form`]).
    Basic(usize),
    /// Client credentials in the form ([`exchange_form`]).
    Form(usize),
}

/// What came back for a request.
#[derive(Debug)]
pub enum TokenReply {
    /// The request could not be sent.
    Unsent(String),
    /// The answer was not JSON.
    Unreadable(String),
    Body(Json),
}

/// What to do next.
#[derive(Debug)]
pub enum ExchangeStep {
    Send(ExchangeRequest),
    Finished(Result<OAuthToken, String>),
}

/// State of a code exchange over the token endpoints.
#[derive(Debug)]
pub struct ExchangeFlow {
    pub endpoints: usize,
    /// Named in the error of a refused exchange.
    pub first_url: String,
    /// A client secret is configured: each endpoint is first tried with a
    /// `Basic` header.
    pub with_secret: bool,
    pub last_error: String,
    /// The last refusal from a form request.
    pub last_json: Option<Json>,
    /// When the answer counts as received.
    pub now: u64,
}

/// The result once every endpoint has been tried.
pub open spec fn exhausted(f: ExchangeFlow, r: Result<OAuthToken, String>) -> bool {
    match f.last_json {
        Some(j) => match r {
            Ok(t) => exchange_outcome_ok(j, f.first_url@) is Ok && response_token(t, j, f.now),
            Err(e) => exchange_outcome_ok(j, f.first_url@) == Err::<(), Seq<char>>(e@),
        },
        None => r matches Err(e) && e@ == f.last_error@,
    }
}

/// The first request to endpoint `i`.
pub open spec fn opening(f: ExchangeFlow, i: usize) -> ExchangeRequest {
    if f.with_secret {
        ExchangeRequest::Basic(i)
    } else {
        ExchangeRequest::Form(i)
    }
}

/// Moving past endpoint `i`: the next one, or the end.
pub open spec fn moved_past(f: ExchangeFlow, i: usize, s: ExchangeStep) -> bool {
    if i + 1 < f.endpoints {
        s == ExchangeStep::Send(opening(f, (i + 1) as usize))
    } else {
        s matches ExchangeStep::Finished(r) && exhausted(f, r)
    }
}

/// A refusal of the client credentials in the `Basic` header.
pub open spec fn basic_refused(j: Json) -> bool {
    json::str_field(j, "error"@) == Some("invalid_client"@) || json::str_field(j, "error"@)
        == Some("unauthorized_client"@)
}

/// The finished result for a final answer `j`.
pub open spec fn final_answer(f: ExchangeFlow, j: Json, s: ExchangeStep) -> bool {
    s matches ExchangeStep::Finished(r) && match r {
        Ok(t) => exchange_outcome_ok(j, f.first_url@) is Ok && response_token(t, j, f.now),
        Err(e) => exchange_outcome_ok(j, f.first_url@) == Err::<(), Seq<char>>(e@),
    }
}

impl ExchangeFlow {
    /// Starts an exchange over `endpoints` token endpoints.
    pub fn start(endpoints: usize, first_url: String, with_secret: bool, now: u64) -> (r: (Self, ExchangeStep))
        ensures
            r.0.endpoints == endpoints,
            r.0.first_url == first_url,
            r.0.with_secret == with_secret,
            r.0.last_error@ == "unknown oauth exchange error"@,
            r.0.last_json is None,
            r.0.now == now,
            endpoints > 0 ==> r.1 == ExchangeStep::Send(opening(r.0, 0)),
            endpoints == 0 ==> (r.1 matches ExchangeStep::Finished(Err(e)) && e@ == r.0.last_error@),
    {
        let f = ExchangeFlow {
            endpoints,
            first_url,
            with_secret,
            last_error: "unknown oauth exchange error".to_owned(),
            last_json: None,
            now,
        };
        if endpoints == 0 {
            let e = f.last_error.clone();
            (f, ExchangeStep::Finished(Err(e)))
        } else {
            let first = if with_secret {
                ExchangeRequest::Basic(0)
            } else {
                ExchangeRequest::Form(0)
            };
            (f, ExchangeStep::Send(first))
        }
    }

    fn finish(&self) -> (s: ExchangeStep)
        ensures
            s matches ExchangeStep::Finished(r) && exhausted(*self, r),
    {
        match &self.last_json {
            Some(j) => ExchangeStep::Finished(exchange_result(j, self.first_url.as_str(), self.now)),
            None => ExchangeStep::Finished(Err(self.last_error.clone())),
        }
    }

    fn move_past(&self, i: usize) -> (s: ExchangeStep)
        ensures
            moved_past(*self, i, s),
    {
        if i < self.endpoints && i + 1 < self.endpoints {
            if self.with_secret {
                ExchangeStep::Send(ExchangeRequest::Basic(i + 1))
            } else {
                ExchangeStep::Send(ExchangeRequest::Form(i + 1))
            }
        } else {
            self.finish()
        }
    }

    /// The answer to `req`.
    /// - `Basic`: unsent moves on to the next endpoint; unreadable fails;
    ///   a refusal of the credentials retries the endpoint with the form;
    ///   any other answer is final.
    /// - `Form`: unsent or unreadable fails; an answer without `error` is
    ///   final; a refusal is kept and the next endpoint is tried.
    pub fn on_reply(&mut self, req: ExchangeRequest, reply: TokenReply) -> (s: ExchangeStep)
        ensures
            final(self).endpoints == old(self).endpoints,
            final(self).first_url == old(self).first_url,
            final(self).with_secret == old(self).with_secret,
            final(self).now == old(self).now,
            match (req, reply) {
                (ExchangeRequest::Basic(i), TokenReply::Unsent(e)) => {
                    &&& final(self).last_error@ == "Token exchange request failed (basic): "@ + e@
                    &&& final(self).last_json == old(self).last_json
                    &&& moved_past(*final(self), i, s)
                },
                (ExchangeRequest::Basic(_), TokenReply::Unreadable(e)) => s matches ExchangeStep::Finished(Err(m))
                    && m@ == "Token exchange parse failed (basic): "@ + e@,
                (ExchangeRequest::Basic(i), TokenReply::Body(j)) => if basic_refused(j) {
                    &&& final(self).last_error@ == description_or(j, "oauth auth error"@)
                    &&& final(self).last_json == old(self).last_json
                    &&& s == ExchangeStep::Send(ExchangeRequest::Form(i))
                } else {
                    final_answer(*old(self), j, s)
                },
                (ExchangeRequest::Form(_), TokenReply::Unsent(e)) => s matches ExchangeStep::Finished(Err(m))
                    && m@ == "Token exchange request failed: "@ + e@,
                (ExchangeRequest::Form(_), TokenReply::Unreadable(e)) => s matches ExchangeStep::Finished(Err(m))
                    && m@ == "Token exchange parse failed: "@ + e@,
                (ExchangeRequest::Form(i), TokenReply::Body(j)) => if j.field("error"@) is None {
                    final_answer(*old(self), j, s)
                } else {
                    &&& final(self).last_error@ == description_or(j, "oauth exchange error"@)
                    &&& final(self).last_json == Some(j)
                    &&& moved_past(*final(self), i, s)
                },
            },
    {
        match req {
            ExchangeRequest::Basic(i) => match reply {
                TokenReply::Unsent(e) => {
                    let mut m = "Token exchange request failed (basic): ".to_owned();
                    m.append(e.as_str());
                    self.last_error = m;
                    self.move_past(i)
                },
                TokenReply::Unreadable(e) => {
                    let mut m = "Token exchange parse failed (basic): ".to_owned();
                    m.append(e.as_str());
                    ExchangeStep::Finished(Err(m))
                },
                TokenReply::Body(j) => {
                    let refused = match json::get_str(&j, "error") {
                        Some(err) => text::str_is(err.as_str(), "invalid_client") || text::str_is(
                            err.as_str(),
                            "unauthorized_client",
                        ),
                        None => false,
                    };
                    if refused {
                        self.last_error = description_or_default(&j, "oauth auth error");
                        ExchangeStep::Send(ExchangeRequest::Form(i))
                    } else {
                        ExchangeStep::Finished(exchange_result(&j, self.first_url.as_str(), self.now))
                    }
                },
            },
            ExchangeRequest::Form(i) => match reply {
                TokenReply::Unsent(e) => {
                    let mut m = "Token exchange request failed: ".to_owned();
                    m.append(e.as_str());
                    ExchangeStep::Finished(Err(m))
                },
                TokenReply::Unreadable(e) => {
                    let mut m = "Token exchange parse failed: ".to_owned();
                    m.append(e.as_str());
                    ExchangeStep::Finished(Err(m))
                },
                TokenReply::Body(j) => {
                    if j.get("error").is_none() {
                        ExchangeStep::Finished(exchange_result(&j, self.first_url.as_str(), self.now))
                    } else {
                        self.last_error = description_or_default(&j, "oauth exchange error");
                        self.last_json = Some(j);
                        self.move_past(i)
                    }
                },
            },
        }
    }
}


// ── the user profile ────────────────────────────────────────────────

/// A Yandex user profile.
#[derive(Clone, Debug, PartialEq)]
pub struct User {
    pub id: String,
    pub phone: Option<String>,
    pub email: Option<String>,
    pub first_name: Option<String>,
    pub last_name: Option<String>,
    pub display_name: Option<String>,
    pub username: Option<String>,
    pub avatar_id: Option<String>,
    pub status: Option<String>,
    pub is_bot: bool,
    pub is_premium: bool,
}

/// Display name from the profile: `real_name` (else `display_name`),
/// trimmed, when not blank; else the first and last names joined by a
/// space; else the login.
pub open spec fn profile_display_name(j: Json) -> Option<Seq<char>> {
    let raw = match json::str_field(j, "real_name"@) {
        Some(n) => Some(n),
        None => json::str_field(j, "display_name"@),
    };
    let named = match raw {
        Some(n) => if trimmed(n).len() > 0 {
            Some(trimmed(n))
        } else {
            None
        },
        None => None,
    };
    match named {
        Some(n) => Some(n),
        None => match (json::str_field(j, "first_name"@), json::str_field(j, "last_name"@)) {
            (Some(f), Some(l)) => Some(f + " "@ + l),
            (Some(f), None) => Some(f),
            (None, Some(l)) => Some(l),
            (None, None) => json::str_field(j, "login"@),
        },
    }
}

/// Messenger avatar id: a textual id that already is a path stays; a bare
/// one, or a numeric one, goes under `user_avatar/yapic/`.
pub open spec fn profile_avatar(j: Json) -> Option<Seq<char>> {
    match j.field("default_avatar_id"@) {
        Some(a) => match a.str_value() {
            Some(s) => if ("user_avatar/"@.len() <= s.len() && s.take("user_avatar/"@.len() as int) == "user_avatar/"@) || text::occurs_in(s, "/"@) {
                Some(s)
            } else {
                Some("user_avatar/yapic/"@ + s)
            },
            None => match a.i64_value() {
                Some(n) => Some("user_avatar/yapic/"@ + text::signed_decimal(n as int)),
                None => None,
            },
        },
        None => None,
    }
}

/// The user described by a `login.yandex.ru/info` response.
pub open spec fn user_of(u: User, j: Json) -> bool {
    &&& Some(u.id@) == match json::str_field(j, "id"@) {
        Some(i) => Some(i),
        None => json::str_field(j, "uid"@),
    }
    &&& opt_str(u.phone) == match j.field("default_phone"@) {
        Some(p) => json::str_field(p, "number"@),
        None => None,
    }
    &&& opt_str(u.email) == json::str_field(j, "login"@)
    &&& opt_str(u.first_name) == json::str_field(j, "first_name"@)
    &&& opt_str(u.last_name) == json::str_field(j, "last_name"@)
    &&& opt_str(u.display_name) == profile_display_name(j)
    &&& opt_str(u.username) == json::str_field(j, "login"@)
    &&& opt_str(u.avatar_id) == profile_avatar(j)
    &&& opt_str(u.status) == json::str_field(j, "status"@)
    &&& u.is_bot == (match j.field("is_bot"@) {
        Some(b) => b.bool_value() == Some(true),
        None => false,
    })
    &&& u.is_premium == (match j.field("is_premium"@) {
        Some(b) => b.bool_value() == Some(true),
        None => false,
    })
}

fn flag(j: &Json, key: &str) -> (b: bool)
    ensures
        b == match j.field(key@) {
            Some(v) => v.bool_value() == Some(true),
            None => false,
        },
{
    match j.get(key) {
        Some(v) => match v.as_bool() {
            Some(b) => b,
            None => false,
        },
        None => false,
    }
}

fn display_name_of(j: &Json) -> (r: Option<String>)
    ensures
        opt_str(r) == profile_display_name(*j),
{
    let raw = match json::get_str(j, "real_name") {
        Some(n) => Some(n),
        None => json::get_str(j, "display_name"),
    };
    let named = match raw {
        Some(n) => {
            let t = text::trim(n.as_str());
            if t.as_str().is_empty() {
                None
            } else {
                Some(t)
            }
        },
        None => None,
    };
    match named {
        Some(n) => Some(n),
        None => match (json::get_str(j, "first_name"), json::get_str(j, "last_name")) {
            (Some(f), Some(l)) => {
                let mut n = f;
                n.append(" ");
                n.append(l.as_str());
                Some(n)
            },
            (Some(f), None) => Some(f),
            (None, Some(l)) => Some(l),
            (None, None) => json::get_str(j, "login"),
        },
    }
}

fn avatar_of(j: &Json) -> (r: Option<String>)
    ensures
        opt_str(r) == profile_avatar(*j),
{
    match j.get("default_avatar_id") {
        Some(a) => match a.as_str() {
            Some(s) => {
                if text::starts_with(s, "user_avatar/") || text::contains_text(s, "/") {
                    Some(s.to_owned())
                } else {
                    let mut p = "user_avatar/yapic/".to_owned();
                    p.append(s);
                    Some(p)
                }
            },
            None => match a.as_i64() {
                Some(n) => {
                    let mut p = "user_avatar/yapic/".to_owned();
                    text::push_signed(&mut p, n);
                    Some(p)
                },
                None => None,
            },
        },
        None => None,
    }
}

/// The user a `login.yandex.ru/info` response describes; it must carry an
/// `id` (or `uid`).
pub fn user_from_info(j: &Json) -> (r: Result<User, String>)
    ensures
        match r {
            Ok(u) => user_of(u, *j),
            Err(e) => json::str_field(*j, "id"@) is None && json::str_field(*j, "uid"@) is None
                && e@ == "No id in user info response"@,
        },
{
    let id = match json::get_str(j, "id") {
        Some(i) => i,
        None => match json::get_str(j, "uid") {
            Some(i) => i,
            None => {
                return Err("No id in user info response".to_owned());
            },
        },
    };
    let login = json::get_str(j, "login");
    let phone = match j.get("default_phone") {
        Some(p) => json::get_str(p, "number"),
        None => None,
    };
    Ok(User {
        id,
        phone,
        email: json::get_str(j, "login"),
        first_name: json::get_str(j, "first_name"),
        last_name: json::get_str(j, "last_name"),
        display_name: display_name_of(j),
        username: login,
        avatar_id: avatar_of(j),
        status: json::get_str(j, "status"),
        is_bot: flag(j, "is_bot"),
        is_premium: flag(j, "is_premium"),
    })
}

/// Account name from a profile: its display name, else first and last
/// name, else the user name, else the e-mail.
pub open spec fn profile_name_of(u: User) -> Option<Seq<char>> {
    match opt_str(u.display_name) {
        Some(n) => Some(n),
        None => match (opt_str(u.first_name), opt_str(u.last_name)) {
            (Some(f), Some(l)) => Some(f + " "@ + l),
            (Some(f), None) => Some(f),
            (None, Some(l)) => Some(l),
            (None, None) => match opt_str(u.username) {
                Some(n) => Some(n),
                None => opt_str(u.email),
            },
        },
    }
}

fn copy_opt(s: &Option<String>) -> (r: Option<String>)
    ensures
        r == *s,
{
    match s {
        Some(v) => Some(v.clone()),
        None => None,
    }
}

pub fn profile_name(u: &User) -> (r: Option<String>)
    ensures
        opt_str(r) == profile_name_of(*u),
{
    match &u.display_name {
        Some(n) => Some(n.clone()),
        None => match (&u.first_name, &u.last_name) {
            (Some(f), Some(l)) => {
                let mut n = f.clone();
                n.append(" ");
                n.append(l.as_str());
                Some(n)
            },
            (Some(f), None) => Some(f.clone()),
            (None, Some(l)) => Some(l.clone()),
            (None, None) => match &u.username {
                Some(n) => Some(n.clone()),
                None => copy_opt(&u.email),
            },
        },
    }
}


// ── using the token ─────────────────────────────────────────────────

/// The access token to send at `now`: none without a token, and an
/// expired token is refused.
pub fn access_token_at(t: Option<&OAuthToken>, now: u64) -> (r: Result<String, AuthError>)
    requires
        t matches Some(tok) ==> tok.expiry_computable(),
    ensures
        match t {
            None => r == Err::<String, AuthError>(AuthError::NotFound),
            Some(tok) => if tok.expired_at(now) {
                r == Err::<String, AuthError>(AuthError::Expired)
            } else {
                r matches Ok(a) && a@ == tok.access_token@
            },
        },
{
    match t {
        None => Err(AuthError::NotFound),
        Some(tok) => if tok.is_expired_at(now) {
            Err(AuthError::Expired)
        } else {
            Ok(tok.access_token.clone())
        },
    }
}

/// Whether the user counts as signed in at `now`: not when a fresh login
/// is forced, else when there is a token that has not expired.
pub fn authenticated_at(force: bool, t: Option<&OAuthToken>, now: u64) -> (b: bool)
    requires
        t matches Some(tok) ==> tok.expiry_computable(),
    ensures
        b == (!force && match t {
            Some(tok) => !tok.expired_at(now),
            None => false,
        }),
{
    if force {
        return false;
    }
    match t {
        Some(tok) => !tok.is_expired_at(now),
        None => false,
    }
}

/// What the profile endpoint's answer says of the session.
#[derive(Clone, Copy, Debug, PartialEq, Eq)]
pub enum SessionVerdict {
    /// HTTP 200.
    Valid,
    /// HTTP 401 or 403: the token was revoked and is dropped.
    Revoked,
    /// Any other status: reported with the status and body.
    Failed,
}

pub fn session_verdict(status: u16) -> (v: SessionVerdict)
    ensures
        v == (if status == 200 {
            SessionVerdict::Valid
        } else if status == 401 || status == 403 {
            SessionVerdict::Revoked
        } else {
            SessionVerdict::Failed
        }),
{
    if status == 200 {
        SessionVerdict::Valid
    } else if status == 401 || status == 403 {
        SessionVerdict::Revoked
    } else {
        SessionVerdict::Failed
    }
}

/// The refusal of a revoked session.
pub fn revoked_message() -> (s: String)
    ensures
        s@ == "Session invalidated: token revoked or expired"@,
{
    "Session invalidated: token revoked or expired".to_owned()
}

/// Once a token counts as expired it stays expired.
pub proof fn expiry_is_monotone(t: OAuthToken, a: u64, b: u64)
    requires
        t.expiry_computable(),
        a <= b,
        t.expired_at(a),
    ensures
        t.expired_at(b),
{
}

/// A token counts as expired exactly from five minutes before its end;
/// one just received with more than five minutes to live does not.
pub proof fn expiry_margin(t: OAuthToken, now: u64)
    requires
        t.expiry_computable(),
        t.received_at > 0,
    ensures
        t.expired_at(now) <==> now + 300 >= t.received_at + t.expires_in,
        (now == t.received_at && t.expires_in > 300) ==> !t.expired_at(now),
{
}


// ── token refresh over the endpoints ────────────────────────────────

/// State of a token refresh over the token endpoints, tried in order
/// until one answers without `error`.
#[derive(Debug)]
pub struct RefreshFlow {
    pub endpoints: usize,
    pub refresh_token: String,
    pub last_error: String,
    /// The last answer read.
    pub last_json: Option<Json>,
    pub now: u64,
}

/// What to do next in a refresh: ask endpoint `i`, or the result.
#[derive(Debug)]
pub enum RefreshStep {
    Send(usize),
    Finished(Result<OAuthToken, String>),
}

/// `error: description` of a refusal, each `unknown` when missing.
pub open spec fn refusal_text(j: Json) -> Seq<char> {
    "Refresh failed: "@ + or_default(json::str_field(j, "error"@), "unknown"@) + " ("@
        + or_default(json::str_field(j, "error_description"@), "unknown"@) + ")"@
}

/// The result once the endpoints are done: the last answer read decides,
/// or the last error when none was read.
pub open spec fn refresh_done(f: RefreshFlow, s: RefreshStep) -> bool {
    s matches RefreshStep::Finished(r) && match f.last_json {
        Some(j) => refreshed(j, f.refresh_token@, f.last_error@, f.now, r),
        None => r matches Err(e) && e@ == f.last_error@,
    }
}

/// Moving past endpoint `i`.
pub open spec fn refresh_moved_past(f: RefreshFlow, i: usize, s: RefreshStep) -> bool {
    if i + 1 < f.endpoints {
        s == RefreshStep::Send((i + 1) as usize)
    } else {
        refresh_done(f, s)
    }
}

impl RefreshFlow {
    pub fn start(endpoints: usize, refresh_token: String, now: u64) -> (r: (Self, RefreshStep))
        ensures
            r.0.endpoints == endpoints,
            r.0.refresh_token == refresh_token,
            r.0.last_error@ == "unknown refresh error"@,
            r.0.last_json is None,
            r.0.now == now,
            endpoints > 0 ==> r.1 == RefreshStep::Send(0),
            endpoints == 0 ==> refresh_done(r.0, r.1),
    {
        let f = RefreshFlow {
            endpoints,
            refresh_token,
            last_error: "unknown refresh error".to_owned(),
            last_json: None,
            now,
        };
        if endpoints == 0 {
            let e = f.last_error.clone();
            (f, RefreshStep::Finished(Err(e)))
        } else {
            (f, RefreshStep::Send(0))
        }
    }

    fn done(&self) -> (s: RefreshStep)
        ensures
            refresh_done(*self, s),
    {
        match &self.last_json {
            Some(j) => RefreshStep::Finished(
                refresh_result(j, self.refresh_token.as_str(), self.last_error.clone(), self.now),
            ),
            None => RefreshStep::Finished(Err(self.last_error.clone())),
        }
    }

    fn move_past(&self, i: usize) -> (s: RefreshStep)
        ensures
            refresh_moved_past(*self, i, s),
    {
        if i < self.endpoints && i + 1 < self.endpoints {
            RefreshStep::Send(i + 1)
        } else {
            self.done()
        }
    }

    /// The answer of endpoint `i`: a failed request or an unreadable answer
    /// is remembered as the last error; an answer is kept, and one without
    /// `error` ends the refresh, while a refusal moves on.
    pub fn on_reply(&mut self, i: usize, reply: TokenReply) -> (s: RefreshStep)
        ensures
            final(self).endpoints == old(self).endpoints,
            final(self).refresh_token == old(self).refresh_token,
            final(self).now == old(self).now,
            match reply {
                TokenReply::Unsent(e) => final(self).last_error@ == "Refresh request failed: "@ + e@
                    && final(self).last_json == old(self).last_json && refresh_moved_past(*final(self), i, s),
                TokenReply::Unreadable(e) => final(self).last_error@ == "Refresh parse failed: "@ + e@
                    && final(self).last_json == old(self).last_json && refresh_moved_past(*final(self), i, s),
                TokenReply::Body(j) => final(self).last_json == Some(j) && if j.field("error"@) is None {
                    final(self).last_error == old(self).last_error && refresh_done(*final(self), s)
                } else {
                    final(self).last_error@ == refusal_text(j) && refresh_moved_past(*final(self), i, s)
                },
            },
    {
        match reply {
            TokenReply::Unsent(e) => {
                let mut m = "Refresh request failed: ".to_owned();
                m.append(e.as_str());
                self.last_error = m;
                self.move_past(i)
            },
            TokenReply::Unreadable(e) => {
                let mut m = "Refresh parse failed: ".to_owned();
                m.append(e.as_str());
                self.last_error = m;
                self.move_past(i)
            },
            TokenReply::Body(j) => {
                let refused = j.get("error").is_some();
                if refused {
                    let mut m = "Refresh failed: ".to_owned();
                    let err = match json::get_str(&j, "error") {
                        Some(e) => e,
                        None => "unknown".to_owned(),
                    };
                    m.append(err.as_str());
                    m.append(" (");
                    let desc = match json::get_str(&j, "error_description") {
                        Some(d) => d,
                        None => "unknown".to_owned(),
                    };
                    m.append(desc.as_str());
                    m.append(")");
                    self.last_error = m;
                }
                self.last_json = Some(j);
                if refused {
                    self.move_past(i)
                } else {
                    self.done()
                }
            },
        }
    }
}

} // verus!
