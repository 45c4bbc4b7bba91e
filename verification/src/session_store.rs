//! Passport session cookies (`session.json`), used for history, the push
//! socket and RPC. Reading and writing the file is the caller's part; this
//! module holds the session and what is derived from it.

use vstd::prelude::*;

use crate::json::{self, member_of, Json};
use crate::text::{self, all_digits, chars_of, first_index, opt_str};

verus! {

/// A Passport session: its cookies, CSRF token and save time (Unix seconds).
#[derive(Clone, Debug, Default)]
pub struct SessionData {
    /// Cookie names and values, in the order they were given.
    pub cookies: Vec<(String, String)>,
    pub csrf_token: Option<String>,
    pub saved_at: u64,
}

/// No two cookies share a name: the cookies stand for a map from names to
/// values.
pub open spec fn names_unique(c: Seq<(String, String)>) -> bool {
    forall|i: int, j: int| 0 <= i < j < c.len() ==> (#[trigger] c[i]).0@ != (#[trigger] c[j]).0@
}

impl SessionData {
    /// Well-formed: each cookie name occurs once.
    pub open spec fn wf(&self) -> bool {
        names_unique(self.cookies@)
    }
}

/// Value of the first cookie named `name`.
pub open spec fn cookie_of(c: Seq<(String, String)>, name: Seq<char>) -> Option<Seq<char>>
    decreases c.len(),
{
    if c.len() == 0 {
        None
    } else if c[0].0@ == name {
        Some(c[0].1@)
    } else {
        cookie_of(c.drop_first(), name)
    }
}

/// `name=value`.
pub open spec fn cookie_pair(p: (String, String)) -> Seq<char> {
    p.0@ + "="@ + p.1@
}

/// The cookies as a `Cookie` header: `name=value` pairs joined by `; `.
pub open spec fn header_of(c: Seq<(String, String)>) -> Seq<char>
    decreases c.len(),
{
    if c.len() == 0 {
        Seq::empty()
    } else if c.len() == 1 {
        cookie_pair(c[0])
    } else {
        header_of(c.drop_last()) + "; "@ + cookie_pair(c.last())
    }
}

/// The numeric uid inside a `Session_id` value (`...|uid.rest`): the text
/// between the first `|` and the next `.`, when it is all digits.
pub open spec fn uid_in_session_id(sid: Seq<char>) -> Option<Seq<char>> {
    match first_index(sid, '|') {
        Some(p) => {
            let sub = sid.skip(p + 1);
            match first_index(sub, '.') {
                Some(d) => {
                    let uid = sub.take(d);
                    if uid.len() > 0 && all_digits(uid) {
                        Some(uid)
                    } else {
                        None
                    }
                },
                None => None,
            }
        },
        None => None,
    }
}

/// Passport uid of a session: none without a `Session_id` cookie; the uid
/// inside `Session_id` when there is one; else a non-empty `yandexuid`.
pub open spec fn yuid_of(c: Seq<(String, String)>) -> Option<Seq<char>> {
    match cookie_of(c, "Session_id"@) {
        None => None,
        Some(sid) => match uid_in_session_id(sid) {
            Some(u) => Some(u),
            None => match cookie_of(c, "yandexuid"@) {
                Some(y) => if y.len() > 0 {
                    Some(y)
                } else {
                    None
                },
                None => None,
            },
        },
    }
}

pub open spec fn has_session_id_in(c: Seq<(String, String)>) -> bool {
    cookie_of(c, "Session_id"@) matches Some(v) && v.len() > 0
}

/// The value of the cookie named `name`, of which there is at most one.
pub fn find_cookie<'a>(cookies: &'a Vec<(String, String)>, name: &str) -> (r: Option<&'a String>)
    requires
        names_unique(cookies@),
    ensures
        match r {
            Some(v) => cookie_of(cookies@, name@) == Some(v@) && exists|k: int|
                0 <= k < cookies@.len() && (#[trigger] cookies@[k]).0@ == name@ && cookies@[k].1@ == v@,
            None => cookie_of(cookies@, name@) is None && forall|k: int|
                0 <= k < cookies@.len() ==> (#[trigger] cookies@[k]).0@ != name@,
        },
{
    let mut i: usize = 0;
    assert(cookies@.skip(0) =~= cookies@);
    while i < cookies.len()
        invariant
            i <= cookies.len(),
            cookie_of(cookies@, name@) == cookie_of(cookies@.skip(i as int), name@),
            forall|k: int| 0 <= k < i ==> (#[trigger] cookies@[k]).0@ != name@,
        decreases cookies.len() - i,
    {
        assert(cookies@.skip(i as int)[0] == cookies@[i as int]);
        if text::str_is(cookies[i].0.as_str(), name) {
            assert(cookies@[i as int].0@ == name@);
            return Some(&cookies[i].1);
        }
        assert(cookies@.skip(i as int).drop_first() =~= cookies@.skip(i + 1));
        i = i + 1;
    }
    None
}

fn uid_from_session_id(sid: &str) -> (r: Option<String>)
    ensures
        opt_str(r) == uid_in_session_id(sid@),
{
    let v = chars_of(sid);
    match text::find_char(&v, '|') {
        None => None,
        Some(p) => {
            assert(p < v.len());
            let sub = text::string_from_range(&v, p + 1, v.len());
            let w = chars_of(sub.as_str());
            assert(w@ =~= sid@.skip(p + 1));
            match text::find_char(&w, '.') {
                None => None,
                Some(d) => {
                    let uid = text::string_from_range(&w, 0, d);
                    assert(uid@ =~= w@.take(d as int));
                    let u = chars_of(uid.as_str());
                    if d > 0 && text::all_ascii_digits(&u) {
                        Some(uid)
                    } else {
                        None
                    }
                },
            }
        },
    }
}

impl SessionData {
    /// `name=value` for every cookie, joined by `; `.
    pub fn cookie_header(&self) -> (h: String)
        ensures
            h@ == header_of(self.cookies@),
    {
        let mut out = String::new();
        let mut i: usize = 0;
        while i < self.cookies.len()
            invariant
                i <= self.cookies.len(),
                out@ == header_of(self.cookies@.take(i as int)),
            decreases self.cookies.len() - i,
        {
            let ghost before = out@;
            if i > 0 {
                out.append("; ");
            }
            out.append(self.cookies[i].0.as_str());
            out.append("=");
            out.append(self.cookies[i].1.as_str());
            proof {
                let t = self.cookies@.take(i + 1);
                assert(t.drop_last() =~= self.cookies@.take(i as int));
                assert(t.last() == self.cookies@[i as int]);
                if i == 0 {
                    assert(out@ =~= cookie_pair(t[0]));
                } else {
                    assert(out@ =~= before + "; "@ + cookie_pair(t.last()));
                }
            }
            i = i + 1;
        }
        assert(self.cookies@.take(i as int) =~= self.cookies@);
        out
    }

    /// Whether a non-empty `Session_id` cookie is present.
    pub fn has_session_id(&self) -> (b: bool)
        requires
            self.wf(),
        ensures
            b == has_session_id_in(self.cookies@),
    {
        match find_cookie(&self.cookies, "Session_id") {
            Some(v) => !v.as_str().is_empty(),
            None => false,
        }
    }

    /// Passport user id for the push service and the messenger: the numeric
    /// uid inside `Session_id`, falling back to a non-empty `yandexuid`.
    pub fn yuid(&self) -> (r: Option<String>)
        requires
            self.wf(),
        ensures
            opt_str(r) == yuid_of(self.cookies@),
    {
        let sid = match find_cookie(&self.cookies, "Session_id") {
            Some(s) => s,
            None => {
                return None;
            },
        };
        match uid_from_session_id(sid.as_str()) {
            Some(u) => Some(u),
            None => match find_cookie(&self.cookies, "yandexuid") {
                Some(y) => if !y.as_str().is_empty() {
                    Some(y.clone())
                } else {
                    None
                },
                None => None,
            },
        }
    }

    /// OAuth-compatible Passport uid: the same as [`SessionData::yuid`].
    pub fn passport_uid(&self) -> (r: Option<String>)
        requires
            self.wf(),
        ensures
            opt_str(r) == yuid_of(self.cookies@),
    {
        self.yuid()
    }
}

/// Stored sessions older than this (thirty days, in seconds) are not used.
pub const SESSION_MAX_AGE_SECS: u64 = 2592000;

/// A stored session can be used at `now`: it has cookies, and it is not
/// older than thirty days (a session without a save time never expires).
pub open spec fn usable_at(d: SessionData, now: u64) -> bool {
    !(d.saved_at > 0 && now - d.saved_at > SESSION_MAX_AGE_SECS) && d.cookies@.len() > 0
}

/// The `Cookie` header and CSRF token of a stored session, when it can be
/// used at `now`.
pub fn session_cookies(data: &SessionData, now: u64) -> (r: (Option<String>, Option<String>))
    requires
        data.saved_at <= now,
    ensures
        usable_at(*data, now) ==> (r.0 matches Some(h) && h@ == header_of(data.cookies@)) && r.1
            == data.csrf_token,
        !usable_at(*data, now) ==> r.0 is None && r.1 is None,
{
    if data.saved_at > 0 && now - data.saved_at > SESSION_MAX_AGE_SECS {
        return (None, None);
    }
    if data.cookies.len() == 0 {
        return (None, None);
    }
    let csrf = match &data.csrf_token {
        Some(t) => Some(t.clone()),
        None => None,
    };
    (Some(data.cookie_header()), csrf)
}

/// Where a fresh CSRF token is asked for with the session cookies.
pub const CSRF_TOKEN_URL: &'static str = "https://yandex.ru/messenger/api/registry/csrf-token/";

/// The CSRF token of the token endpoint's answer: its string `token`.
pub fn csrf_token_in(v: &Json) -> (r: Option<String>)
    ensures
        opt_str(r) == json::str_field(*v, "token"@),
{
    json::get_str(v, "token")
}

/// A stored session is only used when it holds cookies.
pub fn accept_loaded(data: SessionData) -> (r: Option<SessionData>)
    ensures
        match r {
            Some(d) => d == data && data.cookies@.len() > 0,
            None => data.cookies@.len() == 0,
        },
{
    if data.cookies.len() == 0 {
        None
    } else {
        Some(data)
    }
}

/// The session as written to disk: stamped with `now` unless it already
/// carries a save time.
pub fn stamped(data: SessionData, now: u64) -> (d: SessionData)
    ensures
        d.cookies == data.cookies,
        d.csrf_token == data.csrf_token,
        d.saved_at == if data.saved_at == 0 {
            now
        } else {
            data.saved_at
        },
{
    let mut d = data;
    if d.saved_at == 0 {
        d.saved_at = now;
    }
    d
}

pub open spec fn missing_session_id_message() -> Seq<char> {
    "Session_id cookie missing — login incomplete"@
}

/// The session to store after a login, saved at `now`: refused when it
/// has no non-empty `Session_id` cookie.
pub fn save_cookies_map(cookies: Vec<(String, String)>, csrf_token: Option<String>, now: u64) -> (r: Result<SessionData, String>)
    requires
        names_unique(cookies@),
    ensures
        match r {
            Ok(d) => d.wf() && has_session_id_in(cookies@) && d.cookies@ == cookies@ && d.csrf_token
                == csrf_token && d.saved_at == now,
            Err(e) => !has_session_id_in(cookies@) && e@ == missing_session_id_message(),
        },
{
    let data = SessionData { cookies, csrf_token, saved_at: now };
    if !data.has_session_id() {
        return Err("Session_id cookie missing — login incomplete".to_owned());
    }
    Ok(data)
}


// ── the raw `session.json` document ─────────────────────────────────

/// The text between the first `|` of a `Session_id` value and the next `.`.
pub open spec fn raw_uid(sid: Seq<char>) -> Option<Seq<char>> {
    match first_index(sid, '|') {
        Some(p) => match first_index(sid.skip(p + 1), '.') {
            Some(d) => Some(sid.skip(p + 1).take(d)),
            None => None,
        },
        None => None,
    }
}

/// Every cookie value of the document is a string.
pub open spec fn all_str_values(ms: Seq<(String, Json)>) -> bool {
    forall|i: int| 0 <= i < ms.len() ==> (#[trigger] ms[i]).1.str_value() is Some
}

/// `name=value` pairs of the document's cookies joined by `; `.
pub open spec fn raw_header(ms: Seq<(String, Json)>) -> Seq<char>
    decreases ms.len(),
{
    if ms.len() == 0 {
        Seq::empty()
    } else {
        let pair = ms.last().0@ + "="@ + or_empty(ms.last().1.str_value());
        if ms.len() == 1 {
            pair
        } else {
            raw_header(ms.drop_last()) + "; "@ + pair
        }
    }
}

pub open spec fn or_empty(s: Option<Seq<char>>) -> Seq<char> {
    match s {
        Some(t) => t,
        None => Seq::empty(),
    }
}

/// The uid of the last `Session_id` cookie that has one (empty if none).
pub open spec fn raw_session_uid(ms: Seq<(String, Json)>) -> Seq<char>
    decreases ms.len(),
{
    if ms.len() == 0 {
        Seq::empty()
    } else {
        let last = ms.last();
        match (last.0@ == "Session_id"@, last.1.str_value()) {
            (true, Some(v)) => match raw_uid(v) {
                Some(u) => u,
                None => raw_session_uid(ms.drop_last()),
            },
            _ => raw_session_uid(ms.drop_last()),
        }
    }
}

/// Cookie header and uid read straight from a `session.json` document:
/// none unless `cookies` is an object of strings giving a non-empty header
/// and a non-empty uid.
pub open spec fn raw_cookies_and_uid(data: Json) -> Option<(Seq<char>, Seq<char>)> {
    match data.field("cookies"@) {
        Some(Json::Object(ms)) => if all_str_values(ms@) && raw_header(ms@).len() > 0
            && raw_session_uid(ms@).len() > 0 {
            Some((raw_header(ms@), raw_session_uid(ms@)))
        } else {
            None
        },
        _ => None,
    }
}

fn raw_uid_of(v: &str) -> (r: Option<String>)
    ensures
        opt_str(r) == raw_uid(v@),
{
    let c = chars_of(v);
    match text::find_char(&c, '|') {
        None => None,
        Some(p) => {
            assert(p < c.len());
            let sub = text::string_from_range(&c, p + 1, c.len());
            let w = chars_of(sub.as_str());
            assert(w@ =~= v@.skip(p + 1));
            match text::find_char(&w, '.') {
                None => None,
                Some(d) => {
                    let u = text::string_from_range(&w, 0, d);
                    assert(u@ =~= w@.take(d as int));
                    Some(u)
                },
            }
        },
    }
}

/// The `Cookie` header and Passport uid of a `session.json` document.
pub fn cookies_and_uid(data: &Json) -> (r: Option<(String, String)>)
    ensures
        match r {
            Some((h, u)) => raw_cookies_and_uid(*data) == Some((h@, u@)),
            None => raw_cookies_and_uid(*data) is None,
        },
{
    let ms = match data.get("cookies") {
        Some(Json::Object(ms)) => ms,
        _ => {
            return None;
        },
    };
    let mut header = String::new();
    let mut uid = String::new();
    let mut i: usize = 0;
    while i < ms.len()
        invariant
            i <= ms@.len(),
            data.field("cookies"@) == Some(Json::Object(*ms)),
            all_str_values(ms@.take(i as int)),
            header@ == raw_header(ms@.take(i as int)),
            uid@ == raw_session_uid(ms@.take(i as int)),
        decreases ms@.len() - i,
    {
        let ghost t = ms@.take(i + 1);
        proof {
            assert(t.drop_last() =~= ms@.take(i as int));
            assert(t.last() == ms@[i as int]);
        }
        let value = match ms[i].1.as_str() {
            Some(v) => v,
            None => {
                assert(!all_str_values(ms@)) by {
                    assert(ms@[i as int].1.str_value() is None);
                }
                return None;
            },
        };
        let ghost before = header@;
        if i > 0 {
            header.append("; ");
        }
        header.append(ms[i].0.as_str());
        header.append("=");
        header.append(value);
        proof {
            if i == 0 {
                assert(header@ =~= raw_header(t));
            } else {
                assert(header@ =~= raw_header(t));
            }
            assert(all_str_values(t)) by {
                assert forall|k: int| 0 <= k < t.len() implies (#[trigger] t[k]).1.str_value() is Some by {
                    if k < i {
                        assert(t[k] == ms@.take(i as int)[k]);
                    }
                }
            }
        }
        if text::str_is(ms[i].0.as_str(), "Session_id") {
            match raw_uid_of(value) {
                Some(u) => {
                    uid = u;
                },
                None => {},
            }
        }
        i = i + 1;
    }
    assert(ms@.take(i as int) =~= ms@);
    if header.as_str().is_empty() || uid.as_str().is_empty() {
        None
    } else {
        Some((header, uid))
    }
}

} // verus!
