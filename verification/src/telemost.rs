//! Telemost REST API: what is sent and how answers are read. The requests
//! themselves are made by the caller.

use vstd::prelude::*;

use crate::auth::without_trailing_slashes;
use crate::json::{self, Json};
use crate::models::{MeetingUserError, PersonalMeeting};
use crate::text::{self, opt_str, trimmed};

verus! {

/// `Authorization` value for Telemost: the access token with an `OAuth `
/// prefix unless it has one; empty without a token.
pub open spec fn telemost_auth(token: Option<Seq<char>>) -> Seq<char> {
    match token {
        Some(t) => if "OAuth "@.len() <= t.len() && t.take("OAuth "@.len() as int) == "OAuth "@ {
            t
        } else {
            "OAuth "@ + t
        },
        None => Seq::empty(),
    }
}

pub fn auth_header(token: Option<&str>) -> (h: String)
    ensures
        h@ == telemost_auth(crate::goloom::opt_view(token)),
{
    match token {
        Some(t) => if text::starts_with(t, "OAuth ") {
            t.to_owned()
        } else {
            let mut h = "OAuth ".to_owned();
            h.append(t);
            h
        },
        None => String::new(),
    }
}

/// The link to a meeting: its own join URL when it has a non-empty one,
/// otherwise the Telemost site's `/j/{meeting_id}`.
pub open spec fn join_url_of(m: PersonalMeeting) -> Seq<char> {
    match m.join_url {
        Some(u) => if u@.len() > 0 {
            u@
        } else {
            without_trailing_slashes(crate::config::TELEMOST_URL@) + "/j/"@ + m.meeting_id@
        },
        None => without_trailing_slashes(crate::config::TELEMOST_URL@) + "/j/"@ + m.meeting_id@,
    }
}

pub fn join_url(m: &PersonalMeeting) -> (u: String)
    ensures
        u@ == join_url_of(*m),
{
    match &m.join_url {
        Some(u) => if !u.as_str().is_empty() {
            return u.clone();
        },
        None => {},
    }
    let mut u = crate::auth::strip_trailing_slashes(crate::config::TELEMOST_URL);
    u.append("/j/");
    u.append(m.meeting_id.as_str());
    u
}

/// What a `UserErrors` entry says.
#[derive(Clone, Debug, PartialEq)]
pub enum UserErrorText {
    /// `code message`, trimmed.
    Text(String),
    /// The entry is not a readable error; show it as JSON.
    Raw,
}

/// The `UserErrors` envelope (`user_errors`, `UserErrors` or `userErrors`).
pub open spec fn envelope_of(v: Json) -> Option<Json> {
    match v.field("user_errors"@) {
        Some(e) => Some(e),
        None => match v.field("UserErrors"@) {
            Some(e) => Some(e),
            None => v.field("userErrors"@),
        },
    }
}

/// The first entry of the envelope's `errors` array.
pub open spec fn first_user_error(v: Json) -> Option<Json> {
    match envelope_of(v) {
        Some(env) => match env.field("errors"@) {
            Some(Json::Array(items)) => if items@.len() > 0 {
                Some(items@[0])
            } else {
                None
            },
            _ => None,
        },
        None => None,
    }
}

/// An optional text member: absent or null, or a string.
pub open spec fn opt_text_member(v: Json, key: Seq<char>) -> Option<Option<Seq<char>>> {
    match v.field(key) {
        None => Some(None),
        Some(Json::Null) => Some(None),
        Some(Json::Str(s)) => Some(Some(s@)),
        _ => None,
    }
}

/// An entry as a [`MeetingUserError`]: an object whose `code` and
/// `message` are absent, null or strings.
pub open spec fn as_user_error(v: Json) -> Option<(Option<Seq<char>>, Option<Seq<char>>)> {
    match v {
        Json::Object(_) => match (opt_text_member(v, "code"@), opt_text_member(v, "message"@)) {
            (Some(c), Some(m)) => Some((c, m)),
            _ => None,
        },
        _ => None,
    }
}

pub open spec fn or_empty(s: Option<Seq<char>>) -> Seq<char> {
    match s {
        Some(t) => t,
        None => Seq::empty(),
    }
}

/// The message of a `UserErrors` envelope: `code message` of its first
/// entry, trimmed, unless that is empty; the entry as JSON (`Some(None)`)
/// when it is not a readable error; nothing without an envelope or entry.
pub open spec fn user_error_of(v: Json) -> Option<Option<Seq<char>>> {
    match first_user_error(v) {
        Some(first) => match as_user_error(first) {
            Some((c, m)) => {
                let t = trimmed(or_empty(c) + " "@ + or_empty(m));
                if t.len() == 0 {
                    None
                } else {
                    Some(Some(t))
                }
            },
            None => Some(None),
        },
        None => None,
    }
}

fn opt_text(v: &Json, key: &str) -> (r: Option<Option<String>>)
    ensures
        match r {
            Some(o) => opt_text_member(*v, key@) == Some(opt_str(o)),
            None => opt_text_member(*v, key@) is None,
        },
{
    match v.get(key) {
        None => Some(None),
        Some(Json::Null) => Some(None),
        Some(Json::Str(s)) => Some(Some(s.clone())),
        _ => None,
    }
}

/// The entry of a `UserErrors` envelope, when it reads as one.
pub fn read_user_error(v: &Json) -> (r: Option<MeetingUserError>)
    ensures
        match r {
            Some(e) => as_user_error(*v) == Some((opt_str(e.code), opt_str(e.message))),
            None => as_user_error(*v) is None,
        },
{
    match v {
        Json::Object(_) => match (opt_text(v, "code"), opt_text(v, "message")) {
            (Some(code), Some(message)) => Some(MeetingUserError { code, message }),
            _ => None,
        },
        _ => None,
    }
}

/// The message of a `UserErrors` envelope in a response, if it has one.
pub fn user_error_message(v: &Json) -> (r: Option<UserErrorText>)
    ensures
        match (r, user_error_of(*v)) {
            (Some(UserErrorText::Text(t)), Some(Some(u))) => t@ == u,
            (Some(UserErrorText::Raw), Some(None)) => true,
            (None, None) => true,
            _ => false,
        },
{
    let env = match v.get("user_errors") {
        Some(e) => e,
        None => match v.get("UserErrors") {
            Some(e) => e,
            None => match v.get("userErrors") {
                Some(e) => e,
                None => {
                    return None;
                },
            },
        },
    };
    let first = match env.get("errors") {
        Some(Json::Array(items)) => if items.len() > 0 {
            &items[0]
        } else {
            return None;
        },
        _ => {
            return None;
        },
    };
    match read_user_error(first) {
        Some(e) => {
            let mut s = match e.code {
                Some(c) => c,
                None => String::new(),
            };
            s.append(" ");
            match e.message {
                Some(m) => s.append(m.as_str()),
                None => {},
            }
            let t = text::trim(s.as_str());
            if t.as_str().is_empty() {
                None
            } else {
                Some(UserErrorText::Text(t))
            }
        },
        None => Some(UserErrorText::Raw),
    }
}

/// Envelope members that may hold the payload, tried in this order before
/// the whole response.
pub open spec fn payload_keys() -> Seq<Seq<char>> {
    seq!["success"@, "data"@, "meeting"@, "result"@, "call"@, "info"@]
}

/// A member that can hold the payload: an object or an array.
pub open spec fn holds_payload(v: Json, key: Seq<char>) -> bool {
    match v.field(key) {
        Some(Json::Object(_)) => true,
        Some(Json::Array(_)) => true,
        _ => false,
    }
}

/// The keys as plain text.
pub open spec fn key_views(keys: Seq<&'static str>) -> Seq<Seq<char>> {
    keys.map_values(|k: &'static str| k@)
}

/// The members that can hold the payload, in the order they are tried.
pub open spec fn payload_candidates(v: Json) -> Seq<Seq<char>> {
    payload_keys().filter(|k: Seq<char>| holds_payload(v, k))
}

/// Where to look for the payload of a successful response: the envelope
/// members `success`, `data`, `meeting`, `result`, `call`, `info` that hold
/// an object or an array, each once and in that order. The caller takes
/// the first that reads as the expected type, else the whole response.
pub fn payload_members(v: &Json) -> (keys: Vec<&'static str>)
    ensures
        key_views(keys@) == payload_candidates(*v),
{
    let mut keys: Vec<&'static str> = Vec::new();
    let candidates: [&'static str; 6] = ["success", "data", "meeting", "result", "call", "info"];
    proof {
        reveal_strlit("success");
        reveal_strlit("data");
        reveal_strlit("meeting");
        reveal_strlit("result");
        reveal_strlit("call");
        reveal_strlit("info");
        assert(candidates@ =~= seq!["success", "data", "meeting", "result", "call", "info"]);
        reveal(Seq::filter);
        assert(payload_keys().take(0) =~= Seq::<Seq<char>>::empty());
        assert(key_views(keys@) =~= Seq::<Seq<char>>::empty());
    }
    let ghost pred = |k: Seq<char>| holds_payload(*v, k);
    let mut i: usize = 0;
    while i < 6
        invariant
            i <= 6,
            candidates@ == seq!["success", "data", "meeting", "result", "call", "info"],
            pred == (|k: Seq<char>| holds_payload(*v, k)),
            key_views(keys@) == payload_keys().take(i as int).filter(pred),
        decreases 6 - i,
    {
        let key = candidates[i];
        assert(key@ == payload_keys()[i as int]);
        let holds = match v.get(key) {
            Some(Json::Object(_)) => true,
            Some(Json::Array(_)) => true,
            _ => false,
        };
        let ghost before = keys@;
        if holds {
            keys.push(key);
            assert(key_views(keys@) =~= key_views(before).push(key@));
        }
        proof {
            reveal(Seq::filter);
            assert(payload_keys().take(i + 1).drop_last() =~= payload_keys().take(i as int));
            assert(payload_keys().take(i + 1).last() == payload_keys()[i as int]);
            assert(holds == pred(payload_keys()[i as int]));
        }
        i = i + 1;
    }
    assert(payload_keys().take(6) =~= payload_keys());
    keys
}

} // verus!
