//! Chat messages as the HTTP API returns them: the search format, the
//! session format, ordering by time, and the lists built from them.

use vstd::prelude::*;

use crate::json::{self, i64_field, str_field, u64_field, Json};
use crate::text::{self, decimal, opt_str};

verus! {

/// An instant: whole seconds since the Unix epoch and the nanoseconds
/// past them (a second or more only during a leap second).
#[derive(Clone, Copy, Debug, PartialEq, Eq)]
pub struct Timestamp {
    pub secs: i64,
    pub nanos: u32,
}

/// Whether `chrono` represents the instant `secs` seconds and `nanos`
/// nanoseconds after the Unix epoch: its day (January 1 of year 1 being
/// day 1, the Unix epoch day 719163) lies between January 1 of year
/// -262143 and December 31 of year 262142, and the nanoseconds are under
/// a second, or under two seconds in the last second of a minute (a leap
/// second).
pub open spec fn chrono_accepts(secs: i64, nanos: u32) -> bool {
    let days = secs as int / 86_400 + 719_163;
    let of_day = secs as int % 86_400;
    &&& -95_746_129 <= days <= 95_745_399
    &&& nanos < 2_000_000_000
    &&& (nanos < 1_000_000_000 || of_day % 60 == 59)
}

/// `chrono::DateTime::<Utc>::from_timestamp`. Claimed: it gives `None`
/// exactly when chrono refuses the instant (its range of days and of the
/// time of day, as `chrono_accepts` states them), and an accepted instant
/// reads back unchanged through `timestamp` and `timestamp_subsec_nanos`
/// (the documented round trip).
#[verifier::external_body]
fn utc_from_timestamp(secs: i64, nanos: u32) -> (r: Option<Timestamp>)
    ensures
        r == (if chrono_accepts(secs, nanos) {
            Some(Timestamp { secs, nanos })
        } else {
            None
        }),
{
    match chrono::DateTime::from_timestamp(secs, nanos) {
        Some(d) => Some(Timestamp { secs: d.timestamp(), nanos: d.timestamp_subsec_nanos() }),
        None => None,
    }
}

/// The instant `(secs, nanos)` when chrono accepts it, else `now`.
pub open spec fn instant_or(secs: i64, nanos: u32, now: Timestamp) -> Timestamp {
    if chrono_accepts(secs, nanos) {
        Timestamp { secs, nanos }
    } else {
        now
    }
}

fn instant(secs: i64, nanos: u32, now: Timestamp) -> (t: Timestamp)
    ensures
        t == instant_or(secs, nanos, now),
{
    match utc_from_timestamp(secs, nanos) {
        Some(t) => t,
        None => now,
    }
}

/// `a` is strictly later than `b`.
pub open spec fn later(a: Timestamp, b: Timestamp) -> bool {
    a.secs > b.secs || (a.secs == b.secs && a.nanos > b.nanos)
}

pub fn is_later(a: Timestamp, b: Timestamp) -> (r: bool)
    ensures
        r == later(a, b),
{
    a.secs > b.secs || (a.secs == b.secs && a.nanos > b.nanos)
}

/// Rust's `/` on integers: the quotient rounded toward zero.
pub open spec fn quot(a: int, d: int) -> int {
    if a >= 0 {
        a / d
    } else {
        -((-a) / d)
    }
}

/// Rust's `%` on integers: it takes the sign of `a`.
pub open spec fn rem(a: int, d: int) -> int {
    a - d * quot(a, d)
}

/// Seconds of a time in microseconds.
pub open spec fn micros_secs(ts: i64) -> i64 {
    quot(ts as int, 1_000_000) as i64
}

/// `((ts % 1_000_000) * 1000) as u32`: the nanoseconds of a time in
/// microseconds, wrapped as Rust's cast wraps a negative value.
pub open spec fn micros_nanos(ts: i64) -> u32 {
    let x = rem(ts as int, 1_000_000) * 1000;
    if x >= 0 {
        x as u32
    } else {
        (x + 4_294_967_296) as u32
    }
}

fn split_micros(ts: i64) -> (r: (i64, u32))
    ensures
        r.0 == micros_secs(ts),
        r.1 == micros_nanos(ts),
{
    if ts >= 0 {
        let q = ts / 1_000_000;
        let r = ts % 1_000_000;
        assert(r == ts - 1_000_000 * q);
        (q, (r * 1000) as u32)
    } else {
        let a: u64 = if ts == i64::MIN {
            9_223_372_036_854_775_808u64
        } else {
            (-ts) as u64
        };
        let q: u64 = a / 1_000_000;
        let r: u64 = a % 1_000_000;
        assert(a == 1_000_000 * q + r);
        let nanos: u32 = if r == 0 {
            0
        } else {
            (4_294_967_296u64 - r * 1000) as u32
        };
        (-(q as i64), nanos)
    }
}

/// Names a message of a chat: the chat and the message's id in it.
#[derive(Clone, Debug, PartialEq)]
pub struct MessageId {
    pub chat_id: String,
    pub message_id: String,
}

/// A chat message: its id (`seq_payload`), chat, sender, message id,
/// text, the message it answers, its time, whether and when it was
/// edited, when it last changed, and how far it got: sent, delivered,
/// read.
#[derive(Clone, Debug, PartialEq)]
pub struct Message {
    pub id: String,
    pub chat_id: String,
    pub from_id: String,
    pub message_id: Option<String>,
    pub text: Option<String>,
    pub reply_to: Option<MessageId>,
    pub created: Timestamp,
    pub edited: bool,
    pub edited_at: Option<Timestamp>,
    pub updated: Option<Timestamp>,
    pub sent: bool,
    pub delivered: bool,
    pub read: bool,
}

/// A message reference as plain values: chat id and message id.
pub open spec fn ref_view(r: Option<MessageId>) -> Option<(Seq<char>, Seq<char>)> {
    match r {
        Some(m) => Some((m.chat_id@, m.message_id@)),
        None => None,
    }
}

/// A message as plain values.
pub struct MessageView {
    pub id: Seq<char>,
    pub chat_id: Seq<char>,
    pub from_id: Seq<char>,
    pub message_id: Option<Seq<char>>,
    pub text: Option<Seq<char>>,
    pub reply_to: Option<(Seq<char>, Seq<char>)>,
    pub created: Timestamp,
    pub edited: bool,
    pub edited_at: Option<Timestamp>,
    pub updated: Option<Timestamp>,
    pub sent: bool,
    pub delivered: bool,
    pub read: bool,
}

impl View for Message {
    type V = MessageView;

    open spec fn view(&self) -> MessageView {
        MessageView {
            id: self.id@,
            chat_id: self.chat_id@,
            from_id: self.from_id@,
            message_id: opt_str(self.message_id),
            text: opt_str(self.text),
            reply_to: ref_view(self.reply_to),
            created: self.created,
            edited: self.edited,
            edited_at: self.edited_at,
            updated: self.updated,
            sent: self.sent,
            delivered: self.delivered,
            read: self.read,
        }
    }
}

/// The views of some messages.
pub open spec fn views(s: Seq<Message>) -> Seq<MessageView> {
    s.map_values(|m: Message| m@)
}

pub open spec fn or_text(v: Option<Seq<char>>, d: Seq<char>) -> Seq<char> {
    match v {
        Some(s) => s,
        None => d,
    }
}

/// `From.Guid` of a `ServerMessageInfo`.
pub open spec fn from_guid(info: Json) -> Option<Seq<char>> {
    match info.field("From"@) {
        Some(f) => str_field(f, "Guid"@),
        None => None,
    }
}

/// `Text.MessageText` of a `Plain` part.
pub open spec fn plain_text(plain: Json) -> Option<Seq<char>> {
    match plain.field("Text"@) {
        Some(t) => str_field(t, "MessageText"@),
        None => None,
    }
}

/// The message a search result's `data` holds: it needs a
/// `ServerMessageInfo` and a `ClientMessage` with a `Plain` part. Its id is
/// `SeqNo` (0 when missing), `_` and `PayloadId` (`unknown` when missing);
/// its time is `Timestamp` in microseconds (0 when missing), or `now` when
/// chrono refuses it; it was edited when `Version` (1 when missing) is
/// above 1. A message read back counts as sent, delivered and read.
pub open spec fn data_message(data: Json, chat_id: Seq<char>, now: Timestamp) -> Option<MessageView> {
    match (data.field("ServerMessageInfo"@), data.field("ClientMessage"@)) {
        (Some(info), Some(client)) => match client.field("Plain"@) {
            Some(plain) => {
                let ts = match i64_field(info, "Timestamp"@) {
                    Some(t) => t,
                    None => 0,
                };
                let payload = or_text(str_field(plain, "PayloadId"@), "unknown"@);
                let seq_no = match u64_field(info, "SeqNo"@) {
                    Some(n) => n,
                    None => 0,
                };
                let version = match u64_field(info, "Version"@) {
                    Some(n) => n,
                    None => 1,
                };
                Some(
                    MessageView {
                        id: decimal(seq_no as nat) + "_"@ + payload,
                        chat_id,
                        from_id: or_text(from_guid(info), "unknown"@),
                        message_id: Some(payload),
                        text: plain_text(plain),
                        created: instant_or(micros_secs(ts), micros_nanos(ts), now),
                        edited: version > 1,
                        reply_to: None,
                        edited_at: None,
                        updated: None,
                        sent: true,
                        delivered: true,
                        read: true,
                    },
                )
            },
            None => None,
        },
        _ => None,
    }
}

/// The message a search result item holds under `data`.
pub open spec fn search_message(item: Json, chat_id: Seq<char>, now: Timestamp) -> Option<MessageView> {
    match item.field("data"@) {
        Some(data) => data_message(data, chat_id, now),
        None => None,
    }
}

fn str_or(v: Option<String>, d: &str) -> (r: String)
    ensures
        r@ == or_text(opt_str(v), d@),
{
    match v {
        Some(s) => s,
        None => d.to_owned(),
    }
}

fn parse_data_message(data: &Json, chat_id: &str, now: Timestamp) -> (r: Option<Message>)
    ensures
        match r {
            Some(m) => data_message(*data, chat_id@, now) == Some(m@),
            None => data_message(*data, chat_id@, now) is None,
        },
{
    let info = match data.get("ServerMessageInfo") {
        Some(i) => i,
        None => {
            return None;
        },
    };
    let client = match data.get("ClientMessage") {
        Some(c) => c,
        None => {
            return None;
        },
    };
    let plain = match client.get("Plain") {
        Some(p) => p,
        None => {
            return None;
        },
    };
    let from_id = match info.get("From") {
        Some(f) => str_or(json::get_str(f, "Guid"), "unknown"),
        None => "unknown".to_owned(),
    };
    let ts: i64 = match json::get_i64(info, "Timestamp") {
        Some(t) => t,
        None => 0,
    };
    let (secs, nanos) = split_micros(ts);
    let created = instant(secs, nanos, now);
    let text = match plain.get("Text") {
        Some(t) => json::get_str(t, "MessageText"),
        None => None,
    };
    let payload = str_or(json::get_str(plain, "PayloadId"), "unknown");
    let seq_no: u64 = match json::get_u64(info, "SeqNo") {
        Some(n) => n,
        None => 0,
    };
    let version: u64 = match json::get_u64(info, "Version") {
        Some(n) => n,
        None => 1,
    };
    let mut id = String::new();
    text::push_decimal(&mut id, seq_no);
    id.append("_");
    id.append(payload.as_str());
    let m = Message {
        id,
        chat_id: chat_id.to_owned(),
        from_id,
        message_id: Some(payload),
        text,
        created,
        edited: version > 1,
        reply_to: None,
        edited_at: None,
        updated: None,
        sent: true,
        delivered: true,
        read: true,
    };
    assert(m@.id =~= decimal(seq_no as nat) + "_"@ + m@.message_id->0);
    Some(m)
}

/// A message from a search result item.
pub fn parse_search_message(item: &Json, chat_id: &str, now: Timestamp) -> (r: Option<Message>)
    ensures
        match r {
            Some(m) => search_message(*item, chat_id@, now) == Some(m@),
            None => search_message(*item, chat_id@, now) is None,
        },
{
    match item.get("data") {
        Some(data) => parse_data_message(data, chat_id, now),
        None => None,
    }
}

// ── the session format ───────────────────────────────────────────────

/// The first of the members `a`, `b`, `c` that is present, whatever its
/// value.
pub open spec fn first_member(v: Json, a: Seq<char>, b: Seq<char>, c: Seq<char>) -> Option<Json> {
    match v.field(a) {
        Some(x) => Some(x),
        None => match v.field(b) {
            Some(x) => Some(x),
            None => v.field(c),
        },
    }
}

/// The first present of `a`, `b`, `c`, when it is a string.
pub open spec fn first_str(v: Json, a: Seq<char>, b: Seq<char>, c: Seq<char>) -> Option<Seq<char>> {
    match first_member(v, a, b, c) {
        Some(x) => x.str_value(),
        None => None,
    }
}

/// A message in the flat format: sender from `from`, `from_guid` or
/// `sender`; time from `timestamp`, `ts` or `created_at`, in seconds, or
/// in microseconds when above 10^12; text from `text`, `message_text` or
/// `body`; message id from `message_id`, `id` or `payload_id`.
pub open spec fn flat_message(item: Json, chat_id: Seq<char>, now: Timestamp) -> MessageView {
    let ts: i64 = match first_member(item, "timestamp"@, "ts"@, "created_at"@) {
        Some(x) => match x.i64_value() {
            Some(t) => t,
            None => 0,
        },
        None => 0,
    };
    let secs: i64 = if ts > 1_000_000_000_000 {
        (ts / 1_000_000) as i64
    } else {
        ts
    };
    let msg_id = or_text(first_str(item, "message_id"@, "id"@, "payload_id"@), "unknown"@);
    let seq_no = match u64_field(item, "seq_no"@) {
        Some(n) => n,
        None => 0,
    };
    MessageView {
        id: decimal(seq_no as nat) + "_"@ + msg_id,
        chat_id,
        from_id: or_text(first_str(item, "from"@, "from_guid"@, "sender"@), "unknown"@),
        message_id: Some(msg_id),
        text: first_str(item, "text"@, "message_text"@, "body"@),
        created: instant_or(secs, 0, now),
        edited: false,
        reply_to: None,
        edited_at: None,
        updated: None,
        sent: true,
        delivered: true,
        read: true,
    }
}

/// A message of the session API: the search format under `data`, the
/// search format at the top level, or else the flat format.
pub open spec fn session_message(item: Json, chat_id: Seq<char>, now: Timestamp) -> Option<MessageView> {
    if item.field("data"@) matches Some(d) && d.field("ServerMessageInfo"@) is Some {
        search_message(item, chat_id, now)
    } else if item.field("ServerMessageInfo"@) is Some {
        data_message(item, chat_id, now)
    } else {
        Some(flat_message(item, chat_id, now))
    }
}

/// A session item in the flat format (neither a search item nor one with
/// `ServerMessageInfo`) always gives a message of the chat. Its text is
/// the string under `text`; without `text`, the one under `message_text`;
/// without both, the one under `body`; and none when none of the three is
/// there. Its sender is likewise `from`, `from_guid` or `sender`, else
/// `unknown`.
pub proof fn flat_session_message_fields(item: Json, chat_id: Seq<char>, now: Timestamp)
    requires
        !(item.field("data"@) matches Some(d) && d.field("ServerMessageInfo"@) is Some),
        item.field("ServerMessageInfo"@) is None,
    ensures
        session_message(item, chat_id, now) is Some,
        session_message(item, chat_id, now)->0.chat_id == chat_id,
        item.field("text"@) matches Some(Json::Str(t)) ==> session_message(item, chat_id, now)->0.text == Some(t@),
        item.field("text"@) is None ==> (item.field("message_text"@) matches Some(Json::Str(t))
            ==> session_message(item, chat_id, now)->0.text == Some(t@)),
        item.field("text"@) is None && item.field("message_text"@) is None ==> (item.field("body"@) matches Some(
            Json::Str(t),
        ) ==> session_message(item, chat_id, now)->0.text == Some(t@)),
        item.field("text"@) is None && item.field("message_text"@) is None && item.field("body"@) is None
            ==> session_message(item, chat_id, now)->0.text is None,
        item.field("from"@) matches Some(Json::Str(f)) ==> session_message(item, chat_id, now)->0.from_id == f@,
        item.field("message_id"@) matches Some(Json::Str(i)) ==> session_message(item, chat_id, now)->0.message_id
            == Some(i@),
        item.field("timestamp"@) matches Some(Json::Number(json::JsonNumber::PosInt(n))) ==> (1 <= n <= 1_000_000_000_000
            ==> session_message(item, chat_id, now)->0.created == Timestamp { secs: n as i64, nanos: 0 }),
        item.field("from"@) is None && item.field("from_guid"@) is None && item.field("sender"@) is None
            ==> session_message(item, chat_id, now)->0.from_id == "unknown"@,
{
}

fn first_of<'a>(v: &'a Json, a: &str, b: &str, c: &str) -> (r: Option<&'a Json>)
    ensures
        match r {
            Some(x) => first_member(*v, a@, b@, c@) == Some(*x),
            None => first_member(*v, a@, b@, c@) is None,
        },
{
    match v.get(a) {
        Some(x) => Some(x),
        None => match v.get(b) {
            Some(x) => Some(x),
            None => v.get(c),
        },
    }
}

fn first_text<'a>(v: &'a Json, a: &str, b: &str, c: &str) -> (r: Option<String>)
    ensures
        opt_str(r) == first_str(*v, a@, b@, c@),
{
    match first_of(v, a, b, c) {
        Some(x) => json::get_str_value(x),
        None => None,
    }
}

fn flat(item: &Json, chat_id: &str, now: Timestamp) -> (m: Message)
    ensures
        m@ == flat_message(*item, chat_id@, now),
{
    let from_id = str_or(first_text(item, "from", "from_guid", "sender"), "unknown");
    let ts: i64 = match first_of(item, "timestamp", "ts", "created_at") {
        Some(x) => match x.as_i64() {
            Some(t) => t,
            None => 0,
        },
        None => 0,
    };
    let secs: i64 = if ts > 1_000_000_000_000 {
        ts / 1_000_000
    } else {
        ts
    };
    let created = instant(secs, 0, now);
    let text = first_text(item, "text", "message_text", "body");
    let msg_id = str_or(first_text(item, "message_id", "id", "payload_id"), "unknown");
    let seq_no: u64 = match json::get_u64(item, "seq_no") {
        Some(n) => n,
        None => 0,
    };
    let mut id = String::new();
    text::push_decimal(&mut id, seq_no);
    id.append("_");
    id.append(msg_id.as_str());
    let m = Message {
        id,
        chat_id: chat_id.to_owned(),
        from_id,
        message_id: Some(msg_id),
        text,
        created,
        edited: false,
        reply_to: None,
        edited_at: None,
        updated: None,
        sent: true,
        delivered: true,
        read: true,
    };
    assert(m@.id =~= decimal(seq_no as nat) + "_"@ + m@.message_id->0);
    m
}

/// A message from the session API.
pub fn parse_session_message(item: &Json, chat_id: &str, now: Timestamp) -> (r: Option<Message>)
    ensures
        match r {
            Some(m) => session_message(*item, chat_id@, now) == Some(m@),
            None => session_message(*item, chat_id@, now) is None,
        },
{
    let searchable = match item.get("data") {
        Some(d) => d.get("ServerMessageInfo").is_some(),
        None => false,
    };
    if searchable {
        return parse_search_message(item, chat_id, now);
    }
    if item.get("ServerMessageInfo").is_some() {
        return parse_data_message(item, chat_id, now);
    }
    Some(flat(item, chat_id, now))
}

// ── ordering by time ─────────────────────────────────────────────────

/// Where a message of time `t` goes into a list: after the last message
/// that is not later than `t`, past the run of later ones at the end.
pub open spec fn insert_pos(s: Seq<MessageView>, t: Timestamp) -> int
    decreases s.len(),
{
    if s.len() == 0 {
        0
    } else if later(s.last().created, t) {
        insert_pos(s.drop_last(), t)
    } else {
        s.len() as int
    }
}

pub open spec fn insert_by_time(s: Seq<MessageView>, m: MessageView) -> Seq<MessageView> {
    s.insert(insert_pos(s, m.created), m)
}

/// The messages ordered by time; messages of the same time keep their
/// order (a stable sort, as `sort_by_key` is).
pub open spec fn sorted_by_time(s: Seq<MessageView>) -> Seq<MessageView>
    decreases s.len(),
{
    if s.len() == 0 {
        s
    } else {
        insert_by_time(sorted_by_time(s.drop_last()), s.last())
    }
}

/// No message comes before an earlier one.
pub open spec fn time_ordered(s: Seq<MessageView>) -> bool {
    forall|i: int, j: int| 0 <= i < j < s.len() ==> !later(#[trigger] s[i].created, #[trigger] s[j].created)
}

proof fn lemma_insert_pos(s: Seq<MessageView>, t: Timestamp)
    ensures
        0 <= insert_pos(s, t) <= s.len(),
        forall|k: int| insert_pos(s, t) <= k < s.len() ==> later(#[trigger] s[k].created, t),
        insert_pos(s, t) > 0 ==> !later(s[insert_pos(s, t) - 1].created, t),
    decreases s.len(),
{
    if s.len() > 0 && later(s.last().created, t) {
        lemma_insert_pos(s.drop_last(), t);
        assert forall|k: int| insert_pos(s, t) <= k < s.len() implies later(#[trigger] s[k].created, t) by {
            if k < s.len() - 1 {
                assert(s[k] == s.drop_last()[k]);
            }
        }
        if insert_pos(s, t) > 0 {
            assert(s[insert_pos(s, t) - 1] == s.drop_last()[insert_pos(s, t) - 1]);
        }
    }
}

proof fn lemma_insert_ordered(r: Seq<MessageView>, m: MessageView)
    requires
        time_ordered(r),
    ensures
        time_ordered(insert_by_time(r, m)),
{
    let t = m.created;
    let p = insert_pos(r, t);
    lemma_insert_pos(r, t);
    let out = r.insert(p, m);
    assert forall|i: int, j: int| 0 <= i < j < out.len() implies !later(#[trigger] out[i].created, #[trigger] out[j].created) by {
        if i == p {
            assert(out[j] == r[j - 1]);
        } else if j == p {
            assert(out[i] == r[i]);
            if i < p - 1 {
                assert(!later(r[i].created, r[p - 1].created));
            }
        } else {
            let ri = if i < p { i } else { i - 1 };
            let rj = if j < p { j } else { j - 1 };
            assert(out[i] == r[ri] && out[j] == r[rj]);
        }
    }
}

/// Sorting by time orders the messages, and keeps every one of them as
/// often as it occurs.
pub proof fn sorting_orders_and_keeps(s: Seq<MessageView>)
    ensures
        time_ordered(sorted_by_time(s)),
        sorted_by_time(s).to_multiset() == s.to_multiset(),
    decreases s.len(),
{
    broadcast use vstd::seq_lib::to_multiset_insert, vstd::seq_lib::to_multiset_build;

    if s.len() > 0 {
        sorting_orders_and_keeps(s.drop_last());
        let r = sorted_by_time(s.drop_last());
        lemma_insert_ordered(r, s.last());
        lemma_insert_pos(r, s.last().created);
        assert(s =~= s.drop_last().push(s.last()));
    } else {
        assert(s.to_multiset() =~= sorted_by_time(s).to_multiset());
    }
}

fn copy_opt(s: &Option<String>) -> (r: Option<String>)
    ensures
        r == *s,
{
    match s {
        Some(v) => Some(v.clone()),
        None => None,
    }
}

pub fn copy_message(m: &Message) -> (r: Message)
    ensures
        r == *m,
{
    Message {
        id: m.id.clone(),
        chat_id: m.chat_id.clone(),
        from_id: m.from_id.clone(),
        message_id: copy_opt(&m.message_id),
        text: copy_opt(&m.text),
        reply_to: match &m.reply_to {
            Some(r) => Some(MessageId { chat_id: r.chat_id.clone(), message_id: r.message_id.clone() }),
            None => None,
        },
        created: m.created,
        edited: m.edited,
        edited_at: m.edited_at,
        updated: m.updated,
        sent: m.sent,
        delivered: m.delivered,
        read: m.read,
    }
}

proof fn lemma_views_insert(s: Seq<Message>, p: int, m: Message)
    requires
        0 <= p <= s.len(),
    ensures
        views(s.insert(p, m)) == views(s).insert(p, m@),
{
    assert(views(s.insert(p, m)) =~= views(s).insert(p, m@));
}

fn insert_in_order(out: &mut Vec<Message>, m: Message)
    ensures
        views(final(out)@) == insert_by_time(views(old(out)@), m@),
{
    let ghost v = views(out@);
    let mut p: usize = out.len();
    assert(v.take(p as int) =~= v);
    while p > 0 && is_later(out[p - 1].created, m.created)
        invariant
            p <= out@.len(),
            out@ == old(out)@,
            v == views(out@),
            insert_pos(v, m@.created) == insert_pos(v.take(p as int), m@.created),
        decreases p,
    {
        assert(v.take(p as int).drop_last() =~= v.take(p - 1));
        assert(v.take(p as int).last() == out@[p - 1]@);
        p = p - 1;
    }
    proof {
        if p > 0 {
            assert(v.take(p as int).last() == out@[p - 1]@);
        }
    }
    proof {
        lemma_views_insert(out@, p as int, m);
    }
    out.insert(p, m);
}

/// The messages ordered by time, those of the same time in their order.
pub fn sort_by_created(v: &Vec<Message>) -> (r: Vec<Message>)
    ensures
        views(r@) == sorted_by_time(views(v@)),
{
    let ghost vv = views(v@);
    let mut out: Vec<Message> = Vec::new();
    let mut i: usize = 0;
    assert(vv.take(0) =~= Seq::<MessageView>::empty());
    while i < v.len()
        invariant
            i <= v@.len(),
            vv == views(v@),
            views(out@) == sorted_by_time(vv.take(i as int)),
        decreases v@.len() - i,
    {
        assert(vv.take(i + 1).drop_last() =~= vv.take(i as int));
        assert(vv.take(i + 1).last() == v@[i as int]@);
        insert_in_order(&mut out, copy_message(&v[i]));
        i = i + 1;
    }
    assert(vv.take(v@.len() as int) =~= vv);
    out
}

// ── one message per id ───────────────────────────────────────────────

pub open spec fn has_id(s: Seq<MessageView>, id: Seq<char>) -> bool {
    exists|k: int| 0 <= k < s.len() && #[trigger] s[k].id == id
}

/// The messages without those whose id an earlier one has.
pub open spec fn dedup_ids(s: Seq<MessageView>) -> Seq<MessageView>
    decreases s.len(),
{
    if s.len() == 0 {
        s
    } else if has_id(s.drop_last(), s.last().id) {
        dedup_ids(s.drop_last())
    } else {
        dedup_ids(s.drop_last()).push(s.last())
    }
}

proof fn lemma_dedup_has(s: Seq<MessageView>, id: Seq<char>)
    ensures
        has_id(dedup_ids(s), id) == has_id(s, id),
    decreases s.len(),
{
    if s.len() > 0 {
        let s0 = s.drop_last();
        lemma_dedup_has(s0, id);
        lemma_dedup_has(s0, s.last().id);
        let d0 = dedup_ids(s0);
        if has_id(s, id) {
            let k = choose|k: int| 0 <= k < s.len() && #[trigger] s[k].id == id;
            if k < s.len() - 1 {
                assert(s0[k].id == id);
                let q = choose|q: int| 0 <= q < d0.len() && #[trigger] d0[q].id == id;
                assert(dedup_ids(s)[q] == d0[q] || dedup_ids(s) == d0);
                if dedup_ids(s) != d0 {
                    assert(dedup_ids(s) == d0.push(s.last()));
                    assert(dedup_ids(s)[q].id == id);
                }
            } else if has_id(s0, id) {
                let q = choose|q: int| 0 <= q < d0.len() && #[trigger] d0[q].id == id;
                if dedup_ids(s) != d0 {
                    assert(dedup_ids(s)[q] == d0[q]);
                }
            } else {
                assert(dedup_ids(s) == d0.push(s.last()));
                assert(dedup_ids(s)[d0.len() as int].id == id);
            }
        }
        if has_id(dedup_ids(s), id) {
            let q = choose|q: int| 0 <= q < dedup_ids(s).len() && #[trigger] dedup_ids(s)[q].id == id;
            if q < d0.len() {
                assert(dedup_ids(s)[q] == d0[q]);
                let k = choose|k: int| 0 <= k < s0.len() && #[trigger] s0[k].id == id;
                assert(s[k] == s0[k]);
            } else {
                assert(s[s.len() - 1].id == id);
            }
        }
    }
}

/// Dropping repeated ids leaves each id once, and every id that was there.
pub proof fn dedup_keeps_each_id_once(s: Seq<MessageView>, id: Seq<char>)
    ensures
        forall|i: int, j: int|
            0 <= i < j < dedup_ids(s).len() ==> #[trigger] dedup_ids(s)[i].id != #[trigger] dedup_ids(s)[j].id,
        has_id(dedup_ids(s), id) == has_id(s, id),
    decreases s.len(),
{
    lemma_dedup_has(s, id);
    if s.len() > 0 {
        let s0 = s.drop_last();
        dedup_keeps_each_id_once(s0, id);
        lemma_dedup_has(s0, s.last().id);
        let d0 = dedup_ids(s0);
        let d = dedup_ids(s);
        if !has_id(s0, s.last().id) {
            assert forall|i: int, j: int| 0 <= i < j < d.len() implies #[trigger] d[i].id != #[trigger] d[j].id by {
                if j == d0.len() {
                    assert(d[i] == d0[i]);
                    assert(!(d0[i].id == s.last().id));
                } else {
                    assert(d[i] == d0[i] && d[j] == d0[j]);
                }
            }
        }
    }
}

fn contains_id(out: &Vec<Message>, id: &str) -> (r: bool)
    ensures
        r == has_id(views(out@), id@),
{
    let mut k: usize = 0;
    while k < out.len()
        invariant
            k <= out@.len(),
            forall|j: int| 0 <= j < k ==> #[trigger] out@[j].id@ != id@,
        decreases out@.len() - k,
    {
        if text::str_is(out[k].id.as_str(), id) {
            assert(views(out@)[k as int].id == id@);
            return true;
        }
        k = k + 1;
    }
    proof {
        if has_id(views(out@), id@) {
            let q = choose|q: int| 0 <= q < views(out@).len() && #[trigger] views(out@)[q].id == id@;
            assert(out@[q].id@ == id@);
        }
    }
    false
}

/// The messages with each id kept only at its first place.
pub fn dedup_by_id(v: &Vec<Message>) -> (r: Vec<Message>)
    ensures
        views(r@) == dedup_ids(views(v@)),
{
    let ghost vv = views(v@);
    let mut out: Vec<Message> = Vec::new();
    let mut i: usize = 0;
    assert(vv.take(0) =~= Seq::<MessageView>::empty());
    while i < v.len()
        invariant
            i <= v@.len(),
            vv == views(v@),
            views(out@) == dedup_ids(vv.take(i as int)),
        decreases v@.len() - i,
    {
        let ghost pre = vv.take(i as int);
        assert(vv.take(i + 1).drop_last() =~= pre);
        assert(vv.take(i + 1).last() == v@[i as int]@);
        proof {
            lemma_dedup_has(pre, v@[i as int]@.id);
        }
        if !contains_id(&out, v[i].id.as_str()) {
            let ghost o = out@;
            out.push(copy_message(&v[i]));
            assert(views(out@) =~= views(o).push(v@[i as int]@));
        }
        i = i + 1;
    }
    assert(vv.take(v@.len() as int) =~= vv);
    out
}

// ── lists of messages ────────────────────────────────────────────────

/// An array, or nothing.
pub open spec fn items_of(v: Option<Json>) -> Seq<Json> {
    match v {
        Some(x) => match x.array_value() {
            Some(a) => a,
            None => Seq::empty(),
        },
        None => Seq::empty(),
    }
}

/// `messages.items` of a search answer.
pub open spec fn search_items(data: Json) -> Seq<Json> {
    match data.field("messages"@) {
        Some(m) => items_of(m.field("items"@)),
        None => Seq::empty(),
    }
}

/// One item read in the session format, or in the search format.
pub open spec fn item_message(item: Json, chat_id: Seq<char>, now: Timestamp, session: bool) -> Option<MessageView> {
    if session {
        session_message(item, chat_id, now)
    } else {
        search_message(item, chat_id, now)
    }
}

/// The messages of the items that hold one, in order.
pub open spec fn parsed_items(items: Seq<Json>, chat_id: Seq<char>, now: Timestamp, session: bool) -> Seq<MessageView>
    decreases items.len(),
{
    if items.len() == 0 {
        Seq::empty()
    } else {
        let r = parsed_items(items.drop_last(), chat_id, now, session);
        match item_message(items.last(), chat_id, now, session) {
            Some(m) => r.push(m),
            None => r,
        }
    }
}

/// The messages of the search answers that came back, in order.
pub open spec fn collected(results: Seq<Option<Json>>, chat_id: Seq<char>, now: Timestamp) -> Seq<MessageView>
    decreases results.len(),
{
    if results.len() == 0 {
        Seq::empty()
    } else {
        collected(results.drop_last(), chat_id, now) + match results.last() {
            Some(d) => parsed_items(search_items(d), chat_id, now, false),
            None => Seq::empty(),
        }
    }
}

fn parse_items(items: &Vec<Json>, chat_id: &str, now: Timestamp, session: bool, out: &mut Vec<Message>)
    ensures
        views(final(out)@) == views(old(out)@) + parsed_items(items@, chat_id@, now, session),
{
    let ghost base = views(out@);
    let mut i: usize = 0;
    assert(items@.take(0) =~= Seq::<Json>::empty());
    assert(base + Seq::<MessageView>::empty() =~= base);
    while i < items.len()
        invariant
            i <= items@.len(),
            views(out@) == base + parsed_items(items@.take(i as int), chat_id@, now, session),
        decreases items@.len() - i,
    {
        assert(items@.take(i + 1).drop_last() =~= items@.take(i as int));
        assert(items@.take(i + 1).last() == items@[i as int]);
        let m = if session {
            parse_session_message(&items[i], chat_id, now)
        } else {
            parse_search_message(&items[i], chat_id, now)
        };
        match m {
            Some(msg) => {
                let ghost o = out@;
                out.push(msg);
                assert(views(out@) =~= views(o).push(msg@));
                assert(views(out@) =~= base + parsed_items(items@.take(i + 1), chat_id@, now, session));
            },
            None => {},
        }
        i = i + 1;
    }
    assert(items@.take(items@.len() as int) =~= items@);
}

fn array_in<'a>(v: Option<&'a Json>) -> (r: Option<&'a Vec<Json>>)
    ensures
        items_of(match v {
            Some(x) => Some(*x),
            None => None,
        }) == match r {
            Some(a) => a@,
            None => Seq::empty(),
        },
{
    match v {
        Some(x) => x.as_array(),
        None => None,
    }
}

/// The chat's messages found by the search queries whose answers came
/// back (`None` for a failed query): each id once, at its first place,
/// then ordered by time.
pub fn messages_from_search(results: &Vec<Option<Json>>, chat_id: &str, now: Timestamp) -> (r: Vec<Message>)
    ensures
        views(r@) == sorted_by_time(dedup_ids(collected(results@, chat_id@, now))),
{
    let mut all: Vec<Message> = Vec::new();
    let mut i: usize = 0;
    assert(results@.take(0) =~= Seq::<Option<Json>>::empty());
    while i < results.len()
        invariant
            i <= results@.len(),
            views(all@) == collected(results@.take(i as int), chat_id@, now),
        decreases results@.len() - i,
    {
        assert(results@.take(i + 1).drop_last() =~= results@.take(i as int));
        assert(results@.take(i + 1).last() == results@[i as int]);
        match &results[i] {
            Some(data) => {
                let items = match data.get("messages") {
                    Some(m) => array_in(m.get("items")),
                    None => None,
                };
                match items {
                    Some(a) => parse_items(a, chat_id, now, false, &mut all),
                    None => {
                        assert(views(all@) + Seq::<MessageView>::empty() =~= views(all@));
                    },
                }
            },
            None => {
                assert(views(all@) + Seq::<MessageView>::empty() =~= views(all@));
            },
        }
        i = i + 1;
    }
    assert(results@.take(results@.len() as int) =~= results@);
    let unique = dedup_by_id(&all);
    sort_by_created(&unique)
}

/// The messages of a session answer's `messages`, ordered by time.
pub fn messages_from_session(data: &Json, chat_id: &str, now: Timestamp) -> (r: Vec<Message>)
    ensures
        views(r@) == sorted_by_time(parsed_items(items_of(data.field("messages"@)), chat_id@, now, true)),
{
    let mut all: Vec<Message> = Vec::new();
    match array_in(data.get("messages")) {
        Some(items) => {
            parse_items(items, chat_id, now, true, &mut all);
            assert(views(all@) =~= parsed_items(items@, chat_id@, now, true));
        },
        None => {
            assert(views(all@) =~= parsed_items(Seq::<Json>::empty(), chat_id@, now, true));
        },
    }
    sort_by_created(&all)
}

/// The messages of `s` whose id none of `known` has.
pub open spec fn without_known(s: Seq<MessageView>, known: Seq<MessageView>) -> Seq<MessageView>
    decreases s.len(),
{
    if s.len() == 0 {
        s
    } else if has_id(known, s.last().id) {
        without_known(s.drop_last(), known)
    } else {
        without_known(s.drop_last(), known).push(s.last())
    }
}

fn copy_messages(v: &Vec<Message>) -> (r: Vec<Message>)
    ensures
        r@ == v@,
{
    let mut out: Vec<Message> = Vec::new();
    let mut i: usize = 0;
    while i < v.len()
        invariant
            i <= v@.len(),
            out@ == v@.take(i as int),
        decreases v@.len() - i,
    {
        out.push(copy_message(&v[i]));
        assert(out@ =~= v@.take(i + 1));
        i = i + 1;
    }
    assert(v@.take(v@.len() as int) =~= v@);
    out
}

/// Merges a page of older messages into the loaded ones. The new ones are
/// those whose id is not loaded yet, ordered by time; when there are any,
/// the loaded list becomes new and loaded together, ordered by time, each
/// id once. Returns the new ones.
pub fn merge_older(existing: &mut Vec<Message>, older: &Vec<Message>) -> (new_ones: Vec<Message>)
    ensures
        views(new_ones@) == sorted_by_time(without_known(views(older@), views(old(existing)@))),
        new_ones@.len() == 0 ==> final(existing)@ == old(existing)@,
        new_ones@.len() > 0 ==> views(final(existing)@) == dedup_ids(
            sorted_by_time(views(new_ones@) + views(old(existing)@)),
        ),
{
    let ghost known = views(existing@);
    let ghost ov = views(older@);
    let mut fresh: Vec<Message> = Vec::new();
    let mut i: usize = 0;
    assert(ov.take(0) =~= Seq::<MessageView>::empty());
    while i < older.len()
        invariant
            i <= older@.len(),
            known == views(existing@),
            ov == views(older@),
            views(fresh@) == without_known(ov.take(i as int), known),
        decreases older@.len() - i,
    {
        assert(ov.take(i + 1).drop_last() =~= ov.take(i as int));
        assert(ov.take(i + 1).last() == older@[i as int]@);
        if !contains_id(existing, older[i].id.as_str()) {
            let ghost o = fresh@;
            fresh.push(copy_message(&older[i]));
            assert(views(fresh@) =~= views(o).push(older@[i as int]@));
        }
        i = i + 1;
    }
    assert(ov.take(older@.len() as int) =~= ov);
    let new_ones = sort_by_created(&fresh);
    if new_ones.len() > 0 {
        let mut merged = copy_messages(&new_ones);
        let mut k: usize = 0;
        let ghost n = merged@;
        while k < existing.len()
            invariant
                k <= existing@.len(),
                merged@ == n + existing@.take(k as int),
            decreases existing@.len() - k,
        {
            merged.push(copy_message(&existing[k]));
            assert(merged@ =~= n + existing@.take(k + 1));
            k = k + 1;
        }
        assert(existing@.take(existing@.len() as int) =~= existing@);
        assert(views(merged@) =~= views(new_ones@) + views(existing@));
        let sorted = sort_by_created(&merged);
        *existing = dedup_by_id(&sorted);
    }
    new_ones
}

// ── laws of the lists ────────────────────────────────────────────────

/// No id occurs twice.
pub open spec fn ids_unique(s: Seq<MessageView>) -> bool {
    forall|i: int, j: int| 0 <= i < j < s.len() ==> #[trigger] s[i].id != #[trigger] s[j].id
}

proof fn lemma_sorted_has(s: Seq<MessageView>, id: Seq<char>)
    ensures
        has_id(sorted_by_time(s), id) == has_id(s, id),
{
    broadcast use vstd::seq_lib::to_multiset_contains;

    sorting_orders_and_keeps(s);
    let r = sorted_by_time(s);
    if has_id(s, id) {
        let k = choose|k: int| 0 <= k < s.len() && #[trigger] s[k].id == id;
        assert(s.contains(s[k]));
        assert(s.to_multiset().count(s[k]) > 0);
        assert(r.to_multiset().count(s[k]) > 0);
        assert(r.contains(s[k]));
        let q = choose|q: int| 0 <= q < r.len() && r[q] == s[k];
        assert(r[q].id == id);
    }
    if has_id(r, id) {
        let q = choose|q: int| 0 <= q < r.len() && #[trigger] r[q].id == id;
        assert(r.contains(r[q]));
        assert(r.to_multiset().count(r[q]) > 0);
        assert(s.to_multiset().count(r[q]) > 0);
        assert(s.contains(r[q]));
        let k = choose|k: int| 0 <= k < s.len() && s[k] == r[q];
        assert(s[k].id == id);
    }
}

proof fn lemma_without_has(s: Seq<MessageView>, known: Seq<MessageView>, id: Seq<char>)
    ensures
        has_id(without_known(s, known), id) == (has_id(s, id) && !has_id(known, id)),
    decreases s.len(),
{
    if s.len() > 0 {
        let s0 = s.drop_last();
        lemma_without_has(s0, known, id);
        let w0 = without_known(s0, known);
        let w = without_known(s, known);
        if has_id(w, id) {
            let q = choose|q: int| 0 <= q < w.len() && #[trigger] w[q].id == id;
            if q < w0.len() {
                assert(w[q] == w0[q]);
                let k = choose|k: int| 0 <= k < s0.len() && #[trigger] s0[k].id == id;
                assert(s[k] == s0[k]);
            } else {
                assert(w[q] == s.last());
                assert(s[s.len() - 1].id == id);
            }
        }
        if has_id(s, id) && !has_id(known, id) {
            let k = choose|k: int| 0 <= k < s.len() && #[trigger] s[k].id == id;
            if k < s.len() - 1 {
                assert(s0[k].id == id);
                let q = choose|q: int| 0 <= q < w0.len() && #[trigger] w0[q].id == id;
                if w != w0 {
                    assert(w[q] == w0[q]);
                }
            } else {
                assert(w == w0.push(s.last()));
                assert(w[w0.len() as int].id == id);
            }
        }
    }
}

proof fn lemma_concat_has(a: Seq<MessageView>, b: Seq<MessageView>, id: Seq<char>)
    ensures
        has_id(a + b, id) == (has_id(a, id) || has_id(b, id)),
{
    if has_id(a + b, id) {
        let q = choose|q: int| 0 <= q < (a + b).len() && #[trigger] (a + b)[q].id == id;
        if q < a.len() {
            assert(a[q].id == id);
        } else {
            assert(b[q - a.len()].id == id);
        }
    }
    if has_id(a, id) {
        let k = choose|k: int| 0 <= k < a.len() && #[trigger] a[k].id == id;
        assert((a + b)[k].id == id);
    }
    if has_id(b, id) {
        let k = choose|k: int| 0 <= k < b.len() && #[trigger] b[k].id == id;
        assert((a + b)[a.len() + k].id == id);
    }
}

proof fn lemma_dedup_from(s: Seq<MessageView>)
    ensures
        forall|i: int| 0 <= i < dedup_ids(s).len() ==> exists|k: int| 0 <= k < s.len() && #[trigger] dedup_ids(s)[i] == s[k],
    decreases s.len(),
{
    if s.len() > 0 {
        let s0 = s.drop_last();
        lemma_dedup_from(s0);
        let d0 = dedup_ids(s0);
        let d = dedup_ids(s);
        assert forall|i: int| 0 <= i < d.len() implies exists|k: int| 0 <= k < s.len() && #[trigger] d[i] == s[k] by {
            if i < d0.len() {
                assert(d[i] == d0[i]);
                let k = choose|k: int| 0 <= k < s0.len() && #[trigger] d0[i] == s0[k];
                assert(s[k] == s0[k]);
            } else {
                assert(d[i] == s[s.len() - 1]);
            }
        }
    }
}

proof fn lemma_dedup_ordered(s: Seq<MessageView>)
    requires
        time_ordered(s),
    ensures
        time_ordered(dedup_ids(s)),
    decreases s.len(),
{
    if s.len() > 0 {
        let s0 = s.drop_last();
        assert(time_ordered(s0)) by {
            assert forall|i: int, j: int| 0 <= i < j < s0.len() implies !later(#[trigger] s0[i].created, #[trigger] s0[j].created) by {
                assert(s0[i] == s[i] && s0[j] == s[j]);
            }
        }
        lemma_dedup_ordered(s0);
        lemma_dedup_from(s0);
        let d0 = dedup_ids(s0);
        let d = dedup_ids(s);
        assert forall|i: int, j: int| 0 <= i < j < d.len() implies !later(#[trigger] d[i].created, #[trigger] d[j].created) by {
            if j < d0.len() {
                assert(d[i] == d0[i] && d[j] == d0[j]);
            } else {
                assert(d[i] == d0[i]);
                let k = choose|k: int| 0 <= k < s0.len() && #[trigger] d0[i] == s0[k];
                assert(s0[k] == s[k]);
                assert(d[j] == s[s.len() - 1]);
            }
        }
    }
}

/// What the loaded list becomes after a page of older messages: itself
/// when the page holds no new id, else the new and the loaded messages
/// together, ordered by time, each id once.
pub open spec fn merged_list(loaded: Seq<MessageView>, older: Seq<MessageView>) -> Seq<MessageView> {
    let n = sorted_by_time(without_known(older, loaded));
    if n.len() > 0 {
        dedup_ids(sorted_by_time(n + loaded))
    } else {
        loaded
    }
}

/// Merging a page of older messages loses no id and adds no other: the
/// list then holds exactly the ids that were loaded or on the page; when
/// the page brought something new, the list is in time order with each
/// id once.
pub proof fn merge_keeps_every_id(loaded: Seq<MessageView>, older: Seq<MessageView>, id: Seq<char>)
    ensures
        has_id(merged_list(loaded, older), id) == (has_id(loaded, id) || has_id(older, id)),
        sorted_by_time(without_known(older, loaded)).len() > 0 ==> time_ordered(merged_list(loaded, older))
            && ids_unique(merged_list(loaded, older)),
{
    let w = without_known(older, loaded);
    let n = sorted_by_time(w);
    lemma_without_has(older, loaded, id);
    lemma_sorted_has(w, id);
    if n.len() > 0 {
        let all = sorted_by_time(n + loaded);
        lemma_concat_has(n, loaded, id);
        lemma_sorted_has(n + loaded, id);
        dedup_keeps_each_id_once(all, id);
        sorting_orders_and_keeps(n + loaded);
        lemma_dedup_ordered(all);
    } else {
        if has_id(older, id) && !has_id(loaded, id) {
            assert(has_id(w, id));
            assert(has_id(n, id));
        }
    }
}

// ── requests ─────────────────────────────────────────────────────────

/// The `params` of the session `messages` call: the chat, at most 50
/// messages, older ones, starting from `from` when given.
pub fn history_params(chat_id: &str, from: Option<&str>, limit: usize) -> (r: Json)
    ensures
        r matches Json::Object(m) && m@.len() == (if from is Some { 4int } else { 3int }) && m@[0].0@
            == "chat_id"@ && m@[0].1.str_value() == Some(chat_id@) && m@[1].0@ == "limit"@ && m@[1].1.u64_value()
            == Some((if limit < 50 { limit } else { 50 }) as u64) && m@[2].0@ == "direction"@ && m@[2].1.str_value()
            == Some("older"@) && (from matches Some(f) ==> m@[3].0@ == "from_message_id"@ && m@[3].1.str_value()
            == Some(f@)),
{
    let n: usize = if limit < 50 {
        limit
    } else {
        50
    };
    let mut m: Vec<(String, Json)> = Vec::new();
    m.push(("chat_id".to_owned(), Json::Str(chat_id.to_owned())));
    m.push(("limit".to_owned(), Json::Number(json::JsonNumber::PosInt(n as u64))));
    m.push(("direction".to_owned(), Json::Str("older".to_owned())));
    match from {
        Some(f) => {
            m.push(("from_message_id".to_owned(), Json::Str(f.to_owned())));
        },
        None => {},
    }
    Json::Object(m)
}

/// The queries whose search results stand in for a chat's history.
pub fn search_queries() -> (r: Vec<&'static str>)
    ensures
        r@.len() == 10,
        r@[0]@ == "привет"@,
        r@[1]@ == "как дела"@,
        r@[2]@ == "до свидания"@,
        r@[3]@ == "спасибо"@,
        r@[4]@ == "хорошо"@,
        r@[5]@ == "ок"@,
        r@[6]@ == "да"@,
        r@[7]@ == "нет"@,
        r@[8]@ == "встреча"@,
        r@[9]@ == "завтра"@,
{
    let mut v: Vec<&'static str> = Vec::new();
    v.push("привет");
    v.push("как дела");
    v.push("до свидания");
    v.push("спасибо");
    v.push("хорошо");
    v.push("ок");
    v.push("да");
    v.push("нет");
    v.push("встреча");
    v.push("завтра");
    v
}

/// The `params` of one `search` call for messages of a chat.
pub fn search_params(chat_id: &str, query: &str) -> (r: Json)
    ensures
        r matches Json::Object(m) && m@.len() == 3 && m@[0].0@ == "entities"@ && (m@[0].1 matches Json::Array(
            a,
        ) && a@.len() == 1 && a@[0].str_value() == Some("messages"@)) && m@[1].0@ == "chat_id"@
            && m@[1].1.str_value() == Some(chat_id@) && m@[2].0@ == "query"@ && m@[2].1.str_value() == Some(
            query@,
        ),
{
    let mut entities: Vec<Json> = Vec::new();
    entities.push(Json::Str("messages".to_owned()));
    let mut m: Vec<(String, Json)> = Vec::new();
    m.push(("entities".to_owned(), Json::Array(entities)));
    m.push(("chat_id".to_owned(), Json::Str(chat_id.to_owned())));
    m.push(("query".to_owned(), Json::Str(query.to_owned())));
    Json::Object(m)
}

/// The body of an RPC call: `{"method": method, "params": params}`.
pub fn rpc_body(method: &str, params: Json) -> (r: Json)
    ensures
        r matches Json::Object(m) && m@.len() == 2 && m@[0].0@ == "method"@ && m@[0].1.str_value() == Some(
            method@,
        ) && m@[1].0@ == "params"@ && m@[1].1 == params,
{
    let mut m: Vec<(String, Json)> = Vec::new();
    m.push(("method".to_owned(), Json::Str(method.to_owned())));
    m.push(("params".to_owned(), params));
    Json::Object(m)
}

/// How an RPC answer reads: an answer whose `status` is `"error"` is
/// refused with its `data` (when there is one); any other answer gives its
/// `data`, `null` when missing.
pub open spec fn rpc_outcome(v: Json) -> Result<Option<Json>, Option<Json>> {
    if str_field(v, "status"@) == Some("error"@) {
        Err(v.field("data"@))
    } else {
        Ok(v.field("data"@))
    }
}

/// The `data` of an RPC answer (`Json::Null` when missing), or the
/// refusal with the `data` it carries.
pub fn rpc_data(v: Json) -> (r: Result<Json, Option<Json>>)
    ensures
        match rpc_outcome(v) {
            Ok(Some(d)) => r == Ok::<Json, Option<Json>>(d),
            Ok(None) => r == Ok::<Json, Option<Json>>(Json::Null),
            Err(e) => r == Err::<Json, Option<Json>>(e),
        },
{
    let refused = match json::get_str(&v, "status") {
        Some(st) => text::str_is(st.as_str(), "error"),
        None => false,
    };
    let data = take_member(v, "data");
    if refused {
        Err(data)
    } else {
        match data {
            Some(d) => Ok(d),
            None => Ok(Json::Null),
        }
    }
}

/// The member `key` of an object, taken out of it.
fn take_member(v: Json, key: &str) -> (r: Option<Json>)
    ensures
        r == v.field(key@),
{
    match v {
        Json::Object(members) => {
            let ghost all = members@;
            let mut rest = members;
            let mut i: usize = 0;
            assert(all.skip(0) =~= all);
            while i < rest.len()
                invariant
                    rest@ == all,
                    v.field(key@) == json::member_of(all, key@),
                    i <= all.len(),
                    json::member_of(all, key@) == json::member_of(all.skip(i as int), key@),
                decreases all.len() - i,
            {
                assert(all.skip(i as int)[0] == all[i as int]);
                if text::str_is(rest[i].0.as_str(), key) {
                    assert(json::member_of(all.skip(i as int), key@) == Some(all[i as int].1));
                    let pair = rest.swap_remove(i);
                    assert(pair == all[i as int]);
                    return Some(pair.1);
                }
                assert(all.skip(i as int).drop_first() =~= all.skip(i + 1));
                i = i + 1;
            }
            None
        },
        _ => None,
    }
}

/// An RPC refusal that asks for a fresh CSRF token: `data.code` is
/// `bad_csrf_token`.
pub fn bad_csrf(v: &Json) -> (b: bool)
    ensures
        b == (str_field(*v, "status"@) == Some("error"@) && match v.field("data"@) {
            Some(d) => str_field(d, "code"@) == Some("bad_csrf_token"@),
            None => false,
        }),
{
    let refused = match json::get_str(v, "status") {
        Some(st) => text::str_is(st.as_str(), "error"),
        None => false,
    };
    if !refused {
        return false;
    }
    match v.get("data") {
        Some(d) => match json::get_str(d, "code") {
            Some(c) => text::str_is(c.as_str(), "bad_csrf_token"),
            None => false,
        },
        None => false,
    }
}

} // verus!
