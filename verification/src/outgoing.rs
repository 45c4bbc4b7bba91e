//! A text message sent over the push socket: the `ClientMessage` it is
//! sent as, the web-client payload that goes with it, and the message the
//! chat shows at once.

use vstd::prelude::*;
use vstd::utf8::encode_utf8;

use crate::auth::{base64_of, base64_standard};
use crate::goloom::{self, opt_view};
use crate::json::Json;
use crate::messages::{Message, Timestamp};

verus! {

/// The Passport uid announced when the session has none.
pub const DEFAULT_YUID: &'static str = "1057346851777820885";

/// The session's uid, else the default one.
pub fn yuid_or_default(y: Option<String>) -> (r: String)
    ensures
        r@ == match y {
            Some(v) => v@,
            None => DEFAULT_YUID@,
        },
{
    match y {
        Some(v) => v,
        None => DEFAULT_YUID.to_owned(),
    }
}

/// Four groups of four lower-case hex digits joined by `-`.
pub open spec fn is_service_id(s: Seq<char>) -> bool {
    &&& s.len() == 19
    &&& forall|i: int|
        0 <= i < 19 ==> if i == 4 || i == 9 || i == 14 {
            #[trigger] s[i] == '-'
        } else {
            goloom::is_lower_hex(s[i])
        }
}

/// A fresh random client id: the first four hex digits of four random
/// UUIDs, joined by `-`.
pub fn service_id() -> (s: String)
    ensures
        is_service_id(s@),
{
    let mut out = String::new();
    let mut g: usize = 0;
    while g < 4
        invariant
            g <= 4,
            out@.len() == 5 * g - (if g > 0 { 1int } else { 0int }),
            forall|i: int|
                0 <= i < out@.len() ==> if i == 4 || i == 9 || i == 14 {
                    #[trigger] out@[i] == '-'
                } else {
                    goloom::is_lower_hex(out@[i])
                },
        decreases 4 - g,
    {
        if g > 0 {
            crate::text::push_char(&mut out, '-');
        }
        let hex = crate::text::chars_of(crate::goloom_call::random_hex32().as_str());
        let mut k: usize = 0;
        while k < 4
            invariant
                g < 4,
                k <= 4,
                hex@.len() == 32,
                forall|i: int| 0 <= i < 32 ==> goloom::is_lower_hex(#[trigger] hex@[i]),
                out@.len() == 5 * g + k,
                forall|i: int|
                    0 <= i < out@.len() ==> if i == 4 || i == 9 || i == 14 {
                        #[trigger] out@[i] == '-'
                    } else {
                        goloom::is_lower_hex(out@[i])
                    },
            decreases 4 - k,
        {
            let ghost before = out@;
            crate::text::push_char(&mut out, hex[k]);
            assert(out@[out@.len() - 1] == hex@[k as int]);
            assert(forall|i: int| 0 <= i < before.len() ==> out@[i] == before[i]);
            k = k + 1;
        }
        g = g + 1;
    }
    out
}

/// A string member.
pub open spec fn str_member(m: (String, Json), key: Seq<char>, value: Seq<char>) -> bool {
    m.0@ == key && m.1.str_value() == Some(value)
}

/// The web client's `service` payload sent with a message.
pub open spec fn is_custom_payload(r: Json, yuid: Seq<char>, id: Seq<char>) -> bool {
    r matches Json::Object(top) && top@.len() == 1 && top@[0].0@ == "service"@ && (top@[0].1 matches Json::Object(
        m,
    ) && m@.len() == 8 && str_member(m@[0], "serviceName"@, "WEB"@) && str_member(
        m@[1],
        "region"@,
        "Санкт-Петербург"@,
    ) && str_member(m@[2], "yuid"@, yuid) && m@[3].0@ == "isHistory"@ && m@[3].1.bool_value() == Some(true)
        && str_member(m@[4], "ui"@, "desktop"@) && str_member(
        m@[5],
        "ua"@,
        "Mozilla/5.0 (X11; Linux x86_64) AppleWebKit/537.36 (KHTML, like Gecko) Chrome/120.0.0.0 Safari/537.36"@,
    ) && str_member(m@[6], "id"@, id) && str_member(m@[7], "version"@, "3.18.0"@))
}

fn str_pair(k: &str, v: &str) -> (p: (String, Json))
    ensures
        str_member(p, k@, v@),
{
    (k.to_owned(), Json::Str(v.to_owned()))
}

pub fn custom_payload(yuid: &str, id: &str) -> (r: Json)
    ensures
        is_custom_payload(r, yuid@, id@),
{
    let mut m: Vec<(String, Json)> = Vec::new();
    m.push(str_pair("serviceName", "WEB"));
    m.push(str_pair("region", "Санкт-Петербург"));
    m.push(str_pair("yuid", yuid));
    m.push(("isHistory".to_owned(), Json::Bool(true)));
    m.push(str_pair("ui", "desktop"));
    m.push(
        str_pair(
            "ua",
            "Mozilla/5.0 (X11; Linux x86_64) AppleWebKit/537.36 (KHTML, like Gecko) Chrome/120.0.0.0 Safari/537.36",
        ),
    );
    m.push(str_pair("id", id));
    m.push(str_pair("version", "3.18.0"));
    let mut top: Vec<(String, Json)> = Vec::new();
    top.push(("service".to_owned(), Json::Object(m)));
    Json::Object(top)
}

/// The base64 of the serialised payload, as it is carried in
/// `CustomPayload`.
pub fn encode_payload(serialized: &str) -> (r: String)
    requires
        encode_utf8(serialized@).len() <= usize::MAX / 2,
    ensures
        r@ == base64_of(encode_utf8(serialized@)),
{
    base64_standard(serialized.as_bytes())
}

/// The `ClientMessage` a text is sent as: its chat, text, payload id and
/// custom payload, and the message it replies to when there is one.
pub open spec fn is_text_payload(r: Json, chat_id: Seq<char>, text: Seq<char>, payload_id: Seq<char>, custom: Seq<char>, reply_to: Option<Seq<char>>) -> bool {
    r matches Json::Object(top) && top@.len() == 1 && top@[0].0@ == "ClientMessage"@ && (top@[0].1 matches Json::Object(
        cm,
    ) && cm@.len() == 1 && cm@[0].0@ == "Plain"@ && (cm@[0].1 matches Json::Object(p) && p@.len() == (if reply_to is Some {
        5int
    } else {
        4int
    }) && str_member(p@[0], "ChatId"@, chat_id) && p@[1].0@ == "Text"@ && (p@[1].1 matches Json::Object(t) && t@.len()
        == 1 && str_member(t@[0], "MessageText"@, text)) && str_member(p@[2], "PayloadId"@, payload_id)
        && str_member(p@[3], "CustomPayload"@, custom) && (reply_to matches Some(rt) ==> str_member(
        p@[4],
        "ReplyTo"@,
        rt,
    ))))
}

pub fn text_payload(chat_id: &str, text: &str, payload_id: &str, custom: &str, reply_to: Option<&str>) -> (r: Json)
    ensures
        is_text_payload(r, chat_id@, text@, payload_id@, custom@, opt_view(reply_to)),
{
    let mut t: Vec<(String, Json)> = Vec::new();
    t.push(str_pair("MessageText", text));
    let mut p: Vec<(String, Json)> = Vec::new();
    p.push(str_pair("ChatId", chat_id));
    p.push(("Text".to_owned(), Json::Object(t)));
    p.push(str_pair("PayloadId", payload_id));
    p.push(str_pair("CustomPayload", custom));
    match reply_to {
        Some(rt) => {
            p.push(str_pair("ReplyTo", rt));
        },
        None => {},
    }
    let mut cm: Vec<(String, Json)> = Vec::new();
    cm.push(("Plain".to_owned(), Json::Object(p)));
    let mut top: Vec<(String, Json)> = Vec::new();
    top.push(("ClientMessage".to_owned(), Json::Object(cm)));
    Json::Object(top)
}

/// The message the chat shows as soon as a text is sent: under its
/// payload id, from the current account, dated `now`.
pub fn sent_text_message(payload_id: &str, chat_id: &str, from_id: &str, text: &str, now: Timestamp) -> (m: Message)
    ensures
        m.id@ == payload_id@,
        m.chat_id@ == chat_id@,
        m.from_id@ == from_id@,
        m.message_id matches Some(p) && p@ == payload_id@,
        m.text matches Some(t) && t@ == text@,
        m.created == now,
        !m.edited,
        m.sent && !m.delivered && !m.read,
{
    Message {
        id: payload_id.to_owned(),
        chat_id: chat_id.to_owned(),
        from_id: from_id.to_owned(),
        message_id: Some(payload_id.to_owned()),
        text: Some(text.to_owned()),
        created: now,
        edited: false,
        reply_to: None,
        edited_at: None,
        updated: None,
        sent: true,
        delivered: false,
        read: false,
    }
}

} // verus!
