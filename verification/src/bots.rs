//! Requests to chat bots: the chat a bot talks in, and the parameters of
//! the bot calls made over RPC and over the push socket.

use vstd::prelude::*;

use crate::json::{Json, JsonNumber};
use crate::text::concat2;

verus! {

/// An object whose members, in order, are the given names with string
/// values.
pub open spec fn is_text_object(v: Json, members: Seq<(Seq<char>, Seq<char>)>) -> bool {
    v matches Json::Object(m) && m@.len() == members.len() && forall|i: int|
        0 <= i < m@.len() ==> (#[trigger] m@[i]).0@ == members[i].0 && m@[i].1.str_value() == Some(members[i].1)
}

fn text_object2(k0: &str, v0: &str, k1: &str, v1: &str) -> (r: Json)
    ensures
        is_text_object(r, seq![(k0@, v0@), (k1@, v1@)]),
{
    let mut m: Vec<(String, Json)> = Vec::new();
    m.push((k0.to_owned(), Json::Str(v0.to_owned())));
    m.push((k1.to_owned(), Json::Str(v1.to_owned())));
    Json::Object(m)
}

/// The chat with a bot: `bot_` and the bot's id.
pub fn get_bot_chat_id(bot_id: &str) -> (r: String)
    ensures
        r@ == "bot_"@ + bot_id@,
{
    concat2("bot_", bot_id)
}

/// `{"botId": bot_id}`: the parameters of `get_bot`, `get_bot_commands`
/// and `subscribe_bot`.
pub fn bot_params(bot_id: &str) -> (r: Json)
    ensures
        is_text_object(r, seq![("botId"@, bot_id@)]),
{
    let mut m: Vec<(String, Json)> = Vec::new();
    m.push(("botId".to_owned(), Json::Str(bot_id.to_owned())));
    Json::Object(m)
}

/// A command sent to a bot as a message: in the bot's chat, the text `/`
/// and the command, with the command's parameters.
pub fn bot_command_params(bot_id: &str, command: &str, params: Json) -> (r: Json)
    ensures
        r matches Json::Object(m) && m@.len() == 3 && m@[0].0@ == "chat_id"@ && m@[0].1.str_value() == Some(
            "bot_"@ + bot_id@,
        ) && m@[1].0@ == "text"@ && m@[1].1.str_value() == Some("/"@ + command@) && m@[2].0@ == "bot_params"@
            && m@[2].1 == params,
{
    let mut m: Vec<(String, Json)> = Vec::new();
    m.push(("chat_id".to_owned(), Json::Str(get_bot_chat_id(bot_id))));
    m.push(("text".to_owned(), Json::Str(concat2("/", command))));
    m.push(("bot_params".to_owned(), params));
    Json::Object(m)
}

/// `{"botId", "callbackData"}`: an inline button pressed, over RPC
/// (`inline_callback`) or over the push socket (`bot_callback`).
pub fn bot_callback_params(bot_id: &str, callback_data: &str) -> (r: Json)
    ensures
        is_text_object(r, seq![("botId"@, bot_id@), ("callbackData"@, callback_data@)]),
{
    text_object2("botId", bot_id, "callbackData", callback_data)
}

/// `{"botId", "startParam"}`: the parameters of `start_bot`.
pub fn start_bot_params(bot_id: &str, start_param: &str) -> (r: Json)
    ensures
        is_text_object(r, seq![("botId"@, bot_id@), ("startParam"@, start_param@)]),
{
    text_object2("botId", bot_id, "startParam", start_param)
}

/// `{"botId", "command"}`: a command sent over the push socket.
pub fn bot_command_ws_params(bot_id: &str, command: &str) -> (r: Json)
    ensures
        is_text_object(r, seq![("botId"@, bot_id@), ("command"@, command@)]),
{
    text_object2("botId", bot_id, "command", command)
}

/// `{"botId", "limit"}`: the parameters of `get_bot_messages`.
pub fn bot_messages_params(bot_id: &str, limit: u64) -> (r: Json)
    ensures
        r matches Json::Object(m) && m@.len() == 2 && m@[0].0@ == "botId"@ && m@[0].1.str_value() == Some(bot_id@)
            && m@[1].0@ == "limit"@ && m@[1].1.u64_value() == Some(limit),
{
    let mut m: Vec<(String, Json)> = Vec::new();
    m.push(("botId".to_owned(), Json::Str(bot_id.to_owned())));
    m.push(("limit".to_owned(), Json::Number(JsonNumber::PosInt(limit))));
    Json::Object(m)
}

} // verus!
