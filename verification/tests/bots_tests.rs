use ymessenger::bots::{
    bot_callback_params, bot_command_params, bot_command_ws_params, bot_messages_params, bot_params,
    get_bot_chat_id, start_bot_params,
};
use ymessenger::json::{Json, JsonNumber};

fn s(v: &str) -> Json {
    Json::Str(v.to_string())
}

fn members(v: &Json) -> Vec<(String, String)> {
    match v {
        Json::Object(m) => m
            .iter()
            .map(|(k, v)| match v {
                Json::Str(t) => (k.clone(), t.clone()),
                Json::Number(JsonNumber::PosInt(n)) => (k.clone(), n.to_string()),
                _ => (k.clone(), "?".to_string()),
            })
            .collect(),
        _ => panic!("not an object"),
    }
}

fn pairs(p: &[(&str, &str)]) -> Vec<(String, String)> {
    p.iter().map(|(k, v)| (k.to_string(), v.to_string())).collect()
}

#[test]
fn bot_chat_and_params() {
    assert_eq!(get_bot_chat_id("42"), "bot_42");
    assert_eq!(members(&bot_params("42")), pairs(&[("botId", "42")]));
    assert_eq!(members(&bot_callback_params("42", "cb")), pairs(&[("botId", "42"), ("callbackData", "cb")]));
    assert_eq!(members(&start_bot_params("42", "ref")), pairs(&[("botId", "42"), ("startParam", "ref")]));
    assert_eq!(members(&bot_command_ws_params("42", "help")), pairs(&[("botId", "42"), ("command", "help")]));
    assert_eq!(members(&bot_messages_params("42", 20)), pairs(&[("botId", "42"), ("limit", "20")]));
}

#[test]
fn bot_command_goes_to_the_bot_chat() {
    let p = bot_command_params("7", "start", s("x"));
    match p {
        Json::Object(m) => {
            assert_eq!(m.len(), 3);
            assert_eq!(m[0].0, "chat_id");
            assert!(matches!(&m[0].1, Json::Str(t) if t == "bot_7"));
            assert_eq!(m[1].0, "text");
            assert!(matches!(&m[1].1, Json::Str(t) if t == "/start"));
            assert_eq!(m[2].0, "bot_params");
            assert!(matches!(&m[2].1, Json::Str(t) if t == "x"));
        }
        _ => panic!("not an object"),
    }
}
