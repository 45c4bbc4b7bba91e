use ymessenger::json::{Json, JsonNumber};
use ymessenger::messages::{
    bad_csrf, dedup_by_id, history_params, merge_older, messages_from_search, messages_from_session,
    parse_search_message, parse_session_message, rpc_body, rpc_data, search_params, search_queries,
    sort_by_created, Message, Timestamp,
};

fn obj(members: Vec<(&str, Json)>) -> Json {
    Json::Object(members.into_iter().map(|(k, v)| (k.to_string(), v)).collect())
}

fn s(v: &str) -> Json {
    Json::Str(v.to_string())
}

fn n(v: u64) -> Json {
    Json::Number(JsonNumber::PosInt(v))
}

fn neg(v: i64) -> Json {
    Json::Number(JsonNumber::NegInt(v))
}

const NOW: Timestamp = Timestamp { secs: 42, nanos: 7 };

fn search_item(seq: u64, payload: &str, ts: Json, text: &str) -> Json {
    obj(vec![(
        "data",
        obj(vec![
            (
                "ServerMessageInfo",
                obj(vec![
                    ("From", obj(vec![("Guid", s("u1"))])),
                    ("Timestamp", ts),
                    ("SeqNo", n(seq)),
                    ("Version", n(2)),
                ]),
            ),
            (
                "ClientMessage",
                obj(vec![(
                    "Plain",
                    obj(vec![("Text", obj(vec![("MessageText", s(text))])), ("PayloadId", s(payload))]),
                )]),
            ),
        ]),
    )])
}

fn msg(id: &str, secs: i64) -> Message {
    Message {
        id: id.to_string(),
        chat_id: "c".to_string(),
        from_id: "u".to_string(),
        message_id: None,
        text: None,
        reply_to: None,
        created: Timestamp { secs, nanos: 0 },
        edited: false,
        edited_at: None,
        updated: None,
        sent: true,
        delivered: true,
        read: true,
    }
}

#[test]
fn search_message_reads_all_fields() {
    let m = parse_search_message(&search_item(5, "p1", n(1_700_000_000_123_456), "hi"), "chat", NOW).unwrap();
    assert_eq!(m.id, "5_p1");
    assert_eq!(m.chat_id, "chat");
    assert_eq!(m.from_id, "u1");
    assert_eq!(m.message_id.as_deref(), Some("p1"));
    assert_eq!(m.text.as_deref(), Some("hi"));
    assert_eq!(m.created, Timestamp { secs: 1_700_000_000, nanos: 123_456_000 });
    assert!(m.edited);
}

#[test]
fn search_message_defaults_and_refusals() {
    let bare = obj(vec![(
        "data",
        obj(vec![
            ("ServerMessageInfo", obj(vec![])),
            ("ClientMessage", obj(vec![("Plain", obj(vec![]))])),
        ]),
    )]);
    let m = parse_search_message(&bare, "c", NOW).unwrap();
    assert_eq!(m.id, "0_unknown");
    assert_eq!(m.from_id, "unknown");
    assert_eq!(m.created, Timestamp { secs: 0, nanos: 0 });
    assert!(!m.edited);
    assert!(parse_search_message(&obj(vec![("data", obj(vec![]))]), "c", NOW).is_none());
    assert!(parse_search_message(&s("x"), "c", NOW).is_none());
}

#[test]
fn negative_micros_wrap_and_fall_back_to_now() {
    let m = parse_search_message(&search_item(1, "p", neg(-1), "t"), "c", NOW).unwrap();
    assert_eq!(m.created, NOW);
    let m = parse_search_message(&search_item(1, "p", neg(-2_000_000), "t"), "c", NOW).unwrap();
    assert_eq!(m.created, Timestamp { secs: -2, nanos: 0 });
}

#[test]
fn instants_beyond_chronos_range_fall_back_to_now() {
    // Year 262142 ends at second 8_210_266_876_799.
    let last = 8_210_266_876_799_000_000i64;
    let m = parse_search_message(&search_item(1, "p", n(last as u64), "t"), "c", NOW).unwrap();
    assert_eq!(m.created, Timestamp { secs: 8_210_266_876_799, nanos: 0 });
    let m = parse_search_message(&search_item(1, "p", n((last + 1_000_000) as u64), "t"), "c", NOW).unwrap();
    assert_eq!(m.created, NOW);
    let m = parse_search_message(&search_item(1, "p", n(9_000_000_000_000_000_000), "t"), "c", NOW).unwrap();
    assert_eq!(m.created, NOW);
    // Year -262143 starts at second -8_334_601_228_800.
    let m = parse_search_message(&search_item(1, "p", neg(-8_334_601_228_800_000_000), "t"), "c", NOW).unwrap();
    assert_eq!(m.created, Timestamp { secs: -8_334_601_228_800, nanos: 0 });
    let m = parse_search_message(&search_item(1, "p", neg(-8_334_601_228_801_000_000), "t"), "c", NOW).unwrap();
    assert_eq!(m.created, NOW);
}

#[test]
fn session_message_flat_format() {
    let item = obj(vec![
        ("from_guid", s("g")),
        ("ts", n(1_700_000_000_000_000)),
        ("body", s("hello")),
        ("id", s("m9")),
        ("seq_no", n(3)),
    ]);
    let m = parse_session_message(&item, "c", NOW).unwrap();
    assert_eq!(m.id, "3_m9");
    assert_eq!(m.from_id, "g");
    assert_eq!(m.text.as_deref(), Some("hello"));
    assert_eq!(m.created, Timestamp { secs: 1_700_000_000, nanos: 0 });
    let first_present = obj(vec![("from", n(1)), ("sender", s("later"))]);
    assert_eq!(parse_session_message(&first_present, "c", NOW).unwrap().from_id, "unknown");
}

#[test]
fn session_message_search_formats() {
    let nested = search_item(2, "pp", n(0), "x");
    assert_eq!(parse_session_message(&nested, "c", NOW).unwrap().id, "2_pp");
    let top = match search_item(4, "qq", n(0), "y") {
        Json::Object(mut m) => m.remove(0).1,
        _ => unreachable!(),
    };
    assert_eq!(parse_session_message(&top, "c", NOW).unwrap().id, "4_qq");
}

#[test]
fn sorting_is_stable_by_time() {
    let v = vec![msg("a", 5), msg("b", 1), msg("c", 5), msg("d", 3)];
    let ids: Vec<String> = sort_by_created(&v).into_iter().map(|m| m.id).collect();
    assert_eq!(ids, vec!["b", "d", "a", "c"]);
}

#[test]
fn dedup_keeps_first_of_each_id() {
    let v = vec![msg("a", 5), msg("b", 1), msg("a", 0)];
    let d = dedup_by_id(&v);
    assert_eq!(d.len(), 2);
    assert_eq!(d[0].created.secs, 5);
    assert_eq!(d[1].id, "b");
}

#[test]
fn search_results_merge_dedup_and_sort() {
    let answer = |items: Vec<Json>| obj(vec![("messages", obj(vec![("items", Json::Array(items))]))]);
    let r1 = answer(vec![search_item(1, "x", n(3_000_000), "a"), search_item(2, "y", n(1_000_000), "b")]);
    let r2 = answer(vec![search_item(1, "x", n(9_000_000), "a2")]);
    let out = messages_from_search(&vec![Some(r1), None, Some(r2)], "c", NOW);
    let ids: Vec<&str> = out.iter().map(|m| m.id.as_str()).collect();
    assert_eq!(ids, vec!["2_y", "1_x"]);
    assert_eq!(out[1].text.as_deref(), Some("a"));
}

#[test]
fn session_answer_is_sorted() {
    let data = obj(vec![(
        "messages",
        Json::Array(vec![
            obj(vec![("timestamp", n(20)), ("id", s("late"))]),
            obj(vec![("timestamp", n(10)), ("id", s("early"))]),
        ]),
    )]);
    let out = messages_from_session(&data, "c", NOW);
    assert_eq!(out[0].id, "0_early");
    assert_eq!(out[1].id, "0_late");
    assert!(messages_from_session(&obj(vec![]), "c", NOW).is_empty());
}

#[test]
fn merging_older_pages() {
    let mut loaded = vec![msg("b", 10), msg("c", 20)];
    let fresh = merge_older(&mut loaded, &vec![msg("c", 20), msg("a", 5)]);
    assert_eq!(fresh.len(), 1);
    assert_eq!(fresh[0].id, "a");
    let ids: Vec<&str> = loaded.iter().map(|m| m.id.as_str()).collect();
    assert_eq!(ids, vec!["a", "b", "c"]);
    let none = merge_older(&mut loaded, &vec![msg("b", 10)]);
    assert!(none.is_empty());
    assert_eq!(loaded.len(), 3);
}

#[test]
fn request_params() {
    match history_params("chat", Some("m1"), 80) {
        Json::Object(m) => {
            assert_eq!(m.len(), 4);
            assert!(matches!(&m[1].1, Json::Number(JsonNumber::PosInt(50))));
            assert!(matches!(&m[3].1, Json::Str(v) if v == "m1"));
        }
        _ => panic!("not an object"),
    }
    match history_params("chat", None, 7) {
        Json::Object(m) => {
            assert_eq!(m.len(), 3);
            assert!(matches!(&m[1].1, Json::Number(JsonNumber::PosInt(7))));
        }
        _ => panic!("not an object"),
    }
    assert_eq!(search_queries().len(), 10);
    assert_eq!(search_queries()[0], "привет");
    match search_params("c", "да") {
        Json::Object(m) => assert!(matches!(&m[2].1, Json::Str(v) if v == "да")),
        _ => panic!("not an object"),
    }
    match rpc_body("bootstrap", Json::Null) {
        Json::Object(m) => {
            assert_eq!(m[0].0, "method");
            assert!(matches!(m[1].1, Json::Null));
        }
        _ => panic!("not an object"),
    }
}

#[test]
fn rpc_answers() {
    let ok = obj(vec![("status", s("ok")), ("data", n(5))]);
    assert!(matches!(rpc_data(ok), Ok(Json::Number(JsonNumber::PosInt(5)))));
    assert!(matches!(rpc_data(obj(vec![])), Ok(Json::Null)));
    let err = obj(vec![("status", s("error")), ("data", obj(vec![("code", s("bad_csrf_token"))]))]);
    assert!(bad_csrf(&err));
    assert!(matches!(rpc_data(err), Err(Some(_))));
    assert!(!bad_csrf(&obj(vec![("status", s("ok")), ("data", obj(vec![("code", s("bad_csrf_token"))]))])));
}
