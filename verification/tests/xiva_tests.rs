use ymessenger::json::{Json, JsonNumber};
use ymessenger::xiva::{
    is_ws_message,
    after_rpc_frame, classify_binary, client_message_frame, request_frame, extract_json_payload, find_json_field, is_ping, make_ack_packet,
    map_push, next_reconnect_interval, parse_msgpack_seq, pong, rpc_json, rpc_reply,
    serialize_push_header, serialize_push_header_with_method, BinaryFrame, ReplyPart,
};

fn obj(members: Vec<(&str, Json)>) -> Json {
    Json::Object(members.into_iter().map(|(k, v)| (k.to_string(), v)).collect())
}

fn s(v: &str) -> Json {
    Json::Str(v.to_string())
}

#[test]
fn push_header_bytes() {
    assert_eq!(serialize_push_header(5), vec![0x93, 0x00, 5, 0xa4, b'p', b'u', b's', b'h']);
    assert_eq!(serialize_push_header(200)[2..4], [0xcc, 200]);
    assert_eq!(serialize_push_header(300)[2..5], [0xcd, 0x01, 0x2c]);
    assert_eq!(serialize_push_header(70000)[2..7], [0xce, 0x00, 0x01, 0x11, 0x70]);
    let long = "m".repeat(40);
    let h = serialize_push_header_with_method(1, &long);
    assert_eq!(h[3..5], [0xd9, 40]);
    assert_eq!(h.len(), 5 + 40);
}

#[test]
fn ack_packet_reads_back() {
    for seq in [0u64, 127, 128, 255, 256, 65535, 65536, 4_000_000_000] {
        let ack = make_ack_packet(seq);
        assert_eq!(ack[0], 0x02);
        assert_eq!(*ack.last().unwrap(), 0x00);
        let (back, off) = parse_msgpack_seq(&ack).expect("seq");
        assert_eq!(back, seq);
        assert_eq!(off, ack.len() - 1);
    }
}

#[test]
fn msgpack_seq_forms() {
    assert_eq!(parse_msgpack_seq(&[1, 0x93]), None);
    assert_eq!(parse_msgpack_seq(&[1, 0x91, 5]), None);
    assert_eq!(parse_msgpack_seq(&[1, 0x94, 0x7f]), Some((127, 3)));
    assert_eq!(parse_msgpack_seq(&[1, 0x92, 0xcd, 0x01]), None);
    assert_eq!(
        parse_msgpack_seq(&[1, 0x92, 0xcf, 0, 0, 0, 1, 0, 0, 0, 2]),
        Some(((1u64 << 32) + 2, 11))
    );
    assert_eq!(parse_msgpack_seq(&[1, 0x92, 0xc0]), None);
}

#[test]
fn json_payload_after_header() {
    let mut bin = vec![0u8; 60];
    bin[10] = b'{';
    bin[11] = b'"';
    bin.extend_from_slice(b"{\"a\":1}");
    assert_eq!(extract_json_payload(&bin).as_deref(), Some("{\"a\":1}"));
    let short = b"xx{\"k\":\"v\"}".to_vec();
    assert_eq!(extract_json_payload(&short).as_deref(), Some("{\"k\":\"v\"}"));
    assert_eq!(extract_json_payload(b"no json"), None);
    assert_eq!(extract_json_payload(&[b'{', b'"', 0xff]), None);
}

#[test]
fn frames_classified() {
    assert_eq!(classify_binary(&[]), BinaryFrame::Ignored);
    assert_eq!(classify_binary(&[1, 0x92, 7, 0]), BinaryFrame::Rpc { seq: 7, body: 3, push: true });
    assert_eq!(classify_binary(&[2, 0x92, 7, 0]), BinaryFrame::Rpc { seq: 7, body: 3, push: false });
    assert_eq!(classify_binary(&[3, 1, 2]), BinaryFrame::Delivery);
    assert_eq!(classify_binary(&[9]), BinaryFrame::Ignored);
    let mut bin = vec![1u8, 0x92, 7];
    bin.extend_from_slice(b"{\"ok\":true}");
    assert_eq!(rpc_json(&bin, 3).as_deref(), Some("{\"ok\":true}"));
    assert_eq!(rpc_json(&bin, 100), None);
}

#[test]
fn rpc_counter_and_ack() {
    let (next, ack) = after_rpc_frame(3, 10, true, false);
    assert_eq!(next, 11);
    assert_eq!(ack, Some(make_ack_packet(10)));
    let (next, ack) = after_rpc_frame(20, 10, true, true);
    assert_eq!(next, 20);
    assert_eq!(ack, None);
    assert_eq!(after_rpc_frame(0, 1, false, false).1, None);
}

#[test]
fn ping_pong_text() {
    assert!(is_ping("{\"operation\":\"ping\",\"x\":1}"));
    assert!(!is_ping("{\"operation\":\"pong\"}"));
    assert_eq!(pong(), "{\"operation\":\"pong\"}");
}

#[test]
fn reply_routing() {
    let seq = |n| Json::Number(JsonNumber::PosInt(n));
    assert_eq!(rpc_reply(&obj(vec![("seq", seq(4)), ("error", s("x")), ("result", s("r"))])), Some((4, ReplyPart::Error)));
    assert_eq!(rpc_reply(&obj(vec![("seq", seq(4)), ("result", Json::Null)])), Some((4, ReplyPart::Result)));
    assert_eq!(rpc_reply(&obj(vec![("seq", seq(4)), ("message", s("m"))])), Some((4, ReplyPart::Message)));
    assert_eq!(rpc_reply(&obj(vec![("seq", seq(4))])), Some((4, ReplyPart::Whole)));
    assert_eq!(rpc_reply(&obj(vec![("seq", s("4"))])), None);
}

#[test]
fn field_search_depth_first() {
    let doc = obj(vec![
        ("a", obj(vec![("x", obj(vec![("ChatId", s("deep"))]))])),
        ("ChatIdNot", s("no")),
        ("list", Json::Array(vec![obj(vec![("MessageId", Json::Number(JsonNumber::PosInt(42)))])])),
    ]);
    assert_eq!(find_json_field(&doc, "ChatId").as_deref(), Some("deep"));
    assert_eq!(find_json_field(&doc, "MessageId").as_deref(), Some("42"));
    assert_eq!(find_json_field(&doc, "Missing"), None);
    let top = obj(vec![("ChatId", s("top")), ("inner", obj(vec![("ChatId", s("inner"))]))]);
    assert_eq!(find_json_field(&top, "ChatId").as_deref(), Some("top"));
}

#[test]
fn client_message_delivery() {
    let doc = obj(vec![
        ("ClientMessage", obj(vec![("Plain", obj(vec![
            ("ChatId", s("c1")),
            ("Text", obj(vec![("MessageText", s("hi"))])),
            ("PayloadId", s("p1")),
        ]))])),
        ("ServerMessageInfo", obj(vec![
            ("From", obj(vec![("Guid", s("u1"))])),
            ("Timestamp", Json::Number(JsonNumber::PosInt(1_700_000_000_123))),
        ])),
    ]);
    let m = map_push(&doc, 5).expect("message");
    assert_eq!(m.chat_id, "c1");
    assert_eq!(m.text, "hi");
    assert_eq!(m.from_id, "u1");
    assert_eq!(m.message_id, "p1");
    assert_eq!(m.id, "1700000000123_p1");
    assert_eq!(m.created, 1_700_000_000);
}

#[test]
fn server_message_delivery_and_defaults() {
    let doc = obj(vec![("ServerMessage", obj(vec![("ChatId", s("c2")), ("Text", s("yo"))]))]);
    let m = map_push(&doc, -1500).expect("message");
    assert_eq!(m.chat_id, "c2");
    assert_eq!(m.from_id, "system");
    assert_eq!(m.message_id.len(), 32);
    assert!(m.id.starts_with("-1500_"));
    assert_eq!(m.created, (-1500i64 / 1000) as u64);
    let empty = obj(vec![("ServerMessage", obj(vec![("ChatId", s("c2"))]))]);
    assert!(map_push(&empty, 0).is_none());
    assert!(map_push(&obj(vec![("Other", Json::Null)]), 0).is_none());
}

#[test]
fn reconnect_interval_doubles_to_cap() {
    assert_eq!(next_reconnect_interval(1000), 2000);
    assert_eq!(next_reconnect_interval(16000), 32000);
    assert_eq!(next_reconnect_interval(32000), 32000);
}

#[test]
fn client_frame_is_tag_header_marker_and_body() {
    let f = client_message_frame(1, b"{}");
    let h = serialize_push_header(1);
    assert_eq!(f[0], 0x01);
    assert_eq!(&f[1..1 + h.len()], h.as_slice());
    assert_eq!(f[1 + h.len()], 0x05);
    assert!(f[2 + h.len()..13 + h.len()].iter().all(|b| *b == 0));
    assert_eq!(&f[13 + h.len()..], b"{}");
}

#[test]
fn request_frames_carry_their_method() {
    let f = request_frame(7, "subscribe", b"{\"chatId\":\"c\"}");
    let h = serialize_push_header_with_method(7, "subscribe");
    assert_eq!(f[0], 0x01);
    assert_eq!(&f[1..1 + h.len()], h.as_slice());
    assert_eq!(f.len(), 1 + h.len() + 12 + 14);
    assert_eq!(client_message_frame(3, b"x"), request_frame(3, "push", b"x"));
}

#[test]
fn only_push_records_are_handed_on() {
    let n = |k: u64| Json::Number(JsonNumber::PosInt(k));
    let rec = Json::Object(vec![("seq".into(), n(3)), ("message".into(), Json::Null)]);
    assert!(is_ws_message(&rec));
    let no_msg = Json::Object(vec![("seq".into(), n(3))]);
    assert!(!is_ws_message(&no_msg));
    let neg = Json::Object(vec![("seq".into(), Json::Number(JsonNumber::NegInt(-1))), ("message".into(), Json::Null)]);
    assert!(!is_ws_message(&neg));
    assert!(is_ws_message(&Json::Array(vec![n(0), Json::Str("x".into())])));
    assert!(!is_ws_message(&Json::Array(vec![n(0)])));
    assert!(!is_ws_message(&Json::Str("seq".into())));
}
