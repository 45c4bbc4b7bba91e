use ymessenger::chats::{apply_preview, bootstrap_chats, chat_list, other_member, preview_wanted, Chat, ChatType};
use ymessenger::json::Json;
use ymessenger::messages::{Message, Timestamp};

fn obj(members: Vec<(&str, Json)>) -> Json {
    Json::Object(members.into_iter().map(|(k, v)| (k.to_string(), v)).collect())
}

fn s(v: &str) -> Json {
    Json::Str(v.to_string())
}

const NOW: Timestamp = Timestamp { secs: 100, nanos: 0 };

fn bootstrap() -> Json {
    obj(vec![
        ("user", obj(vec![("guid", s("me"))])),
        (
            "users",
            Json::Array(vec![
                obj(vec![("guid", s("bob")), ("display_name", s("Bob")), ("avatar_id", s("av-bob"))]),
                obj(vec![("guid", s("bob")), ("display_name", s("Robert"))]),
            ]),
        ),
        (
            "messages",
            Json::Array(vec![
                obj(vec![
                    ("server_message_info", obj(vec![("chat_id", s("0/0/group-1"))])),
                    ("message", obj(vec![("text", s("old"))])),
                ]),
                obj(vec![
                    ("ServerMessageInfo", obj(vec![("ChatId", s("0/0/group-1"))])),
                    (
                        "ClientMessage",
                        obj(vec![("Plain", obj(vec![("Text", obj(vec![("MessageText", s("newest"))]))]))]),
                    ),
                ]),
            ]),
        ),
        (
            "chats",
            Json::Array(vec![
                obj(vec![("chat_id", s("0/0/me_bob")), ("pinned", Json::Bool(true))]),
                obj(vec![("chat_id", s("0/0/group-1")), ("name", s("Team")), ("avatar_id", s("av-team"))]),
                obj(vec![
                    ("chat_id", s("x_y_z")),
                    ("last_message", obj(vec![("message", s("own"))])),
                    ("is_pinned", Json::Bool(false)),
                ]),
            ]),
        ),
    ])
}

#[test]
fn bootstrap_reads_users_previews_and_private_chats() {
    let (me, chats) = bootstrap_chats(&bootstrap(), NOW);
    assert_eq!(me, "me");
    assert_eq!(chats.len(), 3);

    let private = &chats[0];
    assert_eq!(private.chat_type, ChatType::Private);
    assert_eq!(private.title.as_deref(), Some("Robert"));
    assert_eq!(private.avatar_id.as_deref(), Some("av-bob"));
    assert!(private.pinned);
    assert!(private.last_message.is_none());

    let group = &chats[1];
    assert_eq!(group.chat_type, ChatType::Group);
    assert_eq!(group.title.as_deref(), Some("Team"));
    let preview = group.last_message.as_ref().unwrap();
    assert_eq!(preview.text.as_deref(), Some("newest"));
    assert_eq!(preview.chat_id, "0/0/group-1");
    assert_eq!(preview.created, NOW);

    let odd = &chats[2];
    assert_eq!(odd.chat_type, ChatType::Private);
    assert!(odd.title.is_none());
    assert_eq!(odd.last_message.as_ref().unwrap().text.as_deref(), Some("own"));
    assert!(!odd.pinned);
}

#[test]
fn other_member_of_private_ids() {
    assert_eq!(other_member("0/0/me_bob", "me").as_deref(), Some("bob"));
    assert_eq!(other_member("bob_me", "me").as_deref(), Some("bob"));
    assert_eq!(other_member("a_b_c", "me"), None);
    assert_eq!(other_member("a_b/c", "me"), None);
}

#[test]
fn empty_bootstrap_is_refused() {
    let (me, chats) = bootstrap_chats(&obj(vec![]), NOW);
    assert_eq!(me, "");
    assert_eq!(chat_list(chats).unwrap_err(), "No chats found in bootstrap data");
}

fn chat(id: &str, with_preview: bool) -> Chat {
    Chat {
        id: id.to_string(),
        title: None,
        chat_type: ChatType::Group,
        avatar_id: None,
        last_message: if with_preview {
            Some(Message {
                id: String::new(),
                chat_id: id.to_string(),
                from_id: String::new(),
                message_id: None,
                text: Some("t".into()),
                reply_to: None,
                created: NOW,
                edited: false,
                edited_at: None,
                updated: None,
                sent: true,
                delivered: true,
                read: true,
            })
        } else {
            None
        },
        pinned: false,
        unread_count: 0,
        muted: false,
        archived: false,
    }
}

#[test]
fn previews_for_the_first_twenty_chats() {
    let mut chats: Vec<Chat> = (0..25).map(|i| chat(&format!("c{i}"), i == 3)).collect();
    let wanted = preview_wanted(&chats);
    assert_eq!(wanted.len(), 19);
    assert!(!wanted.contains(&"c3".to_string()));
    assert!(!wanted.contains(&"c20".to_string()));

    let fetched = vec![
        Message { text: Some("first".into()), ..chats[3].last_message.clone().unwrap() },
        Message { text: Some("last".into()), ..chats[3].last_message.clone().unwrap() },
    ];
    apply_preview(&mut chats, "c5", fetched);
    assert_eq!(chats[5].last_message.as_ref().unwrap().text.as_deref(), Some("last"));
    apply_preview(&mut chats, "c6", Vec::new());
    assert!(chats[6].last_message.is_none());
    assert_eq!(chat_list(chats).unwrap().len(), 25);
}
