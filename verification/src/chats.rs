//! The chat list as the `bootstrap` call describes it: titles and avatars
//! of private chats from the users list, and a preview text for each chat.

use vstd::prelude::*;

use crate::json::{self, bool_field, str_field, Json};
use crate::messages::{
    copy_message, or_text, plain_text, Message, MessageView, Timestamp,
};
use crate::text::{self, after_last, first_index, opt_str};

verus! {

#[derive(Clone, Copy, Debug, PartialEq, Eq)]
pub enum ChatType {
    Private,
    Group,
}

/// A chat of the list.
#[derive(Clone, Debug, PartialEq)]
pub struct Chat {
    pub id: String,
    pub title: Option<String>,
    pub chat_type: ChatType,
    pub avatar_id: Option<String>,
    pub last_message: Option<Message>,
    pub pinned: bool,
    pub unread_count: u32,
    pub muted: bool,
    pub archived: bool,
}

/// A chat as plain values.
pub struct ChatView {
    pub id: Seq<char>,
    pub title: Option<Seq<char>>,
    pub chat_type: ChatType,
    pub avatar_id: Option<Seq<char>>,
    pub last_message: Option<MessageView>,
    pub pinned: bool,
    pub unread_count: u32,
    pub muted: bool,
    pub archived: bool,
}

impl View for Chat {
    type V = ChatView;

    open spec fn view(&self) -> ChatView {
        ChatView {
            id: self.id@,
            title: opt_str(self.title),
            chat_type: self.chat_type,
            avatar_id: opt_str(self.avatar_id),
            last_message: match self.last_message {
                Some(m) => Some(m@),
                None => None,
            },
            pinned: self.pinned,
            unread_count: self.unread_count,
            muted: self.muted,
            archived: self.archived,
        }
    }
}

pub open spec fn chat_views(s: Seq<Chat>) -> Seq<ChatView> {
    s.map_values(|c: Chat| c@)
}

// ── users and recent messages ────────────────────────────────────────

/// A user's `guid`, empty when missing.
pub open spec fn guid_of(u: Json) -> Seq<char> {
    or_text(str_field(u, "guid"@), Seq::empty())
}

/// The string member `key` of the last user with this guid that has one
/// (a later user of the same guid replaces an earlier one).
pub open spec fn user_attr(users: Seq<Json>, guid: Seq<char>, key: Seq<char>) -> Option<Seq<char>>
    decreases users.len(),
{
    if users.len() == 0 {
        None
    } else if guid_of(users.last()) == guid && str_field(users.last(), key) is Some {
        str_field(users.last(), key)
    } else {
        user_attr(users.drop_last(), guid, key)
    }
}

/// The chat of a recent message: `server_message_info.chat_id`, else
/// `ServerMessageInfo.ChatId`, empty when missing.
pub open spec fn recent_chat(m: Json) -> Seq<char> {
    match m.field("server_message_info"@) {
        Some(info) => or_text(str_field(info, "chat_id"@), Seq::empty()),
        None => match m.field("ServerMessageInfo"@) {
            Some(info) => or_text(str_field(info, "ChatId"@), Seq::empty()),
            None => Seq::empty(),
        },
    }
}

/// The text of a recent message: `message.text`, else
/// `ClientMessage.Plain.Text.MessageText`.
pub open spec fn recent_text(m: Json) -> Option<Seq<char>> {
    match m.field("message"@) {
        Some(cm) => str_field(cm, "text"@),
        None => match m.field("ClientMessage"@) {
            Some(cm) => match cm.field("Plain"@) {
                Some(p) => plain_text(p),
                None => None,
            },
            None => None,
        },
    }
}

/// The text of the last recent message of a chat that has one.
pub open spec fn recent_for(msgs: Seq<Json>, chat: Seq<char>) -> Option<Seq<char>>
    decreases msgs.len(),
{
    if msgs.len() == 0 {
        None
    } else if recent_chat(msgs.last()) == chat && recent_text(msgs.last()) is Some {
        recent_text(msgs.last())
    } else {
        recent_for(msgs.drop_last(), chat)
    }
}

fn user_attr_in(users: &Vec<Json>, guid: &str, key: &str) -> (r: Option<String>)
    ensures
        opt_str(r) == user_attr(users@, guid@, key@),
{
    let mut p: usize = users.len();
    assert(users@.take(p as int) =~= users@);
    while p > 0
        invariant
            p <= users@.len(),
            user_attr(users@, guid@, key@) == user_attr(users@.take(p as int), guid@, key@),
        decreases p,
    {
        let ghost t = users@.take(p as int);
        assert(t.drop_last() =~= users@.take(p - 1));
        assert(t.last() == users@[p - 1]);
        let u = &users[p - 1];
        let g = match json::get_str(u, "guid") {
            Some(s) => s,
            None => String::new(),
        };
        if text::str_is(g.as_str(), guid) {
            match json::get_str(u, key) {
                Some(v) => {
                    return Some(v);
                },
                None => {},
            }
        }
        p = p - 1;
    }
    None
}

fn recent_in(msgs: &Vec<Json>, chat: &str) -> (r: Option<String>)
    ensures
        opt_str(r) == recent_for(msgs@, chat@),
{
    let mut p: usize = msgs.len();
    assert(msgs@.take(p as int) =~= msgs@);
    while p > 0
        invariant
            p <= msgs@.len(),
            recent_for(msgs@, chat@) == recent_for(msgs@.take(p as int), chat@),
        decreases p,
    {
        let ghost t = msgs@.take(p as int);
        assert(t.drop_last() =~= msgs@.take(p - 1));
        assert(t.last() == msgs@[p - 1]);
        let m = &msgs[p - 1];
        let c = match m.get("server_message_info") {
            Some(info) => json::get_str(info, "chat_id"),
            None => match m.get("ServerMessageInfo") {
                Some(info) => json::get_str(info, "ChatId"),
                None => None,
            },
        };
        let c = match c {
            Some(s) => s,
            None => String::new(),
        };
        if text::str_is(c.as_str(), chat) {
            let t = match m.get("message") {
                Some(cm) => json::get_str(cm, "text"),
                None => match m.get("ClientMessage") {
                    Some(cm) => match cm.get("Plain") {
                        Some(p) => match p.get("Text") {
                            Some(tx) => json::get_str(tx, "MessageText"),
                            None => None,
                        },
                        None => None,
                    },
                    None => None,
                },
            };
            if t.is_some() {
                return t;
            }
        }
        p = p - 1;
    }
    None
}

// ── private chats ────────────────────────────────────────────────────

/// The two halves around the only `_`, when there is exactly one.
pub open spec fn underscore_pair(c: Seq<char>) -> Option<(Seq<char>, Seq<char>)> {
    match first_index(c, '_') {
        Some(i) => if first_index(c.skip(i + 1), '_') is None {
            Some((c.take(i), c.skip(i + 1)))
        } else {
            None
        },
        None => None,
    }
}

/// The other member of a private chat `.../a_b`: `b` when `a` is the
/// current user, else `a`.
pub open spec fn other_party(id: Seq<char>, me: Seq<char>) -> Option<Seq<char>> {
    match underscore_pair(after_last(id, '/')) {
        Some((a, b)) => Some(
            if a == me {
                b
            } else {
                a
            },
        ),
        None => None,
    }
}

/// The other member of a private chat with this id.
pub fn other_member(id: &str, me: &str) -> (r: Option<String>)
    ensures
        opt_str(r) == other_party(id@, me@),
{
    let whole = text::chars_of(id);
    let seg = text::after_last_char(&whole, '/');
    match text::find_char(&seg, '_') {
        Some(i) => {
            let a = text::string_from_range(&seg, 0, i);
            let b = text::string_from_range(&seg, i + 1, seg.len());
            let rest = text::chars_of(b.as_str());
            assert(rest@ =~= seg@.skip(i + 1));
            assert(a@ =~= seg@.take(i as int));
            match text::find_char(&rest, '_') {
                Some(_) => None,
                None => {
                    if text::str_is(a.as_str(), me) {
                        Some(b)
                    } else {
                        Some(a)
                    }
                },
            }
        },
        None => None,
    }
}

// ── the chat list ────────────────────────────────────────────────────

/// The preview text a chat carries itself: `last_message.text`, else
/// `last_message.message`, else its `ClientMessage.Plain` text.
pub open spec fn own_preview(c: Json) -> Option<Seq<char>> {
    match c.field("last_message"@) {
        Some(lm) => match str_field(lm, "text"@) {
            Some(t) => Some(t),
            None => match str_field(lm, "message"@) {
                Some(t) => Some(t),
                None => match lm.field("ClientMessage"@) {
                    Some(cm) => match cm.field("Plain"@) {
                        Some(p) => plain_text(p),
                        None => None,
                    },
                    None => None,
                },
            },
        },
        None => None,
    }
}

/// A preview message: only its chat, its text and the time it was made.
pub open spec fn preview_message(chat: Seq<char>, text: Seq<char>, now: Timestamp) -> MessageView {
    MessageView {
        id: Seq::empty(),
        chat_id: chat,
        from_id: Seq::empty(),
        message_id: None,
        text: Some(text),
        created: now,
        edited: false,
        reply_to: None,
        edited_at: None,
        updated: None,
        sent: true,
        delivered: true,
        read: true,
    }
}

/// The chat a `chats` entry describes. A chat whose id holds `_` and that
/// has no `name` is private; its title and avatar come from the other
/// member's user entry when there is one. The preview is the chat's own,
/// else the last recent message of the chat. It is pinned when `pinned`,
/// `is_pinned` or `pin` is true; it starts read, unmuted and unarchived.
pub open spec fn chat_of(c: Json, users: Seq<Json>, msgs: Seq<Json>, me: Seq<char>, now: Timestamp) -> ChatView {
    let id = or_text(str_field(c, "chat_id"@), Seq::empty());
    let name = str_field(c, "name"@);
    let private = id.contains('_') && name is None;
    let other = if private {
        other_party(id, me)
    } else {
        None
    };
    let title = match other {
        Some(o) => match user_attr(users, o, "display_name"@) {
            Some(n) => Some(n),
            None => name,
        },
        None => name,
    };
    let avatar = match other {
        Some(o) => match user_attr(users, o, "avatar_id"@) {
            Some(a) => Some(a),
            None => str_field(c, "avatar_id"@),
        },
        None => str_field(c, "avatar_id"@),
    };
    let text = match own_preview(c) {
        Some(t) => Some(t),
        None => recent_for(msgs, id),
    };
    ChatView {
        id,
        title,
        chat_type: if private {
            ChatType::Private
        } else {
            ChatType::Group
        },
        avatar_id: avatar,
        last_message: match text {
            Some(t) => Some(preview_message(id, t, now)),
            None => None,
        },
        pinned: bool_field(c, "pinned"@) == Some(true) || bool_field(c, "is_pinned"@) == Some(true)
            || bool_field(c, "pin"@) == Some(true),
        unread_count: 0,
        muted: false,
        archived: false,
    }
}

/// An array member of the bootstrap answer, empty when it is missing.
pub open spec fn array_member(data: Json, key: Seq<char>) -> Seq<Json> {
    match data.field(key) {
        Some(x) => match x.array_value() {
            Some(a) => a,
            None => Seq::empty(),
        },
        None => Seq::empty(),
    }
}

/// The current user's guid: `user.guid`, empty when missing.
pub open spec fn current_user_of(data: Json) -> Seq<char> {
    match data.field("user"@) {
        Some(u) => guid_of(u),
        None => Seq::empty(),
    }
}

/// The chats of a bootstrap answer, one per `chats` entry, in order.
pub open spec fn bootstrap_list(data: Json, now: Timestamp) -> Seq<ChatView> {
    array_member(data, "chats"@).map_values(
        |c: Json|
            chat_of(
                c,
                array_member(data, "users"@),
                array_member(data, "messages"@),
                current_user_of(data),
                now,
            ),
    )
}

/// The bootstrap answer gives one chat per `chats` entry, in order, under
/// the entry's `chat_id`. An entry whose `last_message` holds a string
/// `text` shows a preview of exactly that text; without a string `text`,
/// a string `message` is shown. The preview belongs to the chat.
pub proof fn chat_preview_from_last_message(data: Json, chats: Vec<Json>, now: Timestamp, k: int)
    requires
        data.field("chats"@) == Some(Json::Array(chats)),
        0 <= k < chats@.len(),
    ensures
        bootstrap_list(data, now).len() == chats@.len(),
        chats@[k].field("chat_id"@) matches Some(Json::Str(id)) ==> bootstrap_list(data, now)[k].id == id@,
        chats@[k].field("last_message"@) matches Some(lm) ==> (lm.field("text"@) matches Some(Json::Str(t))
            ==> (bootstrap_list(data, now)[k].last_message matches Some(m) && m.text == Some(t@) && m.chat_id
            == bootstrap_list(data, now)[k].id)),
        chats@[k].field("last_message"@) matches Some(lm) ==> (!(lm.field("text"@) matches Some(Json::Str(_)))
            ==> (lm.field("message"@) matches Some(Json::Str(t)) ==> (bootstrap_list(data, now)[k].last_message matches Some(
            m,
        ) && m.text == Some(t@) && m.chat_id == bootstrap_list(data, now)[k].id))),
        bootstrap_list(data, now)[k].pinned <==> (chats@[k].field("pinned"@) == Some(Json::Bool(true)) || chats@[k].field(
            "is_pinned"@,
        ) == Some(Json::Bool(true)) || chats@[k].field("pin"@) == Some(Json::Bool(true))),
        bootstrap_list(data, now)[k].unread_count == 0 && !bootstrap_list(data, now)[k].muted
            && !bootstrap_list(data, now)[k].archived,
{
    assert(array_member(data, "chats"@) == chats@);
}

fn array_at<'a>(data: &'a Json, key: &str) -> (r: Option<&'a Vec<Json>>)
    ensures
        array_member(*data, key@) == match r {
            Some(a) => a@,
            None => Seq::empty(),
        },
{
    match data.get(key) {
        Some(x) => x.as_array(),
        None => None,
    }
}

fn user_attr_opt(users: Option<&Vec<Json>>, guid: &str, key: &str) -> (r: Option<String>)
    ensures
        opt_str(r) == user_attr(
            match users {
                Some(a) => a@,
                None => Seq::empty(),
            },
            guid@,
            key@,
        ),
{
    match users {
        Some(a) => user_attr_in(a, guid, key),
        None => None,
    }
}

fn copy_opt(s: &Option<String>) -> (r: Option<String>)
    ensures
        r == *s,
{
    match s {
        Some(v) => Some(v.clone()),
        None => None,
    }
}

fn read_chat(
    c: &Json,
    users: Option<&Vec<Json>>,
    msgs: Option<&Vec<Json>>,
    me: &str,
    now: Timestamp,
) -> (r: Chat)
    ensures
        r@ == chat_of(
            *c,
            match users {
                Some(a) => a@,
                None => Seq::empty(),
            },
            match msgs {
                Some(a) => a@,
                None => Seq::empty(),
            },
            me@,
            now,
        ),
{
    let id = match json::get_str(c, "chat_id") {
        Some(s) => s,
        None => String::new(),
    };
    let name = json::get_str(c, "name");
    let own_avatar = json::get_str(c, "avatar_id");
    let ghost id_chars = id@;
    let has_underscore = match text::find_char(&text::chars_of(id.as_str()), '_') {
        Some(_) => true,
        None => false,
    };
    proof {
        if has_underscore {
            let i = choose|i: int| #[trigger] text::is_first_index(id_chars, '_', i);
            assert(id_chars[i] == '_');
            assert(id_chars.contains('_'));
        } else {
            assert(!id_chars.contains('_'));
        }
    }
    let private = has_underscore && name.is_none();
    let other = if private {
        other_member(id.as_str(), me)
    } else {
        None
    };
    let mut title = copy_opt(&name);
    let mut avatar = copy_opt(&own_avatar);
    match &other {
        Some(o) => {
            match user_attr_opt(users, o.as_str(), "display_name") {
                Some(n) => {
                    title = Some(n);
                },
                None => {},
            }
            match user_attr_opt(users, o.as_str(), "avatar_id") {
                Some(a) => {
                    avatar = Some(a);
                },
                None => {},
            }
        },
        None => {},
    }
    let own = match c.get("last_message") {
        Some(lm) => match json::get_str(lm, "text") {
            Some(t) => Some(t),
            None => match json::get_str(lm, "message") {
                Some(t) => Some(t),
                None => match lm.get("ClientMessage") {
                    Some(cm) => match cm.get("Plain") {
                        Some(p) => match p.get("Text") {
                            Some(tx) => json::get_str(tx, "MessageText"),
                            None => None,
                        },
                        None => None,
                    },
                    None => None,
                },
            },
        },
        None => None,
    };
    let text = match own {
        Some(t) => Some(t),
        None => match msgs {
            Some(a) => recent_in(a, id.as_str()),
            None => None,
        },
    };
    let last_message = match text {
        Some(t) => Some(
            Message {
                id: String::new(),
                chat_id: id.clone(),
                from_id: String::new(),
                message_id: None,
                text: Some(t),
                created: now,
                edited: false,
                reply_to: None,
                edited_at: None,
                updated: None,
                sent: true,
                delivered: true,
                read: true,
            },
        ),
        None => None,
    };
    let pinned = json::get_bool(c, "pinned") == Some(true) || json::get_bool(c, "is_pinned") == Some(true)
        || json::get_bool(c, "pin") == Some(true);
    Chat {
        id,
        title,
        chat_type: if private {
            ChatType::Private
        } else {
            ChatType::Group
        },
        avatar_id: avatar,
        last_message,
        pinned,
        unread_count: 0,
        muted: false,
        archived: false,
    }
}

/// The current user's guid and the chats of a bootstrap answer; `now`
/// dates the preview messages.
pub fn bootstrap_chats(data: &Json, now: Timestamp) -> (r: (String, Vec<Chat>))
    ensures
        r.0@ == current_user_of(*data),
        chat_views(r.1@) == bootstrap_list(*data, now),
{
    let me = match data.get("user") {
        Some(u) => match json::get_str(u, "guid") {
            Some(g) => g,
            None => String::new(),
        },
        None => String::new(),
    };
    let users = array_at(data, "users");
    let msgs = array_at(data, "messages");
    let mut out: Vec<Chat> = Vec::new();
    let ghost list = bootstrap_list(*data, now);
    match array_at(data, "chats") {
        Some(chats) => {
            let mut i: usize = 0;
            while i < chats.len()
                invariant
                    i <= chats@.len(),
                    list.len() == chats@.len(),
                    list == bootstrap_list(*data, now),
                    chats@ == array_member(*data, "chats"@),
                    array_member(*data, "users"@) == match users {
                        Some(a) => a@,
                        None => Seq::empty(),
                    },
                    array_member(*data, "messages"@) == match msgs {
                        Some(a) => a@,
                        None => Seq::empty(),
                    },
                    me@ == current_user_of(*data),
                    chat_views(out@) == list.take(i as int),
                decreases chats@.len() - i,
            {
                let c = read_chat(&chats[i], users, msgs, me.as_str(), now);
                assert(c@ == list[i as int]);
                let ghost o = out@;
                out.push(c);
                assert(chat_views(out@) =~= chat_views(o).push(c@));
                assert(list.take(i + 1) =~= list.take(i as int).push(list[i as int]));
                i = i + 1;
            }
            assert(list.take(chats@.len() as int) =~= list);
        },
        None => {
            assert(chat_views(out@) =~= bootstrap_list(*data, now));
        },
    }
    (me, out)
}

/// The chat list, or the refusal when it is empty.
pub fn chat_list(chats: Vec<Chat>) -> (r: Result<Vec<Chat>, String>)
    ensures
        chats@.len() > 0 ==> r == Ok::<Vec<Chat>, String>(chats),
        chats@.len() == 0 ==> (r matches Err(e) && e@ == "No chats found in bootstrap data"@),
{
    if chats.len() == 0 {
        Err("No chats found in bootstrap data".to_owned())
    } else {
        Ok(chats)
    }
}

/// The ids of the chats among the first twenty that have no preview yet,
/// in order: their last message is fetched.
pub open spec fn wanting_preview(chats: Seq<ChatView>) -> Seq<Seq<char>>
    decreases chats.len(),
{
    if chats.len() == 0 {
        Seq::empty()
    } else {
        let r = wanting_preview(chats.drop_last());
        if chats.len() <= 20 && chats.last().last_message is None {
            r.push(chats.last().id)
        } else {
            r
        }
    }
}

pub fn preview_wanted(chats: &Vec<Chat>) -> (r: Vec<String>)
    ensures
        r@.map_values(|s: String| s@) == wanting_preview(chat_views(chats@)),
{
    let ghost cv = chat_views(chats@);
    let mut out: Vec<String> = Vec::new();
    let mut i: usize = 0;
    assert(cv.take(0) =~= Seq::<ChatView>::empty());
    assert(out@.map_values(|s: String| s@) =~= Seq::<Seq<char>>::empty());
    while i < chats.len()
        invariant
            i <= chats@.len(),
            cv == chat_views(chats@),
            out@.map_values(|s: String| s@) == wanting_preview(cv.take(i as int)),
        decreases chats@.len() - i,
    {
        let ghost t = cv.take(i + 1);
        assert(t.drop_last() =~= cv.take(i as int));
        assert(t.last() == chats@[i as int]@);
        if i < 20 && chats[i].last_message.is_none() {
            let ghost o = out@;
            out.push(chats[i].id.clone());
            assert(out@.map_values(|s: String| s@) =~= o.map_values(|s: String| s@).push(chats@[i as int].id@));
        }
        i = i + 1;
    }
    assert(cv.take(chats@.len() as int) =~= cv);
    out
}

/// Position of the first chat with this id.
pub open spec fn first_chat(chats: Seq<ChatView>, id: Seq<char>) -> Option<int> {
    if exists|k: int| 0 <= k < chats.len() && #[trigger] chats[k].id == id {
        Some(
            choose|k: int|
                0 <= k < chats.len() && #[trigger] chats[k].id == id && forall|j: int|
                    0 <= j < k ==> chats[j].id != id,
        )
    } else {
        None
    }
}

proof fn lemma_first_chat(s: Seq<ChatView>, id: Seq<char>, k: int)
    requires
        0 <= k < s.len(),
        s[k].id == id,
        forall|j: int| 0 <= j < k ==> s[j].id != id,
    ensures
        first_chat(s, id) == Some(k),
{
    let c = choose|c: int| 0 <= c < s.len() && #[trigger] s[c].id == id && forall|j: int| 0 <= j < c ==> s[j].id != id;
    assert(0 <= c < s.len() && s[c].id == id);
    if c < k {
        assert(s[c].id != id);
    } else if k < c {
        assert(s[k].id != id);
    }
}

/// The position of the first chat with this id.
pub fn find_chat(chats: &Vec<Chat>, id: &str) -> (r: Option<usize>)
    ensures
        match r {
            Some(k) => k < chats@.len() && first_chat(chat_views(chats@), id@) == Some(k as int),
            None => first_chat(chat_views(chats@), id@) is None,
        },
{
    let ghost v = chat_views(chats@);
    let mut k: usize = 0;
    while k < chats.len()
        invariant
            k <= chats@.len(),
            v == chat_views(chats@),
            forall|j: int| 0 <= j < k ==> #[trigger] v[j].id != id@,
        decreases chats@.len() - k,
    {
        assert(v[k as int] == chats@[k as int]@);
        if text::str_is(chats[k].id.as_str(), id) {
            proof {
                lemma_first_chat(v, id@, k as int);
            }
            return Some(k);
        }
        k = k + 1;
    }
    proof {
        if exists|c: int| 0 <= c < v.len() && #[trigger] v[c].id == id@ {
            let c = choose|c: int| 0 <= c < v.len() && #[trigger] v[c].id == id@;
            assert(v[c].id != id@);
        }
    }
    None
}

/// Gives the first chat with this id the last of the fetched messages as
/// its preview; no messages, or no such chat, change nothing.
pub fn apply_preview(chats: &mut Vec<Chat>, chat_id: &str, msgs: Vec<Message>)
    ensures
        msgs@.len() == 0 ==> final(chats)@ == old(chats)@,
        msgs@.len() > 0 ==> match first_chat(chat_views(old(chats)@), chat_id@) {
            Some(k) => final(chats)@ == old(chats)@.update(
                k,
                (Chat { last_message: Some(msgs@.last()), ..old(chats)@[k] }),
            ),
            None => final(chats)@ == old(chats)@,
        },
{
    let ghost given = msgs@;
    if msgs.len() == 0 {
        return;
    }
    let last = copy_message(&msgs[msgs.len() - 1]);
    let ghost cv = chat_views(chats@);
    let mut k: usize = 0;
    while k < chats.len()
        invariant
            k <= chats@.len(),
            cv == chat_views(chats@),
            chats@ == old(chats)@,
            given == msgs@,
            given.len() > 0,
            last == given.last(),
            forall|j: int| 0 <= j < k ==> #[trigger] chats@[j].id@ != chat_id@,
        decreases chats@.len() - k,
    {
        if text::str_is(chats[k].id.as_str(), chat_id) {
            proof {
                assert(cv[k as int].id == chat_id@);
                assert forall|j: int| 0 <= j < k implies cv[j].id != chat_id@ by {
                    assert(cv[j] == chats@[j]@);
                }
                let c = choose|c: int|
                    0 <= c < cv.len() && #[trigger] cv[c].id == chat_id@ && forall|j: int|
                        0 <= j < c ==> cv[j].id != chat_id@;
                if c < k {
                    assert(cv[c] == chats@[c]@);
                } else if k < c {
                    assert(cv[k as int].id != chat_id@);
                }
                assert(first_chat(cv, chat_id@) == Some(k as int));
            }
            let ghost before = chats@;
            let mut chat = chats.remove(k);
            chat.last_message = Some(last);
            let ghost updated = chat;
            chats.insert(k, chat);
            assert(chats@ =~= before.update(k as int, updated));
            assert(last == given.last());
            assert(updated == Chat { last_message: Some(given.last()), ..before[k as int] });
            return;
        }
        k = k + 1;
    }
    proof {
        if exists|c: int| 0 <= c < cv.len() && #[trigger] cv[c].id == chat_id@ {
            let c = choose|c: int| 0 <= c < cv.len() && #[trigger] cv[c].id == chat_id@;
            assert(chats@[c].id@ == chat_id@);
        }
    }
}

} // verus!
