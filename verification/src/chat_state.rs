//! What the client keeps in memory of its chats: each chat's loaded
//! messages and the flags of the chat list, and how incoming messages,
//! edits, deletions, delivery reports and outbox retries change them.

use vstd::prelude::*;

use crate::chats::{chat_views, find_chat, first_chat, Chat, ChatView};
use crate::messages::{
    copy_message, sort_by_created, sorted_by_time, sorting_orders_and_keeps, time_ordered, views, Message,
    MessageId, MessageView, Timestamp,
};
use crate::goloom::opt_view;
use crate::outbox::{Outbox, OutboxItem};
use crate::text::{self, after_last, opt_str};

verus! {

// ── matching messages ────────────────────────────────────────────────

/// `s` ends with `suffix`.
pub open spec fn ends_with(s: Seq<char>, suffix: Seq<char>) -> bool {
    suffix.len() <= s.len() && s.skip(s.len() - suffix.len()) == suffix
}

pub fn ends_with_text(s: &str, suffix: &str) -> (b: bool)
    ensures
        b == ends_with(s@, suffix@),
{
    let a = text::chars_of(s);
    let p = text::chars_of(suffix);
    if p.len() > a.len() {
        return false;
    }
    let off = a.len() - p.len();
    let mut i: usize = 0;
    while i < p.len()
        invariant
            a@ == s@,
            p@ == suffix@,
            a@.len() == a.len(),
            p@.len() == p.len(),
            off + p@.len() == a@.len(),
            i <= p@.len(),
            forall|j: int| 0 <= j < i ==> a@[off + j] == p@[j],
        decreases p@.len() - i,
    {
        if a[off + i] != p[i] {
            assert(s@.skip(off as int)[i as int] != suffix@[i as int]);
            return false;
        }
        i = i + 1;
    }
    assert(s@.skip(off as int) =~= suffix@);
    true
}

/// A loaded message `m` is the incoming `msg` again: the same id, the
/// same message id, or an id ending in `_` and the last part of `msg`'s id.
pub open spec fn same_message(m: MessageView, msg: MessageView) -> bool {
    ||| m.id == msg.id
    ||| (m.message_id is Some && m.message_id == msg.message_id)
    ||| ends_with(m.id, "_"@ + after_last(msg.id, '_'))
}

/// The list already holds the incoming message.
pub open spec fn holds(s: Seq<MessageView>, msg: MessageView) -> bool {
    exists|k: int| 0 <= k < s.len() && #[trigger] same_message(s[k], msg)
}

fn opt_eq(a: &Option<String>, b: &Option<String>) -> (r: bool)
    ensures
        r == (opt_str(*a) == opt_str(*b)),
{
    match (a, b) {
        (Some(x), Some(y)) => text::str_is(x.as_str(), y.as_str()),
        (None, None) => true,
        _ => false,
    }
}

fn holds_message(msgs: &Vec<Message>, msg: &Message) -> (r: bool)
    ensures
        r == holds(views(msgs@), msg@),
{
    let tail_chars = text::after_last_char(&text::chars_of(msg.id.as_str()), '_');
    let mut suffix = "_".to_owned();
    text::append_chars(&mut suffix, &tail_chars);
    assert(suffix@ =~= "_"@ + after_last(msg@.id, '_'));
    let mut k: usize = 0;
    while k < msgs.len()
        invariant
            k <= msgs@.len(),
            suffix@ == "_"@ + after_last(msg@.id, '_'),
            forall|j: int| 0 <= j < k ==> !#[trigger] same_message(views(msgs@)[j], msg@),
        decreases msgs@.len() - k,
    {
        let m = &msgs[k];
        let same = text::str_is(m.id.as_str(), msg.id.as_str()) || (m.message_id.is_some() && opt_eq(
            &m.message_id,
            &msg.message_id,
        )) || ends_with_text(m.id.as_str(), suffix.as_str());
        assert(views(msgs@)[k as int] == msgs@[k as int]@);
        if same {
            assert(same_message(views(msgs@)[k as int], msg@));
            return true;
        }
        k = k + 1;
    }
    false
}

/// Adds an incoming message to a chat's list unless the list holds it
/// already; the list is then ordered by time again. Returns whether it
/// was added.
pub fn add_incoming(msgs: &mut Vec<Message>, msg: Message) -> (added: bool)
    ensures
        added == !holds(views(old(msgs)@), msg@),
        added ==> views(final(msgs)@) == sorted_by_time(views(old(msgs)@).push(msg@)),
        !added ==> final(msgs)@ == old(msgs)@,
{
    if holds_message(msgs, &msg) {
        return false;
    }
    let ghost before = views(msgs@);
    msgs.push(msg);
    assert(views(msgs@) =~= before.push(msg@));
    let sorted = sort_by_created(msgs);
    *msgs = sorted;
    true
}

/// An incoming message that the chat holds already is not added again;
/// one that is added is then in the list, and the list is in time order.
pub proof fn incoming_is_kept_in_order(loaded: Seq<MessageView>, msg: MessageView)
    ensures
        time_ordered(sorted_by_time(loaded.push(msg))),
        sorted_by_time(loaded.push(msg)).to_multiset().count(msg) == loaded.to_multiset().count(msg) + 1,
{
    broadcast use vstd::seq_lib::to_multiset_build;

    sorting_orders_and_keeps(loaded.push(msg));
}

// ── edits and deletions ──────────────────────────────────────────────

/// `m` is the message `mid`: by id or by message id.
pub open spec fn answers_to(m: MessageView, mid: Seq<char>) -> bool {
    m.id == mid || m.message_id == Some(mid)
}

/// Position of the first message that is `mid`.
pub open spec fn first_answering(s: Seq<MessageView>, mid: Seq<char>) -> Option<int> {
    if exists|k: int| 0 <= k < s.len() && #[trigger] answers_to(s[k], mid) {
        Some(
            choose|k: int|
                0 <= k < s.len() && #[trigger] answers_to(s[k], mid) && forall|j: int|
                    0 <= j < k ==> !answers_to(s[j], mid),
        )
    } else {
        None
    }
}

fn answers(m: &Message, mid: &str) -> (b: bool)
    ensures
        b == answers_to(m@, mid@),
{
    text::str_is(m.id.as_str(), mid) || match &m.message_id {
        Some(x) => text::str_is(x.as_str(), mid),
        None => false,
    }
}

/// The position of the first message that is `mid`.
pub fn find_answering(msgs: &Vec<Message>, mid: &str) -> (r: Option<usize>)
    ensures
        match r {
            Some(k) => k < msgs@.len() && first_answering(views(msgs@), mid@) == Some(k as int),
            None => first_answering(views(msgs@), mid@) is None,
        },
{
    let ghost v = views(msgs@);
    let mut k: usize = 0;
    while k < msgs.len()
        invariant
            k <= msgs@.len(),
            v == views(msgs@),
            forall|j: int| 0 <= j < k ==> !#[trigger] answers_to(v[j], mid@),
        decreases msgs@.len() - k,
    {
        assert(v[k as int] == msgs@[k as int]@);
        if answers(&msgs[k], mid) {
            proof {
                let c = choose|c: int|
                    0 <= c < v.len() && #[trigger] answers_to(v[c], mid@) && forall|j: int|
                        0 <= j < c ==> !answers_to(v[j], mid@);
                assert(answers_to(v[k as int], mid@));
                if c < k {
                    assert(!answers_to(v[c], mid@));
                } else if k < c {
                    assert(!answers_to(v[k as int], mid@));
                }
            }
            return Some(k);
        }
        k = k + 1;
    }
    proof {
        if exists|c: int| 0 <= c < v.len() && #[trigger] answers_to(v[c], mid@) {
            let c = choose|c: int| 0 <= c < v.len() && #[trigger] answers_to(v[c], mid@);
            assert(!answers_to(v[c], mid@));
        }
    }
    None
}

/// The time of the message `mid`, which an edit or a deletion names it by.
pub fn target_time(msgs: &Vec<Message>, mid: &str) -> (r: Option<Timestamp>)
    ensures
        match first_answering(views(msgs@), mid@) {
            Some(k) => r == Some(msgs@[k].created),
            None => r is None,
        },
{
    match find_answering(msgs, mid) {
        Some(k) => Some(msgs[k].created),
        None => None,
    }
}

/// The message `mid` with a new text, marked edited at `at`.
pub open spec fn edited_view(m: MessageView, text: Seq<char>, at: Timestamp) -> MessageView {
    MessageView { text: Some(text), edited: true, edited_at: Some(at), ..m }
}

/// Edits the message `mid` in place at `now`; returns it as edited, or
/// nothing when the list does not hold it.
pub fn apply_edit(msgs: &mut Vec<Message>, mid: &str, text: &str, now: Timestamp) -> (r: Option<Message>)
    ensures
        match first_answering(views(old(msgs)@), mid@) {
            Some(k) => views(final(msgs)@) == views(old(msgs)@).update(k, edited_view(old(msgs)@[k]@, text@, now))
                && (r matches Some(m) && m@ == edited_view(old(msgs)@[k]@, text@, now)),
            None => r is None && final(msgs)@ == old(msgs)@,
        },
{
    match find_answering(msgs, mid) {
        Some(k) => {
            let ghost before = msgs@;
            let mut m = msgs.remove(k);
            m.text = Some(text.to_owned());
            m.edited = true;
            m.edited_at = Some(now);
            let copy = copy_message(&m);
            msgs.insert(k, m);
            assert(msgs@ =~= before.update(k as int, copy));
            assert(views(msgs@) =~= views(before).update(k as int, edited_view(before[k as int]@, text@, now)));
            Some(copy)
        },
        None => None,
    }
}

/// The messages other than `mid`, in order.
pub open spec fn without_answering(s: Seq<MessageView>, mid: Seq<char>) -> Seq<MessageView>
    decreases s.len(),
{
    if s.len() == 0 {
        s
    } else if answers_to(s.last(), mid) {
        without_answering(s.drop_last(), mid)
    } else {
        without_answering(s.drop_last(), mid).push(s.last())
    }
}

/// Drops the message `mid` (every copy of it) once the server has
/// deleted it.
pub fn purge_message(msgs: &mut Vec<Message>, mid: &str)
    ensures
        views(final(msgs)@) == without_answering(views(old(msgs)@), mid@),
{
    let ghost v = views(msgs@);
    let mut kept: Vec<Message> = Vec::new();
    let mut i: usize = 0;
    assert(v.take(0) =~= Seq::<MessageView>::empty());
    while i < msgs.len()
        invariant
            i <= msgs@.len(),
            v == views(msgs@),
            msgs@ == old(msgs)@,
            views(kept@) == without_answering(v.take(i as int), mid@),
        decreases msgs@.len() - i,
    {
        assert(v.take(i + 1).drop_last() =~= v.take(i as int));
        assert(v.take(i + 1).last() == msgs@[i as int]@);
        if !answers(&msgs[i], mid) {
            let ghost o = kept@;
            kept.push(copy_message(&msgs[i]));
            assert(views(kept@) =~= views(o).push(msgs@[i as int]@));
        }
        i = i + 1;
    }
    assert(v.take(msgs@.len() as int) =~= v);
    *msgs = kept;
}

// ── delivery reports ─────────────────────────────────────────────────

/// A report reaches a message: a report on one message reaches it by id,
/// message id or an id ending in `_` and that id; a report on the whole
/// chat reaches the messages already on their way (sent or delivered).
pub open spec fn reached(m: MessageView, target: Option<Seq<char>>) -> bool {
    match target {
        Some(x) => m.id == x || m.message_id == Some(x) || ends_with(m.id, "_"@ + x),
        None => m.sent || m.delivered,
    }
}

/// A message after a report: reached, it becomes delivered when the report
/// says delivered or read, and read when it says read.
pub open spec fn reported(m: MessageView, target: Option<Seq<char>>, delivered: bool, read: bool) -> MessageView {
    if reached(m, target) {
        MessageView { delivered: m.delivered || delivered || read, read: m.read || read, ..m }
    } else {
        m
    }
}

/// The report changed the message.
pub open spec fn changed_by(m: MessageView, target: Option<Seq<char>>, delivered: bool, read: bool) -> bool {
    reached(m, target) && ((delivered && !m.delivered) || (read && !m.read))
}

/// The ids of the messages a report changes, in order.
pub open spec fn changed_ids(s: Seq<MessageView>, target: Option<Seq<char>>, delivered: bool, read: bool) -> Seq<
    Seq<char>,
>
    decreases s.len(),
{
    if s.len() == 0 {
        Seq::empty()
    } else if changed_by(s.last(), target, delivered, read) {
        changed_ids(s.drop_last(), target, delivered, read).push(s.last().id)
    } else {
        changed_ids(s.drop_last(), target, delivered, read)
    }
}

fn reaches(m: &Message, target: Option<&str>) -> (b: bool)
    ensures
        b == reached(m@, crate::goloom::opt_view(target)),
{
    match target {
        Some(x) => {
            let mut suffix = "_".to_owned();
            suffix.append(x);
            text::str_is(m.id.as_str(), x) || match &m.message_id {
                Some(y) => text::str_is(y.as_str(), x),
                None => false,
            } || ends_with_text(m.id.as_str(), suffix.as_str())
        },
        None => m.sent || m.delivered,
    }
}

/// Applies a delivery report to a chat's messages; returns the ids of the
/// messages it changed, in order.
pub fn apply_status(msgs: &mut Vec<Message>, target: Option<&str>, delivered: bool, read: bool) -> (changed: Vec<
    String,
>)
    ensures
        views(final(msgs)@) == views(old(msgs)@).map_values(
            |m: MessageView| reported(m, crate::goloom::opt_view(target), delivered, read),
        ),
        changed@.map_values(|s: String| s@) == changed_ids(
            views(old(msgs)@),
            crate::goloom::opt_view(target),
            delivered,
            read,
        ),
{
    let ghost t = crate::goloom::opt_view(target);
    let ghost v = views(msgs@);
    let mut out: Vec<Message> = Vec::new();
    let mut changed: Vec<String> = Vec::new();
    let mut i: usize = 0;
    assert(v.take(0) =~= Seq::<MessageView>::empty());
    assert(changed@.map_values(|s: String| s@) =~= Seq::<Seq<char>>::empty());
    while i < msgs.len()
        invariant
            i <= msgs@.len(),
            v == views(msgs@),
            msgs@ == old(msgs)@,
            t == crate::goloom::opt_view(target),
            views(out@) == v.take(i as int).map_values(|m: MessageView| reported(m, t, delivered, read)),
            changed@.map_values(|s: String| s@) == changed_ids(v.take(i as int), t, delivered, read),
        decreases msgs@.len() - i,
    {
        assert(v.take(i + 1).drop_last() =~= v.take(i as int));
        assert(v.take(i + 1).last() == msgs@[i as int]@);
        let mut m = copy_message(&msgs[i]);
        let hit = reaches(&m, target);
        if hit && ((delivered && !m.delivered) || (read && !m.read)) {
            let ghost o = changed@;
            changed.push(m.id.clone());
            assert(changed@.map_values(|s: String| s@) =~= o.map_values(|s: String| s@).push(msgs@[i as int]@.id));
        }
        if hit {
            m.delivered = m.delivered || delivered || read;
            m.read = m.read || read;
        }
        let ghost o2 = out@;
        out.push(m);
        assert(views(out@) =~= views(o2).push(reported(msgs@[i as int]@, t, delivered, read)));
        assert(v.take(i + 1).map_values(|m: MessageView| reported(m, t, delivered, read)) =~= v.take(
            i as int,
        ).map_values(|m: MessageView| reported(m, t, delivered, read)).push(reported(v[i as int], t, delivered, read)));
        i = i + 1;
    }
    assert(v.take(msgs@.len() as int) =~= v);
    *msgs = out;
    changed
}

/// A report never takes back a delivery or a reading, and a read message
/// is delivered.
pub proof fn reports_only_move_forward(m: MessageView, target: Option<Seq<char>>, delivered: bool, read: bool)
    ensures
        m.delivered ==> reported(m, target, delivered, read).delivered,
        m.read ==> reported(m, target, delivered, read).read,
        reached(m, target) && read ==> reported(m, target, delivered, read).read && reported(
            m,
            target,
            delivered,
            read,
        ).delivered,
{
}

// ── outbox retries ───────────────────────────────────────────────────

/// The message shown while a text waits in the outbox: under the outbox
/// item's id, answering `reply_to` of the same chat, not yet sent.
pub open spec fn pending_view(
    item_id: Seq<char>,
    chat_id: Seq<char>,
    from_id: Seq<char>,
    text: Seq<char>,
    reply_to: Option<Seq<char>>,
    now: Timestamp,
) -> MessageView {
    MessageView {
        id: item_id,
        chat_id,
        from_id,
        message_id: Some(item_id),
        text: Some(text),
        reply_to: match reply_to {
            Some(r) => Some((chat_id, r)),
            None => None,
        },
        created: now,
        edited: false,
        edited_at: None,
        updated: None,
        sent: false,
        delivered: false,
        read: false,
    }
}

/// The message shown while a text waits in the outbox.
pub fn pending_message(item_id: &str, chat_id: &str, from_id: &str, text: &str, reply_to: Option<&str>, now: Timestamp) -> (m: Message)
    ensures
        m@ == pending_view(item_id@, chat_id@, from_id@, text@, opt_view(reply_to), now),
{
    Message {
        id: item_id.to_owned(),
        chat_id: chat_id.to_owned(),
        from_id: from_id.to_owned(),
        message_id: Some(item_id.to_owned()),
        text: Some(text.to_owned()),
        reply_to: match reply_to {
            Some(r) => Some(MessageId { chat_id: chat_id.to_owned(), message_id: r.to_owned() }),
            None => None,
        },
        created: now,
        edited: false,
        edited_at: None,
        updated: None,
        sent: false,
        delivered: false,
        read: false,
    }
}

/// Why sending failed over both ways: the socket's error, and the session
/// call's error or that there is no session.
pub fn send_failure(ws_err: &str, session_err: Option<&str>) -> (e: String)
    ensures
        e@ == "ws: "@ + ws_err@ + match session_err {
            Some(s) => "; session: "@ + s@,
            None => "; no session for HTTP fallback"@,
        },
{
    let mut e = "ws: ".to_owned();
    e.append(ws_err);
    match session_err {
        Some(s) => {
            e.append("; session: ");
            e.append(s);
        },
        None => {
            e.append("; no session for HTTP fallback");
        },
    }
    e
}

// ── sending and editing a text ───────────────────────────────────────

pub open spec fn not_found_message() -> Seq<char> {
    "Сообщение не найдено"@
}

pub open spec fn offline_edit_message() -> Seq<char> {
    "Нет связи с сервером — правка невозможна"@
}

/// Before an edit goes out: the time of the message `mid` in the chat's
/// list, which the edit is sent with. Refused when the list does not hold
/// the message, or else when the push socket is not connected.
pub fn edit_target(msgs: &Vec<Message>, mid: &str, connected: bool) -> (r: Result<Timestamp, String>)
    ensures
        match first_answering(views(msgs@), mid@) {
            None => r matches Err(e) && e@ == not_found_message(),
            Some(k) => if connected {
                r matches Ok(t) && t == msgs@[k].created
            } else {
                r matches Err(e) && e@ == offline_edit_message()
            },
        },
{
    match target_time(msgs, mid) {
        None => Err("Сообщение не найдено".to_owned()),
        Some(t) => {
            if !connected {
                Err("Нет связи с сервером — правка невозможна".to_owned())
            } else {
                Ok(t)
            }
        },
    }
}

/// The edited message shown when the chat's list no longer holds the
/// message that was edited: built from the edit alone, sent and
/// delivered, edited and changed at `now`.
pub open spec fn edit_fallback(chat_id: Seq<char>, mid: Seq<char>, from_id: Seq<char>, text: Seq<char>, now: Timestamp) -> MessageView {
    MessageView {
        id: mid,
        chat_id,
        from_id,
        message_id: Some(mid),
        text: Some(text),
        reply_to: None,
        created: now,
        edited: true,
        edited_at: Some(now),
        updated: Some(now),
        sent: true,
        delivered: true,
        read: false,
    }
}

/// After an edit was sent at `now`: when sending failed, the error
/// `edit failed: ...` and the list unchanged; else the message `mid`
/// edited in place and returned, or, when the list no longer holds it, the
/// edited message built from the edit alone.
pub fn finish_edit(
    msgs: &mut Vec<Message>,
    chat_id: &str,
    mid: &str,
    text: &str,
    from_id: &str,
    now: Timestamp,
    sent: Result<(), String>,
) -> (r: Result<Message, String>)
    ensures
        match sent {
            Err(e) => final(msgs)@ == old(msgs)@ && (r matches Err(f) && f@ == "edit failed: "@ + e@),
            Ok(_) => match first_answering(views(old(msgs)@), mid@) {
                Some(k) => views(final(msgs)@) == views(old(msgs)@).update(k, edited_view(old(msgs)@[k]@, text@, now))
                    && (r matches Ok(m) && m@ == edited_view(old(msgs)@[k]@, text@, now)),
                None => final(msgs)@ == old(msgs)@ && (r matches Ok(m) && m@ == edit_fallback(
                    chat_id@,
                    mid@,
                    from_id@,
                    text@,
                    now,
                )),
            },
        },
{
    match sent {
        Err(e) => {
            let mut f = "edit failed: ".to_owned();
            f.append(e.as_str());
            Err(f)
        },
        Ok(_) => match apply_edit(msgs, mid, text, now) {
            Some(m) => Ok(m),
            None => Ok(
                Message {
                    id: mid.to_owned(),
                    chat_id: chat_id.to_owned(),
                    from_id: from_id.to_owned(),
                    message_id: Some(mid.to_owned()),
                    text: Some(text.to_owned()),
                    reply_to: None,
                    created: now,
                    edited: true,
                    edited_at: Some(now),
                    updated: Some(now),
                    sent: true,
                    delivered: true,
                    read: false,
                },
            ),
        },
    }
}

/// What the two ways of sending a text gave together: the socket's
/// message; when the socket failed, the session call's message, tried
/// only when there is a session (`session` is `None` otherwise); else why
/// both failed.
pub fn send_result(ws: Result<Message, String>, session: Option<Result<Message, String>>) -> (r: Result<Message, String>)
    ensures
        match ws {
            Ok(m) => r matches Ok(s) && s == m,
            Err(we) => match session {
                Some(Ok(m)) => r matches Ok(s) && s == m,
                Some(Err(se)) => r matches Err(e) && e@ == "ws: "@ + we@ + "; session: "@ + se@,
                None => r matches Err(e) && e@ == "ws: "@ + we@ + "; no session for HTTP fallback"@,
            },
        },
{
    match ws {
        Ok(m) => Ok(m),
        Err(we) => match session {
            Some(Ok(m)) => Ok(m),
            Some(Err(se)) => Err(send_failure(we.as_str(), Some(se.as_str()))),
            None => Err(send_failure(we.as_str(), None)),
        },
    }
}

/// Records a text once sending it is over, at `now`. A message that went
/// out is marked sent and delivered, added to the chat's list and
/// returned; the outbox is left alone. When sending failed, the text is
/// queued in the outbox with that error, and the pending message under the
/// new item's id is added to the list and returned.
pub fn record_send(
    msgs: &mut Vec<Message>,
    outbox: &mut Outbox,
    chat_id: &str,
    text: &str,
    reply_to: Option<&str>,
    from_id: &str,
    now: Timestamp,
    result: Result<Message, String>,
) -> (m: Message)
    ensures
        final(msgs)@ == old(msgs)@.push(m),
        match result {
            Ok(s) => m@ == (MessageView { sent: true, delivered: true, ..s@ }) && final(outbox).items@
                == old(outbox).items@,
            Err(e) => final(outbox).items@.len() == old(outbox).items@.len() + 1 && ({
                let item = final(outbox).items@.last();
                &&& final(outbox).items@ == old(outbox).items@.push(item)
                &&& item.chat_id@ == chat_id@
                &&& item.text@ == text@
                &&& text::opt_str(item.reply_to) == opt_view(reply_to)
                &&& item.attempts == 0
                &&& item.last_error == Some(e)
                &&& m@ == pending_view(item.id@, chat_id@, from_id@, text@, opt_view(reply_to), now)
            }),
        },
{
    match result {
        Ok(s) => {
            let mut m = s;
            m.sent = true;
            m.delivered = true;
            msgs.push(copy_message(&m));
            m
        },
        Err(e) => {
            let item: OutboxItem = outbox.enqueue(chat_id, text, reply_to, Some(e));
            let m = pending_message(item.id.as_str(), chat_id, from_id, text, reply_to, now);
            msgs.push(copy_message(&m));
            m
        },
    }
}

/// Position of the first message with this id.
pub open spec fn first_with_id(s: Seq<MessageView>, id: Seq<char>) -> Option<int> {
    if exists|k: int| 0 <= k < s.len() && #[trigger] s[k].id == id {
        Some(choose|k: int| 0 <= k < s.len() && #[trigger] s[k].id == id && forall|j: int| 0 <= j < k ==> s[j].id != id)
    } else {
        None
    }
}

proof fn lemma_first_with_id(s: Seq<MessageView>, id: Seq<char>, k: int)
    requires
        0 <= k < s.len(),
        s[k].id == id,
        forall|j: int| 0 <= j < k ==> s[j].id != id,
    ensures
        first_with_id(s, id) == Some(k),
{
    let c = choose|c: int| 0 <= c < s.len() && #[trigger] s[c].id == id && forall|j: int| 0 <= j < c ==> s[j].id != id;
    assert(0 <= c < s.len() && s[c].id == id);
    if c < k {
        assert(s[c].id != id);
    } else if k < c {
        assert(s[k].id != id);
    }
}

fn find_id(msgs: &Vec<Message>, id: &str) -> (r: Option<usize>)
    ensures
        match r {
            Some(k) => k < msgs@.len() && first_with_id(views(msgs@), id@) == Some(k as int),
            None => first_with_id(views(msgs@), id@) is None,
        },
{
    let ghost v = views(msgs@);
    let mut k: usize = 0;
    while k < msgs.len()
        invariant
            k <= msgs@.len(),
            v == views(msgs@),
            forall|j: int| 0 <= j < k ==> #[trigger] v[j].id != id@,
        decreases msgs@.len() - k,
    {
        assert(v[k as int] == msgs@[k as int]@);
        if text::str_is(msgs[k].id.as_str(), id) {
            proof {
                lemma_first_with_id(v, id@, k as int);
            }
            return Some(k);
        }
        k = k + 1;
    }
    proof {
        if exists|c: int| 0 <= c < v.len() && #[trigger] v[c].id == id@ {
            let c = choose|c: int| 0 <= c < v.len() && #[trigger] v[c].id == id@;
            assert(v[c].id != id@);
        }
    }
    None
}

/// Puts a message that finally went out in place of its pending
/// placeholder, or at the end when there is none.
pub fn settle_sent(msgs: &mut Vec<Message>, item_id: &str, msg: Message)
    ensures
        match first_with_id(views(old(msgs)@), item_id@) {
            Some(k) => final(msgs)@ == old(msgs)@.update(k, msg),
            None => final(msgs)@ == old(msgs)@.push(msg),
        },
{
    match find_id(msgs, item_id) {
        Some(k) => {
            msgs.set(k, msg);
        },
        None => {
            msgs.push(msg);
        },
    }
}

// ── the chat list ────────────────────────────────────────────────────

/// A change of a chat's flags made from the chat list.
#[derive(Clone, Copy, Debug, PartialEq, Eq)]
pub enum ChatChange {
    Muted(bool),
    Pinned(bool),
    Archived(bool),
    /// All its messages read: no unread count left.
    Read,
}

pub open spec fn with_change(c: Chat, ch: ChatChange) -> Chat {
    match ch {
        ChatChange::Muted(v) => Chat { muted: v, ..c },
        ChatChange::Pinned(v) => Chat { pinned: v, ..c },
        ChatChange::Archived(v) => Chat { archived: v, ..c },
        ChatChange::Read => Chat { unread_count: 0, ..c },
    }
}

/// Applies a change to the first chat with this id; an unknown chat
/// changes nothing.
pub fn change_chat(chats: &mut Vec<Chat>, id: &str, ch: ChatChange)
    ensures
        match first_chat(chat_views(old(chats)@), id@) {
            Some(k) => final(chats)@ == old(chats)@.update(k, with_change(old(chats)@[k], ch)),
            None => final(chats)@ == old(chats)@,
        },
{
    match find_chat(chats, id) {
        Some(k) => {
            let ghost before = chats@;
            let mut c = chats.remove(k);
            match ch {
                ChatChange::Muted(v) => {
                    c.muted = v;
                },
                ChatChange::Pinned(v) => {
                    c.pinned = v;
                },
                ChatChange::Archived(v) => {
                    c.archived = v;
                },
                ChatChange::Read => {
                    c.unread_count = 0;
                },
            }
            let ghost changed = c;
            chats.insert(k, c);
            assert(chats@ =~= before.update(k as int, changed));
        },
        None => {},
    }
}

/// Whether the first chat with this id is muted (an unknown chat is not).
pub fn is_chat_muted(chats: &Vec<Chat>, id: &str) -> (b: bool)
    ensures
        b == match first_chat(chat_views(chats@), id@) {
            Some(k) => chats@[k].muted,
            None => false,
        },
{
    match find_chat(chats, id) {
        Some(k) => chats[k].muted,
        None => false,
    }
}

/// The unread messages over all chats.
pub open spec fn unread_sum(s: Seq<Chat>) -> int
    decreases s.len(),
{
    if s.len() == 0 {
        0
    } else {
        unread_sum(s.drop_last()) + s.last().unread_count
    }
}

proof fn lemma_unread_sum_grows(s: Seq<Chat>, i: int)
    requires
        0 <= i <= s.len(),
    ensures
        unread_sum(s.take(i)) <= unread_sum(s),
    decreases s.len() - i,
{
    if i < s.len() {
        lemma_unread_sum_grows(s, i + 1);
        assert(s.take(i + 1).drop_last() =~= s.take(i));
    } else {
        assert(s.take(i) =~= s);
    }
}

/// The unread count for the tray badge.
pub fn total_unread(chats: &Vec<Chat>) -> (n: u32)
    requires
        unread_sum(chats@) <= u32::MAX,
    ensures
        n == unread_sum(chats@),
{
    let mut n: u32 = 0;
    let mut i: usize = 0;
    assert(chats@.take(0) =~= Seq::<Chat>::empty());
    while i < chats.len()
        invariant
            i <= chats@.len(),
            unread_sum(chats@) <= u32::MAX,
            n == unread_sum(chats@.take(i as int)),
        decreases chats@.len() - i,
    {
        assert(chats@.take(i + 1).drop_last() =~= chats@.take(i as int));
        proof {
            lemma_unread_sum_grows(chats@, i + 1);
        }
        n = n + chats[i].unread_count;
        i = i + 1;
    }
    assert(chats@.take(chats@.len() as int) =~= chats@);
    n
}

/// The chats other than `id`, in order.
pub open spec fn other_chats(s: Seq<Chat>, id: Seq<char>) -> Seq<Chat>
    decreases s.len(),
{
    if s.len() == 0 {
        s
    } else if s.last().id@ == id {
        other_chats(s.drop_last(), id)
    } else {
        other_chats(s.drop_last(), id).push(s.last())
    }
}

/// Forgets a deleted chat: it leaves the list, and is no longer selected.
pub fn forget_chat(chats: &mut Vec<Chat>, selected: &mut Option<String>, id: &str)
    ensures
        final(chats)@ == other_chats(old(chats)@, id@),
        opt_str(*final(selected)) == match opt_str(*old(selected)) {
            Some(s) => if s == id@ {
                None
            } else {
                Some(s)
            },
            None => None,
        },
{
    let ghost before = chats@;
    let mut kept: Vec<Chat> = Vec::new();
    let mut i: usize = 0;
    assert(before.take(0) =~= Seq::<Chat>::empty());
    while i < chats.len()
        invariant
            i <= before.len(),
            chats@ == before,
            before == old(chats)@,
            kept@ == other_chats(before.take(i as int), id@),
        decreases before.len() - i,
    {
        assert(before.take(i + 1).drop_last() =~= before.take(i as int));
        if !text::str_is(chats[i].id.as_str(), id) {
            kept.push(copy_chat(&chats[i]));
        }
        i = i + 1;
    }
    assert(before.take(before.len() as int) =~= before);
    *chats = kept;
    let clear = match selected {
        Some(s) => text::str_is(s.as_str(), id),
        None => false,
    };
    if clear {
        *selected = None;
    }
}

fn copy_opt(s: &Option<String>) -> (r: Option<String>)
    ensures
        r == *s,
{
    match s {
        Some(v) => Some(v.clone()),
        None => None,
    }
}

fn copy_chat(c: &Chat) -> (r: Chat)
    ensures
        r == *c,
{
    Chat {
        id: c.id.clone(),
        title: copy_opt(&c.title),
        chat_type: c.chat_type,
        avatar_id: copy_opt(&c.avatar_id),
        last_message: match &c.last_message {
            Some(m) => Some(copy_message(m)),
            None => None,
        },
        pinned: c.pinned,
        unread_count: c.unread_count,
        muted: c.muted,
        archived: c.archived,
    }
}

// ── the loaded messages of each chat ─────────────────────────────────

/// Each chat's loaded messages, by chat id.
pub open spec fn keyed_views(m: Seq<(String, Vec<Message>)>) -> Seq<(Seq<char>, Seq<MessageView>)> {
    m.map_values(|e: (String, Vec<Message>)| (e.0@, views(e.1@)))
}

pub open spec fn has_key(m: Seq<(Seq<char>, Seq<MessageView>)>, id: Seq<char>) -> bool {
    exists|k: int| 0 <= k < m.len() && #[trigger] m[k].0 == id
}

/// The loaded messages after seeding from the chat list: a chat that has
/// a preview and no loaded messages yet starts with its preview.
pub open spec fn seeded(m: Seq<(Seq<char>, Seq<MessageView>)>, chats: Seq<ChatView>) -> Seq<(Seq<char>, Seq<MessageView>)>
    decreases chats.len(),
{
    if chats.len() == 0 {
        m
    } else {
        let r = seeded(m, chats.drop_last());
        let c = chats.last();
        match c.last_message {
            Some(lm) => if has_key(r, c.id) {
                r
            } else {
                r.push((c.id, seq![lm]))
            },
            None => r,
        }
    }
}

/// No chat id keys two lists.
pub open spec fn keys_unique(m: Seq<(Seq<char>, Seq<MessageView>)>) -> bool {
    forall|i: int, j: int| 0 <= i < j < m.len() ==> (#[trigger] m[i]).0 != (#[trigger] m[j]).0
}

/// Seeding adds a list only under a chat id that has none, so the loaded
/// messages stay keyed by distinct chat ids.
pub proof fn seeding_keeps_keys_unique(m: Seq<(Seq<char>, Seq<MessageView>)>, chats: Seq<ChatView>)
    requires
        keys_unique(m),
    ensures
        keys_unique(seeded(m, chats)),
    decreases chats.len(),
{
    if chats.len() > 0 {
        seeding_keeps_keys_unique(m, chats.drop_last());
        let r = seeded(m, chats.drop_last());
        let c = chats.last();
        if let Some(lm) = c.last_message {
            if !has_key(r, c.id) {
                let u = r.push((c.id, seq![lm]));
                assert forall|i: int, j: int| 0 <= i < j < u.len() implies (#[trigger] u[i]).0 != (#[trigger] u[j]).0 by {
                    if j == r.len() {
                        assert(u[i] == r[i]);
                        if r[i].0 == c.id {
                            assert(has_key(r, c.id));
                        }
                    } else {
                        assert(u[i] == r[i] && u[j] == r[j]);
                    }
                }
            }
        }
    }
}

fn has_entry(m: &Vec<(String, Vec<Message>)>, id: &str) -> (b: bool)
    ensures
        b == has_key(keyed_views(m@), id@),
{
    let ghost kv = keyed_views(m@);
    let mut k: usize = 0;
    while k < m.len()
        invariant
            k <= m@.len(),
            kv == keyed_views(m@),
            forall|j: int| 0 <= j < k ==> #[trigger] kv[j].0 != id@,
        decreases m@.len() - k,
    {
        assert(kv[k as int].0 == m@[k as int].0@);
        if text::str_is(m[k].0.as_str(), id) {
            return true;
        }
        k = k + 1;
    }
    false
}

/// Seeds each chat's loaded messages from the chat list's previews, so
/// that opening a chat is never empty while its history loads.
pub fn seed_previews(by_chat: &mut Vec<(String, Vec<Message>)>, chats: &Vec<Chat>)
    ensures
        keyed_views(final(by_chat)@) == seeded(keyed_views(old(by_chat)@), chat_views(chats@)),
{
    let ghost start = keyed_views(by_chat@);
    let ghost cv = chat_views(chats@);
    let mut i: usize = 0;
    assert(cv.take(0) =~= Seq::<ChatView>::empty());
    while i < chats.len()
        invariant
            i <= chats@.len(),
            cv == chat_views(chats@),
            start == keyed_views(old(by_chat)@),
            keyed_views(by_chat@) == seeded(start, cv.take(i as int)),
        decreases chats@.len() - i,
    {
        assert(cv.take(i + 1).drop_last() =~= cv.take(i as int));
        assert(cv.take(i + 1).last() == chats@[i as int]@);
        match &chats[i].last_message {
            Some(lm) => {
                if !has_entry(by_chat, chats[i].id.as_str()) {
                    let mut first: Vec<Message> = Vec::new();
                    first.push(copy_message(lm));
                    assert(views(first@) =~= seq![lm@]);
                    let ghost o = by_chat@;
                    by_chat.push((chats[i].id.clone(), first));
                    assert(keyed_views(by_chat@) =~= keyed_views(o).push((chats@[i as int].id@, seq![lm@])));
                }
            },
            None => {},
        }
        i = i + 1;
    }
    assert(cv.take(chats@.len() as int) =~= cv);
}

} // verus!
