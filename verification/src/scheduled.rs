//! Messages scheduled to be sent later: the list kept per chat, and the
//! round that sends those that are due. Sending is the caller's part:
//! `start_round` says which to send, `finish_send` records each outcome.

use vstd::prelude::*;

use crate::messages::{later, Timestamp};
use crate::text::{self, opt_str};

verus! {

#[derive(Clone, Copy, Debug, PartialEq, Eq, Structural)]
pub enum ScheduledStatus {
    Pending,
    Sending,
    Sent,
    Failed,
}

/// A message to send at `scheduled_at`; once sent, the id it was sent
/// under.
#[derive(Clone, Debug, PartialEq)]
pub struct ScheduledMessage {
    pub message_id: String,
    pub chat_id: String,
    pub text: String,
    pub scheduled_at: Timestamp,
    pub status: ScheduledStatus,
    pub original_message_id: Option<String>,
}

/// Message ids are distinct.
pub open spec fn ids_distinct(s: Seq<ScheduledMessage>) -> bool {
    forall|i: int, j: int| 0 <= i < j < s.len() ==> #[trigger] s[i].message_id@ != #[trigger] s[j].message_id@
}

/// Position of the first message with this id.
pub open spec fn first_with(s: Seq<ScheduledMessage>, id: Seq<char>) -> Option<int> {
    if exists|k: int| 0 <= k < s.len() && #[trigger] s[k].message_id@ == id {
        Some(
            choose|k: int|
                0 <= k < s.len() && #[trigger] s[k].message_id@ == id && forall|j: int|
                    0 <= j < k ==> s[j].message_id@ != id,
        )
    } else {
        None
    }
}

proof fn lemma_first_with(s: Seq<ScheduledMessage>, id: Seq<char>, k: int)
    requires
        0 <= k < s.len(),
        s[k].message_id@ == id,
        forall|j: int| 0 <= j < k ==> s[j].message_id@ != id,
    ensures
        first_with(s, id) == Some(k),
{
    let c = choose|c: int|
        0 <= c < s.len() && #[trigger] s[c].message_id@ == id && forall|j: int| 0 <= j < c ==> s[j].message_id@ != id;
    assert(0 <= c < s.len() && s[c].message_id@ == id);
    if c < k {
        assert(s[c].message_id@ != id);
    } else if k < c {
        assert(s[k].message_id@ != id);
    }
}

fn find_message(list: &Vec<ScheduledMessage>, id: &str) -> (r: Option<usize>)
    ensures
        match r {
            Some(k) => k < list@.len() && first_with(list@, id@) == Some(k as int),
            None => first_with(list@, id@) is None && forall|j: int|
                0 <= j < list@.len() ==> #[trigger] list@[j].message_id@ != id@,
        },
{
    let mut k: usize = 0;
    while k < list.len()
        invariant
            k <= list@.len(),
            forall|j: int| 0 <= j < k ==> #[trigger] list@[j].message_id@ != id@,
        decreases list@.len() - k,
    {
        if text::str_is(list[k].message_id.as_str(), id) {
            proof {
                lemma_first_with(list@, id@, k as int);
            }
            return Some(k);
        }
        k = k + 1;
    }
    None
}

/// Sets the status of the first message with this id; an unknown id
/// changes nothing.
pub fn set_status(list: &mut Vec<ScheduledMessage>, id: &str, status: ScheduledStatus)
    ensures
        match first_with(old(list)@, id@) {
            Some(k) => final(list)@ == old(list)@.update(k, (ScheduledMessage { status, ..old(list)@[k] })),
            None => final(list)@ == old(list)@,
        },
{
    match find_message(list, id) {
        Some(k) => {
            let mut m = list.remove(k);
            m.status = status;
            let ghost updated = m;
            list.insert(k, m);
            assert(list@ =~= old(list)@.update(k as int, updated));
        },
        None => {},
    }
}

/// A message is due at `now`: pending, and not scheduled after `now`.
pub open spec fn due(m: ScheduledMessage, now: Timestamp) -> bool {
    m.status == ScheduledStatus::Pending && !later(m.scheduled_at, now)
}

/// The ids of the due messages, in order.
pub open spec fn due_ids(s: Seq<ScheduledMessage>, now: Timestamp) -> Seq<Seq<char>>
    decreases s.len(),
{
    if s.len() == 0 {
        Seq::empty()
    } else if due(s.last(), now) {
        due_ids(s.drop_last(), now).push(s.last().message_id@)
    } else {
        due_ids(s.drop_last(), now)
    }
}

/// The list with every due message marked as being sent.
pub open spec fn marked_sending(s: Seq<ScheduledMessage>, now: Timestamp) -> Seq<ScheduledMessage> {
    Seq::new(
        s.len(),
        |i: int|
            if due(s[i], now) {
                ScheduledMessage { status: ScheduledStatus::Sending, ..s[i] }
            } else {
                s[i]
            },
    )
}

/// The list with the first message of `id` marked as being sent.
pub open spec fn mark_first(s: Seq<ScheduledMessage>, id: Seq<char>) -> Seq<ScheduledMessage> {
    match first_with(s, id) {
        Some(k) => s.update(k, ScheduledMessage { status: ScheduledStatus::Sending, ..s[k] }),
        None => s,
    }
}

/// The list with the first message of each id marked, id after id.
pub open spec fn mark_all(s: Seq<ScheduledMessage>, ids: Seq<Seq<char>>) -> Seq<ScheduledMessage>
    decreases ids.len(),
{
    if ids.len() == 0 {
        s
    } else {
        mark_first(mark_all(s, ids.drop_last()), ids.last())
    }
}

fn due_id_list(list: &Vec<ScheduledMessage>, now: Timestamp) -> (ids: Vec<String>)
    ensures
        ids@.map_values(|s: String| s@) == due_ids(list@, now),
{
    let mut ids: Vec<String> = Vec::new();
    let mut i: usize = 0;
    assert(list@.take(0) =~= Seq::<ScheduledMessage>::empty());
    assert(ids@.map_values(|s: String| s@) =~= Seq::<Seq<char>>::empty());
    while i < list.len()
        invariant
            i <= list@.len(),
            ids@.map_values(|s: String| s@) == due_ids(list@.take(i as int), now),
        decreases list@.len() - i,
    {
        assert(list@.take(i + 1).drop_last() =~= list@.take(i as int));
        let pending = list[i].status == ScheduledStatus::Pending;
        let not_after = !crate::messages::is_later(list[i].scheduled_at, now);
        if pending && not_after {
            let ghost o = ids@;
            ids.push(list[i].message_id.clone());
            assert(ids@.map_values(|s: String| s@) =~= o.map_values(|s: String| s@).push(list@[i as int].message_id@));
        }
        i = i + 1;
    }
    assert(list@.take(list@.len() as int) =~= list@);
    ids
}

/// Starts a sending round at `now`: returns the ids of the due messages,
/// in order, and marks the first message of each of them as being sent.
pub fn start_round(list: &mut Vec<ScheduledMessage>, now: Timestamp) -> (ids: Vec<String>)
    ensures
        ids@.map_values(|s: String| s@) == due_ids(old(list)@, now),
        final(list)@ == mark_all(old(list)@, due_ids(old(list)@, now)),
{
    let ids = due_id_list(list, now);
    let ghost before = list@;
    let ghost wanted = ids@.map_values(|s: String| s@);
    let mut i: usize = 0;
    assert(wanted.take(0) =~= Seq::<Seq<char>>::empty());
    while i < ids.len()
        invariant
            i <= ids@.len(),
            wanted == ids@.map_values(|s: String| s@),
            list@ == mark_all(before, wanted.take(i as int)),
        decreases ids@.len() - i,
    {
        assert(wanted.take(i + 1).drop_last() =~= wanted.take(i as int));
        assert(wanted.take(i + 1).last() == ids@[i as int]@);
        let ghost cur = list@;
        set_status(list, ids[i].as_str(), ScheduledStatus::Sending);
        proof {
            match first_with(cur, ids@[i as int]@) {
                Some(k) => {
                    assert(list@ == cur.update(k, (ScheduledMessage { status: ScheduledStatus::Sending, ..cur[k] })));
                },
                None => {},
            }
        }
        i = i + 1;
    }
    assert(wanted.take(ids@.len() as int) =~= wanted);
    ids
}

proof fn lemma_min_exists(s: Seq<ScheduledMessage>, id: Seq<char>, k: int)
    requires
        0 <= k < s.len(),
        s[k].message_id@ == id,
    ensures
        exists|m: int|
            0 <= m < s.len() && #[trigger] s[m].message_id@ == id && forall|j: int| 0 <= j < m ==> s[j].message_id@ != id,
    decreases k,
{
    if exists|j: int| 0 <= j < k && #[trigger] s[j].message_id@ == id {
        let j = choose|j: int| 0 <= j < k && #[trigger] s[j].message_id@ == id;
        lemma_min_exists(s, id, j);
    } else {
        assert(forall|j: int| 0 <= j < k ==> s[j].message_id@ != id);
    }
}

/// What `first_with` says: the first position of the id, or that the id
/// is nowhere.
proof fn lemma_first_with_is(s: Seq<ScheduledMessage>, id: Seq<char>)
    ensures
        match first_with(s, id) {
            Some(k) => 0 <= k < s.len() && s[k].message_id@ == id && forall|j: int|
                0 <= j < k ==> s[j].message_id@ != id,
            None => forall|j: int| 0 <= j < s.len() ==> s[j].message_id@ != id,
        },
{
    if exists|k: int| 0 <= k < s.len() && #[trigger] s[k].message_id@ == id {
        let k = choose|k: int| 0 <= k < s.len() && #[trigger] s[k].message_id@ == id;
        lemma_min_exists(s, id, k);
    }
}

proof fn lemma_mark_first_keeps_ids(s: Seq<ScheduledMessage>, id: Seq<char>)
    ensures
        mark_first(s, id).len() == s.len(),
        forall|j: int| 0 <= j < s.len() ==> #[trigger] mark_first(s, id)[j].message_id == s[j].message_id,
{
    lemma_first_with_is(s, id);
}

proof fn lemma_mark_all_keeps_ids(s: Seq<ScheduledMessage>, ids: Seq<Seq<char>>)
    ensures
        mark_all(s, ids).len() == s.len(),
        forall|j: int| 0 <= j < s.len() ==> #[trigger] mark_all(s, ids)[j].message_id == s[j].message_id,
    decreases ids.len(),
{
    if ids.len() > 0 {
        lemma_mark_all_keeps_ids(s, ids.drop_last());
        lemma_mark_first_keeps_ids(mark_all(s, ids.drop_last()), ids.last());
    }
}

proof fn lemma_first_with_push(s: Seq<ScheduledMessage>, x: ScheduledMessage, id: Seq<char>)
    ensures
        first_with(s, id) is Some ==> first_with(s.push(x), id) == first_with(s, id),
        (first_with(s, id) is None && x.message_id@ == id) ==> first_with(s.push(x), id) == Some(s.len() as int),
        (first_with(s, id) is None && x.message_id@ != id) ==> first_with(s.push(x), id) is None,
{
    let t = s.push(x);
    lemma_first_with_is(s, id);
    lemma_first_with_is(t, id);
    match first_with(s, id) {
        Some(k) => {
            assert(t[k] == s[k]);
            assert forall|j: int| 0 <= j < k implies t[j].message_id@ != id by {
                assert(t[j] == s[j]);
            }
            lemma_first_with(t, id, k);
        },
        None => {
            if x.message_id@ == id {
                assert forall|j: int| 0 <= j < s.len() implies t[j].message_id@ != id by {
                    assert(t[j] == s[j]);
                }
                lemma_first_with(t, id, s.len() as int);
            } else {
                match first_with(t, id) {
                    Some(q) => {
                        if q < s.len() {
                            assert(t[q] == s[q]);
                        } else {
                            assert(t[q] == x);
                        }
                    },
                    None => {},
                }
            }
        },
    }
}

/// Marking ids that all belong to `s` works on `s.push(x)` as on `s`,
/// when `x` has another id.
proof fn lemma_mark_all_push(s: Seq<ScheduledMessage>, x: ScheduledMessage, ids: Seq<Seq<char>>)
    requires
        forall|i: int| 0 <= i < ids.len() ==> first_with(s, #[trigger] ids[i]) is Some,
        forall|i: int| 0 <= i < ids.len() ==> #[trigger] ids[i] != x.message_id@,
    ensures
        mark_all(s.push(x), ids) == mark_all(s, ids).push(x),
    decreases ids.len(),
{
    if ids.len() > 0 {
        let pre = ids.drop_last();
        assert forall|i: int| 0 <= i < pre.len() implies first_with(s, #[trigger] pre[i]) is Some by {
            assert(pre[i] == ids[i]);
        }
        assert forall|i: int| 0 <= i < pre.len() implies #[trigger] pre[i] != x.message_id@ by {
            assert(pre[i] == ids[i]);
        }
        lemma_mark_all_push(s, x, pre);
        let m = mark_all(s, pre);
        lemma_mark_all_keeps_ids(s, pre);
        let id = ids.last();
        assert(first_with(s, id) is Some);
        lemma_first_with_is(s, id);
        let k0 = first_with(s, id)->0;
        assert forall|j: int| 0 <= j < k0 implies m[j].message_id@ != id by {
            assert(m[j].message_id == s[j].message_id);
        }
        assert(m[k0].message_id == s[k0].message_id);
        lemma_first_with(m, id, k0);
        lemma_first_with_push(m, x, id);
        assert(mark_first(m.push(x), id) =~= mark_first(m, id).push(x));
    }
}

proof fn lemma_due_ids_found(s: Seq<ScheduledMessage>, now: Timestamp)
    ensures
        forall|i: int| 0 <= i < due_ids(s, now).len() ==> first_with(s, #[trigger] due_ids(s, now)[i]) is Some,
    decreases s.len(),
{
    if s.len() > 0 {
        let s0 = s.drop_last();
        let x = s.last();
        lemma_due_ids_found(s0, now);
        let d0 = due_ids(s0, now);
        let d = due_ids(s, now);
        assert(s =~= s0.push(x));
        assert forall|i: int| 0 <= i < d.len() implies first_with(s, #[trigger] d[i]) is Some by {
            if i < d0.len() {
                assert(d[i] == d0[i]);
                lemma_first_with_push(s0, x, d0[i]);
            } else {
                assert(d[i] == x.message_id@);
                lemma_first_with_push(s0, x, x.message_id@);
            }
        }
    }
}

/// With distinct ids, marking the first message of each due id marks
/// exactly the due messages.
pub proof fn round_marks_the_due_messages(s: Seq<ScheduledMessage>, now: Timestamp)
    requires
        ids_distinct(s),
    ensures
        mark_all(s, due_ids(s, now)) == marked_sending(s, now),
    decreases s.len(),
{
    if s.len() == 0 {
        assert(mark_all(s, due_ids(s, now)) =~= marked_sending(s, now));
    } else {
        let s0 = s.drop_last();
        let x = s.last();
        assert(ids_distinct(s0)) by {
            assert forall|i: int, j: int| 0 <= i < j < s0.len() implies #[trigger] s0[i].message_id@ != #[trigger] s0[j].message_id@ by {
                assert(s0[i] == s[i] && s0[j] == s[j]);
            }
        }
        round_marks_the_due_messages(s0, now);
        let d0 = due_ids(s0, now);
        lemma_due_ids_found(s0, now);
        assert forall|i: int| 0 <= i < d0.len() implies #[trigger] d0[i] != x.message_id@ by {
            lemma_first_with_is(s0, d0[i]);
            let k = first_with(s0, d0[i])->0;
            assert(s[k] == s0[k]);
            assert(s[k].message_id@ != s[s.len() - 1].message_id@);
        }
        assert(s =~= s0.push(x));
        lemma_mark_all_push(s0, x, d0);
        let base = mark_all(s0, d0).push(x);
        if due(x, now) {
            assert(due_ids(s, now) == d0.push(x.message_id@));
            assert(due_ids(s, now).drop_last() =~= d0);
            lemma_mark_all_keeps_ids(s0, d0);
            let m = mark_all(s0, d0);
            lemma_first_with_is(m, x.message_id@);
            assert(first_with(m, x.message_id@) is None) by {
                match first_with(m, x.message_id@) {
                    Some(k) => {
                        assert(m[k].message_id == s0[k].message_id);
                        assert(s[k] == s0[k]);
                        assert(s[k].message_id@ != s[s.len() - 1].message_id@);
                    },
                    None => {},
                }
            }
            lemma_first_with_push(m, x, x.message_id@);
            assert(mark_all(s, due_ids(s, now)) =~= marked_sending(s, now));
        } else {
            assert(due_ids(s, now) == d0);
            assert(mark_all(s, due_ids(s, now)) =~= marked_sending(s, now));
        }
    }
}

/// Records how sending a message went: sent under `sent_id`, or failed.
pub fn finish_send(list: &mut Vec<ScheduledMessage>, id: &str, sent_id: Option<String>)
    ensures
        match first_with(old(list)@, id@) {
            Some(k) => final(list)@ == old(list)@.update(
                k,
                match sent_id {
                    Some(s) => (ScheduledMessage {
                        status: ScheduledStatus::Sent,
                        original_message_id: Some(s),
                        ..old(list)@[k]
                    }),
                    None => (ScheduledMessage { status: ScheduledStatus::Failed, ..old(list)@[k] }),
                },
            ),
            None => final(list)@ == old(list)@,
        },
{
    match find_message(list, id) {
        Some(k) => {
            let mut m = list.remove(k);
            match sent_id {
                Some(s) => {
                    m.status = ScheduledStatus::Sent;
                    m.original_message_id = Some(s);
                },
                None => {
                    m.status = ScheduledStatus::Failed;
                },
            }
            let ghost updated = m;
            list.insert(k, m);
            assert(list@ =~= old(list)@.update(k as int, updated));
        },
        None => {},
    }
}

/// After a round starts, no message of a list with distinct ids that is
/// due stays pending, and no other message changes.
pub proof fn round_leaves_nothing_due(before: Seq<ScheduledMessage>, now: Timestamp)
    requires
        ids_distinct(before),
    ensures
        mark_all(before, due_ids(before, now)).len() == before.len(),
        forall|j: int|
            0 <= j < before.len() ==> !due(#[trigger] mark_all(before, due_ids(before, now))[j], now),
        forall|j: int|
            0 <= j < before.len() && !due(before[j], now) ==> #[trigger] mark_all(before, due_ids(before, now))[j]
                == before[j],
{
    round_marks_the_due_messages(before, now);
}

/// The messages shown for a chat: those of the chat, and those of any
/// chat that are not sent yet.
pub open spec fn shown_for(s: Seq<ScheduledMessage>, chat: Seq<char>) -> Seq<ScheduledMessage>
    decreases s.len(),
{
    if s.len() == 0 {
        s
    } else if s.last().chat_id@ == chat || s.last().status != ScheduledStatus::Sent {
        shown_for(s.drop_last(), chat).push(s.last())
    } else {
        shown_for(s.drop_last(), chat)
    }
}

fn copy_opt(s: &Option<String>) -> (r: Option<String>)
    ensures
        r == *s,
{
    match s {
        Some(v) => Some(v.clone()),
        None => None,
    }
}

fn copy_scheduled(m: &ScheduledMessage) -> (r: ScheduledMessage)
    ensures
        r == *m,
{
    ScheduledMessage {
        message_id: m.message_id.clone(),
        chat_id: m.chat_id.clone(),
        text: m.text.clone(),
        scheduled_at: m.scheduled_at,
        status: m.status,
        original_message_id: copy_opt(&m.original_message_id),
    }
}

pub fn scheduled_for_chat(list: &Vec<ScheduledMessage>, chat_id: &str) -> (r: Vec<ScheduledMessage>)
    ensures
        r@ == shown_for(list@, chat_id@),
{
    let mut out: Vec<ScheduledMessage> = Vec::new();
    let mut i: usize = 0;
    assert(list@.take(0) =~= Seq::<ScheduledMessage>::empty());
    while i < list.len()
        invariant
            i <= list@.len(),
            out@ == shown_for(list@.take(i as int), chat_id@),
        decreases list@.len() - i,
    {
        assert(list@.take(i + 1).drop_last() =~= list@.take(i as int));
        if text::str_is(list[i].chat_id.as_str(), chat_id) || list[i].status != ScheduledStatus::Sent {
            out.push(copy_scheduled(&list[i]));
        }
        i = i + 1;
    }
    assert(list@.take(list@.len() as int) =~= list@);
    out
}

/// The list without the messages `keep` refuses, in order.
pub open spec fn without(s: Seq<ScheduledMessage>, chat: Option<Seq<char>>, id: Seq<char>) -> Seq<ScheduledMessage>
    decreases s.len(),
{
    if s.len() == 0 {
        s
    } else if s.last().message_id@ == id && match chat {
        Some(c) => s.last().chat_id@ == c,
        None => true,
    } {
        without(s.drop_last(), chat, id)
    } else {
        without(s.drop_last(), chat, id).push(s.last())
    }
}

/// Cancels a scheduled message: drops every message with this id, of the
/// given chat only when a chat is given.
pub fn cancel(list: &mut Vec<ScheduledMessage>, chat_id: Option<&str>, message_id: &str)
    ensures
        final(list)@ == without(old(list)@, crate::goloom::opt_view(chat_id), message_id@),
{
    let ghost before = list@;
    let mut kept: Vec<ScheduledMessage> = Vec::new();
    let mut i: usize = 0;
    assert(before.take(0) =~= Seq::<ScheduledMessage>::empty());
    while i < list.len()
        invariant
            i <= before.len(),
            list@ == before,
            kept@ == without(before.take(i as int), crate::goloom::opt_view(chat_id), message_id@),
        decreases before.len() - i,
    {
        assert(before.take(i + 1).drop_last() =~= before.take(i as int));
        let same_chat = match chat_id {
            Some(c) => text::str_is(list[i].chat_id.as_str(), c),
            None => true,
        };
        if !(text::str_is(list[i].message_id.as_str(), message_id) && same_chat) {
            kept.push(copy_scheduled(&list[i]));
        }
        i = i + 1;
    }
    assert(before.take(before.len() as int) =~= before);
    *list = kept;
}

/// Moves a scheduled message to a new time; an unknown id is refused.
pub fn reschedule(list: &mut Vec<ScheduledMessage>, message_id: &str, at: Timestamp) -> (r: Result<(), String>)
    ensures
        match first_with(old(list)@, message_id@) {
            Some(k) => r is Ok && final(list)@ == old(list)@.update(
                k,
                (ScheduledMessage { scheduled_at: at, ..old(list)@[k] }),
            ),
            None => (r matches Err(e) && e@ == "Message not found"@) && final(list)@ == old(list)@,
        },
{
    match find_message(list, message_id) {
        Some(k) => {
            let mut m = list.remove(k);
            m.scheduled_at = at;
            let ghost updated = m;
            list.insert(k, m);
            assert(list@ =~= old(list)@.update(k as int, updated));
            Ok(())
        },
        None => Err("Message not found".to_owned()),
    }
}

/// The cache file of a chat's list: `/` in the chat id becomes `_`.
pub open spec fn cache_name(prefix: Seq<char>, chat_id: Seq<char>) -> Seq<char> {
    prefix + "_"@ + chat_id.map_values(|c: char| if c == '/' { '_' } else { c }) + ".json"@
}

pub fn cache_file_name(prefix: &str, chat_id: &str) -> (r: String)
    ensures
        r@ == cache_name(prefix@, chat_id@),
{
    let v = text::chars_of(chat_id);
    let mut r = prefix.to_owned();
    r.append("_");
    let ghost start = r@;
    let mut i: usize = 0;
    while i < v.len()
        invariant
            i <= v@.len(),
            v@ == chat_id@,
            r@ == start + v@.take(i as int).map_values(|c: char| if c == '/' { '_' } else { c }),
        decreases v@.len() - i,
    {
        let c = if v[i] == '/' {
            '_'
        } else {
            v[i]
        };
        text::push_char(&mut r, c);
        assert(v@.take(i + 1).map_values(|c: char| if c == '/' { '_' } else { c }) =~= v@.take(
            i as int,
        ).map_values(|c: char| if c == '/' { '_' } else { c }).push(c));
        i = i + 1;
    }
    assert(v@.take(v@.len() as int) =~= v@);
    r.append(".json");
    r
}

} // verus!
