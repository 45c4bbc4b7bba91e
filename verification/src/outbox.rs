//! Outbox of text messages that could not be sent yet; they are retried
//! when the connection comes back. The caller keeps the queue on disk
//! (`outbox.json`) and writes it out after each change.

use vstd::prelude::*;

use crate::goloom::{is_uuid_v4_text, new_uid};

verus! {

/// One queued message.
#[derive(Clone, Debug)]
pub struct OutboxItem {
    pub id: String,
    pub chat_id: String,
    pub text: String,
    pub reply_to: Option<String>,
    /// Unix seconds.
    pub created_at: u64,
    pub attempts: u32,
    pub last_error: Option<String>,
}

/// The queue, oldest first.
#[derive(Clone, Debug, Default)]
pub struct Outbox {
    pub items: Vec<OutboxItem>,
}

fn copy_opt(s: &Option<String>) -> (r: Option<String>)
    ensures
        r == *s,
{
    match s {
        Some(v) => Some(v.clone()),
        None => None,
    }
}

/// An equal copy of an item.
pub fn copy_item(i: &OutboxItem) -> (c: OutboxItem)
    ensures
        c == *i,
{
    OutboxItem {
        id: i.id.clone(),
        chat_id: i.chat_id.clone(),
        text: i.text.clone(),
        reply_to: copy_opt(&i.reply_to),
        created_at: i.created_at,
        attempts: i.attempts,
        last_error: copy_opt(&i.last_error),
    }
}

/// Position of the first item with id `id`.
pub open spec fn first_with_id(items: Seq<OutboxItem>, id: Seq<char>) -> Option<int> {
    if exists|k: int| 0 <= k < items.len() && #[trigger] items[k].id@ == id {
        Some(
            choose|k: int|
                0 <= k < items.len() && #[trigger] items[k].id@ == id && forall|j: int|
                    0 <= j < k ==> items[j].id@ != id,
        )
    } else {
        None
    }
}

proof fn lemma_first_with_id(items: Seq<OutboxItem>, id: Seq<char>, k: int)
    requires
        0 <= k < items.len(),
        items[k].id@ == id,
        forall|j: int| 0 <= j < k ==> items[j].id@ != id,
    ensures
        first_with_id(items, id) == Some(k),
{
    let c = choose|c: int|
        0 <= c < items.len() && #[trigger] items[c].id@ == id && forall|j: int|
            0 <= j < c ==> items[j].id@ != id;
    assert(0 <= c < items.len() && items[c].id@ == id && forall|j: int| 0 <= j < c ==> items[j].id@ != id);
    if c < k {
        assert(items[c].id@ != id);
    } else if k < c {
        assert(items[k].id@ != id);
    }
}

/// The item after one more failed attempt: one more attempt (held at the
/// top of the range) and the latest error.
pub open spec fn attempted(i: OutboxItem, error: Option<String>) -> OutboxItem {
    OutboxItem {
        attempts: if i.attempts == u32::MAX {
            u32::MAX
        } else {
            (i.attempts + 1) as u32
        },
        last_error: error,
        ..i
    }
}

pub open spec fn id_differs(id: Seq<char>) -> spec_fn(OutboxItem) -> bool {
    |i: OutboxItem| i.id@ != id
}

pub open spec fn still_alive(max_attempts: u32) -> spec_fn(OutboxItem) -> bool {
    |i: OutboxItem| i.attempts < max_attempts
}

fn keep_where(items: &Vec<OutboxItem>, id: Option<&str>, max_attempts: u32) -> (kept: Vec<OutboxItem>)
    ensures
        kept@ == match id {
            Some(s) => items@.filter(id_differs(s@)),
            None => items@.filter(still_alive(max_attempts)),
        },
{
    let ghost pred = match id {
        Some(s) => id_differs(s@),
        None => still_alive(max_attempts),
    };
    let mut kept: Vec<OutboxItem> = Vec::new();
    let mut i: usize = 0;
    while i < items.len()
        invariant
            i <= items.len(),
            pred == (match id {
                Some(s) => id_differs(s@),
                None => still_alive(max_attempts),
            }),
            kept@ == items@.take(i as int).filter(pred),
        decreases items.len() - i,
    {
        let keep = match id {
            Some(s) => !crate::text::str_is(items[i].id.as_str(), s),
            None => items[i].attempts < max_attempts,
        };
        proof {
            reveal(Seq::filter);
            assert(items@.take(i + 1).drop_last() =~= items@.take(i as int));
            assert(items@.take(i + 1).last() == items@[i as int]);
            assert(keep == pred(items@[i as int]));
        }
        if keep {
            kept.push(copy_item(&items[i]));
        }
        i = i + 1;
    }
    assert(items@.take(i as int) =~= items@);
    kept
}

impl Outbox {
    /// Queues a message for `chat_id` under a fresh random id, created now,
    /// with no attempts yet and the error that made it fail.
    pub fn enqueue(&mut self, chat_id: &str, text: &str, reply_to: Option<&str>, error: Option<String>) -> (item: OutboxItem)
        ensures
            final(self).items@ == old(self).items@.push(item),
            is_uuid_v4_text(item.id@),
            item.chat_id@ == chat_id@,
            item.text@ == text@,
            crate::text::opt_str(item.reply_to) == match reply_to {
                Some(r) => Some(r@),
                None => None,
            },
            item.attempts == 0,
            item.last_error == error,
    {
        let item = OutboxItem {
            id: new_uid(),
            chat_id: chat_id.to_owned(),
            text: text.to_owned(),
            reply_to: match reply_to {
                Some(r) => Some(r.to_owned()),
                None => None,
            },
            created_at: crate::clock::unix_now_secs(),
            attempts: 0,
            last_error: error,
        };
        self.items.push(copy_item(&item));
        item
    }

    /// Every queued item, oldest first.
    pub fn list(&self) -> (v: Vec<OutboxItem>)
        ensures
            v@ == self.items@,
    {
        let mut v: Vec<OutboxItem> = Vec::new();
        let mut i: usize = 0;
        while i < self.items.len()
            invariant
                i <= self.items.len(),
                v@ == self.items@.take(i as int),
            decreases self.items.len() - i,
        {
            v.push(copy_item(&self.items[i]));
            assert(self.items@.take(i + 1) =~= self.items@.take(i as int).push(self.items@[i as int]));
            i = i + 1;
        }
        assert(self.items@.take(i as int) =~= self.items@);
        v
    }

    pub fn len(&self) -> (n: usize)
        ensures
            n == self.items@.len(),
    {
        self.items.len()
    }

    pub fn is_empty(&self) -> (b: bool)
        ensures
            b == (self.items@.len() == 0),
    {
        self.items.len() == 0
    }

    /// Records a failed attempt on the first item with `id`.
    pub fn mark_attempt(&mut self, id: &str, error: Option<String>)
        ensures
            final(self).items@ == match first_with_id(old(self).items@, id@) {
                Some(k) => old(self).items@.update(k, attempted(old(self).items@[k], error)),
                None => old(self).items@,
            },
    {
        let ghost o = self.items@;
        let mut k: usize = 0;
        while k < self.items.len()
            invariant
                k <= self.items.len(),
                self.items@ == o,
                o == old(self).items@,
                forall|j: int| 0 <= j < k ==> self.items@[j].id@ != id@,
            decreases self.items.len() - k,
        {
            if crate::text::str_is(self.items[k].id.as_str(), id) {
                proof {
                    lemma_first_with_id(self.items@, id@, k as int);
                }
                let mut item = copy_item(&self.items[k]);
                item.attempts = item.attempts.saturating_add(1);
                item.last_error = error;
                self.items.set(k, item);
                assert(self.items@ =~= o.update(k as int, attempted(o[k as int], error)));
                return;
            }
            k = k + 1;
        }
        assert(!exists|j: int| 0 <= j < o.len() && #[trigger] o[j].id@ == id@);
    }

    /// Drops every item with `id`.
    pub fn remove(&mut self, id: &str)
        ensures
            final(self).items@ == old(self).items@.filter(id_differs(id@)),
    {
        self.items = keep_where(&self.items, Some(id), 0);
    }

    /// Drops the items that have failed `max_attempts` times or more, and
    /// returns how many were dropped.
    pub fn purge_dead(&mut self, max_attempts: u32) -> (removed: usize)
        ensures
            final(self).items@ == old(self).items@.filter(still_alive(max_attempts)),
            removed == old(self).items@.len() - final(self).items@.len(),
    {
        let before = self.items.len();
        let kept = keep_where(&self.items, None, max_attempts);
        proof {
            old(self).items@.lemma_filter_len(still_alive(max_attempts));
        }
        self.items = kept;
        before - self.items.len()
    }
}

/// After a purge every item left has fewer than `max_attempts` attempts,
/// and every item that had fewer is still there.
pub proof fn purge_keeps_live_items(before: Seq<OutboxItem>, after: Seq<OutboxItem>, max_attempts: u32)
    requires
        after == before.filter(still_alive(max_attempts)),
    ensures
        forall|i: int| 0 <= i < after.len() ==> (#[trigger] after[i]).attempts < max_attempts,
        forall|i: int| 0 <= i < before.len() && (#[trigger] before[i]).attempts < max_attempts ==> after.contains(before[i]),
{
    assert forall|i: int| 0 <= i < after.len() implies (#[trigger] after[i]).attempts < max_attempts by {
        before.lemma_filter_pred(still_alive(max_attempts), i);
    }
    assert forall|i: int| 0 <= i < before.len() && (#[trigger] before[i]).attempts < max_attempts implies after.contains(before[i]) by {
        before.lemma_filter_contains(still_alive(max_attempts), i);
    }
}

/// After a removal no item carries the removed id.
pub proof fn remove_leaves_no_item_with_id(before: Seq<OutboxItem>, after: Seq<OutboxItem>, id: Seq<char>)
    requires
        after == before.filter(id_differs(id)),
    ensures
        forall|i: int| 0 <= i < after.len() ==> (#[trigger] after[i]).id@ != id,
{
    assert forall|i: int| 0 <= i < after.len() implies (#[trigger] after[i]).id@ != id by {
        before.lemma_filter_pred(id_differs(id), i);
    }
}

} // verus!
