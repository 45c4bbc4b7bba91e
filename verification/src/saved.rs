//! Saved messages ("Избранное"): an in-memory list the user adds messages
//! to, with notes, shown newest first, by kind, page by page, and searched.

use vstd::prelude::*;

use crate::messages::{is_later, later, Timestamp};
use crate::text::{self, occurs_in, opt_str};

verus! {

/// Which saved messages to show.
#[derive(Clone, Copy, Debug, PartialEq, Eq)]
pub enum SavedFilter {
    All,
    Text,
    Images,
    Links,
    Files,
}

/// A saved message: the message, its chat, when it was saved, the user's
/// note, and its kind and preview when known.
#[derive(Clone, Debug, PartialEq)]
pub struct SavedMessage {
    pub message_id: String,
    pub source_chat_id: String,
    pub source_message: String,
    pub saved_at: Timestamp,
    pub note: Option<String>,
    pub media_type: Option<String>,
    pub preview: Option<String>,
}

/// The saved messages, in the order they were added.
#[derive(Debug, Default)]
pub struct SavedMessageStore {
    pub messages: Vec<SavedMessage>,
}

/// `str::to_lowercase` of a text.
pub uninterp spec fn lowercase(s: Seq<char>) -> Seq<char>;

/// `str::to_lowercase`, Unicode lower case. Its result is named, not
/// stated: it is a function of the text alone.
#[verifier::external_body]
fn to_lowercase(s: &str) -> (r: String)
    ensures
        r@ == lowercase(s@),
{
    s.to_lowercase()
}

// ── newest first ─────────────────────────────────────────────────────

/// Where a message saved at `t` goes into a list: after the last one not
/// saved before `t`.
pub open spec fn newest_pos(s: Seq<SavedMessage>, t: Timestamp) -> int
    decreases s.len(),
{
    if s.len() == 0 {
        0
    } else if later(t, s.last().saved_at) {
        newest_pos(s.drop_last(), t)
    } else {
        s.len() as int
    }
}

/// The messages newest first; those saved at the same time keep their
/// order (a stable sort, as `sort_by` is).
pub open spec fn newest_first(s: Seq<SavedMessage>) -> Seq<SavedMessage>
    decreases s.len(),
{
    if s.len() == 0 {
        s
    } else {
        let r = newest_first(s.drop_last());
        r.insert(newest_pos(r, s.last().saved_at), s.last())
    }
}

/// No message comes before a newer one.
pub open spec fn newest_ordered(s: Seq<SavedMessage>) -> bool {
    forall|i: int, j: int| 0 <= i < j < s.len() ==> !later(#[trigger] s[j].saved_at, #[trigger] s[i].saved_at)
}

proof fn lemma_newest_pos(s: Seq<SavedMessage>, t: Timestamp)
    ensures
        0 <= newest_pos(s, t) <= s.len(),
        forall|k: int| newest_pos(s, t) <= k < s.len() ==> later(t, #[trigger] s[k].saved_at),
        newest_pos(s, t) > 0 ==> !later(t, s[newest_pos(s, t) - 1].saved_at),
    decreases s.len(),
{
    if s.len() > 0 && later(t, s.last().saved_at) {
        lemma_newest_pos(s.drop_last(), t);
        assert forall|k: int| newest_pos(s, t) <= k < s.len() implies later(t, #[trigger] s[k].saved_at) by {
            if k < s.len() - 1 {
                assert(s[k] == s.drop_last()[k]);
            }
        }
        if newest_pos(s, t) > 0 {
            assert(s[newest_pos(s, t) - 1] == s.drop_last()[newest_pos(s, t) - 1]);
        }
    }
}

/// Newest first orders the messages and keeps each of them as often as
/// it occurs.
pub proof fn newest_first_orders_and_keeps(s: Seq<SavedMessage>)
    ensures
        newest_ordered(newest_first(s)),
        newest_first(s).to_multiset() == s.to_multiset(),
    decreases s.len(),
{
    broadcast use vstd::seq_lib::to_multiset_insert, vstd::seq_lib::to_multiset_build;

    if s.len() > 0 {
        newest_first_orders_and_keeps(s.drop_last());
        let r = newest_first(s.drop_last());
        let m = s.last();
        let p = newest_pos(r, m.saved_at);
        lemma_newest_pos(r, m.saved_at);
        let out = r.insert(p, m);
        assert forall|i: int, j: int| 0 <= i < j < out.len() implies !later(
            #[trigger] out[j].saved_at,
            #[trigger] out[i].saved_at,
        ) by {
            if i == p {
                assert(out[j] == r[j - 1]);
            } else if j == p {
                assert(out[i] == r[i]);
                if i < p - 1 {
                    assert(!later(r[p - 1].saved_at, r[i].saved_at));
                }
            } else {
                let ri = if i < p { i } else { i - 1 };
                let rj = if j < p { j } else { j - 1 };
                assert(out[i] == r[ri] && out[j] == r[rj]);
            }
        }
        assert(s =~= s.drop_last().push(m));
    } else {
        assert(s.to_multiset() =~= newest_first(s).to_multiset());
    }
}

fn copy_opt(s: &Option<String>) -> (r: Option<String>)
    ensures
        r == *s,
{
    match s {
        Some(v) => Some(v.clone()),
        None => None,
    }
}

fn copy_saved(m: &SavedMessage) -> (r: SavedMessage)
    ensures
        r == *m,
{
    SavedMessage {
        message_id: m.message_id.clone(),
        source_chat_id: m.source_chat_id.clone(),
        source_message: m.source_message.clone(),
        saved_at: m.saved_at,
        note: copy_opt(&m.note),
        media_type: copy_opt(&m.media_type),
        preview: copy_opt(&m.preview),
    }
}

fn insert_newest(out: &mut Vec<SavedMessage>, m: SavedMessage)
    ensures
        final(out)@ == old(out)@.insert(newest_pos(old(out)@, m.saved_at), m),
{
    let ghost v = out@;
    let mut p: usize = out.len();
    assert(v.take(p as int) =~= v);
    while p > 0 && is_later(m.saved_at, out[p - 1].saved_at)
        invariant
            p <= out@.len(),
            out@ == v,
            newest_pos(v, m.saved_at) == newest_pos(v.take(p as int), m.saved_at),
        decreases p,
    {
        assert(v.take(p as int).drop_last() =~= v.take(p - 1));
        p = p - 1;
    }
    out.insert(p, m);
}

/// A copy of the messages, newest first.
pub fn sort_newest_first(v: &Vec<SavedMessage>) -> (r: Vec<SavedMessage>)
    ensures
        r@ == newest_first(v@),
{
    let mut out: Vec<SavedMessage> = Vec::new();
    let mut i: usize = 0;
    assert(v@.take(0) =~= Seq::<SavedMessage>::empty());
    while i < v.len()
        invariant
            i <= v@.len(),
            out@ == newest_first(v@.take(i as int)),
        decreases v@.len() - i,
    {
        assert(v@.take(i + 1).drop_last() =~= v@.take(i as int));
        insert_newest(&mut out, copy_saved(&v[i]));
        i = i + 1;
    }
    assert(v@.take(v@.len() as int) =~= v@);
    out
}

// ── showing and searching ────────────────────────────────────────────

/// A message is shown under a filter: text (or of no kind), image, link
/// or file; all under `All`.
pub open spec fn shown_by(m: SavedMessage, f: SavedFilter) -> bool {
    match f {
        SavedFilter::All => true,
        SavedFilter::Text => opt_str(m.media_type) == Some("text"@) || m.media_type is None,
        SavedFilter::Images => opt_str(m.media_type) == Some("image"@),
        SavedFilter::Links => opt_str(m.media_type) == Some("link"@),
        SavedFilter::Files => opt_str(m.media_type) == Some("file"@),
    }
}

/// The messages a filter shows, in order.
pub open spec fn shown(s: Seq<SavedMessage>, f: SavedFilter) -> Seq<SavedMessage>
    decreases s.len(),
{
    if s.len() == 0 {
        s
    } else if shown_by(s.last(), f) {
        shown(s.drop_last(), f).push(s.last())
    } else {
        shown(s.drop_last(), f)
    }
}

/// The page of `limit` messages from `offset` on, clipped to the list.
pub open spec fn page(s: Seq<SavedMessage>, offset: nat, limit: nat) -> Seq<SavedMessage> {
    let start = if offset < s.len() {
        offset
    } else {
        s.len()
    };
    let end = if start + limit < s.len() {
        start + limit
    } else {
        s.len()
    };
    s.subrange(start as int, end as int)
}

fn is_kind(t: &Option<String>, kind: &str) -> (b: bool)
    ensures
        b == (opt_str(*t) == Some(kind@)),
{
    match t {
        Some(s) => text::str_is(s.as_str(), kind),
        None => false,
    }
}

fn shows(m: &SavedMessage, f: SavedFilter) -> (b: bool)
    ensures
        b == shown_by(*m, f),
{
    match f {
        SavedFilter::All => true,
        SavedFilter::Text => is_kind(&m.media_type, "text") || m.media_type.is_none(),
        SavedFilter::Images => is_kind(&m.media_type, "image"),
        SavedFilter::Links => is_kind(&m.media_type, "link"),
        SavedFilter::Files => is_kind(&m.media_type, "file"),
    }
}

/// The text a search looks in: the preview, the note (each lower-cased,
/// empty when missing) and the source message as it is.
pub open spec fn matches_query(m: SavedMessage, q: Seq<char>) -> bool {
    let ql = lowercase(q);
    ||| occurs_in(lowercase(crate::xiva::or_empty(opt_str(m.preview))), ql)
    ||| occurs_in(lowercase(crate::xiva::or_empty(opt_str(m.note))), ql)
    ||| occurs_in(m.source_message@, ql)
}

/// The messages that match a query, in order.
pub open spec fn matching(s: Seq<SavedMessage>, q: Seq<char>) -> Seq<SavedMessage>
    decreases s.len(),
{
    if s.len() == 0 {
        s
    } else if matches_query(s.last(), q) {
        matching(s.drop_last(), q).push(s.last())
    } else {
        matching(s.drop_last(), q)
    }
}

fn lower_or_empty(s: &Option<String>) -> (r: String)
    ensures
        r@ == lowercase(crate::xiva::or_empty(opt_str(*s))),
{
    proof {
        reveal_strlit("");
    }
    let text: &str = match s {
        Some(t) => t.as_str(),
        None => "",
    };
    assert(text@ == crate::xiva::or_empty(opt_str(*s)));
    to_lowercase(text)
}

impl SavedMessageStore {
    pub fn new() -> (s: Self)
        ensures
            s.messages@.len() == 0,
    {
        SavedMessageStore { messages: Vec::new() }
    }

    /// Replaces the messages with ones read back from storage.
    pub fn load(&mut self, messages: Vec<SavedMessage>)
        ensures
            final(self).messages@ == messages@,
    {
        self.messages = messages;
    }

    pub fn len(&self) -> (n: usize)
        ensures
            n == self.messages@.len(),
    {
        self.messages.len()
    }

    /// The page of `limit` messages from `offset` on, newest first, then
    /// those of it the filter shows.
    pub fn get_messages(&self, limit: usize, offset: usize, filter: SavedFilter) -> (r: Vec<SavedMessage>)
        requires
            (if offset < self.messages@.len() {
                offset as int
            } else {
                self.messages@.len() as int
            }) + limit <= usize::MAX,
        ensures
            r@ == shown(page(newest_first(self.messages@), offset as nat, limit as nat), filter),
    {
        let sorted = sort_newest_first(&self.messages);
        proof {
            newest_first_orders_and_keeps(self.messages@);
            vstd::seq_lib::to_multiset_len(self.messages@);
            vstd::seq_lib::to_multiset_len(sorted@);
        }
        let total = sorted.len();
        let start = if offset < total {
            offset
        } else {
            total
        };
        let end = if start + limit < total {
            start + limit
        } else {
            total
        };
        let ghost pg = sorted@.subrange(start as int, end as int);
        let mut out: Vec<SavedMessage> = Vec::new();
        let mut i: usize = start;
        assert(pg.take(0) =~= Seq::<SavedMessage>::empty());
        while i < end
            invariant
                start <= i <= end <= sorted@.len(),
                pg == sorted@.subrange(start as int, end as int),
                out@ == shown(pg.take(i - start), filter),
            decreases end - i,
        {
            assert(pg.take(i - start + 1).drop_last() =~= pg.take(i - start));
            assert(pg.take(i - start + 1).last() == sorted@[i as int]);
            if shows(&sorted[i], filter) {
                out.push(copy_saved(&sorted[i]));
            }
            i = i + 1;
        }
        assert(pg.take(end - start) =~= pg);
        out
    }

    pub fn add_message(&mut self, msg: SavedMessage)
        ensures
            final(self).messages@ == old(self).messages@.push(msg),
    {
        self.messages.push(msg);
    }

    /// Removes every saved copy of the message.
    pub fn remove_message(&mut self, message_id: &str)
        ensures
            final(self).messages@ == others(old(self).messages@, message_id@),
    {
        let ghost before = self.messages@;
        let mut kept: Vec<SavedMessage> = Vec::new();
        let mut i: usize = 0;
        assert(before.take(0) =~= Seq::<SavedMessage>::empty());
        while i < self.messages.len()
            invariant
                i <= before.len(),
                self.messages@ == before,
                kept@ == others(before.take(i as int), message_id@),
            decreases before.len() - i,
        {
            assert(before.take(i + 1).drop_last() =~= before.take(i as int));
            if !text::str_is(self.messages[i].message_id.as_str(), message_id) {
                kept.push(copy_saved(&self.messages[i]));
            }
            i = i + 1;
        }
        assert(before.take(before.len() as int) =~= before);
        self.messages = kept;
    }

    /// Sets the note of the first saved copy of the message; an unknown
    /// message changes nothing.
    pub fn update_note(&mut self, message_id: &str, note: String)
        ensures
            match first_saved(old(self).messages@, message_id@) {
                Some(k) => final(self).messages@ == old(self).messages@.update(
                    k,
                    (SavedMessage { note: Some(note), ..old(self).messages@[k] }),
                ),
                None => final(self).messages@ == old(self).messages@,
            },
    {
        let ghost before = self.messages@;
        let mut k: usize = 0;
        while k < self.messages.len()
            invariant
                k <= before.len(),
                self.messages@ == before,
                before == old(self).messages@,
                forall|j: int| 0 <= j < k ==> #[trigger] before[j].message_id@ != message_id@,
            decreases before.len() - k,
        {
            if text::str_is(self.messages[k].message_id.as_str(), message_id) {
                proof {
                    lemma_first_saved(before, message_id@, k as int);
                }
                let mut m = self.messages.remove(k);
                m.note = Some(note);
                self.messages.insert(k, m);
                assert(self.messages@ =~= before.update(
                    k as int,
                    (SavedMessage { note: Some(note), ..before[k as int] }),
                ));
                return;
            }
            k = k + 1;
        }
        proof {
            if exists|c: int| 0 <= c < before.len() && #[trigger] before[c].message_id@ == message_id@ {
                let c = choose|c: int| 0 <= c < before.len() && #[trigger] before[c].message_id@ == message_id@;
                assert(before[c].message_id@ != message_id@);
            }
        }
    }

    /// The messages matching a query, newest first, at most `limit`.
    pub fn search(&self, query: &str, limit: usize) -> (r: Vec<SavedMessage>)
        ensures
            r@ == newest_first(matching(self.messages@, query@)).take(
                if limit < matching(self.messages@, query@).len() {
                    limit as int
                } else {
                    matching(self.messages@, query@).len() as int
                },
            ),
    {
        let q = to_lowercase(query);
        let ghost all = self.messages@;
        let mut found: Vec<SavedMessage> = Vec::new();
        let mut i: usize = 0;
        assert(all.take(0) =~= Seq::<SavedMessage>::empty());
        while i < self.messages.len()
            invariant
                i <= all.len(),
                self.messages@ == all,
                q@ == lowercase(query@),
                found@ == matching(all.take(i as int), query@),
            decreases all.len() - i,
        {
            assert(all.take(i + 1).drop_last() =~= all.take(i as int));
            let m = &self.messages[i];
            let hit = text::contains_text(lower_or_empty(&m.preview).as_str(), q.as_str())
                || text::contains_text(lower_or_empty(&m.note).as_str(), q.as_str())
                || text::contains_text(m.source_message.as_str(), q.as_str());
            if hit {
                found.push(copy_saved(m));
            }
            i = i + 1;
        }
        assert(all.take(all.len() as int) =~= all);
        let sorted = sort_newest_first(&found);
        proof {
            newest_first_orders_and_keeps(found@);
            vstd::seq_lib::to_multiset_len(found@);
            vstd::seq_lib::to_multiset_len(sorted@);
        }
        let n = if limit < sorted.len() {
            limit
        } else {
            sorted.len()
        };
        let mut out: Vec<SavedMessage> = Vec::new();
        let mut k: usize = 0;
        while k < n
            invariant
                k <= n <= sorted@.len(),
                out@ == sorted@.take(k as int),
            decreases n - k,
        {
            out.push(copy_saved(&sorted[k]));
            assert(out@ =~= sorted@.take(k + 1));
            k = k + 1;
        }
        out
    }
}

/// Position of the first saved copy of a message.
pub open spec fn first_saved(s: Seq<SavedMessage>, id: Seq<char>) -> Option<int> {
    if exists|k: int| 0 <= k < s.len() && #[trigger] s[k].message_id@ == id {
        Some(
            choose|k: int|
                0 <= k < s.len() && #[trigger] s[k].message_id@ == id && forall|j: int|
                    0 <= j < k ==> s[j].message_id@ != id,
        )
    } else {
        None
    }
}

proof fn lemma_first_saved(s: Seq<SavedMessage>, id: Seq<char>, k: int)
    requires
        0 <= k < s.len(),
        s[k].message_id@ == id,
        forall|j: int| 0 <= j < k ==> s[j].message_id@ != id,
    ensures
        first_saved(s, id) == Some(k),
{
    let c = choose|c: int|
        0 <= c < s.len() && #[trigger] s[c].message_id@ == id && forall|j: int| 0 <= j < c ==> s[j].message_id@ != id;
    assert(0 <= c < s.len() && s[c].message_id@ == id);
    if c < k {
        assert(s[c].message_id@ != id);
    } else if k < c {
        assert(s[k].message_id@ != id);
    }
}

/// The saved messages other than those of `id`, in order.
pub open spec fn others(s: Seq<SavedMessage>, id: Seq<char>) -> Seq<SavedMessage>
    decreases s.len(),
{
    if s.len() == 0 {
        s
    } else if s.last().message_id@ == id {
        others(s.drop_last(), id)
    } else {
        others(s.drop_last(), id).push(s.last())
    }
}

/// After removing a message, no saved copy of it is left, and every other
/// saved message stays, in its order.
pub proof fn removed_message_is_gone(before: Seq<SavedMessage>, id: Seq<char>)
    ensures
        forall|j: int| 0 <= j < others(before, id).len() ==> #[trigger] others(before, id)[j].message_id@ != id,
        forall|i: int|
            0 <= i < before.len() && before[i].message_id@ != id ==> others(before, id).contains(
                #[trigger] before[i],
            ),
    decreases before.len(),
{
    if before.len() > 0 {
        let s0 = before.drop_last();
        removed_message_is_gone(s0, id);
        let o0 = others(s0, id);
        let o = others(before, id);
        assert forall|j: int| 0 <= j < o.len() implies #[trigger] o[j].message_id@ != id by {
            if j < o0.len() {
                assert(o[j] == o0[j]);
            }
        }
        assert forall|i: int| 0 <= i < before.len() && before[i].message_id@ != id implies o.contains(
            #[trigger] before[i],
        ) by {
            if i < before.len() - 1 {
                assert(before[i] == s0[i]);
                assert(o0.contains(s0[i]));
                let q = choose|q: int| 0 <= q < o0.len() && o0[q] == s0[i];
                assert(o[q] == o0[q]);
            } else {
                assert(o[o.len() - 1] == before[i]);
            }
        }
    }
}

} // verus!
