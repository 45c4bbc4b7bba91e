//! Per-chat text drafts. The caller keeps them on disk (`drafts.json`)
//! and writes the store out whenever a call here reports a change.

use vstd::prelude::*;

use crate::text::{self, all_ws};

verus! {

/// Drafts by chat id, each chat at most once.
#[derive(Clone, Debug, Default)]
pub struct DraftStore {
    pub drafts: Vec<(String, String)>,
}

/// Chat ids are distinct.
pub open spec fn keys_distinct(d: Seq<(String, String)>) -> bool {
    forall|i: int, j: int| 0 <= i < j < d.len() ==> #[trigger] d[i].0@ != #[trigger] d[j].0@
}

/// The draft stored for `chat` (the first entry with that id).
pub open spec fn entry_of(d: Seq<(String, String)>, chat: Seq<char>) -> Option<Seq<char>>
    decreases d.len(),
{
    if d.len() == 0 {
        None
    } else if d[0].0@ == chat {
        Some(d[0].1@)
    } else {
        entry_of(d.drop_first(), chat)
    }
}

proof fn lemma_entry_at(d: Seq<(String, String)>, chat: Seq<char>)
    requires
        keys_distinct(d),
    ensures
        forall|i: int| 0 <= i < d.len() && #[trigger] d[i].0@ == chat ==> entry_of(d, chat) == Some(d[i].1@),
        (forall|i: int| 0 <= i < d.len() ==> #[trigger] d[i].0@ != chat) ==> entry_of(d, chat) is None,
    decreases d.len(),
{
    if d.len() > 0 {
        let t = d.drop_first();
        assert(keys_distinct(t)) by {
            assert forall|i: int, j: int| 0 <= i < j < t.len() implies #[trigger] t[i].0@ != #[trigger] t[j].0@ by {
                assert(t[i] == d[i + 1] && t[j] == d[j + 1]);
            }
        }
        lemma_entry_at(t, chat);
        assert forall|i: int| 0 <= i < d.len() && #[trigger] d[i].0@ == chat implies entry_of(d, chat) == Some(d[i].1@) by {
            if i > 0 {
                assert(d[0].0@ != d[i].0@);
                assert(t[i - 1] == d[i]);
            }
        }
        if forall|i: int| 0 <= i < d.len() ==> #[trigger] d[i].0@ != chat {
            assert(d[0].0@ != chat);
            assert forall|i: int| 0 <= i < t.len() implies #[trigger] t[i].0@ != chat by {
                assert(t[i] == d[i + 1]);
            }
        }
    }
}

fn position(d: &Vec<(String, String)>, chat: &str) -> (r: Option<usize>)
    ensures
        match r {
            Some(i) => i < d@.len() && d@[i as int].0@ == chat@,
            None => forall|i: int| 0 <= i < d@.len() ==> #[trigger] d@[i].0@ != chat@,
        },
{
    let mut i: usize = 0;
    while i < d.len()
        invariant
            i <= d.len(),
            forall|j: int| 0 <= j < i ==> #[trigger] d@[j].0@ != chat@,
        decreases d.len() - i,
    {
        if text::str_is(d[i].0.as_str(), chat) {
            return Some(i);
        }
        i = i + 1;
    }
    None
}

impl DraftStore {
    pub open spec fn wf(self) -> bool {
        keys_distinct(self.drafts@)
    }

    /// The draft of `chat`, as stored.
    pub open spec fn draft(self, chat: Seq<char>) -> Option<Seq<char>> {
        entry_of(self.drafts@, chat)
    }

    /// What [`DraftStore::get`] reads for `chat`: the stored draft, unless
    /// it is blank.
    pub open spec fn visible(self, chat: Seq<char>) -> Option<Seq<char>> {
        match self.draft(chat) {
            Some(t) => if all_ws(t) {
                None
            } else {
                Some(t)
            },
            None => None,
        }
    }

    /// A store with `drafts` as loaded, keeping the first draft of a chat
    /// that appears twice.
    pub fn from_entries(entries: Vec<(String, String)>) -> (s: Self)
        ensures
            s.wf(),
            forall|chat: Seq<char>| #[trigger] s.draft(chat) == entry_of(entries@, chat),
    {
        let mut s = DraftStore { drafts: Vec::new() };
        let mut i: usize = 0;
        while i < entries.len()
            invariant
                i <= entries.len(),
                s.wf(),
                forall|chat: Seq<char>| #[trigger] s.draft(chat) == entry_of(entries@.take(i as int), chat),
            decreases entries.len() - i,
        {
            let ghost old_s = s;
            let ghost key = entries@[i as int].0@;
            proof {
                lemma_entry_take_push(entries@, i as int);
                lemma_entry_at(s.drafts@, key);
            }
            match position(&s.drafts, entries[i].0.as_str()) {
                Some(_) => {},
                None => {
                    let k = entries[i].0.clone();
                    let v = entries[i].1.clone();
                    s.drafts.push((k, v));
                    proof {
                        assert forall|chat: Seq<char>| #[trigger] s.draft(chat) == old_s.draft(chat) || chat == key by {
                            lemma_entry_push(old_s.drafts@, (k, v), chat);
                        }
                        lemma_entry_push(old_s.drafts@, (k, v), key);
                    }
                },
            }
            i = i + 1;
        }
        assert(entries@.take(i as int) =~= entries@);
        s
    }

    /// The non-blank draft of `chat`.
    pub fn get(&self, chat_id: &str) -> (r: Option<String>)
        requires
            self.wf(),
        ensures
            text::opt_str(r) == self.visible(chat_id@),
    {
        proof {
            lemma_entry_at(self.drafts@, chat_id@);
        }
        match position(&self.drafts, chat_id) {
            Some(i) => {
                if text::is_blank(self.drafts[i].1.as_str()) {
                    None
                } else {
                    Some(self.drafts[i].1.clone())
                }
            },
            None => None,
        }
    }

    /// Stores `text` as the draft of `chat`; a blank text removes it.
    pub fn set(&mut self, chat_id: &str, text: &str)
        requires
            old(self).wf(),
        ensures
            final(self).wf(),
            set_as(*old(self), chat_id@, text@, *final(self)),
    {
        if text::is_blank(text) {
            let _ = self.remove_entry(chat_id);
        } else {
            let ghost before = *self;
            proof {
                lemma_entry_at(before.drafts@, chat_id@);
            }
            match position(&self.drafts, chat_id) {
                Some(i) => {
                    self.drafts.set(i, (chat_id.to_owned(), text.to_owned()));
                    proof {
                        assert(keys_distinct(self.drafts@)) by {
                            assert forall|a: int, b: int| 0 <= a < b < self.drafts@.len() implies #[trigger] self.drafts@[a].0@ != #[trigger] self.drafts@[b].0@ by {
                                assert(before.drafts@[a].0@ != before.drafts@[b].0@);
                            }
                        }
                        lemma_entry_at(self.drafts@, chat_id@);
                        assert(self.drafts@[i as int].0@ == chat_id@);
                        assert(self.draft(chat_id@) == Some(text@));
                        assert forall|c: Seq<char>| c != chat_id@ implies #[trigger] self.draft(c) == before.draft(c) by {
                            lemma_entry_at(self.drafts@, c);
                            lemma_entry_at(before.drafts@, c);
                            if exists|j: int| 0 <= j < before.drafts@.len() && #[trigger] before.drafts@[j].0@ == c {
                                let j = choose|j: int| 0 <= j < before.drafts@.len() && #[trigger] before.drafts@[j].0@ == c;
                                assert(self.drafts@[j] == before.drafts@[j]);
                            } else {
                                assert forall|j: int| 0 <= j < self.drafts@.len() implies #[trigger] self.drafts@[j].0@ != c by {
                                    if j != i {
                                        assert(self.drafts@[j] == before.drafts@[j]);
                                    }
                                }
                            }
                        }
                    }
                },
                None => {
                    let k = chat_id.to_owned();
                    let v = text.to_owned();
                    self.drafts.push((k, v));
                    proof {
                        assert(keys_distinct(self.drafts@)) by {
                            assert forall|a: int, b: int| 0 <= a < b < self.drafts@.len() implies #[trigger] self.drafts@[a].0@ != #[trigger] self.drafts@[b].0@ by {
                                if b < before.drafts@.len() {
                                    assert(before.drafts@[a].0@ != before.drafts@[b].0@);
                                } else {
                                    assert(self.drafts@[a] == before.drafts@[a]);
                                }
                            }
                        }
                        assert forall|c: Seq<char>| #[trigger] self.draft(c) == before.draft(c) || c == chat_id@ by {
                            lemma_entry_push(before.drafts@, (k, v), c);
                        }
                        lemma_entry_push(before.drafts@, (k, v), chat_id@);
                    }
                },
            }
        }
    }

    fn remove_entry(&mut self, chat_id: &str) -> (removed: bool)
        requires
            old(self).wf(),
        ensures
            final(self).wf(),
            removed == (old(self).draft(chat_id@) is Some),
            final(self).draft(chat_id@) is None,
            forall|c: Seq<char>| c != chat_id@ ==> #[trigger] final(self).draft(c) == old(self).draft(c),
            !removed ==> *final(self) == *old(self),
    {
        let ghost before = *self;
        proof {
            lemma_entry_at(before.drafts@, chat_id@);
        }
        match position(&self.drafts, chat_id) {
            Some(i) => {
                self.drafts.remove(i);
                proof {
                    let o = before.drafts@;
                    let n = self.drafts@;
                    assert(keys_distinct(n)) by {
                        assert forall|a: int, b: int| 0 <= a < b < n.len() implies #[trigger] n[a].0@ != #[trigger] n[b].0@ by {
                            let oa = if a < i { a } else { a + 1 };
                            let ob = if b < i { b } else { b + 1 };
                            assert(n[a] == o[oa] && n[b] == o[ob]);
                            assert(o[oa].0@ != o[ob].0@);
                        }
                    }
                    assert forall|j: int| 0 <= j < n.len() implies #[trigger] n[j].0@ != chat_id@ by {
                        let oj = if j < i { j } else { j + 1 };
                        assert(n[j] == o[oj]);
                        assert(o[oj].0@ != o[i as int].0@);
                    }
                    lemma_entry_at(n, chat_id@);
                    assert forall|c: Seq<char>| c != chat_id@ implies #[trigger] self.draft(c) == before.draft(c) by {
                        lemma_entry_at(n, c);
                        lemma_entry_at(o, c);
                        if exists|j: int| 0 <= j < o.len() && #[trigger] o[j].0@ == c {
                            let j = choose|j: int| 0 <= j < o.len() && #[trigger] o[j].0@ == c;
                            assert(j != i);
                            let nj = if j < i { j } else { j - 1 };
                            assert(n[nj] == o[j]);
                        } else {
                            assert forall|j: int| 0 <= j < n.len() implies #[trigger] n[j].0@ != c by {
                                let oj = if j < i { j } else { j + 1 };
                                assert(n[j] == o[oj]);
                            }
                        }
                    }
                }
                true
            },
            None => false,
        }
    }

    /// Forgets the draft of `chat`; reports whether there was one (and so
    /// whether the store changed).
    pub fn clear(&mut self, chat_id: &str) -> (removed: bool)
        requires
            old(self).wf(),
        ensures
            final(self).wf(),
            cleared_as(*old(self), chat_id@, *final(self), removed),
    {
        self.remove_entry(chat_id)
    }
}

proof fn lemma_entry_push(d: Seq<(String, String)>, p: (String, String), chat: Seq<char>)
    ensures
        entry_of(d.push(p), chat) == match entry_of(d, chat) {
            Some(v) => Some(v),
            None => if p.0@ == chat {
                Some(p.1@)
            } else {
                None
            },
        },
    decreases d.len(),
{
    if d.len() > 0 {
        assert(d.push(p)[0] == d[0]);
        assert(d.push(p).drop_first() =~= d.drop_first().push(p));
        lemma_entry_push(d.drop_first(), p, chat);
    } else {
        assert(d.push(p)[0] == p);
        assert(d.push(p).drop_first() =~= Seq::<(String, String)>::empty());
        assert(entry_of(d.push(p).drop_first(), chat) is None);
        assert(entry_of(d, chat) is None);
    }
}

proof fn lemma_entry_take_push(d: Seq<(String, String)>, i: int)
    requires
        0 <= i < d.len(),
    ensures
        forall|chat: Seq<char>| #[trigger] entry_of(d.take(i + 1), chat) == match entry_of(d.take(i), chat) {
            Some(v) => Some(v),
            None => if d[i].0@ == chat {
                Some(d[i].1@)
            } else {
                None
            },
        },
{
    assert(d.take(i + 1) =~= d.take(i).push(d[i]));
    assert forall|chat: Seq<char>| #[trigger] entry_of(d.take(i + 1), chat) == match entry_of(d.take(i), chat) {
        Some(v) => Some(v),
        None => if d[i].0@ == chat {
            Some(d[i].1@)
        } else {
            None
        },
    } by {
        lemma_entry_push(d.take(i), d[i], chat);
    }
}

/// `after` is `before` with the draft of `chat` set to `text`, or removed
/// when `text` is blank; other chats keep theirs.
pub open spec fn set_as(before: DraftStore, chat: Seq<char>, text: Seq<char>, after: DraftStore) -> bool {
    &&& after.draft(chat) == if all_ws(text) {
        None
    } else {
        Some(text)
    }
    &&& forall|c: Seq<char>| c != chat ==> #[trigger] after.draft(c) == before.draft(c)
}

/// `after` is `before` without a draft for `chat`; `removed` tells whether
/// there was one, and nothing changed when there was none.
pub open spec fn cleared_as(before: DraftStore, chat: Seq<char>, after: DraftStore, removed: bool) -> bool {
    &&& removed == (before.draft(chat) is Some)
    &&& after.draft(chat) is None
    &&& forall|c: Seq<char>| c != chat ==> #[trigger] after.draft(c) == before.draft(c)
    &&& !removed ==> after == before
}

/// A draft reads back as it was set, and a blank one as none; setting one
/// chat's draft leaves the others as they read.
pub proof fn set_then_get(s: DraftStore, s2: DraftStore, chat: Seq<char>, other: Seq<char>, text: Seq<char>)
    requires
        set_as(s, chat, text, s2),
    ensures
        s2.visible(chat) == (if all_ws(text) {
            None
        } else {
            Some(text)
        }),
        other != chat ==> s2.visible(other) == s.visible(other),
{
    assert(other != chat ==> s2.draft(other) == s.draft(other));
}

/// A cleared draft reads as none.
pub proof fn clear_then_get(s: DraftStore, s2: DraftStore, chat: Seq<char>, removed: bool)
    requires
        cleared_as(s, chat, s2, removed),
    ensures
        s2.visible(chat) is None,
{
}

} // verus!
