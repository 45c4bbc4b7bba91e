//! Loading a chat's history when it is opened or refreshed: the push
//! socket's history first, the HTTP API next, then the local caches. The
//! caller asks where it is told and hands back each answer.

use vstd::prelude::*;

use crate::messages::Message;

verus! {

/// How far a load has got.
#[derive(Clone, Debug, PartialEq)]
pub enum LoadStage {
    Start,
    AskedSocket,
    AskedHttp,
    /// The HTTP API failed with this error; the database is asked.
    AskedDatabase(String),
    /// The database had nothing either; the JSON cache is asked.
    AskedFileCache(String),
    Done,
}

/// An answer handed back to the load.
pub enum LoadEvent {
    /// The load begins; whether the push socket is connected.
    Begin { socket_ready: bool },
    /// The socket's history page, or nothing when it failed.
    Socket(Option<Vec<Message>>),
    Http(Result<Vec<Message>, String>),
    Database(Option<Vec<Message>>),
    FileCache(Option<Vec<Message>>),
}

/// Whether the chat's history is known to have come from the socket,
/// which has every message, textless ones too.
#[derive(Clone, Copy, Debug, PartialEq, Eq)]
pub enum SocketMark {
    Mark,
    Unmark,
    Keep,
}

/// What the caller does next.
pub enum LoadAction {
    AskSocket,
    AskHttp,
    AskDatabase,
    AskFileCache,
    /// The history: shown, kept in memory when `keep`, written to the
    /// caches when `persist`, with the socket mark to record.
    Use { messages: Vec<Message>, keep: bool, persist: bool, mark: SocketMark },
    Fail(String),
    /// An answer that does not fit the stage; nothing to do.
    Ignore,
}

/// One step of a load. With `fallback` (opening a chat) a failed HTTP
/// load falls back on the database and then on the JSON cache; without
/// it (a refresh) the error is given at once.
pub open spec fn load_step(stage: LoadStage, event: LoadEvent, fallback: bool, next: LoadStage, act: LoadAction) -> bool {
    match (stage, event) {
        (LoadStage::Start, LoadEvent::Begin { socket_ready }) => if socket_ready {
            next == LoadStage::AskedSocket && act is AskSocket
        } else {
            next == LoadStage::AskedHttp && act is AskHttp
        },
        (LoadStage::AskedSocket, LoadEvent::Socket(page)) => match page {
            Some(m) => if m@.len() > 0 {
                next == LoadStage::Done && (act matches LoadAction::Use { messages, keep, persist, mark }
                    && messages@ == m@ && keep && persist && mark == SocketMark::Mark)
            } else {
                next == LoadStage::AskedHttp && act is AskHttp
            },
            None => next == LoadStage::AskedHttp && act is AskHttp,
        },
        (LoadStage::AskedHttp, LoadEvent::Http(r)) => match r {
            Ok(m) => next == LoadStage::Done && (act matches LoadAction::Use { messages, keep, persist, mark }
                && messages@ == m@ && keep && persist && mark == SocketMark::Unmark),
            Err(e) => if fallback {
                next == LoadStage::AskedDatabase(e) && act is AskDatabase
            } else {
                next == LoadStage::Done && (act matches LoadAction::Fail(f) && f == e)
            },
        },
        (LoadStage::AskedDatabase(e), LoadEvent::Database(found)) => match found {
            Some(m) => if m@.len() > 0 {
                next == LoadStage::Done && (act matches LoadAction::Use { messages, keep, persist, mark }
                    && messages@ == m@ && keep && !persist && mark == SocketMark::Keep)
            } else {
                next == LoadStage::AskedFileCache(e) && act is AskFileCache
            },
            None => next == LoadStage::AskedFileCache(e) && act is AskFileCache,
        },
        (LoadStage::AskedFileCache(e), LoadEvent::FileCache(found)) => match found {
            Some(m) => if m@.len() > 0 {
                next == LoadStage::Done && (act matches LoadAction::Use { messages, keep, persist, mark }
                    && messages@ == m@ && !keep && !persist && mark == SocketMark::Keep)
            } else {
                next == LoadStage::Done && (act matches LoadAction::Fail(f) && f == e)
            },
            None => next == LoadStage::Done && (act matches LoadAction::Fail(f) && f == e),
        },
        _ => next == stage && act is Ignore,
    }
}

/// Advances a load by one answer.
pub fn step(stage: LoadStage, event: LoadEvent, fallback: bool) -> (r: (LoadStage, LoadAction))
    ensures
        load_step(stage, event, fallback, r.0, r.1),
{
    match (stage, event) {
        (LoadStage::Start, LoadEvent::Begin { socket_ready }) => if socket_ready {
            (LoadStage::AskedSocket, LoadAction::AskSocket)
        } else {
            (LoadStage::AskedHttp, LoadAction::AskHttp)
        },
        (LoadStage::AskedSocket, LoadEvent::Socket(page)) => match page {
            Some(m) => if m.len() > 0 {
                (LoadStage::Done, LoadAction::Use { messages: m, keep: true, persist: true, mark: SocketMark::Mark })
            } else {
                (LoadStage::AskedHttp, LoadAction::AskHttp)
            },
            None => (LoadStage::AskedHttp, LoadAction::AskHttp),
        },
        (LoadStage::AskedHttp, LoadEvent::Http(r)) => match r {
            Ok(m) => (
                LoadStage::Done,
                LoadAction::Use { messages: m, keep: true, persist: true, mark: SocketMark::Unmark },
            ),
            Err(e) => if fallback {
                (LoadStage::AskedDatabase(e), LoadAction::AskDatabase)
            } else {
                (LoadStage::Done, LoadAction::Fail(e))
            },
        },
        (LoadStage::AskedDatabase(e), LoadEvent::Database(found)) => match found {
            Some(m) => if m.len() > 0 {
                (LoadStage::Done, LoadAction::Use { messages: m, keep: true, persist: false, mark: SocketMark::Keep })
            } else {
                (LoadStage::AskedFileCache(e), LoadAction::AskFileCache)
            },
            None => (LoadStage::AskedFileCache(e), LoadAction::AskFileCache),
        },
        (LoadStage::AskedFileCache(e), LoadEvent::FileCache(found)) => match found {
            Some(m) => if m.len() > 0 {
                (LoadStage::Done, LoadAction::Use { messages: m, keep: false, persist: false, mark: SocketMark::Keep })
            } else {
                (LoadStage::Done, LoadAction::Fail(e))
            },
            None => (LoadStage::Done, LoadAction::Fail(e)),
        },
        (stage, _) => (stage, LoadAction::Ignore),
    }
}

/// A history shown from the socket is always marked as such, and one from
/// the HTTP API is never; nothing but an empty answer from every source
/// ends a load that falls back in a failure.
pub proof fn socket_mark_follows_source(stage: LoadStage, event: LoadEvent, fallback: bool, next: LoadStage, act: LoadAction)
    requires
        load_step(stage, event, fallback, next, act),
    ensures
        (stage == LoadStage::AskedSocket && act is Use) ==> (act matches LoadAction::Use { mark, .. } && mark
            == SocketMark::Mark),
        (stage == LoadStage::AskedHttp && act is Use) ==> (act matches LoadAction::Use { mark, .. } && mark
            == SocketMark::Unmark),
        (fallback && stage == LoadStage::AskedHttp) ==> !(act is Fail),
        act is Fail ==> next == LoadStage::Done,
{
}

} // verus!
