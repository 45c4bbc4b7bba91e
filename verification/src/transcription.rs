//! Reading the answers of the voice transcription calls (Yandex
//! SpeechKit and the messenger's transcription API) and of the message
//! translator.

use vstd::prelude::*;

use crate::json::{self, str_field, Json};
use crate::text::{self, opt_str};

verus! {

/// Where a server-side transcription stands.
#[derive(Clone, Debug, PartialEq)]
pub enum TranscribeStatus {
    InProgress,
    Completed,
    Error(String),
}

/// A string member that is not empty.
pub open spec fn nonempty_str(v: Json, key: Seq<char>) -> Option<Seq<char>> {
    match str_field(v, key) {
        Some(t) => if t.len() > 0 {
            Some(t)
        } else {
            None
        },
        None => None,
    }
}

fn get_nonempty(v: &Json, key: &str) -> (r: Option<String>)
    ensures
        opt_str(r) == nonempty_str(*v, key@),
{
    match json::get_str(v, key) {
        Some(t) => if t.as_str().is_empty() {
            None
        } else {
            Some(t)
        },
        None => None,
    }
}

/// The text of a stored transcription: a non-empty `text`, else a
/// non-empty `message.text`.
pub open spec fn stored_text(v: Json) -> Option<Seq<char>> {
    match nonempty_str(v, "text"@) {
        Some(t) => Some(t),
        None => match v.field("message"@) {
            Some(m) => nonempty_str(m, "text"@),
            None => None,
        },
    }
}

pub fn transcription_text(v: &Json) -> (r: Option<String>)
    ensures
        opt_str(r) == stored_text(*v),
{
    match get_nonempty(v, "text") {
        Some(t) => Some(t),
        None => match v.get("message") {
            Some(m) => get_nonempty(m, "text"),
            None => None,
        },
    }
}

/// The text SpeechKit recognised: a non-empty `result`.
pub fn speechkit_text(v: &Json) -> (r: Result<String, String>)
    ensures
        match nonempty_str(*v, "result"@) {
            Some(t) => r matches Ok(s) && s@ == t,
            None => r matches Err(e) && e@ == "SpeechKit response has no 'result' field"@,
        },
{
    match get_nonempty(v, "result") {
        Some(t) => Ok(t),
        None => Err("SpeechKit response has no 'result' field".to_owned()),
    }
}

/// What starting a transcription gave: its `taskId` (even empty), else a
/// non-empty `text` that was ready at once.
pub fn transcription_started(v: &Json) -> (r: Result<String, String>)
    ensures
        match str_field(*v, "taskId"@) {
            Some(id) => r matches Ok(s) && s@ == id,
            None => match nonempty_str(*v, "text"@) {
                Some(t) => r matches Ok(s) && s@ == t,
                None => r matches Err(e) && e@ == "Start transcription response has no taskId or text"@,
            },
        },
{
    match json::get_str(v, "taskId") {
        Some(id) => Ok(id),
        None => match get_nonempty(v, "text") {
            Some(t) => Ok(t),
            None => Err("Start transcription response has no taskId or text".to_owned()),
        },
    }
}

/// The status an answer reports: a missing task (HTTP 404) is an error
/// `Not found`; otherwise `status` (`pending` when missing) is `ready`,
/// `failed` with its `error` (`Unknown error` when missing), or anything
/// else, still in progress.
pub open spec fn status_is(not_found: bool, v: Json, r: TranscribeStatus) -> bool {
    if not_found {
        r matches TranscribeStatus::Error(e) && e@ == "Not found"@
    } else {
        let status = match str_field(v, "status"@) {
            Some(s) => s,
            None => "pending"@,
        };
        if status == "ready"@ {
            r is Completed
        } else if status == "failed"@ {
            r matches TranscribeStatus::Error(e) && e@ == match str_field(v, "error"@) {
                Some(m) => m,
                None => "Unknown error"@,
            }
        } else {
            r is InProgress
        }
    }
}

pub fn transcription_status(not_found: bool, v: &Json) -> (r: TranscribeStatus)
    ensures
        status_is(not_found, *v, r),
{
    if not_found {
        return TranscribeStatus::Error("Not found".to_owned());
    }
    let status = match json::get_str(v, "status") {
        Some(s) => s,
        None => "pending".to_owned(),
    };
    if text::str_is(status.as_str(), "ready") {
        TranscribeStatus::Completed
    } else if text::str_is(status.as_str(), "failed") {
        match json::get_str(v, "error") {
            Some(m) => TranscribeStatus::Error(m),
            None => TranscribeStatus::Error("Unknown error".to_owned()),
        }
    } else {
        TranscribeStatus::InProgress
    }
}

/// The translated text of an answer: `text`, else `translatedText`; a
/// missing service (HTTP 404) answers with a notice in the target language
/// slot instead.
pub fn translated_text(not_found: bool, target_lang: &str, v: &Json) -> (r: Result<String, String>)
    ensures
        not_found ==> (r matches Ok(s) && s@ == "[Перевод на "@ + target_lang@ + " недоступен]"@),
        !not_found ==> match str_field(*v, "text"@) {
            Some(t) => r matches Ok(s) && s@ == t,
            None => match str_field(*v, "translatedText"@) {
                Some(t) => r matches Ok(s) && s@ == t,
                None => r matches Err(e) && e@ == "Translation response has unsupported format"@,
            },
        },
{
    if not_found {
        let mut s = "[Перевод на ".to_owned();
        s.append(target_lang);
        s.append(" недоступен]");
        return Ok(s);
    }
    match json::get_str(v, "text") {
        Some(t) => Ok(t),
        None => match json::get_str(v, "translatedText") {
            Some(t) => Ok(t),
            None => Err("Translation response has unsupported format".to_owned()),
        },
    }
}

} // verus!
