//! Uploading a file: the `upload_file` call gives a file id or a place to
//! put the file; when the call fails the file is put straight to the file
//! host. The caller makes each request and hands back its answer.

use vstd::prelude::*;

use crate::goloom::{is_uuid_v4_text, new_uid};
use crate::json::{self, str_field, Json};
use crate::links::{guess_mime_type, mime_type_of};
use crate::text::opt_str;

verus! {

/// Where an upload stands.
#[derive(Clone, Copy, Debug, PartialEq, Eq)]
pub enum UploadStage {
    /// The `upload_file` call was made.
    AskedRpc,
    /// The file is being put to the address the call gave.
    PutToUrl,
    /// The call failed; the file is being put straight to the file host.
    PutDirect,
    Done,
}

/// The answer to a put.
pub enum PutAnswer {
    /// The request could not be made.
    Unsent(String),
    /// The server answered: whether with success, the status as text, the
    /// `x-file-id` header, and the body read as JSON (or why it could not be).
    Answered { success: bool, status: String, file_id_header: Option<String>, body: Result<Json, String> },
}

pub enum UploadEvent {
    Rpc(Result<Json, String>),
    Put(PutAnswer),
}

/// What the caller does next.
pub enum UploadAction {
    /// Put the file to `url` with this content type, with the OAuth header
    /// when `authorized`.
    Put { url: String, content_type: &'static str, authorized: bool },
    /// The file id, or why the upload failed.
    Finish(Result<String, String>),
    /// An answer that does not fit the stage.
    Ignore,
}

/// An upload of `filename` to `chat_id`.
pub struct Upload {
    pub chat_id: String,
    pub filename: String,
    pub stage: UploadStage,
}

/// The `upload_file` parameters: the chat, the file's name, size and MIME
/// type.
pub open spec fn is_upload_params(r: Json, chat_id: Seq<char>, filename: Seq<char>, size: usize) -> bool {
    r matches Json::Object(m) && m@.len() == 4 && m@[0].0@ == "chatId"@ && m@[0].1.str_value() == Some(chat_id)
        && m@[1].0@ == "fileName"@ && m@[1].1.str_value() == Some(filename) && m@[2].0@ == "size"@
        && m@[2].1.u64_value() == Some(size as u64) && m@[3].0@ == "mimeType"@ && m@[3].1.str_value() == Some(
        mime_type_of(filename),
    )
}

pub fn upload_params(chat_id: &str, filename: &str, size: usize) -> (r: Json)
    requires
        size <= u64::MAX,
    ensures
        is_upload_params(r, chat_id@, filename@, size),
{
    let mut m: Vec<(String, Json)> = Vec::new();
    m.push(("chatId".to_owned(), Json::Str(chat_id.to_owned())));
    m.push(("fileName".to_owned(), Json::Str(filename.to_owned())));
    m.push(("size".to_owned(), Json::Number(json::JsonNumber::PosInt(size as u64))));
    m.push(("mimeType".to_owned(), Json::Str(guess_mime_type(filename).to_owned())));
    Json::Object(m)
}

/// The address a file is put to straight: the file host's
/// `media_upload/{chat}/{file}`, with a fresh random query.
pub fn direct_upload_url(chat_id: &str, filename: &str) -> (u: String)
    ensures
        u@.len() == crate::config::FILE_PUBLIC_HOST@.len() + 14 + chat_id@.len() + 1 + filename@.len() + 1 + 36,
        u@.take((crate::config::FILE_PUBLIC_HOST@.len() + 14 + chat_id@.len() + 1 + filename@.len() + 1) as int)
            == crate::config::FILE_PUBLIC_HOST@ + "/media_upload/"@ + chat_id@ + "/"@ + filename@ + "?"@,
        is_uuid_v4_text(u@.skip((u@.len() - 36) as int)),
{
    proof {
        reveal_strlit("/media_upload/");
        reveal_strlit("/");
        reveal_strlit("?");
    }
    let mut u = crate::config::FILE_PUBLIC_HOST.to_owned();
    u.append("/media_upload/");
    u.append(chat_id);
    u.append("/");
    u.append(filename);
    u.append("?");
    let ghost prefix = u@;
    let id = new_uid();
    u.append(id.as_str());
    assert(u@.take(prefix.len() as int) =~= prefix);
    assert(u@.skip((u@.len() - 36) as int) =~= id@);
    u
}

/// The file id in an answer: its string `fileId`.
pub open spec fn file_id_in(v: Json) -> Option<Seq<char>> {
    str_field(v, "fileId"@)
}

/// One step of an upload: the stage after an answer, and what to do.
pub open spec fn upload_step(u: Upload, event: UploadEvent, next: UploadStage, act: UploadAction) -> bool {
    match (u.stage, event) {
        (UploadStage::AskedRpc, UploadEvent::Rpc(Ok(data))) => match file_id_in(data) {
            Some(id) => next == UploadStage::Done && (act matches UploadAction::Finish(Ok(f)) && f@ == id),
            None => match str_field(data, "uploadUrl"@) {
                Some(url) => next == UploadStage::PutToUrl && (act matches UploadAction::Put {
                    url: put_url,
                    content_type,
                    authorized,
                } && put_url@ == url && content_type@ == mime_type_of(u.filename@) && !authorized),
                None => next == UploadStage::Done && (act matches UploadAction::Finish(Err(e)) && e@
                    == "upload_file response missing fileId or uploadUrl"@),
            },
        },
        (UploadStage::AskedRpc, UploadEvent::Rpc(Err(_))) => next == UploadStage::PutDirect && (act matches UploadAction::Put {
            url,
            content_type,
            authorized,
        } && url@.take((crate::config::FILE_PUBLIC_HOST@.len() + 14 + u.chat_id@.len() + 1 + u.filename@.len() + 1) as int)
            == crate::config::FILE_PUBLIC_HOST@ + "/media_upload/"@ + u.chat_id@ + "/"@ + u.filename@ + "?"@
            && content_type@ == mime_type_of(u.filename@) && authorized),
        (UploadStage::PutToUrl, UploadEvent::Put(answer)) => next == UploadStage::Done && match answer {
            PutAnswer::Unsent(e) => act matches UploadAction::Finish(Err(m)) && m@ == "Upload to url failed: "@
                + e@,
            PutAnswer::Answered { success, status, file_id_header, body } => if !success {
                act matches UploadAction::Finish(Err(m)) && m@ == "Upload to url failed with status: "@ + status@
            } else {
                match file_id_header {
                    Some(h) => act matches UploadAction::Finish(Ok(f)) && f@ == h@,
                    None => match body {
                        Ok(j) if file_id_in(j) is Some => act matches UploadAction::Finish(Ok(f)) && Some(f@)
                            == file_id_in(j),
                        _ => act matches UploadAction::Finish(Err(m)) && m@ == "No fileId in upload response"@,
                    },
                }
            },
        },
        (UploadStage::PutDirect, UploadEvent::Put(answer)) => next == UploadStage::Done && match answer {
            PutAnswer::Unsent(e) => act matches UploadAction::Finish(Err(m)) && m@ == "Upload failed: "@ + e@,
            PutAnswer::Answered { success, status, body, .. } => if !success {
                act matches UploadAction::Finish(Err(m)) && m@ == "Upload failed with status: "@ + status@
            } else {
                match body {
                    Err(e) => act matches UploadAction::Finish(Err(m)) && m@ == "Upload parse failed: "@ + e@,
                    Ok(j) => match file_id_in(j) {
                        Some(id) => act matches UploadAction::Finish(Ok(f)) && f@ == id,
                        None => act matches UploadAction::Finish(Err(m)) && m@ == "No fileId in response"@,
                    },
                }
            },
        },
        _ => next == u.stage && act is Ignore,
    }
}

fn concat(a: &str, b: &str) -> (r: String)
    ensures
        r@ == a@ + b@,
{
    let mut r = a.to_owned();
    r.append(b);
    r
}

impl Upload {
    /// Starts an upload: the `upload_file` call to make.
    pub fn start(chat_id: &str, filename: &str, size: usize) -> (r: (Upload, Json))
        requires
            size <= u64::MAX,
        ensures
            r.0.chat_id@ == chat_id@,
            r.0.filename@ == filename@,
            r.0.stage == UploadStage::AskedRpc,
            is_upload_params(r.1, chat_id@, filename@, size),
    {
        (
            Upload { chat_id: chat_id.to_owned(), filename: filename.to_owned(), stage: UploadStage::AskedRpc },
            upload_params(chat_id, filename, size),
        )
    }

    /// Advances the upload by one answer.
    pub fn on_answer(&mut self, event: UploadEvent) -> (act: UploadAction)
        ensures
            final(self).chat_id == old(self).chat_id,
            final(self).filename == old(self).filename,
            upload_step(*old(self), event, final(self).stage, act),
    {
        match (self.stage, event) {
            (UploadStage::AskedRpc, UploadEvent::Rpc(Ok(data))) => {
                match json::get_str(&data, "fileId") {
                    Some(id) => {
                        self.stage = UploadStage::Done;
                        return UploadAction::Finish(Ok(id));
                    },
                    None => {},
                }
                match json::get_str(&data, "uploadUrl") {
                    Some(url) => {
                        self.stage = UploadStage::PutToUrl;
                        UploadAction::Put {
                            url,
                            content_type: guess_mime_type(self.filename.as_str()),
                            authorized: false,
                        }
                    },
                    None => {
                        self.stage = UploadStage::Done;
                        UploadAction::Finish(Err("upload_file response missing fileId or uploadUrl".to_owned()))
                    },
                }
            },
            (UploadStage::AskedRpc, UploadEvent::Rpc(Err(_))) => {
                self.stage = UploadStage::PutDirect;
                let url = direct_upload_url(self.chat_id.as_str(), self.filename.as_str());
                UploadAction::Put { url, content_type: guess_mime_type(self.filename.as_str()), authorized: true }
            },
            (UploadStage::PutToUrl, UploadEvent::Put(answer)) => {
                self.stage = UploadStage::Done;
                match answer {
                    PutAnswer::Unsent(e) => UploadAction::Finish(Err(concat("Upload to url failed: ", e.as_str()))),
                    PutAnswer::Answered { success, status, file_id_header, body } => {
                        if !success {
                            return UploadAction::Finish(
                                Err(concat("Upload to url failed with status: ", status.as_str())),
                            );
                        }
                        match file_id_header {
                            Some(h) => UploadAction::Finish(Ok(h)),
                            None => {
                                let found = match &body {
                                    Ok(j) => json::get_str(j, "fileId"),
                                    Err(_) => None,
                                };
                                match found {
                                    Some(f) => UploadAction::Finish(Ok(f)),
                                    None => UploadAction::Finish(Err("No fileId in upload response".to_owned())),
                                }
                            },
                        }
                    },
                }
            },
            (UploadStage::PutDirect, UploadEvent::Put(answer)) => {
                self.stage = UploadStage::Done;
                match answer {
                    PutAnswer::Unsent(e) => UploadAction::Finish(Err(concat("Upload failed: ", e.as_str()))),
                    PutAnswer::Answered { success, status, body, .. } => {
                        if !success {
                            return UploadAction::Finish(Err(concat("Upload failed with status: ", status.as_str())));
                        }
                        match body {
                            Err(e) => UploadAction::Finish(Err(concat("Upload parse failed: ", e.as_str()))),
                            Ok(j) => match json::get_str(&j, "fileId") {
                                Some(f) => UploadAction::Finish(Ok(f)),
                                None => UploadAction::Finish(Err("No fileId in response".to_owned())),
                            },
                        }
                    },
                }
            },
            (_, _) => UploadAction::Ignore,
        }
    }
}

} // verus!
