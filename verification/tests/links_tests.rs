use ymessenger::json::Json;
use ymessenger::links::{avatar_url, guess_mime_type, remove_all, safe_file_stem, telemost_url};
use ymessenger::scheduled::cache_file_name;
use ymessenger::transcription::{
    speechkit_text, transcription_started, transcription_status, transcription_text, translated_text,
    TranscribeStatus,
};

fn obj(members: Vec<(&str, Json)>) -> Json {
    Json::Object(members.into_iter().map(|(k, v)| (k.to_string(), v)).collect())
}

fn s(v: &str) -> Json {
    Json::Str(v.to_string())
}

#[test]
fn mime_types_by_extension() {
    assert_eq!(guess_mime_type("photo.JPG"), "image/jpeg");
    assert_eq!(guess_mime_type("a.b.jpeg"), "image/jpeg");
    assert_eq!(guess_mime_type("clip.webm"), "video/webm");
    assert_eq!(guess_mime_type("song.mp3"), "audio/mpeg");
    assert_eq!(guess_mime_type("doc.pdf"), "application/pdf");
    assert_eq!(guess_mime_type("zip"), "application/zip");
    assert_eq!(guess_mime_type("archive.tar.gz"), "application/octet-stream");
    assert_eq!(guess_mime_type("noext"), "application/octet-stream");
}

#[test]
fn avatar_links() {
    assert_eq!(
        avatar_url("user_avatar/123/abc", 50),
        "https://avatars.mds.yandex.net/get-123/abc/islands-middle"
    );
    assert_eq!(avatar_url("xyz", 200), "https://avatars.mds.yandex.net/get-xyz/islands-200");
    assert_eq!(remove_all("aaXaX", "aX"), "a");
    assert_eq!(remove_all("abc", ""), "abc");
}

#[test]
fn telemost_links() {
    assert_eq!(telemost_url("c1", None), "https://telemost.yandex.ru/?chatId=c1");
    assert_eq!(telemost_url("c1", Some("k")), "https://telemost.yandex.ru/?chatId=c1&callId=k");
}

#[test]
fn file_names() {
    assert_eq!(safe_file_stem("a/b c-d_é"), "a_b_c-d__");
    assert_eq!(cache_file_name("messages", "0/0/x"), "messages_0_0_x.json");
}

#[test]
fn transcription_answers() {
    assert_eq!(transcription_text(&obj(vec![("text", s("hi"))])).as_deref(), Some("hi"));
    assert_eq!(
        transcription_text(&obj(vec![("text", s("")), ("message", obj(vec![("text", s("inner"))]))])).as_deref(),
        Some("inner")
    );
    assert_eq!(transcription_text(&obj(vec![])), None);
    assert_eq!(speechkit_text(&obj(vec![("result", s("words"))])).unwrap(), "words");
    assert_eq!(
        speechkit_text(&obj(vec![("result", s(""))])).unwrap_err(),
        "SpeechKit response has no 'result' field"
    );
    assert_eq!(transcription_started(&obj(vec![("taskId", s("")), ("text", s("t"))])).unwrap(), "");
    assert_eq!(transcription_started(&obj(vec![("text", s("t"))])).unwrap(), "t");
    assert_eq!(
        transcription_started(&obj(vec![])).unwrap_err(),
        "Start transcription response has no taskId or text"
    );
}

#[test]
fn transcription_statuses() {
    assert_eq!(transcription_status(true, &Json::Null), TranscribeStatus::Error("Not found".into()));
    assert_eq!(transcription_status(false, &obj(vec![("status", s("ready"))])), TranscribeStatus::Completed);
    assert_eq!(
        transcription_status(false, &obj(vec![("status", s("failed"))])),
        TranscribeStatus::Error("Unknown error".into())
    );
    assert_eq!(
        transcription_status(false, &obj(vec![("status", s("failed")), ("error", s("bad audio"))])),
        TranscribeStatus::Error("bad audio".into())
    );
    assert_eq!(transcription_status(false, &obj(vec![])), TranscribeStatus::InProgress);
}

#[test]
fn translator_answers() {
    assert_eq!(translated_text(true, "en", &Json::Null).unwrap(), "[Перевод на en недоступен]");
    assert_eq!(translated_text(false, "en", &obj(vec![("translatedText", s("hello"))])).unwrap(), "hello");
    assert_eq!(
        translated_text(false, "en", &obj(vec![])).unwrap_err(),
        "Translation response has unsupported format"
    );
}
