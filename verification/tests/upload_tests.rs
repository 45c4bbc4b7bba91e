use ymessenger::json::Json;
use ymessenger::upload::{direct_upload_url, PutAnswer, Upload, UploadAction, UploadEvent, UploadStage};

fn obj(members: Vec<(&str, Json)>) -> Json {
    Json::Object(members.into_iter().map(|(k, v)| (k.to_string(), v)).collect())
}

fn s(v: &str) -> Json {
    Json::Str(v.to_string())
}

fn finished(a: UploadAction) -> Result<String, String> {
    match a {
        UploadAction::Finish(r) => r,
        _ => panic!("not finished"),
    }
}

#[test]
fn rpc_gives_the_file_id() {
    let (mut up, params) = Upload::start("chat", "pic.PNG", 10);
    match params {
        Json::Object(m) => {
            assert_eq!(m.len(), 4);
            assert!(matches!(&m[3].1, Json::Str(t) if t == "image/png"));
        }
        _ => panic!("not an object"),
    }
    let r = finished(up.on_answer(UploadEvent::Rpc(Ok(obj(vec![("fileId", s("F1"))])))));
    assert_eq!(r.unwrap(), "F1");
    assert_eq!(up.stage, UploadStage::Done);
}

#[test]
fn rpc_gives_a_place_to_put_the_file() {
    let (mut up, _) = Upload::start("chat", "doc.pdf", 10);
    match up.on_answer(UploadEvent::Rpc(Ok(obj(vec![("uploadUrl", s("https://up/x"))])))) {
        UploadAction::Put { url, content_type, authorized } => {
            assert_eq!(url, "https://up/x");
            assert_eq!(content_type, "application/pdf");
            assert!(!authorized);
        }
        _ => panic!("expected a put"),
    }
    let answer = PutAnswer::Answered {
        success: true,
        status: "200 OK".into(),
        file_id_header: None,
        body: Ok(obj(vec![("fileId", s("F2"))])),
    };
    assert_eq!(finished(up.on_answer(UploadEvent::Put(answer))).unwrap(), "F2");
}

#[test]
fn failed_rpc_puts_the_file_straight() {
    let (mut up, _) = Upload::start("chat", "a.zip", 10);
    match up.on_answer(UploadEvent::Rpc(Err("418".into()))) {
        UploadAction::Put { url, authorized, .. } => {
            assert!(url.starts_with("https://files.messenger.yandex.net/media_upload/chat/a.zip?"));
            assert!(authorized);
        }
        _ => panic!("expected a put"),
    }
    let answer = PutAnswer::Answered {
        success: false,
        status: "500 Internal Server Error".into(),
        file_id_header: None,
        body: Err("x".into()),
    };
    assert_eq!(
        finished(up.on_answer(UploadEvent::Put(answer))).unwrap_err(),
        "Upload failed with status: 500 Internal Server Error"
    );
    assert!(matches!(up.on_answer(UploadEvent::Rpc(Err("late".into()))), UploadAction::Ignore));
}

#[test]
fn missing_ids_are_errors() {
    let (mut up, _) = Upload::start("chat", "a", 1);
    assert_eq!(
        finished(up.on_answer(UploadEvent::Rpc(Ok(obj(vec![]))))).unwrap_err(),
        "upload_file response missing fileId or uploadUrl"
    );
    let u = direct_upload_url("c", "f");
    assert_eq!(u.len(), "https://files.messenger.yandex.net/media_upload/c/f?".len() + 36);
}
