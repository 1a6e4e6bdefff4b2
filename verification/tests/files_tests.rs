use chat_serve::database::FileInfo;
use chat_serve::files::{
    after_token_check, download_headers, download_token_expiry, download_token_holds, download_token_holds_at,
    may_issue_download_token, plan_upload, DownloadRefusal, UploadRefusal, UPLOAD_STORED,
};
use chat_serve::model::Timestamp;

fn at(secs: i64) -> Timestamp {
    Timestamp { secs, nanos: 0 }
}

#[test]
fn upload_is_kept_by_id_with_its_media_type() {
    let p = plan_upload("uploads", "f-1", "notes.txt");
    assert_eq!(p.file_path, "uploads/f-1");
    assert_eq!(p.mime_type, "text/plain");
    assert_eq!(plan_upload("u", "x", "photo.png").mime_type, "image/png");
    assert_eq!(plan_upload("u", "x", "README").mime_type, "application/octet-stream");
}

#[test]
fn token_holds_for_an_hour() {
    let expiry = download_token_expiry(at(0)).expect("in range");
    assert_eq!(expiry, "1970-01-01T01:00:00+00:00");
    let stored = Some(expiry);
    assert!(download_token_holds_at(&stored, at(3599)));
    assert!(!download_token_holds_at(&stored, at(3600)));
    assert!(!download_token_holds_at(&Some("amanhã".to_string()), at(0)));
    assert!(!download_token_holds_at(&None, at(0)));
    // a token made now holds now
    let now = chrono::Utc::now();
    let made = download_token_expiry(Timestamp { secs: now.timestamp(), nanos: now.timestamp_subsec_nanos() });
    assert!(download_token_holds(&made));
}

#[test]
fn download_refusals() {
    assert_eq!(after_token_check(&Err("db".into())), Err(DownloadRefusal::CheckFailed));
    assert_eq!(after_token_check(&Ok(false)), Err(DownloadRefusal::BadToken));
    assert_eq!(after_token_check(&Ok(true)), Ok(()));
    assert_eq!(DownloadRefusal::BadToken.status(), 403);
    assert_eq!(DownloadRefusal::BadToken.message(), "Token inválido ou expirado");
    assert_eq!(DownloadRefusal::NotFound.status(), 404);
    assert_eq!(DownloadRefusal::NotFound.message(), "Arquivo não encontrado");
    assert_eq!(DownloadRefusal::CheckFailed.status(), 500);
    assert_eq!(DownloadRefusal::CheckFailed.message(), "Erro ao validar token");
    assert_eq!(DownloadRefusal::ReadFailed.status(), 500);
    assert_eq!(DownloadRefusal::ReadFailed.message(), "Erro ao ler arquivo");
    assert_eq!(UploadRefusal::NotFound.status(), 404);
    assert_eq!(UploadRefusal::SaveFailed.message(), "Erro ao salvar arquivo");
    assert_eq!(UPLOAD_STORED, 201);
}

#[test]
fn download_headers_name_the_file() {
    let info = FileInfo {
        file_id: "f".into(),
        filename: "a b.pdf".into(),
        file_size: 1234,
        mime_type: "application/pdf".into(),
        uploaded_by: "ana".into(),
        uploaded_at: "t".into(),
        file_path: "uploads/f".into(),
    };
    let h = download_headers(&info);
    assert_eq!(h.content_type, "application/pdf");
    assert_eq!(h.content_disposition, "attachment; filename=\"a b.pdf\"");
    assert_eq!(h.content_length, "1234");
}

#[test]
fn download_tokens_go_through_the_uploader() {
    assert!(may_issue_download_token("ana", "ana", "bia"));
    assert!(may_issue_download_token("ana", "bia", "ana"));
    assert!(!may_issue_download_token("ana", "bia", "bia"));
    assert!(!may_issue_download_token("ana", "caio", "bia"));
}
