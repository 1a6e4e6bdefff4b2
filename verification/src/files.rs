//! The decisions of the file server: where an upload is kept and which
//! media type it gets, until when a download token holds, and what a
//! download or an upload is answered.

use vstd::prelude::*;
use crate::clock::{now_timestamp, parse_rfc3339, rfc3339, rfc3339_instant, rfc3339_of};
use crate::database::FileInfo;
use crate::model::{opt_view, Timestamp};
use crate::state::str_equal;
use crate::text::{concat3, decimal, decimal_string};

verus! {

/// How long a download token holds, in seconds.
pub const DOWNLOAD_TOKEN_SECS: i64 = 3600;

/// The media type that mime_guess gives a file named `name`.
pub uninterp spec fn mime_of(name: Seq<char>) -> Seq<char>;

/// `mime_guess::from_path(name).first_or_octet_stream()`, as text: the
/// media type of the first mapping of the name's extension, or
/// `application/octet-stream` when it has none. The table is the crate's.
#[verifier::external_body]
fn guess_mime(name: &str) -> (res: String)
    ensures
        res@ == mime_of(name@),
{
    mime_guess::from_path(name).first_or_octet_stream().to_string()
}

/// Where an upload is kept and the media type it is recorded with.
pub struct UploadPlan {
    pub file_path: String,
    pub mime_type: String,
}

/// Plans the upload of a file named `filename` that got id `file_id`: it is
/// kept under `upload_dir` by its id, with the media type its name says.
pub fn plan_upload(upload_dir: &str, file_id: &str, filename: &str) -> (p: UploadPlan)
    ensures
        p.file_path@ == upload_dir@ + "/"@ + file_id@,
        p.mime_type@ == mime_of(filename@),
{
    UploadPlan { file_path: concat3(upload_dir, "/", file_id), mime_type: guess_mime(filename) }
}

/// Whether a download token for a file uploaded by `uploader` may be issued
/// to `for_user` at the request of `requested_by`: only the file's uploader
/// may have one issued (for the recipient it sent the file to), or be the
/// one the token is for.
pub open spec fn may_issue_token(uploader: Seq<char>, requested_by: Seq<char>, for_user: Seq<char>) -> bool {
    uploader == requested_by || uploader == for_user
}

/// Decides `may_issue_token` for a file uploaded by `uploader`.
pub fn may_issue_download_token(uploader: &str, requested_by: &str, for_user: &str) -> (b: bool)
    ensures
        b == may_issue_token(uploader@, requested_by@, for_user@),
{
    str_equal(uploader, requested_by) || str_equal(uploader, for_user)
}

/// The instant a download token made at `now` stops holding.
pub open spec fn token_expiry(now: Timestamp) -> Timestamp {
    Timestamp { secs: (now.secs + DOWNLOAD_TOKEN_SECS) as i64, nanos: now.nanos }
}

/// The expiry, as stored, of a download token made at `now`: an hour later,
/// written in RFC 3339 (`None` where chrono cannot write it).
pub fn download_token_expiry(now: Timestamp) -> (r: Option<String>)
    requires
        now.secs <= i64::MAX - DOWNLOAD_TOKEN_SECS,
    ensures
        opt_view(r) == rfc3339_of(token_expiry(now)),
{
    rfc3339(Timestamp { secs: now.secs + DOWNLOAD_TOKEN_SECS, nanos: now.nanos })
}

/// `a` comes before `b`.
pub open spec fn earlier(a: Timestamp, b: Timestamp) -> bool {
    a.secs < b.secs || (a.secs == b.secs && a.nanos < b.nanos)
}

/// A download token whose stored expiry is `stored` holds at `now`: the
/// expiry is there, reads as RFC 3339, and is still ahead.
pub open spec fn token_holds(stored: Option<Seq<char>>, now: Timestamp) -> bool {
    match stored {
        Some(s) => match rfc3339_instant(s) {
            Some(t) => earlier(now, t),
            None => false,
        },
        None => false,
    }
}

/// Whether a download token with stored expiry `stored_expiry` (`None` when
/// the file has no such token) holds at `now`.
pub fn download_token_holds_at(stored_expiry: &Option<String>, now: Timestamp) -> (b: bool)
    ensures
        b == token_holds(opt_view(*stored_expiry), now),
{
    match stored_expiry {
        Some(s) => match parse_rfc3339(s.as_str()) {
            Some(t) => now.secs < t.secs || (now.secs == t.secs && now.nanos < t.nanos),
            None => false,
        },
        None => false,
    }
}

/// `download_token_holds_at` at the current time.
pub fn download_token_holds(stored_expiry: &Option<String>) -> (b: bool)
    ensures
        exists|now: Timestamp| b == #[trigger] token_holds(opt_view(*stored_expiry), now),
{
    download_token_holds_at(stored_expiry, now_timestamp())
}

/// Why a download is refused.
#[derive(Clone, Copy, Debug, PartialEq, Eq, Structural)]
pub enum DownloadRefusal {
    /// the token could not be checked
    CheckFailed,
    /// the token does not hold
    BadToken,
    /// no such file
    NotFound,
    /// the file could not be read
    ReadFailed,
}

/// The HTTP status of a refused download.
pub open spec fn refusal_status(r: DownloadRefusal) -> u16 {
    match r {
        DownloadRefusal::CheckFailed => 500,
        DownloadRefusal::BadToken => 403,
        DownloadRefusal::NotFound => 404,
        DownloadRefusal::ReadFailed => 500,
    }
}

/// The error text of a refused download.
pub open spec fn refusal_text(r: DownloadRefusal) -> Seq<char> {
    match r {
        DownloadRefusal::CheckFailed => "Erro ao validar token"@,
        DownloadRefusal::BadToken => "Token inválido ou expirado"@,
        DownloadRefusal::NotFound => "Arquivo não encontrado"@,
        DownloadRefusal::ReadFailed => "Erro ao ler arquivo"@,
    }
}

impl DownloadRefusal {
    /// The HTTP status it is answered with.
    pub fn status(&self) -> (s: u16)
        ensures
            s == refusal_status(*self),
    {
        match self {
            DownloadRefusal::CheckFailed => 500,
            DownloadRefusal::BadToken => 403,
            DownloadRefusal::NotFound => 404,
            DownloadRefusal::ReadFailed => 500,
        }
    }

    /// The error text it is answered with.
    pub fn message(&self) -> (s: String)
        ensures
            s@ == refusal_text(*self),
    {
        match self {
            DownloadRefusal::CheckFailed => "Erro ao validar token".to_owned(),
            DownloadRefusal::BadToken => "Token inválido ou expirado".to_owned(),
            DownloadRefusal::NotFound => "Arquivo não encontrado".to_owned(),
            DownloadRefusal::ReadFailed => "Erro ao ler arquivo".to_owned(),
        }
    }
}

/// What the token check decides: a failed check and a token that does not
/// hold each refuse the download.
pub fn after_token_check(check: &Result<bool, String>) -> (r: Result<(), DownloadRefusal>)
    ensures
        match *check {
            Err(_) => r == Err::<(), DownloadRefusal>(DownloadRefusal::CheckFailed),
            Ok(false) => r == Err::<(), DownloadRefusal>(DownloadRefusal::BadToken),
            Ok(true) => r is Ok,
        },
{
    match check {
        Err(_) => Err(DownloadRefusal::CheckFailed),
        Ok(false) => Err(DownloadRefusal::BadToken),
        Ok(true) => Ok(()),
    }
}

/// The headers of an answered download.
pub struct DownloadHeaders {
    pub content_type: String,
    pub content_disposition: String,
    pub content_length: String,
}

/// The headers that serve `info`'s file: its media type, an attachment
/// under its name, and its size.
pub fn download_headers(info: &FileInfo) -> (h: DownloadHeaders)
    ensures
        h.content_type@ == info.mime_type@,
        h.content_disposition@ == "attachment; filename=\""@ + info.filename@ + "\""@,
        h.content_length@ == decimal(info.file_size as nat),
{
    DownloadHeaders {
        content_type: info.mime_type.clone(),
        content_disposition: concat3("attachment; filename=\"", info.filename.as_str(), "\""),
        content_length: decimal_string(info.file_size),
    }
}

/// Why the contents of an upload are refused.
#[derive(Clone, Copy, Debug, PartialEq, Eq, Structural)]
pub enum UploadRefusal {
    /// no metadata for that file id
    NotFound,
    /// the file could not be written
    SaveFailed,
}

impl UploadRefusal {
    /// The HTTP status it is answered with.
    pub fn status(&self) -> (s: u16)
        ensures
            s == (match *self {
                UploadRefusal::NotFound => 404u16,
                UploadRefusal::SaveFailed => 500u16,
            }),
    {
        match self {
            UploadRefusal::NotFound => 404,
            UploadRefusal::SaveFailed => 500,
        }
    }

    /// The error text it is answered with.
    pub fn message(&self) -> (s: String)
        ensures
            s@ == (match *self {
                UploadRefusal::NotFound => "Arquivo não encontrado"@,
                UploadRefusal::SaveFailed => "Erro ao salvar arquivo"@,
            }),
    {
        match self {
            UploadRefusal::NotFound => "Arquivo não encontrado".to_owned(),
            UploadRefusal::SaveFailed => "Erro ao salvar arquivo".to_owned(),
        }
    }
}

/// The HTTP status of stored upload contents.
pub const UPLOAD_STORED: u16 = 201;

} // verus!
