//! What the server reads from and writes to its database: the record
//! types, the questions the chat logic asks, the answers it receives, and
//! the writes it requests. The database itself is driven by the
//! application around this library.

use vstd::prelude::*;

use crate::model::{opt_view, Timestamp};

verus! {

/// A registered user.
#[derive(Clone, Debug)]
pub struct UserRecord {
    pub username: String,
    pub password_hash: String,
    pub created_at: String,
}

/// A stored message.
#[derive(Clone, Debug)]
pub struct MessageRecord {
    pub id: i64,
    pub from_user: String,
    pub to_user: Option<String>,
    pub room: Option<String>,
    pub content: String,
    pub timestamp: String,
    pub message_id: Option<String>,
    pub message_type: String,
    pub delivered: bool,
}

/// The kind of a stored message.
#[derive(Clone, Copy, Debug, PartialEq, Eq, Structural)]
pub enum MessageType {
    Private,
    Broadcast,
    Room,
}

/// The name under which a message kind is stored.
pub open spec fn message_type_name(t: MessageType) -> Seq<char> {
    match t {
        MessageType::Private => "private"@,
        MessageType::Broadcast => "broadcast"@,
        MessageType::Room => "room"@,
    }
}

impl MessageType {
    /// The name under which this kind is stored.
    pub fn as_str(&self) -> (s: &'static str)
        ensures
            s@ == message_type_name(*self),
    {
        match self {
            MessageType::Private => "private",
            MessageType::Broadcast => "broadcast",
            MessageType::Room => "room",
        }
    }
}

/// An entry of the moderation log.
#[derive(Clone, Debug)]
pub struct ModerationLog {
    pub action: String,
    pub moderator: String,
    pub target_user: String,
    pub reason: Option<String>,
    pub details: Option<String>,
    pub timestamp: String,
}

/// Metadata of an uploaded file.
#[derive(Clone, Debug)]
pub struct FileInfo {
    pub file_id: String,
    pub filename: String,
    pub file_size: u64,
    pub mime_type: String,
    pub uploaded_by: String,
    pub uploaded_at: String,
    pub file_path: String,
}

/// A question the chat logic needs the database to answer before it can
/// decide. Each names the field of `DbAnswers` that receives the answer.
#[derive(Clone, Debug)]
pub enum Query {
    /// `registered`: is there a user with this name? (`get_user`)
    Registered { username: String },
    /// `inserted`: store a new user. (`insert_user`)
    InsertUser { username: String, password_hash: String },
    /// `login_user`: the user record. (`get_user`)
    LoginUser { username: String },
    /// `banned`: is the user banned? (`is_banned`)
    Banned { username: String },
    /// `muted`: is the user muted? (`is_muted`)
    Muted { username: String },
    /// `admin`: is the user an administrator? (`is_admin`)
    Admin { username: String },
    /// `user_exists`: does the user exist (a failed lookup counts as no)?
    UserExists { username: String },
    /// `pending`: undelivered messages addressed to the user.
    /// (`count_pending_messages`)
    Pending { username: String },
    /// `admins`: the administrators. (`list_admins`)
    Admins,
    /// `logs`: the most recent moderation log entries. (`get_moderation_logs`)
    Logs { limit: usize },
    /// `download_token`: a download token for a file, for its recipient
    /// `for_user`, asked by `requested_by`; refused unless one of the two
    /// uploaded the file. (`generate_download_token`)
    DownloadToken { file_id: String, for_user: String, requested_by: String },
    /// `user_count`: how many accounts there are (a failed count counts as
    /// none). (`count_users`)
    UserCount,
}

/// The database's answers gathered so far for one request; `None` means
/// not asked yet. `Err` holds the database's error message. `password_hash`
/// keeps the hash computed for a registration, so that a request resumed
/// after an answer reuses it.
#[derive(Clone, Debug)]
pub struct DbAnswers {
    pub registered: Option<Result<bool, String>>,
    pub inserted: Option<Result<(), String>>,
    pub password_hash: Option<String>,
    pub login_user: Option<Result<Option<UserRecord>, String>>,
    pub banned: Option<Result<bool, String>>,
    pub muted: Option<Result<bool, String>>,
    pub admin: Option<Result<bool, String>>,
    pub user_exists: Option<bool>,
    pub pending: Option<Result<usize, String>>,
    pub admins: Option<Result<Vec<String>, String>>,
    pub logs: Option<Result<Vec<ModerationLog>, String>>,
    pub download_token: Option<Result<String, String>>,
    pub user_count: Option<usize>,
}

impl DbAnswers {
    /// No answer yet.
    pub fn new() -> (a: DbAnswers)
        ensures
            a.registered is None,
            a.inserted is None,
            a.password_hash is None,
            a.login_user is None,
            a.banned is None,
            a.muted is None,
            a.admin is None,
            a.user_exists is None,
            a.pending is None,
            a.admins is None,
            a.logs is None,
            a.download_token is None,
            a.user_count is None,
    {
        DbAnswers {
            registered: None,
            inserted: None,
            password_hash: None,
            login_user: None,
            banned: None,
            muted: None,
            admin: None,
            user_exists: None,
            pending: None,
            admins: None,
            logs: None,
            download_token: None,
            user_count: None,
        }
    }
}

/// A write the chat logic asks the database to perform; its outcome does
/// not influence the logic.
#[derive(Clone, Debug)]
pub enum DbCommand {
    InsertMessage {
        from_user: String,
        to_user: Option<String>,
        room: Option<String>,
        content: String,
        timestamp: Timestamp,
        message_id: Option<String>,
        message_type: MessageType,
        delivered: bool,
    },
    LogModeration {
        action: String,
        moderator: String,
        target_user: String,
        reason: Option<String>,
        details: Option<String>,
    },
    BanUser { username: String, banned_by: String, reason: String, duration_secs: Option<u64> },
    MuteUser { username: String, muted_by: String, duration_secs: u64 },
    UnmuteUser { username: String },
    PromoteAdmin { username: String, promoted_by: String },
    DemoteAdmin { username: String },
}

/// The content of a `Query`.
pub enum QueryView {
    Registered { username: Seq<char> },
    InsertUser { username: Seq<char>, password_hash: Seq<char> },
    LoginUser { username: Seq<char> },
    Banned { username: Seq<char> },
    Muted { username: Seq<char> },
    Admin { username: Seq<char> },
    UserExists { username: Seq<char> },
    Pending { username: Seq<char> },
    Admins,
    Logs { limit: usize },
    DownloadToken { file_id: Seq<char>, for_user: Seq<char>, requested_by: Seq<char> },
    UserCount,
}

impl View for Query {
    type V = QueryView;

    open spec fn view(&self) -> QueryView {
        match self {
            Query::Registered { username } => QueryView::Registered { username: username@ },
            Query::InsertUser { username, password_hash } => QueryView::InsertUser {
                username: username@,
                password_hash: password_hash@,
            },
            Query::LoginUser { username } => QueryView::LoginUser { username: username@ },
            Query::Banned { username } => QueryView::Banned { username: username@ },
            Query::Muted { username } => QueryView::Muted { username: username@ },
            Query::Admin { username } => QueryView::Admin { username: username@ },
            Query::UserExists { username } => QueryView::UserExists { username: username@ },
            Query::Pending { username } => QueryView::Pending { username: username@ },
            Query::Admins => QueryView::Admins,
            Query::Logs { limit } => QueryView::Logs { limit: *limit },
            Query::DownloadToken { file_id, for_user, requested_by } => QueryView::DownloadToken {
                file_id: file_id@,
                for_user: for_user@,
                requested_by: requested_by@,
            },
            Query::UserCount => QueryView::UserCount,
        }
    }
}

/// The content of a `DbCommand`.
pub enum CommandView {
    InsertMessage {
        from_user: Seq<char>,
        to_user: Option<Seq<char>>,
        room: Option<Seq<char>>,
        content: Seq<char>,
        timestamp: Timestamp,
        message_id: Option<Seq<char>>,
        message_type: MessageType,
        delivered: bool,
    },
    LogModeration {
        action: Seq<char>,
        moderator: Seq<char>,
        target_user: Seq<char>,
        reason: Option<Seq<char>>,
        details: Option<Seq<char>>,
    },
    BanUser { username: Seq<char>, banned_by: Seq<char>, reason: Seq<char>, duration_secs: Option<u64> },
    MuteUser { username: Seq<char>, muted_by: Seq<char>, duration_secs: u64 },
    UnmuteUser { username: Seq<char> },
    PromoteAdmin { username: Seq<char>, promoted_by: Seq<char> },
    DemoteAdmin { username: Seq<char> },
}

impl View for DbCommand {
    type V = CommandView;

    open spec fn view(&self) -> CommandView {
        match self {
            DbCommand::InsertMessage {
                from_user,
                to_user,
                room,
                content,
                timestamp,
                message_id,
                message_type,
                delivered,
            } => CommandView::InsertMessage {
                from_user: from_user@,
                to_user: opt_view(*to_user),
                room: opt_view(*room),
                content: content@,
                timestamp: *timestamp,
                message_id: opt_view(*message_id),
                message_type: *message_type,
                delivered: *delivered,
            },
            DbCommand::LogModeration { action, moderator, target_user, reason, details } => CommandView::LogModeration {
                action: action@,
                moderator: moderator@,
                target_user: target_user@,
                reason: opt_view(*reason),
                details: opt_view(*details),
            },
            DbCommand::BanUser { username, banned_by, reason, duration_secs } => CommandView::BanUser {
                username: username@,
                banned_by: banned_by@,
                reason: reason@,
                duration_secs: *duration_secs,
            },
            DbCommand::MuteUser { username, muted_by, duration_secs } => CommandView::MuteUser {
                username: username@,
                muted_by: muted_by@,
                duration_secs: *duration_secs,
            },
            DbCommand::UnmuteUser { username } => CommandView::UnmuteUser { username: username@ },
            DbCommand::PromoteAdmin { username, promoted_by } => CommandView::PromoteAdmin {
                username: username@,
                promoted_by: promoted_by@,
            },
            DbCommand::DemoteAdmin { username } => CommandView::DemoteAdmin { username: username@ },
        }
    }
}

} // verus!
