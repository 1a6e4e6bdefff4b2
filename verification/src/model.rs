//! The chat protocol: the messages that clients and the server exchange,
//! and the values they carry.

use vstd::prelude::*;

verus! {

/// Kind of an acknowledgement sent by the server.
#[derive(Clone, Copy, Debug, PartialEq, Eq, Structural)]
pub enum AckKind {
    Received,
    Delivered,
    Read,
    Failed,
    System,
}

/// An instant in UTC: seconds since the Unix epoch and the nanoseconds
/// within that second.
#[derive(Clone, Copy, Debug, PartialEq, Eq, Structural)]
pub struct Timestamp {
    pub secs: i64,
    pub nanos: u32,
}

/// The network address of a connected peer: an IP address (an IPv4
/// address is stored in the low 32 bits) and a port.
#[derive(Clone, Copy, Debug, PartialEq, Eq, Structural, Hash)]
pub struct PeerAddr {
    pub ip: u128,
    pub port: u16,
    pub v6: bool,
}

impl PeerAddr {
    /// The IPv4 address `a.b.c.d:port`.
    pub fn v4(a: u8, b: u8, c: u8, d: u8, port: u16) -> (r: PeerAddr)
        ensures
            r.ip == a as int * 16777216 + b as int * 65536 + c as int * 256 + d as int,
            r.port == port,
            !r.v6,
    {
        let ip: u128 = (a as u128) * 16777216 + (b as u128) * 65536 + (c as u128) * 256 + (d as u128);
        PeerAddr { ip, port, v6: false }
    }
}

/// A message as stored in the message history.
#[derive(Clone, Debug)]
pub struct StoredMessage {
    pub id: i64,
    pub from_user: String,
    pub to_user: Option<String>,
    pub room: Option<String>,
    pub content: String,
    pub timestamp: String,
    pub message_id: Option<String>,
    pub message_type: String,
}

/// A full-text search hit. The relevance score is a 64-bit float carried
/// by its bit pattern.
#[derive(Clone, Debug)]
pub struct SearchResult {
    pub id: i64,
    pub from_user: String,
    pub to_user: Option<String>,
    pub room: Option<String>,
    pub content: String,
    pub timestamp: String,
    pub rank_bits: u64,
    pub snippet: String,
}

/// What an authenticated client asks the server to do.
#[derive(Clone, Debug)]
pub enum ChatAction {
    Text { from: String, content: String, timestamp: Timestamp },
    RoomText { from: String, room: String, content: String, timestamp: Timestamp },
    Private {
        from: String,
        to: String,
        content: String,
        timestamp: Timestamp,
        message_id: Option<String>,
    },
    ListRequest { from: String },
    HistoryRequest { from: String, to: Option<String>, limit: Option<usize> },
    JoinRoom { room: String },
    LeaveRoom { room: String },
    Logout { username: String },
    ReadReceipt { message_id: String, reader: String },
    Typing { user: String, typing: bool },
    AdminKick { target: String, reason: String },
    AdminBan { target: String, duration_secs: u64, reason: String },
    AdminMute { target: String, duration_secs: u64 },
    AdminUnmute { target: String },
    AdminPromote { target: String },
    AdminDemote { target: String },
    AdminList,
    AdminLogs { limit: Option<usize> },
    SearchMessages { query: String, limit: Option<usize>, user_filter: Option<String> },
    SendFile {
        from: String,
        to: String,
        file_id: String,
        file_name: String,
        file_size: u64,
        mime_type: String,
        timestamp: Timestamp,
    },
}

/// A message on the wire, in either direction.
#[derive(Clone, Debug)]
pub enum ChatMessage {
    Register { username: String, password: String },
    Login { username: String, password: String },
    SessionToken { token: String, username: String },
    Authenticated { token: String, action: Box<ChatAction> },
    Text { from: String, content: String, timestamp: Timestamp },
    RoomText { from: String, room: String, content: String, timestamp: Timestamp },
    Private {
        from: String,
        to: String,
        content: String,
        timestamp: Timestamp,
        message_id: Option<String>,
    },
    ListRequest { from: String },
    JoinRoom { room: String },
    LeaveRoom { room: String },
    Logout { username: String },
    ReadReceipt { message_id: String, reader: String },
    Typing { user: String, typing: bool },
    Ack { kind: AckKind, info: String, message_id: Option<String> },
    ListResponse { users: Vec<String> },
    HistoryResponse { messages: Vec<StoredMessage> },
    SearchResponse { messages: Vec<SearchResult>, total: usize },
    FileNotification {
        from: String,
        file_id: String,
        file_name: String,
        file_size: u64,
        mime_type: String,
        download_token: String,
        timestamp: String,
    },
    Error(String),
}

/// The mathematical content of a `ChatMessage`: strings as character
/// sequences.
pub enum MessageView {
    Register { username: Seq<char>, password: Seq<char> },
    Login { username: Seq<char>, password: Seq<char> },
    SessionToken { token: Seq<char>, username: Seq<char> },
    Authenticated { token: Seq<char>, action: ChatAction },
    Text { from: Seq<char>, content: Seq<char>, timestamp: Timestamp },
    RoomText { from: Seq<char>, room: Seq<char>, content: Seq<char>, timestamp: Timestamp },
    Private {
        from: Seq<char>,
        to: Seq<char>,
        content: Seq<char>,
        timestamp: Timestamp,
        message_id: Option<Seq<char>>,
    },
    ListRequest { from: Seq<char> },
    JoinRoom { room: Seq<char> },
    LeaveRoom { room: Seq<char> },
    Logout { username: Seq<char> },
    ReadReceipt { message_id: Seq<char>, reader: Seq<char> },
    Typing { user: Seq<char>, typing: bool },
    Ack { kind: AckKind, info: Seq<char>, message_id: Option<Seq<char>> },
    ListResponse { users: Seq<Seq<char>> },
    HistoryResponse { messages: Seq<StoredMessage> },
    SearchResponse { messages: Seq<SearchResult>, total: usize },
    FileNotification {
        from: Seq<char>,
        file_id: Seq<char>,
        file_name: Seq<char>,
        file_size: u64,
        mime_type: Seq<char>,
        download_token: Seq<char>,
        timestamp: Seq<char>,
    },
    Error(Seq<char>),
}

/// The view of an optional string.
pub open spec fn opt_view(o: Option<String>) -> Option<Seq<char>> {
    match o {
        Some(s) => Some(s@),
        None => None,
    }
}

/// The views of a list of strings.
pub open spec fn strings_view(v: Seq<String>) -> Seq<Seq<char>> {
    v.map_values(|s: String| s@)
}

impl View for ChatMessage {
    type V = MessageView;

    open spec fn view(&self) -> MessageView {
        match self {
            ChatMessage::Register { username, password } => MessageView::Register {
                username: username@,
                password: password@,
            },
            ChatMessage::Login { username, password } => MessageView::Login {
                username: username@,
                password: password@,
            },
            ChatMessage::SessionToken { token, username } => MessageView::SessionToken {
                token: token@,
                username: username@,
            },
            ChatMessage::Authenticated { token, action } => MessageView::Authenticated {
                token: token@,
                action: **action,
            },
            ChatMessage::Text { from, content, timestamp } => MessageView::Text {
                from: from@,
                content: content@,
                timestamp: *timestamp,
            },
            ChatMessage::RoomText { from, room, content, timestamp } => MessageView::RoomText {
                from: from@,
                room: room@,
                content: content@,
                timestamp: *timestamp,
            },
            ChatMessage::Private { from, to, content, timestamp, message_id } => MessageView::Private {
                from: from@,
                to: to@,
                content: content@,
                timestamp: *timestamp,
                message_id: opt_view(*message_id),
            },
            ChatMessage::ListRequest { from } => MessageView::ListRequest { from: from@ },
            ChatMessage::JoinRoom { room } => MessageView::JoinRoom { room: room@ },
            ChatMessage::LeaveRoom { room } => MessageView::LeaveRoom { room: room@ },
            ChatMessage::Logout { username } => MessageView::Logout { username: username@ },
            ChatMessage::ReadReceipt { message_id, reader } => MessageView::ReadReceipt {
                message_id: message_id@,
                reader: reader@,
            },
            ChatMessage::Typing { user, typing } => MessageView::Typing { user: user@, typing: *typing },
            ChatMessage::Ack { kind, info, message_id } => MessageView::Ack {
                kind: *kind,
                info: info@,
                message_id: opt_view(*message_id),
            },
            ChatMessage::ListResponse { users } => MessageView::ListResponse {
                users: strings_view(users@),
            },
            ChatMessage::HistoryResponse { messages } => MessageView::HistoryResponse {
                messages: messages@,
            },
            ChatMessage::SearchResponse { messages, total } => MessageView::SearchResponse {
                messages: messages@,
                total: *total,
            },
            ChatMessage::FileNotification {
                from,
                file_id,
                file_name,
                file_size,
                mime_type,
                download_token,
                timestamp,
            } => MessageView::FileNotification {
                from: from@,
                file_id: file_id@,
                file_name: file_name@,
                file_size: *file_size,
                mime_type: mime_type@,
                download_token: download_token@,
                timestamp: timestamp@,
            },
            ChatMessage::Error(e) => MessageView::Error(e@),
        }
    }
}

/// An acknowledgement with no message id.
pub open spec fn ack(kind: AckKind, info: Seq<char>) -> MessageView {
    MessageView::Ack { kind, info, message_id: None }
}

/// Builds an acknowledgement.
pub fn make_ack(kind: AckKind, info: String, message_id: Option<String>) -> (m: ChatMessage)
    ensures
        m@ == (MessageView::Ack { kind, info: info@, message_id: opt_view(message_id) }),
{
    ChatMessage::Ack { kind, info, message_id }
}

/// Copies an optional string.
pub fn clone_opt(o: &Option<String>) -> (r: Option<String>)
    ensures
        opt_view(r) == opt_view(*o),
{
    match o {
        Some(s) => Some(s.clone()),
        None => None,
    }
}

} // verus!
