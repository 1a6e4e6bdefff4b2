//! The direct-message domain: messages, the offline queue, the errors of
//! messaging operations, the stores they rely on, and the use cases built
//! on them.

use vstd::prelude::*;

use crate::model::Timestamp;
use crate::state::ChatState;
use crate::text::concat2;

verus! {

/// A direct message between two users.
#[derive(Clone, Debug)]
pub struct DirectMessage {
    pub message_id: String,
    pub from: String,
    pub to: String,
    pub content: String,
    pub timestamp: Timestamp,
    pub delivered: bool,
    pub read: bool,
}

impl DirectMessage {
    /// A new message, neither delivered nor read.
    pub fn new(message_id: String, from: String, to: String, content: String, timestamp: Timestamp) -> (m: Self)
        ensures
            m.message_id == message_id,
            m.from == from,
            m.to == to,
            m.content == content,
            m.timestamp == timestamp,
            !m.delivered,
            !m.read,
    {
        DirectMessage { message_id, from, to, content, timestamp, delivered: false, read: false }
    }

    /// Marks the message delivered.
    pub fn mark_delivered(&mut self)
        ensures
            *final(self) == (DirectMessage { delivered: true, ..*old(self) }),
    {
        self.delivered = true;
    }

    /// Marks the message read.
    pub fn mark_read(&mut self)
        ensures
            *final(self) == (DirectMessage { read: true, ..*old(self) }),
    {
        self.read = true;
    }
}

/// A message waiting in the offline queue.
#[derive(Clone, Debug)]
pub struct PendingMessage {
    pub id: i64,
    pub message_id: String,
    pub from_user: String,
    pub to_user: String,
    pub content: String,
    pub timestamp: Timestamp,
    pub attempts: u32,
}

impl PendingMessage {
    /// The queue entry `id` for `dm`, not yet attempted.
    pub fn from_direct_message(dm: &DirectMessage, id: i64) -> (p: Self)
        ensures
            p.id == id,
            p.message_id == dm.message_id,
            p.from_user == dm.from,
            p.to_user == dm.to,
            p.content == dm.content,
            p.timestamp == dm.timestamp,
            p.attempts == 0,
    {
        PendingMessage {
            id,
            message_id: dm.message_id.clone(),
            from_user: dm.from.clone(),
            to_user: dm.to.clone(),
            content: dm.content.clone(),
            timestamp: dm.timestamp,
            attempts: 0,
        }
    }

    /// Counts one more delivery attempt.
    pub fn increment_attempts(&mut self)
        requires
            old(self).attempts < u32::MAX,
        ensures
            *final(self) == (PendingMessage { attempts: (old(self).attempts + 1) as u32, ..*old(self) }),
    {
        self.attempts = self.attempts + 1;
    }
}

/// Why a messaging operation failed.
#[derive(Clone, Debug)]
pub enum MessagingError {
    UserNotFound(String),
    UserOffline(String),
    DuplicateMessage(String),
    RateLimitExceeded(String),
    PersistenceError(String),
    DeliveryError(String),
    InternalError(String),
}

/// The text of a messaging error.
pub open spec fn messaging_error_text(e: MessagingError) -> Seq<char> {
    match e {
        MessagingError::UserNotFound(u) => "Usuário não encontrado: "@ + u@,
        MessagingError::UserOffline(u) => "Usuário offline: "@ + u@,
        MessagingError::DuplicateMessage(m) => "Mensagem duplicada: "@ + m@,
        MessagingError::RateLimitExceeded(u) => "Limite de taxa excedido para usuário: "@ + u@,
        MessagingError::PersistenceError(m) => "Erro de persistência: "@ + m@,
        MessagingError::DeliveryError(m) => "Erro de entrega: "@ + m@,
        MessagingError::InternalError(m) => "Erro interno: "@ + m@,
    }
}

impl MessagingError {
    /// The text of the error.
    pub fn message(&self) -> (s: String)
        ensures
            s@ == messaging_error_text(*self),
    {
        match self {
            MessagingError::UserNotFound(u) => concat2("Usuário não encontrado: ", u.as_str()),
            MessagingError::UserOffline(u) => concat2("Usuário offline: ", u.as_str()),
            MessagingError::DuplicateMessage(m) => concat2("Mensagem duplicada: ", m.as_str()),
            MessagingError::RateLimitExceeded(u) => concat2("Limite de taxa excedido para usuário: ", u.as_str()),
            MessagingError::PersistenceError(m) => concat2("Erro de persistência: ", m.as_str()),
            MessagingError::DeliveryError(m) => concat2("Erro de entrega: ", m.as_str()),
            MessagingError::InternalError(m) => concat2("Erro interno: ", m.as_str()),
        }
    }
}

/// Where direct messages are kept.
pub trait MessageRepository {
    fn save(&self, message: &DirectMessage) -> Result<(), MessagingError>;

    fn find_between_users(&self, user1: &str, user2: &str, limit: usize) -> Result<Vec<DirectMessage>, MessagingError>;

    fn mark_delivered(&self, message_id: &str) -> Result<(), MessagingError>;

    fn mark_read(&self, message_id: &str) -> Result<(), MessagingError>;
}

/// Where messages wait for offline users.
pub trait OfflineQueueRepository {
    fn enqueue(&self, message: &DirectMessage) -> Result<(), MessagingError>;

    fn get_pending(&self, username: &str) -> Result<Vec<PendingMessage>, MessagingError>;

    fn dequeue(&self, message_id: &str) -> Result<(), MessagingError>;

    fn cleanup_old(&self, days: u32) -> Result<usize, MessagingError>;
}

/// Who is online.
pub trait UserPresenceService {
    fn is_online(&self, username: &str) -> bool;
}

/// Presence as the chat state knows it: a user is online while connected.
pub struct ChatStatePresenceAdapter<'a> {
    pub state: &'a ChatState,
}

impl<'a> ChatStatePresenceAdapter<'a> {
    /// The adapter over `state`.
    pub fn new(state: &'a ChatState) -> (a: Self)
        ensures
            a.state == state,
    {
        ChatStatePresenceAdapter { state }
    }
}

impl<'a> UserPresenceService for ChatStatePresenceAdapter<'a> {
    fn is_online(&self, username: &str) -> (b: bool)
        ensures
            b == self.state.clients_map().contains_key(username@),
    {
        self.state.get_client_tx(username).is_some()
    }
}

/// How a direct message was handled.
#[derive(Clone, Copy, Debug, PartialEq, Eq, Structural)]
pub enum DeliveryStatus {
    Delivered,
    Queued,
}

/// Sending direct messages.
pub struct SendDirectMessage<M: MessageRepository, O: OfflineQueueRepository, P: UserPresenceService> {
    pub message_repo: M,
    pub offline_queue: O,
    pub presence: P,
}

impl<M: MessageRepository, O: OfflineQueueRepository, P: UserPresenceService> SendDirectMessage<M, O, P> {
    /// The use case over the stores and the presence service.
    pub fn new(message_repo: M, offline_queue: O, presence: P) -> (r: Self)
        ensures
            r.message_repo == message_repo,
            r.offline_queue == offline_queue,
            r.presence == presence,
    {
        SendDirectMessage { message_repo, offline_queue, presence }
    }

    /// Stores the message; an online recipient has it delivered, an offline
    /// one has it queued. A store error is passed on.
    pub fn execute(&self, message: DirectMessage) -> (r: Result<DeliveryStatus, MessagingError>) {
        match self.message_repo.save(&message) {
            Err(e) => return Err(e),
            Ok(()) => {},
        }
        let online = self.presence.is_online(message.to.as_str());
        let queued = if online {
            None
        } else {
            Some(self.offline_queue.enqueue(&message))
        };
        Self::status(online, queued)
    }

    /// How a stored message was handled, given whether its recipient is
    /// online and, for an offline one, what the queue answered: delivered to
    /// an online recipient, queued for an offline one, or the queue's error.
    pub fn status(online: bool, queued: Option<Result<(), MessagingError>>) -> (r: Result<DeliveryStatus, MessagingError>)
        ensures
            online ==> r == Ok::<DeliveryStatus, MessagingError>(DeliveryStatus::Delivered),
            !online ==> match queued {
                Some(Err(e)) => r == Err::<DeliveryStatus, MessagingError>(e),
                _ => r == Ok::<DeliveryStatus, MessagingError>(DeliveryStatus::Queued),
            },
    {
        if online {
            Ok(DeliveryStatus::Delivered)
        } else {
            match queued {
                Some(Err(e)) => Err(e),
                _ => Ok(DeliveryStatus::Queued),
            }
        }
    }
}

/// Handing out queued messages.
pub struct DeliverPendingMessages<O: OfflineQueueRepository> {
    pub offline_queue: O,
}

impl<O: OfflineQueueRepository> DeliverPendingMessages<O> {
    /// The use case over the offline queue.
    pub fn new(offline_queue: O) -> (r: Self)
        ensures
            r.offline_queue == offline_queue,
    {
        DeliverPendingMessages { offline_queue }
    }

    /// The messages waiting for `username`, as the queue gives them.
    pub fn execute(&self, username: &str) -> (r: Result<Vec<PendingMessage>, MessagingError>) {
        self.offline_queue.get_pending(username)
    }

    /// Takes message `message_id` out of the queue once delivered.
    pub fn acknowledge(&self, message_id: &str) -> (r: Result<(), MessagingError>) {
        self.offline_queue.dequeue(message_id)
    }
}

/// Marking messages read.
pub struct MarkMessageAsRead<M: MessageRepository> {
    pub message_repo: M,
}

impl<M: MessageRepository> MarkMessageAsRead<M> {
    /// The use case over the message store.
    pub fn new(message_repo: M) -> (r: Self)
        ensures
            r.message_repo == message_repo,
    {
        MarkMessageAsRead { message_repo }
    }

    /// Marks message `message_id` read in the store.
    pub fn execute(&self, message_id: &str) -> (r: Result<(), MessagingError>) {
        self.message_repo.mark_read(message_id)
    }
}

} // verus!
