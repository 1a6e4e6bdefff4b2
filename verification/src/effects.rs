//! What the chat logic asks the application around it to do: send
//! messages to connections, write to the database, fetch history, run a
//! search, deliver queued messages, and count events.

use vstd::prelude::*;

use crate::database::{CommandView, DbCommand};
use crate::model::{ChatMessage, MessageView, PeerAddr};
use crate::collections::lists_set;
use crate::state::lists_targets;

verus! {

/// A server counter that an event moves up by one.
#[derive(Clone, Copy, Debug, PartialEq, Eq, Structural)]
pub enum Tally {
    SendFull,
    MessagesSent,
    PrivateMessages,
    RoomMessages,
    MessagesDelivered,
    MessagesQueued,
    OfflineMessagesDelivered,
    QueueFull,
    Logins,
    Registrations,
    Logouts,
    RoomJoins,
    RoomLeaves,
}

/// One thing the application must do on behalf of the chat logic.
#[derive(Clone, Debug)]
pub enum Effect {
    /// Send `msg` to the connection at `to`, waiting for room in its queue.
    Send { to: PeerAddr, msg: ChatMessage },
    /// Offer `msg` to each connection in `to` without waiting; when
    /// `count_full`, each refusal because a queue is full is counted.
    Offer { to: Vec<PeerAddr>, msg: ChatMessage, count_full: bool },
    /// Send a direct message `msg` to `to`; when it is taken, count it as
    /// delivered and send `on_ok` to `sender`, otherwise send `on_err` to
    /// `sender` (when the sender is connected).
    Deliver { to: PeerAddr, msg: ChatMessage, sender: Option<PeerAddr>, on_ok: ChatMessage, on_err: ChatMessage },
    /// Perform a database write; its outcome is ignored.
    Store(DbCommand),
    /// Fetch up to `limit` stored messages of `user` (with `other` only,
    /// when given) and send the reply to `user`.
    History { user: String, other: Option<String>, limit: usize },
    /// Run a full-text search for `user` and send the reply to `user`.
    Search { user: String, query: String, limit: usize, user_filter: Option<String> },
    /// Deliver the messages that wait for `user`.
    FlushPending { user: String },
    /// Count one event.
    Count(Tally),
    /// Set the gauge of connected users.
    UsersOnline(i64),
}

/// What an effect must be, stated over names of users where the addresses
/// are looked up at the end of the request.
pub enum Plan {
    Send { to: PeerAddr, msg: MessageView },
    /// Send the list of the users in `users`, each once, in some order.
    SendList { to: PeerAddr, users: Set<Seq<char>> },
    /// Offer `msg` to the connections of the users in `users`, each once.
    Offer { users: Set<Seq<char>>, msg: MessageView, count_full: bool },
    Deliver { to: PeerAddr, msg: MessageView, sender: Option<PeerAddr>, on_ok: MessageView, on_err: MessageView },
    Store(CommandView),
    History { user: Seq<char>, other: Option<Seq<char>>, limit: usize },
    Search { user: Seq<char>, query: Seq<char>, limit: usize, user_filter: Option<Seq<char>> },
    FlushPending { user: Seq<char> },
    Count(Tally),
    UsersOnline(i64),
}

/// `e` carries out `p`, with user addresses taken from `clients`.
pub open spec fn realizes(e: Effect, p: Plan, clients: Map<Seq<char>, PeerAddr>) -> bool {
    match (e, p) {
        (Effect::Send { to, msg }, Plan::Send { to: t, msg: m }) => to == t && msg@ == m,
        (Effect::Send { to, msg }, Plan::SendList { to: t, users }) => to == t && (msg matches ChatMessage::ListResponse {
            users: v,
        } && lists_set(v@, users)),
        (Effect::Offer { to, msg, count_full }, Plan::Offer { users, msg: m, count_full: c }) =>
            lists_targets(to@, clients, users) && msg@ == m && count_full == c,
        (
            Effect::Deliver { to, msg, sender, on_ok, on_err },
            Plan::Deliver { to: t, msg: m, sender: s, on_ok: ok, on_err: err },
        ) => to == t && msg@ == m && sender == s && on_ok@ == ok && on_err@ == err,
        (Effect::Store(c), Plan::Store(v)) => c@ == v,
        (Effect::History { user, other, limit }, Plan::History { user: u, other: o, limit: l }) =>
            user@ == u && crate::model::opt_view(other) == o && limit == l,
        (
            Effect::Search { user, query, limit, user_filter },
            Plan::Search { user: u, query: q, limit: l, user_filter: f },
        ) => user@ == u && query@ == q && limit == l && crate::model::opt_view(user_filter) == f,
        (Effect::FlushPending { user }, Plan::FlushPending { user: u }) => user@ == u,
        (Effect::Count(t), Plan::Count(u)) => t == u,
        (Effect::UsersOnline(n), Plan::UsersOnline(m)) => n == m,
        _ => false,
    }
}

/// `es` carries out `ps`, one effect per step, in order.
pub open spec fn realizes_all(es: Seq<Effect>, ps: Seq<Plan>, clients: Map<Seq<char>, PeerAddr>) -> bool {
    es.len() == ps.len() && forall|i: int| 0 <= i < es.len() ==> #[trigger] realizes(es[i], ps[i], clients)
}

/// Carrying out two lists one after the other carries out their
/// concatenation.
pub proof fn lemma_realizes_concat(
    a: Seq<Effect>,
    p: Seq<Plan>,
    b: Seq<Effect>,
    q: Seq<Plan>,
    clients: Map<Seq<char>, PeerAddr>,
)
    requires
        realizes_all(a, p, clients),
        realizes_all(b, q, clients),
    ensures
        realizes_all(a + b, p + q, clients),
{
    assert forall|i: int| 0 <= i < (a + b).len() implies #[trigger] realizes((a + b)[i], (p + q)[i], clients) by {
        if i < a.len() {
            assert(realizes(a[i], p[i], clients));
        } else {
            assert(realizes(b[i - a.len()], q[i - a.len()], clients));
        }
    }
}

} // verus!
