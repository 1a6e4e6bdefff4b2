//! The chat logic: what the server does with each message it receives,
//! with a login or registration attempt, and with a disconnection.
//!
//! Every handler decides from the server state and the database answers
//! gathered so far. When it needs an answer it does not have yet, it
//! changes nothing and returns the question; the caller asks the database,
//! records the answer in `DbAnswers` and calls the handler again. Otherwise
//! it updates the state and returns the effects to carry out, in order.

use vstd::prelude::*;

use crate::auth::{
    login_query, login_verdict, register_view, registration_outcome, session_user, sessions_after_check,
    sessions_without_user, AuthManager,
};
use crate::clock::{now_timestamp, rfc3339, rfc3339_of};
use crate::database::{CommandView, DbAnswers, DbCommand, MessageType, ModerationLog, Query, QueryView};
use crate::effects::{lemma_realizes_concat, realizes, realizes_all, Effect, Plan, Tally};
use crate::model::{
    ack, clone_opt, opt_view, AckKind, ChatAction, ChatMessage, MessageView, PeerAddr, Timestamp,
};
use crate::state::{
    id_dup, joined, lookup, marked, parted, rate_ok, rated, user_at, username_verdict, with_client, without_user,
    ChatState, StateView,
};
use crate::collections::set_of;
use crate::state::lists_targets;
use crate::text::{
    concat2, concat3, concat4, concat5, contains_seq, decimal, decimal_string, join_strings, joined_with, lowercase_of, push_str,
    str_contains, to_lowercase,
};

verus! {

/// Messages a user may send per one-second window, unless configured.
pub const DEFAULT_RATE_LIMIT: u32 = 10;

/// Undelivered messages a user may have waiting, unless configured.
pub const DEFAULT_MAX_PENDING: usize = 1000;

/// Messages returned by a history request without a limit.
pub const HISTORY_LIMIT: usize = 50;

/// Hits returned by a search without a limit.
pub const SEARCH_LIMIT: usize = 50;

/// Log entries returned by a moderation log request without a limit.
pub const LOGS_LIMIT: usize = 20;

/// The content of the account manager.
pub struct AuthView {
    pub sessions: Map<Seq<char>, (Seq<char>, Timestamp)>,
    pub ttl: u64,
    pub cost: u32,
}

/// The content of the chat core.
pub struct CoreView {
    pub st: StateView,
    pub auth: Option<AuthView>,
    pub has_db: bool,
    pub rate_limit: u32,
    pub max_pending: usize,
}

/// The content of an optional account manager.
pub open spec fn auth_view(a: Option<AuthManager>) -> Option<AuthView> {
    match a {
        Some(m) => Some(AuthView { sessions: m.sessions_map(), ttl: m.ttl(), cost: m.cost() }),
        None => None,
    }
}

/// How a request ends: with a question for the database (and no change),
/// or with the effects to carry out and the new content of the core.
pub enum Outcome {
    Ask(QueryView),
    Done(Seq<Plan>, CoreView),
}

/// A handler that went from `pre` to `post` and returned `r` did what
/// outcome `o` says.
pub open spec fn achieves(pre: CoreView, post: CoreView, r: Result<Vec<Effect>, Query>, o: Outcome) -> bool {
    match o {
        Outcome::Ask(q) => (r matches Err(x) && x@ == q) && post == pre,
        Outcome::Done(p, m) => (r matches Ok(es) && realizes_all(es@, p, m.st.clients)) && post == m,
    }
}

/// `c` with the server state replaced.
pub open spec fn with_st(c: CoreView, st: StateView) -> CoreView {
    CoreView { st, ..c }
}

/// `c` with the open sessions replaced (when there is an account manager).
pub open spec fn with_sessions(c: CoreView, s: Map<Seq<char>, (Seq<char>, Timestamp)>) -> CoreView {
    CoreView {
        auth: match c.auth {
            Some(a) => Some(AuthView { sessions: s, ..a }),
            None => None,
        },
        ..c
    }
}

/// A message to user `u`, if connected.
pub open spec fn reply(clients: Map<Seq<char>, PeerAddr>, u: Seq<char>, m: MessageView) -> Seq<Plan> {
    if clients.contains_key(u) {
        seq![Plan::Send { to: clients[u], msg: m }]
    } else {
        Seq::empty()
    }
}

/// A failure acknowledgement.
pub open spec fn failed(info: Seq<char>) -> MessageView {
    ack(AckKind::Failed, info)
}

/// A system acknowledgement.
pub open spec fn system(info: Seq<char>) -> MessageView {
    ack(AckKind::System, info)
}

/// The text of a rate-limit refusal.
pub open spec fn limit_text(limit: u32) -> Seq<char> {
    "Limite de mensagens excedido ("@ + decimal(limit as nat) + " msg/s)."@
}

/// The refusal sent to `u` when the rate limiter stops a request.
pub open spec fn refusal(clients: Map<Seq<char>, PeerAddr>, u: Seq<char>, limit: u32, mid: Option<Seq<char>>) -> Seq<Plan> {
    reply(clients, u, MessageView::Ack { kind: AckKind::Failed, info: limit_text(limit), message_id: mid })
}

/// A public message from `from` to everyone connected: counted, stored
/// when there is a database, and offered to every connection.
pub open spec fn broadcast_plan(c: CoreView, from: Seq<char>, content: Seq<char>, ts: Timestamp) -> Seq<Plan> {
    seq![Plan::Count(Tally::MessagesSent), Plan::Count(Tally::RoomMessages)] + (if c.has_db {
        seq![
            Plan::Store(
                CommandView::InsertMessage {
                    from_user: from,
                    to_user: None,
                    room: None,
                    content,
                    timestamp: ts,
                    message_id: None,
                    message_type: MessageType::Broadcast,
                    delivered: false,
                },
            ),
        ]
    } else {
        Seq::empty()
    }) + seq![
        Plan::Offer {
            users: c.st.clients.dom(),
            msg: MessageView::Text { from, content, timestamp: ts },
            count_full: true,
        },
    ]
}

/// A direct message stored in the database, when there is one.
pub open spec fn dm_stored(
    c: CoreView,
    from: Seq<char>,
    to: Seq<char>,
    content: Seq<char>,
    ts: Timestamp,
    mid: Option<Seq<char>>,
    delivered: bool,
) -> Seq<Plan> {
    if c.has_db {
        seq![
            Plan::Store(
                CommandView::InsertMessage {
                    from_user: from,
                    to_user: Some(to),
                    room: None,
                    content,
                    timestamp: ts,
                    message_id: mid,
                    message_type: MessageType::Private,
                    delivered,
                },
            ),
        ]
    } else {
        Seq::empty()
    }
}

/// The effects of a direct message from `from` to `to`, or the question to
/// ask first: a repeated message id (`dup`) is acknowledged as already
/// delivered; an online recipient gets it at once; an unknown recipient is
/// reported; an offline recipient whose inbox is full is reported as a
/// failure carrying the message id;
/// otherwise it is kept for later delivery and the sender is told so. The
/// message is counted in every case.
pub open spec fn private_plan(
    c: CoreView,
    from: Seq<char>,
    to: Seq<char>,
    content: Seq<char>,
    ts: Timestamp,
    mid: Option<Seq<char>>,
    dup: bool,
    a: DbAnswers,
) -> Result<Seq<Plan>, QueryView> {
    let cl = c.st.clients;
    let head = seq![Plan::Count(Tally::MessagesSent), Plan::Count(Tally::PrivateMessages)];
    let queued = head + dm_stored(c, from, to, content, ts, mid, false) + seq![Plan::Count(Tally::MessagesQueued)]
        + reply(
        cl,
        from,
        MessageView::Ack {
            kind: AckKind::Received,
            info: "Mensagem para "@ + to + " será entregue quando voltar online."@,
            message_id: mid,
        },
    );
    let known: Option<bool> = if c.auth is Some {
        a.user_exists
    } else {
        Some(false)
    };
    if dup {
        Ok(
            head + reply(
                cl,
                from,
                MessageView::Ack { kind: AckKind::Delivered, info: "DM para "@ + to + " já entregue (dedup)."@, message_id: mid },
            ),
        )
    } else if cl.contains_key(to) {
        Ok(
            head + dm_stored(c, from, to, content, ts, mid, true) + seq![
                Plan::Deliver {
                    to: cl[to],
                    msg: MessageView::Private { from, to, content, timestamp: ts, message_id: mid },
                    sender: lookup(cl, from),
                    on_ok: MessageView::Ack { kind: AckKind::Delivered, info: "DM para "@ + to + " entregue."@, message_id: mid },
                    on_err: MessageView::Ack { kind: AckKind::Failed, info: "Falha ao entregar DM para "@ + to + "."@, message_id: mid },
                },
            ],
        )
    } else {
        match known {
            None => Err(QueryView::UserExists { username: to }),
            Some(false) => Ok(head + reply(cl, from, MessageView::Error("Usuário '"@ + to + "' não encontrado."@))),
            Some(true) => if c.has_db {
                match a.pending {
                    None => Err(QueryView::Pending { username: to }),
                    Some(Ok(k)) => if k >= c.max_pending {
                        Ok(
                            head + seq![Plan::Count(Tally::QueueFull)] + reply(
                                cl,
                                from,
                                MessageView::Ack {
                                    kind: AckKind::Failed,
                                    info: "Caixa de entrada de '"@ + to + "' cheia ("@ + decimal(k as nat) + "/"@ + decimal(
                                        c.max_pending as nat,
                                    ) + " mensagens). Tente mais tarde."@,
                                    message_id: mid,
                                },
                            ),
                        )
                    } else {
                        Ok(queued)
                    },
                    Some(Err(_)) => Ok(queued),
                }
            } else {
                Ok(queued)
            },
        }
    }
}

/// A direct message from `from` to `to`, at `now_ns` (see `private_plan`);
/// a message id is remembered for duplicate detection.
pub open spec fn private_outcome(
    c: CoreView,
    from: Seq<char>,
    to: Seq<char>,
    content: Seq<char>,
    ts: Timestamp,
    mid: Option<Seq<char>>,
    now_ns: u64,
    a: DbAnswers,
) -> Outcome {
    let dup = match mid {
        Some(id) => id_dup(c.st, id, now_ns),
        None => false,
    };
    let c2 = match mid {
        Some(id) => with_st(c, marked(c.st, id, now_ns)),
        None => c,
    };
    match private_plan(c, from, to, content, ts, mid, dup, a) {
        Ok(p) => Outcome::Done(p, c2),
        Err(q) => Outcome::Ask(q),
    }
}

/// The outcome of a request of `u` that the rate limiter checks first.
pub open spec fn rate_checked(c: CoreView, u: Seq<char>, now_ns: u64, mid: Option<Seq<char>>, then: Outcome) -> Outcome {
    if rate_ok(c.st, u, c.rate_limit, now_ns) {
        then
    } else {
        Outcome::Done(refusal(c.st.clients, u, c.rate_limit, mid), with_st(c, rated(c.st, u, c.rate_limit, now_ns)))
    }
}

/// `c` after the rate limiter counted a request of `u`.
pub open spec fn counted(c: CoreView, u: Seq<char>, now_ns: u64) -> CoreView {
    with_st(c, rated(c.st, u, c.rate_limit, now_ns))
}

/// A room message from `u`: offered to the room's connected members when
/// `u` has joined the room, refused otherwise.
pub open spec fn room_text_outcome(c: CoreView, u: Seq<char>, room: Seq<char>, content: Seq<char>, ts: Timestamp) -> Outcome {
    if set_of(c.st.subs, u).contains(room) {
        Outcome::Done(
            seq![
                Plan::Offer {
                    users: set_of(c.st.rooms, room).intersect(c.st.clients.dom()),
                    msg: MessageView::RoomText { from: u, room, content, timestamp: ts },
                    count_full: true,
                },
            ],
            c,
        )
    } else {
        Outcome::Done(
            reply(c.st.clients, u, failed("Você precisa entrar na sala "@ + room + " para enviar mensagens."@)),
            c,
        )
    }
}

/// `u` joins `room` and is told so; the join is counted when `tally`.
pub open spec fn join_outcome(c: CoreView, u: Seq<char>, room: Seq<char>, tally: bool) -> Outcome {
    let c2 = with_st(c, joined(c.st, u, room));
    Outcome::Done(
        (if tally { seq![Plan::Count(Tally::RoomJoins)] } else { Seq::empty() }) + reply(
            c2.st.clients,
            u,
            system("Entrou na sala "@ + room),
        ),
        c2,
    )
}

/// `u` leaves `room` and is told so; the leave is counted when `tally`.
pub open spec fn leave_outcome(c: CoreView, u: Seq<char>, room: Seq<char>, tally: bool) -> Outcome {
    let c2 = with_st(c, parted(c.st, u, room));
    Outcome::Done(
        (if tally { seq![Plan::Count(Tally::RoomLeaves)] } else { Seq::empty() }) + reply(
            c2.st.clients,
            u,
            system("Saiu da sala "@ + room),
        ),
        c2,
    )
}

/// The list of connected users, sent to `u`.
pub open spec fn list_outcome(c: CoreView, u: Seq<char>) -> Outcome {
    Outcome::Done(
        if c.st.clients.contains_key(u) {
            seq![Plan::SendList { to: c.st.clients[u], users: c.st.clients.dom() }]
        } else {
            Seq::empty()
        },
        c,
    )
}

/// A read receipt: every connected user but the reader is told.
pub open spec fn receipt_outcome(c: CoreView, message_id: Seq<char>, reader: Seq<char>) -> Outcome {
    Outcome::Done(
        seq![
            Plan::Offer {
                users: c.st.clients.dom().remove(reader),
                msg: MessageView::Ack {
                    kind: AckKind::Read,
                    info: reader + " leu sua mensagem"@,
                    message_id: Some(message_id),
                },
                count_full: false,
            },
        ],
        c,
    )
}

/// A typing indicator: passed on to every connected user but `user`.
pub open spec fn typing_outcome(c: CoreView, user: Seq<char>, typing: bool) -> Outcome {
    Outcome::Done(
        seq![
            Plan::Offer {
                users: c.st.clients.dom().remove(user),
                msg: MessageView::Typing { user, typing },
                count_full: false,
            },
        ],
        c,
    )
}

/// The error sent when a database is needed and there is none.
pub open spec fn no_db_text() -> Seq<char> {
    "Banco de dados não disponível"@
}

/// How a moderation request of `user` is refused: without a database,
/// when `user` is not an administrator, or (with nothing sent) when that
/// cannot be found out; `None` when it goes ahead.
pub open spec fn admin_refusal(c: CoreView, user: Seq<char>, a: DbAnswers) -> Option<Outcome> {
    if !c.has_db {
        Some(Outcome::Done(reply(c.st.clients, user, MessageView::Error(no_db_text())), c))
    } else {
        match a.admin {
            None => Some(Outcome::Ask(QueryView::Admin { username: user })),
            Some(Err(_)) => Some(Outcome::Done(Seq::empty(), c)),
            Some(Ok(false)) => Some(Outcome::Done(reply(c.st.clients, user, failed("❌ Sem permissão (requer admin)"@)), c)),
            Some(Ok(true)) => None,
        }
    }
}

/// A moderation request of `user`: refused as `admin_refusal` says, `then`
/// otherwise.
pub open spec fn admin_gate(c: CoreView, user: Seq<char>, a: DbAnswers, then: Outcome) -> Outcome {
    match admin_refusal(c, user, a) {
        Some(o) => o,
        None => then,
    }
}

/// How a moderation request naming `target` is refused: with an account
/// manager, when `target` is not a registered user; `None` otherwise.
pub open spec fn target_refusal(c: CoreView, user: Seq<char>, target: Seq<char>, a: DbAnswers) -> Option<Outcome> {
    if c.auth is Some {
        match a.user_exists {
            None => Some(Outcome::Ask(QueryView::UserExists { username: target })),
            Some(false) => Some(
                Outcome::Done(reply(c.st.clients, user, MessageView::Error("Usuário '"@ + target + "' não existe"@)), c),
            ),
            Some(true) => None,
        }
    } else {
        None
    }
}

/// A moderation request naming `target`: refused as `target_refusal` says,
/// `then` otherwise.
pub open spec fn target_gate(c: CoreView, user: Seq<char>, target: Seq<char>, a: DbAnswers, then: Outcome) -> Outcome {
    match target_refusal(c, user, target, a) {
        Some(o) => o,
        None => then,
    }
}

/// A moderation log entry.
pub open spec fn log_entry(
    action: Seq<char>,
    moderator: Seq<char>,
    target: Seq<char>,
    reason: Option<Seq<char>>,
    details: Option<Seq<char>>,
) -> Plan {
    Plan::Store(CommandView::LogModeration { action, moderator, target_user: target, reason, details })
}

/// The details logged for a timed measure.
pub open spec fn duration_text(d: u64) -> Seq<char> {
    "duração: "@ + decimal(d as nat) + "s"@
}

/// How long a ban lasts, in words.
pub open spec fn ban_span(d: u64) -> Seq<char> {
    if d > 0 {
        decimal(d as nat) + " segundos"@
    } else {
        "permanente"@
    }
}

/// The list of administrators, in words.
pub open spec fn admins_text(names: Seq<Seq<char>>) -> Seq<char> {
    if names.len() == 0 {
        "Nenhum admin cadastrado"@
    } else {
        "👮 Admins ("@ + decimal(names.len()) + "): "@ + joined_with(names, ", "@)
    }
}

/// One line of the moderation log.
pub open spec fn log_line(l: ModerationLog) -> Seq<char> {
    "["@ + l.timestamp@ + "] "@ + l.moderator@ + " → "@ + l.target_user@ + " ("@ + l.action@ + "): "@ + match l.reason {
        Some(r) => r@,
        None => match l.details {
            Some(d) => d@,
            None => Seq::empty(),
        },
    } + "\n"@
}

/// The lines of the moderation log, in order.
pub open spec fn log_lines(logs: Seq<ModerationLog>) -> Seq<char>
    decreases logs.len(),
{
    if logs.len() == 0 {
        Seq::empty()
    } else {
        log_lines(logs.drop_last()) + log_line(logs.last())
    }
}

/// The moderation log, in words.
pub open spec fn logs_text(logs: Seq<ModerationLog>) -> Seq<char> {
    if logs.len() == 0 {
        "Nenhum log de moderação"@
    } else {
        "📋 Logs de Moderação (últimos "@ + decimal(logs.len()) + "):\n"@ + log_lines(logs)
    }
}

/// The RFC 3339 text of `t`, empty when chrono cannot write it.
pub open spec fn rfc_text(t: Timestamp) -> Seq<char> {
    match rfc3339_of(t) {
        Some(s) => s,
        None => Seq::empty(),
    }
}

/// The requests that skip the check for muted users.
pub open spec fn is_staff_action(act: ChatAction) -> bool {
    act is AdminKick || act is AdminBan || act is AdminMute || act is AdminUnmute || act is AdminPromote
        || act is AdminDemote || act is AdminList || act is AdminLogs || act is SearchMessages || act is SendFile
}

/// A logout of `user`: counted, the gauge of connected users set to one
/// less than the connected users, every session of `user` closed, and
/// `user` told.
pub open spec fn logout_outcome(c: CoreView, user: Seq<char>) -> Outcome {
    let cl = c.st.clients;
    let c2 = match c.auth {
        Some(av) => with_sessions(c, sessions_without_user(av.sessions, user)),
        None => c,
    };
    Outcome::Done(
        seq![
            Plan::Count(Tally::Logouts),
            Plan::UsersOnline((if cl.dom().len() > 0 { cl.dom().len() - 1 } else { 0 }) as i64),
        ] + reply(cl, user, system("Logout realizado"@)),
        c2,
    )
}

/// `target` is expelled by `user`: logged, disconnected, and `user` is
/// told.
pub open spec fn kick_outcome(c: CoreView, user: Seq<char>, target: Seq<char>, reason: Seq<char>) -> Outcome {
    let c2 = with_st(c, without_user(c.st, target));
    Outcome::Done(
        seq![log_entry("kick"@, user, target, Some(reason), None)] + reply(
            c2.st.clients,
            user,
            system("✅ "@ + target + " foi expulso: "@ + reason),
        ) + reply(c2.st.clients, target, failed("Você foi expulso por "@ + user + ": "@ + reason)),
        c2,
    )
}

/// `target` is banned by `user` for `d` seconds (for good when `d` is 0):
/// stored, logged, disconnected, and `user` is told.
pub open spec fn ban_outcome(c: CoreView, user: Seq<char>, target: Seq<char>, d: u64, reason: Seq<char>) -> Outcome {
    let c2 = with_st(c, without_user(c.st, target));
    Outcome::Done(
        seq![
            Plan::Store(
                CommandView::BanUser {
                    username: target,
                    banned_by: user,
                    reason,
                    duration_secs: if d > 0 {
                        Some(d)
                    } else {
                        None
                    },
                },
            ),
            log_entry("ban"@, user, target, Some(reason), Some(duration_text(d))),
        ] + reply(c2.st.clients, user, system("✅ "@ + target + " foi banido por "@ + ban_span(d) + ": "@ + reason)),
        c2,
    )
}

/// `target` is muted by `user` for `d` seconds: stored, logged, and both
/// are told.
pub open spec fn mute_outcome(c: CoreView, user: Seq<char>, target: Seq<char>, d: u64) -> Outcome {
    let cl = c.st.clients;
    Outcome::Done(
        seq![
            Plan::Store(CommandView::MuteUser { username: target, muted_by: user, duration_secs: d }),
            log_entry("mute"@, user, target, None, Some(duration_text(d))),
        ] + reply(cl, user, system("✅ "@ + target + " foi silenciado por "@ + decimal(d as nat) + " segundos"@)) + reply(
            cl,
            target,
            system("Você foi silenciado por "@ + decimal(d as nat) + " segundos"@),
        ),
        c,
    )
}

/// `target` is unmuted by `user`: stored, logged, and both are told.
pub open spec fn unmute_outcome(c: CoreView, user: Seq<char>, target: Seq<char>) -> Outcome {
    let cl = c.st.clients;
    Outcome::Done(
        seq![Plan::Store(CommandView::UnmuteUser { username: target }), log_entry("unmute"@, user, target, None, None)]
            + reply(cl, user, system("✅ "@ + target + " foi desilenciado"@)) + reply(cl, target, system("Você foi desilenciado"@)),
        c,
    )
}

/// `target` is made an administrator by `user`: stored, logged, and both
/// are told.
pub open spec fn promote_outcome(c: CoreView, user: Seq<char>, target: Seq<char>) -> Outcome {
    let cl = c.st.clients;
    Outcome::Done(
        seq![
            Plan::Store(CommandView::PromoteAdmin { username: target, promoted_by: user }),
            log_entry("promote"@, user, target, None, None),
        ] + reply(cl, user, system("✅ "@ + target + " foi promovido a admin"@)) + reply(
            cl,
            target,
            system("🎉 Você foi promovido a admin!"@),
        ),
        c,
    )
}

/// `target` stops being an administrator: stored, logged, and both are
/// told.
pub open spec fn demote_outcome(c: CoreView, user: Seq<char>, target: Seq<char>) -> Outcome {
    let cl = c.st.clients;
    Outcome::Done(
        seq![Plan::Store(CommandView::DemoteAdmin { username: target }), log_entry("demote"@, user, target, None, None)]
            + reply(cl, user, system("✅ "@ + target + " perdeu status de admin"@)) + reply(
            cl,
            target,
            system("Você perdeu status de admin"@),
        ),
        c,
    )
}

/// The list of administrators, sent to `user` (the admin check comes first,
/// in `action_body`).
pub open spec fn admins_outcome(c: CoreView, user: Seq<char>, a: DbAnswers) -> Outcome {
    let cl = c.st.clients;
    if !c.has_db {
        Outcome::Done(reply(cl, user, MessageView::Error(no_db_text())), c)
    } else {
        match a.admins {
            None => Outcome::Ask(QueryView::Admins),
            Some(Err(_)) => Outcome::Done(reply(cl, user, MessageView::Error("Erro ao buscar lista de admins"@)), c),
            Some(Ok(v)) => Outcome::Done(reply(cl, user, system(admins_text(v@.map_values(|x: String| x@)))), c),
        }
    }
}

/// The moderation log, sent to `user`.
pub open spec fn logs_outcome(c: CoreView, user: Seq<char>, limit: Option<usize>, a: DbAnswers) -> Outcome {
    let cl = c.st.clients;
    match a.logs {
        None => Outcome::Ask(
            QueryView::Logs {
                limit: match limit {
                    Some(l) => l,
                    None => LOGS_LIMIT,
                },
            },
        ),
        Some(Err(_)) => Outcome::Done(reply(cl, user, MessageView::Error("Erro ao buscar logs"@)), c),
        Some(Ok(v)) => Outcome::Done(reply(cl, user, system(logs_text(v@))), c),
    }
}

/// A full-text search of `user`, run against the database.
pub open spec fn search_outcome(
    c: CoreView,
    user: Seq<char>,
    query: Seq<char>,
    limit: Option<usize>,
    user_filter: Option<Seq<char>>,
) -> Outcome {
    if !c.has_db {
        Outcome::Done(reply(c.st.clients, user, MessageView::Error(no_db_text())), c)
    } else {
        Outcome::Done(
            seq![
                Plan::Search {
                    user,
                    query,
                    limit: match limit {
                        Some(l) => l,
                        None => SEARCH_LIMIT,
                    },
                    user_filter,
                },
            ],
            c,
        )
    }
}

/// A file offered by `user` to `to`: `to` is notified with a download
/// token from the database and `user` is told.
pub open spec fn file_outcome(
    c: CoreView,
    user: Seq<char>,
    from: Seq<char>,
    to: Seq<char>,
    file_id: Seq<char>,
    file_name: Seq<char>,
    file_size: u64,
    mime_type: Seq<char>,
    timestamp: Timestamp,
    a: DbAnswers,
) -> Outcome {
    let cl = c.st.clients;
    if !c.has_db {
        Outcome::Done(reply(cl, user, MessageView::Error(no_db_text())), c)
    } else {
        match a.download_token {
            None => Outcome::Ask(QueryView::DownloadToken { file_id, for_user: to, requested_by: user }),
            Some(Err(_)) => Outcome::Done(reply(cl, user, MessageView::Error("Erro ao enviar arquivo"@)), c),
            Some(Ok(token)) => Outcome::Done(
                reply(
                    cl,
                    to,
                    MessageView::FileNotification {
                        from,
                        file_id,
                        file_name,
                        file_size,
                        mime_type,
                        download_token: token@,
                        timestamp: rfc_text(timestamp),
                    },
                ) + reply(cl, user, system("✅ Arquivo '"@ + file_name + "' enviado para "@ + to)),
                c,
            ),
        }
    }
}

/// The error a refused login shows: an unknown user and a wrong password
/// are worded for the user; other errors are shown as they are.
pub open spec fn login_error_text(u: Seq<char>, e: Seq<char>) -> Seq<char> {
    if contains_seq(e, "não encontrado"@) {
        "Usuário '"@ + u + "' não encontrado"@
    } else if contains_seq(lowercase_of(e), "password incorreto"@) || contains_seq(lowercase_of(e), "senha incorreta"@) {
        "Senha incorreta para o usuário '"@ + u + "'"@
    } else {
        e
    }
}

/// A user name claimed without password from the connection at `addr`, at
/// `now`: an invalid or taken name is refused; otherwise the user is
/// connected and everyone is told.
pub open spec fn register_user_outcome(c: CoreView, u: Seq<char>, addr: PeerAddr, now: Timestamp) -> (Seq<Plan>, CoreView) {
    match username_verdict(u) {
        Err(e) => (seq![Plan::Send { to: addr, msg: MessageView::Error("Username inválido: "@ + e) }], c),
        Ok(_) => if c.st.clients.contains_key(u) {
            (seq![Plan::Send { to: addr, msg: MessageView::Error("Username '"@ + u + "' já está em uso"@) }], c)
        } else {
            let c2 = with_st(c, with_client(c.st, u, addr));
            (broadcast_plan(c2, "Sistema"@, u + " entrou na sala!"@, now), c2)
        },
    }
}

/// The effects of a successful login of `u` from `addr` under `token`:
/// counted, the gauge of connected users set, the token and a welcome sent,
/// and waiting messages delivered when there is a database.
pub open spec fn login_success_plan(c: CoreView, u: Seq<char>, addr: PeerAddr, token: Seq<char>, welcome: Seq<char>) -> Seq<Plan> {
    seq![
        Plan::Count(Tally::Logins),
        Plan::UsersOnline(c.st.clients.dom().len() as i64),
        Plan::Send { to: addr, msg: MessageView::SessionToken { token, username: u } },
        Plan::Send { to: addr, msg: system(welcome) },
    ]
}

/// `c` after `u` logged in from `addr` at `now` under `token`.
pub open spec fn logged_in(c: CoreView, u: Seq<char>, addr: PeerAddr, now: Timestamp, token: Seq<char>) -> CoreView {
    let c1 = with_st(c, with_client(c.st, u, addr));
    match c.auth {
        Some(av) => with_sessions(c1, av.sessions.insert(token, (u, now))),
        None => c1,
    }
}

/// A login attempt of `u` from `addr` at `now`, where `token` is the new
/// session's token: without an account manager, the name is simply
/// claimed; otherwise a refused login is answered with its reason, and a
/// successful one connects the user.
pub open spec fn login_outcome(
    c: CoreView,
    u: Seq<char>,
    pw: Seq<char>,
    addr: PeerAddr,
    now: Timestamp,
    a: DbAnswers,
    token: Seq<char>,
) -> Outcome {
    match c.auth {
        None => Outcome::Done(register_user_outcome(c, u, addr, now).0, register_user_outcome(c, u, addr, now).1),
        Some(av) => match login_verdict(u, pw, a) {
            None => Outcome::Ask(login_query(u, a)),
            Some(Err(m)) => Outcome::Done(seq![Plan::Send { to: addr, msg: failed(login_error_text(u, m)) }], c),
            Some(Ok(())) => Outcome::Done(
                login_success_plan(c, u, addr, token, "Login bem-sucedido"@) + (if c.has_db {
                    seq![Plan::FlushPending { user: u }]
                } else {
                    Seq::empty()
                }),
                logged_in(c, u, addr, now, token),
            ),
        },
    }
}

/// A registration of `u` from `addr` at `now`, where `reg` is what the
/// account manager answered and `token` the new session's token: refused
/// without an account manager; a refused registration is answered with its
/// reason; a successful one is counted and followed by a login.
pub open spec fn register_outcome(
    c: CoreView,
    u: Seq<char>,
    pw: Seq<char>,
    addr: PeerAddr,
    now: Timestamp,
    a: DbAnswers,
    reg: Result<Result<(), Seq<char>>, QueryView>,
    token: Seq<char>,
) -> Outcome {
    match c.auth {
        None => Outcome::Done(seq![Plan::Send { to: addr, msg: failed("Registro não suportado no servidor"@) }], c),
        Some(av) => match reg {
            Err(q) => Outcome::Ask(q),
            Ok(Err(e)) => Outcome::Done(seq![Plan::Send { to: addr, msg: failed(e) }], c),
            Ok(Ok(())) => match login_verdict(u, pw, a) {
                None => Outcome::Ask(login_query(u, a)),
                Some(Err(m)) => Outcome::Done(
                    seq![
                        Plan::Count(Tally::Registrations),
                        Plan::Send { to: addr, msg: system("Registro realizado com sucesso"@) },
                        Plan::Send { to: addr, msg: failed("Falha no login automático: "@ + m) },
                    ],
                    c,
                ),
                Some(Ok(())) => Outcome::Done(
                    seq![Plan::Count(Tally::Registrations)] + login_success_plan(
                        c,
                        u,
                        addr,
                        token,
                        "Registro realizado e login efetuado"@,
                    ),
                    logged_in(c, u, addr, now, token),
                ),
            },
        },
    }
}

/// The connection at `addr` closed at `now`, where `who` is the user
/// connected from it (if any): that user is removed and everyone left is
/// told.
pub open spec fn disconnect_outcome(c: CoreView, now: Timestamp, who: Option<Seq<char>>) -> (Seq<Plan>, CoreView) {
    match who {
        None => (Seq::empty(), c),
        Some(u) => {
            let c2 = with_st(c, without_user(c.st, u));
            (broadcast_plan(c2, "Sistema"@, u + " saiu da sala!"@, now), c2)
        },
    }
}

/// `msg` offered to `to`, if connected.
pub open spec fn direct_plan(clients: Map<Seq<char>, PeerAddr>, to: Seq<char>, msg: MessageView) -> Seq<Plan> {
    if clients.contains_key(to) {
        seq![Plan::Offer { users: set![to], msg, count_full: false }]
    } else {
        Seq::empty()
    }
}

/// What an authenticated request of `user` does once the mute check let it
/// through, at wall time `now` and monotonic time `mono_ns`.
pub open spec fn action_body(c: CoreView, user: Seq<char>, act: ChatAction, now: Timestamp, mono_ns: u64, a: DbAnswers) -> Outcome {
    let n = mono_ns;
    let cl = c.st.clients;
    match act {
        ChatAction::Text { content, timestamp, .. } => rate_checked(
            c,
            user,
            n,
            None,
            Outcome::Done(broadcast_plan(counted(c, user, n), user, content@, timestamp), counted(c, user, n)),
        ),
        ChatAction::RoomText { room, content, timestamp, .. } => rate_checked(
            c,
            user,
            n,
            None,
            room_text_outcome(counted(c, user, n), user, room@, content@, timestamp),
        ),
        ChatAction::Private { to, content, timestamp, message_id, .. } => rate_checked(
            c,
            user,
            n,
            opt_view(message_id),
            private_outcome(counted(c, user, n), user, to@, content@, timestamp, opt_view(message_id), n, a),
        ),
        ChatAction::ListRequest { .. } => rate_checked(c, user, n, None, list_outcome(counted(c, user, n), user)),
        ChatAction::HistoryRequest { to, limit, .. } => rate_checked(
            c,
            user,
            n,
            None,
            if c.has_db {
                Outcome::Done(
                    seq![
                        Plan::History {
                            user,
                            other: opt_view(to),
                            limit: match limit {
                                Some(l) => l,
                                None => HISTORY_LIMIT,
                            },
                        },
                    ],
                    counted(c, user, n),
                )
            } else {
                Outcome::Done(
                    reply(cl, user, MessageView::Error("Histórico não disponível (sem banco de dados)"@)),
                    counted(c, user, n),
                )
            },
        ),
        ChatAction::JoinRoom { room } => rate_checked(c, user, n, None, join_outcome(counted(c, user, n), user, room@, true)),
        ChatAction::LeaveRoom { room } => rate_checked(c, user, n, None, leave_outcome(counted(c, user, n), user, room@, true)),
        ChatAction::Logout { .. } => logout_outcome(c, user),
        ChatAction::ReadReceipt { message_id, reader } => receipt_outcome(c, message_id@, reader@),
        ChatAction::Typing { user: u, typing } => typing_outcome(c, u@, typing),
        ChatAction::AdminKick { target, reason } => admin_gate(
            c,
            user,
            a,
            kick_outcome(c, user, target@, reason@),
        ),
        ChatAction::AdminBan { target, duration_secs, reason } => admin_gate(
            c,
            user,
            a,
            target_gate(
                c,
                user,
                target@,
                a,
                ban_outcome(c, user, target@, duration_secs, reason@),
            ),
        ),
        ChatAction::AdminMute { target, duration_secs } => admin_gate(c, user, a, mute_outcome(c, user, target@, duration_secs)),
        ChatAction::AdminUnmute { target } => admin_gate(c, user, a, unmute_outcome(c, user, target@)),
        ChatAction::AdminPromote { target } => admin_gate(
            c,
            user,
            a,
            target_gate(c, user, target@, a, promote_outcome(c, user, target@)),
        ),
        ChatAction::AdminDemote { target } => admin_gate(c, user, a, demote_outcome(c, user, target@)),
        ChatAction::AdminList => admin_gate(c, user, a, admins_outcome(c, user, a)),
        ChatAction::AdminLogs { limit } => admin_gate(c, user, a, logs_outcome(c, user, limit, a)),
        ChatAction::SearchMessages { query, limit, user_filter } => search_outcome(c, user, query@, limit, opt_view(user_filter)),
        ChatAction::SendFile { from, to, file_id, file_name, file_size, mime_type, timestamp } => file_outcome(
            c,
            user,
            from@,
            to@,
            file_id@,
            file_name@,
            file_size,
            mime_type@,
            timestamp,
            a,
        ),
    }
}

/// What an authenticated request of `user` does: with a database, a muted
/// user may only use the moderation, search and file commands.
pub open spec fn action_outcome(c: CoreView, user: Seq<char>, act: ChatAction, now: Timestamp, mono_ns: u64, a: DbAnswers) -> Outcome {
    if !is_staff_action(act) && c.has_db {
        match a.muted {
            None => Outcome::Ask(QueryView::Muted { username: user }),
            Some(Ok(true)) => Outcome::Done(
                reply(c.st.clients, user, failed("🔇 Você está silenciado e não pode enviar mensagens"@)),
                c,
            ),
            Some(_) => action_body(c, user, act, now, mono_ns, a),
        }
    } else {
        action_body(c, user, act, now, mono_ns, a)
    }
}

/// What a message received from the connection at `addr` does, at wall
/// time `now` and monotonic time `mono_ns` (the rate limiter and duplicate
/// detection count on the latter), where `who` is the user connected from
/// `addr` (if any).
pub open spec fn message_outcome(
    c: CoreView,
    msg: ChatMessage,
    addr: PeerAddr,
    now: Timestamp,
    mono_ns: u64,
    a: DbAnswers,
    who: Option<Seq<char>>,
) -> Outcome {
    let n = mono_ns;
    let cl = c.st.clients;
    match msg {
        ChatMessage::Authenticated { token, action } => match c.auth {
            None => Outcome::Done(Seq::empty(), c),
            Some(av) => match session_user(av.sessions, token@, now, av.ttl) {
                Some(u) => action_outcome(c, u, *action, now, mono_ns, a),
                None => Outcome::Done(
                    match who {
                        Some(w) => reply(cl, w, failed("Token inválido ou expirado"@)),
                        None => Seq::empty(),
                    },
                    with_sessions(c, sessions_after_check(av.sessions, token@, now, av.ttl)),
                ),
            },
        },
        ChatMessage::JoinRoom { room } => match who {
            None => Outcome::Done(Seq::empty(), c),
            Some(u) => rate_checked(c, u, n, None, join_outcome(counted(c, u, n), u, room@, false)),
        },
        ChatMessage::LeaveRoom { room } => match who {
            None => Outcome::Done(Seq::empty(), c),
            Some(u) => rate_checked(c, u, n, None, leave_outcome(counted(c, u, n), u, room@, false)),
        },
        ChatMessage::Text { from, content, timestamp } => {
            let key = match who {
                Some(u) => u,
                None => from@,
            };
            rate_checked(
                c,
                key,
                n,
                None,
                Outcome::Done(broadcast_plan(counted(c, key, n), from@, content@, timestamp), counted(c, key, n)),
            )
        },
        ChatMessage::RoomText { room, content, timestamp, .. } => match who {
            None => Outcome::Done(Seq::empty(), c),
            Some(u) => rate_checked(c, u, n, None, room_text_outcome(counted(c, u, n), u, room@, content@, timestamp)),
        },
        ChatMessage::Private { from, to, content, timestamp, message_id } => rate_checked(
            c,
            from@,
            n,
            opt_view(message_id),
            private_outcome(counted(c, from@, n), from@, to@, content@, timestamp, opt_view(message_id), n, a),
        ),
        ChatMessage::ListRequest { from } => rate_checked(c, from@, n, None, list_outcome(counted(c, from@, n), from@)),
        ChatMessage::ReadReceipt { message_id, reader } => receipt_outcome(c, message_id@, reader@),
        ChatMessage::Typing { user, typing } => typing_outcome(c, user@, typing),
        _ => Outcome::Done(Seq::empty(), c),
    }
}

/// The text of a rate-limit refusal.
fn limit_message(limit: u32) -> (s: String)
    ensures
        s@ == limit_text(limit),
{
    let d = decimal_string(limit as u64);
    concat3("Limite de mensagens excedido (", d.as_str(), " msg/s).")
}

/// One counted event.
fn count_fx(t: Tally, Ghost(cl): Ghost<Map<Seq<char>, PeerAddr>>) -> (v: Vec<Effect>)
    ensures
        realizes_all(v@, seq![Plan::Count(t)], cl),
{
    let v = vec![Effect::Count(t)];
    proof {
        assert(realizes(v@[0], seq![Plan::Count(t)][0], cl));
    }
    v
}

/// Two counted events.
fn count2_fx(t: Tally, u: Tally, Ghost(cl): Ghost<Map<Seq<char>, PeerAddr>>) -> (v: Vec<Effect>)
    ensures
        realizes_all(v@, seq![Plan::Count(t), Plan::Count(u)], cl),
{
    let v = vec![Effect::Count(t), Effect::Count(u)];
    proof {
        assert(realizes(v@[0], seq![Plan::Count(t), Plan::Count(u)][0], cl));
        assert(realizes(v@[1], seq![Plan::Count(t), Plan::Count(u)][1], cl));
    }
    v
}

/// One database write.
fn store_fx(c: DbCommand, Ghost(cl): Ghost<Map<Seq<char>, PeerAddr>>) -> (v: Vec<Effect>)
    ensures
        realizes_all(v@, seq![Plan::Store(c@)], cl),
{
    let ghost cv = c@;
    let v = vec![Effect::Store(c)];
    proof {
        assert(realizes(v@[0], seq![Plan::Store(cv)][0], cl));
    }
    v
}

/// `a` followed by `b`.
fn chain(
    a: Vec<Effect>,
    b: Vec<Effect>,
    Ghost(p): Ghost<Seq<Plan>>,
    Ghost(q): Ghost<Seq<Plan>>,
    Ghost(cl): Ghost<Map<Seq<char>, PeerAddr>>,
) -> (r: Vec<Effect>)
    requires
        realizes_all(a@, p, cl),
        realizes_all(b@, q, cl),
    ensures
        realizes_all(r@, p + q, cl),
{
    let mut a = a;
    let mut b = b;
    let ghost a0 = a@;
    let ghost b0 = b@;
    a.append(&mut b);
    proof {
        lemma_realizes_concat(a0, p, b0, q, cl);
    }
    a
}

/// The content of `e` built from its parts: the view of a string taken as
/// an option.
fn some_string(s: &str) -> (r: Option<String>)
    ensures
        opt_view(r) == Some(s@),
{
    Some(s.to_owned())
}

/// The chat logic with the server state, the account manager (when logins
/// are checked) and whether a database is present.
pub struct ChatCore {
    pub state: ChatState,
    pub auth: Option<AuthManager>,
    pub has_db: bool,
    /// messages a user may send per one-second window
    pub rate_limit: u32,
    /// undelivered messages a user may have waiting
    pub max_pending: usize,
}

impl ChatCore {
    /// The content of the core.
    pub open spec fn model(&self) -> CoreView {
        CoreView {
            st: self.state.model(),
            auth: auth_view(self.auth),
            has_db: self.has_db,
            rate_limit: self.rate_limit,
            max_pending: self.max_pending,
        }
    }

    /// The core's invariant: the state's.
    pub open spec fn wf(&self) -> bool {
        self.state.wf()
    }

    /// A core without accounts or database, with the default limits.
    pub fn new(state: ChatState) -> (c: Self)
        ensures
            c.state == state,
            c.auth is None,
            !c.has_db,
            c.rate_limit == DEFAULT_RATE_LIMIT,
            c.max_pending == DEFAULT_MAX_PENDING,
    {
        ChatCore { state, auth: None, has_db: false, rate_limit: DEFAULT_RATE_LIMIT, max_pending: DEFAULT_MAX_PENDING }
    }

    /// A core that checks logins with `auth`, without database.
    pub fn new_with_auth(state: ChatState, auth: AuthManager) -> (c: Self)
        ensures
            c.state == state,
            c.auth == Some(auth),
            !c.has_db,
            c.rate_limit == DEFAULT_RATE_LIMIT,
            c.max_pending == DEFAULT_MAX_PENDING,
    {
        ChatCore { state, auth: Some(auth), has_db: false, rate_limit: DEFAULT_RATE_LIMIT, max_pending: DEFAULT_MAX_PENDING }
    }

    /// A core that checks logins with `auth` and keeps messages, accounts
    /// and moderation data in a database.
    pub fn new_with_auth_and_db(state: ChatState, auth: AuthManager) -> (c: Self)
        ensures
            c.state == state,
            c.auth == Some(auth),
            c.has_db,
            c.rate_limit == DEFAULT_RATE_LIMIT,
            c.max_pending == DEFAULT_MAX_PENDING,
    {
        ChatCore { state, auth: Some(auth), has_db: true, rate_limit: DEFAULT_RATE_LIMIT, max_pending: DEFAULT_MAX_PENDING }
    }

    /// The same core with other limits.
    pub fn with_limits(self, rate_limit: u32, max_pending: usize) -> (c: Self)
        ensures
            c.state == self.state,
            c.auth == self.auth,
            c.has_db == self.has_db,
            c.rate_limit == rate_limit,
            c.max_pending == max_pending,
    {
        ChatCore { rate_limit, max_pending, ..self }
    }

    /// The name of a user connected from `addr`, if any.
    pub fn username_by_addr(&self, addr: &PeerAddr) -> (r: Option<String>)
        ensures
            user_at(self.state.clients_map(), *addr, opt_view(r)),
    {
        self.state.username_by_addr(addr)
    }

    /// A message to `u`, if connected.
    fn reply_fx(&self, u: &str, m: ChatMessage) -> (v: Vec<Effect>)
        ensures
            realizes_all(v@, reply(self.state.clients_map(), u@, m@), self.state.clients_map()),
    {
        let ghost mv = m@;
        let mut v: Vec<Effect> = Vec::new();
        match self.state.get_client_tx(u) {
            Some(a) => {
                v.push(Effect::Send { to: a, msg: m });
                proof {
                    assert(realizes(v@[0], reply(self.state.clients_map(), u@, mv)[0], self.state.clients_map()));
                }
            },
            None => {},
        }
        v
    }

    /// A typing indicator, passed on to everyone but `user`.
    fn typing_flow(&self, user: &str, typing: bool) -> (r: Result<Vec<Effect>, Query>)
        ensures
            achieves(self.model(), self.model(), r, typing_outcome(self.model(), user@, typing)),
    {
        let to = self.state.client_addrs_except(Some(user));
        let msg = ChatMessage::Typing { user: user.to_owned(), typing };
        let v = vec![Effect::Offer { to, msg, count_full: false }];
        proof {
            let p = match typing_outcome(self.model(), user@, typing) {
                Outcome::Done(p, _) => p,
                _ => Seq::empty(),
            };
            assert(realizes(v@[0], p[0], self.state.clients_map()));
        }
        Ok(v)
    }

    /// A read receipt, passed on to everyone but the reader.
    fn receipt_flow(&self, message_id: &str, reader: &str) -> (r: Result<Vec<Effect>, Query>)
        ensures
            achieves(self.model(), self.model(), r, receipt_outcome(self.model(), message_id@, reader@)),
    {
        let to = self.state.client_addrs_except(Some(reader));
        let msg = ChatMessage::Ack {
            kind: AckKind::Read,
            info: concat2(reader, " leu sua mensagem"),
            message_id: some_string(message_id),
        };
        let v = vec![Effect::Offer { to, msg, count_full: false }];
        proof {
            let p = match receipt_outcome(self.model(), message_id@, reader@) {
                Outcome::Done(p, _) => p,
                _ => Seq::empty(),
            };
            assert(realizes(v@[0], p[0], self.state.clients_map()));
        }
        Ok(v)
    }
    /// The rate limiter's refusal, sent to `u`.
    fn refusal_fx(&self, u: &str, mid: Option<String>) -> (v: Vec<Effect>)
        ensures
            realizes_all(v@, refusal(self.state.clients_map(), u@, self.rate_limit, opt_view(mid)), self.state.clients_map()),
    {
        let m = ChatMessage::Ack { kind: AckKind::Failed, info: limit_message(self.rate_limit), message_id: mid };
        self.reply_fx(u, m)
    }

    /// Runs the rate limiter on a request of `u` at `now_ns`: `Some` with the
    /// refusal when it stops the request, `None` when it lets it through.
    fn rate_gate(&mut self, u: &str, now_ns: u64, mid: &Option<String>) -> (r: Option<Vec<Effect>>)
        requires
            old(self).wf(),
        ensures
            final(self).wf(),
            final(self).model() == counted(old(self).model(), u@, now_ns),
            match r {
                Some(v) => !rate_ok(old(self).model().st, u@, old(self).rate_limit, now_ns) && realizes_all(
                    v@,
                    refusal(old(self).model().st.clients, u@, old(self).rate_limit, opt_view(*mid)),
                    old(self).model().st.clients,
                ),
                None => rate_ok(old(self).model().st, u@, old(self).rate_limit, now_ns),
            },
    {
        let lim = self.rate_limit;
        if self.state.check_rate_limit_at(u, lim, now_ns) {
            None
        } else {
            Some(self.refusal_fx(u, clone_opt(mid)))
        }
    }

    /// A public message from `from` to everyone connected: counted, stored
    /// when there is a database, and offered to every connection.
    pub fn broadcast(&self, from: String, content: String, timestamp: Timestamp) -> (v: Vec<Effect>)
        ensures
            realizes_all(v@, broadcast_plan(self.model(), from@, content@, timestamp), self.state.clients_map()),
    {
        let ghost cl = self.state.clients_map();
        let ghost c = self.model();
        let head = count2_fx(Tally::MessagesSent, Tally::RoomMessages, Ghost(cl));
        let ghost p_store = if c.has_db {
            seq![
                Plan::Store(
                    CommandView::InsertMessage {
                        from_user: from@,
                        to_user: None,
                        room: None,
                        content: content@,
                        timestamp,
                        message_id: None,
                        message_type: MessageType::Broadcast,
                        delivered: false,
                    },
                ),
            ]
        } else {
            Seq::empty()
        };
        let stored = if self.has_db {
            let cmd = DbCommand::InsertMessage {
                from_user: from.clone(),
                to_user: None,
                room: None,
                content: content.clone(),
                timestamp,
                message_id: None,
                message_type: MessageType::Broadcast,
                delivered: false,
            };
            store_fx(cmd, Ghost(cl))
        } else {
            Vec::new()
        };
        let to = self.state.client_addrs_except(None);
        let ghost p_offer = seq![
            Plan::Offer { users: cl.dom(), msg: MessageView::Text { from: from@, content: content@, timestamp }, count_full: true },
        ];
        let offer = vec![Effect::Offer { to, msg: ChatMessage::Text { from, content, timestamp }, count_full: true }];
        proof {
            assert(realizes(offer@[0], p_offer[0], cl));
        }
        let ghost p_head = seq![Plan::Count(Tally::MessagesSent), Plan::Count(Tally::RoomMessages)];
        let v = chain(head, stored, Ghost(p_head), Ghost(p_store), Ghost(cl));
        chain(v, offer, Ghost(p_head + p_store), Ghost(p_offer), Ghost(cl))
    }

    /// The list of connected users, sent to `u`.
    fn list_flow(&self, u: &str) -> (r: Result<Vec<Effect>, Query>)
        requires
            self.wf(),
        ensures
            achieves(self.model(), self.model(), r, list_outcome(self.model(), u@)),
    {
        let users = self.state.list_usernames();
        let mut v: Vec<Effect> = Vec::new();
        match self.state.get_client_tx(u) {
            Some(a) => {
                v.push(Effect::Send { to: a, msg: ChatMessage::ListResponse { users } });
                proof {
                    let p = seq![Plan::SendList { to: a, users: self.state.clients_map().dom() }];
                    assert(realizes(v@[0], p[0], self.state.clients_map()));
                }
            },
            None => {},
        }
        Ok(v)
    }

    /// `u` joins `room` and is told so (see `join_outcome`).
    fn join_flow(&mut self, u: &str, room: &str, tally: bool) -> (r: Result<Vec<Effect>, Query>)
        requires
            old(self).wf(),
        ensures
            final(self).wf(),
            achieves(old(self).model(), final(self).model(), r, join_outcome(old(self).model(), u@, room@, tally)),
    {
        self.state.join_room(u, room);
        let ghost cl = self.state.clients_map();
        let head = if tally {
            count_fx(Tally::RoomJoins, Ghost(cl))
        } else {
            Vec::new()
        };
        let tail = self.reply_fx(u, ChatMessage::Ack { kind: AckKind::System, info: concat2("Entrou na sala ", room), message_id: None });
        let ghost ph = if tally { seq![Plan::Count(Tally::RoomJoins)] } else { Seq::<Plan>::empty() };
        let ghost pt = reply(cl, u@, system("Entrou na sala "@ + room@));
        Ok(chain(head, tail, Ghost(ph), Ghost(pt), Ghost(cl)))
    }

    /// `u` leaves `room` and is told so (see `leave_outcome`).
    fn leave_flow(&mut self, u: &str, room: &str, tally: bool) -> (r: Result<Vec<Effect>, Query>)
        requires
            old(self).wf(),
        ensures
            final(self).wf(),
            achieves(old(self).model(), final(self).model(), r, leave_outcome(old(self).model(), u@, room@, tally)),
    {
        self.state.leave_room(u, room);
        let ghost cl = self.state.clients_map();
        let head = if tally {
            count_fx(Tally::RoomLeaves, Ghost(cl))
        } else {
            Vec::new()
        };
        let tail = self.reply_fx(u, ChatMessage::Ack { kind: AckKind::System, info: concat2("Saiu da sala ", room), message_id: None });
        let ghost ph = if tally { seq![Plan::Count(Tally::RoomLeaves)] } else { Seq::<Plan>::empty() };
        let ghost pt = reply(cl, u@, system("Saiu da sala "@ + room@));
        Ok(chain(head, tail, Ghost(ph), Ghost(pt), Ghost(cl)))
    }

    /// A room message from `u` (see `room_text_outcome`).
    fn room_text_flow(&self, u: &str, room: &str, content: &str, timestamp: Timestamp) -> (r: Result<Vec<Effect>, Query>)
        requires
            self.wf(),
        ensures
            achieves(self.model(), self.model(), r, room_text_outcome(self.model(), u@, room@, content@, timestamp)),
    {
        if self.state.is_subscribed(u, room) {
            let to = self.state.room_member_addrs(room);
            let msg = ChatMessage::RoomText { from: u.to_owned(), room: room.to_owned(), content: content.to_owned(), timestamp };
            let v = vec![Effect::Offer { to, msg, count_full: true }];
            proof {
                let p = match room_text_outcome(self.model(), u@, room@, content@, timestamp) {
                    Outcome::Done(p, _) => p,
                    _ => Seq::empty(),
                };
                assert(realizes(v@[0], p[0], self.state.clients_map()));
            }
            Ok(v)
        } else {
            let info = concat3("Você precisa entrar na sala ", room, " para enviar mensagens.");
            Ok(self.reply_fx(u, ChatMessage::Ack { kind: AckKind::Failed, info, message_id: None }))
        }
    }
    /// The effects of a direct message (see `private_plan`), built without
    /// changing anything.
    fn private_effects(
        &self,
        from: &str,
        to: &str,
        content: &str,
        ts: Timestamp,
        mid: &Option<String>,
        dup: bool,
        a: &DbAnswers,
    ) -> (r: Result<Vec<Effect>, Query>)
        ensures
            match private_plan(self.model(), from@, to@, content@, ts, opt_view(*mid), dup, *a) {
                Ok(p) => r matches Ok(v) && realizes_all(v@, p, self.state.clients_map()),
                Err(q) => r matches Err(x) && x@ == q,
            },
    {
        let ghost c = self.model();
        let ghost cl = self.state.clients_map();
        let ghost p_head = seq![Plan::Count(Tally::MessagesSent), Plan::Count(Tally::PrivateMessages)];
        let head = count2_fx(Tally::MessagesSent, Tally::PrivateMessages, Ghost(cl));
        if dup {
            let info = concat3("DM para ", to, " já entregue (dedup).");
            let tail = self.reply_fx(from, ChatMessage::Ack { kind: AckKind::Delivered, info, message_id: clone_opt(mid) });
            let ghost pt = reply(
                cl,
                from@,
                MessageView::Ack {
                    kind: AckKind::Delivered,
                    info: "DM para "@ + to@ + " já entregue (dedup)."@,
                    message_id: opt_view(*mid),
                },
            );
            return Ok(chain(head, tail, Ghost(p_head), Ghost(pt), Ghost(cl)));
        }
        let online = self.state.get_client_tx(to);
        match online {
            Some(target) => {
                let ghost p_store = dm_stored(c, from@, to@, content@, ts, opt_view(*mid), true);
                let stored = self.store_dm(from, to, content, ts, mid, true);
                let msg = ChatMessage::Private {
                    from: from.to_owned(),
                    to: to.to_owned(),
                    content: content.to_owned(),
                    timestamp: ts,
                    message_id: clone_opt(mid),
                };
                let on_ok = ChatMessage::Ack { kind: AckKind::Delivered, info: concat3("DM para ", to, " entregue."), message_id: clone_opt(mid) };
                let on_err = ChatMessage::Ack {
                    kind: AckKind::Failed,
                    info: concat3("Falha ao entregar DM para ", to, "."),
                    message_id: clone_opt(mid),
                };
                let sender = self.state.get_client_tx(from);
                let deliver = vec![Effect::Deliver { to: target, msg, sender, on_ok, on_err }];
                let ghost p_del = seq![
                    Plan::Deliver {
                        to: cl[to@],
                        msg: MessageView::Private { from: from@, to: to@, content: content@, timestamp: ts, message_id: opt_view(*mid) },
                        sender: lookup(cl, from@),
                        on_ok: MessageView::Ack { kind: AckKind::Delivered, info: "DM para "@ + to@ + " entregue."@, message_id: opt_view(*mid) },
                        on_err: MessageView::Ack {
                            kind: AckKind::Failed,
                            info: "Falha ao entregar DM para "@ + to@ + "."@,
                            message_id: opt_view(*mid),
                        },
                    },
                ];
                proof {
                    assert(realizes(deliver@[0], p_del[0], cl));
                }
                let v = chain(head, stored, Ghost(p_head), Ghost(p_store), Ghost(cl));
                return Ok(chain(v, deliver, Ghost(p_head + p_store), Ghost(p_del), Ghost(cl)));
            },
            None => {},
        }
        let known: Option<bool> = if self.auth.is_some() {
            a.user_exists
        } else {
            Some(false)
        };
        match known {
            None => Err(Query::UserExists { username: to.to_owned() }),
            Some(false) => {
                let tail = self.reply_fx(from, ChatMessage::Error(concat3("Usuário '", to, "' não encontrado.")));
                let ghost pt = reply(cl, from@, MessageView::Error("Usuário '"@ + to@ + "' não encontrado."@));
                Ok(chain(head, tail, Ghost(p_head), Ghost(pt), Ghost(cl)))
            },
            Some(true) => {
                if self.has_db {
                    match &a.pending {
                        None => {
                            return Err(Query::Pending { username: to.to_owned() });
                        },
                        Some(Ok(k)) => {
                            if *k >= self.max_pending {
                                let full = count_fx(Tally::QueueFull, Ghost(cl));
                                let kd = decimal_string(*k as u64);
                                let md = decimal_string(self.max_pending as u64);
                                let mut info = concat5("Caixa de entrada de '", to, "' cheia (", kd.as_str(), "/");
                                push_str(&mut info, md.as_str());
                                push_str(&mut info, " mensagens). Tente mais tarde.");
                                let tail = self.reply_fx(
                                    from,
                                    ChatMessage::Ack { kind: AckKind::Failed, info, message_id: clone_opt(mid) },
                                );
                                let ghost pf = seq![Plan::Count(Tally::QueueFull)];
                                let ghost pt = reply(
                                    cl,
                                    from@,
                                    MessageView::Ack {
                                        kind: AckKind::Failed,
                                        info: "Caixa de entrada de '"@ + to@ + "' cheia ("@ + decimal(*k as nat) + "/"@ + decimal(
                                            c.max_pending as nat,
                                        ) + " mensagens). Tente mais tarde."@,
                                        message_id: opt_view(*mid),
                                    },
                                );
                                let v = chain(head, full, Ghost(p_head), Ghost(pf), Ghost(cl));
                                return Ok(chain(v, tail, Ghost(p_head + pf), Ghost(pt), Ghost(cl)));
                            }
                        },
                        Some(Err(_)) => {},
                    }
                }
                let ghost p_store = dm_stored(c, from@, to@, content@, ts, opt_view(*mid), false);
                let stored = self.store_dm(from, to, content, ts, mid, false);
                let queued = count_fx(Tally::MessagesQueued, Ghost(cl));
                let info = concat3("Mensagem para ", to, " será entregue quando voltar online.");
                let tail = self.reply_fx(from, ChatMessage::Ack { kind: AckKind::Received, info, message_id: clone_opt(mid) });
                let ghost pq = seq![Plan::Count(Tally::MessagesQueued)];
                let ghost pt = reply(
                    cl,
                    from@,
                    MessageView::Ack {
                        kind: AckKind::Received,
                        info: "Mensagem para "@ + to@ + " será entregue quando voltar online."@,
                        message_id: opt_view(*mid),
                    },
                );
                let v = chain(head, stored, Ghost(p_head), Ghost(p_store), Ghost(cl));
                let v = chain(v, queued, Ghost(p_head + p_store), Ghost(pq), Ghost(cl));
                Ok(chain(v, tail, Ghost(p_head + p_store + pq), Ghost(pt), Ghost(cl)))
            },
        }
    }

    /// The database write of a direct message, when there is a database.
    fn store_dm(&self, from: &str, to: &str, content: &str, ts: Timestamp, mid: &Option<String>, delivered: bool) -> (v: Vec<Effect>)
        ensures
            realizes_all(v@, dm_stored(self.model(), from@, to@, content@, ts, opt_view(*mid), delivered), self.state.clients_map()),
    {
        if self.has_db {
            let cmd = DbCommand::InsertMessage {
                from_user: from.to_owned(),
                to_user: some_string(to),
                room: None,
                content: content.to_owned(),
                timestamp: ts,
                message_id: clone_opt(mid),
                message_type: MessageType::Private,
                delivered,
            };
            store_fx(cmd, Ghost(self.state.clients_map()))
        } else {
            Vec::new()
        }
    }

    /// A direct message, after the rate limiter checks `gate` when given
    /// (see `private_outcome`). Questions are asked before anything changes.
    fn private_flow(
        &mut self,
        gate: Option<&str>,
        from: &str,
        to: &str,
        content: &str,
        ts: Timestamp,
        mid: &Option<String>,
        now_ns: u64,
        a: &DbAnswers,
    ) -> (r: Result<Vec<Effect>, Query>)
        requires
            old(self).wf(),
        ensures
            final(self).wf(),
            achieves(old(self).model(), final(self).model(), r, match gate {
                Some(u) => rate_checked(
                    old(self).model(),
                    u@,
                    now_ns,
                    opt_view(*mid),
                    private_outcome(counted(old(self).model(), u@, now_ns), from@, to@, content@, ts, opt_view(*mid), now_ns, *a),
                ),
                None => private_outcome(old(self).model(), from@, to@, content@, ts, opt_view(*mid), now_ns, *a),
            }),
    {
        let lim = self.rate_limit;
        match gate {
            Some(u) => {
                if !self.state.rate_allows_at(u, lim, now_ns) {
                    let _ = self.state.check_rate_limit_at(u, lim, now_ns);
                    return Ok(self.refusal_fx(u, clone_opt(mid)));
                }
            },
            None => {},
        }
        let dup = match mid {
            Some(id) => self.state.seen_recently_at(id.as_str(), now_ns),
            None => false,
        };
        let r = self.private_effects(from, to, content, ts, mid, dup, a);
        match r {
            Err(q) => return Err(q),
            Ok(_) => {},
        }
        match gate {
            Some(u) => {
                let _ = self.state.check_rate_limit_at(u, lim, now_ns);
            },
            None => {},
        }
        match mid {
            Some(id) => {
                let _ = self.state.check_and_mark_message_id_at(id.as_str(), now_ns);
            },
            None => {},
        }
        r
    }
    /// A history request of `u`: fetched from the database when there is one.
    fn history_flow(&self, u: &str, to: &Option<String>, limit: Option<usize>) -> (r: Result<Vec<Effect>, Query>)
        ensures
            r matches Ok(v) && realizes_all(
                v@,
                if self.has_db {
                    seq![
                        Plan::History {
                            user: u@,
                            other: opt_view(*to),
                            limit: match limit {
                                Some(l) => l,
                                None => HISTORY_LIMIT,
                            },
                        },
                    ]
                } else {
                    reply(self.state.clients_map(), u@, MessageView::Error("Histórico não disponível (sem banco de dados)"@))
                },
                self.state.clients_map(),
            ),
    {
        if self.has_db {
            let lim = match limit {
                Some(l) => l,
                None => HISTORY_LIMIT,
            };
            let v = vec![Effect::History { user: u.to_owned(), other: clone_opt(to), limit: lim }];
            proof {
                let p = seq![Plan::History { user: u@, other: opt_view(*to), limit: lim }];
                assert(realizes(v@[0], p[0], self.state.clients_map()));
            }
            Ok(v)
        } else {
            Ok(self.reply_fx(u, ChatMessage::Error("Histórico não disponível (sem banco de dados)".to_owned())))
        }
    }

    /// A logout of `user`: counted, the gauge of connected users lowered,
    /// every session of `user` closed, and `user` told.
    fn logout_flow(&mut self, user: &str) -> (r: Result<Vec<Effect>, Query>)
        requires
            old(self).wf(),
        ensures
            final(self).wf(),
            achieves(old(self).model(), final(self).model(), r, logout_outcome(old(self).model(), user@)),
    {
        let ghost cl = self.state.clients_map();
        let n = self.state.client_count();
        let online: i64 = (if n > 0 { n - 1 } else { 0 }) as i64;
        let taken = self.auth.take();
        match taken {
            Some(mut m) => {
                m.logout_user(user);
                self.auth = Some(m);
            },
            None => {},
        }
        let head = count_fx(Tally::Logouts, Ghost(cl));
        let gauge = vec![Effect::UsersOnline(online)];
        let tail = self.reply_fx(user, ChatMessage::Ack { kind: AckKind::System, info: "Logout realizado".to_owned(), message_id: None });
        let ghost pg = seq![Plan::UsersOnline((if cl.dom().len() > 0 { cl.dom().len() - 1 } else { 0 }) as i64)];
        proof {
            assert(realizes(gauge@[0], pg[0], cl));
        }
        let ghost ph = seq![Plan::Count(Tally::Logouts)];
        proof {
            assert(ph + pg =~= seq![
                Plan::Count(Tally::Logouts),
                Plan::UsersOnline((if cl.dom().len() > 0 { cl.dom().len() - 1 } else { 0 }) as i64),
            ]);
        }
        let v = chain(head, gauge, Ghost(ph), Ghost(pg), Ghost(cl));
        let ghost pt = reply(cl, user@, system("Logout realizado"@));
        Ok(chain(v, tail, Ghost(ph + pg), Ghost(pt), Ghost(cl)))
    }
    /// The refusal of a moderation request of `user`, if any (see
    /// `admin_refusal`).
    fn admin_check(&self, user: &str, a: &DbAnswers) -> (r: Option<Result<Vec<Effect>, Query>>)
        ensures
            match admin_refusal(self.model(), user@, *a) {
                Some(o) => r matches Some(res) && achieves(self.model(), self.model(), res, o),
                None => r is None,
            },
    {
        if !self.has_db {
            return Some(Ok(self.reply_fx(user, ChatMessage::Error("Banco de dados não disponível".to_owned()))));
        }
        match &a.admin {
            None => Some(Err(Query::Admin { username: user.to_owned() })),
            Some(Err(_)) => Some(Ok(Vec::new())),
            Some(Ok(false)) => {
                let m = ChatMessage::Ack { kind: AckKind::Failed, info: "❌ Sem permissão (requer admin)".to_owned(), message_id: None };
                Some(Ok(self.reply_fx(user, m)))
            },
            Some(Ok(true)) => None,
        }
    }

    /// The refusal of a moderation request naming `target`, if any (see
    /// `target_refusal`).
    fn target_check(&self, user: &str, target: &str, a: &DbAnswers) -> (r: Option<Result<Vec<Effect>, Query>>)
        ensures
            match target_refusal(self.model(), user@, target@, *a) {
                Some(o) => r matches Some(res) && achieves(self.model(), self.model(), res, o),
                None => r is None,
            },
    {
        if self.auth.is_none() {
            return None;
        }
        match a.user_exists {
            None => Some(Err(Query::UserExists { username: target.to_owned() })),
            Some(false) => Some(Ok(self.reply_fx(user, ChatMessage::Error(concat3("Usuário '", target, "' não existe"))))),
            Some(true) => None,
        }
    }

    /// A moderation log entry.
    fn log_fx(
        &self,
        action: &str,
        user: &str,
        target: &str,
        reason: Option<String>,
        details: Option<String>,
    ) -> (v: Vec<Effect>)
        ensures
            realizes_all(
                v@,
                seq![log_entry(action@, user@, target@, opt_view(reason), opt_view(details))],
                self.state.clients_map(),
            ),
    {
        let cmd = DbCommand::LogModeration {
            action: action.to_owned(),
            moderator: user.to_owned(),
            target_user: target.to_owned(),
            reason,
            details,
        };
        store_fx(cmd, Ghost(self.state.clients_map()))
    }

    /// `target` expelled by `user` (see `kick_outcome`).
    fn kick_flow(&mut self, user: &str, target: &str, reason: &str) -> (r: Result<Vec<Effect>, Query>)
        requires
            old(self).wf(),
        ensures
            final(self).wf(),
            achieves(old(self).model(), final(self).model(), r, kick_outcome(old(self).model(), user@, target@, reason@)),
    {
        self.state.remove_client_by_username(target);
        let ghost cl = self.state.clients_map();
        let log = self.log_fx("kick", user, target, some_string(reason), None);
        let t1 = self.reply_fx(
            user,
            ChatMessage::Ack { kind: AckKind::System, info: concat4("✅ ", target, " foi expulso: ", reason), message_id: None },
        );
        let t2 = self.reply_fx(
            target,
            ChatMessage::Ack { kind: AckKind::Failed, info: concat4("Você foi expulso por ", user, ": ", reason), message_id: None },
        );
        let ghost p0 = seq![log_entry("kick"@, user@, target@, Some(reason@), None)];
        let ghost p1 = reply(cl, user@, system("✅ "@ + target@ + " foi expulso: "@ + reason@));
        let ghost p2 = reply(cl, target@, failed("Você foi expulso por "@ + user@ + ": "@ + reason@));
        let v = chain(log, t1, Ghost(p0), Ghost(p1), Ghost(cl));
        Ok(chain(v, t2, Ghost(p0 + p1), Ghost(p2), Ghost(cl)))
    }

    /// `target` banned by `user` for `d` seconds (see `ban_outcome`).
    fn ban_flow(&mut self, user: &str, target: &str, d: u64, reason: &str) -> (r: Result<Vec<Effect>, Query>)
        requires
            old(self).wf(),
        ensures
            final(self).wf(),
            achieves(old(self).model(), final(self).model(), r, ban_outcome(old(self).model(), user@, target@, d, reason@)),
    {
        self.state.remove_client_by_username(target);
        let ghost cl = self.state.clients_map();
        let ban = store_fx(
            DbCommand::BanUser {
                username: target.to_owned(),
                banned_by: user.to_owned(),
                reason: reason.to_owned(),
                duration_secs: if d > 0 {
                    Some(d)
                } else {
                    None
                },
            },
            Ghost(cl),
        );
        let dd = decimal_string(d);
        let log = self.log_fx("ban", user, target, some_string(reason), Some(concat3("duração: ", dd.as_str(), "s")));
        let span = if d > 0 {
            concat2(dd.as_str(), " segundos")
        } else {
            "permanente".to_owned()
        };
        let mut info = concat4("✅ ", target, " foi banido por ", span.as_str());
        push_str(&mut info, ": ");
        push_str(&mut info, reason);
        let t1 = self.reply_fx(user, ChatMessage::Ack { kind: AckKind::System, info, message_id: None });
        let ghost p0 = seq![
            Plan::Store(
                CommandView::BanUser {
                    username: target@,
                    banned_by: user@,
                    reason: reason@,
                    duration_secs: if d > 0 {
                        Some(d)
                    } else {
                        None
                    },
                },
            ),
        ];
        let ghost p1 = seq![log_entry("ban"@, user@, target@, Some(reason@), Some(duration_text(d)))];
        let ghost p2 = reply(cl, user@, system("✅ "@ + target@ + " foi banido por "@ + ban_span(d) + ": "@ + reason@));
        let v = chain(ban, log, Ghost(p0), Ghost(p1), Ghost(cl));
        proof {
            assert(p0 + p1 =~= seq![
                Plan::Store(
                    CommandView::BanUser {
                        username: target@,
                        banned_by: user@,
                        reason: reason@,
                        duration_secs: if d > 0 {
                            Some(d)
                        } else {
                            None
                        },
                    },
                ),
                log_entry("ban"@, user@, target@, Some(reason@), Some(duration_text(d))),
            ]);
        }
        Ok(chain(v, t1, Ghost(p0 + p1), Ghost(p2), Ghost(cl)))
    }
    /// Two database writes followed by a message to each of `user` and
    /// `target`.
    fn moderation_fx(
        &self,
        first: DbCommand,
        action: &str,
        user: &str,
        target: &str,
        details: Option<String>,
        to_user: ChatMessage,
        to_target: ChatMessage,
    ) -> (v: Vec<Effect>)
        ensures
            realizes_all(
                v@,
                seq![Plan::Store(first@), log_entry(action@, user@, target@, None, opt_view(details))] + reply(
                    self.state.clients_map(),
                    user@,
                    to_user@,
                ) + reply(self.state.clients_map(), target@, to_target@),
                self.state.clients_map(),
            ),
    {
        let ghost cl = self.state.clients_map();
        let ghost p0 = seq![Plan::Store(first@)];
        let ghost p1 = seq![log_entry(action@, user@, target@, None, opt_view(details))];
        let ghost p2 = reply(cl, user@, to_user@);
        let ghost p3 = reply(cl, target@, to_target@);
        let a = store_fx(first, Ghost(cl));
        let b = self.log_fx(action, user, target, None, details);
        let c = self.reply_fx(user, to_user);
        let d = self.reply_fx(target, to_target);
        let v = chain(a, b, Ghost(p0), Ghost(p1), Ghost(cl));
        let v = chain(v, c, Ghost(p0 + p1), Ghost(p2), Ghost(cl));
        proof {
            assert(p0 + p1 =~= seq![p0[0], p1[0]]);
        }
        chain(v, d, Ghost(p0 + p1 + p2), Ghost(p3), Ghost(cl))
    }

    /// `target` muted by `user` for `d` seconds (see `mute_outcome`).
    fn mute_flow(&self, user: &str, target: &str, d: u64) -> (r: Result<Vec<Effect>, Query>)
        ensures
            achieves(self.model(), self.model(), r, mute_outcome(self.model(), user@, target@, d)),
    {
        let dd = decimal_string(d);
        let cmd = DbCommand::MuteUser { username: target.to_owned(), muted_by: user.to_owned(), duration_secs: d };
        let details = Some(concat3("duração: ", dd.as_str(), "s"));
        let mut info = concat4("✅ ", target, " foi silenciado por ", dd.as_str());
        push_str(&mut info, " segundos");
        let m1 = ChatMessage::Ack { kind: AckKind::System, info, message_id: None };
        let m2 = ChatMessage::Ack { kind: AckKind::System, info: concat3("Você foi silenciado por ", dd.as_str(), " segundos"), message_id: None };
        Ok(self.moderation_fx(cmd, "mute", user, target, details, m1, m2))
    }

    /// `target` unmuted by `user` (see `unmute_outcome`).
    fn unmute_flow(&self, user: &str, target: &str) -> (r: Result<Vec<Effect>, Query>)
        ensures
            achieves(self.model(), self.model(), r, unmute_outcome(self.model(), user@, target@)),
    {
        let cmd = DbCommand::UnmuteUser { username: target.to_owned() };
        let m1 = ChatMessage::Ack { kind: AckKind::System, info: concat3("✅ ", target, " foi desilenciado"), message_id: None };
        let m2 = ChatMessage::Ack { kind: AckKind::System, info: "Você foi desilenciado".to_owned(), message_id: None };
        Ok(self.moderation_fx(cmd, "unmute", user, target, None, m1, m2))
    }

    /// `target` made an administrator by `user` (see `promote_outcome`).
    fn promote_flow(&self, user: &str, target: &str) -> (r: Result<Vec<Effect>, Query>)
        ensures
            achieves(self.model(), self.model(), r, promote_outcome(self.model(), user@, target@)),
    {
        let cmd = DbCommand::PromoteAdmin { username: target.to_owned(), promoted_by: user.to_owned() };
        let m1 = ChatMessage::Ack { kind: AckKind::System, info: concat3("✅ ", target, " foi promovido a admin"), message_id: None };
        let m2 = ChatMessage::Ack { kind: AckKind::System, info: "🎉 Você foi promovido a admin!".to_owned(), message_id: None };
        Ok(self.moderation_fx(cmd, "promote", user, target, None, m1, m2))
    }

    /// `target` no longer an administrator (see `demote_outcome`).
    fn demote_flow(&self, user: &str, target: &str) -> (r: Result<Vec<Effect>, Query>)
        ensures
            achieves(self.model(), self.model(), r, demote_outcome(self.model(), user@, target@)),
    {
        let cmd = DbCommand::DemoteAdmin { username: target.to_owned() };
        let m1 = ChatMessage::Ack { kind: AckKind::System, info: concat3("✅ ", target, " perdeu status de admin"), message_id: None };
        let m2 = ChatMessage::Ack { kind: AckKind::System, info: "Você perdeu status de admin".to_owned(), message_id: None };
        Ok(self.moderation_fx(cmd, "demote", user, target, None, m1, m2))
    }

    /// The list of administrators for `user` (see `admins_outcome`).
    fn admins_flow(&self, user: &str, a: &DbAnswers) -> (r: Result<Vec<Effect>, Query>)
        ensures
            achieves(self.model(), self.model(), r, admins_outcome(self.model(), user@, *a)),
    {
        if !self.has_db {
            return Ok(self.reply_fx(user, ChatMessage::Error("Banco de dados não disponível".to_owned())));
        }
        match &a.admins {
            None => Err(Query::Admins),
            Some(Err(_)) => Ok(self.reply_fx(user, ChatMessage::Error("Erro ao buscar lista de admins".to_owned()))),
            Some(Ok(v)) => {
                let info = admins_message(v);
                Ok(self.reply_fx(user, ChatMessage::Ack { kind: AckKind::System, info, message_id: None }))
            },
        }
    }

    /// The moderation log for `user` (see `logs_outcome`).
    fn logs_flow(&self, user: &str, limit: Option<usize>, a: &DbAnswers) -> (r: Result<Vec<Effect>, Query>)
        ensures
            achieves(self.model(), self.model(), r, logs_outcome(self.model(), user@, limit, *a)),
    {
        match &a.logs {
            None => Err(Query::Logs {
                limit: match limit {
                    Some(l) => l,
                    None => LOGS_LIMIT,
                },
            }),
            Some(Err(_)) => Ok(self.reply_fx(user, ChatMessage::Error("Erro ao buscar logs".to_owned()))),
            Some(Ok(v)) => {
                let info = logs_message(v);
                Ok(self.reply_fx(user, ChatMessage::Ack { kind: AckKind::System, info, message_id: None }))
            },
        }
    }

    /// A full-text search of `user` (see `search_outcome`).
    fn search_flow(&self, user: &str, query: &str, limit: Option<usize>, user_filter: &Option<String>) -> (r: Result<Vec<Effect>, Query>)
        ensures
            achieves(self.model(), self.model(), r, search_outcome(self.model(), user@, query@, limit, opt_view(*user_filter))),
    {
        if !self.has_db {
            return Ok(self.reply_fx(user, ChatMessage::Error("Banco de dados não disponível".to_owned())));
        }
        let lim = match limit {
            Some(l) => l,
            None => SEARCH_LIMIT,
        };
        let v = vec![Effect::Search { user: user.to_owned(), query: query.to_owned(), limit: lim, user_filter: clone_opt(user_filter) }];
        proof {
            let p = seq![Plan::Search { user: user@, query: query@, limit: lim, user_filter: opt_view(*user_filter) }];
            assert(realizes(v@[0], p[0], self.state.clients_map()));
        }
        Ok(v)
    }

    /// A file offered by `user` (see `file_outcome`).
    fn file_flow(
        &self,
        user: &str,
        from: &str,
        to: &str,
        file_id: &str,
        file_name: &str,
        file_size: u64,
        mime_type: &str,
        timestamp: Timestamp,
        a: &DbAnswers,
    ) -> (r: Result<Vec<Effect>, Query>)
        ensures
            achieves(
                self.model(),
                self.model(),
                r,
                file_outcome(self.model(), user@, from@, to@, file_id@, file_name@, file_size, mime_type@, timestamp, *a),
            ),
    {
        if !self.has_db {
            return Ok(self.reply_fx(user, ChatMessage::Error("Banco de dados não disponível".to_owned())));
        }
        match &a.download_token {
            None => Err(
                Query::DownloadToken { file_id: file_id.to_owned(), for_user: to.to_owned(), requested_by: user.to_owned() },
            ),
            Some(Err(_)) => Ok(self.reply_fx(user, ChatMessage::Error("Erro ao enviar arquivo".to_owned()))),
            Some(Ok(token)) => {
                let ghost cl = self.state.clients_map();
                let when = match rfc3339(timestamp) {
                    Some(t) => t,
                    None => String::new(),
                };
                let note = ChatMessage::FileNotification {
                    from: from.to_owned(),
                    file_id: file_id.to_owned(),
                    file_name: file_name.to_owned(),
                    file_size,
                    mime_type: mime_type.to_owned(),
                    download_token: token.clone(),
                    timestamp: when,
                };
                let ghost nv = note@;
                let v1 = self.reply_fx(to, note);
                let info = concat4("✅ Arquivo '", file_name, "' enviado para ", to);
                let v2 = self.reply_fx(user, ChatMessage::Ack { kind: AckKind::System, info, message_id: None });
                let ghost p1 = reply(cl, to@, nv);
                let ghost p2 = reply(cl, user@, system("✅ Arquivo '"@ + file_name@ + "' enviado para "@ + to@));
                Ok(chain(v1, v2, Ghost(p1), Ghost(p2), Ghost(cl)))
            },
        }
    }
    /// An authenticated request of `user` once the mute check let it through,
    /// for the commands any user may send (see `action_body`).
    fn user_action(&mut self, user: &str, act: ChatAction, now: Timestamp, mono_ns: u64, a: &DbAnswers) -> (r: Result<Vec<Effect>, Query>)
        requires
            old(self).wf(),
            !is_staff_action(act),
        ensures
            final(self).wf(),
            achieves(old(self).model(), final(self).model(), r, action_body(old(self).model(), user@, act, now, mono_ns, *a)),
    {
        let n = mono_ns;
        match act {
            ChatAction::Text { content, timestamp, .. } => {
                match self.rate_gate(user, n, &None) {
                    Some(v) => Ok(v),
                    None => Ok(self.broadcast(user.to_owned(), content, timestamp)),
                }
            },
            ChatAction::RoomText { room, content, timestamp, .. } => {
                match self.rate_gate(user, n, &None) {
                    Some(v) => Ok(v),
                    None => self.room_text_flow(user, room.as_str(), content.as_str(), timestamp),
                }
            },
            ChatAction::Private { to, content, timestamp, message_id, .. } => {
                self.private_flow(Some(user), user, to.as_str(), content.as_str(), timestamp, &message_id, n, a)
            },
            ChatAction::ListRequest { .. } => {
                match self.rate_gate(user, n, &None) {
                    Some(v) => Ok(v),
                    None => self.list_flow(user),
                }
            },
            ChatAction::HistoryRequest { to, limit, .. } => {
                match self.rate_gate(user, n, &None) {
                    Some(v) => Ok(v),
                    None => self.history_flow(user, &to, limit),
                }
            },
            ChatAction::JoinRoom { room } => {
                match self.rate_gate(user, n, &None) {
                    Some(v) => Ok(v),
                    None => self.join_flow(user, room.as_str(), true),
                }
            },
            ChatAction::LeaveRoom { room } => {
                match self.rate_gate(user, n, &None) {
                    Some(v) => Ok(v),
                    None => self.leave_flow(user, room.as_str(), true),
                }
            },
            ChatAction::Logout { .. } => self.logout_flow(user),
            ChatAction::ReadReceipt { message_id, reader } => self.receipt_flow(message_id.as_str(), reader.as_str()),
            ChatAction::Typing { user: who, typing } => self.typing_flow(who.as_str(), typing),
            _ => {
                assert(false);
                Ok(Vec::new())
            },
        }
    }

    /// An authenticated moderation, search or file request of `user` (see
    /// `action_body`).
    fn staff_action(&mut self, user: &str, act: ChatAction, now: Timestamp, mono_ns: u64, a: &DbAnswers) -> (r: Result<Vec<Effect>, Query>)
        requires
            old(self).wf(),
            is_staff_action(act),
        ensures
            final(self).wf(),
            achieves(old(self).model(), final(self).model(), r, action_body(old(self).model(), user@, act, now, mono_ns, *a)),
    {
        match act {
            ChatAction::SearchMessages { query, limit, user_filter } => self.search_flow(user, query.as_str(), limit, &user_filter),
            ChatAction::SendFile { from, to, file_id, file_name, file_size, mime_type, timestamp } => {
                self.file_flow(user, from.as_str(), to.as_str(), file_id.as_str(), file_name.as_str(), file_size, mime_type.as_str(), timestamp, a)
            },
            _ => {
                match self.admin_check(user, a) {
                    Some(r) => r,
                    None => match act {
                        ChatAction::AdminList => self.admins_flow(user, a),
                        ChatAction::AdminKick { target, reason } => self.kick_flow(user, target.as_str(), reason.as_str()),
                        ChatAction::AdminBan { target, duration_secs, reason } => {
                            match self.target_check(user, target.as_str(), a) {
                                Some(r) => r,
                                None => self.ban_flow(user, target.as_str(), duration_secs, reason.as_str()),
                            }
                        },
                        ChatAction::AdminMute { target, duration_secs } => self.mute_flow(user, target.as_str(), duration_secs),
                        ChatAction::AdminUnmute { target } => self.unmute_flow(user, target.as_str()),
                        ChatAction::AdminPromote { target } => {
                            match self.target_check(user, target.as_str(), a) {
                                Some(r) => r,
                                None => self.promote_flow(user, target.as_str()),
                            }
                        },
                        ChatAction::AdminDemote { target } => self.demote_flow(user, target.as_str()),
                        ChatAction::AdminLogs { limit } => self.logs_flow(user, limit, a),
                        _ => {
                            assert(false);
                            Ok(Vec::new())
                        },
                    },
                }
            },
        }
    }
    /// An authenticated request of `user` (see `action_outcome`): with a
    /// database, a muted user may only use the moderation, search and file
    /// commands.
    fn handle_authenticated_action(
        &mut self,
        user: &str,
        act: ChatAction,
        now: Timestamp,
        mono_ns: u64,
        a: &DbAnswers,
    ) -> (r: Result<Vec<Effect>, Query>)
        requires
            old(self).wf(),
        ensures
            final(self).wf(),
            achieves(old(self).model(), final(self).model(), r, action_outcome(old(self).model(), user@, act, now, mono_ns, *a)),
    {
        let staff = match &act {
            ChatAction::AdminKick { .. } | ChatAction::AdminBan { .. } | ChatAction::AdminMute { .. }
            | ChatAction::AdminUnmute { .. } | ChatAction::AdminPromote { .. } | ChatAction::AdminDemote { .. }
            | ChatAction::AdminList | ChatAction::AdminLogs { .. } | ChatAction::SearchMessages { .. }
            | ChatAction::SendFile { .. } => true,
            _ => false,
        };
        if !staff && self.has_db {
            match &a.muted {
                None => {
                    return Err(Query::Muted { username: user.to_owned() });
                },
                Some(Ok(true)) => {
                    let m = ChatMessage::Ack {
                        kind: AckKind::Failed,
                        info: "🔇 Você está silenciado e não pode enviar mensagens".to_owned(),
                        message_id: None,
                    };
                    return Ok(self.reply_fx(user, m));
                },
                Some(_) => {},
            }
        }
        if staff {
            self.staff_action(user, act, now, mono_ns, a)
        } else {
            self.user_action(user, act, now, mono_ns, a)
        }
    }
    /// Handles a message received from the connection at `addr`, at wall
    /// time `now` and monotonic time `mono_ns` (see `message_outcome`); `who`
    /// there is a user connected from
    /// `addr`, if any. Login and registration messages are handled by
    /// `handle_login` and `handle_register` and do nothing here.
    pub fn handle_message_at(
        &mut self,
        msg: ChatMessage,
        addr: PeerAddr,
        now: Timestamp,
        mono_ns: u64,
        answers: &DbAnswers,
    ) -> (r: Result<Vec<Effect>, Query>)
        requires
            old(self).wf(),
        ensures
            final(self).wf(),
            exists|who: Option<Seq<char>>|
                user_at(old(self).model().st.clients, addr, who) && #[trigger] achieves(
                    old(self).model(),
                    final(self).model(),
                    r,
                    message_outcome(old(self).model(), msg, addr, now, mono_ns, *answers, who),
                ),
    {
        let ghost pre = self.model();
        let ghost m0 = msg;
        let ghost mut w = someone_at(pre.st.clients, addr);
        let n = mono_ns;
        let r = match msg {
            ChatMessage::Authenticated { token, action } => {
                let taken = self.auth.take();
                match taken {
                    None => Ok(Vec::new()),
                    Some(mut m) => {
                        let u = m.validate_token_at(token.as_str(), now);
                        self.auth = Some(m);
                        match u {
                            Some(u) => {
                                assert(self.model() == pre);
                                self.handle_authenticated_action(u.as_str(), *action, now, mono_ns, answers)
                            },
                            None => {
                                let who = self.state.username_by_addr(&addr);
                                proof {
                                    w = opt_view(who);
                                }
                                match who {
                                    Some(w) => {
                                        let m = ChatMessage::Ack { kind: AckKind::Failed, info: "Token inválido ou expirado".to_owned(), message_id: None };
                                        Ok(self.reply_fx(w.as_str(), m))
                                    },
                                    None => Ok(Vec::new()),
                                }
                            },
                        }
                    },
                }
            },
            ChatMessage::JoinRoom { room } => {
                let who = self.state.username_by_addr(&addr);
                proof {
                    w = opt_view(who);
                }
                match who {
                    None => Ok(Vec::new()),
                    Some(u) => match self.rate_gate(u.as_str(), n, &None) {
                        Some(v) => Ok(v),
                        None => self.join_flow(u.as_str(), room.as_str(), false),
                    },
                }
            },
            ChatMessage::LeaveRoom { room } => {
                let who = self.state.username_by_addr(&addr);
                proof {
                    w = opt_view(who);
                }
                match who {
                    None => Ok(Vec::new()),
                    Some(u) => match self.rate_gate(u.as_str(), n, &None) {
                        Some(v) => Ok(v),
                        None => self.leave_flow(u.as_str(), room.as_str(), false),
                    },
                }
            },
            ChatMessage::Text { from, content, timestamp } => {
                let who = self.state.username_by_addr(&addr);
                proof {
                    w = opt_view(who);
                }
                let key = match &who {
                    Some(u) => u.clone(),
                    None => from.clone(),
                };
                match self.rate_gate(key.as_str(), n, &None) {
                    Some(v) => Ok(v),
                    None => Ok(self.broadcast(from, content, timestamp)),
                }
            },
            ChatMessage::RoomText { room, content, timestamp, .. } => {
                let who = self.state.username_by_addr(&addr);
                proof {
                    w = opt_view(who);
                }
                match who {
                    None => Ok(Vec::new()),
                    Some(u) => match self.rate_gate(u.as_str(), n, &None) {
                        Some(v) => Ok(v),
                        None => self.room_text_flow(u.as_str(), room.as_str(), content.as_str(), timestamp),
                    },
                }
            },
            ChatMessage::Private { from, to, content, timestamp, message_id } => {
                self.private_flow(Some(from.as_str()), from.as_str(), to.as_str(), content.as_str(), timestamp, &message_id, n, answers)
            },
            ChatMessage::ListRequest { from } => {
                match self.rate_gate(from.as_str(), n, &None) {
                    Some(v) => Ok(v),
                    None => self.list_flow(from.as_str()),
                }
            },
            ChatMessage::ReadReceipt { message_id, reader } => self.receipt_flow(message_id.as_str(), reader.as_str()),
            ChatMessage::Typing { user, typing } => self.typing_flow(user.as_str(), typing),
            _ => Ok(Vec::new()),
        };
        proof {
            assert(user_at(pre.st.clients, addr, w));
            assert(achieves(pre, self.model(), r, message_outcome(pre, m0, addr, now, mono_ns, *answers, w)));
        }
        r
    }

    /// `handle_message_at` at the current time: the wall clock's reading and
    /// the state's monotonic clock.
    pub fn handle_message(&mut self, msg: ChatMessage, addr: PeerAddr, answers: &DbAnswers) -> (r: Result<Vec<Effect>, Query>)
        requires
            old(self).wf(),
        ensures
            final(self).wf(),
            exists|now: Timestamp, mono_ns: u64, who: Option<Seq<char>>|
                user_at(old(self).model().st.clients, addr, who) && #[trigger] achieves(
                    old(self).model(),
                    final(self).model(),
                    r,
                    message_outcome(old(self).model(), msg, addr, now, mono_ns, *answers, who),
                ),
    {
        let now = now_timestamp();
        let mono_ns = self.state.clock_nanos();
        assert(self.model() == old(self).model());
        self.handle_message_at(msg, addr, now, mono_ns, answers)
    }
}

/// Some user connected from `addr`, or `None` when nobody is.
proof fn someone_at(clients: Map<Seq<char>, PeerAddr>, addr: PeerAddr) -> (who: Option<Seq<char>>)
    ensures
        user_at(clients, addr, who),
{
    if exists|k: Seq<char>| #[trigger] clients.contains_key(k) && clients[k] == addr {
        let k = choose|k: Seq<char>| #[trigger] clients.contains_key(k) && clients[k] == addr;
        Some(k)
    } else {
        None
    }
}

impl ChatCore {
    /// A user name claimed without password from the connection at `addr`,
    /// at `now` (see `register_user_outcome`).
    pub fn register_user_at(&mut self, username: String, addr: PeerAddr, now: Timestamp) -> (v: Vec<Effect>)
        requires
            old(self).wf(),
        ensures
            final(self).wf(),
            realizes_all(v@, register_user_outcome(old(self).model(), username@, addr, now).0, final(self).state.clients_map()),
            final(self).model() == register_user_outcome(old(self).model(), username@, addr, now).1,
    {
        match ChatState::validate_username(username.as_str()) {
            Err(e) => {
                let m = ChatMessage::Error(concat2("Username inválido: ", e.as_str()));
                let v = vec![Effect::Send { to: addr, msg: m }];
                proof {
                    let p = register_user_outcome(old(self).model(), username@, addr, now).0;
                    assert(realizes(v@[0], p[0], self.state.clients_map()));
                }
                return v;
            },
            Ok(()) => {},
        }
        if self.state.is_username_taken(username.as_str()) {
            let m = ChatMessage::Error(concat3("Username '", username.as_str(), "' já está em uso"));
            let v = vec![Effect::Send { to: addr, msg: m }];
            proof {
                let p = register_user_outcome(old(self).model(), username@, addr, now).0;
                assert(realizes(v@[0], p[0], self.state.clients_map()));
            }
            return v;
        }
        let welcome = concat2(username.as_str(), " entrou na sala!");
        self.state.add_client(addr, username);
        self.broadcast("Sistema".to_owned(), welcome, now)
    }

    /// `register_user_at` at the current time.
    pub fn register_user(&mut self, username: String, addr: PeerAddr) -> (v: Vec<Effect>)
        requires
            old(self).wf(),
        ensures
            final(self).wf(),
            exists|now: Timestamp|
                realizes_all(v@, #[trigger] register_user_outcome(old(self).model(), username@, addr, now).0, final(self).state.clients_map())
                && final(self).model() == register_user_outcome(old(self).model(), username@, addr, now).1,
    {
        let now = now_timestamp();
        self.register_user_at(username, addr, now)
    }

    /// The effects of a successful login (see `login_success_plan`), after
    /// the user was connected.
    fn login_success_fx(&self, u: &str, addr: PeerAddr, token: String, welcome: &str, online: usize) -> (v: Vec<Effect>)
        ensures
            forall|c: CoreView| c.st.clients.dom().len() == online ==> #[trigger] realizes_all(
                v@,
                login_success_plan(c, u@, addr, token@, welcome@),
                self.state.clients_map(),
            ),
    {
        let ghost tv = token@;
        let v = vec![
            Effect::Count(Tally::Logins),
            Effect::UsersOnline(online as i64),
            Effect::Send { to: addr, msg: ChatMessage::SessionToken { token, username: u.to_owned() } },
            Effect::Send { to: addr, msg: ChatMessage::Ack { kind: AckKind::System, info: welcome.to_owned(), message_id: None } },
        ];
        proof {
            assert forall|c: CoreView| c.st.clients.dom().len() == online implies #[trigger] realizes_all(
                v@,
                login_success_plan(c, u@, addr, tv, welcome@),
                self.state.clients_map(),
            ) by {
                let p = login_success_plan(c, u@, addr, tv, welcome@);
                assert(realizes(v@[0], p[0], self.state.clients_map()));
                assert(realizes(v@[1], p[1], self.state.clients_map()));
                assert(realizes(v@[2], p[2], self.state.clients_map()));
                assert(realizes(v@[3], p[3], self.state.clients_map()));
            }
        }
        v
    }

    /// A login attempt of `username` from `addr` at `now` (see
    /// `login_outcome`); the new session's token is 36 characters long.
    pub fn handle_login_at(&mut self, username: String, password: String, addr: PeerAddr, now: Timestamp, answers: &DbAnswers) -> (r: Result<Vec<Effect>, Query>)
        requires
            old(self).wf(),
        ensures
            final(self).wf(),
            exists|token: Seq<char>|
                token.len() == 36 && #[trigger] achieves(
                    old(self).model(),
                    final(self).model(),
                    r,
                    login_outcome(old(self).model(), username@, password@, addr, now, *answers, token),
                ),
    {
        let ghost pre = self.model();
        let ghost any_token = Seq::new(36, |i: int| ' ');
        let taken = self.auth.take();
        let mut m = match taken {
            None => {
                let v = self.register_user_at(username, addr, now);
                proof {
                    assert(achieves(pre, self.model(), Ok(v), login_outcome(pre, username@, password@, addr, now, *answers, any_token)));
                }
                return Ok(v);
            },
            Some(m) => m,
        };
        let res = m.login_at(username.as_str(), password.as_str(), now, answers);
        self.auth = Some(m);
        match res {
            Err(q) => {
                proof {
                    assert(self.model() == pre);
                    assert(achieves(pre, self.model(), Err(q), login_outcome(pre, username@, password@, addr, now, *answers, any_token)));
                }
                Err(q)
            },
            Ok(Err(e)) => {
                let info = login_error_message(username.as_str(), e.as_str());
                let v = vec![Effect::Send { to: addr, msg: ChatMessage::Ack { kind: AckKind::Failed, info, message_id: None } }];
                proof {
                    assert(self.model() == pre);
                    let p = seq![Plan::Send { to: addr, msg: failed(login_error_text(username@, e@)) }];
                    assert(realizes(v@[0], p[0], self.state.clients_map()));
                    assert(achieves(pre, self.model(), Ok(v), login_outcome(pre, username@, password@, addr, now, *answers, any_token)));
                }
                Ok(v)
            },
            Ok(Ok(token)) => {
                let ghost tv = token@;
                let online = self.state.client_count();
                self.state.add_client(addr, username.clone());
                let ghost cl = self.state.clients_map();
                let v = self.login_success_fx(username.as_str(), addr, token, "Login bem-sucedido", online);
                let ghost p0 = login_success_plan(pre, username@, addr, tv, "Login bem-sucedido"@);
                let ghost p1 = if pre.has_db { seq![Plan::FlushPending { user: username@ }] } else { Seq::<Plan>::empty() };
                let flush = if self.has_db {
                    let f = vec![Effect::FlushPending { user: username }];
                    proof {
                        assert(realizes(f@[0], p1[0], cl));
                    }
                    f
                } else {
                    Vec::new()
                };
                let v = chain(v, flush, Ghost(p0), Ghost(p1), Ghost(cl));
                proof {
                    assert(self.model() == logged_in(pre, username@, addr, now, tv));
                    assert(achieves(pre, self.model(), Ok(v), login_outcome(pre, username@, password@, addr, now, *answers, tv)));
                }
                Ok(v)
            },
        }
    }

    /// `handle_login_at` at the current time.
    pub fn handle_login(&mut self, username: String, password: String, addr: PeerAddr, answers: &DbAnswers) -> (r: Result<Vec<Effect>, Query>)
        requires
            old(self).wf(),
        ensures
            final(self).wf(),
            exists|now: Timestamp, token: Seq<char>|
                token.len() == 36 && #[trigger] achieves(
                    old(self).model(),
                    final(self).model(),
                    r,
                    login_outcome(old(self).model(), username@, password@, addr, now, *answers, token),
                ),
    {
        let now = now_timestamp();
        self.handle_login_at(username, password, addr, now, answers)
    }
    /// A registration of `username` from `addr` at `now` (see
    /// `register_outcome`), where the account manager's answer is as
    /// `registration_outcome` says and the new session's token is 36
    /// characters long.
    pub fn handle_register_at(&mut self, username: String, password: String, addr: PeerAddr, now: Timestamp, answers: &DbAnswers) -> (r: Result<Vec<Effect>, Query>)
        requires
            old(self).wf(),
        ensures
            final(self).wf(),
            exists|reg: Result<Result<(), Seq<char>>, QueryView>, token: Seq<char>|
                (old(self).model().auth matches Some(av) ==> registration_outcome(username@, password@, *answers, av.cost, reg))
                && token.len() == 36 && #[trigger] achieves(
                    old(self).model(),
                    final(self).model(),
                    r,
                    register_outcome(old(self).model(), username@, password@, addr, now, *answers, reg, token),
                ),
    {
        let ghost pre = self.model();
        let ghost any_token = Seq::new(36, |i: int| ' ');
        let ghost any_reg: Result<Result<(), Seq<char>>, QueryView> = Ok(Ok(()));
        let taken = self.auth.take();
        let mut m = match taken {
            None => {
                let msg = ChatMessage::Ack { kind: AckKind::Failed, info: "Registro não suportado no servidor".to_owned(), message_id: None };
                let v = vec![Effect::Send { to: addr, msg }];
                proof {
                    let p = seq![Plan::Send { to: addr, msg: failed("Registro não suportado no servidor"@) }];
                    assert(realizes(v@[0], p[0], self.state.clients_map()));
                    assert(achieves(pre, self.model(), Ok(v), register_outcome(pre, username@, password@, addr, now, *answers, any_reg, any_token)));
                }
                return Ok(v);
            },
            Some(m) => m,
        };
        let reg = m.register(username.as_str(), password.as_str(), answers);
        let ghost rv = register_view(reg);
        match reg {
            Err(q) => {
                self.auth = Some(m);
                proof {
                    assert(self.model() == pre);
                    assert(achieves(pre, self.model(), Err(q), register_outcome(pre, username@, password@, addr, now, *answers, rv, any_token)));
                }
                Err(q)
            },
            Ok(Err(e)) => {
                self.auth = Some(m);
                let ghost ev = e@;
                let msg = ChatMessage::Ack { kind: AckKind::Failed, info: e, message_id: None };
                let v = vec![Effect::Send { to: addr, msg }];
                proof {
                    assert(self.model() == pre);
                    let p = seq![Plan::Send { to: addr, msg: failed(ev) }];
                    assert(realizes(v@[0], p[0], self.state.clients_map()));
                    assert(achieves(pre, self.model(), Ok(v), register_outcome(pre, username@, password@, addr, now, *answers, rv, any_token)));
                }
                Ok(v)
            },
            Ok(Ok(())) => {
                let res = m.login_at(username.as_str(), password.as_str(), now, answers);
                self.auth = Some(m);
                match res {
                    Err(q) => {
                        proof {
                            assert(self.model() == pre);
                            assert(achieves(pre, self.model(), Err(q), register_outcome(pre, username@, password@, addr, now, *answers, rv, any_token)));
                        }
                        Err(q)
                    },
                    Ok(Err(e)) => {
                        let ghost ev = e@;
                        let v = vec![
                            Effect::Count(Tally::Registrations),
                            Effect::Send {
                                to: addr,
                                msg: ChatMessage::Ack { kind: AckKind::System, info: "Registro realizado com sucesso".to_owned(), message_id: None },
                            },
                            Effect::Send {
                                to: addr,
                                msg: ChatMessage::Ack { kind: AckKind::Failed, info: concat2("Falha no login automático: ", e.as_str()), message_id: None },
                            },
                        ];
                        proof {
                            assert(self.model() == pre);
                            let p = seq![
                                Plan::Count(Tally::Registrations),
                                Plan::Send { to: addr, msg: system("Registro realizado com sucesso"@) },
                                Plan::Send { to: addr, msg: failed("Falha no login automático: "@ + ev) },
                            ];
                            assert(realizes(v@[0], p[0], self.state.clients_map()));
                            assert(realizes(v@[1], p[1], self.state.clients_map()));
                            assert(realizes(v@[2], p[2], self.state.clients_map()));
                            assert(achieves(pre, self.model(), Ok(v), register_outcome(pre, username@, password@, addr, now, *answers, rv, any_token)));
                        }
                        Ok(v)
                    },
                    Ok(Ok(token)) => {
                        let ghost tv = token@;
                        let online = self.state.client_count();
                        self.state.add_client(addr, username.clone());
                        let ghost cl = self.state.clients_map();
                        let head = count_fx(Tally::Registrations, Ghost(cl));
                        let tail = self.login_success_fx(username.as_str(), addr, token, "Registro realizado e login efetuado", online);
                        let ghost p0 = seq![Plan::Count(Tally::Registrations)];
                        let ghost p1 = login_success_plan(pre, username@, addr, tv, "Registro realizado e login efetuado"@);
                        let v = chain(head, tail, Ghost(p0), Ghost(p1), Ghost(cl));
                        proof {
                            assert(self.model() == logged_in(pre, username@, addr, now, tv));
                            assert(achieves(pre, self.model(), Ok(v), register_outcome(pre, username@, password@, addr, now, *answers, rv, tv)));
                        }
                        Ok(v)
                    },
                }
            },
        }
    }

    /// `handle_register_at` at the current time.
    pub fn handle_register(&mut self, username: String, password: String, addr: PeerAddr, answers: &DbAnswers) -> (r: Result<Vec<Effect>, Query>)
        requires
            old(self).wf(),
        ensures
            final(self).wf(),
            exists|now: Timestamp, reg: Result<Result<(), Seq<char>>, QueryView>, token: Seq<char>|
                (old(self).model().auth matches Some(av) ==> registration_outcome(username@, password@, *answers, av.cost, reg))
                && token.len() == 36 && #[trigger] achieves(
                    old(self).model(),
                    final(self).model(),
                    r,
                    register_outcome(old(self).model(), username@, password@, addr, now, *answers, reg, token),
                ),
    {
        let now = now_timestamp();
        self.handle_register_at(username, password, addr, now, answers)
    }

    /// The connection at `addr` closed at `now` (see `disconnect_outcome`).
    pub fn disconnect_user_at(&mut self, addr: PeerAddr, now: Timestamp) -> (v: Vec<Effect>)
        requires
            old(self).wf(),
        ensures
            final(self).wf(),
            exists|who: Option<Seq<char>>|
                user_at(old(self).model().st.clients, addr, who) && realizes_all(
                    v@,
                    #[trigger] disconnect_outcome(old(self).model(), now, who).0,
                    final(self).state.clients_map(),
                ) && final(self).model() == disconnect_outcome(old(self).model(), now, who).1,
    {
        let ghost pre = self.model();
        match self.state.remove_client(&addr) {
            Some(u) => {
                let ghost w = Some(u@);
                let text = concat2(u.as_str(), " saiu da sala!");
                let v = self.broadcast("Sistema".to_owned(), text, now);
                proof {
                    assert(user_at(pre.st.clients, addr, w));
                    assert(realizes_all(v@, disconnect_outcome(pre, now, w).0, self.state.clients_map()));
                }
                v
            },
            None => {
                let v = Vec::new();
                proof {
                    let w: Option<Seq<char>> = None;
                    assert(user_at(pre.st.clients, addr, w));
                    assert(realizes_all(v@, disconnect_outcome(pre, now, w).0, self.state.clients_map()));
                }
                v
            },
        }
    }

    /// `disconnect_user_at` at the current time.
    pub fn disconnect_user(&mut self, addr: PeerAddr) -> (v: Vec<Effect>)
        requires
            old(self).wf(),
        ensures
            final(self).wf(),
            exists|now: Timestamp, who: Option<Seq<char>>|
                user_at(old(self).model().st.clients, addr, who) && realizes_all(
                    v@,
                    #[trigger] disconnect_outcome(old(self).model(), now, who).0,
                    final(self).state.clients_map(),
                ) && final(self).model() == disconnect_outcome(old(self).model(), now, who).1,
    {
        let now = now_timestamp();
        self.disconnect_user_at(addr, now)
    }

    /// Offers `msg` to `to` without waiting, if connected.
    pub fn send_to(&self, to: &str, msg: ChatMessage) -> (v: Vec<Effect>)
        ensures
            realizes_all(v@, direct_plan(self.state.clients_map(), to@, msg@), self.state.clients_map()),
    {
        let ghost cl = self.state.clients_map();
        let ghost mv = msg@;
        match self.state.get_client_tx(to) {
            Some(a) => {
                let mut t: Vec<PeerAddr> = Vec::new();
                t.push(a);
                proof {
                    assert(t@ =~= seq![a]);
                }
                let v = vec![Effect::Offer { to: t, msg, count_full: false }];
                proof {
                    let ks = seq![to@];
                    assert(ks.to_set() =~= set![to@]) by {
                        assert(ks.contains(to@)) by {
                            assert(ks[0] == to@);
                        }
                    }
                    assert(ks.map_values(|k: Seq<char>| cl[k]) =~= seq![a]);
                    assert(lists_targets(seq![a], cl, set![to@]));
                    assert(realizes(v@[0], direct_plan(cl, to@, mv)[0], cl));
                }
                v
            },
            None => Vec::new(),
        }
    }

    /// A direct message from `from` to `to`, at monotonic time `now_ns` (see
    /// `private_outcome`); the rate limiter is not involved.
    pub fn send_private_message_at(
        &mut self,
        from: String,
        to: String,
        content: String,
        timestamp: Timestamp,
        message_id: Option<String>,
        now_ns: u64,
        answers: &DbAnswers,
    ) -> (r: Result<Vec<Effect>, Query>)
        requires
            old(self).wf(),
        ensures
            final(self).wf(),
            achieves(
                old(self).model(),
                final(self).model(),
                r,
                private_outcome(old(self).model(), from@, to@, content@, timestamp, opt_view(message_id), now_ns, *answers),
            ),
    {
        self.private_flow(None, from.as_str(), to.as_str(), content.as_str(), timestamp, &message_id, now_ns, answers)
    }

    /// `send_private_message_at` at the current time of the state's
    /// monotonic clock.
    pub fn send_private_message(
        &mut self,
        from: String,
        to: String,
        content: String,
        timestamp: Timestamp,
        message_id: Option<String>,
        answers: &DbAnswers,
    ) -> (r: Result<Vec<Effect>, Query>)
        requires
            old(self).wf(),
        ensures
            final(self).wf(),
            exists|now_ns: u64|
                #[trigger] achieves(
                    old(self).model(),
                    final(self).model(),
                    r,
                    private_outcome(old(self).model(), from@, to@, content@, timestamp, opt_view(message_id), now_ns, *answers),
                ),
    {
        let now_ns = self.state.clock_nanos();
        assert(self.model() == old(self).model());
        self.send_private_message_at(from, to, content, timestamp, message_id, now_ns, answers)
    }
}

/// The error a refused login shows (see `login_error_text`).
fn login_error_message(u: &str, e: &str) -> (s: String)
    ensures
        s@ == login_error_text(u@, e@),
{
    if str_contains(e, "não encontrado") {
        return concat3("Usuário '", u, "' não encontrado");
    }
    let low = to_lowercase(e);
    if str_contains(low.as_str(), "password incorreto") || str_contains(low.as_str(), "senha incorreta") {
        return concat3("Senha incorreta para o usuário '", u, "'");
    }
    e.to_owned()
}

/// A request the rate limiter stops changes nothing: the sender only gets
/// the refusal (carrying the message id of a direct message).
pub proof fn law_refused_request_changes_nothing(c: CoreView, u: Seq<char>, now_ns: u64, mid: Option<Seq<char>>, then: Outcome)
    requires
        !rate_ok(c.st, u, c.rate_limit, now_ns),
    ensures
        rate_checked(c, u, now_ns, mid, then) == Outcome::Done(refusal(c.st.clients, u, c.rate_limit, mid), c),
{
    let w = lookup(c.st.windows, u);
    assert(w is Some);
    assert(c.st.windows.insert(u, w->0) =~= c.st.windows);
    assert(rated(c.st, u, c.rate_limit, now_ns) == c.st);
}

/// A direct message whose id is new is not delivered or stored again when
/// it is sent again within the hour: the second time, the sender is only
/// told that it was already delivered.
pub proof fn law_resent_dm_is_not_delivered_again(
    c: CoreView,
    from: Seq<char>,
    to: Seq<char>,
    content: Seq<char>,
    ts: Timestamp,
    id: Seq<char>,
    now_ns: u64,
    a: DbAnswers,
    later: u64,
    ts2: Timestamp,
    a2: DbAnswers,
)
    requires
        !id_dup(c.st, id, now_ns),
        now_ns <= later,
        later - now_ns < crate::state::SEEN_ID_TTL_NS,
    ensures
        private_outcome(c, from, to, content, ts, Some(id), now_ns, a) matches Outcome::Done(_, c2) ==> private_outcome(
            c2,
            from,
            to,
            content,
            ts2,
            Some(id),
            later,
            a2,
        ) == Outcome::Done(
            seq![Plan::Count(Tally::MessagesSent), Plan::Count(Tally::PrivateMessages)] + reply(
                c2.st.clients,
                from,
                MessageView::Ack { kind: AckKind::Delivered, info: "DM para "@ + to + " já entregue (dedup)."@, message_id: Some(id) },
            ),
            with_st(c2, marked(c2.st, id, later)),
        ),
{
    crate::state::law_new_id_is_duplicate_within_the_hour(c.st, id, now_ns, later);
}

/// A direct message to an offline user that does not exist is neither
/// stored nor queued: the sender is told the user was not found.
pub proof fn law_dm_to_unknown_user_is_not_kept(
    c: CoreView,
    from: Seq<char>,
    to: Seq<char>,
    content: Seq<char>,
    ts: Timestamp,
    mid: Option<Seq<char>>,
    a: DbAnswers,
)
    requires
        !c.st.clients.contains_key(to),
        c.auth is None || a.user_exists == Some(false),
    ensures
        private_plan(c, from, to, content, ts, mid, false, a) == Ok::<Seq<Plan>, QueryView>(
            seq![Plan::Count(Tally::MessagesSent), Plan::Count(Tally::PrivateMessages)] + reply(
                c.st.clients,
                from,
                MessageView::Error("Usuário '"@ + to + "' não encontrado."@),
            ),
        ),
{
}

/// With a database, the ordinary requests of a muted user are refused and
/// change nothing.
pub proof fn law_muted_user_is_refused(c: CoreView, u: Seq<char>, act: ChatAction, now: Timestamp, mono_ns: u64, a: DbAnswers)
    requires
        c.has_db,
        a.muted == Some(Ok::<bool, String>(true)),
        !is_staff_action(act),
    ensures
        action_outcome(c, u, act, now, mono_ns, a) == Outcome::Done(
            reply(c.st.clients, u, failed("🔇 Você está silenciado e não pode enviar mensagens"@)),
            c,
        ),
{
}

/// A request that only administrators may make: the moderation commands,
/// the list of administrators and the moderation log.
pub open spec fn is_admin_only(act: ChatAction) -> bool {
    act is AdminKick || act is AdminBan || act is AdminMute || act is AdminUnmute || act is AdminPromote
        || act is AdminDemote || act is AdminList || act is AdminLogs
}

/// With a database, a user who is not an administrator cannot moderate:
/// every request reserved to administrators is refused and changes
/// nothing.
pub proof fn law_non_admin_cannot_moderate(c: CoreView, u: Seq<char>, act: ChatAction, now: Timestamp, mono_ns: u64, a: DbAnswers)
    requires
        c.has_db,
        a.admin == Some(Ok::<bool, String>(false)),
        is_admin_only(act),
    ensures
        action_outcome(c, u, act, now, mono_ns, a) == Outcome::Done(reply(c.st.clients, u, failed("❌ Sem permissão (requer admin)"@)), c),
{
}

/// With a database, a direct message to an offline user whose inbox is
/// full is neither stored nor queued: it is counted, and the sender gets a
/// failure that carries the message id.
pub proof fn law_full_inbox_refuses_with_the_id(
    c: CoreView,
    from: Seq<char>,
    to: Seq<char>,
    content: Seq<char>,
    ts: Timestamp,
    mid: Option<Seq<char>>,
    a: DbAnswers,
    k: usize,
)
    requires
        c.has_db,
        c.auth is Some,
        !c.st.clients.contains_key(to),
        c.st.clients.contains_key(from),
        a.user_exists == Some(true),
        a.pending == Some(Ok::<usize, String>(k)),
        k >= c.max_pending,
    ensures
        private_plan(c, from, to, content, ts, mid, false, a) == Ok::<Seq<Plan>, QueryView>(
            seq![
                Plan::Count(Tally::MessagesSent),
                Plan::Count(Tally::PrivateMessages),
                Plan::Count(Tally::QueueFull),
                Plan::Send {
                    to: c.st.clients[from],
                    msg: MessageView::Ack {
                        kind: AckKind::Failed,
                        info: "Caixa de entrada de '"@ + to + "' cheia ("@ + decimal(k as nat) + "/"@ + decimal(
                            c.max_pending as nat,
                        ) + " mensagens). Tente mais tarde."@,
                        message_id: mid,
                    },
                },
            ],
        ),
{
    let p = private_plan(c, from, to, content, ts, mid, false, a);
    assert(p matches Ok(q) && q =~= seq![
        Plan::Count(Tally::MessagesSent),
        Plan::Count(Tally::PrivateMessages),
        Plan::Count(Tally::QueueFull),
        Plan::Send {
            to: c.st.clients[from],
            msg: MessageView::Ack {
                kind: AckKind::Failed,
                info: "Caixa de entrada de '"@ + to + "' cheia ("@ + decimal(k as nat) + "/"@ + decimal(
                    c.max_pending as nat,
                ) + " mensagens). Tente mais tarde."@,
                message_id: mid,
            },
        },
    ]);
}

/// A direct message to an online user ends in its hand-over, and should
/// the hand-over fail the sender gets a failure that carries the message
/// id, so that the message is not sent again.
pub proof fn law_failed_delivery_is_reported_with_the_id(
    c: CoreView,
    from: Seq<char>,
    to: Seq<char>,
    content: Seq<char>,
    ts: Timestamp,
    mid: Option<Seq<char>>,
    a: DbAnswers,
)
    requires
        c.st.clients.contains_key(to),
    ensures
        private_plan(c, from, to, content, ts, mid, false, a) matches Ok(p) && p.last() == (Plan::Deliver {
            to: c.st.clients[to],
            msg: MessageView::Private { from, to, content, timestamp: ts, message_id: mid },
            sender: lookup(c.st.clients, from),
            on_ok: MessageView::Ack { kind: AckKind::Delivered, info: "DM para "@ + to + " entregue."@, message_id: mid },
            on_err: MessageView::Ack { kind: AckKind::Failed, info: "Falha ao entregar DM para "@ + to + "."@, message_id: mid },
        }),
{
}

/// A user expelled or banned is disconnected and left in no room.
pub proof fn law_expelled_user_is_gone(core: &ChatCore, user: Seq<char>, target: Seq<char>, reason: Seq<char>, d: u64)
    requires
        core.wf(),
    ensures
        kick_outcome(core.model(), user, target, reason) matches Outcome::Done(_, c2) && !c2.st.clients.contains_key(target)
            && forall|r: Seq<char>| !#[trigger] set_of(c2.st.rooms, r).contains(target),
        ban_outcome(core.model(), user, target, d, reason) matches Outcome::Done(_, c3) && !c3.st.clients.contains_key(target)
            && forall|r: Seq<char>| !#[trigger] set_of(c3.st.rooms, r).contains(target),
{
    core.state.law_removed_user_is_gone(target);
}

/// Every message record that plan `p` stores is marked delivered exactly
/// when `d`.
pub open spec fn stores_delivered(p: Seq<Plan>, d: bool) -> bool {
    forall|i: int|
        0 <= i < p.len() ==> (#[trigger] p[i] matches Plan::Store(CommandView::InsertMessage { delivered, .. }) ==> delivered
            == d)
}

/// Joining two plans keeps `stores_delivered`.
proof fn lemma_stores_delivered_concat(a: Seq<Plan>, b: Seq<Plan>, d: bool)
    requires
        stores_delivered(a, d),
        stores_delivered(b, d),
    ensures
        stores_delivered(a + b, d),
{
    assert forall|i: int| 0 <= i < (a + b).len() implies (#[trigger] (a + b)[i] matches Plan::Store(
        CommandView::InsertMessage { delivered, .. },
    ) ==> delivered == d) by {
        if i < a.len() {
            assert((a + b)[i] == a[i]);
        } else {
            assert((a + b)[i] == b[i - a.len()]);
        }
    }
}

/// A direct message is recorded as delivered exactly when its recipient is
/// online: whatever a direct message's plan stores is marked delivered if
/// and only if the recipient is connected.
pub proof fn law_dm_is_stored_delivered_iff_online(
    c: CoreView,
    from: Seq<char>,
    to: Seq<char>,
    content: Seq<char>,
    ts: Timestamp,
    mid: Option<Seq<char>>,
    dup: bool,
    a: DbAnswers,
)
    ensures
        private_plan(c, from, to, content, ts, mid, dup, a) matches Ok(p) ==> stores_delivered(
            p,
            c.st.clients.contains_key(to),
        ),
{
    let cl = c.st.clients;
    let d = cl.contains_key(to);
    let head = seq![Plan::Count(Tally::MessagesSent), Plan::Count(Tally::PrivateMessages)];
    assert(stores_delivered(head, d));
    assert forall|m: MessageView| stores_delivered(#[trigger] reply(cl, from, m), d) by {}
    assert(stores_delivered(dm_stored(c, from, to, content, ts, mid, d), d));
    if d {
        let del = seq![
            Plan::Deliver {
                to: cl[to],
                msg: MessageView::Private { from, to, content, timestamp: ts, message_id: mid },
                sender: lookup(cl, from),
                on_ok: MessageView::Ack { kind: AckKind::Delivered, info: "DM para "@ + to + " entregue."@, message_id: mid },
                on_err: MessageView::Ack { kind: AckKind::Failed, info: "Falha ao entregar DM para "@ + to + "."@, message_id: mid },
            },
        ];
        assert(stores_delivered(del, d));
        lemma_stores_delivered_concat(head, dm_stored(c, from, to, content, ts, mid, true), d);
        lemma_stores_delivered_concat(head + dm_stored(c, from, to, content, ts, mid, true), del, d);
    }
    let ack = reply(
        cl,
        from,
        MessageView::Ack {
            kind: AckKind::Received,
            info: "Mensagem para "@ + to + " será entregue quando voltar online."@,
            message_id: mid,
        },
    );
    let q = seq![Plan::Count(Tally::MessagesQueued)];
    assert(stores_delivered(q, d));
    if !d {
        lemma_stores_delivered_concat(head, dm_stored(c, from, to, content, ts, mid, false), d);
        lemma_stores_delivered_concat(head + dm_stored(c, from, to, content, ts, mid, false), q, d);
        lemma_stores_delivered_concat(head + dm_stored(c, from, to, content, ts, mid, false) + q, ack, d);
    }
    assert forall|m: MessageView| stores_delivered(head + #[trigger] reply(cl, from, m), d) by {
        lemma_stores_delivered_concat(head, reply(cl, from, m), d);
    }
    let full = seq![Plan::Count(Tally::QueueFull)];
    assert(stores_delivered(full, d));
    assert forall|m: MessageView| stores_delivered(head + full + #[trigger] reply(cl, from, m), d) by {
        lemma_stores_delivered_concat(head, full, d);
        lemma_stores_delivered_concat(head + full, reply(cl, from, m), d);
    }
}

/// With a database, a direct message to an offline user who has an
/// account and room in the inbox is kept for later delivery: it is stored
/// as not delivered, and the sender is told it will be delivered on return.
pub proof fn law_dm_to_offline_user_is_kept(
    c: CoreView,
    from: Seq<char>,
    to: Seq<char>,
    content: Seq<char>,
    ts: Timestamp,
    mid: Option<Seq<char>>,
    a: DbAnswers,
    k: usize,
)
    requires
        c.has_db,
        c.auth is Some,
        !c.st.clients.contains_key(to),
        a.user_exists == Some(true),
        a.pending == Some(Ok::<usize, String>(k)),
        k < c.max_pending,
    ensures
        private_plan(c, from, to, content, ts, mid, false, a) matches Ok(p) && p[2] == Plan::Store(
            CommandView::InsertMessage {
                from_user: from,
                to_user: Some(to),
                room: None,
                content,
                timestamp: ts,
                message_id: mid,
                message_type: MessageType::Private,
                delivered: false,
            },
        ) && (c.st.clients.contains_key(from) ==> p.last() == Plan::Send {
            to: c.st.clients[from],
            msg: MessageView::Ack {
                kind: AckKind::Received,
                info: "Mensagem para "@ + to + " será entregue quando voltar online."@,
                message_id: mid,
            },
        }),
{
}

/// With a database, a successful login delivers what waited for the user:
/// its plan ends by flushing the user's pending messages.
pub proof fn law_login_flushes_pending(
    c: CoreView,
    u: Seq<char>,
    pw: Seq<char>,
    addr: PeerAddr,
    now: Timestamp,
    a: DbAnswers,
    token: Seq<char>,
)
    requires
        c.has_db,
        c.auth is Some,
        login_verdict(u, pw, a) == Some(Ok::<(), Seq<char>>(())),
    ensures
        login_outcome(c, u, pw, addr, now, a, token) matches Outcome::Done(p, _) && p.last() == (Plan::FlushPending {
            user: u,
        }),
{
}

/// The list of administrators, in words (see `admins_text`).
fn admins_message(names: &Vec<String>) -> (s: String)
    ensures
        s@ == admins_text(names@.map_values(|x: String| x@)),
{
    if names.len() == 0 {
        "Nenhum admin cadastrado".to_owned()
    } else {
        let n = decimal_string(names.len() as u64);
        let list = join_strings(names, ", ");
        concat4("👮 Admins (", n.as_str(), "): ", list.as_str())
    }
}

/// One line of the moderation log (see `log_line`).
fn log_line_text(l: &ModerationLog) -> (s: String)
    ensures
        s@ == log_line(*l),
{
    let mut s = concat4("[", l.timestamp.as_str(), "] ", l.moderator.as_str());
    push_str(&mut s, " → ");
    push_str(&mut s, l.target_user.as_str());
    push_str(&mut s, " (");
    push_str(&mut s, l.action.as_str());
    push_str(&mut s, "): ");
    match &l.reason {
        Some(r) => push_str(&mut s, r.as_str()),
        None => match &l.details {
            Some(d) => push_str(&mut s, d.as_str()),
            None => {},
        },
    }
    push_str(&mut s, "\n");
    s
}

/// The moderation log, in words (see `logs_text`).
fn logs_message(logs: &Vec<ModerationLog>) -> (s: String)
    ensures
        s@ == logs_text(logs@),
{
    if logs.len() == 0 {
        return "Nenhum log de moderação".to_owned();
    }
    let n = decimal_string(logs.len() as u64);
    let mut body = String::new();
    let mut i: usize = 0;
    while i < logs.len()
        invariant
            i <= logs@.len(),
            body@ == log_lines(logs@.subrange(0, i as int)),
        decreases logs@.len() - i,
    {
        proof {
            let w = logs@.subrange(0, i as int + 1);
            assert(w.drop_last() =~= logs@.subrange(0, i as int));
            if i == 0 {
                assert(logs@.subrange(0, 0) =~= Seq::<ModerationLog>::empty());
            }
        }
        let line = log_line_text(&logs[i]);
        push_str(&mut body, line.as_str());
        i = i + 1;
    }
    proof {
        assert(logs@.subrange(0, logs@.len() as int) =~= logs@);
    }
    let mut s = concat3("📋 Logs de Moderação (últimos ", n.as_str(), "):\n");
    push_str(&mut s, body.as_str());
    s
}

/// A room message goes to the room and nowhere else: every offer that a
/// room message of `u` (sent as an authenticated request) gives rise to
/// carries that message and targets exactly the users that are members of
/// the room and connected. When `u` has joined the room, is within the rate
/// limit and is not muted, the message is offered.
pub proof fn law_room_text_reaches_exactly_the_members(
    c: CoreView,
    u: Seq<char>,
    from: String,
    room: String,
    content: String,
    ts: Timestamp,
    now: Timestamp,
    mono_ns: u64,
    a: DbAnswers,
)
    ensures
        action_outcome(c, u, ChatAction::RoomText { from, room, content, timestamp: ts }, now, mono_ns, a) matches Outcome::Done(p, _)
            ==> forall|i: int| 0 <= i < p.len() ==> (#[trigger] p[i] matches Plan::Offer { users, msg, .. } ==> users
                == set_of(c.st.rooms, room@).intersect(c.st.clients.dom()) && msg == MessageView::RoomText {
                from: u,
                room: room@,
                content: content@,
                timestamp: ts,
            }),
        set_of(c.st.subs, u).contains(room@) && rate_ok(c.st, u, c.rate_limit, mono_ns) && (!c.has_db
            || a.muted == Some(Ok::<bool, String>(false))) ==> (action_outcome(
            c,
            u,
            ChatAction::RoomText { from, room, content, timestamp: ts },
            now,
            mono_ns,
            a,
        ) matches Outcome::Done(p, _) && p.len() == 1 && p[0] is Offer),
{
}

/// The same for a room message that arrives unauthenticated from the
/// connection of `u`.
pub proof fn law_room_message_reaches_exactly_the_members(
    c: CoreView,
    u: Seq<char>,
    from: String,
    room: String,
    content: String,
    ts: Timestamp,
    addr: PeerAddr,
    now: Timestamp,
    mono_ns: u64,
    a: DbAnswers,
)
    ensures
        message_outcome(c, ChatMessage::RoomText { from, room, content, timestamp: ts }, addr, now, mono_ns, a, Some(u))
            matches Outcome::Done(p, _) ==> forall|i: int| 0 <= i < p.len() ==> (#[trigger] p[i] matches Plan::Offer {
            users,
            msg,
            ..
        } ==> users == set_of(c.st.rooms, room@).intersect(c.st.clients.dom()) && msg == MessageView::RoomText {
            from: u,
            room: room@,
            content: content@,
            timestamp: ts,
        }),
{
}

/// A demotion demotes its target: whatever the answers, every demotion a
/// `AdminDemote { target }` request stores names `target`, and when an
/// administrator asks (with a database) the demotion of `target` is stored.
pub proof fn law_demotion_names_the_target(
    c: CoreView,
    u: Seq<char>,
    target: String,
    now: Timestamp,
    mono_ns: u64,
    a: DbAnswers,
)
    ensures
        action_outcome(c, u, ChatAction::AdminDemote { target }, now, mono_ns, a) matches Outcome::Done(p, _) ==> forall|
            i: int,
        |
            0 <= i < p.len() ==> (#[trigger] p[i] matches Plan::Store(CommandView::DemoteAdmin { username }) ==> username
                == target@),
        c.has_db && a.admin == Some(Ok::<bool, String>(true)) ==> (action_outcome(
            c,
            u,
            ChatAction::AdminDemote { target },
            now,
            mono_ns,
            a,
        ) matches Outcome::Done(p, _) && p.len() > 0 && p[0] == Plan::Store(CommandView::DemoteAdmin { username: target@ })),
{
}

/// A search asks for what the request asked: every search a
/// `SearchMessages` request starts is for its user, with its query, its
/// user filter and its limit (the default when none is given) unchanged;
/// with a database one is started.
pub proof fn law_search_keeps_query_and_filter(
    c: CoreView,
    u: Seq<char>,
    query: String,
    limit: Option<usize>,
    user_filter: Option<String>,
    now: Timestamp,
    mono_ns: u64,
    a: DbAnswers,
)
    ensures
        action_outcome(c, u, ChatAction::SearchMessages { query, limit, user_filter }, now, mono_ns, a) matches Outcome::Done(
            p,
            _,
        ) ==> forall|i: int| 0 <= i < p.len() ==> (#[trigger] p[i] matches Plan::Search { user, query: q, user_filter: f, limit: l }
            ==> user == u && q == query@ && f == opt_view(user_filter) && (limit matches Some(n) ==> l == n) && (limit is None
            ==> l == SEARCH_LIMIT)),
        c.has_db ==> (action_outcome(c, u, ChatAction::SearchMessages { query, limit, user_filter }, now, mono_ns, a) matches Outcome::Done(
            p,
            _,
        ) && p.len() == 1 && p[0] is Search),
{
}

/// Leaving a room leaves it: once the leave of `u` from `room` is let
/// through by the rate limiter, `u` is no longer a member of `room` nor
/// subscribed to it, and every other membership and subscription is as it
/// was.
pub proof fn law_leaving_a_room_leaves_it(c: CoreView, u: Seq<char>, room: String, addr: PeerAddr, now: Timestamp, mono_ns: u64, a: DbAnswers)
    requires
        rate_ok(c.st, u, c.rate_limit, mono_ns),
        c.st.rooms.contains_key(room@) ==> c.st.rooms[room@].finite(),
        c.st.subs.contains_key(u) ==> c.st.subs[u].finite(),
    ensures
        message_outcome(c, ChatMessage::LeaveRoom { room }, addr, now, mono_ns, a, Some(u)) matches Outcome::Done(_, c2)
            && !set_of(c2.st.rooms, room@).contains(u) && !set_of(c2.st.subs, u).contains(room@) && (forall|
            r: Seq<char>,
            v: Seq<char>,
        | (r != room@ || v != u) ==> (#[trigger] set_of(c2.st.rooms, r).contains(v) == set_of(c.st.rooms, r).contains(v)))
            && (forall|v: Seq<char>, r: Seq<char>| (r != room@ || v != u) ==> (#[trigger] set_of(c2.st.subs, v).contains(r)
            == set_of(c.st.subs, v).contains(r))),
        (!c.has_db || a.muted == Some(Ok::<bool, String>(false))) ==> (action_outcome(
            c,
            u,
            ChatAction::LeaveRoom { room },
            now,
            mono_ns,
            a,
        ) matches Outcome::Done(_, c2) && !set_of(c2.st.rooms, room@).contains(u) && !set_of(c2.st.subs, u).contains(room@)
            && (forall|r: Seq<char>, v: Seq<char>| (r != room@ || v != u) ==> (#[trigger] set_of(c2.st.rooms, r).contains(v)
            == set_of(c.st.rooms, r).contains(v))) && (forall|v: Seq<char>, r: Seq<char>| (r != room@ || v != u) ==> (
        #[trigger] set_of(c2.st.subs, v).contains(r) == set_of(c.st.subs, v).contains(r)))),
{
    if c.st.rooms.contains_key(room@) && c.st.rooms[room@].remove(u).len() == 0 {
        c.st.rooms[room@].remove(u).lemma_len0_is_empty();
    }
    if c.st.subs.contains_key(u) && c.st.subs[u].remove(room@).len() == 0 {
        c.st.subs[u].remove(room@).lemma_len0_is_empty();
    }
}

} // verus!
