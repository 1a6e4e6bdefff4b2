//! The decisions of the chat clients: how a typed line reads as a command,
//! which request a command sends, when an unconfirmed direct message is sent
//! again or given up, and how the replies of the server change what the
//! client holds.

use vstd::prelude::*;
use crate::auth::starts_with;
use crate::text::{
    contains_seq, first_index, find_char, opt_int, parse_usize, split_whitespace, str_contains,
    str_starts_with, trim, trim_of, usize_of, words_of,
};
use crate::state::str_equal;
use crate::model::{opt_view, AckKind, ChatAction, ChatMessage, MessageView, Timestamp};
use crate::text::{lowercase_of, to_lowercase, find_str, first_match};
use crate::tui::{App, Message};
use crate::clock::now_timestamp;
use crate::auth::random_token;

verus! {

/// Which messages of the local history an export writes.
#[derive(Clone, Copy, Debug, PartialEq, Eq, Structural)]
pub enum ExportFilter {
    All,
    Direct,
    Text,
}

/// A line typed at the line client, read as a command.
#[derive(Clone, Debug)]
pub enum ClientCommand {
    /// Nothing but whitespace.
    Empty,
    /// `/msg <to> <content>`.
    Private { to: String, content: String },
    /// `/msg` without both a recipient and a text.
    PrivateUsage,
    /// `/list`.
    List,
    /// `/history [user] [limit]`.
    History { to: Option<String>, limit: Option<usize> },
    /// `/export [--dm|--text] <path>`.
    Export { filter: ExportFilter, path: String },
    /// `/export` written otherwise.
    ExportUsage,
    /// `/register`.
    Register,
    /// Anything else: text for everyone.
    Text { content: String },
}

/// The content of a `ClientCommand`, strings as character sequences.
pub enum CommandView {
    Empty,
    Private { to: Seq<char>, content: Seq<char> },
    PrivateUsage,
    List,
    History { to: Option<Seq<char>>, limit: Option<usize> },
    Export { filter: ExportFilter, path: Seq<char> },
    ExportUsage,
    Register,
    Text { content: Seq<char> },
}

impl View for ClientCommand {
    type V = CommandView;

    open spec fn view(&self) -> CommandView {
        match self {
            ClientCommand::Empty => CommandView::Empty,
            ClientCommand::Private { to, content } => CommandView::Private { to: to@, content: content@ },
            ClientCommand::PrivateUsage => CommandView::PrivateUsage,
            ClientCommand::List => CommandView::List,
            ClientCommand::History { to, limit } => CommandView::History {
                to: crate::model::opt_view(*to),
                limit: *limit,
            },
            ClientCommand::Export { filter, path } => CommandView::Export { filter: *filter, path: path@ },
            ClientCommand::ExportUsage => CommandView::ExportUsage,
            ClientCommand::Register => CommandView::Register,
            ClientCommand::Text { content } => CommandView::Text { content: content@ },
        }
    }
}

/// What the words of an `/export` line ask for.
pub open spec fn export_of(w: Seq<Seq<char>>) -> CommandView {
    if w.len() == 3 && w[0] == "/export"@ {
        if w[1] == "--dm"@ {
            CommandView::Export { filter: ExportFilter::Direct, path: w[2] }
        } else if w[1] == "--text"@ {
            CommandView::Export { filter: ExportFilter::Text, path: w[2] }
        } else {
            CommandView::ExportUsage
        }
    } else if w.len() == 2 && w[0] == "/export"@ {
        CommandView::Export { filter: ExportFilter::All, path: w[1] }
    } else {
        CommandView::ExportUsage
    }
}

/// The command that the trimmed line `c` stands for. A `/msg` splits at
/// its first two spaces; `/history` and `/export` go by words.
pub open spec fn command_of(c: Seq<char>) -> CommandView {
    if c.len() == 0 {
        CommandView::Empty
    } else if starts_with(c, "/msg "@) {
        let rest = c.subrange("/msg "@.len() as int, c.len() as int);
        match first_index(rest, ' ') {
            Some(k) => CommandView::Private {
                to: rest.subrange(0, k),
                content: rest.subrange(k + 1, rest.len() as int),
            },
            None => CommandView::PrivateUsage,
        }
    } else if c == "/list"@ {
        CommandView::List
    } else if starts_with(c, "/history"@) {
        let w = words_of(c);
        CommandView::History {
            to: if w.len() >= 2 { Some(w[1]) } else { None },
            limit: if w.len() >= 3 { usize_of(w[2]) } else { None },
        }
    } else if starts_with(c, "/export"@) {
        if contains_seq(c, " "@) {
            export_of(words_of(c))
        } else {
            CommandView::ExportUsage
        }
    } else if c == "/register"@ {
        CommandView::Register
    } else {
        CommandView::Text { content: c }
    }
}

/// Reads the words of an `/export` line.
fn parse_export(words: &Vec<String>) -> (r: ClientCommand)
    ensures
        r@ == export_of(words@.map_values(|w: String| w@)),
{
    let ghost w = words@.map_values(|w: String| w@);
    if words.len() == 3 && str_equal(words[0].as_str(), "/export") {
        if str_equal(words[1].as_str(), "--dm") {
            ClientCommand::Export { filter: ExportFilter::Direct, path: words[2].clone() }
        } else if str_equal(words[1].as_str(), "--text") {
            ClientCommand::Export { filter: ExportFilter::Text, path: words[2].clone() }
        } else {
            ClientCommand::ExportUsage
        }
    } else if words.len() == 2 && str_equal(words[0].as_str(), "/export") {
        ClientCommand::Export { filter: ExportFilter::All, path: words[1].clone() }
    } else {
        ClientCommand::ExportUsage
    }
}

/// Reads a line typed at the line client: the line without its leading and
/// trailing whitespace, as `command_of` says.
pub fn parse_command(line: &str) -> (r: ClientCommand)
    ensures
        r@ == command_of(trim_of(line@)),
{
    let owned = trim(line);
    let c = owned.as_str();
    let n = c.unicode_len();
    if n == 0 {
        return ClientCommand::Empty;
    }
    if str_starts_with(c, "/msg ") {
        let p = "/msg ".unicode_len();
        let rest = c.substring_char(p, n);
        let m = rest.unicode_len();
        return match find_char(rest, ' ') {
            Some(k) => ClientCommand::Private {
                to: rest.substring_char(0, k).to_owned(),
                content: rest.substring_char(k + 1, m).to_owned(),
            },
            None => ClientCommand::PrivateUsage,
        };
    }
    if str_equal(c, "/list") {
        return ClientCommand::List;
    }
    if str_starts_with(c, "/history") {
        let words = split_whitespace(c);
        let to = if words.len() >= 2 { Some(words[1].clone()) } else { None };
        let limit = if words.len() >= 3 { parse_usize(words[2].as_str()) } else { None };
        return ClientCommand::History { to, limit };
    }
    if str_starts_with(c, "/export") {
        if str_contains(c, " ") {
            let words = split_whitespace(c);
            return parse_export(&words);
        }
        return ClientCommand::ExportUsage;
    }
    if str_equal(c, "/register") {
        return ClientCommand::Register;
    }
    ClientCommand::Text { content: owned.clone() }
}

/// `r` is a message that wraps, under session token `t`, an action for
/// which `act` holds.
pub open spec fn wraps(r: Option<ChatMessage>, t: Seq<char>, act: spec_fn(ChatAction) -> bool) -> bool {
    &&& r matches Some(m)
    &&& m@ matches MessageView::Authenticated { token, action }
    &&& token == t
    &&& act(action)
}

/// `r` sends `plain` when there is no session token, and otherwise wraps
/// under the token an action for which `act` holds.
pub open spec fn sends(
    r: Option<ChatMessage>,
    token: Option<Seq<char>>,
    plain: MessageView,
    act: spec_fn(ChatAction) -> bool,
) -> bool {
    match token {
        Some(t) => wraps(r, t, act),
        None => r matches Some(m) && m@ == plain,
    }
}

/// `r` is what the line client sends for `cmd`, typed by `user` (who logged
/// in with `password`) holding session token `token`, at `now`, with `id` as
/// the id of a new direct message. A history needs a session; a usage error,
/// an empty line and an export send nothing.
pub open spec fn is_request(
    r: Option<ChatMessage>,
    cmd: CommandView,
    user: Seq<char>,
    password: Seq<char>,
    token: Option<Seq<char>>,
    now: Timestamp,
    id: Seq<char>,
) -> bool {
    match cmd {
        CommandView::Private { to, content } => sends(
            r,
            token,
            MessageView::Private { from: user, to, content, timestamp: now, message_id: Some(id) },
            |a: ChatAction|
                a matches ChatAction::Private { from, to: t, content: c, timestamp, message_id }
                    && from@ == user && t@ == to && c@ == content && timestamp == now
                    && opt_view(message_id) == Some(id),
        ),
        CommandView::List => sends(
            r,
            token,
            MessageView::ListRequest { from: user },
            |a: ChatAction| a matches ChatAction::ListRequest { from } && from@ == user,
        ),
        CommandView::History { to, limit } => match token {
            Some(t) => wraps(
                r,
                t,
                |a: ChatAction|
                    a matches ChatAction::HistoryRequest { from, to: w, limit: l } && from@ == user
                        && opt_view(w) == to && l == limit,
            ),
            None => r is None,
        },
        CommandView::Register => r matches Some(m) && m@ == (MessageView::Register {
            username: user,
            password,
        }),
        CommandView::Text { content } => sends(
            r,
            token,
            MessageView::Text { from: user, content, timestamp: now },
            |a: ChatAction|
                a matches ChatAction::Text { from, content: c, timestamp } && from@ == user
                    && c@ == content && timestamp == now,
        ),
        _ => r is None,
    }
}

/// Copies a string.
fn copy_str(s: &str) -> (r: String)
    ensures
        r@ == s@,
{
    s.to_owned()
}

/// Wraps `action` under `token`, or sends `plain` without one.
fn authenticated_or(token: &Option<String>, action: ChatAction, plain: ChatMessage) -> (m: ChatMessage)
    ensures
        match *token {
            Some(t) => m@ == (MessageView::Authenticated { token: t@, action }),
            None => m == plain,
        },
{
    match token {
        Some(t) => ChatMessage::Authenticated { token: t.clone(), action: Box::new(action) },
        None => plain,
    }
}

/// The message that the line client sends for `cmd` at `now`, as
/// `is_request` says; `id` names a new direct message.
pub fn client_request_at(
    cmd: &ClientCommand,
    username: &str,
    password: &str,
    token: &Option<String>,
    now: Timestamp,
    id: &str,
) -> (r: Option<ChatMessage>)
    ensures
        is_request(r, cmd@, username@, password@, opt_view(*token), now, id@),
{
    match cmd {
        ClientCommand::Private { to, content } => {
            let action = ChatAction::Private {
                from: copy_str(username),
                to: to.clone(),
                content: content.clone(),
                timestamp: now,
                message_id: Some(copy_str(id)),
            };
            let plain = ChatMessage::Private {
                from: copy_str(username),
                to: to.clone(),
                content: content.clone(),
                timestamp: now,
                message_id: Some(copy_str(id)),
            };
            Some(authenticated_or(token, action, plain))
        },
        ClientCommand::List => {
            let action = ChatAction::ListRequest { from: copy_str(username) };
            let plain = ChatMessage::ListRequest { from: copy_str(username) };
            Some(authenticated_or(token, action, plain))
        },
        ClientCommand::History { to, limit } => match token {
            Some(t) => Some(
                ChatMessage::Authenticated {
                    token: t.clone(),
                    action: Box::new(
                        ChatAction::HistoryRequest {
                            from: copy_str(username),
                            to: crate::model::clone_opt(to),
                            limit: *limit,
                        },
                    ),
                },
            ),
            None => None,
        },
        ClientCommand::Register => Some(
            ChatMessage::Register { username: copy_str(username), password: copy_str(password) },
        ),
        ClientCommand::Text { content } => {
            let action = ChatAction::Text { from: copy_str(username), content: content.clone(), timestamp: now };
            let plain = ChatMessage::Text { from: copy_str(username), content: content.clone(), timestamp: now };
            Some(authenticated_or(token, action, plain))
        },
        _ => None,
    }
}

/// `client_request_at` at the current time, with a fresh random id for a
/// new direct message.
pub fn client_request(cmd: &ClientCommand, username: &str, password: &str, token: &Option<String>) -> (r: Option<
    ChatMessage,
>)
    ensures
        exists|now: Timestamp, id: Seq<char>|
            #[trigger] is_request(r, cmd@, username@, password@, opt_view(*token), now, id),
{
    let now = now_timestamp();
    let id = random_token();
    client_request_at(cmd, username, password, token, now, id.as_str())
}

/// A direct message sent and not yet confirmed by the server: its id, the
/// message, when it was last sent (ms) and how many times it was sent.
pub struct PendingDm {
    pub id: String,
    pub message: ChatMessage,
    pub last_sent_ms: u64,
    pub attempts: u8,
}

/// The direct messages that wait for a confirmation, in the order they were
/// first sent.
pub struct PendingTable {
    pub entries: Vec<PendingDm>,
}

/// Some entry of `s` has id `x`.
pub open spec fn has_id(s: Seq<PendingDm>, x: Seq<char>) -> bool {
    exists|j: int| 0 <= j < s.len() && #[trigger] s[j].id@ == x
}

/// No two entries of `s` share an id.
pub open spec fn distinct_ids(s: Seq<PendingDm>) -> bool {
    forall|i: int, j: int| 0 <= i < j < s.len() ==> #[trigger] s[i].id@ != #[trigger] s[j].id@
}

/// Time from `then` to `now` in ms, nothing if `now` comes first.
pub open spec fn elapsed(now: u64, then: u64) -> int {
    if now >= then {
        now - then
    } else {
        0
    }
}

/// The retry interval has passed since `e` was last sent.
pub open spec fn is_due(e: PendingDm, now: u64, interval: u64) -> bool {
    elapsed(now, e.last_sent_ms) >= interval
}

/// `e` sent once more at `now`.
pub open spec fn resent(e: PendingDm, now: u64) -> PendingDm {
    PendingDm { id: e.id, message: e.message, last_sent_ms: now, attempts: (e.attempts + 1) as u8 }
}

/// What stays pending after a retry round at `now`: a due message that was
/// sent `max` times or more is dropped, another due one is sent again.
pub open spec fn kept(s: Seq<PendingDm>, now: u64, interval: u64, max: u8) -> Seq<PendingDm>
    decreases s.len(),
{
    if s.len() == 0 {
        Seq::empty()
    } else {
        let rest = kept(s.drop_last(), now, interval, max);
        let e = s.last();
        if !is_due(e, now, interval) {
            rest.push(e)
        } else if e.attempts >= max {
            rest
        } else {
            rest.push(resent(e, now))
        }
    }
}

/// The ids of the messages that a retry round at `now` sends again, in order.
pub open spec fn resent_ids(s: Seq<PendingDm>, now: u64, interval: u64, max: u8) -> Seq<Seq<char>>
    decreases s.len(),
{
    if s.len() == 0 {
        Seq::empty()
    } else {
        let rest = resent_ids(s.drop_last(), now, interval, max);
        let e = s.last();
        if is_due(e, now, interval) && e.attempts < max {
            rest.push(e.id@)
        } else {
            rest
        }
    }
}

/// The messages that a retry round at `now` gives up, in order.
pub open spec fn given_up(s: Seq<PendingDm>, now: u64, interval: u64, max: u8) -> Seq<PendingDm>
    decreases s.len(),
{
    if s.len() == 0 {
        Seq::empty()
    } else {
        let rest = given_up(s.drop_last(), now, interval, max);
        let e = s.last();
        if is_due(e, now, interval) && e.attempts >= max {
            rest.push(e)
        } else {
            rest
        }
    }
}

/// The ids that a retry round keeps, sends again or gives up are ids of
/// the round's messages, and the messages kept have distinct ids when the
/// round's messages do.
proof fn lemma_round_ids(s: Seq<PendingDm>, now: u64, interval: u64, max: u8)
    ensures
        forall|i: int| 0 <= i < kept(s, now, interval, max).len() ==> #[trigger] has_id(s, kept(s, now, interval, max)[i].id@),
        forall|i: int| 0 <= i < resent_ids(s, now, interval, max).len() ==> #[trigger] has_id(s, resent_ids(s, now, interval, max)[i]),
        distinct_ids(s) ==> distinct_ids(kept(s, now, interval, max)),
    decreases s.len(),
{
    if s.len() > 0 {
        let d = s.drop_last();
        lemma_round_ids(d, now, interval, max);
        let k0 = kept(d, now, interval, max);
        let r0 = resent_ids(d, now, interval, max);
        assert forall|x: Seq<char>| has_id(d, x) implies has_id(s, x) by {
            let j = choose|j: int| 0 <= j < d.len() && #[trigger] d[j].id@ == x;
            assert(s[j] == d[j]);
        }
        assert(has_id(s, s.last().id@)) by {
            assert(s[s.len() - 1].id@ == s.last().id@);
        }
        let k = kept(s, now, interval, max);
        assert forall|i: int| 0 <= i < k.len() implies #[trigger] has_id(s, k[i].id@) by {
            if i < k0.len() {
                assert(k[i] == k0[i]);
                assert(has_id(d, k0[i].id@));
            }
        }
        let r = resent_ids(s, now, interval, max);
        assert forall|i: int| 0 <= i < r.len() implies #[trigger] has_id(s, r[i]) by {
            if i < r0.len() {
                assert(r[i] == r0[i]);
                assert(has_id(d, r0[i]));
            }
        }
        if distinct_ids(s) {
            assert(distinct_ids(d)) by {
                assert forall|i: int, j: int| 0 <= i < j < d.len() implies #[trigger] d[i].id@ != #[trigger] d[j].id@ by {
                    assert(d[i] == s[i] && d[j] == s[j]);
                }
            }
            assert(!has_id(d, s.last().id@)) by {
                if has_id(d, s.last().id@) {
                    let j = choose|j: int| 0 <= j < d.len() && #[trigger] d[j].id@ == s.last().id@;
                    assert(d[j] == s[j]);
                    assert(s[j].id@ != s[s.len() - 1].id@);
                }
            }
            assert forall|i: int, j: int| 0 <= i < j < k.len() implies #[trigger] k[i].id@ != #[trigger] k[j].id@ by {
                if j >= k0.len() {
                    assert(k[i] == k0[i]);
                    assert(has_id(d, k0[i].id@));
                    assert(k[j].id@ == s.last().id@);
                } else {
                    assert(k[i] == k0[i] && k[j] == k0[j]);
                }
            }
        }
    }
}

impl PendingTable {
    /// The table's invariant: no two pending messages share an id.
    pub open spec fn wf(&self) -> bool {
        distinct_ids(self.entries@)
    }

    /// An empty table.
    pub fn new() -> (t: Self)
        ensures
            t.wf(),
            t.entries@.len() == 0,
    {
        PendingTable { entries: Vec::new() }
    }

    /// The position of the message with id `id`, if one is pending.
    fn position(&self, id: &str) -> (r: Option<usize>)
        requires
            self.wf(),
        ensures
            r is None <==> !has_id(self.entries@, id@),
            r matches Some(i) ==> i < self.entries@.len() && self.entries@[i as int].id@ == id@,
    {
        let mut i: usize = 0;
        while i < self.entries.len()
            invariant
                i <= self.entries@.len(),
                forall|j: int| 0 <= j < i ==> #[trigger] self.entries@[j].id@ != id@,
            decreases self.entries@.len() - i,
        {
            if str_equal(self.entries[i].id.as_str(), id) {
                return Some(i);
            }
            i = i + 1;
        }
        None
    }

    /// Records that the message `message` with id `id` was sent at
    /// `now_ms`, once: it replaces a pending message with the same id, and
    /// otherwise comes last.
    pub fn insert(&mut self, id: String, message: ChatMessage, now_ms: u64)
        requires
            old(self).wf(),
        ensures
            final(self).wf(),
            ({
                let e = PendingDm { id, message, last_sent_ms: now_ms, attempts: 1 };
                if has_id(old(self).entries@, id@) {
                    exists|i: int|
                        0 <= i < old(self).entries@.len() && #[trigger] old(self).entries@[i].id@ == id@
                            && final(self).entries@ == old(self).entries@.update(i, e)
                } else {
                    final(self).entries@ == old(self).entries@.push(e)
                }
            }),
    {
        let ghost e = PendingDm { id, message, last_sent_ms: now_ms, attempts: 1 };
        match self.position(id.as_str()) {
            Some(i) => {
                self.entries.set(i, PendingDm { id, message, last_sent_ms: now_ms, attempts: 1 });
                proof {
                    let s = final(self).entries@;
                    assert forall|a: int, b: int| 0 <= a < b < s.len() implies #[trigger] s[a].id@ != #[trigger] s[b].id@ by {
                        if a != i && b != i {
                            assert(s[a] == old(self).entries@[a] && s[b] == old(self).entries@[b]);
                        } else if a == i {
                            assert(old(self).entries@[a].id@ != old(self).entries@[b].id@);
                        } else {
                            assert(old(self).entries@[a].id@ != old(self).entries@[b].id@);
                        }
                    }
                }
            },
            None => {
                self.entries.push(PendingDm { id, message, last_sent_ms: now_ms, attempts: 1 });
                proof {
                    let s = final(self).entries@;
                    let o = old(self).entries@;
                    assert forall|a: int, b: int| 0 <= a < b < s.len() implies #[trigger] s[a].id@ != #[trigger] s[b].id@ by {
                        if b == o.len() {
                            assert(s[a] == o[a]);
                            assert(!has_id(o, e.id@));
                            assert(o[a].id@ != e.id@);
                        } else {
                            assert(s[a] == o[a] && s[b] == o[b]);
                        }
                    }
                }
            },
        }
    }

    /// The server confirmed message `id`: it is no longer pending. Says
    /// whether it was.
    pub fn confirm(&mut self, id: &str) -> (found: bool)
        requires
            old(self).wf(),
        ensures
            final(self).wf(),
            found == has_id(old(self).entries@, id@),
            found ==> exists|i: int|
                0 <= i < old(self).entries@.len() && #[trigger] old(self).entries@[i].id@ == id@
                    && final(self).entries@ == old(self).entries@.remove(i),
            !found ==> final(self).entries@ == old(self).entries@,
            !has_id(final(self).entries@, id@),
    {
        match self.position(id) {
            Some(i) => {
                let ghost o = self.entries@;
                let _ = self.entries.remove(i);
                proof {
                    let s = self.entries@;
                    assert forall|a: int, b: int| 0 <= a < b < s.len() implies #[trigger] s[a].id@ != #[trigger] s[b].id@ by {
                        let a2 = if a < i { a } else { a + 1 };
                        let b2 = if b < i { b } else { b + 1 };
                        assert(s[a] == o[a2] && s[b] == o[b2]);
                    }
                    if has_id(s, id@) {
                        let j = choose|j: int| 0 <= j < s.len() && #[trigger] s[j].id@ == id@;
                        let j2 = if j < i { j } else { j + 1 };
                        assert(s[j] == o[j2]);
                        assert(o[i as int].id@ == id@);
                    }
                }
                true
            },
            None => false,
        }
    }

    /// The pending message with id `id`, if any.
    pub fn message_of(&self, id: &str) -> (r: Option<&ChatMessage>)
        requires
            self.wf(),
        ensures
            r is None <==> !has_id(self.entries@, id@),
            r matches Some(m) ==> exists|i: int|
                0 <= i < self.entries@.len() && #[trigger] self.entries@[i].id@ == id@
                    && *m == self.entries@[i].message,
    {
        match self.position(id) {
            Some(i) => Some(&self.entries[i].message),
            None => None,
        }
    }

    /// One round of the retry task at `now_ms`: each message whose retry
    /// interval has passed is given up, once sent `max_attempts` times or
    /// more, or else counted as sent once more at `now_ms`. Returns the ids
    /// to send again and the messages given up.
    pub fn retry_round(&mut self, now_ms: u64, interval_ms: u64, max_attempts: u8) -> (r: (
        Vec<String>,
        Vec<PendingDm>,
    ))
        requires
            old(self).wf(),
        ensures
            final(self).wf(),
            final(self).entries@ == kept(old(self).entries@, now_ms, interval_ms, max_attempts),
            r.0@.map_values(|x: String| x@) == resent_ids(old(self).entries@, now_ms, interval_ms, max_attempts),
            r.1@ == given_up(old(self).entries@, now_ms, interval_ms, max_attempts),
    {
        let mut rest: Vec<PendingDm> = Vec::new();
        core::mem::swap(&mut rest, &mut self.entries);
        let ghost s = rest@;
        let mut again: Vec<String> = Vec::new();
        let mut failed: Vec<PendingDm> = Vec::new();
        let ghost mut k: int = 0;
        while rest.len() > 0
            invariant
                0 <= k <= s.len(),
                rest@ == s.subrange(k, s.len() as int),
                self.entries@ == kept(s.subrange(0, k), now_ms, interval_ms, max_attempts),
                again@.map_values(|x: String| x@) == resent_ids(s.subrange(0, k), now_ms, interval_ms, max_attempts),
                failed@ == given_up(s.subrange(0, k), now_ms, interval_ms, max_attempts),
            decreases rest@.len(),
        {
            let mut e = rest.remove(0);
            proof {
                assert(s.subrange(0, k + 1).drop_last() =~= s.subrange(0, k));
                assert(s.subrange(0, k + 1).last() == e);
                assert(rest@ =~= s.subrange(k + 1, s.len() as int));
            }
            let due = if now_ms >= e.last_sent_ms {
                now_ms - e.last_sent_ms >= interval_ms
            } else {
                interval_ms == 0
            };
            if !due {
                self.entries.push(e);
            } else if e.attempts >= max_attempts {
                failed.push(e);
            } else {
                e.attempts = e.attempts + 1;
                e.last_sent_ms = now_ms;
                again.push(e.id.clone());
                self.entries.push(e);
            }
            proof {
                k = k + 1;
                assert(again@.map_values(|x: String| x@) =~= resent_ids(s.subrange(0, k), now_ms, interval_ms, max_attempts));
            }
        }
        proof {
            assert(s.subrange(0, s.len() as int) =~= s);
            lemma_round_ids(s, now_ms, interval_ms, max_attempts);
        }
        (again, failed)
    }
}

/// A message that is no longer pending (a confirmation removes it) is
/// never sent again by a retry round.
pub proof fn law_confirmed_message_is_not_resent(s: Seq<PendingDm>, id: Seq<char>, now: u64, interval: u64, max: u8)
    requires
        !has_id(s, id),
    ensures
        !resent_ids(s, now, interval, max).contains(id),
{
    lemma_round_ids(s, now, interval, max);
    if resent_ids(s, now, interval, max).contains(id) {
        let i = choose|i: int| 0 <= i < resent_ids(s, now, interval, max).len() && resent_ids(s, now, interval, max)[i] == id;
        assert(has_id(s, resent_ids(s, now, interval, max)[i]));
    }
}

/// No message is sent more often than allowed: when every pending message
/// was sent at most `max` times (and `max` allows the first send), so was
/// every message that a retry round keeps.
pub proof fn law_sends_stay_within_limit(s: Seq<PendingDm>, now: u64, interval: u64, max: u8)
    requires
        1 <= max,
        forall|i: int| 0 <= i < s.len() ==> #[trigger] s[i].attempts <= max,
    ensures
        forall|i: int|
            0 <= i < kept(s, now, interval, max).len() ==> #[trigger] kept(s, now, interval, max)[i].attempts <= max,
    decreases s.len(),
{
    if s.len() > 0 {
        let d = s.drop_last();
        assert forall|i: int| 0 <= i < d.len() implies #[trigger] d[i].attempts <= max by {
            assert(d[i] == s[i]);
        }
        law_sends_stay_within_limit(d, now, interval, max);
        assert(s.last() == s[s.len() - 1]);
        let k = kept(s, now, interval, max);
        let k0 = kept(d, now, interval, max);
        assert forall|i: int| 0 <= i < k.len() implies #[trigger] k[i].attempts <= max by {
            if i < k0.len() {
                assert(k[i] == k0[i]);
            }
        }
    }
}

/// A retry round loses no message: each pending message is either still
/// pending afterwards or reported as given up, and only messages still
/// pending are sent again.
pub proof fn law_round_loses_no_message(s: Seq<PendingDm>, now: u64, interval: u64, max: u8)
    ensures
        kept(s, now, interval, max).len() + given_up(s, now, interval, max).len() == s.len(),
        resent_ids(s, now, interval, max).len() <= kept(s, now, interval, max).len(),
    decreases s.len(),
{
    if s.len() > 0 {
        law_round_loses_no_message(s.drop_last(), now, interval, max);
    }
}

/// How many received messages the line client keeps for `/export`.
pub const HISTORY_KEEP: usize = 200;

/// How long (ms) after the last key the client says it stopped typing.
pub const TYPING_DEBOUNCE_MS: u64 = 500;

/// An acknowledgement of kind `kind` saying `info` tells the client that its
/// session token is no longer good: a failure that reports an invalid or
/// expired token.
pub open spec fn token_rejected_by(kind: AckKind, info: Seq<char>) -> bool {
    kind == AckKind::Failed && (contains_seq(lowercase_of(info), "token inválido"@) || contains_seq(
        lowercase_of(info),
        "expirad"@,
    ))
}

/// Whether an acknowledgement makes the client drop its session token.
pub fn token_rejected(kind: AckKind, info: &str) -> (r: bool)
    ensures
        r == token_rejected_by(kind, info@),
{
    let failed = match kind {
        AckKind::Failed => true,
        _ => false,
    };
    if !failed {
        return false;
    }
    let lower = to_lowercase(info);
    str_contains(lower.as_str(), "token inválido") || str_contains(lower.as_str(), "expirad")
}

/// An error from the server that suggests creating the account.
pub open spec fn suggests_register_for(error: Seq<char>) -> bool {
    contains_seq(error, "não existe"@) || contains_seq(error, "não encontrado"@)
}

/// Whether the client suggests `/register` after the error `error`.
pub fn suggests_register(error: &str) -> (r: bool)
    ensures
        r == suggests_register_for(error@),
{
    str_contains(error, "não existe") || str_contains(error, "não encontrado")
}

/// The local history after receiving `m`: `m` comes last and only the last
/// `HISTORY_KEEP` messages stay.
pub open spec fn remembered(h: Seq<ChatMessage>, m: ChatMessage) -> Seq<ChatMessage> {
    if h.len() + 1 > HISTORY_KEEP {
        h.push(m).drop_first()
    } else {
        h.push(m)
    }
}

/// Keeps a received message in the local history.
pub fn remember(history: &mut Vec<ChatMessage>, m: ChatMessage)
    ensures
        final(history)@ == remembered(old(history)@, m),
{
    history.push(m);
    if history.len() > HISTORY_KEEP {
        let _ = history.remove(0);
        proof {
            assert(final(history)@ =~= old(history)@.push(m).drop_first());
        }
    }
}

/// `m` belongs to an export with filter `f`.
pub open spec fn exported(m: ChatMessage, f: ExportFilter) -> bool {
    match f {
        ExportFilter::All => true,
        ExportFilter::Direct => m is Private,
        ExportFilter::Text => m is Text,
    }
}

/// The messages of `h` that an export with filter `f` writes, in order.
pub open spec fn selection(h: Seq<ChatMessage>, f: ExportFilter) -> Seq<ChatMessage>
    decreases h.len(),
{
    if h.len() == 0 {
        Seq::empty()
    } else if exported(h.last(), f) {
        selection(h.drop_last(), f).push(h.last())
    } else {
        selection(h.drop_last(), f)
    }
}

/// The messages of the local history that an export writes.
pub fn export_selection(history: &Vec<ChatMessage>, filter: ExportFilter) -> (v: Vec<&ChatMessage>)
    ensures
        v@.map_values(|m: &ChatMessage| *m) == selection(history@, filter),
{
    let mut v: Vec<&ChatMessage> = Vec::new();
    let mut i: usize = 0;
    while i < history.len()
        invariant
            i <= history@.len(),
            v@.map_values(|m: &ChatMessage| *m) == selection(history@.subrange(0, i as int), filter),
        decreases history@.len() - i,
    {
        let m = &history[i];
        let keep = match filter {
            ExportFilter::All => true,
            ExportFilter::Direct => match m {
                ChatMessage::Private { .. } => true,
                _ => false,
            },
            ExportFilter::Text => match m {
                ChatMessage::Text { .. } => true,
                _ => false,
            },
        };
        proof {
            assert(history@.subrange(0, i + 1).drop_last() =~= history@.subrange(0, i as int));
            assert(history@.subrange(0, i + 1).last() == *m);
        }
        if keep {
            v.push(m);
        }
        proof {
            assert(v@.map_values(|m: &ChatMessage| *m) =~= selection(history@.subrange(0, i + 1), filter));
        }
        i = i + 1;
    }
    proof {
        assert(history@.subrange(0, history@.len() as int) =~= history@);
    }
    v
}

/// Whether the client now says it stopped typing: it said it was typing
/// and `TYPING_DEBOUNCE_MS` passed since the last key.
pub fn typing_should_stop(typing: bool, last_key_ms: Option<u64>, now_ms: u64) -> (r: bool)
    ensures
        r == (typing && match last_key_ms {
            Some(t) => elapsed(now_ms, t) >= TYPING_DEBOUNCE_MS,
            None => false,
        }),
{
    match last_key_ms {
        Some(t) => typing && if now_ms >= t {
            now_ms - t >= TYPING_DEBOUNCE_MS
        } else {
            false
        },
        None => false,
    }
}

/// How many results the terminal client asks a search for.
pub const SEARCH_RESULTS: usize = 50;

/// What Enter does in the terminal client with the typed text.
pub enum InputView {
    /// Shows a notification and sends nothing.
    Notify(Seq<char>),
    /// `/msg <to> <content>`.
    Private { to: Seq<char>, content: Seq<char> },
    /// `/join <room>`: the room becomes the current one.
    Join(Seq<char>),
    /// `/leave`: leaves the current room.
    Leave(Seq<char>),
    /// `/search <query> [from:user]`.
    Search { query: Seq<char>, user: Option<Seq<char>> },
    /// Anything else, outside a room: text for everyone.
    Text(Seq<char>),
    /// Anything else, in a room: text for the current room.
    RoomText { room: Seq<char>, content: Seq<char> },
}

/// The query and the sender filter of the text after `/search `: the part
/// after the first `from:` names the sender, both parts trimmed.
pub open spec fn search_parts(si: Seq<char>) -> (Seq<char>, Option<Seq<char>>) {
    match first_match(si, "from:"@) {
        Some(i) => (
            trim_of(si.subrange(0, i)),
            Some(trim_of(si.subrange(i + "from:"@.len(), si.len() as int))),
        ),
        None => (si, None),
    }
}

/// What Enter does with the typed text `input` (not empty), while `room` is
/// the current room.
pub open spec fn input_of(input: Seq<char>, room: Option<Seq<char>>) -> InputView {
    if starts_with(input, "/msg "@) {
        let rest = input.subrange("/msg "@.len() as int, input.len() as int);
        match first_index(rest, ' ') {
            Some(k) => InputView::Private { to: rest.subrange(0, k), content: rest.subrange(k + 1, rest.len() as int) },
            None => InputView::Notify("Uso: /msg <usuario> <mensagem>"@),
        }
    } else if starts_with(input, "/join "@) {
        let r = trim_of(input.subrange("/join "@.len() as int, input.len() as int));
        if r.len() > 0 {
            InputView::Join(r)
        } else {
            InputView::Notify("Uso: /join <sala>"@)
        }
    } else if starts_with(input, "/leave"@) {
        match room {
            Some(r) => InputView::Leave(r),
            None => InputView::Notify("Você não está em nenhuma sala"@),
        }
    } else if starts_with(input, "/search "@) {
        let (query, user) = search_parts(input.subrange("/search "@.len() as int, input.len() as int));
        if query.len() > 0 {
            InputView::Search { query, user }
        } else {
            InputView::Notify("Uso: /search <query> [from:user]"@)
        }
    } else {
        match room {
            Some(r) => InputView::RoomText { room: r, content: input },
            None => InputView::Text(input),
        }
    }
}

/// `a` and `b` agree on everything but the typed text, the current room
/// and the notification.
pub open spec fn same_but_input(a: App, b: App) -> bool {
    &&& a.messages == b.messages
    &&& a.users_online == b.users_online
    &&& a.current_tab == b.current_tab
    &&& a.tabs == b.tabs
    &&& a.scroll_offset == b.scroll_offset
    &&& a.username == b.username
    &&& a.typing_users == b.typing_users
    &&& a.unread_counts == b.unread_counts
    &&& a.auto_scroll == b.auto_scroll
    &&& a.colors == b.colors
}

/// `after` and `r` are what Enter gives in `before` with session token
/// `token`, at `now`, with `id` for a new direct message: the typed text is
/// consumed; with no text or no session nothing else happens.
pub open spec fn submitted(before: App, after: App, r: Option<ChatMessage>, token: Option<Seq<char>>, now: Timestamp, id: Seq<char>) -> bool {
    let user = before.username@;
    let same_room = opt_view(after.current_room) == opt_view(before.current_room);
    let same_note = after.notification_message == before.notification_message
        && after.show_notification == before.show_notification;
    &&& after.input@ == Seq::<char>::empty()
    &&& same_but_input(before, after)
    &&& if before.input@.len() == 0 || token is None {
        r is None && same_room && same_note
    } else {
        let t = token->0;
        match input_of(before.input@, opt_view(before.current_room)) {
            InputView::Notify(text) => r is None && same_room && after.notification_message@ == text
                && after.show_notification,
            InputView::Private { to, content } => same_room && same_note && wraps(
                r,
                t,
                |a: ChatAction|
                    a matches ChatAction::Private { from, to: w, content: c, timestamp, message_id }
                        && from@ == user && w@ == to && c@ == content && timestamp == now
                        && opt_view(message_id) == Some(id),
            ),
            InputView::Join(room) => same_note && opt_view(after.current_room) == Some(room) && wraps(
                r,
                t,
                |a: ChatAction| a matches ChatAction::JoinRoom { room: w } && w@ == room,
            ),
            InputView::Leave(room) => same_note && after.current_room is None && wraps(
                r,
                t,
                |a: ChatAction| a matches ChatAction::LeaveRoom { room: w } && w@ == room,
            ),
            InputView::Search { query, user: who } => same_room && same_note && wraps(
                r,
                t,
                |a: ChatAction|
                    a matches ChatAction::SearchMessages { query: q, limit, user_filter }
                        && q@ == query && limit == Some(SEARCH_RESULTS) && opt_view(user_filter) == who,
            ),
            InputView::Text(content) => same_room && same_note && wraps(
                r,
                t,
                |a: ChatAction|
                    a matches ChatAction::Text { from, content: c, timestamp } && from@ == user
                        && c@ == content && timestamp == now,
            ),
            InputView::RoomText { room, content } => same_room && same_note && wraps(
                r,
                t,
                |a: ChatAction|
                    a matches ChatAction::RoomText { from, room: w, content: c, timestamp } && from@ == user
                        && w@ == room && c@ == content && timestamp == now,
            ),
        }
    }
}

/// Splits the text after `/search ` into query and sender filter.
fn split_search(si: &str) -> (r: (String, Option<String>))
    ensures
        (r.0@, opt_view(r.1)) == search_parts(si@),
{
    match find_str(si, "from:") {
        Some(i) => {
            let n = si.unicode_len();
            let f = "from:".unicode_len();
            let query = trim(si.substring_char(0, i));
            let user = trim(si.substring_char(i + f, n));
            (query, Some(user))
        },
        None => (copy_str(si), None),
    }
}

impl App {
    /// Enter in the terminal client, as `submitted` says: consumes the
    /// typed text and gives the request to send, if any.
    #[verifier::rlimit(100)]
    pub fn submit_input(&mut self, token: &Option<String>, now: Timestamp, id: &str) -> (r: Option<ChatMessage>)
        ensures
            submitted(*old(self), *final(self), r, opt_view(*token), now, id@),
    {
        let mut input = String::new();
        core::mem::swap(&mut input, &mut self.input);
        let text = input.as_str();
        let n = text.unicode_len();
        if n == 0 {
            return None;
        }
        let t = match token {
            Some(t) => t,
            None => return None,
        };
        if str_starts_with(text, "/msg ") {
            let p = "/msg ".unicode_len();
            let rest = text.substring_char(p, n);
            let m = rest.unicode_len();
            return match find_char(rest, ' ') {
                Some(k) => Some(
                    ChatMessage::Authenticated {
                        token: t.clone(),
                        action: Box::new(
                            ChatAction::Private {
                                from: self.username.clone(),
                                to: rest.substring_char(0, k).to_owned(),
                                content: rest.substring_char(k + 1, m).to_owned(),
                                timestamp: now,
                                message_id: Some(copy_str(id)),
                            },
                        ),
                    },
                ),
                None => {
                    self.set_notification("Uso: /msg <usuario> <mensagem>".to_owned());
                    None
                },
            };
        }
        if str_starts_with(text, "/join ") {
            let p = "/join ".unicode_len();
            let room = trim(text.substring_char(p, n));
            if room.as_str().unicode_len() > 0 {
                self.current_room = Some(room.clone());
                return Some(ChatMessage::Authenticated { token: t.clone(), action: Box::new(ChatAction::JoinRoom { room }) });
            }
            self.set_notification("Uso: /join <sala>".to_owned());
            return None;
        }
        if str_starts_with(text, "/leave") {
            let current = crate::model::clone_opt(&self.current_room);
            return match current {
                Some(room) => {
                    self.current_room = None;
                    Some(ChatMessage::Authenticated { token: t.clone(), action: Box::new(ChatAction::LeaveRoom { room }) })
                },
                None => {
                    self.set_notification("Você não está em nenhuma sala".to_owned());
                    None
                },
            };
        }
        if str_starts_with(text, "/search ") {
            let p = "/search ".unicode_len();
            let (query, user_filter) = split_search(text.substring_char(p, n));
            if query.as_str().unicode_len() > 0 {
                return Some(
                    ChatMessage::Authenticated {
                        token: t.clone(),
                        action: Box::new(ChatAction::SearchMessages { query, limit: Some(SEARCH_RESULTS), user_filter }),
                    },
                );
            }
            self.set_notification("Uso: /search <query> [from:user]".to_owned());
            return None;
        }
        let action = match &self.current_room {
            Some(room) => ChatAction::RoomText {
                from: self.username.clone(),
                room: room.clone(),
                content: input.clone(),
                timestamp: now,
            },
            None => ChatAction::Text { from: self.username.clone(), content: input.clone(), timestamp: now },
        };
        Some(ChatMessage::Authenticated { token: t.clone(), action: Box::new(action) })
    }
}

/// The room that a system notice `info` names when it reports entering or
/// leaving a room: its last word.
pub open spec fn ack_room_of(info: Seq<char>) -> Option<Seq<char>> {
    if contains_seq(info, "Entrou na sala"@) || contains_seq(info, "Saiu da sala"@) {
        let w = words_of(info);
        if w.len() > 0 {
            Some(w.last())
        } else {
            None
        }
    } else {
        None
    }
}

/// The room named by a notice of entering or leaving a room.
pub fn ack_room(info: &str) -> (r: Option<String>)
    ensures
        opt_view(r) == ack_room_of(info@),
{
    if str_contains(info, "Entrou na sala") || str_contains(info, "Saiu da sala") {
        let mut words = split_whitespace(info);
        let ghost v = words@;
        proof {
            assert(v.map_values(|w: String| w@).len() == v.len());
        }
        match words.pop() {
            Some(w) => {
                proof {
                    assert(v.map_values(|w: String| w@).last() == v.last()@);
                }
                Some(w)
            },
            None => None,
        }
    } else {
        None
    }
}

/// `m` shows text `content` from `from` at `time`, in a tab that `is_dm`
/// and `room` choose.
pub open spec fn shows_as(
    m: Message,
    from: Seq<char>,
    content: Seq<char>,
    time: Seq<char>,
    is_dm: bool,
    is_system: bool,
    room: Option<Seq<char>>,
) -> bool {
    &&& m.from@ == from
    &&& m.content@ == content
    &&& m.timestamp@ == time
    &&& m.is_dm == is_dm
    &&& m.is_system == is_system
    &&& opt_view(m.room) == room
}

/// What the terminal client shows for a received message, with `time` as
/// the local time it was sent (or received, for notices): text and direct
/// messages as they are, acknowledgements from "Sistema", in the rooms tab
/// when they report entering or leaving a room.
pub fn shown_message(msg: &ChatMessage, time: &str) -> (r: Option<Message>)
    ensures
        match msg@ {
            MessageView::Text { from, content, .. } => r matches Some(m) && shows_as(m, from, content, time@, false, false, None),
            MessageView::Private { from, content, .. } => r matches Some(m) && shows_as(m, from, content, time@, true, false, None),
            MessageView::Ack { kind, info, .. } => r matches Some(m) && shows_as(
                m,
                "Sistema"@,
                info,
                time@,
                false,
                kind == AckKind::System,
                ack_room_of(info),
            ),
            _ => r is None,
        },
{
    match msg {
        ChatMessage::Text { from, content, .. } => Some(
            Message { from: from.clone(), content: content.clone(), timestamp: copy_str(time), is_dm: false, is_system: false, room: None },
        ),
        ChatMessage::Private { from, content, .. } => Some(
            Message { from: from.clone(), content: content.clone(), timestamp: copy_str(time), is_dm: true, is_system: false, room: None },
        ),
        ChatMessage::Ack { kind, info, .. } => {
            let is_system = match kind {
                AckKind::System => true,
                _ => false,
            };
            Some(
                Message {
                    from: "Sistema".to_owned(),
                    content: info.clone(),
                    timestamp: copy_str(time),
                    is_dm: false,
                    is_system,
                    room: ack_room(info.as_str()),
                },
            )
        },
        _ => None,
    }
}

/// The read receipt that `reader` sends back for a received direct
/// message that carries an id.
pub fn read_receipt(msg: &ChatMessage, reader: &str) -> (r: Option<ChatMessage>)
    ensures
        match msg@ {
            MessageView::Private { message_id: Some(id), .. } => r matches Some(m) && m@ == (MessageView::ReadReceipt {
                message_id: id,
                reader: reader@,
            }),
            _ => r is None,
        },
{
    match msg {
        ChatMessage::Private { message_id: Some(id), .. } => Some(
            ChatMessage::ReadReceipt { message_id: id.clone(), reader: copy_str(reader) },
        ),
        _ => None,
    }
}

/// How long (ms) a user stays shown as typing without a new notice.
pub const TYPING_SHOWN_MS: u64 = 2000;

/// No two entries of `s` name the same user.
pub open spec fn distinct_names(s: Seq<(String, u64)>) -> bool {
    forall|i: int, j: int| 0 <= i < j < s.len() ==> #[trigger] s[i].0@ != #[trigger] s[j].0@
}

/// Some entry of `s` names `user`.
pub open spec fn names(s: Seq<(String, u64)>, user: Seq<char>) -> bool {
    exists|j: int| 0 <= j < s.len() && #[trigger] s[j].0@ == user
}

/// The typing users still shown at `now`: those seen less than
/// `TYPING_SHOWN_MS` ago, in order.
pub open spec fn still_typing(s: Seq<(String, u64)>, now: u64) -> Seq<(String, u64)>
    decreases s.len(),
{
    if s.len() == 0 {
        Seq::empty()
    } else if elapsed(now, s.last().1) < TYPING_SHOWN_MS {
        still_typing(s.drop_last(), now).push(s.last())
    } else {
        still_typing(s.drop_last(), now)
    }
}

/// The users still shown as typing were shown before, and stay distinct.
proof fn lemma_still_typing(s: Seq<(String, u64)>, now: u64)
    ensures
        forall|i: int| 0 <= i < still_typing(s, now).len() ==> #[trigger] names(s, still_typing(s, now)[i].0@),
        distinct_names(s) ==> distinct_names(still_typing(s, now)),
    decreases s.len(),
{
    if s.len() > 0 {
        let d = s.drop_last();
        lemma_still_typing(d, now);
        let k0 = still_typing(d, now);
        let k = still_typing(s, now);
        assert forall|x: Seq<char>| names(d, x) implies names(s, x) by {
            let j = choose|j: int| 0 <= j < d.len() && #[trigger] d[j].0@ == x;
            assert(s[j] == d[j]);
        }
        assert(names(s, s.last().0@)) by {
            assert(s[s.len() - 1].0@ == s.last().0@);
        }
        assert forall|i: int| 0 <= i < k.len() implies #[trigger] names(s, k[i].0@) by {
            if i < k0.len() {
                assert(k[i] == k0[i]);
                assert(names(d, k0[i].0@));
            }
        }
        if distinct_names(s) {
            assert(distinct_names(d)) by {
                assert forall|i: int, j: int| 0 <= i < j < d.len() implies #[trigger] d[i].0@ != #[trigger] d[j].0@ by {
                    assert(d[i] == s[i] && d[j] == s[j]);
                }
            }
            assert(!names(d, s.last().0@)) by {
                if names(d, s.last().0@) {
                    let j = choose|j: int| 0 <= j < d.len() && #[trigger] d[j].0@ == s.last().0@;
                    assert(d[j] == s[j]);
                    assert(s[j].0@ != s[s.len() - 1].0@);
                }
            }
            assert forall|i: int, j: int| 0 <= i < j < k.len() implies #[trigger] k[i].0@ != #[trigger] k[j].0@ by {
                if j >= k0.len() {
                    assert(k[i] == k0[i]);
                    assert(names(d, k0[i].0@));
                    assert(k[j].0@ == s.last().0@);
                } else {
                    assert(k[i] == k0[i] && k[j] == k0[j]);
                }
            }
        }
    }
}

/// `a` and `b` agree on everything but the typing users.
pub open spec fn same_but_typing(a: App, b: App) -> bool {
    &&& a.input == b.input
    &&& a.messages == b.messages
    &&& a.users_online == b.users_online
    &&& a.current_tab == b.current_tab
    &&& a.tabs == b.tabs
    &&& a.scroll_offset == b.scroll_offset
    &&& a.username == b.username
    &&& a.current_room == b.current_room
    &&& a.unread_counts == b.unread_counts
    &&& a.auto_scroll == b.auto_scroll
    &&& a.show_notification == b.show_notification
    &&& a.notification_message == b.notification_message
    &&& a.colors == b.colors
}

impl App {
    /// The position of `user` among the typing users, if there.
    fn typing_position(&self, user: &str) -> (r: Option<usize>)
        ensures
            r is None <==> !names(self.typing_users@, user@),
            r matches Some(i) ==> i < self.typing_users@.len() && self.typing_users@[i as int].0@ == user@,
    {
        let mut i: usize = 0;
        while i < self.typing_users.len()
            invariant
                i <= self.typing_users@.len(),
                forall|j: int| 0 <= j < i ==> #[trigger] self.typing_users@[j].0@ != user@,
            decreases self.typing_users@.len() - i,
        {
            if str_equal(self.typing_users[i].0.as_str(), user) {
                return Some(i);
            }
            i = i + 1;
        }
        None
    }

    /// `user` says it is typing, at `now_ms`: it is shown as typing, seen
    /// at `now_ms`, in its old place or else last.
    pub fn typing_seen(&mut self, user: String, now_ms: u64)
        requires
            distinct_names(old(self).typing_users@),
        ensures
            distinct_names(final(self).typing_users@),
            same_but_typing(*old(self), *final(self)),
            if names(old(self).typing_users@, user@) {
                exists|i: int|
                    0 <= i < old(self).typing_users@.len() && #[trigger] old(self).typing_users@[i].0@ == user@
                        && final(self).typing_users@ == old(self).typing_users@.update(i, (user, now_ms))
            } else {
                final(self).typing_users@ == old(self).typing_users@.push((user, now_ms))
            },
    {
        let ghost o = self.typing_users@;
        match self.typing_position(user.as_str()) {
            Some(i) => {
                self.typing_users.set(i, (user, now_ms));
                proof {
                    let s = self.typing_users@;
                    assert forall|a: int, b: int| 0 <= a < b < s.len() implies #[trigger] s[a].0@ != #[trigger] s[b].0@ by {
                        assert(o[a].0@ != o[b].0@);
                    }
                }
            },
            None => {
                let ghost u = user@;
                self.typing_users.push((user, now_ms));
                proof {
                    let s = self.typing_users@;
                    assert forall|a: int, b: int| 0 <= a < b < s.len() implies #[trigger] s[a].0@ != #[trigger] s[b].0@ by {
                        if b == o.len() {
                            assert(s[a] == o[a]);
                            assert(o[a].0@ != u);
                        } else {
                            assert(s[a] == o[a] && s[b] == o[b]);
                        }
                    }
                }
            },
        }
    }

    /// `user` says it stopped typing: it is no longer shown as typing.
    pub fn typing_stopped(&mut self, user: &str)
        requires
            distinct_names(old(self).typing_users@),
        ensures
            distinct_names(final(self).typing_users@),
            same_but_typing(*old(self), *final(self)),
            !names(final(self).typing_users@, user@),
            if names(old(self).typing_users@, user@) {
                exists|i: int|
                    0 <= i < old(self).typing_users@.len() && #[trigger] old(self).typing_users@[i].0@ == user@
                        && final(self).typing_users@ == old(self).typing_users@.remove(i)
            } else {
                final(self).typing_users@ == old(self).typing_users@
            },
    {
        let ghost o = self.typing_users@;
        match self.typing_position(user) {
            Some(i) => {
                let _ = self.typing_users.remove(i);
                proof {
                    let s = self.typing_users@;
                    assert forall|a: int, b: int| 0 <= a < b < s.len() implies #[trigger] s[a].0@ != #[trigger] s[b].0@ by {
                        let a2 = if a < i { a } else { a + 1 };
                        let b2 = if b < i { b } else { b + 1 };
                        assert(s[a] == o[a2] && s[b] == o[b2]);
                    }
                    if names(s, user@) {
                        let j = choose|j: int| 0 <= j < s.len() && #[trigger] s[j].0@ == user@;
                        let j2 = if j < i { j } else { j + 1 };
                        assert(s[j] == o[j2]);
                        assert(o[i as int].0@ == user@);
                    }
                }
            },
            None => {},
        }
    }

    /// Forgets, at `now_ms`, the users not seen typing for
    /// `TYPING_SHOWN_MS`.
    pub fn expire_typing(&mut self, now_ms: u64)
        requires
            distinct_names(old(self).typing_users@),
        ensures
            distinct_names(final(self).typing_users@),
            same_but_typing(*old(self), *final(self)),
            final(self).typing_users@ == still_typing(old(self).typing_users@, now_ms),
    {
        let mut rest: Vec<(String, u64)> = Vec::new();
        core::mem::swap(&mut rest, &mut self.typing_users);
        let ghost s = rest@;
        let ghost mut k: int = 0;
        while rest.len() > 0
            invariant
                0 <= k <= s.len(),
                rest@ == s.subrange(k, s.len() as int),
                self.typing_users@ == still_typing(s.subrange(0, k), now_ms),
                same_but_typing(*old(self), *self),
            decreases rest@.len(),
        {
            let e = rest.remove(0);
            proof {
                assert(s.subrange(0, k + 1).drop_last() =~= s.subrange(0, k));
                assert(s.subrange(0, k + 1).last() == e);
                assert(rest@ =~= s.subrange(k + 1, s.len() as int));
            }
            let recent = if now_ms >= e.1 {
                now_ms - e.1 < TYPING_SHOWN_MS
            } else {
                true
            };
            if recent {
                self.typing_users.push(e);
            }
            proof {
                k = k + 1;
            }
        }
        proof {
            assert(s.subrange(0, s.len() as int) =~= s);
            lemma_still_typing(s, now_ms);
        }
    }
}

/// `post` is the pending table `pre` after the server confirmed message
/// `id`: the message with that id, if one was pending, is gone, and the
/// rest stays in order.
pub open spec fn confirmed(pre: Seq<PendingDm>, post: Seq<PendingDm>, id: Seq<char>) -> bool {
    &&& has_id(pre, id) ==> exists|i: int|
        0 <= i < pre.len() && #[trigger] pre[i].id@ == id && post == pre.remove(i)
    &&& !has_id(pre, id) ==> post == pre
}

/// What the line client holds between messages: the user's name, the
/// session token once the server gave one, the direct messages waiting for
/// a confirmation, and the last messages received.
pub struct LineClient {
    pub username: String,
    pub session_token: Option<String>,
    pub pending: PendingTable,
    pub history: Vec<ChatMessage>,
}

impl LineClient {
    /// A client for `username`: no session yet, nothing pending or received.
    pub fn new(username: String) -> (c: Self)
        ensures
            c.username == username,
            c.session_token is None,
            c.pending.wf(),
            c.pending.entries@.len() == 0,
            c.history@.len() == 0,
    {
        LineClient { username, session_token: None, pending: PendingTable::new(), history: Vec::new() }
    }

    /// A message from the server: it is kept in the history; a session
    /// token is taken; an acknowledgement that rejects the token drops it,
    /// and one that names a message id confirms that direct message; a
    /// direct message that carries an id is answered, during a session, with
    /// a read receipt, which is returned.
    pub fn on_server_message(&mut self, msg: ChatMessage) -> (r: Option<ChatMessage>)
        requires
            old(self).pending.wf(),
        ensures
            final(self).pending.wf(),
            final(self).username == old(self).username,
            final(self).history@ == remembered(old(self).history@, msg),
            match msg@ {
                MessageView::SessionToken { token, .. } => opt_view(final(self).session_token) == Some(token)
                    && final(self).pending == old(self).pending && r is None,
                MessageView::Ack { kind, info, message_id } => (if token_rejected_by(kind, info) {
                    final(self).session_token is None
                } else {
                    final(self).session_token == old(self).session_token
                }) && r is None && match message_id {
                    Some(id) => confirmed(old(self).pending.entries@, final(self).pending.entries@, id),
                    None => final(self).pending == old(self).pending,
                },
                MessageView::Private { message_id: Some(id), .. } => final(self).session_token
                    == old(self).session_token && final(self).pending == old(self).pending && (if old(
                    self,
                ).session_token is Some {
                    r matches Some(m) && m@ == (MessageView::ReadReceipt { message_id: id, reader: old(self).username@ })
                } else {
                    r is None
                }),
                _ => final(self).session_token == old(self).session_token && final(self).pending
                    == old(self).pending && r is None,
            },
    {
        let mut receipt: Option<ChatMessage> = None;
        match &msg {
            ChatMessage::SessionToken { token, .. } => {
                self.session_token = Some(token.clone());
            },
            ChatMessage::Ack { kind, info, message_id } => {
                if token_rejected(*kind, info.as_str()) {
                    self.session_token = None;
                }
                match message_id {
                    Some(id) => {
                        let _ = self.pending.confirm(id.as_str());
                    },
                    None => {},
                }
            },
            ChatMessage::Private { message_id: Some(_), .. } => {
                if self.session_token.is_some() {
                    receipt = read_receipt(&msg, self.username.as_str());
                }
            },
            _ => {},
        }
        remember(&mut self.history, msg);
        receipt
    }
}

} // verus!
