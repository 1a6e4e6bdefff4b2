//! Accounts and sessions: registration rules, password checking with
//! bcrypt, session tokens and their expiry.

use dashmap::DashMap;
use vstd::prelude::*;

use crate::clock::now_timestamp;
use crate::collections::{
    session_table, session_table_entries, session_table_get, session_table_insert, session_table_len,
    session_table_new, session_table_remove, SessionRecord,
};
use crate::database::{DbAnswers, Query, QueryView};
use crate::model::{opt_view, Timestamp};
use crate::state::{byte_len, lookup, str_equal};
use crate::text::{concat2, push_str};

verus! {

/// What `bcrypt::verify` answers for this password and stored hash: whether
/// they match, or the error message.
pub uninterp spec fn bcrypt_verdict(password: Seq<char>, hash: Seq<char>) -> Result<bool, Seq<char>>;

/// `bcrypt::hash` with the given cost; an error is returned as its message.
/// It fails when the cost is outside 4..=31 (and when the system's random
/// source fails). A hash it returns verifies against the same password.
#[verifier::external_body]
pub(crate) fn bcrypt_hash(password: &str, cost: u32) -> (res: Result<String, String>)
    ensures
        (res is Ok ==> 4 <= cost && cost <= 31),
        (res matches Ok(h) ==> bcrypt_verdict(password@, h@) == Ok::<bool, Seq<char>>(true)),
{
    match bcrypt::hash(password, cost) {
        Ok(h) => Ok(h),
        Err(e) => Err(e.to_string()),
    }
}

/// `bcrypt::verify`; an error is returned as its message.
#[verifier::external_body]
pub(crate) fn bcrypt_verify(password: &str, hash: &str) -> (res: Result<bool, String>)
    ensures
        match res {
            Ok(b) => bcrypt_verdict(password@, hash@) == Ok::<bool, Seq<char>>(b),
            Err(e) => bcrypt_verdict(password@, hash@) == Err::<bool, Seq<char>>(e@),
        },
{
    match bcrypt::verify(password, hash) {
        Ok(b) => Ok(b),
        Err(e) => Err(e.to_string()),
    }
}

/// `uuid::Uuid::new_v4().to_string()`: a random identifier in hyphenated
/// form, 36 characters long.
#[verifier::external_body]
pub(crate) fn random_token() -> (res: String)
    ensures
        res@.len() == 36,
{
    uuid::Uuid::new_v4().to_string()
}

/// `s` begins with `p`.
pub open spec fn starts_with(s: Seq<char>, p: Seq<char>) -> bool {
    p.len() <= s.len() && s.subrange(0, p.len() as int) == p
}

/// The first rule a registration breaks, if any.
pub open spec fn registration_problem(username: Seq<char>, password: Seq<char>) -> Option<Seq<char>> {
    if username.len() == 0 || password.len() == 0 {
        Some("Username e password não podem ser vazios"@)
    } else if byte_len(username) < 3 {
        Some("Username deve ter no mínimo 3 caracteres"@)
    } else if byte_len(password) < 6 {
        Some("Password deve ter no mínimo 6 caracteres"@)
    } else {
        None
    }
}

/// Whole seconds from `then` to `now`, rounded toward zero.
pub open spec fn elapsed_secs(now: Timestamp, then: Timestamp) -> int {
    let t = (now.secs - then.secs) * 1_000_000_000 + (now.nanos - then.nanos);
    if t >= 0 {
        t / 1_000_000_000
    } else {
        -((-t) / 1_000_000_000)
    }
}

/// A session created at `created` has expired at `now` when the elapsed
/// whole seconds reach `ttl_secs`; a session dated after `now` (a clock set
/// back) has a negative age and has not expired.
pub open spec fn session_expired(now: Timestamp, created: Timestamp, ttl_secs: u64) -> bool {
    elapsed_secs(now, created) >= ttl_secs
}

/// How a login attempt with these answers ends: `None` while an answer is
/// missing, `Some(Ok(()))` when it succeeds, `Some(Err(message))` otherwise.
pub open spec fn login_verdict(username: Seq<char>, password: Seq<char>, a: DbAnswers) -> Option<Result<(), Seq<char>>> {
    match a.login_user {
        None => None,
        Some(Err(e)) => Some(Err("Erro ao buscar usuário: "@ + e@)),
        Some(Ok(None)) => Some(Err("Usuário '"@ + username + "' não encontrado"@)),
        Some(Ok(Some(rec))) => match bcrypt_verdict(password, rec.password_hash@) {
            Err(e) => Some(Err("Falha ao verificar password: "@ + e)),
            Ok(false) => Some(Err("Password incorreto"@)),
            Ok(true) => match a.banned {
                None => None,
                Some(Ok(true)) => Some(Err("Você está banido deste servidor"@)),
                Some(_) => Some(Ok(())),
            },
        },
    }
}

/// What validating `token` at `now` does: an unknown token gives nothing;
/// an expired session is closed and gives nothing; otherwise the session's
/// user is given and nothing changes.
pub open spec fn token_validation(
    pre: Map<Seq<char>, (Seq<char>, Timestamp)>,
    post: Map<Seq<char>, (Seq<char>, Timestamp)>,
    token: Seq<char>,
    now: Timestamp,
    ttl: u64,
    r: Option<Seq<char>>,
) -> bool {
    match lookup(pre, token) {
        None => r is None && post == pre,
        Some(s) => if session_expired(now, s.1, ttl) {
            r is None && post == pre.remove(token)
        } else {
            r == Some(s.0) && post == pre
        },
    }
}

/// The question a login attempt asks next when `login_verdict` is `None`:
/// the user record first, then whether the user is banned.
pub open spec fn login_query(username: Seq<char>, a: DbAnswers) -> QueryView {
    if a.login_user is None {
        QueryView::LoginUser { username }
    } else {
        QueryView::Banned { username }
    }
}

/// The sessions after `token` is checked at `now`: an expired session is
/// closed, nothing else changes.
pub open spec fn sessions_after_check(
    pre: Map<Seq<char>, (Seq<char>, Timestamp)>,
    token: Seq<char>,
    now: Timestamp,
    ttl: u64,
) -> Map<Seq<char>, (Seq<char>, Timestamp)> {
    match lookup(pre, token) {
        Some(s) => if session_expired(now, s.1, ttl) {
            pre.remove(token)
        } else {
            pre
        },
        None => pre,
    }
}

/// The user that `token` stands for at `now`, if its session is open and
/// not expired.
pub open spec fn session_user(
    pre: Map<Seq<char>, (Seq<char>, Timestamp)>,
    token: Seq<char>,
    now: Timestamp,
    ttl: u64,
) -> Option<Seq<char>> {
    match lookup(pre, token) {
        Some(s) => if session_expired(now, s.1, ttl) {
            None
        } else {
            Some(s.0)
        },
        None => None,
    }
}

/// The sessions after every session of `username` is closed.
pub open spec fn sessions_without_user(
    pre: Map<Seq<char>, (Seq<char>, Timestamp)>,
    username: Seq<char>,
) -> Map<Seq<char>, (Seq<char>, Timestamp)> {
    pre.restrict(pre.dom().filter(|t: Seq<char>| pre[t].0 != username))
}

/// The content of the answer of `AuthManager::register`.
pub open spec fn register_view(r: Result<Result<(), String>, Query>) -> Result<Result<(), Seq<char>>, QueryView> {
    match r {
        Ok(Ok(())) => Ok(Ok(())),
        Ok(Err(e)) => Ok(Err(e@)),
        Err(q) => Err(q@),
    }
}

/// What registering `username` with `password` may answer, given the
/// database answers `a` and the bcrypt cost: the first broken rule; a
/// question whether the name is registered; "already exists"; a request to
/// store the user with a hash of the password (the one in `a` if there is
/// one); success once the store succeeded; or a hashing or storing failure.
pub open spec fn registration_outcome(
    username: Seq<char>,
    password: Seq<char>,
    a: DbAnswers,
    cost: u32,
    r: Result<Result<(), Seq<char>>, QueryView>,
) -> bool {
    match registration_problem(username, password) {
        Some(p) => r == Ok::<Result<(), Seq<char>>, QueryView>(Err(p)),
        None => match a.registered {
            None => r == Err::<Result<(), Seq<char>>, QueryView>(QueryView::Registered { username }),
            Some(Ok(true)) => r == Ok::<Result<(), Seq<char>>, QueryView>(Err("Usuário '"@ + username + "' já existe"@)),
            Some(_) => (match r {
                Err(QueryView::InsertUser { username: u, password_hash: h }) => a.inserted is None && u == username
                    && (a.password_hash matches Some(ph) ==> h == ph@)
                    && (a.password_hash is None ==> bcrypt_verdict(password, h) == Ok::<bool, Seq<char>>(true)),
                Err(_) => false,
                Ok(Ok(())) => a.inserted matches Some(Ok(_)),
                Ok(Err(e)) => (a.password_hash is None && starts_with(e, "Falha ao gerar hash: "@))
                    || (a.inserted matches Some(Err(d)) && e == "Falha ao salvar usuário no banco: "@ + d@),
            }) && (a.password_hash is None && !(4 <= cost <= 31) ==> r matches Ok(Err(_))),
        },
    }
}

/// A session opened for `u` under `token` at `created` stands for `u` at
/// every instant before it expires, and checking it changes nothing.
pub proof fn law_open_session_validates(
    sessions: Map<Seq<char>, (Seq<char>, Timestamp)>,
    token: Seq<char>,
    u: Seq<char>,
    created: Timestamp,
    now: Timestamp,
    ttl: u64,
)
    requires
        !session_expired(now, created, ttl),
    ensures
        session_user(sessions.insert(token, (u, created)), token, now, ttl) == Some(u),
        sessions_after_check(sessions.insert(token, (u, created)), token, now, ttl) == sessions.insert(token, (u, created)),
{
}

/// An expired session stands for nobody and is closed when checked.
pub proof fn law_expired_session_is_refused(
    sessions: Map<Seq<char>, (Seq<char>, Timestamp)>,
    token: Seq<char>,
    now: Timestamp,
    ttl: u64,
)
    requires
        sessions.contains_key(token),
        session_expired(now, sessions[token].1, ttl),
    ensures
        session_user(sessions, token, now, ttl) is None,
        !sessions_after_check(sessions, token, now, ttl).contains_key(token),
{
}

/// After every session of `u` is closed, no token stands for `u`.
pub proof fn law_logged_out_user_has_no_session(
    sessions: Map<Seq<char>, (Seq<char>, Timestamp)>,
    u: Seq<char>,
    token: Seq<char>,
    now: Timestamp,
    ttl: u64,
)
    ensures
        session_user(sessions_without_user(sessions, u), token, now, ttl) != Some(u),
{
}

/// A registration is refused exactly on the rules: whatever the database
/// answers, a broken rule refuses it with that rule's message; and when
/// the name is free, the hash is at hand and storing succeeded, a
/// registration that breaks no rule succeeds. (A password so stored then
/// logs in: `law_registered_password_logs_in`.)
pub proof fn law_registration_fails_exactly_on_the_rules(
    u: Seq<char>,
    pw: Seq<char>,
    a: DbAnswers,
    cost: u32,
    r: Result<Result<(), Seq<char>>, QueryView>,
)
    requires
        registration_outcome(u, pw, a, cost, r),
    ensures
        registration_problem(u, pw) matches Some(p) ==> r == Ok::<Result<(), Seq<char>>, QueryView>(Err(p)),
        (a.registered == Some(Ok::<bool, String>(false)) && a.password_hash is Some && (a.inserted matches Some(Ok(_))))
            ==> ((r matches Ok(Ok(_))) <==> registration_problem(u, pw) is None),
{
}

/// A password stored by a registration logs in: when the database gives
/// back the user record with the hash the registration asked to store, and
/// the user is not banned, the login succeeds.
pub proof fn law_registered_password_logs_in(
    u: Seq<char>,
    pw: Seq<char>,
    a: DbAnswers,
    cost: u32,
    hash: Seq<char>,
    later: DbAnswers,
)
    requires
        registration_outcome(u, pw, a, cost, Err(QueryView::InsertUser { username: u, password_hash: hash })),
        a.password_hash is None,
        later.login_user matches Some(Ok(Some(rec))) && rec.password_hash@ == hash,
        later.banned == Some(Ok::<bool, String>(false)),
    ensures
        login_verdict(u, pw, later) == Some(Ok::<(), Seq<char>>(())),
{
}

/// Accounts and sessions.
pub struct AuthManager {
    /// token -> session
    sessions: DashMap<String, SessionRecord>,
    /// lifetime of a session, in seconds
    ttl_secs: u64,
    /// bcrypt cost used for new password hashes
    bcrypt_cost: u32,
}

impl AuthManager {
    /// Open sessions: token -> (user name, creation instant).
    pub closed spec fn sessions_map(&self) -> Map<Seq<char>, (Seq<char>, Timestamp)> {
        session_table(self.sessions)
    }

    /// Lifetime of a session, in seconds.
    pub closed spec fn ttl(&self) -> u64 {
        self.ttl_secs
    }

    /// The bcrypt cost for new hashes.
    pub closed spec fn cost(&self) -> u32 {
        self.bcrypt_cost
    }

    /// A manager with no sessions, sessions living `ttl_secs` seconds and
    /// passwords hashed with bcrypt cost `bcrypt_cost`.
    pub fn new(ttl_secs: u64, bcrypt_cost: u32) -> (m: Self)
        ensures
            m.sessions_map() =~= Map::empty(),
            m.ttl() == ttl_secs,
            m.cost() == bcrypt_cost,
    {
        AuthManager { sessions: session_table_new(), ttl_secs, bcrypt_cost }
    }

    /// Checks the registration rules: both fields non-empty, user name at
    /// least 3 bytes, password at least 6 bytes.
    pub fn validate_registration(username: &str, password: &str) -> (r: Result<(), String>)
        ensures
            match r {
                Ok(()) => registration_problem(username@, password@) is None,
                Err(e) => registration_problem(username@, password@) == Some(e@),
            },
    {
        if username.is_empty() || password.is_empty() {
            return Err("Username e password não podem ser vazios".to_owned());
        }
        if username.len() < 3 {
            return Err("Username deve ter no mínimo 3 caracteres".to_owned());
        }
        if password.len() < 6 {
            return Err("Password deve ter no mínimo 6 caracteres".to_owned());
        }
        Ok(())
    }

    /// Registers a user. Breaking a rule gives its message; an existing
    /// user gives "Usuário '<name>' já existe"; otherwise the password is
    /// hashed with bcrypt and the user stored. `Err(query)` asks the
    /// database a question first (whether the name is registered, then to
    /// store the user with the hash it carries).
    pub fn register(&self, username: &str, password: &str, answers: &DbAnswers) -> (r: Result<Result<(), String>, Query>)
        ensures
            registration_outcome(username@, password@, *answers, self.cost(), register_view(r)),
    {
        match Self::validate_registration(username, password) {
            Err(e) => return Ok(Err(e)),
            Ok(()) => {},
        }
        match &answers.registered {
            None => return Err(Query::Registered { username: username.to_owned() }),
            Some(Ok(true)) => {
                let mut e = concat2("Usuário '", username);
                push_str(&mut e, "' já existe");
                return Ok(Err(e));
            },
            Some(_) => {},
        }
        let hash = match &answers.password_hash {
            Some(h) => h.clone(),
            None => match bcrypt_hash(password, self.bcrypt_cost) {
                Ok(h) => h,
                Err(e) => {
                    let msg = concat2("Falha ao gerar hash: ", e.as_str());
                    proof {
                        assert(msg@.subrange(0, "Falha ao gerar hash: "@.len() as int) =~= "Falha ao gerar hash: "@);
                    }
                    return Ok(Err(msg));
                },
            },
        };
        match &answers.inserted {
            None => Err(Query::InsertUser { username: username.to_owned(), password_hash: hash }),
            Some(Ok(())) => Ok(Ok(())),
            Some(Err(d)) => Ok(Err(concat2("Falha ao salvar usuário no banco: ", d.as_str()))),
        }
    }

    /// Logs a user in. Fails with "Erro ao buscar usuário: <error>" when the
    /// lookup fails, "Usuário '<name>' não encontrado", "Falha ao verificar
    /// password: <error>", "Password incorreto", or "Você está banido deste
    /// servidor"; otherwise opens a session created `now` under a fresh
    /// 36-character token and returns the token. `Err(query)` asks the
    /// database a question first; sessions change only on success.
    pub fn login_at(&mut self, username: &str, password: &str, now: Timestamp, answers: &DbAnswers) -> (r: Result<Result<String, String>, Query>)
        ensures
            final(self).ttl() == old(self).ttl(),
            final(self).cost() == old(self).cost(),
            match login_verdict(username@, password@, *answers) {
                None => (r matches Err(q) && q@ == login_query(username@, *answers))
                    && final(self).sessions_map() == old(self).sessions_map(),
                Some(Err(m)) => (r matches Ok(Err(e)) && e@ == m) && final(self).sessions_map() == old(self).sessions_map(),
                Some(Ok(())) => r matches Ok(Ok(token)) && token@.len() == 36
                    && final(self).sessions_map() == old(self).sessions_map().insert(token@, (username@, now)),
            },
    {
        let rec = match &answers.login_user {
            None => return Err(Query::LoginUser { username: username.to_owned() }),
            Some(Err(e)) => return Ok(Err(concat2("Erro ao buscar usuário: ", e.as_str()))),
            Some(Ok(None)) => {
                let mut e = concat2("Usuário '", username);
                push_str(&mut e, "' não encontrado");
                return Ok(Err(e));
            },
            Some(Ok(Some(rec))) => rec,
        };
        match bcrypt_verify(password, rec.password_hash.as_str()) {
            Err(e) => return Ok(Err(concat2("Falha ao verificar password: ", e.as_str()))),
            Ok(false) => return Ok(Err("Password incorreto".to_owned())),
            Ok(true) => {},
        }
        match &answers.banned {
            None => return Err(Query::Banned { username: username.to_owned() }),
            Some(Ok(true)) => return Ok(Err("Você está banido deste servidor".to_owned())),
            Some(_) => {},
        }
        let token = random_token();
        let rec = SessionRecord { username: username.to_owned(), created_at: now };
        session_table_insert(&mut self.sessions, token.clone(), rec);
        Ok(Ok(token))
    }

    /// `login_at` at the current time.
    pub fn login(&mut self, username: &str, password: &str, answers: &DbAnswers) -> (r: Result<Result<String, String>, Query>)
        ensures
            final(self).ttl() == old(self).ttl(),
            final(self).cost() == old(self).cost(),
            match login_verdict(username@, password@, *answers) {
                None => (r matches Err(q) && q@ == login_query(username@, *answers))
                    && final(self).sessions_map() == old(self).sessions_map(),
                Some(Err(m)) => (r matches Ok(Err(e)) && e@ == m) && final(self).sessions_map() == old(self).sessions_map(),
                Some(Ok(())) => r matches Ok(Ok(token)) && token@.len() == 36
                    && exists|now: Timestamp| final(self).sessions_map() == #[trigger] old(self).sessions_map().insert(token@, (username@, now)),
            },
    {
        let now = now_timestamp();
        self.login_at(username, password, now, answers)
    }

    /// Whether the session created at `created` has expired at `now`.
    pub fn is_expired_at(&self, created: Timestamp, now: Timestamp) -> (b: bool)
        ensures
            b == session_expired(now, created, self.ttl()),
    {
        let d: i128 = (now.secs as i128 - created.secs as i128) * 1_000_000_000i128
            + (now.nanos as i128 - created.nanos as i128);
        let q: i128 = if d >= 0 { d / 1_000_000_000i128 } else { -((-d) / 1_000_000_000i128) };
        q >= self.ttl_secs as i128
    }

    /// The user of session `token` at time `now`. An expired session is
    /// closed and gives `None`, as does an unknown token.
    pub fn validate_token_at(&mut self, token: &str, now: Timestamp) -> (r: Option<String>)
        ensures
            final(self).ttl() == old(self).ttl(),
            final(self).cost() == old(self).cost(),
            token_validation(old(self).sessions_map(), final(self).sessions_map(), token@, now, old(self).ttl(), opt_view(r)),
            final(self).sessions_map() == sessions_after_check(old(self).sessions_map(), token@, now, old(self).ttl()),
            opt_view(r) == session_user(old(self).sessions_map(), token@, now, old(self).ttl()),
    {
        match session_table_get(&self.sessions, token) {
            None => None,
            Some(s) => {
                let (username, created) = s;
                if self.is_expired_at(created, now) {
                    session_table_remove(&mut self.sessions, token);
                    None
                } else {
                    Some(username)
                }
            },
        }
    }

    /// `validate_token_at` at the current time.
    pub fn validate_token(&mut self, token: &str) -> (r: Option<String>)
        ensures
            final(self).ttl() == old(self).ttl(),
            final(self).cost() == old(self).cost(),
            exists|now: Timestamp| #[trigger] token_validation(old(self).sessions_map(), final(self).sessions_map(), token@, now, old(self).ttl(), opt_view(r)),
    {
        let now = now_timestamp();
        self.validate_token_at(token, now)
    }

    /// Closes session `token`; reports whether it was open.
    pub fn logout(&mut self, token: &str) -> (b: bool)
        ensures
            final(self).ttl() == old(self).ttl(),
            final(self).cost() == old(self).cost(),
            b == old(self).sessions_map().contains_key(token@),
            final(self).sessions_map() == old(self).sessions_map().remove(token@),
    {
        session_table_remove(&mut self.sessions, token)
    }

    /// Closes every session of `username`.
    pub fn logout_user(&mut self, username: &str)
        ensures
            final(self).ttl() == old(self).ttl(),
            final(self).cost() == old(self).cost(),
            final(self).sessions_map() == sessions_without_user(old(self).sessions_map(), username@),
    {
        let ghost s0 = self.sessions_map();
        let entries = session_table_entries(&self.sessions);
        let mut i: usize = 0;
        while i < entries.len()
            invariant
                i <= entries@.len(),
                self.ttl_secs == old(self).ttl_secs,
                self.bcrypt_cost == old(self).bcrypt_cost,
                forall|j: int| 0 <= j < entries@.len() ==> #[trigger] s0.contains_key(entries@[j].0@)
                    && s0[entries@[j].0@] == (entries@[j].1.username@, entries@[j].1.created_at),
                forall|k: Seq<char>| #[trigger] s0.contains_key(k) ==> exists|j: int|
                    0 <= j < entries@.len() && #[trigger] entries@[j].0@ == k,
                forall|k: Seq<char>| #[trigger] session_table(self.sessions).contains_key(k) ==> s0.contains_key(k)
                    && session_table(self.sessions)[k] == s0[k],
                forall|k: Seq<char>| #[trigger] s0.contains_key(k) && s0[k].0 != username@
                    ==> session_table(self.sessions).contains_key(k),
                forall|j: int| 0 <= j < i && entries@[j].1.username@ == username@
                    ==> !session_table(self.sessions).contains_key(#[trigger] entries@[j].0@),
            decreases entries@.len() - i,
        {
            if str_equal(entries[i].1.username.as_str(), username) {
                session_table_remove(&mut self.sessions, entries[i].0.as_str());
            }
            proof {
                assert forall|j: int| 0 <= j < i + 1 && entries@[j].1.username@ == username@
                    implies !session_table(self.sessions).contains_key(#[trigger] entries@[j].0@) by {
                    if j < i && entries@[j].0@ == entries@[i as int].0@ {
                        assert(s0[entries@[j].0@] == s0[entries@[i as int].0@]);
                    }
                }
            }
            i = i + 1;
        }
        proof {
            let cur = session_table(self.sessions);
            let want = s0.restrict(s0.dom().filter(|t: Seq<char>| s0[t].0 != username@));
            assert forall|k: Seq<char>| cur.contains_key(k) <==> want.contains_key(k) by {
                if s0.contains_key(k) && s0[k].0 == username@ {
                    let j = choose|j: int| 0 <= j < entries@.len() && #[trigger] entries@[j].0@ == k;
                    assert(!cur.contains_key(entries@[j].0@));
                }
            }
            assert(cur =~= want);
        }
    }

    /// Closes every session expired at `now`; returns how many were closed.
    pub fn remove_expired_sessions_at(&mut self, now: Timestamp) -> (n: usize)
        ensures
            final(self).ttl() == old(self).ttl(),
            final(self).cost() == old(self).cost(),
            final(self).sessions_map() == old(self).sessions_map().restrict(
                old(self).sessions_map().dom().filter(|t: Seq<char>| !session_expired(now, old(self).sessions_map()[t].1, old(self).ttl())),
            ),
    {
        let ghost s0 = self.sessions_map();
        let entries = session_table_entries(&self.sessions);
        let mut removed: usize = 0;
        let mut i: usize = 0;
        while i < entries.len()
            invariant
                i <= entries@.len(),
                removed <= i,
                self.ttl_secs == old(self).ttl_secs,
                self.bcrypt_cost == old(self).bcrypt_cost,
                forall|j: int| 0 <= j < entries@.len() ==> #[trigger] s0.contains_key(entries@[j].0@)
                    && s0[entries@[j].0@] == (entries@[j].1.username@, entries@[j].1.created_at),
                forall|k: Seq<char>| #[trigger] s0.contains_key(k) ==> exists|j: int|
                    0 <= j < entries@.len() && #[trigger] entries@[j].0@ == k,
                forall|k: Seq<char>| #[trigger] session_table(self.sessions).contains_key(k) ==> s0.contains_key(k)
                    && session_table(self.sessions)[k] == s0[k],
                forall|k: Seq<char>| #[trigger] s0.contains_key(k) && !session_expired(now, s0[k].1, self.ttl_secs)
                    ==> session_table(self.sessions).contains_key(k),
                forall|j: int| 0 <= j < i && session_expired(now, entries@[j].1.created_at, self.ttl_secs)
                    ==> !session_table(self.sessions).contains_key(#[trigger] entries@[j].0@),
            decreases entries@.len() - i,
        {
            if self.is_expired_at(entries[i].1.created_at, now) {
                session_table_remove(&mut self.sessions, entries[i].0.as_str());
                removed = removed + 1;
            }
            proof {
                assert forall|j: int| 0 <= j < i + 1 && session_expired(now, entries@[j].1.created_at, self.ttl_secs)
                    implies !session_table(self.sessions).contains_key(#[trigger] entries@[j].0@) by {
                    if j < i && entries@[j].0@ == entries@[i as int].0@ {
                        assert(s0[entries@[j].0@] == s0[entries@[i as int].0@]);
                    }
                }
            }
            i = i + 1;
        }
        proof {
            let cur = session_table(self.sessions);
            let want = s0.restrict(s0.dom().filter(|t: Seq<char>| !session_expired(now, s0[t].1, old(self).ttl())));
            assert forall|k: Seq<char>| cur.contains_key(k) <==> want.contains_key(k) by {
                if s0.contains_key(k) && session_expired(now, s0[k].1, old(self).ttl()) {
                    let j = choose|j: int| 0 <= j < entries@.len() && #[trigger] entries@[j].0@ == k;
                    assert(!cur.contains_key(entries@[j].0@));
                }
            }
            assert(cur =~= want);
        }
        removed
    }

    /// Whether `username` has an account, as the database answers (a
    /// failed lookup counts as no); asks it first.
    pub fn user_exists(&self, username: &str, answers: &DbAnswers) -> (r: Result<bool, Query>)
        ensures
            match answers.user_exists {
                Some(b) => r == Ok::<bool, Query>(b),
                None => r matches Err(q) && q@ == (QueryView::UserExists { username: username@ }),
            },
    {
        match answers.user_exists {
            Some(b) => Ok(b),
            None => Err(Query::UserExists { username: username.to_owned() }),
        }
    }

    /// How many accounts there are, as the database answers (a failed
    /// count counts as none); asks it first.
    pub fn user_count(&self, answers: &DbAnswers) -> (r: Result<usize, Query>)
        ensures
            match answers.user_count {
                Some(n) => r == Ok::<usize, Query>(n),
                None => r matches Err(q) && q@ == QueryView::UserCount,
            },
    {
        match answers.user_count {
            Some(n) => Ok(n),
            None => Err(Query::UserCount),
        }
    }

    /// Number of open sessions.
    pub fn session_count(&self) -> (n: usize)
        ensures
            n == self.sessions_map().dom().len(),
    {
        session_table_len(&self.sessions)
    }
}

} // verus!
