//! The account domain: users, credentials, sessions, the errors of account
//! operations, the stores they rely on, and the use cases built on them.

use vstd::prelude::*;

use crate::auth::{bcrypt_hash, bcrypt_verdict, bcrypt_verify, elapsed_secs, random_token, session_expired, starts_with};
use crate::clock::now_timestamp;
use crate::collections::SessionRecord;
use crate::model::Timestamp;
use crate::state::{byte_len, str_equal};
use crate::text::{concat2, contains_seq, str_contains};

verus! {

/// The bcrypt cost the registration use case hashes with (bcrypt's
/// default).
pub const BCRYPT_DEFAULT_COST: u32 = 12;

/// A registered user.
#[derive(Clone, Debug)]
pub struct User {
    pub username: String,
    pub password_hash: String,
}

impl User {
    /// A user with this name and password hash.
    pub fn new(username: String, password_hash: String) -> (u: Self)
        ensures
            u.username == username,
            u.password_hash == password_hash,
    {
        User { username, password_hash }
    }
}

/// A user name and a password as typed.
#[derive(Clone, Debug)]
pub struct Credentials {
    pub username: String,
    pub password: String,
}

impl Credentials {
    /// Credentials with this name and password.
    pub fn new(username: String, password: String) -> (c: Self)
        ensures
            c.username == username,
            c.password == password,
    {
        Credentials { username, password }
    }
}

/// An open session.
#[derive(Clone, Debug)]
pub struct Session {
    pub token: String,
    pub username: String,
    pub created_at: Timestamp,
}

impl Session {
    /// A session of `username` under `token`, opened at `now`.
    pub fn new_at(token: String, username: String, now: Timestamp) -> (s: Self)
        ensures
            s.token == token,
            s.username == username,
            s.created_at == now,
    {
        Session { token, username, created_at: now }
    }

    /// A session of `username` under `token`, opened now.
    pub fn new(token: String, username: String) -> (s: Self)
        ensures
            s.token == token,
            s.username == username,
    {
        Session { token, username, created_at: now_timestamp() }
    }

    /// Whether the session has lived `ttl_secs` seconds or more at `now`.
    pub fn is_expired_at(&self, ttl_secs: u64, now: Timestamp) -> (b: bool)
        ensures
            b == session_expired(now, self.created_at, ttl_secs),
    {
        let d: i128 = (now.secs as i128 - self.created_at.secs as i128) * 1_000_000_000i128
            + (now.nanos as i128 - self.created_at.nanos as i128);
        let q: i128 = if d >= 0 { d / 1_000_000_000i128 } else { -((-d) / 1_000_000_000i128) };
        q >= ttl_secs as i128
    }

    /// Whether the session has lived `ttl_secs` seconds or more now.
    pub fn is_expired(&self, ttl_secs: u64) -> (b: bool)
        ensures
            exists|now: Timestamp| b == #[trigger] session_expired(now, self.created_at, ttl_secs),
    {
        self.is_expired_at(ttl_secs, now_timestamp())
    }
}

impl SessionRecord {
    /// The session that this record keeps under `token`.
    pub fn to_session(&self, token: String) -> (s: Session)
        ensures
            s.token == token,
            s.username@ == self.username@,
            s.created_at == self.created_at,
    {
        Session { token, username: self.username.clone(), created_at: self.created_at }
    }

    /// The record that keeps `session` (its token is the key it is kept
    /// under).
    pub fn from_session(session: &Session) -> (r: SessionRecord)
        ensures
            r.username@ == session.username@,
            r.created_at == session.created_at,
    {
        SessionRecord { username: session.username.clone(), created_at: session.created_at }
    }
}

/// The tokens of the sessions in `sessions` that belong to `username`, in
/// the order of `sessions`.
pub open spec fn tokens_of_user(sessions: Seq<Session>, username: Seq<char>) -> Seq<String>
    decreases sessions.len(),
{
    if sessions.len() == 0 {
        Seq::empty()
    } else {
        let rest = tokens_of_user(sessions.drop_last(), username);
        if sessions.last().username@ == username {
            rest.push(sessions.last().token)
        } else {
            rest
        }
    }
}

/// The tokens of the sessions in `sessions` that have lived `ttl_secs`
/// seconds or more at `now`, in the order of `sessions`.
pub open spec fn expired_tokens(sessions: Seq<Session>, ttl_secs: u64, now: Timestamp) -> Seq<String>
    decreases sessions.len(),
{
    if sessions.len() == 0 {
        Seq::empty()
    } else {
        let rest = expired_tokens(sessions.drop_last(), ttl_secs, now);
        if session_expired(now, sessions.last().created_at, ttl_secs) {
            rest.push(sessions.last().token)
        } else {
            rest
        }
    }
}

/// The tokens of the sessions of `username` among `sessions`: what a
/// session store closes when the user logs out everywhere.
pub fn sessions_of_user(sessions: &Vec<Session>, username: &str) -> (v: Vec<String>)
    ensures
        v@ == tokens_of_user(sessions@, username@),
{
    let mut v: Vec<String> = Vec::new();
    let mut i: usize = 0;
    while i < sessions.len()
        invariant
            i <= sessions@.len(),
            v@ == tokens_of_user(sessions@.take(i as int), username@),
        decreases sessions@.len() - i,
    {
        proof {
            assert(sessions@.take(i + 1).drop_last() =~= sessions@.take(i as int));
        }
        if str_equal(sessions[i].username.as_str(), username) {
            v.push(sessions[i].token.clone());
        }
        i = i + 1;
    }
    proof {
        assert(sessions@.take(sessions@.len() as int) =~= sessions@);
    }
    v
}

/// The tokens of the sessions among `sessions` that have expired at `now`
/// under a lifetime of `ttl_secs` seconds: what a session store closes when
/// it is cleaned.
pub fn expired_sessions_at(sessions: &Vec<Session>, ttl_secs: u64, now: Timestamp) -> (v: Vec<String>)
    ensures
        v@ == expired_tokens(sessions@, ttl_secs, now),
{
    let mut v: Vec<String> = Vec::new();
    let mut i: usize = 0;
    while i < sessions.len()
        invariant
            i <= sessions@.len(),
            v@ == expired_tokens(sessions@.take(i as int), ttl_secs, now),
        decreases sessions@.len() - i,
    {
        proof {
            assert(sessions@.take(i + 1).drop_last() =~= sessions@.take(i as int));
        }
        if sessions[i].is_expired_at(ttl_secs, now) {
            v.push(sessions[i].token.clone());
        }
        i = i + 1;
    }
    proof {
        assert(sessions@.take(sessions@.len() as int) =~= sessions@);
    }
    v
}

/// The error a SQLite user store reports when inserting `username` fails
/// with `message`: a failed UNIQUE constraint means the name is taken;
/// anything else is a persistence error that quotes the message.
pub fn sqlite_insert_error(username: &str, message: &str) -> (e: AuthError)
    ensures
        if contains_seq(message@, "UNIQUE constraint failed"@) {
            e matches AuthError::UserAlreadyExists(u) && u@ == username@
        } else {
            e matches AuthError::PersistenceError(m) && m@ == "Falha ao salvar usuário: "@ + message@
        },
{
    if str_contains(message, "UNIQUE constraint failed") {
        AuthError::UserAlreadyExists(username.to_owned())
    } else {
        AuthError::PersistenceError(concat2("Falha ao salvar usuário: ", message))
    }
}

/// The error the server database reports, seen as a user store, when
/// inserting `username` fails with `message`: a UNIQUE failure or an
/// "already exists" message means the name is taken; anything else is a
/// persistence error carrying the message.
pub fn database_insert_error(username: &str, message: &str) -> (e: AuthError)
    ensures
        if contains_seq(message@, "UNIQUE"@) || contains_seq(message@, "já existe"@) {
            e matches AuthError::UserAlreadyExists(u) && u@ == username@
        } else {
            e matches AuthError::PersistenceError(m) && m@ == message@
        },
{
    if str_contains(message, "UNIQUE") || str_contains(message, "já existe") {
        AuthError::UserAlreadyExists(username.to_owned())
    } else {
        AuthError::PersistenceError(message.to_owned())
    }
}

/// Why an account operation failed.
#[derive(Clone, Debug)]
pub enum AuthError {
    UserAlreadyExists(String),
    UserNotFound(String),
    InvalidPassword,
    InvalidToken,
    InvalidUsername(String),
    WeakPassword,
    PersistenceError(String),
    InternalError(String),
}

/// The text of an account error.
pub open spec fn auth_error_text(e: AuthError) -> Seq<char> {
    match e {
        AuthError::UserAlreadyExists(u) => "Usuário já existe: "@ + u@,
        AuthError::UserNotFound(u) => "Usuário não encontrado: "@ + u@,
        AuthError::InvalidPassword => "Senha inválida"@,
        AuthError::InvalidToken => "Token inválido ou expirado"@,
        AuthError::InvalidUsername(m) => "Nome de usuário inválido: "@ + m@,
        AuthError::WeakPassword => "Senha muito fraca"@,
        AuthError::PersistenceError(m) => "Erro de persistência: "@ + m@,
        AuthError::InternalError(m) => "Erro interno: "@ + m@,
    }
}

impl AuthError {
    /// The text of the error.
    pub fn message(&self) -> (s: String)
        ensures
            s@ == auth_error_text(*self),
    {
        match self {
            AuthError::UserAlreadyExists(u) => concat2("Usuário já existe: ", u.as_str()),
            AuthError::UserNotFound(u) => concat2("Usuário não encontrado: ", u.as_str()),
            AuthError::InvalidPassword => "Senha inválida".to_owned(),
            AuthError::InvalidToken => "Token inválido ou expirado".to_owned(),
            AuthError::InvalidUsername(m) => concat2("Nome de usuário inválido: ", m.as_str()),
            AuthError::WeakPassword => "Senha muito fraca".to_owned(),
            AuthError::PersistenceError(m) => concat2("Erro de persistência: ", m.as_str()),
            AuthError::InternalError(m) => concat2("Erro interno: ", m.as_str()),
        }
    }
}

/// Where users are kept.
pub trait UserRepository {
    fn save(&self, user: &User) -> Result<(), AuthError>;

    fn find_by_username(&self, username: &str) -> Result<Option<User>, AuthError>;

    fn user_exists(&self, username: &str) -> Result<bool, AuthError>;

    fn count(&self) -> Result<usize, AuthError>;
}

/// Where sessions are kept.
pub trait SessionRepository {
    fn save(&self, session: &Session) -> Result<(), AuthError>;

    fn find_by_token(&self, token: &str) -> Result<Option<Session>, AuthError>;

    fn delete(&self, token: &str) -> Result<bool, AuthError>;

    fn delete_by_username(&self, username: &str) -> Result<usize, AuthError>;

    fn count(&self) -> Result<usize, AuthError>;

    fn cleanup_expired(&self, ttl_secs: u64) -> Result<usize, AuthError>;
}

/// A rule that new credentials break.
pub enum CredentialsProblem {
    /// the name is not 3 to 20 bytes long
    BadName,
    /// the password is shorter than 6 bytes
    WeakPassword,
}

/// The first rule new credentials break, if any.
pub open spec fn credentials_problem(c: Credentials) -> Option<CredentialsProblem> {
    if byte_len(c.username@) < 3 || byte_len(c.username@) > 20 {
        Some(CredentialsProblem::BadName)
    } else if byte_len(c.password@) < 6 {
        Some(CredentialsProblem::WeakPassword)
    } else {
        None
    }
}

/// Registering users.
pub struct RegisterUser<U: UserRepository> {
    pub user_repo: U,
}

impl<U: UserRepository> RegisterUser<U> {
    /// The use case over `user_repo`.
    pub fn new(user_repo: U) -> (r: Self)
        ensures
            r.user_repo == user_repo,
    {
        RegisterUser { user_repo }
    }

    /// Checks the rules for new credentials (see `credentials_problem`).
    pub fn check(credentials: &Credentials) -> (r: Result<(), AuthError>)
        ensures
            match credentials_problem(*credentials) {
                Some(CredentialsProblem::BadName) => r matches Err(AuthError::InvalidUsername(x)) && x@
                    == "Username deve ter entre 3 e 20 caracteres"@,
                Some(CredentialsProblem::WeakPassword) => r matches Err(AuthError::WeakPassword),
                None => r is Ok,
            },
    {
        let n = credentials.username.as_str().len();
        if n < 3 || n > 20 {
            return Err(AuthError::InvalidUsername("Username deve ter entre 3 e 20 caracteres".to_owned()));
        }
        if credentials.password.as_str().len() < 6 {
            return Err(AuthError::WeakPassword);
        }
        Ok(())
    }

    /// What the user store's answer `found` to whether `username` exists
    /// means for its registration: a store error is passed on, a taken name
    /// is refused, a free one may go on.
    pub fn after_lookup(username: &String, found: Result<bool, AuthError>) -> (r: Result<(), AuthError>)
        ensures
            match found {
                Err(e) => r == Err::<(), AuthError>(e),
                Ok(true) => r matches Err(AuthError::UserAlreadyExists(n)) && n@ == username@,
                Ok(false) => r is Ok,
            },
    {
        match found {
            Err(e) => Err(e),
            Ok(true) => Err(AuthError::UserAlreadyExists(username.clone())),
            Ok(false) => Ok(()),
        }
    }

    /// The account to store for `username` given what bcrypt answered for
    /// the password: the user with that hash, or an internal error naming
    /// bcrypt's complaint.
    pub fn account(username: &String, hashed: Result<String, String>) -> (r: Result<User, AuthError>)
        ensures
            match hashed {
                Ok(h) => r matches Ok(u) && u.username@ == username@ && u.password_hash == h,
                Err(m) => r matches Err(AuthError::InternalError(x)) && x@ == "Falha ao hash senha: "@ + m@,
            },
    {
        match hashed {
            Ok(h) => Ok(User::new(username.clone(), h)),
            Err(m) => Err(AuthError::InternalError(concat2("Falha ao hash senha: ", m.as_str()))),
        }
    }

    /// Registers a user: the rules are checked, an existing name is
    /// refused, the password is hashed with bcrypt and the user stored. A
    /// store error is passed on.
    pub fn execute(&self, credentials: Credentials) -> (r: Result<User, AuthError>)
        ensures
            match credentials_problem(credentials) {
                Some(CredentialsProblem::BadName) => r matches Err(AuthError::InvalidUsername(x)) && x@
                    == "Username deve ter entre 3 e 20 caracteres"@,
                Some(CredentialsProblem::WeakPassword) => r matches Err(AuthError::WeakPassword),
                None => true,
            },
            r matches Ok(u) ==> u.username@ == credentials.username@ && bcrypt_verdict(
                credentials.password@,
                u.password_hash@,
            ) == Ok::<bool, Seq<char>>(true),
    {
        match Self::check(&credentials) {
            Err(e) => return Err(e),
            Ok(()) => {},
        }
        let found = self.user_repo.user_exists(credentials.username.as_str());
        match Self::after_lookup(&credentials.username, found) {
            Err(e) => return Err(e),
            Ok(()) => {},
        }
        let hashed = bcrypt_hash(credentials.password.as_str(), BCRYPT_DEFAULT_COST);
        let user = match Self::account(&credentials.username, hashed) {
            Err(e) => return Err(e),
            Ok(u) => u,
        };
        match self.user_repo.save(&user) {
            Err(e) => Err(e),
            Ok(()) => Ok(user),
        }
    }
}

/// Logging users in.
pub struct LoginUser<U: UserRepository, S: SessionRepository> {
    pub user_repo: U,
    pub session_repo: S,
}

impl<U: UserRepository, S: SessionRepository> LoginUser<U, S> {
    /// The use case over the two stores.
    pub fn new(user_repo: U, session_repo: S) -> (r: Self)
        ensures
            r.user_repo == user_repo,
            r.session_repo == session_repo,
    {
        LoginUser { user_repo, session_repo }
    }

    /// Checks a password against what the user store answered: a store
    /// error is passed on; an unknown user, a failing check and a wrong
    /// password are refused; otherwise the user is returned.
    pub fn check_password(credentials: &Credentials, found: Result<Option<User>, AuthError>) -> (r: Result<User, AuthError>)
        ensures
            match found {
                Err(e) => r matches Err(x) && x == e,
                Ok(None) => r matches Err(AuthError::UserNotFound(u)) && u@ == credentials.username@,
                Ok(Some(user)) => match bcrypt_verdict(credentials.password@, user.password_hash@) {
                    Err(m) => r matches Err(AuthError::InternalError(x)) && x@ == "Erro ao verificar senha: "@ + m,
                    Ok(false) => r matches Err(AuthError::InvalidPassword),
                    Ok(true) => r matches Ok(u) && u == user,
                },
            },
    {
        let user = match found {
            Err(e) => return Err(e),
            Ok(None) => return Err(AuthError::UserNotFound(credentials.username.clone())),
            Ok(Some(u)) => u,
        };
        match bcrypt_verify(credentials.password.as_str(), user.password_hash.as_str()) {
            Err(m) => Err(AuthError::InternalError(concat2("Erro ao verificar senha: ", m.as_str()))),
            Ok(false) => Err(AuthError::InvalidPassword),
            Ok(true) => Ok(user),
        }
    }

    /// Logs a user in: the password is checked (see `check_password`), a
    /// session is opened under a fresh 36-character token and stored, and
    /// the token returned. A store error is passed on.
    pub fn execute(&self, credentials: Credentials) -> (r: Result<String, AuthError>)
        ensures
            r matches Ok(t) ==> t@.len() == 36,
    {
        let found = self.user_repo.find_by_username(credentials.username.as_str());
        let user = match Self::check_password(&credentials, found) {
            Err(e) => return Err(e),
            Ok(u) => u,
        };
        let token = random_token();
        let session = Session::new(token.clone(), user.username.clone());
        match self.session_repo.save(&session) {
            Err(e) => Err(e),
            Ok(()) => Ok(token),
        }
    }
}

/// The answer for a session token when the session store answered `found`
/// to the lookup and `deleted` to the deletion of an expired session: a
/// store error is passed on, an unknown token is invalid, an expired
/// session is invalid (unless its deletion failed, whose error is passed
/// on), and a live session gives its user.
pub open spec fn token_answer(
    found: Result<Option<Session>, AuthError>,
    deleted: Option<Result<bool, AuthError>>,
    ttl_secs: u64,
    now: Timestamp,
) -> Result<String, AuthError> {
    match found {
        Err(e) => Err(e),
        Ok(None) => Err(AuthError::InvalidToken),
        Ok(Some(s)) => if session_expired(now, s.created_at, ttl_secs) {
            match deleted {
                Some(Err(e)) => Err(e),
                _ => Err(AuthError::InvalidToken),
            }
        } else {
            Ok(s.username)
        },
    }
}

/// Only a live session validates: whatever the store answers, a token is
/// accepted for user `u` only when the store found a session of `u` under it
/// that has lived less than `ttl_secs` at `now`; a session that has lived
/// `ttl_secs` or more is refused, whatever its deletion answered.
pub proof fn law_only_live_sessions_validate(
    found: Result<Option<Session>, AuthError>,
    deleted: Option<Result<bool, AuthError>>,
    ttl_secs: u64,
    now: Timestamp,
)
    ensures
        token_answer(found, deleted, ttl_secs, now) matches Ok(u) ==> (found matches Ok(Some(s)) && s.username == u
            && elapsed_secs(now, s.created_at) < ttl_secs),
        found matches Ok(Some(s)) && elapsed_secs(now, s.created_at) >= ttl_secs ==> token_answer(
            found,
            deleted,
            ttl_secs,
            now,
        ) is Err,
{
}

/// Checking session tokens.
pub struct ValidateToken<S: SessionRepository> {
    pub session_repo: S,
    pub ttl_secs: u64,
}

impl<S: SessionRepository> ValidateToken<S> {
    /// The use case over `session_repo`, with sessions living `ttl_secs`
    /// seconds.
    pub fn new(session_repo: S, ttl_secs: u64) -> (r: Self)
        ensures
            r.session_repo == session_repo,
            r.ttl_secs == ttl_secs,
    {
        ValidateToken { session_repo, ttl_secs }
    }

    /// What a session store's answer `found` for a token means at `now`:
    /// a store error, an unknown token, an expired session, or the user.
    pub fn check_session(found: Result<Option<Session>, AuthError>, ttl_secs: u64, now: Timestamp) -> (r: TokenCheck)
        ensures
            match found {
                Err(e) => r == TokenCheck::Failed(e),
                Ok(None) => r == TokenCheck::Unknown,
                Ok(Some(s)) => if session_expired(now, s.created_at, ttl_secs) {
                    r == TokenCheck::Expired
                } else {
                    r == TokenCheck::Valid(s.username)
                },
            },
    {
        match found {
            Err(e) => TokenCheck::Failed(e),
            Ok(None) => TokenCheck::Unknown,
            Ok(Some(s)) => if s.is_expired_at(ttl_secs, now) {
                TokenCheck::Expired
            } else {
                TokenCheck::Valid(s.username)
            },
        }
    }

    /// The user of the session `token` at `now` (see `check_session`): an
    /// unknown token and an expired session (which is deleted) are refused
    /// as invalid; a store error is passed on. Besides the answer, it gives
    /// back (as ghost values) what the store answered to the lookup and,
    /// when it was asked to delete an expired session, to the deletion.
    pub fn execute_at(&self, token: &str, now: Timestamp) -> (r: (
        Result<String, AuthError>,
        Ghost<Result<Option<Session>, AuthError>>,
        Ghost<Option<Result<bool, AuthError>>>,
    ))
        ensures
            r.0 == token_answer(r.1@, r.2@, self.ttl_secs, now),
            r.0 matches Ok(u) ==> (r.1@ matches Ok(Some(s)) && s.username == u && !session_expired(
                now,
                s.created_at,
                self.ttl_secs,
            )),
            r.1@ matches Ok(Some(s)) && session_expired(now, s.created_at, self.ttl_secs) ==> r.2@ is Some && r.0 is Err,
            !(r.1@ matches Ok(Some(s)) && session_expired(now, s.created_at, self.ttl_secs)) ==> r.2@ is None,
    {
        let found = self.session_repo.find_by_token(token);
        let ghost answer = found;
        let check = Self::check_session(found, self.ttl_secs, now);
        let deleted = match check {
            TokenCheck::Expired => Some(self.session_repo.delete(token)),
            _ => None,
        };
        let ghost del = deleted;
        (Self::verdict(check, deleted), Ghost(answer), Ghost(del))
    }

    /// The answer for a token whose session check gave `check`, where
    /// `deleted` is what the store answered when an expired session was
    /// deleted: the user of a valid session; an unknown or expired token is
    /// invalid; a store error (of the check or the deletion) is passed on.
    pub fn verdict(check: TokenCheck, deleted: Option<Result<bool, AuthError>>) -> (r: Result<String, AuthError>)
        ensures
            match check {
                TokenCheck::Failed(e) => r == Err::<String, AuthError>(e),
                TokenCheck::Unknown => r == Err::<String, AuthError>(AuthError::InvalidToken),
                TokenCheck::Expired => match deleted {
                    Some(Err(e)) => r == Err::<String, AuthError>(e),
                    _ => r == Err::<String, AuthError>(AuthError::InvalidToken),
                },
                TokenCheck::Valid(u) => r == Ok::<String, AuthError>(u),
            },
    {
        match check {
            TokenCheck::Failed(e) => Err(e),
            TokenCheck::Unknown => Err(AuthError::InvalidToken),
            TokenCheck::Expired => match deleted {
                Some(Err(e)) => Err(e),
                _ => Err(AuthError::InvalidToken),
            },
            TokenCheck::Valid(u) => Ok(u),
        }
    }

    /// `execute_at` at the current time.
    pub fn execute(&self, token: &str) -> (r: Result<String, AuthError>) {
        self.execute_at(token, now_timestamp()).0
    }
}

/// What a session store's answer means for a token.
#[derive(Clone, Debug)]
pub enum TokenCheck {
    Valid(String),
    Unknown,
    Expired,
    Failed(AuthError),
}

/// Logging users out.
pub struct LogoutUser<S: SessionRepository> {
    pub session_repo: S,
}

impl<S: SessionRepository> LogoutUser<S> {
    /// The use case over `session_repo`.
    pub fn new(session_repo: S) -> (r: Self)
        ensures
            r.session_repo == session_repo,
    {
        LogoutUser { session_repo }
    }

    /// Closes session `token`; whether it was open, as the store says.
    pub fn execute_by_token(&self, token: &str) -> (r: Result<bool, AuthError>) {
        self.session_repo.delete(token)
    }

    /// Closes every session of `username`; how many, as the store says.
    pub fn execute_by_username(&self, username: &str) -> (r: Result<usize, AuthError>) {
        self.session_repo.delete_by_username(username)
    }
}

} // verus!
