use std::collections::HashMap;

use chat_serve::auth::AuthManager;
use chat_serve::database::{DbAnswers, Query, UserRecord};
use chat_serve::model::Timestamp;

/// Registered users: name -> password hash.
type Users = HashMap<String, String>;

fn answer(users: &mut Users, q: Query, a: &mut DbAnswers) {
    match q {
        Query::Registered { username } => a.registered = Some(Ok(users.contains_key(&username))),
        Query::InsertUser { username, password_hash } => {
            users.insert(username, password_hash.clone());
            a.password_hash = Some(password_hash);
            a.inserted = Some(Ok(()));
        }
        Query::LoginUser { username } => {
            a.login_user = Some(Ok(users.get(&username).map(|h| UserRecord {
                username: username.clone(),
                password_hash: h.clone(),
                created_at: String::new(),
            })))
        }
        Query::Banned { .. } => a.banned = Some(Ok(false)),
        other => panic!("unexpected question {:?}", other),
    }
}

fn register(auth: &AuthManager, users: &mut Users, u: &str, p: &str) -> Result<(), String> {
    let mut a = DbAnswers::new();
    loop {
        match auth.register(u, p, &a) {
            Ok(r) => return r,
            Err(q) => answer(users, q, &mut a),
        }
    }
}

fn login_at(auth: &mut AuthManager, users: &mut Users, u: &str, p: &str, now: Timestamp) -> Result<String, String> {
    let mut a = DbAnswers::new();
    loop {
        match auth.login_at(u, p, now, &a) {
            Ok(r) => return r,
            Err(q) => answer(users, q, &mut a),
        }
    }
}

fn login(auth: &mut AuthManager, users: &mut Users, u: &str, p: &str) -> Result<String, String> {
    let mut a = DbAnswers::new();
    loop {
        match auth.login(u, p, &a) {
            Ok(r) => return r,
            Err(q) => answer(users, q, &mut a),
        }
    }
}

fn create_test_auth() -> AuthManager {
    AuthManager::new(3600, 4)
}

#[test]
fn test_register_and_login() {
    let mut auth = create_test_auth();
    let mut users = Users::new();

    assert!(register(&auth, &mut users, "alice", "senha123").is_ok());
    assert_eq!(users.len(), 1);

    assert!(register(&auth, &mut users, "alice", "outra_senha").is_err());

    let token = login(&mut auth, &mut users, "alice", "senha123").expect("Login deveria funcionar");
    assert!(!token.is_empty());
    assert_eq!(auth.session_count(), 1);

    assert_eq!(auth.validate_token(&token), Some("alice".to_string()));

    assert!(login(&mut auth, &mut users, "alice", "senha_errada").is_err());
}

#[test]
fn test_logout() {
    let mut auth = create_test_auth();
    let mut users = Users::new();

    register(&auth, &mut users, "bob", "password123").unwrap();
    let token = login(&mut auth, &mut users, "bob", "password123").unwrap();

    assert_eq!(auth.session_count(), 1);

    assert!(auth.logout(&token));
    assert_eq!(auth.session_count(), 0);

    assert_eq!(auth.validate_token(&token), None);
}

#[test]
fn test_validation() {
    let auth = create_test_auth();
    let mut users = Users::new();

    assert!(register(&auth, &mut users, "ab", "password123").is_err());
    assert!(register(&auth, &mut users, "charlie", "12345").is_err());
    assert!(register(&auth, &mut users, "", "password").is_err());
    assert!(register(&auth, &mut users, "dave", "").is_err());
}

#[test]
fn registration_messages() {
    assert_eq!(
        AuthManager::validate_registration("", "x"),
        Err("Username e password não podem ser vazios".to_string())
    );
    assert_eq!(
        AuthManager::validate_registration("ab", "password123"),
        Err("Username deve ter no mínimo 3 caracteres".to_string())
    );
    assert_eq!(
        AuthManager::validate_registration("charlie", "12345"),
        Err("Password deve ter no mínimo 6 caracteres".to_string())
    );
    assert_eq!(AuthManager::validate_registration("charlie", "123456"), Ok(()));
    let auth = create_test_auth();
    let mut users = Users::new();
    register(&auth, &mut users, "erin", "secret1").unwrap();
    assert_eq!(
        register(&auth, &mut users, "erin", "secret2"),
        Err("Usuário 'erin' já existe".to_string())
    );
}

#[test]
fn bad_bcrypt_cost_fails_registration() {
    let auth = AuthManager::new(3600, 99);
    let mut users = Users::new();
    let r = register(&auth, &mut users, "frank", "secret1");
    assert!(r.unwrap_err().starts_with("Falha ao gerar hash: "));
    assert!(users.is_empty());
}

#[test]
fn login_errors() {
    let mut auth = create_test_auth();
    let mut users = Users::new();
    assert_eq!(
        login(&mut auth, &mut users, "ghost", "whatever"),
        Err("Usuário 'ghost' não encontrado".to_string())
    );
    register(&auth, &mut users, "gina", "secret1").unwrap();
    assert_eq!(login(&mut auth, &mut users, "gina", "wrong12"), Err("Password incorreto".to_string()));
    assert_eq!(auth.session_count(), 0);
}

#[test]
fn sessions_expire_after_their_lifetime() {
    let mut auth = AuthManager::new(10, 4);
    let mut users = Users::new();
    register(&auth, &mut users, "hank", "secret1").unwrap();
    let t0 = Timestamp { secs: 1_000, nanos: 500 };
    let token = login_at(&mut auth, &mut users, "hank", "secret1", t0).unwrap();
    assert_eq!(token.len(), 36);
    assert_eq!(auth.validate_token_at(&token, Timestamp { secs: 1_009, nanos: 999_999_999 }), Some("hank".to_string()));
    assert!(!auth.is_expired_at(t0, Timestamp { secs: 1_010, nanos: 499 }));
    assert!(auth.is_expired_at(t0, Timestamp { secs: 1_010, nanos: 500 }));
    assert_eq!(auth.validate_token_at(&token, Timestamp { secs: 1_010, nanos: 500 }), None);
    assert_eq!(auth.session_count(), 0);
}

#[test]
fn logout_user_closes_every_session_of_the_user() {
    let mut auth = create_test_auth();
    let mut users = Users::new();
    register(&auth, &mut users, "ivy", "secret1").unwrap();
    register(&auth, &mut users, "joe", "secret1").unwrap();
    let t1 = login(&mut auth, &mut users, "ivy", "secret1").unwrap();
    let t2 = login(&mut auth, &mut users, "ivy", "secret1").unwrap();
    let t3 = login(&mut auth, &mut users, "joe", "secret1").unwrap();
    assert_ne!(t1, t2);
    assert_eq!(auth.session_count(), 3);
    auth.logout_user("ivy");
    assert_eq!(auth.session_count(), 1);
    assert_eq!(auth.validate_token(&t1), None);
    assert_eq!(auth.validate_token(&t3), Some("joe".to_string()));
    assert!(!auth.logout(&t1));
}

#[test]
fn expired_sessions_are_swept() {
    let mut auth = AuthManager::new(5, 4);
    let mut users = Users::new();
    register(&auth, &mut users, "kim", "secret1").unwrap();
    login_at(&mut auth, &mut users, "kim", "secret1", Timestamp { secs: 0, nanos: 0 }).unwrap();
    let keep = login_at(&mut auth, &mut users, "kim", "secret1", Timestamp { secs: 4, nanos: 0 }).unwrap();
    let n = auth.remove_expired_sessions_at(Timestamp { secs: 6, nanos: 0 });
    assert_eq!(n, 1);
    assert_eq!(auth.session_count(), 1);
    assert_eq!(auth.validate_token_at(&keep, Timestamp { secs: 6, nanos: 0 }), Some("kim".to_string()));
}

#[test]
fn user_exists_and_count_ask_the_database() {
    let auth = AuthManager::new(3600, 4);
    let mut a = DbAnswers::new();
    match auth.user_exists("bob", &a) {
        Err(Query::UserExists { username }) => assert_eq!(username, "bob"),
        other => panic!("unexpected {:?}", other),
    }
    a.user_exists = Some(true);
    assert_eq!(auth.user_exists("bob", &a).ok(), Some(true));
    assert!(matches!(auth.user_count(&a), Err(Query::UserCount)));
    a.user_count = Some(3);
    assert_eq!(auth.user_count(&a).ok(), Some(3));
}

#[test]
fn test_token_expiration_short_ttl() {
    let mut auth = AuthManager::new(1, 4);
    let mut users = Users::new();
    register(&auth, &mut users, "ttl_user", "senha123").unwrap();
    let token = login_at(&mut auth, &mut users, "ttl_user", "senha123", Timestamp { secs: 100, nanos: 0 }).unwrap();
    assert!(
        auth.validate_token_at(&token, Timestamp { secs: 100, nanos: 0 }).is_some(),
        "token deve ser válido imediatamente após login"
    );
    let result = auth.validate_token_at(&token, Timestamp { secs: 101, nanos: 500_000_000 });
    assert!(result.is_none(), "O token deveria ter expirado, mas retornou: {:?}", result);
}
