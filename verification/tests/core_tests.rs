use std::collections::HashMap;

use chat_serve::auth::AuthManager;
use chat_serve::chat_core::ChatCore;
use chat_serve::database::{DbAnswers, DbCommand, MessageType, ModerationLog, Query, UserRecord};
use chat_serve::effects::{Effect, Tally};
use chat_serve::model::{AckKind, ChatAction, ChatMessage, PeerAddr, Timestamp};
use chat_serve::state::ChatState;

fn addr(port: u16) -> PeerAddr {
    PeerAddr::v4(127, 0, 0, 1, port)
}

fn at(secs: i64) -> Timestamp {
    Timestamp { secs, nanos: 0 }
}

/// The monotonic reading, in nanoseconds, that goes with `at(secs)`.
fn mono(secs: u64) -> u64 {
    secs * 1_000_000_000
}

/// An in-memory stand-in for the server database.
#[derive(Default)]
struct FakeDb {
    users: HashMap<String, String>,
    banned: Vec<String>,
    muted: Vec<String>,
    admins: Vec<String>,
    pending: HashMap<String, usize>,
    logs: Vec<ModerationLog>,
    asked: Vec<String>,
}

impl FakeDb {
    fn answer(&mut self, q: Query, a: &mut DbAnswers) {
        self.asked.push(format!("{:?}", q));
        match q {
            Query::Registered { username } => a.registered = Some(Ok(self.users.contains_key(&username))),
            Query::InsertUser { username, password_hash } => {
                self.users.insert(username, password_hash.clone());
                a.password_hash = Some(password_hash);
                a.inserted = Some(Ok(()));
            }
            Query::LoginUser { username } => {
                a.login_user = Some(Ok(self.users.get(&username).map(|h| UserRecord {
                    username: username.clone(),
                    password_hash: h.clone(),
                    created_at: String::new(),
                })))
            }
            Query::Banned { username } => a.banned = Some(Ok(self.banned.contains(&username))),
            Query::Muted { username } => a.muted = Some(Ok(self.muted.contains(&username))),
            Query::Admin { username } => a.admin = Some(Ok(self.admins.contains(&username))),
            Query::UserExists { username } => a.user_exists = Some(self.users.contains_key(&username)),
            Query::Pending { username } => a.pending = Some(Ok(*self.pending.get(&username).unwrap_or(&0))),
            Query::Admins => a.admins = Some(Ok(self.admins.clone())),
            Query::Logs { limit } => a.logs = Some(Ok(self.logs.iter().take(limit).cloned().collect())),
            Query::DownloadToken { file_id, for_user, .. } => {
                a.download_token = Some(Ok(format!("tok-{}-{}", file_id, for_user)))
            }
            Query::UserCount => a.user_count = Some(self.users.len()),
        }
    }
}

fn drive(db: &mut FakeDb, mut step: impl FnMut(&DbAnswers) -> Result<Vec<Effect>, Query>) -> Vec<Effect> {
    let mut a = DbAnswers::new();
    for _ in 0..20 {
        match step(&a) {
            Ok(v) => return v,
            Err(q) => db.answer(q, &mut a),
        }
    }
    panic!("too many questions");
}

/// The messages sent (reliably) to `to`.
fn sent_to(es: &[Effect], to: PeerAddr) -> Vec<ChatMessage> {
    es.iter()
        .filter_map(|e| match e {
            Effect::Send { to: t, msg } if *t == to => Some(msg.clone()),
            _ => None,
        })
        .collect()
}

fn offers(es: &[Effect]) -> Vec<(Vec<PeerAddr>, ChatMessage, bool)> {
    es.iter()
        .filter_map(|e| match e {
            Effect::Offer { to, msg, count_full } => {
                let mut to = to.clone();
                to.sort_by_key(|a| a.port);
                Some((to, msg.clone(), *count_full))
            }
            _ => None,
        })
        .collect()
}

fn counts(es: &[Effect]) -> Vec<Tally> {
    es.iter()
        .filter_map(|e| match e {
            Effect::Count(t) => Some(*t),
            _ => None,
        })
        .collect()
}

fn ack_info(m: &ChatMessage) -> (AckKind, String, Option<String>) {
    match m {
        ChatMessage::Ack { kind, info, message_id } => (*kind, info.clone(), message_id.clone()),
        other => panic!("expected Ack, got {:?}", other),
    }
}

fn plain_core() -> ChatCore {
    let mut state = ChatState::new();
    state.init_fixed_rooms();
    ChatCore::new(state)
}

fn db_core() -> ChatCore {
    let mut state = ChatState::new();
    state.init_fixed_rooms();
    ChatCore::new_with_auth_and_db(state, AuthManager::new(3600, 4))
}

fn register(core: &mut ChatCore, db: &mut FakeDb, name: &str, pw: &str, a: PeerAddr, now: Timestamp) -> Vec<Effect> {
    drive(db, |ans| core.handle_register_at(name.to_string(), pw.to_string(), a, now, ans))
}

fn token_of(es: &[Effect]) -> String {
    for e in es {
        if let Effect::Send { msg: ChatMessage::SessionToken { token, .. }, .. } = e {
            return token.clone();
        }
    }
    panic!("no token in {:?}", es)
}

#[test]
fn test_send_private_and_ack() {
    let mut core = plain_core();
    let (a, b) = (addr(10000), addr(10001));
    core.state.add_client(a, "alice".to_string());
    core.state.add_client(b, "bob".to_string());
    let mut db = FakeDb::default();
    let es = drive(&mut db, |ans| {
        core.send_private_message_at(
            "alice".into(),
            "bob".into(),
            "hello".into(),
            at(1),
            Some("mid-1".into()),
            mono(1),
            ans,
        )
    });
    let deliver: Vec<&Effect> = es.iter().filter(|e| matches!(e, Effect::Deliver { .. })).collect();
    assert_eq!(deliver.len(), 1);
    match deliver[0] {
        Effect::Deliver { to, msg, sender, on_ok, on_err } => {
            assert_eq!(*to, b);
            match msg {
                ChatMessage::Private { from, to, content, message_id, .. } => {
                    assert_eq!(from, "alice");
                    assert_eq!(to, "bob");
                    assert_eq!(content, "hello");
                    assert_eq!(message_id, &Some("mid-1".into()));
                }
                _ => panic!("expected Private"),
            }
            assert_eq!(*sender, Some(a));
            let (kind, info, mid) = ack_info(on_ok);
            assert_eq!(kind, AckKind::Delivered);
            assert_eq!(info, "DM para bob entregue.");
            assert_eq!(mid, Some("mid-1".into()));
            let (kind, info, mid) = ack_info(on_err);
            assert_eq!(kind, AckKind::Failed);
            assert_eq!(info, "Falha ao entregar DM para bob.");
            assert_eq!(mid, Some("mid-1".into()));
        }
        _ => unreachable!(),
    }
    assert_eq!(counts(&es), vec![Tally::MessagesSent, Tally::PrivateMessages]);
}

#[test]
fn test_roomtext_barrier_and_broadcast() {
    let mut core = plain_core();
    let (a, b) = (addr(11000), addr(11001));
    core.state.add_client(a, "alice".to_string());
    core.state.add_client(b, "bob".to_string());
    core.state.join_room("bob", "#rust");
    let mut db = FakeDb::default();

    let msg = ChatMessage::RoomText { from: "alice".into(), room: "#rust".into(), content: "hi".into(), timestamp: at(5) };
    let es = drive(&mut db, |ans| core.handle_message_at(msg.clone(), a, at(5), mono(5), ans));
    let to_alice = sent_to(&es, a);
    assert_eq!(to_alice.len(), 1);
    let (kind, info, _) = ack_info(&to_alice[0]);
    assert_eq!(kind, AckKind::Failed);
    assert_eq!(info, "Você precisa entrar na sala #rust para enviar mensagens.");
    assert!(offers(&es).is_empty());

    core.state.join_room("alice", "#rust");
    let msg2 = ChatMessage::RoomText { from: "alice".into(), room: "#rust".into(), content: "hi2".into(), timestamp: at(6) };
    let es2 = drive(&mut db, |ans| core.handle_message_at(msg2.clone(), a, at(6), mono(6), ans));
    let o = offers(&es2);
    assert_eq!(o.len(), 1);
    assert_eq!(o[0].0, vec![a, b]);
    match &o[0].1 {
        ChatMessage::RoomText { from, room, content, .. } => {
            assert_eq!(from, "alice");
            assert_eq!(room, "#rust");
            assert_eq!(content, "hi2");
        }
        _ => panic!("expected RoomText"),
    }
}

#[test]
fn dm_to_unknown_user_without_accounts_is_reported() {
    let mut core = plain_core();
    let a = addr(12000);
    core.state.add_client(a, "alice".to_string());
    let mut db = FakeDb::default();
    let msg = ChatMessage::Private {
        from: "alice".into(),
        to: "ghost".into(),
        content: "Are you there?".into(),
        timestamp: at(1),
        message_id: None,
    };
    let es = drive(&mut db, |ans| core.handle_message_at(msg.clone(), a, at(1), mono(1), ans));
    assert_eq!(sent_to(&es, a).len(), 1);
    match &sent_to(&es, a)[0] {
        ChatMessage::Error(e) => assert_eq!(e, "Usuário 'ghost' não encontrado."),
        other => panic!("unexpected {:?}", other),
    }
    assert!(!es.iter().any(|e| matches!(e, Effect::Store(_) | Effect::Deliver { .. })));
}

#[test]
fn offline_dm_is_stored_and_acknowledged() {
    let mut core = db_core();
    let mut db = FakeDb::default();
    let a = addr(13000);
    register(&mut core, &mut db, "alice", "pass123", a, at(10));
    db.users.insert("bob".into(), "x".into());
    let msg = ChatMessage::Private {
        from: "alice".into(),
        to: "bob".into(),
        content: "Mensagem offline 1".into(),
        timestamp: at(11),
        message_id: Some("msg-001".into()),
    };
    let es = drive(&mut db, |ans| core.handle_message_at(msg.clone(), a, at(11), mono(11), ans));
    assert!(es.iter().any(|e| matches!(e,
        Effect::Store(DbCommand::InsertMessage { delivered: false, message_type: MessageType::Private, to_user: Some(t), .. }) if t == "bob")));
    assert_eq!(counts(&es), vec![Tally::MessagesSent, Tally::PrivateMessages, Tally::MessagesQueued]);
    let (kind, info, mid) = ack_info(&sent_to(&es, a)[0]);
    assert_eq!(kind, AckKind::Received);
    assert_eq!(info, "Mensagem para bob será entregue quando voltar online.");
    assert_eq!(mid, Some("msg-001".into()));
}

#[test]
fn test_offline_message_not_for_nonexistent_user() {
    let mut core = db_core();
    let mut db = FakeDb::default();
    let a = addr(13100);
    register(&mut core, &mut db, "alice", "pass123", a, at(10));
    let msg = ChatMessage::Private {
        from: "alice".into(),
        to: "ghost".into(),
        content: "Teste".into(),
        timestamp: at(11),
        message_id: Some("msg-ghost".into()),
    };
    let es = drive(&mut db, |ans| core.handle_message_at(msg.clone(), a, at(11), mono(11), ans));
    match &sent_to(&es, a)[0] {
        ChatMessage::Error(e) => assert!(e.contains("não encontrado")),
        other => panic!("unexpected {:?}", other),
    }
    assert!(!es.iter().any(|e| matches!(e, Effect::Store(_))));
}

#[test]
fn full_inbox_refuses_offline_dm() {
    let mut core = db_core().with_limits(10, 2);
    let mut db = FakeDb::default();
    let a = addr(13200);
    register(&mut core, &mut db, "alice", "pass123", a, at(10));
    db.users.insert("bob".into(), "x".into());
    db.pending.insert("bob".into(), 2);
    let msg = ChatMessage::Private {
        from: "alice".into(),
        to: "bob".into(),
        content: "oi".into(),
        timestamp: at(11),
        message_id: Some("m-full".into()),
    };
    let es = drive(&mut db, |ans| core.handle_message_at(msg.clone(), a, at(11), mono(11), ans));
    let (kind, info, mid) = ack_info(&sent_to(&es, a)[0]);
    assert_eq!(kind, AckKind::Failed);
    assert_eq!(info, "Caixa de entrada de 'bob' cheia (2/2 mensagens). Tente mais tarde.");
    assert_eq!(mid, Some("m-full".into()));
    assert!(!es.iter().any(|e| matches!(e, Effect::Store(_))));
    assert_eq!(counts(&es), vec![Tally::MessagesSent, Tally::PrivateMessages, Tally::QueueFull]);
}

#[test]
fn test_online_message_not_saved_as_offline() {
    let mut core = db_core();
    let mut db = FakeDb::default();
    let (a, b) = (addr(13300), addr(13301));
    register(&mut core, &mut db, "alice", "pass123", a, at(10));
    register(&mut core, &mut db, "bob", "pass456", b, at(10));
    let msg = ChatMessage::Private {
        from: "alice".into(),
        to: "bob".into(),
        content: "Oi Bob!".into(),
        timestamp: at(11),
        message_id: Some("msg-online".into()),
    };
    let es = drive(&mut db, |ans| core.handle_message_at(msg.clone(), a, at(11), mono(11), ans));
    assert!(es.iter().any(|e| matches!(e, Effect::Store(DbCommand::InsertMessage { delivered: true, .. }))));
    assert!(es.iter().any(|e| matches!(e, Effect::Deliver { to, .. } if *to == b)));
    assert!(!counts(&es).contains(&Tally::MessagesQueued));
}

#[test]
fn repeated_message_id_is_not_delivered_again() {
    let mut core = plain_core();
    let (a, b) = (addr(14000), addr(14001));
    core.state.add_client(a, "alice".to_string());
    core.state.add_client(b, "bob".to_string());
    let mut db = FakeDb::default();
    let msg = ChatMessage::Private {
        from: "alice".into(),
        to: "bob".into(),
        content: "Duplicated message".into(),
        timestamp: at(1),
        message_id: Some("same".into()),
    };
    let first = drive(&mut db, |ans| core.handle_message_at(msg.clone(), a, at(100), mono(100), ans));
    assert!(first.iter().any(|e| matches!(e, Effect::Deliver { .. })));
    let second = drive(&mut db, |ans| core.handle_message_at(msg.clone(), a, at(101), mono(101), ans));
    assert!(!second.iter().any(|e| matches!(e, Effect::Deliver { .. })));
    let (kind, info, mid) = ack_info(&sent_to(&second, a)[0]);
    assert_eq!(kind, AckKind::Delivered);
    assert_eq!(info, "DM para bob já entregue (dedup).");
    assert_eq!(mid, Some("same".into()));
}

#[test]
fn rate_limit_refuses_the_eleventh_message() {
    let mut core = plain_core();
    let a = addr(15000);
    core.state.add_client(a, "alice".to_string());
    let mut db = FakeDb::default();
    for i in 0..10 {
        let m = ChatMessage::Text { from: "alice".into(), content: format!("Flood message {}", i), timestamp: at(1) };
        let es = drive(&mut db, |ans| core.handle_message_at(m.clone(), a, at(50), mono(50), ans));
        assert_eq!(offers(&es).len(), 1);
    }
    let m = ChatMessage::Text { from: "alice".into(), content: "one too many".into(), timestamp: at(1) };
    let es = drive(&mut db, |ans| core.handle_message_at(m.clone(), a, at(50), mono(50), ans));
    assert!(offers(&es).is_empty());
    let (kind, info, mid) = ack_info(&sent_to(&es, a)[0]);
    assert_eq!(kind, AckKind::Failed);
    assert_eq!(info, "Limite de mensagens excedido (10 msg/s).");
    assert_eq!(mid, None);
    let later = drive(&mut db, |ans| core.handle_message_at(m.clone(), a, at(51), mono(51), ans));
    assert_eq!(offers(&later).len(), 1);
}

#[test]
fn rate_limited_dm_keeps_its_message_id() {
    let mut core = plain_core().with_limits(1, 1000);
    let (a, b) = (addr(15100), addr(15101));
    core.state.add_client(a, "alice".to_string());
    core.state.add_client(b, "bob".to_string());
    let mut db = FakeDb::default();
    let dm = |id: &str| ChatMessage::Private {
        from: "alice".into(),
        to: "bob".into(),
        content: "x".into(),
        timestamp: at(1),
        message_id: Some(id.into()),
    };
    let m1 = dm("a1");
    drive(&mut db, |ans| core.handle_message_at(m1.clone(), a, at(7), mono(7), ans));
    let m2 = dm("a2");
    let es = drive(&mut db, |ans| core.handle_message_at(m2.clone(), a, at(7), mono(7), ans));
    let (kind, info, mid) = ack_info(&sent_to(&es, a)[0]);
    assert_eq!(kind, AckKind::Failed);
    assert_eq!(info, "Limite de mensagens excedido (1 msg/s).");
    assert_eq!(mid, Some("a2".into()));
}

#[test]
fn broadcast_reaches_everyone_and_is_stored() {
    let mut core = db_core();
    let mut db = FakeDb::default();
    let (a, b) = (addr(16000), addr(16001));
    register(&mut core, &mut db, "alice", "test12", a, at(1));
    register(&mut core, &mut db, "bob", "test12", b, at(1));
    let es = core.broadcast("alice".into(), "Hello everyone!".into(), at(2));
    assert_eq!(counts(&es), vec![Tally::MessagesSent, Tally::RoomMessages]);
    assert!(es.iter().any(|e| matches!(e, Effect::Store(DbCommand::InsertMessage { message_type: MessageType::Broadcast, delivered: false, .. }))));
    let o = offers(&es);
    assert_eq!(o.len(), 1);
    assert_eq!(o[0].0, vec![a, b]);
    assert!(o[0].2);
}

#[test]
fn register_login_and_act_with_token() {
    let mut core = db_core();
    let mut db = FakeDb::default();
    let a = addr(17000);
    let es = register(&mut core, &mut db, "alice", "senha123", a, at(100));
    assert_eq!(counts(&es), vec![Tally::Registrations, Tally::Logins]);
    let token = token_of(&es);
    assert_eq!(token.len(), 36);
    let (kind, info, _) = ack_info(&sent_to(&es, a)[1]);
    assert_eq!(kind, AckKind::System);
    assert_eq!(info, "Registro realizado e login efetuado");
    assert_eq!(core.state.get_client_tx("alice"), Some(a));

    let join = ChatMessage::Authenticated { token: token.clone(), action: Box::new(ChatAction::JoinRoom { room: "#dev".into() }) };
    let es = drive(&mut db, |ans| core.handle_message_at(join.clone(), a, at(101), mono(101), ans));
    assert_eq!(counts(&es), vec![Tally::RoomJoins]);
    assert_eq!(ack_info(&sent_to(&es, a)[0]).1, "Entrou na sala #dev");
    assert!(core.state.is_subscribed("alice", "#dev"));

    let list = ChatMessage::Authenticated { token: token.clone(), action: Box::new(ChatAction::ListRequest { from: "alice".into() }) };
    let es = drive(&mut db, |ans| core.handle_message_at(list.clone(), a, at(102), mono(102), ans));
    match &sent_to(&es, a)[0] {
        ChatMessage::ListResponse { users } => assert_eq!(users, &vec!["alice".to_string()]),
        other => panic!("unexpected {:?}", other),
    }

    let out = ChatMessage::Authenticated { token: token.clone(), action: Box::new(ChatAction::Logout { username: "alice".into() }) };
    let es = drive(&mut db, |ans| core.handle_message_at(out.clone(), a, at(103), mono(103), ans));
    assert_eq!(counts(&es), vec![Tally::Logouts]);
    assert!(es.iter().any(|e| matches!(e, Effect::UsersOnline(0))));
    assert_eq!(ack_info(&sent_to(&es, a)[0]).1, "Logout realizado");

    let again = ChatMessage::Authenticated { token, action: Box::new(ChatAction::ListRequest { from: "alice".into() }) };
    let es = drive(&mut db, |ans| core.handle_message_at(again.clone(), a, at(104), mono(104), ans));
    let (kind, info, _) = ack_info(&sent_to(&es, a)[0]);
    assert_eq!(kind, AckKind::Failed);
    assert_eq!(info, "Token inválido ou expirado");
}

#[test]
fn login_errors_are_worded_for_the_user() {
    let mut core = db_core();
    let mut db = FakeDb::default();
    let a = addr(18000);
    register(&mut core, &mut db, "alice", "senha123", a, at(1));

    let es = drive(&mut db, |ans| core.handle_login_at("alice".into(), "senha_errada".into(), addr(18001), at(2), ans));
    let (kind, info, _) = ack_info(&sent_to(&es, addr(18001))[0]);
    assert_eq!(kind, AckKind::Failed);
    assert_eq!(info, "Senha incorreta para o usuário 'alice'");

    let es = drive(&mut db, |ans| core.handle_login_at("zed".into(), "whatever".into(), addr(18002), at(2), ans));
    assert_eq!(ack_info(&sent_to(&es, addr(18002))[0]).1, "Usuário 'zed' não encontrado");

    db.banned.push("alice".into());
    let es = drive(&mut db, |ans| core.handle_login_at("alice".into(), "senha123".into(), addr(18003), at(2), ans));
    assert_eq!(ack_info(&sent_to(&es, addr(18003))[0]).1, "Você está banido deste servidor");

    let es = register(&mut core, &mut db, "alice", "senha123", addr(18004), at(3));
    assert_eq!(ack_info(&sent_to(&es, addr(18004))[0]).1, "Usuário 'alice' já existe");
    let es = register(&mut core, &mut db, "al", "senha123", addr(18005), at(3));
    assert_eq!(ack_info(&sent_to(&es, addr(18005))[0]).1, "Username deve ter no mínimo 3 caracteres");
}

#[test]
fn successful_login_flushes_waiting_messages() {
    let mut core = db_core();
    let mut db = FakeDb::default();
    register(&mut core, &mut db, "bob", "pass456", addr(19000), at(1));
    let es = drive(&mut db, |ans| core.handle_login_at("bob".into(), "pass456".into(), addr(19001), at(2), ans));
    assert_eq!(counts(&es), vec![Tally::Logins]);
    assert!(es.iter().any(|e| matches!(e, Effect::UsersOnline(1))));
    assert_eq!(ack_info(&sent_to(&es, addr(19001))[1]).1, "Login bem-sucedido");
    assert!(es.iter().any(|e| matches!(e, Effect::FlushPending { user } if user == "bob")));
    assert_eq!(core.state.get_client_tx("bob"), Some(addr(19001)));
}

#[test]
fn without_accounts_login_claims_the_name() {
    let mut core = plain_core();
    let mut db = FakeDb::default();
    let es = drive(&mut db, |ans| core.handle_login_at("carol".into(), "ignored".into(), addr(20000), at(1), ans));
    let o = offers(&es);
    assert_eq!(o.len(), 1);
    match &o[0].1 {
        ChatMessage::Text { from, content, .. } => {
            assert_eq!(from, "Sistema");
            assert_eq!(content, "carol entrou na sala!");
        }
        other => panic!("unexpected {:?}", other),
    }
    let es = core.register_user_at("carol".into(), addr(20001), at(2));
    match &sent_to(&es, addr(20001))[0] {
        ChatMessage::Error(e) => assert_eq!(e, "Username 'carol' já está em uso"),
        other => panic!("unexpected {:?}", other),
    }
    let es = core.register_user_at("bad name".into(), addr(20002), at(2));
    match &sent_to(&es, addr(20002))[0] {
        ChatMessage::Error(e) => {
            assert_eq!(e, "Username inválido: Username só pode conter letras ASCII, números, underscore (_) e hífen (-)")
        }
        other => panic!("unexpected {:?}", other),
    }
    let es = drive(&mut db, |ans| core.handle_register_at("dan".into(), "secret1".into(), addr(20003), at(2), ans));
    let (kind, info, _) = ack_info(&sent_to(&es, addr(20003))[0]);
    assert_eq!(kind, AckKind::Failed);
    assert_eq!(info, "Registro não suportado no servidor");
}

#[test]
fn disconnect_announces_and_cleans_up() {
    let mut core = plain_core();
    let (a, b) = (addr(21000), addr(21001));
    core.state.add_client(a, "alice".to_string());
    core.state.add_client(b, "bob".to_string());
    core.state.join_room("bob", "#x");
    let es = core.disconnect_user_at(b, at(9));
    assert!(!core.state.has_user("bob"));
    assert!(!core.state.room_exists("#x"));
    let o = offers(&es);
    assert_eq!(o[0].0, vec![a]);
    match &o[0].1 {
        ChatMessage::Text { from, content, .. } => {
            assert_eq!(from, "Sistema");
            assert_eq!(content, "bob saiu da sala!");
        }
        other => panic!("unexpected {:?}", other),
    }
    assert!(core.disconnect_user_at(addr(1), at(9)).is_empty());
}

fn admin_setup() -> (ChatCore, FakeDb, String, String) {
    let mut core = db_core();
    let mut db = FakeDb::default();
    let t_root = token_of(&register(&mut core, &mut db, "root", "rootpw1", addr(22000), at(1)));
    let t_bob = token_of(&register(&mut core, &mut db, "bob", "bobpw12", addr(22001), at(1)));
    db.admins.push("root".into());
    (core, db, t_root, t_bob)
}

fn act(core: &mut ChatCore, db: &mut FakeDb, token: &str, from: PeerAddr, action: ChatAction) -> Vec<Effect> {
    let m = ChatMessage::Authenticated { token: token.to_string(), action: Box::new(action) };
    drive(db, |ans| core.handle_message_at(m.clone(), from, at(5), mono(5), ans))
}

#[test]
fn admin_kick_and_permissions() {
    let (mut core, mut db, t_root, t_bob) = admin_setup();
    let es = act(&mut core, &mut db, &t_bob, addr(22001), ChatAction::AdminKick { target: "root".into(), reason: "x".into() });
    assert_eq!(ack_info(&sent_to(&es, addr(22001))[0]).1, "❌ Sem permissão (requer admin)");
    assert!(core.state.has_user("root"));

    let es = act(&mut core, &mut db, &t_root, addr(22000), ChatAction::AdminKick { target: "bob".into(), reason: "spam".into() });
    assert!(!core.state.has_user("bob"));
    assert!(es.iter().any(|e| matches!(e, Effect::Store(DbCommand::LogModeration { action, .. }) if action == "kick")));
    let (kind, info, _) = ack_info(&sent_to(&es, addr(22000))[0]);
    assert_eq!(kind, AckKind::System);
    assert_eq!(info, "✅ bob foi expulso: spam");
    assert!(sent_to(&es, addr(22001)).is_empty());
}

#[test]
fn admin_ban_mute_and_lists() {
    let (mut core, mut db, t_root, _t_bob) = admin_setup();
    let es = act(&mut core, &mut db, &t_root, addr(22000), ChatAction::AdminBan { target: "nobody".into(), duration_secs: 0, reason: "x".into() });
    match &sent_to(&es, addr(22000))[0] {
        ChatMessage::Error(e) => assert_eq!(e, "Usuário 'nobody' não existe"),
        other => panic!("unexpected {:?}", other),
    }

    let es = act(&mut core, &mut db, &t_root, addr(22000), ChatAction::AdminMute { target: "bob".into(), duration_secs: 30 });
    assert_eq!(ack_info(&sent_to(&es, addr(22000))[0]).1, "✅ bob foi silenciado por 30 segundos");
    assert_eq!(ack_info(&sent_to(&es, addr(22001))[0]).1, "Você foi silenciado por 30 segundos");
    assert!(es.iter().any(|e| matches!(e, Effect::Store(DbCommand::LogModeration { details: Some(d), .. }) if d == "duração: 30s")));

    let es = act(&mut core, &mut db, &t_root, addr(22000), ChatAction::AdminBan { target: "bob".into(), duration_secs: 60, reason: "flood".into() });
    assert_eq!(ack_info(&sent_to(&es, addr(22000))[0]).1, "✅ bob foi banido por 60 segundos: flood");
    assert!(es.iter().any(|e| matches!(e, Effect::Store(DbCommand::BanUser { duration_secs: Some(60), .. }))));
    assert!(!core.state.has_user("bob"));

    let es = act(&mut core, &mut db, &t_root, addr(22000), ChatAction::AdminBan { target: "root".into(), duration_secs: 0, reason: "bye".into() });
    assert!(es.iter().any(|e| matches!(e, Effect::Store(DbCommand::BanUser { duration_secs: None, .. }))));
    assert!(sent_to(&es, addr(22000)).is_empty());
}

#[test]
fn admin_list_and_logs_texts() {
    let (mut core, mut db, t_root, _t_bob) = admin_setup();
    db.admins.push("ana".into());
    let es = act(&mut core, &mut db, &t_root, addr(22000), ChatAction::AdminList);
    assert_eq!(ack_info(&sent_to(&es, addr(22000))[0]).1, "👮 Admins (2): root, ana");

    let es = act(&mut core, &mut db, &t_root, addr(22000), ChatAction::AdminLogs { limit: None });
    assert_eq!(ack_info(&sent_to(&es, addr(22000))[0]).1, "Nenhum log de moderação");

    db.logs.push(ModerationLog {
        action: "kick".into(),
        moderator: "root".into(),
        target_user: "bob".into(),
        reason: None,
        details: Some("d".into()),
        timestamp: "2024-01-01".into(),
    });
    let es = act(&mut core, &mut db, &t_root, addr(22000), ChatAction::AdminLogs { limit: Some(5) });
    assert_eq!(
        ack_info(&sent_to(&es, addr(22000))[0]).1,
        "📋 Logs de Moderação (últimos 1):\n[2024-01-01] root → bob (kick): d\n"
    );
    assert!(db.asked.iter().any(|q| q.contains("Logs { limit: 5 }")));
}

#[test]
fn muted_user_cannot_talk_but_can_search() {
    let (mut core, mut db, _t_root, t_bob) = admin_setup();
    db.muted.push("bob".into());
    let es = act(&mut core, &mut db, &t_bob, addr(22001), ChatAction::Text { from: "bob".into(), content: "hi".into(), timestamp: at(5) });
    let (kind, info, _) = ack_info(&sent_to(&es, addr(22001))[0]);
    assert_eq!(kind, AckKind::Failed);
    assert_eq!(info, "🔇 Você está silenciado e não pode enviar mensagens");
    assert!(offers(&es).is_empty());

    let es = act(&mut core, &mut db, &t_bob, addr(22001), ChatAction::SearchMessages { query: "hi".into(), limit: None, user_filter: None });
    assert!(es.iter().any(|e| matches!(e, Effect::Search { limit: 50, .. })));
}

#[test]
fn history_and_file_requests() {
    let (mut core, mut db, t_root, _t_bob) = admin_setup();
    let es = act(&mut core, &mut db, &t_root, addr(22000), ChatAction::HistoryRequest { from: "root".into(), to: Some("bob".into()), limit: None });
    assert!(es.iter().any(|e| matches!(e, Effect::History { user, other: Some(o), limit: 50 } if user == "root" && o == "bob")));

    let es = act(
        &mut core,
        &mut db,
        &t_root,
        addr(22000),
        ChatAction::SendFile {
            from: "root".into(),
            to: "bob".into(),
            file_id: "f1".into(),
            file_name: "a.txt".into(),
            file_size: 3,
            mime_type: "text/plain".into(),
            timestamp: at(0),
        },
    );
    match &sent_to(&es, addr(22001))[0] {
        ChatMessage::FileNotification { download_token, timestamp, file_name, .. } => {
            assert_eq!(download_token, "tok-f1-bob");
            assert_eq!(timestamp, "1970-01-01T00:00:00+00:00");
            assert_eq!(file_name, "a.txt");
        }
        other => panic!("unexpected {:?}", other),
    }
    assert_eq!(ack_info(&sent_to(&es, addr(22000))[0]).1, "✅ Arquivo 'a.txt' enviado para bob");
    assert!(db.asked.iter().any(|q| q.contains("DownloadToken") && q.contains("requested_by: \"root\"")));

    let mut plain = plain_core();
    plain.state.add_client(addr(1), "u".into());
    let mut db2 = FakeDb::default();
    let m = ChatMessage::ListRequest { from: "u".into() };
    let es = drive(&mut db2, |ans| plain.handle_message_at(m.clone(), addr(1), at(1), mono(1), ans));
    assert!(matches!(&sent_to(&es, addr(1))[0], ChatMessage::ListResponse { .. }));
}

#[test]
fn typing_and_read_receipts_skip_their_author() {
    let mut core = plain_core();
    let (a, b, c) = (addr(23000), addr(23001), addr(23002));
    core.state.add_client(a, "a".into());
    core.state.add_client(b, "b".into());
    core.state.add_client(c, "c".into());
    let mut db = FakeDb::default();
    let m = ChatMessage::Typing { user: "b".into(), typing: true };
    let es = drive(&mut db, |ans| core.handle_message_at(m.clone(), b, at(1), mono(1), ans));
    assert_eq!(offers(&es)[0].0, vec![a, c]);
    assert!(!offers(&es)[0].2);
    let m = ChatMessage::ReadReceipt { message_id: "m9".into(), reader: "c".into() };
    let es = drive(&mut db, |ans| core.handle_message_at(m.clone(), c, at(1), mono(1), ans));
    let o = offers(&es);
    assert_eq!(o[0].0, vec![a, b]);
    let (kind, info, mid) = ack_info(&o[0].1);
    assert_eq!(kind, AckKind::Read);
    assert_eq!(info, "c leu sua mensagem");
    assert_eq!(mid, Some("m9".into()));
    let es = core.send_to("a", ChatMessage::Error("x".into()));
    assert_eq!(offers(&es)[0].0, vec![a]);
    assert!(core.send_to("nobody", ChatMessage::Error("x".into())).is_empty());
}

#[test]
fn unknown_connection_join_does_nothing() {
    let mut core = plain_core();
    let mut db = FakeDb::default();
    let m = ChatMessage::JoinRoom { room: "#dev".into() };
    let es = drive(&mut db, |ans| core.handle_message_at(m.clone(), addr(24000), at(1), mono(1), ans));
    assert!(es.is_empty());
    core.state.add_client(addr(24000), "z".into());
    let es = drive(&mut db, |ans| core.handle_message_at(m.clone(), addr(24000), at(1), mono(1), ans));
    assert_eq!(ack_info(&sent_to(&es, addr(24000))[0]).1, "Entrou na sala #dev");
    assert!(counts(&es).is_empty());
    let l = ChatMessage::LeaveRoom { room: "#dev".into() };
    let es = drive(&mut db, |ans| core.handle_message_at(l.clone(), addr(24000), at(1), mono(1), ans));
    assert_eq!(ack_info(&sent_to(&es, addr(24000))[0]).1, "Saiu da sala #dev");
    assert!(core.state.room_exists("#dev"));
}

#[test]
fn send_private_message_now_delivers_online() {
    let mut core = plain_core();
    let (a, b) = (addr(10100), addr(10101));
    core.state.add_client(a, "alice".to_string());
    core.state.add_client(b, "bob".to_string());
    let mut db = FakeDb::default();
    let es = drive(&mut db, |ans| {
        core.send_private_message("alice".into(), "bob".into(), "yo".into(), at(1), Some("mid-9".into()), ans)
    });
    let deliver: Vec<&Effect> = es.iter().filter(|e| matches!(e, Effect::Deliver { .. })).collect();
    assert_eq!(deliver.len(), 1);
}

#[test]
fn admin_list_is_for_admins_only() {
    let (mut core, mut db, _t_root, t_bob) = admin_setup();
    let es = act(&mut core, &mut db, &t_bob, addr(22001), ChatAction::AdminList);
    let (kind, info, _) = ack_info(&sent_to(&es, addr(22001))[0]);
    assert_eq!(kind, AckKind::Failed);
    assert_eq!(info, "❌ Sem permissão (requer admin)");
}

#[test]
fn test_offline_message_delivery() {
    let mut core = db_core();
    let mut db = FakeDb::default();
    let (a, b) = (addr(23000), addr(23001));
    // 1. alice and bob register; bob leaves
    let alice_token = token_of(&register(&mut core, &mut db, "alice", "pass123", a, at(10)));
    register(&mut core, &mut db, "bob", "pass456", b, at(10));
    core.disconnect_user_at(b, at(11));
    // 2. alice sends two direct messages to bob, who is offline
    let mut stored: Vec<chat_serve::database::MessageRecord> = Vec::new();
    for (i, (text, id)) in [("Mensagem offline 1", "msg-001"), ("Mensagem offline 2", "msg-002")].iter().enumerate() {
        let dm = ChatMessage::Authenticated {
            token: alice_token.clone(),
            action: Box::new(ChatAction::Private {
                from: "alice".into(),
                to: "bob".into(),
                content: text.to_string(),
                timestamp: at(12),
                message_id: Some(id.to_string()),
            }),
        };
        let es = drive(&mut db, |ans| core.handle_message_at(dm.clone(), a, at(12), mono(12), ans));
        for e in &es {
            if let Effect::Store(DbCommand::InsertMessage { from_user, to_user, content, message_id, delivered: false, .. }) = e {
                stored.push(chat_serve::database::MessageRecord {
                    id: i as i64 + 1,
                    from_user: from_user.clone(),
                    to_user: to_user.clone(),
                    room: None,
                    content: content.clone(),
                    timestamp: "2024-01-01T00:00:12+00:00".into(),
                    message_id: message_id.clone(),
                    message_type: "private".into(),
                    delivered: false,
                });
            }
        }
    }
    assert_eq!(stored.len(), 2);
    // 3. bob logs in and gets both messages
    let es = drive(&mut db, |ans| core.handle_login_at("bob".into(), "pass456".into(), addr(23002), at(13), ans));
    assert!(es.iter().any(|e| matches!(e, Effect::FlushPending { user } if user == "bob")));
    let (notice, msgs) = chat_serve::replies::pending_delivery("bob", &stored, at(13));
    assert!(notice.is_some());
    let received: Vec<String> = msgs
        .iter()
        .filter_map(|(_, m)| match m {
            ChatMessage::Private { content, .. } => Some(content.clone()),
            _ => None,
        })
        .collect();
    assert_eq!(received.len(), 2, "Bob deveria receber 2 mensagens offline");
    assert!(received.contains(&"Mensagem offline 1".to_string()));
    assert!(received.contains(&"Mensagem offline 2".to_string()));
}

#[test]
fn failed_hand_over_and_full_inbox_carry_the_id() {
    let mut core = plain_core();
    let (a, b) = (addr(24000), addr(24001));
    core.state.add_client(a, "alice".to_string());
    core.state.add_client(b, "bob".to_string());
    let mut db = FakeDb::default();
    let es = drive(&mut db, |ans| {
        core.send_private_message_at("alice".into(), "bob".into(), "x".into(), at(1), Some("id-7".into()), mono(1), ans)
    });
    let on_err = es
        .iter()
        .find_map(|e| match e {
            Effect::Deliver { on_err, .. } => Some(on_err.clone()),
            _ => None,
        })
        .expect("a hand-over");
    assert_eq!(ack_info(&on_err), (AckKind::Failed, "Falha ao entregar DM para bob.".to_string(), Some("id-7".to_string())));
}
