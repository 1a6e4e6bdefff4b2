use chat_serve::accounts::{
    AuthError, Credentials, RegisterUser, Session, TokenCheck, User, UserRepository, ValidateToken,
};
use chat_serve::chat_core::ChatCore;
use chat_serve::database::{MessageRecord, MessageType};
use chat_serve::messaging::{
    ChatStatePresenceAdapter, DeliveryStatus, DirectMessage, MessageRepository, MessagingError, OfflineQueueRepository,
    PendingMessage, SendDirectMessage, UserPresenceService,
};
use chat_serve::metrics::{counter_of, gauge_of, inc_logins, inc_send_full, set_users_online, Metrics};
use chat_serve::model::{AckKind, ChatMessage, PeerAddr, SearchResult, Timestamp};
use chat_serve::replies::{history_reply, pending_delivery, search_reply};
use chat_serve::state::ChatState;
use chat_serve::text::{concat2, decimal_string, join_strings, str_contains};
use chat_serve::tui::{App, ColorConfig, ColorName, Message};

fn msg(dm: bool, room: Option<&str>, system: bool) -> Message {
    Message {
        from: "x".into(),
        content: "c".into(),
        timestamp: "00:00".into(),
        is_dm: dm,
        is_system: system,
        room: room.map(|r| r.to_string()),
    }
}

#[test]
fn metrics_count_and_set() {
    let mut m = Metrics::new().expect("metrics");
    assert_eq!(counter_of(&m.logins), 0);
    inc_logins(&mut m);
    inc_logins(&mut m);
    inc_send_full(&mut m);
    assert_eq!(counter_of(&m.logins), 2);
    assert_eq!(counter_of(&m.send_full), 1);
    assert_eq!(counter_of(&m.logouts), 0);
    set_users_online(&mut m, 7);
    assert_eq!(gauge_of(&m.users_online), 7);
    assert_eq!(gauge_of(&m.active_rooms), 0);
}

#[test]
fn message_type_names() {
    assert_eq!(MessageType::Private.as_str(), "private");
    assert_eq!(MessageType::Broadcast.as_str(), "broadcast");
    assert_eq!(MessageType::Room.as_str(), "room");
}

#[test]
fn text_helpers() {
    assert_eq!(decimal_string(0), "0");
    assert_eq!(decimal_string(1234567890), "1234567890");
    assert_eq!(concat2("ab", "cd"), "abcd");
    assert!(str_contains("Usuário 'x' não encontrado", "não encontrado"));
    assert!(!str_contains("abc", "abd"));
    assert!(str_contains("abc", ""));
    assert!(!str_contains("", "a"));
    assert_eq!(join_strings(&vec!["a".to_string(), "b".to_string(), "c".to_string()], ", "), "a, b, c");
    assert_eq!(join_strings(&vec![], ", "), "");
}

#[test]
fn history_and_search_replies() {
    let rec = MessageRecord {
        id: 7,
        from_user: "alice".into(),
        to_user: Some("bob".into()),
        room: None,
        content: "Hello Bob!".into(),
        timestamp: "2024-01-02T03:04:05+00:00".into(),
        message_id: Some("msg-123".into()),
        message_type: "private".into(),
        delivered: true,
    };
    match history_reply(Ok(vec![rec.clone()])) {
        ChatMessage::HistoryResponse { messages } => {
            assert_eq!(messages.len(), 1);
            assert_eq!(messages[0].id, 7);
            assert_eq!(messages[0].content, "Hello Bob!");
            assert_eq!(messages[0].message_id, Some("msg-123".to_string()));
        }
        other => panic!("unexpected {:?}", other),
    }
    match history_reply(Err("disk".into())) {
        ChatMessage::Error(e) => assert_eq!(e, "Falha ao buscar histórico: disk"),
        other => panic!("unexpected {:?}", other),
    }
    let hit = SearchResult {
        id: 1,
        from_user: "a".into(),
        to_user: None,
        room: None,
        content: "x".into(),
        timestamp: "t".into(),
        rank_bits: 0,
        snippet: "s".into(),
    };
    match search_reply(Ok(vec![hit.clone(), hit])) {
        ChatMessage::SearchResponse { messages, total } => {
            assert_eq!(messages.len(), 2);
            assert_eq!(total, 2);
        }
        other => panic!("unexpected {:?}", other),
    }
    match search_reply(Err("bad query".into())) {
        ChatMessage::Error(e) => assert_eq!(e, "Erro na busca: bad query"),
        other => panic!("unexpected {:?}", other),
    }
}

#[test]
fn waiting_messages_are_handed_out_in_order() {
    let now = Timestamp { secs: 99, nanos: 0 };
    let rec = |id: i64, ts: &str| MessageRecord {
        id,
        from_user: "alice".into(),
        to_user: Some("bob".into()),
        room: None,
        content: format!("Mensagem offline {}", id),
        timestamp: ts.into(),
        message_id: Some(format!("msg-00{}", id)),
        message_type: "private".into(),
        delivered: false,
    };
    let (notice, msgs) = pending_delivery("bob", &vec![rec(1, "2024-01-02T03:04:05Z"), rec(2, "not a date")], now);
    match notice {
        Some(ChatMessage::Ack { kind, info, .. }) => {
            assert_eq!(kind, AckKind::System);
            assert_eq!(info, "📬 Você tem 2 mensagens novas recebidas enquanto estava fora:");
        }
        other => panic!("unexpected {:?}", other),
    }
    assert_eq!(msgs.len(), 2);
    assert_eq!(msgs[0].0, 1);
    match &msgs[0].1 {
        ChatMessage::Private { from, to, content, timestamp, message_id } => {
            assert_eq!(from, "alice");
            assert_eq!(to, "bob");
            assert_eq!(content, "Mensagem offline 1");
            assert_eq!(*timestamp, Timestamp { secs: 1_704_164_645, nanos: 0 });
            assert_eq!(message_id, &Some("msg-001".to_string()));
        }
        other => panic!("unexpected {:?}", other),
    }
    match &msgs[1].1 {
        ChatMessage::Private { timestamp, .. } => assert_eq!(*timestamp, now),
        other => panic!("unexpected {:?}", other),
    }
    let (none, empty) = pending_delivery("bob", &vec![], now);
    assert!(none.is_none());
    assert!(empty.is_empty());
}

#[test]
fn colors_default_and_parse() {
    let c = ColorConfig::default();
    assert_eq!(c.messages.system, "Cyan");
    assert_eq!(c.messages.dm, "Magenta");
    assert_eq!(c.ui.tabs_inactive, "Gray");
    assert_eq!(c.users.typing, "Yellow");
    assert_eq!(ColorConfig::parse_color("Red"), ColorName::Red);
    assert_eq!(ColorConfig::parse_color("Gray"), ColorName::Gray);
    assert_eq!(ColorConfig::parse_color("purple"), ColorName::White);
}

#[test]
fn tui_tabs_and_filters() {
    let mut app = App::new("me".into(), ColorConfig::default());
    assert_eq!(app.tabs, vec!["Geral".to_string(), "DMs".to_string(), "Salas".to_string()]);
    app.add_message(msg(false, None, false));
    app.add_message(msg(true, None, false));
    app.add_message(msg(false, Some("#dev"), false));
    app.add_message(msg(false, None, true));
    assert_eq!(app.filtered_messages().len(), 2);
    assert_eq!(app.unread_counts.get(&1), Some(&1));
    assert_eq!(app.unread_counts.get(&2), Some(&1));
    assert_eq!(app.unread_counts.get(&0), None);
    assert!(app.show_notification);
    app.next_tab();
    assert_eq!(app.current_tab, 1);
    assert_eq!(app.unread_counts.get(&1), Some(&0));
    assert_eq!(app.filtered_messages().len(), 1);
    app.previous_tab();
    app.previous_tab();
    assert_eq!(app.current_tab, 2);
    app.next_tab();
    assert_eq!(app.current_tab, 0);
}

#[test]
fn tui_scrolling() {
    let mut app = App::new("me".into(), ColorConfig::default());
    for _ in 0..30 {
        app.add_message(msg(false, None, false));
    }
    assert_eq!(app.scroll_offset, 29);
    app.scroll_up();
    assert_eq!(app.scroll_offset, 28);
    assert!(!app.auto_scroll);
    app.page_up();
    assert_eq!(app.scroll_offset, 18);
    app.scroll_down();
    assert_eq!(app.scroll_offset, 19);
    assert!(!app.auto_scroll);
    app.page_down();
    assert_eq!(app.scroll_offset, 29);
    assert!(app.auto_scroll);
    app.page_up();
    app.page_up();
    app.page_up();
    app.page_up();
    assert_eq!(app.scroll_offset, 0);
    app.scroll_to_bottom();
    assert_eq!(app.scroll_offset, 29);
    app.set_notification("oi".into());
    assert_eq!(app.notification_message, "oi");
}

#[test]
fn tui_keeps_the_last_five_hundred_messages() {
    let mut app = App::new("me".into(), ColorConfig::default());
    for i in 0..501 {
        let mut m = msg(false, None, true);
        m.content = format!("{}", i);
        app.add_message(m);
    }
    assert_eq!(app.messages.len(), 500);
    assert_eq!(app.messages[0].content, "1");
    assert_eq!(app.scroll_offset, 499);
    assert!(!app.show_notification);
}

struct MemUsers {
    users: std::cell::RefCell<Vec<User>>,
}

impl UserRepository for MemUsers {
    fn save(&self, user: &User) -> Result<(), AuthError> {
        self.users.borrow_mut().push(user.clone());
        Ok(())
    }
    fn find_by_username(&self, username: &str) -> Result<Option<User>, AuthError> {
        Ok(self.users.borrow().iter().find(|u| u.username == username).cloned())
    }
    fn user_exists(&self, username: &str) -> Result<bool, AuthError> {
        Ok(self.users.borrow().iter().any(|u| u.username == username))
    }
    fn count(&self) -> Result<usize, AuthError> {
        Ok(self.users.borrow().len())
    }
}

#[test]
fn register_use_case() {
    let uc = RegisterUser::new(MemUsers { users: std::cell::RefCell::new(vec![]) });
    let u = uc.execute(Credentials::new("lara".into(), "secret1".into())).unwrap();
    assert_eq!(u.username, "lara");
    assert!(bcrypt::verify("secret1", &u.password_hash).unwrap());
    assert!(matches!(uc.execute(Credentials::new("lara".into(), "secret1".into())), Err(AuthError::UserAlreadyExists(n)) if n == "lara"));
    assert!(matches!(uc.execute(Credentials::new("lo".into(), "secret1".into())), Err(AuthError::InvalidUsername(_))));
    assert!(matches!(uc.execute(Credentials::new("lorena".into(), "12345".into())), Err(AuthError::WeakPassword)));
    assert_eq!(AuthError::UserNotFound("z".into()).message(), "Usuário não encontrado: z");
    assert_eq!(AuthError::InvalidToken.message(), "Token inválido ou expirado");
}

#[test]
fn sessions_know_when_they_expire() {
    let s = Session::new_at("t".into(), "u".into(), Timestamp { secs: 100, nanos: 0 });
    assert!(!s.is_expired_at(10, Timestamp { secs: 109, nanos: 999_999_999 }));
    assert!(s.is_expired_at(10, Timestamp { secs: 110, nanos: 0 }));
    // a clock that went back gives a negative age: not expired
    assert!(!s.is_expired_at(10, Timestamp { secs: 98, nanos: 0 }));
}

struct MemMessages {
    saved: std::cell::RefCell<Vec<String>>,
    queued: std::cell::RefCell<Vec<String>>,
}

impl MessageRepository for MemMessages {
    fn save(&self, m: &DirectMessage) -> Result<(), MessagingError> {
        self.saved.borrow_mut().push(m.message_id.clone());
        Ok(())
    }
    fn find_between_users(&self, _a: &str, _b: &str, _l: usize) -> Result<Vec<DirectMessage>, MessagingError> {
        Ok(vec![])
    }
    fn mark_delivered(&self, _id: &str) -> Result<(), MessagingError> {
        Ok(())
    }
    fn mark_read(&self, _id: &str) -> Result<(), MessagingError> {
        Ok(())
    }
}

impl OfflineQueueRepository for MemMessages {
    fn enqueue(&self, m: &DirectMessage) -> Result<(), MessagingError> {
        self.queued.borrow_mut().push(m.message_id.clone());
        Ok(())
    }
    fn get_pending(&self, _u: &str) -> Result<Vec<PendingMessage>, MessagingError> {
        Ok(vec![])
    }
    fn dequeue(&self, id: &str) -> Result<(), MessagingError> {
        self.queued.borrow_mut().retain(|q| q != id);
        Ok(())
    }
    fn cleanup_old(&self, _d: u32) -> Result<usize, MessagingError> {
        Ok(0)
    }
}

#[test]
fn direct_messages_are_delivered_or_queued() {
    let mut state = ChatState::new();
    state.add_client(PeerAddr::v4(127, 0, 0, 1, 1), "bob".into());
    let presence = ChatStatePresenceAdapter::new(&state);
    assert!(presence.is_online("bob"));
    assert!(!presence.is_online("carl"));
    let repo = MemMessages { saved: std::cell::RefCell::new(vec![]), queued: std::cell::RefCell::new(vec![]) };
    let queue = MemMessages { saved: std::cell::RefCell::new(vec![]), queued: std::cell::RefCell::new(vec![]) };
    let uc = SendDirectMessage::new(repo, queue, presence);
    let t = Timestamp { secs: 1, nanos: 0 };
    let m1 = DirectMessage::new("m1".into(), "a".into(), "bob".into(), "hi".into(), t);
    assert!(!m1.delivered && !m1.read);
    assert_eq!(uc.execute(m1).unwrap(), DeliveryStatus::Delivered);
    let m2 = DirectMessage::new("m2".into(), "a".into(), "carl".into(), "hi".into(), t);
    assert_eq!(uc.execute(m2).unwrap(), DeliveryStatus::Queued);
    assert_eq!(*uc.message_repo.saved.borrow(), vec!["m1".to_string(), "m2".to_string()]);
    assert_eq!(*uc.offline_queue.queued.borrow(), vec!["m2".to_string()]);

    let mut dm = DirectMessage::new("m3".into(), "a".into(), "b".into(), "x".into(), t);
    dm.mark_delivered();
    dm.mark_read();
    assert!(dm.delivered && dm.read);
    let mut p = PendingMessage::from_direct_message(&dm, 42);
    assert_eq!(p.id, 42);
    assert_eq!(p.attempts, 0);
    p.increment_attempts();
    assert_eq!(p.attempts, 1);
    assert_eq!(MessagingError::UserOffline("b".into()).message(), "Usuário offline: b");
}

#[test]
fn core_constructors_set_defaults() {
    let c = ChatCore::new(ChatState::new());
    assert_eq!(c.rate_limit, 10);
    assert_eq!(c.max_pending, 1000);
    assert!(!c.has_db);
    let c = c.with_limits(3, 4);
    assert_eq!((c.rate_limit, c.max_pending), (3, 4));
}

struct MemSessions {
    sessions: std::cell::RefCell<Vec<Session>>,
}

impl chat_serve::accounts::SessionRepository for MemSessions {
    fn save(&self, s: &Session) -> Result<(), AuthError> {
        self.sessions.borrow_mut().push(s.clone());
        Ok(())
    }
    fn find_by_token(&self, token: &str) -> Result<Option<Session>, AuthError> {
        Ok(self.sessions.borrow().iter().find(|s| s.token == token).cloned())
    }
    fn delete(&self, token: &str) -> Result<bool, AuthError> {
        let mut v = self.sessions.borrow_mut();
        let n = v.len();
        v.retain(|s| s.token != token);
        Ok(v.len() < n)
    }
    fn delete_by_username(&self, username: &str) -> Result<usize, AuthError> {
        let mut v = self.sessions.borrow_mut();
        let n = v.len();
        v.retain(|s| s.username != username);
        Ok(n - v.len())
    }
    fn count(&self) -> Result<usize, AuthError> {
        Ok(self.sessions.borrow().len())
    }
    fn cleanup_expired(&self, _ttl: u64) -> Result<usize, AuthError> {
        Ok(0)
    }
}

#[test]
fn logout_use_case_closes_sessions() {
    let repo = MemSessions {
        sessions: std::cell::RefCell::new(vec![
            Session::new_at("t1".into(), "ana".into(), Timestamp { secs: 1, nanos: 0 }),
            Session::new_at("t2".into(), "ana".into(), Timestamp { secs: 2, nanos: 0 }),
            Session::new_at("t3".into(), "bia".into(), Timestamp { secs: 3, nanos: 0 }),
        ]),
    };
    let uc = chat_serve::accounts::LogoutUser::new(repo);
    assert_eq!(uc.execute_by_token("t3").unwrap(), true);
    assert_eq!(uc.execute_by_token("t3").unwrap(), false);
    assert_eq!(uc.execute_by_username("ana").unwrap(), 2);
}

#[test]
fn fresh_session_is_not_expired() {
    let s = Session::new("tok".into(), "ana".into());
    assert!(!s.is_expired(3600));
    assert!(s.is_expired(0));
}

#[test]
fn make_ack_builds_an_ack() {
    match chat_serve::model::make_ack(AckKind::Read, "lida".into(), Some("m1".into())) {
        ChatMessage::Ack { kind, info, message_id } => {
            assert_eq!(kind, AckKind::Read);
            assert_eq!(info, "lida");
            assert_eq!(message_id.as_deref(), Some("m1"));
        }
        other => panic!("unexpected {:?}", other),
    }
}

#[test]
fn pending_gauge_is_set() {
    let mut m = Metrics::new().expect("metrics");
    chat_serve::metrics::set_pending_messages(&mut m, 7);
    assert_eq!(gauge_of(&m.pending_messages), 7);
}

#[test]
fn core_with_auth_has_default_limits() {
    let core = ChatCore::new_with_auth(ChatState::new(), chat_serve::auth::AuthManager::new(3600, 4));
    assert!(core.auth.is_some());
    assert!(!core.has_db);
    assert_eq!(core.rate_limit, 10);
    assert_eq!(core.max_pending, 1000);
}

#[test]
fn register_user_now_connects_the_user() {
    let mut core = ChatCore::new(ChatState::new());
    let es = core.register_user("dora".into(), PeerAddr::v4(127, 0, 0, 1, 4000));
    assert!(!es.is_empty());
    assert!(core.state.has_user("dora"));
}

#[test]
fn metrics_endpoint_access() {
    assert!(chat_serve::metrics::scrape_allowed(None, None));
    assert!(chat_serve::metrics::scrape_allowed(Some("s3cr3t"), Some("Bearer s3cr3t")));
    assert!(!chat_serve::metrics::scrape_allowed(Some("s3cr3t"), Some("Bearer nope")));
    assert!(!chat_serve::metrics::scrape_allowed(Some("s3cr3t"), Some("s3cr3t")));
    assert!(!chat_serve::metrics::scrape_allowed(Some("s3cr3t"), None));
    let mut m = Metrics::new().expect("metrics");
    chat_serve::metrics::inc_metrics_unauthorized(&mut m);
    assert_eq!(counter_of(&m.metrics_unauthorized), 1);
}

#[test]
fn delivered_offline_message_leaves_the_queue() {
    let queue = MemMessages {
        saved: std::cell::RefCell::new(vec![]),
        queued: std::cell::RefCell::new(vec!["m1".into(), "m2".into()]),
    };
    let uc = chat_serve::messaging::DeliverPendingMessages::new(queue);
    assert!(uc.execute("bob").unwrap().is_empty());
    uc.acknowledge("m1").unwrap();
    assert_eq!(*uc.offline_queue.queued.borrow(), vec!["m2".to_string()]);
}

#[test]
fn session_metrics() {
    let mut m = Metrics::new().expect("metrics");
    chat_serve::metrics::inc_expired_sessions_by(&mut m, 3);
    chat_serve::metrics::inc_expired_sessions_by(&mut m, 2);
    assert_eq!(counter_of(&m.expired_sessions), 5);
    chat_serve::metrics::set_active_sessions(&mut m, 4);
    assert_eq!(gauge_of(&m.active_sessions), 4);
}

#[test]
fn registration_steps() {
    let name = "lara".to_string();
    assert!(RegisterUser::<MemUsers>::after_lookup(&name, Ok(false)).is_ok());
    assert!(matches!(RegisterUser::<MemUsers>::after_lookup(&name, Ok(true)), Err(AuthError::UserAlreadyExists(n)) if n == "lara"));
    assert!(matches!(
        RegisterUser::<MemUsers>::after_lookup(&name, Err(AuthError::PersistenceError("db".into()))),
        Err(AuthError::PersistenceError(m)) if m == "db"
    ));
    let u = RegisterUser::<MemUsers>::account(&name, Ok("h".into())).unwrap();
    assert_eq!(u.username, "lara");
    assert_eq!(u.password_hash, "h");
    assert!(matches!(
        RegisterUser::<MemUsers>::account(&name, Err("cost".into())),
        Err(AuthError::InternalError(m)) if m == "Falha ao hash senha: cost"
    ));
}

#[test]
fn token_verdicts() {
    let v = |c: TokenCheck, d: Option<Result<bool, AuthError>>| ValidateToken::<MemSessions>::verdict(c, d);
    assert_eq!(v(TokenCheck::Valid("ana".into()), None).ok(), Some("ana".to_string()));
    assert!(matches!(v(TokenCheck::Unknown, None), Err(AuthError::InvalidToken)));
    assert!(matches!(v(TokenCheck::Expired, Some(Ok(true))), Err(AuthError::InvalidToken)));
    assert!(matches!(
        v(TokenCheck::Expired, Some(Err(AuthError::PersistenceError("x".into())))),
        Err(AuthError::PersistenceError(_))
    ));
    assert!(matches!(v(TokenCheck::Failed(AuthError::WeakPassword), None), Err(AuthError::WeakPassword)));
}

#[test]
fn delivery_status_rules() {
    let st = |o: bool, q: Option<Result<(), MessagingError>>| {
        SendDirectMessage::<MemMessages, MemMessages, ChatStatePresenceAdapter<'static>>::status(o, q)
    };
    assert_eq!(st(true, None).unwrap(), DeliveryStatus::Delivered);
    assert_eq!(st(false, Some(Ok(()))).unwrap(), DeliveryStatus::Queued);
    assert!(matches!(st(false, Some(Err(MessagingError::DeliveryError("q".into())))), Err(MessagingError::DeliveryError(_))));
}

#[test]
fn metrics_are_always_made() {
    assert!(Metrics::new().is_some());
}

#[test]
fn session_records_convert() {
    let s = Session::new_at("t".into(), "ana".into(), Timestamp { secs: 5, nanos: 1 });
    let r = chat_serve::collections::SessionRecord::from_session(&s);
    assert_eq!(r.username, "ana");
    let back = r.to_session("t".into());
    assert_eq!(back.token, "t");
    assert_eq!(back.username, "ana");
    assert_eq!(back.created_at, Timestamp { secs: 5, nanos: 1 });
}

#[test]
fn session_stores_pick_what_to_close() {
    let at = |secs: i64| Timestamp { secs, nanos: 0 };
    let all = vec![
        Session::new_at("t1".into(), "ana".into(), at(0)),
        Session::new_at("t2".into(), "bia".into(), at(50)),
        Session::new_at("t3".into(), "ana".into(), at(90)),
    ];
    assert_eq!(chat_serve::accounts::sessions_of_user(&all, "ana"), vec!["t1".to_string(), "t3".to_string()]);
    assert!(chat_serve::accounts::sessions_of_user(&all, "caio").is_empty());
    assert_eq!(chat_serve::accounts::expired_sessions_at(&all, 60, at(100)), vec!["t1".to_string()]);
    assert_eq!(chat_serve::accounts::expired_sessions_at(&all, 50, at(100)), vec!["t1".to_string(), "t2".to_string()]);
    // A session dated after `now` has a negative age: it has not expired.
    assert!(chat_serve::accounts::expired_sessions_at(&all, 60, at(10)).is_empty());
}

#[test]
fn metrics_register_once() {
    let m = Metrics::new().unwrap();
    let reg = prometheus::Registry::new();
    assert!(m.register_all(&reg).is_ok());
    assert_eq!(reg.gather().len(), 19);
    assert!(m.register_all(&reg).is_err());
}

#[test]
fn user_store_insert_errors_read_as_account_errors() {
    let taken = chat_serve::accounts::sqlite_insert_error("ana", "UNIQUE constraint failed: users.username");
    assert!(matches!(taken, AuthError::UserAlreadyExists(ref u) if u == "ana"));
    let other = chat_serve::accounts::sqlite_insert_error("ana", "disk I/O error");
    assert_eq!(other.message(), "Erro de persistência: Falha ao salvar usuário: disk I/O error");
    let taken = chat_serve::accounts::database_insert_error("bia", "usuário já existe");
    assert!(matches!(taken, AuthError::UserAlreadyExists(ref u) if u == "bia"));
    let other = chat_serve::accounts::database_insert_error("bia", "database is locked");
    assert!(matches!(other, AuthError::PersistenceError(ref m) if m == "database is locked"));
}
