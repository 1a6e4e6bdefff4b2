use chat_serve::client::{
    ack_room, client_request, client_request_at, export_selection, parse_command, read_receipt, remember,
    shown_message, suggests_register, token_rejected, typing_should_stop, ClientCommand, ExportFilter, LineClient,
    PendingTable,
    HISTORY_KEEP,
};
use chat_serve::model::{AckKind, ChatAction, ChatMessage, Timestamp};
use chat_serve::text::{find_char, find_str, str_starts_with};
use chat_serve::tui::{message_line, App, ColorConfig, ColorName, Message};

fn at(secs: i64) -> Timestamp {
    Timestamp { secs, nanos: 0 }
}

fn text(from: &str, content: &str) -> ChatMessage {
    ChatMessage::Text { from: from.into(), content: content.into(), timestamp: at(1) }
}

fn dm(from: &str, content: &str, id: Option<&str>) -> ChatMessage {
    ChatMessage::Private {
        from: from.into(),
        to: "me".into(),
        content: content.into(),
        timestamp: at(1),
        message_id: id.map(|s| s.to_string()),
    }
}

fn app() -> App {
    App::new("alice".to_string(), ColorConfig::default())
}

#[test]
fn parse_private_message() {
    match parse_command("  /msg bob hello there  ") {
        ClientCommand::Private { to, content } => {
            assert_eq!(to, "bob");
            assert_eq!(content, "hello there");
        }
        other => panic!("unexpected {:?}", other),
    }
}

#[test]
fn parse_private_without_text_is_usage() {
    assert!(matches!(parse_command("/msg bob"), ClientCommand::PrivateUsage));
}

#[test]
fn parse_list_register_and_empty() {
    assert!(matches!(parse_command("/list"), ClientCommand::List));
    assert!(matches!(parse_command("/register\n"), ClientCommand::Register));
    assert!(matches!(parse_command("   \n"), ClientCommand::Empty));
}

#[test]
fn parse_history_with_user_and_limit() {
    match parse_command("/history alice 20") {
        ClientCommand::History { to, limit } => {
            assert_eq!(to.as_deref(), Some("alice"));
            assert_eq!(limit, Some(20));
        }
        other => panic!("unexpected {:?}", other),
    }
    match parse_command("/history") {
        ClientCommand::History { to, limit } => {
            assert_eq!(to, None);
            assert_eq!(limit, None);
        }
        other => panic!("unexpected {:?}", other),
    }
    match parse_command("/history bob many") {
        ClientCommand::History { to, limit } => {
            assert_eq!(to.as_deref(), Some("bob"));
            assert_eq!(limit, None);
        }
        other => panic!("unexpected {:?}", other),
    }
}

#[test]
fn parse_export_forms() {
    match parse_command("/export --dm out.json") {
        ClientCommand::Export { filter, path } => {
            assert_eq!(filter, ExportFilter::Direct);
            assert_eq!(path, "out.json");
        }
        other => panic!("unexpected {:?}", other),
    }
    match parse_command("/export --text t.json") {
        ClientCommand::Export { filter, .. } => assert_eq!(filter, ExportFilter::Text),
        other => panic!("unexpected {:?}", other),
    }
    match parse_command("/export all.json") {
        ClientCommand::Export { filter, path } => {
            assert_eq!(filter, ExportFilter::All);
            assert_eq!(path, "all.json");
        }
        other => panic!("unexpected {:?}", other),
    }
    assert!(matches!(parse_command("/export"), ClientCommand::ExportUsage));
    assert!(matches!(parse_command("/export --zip a.json"), ClientCommand::ExportUsage));
}

#[test]
fn parse_other_text_is_broadcast() {
    match parse_command(" hello all ") {
        ClientCommand::Text { content } => assert_eq!(content, "hello all"),
        other => panic!("unexpected {:?}", other),
    }
}

#[test]
fn request_for_dm_with_and_without_session() {
    let cmd = parse_command("/msg bob hi");
    let token = Some("tok".to_string());
    match client_request_at(&cmd, "alice", "pw", &token, at(7), "id-1") {
        Some(ChatMessage::Authenticated { token, action }) => {
            assert_eq!(token, "tok");
            match *action {
                ChatAction::Private { from, to, content, timestamp, message_id } => {
                    assert_eq!(from, "alice");
                    assert_eq!(to, "bob");
                    assert_eq!(content, "hi");
                    assert_eq!(timestamp, at(7));
                    assert_eq!(message_id.as_deref(), Some("id-1"));
                }
                other => panic!("unexpected {:?}", other),
            }
        }
        other => panic!("unexpected {:?}", other),
    }
    match client_request_at(&cmd, "alice", "pw", &None, at(7), "id-2") {
        Some(ChatMessage::Private { from, message_id, .. }) => {
            assert_eq!(from, "alice");
            assert_eq!(message_id.as_deref(), Some("id-2"));
        }
        other => panic!("unexpected {:?}", other),
    }
}

#[test]
fn history_needs_a_session() {
    let cmd = parse_command("/history bob 5");
    assert!(client_request_at(&cmd, "alice", "pw", &None, at(1), "x").is_none());
    match client_request_at(&cmd, "alice", "pw", &Some("t".into()), at(1), "x") {
        Some(ChatMessage::Authenticated { action, .. }) => match *action {
            ChatAction::HistoryRequest { from, to, limit } => {
                assert_eq!(from, "alice");
                assert_eq!(to.as_deref(), Some("bob"));
                assert_eq!(limit, Some(5));
            }
            other => panic!("unexpected {:?}", other),
        },
        other => panic!("unexpected {:?}", other),
    }
}

#[test]
fn register_sends_the_login_credentials() {
    match client_request_at(&ClientCommand::Register, "alice", "secret", &None, at(1), "x") {
        Some(ChatMessage::Register { username, password }) => {
            assert_eq!(username, "alice");
            assert_eq!(password, "secret");
        }
        other => panic!("unexpected {:?}", other),
    }
    assert!(client_request_at(&ClientCommand::Empty, "a", "b", &None, at(1), "x").is_none());
    assert!(client_request_at(&ClientCommand::ExportUsage, "a", "b", &None, at(1), "x").is_none());
}

#[test]
fn fresh_request_has_a_fresh_id() {
    let cmd = parse_command("/msg bob hi");
    match client_request(&cmd, "alice", "pw", &None) {
        Some(ChatMessage::Private { message_id: Some(id), .. }) => assert_eq!(id.len(), 36),
        other => panic!("unexpected {:?}", other),
    }
}

#[test]
fn pending_dm_is_resent_then_given_up() {
    let mut t = PendingTable::new();
    t.insert("a".into(), dm("me", "one", Some("a")), 0);
    t.insert("b".into(), dm("me", "two", Some("b")), 2_000);
    let (again, failed) = t.retry_round(3_000, 3_000, 3);
    assert_eq!(again, vec!["a".to_string()]);
    assert!(failed.is_empty());
    assert_eq!(t.entries[0].attempts, 2);
    assert_eq!(t.entries[0].last_sent_ms, 3_000);
    assert_eq!(t.entries[1].attempts, 1);
    let (again, _) = t.retry_round(6_000, 3_000, 3);
    assert_eq!(again, vec!["a".to_string(), "b".to_string()]);
    let (again, failed) = t.retry_round(9_000, 3_000, 3);
    assert_eq!(again, vec!["b".to_string()]);
    assert_eq!(failed.len(), 1);
    assert_eq!(failed[0].id, "a");
    assert_eq!(failed[0].attempts, 3);
    assert_eq!(t.entries.len(), 1);
}

#[test]
fn confirmed_dm_is_not_resent() {
    let mut t = PendingTable::new();
    t.insert("a".into(), dm("me", "one", Some("a")), 0);
    assert!(t.message_of("a").is_some());
    assert!(t.confirm("a"));
    assert!(!t.confirm("a"));
    assert!(t.message_of("a").is_none());
    let (again, failed) = t.retry_round(10_000, 3_000, 3);
    assert!(again.is_empty());
    assert!(failed.is_empty());
}

#[test]
fn inserting_same_id_replaces() {
    let mut t = PendingTable::new();
    t.insert("a".into(), dm("me", "one", Some("a")), 0);
    t.insert("a".into(), dm("me", "two", Some("a")), 5);
    assert_eq!(t.entries.len(), 1);
    assert_eq!(t.entries[0].last_sent_ms, 5);
    match t.message_of("a") {
        Some(ChatMessage::Private { content, .. }) => assert_eq!(content, "two"),
        other => panic!("unexpected {:?}", other),
    }
}

#[test]
fn token_rejection_rules() {
    assert!(token_rejected(AckKind::Failed, "Token inválido"));
    assert!(!token_rejected(AckKind::System, "token inválido"));
    assert!(!token_rejected(AckKind::System, "Sessão EXPIRADA"));
    assert!(token_rejected(AckKind::Failed, "Sessão EXPIRADA"));
    assert!(token_rejected(AckKind::Failed, "Token inválido ou expirado"));
    assert!(!token_rejected(AckKind::Failed, "Limite de mensagens excedido"));
}

#[test]
fn register_suggestion() {
    assert!(suggests_register("Usuário não existe"));
    assert!(suggests_register("usuário não encontrado"));
    assert!(!suggests_register("Senha incorreta"));
}

#[test]
fn history_keeps_last_messages() {
    let mut h: Vec<ChatMessage> = Vec::new();
    for i in 0..(HISTORY_KEEP + 5) {
        remember(&mut h, text("a", &i.to_string()));
    }
    assert_eq!(h.len(), HISTORY_KEEP);
    match &h[0] {
        ChatMessage::Text { content, .. } => assert_eq!(content, "5"),
        other => panic!("unexpected {:?}", other),
    }
}

#[test]
fn export_filters() {
    let h = vec![text("a", "1"), dm("b", "2", None), text("c", "3")];
    assert_eq!(export_selection(&h, ExportFilter::All).len(), 3);
    assert_eq!(export_selection(&h, ExportFilter::Direct).len(), 1);
    let t = export_selection(&h, ExportFilter::Text);
    assert_eq!(t.len(), 2);
    assert!(matches!(t[1], ChatMessage::Text { content, .. } if content == "3"));
}

#[test]
fn typing_debounce() {
    assert!(typing_should_stop(true, Some(1_000), 1_500));
    assert!(!typing_should_stop(true, Some(1_000), 1_499));
    assert!(!typing_should_stop(false, Some(0), 10_000));
    assert!(!typing_should_stop(true, None, 10_000));
}

#[test]
fn submit_private_join_leave_search() {
    let mut a = app();
    let tok = Some("tok".to_string());
    a.input = "/msg bob hello you".into();
    match a.submit_input(&tok, at(3), "m1") {
        Some(ChatMessage::Authenticated { token, action }) => {
            assert_eq!(token, "tok");
            assert!(matches!(*action, ChatAction::Private { ref to, ref content, .. } if to == "bob" && content == "hello you"));
        }
        other => panic!("unexpected {:?}", other),
    }
    assert!(a.input.is_empty());

    a.input = "/join  sala1 ".into();
    match a.submit_input(&tok, at(3), "m2") {
        Some(ChatMessage::Authenticated { action, .. }) => {
            assert!(matches!(*action, ChatAction::JoinRoom { ref room } if room == "sala1"))
        }
        other => panic!("unexpected {:?}", other),
    }
    assert_eq!(a.current_room.as_deref(), Some("sala1"));

    a.input = "/leave".into();
    match a.submit_input(&tok, at(3), "m3") {
        Some(ChatMessage::Authenticated { action, .. }) => {
            assert!(matches!(*action, ChatAction::LeaveRoom { ref room } if room == "sala1"))
        }
        other => panic!("unexpected {:?}", other),
    }
    assert_eq!(a.current_room, None);

    a.input = "/search rust  from: bob ".into();
    match a.submit_input(&tok, at(3), "m4") {
        Some(ChatMessage::Authenticated { action, .. }) => match *action {
            ChatAction::SearchMessages { query, limit, user_filter } => {
                assert_eq!(query, "rust");
                assert_eq!(limit, Some(50));
                assert_eq!(user_filter.as_deref(), Some("bob"));
            }
            other => panic!("unexpected {:?}", other),
        },
        other => panic!("unexpected {:?}", other),
    }
}

#[test]
fn submit_usage_notices() {
    let mut a = app();
    let tok = Some("tok".to_string());
    a.input = "/leave".into();
    assert!(a.submit_input(&tok, at(3), "x").is_none());
    assert_eq!(a.notification_message, "Você não está em nenhuma sala");
    a.input = "/join   ".into();
    assert!(a.submit_input(&tok, at(3), "x").is_none());
    assert_eq!(a.notification_message, "Uso: /join <sala>");
    a.input = "/msg bob".into();
    assert!(a.submit_input(&tok, at(3), "x").is_none());
    assert_eq!(a.notification_message, "Uso: /msg <usuario> <mensagem>");
    a.input = "/search  from:bob".into();
    assert!(a.submit_input(&tok, at(3), "x").is_none());
    assert_eq!(a.notification_message, "Uso: /search <query> [from:user]");
}

#[test]
fn submit_without_session_sends_nothing() {
    let mut a = app();
    a.input = "hello".into();
    assert!(a.submit_input(&None, at(3), "x").is_none());
    assert!(a.input.is_empty());
    a.input = "hello".into();
    match a.submit_input(&Some("t".into()), at(3), "x") {
        Some(ChatMessage::Authenticated { action, .. }) => {
            assert!(matches!(*action, ChatAction::Text { ref from, ref content, .. } if from == "alice" && content == "hello"))
        }
        other => panic!("unexpected {:?}", other),
    }
}

#[test]
fn shown_messages_and_rooms() {
    let m = shown_message(&text("bob", "hi"), "10:00").expect("shown");
    assert_eq!(m.from, "bob");
    assert!(!m.is_dm);
    let m = shown_message(&dm("bob", "psst", None), "10:01").expect("shown");
    assert!(m.is_dm);
    let ack = ChatMessage::Ack { kind: AckKind::System, info: "Entrou na sala geral".into(), message_id: None };
    let m = shown_message(&ack, "10:02").expect("shown");
    assert_eq!(m.from, "Sistema");
    assert!(m.is_system);
    assert_eq!(m.room.as_deref(), Some("geral"));
    assert!(shown_message(&ChatMessage::ListResponse { users: vec![] }, "x").is_none());
    assert_eq!(ack_room("Saiu da sala dev"), Some("dev".to_string()));
    assert_eq!(ack_room("Bem-vindo"), None);
}

#[test]
fn read_receipt_for_dm_with_id() {
    match read_receipt(&dm("bob", "x", Some("id9")), "alice") {
        Some(ChatMessage::ReadReceipt { message_id, reader }) => {
            assert_eq!(message_id, "id9");
            assert_eq!(reader, "alice");
        }
        other => panic!("unexpected {:?}", other),
    }
    assert!(read_receipt(&dm("bob", "x", None), "alice").is_none());
    assert!(read_receipt(&text("bob", "x"), "alice").is_none());
}

#[test]
fn typing_users_come_and_go() {
    let mut a = app();
    a.typing_seen("bob".into(), 1_000);
    a.typing_seen("carol".into(), 1_500);
    a.typing_seen("bob".into(), 2_000);
    assert_eq!(a.typing_users.len(), 2);
    assert_eq!(a.typing_users[0], ("bob".to_string(), 2_000));
    a.expire_typing(3_600);
    assert_eq!(a.typing_users, vec![("bob".to_string(), 2_000)]);
    a.typing_stopped("bob");
    assert!(a.typing_users.is_empty());
}

#[test]
fn text_search_helpers() {
    assert_eq!(find_char("a b c", ' '), Some(1));
    assert_eq!(find_char("abc", ' '), None);
    assert_eq!(find_str("x from:y from:z", "from:"), Some(2));
    assert_eq!(find_str("nothing", "from:"), None);
    assert!(str_starts_with("/msg bob", "/msg "));
    assert!(!str_starts_with("/ms", "/msg "));
}

#[test]
fn screen_texts() {
    let mut a = app();
    assert_eq!(a.tab_title(0), "Geral");
    a.current_tab = 0;
    a.add_message(Message {
        from: "bob".into(),
        content: "oi".into(),
        timestamp: "10:00".into(),
        is_dm: true,
        is_system: false,
        room: None,
    });
    assert_eq!(a.tab_title(1), "DMs (1)");
    let dm_line = Message {
        from: "bob".into(),
        content: "oi".into(),
        timestamp: "10:00".into(),
        is_dm: true,
        is_system: false,
        room: None,
    };
    assert_eq!(message_line(&dm_line), "[10:00] 🤫 DM bob: oi");
    assert_eq!(a.message_color(&dm_line), ColorName::Magenta);
    let room_line = Message { is_dm: false, room: Some("dev".into()), ..dm_line.clone() };
    assert_eq!(message_line(&room_line), "[10:00] #dev bob: oi");
    assert_eq!(a.message_color(&room_line), ColorName::Yellow);
    let plain = Message { is_dm: false, room: None, ..dm_line.clone() };
    assert_eq!(message_line(&plain), "[10:00] bob: oi");
    a.users_online = vec!["bob".into(), "carol".into()];
    a.typing_seen("bob".into(), 5);
    assert_eq!(a.user_line("bob"), ("• bob ⌨️".to_string(), ColorName::Yellow));
    assert_eq!(a.user_line("carol"), ("• carol".to_string(), ColorName::Green));
    assert_eq!(a.users_header(), "Online (2)");
    assert_eq!(a.messages_title(), "Mensagens - 📍 Auto-scroll");
    // raised by the direct message, but with no text it is not shown
    assert!(a.show_notification);
    assert!(!a.shows_notification());
    a.set_notification("aviso".into());
    assert!(a.shows_notification());
}

#[test]
fn plain_text_goes_to_the_current_room() {
    let mut a = app();
    let tok = Some("tok".to_string());
    a.input = "/join dev".into();
    assert!(a.submit_input(&tok, at(3), "j").is_some());
    a.input = "olá sala".into();
    match a.submit_input(&tok, at(4), "x") {
        Some(ChatMessage::Authenticated { action, .. }) => match *action {
            ChatAction::RoomText { from, room, content, timestamp } => {
                assert_eq!(from, "alice");
                assert_eq!(room, "dev");
                assert_eq!(content, "olá sala");
                assert_eq!(timestamp, at(4));
            }
            other => panic!("unexpected {:?}", other),
        },
        other => panic!("unexpected {:?}", other),
    }
}

#[test]
fn line_client_follows_the_server() {
    let mut c = LineClient::new("alice".into());
    // a direct message before any session gets no receipt
    assert!(c.on_server_message(dm("bob", "oi", Some("d1"))).is_none());
    let tok = ChatMessage::SessionToken { token: "tok".into(), username: "alice".into() };
    assert!(c.on_server_message(tok).is_none());
    assert_eq!(c.session_token.as_deref(), Some("tok"));
    match c.on_server_message(dm("bob", "oi", Some("d2"))) {
        Some(ChatMessage::ReadReceipt { message_id, reader }) => {
            assert_eq!(message_id, "d2");
            assert_eq!(reader, "alice");
        }
        other => panic!("unexpected {:?}", other),
    }
    c.pending.insert("m1".into(), dm("alice", "hi", Some("m1")), 0);
    let ack = ChatMessage::Ack { kind: AckKind::Delivered, info: "DM para bob entregue.".into(), message_id: Some("m1".into()) };
    assert!(c.on_server_message(ack).is_none());
    assert!(c.pending.entries.is_empty());
    assert_eq!(c.session_token.as_deref(), Some("tok"));
    let notice = ChatMessage::Ack { kind: AckKind::System, info: "Sessão expirada?".into(), message_id: None };
    c.on_server_message(notice);
    assert_eq!(c.session_token.as_deref(), Some("tok"));
    let bad = ChatMessage::Ack { kind: AckKind::Failed, info: "Token inválido ou expirado".into(), message_id: None };
    c.on_server_message(bad);
    assert_eq!(c.session_token, None);
    assert_eq!(c.history.len(), 6);
}

#[test]
fn history_limit_reads_as_usize() {
    let limit = |line: &str| match parse_command(line) {
        ClientCommand::History { limit, .. } => limit,
        other => panic!("unexpected {:?}", other),
    };
    assert_eq!(limit("/history bob +7"), Some(7));
    assert_eq!(limit("/history bob 007"), Some(7));
    assert_eq!(limit("/history bob -7"), None);
    assert_eq!(limit("/history bob +"), None);
    assert_eq!(limit("/history bob 99999999999999999999999"), None);
    assert_eq!(limit("/history bob 18446744073709551615"), Some(usize::MAX));
    assert_eq!(limit("/history bob 18446744073709551616"), None);
}
