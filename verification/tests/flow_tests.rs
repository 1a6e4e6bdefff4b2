use chat_serve::chat_core::ChatCore;
use chat_serve::database::DbAnswers;
use chat_serve::effects::Effect;
use chat_serve::model::{AckKind, ChatMessage, PeerAddr, Timestamp};
use chat_serve::state::ChatState;

fn addr(port: u16) -> PeerAddr {
    PeerAddr::v4(127, 0, 0, 1, port)
}

fn at(secs: i64) -> Timestamp {
    Timestamp { secs, nanos: 0 }
}

/// A server with the fixed rooms, without accounts or database.
fn server() -> ChatCore {
    let mut state = ChatState::new();
    state.init_fixed_rooms();
    ChatCore::new(state)
}

/// What the server does with `msg` from `from` at `now`; without a database
/// it never asks anything.
fn send(core: &mut ChatCore, from: PeerAddr, msg: ChatMessage, now: Timestamp) -> Vec<Effect> {
    let mono_ns = now.secs as u64 * 1_000_000_000;
    match core.handle_message_at(msg, from, now, mono_ns, &DbAnswers::new()) {
        Ok(es) => es,
        Err(q) => panic!("unexpected question {:?}", q),
    }
}

/// A login as the connection handler passes it on.
fn login(core: &mut ChatCore, from: PeerAddr, name: &str) -> Vec<Effect> {
    match core.handle_login_at(name.into(), "test".into(), from, at(1), &DbAnswers::new()) {
        Ok(es) => es,
        Err(q) => panic!("unexpected question {:?}", q),
    }
}

/// What reaches `to`, whichever way it is sent.
fn received(es: &[Effect], to: PeerAddr) -> Vec<ChatMessage> {
    let mut out = Vec::new();
    for e in es {
        match e {
            Effect::Send { to: t, msg } if *t == to => out.push(msg.clone()),
            Effect::Offer { to: ts, msg, .. } if ts.contains(&to) => out.push(msg.clone()),
            Effect::Deliver { to: t, msg, .. } if *t == to => out.push(msg.clone()),
            Effect::Deliver { sender: Some(s), on_ok, .. } if *s == to => out.push(on_ok.clone()),
            _ => {}
        }
    }
    out
}

/// Leaves out the system notices.
fn not_system(ms: Vec<ChatMessage>) -> Vec<ChatMessage> {
    ms.into_iter().filter(|m| !matches!(m, ChatMessage::Ack { kind: AckKind::System, .. })).collect()
}

#[test]
fn test_login_and_broadcast() {
    let mut core = server();
    let (a, b) = (addr(1), addr(2));
    login(&mut core, a, "alice");
    login(&mut core, b, "bob");
    let es = send(
        &mut core,
        a,
        ChatMessage::Text { from: "alice".into(), content: "Hello everyone!".into(), timestamp: at(2) },
        at(2),
    );
    let got = not_system(received(&es, b));
    match &got[0] {
        ChatMessage::Text { from, content, .. } => {
            assert_eq!(from, "alice");
            assert_eq!(content, "Hello everyone!");
        }
        other => panic!("Tipo de mensagem incorreto: {:?}", other),
    }
}

#[test]
fn test_dm_with_ack() {
    let mut core = server();
    let (a, b) = (addr(1), addr(2));
    login(&mut core, a, "alice");
    login(&mut core, b, "bob");
    let message_id = "2b7e1516-28ae-4d2a-abf7-158809cf4f3c".to_string();
    let dm = ChatMessage::Private {
        from: "alice".into(),
        to: "bob".into(),
        content: "Secret message".into(),
        timestamp: at(2),
        message_id: Some(message_id.clone()),
    };
    let es = send(&mut core, a, dm, at(2));
    let bob = not_system(received(&es, b));
    match &bob[0] {
        ChatMessage::Private { from, to, content, .. } => {
            assert_eq!(from, "alice");
            assert_eq!(to, "bob");
            assert_eq!(content, "Secret message");
        }
        other => panic!("Bob recebeu mensagem de tipo incorreto: {:?}", other),
    }
    let alice = not_system(received(&es, a));
    match &alice[0] {
        ChatMessage::Ack { kind, message_id: ack_id, .. } => {
            assert_eq!(*kind, AckKind::Delivered);
            assert_eq!(ack_id, &Some(message_id));
        }
        other => panic!("Alice recebeu mensagem de tipo incorreto: {:?}", other),
    }
}

#[test]
fn test_list_users() {
    let mut core = server();
    let (a, b) = (addr(1), addr(2));
    login(&mut core, a, "alice");
    login(&mut core, b, "bob");
    let es = send(&mut core, a, ChatMessage::ListRequest { from: "alice".into() }, at(2));
    match &not_system(received(&es, a))[0] {
        ChatMessage::ListResponse { users } => {
            assert!(!users.is_empty());
            assert!(users.contains(&"alice".to_string()), "Alice não está na lista");
            assert!(users.contains(&"bob".to_string()));
        }
        other => panic!("Tipo de mensagem incorreto: {:?}", other),
    }
}

#[test]
fn test_room_join_and_text() {
    let mut core = server();
    let (a, b) = (addr(1), addr(2));
    login(&mut core, a, "alice");
    login(&mut core, b, "bob");
    send(&mut core, a, ChatMessage::JoinRoom { room: "#dev".into() }, at(2));
    send(&mut core, b, ChatMessage::JoinRoom { room: "#dev".into() }, at(2));
    let es = send(
        &mut core,
        a,
        ChatMessage::RoomText { from: "alice".into(), room: "#dev".into(), content: "Hello room!".into(), timestamp: at(3) },
        at(3),
    );
    match &not_system(received(&es, b))[0] {
        ChatMessage::RoomText { from, room, content, .. } => {
            assert_eq!(from, "alice");
            assert_eq!(room, "#dev");
            assert_eq!(content, "Hello room!");
        }
        other => panic!("Tipo de mensagem incorreto: {:?}", other),
    }
}

#[test]
fn test_rate_limiting() {
    let mut core = server();
    let a = addr(1);
    login(&mut core, a, "alice");
    let mut found = false;
    for i in 0..15 {
        let es = send(
            &mut core,
            a,
            ChatMessage::Text { from: "alice".into(), content: format!("Flood message {}", i), timestamp: at(5) },
            Timestamp { secs: 5, nanos: i * 1_000_000 },
        );
        for m in received(&es, a) {
            if let ChatMessage::Ack { kind: AckKind::Failed, info, .. } = m {
                if info.contains("Limite de mensagens excedido") {
                    found = true;
                }
            }
        }
    }
    assert!(found, "Rate limit não foi aplicado - não recebeu ACK Failed");
}

#[test]
fn test_message_deduplication() {
    let mut core = server();
    let (a, b) = (addr(1), addr(2));
    login(&mut core, a, "alice");
    login(&mut core, b, "bob");
    let dm = ChatMessage::Private {
        from: "alice".into(),
        to: "bob".into(),
        content: "Duplicated message".into(),
        timestamp: at(2),
        message_id: Some("5f0c2f8e-dup".into()),
    };
    let first = send(&mut core, a, dm.clone(), at(2));
    let second = send(&mut core, a, dm, at(3));
    let privates = |es: &[Effect]| {
        received(es, b).into_iter().filter(|m| matches!(m, ChatMessage::Private { .. })).count()
    };
    assert_eq!(privates(&first), 1, "Bob não recebeu primeira mensagem");
    assert_eq!(privates(&second), 0, "Bob recebeu mensagem duplicada!");
}

#[test]
fn test_disconnect_cleanup() {
    let mut core = server();
    let (a, b, c) = (addr(1), addr(2), addr(3));
    login(&mut core, a, "alice");
    login(&mut core, b, "bob");
    login(&mut core, c, "charlie");
    core.disconnect_user_at(b, at(2));
    let es = send(&mut core, a, ChatMessage::ListRequest { from: "alice".into() }, at(3));
    match &not_system(received(&es, a))[0] {
        ChatMessage::ListResponse { users } => {
            assert!(!users.contains(&"bob".to_string()), "Bob ainda está na lista após desconectar");
            assert!(users.contains(&"alice".to_string()), "Alice não está na lista");
            assert!(users.contains(&"charlie".to_string()), "Charlie não está na lista");
        }
        other => panic!("Tipo de mensagem incorreto: {:?}", other),
    }
}

#[test]
fn test_dm_to_nonexistent_user() {
    let mut core = server();
    let a = addr(1);
    login(&mut core, a, "alice");
    let dm = ChatMessage::Private {
        from: "alice".into(),
        to: "ghost".into(),
        content: "Are you there?".into(),
        timestamp: at(2),
        message_id: Some("c0ffee".into()),
    };
    let es = send(&mut core, a, dm, at(2));
    match &not_system(received(&es, a))[0] {
        ChatMessage::Error(msg) => {
            assert!(msg.contains("ghost") || msg.contains("não encontrado") || msg.contains("not found"))
        }
        ChatMessage::Ack { kind, .. } => assert_eq!(*kind, AckKind::Failed, "ACK deveria ser Failed"),
        other => panic!("Tipo de resposta inesperado: {:?}", other),
    }
}
