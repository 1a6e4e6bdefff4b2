use chat_serve::model::PeerAddr;
use chat_serve::state::ChatState;

fn addr(port: u16) -> PeerAddr {
    PeerAddr::v4(127, 0, 0, 1, port)
}

/// The monotonic instant, in nanoseconds, of `v` milliseconds.
fn ms(v: u64) -> u64 {
    v * 1_000_000
}

#[test]
fn test_validate_username() {
    assert!(ChatState::validate_username("user123").is_ok());
    assert!(ChatState::validate_username("alice_bob").is_ok());
    assert!(ChatState::validate_username("test-user").is_ok());
    assert!(ChatState::validate_username("a_b-c123").is_ok());
    assert!(ChatState::validate_username("abc").is_ok());

    assert!(ChatState::validate_username("ab").is_err());
    assert!(ChatState::validate_username("a").is_err());
    assert!(ChatState::validate_username("").is_err());

    assert!(ChatState::validate_username("usuario_com_nome_muito_longo_demais").is_err());
    assert!(ChatState::validate_username("123456789012345678901").is_err());

    assert!(ChatState::validate_username("user@test").is_err());
    assert!(ChatState::validate_username("user.name").is_err());
    assert!(ChatState::validate_username("user name").is_err());
    assert!(ChatState::validate_username("joão").is_err());
    assert!(ChatState::validate_username("user#123").is_err());
    assert!(ChatState::validate_username("user$").is_err());
}

#[test]
fn validate_username_reports_the_broken_rule() {
    assert_eq!(
        ChatState::validate_username("ab"),
        Err("Username deve ter no mínimo 3 caracteres".to_string())
    );
    assert_eq!(
        ChatState::validate_username("123456789012345678901"),
        Err("Username deve ter no máximo 20 caracteres".to_string())
    );
    assert_eq!(
        ChatState::validate_username("user@test"),
        Err("Username só pode conter letras ASCII, números, underscore (_) e hífen (-)".to_string())
    );
    // "jo" plus a two-byte letter is three bytes long but holds a non-ASCII letter
    assert_eq!(
        ChatState::validate_username("joã"),
        Err("Username só pode conter letras ASCII, números, underscore (_) e hífen (-)".to_string())
    );
}

#[test]
fn test_username_uniqueness() {
    let mut state = ChatState::new();
    let addr1 = addr(19000);
    let addr2 = addr(19001);

    assert!(!state.is_username_taken("alice"));
    state.add_client(addr1, "alice".to_string());
    assert!(state.is_username_taken("alice"));

    assert!(!state.is_username_taken("bob"));
    state.add_client(addr2, "bob".to_string());
    assert!(state.is_username_taken("bob"));

    assert!(state.is_username_taken("alice"));
}

#[test]
fn test_rate_limit_basic_window() {
    let mut state = ChatState::new();
    let user = "ratelimited";
    for i in 0..10 {
        assert!(state.check_rate_limit(user, 10), "falhou na iteracao {}", i);
    }
    assert!(!state.check_rate_limit(user, 10));
}

#[test]
fn rate_limit_window_reopens_after_a_second() {
    let mut state = ChatState::new();
    for _ in 0..3 {
        assert!(state.check_rate_limit_at("u", 3, ms(5_000)));
    }
    assert!(!state.check_rate_limit_at("u", 3, ms(5_999)));
    assert!(state.check_rate_limit_at("u", 3, ms(6_000)));
    assert!(state.check_rate_limit_at("u", 3, ms(6_001)));
}

#[test]
fn rate_limit_peek_changes_nothing() {
    let mut state = ChatState::new();
    assert!(state.check_rate_limit_at("u", 1, ms(100)));
    assert!(!state.rate_allows_at("u", 1, ms(200)));
    assert!(!state.rate_allows_at("u", 1, ms(200)));
    assert!(state.rate_allows_at("u", 1, ms(1_100)));
    assert!(!state.check_rate_limit_at("u", 1, ms(200)));
}

#[test]
fn test_add_get_list_remove_clients() {
    let mut state = ChatState::new();
    let addr1 = addr(20000);
    let addr2 = addr(20001);

    state.add_client(addr1, "user1".to_string());
    state.add_client(addr2, "user2".to_string());

    let mut users = state.list_usernames();
    users.sort();
    assert_eq!(users, vec!["user1".to_string(), "user2".to_string()]);

    let opt = state.get_client_tx("user1");
    assert_eq!(opt, Some(addr1));

    let removed = state.remove_client(&addr1).expect("should remove");
    assert_eq!(removed, "user1".to_string());
    let users2 = state.list_usernames();
    assert_eq!(users2, vec!["user2".to_string()]);
}

#[test]
fn test_join_leave_and_gc() {
    let mut state = ChatState::new();
    state.init_fixed_rooms();

    state.join_room("alice", "#rust");
    assert!(state.room_exists("#rust"));
    state.leave_room("alice", "#rust");
    assert!(!state.room_exists("#rust"));

    state.join_room("bob", "#geral");
    assert!(state.room_exists("#geral"));
    state.leave_room("bob", "#geral");
    assert!(state.room_exists("#geral"));
}

#[test]
fn join_then_leave_restores_memberships() {
    let mut state = ChatState::new();
    state.join_room("carol", "#a");
    state.join_room("carol", "#tmp");
    state.leave_room("carol", "#tmp");
    assert!(!state.room_exists("#tmp"));
    assert!(state.is_subscribed("carol", "#a"));
    assert!(!state.is_subscribed("carol", "#tmp"));
    state.leave_room("carol", "#a");
    assert!(!state.has_subscriptions("carol"));
    assert!(!state.room_exists("#a"));
}

#[test]
fn test_remove_client_cleans_up() {
    let mut state = ChatState::new();
    state.init_fixed_rooms();
    let addr_a = addr(30000);
    let addr_b = addr(30001);

    state.add_client(addr_a, "davi".to_string());
    state.add_client(addr_b, "x".to_string());

    state.join_room("davi", "#r1");
    state.join_room("davi", "#r2");
    state.join_room("x", "#r2");

    assert!(state.has_user("davi"));
    assert!(state.is_member("#r1", "davi"));
    assert!(state.is_member("#r2", "davi"));
    assert!(state.has_subscriptions("davi"));

    let removed = state.remove_client(&addr_a);
    assert_eq!(removed, Some("davi".to_string()));

    assert!(!state.has_user("davi"));
    assert!(!state.has_subscriptions("davi"));
    assert!(!state.is_member("#r2", "davi"));
    assert!(!state.room_exists("#r1"));
    assert!(state.is_member("#r2", "x"));
}

#[test]
fn test_dedup() {
    let mut state = ChatState::new();
    assert_eq!(state.check_and_mark_message_id("dup-1"), false);
    assert_eq!(state.check_and_mark_message_id("dup-1"), true);
}

#[test]
fn dedup_forgets_ids_after_an_hour() {
    let mut state = ChatState::new();
    assert!(!state.check_and_mark_message_id_at("m", ms(1_000)));
    assert!(state.check_and_mark_message_id_at("m", ms(1_000 + 3_599_999)));
    assert!(!state.check_and_mark_message_id_at("m", ms(1_000 + 3_600_000)));
    assert!(state.seen_recently_at("m", ms(1_000 + 3_600_000)));
}

#[test]
fn client_addresses_and_names() {
    let mut state = ChatState::new();
    state.add_client(addr(1), "a".to_string());
    state.add_client(addr(2), "b".to_string());
    state.add_client(addr(3), "c".to_string());
    let mut all = state.client_addrs_except(None);
    all.sort_by_key(|a| a.port);
    assert_eq!(all, vec![addr(1), addr(2), addr(3)]);
    let mut some = state.client_addrs_except(Some("b"));
    some.sort_by_key(|a| a.port);
    assert_eq!(some, vec![addr(1), addr(3)]);
    assert_eq!(state.username_by_addr(&addr(3)), Some("c".to_string()));
    assert_eq!(state.username_by_addr(&addr(9)), None);
    assert_eq!(state.client_count(), 3);
    state.join_room("a", "#x");
    state.join_room("c", "#x");
    state.join_room("ghost", "#x");
    let mut members = state.room_member_addrs("#x");
    members.sort_by_key(|a| a.port);
    assert_eq!(members, vec![addr(1), addr(3)]);
}

#[test]
fn fixed_rooms_are_created_once() {
    let mut state = ChatState::new();
    state.init_fixed_rooms();
    state.join_room("a", "#dev");
    state.init_fixed_rooms();
    assert!(state.is_member("#dev", "a"));
    assert!(state.room_exists("#geral"));
    assert!(state.room_exists("#ajuda"));
    assert!(ChatState::is_fixed_room("#ajuda"));
    assert!(!ChatState::is_fixed_room("#rust"));
}

#[test]
fn peer_addr_v4_packs_the_octets() {
    let a = PeerAddr::v4(192, 168, 1, 2, 80);
    assert_eq!(a.ip, 0xC0A8_0102);
    assert_eq!(a.port, 80);
    assert!(!a.v6);
}

#[test]
fn rate_window_counts_per_user() {
    let mut s = ChatState::new();
    for i in 0..10u64 {
        assert!(s.check_rate_limit_at("ana", 10, ms(1_000 + i)));
        // another user in between changes nothing for ana
        assert!(s.check_rate_limit_at("bia", 10, ms(1_000 + i)));
    }
    assert!(!s.check_rate_limit_at("ana", 10, ms(1_500)));
    assert!(!s.check_rate_limit_at("ana", 10, ms(1_999)));
    assert!(s.check_rate_limit_at("ana", 10, ms(2_000)));
}

#[test]
fn rate_limit_counts_on_the_monotonic_clock() {
    let mut state = ChatState::new();
    let first = state.clock_nanos();
    assert!(state.check_rate_limit("mono", 1));
    assert!(!state.check_rate_limit("mono", 1));
    let second = state.clock_nanos();
    assert!(first <= second);
    assert!(second < ms(10_000), "a fresh state reads the clock from its own start");
}

#[test]
fn refused_message_keeps_the_window() {
    let mut s = ChatState::new();
    assert!(s.check_rate_limit_at("u", 1, ms(100)));
    assert!(!s.check_rate_limit_at("u", 1, ms(200)));
    // the window still starts at 100, so it has run out at 1100
    assert!(s.check_rate_limit_at("u", 1, ms(1_100)));
}

#[test]
fn rate_window_is_a_second_to_the_nanosecond() {
    let mut s = ChatState::new();
    assert!(s.check_rate_limit_at("n", 1, 1_000));
    assert!(!s.check_rate_limit_at("n", 1, 1_000 + 999_999_999));
    assert!(s.check_rate_limit_at("n", 1, 1_000 + 1_000_000_000));
}

#[test]
fn memberships_and_subscriptions_mirror() {
    let mut s = ChatState::new();
    s.init_fixed_rooms();
    s.join_room("ana", "#x");
    s.join_room("ana", "#dev");
    s.join_room("bia", "#x");
    for (room, user) in [("#x", "ana"), ("#dev", "ana"), ("#x", "bia"), ("#dev", "bia"), ("#geral", "ana")] {
        assert_eq!(s.is_member(room, user), s.is_subscribed(user, room));
    }
    s.leave_room("ana", "#dev");
    assert!(s.room_exists("#dev"));
    assert!(!s.is_member("#dev", "ana"));
    s.remove_client_by_username("bia");
    assert!(!s.has_subscriptions("bia"));
    assert!(!s.is_member("#x", "bia"));
    assert!(s.is_member("#x", "ana"));
    assert_eq!(s.room_count(), 4);
}
