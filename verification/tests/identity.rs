use necron_prism::minecraft::protocol::LoginHelloInfo;
use necron_prism::minecraft::error::ProtocolError;
use necron_prism::minecraft::packet_io::FramedPacket;
use necron_prism::proxy::hooks::{
    login_join_request, login_outcome, offline_uuid, player_uuid, uuid_text, LoginOutcome,
};
use necron_prism::proxy::routing::{JoinDecision, JoinTarget};
use necron_prism::proxy::logging::fmt::AnsiFormatter;

#[test]
fn offline_ids_match_the_uuid_crate() {
    let expected = uuid::Uuid::new_v3(&uuid::Uuid::NAMESPACE_DNS, b"OfflinePlayer:Notch");
    assert_eq!(offline_uuid("Notch"), expected.as_u128());
    assert_eq!(uuid_text(offline_uuid("Notch")), expected.to_string());
}

#[test]
fn player_id_prefers_profile_id() {
    let hello = LoginHelloInfo { username: "Alex".to_string(), profile_id: Some(5) };
    assert_eq!(player_uuid(&hello), 5);
    let hello = LoginHelloInfo { username: "Alex".to_string(), profile_id: None };
    assert_eq!(player_uuid(&hello), offline_uuid("Alex"));
}

#[test]
fn uuid_text_layout() {
    assert_eq!(uuid_text(0), "00000000-0000-0000-0000-000000000000");
    assert_eq!(uuid_text(u128::MAX), "ffffffff-ffff-ffff-ffff-ffffffffffff");
    let id = 0x0123_4567_89ab_cdef_0011_2233_4455_6677u128;
    assert_eq!(uuid_text(id), "01234567-89ab-cdef-0011-223344556677");
    assert_eq!(uuid_text(id), uuid::Uuid::from_u128(id).to_string());
}

#[test]
fn source_location_column() {
    let _formatter = AnsiFormatter::new();
    assert_eq!(AnsiFormatter::smart_truncate("main.rs", 7, 12), format!("{:>12}", "main.rs:7"));
    assert_eq!(
        AnsiFormatter::format_path("C:\\work\\src\\proxy\\hooks.rs", 42),
        format!("{:>28}", "proxy/hooks.rs:42")
    );
    assert_eq!(
        AnsiFormatter::format_path("/home/me/project/src/proxy/motd/very_long_name/context.rs", 120),
        "ery_long_name/context.rs:120"
    );
    assert_eq!(
        AnsiFormatter::format_path("/x/src/proxy/motd/service/a/context.rs", 9),
        "motd/service/a/context.rs:9"
    );
    assert_eq!(
        AnsiFormatter::smart_truncate("a/b/c/averyveryverylongfilename.rs", 1, 16),
        "\u{2026}ngfilename.rs:1"
    );
    assert_eq!(AnsiFormatter::format_path("lib.rs", 3), format!("{:>28}", "lib.rs:3"));
}

fn legacy_hello(name: &str) -> FramedPacket {
    let mut body = vec![name.len() as u8];
    body.extend_from_slice(name.as_bytes());
    FramedPacket { wire_len: body.len() + 2, id: 0, body }
}

#[test]
fn login_asks_the_api_about_the_player() {
    let request = login_join_request(&legacy_hello("Notch"), "mc.example", Some("1.2.3.4:5"), None, 7).unwrap();
    assert_eq!(request.name, "Notch");
    assert_eq!(request.uuid, uuid::Uuid::new_v3(&uuid::Uuid::NAMESPACE_DNS, b"OfflinePlayer:Notch").to_string());
    assert_eq!(request.peer_addr.as_deref(), Some("1.2.3.4:5"));
    assert_eq!(request.server_address, "mc.example");
    assert_eq!(request.entry_node_key, "default");
    assert_eq!(request.online_count, 7);
    let keyed = login_join_request(&legacy_hello("Notch"), "mc.example", None, Some("eu"), 0).unwrap();
    assert_eq!(keyed.entry_node_key, "eu");
    assert!(keyed.peer_addr.is_none());
    let broken = FramedPacket { wire_len: 3, id: 0, body: vec![9] };
    assert!(matches!(login_join_request(&broken, "mc.example", None, None, 0), Err(ProtocolError::Decode(_))));
}

#[test]
fn login_follows_the_api_decision() {
    let request = login_join_request(&legacy_hello("Alex"), "mc.example", None, None, 0).unwrap();
    let uuid = request.uuid.clone();
    let allow = JoinDecision::Allow(JoinTarget {
        target_addr: "10.0.0.1:25565".to_string(),
        rewrite_addr: Some("play.example:25565".to_string()),
        connection_id: Some("c-1".to_string()),
    });
    match login_outcome(request.clone(), allow) {
        LoginOutcome::Allow(route) => {
            assert_eq!(route.target_addr, "10.0.0.1:25565");
            assert_eq!(route.rewrite_addr.as_deref(), Some("play.example:25565"));
            assert_eq!(route.connection_id.as_deref(), Some("c-1"));
            assert_eq!(route.player_name, "Alex");
            assert_eq!(route.player_uuid, uuid);
        }
        LoginOutcome::Deny { .. } => panic!("expected an allowed login"),
    }
    match login_outcome(request, JoinDecision::Deny { kick_reason: "full".to_string() }) {
        LoginOutcome::Deny { kick_reason } => assert_eq!(kick_reason, "full"),
        LoginOutcome::Allow(_) => panic!("expected a kick"),
    }
}

#[test]
fn truncated_paths_fit_their_column() {
    for (path, line, width) in [
        ("main.rs", 10, 28),
        ("proxy/motd/service/very/deep/module.rs", 123, 28),
        ("a/b/c/averyveryverylongfilename.rs", 1, 16),
        ("nofolderbutaverylongname.rs", 99999, 10),
        ("x", 1, 1),
    ] {
        let out = AnsiFormatter::smart_truncate(path, line, width);
        let full = format!("{path}:{line}");
        assert!(out.chars().count() <= width);
        let rest = out.trim_start_matches(' ').trim_start_matches('…');
        assert!(full.ends_with(rest));
    }
    assert_eq!(AnsiFormatter::smart_truncate("main.rs", 10, 28), format!("{}main.rs:10", " ".repeat(18)));
}
