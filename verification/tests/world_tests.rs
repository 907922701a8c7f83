use std::collections::BTreeSet;
use std::time::Duration;

use multiplayer::client::{
    check_click_event, on_connected_server, on_find_server_response, should_update_input,
    toggle_game_menu, handle_gamepad_events, AppState, ClientState, FindServerOutcome, GamepadConnection,
    PointerButton, Visibility,
};
use multiplayer::gameclient::FindServerResponseV1;
use multiplayer::gameserver::{GameServerOrchestration, GameServerState};
use multiplayer::models::GameSessionInfo as SessionRecord;
use multiplayer::network::{
    is_ignored_interface, ConnectEvent, ConnectionInfo, IpAddress, NetworkInterfaceInfo,
    PlayerClientId, SocketAddress,
};
use multiplayer::orchestration::Orchestration;
use multiplayer::player::{Dynamic, Player};
use multiplayer::addrtext::{v4_to_string, v6_to_string};
use multiplayer::server::{heartbeat, GameServerInfo};
use multiplayer::spectate::spectate_lines;
use multiplayer::session::{GameSessionInfo, GameSettings};
use multiplayer::timer::Timer;

fn v4(a: u8, b: u8, c: u8, d: u8) -> u32 {
    u32::from_be_bytes([a, b, c, d])
}

#[test]
fn specific_listen_address_is_added() {
    let mut info = ConnectionInfo::default();
    info.update(SocketAddress { ip: IpAddress::V4(v4(10, 0, 0, 5)), port: 5000 }, &[]);
    info.update(SocketAddress { ip: IpAddress::V4(v4(127, 0, 0, 1)), port: 5001 }, &[]);
    info.update(SocketAddress { ip: IpAddress::V4(v4(169, 254, 3, 3)), port: 5002 }, &[]);
    info.update(SocketAddress { ip: IpAddress::V6(1), port: 5003 }, &[]);
    info.update(SocketAddress { ip: IpAddress::V6(0xfe80 << 112), port: 5004 }, &[]);
    assert_eq!(info.v4addrs, BTreeSet::from([v4(10, 0, 0, 5)]));
    assert_eq!(info.v6addrs, BTreeSet::from([0xfe80u128 << 112]));
    assert_eq!(info.port, 5004);
}

#[test]
fn unspecified_address_lists_host_interfaces() {
    let mut info = ConnectionInfo::default();
    info.update(SocketAddress { ip: IpAddress::V4(v4(10, 9, 9, 9)), port: 1 }, &[]);
    let ifaces = vec![
        NetworkInterfaceInfo {
            name: "eth0".to_string(),
            addrs: vec![IpAddress::V4(v4(192, 168, 1, 2)), IpAddress::V6(5), IpAddress::V6(1)],
        },
        NetworkInterfaceInfo { name: "docker0".to_string(), addrs: vec![IpAddress::V4(v4(172, 17, 0, 1))] },
        NetworkInterfaceInfo { name: "br-1234".to_string(), addrs: vec![IpAddress::V4(v4(172, 18, 0, 1))] },
        NetworkInterfaceInfo {
            name: "lo".to_string(),
            addrs: vec![IpAddress::V4(v4(127, 0, 0, 1)), IpAddress::V4(v4(169, 254, 1, 1))],
        },
    ];
    info.update(SocketAddress { ip: IpAddress::V4(0), port: 7777 }, &ifaces);
    assert_eq!(info.v4addrs, BTreeSet::from([v4(192, 168, 1, 2)]));
    assert_eq!(info.v6addrs, BTreeSet::from([5u128]));
    assert_eq!(info.port, 7777);
}

#[test]
fn bridge_interfaces_are_ignored() {
    assert!(is_ignored_interface("docker0"));
    assert!(is_ignored_interface("veth-docker-x"));
    assert!(is_ignored_interface("br-abc"));
    assert!(!is_ignored_interface("xbr-abc"));
    assert!(!is_ignored_interface("eth0"));
}

#[test]
fn new_server_has_nothing_advertised() {
    let a = GameServerInfo::new();
    assert!(a.connection_info.v4addrs.is_empty());
    assert!(a.connection_info.v6addrs.is_empty());
    assert_eq!(a.connection_info.port, 0);
}

#[test]
fn orchestration_kinds() {
    assert!(!Orchestration::Local.shutdown_empty());
    assert!(Orchestration::Agones.shutdown_empty());
    assert!(Orchestration::GameLift.shutdown_empty());
    assert_eq!(Orchestration::Local.as_api_type(), GameServerOrchestration::Local);
    assert_eq!(Orchestration::Agones.as_api_type(), GameServerOrchestration::Agones);
    assert_eq!(Orchestration::GameLift.as_api_type(), GameServerOrchestration::GameLift);
}

#[test]
fn heartbeat_reports_hosted_session() {
    let (session, _) = GameSessionInfo::new(9, &GameSettings { max_players: 4 }, &[2]);
    let mut info = ConnectionInfo::default();
    info.v4addrs.insert(0x0A00_0005);
    info.port = 7777;
    let req = heartbeat(
        &info,
        GameServerState::InGame,
        GameServerOrchestration::Agones,
        Some(&session),
        &vec![2],
        &vec![1],
    );
    assert_eq!(req.server_info.addrs, vec!["10.0.0.5".to_string()]);
    assert_eq!(req.server_info.port, 7777);
    assert_eq!(req.server_info.game_session_id, Some(9));
    assert_eq!(req.server_info.max_players, 4);
    let record = SessionRecord::new(33, req.server_info).unwrap();
    assert_eq!(record.game_session_id, 9);
    assert_eq!(record.active_player_ids, vec![1]);
    assert_eq!(record.pending_player_ids, vec![2]);
}

#[test]
fn heartbeat_without_session_sends_no_players() {
    let req = heartbeat(
        &ConnectionInfo::default(),
        GameServerState::WaitingForPlacement,
        GameServerOrchestration::Local,
        None,
        &vec![],
        &vec![],
    );
    assert_eq!(req.server_info.game_session_id, None);
    assert_eq!(req.server_info.active_player_ids, None);
    assert_eq!(req.server_info.pending_player_ids, None);
    assert_eq!(req.server_info.max_players, 0);
}

#[test]
fn crouch_changes_are_reported_once() {
    let mut p = Player::new(1, 2);
    assert!(!p.crouched);
    assert_eq!(p.apply_crouch_input(true), Some(true));
    assert_eq!(p.apply_crouch_input(true), None);
    assert_eq!(p.apply_crouch_input(false), Some(false));
    assert_eq!(p.apply_crouch_input(false), None);
}

#[test]
fn dynamic_names() {
    assert_eq!(Dynamic::Ball.get_name(), "Ball");
}

#[test]
fn local_client_is_the_server() {
    assert!(PlayerClientId::new(0).is_local());
    assert!(!PlayerClientId::new(17).is_local());
    assert_eq!(PlayerClientId::new(17).get_client_id(), 17);
}

#[test]
fn client_flow() {
    assert_eq!(on_connected_server(PlayerClientId::new(3), 8), (ConnectEvent(8), AppState::InGame));
    let c = ClientState::new_remote("host".to_string());
    assert_eq!(c.host().as_deref(), Some("host"));
    assert!(ClientState::local().host().is_none());
    let none = FindServerResponseV1 { address: String::new(), port: 0 };
    assert!(matches!(on_find_server_response(none), FindServerOutcome::BackToMenu));
    let some = FindServerResponseV1 { address: "1.2.3.4".to_string(), port: 9 };
    match on_find_server_response(some) {
        FindServerOutcome::Connect { address, port } => {
            assert_eq!(address, "1.2.3.4");
            assert_eq!(port, 9);
        }
        FindServerOutcome::BackToMenu => panic!("should connect"),
    }
}

#[test]
fn ui_decisions() {
    assert!(check_click_event(4, 4, PointerButton::Primary, PointerButton::Primary));
    assert!(!check_click_event(4, 5, PointerButton::Primary, PointerButton::Primary));
    assert!(!check_click_event(4, 4, PointerButton::Secondary, PointerButton::Primary));
    assert!(should_update_input(Some(true), None));
    assert!(should_update_input(Some(true), Some(false)));
    assert!(!should_update_input(Some(true), Some(true)));
    assert!(!should_update_input(Some(false), None));
    assert!(!should_update_input(None, None));
    assert_eq!(toggle_game_menu(Visibility::Visible), Visibility::Hidden);
    assert_eq!(toggle_game_menu(Visibility::Hidden), Visibility::Visible);
    assert_eq!(toggle_game_menu(Visibility::Inherited), Visibility::Visible);
}

#[test]
fn a_frame_of_gamepad_events_is_decided_against_the_held_gamepad() {
    assert_eq!(handle_gamepad_events(None, &[]), None);
    assert_eq!(handle_gamepad_events(None, &[GamepadConnection::Connected(3)]), Some(3));
    assert_eq!(handle_gamepad_events(None, &[GamepadConnection::Connected(3), GamepadConnection::Connected(4)]), Some(4));
    assert_eq!(handle_gamepad_events(None, &[GamepadConnection::Connected(3), GamepadConnection::Disconnected(3)]), Some(3));
    assert_eq!(handle_gamepad_events(Some(3), &[GamepadConnection::Connected(4)]), Some(3));
    assert_eq!(handle_gamepad_events(Some(3), &[GamepadConnection::Disconnected(4)]), Some(3));
    assert_eq!(handle_gamepad_events(Some(3), &[GamepadConnection::Disconnected(3)]), None);
    // a gamepad connecting after the held one left waits for the next frame
    assert_eq!(handle_gamepad_events(Some(3), &[GamepadConnection::Disconnected(3), GamepadConnection::Connected(5)]), None);
    assert_eq!(handle_gamepad_events(None, &[GamepadConnection::Connected(5)]), Some(5));
}

/// The timer follows the engine's once-mode timer tick for tick.
#[test]
fn timer_matches_engine_timer() {
    let steps: [(&str, u64); 9] = [
        ("tick", 300),
        ("pause", 0),
        ("tick", 5000),
        ("unpause", 0),
        ("tick", 600),
        ("reset", 0),
        ("tick", 999),
        ("tick", 2),
        ("tick", 7),
    ];
    let mut ours = Timer::new(1_000_000_000);
    let mut theirs = bevy::time::Timer::new(Duration::from_secs(1), bevy::time::TimerMode::Once);
    for (op, ms) in steps {
        match op {
            "tick" => {
                ours.tick(ms as u128 * 1_000_000);
                theirs.tick(Duration::from_millis(ms));
            }
            "pause" => {
                ours.pause();
                theirs.pause();
            }
            "unpause" => {
                ours.unpause();
                theirs.unpause();
            }
            _ => {
                ours.reset();
                theirs.reset();
            }
        }
        assert_eq!(ours.finished(), theirs.finished());
        assert_eq!(ours.paused(), theirs.paused());
        assert_eq!(ours.elapsed(), theirs.elapsed().as_nanos());
        assert_eq!(ours.duration(), theirs.duration().as_nanos());
    }
}

#[test]
fn ipv4_addresses_are_written_in_dotted_decimal() {
    assert_eq!(v4_to_string(0x0A00_0005), "10.0.0.5");
    assert_eq!(v4_to_string(0xC0A8_0101), "192.168.1.1");
    assert_eq!(v4_to_string(0), "0.0.0.0");
    assert_eq!(v4_to_string(0xFFFF_FFFF), "255.255.255.255");
}

#[test]
fn ipv6_addresses_are_written_in_canonical_form() {
    assert_eq!(v6_to_string(0), "::");
    assert_eq!(v6_to_string(1), "::1");
    assert_eq!(v6_to_string(0x2001_0db8_0000_0000_0000_0000_0000_0001), "2001:db8::1");
    assert_eq!(v6_to_string(0x2001_0db8_0000_0001_0000_0000_0000_0001), "2001:db8:0:1::1");
    assert_eq!(v6_to_string(0x2001_0000_0000_0001_0000_0000_0000_0001), "2001:0:0:1::1");
    assert_eq!(v6_to_string(0x2001_0000_0000_0001_0000_0000_0001_0001), "2001::1:0:0:1:1");
    assert_eq!(v6_to_string(0x2001_0db8_0000_0001_0001_0001_0001_0001), "2001:db8:0:1:1:1:1:1");
    assert_eq!(v6_to_string(0x0000_0000_0000_0000_0000_ffff_c000_0201), "::ffff:192.0.2.1");
    assert_eq!(v6_to_string(0xfe80_0000_0000_0000_01ff_fe23_4567_890a), "fe80::1ff:fe23:4567:890a");
    assert_eq!(v6_to_string(0x1234_5678_9abc_def0_1234_5678_9abc_def0), "1234:5678:9abc:def0:1234:5678:9abc:def0");
}

#[test]
fn advertised_addresses_come_in_text_order() {
    let mut info = ConnectionInfo::default();
    info.v4addrs.insert(0x0900_0001);
    info.v4addrs.insert(0xC0A8_0101);
    info.v4addrs.insert(0x0A00_0005);
    info.v6addrs.insert(0xfe80_0000_0000_0000_0000_0000_0000_0001);
    info.v6addrs.insert(0x2001_0db8_0000_0000_0000_0000_0000_0001);
    info.port = 5000;
    assert_eq!(info.v4_strings(), vec!["10.0.0.5", "192.168.1.1", "9.0.0.1"]);
    assert_eq!(info.v6_strings(), vec!["2001:db8::1", "fe80::1"]);
    let req = heartbeat(
        &info,
        GameServerState::Loading,
        GameServerOrchestration::Local,
        None,
        &vec![],
        &vec![],
    );
    assert_eq!(
        req.server_info.addrs,
        vec!["10.0.0.5", "192.168.1.1", "9.0.0.1", "2001:db8::1", "fe80::1"]
    );
    assert_eq!(req.server_info.port, 5000);
}

#[test]
fn new_servers_get_random_version_4_identifiers() {
    let a = GameServerInfo::new();
    let b = GameServerInfo::new();
    assert_ne!(a.server_id, b.server_id);
    for id in [a.server_id, b.server_id] {
        assert_eq!(id & 0x0000_0000_0000_F000_C000_0000_0000_0000, 0x0000_0000_0000_4000_8000_0000_0000_0000);
    }
}

#[test]
fn spectator_screen_lists_server_addresses_and_players() {
    let mut info = ConnectionInfo::default();
    info.v4addrs.insert(0x0900_0001);
    info.v4addrs.insert(0x0A00_0005);
    info.v6addrs.insert(0xfe80_0000_0000_0000_0000_0000_0000_0001);
    info.port = 5000;
    let lines = spectate_lines(
        0x67e5_5044_10b1_426f_9247_bb68_0e5f_e0c8,
        1,
        &info,
        &[0x0000_0000_0000_4000_8000_0000_0000_00ff],
        &[],
    );
    assert_eq!(
        lines,
        vec![
            "Server: 67e55044-10b1-426f-9247-bb680e5fe0c8",
            "Session: 00000000-0000-0000-0000-000000000001",
            "  10.0.0.5:5000",
            "  9.0.0.1:5000",
            "  fe80::1:5000",
            "Pending Players:",
            "  00000000-0000-4000-8000-0000000000ff",
            "Active Players:",
            "",
        ]
    );
}

