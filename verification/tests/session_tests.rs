use multiplayer::notifs::placement::{self, PlacementOutcome};
use multiplayer::notifs::reservation::{self, ReservationOutcome};
use multiplayer::notifs::{AppState, PlacementRequestV1, ReservationRequestV1};
use multiplayer::session::{
    find_player_entity, ActivePlayer, GameSessionInfo, GameSettings, PendingPlayer,
    PENDING_PLAYER_TIMEOUT_NANOS, SESSION_SHUTDOWN_TIMEOUT_NANOS,
};
use multiplayer::systems::{clients_to_disconnect, handle_client_disconnected, handle_timeouts};
use multiplayer::player::Player;

const SEC: u128 = 1_000_000_000;

fn settings(max_players: u16) -> GameSettings {
    GameSettings { max_players }
}

#[test]
fn new_session_reserves_up_to_max_players() {
    let (session, spawned) = GameSessionInfo::new(7, &settings(2), &[10, 11, 12]);
    assert_eq!(session.player_count(), 2);
    assert_eq!(spawned.len(), 2);
    assert_eq!(spawned[0].user_id, 10);
    assert_eq!(spawned[1].user_id, 11);
    assert_eq!(session.session_id(), 7);
    assert_eq!(session.max_players(), 2);
}

#[test]
fn reserve_player_refuses_when_full() {
    let (mut session, _) = GameSessionInfo::new(1, &settings(1), &[]);
    let first = session.reserve_player(5);
    assert_eq!(first.map(|p| p.user_id), Some(5));
    assert!(session.reserve_player(6).is_none());
    assert_eq!(session.player_count(), 1);
}

#[test]
fn zero_slot_session_takes_nobody() {
    let (mut session, spawned) = GameSessionInfo::new(1, &settings(0), &[1]);
    assert!(spawned.is_empty());
    assert!(session.reserve_player(2).is_none());
    assert_eq!(session.player_count(), 0);
}

#[test]
fn client_connected_activates_reserved_player() {
    let (mut session, _) = GameSessionInfo::new(1, &settings(4), &[100, 200]);
    let pending = [(50u64, 100u128), (51u64, 200u128)];
    let r = session.client_connected(200, 9, &pending);
    assert_eq!(r, Some((51, ActivePlayer::new(200))));
    assert!(session.has_client(&9));
    assert_eq!(session.player_count(), 2);
}

#[test]
fn client_connected_rejects_unexpected_player() {
    let (mut session, _) = GameSessionInfo::new(1, &settings(4), &[100]);
    let pending = [(50u64, 100u128)];
    assert_eq!(session.client_connected(300, 9, &pending), None);
    assert!(!session.has_client(&9));
    assert_eq!(session.player_count(), 1);
}

#[test]
fn occupied_session_does_not_shut_down() {
    let (mut session, _) = GameSessionInfo::new(1, &settings(4), &[100]);
    assert!(!session.update_shutdown_timer(SESSION_SHUTDOWN_TIMEOUT_NANOS * 2));
}

#[test]
fn empty_session_shuts_down_after_ten_minutes() {
    let (mut session, _) = GameSessionInfo::new(1, &settings(4), &[100]);
    let pending = [(50u64, 100u128)];
    session.client_connected(100, 9, &pending);
    let despawned = session.client_disconnected(&9, &[], &[(60, 100)]);
    assert_eq!(despawned, vec![60]);
    assert_eq!(session.player_count(), 0);
    assert!(!session.has_client(&9));
    assert!(!session.update_shutdown_timer(599 * SEC));
    assert!(!session.update_shutdown_timer(SEC - 1));
    assert!(session.update_shutdown_timer(1));
}

#[test]
fn disconnect_of_unknown_client_despawns_nothing() {
    let (mut session, _) = GameSessionInfo::new(1, &settings(4), &[100]);
    let despawned = session.client_disconnected(&42, &[(50, 100)], &[]);
    assert!(despawned.is_empty());
    assert_eq!(session.player_count(), 1);
}

#[test]
fn pending_player_timeout_frees_slot_and_restarts_shutdown() {
    let (mut session, _) = GameSessionInfo::new(1, &settings(4), &[100]);
    assert_eq!(session.pending_player_timeout(50, 100), 50);
    assert_eq!(session.player_count(), 0);
    assert!(session.update_shutdown_timer(SESSION_SHUTDOWN_TIMEOUT_NANOS));
}

#[test]
fn pending_player_times_out_after_ten_seconds() {
    let mut p = PendingPlayer::new(3);
    assert!(!p.is_timeout(4 * SEC));
    assert!(!p.is_timeout(6 * SEC - 1));
    assert!(p.is_timeout(1));
    assert!(p.is_timeout(0));
    assert_eq!(PENDING_PLAYER_TIMEOUT_NANOS, 10 * SEC);
}

#[test]
fn find_player_entity_takes_first_match() {
    let players = [(1u64, 5u128), (2u64, 6u128), (3u64, 6u128)];
    assert_eq!(find_player_entity(&players, 6), Some(2));
    assert_eq!(find_player_entity(&players, 7), None);
}

#[test]
fn placement_starts_session_when_waiting() {
    let request = PlacementRequestV1 { game_session_id: 77, player_ids: vec![1, 2] };
    match placement::handle_v1(AppState::WaitForPlacement, &settings(4), request) {
        PlacementOutcome::Started { session, spawn, next_state } => {
            assert_eq!(next_state, AppState::InitServer);
            assert_eq!(session.session_id(), 77);
            assert_eq!(session.player_count(), 2);
            assert_eq!(spawn.iter().map(|p| p.user_id).collect::<Vec<_>>(), vec![1, 2]);
        }
        PlacementOutcome::Ignored => panic!("placement should start"),
    }
}

#[test]
fn placement_ignored_in_wrong_state_or_when_too_large() {
    let request = PlacementRequestV1 { game_session_id: 77, player_ids: vec![1] };
    assert!(matches!(
        placement::handle_v1(AppState::InGame, &settings(4), request),
        PlacementOutcome::Ignored
    ));
    let request = PlacementRequestV1 { game_session_id: 77, player_ids: vec![1, 2, 3] };
    assert!(matches!(
        placement::handle_v1(AppState::WaitForPlacement, &settings(2), request),
        PlacementOutcome::Ignored
    ));
}

#[test]
fn reservation_is_all_or_nothing() {
    let (mut session, _) = GameSessionInfo::new(1, &settings(3), &[100]);
    let too_many = ReservationRequestV1 { player_ids: vec![1, 2, 3] };
    assert!(matches!(
        reservation::handle_v1(AppState::InGame, &mut session, too_many),
        ReservationOutcome::Ignored
    ));
    assert_eq!(session.player_count(), 1);
    let fits = ReservationRequestV1 { player_ids: vec![1, 2] };
    match reservation::handle_v1(AppState::InGame, &mut session, fits) {
        ReservationOutcome::Reserved { spawn } => assert_eq!(spawn.len(), 2),
        ReservationOutcome::Ignored => panic!("reservation should fit"),
    }
    assert_eq!(session.player_count(), 3);
}

#[test]
fn reservation_ignored_unless_in_game() {
    let (mut session, _) = GameSessionInfo::new(1, &settings(3), &[]);
    let request = ReservationRequestV1 { player_ids: vec![1] };
    assert!(matches!(
        reservation::handle_v1(AppState::WaitForPlacement, &mut session, request),
        ReservationOutcome::Ignored
    ));
    assert_eq!(session.player_count(), 0);
}

#[test]
fn handle_timeouts_despawns_expired_reservations() {
    let (mut session, spawned) = GameSessionInfo::new(1, &settings(4), &[100, 200]);
    let mut pending: Vec<(u64, PendingPlayer)> =
        spawned.into_iter().enumerate().map(|(i, p)| (i as u64 + 10, p)).collect();
    let r = handle_timeouts(&mut session, &mut pending, true, 5 * SEC);
    assert!(r.despawn.is_empty());
    assert!(!r.exit);
    let r = handle_timeouts(&mut session, &mut pending, true, 5 * SEC);
    assert_eq!(r.despawn, vec![10, 11]);
    assert!(!r.exit);
    assert_eq!(session.player_count(), 0);
    let mut none: Vec<(u64, PendingPlayer)> = Vec::new();
    let r = handle_timeouts(&mut session, &mut none, true, SESSION_SHUTDOWN_TIMEOUT_NANOS);
    assert!(r.exit);
}

#[test]
fn local_servers_never_exit_on_timeouts() {
    let (mut session, _) = GameSessionInfo::new(1, &settings(4), &[]);
    let mut none: Vec<(u64, PendingPlayer)> = Vec::new();
    let r = handle_timeouts(&mut session, &mut none, false, SESSION_SHUTDOWN_TIMEOUT_NANOS * 3);
    assert!(!r.exit);
}

#[test]
fn disconnect_despawns_player_bodies_and_entities() {
    let (mut session, _) = GameSessionInfo::new(1, &settings(4), &[100]);
    session.client_connected(100, 9, &[(50, 100)]);
    let bodies = [
        (70u64, Player::new(100, 9)),
        (71u64, Player::new(101, 8)),
        (72u64, Player::new(100, 9)),
    ];
    let despawned = handle_client_disconnected(&mut session, 9, &bodies, &[], &[(60, 100)]);
    assert_eq!(despawned, vec![70, 72, 60]);
    assert_eq!(session.player_count(), 0);
}

#[test]
fn events_from_unknown_clients_are_refused() {
    let (mut session, _) = GameSessionInfo::new(3, &settings(2), &[40]);
    let connected = session.client_connected(40, 9, &[(77, 40)]);
    assert!(connected.is_some());
    assert_eq!(clients_to_disconnect(&session, &[9, 5, 9, 6]), vec![5, 6]);
    assert!(clients_to_disconnect(&session, &[9]).is_empty());
    assert!(clients_to_disconnect(&session, &[]).is_empty());
}

#[test]
fn emptied_session_shuts_down_once_ten_minutes_have_passed() {
    const SEC: u128 = 1_000_000_000;
    let (mut session, _) = GameSessionInfo::new(6, &settings(2), &[100]);
    assert!(!session.update_shutdown_timer(3600 * SEC));
    session.pending_player_timeout(50, 100);
    let answers: Vec<bool> = (0..12).map(|_| session.update_shutdown_timer(60 * SEC)).collect();
    assert_eq!(answers, [vec![false; 9], vec![true; 3]].concat());
    assert_eq!(session.player_count(), 0);
}
