use multiplayer::findserver::{FindServer, FindServerAction, FindServerEvent, FindServerState};
use multiplayer::gameclient::FindServerResponseV1;
use multiplayer::gameserver::{
    GameServerInfo as Report, GameServerOrchestration, GameServerState, PostHeartbeatRequestV1,
};
use multiplayer::heartbeat::{post_heartbeat_v1, HEARTBEAT_TTL};
use multiplayer::matchmaking::{
    server_lookup, session_lookup, AllocationPhase, BackfillPhase,
    find_server_response, Allocation, AllocationAction, AllocationEvent, BackfillAction,
    BackfillEvent, BackfillSearch,
};
use multiplayer::models::{GameServerInfo, GameSessionInfo, SessionRecordError};
use multiplayer::user::{User, UserError};

const ID_TEXT: &str = "67e55044-10b1-426f-9247-bb680e5fe0c8";
const ID: u128 = 0x67e55044_10b1_426f_9247_bb680e5fe0c8;

fn report(session: bool) -> Report {
    Report {
        addrs: vec!["10.0.0.5".to_string()],
        port: 7777,
        state: GameServerState::InGame,
        orchestration: GameServerOrchestration::Agones,
        game_session_id: if session { Some(9) } else { None },
        max_players: 4,
        active_player_ids: if session { Some(vec![1]) } else { None },
        pending_player_ids: if session { Some(vec![2, 3]) } else { None },
    }
}

fn server(state: GameServerState, session: Option<u128>) -> GameServerInfo {
    GameServerInfo {
        server_id: ID,
        addrs: vec!["10.0.0.5".to_string(), "10.0.0.6".to_string()],
        port: 7777,
        state,
        orchestration: GameServerOrchestration::Local,
        game_session_id: session,
    }
}

#[test]
fn token_is_the_players_uuid() {
    assert_eq!(User::read_from_token(ID_TEXT), Ok(User { user_id: ID }));
    assert_eq!(
        User::read_from_token("67e5504410b1426f9247bb680e5fe0c8"),
        Ok(User { user_id: ID })
    );
}

#[test]
fn malformed_token_is_refused() {
    assert_eq!(User::read_from_token("not-a-uuid"), Err(UserError::InvalidToken));
    assert_eq!(User::read_from_token(""), Err(UserError::InvalidToken));
}

#[test]
fn read_from_user_id_always_succeeds() {
    assert_eq!(User::read_from_user_id(5), Ok(User { user_id: 5 }));
}

#[test]
fn server_record_copies_report() {
    let r = GameServerInfo::new(ID, report(true));
    assert_eq!(r.server_id, ID);
    assert_eq!(r.addrs, vec!["10.0.0.5".to_string()]);
    assert_eq!(r.port, 7777);
    assert_eq!(r.state, GameServerState::InGame);
    assert_eq!(r.orchestration, GameServerOrchestration::Agones);
    assert_eq!(r.game_session_id, Some(9));
}

#[test]
fn default_server_record_is_blank() {
    let r = GameServerInfo::default();
    assert_eq!(r.server_id, 0);
    assert!(r.addrs.is_empty());
    assert_eq!(r.state, GameServerState::Init);
    assert_eq!(r.orchestration, GameServerOrchestration::Local);
    assert_eq!(GameServerState::default(), GameServerState::Init);
    assert_eq!(GameServerOrchestration::default(), GameServerOrchestration::Local);
}

#[test]
fn session_record_needs_every_session_field() {
    let s = GameSessionInfo::new(ID, report(true)).unwrap();
    assert_eq!(s.game_session_id, 9);
    assert_eq!(s.server_id, ID);
    assert_eq!(s.max_players, 4);
    assert_eq!(s.player_slots_remaining(), 1);

    let e = GameSessionInfo::new(ID, report(false)).unwrap_err();
    assert_eq!(e, SessionRecordError::MissingGameSessionId);

    let mut r = report(true);
    r.active_player_ids = None;
    assert_eq!(GameSessionInfo::new(ID, r).unwrap_err(), SessionRecordError::MissingActivePlayers);

    let mut r = report(true);
    r.pending_player_ids = None;
    assert_eq!(GameSessionInfo::new(ID, r).unwrap_err(), SessionRecordError::MissingPendingPlayers);
}

#[test]
fn heartbeat_writes_server_and_session_records() {
    let (writes, _reply) = post_heartbeat_v1(ID, PostHeartbeatRequestV1 { server_info: report(true) }, 1000);
    assert_eq!(writes.server.port, 7777);
    assert_eq!(writes.session.as_ref().map(|s| s.game_session_id), Some(9));
    assert_eq!(writes.ttl, HEARTBEAT_TTL);
    assert_eq!(writes.now, 1000);
    assert_eq!(writes.expire_before, 940);

    let (writes, _reply) = post_heartbeat_v1(ID, PostHeartbeatRequestV1 { server_info: report(false) }, 60);
    assert!(writes.session.is_none());
    assert_eq!(writes.expire_before, 0);
}

#[test]
fn backfill_finds_server_of_open_session() {
    let sessions = vec![
        ("not even read".to_string(), 0u64),
        (ID_TEXT.to_string(), 2u64),
    ];
    let (mut search, a) = BackfillSearch::new(sessions, false);
    assert!(matches!(a, BackfillAction::ReadSession(ID)));
    let record = GameSessionInfo {
        game_session_id: ID,
        server_id: 44,
        max_players: 4,
        active_player_ids: vec![],
        pending_player_ids: vec![],
    };
    let a = search.step(BackfillEvent::SessionRead(Some(record)));
    assert!(matches!(a, BackfillAction::ReadServer(44)));
    let a = search.step(BackfillEvent::ServerRead(Some(server(GameServerState::InGame, None))));
    match a {
        BackfillAction::Finished(Some(s)) => assert_eq!(s.port, 7777),
        other => panic!("unexpected {:?}", other),
    }
}

#[test]
fn backfill_removes_stale_sessions_and_moves_on() {
    let sessions = vec![(ID_TEXT.to_string(), 1u64)];
    let (mut search, a) = BackfillSearch::new(sessions, false);
    assert!(matches!(a, BackfillAction::ReadSession(ID)));
    let a = search.step(BackfillEvent::SessionRead(None));
    assert!(matches!(a, BackfillAction::RemoveSession(ID)));
    let a = search.step(BackfillEvent::SessionRemoved);
    assert!(matches!(a, BackfillAction::Finished(None)));
}

#[test]
fn backfill_rejects_bad_session_id() {
    let (_, a) = BackfillSearch::new(vec![("zzz".to_string(), 1u64)], false);
    assert!(matches!(a, BackfillAction::InvalidSessionId));
}

#[test]
fn reservation_search_needs_a_single_session() {
    let sessions = vec![(ID_TEXT.to_string(), 1u64), (ID_TEXT.to_string(), 1u64)];
    let (_, a) = BackfillSearch::new(sessions, true);
    assert!(matches!(a, BackfillAction::Finished(None)));
    let (_, a) = BackfillSearch::new(vec![(ID_TEXT.to_string(), 1u64)], true);
    assert!(matches!(a, BackfillAction::ReadSession(ID)));
}

#[test]
fn allocation_places_waiting_server() {
    let (mut alloc, a) = Allocation::new(5, Some(9));
    assert!(matches!(a, AllocationAction::PopWaitingServer));
    let a = alloc.step(AllocationEvent::Popped(vec![(ID_TEXT.to_string(), 100)]));
    assert!(matches!(a, AllocationAction::ReadServer(ID)));
    let a = alloc.step(AllocationEvent::ServerRead(Some(server(GameServerState::WaitingForPlacement, None))));
    match a {
        AllocationAction::NotifyPlacement { server_id, game_session_id, player_ids } => {
            assert_eq!(server_id, ID);
            assert_eq!(game_session_id, Some(9));
            assert_eq!(player_ids, vec![5]);
        }
        other => panic!("unexpected {:?}", other),
    }
    let a = alloc.step(AllocationEvent::Notified);
    assert!(matches!(a, AllocationAction::PollServer(ID)));
    let a = alloc.step(AllocationEvent::Polled(server(GameServerState::Loading, Some(9))));
    assert!(matches!(a, AllocationAction::PollServer(ID)));
    let a = alloc.step(AllocationEvent::Polled(server(GameServerState::InGame, Some(9))));
    match a {
        AllocationAction::Finished(Some(s)) => {
            let resp = find_server_response(&Some(s));
            assert_eq!(resp.address, "10.0.0.5");
            assert_eq!(resp.port, 7777);
        }
        other => panic!("unexpected {:?}", other),
    }
}

#[test]
fn allocation_gives_up_without_idle_server() {
    let (mut alloc, _) = Allocation::new(5, None);
    let a = alloc.step(AllocationEvent::Popped(vec![]));
    assert!(matches!(a, AllocationAction::Finished(None)));
}

#[test]
fn allocation_refuses_busy_or_missing_server() {
    let (mut alloc, _) = Allocation::new(5, None);
    alloc.step(AllocationEvent::Popped(vec![(ID_TEXT.to_string(), 1)]));
    let a = alloc.step(AllocationEvent::ServerRead(Some(server(GameServerState::InGame, None))));
    assert!(matches!(a, AllocationAction::Finished(None)));

    let (mut alloc, _) = Allocation::new(5, None);
    alloc.step(AllocationEvent::Popped(vec![(ID_TEXT.to_string(), 1)]));
    let a = alloc.step(AllocationEvent::ServerRead(None));
    assert!(matches!(a, AllocationAction::Finished(None)));
}

#[test]
fn allocation_times_out() {
    let (mut alloc, _) = Allocation::new(5, None);
    alloc.step(AllocationEvent::Popped(vec![(ID_TEXT.to_string(), 1)]));
    alloc.step(AllocationEvent::ServerRead(Some(server(GameServerState::WaitingForPlacement, None))));
    alloc.step(AllocationEvent::Notified);
    let a = alloc.step(AllocationEvent::TimedOut);
    assert!(matches!(a, AllocationAction::Finished(None)));
}

#[test]
fn allocation_rejects_bad_server_id() {
    let (mut alloc, _) = Allocation::new(5, None);
    let a = alloc.step(AllocationEvent::Popped(vec![("nope".to_string(), 1)]));
    assert!(matches!(a, AllocationAction::InvalidServerId));
}

#[test]
fn no_server_means_empty_answer() {
    let resp = find_server_response(&None);
    assert_eq!(resp.address, "");
    assert_eq!(resp.port, 0);
    let d = FindServerResponseV1::default();
    assert!(d.address.is_empty());
}

#[test]
fn parsed_token_decides_user() {
    assert_eq!(User::token_user_id(Some(7)), Ok(7));
    assert_eq!(User::token_user_id(None), Err(UserError::InvalidToken));
}

#[test]
fn parsed_identifiers_decide_lookups() {
    let (phase, action) = session_lookup(3, Some(9));
    assert_eq!(phase, BackfillPhase::AwaitSession { index: 3, session_id: 9 });
    assert!(matches!(action, BackfillAction::ReadSession(9)));
    let (phase, action) = session_lookup(3, None);
    assert_eq!(phase, BackfillPhase::Done);
    assert!(matches!(action, BackfillAction::InvalidSessionId));
    let (phase, action) = server_lookup(Some(4));
    assert_eq!(phase, AllocationPhase::AwaitServer { server_id: 4 });
    assert!(matches!(action, AllocationAction::ReadServer(4)));
    let (phase, action) = server_lookup(None);
    assert_eq!(phase, AllocationPhase::Done);
    assert!(matches!(action, AllocationAction::InvalidServerId));
}

#[test]
fn allocation_moves_on_when_server_hosts_another_session() {
    let (mut alloc, _) = Allocation::new(5, Some(9));
    alloc.step(AllocationEvent::Popped(vec![(ID_TEXT.to_string(), 100)]));
    alloc.step(AllocationEvent::ServerRead(Some(server(GameServerState::WaitingForPlacement, None))));
    alloc.step(AllocationEvent::Notified);
    let a = alloc.step(AllocationEvent::Polled(server(GameServerState::InGame, Some(8))));
    assert!(matches!(a, AllocationAction::PopWaitingServer));
    assert_eq!(alloc.phase, AllocationPhase::AwaitPop);
    let a = alloc.step(AllocationEvent::Popped(vec![]));
    assert!(matches!(a, AllocationAction::Finished(None)));
}

#[test]
fn token_forms_the_uuid_parser_takes() {
    assert_eq!(User::read_from_token("{67e55044-10b1-426f-9247-bb680e5fe0c8}"), Ok(User { user_id: ID }));
    assert_eq!(User::read_from_token("urn:uuid:67e55044-10b1-426f-9247-bb680e5fe0c8"), Ok(User { user_id: ID }));
    assert_eq!(User::read_from_token("67E55044-10B1-426F-9247-BB680E5FE0C8"), Ok(User { user_id: ID }));
    assert_eq!(User::read_from_token("67e55044-10b1-426f-9247_bb680e5fe0c8"), Err(UserError::InvalidToken));
    assert_eq!(User::read_from_token("[67e55044-10b1-426f-9247-bb680e5fe0c8]"), Err(UserError::InvalidToken));
    assert_eq!(User::read_from_token("67e5504410b1426f9247bb680e5fe0cg"), Err(UserError::InvalidToken));
}

#[test]
fn find_server_refuses_a_bad_token_before_reading_the_store() {
    assert_eq!(FindServer::start("not-a-uuid").err(), Some(UserError::InvalidToken));
}

#[test]
fn find_server_tries_backfill_before_placement() {
    let (f, a) = FindServer::start(ID_TEXT).unwrap();
    assert_eq!(f.user_id, ID);
    assert!(matches!(a, FindServerAction::ListBackfill));
    // no session awaits backfill: an idle server is taken
    let (f, a) = f.step(FindServerEvent::BackfillListed(vec![(ID_TEXT.to_string(), 0)]));
    assert!(matches!(a, FindServerAction::Allocate(AllocationAction::PopWaitingServer)));
    let (f, a) = f.step(FindServerEvent::Allocate(AllocationEvent::Popped(vec![])));
    assert!(matches!(a, FindServerAction::Respond(None)));
    assert!(matches!(f.state, FindServerState::Done));
}

#[test]
fn find_server_answers_with_backfill_server() {
    let (f, _) = FindServer::start(ID_TEXT).unwrap();
    let (f, a) = f.step(FindServerEvent::BackfillListed(vec![(ID_TEXT.to_string(), 2)]));
    assert!(matches!(a, FindServerAction::Backfill(BackfillAction::ReadSession(ID))));
    let session = GameSessionInfo::new(ID, report(true)).unwrap();
    let (f, a) = f.step(FindServerEvent::Backfill(BackfillEvent::SessionRead(Some(session))));
    assert!(matches!(a, FindServerAction::Backfill(BackfillAction::ReadServer(ID))));
    let (_, a) = f.step(FindServerEvent::Backfill(BackfillEvent::ServerRead(Some(server(
        GameServerState::InGame,
        Some(9),
    )))));
    match a {
        FindServerAction::Respond(Some(s)) => {
            let resp = find_server_response(&Some(s));
            assert_eq!(resp.address, "10.0.0.5");
            assert_eq!(resp.port, 7777);
        }
        other => panic!("unexpected {:?}", other),
    }
}

#[test]
fn a_written_uuid_reads_back() {
    for v in [0u128, 1, ID, u128::MAX, 0x0000_0000_0000_4000_8000_0000_0000_00ff] {
        let text = uuid::Uuid::from_u128(v).to_string();
        assert_eq!(User::read_from_token(&text), Ok(User { user_id: v }));
    }
}
