//! The game server's identity.
use vstd::prelude::*;

use crate::addrtext::{in_text_order, v4_texts, v6_texts};
use crate::gameserver::{
    copy_ids, GameServerInfo as ServerReport, GameServerInfoView, GameServerOrchestration,
    GameServerState, PostHeartbeatRequestV1,
};
use crate::ids::{is_v4_uuid, random_uuid, UserId};
use crate::network::ConnectionInfo;
use crate::session::GameSessionInfo;

verus! {

/// A game server: its identifier and where clients reach it.
#[derive(Debug)]
pub struct GameServerInfo {
    pub server_id: u128,
    pub connection_info: ConnectionInfo,
}

impl GameServerInfo {
    /// A server with a fresh random identifier and nothing advertised yet.
    pub fn new() -> (s: GameServerInfo)
        ensures
            is_v4_uuid(s.server_id),
            s.connection_info.v4addrs@ == Set::<u32>::empty(),
            s.connection_info.v6addrs@ == Set::<u128>::empty(),
            s.connection_info.port == 0,
    {
        GameServerInfo { server_id: random_uuid(), connection_info: ConnectionInfo::default() }
    }
}

/// The session part of a heartbeat report: identifier and size of the
/// session, or nothing when the server hosts none.
pub struct HostedSession {
    pub session_id: u128,
    pub max_players: u16,
}

/// The report a server sends in a heartbeat: its advertised addresses and
/// port, its state and backend, and, when it hosts a session, the session's
/// identifier, size and players. Without a session no player lists are
/// sent and the size is 0.
pub open spec fn heartbeat_report(
    addrs: Seq<Seq<char>>,
    port: u16,
    state: GameServerState,
    orchestration: GameServerOrchestration,
    session: Option<HostedSession>,
    pending_player_ids: Seq<UserId>,
    active_player_ids: Seq<UserId>,
) -> GameServerInfoView {
    GameServerInfoView {
        addrs,
        port,
        state,
        orchestration,
        game_session_id: match session {
            Some(s) => Some(s.session_id),
            None => None,
        },
        max_players: match session {
            Some(s) => s.max_players,
            None => 0,
        },
        active_player_ids: match session {
            Some(_) => Some(active_player_ids),
            None => None,
        },
        pending_player_ids: match session {
            Some(_) => Some(pending_player_ids),
            None => None,
        },
    }
}

pub open spec fn hosted(session: Option<&GameSessionInfo>) -> Option<HostedSession> {
    match session {
        Some(s) => Some(HostedSession { session_id: s@.session_id, max_players: s@.max_players }),
        None => None,
    }
}

/// The addresses a heartbeat reports: the advertised IPv4 addresses, then
/// the advertised IPv6 addresses, each group in ascending order of its
/// text.
pub open spec fn advertised_addrs(connection_info: ConnectionInfo) -> Seq<Seq<char>> {
    in_text_order(v4_texts(connection_info.v4addrs@)) + in_text_order(
        v6_texts(connection_info.v6addrs@),
    )
}

/// The body of the heartbeat a server sends: what it advertises (see
/// [`advertised_addrs`]), its state and backend, and its session with the
/// players of its reservation and active-player entities.
pub fn heartbeat(
    connection_info: &ConnectionInfo,
    state: GameServerState,
    orchestration: GameServerOrchestration,
    session_info: Option<&GameSessionInfo>,
    pending_player_ids: &Vec<UserId>,
    active_player_ids: &Vec<UserId>,
) -> (r: PostHeartbeatRequestV1)
    ensures
        r.server_info@ == heartbeat_report(
            advertised_addrs(*connection_info),
            connection_info.port,
            state,
            orchestration,
            hosted(session_info),
            pending_player_ids@,
            active_player_ids@,
        ),
{
    let mut addrs = connection_info.v4_strings();
    let mut v6 = connection_info.v6_strings();
    let ghost v4view = addrs.deep_view();
    let ghost v6view = v6.deep_view();
    addrs.append(&mut v6);
    assert(addrs.deep_view() =~= v4view + v6view);
    let port = connection_info.port;
    let server_info = match session_info {
        Some(session) => ServerReport {
            addrs,
            port,
            state,
            orchestration,
            game_session_id: Some(session.session_id()),
            max_players: session.max_players(),
            active_player_ids: Some(copy_ids(active_player_ids)),
            pending_player_ids: Some(copy_ids(pending_player_ids)),
        },
        None => ServerReport {
            addrs,
            port,
            state,
            orchestration,
            game_session_id: None,
            max_players: 0,
            active_player_ids: None,
            pending_player_ids: None,
        },
    };
    PostHeartbeatRequestV1 { server_info }
}

} // verus!
