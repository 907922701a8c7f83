//! The records the backend keeps of game servers and game sessions.
use vstd::prelude::*;

use crate::gameserver::{
    copy_ids, copy_strings, opt_ids_view, GameServerInfo as ServerReport, GameServerInfoView,
    GameServerOrchestration, GameServerState,
};
use crate::ids::UserId;

verus! {

/// The backend's record of a game server.
#[derive(Debug)]
pub struct GameServerInfo {
    pub server_id: u128,
    pub addrs: Vec<String>,
    pub port: u16,
    pub state: GameServerState,
    pub orchestration: GameServerOrchestration,
    pub game_session_id: Option<u128>,
}

pub struct GameServerRecordView {
    pub server_id: u128,
    pub addrs: Seq<Seq<char>>,
    pub port: u16,
    pub state: GameServerState,
    pub orchestration: GameServerOrchestration,
    pub game_session_id: Option<u128>,
}

impl View for GameServerInfo {
    type V = GameServerRecordView;

    open spec fn view(&self) -> GameServerRecordView {
        GameServerRecordView {
            server_id: self.server_id,
            addrs: self.addrs.deep_view(),
            port: self.port,
            state: self.state,
            orchestration: self.orchestration,
            game_session_id: self.game_session_id,
        }
    }
}

/// The record the backend keeps of a server's report.
pub open spec fn server_record(server_id: u128, report: GameServerInfoView) -> GameServerRecordView {
    GameServerRecordView {
        server_id,
        addrs: report.addrs,
        port: report.port,
        state: report.state,
        orchestration: report.orchestration,
        game_session_id: report.game_session_id,
    }
}

impl Default for GameServerInfo {
    fn default() -> (r: Self)
        ensures
            r@ == (GameServerRecordView {
                server_id: 0,
                addrs: Seq::empty(),
                port: 0,
                state: GameServerState::Init,
                orchestration: GameServerOrchestration::Local,
                game_session_id: None,
            }),
    {
        let addrs: Vec<String> = Vec::new();
        assert(addrs.deep_view() =~= Seq::<Seq<char>>::empty());
        GameServerInfo {
            server_id: 0,
            addrs,
            port: 0,
            state: GameServerState::Init,
            orchestration: GameServerOrchestration::Local,
            game_session_id: None,
        }
    }
}

impl GameServerInfo {
    /// The record of a server's report.
    pub fn new(server_id: u128, server_info: ServerReport) -> (r: Self)
        ensures
            r@ == server_record(server_id, server_info@),
    {
        GameServerInfo {
            server_id,
            addrs: server_info.addrs,
            port: server_info.port,
            state: server_info.state,
            orchestration: server_info.orchestration,
            game_session_id: server_info.game_session_id,
        }
    }

    /// A copy of the record, field for field.
    pub fn duplicate(&self) -> (r: Self)
        ensures
            r@ == self@,
    {
        GameServerInfo {
            server_id: self.server_id,
            addrs: copy_strings(&self.addrs),
            port: self.port,
            state: self.state,
            orchestration: self.orchestration,
            game_session_id: self.game_session_id,
        }
    }
}

/// Why a server's report holds no session.
#[derive(Debug, Clone, Copy, PartialEq, Eq, Structural)]
pub enum SessionRecordError {
    MissingGameSessionId,
    MissingActivePlayers,
    MissingPendingPlayers,
}

/// The backend's record of a game session.
#[derive(Debug)]
pub struct GameSessionInfo {
    pub game_session_id: u128,
    pub server_id: u128,
    pub max_players: u16,
    pub active_player_ids: Vec<UserId>,
    pub pending_player_ids: Vec<UserId>,
}

pub struct GameSessionRecordView {
    pub game_session_id: u128,
    pub server_id: u128,
    pub max_players: u16,
    pub active_player_ids: Seq<UserId>,
    pub pending_player_ids: Seq<UserId>,
}

impl View for GameSessionInfo {
    type V = GameSessionRecordView;

    open spec fn view(&self) -> GameSessionRecordView {
        GameSessionRecordView {
            game_session_id: self.game_session_id,
            server_id: self.server_id,
            max_players: self.max_players,
            active_player_ids: self.active_player_ids@,
            pending_player_ids: self.pending_player_ids@,
        }
    }
}

/// The session record a server's report yields, or why it yields none:
/// the session id, the active players and the pending players must all be
/// reported, and are looked for in that order.
pub open spec fn session_record(server_id: u128, report: GameServerInfoView) -> Result<
    GameSessionRecordView,
    SessionRecordError,
> {
    match (report.game_session_id, report.active_player_ids, report.pending_player_ids) {
        (None, _, _) => Err(SessionRecordError::MissingGameSessionId),
        (Some(_), None, _) => Err(SessionRecordError::MissingActivePlayers),
        (Some(_), Some(_), None) => Err(SessionRecordError::MissingPendingPlayers),
        (Some(id), Some(active), Some(pending)) => Ok(
            GameSessionRecordView {
                game_session_id: id,
                server_id,
                max_players: report.max_players,
                active_player_ids: active,
                pending_player_ids: pending,
            },
        ),
    }
}

pub open spec fn session_result_view(r: Result<GameSessionInfo, SessionRecordError>) -> Result<
    GameSessionRecordView,
    SessionRecordError,
> {
    match r {
        Ok(s) => Ok(s@),
        Err(e) => Err(e),
    }
}

/// Slots used of a session, as the record counts them: the player count
/// taken modulo 2^16.
pub open spec fn used_slots(s: GameSessionRecordView) -> nat {
    (s.active_player_ids.len() + s.pending_player_ids.len()) % 0x1_0000
}

impl GameSessionInfo {
    /// The session record of a server's report.
    pub fn new(server_id: u128, server_info: ServerReport) -> (r: Result<Self, SessionRecordError>)
        ensures
            session_result_view(r) == session_record(server_id, server_info@),
    {
        let game_session_id = match server_info.game_session_id {
            Some(id) => id,
            None => return Err(SessionRecordError::MissingGameSessionId),
        };
        let active_player_ids = match server_info.active_player_ids {
            Some(ids) => ids,
            None => return Err(SessionRecordError::MissingActivePlayers),
        };
        let pending_player_ids = match server_info.pending_player_ids {
            Some(ids) => ids,
            None => return Err(SessionRecordError::MissingPendingPlayers),
        };
        Ok(
            GameSessionInfo {
                game_session_id,
                server_id,
                max_players: server_info.max_players,
                active_player_ids,
                pending_player_ids,
            },
        )
    }

    /// Slots still free in the session. The player count is taken as a
    /// 16-bit number; a session must not count more players than that
    /// number of slots.
    pub fn player_slots_remaining(&self) -> (n: u16)
        requires
            self.active_player_ids@.len() + self.pending_player_ids@.len() <= usize::MAX,
            used_slots(self@) <= self.max_players,
        ensures
            n == self.max_players - used_slots(self@),
    {
        let used_slots = self.active_player_ids.len() + self.pending_player_ids.len();
        self.max_players - (used_slots % 0x1_0000) as u16
    }
}

} // verus!
