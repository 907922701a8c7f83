//! The messages that game servers, game clients and the backend exchange.
use vstd::prelude::*;

use crate::ids::UserId;

verus! {

/// Where a game server stands in its life.
#[derive(Debug, Clone, Copy, PartialEq, Eq, Structural)]
pub enum GameServerState {
    Init,
    WaitingForPlacement,
    Loading,
    InGame,
    Shutdown,
}

impl Default for GameServerState {
    fn default() -> (s: Self)
        ensures
            s == GameServerState::Init,
    {
        GameServerState::Init
    }
}

/// Which orchestration backend runs a game server.
#[derive(Debug, Clone, Copy, PartialEq, Eq, Structural)]
pub enum GameServerOrchestration {
    Local,
    Agones,
    GameLift,
}

impl Default for GameServerOrchestration {
    fn default() -> (o: Self)
        ensures
            o == GameServerOrchestration::Local,
    {
        GameServerOrchestration::Local
    }
}

/// Copies a list of strings, text for text.
pub fn copy_strings(v: &Vec<String>) -> (r: Vec<String>)
    ensures
        r.deep_view() == v.deep_view(),
{
    let mut r: Vec<String> = Vec::new();
    let mut i: usize = 0;
    while i < v.len()
        invariant
            i <= v.len(),
            r.deep_view() == v.deep_view().take(i as int),
        decreases v.len() - i,
    {
        let s = v[i].clone();
        r.push(s);
        assert(v.deep_view().take(i + 1) == v.deep_view().take(i as int).push(v[i as int]@));
        i = i + 1;
    }
    assert(v.deep_view().take(v.len() as int) == v.deep_view());
    r
}

/// Copies a list of identifiers.
pub fn copy_ids(v: &Vec<UserId>) -> (r: Vec<UserId>)
    ensures
        r@ == v@,
{
    let mut r: Vec<UserId> = Vec::new();
    let mut i: usize = 0;
    while i < v.len()
        invariant
            i <= v.len(),
            r@ == v@.take(i as int),
        decreases v.len() - i,
    {
        r.push(v[i]);
        assert(v@.take(i + 1) == v@.take(i as int).push(v@[i as int]));
        i = i + 1;
    }
    assert(v@.take(v.len() as int) == v@);
    r
}

/// Copies an optional list of identifiers.
pub fn copy_opt_ids(v: &Option<Vec<UserId>>) -> (r: Option<Vec<UserId>>)
    ensures
        opt_ids_view(r) == opt_ids_view(*v),
{
    match v {
        Some(ids) => Some(copy_ids(ids)),
        None => None,
    }
}

pub open spec fn opt_ids_view(v: Option<Vec<UserId>>) -> Option<Seq<UserId>> {
    match v {
        Some(ids) => Some(ids@),
        None => None,
    }
}

/// What a game server reports of itself in a heartbeat.
#[derive(Debug)]
pub struct GameServerInfo {
    pub addrs: Vec<String>,
    pub port: u16,
    pub state: GameServerState,
    pub orchestration: GameServerOrchestration,
    pub game_session_id: Option<u128>,
    pub max_players: u16,
    pub active_player_ids: Option<Vec<UserId>>,
    pub pending_player_ids: Option<Vec<UserId>>,
}

pub struct GameServerInfoView {
    pub addrs: Seq<Seq<char>>,
    pub port: u16,
    pub state: GameServerState,
    pub orchestration: GameServerOrchestration,
    pub game_session_id: Option<u128>,
    pub max_players: u16,
    pub active_player_ids: Option<Seq<UserId>>,
    pub pending_player_ids: Option<Seq<UserId>>,
}

impl View for GameServerInfo {
    type V = GameServerInfoView;

    open spec fn view(&self) -> GameServerInfoView {
        GameServerInfoView {
            addrs: self.addrs.deep_view(),
            port: self.port,
            state: self.state,
            orchestration: self.orchestration,
            game_session_id: self.game_session_id,
            max_players: self.max_players,
            active_player_ids: opt_ids_view(self.active_player_ids),
            pending_player_ids: opt_ids_view(self.pending_player_ids),
        }
    }
}

impl GameServerInfo {
    /// A copy of the report, field for field.
    pub fn duplicate(&self) -> (r: GameServerInfo)
        ensures
            r@ == self@,
    {
        GameServerInfo {
            addrs: copy_strings(&self.addrs),
            port: self.port,
            state: self.state,
            orchestration: self.orchestration,
            game_session_id: self.game_session_id,
            max_players: self.max_players,
            active_player_ids: copy_opt_ids(&self.active_player_ids),
            pending_player_ids: copy_opt_ids(&self.pending_player_ids),
        }
    }
}

/// The body of a game server's heartbeat.
#[derive(Debug)]
pub struct PostHeartbeatRequestV1 {
    pub server_info: GameServerInfo,
}

/// The backend's answer to a heartbeat.
#[derive(Debug)]
pub struct PostHeartbeatResponseV1 {}

} // verus!
