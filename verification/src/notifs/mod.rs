//! Notifications the backend sends a game server, and how the server
//! answers them.
use vstd::prelude::*;

use crate::ids::UserId;

pub mod placement;
pub mod reservation;

verus! {

/// The phases of a game server process.
#[derive(Debug, Clone, Copy, PartialEq, Eq, Structural)]
pub enum AppState {
    /// Starting up; the orchestration backend is not ready yet.
    Init,
    /// Ready and announced; waiting for the backend to place a session.
    WaitForPlacement,
    /// A session was placed; the network is being brought up.
    InitServer,
    /// Hosting the session.
    InGame,
    /// Shutting down.
    Shutdown,
}

/// The backend asks an idle server to host a new session for some players.
#[derive(Debug)]
pub struct PlacementRequestV1 {
    pub game_session_id: u128,
    pub player_ids: Vec<UserId>,
}

/// The backend asks a hosting server to reserve slots for more players.
#[derive(Debug)]
pub struct ReservationRequestV1 {
    pub player_ids: Vec<UserId>,
}

} // verus!
