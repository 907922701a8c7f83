//! Placement requests: an idle game server starts hosting a session.
use vstd::prelude::*;

use crate::notifs::{AppState, PlacementRequestV1};
use crate::session::{GameSessionInfo, GameSettings, PendingPlayer, SessionView};
use crate::timer::TimerView;
use crate::session::{PENDING_PLAYER_TIMEOUT_NANOS, SESSION_SHUTDOWN_TIMEOUT_NANOS};

verus! {

/// What a placement request leads to.
#[derive(Debug)]
pub enum PlacementOutcome {
    /// The request is ignored: the server is not waiting for placement, or
    /// the request names more players than a session holds.
    Ignored,
    /// The session starts: it is to be installed, its reservations spawned,
    /// and the server moved to `next_state`.
    Started { session: GameSessionInfo, spawn: Vec<PendingPlayer>, next_state: AppState },
}

/// Handles a placement request under the settings of the game to host.
pub fn handle_v1(current_state: AppState, settings: &GameSettings, request: PlacementRequestV1) -> (r:
    PlacementOutcome)
    ensures
        current_state != AppState::WaitForPlacement || request.player_ids@.len() > settings.max_players
            ==> r is Ignored,
        current_state == AppState::WaitForPlacement && request.player_ids@.len() <= settings.max_players
            ==> match r {
            PlacementOutcome::Started { session, spawn, next_state } => {
                &&& next_state == AppState::InitServer
                &&& session.wf()
                &&& session@ == (SessionView {
                    session_id: request.game_session_id,
                    max_players: settings.max_players,
                    pending: request.player_ids@.len(),
                    active: 0,
                    clients: Map::empty(),
                    shutdown_timer: TimerView::fresh(SESSION_SHUTDOWN_TIMEOUT_NANOS as nat).with_paused(true),
                })
                &&& spawn@.len() == request.player_ids@.len()
                &&& forall|i: int|
                    0 <= i < spawn@.len() ==> {
                        &&& (#[trigger] spawn@[i]).user_id == request.player_ids@[i]
                        &&& spawn@[i].wf()
                        &&& spawn@[i].deadline() == TimerView::fresh(PENDING_PLAYER_TIMEOUT_NANOS as nat)
                    }
            },
            PlacementOutcome::Ignored => false,
        },
{
    if current_state != AppState::WaitForPlacement {
        return PlacementOutcome::Ignored;
    }
    if request.player_ids.len() > settings.max_players as usize {
        return PlacementOutcome::Ignored;
    }
    let (session, spawn) = GameSessionInfo::new(request.game_session_id, settings, request.player_ids.as_slice());
    PlacementOutcome::Started { session, spawn, next_state: AppState::InitServer }
}

} // verus!
