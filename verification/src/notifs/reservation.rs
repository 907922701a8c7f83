//! Reservation requests: a hosting game server takes in more players.
use vstd::prelude::*;

use crate::notifs::{AppState, ReservationRequestV1};
use crate::session::{GameSessionInfo, PendingPlayer, SessionView, PENDING_PLAYER_TIMEOUT_NANOS};
use crate::timer::TimerView;

verus! {

/// What a reservation request leads to.
#[derive(Debug)]
pub enum ReservationOutcome {
    /// The request is ignored: the server is not hosting, or the session
    /// lacks room for all the players named.
    Ignored,
    /// Every named player got a slot: the reservations are to be spawned
    /// and a heartbeat sent.
    Reserved { spawn: Vec<PendingPlayer> },
}

/// The session after slots were reserved for `n` more players.
pub open spec fn reserved_view(s: SessionView, n: nat) -> SessionView {
    SessionView {
        pending: s.pending + n,
        shutdown_timer: if n > 0 { s.shutdown_timer.with_paused(true) } else { s.shutdown_timer },
        ..s
    }
}

/// Handles a reservation request: all of its players get a slot, or none.
pub fn handle_v1(
    current_state: AppState,
    session_info: &mut GameSessionInfo,
    request: ReservationRequestV1,
) -> (r: ReservationOutcome)
    requires
        old(session_info).wf(),
    ensures
        final(session_info).wf(),
        current_state != AppState::InGame || old(session_info)@.player_count() + request.player_ids@.len()
            > old(session_info)@.max_players ==> {
            &&& r is Ignored
            &&& final(session_info)@ == old(session_info)@
        },
        current_state == AppState::InGame && old(session_info)@.player_count() + request.player_ids@.len()
            <= old(session_info)@.max_players ==> {
            &&& final(session_info)@ == reserved_view(old(session_info)@, request.player_ids@.len())
            &&& match r {
                ReservationOutcome::Reserved { spawn } => {
                    &&& spawn@.len() == request.player_ids@.len()
                    &&& forall|i: int|
                        0 <= i < spawn@.len() ==> {
                            &&& (#[trigger] spawn@[i]).user_id == request.player_ids@[i]
                            &&& spawn@[i].wf()
                            &&& spawn@[i].deadline() == TimerView::fresh(PENDING_PLAYER_TIMEOUT_NANOS as nat)
                        }
                },
                ReservationOutcome::Ignored => false,
            }
        },
{
    if current_state != AppState::InGame {
        return ReservationOutcome::Ignored;
    }
    // the session holds at most `max_players`, so the subtraction is exact
    if request.player_ids.len() > session_info.max_players() as usize - session_info.player_count() {
        return ReservationOutcome::Ignored;
    }
    let ghost start = session_info@;
    let mut spawn: Vec<PendingPlayer> = Vec::new();
    let mut i: usize = 0;
    while i < request.player_ids.len()
        invariant
            i <= request.player_ids@.len(),
            start.valid(),
            start.player_count() + request.player_ids@.len() <= start.max_players,
            session_info.wf(),
            session_info@ == reserved_view(start, i as nat),
            spawn@.len() == i,
            forall|k: int|
                0 <= k < spawn@.len() ==> {
                    &&& (#[trigger] spawn@[k]).user_id == request.player_ids@[k]
                    &&& spawn@[k].wf()
                    &&& spawn@[k].deadline() == TimerView::fresh(PENDING_PLAYER_TIMEOUT_NANOS as nat)
                },
        decreases request.player_ids.len() - i,
    {
        let p = session_info.reserve_player(request.player_ids[i]);
        match p {
            Some(p) => spawn.push(p),
            None => {},
        }
        i = i + 1;
    }
    ReservationOutcome::Reserved { spawn }
}

} // verus!
