//! The game server's per-frame decisions about its session.
use vstd::prelude::*;

use crate::ids::{ClientId, EntityId, UserId};
use crate::player::{find_players_of_client, players_of_client, Player};
use crate::session::{
    disconnected_despawns, disconnected_view, GameSessionInfo, PendingPlayer, SessionView,
};
use crate::timer::MAX_DURATION_NANOS;

verus! {

/// Whether a reservation's deadline passes within the next `delta`
/// nanoseconds.
pub open spec fn times_out(p: PendingPlayer, delta: nat) -> bool {
    p.deadline().ticked(delta).finished
}

/// The entities of the reservations that time out, in order.
pub open spec fn timed_out_entities(players: Seq<(EntityId, PendingPlayer)>, delta: nat) -> Seq<EntityId>
    decreases players.len(),
{
    if players.len() == 0 {
        Seq::empty()
    } else {
        let rest = timed_out_entities(players.drop_last(), delta);
        if times_out(players.last().1, delta) {
            rest.push(players.last().0)
        } else {
            rest
        }
    }
}

/// The session once `k` reservations timed out: the slots are freed, and
/// the shutdown timer restarts if the session became empty.
pub open spec fn after_timeouts(s: SessionView, k: nat) -> SessionView {
    SessionView {
        pending: (s.pending - k) as nat,
        shutdown_timer: if k > 0 && s.player_count() - k == 0 {
            SessionView::emptied_timer(s.shutdown_timer)
        } else {
            s.shutdown_timer
        },
        ..s
    }
}

/// What a frame's timeouts lead to.
#[derive(Debug)]
pub struct TimeoutOutcome {
    /// Reservations to despawn.
    pub despawn: Vec<EntityId>,
    /// Whether the session has stayed empty long enough for the server to
    /// exit.
    pub exit: bool,
}

/// Lets `delta` nanoseconds pass: each reservation whose deadline passes
/// gives its slot back, and, when the backend recycles empty servers
/// (`shutdown_empty`), the session's shutdown timer runs on. The
/// reservations given must be the session's, so that no more of them time
/// out than it counts.
pub fn handle_timeouts(
    session_info: &mut GameSessionInfo,
    pending_players: &mut Vec<(EntityId, PendingPlayer)>,
    shutdown_empty: bool,
    delta: u128,
) -> (r: TimeoutOutcome)
    requires
        old(session_info).wf(),
        delta <= MAX_DURATION_NANOS,
        forall|i: int| 0 <= i < old(pending_players)@.len() ==> (#[trigger] old(pending_players)@[i]).1.wf(),
        timed_out_entities(old(pending_players)@, delta as nat).len() <= old(session_info)@.pending,
    ensures
        final(session_info).wf(),
        final(pending_players)@.len() == old(pending_players)@.len(),
        forall|i: int|
            0 <= i < final(pending_players)@.len() ==> {
                &&& (#[trigger] final(pending_players)@[i]).0 == old(pending_players)@[i].0
                &&& final(pending_players)@[i].1.user_id == old(pending_players)@[i].1.user_id
                &&& final(pending_players)@[i].1.wf()
                &&& final(pending_players)@[i].1.deadline() == old(pending_players)@[i].1.deadline().ticked(
                    delta as nat,
                )
            },
        r.despawn@ == timed_out_entities(old(pending_players)@, delta as nat),
        ({
            let s1 = after_timeouts(old(session_info)@, r.despawn@.len());
            &&& shutdown_empty ==> final(session_info)@ == (SessionView {
                shutdown_timer: s1.shutdown_timer.ticked(delta as nat),
                ..s1
            })
            &&& !shutdown_empty ==> final(session_info)@ == s1
            &&& r.exit == (shutdown_empty && final(session_info)@.shutdown_timer.finished)
        }),
{
    let ghost old_players = pending_players@;
    let ghost start = session_info@;
    let mut despawn: Vec<EntityId> = Vec::new();
    let mut i: usize = 0;
    while i < pending_players.len()
        invariant
            i <= pending_players@.len(),
            pending_players@.len() == old_players.len(),
            start.valid(),
            timed_out_entities(old_players, delta as nat).len() <= start.pending,
            delta <= MAX_DURATION_NANOS,
            forall|k: int| 0 <= k < old_players.len() ==> (#[trigger] old_players[k]).1.wf(),
            forall|k: int|
                i <= k < pending_players@.len() ==> #[trigger] pending_players@[k] == old_players[k],
            forall|k: int|
                0 <= k < i ==> {
                    &&& (#[trigger] pending_players@[k]).0 == old_players[k].0
                    &&& pending_players@[k].1.user_id == old_players[k].1.user_id
                    &&& pending_players@[k].1.wf()
                    &&& pending_players@[k].1.deadline() == old_players[k].1.deadline().ticked(delta as nat)
                },
            despawn@ == timed_out_entities(old_players.take(i as int), delta as nat),
            session_info.wf(),
            session_info@ == after_timeouts(start, despawn@.len()),
        decreases pending_players.len() - i,
    {
        proof {
            lemma_timed_out_prefix(old_players, delta as nat, i as int + 1);
            assert(old_players.take(i + 1).drop_last() == old_players.take(i as int));
        }
        let mut entry = pending_players[i];
        let timed_out = entry.1.is_timeout(delta);
        let entity = entry.0;
        let user_id = entry.1.user_id;
        pending_players.set(i, entry);
        if timed_out {
            session_info.pending_player_timeout(entity, user_id);
            despawn.push(entity);
        }
        i = i + 1;
    }
    assert(old_players.take(old_players.len() as int) == old_players);
    let exit = shutdown_empty && session_info.update_shutdown_timer(delta);
    TimeoutOutcome { despawn, exit }
}

/// Reservations that time out among a prefix are no more than among the
/// whole list.
pub proof fn lemma_timed_out_prefix(players: Seq<(EntityId, PendingPlayer)>, delta: nat, n: int)
    requires
        0 <= n <= players.len(),
    ensures
        timed_out_entities(players.take(n), delta).len() <= timed_out_entities(players, delta).len(),
    decreases players.len() - n,
{
    if n < players.len() {
        lemma_timed_out_prefix(players, delta, n + 1);
        assert(players.take(n + 1).drop_last() == players.take(n));
    } else {
        assert(players.take(n) == players);
    }
}

/// A network client has disconnected: the bodies of the players it drove
/// are despawned, and the session forgets the client (see
/// [`GameSessionInfo::client_disconnected`]). Answers the entities to
/// despawn: the bodies, then the reservation and active-player entities.
pub fn handle_client_disconnected(
    session_info: &mut GameSessionInfo,
    client_id: ClientId,
    players: &[(EntityId, Player)],
    pending_players: &[(EntityId, UserId)],
    active_players: &[(EntityId, UserId)],
) -> (despawn: Vec<EntityId>)
    requires
        old(session_info).wf(),
        old(session_info)@.clients.contains_key(client_id) ==> {
            let user_id = old(session_info)@.clients[client_id];
            &&& crate::session::find_entity(pending_players@, user_id) is Some ==> old(session_info)@.pending > 0
            &&& crate::session::find_entity(active_players@, user_id) is Some ==> old(session_info)@.active > 0
        },
    ensures
        final(session_info).wf(),
        final(session_info)@ == disconnected_view(old(session_info)@, client_id, pending_players@, active_players@),
        despawn@ == players_of_client(players@, client_id) + disconnected_despawns(
            old(session_info)@,
            client_id,
            pending_players@,
            active_players@,
        ),
{
    let mut despawn = find_players_of_client(players, client_id);
    let mut more = session_info.client_disconnected(&client_id, pending_players, active_players);
    despawn.append(&mut more);
    despawn
}

/// The clients among `clients` that belong to no player of the session, in
/// order.
pub open spec fn unknown_clients(s: SessionView, clients: Seq<ClientId>) -> Seq<ClientId>
    decreases clients.len(),
{
    if clients.len() == 0 {
        Seq::empty()
    } else {
        let rest = unknown_clients(s, clients.drop_last());
        if s.clients.contains_key(clients.last()) {
            rest
        } else {
            rest.push(clients.last())
        }
    }
}

/// Input and jump events are only taken from the session's own clients.
/// Given the clients that sent events this frame, answers those to
/// disconnect: the ones that are not the session's, in order.
pub fn clients_to_disconnect(session_info: &GameSessionInfo, senders: &[ClientId]) -> (r: Vec<ClientId>)
    ensures
        r@ == unknown_clients(session_info@, senders@),
{
    let mut r: Vec<ClientId> = Vec::new();
    let mut i: usize = 0;
    while i < senders.len()
        invariant
            i <= senders@.len(),
            r@ == unknown_clients(session_info@, senders@.take(i as int)),
        decreases senders.len() - i,
    {
        let client_id = senders[i];
        assert(senders@.take(i + 1).drop_last() == senders@.take(i as int));
        assert(senders@.take(i + 1).last() == client_id);
        if !session_info.has_client(&client_id) {
            r.push(client_id);
        }
        i = i + 1;
    }
    assert(senders@.take(senders@.len() as int) == senders@);
    r
}

} // verus!
