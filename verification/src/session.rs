//! The game server's bookkeeping of one game session: how many players hold
//! a reserved slot, how many are playing, which network client is which
//! player, and when an empty session shuts down.
//!
//! Players live as entities of the game world. The functions here take the
//! entities they need to look at as `(entity, user)` pairs and answer with
//! the entities to spawn or despawn; the caller carries that out.
use std::collections::HashMap;

use vstd::prelude::*;

use crate::ids::{ClientId, EntityId, UserId};
use crate::timer::{Timer, TimerView, MAX_DURATION_NANOS};

verus! {

/// How long a reserved slot waits for its player to connect: 10 s.
pub const PENDING_PLAYER_TIMEOUT_NANOS: u128 = 10_000_000_000u128;

/// How long a session may stay empty before it shuts down: 10 min.
pub const SESSION_SHUTDOWN_TIMEOUT_NANOS: u128 = 600_000_000_000u128;

/// Settings of a kind of game.
#[derive(Debug, Clone, Copy, PartialEq, Eq, Structural)]
pub struct GameSettings {
    pub max_players: u16,
}

/// A player who holds a reserved slot but has not connected yet.
#[derive(Debug, Clone, Copy)]
pub struct PendingPlayer {
    pub user_id: UserId,
    pub timer: Timer,
}

impl PendingPlayer {
    /// The state of the player's connect deadline.
    pub open spec fn deadline(&self) -> TimerView {
        self.timer@
    }

    pub open spec fn wf(&self) -> bool {
        &&& self.deadline().valid()
        &&& self.deadline().duration == PENDING_PLAYER_TIMEOUT_NANOS
    }

    /// A reservation for `user_id` whose deadline starts now.
    pub fn new(user_id: UserId) -> (p: PendingPlayer)
        ensures
            p.user_id == user_id,
            p.wf(),
            p.deadline() == TimerView::fresh(PENDING_PLAYER_TIMEOUT_NANOS as nat),
    {
        PendingPlayer { user_id, timer: Timer::new(PENDING_PLAYER_TIMEOUT_NANOS) }
    }

    /// Lets `delta` nanoseconds pass and tells whether the deadline has
    /// passed.
    pub fn is_timeout(&mut self, delta: u128) -> (b: bool)
        requires
            old(self).wf(),
            delta <= MAX_DURATION_NANOS,
        ensures
            final(self).wf(),
            final(self).user_id == old(self).user_id,
            final(self).deadline() == old(self).deadline().ticked(delta as nat),
            b == final(self).deadline().finished,
    {
        self.timer.tick(delta);
        self.timer.finished()
    }
}

/// A player who is connected and playing.
#[derive(Debug, Clone, Copy, PartialEq, Eq, Structural)]
pub struct ActivePlayer {
    pub user_id: UserId,
}

impl ActivePlayer {
    pub fn new(user_id: UserId) -> (p: ActivePlayer)
        ensures
            p.user_id == user_id,
    {
        ActivePlayer { user_id }
    }
}

/// The entity of the first pair whose user is `user_id`.
pub open spec fn find_entity(players: Seq<(EntityId, UserId)>, user_id: UserId) -> Option<EntityId>
    decreases players.len(),
{
    if players.len() == 0 {
        None
    } else if players[0].1 == user_id {
        Some(players[0].0)
    } else {
        find_entity(players.drop_first(), user_id)
    }
}

/// Finds the entity of the first pair whose user is `user_id`.
pub fn find_player_entity(players: &[(EntityId, UserId)], user_id: UserId) -> (r: Option<EntityId>)
    ensures
        r == find_entity(players@, user_id),
{
    let mut i: usize = 0;
    assert(players@.skip(0) == players@);
    while i < players.len()
        invariant
            i <= players@.len(),
            find_entity(players@, user_id) == find_entity(players@.skip(i as int), user_id),
        decreases players.len() - i,
    {
        let (entity, uid) = players[i];
        assert(players@.skip(i as int).drop_first() == players@.skip(i + 1));
        assert(players@.skip(i as int)[0] == players@[i as int]);
        if uid == user_id {
            return Some(entity);
        }
        i = i + 1;
    }
    None
}

/// The mathematical state of a [`GameSessionInfo`].
pub struct SessionView {
    pub session_id: u128,
    pub max_players: u16,
    pub pending: nat,
    pub active: nat,
    pub clients: Map<ClientId, UserId>,
    pub shutdown_timer: TimerView,
}

impl SessionView {
    pub open spec fn player_count(self) -> nat {
        self.pending + self.active
    }

    /// The states a session can reach: never more players than slots, and
    /// the shutdown timer held while anyone is in the session.
    pub open spec fn valid(self) -> bool {
        &&& self.player_count() <= self.max_players
        &&& self.shutdown_timer.valid()
        &&& self.shutdown_timer.duration == SESSION_SHUTDOWN_TIMEOUT_NANOS
        &&& self.player_count() > 0 ==> self.shutdown_timer.paused
    }

    /// The timer after the session has become empty: counting from zero.
    pub open spec fn emptied_timer(t: TimerView) -> TimerView {
        t.reset().with_paused(false)
    }

    /// The shutdown timer as an update of the counts leaves it: restarted
    /// when the session is now empty, unchanged otherwise.
    pub open spec fn timer_after_leave(t: TimerView, count: nat) -> TimerView {
        if count == 0 {
            SessionView::emptied_timer(t)
        } else {
            t
        }
    }
}

/// The game server's bookkeeping of one game session.
#[derive(Debug)]
pub struct GameSessionInfo {
    pub session_id: u128,
    pub max_players: u16,
    pending_player_count: usize,
    active_player_count: usize,
    clients: HashMap<ClientId, UserId>,
    shutdown_timer: Timer,
}

impl View for GameSessionInfo {
    type V = SessionView;

    closed spec fn view(&self) -> SessionView {
        SessionView {
            session_id: self.session_id,
            max_players: self.max_players,
            pending: self.pending_player_count as nat,
            active: self.active_player_count as nat,
            clients: self.clients@,
            shutdown_timer: self.shutdown_timer@,
        }
    }
}

impl GameSessionInfo {
    pub open spec fn wf(&self) -> bool {
        self@.valid()
    }

    /// Opens a session and reserves a slot for each of the given players,
    /// in order, as long as slots remain. Answers the session and the
    /// reservations to spawn.
    pub fn new(session_id: u128, settings: &GameSettings, pending_player_ids: &[UserId]) -> (r: (
        GameSessionInfo,
        Vec<PendingPlayer>,
    ))
        ensures
            r.0.wf(),
            r.0@.session_id == session_id,
            r.0@.max_players == settings.max_players,
            r.0@.active == 0,
            r.0@.clients == Map::<ClientId, UserId>::empty(),
            r.0@.shutdown_timer == TimerView::fresh(
                SESSION_SHUTDOWN_TIMEOUT_NANOS as nat,
            ).with_paused(true),
            r.0@.pending == r.1@.len(),
            r.1@.len() == if pending_player_ids@.len() <= settings.max_players {
                pending_player_ids@.len()
            } else {
                settings.max_players as nat
            },
            forall|i: int|
                0 <= i < r.1@.len() ==> {
                    &&& (#[trigger] r.1@[i]).user_id == pending_player_ids@[i]
                    &&& r.1@[i].wf()
                    &&& r.1@[i].deadline() == TimerView::fresh(PENDING_PLAYER_TIMEOUT_NANOS as nat)
                },
    {
        let mut this = GameSessionInfo {
            session_id,
            max_players: settings.max_players,
            pending_player_count: 0,
            active_player_count: 0,
            clients: HashMap::with_capacity(settings.max_players as usize),
            shutdown_timer: Timer::new(SESSION_SHUTDOWN_TIMEOUT_NANOS),
        };
        this.shutdown_timer.pause();
        let mut spawned: Vec<PendingPlayer> = Vec::new();
        let mut i: usize = 0;
        while i < pending_player_ids.len()
            invariant
                i <= pending_player_ids@.len(),
                this.wf(),
                this@.session_id == session_id,
                this@.max_players == settings.max_players,
                this@.active == 0,
                this@.clients == Map::<ClientId, UserId>::empty(),
                this@.shutdown_timer == TimerView::fresh(
                    SESSION_SHUTDOWN_TIMEOUT_NANOS as nat,
                ).with_paused(true),
                this@.pending == spawned@.len(),
                spawned@.len() == if i <= settings.max_players {
                    i as nat
                } else {
                    settings.max_players as nat
                },
                forall|k: int|
                    0 <= k < spawned@.len() ==> {
                        &&& (#[trigger] spawned@[k]).user_id == pending_player_ids@[k]
                        &&& spawned@[k].wf()
                        &&& spawned@[k].deadline() == TimerView::fresh(
                            PENDING_PLAYER_TIMEOUT_NANOS as nat,
                        )
                    },
            decreases pending_player_ids.len() - i,
        {
            match this.reserve_player(pending_player_ids[i]) {
                Some(p) => spawned.push(p),
                None => {},
            }
            i = i + 1;
        }
        (this, spawned)
    }

    /// The most players the session holds.
    pub fn max_players(&self) -> (n: u16)
        ensures
            n == self@.max_players,
    {
        self.max_players
    }

    /// The session's identifier.
    pub fn session_id(&self) -> (id: u128)
        ensures
            id == self@.session_id,
    {
        self.session_id
    }

    /// Players in the session: those with a reserved slot and those
    /// playing.
    pub fn player_count(&self) -> (n: usize)
        requires
            self.wf(),
        ensures
            n == self@.player_count(),
    {
        self.pending_player_count + self.active_player_count
    }

    /// Whether the network client belongs to a player of this session.
    pub fn has_client(&self, client_id: &ClientId) -> (b: bool)
        ensures
            b == self@.clients.contains_key(*client_id),
    {
        self.clients.contains_key(client_id)
    }

    /// Lets `delta` nanoseconds pass on the shutdown timer and tells
    /// whether the session has been empty for long enough to shut down.
    pub fn update_shutdown_timer(&mut self, delta: u128) -> (b: bool)
        requires
            old(self).wf(),
            delta <= MAX_DURATION_NANOS,
        ensures
            final(self).wf(),
            final(self)@ == (SessionView {
                shutdown_timer: old(self)@.shutdown_timer.ticked(delta as nat),
                ..old(self)@
            }),
            b == final(self)@.shutdown_timer.finished,
    {
        self.shutdown_timer.tick(delta);
        self.shutdown_timer.finished()
    }

    /// Reserves a slot for a player, when one is free. Answers the
    /// reservation to spawn, or `None` when the session is full.
    pub fn reserve_player(&mut self, pending_player_id: UserId) -> (r: Option<PendingPlayer>)
        requires
            old(self).wf(),
        ensures
            final(self).wf(),
            old(self)@.player_count() + 1 > old(self)@.max_players ==> {
                &&& r is None
                &&& final(self)@ == old(self)@
            },
            old(self)@.player_count() + 1 <= old(self)@.max_players ==> {
                &&& r matches Some(p) && p.user_id == pending_player_id && p.wf()
                    && p.deadline() == TimerView::fresh(PENDING_PLAYER_TIMEOUT_NANOS as nat)
                &&& final(self)@ == (SessionView {
                    pending: old(self)@.pending + 1,
                    shutdown_timer: old(self)@.shutdown_timer.with_paused(true),
                    ..old(self)@
                })
            },
    {
        if self.player_count() + 1 > self.max_players as usize {
            return None;
        }
        let p = PendingPlayer::new(pending_player_id);
        self.pending_player_count = self.pending_player_count + 1;
        self.shutdown_timer.pause();
        Some(p)
    }

    /// A reserved slot has waited too long for its player: the reservation
    /// entity is despawned and the slot freed. When the session is then
    /// empty, the shutdown timer starts over. Answers the entity to
    /// despawn.
    pub fn pending_player_timeout(&mut self, pending_player: EntityId, pending_player_id: UserId) -> (despawn: EntityId)
        requires
            old(self).wf(),
            old(self)@.pending > 0,
        ensures
            final(self).wf(),
            despawn == pending_player,
            final(self)@ == (SessionView {
                pending: (old(self)@.pending - 1) as nat,
                shutdown_timer: SessionView::timer_after_leave(
                    old(self)@.shutdown_timer,
                    (old(self)@.player_count() - 1) as nat,
                ),
                ..old(self)@
            }),
    {
        self.pending_player_count = self.pending_player_count - 1;
        if self.player_count() == 0 {
            self.shutdown_timer.reset();
            self.shutdown_timer.unpause();
        }
        pending_player
    }

    /// A player has connected through a network client. When the player
    /// holds a reserved slot, the reservation (the first among
    /// `pending_players` for that player) is despawned, an active player is
    /// to be spawned, and the client is recorded as that player's. Answers
    /// the entity to despawn and the player to spawn, or `None` when the
    /// player was not expected.
    pub fn client_connected(
        &mut self,
        user_id: UserId,
        client_id: ClientId,
        pending_players: &[(EntityId, UserId)],
    ) -> (r: Option<(EntityId, ActivePlayer)>)
        requires
            old(self).wf(),
            find_entity(pending_players@, user_id) is Some ==> old(self)@.pending > 0,
        ensures
            final(self).wf(),
            match find_entity(pending_players@, user_id) {
                None => r is None && final(self)@ == old(self)@,
                Some(e) => {
                    &&& r == Some((e, ActivePlayer { user_id }))
                    &&& final(self)@ == connected_view(old(self)@, user_id, client_id)
                },
            },
    {
        match find_player_entity(pending_players, user_id) {
            Some(pending_player) => {
                self.pending_player_count = self.pending_player_count - 1;
                let active = ActivePlayer::new(user_id);
                self.active_player_count = self.active_player_count + 1;
                self.clients.insert(client_id, user_id);
                self.shutdown_timer.pause();
                Some((pending_player, active))
            },
            None => None,
        }
    }

    /// A network client has disconnected. When it was a player's, the
    /// player's reservation and active-player entities (the first of each
    /// among the given pairs) are despawned and their counts lowered. When
    /// the session is then empty, the shutdown timer starts over. Answers
    /// the entities to despawn.
    pub fn client_disconnected(
        &mut self,
        client_id: &ClientId,
        pending_players: &[(EntityId, UserId)],
        active_players: &[(EntityId, UserId)],
    ) -> (despawn: Vec<EntityId>)
        requires
            old(self).wf(),
            old(self)@.clients.contains_key(*client_id) ==> {
                let user_id = old(self)@.clients[*client_id];
                &&& find_entity(pending_players@, user_id) is Some ==> old(self)@.pending > 0
                &&& find_entity(active_players@, user_id) is Some ==> old(self)@.active > 0
            },
        ensures
            final(self).wf(),
            final(self)@ == disconnected_view(old(self)@, *client_id, pending_players@, active_players@),
            despawn@ == disconnected_despawns(old(self)@, *client_id, pending_players@, active_players@),
    {
        let mut despawn: Vec<EntityId> = Vec::new();
        if let Some(user_id) = self.clients.remove(client_id) {
            if let Some(pending_player) = find_player_entity(pending_players, user_id) {
                despawn.push(pending_player);
                self.pending_player_count = self.pending_player_count - 1;
            }
            let active_player = find_player_entity(active_players, user_id);
            if let Some(active_player) = active_player {
                despawn.push(active_player);
                self.active_player_count = self.active_player_count - 1;
            }
        }
        if self.player_count() == 0 {
            self.shutdown_timer.reset();
            self.shutdown_timer.unpause();
        }
        despawn
    }
}

/// The session after the player `user_id`, holding a reserved slot,
/// connected through `client_id`.
pub open spec fn connected_view(s: SessionView, user_id: UserId, client_id: ClientId) -> SessionView {
    SessionView {
        pending: (s.pending - 1) as nat,
        active: s.active + 1,
        clients: s.clients.insert(client_id, user_id),
        shutdown_timer: s.shutdown_timer.with_paused(true),
        ..s
    }
}

/// The entity `e` as a one-element or empty list.
pub open spec fn opt_seq(e: Option<EntityId>) -> Seq<EntityId> {
    match e {
        Some(x) => seq![x],
        None => Seq::empty(),
    }
}

/// The entities a disconnection despawns: the client's player's
/// reservation, then the player's active entity, each when found.
pub open spec fn disconnected_despawns(
    s: SessionView,
    client_id: ClientId,
    pending_players: Seq<(EntityId, UserId)>,
    active_players: Seq<(EntityId, UserId)>,
) -> Seq<EntityId> {
    if s.clients.contains_key(client_id) {
        let user_id = s.clients[client_id];
        opt_seq(find_entity(pending_players, user_id)) + opt_seq(find_entity(active_players, user_id))
    } else {
        Seq::empty()
    }
}

/// The session after a client disconnected.
pub open spec fn disconnected_view(
    s: SessionView,
    client_id: ClientId,
    pending_players: Seq<(EntityId, UserId)>,
    active_players: Seq<(EntityId, UserId)>,
) -> SessionView {
    let (pending, active) = if s.clients.contains_key(client_id) {
        let user_id = s.clients[client_id];
        (
            if find_entity(pending_players, user_id) is Some { (s.pending - 1) as nat } else { s.pending },
            if find_entity(active_players, user_id) is Some { (s.active - 1) as nat } else { s.active },
        )
    } else {
        (s.pending, s.active)
    };
    SessionView {
        pending,
        active,
        clients: s.clients.remove(client_id),
        shutdown_timer: SessionView::timer_after_leave(s.shutdown_timer, pending + active),
        ..s
    }
}

} // verus!
