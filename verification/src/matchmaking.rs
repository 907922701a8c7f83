//! How the backend finds a game server for a player.
//!
//! Finding a server alternates lookups in the backend's store with
//! decisions. The decisions are the state machines here: each step takes
//! what the last lookup returned and answers the next lookup to make.
//! First a session awaiting backfill is looked for ([`BackfillSearch`]);
//! failing that, an idle server is taken and asked to host a new session
//! ([`Allocation`]).
use vstd::prelude::*;

use crate::gameclient::FindServerResponseV1;
use crate::gameserver::GameServerState;
use crate::ids::{parse_uuid, uuid_parse, UserId};
use crate::models::{GameServerInfo, GameServerRecordView, GameSessionInfo, GameSessionRecordView};

verus! {

/// How long a placed server may take to start its session, in seconds.
pub const PLACEMENT_TIMEOUT: u64 = 60;

/// An entry of the backfill set or of the waiting-servers index: an
/// identifier's text and its score (open slots, or a timestamp).
pub type ScoredId = (String, u64);

pub open spec fn scored_view(v: Seq<ScoredId>) -> Seq<(Seq<char>, u64)> {
    v.map_values(|p: ScoredId| (p.0@, p.1))
}

pub open spec fn opt_server_view(s: Option<GameServerInfo>) -> Option<GameServerRecordView> {
    match s {
        Some(s) => Some(s@),
        None => None,
    }
}

pub open spec fn opt_session_view(s: Option<GameSessionInfo>) -> Option<GameSessionRecordView> {
    match s {
        Some(s) => Some(s@),
        None => None,
    }
}

// ---------------------------------------------------------------------
// Backfill
// ---------------------------------------------------------------------

/// Where a backfill search stands.
#[derive(Debug, Clone, Copy, PartialEq, Eq, Structural)]
pub enum BackfillPhase {
    /// The session record of entry `index` was asked for.
    AwaitSession { index: usize, session_id: u128 },
    /// The stale entry `index` is being removed from the backfill set.
    AwaitRemoval { index: usize },
    /// The server record of the session of entry `index` was asked for.
    AwaitServer { index: usize },
    Done,
}

/// What the backend is to do next in a backfill search.
#[derive(Debug)]
pub enum BackfillAction {
    /// Read the record of this session.
    ReadSession(u128),
    /// Remove this session from the backfill set: it has no record.
    RemoveSession(u128),
    /// Read the record of this server.
    ReadServer(u128),
    /// The search is over; the server found, if any.
    Finished(Option<GameServerInfo>),
    /// An entry of the backfill set is not a session identifier.
    InvalidSessionId,
}

pub enum BackfillActionView {
    ReadSession(u128),
    RemoveSession(u128),
    ReadServer(u128),
    Finished(Option<GameServerRecordView>),
    InvalidSessionId,
}

impl View for BackfillAction {
    type V = BackfillActionView;

    open spec fn view(&self) -> BackfillActionView {
        match self {
            BackfillAction::ReadSession(id) => BackfillActionView::ReadSession(*id),
            BackfillAction::RemoveSession(id) => BackfillActionView::RemoveSession(*id),
            BackfillAction::ReadServer(id) => BackfillActionView::ReadServer(*id),
            BackfillAction::Finished(s) => BackfillActionView::Finished(opt_server_view(*s)),
            BackfillAction::InvalidSessionId => BackfillActionView::InvalidSessionId,
        }
    }
}

/// What a lookup of a backfill search returned.
#[derive(Debug)]
pub enum BackfillEvent {
    SessionRead(Option<GameSessionInfo>),
    SessionRemoved,
    ServerRead(Option<GameServerInfo>),
}

pub enum BackfillEventView {
    SessionRead(Option<GameSessionRecordView>),
    SessionRemoved,
    ServerRead(Option<GameServerRecordView>),
}

impl View for BackfillEvent {
    type V = BackfillEventView;

    open spec fn view(&self) -> BackfillEventView {
        match self {
            BackfillEvent::SessionRead(s) => BackfillEventView::SessionRead(opt_session_view(*s)),
            BackfillEvent::SessionRemoved => BackfillEventView::SessionRemoved,
            BackfillEvent::ServerRead(s) => BackfillEventView::ServerRead(opt_server_view(*s)),
        }
    }
}

/// The first entry at or after `from` with an open slot, or the length of
/// the list when there is none.
pub open spec fn first_open(sessions: Seq<(Seq<char>, u64)>, from: int) -> int
    decreases sessions.len() - from,
{
    if from < 0 || from >= sessions.len() {
        sessions.len() as int
    } else if sessions[from].1 > 0 {
        from
    } else {
        first_open(sessions, from + 1)
    }
}

/// The lookup for backfill entry `index`, given what UUID parsing read
/// from the entry's identifier.
pub open spec fn session_lookup_spec(index: int, parsed: Option<u128>) -> (BackfillPhase, BackfillActionView) {
    match parsed {
        Some(id) => (
            BackfillPhase::AwaitSession { index: index as usize, session_id: id },
            BackfillActionView::ReadSession(id),
        ),
        None => (BackfillPhase::Done, BackfillActionView::InvalidSessionId),
    }
}

/// Decides the lookup for backfill entry `index` from what UUID parsing
/// read from its identifier: the session's record, or a fault when the
/// entry is not an identifier.
pub fn session_lookup(index: usize, parsed: Option<u128>) -> (r: (BackfillPhase, BackfillAction))
    ensures
        (r.0, r.1@) == session_lookup_spec(index as int, parsed),
{
    match parsed {
        Some(id) => (BackfillPhase::AwaitSession { index, session_id: id }, BackfillAction::ReadSession(id)),
        None => (BackfillPhase::Done, BackfillAction::InvalidSessionId),
    }
}

/// The search from entry `from` on: the next entry with an open slot is
/// looked up, and the search ends when none is left.
pub open spec fn backfill_scan(sessions: Seq<(Seq<char>, u64)>, from: int) -> (BackfillPhase, BackfillActionView) {
    let i = first_open(sessions, from);
    if i >= sessions.len() {
        (BackfillPhase::Done, BackfillActionView::Finished(None))
    } else {
        session_lookup_spec(i, uuid_parse(sessions[i].0))
    }
}

/// How a backfill search proceeds on what the last lookup returned.
pub open spec fn backfill_next(
    sessions: Seq<(Seq<char>, u64)>,
    phase: BackfillPhase,
    event: BackfillEventView,
) -> (BackfillPhase, BackfillActionView) {
    match (phase, event) {
        (BackfillPhase::AwaitSession { index, session_id }, BackfillEventView::SessionRead(Some(s))) => (
            BackfillPhase::AwaitServer { index },
            BackfillActionView::ReadServer(s.server_id),
        ),
        (BackfillPhase::AwaitSession { index, session_id }, BackfillEventView::SessionRead(None)) => (
            BackfillPhase::AwaitRemoval { index },
            BackfillActionView::RemoveSession(session_id),
        ),
        (BackfillPhase::AwaitRemoval { index }, BackfillEventView::SessionRemoved) => backfill_scan(
            sessions,
            index + 1,
        ),
        (BackfillPhase::AwaitServer { index }, BackfillEventView::ServerRead(Some(s))) => (
            BackfillPhase::Done,
            BackfillActionView::Finished(Some(s)),
        ),
        (BackfillPhase::AwaitServer { index }, BackfillEventView::ServerRead(None)) => backfill_scan(
            sessions,
            index + 1,
        ),
        _ => (phase, BackfillActionView::InvalidSessionId),
    }
}

/// Whether a search in `phase` waits for a lookup of the event's kind.
pub open spec fn backfill_expects(phase: BackfillPhase, event: BackfillEventView) -> bool {
    match (phase, event) {
        (BackfillPhase::AwaitSession { .. }, BackfillEventView::SessionRead(_)) => true,
        (BackfillPhase::AwaitRemoval { .. }, BackfillEventView::SessionRemoved) => true,
        (BackfillPhase::AwaitServer { .. }, BackfillEventView::ServerRead(_)) => true,
        _ => false,
    }
}

/// A search among the sessions awaiting backfill for a server with room.
#[derive(Debug)]
pub struct BackfillSearch {
    pub sessions: Vec<ScoredId>,
    pub phase: BackfillPhase,
}

impl BackfillSearch {
    pub open spec fn sessions_view(&self) -> Seq<(Seq<char>, u64)> {
        scored_view(self.sessions@)
    }

    pub open spec fn wf(&self) -> bool {
        match self.phase {
            BackfillPhase::AwaitSession { index, .. } => index < self.sessions@.len(),
            BackfillPhase::AwaitRemoval { index } => index < self.sessions@.len(),
            BackfillPhase::AwaitServer { index } => index < self.sessions@.len(),
            BackfillPhase::Done => true,
        }
    }

    fn scan(&mut self, from: usize) -> (a: BackfillAction)
        requires
            from <= old(self).sessions@.len(),
        ensures
            final(self).wf(),
            final(self).sessions@ == old(self).sessions@,
            (final(self).phase, a@) == backfill_scan(old(self).sessions_view(), from as int),
    {
        let ghost sv = self.sessions_view();
        let mut i = from;
        while i < self.sessions.len()
            invariant
                from <= i <= self.sessions@.len(),
                self.sessions@ == old(self).sessions@,
                sv == old(self).sessions_view(),
                first_open(sv, from as int) == first_open(sv, i as int),
            decreases self.sessions.len() - i,
        {
            assert(sv[i as int] == (self.sessions@[i as int].0@, self.sessions@[i as int].1));
            if self.sessions[i].1 > 0 {
                assert(first_open(sv, i as int) == i);
                let parsed = match parse_uuid(self.sessions[i].0.as_str()) {
                    Ok(id) => Some(id),
                    Err(_) => None,
                };
                let (phase, action) = session_lookup(i, parsed);
                self.phase = phase;
                return action;
            }
            i = i + 1;
        }
        self.phase = BackfillPhase::Done;
        BackfillAction::Finished(None)
    }

    /// Starts a search among `sessions`, the entries of the backfill set.
    /// With `only_if_single`, a set that does not hold exactly one entry is
    /// not searched at all.
    pub fn new(sessions: Vec<ScoredId>, only_if_single: bool) -> (r: (BackfillSearch, BackfillAction))
        ensures
            r.0.wf(),
            r.0.sessions@ == sessions@,
            only_if_single && sessions@.len() != 1 ==> r.0.phase == BackfillPhase::Done && r.1@
                == BackfillActionView::Finished(None),
            !(only_if_single && sessions@.len() != 1) ==> (r.0.phase, r.1@) == backfill_scan(
                scored_view(sessions@),
                0,
            ),
    {
        let single = sessions.len() == 1;
        let mut search = BackfillSearch { sessions, phase: BackfillPhase::Done };
        if only_if_single && !single {
            return (search, BackfillAction::Finished(None));
        }
        let a = search.scan(0);
        (search, a)
    }

    /// Takes the result of the last lookup and answers the next action.
    pub fn step(&mut self, event: BackfillEvent) -> (a: BackfillAction)
        requires
            old(self).wf(),
            backfill_expects(old(self).phase, event@),
        ensures
            final(self).wf(),
            final(self).sessions@ == old(self).sessions@,
            (final(self).phase, a@) == backfill_next(old(self).sessions_view(), old(self).phase, event@),
    {
        match event {
            BackfillEvent::SessionRead(Some(s)) => {
                let index = match self.phase {
                    BackfillPhase::AwaitSession { index, .. } => index,
                    _ => 0,
                };
                self.phase = BackfillPhase::AwaitServer { index };
                BackfillAction::ReadServer(s.server_id)
            },
            BackfillEvent::SessionRead(None) => {
                match self.phase {
                    BackfillPhase::AwaitSession { index, session_id } => {
                        self.phase = BackfillPhase::AwaitRemoval { index };
                        BackfillAction::RemoveSession(session_id)
                    },
                    _ => BackfillAction::InvalidSessionId,
                }
            },
            BackfillEvent::SessionRemoved => {
                let n = self.sessions.len();
                let index = match self.phase {
                    BackfillPhase::AwaitRemoval { index } => index,
                    _ => 0,
                };
                proof {
                    assert(index < n);
                }
                self.scan(index + 1)
            },
            BackfillEvent::ServerRead(Some(s)) => {
                self.phase = BackfillPhase::Done;
                BackfillAction::Finished(Some(s))
            },
            BackfillEvent::ServerRead(None) => {
                let n = self.sessions.len();
                let index = match self.phase {
                    BackfillPhase::AwaitServer { index } => index,
                    _ => 0,
                };
                proof {
                    assert(index < n);
                }
                self.scan(index + 1)
            },
        }
    }
}

// ---------------------------------------------------------------------
// Allocation of an idle server
// ---------------------------------------------------------------------

/// Where an allocation stands.
#[derive(Debug, Clone, Copy, PartialEq, Eq, Structural)]
pub enum AllocationPhase {
    /// The idle server with the lowest score is being taken from the index.
    AwaitPop,
    /// The record of the taken server was asked for.
    AwaitServer { server_id: u128 },
    /// The server is being asked to host the session.
    AwaitNotify { server_id: u128 },
    /// The server's record is being watched until its session runs.
    Polling { server_id: u128 },
    Done,
}

/// What the backend is to do next in an allocation.
#[derive(Debug)]
pub enum AllocationAction {
    /// Take the entry with the lowest score from the waiting-servers index.
    PopWaitingServer,
    /// Read the record of this server.
    ReadServer(u128),
    /// Send the server a placement request for these players, within
    /// [`PLACEMENT_TIMEOUT`] seconds.
    NotifyPlacement { server_id: u128, game_session_id: Option<u128>, player_ids: Vec<UserId> },
    /// Wait a second, then read the record of this server again.
    PollServer(u128),
    /// The allocation is over; the server that now runs the session, if any.
    Finished(Option<GameServerInfo>),
    /// The entry taken from the index is not a server identifier.
    InvalidServerId,
}

pub enum AllocationActionView {
    PopWaitingServer,
    ReadServer(u128),
    NotifyPlacement { server_id: u128, game_session_id: Option<u128>, player_ids: Seq<UserId> },
    PollServer(u128),
    Finished(Option<GameServerRecordView>),
    InvalidServerId,
}

impl View for AllocationAction {
    type V = AllocationActionView;

    open spec fn view(&self) -> AllocationActionView {
        match self {
            AllocationAction::PopWaitingServer => AllocationActionView::PopWaitingServer,
            AllocationAction::ReadServer(id) => AllocationActionView::ReadServer(*id),
            AllocationAction::NotifyPlacement { server_id, game_session_id, player_ids } =>
                AllocationActionView::NotifyPlacement {
                    server_id: *server_id,
                    game_session_id: *game_session_id,
                    player_ids: player_ids@,
                },
            AllocationAction::PollServer(id) => AllocationActionView::PollServer(*id),
            AllocationAction::Finished(s) => AllocationActionView::Finished(opt_server_view(*s)),
            AllocationAction::InvalidServerId => AllocationActionView::InvalidServerId,
        }
    }
}

/// What a lookup of an allocation returned.
#[derive(Debug)]
pub enum AllocationEvent {
    /// The entries taken from the waiting-servers index.
    Popped(Vec<ScoredId>),
    ServerRead(Option<GameServerInfo>),
    Notified,
    Polled(GameServerInfo),
    /// [`PLACEMENT_TIMEOUT`] seconds passed without the session running.
    TimedOut,
}

pub enum AllocationEventView {
    Popped(Seq<(Seq<char>, u64)>),
    ServerRead(Option<GameServerRecordView>),
    Notified,
    Polled(GameServerRecordView),
    TimedOut,
}

impl View for AllocationEvent {
    type V = AllocationEventView;

    open spec fn view(&self) -> AllocationEventView {
        match self {
            AllocationEvent::Popped(v) => AllocationEventView::Popped(scored_view(v@)),
            AllocationEvent::ServerRead(s) => AllocationEventView::ServerRead(opt_server_view(*s)),
            AllocationEvent::Notified => AllocationEventView::Notified,
            AllocationEvent::Polled(s) => AllocationEventView::Polled(s@),
            AllocationEvent::TimedOut => AllocationEventView::TimedOut,
        }
    }
}

/// Whether a watched server reports a session other than the one it was
/// asked to host.
pub open spec fn session_mismatch(expected: Option<u128>, s: GameServerRecordView) -> bool {
    match (expected, s.game_session_id) {
        (Some(e), Some(c)) => c != e,
        _ => false,
    }
}

/// The lookup after taking an idle server, given what UUID parsing read
/// from the identifier taken.
pub open spec fn server_lookup_spec(parsed: Option<u128>) -> (AllocationPhase, AllocationActionView) {
    match parsed {
        Some(id) => (AllocationPhase::AwaitServer { server_id: id }, AllocationActionView::ReadServer(id)),
        None => (AllocationPhase::Done, AllocationActionView::InvalidServerId),
    }
}

/// Decides the lookup after taking an idle server from what UUID parsing
/// read from its identifier: the server's record, or a fault when the
/// entry is not an identifier.
pub fn server_lookup(parsed: Option<u128>) -> (r: (AllocationPhase, AllocationAction))
    ensures
        (r.0, r.1@) == server_lookup_spec(parsed),
{
    match parsed {
        Some(id) => (AllocationPhase::AwaitServer { server_id: id }, AllocationAction::ReadServer(id)),
        None => (AllocationPhase::Done, AllocationAction::InvalidServerId),
    }
}

/// Whether a server reporting session `reported` hosts another session
/// than `expected`, when one is expected.
pub fn session_mismatch_in(expected: Option<u128>, reported: Option<u128>) -> (b: bool)
    ensures
        b == match (expected, reported) {
            (Some(e), Some(c)) => c != e,
            _ => false,
        },
{
    match (expected, reported) {
        (Some(e), Some(c)) => c != e,
        _ => false,
    }
}

/// How an allocation for `user_id` proceeds on what the last lookup
/// returned.
pub open spec fn allocation_next(
    user_id: UserId,
    game_session_id: Option<u128>,
    phase: AllocationPhase,
    event: AllocationEventView,
) -> (AllocationPhase, AllocationActionView) {
    match (phase, event) {
        (AllocationPhase::AwaitPop, AllocationEventView::Popped(v)) => if v.len() != 1 {
            (AllocationPhase::Done, AllocationActionView::Finished(None))
        } else {
            server_lookup_spec(uuid_parse(v[0].0))
        },
        (AllocationPhase::AwaitServer { server_id }, AllocationEventView::ServerRead(None)) => (
            AllocationPhase::Done,
            AllocationActionView::Finished(None),
        ),
        (AllocationPhase::AwaitServer { server_id }, AllocationEventView::ServerRead(Some(s))) => if s.state
            != GameServerState::WaitingForPlacement {
            (AllocationPhase::Done, AllocationActionView::Finished(None))
        } else {
            (
                AllocationPhase::AwaitNotify { server_id },
                AllocationActionView::NotifyPlacement {
                    server_id,
                    game_session_id,
                    player_ids: seq![user_id],
                },
            )
        },
        (AllocationPhase::AwaitNotify { server_id }, AllocationEventView::Notified) => (
            AllocationPhase::Polling { server_id },
            AllocationActionView::PollServer(server_id),
        ),
        (AllocationPhase::Polling { server_id }, AllocationEventView::Polled(s)) => if session_mismatch(
            game_session_id,
            s,
        ) {
            (AllocationPhase::AwaitPop, AllocationActionView::PopWaitingServer)
        } else if s.state == GameServerState::InGame {
            (AllocationPhase::Done, AllocationActionView::Finished(Some(s)))
        } else {
            (AllocationPhase::Polling { server_id }, AllocationActionView::PollServer(server_id))
        },
        (AllocationPhase::Polling { server_id }, AllocationEventView::TimedOut) => (
            AllocationPhase::Done,
            AllocationActionView::Finished(None),
        ),
        _ => (phase, AllocationActionView::InvalidServerId),
    }
}

/// Whether an allocation in `phase` waits for a lookup of the event's
/// kind.
pub open spec fn allocation_expects(phase: AllocationPhase, event: AllocationEventView) -> bool {
    match (phase, event) {
        (AllocationPhase::AwaitPop, AllocationEventView::Popped(_)) => true,
        (AllocationPhase::AwaitServer { .. }, AllocationEventView::ServerRead(_)) => true,
        (AllocationPhase::AwaitNotify { .. }, AllocationEventView::Notified) => true,
        (AllocationPhase::Polling { .. }, AllocationEventView::Polled(_)) => true,
        (AllocationPhase::Polling { .. }, AllocationEventView::TimedOut) => true,
        _ => false,
    }
}

/// Taking an idle server and having it host a session for a player.
#[derive(Debug)]
pub struct Allocation {
    pub user_id: UserId,
    /// The session to host, when the backend names it; a server that then
    /// reports another session is given up, and another idle server taken.
    pub game_session_id: Option<u128>,
    pub phase: AllocationPhase,
}

impl Allocation {
    /// Starts an allocation: the first step takes an idle server.
    pub fn new(user_id: UserId, game_session_id: Option<u128>) -> (r: (Allocation, AllocationAction))
        ensures
            r.0.user_id == user_id,
            r.0.game_session_id == game_session_id,
            r.0.phase == AllocationPhase::AwaitPop,
            r.1@ == AllocationActionView::PopWaitingServer,
    {
        (Allocation { user_id, game_session_id, phase: AllocationPhase::AwaitPop }, AllocationAction::PopWaitingServer)
    }

    /// Takes the result of the last lookup and answers the next action. A
    /// watched server that reports another session than the one named is
    /// given up, and the allocation starts over with another idle server.
    pub fn step(&mut self, event: AllocationEvent) -> (a: AllocationAction)
        requires
            allocation_expects(old(self).phase, event@),
        ensures
            final(self).user_id == old(self).user_id,
            final(self).game_session_id == old(self).game_session_id,
            (final(self).phase, a@) == allocation_next(
                old(self).user_id,
                old(self).game_session_id,
                old(self).phase,
                event@,
            ),
    {
        match event {
            AllocationEvent::Popped(v) => {
                if v.len() != 1 {
                    self.phase = AllocationPhase::Done;
                    return AllocationAction::Finished(None);
                }
                assert(scored_view(v@)[0] == (v@[0].0@, v@[0].1));
                let parsed = match parse_uuid(v[0].0.as_str()) {
                    Ok(id) => Some(id),
                    Err(_) => None,
                };
                let (phase, action) = server_lookup(parsed);
                self.phase = phase;
                action
            },
            AllocationEvent::ServerRead(None) => {
                self.phase = AllocationPhase::Done;
                AllocationAction::Finished(None)
            },
            AllocationEvent::ServerRead(Some(s)) => {
                let server_id = match self.phase {
                    AllocationPhase::AwaitServer { server_id } => server_id,
                    _ => 0,
                };
                if s.state != GameServerState::WaitingForPlacement {
                    self.phase = AllocationPhase::Done;
                    return AllocationAction::Finished(None);
                }
                self.phase = AllocationPhase::AwaitNotify { server_id };
                let mut player_ids: Vec<UserId> = Vec::new();
                player_ids.push(self.user_id);
                assert(player_ids@ == seq![self.user_id]);
                AllocationAction::NotifyPlacement { server_id, game_session_id: self.game_session_id, player_ids }
            },
            AllocationEvent::Notified => {
                let server_id = match self.phase {
                    AllocationPhase::AwaitNotify { server_id } => server_id,
                    _ => 0,
                };
                self.phase = AllocationPhase::Polling { server_id };
                AllocationAction::PollServer(server_id)
            },
            AllocationEvent::Polled(s) => {
                let server_id = match self.phase {
                    AllocationPhase::Polling { server_id } => server_id,
                    _ => 0,
                };
                if session_mismatch_in(self.game_session_id, s.game_session_id) {
                    self.phase = AllocationPhase::AwaitPop;
                    AllocationAction::PopWaitingServer
                } else if s.state == GameServerState::InGame {
                    self.phase = AllocationPhase::Done;
                    AllocationAction::Finished(Some(s))
                } else {
                    AllocationAction::PollServer(server_id)
                }
            },
            AllocationEvent::TimedOut => {
                self.phase = AllocationPhase::Done;
                AllocationAction::Finished(None)
            },
        }
    }
}

/// The answer to a client looking for a server: the first address and the
/// port of the server found, or an empty address when none was found.
pub open spec fn find_server_answer(found: Option<GameServerRecordView>) -> (Seq<char>, u16) {
    match found {
        Some(s) => (s.addrs[0], s.port),
        None => (Seq::empty(), 0),
    }
}

/// Answers a client looking for a server. A server found must advertise
/// an address.
pub fn find_server_response(found: &Option<GameServerInfo>) -> (r: FindServerResponseV1)
    requires
        found matches Some(s) ==> s.addrs@.len() > 0,
    ensures
        (r.address@, r.port) == find_server_answer(opt_server_view(*found)),
{
    match found {
        Some(s) => FindServerResponseV1 { address: s.addrs[0].clone(), port: s.port },
        None => FindServerResponseV1::default(),
    }
}

} // verus!
