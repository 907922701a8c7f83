//! Answering a player who asks for a server: the token is checked before
//! anything is read from the store; then a session awaiting backfill is
//! looked for, and only when none is found is an idle server allocated.
use vstd::prelude::*;

use crate::ids::{uuid_parse, UserId};
use crate::matchmaking::{
    allocation_expects, allocation_next, backfill_expects, backfill_next, backfill_scan, scored_view,
    Allocation, AllocationAction, AllocationActionView, AllocationEvent, AllocationEventView,
    AllocationPhase, BackfillAction, BackfillActionView, BackfillEvent, BackfillEventView,
    BackfillPhase, BackfillSearch, ScoredId,
};
use crate::models::{GameServerInfo, GameServerRecordView};
use crate::user::{User, UserError};

verus! {

/// Where the answer to a player stands.
#[derive(Debug)]
pub enum FindServerState {
    /// The backfill set is being read.
    ListBackfill,
    /// A session awaiting backfill is being looked for.
    Backfill(BackfillSearch),
    /// An idle server is being allocated.
    Allocate(Allocation),
    Done,
}

pub enum FindServerStateView {
    ListBackfill,
    Backfill(Seq<(Seq<char>, u64)>, BackfillPhase),
    Allocate(AllocationPhase),
    Done,
}

/// What the backend is to do next for the player.
#[derive(Debug)]
pub enum FindServerAction {
    /// Read the entries of the backfill set.
    ListBackfill,
    /// A lookup of the backfill search (never its end).
    Backfill(BackfillAction),
    /// A lookup of the allocation (never its end).
    Allocate(AllocationAction),
    /// Answer the player with the server found, if any.
    Respond(Option<GameServerInfo>),
}

pub enum FindServerActionView {
    ListBackfill,
    Backfill(BackfillActionView),
    Allocate(AllocationActionView),
    Respond(Option<GameServerRecordView>),
}

impl View for FindServerAction {
    type V = FindServerActionView;

    open spec fn view(&self) -> FindServerActionView {
        match self {
            FindServerAction::ListBackfill => FindServerActionView::ListBackfill,
            FindServerAction::Backfill(a) => FindServerActionView::Backfill(a@),
            FindServerAction::Allocate(a) => FindServerActionView::Allocate(a@),
            FindServerAction::Respond(s) => FindServerActionView::Respond(
                crate::matchmaking::opt_server_view(*s),
            ),
        }
    }
}

/// What the last lookup returned.
#[derive(Debug)]
pub enum FindServerEvent {
    BackfillListed(Vec<ScoredId>),
    Backfill(BackfillEvent),
    Allocate(AllocationEvent),
}

pub enum FindServerEventView {
    BackfillListed(Seq<(Seq<char>, u64)>),
    Backfill(BackfillEventView),
    Allocate(AllocationEventView),
}

impl View for FindServerEvent {
    type V = FindServerEventView;

    open spec fn view(&self) -> FindServerEventView {
        match self {
            FindServerEvent::BackfillListed(v) => FindServerEventView::BackfillListed(scored_view(v@)),
            FindServerEvent::Backfill(e) => FindServerEventView::Backfill(e@),
            FindServerEvent::Allocate(e) => FindServerEventView::Allocate(e@),
        }
    }
}

/// Where a backfill step leads: a server found is the answer; a search
/// that found none hands over to an allocation for the player (with no
/// session named); a fault ends the search; otherwise the search goes on.
pub open spec fn after_backfill(
    user_id: UserId,
    sessions: Seq<(Seq<char>, u64)>,
    step: (BackfillPhase, BackfillActionView),
) -> (FindServerStateView, FindServerActionView) {
    match step.1 {
        BackfillActionView::Finished(Some(s)) => (
            FindServerStateView::Done,
            FindServerActionView::Respond(Some(s)),
        ),
        BackfillActionView::Finished(None) => (
            FindServerStateView::Allocate(AllocationPhase::AwaitPop),
            FindServerActionView::Allocate(AllocationActionView::PopWaitingServer),
        ),
        BackfillActionView::InvalidSessionId => (
            FindServerStateView::Done,
            FindServerActionView::Backfill(BackfillActionView::InvalidSessionId),
        ),
        a => (FindServerStateView::Backfill(sessions, step.0), FindServerActionView::Backfill(a)),
    }
}

/// Where an allocation step leads: its end is the answer; a fault ends
/// it; otherwise it goes on.
pub open spec fn after_allocation(step: (AllocationPhase, AllocationActionView)) -> (
    FindServerStateView,
    FindServerActionView,
) {
    match step.1 {
        AllocationActionView::Finished(found) => (
            FindServerStateView::Done,
            FindServerActionView::Respond(found),
        ),
        AllocationActionView::InvalidServerId => (
            FindServerStateView::Done,
            FindServerActionView::Allocate(AllocationActionView::InvalidServerId),
        ),
        a => (FindServerStateView::Allocate(step.0), FindServerActionView::Allocate(a)),
    }
}

/// How the answer proceeds on what the last lookup returned.
pub open spec fn find_server_next(user_id: UserId, state: FindServerStateView, event: FindServerEventView) -> (
    FindServerStateView,
    FindServerActionView,
) {
    match (state, event) {
        (FindServerStateView::ListBackfill, FindServerEventView::BackfillListed(v)) => after_backfill(
            user_id,
            v,
            backfill_scan(v, 0),
        ),
        (FindServerStateView::Backfill(sessions, phase), FindServerEventView::Backfill(e)) => after_backfill(
            user_id,
            sessions,
            backfill_next(sessions, phase, e),
        ),
        (FindServerStateView::Allocate(phase), FindServerEventView::Allocate(e)) => after_allocation(
            allocation_next(user_id, None, phase, e),
        ),
        _ => (state, FindServerActionView::Respond(None)),
    }
}

/// Whether the answer in `state` waits for a lookup of the event's kind.
pub open spec fn find_server_expects(state: FindServerStateView, event: FindServerEventView) -> bool {
    match (state, event) {
        (FindServerStateView::ListBackfill, FindServerEventView::BackfillListed(_)) => true,
        (FindServerStateView::Backfill(_, phase), FindServerEventView::Backfill(e)) => backfill_expects(
            phase,
            e,
        ),
        (FindServerStateView::Allocate(phase), FindServerEventView::Allocate(e)) => allocation_expects(
            phase,
            e,
        ),
        _ => false,
    }
}

/// Finding a server for one player.
#[derive(Debug)]
pub struct FindServer {
    pub user_id: UserId,
    pub state: FindServerState,
}

impl FindServer {
    pub open spec fn state_view(&self) -> FindServerStateView {
        match self.state {
            FindServerState::ListBackfill => FindServerStateView::ListBackfill,
            FindServerState::Backfill(s) => FindServerStateView::Backfill(s.sessions_view(), s.phase),
            FindServerState::Allocate(a) => FindServerStateView::Allocate(a.phase),
            FindServerState::Done => FindServerStateView::Done,
        }
    }

    pub open spec fn wf(&self) -> bool {
        match self.state {
            FindServerState::Backfill(s) => s.wf(),
            FindServerState::Allocate(a) => a.user_id == self.user_id && a.game_session_id is None,
            _ => true,
        }
    }

    /// Starts answering the player a bearer token names. A token that is
    /// not a player's UUID is refused before the store is read; otherwise
    /// the first step reads the backfill set.
    pub fn start(bearer_token: &str) -> (r: Result<(FindServer, FindServerAction), UserError>)
        ensures
            match uuid_parse(bearer_token@) {
                None => r == Err::<(FindServer, FindServerAction), UserError>(UserError::InvalidToken),
                Some(id) => r matches Ok((f, a)) && f.user_id == id && f.wf() && f.state_view()
                    == FindServerStateView::ListBackfill && a@ == FindServerActionView::ListBackfill,
            },
    {
        match User::read_from_token(bearer_token) {
            Ok(user) => Ok(
                (
                    FindServer { user_id: user.user_id, state: FindServerState::ListBackfill },
                    FindServerAction::ListBackfill,
                ),
            ),
            Err(e) => Err(e),
        }
    }

    fn backfill_done(user_id: UserId, search: BackfillSearch, a: BackfillAction) -> (r: (
        FindServer,
        FindServerAction,
    ))
        requires
            search.wf(),
        ensures
            r.0.wf(),
            r.0.user_id == user_id,
            (r.0.state_view(), r.1@) == after_backfill(user_id, search.sessions_view(), (search.phase, a@)),
    {
        match a {
            BackfillAction::Finished(Some(s)) => (
                FindServer { user_id, state: FindServerState::Done },
                FindServerAction::Respond(Some(s)),
            ),
            BackfillAction::Finished(None) => {
                let (alloc, aa) = Allocation::new(user_id, None);
                (FindServer { user_id, state: FindServerState::Allocate(alloc) }, FindServerAction::Allocate(aa))
            },
            BackfillAction::InvalidSessionId => (
                FindServer { user_id, state: FindServerState::Done },
                FindServerAction::Backfill(BackfillAction::InvalidSessionId),
            ),
            a => (FindServer { user_id, state: FindServerState::Backfill(search) }, FindServerAction::Backfill(a)),
        }
    }

    fn allocation_done(user_id: UserId, alloc: Allocation, a: AllocationAction) -> (r: (
        FindServer,
        FindServerAction,
    ))
        requires
            alloc.user_id == user_id,
            alloc.game_session_id is None,
        ensures
            r.0.wf(),
            r.0.user_id == user_id,
            (r.0.state_view(), r.1@) == after_allocation((alloc.phase, a@)),
    {
        match a {
            AllocationAction::Finished(found) => (
                FindServer { user_id, state: FindServerState::Done },
                FindServerAction::Respond(found),
            ),
            AllocationAction::InvalidServerId => (
                FindServer { user_id, state: FindServerState::Done },
                FindServerAction::Allocate(AllocationAction::InvalidServerId),
            ),
            a => (FindServer { user_id, state: FindServerState::Allocate(alloc) }, FindServerAction::Allocate(a)),
        }
    }

    /// Takes the result of the last lookup and answers the next action.
    pub fn step(self, event: FindServerEvent) -> (r: (FindServer, FindServerAction))
        requires
            self.wf(),
            find_server_expects(self.state_view(), event@),
        ensures
            r.0.wf(),
            r.0.user_id == self.user_id,
            (r.0.state_view(), r.1@) == find_server_next(self.user_id, self.state_view(), event@),
    {
        let user_id = self.user_id;
        match (self.state, event) {
            (FindServerState::ListBackfill, FindServerEvent::BackfillListed(v)) => {
                let (search, a) = BackfillSearch::new(v, false);
                Self::backfill_done(user_id, search, a)
            },
            (FindServerState::Backfill(mut search), FindServerEvent::Backfill(e)) => {
                let a = search.step(e);
                Self::backfill_done(user_id, search, a)
            },
            (FindServerState::Allocate(mut alloc), FindServerEvent::Allocate(e)) => {
                let a = alloc.step(e);
                Self::allocation_done(user_id, alloc, a)
            },
            (state, _) => (FindServer { user_id, state }, FindServerAction::Respond(None)),
        }
    }
}

} // verus!
