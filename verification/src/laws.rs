//! Properties of the library that span its operations.
use vstd::prelude::*;

use crate::gameserver::{GameServerOrchestration, GameServerState};
use crate::ids::{uuid_parse, UserId};
use crate::matchmaking::{backfill_next, backfill_scan, first_open, BackfillActionView, BackfillEventView, BackfillPhase};
use crate::models::{server_record, session_record, GameSessionRecordView, SessionRecordError};
use crate::network::{listed_v4, listed_v6, v4_advertised, v6_advertised, with_v4, with_v6, IpAddress};
use crate::orchestration::{spec_api_type, spec_shutdown_empty, Orchestration};
use crate::server::{heartbeat_report, HostedSession};
use crate::ids::ClientId;
use crate::session::{connected_view, disconnected_view, find_entity, SessionView};
use crate::timer::TimerView;
use crate::findserver::{find_server_next, FindServerActionView, FindServerEventView, FindServerStateView};
use crate::matchmaking::{allocation_next, AllocationActionView, AllocationEventView, AllocationPhase};
use crate::models::GameServerRecordView;
use crate::network::{spec_v4_is_link_local, spec_v4_is_loopback, spec_v6_is_loopback};
use crate::session::SESSION_SHUTDOWN_TIMEOUT_NANOS;
use crate::systems::after_timeouts;

verus! {

// ---------------------------------------------------------------------
// Timers
// ---------------------------------------------------------------------

/// The timer after a series of ticks.
pub open spec fn ticked_all(t: TimerView, deltas: Seq<nat>) -> TimerView
    decreases deltas.len(),
{
    if deltas.len() == 0 {
        t
    } else {
        ticked_all(t, deltas.drop_last()).ticked(deltas.last())
    }
}

/// The total of a series of ticks.
pub open spec fn total(deltas: Seq<nat>) -> nat
    decreases deltas.len(),
{
    if deltas.len() == 0 {
        0
    } else {
        total(deltas.drop_last()) + deltas.last()
    }
}

/// A running timer finishes exactly when the ticks it was given add up to
/// its duration (a timer of no duration finishes at its first tick); until
/// then it has counted all of them, and once finished it holds its
/// duration.
pub proof fn lemma_timer_finishes_when_due(duration: nat, deltas: Seq<nat>)
    requires
        duration <= crate::timer::MAX_DURATION_NANOS,
    ensures
        ticked_all(TimerView::fresh(duration), deltas).finished <==> (deltas.len() > 0 && total(deltas)
            >= duration),
        !ticked_all(TimerView::fresh(duration), deltas).finished ==> ticked_all(
            TimerView::fresh(duration),
            deltas,
        ).elapsed == total(deltas),
        ticked_all(TimerView::fresh(duration), deltas).finished ==> ticked_all(
            TimerView::fresh(duration),
            deltas,
        ).elapsed == duration,
        ticked_all(TimerView::fresh(duration), deltas).valid(),
        !ticked_all(TimerView::fresh(duration), deltas).paused,
        ticked_all(TimerView::fresh(duration), deltas).duration == duration,
    decreases deltas.len(),
{
    if deltas.len() > 0 {
        let prev = deltas.drop_last();
        lemma_timer_finishes_when_due(duration, prev);
        assert(ticked_all(TimerView::fresh(duration), deltas) == ticked_all(TimerView::fresh(duration), prev).ticked(
            deltas.last(),
        ));
        assert(total(deltas) == total(prev) + deltas.last());
        let before = ticked_all(TimerView::fresh(duration), prev);
        let after = ticked_all(TimerView::fresh(duration), deltas);
        if before.finished {
            assert(after == before);
        } else if before.elapsed + deltas.last() >= duration {
            assert(after.finished && after.elapsed == duration);
        } else {
            assert(!after.finished && after.elapsed == total(deltas));
        }
    } else {
        assert(total(deltas) == 0);
    }
}

/// Once finished, a timer stays finished whatever it is ticked.
pub proof fn lemma_finished_timer_stays_finished(t: TimerView, delta: nat)
    requires
        t.finished,
    ensures
        t.ticked(delta) == t,
{
}

/// Ticks leave a paused timer as it is.
pub proof fn lemma_paused_timer_is_frozen(t: TimerView, delta: nat)
    requires
        t.paused,
    ensures
        t.ticked(delta) == t,
{
}

// ---------------------------------------------------------------------
// Sessions
// ---------------------------------------------------------------------

/// A session never counts more players than it has slots.
pub proof fn lemma_players_within_slots(s: SessionView)
    requires
        s.valid(),
    ensures
        s.pending + s.active <= s.max_players,
{
}

/// A session with players in it does not shut down: its shutdown timer
/// cannot finish while anyone holds a slot, unless it had finished before
/// the players came.
pub proof fn lemma_occupied_session_stays_up(s: SessionView, delta: nat)
    requires
        s.valid(),
        s.player_count() > 0,
        !s.shutdown_timer.finished,
    ensures
        !s.shutdown_timer.ticked(delta).finished,
        s.shutdown_timer.ticked(delta) == s.shutdown_timer,
{
}

/// A player who connects takes its reserved slot; when its client later
/// leaves, that one slot is freed, the client is forgotten, and the other
/// players keep theirs.
pub proof fn lemma_connect_then_leave_frees_one_slot(
    s: SessionView,
    user_id: UserId,
    client_id: ClientId,
    pending_players: Seq<(u64, UserId)>,
    active_players: Seq<(u64, UserId)>,
)
    requires
        s.valid(),
        s.pending > 0,
        find_entity(pending_players, user_id) is None,
        find_entity(active_players, user_id) is Some,
    ensures
        ({
            let joined = connected_view(s, user_id, client_id);
            let left = disconnected_view(joined, client_id, pending_players, active_players);
            &&& joined.valid()
            &&& joined.player_count() == s.player_count()
            &&& joined.clients.contains_key(client_id)
            &&& joined.clients[client_id] == user_id
            &&& left.valid()
            &&& left.player_count() + 1 == s.player_count()
            &&& left.pending + 1 == s.pending
            &&& left.active == s.active
            &&& !left.clients.contains_key(client_id)
        }),
{
    let joined = connected_view(s, user_id, client_id);
    assert(joined.clients.contains_key(client_id));
}

/// A session that has just become empty shuts down after
/// `SESSION_SHUTDOWN_TIMEOUT_NANOS` of ticks, and not before.
pub proof fn lemma_emptied_session_shuts_down_when_due(t: TimerView, deltas: Seq<nat>)
    requires
        t.valid(),
        t.duration == crate::session::SESSION_SHUTDOWN_TIMEOUT_NANOS,
    ensures
        ticked_all(SessionView::emptied_timer(t), deltas).finished <==> total(deltas)
            >= crate::session::SESSION_SHUTDOWN_TIMEOUT_NANOS,
{
    assert(SessionView::emptied_timer(t) == TimerView::fresh(t.duration));
    lemma_timer_finishes_when_due(t.duration, deltas);
}

/// The session after a series of `update_shutdown_timer` calls, one per
/// delta.
pub open spec fn after_shutdown_updates(s: SessionView, deltas: Seq<nat>) -> SessionView
    decreases deltas.len(),
{
    if deltas.len() == 0 {
        s
    } else {
        let p = after_shutdown_updates(s, deltas.drop_last());
        SessionView { shutdown_timer: p.shutdown_timer.ticked(deltas.last()), ..p }
    }
}

proof fn lemma_updates_tick_the_timer(s: SessionView, deltas: Seq<nat>)
    ensures
        after_shutdown_updates(s, deltas) == (SessionView {
            shutdown_timer: ticked_all(s.shutdown_timer, deltas),
            ..s
        }),
    decreases deltas.len(),
{
    if deltas.len() > 0 {
        lemma_updates_tick_the_timer(s, deltas.drop_last());
    }
}

proof fn lemma_finished_stays_over_ticks(t: TimerView, deltas: Seq<nat>)
    requires
        t.finished,
    ensures
        ticked_all(t, deltas) == t,
    decreases deltas.len(),
{
    if deltas.len() > 0 {
        lemma_finished_stays_over_ticks(t, deltas.drop_last());
    }
}

proof fn lemma_paused_stays_over_ticks(t: TimerView, deltas: Seq<nat>)
    requires
        t.paused,
    ensures
        ticked_all(t, deltas) == t,
    decreases deltas.len(),
{
    if deltas.len() > 0 {
        lemma_paused_stays_over_ticks(t, deltas.drop_last());
    }
}

proof fn lemma_ticked_all_append(t: TimerView, a: Seq<nat>, b: Seq<nat>)
    ensures
        ticked_all(t, a + b) == ticked_all(ticked_all(t, a), b),
    decreases b.len(),
{
    if b.len() == 0 {
        assert(a + b =~= a);
    } else {
        assert((a + b).drop_last() =~= a + b.drop_last());
        lemma_ticked_all_append(t, a, b.drop_last());
    }
}

/// Calls of `update_shutdown_timer` on a session that has just become
/// empty (its shutdown timer restarted by the last player leaving) answer
/// `true` exactly once the deltas passed add up to
/// `SESSION_SHUTDOWN_TIMEOUT_NANOS`, and `true` on every call after that;
/// the session is otherwise left as it was.
pub proof fn lemma_shutdown_updates_after_emptying(s: SessionView, t: TimerView, deltas: Seq<nat>, later: Seq<nat>)
    requires
        t.valid(),
        t.duration == crate::session::SESSION_SHUTDOWN_TIMEOUT_NANOS,
        s.shutdown_timer == SessionView::emptied_timer(t),
    ensures
        after_shutdown_updates(s, deltas).shutdown_timer.finished <==> total(deltas)
            >= crate::session::SESSION_SHUTDOWN_TIMEOUT_NANOS,
        after_shutdown_updates(s, deltas).shutdown_timer.finished ==> after_shutdown_updates(
            s,
            deltas + later,
        ).shutdown_timer.finished,
        after_shutdown_updates(s, deltas) == (SessionView {
            shutdown_timer: after_shutdown_updates(s, deltas).shutdown_timer,
            ..s
        }),
{
    lemma_updates_tick_the_timer(s, deltas);
    lemma_updates_tick_the_timer(s, deltas + later);
    lemma_emptied_session_shuts_down_when_due(t, deltas);
    lemma_ticked_all_append(s.shutdown_timer, deltas, later);
    if ticked_all(s.shutdown_timer, deltas).finished {
        lemma_finished_stays_over_ticks(ticked_all(s.shutdown_timer, deltas), later);
    }
}

/// The answers of a series of `update_shutdown_timer` calls on a session
/// that has just become empty, call by call: the call after the first `k`
/// deltas answers `true` exactly when those deltas add up to
/// `SESSION_SHUTDOWN_TIMEOUT_NANOS`.
pub proof fn lemma_each_shutdown_answer(s: SessionView, t: TimerView, deltas: Seq<nat>)
    requires
        t.valid(),
        t.duration == crate::session::SESSION_SHUTDOWN_TIMEOUT_NANOS,
        s.shutdown_timer == SessionView::emptied_timer(t),
    ensures
        forall|k: int|
            0 <= k <= deltas.len() ==> (after_shutdown_updates(s, #[trigger] deltas.take(k)).shutdown_timer.finished
                <==> total(deltas.take(k)) >= crate::session::SESSION_SHUTDOWN_TIMEOUT_NANOS),
{
    assert forall|k: int| 0 <= k <= deltas.len() implies (after_shutdown_updates(
        s,
        #[trigger] deltas.take(k),
    ).shutdown_timer.finished <==> total(deltas.take(k)) >= crate::session::SESSION_SHUTDOWN_TIMEOUT_NANOS) by {
        lemma_shutdown_updates_after_emptying(s, t, deltas.take(k), Seq::empty());
    }
}

/// While its shutdown timer is held (anyone in the session) and has not
/// finished, calls of `update_shutdown_timer` answer `false` and change
/// nothing.
pub proof fn lemma_held_shutdown_timer_answers_false(s: SessionView, deltas: Seq<nat>)
    requires
        s.shutdown_timer.paused,
        !s.shutdown_timer.finished,
    ensures
        !after_shutdown_updates(s, deltas).shutdown_timer.finished,
        after_shutdown_updates(s, deltas) == s,
{
    lemma_updates_tick_the_timer(s, deltas);
    lemma_paused_stays_over_ticks(s.shutdown_timer, deltas);
}

// ---------------------------------------------------------------------
// Heartbeats
// ---------------------------------------------------------------------

/// What a game server reports of its hosted session in a heartbeat is what
/// the backend records of that session; a server hosting no session gets
/// no session record. The server record keeps the reported addresses,
/// port, state and backend.
pub proof fn lemma_heartbeat_session_roundtrip(
    server_id: u128,
    addrs: Seq<Seq<char>>,
    port: u16,
    state: GameServerState,
    orchestration: GameServerOrchestration,
    session: Option<HostedSession>,
    pending_player_ids: Seq<UserId>,
    active_player_ids: Seq<UserId>,
)
    ensures
        ({
            let report = heartbeat_report(
                addrs,
                port,
                state,
                orchestration,
                session,
                pending_player_ids,
                active_player_ids,
            );
            &&& match session {
                Some(s) => session_record(server_id, report) == Ok::<GameSessionRecordView, SessionRecordError>(
                    GameSessionRecordView {
                        game_session_id: s.session_id,
                        server_id,
                        max_players: s.max_players,
                        active_player_ids,
                        pending_player_ids,
                    },
                ),
                None => session_record(server_id, report) == Err::<GameSessionRecordView, SessionRecordError>(
                    SessionRecordError::MissingGameSessionId,
                ),
            }
            &&& server_record(server_id, report).addrs == addrs
            &&& server_record(server_id, report).port == port
            &&& server_record(server_id, report).state == state
            &&& server_record(server_id, report).orchestration == orchestration
            &&& server_record(server_id, report).server_id == server_id
        }),
{
}

// ---------------------------------------------------------------------
// Orchestration
// ---------------------------------------------------------------------

/// A server shuts down when empty exactly when it runs under a managed
/// backend, that is, one the backend service knows as other than local.
pub proof fn lemma_shutdown_empty_iff_managed(o: Orchestration)
    ensures
        spec_shutdown_empty(o) <==> spec_api_type(o) != GameServerOrchestration::Local,
{
}

// ---------------------------------------------------------------------
// Advertised addresses
// ---------------------------------------------------------------------

/// Only addresses fit for clients are advertised.
pub open spec fn all_advertised(v4: Set<u32>, v6: Set<u128>) -> bool {
    &&& forall|a: u32| #[trigger] v4.contains(a) ==> v4_advertised(a)
    &&& forall|a: u128| #[trigger] v6.contains(a) ==> v6_advertised(a)
}

/// A server never advertises a loopback or IPv4 link-local address: adding
/// a listening address keeps that so, and the addresses taken from the
/// host's interfaces are all fit.
pub proof fn lemma_never_advertises_loopback(
    v4: Set<u32>,
    v6: Set<u128>,
    ip: IpAddress,
    interfaces: Seq<crate::network::NetworkInterfaceInfo>,
)
    requires
        all_advertised(v4, v6),
    ensures
        all_advertised(with_v4(v4, ip), with_v6(v6, ip)),
        all_advertised(
            Set::new(|a: u32| listed_v4(interfaces, a)),
            Set::new(|a: u128| listed_v6(interfaces, a)),
        ),
{
}

// ---------------------------------------------------------------------
// Backfill search
// ---------------------------------------------------------------------

/// How much of a backfill search is left: each entry can cost at most three
/// lookups.
pub open spec fn backfill_rank(n: int, phase: BackfillPhase) -> int {
    match phase {
        BackfillPhase::AwaitSession { index, .. } => 3 * (n - index) - 1,
        BackfillPhase::AwaitRemoval { index } => 3 * (n - index) - 2,
        BackfillPhase::AwaitServer { index } => 3 * (n - index) - 2,
        BackfillPhase::Done => 0,
    }
}

pub open spec fn phase_in_bounds(n: int, phase: BackfillPhase) -> bool {
    match phase {
        BackfillPhase::AwaitSession { index, .. } => index < n,
        BackfillPhase::AwaitRemoval { index } => index < n,
        BackfillPhase::AwaitServer { index } => index < n,
        BackfillPhase::Done => true,
    }
}

proof fn lemma_first_open_bounds(sessions: Seq<(Seq<char>, u64)>, from: int)
    requires
        0 <= from,
    ensures
        from <= first_open(sessions, from) || first_open(sessions, from) == sessions.len(),
        first_open(sessions, from) <= sessions.len(),
        first_open(sessions, from) < sessions.len() ==> sessions[first_open(sessions, from)].1 > 0,
    decreases sessions.len() - from,
{
    if from < sessions.len() && sessions[from].1 == 0 {
        lemma_first_open_bounds(sessions, from + 1);
    }
}

/// A backfill search ends: every lookup it waits for brings it strictly
/// closer to its end, so it makes at most three lookups per entry.
pub proof fn lemma_backfill_search_ends(
    sessions: Seq<(Seq<char>, u64)>,
    phase: BackfillPhase,
    event: BackfillEventView,
)
    requires
        sessions.len() <= usize::MAX,
        phase_in_bounds(sessions.len() as int, phase),
        crate::matchmaking::backfill_expects(phase, event),
    ensures
        phase_in_bounds(sessions.len() as int, backfill_next(sessions, phase, event).0),
        0 <= backfill_rank(sessions.len() as int, backfill_next(sessions, phase, event).0) < backfill_rank(
            sessions.len() as int,
            phase,
        ),
{
    match phase {
        BackfillPhase::AwaitRemoval { index } => {
            lemma_first_open_bounds(sessions, index + 1);
        },
        BackfillPhase::AwaitServer { index } => {
            lemma_first_open_bounds(sessions, index + 1);
        },
        _ => {},
    }
}

/// A backfill search only looks up sessions with an open slot, by the
/// identifier its entry names.
pub proof fn lemma_backfill_reads_open_sessions(sessions: Seq<(Seq<char>, u64)>, from: int, id: u128)
    requires
        0 <= from,
        backfill_scan(sessions, from).1 == BackfillActionView::ReadSession(id),
    ensures
        ({
            let i = first_open(sessions, from);
            &&& from <= i < sessions.len()
            &&& sessions[i].1 > 0
            &&& crate::ids::uuid_parse(sessions[i].0) == Some(id)
            &&& forall|k: int| from <= k < i ==> #[trigger] sessions[k].1 == 0
        }),
    decreases sessions.len() - from,
{
    lemma_first_open_bounds(sessions, from);
    if from < sessions.len() && sessions[from].1 == 0 {
        lemma_backfill_reads_open_sessions(sessions, from + 1, id);
    }
}

// ---------------------------------------------------------------------
// Finding a server: what the player is answered
// ---------------------------------------------------------------------

/// When the allocation for a player ends, the player is answered with what
/// it ended with: the server it placed, or none.
pub proof fn lemma_allocation_end_is_the_answer(
    user_id: UserId,
    phase: AllocationPhase,
    event: AllocationEventView,
    found: Option<GameServerRecordView>,
)
    requires
        allocation_next(user_id, None, phase, event).1 == AllocationActionView::Finished(found),
    ensures
        find_server_next(user_id, FindServerStateView::Allocate(phase), FindServerEventView::Allocate(event))
            == (FindServerStateView::Done, FindServerActionView::Respond(found)),
{
}

/// A placed server whose record shows its session running is the server
/// the player is answered with.
pub proof fn lemma_running_placed_server_is_the_answer(user_id: UserId, server_id: u128, s: GameServerRecordView)
    requires
        s.state == GameServerState::InGame,
    ensures
        find_server_next(
            user_id,
            FindServerStateView::Allocate(AllocationPhase::Polling { server_id }),
            FindServerEventView::Allocate(AllocationEventView::Polled(s)),
        ).1 == FindServerActionView::Respond(Some(s)),
{
}

/// A backfill search that finds a server answers the player with it; one
/// that finds none hands over to allocation, which starts by taking an
/// idle server.
pub proof fn lemma_backfill_end_is_the_answer(
    user_id: UserId,
    sessions: Seq<(Seq<char>, u64)>,
    phase: BackfillPhase,
    event: BackfillEventView,
)
    ensures
        backfill_next(sessions, phase, event).1 matches BackfillActionView::Finished(Some(s)) ==> find_server_next(
            user_id,
            FindServerStateView::Backfill(sessions, phase),
            FindServerEventView::Backfill(event),
        ).1 == FindServerActionView::Respond(Some(s)),
        backfill_next(sessions, phase, event).1 == BackfillActionView::Finished(None) ==> find_server_next(
            user_id,
            FindServerStateView::Backfill(sessions, phase),
            FindServerEventView::Backfill(event),
        ) == (
            FindServerStateView::Allocate(AllocationPhase::AwaitPop),
            FindServerActionView::Allocate(AllocationActionView::PopWaitingServer),
        ),
{
}

/// Once the backfill set is read, a player is sent to allocation only when
/// no entry has open slots; otherwise the first entry with open slots is
/// looked up.
pub proof fn lemma_backfill_comes_first(user_id: UserId, sessions: Seq<(Seq<char>, u64)>, j: int)
    ensures
        (forall|k: int| 0 <= k < sessions.len() ==> sessions[k].1 == 0) ==> find_server_next(
            user_id,
            FindServerStateView::ListBackfill,
            FindServerEventView::BackfillListed(sessions),
        ) == (
            FindServerStateView::Allocate(AllocationPhase::AwaitPop),
            FindServerActionView::Allocate(AllocationActionView::PopWaitingServer),
        ),
        (0 <= j < sessions.len() && sessions[j].1 > 0 && (forall|k: int| 0 <= k < j ==> sessions[k].1 == 0)
            && uuid_parse(sessions[j].0) is Some) ==> find_server_next(
            user_id,
            FindServerStateView::ListBackfill,
            FindServerEventView::BackfillListed(sessions),
        ).1 == FindServerActionView::Backfill(BackfillActionView::ReadSession(uuid_parse(sessions[j].0)->0)),
{
    lemma_search_scans_for_first_open_entry(sessions, 0, j);
}

// ---------------------------------------------------------------------
// Allocation: the steps before watching
// ---------------------------------------------------------------------

/// An allocation reads the record of the one server it took (or fails on
/// an entry that is no identifier, or ends when none was taken); asks a
/// server waiting for placement to host the named session for the player
/// alone, and gives up on one that is not waiting; and ends with nothing
/// when the placement times out.
pub proof fn lemma_allocation_steps(
    user_id: UserId,
    expected: Option<u128>,
    popped: Seq<(Seq<char>, u64)>,
    server_id: u128,
    s: GameServerRecordView,
)
    ensures
        popped.len() != 1 ==> allocation_next(user_id, expected, AllocationPhase::AwaitPop, AllocationEventView::Popped(popped))
            == (AllocationPhase::Done, AllocationActionView::Finished(None)),
        popped.len() == 1 ==> allocation_next(user_id, expected, AllocationPhase::AwaitPop, AllocationEventView::Popped(popped))
            == match uuid_parse(popped[0].0) {
            Some(id) => (AllocationPhase::AwaitServer { server_id: id }, AllocationActionView::ReadServer(id)),
            None => (AllocationPhase::Done, AllocationActionView::InvalidServerId),
        },
        s.state == GameServerState::WaitingForPlacement ==> allocation_next(
            user_id,
            expected,
            AllocationPhase::AwaitServer { server_id },
            AllocationEventView::ServerRead(Some(s)),
        ) == (
            AllocationPhase::AwaitNotify { server_id },
            AllocationActionView::NotifyPlacement { server_id, game_session_id: expected, player_ids: seq![user_id] },
        ),
        s.state != GameServerState::WaitingForPlacement ==> allocation_next(
            user_id,
            expected,
            AllocationPhase::AwaitServer { server_id },
            AllocationEventView::ServerRead(Some(s)),
        ) == (AllocationPhase::Done, AllocationActionView::Finished(None)),
        allocation_next(user_id, expected, AllocationPhase::AwaitServer { server_id }, AllocationEventView::ServerRead(None))
            == (AllocationPhase::Done, AllocationActionView::Finished(None)),
        allocation_next(user_id, expected, AllocationPhase::AwaitNotify { server_id }, AllocationEventView::Notified)
            == (AllocationPhase::Polling { server_id }, AllocationActionView::PollServer(server_id)),
        allocation_next(user_id, expected, AllocationPhase::Polling { server_id }, AllocationEventView::TimedOut)
            == (AllocationPhase::Done, AllocationActionView::Finished(None)),
{
}

// ---------------------------------------------------------------------
// Backfill search: stale entries are skipped, not the end
// ---------------------------------------------------------------------

proof fn lemma_first_open_is(sessions: Seq<(Seq<char>, u64)>, from: int, j: int)
    requires
        0 <= from <= j <= sessions.len(),
        j < sessions.len() ==> sessions[j].1 > 0,
        forall|k: int| from <= k < j ==> sessions[k].1 == 0,
    ensures
        first_open(sessions, from) == j,
    decreases j - from,
{
    if from < j {
        lemma_first_open_is(sessions, from + 1, j);
    }
}

/// The lookup a search makes when it resumes after entry `i`: the next
/// entry `j` with open slots is looked up by its session identifier (or
/// the search fails when that entry is no identifier); whether entry `i`'s
/// session had no record (and was removed from the set) or its server had
/// none.
pub proof fn lemma_search_moves_on_to_next_open_entry(sessions: Seq<(Seq<char>, u64)>, i: usize, j: int)
    requires
        i < j < sessions.len(),
        sessions[j].1 > 0,
        forall|k: int| i < k < j ==> sessions[k].1 == 0,
    ensures
        ({
            let expected = match uuid_parse(sessions[j].0) {
                Some(id) => (
                    BackfillPhase::AwaitSession { index: j as usize, session_id: id },
                    BackfillActionView::ReadSession(id),
                ),
                None => (BackfillPhase::Done, BackfillActionView::InvalidSessionId),
            };
            &&& backfill_next(sessions, BackfillPhase::AwaitRemoval { index: i }, BackfillEventView::SessionRemoved)
                == expected
            &&& backfill_next(
                sessions,
                BackfillPhase::AwaitServer { index: i },
                BackfillEventView::ServerRead(None),
            ) == expected
        }),
{
    lemma_first_open_is(sessions, i + 1, j);
}

/// A search resuming after entry `i` ends with nothing found exactly when
/// no later entry has open slots.
pub proof fn lemma_search_ends_only_without_open_entries(sessions: Seq<(Seq<char>, u64)>, i: usize)
    requires
        i < sessions.len(),
    ensures
        (backfill_next(sessions, BackfillPhase::AwaitRemoval { index: i }, BackfillEventView::SessionRemoved).1
            == BackfillActionView::Finished(None)) <==> (forall|k: int| i < k < sessions.len() ==> sessions[k].1 == 0),
        (backfill_next(sessions, BackfillPhase::AwaitServer { index: i }, BackfillEventView::ServerRead(None)).1
            == BackfillActionView::Finished(None)) <==> (forall|k: int| i < k < sessions.len() ==> sessions[k].1 == 0),
{
    if forall|k: int| i < k < sessions.len() ==> sessions[k].1 == 0 {
        lemma_first_open_is(sessions, i + 1, sessions.len() as int);
    } else {
        let k0 = choose|k: int| i < k < sessions.len() && sessions[k].1 != 0;
        let j = first_open(sessions, i + 1);
        lemma_first_open_bounds_local(sessions, i + 1, k0);
        lemma_search_moves_on_to_next_open_entry(sessions, i, j);
    }
}

/// A search that (re)starts at entry `from` looks up the first entry from
/// there with open slots by its session identifier (or fails when that
/// entry is no identifier), and ends with nothing found exactly when no
/// entry from there has open slots. A search starts at entry 0.
pub proof fn lemma_search_scans_for_first_open_entry(sessions: Seq<(Seq<char>, u64)>, from: int, j: int)
    requires
        0 <= from <= sessions.len(),
    ensures
        (backfill_scan(sessions, from).1 == BackfillActionView::Finished(None)) <==> (forall|k: int|
            from <= k < sessions.len() ==> sessions[k].1 == 0),
        (from <= j < sessions.len() && sessions[j].1 > 0 && forall|k: int| from <= k < j ==> sessions[k].1 == 0)
            ==> backfill_scan(sessions, from) == match uuid_parse(sessions[j].0) {
            Some(id) => (
                BackfillPhase::AwaitSession { index: j as usize, session_id: id },
                BackfillActionView::ReadSession(id),
            ),
            None => (BackfillPhase::Done, BackfillActionView::InvalidSessionId),
        },
{
    if forall|k: int| from <= k < sessions.len() ==> sessions[k].1 == 0 {
        lemma_first_open_is(sessions, from, sessions.len() as int);
    } else {
        let k0 = choose|k: int| from <= k < sessions.len() && sessions[k].1 != 0;
        lemma_first_open_bounds_local(sessions, from, k0);
    }
    if from <= j < sessions.len() && sessions[j].1 > 0 && forall|k: int| from <= k < j ==> sessions[k].1 == 0 {
        lemma_first_open_is(sessions, from, j);
    }
}

proof fn lemma_first_open_bounds_local(sessions: Seq<(Seq<char>, u64)>, from: int, k0: int)
    requires
        0 <= from <= k0 < sessions.len(),
        sessions[k0].1 > 0,
    ensures
        from <= first_open(sessions, from) <= k0,
        sessions[first_open(sessions, from)].1 > 0,
        forall|k: int| from <= k < first_open(sessions, from) ==> sessions[k].1 == 0,
    decreases k0 - from,
{
    if sessions[from].1 == 0 {
        lemma_first_open_bounds_local(sessions, from + 1, k0);
    }
}

// ---------------------------------------------------------------------
// Allocation: only another reported session gives a server up
// ---------------------------------------------------------------------

/// A watched server whose record reports no session, or the expected one,
/// is not given up: the allocation ends with it once its session runs and
/// keeps watching it until then.
pub proof fn lemma_watched_server_kept_unless_other_session(
    user_id: UserId,
    expected: Option<u128>,
    server_id: u128,
    s: GameServerRecordView,
)
    requires
        s.game_session_id is None || s.game_session_id == expected,
    ensures
        allocation_next(
            user_id,
            expected,
            AllocationPhase::Polling { server_id },
            AllocationEventView::Polled(s),
        ) == if s.state == GameServerState::InGame {
            (AllocationPhase::Done, AllocationActionView::Finished(Some(s)))
        } else {
            (AllocationPhase::Polling { server_id }, AllocationActionView::PollServer(server_id))
        },
{
}

/// A watched server whose record reports another session than the one
/// named is given up, and another idle server is taken.
pub proof fn lemma_watched_server_given_up_for_other_session(
    user_id: UserId,
    expected: u128,
    reported: u128,
    server_id: u128,
    s: GameServerRecordView,
)
    requires
        s.game_session_id == Some(reported),
        reported != expected,
    ensures
        allocation_next(
            user_id,
            Some(expected),
            AllocationPhase::Polling { server_id },
            AllocationEventView::Polled(s),
        ) == (AllocationPhase::AwaitPop, AllocationActionView::PopWaitingServer),
{
}

// ---------------------------------------------------------------------
// Advertised addresses: exactly loopback and link-local are left out
// ---------------------------------------------------------------------

/// An IPv4 address is left out exactly when it is loopback (first octet
/// 127) or link-local (first octets 169.254); any other listening address
/// is added to what is advertised. The one IPv6 loopback address is `::1`.
pub proof fn lemma_v4_left_out_exactly(s: Set<u32>, a: u32, v6: u128)
    ensures
        spec_v4_is_loopback(a) <==> a / 0x0100_0000 == 127,
        spec_v6_is_loopback(v6) <==> v6 == 1,
        spec_v4_is_link_local(a) <==> (a / 0x0100_0000 == 169 && (a / 0x1_0000) % 0x100 == 254),
        v4_advertised(a) <==> !(a / 0x0100_0000 == 127) && !(a / 0x0100_0000 == 169 && (a / 0x1_0000) % 0x100
            == 254),
        v4_advertised(a) ==> with_v4(s, IpAddress::V4(a)) == s.insert(a),
        !v4_advertised(a) ==> with_v4(s, IpAddress::V4(a)) == s,
{
    let q = a / 0x1_0000;
    assert(a / 0x0100_0000 == q / 0x100) by (nonlinear_arith)
        requires
            q == a / 0x1_0000,
    ;
}

// ---------------------------------------------------------------------
// Sessions: becoming empty restarts the shutdown countdown
// ---------------------------------------------------------------------

/// The shutdown timer of a session that has just become empty: nothing
/// counted, not finished, running, same duration; it finishes on a tick
/// exactly when the tick reaches `SESSION_SHUTDOWN_TIMEOUT_NANOS`, whatever
/// it had counted before.
pub open spec fn restarted(t: TimerView, before: TimerView) -> bool {
    &&& t.elapsed == 0
    &&& !t.finished
    &&& !t.paused
    &&& t.duration == before.duration
}

/// A leave that empties the session restarts its shutdown timer; a leave
/// that does not leaves the timer as it was.
pub proof fn lemma_leave_restarts_timer_when_empty(t: TimerView, count: nat, d: nat)
    requires
        t.valid(),
        t.duration == SESSION_SHUTDOWN_TIMEOUT_NANOS,
    ensures
        count == 0 ==> restarted(SessionView::timer_after_leave(t, count), t),
        count == 0 ==> (SessionView::timer_after_leave(t, count).ticked(d).finished <==> d
            >= SESSION_SHUTDOWN_TIMEOUT_NANOS),
        count > 0 ==> SessionView::timer_after_leave(t, count) == t,
{
}

/// A disconnection that leaves the session empty restarts its shutdown
/// timer.
pub proof fn lemma_disconnect_emptying_restarts_timer(
    s: SessionView,
    client_id: ClientId,
    pending_players: Seq<(u64, UserId)>,
    active_players: Seq<(u64, UserId)>,
)
    requires
        s.valid(),
        disconnected_view(s, client_id, pending_players, active_players).player_count() == 0,
    ensures
        restarted(disconnected_view(s, client_id, pending_players, active_players).shutdown_timer, s.shutdown_timer),
{
}

/// Reservations timing out that leave the session empty restart its
/// shutdown timer.
pub proof fn lemma_timeouts_emptying_restart_timer(s: SessionView, k: nat)
    requires
        s.valid(),
        0 < k <= s.pending,
        s.player_count() == k,
    ensures
        after_timeouts(s, k).player_count() == 0,
        restarted(after_timeouts(s, k).shutdown_timer, s.shutdown_timer),
{
}

/// Reservations timing out free exactly their slots; while players remain,
/// the shutdown timer is left as it was.
pub proof fn lemma_timeouts_free_their_slots(s: SessionView, k: nat)
    requires
        s.valid(),
        k <= s.pending,
    ensures
        after_timeouts(s, k).pending + k == s.pending,
        after_timeouts(s, k).active == s.active,
        after_timeouts(s, k).clients == s.clients,
        after_timeouts(s, k).max_players == s.max_players,
        after_timeouts(s, k).session_id == s.session_id,
        (k == 0 || s.player_count() > k) ==> after_timeouts(s, k).shutdown_timer == s.shutdown_timer,
        after_timeouts(s, k).valid(),
{
}

} // verus!
