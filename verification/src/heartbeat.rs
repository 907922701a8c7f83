//! How the backend records a game server's heartbeat.
use vstd::prelude::*;

use crate::gameserver::{PostHeartbeatRequestV1, PostHeartbeatResponseV1};
use crate::matchmaking::opt_session_view;
use crate::models::{
    server_record, session_record, GameServerInfo, GameServerRecordView, GameSessionInfo,
    GameSessionRecordView,
};

verus! {

/// How long a heartbeat's records live, in seconds.
pub const HEARTBEAT_TTL: u64 = 60;

/// What a heartbeat writes to the backend's store: the server's record and,
/// when the report holds one, the session's record, each to expire after
/// `ttl` seconds; both are indexed with score `now`, and index entries
/// scored up to `expire_before` are dropped.
#[derive(Debug)]
pub struct HeartbeatWrites {
    pub server: GameServerInfo,
    pub session: Option<GameSessionInfo>,
    pub ttl: u64,
    pub now: u64,
    pub expire_before: u64,
}

pub open spec fn ok_record(r: Result<GameSessionRecordView, crate::models::SessionRecordError>) -> Option<
    GameSessionRecordView,
> {
    match r {
        Ok(s) => Some(s),
        Err(_) => None,
    }
}

/// Records the heartbeat of server `server_id` at time `now` (seconds since
/// the epoch). Answers the writes to make and the reply.
pub fn post_heartbeat_v1(server_id: u128, request: PostHeartbeatRequestV1, now: u64) -> (r: (
    HeartbeatWrites,
    PostHeartbeatResponseV1,
))
    requires
        now >= HEARTBEAT_TTL,
    ensures
        r.0.server@ == server_record(server_id, request.server_info@),
        opt_session_view(r.0.session) == ok_record(session_record(server_id, request.server_info@)),
        r.0.ttl == HEARTBEAT_TTL,
        r.0.now == now,
        r.0.expire_before == now - HEARTBEAT_TTL,
{
    let ttl = HEARTBEAT_TTL;
    let expiry = now - ttl;
    let server = GameServerInfo::new(server_id, request.server_info.duplicate());
    let session = match GameSessionInfo::new(server_id, request.server_info) {
        Ok(s) => Some(s),
        Err(_) => None,
    };
    (HeartbeatWrites { server, session, ttl, now, expire_before: expiry }, PostHeartbeatResponseV1 {})
}

} // verus!
