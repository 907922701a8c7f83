//! The orchestration backend a game server runs under.
use vstd::prelude::*;

use crate::gameserver::GameServerOrchestration;

verus! {

/// The orchestration backend of a game server. The handles the Agones and
/// GameLift backends keep stay with the process that talks to them.
#[derive(Debug, Clone, Copy, PartialEq, Eq, Structural)]
pub enum Orchestration {
    Local,
    Agones,
    GameLift,
}

/// Whether an empty session ends a server under this backend.
pub open spec fn spec_shutdown_empty(o: Orchestration) -> bool {
    o != Orchestration::Local
}

/// The backend's name in the messages to the backend service.
pub open spec fn spec_api_type(o: Orchestration) -> GameServerOrchestration {
    match o {
        Orchestration::Local => GameServerOrchestration::Local,
        Orchestration::Agones => GameServerOrchestration::Agones,
        Orchestration::GameLift => GameServerOrchestration::GameLift,
    }
}

impl Orchestration {
    /// Whether an empty session ends the server. A local server stays up;
    /// managed servers are recycled.
    pub fn shutdown_empty(&self) -> (b: bool)
        ensures
            b == spec_shutdown_empty(*self),
    {
        match self {
            Orchestration::Local => false,
            Orchestration::Agones => true,
            Orchestration::GameLift => true,
        }
    }

    /// The backend's name in the messages to the backend service.
    pub fn as_api_type(&self) -> (o: GameServerOrchestration)
        ensures
            o == spec_api_type(*self),
    {
        match self {
            Orchestration::Local => GameServerOrchestration::Local,
            Orchestration::Agones => GameServerOrchestration::Agones,
            Orchestration::GameLift => GameServerOrchestration::GameLift,
        }
    }
}

} // verus!
