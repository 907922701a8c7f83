//! Game-server orchestration logic: session bookkeeping on the game server,
//! placement and reservation handling, and the records the backend keeps.

pub mod timer;
pub mod ids;
pub mod gameserver;
pub mod gameclient;
pub mod user;
pub mod session;
pub mod notifs;
pub mod text;
pub mod network;
pub mod orchestration;
pub mod server;
pub mod models;
pub mod matchmaking;
pub mod heartbeat;
pub mod player;
pub mod client;
pub mod systems;
pub mod addrtext;
pub mod findserver;
pub mod spectate;
pub mod laws;
