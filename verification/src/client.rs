//! The game client's flow from the menu to a game.
use vstd::prelude::*;

use crate::gameclient::FindServerResponseV1;
use crate::ids::{EntityId, UserId};
use crate::network::{ConnectEvent, PlayerClientId};

verus! {

/// The phases of the game client.
#[derive(Debug, Clone, Copy, PartialEq, Eq, Structural)]
pub enum AppState {
    MainMenu,
    ConnectToServer,
    InGame,
}

/// The server the client plays on: `None` for a local game.
#[derive(Debug)]
pub struct ClientState {
    host: Option<String>,
}

pub open spec fn opt_text(s: Option<String>) -> Option<Seq<char>> {
    match s {
        Some(t) => Some(t@),
        None => None,
    }
}

impl ClientState {
    pub closed spec fn host_view(&self) -> Option<Seq<char>> {
        opt_text(self.host)
    }

    /// No server: a local game.
    pub fn local() -> (c: ClientState)
        ensures
            c.host_view() is None,
    {
        ClientState { host: None }
    }

    /// Playing on the server at `host`.
    pub fn new_remote(host: String) -> (c: ClientState)
        ensures
            c.host_view() == Some(host@),
    {
        ClientState { host: Some(host) }
    }

    pub fn host(&self) -> (h: &Option<String>)
        ensures
            opt_text(*h) == self.host_view(),
    {
        &self.host
    }
}

/// The client has reached a server (or started a local game): it tells the
/// server which player it is and enters the game.
pub fn on_connected_server(client_id: PlayerClientId, user_id: UserId) -> (r: (ConnectEvent, AppState))
    ensures
        r == (ConnectEvent(user_id), AppState::InGame),
{
    (ConnectEvent(user_id), AppState::InGame)
}

/// What the client does with the backend's answer to its search.
#[derive(Debug)]
pub enum FindServerOutcome {
    /// No server was found: back to the main menu.
    BackToMenu,
    /// Connect to this address and port.
    Connect { address: String, port: u16 },
}

/// Decides on the backend's answer: an empty address means no server.
pub fn on_find_server_response(resp: FindServerResponseV1) -> (r: FindServerOutcome)
    ensures
        resp.address@.len() == 0 ==> r is BackToMenu,
        resp.address@.len() > 0 ==> (r matches FindServerOutcome::Connect { address, port } && address@
            == resp.address@ && port == resp.port),
{
    if resp.address.as_str().is_empty() {
        FindServerOutcome::BackToMenu
    } else {
        FindServerOutcome::Connect { address: resp.address, port: resp.port }
    }
}

/// A pointer button.
#[derive(Debug, Clone, Copy, PartialEq, Eq, Structural)]
pub enum PointerButton {
    Primary,
    Secondary,
    Middle,
}

/// Whether a click reached the element that listens for it, with the
/// button it expects.
pub fn check_click_event(
    listener: EntityId,
    target: EntityId,
    event_button: PointerButton,
    expected_button: PointerButton,
) -> (b: bool)
    ensures
        b == (target == listener && event_button == expected_button),
{
    target == listener && event_button == expected_button
}

/// Whether player input is read this frame: the window must exist and
/// have focus, and the game menu must not be showing.
pub fn should_update_input(window_focused: Option<bool>, game_menu_visible: Option<bool>) -> (b: bool)
    ensures
        b == (window_focused == Some(true) && game_menu_visible != Some(true)),
{
    match window_focused {
        Some(focused) => {
            if !focused {
                return false;
            }
        },
        None => return false,
    }
    match game_menu_visible {
        Some(visible) => !visible,
        None => true,
    }
}

/// The visibility of a UI element.
#[derive(Debug, Clone, Copy, PartialEq, Eq, Structural)]
pub enum Visibility {
    Inherited,
    Hidden,
    Visible,
}

/// Shows the game menu if it is not showing, hides it otherwise.
pub fn toggle_game_menu(current: Visibility) -> (next: Visibility)
    ensures
        next == if current == Visibility::Visible {
            Visibility::Hidden
        } else {
            Visibility::Visible
        },
{
    if current == Visibility::Visible {
        Visibility::Hidden
    } else {
        Visibility::Visible
    }
}

/// A gamepad came or went.
#[derive(Debug, Clone, Copy, PartialEq, Eq, Structural)]
pub enum GamepadConnection {
    Connected(EntityId),
    Disconnected(EntityId),
}

/// The gamepad of the last connection among `events`, if any.
pub open spec fn last_connected(events: Seq<GamepadConnection>) -> Option<EntityId>
    decreases events.len(),
{
    if events.len() == 0 {
        None
    } else {
        match events.last() {
            GamepadConnection::Connected(g) => Some(g),
            GamepadConnection::Disconnected(_) => last_connected(events.drop_last()),
        }
    }
}

/// The gamepad the player uses after a frame's connection events, decided
/// against the gamepad held at the start of the frame: a held gamepad is
/// kept unless the frame disconnects it, and is never replaced within the
/// frame; with none held, the last gamepad connected in the frame is taken.
pub open spec fn gamepad_after_frame(start: Option<EntityId>, events: Seq<GamepadConnection>) -> Option<EntityId> {
    match start {
        None => last_connected(events),
        Some(c) => if exists|i: int| 0 <= i < events.len() && events[i] == GamepadConnection::Disconnected(c) {
            None
        } else {
            Some(c)
        },
    }
}

/// Decides which gamepad the player uses after a frame's gamepad
/// connection events (see [`gamepad_after_frame`]).
pub fn handle_gamepad_events(start: Option<EntityId>, events: &[GamepadConnection]) -> (next: Option<EntityId>)
    ensures
        next == gamepad_after_frame(start, events@),
{
    let mut next = start;
    let mut i: usize = 0;
    while i < events.len()
        invariant
            i <= events@.len(),
            next == match start {
                None => last_connected(events@.take(i as int)),
                Some(c) => if exists|k: int| 0 <= k < i && events@[k] == GamepadConnection::Disconnected(c) {
                    None
                } else {
                    Some(c)
                },
            },
        decreases events.len() - i,
    {
        let e = events[i];
        assert(events@.take(i + 1).drop_last() =~= events@.take(i as int));
        assert(events@.take(i + 1).last() == e);
        match e {
            GamepadConnection::Connected(g) => {
                if start.is_none() {
                    next = Some(g);
                }
            },
            GamepadConnection::Disconnected(g) => {
                if start == Some(g) {
                    next = None;
                }
            },
        }
        i = i + 1;
    }
    assert(events@.take(events@.len() as int) =~= events@);
    next
}

} // verus!
