//! Players' bodies in the game world, and the dynamic objects beside them.
use vstd::prelude::*;

use crate::ids::{ClientId, EntityId, UserId};

verus! {

/// A player's body in the game world.
#[derive(Debug, Clone, Copy, PartialEq, Eq, Structural)]
pub struct Player {
    pub user_id: UserId,
    pub client_id: ClientId,
    pub crouched: bool,
}

impl Player {
    /// A standing player of `user_id`, driven by client `client_id`.
    pub fn new(user_id: UserId, client_id: ClientId) -> (p: Player)
        ensures
            p == (Player { user_id, client_id, crouched: false }),
    {
        Player { user_id, client_id, crouched: false }
    }

    /// Follows the crouch input: the player crouches while it is held and
    /// stands otherwise. Answers the change to broadcast to the clients,
    /// if the posture changed.
    pub fn apply_crouch_input(&mut self, crouch: bool) -> (changed: Option<bool>)
        ensures
            final(self).crouched == crouch,
            final(self).user_id == old(self).user_id,
            final(self).client_id == old(self).client_id,
            changed == if old(self).crouched != crouch {
                Some(crouch)
            } else {
                None
            },
    {
        if crouch {
            if !self.crouched {
                self.crouched = true;
                return Some(true);
            }
        } else if self.crouched {
            self.crouched = false;
            return Some(false);
        }
        None
    }
}

/// A player's crouch changed: the entity and whether it now crouches.
#[derive(Debug, Clone, Copy, PartialEq, Eq, Structural)]
pub struct PlayerCrouchEvent(pub EntityId, pub bool);

/// The entities of all the players a client drives.
pub open spec fn players_of_client(players: Seq<(EntityId, Player)>, client_id: ClientId) -> Seq<EntityId>
    decreases players.len(),
{
    if players.len() == 0 {
        Seq::empty()
    } else {
        let rest = players_of_client(players.drop_last(), client_id);
        if players.last().1.client_id == client_id {
            rest.push(players.last().0)
        } else {
            rest
        }
    }
}

/// Finds the entities of all the players a client drives, in order.
pub fn find_players_of_client(players: &[(EntityId, Player)], client_id: ClientId) -> (r: Vec<EntityId>)
    ensures
        r@ == players_of_client(players@, client_id),
{
    let mut r: Vec<EntityId> = Vec::new();
    let mut i: usize = 0;
    while i < players.len()
        invariant
            i <= players@.len(),
            r@ == players_of_client(players@.take(i as int), client_id),
        decreases players.len() - i,
    {
        assert(players@.take(i + 1).drop_last() == players@.take(i as int));
        if players[i].1.client_id == client_id {
            r.push(players[i].0);
        }
        i = i + 1;
    }
    assert(players@.take(players@.len() as int) == players@);
    r
}

/// A kind of dynamic object in the game world.
#[derive(Debug, Clone, Copy, PartialEq, Eq, Structural)]
pub enum Dynamic {
    Ball,
}

impl Dynamic {
    /// The name given to objects of this kind.
    pub fn get_name(&self) -> (name: &'static str)
        ensures
            name@ == "Ball"@,
    {
        match self {
            Dynamic::Ball => "Ball",
        }
    }
}

} // verus!
