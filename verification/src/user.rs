//! Players as the backend knows them.
use vstd::prelude::*;

use crate::ids::{parse_uuid, uuid_parse, UserId};

verus! {

/// Why a user could not be read.
#[derive(Debug, Clone, Copy, PartialEq, Eq, Structural)]
pub enum UserError {
    /// The bearer token is not a player's UUID.
    InvalidToken,
}

/// A player.
#[derive(Debug, Clone, Copy, PartialEq, Eq, Structural)]
pub struct User {
    pub user_id: UserId,
}

impl User {
    /// The player named by a bearer token. A token is, for now, the text
    /// of the player's UUID.
    fn validate_token(bearer_token: &str) -> (r: Result<UserId, UserError>)
        ensures
            match r {
                Ok(id) => uuid_parse(bearer_token@) == Some(id),
                Err(e) => uuid_parse(bearer_token@) is None && e == UserError::InvalidToken,
            },
    {
        let parsed = match parse_uuid(bearer_token) {
            Ok(id) => Some(id),
            Err(_) => None,
        };
        Self::token_user_id(parsed)
    }

    /// The identifier a token names, given what UUID parsing read from it.
    pub fn token_user_id(parsed: Option<UserId>) -> (r: Result<UserId, UserError>)
        ensures
            match parsed {
                Some(id) => r == Ok::<UserId, UserError>(id),
                None => r == Err::<UserId, UserError>(UserError::InvalidToken),
            },
    {
        match parsed {
            Some(id) => Ok(id),
            None => Err(UserError::InvalidToken),
        }
    }

    /// Reads the user with the given identifier. Every identifier names a
    /// user.
    pub fn read_from_user_id(user_id: UserId) -> (r: Result<User, UserError>)
        ensures
            r == Ok::<User, UserError>(User { user_id }),
    {
        Ok(User { user_id })
    }

    /// Reads the user that a bearer token names; the token is refused when
    /// it is not the text of a UUID.
    pub fn read_from_token(bearer_token: &str) -> (r: Result<User, UserError>)
        ensures
            match uuid_parse(bearer_token@) {
                Some(id) => r == Ok::<User, UserError>(User { user_id: id }),
                None => r == Err::<User, UserError>(UserError::InvalidToken),
            },
    {
        let user_id = match Self::validate_token(bearer_token) {
            Ok(id) => id,
            Err(e) => return Err(e),
        };
        Self::read_from_user_id(user_id)
    }
}

} // verus!
