//! The vocabulary shared by every part of the service: what can happen in a
//! game, and which role a user holds in it.

use vstd::prelude::*;

verus! {

/// One entry of a game's action log.
#[derive(Clone, Copy, Debug, PartialEq, Eq, Structural)]
pub enum Action {
    Init,
    Move,
    Finished,
}

/// The role of a user in a game: one of the two seats, or a spectator.
#[derive(Clone, Copy, Debug, PartialEq, Eq, Structural)]
pub enum UserRole {
    Seat1,
    Seat2,
    Observer,
}

impl UserRole {
    /// The words shown to a person for this role.
    pub open spec fn label_text(self) -> Seq<char> {
        match self {
            UserRole::Seat1 => "Player 1"@,
            UserRole::Seat2 => "Player 2"@,
            UserRole::Observer => "Observer"@,
        }
    }

    /// The role as it is shown to a person.
    pub fn label(&self) -> (r: String)
        ensures
            r@ == self.label_text(),
    {
        match self {
            UserRole::Seat1 => String::from_str("Player 1"),
            UserRole::Seat2 => String::from_str("Player 2"),
            UserRole::Observer => String::from_str("Observer"),
        }
    }
}

} // verus!
