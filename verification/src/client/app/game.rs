//! A game as the page shows it.

use vstd::prelude::*;
use crate::text::text_of;

verus! {

/// What the page shows of a game.
#[derive(Clone, Debug, PartialEq, Eq)]
pub struct GameDetails {
    pub id: String,
    pub name: String,
    pub is_finished: bool,
    pub seat_1_username: Option<String>,
    pub seat_2_username: Option<String>,
}

pub struct GameDetailsView {
    pub id: Seq<char>,
    pub name: Seq<char>,
    pub is_finished: bool,
    pub seat_1_username: Option<Seq<char>>,
    pub seat_2_username: Option<Seq<char>>,
}

impl View for GameDetails {
    type V = GameDetailsView;

    open spec fn view(&self) -> GameDetailsView {
        GameDetailsView {
            id: self.id@,
            name: self.name@,
            is_finished: self.is_finished,
            seat_1_username: text_of(self.seat_1_username),
            seat_2_username: text_of(self.seat_2_username),
        }
    }
}

/// The role of the page's user in a game.
#[derive(Clone, Copy, Debug, PartialEq, Eq, Structural)]
pub enum UserRole {
    Seat1,
    Seat2,
    Observer,
}

/// One entry of a game's log.
#[derive(Clone, Copy, Debug, PartialEq, Eq, Structural)]
pub enum GameAction {
    Init,
    Move,
    Finished,
}

} // verus!
