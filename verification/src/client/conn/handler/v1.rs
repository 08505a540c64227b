//! Protocol 1 on the page's side: the messages of the wire as the page
//! shows them.

use vstd::prelude::*;
use vstd::std_specs::convert::FromSpecImpl;
use crate::client::app::game;
use crate::client::app::lobby;
use crate::protocol::v1 as msg;

pub mod login;
pub mod running;

verus! {

impl lobby::GameStatus {
    pub open spec fn of_wire(v: msg::GameStatus) -> lobby::GameStatus {
        match v {
            msg::GameStatus::Joinable => lobby::GameStatus::Joinable,
            msg::GameStatus::Rejoinable => lobby::GameStatus::Rejoinable,
            msg::GameStatus::Full => lobby::GameStatus::Full,
            msg::GameStatus::Finished => lobby::GameStatus::Finished,
        }
    }
}

impl game::UserRole {
    pub open spec fn of_wire(v: msg::UserRole) -> game::UserRole {
        match v {
            msg::UserRole::Seat1 => game::UserRole::Seat1,
            msg::UserRole::Seat2 => game::UserRole::Seat2,
            msg::UserRole::Observer => game::UserRole::Observer,
        }
    }
}

impl game::GameAction {
    pub open spec fn of_wire(v: msg::GameAction) -> game::GameAction {
        match v {
            msg::GameAction::Init => game::GameAction::Init,
            msg::GameAction::Move => game::GameAction::Move,
            msg::GameAction::Finished => game::GameAction::Finished,
        }
    }
}

impl lobby::GameOverviewView {
    pub open spec fn of_wire(v: msg::GameOverviewView) -> lobby::GameOverviewView {
        lobby::GameOverviewView {
            id: v.id,
            name: v.name,
            status: lobby::GameStatus::of_wire(v.status),
        }
    }
}

impl game::GameDetailsView {
    pub open spec fn of_wire(v: msg::GameDetailsView) -> game::GameDetailsView {
        game::GameDetailsView {
            id: v.id,
            name: v.name,
            is_finished: v.is_finished,
            seat_1_username: v.seat_1_username,
            seat_2_username: v.seat_2_username,
        }
    }
}

impl From<msg::GameStatus> for lobby::GameStatus {
    fn from(v: msg::GameStatus) -> (r: lobby::GameStatus) {
        match v {
            msg::GameStatus::Joinable => lobby::GameStatus::Joinable,
            msg::GameStatus::Rejoinable => lobby::GameStatus::Rejoinable,
            msg::GameStatus::Full => lobby::GameStatus::Full,
            msg::GameStatus::Finished => lobby::GameStatus::Finished,
        }
    }
}

impl FromSpecImpl<msg::GameStatus> for lobby::GameStatus {
    open spec fn obeys_from_spec() -> bool {
        true
    }

    open spec fn from_spec(v: msg::GameStatus) -> lobby::GameStatus {
        lobby::GameStatus::of_wire(v)
    }
}

impl From<msg::UserRole> for game::UserRole {
    fn from(v: msg::UserRole) -> (r: game::UserRole) {
        match v {
            msg::UserRole::Seat1 => game::UserRole::Seat1,
            msg::UserRole::Seat2 => game::UserRole::Seat2,
            msg::UserRole::Observer => game::UserRole::Observer,
        }
    }
}

impl FromSpecImpl<msg::UserRole> for game::UserRole {
    open spec fn obeys_from_spec() -> bool {
        true
    }

    open spec fn from_spec(v: msg::UserRole) -> game::UserRole {
        game::UserRole::of_wire(v)
    }
}

impl From<msg::GameAction> for game::GameAction {
    fn from(v: msg::GameAction) -> (r: game::GameAction) {
        match v {
            msg::GameAction::Init => game::GameAction::Init,
            msg::GameAction::Move => game::GameAction::Move,
            msg::GameAction::Finished => game::GameAction::Finished,
        }
    }
}

impl FromSpecImpl<msg::GameAction> for game::GameAction {
    open spec fn obeys_from_spec() -> bool {
        true
    }

    open spec fn from_spec(v: msg::GameAction) -> game::GameAction {
        game::GameAction::of_wire(v)
    }
}

impl lobby::GameOverview {
    /// A line of the list of games as the page shows it.
    pub fn from_wire(v: msg::GameOverview) -> (r: lobby::GameOverview)
        ensures
            r@ == lobby::GameOverviewView::of_wire(v@),
    {
        lobby::GameOverview { id: v.id, name: v.name, status: lobby::GameStatus::from(v.status) }
    }
}

impl game::GameDetails {
    /// A game as the page shows it.
    pub fn from_wire(v: msg::GameDetails) -> (r: game::GameDetails)
        ensures
            r@ == game::GameDetailsView::of_wire(v@),
    {
        game::GameDetails {
            id: v.id,
            name: v.name,
            is_finished: v.is_finished,
            seat_1_username: v.seat_1_username,
            seat_2_username: v.seat_2_username,
        }
    }
}

/// The lines of a list of games as the page shows them.
pub fn overviews_from_wire(list: Vec<msg::GameOverview>) -> (r: Vec<lobby::GameOverview>)
    ensures
        r@.map_values(|o: lobby::GameOverview| o@) == msg::overviews_of(list@).map_values(
            |o: msg::GameOverviewView| lobby::GameOverviewView::of_wire(o),
        ),
{
    let mut out: Vec<lobby::GameOverview> = Vec::new();
    let mut list = list;
    let ghost all = list@;
    let mut i: usize = 0;
    let n = list.len();
    while i < n
        invariant
            0 <= i <= n,
            n == all.len(),
            list@.len() == n,
            forall|k: int| i <= k < n ==> list[k] == all[k],
            out.len() == i,
            forall|k: int|
                0 <= k < i ==> (#[trigger] out[k])@ == lobby::GameOverviewView::of_wire(all[k]@),
        decreases n - i,
    {
        let item = msg::GameOverview {
            id: list[i].id.clone(),
            name: list[i].name.clone(),
            status: list[i].status,
        };
        out.push(lobby::GameOverview::from_wire(item));
        i = i + 1;
    }
    assert(out@.map_values(|o: lobby::GameOverview| o@) =~= msg::overviews_of(all).map_values(
        |o: msg::GameOverviewView| lobby::GameOverviewView::of_wire(o),
    ));
    out
}

/// A log as the page shows it.
pub fn moves_from_wire(moves: &Vec<msg::GameAction>) -> (r: Vec<game::GameAction>)
    ensures
        r@ == moves@.map_values(|a: msg::GameAction| game::GameAction::of_wire(a)),
{
    let mut out: Vec<game::GameAction> = Vec::new();
    let mut i: usize = 0;
    while i < moves.len()
        invariant
            0 <= i <= moves.len(),
            out.len() == i,
            forall|k: int| 0 <= k < i ==> #[trigger] out[k] == game::GameAction::of_wire(moves[k]),
        decreases moves.len() - i,
    {
        out.push(game::GameAction::from(moves[i]));
        i = i + 1;
    }
    assert(out@ =~= moves@.map_values(|a: msg::GameAction| game::GameAction::of_wire(a)));
    out
}

} // verus!
