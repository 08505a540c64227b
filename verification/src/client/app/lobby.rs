//! The lobby as the page shows it.

use vstd::prelude::*;

verus! {

/// What a listed game offers to the page's user.
#[derive(Clone, Copy, Debug, PartialEq, Eq, Structural)]
pub enum GameStatus {
    Joinable,
    Rejoinable,
    Full,
    Finished,
}

/// One line of the list of games.
#[derive(Clone, Debug, PartialEq, Eq)]
pub struct GameOverview {
    pub id: String,
    pub name: String,
    pub status: GameStatus,
}

pub struct GameOverviewView {
    pub id: Seq<char>,
    pub name: Seq<char>,
    pub status: GameStatus,
}

impl View for GameOverview {
    type V = GameOverviewView;

    open spec fn view(&self) -> GameOverviewView {
        GameOverviewView { id: self.id@, name: self.name@, status: self.status }
    }
}

/// The games that the page knows of, each under its identifier.
#[derive(Clone, Debug, PartialEq, Eq)]
pub struct LobbyGames {
    games: Vec<GameOverview>,
}

/// The games of a list, each under its identifier: of two lines with one
/// identifier the later counts.
pub open spec fn book_of(list: Seq<GameOverviewView>) -> Map<Seq<char>, GameOverviewView>
    decreases list.len(),
{
    if list.len() == 0 {
        Map::empty()
    } else {
        book_of(list.drop_last()).insert(list.last().id, list.last())
    }
}

impl View for LobbyGames {
    type V = Map<Seq<char>, GameOverviewView>;

    closed spec fn view(&self) -> Map<Seq<char>, GameOverviewView> {
        book_of(self.games@.map_values(|g: GameOverview| g@))
    }
}

impl LobbyGames {
    /// No game.
    pub fn new() -> (r: LobbyGames)
        ensures
            r@ == Map::<Seq<char>, GameOverviewView>::empty(),
    {
        LobbyGames { games: Vec::new() }
    }

    /// The games of a list that the server has sent.
    pub fn from_list(game_list: Vec<GameOverview>) -> (r: LobbyGames)
        ensures
            r@ == book_of(game_list@.map_values(|g: GameOverview| g@)),
    {
        LobbyGames { games: game_list }
    }

    /// Takes note of a game that is new or has changed.
    pub fn upsert(&mut self, info: GameOverview)
        ensures
            final(self)@ == old(self)@.insert(info@.id, info@),
    {
        let ghost before = self.games@.map_values(|g: GameOverview| g@);
        self.games.push(info);
        proof {
            let after = self.games@.map_values(|g: GameOverview| g@);
            assert(after.drop_last() =~= before);
            assert(after.last() == info@);
        }
    }

    /// Forgets a game that is gone.
    pub fn remove(&mut self, game_id: &str)
        ensures
            final(self)@ == old(self)@.remove(game_id@),
    {
        let mut kept: Vec<GameOverview> = Vec::new();
        let mut i: usize = 0;
        let ghost all = self.games@.map_values(|g: GameOverview| g@);
        while i < self.games.len()
            invariant
                0 <= i <= self.games.len(),
                all == self.games@.map_values(|g: GameOverview| g@),
                book_of(kept@.map_values(|g: GameOverview| g@)) == book_of(all.take(i as int)).remove(
                    game_id@,
                ),
            decreases self.games.len() - i,
        {
            let ghost kept_before = kept@.map_values(|g: GameOverview| g@);
            let entry = &self.games[i];
            proof {
                assert(all.take(i + 1).drop_last() =~= all.take(i as int));
                assert(all.take(i + 1).last() == entry@);
            }
            if !crate::text::same_text(entry.id.as_str(), game_id) {
                kept.push(
                    GameOverview {
                        id: entry.id.clone(),
                        name: entry.name.clone(),
                        status: entry.status,
                    },
                );
                proof {
                    let kept_after = kept@.map_values(|g: GameOverview| g@);
                    assert(kept_after.drop_last() =~= kept_before);
                    assert(kept_after.last() == entry@);
                    assert(book_of(kept_after) =~= book_of(all.take(i + 1)).remove(game_id@));
                }
            } else {
                proof {
                    assert(book_of(kept_before) =~= book_of(all.take(i + 1)).remove(game_id@));
                }
            }
            i = i + 1;
        }
        proof {
            assert(all.take(i as int) =~= all);
        }
        self.games = kept;
    }

    /// What the page knows of a game.
    pub fn get(&self, game_id: &str) -> (r: Option<&GameOverview>)
        ensures
            match r {
                Some(g) => self@.contains_key(game_id@) && self@[game_id@] == g@,
                None => !self@.contains_key(game_id@),
            },
    {
        let ghost all = self.games@.map_values(|g: GameOverview| g@);
        let mut i: usize = self.games.len();
        assert(all.take(i as int) =~= all);
        while i > 0
            invariant
                0 <= i <= self.games.len(),
                all == self.games@.map_values(|g: GameOverview| g@),
                book_of(all).contains_key(game_id@) == book_of(all.take(i as int)).contains_key(
                    game_id@,
                ),
                book_of(all).contains_key(game_id@) ==> book_of(all)[game_id@] == book_of(
                    all.take(i as int),
                )[game_id@],
            decreases i,
        {
            proof {
                assert(all.take(i as int).drop_last() =~= all.take(i - 1));
                assert(all.take(i as int).last() == self.games[i - 1]@);
                assert(all.take(self.games.len() as int) =~= all);
            }
            if crate::text::same_text(self.games[i - 1].id.as_str(), game_id) {
                return Some(&self.games[i - 1]);
            }
            i = i - 1;
        }
        proof {
            assert(all.take(self.games.len() as int) =~= all);
            assert(all.take(0) =~= Seq::<GameOverviewView>::empty());
        }
        None
    }
}

} // verus!
