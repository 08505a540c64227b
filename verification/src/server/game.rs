//! A game room: who sits where, what has been played, and who is watching.
//!
//! The room is a state machine. Each event (a join, an action, a client that
//! goes, a task that comes due) changes its state and names the clients to
//! tell. A client is named by its identifier.

use vstd::prelude::*;
use std::collections::BTreeMap;
use std::collections::BTreeSet;
use crate::chance::pick;
use crate::ordered::{increasing, items_of, keys_of, lemma_keys_are_ordered, without};
use crate::protocol::error::code;
use crate::text::{copy_text, text_of};
use crate::rules::{Action, UserRole};
use crate::uid::fresh_uid;
use crate::server::actor_msg::{
    Disconnect, GameAction, GameActionResponse, GameClosed, GameJoined, GameJoinedView,
    GameMessage, GameMessageDetails, GameMessageDetailsView, GameMessageView, JoinGame,
};

pub mod laws;
pub mod name;

verus! {

/// How long a game lives, in milliseconds: 30 days.
pub const GAME_EXPIRATION: u64 = 2_592_000_000;

/// The time between two looks at the clock, in milliseconds.
pub const EXPIRATION_CHECK_INTERVAL: u64 = 60_000;

/// How long a game waits before it does what it has put off, in
/// milliseconds.
pub const DEFERRAL: u64 = 1;

/// Where a game stands, as the lobby lists it.
#[derive(Clone, Copy, Debug, PartialEq, Eq, Structural)]
pub enum Status {
    Created,
    Started,
    Finished,
}

/// What the lobby lists of a game.
#[derive(Clone, Debug, PartialEq, Eq)]
pub struct Info {
    pub id: u128,
    pub name: String,
    pub status: Status,
    pub seat_1: Option<u128>,
    pub seat_2: Option<u128>,
}

pub struct InfoView {
    pub id: u128,
    pub name: Seq<char>,
    pub status: Status,
    pub seat_1: Option<u128>,
    pub seat_2: Option<u128>,
}

impl View for Info {
    type V = InfoView;

    open spec fn view(&self) -> InfoView {
        InfoView {
            id: self.id,
            name: self.name@,
            status: self.status,
            seat_1: self.seat_1,
            seat_2: self.seat_2,
        }
    }
}

impl Info {
    /// A copy of the listing.
    pub fn duplicate(&self) -> (r: Info)
        ensures
            r@ == self@,
    {
        Info {
            id: self.id,
            name: self.name.clone(),
            status: self.status,
            seat_1: self.seat_1,
            seat_2: self.seat_2,
        }
    }
}

/// A message with the clients to hand it to, in the order of their
/// identifiers.
#[derive(Clone, Debug, PartialEq, Eq)]
pub struct Broadcast<M> {
    pub message: M,
    pub recipients: Vec<u128>,
}

/// Work that a game puts off until it has answered the request at hand.
#[derive(Clone, Debug, PartialEq, Eq)]
pub enum Deferred {
    /// Tell the other clients that a user has come in.
    AnnounceJoin { user_uid: u128, user_name: String, user_seat: UserRole, client_id: u128 },
    /// Both seats are taken: open the game.
    InitGame,
}

pub enum DeferredView {
    AnnounceJoin { user_uid: u128, user_name: Seq<char>, user_seat: UserRole, client_id: u128 },
    InitGame,
}

impl View for Deferred {
    type V = DeferredView;

    open spec fn view(&self) -> DeferredView {
        match self {
            Deferred::AnnounceJoin { user_uid, user_name, user_seat, client_id } => {
                DeferredView::AnnounceJoin {
                    user_uid: *user_uid,
                    user_name: user_name@,
                    user_seat: *user_seat,
                    client_id: *client_id,
                }
            },
            Deferred::InitGame => DeferredView::InitGame,
        }
    }
}

/// A game room.
#[derive(Debug)]
pub struct Game {
    id: u128,
    name: String,
    inited: bool,
    finished: bool,
    timeout: u64,
    seat_1_user_uid: Option<u128>,
    seat_1_username: Option<String>,
    seat_2_user_uid: Option<u128>,
    seat_2_username: Option<String>,
    clients: BTreeSet<u128>,
    /// The clients of each user that is in the room.
    users: BTreeMap<u128, BTreeSet<u128>>,
    moves: Vec<Action>,
}

/// A game room as a mathematical value.
pub struct GameView {
    pub id: u128,
    pub name: Seq<char>,
    pub inited: bool,
    pub finished: bool,
    pub timeout: u64,
    pub seat_1_user_uid: Option<u128>,
    pub seat_1_username: Option<Seq<char>>,
    pub seat_2_user_uid: Option<u128>,
    pub seat_2_username: Option<Seq<char>>,
    pub clients: Set<u128>,
    pub users: Map<u128, Set<u128>>,
    pub moves: Seq<Action>,
}

/// The clients of each user, as sets.
pub open spec fn client_sets(users: Map<u128, BTreeSet<u128>>) -> Map<u128, Set<u128>> {
    Map::new(|u: u128| users.contains_key(u), |u: u128| users[u]@)
}

impl View for Game {
    type V = GameView;

    closed spec fn view(&self) -> GameView {
        GameView {
            id: self.id,
            name: self.name@,
            inited: self.inited,
            finished: self.finished,
            timeout: self.timeout,
            seat_1_user_uid: self.seat_1_user_uid,
            seat_1_username: text_of(self.seat_1_username),
            seat_2_user_uid: self.seat_2_user_uid,
            seat_2_username: text_of(self.seat_2_username),
            clients: self.clients@,
            users: client_sets(self.users@),
            moves: self.moves@,
        }
    }
}

impl GameView {
    /// A room that nobody has entered yet.
    pub open spec fn fresh(id: u128, name: Seq<char>, timeout: u64) -> GameView {
        GameView {
            id,
            name,
            inited: false,
            finished: false,
            timeout,
            seat_1_user_uid: None,
            seat_1_username: None,
            seat_2_user_uid: None,
            seat_2_username: None,
            clients: Set::empty(),
            users: Map::empty(),
            moves: Seq::empty(),
        }
    }

    /// Every user of the index has a client, and its clients are subscribers.
    pub open spec fn users_are_present(self) -> bool {
        forall|u: u128| #[trigger]
            self.users.contains_key(u) ==> (exists|c: u128| self.users[u].contains(c))
                && self.users[u].subset_of(self.clients)
    }

    /// The log, if it holds anything, opens with `Init`.
    pub open spec fn log_opens_with_init(self) -> bool {
        self.moves.len() >= 1 ==> self.moves[0] == Action::Init
    }

    /// What holds of a room at all times.
    pub open spec fn wf(self) -> bool {
        &&& self.users_are_present()
        &&& self.log_opens_with_init()
        &&& self.inited <==> self.moves.len() >= 1
        &&& self.finished <==> self.moves.contains(Action::Finished)
        &&& self.seat_1_user_uid is Some <==> self.seat_1_username is Some
        &&& self.seat_2_user_uid is Some <==> self.seat_2_username is Some
        &&& self.seat_1_user_uid is Some ==> self.seat_1_user_uid != self.seat_2_user_uid
    }

    /// The role that a user holds: its seat, or observer.
    pub open spec fn role_of(self, user_uid: u128) -> UserRole {
        if self.seat_1_user_uid == Some(user_uid) {
            UserRole::Seat1
        } else if self.seat_2_user_uid == Some(user_uid) {
            UserRole::Seat2
        } else {
            UserRole::Observer
        }
    }

    /// The seats that nobody holds, the first seat first.
    pub open spec fn empty_seats(self) -> Seq<UserRole> {
        (if self.seat_1_user_uid is None {
            seq![UserRole::Seat1]
        } else {
            Seq::empty()
        }) + (if self.seat_2_user_uid is None {
            seq![UserRole::Seat2]
        } else {
            Seq::empty()
        })
    }

    /// Whether a user who comes in may be given this role: the seat it
    /// holds already; else one of the empty seats; else, with no seat left,
    /// observer.
    pub open spec fn may_sit(self, user_uid: u128, seat: UserRole) -> bool {
        if self.role_of(user_uid) != UserRole::Observer {
            seat == self.role_of(user_uid)
        } else if self.empty_seats().len() == 0 {
            seat == UserRole::Observer
        } else {
            self.empty_seats().contains(seat)
        }
    }

    /// The room after a client of a user has come in with the given role.
    pub open spec fn joined(
        self,
        user_uid: u128,
        username: Seq<char>,
        client_id: u128,
        seat: UserRole,
    ) -> GameView {
        GameView {
            seat_1_user_uid: if seat == UserRole::Seat1 {
                Some(user_uid)
            } else {
                self.seat_1_user_uid
            },
            seat_1_username: if seat == UserRole::Seat1 {
                Some(username)
            } else {
                self.seat_1_username
            },
            seat_2_user_uid: if seat == UserRole::Seat2 {
                Some(user_uid)
            } else {
                self.seat_2_user_uid
            },
            seat_2_username: if seat == UserRole::Seat2 {
                Some(username)
            } else {
                self.seat_2_username
            },
            clients: self.clients.insert(client_id),
            users: self.users.insert(user_uid, self.clients_of(user_uid).insert(client_id)),
            ..self
        }
    }

    /// The clients through which a user is in the room.
    pub open spec fn clients_of(self, user_uid: u128) -> Set<u128> {
        if self.users.contains_key(user_uid) {
            self.users[user_uid]
        } else {
            Set::empty()
        }
    }

    /// Whether the user is in the room through this client alone.
    pub open spec fn leaves_with(self, client_id: u128, user_uid: u128) -> bool {
        self.users.contains_key(user_uid) && self.users[user_uid].remove(client_id)
            =~= Set::<u128>::empty()
    }

    /// The room after a client has gone: it is no subscriber any more, and a
    /// user that was there through it alone is out of the index. Seats stay.
    pub open spec fn without_client(self, client_id: u128) -> GameView {
        GameView {
            clients: self.clients.remove(client_id),
            users: Map::new(
                |u: u128| self.users.contains_key(u) && !self.leaves_with(client_id, u),
                |u: u128| self.users[u].remove(client_id),
            ),
            ..self
        }
    }

    /// Whether the user is the one reported as gone when the client goes: of
    /// the users that were there through this client alone, the one with the
    /// greatest identifier.
    pub open spec fn is_quitter(self, client_id: u128, user_uid: u128) -> bool {
        self.leaves_with(client_id, user_uid) && forall|v: u128|
            self.leaves_with(client_id, v) ==> v <= user_uid
    }

    /// The user that is reported as gone when a client goes, if there is
    /// one.
    pub open spec fn quitter(self, client_id: u128) -> Option<u128> {
        if exists|u: u128| self.is_quitter(client_id, u) {
            Some(choose|u: u128| self.is_quitter(client_id, u))
        } else {
            None
        }
    }

    /// What the subscribers are told when a user has gone.
    pub open spec fn quit_notice(self, user_uid: u128) -> GameMessageView {
        GameMessageView {
            game_id: self.id,
            details: GameMessageDetailsView::UserQuit {
                user_uid,
                user_seat: self.role_of(user_uid),
            },
        }
    }

    /// Where the room stands.
    pub open spec fn status(self) -> Status {
        if self.finished {
            Status::Finished
        } else if self.inited {
            Status::Started
        } else {
            Status::Created
        }
    }

    /// What the lobby lists of the room.
    pub open spec fn info(self) -> InfoView {
        InfoView {
            id: self.id,
            name: self.name,
            status: self.status(),
            seat_1: self.seat_1_user_uid,
            seat_2: self.seat_2_user_uid,
        }
    }

    /// What a newcomer is told of the room.
    pub open spec fn joined_reply(self, seat: UserRole) -> GameJoinedView {
        GameJoinedView {
            game_name: self.name,
            user_role: seat,
            seat_1_username: self.seat_1_username,
            seat_2_username: self.seat_2_username,
            moves: self.moves,
        }
    }

    /// Whether the room is ready to be opened: both seats are taken and it
    /// has not been opened yet.
    pub open spec fn init_is_due(self) -> bool {
        self.seat_1_user_uid is Some && self.seat_2_user_uid is Some && !self.inited
    }

    /// The work that a join leaves for later: the others are told of the
    /// newcomer and, where the room is ready for it, the game is opened.
    pub open spec fn tasks_after_join(
        self,
        user_uid: u128,
        username: Seq<char>,
        client_id: u128,
        seat: UserRole,
    ) -> Seq<DeferredView> {
        seq![
            DeferredView::AnnounceJoin {
                user_uid,
                user_name: username,
                user_seat: seat,
                client_id,
            },
        ] + (if self.init_is_due() {
            seq![DeferredView::InitGame]
        } else {
            Seq::empty()
        })
    }

    /// Whether the room takes an action that the rules accept: it is open
    /// and not over.
    pub open spec fn takes_actions(self) -> bool {
        self.inited && !self.finished
    }

    /// The room after it has taken an action.
    pub open spec fn played(self, action: Action) -> GameView {
        GameView {
            moves: self.moves.push(action),
            finished: action == Action::Finished,
            ..self
        }
    }

    /// The answer to an action on which the rules have given their ruling:
    /// the ruling, but that a room which is not open, or is over, refuses
    /// what the rules accept.
    pub open spec fn answer(self, ruling: GameActionResponse) -> GameActionResponse {
        match ruling {
            GameActionResponse::Illegal { reason } => ruling,
            GameActionResponse::Accepted => if self.takes_actions() {
                GameActionResponse::Accepted
            } else {
                GameActionResponse::Illegal { reason: code::game::ILLEGAL_MOVE }
            },
        }
    }

    /// The room once it is opened: `Init` is logged.
    pub open spec fn opened(self) -> GameView {
        GameView { inited: true, moves: self.moves.push(Action::Init), ..self }
    }
}

impl Game {
    /// What holds of a room at all times.
    pub open spec fn wf(&self) -> bool {
        self@.wf()
    }

    /// The identifier of the room.
    pub fn id(&self) -> (r: u128)
        ensures
            r == self@.id,
    {
        self.id
    }

    /// The name of the room.
    pub fn name(&self) -> (r: &String)
        ensures
            r@ == self@.name,
    {
        &self.name
    }

    /// The log of the game.
    pub fn moves(&self) -> (r: &Vec<Action>)
        ensures
            r@ == self@.moves,
    {
        &self.moves
    }

    /// When the room is to be closed.
    pub fn timeout(&self) -> (r: u64)
        ensures
            r == self@.timeout,
    {
        self.timeout
    }

    /// The users that are in the room, by increasing identifier.
    pub fn users(&self) -> (r: Vec<u128>)
        ensures
            r@.to_set() == self@.users.dom(),
            increasing(r@),
    {
        let r = keys_of(&self.users);
        assert(self.users@.dom() =~= self@.users.dom());
        r
    }

    /// The clients through which a user is in the room, by increasing
    /// identifier.
    pub fn user_clients(&self, user_uid: u128) -> (r: Vec<u128>)
        ensures
            r@.to_set() == self@.clients_of(user_uid),
            increasing(r@),
    {
        proof {
            lemma_keys_are_ordered();
        }
        broadcast use vstd::std_specs::btree::group_btree_axioms;

        match self.users.get(&user_uid) {
            Some(clients) => items_of(clients),
            None => {
                let r: Vec<u128> = Vec::new();
                assert(r@.to_set() =~= Set::<u128>::empty());
                r
            },
        }
    }

    /// A room with the given identity that nobody has entered yet, to be
    /// closed at `timeout`.
    pub fn with_identity(id: u128, name: String, timeout: u64) -> (g: Game)
        ensures
            g.wf(),
            g@ == GameView::fresh(id, name@, timeout),
    {
        let g = Game {
            id,
            name,
            inited: false,
            finished: false,
            timeout,
            seat_1_user_uid: None,
            seat_1_username: None,
            seat_2_user_uid: None,
            seat_2_username: None,
            clients: BTreeSet::new(),
            users: BTreeMap::new(),
            moves: Vec::new(),
        };
        assert(g@.users =~= Map::empty());
        g
    }

    /// A new room, under a fresh identifier and a name of its own, that is
    /// closed 30 days from now.
    pub fn new(now: u64) -> (g: Game)
        requires
            now + GAME_EXPIRATION <= u64::MAX,
        ensures
            g.wf(),
            g@ == GameView::fresh(g@.id, g@.name, (now + GAME_EXPIRATION) as u64),
            name::is_generated_name(g@.name),
    {
        Game::with_identity(fresh_uid(), name::generate_name(), now + GAME_EXPIRATION)
    }

    /// What the lobby lists of the room.
    pub fn info(&self) -> (r: Info)
        ensures
            r@ == self@.info(),
    {
        Info {
            id: self.id,
            name: self.name.clone(),
            status: if self.finished {
                Status::Finished
            } else if self.inited {
                Status::Started
            } else {
                Status::Created
            },
            seat_1: self.seat_1_user_uid,
            seat_2: self.seat_2_user_uid,
        }
    }

    /// The role that a user holds: its seat, or observer.
    pub fn get_user_role(&self, user_uid: u128) -> (r: UserRole)
        ensures
            r == self@.role_of(user_uid),
    {
        if holds(self.seat_1_user_uid, user_uid) {
            UserRole::Seat1
        } else if holds(self.seat_2_user_uid, user_uid) {
            UserRole::Seat2
        } else {
            UserRole::Observer
        }
    }

    /// The seats that nobody holds, the first seat first.
    pub fn available_seats(&self) -> (r: Vec<UserRole>)
        ensures
            r@ == self@.empty_seats(),
    {
        let mut available_seats: Vec<UserRole> = Vec::new();
        if self.seat_1_user_uid.is_none() {
            available_seats.push(UserRole::Seat1);
        }
        if self.seat_2_user_uid.is_none() {
            available_seats.push(UserRole::Seat2);
        }
        assert(available_seats@ =~= self@.empty_seats());
        available_seats
    }

    /// The role for a user who comes in: the seat it holds already; else one
    /// of the empty seats, taken by chance; else observer.
    pub fn choose_seat(&self, user_uid: u128) -> (r: UserRole)
        ensures
            self@.may_sit(user_uid, r),
    {
        if holds(self.seat_1_user_uid, user_uid) {
            return UserRole::Seat1;
        }
        if holds(self.seat_2_user_uid, user_uid) {
            return UserRole::Seat2;
        }
        let available_seats = self.available_seats();
        match pick(&available_seats) {
            Some(seat) => *seat,
            None => UserRole::Observer,
        }
    }

    /// Lets a client of a user in, with a role that the room may give it.
    pub fn client_join_as(
        &mut self,
        user_uid: u128,
        username: &str,
        client_id: u128,
        seat: UserRole,
    )
        requires
            old(self).wf(),
            old(self)@.may_sit(user_uid, seat),
        ensures
            final(self).wf(),
            final(self)@ == old(self)@.joined(user_uid, username@, client_id, seat),
    {
        proof {
            lemma_keys_are_ordered();
        }
        broadcast use vstd::std_specs::btree::group_btree_axioms;

        if seat == UserRole::Seat1 {
            self.seat_1_user_uid = Some(user_uid);
            self.seat_1_username = Some(username.to_owned());
        } else if seat == UserRole::Seat2 {
            self.seat_2_user_uid = Some(user_uid);
            self.seat_2_username = Some(username.to_owned());
        }
        let mut client_set = match self.users.remove(&user_uid) {
            Some(s) => s,
            None => BTreeSet::new(),
        };
        client_set.insert(client_id);
        self.users.insert(user_uid, client_set);
        self.clients.insert(client_id);
        proof {
            let after = old(self)@.joined(user_uid, username@, client_id, seat);
            assert(self@.users =~= after.users);
            assert(self@ == after);
            assert forall|u: u128| #[trigger] after.users.contains_key(u) implies (exists|c: u128|
                after.users[u].contains(c)) && after.users[u].subset_of(after.clients) by {
                if u == user_uid {
                    assert(after.users[u].contains(client_id));
                } else {
                    assert(old(self)@.users.contains_key(u));
                    let c = choose|c: u128| old(self)@.users[u].contains(c);
                    assert(after.users[u].contains(c));
                }
            }
        }
    }

    /// Lets a client of a user in and says which role the user holds: the
    /// seat it held already; else one of the empty seats, taken by chance;
    /// else observer.
    pub fn client_join(&mut self, user_uid: u128, username: &str, client_id: u128) -> (seat:
        UserRole)
        requires
            old(self).wf(),
        ensures
            final(self).wf(),
            old(self)@.may_sit(user_uid, seat),
            final(self)@ == old(self)@.joined(user_uid, username@, client_id, seat),
    {
        let seat = self.choose_seat(user_uid);
        self.client_join_as(user_uid, username, client_id, seat);
        seat
    }

    /// Takes a client out of the room. Says which user has gone with it: of
    /// the users that were there through this client alone, the one with the
    /// greatest identifier.
    pub fn client_quit(&mut self, client_id: u128) -> (r: Option<u128>)
        requires
            old(self).wf(),
        ensures
            final(self).wf(),
            final(self)@ == old(self)@.without_client(client_id),
            r == old(self)@.quitter(client_id),
    {
        proof {
            lemma_keys_are_ordered();
        }
        broadcast use vstd::std_specs::btree::group_btree_axioms;

        let mut disconnect_user_uid: Option<u128> = None;
        self.clients.remove(&client_id);
        let users = keys_of(&self.users);
        let ghost before = self.users@;
        let ghost entered = *self;
        let mut i: usize = 0;
        while i < users.len()
            invariant
                0 <= i <= users.len(),
                users@.to_set() == before.dom(),
                increasing(users@),
                *self == (Game { users: self.users, ..entered }),
                self.users@.dom().subset_of(before.dom()),
                forall|k: int|
                    i <= k < users.len() ==> self.users@.contains_key(#[trigger] users[k])
                        && self.users@[users[k]] == before[users[k]],
                forall|k: int|
                    0 <= k < i ==> if before[#[trigger] users[k]]@.remove(client_id)
                        =~= Set::<u128>::empty() {
                        !self.users@.contains_key(users[k])
                    } else {
                        self.users@.contains_key(users[k]) && self.users@[users[k]]@
                            == before[users[k]]@.remove(client_id)
                    },
                match disconnect_user_uid {
                    Some(u) => exists|k: int|
                        0 <= k < i && users[k] == u && before[u]@.remove(client_id)
                            =~= Set::<u128>::empty(),
                    None => forall|k: int|
                        0 <= k < i ==> !(before[#[trigger] users[k]]@.remove(client_id)
                            =~= Set::<u128>::empty()),
                },
                forall|k: int|
                    0 <= k < i && before[#[trigger] users[k]]@.remove(client_id)
                        =~= Set::<u128>::empty() ==> disconnect_user_uid is Some && users[k]
                        <= disconnect_user_uid.unwrap(),
            decreases users.len() - i,
        {
            proof {
                lemma_keys_are_ordered();
            }
            let user_uid = users[i];
            assert(self.users@.contains_key(users[i as int]));
            let taken = self.users.remove(&user_uid);
            let mut client_set = taken.unwrap();
            assert(client_set == before[user_uid]);
            client_set.remove(&client_id);
            if client_set.is_empty() {
                disconnect_user_uid = Some(user_uid);
            } else {
                self.users.insert(user_uid, client_set);
            }
            proof {
                assert forall|k: int| i + 1 <= k < users.len() implies self.users@.contains_key(
                    #[trigger] users[k],
                ) && self.users@[users[k]] == before[users[k]] by {
                    assert(users[i as int] < users[k]);
                }
                assert forall|k: int| 0 <= k < i + 1 implies if before[#[trigger] users[k]]@.remove(
                    client_id,
                ) =~= Set::<u128>::empty() {
                    !self.users@.contains_key(users[k])
                } else {
                    self.users@.contains_key(users[k]) && self.users@[users[k]]@
                        == before[users[k]]@.remove(client_id)
                } by {
                    if k < i {
                        assert(users[k] < users[i as int]);
                    }
                }
                assert forall|k: int|
                    0 <= k < i + 1 && before[#[trigger] users[k]]@.remove(client_id)
                        =~= Set::<u128>::empty() implies disconnect_user_uid is Some && users[k]
                    <= disconnect_user_uid.unwrap() by {
                    if k < i {
                        assert(users[k] < users[i as int]);
                    }
                }
            }
            i = i + 1;
        }
        proof {
            let pre = old(self)@;
            let after = pre.without_client(client_id);
            assert(client_sets(before) == pre.users);
            assert forall|u: u128| before.contains_key(u) implies exists|k: int|
                0 <= k < users.len() && users[k] == u by {
                assert(users@.to_set().contains(u));
                assert(users@.contains(u));
            }
            assert forall|u: u128| self@.users.contains_key(u) == after.users.contains_key(
                u,
            ) by {
                if before.contains_key(u) {
                    let k = choose|k: int| 0 <= k < users.len() && users[k] == u;
                    assert(users[k] == u);
                }
            }
            assert forall|u: u128| self@.users.contains_key(u) implies self@.users[u]
                == after.users[u] by {
                let k = choose|k: int| 0 <= k < users.len() && users[k] == u;
                assert(users[k] == u);
            }
            assert(self@.users =~= after.users);
            assert(self@ == after);
            assert forall|u: u128| #[trigger] after.users.contains_key(u) implies (exists|c: u128|
                after.users[u].contains(c)) && after.users[u].subset_of(after.clients) by {
                let rest = pre.users[u].remove(client_id);
                assert(pre.users.contains_key(u));
                if forall|c: u128| !rest.contains(c) {
                    assert(rest =~= Set::<u128>::empty());
                }
                assert(after.users[u] == rest);
                assert forall|c: u128| rest.contains(c) implies after.clients.contains(c) by {
                    assert(pre.users[u].contains(c));
                }
            }
            match disconnect_user_uid {
                Some(u) => {
                    assert forall|v: u128| pre.leaves_with(client_id, v) implies v <= u by {
                        let k = choose|k: int| 0 <= k < users.len() && users[k] == v;
                        assert(users[k] == v);
                    }
                    assert(pre.is_quitter(client_id, u));
                },
                None => {
                    assert forall|v: u128| !pre.leaves_with(client_id, v) by {
                        if before.contains_key(v) {
                            let k = choose|k: int| 0 <= k < users.len() && users[k] == v;
                            assert(users[k] == v);
                        }
                    }
                },
            }
        }
        disconnect_user_uid
    }

    /// The subscribers, in the order of their identifiers.
    pub fn subscribers(&self) -> (r: Vec<u128>)
        ensures
            r@.to_set() == self@.clients,
            increasing(r@),
    {
        items_of(&self.clients)
    }

    /// The subscribers but one, in the order of their identifiers.
    pub fn subscribers_but(&self, client_id: u128) -> (r: Vec<u128>)
        ensures
            r@.to_set() == self@.clients.remove(client_id),
            increasing(r@),
    {
        let all = self.subscribers();
        without(&all, client_id)
    }

    /// Opens the game: logs `Init`, and has every subscriber told.
    pub fn init_game(&mut self) -> (r: Broadcast<GameMessage>)
        requires
            old(self).wf(),
        ensures
            final(self).wf(),
            final(self)@ == old(self)@.opened(),
            r.message@ == (GameMessageView {
                game_id: old(self)@.id,
                details: GameMessageDetailsView::Action(Action::Init),
            }),
            r.recipients@.to_set() == old(self)@.clients,
            increasing(r.recipients@),
    {
        let action = Action::Init;
        let ghost before = self.moves@;
        self.moves.push(action);
        self.inited = true;
        proof {
            assert(self@.moves == before.push(Action::Init));
            if before.contains(Action::Finished) {
                let k = choose|k: int| 0 <= k < before.len() && before[k] == Action::Finished;
                assert(self@.moves[k] == Action::Finished);
            }
            if self@.moves.contains(Action::Finished) {
                let k = choose|k: int|
                    0 <= k < self@.moves.len() && self@.moves[k] == Action::Finished;
                assert(before[k] == Action::Finished);
            }
        }
        Broadcast {
            message: GameMessage { game_id: self.id, details: GameMessageDetails::Action(action) },
            recipients: self.subscribers(),
        }
    }

    /// Lets in the client that asks for it, with a role that the room may
    /// give it. Answers with the state of the room, and leaves for later to
    /// tell the others and, once both seats are taken, to open the game.
    pub fn on_join_as(&mut self, msg: JoinGame, seat: UserRole) -> (r: (GameJoined, Vec<Deferred>))
        requires
            old(self).wf(),
            old(self)@.may_sit(msg.user_uid, seat),
        ensures
            final(self).wf(),
            final(self)@ == old(self)@.joined(msg.user_uid, msg.user_name@, msg.client_id, seat),
            r.0@ == final(self)@.joined_reply(seat),
            r.1@.map_values(|d: Deferred| d@) == final(self)@.tasks_after_join(
                msg.user_uid,
                msg.user_name@,
                msg.client_id,
                seat,
            ),
    {
        // Add client to client list and define user role
        self.client_join_as(msg.user_uid, msg.user_name.as_str(), msg.client_id, seat);

        let mut tasks: Vec<Deferred> = Vec::new();
        // Tell other clients that someone has joined
        tasks.push(
            Deferred::AnnounceJoin {
                user_uid: msg.user_uid,
                user_name: msg.user_name,
                user_seat: seat,
                client_id: msg.client_id,
            },
        );
        // Init the game and tell all game clients that the game has been inited
        if self.seat_1_user_uid.is_some() && self.seat_2_user_uid.is_some() && !self.inited {
            tasks.push(Deferred::InitGame);
        }
        assert(tasks@.map_values(|d: Deferred| d@) =~= self@.tasks_after_join(
            msg.user_uid,
            msg.user_name@,
            msg.client_id,
            seat,
        ));

        // Return the current game info
        let reply = GameJoined {
            game_name: self.name.clone(),
            user_role: seat,
            seat_1_username: copy_text(&self.seat_1_username),
            seat_2_username: copy_text(&self.seat_2_username),
            moves: copy_moves(&self.moves),
        };
        (reply, tasks)
    }

    /// Lets in the client that asks for it. The role is the seat that the
    /// user held already; else one of the empty seats, taken by chance; else
    /// observer. The rest is as in `on_join_as`.
    pub fn on_join(&mut self, msg: JoinGame) -> (r: (GameJoined, Vec<Deferred>))
        requires
            old(self).wf(),
        ensures
            final(self).wf(),
            old(self)@.may_sit(msg.user_uid, r.0.user_role),
            final(self)@ == old(self)@.joined(
                msg.user_uid,
                msg.user_name@,
                msg.client_id,
                r.0.user_role,
            ),
            r.0@ == final(self)@.joined_reply(r.0.user_role),
            r.1@.map_values(|d: Deferred| d@) == final(self)@.tasks_after_join(
                msg.user_uid,
                msg.user_name@,
                msg.client_id,
                r.0.user_role,
            ),
    {
        let seat = self.choose_seat(msg.user_uid);
        self.on_join_as(msg, seat)
    }

    /// Does what was put off. The others are told of a newcomer: every
    /// subscriber but the newcomer's own client. Or the game is opened, and
    /// every subscriber is told.
    pub fn run_deferred(&mut self, task: Deferred) -> (r: Broadcast<GameMessage>)
        requires
            old(self).wf(),
        ensures
            final(self).wf(),
            increasing(r.recipients@),
            match task@ {
                DeferredView::AnnounceJoin { user_uid, user_name, user_seat, client_id } => {
                    &&& final(self)@ == old(self)@
                    &&& r.message@ == (GameMessageView {
                        game_id: old(self)@.id,
                        details: GameMessageDetailsView::UserJoin { user_uid, user_name, user_seat },
                    })
                    &&& r.recipients@.to_set() == old(self)@.clients.remove(client_id)
                },
                DeferredView::InitGame => {
                    &&& final(self)@ == old(self)@.opened()
                    &&& r.message@ == (GameMessageView {
                        game_id: old(self)@.id,
                        details: GameMessageDetailsView::Action(Action::Init),
                    })
                    &&& r.recipients@.to_set() == old(self)@.clients
                },
            },
    {
        match task {
            Deferred::AnnounceJoin { user_uid, user_name, user_seat, client_id } => Broadcast {
                message: GameMessage {
                    game_id: self.id,
                    details: GameMessageDetails::UserJoin { user_uid, user_name, user_seat },
                },
                recipients: self.subscribers_but(client_id),
            },
            Deferred::InitGame => self.init_game(),
        }
    }

    /// Takes out a client that has gone. Where a user has gone with it, the
    /// subscribers that stay are told, with the seat that the user holds:
    /// seats are kept for those who come back.
    pub fn on_disconnect(&mut self, msg: Disconnect) -> (r: Option<Broadcast<GameMessage>>)
        requires
            old(self).wf(),
        ensures
            final(self).wf(),
            final(self)@ == old(self)@.without_client(msg.client_id),
            match old(self)@.quitter(msg.client_id) {
                Some(user_uid) => {
                    &&& r is Some
                    &&& r.unwrap().message@ == old(self)@.quit_notice(user_uid)
                    &&& r.unwrap().recipients@.to_set() == final(self)@.clients
                    &&& increasing(r.unwrap().recipients@)
                },
                None => r is None,
            },
    {
        //Remove client from list of connected clients, and check if it's the last client of a user
        let disconnect_user_uid = self.client_quit(msg.client_id);

        match disconnect_user_uid {
            Some(user_uid) => {
                let user_seat = self.get_user_role(user_uid);
                Some(
                    Broadcast {
                        message: GameMessage {
                            game_id: self.id,
                            details: GameMessageDetails::UserQuit { user_uid, user_seat },
                        },
                        recipients: self.subscribers(),
                    },
                )
            },
            None => None,
        }
    }

    /// Answers an action on which the rules have given their ruling. An
    /// action that the rules accept is taken if the room is open and not
    /// over: it is logged, and every subscriber is told. Any other leaves
    /// the room as it is.
    pub fn on_action(&mut self, msg: GameAction, ruling: GameActionResponse) -> (r: (
        GameActionResponse,
        Option<Broadcast<GameMessage>>,
    ))
        requires
            old(self).wf(),
        ensures
            final(self).wf(),
            r.0 == old(self)@.answer(ruling),
            r.0 == GameActionResponse::Accepted ==> {
                &&& final(self)@ == old(self)@.played(msg.action)
                &&& r.1 matches Some(b)
                &&& r.1.unwrap().message@ == (GameMessageView {
                    game_id: old(self)@.id,
                    details: GameMessageDetailsView::Action(msg.action),
                })
                &&& r.1.unwrap().recipients@.to_set() == old(self)@.clients
                &&& increasing(r.1.unwrap().recipients@)
            },
            r.0 != GameActionResponse::Accepted ==> final(self)@ == old(self)@ && r.1 is None,
    {
        match ruling {
            GameActionResponse::Illegal { reason } => (ruling, None),
            GameActionResponse::Accepted => {
                if self.inited && !self.finished {
                    let ghost before = self.moves@;
                    self.moves.push(msg.action);
                    if msg.action == Action::Finished {
                        self.finished = true;
                    }
                    proof {
                        assert(self@.moves == before.push(msg.action));
                        assert(self@.moves[0] == before[0]);
                        assert(!before.contains(Action::Finished));
                        if msg.action == Action::Finished {
                            assert(self@.moves[before.len() as int] == Action::Finished);
                        } else {
                            if self@.moves.contains(Action::Finished) {
                                let k = choose|k: int|
                                    0 <= k < self@.moves.len() && self@.moves[k]
                                        == Action::Finished;
                                assert(before[k] == Action::Finished);
                            }
                        }
                    }
                    (
                        GameActionResponse::Accepted,
                        Some(
                            Broadcast {
                                message: GameMessage {
                                    game_id: self.id,
                                    details: GameMessageDetails::Action(msg.action),
                                },
                                recipients: self.subscribers(),
                            },
                        ),
                    )
                } else {
                    (GameActionResponse::Illegal { reason: code::game::ILLEGAL_MOVE }, None)
                }
            },
        }
    }

    /// Whether the room has outlived its time.
    pub fn is_expired(&self, now: u64) -> (r: bool)
        ensures
            r == (now > self@.timeout),
    {
        now > self.timeout
    }

    /// What the room tells the lobby when it closes.
    pub fn closing(&self) -> (r: GameClosed)
        ensures
            r.game_id == self@.id,
    {
        GameClosed { game_id: self.id }
    }
}

/// Whether the seat is held by this user.
fn holds(seat: Option<u128>, user_uid: u128) -> (r: bool)
    ensures
        r == (seat == Some(user_uid)),
{
    match seat {
        Some(u) => u == user_uid,
        None => false,
    }
}

/// A copy of a log.
pub fn copy_moves(moves: &Vec<Action>) -> (r: Vec<Action>)
    ensures
        r@ == moves@,
{
    let mut out: Vec<Action> = Vec::new();
    let mut i: usize = 0;
    while i < moves.len()
        invariant
            0 <= i <= moves.len(),
            out@ == moves@.take(i as int),
        decreases moves.len() - i,
    {
        out.push(moves[i]);
        assert(out@ =~= moves@.take(i + 1));
        i = i + 1;
    }
    assert(out@ =~= moves@);
    out
}

} // verus!
