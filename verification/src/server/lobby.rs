//! The lobby: the sessions, the connected clients and the games that are
//! open, and the news that it spreads of them.

use vstd::prelude::*;
use std::collections::BTreeMap;
use std::collections::BTreeSet;
use crate::ordered::{increasing, items_of, keys_of, lemma_keys_are_ordered};
use crate::rules::UserRole;
use crate::server::actor_msg::{
    RegisterUserMessageView,
    AskGameList, Connect, CreateGame, Disconnect, GameClosed, GameCreated, GameCreatedView,
    GameFound, GameList, GetGame, LobbyMessage, LobbyMessageView, RegisterUserMessage,
    RegisterUserResponse, RegisterUserResponseView,
};
use crate::server::game::{client_sets, Broadcast, Game, GameView, Info, InfoView, GAME_EXPIRATION};
use crate::uid::fresh_uid;

pub mod laws;

verus! {

/// How long a session lives after it was last used, in milliseconds: 30
/// days.
pub const SESSION_DURATION: u64 = 2_592_000_000;

/// The time between two sweeps of the sessions, in milliseconds.
pub const SESSION_SWEEP_INTERVAL: u64 = 60_000;

/// The lobby.
#[derive(Debug)]
pub struct Lobby {
    /// The user and the end of each session.
    sessions: BTreeMap<u128, (u128, u64)>,
    /// The connected clients.
    clients: BTreeSet<u128>,
    /// The clients of each user.
    clients_by_users: BTreeMap<u128, BTreeSet<u128>>,
    /// The user of each client.
    user_by_client: BTreeMap<u128, u128>,
    /// What is listed of each game.
    games: BTreeMap<u128, Info>,
}

/// The lobby as a mathematical value.
pub struct LobbyView {
    pub sessions: Map<u128, (u128, u64)>,
    pub clients: Set<u128>,
    pub clients_by_users: Map<u128, Set<u128>>,
    pub user_by_client: Map<u128, u128>,
    pub games: Map<u128, InfoView>,
}

/// What is listed of each game, as mathematical values.
pub open spec fn listings(games: Map<u128, Info>) -> Map<u128, InfoView> {
    Map::new(|id: u128| games.contains_key(id), |id: u128| games[id]@)
}

impl View for Lobby {
    type V = LobbyView;

    closed spec fn view(&self) -> LobbyView {
        LobbyView {
            sessions: self.sessions@,
            clients: self.clients@,
            clients_by_users: client_sets(self.clients_by_users@),
            user_by_client: self.user_by_client@,
            games: listings(self.games@),
        }
    }
}

impl LobbyView {
    /// The lobby before anything has happened.
    pub open spec fn empty() -> LobbyView {
        LobbyView {
            sessions: Map::empty(),
            clients: Set::empty(),
            clients_by_users: Map::empty(),
            user_by_client: Map::empty(),
            games: Map::empty(),
        }
    }

    /// The two sides of the index agree: a client is among the clients of
    /// its user, and of no other user.
    pub open spec fn index_agrees(self) -> bool {
        &&& forall|c: u128| #[trigger]
            self.user_by_client.contains_key(c) ==> self.clients_by_users.contains_key(
                self.user_by_client[c],
            ) && self.clients_by_users[self.user_by_client[c]].contains(c)
        &&& forall|u: u128, c: u128|
            self.clients_by_users.contains_key(u) && #[trigger] self.clients_by_users[u].contains(c)
                ==> self.user_by_client.contains_key(c) && self.user_by_client[c] == u
    }

    /// Each game is listed under its own identifier.
    pub open spec fn games_are_filed(self) -> bool {
        forall|id: u128| #[trigger] self.games.contains_key(id) ==> self.games[id].id == id
    }

    /// What holds of the lobby at all times.
    pub open spec fn wf(self) -> bool {
        self.index_agrees() && self.games_are_filed()
    }

    /// Whether a login with these identifiers takes up a session: both are
    /// given, and the session is that of the user.
    pub open spec fn resumes(self, user_uid: Option<u128>, session_uid: Option<u128>) -> bool {
        user_uid is Some && session_uid is Some && self.sessions.contains_key(session_uid.unwrap())
            && self.sessions[session_uid.unwrap()].0 == user_uid.unwrap()
    }

    /// The user and the session that a login ends with: its own where it
    /// takes up a session, else the fresh ones.
    pub open spec fn session_for(
        self,
        user_uid: Option<u128>,
        session_uid: Option<u128>,
        new_user_uid: u128,
        new_session_uid: u128,
    ) -> (u128, u128) {
        if self.resumes(user_uid, session_uid) {
            (user_uid.unwrap(), session_uid.unwrap())
        } else {
            (new_user_uid, new_session_uid)
        }
    }

    /// The lobby after a login: the session that the login ends with lasts
    /// from now on for the whole duration of a session.
    pub open spec fn with_session(
        self,
        user_uid: Option<u128>,
        session_uid: Option<u128>,
        now: u64,
        new_user_uid: u128,
        new_session_uid: u128,
    ) -> LobbyView {
        let (user, session) = self.session_for(
            user_uid,
            session_uid,
            new_user_uid,
            new_session_uid,
        );
        LobbyView {
            sessions: self.sessions.insert(session, (user, (now + SESSION_DURATION) as u64)),
            ..self
        }
    }

    /// The lobby without the sessions that have ended.
    pub open spec fn swept(self, now: u64) -> LobbyView {
        LobbyView {
            sessions: Map::new(
                |s: u128| self.sessions.contains_key(s) && self.sessions[s].1 > now,
                |s: u128| self.sessions[s],
            ),
            ..self
        }
    }

    /// The clients of a user.
    pub open spec fn clients_of(self, user_uid: u128) -> Set<u128> {
        if self.clients_by_users.contains_key(user_uid) {
            self.clients_by_users[user_uid]
        } else {
            Set::empty()
        }
    }

    /// The index without a client: it has no user, and its user has one
    /// client less.
    pub open spec fn unbound(self, client_id: u128) -> LobbyView {
        if self.user_by_client.contains_key(client_id) {
            let user = self.user_by_client[client_id];
            LobbyView {
                user_by_client: self.user_by_client.remove(client_id),
                clients_by_users: if self.clients_by_users.contains_key(user) {
                    self.clients_by_users.insert(
                        user,
                        self.clients_by_users[user].remove(client_id),
                    )
                } else {
                    self.clients_by_users
                },
                ..self
            }
        } else {
            self
        }
    }

    /// The index with a client bound to a user, and to no other.
    pub open spec fn bound(self, user_uid: u128, client_id: u128) -> LobbyView {
        let cleared = self.unbound(client_id);
        LobbyView {
            user_by_client: cleared.user_by_client.insert(client_id, user_uid),
            clients_by_users: cleared.clients_by_users.insert(
                user_uid,
                cleared.clients_of(user_uid).insert(client_id),
            ),
            ..cleared
        }
    }

    /// The lobby after a login: the session is settled and the client is
    /// bound to the user.
    pub open spec fn registered(
        self,
        msg: RegisterUserMessageView,
        now: u64,
        new_user_uid: u128,
        new_session_uid: u128,
    ) -> LobbyView {
        self.with_session(msg.user_uid, msg.session_uid, now, new_user_uid, new_session_uid).bound(
            self.session_for(msg.user_uid, msg.session_uid, new_user_uid, new_session_uid).0,
            msg.client_id,
        )
    }

    /// The identity that a login is answered with.
    pub open spec fn registered_reply(
        self,
        msg: RegisterUserMessageView,
        new_user_uid: u128,
        new_session_uid: u128,
    ) -> RegisterUserResponseView {
        RegisterUserResponseView {
            name: msg.name,
            session_uid: self.session_for(
                msg.user_uid,
                msg.session_uid,
                new_user_uid,
                new_session_uid,
            ).1,
            user_uid: self.session_for(
                msg.user_uid,
                msg.session_uid,
                new_user_uid,
                new_session_uid,
            ).0,
        }
    }

    /// The lobby after a client has gone.
    pub open spec fn without_client(self, client_id: u128) -> LobbyView {
        LobbyView { clients: self.clients.remove(client_id), ..self.unbound(client_id) }
    }

    /// The lobby after a game has been listed.
    pub open spec fn with_game(self, info: InfoView) -> LobbyView {
        LobbyView { games: self.games.insert(info.id, info), ..self }
    }

    /// Whether `list` is the list of the games: each game once, by
    /// increasing identifier.
    pub open spec fn is_game_list(self, list: Seq<InfoView>) -> bool {
        &&& increasing(list.map_values(|i: InfoView| i.id))
        &&& forall|k: int|
            0 <= k < list.len() ==> self.games.contains_key(#[trigger] list[k].id)
                && self.games[list[k].id] == list[k]
        &&& forall|id: u128| #[trigger]
            self.games.contains_key(id) ==> exists|k: int| 0 <= k < list.len() && list[k].id == id
    }
}

impl Lobby {
    /// What holds of the lobby at all times.
    pub open spec fn wf(&self) -> bool {
        self@.wf()
    }

    /// The lobby before anything has happened.
    pub fn new() -> (r: Lobby)
        ensures
            r.wf(),
            r@ == LobbyView::empty(),
    {
        let r = Lobby {
            sessions: BTreeMap::new(),
            clients: BTreeSet::new(),
            clients_by_users: BTreeMap::new(),
            user_by_client: BTreeMap::new(),
            games: BTreeMap::new(),
        };
        assert(r@.clients_by_users =~= Map::empty());
        assert(r@.games =~= Map::empty());
        r
    }

    /// The user and the end of a session, if the session is known.
    pub fn session(&self, session_uid: u128) -> (r: Option<(u128, u64)>)
        ensures
            r == if self@.sessions.contains_key(session_uid) {
                Some(self@.sessions[session_uid])
            } else {
                None
            },
    {
        proof {
            lemma_keys_are_ordered();
        }
        broadcast use vstd::std_specs::btree::group_btree_axioms;

        match self.sessions.get(&session_uid) {
            Some(entry) => Some((entry.0, entry.1)),
            None => None,
        }
    }

    /// The connected clients, by increasing identifier.
    pub fn clients(&self) -> (r: Vec<u128>)
        ensures
            r@.to_set() == self@.clients,
            increasing(r@),
    {
        items_of(&self.clients)
    }

    /// The user of a client, if the client has logged in.
    pub fn user_of_client(&self, client_id: u128) -> (r: Option<u128>)
        ensures
            r == if self@.user_by_client.contains_key(client_id) {
                Some(self@.user_by_client[client_id])
            } else {
                None
            },
    {
        proof {
            lemma_keys_are_ordered();
        }
        broadcast use vstd::std_specs::btree::group_btree_axioms;

        match self.user_by_client.get(&client_id) {
            Some(user_uid) => Some(*user_uid),
            None => None,
        }
    }

    /// The clients of a user, by increasing identifier.
    pub fn clients_of_user(&self, user_uid: u128) -> (r: Vec<u128>)
        ensures
            r@.to_set() == self@.clients_of(user_uid),
            increasing(r@),
    {
        proof {
            lemma_keys_are_ordered();
        }
        broadcast use vstd::std_specs::btree::group_btree_axioms;

        match self.clients_by_users.get(&user_uid) {
            Some(clients) => items_of(clients),
            None => {
                let r: Vec<u128> = Vec::new();
                assert(r@.to_set() =~= Set::<u128>::empty());
                r
            },
        }
    }

    /// Forgets the sessions that have ended, and says how many are left.
    pub fn clean_old_sessions(&mut self, now: u64) -> (r: usize)
        requires
            old(self).wf(),
        ensures
            final(self).wf(),
            final(self)@ == old(self)@.swept(now),
            r == final(self)@.sessions.len(),
    {
        proof {
            lemma_keys_are_ordered();
        }
        broadcast use vstd::std_specs::btree::group_btree_axioms;

        let ids = keys_of(&self.sessions);
        let ghost before = self.sessions@;
        let ghost entered = *self;
        let mut i: usize = 0;
        while i < ids.len()
            invariant
                0 <= i <= ids.len(),
                ids@.to_set() == before.dom(),
                increasing(ids@),
                *self == (Lobby { sessions: self.sessions, ..entered }),
                forall|s: u128| #[trigger]
                    self.sessions@.contains_key(s) ==> before.contains_key(s) && self.sessions@[s]
                        == before[s],
                forall|k: int|
                    i <= k < ids.len() ==> self.sessions@.contains_key(#[trigger] ids[k]),
                forall|k: int|
                    0 <= k < i ==> (self.sessions@.contains_key(#[trigger] ids[k]) <==> before[ids[k]].1
                        > now),
            decreases ids.len() - i,
        {
            proof {
                lemma_keys_are_ordered();
            }
            let session_uid = ids[i];
            assert(self.sessions@.contains_key(ids[i as int]));
            let expired = match self.sessions.get(&session_uid) {
                Some(entry) => !(entry.1 > now),
                None => false,
            };
            if expired {
                self.sessions.remove(&session_uid);
            }
            proof {
                assert forall|k: int| i + 1 <= k < ids.len() implies self.sessions@.contains_key(
                    #[trigger] ids[k],
                ) by {
                    assert(ids[i as int] < ids[k]);
                }
                assert forall|k: int| 0 <= k < i + 1 implies (self.sessions@.contains_key(
                    #[trigger] ids[k],
                ) <==> before[ids[k]].1 > now) by {
                    if k < i {
                        assert(ids[k] < ids[i as int]);
                    }
                }
            }
            i = i + 1;
        }
        proof {
            let after = old(self)@.swept(now);
            assert forall|s: u128| self.sessions@.contains_key(s) == after.sessions.contains_key(
                s,
            ) by {
                if before.contains_key(s) {
                    assert(ids@.to_set().contains(s));
                    assert(ids@.contains(s));
                    let k = choose|k: int| 0 <= k < ids.len() && ids[k] == s;
                    assert(ids[k] == s);
                }
            }
            assert(self.sessions@ =~= after.sessions);
            assert(self@ == after);
        }
        self.sessions.len()
    }

    /// Settles the user and the session of a login, given the identifiers to
    /// use if it takes up no session. A login that names a session and the
    /// user of that session keeps both, and the session lasts anew from now
    /// on; any other gets the fresh identifiers and a session of its own.
    pub fn set_session_with(
        &mut self,
        user_uid: Option<u128>,
        session_uid: Option<u128>,
        now: u64,
        new_user_uid: u128,
        new_session_uid: u128,
    ) -> (r: (u128, u128))
        requires
            old(self).wf(),
            now + SESSION_DURATION <= u64::MAX,
        ensures
            final(self).wf(),
            r == old(self)@.session_for(user_uid, session_uid, new_user_uid, new_session_uid),
            final(self)@ == old(self)@.with_session(
                user_uid,
                session_uid,
                now,
                new_user_uid,
                new_session_uid,
            ),
    {
        proof {
            lemma_keys_are_ordered();
        }
        broadcast use vstd::std_specs::btree::group_btree_axioms;

        let resumed = match (session_uid, user_uid) {
            (Some(session_uid), Some(msg_user_uid)) => {
                match self.sessions.get(&session_uid) {
                    Some(entry) => entry.0 == msg_user_uid,
                    None => false,
                }
            },
            _ => false,
        };
        let (user, session) = if resumed {
            (user_uid.unwrap(), session_uid.unwrap())
        } else {
            (new_user_uid, new_session_uid)
        };
        self.sessions.insert(session, (user, now + SESSION_DURATION));
        proof {
            lemma_same_index(old(self)@, self@);
        }
        (user, session)
    }

    /// Settles the user and the session of a login; the identifiers of a
    /// login that takes up no session are fresh random ones.
    pub fn set_session(&mut self, user_uid: Option<u128>, session_uid: Option<u128>, now: u64) -> (r:
        (u128, u128))
        requires
            old(self).wf(),
            now + SESSION_DURATION <= u64::MAX,
        ensures
            final(self).wf(),
            old(self)@.resumes(user_uid, session_uid) ==> r == (
                user_uid.unwrap(),
                session_uid.unwrap(),
            ),
            exists|new_user_uid: u128, new_session_uid: u128|
                r == old(self)@.session_for(user_uid, session_uid, new_user_uid, new_session_uid)
                    && final(self)@ == old(self)@.with_session(
                    user_uid,
                    session_uid,
                    now,
                    new_user_uid,
                    new_session_uid,
                ),
    {
        let new_session_uid = fresh_uid();
        let new_user_uid = fresh_uid();
        self.set_session_with(user_uid, session_uid, now, new_user_uid, new_session_uid)
    }

    /// Binds a client to a user in the index, and unbinds it from the user
    /// it was bound to before.
    pub fn save_user_client_asso(&mut self, user_uid: u128, client_id: u128)
        requires
            old(self).wf(),
        ensures
            final(self).wf(),
            final(self)@ == old(self)@.bound(user_uid, client_id),
    {
        proof {
            lemma_keys_are_ordered();
        }
        broadcast use vstd::std_specs::btree::group_btree_axioms;

        //Clean old association if already exists
        self.forget_client(client_id);

        //Save new association
        let mut user_list = match self.clients_by_users.remove(&user_uid) {
            Some(list) => list,
            None => BTreeSet::new(),
        };
        user_list.insert(client_id);
        self.clients_by_users.insert(user_uid, user_list);
        self.user_by_client.insert(client_id, user_uid);
        proof {
            let after = old(self)@.bound(user_uid, client_id);
            assert(self@.clients_by_users =~= after.clients_by_users);
            assert(self@.games =~= after.games);
            assert(self@ == after);
            lemma_bound_keeps_index(old(self)@, user_uid, client_id);
        }
    }

    /// Gives a client that logs in its identity, given the identifiers to
    /// use if the login takes up no session, and binds the client to the
    /// user.
    pub fn register_user_with(
        &mut self,
        msg: RegisterUserMessage,
        now: u64,
        new_user_uid: u128,
        new_session_uid: u128,
    ) -> (r: RegisterUserResponse)
        requires
            old(self).wf(),
            now + SESSION_DURATION <= u64::MAX,
        ensures
            final(self).wf(),
            r@ == old(self)@.registered_reply(msg@, new_user_uid, new_session_uid),
            final(self)@ == old(self)@.registered(msg@, now, new_user_uid, new_session_uid),
    {
        let (user_uid, session_uid) = self.set_session_with(
            msg.user_uid,
            msg.session_uid,
            now,
            new_user_uid,
            new_session_uid,
        );
        self.save_user_client_asso(user_uid, msg.client_id);
        RegisterUserResponse { name: msg.name, session_uid, user_uid }
    }

    /// Gives a client that logs in its identity, and binds the client to the
    /// user. A login that names a session and the user of that session keeps
    /// both; any other gets fresh random identifiers.
    pub fn register_user(&mut self, msg: RegisterUserMessage, now: u64) -> (r:
        RegisterUserResponse)
        requires
            old(self).wf(),
            now + SESSION_DURATION <= u64::MAX,
        ensures
            final(self).wf(),
            r@.name == msg@.name,
            old(self)@.resumes(msg@.user_uid, msg@.session_uid) ==> r@.user_uid
                == msg@.user_uid.unwrap() && r@.session_uid == msg@.session_uid.unwrap(),
            exists|new_user_uid: u128, new_session_uid: u128|
                r@ == old(self)@.registered_reply(msg@, new_user_uid, new_session_uid)
                    && final(self)@ == old(self)@.registered(
                    msg@,
                    now,
                    new_user_uid,
                    new_session_uid,
                ),
    {
        let new_session_uid = fresh_uid();
        let new_user_uid = fresh_uid();
        self.register_user_with(msg, now, new_user_uid, new_session_uid)
    }

    /// The games that are listed, by increasing identifier.
    pub fn ask_game_list(&self, msg: AskGameList) -> (r: GameList)
        requires
            self.wf(),
        ensures
            self@.is_game_list(r@),
    {
        proof {
            lemma_keys_are_ordered();
        }
        broadcast use vstd::std_specs::btree::group_btree_axioms;

        let ids = keys_of(&self.games);
        let mut list: Vec<Info> = Vec::new();
        let mut i: usize = 0;
        while i < ids.len()
            invariant
                0 <= i <= ids.len(),
                self.wf(),
                ids@.to_set() == self.games@.dom(),
                increasing(ids@),
                list.len() == i,
                forall|k: int|
                    0 <= k < i ==> (#[trigger] list[k])@ == self.games@[ids[k]]@ && list[k].id
                        == ids[k],
            decreases ids.len() - i,
        {
            proof {
                lemma_keys_are_ordered();
            }
            let id = ids[i];
            assert(ids@.to_set().contains(ids[i as int]));
            assert(self@.games.contains_key(id));
            match self.games.get(&id) {
                Some(info) => {
                    list.push(info.duplicate());
                },
                None => {},
            }
            i = i + 1;
        }
        let r = GameList { list };
        proof {
            let shown = r@;
            assert(shown.len() == ids.len());
            assert forall|k: int| 0 <= k < shown.len() implies shown[k] == self@.games[ids[k]]
                && shown[k].id == ids[k] by {
                assert(shown[k] == r.list[k]@);
                assert(ids@.to_set().contains(ids[k]));
            }
            assert(shown.map_values(|i: InfoView| i.id) =~= ids@);
            assert forall|id: u128| #[trigger] self@.games.contains_key(id) implies exists|k: int|
                0 <= k < shown.len() && shown[k].id == id by {
                assert(ids@.to_set().contains(id));
                assert(ids@.contains(id));
                let k = choose|k: int| 0 <= k < ids.len() && ids[k] == id;
                assert(shown[k].id == id);
            }
        }
        r
    }

    /// Lists a new game and lets in the client that asked for it, with a
    /// role that the game may give it. Answers with the game's identity and
    /// the role; hands back the game, and the news to spread once the answer
    /// is out.
    pub fn create_game_with(&mut self, msg: CreateGame, game: Game, seat: UserRole) -> (r: (
        GameCreated,
        Game,
        LobbyMessage,
    ))
        requires
            old(self).wf(),
            game.wf(),
            game@.may_sit(msg.user_uid, seat),
        ensures
            final(self).wf(),
            r.1.wf(),
            r.1@ == game@.joined(msg.user_uid, msg.user_name@, msg.client_id, seat),
            r.0@ == (GameCreatedView {
                game_uid: game@.id,
                game_name: game@.name,
                user_seat: seat,
            }),
            r.2@ == LobbyMessageView::NewGame(r.1@.info()),
            final(self)@ == old(self)@.with_game(r.1@.info()),
    {
        proof {
            lemma_keys_are_ordered();
        }
        broadcast use vstd::std_specs::btree::group_btree_axioms;

        let mut game = game;
        game.client_join_as(msg.user_uid, msg.user_name.as_str(), msg.client_id, seat);
        let game_id = game.id();
        let game_name = game.name().clone();
        let game_info = game.info();
        self.games.insert(game_id, game_info.duplicate());
        proof {
            let after = old(self)@.with_game(game@.info());
            assert(self@.games =~= after.games);
            assert(self@.clients_by_users == after.clients_by_users);
            assert(self@ == after);
            assert(after.index_agrees());
            assert(after.games_are_filed());
        }
        (
            GameCreated { game_uid: game_id, game_name, user_seat: seat },
            game,
            LobbyMessage::NewGame(game_info),
        )
    }

    /// Opens a new game, under a fresh identifier and a name of its own, and
    /// lets in the client that asked for it, on one of the two seats, taken
    /// by chance. The rest is as in `create_game_with`.
    pub fn create_game(&mut self, msg: CreateGame, now: u64) -> (r: (
        GameCreated,
        Game,
        LobbyMessage,
    ))
        requires
            old(self).wf(),
            now + GAME_EXPIRATION <= u64::MAX,
        ensures
            final(self).wf(),
            r.1.wf(),
            r.0@.user_seat != UserRole::Observer,
            r.1@ == GameView::fresh(
                r.0@.game_uid,
                r.0@.game_name,
                (now + GAME_EXPIRATION) as u64,
            ).joined(msg.user_uid, msg.user_name@, msg.client_id, r.0@.user_seat),
            crate::server::game::name::is_generated_name(r.0@.game_name),
            r.2@ == LobbyMessageView::NewGame(r.1@.info()),
            final(self)@ == old(self)@.with_game(r.1@.info()),
    {
        let game = Game::new(now);
        let seat = game.choose_seat(msg.user_uid);
        assert(game@.empty_seats() =~= seq![UserRole::Seat1, UserRole::Seat2]);
        self.create_game_with(msg, game, seat)
    }

    /// Whether a game is listed, and under which identifier it is reached.
    pub fn get_game(&self, msg: GetGame) -> (r: GameFound)
        requires
            self.wf(),
        ensures
            r == if self@.games.contains_key(msg.game_id) {
                GameFound::Success { game: msg.game_id }
            } else {
                GameFound::Failure
            },
    {
        proof {
            lemma_keys_are_ordered();
        }
        broadcast use vstd::std_specs::btree::group_btree_axioms;

        if self.games.contains_key(&msg.game_id) {
            GameFound::Success { game: msg.game_id }
        } else {
            GameFound::Failure
        }
    }

    /// The clients to hand a piece of news to: all that are connected.
    pub fn broadcast(&self, message: LobbyMessage) -> (r: Broadcast<LobbyMessage>)
        ensures
            r.message == message,
            r.recipients@.to_set() == self@.clients,
            increasing(r.recipients@),
    {
        Broadcast { message, recipients: items_of(&self.clients) }
    }

    /// Takes a game that has closed off the list. If it was listed, every
    /// client is told that it is gone.
    pub fn game_closed(&mut self, msg: GameClosed) -> (r: Option<Broadcast<LobbyMessage>>)
        requires
            old(self).wf(),
        ensures
            final(self).wf(),
            final(self)@ == (LobbyView {
                games: old(self)@.games.remove(msg.game_id),
                ..old(self)@
            }),
            r is Some == old(self)@.games.contains_key(msg.game_id),
            r matches Some(b) ==> {
                &&& b.message@ == (LobbyMessageView::GameRemoved { game_id: msg.game_id })
                &&& b.recipients@.to_set() == old(self)@.clients
                &&& increasing(b.recipients@)
            },
    {
        proof {
            lemma_keys_are_ordered();
        }
        broadcast use vstd::std_specs::btree::group_btree_axioms;

        let removed = self.games.remove(&msg.game_id);
        proof {
            let after = LobbyView {
                games: old(self)@.games.remove(msg.game_id),
                ..old(self)@
            };
            assert(self@.games =~= after.games);
            assert(self@.clients_by_users == after.clients_by_users);
            assert(self@ == after);
            assert(after.index_agrees());
            assert(after.games_are_filed());
        }
        match removed {
            Some(_) => Some(self.broadcast(LobbyMessage::GameRemoved { game_id: msg.game_id })),
            None => None,
        }
    }

    /// Takes note of a client that has opened its connection.
    pub fn connect(&mut self, msg: Connect)
        requires
            old(self).wf(),
        ensures
            final(self).wf(),
            final(self)@ == (LobbyView {
                clients: old(self)@.clients.insert(msg.client_id),
                ..old(self)@
            }),
    {
        proof {
            lemma_keys_are_ordered();
        }
        broadcast use vstd::std_specs::btree::group_btree_axioms;

        self.clients.remove(&msg.client_id);
        self.clients.insert(msg.client_id);
        proof {
            let after = LobbyView {
                clients: old(self)@.clients.insert(msg.client_id),
                ..old(self)@
            };
            assert(self@.clients =~= after.clients);
            assert(self@.clients_by_users == after.clients_by_users);
            assert(self@.games == after.games);
            assert(self@ == after);
            lemma_same_index(old(self)@, after);
        }
    }

    /// Forgets a client that has gone: it is no longer connected, and no
    /// longer in the index. Names the games to pass the word to: all that
    /// are listed, by increasing identifier.
    pub fn on_disconnect(&mut self, msg: Disconnect) -> (r: Vec<u128>)
        requires
            old(self).wf(),
        ensures
            final(self).wf(),
            final(self)@ == old(self)@.without_client(msg.client_id),
            r@.to_set() == old(self)@.games.dom(),
            increasing(r@),
    {
        proof {
            lemma_keys_are_ordered();
        }
        broadcast use vstd::std_specs::btree::group_btree_axioms;

        let games = keys_of(&self.games);
        assert(self.games@.dom() =~= self@.games.dom());
        self.clients.remove(&msg.client_id);
        proof {
            let mid = LobbyView {
                clients: old(self)@.clients.remove(msg.client_id),
                ..old(self)@
            };
            assert(self@.clients_by_users == mid.clients_by_users);
            assert(self@.games == mid.games);
            assert(self@ == mid);
            lemma_same_index(old(self)@, mid);
        }
        self.forget_client(msg.client_id);
        games
    }

    /// Takes a client out of the index.
    fn forget_client(&mut self, client_id: u128)
        requires
            old(self).wf(),
        ensures
            final(self).wf(),
            final(self)@ == old(self)@.unbound(client_id),
    {
        proof {
            lemma_keys_are_ordered();
        }
        broadcast use vstd::std_specs::btree::group_btree_axioms;

        match self.user_by_client.remove(&client_id) {
            Some(user_uid) => {
                match self.clients_by_users.remove(&user_uid) {
                    Some(list) => {
                        let mut client_list = list;
                        client_list.remove(&client_id);
                        self.clients_by_users.insert(user_uid, client_list);
                    },
                    None => {},
                }
            },
            None => {},
        }
        proof {
            let after = old(self)@.unbound(client_id);
            assert(self@.user_by_client =~= after.user_by_client);
            assert(self@.clients_by_users =~= after.clients_by_users);
            assert(self@.games =~= after.games);
            assert(self@ == after);
            lemma_unbound_keeps_index(old(self)@, client_id);
        }
    }
}

/// What holds of the lobby at all times speaks of the index and of the games
/// alone.
pub proof fn lemma_same_index(a: LobbyView, b: LobbyView)
    requires
        a.wf(),
        b.clients_by_users == a.clients_by_users,
        b.user_by_client == a.user_by_client,
        b.games == a.games,
    ensures
        b.wf(),
{
    assert(b.index_agrees());
    assert(b.games_are_filed());
}

/// Taking a client out of an index whose sides agree leaves them agreeing.
pub proof fn lemma_unbound_keeps_index(l: LobbyView, client_id: u128)
    requires
        l.index_agrees(),
    ensures
        l.unbound(client_id).index_agrees(),
        !l.unbound(client_id).user_by_client.contains_key(client_id),
        forall|u: u128|
            l.unbound(client_id).clients_by_users.contains_key(u) ==> !(
            #[trigger] l.unbound(client_id).clients_by_users[u]).contains(client_id),
{
    let m = l.unbound(client_id);
    if l.user_by_client.contains_key(client_id) {
        let user = l.user_by_client[client_id];
        assert forall|c: u128| #[trigger] m.user_by_client.contains_key(c) implies
            m.clients_by_users.contains_key(m.user_by_client[c]) && m.clients_by_users[m.user_by_client[c]].contains(
            c,
        ) by {
            assert(l.user_by_client.contains_key(c));
        }
        assert forall|u: u128, c: u128|
            m.clients_by_users.contains_key(u) && #[trigger] m.clients_by_users[u].contains(
                c,
            ) implies m.user_by_client.contains_key(c) && m.user_by_client[c] == u by {
            assert(l.clients_by_users[u].contains(c));
        }
        assert forall|u: u128| m.clients_by_users.contains_key(u) implies !(
        #[trigger] m.clients_by_users[u]).contains(client_id) by {
            if m.clients_by_users[u].contains(client_id) {
                assert(l.clients_by_users[u].contains(client_id));
            }
        }
    } else {
        assert forall|u: u128| m.clients_by_users.contains_key(u) implies !(
        #[trigger] m.clients_by_users[u]).contains(client_id) by {
            if m.clients_by_users[u].contains(client_id) {
                assert(l.clients_by_users[u].contains(client_id));
            }
        }
    }
}

/// Binding a client to a user in an index whose sides agree leaves them
/// agreeing.
pub proof fn lemma_bound_keeps_index(l: LobbyView, user_uid: u128, client_id: u128)
    requires
        l.index_agrees(),
    ensures
        l.bound(user_uid, client_id).index_agrees(),
        l.bound(user_uid, client_id).user_by_client[client_id] == user_uid,
{
    let cleared = l.unbound(client_id);
    lemma_unbound_keeps_index(l, client_id);
    let m = l.bound(user_uid, client_id);
    assert forall|c: u128| #[trigger] m.user_by_client.contains_key(c) implies
        m.clients_by_users.contains_key(m.user_by_client[c]) && m.clients_by_users[m.user_by_client[c]].contains(
        c,
    ) by {
        if c != client_id {
            assert(cleared.user_by_client.contains_key(c));
        }
    }
    assert forall|u: u128, c: u128|
        m.clients_by_users.contains_key(u) && #[trigger] m.clients_by_users[u].contains(
            c,
        ) implies m.user_by_client.contains_key(c) && m.user_by_client[c] == u by {
        if c != client_id {
            assert(cleared.clients_by_users.contains_key(u));
            assert(cleared.clients_by_users[u].contains(c));
        } else {
            if u != user_uid {
                assert(cleared.clients_by_users[u].contains(client_id));
            }
        }
    }
}

} // verus!
