//! The messages that the lobby, the games and the clients send one another.
//!
//! A part of the server is named by its identifier; whoever delivers the
//! messages knows how to reach it.

use vstd::prelude::*;
use crate::rules;
use crate::server::game::{Info, InfoView};

verus! {

/// The lobby's answer to `RegisterUserMessage`: the identity to use.
#[derive(Clone, Debug, PartialEq, Eq)]
pub struct RegisterUserResponse {
    pub name: String,
    pub session_uid: u128,
    pub user_uid: u128,
}

pub struct RegisterUserResponseView {
    pub name: Seq<char>,
    pub session_uid: u128,
    pub user_uid: u128,
}

impl View for RegisterUserResponse {
    type V = RegisterUserResponseView;

    open spec fn view(&self) -> RegisterUserResponseView {
        RegisterUserResponseView {
            name: self.name@,
            session_uid: self.session_uid,
            user_uid: self.user_uid,
        }
    }
}

/// A client asks the lobby for an identity, naming the one it had if it had
/// one.
#[derive(Clone, Debug, PartialEq, Eq)]
pub struct RegisterUserMessage {
    pub name: String,
    pub session_uid: Option<u128>,
    pub user_uid: Option<u128>,
    pub client_id: u128,
}

pub struct RegisterUserMessageView {
    pub name: Seq<char>,
    pub session_uid: Option<u128>,
    pub user_uid: Option<u128>,
    pub client_id: u128,
}

impl View for RegisterUserMessage {
    type V = RegisterUserMessageView;

    open spec fn view(&self) -> RegisterUserMessageView {
        RegisterUserMessageView {
            name: self.name@,
            session_uid: self.session_uid,
            user_uid: self.user_uid,
            client_id: self.client_id,
        }
    }
}

/// A client has opened its connection.
#[derive(Clone, Copy, Debug, PartialEq, Eq, Structural)]
pub struct Connect {
    pub client_id: u128,
}

/// A client has gone.
#[derive(Clone, Copy, Debug, PartialEq, Eq, Structural)]
pub struct Disconnect {
    pub client_id: u128,
}

/// The lobby's answer to `AskGameList`.
#[derive(Clone, Debug, PartialEq, Eq)]
pub struct GameList {
    pub list: Vec<Info>,
}

impl View for GameList {
    type V = Seq<InfoView>;

    open spec fn view(&self) -> Seq<InfoView> {
        infos_of(self.list@)
    }
}

/// The games of a list, as mathematical values.
pub open spec fn infos_of(list: Seq<Info>) -> Seq<InfoView> {
    list.map_values(|i: Info| i@)
}

/// A client asks the lobby for the games it lists.
#[derive(Clone, Copy, Debug, PartialEq, Eq, Structural)]
pub struct AskGameList {}

/// A user asks the lobby for a new game, which it joins at once.
#[derive(Clone, Debug, PartialEq, Eq)]
pub struct CreateGame {
    pub user_uid: u128,
    pub user_name: String,
    pub client_id: u128,
}

pub struct CreateGameView {
    pub user_uid: u128,
    pub user_name: Seq<char>,
    pub client_id: u128,
}

impl View for CreateGame {
    type V = CreateGameView;

    open spec fn view(&self) -> CreateGameView {
        CreateGameView {
            user_uid: self.user_uid,
            user_name: self.user_name@,
            client_id: self.client_id,
        }
    }
}

/// The lobby's answer to `CreateGame`.
#[derive(Clone, Debug, PartialEq, Eq)]
pub struct GameCreated {
    pub game_uid: u128,
    pub game_name: String,
    pub user_seat: rules::UserRole,
}

pub struct GameCreatedView {
    pub game_uid: u128,
    pub game_name: Seq<char>,
    pub user_seat: rules::UserRole,
}

impl View for GameCreated {
    type V = GameCreatedView;

    open spec fn view(&self) -> GameCreatedView {
        GameCreatedView {
            game_uid: self.game_uid,
            game_name: self.game_name@,
            user_seat: self.user_seat,
        }
    }
}

/// A client asks the lobby how to reach a game.
#[derive(Clone, Copy, Debug, PartialEq, Eq, Structural)]
pub struct GetGame {
    pub game_id: u128,
}

/// The lobby's answer to `GetGame`.
#[derive(Clone, Copy, Debug, PartialEq, Eq, Structural)]
pub enum GameFound {
    Success { game: u128 },
    Failure,
}

/// A game's answer to `JoinGame`: the state of the game as the newcomer
/// finds it.
#[derive(Clone, Debug, PartialEq, Eq)]
pub struct GameJoined {
    pub game_name: String,
    pub user_role: rules::UserRole,
    pub seat_1_username: Option<String>,
    pub seat_2_username: Option<String>,
    pub moves: Vec<rules::Action>,
}

pub struct GameJoinedView {
    pub game_name: Seq<char>,
    pub user_role: rules::UserRole,
    pub seat_1_username: Option<Seq<char>>,
    pub seat_2_username: Option<Seq<char>>,
    pub moves: Seq<rules::Action>,
}

impl View for GameJoined {
    type V = GameJoinedView;

    open spec fn view(&self) -> GameJoinedView {
        GameJoinedView {
            game_name: self.game_name@,
            user_role: self.user_role,
            seat_1_username: crate::text::text_of(self.seat_1_username),
            seat_2_username: crate::text::text_of(self.seat_2_username),
            moves: self.moves@,
        }
    }
}

/// A user asks a game to let one of its clients in.
#[derive(Clone, Debug, PartialEq, Eq)]
pub struct JoinGame {
    pub user_uid: u128,
    pub user_name: String,
    pub client_id: u128,
}

pub struct JoinGameView {
    pub user_uid: u128,
    pub user_name: Seq<char>,
    pub client_id: u128,
}

impl View for JoinGame {
    type V = JoinGameView;

    open spec fn view(&self) -> JoinGameView {
        JoinGameView {
            user_uid: self.user_uid,
            user_name: self.user_name@,
            client_id: self.client_id,
        }
    }
}

/// News of the games, from the lobby to every client.
#[derive(Clone, Debug, PartialEq, Eq)]
pub enum LobbyMessage {
    NewGame(Info),
    GameStatusChanged(Info),
    GameRemoved { game_id: u128 },
}

pub enum LobbyMessageView {
    NewGame(InfoView),
    GameStatusChanged(InfoView),
    GameRemoved { game_id: u128 },
}

impl View for LobbyMessage {
    type V = LobbyMessageView;

    open spec fn view(&self) -> LobbyMessageView {
        match self {
            LobbyMessage::NewGame(i) => LobbyMessageView::NewGame(i@),
            LobbyMessage::GameStatusChanged(i) => LobbyMessageView::GameStatusChanged(i@),
            LobbyMessage::GameRemoved { game_id } => LobbyMessageView::GameRemoved {
                game_id: *game_id,
            },
        }
    }
}

/// A game tells the lobby that it has ended.
#[derive(Clone, Copy, Debug, PartialEq, Eq, Structural)]
pub struct GameClosed {
    pub game_id: u128,
}

/// What happened in a game, for the clients that follow it.
#[derive(Clone, Debug, PartialEq, Eq)]
pub enum GameMessageDetails {
    Action(rules::Action),
    UserJoin { user_uid: u128, user_name: String, user_seat: rules::UserRole },
    UserQuit { user_uid: u128, user_seat: rules::UserRole },
}

pub enum GameMessageDetailsView {
    Action(rules::Action),
    UserJoin { user_uid: u128, user_name: Seq<char>, user_seat: rules::UserRole },
    UserQuit { user_uid: u128, user_seat: rules::UserRole },
}

impl View for GameMessageDetails {
    type V = GameMessageDetailsView;

    open spec fn view(&self) -> GameMessageDetailsView {
        match self {
            GameMessageDetails::Action(a) => GameMessageDetailsView::Action(*a),
            GameMessageDetails::UserJoin { user_uid, user_name, user_seat } => {
                GameMessageDetailsView::UserJoin {
                    user_uid: *user_uid,
                    user_name: user_name@,
                    user_seat: *user_seat,
                }
            },
            GameMessageDetails::UserQuit { user_uid, user_seat } => {
                GameMessageDetailsView::UserQuit { user_uid: *user_uid, user_seat: *user_seat }
            },
        }
    }
}

/// News from one game.
#[derive(Clone, Debug, PartialEq, Eq)]
pub struct GameMessage {
    pub game_id: u128,
    pub details: GameMessageDetails,
}

pub struct GameMessageView {
    pub game_id: u128,
    pub details: GameMessageDetailsView,
}

impl View for GameMessage {
    type V = GameMessageView;

    open spec fn view(&self) -> GameMessageView {
        GameMessageView { game_id: self.game_id, details: self.details@ }
    }
}

/// A game's answer to `GameAction`.
#[derive(Clone, Copy, Debug, PartialEq, Eq, Structural)]
pub enum GameActionResponse {
    Illegal { reason: u32 },
    Accepted,
}

/// A user asks a game to take an action.
#[derive(Clone, Copy, Debug, PartialEq, Eq, Structural)]
pub struct GameAction {
    pub action: rules::Action,
    pub user: Option<u128>,
}

/// Why a request to another part of the server got no answer.
#[derive(Clone, Copy, Debug, PartialEq, Eq, Structural)]
pub enum MailboxError {
    Closed,
    Timeout,
}

/// The outcome of a request, a failure as its text.
#[derive(Debug, PartialEq, Eq)]
pub struct ResultMsg(pub Result<(), String>);

impl View for ResultMsg {
    type V = Result<(), Seq<char>>;

    open spec fn view(&self) -> Result<(), Seq<char>> {
        match self.0 {
            Ok(_) => Ok(()),
            Err(t) => Err(t@),
        }
    }
}

} // verus!
