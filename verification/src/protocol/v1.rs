//! Protocol version 1: login, lobby and game messages.

use vstd::prelude::*;
use vstd::std_specs::convert::FromSpecImpl;
use crate::rules;
use crate::text::text_of;

verus! {

/// The number by which the handshake names this protocol.
pub const VERSION: u32 = 1;

// ---------------- Common data ----------------------

/// One entry of a game's action log, as sent to a peer.
#[derive(Clone, Copy, Debug, PartialEq, Eq, Structural)]
pub enum GameAction {
    Init,
    Move,
    Finished,
}

/// The role of a user in a game, as sent to a peer.
#[derive(Clone, Copy, Debug, PartialEq, Eq, Structural)]
pub enum UserRole {
    Seat1,
    Seat2,
    Observer,
}

/// What a game in the lobby's list offers to the user who receives the list.
#[derive(Clone, Copy, Debug, PartialEq, Eq, Structural)]
pub enum GameStatus {
    Joinable,
    Rejoinable,
    Full,
    Finished,
}

impl GameStatus {
    /// The number that stands for this status: 1 to 4.
    pub open spec fn spec_code(self) -> u32 {
        match self {
            GameStatus::Joinable => 1,
            GameStatus::Rejoinable => 2,
            GameStatus::Full => 3,
            GameStatus::Finished => 4,
        }
    }

    /// The number that stands for this status: 1 to 4.
    pub fn code(&self) -> (r: u32)
        ensures
            r == self.spec_code(),
    {
        match self {
            GameStatus::Joinable => 1,
            GameStatus::Rejoinable => 2,
            GameStatus::Full => 3,
            GameStatus::Finished => 4,
        }
    }
}

/// The game's answer to an action.
#[derive(Clone, Copy, Debug, PartialEq, Eq, Structural)]
pub enum GameActionResponse {
    Illegal { reason: u32 },
    Accepted,
}

// ---------------- Client messages ----------------------

/// The client's request to be known under a name, with the identity and the
/// session of an earlier connection if it has them.
#[derive(Clone, Debug, PartialEq, Eq)]
pub struct LoginMessage {
    pub name: String,
    pub uid: Option<String>,
    pub session_uid: Option<String>,
}

pub struct LoginMessageView {
    pub name: Seq<char>,
    pub uid: Option<Seq<char>>,
    pub session_uid: Option<Seq<char>>,
}

impl View for LoginMessage {
    type V = LoginMessageView;

    open spec fn view(&self) -> LoginMessageView {
        LoginMessageView {
            name: self.name@,
            uid: text_of(self.uid),
            session_uid: text_of(self.session_uid),
        }
    }
}

/// What a logged-in client asks of the lobby.
#[derive(Clone, Debug, PartialEq, Eq)]
pub enum LobbyClientMessage {
    AskGameList,
    CreateGame { request_uid: String },
    JoinGame { game_uid: String },
}

pub enum LobbyClientMessageView {
    AskGameList,
    CreateGame { request_uid: Seq<char> },
    JoinGame { game_uid: Seq<char> },
}

impl View for LobbyClientMessage {
    type V = LobbyClientMessageView;

    open spec fn view(&self) -> LobbyClientMessageView {
        match self {
            LobbyClientMessage::AskGameList => LobbyClientMessageView::AskGameList,
            LobbyClientMessage::CreateGame { request_uid } => LobbyClientMessageView::CreateGame {
                request_uid: request_uid@,
            },
            LobbyClientMessage::JoinGame { game_uid } => LobbyClientMessageView::JoinGame {
                game_uid: game_uid@,
            },
        }
    }
}

/// A message from a logged-in client: to the lobby, or to one game.
#[derive(Clone, Debug, PartialEq, Eq)]
pub enum RunningClientMessage {
    Lobby(LobbyClientMessage),
    Game { game_id: String, request_id: String, action: GameAction },
}

pub enum RunningClientMessageView {
    Lobby(LobbyClientMessageView),
    Game { game_id: Seq<char>, request_id: Seq<char>, action: GameAction },
}

impl View for RunningClientMessage {
    type V = RunningClientMessageView;

    open spec fn view(&self) -> RunningClientMessageView {
        match self {
            RunningClientMessage::Lobby(m) => RunningClientMessageView::Lobby(m@),
            RunningClientMessage::Game { game_id, request_id, action } => {
                RunningClientMessageView::Game {
                    game_id: game_id@,
                    request_id: request_id@,
                    action: *action,
                }
            },
        }
    }
}

// ---------------- Server messages ----------------------

/// The identity that the server settled on for a connection.
#[derive(Clone, Debug, PartialEq, Eq)]
pub struct LoginResponseMessage {
    pub name: String,
    pub user_uid: String,
    pub session_uid: String,
}

pub struct LoginResponseMessageView {
    pub name: Seq<char>,
    pub user_uid: Seq<char>,
    pub session_uid: Seq<char>,
}

impl View for LoginResponseMessage {
    type V = LoginResponseMessageView;

    open spec fn view(&self) -> LoginResponseMessageView {
        LoginResponseMessageView {
            name: self.name@,
            user_uid: self.user_uid@,
            session_uid: self.session_uid@,
        }
    }
}

/// One line of the lobby's list of games.
#[derive(Clone, Debug, PartialEq, Eq)]
pub struct GameOverview {
    pub id: String,
    pub name: String,
    pub status: GameStatus,
}

pub struct GameOverviewView {
    pub id: Seq<char>,
    pub name: Seq<char>,
    pub status: GameStatus,
}

impl View for GameOverview {
    type V = GameOverviewView;

    open spec fn view(&self) -> GameOverviewView {
        GameOverviewView { id: self.id@, name: self.name@, status: self.status }
    }
}

/// What a participant is told about a game: its name, whether it is over,
/// and who sits where.
#[derive(Clone, Debug, PartialEq, Eq)]
pub struct GameDetails {
    pub id: String,
    pub name: String,
    pub is_finished: bool,
    pub seat_1_username: Option<String>,
    pub seat_2_username: Option<String>,
}

pub struct GameDetailsView {
    pub id: Seq<char>,
    pub name: Seq<char>,
    pub is_finished: bool,
    pub seat_1_username: Option<Seq<char>>,
    pub seat_2_username: Option<Seq<char>>,
}

impl View for GameDetails {
    type V = GameDetailsView;

    open spec fn view(&self) -> GameDetailsView {
        GameDetailsView {
            id: self.id@,
            name: self.name@,
            is_finished: self.is_finished,
            seat_1_username: text_of(self.seat_1_username),
            seat_2_username: text_of(self.seat_2_username),
        }
    }
}

/// What a game tells the clients that follow it.
#[derive(Clone, Debug, PartialEq, Eq)]
pub enum GameServerMessage {
    Action(GameAction),
    GameActionResponse { request_id: String, response: GameActionResponse },
    UserJoin { user_uid: String, username: String, role: UserRole },
    UserQuit { user_uid: String, role: UserRole },
}

pub enum GameServerMessageView {
    Action(GameAction),
    GameActionResponse { request_id: Seq<char>, response: GameActionResponse },
    UserJoin { user_uid: Seq<char>, username: Seq<char>, role: UserRole },
    UserQuit { user_uid: Seq<char>, role: UserRole },
}

impl View for GameServerMessage {
    type V = GameServerMessageView;

    open spec fn view(&self) -> GameServerMessageView {
        match self {
            GameServerMessage::Action(a) => GameServerMessageView::Action(*a),
            GameServerMessage::GameActionResponse { request_id, response } => {
                GameServerMessageView::GameActionResponse {
                    request_id: request_id@,
                    response: *response,
                }
            },
            GameServerMessage::UserJoin { user_uid, username, role } => {
                GameServerMessageView::UserJoin {
                    user_uid: user_uid@,
                    username: username@,
                    role: *role,
                }
            },
            GameServerMessage::UserQuit { user_uid, role } => GameServerMessageView::UserQuit {
                user_uid: user_uid@,
                role: *role,
            },
        }
    }
}

/// What the lobby tells a client: answers to its requests, and news of the
/// games.
#[derive(Clone, Debug, PartialEq, Eq)]
pub enum LobbyServerMessages {
    GameList { list: Vec<GameOverview> },
    GameCreated { request_uid: String, info: GameDetails, role: UserRole },
    NewGame(GameOverview),
    GameInfoChanged(GameOverview),
    GameJoined { info: GameDetails, role: UserRole, moves: Vec<GameAction> },
    GameRemoved { id: String },
}

pub enum LobbyServerMessagesView {
    GameList { list: Seq<GameOverviewView> },
    GameCreated { request_uid: Seq<char>, info: GameDetailsView, role: UserRole },
    NewGame(GameOverviewView),
    GameInfoChanged(GameOverviewView),
    GameJoined { info: GameDetailsView, role: UserRole, moves: Seq<GameAction> },
    GameRemoved { id: Seq<char> },
}

impl View for LobbyServerMessages {
    type V = LobbyServerMessagesView;

    open spec fn view(&self) -> LobbyServerMessagesView {
        match self {
            LobbyServerMessages::GameList { list } => LobbyServerMessagesView::GameList {
                list: overviews_of(list@),
            },
            LobbyServerMessages::GameCreated { request_uid, info, role } => {
                LobbyServerMessagesView::GameCreated {
                    request_uid: request_uid@,
                    info: info@,
                    role: *role,
                }
            },
            LobbyServerMessages::NewGame(o) => LobbyServerMessagesView::NewGame(o@),
            LobbyServerMessages::GameInfoChanged(o) => LobbyServerMessagesView::GameInfoChanged(o@),
            LobbyServerMessages::GameJoined { info, role, moves } => {
                LobbyServerMessagesView::GameJoined { info: info@, role: *role, moves: moves@ }
            },
            LobbyServerMessages::GameRemoved { id } => LobbyServerMessagesView::GameRemoved {
                id: id@,
            },
        }
    }
}

/// A message to a logged-in client: from the lobby, or from one game.
#[derive(Clone, Debug, PartialEq, Eq)]
pub enum RunningServerMessage {
    Lobby(LobbyServerMessages),
    Game { game_id: String, message: GameServerMessage },
}

pub enum RunningServerMessageView {
    Lobby(LobbyServerMessagesView),
    Game { game_id: Seq<char>, message: GameServerMessageView },
}

impl View for RunningServerMessage {
    type V = RunningServerMessageView;

    open spec fn view(&self) -> RunningServerMessageView {
        match self {
            RunningServerMessage::Lobby(m) => RunningServerMessageView::Lobby(m@),
            RunningServerMessage::Game { game_id, message } => RunningServerMessageView::Game {
                game_id: game_id@,
                message: message@,
            },
        }
    }
}

/// The lines of a list of games, as mathematical values.
pub open spec fn overviews_of(list: Seq<GameOverview>) -> Seq<GameOverviewView> {
    list.map_values(|o: GameOverview| o@)
}

// ------------ Between the rules' vocabulary and the wire's ------------

impl UserRole {
    pub open spec fn of_rules(val: rules::UserRole) -> UserRole {
        match val {
            rules::UserRole::Observer => UserRole::Observer,
            rules::UserRole::Seat1 => UserRole::Seat1,
            rules::UserRole::Seat2 => UserRole::Seat2,
        }
    }
}

impl GameAction {
    pub open spec fn of_rules(val: rules::Action) -> GameAction {
        match val {
            rules::Action::Init => GameAction::Init,
            rules::Action::Move => GameAction::Move,
            rules::Action::Finished => GameAction::Finished,
        }
    }

    pub open spec fn to_rules(self) -> rules::Action {
        match self {
            GameAction::Init => rules::Action::Init,
            GameAction::Move => rules::Action::Move,
            GameAction::Finished => rules::Action::Finished,
        }
    }
}

impl From<rules::UserRole> for UserRole {
    fn from(val: rules::UserRole) -> (r: UserRole) {
        match val {
            rules::UserRole::Observer => UserRole::Observer,
            rules::UserRole::Seat1 => UserRole::Seat1,
            rules::UserRole::Seat2 => UserRole::Seat2,
        }
    }
}

impl FromSpecImpl<rules::UserRole> for UserRole {
    open spec fn obeys_from_spec() -> bool {
        true
    }

    open spec fn from_spec(val: rules::UserRole) -> UserRole {
        UserRole::of_rules(val)
    }
}

impl From<rules::Action> for GameAction {
    fn from(val: rules::Action) -> (r: GameAction) {
        match val {
            rules::Action::Init => GameAction::Init,
            rules::Action::Move => GameAction::Move,
            rules::Action::Finished => GameAction::Finished,
        }
    }
}

impl FromSpecImpl<rules::Action> for GameAction {
    open spec fn obeys_from_spec() -> bool {
        true
    }

    open spec fn from_spec(val: rules::Action) -> GameAction {
        GameAction::of_rules(val)
    }
}

impl From<GameAction> for rules::Action {
    fn from(val: GameAction) -> (r: rules::Action) {
        match val {
            GameAction::Init => rules::Action::Init,
            GameAction::Move => rules::Action::Move,
            GameAction::Finished => rules::Action::Finished,
        }
    }
}

impl FromSpecImpl<GameAction> for rules::Action {
    open spec fn obeys_from_spec() -> bool {
        true
    }

    open spec fn from_spec(val: GameAction) -> rules::Action {
        val.to_rules()
    }
}

/// Turning an action into its wire form and back gives the same action, and
/// the other way round.
pub proof fn lemma_action_round_trip(a: rules::Action, w: GameAction)
    ensures
        GameAction::of_rules(a).to_rules() == a,
        GameAction::of_rules(w.to_rules()) == w,
{
}

} // verus!
