//! How a client speaks protocol version 1: what the lobby and the games say
//! is put into the messages of the wire, and what the peer sends is read.

use vstd::prelude::*;
use vstd::std_specs::convert::FromSpecImpl;
use crate::protocol::error::code;
use crate::protocol::v1::{
    overviews_of, GameAction, GameActionResponse, GameDetails, GameDetailsView, GameOverview,
    GameOverviewView, GameServerMessage, GameServerMessageView, GameStatus, LobbyClientMessage,
    LobbyServerMessages, LobbyServerMessagesView, LoginMessage, LoginMessageView,
    RunningClientMessage, RunningServerMessage, RunningServerMessageView, UserRole,
};
use crate::rules;
use crate::server::actor_msg;
use crate::server::actor_msg::{
    infos_of, GameCreated, GameCreatedView, GameJoined, GameJoinedView, GameList, GameMessage,
    GameMessageDetails, GameMessageDetailsView, GameMessageView, LobbyMessage, LobbyMessageView,
    RegisterUserMessage, RegisterUserMessageView,
};
use crate::server::client::{
    effects_of, result_of, BinaryFrame, Client, ClientStatus, Effect, EffectView, Forward,
    LobbyRequest,
};
use crate::server::error::{Error, ErrorKind, ErrorView};
use crate::server::game::{Info, InfoView, Status};
use crate::server::user::User;
use crate::text::{copy_text, text_of};
use crate::uid::{parse_uid, uid_parse, uid_text, uid_to_string};

verus! {

/// What a game offers to a user who reads the lobby's list: nothing if it is
/// over; to come back if the user holds a seat; a seat if one is empty; else
/// a place to watch.
pub open spec fn projected_status(user_uid: u128, info: InfoView) -> GameStatus {
    if info.status == Status::Finished {
        GameStatus::Finished
    } else if info.seat_1 == Some(user_uid) || info.seat_2 == Some(user_uid) {
        GameStatus::Rejoinable
    } else if info.seat_1 is None || info.seat_2 is None {
        GameStatus::Joinable
    } else {
        GameStatus::Full
    }
}

/// The line of the lobby's list for a game, as a user reads it.
pub open spec fn overview_for(user_uid: u128, info: InfoView) -> GameOverviewView {
    GameOverviewView {
        id: uid_text(info.id),
        name: info.name,
        status: projected_status(user_uid, info),
    }
}

/// A log in the wire's vocabulary.
pub open spec fn wire_moves(moves: Seq<rules::Action>) -> Seq<GameAction> {
    moves.map_values(|a: rules::Action| GameAction::of_rules(a))
}

/// The news of a game on the wire.
pub open spec fn v1_game_message(msg: GameMessageView) -> RunningServerMessageView {
    RunningServerMessageView::Game {
        game_id: uid_text(msg.game_id),
        message: match msg.details {
            GameMessageDetailsView::Action(action) => GameServerMessageView::Action(
                GameAction::of_rules(action),
            ),
            GameMessageDetailsView::UserJoin { user_uid, user_name, user_seat } => {
                GameServerMessageView::UserJoin {
                    user_uid: uid_text(user_uid),
                    username: user_name,
                    role: UserRole::of_rules(user_seat),
                }
            },
            GameMessageDetailsView::UserQuit { user_uid, user_seat } => {
                GameServerMessageView::UserQuit {
                    user_uid: uid_text(user_uid),
                    role: UserRole::of_rules(user_seat),
                }
            },
        },
    }
}

/// The news of the lobby on the wire, as a user reads it.
pub open spec fn v1_lobby_message(user_uid: u128, msg: LobbyMessageView) -> RunningServerMessageView {
    RunningServerMessageView::Lobby(
        match msg {
            LobbyMessageView::NewGame(info) => LobbyServerMessagesView::NewGame(
                overview_for(user_uid, info),
            ),
            LobbyMessageView::GameStatusChanged(info) => LobbyServerMessagesView::GameInfoChanged(
                overview_for(user_uid, info),
            ),
            LobbyMessageView::GameRemoved { game_id } => LobbyServerMessagesView::GameRemoved {
                id: uid_text(game_id),
            },
        },
    )
}

/// The lobby's list on the wire, as a user reads it.
pub open spec fn v1_game_list(user_uid: u128, list: Seq<InfoView>) -> RunningServerMessageView {
    RunningServerMessageView::Lobby(
        LobbyServerMessagesView::GameList {
            list: list.map_values(|i: InfoView| overview_for(user_uid, i)),
        },
    )
}

/// What a newcomer is told of a game, on the wire. The game counts as over
/// if `Finished` is in its log.
pub open spec fn v1_game_joined(game_id: u128, res: GameJoinedView) -> RunningServerMessageView {
    RunningServerMessageView::Lobby(
        LobbyServerMessagesView::GameJoined {
            info: GameDetailsView {
                id: uid_text(game_id),
                name: res.game_name,
                is_finished: res.moves.contains(rules::Action::Finished),
                seat_1_username: res.seat_1_username,
                seat_2_username: res.seat_2_username,
            },
            role: UserRole::of_rules(res.user_role),
            moves: wire_moves(res.moves),
        },
    )
}

/// What the user who asked for a game is told of it, on the wire: the user's
/// name stands at the seat that it was given, the other seat is empty.
pub open spec fn v1_game_created(
    res: GameCreatedView,
    request_uid: Seq<char>,
    user_name: Seq<char>,
) -> RunningServerMessageView {
    RunningServerMessageView::Lobby(
        LobbyServerMessagesView::GameCreated {
            request_uid,
            info: GameDetailsView {
                id: uid_text(res.game_uid),
                name: res.game_name,
                is_finished: false,
                seat_1_username: if res.user_seat == rules::UserRole::Seat1 {
                    Some(user_name)
                } else {
                    None
                },
                seat_2_username: if res.user_seat == rules::UserRole::Seat2 {
                    Some(user_name)
                } else {
                    None
                },
            },
            role: UserRole::of_rules(res.user_seat),
        },
    )
}

impl GameActionResponse {
    pub open spec fn of_game(msg: actor_msg::GameActionResponse) -> GameActionResponse {
        match msg {
            actor_msg::GameActionResponse::Illegal { reason } => GameActionResponse::Illegal {
                reason,
            },
            actor_msg::GameActionResponse::Accepted => GameActionResponse::Accepted,
        }
    }
}

/// A game's answer to an action, on the wire.
pub open spec fn v1_action_response(
    request_id: Seq<char>,
    game_id: u128,
    msg: actor_msg::GameActionResponse,
) -> RunningServerMessageView {
    RunningServerMessageView::Game {
        game_id: uid_text(game_id),
        message: GameServerMessageView::GameActionResponse {
            request_id,
            response: GameActionResponse::of_game(msg),
        },
    }
}

/// The identifier that an optional text stands for.
pub open spec fn uid_of(text: Option<Seq<char>>) -> Option<u128> {
    match text {
        Some(t) => uid_parse(t),
        None => None,
    }
}

/// The error of a text that is no identifier of a game.
pub open spec fn invalid_game_id() -> ErrorView {
    ErrorView {
        kind: ErrorKind::Protocol,
        details: "Invalid game id"@,
        error_code: Some(code::protocol::INVALID_GAME_ID),
    }
}

/// The identifier of a game on the wire, or the error of a text that is
/// none.
pub open spec fn parsed_game_id(game_id: Seq<char>) -> Result<u128, ErrorView> {
    match uid_parse(game_id) {
        Some(id) => Ok(id),
        None => Err(invalid_game_id()),
    }
}

/// What the lobby is asked for a login: the identifiers that the peer names
/// count only where they read as identifiers.
pub open spec fn registration(msg: LoginMessageView, client_id: u128) -> RegisterUserMessageView {
    RegisterUserMessageView {
        name: msg.name,
        session_uid: uid_of(msg.session_uid),
        user_uid: uid_of(msg.uid),
        client_id,
    }
}

impl From<actor_msg::GameActionResponse> for GameActionResponse {
    fn from(msg: actor_msg::GameActionResponse) -> (r: GameActionResponse) {
        match msg {
            actor_msg::GameActionResponse::Illegal { reason } => GameActionResponse::Illegal {
                reason,
            },
            actor_msg::GameActionResponse::Accepted => GameActionResponse::Accepted,
        }
    }
}

impl FromSpecImpl<actor_msg::GameActionResponse> for GameActionResponse {
    open spec fn obeys_from_spec() -> bool {
        true
    }

    open spec fn from_spec(msg: actor_msg::GameActionResponse) -> GameActionResponse {
        GameActionResponse::of_game(msg)
    }
}

/// The line of the lobby's list for a game, as a user reads it.
pub fn map_v1_game_overview(user: &User, game_info: &Info) -> (r: GameOverview)
    ensures
        r@ == overview_for(user.uid, game_info@),
{
    GameOverview {
        id: uid_to_string(game_info.id),
        name: game_info.name.clone(),
        status: if game_info.status == Status::Finished {
            GameStatus::Finished
        } else if is_user(game_info.seat_1, user.uid) || is_user(game_info.seat_2, user.uid) {
            GameStatus::Rejoinable
        } else if game_info.seat_1.is_none() || game_info.seat_2.is_none() {
            GameStatus::Joinable
        } else {
            GameStatus::Full
        },
    }
}

/// Whether the seat is held by this user.
fn is_user(seat: Option<u128>, user_uid: u128) -> (r: bool)
    ensures
        r == (seat == Some(user_uid)),
{
    match seat {
        Some(u) => u == user_uid,
        None => false,
    }
}

/// The lines of the lobby's list, as a user reads them.
pub fn map_v1_game_list(user: &User, list: &Vec<Info>) -> (r: Vec<GameOverview>)
    ensures
        overviews_of(r@) == infos_of(list@).map_values(|i: InfoView| overview_for(user.uid, i)),
{
    let mut out: Vec<GameOverview> = Vec::new();
    let mut i: usize = 0;
    while i < list.len()
        invariant
            0 <= i <= list.len(),
            out.len() == i,
            forall|k: int| 0 <= k < i ==> (#[trigger] out[k])@ == overview_for(user.uid, list[k]@),
        decreases list.len() - i,
    {
        out.push(map_v1_game_overview(user, &list[i]));
        i = i + 1;
    }
    assert(overviews_of(out@) =~= infos_of(list@).map_values(
        |i: InfoView| overview_for(user.uid, i),
    ));
    out
}

/// A log in the wire's vocabulary.
pub fn map_v1_moves(moves: &Vec<rules::Action>) -> (r: Vec<GameAction>)
    ensures
        r@ == wire_moves(moves@),
{
    let mut out: Vec<GameAction> = Vec::new();
    let mut i: usize = 0;
    while i < moves.len()
        invariant
            0 <= i <= moves.len(),
            out.len() == i,
            forall|k: int| 0 <= k < i ==> #[trigger] out[k] == GameAction::of_rules(moves[k]),
        decreases moves.len() - i,
    {
        out.push(GameAction::from(moves[i]));
        i = i + 1;
    }
    assert(out@ =~= wire_moves(moves@));
    out
}

/// Whether `Finished` is in a log.
pub fn is_finished(moves: &Vec<rules::Action>) -> (r: bool)
    ensures
        r == moves@.contains(rules::Action::Finished),
{
    let mut i: usize = 0;
    while i < moves.len()
        invariant
            0 <= i <= moves.len(),
            forall|k: int| 0 <= k < i ==> moves[k] != rules::Action::Finished,
        decreases moves.len() - i,
    {
        if moves[i] == rules::Action::Finished {
            return true;
        }
        i = i + 1;
    }
    false
}

impl RunningServerMessage {
    /// The news of a game on the wire.
    pub fn from_game_message(msg: GameMessage) -> (r: RunningServerMessage)
        ensures
            r@ == v1_game_message(msg@),
    {
        match msg.details {
            GameMessageDetails::Action(action) => RunningServerMessage::Game {
                game_id: uid_to_string(msg.game_id),
                message: GameServerMessage::Action(GameAction::from(action)),
            },
            GameMessageDetails::UserJoin { user_uid, user_name, user_seat } => {
                RunningServerMessage::Game {
                    game_id: uid_to_string(msg.game_id),
                    message: GameServerMessage::UserJoin {
                        user_uid: uid_to_string(user_uid),
                        username: user_name,
                        role: UserRole::from(user_seat),
                    },
                }
            },
            GameMessageDetails::UserQuit { user_uid, user_seat } => RunningServerMessage::Game {
                game_id: uid_to_string(msg.game_id),
                message: GameServerMessage::UserQuit {
                    user_uid: uid_to_string(user_uid),
                    role: UserRole::from(user_seat),
                },
            },
        }
    }

    /// The news of the lobby on the wire, as a user reads it.
    pub fn from_lobby_message(user: &User, msg: &LobbyMessage) -> (r: RunningServerMessage)
        ensures
            r@ == v1_lobby_message(user.uid, msg@),
    {
        match msg {
            LobbyMessage::NewGame(game_info) => RunningServerMessage::Lobby(
                LobbyServerMessages::NewGame(map_v1_game_overview(user, game_info)),
            ),
            LobbyMessage::GameStatusChanged(game_info) => RunningServerMessage::Lobby(
                LobbyServerMessages::GameInfoChanged(map_v1_game_overview(user, game_info)),
            ),
            LobbyMessage::GameRemoved { game_id } => RunningServerMessage::Lobby(
                LobbyServerMessages::GameRemoved { id: uid_to_string(*game_id) },
            ),
        }
    }

    /// The lobby's list on the wire, as a user reads it.
    pub fn from_game_list(user: &User, msg: &GameList) -> (r: RunningServerMessage)
        ensures
            r@ == v1_game_list(user.uid, msg@),
    {
        RunningServerMessage::Lobby(
            LobbyServerMessages::GameList { list: map_v1_game_list(user, &msg.list) },
        )
    }

    /// What a newcomer is told of a game, on the wire.
    pub fn from_game_joined(game_id: u128, res: &GameJoined) -> (r: RunningServerMessage)
        ensures
            r@ == v1_game_joined(game_id, res@),
    {
        RunningServerMessage::Lobby(
            LobbyServerMessages::GameJoined {
                info: GameDetails {
                    id: uid_to_string(game_id),
                    name: res.game_name.clone(),
                    is_finished: is_finished(&res.moves),
                    seat_1_username: copy_text(&res.seat_1_username),
                    seat_2_username: copy_text(&res.seat_2_username),
                },
                role: UserRole::from(res.user_role),
                moves: map_v1_moves(&res.moves),
            },
        )
    }

    /// What the user who asked for a game is told of it, on the wire.
    pub fn from_game_created(res: &GameCreated, request_uid: String, login: &User) -> (r:
        RunningServerMessage)
        ensures
            r@ == v1_game_created(res@, request_uid@, login.name@),
    {
        RunningServerMessage::Lobby(
            LobbyServerMessages::GameCreated {
                request_uid,
                info: GameDetails {
                    id: uid_to_string(res.game_uid),
                    name: res.game_name.clone(),
                    is_finished: false,
                    seat_1_username: if res.user_seat == rules::UserRole::Seat1 {
                        Some(login.name.clone())
                    } else {
                        None
                    },
                    seat_2_username: if res.user_seat == rules::UserRole::Seat2 {
                        Some(login.name.clone())
                    } else {
                        None
                    },
                },
                role: UserRole::from(res.user_seat),
            },
        )
    }

    /// A game's answer to an action, on the wire.
    pub fn from_action_response(
        request_id: String,
        game_id: u128,
        msg: actor_msg::GameActionResponse,
    ) -> (r: RunningServerMessage)
        ensures
            r@ == v1_action_response(request_id@, game_id, msg),
    {
        RunningServerMessage::Game {
            game_id: uid_to_string(game_id),
            message: GameServerMessage::GameActionResponse {
                request_id,
                response: GameActionResponse::from(msg),
            },
        }
    }
}

/// The identifier of a game on the wire, or the error of a text that is
/// none.
pub fn v1_parse_game_id(game_id: String) -> (r: Result<u128, Error>)
    ensures
        match r {
            Ok(id) => parsed_game_id(game_id@) == Ok::<u128, ErrorView>(id),
            Err(e) => parsed_game_id(game_id@) == Err::<u128, ErrorView>(e@),
        },
{
    match parse_uid(game_id.as_str()) {
        Some(v) => Ok(v),
        None => Err(
            Error::ProtocolError {
                details: String::from_str("Invalid game id"),
                error_code: Some(code::protocol::INVALID_GAME_ID),
            },
        ),
    }
}

/// The identifier that an optional text stands for.
pub fn parse_optional_uid(text: &Option<String>) -> (r: Option<u128>)
    ensures
        r == uid_of(text_of(*text)),
{
    match text {
        Some(s) => parse_uid(s.as_str()),
        None => None,
    }
}

/// What the lobby is asked for a login.
pub fn v1_registration(msg: LoginMessage, client_id: u128) -> (r: RegisterUserMessage)
    ensures
        r@ == registration(msg@, client_id),
{
    let session_uid = parse_optional_uid(&msg.session_uid);
    let user_uid = parse_optional_uid(&msg.uid);
    RegisterUserMessage { name: msg.name, session_uid, user_uid, client_id }
}

impl Client {
    /// What the peer is told of a game that it has joined.
    pub fn send_game_joined(&self, game_id: u128, res: &GameJoined) -> (r: Result<
        Vec<Effect>,
        Error,
    >)
        ensures
            result_of(r) == self@.send_game_joined(game_id, res@),
    {
        self.v1_send_response(RunningServerMessage::from_game_joined(game_id, res))
    }

    /// What the peer is told of a game that it has asked for.
    pub fn send_game_created(&self, res: &GameCreated, request_uid: String) -> (r: Result<
        Vec<Effect>,
        Error,
    >)
        ensures
            result_of(r) == self@.send_game_created(res@, request_uid@),
    {
        match self.required_login() {
            Err(e) => Err(e),
            Ok(login) => self.v1_send_response(
                RunningServerMessage::from_game_created(res, request_uid, login),
            ),
        }
    }

    /// What the peer is told of a game's answer to an action.
    pub fn send_game_action_response(
        &self,
        request_id: String,
        game_id: u128,
        msg: actor_msg::GameActionResponse,
    ) -> (r: Result<Vec<Effect>, Error>)
        ensures
            result_of(r) == Ok::<Seq<EffectView>, ErrorView>(
                seq![EffectView::Message(v1_action_response(request_id@, game_id, msg))],
            ),
    {
        self.v1_send_response(RunningServerMessage::from_action_response(request_id, game_id, msg))
    }

    /// A text frame that is no token and no disconnect message, after the
    /// handshake: an error.
    pub fn v1_on_txt_message(&self) -> (r: Result<Vec<Effect>, Error>)
        ensures
            result_of(r) == Err::<Seq<EffectView>, ErrorView>(
                crate::server::client::unexpected_text(),
            ),
    {
        Err(
            Error::ProtocolError {
                details: String::from_str("Unexpected text message"),
                error_code: Some(code::protocol::UNEXPECTED_STRING),
            },
        )
    }

    /// A binary frame: the login in the login phase, a request in the
    /// running phase.
    pub fn v1_on_bin_message(&self, msg: BinaryFrame) -> (r: Result<Vec<Effect>, Error>)
        ensures
            result_of(r) == self@.v1_bin_message(msg@),
    {
        match self.status() {
            ClientStatus::Handshake => Err(
                Error::ProtocolError {
                    details: String::from_str("Unexpected bin message"),
                    error_code: Some(code::protocol::UNEXPECTED_BIN),
                },
            ),
            ClientStatus::Login => self.v1_on_login(msg.login),
            ClientStatus::Running => self.v1_on_running(msg.running),
        }
    }

    /// A message for the peer, to be sent as a binary frame.
    pub fn v1_send_response(&self, msg: RunningServerMessage) -> (r: Result<Vec<Effect>, Error>)
        ensures
            result_of(r) == Ok::<Seq<EffectView>, ErrorView>(seq![EffectView::Message(msg@)]),
    {
        let mut out: Vec<Effect> = Vec::new();
        out.push(Effect::Message(msg));
        assert(effects_of(out@) =~= seq![EffectView::Message(msg@)]);
        Ok(out)
    }

    /// The login: the lobby is asked for an identity. A login that cannot be
    /// read is an error.
    pub fn v1_on_login(&self, login: Option<LoginMessage>) -> (r: Result<Vec<Effect>, Error>)
        ensures
            result_of(r) == self@.v1_login(crate::server::client::login_of(login)),
    {
        match login {
            Some(msg) => {
                let request = LobbyRequest::RegisterUser(v1_registration(msg, self.id()));
                let mut out: Vec<Effect> = Vec::new();
                out.push(Effect::ToLobby(request));
                assert(effects_of(out@) =~= seq![EffectView::ToLobby(request@)]);
                Ok(out)
            },
            None => Err(
                Error::ProtocolError {
                    details: String::from_str("Bad Login"),
                    error_code: Some(code::protocol::BAD_HANDSHAKE),
                },
            ),
        }
    }

    /// A request of the running phase: for the lobby, or for a game. One
    /// that cannot be read is an error.
    pub fn v1_on_running(&self, running: Option<RunningClientMessage>) -> (r: Result<
        Vec<Effect>,
        Error,
    >)
        ensures
            result_of(r) == self@.v1_running(crate::server::client::running_of(running)),
    {
        match running {
            Some(msg) => match msg {
                RunningClientMessage::Lobby(msg) => self.v1_on_client_lobby(msg),
                RunningClientMessage::Game { game_id, request_id, action } => {
                    match v1_parse_game_id(game_id) {
                        Err(e) => Err(e),
                        Ok(id) => self.on_game_action(request_id, id, rules::Action::from(action)),
                    }
                },
            },
            None => Err(
                Error::ProtocolError {
                    details: String::from_str("Bad message"),
                    error_code: Some(code::protocol::INVALID_MESSAGE),
                },
            ),
        }
    }

    /// A request for the lobby.
    pub fn v1_on_client_lobby(&self, msg: LobbyClientMessage) -> (r: Result<Vec<Effect>, Error>)
        ensures
            result_of(r) == self@.v1_client_lobby(msg@),
    {
        match msg {
            LobbyClientMessage::AskGameList => self.on_ask_game_list(),
            LobbyClientMessage::CreateGame { request_uid } => self.on_create_game(request_uid),
            LobbyClientMessage::JoinGame { game_uid } => match v1_parse_game_id(game_uid) {
                Err(e) => Err(e),
                Ok(id) => self.on_join_game(id),
            },
        }
    }

    /// News on the wire: that of a game as it is, that of the lobby as the
    /// client's user reads it.
    pub fn v1_forward_msg(&self, msg: &Forward) -> (r: Result<Vec<Effect>, Error>)
        ensures
            result_of(r) == self@.forward_with_protocol(1, msg@),
    {
        match msg {
            Forward::Game(m) => self.v1_send_response(
                RunningServerMessage::from_game_message(copy_game_message(m)),
            ),
            Forward::Lobby(m) => match self.required_login() {
                Err(e) => Err(e),
                Ok(user) => self.v1_send_response(
                    RunningServerMessage::from_lobby_message(user, m),
                ),
            },
            Forward::List(l) => match self.required_login() {
                Err(e) => Err(e),
                Ok(user) => self.v1_send_response(RunningServerMessage::from_game_list(user, l)),
            },
        }
    }
}

/// A copy of the news of a game.
pub fn copy_game_message(msg: &GameMessage) -> (r: GameMessage)
    ensures
        r@ == msg@,
{
    GameMessage {
        game_id: msg.game_id,
        details: match &msg.details {
            GameMessageDetails::Action(a) => GameMessageDetails::Action(*a),
            GameMessageDetails::UserJoin { user_uid, user_name, user_seat } => {
                GameMessageDetails::UserJoin {
                    user_uid: *user_uid,
                    user_name: user_name.clone(),
                    user_seat: *user_seat,
                }
            },
            GameMessageDetails::UserQuit { user_uid, user_seat } => GameMessageDetails::UserQuit {
                user_uid: *user_uid,
                user_seat: *user_seat,
            },
        },
    }
}

} // verus!
