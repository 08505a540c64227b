//! The server's side of one connection.
//!
//! A client goes through three phases. In `Handshake` it accepts one text
//! frame, the hello, and settles the protocol. In `Login` it accepts one
//! binary frame, the login, and asks the lobby for an identity. In `Running`
//! it accepts binary frames with requests for the lobby or for a game. In
//! every phase the text tokens `ping` and `pong` prove that the peer is
//! alive, and a disconnect message ends the connection.
//!
//! The client is a state machine: each event changes its state and names
//! what is to be sent to the peer, to the lobby or to a game. A request to
//! the lobby or to a game carries what is needed to go on when the answer
//! comes; the answer is handed in with it, before any other event.

use vstd::prelude::*;
use std::collections::BTreeSet;
use crate::ordered::lemma_keys_are_ordered;
use crate::protocol::error::code;
use crate::protocol::error::{ErrorMessage, ErrorMessageView};
use crate::protocol::handshake::{DisconnectMessage, HelloMessage, HelloResponseMessage};
use crate::protocol::v1::{
    LobbyClientMessageView, LoginMessage, LoginMessageView, LoginResponseMessage,
    LoginResponseMessageView, RunningClientMessage, RunningClientMessageView,
    RunningServerMessage, RunningServerMessageView, VERSION,
};
use crate::rules;
use crate::server::actor_msg::{
    Connect, CreateGame, CreateGameView, Disconnect, GameAction, GameActionResponse, GameCreated,
    GameCreatedView, GameFound, GameJoined, GameJoinedView, GameList, GameMessage,
    GameMessageView, GetGame, JoinGame, JoinGameView, LobbyMessage, LobbyMessageView,
    MailboxError, RegisterUserMessage, RegisterUserMessageView, RegisterUserResponse,
    RegisterUserResponseView,
};
use crate::server::client::v1::{
    parsed_game_id, registration, v1_action_response, v1_game_created, v1_game_joined,
    v1_game_list, v1_game_message, v1_lobby_message,
};
use crate::server::error::{unimpl, Error, ErrorKind, ErrorView};
use crate::server::game::InfoView;
use crate::server::user::{User, UserView};
use crate::text::{decimal, decimal_string};
use crate::uid::{fresh_uid, uid_parse, uid_text, uid_to_string};

pub mod laws;
pub mod v1;

verus! {

/// The time between two pings, in milliseconds.
pub const HEARTBEAT_INTERVAL: u64 = 5_000;

/// How long a peer may stay silent before the connection is given up, in
/// milliseconds.
pub const HEARTBEAT_TIMEOUT: u64 = 10_000;

/// The phase of a connection.
#[derive(Clone, Copy, Debug, PartialEq, Eq, Structural)]
pub enum ClientStatus {
    Handshake,
    Login,
    Running,
}

/// What a client asks of the lobby, with what it needs to go on when the
/// answer comes.
#[derive(Clone, Debug, PartialEq, Eq)]
pub enum LobbyRequest {
    Connect(Connect),
    Disconnect(Disconnect),
    RegisterUser(RegisterUserMessage),
    AskGameList { protocol: u32 },
    CreateGame { msg: CreateGame, protocol: u32, request_uid: String },
    GetGame { msg: GetGame, join: JoinGame, protocol: u32 },
}

pub enum LobbyRequestView {
    Connect(Connect),
    Disconnect(Disconnect),
    RegisterUser(RegisterUserMessageView),
    AskGameList { protocol: u32 },
    CreateGame { msg: CreateGameView, protocol: u32, request_uid: Seq<char> },
    GetGame { msg: GetGame, join: JoinGameView, protocol: u32 },
}

impl View for LobbyRequest {
    type V = LobbyRequestView;

    open spec fn view(&self) -> LobbyRequestView {
        match self {
            LobbyRequest::Connect(m) => LobbyRequestView::Connect(*m),
            LobbyRequest::Disconnect(m) => LobbyRequestView::Disconnect(*m),
            LobbyRequest::RegisterUser(m) => LobbyRequestView::RegisterUser(m@),
            LobbyRequest::AskGameList { protocol } => LobbyRequestView::AskGameList {
                protocol: *protocol,
            },
            LobbyRequest::CreateGame { msg, protocol, request_uid } => {
                LobbyRequestView::CreateGame {
                    msg: msg@,
                    protocol: *protocol,
                    request_uid: request_uid@,
                }
            },
            LobbyRequest::GetGame { msg, join, protocol } => LobbyRequestView::GetGame {
                msg: *msg,
                join: join@,
                protocol: *protocol,
            },
        }
    }
}

/// What a client asks of a game, with what it needs to go on when the answer
/// comes.
#[derive(Clone, Debug, PartialEq, Eq)]
pub enum GameRequest {
    JoinGame { msg: JoinGame, protocol: u32 },
    GameAction { msg: GameAction, request_id: String },
}

pub enum GameRequestView {
    JoinGame { msg: JoinGameView, protocol: u32 },
    GameAction { msg: GameAction, request_id: Seq<char> },
}

impl View for GameRequest {
    type V = GameRequestView;

    open spec fn view(&self) -> GameRequestView {
        match self {
            GameRequest::JoinGame { msg, protocol } => GameRequestView::JoinGame {
                msg: msg@,
                protocol: *protocol,
            },
            GameRequest::GameAction { msg, request_id } => GameRequestView::GameAction {
                msg: *msg,
                request_id: request_id@,
            },
        }
    }
}

/// One thing to do after an event.
#[derive(Clone, Debug, PartialEq, Eq)]
pub enum Effect {
    /// Send a text frame with a token.
    Text(String),
    /// Answer a ping frame with its payload.
    Pong(Vec<u8>),
    /// Send a ping frame.
    Ping,
    /// Send the answer to the hello, as JSON text.
    Hello(HelloResponseMessage),
    /// Send an error report, as JSON text.
    Error(ErrorMessage),
    /// Send the answer to the login, as a binary frame.
    LoginResponse(LoginResponseMessage),
    /// Send a message of the running phase, as a binary frame.
    Message(RunningServerMessage),
    /// Ask the lobby.
    ToLobby(LobbyRequest),
    /// Ask a game.
    ToGame { game_id: u128, request: GameRequest },
    /// End the connection.
    Stop,
}

pub enum EffectView {
    Text(Seq<char>),
    Pong(Seq<u8>),
    Ping,
    Hello(HelloResponseMessage),
    Error(ErrorMessageView),
    LoginResponse(LoginResponseMessageView),
    Message(RunningServerMessageView),
    ToLobby(LobbyRequestView),
    ToGame { game_id: u128, request: GameRequestView },
    Stop,
}

impl View for Effect {
    type V = EffectView;

    open spec fn view(&self) -> EffectView {
        match self {
            Effect::Text(t) => EffectView::Text(t@),
            Effect::Pong(p) => EffectView::Pong(p@),
            Effect::Ping => EffectView::Ping,
            Effect::Hello(m) => EffectView::Hello(*m),
            Effect::Error(m) => EffectView::Error(m@),
            Effect::LoginResponse(m) => EffectView::LoginResponse(m@),
            Effect::Message(m) => EffectView::Message(m@),
            Effect::ToLobby(r) => EffectView::ToLobby(r@),
            Effect::ToGame { game_id, request } => EffectView::ToGame {
                game_id: *game_id,
                request: request@,
            },
            Effect::Stop => EffectView::Stop,
        }
    }
}

/// What is to be done, as mathematical values.
pub open spec fn effects_of(effects: Seq<Effect>) -> Seq<EffectView> {
    effects.map_values(|e: Effect| e@)
}

/// The server's side of one connection.
#[derive(Debug)]
pub struct Client {
    id: u128,
    status: ClientStatus,
    /// The games that the client has joined.
    games: BTreeSet<u128>,
    protocol_version: Option<u32>,
    user_info: Option<User>,
    /// When the peer last proved to be alive.
    heart_beat: u64,
}

/// A client as a mathematical value.
pub struct ClientView {
    pub id: u128,
    pub status: ClientStatus,
    pub games: Set<u128>,
    pub protocol_version: Option<u32>,
    pub user_info: Option<UserView>,
    pub heart_beat: u64,
}

/// The identity held by an optional user.
pub open spec fn user_of(user: Option<User>) -> Option<UserView> {
    match user {
        Some(u) => Some(u@),
        None => None,
    }
}

impl View for Client {
    type V = ClientView;

    closed spec fn view(&self) -> ClientView {
        ClientView {
            id: self.id,
            status: self.status,
            games: self.games@,
            protocol_version: self.protocol_version,
            user_info: user_of(self.user_info),
            heart_beat: self.heart_beat,
        }
    }
}

/// The error of a message that needs a login.
pub open spec fn need_login() -> ErrorView {
    ErrorView {
        kind: ErrorKind::Protocol,
        details: "Message is refused as long as you are not logged in"@,
        error_code: Some(code::protocol::NEED_LOGIN),
    }
}

/// The error of a message that needs a protocol.
pub open spec fn need_handshake() -> ErrorView {
    ErrorView {
        kind: ErrorKind::Protocol,
        details: "You need to run the handshake process"@,
        error_code: Some(code::protocol::NEED_HANDSHAKE),
    }
}

/// The error of a request that another part of the server did not answer.
pub open spec fn mailbox_error(actor_name: Seq<char>) -> ErrorView {
    ErrorView {
        kind: ErrorKind::Server,
        details: "Unable to contact "@ + actor_name + " actor"@,
        error_code: Some(code::server::MAILBOX_ERROR),
    }
}

/// The error of a message that could not be written out.
pub open spec fn serialization_error() -> ErrorView {
    ErrorView {
        kind: ErrorKind::Server,
        details: "Serialization issue"@,
        error_code: Some(code::server::SERIALIZATION_ERROR),
    }
}

/// The error of a path that is not written for a protocol: what was to be
/// done, the words "for protocol", and the protocol's number.
pub open spec fn unimpl_for(what: Seq<char>, protocol: u32) -> ErrorView {
    ErrorView {
        kind: ErrorKind::Impl,
        details: what + " for protocol "@ + decimal(protocol as nat),
        error_code: Some(code::server::UNIMPL_ERROR),
    }
}

impl ErrorView {
    /// The report of the error to the peer. It carries the error's code, or
    /// the first code of a class where the error has none: that of protocol
    /// errors for a protocol error, that of game errors for a game error,
    /// that of server errors for every other. Only a protocol error asks
    /// the peer to start over with the handshake.
    pub open spec fn report(self) -> ErrorMessageView {
        ErrorMessageView {
            error_code: Some(
                match self.error_code {
                    Some(c) => c,
                    None => match self.kind {
                        ErrorKind::Protocol => code::protocol::PROTOCOL_ERROR,
                        ErrorKind::Game => code::game::GAME_ERROR,
                        _ => code::server::SERVER_ERROR,
                    },
                },
            ),
            error_description: self.details,
            should_handshake: self.kind == ErrorKind::Protocol,
            ..ErrorMessageView::unknown()
        }
    }
}

impl ClientView {
    /// A client whose connection has just been opened.
    pub open spec fn fresh(id: u128, now: u64) -> ClientView {
        ClientView {
            id,
            status: ClientStatus::Handshake,
            games: Set::empty(),
            protocol_version: None,
            user_info: None,
            heart_beat: now,
        }
    }

    /// What holds of a client at all times: past the handshake it has a
    /// protocol, and once running it has a user.
    pub open spec fn wf(self) -> bool {
        &&& self.status != ClientStatus::Handshake ==> self.protocol_version is Some
        &&& self.status == ClientStatus::Running ==> self.user_info is Some
    }

    /// The client thrown back to the handshake: it has no protocol and has
    /// joined no game.
    pub open spec fn reset(self) -> ClientView {
        ClientView {
            games: Set::empty(),
            protocol_version: None,
            status: ClientStatus::Handshake,
            ..self
        }
    }

    /// The client after an error has been reported: a protocol error throws
    /// it back to the handshake, any other leaves it as it is.
    pub open spec fn after_error(self, error: ErrorView) -> ClientView {
        if error.kind == ErrorKind::Protocol {
            self.reset()
        } else {
            self
        }
    }

    /// The client after the peer has proved to be alive.
    pub open spec fn alive_at(self, now: u64) -> ClientView {
        ClientView { heart_beat: now, ..self }
    }

    /// Whether the peer has been silent for too long.
    pub open spec fn is_silent_at(self, now: u64) -> bool {
        now > self.heart_beat && now - self.heart_beat > HEARTBEAT_TIMEOUT
    }

    /// The user, or the error of a message that needs one.
    pub open spec fn required_login(self) -> Result<UserView, ErrorView> {
        match self.user_info {
            Some(u) => Ok(u),
            None => Err(need_login()),
        }
    }

    /// The protocol, or the error of a message that needs one.
    pub open spec fn required_protocol(self) -> Result<u32, ErrorView> {
        match self.protocol_version {
            Some(p) => Ok(p),
            None => Err(need_handshake()),
        }
    }
}

/// Whether this server speaks a protocol.
pub open spec fn is_supported(protocol: u32) -> bool {
    protocol == VERSION
}

/// The protocol to speak with a peer that proposes these: the highest that
/// this server speaks too, if there is one.
pub open spec fn is_best_protocol(proposed: Seq<u32>, best: Option<u32>) -> bool {
    match best {
        Some(p) => proposed.contains(p) && is_supported(p) && forall|i: int|
            0 <= i < proposed.len() && is_supported(#[trigger] proposed[i]) ==> proposed[i] <= p,
        None => forall|i: int| 0 <= i < proposed.len() ==> !is_supported(#[trigger] proposed[i]),
    }
}

impl Client {
    /// What holds of a client at all times.
    pub open spec fn wf(&self) -> bool {
        self@.wf()
    }

    /// The client of a connection that has just been opened, under a given
    /// identifier.
    pub fn with_id(id: u128, now: u64) -> (r: Client)
        ensures
            r.wf(),
            r@ == ClientView::fresh(id, now),
    {
        Client {
            id,
            status: ClientStatus::Handshake,
            protocol_version: None,
            user_info: None,
            games: BTreeSet::new(),
            heart_beat: now,
        }
    }

    /// The client of a connection that has just been opened, under a fresh
    /// random identifier.
    pub fn new(now: u64) -> (r: Client)
        ensures
            r.wf(),
            r@ == ClientView::fresh(r@.id, now),
    {
        Client::with_id(fresh_uid(), now)
    }

    /// The identifier of the client.
    pub fn id(&self) -> (r: u128)
        ensures
            r == self@.id,
    {
        self.id
    }

    /// The phase of the connection.
    pub fn status(&self) -> (r: ClientStatus)
        ensures
            r == self@.status,
    {
        self.status
    }

    /// The protocol that the handshake has settled, if it has.
    pub fn protocol_version(&self) -> (r: Option<u32>)
        ensures
            r == self@.protocol_version,
    {
        self.protocol_version
    }

    /// The user, once the client has logged in.
    pub fn user_info(&self) -> (r: &Option<User>)
        ensures
            user_of(*r) == self@.user_info,
    {
        &self.user_info
    }

    /// When the peer last proved to be alive.
    pub fn heart_beat(&self) -> (r: u64)
        ensures
            r == self@.heart_beat,
    {
        self.heart_beat
    }

    /// Whether the client has joined a game.
    pub fn has_joined(&self, game_id: u128) -> (r: bool)
        ensures
            r == self@.games.contains(game_id),
    {
        proof {
            lemma_keys_are_ordered();
        }
        broadcast use vstd::std_specs::btree::group_btree_axioms;

        self.games.contains(&game_id)
    }

    /// The connection is open: the lobby is told.
    pub fn started(&self) -> (r: Vec<Effect>)
        ensures
            effects_of(r@) == seq![
                EffectView::ToLobby(LobbyRequestView::Connect(Connect { client_id: self@.id })),
            ],
    {
        let mut out: Vec<Effect> = Vec::new();
        out.push(Effect::ToLobby(LobbyRequest::Connect(Connect { client_id: self.id })));
        assert(effects_of(out@) =~= seq![
            EffectView::ToLobby(LobbyRequestView::Connect(Connect { client_id: self@.id })),
        ]);
        out
    }

    /// The lobby has answered, or not, that the connection is open: without
    /// an answer the connection ends.
    pub fn on_connected(&self, res: Result<(), MailboxError>) -> (r: Vec<Effect>)
        ensures
            effects_of(r@) == if res is Ok {
                Seq::<EffectView>::empty()
            } else {
                seq![EffectView::Stop]
            },
    {
        let mut out: Vec<Effect> = Vec::new();
        match res {
            Ok(_) => {
                assert(effects_of(out@) =~= Seq::<EffectView>::empty());
            },
            Err(_) => {
                out.push(Effect::Stop);
                assert(effects_of(out@) =~= seq![EffectView::Stop]);
            },
        }
        out
    }

    /// The connection is ending: the lobby is told.
    pub fn stopping(&self) -> (r: Vec<Effect>)
        ensures
            effects_of(r@) == seq![
                EffectView::ToLobby(
                    LobbyRequestView::Disconnect(Disconnect { client_id: self@.id }),
                ),
            ],
    {
        let mut out: Vec<Effect> = Vec::new();
        out.push(Effect::ToLobby(LobbyRequest::Disconnect(Disconnect { client_id: self.id })));
        assert(effects_of(out@) =~= seq![
            EffectView::ToLobby(LobbyRequestView::Disconnect(Disconnect { client_id: self@.id })),
        ]);
        out
    }

    /// The time for a ping has come. A peer that has been silent for more
    /// than ten seconds is given up: the lobby is told and the connection
    /// ends. Any other is sent a ping.
    pub fn beat(&self, now: u64) -> (r: Vec<Effect>)
        ensures
            effects_of(r@) == if self@.is_silent_at(now) {
                seq![
                    EffectView::ToLobby(
                        LobbyRequestView::Disconnect(Disconnect { client_id: self@.id }),
                    ),
                    EffectView::Stop,
                ]
            } else {
                seq![EffectView::Ping]
            },
    {
        let mut out: Vec<Effect> = Vec::new();
        if now > self.heart_beat && now - self.heart_beat > HEARTBEAT_TIMEOUT {
            out.push(Effect::ToLobby(LobbyRequest::Disconnect(Disconnect { client_id: self.id })));
            out.push(Effect::Stop);
            assert(effects_of(out@) =~= seq![
                EffectView::ToLobby(
                    LobbyRequestView::Disconnect(Disconnect { client_id: self@.id }),
                ),
                EffectView::Stop,
            ]);
        } else {
            out.push(Effect::Ping);
            assert(effects_of(out@) =~= seq![EffectView::Ping]);
        }
        out
    }

    /// The protocol to speak with a peer that proposes these: the highest
    /// that this server speaks too, if there is one.
    pub fn choose_protocol(proposed_protocols: &Vec<u32>) -> (r: Option<u32>)
        ensures
            is_best_protocol(proposed_protocols@, r),
    {
        let mut best: Option<u32> = None;
        let mut i: usize = 0;
        while i < proposed_protocols.len()
            invariant
                0 <= i <= proposed_protocols.len(),
                is_best_protocol(proposed_protocols@.take(i as int), best),
            decreases proposed_protocols.len() - i,
        {
            let protocol_id = proposed_protocols[i];
            let ghost seen = proposed_protocols@.take(i as int);
            let ghost more = proposed_protocols@.take(i + 1);
            let ghost was = best;
            if protocol_id == VERSION {
                best = match best {
                    Some(b) => if b < protocol_id {
                        Some(protocol_id)
                    } else {
                        Some(b)
                    },
                    None => Some(protocol_id),
                };
            }
            proof {
                assert(more =~= seen.push(protocol_id));
                assert forall|k: int| 0 <= k < seen.len() implies seen[k] == more[k] by {}
                match best {
                    Some(p) => {
                        if was == Some(p) {
                            let k = choose|k: int| 0 <= k < seen.len() && seen[k] == p;
                            assert(more[k] == p);
                        } else {
                            assert(more[i as int] == p);
                        }
                        assert forall|k: int|
                            0 <= k < more.len() && is_supported(#[trigger] more[k]) implies more[k]
                            <= p by {
                            if k < seen.len() {
                                assert(seen[k] == more[k]);
                            }
                        }
                    },
                    None => {
                        assert forall|k: int| 0 <= k < more.len() implies !is_supported(
                            #[trigger] more[k],
                        ) by {
                            if k < seen.len() {
                                assert(seen[k] == more[k]);
                            }
                        }
                    },
                }
            }
            i = i + 1;
        }
        assert(proposed_protocols@.take(i as int) =~= proposed_protocols@);
        best
    }

    /// The user, or the error of a message that needs one.
    pub fn required_login(&self) -> (r: Result<&User, Error>)
        ensures
            match r {
                Ok(u) => self@.required_login() == Ok::<UserView, ErrorView>(u@),
                Err(e) => self@.required_login() == Err::<UserView, ErrorView>(e@),
            },
    {
        match &self.user_info {
            Some(user_info) => Ok(user_info),
            None => Err(
                Error::ProtocolError {
                    details: String::from_str(
                        "Message is refused as long as you are not logged in",
                    ),
                    error_code: Some(code::protocol::NEED_LOGIN),
                },
            ),
        }
    }

    /// The protocol, or the error of a message that needs one.
    pub fn required_protocol(&self) -> (r: Result<u32, Error>)
        ensures
            match r {
                Ok(p) => self@.required_protocol() == Ok::<u32, ErrorView>(p),
                Err(e) => self@.required_protocol() == Err::<u32, ErrorView>(e@),
            },
    {
        match self.protocol_version {
            Some(protocol_version) => Ok(protocol_version),
            None => Err(
                Error::ProtocolError {
                    details: String::from_str("You need to run the handshake process"),
                    error_code: Some(code::protocol::NEED_HANDSHAKE),
                },
            ),
        }
    }

    /// The error of a request that another part of the server did not
    /// answer.
    pub fn map_mailbox_err(e: &MailboxError, actor_name: &str) -> (r: Error)
        ensures
            r@ == mailbox_error(actor_name@),
    {
        let mut details = String::from_str("Unable to contact ");
        details.append(actor_name);
        details.append(" actor");
        Error::ServerError { details, error_code: Some(code::server::MAILBOX_ERROR) }
    }

    /// Reports an error to the peer. A protocol error throws the client back
    /// to the handshake: it loses its protocol and the games it has joined.
    pub fn send_error(&mut self, error: &Error) -> (r: Vec<Effect>)
        requires
            old(self).wf(),
        ensures
            final(self).wf(),
            final(self)@ == old(self)@.after_error(error@),
            effects_of(r@) == seq![EffectView::Error(error@.report())],
    {
        match error {
            Error::ProtocolError { .. } => {
                self.games = BTreeSet::new();
                self.protocol_version = None;
                self.status = ClientStatus::Handshake;
            },
            _ => {},
        }
        let resp = match error {
            Error::ProtocolError { details, error_code } => ErrorMessage {
                error_code: Some(
                    match error_code {
                        Some(c) => *c,
                        None => code::protocol::PROTOCOL_ERROR,
                    },
                ),
                error_description: details.clone(),
                should_reload: false,
                should_reconnect: false,
                should_handshake: true,
            },
            Error::ImplError { details, error_code } => ErrorMessage {
                error_code: Some(
                    match error_code {
                        Some(c) => *c,
                        None => code::server::SERVER_ERROR,
                    },
                ),
                error_description: details.clone(),
                should_reload: false,
                should_reconnect: false,
                should_handshake: false,
            },
            Error::ServerError { details, error_code } => ErrorMessage {
                error_code: Some(
                    match error_code {
                        Some(c) => *c,
                        None => code::server::SERVER_ERROR,
                    },
                ),
                error_description: details.clone(),
                should_reload: false,
                should_reconnect: false,
                should_handshake: false,
            },
            Error::GameError { details, error_code } => ErrorMessage {
                error_code: Some(
                    match error_code {
                        Some(c) => *c,
                        None => code::game::GAME_ERROR,
                    },
                ),
                error_description: details.clone(),
                should_reload: false,
                should_reconnect: false,
                should_handshake: false,
            },
            Error::LobbyError { details, error_code } => ErrorMessage {
                error_code: Some(
                    match error_code {
                        Some(c) => *c,
                        None => code::server::SERVER_ERROR,
                    },
                ),
                error_description: details.clone(),
                should_reload: false,
                should_reconnect: false,
                should_handshake: false,
            },
        };
        let mut out: Vec<Effect> = Vec::new();
        out.push(Effect::Error(resp));
        assert(effects_of(out@) =~= seq![EffectView::Error(error@.report())]);
        out
    }

    /// What a request ends in: what it asked to be done, or the report of
    /// its error.
    pub fn send_error_if_failed(&mut self, maybe_err: Result<Vec<Effect>, Error>) -> (r: Vec<
        Effect,
    >)
        requires
            old(self).wf(),
        ensures
            final(self).wf(),
            match maybe_err {
                Ok(effects) => final(self)@ == old(self)@ && r == effects,
                Err(e) => final(self)@ == old(self)@.after_error(e@) && effects_of(r@) == seq![
                    EffectView::Error(e@.report()),
                ],
            },
    {
        match maybe_err {
            Ok(effects) => effects,
            Err(e) => self.send_error(&e),
        }
    }

    /// A message for the peer could not be written out: the peer is told.
    pub fn on_serialize_error(&mut self) -> (r: Vec<Effect>)
        requires
            old(self).wf(),
        ensures
            final(self).wf(),
            final(self)@ == old(self)@,
            effects_of(r@) == seq![EffectView::Error(serialization_error().report())],
    {
        let error = Error::ServerError {
            details: String::from_str("Serialization issue"),
            error_code: Some(code::server::SERIALIZATION_ERROR),
        };
        self.send_error(&error)
    }
}

/// A text frame: its text, and what it reads as where it reads as a
/// disconnect message or as a hello.
#[derive(Clone, Debug, PartialEq, Eq)]
pub struct TextFrame {
    pub text: String,
    pub disconnect: Option<DisconnectMessage>,
    pub hello: Option<HelloMessage>,
}

pub struct TextFrameView {
    pub text: Seq<char>,
    pub disconnect: Option<DisconnectMessage>,
    pub hello: Option<Seq<u32>>,
}

/// The protocols of an optional hello.
pub open spec fn protocols_of(hello: Option<HelloMessage>) -> Option<Seq<u32>> {
    match hello {
        Some(h) => Some(h.known_protocols@),
        None => None,
    }
}

impl View for TextFrame {
    type V = TextFrameView;

    open spec fn view(&self) -> TextFrameView {
        TextFrameView {
            text: self.text@,
            disconnect: self.disconnect,
            hello: protocols_of(self.hello),
        }
    }
}

/// A binary frame: what it reads as where it reads as a login, and where it
/// reads as a message of the running phase.
#[derive(Clone, Debug, PartialEq, Eq)]
pub struct BinaryFrame {
    pub login: Option<LoginMessage>,
    pub running: Option<RunningClientMessage>,
}

pub struct BinaryFrameView {
    pub login: Option<LoginMessageView>,
    pub running: Option<RunningClientMessageView>,
}

/// The login of an optional login message.
pub open spec fn login_of(login: Option<LoginMessage>) -> Option<LoginMessageView> {
    match login {
        Some(m) => Some(m@),
        None => None,
    }
}

/// The message of an optional message of the running phase.
pub open spec fn running_of(running: Option<RunningClientMessage>) -> Option<
    RunningClientMessageView,
> {
    match running {
        Some(m) => Some(m@),
        None => None,
    }
}

impl View for BinaryFrame {
    type V = BinaryFrameView;

    open spec fn view(&self) -> BinaryFrameView {
        BinaryFrameView { login: login_of(self.login), running: running_of(self.running) }
    }
}

/// A frame from the peer.
#[derive(Clone, Debug, PartialEq, Eq)]
pub enum Frame {
    Ping(Vec<u8>),
    Pong,
    Text(TextFrame),
    Binary(BinaryFrame),
    Close,
    /// A frame of any other kind, with its description.
    Other(String),
}

pub enum FrameView {
    Ping(Seq<u8>),
    Pong,
    Text(TextFrameView),
    Binary(BinaryFrameView),
    Close,
    Other(Seq<char>),
}

impl View for Frame {
    type V = FrameView;

    open spec fn view(&self) -> FrameView {
        match self {
            Frame::Ping(p) => FrameView::Ping(p@),
            Frame::Pong => FrameView::Pong,
            Frame::Text(t) => FrameView::Text(t@),
            Frame::Binary(b) => FrameView::Binary(b@),
            Frame::Close => FrameView::Close,
            Frame::Other(d) => FrameView::Other(d@),
        }
    }
}

/// News to pass on to the peer.
#[derive(Clone, Debug, PartialEq, Eq)]
pub enum Forward {
    Lobby(LobbyMessage),
    Game(GameMessage),
    List(GameList),
}

pub enum ForwardView {
    Lobby(LobbyMessageView),
    Game(GameMessageView),
    List(Seq<InfoView>),
}

impl View for Forward {
    type V = ForwardView;

    open spec fn view(&self) -> ForwardView {
        match self {
            Forward::Lobby(m) => ForwardView::Lobby(m@),
            Forward::Game(m) => ForwardView::Game(m@),
            Forward::List(m) => ForwardView::List(m@),
        }
    }
}

/// A client after an event, with what is to be done.
pub struct Step {
    pub client: ClientView,
    pub effects: Seq<EffectView>,
}

/// A client after a request, with what the request asks to be done, or the
/// error that it ends in.
pub struct Outcome {
    pub client: ClientView,
    pub result: Result<Seq<EffectView>, ErrorView>,
}

/// What a request asks to be done, or its error, as mathematical values.
pub open spec fn result_of(r: Result<Vec<Effect>, Error>) -> Result<Seq<EffectView>, ErrorView> {
    match r {
        Ok(effects) => Ok(effects_of(effects@)),
        Err(e) => Err(e@),
    }
}

/// The error of a text frame where none may come.
pub open spec fn unexpected_text() -> ErrorView {
    ErrorView {
        kind: ErrorKind::Protocol,
        details: "Unexpected text message"@,
        error_code: Some(code::protocol::UNEXPECTED_STRING),
    }
}

/// The error of a binary frame where none may come.
pub open spec fn unexpected_bin() -> ErrorView {
    ErrorView {
        kind: ErrorKind::Protocol,
        details: "Unexpected bin message"@,
        error_code: Some(code::protocol::UNEXPECTED_BIN),
    }
}

/// The error of a frame that is neither text nor binary nor a ping.
pub open spec fn unexpected_other(description: Seq<char>) -> ErrorView {
    ErrorView {
        kind: ErrorKind::Protocol,
        details: "Unexpected message type "@ + description,
        error_code: Some(code::protocol::UNEXPECTED_OTHER),
    }
}

/// The error of a hello that cannot be read.
pub open spec fn bad_hello() -> ErrorView {
    ErrorView {
        kind: ErrorKind::Protocol,
        details: "No known protocols"@,
        error_code: Some(code::protocol::BAD_HANDSHAKE),
    }
}

/// The error of a login that cannot be read.
pub open spec fn bad_login() -> ErrorView {
    ErrorView {
        kind: ErrorKind::Protocol,
        details: "Bad Login"@,
        error_code: Some(code::protocol::BAD_HANDSHAKE),
    }
}

/// The error of a message of the running phase that cannot be read.
pub open spec fn bad_message() -> ErrorView {
    ErrorView {
        kind: ErrorKind::Protocol,
        details: "Bad message"@,
        error_code: Some(code::protocol::INVALID_MESSAGE),
    }
}

/// The error of a join of a game that the client has joined already.
pub open spec fn already_joined() -> ErrorView {
    ErrorView {
        kind: ErrorKind::Lobby,
        details: "Game already joined"@,
        error_code: Some(code::lobby::GAME_ALREADY_JOINED),
    }
}

/// The error of an action in a game that the client has not joined.
pub open spec fn not_joined() -> ErrorView {
    ErrorView {
        kind: ErrorKind::Lobby,
        details: "You should join the game first"@,
        error_code: Some(code::lobby::GAME_NOT_JOINED),
    }
}

/// The error of a join of a game that the lobby does not list.
pub open spec fn game_not_found(game_id: u128) -> ErrorView {
    ErrorView {
        kind: ErrorKind::Lobby,
        details: "Unable to find game "@ + uid_text(game_id),
        error_code: Some(code::lobby::GAME_DOESNT_EXISTS),
    }
}

/// The protocol to speak with a peer that proposes these: version 1 if it is
/// among them.
pub open spec fn best_protocol(proposed: Seq<u32>) -> Option<u32> {
    if proposed.contains(VERSION) {
        Some(VERSION)
    } else {
        None
    }
}

/// `best_protocol` gives the highest of the proposed protocols that this
/// server speaks.
pub proof fn lemma_best_protocol(proposed: Seq<u32>, best: Option<u32>)
    ensures
        is_best_protocol(proposed, best) <==> best == best_protocol(proposed),
{
    if is_best_protocol(proposed, best) {
        if proposed.contains(VERSION) {
            let k = choose|k: int| 0 <= k < proposed.len() && proposed[k] == VERSION;
            assert(is_supported(proposed[k]));
        }
    }
    if best == best_protocol(proposed) {
        if proposed.contains(VERSION) {
        } else {
            assert forall|i: int| 0 <= i < proposed.len() implies !is_supported(
                #[trigger] proposed[i],
            ) by {
                if is_supported(proposed[i]) {
                    assert(proposed.contains(VERSION));
                }
            }
        }
    }
}

impl Outcome {
    /// The client after the request and what is to be done: what the request
    /// asked for, or the report of its error.
    pub open spec fn settled(self) -> Step {
        match self.result {
            Ok(effects) => Step { client: self.client, effects },
            Err(e) => Step {
                client: self.client.after_error(e),
                effects: seq![EffectView::Error(e.report())],
            },
        }
    }
}

impl ClientView {
    /// A request that leaves the client as it is.
    pub open spec fn answer(self, result: Result<Seq<EffectView>, ErrorView>) -> Outcome {
        Outcome { client: self, result }
    }

    /// The hello. One that cannot be read is an error. One that proposes a
    /// protocol that this server speaks settles the protocol, and the login
    /// is next. Any other, an empty one too, is answered with a failure and
    /// the advice to load the page anew.
    pub open spec fn handshake(self, hello: Option<Seq<u32>>) -> Outcome {
        match hello {
            None => self.answer(Err(bad_hello())),
            Some(proposed) => match best_protocol(proposed) {
                Some(protocol) => Outcome {
                    client: ClientView {
                        protocol_version: Some(protocol),
                        status: ClientStatus::Login,
                        ..self
                    },
                    result: Ok(
                        seq![
                            EffectView::Hello(
                                HelloResponseMessage::Success { protocol_version: protocol },
                            ),
                        ],
                    ),
                },
                None => self.answer(
                    Ok(
                        seq![
                            EffectView::Hello(HelloResponseMessage::Failure { should_reload: true }),
                        ],
                    ),
                ),
            },
        }
    }

    /// A text frame that is no token and no disconnect message: the hello
    /// during the handshake, an error after it.
    pub open spec fn txt_message(self, hello: Option<Seq<u32>>) -> Outcome {
        if self.status == ClientStatus::Handshake {
            self.handshake(hello)
        } else {
            match self.required_protocol() {
                Err(e) => self.answer(Err(e)),
                Ok(protocol) => if protocol == 1 {
                    self.answer(Err(unexpected_text()))
                } else {
                    self.answer(Err(unimpl_for("on_txt"@, protocol)))
                },
            }
        }
    }

    /// What the lobby is asked for the games it lists.
    pub open spec fn ask_game_list(self) -> Result<Seq<EffectView>, ErrorView> {
        match self.required_login() {
            Err(e) => Err(e),
            Ok(user) => match self.required_protocol() {
                Err(e) => Err(e),
                Ok(protocol) => Ok(
                    seq![EffectView::ToLobby(LobbyRequestView::AskGameList { protocol })],
                ),
            },
        }
    }

    /// What the lobby is asked for a new game.
    pub open spec fn create_game(self, request_uid: Seq<char>) -> Result<
        Seq<EffectView>,
        ErrorView,
    > {
        match self.required_login() {
            Err(e) => Err(e),
            Ok(user) => match self.required_protocol() {
                Err(e) => Err(e),
                Ok(protocol) => Ok(
                    seq![
                        EffectView::ToLobby(
                            LobbyRequestView::CreateGame {
                                msg: CreateGameView {
                                    user_uid: user.uid,
                                    user_name: user.name,
                                    client_id: self.id,
                                },
                                protocol,
                                request_uid,
                            },
                        ),
                    ],
                ),
            },
        }
    }

    /// What the lobby is asked to join a game. A game that the client has
    /// joined already is not joined again.
    pub open spec fn join_game(self, game_id: u128) -> Result<Seq<EffectView>, ErrorView> {
        match self.required_login() {
            Err(e) => Err(e),
            Ok(user) => match self.required_protocol() {
                Err(e) => Err(e),
                Ok(protocol) => if self.games.contains(game_id) {
                    Err(already_joined())
                } else {
                    Ok(
                        seq![
                            EffectView::ToLobby(
                                LobbyRequestView::GetGame {
                                    msg: GetGame { game_id },
                                    join: JoinGameView {
                                        user_uid: user.uid,
                                        user_name: user.name,
                                        client_id: self.id,
                                    },
                                    protocol,
                                },
                            ),
                        ],
                    )
                },
            },
        }
    }

    /// What a game is asked for an action. Only a game that the client has
    /// joined is asked.
    pub open spec fn game_action(
        self,
        request_id: Seq<char>,
        game_id: u128,
        action: rules::Action,
    ) -> Result<Seq<EffectView>, ErrorView> {
        match self.required_login() {
            Err(e) => Err(e),
            Ok(user) => if !self.games.contains(game_id) {
                Err(not_joined())
            } else {
                Ok(
                    seq![
                        EffectView::ToGame {
                            game_id,
                            request: GameRequestView::GameAction {
                                msg: GameAction { action, user: Some(user.uid) },
                                request_id,
                            },
                        },
                    ],
                )
            },
        }
    }

    /// A request for the lobby.
    pub open spec fn v1_client_lobby(self, msg: LobbyClientMessageView) -> Result<
        Seq<EffectView>,
        ErrorView,
    > {
        match msg {
            LobbyClientMessageView::AskGameList => self.ask_game_list(),
            LobbyClientMessageView::CreateGame { request_uid } => self.create_game(request_uid),
            LobbyClientMessageView::JoinGame { game_uid } => match parsed_game_id(game_uid) {
                Err(e) => Err(e),
                Ok(game_id) => self.join_game(game_id),
            },
        }
    }

    /// A binary frame in the running phase.
    pub open spec fn v1_running(self, running: Option<RunningClientMessageView>) -> Result<
        Seq<EffectView>,
        ErrorView,
    > {
        match running {
            None => Err(bad_message()),
            Some(RunningClientMessageView::Lobby(msg)) => self.v1_client_lobby(msg),
            Some(RunningClientMessageView::Game { game_id, request_id, action }) => {
                match parsed_game_id(game_id) {
                    Err(e) => Err(e),
                    Ok(id) => self.game_action(request_id, id, action.to_rules()),
                }
            },
        }
    }

    /// A binary frame in the login phase.
    pub open spec fn v1_login(self, login: Option<LoginMessageView>) -> Result<
        Seq<EffectView>,
        ErrorView,
    > {
        match login {
            None => Err(bad_login()),
            Some(msg) => Ok(
                seq![
                    EffectView::ToLobby(LobbyRequestView::RegisterUser(registration(msg, self.id))),
                ],
            ),
        }
    }

    /// A binary frame under protocol 1.
    pub open spec fn v1_bin_message(self, frame: BinaryFrameView) -> Result<
        Seq<EffectView>,
        ErrorView,
    > {
        match self.status {
            ClientStatus::Handshake => Err(unexpected_bin()),
            ClientStatus::Login => self.v1_login(frame.login),
            ClientStatus::Running => self.v1_running(frame.running),
        }
    }

    /// A binary frame: an error during the handshake, else what the
    /// protocol makes of it.
    pub open spec fn bin_message(self, frame: BinaryFrameView) -> Result<
        Seq<EffectView>,
        ErrorView,
    > {
        if self.status == ClientStatus::Handshake {
            Err(unexpected_bin())
        } else {
            match self.required_protocol() {
                Err(e) => Err(e),
                Ok(protocol) => if protocol == 1 {
                    self.v1_bin_message(frame)
                } else {
                    Err(unimpl_for("on_bin"@, protocol))
                },
            }
        }
    }

    /// A text frame. The tokens `ping` and `pong` only prove that the peer
    /// is alive, and `ping` is answered with `pong`. A disconnect message
    /// ends the connection, and the lobby is told. Any other text is the
    /// hello or an error.
    pub open spec fn text_frame(self, frame: TextFrameView) -> Step {
        if frame.text == "ping"@ {
            Step { client: self, effects: seq![EffectView::Text("pong"@)] }
        } else if frame.text == "pong"@ {
            Step { client: self, effects: Seq::empty() }
        } else if frame.disconnect is Some {
            Step {
                client: self,
                effects: seq![
                    EffectView::ToLobby(
                        LobbyRequestView::Disconnect(Disconnect { client_id: self.id }),
                    ),
                    EffectView::Stop,
                ],
            }
        } else {
            self.txt_message(frame.hello).settled()
        }
    }

    /// A frame from the peer at a given time. Whatever it is, it proves that
    /// the peer is alive.
    pub open spec fn frame(self, frame: FrameView, now: u64) -> Step {
        let alive = self.alive_at(now);
        match frame {
            FrameView::Ping(payload) => Step {
                client: alive,
                effects: seq![EffectView::Pong(payload)],
            },
            FrameView::Pong => Step { client: alive, effects: Seq::empty() },
            FrameView::Text(text) => alive.text_frame(text),
            FrameView::Binary(bin) => alive.answer(alive.bin_message(bin)).settled(),
            FrameView::Close => Step { client: alive, effects: Seq::empty() },
            FrameView::Other(description) => alive.answer(
                Err(unexpected_other(description)),
            ).settled(),
        }
    }

    /// The client once the lobby has given it an identity.
    pub open spec fn logged_in(self, res: RegisterUserResponseView) -> ClientView {
        ClientView {
            user_info: Some(
                UserView { name: res.name, session_uid: res.session_uid, uid: res.user_uid },
            ),
            status: ClientStatus::Running,
            ..self
        }
    }

    /// The news on the wire, or the error of news that cannot be passed on:
    /// the lobby's news is for a user, and no protocol but the first can
    /// carry any.
    pub open spec fn forward_with_protocol(self, protocol: u32, msg: ForwardView) -> Result<
        Seq<EffectView>,
        ErrorView,
    > {
        if protocol == 1 {
            match msg {
                ForwardView::Game(m) => Ok(seq![EffectView::Message(v1_game_message(m))]),
                ForwardView::Lobby(m) => match self.required_login() {
                    Err(e) => Err(e),
                    Ok(user) => Ok(seq![EffectView::Message(v1_lobby_message(user.uid, m))]),
                },
                ForwardView::List(l) => match self.required_login() {
                    Err(e) => Err(e),
                    Ok(user) => Ok(seq![EffectView::Message(v1_game_list(user.uid, l))]),
                },
            }
        } else {
            Err(unimpl_for("forward_msg match"@, protocol))
        }
    }

    /// The news on the wire under the client's protocol.
    pub open spec fn forward(self, msg: ForwardView) -> Result<Seq<EffectView>, ErrorView> {
        match self.required_protocol() {
            Err(e) => Err(e),
            Ok(protocol) => self.forward_with_protocol(protocol, msg),
        }
    }

    /// What the peer is told of a game that it has joined.
    pub open spec fn send_game_joined(self, game_id: u128, res: GameJoinedView) -> Result<
        Seq<EffectView>,
        ErrorView,
    > {
        Ok(seq![EffectView::Message(v1_game_joined(game_id, res))])
    }

    /// What the peer is told of a game that it has asked for.
    pub open spec fn send_game_created(self, res: GameCreatedView, request_uid: Seq<char>) -> Result<
        Seq<EffectView>,
        ErrorView,
    > {
        match self.required_login() {
            Err(e) => Err(e),
            Ok(user) => Ok(
                seq![EffectView::Message(v1_game_created(res, request_uid, user.name))],
            ),
        }
    }

    /// The client takes note of a game that it has joined, and the peer is
    /// told of it.
    pub open spec fn game_joined(self, protocol: u32, game_uid: u128, msg: GameJoinedView) -> Outcome {
        let noted = ClientView { games: self.games.insert(game_uid), ..self };
        Outcome {
            client: noted,
            result: if protocol == 1 {
                noted.send_game_joined(game_uid, msg)
            } else {
                Err(unimpl_for("send_game_joined"@, protocol))
            },
        }
    }

    /// The client takes note of the game that it has asked for, and the peer
    /// is told of it.
    pub open spec fn game_created(
        self,
        protocol: u32,
        msg: GameCreatedView,
        request_uid: Seq<char>,
    ) -> Outcome {
        let noted = ClientView { games: self.games.insert(msg.game_uid), ..self };
        Outcome {
            client: noted,
            result: if protocol == 1 {
                noted.send_game_created(msg, request_uid)
            } else {
                Err(unimpl_for("on_game_created"@, protocol))
            },
        }
    }

    /// News from the lobby. A game that is gone is no longer among the games
    /// that the client has joined.
    pub open spec fn lobby_message(self, msg: LobbyMessageView) -> Step {
        let noted = match msg {
            LobbyMessageView::GameRemoved { game_id } => ClientView {
                games: self.games.remove(game_id),
                ..self
            },
            _ => self,
        };
        noted.answer(noted.forward(ForwardView::Lobby(msg))).settled()
    }

    /// News from a game.
    pub open spec fn game_message(self, msg: GameMessageView) -> Step {
        self.answer(self.forward(ForwardView::Game(msg))).settled()
    }
}

impl Client {
    /// The hello. One that cannot be read is an error. One that proposes a
    /// protocol that this server speaks settles the protocol, and the login
    /// is next. Any other, an empty one too, is answered with a failure and
    /// the advice to load the page anew.
    pub fn on_handshake(&mut self, hello: Option<HelloMessage>) -> (r: Result<Vec<Effect>, Error>)
        requires
            old(self).wf(),
        ensures
            final(self).wf(),
            (Outcome { client: final(self)@, result: result_of(r) }) == old(self)@.handshake(
                protocols_of(hello),
            ),
    {
        match hello {
            Some(hello_msg) => {
                let best_protocol_id: Option<u32> = Client::choose_protocol(
                    &hello_msg.known_protocols,
                );
                proof {
                    lemma_best_protocol(hello_msg.known_protocols@, best_protocol_id);
                }
                let resp = match best_protocol_id {
                    Some(best_protocol_id) => {
                        self.protocol_version = Some(best_protocol_id);
                        self.status = ClientStatus::Login;
                        HelloResponseMessage::Success { protocol_version: best_protocol_id }
                    },
                    None => HelloResponseMessage::Failure { should_reload: true },
                };
                let mut out: Vec<Effect> = Vec::new();
                out.push(Effect::Hello(resp));
                assert(effects_of(out@) =~= seq![EffectView::Hello(resp)]);
                Ok(out)
            },
            None => Err(
                Error::ProtocolError {
                    details: String::from_str("No known protocols"),
                    error_code: Some(code::protocol::BAD_HANDSHAKE),
                },
            ),
        }
    }

    /// A text frame that is no token and no disconnect message: the hello
    /// during the handshake, an error after it.
    pub fn on_txt_message(&mut self, hello: Option<HelloMessage>) -> (r: Result<Vec<Effect>, Error>)
        requires
            old(self).wf(),
        ensures
            final(self).wf(),
            (Outcome { client: final(self)@, result: result_of(r) }) == old(self)@.txt_message(
                protocols_of(hello),
            ),
    {
        match self.status {
            ClientStatus::Handshake => self.on_handshake(hello),
            _ => match self.required_protocol() {
                Err(e) => Err(e),
                Ok(protocol) => if protocol == 1 {
                    self.v1_on_txt_message()
                } else {
                    Err(unimpl_for_protocol("on_txt", protocol))
                },
            },
        }
    }

    /// A binary frame: an error during the handshake, else what the
    /// protocol makes of it.
    pub fn on_bin_message(&self, msg: BinaryFrame) -> (r: Result<Vec<Effect>, Error>)
        requires
            self.wf(),
        ensures
            result_of(r) == self@.bin_message(msg@),
    {
        match self.status {
            ClientStatus::Handshake => Err(
                Error::ProtocolError {
                    details: String::from_str("Unexpected bin message"),
                    error_code: Some(code::protocol::UNEXPECTED_BIN),
                },
            ),
            _ => match self.required_protocol() {
                Err(e) => Err(e),
                Ok(protocol) => if protocol == 1 {
                    self.v1_on_bin_message(msg)
                } else {
                    Err(unimpl_for_protocol("on_bin", protocol))
                },
            },
        }
    }

    /// What the lobby is asked for the games it lists.
    pub fn on_ask_game_list(&self) -> (r: Result<Vec<Effect>, Error>)
        ensures
            result_of(r) == self@.ask_game_list(),
    {
        match self.required_login() {
            Err(e) => Err(e),
            Ok(_) => match self.required_protocol() {
                Err(e) => Err(e),
                Ok(protocol) => {
                    let mut out: Vec<Effect> = Vec::new();
                    out.push(Effect::ToLobby(LobbyRequest::AskGameList { protocol }));
                    assert(effects_of(out@) =~= seq![
                        EffectView::ToLobby(LobbyRequestView::AskGameList { protocol }),
                    ]);
                    Ok(out)
                },
            },
        }
    }

    /// What the lobby is asked for a new game.
    pub fn on_create_game(&self, request_uid: String) -> (r: Result<Vec<Effect>, Error>)
        ensures
            result_of(r) == self@.create_game(request_uid@),
    {
        match self.required_login() {
            Err(e) => Err(e),
            Ok(user_info) => match self.required_protocol() {
                Err(e) => Err(e),
                Ok(protocol) => {
                    let request = LobbyRequest::CreateGame {
                        msg: CreateGame {
                            user_uid: user_info.uid,
                            user_name: user_info.name.clone(),
                            client_id: self.id,
                        },
                        protocol,
                        request_uid,
                    };
                    let mut out: Vec<Effect> = Vec::new();
                    out.push(Effect::ToLobby(request));
                    assert(effects_of(out@) =~= seq![EffectView::ToLobby(request@)]);
                    Ok(out)
                },
            },
        }
    }

    /// What the lobby is asked to join a game. A game that the client has
    /// joined already is not joined again.
    pub fn on_join_game(&self, game_id: u128) -> (r: Result<Vec<Effect>, Error>)
        ensures
            result_of(r) == self@.join_game(game_id),
    {
        match self.required_login() {
            Err(e) => Err(e),
            Ok(user_info) => match self.required_protocol() {
                Err(e) => Err(e),
                Ok(protocol) => {
                    if self.has_joined(game_id) {
                        return Err(
                            Error::LobbyError {
                                details: String::from_str("Game already joined"),
                                error_code: Some(code::lobby::GAME_ALREADY_JOINED),
                            },
                        );
                    }
                    let request = LobbyRequest::GetGame {
                        msg: GetGame { game_id },
                        join: JoinGame {
                            user_uid: user_info.uid,
                            user_name: user_info.name.clone(),
                            client_id: self.id,
                        },
                        protocol,
                    };
                    let mut out: Vec<Effect> = Vec::new();
                    out.push(Effect::ToLobby(request));
                    assert(effects_of(out@) =~= seq![EffectView::ToLobby(request@)]);
                    Ok(out)
                },
            },
        }
    }

    /// What a game is asked for an action. Only a game that the client has
    /// joined is asked.
    pub fn on_game_action(&self, request_id: String, game_id: u128, msg: rules::Action) -> (r:
        Result<Vec<Effect>, Error>)
        ensures
            result_of(r) == self@.game_action(request_id@, game_id, msg),
    {
        match self.required_login() {
            Err(e) => Err(e),
            Ok(user_info) => {
                if !self.has_joined(game_id) {
                    return Err(
                        Error::LobbyError {
                            details: String::from_str("You should join the game first"),
                            error_code: Some(code::lobby::GAME_NOT_JOINED),
                        },
                    );
                }
                let request = GameRequest::GameAction {
                    msg: GameAction { action: msg, user: Some(user_info.uid) },
                    request_id,
                };
                let mut out: Vec<Effect> = Vec::new();
                out.push(Effect::ToGame { game_id, request });
                assert(effects_of(out@) =~= seq![
                    EffectView::ToGame { game_id, request: request@ },
                ]);
                Ok(out)
            },
        }
    }

    /// The news on the wire, or the error of news that cannot be passed on.
    pub fn forward_msg_with_protocol(&self, protocol: u32, msg: &Forward) -> (r: Result<
        Vec<Effect>,
        Error,
    >)
        ensures
            result_of(r) == self@.forward_with_protocol(protocol, msg@),
    {
        if protocol == 1 {
            self.v1_forward_msg(msg)
        } else {
            Err(unimpl_for_protocol("forward_msg match", protocol))
        }
    }

    /// The news on the wire under the client's protocol.
    pub fn forward_msg(&self, msg: &Forward) -> (r: Result<Vec<Effect>, Error>)
        ensures
            result_of(r) == self@.forward(msg@),
    {
        match self.required_protocol() {
            Err(e) => Err(e),
            Ok(protocol) => self.forward_msg_with_protocol(protocol, msg),
        }
    }

    /// The client takes note of a game that it has joined, and the peer is
    /// told of it.
    pub fn on_game_joined(&mut self, protocol: u32, game_uid: u128, msg: GameJoined) -> (r: Result<
        Vec<Effect>,
        Error,
    >)
        requires
            old(self).wf(),
        ensures
            final(self).wf(),
            (Outcome { client: final(self)@, result: result_of(r) }) == old(self)@.game_joined(
                protocol,
                game_uid,
                msg@,
            ),
    {
        proof {
            lemma_keys_are_ordered();
        }
        broadcast use vstd::std_specs::btree::group_btree_axioms;

        self.games.insert(game_uid);
        if protocol == 1 {
            self.send_game_joined(game_uid, &msg)
        } else {
            Err(unimpl_for_protocol("send_game_joined", protocol))
        }
    }

    /// The client takes note of the game that it has asked for, and the peer
    /// is told of it.
    pub fn on_game_created(&mut self, protocol: u32, msg: &GameCreated, request_uid: String) -> (r:
        Result<Vec<Effect>, Error>)
        requires
            old(self).wf(),
        ensures
            final(self).wf(),
            (Outcome { client: final(self)@, result: result_of(r) }) == old(self)@.game_created(
                protocol,
                msg@,
                request_uid@,
            ),
    {
        proof {
            lemma_keys_are_ordered();
        }
        broadcast use vstd::std_specs::btree::group_btree_axioms;

        self.games.insert(msg.game_uid);
        if protocol == 1 {
            self.send_game_created(msg, request_uid)
        } else {
            Err(unimpl_for_protocol("on_game_created", protocol))
        }
    }

    /// The lobby has answered a login, or not. With its answer the client
    /// has a user, the peer is told its identity, and the running phase
    /// begins. The answer is handed in while the client is in the login
    /// phase.
    pub fn on_registered(&mut self, res: Result<RegisterUserResponse, MailboxError>) -> (r: Vec<
        Effect,
    >)
        requires
            old(self).wf(),
            old(self)@.status == ClientStatus::Login,
        ensures
            final(self).wf(),
            match res {
                Ok(answer) => {
                    &&& final(self)@ == old(self)@.logged_in(answer@)
                    &&& uid_parse(uid_text(answer@.user_uid)) == Some(answer@.user_uid)
                    &&& uid_parse(uid_text(answer@.session_uid)) == Some(answer@.session_uid)
                    &&& effects_of(r@) == seq![
                        EffectView::LoginResponse(
                            LoginResponseMessageView {
                                name: answer@.name,
                                user_uid: uid_text(answer@.user_uid),
                                session_uid: uid_text(answer@.session_uid),
                            },
                        ),
                    ]
                },
                Err(e) => (Step { client: final(self)@, effects: effects_of(r@) }) == old(
                    self,
                )@.answer(Err(mailbox_error("lobby"@))).settled(),
            },
    {
        match res {
            Ok(res) => {
                let response = LoginResponseMessage {
                    name: res.name.clone(),
                    user_uid: uid_to_string(res.user_uid),
                    session_uid: uid_to_string(res.session_uid),
                };
                self.user_info = Some(
                    User { name: res.name, session_uid: res.session_uid, uid: res.user_uid },
                );
                self.status = ClientStatus::Running;
                let mut out: Vec<Effect> = Vec::new();
                out.push(Effect::LoginResponse(response));
                assert(effects_of(out@) =~= seq![EffectView::LoginResponse(response@)]);
                out
            },
            Err(e) => {
                let error = Client::map_mailbox_err(&e, "lobby");
                self.send_error(&error)
            },
        }
    }

    /// The lobby has answered a request for its list, or not: the peer is
    /// sent the list as its user reads it.
    pub fn on_game_list(&mut self, protocol: u32, res: Result<GameList, MailboxError>) -> (r: Vec<
        Effect,
    >)
        requires
            old(self).wf(),
        ensures
            final(self).wf(),
            (Step { client: final(self)@, effects: effects_of(r@) }) == old(self)@.answer(
                match res {
                    Ok(list) => old(self)@.forward_with_protocol(protocol, ForwardView::List(list@)),
                    Err(e) => Err(mailbox_error("lobby"@)),
                },
            ).settled(),
    {
        let res = match res {
            Ok(list) => self.forward_msg_with_protocol(protocol, &Forward::List(list)),
            Err(e) => Err(Client::map_mailbox_err(&e, "lobby")),
        };
        self.send_error_if_failed(res)
    }

    /// The lobby has answered a request for a new game, or not.
    pub fn on_created(
        &mut self,
        protocol: u32,
        request_uid: String,
        res: Result<GameCreated, MailboxError>,
    ) -> (r: Vec<Effect>)
        requires
            old(self).wf(),
        ensures
            final(self).wf(),
            (Step { client: final(self)@, effects: effects_of(r@) }) == (match res {
                Ok(created) => old(self)@.game_created(protocol, created@, request_uid@),
                Err(e) => old(self)@.answer(Err(mailbox_error("lobby"@))),
            }).settled(),
    {
        let res = match res {
            Ok(created) => self.on_game_created(protocol, &created, request_uid),
            Err(e) => Err(Client::map_mailbox_err(&e, "lobby")),
        };
        self.send_error_if_failed(res)
    }

    /// The lobby has answered where a game is, or not. A game that is found
    /// is asked to let the client in; one that is not is an error.
    pub fn on_game_found(
        &mut self,
        game_id: u128,
        join: JoinGame,
        protocol: u32,
        res: Result<GameFound, MailboxError>,
    ) -> (r: Vec<Effect>)
        requires
            old(self).wf(),
        ensures
            final(self).wf(),
            (Step { client: final(self)@, effects: effects_of(r@) }) == old(self)@.answer(
                match res {
                    Ok(GameFound::Success { game }) => Ok(
                        seq![
                            EffectView::ToGame {
                                game_id: game,
                                request: GameRequestView::JoinGame { msg: join@, protocol },
                            },
                        ],
                    ),
                    Ok(GameFound::Failure) => Err(game_not_found(game_id)),
                    Err(e) => Err(mailbox_error("lobby"@)),
                },
            ).settled(),
    {
        let res = match res {
            Ok(GameFound::Success { game }) => {
                let request = GameRequest::JoinGame { msg: join, protocol };
                let mut out: Vec<Effect> = Vec::new();
                out.push(Effect::ToGame { game_id: game, request });
                assert(effects_of(out@) =~= seq![
                    EffectView::ToGame { game_id: game, request: request@ },
                ]);
                Ok(out)
            },
            Ok(GameFound::Failure) => {
                let mut details = String::from_str("Unable to find game ");
                let shown = uid_to_string(game_id);
                details.append(shown.as_str());
                Err(
                    Error::LobbyError {
                        details,
                        error_code: Some(code::lobby::GAME_DOESNT_EXISTS),
                    },
                )
            },
            Err(e) => Err(Client::map_mailbox_err(&e, "lobby")),
        };
        self.send_error_if_failed(res)
    }

    /// A game has answered a request to join it, or not.
    pub fn on_joined(&mut self, protocol: u32, game_id: u128, res: Result<GameJoined, MailboxError>) -> (r:
        Vec<Effect>)
        requires
            old(self).wf(),
        ensures
            final(self).wf(),
            (Step { client: final(self)@, effects: effects_of(r@) }) == (match res {
                Ok(joined) => old(self)@.game_joined(protocol, game_id, joined@),
                Err(e) => old(self)@.answer(Err(mailbox_error("game"@))),
            }).settled(),
    {
        let res = match res {
            Ok(joined) => self.on_game_joined(protocol, game_id, joined),
            Err(e) => Err(Client::map_mailbox_err(&e, "game")),
        };
        self.send_error_if_failed(res)
    }

    /// A game has answered an action, or not: the peer is sent the answer
    /// under the number of its request.
    pub fn on_action_response(
        &mut self,
        request_id: String,
        game_id: u128,
        res: Result<GameActionResponse, MailboxError>,
    ) -> (r: Vec<Effect>)
        requires
            old(self).wf(),
        ensures
            final(self).wf(),
            (Step { client: final(self)@, effects: effects_of(r@) }) == old(self)@.answer(
                match res {
                    Ok(msg) => Ok(
                        seq![EffectView::Message(v1_action_response(request_id@, game_id, msg))],
                    ),
                    Err(e) => Err(mailbox_error("lobby"@)),
                },
            ).settled(),
    {
        let res = match res {
            Ok(msg) => self.send_game_action_response(request_id, game_id, msg),
            Err(e) => Err(Client::map_mailbox_err(&e, "lobby")),
        };
        self.send_error_if_failed(res)
    }

    /// News from the lobby. A game that is gone is no longer among the games
    /// that the client has joined.
    pub fn handle_lobby_message(&mut self, msg: LobbyMessage) -> (r: Vec<Effect>)
        requires
            old(self).wf(),
        ensures
            final(self).wf(),
            (Step { client: final(self)@, effects: effects_of(r@) }) == old(self)@.lobby_message(
                msg@,
            ),
    {
        proof {
            lemma_keys_are_ordered();
        }
        broadcast use vstd::std_specs::btree::group_btree_axioms;

        match &msg {
            LobbyMessage::GameRemoved { game_id } => {
                self.games.remove(game_id);
            },
            _ => {},
        }
        let res = self.forward_msg(&Forward::Lobby(msg));
        self.send_error_if_failed(res)
    }

    /// News from a game.
    pub fn handle_game_message(&mut self, msg: GameMessage) -> (r: Vec<Effect>)
        requires
            old(self).wf(),
        ensures
            final(self).wf(),
            (Step { client: final(self)@, effects: effects_of(r@) }) == old(self)@.game_message(
                msg@,
            ),
    {
        let res = self.forward_msg(&Forward::Game(msg));
        self.send_error_if_failed(res)
    }

    /// A frame from the peer at a given time. Whatever it is, it proves that
    /// the peer is alive.
    pub fn handle(&mut self, msg: Frame, now: u64) -> (r: Vec<Effect>)
        requires
            old(self).wf(),
        ensures
            final(self).wf(),
            (Step { client: final(self)@, effects: effects_of(r@) }) == old(self)@.frame(msg@, now),
    {
        self.heart_beat = now;
        match msg {
            Frame::Ping(payload) => {
                let mut out: Vec<Effect> = Vec::new();
                out.push(Effect::Pong(payload));
                assert(effects_of(out@) =~= seq![EffectView::Pong(payload@)]);
                out
            },
            Frame::Pong => {
                let out: Vec<Effect> = Vec::new();
                assert(effects_of(out@) =~= Seq::<EffectView>::empty());
                out
            },
            Frame::Text(frame) => {
                if is_token(&frame.text, "ping") {
                    let mut out: Vec<Effect> = Vec::new();
                    out.push(Effect::Text(String::from_str("pong")));
                    assert(effects_of(out@) =~= seq![EffectView::Text("pong"@)]);
                    out
                } else if is_token(&frame.text, "pong") {
                    let out: Vec<Effect> = Vec::new();
                    assert(effects_of(out@) =~= Seq::<EffectView>::empty());
                    out
                } else if frame.disconnect.is_some() {
                    let mut out: Vec<Effect> = Vec::new();
                    out.push(
                        Effect::ToLobby(
                            LobbyRequest::Disconnect(Disconnect { client_id: self.id }),
                        ),
                    );
                    out.push(Effect::Stop);
                    assert(effects_of(out@) =~= seq![
                        EffectView::ToLobby(
                            LobbyRequestView::Disconnect(Disconnect { client_id: self@.id }),
                        ),
                        EffectView::Stop,
                    ]);
                    out
                } else {
                    let res = self.on_txt_message(frame.hello);
                    self.send_error_if_failed(res)
                }
            },
            Frame::Binary(bin) => {
                let res = self.on_bin_message(bin);
                self.send_error_if_failed(res)
            },
            Frame::Close => {
                let out: Vec<Effect> = Vec::new();
                assert(effects_of(out@) =~= Seq::<EffectView>::empty());
                out
            },
            Frame::Other(description) => {
                let mut details = String::from_str("Unexpected message type ");
                details.append(description.as_str());
                let error = Error::ProtocolError {
                    details,
                    error_code: Some(code::protocol::UNEXPECTED_OTHER),
                };
                self.send_error(&error)
            },
        }
    }
}

/// Whether a text is a given token.
fn is_token(text: &String, token: &str) -> (r: bool)
    ensures
        r == (text@ == token@),
{
    let other = String::from_str(token);
    *text == other
}

/// The error of a path that is not written for a protocol.
pub fn unimpl_for_protocol(what: &str, protocol: u32) -> (r: Error)
    ensures
        r@ == unimpl_for(what@, protocol),
{
    let mut details = String::from_str(what);
    details.append(" for protocol ");
    let number = decimal_string(protocol as u64);
    details.append(number.as_str());
    unimpl(details)
}

} // verus!
