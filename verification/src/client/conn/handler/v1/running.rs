//! The page's side of the running phase.

use vstd::prelude::*;
use crate::client::app::game;
use crate::client::app::lobby;
use crate::client::conn::handler::handshake::unreadable;
use crate::client::conn::handler::v1::{moves_from_wire, overviews_from_wire};
use crate::client::err::Error;
use crate::protocol::v1 as msg;
use crate::text::{decimal, decimal_string};

verus! {

/// The handler of the running phase. It numbers the page's requests.
#[derive(Clone, Copy, Debug, PartialEq, Eq, Structural)]
pub struct RunningHandler {
    pub request_index: u32,
}

/// What the page is to show after a message of the lobby.
#[derive(Clone, Debug, PartialEq, Eq)]
pub enum LobbyEvent {
    GameList(Vec<lobby::GameOverview>),
    NewGame(lobby::GameOverview),
    GameChanged(lobby::GameOverview),
    GameRemoved(String),
    GameCreated { info: game::GameDetails, role: game::UserRole },
    GameJoined { info: game::GameDetails, role: game::UserRole, moves: Vec<game::GameAction> },
}

pub enum LobbyEventView {
    GameList(Seq<lobby::GameOverviewView>),
    NewGame(lobby::GameOverviewView),
    GameChanged(lobby::GameOverviewView),
    GameRemoved(Seq<char>),
    GameCreated { info: game::GameDetailsView, role: game::UserRole },
    GameJoined { info: game::GameDetailsView, role: game::UserRole, moves: Seq<game::GameAction> },
}

impl View for LobbyEvent {
    type V = LobbyEventView;

    open spec fn view(&self) -> LobbyEventView {
        match self {
            LobbyEvent::GameList(l) => LobbyEventView::GameList(
                l@.map_values(|o: lobby::GameOverview| o@),
            ),
            LobbyEvent::NewGame(o) => LobbyEventView::NewGame(o@),
            LobbyEvent::GameChanged(o) => LobbyEventView::GameChanged(o@),
            LobbyEvent::GameRemoved(id) => LobbyEventView::GameRemoved(id@),
            LobbyEvent::GameCreated { info, role } => LobbyEventView::GameCreated {
                info: info@,
                role: *role,
            },
            LobbyEvent::GameJoined { info, role, moves } => LobbyEventView::GameJoined {
                info: info@,
                role: *role,
                moves: moves@,
            },
        }
    }
}

/// What the page is to show after a message of the lobby.
pub open spec fn lobby_event(m: msg::LobbyServerMessagesView) -> LobbyEventView {
    match m {
        msg::LobbyServerMessagesView::GameList { list } => LobbyEventView::GameList(
            list.map_values(|o: msg::GameOverviewView| lobby::GameOverviewView::of_wire(o)),
        ),
        msg::LobbyServerMessagesView::NewGame(info) => LobbyEventView::NewGame(
            lobby::GameOverviewView::of_wire(info),
        ),
        msg::LobbyServerMessagesView::GameInfoChanged(info) => LobbyEventView::GameChanged(
            lobby::GameOverviewView::of_wire(info),
        ),
        msg::LobbyServerMessagesView::GameRemoved { id } => LobbyEventView::GameRemoved(id),
        msg::LobbyServerMessagesView::GameCreated { request_uid, info, role } => {
            LobbyEventView::GameCreated {
                info: game::GameDetailsView::of_wire(info),
                role: game::UserRole::of_wire(role),
            }
        },
        msg::LobbyServerMessagesView::GameJoined { info, role, moves } => {
            LobbyEventView::GameJoined {
                info: game::GameDetailsView::of_wire(info),
                role: game::UserRole::of_wire(role),
                moves: moves.map_values(|a: msg::GameAction| game::GameAction::of_wire(a)),
            }
        },
    }
}

/// The event held by an optional event.
pub open spec fn event_of(e: Option<LobbyEvent>) -> Option<LobbyEventView> {
    match e {
        Some(e) => Some(e@),
        None => None,
    }
}

impl RunningHandler {
    /// The handler at the start of the running phase: the first request
    /// will be number 1.
    pub open spec fn first() -> RunningHandler {
        RunningHandler { request_index: 1 }
    }

    /// The handler at the start of the running phase.
    pub fn new() -> (r: RunningHandler)
        ensures
            r == RunningHandler::first(),
    {
        RunningHandler { request_index: 1 }
    }

    /// What the page is to show after a message of the lobby.
    pub fn on_lobby_message(&self, lobby_msg: msg::LobbyServerMessages) -> (r: LobbyEvent)
        ensures
            r@ == lobby_event(lobby_msg@),
    {
        match lobby_msg {
            msg::LobbyServerMessages::GameList { list } => LobbyEvent::GameList(
                overviews_from_wire(list),
            ),
            msg::LobbyServerMessages::NewGame(info) => LobbyEvent::NewGame(
                lobby::GameOverview::from_wire(info),
            ),
            msg::LobbyServerMessages::GameInfoChanged(info) => LobbyEvent::GameChanged(
                lobby::GameOverview::from_wire(info),
            ),
            msg::LobbyServerMessages::GameRemoved { id } => LobbyEvent::GameRemoved(id),
            msg::LobbyServerMessages::GameCreated { request_uid, info, role } => {
                LobbyEvent::GameCreated {
                    info: game::GameDetails::from_wire(info),
                    role: game::UserRole::from(role),
                }
            },
            msg::LobbyServerMessages::GameJoined { info, role, moves } => LobbyEvent::GameJoined {
                info: game::GameDetails::from_wire(info),
                role: game::UserRole::from(role),
                moves: moves_from_wire(&moves),
            },
        }
    }

    /// The message that opens the running phase: the page asks for the list
    /// of games.
    pub fn on_start(&self) -> (r: msg::RunningClientMessage)
        ensures
            r@ == msg::RunningClientMessageView::Lobby(msg::LobbyClientMessageView::AskGameList),
    {
        msg::RunningClientMessage::Lobby(msg::LobbyClientMessage::AskGameList)
    }

    /// A message of the running phase, or a frame that does not read as
    /// one. A message of the lobby is something to show; a message of a game
    /// is not shown yet.
    pub fn on_array_buf(&self, resp: Option<msg::RunningServerMessage>) -> (r: Result<
        Option<LobbyEvent>,
        Error,
    >)
        ensures
            match resp {
                Some(msg::RunningServerMessage::Lobby(m)) => r is Ok && event_of(r->Ok_0) == Some(
                    lobby_event(m@),
                ),
                Some(msg::RunningServerMessage::Game { .. }) => r is Ok && r->Ok_0 is None,
                None => r is Err && r->Err_0@ == unreadable(),
            },
    {
        match resp {
            Some(message) => {
                match message {
                    msg::RunningServerMessage::Lobby(lobby_msg) => Ok(
                        Some(self.on_lobby_message(lobby_msg)),
                    ),
                    msg::RunningServerMessage::Game { game_id, message } => Ok(None),
                }
            },
            None => Err(
                Error::ProtocolError {
                    details: String::from_str("Desserialisation error"),
                    should_reload: false,
                },
            ),
        }
    }

    /// The request for a new game, under the next number.
    pub fn create_game(&mut self) -> (r: msg::RunningClientMessage)
        requires
            old(self).request_index < u32::MAX,
        ensures
            final(self).request_index == old(self).request_index + 1,
            r@ == msg::RunningClientMessageView::Lobby(
                msg::LobbyClientMessageView::CreateGame {
                    request_uid: decimal(old(self).request_index as nat),
                },
            ),
    {
        let request_id = self.request_index;
        self.request_index = self.request_index + 1;
        msg::RunningClientMessage::Lobby(
            msg::LobbyClientMessage::CreateGame { request_uid: decimal_string(request_id as u64) },
        )
    }
}

} // verus!
