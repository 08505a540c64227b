//! The failures that a request can end in, and how they read.

use vstd::prelude::*;
use crate::protocol::error::code;
use crate::server::actor_msg::ResultMsg;
use crate::text::{decimal, decimal_string};

verus! {

/// A failed request. Each class has its own range of codes; an error without
/// a code of its own reads with the first code of its class.
#[derive(Clone, Debug, PartialEq, Eq)]
pub enum Error {
    /// The peer sent what the current phase forbids, or what cannot be read.
    ProtocolError { details: String, error_code: Option<u32> },
    /// A well-formed request that the lobby's rules refuse.
    LobbyError { details: String, error_code: Option<u32> },
    /// A well-formed action that the game's rules refuse.
    GameError { details: String, error_code: Option<u32> },
    /// The server failed on its own.
    ServerError { details: String, error_code: Option<u32> },
    /// A path that is not written, or a broken invariant.
    ImplError { details: String, error_code: Option<u32> },
}

/// The five classes of error.
#[derive(Clone, Copy, Debug, PartialEq, Eq, Structural)]
pub enum ErrorKind {
    Protocol,
    Lobby,
    Game,
    Server,
    Impl,
}

/// An `Error` as a mathematical value.
pub struct ErrorView {
    pub kind: ErrorKind,
    pub details: Seq<char>,
    pub error_code: Option<u32>,
}

impl View for Error {
    type V = ErrorView;

    open spec fn view(&self) -> ErrorView {
        match self {
            Error::ProtocolError { details, error_code } => ErrorView {
                kind: ErrorKind::Protocol,
                details: details@,
                error_code: *error_code,
            },
            Error::LobbyError { details, error_code } => ErrorView {
                kind: ErrorKind::Lobby,
                details: details@,
                error_code: *error_code,
            },
            Error::GameError { details, error_code } => ErrorView {
                kind: ErrorKind::Game,
                details: details@,
                error_code: *error_code,
            },
            Error::ServerError { details, error_code } => ErrorView {
                kind: ErrorKind::Server,
                details: details@,
                error_code: *error_code,
            },
            Error::ImplError { details, error_code } => ErrorView {
                kind: ErrorKind::Impl,
                details: details@,
                error_code: *error_code,
            },
        }
    }
}

impl ErrorKind {
    /// The words that open the text of an error of this class.
    pub open spec fn title(self) -> Seq<char> {
        match self {
            ErrorKind::Protocol => "Protocol error"@,
            ErrorKind::Server => "Server error"@,
            ErrorKind::Impl => "Server implementation error"@,
            ErrorKind::Lobby => "Lobby error"@,
            ErrorKind::Game => "Game error"@,
        }
    }

    /// The code under which an error of this class reads when it has none of
    /// its own.
    pub open spec fn default_code(self) -> u32 {
        match self {
            ErrorKind::Protocol => code::protocol::PROTOCOL_ERROR,
            ErrorKind::Server => code::server::SERVER_ERROR,
            ErrorKind::Impl => code::server::SERVER_ERROR,
            ErrorKind::Lobby => code::lobby::LOBBY_ERROR,
            ErrorKind::Game => code::game::GAME_ERROR,
        }
    }
}

impl ErrorView {
    /// The code under which the error reads.
    pub open spec fn shown_code(self) -> u32 {
        match self.error_code {
            Some(c) => c,
            None => self.kind.default_code(),
        }
    }

    /// The text of the error: the class, the code, a colon, the details.
    pub open spec fn text(self) -> Seq<char> {
        error_text(self.shown_code(), self.kind.title(), self.details)
    }
}

/// The class, a space, the code in decimal, a colon and a space, the details.
pub open spec fn error_text(error_code: u32, title: Seq<char>, details: Seq<char>) -> Seq<char> {
    title + seq![' '] + decimal(error_code as nat) + seq![':', ' '] + details
}

/// Writes out an error from its parts.
pub fn format_error(error_code: u32, error_type_msg: &str, details: &str) -> (r: String)
    ensures
        r@ == error_text(error_code, error_type_msg@, details@),
{
    proof {
        reveal_strlit(" ");
        reveal_strlit(": ");
    }
    let mut out = String::from_str(error_type_msg);
    out.append(" ");
    let number = decimal_string(error_code as u64);
    out.append(number.as_str());
    out.append(": ");
    out.append(details);
    assert(out@ =~= error_text(error_code, error_type_msg@, details@));
    out
}

/// The error of a path that is not written.
pub fn unimpl(details: String) -> (r: Error)
    ensures
        r@ == (ErrorView {
            kind: ErrorKind::Impl,
            details: details@,
            error_code: Some(code::server::UNIMPL_ERROR),
        }),
{
    Error::ImplError { details, error_code: Some(code::server::UNIMPL_ERROR) }
}

impl Error {
    /// The class of the error.
    pub fn kind(&self) -> (r: ErrorKind)
        ensures
            r == self@.kind,
    {
        match self {
            Error::ProtocolError { .. } => ErrorKind::Protocol,
            Error::LobbyError { .. } => ErrorKind::Lobby,
            Error::GameError { .. } => ErrorKind::Game,
            Error::ServerError { .. } => ErrorKind::Server,
            Error::ImplError { .. } => ErrorKind::Impl,
        }
    }

    /// The error as it reads in a log or in a reply.
    pub fn to_text(&self) -> (r: String)
        ensures
            r@ == self@.text(),
    {
        match self {
            Error::ProtocolError { details, error_code } => format_error(
                code_or(*error_code, code::protocol::PROTOCOL_ERROR),
                "Protocol error",
                details.as_str(),
            ),
            Error::ServerError { details, error_code } => format_error(
                code_or(*error_code, code::server::SERVER_ERROR),
                "Server error",
                details.as_str(),
            ),
            Error::ImplError { details, error_code } => format_error(
                code_or(*error_code, code::server::SERVER_ERROR),
                "Server implementation error",
                details.as_str(),
            ),
            Error::LobbyError { details, error_code } => format_error(
                code_or(*error_code, code::lobby::LOBBY_ERROR),
                "Lobby error",
                details.as_str(),
            ),
            Error::GameError { details, error_code } => format_error(
                code_or(*error_code, code::game::GAME_ERROR),
                "Game error",
                details.as_str(),
            ),
        }
    }
}

/// The code if there is one, else the fallback.
pub fn code_or(error_code: Option<u32>, fallback: u32) -> (r: u32)
    ensures
        r == match error_code {
            Some(c) => c,
            None => fallback,
        },
{
    match error_code {
        Some(c) => c,
        None => fallback,
    }
}

impl ResultMsg {
    /// The outcome of a request as it is handed to another part of the
    /// server: a failure reads as its text.
    pub fn from_result(value: Result<(), Error>) -> (r: ResultMsg)
        ensures
            r@ == match value {
                Ok(_) => Ok::<(), Seq<char>>(()),
                Err(e) => Err::<(), Seq<char>>(e@.text()),
            },
    {
        match value {
            Ok(_) => ResultMsg(Ok(())),
            Err(e) => ResultMsg(Err(e.to_text())),
        }
    }
}

} // verus!
