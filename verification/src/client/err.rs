//! What can go wrong on the browser's side, and what the user is told.

use vstd::prelude::*;

verus! {

/// A failure on the browser's side.
#[derive(Clone, Debug, PartialEq, Eq)]
pub enum Error {
    /// The server and the page do not understand each other.
    ProtocolError { details: String, should_reload: bool },
    /// The connection to the server failed.
    ConnectionError { details: String },
    /// The page is at fault.
    ImplError { details: String },
}

pub enum ErrorView {
    ProtocolError { details: Seq<char>, should_reload: bool },
    ConnectionError { details: Seq<char> },
    ImplError { details: Seq<char> },
}

impl View for Error {
    type V = ErrorView;

    open spec fn view(&self) -> ErrorView {
        match self {
            Error::ProtocolError { details, should_reload } => ErrorView::ProtocolError {
                details: details@,
                should_reload: *should_reload,
            },
            Error::ConnectionError { details } => ErrorView::ConnectionError { details: details@ },
            Error::ImplError { details } => ErrorView::ImplError { details: details@ },
        }
    }
}

impl ErrorView {
    /// What the user is told of the failure. The details are not for the
    /// user.
    pub open spec fn text(self) -> Seq<char> {
        match self {
            ErrorView::ProtocolError { details, should_reload } => if should_reload {
                "Communicaton with the server failed. Please reload the page cleaning your cache"@
            } else {
                "Communicaton with the server failed"@
            },
            ErrorView::ConnectionError { details } => "Communicaton with the server failed"@,
            ErrorView::ImplError { details } => "Fatal internal error"@,
        }
    }

    /// The details of the failure.
    pub open spec fn details(self) -> Seq<char> {
        match self {
            ErrorView::ProtocolError { details, should_reload } => details,
            ErrorView::ConnectionError { details } => details,
            ErrorView::ImplError { details } => details,
        }
    }
}

impl Error {
    /// What the user is told of the failure.
    pub fn to_text(&self) -> (r: String)
        ensures
            r@ == self@.text(),
    {
        match self {
            Error::ProtocolError { details, should_reload } => {
                if *should_reload {
                    String::from_str(
                        "Communicaton with the server failed. Please reload the page cleaning your cache",
                    )
                } else {
                    String::from_str("Communicaton with the server failed")
                }
            },
            Error::ConnectionError { details } => String::from_str(
                "Communicaton with the server failed",
            ),
            Error::ImplError { details } => String::from_str("Fatal internal error"),
        }
    }

    /// The details of the failure, for the console.
    pub fn details(&self) -> (r: &String)
        ensures
            r@ == self@.details(),
    {
        match self {
            Error::ProtocolError { details, .. } => details,
            Error::ConnectionError { details } => details,
            Error::ImplError { details } => details,
        }
    }
}

/// The text to show in the page's error section for a failure.
pub fn render_error(e: &Error) -> (r: String)
    ensures
        r@ == e@.text(),
{
    e.to_text()
}

/// The text to show in the page's error section when the page has given up:
/// with the reason where there is one.
pub fn panic_text(reason: Option<&str>) -> (r: String)
    ensures
        r@ == match reason {
            Some(error_str) => "Erreur fatale: "@ + error_str@,
            None => "Une erreur fatale est survenue"@,
        },
{
    match reason {
        Some(error_str) => {
            let mut out = String::from_str("Erreur fatale: ");
            out.append(error_str);
            out
        },
        None => String::from_str("Une erreur fatale est survenue"),
    }
}

} // verus!
