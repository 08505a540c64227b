//! The connection to the server: how long to wait before trying again, and
//! what to make of a text frame.

use vstd::prelude::*;
use crate::client::err::{Error, ErrorView};
use crate::protocol::error::ErrorMessage;
use crate::text::text_of;
use crate::text::{
    contains_text, holds_text, is_u16_text, parse_u16, same_text, trim_end, trim_start,
    trimmed_end, trimmed_start,
};

pub mod handler;
pub mod loader;

verus! {

/// The wait before the first attempt to connect again, in milliseconds.
pub const FIRST_RECONNECT_WAIT: u64 = 5_000;

/// The longest wait before an attempt to connect again, in milliseconds.
pub const LONGEST_RECONNECT_WAIT: u64 = 29_000;

/// The wait before the next attempt to connect again, after one that was due
/// after `current`: one second more, up to 29 seconds.
pub fn next_reconnect_wait(current: u64) -> (r: u64)
    ensures
        r == if current + 1_000 < LONGEST_RECONNECT_WAIT {
            current + 1_000
        } else {
            LONGEST_RECONNECT_WAIT as int
        },
{
    if current < LONGEST_RECONNECT_WAIT - 1_000 {
        current + 1_000
    } else {
        LONGEST_RECONNECT_WAIT
    }
}

/// What is shown while waiting to connect again: the whole seconds of the
/// wait, and an `s`.
pub fn wait_label(wait: u64) -> (r: String)
    ensures
        r@ == crate::text::decimal((wait / 1_000) as nat) + "s"@,
{
    let mut out = crate::text::decimal_string(wait / 1_000);
    out.append("s");
    out
}

/// What to do at a tick of the clock while waiting to connect again.
#[derive(Clone, Debug, PartialEq, Eq)]
pub enum ReconnectTick {
    /// The wait is over: connect.
    Connect,
    /// Show the time that is left.
    Show(String),
}

/// What to do at a tick of the clock while waiting to connect again, when
/// `elapsed` of the `wait` has passed: connect once the wait is over; before
/// that, show the seconds that are left, rounded up.
pub fn reconnect_tick(wait: u64, elapsed: u64) -> (r: ReconnectTick)
    ensures
        match r {
            ReconnectTick::Connect => wait <= elapsed,
            ReconnectTick::Show(label) => wait > elapsed && label@ == crate::text::decimal(
                ((wait - elapsed) / 1_000 + 1) as nat,
            ) + "s"@,
        },
{
    if wait <= elapsed {
        ReconnectTick::Connect
    } else {
        let time_left = wait - elapsed;
        let mut label = crate::text::decimal_string(time_left / 1_000 + 1);
        label.append("s");
        ReconnectTick::Show(label)
    }
}

/// The address of the server's socket. Unless told otherwise it is on the
/// host of the page, in the folder of the application, secure if the page
/// is. An override with a scheme is the whole address; one that is a port
/// is that port on the page's host; any other is the host.
pub open spec fn ws_address(
    is_https: bool,
    host: Seq<char>,
    hostname: Seq<char>,
    server_override: Option<Seq<char>>,
    subfolder: Option<Seq<char>>,
) -> Seq<char> {
    let scheme = if is_https {
        "wss://"@
    } else {
        "ws://"@
    };
    let folder = match subfolder {
        Some(f) => trimmed_start(f, '/'),
        None => ""@,
    };
    match server_override {
        None => scheme + host + "/"@ + folder,
        Some(value) => if holds_text(value, "://"@) {
            trimmed_end(value, '/') + "/"@
        } else if is_u16_text(value) {
            scheme + trimmed_end(hostname, '/') + ":"@ + value + "/"@ + folder
        } else {
            scheme + trimmed_end(value, '/') + "/"@ + folder
        },
    }
}

/// The address of the server's socket.
pub fn get_ws_address(
    is_https: bool,
    host: &str,
    hostname: &str,
    server_override: Option<String>,
    subfolder: Option<String>,
) -> (r: String)
    ensures
        r@ == ws_address(is_https, host@, hostname@, text_of(server_override), text_of(subfolder)),
{
    let scheme = if is_https {
        "wss://"
    } else {
        "ws://"
    };
    let folder = match subfolder {
        Some(f) => trim_start(f.as_str(), '/'),
        None => String::from_str(""),
    };
    let mut out;
    match server_override {
        None => {
            out = String::from_str(scheme);
            out.append(host);
            out.append("/");
            out.append(folder.as_str());
        },
        Some(override_value) => {
            if contains_text(override_value.as_str(), "://") {
                out = trim_end(override_value.as_str(), '/');
                out.append("/");
            } else if parse_u16(override_value.as_str()).is_ok() {
                out = String::from_str(scheme);
                let domain = trim_end(hostname, '/');
                out.append(domain.as_str());
                out.append(":");
                out.append(override_value.as_str());
                out.append("/");
                out.append(folder.as_str());
            } else {
                out = String::from_str(scheme);
                let domain = trim_end(override_value.as_str(), '/');
                out.append(domain.as_str());
                out.append("/");
                out.append(folder.as_str());
            }
        },
    }
    proof {
        reveal_strlit("");
        assert(out@ =~= ws_address(
            is_https,
            host@,
            hostname@,
            text_of(server_override),
            text_of(subfolder),
        ));
    }
    out
}

/// What a text frame from the server is.
#[derive(Clone, Debug, PartialEq, Eq)]
pub enum TextMessage {
    /// The token `ping`: it is answered with `pong`.
    Ping,
    /// The token `pong`: nothing to do.
    Pong,
    /// An error report: the page shows it.
    Failure(Error),
    /// Anything else: it is for the handler of the current phase.
    Other,
}

pub enum TextMessageView {
    Ping,
    Pong,
    Failure(ErrorView),
    Other,
}

impl View for TextMessage {
    type V = TextMessageView;

    open spec fn view(&self) -> TextMessageView {
        match self {
            TextMessage::Ping => TextMessageView::Ping,
            TextMessage::Pong => TextMessageView::Pong,
            TextMessage::Failure(e) => TextMessageView::Failure(e@),
            TextMessage::Other => TextMessageView::Other,
        }
    }
}

/// What a text frame from the server is. The tokens come first; then a text
/// that reads as an error report is one; the rest is for the handler.
pub open spec fn classified(txt: Seq<char>, as_error: Option<ErrorMessage>) -> TextMessageView {
    if txt == "ping"@ {
        TextMessageView::Ping
    } else if txt == "pong"@ {
        TextMessageView::Pong
    } else {
        match as_error {
            Some(resp) => TextMessageView::Failure(
                ErrorView::ProtocolError {
                    details: resp@.error_description,
                    should_reload: resp@.should_reload,
                },
            ),
            None => TextMessageView::Other,
        }
    }
}

/// What a text frame from the server is.
pub fn classify_text(txt: &str, as_error: Option<ErrorMessage>) -> (r: TextMessage)
    ensures
        r@ == classified(txt@, as_error),
{
    if same_text(txt, "ping") {
        TextMessage::Ping
    } else if same_text(txt, "pong") {
        TextMessage::Pong
    } else {
        match as_error {
            Some(resp) => TextMessage::Failure(
                Error::ProtocolError {
                    details: resp.error_description,
                    should_reload: resp.should_reload,
                },
            ),
            None => TextMessage::Other,
        }
    }
}

} // verus!
