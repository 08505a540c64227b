//! The page's side of the login.

use vstd::prelude::*;
use crate::client::app::login::{LoginInfo, LoginInfoView};
use crate::client::conn::handler::handshake::unreadable;
use crate::client::conn::handler::v1::running::RunningHandler;
use crate::client::conn::handler::Handler;
use crate::client::err::{Error, ErrorView};
use crate::protocol::v1::{
    LoginMessage, LoginMessageView, LoginResponseMessage, LoginResponseMessageView,
};

verus! {

/// The handler of the login.
#[derive(Clone, Copy, Debug, PartialEq, Eq, Structural)]
pub struct LoginHandler {}

/// The login message of a user.
pub open spec fn login_message(login: LoginInfoView) -> Result<LoginMessageView, ErrorView> {
    match login {
        LoginInfoView::Nobody => Err(ErrorView::ImplError { details: "Login withou login info"@ }),
        LoginInfoView::NewUser { username } => Ok(
            LoginMessageView { name: username, uid: None, session_uid: None },
        ),
        LoginInfoView::ExistingUser { username, user_uid, session_uid } => Ok(
            LoginMessageView { name: username, uid: user_uid, session_uid },
        ),
    }
}

/// The user as the server's answer names it.
pub open spec fn login_from_response(resp: LoginResponseMessageView) -> LoginInfoView {
    LoginInfoView::ExistingUser {
        username: resp.name,
        user_uid: Some(resp.user_uid),
        session_uid: Some(resp.session_uid),
    }
}

impl LoginHandler {
    /// The message that opens the login: the name of the user, with the
    /// identifier and the session that the browser has kept. Without a user
    /// there is no login.
    pub fn on_start(&self, login_info: LoginInfo) -> (r: Result<LoginMessage, Error>)
        ensures
            match r {
                Ok(m) => login_message(login_info@) == Ok::<LoginMessageView, ErrorView>(m@),
                Err(e) => login_message(login_info@) == Err::<LoginMessageView, ErrorView>(e@),
            },
    {
        match login_info {
            LoginInfo::Nobody => Err(
                Error::ImplError { details: String::from_str("Login withou login info") },
            ),
            LoginInfo::NewUser { username } => Ok(
                LoginMessage { name: username, uid: None, session_uid: None },
            ),
            LoginInfo::ExistingUser { username, user_uid, session_uid } => Ok(
                LoginMessage { name: username, uid: user_uid, session_uid },
            ),
        }
    }

    /// The server's answer to the login, or a frame that does not read as
    /// one. With the answer the page knows its user as the server names it,
    /// and the running phase is next.
    pub fn on_array_buf(&self, resp: Option<LoginResponseMessage>) -> (r: Result<
        (LoginInfo, Handler),
        Error,
    >)
        ensures
            match resp {
                Some(answer) => r is Ok && r->Ok_0.0@ == login_from_response(answer@) && r->Ok_0.1
                    == Handler::Running(RunningHandler::first()),
                None => r is Err && r->Err_0@ == unreadable(),
            },
    {
        match resp {
            Some(LoginResponseMessage { name, user_uid, session_uid }) => Ok(
                (
                    LoginInfo::ExistingUser {
                        username: name,
                        session_uid: Some(session_uid),
                        user_uid: Some(user_uid),
                    },
                    Handler::Running(RunningHandler::new()),
                ),
            ),
            None => Err(
                Error::ProtocolError {
                    details: String::from_str("Desserialisation error"),
                    should_reload: false,
                },
            ),
        }
    }
}

} // verus!
