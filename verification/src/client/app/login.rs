//! Who the page's user is, and what the browser keeps of it between visits.

use vstd::prelude::*;
use crate::text::text_of;

verus! {

/// What the page knows of its user.
#[derive(Clone, Debug, PartialEq, Eq)]
pub enum LoginInfo {
    Nobody,
    NewUser { username: String },
    ExistingUser { username: String, user_uid: Option<String>, session_uid: Option<String> },
}

pub enum LoginInfoView {
    Nobody,
    NewUser { username: Seq<char> },
    ExistingUser {
        username: Seq<char>,
        user_uid: Option<Seq<char>>,
        session_uid: Option<Seq<char>>,
    },
}

impl View for LoginInfo {
    type V = LoginInfoView;

    open spec fn view(&self) -> LoginInfoView {
        match self {
            LoginInfo::Nobody => LoginInfoView::Nobody,
            LoginInfo::NewUser { username } => LoginInfoView::NewUser { username: username@ },
            LoginInfo::ExistingUser { username, user_uid, session_uid } => {
                LoginInfoView::ExistingUser {
                    username: username@,
                    user_uid: text_of(*user_uid),
                    session_uid: text_of(*session_uid),
                }
            },
        }
    }
}

/// What the browser keeps of the user between visits: the value under each
/// of the three keys, or nothing under it.
#[derive(Clone, Debug, PartialEq, Eq)]
pub struct StoredLogin {
    pub username: Option<String>,
    pub user_uid: Option<String>,
    pub session_uid: Option<String>,
}

pub struct StoredLoginView {
    pub username: Option<Seq<char>>,
    pub user_uid: Option<Seq<char>>,
    pub session_uid: Option<Seq<char>>,
}

impl View for StoredLogin {
    type V = StoredLoginView;

    open spec fn view(&self) -> StoredLoginView {
        StoredLoginView {
            username: text_of(self.username),
            user_uid: text_of(self.user_uid),
            session_uid: text_of(self.session_uid),
        }
    }
}

/// A stored value counts if it is there and not empty.
pub open spec fn kept(value: Option<Seq<char>>) -> Option<Seq<char>> {
    match value {
        Some(v) => if v.len() > 0 {
            Some(v)
        } else {
            None
        },
        None => None,
    }
}

impl LoginInfoView {
    /// What is kept of the user between visits.
    pub open spec fn stored(self) -> StoredLoginView {
        match self {
            LoginInfoView::Nobody => StoredLoginView {
                username: None,
                user_uid: None,
                session_uid: None,
            },
            LoginInfoView::NewUser { username } => StoredLoginView {
                username: Some(username),
                user_uid: None,
                session_uid: None,
            },
            LoginInfoView::ExistingUser { username, user_uid, session_uid } => StoredLoginView {
                username: Some(username),
                user_uid,
                session_uid,
            },
        }
    }

    /// The user that the kept values stand for. Without a name there is
    /// none. A name alone is a new user. A name with an identifier or a
    /// session is a user that was here before.
    pub open spec fn loaded(stored: StoredLoginView) -> LoginInfoView {
        match kept(stored.username) {
            None => LoginInfoView::Nobody,
            Some(username) => if kept(stored.session_uid) is None && kept(stored.user_uid)
                is None {
                LoginInfoView::NewUser { username }
            } else {
                LoginInfoView::ExistingUser {
                    username,
                    user_uid: kept(stored.user_uid),
                    session_uid: kept(stored.session_uid),
                }
            },
        }
    }

    /// Whether nothing that is kept of the user is empty.
    pub open spec fn is_plain(self) -> bool {
        match self {
            LoginInfoView::Nobody => true,
            LoginInfoView::NewUser { username } => username.len() > 0,
            LoginInfoView::ExistingUser { username, user_uid, session_uid } => username.len() > 0
                && (user_uid is Some || session_uid is Some) && kept(user_uid) == user_uid && kept(
                session_uid,
            ) == session_uid,
        }
    }
}

/// What is kept of a user and loaded again is the same user, as long as
/// nothing that is kept of it is empty.
pub proof fn lemma_stored_login_round_trip(login: LoginInfoView)
    requires
        login.is_plain(),
    ensures
        LoginInfoView::loaded(login.stored()) == login,
{
}

/// A copy of a stored value, if it counts.
fn keep(value: &Option<String>) -> (r: Option<String>)
    ensures
        text_of(r) == kept(text_of(*value)),
{
    match value {
        Some(v) => if v.as_str().unicode_len() > 0 {
            Some(v.clone())
        } else {
            None
        },
        None => None,
    }
}

impl LoginInfo {
    /// Whether nothing is known of the user.
    pub fn is_none(&self) -> (r: bool)
        ensures
            r == (self@ == LoginInfoView::Nobody),
    {
        matches!(self, LoginInfo::Nobody)
    }

    /// What to keep of the user between visits.
    pub fn save(&self) -> (r: StoredLogin)
        ensures
            r@ == self@.stored(),
    {
        match self {
            LoginInfo::Nobody => StoredLogin { username: None, user_uid: None, session_uid: None },
            LoginInfo::NewUser { username } => StoredLogin {
                username: Some(username.clone()),
                user_uid: None,
                session_uid: None,
            },
            LoginInfo::ExistingUser { username, user_uid, session_uid } => StoredLogin {
                username: Some(username.clone()),
                user_uid: crate::text::copy_text(user_uid),
                session_uid: crate::text::copy_text(session_uid),
            },
        }
    }

    /// The user that the kept values stand for.
    pub fn load(stored: &StoredLogin) -> (r: LoginInfo)
        ensures
            r@ == LoginInfoView::loaded(stored@),
    {
        let username = match keep(&stored.username) {
            Some(value) => value,
            None => {
                return LoginInfo::Nobody;
            },
        };
        let user_uid = keep(&stored.user_uid);
        let session_uid = keep(&stored.session_uid);
        if session_uid.is_none() && user_uid.is_none() {
            LoginInfo::NewUser { username }
        } else {
            LoginInfo::ExistingUser { username, user_uid, session_uid }
        }
    }
}

} // verus!
