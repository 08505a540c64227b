//! The identity bound to a connection once it has logged in.

use vstd::prelude::*;

verus! {

/// A logged-in user: the name it chose, and the identifiers the lobby gave
/// it.
#[derive(Clone, Debug, PartialEq, Eq)]
pub struct User {
    pub name: String,
    pub session_uid: u128,
    pub uid: u128,
}

pub struct UserView {
    pub name: Seq<char>,
    pub session_uid: u128,
    pub uid: u128,
}

impl View for User {
    type V = UserView;

    open spec fn view(&self) -> UserView {
        UserView { name: self.name@, session_uid: self.session_uid, uid: self.uid }
    }
}

} // verus!
