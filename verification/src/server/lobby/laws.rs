//! What holds of the lobby through everything that can happen to it.

use vstd::prelude::*;
use crate::server::actor_msg::RegisterUserMessageView;
use crate::server::game::InfoView;
use crate::server::lobby::{
    lemma_bound_keeps_index, lemma_same_index, lemma_unbound_keeps_index, LobbyView,
    SESSION_DURATION,
};

verus! {

/// One thing that can happen to the lobby.
pub enum LobbyEvent {
    /// A client logs in; the identifiers are those to use if the login takes
    /// up no session.
    Register { msg: RegisterUserMessageView, now: u64, new_user_uid: u128, new_session_uid: u128 },
    /// The sessions that have ended are forgotten.
    Sweep { now: u64 },
    /// A client opens its connection.
    Connect { client_id: u128 },
    /// A client goes.
    Disconnect { client_id: u128 },
    /// A game is listed.
    List { info: InfoView },
    /// A game closes.
    Close { game_id: u128 },
}

impl LobbyView {
    /// The lobby after the event.
    pub open spec fn after(self, event: LobbyEvent) -> LobbyView {
        match event {
            LobbyEvent::Register { msg, now, new_user_uid, new_session_uid } => self.registered(
                msg,
                now,
                new_user_uid,
                new_session_uid,
            ),
            LobbyEvent::Sweep { now } => self.swept(now),
            LobbyEvent::Connect { client_id } => LobbyView {
                clients: self.clients.insert(client_id),
                ..self
            },
            LobbyEvent::Disconnect { client_id } => self.without_client(client_id),
            LobbyEvent::List { info } => self.with_game(info),
            LobbyEvent::Close { game_id } => LobbyView {
                games: self.games.remove(game_id),
                ..self
            },
        }
    }

    /// The lobby after the events, one after the other.
    pub open spec fn after_all(self, events: Seq<LobbyEvent>) -> LobbyView
        decreases events.len(),
    {
        if events.len() == 0 {
            self
        } else {
            self.after(events[0]).after_all(events.drop_first())
        }
    }
}

/// An event leaves the lobby in good order: the two sides of its index
/// agree, and each game is listed under its own identifier.
pub proof fn lemma_event_keeps_order(l: LobbyView, event: LobbyEvent)
    requires
        l.wf(),
    ensures
        l.after(event).wf(),
{
    match event {
        LobbyEvent::Register { msg, now, new_user_uid, new_session_uid } => {
            let settled = l.with_session(
                msg.user_uid,
                msg.session_uid,
                now,
                new_user_uid,
                new_session_uid,
            );
            lemma_same_index(l, settled);
            lemma_bound_keeps_index(
                settled,
                l.session_for(msg.user_uid, msg.session_uid, new_user_uid, new_session_uid).0,
                msg.client_id,
            );
        },
        LobbyEvent::Sweep { now } => {
            lemma_same_index(l, l.swept(now));
        },
        LobbyEvent::Connect { client_id } => {
            lemma_same_index(l, l.after(event));
        },
        LobbyEvent::Disconnect { client_id } => {
            lemma_unbound_keeps_index(l, client_id);
        },
        LobbyEvent::List { info } => {},
        LobbyEvent::Close { game_id } => {},
    }
}

/// From its beginning, whatever happens to it, the lobby is in good order.
pub proof fn lemma_lobby_is_always_in_order(events: Seq<LobbyEvent>)
    ensures
        LobbyView::empty().after_all(events).wf(),
{
    lemma_events_keep_order(LobbyView::empty(), events);
}

/// Whatever happens to a lobby in good order, it stays in good order.
pub proof fn lemma_events_keep_order(l: LobbyView, events: Seq<LobbyEvent>)
    requires
        l.wf(),
    ensures
        l.after_all(events).wf(),
    decreases events.len(),
{
    if events.len() > 0 {
        lemma_event_keeps_order(l, events[0]);
        lemma_events_keep_order(l.after(events[0]), events.drop_first());
    }
}

/// In a lobby in good order a client is among the clients of one user at
/// most.
pub proof fn lemma_one_user_per_client(l: LobbyView, client_id: u128, a: u128, b: u128)
    requires
        l.wf(),
        l.clients_by_users.contains_key(a),
        l.clients_by_users[a].contains(client_id),
        l.clients_by_users.contains_key(b),
        l.clients_by_users[b].contains(client_id),
    ensures
        a == b,
{
}

/// A login that takes up a session is answered with the user and the session
/// that it named, and the session then ends later than it did before,
/// provided that the clock has moved on since the session was last used.
pub proof fn lemma_resume_renews(
    l: LobbyView,
    user_uid: u128,
    session_uid: u128,
    now: u64,
    new_user_uid: u128,
    new_session_uid: u128,
)
    requires
        l.resumes(Some(user_uid), Some(session_uid)),
        now + SESSION_DURATION <= u64::MAX,
        l.sessions[session_uid].1 < now + SESSION_DURATION,
    ensures
        l.session_for(Some(user_uid), Some(session_uid), new_user_uid, new_session_uid) == (
            user_uid,
            session_uid,
        ),
        l.with_session(
            Some(user_uid),
            Some(session_uid),
            now,
            new_user_uid,
            new_session_uid,
        ).sessions[session_uid] == (user_uid, (now + SESSION_DURATION) as u64),
        l.with_session(
            Some(user_uid),
            Some(session_uid),
            now,
            new_user_uid,
            new_session_uid,
        ).sessions[session_uid].1 > l.sessions[session_uid].1,
{
}

/// A session that was given or taken up at some time is there for every
/// login until its end has passed: sweeping at a time before its end keeps
/// it.
pub proof fn lemma_sweep_keeps_live_sessions(l: LobbyView, session_uid: u128, now: u64)
    requires
        l.sessions.contains_key(session_uid),
        l.sessions[session_uid].1 > now,
    ensures
        l.swept(now).sessions.contains_key(session_uid),
        l.swept(now).sessions[session_uid] == l.sessions[session_uid],
{
}


} // verus!
