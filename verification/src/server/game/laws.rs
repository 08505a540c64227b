//! What holds of a game room through everything that can happen to it.

use vstd::prelude::*;
use crate::rules::{Action, UserRole};
use crate::server::game::GameView;

verus! {

/// One thing that can happen to a room.
pub enum GameEvent {
    /// A client of a user comes in and the user is given a role.
    Join { user_uid: u128, username: Seq<char>, client_id: u128, seat: UserRole },
    /// A client goes.
    Quit { client_id: u128 },
    /// The game is opened.
    Open,
    /// An action that the rules accept is taken.
    Play { action: Action },
}

impl GameView {
    /// Whether the event can happen to the room: a newcomer is given a role
    /// that it may hold, and an action is taken only by a room that is open
    /// and not over.
    pub open spec fn allows(self, event: GameEvent) -> bool {
        match event {
            GameEvent::Join { user_uid, username, client_id, seat } => self.may_sit(user_uid, seat),
            GameEvent::Quit { client_id } => true,
            GameEvent::Open => true,
            GameEvent::Play { action } => self.takes_actions(),
        }
    }

    /// The room after the event.
    pub open spec fn after(self, event: GameEvent) -> GameView {
        match event {
            GameEvent::Join { user_uid, username, client_id, seat } => self.joined(
                user_uid,
                username,
                client_id,
                seat,
            ),
            GameEvent::Quit { client_id } => self.without_client(client_id),
            GameEvent::Open => self.opened(),
            GameEvent::Play { action } => self.played(action),
        }
    }

    /// Whether the events can happen to the room one after the other.
    pub open spec fn allows_all(self, events: Seq<GameEvent>) -> bool
        decreases events.len(),
    {
        events.len() > 0 ==> self.allows(events[0]) && self.after(events[0]).allows_all(
            events.drop_first(),
        )
    }

    /// The room after the events, one after the other.
    pub open spec fn after_all(self, events: Seq<GameEvent>) -> GameView
        decreases events.len(),
    {
        if events.len() == 0 {
            self
        } else {
            self.after(events[0]).after_all(events.drop_first())
        }
    }
}

/// The log of a room contains `Finished` after one more entry exactly if it
/// did before or the entry is `Finished`.
pub proof fn lemma_finished_after_push(moves: Seq<Action>, action: Action)
    ensures
        moves.push(action).contains(Action::Finished) <==> moves.contains(Action::Finished)
            || action == Action::Finished,
{
    let longer = moves.push(action);
    if moves.contains(Action::Finished) {
        let k = choose|k: int| 0 <= k < moves.len() && moves[k] == Action::Finished;
        assert(longer[k] == Action::Finished);
    }
    if action == Action::Finished {
        assert(longer[moves.len() as int] == Action::Finished);
    }
    if longer.contains(Action::Finished) {
        let k = choose|k: int| 0 <= k < longer.len() && longer[k] == Action::Finished;
        if k < moves.len() {
            assert(moves[k] == Action::Finished);
        }
    }
}

/// An event that can happen to a room in good order leaves it in good order:
/// every user of the index still has a client, all its clients are
/// subscribers, and the log still opens with `Init`.
pub proof fn lemma_event_keeps_order(g: GameView, event: GameEvent)
    requires
        g.wf(),
        g.allows(event),
    ensures
        g.after(event).wf(),
{
    let h = g.after(event);
    match event {
        GameEvent::Join { user_uid, username, client_id, seat } => {
            assert forall|u: u128| #[trigger] h.users.contains_key(u) implies (exists|c: u128|
                h.users[u].contains(c)) && h.users[u].subset_of(h.clients) by {
                if u == user_uid {
                    assert(h.users[u].contains(client_id));
                } else {
                    assert(g.users.contains_key(u));
                    let c = choose|c: u128| g.users[u].contains(c);
                    assert(h.users[u].contains(c));
                }
            }
        },
        GameEvent::Quit { client_id } => {
            assert forall|u: u128| #[trigger] h.users.contains_key(u) implies (exists|c: u128|
                h.users[u].contains(c)) && h.users[u].subset_of(h.clients) by {
                let rest = g.users[u].remove(client_id);
                assert(g.users.contains_key(u));
                assert(!g.leaves_with(client_id, u));
                assert(h.users[u] == rest);
                if forall|c: u128| !rest.contains(c) {
                    assert(rest =~= Set::<u128>::empty());
                }
                let c = choose|c: u128| rest.contains(c);
                assert(h.users[u].contains(c));
                assert forall|c: u128| rest.contains(c) implies h.clients.contains(c) by {
                    assert(g.users[u].contains(c));
                }
            }
        },
        GameEvent::Open => {
            lemma_finished_after_push(g.moves, Action::Init);
        },
        GameEvent::Play { action } => {
            lemma_finished_after_push(g.moves, action);
            assert(h.moves[0] == g.moves[0]);
        },
    }
}

/// Whatever happens to a room in good order, it stays in good order. In
/// particular, at all times every user of the index has at least one client,
/// each of its clients is a subscriber, and a log that holds anything opens
/// with `Init`.
pub proof fn lemma_events_keep_order(g: GameView, events: Seq<GameEvent>)
    requires
        g.wf(),
        g.allows_all(events),
    ensures
        g.after_all(events).wf(),
        g.after_all(events).users_are_present(),
        g.after_all(events).log_opens_with_init(),
    decreases events.len(),
{
    if events.len() > 0 {
        lemma_event_keeps_order(g, events[0]);
        lemma_events_keep_order(g.after(events[0]), events.drop_first());
    }
}

/// From the moment it is made, whatever happens to it, a room is in good
/// order: every user of its index has at least one client, each of these
/// clients is a subscriber, and its log, if it holds anything, opens with
/// `Init`.
pub proof fn lemma_rooms_are_always_in_order(
    id: u128,
    name: Seq<char>,
    timeout: u64,
    events: Seq<GameEvent>,
    user_uid: u128,
)
    requires
        GameView::fresh(id, name, timeout).allows_all(events),
    ensures
        GameView::fresh(id, name, timeout).after_all(events).wf(),
        GameView::fresh(id, name, timeout).after_all(events).users.contains_key(user_uid) ==> {
            let g = GameView::fresh(id, name, timeout).after_all(events);
            &&& g.users[user_uid] != Set::<u128>::empty()
            &&& g.users[user_uid].subset_of(g.clients)
        },
        GameView::fresh(id, name, timeout).after_all(events).moves.len() >= 1 ==> GameView::fresh(
            id,
            name,
            timeout,
        ).after_all(events).moves[0] == Action::Init,
{
    lemma_fresh_is_in_order(id, name, timeout);
    lemma_events_keep_order(GameView::fresh(id, name, timeout), events);
    let g = GameView::fresh(id, name, timeout).after_all(events);
    if g.users.contains_key(user_uid) {
        let c = choose|c: u128| g.users[user_uid].contains(c);
        assert(g.users[user_uid].contains(c));
        assert(!Set::<u128>::empty().contains(c));
    }
}

/// A room that nobody has entered yet is in good order.
pub proof fn lemma_fresh_is_in_order(id: u128, name: Seq<char>, timeout: u64)
    ensures
        GameView::fresh(id, name, timeout).wf(),
{
}

/// An event leaves a taken seat with the user who holds it.
pub proof fn lemma_event_keeps_seats(g: GameView, event: GameEvent)
    requires
        g.wf(),
        g.allows(event),
    ensures
        g.seat_1_user_uid is Some ==> g.after(event).seat_1_user_uid == g.seat_1_user_uid,
        g.seat_2_user_uid is Some ==> g.after(event).seat_2_user_uid == g.seat_2_user_uid,
{
}

/// Seat stability. Once a user holds a seat, it holds that seat whatever
/// happens to the room afterwards, and a later join of that user, from any
/// client, is given that seat and no other role.
pub proof fn lemma_seat_is_stable(
    g: GameView,
    events: Seq<GameEvent>,
    user_uid: u128,
    seat: UserRole,
)
    requires
        g.wf(),
        g.allows_all(events),
        seat != UserRole::Observer,
        g.role_of(user_uid) == seat,
    ensures
        g.after_all(events).role_of(user_uid) == seat,
        forall|again: UserRole| #[trigger]
            g.after_all(events).may_sit(user_uid, again) ==> again == seat,
    decreases events.len(),
{
    if events.len() > 0 {
        lemma_event_keeps_order(g, events[0]);
        lemma_event_keeps_seats(g, events[0]);
        lemma_seat_is_stable(g.after(events[0]), events.drop_first(), user_uid, seat);
    }
}

/// An event only adds to the end of the log: what was logged stays, in its
/// place.
pub proof fn lemma_log_only_grows(g: GameView, event: GameEvent)
    ensures
        g.moves.is_prefix_of(g.after(event).moves),
{
    let h = g.after(event);
    match event {
        GameEvent::Open => {
            assert(g.moves =~= h.moves.subrange(0, g.moves.len() as int));
        },
        GameEvent::Play { action } => {
            assert(g.moves =~= h.moves.subrange(0, g.moves.len() as int));
        },
        _ => {
            assert(g.moves =~= h.moves.subrange(0, g.moves.len() as int));
        },
    }
}

/// A room that is over is listed as finished, and refuses every action.
pub proof fn lemma_finished_room(g: GameView, action: Action)
    requires
        g.finished,
    ensures
        g.info().status == crate::server::game::Status::Finished,
        !g.allows(GameEvent::Play { action }),
        g.answer(crate::server::actor_msg::GameActionResponse::Accepted)
            != crate::server::actor_msg::GameActionResponse::Accepted,
{
}

} // verus!
