//! What holds of a client through everything that can happen to it.

use vstd::prelude::*;
use crate::protocol::error::code;
use crate::protocol::v1::LoginMessageView;
use crate::server::actor_msg::{
    GameCreatedView, GameJoinedView, GameMessageView, LobbyMessageView, MailboxError,
    RegisterUserResponseView,
};
use crate::protocol::v1::GameStatus;
use crate::rules::UserRole;
use crate::server::client::v1::{projected_status, registration};
use crate::server::game::GameView;
use crate::server::client::{
    already_joined, mailbox_error, unexpected_bin, unexpected_text, BinaryFrameView,
    ClientStatus, ClientView, EffectView, ForwardView, FrameView, TextFrameView,
};
use crate::server::error::{ErrorKind, ErrorView};
use crate::server::game::InfoView;
use crate::server::lobby::LobbyView;
use crate::uid::{uid_parse, uid_text};

verus! {

/// One thing that can happen to a client.
pub enum ClientEvent {
    /// A frame comes from the peer.
    Frame { frame: FrameView, now: u64 },
    /// The lobby answers a login. This happens in the login phase only.
    Registered { res: Result<RegisterUserResponseView, MailboxError> },
    /// The lobby answers a request for its list.
    Listed { protocol: u32, res: Result<Seq<InfoView>, MailboxError> },
    /// The lobby answers a request for a new game.
    Created { protocol: u32, request_uid: Seq<char>, res: Result<GameCreatedView, MailboxError> },
    /// A game answers a request to join it.
    Joined { protocol: u32, game_id: u128, res: Result<GameJoinedView, MailboxError> },
    /// An answer that only leads to a request, to a message for the peer or
    /// to an error of the given kind: where a game is, what a game says of
    /// an action, a message that cannot be written.
    Passed { failure: Option<ErrorView> },
    /// News comes from the lobby.
    LobbyNews { msg: LobbyMessageView },
    /// News comes from a game.
    GameNews { msg: GameMessageView },
}

impl ClientView {
    /// Whether the event can happen to the client.
    pub open spec fn allows(self, event: ClientEvent) -> bool {
        match event {
            ClientEvent::Registered { res } => self.status == ClientStatus::Login,
            _ => true,
        }
    }

    /// The client after the event.
    pub open spec fn after(self, event: ClientEvent) -> ClientView {
        match event {
            ClientEvent::Frame { frame, now } => self.frame(frame, now).client,
            ClientEvent::Registered { res } => match res {
                Ok(answer) => self.logged_in(answer),
                Err(e) => self.after_error(mailbox_error("lobby"@)),
            },
            ClientEvent::Listed { protocol, res } => self.answer(
                match res {
                    Ok(list) => self.forward_with_protocol(protocol, ForwardView::List(list)),
                    Err(e) => Err(mailbox_error("lobby"@)),
                },
            ).settled().client,
            ClientEvent::Created { protocol, request_uid, res } => (match res {
                Ok(created) => self.game_created(protocol, created, request_uid),
                Err(e) => self.answer(Err(mailbox_error("lobby"@))),
            }).settled().client,
            ClientEvent::Joined { protocol, game_id, res } => (match res {
                Ok(joined) => self.game_joined(protocol, game_id, joined),
                Err(e) => self.answer(Err(mailbox_error("game"@))),
            }).settled().client,
            ClientEvent::Passed { failure } => match failure {
                Some(e) => self.after_error(e),
                None => self,
            },
            ClientEvent::LobbyNews { msg } => self.lobby_message(msg).client,
            ClientEvent::GameNews { msg } => self.game_message(msg).client,
        }
    }

    /// Whether the events can happen to the client one after the other.
    pub open spec fn allows_all(self, events: Seq<ClientEvent>) -> bool
        decreases events.len(),
    {
        events.len() > 0 ==> self.allows(events[0]) && self.after(events[0]).allows_all(
            events.drop_first(),
        )
    }

    /// The client after the events, one after the other.
    pub open spec fn after_all(self, events: Seq<ClientEvent>) -> ClientView
        decreases events.len(),
    {
        if events.len() == 0 {
            self
        } else {
            self.after(events[0]).after_all(events.drop_first())
        }
    }
}

/// An event leaves a client in good order.
pub proof fn lemma_event_keeps_order(c: ClientView, event: ClientEvent)
    requires
        c.wf(),
        c.allows(event),
    ensures
        c.after(event).wf(),
{
    match event {
        ClientEvent::Frame { frame, now } => {
            lemma_frame_keeps_order(c, frame, now);
        },
        _ => {},
    }
}

/// From the moment its connection is opened, whatever happens to it, a
/// client that is in the running phase has a user and a protocol.
pub proof fn lemma_running_is_always_bound(id: u128, now: u64, events: Seq<ClientEvent>)
    requires
        ClientView::fresh(id, now).allows_all(events),
    ensures
        ClientView::fresh(id, now).after_all(events).wf(),
        ClientView::fresh(id, now).after_all(events).status == ClientStatus::Running
            ==> ClientView::fresh(id, now).after_all(events).user_info is Some
            && ClientView::fresh(id, now).after_all(events).protocol_version is Some,
{
    lemma_events_keep_order(ClientView::fresh(id, now), events);
}

/// Whatever happens to a client in good order, it stays in good order.
pub proof fn lemma_events_keep_order(c: ClientView, events: Seq<ClientEvent>)
    requires
        c.wf(),
        c.allows_all(events),
    ensures
        c.after_all(events).wf(),
    decreases events.len(),
{
    if events.len() > 0 {
        lemma_event_keeps_order(c, events[0]);
        lemma_events_keep_order(c.after(events[0]), events.drop_first());
    }
}

/// A running client has a user and a protocol.
pub proof fn lemma_running_client_is_bound(c: ClientView)
    requires
        c.wf(),
        c.status == ClientStatus::Running,
    ensures
        c.user_info is Some,
        c.protocol_version is Some,
{
}

/// A client is in good order when its connection is opened.
pub proof fn lemma_fresh_client(id: u128, now: u64)
    ensures
        ClientView::fresh(id, now).wf(),
        ClientView::fresh(id, now).status == ClientStatus::Handshake,
{
}

/// Reporting an error leaves a client in good order. A protocol error
/// throws it back to the handshake, without protocol and without games; any
/// other error leaves it as it is.
pub proof fn lemma_error_keeps_order(c: ClientView, error: ErrorView)
    requires
        c.wf(),
    ensures
        c.after_error(error).wf(),
        error.kind == ErrorKind::Protocol ==> c.after_error(error).status
            == ClientStatus::Handshake && c.after_error(error).protocol_version is None
            && c.after_error(error).games == Set::<u128>::empty(),
        error.kind != ErrorKind::Protocol ==> c.after_error(error) == c,
        error.report().should_handshake == (error.kind == ErrorKind::Protocol),
{
}

/// Whatever frame comes from the peer, a client in good order stays in good
/// order: a client that is running afterwards has a user and a protocol.
pub proof fn lemma_frame_keeps_order(c: ClientView, frame: FrameView, now: u64)
    requires
        c.wf(),
    ensures
        c.frame(frame, now).client.wf(),
        c.frame(frame, now).client.heart_beat == now,
{
    let alive = c.alive_at(now);
    match frame {
        FrameView::Text(text) => {
            let o = alive.txt_message(text.hello);
            assert(o.client.wf());
        },
        FrameView::Binary(bin) => {},
        _ => {},
    }
}

/// A client that the lobby gives an identity during its login is running,
/// in good order, under that identity.
pub proof fn lemma_login_binds_user(c: ClientView, res: RegisterUserResponseView)
    requires
        c.wf(),
        c.status == ClientStatus::Login,
    ensures
        c.logged_in(res).wf(),
        c.logged_in(res).status == ClientStatus::Running,
        c.logged_in(res).user_info.unwrap().uid == res.user_uid,
        c.logged_in(res).user_info.unwrap().session_uid == res.session_uid,
        c.logged_in(res).user_info.unwrap().name == res.name,
{
}

/// A binary frame during the handshake is a protocol error with the code of
/// an unexpected binary frame, and the client stays in the handshake, without
/// protocol and without games.
pub proof fn lemma_binary_in_handshake(c: ClientView, bin: BinaryFrameView, now: u64)
    requires
        c.status == ClientStatus::Handshake,
    ensures
        c.frame(FrameView::Binary(bin), now).effects == seq![
            EffectView::Error(unexpected_bin().report()),
        ],
        unexpected_bin().report().error_code == Some(code::protocol::UNEXPECTED_BIN),
        unexpected_bin().report().should_handshake,
        c.frame(FrameView::Binary(bin), now).client == c.alive_at(now).reset(),
        c.frame(FrameView::Binary(bin), now).client.status == ClientStatus::Handshake,
{
}

/// After the handshake, under protocol 1, a text frame that is neither
/// `ping` nor `pong` nor a disconnect message is a protocol error with the
/// code of an unexpected text, and throws the client back to the handshake.
pub proof fn lemma_text_after_handshake(c: ClientView, text: TextFrameView, now: u64)
    requires
        c.status != ClientStatus::Handshake,
        c.protocol_version == Some(1u32),
        text.text != "ping"@,
        text.text != "pong"@,
        text.disconnect is None,
    ensures
        c.frame(FrameView::Text(text), now).effects == seq![
            EffectView::Error(unexpected_text().report()),
        ],
        unexpected_text().report().error_code == Some(code::protocol::UNEXPECTED_STRING),
        unexpected_text().report().should_handshake,
        c.frame(FrameView::Text(text), now).client.status == ClientStatus::Handshake,
{
}

/// The tokens `ping` and `pong` prove that the peer is alive and change
/// nothing else, in any phase.
pub proof fn lemma_tokens_only_prove_life(c: ClientView, text: TextFrameView, now: u64)
    requires
        text.text == "ping"@ || text.text == "pong"@,
    ensures
        c.frame(FrameView::Text(text), now).client == c.alive_at(now),
{
}

/// A client that has joined a game and asks to join it again is refused with
/// the error of a game already joined, and stays as it is.
pub proof fn lemma_second_join_is_refused(
    c: ClientView,
    protocol: u32,
    game_id: u128,
    joined: GameJoinedView,
)
    requires
        c.wf(),
        c.status == ClientStatus::Running,
    ensures
        c.game_joined(protocol, game_id, joined).client.join_game(game_id) == Err::<
            Seq<EffectView>,
            ErrorView,
        >(already_joined()),
        already_joined().error_code == Some(code::lobby::GAME_ALREADY_JOINED),
        already_joined().kind == ErrorKind::Lobby,
{
}

/// A game that its creator has just entered reads, in the lobby's list, as
/// one to come back to for the creator and as one to join for everyone
/// else.
pub proof fn lemma_new_game_is_joinable(
    id: u128,
    name: Seq<char>,
    timeout: u64,
    creator: u128,
    creator_name: Seq<char>,
    client_id: u128,
    seat: UserRole,
    reader: u128,
)
    requires
        GameView::fresh(id, name, timeout).may_sit(creator, seat),
    ensures
        seat != UserRole::Observer,
        projected_status(
            creator,
            GameView::fresh(id, name, timeout).joined(creator, creator_name, client_id, seat).info(),
        ) == GameStatus::Rejoinable,
        reader != creator ==> projected_status(
            reader,
            GameView::fresh(id, name, timeout).joined(creator, creator_name, client_id, seat).info(),
        ) == GameStatus::Joinable,
{
    let g = GameView::fresh(id, name, timeout);
    assert(g.empty_seats() =~= seq![UserRole::Seat1, UserRole::Seat2]);
    assert(g.empty_seats().contains(seat));
}

/// The second user to enter a game takes the seat that is left, and the
/// game is then due to be opened; it reads as full for everyone else.
pub proof fn lemma_second_user_fills_the_game(
    g: GameView,
    first: u128,
    second: u128,
    second_name: Seq<char>,
    client_id: u128,
    seat: UserRole,
    reader: u128,
)
    requires
        g.wf(),
        !g.inited,
        g.role_of(first) != UserRole::Observer,
        g.empty_seats().len() == 1,
        second != first,
        g.may_sit(second, seat),
    ensures
        seat != UserRole::Observer,
        seat != g.role_of(first),
        g.joined(second, second_name, client_id, seat).init_is_due(),
        reader != first && reader != second ==> projected_status(
            reader,
            g.joined(second, second_name, client_id, seat).info(),
        ) == GameStatus::Full,
{
    assert(g.empty_seats().contains(seat));
    let k = choose|k: int| 0 <= k < g.empty_seats().len() && g.empty_seats()[k] == seat;
    assert(g.empty_seats()[k] == seat);
}

/// A peer that logs in with the identifiers that the server has sent it
/// takes up its session: where the session is still known, the lobby answers
/// with the same user and the same session. The identifiers travel as
/// texts; the claim rests on the parser reading back what was written.
pub proof fn lemma_resume_over_the_wire(
    l: LobbyView,
    user_uid: u128,
    session_uid: u128,
    name: Seq<char>,
    client_id: u128,
    new_user_uid: u128,
    new_session_uid: u128,
)
    requires
        l.resumes(Some(user_uid), Some(session_uid)),
        uid_parse(uid_text(user_uid)) == Some(user_uid),
        uid_parse(uid_text(session_uid)) == Some(session_uid),
    ensures
        l.registered_reply(
            registration(
                LoginMessageView {
                    name,
                    uid: Some(uid_text(user_uid)),
                    session_uid: Some(uid_text(session_uid)),
                },
                client_id,
            ),
            new_user_uid,
            new_session_uid,
        ).user_uid == user_uid,
        l.registered_reply(
            registration(
                LoginMessageView {
                    name,
                    uid: Some(uid_text(user_uid)),
                    session_uid: Some(uid_text(session_uid)),
                },
                client_id,
            ),
            new_user_uid,
            new_session_uid,
        ).session_uid == session_uid,
{
}

} // verus!
