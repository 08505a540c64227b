use std::collections::BTreeMap;
use ygame::protocol::error::ErrorMessage;
use ygame::protocol::handshake::{HelloMessage, HelloResponseMessage};
use ygame::protocol::v1::{
    GameAction, GameServerMessage, GameStatus, LobbyClientMessage, LobbyServerMessages,
    LoginMessage, LoginResponseMessage, RunningClientMessage, RunningServerMessage, UserRole,
};
use ygame::server::actor_msg::{AskGameList, GameActionResponse, LobbyMessage};
use ygame::server::client::{
    BinaryFrame, Client, ClientStatus, Effect, Frame, GameRequest, LobbyRequest, TextFrame,
};
use ygame::server::game::{Deferred, Game};
use ygame::server::lobby::Lobby;

enum Later {
    Lobby(LobbyMessage),
    Game(u128, Deferred),
}

struct World {
    now: u64,
    lobby: Lobby,
    games: BTreeMap<u128, Game>,
    clients: BTreeMap<u128, Client>,
    sent: BTreeMap<u128, Vec<Effect>>,
    later: Vec<Later>,
}

fn world() -> World {
    World {
        now: 0,
        lobby: Lobby::new(),
        games: BTreeMap::new(),
        clients: BTreeMap::new(),
        sent: BTreeMap::new(),
        later: Vec::new(),
    }
}

fn open(w: &mut World) -> u128 {
    let client = Client::new(w.now);
    let id = client.id();
    let effects = client.started();
    w.clients.insert(id, client);
    w.sent.insert(id, Vec::new());
    perform(w, id, effects);
    id
}

fn tell_game_news(w: &mut World, message: ygame::server::actor_msg::GameMessage, recipients: Vec<u128>) {
    for r in recipients {
        let effects = match w.clients.get_mut(&r) {
            Some(c) => c.handle_game_message(message.clone()),
            None => continue,
        };
        perform(w, r, effects);
    }
}

fn perform(w: &mut World, id: u128, effects: Vec<Effect>) {
    for effect in effects {
        match effect {
            Effect::ToLobby(LobbyRequest::Connect(m)) => {
                w.lobby.connect(m);
                let next = w.clients[&id].on_connected(Ok(()));
                perform(w, id, next);
            }
            Effect::ToLobby(LobbyRequest::Disconnect(m)) => {
                for game_id in w.lobby.on_disconnect(m) {
                    let told = w.games.get_mut(&game_id).unwrap().on_disconnect(m);
                    if let Some(b) = told {
                        tell_game_news(w, b.message, b.recipients);
                    }
                }
            }
            Effect::ToLobby(LobbyRequest::RegisterUser(m)) => {
                let answer = w.lobby.register_user(m, w.now);
                let next = w.clients.get_mut(&id).unwrap().on_registered(Ok(answer));
                perform(w, id, next);
            }
            Effect::ToLobby(LobbyRequest::AskGameList { protocol }) => {
                let answer = w.lobby.ask_game_list(AskGameList {});
                let next = w.clients.get_mut(&id).unwrap().on_game_list(protocol, Ok(answer));
                perform(w, id, next);
            }
            Effect::ToLobby(LobbyRequest::CreateGame { msg, protocol, request_uid }) => {
                let (created, game, news) = w.lobby.create_game(msg, w.now);
                w.games.insert(game.id(), game);
                w.later.push(Later::Lobby(news));
                let next = w.clients.get_mut(&id).unwrap().on_created(protocol, request_uid, Ok(created));
                perform(w, id, next);
            }
            Effect::ToLobby(LobbyRequest::GetGame { msg, join, protocol }) => {
                let found = w.lobby.get_game(msg);
                let next = w.clients.get_mut(&id).unwrap().on_game_found(
                    msg.game_id,
                    join,
                    protocol,
                    Ok(found),
                );
                perform(w, id, next);
            }
            Effect::ToGame { game_id, request: GameRequest::JoinGame { msg, protocol } } => {
                let (reply, tasks) = w.games.get_mut(&game_id).unwrap().on_join(msg);
                for t in tasks {
                    w.later.push(Later::Game(game_id, t));
                }
                let next = w.clients.get_mut(&id).unwrap().on_joined(protocol, game_id, Ok(reply));
                perform(w, id, next);
            }
            Effect::ToGame { game_id, request: GameRequest::GameAction { msg, request_id } } => {
                let (answer, told) = w
                    .games
                    .get_mut(&game_id)
                    .unwrap()
                    .on_action(msg, GameActionResponse::Accepted);
                if let Some(b) = told {
                    tell_game_news(w, b.message, b.recipients);
                }
                let next = w.clients.get_mut(&id).unwrap().on_action_response(
                    request_id,
                    game_id,
                    Ok(answer),
                );
                perform(w, id, next);
            }
            Effect::Stop => {
                let last = w.clients[&id].stopping();
                w.clients.remove(&id);
                perform(w, id, last);
            }
            other => w.sent.get_mut(&id).unwrap().push(other),
        }
    }
}

fn settle(w: &mut World) {
    while !w.later.is_empty() {
        let due: Vec<Later> = w.later.drain(..).collect();
        for task in due {
            match task {
                Later::Lobby(news) => {
                    let b = w.lobby.broadcast(news);
                    for r in b.recipients {
                        let effects = match w.clients.get_mut(&r) {
                            Some(c) => c.handle_lobby_message(b.message.clone()),
                            None => continue,
                        };
                        perform(w, r, effects);
                    }
                }
                Later::Game(game_id, task) => {
                    let b = w.games.get_mut(&game_id).unwrap().run_deferred(task);
                    tell_game_news(w, b.message, b.recipients);
                }
            }
        }
    }
}

fn frame(w: &mut World, id: u128, f: Frame) {
    let effects = match w.clients.get_mut(&id) {
        Some(c) => c.handle(f, w.now),
        None => return,
    };
    perform(w, id, effects);
    settle(w);
}

fn take(w: &mut World, id: u128) -> Vec<Effect> {
    std::mem::take(w.sent.get_mut(&id).unwrap())
}

fn hello() -> Frame {
    Frame::Text(TextFrame {
        text: "{\"known_protocols\":[1]}".to_string(),
        disconnect: None,
        hello: Some(HelloMessage { known_protocols: vec![1] }),
    })
}

fn login(name: &str, uid: Option<String>, session_uid: Option<String>) -> Frame {
    Frame::Binary(BinaryFrame {
        login: Some(LoginMessage { name: name.to_string(), uid, session_uid }),
        running: None,
    })
}

fn ask(msg: LobbyClientMessage) -> Frame {
    Frame::Binary(BinaryFrame { login: None, running: Some(RunningClientMessage::Lobby(msg)) })
}

fn log_in(w: &mut World, name: &str) -> (u128, LoginResponseMessage) {
    let id = open(w);
    frame(w, id, hello());
    assert_eq!(
        take(w, id),
        vec![Effect::Hello(HelloResponseMessage::Success { protocol_version: 1 })]
    );
    frame(w, id, login(name, None, None));
    let mut out = take(w, id);
    assert_eq!(out.len(), 1);
    match out.pop().unwrap() {
        Effect::LoginResponse(r) => (id, r),
        other => panic!("{:?}", other),
    }
}

fn lobby_message(e: &Effect) -> &LobbyServerMessages {
    match e {
        Effect::Message(RunningServerMessage::Lobby(m)) => m,
        other => panic!("{:?}", other),
    }
}

fn game_message(e: &Effect) -> (&String, &GameServerMessage) {
    match e {
        Effect::Message(RunningServerMessage::Game { game_id, message }) => (game_id, message),
        other => panic!("{:?}", other),
    }
}

fn create(w: &mut World, a: u128, b: u128) -> (String, UserRole) {
    frame(w, a, ask(LobbyClientMessage::CreateGame { request_uid: "r1".to_string() }));
    let out = take(w, a);
    assert_eq!(out.len(), 2, "{:?}", out);
    let (game_id, role) = match lobby_message(&out[0]) {
        LobbyServerMessages::GameCreated { request_uid, info, role } => {
            assert_eq!(request_uid, "r1");
            assert!(!info.is_finished);
            assert!(*role == UserRole::Seat1 || *role == UserRole::Seat2);
            assert_eq!(info.seat_1_username.is_some(), *role == UserRole::Seat1);
            assert_eq!(info.seat_2_username.is_some(), *role == UserRole::Seat2);
            (info.id.clone(), *role)
        }
        other => panic!("{:?}", other),
    };
    match lobby_message(&out[1]) {
        LobbyServerMessages::NewGame(o) => {
            assert_eq!(o.id, game_id);
            assert_eq!(o.status, GameStatus::Rejoinable);
        }
        other => panic!("{:?}", other),
    }
    let seen = take(w, b);
    assert_eq!(seen.len(), 1);
    match lobby_message(&seen[0]) {
        LobbyServerMessages::NewGame(o) => {
            assert_eq!(o.id, game_id);
            assert_eq!(o.status, GameStatus::Joinable);
        }
        other => panic!("{:?}", other),
    }
    (game_id, role)
}

#[test]
fn fresh_login() {
    let mut w = world();
    let (id, r) = log_in(&mut w, "Ada");
    assert_eq!(r.name, "Ada");
    assert_eq!(r.user_uid.len(), 36);
    assert_eq!(r.session_uid.len(), 36);
    assert_ne!(r.user_uid, r.session_uid);
    assert_eq!(w.clients[&id].status(), ClientStatus::Running);
    frame(&mut w, id, ask(LobbyClientMessage::AskGameList));
    assert_eq!(
        take(&mut w, id),
        vec![Effect::Message(RunningServerMessage::Lobby(LobbyServerMessages::GameList {
            list: vec![]
        }))]
    );
}

#[test]
fn create_and_observe_broadcast() {
    let mut w = world();
    let (a, _) = log_in(&mut w, "Ada");
    let (b, _) = log_in(&mut w, "Bob");
    let (game_id, _) = create(&mut w, a, b);
    frame(&mut w, b, ask(LobbyClientMessage::AskGameList));
    let out = take(&mut w, b);
    match lobby_message(&out[0]) {
        LobbyServerMessages::GameList { list } => {
            assert_eq!(list.len(), 1);
            assert_eq!(list[0].id, game_id);
            assert_eq!(list[0].status, GameStatus::Joinable);
        }
        other => panic!("{:?}", other),
    }
}

#[test]
fn join_fills_the_game() {
    let mut w = world();
    let (a, _) = log_in(&mut w, "Ada");
    let (b, bob) = log_in(&mut w, "Bob");
    let (game_id, a_role) = create(&mut w, a, b);
    frame(&mut w, b, ask(LobbyClientMessage::JoinGame { game_uid: game_id.clone() }));
    let b_role = if a_role == UserRole::Seat1 { UserRole::Seat2 } else { UserRole::Seat1 };

    let out = take(&mut w, b);
    assert_eq!(out.len(), 2, "{:?}", out);
    match lobby_message(&out[0]) {
        LobbyServerMessages::GameJoined { info, role, moves } => {
            assert_eq!(info.id, game_id);
            assert_eq!(*role, b_role);
            assert_eq!(moves, &Vec::<GameAction>::new());
            assert!(!info.is_finished);
            let names = (info.seat_1_username.clone().unwrap(), info.seat_2_username.clone().unwrap());
            if b_role == UserRole::Seat2 {
                assert_eq!(names, ("Ada".to_string(), "Bob".to_string()));
            } else {
                assert_eq!(names, ("Bob".to_string(), "Ada".to_string()));
            }
        }
        other => panic!("{:?}", other),
    }
    assert_eq!(game_message(&out[1]), (&game_id, &GameServerMessage::Action(GameAction::Init)));

    let seen = take(&mut w, a);
    assert_eq!(seen.len(), 2, "{:?}", seen);
    assert_eq!(
        game_message(&seen[0]),
        (
            &game_id,
            &GameServerMessage::UserJoin {
                user_uid: bob.user_uid.clone(),
                username: "Bob".to_string(),
                role: b_role,
            }
        )
    );
    assert_eq!(game_message(&seen[1]), (&game_id, &GameServerMessage::Action(GameAction::Init)));

    frame(&mut w, b, ask(LobbyClientMessage::JoinGame { game_uid: game_id.clone() }));
    assert_eq!(
        take(&mut w, b),
        vec![Effect::Error(ErrorMessage {
            error_code: Some(301),
            error_description: "Game already joined".to_string(),
            should_reload: false,
            should_reconnect: false,
            should_handshake: false,
        })]
    );
}

#[test]
fn rejoin_from_another_client_of_the_user_returns_the_seat() {
    let mut w = world();
    let (a, _) = log_in(&mut w, "Ada");
    let (b, bob) = log_in(&mut w, "Bob");
    let (game_id, a_role) = create(&mut w, a, b);
    frame(&mut w, b, ask(LobbyClientMessage::JoinGame { game_uid: game_id.clone() }));
    let b_role = if a_role == UserRole::Seat1 { UserRole::Seat2 } else { UserRole::Seat1 };
    take(&mut w, a);
    take(&mut w, b);

    let b2 = open(&mut w);
    frame(&mut w, b2, hello());
    frame(&mut w, b2, login("Bob", Some(bob.user_uid.clone()), Some(bob.session_uid.clone())));
    take(&mut w, b2);
    take(&mut w, a);
    take(&mut w, b);
    frame(&mut w, b2, ask(LobbyClientMessage::JoinGame { game_uid: game_id.clone() }));
    let out = take(&mut w, b2);
    assert_eq!(out.len(), 1, "{:?}", out);
    match lobby_message(&out[0]) {
        LobbyServerMessages::GameJoined { role, moves, .. } => {
            assert_eq!(*role, b_role);
            assert_eq!(moves, &vec![GameAction::Init]);
        }
        other => panic!("{:?}", other),
    }
    assert_eq!(take(&mut w, a).len(), 1);
    assert_eq!(take(&mut w, b).len(), 1);
}

#[test]
fn session_resume() {
    let mut w = world();
    let (first, r) = log_in(&mut w, "Ada");
    frame(
        &mut w,
        first,
        Frame::Text(TextFrame {
            text: "\"FromClient\"".to_string(),
            disconnect: Some(ygame::protocol::handshake::DisconnectMessage::FromClient),
            hello: None,
        }),
    );
    assert!(!w.clients.contains_key(&first));
    assert!(w.lobby.clients().is_empty());

    w.now = 60_000;
    let again = open(&mut w);
    frame(&mut w, again, hello());
    take(&mut w, again);
    frame(&mut w, again, login("Ada", Some(r.user_uid.clone()), Some(r.session_uid.clone())));
    assert_eq!(
        take(&mut w, again),
        vec![Effect::LoginResponse(LoginResponseMessage {
            name: "Ada".to_string(),
            user_uid: r.user_uid.clone(),
            session_uid: r.session_uid.clone(),
        })]
    );

    let stranger = open(&mut w);
    frame(&mut w, stranger, hello());
    take(&mut w, stranger);
    frame(&mut w, stranger, login("Eve", Some(r.session_uid.clone()), Some(r.user_uid.clone())));
    match take(&mut w, stranger).pop().unwrap() {
        Effect::LoginResponse(other) => {
            assert_ne!(other.user_uid, r.user_uid);
            assert_ne!(other.session_uid, r.session_uid);
        }
        other => panic!("{:?}", other),
    }
}

#[test]
fn heartbeat_timeout() {
    let mut w = world();
    let (a, _) = log_in(&mut w, "Ada");
    let (b, bob) = log_in(&mut w, "Bob");
    let (game_id, a_role) = create(&mut w, a, b);
    frame(&mut w, b, ask(LobbyClientMessage::JoinGame { game_uid: game_id.clone() }));
    let b_role = if a_role == UserRole::Seat1 { UserRole::Seat2 } else { UserRole::Seat1 };
    take(&mut w, a);
    take(&mut w, b);

    w.now = 5_000;
    frame(&mut w, a, Frame::Pong);
    for id in [a, b] {
        let effects = w.clients[&id].beat(w.now);
        assert_eq!(effects, vec![Effect::Ping]);
    }
    w.now = 10_000;
    frame(&mut w, a, Frame::Pong);
    assert_eq!(w.clients[&b].beat(w.now), vec![Effect::Ping]);
    w.now = 11_000;
    assert_eq!(w.clients[&a].beat(w.now), vec![Effect::Ping]);
    let effects = w.clients[&b].beat(w.now);
    assert_eq!(effects.len(), 2);
    assert_eq!(effects[1], Effect::Stop);
    perform(&mut w, b, effects);
    settle(&mut w);

    assert!(!w.clients.contains_key(&b));
    assert_eq!(take(&mut w, b), vec![]);
    assert_eq!(w.lobby.clients(), vec![a]);
    assert_eq!(w.lobby.user_of_client(b), None);
    let seen = take(&mut w, a);
    assert_eq!(seen.len(), 1, "{:?}", seen);
    assert_eq!(
        game_message(&seen[0]),
        (&game_id, &GameServerMessage::UserQuit { user_uid: bob.user_uid.clone(), role: b_role })
    );
    let game = w.games.values().next().unwrap();
    assert_eq!(game.subscribers(), vec![a]);
    assert_eq!(game.users().len(), 1);
}

#[test]
fn protocol_violation_resets() {
    let mut w = world();
    let (a, _) = log_in(&mut w, "Ada");
    frame(
        &mut w,
        a,
        Frame::Text(TextFrame { text: "hello".to_string(), disconnect: None, hello: None }),
    );
    assert_eq!(
        take(&mut w, a),
        vec![Effect::Error(ErrorMessage {
            error_code: Some(102),
            error_description: "Unexpected text message".to_string(),
            should_reload: false,
            should_reconnect: false,
            should_handshake: true,
        })]
    );
    assert_eq!(w.clients[&a].status(), ClientStatus::Handshake);
    frame(&mut w, a, ask(LobbyClientMessage::AskGameList));
    let out = take(&mut w, a);
    assert_eq!(out.len(), 1);
    match &out[0] {
        Effect::Error(m) => {
            assert_eq!(m.error_code, Some(103));
            assert!(m.should_handshake);
        }
        other => panic!("{:?}", other),
    }
    frame(&mut w, a, hello());
    assert_eq!(
        take(&mut w, a),
        vec![Effect::Hello(HelloResponseMessage::Success { protocol_version: 1 })]
    );
}

#[test]
fn an_accepted_action_reaches_every_subscriber() {
    let mut w = world();
    let (a, _) = log_in(&mut w, "Ada");
    let (b, _) = log_in(&mut w, "Bob");
    let (game_id, _) = create(&mut w, a, b);
    frame(&mut w, b, ask(LobbyClientMessage::JoinGame { game_uid: game_id.clone() }));
    take(&mut w, a);
    take(&mut w, b);
    frame(
        &mut w,
        a,
        Frame::Binary(BinaryFrame {
            login: None,
            running: Some(RunningClientMessage::Game {
                game_id: game_id.clone(),
                request_id: "9".to_string(),
                action: GameAction::Move,
            }),
        }),
    );
    let out = take(&mut w, a);
    assert_eq!(out.len(), 2, "{:?}", out);
    assert_eq!(game_message(&out[0]), (&game_id, &GameServerMessage::Action(GameAction::Move)));
    assert_eq!(
        game_message(&out[1]),
        (
            &game_id,
            &GameServerMessage::GameActionResponse {
                request_id: "9".to_string(),
                response: ygame::protocol::v1::GameActionResponse::Accepted,
            }
        )
    );
    let seen = take(&mut w, b);
    assert_eq!(seen.len(), 1);
    assert_eq!(game_message(&seen[0]), (&game_id, &GameServerMessage::Action(GameAction::Move)));
    let game = w.games.values().next().unwrap();
    assert_eq!(game.moves().len(), 2);
}
