use ygame::rules::UserRole;
use ygame::server::actor_msg::{
    AskGameList, Connect, CreateGame, Disconnect, GameClosed, GameFound, GetGame, LobbyMessage,
    RegisterUserMessage, RegisterUserResponse,
};
use ygame::server::game::{Game, Status};
use ygame::server::lobby::{Lobby, SESSION_DURATION};

fn login(name: &str, user_uid: Option<u128>, session_uid: Option<u128>, client_id: u128) -> RegisterUserMessage {
    RegisterUserMessage { name: name.to_string(), session_uid, user_uid, client_id }
}

fn create(user_uid: u128, client_id: u128) -> CreateGame {
    CreateGame { user_uid, user_name: "Ada".to_string(), client_id }
}

#[test]
fn a_new_lobby_is_empty() {
    let l = Lobby::new();
    assert!(l.clients().is_empty());
    assert!(l.ask_game_list(AskGameList {}).list.is_empty());
    assert_eq!(l.session(1), None);
    assert_eq!(l.user_of_client(1), None);
    assert!(l.clients_of_user(1).is_empty());
    assert_eq!(l.get_game(GetGame { game_id: 1 }), GameFound::Failure);
}

#[test]
fn a_session_lasts_thirty_days() {
    assert_eq!(SESSION_DURATION, 3600 * 24 * 30 * 1000);
}

#[test]
fn a_first_login_gets_the_fresh_identifiers() {
    let mut l = Lobby::new();
    let r = l.register_user_with(login("Ada", None, None, 1), 100, 50, 60);
    assert_eq!(r, RegisterUserResponse { name: "Ada".to_string(), session_uid: 60, user_uid: 50 });
    assert_eq!(l.session(60), Some((50, 100 + SESSION_DURATION)));
    assert_eq!(l.user_of_client(1), Some(50));
    assert_eq!(l.clients_of_user(50), vec![1]);
}

#[test]
fn a_random_first_login_is_filed_under_what_it_got() {
    let mut l = Lobby::new();
    let r = l.register_user(login("Ada", None, None, 1), 100);
    assert_eq!(r.name, "Ada");
    assert_eq!(l.session(r.session_uid), Some((r.user_uid, 100 + SESSION_DURATION)));
    assert_eq!(l.user_of_client(1), Some(r.user_uid));
    let other = l.register_user(login("Bob", None, None, 2), 100);
    assert_ne!(other.user_uid, r.user_uid);
    assert_ne!(other.session_uid, r.session_uid);
}

#[test]
fn a_login_that_takes_up_a_session_keeps_both_and_renews() {
    let mut l = Lobby::new();
    l.register_user_with(login("Ada", None, None, 1), 100, 50, 60);
    let r = l.register_user_with(login("Ada", Some(50), Some(60), 2), 500, 51, 61);
    assert_eq!((r.user_uid, r.session_uid), (50, 60));
    assert_eq!(l.session(60), Some((50, 500 + SESSION_DURATION)));
    assert!(500 + SESSION_DURATION > 100 + SESSION_DURATION);
    assert_eq!(l.session(61), None);
    assert_eq!(l.clients_of_user(50), vec![1, 2]);
    let r = l.register_user(login("Ada", Some(50), Some(60), 3), 900);
    assert_eq!((r.user_uid, r.session_uid), (50, 60));
    assert_eq!(l.session(60), Some((50, 900 + SESSION_DURATION)));
}

#[test]
fn a_login_that_names_half_or_the_wrong_user_starts_anew() {
    let mut l = Lobby::new();
    l.register_user_with(login("Ada", None, None, 1), 100, 50, 60);
    assert_eq!(l.set_session_with(Some(50), None, 100, 70, 80), (70, 80));
    assert_eq!(l.set_session_with(None, Some(60), 100, 71, 81), (71, 81));
    assert_eq!(l.set_session_with(Some(51), Some(60), 100, 72, 82), (72, 82));
    assert_eq!(l.set_session_with(Some(50), Some(99), 100, 73, 83), (73, 83));
    assert_eq!(l.set_session_with(Some(50), Some(60), 100, 74, 84), (50, 60));
    assert_eq!(l.session(84), None);
    assert_eq!(l.session(83), Some((73, 100 + SESSION_DURATION)));
}

#[test]
fn a_random_session_is_filed_under_what_it_got() {
    let mut l = Lobby::new();
    let (user, session) = l.set_session(None, None, 7);
    assert_eq!(l.session(session), Some((user, 7 + SESSION_DURATION)));
    assert_eq!(l.set_session(Some(user), Some(session), 9), (user, session));
    assert_eq!(l.session(session), Some((user, 9 + SESSION_DURATION)));
    let (other_user, other_session) = l.set_session(Some(user), None, 9);
    assert_ne!(other_user, user);
    assert_ne!(other_session, session);
}

#[test]
fn an_ended_session_that_was_not_swept_can_be_taken_up() {
    let mut l = Lobby::new();
    l.register_user_with(login("Ada", None, None, 1), 0, 50, 60);
    let late = SESSION_DURATION + 10;
    assert_eq!(l.set_session_with(Some(50), Some(60), late, 70, 80), (50, 60));
    assert_eq!(l.session(60), Some((50, late + SESSION_DURATION)));
}

#[test]
fn the_sweep_forgets_what_has_ended() {
    let mut l = Lobby::new();
    l.set_session_with(None, None, 0, 1, 11);
    l.set_session_with(None, None, 10, 2, 12);
    l.set_session_with(None, None, 20, 3, 13);
    assert_eq!(l.clean_old_sessions(5), 3);
    assert_eq!(l.clean_old_sessions(SESSION_DURATION - 1), 3);
    assert_eq!(l.clean_old_sessions(SESSION_DURATION), 2);
    assert_eq!(l.session(11), None);
    assert_eq!(l.session(12), Some((2, 10 + SESSION_DURATION)));
    assert_eq!(l.clean_old_sessions(SESSION_DURATION + 10), 1);
    assert_eq!(l.clean_old_sessions(SESSION_DURATION + 20), 0);
    assert_eq!(l.set_session_with(Some(3), Some(13), 0, 4, 14), (4, 14));
}

#[test]
fn a_client_is_bound_to_one_user() {
    let mut l = Lobby::new();
    l.save_user_client_asso(50, 1);
    l.save_user_client_asso(50, 2);
    assert_eq!(l.clients_of_user(50), vec![1, 2]);
    l.save_user_client_asso(51, 1);
    assert_eq!(l.user_of_client(1), Some(51));
    assert_eq!(l.clients_of_user(50), vec![2]);
    assert_eq!(l.clients_of_user(51), vec![1]);
    l.save_user_client_asso(51, 1);
    assert_eq!(l.clients_of_user(51), vec![1]);
}

#[test]
fn clients_come_and_go() {
    let mut l = Lobby::new();
    l.connect(Connect { client_id: 2 });
    l.connect(Connect { client_id: 1 });
    l.connect(Connect { client_id: 2 });
    assert_eq!(l.clients(), vec![1, 2]);
    l.save_user_client_asso(50, 1);
    assert!(l.on_disconnect(Disconnect { client_id: 1 }).is_empty());
    assert_eq!(l.clients(), vec![2]);
    assert_eq!(l.user_of_client(1), None);
    assert!(l.clients_of_user(50).is_empty());
    assert!(l.on_disconnect(Disconnect { client_id: 9 }).is_empty());
    assert_eq!(l.clients(), vec![2]);
}

#[test]
fn a_created_game_is_listed_and_its_creator_is_seated() {
    let mut l = Lobby::new();
    l.connect(Connect { client_id: 1 });
    l.connect(Connect { client_id: 2 });
    let (created, game, news) = l.create_game(create(50, 1), 10);
    assert!(created.user_seat == UserRole::Seat1 || created.user_seat == UserRole::Seat2);
    assert_eq!(created.game_uid, game.id());
    assert_eq!(&created.game_name, game.name());
    assert_eq!(game.get_user_role(50), created.user_seat);
    assert_eq!(game.subscribers(), vec![1]);
    let info = game.info();
    assert_eq!(news, LobbyMessage::NewGame(info.clone()));
    assert_eq!(info.status, Status::Created);
    assert_eq!(l.ask_game_list(AskGameList {}).list, vec![info]);
    assert_eq!(
        l.get_game(GetGame { game_id: game.id() }),
        GameFound::Success { game: game.id() }
    );
    let told = l.broadcast(news.clone());
    assert_eq!(told.message, news);
    assert_eq!(told.recipients, vec![1, 2]);
}

#[test]
fn the_seat_of_the_creator_can_be_chosen() {
    let mut l = Lobby::new();
    let (created, game, _) = l.create_game_with(
        create(50, 1),
        Game::with_identity(7, "Le rat placide".to_string(), 1_000),
        UserRole::Seat2,
    );
    assert_eq!(created.game_uid, 7);
    assert_eq!(created.game_name, "Le rat placide");
    assert_eq!(created.user_seat, UserRole::Seat2);
    assert_eq!(game.info().seat_2, Some(50));
    assert_eq!(game.info().seat_1, None);
}

#[test]
fn games_are_listed_by_increasing_identifier() {
    let mut l = Lobby::new();
    for id in [30u128, 10, 20] {
        l.create_game_with(
            create(50, 1),
            Game::with_identity(id, "g".to_string(), 1_000),
            UserRole::Seat1,
        );
    }
    let ids: Vec<u128> = l.ask_game_list(AskGameList {}).list.iter().map(|i| i.id).collect();
    assert_eq!(ids, vec![10, 20, 30]);
    assert_eq!(l.on_disconnect(Disconnect { client_id: 1 }), vec![10, 20, 30]);
}

#[test]
fn a_closed_game_leaves_the_list_and_everyone_is_told() {
    let mut l = Lobby::new();
    l.connect(Connect { client_id: 1 });
    l.connect(Connect { client_id: 2 });
    l.create_game_with(
        create(50, 1),
        Game::with_identity(7, "g".to_string(), 1_000),
        UserRole::Seat1,
    );
    let told = l.game_closed(GameClosed { game_id: 7 }).unwrap();
    assert_eq!(told.message, LobbyMessage::GameRemoved { game_id: 7 });
    assert_eq!(told.recipients, vec![1, 2]);
    assert!(l.ask_game_list(AskGameList {}).list.is_empty());
    assert_eq!(l.get_game(GetGame { game_id: 7 }), GameFound::Failure);
    assert_eq!(l.game_closed(GameClosed { game_id: 7 }), None);
}
