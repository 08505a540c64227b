use ygame::rules::{Action, UserRole};
use ygame::server::actor_msg::{
    Disconnect, GameAction, GameActionResponse, GameClosed, GameJoined, GameMessage,
    GameMessageDetails, JoinGame,
};
use ygame::server::game::name::{adjectives, animals, compose_name, generate_name, AnimalGender};
use ygame::server::game::{Deferred, Game, Status, GAME_EXPIRATION};

const ALICE: u128 = 0xA1;
const BOB: u128 = 0xB0;
const CAROL: u128 = 0xC0;

fn room() -> Game {
    Game::with_identity(9, "Le lynx festif".to_string(), 1_000)
}

fn join(user_uid: u128, name: &str, client_id: u128) -> JoinGame {
    JoinGame { user_uid, user_name: name.to_string(), client_id }
}

#[test]
fn a_fresh_room_is_empty() {
    let g = room();
    assert_eq!(g.id(), 9);
    assert_eq!(g.name(), "Le lynx festif");
    assert_eq!(g.timeout(), 1_000);
    assert!(g.moves().is_empty());
    assert!(g.subscribers().is_empty());
    assert!(g.users().is_empty());
    assert_eq!(g.available_seats(), vec![UserRole::Seat1, UserRole::Seat2]);
    let info = g.info();
    assert_eq!(info.id, 9);
    assert_eq!(info.name, "Le lynx festif");
    assert_eq!(info.status, Status::Created);
    assert_eq!(info.seat_1, None);
    assert_eq!(info.seat_2, None);
}

#[test]
fn a_new_room_lives_thirty_days() {
    let g = Game::new(5);
    assert_eq!(GAME_EXPIRATION, 3600 * 24 * 30 * 1000);
    assert_eq!(g.timeout(), 5 + GAME_EXPIRATION);
    assert!(!g.is_expired(5 + GAME_EXPIRATION));
    assert!(g.is_expired(6 + GAME_EXPIRATION));
    assert_eq!(g.closing(), GameClosed { game_id: g.id() });
    assert!(g.info().status == Status::Created);
}

#[test]
fn two_new_rooms_differ() {
    let a = Game::new(0);
    let b = Game::new(0);
    assert_ne!(a.id(), b.id());
}

#[test]
fn names_are_an_animal_and_an_adjective() {
    let animals = animals();
    let adjectives = adjectives();
    assert_eq!(animals.len(), 53);
    assert_eq!(adjectives.len(), 22);
    for _ in 0..50 {
        let name = generate_name();
        let found = animals.iter().any(|a| {
            adjectives.iter().any(|j| compose_name(a, j) == name)
        });
        assert!(found, "{}", name);
    }
}

#[test]
fn adjectives_agree_with_the_animal() {
    let animals = animals();
    let adjectives = adjectives();
    let whale = animals.iter().find(|a| a.name == "La baleine").unwrap();
    let eagle = animals.iter().find(|a| a.name == "L'aigle").unwrap();
    assert_eq!(whale.gender, AnimalGender::Feminine);
    assert_eq!(eagle.gender, AnimalGender::Masculine);
    let brave = adjectives.iter().find(|j| j.masc == "courageux").unwrap();
    let calm = adjectives.iter().find(|j| j.masc == "placide").unwrap();
    assert_eq!(compose_name(whale, brave), "La baleine courageuse");
    assert_eq!(compose_name(eagle, brave), "L'aigle courageux");
    assert_eq!(compose_name(whale, calm), "La baleine placide");
    assert_eq!(compose_name(eagle, calm), "L'aigle placide");
}

#[test]
fn the_first_user_takes_an_empty_seat() {
    for _ in 0..20 {
        let mut g = room();
        let seat = g.client_join(ALICE, "Alice", 1);
        assert!(seat == UserRole::Seat1 || seat == UserRole::Seat2);
        assert_eq!(g.get_user_role(ALICE), seat);
        assert_eq!(g.subscribers(), vec![1]);
        assert_eq!(g.users(), vec![ALICE]);
        assert_eq!(g.user_clients(ALICE), vec![1]);
    }
}

#[test]
fn the_second_user_takes_the_other_seat_and_the_third_watches() {
    let mut g = room();
    let a = g.client_join(ALICE, "Alice", 1);
    let b = g.client_join(BOB, "Bob", 2);
    assert!(a != UserRole::Observer && b != UserRole::Observer);
    assert_ne!(a, b);
    assert!(g.available_seats().is_empty());
    assert_eq!(g.client_join(CAROL, "Carol", 3), UserRole::Observer);
    assert_eq!(g.choose_seat(CAROL), UserRole::Observer);
    assert_eq!(g.get_user_role(CAROL), UserRole::Observer);
    assert_eq!(g.subscribers(), vec![1, 2, 3]);
}

#[test]
fn a_seat_given_can_be_chosen() {
    let mut g = room();
    g.client_join_as(ALICE, "Alice", 1, UserRole::Seat2);
    assert_eq!(g.get_user_role(ALICE), UserRole::Seat2);
    assert_eq!(g.info().seat_1, None);
    assert_eq!(g.info().seat_2, Some(ALICE));
    assert_eq!(g.available_seats(), vec![UserRole::Seat1]);
    assert_eq!(g.choose_seat(BOB), UserRole::Seat1);
    assert_eq!(g.choose_seat(ALICE), UserRole::Seat2);
}

#[test]
fn the_second_seat_is_looked_up_by_its_own_user() {
    let mut g = room();
    g.client_join_as(ALICE, "Alice", 1, UserRole::Seat1);
    g.client_join_as(BOB, "Bob", 2, UserRole::Seat2);
    assert_eq!(g.get_user_role(ALICE), UserRole::Seat1);
    assert_eq!(g.get_user_role(BOB), UserRole::Seat2);
}

#[test]
fn a_user_that_comes_back_from_another_client_keeps_its_seat() {
    let mut g = room();
    g.client_join_as(ALICE, "Alice", 1, UserRole::Seat1);
    g.client_join_as(BOB, "Bob", 2, UserRole::Seat2);
    for client in 10..20 {
        assert_eq!(g.client_join(ALICE, "Alice", client), UserRole::Seat1);
        assert_eq!(g.client_join(BOB, "Bob", client + 100), UserRole::Seat2);
    }
    assert_eq!(g.info().seat_1, Some(ALICE));
    assert_eq!(g.info().seat_2, Some(BOB));
}

#[test]
fn a_seat_survives_the_departure_of_its_user() {
    let mut g = room();
    g.client_join_as(ALICE, "Alice", 1, UserRole::Seat1);
    assert_eq!(g.client_quit(1), Some(ALICE));
    assert!(g.users().is_empty());
    assert!(g.subscribers().is_empty());
    assert_eq!(g.info().seat_1, Some(ALICE));
    assert_eq!(g.client_join(BOB, "Bob", 2), UserRole::Seat2);
    assert_eq!(g.client_join(ALICE, "Alice", 3), UserRole::Seat1);
}

#[test]
fn every_user_of_the_index_has_a_subscribed_client() {
    let mut g = room();
    g.client_join(ALICE, "Alice", 1);
    g.client_join(ALICE, "Alice", 2);
    g.client_join(BOB, "Bob", 3);
    g.client_join(CAROL, "Carol", 4);
    let steps: [u128; 5] = [2, 9, 3, 1, 4];
    for gone in steps {
        g.client_quit(gone);
        let subscribers = g.subscribers();
        for user in g.users() {
            let clients = g.user_clients(user);
            assert!(!clients.is_empty());
            for c in clients {
                assert!(subscribers.contains(&c));
            }
        }
    }
    assert!(g.users().is_empty());
}

#[test]
fn a_user_goes_with_its_last_client() {
    let mut g = room();
    g.client_join(ALICE, "Alice", 1);
    g.client_join(ALICE, "Alice", 2);
    assert_eq!(g.client_quit(1), None);
    assert_eq!(g.user_clients(ALICE), vec![2]);
    assert_eq!(g.client_quit(7), None);
    assert_eq!(g.client_quit(2), Some(ALICE));
    assert_eq!(g.client_quit(2), None);
}

#[test]
fn of_two_users_that_go_with_one_client_the_greater_is_named() {
    let mut g = room();
    g.client_join(ALICE, "Alice", 1);
    g.client_join(BOB, "Bob", 1);
    g.client_join(CAROL, "Carol", 2);
    assert_eq!(g.client_quit(1), Some(BOB));
    assert_eq!(g.users(), vec![CAROL]);
    assert_eq!(g.subscribers(), vec![2]);
}

#[test]
fn a_join_answers_with_the_room_and_leaves_the_news_for_later() {
    let mut g = room();
    let (reply, tasks) = g.on_join_as(join(ALICE, "Alice", 1), UserRole::Seat1);
    assert_eq!(
        reply,
        GameJoined {
            game_name: "Le lynx festif".to_string(),
            user_role: UserRole::Seat1,
            seat_1_username: Some("Alice".to_string()),
            seat_2_username: None,
            moves: vec![],
        }
    );
    assert_eq!(
        tasks,
        vec![Deferred::AnnounceJoin {
            user_uid: ALICE,
            user_name: "Alice".to_string(),
            user_seat: UserRole::Seat1,
            client_id: 1,
        }]
    );
}

#[test]
fn the_join_that_fills_the_room_opens_the_game() {
    let mut g = room();
    g.on_join_as(join(ALICE, "Alice", 1), UserRole::Seat1);
    let (reply, tasks) = g.on_join(join(BOB, "Bob", 2));
    assert_eq!(reply.user_role, UserRole::Seat2);
    assert_eq!(reply.seat_1_username, Some("Alice".to_string()));
    assert_eq!(reply.seat_2_username, Some("Bob".to_string()));
    assert_eq!(reply.moves, vec![]);
    assert_eq!(tasks.len(), 2);
    assert_eq!(tasks[1], Deferred::InitGame);

    let told = g.run_deferred(tasks[0].clone());
    assert_eq!(told.recipients, vec![1]);
    assert_eq!(
        told.message,
        GameMessage {
            game_id: 9,
            details: GameMessageDetails::UserJoin {
                user_uid: BOB,
                user_name: "Bob".to_string(),
                user_seat: UserRole::Seat2,
            },
        }
    );
    assert_eq!(g.info().status, Status::Created);

    let opened = g.run_deferred(Deferred::InitGame);
    assert_eq!(opened.recipients, vec![1, 2]);
    assert_eq!(
        opened.message,
        GameMessage { game_id: 9, details: GameMessageDetails::Action(Action::Init) }
    );
    assert_eq!(g.moves(), &vec![Action::Init]);
    assert_eq!(g.info().status, Status::Started);

    let (_, later) = g.on_join(join(CAROL, "Carol", 3));
    assert_eq!(later.len(), 1);
}

#[test]
fn the_log_opens_with_init() {
    let mut g = room();
    let accepted = GameActionResponse::Accepted;
    let mv = GameAction { action: Action::Move, user: Some(ALICE) };
    assert_eq!(
        g.on_action(mv, accepted),
        (GameActionResponse::Illegal { reason: 401 }, None)
    );
    assert!(g.moves().is_empty());
    g.client_join_as(ALICE, "Alice", 1, UserRole::Seat1);
    g.client_join_as(BOB, "Bob", 2, UserRole::Seat2);
    g.init_game();
    let (answer, told) = g.on_action(mv, accepted);
    assert_eq!(answer, GameActionResponse::Accepted);
    let told = told.unwrap();
    assert_eq!(told.recipients, vec![1, 2]);
    assert_eq!(
        told.message,
        GameMessage { game_id: 9, details: GameMessageDetails::Action(Action::Move) }
    );
    assert_eq!(g.moves()[0], Action::Init);
    assert_eq!(g.moves(), &vec![Action::Init, Action::Move]);
}

#[test]
fn what_the_rules_refuse_is_refused() {
    let mut g = room();
    g.client_join_as(ALICE, "Alice", 1, UserRole::Seat1);
    g.init_game();
    let mv = GameAction { action: Action::Move, user: Some(ALICE) };
    let refused = GameActionResponse::Illegal { reason: 402 };
    assert_eq!(g.on_action(mv, refused), (refused, None));
    assert_eq!(g.moves(), &vec![Action::Init]);
}

#[test]
fn a_finished_game_takes_no_action() {
    let mut g = room();
    g.client_join_as(ALICE, "Alice", 1, UserRole::Seat1);
    g.init_game();
    let end = GameAction { action: Action::Finished, user: Some(ALICE) };
    let (answer, told) = g.on_action(end, GameActionResponse::Accepted);
    assert_eq!(answer, GameActionResponse::Accepted);
    assert!(told.is_some());
    assert_eq!(g.info().status, Status::Finished);
    let mv = GameAction { action: Action::Move, user: Some(ALICE) };
    assert_eq!(
        g.on_action(mv, GameActionResponse::Accepted),
        (GameActionResponse::Illegal { reason: 401 }, None)
    );
    assert_eq!(g.moves(), &vec![Action::Init, Action::Finished]);
    assert_eq!(g.info().status, Status::Finished);
}

#[test]
fn those_who_stay_are_told_who_has_gone() {
    let mut g = room();
    g.client_join_as(ALICE, "Alice", 1, UserRole::Seat1);
    g.client_join_as(BOB, "Bob", 2, UserRole::Seat2);
    g.client_join(BOB, "Bob", 3);
    g.client_join(CAROL, "Carol", 4);
    assert_eq!(g.on_disconnect(Disconnect { client_id: 3 }), None);
    let told = g.on_disconnect(Disconnect { client_id: 2 }).unwrap();
    assert_eq!(told.recipients, vec![1, 4]);
    assert_eq!(
        told.message,
        GameMessage {
            game_id: 9,
            details: GameMessageDetails::UserQuit { user_uid: BOB, user_seat: UserRole::Seat2 },
        }
    );
    let told = g.on_disconnect(Disconnect { client_id: 4 }).unwrap();
    assert_eq!(
        told.message.details,
        GameMessageDetails::UserQuit { user_uid: CAROL, user_seat: UserRole::Observer }
    );
    assert_eq!(told.recipients, vec![1]);
}

#[test]
fn the_newcomer_is_not_told_of_its_own_arrival() {
    let mut g = room();
    g.client_join(ALICE, "Alice", 1);
    g.client_join(BOB, "Bob", 2);
    assert_eq!(g.subscribers_but(2), vec![1]);
    assert_eq!(g.subscribers_but(1), vec![2]);
    assert_eq!(g.subscribers_but(5), vec![1, 2]);
}
