use ygame::protocol::error::code;
use ygame::protocol::error::ErrorMessage;
use ygame::protocol::handshake::{DisconnectMessage, HelloMessage, HelloResponseMessage};
use ygame::protocol::v1::{GameAction, GameActionResponse, GameStatus, UserRole, VERSION};
use ygame::rules;

#[test]
fn default_error_message_is_the_unknown_server_error() {
    let m = ErrorMessage::default();
    assert_eq!(m.error_code, Some(200));
    assert_eq!(m.error_description, "Unknown server error");
    assert!(!m.should_reload);
    assert!(!m.should_reconnect);
    assert!(!m.should_handshake);
}

#[test]
fn protocol_codes_are_stable() {
    assert_eq!(code::protocol::PROTOCOL_ERROR, 100);
    assert_eq!(code::protocol::NO_PROTOCOL_VERSION, 101);
    assert_eq!(code::protocol::UNEXPECTED_STRING, 102);
    assert_eq!(code::protocol::UNEXPECTED_BIN, 103);
    assert_eq!(code::protocol::UNEXPECTED_OTHER, 104);
    assert_eq!(code::protocol::BAD_HANDSHAKE, 105);
    assert_eq!(code::protocol::INVALID_MESSAGE, 106);
    assert_eq!(code::protocol::NEED_LOGIN, 107);
    assert_eq!(code::protocol::NEED_HANDSHAKE, 108);
    assert_eq!(code::protocol::INVALID_GAME_ID, 109);
}

#[test]
fn server_lobby_and_game_codes_are_stable() {
    assert_eq!(code::server::SERVER_ERROR, 200);
    assert_eq!(code::server::UNIMPL_ERROR, 201);
    assert_eq!(code::server::SERIALIZATION_ERROR, 202);
    assert_eq!(code::server::MAILBOX_ERROR, 203);
    assert_eq!(code::lobby::LOBBY_ERROR, 300);
    assert_eq!(code::lobby::GAME_ALREADY_JOINED, 301);
    assert_eq!(code::lobby::GAME_DOESNT_EXISTS, 302);
    assert_eq!(code::lobby::GAME_NOT_JOINED, 303);
    assert_eq!(code::game::GAME_ERROR, 400);
    assert_eq!(code::game::ILLEGAL_MOVE, 401);
    assert_eq!(code::game::NOT_YOUR_TURN, 402);
}

#[test]
fn version_one_is_the_protocol() {
    assert_eq!(VERSION, 1);
}

#[test]
fn game_status_numbers() {
    assert_eq!(GameStatus::Joinable.code(), 1);
    assert_eq!(GameStatus::Rejoinable.code(), 2);
    assert_eq!(GameStatus::Full.code(), 3);
    assert_eq!(GameStatus::Finished.code(), 4);
}

#[test]
fn roles_cross_to_the_wire() {
    assert_eq!(UserRole::from(rules::UserRole::Seat1), UserRole::Seat1);
    assert_eq!(UserRole::from(rules::UserRole::Seat2), UserRole::Seat2);
    assert_eq!(UserRole::from(rules::UserRole::Observer), UserRole::Observer);
}

#[test]
fn actions_cross_to_the_wire_and_back() {
    let all = [rules::Action::Init, rules::Action::Move, rules::Action::Finished];
    let wire = [GameAction::Init, GameAction::Move, GameAction::Finished];
    for i in 0..3 {
        assert_eq!(GameAction::from(all[i]), wire[i]);
        assert_eq!(rules::Action::from(wire[i]), all[i]);
        assert_eq!(rules::Action::from(GameAction::from(all[i])), all[i]);
    }
}

#[test]
fn game_answers_cross_to_the_wire() {
    assert_eq!(GameActionResponse::from(ygame::server::actor_msg::GameActionResponse::Accepted), GameActionResponse::Accepted);
    assert_eq!(
        GameActionResponse::from(ygame::server::actor_msg::GameActionResponse::Illegal { reason: 402 }),
        GameActionResponse::Illegal { reason: 402 }
    );
}

#[test]
fn handshake_messages_compare_by_value() {
    assert_eq!(
        HelloMessage { known_protocols: vec![1, 2] },
        HelloMessage { known_protocols: vec![1, 2] }
    );
    assert_ne!(
        HelloResponseMessage::Success { protocol_version: 1 },
        HelloResponseMessage::Failure { should_reload: true }
    );
    assert_ne!(DisconnectMessage::FromClient, DisconnectMessage::FromServer);
}
