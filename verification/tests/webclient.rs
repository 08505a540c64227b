use ygame::client::app::game;
use ygame::client::app::lobby;
use ygame::client::app::login::{LoginInfo, StoredLogin};
use ygame::client::app::state::{AppState, LoginState};
use ygame::client::app::lobby::LobbyGames;
use ygame::client::app::{
    history_entry, on_connected, HistoryEntry,
    forget_user_label, goes_back_on_socket_error, initial_state, on_enter_state,
    on_history_back, on_leave_state, parse_subfolder, same_state, starts_rolling_back,
    state_path, to_full_url, BackStep, UiOp,
};
use ygame::client::conn::loader::{show_connecting, show_duration, show_loading, Loader};
use ygame::client::conn::{get_ws_address, reconnect_tick, ReconnectTick};
use ygame::text::{contains_text, trim_end, trim_start};
use ygame::client::conn::handler::handshake::{serialisation_failed, send_failed, HandshakeHandler};
use ygame::client::conn::handler::v1::login::LoginHandler;
use ygame::client::conn::handler::v1::running::{LobbyEvent, RunningHandler};
use ygame::client::conn::handler::{unexpected_frame, FrameKind, Handler};
use ygame::client::conn::{classify_text, next_reconnect_wait, wait_label, TextMessage};
use ygame::client::err::{panic_text, render_error, Error};
use ygame::client::utils::history::{
    get_current_hist_state, is_first_game_state, is_game_state, HIST_GAME_PREFIX, HIST_INIT_PREFIX,
};
use ygame::client::utils::time::interval_millis;
use ygame::protocol::error::ErrorMessage;
use ygame::protocol::handshake::{HelloMessage, HelloResponseMessage};
use ygame::protocol::v1 as msg;

fn all_states() -> Vec<AppState> {
    vec![
        AppState::Loading,
        AppState::Login(LoginState::NewUser),
        AppState::Login(LoginState::ExistingUser),
        AppState::Login(LoginState::ChooseGameMode),
        AppState::Login(LoginState::OpponentName),
        AppState::ConnectingToLobby,
        AppState::Lobby,
        AppState::ConnectingToGame { game_uid: "g1".to_string() },
        AppState::InNetGame { game_uid: "g1".to_string() },
        AppState::InLocalGame,
    ]
}

#[test]
fn history_prefixes() {
    assert_eq!(HIST_GAME_PREFIX, "ygame_");
    assert_eq!(HIST_INIT_PREFIX, "init_");
    assert!(is_game_state("ygame_lobby"));
    assert!(is_game_state("ygame_"));
    assert!(!is_game_state("ygame"));
    assert!(!is_game_state(""));
    assert!(!is_game_state("other_ygame_"));
    assert!(is_first_game_state("ygame_init_lobby"));
    assert!(is_first_game_state("ygame_init_"));
    assert!(!is_first_game_state("ygame_lobby"));
    assert!(!is_first_game_state("init_lobby"));
    assert!(!is_first_game_state("ygame_init"));
    assert_eq!(get_current_hist_state(None), None);
    assert_eq!(get_current_hist_state(Some(String::new())), None);
    assert_eq!(get_current_hist_state(Some("ygame_lobby".to_string())), Some("ygame_lobby".to_string()));
}

#[test]
fn states_from_addresses() {
    assert_eq!(AppState::from_url("/lobby".to_string(), &None), Some(AppState::Lobby));
    assert_eq!(AppState::from_url("/local".to_string(), &None), Some(AppState::InLocalGame));
    assert_eq!(
        AppState::from_url("/game/abc".to_string(), &None),
        Some(AppState::InNetGame { game_uid: "abc".to_string() })
    );
    assert_eq!(AppState::from_url("/game/".to_string(), &None), None);
    assert_eq!(AppState::from_url("/game".to_string(), &None), None);
    assert_eq!(AppState::from_url("/".to_string(), &None), None);
    assert_eq!(AppState::from_url("".to_string(), &None), None);
    assert_eq!(AppState::from_url("lobby".to_string(), &None), None);
    assert_eq!(AppState::from_url("/lobby/".to_string(), &None), None);
    assert_eq!(AppState::from_url("/other".to_string(), &None), None);
}

#[test]
fn states_from_addresses_in_a_folder() {
    let folder = Some("play".to_string());
    assert_eq!(AppState::from_url("/play/lobby".to_string(), &folder), Some(AppState::Lobby));
    assert_eq!(
        AppState::from_url("/play/game/é1".to_string(), &folder),
        Some(AppState::InNetGame { game_uid: "é1".to_string() })
    );
    assert_eq!(AppState::from_url("/lobby".to_string(), &folder), None);
    assert_eq!(AppState::from_url("/play".to_string(), &folder), None);
    assert_eq!(AppState::from_url("/playlobby".to_string(), &folder), None);
    assert_eq!(AppState::from_url("/play/".to_string(), &folder), None);
}

#[test]
fn entries_of_the_history() {
    let expected = [
        "loading",
        "new_user",
        "existing_user",
        "game_mode",
        "opponent_name",
        "lobby",
        "lobby",
        "in_game_g1",
        "in_game_g1",
        "in_local_game",
    ];
    for (state, tag) in all_states().iter().zip(expected) {
        assert_eq!(state.to_hist_state(false), format!("ygame_{}", tag));
        assert_eq!(state.to_hist_state(true), format!("ygame_init_{}", tag));
    }
}

#[test]
fn states_from_the_history() {
    assert_eq!(AppState::from_hist_state("ygame_lobby"), Some(AppState::Lobby));
    assert_eq!(AppState::from_hist_state("ygame_init_lobby"), Some(AppState::Lobby));
    assert_eq!(
        AppState::from_hist_state("ygame_opponent_name"),
        Some(AppState::Login(LoginState::OpponentName))
    );
    assert_eq!(
        AppState::from_hist_state("ygame_in_game_42"),
        Some(AppState::InNetGame { game_uid: "42".to_string() })
    );
    assert_eq!(AppState::from_hist_state("ygame_in_game_"), None);
    assert_eq!(AppState::from_hist_state("ygame_"), None);
    assert_eq!(AppState::from_hist_state("ygame_init_"), None);
    assert_eq!(AppState::from_hist_state("lobby"), None);
    assert_eq!(AppState::from_hist_state("ygame_nowhere"), None);
    assert_eq!(AppState::from_hist_state("ygame_init_init_lobby"), None);
}

#[test]
fn a_state_written_to_the_history_reads_back() {
    for state in all_states() {
        let back = match &state {
            AppState::ConnectingToLobby => AppState::Lobby,
            AppState::ConnectingToGame { game_uid } => AppState::InNetGame { game_uid: game_uid.clone() },
            other => other.clone(),
        };
        for first in [false, true] {
            assert_eq!(
                AppState::from_hist_state(&state.to_hist_state(first)),
                Some(back.clone())
            );
        }
    }
}

#[test]
fn titles_and_addresses() {
    let titles = [
        "Chargement",
        "Bienvenu dans le jeu",
        "Bienvenu dans le jeu",
        "Type de connection",
        "Bienvenu dans le jeu",
        "Choix de la partie",
        "Choix de la partie",
        "Partie en ligne",
        "Partie en ligne",
        "Partie locale",
    ];
    let urls = ["/", "/", "/", "/", "/", "/lobby", "/lobby", "/game/g1", "/game/g1", "/local"];
    for ((state, title), url) in all_states().iter().zip(titles).zip(urls) {
        assert_eq!(state.title(), title);
        assert_eq!(state.url(), url);
    }
}

#[test]
fn an_address_of_a_state_reads_back() {
    for state in [
        AppState::Lobby,
        AppState::InLocalGame,
        AppState::InNetGame { game_uid: "77".to_string() },
    ] {
        assert_eq!(AppState::from_url(state.url(), &None), Some(state));
    }
}

#[test]
fn what_is_known_of_the_user() {
    assert!(LoginInfo::Nobody.is_none());
    assert!(!LoginInfo::NewUser { username: "Ada".to_string() }.is_none());
    assert!(!LoginInfo::ExistingUser { username: "Ada".to_string(), user_uid: None, session_uid: None }
        .is_none());
}

#[test]
fn what_the_browser_keeps_of_the_user() {
    assert_eq!(
        LoginInfo::Nobody.save(),
        StoredLogin { username: None, user_uid: None, session_uid: None }
    );
    assert_eq!(
        LoginInfo::NewUser { username: "Ada".to_string() }.save(),
        StoredLogin { username: Some("Ada".to_string()), user_uid: None, session_uid: None }
    );
    assert_eq!(
        LoginInfo::ExistingUser {
            username: "Ada".to_string(),
            user_uid: Some("u".to_string()),
            session_uid: None,
        }
        .save(),
        StoredLogin {
            username: Some("Ada".to_string()),
            user_uid: Some("u".to_string()),
            session_uid: None
        }
    );
}

#[test]
fn the_user_that_the_browser_has_kept() {
    let stored = |n: Option<&str>, u: Option<&str>, s: Option<&str>| StoredLogin {
        username: n.map(|v| v.to_string()),
        user_uid: u.map(|v| v.to_string()),
        session_uid: s.map(|v| v.to_string()),
    };
    assert_eq!(LoginInfo::load(&stored(None, Some("u"), Some("s"))), LoginInfo::Nobody);
    assert_eq!(LoginInfo::load(&stored(Some(""), Some("u"), Some("s"))), LoginInfo::Nobody);
    assert_eq!(
        LoginInfo::load(&stored(Some("Ada"), None, None)),
        LoginInfo::NewUser { username: "Ada".to_string() }
    );
    assert_eq!(
        LoginInfo::load(&stored(Some("Ada"), Some(""), Some(""))),
        LoginInfo::NewUser { username: "Ada".to_string() }
    );
    assert_eq!(
        LoginInfo::load(&stored(Some("Ada"), Some("u"), Some(""))),
        LoginInfo::ExistingUser {
            username: "Ada".to_string(),
            user_uid: Some("u".to_string()),
            session_uid: None
        }
    );
    let full = LoginInfo::ExistingUser {
        username: "Ada".to_string(),
        user_uid: Some("u".to_string()),
        session_uid: Some("s".to_string()),
    };
    assert_eq!(LoginInfo::load(&full.save()), full);
}

#[test]
fn what_the_user_is_told_of_a_failure() {
    let plain = "Communicaton with the server failed";
    let reload = "Communicaton with the server failed. Please reload the page cleaning your cache";
    let p = Error::ProtocolError { details: "d".to_string(), should_reload: false };
    let r = Error::ProtocolError { details: "d".to_string(), should_reload: true };
    let c = Error::ConnectionError { details: "d".to_string() };
    let i = Error::ImplError { details: "d".to_string() };
    assert_eq!(render_error(&p), plain);
    assert_eq!(render_error(&r), reload);
    assert_eq!(render_error(&c), plain);
    assert_eq!(render_error(&i), "Fatal internal error");
    assert_eq!(p.to_text(), plain);
    assert_eq!(i.details(), "d");
    assert_eq!(panic_text(Some("boom")), "Erreur fatale: boom");
    assert_eq!(panic_text(None), "Une erreur fatale est survenue");
}

#[test]
fn the_wait_before_connecting_again() {
    assert_eq!(next_reconnect_wait(5_000), 6_000);
    assert_eq!(next_reconnect_wait(27_999), 28_999);
    assert_eq!(next_reconnect_wait(28_000), 29_000);
    assert_eq!(next_reconnect_wait(29_000), 29_000);
    assert_eq!(next_reconnect_wait(u64::MAX), 29_000);
    assert_eq!(wait_label(6_000), "6s");
    assert_eq!(wait_label(29_999), "29s");
    assert_eq!(wait_label(0), "0s");
    assert_eq!(interval_millis(1_000), 1_000);
    assert_eq!(interval_millis(u32::MAX as u128), u32::MAX);
    assert_eq!(interval_millis(u32::MAX as u128 + 1), u32::MAX);
}

#[test]
fn text_frames_from_the_server() {
    let report = ErrorMessage {
        error_code: Some(102),
        error_description: "Unexpected text message".to_string(),
        should_reload: true,
        should_reconnect: false,
        should_handshake: true,
    };
    assert_eq!(classify_text("ping", None), TextMessage::Ping);
    assert_eq!(classify_text("ping", Some(report.clone())), TextMessage::Ping);
    assert_eq!(classify_text("pong", None), TextMessage::Pong);
    assert_eq!(classify_text("{}", None), TextMessage::Other);
    assert_eq!(
        classify_text("{..}", Some(report)),
        TextMessage::Failure(Error::ProtocolError {
            details: "Unexpected text message".to_string(),
            should_reload: true,
        })
    );
}

#[test]
fn frames_that_a_phase_does_not_expect() {
    let handshake = Handler::Handshake(HandshakeHandler {});
    let login = Handler::Login(LoginHandler {});
    let running = Handler::Running(RunningHandler::new());
    assert!(handshake.expects(FrameKind::Text));
    assert!(!handshake.expects(FrameKind::ArrayBuffer));
    assert!(!handshake.expects(FrameKind::Blob));
    assert!(login.expects(FrameKind::ArrayBuffer));
    assert!(!login.expects(FrameKind::Text));
    assert!(running.expects(FrameKind::ArrayBuffer));
    assert!(!running.expects(FrameKind::Blob));
    assert_eq!(
        unexpected_frame(FrameKind::Text),
        Error::ProtocolError { details: "Unexpected text message".to_string(), should_reload: false }
    );
    assert_eq!(
        unexpected_frame(FrameKind::ArrayBuffer),
        Error::ProtocolError {
            details: "Unexpected array buffer message".to_string(),
            should_reload: false
        }
    );
    assert_eq!(
        unexpected_frame(FrameKind::Blob),
        Error::ProtocolError { details: "Unexpected blob message".to_string(), should_reload: false }
    );
    assert_eq!(
        serialisation_failed(),
        Error::ImplError { details: "Serialisation failed".to_string() }
    );
    assert_eq!(
        send_failed(),
        Error::ConnectionError { details: "Unable to send message to the server".to_string() }
    );
}

#[test]
fn the_page_side_of_the_handshake() {
    let h = HandshakeHandler {};
    assert_eq!(h.on_start(), HelloMessage { known_protocols: vec![1] });
    assert_eq!(
        h.on_text(Some(HelloResponseMessage::Success { protocol_version: 1 })),
        Ok(Some(Handler::Login(LoginHandler {})))
    );
    let none = |reload: bool| {
        Err(Error::ProtocolError {
            details: "No compatible protocol version".to_string(),
            should_reload: reload,
        })
    };
    assert_eq!(h.on_text(Some(HelloResponseMessage::Success { protocol_version: 2 })), none(false));
    assert_eq!(h.on_text(Some(HelloResponseMessage::Failure { should_reload: true })), none(true));
    assert_eq!(h.on_text(Some(HelloResponseMessage::Failure { should_reload: false })), none(false));
    assert_eq!(
        h.on_text(None),
        Err(Error::ProtocolError { details: "Desserialisation error".to_string(), should_reload: false })
    );
}

#[test]
fn the_page_side_of_the_login() {
    let h = LoginHandler {};
    assert_eq!(
        h.on_start(LoginInfo::Nobody),
        Err(Error::ImplError { details: "Login withou login info".to_string() })
    );
    assert_eq!(
        h.on_start(LoginInfo::NewUser { username: "Ada".to_string() }),
        Ok(msg::LoginMessage { name: "Ada".to_string(), uid: None, session_uid: None })
    );
    assert_eq!(
        h.on_start(LoginInfo::ExistingUser {
            username: "Ada".to_string(),
            user_uid: Some("u".to_string()),
            session_uid: Some("s".to_string()),
        }),
        Ok(msg::LoginMessage {
            name: "Ada".to_string(),
            uid: Some("u".to_string()),
            session_uid: Some("s".to_string()),
        })
    );
    assert_eq!(
        h.on_array_buf(Some(msg::LoginResponseMessage {
            name: "Ada".to_string(),
            user_uid: "u".to_string(),
            session_uid: "s".to_string(),
        })),
        Ok((
            LoginInfo::ExistingUser {
                username: "Ada".to_string(),
                user_uid: Some("u".to_string()),
                session_uid: Some("s".to_string()),
            },
            Handler::Running(RunningHandler { request_index: 1 })
        ))
    );
    assert_eq!(
        h.on_array_buf(None),
        Err(Error::ProtocolError { details: "Desserialisation error".to_string(), should_reload: false })
    );
}

#[test]
fn the_page_side_of_the_running_phase() {
    let mut h = RunningHandler::new();
    assert_eq!(h.request_index, 1);
    assert_eq!(
        h.on_start(),
        msg::RunningClientMessage::Lobby(msg::LobbyClientMessage::AskGameList)
    );
    assert_eq!(
        h.create_game(),
        msg::RunningClientMessage::Lobby(msg::LobbyClientMessage::CreateGame {
            request_uid: "1".to_string()
        })
    );
    assert_eq!(
        h.create_game(),
        msg::RunningClientMessage::Lobby(msg::LobbyClientMessage::CreateGame {
            request_uid: "2".to_string()
        })
    );
    assert_eq!(h.request_index, 3);
    assert_eq!(
        h.on_array_buf(None),
        Err(Error::ProtocolError { details: "Desserialisation error".to_string(), should_reload: false })
    );
    assert_eq!(
        h.on_array_buf(Some(msg::RunningServerMessage::Game {
            game_id: "g".to_string(),
            message: msg::GameServerMessage::Action(msg::GameAction::Init),
        })),
        Ok(None)
    );
}

#[test]
fn messages_of_the_lobby_as_the_page_shows_them() {
    let h = RunningHandler::new();
    let wire = |id: &str, status: msg::GameStatus| msg::GameOverview {
        id: id.to_string(),
        name: "n".to_string(),
        status,
    };
    let shown = |id: &str, status: lobby::GameStatus| lobby::GameOverview {
        id: id.to_string(),
        name: "n".to_string(),
        status,
    };
    assert_eq!(
        h.on_lobby_message(msg::LobbyServerMessages::GameList {
            list: vec![
                wire("a", msg::GameStatus::Joinable),
                wire("b", msg::GameStatus::Rejoinable),
                wire("c", msg::GameStatus::Full),
                wire("d", msg::GameStatus::Finished),
            ]
        }),
        LobbyEvent::GameList(vec![
            shown("a", lobby::GameStatus::Joinable),
            shown("b", lobby::GameStatus::Rejoinable),
            shown("c", lobby::GameStatus::Full),
            shown("d", lobby::GameStatus::Finished),
        ])
    );
    assert_eq!(
        h.on_lobby_message(msg::LobbyServerMessages::NewGame(wire("a", msg::GameStatus::Full))),
        LobbyEvent::NewGame(shown("a", lobby::GameStatus::Full))
    );
    assert_eq!(
        h.on_array_buf(Some(msg::RunningServerMessage::Lobby(
            msg::LobbyServerMessages::GameInfoChanged(wire("a", msg::GameStatus::Finished))
        ))),
        Ok(Some(LobbyEvent::GameChanged(shown("a", lobby::GameStatus::Finished))))
    );
    assert_eq!(
        h.on_lobby_message(msg::LobbyServerMessages::GameRemoved { id: "a".to_string() }),
        LobbyEvent::GameRemoved("a".to_string())
    );
    let details = msg::GameDetails {
        id: "a".to_string(),
        name: "n".to_string(),
        is_finished: true,
        seat_1_username: Some("Ada".to_string()),
        seat_2_username: None,
    };
    let page = game::GameDetails {
        id: "a".to_string(),
        name: "n".to_string(),
        is_finished: true,
        seat_1_username: Some("Ada".to_string()),
        seat_2_username: None,
    };
    assert_eq!(
        h.on_lobby_message(msg::LobbyServerMessages::GameCreated {
            request_uid: "1".to_string(),
            info: details.clone(),
            role: msg::UserRole::Seat2,
        }),
        LobbyEvent::GameCreated { info: page.clone(), role: game::UserRole::Seat2 }
    );
    assert_eq!(
        h.on_lobby_message(msg::LobbyServerMessages::GameJoined {
            info: details,
            role: msg::UserRole::Observer,
            moves: vec![msg::GameAction::Init, msg::GameAction::Move, msg::GameAction::Finished],
        }),
        LobbyEvent::GameJoined {
            info: page,
            role: game::UserRole::Observer,
            moves: vec![game::GameAction::Init, game::GameAction::Move, game::GameAction::Finished],
        }
    );
    assert_eq!(game::UserRole::from(msg::UserRole::Seat1), game::UserRole::Seat1);
}

#[test]
fn where_a_visit_begins() {
    assert_eq!(initial_state(&LoginInfo::Nobody), AppState::Login(LoginState::NewUser));
    assert_eq!(
        initial_state(&LoginInfo::NewUser { username: "Ada".to_string() }),
        AppState::Login(LoginState::ExistingUser)
    );
    assert_eq!(
        initial_state(&LoginInfo::ExistingUser {
            username: "Ada".to_string(),
            user_uid: None,
            session_uid: None
        }),
        AppState::Login(LoginState::ExistingUser)
    );
    assert!(!starts_rolling_back(&None));
    assert!(!starts_rolling_back(&Some("elsewhere".to_string())));
    assert!(!starts_rolling_back(&Some("ygame_init_lobby".to_string())));
    assert!(starts_rolling_back(&Some("ygame_lobby".to_string())));
}

#[test]
fn going_back_in_the_history() {
    assert_eq!(on_history_back(true, "ygame_init_new_user"), BackStep::StartOver);
    assert_eq!(on_history_back(true, "ygame_lobby"), BackStep::GoBack);
    assert_eq!(on_history_back(true, "elsewhere"), BackStep::GoBack);
    assert_eq!(on_history_back(false, "ygame_lobby"), BackStep::Transition(AppState::Lobby));
    assert_eq!(
        on_history_back(false, "ygame_init_in_game_7"),
        BackStep::Transition(AppState::InNetGame { game_uid: "7".to_string() })
    );
    assert_eq!(on_history_back(false, "elsewhere"), BackStep::Transition(AppState::Loading));
}

#[test]
fn a_failed_connection_sends_the_page_back() {
    let expected = [false, false, false, false, false, false, true, false, true, false];
    for (state, back) in all_states().iter().zip(expected) {
        assert_eq!(goes_back_on_socket_error(state), back);
    }
}

#[test]
fn states_compare_by_value() {
    let states = all_states();
    for (i, a) in states.iter().enumerate() {
        for (j, b) in states.iter().enumerate() {
            assert_eq!(same_state(a, b), i == j);
        }
    }
    assert!(!same_state(
        &AppState::InNetGame { game_uid: "a".to_string() },
        &AppState::InNetGame { game_uid: "b".to_string() }
    ));
}

#[test]
fn what_the_page_does_when_it_leaves_a_state() {
    let lobby = AppState::Lobby;
    let login = AppState::Login(LoginState::NewUser);
    let mode = AppState::Login(LoginState::ChooseGameMode);
    let game = AppState::InNetGame { game_uid: "g".to_string() };
    assert_eq!(on_leave_state(&AppState::Loading, &login), vec![UiOp::HideLoader, UiOp::Disconnect]);
    assert_eq!(on_leave_state(&login, &mode), vec![UiOp::Disconnect]);
    assert_eq!(on_leave_state(&mode, &AppState::ConnectingToLobby), vec![UiOp::HideLoginForm]);
    assert_eq!(
        on_leave_state(&mode, &AppState::InLocalGame),
        vec![UiOp::HideLoginForm, UiOp::Disconnect]
    );
    assert_eq!(on_leave_state(&AppState::ConnectingToLobby, &lobby), vec![UiOp::HideLoader]);
    assert_eq!(on_leave_state(&lobby, &game), vec![UiOp::HideLobbyForm]);
    assert_eq!(on_leave_state(&game, &lobby), vec![UiOp::HideGameSection]);
    assert_eq!(
        on_leave_state(&AppState::InLocalGame, &AppState::Loading),
        vec![UiOp::HideGameSection, UiOp::Disconnect]
    );
    assert_eq!(
        on_leave_state(&AppState::ConnectingToGame { game_uid: "g".to_string() }, &game),
        vec![UiOp::HideLoader]
    );
}

#[test]
fn what_the_page_does_when_it_enters_a_state() {
    let game = AppState::InNetGame { game_uid: "g".to_string() };
    assert_eq!(on_enter_state(&AppState::Loading, false), vec![UiOp::ShowLoading]);
    assert_eq!(on_enter_state(&AppState::Loading, true), vec![UiOp::ShowLoading]);
    assert_eq!(
        on_enter_state(&AppState::Login(LoginState::OpponentName), true),
        vec![UiOp::ShowLoginState(LoginState::OpponentName)]
    );
    assert_eq!(on_enter_state(&AppState::InLocalGame, false), vec![UiOp::ShowGameSection]);
    assert_eq!(on_enter_state(&AppState::Lobby, false), vec![UiOp::Connect, UiOp::ShowLobbyForm]);
    assert_eq!(on_enter_state(&AppState::Lobby, true), vec![UiOp::Connected, UiOp::ShowLobbyForm]);
    assert_eq!(on_enter_state(&game, false), vec![UiOp::Connect, UiOp::ShowGameSection]);
    assert_eq!(
        on_enter_state(&AppState::ConnectingToLobby, false),
        vec![UiOp::Connect, UiOp::ShowConnecting]
    );
    assert_eq!(
        on_enter_state(&AppState::ConnectingToGame { game_uid: "g".to_string() }, true),
        vec![UiOp::Connected, UiOp::ShowConnecting]
    );
}

#[test]
fn addresses_of_states() {
    assert_eq!(state_path(&None, &AppState::Lobby), "/lobby");
    assert_eq!(state_path(&Some("play".to_string()), &AppState::Lobby), "/play/lobby");
    assert_eq!(state_path(&Some("/play".to_string()), &AppState::Loading), "//play/");
    assert_eq!(to_full_url("https://h.example/", "/play/lobby"), "https://h.example/play/lobby");
    assert_eq!(to_full_url("https://h.example", "play"), "https://h.example/play");
    assert_eq!(to_full_url("https://h.example///", "///"), "https://h.example/");
    assert_eq!(parse_subfolder(None), None);
    assert_eq!(parse_subfolder(Some(String::new())), None);
    assert_eq!(parse_subfolder(Some("play".to_string())), Some("/play".to_string()));
    assert_eq!(parse_subfolder(Some("/play".to_string())), Some("/play".to_string()));
    assert_eq!(forget_user_label("Ada"), "Je ne suis pas Ada");
    assert_eq!(
        show_duration("6s"),
        Loader { label: "Reconnection dans 6s".to_string(), spinner: false }
    );
    assert_eq!(show_connecting(), Loader { label: "Connecting".to_string(), spinner: true });
    assert_eq!(show_loading(), Loader { label: "Loading".to_string(), spinner: true });
}

#[test]
fn trimming_and_searching() {
    assert_eq!(trim_start("//a/b/", '/'), "a/b/");
    assert_eq!(trim_start("a", '/'), "a");
    assert_eq!(trim_start("///", '/'), "");
    assert_eq!(trim_start("", '/'), "");
    assert_eq!(trim_end("/a/b//", '/'), "/a/b");
    assert_eq!(trim_end("a", '/'), "a");
    assert_eq!(trim_end("//", '/'), "");
    assert_eq!(trim_end("é//", '/'), "é");
    assert!(contains_text("ws://host", "://"));
    assert!(contains_text("://", "://"));
    assert!(!contains_text("host:80/", "://"));
    assert!(!contains_text(":/", "://"));
    assert!(contains_text("abc", ""));
    assert!(contains_text("", ""));
    assert!(!contains_text("", "a"));
}

#[test]
fn the_address_of_the_socket() {
    let none: Option<String> = None;
    let some = |s: &str| Some(s.to_string());
    assert_eq!(get_ws_address(false, "h.example:8080", "h.example", none.clone(), none.clone()),
        "ws://h.example:8080/");
    assert_eq!(get_ws_address(true, "h.example", "h.example", none.clone(), some("/play")),
        "wss://h.example/play");
    assert_eq!(get_ws_address(true, "h.example", "h.example", some("ws://other:9/"), some("/play")),
        "ws://other:9/");
    assert_eq!(get_ws_address(false, "h.example:8080", "h.example", some("9000"), some("play")),
        "ws://h.example:9000/play");
    assert_eq!(get_ws_address(false, "h.example:8080", "h.example", some("+9000"), none.clone()),
        "ws://h.example:+9000/");
    assert_eq!(get_ws_address(false, "h.example", "h.example", some("65536"), none.clone()),
        "ws://65536/");
    assert_eq!(get_ws_address(true, "h.example", "h.example", some("other.example/"), some("//play")),
        "wss://other.example/play");
    assert_eq!(get_ws_address(false, "h.example", "h.example", some(""), none.clone()),
        "ws:///");
    assert_eq!(get_ws_address(false, "h.example", "h.example", some("0"), none),
        "ws://h.example:0/");
}

#[test]
fn the_games_that_the_page_knows_of() {
    let line = |id: &str, name: &str, status: lobby::GameStatus| lobby::GameOverview {
        id: id.to_string(),
        name: name.to_string(),
        status,
    };
    let mut book = LobbyGames::new();
    assert_eq!(book.get("a"), None);
    book.upsert(line("a", "one", lobby::GameStatus::Joinable));
    book.upsert(line("b", "two", lobby::GameStatus::Full));
    assert_eq!(book.get("a"), Some(&line("a", "one", lobby::GameStatus::Joinable)));
    book.upsert(line("a", "one", lobby::GameStatus::Finished));
    assert_eq!(book.get("a"), Some(&line("a", "one", lobby::GameStatus::Finished)));
    assert_eq!(book.get("b"), Some(&line("b", "two", lobby::GameStatus::Full)));
    book.remove("a");
    assert_eq!(book.get("a"), None);
    assert_eq!(book.get("b"), Some(&line("b", "two", lobby::GameStatus::Full)));
    book.remove("zz");
    assert_eq!(book.get("b"), Some(&line("b", "two", lobby::GameStatus::Full)));
    let listed = LobbyGames::from_list(vec![
        line("x", "first", lobby::GameStatus::Joinable),
        line("y", "other", lobby::GameStatus::Joinable),
        line("x", "second", lobby::GameStatus::Rejoinable),
    ]);
    assert_eq!(listed.get("x"), Some(&line("x", "second", lobby::GameStatus::Rejoinable)));
    assert_eq!(listed.get("y"), Some(&line("y", "other", lobby::GameStatus::Joinable)));
    assert_eq!(listed.get("z"), None);
}

#[test]
fn what_the_page_shows_once_connected() {
    assert_eq!(on_connected(&AppState::Lobby), vec![UiOp::HideLoader, UiOp::ShowLobbyForm]);
    assert_eq!(on_connected(&AppState::ConnectingToLobby), vec![]);
    assert_eq!(on_connected(&AppState::Loading), vec![]);
}

#[test]
fn entries_for_the_browser() {
    assert_eq!(
        history_entry(&AppState::Lobby, true, &None, "https://h.example"),
        HistoryEntry {
            state: "ygame_init_lobby".to_string(),
            title: "Choix de la partie",
            url: "https://h.example/lobby".to_string(),
        }
    );
    assert_eq!(
        history_entry(
            &AppState::InNetGame { game_uid: "7".to_string() },
            false,
            &Some("play".to_string()),
            "https://h.example/"
        ),
        HistoryEntry {
            state: "ygame_in_game_7".to_string(),
            title: "Partie en ligne",
            url: "https://h.example/play/game/7".to_string(),
        }
    );
}

#[test]
fn waiting_to_connect_again() {
    assert_eq!(reconnect_tick(6_000, 6_000), ReconnectTick::Connect);
    assert_eq!(reconnect_tick(6_000, 9_000), ReconnectTick::Connect);
    assert_eq!(reconnect_tick(6_000, 0), ReconnectTick::Show("7s".to_string()));
    assert_eq!(reconnect_tick(6_000, 1), ReconnectTick::Show("6s".to_string()));
    assert_eq!(reconnect_tick(6_000, 5_999), ReconnectTick::Show("1s".to_string()));
    assert_eq!(reconnect_tick(6_000, 5_000), ReconnectTick::Show("2s".to_string()));
}
