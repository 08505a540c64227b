//! Where the user is in the application, and how that reads in the address
//! bar and in the browser's history.

use vstd::prelude::*;
use crate::client::utils::history;
use crate::text::{after_prefix, same_text, skip_chars, starts_with, strip_prefix};

verus! {

/// A step of the login.
#[derive(Clone, Copy, Debug, PartialEq, Eq, Structural)]
pub enum LoginState {
    NewUser,
    ExistingUser,
    ChooseGameMode,
    OpponentName,
}

/// Where the user is in the application.
#[derive(Clone, Debug, PartialEq, Eq)]
pub enum AppState {
    Loading,
    Login(LoginState),
    ConnectingToLobby,
    Lobby,
    ConnectingToGame { game_uid: String },
    InNetGame { game_uid: String },
    InLocalGame,
}

pub enum AppStateView {
    Loading,
    Login(LoginState),
    ConnectingToLobby,
    Lobby,
    ConnectingToGame { game_uid: Seq<char> },
    InNetGame { game_uid: Seq<char> },
    InLocalGame,
}

impl View for AppState {
    type V = AppStateView;

    open spec fn view(&self) -> AppStateView {
        match self {
            AppState::Loading => AppStateView::Loading,
            AppState::Login(l) => AppStateView::Login(*l),
            AppState::ConnectingToLobby => AppStateView::ConnectingToLobby,
            AppState::Lobby => AppStateView::Lobby,
            AppState::ConnectingToGame { game_uid } => AppStateView::ConnectingToGame {
                game_uid: game_uid@,
            },
            AppState::InNetGame { game_uid } => AppStateView::InNetGame { game_uid: game_uid@ },
            AppState::InLocalGame => AppStateView::InLocalGame,
        }
    }
}

/// The state held by an optional state.
pub open spec fn state_of(state: Option<AppState>) -> Option<AppStateView> {
    match state {
        Some(s) => Some(s@),
        None => None,
    }
}

/// The state that a path stands for, the path taken after the slash and the
/// folder of the application.
pub open spec fn state_of_path(path: Seq<char>) -> Option<AppStateView> {
    if path == "lobby"@ {
        Some(AppStateView::Lobby)
    } else if path == "local"@ {
        Some(AppStateView::InLocalGame)
    } else if "game/"@.is_prefix_of(path) && path.len() > 5 {
        Some(AppStateView::InNetGame { game_uid: path.skip(5) })
    } else {
        None
    }
}

/// The state that the path of an address stands for. The path begins with a
/// slash; where the application lives in a folder, the folder and a slash
/// come next.
pub open spec fn state_of_url(url: Seq<char>, subfolder: Option<Seq<char>>) -> Option<
    AppStateView,
> {
    match after_prefix(url, "/"@) {
        None => None,
        Some(rest) => match subfolder {
            None => state_of_path(rest),
            Some(folder) => match after_prefix(rest, folder + "/"@) {
                None => None,
                Some(path) => state_of_path(path),
            },
        },
    }
}

/// The state that the tail of an entry of the history stands for.
pub open spec fn state_of_tag(tag: Seq<char>) -> Option<AppStateView> {
    if tag == "lobby"@ {
        Some(AppStateView::Lobby)
    } else if tag == "opponent_name"@ {
        Some(AppStateView::Login(LoginState::OpponentName))
    } else if tag == "game_mode"@ {
        Some(AppStateView::Login(LoginState::ChooseGameMode))
    } else if tag == "existing_user"@ {
        Some(AppStateView::Login(LoginState::ExistingUser))
    } else if tag == "new_user"@ {
        Some(AppStateView::Login(LoginState::NewUser))
    } else if tag == "in_local_game"@ {
        Some(AppStateView::InLocalGame)
    } else if tag == "loading"@ {
        Some(AppStateView::Loading)
    } else if "in_game_"@.is_prefix_of(tag) && tag.len() > "in_game_"@.len() {
        Some(AppStateView::InNetGame { game_uid: tag.skip("in_game_"@.len() as int) })
    } else {
        None
    }
}

/// The state that an entry of the history stands for: the prefix of the
/// application, the mark of a first entry or not, and the tail.
pub open spec fn state_of_hist(hist_state: Seq<char>) -> Option<AppStateView> {
    match after_prefix(hist_state, history::HIST_GAME_PREFIX@) {
        None => None,
        Some(rest) => match after_prefix(rest, history::HIST_INIT_PREFIX@) {
            Some(tag) => state_of_tag(tag),
            None => state_of_tag(rest),
        },
    }
}

impl AppStateView {
    /// The tail of the entry of the history for the state.
    pub open spec fn tag(self) -> Seq<char> {
        match self {
            AppStateView::Loading => "loading"@,
            AppStateView::Login(LoginState::NewUser) => "new_user"@,
            AppStateView::Login(LoginState::ExistingUser) => "existing_user"@,
            AppStateView::Login(LoginState::ChooseGameMode) => "game_mode"@,
            AppStateView::Login(LoginState::OpponentName) => "opponent_name"@,
            AppStateView::Lobby => "lobby"@,
            AppStateView::ConnectingToLobby => "lobby"@,
            AppStateView::InNetGame { game_uid } => "in_game_"@ + game_uid,
            AppStateView::ConnectingToGame { game_uid } => "in_game_"@ + game_uid,
            AppStateView::InLocalGame => "in_local_game"@,
        }
    }

    /// The entry of the history for the state.
    pub open spec fn hist_state(self, add_first: bool) -> Seq<char> {
        history::HIST_GAME_PREFIX@ + (if add_first {
            history::HIST_INIT_PREFIX@
        } else {
            ""@
        }) + self.tag()
    }

    /// The title of the page in the state.
    pub open spec fn title(self) -> Seq<char> {
        match self {
            AppStateView::Loading => "Chargement"@,
            AppStateView::Login(LoginState::ChooseGameMode) => "Type de connection"@,
            AppStateView::Login(_) => "Bienvenu dans le jeu"@,
            AppStateView::Lobby => "Choix de la partie"@,
            AppStateView::ConnectingToLobby => "Choix de la partie"@,
            AppStateView::InNetGame { game_uid } => "Partie en ligne"@,
            AppStateView::ConnectingToGame { game_uid } => "Partie en ligne"@,
            AppStateView::InLocalGame => "Partie locale"@,
        }
    }

    /// The path of the address of the state, without the folder of the
    /// application.
    pub open spec fn url(self) -> Seq<char> {
        match self {
            AppStateView::Loading => "/"@,
            AppStateView::Login(_) => "/"@,
            AppStateView::Lobby => "/lobby"@,
            AppStateView::ConnectingToLobby => "/lobby"@,
            AppStateView::InNetGame { game_uid } => "/game/"@ + game_uid,
            AppStateView::ConnectingToGame { game_uid } => "/game/"@ + game_uid,
            AppStateView::InLocalGame => "/local"@,
        }
    }
}

impl AppStateView {
    /// The state as it reads in the history and in the address bar: on the
    /// way to the lobby or to a game reads as being there.
    pub open spec fn arrived(self) -> AppStateView {
        match self {
            AppStateView::ConnectingToLobby => AppStateView::Lobby,
            AppStateView::ConnectingToGame { game_uid } => AppStateView::InNetGame { game_uid },
            _ => self,
        }
    }

    /// Whether the state names its game, if it is in one.
    pub open spec fn names_its_game(self) -> bool {
        match self {
            AppStateView::ConnectingToGame { game_uid } => game_uid.len() > 0,
            AppStateView::InNetGame { game_uid } => game_uid.len() > 0,
            _ => true,
        }
    }
}

proof fn lemma_tags_are_known()
    ensures
        history::HIST_GAME_PREFIX@ == seq!['y', 'g', 'a', 'm', 'e', '_'],
        history::HIST_INIT_PREFIX@ == seq!['i', 'n', 'i', 't', '_'],
        ""@ == Seq::<char>::empty(),
        "loading"@ == seq!['l', 'o', 'a', 'd', 'i', 'n', 'g'],
        "new_user"@ == seq!['n', 'e', 'w', '_', 'u', 's', 'e', 'r'],
        "existing_user"@ == seq![
            'e',
            'x',
            'i',
            's',
            't',
            'i',
            'n',
            'g',
            '_',
            'u',
            's',
            'e',
            'r',
        ],
        "game_mode"@ == seq!['g', 'a', 'm', 'e', '_', 'm', 'o', 'd', 'e'],
        "opponent_name"@ == seq![
            'o',
            'p',
            'p',
            'o',
            'n',
            'e',
            'n',
            't',
            '_',
            'n',
            'a',
            'm',
            'e',
        ],
        "lobby"@ == seq!['l', 'o', 'b', 'b', 'y'],
        "in_game_"@ == seq!['i', 'n', '_', 'g', 'a', 'm', 'e', '_'],
        "in_local_game"@ == seq![
            'i',
            'n',
            '_',
            'l',
            'o',
            'c',
            'a',
            'l',
            '_',
            'g',
            'a',
            'm',
            'e',
        ],
{
    reveal_strlit("ygame_");
    reveal_strlit("init_");
    reveal_strlit("");
    reveal_strlit("loading");
    reveal_strlit("new_user");
    reveal_strlit("existing_user");
    reveal_strlit("game_mode");
    reveal_strlit("opponent_name");
    reveal_strlit("lobby");
    reveal_strlit("in_game_");
    reveal_strlit("in_local_game");
    assert(history::HIST_GAME_PREFIX@ =~= seq!['y', 'g', 'a', 'm', 'e', '_']);
    assert(history::HIST_INIT_PREFIX@ =~= seq!['i', 'n', 'i', 't', '_']);
    assert(""@ =~= Seq::<char>::empty());
    assert("loading"@ =~= seq!['l', 'o', 'a', 'd', 'i', 'n', 'g']);
    assert("new_user"@ =~= seq!['n', 'e', 'w', '_', 'u', 's', 'e', 'r']);
    assert("existing_user"@ =~= seq![
        'e',
        'x',
        'i',
        's',
        't',
        'i',
        'n',
        'g',
        '_',
        'u',
        's',
        'e',
        'r',
    ]);
    assert("game_mode"@ =~= seq!['g', 'a', 'm', 'e', '_', 'm', 'o', 'd', 'e']);
    assert("opponent_name"@ =~= seq![
        'o',
        'p',
        'p',
        'o',
        'n',
        'e',
        'n',
        't',
        '_',
        'n',
        'a',
        'm',
        'e',
    ]);
    assert("lobby"@ =~= seq!['l', 'o', 'b', 'b', 'y']);
    assert("in_game_"@ =~= seq!['i', 'n', '_', 'g', 'a', 'm', 'e', '_']);
    assert("in_local_game"@ =~= seq![
        'i',
        'n',
        '_',
        'l',
        'o',
        'c',
        'a',
        'l',
        '_',
        'g',
        'a',
        'm',
        'e',
    ]);
}

/// The tail of an entry of the history reads back as the state it was
/// written for.
proof fn lemma_tag_round_trip(s: AppStateView)
    requires
        s.names_its_game(),
    ensures
        state_of_tag(s.tag()) == Some(s.arrived()),
        !history::HIST_INIT_PREFIX@.is_prefix_of(s.tag()),
{
    lemma_tags_are_known();
    let tag = s.tag();
    let init = history::HIST_INIT_PREFIX@;
    if init.is_prefix_of(tag) {
        assert(init[2] == tag.subrange(0, init.len() as int)[2]);
        assert(init[0] == tag.subrange(0, init.len() as int)[0]);
    }
    match s {
        AppStateView::InNetGame { game_uid } => {
            assert(tag[3] == 'g');
            assert("in_game_"@ =~= tag.subrange(0, 8));
            assert(tag.skip(8) =~= game_uid);
        },
        AppStateView::ConnectingToGame { game_uid } => {
            assert(tag[3] == 'g');
            assert("in_game_"@ =~= tag.subrange(0, 8));
            assert(tag.skip(8) =~= game_uid);
        },
        _ => {
            if "in_game_"@.is_prefix_of(tag) {
                assert("in_game_"@[3] == tag.subrange(0, 8)[3]);
                assert("in_game_"@[0] == tag.subrange(0, 8)[0]);
            }
        },
    }
}

/// An entry of the history reads back as the state it was written for,
/// marked as the first entry of a visit or not: a state on the way to the
/// lobby or to a game reads as being there. A state in a game must name the
/// game.
pub proof fn lemma_hist_state_round_trip(s: AppStateView, add_first: bool)
    requires
        s.names_its_game(),
    ensures
        state_of_hist(s.hist_state(add_first)) == Some(s.arrived()),
{
    lemma_tags_are_known();
    lemma_tag_round_trip(s);
    let game = history::HIST_GAME_PREFIX@;
    let init = history::HIST_INIT_PREFIX@;
    let entry = s.hist_state(add_first);
    assert(game =~= entry.subrange(0, game.len() as int));
    if add_first {
        let rest = entry.skip(game.len() as int);
        assert(rest =~= init + s.tag());
        assert(init =~= rest.subrange(0, init.len() as int));
        assert(rest.skip(init.len() as int) =~= s.tag());
    } else {
        assert(entry.skip(game.len() as int) =~= s.tag());
    }
}

/// The state that a path stands for.
fn from_path(path: &str) -> (r: Option<AppState>)
    ensures
        state_of(r) == state_of_path(path@),
{
    proof {
        reveal_strlit("game/");
    }
    if same_text(path, "lobby") {
        Some(AppState::Lobby)
    } else if same_text(path, "local") {
        Some(AppState::InLocalGame)
    } else if starts_with(path, "game/") && path.unicode_len() > 5 {
        Some(AppState::InNetGame { game_uid: skip_chars(path, 5) })
    } else {
        None
    }
}

/// The state that the tail of an entry of the history stands for.
fn from_tag(tag: &str) -> (r: Option<AppState>)
    ensures
        state_of(r) == state_of_tag(tag@),
{
    proof {
        reveal_strlit("in_game_");
    }
    if same_text(tag, "lobby") {
        Some(AppState::Lobby)
    } else if same_text(tag, "opponent_name") {
        Some(AppState::Login(LoginState::OpponentName))
    } else if same_text(tag, "game_mode") {
        Some(AppState::Login(LoginState::ChooseGameMode))
    } else if same_text(tag, "existing_user") {
        Some(AppState::Login(LoginState::ExistingUser))
    } else if same_text(tag, "new_user") {
        Some(AppState::Login(LoginState::NewUser))
    } else if same_text(tag, "in_local_game") {
        Some(AppState::InLocalGame)
    } else if same_text(tag, "loading") {
        Some(AppState::Loading)
    } else if starts_with(tag, "in_game_") && tag.unicode_len() > 8 {
        Some(AppState::InNetGame { game_uid: skip_chars(tag, 8) })
    } else {
        None
    }
}

impl AppState {
    /// The state that the path of an address stands for.
    pub fn from_url(url: String, subfolder: &Option<String>) -> (r: Option<AppState>)
        ensures
            state_of(r) == state_of_url(url@, crate::text::text_of(*subfolder)),
    {
        let rest = match strip_prefix(url.as_str(), "/") {
            None => {
                return None;
            },
            Some(rest) => rest,
        };
        match subfolder {
            Some(subfolder) => {
                let mut folder = subfolder.clone();
                folder.append("/");
                match strip_prefix(rest.as_str(), folder.as_str()) {
                    None => None,
                    Some(path) => from_path(path.as_str()),
                }
            },
            None => from_path(rest.as_str()),
        }
    }

    /// The entry of the history for the state, marked as the first entry of
    /// a visit or not.
    pub fn to_hist_state(&self, add_first: bool) -> (r: String)
        ensures
            r@ == self@.hist_state(add_first),
    {
        let first_prefix = if add_first {
            history::HIST_INIT_PREFIX
        } else {
            ""
        };
        let mut out = String::from_str(history::HIST_GAME_PREFIX);
        out.append(first_prefix);
        match self {
            AppState::Loading => out.append("loading"),
            AppState::Login(LoginState::NewUser) => out.append("new_user"),
            AppState::Login(LoginState::ExistingUser) => out.append("existing_user"),
            AppState::Login(LoginState::ChooseGameMode) => out.append("game_mode"),
            AppState::Login(LoginState::OpponentName) => out.append("opponent_name"),
            AppState::Lobby => out.append("lobby"),
            AppState::ConnectingToLobby => out.append("lobby"),
            AppState::InNetGame { game_uid } => {
                out.append("in_game_");
                out.append(game_uid.as_str());
            },
            AppState::ConnectingToGame { game_uid } => {
                out.append("in_game_");
                out.append(game_uid.as_str());
            },
            AppState::InLocalGame => out.append("in_local_game"),
        }
        assert(out@ =~= self@.hist_state(add_first));
        out
    }

    /// The state that an entry of the history stands for.
    pub fn from_hist_state(hist_state: &str) -> (r: Option<AppState>)
        ensures
            state_of(r) == state_of_hist(hist_state@),
    {
        let rest = match strip_prefix(hist_state, history::HIST_GAME_PREFIX) {
            None => {
                return None;
            },
            Some(rest) => rest,
        };
        match strip_prefix(rest.as_str(), history::HIST_INIT_PREFIX) {
            Some(tag) => from_tag(tag.as_str()),
            None => from_tag(rest.as_str()),
        }
    }

    /// The title of the page in the state.
    pub fn title(&self) -> (r: &'static str)
        ensures
            r@ == self@.title(),
    {
        match self {
            AppState::Loading => "Chargement",
            AppState::Login(LoginState::NewUser) => "Bienvenu dans le jeu",
            AppState::Login(LoginState::ExistingUser) => "Bienvenu dans le jeu",
            AppState::Login(LoginState::OpponentName) => "Bienvenu dans le jeu",
            AppState::Login(LoginState::ChooseGameMode) => "Type de connection",
            AppState::Lobby => "Choix de la partie",
            AppState::ConnectingToLobby => "Choix de la partie",
            AppState::InNetGame { .. } => "Partie en ligne",
            AppState::ConnectingToGame { .. } => "Partie en ligne",
            AppState::InLocalGame => "Partie locale",
        }
    }

    /// The path of the address of the state, without the folder of the
    /// application.
    pub fn url(&self) -> (r: String)
        ensures
            r@ == self@.url(),
    {
        match self {
            AppState::Loading => String::from_str("/"),
            AppState::Login(_) => String::from_str("/"),
            AppState::Lobby => String::from_str("/lobby"),
            AppState::ConnectingToLobby => String::from_str("/lobby"),
            AppState::InNetGame { game_uid } => {
                let mut out = String::from_str("/game/");
                out.append(game_uid.as_str());
                out
            },
            AppState::ConnectingToGame { game_uid } => {
                let mut out = String::from_str("/game/");
                out.append(game_uid.as_str());
                out
            },
            AppState::InLocalGame => String::from_str("/local"),
        }
    }
}

} // verus!
