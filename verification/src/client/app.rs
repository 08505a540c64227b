//! The state of the page, and what the page does when its state changes.

use vstd::prelude::*;
use crate::client::app::login::LoginInfo;
use crate::client::app::state::{state_of_hist, AppState, AppStateView, LoginState};
use crate::client::utils::history;
use crate::text::text_of;
use crate::text::{same_text, trim_end, trim_start, trimmed_end, trimmed_start};

pub mod game;
pub mod lobby;
pub mod login;
pub mod state;

verus! {

/// One thing that the page does when its state changes.
#[derive(Clone, Copy, Debug, PartialEq, Eq, Structural)]
pub enum UiOp {
    HideLoader,
    HideLoginForm,
    HideLobbyForm,
    HideGameSection,
    ShowLoading,
    ShowConnecting,
    ShowLoginState(LoginState),
    ShowLobbyForm,
    ShowGameSection,
    /// Close the connection to the server.
    Disconnect,
    /// Open the connection to the server.
    Connect,
    /// The connection is there already: show what a fresh one would show.
    Connected,
}

/// What to do with an entry of the history that the user has gone back to.
#[derive(Clone, Debug, PartialEq, Eq)]
pub enum BackStep {
    /// The first entry of the visit is reached: start over from there.
    StartOver,
    /// Still before the first entry of the visit: go back once more.
    GoBack,
    /// Show the state of the entry.
    Transition(AppState),
}

pub enum BackStepView {
    StartOver,
    GoBack,
    Transition(AppStateView),
}

impl View for BackStep {
    type V = BackStepView;

    open spec fn view(&self) -> BackStepView {
        match self {
            BackStep::StartOver => BackStepView::StartOver,
            BackStep::GoBack => BackStepView::GoBack,
            BackStep::Transition(s) => BackStepView::Transition(s@),
        }
    }
}

impl AppStateView {
    /// Whether the state needs the server.
    pub open spec fn is_offline(self) -> bool {
        self is Loading || self is Login || self is InLocalGame
    }

    /// What the page hides and closes when it leaves a state for another.
    pub open spec fn leave_plan(self, next: AppStateView) -> Seq<UiOp> {
        (match self {
            AppStateView::Loading => seq![UiOp::HideLoader],
            AppStateView::Login(_) => if next is Login {
                Seq::empty()
            } else {
                seq![UiOp::HideLoginForm]
            },
            AppStateView::ConnectingToLobby => seq![UiOp::HideLoader],
            AppStateView::ConnectingToGame { game_uid } => seq![UiOp::HideLoader],
            AppStateView::Lobby => seq![UiOp::HideLobbyForm],
            AppStateView::InNetGame { game_uid } => seq![UiOp::HideGameSection],
            AppStateView::InLocalGame => seq![UiOp::HideGameSection],
        }) + (if next.is_offline() {
            seq![UiOp::Disconnect]
        } else {
            Seq::empty()
        })
    }

    /// What the page opens and shows when it enters a state.
    pub open spec fn enter_plan(self, is_fully_connected: bool) -> Seq<UiOp> {
        (if self.is_offline() {
            Seq::empty()
        } else if is_fully_connected {
            seq![UiOp::Connected]
        } else {
            seq![UiOp::Connect]
        }) + seq![
            match self {
                AppStateView::Login(login_state) => UiOp::ShowLoginState(login_state),
                AppStateView::Loading => UiOp::ShowLoading,
                AppStateView::ConnectingToLobby => UiOp::ShowConnecting,
                AppStateView::ConnectingToGame { game_uid } => UiOp::ShowConnecting,
                AppStateView::Lobby => UiOp::ShowLobbyForm,
                AppStateView::InNetGame { game_uid } => UiOp::ShowGameSection,
                AppStateView::InLocalGame => UiOp::ShowGameSection,
            },
        ]
    }
}

/// What the page shows once the connection to the server is complete: the
/// lobby, if the user is there. A page that is in a game on the net cannot
/// show it yet.
pub fn on_connected(current_state: &AppState) -> (r: Vec<UiOp>)
    requires
        !(current_state@ is InNetGame),
    ensures
        r@ == if current_state@ is Lobby {
            seq![UiOp::HideLoader, UiOp::ShowLobbyForm]
        } else {
            Seq::<UiOp>::empty()
        },
{
    let mut out: Vec<UiOp> = Vec::new();
    match current_state {
        AppState::Lobby => {
            out.push(UiOp::HideLoader);
            out.push(UiOp::ShowLobbyForm);
        },
        _ => {},
    }
    out
}

/// An entry for the browser's history: what it holds, its title and its
/// address.
#[derive(Clone, Debug, PartialEq, Eq)]
pub struct HistoryEntry {
    pub state: String,
    pub title: &'static str,
    pub url: String,
}

/// The entry of the history for a state of a page at an origin.
pub fn history_entry(
    state: &AppState,
    is_first: bool,
    subfolder: &Option<String>,
    origin: &str,
) -> (r: HistoryEntry)
    ensures
        r.state@ == state@.hist_state(is_first),
        r.title@ == state@.title(),
        r.url@ == trimmed_end(origin@, '/') + "/"@ + trimmed_start(
            match text_of(*subfolder) {
                Some(folder) => "/"@ + folder + state@.url(),
                None => state@.url(),
            },
            '/',
        ),
{
    let path = state_path(subfolder, state);
    HistoryEntry {
        state: state.to_hist_state(is_first),
        title: state.title(),
        url: to_full_url(origin, path.as_str()),
    }
}

/// The state in which a visit begins: a user that the browser has kept is
/// asked whether it is still the one, anyone else is asked for a name.
pub fn initial_state(login: &LoginInfo) -> (r: AppState)
    ensures
        r@ == if login@ is Nobody {
            AppStateView::Login(LoginState::NewUser)
        } else {
            AppStateView::Login(LoginState::ExistingUser)
        },
{
    match login {
        LoginInfo::Nobody => AppState::Login(LoginState::NewUser),
        LoginInfo::NewUser { .. } => AppState::Login(LoginState::ExistingUser),
        LoginInfo::ExistingUser { .. } => AppState::Login(LoginState::ExistingUser),
    }
}

/// Whether a page that opens on an entry of the history first goes back to
/// the first entry of the visit: it does if the entry is one of the
/// application and not the first.
pub fn starts_rolling_back(hist_state: &Option<String>) -> (r: bool)
    ensures
        r == match text_of(*hist_state) {
            Some(s) => history::HIST_GAME_PREFIX@.is_prefix_of(s) && !(history::HIST_GAME_PREFIX@
                + history::HIST_INIT_PREFIX@).is_prefix_of(s),
            None => false,
        },
{
    match hist_state {
        Some(hist_state) => history::is_game_state(hist_state.as_str())
            && !history::is_first_game_state(hist_state.as_str()),
        None => false,
    }
}

/// What to do with an entry of the history that the user has gone back to.
/// A page that is going back to the first entry of the visit goes on until
/// it is there. Any other shows the state of the entry, or the loading
/// state where the entry stands for none.
pub fn on_history_back(rolling_back_history: bool, state: &str) -> (r: BackStep)
    ensures
        r@ == if rolling_back_history {
            if (history::HIST_GAME_PREFIX@ + history::HIST_INIT_PREFIX@).is_prefix_of(state@) {
                BackStepView::StartOver
            } else {
                BackStepView::GoBack
            }
        } else {
            BackStepView::Transition(
                match state_of_hist(state@) {
                    Some(s) => s,
                    None => AppStateView::Loading,
                },
            )
        },
{
    if rolling_back_history {
        if history::is_first_game_state(state) {
            BackStep::StartOver
        } else {
            BackStep::GoBack
        }
    } else {
        match AppState::from_hist_state(state) {
            Some(s) => BackStep::Transition(s),
            None => BackStep::Transition(AppState::Loading),
        }
    }
}

/// Whether the page leaves its state when the connection fails: it does in
/// the lobby and in a game on the net.
pub fn goes_back_on_socket_error(current_state: &AppState) -> (r: bool)
    ensures
        r == (current_state@ is InNetGame || current_state@ is Lobby),
{
    match current_state {
        AppState::InNetGame { .. } => true,
        AppState::Lobby => true,
        _ => false,
    }
}

/// Whether two states are the same.
pub fn same_state(a: &AppState, b: &AppState) -> (r: bool)
    ensures
        r == (a@ == b@),
{
    match (a, b) {
        (AppState::Loading, AppState::Loading) => true,
        (AppState::Login(x), AppState::Login(y)) => *x == *y,
        (AppState::ConnectingToLobby, AppState::ConnectingToLobby) => true,
        (AppState::Lobby, AppState::Lobby) => true,
        (AppState::ConnectingToGame { game_uid: x }, AppState::ConnectingToGame { game_uid: y }) => {
            same_text(x.as_str(), y.as_str())
        },
        (AppState::InNetGame { game_uid: x }, AppState::InNetGame { game_uid: y }) => same_text(
            x.as_str(),
            y.as_str(),
        ),
        (AppState::InLocalGame, AppState::InLocalGame) => true,
        _ => false,
    }
}

/// Whether the state needs no server.
fn is_offline(state: &AppState) -> (r: bool)
    ensures
        r == state@.is_offline(),
{
    match state {
        AppState::Loading => true,
        AppState::Login(_) => true,
        AppState::InLocalGame => true,
        _ => false,
    }
}

/// What the page hides and closes when it leaves a state for another.
pub fn on_leave_state(old_state: &AppState, next_state: &AppState) -> (r: Vec<UiOp>)
    ensures
        r@ == old_state@.leave_plan(next_state@),
{
    let mut out: Vec<UiOp> = Vec::new();
    match old_state {
        AppState::Loading => {
            out.push(UiOp::HideLoader);
        },
        AppState::Login(_) => match next_state {
            AppState::Login(_) => {},
            _ => {
                out.push(UiOp::HideLoginForm);
            },
        },
        AppState::ConnectingToLobby => {
            out.push(UiOp::HideLoader);
        },
        AppState::ConnectingToGame { .. } => {
            out.push(UiOp::HideLoader);
        },
        AppState::Lobby => {
            out.push(UiOp::HideLobbyForm);
        },
        AppState::InNetGame { .. } => {
            out.push(UiOp::HideGameSection);
        },
        AppState::InLocalGame => {
            out.push(UiOp::HideGameSection);
        },
    }
    if is_offline(next_state) {
        out.push(UiOp::Disconnect);
    }
    assert(out@ =~= old_state@.leave_plan(next_state@));
    out
}

/// What the page opens and shows when it enters a state.
pub fn on_enter_state(next_state: &AppState, is_fully_connected: bool) -> (r: Vec<UiOp>)
    ensures
        r@ == next_state@.enter_plan(is_fully_connected),
{
    let mut out: Vec<UiOp> = Vec::new();
    if !is_offline(next_state) {
        if is_fully_connected {
            out.push(UiOp::Connected);
        } else {
            out.push(UiOp::Connect);
        }
    }
    match next_state {
        AppState::Login(login_state) => {
            out.push(UiOp::ShowLoginState(*login_state));
        },
        AppState::Loading => {
            out.push(UiOp::ShowLoading);
        },
        AppState::ConnectingToLobby => {
            out.push(UiOp::ShowConnecting);
        },
        AppState::ConnectingToGame { .. } => {
            out.push(UiOp::ShowConnecting);
        },
        AppState::Lobby => {
            out.push(UiOp::ShowLobbyForm);
        },
        AppState::InNetGame { .. } => {
            out.push(UiOp::ShowGameSection);
        },
        AppState::InLocalGame => {
            out.push(UiOp::ShowGameSection);
        },
    }
    assert(out@ =~= next_state@.enter_plan(is_fully_connected));
    out
}

/// The path of the address of a state: a slash and the folder of the
/// application, where it lives in one, before the path of the state.
pub fn state_path(subfolder: &Option<String>, state: &AppState) -> (r: String)
    ensures
        r@ == match text_of(*subfolder) {
            Some(folder) => "/"@ + folder + state@.url(),
            None => state@.url(),
        },
{
    let state_url = state.url();
    match subfolder {
        Some(subfolder) => {
            let mut out = String::from_str("/");
            out.append(subfolder.as_str());
            out.append(state_url.as_str());
            out
        },
        None => state_url,
    }
}

/// The address of a path: the origin and the path, with one slash between
/// them.
pub fn to_full_url(origin: &str, path: &str) -> (r: String)
    ensures
        r@ == trimmed_end(origin@, '/') + "/"@ + trimmed_start(path@, '/'),
{
    let mut out = trim_end(origin, '/');
    out.append("/");
    let tail = trim_start(path, '/');
    out.append(tail.as_str());
    out
}

/// The folder of the application as the page is given it: none where it is
/// empty, else with a slash before it.
pub fn parse_subfolder(subfolder: Option<String>) -> (r: Option<String>)
    ensures
        text_of(r) == match text_of(subfolder) {
            Some(v) => if v.len() == 0 {
                None
            } else if "/"@.is_prefix_of(v) {
                Some(v)
            } else {
                Some("/"@ + v)
            },
            None => None,
        },
{
    match subfolder {
        Some(v) => {
            if v.as_str().unicode_len() == 0 {
                None
            } else if crate::text::starts_with(v.as_str(), "/") {
                Some(v)
            } else {
                let mut out = String::from_str("/");
                out.append(v.as_str());
                Some(out)
            }
        },
        None => None,
    }
}

/// What the button says with which a user that the browser has kept says
/// that it is someone else.
pub fn forget_user_label(username: &str) -> (r: String)
    ensures
        r@ == "Je ne suis pas "@ + username@,
{
    let mut out = String::from_str("Je ne suis pas ");
    out.append(username);
    out
}

} // verus!
