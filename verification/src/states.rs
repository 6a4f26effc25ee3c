use vstd::prelude::*;


verus! {

/// The screens of the application.
#[derive(Clone, Copy, Debug, PartialEq, Eq, Structural)]
pub enum AppState {
    MainMenu,
    Game,
    Settings,
}

impl Default for AppState {
    /// The main menu.
    fn default() -> (r: Self)
        ensures
            r == AppState::MainMenu,
    {
        AppState::MainMenu
    }
}

/// The phases of a game.
#[derive(Clone, Copy, Debug, PartialEq, Eq, Structural)]
pub enum GameState {
    StartGame,
    Running,
    Paused,
    InGameMenu,
    Settings,
    GameEnd,
}

impl Default for GameState {
    /// The introduction before the first day.
    fn default() -> (r: Self)
        ensures
            r == GameState::StartGame,
    {
        GameState::StartGame
    }
}

impl GameState {
    pub open spec fn spec_after_space(self) -> Option<GameState> {
        match self {
            GameState::Running => Some(GameState::Paused),
            GameState::Paused => Some(GameState::Running),
            _ => None,
        }
    }

    /// The state the pause key switches to: a running game pauses and a paused one
    /// runs again; in any other state the key does nothing.
    pub fn after_space(&self) -> (r: Option<GameState>)
        ensures
            r == self.spec_after_space(),
    {
        match self {
            GameState::Running => Some(GameState::Paused),
            GameState::Paused => Some(GameState::Running),
            _ => None,
        }
    }
}

impl AppState {
    pub open spec fn spec_after_confirm(self) -> Option<AppState> {
        match self {
            AppState::Settings => Some(AppState::MainMenu),
            _ => None,
        }
    }

    /// The screen that Space or Enter leads to outside a game: the settings go back
    /// to the main menu; elsewhere the keys do nothing.
    pub fn after_confirm(&self) -> (r: Option<AppState>)
        ensures
            r == self.spec_after_confirm(),
    {
        match self {
            AppState::Settings => Some(AppState::MainMenu),
            _ => None,
        }
    }
}

/// What a key press in a game asks for.
#[derive(Clone, Copy, Debug, PartialEq, Eq, Structural)]
pub struct KeyOutcome {
    /// The next phase of the game, if it changes.
    pub game: Option<GameState>,
    /// The next screen, if it changes.
    pub app: Option<AppState>,
    /// Whether the instrument window is closed.
    pub close_modal: bool,
    /// Whether the event shown is closed.
    pub close_event: bool,
}

pub open spec fn spec_escape(state: GameState, modal_open: bool, event_shown: bool) -> KeyOutcome {
    let none = KeyOutcome { game: None, app: None, close_modal: false, close_event: false };
    match state {
        GameState::StartGame => KeyOutcome { game: Some(GameState::Running), ..none },
        GameState::Running | GameState::Paused => if modal_open {
            KeyOutcome { close_modal: true, ..none }
        } else if event_shown {
            KeyOutcome { game: Some(GameState::Running), close_event: true, ..none }
        } else {
            KeyOutcome { game: Some(GameState::InGameMenu), ..none }
        },
        GameState::InGameMenu => KeyOutcome { game: Some(GameState::Running), ..none },
        GameState::Settings => KeyOutcome { game: Some(GameState::InGameMenu), ..none },
        GameState::GameEnd => KeyOutcome {
            game: Some(GameState::Running),
            app: Some(AppState::MainMenu),
            ..none
        },
    }
}

/// What Escape does in a game: it starts the game from the introduction, closes the
/// instrument window or the event shown, opens the in-game menu or leaves it, leaves
/// the settings for the menu, and after the end of a game goes back to the main menu.
pub fn escape_key(state: GameState, modal_open: bool, event_shown: bool) -> (r: KeyOutcome)
    ensures
        r == spec_escape(state, modal_open, event_shown),
{
    let none = KeyOutcome { game: None, app: None, close_modal: false, close_event: false };
    match state {
        GameState::StartGame => KeyOutcome { game: Some(GameState::Running), ..none },
        GameState::Running | GameState::Paused => {
            if modal_open {
                KeyOutcome { close_modal: true, ..none }
            } else if event_shown {
                KeyOutcome { game: Some(GameState::Running), close_event: true, ..none }
            } else {
                KeyOutcome { game: Some(GameState::InGameMenu), ..none }
            }
        },
        GameState::InGameMenu => KeyOutcome { game: Some(GameState::Running), ..none },
        GameState::Settings => KeyOutcome { game: Some(GameState::InGameMenu), ..none },
        GameState::GameEnd => KeyOutcome {
            game: Some(GameState::Running),
            app: Some(AppState::MainMenu),
            ..none
        },
    }
}

/// What Enter does in a game: on the introduction or with an event shown, the game
/// runs and the event is closed; otherwise nothing happens.
pub fn enter_key(state: GameState, event_shown: bool) -> (r: KeyOutcome)
    ensures
        r == (if state == GameState::StartGame || event_shown {
            KeyOutcome { game: Some(GameState::Running), app: None, close_modal: false, close_event: true }
        } else {
            KeyOutcome { game: None, app: None, close_modal: false, close_event: false }
        }),
{
    if state == GameState::StartGame || event_shown {
        KeyOutcome { game: Some(GameState::Running), app: None, close_modal: false, close_event: true }
    } else {
        KeyOutcome { game: None, app: None, close_modal: false, close_event: false }
    }
}

/// The pause key undoes itself: pressing it twice on a running or paused game comes
/// back to the same state.
pub proof fn pause_key_undoes_itself(state: GameState)
    requires
        state == GameState::Running || state == GameState::Paused,
    ensures
        state.spec_after_space() matches Some(next) && next.spec_after_space() == Some(state),
{
}

/// Escape opens the in-game menu from a running or paused game with nothing to
/// close, and Escape in the menu resumes the game, whatever is open behind it.
pub proof fn escape_opens_and_closes_menu(state: GameState, modal_open: bool, event_shown: bool)
    requires
        state == GameState::Running || state == GameState::Paused,
    ensures
        spec_escape(state, false, false).game == Some(GameState::InGameMenu),
        spec_escape(GameState::InGameMenu, modal_open, event_shown).game == Some(GameState::Running),
        modal_open ==> spec_escape(state, modal_open, event_shown).close_modal && spec_escape(
            state,
            modal_open,
            event_shown,
        ).game is None,
{
}

} // verus!
