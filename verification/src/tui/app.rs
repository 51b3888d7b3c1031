//! Application state: which screen is shown, the input mode, the loaded
//! snippet library, the Compose screen's state and the theme, with the
//! dispatch of key presses to the screens.

use vstd::prelude::*;

use crate::config::Config;
use crate::library::SnippetLibrary;
use crate::tui::compose::compose_key_model;
use crate::tui::export::export_path_key_model;
use crate::tui::export::input_cursor_valid;

use crate::tui::compose::opened_compose;
use crate::tui::compose::preview_can_scroll;
use crate::tui::compose::ComposeModel;
use crate::tui::compose::ComposeState;
use crate::tui::selection::lemma_toggle_keeps_distinct;
use crate::tui::theme::dark_palette;
use crate::tui::theme::light_palette;
use crate::tui::theme::toggled;
use crate::tui::theme::Theme;

verus! {

/// The top-level screens, switched with the number keys.
#[derive(Debug, Clone, Copy, PartialEq, Eq, Structural)]
pub enum Screen {
    Files,
    Settings,
    Compose,
    Library,
}

/// What key presses go to.
#[derive(Debug, Clone, Copy, PartialEq, Eq, Structural)]
pub enum Mode {
    /// Keys go to the current screen.
    Normal,
    /// Keys edit the path that the composed text is exported to.
    ExportPath,
}

/// A key press, as the screens read it.
#[derive(Debug, Clone, Copy, PartialEq, Eq, Structural)]
pub enum Key {
    Char(char),
    Up,
    Down,
    Left,
    Right,
    Enter,
    Esc,
    Backspace,
    Tab,
    Other,
}

/// Outside work that a key press asks for; the result comes back through
/// the method that the variant names.
#[derive(Debug, Clone, Copy, PartialEq, Eq, Structural)]
pub enum Effect {
    /// Nothing to do.
    Nothing,
    /// Load the snippet library, then call `App::compose_library_loaded`.
    LoadLibrary,
    /// Export the composed text: call `App::execute_export`.
    Export,
}

/// The application state.
pub struct App {
    /// The screen shown.
    pub screen: Screen,
    /// Where key presses go.
    pub mode: Mode,
    /// Set when the user asked to quit.
    pub exit: bool,
    /// The message shown in the status bar.
    pub status_message: Option<String>,
    /// The snippet library, once loaded.
    pub library: Option<SnippetLibrary>,
    /// The Compose screen's state, once that screen was entered.
    pub compose_state: Option<ComposeState>,
    /// The text typed into the input line.
    pub title_input: Vec<char>,
    /// The cursor in the input line, as a character position.
    pub title_cursor: usize,
    /// The colours in use.
    pub theme: Theme,
}

/// The application state as plain values.
#[verifier::ext_equal]
pub struct AppModel {
    pub screen: Screen,
    pub mode: Mode,
    pub exit: bool,
    pub status: Option<Seq<char>>,
    pub library: Option<SnippetLibrary>,
    pub compose: Option<ComposeModel>,
    pub title_input: Seq<char>,
    pub title_cursor: usize,
    pub theme: Theme,
}

impl View for App {
    type V = AppModel;

    open spec fn view(&self) -> AppModel {
        AppModel {
            screen: self.screen,
            mode: self.mode,
            exit: self.exit,
            status: match self.status_message {
                Some(m) => Some(m@),
                None => None,
            },
            library: self.library,
            compose: match self.compose_state {
                Some(cs) => Some(cs@),
                None => None,
            },
            title_input: self.title_input@,
            title_cursor: self.title_cursor,
            theme: self.theme,
        }
    }
}

/// The theme that a configuration asks for: light where it names `"light"`,
/// dark otherwise.
pub open spec fn configured_theme(config: Config) -> Theme {
    if config.theme matches Some(t) && t@ == "light"@ {
        light_palette()
    } else {
        dark_palette()
    }
}

/// The state at start-up.
pub open spec fn initial_model(config: Config) -> AppModel {
    AppModel {
        screen: Screen::Files,
        mode: Mode::Normal,
        exit: false,
        status: None,
        library: None,
        compose: None,
        title_input: Seq::empty(),
        title_cursor: 0,
        theme: configured_theme(config),
    }
}

/// What entering the Compose screen does: it opens at once where the library
/// is loaded, and asks for the library to be loaded otherwise.
pub open spec fn enter_compose_model(v: AppModel) -> (AppModel, Effect) {
    if v.library is None {
        (v, Effect::LoadLibrary)
    } else {
        (opened_compose(v), Effect::Nothing)
    }
}

/// What a key press does.
pub open spec fn key_event_model(v: AppModel, k: Key) -> (AppModel, Effect) {
    if v.mode == Mode::ExportPath {
        export_path_key_model(v, k)
    } else if k == Key::Char('1') {
        (AppModel { screen: Screen::Files, ..v }, Effect::Nothing)
    } else if k == Key::Char('2') {
        (AppModel { screen: Screen::Settings, ..v }, Effect::Nothing)
    } else if k == Key::Char('3') {
        enter_compose_model(v)
    } else if k == Key::Char('4') {
        (AppModel { screen: Screen::Library, ..v }, Effect::Nothing)
    } else if k == Key::Char('T') {
        (AppModel { theme: toggled(v.theme), ..v }, Effect::Nothing)
    } else if v.screen == Screen::Compose {
        (compose_key_model(v, k), Effect::Nothing)
    } else if k == Key::Char('q') {
        (AppModel { exit: true, ..v }, Effect::Nothing)
    } else {
        (v, Effect::Nothing)
    }
}

/// The state can take any key press: the input line's cursor lies within
/// its text and the preview can scroll one more line.
pub open spec fn accepts_keys(v: AppModel) -> bool {
    input_cursor_valid(v) && preview_can_scroll(v)
}

impl App {
    /// The state at start-up, with the theme that `config` names.
    pub fn new(config: &Config) -> (r: App)
        ensures
            r@ == initial_model(*config),
    {
        let light = match &config.theme {
            Some(t) => *t == String::from_str("light"),
            None => false,
        };
        let theme = if light {
            Theme::light()
        } else {
            Theme::dark()
        };
        App {
            screen: Screen::Files,
            mode: Mode::Normal,
            exit: false,
            status_message: None,
            library: None,
            compose_state: None,
            title_input: Vec::new(),
            title_cursor: 0,
            theme,
        }
    }

    /// Enters the Compose screen; where the library is not loaded yet, asks
    /// for it to be loaded and changes nothing.
    pub fn enter_compose_screen(&mut self) -> (e: Effect)
        ensures
            (final(self)@, e) == enter_compose_model(old(self)@),
    {
        if self.library.is_none() {
            return Effect::LoadLibrary;
        }
        if self.compose_state.is_none() {
            self.compose_state = Some(ComposeState::new());
        }
        self.screen = Screen::Compose;
        Effect::Nothing
    }

    /// Handles a key press: the number keys switch screens, `T` toggles the
    /// theme, other keys go to the input line or the current screen.
    pub fn handle_key_event(&mut self, key: Key) -> (e: Effect)
        requires
            accepts_keys(old(self)@),
        ensures
            (final(self)@, e) == key_event_model(old(self)@, key),
    {
        if self.mode == Mode::ExportPath {
            return self.handle_export_path_key(key);
        }
        match key {
            Key::Char('1') => {
                self.screen = Screen::Files;
            },
            Key::Char('2') => {
                self.screen = Screen::Settings;
            },
            Key::Char('3') => {
                return self.enter_compose_screen();
            },
            Key::Char('4') => {
                self.screen = Screen::Library;
            },
            Key::Char('T') => {
                self.theme = self.theme.toggle();
            },
            _ => {
                if self.screen == Screen::Compose {
                    self.handle_compose_key(key);
                } else if key == Key::Char('q') {
                    self.exit = true;
                }
            },
        }
        Effect::Nothing
    }
}

/// Key presses keep the input line's cursor within its text.
pub proof fn lemma_keys_keep_input_cursor(v: AppModel, k: Key)
    requires
        input_cursor_valid(v),
    ensures
        input_cursor_valid(key_event_model(v, k).0),
{
}

/// Switching screens with the number keys keeps the Compose screen's state:
/// its selection survives a trip to another screen and back.
pub proof fn lemma_screen_switch_keeps_compose(v: AppModel, k: Key)
    requires
        v.mode == Mode::Normal,
        k == Key::Char('1') || k == Key::Char('2') || k == Key::Char('3') || k == Key::Char('4'),
        v.library is Some,
    ensures
        v.compose is Some ==> key_event_model(v, k).0.compose == v.compose,
        k == Key::Char('3') ==> key_event_model(v, k).0.screen == Screen::Compose,
        key_event_model(v, k).1 == Effect::Nothing,
{
}

/// Key presses keep the selection free of repeats: a snippet is selected
/// at most once.
pub proof fn lemma_keys_keep_selection_distinct(v: AppModel, k: Key)
    requires
        v.compose matches Some(cs) ==> cs.selected.no_duplicates(),
    ensures
        key_event_model(v, k).0.compose matches Some(cs2) ==> cs2.selected.no_duplicates(),
{
    match v.compose {
        Some(cs) => {
            lemma_toggle_keeps_distinct(cs.selected, cs.cursor);
        },
        None => {
            assert(Seq::<usize>::empty().no_duplicates());
        },
    }
}

/// In Normal mode each number key shows its own screen and changes nothing
/// else: `1` Files, `2` Settings, `3` Compose (once the library is loaded;
/// before, it asks for the library and changes nothing), `4` Library; and
/// `T` switches between the dark and the light palette.
pub proof fn lemma_number_keys_pick_screens(v: AppModel)
    requires
        v.mode == Mode::Normal,
    ensures
        key_event_model(v, Key::Char('1')) == (AppModel { screen: Screen::Files, ..v }, Effect::Nothing),
        key_event_model(v, Key::Char('2')) == (AppModel { screen: Screen::Settings, ..v }, Effect::Nothing),
        key_event_model(v, Key::Char('4')) == (AppModel { screen: Screen::Library, ..v }, Effect::Nothing),
        v.library is Some ==> key_event_model(v, Key::Char('3')).0.screen == Screen::Compose
            && key_event_model(v, Key::Char('3')).1 == Effect::Nothing,
        v.library is None ==> key_event_model(v, Key::Char('3')) == (v, Effect::LoadLibrary),
        v.theme.is_dark ==> key_event_model(v, Key::Char('T')).0 == (AppModel {
            theme: light_palette(),
            ..v
        }),
        !v.theme.is_dark ==> key_event_model(v, Key::Char('T')).0 == (AppModel {
            theme: dark_palette(),
            ..v
        }),
{
}

/// The theme at start-up is the one the configuration names: `"light"`
/// gives the light palette, `"dark"`, any other name or no name the dark one.
pub proof fn lemma_start_theme_follows_config(config: Config)
    ensures
        config.theme is None ==> initial_model(config).theme == dark_palette(),
        config.theme matches Some(t) && t@ == "dark"@ ==> initial_model(config).theme
            == dark_palette(),
        config.theme matches Some(t) && t@ == "light"@ ==> initial_model(config).theme
            == light_palette(),
        config.theme matches Some(t) && t@ != "light"@ ==> initial_model(config).theme
            == dark_palette(),
        dark_palette().is_dark && !light_palette().is_dark,
{
    reveal_strlit("dark");
    reveal_strlit("light");
    assert("dark"@[0] != "light"@[0]);
}

} // verus!
