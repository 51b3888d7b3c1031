//! The Compose screen: picking snippets from the library, previewing the
//! text they compose and exporting it.

use vstd::prelude::*;
use vstd::string::*;

use crate::compose::compose_snippets;
use crate::compose::composed;
use crate::compose::lemma_selection_appends;
use crate::compose::selected_contents;
use crate::compose::snippet_separator;
use crate::library::SnippetLibrary;
use crate::text::count_lines;
use crate::text::decimal;
use crate::text::line_count;
use crate::text::push_decimal;
use crate::tui::app::App;
use crate::tui::app::AppModel;
use crate::tui::app::Key;
use crate::tui::app::Mode;
use crate::tui::app::Screen;
use crate::tui::theme::plain_style;
use crate::tui::theme::Style;
use crate::tui::theme::Theme;
use crate::tui::selection::contains_index;
use crate::tui::selection::lemma_without_contains;
use crate::tui::selection::lemma_without_keeps_order;
use crate::tui::selection::toggle_selected;
use crate::tui::selection::toggled_selection;
use crate::tui::selection::without;

verus! {

/// Which pane of the Compose screen takes the arrow keys.
#[derive(Debug, Clone, Copy, PartialEq, Eq, Structural)]
pub enum ComposeFocus {
    /// The snippet list: the arrow keys move the cursor.
    List,
    /// The live preview beside the list: the arrow keys scroll it.
    Preview,
}

/// The other pane.
pub open spec fn other_focus(f: ComposeFocus) -> ComposeFocus {
    match f {
        ComposeFocus::List => ComposeFocus::Preview,
        ComposeFocus::Preview => ComposeFocus::List,
    }
}

/// State for the Compose screen.
#[derive(Debug)]
pub struct ComposeState {
    /// Selected (checked) snippet indices into the library, in the order
    /// they were selected; no index occurs twice.
    pub selected: Vec<usize>,
    /// Cursor position in the snippet list.
    pub cursor: usize,
    /// Scroll offset for the list.
    pub scroll: u16,
    /// Viewport height (set during draw).
    pub viewport_height: u16,
    /// Whether the preview is currently shown full-screen.
    pub preview_visible: bool,
    /// Scroll offset for the preview pane.
    pub preview_scroll: u16,
    /// Viewport height for preview (set during draw).
    pub preview_viewport_height: u16,
    /// The pane that takes the arrow keys while the list is shown.
    pub focus: ComposeFocus,
}

/// The Compose screen's state as plain values.
#[verifier::ext_equal]
pub struct ComposeModel {
    pub selected: Seq<usize>,
    pub cursor: usize,
    pub scroll: u16,
    pub viewport_height: u16,
    pub preview_visible: bool,
    pub preview_scroll: u16,
    pub preview_viewport_height: u16,
    pub focus: ComposeFocus,
}

impl View for ComposeState {
    type V = ComposeModel;

    open spec fn view(&self) -> ComposeModel {
        ComposeModel {
            selected: self.selected@,
            cursor: self.cursor,
            scroll: self.scroll,
            viewport_height: self.viewport_height,
            preview_visible: self.preview_visible,
            preview_scroll: self.preview_scroll,
            preview_viewport_height: self.preview_viewport_height,
            focus: self.focus,
        }
    }
}

/// The state of a freshly opened Compose screen.
pub open spec fn fresh_compose() -> ComposeModel {
    ComposeModel {
        selected: Seq::empty(),
        cursor: 0,
        scroll: 0,
        viewport_height: 0,
        preview_visible: false,
        preview_scroll: 0,
        preview_viewport_height: 0,
        focus: ComposeFocus::List,
    }
}

impl ComposeState {
    /// Creates a new compose state with no selections.
    pub fn new() -> (r: Self)
        ensures
            r@ == fresh_compose(),
    {
        Self {
            selected: Vec::new(),
            cursor: 0,
            scroll: 0,
            viewport_height: 0,
            preview_visible: false,
            preview_scroll: 0,
            preview_viewport_height: 0,
            focus: ComposeFocus::List,
        }
    }
}

impl ComposeState {
    /// Returns the number of snippets in the library.
    pub fn snippet_count(app: &App) -> (n: usize)
        ensures
            n == snippet_count_of(app@),
    {
        match &app.library {
            Some(lib) => lib.snippets.len(),
            None => 0,
        }
    }
}

impl Default for ComposeState {
    fn default() -> (r: Self)
        ensures
            r@ == fresh_compose(),
    {
        Self::new()
    }
}

/// The number of snippets in the library, 0 while none is loaded.
pub open spec fn snippet_count_of(v: AppModel) -> nat {
    match v.library {
        Some(lib) => lib.snippets@.len(),
        None => 0,
    }
}

/// The text composed from the current selection; empty while the library or
/// the Compose screen's state is missing.
pub open spec fn composed_text_of(v: AppModel) -> Seq<char> {
    match v.library {
        Some(lib) => match v.compose {
            Some(cs) => composed(lib.snippets@, cs.selected),
            None => Seq::empty(),
        },
        None => Seq::empty(),
    }
}

/// How many snippets are selected.
pub open spec fn selected_count_of(v: AppModel) -> nat {
    match v.compose {
        Some(cs) => cs.selected.len(),
        None => 0,
    }
}

/// `a - b`, or 0 where that is negative.
pub open spec fn minus_or_zero(a: int, b: int) -> int {
    if a > b {
        a - b
    } else {
        0
    }
}

/// The list scrolled so that the cursor line is in view.
pub open spec fn cursor_made_visible(cs: ComposeModel) -> ComposeModel {
    let scroll = cs.scroll as int;
    let vh = cs.viewport_height as int;
    if (cs.cursor as int) < scroll {
        ComposeModel { scroll: cs.cursor as u16, ..cs }
    } else if vh > 0 && cs.cursor as int >= scroll + vh {
        ComposeModel { scroll: (cs.cursor - vh + 1) as u16, ..cs }
    } else {
        cs
    }
}

/// Ensures the compose cursor stays within the visible viewport.
pub fn ensure_compose_cursor_visible(cs: &mut ComposeState)
    ensures
        final(cs)@ == cursor_made_visible(old(cs)@),
{
    let scroll = cs.scroll as usize;
    let vh = cs.viewport_height as usize;
    if cs.cursor < scroll {
        cs.scroll = cs.cursor as u16;
    } else if vh > 0 && cs.cursor >= scroll + vh {
        cs.scroll = (cs.cursor - vh + 1) as u16;
    }
}

/// `"No snippets selected."`
pub open spec fn no_selection_message() -> Seq<char> {
    "No snippets selected."@
}

/// The state with the Compose screen's state replaced.
pub open spec fn with_compose(v: AppModel, cs: ComposeModel) -> AppModel {
    AppModel { compose: Some(cs), ..v }
}

/// What a key does on the Compose screen's snippet list (a non-empty library).
pub open spec fn list_key_model(v: AppModel, cs: ComposeModel, k: Key) -> AppModel {
    let n = snippet_count_of(v);
    if k == Key::Tab {
        with_compose(v, ComposeModel { focus: other_focus(cs.focus), ..cs })
    } else if cs.focus == ComposeFocus::Preview && (k == Key::Char('j') || k == Key::Down) {
        preview_scrolled(v, cs, true)
    } else if cs.focus == ComposeFocus::Preview && (k == Key::Char('k') || k == Key::Up) {
        preview_scrolled(v, cs, false)
    } else if k == Key::Char('j') || k == Key::Down {
        if (cs.cursor as int) < n - 1 {
            with_compose(v, cursor_made_visible(ComposeModel { cursor: (cs.cursor + 1) as usize, ..cs }))
        } else {
            v
        }
    } else if k == Key::Char('k') || k == Key::Up {
        with_compose(
            v,
            cursor_made_visible(
                ComposeModel { cursor: minus_or_zero(cs.cursor as int, 1) as usize, ..cs },
            ),
        )
    } else if k == Key::Char(' ') {
        with_compose(v, ComposeModel { selected: toggled_selection(cs.selected, cs.cursor), ..cs })
    } else if k == Key::Char('p') {
        if cs.selected.len() == 0 {
            AppModel { status: Some(no_selection_message()), ..v }
        } else {
            with_compose(v, ComposeModel { preview_visible: true, preview_scroll: 0, ..cs })
        }
    } else if k == Key::Char('w') {
        if cs.selected.len() == 0 {
            AppModel { status: Some(no_selection_message()), ..v }
        } else {
            AppModel { mode: Mode::ExportPath, title_input: Seq::empty(), title_cursor: 0, ..v }
        }
    } else if k == Key::Esc {
        AppModel { screen: Screen::Files, ..v }
    } else if k == Key::Char('q') {
        AppModel { exit: true, ..v }
    } else {
        v
    }
}

/// The furthest the preview can scroll: its line count less the viewport height.
pub open spec fn preview_max_scroll(v: AppModel, cs: ComposeModel) -> int {
    minus_or_zero(line_count(composed_text_of(v)) as int, cs.preview_viewport_height as int)
}

/// The preview scrolled one line down (never past its last screenful) or up.
pub open spec fn preview_scrolled(v: AppModel, cs: ComposeModel, down: bool) -> AppModel {
    if down {
        if (cs.preview_scroll as int) < preview_max_scroll(v, cs) {
            with_compose(v, ComposeModel { preview_scroll: (cs.preview_scroll + 1) as u16, ..cs })
        } else {
            v
        }
    } else {
        with_compose(
            v,
            ComposeModel {
                preview_scroll: minus_or_zero(cs.preview_scroll as int, 1) as u16,
                ..cs
            },
        )
    }
}

/// What a key does while the preview is shown full-screen.
pub open spec fn preview_key_model(v: AppModel, cs: ComposeModel, k: Key) -> AppModel {
    if k == Key::Char('j') || k == Key::Down {
        preview_scrolled(v, cs, true)
    } else if k == Key::Char('k') || k == Key::Up {
        preview_scrolled(v, cs, false)
    } else if k == Key::Esc {
        with_compose(v, ComposeModel { preview_visible: false, ..cs })
    } else if k == Key::Char('q') {
        AppModel { exit: true, ..v }
    } else {
        v
    }
}

/// What a key does on the Compose screen.
pub open spec fn compose_key_model(v: AppModel, k: Key) -> AppModel {
    match v.compose {
        None => v,
        Some(cs) => if cs.preview_visible {
            preview_key_model(v, cs, k)
        } else if snippet_count_of(v) == 0 {
            if k == Key::Esc {
                AppModel { screen: Screen::Files, ..v }
            } else if k == Key::Char('q') {
                AppModel { exit: true, ..v }
            } else {
                v
            }
        } else {
            list_key_model(v, cs, k)
        },
    }
}

/// The preview can be scrolled one more line without its offset overflowing.
pub open spec fn preview_can_scroll(v: AppModel) -> bool {
    v.compose matches Some(cs) ==> cs.preview_scroll < 0xffff
}

impl App {
    /// Returns the composed text from currently selected snippets.
    pub fn composed_text(&self) -> (r: String)
        ensures
            r@ == composed_text_of(self@),
    {
        let library = match &self.library {
            Some(lib) => lib,
            None => {
                return String::new();
            },
        };
        let compose = match &self.compose_state {
            Some(s) => s,
            None => {
                return String::new();
            },
        };
        compose_snippets(library.snippets.as_slice(), compose.selected.as_slice())
    }

    /// Handles a key on the Compose screen.
    pub fn handle_compose_key(&mut self, key: Key)
        requires
            preview_can_scroll(old(self)@),
        ensures
            final(self)@ == compose_key_model(old(self)@, key),
    {
        let preview = match &self.compose_state {
            Some(cs) => cs.preview_visible,
            None => {
                return;
            },
        };
        if preview {
            self.handle_compose_preview_key(key);
            return;
        }
        let count = ComposeState::snippet_count(self);
        if count == 0 {
            match key {
                Key::Esc => {
                    self.screen = Screen::Files;
                },
                Key::Char('q') => {
                    self.exit = true;
                },
                _ => {},
            }
            return;
        }
        let focus = match &self.compose_state {
            Some(cs) => cs.focus,
            None => ComposeFocus::List,
        };
        match key {
            Key::Tab => {
                let mut cs = self.compose_state.take().unwrap();
                cs.focus = match cs.focus {
                    ComposeFocus::List => ComposeFocus::Preview,
                    ComposeFocus::Preview => ComposeFocus::List,
                };
                self.compose_state = Some(cs);
            },
            Key::Char('j') | Key::Down => {
                if focus == ComposeFocus::Preview {
                    self.scroll_preview(true);
                } else {
                    let mut cs = self.compose_state.take().unwrap();
                    if cs.cursor < count - 1 {
                        cs.cursor = cs.cursor + 1;
                        ensure_compose_cursor_visible(&mut cs);
                    }
                    self.compose_state = Some(cs);
                }
            },
            Key::Char('k') | Key::Up => {
                if focus == ComposeFocus::Preview {
                    self.scroll_preview(false);
                } else {
                    let mut cs = self.compose_state.take().unwrap();
                    cs.cursor = cs.cursor.saturating_sub(1);
                    ensure_compose_cursor_visible(&mut cs);
                    self.compose_state = Some(cs);
                }
            },
            Key::Char(' ') => {
                let mut cs = self.compose_state.take().unwrap();
                let cursor = cs.cursor;
                toggle_selected(&mut cs.selected, cursor);
                self.compose_state = Some(cs);
            },
            Key::Char('p') => {
                let mut cs = self.compose_state.take().unwrap();
                if cs.selected.len() == 0 {
                    self.status_message = Some(String::from_str("No snippets selected."));
                } else {
                    cs.preview_visible = true;
                    cs.preview_scroll = 0;
                }
                self.compose_state = Some(cs);
            },
            Key::Char('w') => {
                let empty = match &self.compose_state {
                    Some(cs) => cs.selected.len() == 0,
                    None => true,
                };
                if empty {
                    self.status_message = Some(String::from_str("No snippets selected."));
                } else {
                    self.mode = Mode::ExportPath;
                    self.title_input.clear();
                    self.title_cursor = 0;
                }
            },
            Key::Esc => {
                self.screen = Screen::Files;
            },
            Key::Char('q') => {
                self.exit = true;
            },
            _ => {},
        }
    }

    /// Scrolls the preview one line down, never past its last screenful, or up.
    fn scroll_preview(&mut self, down: bool)
        requires
            old(self).compose_state is Some,
            preview_can_scroll(old(self)@),
        ensures
            final(self)@ == preview_scrolled(old(self)@, old(self)@.compose->0, down),
    {
        if down {
            let text = self.composed_text();
            let line_count = count_lines(text.as_str());
            let mut cs = self.compose_state.take().unwrap();
            let max_scroll = line_count.saturating_sub(cs.preview_viewport_height as usize);
            if (cs.preview_scroll as usize) < max_scroll {
                cs.preview_scroll = cs.preview_scroll + 1;
            }
            self.compose_state = Some(cs);
        } else {
            let mut cs = self.compose_state.take().unwrap();
            cs.preview_scroll = cs.preview_scroll.saturating_sub(1);
            self.compose_state = Some(cs);
        }
    }

    fn handle_compose_preview_key(&mut self, key: Key)
        requires
            old(self).compose_state is Some,
            preview_can_scroll(old(self)@),
        ensures
            final(self)@ == preview_key_model(old(self)@, old(self)@.compose->0, key),
    {
        match key {
            Key::Char('j') | Key::Down => {
                self.scroll_preview(true);
            },
            Key::Char('k') | Key::Up => {
                self.scroll_preview(false);
            },
            Key::Esc => {
                let mut cs = self.compose_state.take().unwrap();
                cs.preview_visible = false;
                self.compose_state = Some(cs);
            },
            Key::Char('q') => {
                self.exit = true;
            },
            _ => {},
        }
    }
}

/// The state where the Compose screen is shown, its state created if it was not yet.
pub open spec fn opened_compose(v: AppModel) -> AppModel {
    AppModel {
        compose: if v.compose is None {
            Some(fresh_compose())
        } else {
            v.compose
        },
        screen: Screen::Compose,
        ..v
    }
}

/// `"Failed to load library: "` followed by the reason.
pub open spec fn load_failure_message(reason: Seq<char>) -> Seq<char> {
    "Failed to load library: "@ + reason
}

/// `"Cannot determine library path."`
pub open spec fn no_library_path_message() -> Seq<char> {
    "Cannot determine library path."@
}

/// What entering the Compose screen with a freshly loaded library does.
pub open spec fn enter_from_model(v: AppModel, loaded: Result<SnippetLibrary, String>) -> AppModel {
    match loaded {
        Ok(lib) => opened_compose(AppModel { library: Some(lib), ..v }),
        Err(e) => AppModel { status: Some(load_failure_message(e@)), ..v },
    }
}


/// One line of the snippet list: a check box and the snippet's title.
pub open spec fn row_text(title: Seq<char>, checked: bool) -> Seq<char> {
    (if checked {
        "[x] "@
    } else {
        "[ ] "@
    }) + title
}

/// The title of the snippet list: `"Compose (S/N selected)"`.
pub open spec fn list_title(selected: nat, total: nat) -> Seq<char> {
    "Compose ("@ + decimal(selected) + "/"@ + decimal(total) + " selected)"@
}

/// `"Compose"`: the title of the Compose screen's messages.
pub open spec fn compose_title() -> Seq<char> {
    "Compose"@
}

/// `"Library not loaded."`
pub open spec fn not_loaded_message() -> Seq<char> {
    "Library not loaded."@
}

/// The message shown for an empty library.
pub open spec fn empty_library_message() -> Seq<char> {
    "Library is empty. Save snippets with v then s on the Files screen."@
}

/// `"Preview (Esc to return)"`: the title of the full-screen preview.
pub open spec fn full_preview_title() -> Seq<char> {
    "Preview (Esc to return)"@
}

/// `"Preview"`: the title of the live preview beside the list.
pub open spec fn side_preview_title() -> Seq<char> {
    "Preview"@
}

/// The style of a list row: the theme's highlight on the cursor row, the
/// plain style elsewhere.
pub open spec fn row_style(theme: Theme, highlighted: bool) -> Style {
    if highlighted {
        theme.highlight
    } else {
        plain_style()
    }
}

/// The border of a pane beside another: the theme's active border where the
/// pane has the focus, its inactive border otherwise.
pub open spec fn pane_border(theme: Theme, focused: bool) -> Style {
    if focused {
        theme.active_border
    } else {
        theme.inactive_border
    }
}

/// One line of the snippet list as drawn.
pub struct ComposeRow {
    /// Check box and title.
    pub text: String,
    /// Whether the cursor is on this line.
    pub highlighted: bool,
    /// How the line is drawn.
    pub style: Style,
}

/// A pane that shows the composed text.
pub struct PreviewPane {
    /// The pane's title.
    pub title: String,
    /// The composed text.
    pub text: String,
    /// How many lines the text is scrolled by.
    pub scroll: u16,
    /// How many lines the text has.
    pub line_count: usize,
    /// How the pane's border is drawn.
    pub border: Style,
}

/// What the Compose screen shows.
pub enum ComposeView {
    /// No library is loaded: a titled block with a message.
    NotLoaded { title: String, message: String },
    /// The screen was never entered: nothing is drawn.
    Hidden,
    /// The library holds no snippets: a titled block with a message.
    EmptyLibrary { title: String, message: String },
    /// The composed text, full-screen.
    Preview(PreviewPane),
    /// The snippet list with check boxes, and the live preview beside it.
    List {
        title: String,
        rows: Vec<ComposeRow>,
        scroll: u16,
        total: usize,
        border: Style,
        preview: PreviewPane,
    },
}

/// `pane` shows `text` scrolled by `scroll`, under `title` and with `border`.
pub open spec fn pane_shows(
    pane: PreviewPane,
    title: Seq<char>,
    text: Seq<char>,
    scroll: u16,
    border: Style,
) -> bool {
    &&& pane.title@ == title
    &&& pane.text@ == text
    &&& pane.scroll == scroll
    &&& pane.line_count == line_count(text)
    &&& pane.border == border
}

/// `view` is what the Compose screen shows for the state `v`.
pub open spec fn shows(v: AppModel, view: ComposeView) -> bool {
    match v.library {
        None => view matches ComposeView::NotLoaded { title, message } && title@
            == compose_title() && message@ == not_loaded_message(),
        Some(lib) => match v.compose {
            None => view is Hidden,
            Some(cs) => if lib.snippets@.len() == 0 {
                view matches ComposeView::EmptyLibrary { title, message } && title@
                    == compose_title() && message@ == empty_library_message()
            } else if cs.preview_visible {
                view matches ComposeView::Preview(pane) && pane_shows(
                    pane,
                    full_preview_title(),
                    composed(lib.snippets@, cs.selected),
                    cs.preview_scroll,
                    plain_style(),
                )
            } else {
                view matches ComposeView::List { title, rows, scroll, total, border, preview }
                    && title@ == list_title(cs.selected.len(), lib.snippets@.len())
                    && scroll == cs.scroll && total == lib.snippets@.len()
                    && border == pane_border(v.theme, cs.focus == ComposeFocus::List)
                    && pane_shows(
                    preview,
                    side_preview_title(),
                    composed(lib.snippets@, cs.selected),
                    cs.preview_scroll,
                    pane_border(v.theme, cs.focus == ComposeFocus::Preview),
                ) && rows@.len() == lib.snippets@.len() && forall|i: int|
                    #![trigger rows@[i]]
                    0 <= i < rows@.len() ==> rows@[i].text@ == row_text(
                        lib.snippets@[i].title@,
                        cs.selected.contains(i as usize),
                    ) && rows@[i].highlighted == (i == cs.cursor) && rows@[i].style
                        == row_style(v.theme, i == cs.cursor)
            },
        },
    }
}

/// What a redraw with `area_height` rows records of the viewport.
pub open spec fn viewport_model(v: AppModel, area_height: u16) -> AppModel {
    let h = minus_or_zero(area_height as int, 2) as u16;
    match v.library {
        None => v,
        Some(lib) => match v.compose {
            None => v,
            Some(cs) => if lib.snippets@.len() == 0 {
                v
            } else if cs.preview_visible {
                with_compose(v, ComposeModel { preview_viewport_height: h, ..cs })
            } else {
                with_compose(v, ComposeModel { viewport_height: h, preview_viewport_height: h, ..cs })
            },
        },
    }
}

fn list_row(title: &String, checked: bool, highlighted: bool, theme: &Theme) -> (r: ComposeRow)
    ensures
        r.text@ == row_text(title@, checked),
        r.highlighted == highlighted,
        r.style == row_style(*theme, highlighted),
{
    let style = if highlighted {
        theme.highlight
    } else {
        Style::default()
    };
    let mut text = if checked {
        String::from_str("[x] ")
    } else {
        String::from_str("[ ] ")
    };
    text.append(title.as_str());
    ComposeRow { text, highlighted, style }
}

impl App {
    /// Enters the Compose screen with a library just loaded from its file
    /// (`Err` holds why loading failed).
    pub fn enter_compose_screen_from(&mut self, loaded: Result<SnippetLibrary, String>)
        ensures
            final(self)@ == enter_from_model(old(self)@, loaded),
    {
        match loaded {
            Ok(lib) => {
                self.library = Some(lib);
                if self.compose_state.is_none() {
                    self.compose_state = Some(ComposeState::new());
                }
                self.screen = Screen::Compose;
            },
            Err(err) => {
                let mut msg = String::from_str("Failed to load library: ");
                msg.append(err.as_str());
                self.status_message = Some(msg);
            },
        }
    }

    /// Finishes entering the Compose screen once the library was looked for:
    /// `None` where no library path is known.
    pub fn compose_library_loaded(&mut self, fetched: Option<Result<SnippetLibrary, String>>)
        ensures
            final(self)@ == (match fetched {
                None => AppModel { status: Some(no_library_path_message()), ..old(self)@ },
                Some(loaded) => enter_from_model(old(self)@, loaded),
            }),
    {
        match fetched {
            None => {
                self.status_message = Some(String::from_str("Cannot determine library path."));
            },
            Some(loaded) => {
                self.enter_compose_screen_from(loaded);
            },
        }
    }

    /// A pane showing the composed text.
    fn preview_pane(&self, title: &str, border: Style) -> (r: PreviewPane)
        requires
            self.library is Some,
            self.compose_state is Some,
        ensures
            pane_shows(
                r,
                title@,
                composed_text_of(self@),
                self@.compose->0.preview_scroll,
                border,
            ),
    {
        let text = self.composed_text();
        let line_count = count_lines(text.as_str());
        let scroll = match &self.compose_state {
            Some(cs) => cs.preview_scroll,
            None => 0,
        };
        PreviewPane { title: String::from_str(title), text, scroll, line_count, border }
    }

    /// What the Compose screen shows now.
    pub fn compose_view(&self) -> (r: ComposeView)
        ensures
            shows(self@, r),
    {
        let library = match &self.library {
            Some(lib) => lib,
            None => {
                return ComposeView::NotLoaded {
                    title: String::from_str("Compose"),
                    message: String::from_str("Library not loaded."),
                };
            },
        };
        let compose = match &self.compose_state {
            Some(s) => s,
            None => {
                return ComposeView::Hidden;
            },
        };
        let total = library.snippets.len();
        if total == 0 {
            return ComposeView::EmptyLibrary {
                title: String::from_str("Compose"),
                message: String::from_str(
                    "Library is empty. Save snippets with v then s on the Files screen.",
                ),
            };
        }
        if compose.preview_visible {
            return ComposeView::Preview(
                self.preview_pane("Preview (Esc to return)", Style::default()),
            );
        }
        let list_focused = compose.focus == ComposeFocus::List;
        let (border, preview_border) = if list_focused {
            (self.theme.active_border, self.theme.inactive_border)
        } else {
            (self.theme.inactive_border, self.theme.active_border)
        };
        let preview = self.preview_pane("Preview", preview_border);
        let mut rows: Vec<ComposeRow> = Vec::new();
        let mut i: usize = 0;
        while i < total
            invariant
                total == library.snippets@.len(),
                i <= total,
                rows@.len() == i,
                forall|j: int|
                    #![trigger rows@[j]]
                    0 <= j < i ==> rows@[j].text@ == row_text(
                        library.snippets@[j].title@,
                        compose.selected@.contains(j as usize),
                    ) && rows@[j].highlighted == (j == compose.cursor) && rows@[j].style
                        == row_style(self.theme, j == compose.cursor),
            decreases total - i,
        {
            let checked = contains_index(&compose.selected, i);
            let row = list_row(&library.snippets[i].title, checked, i == compose.cursor, &self.theme);
            rows.push(row);
            i = i + 1;
        }
        let mut title = String::from_str("Compose (");
        push_decimal(&mut title, compose.selected.len());
        title.append("/");
        push_decimal(&mut title, total);
        title.append(" selected)");
        ComposeView::List { title, rows, scroll: compose.scroll, total, border, preview }
    }

    /// Records the viewport height for a redraw of the Compose screen with
    /// `area_height` rows (two of them are the border).
    pub fn compose_viewport_resized(&mut self, area_height: u16)
        ensures
            final(self)@ == viewport_model(old(self)@, area_height),
    {
        let total = match &self.library {
            Some(lib) => lib.snippets.len(),
            None => {
                return;
            },
        };
        if self.compose_state.is_none() || total == 0 {
            return;
        }
        let h = area_height.saturating_sub(2);
        let mut cs = self.compose_state.take().unwrap();
        if cs.preview_visible {
            cs.preview_viewport_height = h;
        } else {
            cs.viewport_height = h;
            cs.preview_viewport_height = h;
        }
        self.compose_state = Some(cs);
    }
}

/// Moving the cursor keeps it on a line of the snippet list.
pub proof fn lemma_cursor_stays_in_list(v: AppModel, k: Key)
    requires
        v.compose matches Some(cs) && !cs.preview_visible && (cs.cursor as int)
            < snippet_count_of(v),
    ensures
        compose_key_model(v, k).compose matches Some(cs2) && (cs2.cursor as int)
            < snippet_count_of(compose_key_model(v, k)),
{
}

/// Once the cursor has been made visible, it lies within the viewport.
pub proof fn lemma_cursor_made_visible(cs: ComposeModel)
    requires
        cs.viewport_height > 0,
        cs.cursor < 0x10000,
    ensures
        cursor_made_visible(cs).scroll <= cs.cursor < cursor_made_visible(cs).scroll
            + cs.viewport_height,
        cursor_made_visible(cs).cursor == cs.cursor,
{
}

/// The preview never scrolls past its last screenful.
pub proof fn lemma_preview_scroll_bounded(v: AppModel, k: Key)
    requires
        v.compose matches Some(cs) && cs.preview_visible && cs.preview_scroll
            <= preview_max_scroll(v, cs),
    ensures
        compose_key_model(v, k).compose matches Some(cs2) && cs2.preview_scroll
            <= preview_max_scroll(compose_key_model(v, k), cs2),
{
}

/// On the snippet list, selecting a snippet with the space key appends its
/// content to the composed text, after a blank line where something was
/// composed before.
pub proof fn lemma_space_appends_to_composed_text(v: AppModel)
    requires
        v.library is Some,
        v.compose matches Some(cs) && !cs.preview_visible && (cs.cursor as int)
            < snippet_count_of(v) && !cs.selected.contains(cs.cursor),
    ensures
        ({
            let lib = v.library->0;
            let cs = v.compose->0;
            let content = lib.snippets@[cs.cursor as int].content@;
            composed_text_of(compose_key_model(v, Key::Char(' '))) == if selected_contents(
                lib.snippets@,
                cs.selected,
            ).len() == 0 {
                content
            } else {
                composed_text_of(v) + snippet_separator() + content
            }
        }),
{
    let lib = v.library->0;
    let cs = v.compose->0;
    lemma_selection_appends(lib.snippets@, cs.selected, cs.cursor);
}

/// On the snippet list, deselecting a snippet with the space key removes it
/// from the composed text: what is composed is the rest of the selection,
/// in the order it was selected.
pub proof fn lemma_space_deselects(v: AppModel)
    requires
        v.library is Some,
        v.compose matches Some(cs) && !cs.preview_visible && (cs.cursor as int)
            < snippet_count_of(v) && cs.selected.contains(cs.cursor),
    ensures
        ({
            let cs = v.compose->0;
            &&& composed_text_of(compose_key_model(v, Key::Char(' '))) == composed(
                v.library->0.snippets@,
                without(cs.selected, cs.cursor),
            )
            &&& composed_text_of(compose_key_model(v, Key::Char(' '))) == composed(
                v.library->0.snippets@,
                cs.selected.filter(|y: usize| y != cs.cursor),
            )
            &&& !without(cs.selected, cs.cursor).contains(cs.cursor)
        }),
{
    let cs = v.compose->0;
    lemma_without_contains(cs.selected, cs.cursor, cs.cursor);
    lemma_without_keeps_order(cs.selected, cs.cursor);
}

/// On the snippet list, `Tab` moves the focus to the other pane and changes
/// nothing else; pressing it twice gives the state back.
pub proof fn lemma_tab_switches_focus(v: AppModel)
    requires
        v.compose matches Some(cs) && !cs.preview_visible && snippet_count_of(v) > 0,
    ensures
        compose_key_model(v, Key::Tab) == with_compose(
            v,
            ComposeModel { focus: other_focus(v.compose->0.focus), ..v.compose->0 },
        ),
        compose_key_model(compose_key_model(v, Key::Tab), Key::Tab) == v,
{
}

/// While the live preview has the focus, the arrow keys scroll it and leave
/// the list's cursor where it is.
pub proof fn lemma_preview_focus_keeps_cursor(v: AppModel, k: Key)
    requires
        v.compose matches Some(cs) && !cs.preview_visible && snippet_count_of(v) > 0
            && cs.focus == ComposeFocus::Preview,
        k == Key::Char('j') || k == Key::Down || k == Key::Char('k') || k == Key::Up,
    ensures
        compose_key_model(v, k).compose matches Some(cs2) && cs2.cursor == v.compose->0.cursor
            && cs2.selected == v.compose->0.selected,
{
}

/// The snippet list's title counts the selected snippets and all snippets:
/// `"Compose (S/N selected)"` with `S` the number of selected snippets and
/// `N` the number in the library, each written in decimal.
pub proof fn lemma_list_title_counts_selection(v: AppModel, view: ComposeView)
    requires
        shows(v, view),
        view is List,
    ensures
        ({
            let cs = v.compose->0;
            let n = v.library->0.snippets@.len();
            view matches ComposeView::List { title, .. } && title@ == "Compose ("@ + decimal(
                cs.selected.len(),
            ) + "/"@ + decimal(n) + " selected)"@
        }),
{
}

} // verus!
