//! Color theme definitions for the TUI.
//!
//! Maps semantic UI roles to styles. Provides built-in dark and light
//! palettes and a `toggle()` method to swap between them at runtime.
//! A style here holds, as plain values, what a terminal style is made of:
//! foreground and background colours and the text modifiers added and
//! removed.

use vstd::prelude::*;

verus! {

/// A terminal colour.
#[derive(Debug, Clone, Copy, PartialEq, Eq, Structural)]
pub enum Color {
    Reset,
    Black,
    Red,
    Green,
    Yellow,
    Blue,
    Magenta,
    Cyan,
    Gray,
    DarkGray,
    LightRed,
    LightGreen,
    LightYellow,
    LightBlue,
    LightMagenta,
    LightCyan,
    White,
    Rgb(u8, u8, u8),
    Indexed(u8),
}

/// A text modifier.
#[derive(Debug, Clone, Copy, PartialEq, Eq, Structural)]
pub enum Modifier {
    Bold,
    Dim,
    Italic,
    Underlined,
    SlowBlink,
    RapidBlink,
    Reversed,
    Hidden,
    CrossedOut,
}

/// The bit that stands for `m` in a set of modifiers.
pub open spec fn modifier_bit(m: Modifier) -> u16 {
    match m {
        Modifier::Bold => 0x001,
        Modifier::Dim => 0x002,
        Modifier::Italic => 0x004,
        Modifier::Underlined => 0x008,
        Modifier::SlowBlink => 0x010,
        Modifier::RapidBlink => 0x020,
        Modifier::Reversed => 0x040,
        Modifier::Hidden => 0x080,
        Modifier::CrossedOut => 0x100,
    }
}

impl Modifier {
    /// The bit that stands for this modifier in a set of modifiers.
    pub fn bit(self) -> (b: u16)
        ensures
            b == modifier_bit(self),
    {
        match self {
            Modifier::Bold => 0x001,
            Modifier::Dim => 0x002,
            Modifier::Italic => 0x004,
            Modifier::Underlined => 0x008,
            Modifier::SlowBlink => 0x010,
            Modifier::RapidBlink => 0x020,
            Modifier::Reversed => 0x040,
            Modifier::Hidden => 0x080,
            Modifier::CrossedOut => 0x100,
        }
    }
}

/// How a piece of text is drawn: colours, and the modifiers added to and
/// removed from what it is drawn over (each a set of modifier bits).
#[derive(Debug, Clone, Copy, PartialEq, Eq, Structural)]
pub struct Style {
    pub fg: Option<Color>,
    pub bg: Option<Color>,
    pub add_modifier: u16,
    pub sub_modifier: u16,
}

/// The style that changes nothing.
pub open spec fn plain_style() -> Style {
    Style { fg: None, bg: None, add_modifier: 0, sub_modifier: 0 }
}

/// A style with the given colours that adds the modifier bits `add`.
pub open spec fn style_of(fg: Option<Color>, bg: Option<Color>, add: u16) -> Style {
    Style { fg, bg, add_modifier: add, sub_modifier: 0 }
}

impl Default for Style {
    fn default() -> (r: Self)
        ensures
            r == plain_style(),
    {
        Style { fg: None, bg: None, add_modifier: 0, sub_modifier: 0 }
    }
}

impl Style {
    /// Changes the foreground colour.
    pub fn fg(self, color: Color) -> (r: Self)
        ensures
            r == (Style { fg: Some(color), ..self }),
    {
        Style { fg: Some(color), ..self }
    }

    /// Changes the background colour.
    pub fn bg(self, color: Color) -> (r: Self)
        ensures
            r == (Style { bg: Some(color), ..self }),
    {
        Style { bg: Some(color), ..self }
    }

    /// Adds a modifier, and stops removing it.
    pub fn add_modifier(self, modifier: Modifier) -> (r: Self)
        ensures
            r == (Style {
                add_modifier: self.add_modifier | modifier_bit(modifier),
                sub_modifier: self.sub_modifier & !modifier_bit(modifier),
                ..self
            }),
    {
        let b = modifier.bit();
        Style { add_modifier: self.add_modifier | b, sub_modifier: self.sub_modifier & !b, ..self }
    }
}

/// Maps every visual role in the application to a concrete [`Style`].
#[derive(Debug, Clone, PartialEq, Eq, Structural)]
pub struct Theme {
    /// Whether this is the dark variant.
    pub is_dark: bool,
    /// Focused pane border and active tab text.
    pub active_border: Style,
    /// Non-focused pane borders.
    pub inactive_border: Style,
    /// Active screen tab text.
    pub active_tab: Style,
    /// Inactive screen tab text.
    pub inactive_tab: Style,
    /// Keyboard shortcut labels in the help bar.
    pub help_key: Style,
    /// Shortcut descriptions in the help bar.
    pub help_desc: Style,
    /// Cursor line and selected tree/list item.
    pub highlight: Style,
    /// Selected text range in visual select mode.
    pub visual_selection: Style,
    /// Border for input fields and edit mode.
    pub input_border: Style,
    /// Active line in the text editor.
    pub edit_cursor_line: Style,
}

/// Adding the bold, reversed or underlined modifier to the plain style
/// sets just its bit.
proof fn lemma_modifier_on_plain_style()
    ensures
        0u16 | 0x001u16 == 0x001u16 && 0u16 & !0x001u16 == 0u16,
        0u16 | 0x040u16 == 0x040u16 && 0u16 & !0x040u16 == 0u16,
        0u16 | 0x008u16 == 0x008u16 && 0u16 & !0x008u16 == 0u16,
{
    assert(0u16 | 0x001u16 == 0x001u16 && 0u16 & !0x001u16 == 0u16) by (bit_vector);
    assert(0u16 | 0x040u16 == 0x040u16 && 0u16 & !0x040u16 == 0u16) by (bit_vector);
    assert(0u16 | 0x008u16 == 0x008u16 && 0u16 & !0x008u16 == 0u16) by (bit_vector);
}

/// The dark palette.
pub open spec fn dark_palette() -> Theme {
    Theme {
        is_dark: true,
        active_border: style_of(Some(Color::Cyan), None, 0),
        inactive_border: plain_style(),
        active_tab: style_of(Some(Color::Cyan), None, 0x001),
        inactive_tab: style_of(Some(Color::DarkGray), None, 0),
        help_key: style_of(Some(Color::Cyan), Some(Color::DarkGray), 0x001),
        help_desc: style_of(Some(Color::Gray), None, 0),
        highlight: style_of(None, None, 0x040),
        visual_selection: style_of(None, Some(Color::DarkGray), 0),
        input_border: style_of(Some(Color::Yellow), None, 0),
        edit_cursor_line: style_of(None, None, 0x008),
    }
}

/// The light palette.
pub open spec fn light_palette() -> Theme {
    Theme {
        is_dark: false,
        active_border: style_of(Some(Color::Blue), None, 0),
        inactive_border: style_of(Some(Color::Gray), None, 0),
        active_tab: style_of(Some(Color::Blue), None, 0x001),
        inactive_tab: style_of(Some(Color::Gray), None, 0),
        help_key: style_of(Some(Color::White), Some(Color::Blue), 0x001),
        help_desc: style_of(Some(Color::DarkGray), None, 0),
        highlight: style_of(None, None, 0x040),
        visual_selection: style_of(None, Some(Color::LightYellow), 0),
        input_border: style_of(Some(Color::Magenta), None, 0),
        edit_cursor_line: style_of(None, None, 0x008),
    }
}

/// The theme that `toggle` gives for `t`: the palette of the other brightness.
pub open spec fn toggled(t: Theme) -> Theme {
    if t.is_dark {
        light_palette()
    } else {
        dark_palette()
    }
}

impl Theme {
    /// Returns the built-in dark palette, made for dark terminal backgrounds.
    pub fn dark() -> (r: Self)
        ensures
            r == dark_palette(),
    {
        let r = Self {
            is_dark: true,
            active_border: Style::default().fg(Color::Cyan),
            inactive_border: Style::default(),
            active_tab: Style::default().fg(Color::Cyan).add_modifier(Modifier::Bold),
            inactive_tab: Style::default().fg(Color::DarkGray),
            help_key: Style::default().fg(Color::Cyan).bg(Color::DarkGray).add_modifier(
                Modifier::Bold,
            ),
            help_desc: Style::default().fg(Color::Gray),
            highlight: Style::default().add_modifier(Modifier::Reversed),
            visual_selection: Style::default().bg(Color::DarkGray),
            input_border: Style::default().fg(Color::Yellow),
            edit_cursor_line: Style::default().add_modifier(Modifier::Underlined),
        };
        proof {
            lemma_modifier_on_plain_style();
        }
        r
    }

    /// Returns the built-in light palette with colors readable on light
    /// terminal backgrounds.
    pub fn light() -> (r: Self)
        ensures
            r == light_palette(),
    {
        let r = Self {
            is_dark: false,
            active_border: Style::default().fg(Color::Blue),
            inactive_border: Style::default().fg(Color::Gray),
            active_tab: Style::default().fg(Color::Blue).add_modifier(Modifier::Bold),
            inactive_tab: Style::default().fg(Color::Gray),
            help_key: Style::default().fg(Color::White).bg(Color::Blue).add_modifier(
                Modifier::Bold,
            ),
            help_desc: Style::default().fg(Color::DarkGray),
            highlight: Style::default().add_modifier(Modifier::Reversed),
            visual_selection: Style::default().bg(Color::LightYellow),
            input_border: Style::default().fg(Color::Magenta),
            edit_cursor_line: Style::default().add_modifier(Modifier::Underlined),
        };
        proof {
            lemma_modifier_on_plain_style();
        }
        r
    }

    /// Returns the opposite theme (dark ↔ light).
    pub fn toggle(&self) -> (r: Self)
        ensures
            r == toggled(*self),
    {
        if self.is_dark {
            Self::light()
        } else {
            Self::dark()
        }
    }
}

/// Toggling always flips between dark and light.
pub proof fn lemma_toggle_flips_brightness(t: Theme)
    ensures
        toggled(t).is_dark == !t.is_dark,
{
}

/// Toggling a built-in palette twice gives it back.
pub proof fn lemma_double_toggle_restores_palette(t: Theme)
    requires
        t == dark_palette() || t == light_palette(),
    ensures
        toggled(toggled(t)) == t,
{
}

/// The two palettes differ in the roles that a light background needs changed.
pub proof fn lemma_palettes_differ()
    ensures
        dark_palette().active_border != light_palette().active_border,
        dark_palette().input_border != light_palette().input_border,
        dark_palette().visual_selection != light_palette().visual_selection,
{
}

/// The palettes' colours, role by role: the dark one with cyan accents on
/// dark grey, the light one with blue accents, magenta input borders and a
/// light yellow selection; both mark the cursor line reversed (bit 0x40),
/// bold tabs and keys (bit 0x01) and the editor line underlined (bit 0x08).
pub proof fn lemma_palette_roles()
    ensures
        dark_palette().is_dark,
        dark_palette().active_border == (Style { fg: Some(Color::Cyan), bg: None, add_modifier: 0, sub_modifier: 0 }),
        dark_palette().inactive_border == (Style { fg: None, bg: None, add_modifier: 0, sub_modifier: 0 }),
        dark_palette().active_tab == (Style { fg: Some(Color::Cyan), bg: None, add_modifier: 1, sub_modifier: 0 }),
        dark_palette().inactive_tab == (Style { fg: Some(Color::DarkGray), bg: None, add_modifier: 0, sub_modifier: 0 }),
        dark_palette().help_key == (Style { fg: Some(Color::Cyan), bg: Some(Color::DarkGray), add_modifier: 1, sub_modifier: 0 }),
        dark_palette().help_desc == (Style { fg: Some(Color::Gray), bg: None, add_modifier: 0, sub_modifier: 0 }),
        dark_palette().highlight == (Style { fg: None, bg: None, add_modifier: 0x40, sub_modifier: 0 }),
        dark_palette().visual_selection == (Style { fg: None, bg: Some(Color::DarkGray), add_modifier: 0, sub_modifier: 0 }),
        dark_palette().input_border == (Style { fg: Some(Color::Yellow), bg: None, add_modifier: 0, sub_modifier: 0 }),
        dark_palette().edit_cursor_line == (Style { fg: None, bg: None, add_modifier: 0x08, sub_modifier: 0 }),
        !light_palette().is_dark,
        light_palette().active_border == (Style { fg: Some(Color::Blue), bg: None, add_modifier: 0, sub_modifier: 0 }),
        light_palette().inactive_border == (Style { fg: Some(Color::Gray), bg: None, add_modifier: 0, sub_modifier: 0 }),
        light_palette().active_tab == (Style { fg: Some(Color::Blue), bg: None, add_modifier: 1, sub_modifier: 0 }),
        light_palette().inactive_tab == (Style { fg: Some(Color::Gray), bg: None, add_modifier: 0, sub_modifier: 0 }),
        light_palette().help_key == (Style { fg: Some(Color::White), bg: Some(Color::Blue), add_modifier: 1, sub_modifier: 0 }),
        light_palette().help_desc == (Style { fg: Some(Color::DarkGray), bg: None, add_modifier: 0, sub_modifier: 0 }),
        light_palette().highlight == (Style { fg: None, bg: None, add_modifier: 0x40, sub_modifier: 0 }),
        light_palette().visual_selection == (Style { fg: None, bg: Some(Color::LightYellow), add_modifier: 0, sub_modifier: 0 }),
        light_palette().input_border == (Style { fg: Some(Color::Magenta), bg: None, add_modifier: 0, sub_modifier: 0 }),
        light_palette().edit_cursor_line == (Style { fg: None, bg: None, add_modifier: 0x08, sub_modifier: 0 }),
{
}

} // verus!
