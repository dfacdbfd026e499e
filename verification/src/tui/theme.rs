//! Colours and text styles of the terminal interface.
//!
//! `Style` follows the terminal style model: an optional foreground and
//! background colour, the modifiers to switch on and the modifiers to switch
//! off. The front end turns it into the drawing library's own style.

use vstd::prelude::*;

verus! {

/// A terminal colour.
#[derive(Clone, Copy, Debug, PartialEq, Eq, Structural)]
pub enum Color {
    Reset,
    Black,
    Red,
    Green,
    Yellow,
    Blue,
    Magenta,
    Cyan,
    Gray,
    DarkGray,
    LightRed,
    LightGreen,
    LightYellow,
    LightBlue,
    LightMagenta,
    LightCyan,
    White,
    Rgb(u8, u8, u8),
    Indexed(u8),
}

/// Modifier bits, as the terminal style model numbers them.
pub const BOLD: u16 = 0x1;

pub const DIM: u16 = 0x2;

pub const ITALIC: u16 = 0x4;

pub const UNDERLINED: u16 = 0x8;

pub const SLOW_BLINK: u16 = 0x10;

pub const RAPID_BLINK: u16 = 0x20;

pub const REVERSED: u16 = 0x40;

pub const HIDDEN: u16 = 0x80;

pub const CROSSED_OUT: u16 = 0x100;

/// A text style.
#[derive(Clone, Copy, Debug, PartialEq, Eq, Structural)]
pub struct Style {
    pub fg: Option<Color>,
    pub bg: Option<Color>,
    pub add_modifier: u16,
    pub sub_modifier: u16,
}

/// The style that changes nothing.
pub open spec fn plain_style() -> Style {
    Style { fg: None, bg: None, add_modifier: 0, sub_modifier: 0 }
}

/// `s` with foreground `c`.
pub open spec fn with_fg(s: Style, c: Color) -> Style {
    Style { fg: Some(c), ..s }
}

/// `s` with background `c`.
pub open spec fn with_bg(s: Style, c: Color) -> Style {
    Style { bg: Some(c), ..s }
}

/// `s` with the modifiers `m` switched on (and no longer switched off).
pub open spec fn with_modifier(s: Style, m: u16) -> Style {
    Style { add_modifier: s.add_modifier | m, sub_modifier: s.sub_modifier & !m, ..s }
}

impl Style {
    /// The style that changes nothing.
    pub fn new() -> (s: Style)
        ensures
            s == plain_style(),
    {
        Style { fg: None, bg: None, add_modifier: 0, sub_modifier: 0 }
    }

    /// This style with foreground `c`.
    pub fn fg(self, c: Color) -> (s: Style)
        ensures
            s == with_fg(self, c),
    {
        Style { fg: Some(c), ..self }
    }

    /// This style with background `c`.
    pub fn bg(self, c: Color) -> (s: Style)
        ensures
            s == with_bg(self, c),
    {
        Style { bg: Some(c), ..self }
    }

    /// This style with the modifiers `m` switched on.
    pub fn add_modifier(self, m: u16) -> (s: Style)
        ensures
            s == with_modifier(self, m),
    {
        Style { add_modifier: self.add_modifier | m, sub_modifier: self.sub_modifier & !m, ..self }
    }
}

impl Default for Style {
    fn default() -> (s: Style)
        ensures
            s == plain_style(),
    {
        Style::new()
    }
}

/// The styles of every part of the interface.
#[derive(Clone, Copy, Debug)]
pub struct Theme {
    pub border: Style,
    pub border_focused: Style,
    pub title: Style,
    pub sidebar_selected: Style,
    pub sidebar_unselected: Style,
    pub user_label: Style,
    pub assistant_label: Style,
    pub system_label: Style,
    pub status_bar: Style,
    pub status_connected: Style,
    pub status_disconnected: Style,
    pub error: Style,
    pub muted: Style,
    pub code_inline: Style,
    pub code_block_bg: Color,
    pub heading: Style,
    pub heading2: Style,
    pub bold: Style,
    pub italic: Style,
    pub link: Style,
    pub blockquote: Style,
    pub list_bullet: Style,
}

/// A plain style with foreground `c`.
pub open spec fn fg_style(c: Color) -> Style {
    with_fg(plain_style(), c)
}

/// A plain style with foreground `c` and the modifiers `m`.
pub open spec fn fg_mod_style(c: Color, m: u16) -> Style {
    with_modifier(with_fg(plain_style(), c), m)
}

/// The interface's one theme.
pub open spec fn default_theme() -> Theme {
    Theme {
        border: fg_style(Color::DarkGray),
        border_focused: fg_style(Color::Cyan),
        title: fg_mod_style(Color::White, BOLD),
        sidebar_selected: fg_mod_style(Color::Cyan, BOLD),
        sidebar_unselected: fg_style(Color::DarkGray),
        user_label: fg_mod_style(Color::Cyan, BOLD),
        assistant_label: fg_mod_style(Color::Green, BOLD),
        system_label: fg_mod_style(Color::Yellow, DIM),
        status_bar: with_bg(fg_style(Color::White), Color::DarkGray),
        status_connected: fg_style(Color::Green),
        status_disconnected: fg_style(Color::Red),
        error: fg_style(Color::Red),
        muted: fg_style(Color::DarkGray),
        code_inline: fg_style(Color::Yellow),
        code_block_bg: Color::Rgb(30, 30, 30),
        heading: fg_mod_style(Color::Cyan, BOLD),
        heading2: fg_mod_style(Color::Blue, BOLD),
        bold: with_modifier(plain_style(), BOLD),
        italic: with_modifier(plain_style(), ITALIC),
        link: fg_mod_style(Color::Blue, UNDERLINED),
        blockquote: fg_style(Color::DarkGray),
        list_bullet: fg_style(Color::DarkGray),
    }
}

impl Default for Theme {
    fn default() -> (t: Theme)
        ensures
            t == default_theme(),
    {
        Theme {
            border: Style::new().fg(Color::DarkGray),
            border_focused: Style::new().fg(Color::Cyan),
            title: Style::new().fg(Color::White).add_modifier(BOLD),
            sidebar_selected: Style::new().fg(Color::Cyan).add_modifier(BOLD),
            sidebar_unselected: Style::new().fg(Color::DarkGray),
            user_label: Style::new().fg(Color::Cyan).add_modifier(BOLD),
            assistant_label: Style::new().fg(Color::Green).add_modifier(BOLD),
            system_label: Style::new().fg(Color::Yellow).add_modifier(DIM),
            status_bar: Style::new().fg(Color::White).bg(Color::DarkGray),
            status_connected: Style::new().fg(Color::Green),
            status_disconnected: Style::new().fg(Color::Red),
            error: Style::new().fg(Color::Red),
            muted: Style::new().fg(Color::DarkGray),
            code_inline: Style::new().fg(Color::Yellow),
            code_block_bg: Color::Rgb(30, 30, 30),
            heading: Style::new().fg(Color::Cyan).add_modifier(BOLD),
            heading2: Style::new().fg(Color::Blue).add_modifier(BOLD),
            bold: Style::new().add_modifier(BOLD),
            italic: Style::new().add_modifier(ITALIC),
            link: Style::new().fg(Color::Blue).add_modifier(UNDERLINED),
            blockquote: Style::new().fg(Color::DarkGray),
            list_bullet: Style::new().fg(Color::DarkGray),
        }
    }
}

/// The interface's theme.
pub fn theme() -> (t: Theme)
    ensures
        t == default_theme(),
{
    Theme::default()
}

} // verus!
