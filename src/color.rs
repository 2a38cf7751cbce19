//! Colors and styles, and the ANSI escape sequence of each.

use vstd::prelude::*;

verus! {

/// A foreground color (SGR codes 30 to 37 and 90 to 97).
#[derive(Debug, Clone, Copy, PartialEq, Eq, Structural)]
pub enum Color {
    White,
    Black,
    Red,
    Green,
    Yellow,
    Blue,
    Magenta,
    Cyan,
    LightGray,
    DarkGray,
    LightRed,
    LightGreen,
    LightYellow,
    LightBlue,
    LightMagenta,
    LightCyan,
}

/// A text style (SGR codes 0 to 9).
#[derive(Debug, Clone, Copy, PartialEq, Eq, Structural)]
pub enum Style {
    Normal,
    Bold,
    Dim,
    Italic,
    Underlined,
    Blink,
    Reverse,
    Hidden,
    StrikeThrough,
}

/// The escape sequence that selects a color.
pub open spec fn color_code(c: Color) -> Seq<char> {
    match c {
        Color::White => "\x1B[97m"@,
        Color::Black => "\x1B[30m"@,
        Color::Red => "\x1B[31m"@,
        Color::Green => "\x1B[32m"@,
        Color::Yellow => "\x1B[33m"@,
        Color::Blue => "\x1B[34m"@,
        Color::Magenta => "\x1B[35m"@,
        Color::Cyan => "\x1B[36m"@,
        Color::LightGray => "\x1B[37m"@,
        Color::DarkGray => "\x1B[90m"@,
        Color::LightRed => "\x1B[91m"@,
        Color::LightGreen => "\x1B[92m"@,
        Color::LightYellow => "\x1B[93m"@,
        Color::LightBlue => "\x1B[94m"@,
        Color::LightMagenta => "\x1B[95m"@,
        Color::LightCyan => "\x1B[96m"@,
    }
}

/// The escape sequence that selects a style.
pub open spec fn style_code(s: Style) -> Seq<char> {
    match s {
        Style::Normal => "\x1B[0m"@,
        Style::Bold => "\x1B[1m"@,
        Style::Dim => "\x1B[2m"@,
        Style::Italic => "\x1B[3m"@,
        Style::Underlined => "\x1B[4m"@,
        Style::Blink => "\x1B[5m"@,
        Style::Reverse => "\x1B[7m"@,
        Style::Hidden => "\x1B[8m"@,
        Style::StrikeThrough => "\x1B[9m"@,
    }
}

impl Color {
    /// The escape sequence of this color.
    pub fn code(&self) -> (r: &'static str)
        ensures
            r@ == color_code(*self),
    {
        match self {
            Color::White => "\x1B[97m",
            Color::Black => "\x1B[30m",
            Color::Red => "\x1B[31m",
            Color::Green => "\x1B[32m",
            Color::Yellow => "\x1B[33m",
            Color::Blue => "\x1B[34m",
            Color::Magenta => "\x1B[35m",
            Color::Cyan => "\x1B[36m",
            Color::LightGray => "\x1B[37m",
            Color::DarkGray => "\x1B[90m",
            Color::LightRed => "\x1B[91m",
            Color::LightGreen => "\x1B[92m",
            Color::LightYellow => "\x1B[93m",
            Color::LightBlue => "\x1B[94m",
            Color::LightMagenta => "\x1B[95m",
            Color::LightCyan => "\x1B[96m",
        }
    }
}

impl Style {
    /// The escape sequence of this style.
    pub fn code(&self) -> (r: &'static str)
        ensures
            r@ == style_code(*self),
    {
        match self {
            Style::Normal => "\x1B[0m",
            Style::Bold => "\x1B[1m",
            Style::Dim => "\x1B[2m",
            Style::Italic => "\x1B[3m",
            Style::Underlined => "\x1B[4m",
            Style::Blink => "\x1B[5m",
            Style::Reverse => "\x1B[7m",
            Style::Hidden => "\x1B[8m",
            Style::StrikeThrough => "\x1B[9m",
        }
    }
}

} // verus!
