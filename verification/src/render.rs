//! The styling capability: named colors, their ANSI escape sequences for
//! foreground, background and bold, and the reset sequence that closes every
//! styled segment.

use vstd::prelude::*;
use crate::text::str_eq;

verus! {

/// A named terminal color, or the terminal's default.
#[derive(Clone, Copy, Debug, PartialEq, Eq, Structural)]
pub enum Color {
    Black,
    Red,
    Green,
    Yellow,
    Blue,
    Magenta,
    Cyan,
    White,
    Default,
}

/// The color a color name denotes; unknown names fall back to the default.
pub open spec fn parse_color_of(s: Seq<char>) -> Color {
    if s == "black"@ {
        Color::Black
    } else if s == "red"@ {
        Color::Red
    } else if s == "green"@ {
        Color::Green
    } else if s == "yellow"@ {
        Color::Yellow
    } else if s == "blue"@ {
        Color::Blue
    } else if s == "magenta"@ {
        Color::Magenta
    } else if s == "cyan"@ {
        Color::Cyan
    } else if s == "white"@ {
        Color::White
    } else {
        Color::Default
    }
}

/// The foreground escape sequence for a color.
pub open spec fn fg_code(c: Color) -> Seq<char> {
    match c {
        Color::Black => "\u{1b}[30m"@,
        Color::Red => "\u{1b}[31m"@,
        Color::Green => "\u{1b}[32m"@,
        Color::Yellow => "\u{1b}[33m"@,
        Color::Blue => "\u{1b}[34m"@,
        Color::Magenta => "\u{1b}[35m"@,
        Color::Cyan => "\u{1b}[36m"@,
        Color::White => "\u{1b}[37m"@,
        Color::Default => "\u{1b}[39m"@,
    }
}

/// The background escape sequence for a color.
pub open spec fn bg_code(c: Color) -> Seq<char> {
    match c {
        Color::Black => "\u{1b}[40m"@,
        Color::Red => "\u{1b}[41m"@,
        Color::Green => "\u{1b}[42m"@,
        Color::Yellow => "\u{1b}[43m"@,
        Color::Blue => "\u{1b}[44m"@,
        Color::Magenta => "\u{1b}[45m"@,
        Color::Cyan => "\u{1b}[46m"@,
        Color::White => "\u{1b}[47m"@,
        Color::Default => "\u{1b}[49m"@,
    }
}

/// The bold escape sequence.
pub open spec fn bold_code() -> Seq<char> {
    "\u{1b}[1m"@
}

/// The reset escape sequence that closes every styled segment and line.
pub open spec fn reset_code() -> Seq<char> {
    "\u{1b}[0m"@
}

/// Produces escape sequences for the styles the layout engine applies.
pub struct Renderer;

impl Renderer {
    pub fn new() -> Renderer {
        Renderer
    }

    /// Interpret a configured color name.
    pub fn parse_color(s: &str) -> (c: Color)
        ensures
            c == parse_color_of(s@),
    {
        if str_eq(s, "black") {
            Color::Black
        } else if str_eq(s, "red") {
            Color::Red
        } else if str_eq(s, "green") {
            Color::Green
        } else if str_eq(s, "yellow") {
            Color::Yellow
        } else if str_eq(s, "blue") {
            Color::Blue
        } else if str_eq(s, "magenta") {
            Color::Magenta
        } else if str_eq(s, "cyan") {
            Color::Cyan
        } else if str_eq(s, "white") {
            Color::White
        } else {
            Color::Default
        }
    }

    /// The foreground escape sequence for a color.
    pub fn fg(&self, c: &Color) -> (r: &'static str)
        ensures
            r@ == fg_code(*c),
    {
        match c {
            Color::Black => "\u{1b}[30m",
            Color::Red => "\u{1b}[31m",
            Color::Green => "\u{1b}[32m",
            Color::Yellow => "\u{1b}[33m",
            Color::Blue => "\u{1b}[34m",
            Color::Magenta => "\u{1b}[35m",
            Color::Cyan => "\u{1b}[36m",
            Color::White => "\u{1b}[37m",
            Color::Default => "\u{1b}[39m",
        }
    }

    /// The background escape sequence for a color.
    pub fn bg(&self, c: &Color) -> (r: &'static str)
        ensures
            r@ == bg_code(*c),
    {
        match c {
            Color::Black => "\u{1b}[40m",
            Color::Red => "\u{1b}[41m",
            Color::Green => "\u{1b}[42m",
            Color::Yellow => "\u{1b}[43m",
            Color::Blue => "\u{1b}[44m",
            Color::Magenta => "\u{1b}[45m",
            Color::Cyan => "\u{1b}[46m",
            Color::White => "\u{1b}[47m",
            Color::Default => "\u{1b}[49m",
        }
    }

    /// The bold escape sequence.
    pub fn bold(&self) -> (r: &'static str)
        ensures
            r@ == bold_code(),
    {
        "\u{1b}[1m"
    }

    /// The reset escape sequence.
    pub fn reset(&self) -> (r: &'static str)
        ensures
            r@ == reset_code(),
    {
        "\u{1b}[0m"
    }
}

} // verus!
