//! ANSI escape sequences for styling text and driving the cursor.

use vstd::prelude::*;

pub mod color;
pub mod cursor;
pub mod decimal;
pub mod styling;

verus! {

/// One text attribute or colour that a terminal can be asked to apply.
#[derive(Debug, PartialEq, Eq, Structural)]
pub enum ANSISequence {
    Reset,
    Bold,
    Dim,
    Italic,
    Underline,
    Blink,
    Invert,
    Hidden,
    Strikethrough,
    NoBold,
    NoDim,
    NoItalic,
    NoUnderline,
    NoBlink,
    NoInvert,
    NoHidden,
    NoStrikethrough,
    FgBlack,
    FgRed,
    FgGreen,
    FgYellow,
    FgBlue,
    FgMagenta,
    FgCyan,
    FgWhite,
    FgBrightBlack,
    FgBrightRed,
    FgBrightGreen,
    FgBrightYellow,
    FgBrightBlue,
    FgBrightMagenta,
    FgBrightCyan,
    FgBrightWhite,
    BgBlack,
    BgRed,
    BgGreen,
    BgYellow,
    BgBlue,
    BgMagenta,
    BgCyan,
    BgWhite,
    BgBrightBlack,
    BgBrightRed,
    BgBrightGreen,
    BgBrightYellow,
    BgBrightBlue,
    BgBrightMagenta,
    BgBrightCyan,
    BgBrightWhite,
    FgRGB(u8, u8, u8),
    BgRGB(u8, u8, u8),
}

impl Clone for ANSISequence {
    fn clone(&self) -> (r: Self)
        ensures
            r == *self,
    {
        match self {
            ANSISequence::Reset => ANSISequence::Reset,
            ANSISequence::Bold => ANSISequence::Bold,
            ANSISequence::Dim => ANSISequence::Dim,
            ANSISequence::Italic => ANSISequence::Italic,
            ANSISequence::Underline => ANSISequence::Underline,
            ANSISequence::Blink => ANSISequence::Blink,
            ANSISequence::Invert => ANSISequence::Invert,
            ANSISequence::Hidden => ANSISequence::Hidden,
            ANSISequence::Strikethrough => ANSISequence::Strikethrough,
            ANSISequence::NoBold => ANSISequence::NoBold,
            ANSISequence::NoDim => ANSISequence::NoDim,
            ANSISequence::NoItalic => ANSISequence::NoItalic,
            ANSISequence::NoUnderline => ANSISequence::NoUnderline,
            ANSISequence::NoBlink => ANSISequence::NoBlink,
            ANSISequence::NoInvert => ANSISequence::NoInvert,
            ANSISequence::NoHidden => ANSISequence::NoHidden,
            ANSISequence::NoStrikethrough => ANSISequence::NoStrikethrough,
            ANSISequence::FgBlack => ANSISequence::FgBlack,
            ANSISequence::FgRed => ANSISequence::FgRed,
            ANSISequence::FgGreen => ANSISequence::FgGreen,
            ANSISequence::FgYellow => ANSISequence::FgYellow,
            ANSISequence::FgBlue => ANSISequence::FgBlue,
            ANSISequence::FgMagenta => ANSISequence::FgMagenta,
            ANSISequence::FgCyan => ANSISequence::FgCyan,
            ANSISequence::FgWhite => ANSISequence::FgWhite,
            ANSISequence::FgBrightBlack => ANSISequence::FgBrightBlack,
            ANSISequence::FgBrightRed => ANSISequence::FgBrightRed,
            ANSISequence::FgBrightGreen => ANSISequence::FgBrightGreen,
            ANSISequence::FgBrightYellow => ANSISequence::FgBrightYellow,
            ANSISequence::FgBrightBlue => ANSISequence::FgBrightBlue,
            ANSISequence::FgBrightMagenta => ANSISequence::FgBrightMagenta,
            ANSISequence::FgBrightCyan => ANSISequence::FgBrightCyan,
            ANSISequence::FgBrightWhite => ANSISequence::FgBrightWhite,
            ANSISequence::BgBlack => ANSISequence::BgBlack,
            ANSISequence::BgRed => ANSISequence::BgRed,
            ANSISequence::BgGreen => ANSISequence::BgGreen,
            ANSISequence::BgYellow => ANSISequence::BgYellow,
            ANSISequence::BgBlue => ANSISequence::BgBlue,
            ANSISequence::BgMagenta => ANSISequence::BgMagenta,
            ANSISequence::BgCyan => ANSISequence::BgCyan,
            ANSISequence::BgWhite => ANSISequence::BgWhite,
            ANSISequence::BgBrightBlack => ANSISequence::BgBrightBlack,
            ANSISequence::BgBrightRed => ANSISequence::BgBrightRed,
            ANSISequence::BgBrightGreen => ANSISequence::BgBrightGreen,
            ANSISequence::BgBrightYellow => ANSISequence::BgBrightYellow,
            ANSISequence::BgBrightBlue => ANSISequence::BgBrightBlue,
            ANSISequence::BgBrightMagenta => ANSISequence::BgBrightMagenta,
            ANSISequence::BgBrightCyan => ANSISequence::BgBrightCyan,
            ANSISequence::BgBrightWhite => ANSISequence::BgBrightWhite,
            ANSISequence::FgRGB(r, g, b) => ANSISequence::FgRGB(*r, *g, *b),
            ANSISequence::BgRGB(r, g, b) => ANSISequence::BgRGB(*r, *g, *b),
        }
    }
}

impl ANSISequence {
    /// The escape sequence that asks the terminal for this attribute.
    pub open spec fn esc_code(&self) -> Seq<char> {
        match self {
            ANSISequence::Reset => styling::RESET@,
            ANSISequence::Bold => styling::BOLD@,
            ANSISequence::Dim => styling::DIM@,
            ANSISequence::Italic => styling::ITALIC@,
            ANSISequence::Underline => styling::UNDERLINE@,
            ANSISequence::Blink => styling::BLINK@,
            ANSISequence::Invert => styling::INVERT@,
            ANSISequence::Hidden => styling::HIDDEN@,
            ANSISequence::Strikethrough => styling::STRIKETHROUGH@,
            ANSISequence::NoBold => styling::NO_BOLD@,
            ANSISequence::NoDim => styling::NO_DIM@,
            ANSISequence::NoItalic => styling::NO_ITALIC@,
            ANSISequence::NoUnderline => styling::NO_UNDERLINE@,
            ANSISequence::NoBlink => styling::NO_BLINK@,
            ANSISequence::NoInvert => styling::NO_INVERT@,
            ANSISequence::NoHidden => styling::NO_HIDDEN@,
            ANSISequence::NoStrikethrough => styling::NO_STRIKETHROUGH@,
            ANSISequence::FgBlack => color::FG_BLACK@,
            ANSISequence::FgRed => color::FG_RED@,
            ANSISequence::FgGreen => color::FG_GREEN@,
            ANSISequence::FgYellow => color::FG_YELLOW@,
            ANSISequence::FgBlue => color::FG_BLUE@,
            ANSISequence::FgMagenta => color::FG_MAGENTA@,
            ANSISequence::FgCyan => color::FG_CYAN@,
            ANSISequence::FgWhite => color::FG_WHITE@,
            ANSISequence::FgBrightBlack => color::FG_BRIGHT_BLACK@,
            ANSISequence::FgBrightRed => color::FG_BRIGHT_RED@,
            ANSISequence::FgBrightGreen => color::FG_BRIGHT_GREEN@,
            ANSISequence::FgBrightYellow => color::FG_BRIGHT_YELLOW@,
            ANSISequence::FgBrightBlue => color::FG_BRIGHT_BLUE@,
            ANSISequence::FgBrightMagenta => color::FG_BRIGHT_MAGENTA@,
            ANSISequence::FgBrightCyan => color::FG_BRIGHT_CYAN@,
            ANSISequence::FgBrightWhite => color::FG_BRIGHT_WHITE@,
            ANSISequence::BgBlack => color::BG_BLACK@,
            ANSISequence::BgRed => color::BG_RED@,
            ANSISequence::BgGreen => color::BG_GREEN@,
            ANSISequence::BgYellow => color::BG_YELLOW@,
            ANSISequence::BgBlue => color::BG_BLUE@,
            ANSISequence::BgMagenta => color::BG_MAGENTA@,
            ANSISequence::BgCyan => color::BG_CYAN@,
            ANSISequence::BgWhite => color::BG_WHITE@,
            ANSISequence::BgBrightBlack => color::BG_BRIGHT_BLACK@,
            ANSISequence::BgBrightRed => color::BG_BRIGHT_RED@,
            ANSISequence::BgBrightGreen => color::BG_BRIGHT_GREEN@,
            ANSISequence::BgBrightYellow => color::BG_BRIGHT_YELLOW@,
            ANSISequence::BgBrightBlue => color::BG_BRIGHT_BLUE@,
            ANSISequence::BgBrightMagenta => color::BG_BRIGHT_MAGENTA@,
            ANSISequence::BgBrightCyan => color::BG_BRIGHT_CYAN@,
            ANSISequence::BgBrightWhite => color::BG_BRIGHT_WHITE@,
            ANSISequence::FgRGB(r, g, b) => color::fg_rgb_spec(*r, *g, *b),
            ANSISequence::BgRGB(r, g, b) => color::bg_rgb_spec(*r, *g, *b),
        }
    }

    pub fn to_esc_code(&self) -> (code: String)
        ensures
            code@ == self.esc_code(),
    {
        match self {
            ANSISequence::Reset => styling::RESET.to_owned(),
            ANSISequence::Bold => styling::BOLD.to_owned(),
            ANSISequence::Dim => styling::DIM.to_owned(),
            ANSISequence::Italic => styling::ITALIC.to_owned(),
            ANSISequence::Underline => styling::UNDERLINE.to_owned(),
            ANSISequence::Blink => styling::BLINK.to_owned(),
            ANSISequence::Invert => styling::INVERT.to_owned(),
            ANSISequence::Hidden => styling::HIDDEN.to_owned(),
            ANSISequence::Strikethrough => styling::STRIKETHROUGH.to_owned(),
            ANSISequence::NoBold => styling::NO_BOLD.to_owned(),
            ANSISequence::NoDim => styling::NO_DIM.to_owned(),
            ANSISequence::NoItalic => styling::NO_ITALIC.to_owned(),
            ANSISequence::NoUnderline => styling::NO_UNDERLINE.to_owned(),
            ANSISequence::NoBlink => styling::NO_BLINK.to_owned(),
            ANSISequence::NoInvert => styling::NO_INVERT.to_owned(),
            ANSISequence::NoHidden => styling::NO_HIDDEN.to_owned(),
            ANSISequence::NoStrikethrough => styling::NO_STRIKETHROUGH.to_owned(),
            ANSISequence::FgBlack => color::FG_BLACK.to_owned(),
            ANSISequence::FgRed => color::FG_RED.to_owned(),
            ANSISequence::FgGreen => color::FG_GREEN.to_owned(),
            ANSISequence::FgYellow => color::FG_YELLOW.to_owned(),
            ANSISequence::FgBlue => color::FG_BLUE.to_owned(),
            ANSISequence::FgMagenta => color::FG_MAGENTA.to_owned(),
            ANSISequence::FgCyan => color::FG_CYAN.to_owned(),
            ANSISequence::FgWhite => color::FG_WHITE.to_owned(),
            ANSISequence::FgBrightBlack => color::FG_BRIGHT_BLACK.to_owned(),
            ANSISequence::FgBrightRed => color::FG_BRIGHT_RED.to_owned(),
            ANSISequence::FgBrightGreen => color::FG_BRIGHT_GREEN.to_owned(),
            ANSISequence::FgBrightYellow => color::FG_BRIGHT_YELLOW.to_owned(),
            ANSISequence::FgBrightBlue => color::FG_BRIGHT_BLUE.to_owned(),
            ANSISequence::FgBrightMagenta => color::FG_BRIGHT_MAGENTA.to_owned(),
            ANSISequence::FgBrightCyan => color::FG_BRIGHT_CYAN.to_owned(),
            ANSISequence::FgBrightWhite => color::FG_BRIGHT_WHITE.to_owned(),
            ANSISequence::BgBlack => color::BG_BLACK.to_owned(),
            ANSISequence::BgRed => color::BG_RED.to_owned(),
            ANSISequence::BgGreen => color::BG_GREEN.to_owned(),
            ANSISequence::BgYellow => color::BG_YELLOW.to_owned(),
            ANSISequence::BgBlue => color::BG_BLUE.to_owned(),
            ANSISequence::BgMagenta => color::BG_MAGENTA.to_owned(),
            ANSISequence::BgCyan => color::BG_CYAN.to_owned(),
            ANSISequence::BgWhite => color::BG_WHITE.to_owned(),
            ANSISequence::BgBrightBlack => color::BG_BRIGHT_BLACK.to_owned(),
            ANSISequence::BgBrightRed => color::BG_BRIGHT_RED.to_owned(),
            ANSISequence::BgBrightGreen => color::BG_BRIGHT_GREEN.to_owned(),
            ANSISequence::BgBrightYellow => color::BG_BRIGHT_YELLOW.to_owned(),
            ANSISequence::BgBrightBlue => color::BG_BRIGHT_BLUE.to_owned(),
            ANSISequence::BgBrightMagenta => color::BG_BRIGHT_MAGENTA.to_owned(),
            ANSISequence::BgBrightCyan => color::BG_BRIGHT_CYAN.to_owned(),
            ANSISequence::BgBrightWhite => color::BG_BRIGHT_WHITE.to_owned(),
            ANSISequence::FgRGB(r, g, b) => color::fg_rgb(*r, *g, *b),
            ANSISequence::BgRGB(r, g, b) => color::bg_rgb(*r, *g, *b),
        }
    }
}

} // verus!
