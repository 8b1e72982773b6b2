//! Escape sequences for foreground and background colours.

use crate::ioopts::ansi::decimal::{decimal, push_decimal};
use vstd::prelude::*;
use vstd::string::StringExecFns;

verus! {

/// Foreground: black.
pub const FG_BLACK: &'static str = "\x1b[30m";

/// Foreground: red.
pub const FG_RED: &'static str = "\x1b[31m";

/// Foreground: green.
pub const FG_GREEN: &'static str = "\x1b[32m";

/// Foreground: yellow.
pub const FG_YELLOW: &'static str = "\x1b[33m";

/// Foreground: blue.
pub const FG_BLUE: &'static str = "\x1b[34m";

/// Foreground: magenta.
pub const FG_MAGENTA: &'static str = "\x1b[35m";

/// Foreground: cyan.
pub const FG_CYAN: &'static str = "\x1b[36m";

/// Foreground: white.
pub const FG_WHITE: &'static str = "\x1b[37m";

/// Foreground: bright black.
pub const FG_BRIGHT_BLACK: &'static str = "\x1b[90m";

/// Foreground: bright red.
pub const FG_BRIGHT_RED: &'static str = "\x1b[91m";

/// Foreground: bright green.
pub const FG_BRIGHT_GREEN: &'static str = "\x1b[92m";

/// Foreground: bright yellow.
pub const FG_BRIGHT_YELLOW: &'static str = "\x1b[93m";

/// Foreground: bright blue.
pub const FG_BRIGHT_BLUE: &'static str = "\x1b[94m";

/// Foreground: bright magenta.
pub const FG_BRIGHT_MAGENTA: &'static str = "\x1b[95m";

/// Foreground: bright cyan.
pub const FG_BRIGHT_CYAN: &'static str = "\x1b[96m";

/// Foreground: bright white.
pub const FG_BRIGHT_WHITE: &'static str = "\x1b[97m";

/// Background: black.
pub const BG_BLACK: &'static str = "\x1b[40m";

/// Background: red.
pub const BG_RED: &'static str = "\x1b[41m";

/// Background: green.
pub const BG_GREEN: &'static str = "\x1b[42m";

/// Background: yellow.
pub const BG_YELLOW: &'static str = "\x1b[43m";

/// Background: blue.
pub const BG_BLUE: &'static str = "\x1b[44m";

/// Background: magenta.
pub const BG_MAGENTA: &'static str = "\x1b[45m";

/// Background: cyan.
pub const BG_CYAN: &'static str = "\x1b[46m";

/// Background: white.
pub const BG_WHITE: &'static str = "\x1b[47m";

/// Background: bright black.
pub const BG_BRIGHT_BLACK: &'static str = "\x1b[100m";

/// Background: bright red.
pub const BG_BRIGHT_RED: &'static str = "\x1b[101m";

/// Background: bright green.
pub const BG_BRIGHT_GREEN: &'static str = "\x1b[102m";

/// Background: bright yellow.
pub const BG_BRIGHT_YELLOW: &'static str = "\x1b[103m";

/// Background: bright blue.
pub const BG_BRIGHT_BLUE: &'static str = "\x1b[104m";

/// Background: bright magenta.
pub const BG_BRIGHT_MAGENTA: &'static str = "\x1b[105m";

/// Background: bright cyan.
pub const BG_BRIGHT_CYAN: &'static str = "\x1b[106m";

/// Background: bright white.
pub const BG_BRIGHT_WHITE: &'static str = "\x1b[107m";

/// The sequence that selects the 24-bit foreground colour `(r, g, b)`.
pub open spec fn fg_rgb_spec(r: u8, g: u8, b: u8) -> Seq<char> {
    "\x1b[38;2;"@ + decimal(r as nat) + ";"@ + decimal(g as nat) + ";"@ + decimal(b as nat)
        + "m"@
}

/// The sequence that selects the 24-bit background colour `(r, g, b)`.
pub open spec fn bg_rgb_spec(r: u8, g: u8, b: u8) -> Seq<char> {
    "\x1b[48;2;"@ + decimal(r as nat) + ";"@ + decimal(g as nat) + ";"@ + decimal(b as nat)
        + "m"@
}

pub fn fg_rgb(r: u8, g: u8, b: u8) -> (code: String)
    ensures
        code@ == fg_rgb_spec(r, g, b),
{
    let mut code = String::from_str("\x1b[38;2;");
    push_decimal(&mut code, r as usize);
    code.append(";");
    push_decimal(&mut code, g as usize);
    code.append(";");
    push_decimal(&mut code, b as usize);
    code.append("m");
    code
}

pub fn bg_rgb(r: u8, g: u8, b: u8) -> (code: String)
    ensures
        code@ == bg_rgb_spec(r, g, b),
{
    let mut code = String::from_str("\x1b[48;2;");
    push_decimal(&mut code, r as usize);
    code.append(";");
    push_decimal(&mut code, g as usize);
    code.append(";");
    push_decimal(&mut code, b as usize);
    code.append("m");
    code
}

} // verus!
