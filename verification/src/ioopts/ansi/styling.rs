//! Escape sequences that switch text attributes on and off.

use vstd::prelude::*;

verus! {

/// Switches every attribute off.
pub const RESET: &'static str = "\x1b[0m";

/// Switches bold on.
pub const BOLD: &'static str = "\x1b[1m";

/// Switches dim on.
pub const DIM: &'static str = "\x1b[2m";

/// Switches italic on.
pub const ITALIC: &'static str = "\x1b[3m";

/// Switches underline on.
pub const UNDERLINE: &'static str = "\x1b[4m";

/// Switches blink on.
pub const BLINK: &'static str = "\x1b[5m";

/// Rapid blink, which few terminals honour.
pub const UNKNOWN: &'static str = "\x1b[6m";

/// Switches invert on.
pub const INVERT: &'static str = "\x1b[7m";

/// Switches hidden on.
pub const HIDDEN: &'static str = "\x1b[8m";

/// Switches strikethrough on.
pub const STRIKETHROUGH: &'static str = "\x1b[9m";

/// Switches bold off.
pub const NO_BOLD: &'static str = "\x1b[21m";

/// Switches dim off.
pub const NO_DIM: &'static str = "\x1b[22m";

/// Switches italic off.
pub const NO_ITALIC: &'static str = "\x1b[23m";

/// Switches underline off.
pub const NO_UNDERLINE: &'static str = "\x1b[24m";

/// Switches blink off.
pub const NO_BLINK: &'static str = "\x1b[25m";

/// Switches rapid blink off.
pub const NO_UNKNOWN: &'static str = "\x1b[26m";

/// Switches invert off.
pub const NO_INVERT: &'static str = "\x1b[27m";

/// Switches hidden off.
pub const NO_HIDDEN: &'static str = "\x1b[28m";

/// Switches strikethrough off.
pub const NO_STRIKETHROUGH: &'static str = "\x1b[29m";

} // verus!
