//! Escape sequences that move the cursor and clear the screen.

use crate::ioopts::ansi::decimal::{decimal, push_decimal};
use vstd::prelude::*;
use vstd::string::StringExecFns;

verus! {

/// Saves the cursor position.
pub const SAVE_CURSOR: &'static str = "\x1b[s";

/// Restores the saved cursor position.
pub const RESTORE_CURSOR: &'static str = "\x1b[u";

/// Hides the cursor.
pub const HIDE_CURSOR: &'static str = "\x1b[?25l";

/// Shows the cursor.
pub const SHOW_CURSOR: &'static str = "\x1b[?25h";

/// Clears the whole screen.
pub const CLEAR_SCREEN: &'static str = "\x1b[2J";

/// Clears the current line.
pub const CLEAR_LINE: &'static str = "\x1b[2K";

/// Erases from the cursor to the end of the line.
pub const ERASE_TO_END_OF_LINE: &'static str = "\x1b[K";

/// Switches to the alternate screen.
pub const ENABLE_ALTERNATE_SCREEN: &'static str = "\x1b[?1049h";

/// Leaves the alternate screen.
pub const DISABLE_ALTERNATE_SCREEN: &'static str = "\x1b[?1049l";

/// A control sequence with one numeric parameter: the introducer, the decimal
/// numeral of `n`, and the final character.
pub open spec fn csi_one(n: nat, last: char) -> Seq<char> {
    ("\x1b["@ + decimal(n)).push(last)
}

/// A control sequence with two numeric parameters, separated by a semicolon.
pub open spec fn csi_two(a: nat, b: nat, last: char) -> Seq<char> {
    ("\x1b["@ + decimal(a) + ";"@ + decimal(b)).push(last)
}

fn one_parameter(n: usize, last: char) -> (code: String)
    ensures
        code@ == csi_one(n as nat, last),
{
    let mut code = String::from_str("\x1b[");
    push_decimal(&mut code, n);
    code.push(last);
    code
}

/// Moves the cursor up by `n` rows.
pub fn move_up(n: usize) -> (code: String)
    ensures
        code@ == csi_one(n as nat, 'A'),
{
    one_parameter(n, 'A')
}

/// Moves the cursor down by `n` rows.
pub fn move_down(n: usize) -> (code: String)
    ensures
        code@ == csi_one(n as nat, 'B'),
{
    one_parameter(n, 'B')
}

/// Moves the cursor right by `n` columns.
pub fn move_right(n: usize) -> (code: String)
    ensures
        code@ == csi_one(n as nat, 'C'),
{
    one_parameter(n, 'C')
}

/// Moves the cursor left by `n` columns.
pub fn move_left(n: usize) -> (code: String)
    ensures
        code@ == csi_one(n as nat, 'D'),
{
    one_parameter(n, 'D')
}

/// Moves the cursor to column `col` of its row.
pub fn move_to_column(col: usize) -> (code: String)
    ensures
        code@ == csi_one(col as nat, 'G'),
{
    one_parameter(col, 'G')
}

/// Moves the cursor to row `row` of its column.
pub fn move_to_row(row: usize) -> (code: String)
    ensures
        code@ == csi_one(row as nat, 'd'),
{
    one_parameter(row, 'd')
}

/// Moves the cursor to row `row`, column `col`.
pub fn move_to(row: usize, col: usize) -> (code: String)
    ensures
        code@ == csi_two(row as nat, col as nat, 'H'),
{
    let mut code = String::from_str("\x1b[");
    push_decimal(&mut code, row);
    code.append(";");
    push_decimal(&mut code, col);
    code.push('H');
    code
}

} // verus!
