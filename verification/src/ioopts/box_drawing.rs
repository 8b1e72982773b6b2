//! Box-drawing glyphs: light lines, rounded corners and double lines.

use vstd::prelude::*;

verus! {

/// Upper-left corner.
pub const LU_CORNER: char = '┌';

/// Upper-right corner.
pub const RU_CORNER: char = '┐';

/// Lower-left corner.
pub const LD_CORNER: char = '└';

/// Lower-right corner.
pub const RD_CORNER: char = '┘';

/// Upper-left corner, rounded.
pub const LU_CORNER_SOFT: char = '╭';

/// Upper-right corner, rounded.
pub const RU_CORNER_SOFT: char = '╮';

/// Lower-left corner, rounded.
pub const LD_CORNER_SOFT: char = '╰';

/// Lower-right corner, rounded.
pub const RD_CORNER_SOFT: char = '╯';

/// Horizontal edge.
pub const H_LINE: char = '─';

/// Vertical edge.
pub const V_LINE: char = '│';

/// Junction that opens downwards.
pub const T_DOWN: char = '┬';

/// Junction that opens upwards.
pub const T_UP: char = '┴';

/// Junction that opens to the left.
pub const T_LEFT: char = '┤';

/// Junction that opens to the right.
pub const T_RIGHT: char = '├';

/// Four-way junction.
pub const CROSS: char = '┼';

/// Upper-left corner, double line.
pub const LU_CORNER_D: char = '╔';

/// Upper-right corner, double line.
pub const RU_CORNER_D: char = '╗';

/// Lower-left corner, double line.
pub const LD_CORNER_D: char = '╚';

/// Lower-right corner, double line.
pub const RD_CORNER_D: char = '╝';

/// Horizontal edge, double line.
pub const H_LINE_D: char = '═';

/// Vertical edge, double line.
pub const V_LINE_D: char = '║';

/// Junction that opens downwards, double line.
pub const T_DOWN_D: char = '╦';

/// Junction that opens upwards, double line.
pub const T_UP_D: char = '╩';

/// Junction that opens to the left, double line.
pub const T_LEFT_D: char = '╣';

/// Junction that opens to the right, double line.
pub const T_RIGHT_D: char = '╠';

/// Four-way junction, double line.
pub const CROSS_D: char = '╬';

} // verus!
