//! One-line descriptions of the geometric values.

use crate::interfaces::geometry::{DiscreteCoord, Translation};
use crate::interfaces::layers::MaskPixel;
use crate::ioopts::ansi::decimal::{decimal, push_decimal};
use vstd::prelude::*;
use vstd::string::StringExecFns;

verus! {

/// The decimal numeral of a signed number: a minus sign before the numeral of
/// its magnitude where it is negative.
pub open spec fn signed_decimal(v: int) -> Seq<char> {
    if v < 0 {
        seq!['-'] + decimal((-v) as nat)
    } else {
        decimal(v as nat)
    }
}

/// Appends the decimal numeral of `v` to `out`.
pub fn push_signed_decimal(out: &mut String, v: i32)
    ensures
        final(out)@ == old(out)@ + signed_decimal(v as int),
{
    if v < 0 {
        let ghost before = out@;
        out.push('-');
        let magnitude: i64 = -(v as i64);
        push_decimal(out, magnitude as usize);
        assert(out@ =~= before + signed_decimal(v as int));
    } else {
        push_decimal(out, v as usize);
    }
}

/// The two components in parentheses, separated by a comma and a space.
pub open spec fn pair_text(x: Seq<char>, y: Seq<char>) -> Seq<char> {
    "("@ + x + ", "@ + y + ")"@
}

impl DiscreteCoord {
    /// The description of the coordinate.
    pub open spec fn description(&self) -> Seq<char> {
        "[OBJO] DiscreteCoord "@ + pair_text(decimal(self.x as nat), decimal(self.y as nat))
    }

    /// A one-line description of the coordinate.
    pub fn to_string(&self) -> (s: String)
        ensures
            s@ == self.description(),
    {
        let mut out = String::from_str("[OBJO] DiscreteCoord ");
        out.append("(");
        push_decimal(&mut out, self.x as usize);
        out.append(", ");
        push_decimal(&mut out, self.y as usize);
        out.append(")");
        assert(out@ =~= self.description());
        out
    }
}

impl Translation {
    /// The description of the translation.
    pub open spec fn description(&self) -> Seq<char> {
        "[OBJO] Translation "@ + pair_text(
            signed_decimal(self.x as int),
            signed_decimal(self.y as int),
        )
    }

    /// A one-line description of the translation.
    pub fn to_string(&self) -> (s: String)
        ensures
            s@ == self.description(),
    {
        let mut out = String::from_str("[OBJO] Translation ");
        out.append("(");
        push_signed_decimal(&mut out, self.x);
        out.append(", ");
        push_signed_decimal(&mut out, self.y);
        out.append(")");
        assert(out@ =~= self.description());
        out
    }
}

impl MaskPixel {
    /// The description of the mask position.
    pub open spec fn description(&self) -> Seq<char> {
        "[OBJO] MaskPixel On? "@ + (if self.masked {
            "true"@
        } else {
            "false"@
        }) + " at "@ + self.pos.description()
    }

    /// A one-line description of the mask position.
    pub fn to_string(&self) -> (s: String)
        ensures
            s@ == self.description(),
    {
        let mut out = String::from_str("[OBJO] MaskPixel On? ");
        if self.masked {
            out.append("true");
        } else {
            out.append("false");
        }
        out.append(" at ");
        let at = self.pos.to_string();
        out.append(at.as_str());
        out
    }
}

} // verus!
