//! Decimal numerals, as they appear inside parameterised escape sequences.

use vstd::prelude::*;

verus! {

/// Appending one character to a `String` appends it to the string's view.
pub assume_specification[ String::push ](s: &mut String, ch: char)
    ensures
        final(s)@ == old(s)@.push(ch),
;

/// The character of a decimal digit.
pub open spec fn digit_char(d: nat) -> char
    recommends
        d < 10,
{
    (48 + d) as char
}

/// The decimal numeral of `n`: most significant digit first, no leading zero
/// except for 0 itself.
pub open spec fn decimal(n: nat) -> Seq<char>
    decreases n,
{
    if n < 10 {
        seq![digit_char(n)]
    } else {
        decimal(n / 10).push(digit_char(n % 10))
    }
}

/// Appends the decimal numeral of `n` to `out`.
pub fn push_decimal(out: &mut String, n: usize)
    ensures
        final(out)@ == old(out)@ + decimal(n as nat),
    decreases n,
{
    if n >= 10 {
        push_decimal(out, n / 10);
    }
    let d: u8 = (n % 10) as u8;
    let ch: char = (48u8 + d) as char;
    out.push(ch);
    proof {
        let before = old(out)@;
        if n < 10 {
            assert(before.push(ch) =~= before + decimal(n as nat));
        } else {
            assert((before + decimal((n / 10) as nat)).push(ch) =~= before + decimal(n as nat));
        }
    }
}

} // verus!
