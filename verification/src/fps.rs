//! The frames-per-second title line.
//!
//! The renderer measures frames per second in tenths, as an integer, and the
//! window title shows it with one decimal place, for example
//! `Vulkan Vibe - FPS: 59.8`. The rendering of a number into decimal digits
//! is verified down to the character sequence.

use vstd::prelude::*;
use vstd::string::StringExecFns;

verus! {

/// The decimal digit character for `d`; meaningful for `d < 10`.
pub open spec fn digit_char(d: nat) -> char
    recommends
        d < 10,
{
    if d == 0 {
        '0'
    } else if d == 1 {
        '1'
    } else if d == 2 {
        '2'
    } else if d == 3 {
        '3'
    } else if d == 4 {
        '4'
    } else if d == 5 {
        '5'
    } else if d == 6 {
        '6'
    } else if d == 7 {
        '7'
    } else if d == 8 {
        '8'
    } else {
        '9'
    }
}

/// The decimal digit characters of `n`, most significant first, with no
/// leading zero except for `n == 0` itself.
pub open spec fn decimal_digits(n: nat) -> Seq<char>
    decreases n,
{
    if n < 10 {
        seq![digit_char(n)]
    } else {
        decimal_digits(n / 10).push(digit_char(n % 10))
    }
}

/// The whole title line for a frames-per-second measurement of
/// `tenths / 10` frames per second, shown with one decimal place.
pub open spec fn spec_fps_title(tenths: nat) -> Seq<char> {
    "Vulkan Vibe - FPS: "@ + decimal_digits(tenths / 10) + "."@ + decimal_digits(tenths % 10)
}

/// Appends the decimal digit character for `d`.
fn push_digit(out: &mut String, d: u64)
    requires
        d < 10,
    ensures
        final(out)@ == old(out)@ + seq![digit_char(d as nat)],
{
    proof {
        reveal_strlit("0");
        reveal_strlit("1");
        reveal_strlit("2");
        reveal_strlit("3");
        reveal_strlit("4");
        reveal_strlit("5");
        reveal_strlit("6");
        reveal_strlit("7");
        reveal_strlit("8");
        reveal_strlit("9");
    }
    let s: &str = if d == 0 {
        "0"
    } else if d == 1 {
        "1"
    } else if d == 2 {
        "2"
    } else if d == 3 {
        "3"
    } else if d == 4 {
        "4"
    } else if d == 5 {
        "5"
    } else if d == 6 {
        "6"
    } else if d == 7 {
        "7"
    } else if d == 8 {
        "8"
    } else {
        "9"
    };
    assert(s@ =~= seq![digit_char(d as nat)]);
    out.append(s);
}

/// Appends the decimal digits of `n`, most significant first.
pub fn push_decimal(out: &mut String, n: u64)
    ensures
        final(out)@ == old(out)@ + decimal_digits(n as nat),
    decreases n,
{
    if n >= 10 {
        push_decimal(out, n / 10);
        push_digit(out, n % 10);
        proof {
            assert(out@ =~= old(out)@ + decimal_digits(n as nat));
        }
    } else {
        push_digit(out, n);
    }
}

/// Builds the window-title line for a frames-per-second measurement given
/// in tenths of a frame per second.
pub fn fps_title(tenths: u64) -> (r: String)
    ensures
        r@ == spec_fps_title(tenths as nat),
{
    let mut out = String::from_str("Vulkan Vibe - FPS: ");
    push_decimal(&mut out, tenths / 10);
    out.append(".");
    push_decimal(&mut out, tenths % 10);
    assert(out@ =~= spec_fps_title(tenths as nat));
    out
}

} // verus!
