//! Bounded textual rendering primitives.
//!
//! Rendering is a structural walk over an adapter's fields, entirely separate
//! from the encode path: full mode emits every row and element, preview mode
//! emits a capped prefix plus an elision marker. Both modes build the text by
//! appending to a `String`, with the exact output pinned by spec functions.

use vstd::prelude::*;
use vstd::string::StringExecFns;

use crate::grid::Color;
use crate::radar::RadarDetectionRemote;

verus! {

/// The decimal digit character for one digit value.
pub open spec fn digit_char(d: nat) -> char {
    if d == 0 {
        '0'
    } else if d == 1 {
        '1'
    } else if d == 2 {
        '2'
    } else if d == 3 {
        '3'
    } else if d == 4 {
        '4'
    } else if d == 5 {
        '5'
    } else if d == 6 {
        '6'
    } else if d == 7 {
        '7'
    } else if d == 8 {
        '8'
    } else {
        '9'
    }
}

/// The decimal rendering of a number: most significant digit first, no sign,
/// no leading zero except for the number zero itself.
pub open spec fn dec_spec(n: nat) -> Seq<char>
    decreases n,
{
    if n < 10 {
        seq![digit_char(n)]
    } else {
        dec_spec(n / 10).push(digit_char(n % 10))
    }
}

/// A count capped at a preview bound.
pub open spec fn capped(n: nat, cap: nat) -> nat {
    if n < cap {
        n
    } else {
        cap
    }
}

/// The rendering of a boolean.
pub open spec fn bool_spec(b: bool) -> Seq<char> {
    if b {
        "true"@
    } else {
        "false"@
    }
}

/// One decimal digit as a string slice.
fn digit_str(d: u64) -> (r: &'static str)
    requires
        d < 10,
    ensures
        r@ == seq![digit_char(d as nat)],
{
    proof {
        reveal_strlit("0");
        reveal_strlit("1");
        reveal_strlit("2");
        reveal_strlit("3");
        reveal_strlit("4");
        reveal_strlit("5");
        reveal_strlit("6");
        reveal_strlit("7");
        reveal_strlit("8");
        reveal_strlit("9");
    }
    let r = if d == 0 {
        "0"
    } else if d == 1 {
        "1"
    } else if d == 2 {
        "2"
    } else if d == 3 {
        "3"
    } else if d == 4 {
        "4"
    } else if d == 5 {
        "5"
    } else if d == 6 {
        "6"
    } else if d == 7 {
        "7"
    } else if d == 8 {
        "8"
    } else {
        "9"
    };
    proof {
        assert(r@ =~= seq![digit_char(d as nat)]);
    }
    r
}

/// Append the decimal rendering of `n`.
pub fn push_u64(s: &mut String, n: u64)
    ensures
        final(s)@ == old(s)@ + dec_spec(n as nat),
    decreases n,
{
    if n >= 10 {
        push_u64(s, n / 10);
    }
    s.append(digit_str(n % 10));
    proof {
        assert(s@ =~= old(s)@ + dec_spec(n as nat));
    }
}

/// Append the rendering of a boolean.
pub fn push_bool(s: &mut String, b: bool)
    ensures
        final(s)@ == old(s)@ + bool_spec(b),
{
    if b {
        s.append("true");
    } else {
        s.append("false");
    }
}

/// The pretty rendering of one pixel: channels reordered as `(r, g, b, a)`
/// for human readability. The reordering is cosmetic only; the encode path
/// keeps the foreign order `(b, g, r, a)`.
pub open spec fn color_render_spec(c: Color) -> Seq<char> {
    "("@ + dec_spec(c.r as nat) + ", "@ + dec_spec(c.g as nat) + ", "@ + dec_spec(c.b as nat)
        + ", "@ + dec_spec(c.a as nat) + ")"@
}

/// Append the pretty rendering of one pixel.
pub fn push_color(s: &mut String, c: Color)
    ensures
        final(s)@ == old(s)@ + color_render_spec(c),
{
    s.append("(");
    push_u64(s, c.r as u64);
    s.append(", ");
    push_u64(s, c.g as u64);
    s.append(", ");
    push_u64(s, c.b as u64);
    s.append(", ");
    push_u64(s, c.a as u64);
    s.append(")");
    proof {
        assert(s@ =~= old(s)@ + color_render_spec(c));
    }
}

/// The rendering of one radar detection: every reading's bit pattern, in the
/// declared field order.
pub open spec fn detection_render_spec(d: RadarDetectionRemote) -> Seq<char> {
    "{ velocity_bits: "@ + dec_spec(d.velocity_bits as nat) + ", azimuth_bits: "@ + dec_spec(
        d.azimuth_bits as nat,
    ) + ", altitude_bits: "@ + dec_spec(d.altitude_bits as nat) + ", depth_bits: "@ + dec_spec(
        d.depth_bits as nat,
    ) + " }"@
}

/// Append the rendering of one radar detection.
pub fn push_detection(s: &mut String, d: &RadarDetectionRemote)
    ensures
        final(s)@ == old(s)@ + detection_render_spec(*d),
{
    s.append("{ velocity_bits: ");
    push_u64(s, d.velocity_bits as u64);
    s.append(", azimuth_bits: ");
    push_u64(s, d.azimuth_bits as u64);
    s.append(", altitude_bits: ");
    push_u64(s, d.altitude_bits as u64);
    s.append(", depth_bits: ");
    push_u64(s, d.depth_bits as u64);
    s.append(" }");
    proof {
        assert(s@ =~= old(s)@ + detection_render_spec(*d));
    }
}

} // verus!
