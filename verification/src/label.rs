//! The FPS label text: a measured rate in hundredths of a frame per
//! second, rounded to one decimal place, followed by `" FPS"`; and the
//! anchor point the draw step places the label at.

use vstd::prelude::*;

verus! {

use vstd::string::StringExecFns;
use crate::motion::{SCALE, X_LIMIT, Y_LIMIT};

/// The character for a single decimal digit.
pub open spec fn digit_char(d: nat) -> char {
    if d == 0 {
        '0'
    } else if d == 1 {
        '1'
    } else if d == 2 {
        '2'
    } else if d == 3 {
        '3'
    } else if d == 4 {
        '4'
    } else if d == 5 {
        '5'
    } else if d == 6 {
        '6'
    } else if d == 7 {
        '7'
    } else if d == 8 {
        '8'
    } else {
        '9'
    }
}

/// The decimal numeral of `n`, most significant digit first, with no
/// leading zeros (a lone zero for `n == 0`).
pub open spec fn dec_rep(n: nat) -> Seq<char>
    decreases n,
{
    if n < 10 {
        seq![digit_char(n)]
    } else {
        dec_rep(n / 10) + seq![digit_char(n % 10)]
    }
}

/// The label text for a rate of `h` hundredths of a frame per second:
/// the rate rounded half-up to tenths, written with one decimal digit,
/// then `" FPS"`.
pub open spec fn fps_label_spec(h: nat) -> Seq<char> {
    let tenths = (h + 5) / 10;
    dec_rep(tenths / 10) + seq!['.', digit_char(tenths % 10)] + seq![' ', 'F', 'P', 'S']
}

/// The one-character string for a decimal digit.
fn digit_str(d: u64) -> (s: &'static str)
    requires
        d < 10,
    ensures
        s@ == seq![digit_char(d as nat)],
{
    if d == 0 {
        proof {
            reveal_strlit("0");
            assert("0"@ =~= seq![digit_char(0)]);
        }
        "0"
    } else if d == 1 {
        proof {
            reveal_strlit("1");
            assert("1"@ =~= seq![digit_char(1)]);
        }
        "1"
    } else if d == 2 {
        proof {
            reveal_strlit("2");
            assert("2"@ =~= seq![digit_char(2)]);
        }
        "2"
    } else if d == 3 {
        proof {
            reveal_strlit("3");
            assert("3"@ =~= seq![digit_char(3)]);
        }
        "3"
    } else if d == 4 {
        proof {
            reveal_strlit("4");
            assert("4"@ =~= seq![digit_char(4)]);
        }
        "4"
    } else if d == 5 {
        proof {
            reveal_strlit("5");
            assert("5"@ =~= seq![digit_char(5)]);
        }
        "5"
    } else if d == 6 {
        proof {
            reveal_strlit("6");
            assert("6"@ =~= seq![digit_char(6)]);
        }
        "6"
    } else if d == 7 {
        proof {
            reveal_strlit("7");
            assert("7"@ =~= seq![digit_char(7)]);
        }
        "7"
    } else if d == 8 {
        proof {
            reveal_strlit("8");
            assert("8"@ =~= seq![digit_char(8)]);
        }
        "8"
    } else {
        proof {
            reveal_strlit("9");
            assert("9"@ =~= seq![digit_char(9)]);
        }
        "9"
    }
}

/// Appends the decimal numeral of `n` to `s`.
fn push_decimal(s: &mut String, n: u64)
    ensures
        final(s)@ == old(s)@ + dec_rep(n as nat),
    decreases n,
{
    if n >= 10 {
        push_decimal(s, n / 10);
        s.append(digit_str(n % 10));
        proof {
            assert(old(s)@ + dec_rep((n / 10) as nat) + seq![digit_char((n % 10) as nat)] =~= old(
                s,
            )@ + dec_rep(n as nat));
        }
    } else {
        s.append(digit_str(n));
    }
}

/// Builds the label text for a rate given in hundredths of a frame per
/// second.
pub fn fps_label(fps_hundredths: u32) -> (s: String)
    ensures
        s@ == fps_label_spec(fps_hundredths as nat),
{
    let tenths: u64 = ((fps_hundredths as u64) + 5) / 10;
    let mut s = String::new();
    push_decimal(&mut s, tenths / 10);
    s.append(".");
    s.append(digit_str(tenths % 10));
    s.append(" FPS");
    proof {
        reveal_strlit(".");
        reveal_strlit(" FPS");
        assert(s@ =~= fps_label_spec(fps_hundredths as nat));
    }
    s
}

/// Where the draw step anchors the label: inward from the bottom-right
/// corner of the logical bounds by half the label's pixel size plus a
/// five-unit margin, in thousandths of a unit.
pub fn label_anchor(width_px: u32, height_px: u32) -> (p: (i64, i64))
    ensures
        p.0 == X_LIMIT - width_px * (SCALE / 2) - 5 * SCALE,
        p.1 == Y_LIMIT - height_px * (SCALE / 2) - 5 * SCALE,
{
    (
        X_LIMIT - (width_px as i64) * 500 - 5000,
        Y_LIMIT - (height_px as i64) * 500 - 5000,
    )
}

} // verus!
