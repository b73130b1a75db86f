//! Decimal rendering of integers, with exact character-level contracts.

use vstd::prelude::*;

verus! {

/// The character for a single decimal digit.
pub open spec fn digit_char(d: nat) -> char {
    if d == 0 {
        '0'
    } else if d == 1 {
        '1'
    } else if d == 2 {
        '2'
    } else if d == 3 {
        '3'
    } else if d == 4 {
        '4'
    } else if d == 5 {
        '5'
    } else if d == 6 {
        '6'
    } else if d == 7 {
        '7'
    } else if d == 8 {
        '8'
    } else {
        '9'
    }
}

/// Decimal digits of `n`, most significant first, with no leading zeros
/// (a single `'0'` for zero).
pub open spec fn dec_seq(n: nat) -> Seq<char>
    decreases n,
{
    if n < 10 {
        seq![digit_char(n)]
    } else {
        dec_seq(n / 10) + seq![digit_char(n % 10)]
    }
}

/// Decimal digits of `n`, zero-padded on the left to exactly `width` digits.
pub open spec fn dec_pad_seq(n: nat, width: nat) -> Seq<char>
    decreases width,
{
    if width == 0 {
        Seq::<char>::empty()
    } else {
        dec_pad_seq(n / 10, (width - 1) as nat) + seq![digit_char(n % 10)]
    }
}

/// Decimal rendering of a signed value: a minus sign before the digits of
/// the magnitude when the value is negative.
pub open spec fn dec_seq_int(n: int) -> Seq<char> {
    if n >= 0 {
        dec_seq(n as nat)
    } else {
        seq!['-'] + dec_seq((-n) as nat)
    }
}

fn digit_str(d: u64) -> (s: &'static str)
    requires
        d < 10,
    ensures
        s@ == seq![digit_char(d as nat)],
{
    proof {
        reveal_strlit("0");
        reveal_strlit("1");
        reveal_strlit("2");
        reveal_strlit("3");
        reveal_strlit("4");
        reveal_strlit("5");
        reveal_strlit("6");
        reveal_strlit("7");
        reveal_strlit("8");
        reveal_strlit("9");
    }
    let s: &'static str = match d {
        0 => "0",
        1 => "1",
        2 => "2",
        3 => "3",
        4 => "4",
        5 => "5",
        6 => "6",
        7 => "7",
        8 => "8",
        _ => "9",
    };
    proof {
        assert(s@ =~= seq![digit_char(d as nat)]);
    }
    s
}

/// Renders `n` in decimal without leading zeros.
pub fn fmt_u64(n: u64) -> (s: String)
    ensures
        s@ == dec_seq(n as nat),
    decreases n,
{
    if n < 10 {
        let s = digit_str(n).to_owned();
        s
    } else {
        let mut s = fmt_u64(n / 10);
        s.append(digit_str(n % 10));
        proof {
            assert(s@ =~= dec_seq(n as nat));
        }
        s
    }
}

/// Renders `n` in decimal, zero-padded to exactly `width` digits.
pub fn fmt_u64_pad(n: u64, width: u64) -> (s: String)
    ensures
        s@ == dec_pad_seq(n as nat, width as nat),
    decreases width,
{
    if width == 0 {
        let s = String::new();
        proof {
            assert(s@ =~= dec_pad_seq(n as nat, 0));
        }
        s
    } else {
        let mut s = fmt_u64_pad(n / 10, width - 1);
        s.append(digit_str(n % 10));
        proof {
            assert(s@ =~= dec_pad_seq(n as nat, width as nat));
        }
        s
    }
}

/// Renders a signed value in decimal, with a leading minus sign when negative.
pub fn fmt_i64(n: i64) -> (s: String)
    ensures
        s@ == dec_seq_int(n as int),
{
    if n >= 0 {
        fmt_u64(n as u64)
    } else {
        let mag: u64 = if n == i64::MIN {
            9223372036854775808u64
        } else {
            (-n) as u64
        };
        proof {
            reveal_strlit("-");
        }
        let mut s: String = "-".to_owned();
        s.append(fmt_u64(mag).as_str());
        proof {
            assert(s@ =~= dec_seq_int(n as int));
        }
        s
    }
}

/// A value scaled by `10^frac_digits`, rendered with a decimal point:
/// the integer part, a `'.'`, then exactly `frac_digits` fractional digits.
pub open spec fn dec_fixed_seq(v: int, scale: nat, frac_digits: nat) -> Seq<char> {
    let mag = if v >= 0 {
        v as nat
    } else {
        (-v) as nat
    };
    let sign: Seq<char> = if v >= 0 {
        Seq::<char>::empty()
    } else {
        seq!['-']
    };
    sign + dec_seq(mag / scale) + seq!['.'] + dec_pad_seq(mag % scale, frac_digits)
}

/// Renders a value scaled by `scale == 10^frac_digits` with a decimal point.
pub fn fmt_fixed(v: i64, scale: u64, frac_digits: u64) -> (s: String)
    requires
        scale >= 1,
    ensures
        s@ == dec_fixed_seq(v as int, scale as nat, frac_digits as nat),
{
    let mag: u64 = if v >= 0 {
        v as u64
    } else if v == i64::MIN {
        9223372036854775808u64
    } else {
        (-v) as u64
    };
    proof {
        reveal_strlit("-");
        reveal_strlit(".");
    }
    let mut s: String = if v >= 0 {
        String::new()
    } else {
        "-".to_owned()
    };
    s.append(fmt_u64(mag / scale).as_str());
    s.append(".");
    s.append(fmt_u64_pad(mag % scale, frac_digits).as_str());
    proof {
        assert(s@ =~= dec_fixed_seq(v as int, scale as nat, frac_digits as nat));
    }
    s
}

} // verus!
