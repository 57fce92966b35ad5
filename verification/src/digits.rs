//! Decimal rendering of integers and of microdegree coordinates.
//!
//! The geocoding request URLs carry coordinates in decimal notation; these
//! functions render them exactly, digit by digit, against a sequence-level
//! specification.

use vstd::prelude::*;

verus! {

/// The decimal digit character for `d`, for `0 <= d < 10`.
pub open spec fn digit_char(d: int) -> char {
    if d == 0 {
        '0'
    } else if d == 1 {
        '1'
    } else if d == 2 {
        '2'
    } else if d == 3 {
        '3'
    } else if d == 4 {
        '4'
    } else if d == 5 {
        '5'
    } else if d == 6 {
        '6'
    } else if d == 7 {
        '7'
    } else if d == 8 {
        '8'
    } else {
        '9'
    }
}

/// Decimal digits of `n`, most significant first, no leading zeros.
pub open spec fn dec_digits(n: nat) -> Seq<char>
    decreases n,
{
    if n < 10 {
        seq![digit_char(n as int)]
    } else {
        dec_digits(n / 10) + seq![digit_char((n % 10) as int)]
    }
}

/// Decimal rendering of a signed value: an optional minus sign, then the
/// digits of the magnitude.
pub open spec fn dec_string(v: int) -> Seq<char> {
    if v < 0 {
        seq!['-'] + dec_digits((-v) as nat)
    } else {
        dec_digits(v as nat)
    }
}

/// The six digits after the decimal point of a microdegree magnitude, most
/// significant first, zero-padded.
pub open spec fn frac6_digits(f: int) -> Seq<char> {
    seq![
        digit_char(f / 100_000 % 10),
        digit_char(f / 10_000 % 10),
        digit_char(f / 1_000 % 10),
        digit_char(f / 100 % 10),
        digit_char(f / 10 % 10),
        digit_char(f % 10),
    ]
}

/// Decimal-degree rendering of a microdegree magnitude: the whole degrees,
/// a point, then six fractional digits.
pub open spec fn micro_magnitude_string(v: int) -> Seq<char> {
    dec_digits((v / 1_000_000) as nat) + seq!['.'] + frac6_digits(v % 1_000_000)
}

/// Decimal-degree rendering of a signed microdegree coordinate.
pub open spec fn micro_string(v: int) -> Seq<char> {
    if v < 0 {
        seq!['-'] + micro_magnitude_string(-v)
    } else {
        micro_magnitude_string(v)
    }
}

/// The one-character string for a decimal digit.
fn digit_str(d: u64) -> (r: &'static str)
    requires
        d < 10,
    ensures
        r@ =~= seq![digit_char(d as int)],
{
    proof {
        reveal_strlit("0");
        reveal_strlit("1");
        reveal_strlit("2");
        reveal_strlit("3");
        reveal_strlit("4");
        reveal_strlit("5");
        reveal_strlit("6");
        reveal_strlit("7");
        reveal_strlit("8");
        reveal_strlit("9");
    }
    match d {
        0 => "0",
        1 => "1",
        2 => "2",
        3 => "3",
        4 => "4",
        5 => "5",
        6 => "6",
        7 => "7",
        8 => "8",
        _ => "9",
    }
}

/// Renders an unsigned value in decimal.
pub fn u64_string(n: u64) -> (r: String)
    ensures
        r@ =~= dec_digits(n as nat),
    decreases n,
{
    if n < 10 {
        let s: String = digit_str(n).to_owned();
        s
    } else {
        let mut s = u64_string(n / 10);
        s.append(digit_str(n % 10));
        s
    }
}

/// Renders a signed value in decimal.
pub fn i64_string(v: i64) -> (r: String)
    requires
        v != i64::MIN,
    ensures
        r@ =~= dec_string(v as int),
{
    if v < 0 {
        proof {
            reveal_strlit("-");
        }
        let mut s: String = "-".to_owned();
        let m: u64 = (-v) as u64;
        s.append(u64_string(m).as_str());
        s
    } else {
        u64_string(v as u64)
    }
}

/// Renders the six zero-padded fractional digits of a microdegree
/// magnitude.
fn frac6_string(f: u64) -> (r: String)
    requires
        f < 1_000_000,
    ensures
        r@ =~= frac6_digits(f as int),
{
    let mut s: String = digit_str(f / 100_000 % 10).to_owned();
    s.append(digit_str(f / 10_000 % 10));
    s.append(digit_str(f / 1_000 % 10));
    s.append(digit_str(f / 100 % 10));
    s.append(digit_str(f / 10 % 10));
    s.append(digit_str(f % 10));
    s
}

/// Renders a signed microdegree coordinate as decimal degrees.
pub fn micro_coord_string(v: i64) -> (r: String)
    requires
        v != i64::MIN,
    ensures
        r@ =~= micro_string(v as int),
{
    if v < 0 {
        proof {
            reveal_strlit("-");
        }
        let m: u64 = (-v) as u64;
        let mut s: String = "-".to_owned();
        s.append(u64_string(m / 1_000_000).as_str());
        proof {
            reveal_strlit(".");
        }
        s.append(".");
        s.append(frac6_string(m % 1_000_000).as_str());
        s
    } else {
        let m: u64 = v as u64;
        let mut s = u64_string(m / 1_000_000);
        proof {
            reveal_strlit(".");
        }
        s.append(".");
        s.append(frac6_string(m % 1_000_000).as_str());
        s
    }
}

} // verus!
