//! Decimal rendering of the fixed-point readings.
//!
//! Every numeric reading of a weather record is held in tenths of its unit,
//! and is shown with exactly one digit after the decimal point.

use vstd::prelude::*;
use vstd::string::StringExecFns;

verus! {

/// The one-character rendering of a decimal digit.
pub open spec fn spec_digit(d: int) -> Seq<char> {
    if d == 0 {
        "0"@
    } else if d == 1 {
        "1"@
    } else if d == 2 {
        "2"@
    } else if d == 3 {
        "3"@
    } else if d == 4 {
        "4"@
    } else if d == 5 {
        "5"@
    } else if d == 6 {
        "6"@
    } else if d == 7 {
        "7"@
    } else if d == 8 {
        "8"@
    } else {
        "9"@
    }
}

/// The decimal rendering of a natural number, most significant digit first,
/// with no leading zeros (a lone zero for zero itself).
pub open spec fn spec_dec(n: nat) -> Seq<char>
    decreases n,
{
    if n < 10 {
        spec_digit(n as int)
    } else {
        spec_dec(n / 10) + spec_digit((n % 10) as int)
    }
}

/// The rendering of a signed value held in tenths: an optional minus sign,
/// the whole part, a point, and exactly one fractional digit.
pub open spec fn spec_tenths(t: int) -> Seq<char> {
    let a = if t < 0 { -t } else { t };
    (if t < 0 { "-"@ } else { Seq::<char>::empty() }) + spec_dec((a / 10) as nat) + "."@
        + spec_digit(a % 10)
}

fn digit_str(d: u64) -> (r: &'static str)
    requires
        d < 10,
    ensures
        r@ == spec_digit(d as int),
{
    match d {
        0 => "0",
        1 => "1",
        2 => "2",
        3 => "3",
        4 => "4",
        5 => "5",
        6 => "6",
        7 => "7",
        8 => "8",
        _ => "9",
    }
}

/// Renders a natural number in decimal.
pub fn u64_to_dec(n: u64) -> (s: String)
    ensures
        s@ == spec_dec(n as nat),
    decreases n,
{
    if n < 10 {
        digit_str(n).to_owned()
    } else {
        let mut s = u64_to_dec(n / 10);
        s.append(digit_str(n % 10));
        s
    }
}

/// Renders a value held in tenths with one digit after the decimal point.
pub fn tenths_to_dec(t: i64) -> (s: String)
    ensures
        s@ == spec_tenths(t as int),
{
    let a: u64 = if t >= 0 {
        t as u64
    } else {
        (-(t as i128)) as u64
    };
    proof {
        assert(a as int == (if (t as int) < 0 { -(t as int) } else { t as int }));
    }
    let mut s = if t < 0 {
        "-".to_owned()
    } else {
        String::new()
    };
    let whole = u64_to_dec(a / 10);
    s.append(whole.as_str());
    s.append(".");
    s.append(digit_str(a % 10));
    proof {
        assert(s@ =~= spec_tenths(t as int));
    }
    s
}

} // verus!
