//! Decimal rendering of magnitudes for axis labels and time display.
//!
//! Both the whole-number form ("1536") and the tenths form ("1.5", one digit
//! after the point) are pinned down character by character, so that every
//! label string the engine hands to a renderer is reproducible bit for bit.

use vstd::prelude::*;

verus! {

/// The decimal digit character for a value below ten.
pub open spec fn digit_char(d: int) -> char
    recommends
        0 <= d < 10,
{
    if d == 0 {
        '0'
    } else if d == 1 {
        '1'
    } else if d == 2 {
        '2'
    } else if d == 3 {
        '3'
    } else if d == 4 {
        '4'
    } else if d == 5 {
        '5'
    } else if d == 6 {
        '6'
    } else if d == 7 {
        '7'
    } else if d == 8 {
        '8'
    } else {
        '9'
    }
}

/// The usual decimal notation of a non-negative integer: most significant
/// digit first, no leading zeros except for zero itself.
pub open spec fn dec_seq(n: int) -> Seq<char>
    recommends
        n >= 0,
    decreases n,
{
    if n < 10 {
        seq![digit_char(n)]
    } else {
        dec_seq(n / 10).push(digit_char(n % 10))
    }
}

/// Decimal notation with one digit after the point, of a value given in
/// tenths: 185 tenths is rendered "18.5".
pub open spec fn dec_tenths_seq(tenths: int) -> Seq<char>
    recommends
        tenths >= 0,
{
    dec_seq(tenths / 10) + seq!['.'] + seq![digit_char(tenths % 10)]
}

/// The one-character string for a digit.
fn digit_str(d: u128) -> (s: &'static str)
    requires
        d < 10,
    ensures
        s@ == seq![digit_char(d as int)],
{
    proof {
        reveal_strlit("0");
        reveal_strlit("1");
        reveal_strlit("2");
        reveal_strlit("3");
        reveal_strlit("4");
        reveal_strlit("5");
        reveal_strlit("6");
        reveal_strlit("7");
        reveal_strlit("8");
        reveal_strlit("9");
    }
    if d == 0 {
        "0"
    } else if d == 1 {
        "1"
    } else if d == 2 {
        "2"
    } else if d == 3 {
        "3"
    } else if d == 4 {
        "4"
    } else if d == 5 {
        "5"
    } else if d == 6 {
        "6"
    } else if d == 7 {
        "7"
    } else if d == 8 {
        "8"
    } else {
        "9"
    }
}

/// Renders a non-negative integer in decimal.
pub fn dec_string(n: u128) -> (s: String)
    ensures
        s@ == dec_seq(n as int),
    decreases n,
{
    if n < 10 {
        digit_str(n).to_owned()
    } else {
        let mut s = dec_string(n / 10);
        s.append(digit_str(n % 10));
        assert(s@ =~= dec_seq(n as int));
        s
    }
}

/// Renders a value given in tenths with one digit after the point.
pub fn dec_tenths_string(tenths: u128) -> (s: String)
    ensures
        s@ == dec_tenths_seq(tenths as int),
{
    proof {
        reveal_strlit(".");
    }
    let mut s = dec_string(tenths / 10);
    s.append(".");
    s.append(digit_str(tenths % 10));
    assert(s@ =~= dec_tenths_seq(tenths as int));
    s
}

/// The quotient `v / divisor` in tenths, rounded to the nearest tenth with
/// ties to even — the rounding one-decimal formatting uses.
pub open spec fn rounded_tenths(v: int, divisor: int) -> int
    recommends
        v >= 0,
        divisor >= 1,
{
    let scaled = v * 10;
    let floor = scaled / divisor;
    let remainder = scaled % divisor;
    if 2 * remainder < divisor {
        floor
    } else if 2 * remainder > divisor {
        floor + 1
    } else if floor % 2 == 0 {
        floor
    } else {
        floor + 1
    }
}

/// Renders `v / divisor` with one digit after the point, rounded to the
/// nearest tenth with ties to even.
pub fn rounded_tenths_string(v: u64, divisor: u64) -> (s: String)
    requires
        divisor >= 1,
    ensures
        s@ == dec_tenths_seq(rounded_tenths(v as int, divisor as int)),
{
    let scaled: u128 = v as u128 * 10;
    let wide_divisor: u128 = divisor as u128;
    let floor: u128 = scaled / wide_divisor;
    let remainder: u128 = scaled % wide_divisor;
    let tenths: u128 = if 2 * remainder < wide_divisor {
        floor
    } else if 2 * remainder > wide_divisor {
        floor + 1
    } else if floor % 2 == 0 {
        floor
    } else {
        floor + 1
    };
    dec_tenths_string(tenths)
}

/// The plain rendering of half a value: whole halves without a decimal part,
/// odd values with their exact ".5".
pub open spec fn dec_half_seq(v: int) -> Seq<char>
    recommends
        v >= 0,
{
    if v % 2 == 0 {
        dec_seq(v / 2)
    } else {
        dec_seq(v / 2) + ".5"@
    }
}

/// Renders half of `v`: "50" for a whole half, "18.5" for an odd value.
pub fn dec_half_string(v: u64) -> (s: String)
    ensures
        s@ == dec_half_seq(v as int),
{
    let mut s = dec_string((v / 2) as u128);
    if v % 2 == 1 {
        s.append(".5");
    }
    assert(s@ =~= dec_half_seq(v as int));
    s
}

} // verus!
