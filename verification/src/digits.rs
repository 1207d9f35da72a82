//! Decimal rendering of integers, used to synthesize response identifiers.

use vstd::prelude::*;

verus! {

/// The decimal digit character for a value below ten.
pub open spec fn spec_digit(d: int) -> char {
    if d == 0 {
        '0'
    } else if d == 1 {
        '1'
    } else if d == 2 {
        '2'
    } else if d == 3 {
        '3'
    } else if d == 4 {
        '4'
    } else if d == 5 {
        '5'
    } else if d == 6 {
        '6'
    } else if d == 7 {
        '7'
    } else if d == 8 {
        '8'
    } else {
        '9'
    }
}

/// The decimal rendering of a non-negative value, most significant digit
/// first and without leading zeros (a lone zero for zero itself).
pub open spec fn spec_dec_nat(v: nat) -> Seq<char>
    decreases v,
{
    if v < 10 {
        seq![spec_digit(v as int)]
    } else {
        spec_dec_nat((v / 10) as nat) + seq![spec_digit((v % 10) as int)]
    }
}

/// The decimal rendering of a signed value: a minus sign before the
/// rendering of the magnitude when the value is negative.
pub open spec fn spec_dec_int(v: int) -> Seq<char> {
    if v >= 0 {
        spec_dec_nat(v as nat)
    } else {
        seq!['-'] + spec_dec_nat((-v) as nat)
    }
}

fn digit_str(d: u64) -> (s: &'static str)
    requires
        d < 10,
    ensures
        s@ == seq![spec_digit(d as int)],
{
    let s: &'static str = if d == 0 {
        "0"
    } else if d == 1 {
        "1"
    } else if d == 2 {
        "2"
    } else if d == 3 {
        "3"
    } else if d == 4 {
        "4"
    } else if d == 5 {
        "5"
    } else if d == 6 {
        "6"
    } else if d == 7 {
        "7"
    } else if d == 8 {
        "8"
    } else {
        "9"
    };
    proof {
        reveal_strlit("0");
        reveal_strlit("1");
        reveal_strlit("2");
        reveal_strlit("3");
        reveal_strlit("4");
        reveal_strlit("5");
        reveal_strlit("6");
        reveal_strlit("7");
        reveal_strlit("8");
        reveal_strlit("9");
        assert(s@ =~= seq![spec_digit(d as int)]);
    }
    s
}

/// Renders an unsigned value in decimal.
pub fn dec_u64(v: u64) -> (s: String)
    ensures
        s@ == spec_dec_nat(v as nat),
    decreases v,
{
    if v < 10 {
        String::from_str(digit_str(v))
    } else {
        let rest = dec_u64(v / 10);
        rest.concat(digit_str(v % 10))
    }
}

/// Renders a signed value in decimal, with a minus sign when negative.
pub fn dec_i64(v: i64) -> (s: String)
    ensures
        s@ == spec_dec_int(v as int),
{
    if v >= 0 {
        dec_u64(v as u64)
    } else {
        let magnitude: u64 = if v == i64::MIN {
            9223372036854775808u64
        } else {
            (-v) as u64
        };
        proof {
            assert(magnitude as int == -(v as int));
            reveal_strlit("-");
            assert("-"@ =~= seq!['-']);
        }
        let sign = String::from_str("-");
        sign.concat(dec_u64(magnitude).as_str())
    }
}

} // verus!
