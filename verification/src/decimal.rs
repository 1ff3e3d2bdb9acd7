//! Verified decimal rendering of integers, used for status text and filter
//! descriptions.

use vstd::prelude::*;

verus! {

/// The decimal digit character for a value in `0 ..= 9`.
pub open spec fn digit_char(d: int) -> char {
    if d == 0 {
        '0'
    } else if d == 1 {
        '1'
    } else if d == 2 {
        '2'
    } else if d == 3 {
        '3'
    } else if d == 4 {
        '4'
    } else if d == 5 {
        '5'
    } else if d == 6 {
        '6'
    } else if d == 7 {
        '7'
    } else if d == 8 {
        '8'
    } else {
        '9'
    }
}

/// The decimal digits of a natural number, most significant first.
pub open spec fn dec_str_nat(n: nat) -> Seq<char>
    decreases n,
{
    if n < 10 {
        seq![digit_char(n as int)]
    } else {
        dec_str_nat(n / 10).push(digit_char((n % 10) as int))
    }
}

/// The decimal form of an integer: a minus sign for negative values, then the
/// digits of the magnitude.
pub open spec fn dec_str_int(v: int) -> Seq<char> {
    if v < 0 {
        seq!['-'] + dec_str_nat((-v) as nat)
    } else {
        dec_str_nat(v as nat)
    }
}

fn push_digit(s: &mut String, d: u64)
    requires
        d < 10,
    ensures
        final(s)@ == old(s)@.push(digit_char(d as int)),
{
    let c: char = if d == 0 {
        '0'
    } else if d == 1 {
        '1'
    } else if d == 2 {
        '2'
    } else if d == 3 {
        '3'
    } else if d == 4 {
        '4'
    } else if d == 5 {
        '5'
    } else if d == 6 {
        '6'
    } else if d == 7 {
        '7'
    } else if d == 8 {
        '8'
    } else {
        '9'
    };
    s.push(c);
}

/// Appends the decimal digits of `n` to `s`.
pub fn push_dec_u64(s: &mut String, n: u64)
    ensures
        final(s)@ == old(s)@ + dec_str_nat(n as nat),
    decreases n,
{
    if n < 10 {
        push_digit(s, n);
        proof {
            assert(s@ =~= old(s)@ + dec_str_nat(n as nat));
        }
    } else {
        push_dec_u64(s, n / 10);
        push_digit(s, n % 10);
        proof {
            assert(s@ =~= old(s)@ + dec_str_nat(n as nat));
        }
    }
}

/// Appends the decimal form of `v` to `s`.
pub fn push_dec_i64(s: &mut String, v: i64)
    ensures
        final(s)@ == old(s)@ + dec_str_int(v as int),
{
    if v < 0 {
        s.push('-');
        let mag: u64 = if v == i64::MIN {
            9223372036854775808u64
        } else {
            (-v) as u64
        };
        assert(mag as nat == (-(v as int)) as nat);
        push_dec_u64(s, mag);
        proof {
            assert(s@ =~= old(s)@ + dec_str_int(v as int));
        }
    } else {
        push_dec_u64(s, v as u64);
    }
}

/// The decimal form of a 64-bit integer as a fresh string.
pub fn i64_to_string(v: i64) -> (r: String)
    ensures
        r@ == dec_str_int(v as int),
{
    let mut s = String::new();
    push_dec_i64(&mut s, v);
    proof {
        assert(s@ =~= dec_str_int(v as int));
    }
    s
}

/// The decimal form of a 32-bit integer as a fresh string.
pub fn i32_to_string(v: i32) -> (r: String)
    ensures
        r@ == dec_str_int(v as int),
{
    i64_to_string(v as i64)
}

} // verus!
