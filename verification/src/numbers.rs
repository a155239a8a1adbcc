//! Decimal rendering of integers, used when announcements and request
//! bodies embed numbers in text.

use vstd::prelude::*;
use crate::strutil::push_char;

verus! {

/// The character for one decimal digit.
pub open spec fn decimal_digit_char(d: nat) -> char {
    if d == 0 {
        '0'
    } else if d == 1 {
        '1'
    } else if d == 2 {
        '2'
    } else if d == 3 {
        '3'
    } else if d == 4 {
        '4'
    } else if d == 5 {
        '5'
    } else if d == 6 {
        '6'
    } else if d == 7 {
        '7'
    } else if d == 8 {
        '8'
    } else {
        '9'
    }
}

/// The usual decimal representation of a natural number, without leading
/// zeros (except for zero itself).
pub open spec fn decimal_rep(n: nat) -> Seq<char>
    decreases n,
{
    if n < 10 {
        seq![decimal_digit_char(n)]
    } else {
        decimal_rep(n / 10) + seq![decimal_digit_char(n % 10)]
    }
}

/// Decimal representation of a possibly negative number: a leading minus
/// sign before the representation of the magnitude.
pub open spec fn signed_decimal_rep(n: int) -> Seq<char> {
    if n < 0 {
        seq!['-'] + decimal_rep((-n) as nat)
    } else {
        decimal_rep(n as nat)
    }
}

fn exec_digit_char(d: u32) -> (c: char)
    requires
        d < 10,
    ensures
        c == decimal_digit_char(d as nat),
{
    match d {
        0 => '0',
        1 => '1',
        2 => '2',
        3 => '3',
        4 => '4',
        5 => '5',
        6 => '6',
        7 => '7',
        8 => '8',
        _ => '9',
    }
}

/// Append the decimal representation of `n` to `out`.
pub fn push_decimal_u32(out: &mut String, n: u32)
    ensures
        final(out)@ == old(out)@ + decimal_rep(n as nat),
    decreases n,
{
    if n >= 10 {
        push_decimal_u32(out, n / 10);
        push_char(out, exec_digit_char(n % 10));
        assert(out@ =~= old(out)@ + decimal_rep(n as nat));
    } else {
        push_char(out, exec_digit_char(n));
        assert(out@ =~= old(out)@ + decimal_rep(n as nat));
    }
}

/// Append the decimal representation of `n` to `out`, with a minus sign
/// when `n` is negative.
pub fn push_decimal_i32(out: &mut String, n: i32)
    ensures
        final(out)@ == old(out)@ + signed_decimal_rep(n as int),
{
    if n < 0 {
        push_char(out, '-');
        let magnitude: u32 = (-(n as i64)) as u32;
        push_decimal_u32(out, magnitude);
        assert(out@ =~= old(out)@ + signed_decimal_rep(n as int));
    } else {
        push_decimal_u32(out, n as u32);
    }
}

/// The decimal representation of `n` as a fresh string.
pub fn u32_to_decimal_string(n: u32) -> (r: String)
    ensures
        r@ == decimal_rep(n as nat),
{
    let mut out = String::new();
    push_decimal_u32(&mut out, n);
    assert(out@ =~= decimal_rep(n as nat));
    out
}

} // verus!
