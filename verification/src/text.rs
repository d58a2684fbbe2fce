//! Text building blocks: appending to strings and writing numbers.

use vstd::prelude::*;

verus! {

/// Appends one character to the string.
#[verifier::external_body]
pub(crate) fn push_char(s: &mut String, c: char)
    ensures
        final(s)@ == old(s)@.push(c),
{
    s.push(c);
}

/// The character of a decimal digit.
pub open spec fn digit_char(d: nat) -> char {
    if d == 0 { '0' }
    else if d == 1 { '1' }
    else if d == 2 { '2' }
    else if d == 3 { '3' }
    else if d == 4 { '4' }
    else if d == 5 { '5' }
    else if d == 6 { '6' }
    else if d == 7 { '7' }
    else if d == 8 { '8' }
    else { '9' }
}

/// The decimal representation of `n`, without leading zeros.
pub open spec fn decimal(n: nat) -> Seq<char>
    decreases n,
{
    if n < 10 {
        seq![digit_char(n)]
    } else {
        decimal(n / 10).push(digit_char(n % 10))
    }
}

fn digit(d: u64) -> (c: char)
    requires
        d < 10,
    ensures
        c == digit_char(d as nat),
{
    let b: u8 = 48u8 + d as u8;
    b as char
}

/// Appends the decimal representation of `n` to `res`.
pub fn push_decimal(res: &mut String, n: u64)
    ensures
        final(res)@ == old(res)@ + decimal(n as nat),
    decreases n,
{
    if n >= 10 {
        push_decimal(res, n / 10);
    }
    push_char(res, digit(n % 10));
}

/// The lowercase character of a hexadecimal digit.
pub open spec fn hex_char(d: nat) -> char {
    if d < 10 {
        digit_char(d)
    } else if d == 10 { 'a' }
    else if d == 11 { 'b' }
    else if d == 12 { 'c' }
    else if d == 13 { 'd' }
    else if d == 14 { 'e' }
    else { 'f' }
}

/// Two lowercase hexadecimal digits of a byte.
pub open spec fn hex2(v: u8) -> Seq<char> {
    seq![hex_char(v as nat / 16), hex_char(v as nat % 16)]
}

/// A number written with at least two decimal digits (zero padded).
pub open spec fn pad2(n: nat) -> Seq<char> {
    if n < 10 {
        seq!['0', digit_char(n)]
    } else {
        decimal(n)
    }
}

fn hex_digit(d: u8) -> (c: char)
    requires
        d < 16,
    ensures
        c == hex_char(d as nat),
{
    if d < 10 {
        digit(d as u64)
    } else {
        let b: u8 = 87u8 + d;
        b as char
    }
}

/// Appends two lowercase hexadecimal digits of `v`.
pub fn push_hex2(res: &mut String, v: u8)
    ensures
        final(res)@ == old(res)@ + hex2(v),
{
    push_char(res, hex_digit(v / 16));
    push_char(res, hex_digit(v % 16));
    assert(final(res)@ =~= old(res)@ + hex2(v));
}

/// Appends `n` with at least two digits, padding with a zero.
pub fn push_pad2(res: &mut String, n: u64)
    ensures
        final(res)@ == old(res)@ + pad2(n as nat),
{
    if n < 10 {
        push_char(res, '0');
        push_char(res, digit(n));
        assert(final(res)@ =~= old(res)@ + pad2(n as nat));
    } else {
        push_decimal(res, n);
    }
}

/// Appends a string slice.
pub fn push_str(res: &mut String, s: &str)
    ensures
        final(res)@ == old(res)@ + s@,
{
    res.append(s);
}

} // verus!
