//! Character classes, scanning and numbers read from templates.

use vstd::prelude::*;

use crate::text::{decimal, digit_char, pad2};

verus! {

/// Letters and `_`, the characters of command names.
pub open spec fn is_name_char(c: char) -> bool {
    ('a' <= c && c <= 'z') || ('A' <= c && c <= 'Z') || c == '_'
}

/// Decimal digits.
pub open spec fn is_digit(c: char) -> bool {
    '0' <= c && c <= '9'
}

/// Hexadecimal digits, in either case.
pub open spec fn is_hex(c: char) -> bool {
    is_digit(c) || ('a' <= c && c <= 'f') || ('A' <= c && c <= 'F')
}

/// The value of a decimal digit.
pub open spec fn digit_value(c: char) -> nat {
    (c as nat - '0' as nat) as nat
}

/// The value of a hexadecimal digit.
pub open spec fn hex_digit_value(c: char) -> nat {
    if is_digit(c) {
        digit_value(c)
    } else if 'a' <= c && c <= 'f' {
        (c as nat - 'a' as nat + 10) as nat
    } else {
        (c as nat - 'A' as nat + 10) as nat
    }
}

/// The lowercase form of an ASCII letter; other characters are kept.
pub open spec fn lower(c: char) -> char {
    if 'A' <= c && c <= 'Z' {
        ((c as u32) + 32) as char
    } else {
        c
    }
}

/// A name in lowercase.
pub open spec fn lower_seq(s: Seq<char>) -> Seq<char> {
    s.map_values(|c: char| lower(c))
}

/// The first position from `p` on that does not hold a digit.
pub open spec fn digits_end(s: Seq<char>, p: int) -> int
    decreases s.len() - p,
{
    if 0 <= p < s.len() && is_digit(s[p]) {
        digits_end(s, p + 1)
    } else {
        p
    }
}

/// The first position from `p` on that does not hold a name character.
pub open spec fn name_end(s: Seq<char>, p: int) -> int
    decreases s.len() - p,
{
    if 0 <= p < s.len() && is_name_char(s[p]) {
        name_end(s, p + 1)
    } else {
        p
    }
}

/// The first position from `p` on that does not hold a hexadecimal digit.
pub open spec fn hex_end(s: Seq<char>, p: int) -> int
    decreases s.len() - p,
{
    if 0 <= p < s.len() && is_hex(s[p]) {
        hex_end(s, p + 1)
    } else {
        p
    }
}

/// The value of a sequence of decimal digits.
pub open spec fn decimal_value(d: Seq<char>) -> nat
    decreases d.len(),
{
    if d.len() == 0 {
        0
    } else {
        decimal_value(d.drop_last()) * 10 + digit_value(d.last())
    }
}

/// The value of a sequence of hexadecimal digits.
pub open spec fn hex_value(d: Seq<char>) -> nat
    decreases d.len(),
{
    if d.len() == 0 {
        0
    } else {
        hex_value(d.drop_last()) * 16 + hex_digit_value(d.last())
    }
}

/// The largest value of a number argument (that of `i32`).
pub open spec fn max_number() -> nat {
    0x7fff_ffff
}

/// Reads the digits at `p`: the number, when there are digits and their value
/// fits, and the position after the digits.
pub open spec fn read_num(s: Seq<char>, p: int) -> (Option<nat>, int) {
    let e = digits_end(s, p);
    let v = decimal_value(s.subrange(p, e));
    (if e > p && v <= max_number() { Some(v) } else { None }, e)
}

pub proof fn lemma_digits_end(s: Seq<char>, p: int)
    requires
        0 <= p <= s.len(),
    ensures
        p <= digits_end(s, p) <= s.len(),
        forall|i: int| p <= i < digits_end(s, p) ==> is_digit(#[trigger] s[i]),
        digits_end(s, p) < s.len() ==> !is_digit(s[digits_end(s, p)]),
    decreases s.len() - p,
{
    if p < s.len() && is_digit(s[p]) {
        lemma_digits_end(s, p + 1);
    }
}

pub proof fn lemma_name_end(s: Seq<char>, p: int)
    requires
        0 <= p <= s.len(),
    ensures
        p <= name_end(s, p) <= s.len(),
        forall|i: int| p <= i < name_end(s, p) ==> is_name_char(#[trigger] s[i]),
        name_end(s, p) < s.len() ==> !is_name_char(s[name_end(s, p)]),
    decreases s.len() - p,
{
    if p < s.len() && is_name_char(s[p]) {
        lemma_name_end(s, p + 1);
    }
}

pub proof fn lemma_hex_end(s: Seq<char>, p: int)
    requires
        0 <= p <= s.len(),
    ensures
        p <= hex_end(s, p) <= s.len(),
        forall|i: int| p <= i < hex_end(s, p) ==> is_hex(#[trigger] s[i]),
        hex_end(s, p) < s.len() ==> !is_hex(s[hex_end(s, p)]),
    decreases s.len() - p,
{
    if p < s.len() && is_hex(s[p]) {
        lemma_hex_end(s, p + 1);
    }
}

/// The characters of a string slice, in a vector.
pub fn chars_vec(s: &str) -> (v: Vec<char>)
    ensures
        v@ == s@,
{
    broadcast use vstd::string::group_string_axioms;

    let mut v: Vec<char> = Vec::new();
    for c in it: s.chars()
        invariant
            v@ == it.seq().take(it.index() as int),
            it.seq() == s@,
    {
        v.push(c);
    }
    v
}

/// Whether the character is a letter or `_`.
pub fn name_char(c: char) -> (b: bool)
    ensures
        b == is_name_char(c),
{
    ('a' <= c && c <= 'z') || ('A' <= c && c <= 'Z') || c == '_'
}

/// Whether the character is a decimal digit.
pub fn digit(c: char) -> (b: bool)
    ensures
        b == is_digit(c),
{
    '0' <= c && c <= '9'
}

/// Whether the character is a hexadecimal digit.
pub fn hex(c: char) -> (b: bool)
    ensures
        b == is_hex(c),
{
    ('0' <= c && c <= '9') || ('a' <= c && c <= 'f') || ('A' <= c && c <= 'F')
}

fn hex_value_of(c: char) -> (v: u64)
    requires
        is_hex(c),
    ensures
        v == hex_digit_value(c),
        v < 16,
{
    if '0' <= c && c <= '9' {
        (c as u32 - 48) as u64
    } else if 'a' <= c && c <= 'f' {
        (c as u32 - 87) as u64
    } else {
        (c as u32 - 55) as u64
    }
}

/// The lowercase form of an ASCII letter.
pub fn to_lower(c: char) -> (l: char)
    ensures
        l == lower(c),
{
    if 'A' <= c && c <= 'Z' {
        let b: u8 = (c as u32 + 32) as u8;
        b as char
    } else {
        c
    }
}

proof fn lemma_decimal_value_push(d: Seq<char>, c: char)
    ensures
        decimal_value(d.push(c)) == decimal_value(d) * 10 + digit_value(c),
{
    assert(d.push(c).drop_last() =~= d);
}

proof fn lemma_hex_value_push(d: Seq<char>, c: char)
    ensures
        hex_value(d.push(c)) == hex_value(d) * 16 + hex_digit_value(c),
{
    assert(d.push(c).drop_last() =~= d);
}

/// Reads the number at `p`, as `read_num` says.
pub fn read_number(s: &Vec<char>, p: usize) -> (r: (Option<u32>, usize))
    requires
        p <= s@.len(),
    ensures
        r.1 == read_num(s@, p as int).1,
        r.0 is Some <==> read_num(s@, p as int).0 is Some,
        r.0 is Some ==> r.0->0 as nat == read_num(s@, p as int).0->0,
{
    let mut i = p;
    let mut acc: u64 = 0;
    let mut big = false;
    proof {
        lemma_digits_end(s@, p as int);
        assert(s@.subrange(p as int, p as int) =~= Seq::<char>::empty());
    }
    while i < s.len() && digit(s[i])
        invariant
            p <= i <= s@.len(),
            digits_end(s@, i as int) == digits_end(s@, p as int),
            !big ==> acc == decimal_value(s@.subrange(p as int, i as int)) && acc <= max_number(),
            big ==> decimal_value(s@.subrange(p as int, i as int)) > max_number(),
        decreases s@.len() - i,
    {
        let c = s[i];
        proof {
            assert(s@.subrange(p as int, i + 1) =~= s@.subrange(p as int, i as int).push(c));
            lemma_decimal_value_push(s@.subrange(p as int, i as int), c);
        }
        if !big {
            acc = acc * 10 + (c as u32 - 48) as u64;
            if acc > 0x7fff_ffff {
                big = true;
            }
        }
        i = i + 1;
    }
    let v = if i > p && !big { Some(acc as u32) } else { None };
    (v, i)
}

/// Reads the hexadecimal digits at `p`: their value when it is below
/// `2^32`, and the position after them.
pub fn read_hex(s: &Vec<char>, p: usize) -> (r: (Option<u32>, usize))
    requires
        p <= s@.len(),
    ensures
        r.1 == hex_end(s@, p as int),
        r.0 is Some <==> hex_value(s@.subrange(p as int, r.1 as int)) < 0x1_0000_0000,
        r.0 is Some ==> r.0->0 as nat == hex_value(s@.subrange(p as int, r.1 as int)),
{
    let mut i = p;
    let mut acc: u64 = 0;
    let mut big = false;
    proof {
        lemma_hex_end(s@, p as int);
        assert(s@.subrange(p as int, p as int) =~= Seq::<char>::empty());
    }
    while i < s.len() && hex(s[i])
        invariant
            p <= i <= s@.len(),
            hex_end(s@, i as int) == hex_end(s@, p as int),
            !big ==> acc == hex_value(s@.subrange(p as int, i as int)) && acc < 0x1_0000_0000,
            big ==> hex_value(s@.subrange(p as int, i as int)) >= 0x1_0000_0000,
        decreases s@.len() - i,
    {
        let c = s[i];
        proof {
            assert(s@.subrange(p as int, i + 1) =~= s@.subrange(p as int, i as int).push(c));
            lemma_hex_value_push(s@.subrange(p as int, i as int), c);
        }
        if !big {
            acc = acc * 16 + hex_value_of(c);
            if acc >= 0x1_0000_0000 {
                big = true;
            }
        }
        i = i + 1;
    }
    let v = if !big { Some(acc as u32) } else { None };
    (v, i)
}

proof fn lemma_digit_char_value(d: nat)
    requires
        d < 10,
    ensures
        is_digit(digit_char(d)),
        digit_value(digit_char(d)) == d,
{
}

/// Numbers are written so that they read back: the decimal text of `n` is
/// made of digits, has no leading zero (but for zero itself), and its value
/// is `n`.
pub proof fn lemma_decimal_reads_back(n: nat)
    ensures
        decimal(n).len() > 0,
        forall|i: int| 0 <= i < decimal(n).len() ==> is_digit(#[trigger] decimal(n)[i]),
        decimal(n)[0] != '0' || n == 0,
        decimal_value(decimal(n)) == n,
    decreases n,
{
    if n < 10 {
        lemma_digit_char_value(n);
        assert(decimal(n) =~= seq![digit_char(n)]);
        assert(decimal(n).drop_last() =~= Seq::<char>::empty());
        assert(decimal_value(Seq::<char>::empty()) == 0);
        assert(decimal_value(decimal(n)) == decimal_value(decimal(n).drop_last()) * 10
            + digit_value(decimal(n).last()));
    } else {
        lemma_decimal_reads_back(n / 10);
        lemma_digit_char_value(n % 10);
        let d = decimal(n);
        assert(d.drop_last() =~= decimal(n / 10));
        assert(d.last() == digit_char(n % 10));
        assert forall|i: int| 0 <= i < d.len() implies is_digit(#[trigger] d[i]) by {
            if i < d.len() - 1 {
                assert(d[i] == decimal(n / 10)[i]);
            }
        }
        assert(d[0] == decimal(n / 10)[0]);
        assert(decimal_value(d) == decimal_value(d.drop_last()) * 10 + digit_value(d.last()));
        assert((n / 10) * 10 + n % 10 == n);
    }
}

/// A two digit field (such as the minutes of a time) reads back as its
/// number: two digits whose value is `n`.
pub proof fn lemma_pad2_reads_back(n: nat)
    requires
        n < 100,
    ensures
        pad2(n).len() == 2,
        is_digit(pad2(n)[0]) && is_digit(pad2(n)[1]),
        10 * digit_value(pad2(n)[0]) + digit_value(pad2(n)[1]) == n,
{
    lemma_digit_char_value(n % 10);
    if n < 10 {
        lemma_digit_char_value(n);
    } else {
        lemma_digit_char_value(n / 10);
        reveal_with_fuel(decimal, 2);
        assert(decimal(n) =~= seq![digit_char(n / 10), digit_char(n % 10)]);
    }
}

} // verus!
