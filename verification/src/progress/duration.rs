//! Durations written as `[Nd][HH:]MM:SS[.fraction]`.

use vstd::prelude::*;

use crate::template::chars::{chars_vec, decimal_value, digit_value, lemma_decimal_reads_back};
use crate::text::{decimal, pad2, push_char, push_decimal, push_pad2, push_str};

verus! {

/// A span of time: whole seconds and the nanoseconds beyond them.
#[derive(Debug, Clone, Copy, PartialEq, Eq, Structural, Default)]
pub struct TimeSpan {
    pub secs: u64,
    pub nanos: u32,
}

/// The digits without their trailing zeros.
pub open spec fn trim_zeros(s: Seq<char>) -> Seq<char>
    decreases s.len(),
{
    if s.len() > 0 && s.last() == '0' {
        trim_zeros(s.drop_last())
    } else {
        s
    }
}

/// `n` zeros.
pub open spec fn zeros(n: nat) -> Seq<char> {
    Seq::new(n, |i: int| '0')
}

/// The fraction of a second after the decimal point: nine digits, with the
/// trailing zeros left out.
pub open spec fn fraction(nanos: nat) -> Seq<char> {
    zeros((9 - decimal(nanos).len()) as nat) + trim_zeros(decimal(nanos))
}

/// The days of a duration, as `Nd` when there are any.
pub open spec fn days_part(days: u64) -> Seq<char> {
    if days != 0 {
        decimal(days as nat) + "d"@
    } else {
        seq![]
    }
}

/// The hours of a duration, as `HH:` when there are any.
pub open spec fn hours_part(h: u64) -> Seq<char> {
    if h != 0 {
        pad2(h as nat) + seq![':']
    } else {
        seq![]
    }
}

/// The minutes and seconds, as `MM:SS`.
pub open spec fn clock_part(m: u64, s: u64) -> Seq<char> {
    pad2(m as nat) + seq![':'] + pad2(s as nat)
}

/// The fraction of the second, as `.digits`, unless truncated or zero.
pub open spec fn fraction_part(nanos: u32, trunc: bool) -> Seq<char> {
    if !trunc && nanos != 0 {
        seq!['.'] + fraction(nanos as nat)
    } else {
        seq![]
    }
}

/// How a duration is written: days (when any) as `Nd`, hours (when any) as
/// `HH:`, then `MM:SS`, and unless truncated, the nonzero fraction of the
/// second after a `.`.
pub open spec fn duration_text(d: TimeSpan, trunc: bool) -> Seq<char> {
    let (days, h, m, s) = clock(d.secs);
    days_part(days) + hours_part(h) + clock_part(m, s) + fraction_part(d.nanos, trunc)
}

/// Days, hours, minutes and seconds of a number of seconds.
pub open spec fn clock(secs: u64) -> (u64, u64, u64, u64) {
    let rest = secs % 86400;
    (secs / 86400, rest / 3600, rest % 3600 / 60, rest % 3600 % 60)
}

/// The days, hours, minutes and seconds written for a duration add back up
/// to its seconds, and each field but the days stays below its unit.
pub proof fn lemma_clock_fields(secs: u64)
    ensures
        clock(secs).0 * 86400 + clock(secs).1 * 3600 + clock(secs).2 * 60 + clock(secs).3 == secs,
        clock(secs).1 < 24,
        clock(secs).2 < 60,
        clock(secs).3 < 60,
{
    let rest = secs % 86400;
    assert(secs == (secs / 86400) * 86400 + rest);
    assert(rest == (rest / 3600) * 3600 + rest % 3600);
    assert(rest % 3600 == (rest % 3600 / 60) * 60 + rest % 3600 % 60);
}

fn clock_of(secs: u64) -> (r: (u64, u64, u64, u64))
    ensures
        r == clock(secs),
{
    let d = secs / 86400;
    let rest = secs % 86400;
    let h = rest / 3600;
    let rest = rest % 3600;
    (d, h, rest / 60, rest % 60)
}

/// `10^k`.
pub open spec fn pow10(k: nat) -> nat
    decreases k,
{
    if k == 0 {
        1
    } else {
        10 * pow10((k - 1) as nat)
    }
}

proof fn lemma_decimal_len(n: nat, k: nat)
    requires
        k >= 1,
        n < pow10(k),
    ensures
        decimal(n).len() <= k,
    decreases k,
{
    if n >= 10 {
        assert(k >= 2) by {
            if k == 1 {
                assert(pow10(1) == 10) by {
                    reveal_with_fuel(pow10, 2);
                }
            }
        }
        assert(n / 10 < pow10((k - 1) as nat));
        lemma_decimal_len(n / 10, (k - 1) as nat);
    }
}

fn push_fraction(res: &mut String, nanos: u32)
    requires
        nanos < 1_000_000_000,
    ensures
        final(res)@ == old(res)@ + seq!['.'] + fraction(nanos as nat),
{
    let mut digits = String::new();
    push_decimal(&mut digits, nanos as u64);
    let ds = chars_vec(digits.as_str());
    proof {
        reveal_with_fuel(pow10, 10);
        lemma_decimal_len(nanos as nat, 9);
    }
    let ghost before = res@;
    push_char(res, '.');
    let mut z: usize = 0;
    let nz: usize = 9 - ds.len();
    while z < nz
        invariant
            z <= nz,
            res@ == before + seq!['.'] + zeros(z as nat),
        decreases nz - z,
    {
        push_char(res, '0');
        assert(zeros((z + 1) as nat) =~= zeros(z as nat).push('0'));
        z = z + 1;
    }
    let mut e = ds.len();
    assert(ds@.take(ds@.len() as int) =~= ds@);
    while e > 0 && ds[e - 1] == '0'
        invariant
            e <= ds@.len(),
            trim_zeros(ds@.take(e as int)) == trim_zeros(ds@),
        decreases e,
    {
        assert(ds@.take(e as int).drop_last() =~= ds@.take(e - 1));
        e = e - 1;
    }
    let ghost mid = res@;
    let mut i: usize = 0;
    while i < e
        invariant
            i <= e,
            e <= ds@.len(),
            res@ == mid + ds@.take(i as int),
        decreases e - i,
    {
        push_char(res, ds[i]);
        assert(ds@.take(i + 1) =~= ds@.take(i as int).push(ds@[i as int]));
        i = i + 1;
    }
    proof {
        assert(trim_zeros(ds@.take(e as int)) == ds@.take(e as int));
        assert(res@ =~= old(res)@ + seq!['.'] + fraction(nanos as nat));
    }
}

/// Appends the duration as `duration_text` says.
pub fn duration_to_string(dur: TimeSpan, trunc: bool, res: &mut String)
    requires
        dur.nanos < 1_000_000_000,
    ensures
        final(res)@ == old(res)@ + duration_text(dur, trunc),
{
    let ghost start = res@;
    let (d, h, m, secs) = clock_of(dur.secs);
    if d != 0 {
        push_decimal(res, d);
        push_str(res, "d");
    }
    let ghost r1 = res@;
    assert(r1 =~= start + days_part(d));
    if h != 0 {
        push_pad2(res, h);
        push_char(res, ':');
    }
    let ghost r2 = res@;
    assert(r2 =~= r1 + hours_part(h));
    push_pad2(res, m);
    push_char(res, ':');
    push_pad2(res, secs);
    let ghost r3 = res@;
    assert(r3 =~= r2 + clock_part(m, secs));
    if !trunc && dur.nanos != 0 {
        push_fraction(res, dur.nanos);
    }
    assert(res@ =~= r3 + fraction_part(dur.nanos, trunc));
    assert(res@ =~= start + duration_text(dur, trunc));
}

/// The truncated form of a duration is the start of the full form: only the
/// fraction of the second is left out.
pub proof fn lemma_truncated_prefix(d: TimeSpan)
    ensures
        duration_text(d, false).take(duration_text(d, true).len() as int) == duration_text(d, true),
{
    let t = duration_text(d, true);
    let f = duration_text(d, false);
    let tail = fraction_part(d.nanos, false);
    assert(fraction_part(d.nanos, true) == Seq::<char>::empty());
    assert(t + seq![] =~= t);
    assert(f =~= t + tail);
    assert(f.take(t.len() as int) =~= t);
}

proof fn lemma_value_append(a: Seq<char>, b: Seq<char>)
    ensures
        decimal_value(a + b) == decimal_value(a) * pow10(b.len()) + decimal_value(b),
    decreases b.len(),
{
    if b.len() == 0 {
        assert(a + b =~= a);
        assert(decimal_value(b) == 0);
        assert(pow10(0) == 1);
    } else {
        let b1 = b.drop_last();
        lemma_value_append(a, b1);
        assert((a + b).drop_last() =~= a + b1);
        assert((a + b).last() == b.last());
        let va = decimal_value(a);
        let vb1 = decimal_value(b1);
        let p = pow10(b1.len());
        let dl = digit_value(b.last());
        assert(pow10(b.len()) == 10 * p);
        assert(decimal_value(a + b) == decimal_value((a + b).drop_last()) * 10 + digit_value(
            (a + b).last(),
        ));
        assert(decimal_value(b) == vb1 * 10 + dl);
        assert((va * p + vb1) * 10 + dl == va * (10 * p) + (vb1 * 10 + dl)) by (nonlinear_arith);
    }
}

proof fn lemma_zeros_value(m: nat)
    ensures
        decimal_value(zeros(m)) == 0,
    decreases m,
{
    if m > 0 {
        lemma_zeros_value((m - 1) as nat);
        assert(zeros(m).drop_last() =~= zeros((m - 1) as nat));
    } else {
        assert(zeros(m) =~= Seq::<char>::empty());
    }
}

proof fn lemma_trim_zeros(s: Seq<char>) -> (j: nat)
    ensures
        s == trim_zeros(s) + zeros(j),
        trim_zeros(s).len() == 0 || trim_zeros(s).last() != '0',
    decreases s.len(),
{
    if s.len() > 0 && s.last() == '0' {
        let j1 = lemma_trim_zeros(s.drop_last());
        assert(zeros(j1 + 1) =~= zeros(j1).push('0'));
        assert(s =~= s.drop_last().push('0'));
        assert(s =~= trim_zeros(s) + zeros(j1 + 1));
        j1 + 1
    } else {
        assert(s =~= s + zeros(0));
        0
    }
}

/// The fraction of a second is written so that it reads back: at most nine
/// digits, the last one not zero, and filled up with zeros to nine digits
/// they give the nanoseconds.
pub proof fn lemma_fraction_reads_back(nanos: nat)
    requires
        0 < nanos < 1_000_000_000,
    ensures
        fraction(nanos).len() <= 9,
        fraction(nanos).last() != '0',
        decimal_value(fraction(nanos) + zeros((9 - fraction(nanos).len()) as nat)) == nanos,
{
    let d = decimal(nanos);
    assert(pow10(9) == 1_000_000_000) by {
        reveal_with_fuel(pow10, 10);
    }
    lemma_decimal_len(nanos, 9);
    lemma_decimal_reads_back(nanos);
    let t = trim_zeros(d);
    let j = lemma_trim_zeros(d);
    if t.len() == 0 {
        assert(d =~= zeros(j));
        assert(d[0] == '0');
    }
    let k = d.len();
    let f = fraction(nanos);
    assert(f == zeros((9 - k) as nat) + t);
    assert(f.len() == 9 - k + t.len());
    assert(f.last() == t.last());
    assert(9 - f.len() == j);
    assert(f + zeros(j) =~= zeros((9 - k) as nat) + d);
    lemma_value_append(zeros((9 - k) as nat), d);
    lemma_zeros_value((9 - k) as nat);
}

} // verus!
