//! Text whose characters each carry a foreground color of their own, as
//! color gradients are written.

use vstd::prelude::*;

use crate::codes::{fg_code, push_fg};
use crate::rgb::Rgb;
use crate::template::chars::chars_vec;
use crate::text::push_char;

verus! {

/// The characters `cs`, each preceded by the foreground color that `colors`
/// gives for its position.
pub open spec fn colored_text(cs: Seq<char>, colors: Seq<Rgb>) -> Seq<char>
    decreases cs.len(),
{
    if cs.len() == 0 {
        seq![]
    } else {
        let c = colors[cs.len() - 1];
        colored_text(cs.drop_last(), colors) + fg_code(c.r, c.g, c.b) + seq![cs.last()]
    }
}

/// How many characters of a text of `n` characters are written when at most
/// `s_len` are asked for.
pub open spec fn written(n: nat, s_len: nat) -> nat {
    if s_len <= n {
        s_len
    } else {
        n
    }
}

/// Appends the first `s_len` characters of `s` (all of them when it has
/// fewer), each preceded by its foreground color: the character at position
/// `i` gets `colors[i]`.
pub fn write_colored(res: &mut String, s: &str, s_len: usize, colors: &[Rgb])
    requires
        colors@.len() >= written(s@.len(), s_len as nat),
    ensures
        final(res)@ == old(res)@ + colored_text(
            s@.take(written(s@.len(), s_len as nat) as int),
            colors@,
        ),
{
    let cs = chars_vec(s);
    let n = if s_len <= cs.len() { s_len } else { cs.len() };
    let ghost base = res@;
    let mut i: usize = 0;
    while i < n
        invariant
            i <= n,
            n == written(s@.len(), s_len as nat),
            cs@ == s@,
            colors@.len() >= n,
            res@ == base + colored_text(cs@.take(i as int), colors@),
        decreases n - i,
    {
        let c = colors[i];
        push_fg(res, c.r, c.g, c.b);
        push_char(res, cs[i]);
        proof {
            let t = cs@.take(i + 1);
            assert(t.drop_last() =~= cs@.take(i as int));
            assert(t.last() == cs@[i as int]);
            assert(res@ =~= base + colored_text(t, colors@));
        }
        i = i + 1;
    }
}

} // verus!
