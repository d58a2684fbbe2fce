//! One column of six pixels of a sixel image.

use vstd::prelude::*;

verus! {

/// The colors (in 332 form) of six pixels stacked on each other.
pub struct Sixel(pub [u8; 6]);

/// `2^i`.
pub open spec fn bit(i: nat) -> nat
    decreases i,
{
    if i == 0 {
        1
    } else {
        2 * bit((i - 1) as nat)
    }
}

/// The bits of the first `n` pixels that have the color `rgb`.
pub open spec fn pattern(d: Seq<u8>, rgb: u8, n: nat) -> nat
    decreases n,
{
    if n == 0 {
        0
    } else {
        pattern(d, rgb, (n - 1) as nat) + if d[n - 1] == rgb {
            bit((n - 1) as nat)
        } else {
            0
        }
    }
}

proof fn lemma_pattern_bound(d: Seq<u8>, rgb: u8, n: nat)
    ensures
        pattern(d, rgb, n) < bit(n),
    decreases n,
{
    if n > 0 {
        lemma_pattern_bound(d, rgb, (n - 1) as nat);
    }
}

impl Sixel {
    /// Creates the column from its six colors, top first.
    pub fn new(data: [u8; 6]) -> (s: Sixel)
        ensures
            s.0@ == data@,
    {
        Sixel(data)
    }

    /// The sixel character that draws the pixels of color `rgb`: bit `i`
    /// set for pixel `i` from the top, offset by 63.
    pub fn color_char(&self, rgb: u8) -> (c: char)
        ensures
            c as nat == pattern(self.0@, rgb, 6) + 63,
    {
        let mut code: u8 = 0;
        let mut b: u8 = 1;
        let mut i: usize = 0;
        while i < 6
            invariant
                i <= 6,
                b as nat == bit(i as nat),
                code as nat == pattern(self.0@, rgb, i as nat),
                self.0@.len() == 6,
            decreases 6 - i,
        {
            proof {
                assert(b <= 32) by {
                    reveal_with_fuel(bit, 7);
                }
                lemma_pattern_bound(self.0@, rgb, i as nat);
                reveal_with_fuel(bit, 7);
            }
            if self.0[i] == rgb {
                code = code + b;
            }
            b = b * 2;
            i = i + 1;
        }
        proof {
            lemma_pattern_bound(self.0@, rgb, 6);
            reveal_with_fuel(bit, 7);
        }
        (code + 63) as char
    }
}

/// The value of bit `i` (0 to 5) of a sixel character.
pub open spec fn sixel_bit(i: nat) -> nat {
    if i == 0 {
        1
    } else if i == 1 {
        2
    } else if i == 2 {
        4
    } else if i == 3 {
        8
    } else if i == 4 {
        16
    } else {
        32
    }
}

/// The sixel character of a color marks exactly the pixels of that color:
/// its code, less 63, has bit `i` set when pixel `i` from the top has the
/// color, and clear otherwise.
pub proof fn lemma_sixel_marks_pixels(d: Seq<u8>, rgb: u8, i: nat)
    requires
        d.len() == 6,
        i < 6,
    ensures
        0 <= pattern(d, rgb, 6) < 64,
        ((pattern(d, rgb, 6) / sixel_bit(i)) % 2 == 1) <==> d[i as int] == rgb,
{
    reveal_with_fuel(pattern, 7);
    reveal_with_fuel(bit, 7);
    let b0: nat = if d[0] == rgb { 1 } else { 0 };
    let b1: nat = if d[1] == rgb { 1 } else { 0 };
    let b2: nat = if d[2] == rgb { 1 } else { 0 };
    let b3: nat = if d[3] == rgb { 1 } else { 0 };
    let b4: nat = if d[4] == rgb { 1 } else { 0 };
    let b5: nat = if d[5] == rgb { 1 } else { 0 };
    assert(pattern(d, rgb, 6) == b0 + 2 * b1 + 4 * b2 + 8 * b3 + 16 * b4 + 32 * b5);
}

} // verus!
