//! Colors made of red, green and blue bytes.

use vstd::prelude::*;

use crate::text::{hex2, push_char, push_hex2};

verus! {

/// A color given by its red, green and blue components.
#[derive(Clone, Copy, Debug, PartialEq, Eq, Structural, Default)]
pub struct Rgb {
    pub r: u8,
    pub g: u8,
    pub b: u8,
}

/// How a color is written in operating system commands: `#rrggbb` with
/// lowercase hexadecimal digits.
pub open spec fn color_spec(c: Rgb) -> Seq<char> {
    seq!['#'] + hex2(c.r) + hex2(c.g) + hex2(c.b)
}

impl Rgb {
    /// Creates the color from its components.
    pub fn new(r: u8, g: u8, b: u8) -> (c: Rgb)
        ensures
            c == (Rgb { r, g, b }),
    {
        Rgb { r, g, b }
    }

    /// The red component.
    pub fn r(&self) -> (v: u8)
        ensures
            v == self.r,
    {
        self.r
    }

    /// The green component.
    pub fn g(&self) -> (v: u8)
        ensures
            v == self.g,
    {
        self.g
    }

    /// The blue component.
    pub fn b(&self) -> (v: u8)
        ensures
            v == self.b,
    {
        self.b
    }

    /// Appends the color as it is written in operating system commands.
    pub fn push_spec(&self, res: &mut String)
        ensures
            final(res)@ == old(res)@ + color_spec(*self),
    {
        push_char(res, '#');
        push_hex2(res, self.r);
        push_hex2(res, self.g);
        push_hex2(res, self.b);
        assert(final(res)@ =~= old(res)@ + color_spec(*self));
    }
}

} // verus!
