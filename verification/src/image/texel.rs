//! Texels: block characters whose foreground and background colors together
//! draw two or four pixels.

use vstd::prelude::*;

use crate::codes::{bg_code, fg_code, push_bg, push_fg, RESET};
use crate::image::mat::Mat;
use crate::rgb::Rgb;
use crate::text::{push_char, push_str};

verus! {

/// A block character with its foreground and background colors.
#[derive(Clone, Copy, Debug, PartialEq, Eq, Structural)]
pub struct Texel {
    pub fg: Rgb,
    pub bg: Rgb,
    pub chr: char,
}

/// The block character that draws the opposite pixels, when there is one.
pub open spec fn swapped(c: char) -> Option<char> {
    if c == '▄' {
        Some('▀')
    } else if c == '▀' {
        Some('▄')
    } else if c == ' ' {
        Some('█')
    } else if c == '█' {
        Some(' ')
    } else if c == '▐' {
        Some('▌')
    } else if c == '▌' {
        Some('▐')
    } else if c == '▜' {
        Some('▖')
    } else if c == '▖' {
        Some('▜')
    } else if c == '▛' {
        Some('▗')
    } else if c == '▗' {
        Some('▛')
    } else if c == '▟' {
        Some('▘')
    } else if c == '▘' {
        Some('▟')
    } else if c == '▙' {
        Some('▝')
    } else if c == '▝' {
        Some('▙')
    } else if c == '▞' {
        Some('▚')
    } else if c == '▚' {
        Some('▞')
    } else {
        None
    }
}

/// The same picture drawn with the opposite character and the colors
/// exchanged; unchanged when the character has no opposite.
pub open spec fn swap_texel(t: Texel) -> Texel {
    match swapped(t.chr) {
        Some(c) => Texel { fg: t.bg, bg: t.fg, chr: c },
        None => t,
    }
}

/// The texel redrawn so that it does not show the background color `bg`.
pub open spec fn avoid_bg(t: Texel, bg: Rgb) -> Texel {
    if t.bg == bg {
        if t.bg == t.fg {
            Texel { chr: '█', ..t }
        } else {
            swap_texel(t)
        }
    } else {
        t
    }
}

/// How a texel is written: its foreground, its background, its character.
pub open spec fn texel_text(t: Texel) -> Seq<char> {
    fg_code(t.fg.r, t.fg.g, t.fg.b) + bg_code(t.bg.r, t.bg.g, t.bg.b) + seq![t.chr]
}

impl Texel {
    /// Appends the colors and the character of the texel.
    pub fn append_to(&self, r: &mut String)
        ensures
            final(r)@ == old(r)@ + texel_text(*self),
    {
        push_fg(r, self.fg.r, self.fg.g, self.fg.b);
        push_bg(r, self.bg.r, self.bg.g, self.bg.b);
        push_char(r, self.chr);
        assert(final(r)@ =~= old(r)@ + texel_text(*self));
    }

    /// Redraws the texel so that it does not use `bg` as its background:
    /// a texel of one color becomes a full block, another one is swapped.
    pub fn disallowed_bg(&mut self, bg: Rgb)
        ensures
            *final(self) == avoid_bg(*old(self), bg),
    {
        if self.bg == bg {
            if self.bg == self.fg {
                self.chr = '█';
            } else {
                self.swap_char();
            }
        }
    }

    /// Draws the same picture with the opposite character and the colors
    /// exchanged. Characters without an opposite are left as they are.
    pub fn swap_char(&mut self)
        ensures
            *final(self) == swap_texel(*old(self)),
    {
        let c = match self.chr {
            '▄' => '▀',
            '▀' => '▄',
            ' ' => '█',
            '█' => ' ',
            '▐' => '▌',
            '▌' => '▐',
            '▜' => '▖',
            '▖' => '▜',
            '▛' => '▗',
            '▗' => '▛',
            '▟' => '▘',
            '▘' => '▟',
            '▙' => '▝',
            '▝' => '▙',
            '▞' => '▚',
            '▚' => '▞',
            _ => {
                return;
            },
        };
        self.chr = c;
        let fg = self.fg;
        self.fg = self.bg;
        self.bg = fg;
    }
}

/// Swapping a texel twice gives it back.
pub proof fn lemma_swap_twice(t: Texel)
    ensures
        swap_texel(swap_texel(t)) == t,
{
}

/// After `disallowed_bg(bg)` the texel shows no background of color `bg`:
/// its background differs from `bg`, or it is a full block (which shows no
/// background), or its character has no opposite to swap to.
pub proof fn lemma_avoid_bg(t: Texel, bg: Rgb)
    ensures
        avoid_bg(t, bg).bg != bg || avoid_bg(t, bg).chr == '█' || swapped(t.chr) is None,
{
}

/// The quarters of the cell that a block character fills, as bits: 1 the
/// top left, 2 the top right, 4 the bottom left and 8 the bottom right.
/// Other characters are no blocks.
pub open spec fn quarters(c: char) -> Option<nat> {
    if c == ' ' {
        Some(0)
    } else if c == '▘' {
        Some(1)
    } else if c == '▝' {
        Some(2)
    } else if c == '▀' {
        Some(3)
    } else if c == '▖' {
        Some(4)
    } else if c == '▌' {
        Some(5)
    } else if c == '▞' {
        Some(6)
    } else if c == '▛' {
        Some(7)
    } else if c == '▗' {
        Some(8)
    } else if c == '▚' {
        Some(9)
    } else if c == '▐' {
        Some(10)
    } else if c == '▜' {
        Some(11)
    } else if c == '▄' {
        Some(12)
    } else if c == '▙' {
        Some(13)
    } else if c == '▟' {
        Some(14)
    } else if c == '█' {
        Some(15)
    } else {
        None
    }
}

/// The bit of quarter `q` (0 to 3) in a set of quarters.
pub open spec fn quarter_bit(q: nat) -> nat {
    if q == 0 {
        1
    } else if q == 1 {
        2
    } else if q == 2 {
        4
    } else {
        8
    }
}

/// The color that quarter `q` of a block texel shows: the foreground where
/// the character fills it, the background elsewhere.
pub open spec fn quarter_color(t: Texel, q: nat) -> Rgb {
    if (quarters(t.chr)->0 / quarter_bit(q)) % 2 == 1 {
        t.fg
    } else {
        t.bg
    }
}

/// Swapping a block texel keeps the picture: the opposite character fills
/// exactly the quarters that the first one leaves empty, so with the colors
/// exchanged every quarter shows the color it showed before.
pub proof fn lemma_swap_keeps_picture(t: Texel, q: nat)
    requires
        quarters(t.chr) is Some,
        q < 4,
    ensures
        swapped(t.chr) matches Some(d) ==> quarters(d) is Some && quarters(d)->0 == 15
            - quarters(t.chr)->0,
        quarters(swap_texel(t).chr) is Some,
        quarter_color(swap_texel(t), q) == quarter_color(t, q),
{
}

/// Keeping a color out of the background keeps the picture of a block
/// texel: every quarter shows the color it showed before.
pub proof fn lemma_avoid_bg_keeps_picture(t: Texel, bg: Rgb, q: nat)
    requires
        quarters(t.chr) is Some,
        q < 4,
    ensures
        quarters(avoid_bg(t, bg).chr) is Some,
        quarter_color(avoid_bg(t, bg), q) == quarter_color(t, q),
{
    lemma_swap_keeps_picture(t, q);
}

/// The texel as drawn when the color `no_bg` may not be a background.
pub open spec fn shown(t: Texel, no_bg: Option<Rgb>) -> Texel {
    match no_bg {
        Some(bg) => avoid_bg(t, bg),
        None => t,
    }
}

/// A line of texels, one after another.
pub open spec fn row_text(row: Seq<Texel>, no_bg: Option<Rgb>) -> Seq<char>
    decreases row.len(),
{
    if row.len() == 0 {
        seq![]
    } else {
        row_text(row.drop_last(), no_bg) + texel_text(shown(row.last(), no_bg))
    }
}

/// The line `y` of a matrix of texels `w` wide.
pub open spec fn line_of(cells: Seq<Texel>, w: nat, y: nat) -> Seq<Texel> {
    cells.subrange((y * w) as int, (y * w + w) as int)
}

/// The first `n` lines of a texel image, each followed by a reset of the
/// colors and the line break `nl`.
pub open spec fn lines_text(cells: Seq<Texel>, w: nat, n: nat, nl: Seq<char>, no_bg: Option<Rgb>) -> Seq<
    char,
>
    decreases n,
{
    if n == 0 {
        seq![]
    } else {
        lines_text(cells, w, (n - 1) as nat, nl, no_bg) + row_text(
            line_of(cells, w, (n - 1) as nat),
            no_bg,
        ) + RESET@ + nl
    }
}

/// A texel image of `h` lines `w` wide: the lines before the last end with
/// a reset and `nl`, the last one ends with nothing.
pub open spec fn image_text(cells: Seq<Texel>, w: nat, h: nat, nl: Seq<char>, no_bg: Option<Rgb>) -> Seq<
    char,
> {
    lines_text(cells, w, (h - 1) as nat, nl, no_bg) + row_text(line_of(cells, w, (h - 1) as nat), no_bg)
}

fn append_row(res: &mut String, img: &Mat<Texel>, y: usize, no_bg: Option<Rgb>)
    requires
        y < img.h(),
    ensures
        final(res)@ == old(res)@ + row_text(line_of(img.cells(), img.w(), y as nat), no_bg),
{
    let w = img.width();
    let line = img.get_line(y);
    assert((y as int) * (w as int) + (w as int) <= (w as int) * (img.h() as int)) by (nonlinear_arith)
        requires
            y < img.h(),
    ;
    let ghost start = res@;
    let mut x: usize = 0;
    while x < w
        invariant
            x <= w,
            w == img.w(),
            line@ == line_of(img.cells(), img.w(), y as nat),
            line@.len() == w,
            res@ == start + row_text(line@.take(x as int), no_bg),
        decreases w - x,
    {
        let mut t = line[x];
        match no_bg {
            Some(bg) => t.disallowed_bg(bg),
            None => {},
        }
        t.append_to(res);
        proof {
            let p = line@.take(x + 1);
            assert(p.drop_last() =~= line@.take(x as int));
            assert(p.last() == line@[x as int]);
        }
        x = x + 1;
    }
    assert(line@.take(w as int) =~= line@);
}

/// Appends a texel image, line after line: each line but the last is
/// followed by a reset of the colors and `nl`. With `no_bg`, that color is
/// kept out of the backgrounds as `disallowed_bg` does.
pub fn append_texels(res: &mut String, img: &Mat<Texel>, nl: &str, no_bg: Option<Rgb>)
    requires
        img.h() > 0,
    ensures
        final(res)@ == old(res)@ + image_text(img.cells(), img.w(), img.h(), nl@, no_bg),
{
    let h = img.height();
    let ghost start = res@;
    let mut y: usize = 0;
    while y < h - 1
        invariant
            y <= h - 1,
            h == img.h(),
            h > 0,
            res@ == start + lines_text(img.cells(), img.w(), y as nat, nl@, no_bg),
        decreases h - 1 - y,
    {
        append_row(res, img, y, no_bg);
        push_str(res, RESET);
        push_str(res, nl);
        assert(res@ =~= start + lines_text(img.cells(), img.w(), (y + 1) as nat, nl@, no_bg));
        y = y + 1;
    }
    append_row(res, img, h - 1, no_bg);
    assert(res@ =~= start + image_text(img.cells(), img.w(), img.h(), nl@, no_bg));
}

/// The size of an image in characters: given sizes are kept; a missing one
/// keeps the proportions of the `img_w` by `img_h` pixel image, a character
/// being twice as tall as wide; with neither given the width is 80.
pub open spec fn texel_size(img_w: nat, img_h: nat, w: Option<usize>, h: Option<usize>) -> (nat, nat) {
    match (w, h) {
        (Some(w), Some(h)) => (w as nat, h as nat),
        (Some(w), None) => (w as nat, img_h * (w as nat) / img_w / 2),
        (None, Some(h)) => (img_w * (h as nat) * 2 / img_h, h as nat),
        (None, None) => (80, img_h * 80 / img_w / 2),
    }
}

/// The size keeps the proportions of the image, a character being twice
/// as tall as wide: a missing height is the largest one whose characters are
/// no taller than the image (2 h img_w <= img_h w), a missing width the
/// largest one no wider (w img_h <= 2 h img_w); with neither, the width is 80.
pub proof fn lemma_texel_size_proportions(img_w: nat, img_h: nat, w: Option<usize>, h: Option<usize>)
    requires
        h is None ==> img_w > 0,
        h is Some && w is None ==> img_h > 0,
    ensures
        w is Some ==> texel_size(img_w, img_h, w, h).0 == w->0,
        h is Some ==> texel_size(img_w, img_h, w, h).1 == h->0,
        w is None && h is None ==> texel_size(img_w, img_h, w, h).0 == 80,
        h is None ==> 2 * texel_size(img_w, img_h, w, h).1 * img_w <= img_h * texel_size(img_w, img_h, w, h).0
            < 2 * (texel_size(img_w, img_h, w, h).1 + 1) * img_w,
        h is Some && w is None ==> texel_size(img_w, img_h, w, h).0 * img_h <= 2 * (h->0) * img_w
            < (texel_size(img_w, img_h, w, h).0 + 1) * img_h,
{
    let (tw, th) = texel_size(img_w, img_h, w, h);
    if h is None {
        let ww: nat = tw;
        let p = img_h * ww;
        assert(th == p / img_w / 2);
        assert(2 * th * img_w <= p < 2 * (th + 1) * img_w) by (nonlinear_arith)
            requires
                th == p / img_w / 2,
                img_w > 0,
        ;
    } else if w is None {
        let hh: nat = h->0 as nat;
        let p = img_w * hh * 2;
        assert(tw == p / img_h);
        assert(tw * img_h <= p < (tw + 1) * img_h) by (nonlinear_arith)
            requires
                tw == p / img_h,
                img_h > 0,
        ;
        assert(p == 2 * hh * img_w) by (nonlinear_arith)
            requires
                p == img_w * hh * 2,
        ;
    }
}

/// Computes the size of an image in characters, as `texel_size` says.
pub fn get_wh(img_w: usize, img_h: usize, w: Option<usize>, h: Option<usize>) -> (r: (usize, usize))
    requires
        h is None ==> img_w > 0,
        h is Some && w is None ==> img_h > 0 && img_w * h->0 * 2 <= usize::MAX,
        w is Some && h is None ==> img_h * w->0 <= usize::MAX,
        w is None && h is None ==> img_h * 80 <= usize::MAX,
    ensures
        r.0 == texel_size(img_w as nat, img_h as nat, w, h).0,
        r.1 == texel_size(img_w as nat, img_h as nat, w, h).1,
{
    match (w, h) {
        (Some(w), Some(h)) => (w, h),
        (Some(w), None) => (w, img_h * w / img_w / 2),
        (None, Some(h)) => {
            assert(img_w * h <= img_w * h * 2) by (nonlinear_arith);
            (img_w * h * 2 / img_h, h)
        },
        _ => (80, img_h * 80 / img_w / 2),
    }
}

} // verus!
