//! Escape codes of terminals: constant sequences and the codes that take
//! numbers, colors or clipboard data.

use base64::Engine;
use vstd::prelude::*;

use crate::rgb::{color_spec, Rgb};
use crate::text::{decimal, push_char, push_decimal, push_str};

verus! {

// Sequence introducers.
pub const ESC: char = '\x1b';
pub const CSI: &'static str = "\x1b[";
pub const DCS: &'static str = "\x1bP";
pub const OSC: &'static str = "\x1b]";
pub const ST: &'static str = "\x1b\\";
pub const SS3: &'static str = "\x1bO";

// Single character ASCII controls.
pub const BELL: char = '\x07';
pub const BACKSPACE: char = '\x08';
pub const HTAB: char = '\t';
pub const NEWLINE: char = '\n';
pub const VTAB: char = '\x0b';
pub const FORMFEED: char = '\x0c';
pub const CARRIAGE_RETURN: char = '\r';
pub const DELETE: char = '\x7f';

// Cursor movement and erasing.
pub const MOVE_HOME: &'static str = "\x1b[H";
pub const UP_SCRL: &'static str = "\x1bM";
pub const CUR_SAVE: &'static str = "\x1b7";
pub const CUR_LOAD: &'static str = "\x1b8";
pub const ERASE_TO_END: &'static str = "\x1b[J";
pub const ERASE_FROM_START: &'static str = "\x1b[1J";
pub const ERASE_SCREEN: &'static str = "\x1b[2J";
pub const ERASE_BUFFER: &'static str = "\x1b[3J";
pub const ERASE_TO_LN_END: &'static str = "\x1b[K";
pub const ERASE_FROM_LN_START: &'static str = "\x1b[1K";
pub const ERASE_LINE: &'static str = "\x1b[2K";
pub const ERASE_ALL: &'static str = "\x1b[2J\x1b[3J";
pub const CLEAR: &'static str = "\x1b[2J\x1b[3J\x1b[H";

// Text styles and resetting them.
pub const RESET: &'static str = "\x1b[0m";
pub const BOLD: &'static str = "\x1b[1m";
pub const FAINT: &'static str = "\x1b[2m";
pub const ITALIC: &'static str = "\x1b[3m";
pub const UNDERLINE: &'static str = "\x1b[4m";
pub const BLINKING: &'static str = "\x1b[5m";
pub const INVERSE: &'static str = "\x1b[7m";
pub const INVISIBLE: &'static str = "\x1b[8m";
pub const STRIKETROUGH: &'static str = "\x1b[9m";
pub const DOUBLE_UNDERLINE: &'static str = "\x1b[21m";
pub const OVERLINE: &'static str = "\x1b[53m";
pub const RESET_BOLD: &'static str = "\x1b[22m";
pub const RESET_ITALIC: &'static str = "\x1b[23m";
pub const RESET_UNDERLINE: &'static str = "\x1b[24m";
pub const RESET_BLINKING: &'static str = "\x1b[25m";
pub const RESET_INVERSE: &'static str = "\x1b[27m";
pub const RESET_INVISIBLE: &'static str = "\x1b[28m";
pub const RESET_STRIKETROUGH: &'static str = "\x1b[29m";
pub const RESET_OVERLINE: &'static str = "\x1b[55m";

// Foreground colors.
pub const BLACK_FG: &'static str = "\x1b[30m";
pub const WHITE_FG: &'static str = "\x1b[97m";
pub const GRAY_FG: &'static str = "\x1b[90m";
pub const GRAY_BRIGHT_FG: &'static str = "\x1b[37m";
pub const RED_FG: &'static str = "\x1b[91m";
pub const GREEN_FG: &'static str = "\x1b[92m";
pub const YELLOW_FG: &'static str = "\x1b[93m";
pub const BLUE_FG: &'static str = "\x1b[94m";
pub const MAGENTA_FG: &'static str = "\x1b[95m";
pub const CYAN_FG: &'static str = "\x1b[96m";
pub const RED_DARK_FG: &'static str = "\x1b[31m";
pub const GREEN_DARK_FG: &'static str = "\x1b[32m";
pub const YELLOW_DARK_FG: &'static str = "\x1b[33m";
pub const BLUE_DARK_FG: &'static str = "\x1b[34m";
pub const MAGENTA_DARK_FG: &'static str = "\x1b[35m";
pub const CYAN_DARK_FG: &'static str = "\x1b[36m";
pub const RESET_FG: &'static str = "\x1b[39m";

// Background colors.
pub const BLACK_BG: &'static str = "\x1b[40m";
pub const WHITE_BG: &'static str = "\x1b[107m";
pub const GRAY_BG: &'static str = "\x1b[100m";
pub const GRAY_BRIGHT_BG: &'static str = "\x1b[47m";
pub const RED_BG: &'static str = "\x1b[101m";
pub const GREEN_BG: &'static str = "\x1b[102m";
pub const YELLOW_BG: &'static str = "\x1b[103m";
pub const BLUE_BG: &'static str = "\x1b[104m";
pub const MAGENTA_BG: &'static str = "\x1b[105m";
pub const CYAN_BG: &'static str = "\x1b[106m";
pub const RED_DARK_BG: &'static str = "\x1b[41m";
pub const GREEN_DARK_BG: &'static str = "\x1b[42m";
pub const YELLOW_DARK_BG: &'static str = "\x1b[43m";
pub const BLUE_DARK_BG: &'static str = "\x1b[44m";
pub const MAGENTA_DARK_BG: &'static str = "\x1b[45m";
pub const CYAN_DARK_BG: &'static str = "\x1b[46m";
pub const RESET_BG: &'static str = "\x1b[49m";

// Character size and line modes.
pub const RESET_UNDERLINE_COLOR: &'static str = "\x1b[59m";
pub const DOUBLE_CHAR_HEIGHT_DOWN: &'static str = "\x1b#3";
pub const DOUBLE_CHAR_HEIGHT_UP: &'static str = "\x1b#4";
pub const DOUBLE_CHAR_WIDTH: &'static str = "\x1b#6";
pub const RESET_CHAR_SIZE: &'static str = "\x1b#5";
pub const ENABLE_LINE_WRAP: &'static str = "\x1b[?7h";
pub const DISABLE_LINE_WRAP: &'static str = "\x1b[?7l";
pub const ENABLE_REVERSE_COLOR: &'static str = "\x1b[?5h";
pub const DISABLE_REVERSE_COLOR: &'static str = "\x1b[?5l";
pub const HIDE_CURSOR: &'static str = "\x1b[?25l";
pub const SHOW_CURSOR: &'static str = "\x1b[?25h";
pub const SAVE_SCREEN: &'static str = "\x1b[?47l";
pub const LOAD_SCREEN: &'static str = "\x1b[?47h";
pub const ENABLE_ALTERNATIVE_BUFFER: &'static str = "\x1b[?1049h";
pub const DISABLE_ALTERNATIVE_BUFFER: &'static str = "\x1b[?1049l";

// Requests answered by the terminal.
pub const FULL_RESET: &'static str = "\x1bc";
pub const REQUEST_DEVICE_ATTRIBUTES: &'static str = "\x1b[c";
pub const REQUEST_STATUS_REPORT: &'static str = "\x1b[5n";
pub const REQUEST_CURSOR_POSITION: &'static str = "\x1b[6n";
pub const REQUEST_CURSOR_POSITION2: &'static str = "\x1b[?6n";
pub const REQUEST_TERMINAL_NAME: &'static str = "\x1b[>0q";
pub const REQUEST_TEXT_AREA_SIZE_PX: &'static str = "\x1b[14t";
pub const REQUEST_CHAR_SIZE: &'static str = "\x1b[16t";
pub const REQUEST_TEXT_AREA_SIZE: &'static str = "\x1b[18t";
pub const REQUEST_SIXEL_COLORS: &'static str = "\x1b[?1;1;1S";

// Mouse, focus, scroll region and paste modes.
pub const ENABLE_MOUSE_XY_TRACKING: &'static str = "\x1b[?9h";
pub const DISABLE_MOUSE_XY_TRACKING: &'static str = "\x1b[?9l";
pub const ENABLE_MOUSE_XY_PR_TRACKING: &'static str = "\x1b[?1000h";
pub const DISABLE_MOUSE_XY_PR_TRACKING: &'static str = "\x1b[?1000l";
pub const ENABLE_MOUSE_XY_DRAG_TRACKING: &'static str = "\x1b[?1002h";
pub const DISABLE_MOUSE_XY_DRAG_TRACKING: &'static str = "\x1b[?1002l";
pub const ENABLE_MOUSE_XY_ALL_TRACKING: &'static str = "\x1b[?1003h";
pub const DISABLE_MOUSE_XY_ALL_TRACKING: &'static str = "\x1b[?1003l";
pub const ENABLE_FOCUS_EVENT: &'static str = "\x1b[?1004h";
pub const DISABLE_FOCUS_EVENT: &'static str = "\x1b[?1004l";
pub const ENABLE_MOUSE_XY_UTF8_EXT: &'static str = "\x1b[?1005h";
pub const DISABLE_MOUSE_XY_UTF8_EXT: &'static str = "\x1b[?1005l";
pub const ENABLE_MOUSE_XY_EXT: &'static str = "\x1b[?1006h";
pub const DISABLE_MOUSE_XY_EXT: &'static str = "\x1b[?1006l";
pub const ENABLE_MOUSE_XY_URXVT_EXT: &'static str = "\x1b[?1015h";
pub const DISABLE_MOUSE_XY_URXVT_EXT: &'static str = "\x1b[?1015l";
pub const ENABLE_MOUSE_XY_PIX_EXT: &'static str = "\x1b[?1016h";
pub const DISABLE_MOUSE_XY_PIX_EXT: &'static str = "\x1b[?1016l";
pub const RESET_SCROLL_REGION: &'static str = "\x1b[0;0r";
pub const DONT_LIMIT_PRINT_TO_SCROLL_REGION: &'static str = "\x1b[?19h";
pub const LIMIT_PRINT_TO_SCROLL_REGION: &'static str = "\x1b[?19l";
pub const ENABLE_BRACKETED_PASTE_MODE: &'static str = "\x1b[?2004h";
pub const DISABLE_BRACKETED_PASTE_MODE: &'static str = "\x1b[?2004l";

// Color definitions and clipboard requests.
pub const RESET_ALL_COLOR_CODES: &'static str = "\x1b]104\x1b\\";
pub const RESET_DEFAULT_FG_COLOR: &'static str = "\x1b]110\x1b\\";
pub const RESET_DEFAULT_BG_COLOR: &'static str = "\x1b]111\x1b\\";
pub const RESET_CURSOR_COLOR: &'static str = "\x1b]112\x1b\\";
pub const REQUEST_DEFAULT_FG_COLOR: &'static str = "\x1b]10;?\x1b\\";
pub const REQUEST_DEFAULT_BG_COLOR: &'static str = "\x1b]11;?\x1b\\";
pub const REQUEST_CURSOR_COLOR: &'static str = "\x1b]12;?\x1b\\";
pub const REQUEST_SELECTION: &'static str = "\x1b]52;;?\x1b\\";

// Markers of bracketed paste in terminal input.
pub const BRACKETED_PASTE_START: &'static str = "\x1b[200~";
pub const BRACKETED_PASTE_END: &'static str = "\x1b[201~";

// Codes with parameters.

/// Parameters separated by `;`, each written in decimal.
pub open spec fn params(args: Seq<u64>) -> Seq<char>
    decreases args.len(),
{
    if args.len() == 0 {
        seq![]
    } else if args.len() == 1 {
        decimal(args[0] as nat)
    } else {
        params(args.drop_last()) + seq![';'] + decimal(args.last() as nat)
    }
}

/// `CSI n fin`, or nothing at all when `n` is zero.
pub open spec fn counted_code(n: nat, fin: Seq<char>) -> Seq<char> {
    if n == 0 {
        seq![]
    } else {
        "\x1b["@ + decimal(n) + fin
    }
}

/// `CSI y ; x H`: moves the cursor to column `x` and line `y`.
pub open spec fn move_to_code(x: nat, y: nat) -> Seq<char> {
    "\x1b["@ + decimal(y) + seq![';'] + decimal(x) + "H"@
}

/// `CSI n G`: moves the cursor to column `n`.
pub open spec fn column_code(n: nat) -> Seq<char> {
    "\x1b["@ + decimal(n) + "G"@
}

/// The parameters `r;g;b` of a true color.
pub open spec fn rgb_params(r: u8, g: u8, b: u8) -> Seq<char> {
    decimal(r as nat) + seq![';'] + decimal(g as nat) + seq![';'] + decimal(b as nat)
}

/// True color foreground: `CSI 38;2;r;g;b m`.
pub open spec fn fg_code(r: u8, g: u8, b: u8) -> Seq<char> {
    "\x1b[38;2;"@ + rgb_params(r, g, b) + "m"@
}

/// True color background: `CSI 48;2;r;g;b m`.
pub open spec fn bg_code(r: u8, g: u8, b: u8) -> Seq<char> {
    "\x1b[48;2;"@ + rgb_params(r, g, b) + "m"@
}

/// True color of underlines: `CSI 58;2;r;g;b m`.
pub open spec fn underline_rgb_code(r: u8, g: u8, b: u8) -> Seq<char> {
    "\x1b[58;2;"@ + rgb_params(r, g, b) + "m"@
}

/// One of the 256 foreground colors: `CSI 38;5;c m`.
pub open spec fn fg256_code(c: nat) -> Seq<char> {
    "\x1b[38;5;"@ + decimal(c) + "m"@
}

/// One of the 256 background colors: `CSI 48;5;c m`.
pub open spec fn bg256_code(c: nat) -> Seq<char> {
    "\x1b[48;5;"@ + decimal(c) + "m"@
}

/// One of the 256 colors for underlines: `CSI 58;5;c m`.
pub open spec fn underline256_code(c: nat) -> Seq<char> {
    "\x1b[58;5;"@ + decimal(c) + "m"@
}

/// Control sequence `CSI args fin`, the arguments separated by `;`.
///
/// `csi("a", &[1, 2, 3])` gives `"\x1b[1;2;3a"`.
pub fn csi(fin: &str, args: &[u64]) -> (res: String)
    ensures
        res@ == "\x1b["@ + params(args@) + fin@,
{
    let mut res = String::new();
    push_str(&mut res, "\x1b[");
    let mut i: usize = 0;
    while i < args.len()
        invariant
            i <= args@.len(),
            res@ == "\x1b["@ + params(args@.take(i as int)),
        decreases args@.len() - i,
    {
        let ghost before = res@;
        if i > 0 {
            push_char(&mut res, ';');
        }
        push_decimal(&mut res, args[i]);
        proof {
            let t = args@.take(i + 1);
            assert(t.drop_last() =~= args@.take(i as int));
            assert(t.last() == args@[i as int]);
            if i == 0 {
                assert(t =~= seq![args@[0]]);
            }
        }
        i = i + 1;
    }
    assert(args@.take(args@.len() as int) =~= args@);
    push_str(&mut res, fin);
    res
}

/// Graphic rendition `CSI args m`.
pub fn graphic(args: &[u64]) -> (res: String)
    ensures
        res@ == "\x1b["@ + params(args@) + "m"@,
{
    csi("m", args)
}

fn counted(n: u64, fin: &str) -> (res: String)
    ensures
        res@ == counted_code(n as nat, fin@),
{
    let mut res = String::new();
    if n != 0 {
        push_str(&mut res, "\x1b[");
        push_decimal(&mut res, n);
        push_str(&mut res, fin);
    }
    res
}

/// Moves the cursor up by `n` lines; empty for zero.
pub fn move_up(n: u64) -> (res: String)
    ensures
        res@ == counted_code(n as nat, "A"@),
{
    counted(n, "A")
}

/// Moves the cursor down by `n` lines; empty for zero.
pub fn move_down(n: u64) -> (res: String)
    ensures
        res@ == counted_code(n as nat, "B"@),
{
    counted(n, "B")
}

/// Moves the cursor right by `n` columns; empty for zero.
pub fn move_right(n: u64) -> (res: String)
    ensures
        res@ == counted_code(n as nat, "C"@),
{
    counted(n, "C")
}

/// Moves the cursor left by `n` columns; empty for zero.
pub fn move_left(n: u64) -> (res: String)
    ensures
        res@ == counted_code(n as nat, "D"@),
{
    counted(n, "D")
}

/// Inserts `n` lines at the cursor; empty for zero.
pub fn insert_lines(n: u64) -> (res: String)
    ensures
        res@ == counted_code(n as nat, "L"@),
{
    counted(n, "L")
}

/// Deletes `n` lines at the cursor; empty for zero.
pub fn delete_lines(n: u64) -> (res: String)
    ensures
        res@ == counted_code(n as nat, "M"@),
{
    counted(n, "M")
}

/// Inserts `n` characters at the cursor; empty for zero.
pub fn insert_chars(n: u64) -> (res: String)
    ensures
        res@ == counted_code(n as nat, "@"@),
{
    counted(n, "@")
}

/// Deletes `n` characters at the cursor; empty for zero.
pub fn delete_chars(n: u64) -> (res: String)
    ensures
        res@ == counted_code(n as nat, "P"@),
{
    counted(n, "P")
}

/// Inserts `n` columns at the cursor; empty for zero.
pub fn insert_columns(n: u64) -> (res: String)
    ensures
        res@ == counted_code(n as nat, "'}"@),
{
    counted(n, "'}")
}

/// Deletes `n` columns at the cursor; empty for zero.
pub fn delete_columns(n: u64) -> (res: String)
    ensures
        res@ == counted_code(n as nat, "'~"@),
{
    counted(n, "'~")
}

/// Moves the cursor to the start of the line `n` lines down; empty for zero.
pub fn set_down(n: u64) -> (res: String)
    ensures
        res@ == counted_code(n as nat, "E"@),
{
    counted(n, "E")
}

/// Moves the cursor to the start of the line `n` lines up; empty for zero.
pub fn set_up(n: u64) -> (res: String)
    ensures
        res@ == counted_code(n as nat, "F"@),
{
    counted(n, "F")
}

/// Repeats the previous character `n` times; empty for zero.
pub fn repeat_char(n: u64) -> (res: String)
    ensures
        res@ == counted_code(n as nat, "b"@),
{
    counted(n, "b")
}

/// Moves the cursor to the column `n`.
pub fn column(n: u64) -> (res: String)
    ensures
        res@ == column_code(n as nat),
{
    let mut res = String::new();
    push_str(&mut res, "\x1b[");
    push_decimal(&mut res, n);
    push_str(&mut res, "G");
    res
}

/// Moves the cursor to column `x` and line `y`.
pub fn move_to(x: u64, y: u64) -> (res: String)
    ensures
        res@ == move_to_code(x as nat, y as nat),
{
    let mut res = String::new();
    push_str(&mut res, "\x1b[");
    push_decimal(&mut res, y);
    push_char(&mut res, ';');
    push_decimal(&mut res, x);
    push_str(&mut res, "H");
    res
}

/// The cursor codes with parameters are control sequences: a move to
/// column `x` and line `y` is `CSI y;x H`, a count `n` (not zero) of a move
/// is `CSI n fin`, and a column is `CSI n G`.
pub proof fn lemma_codes_are_csi(x: u64, y: u64, n: u64, fin: Seq<char>)
    ensures
        move_to_code(x as nat, y as nat) == "\x1b["@ + params(seq![y, x]) + "H"@,
        column_code(n as nat) == "\x1b["@ + params(seq![n]) + "G"@,
        n != 0 ==> counted_code(n as nat, fin) == "\x1b["@ + params(seq![n]) + fin,
{
    let two = seq![y, x];
    assert(two.drop_last() =~= seq![y]);
    assert(params(seq![y]) == decimal(y as nat));
    assert(params(two) == params(seq![y]) + seq![';'] + decimal(x as nat));
    assert(params(seq![n]) == decimal(n as nat));
}

/// Sets the scroll region to the lines from `t` to `b`.
pub fn scroll_region(t: u64, b: u64) -> (res: String)
    ensures
        res@ == "\x1b["@ + decimal(t as nat) + seq![';'] + decimal(b as nat) + "r"@,
{
    let mut res = String::new();
    push_str(&mut res, "\x1b[");
    push_decimal(&mut res, t);
    push_char(&mut res, ';');
    push_decimal(&mut res, b);
    push_str(&mut res, "r");
    res
}

fn push_rgb_params(res: &mut String, r: u8, g: u8, b: u8)
    ensures
        final(res)@ == old(res)@ + rgb_params(r, g, b),
{
    push_decimal(res, r as u64);
    push_char(res, ';');
    push_decimal(res, g as u64);
    push_char(res, ';');
    push_decimal(res, b as u64);
    assert(final(res)@ =~= old(res)@ + rgb_params(r, g, b));
}

/// Appends the true color foreground code.
pub fn push_fg(res: &mut String, r: u8, g: u8, b: u8)
    ensures
        final(res)@ == old(res)@ + fg_code(r, g, b),
{
    push_str(res, "\x1b[38;2;");
    push_rgb_params(res, r, g, b);
    push_str(res, "m");
    assert(final(res)@ =~= old(res)@ + fg_code(r, g, b));
}

/// Appends the true color background code.
pub fn push_bg(res: &mut String, r: u8, g: u8, b: u8)
    ensures
        final(res)@ == old(res)@ + bg_code(r, g, b),
{
    push_str(res, "\x1b[48;2;");
    push_rgb_params(res, r, g, b);
    push_str(res, "m");
    assert(final(res)@ =~= old(res)@ + bg_code(r, g, b));
}

/// Appends the true color underline code.
pub fn push_underline_rgb(res: &mut String, r: u8, g: u8, b: u8)
    ensures
        final(res)@ == old(res)@ + underline_rgb_code(r, g, b),
{
    push_str(res, "\x1b[58;2;");
    push_rgb_params(res, r, g, b);
    push_str(res, "m");
    assert(final(res)@ =~= old(res)@ + underline_rgb_code(r, g, b));
}

/// True color foreground.
pub fn fg(r: u8, g: u8, b: u8) -> (res: String)
    ensures
        res@ == fg_code(r, g, b),
{
    let mut res = String::new();
    push_fg(&mut res, r, g, b);
    res
}

/// True color background.
pub fn bg(r: u8, g: u8, b: u8) -> (res: String)
    ensures
        res@ == bg_code(r, g, b),
{
    let mut res = String::new();
    push_bg(&mut res, r, g, b);
    res
}

/// True color of underlines.
pub fn underline_rgb(r: u8, g: u8, b: u8) -> (res: String)
    ensures
        res@ == underline_rgb_code(r, g, b),
{
    let mut res = String::new();
    push_underline_rgb(&mut res, r, g, b);
    res
}

/// Appends one of the 256 foreground colors.
pub fn push_fg256(res: &mut String, c: u64)
    ensures
        final(res)@ == old(res)@ + fg256_code(c as nat),
{
    push_str(res, "\x1b[38;5;");
    push_decimal(res, c);
    push_str(res, "m");
    assert(final(res)@ =~= old(res)@ + fg256_code(c as nat));
}

/// Appends one of the 256 background colors.
pub fn push_bg256(res: &mut String, c: u64)
    ensures
        final(res)@ == old(res)@ + bg256_code(c as nat),
{
    push_str(res, "\x1b[48;5;");
    push_decimal(res, c);
    push_str(res, "m");
    assert(final(res)@ =~= old(res)@ + bg256_code(c as nat));
}

/// Appends one of the 256 underline colors.
pub fn push_underline256(res: &mut String, c: u64)
    ensures
        final(res)@ == old(res)@ + underline256_code(c as nat),
{
    push_str(res, "\x1b[58;5;");
    push_decimal(res, c);
    push_str(res, "m");
    assert(final(res)@ =~= old(res)@ + underline256_code(c as nat));
}

/// One of the 256 foreground colors.
pub fn fg256(c: u8) -> (res: String)
    ensures
        res@ == fg256_code(c as nat),
{
    let mut res = String::new();
    push_fg256(&mut res, c as u64);
    res
}

/// One of the 256 background colors.
pub fn bg256(c: u8) -> (res: String)
    ensures
        res@ == bg256_code(c as nat),
{
    let mut res = String::new();
    push_bg256(&mut res, c as u64);
    res
}

/// One of the 256 underline colors.
pub fn underline256(c: u8) -> (res: String)
    ensures
        res@ == underline256_code(c as nat),
{
    let mut res = String::new();
    push_underline256(&mut res, c as u64);
    res
}

// Cursor shape.

/// Shape of the cursor, and whether it blinks.
#[derive(Clone, Debug, Copy, PartialEq, Eq, Structural)]
pub enum CursorStyle {
    /// Block: `Some(true)` blinks, `Some(false)` does not, `None` is the
    /// default (blinking).
    Block(Option<bool>),
    /// Underline, blinking when `true`.
    Underline(bool),
    /// Vertical bar, blinking when `true`.
    Bar(bool),
}

/// The number that selects the cursor style in `CSI n SP q`.
pub open spec fn cursor_style_number(style: CursorStyle) -> nat {
    match style {
        CursorStyle::Block(Some(true)) => 0,
        CursorStyle::Block(None) => 1,
        CursorStyle::Block(Some(false)) => 2,
        CursorStyle::Underline(true) => 3,
        CursorStyle::Underline(false) => 4,
        CursorStyle::Bar(true) => 5,
        CursorStyle::Bar(false) => 6,
    }
}

/// Code that sets the cursor style: `CSI n SP q`.
pub fn set_cursor(style: CursorStyle) -> (res: &'static str)
    ensures
        res@ == "\x1b["@ + decimal(cursor_style_number(style)) + " q"@,
{
    let res = match style {
        CursorStyle::Block(Some(true)) => "\x1b[0 q",
        CursorStyle::Block(None) => "\x1b[1 q",
        CursorStyle::Block(Some(false)) => "\x1b[2 q",
        CursorStyle::Underline(true) => "\x1b[3 q",
        CursorStyle::Underline(false) => "\x1b[4 q",
        CursorStyle::Bar(true) => "\x1b[5 q",
        CursorStyle::Bar(false) => "\x1b[6 q",
    };
    proof {
        reveal_strlit("\x1b[0 q");
        reveal_strlit("\x1b[1 q");
        reveal_strlit("\x1b[2 q");
        reveal_strlit("\x1b[3 q");
        reveal_strlit("\x1b[4 q");
        reveal_strlit("\x1b[5 q");
        reveal_strlit("\x1b[6 q");
        reveal_strlit("\x1b[");
        reveal_strlit(" q");
        assert(res@ =~= "\x1b["@ + decimal(cursor_style_number(style)) + " q"@);
    }
    res
}

// Operating system commands for colors.

/// `OSC 4 ; code ; ? ST`: asks for the color of a color code.
pub fn request_color_code(code: u8) -> (res: String)
    ensures
        res@ == "\x1b]4;"@ + decimal(code as nat) + ";?\x1b\\"@,
{
    let mut res = String::new();
    push_str(&mut res, "\x1b]4;");
    push_decimal(&mut res, code as u64);
    push_str(&mut res, ";?\x1b\\");
    res
}

/// `OSC 104 ; code ST`: resets the color of a color code.
pub fn reset_color_code(code: u8) -> (res: String)
    ensures
        res@ == "\x1b]104;"@ + decimal(code as nat) + "\x1b\\"@,
{
    let mut res = String::new();
    push_str(&mut res, "\x1b]104;");
    push_decimal(&mut res, code as u64);
    push_str(&mut res, "\x1b\\");
    res
}

/// `OSC 4 ; code ; color ST`: defines the color of a color code.
pub fn define_color_code(code: u8, color: Rgb) -> (res: String)
    ensures
        res@ == "\x1b]4;"@ + decimal(code as nat) + seq![';'] + color_spec(color) + "\x1b\\"@,
{
    let mut res = String::new();
    push_str(&mut res, "\x1b]4;");
    push_decimal(&mut res, code as u64);
    push_char(&mut res, ';');
    color.push_spec(&mut res);
    push_str(&mut res, "\x1b\\");
    res
}

fn osc_color(prefix: &str, color: Rgb) -> (res: String)
    ensures
        res@ == prefix@ + color_spec(color) + "\x1b\\"@,
{
    let mut res = String::new();
    push_str(&mut res, prefix);
    color.push_spec(&mut res);
    push_str(&mut res, "\x1b\\");
    res
}

/// `OSC 10 ; color ST`: sets the default foreground color.
pub fn set_default_fg_color(color: Rgb) -> (res: String)
    ensures
        res@ == "\x1b]10;"@ + color_spec(color) + "\x1b\\"@,
{
    osc_color("\x1b]10;", color)
}

/// `OSC 11 ; color ST`: sets the default background color.
pub fn set_default_bg_color(color: Rgb) -> (res: String)
    ensures
        res@ == "\x1b]11;"@ + color_spec(color) + "\x1b\\"@,
{
    osc_color("\x1b]11;", color)
}

/// `OSC 12 ; color ST`: sets the color of the cursor.
pub fn set_cursor_color(color: Rgb) -> (res: String)
    ensures
        res@ == "\x1b]12;"@ + color_spec(color) + "\x1b\\"@,
{
    osc_color("\x1b]12;", color)
}

// Clipboard selections.

/// A selection buffer of the terminal.
#[derive(Clone, Debug, Copy, PartialEq, Eq, Structural)]
pub enum Selection {
    Clipboard,
    Primary,
    Secondary,
    /// Either `Primary` or `Clipboard`, whichever is configured as default.
    Select,
    Cut0,
    Cut1,
    Cut2,
    Cut3,
    Cut4,
    Cut5,
    Cut6,
    Cut7,
}

/// The character that names a selection buffer in `OSC 52`.
pub open spec fn selection_char(sel: Selection) -> char {
    match sel {
        Selection::Clipboard => 'c',
        Selection::Primary => 'p',
        Selection::Secondary => 'q',
        Selection::Select => 's',
        Selection::Cut0 => '0',
        Selection::Cut1 => '1',
        Selection::Cut2 => '2',
        Selection::Cut3 => '3',
        Selection::Cut4 => '4',
        Selection::Cut5 => '5',
        Selection::Cut6 => '6',
        Selection::Cut7 => '7',
    }
}

/// The names of the given selection buffers, in order.
pub open spec fn selection_chars(sel: Seq<Selection>) -> Seq<char> {
    sel.map_values(|s: Selection| selection_char(s))
}

/// The start of `OSC 52` for the given buffers, up to the data.
pub open spec fn selection_prefix(sel: Seq<Selection>) -> Seq<char> {
    "\x1b]52;"@ + selection_chars(sel) + seq![';']
}

impl Selection {
    /// The character that names this buffer.
    pub fn get_char(&self) -> (c: char)
        ensures
            c == selection_char(*self),
    {
        match self {
            Selection::Clipboard => 'c',
            Selection::Primary => 'p',
            Selection::Secondary => 'q',
            Selection::Select => 's',
            Selection::Cut0 => '0',
            Selection::Cut1 => '1',
            Selection::Cut2 => '2',
            Selection::Cut3 => '3',
            Selection::Cut4 => '4',
            Selection::Cut5 => '5',
            Selection::Cut6 => '6',
            Selection::Cut7 => '7',
        }
    }
}

fn prepare_selection(sel: &[Selection]) -> (res: String)
    ensures
        res@ == selection_prefix(sel@),
{
    let mut res = String::new();
    push_str(&mut res, "\x1b]52;");
    let ghost start = res@;
    let mut i: usize = 0;
    while i < sel.len()
        invariant
            i <= sel@.len(),
            start == "\x1b]52;"@,
            res@ == start + selection_chars(sel@.take(i as int)),
        decreases sel@.len() - i,
    {
        push_char(&mut res, sel[i].get_char());
        assert(selection_chars(sel@.take(i + 1)) =~= selection_chars(sel@.take(i as int)).push(
            selection_char(sel@[i as int]),
        ));
        i = i + 1;
    }
    assert(sel@.take(sel@.len() as int) =~= sel@);
    push_char(&mut res, ';');
    res
}

/// Asks for the content of the first available of the given buffers (the
/// default buffer when none is given).
pub fn request_selection(sel: &[Selection]) -> (res: String)
    ensures
        res@ == selection_prefix(sel@) + "?\x1b\\"@,
{
    let mut res = prepare_selection(sel);
    push_str(&mut res, "?\x1b\\");
    res
}

/// The character of a six bit value in the standard base64 alphabet:
/// `A`-`Z`, `a`-`z`, `0`-`9`, `+` and `/`.
pub open spec fn base64_char(v: nat) -> char {
    if v < 26 {
        ('A' as nat + v) as char
    } else if v < 52 {
        ('a' as nat + (v - 26)) as char
    } else if v < 62 {
        ('0' as nat + (v - 52)) as char
    } else if v == 62 {
        '+'
    } else {
        '/'
    }
}

/// The standard base64 encoding of the bytes, with padding: each group of
/// three bytes gives four characters of six bits each; a last group of one
/// or two bytes is completed with zero bits and padded with `=` to four
/// characters.
pub open spec fn base64_standard(data: Seq<u8>) -> Seq<char>
    decreases data.len(),
{
    if data.len() == 0 {
        seq![]
    } else if data.len() == 1 {
        let a = data[0] as nat;
        seq![base64_char(a / 4), base64_char((a % 4) * 16), '=', '=']
    } else if data.len() == 2 {
        let a = data[0] as nat;
        let b = data[1] as nat;
        seq![base64_char(a / 4), base64_char((a % 4) * 16 + b / 16), base64_char((b % 16) * 4), '=']
    } else {
        let a = data[0] as nat;
        let b = data[1] as nat;
        let c = data[2] as nat;
        seq![
            base64_char(a / 4),
            base64_char((a % 4) * 16 + b / 16),
            base64_char((b % 16) * 4 + c / 64),
            base64_char(c % 64),
        ] + base64_standard(data.subrange(3, data.len() as int))
    }
}

/// Base64 takes four characters for each started group of three bytes.
pub proof fn lemma_base64_len(data: Seq<u8>)
    ensures
        base64_standard(data).len() == 4 * ((data.len() + 2) / 3),
    decreases data.len(),
{
    if data.len() >= 3 {
        let rest = data.subrange(3, data.len() as int);
        lemma_base64_len(rest);
        assert((data.len() + 2) / 3 == (rest.len() + 2) / 3 + 1);
    }
}

/// Calls `Engine::encode_string` of `base64::prelude::BASE64_STANDARD`, which
/// appends the standard, padded base64 encoding of `data` to `out`. The
/// contract claims that it appends exactly that encoding, as
/// `base64_standard` writes it out.
#[verifier::external_body]
fn base64_encode_append(data: &[u8], out: &mut String)
    ensures
        final(out)@ == old(out)@ + base64_standard(data@),
{
    base64::prelude::BASE64_STANDARD.encode_string(data, out);
}

/// Sets the given buffers (the default ones when none is given) to the data
/// whose base64 encoding is `encoded`.
pub fn set_selection_encoded(sel: &[Selection], encoded: &str) -> (res: String)
    ensures
        res@ == selection_prefix(sel@) + encoded@ + "\x1b\\"@,
{
    let mut res = prepare_selection(sel);
    push_str(&mut res, encoded);
    push_str(&mut res, "\x1b\\");
    res
}

/// Sets the given buffers (the default ones when none is given) to `data`.
pub fn set_selection(sel: &[Selection], data: &[u8]) -> (res: String)
    ensures
        res@ == selection_prefix(sel@) + base64_standard(data@) + "\x1b\\"@,
{
    let mut encoded = String::new();
    base64_encode_append(data, &mut encoded);
    assert(encoded@ =~= base64_standard(data@));
    set_selection_encoded(sel, encoded.as_str())
}

// Owned strings.

/// Turns a string slice or a string into an owned string.
pub trait GetString {
    /// The characters of the value.
    spec fn chars_of(&self) -> Seq<char>;

    /// The value as an owned string.
    fn get_string(self) -> (res: String)
        ensures
            res@ == self.chars_of(),
    ;
}

impl GetString for &str {
    open spec fn chars_of(&self) -> Seq<char> {
        (*self)@
    }

    fn get_string(self) -> (res: String) {
        self.to_owned()
    }
}

impl GetString for String {
    open spec fn chars_of(&self) -> Seq<char> {
        self@
    }

    fn get_string(self) -> (res: String) {
        self
    }
}

// Resetting the terminal.

/// The codes that put the terminal back to its usual state: styles and
/// colors reset, line wrap on, cursor shown, mouse and focus reports off,
/// scroll region reset, main buffer, normal colors and no bracketed paste.
pub open spec fn reset_terminal_text() -> Seq<char> {
    RESET@
        + ENABLE_LINE_WRAP@
        + SHOW_CURSOR@
        + DISABLE_MOUSE_XY_UTF8_EXT@
        + DISABLE_MOUSE_XY_EXT@
        + DISABLE_MOUSE_XY_URXVT_EXT@
        + DISABLE_MOUSE_XY_PIX_EXT@
        + DISABLE_MOUSE_XY_TRACKING@
        + DISABLE_MOUSE_XY_PR_TRACKING@
        + DISABLE_MOUSE_XY_DRAG_TRACKING@
        + DISABLE_MOUSE_XY_ALL_TRACKING@
        + DISABLE_FOCUS_EVENT@
        + CUR_SAVE@
        + RESET_SCROLL_REGION@
        + CUR_LOAD@
        + DISABLE_ALTERNATIVE_BUFFER@
        + DISABLE_REVERSE_COLOR@
        + DISABLE_BRACKETED_PASTE_MODE@
        + RESET_ALL_COLOR_CODES@
        + RESET_DEFAULT_FG_COLOR@
        + RESET_DEFAULT_BG_COLOR@
        + RESET_CURSOR_COLOR@
}

/// A DEC private mode setting `CSI ? n h` (on) or `CSI ? n l` (off).
pub open spec fn dec_mode(n: nat, on: bool) -> Seq<char> {
    "\x1b[?"@ + decimal(n) + (if on {
        "h"@
    } else {
        "l"@
    })
}

/// The usual state of a DEC private mode: line wrapping (7) and the shown
/// cursor (25) are on; reverse colors (5), mouse reports (9, 1000 to 1006,
/// 1015, 1016), focus reports (1004), the alternative buffer (1049) and
/// bracketed paste (2004) are off, as are all others.
pub open spec fn mode_usually_on(n: nat) -> bool {
    n == 7 || n == 25
}

/// The codes that change no mode: reset of styles, cursor save and load,
/// reset of the scroll region and resets of the defined colors.
pub open spec fn modeless_reset(c: Seq<char>) -> bool {
    c == "\x1b[0m"@
        || c == "\x1b7"@
        || c == "\x1b[0;0r"@
        || c == "\x1b8"@
        || c == "\x1b]104\x1b\\"@
        || c == "\x1b]110\x1b\\"@
        || c == "\x1b]111\x1b\\"@
        || c == "\x1b]112\x1b\\"@
}

/// A part of a reset: a code that changes no mode, or one that puts a DEC
/// private mode in its usual state.
pub open spec fn reset_part(c: Seq<char>) -> bool {
    modeless_reset(c) || exists|n: nat| c == #[trigger] dec_mode(n, mode_usually_on(n))
}

/// The reset puts the terminal back to its usual state: it is made of codes
/// each of which changes no mode or puts a mode in its usual state, and it
/// sets line wrapping and the cursor on and the mouse reports, focus
/// reports, alternative buffer, reverse colors and bracketed paste off.
pub proof fn lemma_reset_restores_modes()
    ensures
        exists|parts: Seq<Seq<char>>|
            #![trigger parts.flatten()]
            {
                &&& parts.flatten() == reset_terminal_text()
                &&& forall|i: int| 0 <= i < parts.len() ==> reset_part(#[trigger] parts[i])
                &&& parts.contains(dec_mode(7, true))
                &&& parts.contains(dec_mode(25, true))
                &&& parts.contains(dec_mode(1005, false))
                &&& parts.contains(dec_mode(1006, false))
                &&& parts.contains(dec_mode(1015, false))
                &&& parts.contains(dec_mode(1016, false))
                &&& parts.contains(dec_mode(9, false))
                &&& parts.contains(dec_mode(1000, false))
                &&& parts.contains(dec_mode(1002, false))
                &&& parts.contains(dec_mode(1003, false))
                &&& parts.contains(dec_mode(1004, false))
                &&& parts.contains(dec_mode(1049, false))
                &&& parts.contains(dec_mode(5, false))
                &&& parts.contains(dec_mode(2004, false))
            },
{
    reveal_strlit("\x1b[?");
    reveal_strlit("h");
    reveal_strlit("l");
    reveal_with_fuel(decimal, 5);
    reveal_strlit("\x1b[0m");
    reveal_strlit("\x1b[?7h");
    reveal_strlit("\x1b[?25h");
    reveal_strlit("\x1b[?1005l");
    reveal_strlit("\x1b[?1006l");
    reveal_strlit("\x1b[?1015l");
    reveal_strlit("\x1b[?1016l");
    reveal_strlit("\x1b[?9l");
    reveal_strlit("\x1b[?1000l");
    reveal_strlit("\x1b[?1002l");
    reveal_strlit("\x1b[?1003l");
    reveal_strlit("\x1b[?1004l");
    reveal_strlit("\x1b7");
    reveal_strlit("\x1b[0;0r");
    reveal_strlit("\x1b8");
    reveal_strlit("\x1b[?1049l");
    reveal_strlit("\x1b[?5l");
    reveal_strlit("\x1b[?2004l");
    reveal_strlit("\x1b]104\x1b\\");
    reveal_strlit("\x1b]110\x1b\\");
    reveal_strlit("\x1b]111\x1b\\");
    reveal_strlit("\x1b]112\x1b\\");
    assert(ENABLE_LINE_WRAP@ =~= dec_mode(7, true));
    assert(SHOW_CURSOR@ =~= dec_mode(25, true));
    assert(DISABLE_MOUSE_XY_UTF8_EXT@ =~= dec_mode(1005, false));
    assert(DISABLE_MOUSE_XY_EXT@ =~= dec_mode(1006, false));
    assert(DISABLE_MOUSE_XY_URXVT_EXT@ =~= dec_mode(1015, false));
    assert(DISABLE_MOUSE_XY_PIX_EXT@ =~= dec_mode(1016, false));
    assert(DISABLE_MOUSE_XY_TRACKING@ =~= dec_mode(9, false));
    assert(DISABLE_MOUSE_XY_PR_TRACKING@ =~= dec_mode(1000, false));
    assert(DISABLE_MOUSE_XY_DRAG_TRACKING@ =~= dec_mode(1002, false));
    assert(DISABLE_MOUSE_XY_ALL_TRACKING@ =~= dec_mode(1003, false));
    assert(DISABLE_FOCUS_EVENT@ =~= dec_mode(1004, false));
    assert(DISABLE_ALTERNATIVE_BUFFER@ =~= dec_mode(1049, false));
    assert(DISABLE_REVERSE_COLOR@ =~= dec_mode(5, false));
    assert(DISABLE_BRACKETED_PASTE_MODE@ =~= dec_mode(2004, false));
    let p0 = seq![RESET@];
    assert(p0.drop_last() =~= Seq::<Seq<char>>::empty());
    assert(Seq::<Seq<char>>::empty().flatten_alt() =~= Seq::<char>::empty());
    assert(Seq::<char>::empty() + RESET@ =~= RESET@);
    assert(p0.flatten_alt() =~= RESET@);
    let p1 = p0.push(ENABLE_LINE_WRAP@);
    assert(p1.drop_last() =~= p0);
    assert(p1.flatten_alt() == p0.flatten_alt() + ENABLE_LINE_WRAP@);
    let p2 = p1.push(SHOW_CURSOR@);
    assert(p2.drop_last() =~= p1);
    assert(p2.flatten_alt() == p1.flatten_alt() + SHOW_CURSOR@);
    let p3 = p2.push(DISABLE_MOUSE_XY_UTF8_EXT@);
    assert(p3.drop_last() =~= p2);
    assert(p3.flatten_alt() == p2.flatten_alt() + DISABLE_MOUSE_XY_UTF8_EXT@);
    let p4 = p3.push(DISABLE_MOUSE_XY_EXT@);
    assert(p4.drop_last() =~= p3);
    assert(p4.flatten_alt() == p3.flatten_alt() + DISABLE_MOUSE_XY_EXT@);
    let p5 = p4.push(DISABLE_MOUSE_XY_URXVT_EXT@);
    assert(p5.drop_last() =~= p4);
    assert(p5.flatten_alt() == p4.flatten_alt() + DISABLE_MOUSE_XY_URXVT_EXT@);
    let p6 = p5.push(DISABLE_MOUSE_XY_PIX_EXT@);
    assert(p6.drop_last() =~= p5);
    assert(p6.flatten_alt() == p5.flatten_alt() + DISABLE_MOUSE_XY_PIX_EXT@);
    let p7 = p6.push(DISABLE_MOUSE_XY_TRACKING@);
    assert(p7.drop_last() =~= p6);
    assert(p7.flatten_alt() == p6.flatten_alt() + DISABLE_MOUSE_XY_TRACKING@);
    let p8 = p7.push(DISABLE_MOUSE_XY_PR_TRACKING@);
    assert(p8.drop_last() =~= p7);
    assert(p8.flatten_alt() == p7.flatten_alt() + DISABLE_MOUSE_XY_PR_TRACKING@);
    let p9 = p8.push(DISABLE_MOUSE_XY_DRAG_TRACKING@);
    assert(p9.drop_last() =~= p8);
    assert(p9.flatten_alt() == p8.flatten_alt() + DISABLE_MOUSE_XY_DRAG_TRACKING@);
    let p10 = p9.push(DISABLE_MOUSE_XY_ALL_TRACKING@);
    assert(p10.drop_last() =~= p9);
    assert(p10.flatten_alt() == p9.flatten_alt() + DISABLE_MOUSE_XY_ALL_TRACKING@);
    let p11 = p10.push(DISABLE_FOCUS_EVENT@);
    assert(p11.drop_last() =~= p10);
    assert(p11.flatten_alt() == p10.flatten_alt() + DISABLE_FOCUS_EVENT@);
    let p12 = p11.push(CUR_SAVE@);
    assert(p12.drop_last() =~= p11);
    assert(p12.flatten_alt() == p11.flatten_alt() + CUR_SAVE@);
    let p13 = p12.push(RESET_SCROLL_REGION@);
    assert(p13.drop_last() =~= p12);
    assert(p13.flatten_alt() == p12.flatten_alt() + RESET_SCROLL_REGION@);
    let p14 = p13.push(CUR_LOAD@);
    assert(p14.drop_last() =~= p13);
    assert(p14.flatten_alt() == p13.flatten_alt() + CUR_LOAD@);
    let p15 = p14.push(DISABLE_ALTERNATIVE_BUFFER@);
    assert(p15.drop_last() =~= p14);
    assert(p15.flatten_alt() == p14.flatten_alt() + DISABLE_ALTERNATIVE_BUFFER@);
    let p16 = p15.push(DISABLE_REVERSE_COLOR@);
    assert(p16.drop_last() =~= p15);
    assert(p16.flatten_alt() == p15.flatten_alt() + DISABLE_REVERSE_COLOR@);
    let p17 = p16.push(DISABLE_BRACKETED_PASTE_MODE@);
    assert(p17.drop_last() =~= p16);
    assert(p17.flatten_alt() == p16.flatten_alt() + DISABLE_BRACKETED_PASTE_MODE@);
    let p18 = p17.push(RESET_ALL_COLOR_CODES@);
    assert(p18.drop_last() =~= p17);
    assert(p18.flatten_alt() == p17.flatten_alt() + RESET_ALL_COLOR_CODES@);
    let p19 = p18.push(RESET_DEFAULT_FG_COLOR@);
    assert(p19.drop_last() =~= p18);
    assert(p19.flatten_alt() == p18.flatten_alt() + RESET_DEFAULT_FG_COLOR@);
    let p20 = p19.push(RESET_DEFAULT_BG_COLOR@);
    assert(p20.drop_last() =~= p19);
    assert(p20.flatten_alt() == p19.flatten_alt() + RESET_DEFAULT_BG_COLOR@);
    let p21 = p20.push(RESET_CURSOR_COLOR@);
    assert(p21.drop_last() =~= p20);
    assert(p21.flatten_alt() == p20.flatten_alt() + RESET_CURSOR_COLOR@);
    let parts = p21;
    parts.lemma_flatten_and_flatten_alt_are_equivalent();
    assert(parts.flatten() == reset_terminal_text());
    assert(parts[0] == RESET@);
    assert(reset_part(parts[0]));
    assert(parts[1] == ENABLE_LINE_WRAP@);
    assert(reset_part(parts[1])) by {
        assert(parts[1] == dec_mode(7, mode_usually_on(7)));
    }
    assert(parts[2] == SHOW_CURSOR@);
    assert(reset_part(parts[2])) by {
        assert(parts[2] == dec_mode(25, mode_usually_on(25)));
    }
    assert(parts[3] == DISABLE_MOUSE_XY_UTF8_EXT@);
    assert(reset_part(parts[3])) by {
        assert(parts[3] == dec_mode(1005, mode_usually_on(1005)));
    }
    assert(parts[4] == DISABLE_MOUSE_XY_EXT@);
    assert(reset_part(parts[4])) by {
        assert(parts[4] == dec_mode(1006, mode_usually_on(1006)));
    }
    assert(parts[5] == DISABLE_MOUSE_XY_URXVT_EXT@);
    assert(reset_part(parts[5])) by {
        assert(parts[5] == dec_mode(1015, mode_usually_on(1015)));
    }
    assert(parts[6] == DISABLE_MOUSE_XY_PIX_EXT@);
    assert(reset_part(parts[6])) by {
        assert(parts[6] == dec_mode(1016, mode_usually_on(1016)));
    }
    assert(parts[7] == DISABLE_MOUSE_XY_TRACKING@);
    assert(reset_part(parts[7])) by {
        assert(parts[7] == dec_mode(9, mode_usually_on(9)));
    }
    assert(parts[8] == DISABLE_MOUSE_XY_PR_TRACKING@);
    assert(reset_part(parts[8])) by {
        assert(parts[8] == dec_mode(1000, mode_usually_on(1000)));
    }
    assert(parts[9] == DISABLE_MOUSE_XY_DRAG_TRACKING@);
    assert(reset_part(parts[9])) by {
        assert(parts[9] == dec_mode(1002, mode_usually_on(1002)));
    }
    assert(parts[10] == DISABLE_MOUSE_XY_ALL_TRACKING@);
    assert(reset_part(parts[10])) by {
        assert(parts[10] == dec_mode(1003, mode_usually_on(1003)));
    }
    assert(parts[11] == DISABLE_FOCUS_EVENT@);
    assert(reset_part(parts[11])) by {
        assert(parts[11] == dec_mode(1004, mode_usually_on(1004)));
    }
    assert(parts[12] == CUR_SAVE@);
    assert(reset_part(parts[12]));
    assert(parts[13] == RESET_SCROLL_REGION@);
    assert(reset_part(parts[13]));
    assert(parts[14] == CUR_LOAD@);
    assert(reset_part(parts[14]));
    assert(parts[15] == DISABLE_ALTERNATIVE_BUFFER@);
    assert(reset_part(parts[15])) by {
        assert(parts[15] == dec_mode(1049, mode_usually_on(1049)));
    }
    assert(parts[16] == DISABLE_REVERSE_COLOR@);
    assert(reset_part(parts[16])) by {
        assert(parts[16] == dec_mode(5, mode_usually_on(5)));
    }
    assert(parts[17] == DISABLE_BRACKETED_PASTE_MODE@);
    assert(reset_part(parts[17])) by {
        assert(parts[17] == dec_mode(2004, mode_usually_on(2004)));
    }
    assert(parts[18] == RESET_ALL_COLOR_CODES@);
    assert(reset_part(parts[18]));
    assert(parts[19] == RESET_DEFAULT_FG_COLOR@);
    assert(reset_part(parts[19]));
    assert(parts[20] == RESET_DEFAULT_BG_COLOR@);
    assert(reset_part(parts[20]));
    assert(parts[21] == RESET_CURSOR_COLOR@);
    assert(reset_part(parts[21]));
    assert forall|i: int| 0 <= i < parts.len() implies reset_part(#[trigger] parts[i]) by {
        assert(0 <= i < 22);
        if i == 0 {
        } else if i == 1 {
        } else if i == 2 {
        } else if i == 3 {
        } else if i == 4 {
        } else if i == 5 {
        } else if i == 6 {
        } else if i == 7 {
        } else if i == 8 {
        } else if i == 9 {
        } else if i == 10 {
        } else if i == 11 {
        } else if i == 12 {
        } else if i == 13 {
        } else if i == 14 {
        } else if i == 15 {
        } else if i == 16 {
        } else if i == 17 {
        } else if i == 18 {
        } else if i == 19 {
        } else if i == 20 {
        } else if i == 21 {
}
    }
    assert(parts[1] == dec_mode(7, true));
    assert(parts[2] == dec_mode(25, true));
    assert(parts[3] == dec_mode(1005, false));
    assert(parts[4] == dec_mode(1006, false));
    assert(parts[5] == dec_mode(1015, false));
    assert(parts[6] == dec_mode(1016, false));
    assert(parts[7] == dec_mode(9, false));
    assert(parts[8] == dec_mode(1000, false));
    assert(parts[9] == dec_mode(1002, false));
    assert(parts[10] == dec_mode(1003, false));
    assert(parts[11] == dec_mode(1004, false));
    assert(parts[15] == dec_mode(1049, false));
    assert(parts[16] == dec_mode(5, false));
    assert(parts[17] == dec_mode(2004, false));
}

/// The codes that put the terminal back to its usual state, in one string.
pub fn reset_terminal_codes() -> (s: String)
    ensures
        s@ == reset_terminal_text(),
{
    let mut s = String::new();
    push_str(&mut s, RESET);
    push_str(&mut s, ENABLE_LINE_WRAP);
    push_str(&mut s, SHOW_CURSOR);
    push_str(&mut s, DISABLE_MOUSE_XY_UTF8_EXT);
    push_str(&mut s, DISABLE_MOUSE_XY_EXT);
    push_str(&mut s, DISABLE_MOUSE_XY_URXVT_EXT);
    push_str(&mut s, DISABLE_MOUSE_XY_PIX_EXT);
    push_str(&mut s, DISABLE_MOUSE_XY_TRACKING);
    push_str(&mut s, DISABLE_MOUSE_XY_PR_TRACKING);
    push_str(&mut s, DISABLE_MOUSE_XY_DRAG_TRACKING);
    push_str(&mut s, DISABLE_MOUSE_XY_ALL_TRACKING);
    push_str(&mut s, DISABLE_FOCUS_EVENT);
    push_str(&mut s, CUR_SAVE);
    push_str(&mut s, RESET_SCROLL_REGION);
    push_str(&mut s, CUR_LOAD);
    push_str(&mut s, DISABLE_ALTERNATIVE_BUFFER);
    push_str(&mut s, DISABLE_REVERSE_COLOR);
    push_str(&mut s, DISABLE_BRACKETED_PASTE_MODE);
    push_str(&mut s, RESET_ALL_COLOR_CODES);
    push_str(&mut s, RESET_DEFAULT_FG_COLOR);
    push_str(&mut s, RESET_DEFAULT_BG_COLOR);
    push_str(&mut s, RESET_CURSOR_COLOR);
    s
}

} // verus!
