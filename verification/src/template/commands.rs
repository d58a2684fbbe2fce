//! The commands of templates that stand for a fixed escape code.

use vstd::prelude::*;

use crate::codes::{BLACK_BG, BLACK_FG, BLINKING, BLUE_BG, BLUE_DARK_BG, BLUE_DARK_FG, BLUE_FG, BOLD, CLEAR, CUR_LOAD, CUR_SAVE, CYAN_BG, CYAN_DARK_BG, CYAN_DARK_FG, CYAN_FG, DISABLE_ALTERNATIVE_BUFFER, DISABLE_LINE_WRAP, DOUBLE_UNDERLINE, ENABLE_ALTERNATIVE_BUFFER, ENABLE_LINE_WRAP, ERASE_ALL, ERASE_FROM_LN_START, ERASE_FROM_START, ERASE_LINE, ERASE_SCREEN, ERASE_TO_END, ERASE_TO_LN_END, FAINT, GRAY_BG, GRAY_BRIGHT_BG, GRAY_BRIGHT_FG, GRAY_FG, GREEN_BG, GREEN_DARK_BG, GREEN_DARK_FG, GREEN_FG, HIDE_CURSOR, INVERSE, INVISIBLE, ITALIC, LOAD_SCREEN, MAGENTA_BG, MAGENTA_DARK_BG, MAGENTA_DARK_FG, MAGENTA_FG, OVERLINE, RED_BG, RED_DARK_BG, RED_DARK_FG, RED_FG, RESET, RESET_BG, RESET_BLINKING, RESET_BOLD, RESET_FG, RESET_INVERSE, RESET_INVISIBLE, RESET_ITALIC, RESET_OVERLINE, RESET_STRIKETROUGH, RESET_UNDERLINE, RESET_UNDERLINE_COLOR, SAVE_SCREEN, SHOW_CURSOR, STRIKETROUGH, UNDERLINE, UP_SCRL, WHITE_BG, WHITE_FG, YELLOW_BG, YELLOW_DARK_BG, YELLOW_DARK_FG, YELLOW_FG};

verus! {

/// Whether the characters are those of the string slice.
pub fn eq_lit(a: &Vec<char>, lit: &str) -> (r: bool)
    ensures
        r == (a@ == lit@),
{
    let n = lit.unicode_len();
    if a.len() != n {
        return false;
    }
    let mut i: usize = 0;
    while i < n
        invariant
            i <= n,
            n == lit@.len(),
            a@.len() == n,
            forall|j: int| 0 <= j < i ==> a@[j] == lit@[j],
        decreases n - i,
    {
        if a[i] != lit.get_char(i) {
            return false;
        }
        i = i + 1;
    }
    assert(a@ =~= lit@);
    true
}

/// Single character controls.
pub open spec fn ascii_code(n: Seq<char>) -> Option<Seq<char>> {
    if n == "bell"@ {
        Some("\x07"@)
    } else if n == "backspace"@ {
        Some("\x08"@)
    } else if n == "htab"@ || n == "tab"@ {
        Some("\t"@)
    } else if n == "move_down_scrl"@ || n == "mds"@ {
        Some("\n"@)
    } else if n == "newline"@ || n == "nl"@ {
        Some("\n\r"@)
    } else if n == "vtab"@ {
        Some("\x0b"@)
    } else if n == "carriage_return"@ || n == "cr"@ {
        Some("\r"@)
    } else if n == "delete"@ || n == "del"@ {
        Some("\x7f"@)
    } else {
        None
    }
}

fn ascii_command(n: &Vec<char>) -> (r: Option<&'static str>)
    ensures
        r is Some <==> ascii_code(n@) is Some,
        r is Some ==> r->0@ == ascii_code(n@)->0,
{
    if eq_lit(n, "bell") {
        Some("\x07")
    } else if eq_lit(n, "backspace") {
        Some("\x08")
    } else if eq_lit(n, "htab") || eq_lit(n, "tab") {
        Some("\t")
    } else if eq_lit(n, "move_down_scrl") || eq_lit(n, "mds") {
        Some("\n")
    } else if eq_lit(n, "newline") || eq_lit(n, "nl") {
        Some("\n\r")
    } else if eq_lit(n, "vtab") {
        Some("\x0b")
    } else if eq_lit(n, "carriage_return") || eq_lit(n, "cr") {
        Some("\r")
    } else if eq_lit(n, "delete") || eq_lit(n, "del") {
        Some("\x7f")
    } else {
        None
    }
}

/// Cursor saving, scrolling and erasing.
pub open spec fn cursor_code(n: Seq<char>) -> Option<Seq<char>> {
    if n == "move_up_scrl"@ || n == "mus"@ {
        Some(UP_SCRL@)
    } else if n == "save_cur"@ || n == "save"@ || n == "s"@ {
        Some(CUR_SAVE@)
    } else if n == "load_cur"@ || n == "load"@ || n == "l"@ {
        Some(CUR_LOAD@)
    } else if n == "erase_to_end"@ || n == "e_"@ {
        Some(ERASE_TO_END@)
    } else if n == "erase_from_start"@ || n == "_e"@ {
        Some(ERASE_FROM_START@)
    } else if n == "erase_screen"@ || n == "_e_"@ {
        Some(ERASE_SCREEN@)
    } else if n == "erase_all"@ || n == "e"@ {
        Some(ERASE_ALL@)
    } else if n == "erase_ln_end"@ || n == "el_"@ {
        Some(ERASE_TO_LN_END@)
    } else if n == "erase_ln_start"@ || n == "_el"@ {
        Some(ERASE_FROM_LN_START@)
    } else if n == "erase_line"@ || n == "erase_ln"@ || n == "_el_"@ || n == "el"@ {
        Some(ERASE_LINE@)
    } else if n == "clear"@ || n == "cls"@ {
        Some(CLEAR@)
    } else {
        None
    }
}

fn cursor_command(n: &Vec<char>) -> (r: Option<&'static str>)
    ensures
        r is Some <==> cursor_code(n@) is Some,
        r is Some ==> r->0@ == cursor_code(n@)->0,
{
    if eq_lit(n, "move_up_scrl") || eq_lit(n, "mus") {
        Some(UP_SCRL)
    } else if eq_lit(n, "save_cur") || eq_lit(n, "save") || eq_lit(n, "s") {
        Some(CUR_SAVE)
    } else if eq_lit(n, "load_cur") || eq_lit(n, "load") || eq_lit(n, "l") {
        Some(CUR_LOAD)
    } else if eq_lit(n, "erase_to_end") || eq_lit(n, "e_") {
        Some(ERASE_TO_END)
    } else if eq_lit(n, "erase_from_start") || eq_lit(n, "_e") {
        Some(ERASE_FROM_START)
    } else if eq_lit(n, "erase_screen") || eq_lit(n, "_e_") {
        Some(ERASE_SCREEN)
    } else if eq_lit(n, "erase_all") || eq_lit(n, "e") {
        Some(ERASE_ALL)
    } else if eq_lit(n, "erase_ln_end") || eq_lit(n, "el_") {
        Some(ERASE_TO_LN_END)
    } else if eq_lit(n, "erase_ln_start") || eq_lit(n, "_el") {
        Some(ERASE_FROM_LN_START)
    } else if eq_lit(n, "erase_line") || eq_lit(n, "erase_ln") || eq_lit(n, "_el_") || eq_lit(n, "el") {
        Some(ERASE_LINE)
    } else if eq_lit(n, "clear") || eq_lit(n, "cls") {
        Some(CLEAR)
    } else {
        None
    }
}

/// Text styles and their resets.
pub open spec fn style_code(n: Seq<char>) -> Option<Seq<char>> {
    if n == "reset"@ || n == "_"@ {
        Some(RESET@)
    } else if n == "bold"@ {
        Some(BOLD@)
    } else if n == "faint"@ || n == "f"@ {
        Some(FAINT@)
    } else if n == "italic"@ || n == "i"@ {
        Some(ITALIC@)
    } else if n == "underline"@ || n == "u"@ {
        Some(UNDERLINE@)
    } else if n == "blinking"@ || n == "blink"@ {
        Some(BLINKING@)
    } else if n == "inverse"@ {
        Some(INVERSE@)
    } else if n == "invisible"@ || n == "invis"@ {
        Some(INVISIBLE@)
    } else if n == "striketrough"@ || n == "strike"@ {
        Some(STRIKETROUGH@)
    } else if n == "double_underline"@ || n == "dunderline"@ || n == "dun"@ {
        Some(DOUBLE_UNDERLINE@)
    } else if n == "overline"@ || n == "ol"@ {
        Some(OVERLINE@)
    } else if n == "_bold"@ {
        Some(RESET_BOLD@)
    } else if n == "_italic"@ || n == "_i"@ {
        Some(RESET_ITALIC@)
    } else if n == "_underline"@ || n == "_u"@ {
        Some(RESET_UNDERLINE@)
    } else if n == "_blinking"@ || n == "_blink"@ {
        Some(RESET_BLINKING@)
    } else if n == "_inverse"@ {
        Some(RESET_INVERSE@)
    } else if n == "_invisible"@ || n == "_invis"@ {
        Some(RESET_INVISIBLE@)
    } else if n == "_striketrough"@ || n == "_strike"@ {
        Some(RESET_STRIKETROUGH@)
    } else if n == "_overline"@ || n == "_ol"@ {
        Some(RESET_OVERLINE@)
    } else {
        None
    }
}

fn style_command(n: &Vec<char>) -> (r: Option<&'static str>)
    ensures
        r is Some <==> style_code(n@) is Some,
        r is Some ==> r->0@ == style_code(n@)->0,
{
    if eq_lit(n, "reset") || eq_lit(n, "_") {
        Some(RESET)
    } else if eq_lit(n, "bold") {
        Some(BOLD)
    } else if eq_lit(n, "faint") || eq_lit(n, "f") {
        Some(FAINT)
    } else if eq_lit(n, "italic") || eq_lit(n, "i") {
        Some(ITALIC)
    } else if eq_lit(n, "underline") || eq_lit(n, "u") {
        Some(UNDERLINE)
    } else if eq_lit(n, "blinking") || eq_lit(n, "blink") {
        Some(BLINKING)
    } else if eq_lit(n, "inverse") {
        Some(INVERSE)
    } else if eq_lit(n, "invisible") || eq_lit(n, "invis") {
        Some(INVISIBLE)
    } else if eq_lit(n, "striketrough") || eq_lit(n, "strike") {
        Some(STRIKETROUGH)
    } else if eq_lit(n, "double_underline") || eq_lit(n, "dunderline") || eq_lit(n, "dun") {
        Some(DOUBLE_UNDERLINE)
    } else if eq_lit(n, "overline") || eq_lit(n, "ol") {
        Some(OVERLINE)
    } else if eq_lit(n, "_bold") {
        Some(RESET_BOLD)
    } else if eq_lit(n, "_italic") || eq_lit(n, "_i") {
        Some(RESET_ITALIC)
    } else if eq_lit(n, "_underline") || eq_lit(n, "_u") {
        Some(RESET_UNDERLINE)
    } else if eq_lit(n, "_blinking") || eq_lit(n, "_blink") {
        Some(RESET_BLINKING)
    } else if eq_lit(n, "_inverse") {
        Some(RESET_INVERSE)
    } else if eq_lit(n, "_invisible") || eq_lit(n, "_invis") {
        Some(RESET_INVISIBLE)
    } else if eq_lit(n, "_striketrough") || eq_lit(n, "_strike") {
        Some(RESET_STRIKETROUGH)
    } else if eq_lit(n, "_overline") || eq_lit(n, "_ol") {
        Some(RESET_OVERLINE)
    } else {
        None
    }
}

/// Foreground colors.
pub open spec fn fg_code(n: Seq<char>) -> Option<Seq<char>> {
    if n == "black_fg"@ || n == "black"@ || n == "bl"@ {
        Some(BLACK_FG@)
    } else if n == "white_fg"@ || n == "white"@ || n == "w"@ {
        Some(WHITE_FG@)
    } else if n == "gray_fg"@ || n == "gray"@ || n == "gr"@ {
        Some(GRAY_FG@)
    } else if n == "bright_gray_fg"@ || n == "bgray"@ || n == "bgr"@ {
        Some(GRAY_BRIGHT_FG@)
    } else if n == "red_fg"@ || n == "red"@ || n == "r"@ {
        Some(RED_FG@)
    } else if n == "green_fg"@ || n == "green"@ || n == "g"@ {
        Some(GREEN_FG@)
    } else if n == "yellow_fg"@ || n == "yellow"@ || n == "y"@ {
        Some(YELLOW_FG@)
    } else if n == "blue_fg"@ || n == "blue"@ || n == "b"@ {
        Some(BLUE_FG@)
    } else if n == "magenta_fg"@ || n == "magenta"@ || n == "m"@ {
        Some(MAGENTA_FG@)
    } else if n == "cyan_fg"@ || n == "cyan"@ || n == "c"@ {
        Some(CYAN_FG@)
    } else if n == "dark_red_fg"@ || n == "dred"@ || n == "dr"@ {
        Some(RED_DARK_FG@)
    } else if n == "dark_green_fg"@ || n == "dgreen"@ || n == "dg"@ {
        Some(GREEN_DARK_FG@)
    } else if n == "dark_yellow_fg"@ || n == "dyellow"@ || n == "dy"@ {
        Some(YELLOW_DARK_FG@)
    } else if n == "dark_blue_fg"@ || n == "dblue"@ || n == "db"@ {
        Some(BLUE_DARK_FG@)
    } else if n == "dark_magenta_fg"@ || n == "dmagenta"@ || n == "dm"@ {
        Some(MAGENTA_DARK_FG@)
    } else if n == "dark_cyan_fg"@ || n == "dcyan"@ || n == "dc"@ {
        Some(CYAN_DARK_FG@)
    } else if n == "_fg"@ {
        Some(RESET_FG@)
    } else {
        None
    }
}

fn fg_command(n: &Vec<char>) -> (r: Option<&'static str>)
    ensures
        r is Some <==> fg_code(n@) is Some,
        r is Some ==> r->0@ == fg_code(n@)->0,
{
    if eq_lit(n, "black_fg") || eq_lit(n, "black") || eq_lit(n, "bl") {
        Some(BLACK_FG)
    } else if eq_lit(n, "white_fg") || eq_lit(n, "white") || eq_lit(n, "w") {
        Some(WHITE_FG)
    } else if eq_lit(n, "gray_fg") || eq_lit(n, "gray") || eq_lit(n, "gr") {
        Some(GRAY_FG)
    } else if eq_lit(n, "bright_gray_fg") || eq_lit(n, "bgray") || eq_lit(n, "bgr") {
        Some(GRAY_BRIGHT_FG)
    } else if eq_lit(n, "red_fg") || eq_lit(n, "red") || eq_lit(n, "r") {
        Some(RED_FG)
    } else if eq_lit(n, "green_fg") || eq_lit(n, "green") || eq_lit(n, "g") {
        Some(GREEN_FG)
    } else if eq_lit(n, "yellow_fg") || eq_lit(n, "yellow") || eq_lit(n, "y") {
        Some(YELLOW_FG)
    } else if eq_lit(n, "blue_fg") || eq_lit(n, "blue") || eq_lit(n, "b") {
        Some(BLUE_FG)
    } else if eq_lit(n, "magenta_fg") || eq_lit(n, "magenta") || eq_lit(n, "m") {
        Some(MAGENTA_FG)
    } else if eq_lit(n, "cyan_fg") || eq_lit(n, "cyan") || eq_lit(n, "c") {
        Some(CYAN_FG)
    } else if eq_lit(n, "dark_red_fg") || eq_lit(n, "dred") || eq_lit(n, "dr") {
        Some(RED_DARK_FG)
    } else if eq_lit(n, "dark_green_fg") || eq_lit(n, "dgreen") || eq_lit(n, "dg") {
        Some(GREEN_DARK_FG)
    } else if eq_lit(n, "dark_yellow_fg") || eq_lit(n, "dyellow") || eq_lit(n, "dy") {
        Some(YELLOW_DARK_FG)
    } else if eq_lit(n, "dark_blue_fg") || eq_lit(n, "dblue") || eq_lit(n, "db") {
        Some(BLUE_DARK_FG)
    } else if eq_lit(n, "dark_magenta_fg") || eq_lit(n, "dmagenta") || eq_lit(n, "dm") {
        Some(MAGENTA_DARK_FG)
    } else if eq_lit(n, "dark_cyan_fg") || eq_lit(n, "dcyan") || eq_lit(n, "dc") {
        Some(CYAN_DARK_FG)
    } else if eq_lit(n, "_fg") {
        Some(RESET_FG)
    } else {
        None
    }
}

/// Background colors and the underline color reset.
pub open spec fn bg_code(n: Seq<char>) -> Option<Seq<char>> {
    if n == "black_bg"@ || n == "blackb"@ || n == "blb"@ {
        Some(BLACK_BG@)
    } else if n == "white_bg"@ || n == "whiteb"@ || n == "wb"@ {
        Some(WHITE_BG@)
    } else if n == "gray_bg"@ || n == "grayb"@ || n == "grb"@ {
        Some(GRAY_BG@)
    } else if n == "bright_gray_bg"@ || n == "bgrayb"@ || n == "bgrb"@ {
        Some(GRAY_BRIGHT_BG@)
    } else if n == "red_bg"@ || n == "redb"@ || n == "rb"@ {
        Some(RED_BG@)
    } else if n == "green_bg"@ || n == "greenb"@ || n == "gb"@ {
        Some(GREEN_BG@)
    } else if n == "yellow_bg"@ || n == "yellowb"@ || n == "yb"@ {
        Some(YELLOW_BG@)
    } else if n == "blue_bg"@ || n == "blueb"@ || n == "bb"@ {
        Some(BLUE_BG@)
    } else if n == "magenta_bg"@ || n == "magentab"@ || n == "mb"@ {
        Some(MAGENTA_BG@)
    } else if n == "cyan_bg"@ || n == "cyanb"@ || n == "cb"@ {
        Some(CYAN_BG@)
    } else if n == "dark_red_bg"@ || n == "dredb"@ || n == "drb"@ {
        Some(RED_DARK_BG@)
    } else if n == "dark_green_bg"@ || n == "dgreenb"@ || n == "dgb"@ {
        Some(GREEN_DARK_BG@)
    } else if n == "dark_yellow_bg"@ || n == "dyellowb"@ || n == "dyb"@ {
        Some(YELLOW_DARK_BG@)
    } else if n == "dark_blue_bg"@ || n == "dblueb"@ || n == "dbb"@ {
        Some(BLUE_DARK_BG@)
    } else if n == "dark_magenta_bg"@ || n == "dmagentab"@ || n == "dmb"@ {
        Some(MAGENTA_DARK_BG@)
    } else if n == "dark_cyan_bg"@ || n == "dcyanb"@ || n == "dcb"@ {
        Some(CYAN_DARK_BG@)
    } else if n == "_bg"@ {
        Some(RESET_BG@)
    } else if n == "_ucolor"@ || n == "_uc"@ {
        Some(RESET_UNDERLINE_COLOR@)
    } else {
        None
    }
}

fn bg_command(n: &Vec<char>) -> (r: Option<&'static str>)
    ensures
        r is Some <==> bg_code(n@) is Some,
        r is Some ==> r->0@ == bg_code(n@)->0,
{
    if eq_lit(n, "black_bg") || eq_lit(n, "blackb") || eq_lit(n, "blb") {
        Some(BLACK_BG)
    } else if eq_lit(n, "white_bg") || eq_lit(n, "whiteb") || eq_lit(n, "wb") {
        Some(WHITE_BG)
    } else if eq_lit(n, "gray_bg") || eq_lit(n, "grayb") || eq_lit(n, "grb") {
        Some(GRAY_BG)
    } else if eq_lit(n, "bright_gray_bg") || eq_lit(n, "bgrayb") || eq_lit(n, "bgrb") {
        Some(GRAY_BRIGHT_BG)
    } else if eq_lit(n, "red_bg") || eq_lit(n, "redb") || eq_lit(n, "rb") {
        Some(RED_BG)
    } else if eq_lit(n, "green_bg") || eq_lit(n, "greenb") || eq_lit(n, "gb") {
        Some(GREEN_BG)
    } else if eq_lit(n, "yellow_bg") || eq_lit(n, "yellowb") || eq_lit(n, "yb") {
        Some(YELLOW_BG)
    } else if eq_lit(n, "blue_bg") || eq_lit(n, "blueb") || eq_lit(n, "bb") {
        Some(BLUE_BG)
    } else if eq_lit(n, "magenta_bg") || eq_lit(n, "magentab") || eq_lit(n, "mb") {
        Some(MAGENTA_BG)
    } else if eq_lit(n, "cyan_bg") || eq_lit(n, "cyanb") || eq_lit(n, "cb") {
        Some(CYAN_BG)
    } else if eq_lit(n, "dark_red_bg") || eq_lit(n, "dredb") || eq_lit(n, "drb") {
        Some(RED_DARK_BG)
    } else if eq_lit(n, "dark_green_bg") || eq_lit(n, "dgreenb") || eq_lit(n, "dgb") {
        Some(GREEN_DARK_BG)
    } else if eq_lit(n, "dark_yellow_bg") || eq_lit(n, "dyellowb") || eq_lit(n, "dyb") {
        Some(YELLOW_DARK_BG)
    } else if eq_lit(n, "dark_blue_bg") || eq_lit(n, "dblueb") || eq_lit(n, "dbb") {
        Some(BLUE_DARK_BG)
    } else if eq_lit(n, "dark_magenta_bg") || eq_lit(n, "dmagentab") || eq_lit(n, "dmb") {
        Some(MAGENTA_DARK_BG)
    } else if eq_lit(n, "dark_cyan_bg") || eq_lit(n, "dcyanb") || eq_lit(n, "dcb") {
        Some(CYAN_DARK_BG)
    } else if eq_lit(n, "_bg") {
        Some(RESET_BG)
    } else if eq_lit(n, "_ucolor") || eq_lit(n, "_uc") {
        Some(RESET_UNDERLINE_COLOR)
    } else {
        None
    }
}

/// Terminal modes.
pub open spec fn modes_code(n: Seq<char>) -> Option<Seq<char>> {
    if n == "line_wrap"@ || n == "wrap"@ {
        Some(ENABLE_LINE_WRAP@)
    } else if n == "_line_wrap"@ || n == "_wrap"@ {
        Some(DISABLE_LINE_WRAP@)
    } else if n == "hide_cursor"@ || n == "nocur"@ {
        Some(HIDE_CURSOR@)
    } else if n == "show_cursor"@ || n == "_nocur"@ {
        Some(SHOW_CURSOR@)
    } else if n == "save_screen"@ || n == "sscr"@ {
        Some(SAVE_SCREEN@)
    } else if n == "load_screen"@ || n == "lscr"@ {
        Some(LOAD_SCREEN@)
    } else if n == "alt_buf"@ || n == "abuf"@ {
        Some(ENABLE_ALTERNATIVE_BUFFER@)
    } else if n == "_alt_buf"@ || n == "_abuf"@ {
        Some(DISABLE_ALTERNATIVE_BUFFER@)
    } else {
        None
    }
}

fn modes_command(n: &Vec<char>) -> (r: Option<&'static str>)
    ensures
        r is Some <==> modes_code(n@) is Some,
        r is Some ==> r->0@ == modes_code(n@)->0,
{
    if eq_lit(n, "line_wrap") || eq_lit(n, "wrap") {
        Some(ENABLE_LINE_WRAP)
    } else if eq_lit(n, "_line_wrap") || eq_lit(n, "_wrap") {
        Some(DISABLE_LINE_WRAP)
    } else if eq_lit(n, "hide_cursor") || eq_lit(n, "nocur") {
        Some(HIDE_CURSOR)
    } else if eq_lit(n, "show_cursor") || eq_lit(n, "_nocur") {
        Some(SHOW_CURSOR)
    } else if eq_lit(n, "save_screen") || eq_lit(n, "sscr") {
        Some(SAVE_SCREEN)
    } else if eq_lit(n, "load_screen") || eq_lit(n, "lscr") {
        Some(LOAD_SCREEN)
    } else if eq_lit(n, "alt_buf") || eq_lit(n, "abuf") {
        Some(ENABLE_ALTERNATIVE_BUFFER)
    } else if eq_lit(n, "_alt_buf") || eq_lit(n, "_abuf") {
        Some(DISABLE_ALTERNATIVE_BUFFER)
    } else {
        None
    }
}

/// The escape code of a command that takes no argument, by its lowercase
/// name.
pub open spec fn fixed_code(n: Seq<char>) -> Option<Seq<char>> {
    if ascii_code(n) is Some { ascii_code(n) } else { if cursor_code(n) is Some { cursor_code(n) } else { if style_code(n) is Some { style_code(n) } else { if fg_code(n) is Some { fg_code(n) } else { if bg_code(n) is Some { bg_code(n) } else { modes_code(n) } } } } }
}

/// The escape code of a command that takes no argument.
pub fn fixed_command(n: &Vec<char>) -> (r: Option<&'static str>)
    ensures
        r is Some <==> fixed_code(n@) is Some,
        r is Some ==> r->0@ == fixed_code(n@)->0,
{
    let r = ascii_command(n);
    if r.is_some() {
        return r;
    }
    let r = cursor_command(n);
    if r.is_some() {
        return r;
    }
    let r = style_command(n);
    if r.is_some() {
        return r;
    }
    let r = fg_command(n);
    if r.is_some() {
        return r;
    }
    let r = bg_command(n);
    if r.is_some() {
        return r;
    }
    let r = modes_command(n);
    if r.is_some() {
        return r;
    }
    None
}

} // verus!
