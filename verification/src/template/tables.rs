//! The command names of templates and the codes they stand for, written out
//! once, name by name, and checked against the lookup of the commands.

use vstd::prelude::*;

use crate::codes::{counted_code, dec_mode};
use crate::template::chars::{is_name_char, lower_seq, name_end, read_num};
use crate::template::commands::{
    ascii_code, bg_code, cursor_code, fg_code, fixed_code, modes_code, style_code,
};
use crate::template::spec::{block, command, template_from, template_output, variable};
use crate::template::error::TemplateFault;
use crate::text::decimal;

verus! {

/// A command block holding the name `n`: `{'n}`.
pub open spec fn block_of(n: Seq<char>) -> Seq<char> {
    seq!['{', '\''] + n + seq!['}']
}

/// The select graphic rendition code `CSI n m`.
pub open spec fn sgr(n: nat) -> Seq<char> {
    "\x1b["@ + decimal(n) + "m"@
}

proof fn lemma_name_end_at(s: Seq<char>, p: int, e: int)
    requires
        0 <= p <= e < s.len(),
        forall|i: int| p <= i < e ==> is_name_char(#[trigger] s[i]),
        !is_name_char(s[e]),
    ensures
        name_end(s, p) == e,
    decreases e - p,
{
    if p < e {
        lemma_name_end_at(s, p + 1, e);
    }
}

/// A block that holds one lowercase command name standing for a fixed code
/// gives that code and nothing else: `{'name}` becomes the code of `name`.
pub proof fn lemma_fixed_command_block(n: Seq<char>)
    requires
        n.len() > 0,
        forall|i: int| 0 <= i < n.len() ==> is_name_char(#[trigger] n[i]),
        lower_seq(n) == n,
        fixed_code(n) is Some,
    ensures
        template_output(block_of(n)) == Ok::<Seq<char>, TemplateFault>(
            fixed_code(n)->0,
        ),
{
    let s = seq!['{', '\''] + n + seq!['}'];
    let e: int = n.len() as int + 2;
    assert(s[0] == '{' && s[1] == '\'' && s[e] == '}');
    assert forall|i: int| 2 <= i < e implies is_name_char(#[trigger] s[i]) by {
        assert(s[i] == n[i - 2]);
    }
    lemma_name_end_at(s, 2, e);
    assert(s.subrange(2, e) =~= n);
    let code = fixed_code(n)->0;
    assert(command(n, s, e) == Ok::<(Seq<char>, int), TemplateFault>((code, e)));
    assert(variable(s, 2) == Ok::<(Seq<char>, int), TemplateFault>((code, e)));
    assert(block(s, e) == Ok::<(Seq<char>, int), TemplateFault>((seq![], e + 1)));
    assert(code + seq![] =~= code);
    assert(block(s, 2) == Ok::<(Seq<char>, int), TemplateFault>((code, e + 1)));
    assert(template_from(s, e + 1) == Ok::<Seq<char>, TemplateFault>(seq![]));
}

/// The characters of the names and codes of the single character controls.
proof fn lemma_ascii_spelling()
    ensures
        "bell"@.len() == 4 && "bell"@[0] == 'b' && "bell"@[1] == 'e' && "bell"@[2] == 'l' && "bell"@[3] == 'l',
        "\x07"@.len() == 1 && "\x07"@[0] == '\x07',
        "backspace"@.len() == 9 && "backspace"@[0] == 'b' && "backspace"@[1] == 'a' && "backspace"@[2] == 'c' && "backspace"@[3] == 'k' && "backspace"@[4] == 's' && "backspace"@[5] == 'p' && "backspace"@[6] == 'a' && "backspace"@[7] == 'c' && "backspace"@[8] == 'e',
        "\x08"@.len() == 1 && "\x08"@[0] == '\x08',
        "htab"@.len() == 4 && "htab"@[0] == 'h' && "htab"@[1] == 't' && "htab"@[2] == 'a' && "htab"@[3] == 'b',
        "tab"@.len() == 3 && "tab"@[0] == 't' && "tab"@[1] == 'a' && "tab"@[2] == 'b',
        "\t"@.len() == 1 && "\t"@[0] == '\x09',
        "move_down_scrl"@.len() == 14 && "move_down_scrl"@[0] == 'm' && "move_down_scrl"@[1] == 'o' && "move_down_scrl"@[2] == 'v' && "move_down_scrl"@[3] == 'e' && "move_down_scrl"@[4] == '_' && "move_down_scrl"@[5] == 'd' && "move_down_scrl"@[6] == 'o' && "move_down_scrl"@[7] == 'w' && "move_down_scrl"@[8] == 'n' && "move_down_scrl"@[9] == '_' && "move_down_scrl"@[10] == 's' && "move_down_scrl"@[11] == 'c' && "move_down_scrl"@[12] == 'r' && "move_down_scrl"@[13] == 'l',
        "mds"@.len() == 3 && "mds"@[0] == 'm' && "mds"@[1] == 'd' && "mds"@[2] == 's',
        "\n"@.len() == 1 && "\n"@[0] == '\x0a',
        "newline"@.len() == 7 && "newline"@[0] == 'n' && "newline"@[1] == 'e' && "newline"@[2] == 'w' && "newline"@[3] == 'l' && "newline"@[4] == 'i' && "newline"@[5] == 'n' && "newline"@[6] == 'e',
        "nl"@.len() == 2 && "nl"@[0] == 'n' && "nl"@[1] == 'l',
        "\n\r"@.len() == 2 && "\n\r"@[0] == '\x0a' && "\n\r"@[1] == '\x0d',
        "vtab"@.len() == 4 && "vtab"@[0] == 'v' && "vtab"@[1] == 't' && "vtab"@[2] == 'a' && "vtab"@[3] == 'b',
        "\x0b"@.len() == 1 && "\x0b"@[0] == '\x0b',
        "carriage_return"@.len() == 15 && "carriage_return"@[0] == 'c' && "carriage_return"@[1] == 'a' && "carriage_return"@[2] == 'r' && "carriage_return"@[3] == 'r' && "carriage_return"@[4] == 'i' && "carriage_return"@[5] == 'a' && "carriage_return"@[6] == 'g' && "carriage_return"@[7] == 'e' && "carriage_return"@[8] == '_' && "carriage_return"@[9] == 'r' && "carriage_return"@[10] == 'e' && "carriage_return"@[11] == 't' && "carriage_return"@[12] == 'u' && "carriage_return"@[13] == 'r' && "carriage_return"@[14] == 'n',
        "cr"@.len() == 2 && "cr"@[0] == 'c' && "cr"@[1] == 'r',
        "\r"@.len() == 1 && "\r"@[0] == '\x0d',
        "delete"@.len() == 6 && "delete"@[0] == 'd' && "delete"@[1] == 'e' && "delete"@[2] == 'l' && "delete"@[3] == 'e' && "delete"@[4] == 't' && "delete"@[5] == 'e',
        "del"@.len() == 3 && "del"@[0] == 'd' && "del"@[1] == 'e' && "del"@[2] == 'l',
        "\x7f"@.len() == 1 && "\x7f"@[0] == '\x7f',
{
    reveal_strlit("bell");
    reveal_strlit("\x07");
    reveal_strlit("backspace");
    reveal_strlit("\x08");
    reveal_strlit("htab");
    reveal_strlit("tab");
    reveal_strlit("\t");
    reveal_strlit("move_down_scrl");
    reveal_strlit("mds");
    reveal_strlit("\n");
    reveal_strlit("newline");
    reveal_strlit("nl");
    reveal_strlit("\n\r");
    reveal_strlit("vtab");
    reveal_strlit("\x0b");
    reveal_strlit("carriage_return");
    reveal_strlit("cr");
    reveal_strlit("\r");
    reveal_strlit("delete");
    reveal_strlit("del");
    reveal_strlit("\x7f");
}

/// The characters of the names and codes of the cursor saving, scrolling and erasing commands.
proof fn lemma_cursor_spelling()
    ensures
        "move_up_scrl"@.len() == 12 && "move_up_scrl"@[0] == 'm' && "move_up_scrl"@[1] == 'o' && "move_up_scrl"@[2] == 'v' && "move_up_scrl"@[3] == 'e' && "move_up_scrl"@[4] == '_' && "move_up_scrl"@[5] == 'u' && "move_up_scrl"@[6] == 'p' && "move_up_scrl"@[7] == '_' && "move_up_scrl"@[8] == 's' && "move_up_scrl"@[9] == 'c' && "move_up_scrl"@[10] == 'r' && "move_up_scrl"@[11] == 'l',
        "mus"@.len() == 3 && "mus"@[0] == 'm' && "mus"@[1] == 'u' && "mus"@[2] == 's',
        "save_cur"@.len() == 8 && "save_cur"@[0] == 's' && "save_cur"@[1] == 'a' && "save_cur"@[2] == 'v' && "save_cur"@[3] == 'e' && "save_cur"@[4] == '_' && "save_cur"@[5] == 'c' && "save_cur"@[6] == 'u' && "save_cur"@[7] == 'r',
        "save"@.len() == 4 && "save"@[0] == 's' && "save"@[1] == 'a' && "save"@[2] == 'v' && "save"@[3] == 'e',
        "s"@.len() == 1 && "s"@[0] == 's',
        "load_cur"@.len() == 8 && "load_cur"@[0] == 'l' && "load_cur"@[1] == 'o' && "load_cur"@[2] == 'a' && "load_cur"@[3] == 'd' && "load_cur"@[4] == '_' && "load_cur"@[5] == 'c' && "load_cur"@[6] == 'u' && "load_cur"@[7] == 'r',
        "load"@.len() == 4 && "load"@[0] == 'l' && "load"@[1] == 'o' && "load"@[2] == 'a' && "load"@[3] == 'd',
        "l"@.len() == 1 && "l"@[0] == 'l',
        "erase_to_end"@.len() == 12 && "erase_to_end"@[0] == 'e' && "erase_to_end"@[1] == 'r' && "erase_to_end"@[2] == 'a' && "erase_to_end"@[3] == 's' && "erase_to_end"@[4] == 'e' && "erase_to_end"@[5] == '_' && "erase_to_end"@[6] == 't' && "erase_to_end"@[7] == 'o' && "erase_to_end"@[8] == '_' && "erase_to_end"@[9] == 'e' && "erase_to_end"@[10] == 'n' && "erase_to_end"@[11] == 'd',
        "e_"@.len() == 2 && "e_"@[0] == 'e' && "e_"@[1] == '_',
        "erase_from_start"@.len() == 16 && "erase_from_start"@[0] == 'e' && "erase_from_start"@[1] == 'r' && "erase_from_start"@[2] == 'a' && "erase_from_start"@[3] == 's' && "erase_from_start"@[4] == 'e' && "erase_from_start"@[5] == '_' && "erase_from_start"@[6] == 'f' && "erase_from_start"@[7] == 'r' && "erase_from_start"@[8] == 'o' && "erase_from_start"@[9] == 'm' && "erase_from_start"@[10] == '_' && "erase_from_start"@[11] == 's' && "erase_from_start"@[12] == 't' && "erase_from_start"@[13] == 'a' && "erase_from_start"@[14] == 'r' && "erase_from_start"@[15] == 't',
        "_e"@.len() == 2 && "_e"@[0] == '_' && "_e"@[1] == 'e',
        "erase_screen"@.len() == 12 && "erase_screen"@[0] == 'e' && "erase_screen"@[1] == 'r' && "erase_screen"@[2] == 'a' && "erase_screen"@[3] == 's' && "erase_screen"@[4] == 'e' && "erase_screen"@[5] == '_' && "erase_screen"@[6] == 's' && "erase_screen"@[7] == 'c' && "erase_screen"@[8] == 'r' && "erase_screen"@[9] == 'e' && "erase_screen"@[10] == 'e' && "erase_screen"@[11] == 'n',
        "_e_"@.len() == 3 && "_e_"@[0] == '_' && "_e_"@[1] == 'e' && "_e_"@[2] == '_',
        "erase_all"@.len() == 9 && "erase_all"@[0] == 'e' && "erase_all"@[1] == 'r' && "erase_all"@[2] == 'a' && "erase_all"@[3] == 's' && "erase_all"@[4] == 'e' && "erase_all"@[5] == '_' && "erase_all"@[6] == 'a' && "erase_all"@[7] == 'l' && "erase_all"@[8] == 'l',
        "e"@.len() == 1 && "e"@[0] == 'e',
        "erase_ln_end"@.len() == 12 && "erase_ln_end"@[0] == 'e' && "erase_ln_end"@[1] == 'r' && "erase_ln_end"@[2] == 'a' && "erase_ln_end"@[3] == 's' && "erase_ln_end"@[4] == 'e' && "erase_ln_end"@[5] == '_' && "erase_ln_end"@[6] == 'l' && "erase_ln_end"@[7] == 'n' && "erase_ln_end"@[8] == '_' && "erase_ln_end"@[9] == 'e' && "erase_ln_end"@[10] == 'n' && "erase_ln_end"@[11] == 'd',
        "el_"@.len() == 3 && "el_"@[0] == 'e' && "el_"@[1] == 'l' && "el_"@[2] == '_',
        "erase_ln_start"@.len() == 14 && "erase_ln_start"@[0] == 'e' && "erase_ln_start"@[1] == 'r' && "erase_ln_start"@[2] == 'a' && "erase_ln_start"@[3] == 's' && "erase_ln_start"@[4] == 'e' && "erase_ln_start"@[5] == '_' && "erase_ln_start"@[6] == 'l' && "erase_ln_start"@[7] == 'n' && "erase_ln_start"@[8] == '_' && "erase_ln_start"@[9] == 's' && "erase_ln_start"@[10] == 't' && "erase_ln_start"@[11] == 'a' && "erase_ln_start"@[12] == 'r' && "erase_ln_start"@[13] == 't',
        "_el"@.len() == 3 && "_el"@[0] == '_' && "_el"@[1] == 'e' && "_el"@[2] == 'l',
        "erase_line"@.len() == 10 && "erase_line"@[0] == 'e' && "erase_line"@[1] == 'r' && "erase_line"@[2] == 'a' && "erase_line"@[3] == 's' && "erase_line"@[4] == 'e' && "erase_line"@[5] == '_' && "erase_line"@[6] == 'l' && "erase_line"@[7] == 'i' && "erase_line"@[8] == 'n' && "erase_line"@[9] == 'e',
        "erase_ln"@.len() == 8 && "erase_ln"@[0] == 'e' && "erase_ln"@[1] == 'r' && "erase_ln"@[2] == 'a' && "erase_ln"@[3] == 's' && "erase_ln"@[4] == 'e' && "erase_ln"@[5] == '_' && "erase_ln"@[6] == 'l' && "erase_ln"@[7] == 'n',
        "_el_"@.len() == 4 && "_el_"@[0] == '_' && "_el_"@[1] == 'e' && "_el_"@[2] == 'l' && "_el_"@[3] == '_',
        "el"@.len() == 2 && "el"@[0] == 'e' && "el"@[1] == 'l',
        "clear"@.len() == 5 && "clear"@[0] == 'c' && "clear"@[1] == 'l' && "clear"@[2] == 'e' && "clear"@[3] == 'a' && "clear"@[4] == 'r',
        "cls"@.len() == 3 && "cls"@[0] == 'c' && "cls"@[1] == 'l' && "cls"@[2] == 's',
        "\x1bM"@.len() == 2 && "\x1bM"@[0] == '\x1b' && "\x1bM"@[1] == 'M',
        "\x1b7"@.len() == 2 && "\x1b7"@[0] == '\x1b' && "\x1b7"@[1] == '7',
        "\x1b8"@.len() == 2 && "\x1b8"@[0] == '\x1b' && "\x1b8"@[1] == '8',
        "\x1b[J"@.len() == 3 && "\x1b[J"@[0] == '\x1b' && "\x1b[J"@[1] == '[' && "\x1b[J"@[2] == 'J',
        "\x1b[1J"@.len() == 4 && "\x1b[1J"@[0] == '\x1b' && "\x1b[1J"@[1] == '[' && "\x1b[1J"@[2] == '1' && "\x1b[1J"@[3] == 'J',
        "\x1b[2J"@.len() == 4 && "\x1b[2J"@[0] == '\x1b' && "\x1b[2J"@[1] == '[' && "\x1b[2J"@[2] == '2' && "\x1b[2J"@[3] == 'J',
        "\x1b[2J\x1b[3J"@.len() == 8 && "\x1b[2J\x1b[3J"@[0] == '\x1b' && "\x1b[2J\x1b[3J"@[1] == '[' && "\x1b[2J\x1b[3J"@[2] == '2' && "\x1b[2J\x1b[3J"@[3] == 'J' && "\x1b[2J\x1b[3J"@[4] == '\x1b' && "\x1b[2J\x1b[3J"@[5] == '[' && "\x1b[2J\x1b[3J"@[6] == '3' && "\x1b[2J\x1b[3J"@[7] == 'J',
        "\x1b[K"@.len() == 3 && "\x1b[K"@[0] == '\x1b' && "\x1b[K"@[1] == '[' && "\x1b[K"@[2] == 'K',
        "\x1b[1K"@.len() == 4 && "\x1b[1K"@[0] == '\x1b' && "\x1b[1K"@[1] == '[' && "\x1b[1K"@[2] == '1' && "\x1b[1K"@[3] == 'K',
        "\x1b[2K"@.len() == 4 && "\x1b[2K"@[0] == '\x1b' && "\x1b[2K"@[1] == '[' && "\x1b[2K"@[2] == '2' && "\x1b[2K"@[3] == 'K',
        "\x1b[2J\x1b[3J\x1b[H"@.len() == 11 && "\x1b[2J\x1b[3J\x1b[H"@[0] == '\x1b' && "\x1b[2J\x1b[3J\x1b[H"@[1] == '[' && "\x1b[2J\x1b[3J\x1b[H"@[2] == '2' && "\x1b[2J\x1b[3J\x1b[H"@[3] == 'J' && "\x1b[2J\x1b[3J\x1b[H"@[4] == '\x1b' && "\x1b[2J\x1b[3J\x1b[H"@[5] == '[' && "\x1b[2J\x1b[3J\x1b[H"@[6] == '3' && "\x1b[2J\x1b[3J\x1b[H"@[7] == 'J' && "\x1b[2J\x1b[3J\x1b[H"@[8] == '\x1b' && "\x1b[2J\x1b[3J\x1b[H"@[9] == '[' && "\x1b[2J\x1b[3J\x1b[H"@[10] == 'H',
{
    reveal_strlit("move_up_scrl");
    reveal_strlit("mus");
    reveal_strlit("save_cur");
    reveal_strlit("save");
    reveal_strlit("s");
    reveal_strlit("load_cur");
    reveal_strlit("load");
    reveal_strlit("l");
    reveal_strlit("erase_to_end");
    reveal_strlit("e_");
    reveal_strlit("erase_from_start");
    reveal_strlit("_e");
    reveal_strlit("erase_screen");
    reveal_strlit("_e_");
    reveal_strlit("erase_all");
    reveal_strlit("e");
    reveal_strlit("erase_ln_end");
    reveal_strlit("el_");
    reveal_strlit("erase_ln_start");
    reveal_strlit("_el");
    reveal_strlit("erase_line");
    reveal_strlit("erase_ln");
    reveal_strlit("_el_");
    reveal_strlit("el");
    reveal_strlit("clear");
    reveal_strlit("cls");
    reveal_strlit("\x1bM");
    reveal_strlit("\x1b7");
    reveal_strlit("\x1b8");
    reveal_strlit("\x1b[J");
    reveal_strlit("\x1b[1J");
    reveal_strlit("\x1b[2J");
    reveal_strlit("\x1b[2J\x1b[3J");
    reveal_strlit("\x1b[K");
    reveal_strlit("\x1b[1K");
    reveal_strlit("\x1b[2K");
    reveal_strlit("\x1b[2J\x1b[3J\x1b[H");
}

/// The characters of the names and codes of the text styles and their resets.
proof fn lemma_style_spelling()
    ensures
        "reset"@.len() == 5 && "reset"@[0] == 'r' && "reset"@[1] == 'e' && "reset"@[2] == 's' && "reset"@[3] == 'e' && "reset"@[4] == 't',
        "_"@.len() == 1 && "_"@[0] == '_',
        "bold"@.len() == 4 && "bold"@[0] == 'b' && "bold"@[1] == 'o' && "bold"@[2] == 'l' && "bold"@[3] == 'd',
        "faint"@.len() == 5 && "faint"@[0] == 'f' && "faint"@[1] == 'a' && "faint"@[2] == 'i' && "faint"@[3] == 'n' && "faint"@[4] == 't',
        "f"@.len() == 1 && "f"@[0] == 'f',
        "italic"@.len() == 6 && "italic"@[0] == 'i' && "italic"@[1] == 't' && "italic"@[2] == 'a' && "italic"@[3] == 'l' && "italic"@[4] == 'i' && "italic"@[5] == 'c',
        "i"@.len() == 1 && "i"@[0] == 'i',
        "underline"@.len() == 9 && "underline"@[0] == 'u' && "underline"@[1] == 'n' && "underline"@[2] == 'd' && "underline"@[3] == 'e' && "underline"@[4] == 'r' && "underline"@[5] == 'l' && "underline"@[6] == 'i' && "underline"@[7] == 'n' && "underline"@[8] == 'e',
        "u"@.len() == 1 && "u"@[0] == 'u',
        "blinking"@.len() == 8 && "blinking"@[0] == 'b' && "blinking"@[1] == 'l' && "blinking"@[2] == 'i' && "blinking"@[3] == 'n' && "blinking"@[4] == 'k' && "blinking"@[5] == 'i' && "blinking"@[6] == 'n' && "blinking"@[7] == 'g',
        "blink"@.len() == 5 && "blink"@[0] == 'b' && "blink"@[1] == 'l' && "blink"@[2] == 'i' && "blink"@[3] == 'n' && "blink"@[4] == 'k',
        "inverse"@.len() == 7 && "inverse"@[0] == 'i' && "inverse"@[1] == 'n' && "inverse"@[2] == 'v' && "inverse"@[3] == 'e' && "inverse"@[4] == 'r' && "inverse"@[5] == 's' && "inverse"@[6] == 'e',
        "invisible"@.len() == 9 && "invisible"@[0] == 'i' && "invisible"@[1] == 'n' && "invisible"@[2] == 'v' && "invisible"@[3] == 'i' && "invisible"@[4] == 's' && "invisible"@[5] == 'i' && "invisible"@[6] == 'b' && "invisible"@[7] == 'l' && "invisible"@[8] == 'e',
        "invis"@.len() == 5 && "invis"@[0] == 'i' && "invis"@[1] == 'n' && "invis"@[2] == 'v' && "invis"@[3] == 'i' && "invis"@[4] == 's',
        "striketrough"@.len() == 12 && "striketrough"@[0] == 's' && "striketrough"@[1] == 't' && "striketrough"@[2] == 'r' && "striketrough"@[3] == 'i' && "striketrough"@[4] == 'k' && "striketrough"@[5] == 'e' && "striketrough"@[6] == 't' && "striketrough"@[7] == 'r' && "striketrough"@[8] == 'o' && "striketrough"@[9] == 'u' && "striketrough"@[10] == 'g' && "striketrough"@[11] == 'h',
        "strike"@.len() == 6 && "strike"@[0] == 's' && "strike"@[1] == 't' && "strike"@[2] == 'r' && "strike"@[3] == 'i' && "strike"@[4] == 'k' && "strike"@[5] == 'e',
        "double_underline"@.len() == 16 && "double_underline"@[0] == 'd' && "double_underline"@[1] == 'o' && "double_underline"@[2] == 'u' && "double_underline"@[3] == 'b' && "double_underline"@[4] == 'l' && "double_underline"@[5] == 'e' && "double_underline"@[6] == '_' && "double_underline"@[7] == 'u' && "double_underline"@[8] == 'n' && "double_underline"@[9] == 'd' && "double_underline"@[10] == 'e' && "double_underline"@[11] == 'r' && "double_underline"@[12] == 'l' && "double_underline"@[13] == 'i' && "double_underline"@[14] == 'n' && "double_underline"@[15] == 'e',
        "dunderline"@.len() == 10 && "dunderline"@[0] == 'd' && "dunderline"@[1] == 'u' && "dunderline"@[2] == 'n' && "dunderline"@[3] == 'd' && "dunderline"@[4] == 'e' && "dunderline"@[5] == 'r' && "dunderline"@[6] == 'l' && "dunderline"@[7] == 'i' && "dunderline"@[8] == 'n' && "dunderline"@[9] == 'e',
        "dun"@.len() == 3 && "dun"@[0] == 'd' && "dun"@[1] == 'u' && "dun"@[2] == 'n',
        "overline"@.len() == 8 && "overline"@[0] == 'o' && "overline"@[1] == 'v' && "overline"@[2] == 'e' && "overline"@[3] == 'r' && "overline"@[4] == 'l' && "overline"@[5] == 'i' && "overline"@[6] == 'n' && "overline"@[7] == 'e',
        "ol"@.len() == 2 && "ol"@[0] == 'o' && "ol"@[1] == 'l',
        "_bold"@.len() == 5 && "_bold"@[0] == '_' && "_bold"@[1] == 'b' && "_bold"@[2] == 'o' && "_bold"@[3] == 'l' && "_bold"@[4] == 'd',
        "_italic"@.len() == 7 && "_italic"@[0] == '_' && "_italic"@[1] == 'i' && "_italic"@[2] == 't' && "_italic"@[3] == 'a' && "_italic"@[4] == 'l' && "_italic"@[5] == 'i' && "_italic"@[6] == 'c',
        "_i"@.len() == 2 && "_i"@[0] == '_' && "_i"@[1] == 'i',
        "_underline"@.len() == 10 && "_underline"@[0] == '_' && "_underline"@[1] == 'u' && "_underline"@[2] == 'n' && "_underline"@[3] == 'd' && "_underline"@[4] == 'e' && "_underline"@[5] == 'r' && "_underline"@[6] == 'l' && "_underline"@[7] == 'i' && "_underline"@[8] == 'n' && "_underline"@[9] == 'e',
        "_u"@.len() == 2 && "_u"@[0] == '_' && "_u"@[1] == 'u',
        "_blinking"@.len() == 9 && "_blinking"@[0] == '_' && "_blinking"@[1] == 'b' && "_blinking"@[2] == 'l' && "_blinking"@[3] == 'i' && "_blinking"@[4] == 'n' && "_blinking"@[5] == 'k' && "_blinking"@[6] == 'i' && "_blinking"@[7] == 'n' && "_blinking"@[8] == 'g',
        "_blink"@.len() == 6 && "_blink"@[0] == '_' && "_blink"@[1] == 'b' && "_blink"@[2] == 'l' && "_blink"@[3] == 'i' && "_blink"@[4] == 'n' && "_blink"@[5] == 'k',
        "_inverse"@.len() == 8 && "_inverse"@[0] == '_' && "_inverse"@[1] == 'i' && "_inverse"@[2] == 'n' && "_inverse"@[3] == 'v' && "_inverse"@[4] == 'e' && "_inverse"@[5] == 'r' && "_inverse"@[6] == 's' && "_inverse"@[7] == 'e',
        "_invisible"@.len() == 10 && "_invisible"@[0] == '_' && "_invisible"@[1] == 'i' && "_invisible"@[2] == 'n' && "_invisible"@[3] == 'v' && "_invisible"@[4] == 'i' && "_invisible"@[5] == 's' && "_invisible"@[6] == 'i' && "_invisible"@[7] == 'b' && "_invisible"@[8] == 'l' && "_invisible"@[9] == 'e',
        "_invis"@.len() == 6 && "_invis"@[0] == '_' && "_invis"@[1] == 'i' && "_invis"@[2] == 'n' && "_invis"@[3] == 'v' && "_invis"@[4] == 'i' && "_invis"@[5] == 's',
        "_striketrough"@.len() == 13 && "_striketrough"@[0] == '_' && "_striketrough"@[1] == 's' && "_striketrough"@[2] == 't' && "_striketrough"@[3] == 'r' && "_striketrough"@[4] == 'i' && "_striketrough"@[5] == 'k' && "_striketrough"@[6] == 'e' && "_striketrough"@[7] == 't' && "_striketrough"@[8] == 'r' && "_striketrough"@[9] == 'o' && "_striketrough"@[10] == 'u' && "_striketrough"@[11] == 'g' && "_striketrough"@[12] == 'h',
        "_strike"@.len() == 7 && "_strike"@[0] == '_' && "_strike"@[1] == 's' && "_strike"@[2] == 't' && "_strike"@[3] == 'r' && "_strike"@[4] == 'i' && "_strike"@[5] == 'k' && "_strike"@[6] == 'e',
        "_overline"@.len() == 9 && "_overline"@[0] == '_' && "_overline"@[1] == 'o' && "_overline"@[2] == 'v' && "_overline"@[3] == 'e' && "_overline"@[4] == 'r' && "_overline"@[5] == 'l' && "_overline"@[6] == 'i' && "_overline"@[7] == 'n' && "_overline"@[8] == 'e',
        "_ol"@.len() == 3 && "_ol"@[0] == '_' && "_ol"@[1] == 'o' && "_ol"@[2] == 'l',
        "\x1b["@.len() == 2 && "\x1b["@[0] == '\x1b' && "\x1b["@[1] == '[',
        "m"@.len() == 1 && "m"@[0] == 'm',
        "\x1b[0m"@.len() == 4 && "\x1b[0m"@[0] == '\x1b' && "\x1b[0m"@[1] == '[' && "\x1b[0m"@[2] == '0' && "\x1b[0m"@[3] == 'm',
        "\x1b[1m"@.len() == 4 && "\x1b[1m"@[0] == '\x1b' && "\x1b[1m"@[1] == '[' && "\x1b[1m"@[2] == '1' && "\x1b[1m"@[3] == 'm',
        "\x1b[2m"@.len() == 4 && "\x1b[2m"@[0] == '\x1b' && "\x1b[2m"@[1] == '[' && "\x1b[2m"@[2] == '2' && "\x1b[2m"@[3] == 'm',
        "\x1b[3m"@.len() == 4 && "\x1b[3m"@[0] == '\x1b' && "\x1b[3m"@[1] == '[' && "\x1b[3m"@[2] == '3' && "\x1b[3m"@[3] == 'm',
        "\x1b[4m"@.len() == 4 && "\x1b[4m"@[0] == '\x1b' && "\x1b[4m"@[1] == '[' && "\x1b[4m"@[2] == '4' && "\x1b[4m"@[3] == 'm',
        "\x1b[5m"@.len() == 4 && "\x1b[5m"@[0] == '\x1b' && "\x1b[5m"@[1] == '[' && "\x1b[5m"@[2] == '5' && "\x1b[5m"@[3] == 'm',
        "\x1b[7m"@.len() == 4 && "\x1b[7m"@[0] == '\x1b' && "\x1b[7m"@[1] == '[' && "\x1b[7m"@[2] == '7' && "\x1b[7m"@[3] == 'm',
        "\x1b[8m"@.len() == 4 && "\x1b[8m"@[0] == '\x1b' && "\x1b[8m"@[1] == '[' && "\x1b[8m"@[2] == '8' && "\x1b[8m"@[3] == 'm',
        "\x1b[9m"@.len() == 4 && "\x1b[9m"@[0] == '\x1b' && "\x1b[9m"@[1] == '[' && "\x1b[9m"@[2] == '9' && "\x1b[9m"@[3] == 'm',
        "\x1b[21m"@.len() == 5 && "\x1b[21m"@[0] == '\x1b' && "\x1b[21m"@[1] == '[' && "\x1b[21m"@[2] == '2' && "\x1b[21m"@[3] == '1' && "\x1b[21m"@[4] == 'm',
        "\x1b[53m"@.len() == 5 && "\x1b[53m"@[0] == '\x1b' && "\x1b[53m"@[1] == '[' && "\x1b[53m"@[2] == '5' && "\x1b[53m"@[3] == '3' && "\x1b[53m"@[4] == 'm',
        "\x1b[22m"@.len() == 5 && "\x1b[22m"@[0] == '\x1b' && "\x1b[22m"@[1] == '[' && "\x1b[22m"@[2] == '2' && "\x1b[22m"@[3] == '2' && "\x1b[22m"@[4] == 'm',
        "\x1b[23m"@.len() == 5 && "\x1b[23m"@[0] == '\x1b' && "\x1b[23m"@[1] == '[' && "\x1b[23m"@[2] == '2' && "\x1b[23m"@[3] == '3' && "\x1b[23m"@[4] == 'm',
        "\x1b[24m"@.len() == 5 && "\x1b[24m"@[0] == '\x1b' && "\x1b[24m"@[1] == '[' && "\x1b[24m"@[2] == '2' && "\x1b[24m"@[3] == '4' && "\x1b[24m"@[4] == 'm',
        "\x1b[25m"@.len() == 5 && "\x1b[25m"@[0] == '\x1b' && "\x1b[25m"@[1] == '[' && "\x1b[25m"@[2] == '2' && "\x1b[25m"@[3] == '5' && "\x1b[25m"@[4] == 'm',
        "\x1b[27m"@.len() == 5 && "\x1b[27m"@[0] == '\x1b' && "\x1b[27m"@[1] == '[' && "\x1b[27m"@[2] == '2' && "\x1b[27m"@[3] == '7' && "\x1b[27m"@[4] == 'm',
        "\x1b[28m"@.len() == 5 && "\x1b[28m"@[0] == '\x1b' && "\x1b[28m"@[1] == '[' && "\x1b[28m"@[2] == '2' && "\x1b[28m"@[3] == '8' && "\x1b[28m"@[4] == 'm',
        "\x1b[29m"@.len() == 5 && "\x1b[29m"@[0] == '\x1b' && "\x1b[29m"@[1] == '[' && "\x1b[29m"@[2] == '2' && "\x1b[29m"@[3] == '9' && "\x1b[29m"@[4] == 'm',
        "\x1b[55m"@.len() == 5 && "\x1b[55m"@[0] == '\x1b' && "\x1b[55m"@[1] == '[' && "\x1b[55m"@[2] == '5' && "\x1b[55m"@[3] == '5' && "\x1b[55m"@[4] == 'm',
{
    reveal_strlit("reset");
    reveal_strlit("_");
    reveal_strlit("bold");
    reveal_strlit("faint");
    reveal_strlit("f");
    reveal_strlit("italic");
    reveal_strlit("i");
    reveal_strlit("underline");
    reveal_strlit("u");
    reveal_strlit("blinking");
    reveal_strlit("blink");
    reveal_strlit("inverse");
    reveal_strlit("invisible");
    reveal_strlit("invis");
    reveal_strlit("striketrough");
    reveal_strlit("strike");
    reveal_strlit("double_underline");
    reveal_strlit("dunderline");
    reveal_strlit("dun");
    reveal_strlit("overline");
    reveal_strlit("ol");
    reveal_strlit("_bold");
    reveal_strlit("_italic");
    reveal_strlit("_i");
    reveal_strlit("_underline");
    reveal_strlit("_u");
    reveal_strlit("_blinking");
    reveal_strlit("_blink");
    reveal_strlit("_inverse");
    reveal_strlit("_invisible");
    reveal_strlit("_invis");
    reveal_strlit("_striketrough");
    reveal_strlit("_strike");
    reveal_strlit("_overline");
    reveal_strlit("_ol");
    reveal_strlit("\x1b[");
    reveal_strlit("m");
    reveal_strlit("\x1b[0m");
    reveal_strlit("\x1b[1m");
    reveal_strlit("\x1b[2m");
    reveal_strlit("\x1b[3m");
    reveal_strlit("\x1b[4m");
    reveal_strlit("\x1b[5m");
    reveal_strlit("\x1b[7m");
    reveal_strlit("\x1b[8m");
    reveal_strlit("\x1b[9m");
    reveal_strlit("\x1b[21m");
    reveal_strlit("\x1b[53m");
    reveal_strlit("\x1b[22m");
    reveal_strlit("\x1b[23m");
    reveal_strlit("\x1b[24m");
    reveal_strlit("\x1b[25m");
    reveal_strlit("\x1b[27m");
    reveal_strlit("\x1b[28m");
    reveal_strlit("\x1b[29m");
    reveal_strlit("\x1b[55m");
}

/// The characters of the names and codes of the foreground colors.
proof fn lemma_fg_spelling()
    ensures
        "black_fg"@.len() == 8 && "black_fg"@[0] == 'b' && "black_fg"@[1] == 'l' && "black_fg"@[2] == 'a' && "black_fg"@[3] == 'c' && "black_fg"@[4] == 'k' && "black_fg"@[5] == '_' && "black_fg"@[6] == 'f' && "black_fg"@[7] == 'g',
        "black"@.len() == 5 && "black"@[0] == 'b' && "black"@[1] == 'l' && "black"@[2] == 'a' && "black"@[3] == 'c' && "black"@[4] == 'k',
        "bl"@.len() == 2 && "bl"@[0] == 'b' && "bl"@[1] == 'l',
        "white_fg"@.len() == 8 && "white_fg"@[0] == 'w' && "white_fg"@[1] == 'h' && "white_fg"@[2] == 'i' && "white_fg"@[3] == 't' && "white_fg"@[4] == 'e' && "white_fg"@[5] == '_' && "white_fg"@[6] == 'f' && "white_fg"@[7] == 'g',
        "white"@.len() == 5 && "white"@[0] == 'w' && "white"@[1] == 'h' && "white"@[2] == 'i' && "white"@[3] == 't' && "white"@[4] == 'e',
        "w"@.len() == 1 && "w"@[0] == 'w',
        "gray_fg"@.len() == 7 && "gray_fg"@[0] == 'g' && "gray_fg"@[1] == 'r' && "gray_fg"@[2] == 'a' && "gray_fg"@[3] == 'y' && "gray_fg"@[4] == '_' && "gray_fg"@[5] == 'f' && "gray_fg"@[6] == 'g',
        "gray"@.len() == 4 && "gray"@[0] == 'g' && "gray"@[1] == 'r' && "gray"@[2] == 'a' && "gray"@[3] == 'y',
        "gr"@.len() == 2 && "gr"@[0] == 'g' && "gr"@[1] == 'r',
        "bright_gray_fg"@.len() == 14 && "bright_gray_fg"@[0] == 'b' && "bright_gray_fg"@[1] == 'r' && "bright_gray_fg"@[2] == 'i' && "bright_gray_fg"@[3] == 'g' && "bright_gray_fg"@[4] == 'h' && "bright_gray_fg"@[5] == 't' && "bright_gray_fg"@[6] == '_' && "bright_gray_fg"@[7] == 'g' && "bright_gray_fg"@[8] == 'r' && "bright_gray_fg"@[9] == 'a' && "bright_gray_fg"@[10] == 'y' && "bright_gray_fg"@[11] == '_' && "bright_gray_fg"@[12] == 'f' && "bright_gray_fg"@[13] == 'g',
        "bgray"@.len() == 5 && "bgray"@[0] == 'b' && "bgray"@[1] == 'g' && "bgray"@[2] == 'r' && "bgray"@[3] == 'a' && "bgray"@[4] == 'y',
        "bgr"@.len() == 3 && "bgr"@[0] == 'b' && "bgr"@[1] == 'g' && "bgr"@[2] == 'r',
        "red_fg"@.len() == 6 && "red_fg"@[0] == 'r' && "red_fg"@[1] == 'e' && "red_fg"@[2] == 'd' && "red_fg"@[3] == '_' && "red_fg"@[4] == 'f' && "red_fg"@[5] == 'g',
        "red"@.len() == 3 && "red"@[0] == 'r' && "red"@[1] == 'e' && "red"@[2] == 'd',
        "r"@.len() == 1 && "r"@[0] == 'r',
        "green_fg"@.len() == 8 && "green_fg"@[0] == 'g' && "green_fg"@[1] == 'r' && "green_fg"@[2] == 'e' && "green_fg"@[3] == 'e' && "green_fg"@[4] == 'n' && "green_fg"@[5] == '_' && "green_fg"@[6] == 'f' && "green_fg"@[7] == 'g',
        "green"@.len() == 5 && "green"@[0] == 'g' && "green"@[1] == 'r' && "green"@[2] == 'e' && "green"@[3] == 'e' && "green"@[4] == 'n',
        "g"@.len() == 1 && "g"@[0] == 'g',
        "yellow_fg"@.len() == 9 && "yellow_fg"@[0] == 'y' && "yellow_fg"@[1] == 'e' && "yellow_fg"@[2] == 'l' && "yellow_fg"@[3] == 'l' && "yellow_fg"@[4] == 'o' && "yellow_fg"@[5] == 'w' && "yellow_fg"@[6] == '_' && "yellow_fg"@[7] == 'f' && "yellow_fg"@[8] == 'g',
        "yellow"@.len() == 6 && "yellow"@[0] == 'y' && "yellow"@[1] == 'e' && "yellow"@[2] == 'l' && "yellow"@[3] == 'l' && "yellow"@[4] == 'o' && "yellow"@[5] == 'w',
        "y"@.len() == 1 && "y"@[0] == 'y',
        "blue_fg"@.len() == 7 && "blue_fg"@[0] == 'b' && "blue_fg"@[1] == 'l' && "blue_fg"@[2] == 'u' && "blue_fg"@[3] == 'e' && "blue_fg"@[4] == '_' && "blue_fg"@[5] == 'f' && "blue_fg"@[6] == 'g',
        "blue"@.len() == 4 && "blue"@[0] == 'b' && "blue"@[1] == 'l' && "blue"@[2] == 'u' && "blue"@[3] == 'e',
        "b"@.len() == 1 && "b"@[0] == 'b',
        "magenta_fg"@.len() == 10 && "magenta_fg"@[0] == 'm' && "magenta_fg"@[1] == 'a' && "magenta_fg"@[2] == 'g' && "magenta_fg"@[3] == 'e' && "magenta_fg"@[4] == 'n' && "magenta_fg"@[5] == 't' && "magenta_fg"@[6] == 'a' && "magenta_fg"@[7] == '_' && "magenta_fg"@[8] == 'f' && "magenta_fg"@[9] == 'g',
        "magenta"@.len() == 7 && "magenta"@[0] == 'm' && "magenta"@[1] == 'a' && "magenta"@[2] == 'g' && "magenta"@[3] == 'e' && "magenta"@[4] == 'n' && "magenta"@[5] == 't' && "magenta"@[6] == 'a',
        "m"@.len() == 1 && "m"@[0] == 'm',
        "cyan_fg"@.len() == 7 && "cyan_fg"@[0] == 'c' && "cyan_fg"@[1] == 'y' && "cyan_fg"@[2] == 'a' && "cyan_fg"@[3] == 'n' && "cyan_fg"@[4] == '_' && "cyan_fg"@[5] == 'f' && "cyan_fg"@[6] == 'g',
        "cyan"@.len() == 4 && "cyan"@[0] == 'c' && "cyan"@[1] == 'y' && "cyan"@[2] == 'a' && "cyan"@[3] == 'n',
        "c"@.len() == 1 && "c"@[0] == 'c',
        "dark_red_fg"@.len() == 11 && "dark_red_fg"@[0] == 'd' && "dark_red_fg"@[1] == 'a' && "dark_red_fg"@[2] == 'r' && "dark_red_fg"@[3] == 'k' && "dark_red_fg"@[4] == '_' && "dark_red_fg"@[5] == 'r' && "dark_red_fg"@[6] == 'e' && "dark_red_fg"@[7] == 'd' && "dark_red_fg"@[8] == '_' && "dark_red_fg"@[9] == 'f' && "dark_red_fg"@[10] == 'g',
        "dred"@.len() == 4 && "dred"@[0] == 'd' && "dred"@[1] == 'r' && "dred"@[2] == 'e' && "dred"@[3] == 'd',
        "dr"@.len() == 2 && "dr"@[0] == 'd' && "dr"@[1] == 'r',
        "dark_green_fg"@.len() == 13 && "dark_green_fg"@[0] == 'd' && "dark_green_fg"@[1] == 'a' && "dark_green_fg"@[2] == 'r' && "dark_green_fg"@[3] == 'k' && "dark_green_fg"@[4] == '_' && "dark_green_fg"@[5] == 'g' && "dark_green_fg"@[6] == 'r' && "dark_green_fg"@[7] == 'e' && "dark_green_fg"@[8] == 'e' && "dark_green_fg"@[9] == 'n' && "dark_green_fg"@[10] == '_' && "dark_green_fg"@[11] == 'f' && "dark_green_fg"@[12] == 'g',
        "dgreen"@.len() == 6 && "dgreen"@[0] == 'd' && "dgreen"@[1] == 'g' && "dgreen"@[2] == 'r' && "dgreen"@[3] == 'e' && "dgreen"@[4] == 'e' && "dgreen"@[5] == 'n',
        "dg"@.len() == 2 && "dg"@[0] == 'd' && "dg"@[1] == 'g',
        "dark_yellow_fg"@.len() == 14 && "dark_yellow_fg"@[0] == 'd' && "dark_yellow_fg"@[1] == 'a' && "dark_yellow_fg"@[2] == 'r' && "dark_yellow_fg"@[3] == 'k' && "dark_yellow_fg"@[4] == '_' && "dark_yellow_fg"@[5] == 'y' && "dark_yellow_fg"@[6] == 'e' && "dark_yellow_fg"@[7] == 'l' && "dark_yellow_fg"@[8] == 'l' && "dark_yellow_fg"@[9] == 'o' && "dark_yellow_fg"@[10] == 'w' && "dark_yellow_fg"@[11] == '_' && "dark_yellow_fg"@[12] == 'f' && "dark_yellow_fg"@[13] == 'g',
        "dyellow"@.len() == 7 && "dyellow"@[0] == 'd' && "dyellow"@[1] == 'y' && "dyellow"@[2] == 'e' && "dyellow"@[3] == 'l' && "dyellow"@[4] == 'l' && "dyellow"@[5] == 'o' && "dyellow"@[6] == 'w',
        "dy"@.len() == 2 && "dy"@[0] == 'd' && "dy"@[1] == 'y',
        "dark_blue_fg"@.len() == 12 && "dark_blue_fg"@[0] == 'd' && "dark_blue_fg"@[1] == 'a' && "dark_blue_fg"@[2] == 'r' && "dark_blue_fg"@[3] == 'k' && "dark_blue_fg"@[4] == '_' && "dark_blue_fg"@[5] == 'b' && "dark_blue_fg"@[6] == 'l' && "dark_blue_fg"@[7] == 'u' && "dark_blue_fg"@[8] == 'e' && "dark_blue_fg"@[9] == '_' && "dark_blue_fg"@[10] == 'f' && "dark_blue_fg"@[11] == 'g',
        "dblue"@.len() == 5 && "dblue"@[0] == 'd' && "dblue"@[1] == 'b' && "dblue"@[2] == 'l' && "dblue"@[3] == 'u' && "dblue"@[4] == 'e',
        "db"@.len() == 2 && "db"@[0] == 'd' && "db"@[1] == 'b',
        "dark_magenta_fg"@.len() == 15 && "dark_magenta_fg"@[0] == 'd' && "dark_magenta_fg"@[1] == 'a' && "dark_magenta_fg"@[2] == 'r' && "dark_magenta_fg"@[3] == 'k' && "dark_magenta_fg"@[4] == '_' && "dark_magenta_fg"@[5] == 'm' && "dark_magenta_fg"@[6] == 'a' && "dark_magenta_fg"@[7] == 'g' && "dark_magenta_fg"@[8] == 'e' && "dark_magenta_fg"@[9] == 'n' && "dark_magenta_fg"@[10] == 't' && "dark_magenta_fg"@[11] == 'a' && "dark_magenta_fg"@[12] == '_' && "dark_magenta_fg"@[13] == 'f' && "dark_magenta_fg"@[14] == 'g',
        "dmagenta"@.len() == 8 && "dmagenta"@[0] == 'd' && "dmagenta"@[1] == 'm' && "dmagenta"@[2] == 'a' && "dmagenta"@[3] == 'g' && "dmagenta"@[4] == 'e' && "dmagenta"@[5] == 'n' && "dmagenta"@[6] == 't' && "dmagenta"@[7] == 'a',
        "dm"@.len() == 2 && "dm"@[0] == 'd' && "dm"@[1] == 'm',
        "dark_cyan_fg"@.len() == 12 && "dark_cyan_fg"@[0] == 'd' && "dark_cyan_fg"@[1] == 'a' && "dark_cyan_fg"@[2] == 'r' && "dark_cyan_fg"@[3] == 'k' && "dark_cyan_fg"@[4] == '_' && "dark_cyan_fg"@[5] == 'c' && "dark_cyan_fg"@[6] == 'y' && "dark_cyan_fg"@[7] == 'a' && "dark_cyan_fg"@[8] == 'n' && "dark_cyan_fg"@[9] == '_' && "dark_cyan_fg"@[10] == 'f' && "dark_cyan_fg"@[11] == 'g',
        "dcyan"@.len() == 5 && "dcyan"@[0] == 'd' && "dcyan"@[1] == 'c' && "dcyan"@[2] == 'y' && "dcyan"@[3] == 'a' && "dcyan"@[4] == 'n',
        "dc"@.len() == 2 && "dc"@[0] == 'd' && "dc"@[1] == 'c',
        "_fg"@.len() == 3 && "_fg"@[0] == '_' && "_fg"@[1] == 'f' && "_fg"@[2] == 'g',
        "\x1b["@.len() == 2 && "\x1b["@[0] == '\x1b' && "\x1b["@[1] == '[',
        "\x1b[30m"@.len() == 5 && "\x1b[30m"@[0] == '\x1b' && "\x1b[30m"@[1] == '[' && "\x1b[30m"@[2] == '3' && "\x1b[30m"@[3] == '0' && "\x1b[30m"@[4] == 'm',
        "\x1b[97m"@.len() == 5 && "\x1b[97m"@[0] == '\x1b' && "\x1b[97m"@[1] == '[' && "\x1b[97m"@[2] == '9' && "\x1b[97m"@[3] == '7' && "\x1b[97m"@[4] == 'm',
        "\x1b[90m"@.len() == 5 && "\x1b[90m"@[0] == '\x1b' && "\x1b[90m"@[1] == '[' && "\x1b[90m"@[2] == '9' && "\x1b[90m"@[3] == '0' && "\x1b[90m"@[4] == 'm',
        "\x1b[37m"@.len() == 5 && "\x1b[37m"@[0] == '\x1b' && "\x1b[37m"@[1] == '[' && "\x1b[37m"@[2] == '3' && "\x1b[37m"@[3] == '7' && "\x1b[37m"@[4] == 'm',
        "\x1b[91m"@.len() == 5 && "\x1b[91m"@[0] == '\x1b' && "\x1b[91m"@[1] == '[' && "\x1b[91m"@[2] == '9' && "\x1b[91m"@[3] == '1' && "\x1b[91m"@[4] == 'm',
        "\x1b[92m"@.len() == 5 && "\x1b[92m"@[0] == '\x1b' && "\x1b[92m"@[1] == '[' && "\x1b[92m"@[2] == '9' && "\x1b[92m"@[3] == '2' && "\x1b[92m"@[4] == 'm',
        "\x1b[93m"@.len() == 5 && "\x1b[93m"@[0] == '\x1b' && "\x1b[93m"@[1] == '[' && "\x1b[93m"@[2] == '9' && "\x1b[93m"@[3] == '3' && "\x1b[93m"@[4] == 'm',
        "\x1b[94m"@.len() == 5 && "\x1b[94m"@[0] == '\x1b' && "\x1b[94m"@[1] == '[' && "\x1b[94m"@[2] == '9' && "\x1b[94m"@[3] == '4' && "\x1b[94m"@[4] == 'm',
        "\x1b[95m"@.len() == 5 && "\x1b[95m"@[0] == '\x1b' && "\x1b[95m"@[1] == '[' && "\x1b[95m"@[2] == '9' && "\x1b[95m"@[3] == '5' && "\x1b[95m"@[4] == 'm',
        "\x1b[96m"@.len() == 5 && "\x1b[96m"@[0] == '\x1b' && "\x1b[96m"@[1] == '[' && "\x1b[96m"@[2] == '9' && "\x1b[96m"@[3] == '6' && "\x1b[96m"@[4] == 'm',
        "\x1b[31m"@.len() == 5 && "\x1b[31m"@[0] == '\x1b' && "\x1b[31m"@[1] == '[' && "\x1b[31m"@[2] == '3' && "\x1b[31m"@[3] == '1' && "\x1b[31m"@[4] == 'm',
        "\x1b[32m"@.len() == 5 && "\x1b[32m"@[0] == '\x1b' && "\x1b[32m"@[1] == '[' && "\x1b[32m"@[2] == '3' && "\x1b[32m"@[3] == '2' && "\x1b[32m"@[4] == 'm',
        "\x1b[33m"@.len() == 5 && "\x1b[33m"@[0] == '\x1b' && "\x1b[33m"@[1] == '[' && "\x1b[33m"@[2] == '3' && "\x1b[33m"@[3] == '3' && "\x1b[33m"@[4] == 'm',
        "\x1b[34m"@.len() == 5 && "\x1b[34m"@[0] == '\x1b' && "\x1b[34m"@[1] == '[' && "\x1b[34m"@[2] == '3' && "\x1b[34m"@[3] == '4' && "\x1b[34m"@[4] == 'm',
        "\x1b[35m"@.len() == 5 && "\x1b[35m"@[0] == '\x1b' && "\x1b[35m"@[1] == '[' && "\x1b[35m"@[2] == '3' && "\x1b[35m"@[3] == '5' && "\x1b[35m"@[4] == 'm',
        "\x1b[36m"@.len() == 5 && "\x1b[36m"@[0] == '\x1b' && "\x1b[36m"@[1] == '[' && "\x1b[36m"@[2] == '3' && "\x1b[36m"@[3] == '6' && "\x1b[36m"@[4] == 'm',
        "\x1b[39m"@.len() == 5 && "\x1b[39m"@[0] == '\x1b' && "\x1b[39m"@[1] == '[' && "\x1b[39m"@[2] == '3' && "\x1b[39m"@[3] == '9' && "\x1b[39m"@[4] == 'm',
{
    reveal_strlit("black_fg");
    reveal_strlit("black");
    reveal_strlit("bl");
    reveal_strlit("white_fg");
    reveal_strlit("white");
    reveal_strlit("w");
    reveal_strlit("gray_fg");
    reveal_strlit("gray");
    reveal_strlit("gr");
    reveal_strlit("bright_gray_fg");
    reveal_strlit("bgray");
    reveal_strlit("bgr");
    reveal_strlit("red_fg");
    reveal_strlit("red");
    reveal_strlit("r");
    reveal_strlit("green_fg");
    reveal_strlit("green");
    reveal_strlit("g");
    reveal_strlit("yellow_fg");
    reveal_strlit("yellow");
    reveal_strlit("y");
    reveal_strlit("blue_fg");
    reveal_strlit("blue");
    reveal_strlit("b");
    reveal_strlit("magenta_fg");
    reveal_strlit("magenta");
    reveal_strlit("m");
    reveal_strlit("cyan_fg");
    reveal_strlit("cyan");
    reveal_strlit("c");
    reveal_strlit("dark_red_fg");
    reveal_strlit("dred");
    reveal_strlit("dr");
    reveal_strlit("dark_green_fg");
    reveal_strlit("dgreen");
    reveal_strlit("dg");
    reveal_strlit("dark_yellow_fg");
    reveal_strlit("dyellow");
    reveal_strlit("dy");
    reveal_strlit("dark_blue_fg");
    reveal_strlit("dblue");
    reveal_strlit("db");
    reveal_strlit("dark_magenta_fg");
    reveal_strlit("dmagenta");
    reveal_strlit("dm");
    reveal_strlit("dark_cyan_fg");
    reveal_strlit("dcyan");
    reveal_strlit("dc");
    reveal_strlit("_fg");
    reveal_strlit("\x1b[");
    reveal_strlit("\x1b[30m");
    reveal_strlit("\x1b[97m");
    reveal_strlit("\x1b[90m");
    reveal_strlit("\x1b[37m");
    reveal_strlit("\x1b[91m");
    reveal_strlit("\x1b[92m");
    reveal_strlit("\x1b[93m");
    reveal_strlit("\x1b[94m");
    reveal_strlit("\x1b[95m");
    reveal_strlit("\x1b[96m");
    reveal_strlit("\x1b[31m");
    reveal_strlit("\x1b[32m");
    reveal_strlit("\x1b[33m");
    reveal_strlit("\x1b[34m");
    reveal_strlit("\x1b[35m");
    reveal_strlit("\x1b[36m");
    reveal_strlit("\x1b[39m");
}

/// The characters of the names and codes of the background colors and the reset of the underline color.
proof fn lemma_bg_spelling()
    ensures
        "black_bg"@.len() == 8 && "black_bg"@[0] == 'b' && "black_bg"@[1] == 'l' && "black_bg"@[2] == 'a' && "black_bg"@[3] == 'c' && "black_bg"@[4] == 'k' && "black_bg"@[5] == '_' && "black_bg"@[6] == 'b' && "black_bg"@[7] == 'g',
        "blackb"@.len() == 6 && "blackb"@[0] == 'b' && "blackb"@[1] == 'l' && "blackb"@[2] == 'a' && "blackb"@[3] == 'c' && "blackb"@[4] == 'k' && "blackb"@[5] == 'b',
        "blb"@.len() == 3 && "blb"@[0] == 'b' && "blb"@[1] == 'l' && "blb"@[2] == 'b',
        "white_bg"@.len() == 8 && "white_bg"@[0] == 'w' && "white_bg"@[1] == 'h' && "white_bg"@[2] == 'i' && "white_bg"@[3] == 't' && "white_bg"@[4] == 'e' && "white_bg"@[5] == '_' && "white_bg"@[6] == 'b' && "white_bg"@[7] == 'g',
        "whiteb"@.len() == 6 && "whiteb"@[0] == 'w' && "whiteb"@[1] == 'h' && "whiteb"@[2] == 'i' && "whiteb"@[3] == 't' && "whiteb"@[4] == 'e' && "whiteb"@[5] == 'b',
        "wb"@.len() == 2 && "wb"@[0] == 'w' && "wb"@[1] == 'b',
        "gray_bg"@.len() == 7 && "gray_bg"@[0] == 'g' && "gray_bg"@[1] == 'r' && "gray_bg"@[2] == 'a' && "gray_bg"@[3] == 'y' && "gray_bg"@[4] == '_' && "gray_bg"@[5] == 'b' && "gray_bg"@[6] == 'g',
        "grayb"@.len() == 5 && "grayb"@[0] == 'g' && "grayb"@[1] == 'r' && "grayb"@[2] == 'a' && "grayb"@[3] == 'y' && "grayb"@[4] == 'b',
        "grb"@.len() == 3 && "grb"@[0] == 'g' && "grb"@[1] == 'r' && "grb"@[2] == 'b',
        "bright_gray_bg"@.len() == 14 && "bright_gray_bg"@[0] == 'b' && "bright_gray_bg"@[1] == 'r' && "bright_gray_bg"@[2] == 'i' && "bright_gray_bg"@[3] == 'g' && "bright_gray_bg"@[4] == 'h' && "bright_gray_bg"@[5] == 't' && "bright_gray_bg"@[6] == '_' && "bright_gray_bg"@[7] == 'g' && "bright_gray_bg"@[8] == 'r' && "bright_gray_bg"@[9] == 'a' && "bright_gray_bg"@[10] == 'y' && "bright_gray_bg"@[11] == '_' && "bright_gray_bg"@[12] == 'b' && "bright_gray_bg"@[13] == 'g',
        "bgrayb"@.len() == 6 && "bgrayb"@[0] == 'b' && "bgrayb"@[1] == 'g' && "bgrayb"@[2] == 'r' && "bgrayb"@[3] == 'a' && "bgrayb"@[4] == 'y' && "bgrayb"@[5] == 'b',
        "bgrb"@.len() == 4 && "bgrb"@[0] == 'b' && "bgrb"@[1] == 'g' && "bgrb"@[2] == 'r' && "bgrb"@[3] == 'b',
        "red_bg"@.len() == 6 && "red_bg"@[0] == 'r' && "red_bg"@[1] == 'e' && "red_bg"@[2] == 'd' && "red_bg"@[3] == '_' && "red_bg"@[4] == 'b' && "red_bg"@[5] == 'g',
        "redb"@.len() == 4 && "redb"@[0] == 'r' && "redb"@[1] == 'e' && "redb"@[2] == 'd' && "redb"@[3] == 'b',
        "rb"@.len() == 2 && "rb"@[0] == 'r' && "rb"@[1] == 'b',
        "green_bg"@.len() == 8 && "green_bg"@[0] == 'g' && "green_bg"@[1] == 'r' && "green_bg"@[2] == 'e' && "green_bg"@[3] == 'e' && "green_bg"@[4] == 'n' && "green_bg"@[5] == '_' && "green_bg"@[6] == 'b' && "green_bg"@[7] == 'g',
        "greenb"@.len() == 6 && "greenb"@[0] == 'g' && "greenb"@[1] == 'r' && "greenb"@[2] == 'e' && "greenb"@[3] == 'e' && "greenb"@[4] == 'n' && "greenb"@[5] == 'b',
        "gb"@.len() == 2 && "gb"@[0] == 'g' && "gb"@[1] == 'b',
        "yellow_bg"@.len() == 9 && "yellow_bg"@[0] == 'y' && "yellow_bg"@[1] == 'e' && "yellow_bg"@[2] == 'l' && "yellow_bg"@[3] == 'l' && "yellow_bg"@[4] == 'o' && "yellow_bg"@[5] == 'w' && "yellow_bg"@[6] == '_' && "yellow_bg"@[7] == 'b' && "yellow_bg"@[8] == 'g',
        "yellowb"@.len() == 7 && "yellowb"@[0] == 'y' && "yellowb"@[1] == 'e' && "yellowb"@[2] == 'l' && "yellowb"@[3] == 'l' && "yellowb"@[4] == 'o' && "yellowb"@[5] == 'w' && "yellowb"@[6] == 'b',
        "yb"@.len() == 2 && "yb"@[0] == 'y' && "yb"@[1] == 'b',
        "blue_bg"@.len() == 7 && "blue_bg"@[0] == 'b' && "blue_bg"@[1] == 'l' && "blue_bg"@[2] == 'u' && "blue_bg"@[3] == 'e' && "blue_bg"@[4] == '_' && "blue_bg"@[5] == 'b' && "blue_bg"@[6] == 'g',
        "blueb"@.len() == 5 && "blueb"@[0] == 'b' && "blueb"@[1] == 'l' && "blueb"@[2] == 'u' && "blueb"@[3] == 'e' && "blueb"@[4] == 'b',
        "bb"@.len() == 2 && "bb"@[0] == 'b' && "bb"@[1] == 'b',
        "magenta_bg"@.len() == 10 && "magenta_bg"@[0] == 'm' && "magenta_bg"@[1] == 'a' && "magenta_bg"@[2] == 'g' && "magenta_bg"@[3] == 'e' && "magenta_bg"@[4] == 'n' && "magenta_bg"@[5] == 't' && "magenta_bg"@[6] == 'a' && "magenta_bg"@[7] == '_' && "magenta_bg"@[8] == 'b' && "magenta_bg"@[9] == 'g',
        "magentab"@.len() == 8 && "magentab"@[0] == 'm' && "magentab"@[1] == 'a' && "magentab"@[2] == 'g' && "magentab"@[3] == 'e' && "magentab"@[4] == 'n' && "magentab"@[5] == 't' && "magentab"@[6] == 'a' && "magentab"@[7] == 'b',
        "mb"@.len() == 2 && "mb"@[0] == 'm' && "mb"@[1] == 'b',
        "cyan_bg"@.len() == 7 && "cyan_bg"@[0] == 'c' && "cyan_bg"@[1] == 'y' && "cyan_bg"@[2] == 'a' && "cyan_bg"@[3] == 'n' && "cyan_bg"@[4] == '_' && "cyan_bg"@[5] == 'b' && "cyan_bg"@[6] == 'g',
        "cyanb"@.len() == 5 && "cyanb"@[0] == 'c' && "cyanb"@[1] == 'y' && "cyanb"@[2] == 'a' && "cyanb"@[3] == 'n' && "cyanb"@[4] == 'b',
        "cb"@.len() == 2 && "cb"@[0] == 'c' && "cb"@[1] == 'b',
        "dark_red_bg"@.len() == 11 && "dark_red_bg"@[0] == 'd' && "dark_red_bg"@[1] == 'a' && "dark_red_bg"@[2] == 'r' && "dark_red_bg"@[3] == 'k' && "dark_red_bg"@[4] == '_' && "dark_red_bg"@[5] == 'r' && "dark_red_bg"@[6] == 'e' && "dark_red_bg"@[7] == 'd' && "dark_red_bg"@[8] == '_' && "dark_red_bg"@[9] == 'b' && "dark_red_bg"@[10] == 'g',
        "dredb"@.len() == 5 && "dredb"@[0] == 'd' && "dredb"@[1] == 'r' && "dredb"@[2] == 'e' && "dredb"@[3] == 'd' && "dredb"@[4] == 'b',
        "drb"@.len() == 3 && "drb"@[0] == 'd' && "drb"@[1] == 'r' && "drb"@[2] == 'b',
        "dark_green_bg"@.len() == 13 && "dark_green_bg"@[0] == 'd' && "dark_green_bg"@[1] == 'a' && "dark_green_bg"@[2] == 'r' && "dark_green_bg"@[3] == 'k' && "dark_green_bg"@[4] == '_' && "dark_green_bg"@[5] == 'g' && "dark_green_bg"@[6] == 'r' && "dark_green_bg"@[7] == 'e' && "dark_green_bg"@[8] == 'e' && "dark_green_bg"@[9] == 'n' && "dark_green_bg"@[10] == '_' && "dark_green_bg"@[11] == 'b' && "dark_green_bg"@[12] == 'g',
        "dgreenb"@.len() == 7 && "dgreenb"@[0] == 'd' && "dgreenb"@[1] == 'g' && "dgreenb"@[2] == 'r' && "dgreenb"@[3] == 'e' && "dgreenb"@[4] == 'e' && "dgreenb"@[5] == 'n' && "dgreenb"@[6] == 'b',
        "dgb"@.len() == 3 && "dgb"@[0] == 'd' && "dgb"@[1] == 'g' && "dgb"@[2] == 'b',
        "dark_yellow_bg"@.len() == 14 && "dark_yellow_bg"@[0] == 'd' && "dark_yellow_bg"@[1] == 'a' && "dark_yellow_bg"@[2] == 'r' && "dark_yellow_bg"@[3] == 'k' && "dark_yellow_bg"@[4] == '_' && "dark_yellow_bg"@[5] == 'y' && "dark_yellow_bg"@[6] == 'e' && "dark_yellow_bg"@[7] == 'l' && "dark_yellow_bg"@[8] == 'l' && "dark_yellow_bg"@[9] == 'o' && "dark_yellow_bg"@[10] == 'w' && "dark_yellow_bg"@[11] == '_' && "dark_yellow_bg"@[12] == 'b' && "dark_yellow_bg"@[13] == 'g',
        "dyellowb"@.len() == 8 && "dyellowb"@[0] == 'd' && "dyellowb"@[1] == 'y' && "dyellowb"@[2] == 'e' && "dyellowb"@[3] == 'l' && "dyellowb"@[4] == 'l' && "dyellowb"@[5] == 'o' && "dyellowb"@[6] == 'w' && "dyellowb"@[7] == 'b',
        "dyb"@.len() == 3 && "dyb"@[0] == 'd' && "dyb"@[1] == 'y' && "dyb"@[2] == 'b',
        "dark_blue_bg"@.len() == 12 && "dark_blue_bg"@[0] == 'd' && "dark_blue_bg"@[1] == 'a' && "dark_blue_bg"@[2] == 'r' && "dark_blue_bg"@[3] == 'k' && "dark_blue_bg"@[4] == '_' && "dark_blue_bg"@[5] == 'b' && "dark_blue_bg"@[6] == 'l' && "dark_blue_bg"@[7] == 'u' && "dark_blue_bg"@[8] == 'e' && "dark_blue_bg"@[9] == '_' && "dark_blue_bg"@[10] == 'b' && "dark_blue_bg"@[11] == 'g',
        "dblueb"@.len() == 6 && "dblueb"@[0] == 'd' && "dblueb"@[1] == 'b' && "dblueb"@[2] == 'l' && "dblueb"@[3] == 'u' && "dblueb"@[4] == 'e' && "dblueb"@[5] == 'b',
        "dbb"@.len() == 3 && "dbb"@[0] == 'd' && "dbb"@[1] == 'b' && "dbb"@[2] == 'b',
        "dark_magenta_bg"@.len() == 15 && "dark_magenta_bg"@[0] == 'd' && "dark_magenta_bg"@[1] == 'a' && "dark_magenta_bg"@[2] == 'r' && "dark_magenta_bg"@[3] == 'k' && "dark_magenta_bg"@[4] == '_' && "dark_magenta_bg"@[5] == 'm' && "dark_magenta_bg"@[6] == 'a' && "dark_magenta_bg"@[7] == 'g' && "dark_magenta_bg"@[8] == 'e' && "dark_magenta_bg"@[9] == 'n' && "dark_magenta_bg"@[10] == 't' && "dark_magenta_bg"@[11] == 'a' && "dark_magenta_bg"@[12] == '_' && "dark_magenta_bg"@[13] == 'b' && "dark_magenta_bg"@[14] == 'g',
        "dmagentab"@.len() == 9 && "dmagentab"@[0] == 'd' && "dmagentab"@[1] == 'm' && "dmagentab"@[2] == 'a' && "dmagentab"@[3] == 'g' && "dmagentab"@[4] == 'e' && "dmagentab"@[5] == 'n' && "dmagentab"@[6] == 't' && "dmagentab"@[7] == 'a' && "dmagentab"@[8] == 'b',
        "dmb"@.len() == 3 && "dmb"@[0] == 'd' && "dmb"@[1] == 'm' && "dmb"@[2] == 'b',
        "dark_cyan_bg"@.len() == 12 && "dark_cyan_bg"@[0] == 'd' && "dark_cyan_bg"@[1] == 'a' && "dark_cyan_bg"@[2] == 'r' && "dark_cyan_bg"@[3] == 'k' && "dark_cyan_bg"@[4] == '_' && "dark_cyan_bg"@[5] == 'c' && "dark_cyan_bg"@[6] == 'y' && "dark_cyan_bg"@[7] == 'a' && "dark_cyan_bg"@[8] == 'n' && "dark_cyan_bg"@[9] == '_' && "dark_cyan_bg"@[10] == 'b' && "dark_cyan_bg"@[11] == 'g',
        "dcyanb"@.len() == 6 && "dcyanb"@[0] == 'd' && "dcyanb"@[1] == 'c' && "dcyanb"@[2] == 'y' && "dcyanb"@[3] == 'a' && "dcyanb"@[4] == 'n' && "dcyanb"@[5] == 'b',
        "dcb"@.len() == 3 && "dcb"@[0] == 'd' && "dcb"@[1] == 'c' && "dcb"@[2] == 'b',
        "_bg"@.len() == 3 && "_bg"@[0] == '_' && "_bg"@[1] == 'b' && "_bg"@[2] == 'g',
        "_ucolor"@.len() == 7 && "_ucolor"@[0] == '_' && "_ucolor"@[1] == 'u' && "_ucolor"@[2] == 'c' && "_ucolor"@[3] == 'o' && "_ucolor"@[4] == 'l' && "_ucolor"@[5] == 'o' && "_ucolor"@[6] == 'r',
        "_uc"@.len() == 3 && "_uc"@[0] == '_' && "_uc"@[1] == 'u' && "_uc"@[2] == 'c',
        "\x1b["@.len() == 2 && "\x1b["@[0] == '\x1b' && "\x1b["@[1] == '[',
        "m"@.len() == 1 && "m"@[0] == 'm',
        "\x1b[40m"@.len() == 5 && "\x1b[40m"@[0] == '\x1b' && "\x1b[40m"@[1] == '[' && "\x1b[40m"@[2] == '4' && "\x1b[40m"@[3] == '0' && "\x1b[40m"@[4] == 'm',
        "\x1b[107m"@.len() == 6 && "\x1b[107m"@[0] == '\x1b' && "\x1b[107m"@[1] == '[' && "\x1b[107m"@[2] == '1' && "\x1b[107m"@[3] == '0' && "\x1b[107m"@[4] == '7' && "\x1b[107m"@[5] == 'm',
        "\x1b[100m"@.len() == 6 && "\x1b[100m"@[0] == '\x1b' && "\x1b[100m"@[1] == '[' && "\x1b[100m"@[2] == '1' && "\x1b[100m"@[3] == '0' && "\x1b[100m"@[4] == '0' && "\x1b[100m"@[5] == 'm',
        "\x1b[47m"@.len() == 5 && "\x1b[47m"@[0] == '\x1b' && "\x1b[47m"@[1] == '[' && "\x1b[47m"@[2] == '4' && "\x1b[47m"@[3] == '7' && "\x1b[47m"@[4] == 'm',
        "\x1b[101m"@.len() == 6 && "\x1b[101m"@[0] == '\x1b' && "\x1b[101m"@[1] == '[' && "\x1b[101m"@[2] == '1' && "\x1b[101m"@[3] == '0' && "\x1b[101m"@[4] == '1' && "\x1b[101m"@[5] == 'm',
        "\x1b[102m"@.len() == 6 && "\x1b[102m"@[0] == '\x1b' && "\x1b[102m"@[1] == '[' && "\x1b[102m"@[2] == '1' && "\x1b[102m"@[3] == '0' && "\x1b[102m"@[4] == '2' && "\x1b[102m"@[5] == 'm',
        "\x1b[103m"@.len() == 6 && "\x1b[103m"@[0] == '\x1b' && "\x1b[103m"@[1] == '[' && "\x1b[103m"@[2] == '1' && "\x1b[103m"@[3] == '0' && "\x1b[103m"@[4] == '3' && "\x1b[103m"@[5] == 'm',
        "\x1b[104m"@.len() == 6 && "\x1b[104m"@[0] == '\x1b' && "\x1b[104m"@[1] == '[' && "\x1b[104m"@[2] == '1' && "\x1b[104m"@[3] == '0' && "\x1b[104m"@[4] == '4' && "\x1b[104m"@[5] == 'm',
        "\x1b[105m"@.len() == 6 && "\x1b[105m"@[0] == '\x1b' && "\x1b[105m"@[1] == '[' && "\x1b[105m"@[2] == '1' && "\x1b[105m"@[3] == '0' && "\x1b[105m"@[4] == '5' && "\x1b[105m"@[5] == 'm',
        "\x1b[106m"@.len() == 6 && "\x1b[106m"@[0] == '\x1b' && "\x1b[106m"@[1] == '[' && "\x1b[106m"@[2] == '1' && "\x1b[106m"@[3] == '0' && "\x1b[106m"@[4] == '6' && "\x1b[106m"@[5] == 'm',
        "\x1b[41m"@.len() == 5 && "\x1b[41m"@[0] == '\x1b' && "\x1b[41m"@[1] == '[' && "\x1b[41m"@[2] == '4' && "\x1b[41m"@[3] == '1' && "\x1b[41m"@[4] == 'm',
        "\x1b[42m"@.len() == 5 && "\x1b[42m"@[0] == '\x1b' && "\x1b[42m"@[1] == '[' && "\x1b[42m"@[2] == '4' && "\x1b[42m"@[3] == '2' && "\x1b[42m"@[4] == 'm',
        "\x1b[43m"@.len() == 5 && "\x1b[43m"@[0] == '\x1b' && "\x1b[43m"@[1] == '[' && "\x1b[43m"@[2] == '4' && "\x1b[43m"@[3] == '3' && "\x1b[43m"@[4] == 'm',
        "\x1b[44m"@.len() == 5 && "\x1b[44m"@[0] == '\x1b' && "\x1b[44m"@[1] == '[' && "\x1b[44m"@[2] == '4' && "\x1b[44m"@[3] == '4' && "\x1b[44m"@[4] == 'm',
        "\x1b[45m"@.len() == 5 && "\x1b[45m"@[0] == '\x1b' && "\x1b[45m"@[1] == '[' && "\x1b[45m"@[2] == '4' && "\x1b[45m"@[3] == '5' && "\x1b[45m"@[4] == 'm',
        "\x1b[46m"@.len() == 5 && "\x1b[46m"@[0] == '\x1b' && "\x1b[46m"@[1] == '[' && "\x1b[46m"@[2] == '4' && "\x1b[46m"@[3] == '6' && "\x1b[46m"@[4] == 'm',
        "\x1b[49m"@.len() == 5 && "\x1b[49m"@[0] == '\x1b' && "\x1b[49m"@[1] == '[' && "\x1b[49m"@[2] == '4' && "\x1b[49m"@[3] == '9' && "\x1b[49m"@[4] == 'm',
        "\x1b[59m"@.len() == 5 && "\x1b[59m"@[0] == '\x1b' && "\x1b[59m"@[1] == '[' && "\x1b[59m"@[2] == '5' && "\x1b[59m"@[3] == '9' && "\x1b[59m"@[4] == 'm',
{
    reveal_strlit("black_bg");
    reveal_strlit("blackb");
    reveal_strlit("blb");
    reveal_strlit("white_bg");
    reveal_strlit("whiteb");
    reveal_strlit("wb");
    reveal_strlit("gray_bg");
    reveal_strlit("grayb");
    reveal_strlit("grb");
    reveal_strlit("bright_gray_bg");
    reveal_strlit("bgrayb");
    reveal_strlit("bgrb");
    reveal_strlit("red_bg");
    reveal_strlit("redb");
    reveal_strlit("rb");
    reveal_strlit("green_bg");
    reveal_strlit("greenb");
    reveal_strlit("gb");
    reveal_strlit("yellow_bg");
    reveal_strlit("yellowb");
    reveal_strlit("yb");
    reveal_strlit("blue_bg");
    reveal_strlit("blueb");
    reveal_strlit("bb");
    reveal_strlit("magenta_bg");
    reveal_strlit("magentab");
    reveal_strlit("mb");
    reveal_strlit("cyan_bg");
    reveal_strlit("cyanb");
    reveal_strlit("cb");
    reveal_strlit("dark_red_bg");
    reveal_strlit("dredb");
    reveal_strlit("drb");
    reveal_strlit("dark_green_bg");
    reveal_strlit("dgreenb");
    reveal_strlit("dgb");
    reveal_strlit("dark_yellow_bg");
    reveal_strlit("dyellowb");
    reveal_strlit("dyb");
    reveal_strlit("dark_blue_bg");
    reveal_strlit("dblueb");
    reveal_strlit("dbb");
    reveal_strlit("dark_magenta_bg");
    reveal_strlit("dmagentab");
    reveal_strlit("dmb");
    reveal_strlit("dark_cyan_bg");
    reveal_strlit("dcyanb");
    reveal_strlit("dcb");
    reveal_strlit("_bg");
    reveal_strlit("_ucolor");
    reveal_strlit("_uc");
    reveal_strlit("\x1b[");
    reveal_strlit("m");
    reveal_strlit("\x1b[40m");
    reveal_strlit("\x1b[107m");
    reveal_strlit("\x1b[100m");
    reveal_strlit("\x1b[47m");
    reveal_strlit("\x1b[101m");
    reveal_strlit("\x1b[102m");
    reveal_strlit("\x1b[103m");
    reveal_strlit("\x1b[104m");
    reveal_strlit("\x1b[105m");
    reveal_strlit("\x1b[106m");
    reveal_strlit("\x1b[41m");
    reveal_strlit("\x1b[42m");
    reveal_strlit("\x1b[43m");
    reveal_strlit("\x1b[44m");
    reveal_strlit("\x1b[45m");
    reveal_strlit("\x1b[46m");
    reveal_strlit("\x1b[49m");
    reveal_strlit("\x1b[59m");
}

/// The characters of the names and codes of the terminal modes.
proof fn lemma_modes_spelling()
    ensures
        "line_wrap"@.len() == 9 && "line_wrap"@[0] == 'l' && "line_wrap"@[1] == 'i' && "line_wrap"@[2] == 'n' && "line_wrap"@[3] == 'e' && "line_wrap"@[4] == '_' && "line_wrap"@[5] == 'w' && "line_wrap"@[6] == 'r' && "line_wrap"@[7] == 'a' && "line_wrap"@[8] == 'p',
        "wrap"@.len() == 4 && "wrap"@[0] == 'w' && "wrap"@[1] == 'r' && "wrap"@[2] == 'a' && "wrap"@[3] == 'p',
        "_line_wrap"@.len() == 10 && "_line_wrap"@[0] == '_' && "_line_wrap"@[1] == 'l' && "_line_wrap"@[2] == 'i' && "_line_wrap"@[3] == 'n' && "_line_wrap"@[4] == 'e' && "_line_wrap"@[5] == '_' && "_line_wrap"@[6] == 'w' && "_line_wrap"@[7] == 'r' && "_line_wrap"@[8] == 'a' && "_line_wrap"@[9] == 'p',
        "_wrap"@.len() == 5 && "_wrap"@[0] == '_' && "_wrap"@[1] == 'w' && "_wrap"@[2] == 'r' && "_wrap"@[3] == 'a' && "_wrap"@[4] == 'p',
        "hide_cursor"@.len() == 11 && "hide_cursor"@[0] == 'h' && "hide_cursor"@[1] == 'i' && "hide_cursor"@[2] == 'd' && "hide_cursor"@[3] == 'e' && "hide_cursor"@[4] == '_' && "hide_cursor"@[5] == 'c' && "hide_cursor"@[6] == 'u' && "hide_cursor"@[7] == 'r' && "hide_cursor"@[8] == 's' && "hide_cursor"@[9] == 'o' && "hide_cursor"@[10] == 'r',
        "nocur"@.len() == 5 && "nocur"@[0] == 'n' && "nocur"@[1] == 'o' && "nocur"@[2] == 'c' && "nocur"@[3] == 'u' && "nocur"@[4] == 'r',
        "show_cursor"@.len() == 11 && "show_cursor"@[0] == 's' && "show_cursor"@[1] == 'h' && "show_cursor"@[2] == 'o' && "show_cursor"@[3] == 'w' && "show_cursor"@[4] == '_' && "show_cursor"@[5] == 'c' && "show_cursor"@[6] == 'u' && "show_cursor"@[7] == 'r' && "show_cursor"@[8] == 's' && "show_cursor"@[9] == 'o' && "show_cursor"@[10] == 'r',
        "_nocur"@.len() == 6 && "_nocur"@[0] == '_' && "_nocur"@[1] == 'n' && "_nocur"@[2] == 'o' && "_nocur"@[3] == 'c' && "_nocur"@[4] == 'u' && "_nocur"@[5] == 'r',
        "save_screen"@.len() == 11 && "save_screen"@[0] == 's' && "save_screen"@[1] == 'a' && "save_screen"@[2] == 'v' && "save_screen"@[3] == 'e' && "save_screen"@[4] == '_' && "save_screen"@[5] == 's' && "save_screen"@[6] == 'c' && "save_screen"@[7] == 'r' && "save_screen"@[8] == 'e' && "save_screen"@[9] == 'e' && "save_screen"@[10] == 'n',
        "sscr"@.len() == 4 && "sscr"@[0] == 's' && "sscr"@[1] == 's' && "sscr"@[2] == 'c' && "sscr"@[3] == 'r',
        "load_screen"@.len() == 11 && "load_screen"@[0] == 'l' && "load_screen"@[1] == 'o' && "load_screen"@[2] == 'a' && "load_screen"@[3] == 'd' && "load_screen"@[4] == '_' && "load_screen"@[5] == 's' && "load_screen"@[6] == 'c' && "load_screen"@[7] == 'r' && "load_screen"@[8] == 'e' && "load_screen"@[9] == 'e' && "load_screen"@[10] == 'n',
        "lscr"@.len() == 4 && "lscr"@[0] == 'l' && "lscr"@[1] == 's' && "lscr"@[2] == 'c' && "lscr"@[3] == 'r',
        "alt_buf"@.len() == 7 && "alt_buf"@[0] == 'a' && "alt_buf"@[1] == 'l' && "alt_buf"@[2] == 't' && "alt_buf"@[3] == '_' && "alt_buf"@[4] == 'b' && "alt_buf"@[5] == 'u' && "alt_buf"@[6] == 'f',
        "abuf"@.len() == 4 && "abuf"@[0] == 'a' && "abuf"@[1] == 'b' && "abuf"@[2] == 'u' && "abuf"@[3] == 'f',
        "_alt_buf"@.len() == 8 && "_alt_buf"@[0] == '_' && "_alt_buf"@[1] == 'a' && "_alt_buf"@[2] == 'l' && "_alt_buf"@[3] == 't' && "_alt_buf"@[4] == '_' && "_alt_buf"@[5] == 'b' && "_alt_buf"@[6] == 'u' && "_alt_buf"@[7] == 'f',
        "_abuf"@.len() == 5 && "_abuf"@[0] == '_' && "_abuf"@[1] == 'a' && "_abuf"@[2] == 'b' && "_abuf"@[3] == 'u' && "_abuf"@[4] == 'f',
        "\x1b[?"@.len() == 3 && "\x1b[?"@[0] == '\x1b' && "\x1b[?"@[1] == '[' && "\x1b[?"@[2] == '?',
        "h"@.len() == 1 && "h"@[0] == 'h',
        "l"@.len() == 1 && "l"@[0] == 'l',
        "\x1b[?7h"@.len() == 5 && "\x1b[?7h"@[0] == '\x1b' && "\x1b[?7h"@[1] == '[' && "\x1b[?7h"@[2] == '?' && "\x1b[?7h"@[3] == '7' && "\x1b[?7h"@[4] == 'h',
        "\x1b[?7l"@.len() == 5 && "\x1b[?7l"@[0] == '\x1b' && "\x1b[?7l"@[1] == '[' && "\x1b[?7l"@[2] == '?' && "\x1b[?7l"@[3] == '7' && "\x1b[?7l"@[4] == 'l',
        "\x1b[?25l"@.len() == 6 && "\x1b[?25l"@[0] == '\x1b' && "\x1b[?25l"@[1] == '[' && "\x1b[?25l"@[2] == '?' && "\x1b[?25l"@[3] == '2' && "\x1b[?25l"@[4] == '5' && "\x1b[?25l"@[5] == 'l',
        "\x1b[?25h"@.len() == 6 && "\x1b[?25h"@[0] == '\x1b' && "\x1b[?25h"@[1] == '[' && "\x1b[?25h"@[2] == '?' && "\x1b[?25h"@[3] == '2' && "\x1b[?25h"@[4] == '5' && "\x1b[?25h"@[5] == 'h',
        "\x1b[?47l"@.len() == 6 && "\x1b[?47l"@[0] == '\x1b' && "\x1b[?47l"@[1] == '[' && "\x1b[?47l"@[2] == '?' && "\x1b[?47l"@[3] == '4' && "\x1b[?47l"@[4] == '7' && "\x1b[?47l"@[5] == 'l',
        "\x1b[?47h"@.len() == 6 && "\x1b[?47h"@[0] == '\x1b' && "\x1b[?47h"@[1] == '[' && "\x1b[?47h"@[2] == '?' && "\x1b[?47h"@[3] == '4' && "\x1b[?47h"@[4] == '7' && "\x1b[?47h"@[5] == 'h',
        "\x1b[?1049h"@.len() == 8 && "\x1b[?1049h"@[0] == '\x1b' && "\x1b[?1049h"@[1] == '[' && "\x1b[?1049h"@[2] == '?' && "\x1b[?1049h"@[3] == '1' && "\x1b[?1049h"@[4] == '0' && "\x1b[?1049h"@[5] == '4' && "\x1b[?1049h"@[6] == '9' && "\x1b[?1049h"@[7] == 'h',
        "\x1b[?1049l"@.len() == 8 && "\x1b[?1049l"@[0] == '\x1b' && "\x1b[?1049l"@[1] == '[' && "\x1b[?1049l"@[2] == '?' && "\x1b[?1049l"@[3] == '1' && "\x1b[?1049l"@[4] == '0' && "\x1b[?1049l"@[5] == '4' && "\x1b[?1049l"@[6] == '9' && "\x1b[?1049l"@[7] == 'l',
{
    reveal_strlit("line_wrap");
    reveal_strlit("wrap");
    reveal_strlit("_line_wrap");
    reveal_strlit("_wrap");
    reveal_strlit("hide_cursor");
    reveal_strlit("nocur");
    reveal_strlit("show_cursor");
    reveal_strlit("_nocur");
    reveal_strlit("save_screen");
    reveal_strlit("sscr");
    reveal_strlit("load_screen");
    reveal_strlit("lscr");
    reveal_strlit("alt_buf");
    reveal_strlit("abuf");
    reveal_strlit("_alt_buf");
    reveal_strlit("_abuf");
    reveal_strlit("\x1b[?");
    reveal_strlit("h");
    reveal_strlit("l");
    reveal_strlit("\x1b[?7h");
    reveal_strlit("\x1b[?7l");
    reveal_strlit("\x1b[?25l");
    reveal_strlit("\x1b[?25h");
    reveal_strlit("\x1b[?47l");
    reveal_strlit("\x1b[?47h");
    reveal_strlit("\x1b[?1049h");
    reveal_strlit("\x1b[?1049l");
}

proof fn lemma_ascii_values()
    ensures
        ascii_code("bell"@) == Some("\x07"@),
        ascii_code("backspace"@) == Some("\x08"@),
        ascii_code("htab"@) == Some("\t"@),
        ascii_code("tab"@) == Some("\t"@),
        ascii_code("move_down_scrl"@) == Some("\n"@),
        ascii_code("mds"@) == Some("\n"@),
        ascii_code("newline"@) == Some("\n\r"@),
        ascii_code("nl"@) == Some("\n\r"@),
        ascii_code("vtab"@) == Some("\x0b"@),
        ascii_code("carriage_return"@) == Some("\r"@),
        ascii_code("cr"@) == Some("\r"@),
        ascii_code("delete"@) == Some("\x7f"@),
        ascii_code("del"@) == Some("\x7f"@),
{
    reveal_with_fuel(decimal, 5);
    lemma_ascii_spelling();
}

/// The names of the single character controls and their codes.
pub proof fn lemma_ascii_names()
    ensures
        fixed_code("bell"@) == Some("\x07"@),
        fixed_code("backspace"@) == Some("\x08"@),
        fixed_code("htab"@) == Some("\t"@),
        fixed_code("tab"@) == Some("\t"@),
        fixed_code("move_down_scrl"@) == Some("\n"@),
        fixed_code("mds"@) == Some("\n"@),
        fixed_code("newline"@) == Some("\n\r"@),
        fixed_code("nl"@) == Some("\n\r"@),
        fixed_code("vtab"@) == Some("\x0b"@),
        fixed_code("carriage_return"@) == Some("\r"@),
        fixed_code("cr"@) == Some("\r"@),
        fixed_code("delete"@) == Some("\x7f"@),
        fixed_code("del"@) == Some("\x7f"@),
{
    lemma_ascii_values();
}

proof fn lemma_cursor_not_ascii()
    ensures
        ascii_code("move_up_scrl"@) is None,
        ascii_code("mus"@) is None,
        ascii_code("save_cur"@) is None,
        ascii_code("save"@) is None,
        ascii_code("s"@) is None,
        ascii_code("load_cur"@) is None,
        ascii_code("load"@) is None,
        ascii_code("l"@) is None,
        ascii_code("erase_to_end"@) is None,
        ascii_code("e_"@) is None,
        ascii_code("erase_from_start"@) is None,
        ascii_code("_e"@) is None,
        ascii_code("erase_screen"@) is None,
        ascii_code("_e_"@) is None,
        ascii_code("erase_all"@) is None,
        ascii_code("e"@) is None,
        ascii_code("erase_ln_end"@) is None,
        ascii_code("el_"@) is None,
        ascii_code("erase_ln_start"@) is None,
        ascii_code("_el"@) is None,
        ascii_code("erase_line"@) is None,
        ascii_code("erase_ln"@) is None,
        ascii_code("_el_"@) is None,
        ascii_code("el"@) is None,
        ascii_code("clear"@) is None,
        ascii_code("cls"@) is None,
{
    lemma_cursor_spelling();
    lemma_ascii_spelling();
}

proof fn lemma_cursor_values()
    ensures
        cursor_code("move_up_scrl"@) == Some("\x1bM"@),
        cursor_code("mus"@) == Some("\x1bM"@),
        cursor_code("save_cur"@) == Some("\x1b7"@),
        cursor_code("save"@) == Some("\x1b7"@),
        cursor_code("s"@) == Some("\x1b7"@),
        cursor_code("load_cur"@) == Some("\x1b8"@),
        cursor_code("load"@) == Some("\x1b8"@),
        cursor_code("l"@) == Some("\x1b8"@),
        cursor_code("erase_to_end"@) == Some("\x1b[J"@),
        cursor_code("e_"@) == Some("\x1b[J"@),
        cursor_code("erase_from_start"@) == Some("\x1b[1J"@),
        cursor_code("_e"@) == Some("\x1b[1J"@),
        cursor_code("erase_screen"@) == Some("\x1b[2J"@),
        cursor_code("_e_"@) == Some("\x1b[2J"@),
        cursor_code("erase_all"@) == Some("\x1b[2J\x1b[3J"@),
        cursor_code("e"@) == Some("\x1b[2J\x1b[3J"@),
        cursor_code("erase_ln_end"@) == Some("\x1b[K"@),
        cursor_code("el_"@) == Some("\x1b[K"@),
        cursor_code("erase_ln_start"@) == Some("\x1b[1K"@),
        cursor_code("_el"@) == Some("\x1b[1K"@),
        cursor_code("erase_line"@) == Some("\x1b[2K"@),
        cursor_code("erase_ln"@) == Some("\x1b[2K"@),
        cursor_code("_el_"@) == Some("\x1b[2K"@),
        cursor_code("el"@) == Some("\x1b[2K"@),
        cursor_code("clear"@) == Some("\x1b[2J\x1b[3J\x1b[H"@),
        cursor_code("cls"@) == Some("\x1b[2J\x1b[3J\x1b[H"@),
{
    reveal_with_fuel(decimal, 5);
    lemma_cursor_spelling();
}

/// The names of the cursor saving, scrolling and erasing commands and their codes.
pub proof fn lemma_cursor_names()
    ensures
        fixed_code("move_up_scrl"@) == Some("\x1bM"@),
        fixed_code("mus"@) == Some("\x1bM"@),
        fixed_code("save_cur"@) == Some("\x1b7"@),
        fixed_code("save"@) == Some("\x1b7"@),
        fixed_code("s"@) == Some("\x1b7"@),
        fixed_code("load_cur"@) == Some("\x1b8"@),
        fixed_code("load"@) == Some("\x1b8"@),
        fixed_code("l"@) == Some("\x1b8"@),
        fixed_code("erase_to_end"@) == Some("\x1b[J"@),
        fixed_code("e_"@) == Some("\x1b[J"@),
        fixed_code("erase_from_start"@) == Some("\x1b[1J"@),
        fixed_code("_e"@) == Some("\x1b[1J"@),
        fixed_code("erase_screen"@) == Some("\x1b[2J"@),
        fixed_code("_e_"@) == Some("\x1b[2J"@),
        fixed_code("erase_all"@) == Some("\x1b[2J\x1b[3J"@),
        fixed_code("e"@) == Some("\x1b[2J\x1b[3J"@),
        fixed_code("erase_ln_end"@) == Some("\x1b[K"@),
        fixed_code("el_"@) == Some("\x1b[K"@),
        fixed_code("erase_ln_start"@) == Some("\x1b[1K"@),
        fixed_code("_el"@) == Some("\x1b[1K"@),
        fixed_code("erase_line"@) == Some("\x1b[2K"@),
        fixed_code("erase_ln"@) == Some("\x1b[2K"@),
        fixed_code("_el_"@) == Some("\x1b[2K"@),
        fixed_code("el"@) == Some("\x1b[2K"@),
        fixed_code("clear"@) == Some("\x1b[2J\x1b[3J\x1b[H"@),
        fixed_code("cls"@) == Some("\x1b[2J\x1b[3J\x1b[H"@),
{
    lemma_cursor_not_ascii();
    lemma_cursor_values();
}

proof fn lemma_style_not_ascii()
    ensures
        ascii_code("reset"@) is None,
        ascii_code("_"@) is None,
        ascii_code("bold"@) is None,
        ascii_code("faint"@) is None,
        ascii_code("f"@) is None,
        ascii_code("italic"@) is None,
        ascii_code("i"@) is None,
        ascii_code("underline"@) is None,
        ascii_code("u"@) is None,
        ascii_code("blinking"@) is None,
        ascii_code("blink"@) is None,
        ascii_code("inverse"@) is None,
        ascii_code("invisible"@) is None,
        ascii_code("invis"@) is None,
        ascii_code("striketrough"@) is None,
        ascii_code("strike"@) is None,
        ascii_code("double_underline"@) is None,
        ascii_code("dunderline"@) is None,
        ascii_code("dun"@) is None,
        ascii_code("overline"@) is None,
        ascii_code("ol"@) is None,
        ascii_code("_bold"@) is None,
        ascii_code("_italic"@) is None,
        ascii_code("_i"@) is None,
        ascii_code("_underline"@) is None,
        ascii_code("_u"@) is None,
        ascii_code("_blinking"@) is None,
        ascii_code("_blink"@) is None,
        ascii_code("_inverse"@) is None,
        ascii_code("_invisible"@) is None,
        ascii_code("_invis"@) is None,
        ascii_code("_striketrough"@) is None,
        ascii_code("_strike"@) is None,
        ascii_code("_overline"@) is None,
        ascii_code("_ol"@) is None,
{
    lemma_style_spelling();
    lemma_ascii_spelling();
}

proof fn lemma_style_not_cursor()
    ensures
        cursor_code("reset"@) is None,
        cursor_code("_"@) is None,
        cursor_code("bold"@) is None,
        cursor_code("faint"@) is None,
        cursor_code("f"@) is None,
        cursor_code("italic"@) is None,
        cursor_code("i"@) is None,
        cursor_code("underline"@) is None,
        cursor_code("u"@) is None,
        cursor_code("blinking"@) is None,
        cursor_code("blink"@) is None,
        cursor_code("inverse"@) is None,
        cursor_code("invisible"@) is None,
        cursor_code("invis"@) is None,
        cursor_code("striketrough"@) is None,
        cursor_code("strike"@) is None,
        cursor_code("double_underline"@) is None,
        cursor_code("dunderline"@) is None,
        cursor_code("dun"@) is None,
        cursor_code("overline"@) is None,
        cursor_code("ol"@) is None,
        cursor_code("_bold"@) is None,
        cursor_code("_italic"@) is None,
        cursor_code("_i"@) is None,
        cursor_code("_underline"@) is None,
        cursor_code("_u"@) is None,
        cursor_code("_blinking"@) is None,
        cursor_code("_blink"@) is None,
        cursor_code("_inverse"@) is None,
        cursor_code("_invisible"@) is None,
        cursor_code("_invis"@) is None,
        cursor_code("_striketrough"@) is None,
        cursor_code("_strike"@) is None,
        cursor_code("_overline"@) is None,
        cursor_code("_ol"@) is None,
{
    lemma_style_spelling();
    lemma_cursor_spelling();
}

proof fn lemma_style_values()
    ensures
        style_code("reset"@) == Some(sgr(0)),
        style_code("_"@) == Some(sgr(0)),
        style_code("bold"@) == Some(sgr(1)),
        style_code("faint"@) == Some(sgr(2)),
        style_code("f"@) == Some(sgr(2)),
        style_code("italic"@) == Some(sgr(3)),
        style_code("i"@) == Some(sgr(3)),
        style_code("underline"@) == Some(sgr(4)),
        style_code("u"@) == Some(sgr(4)),
        style_code("blinking"@) == Some(sgr(5)),
        style_code("blink"@) == Some(sgr(5)),
        style_code("inverse"@) == Some(sgr(7)),
        style_code("invisible"@) == Some(sgr(8)),
        style_code("invis"@) == Some(sgr(8)),
        style_code("striketrough"@) == Some(sgr(9)),
        style_code("strike"@) == Some(sgr(9)),
        style_code("double_underline"@) == Some(sgr(21)),
        style_code("dunderline"@) == Some(sgr(21)),
        style_code("dun"@) == Some(sgr(21)),
        style_code("overline"@) == Some(sgr(53)),
        style_code("ol"@) == Some(sgr(53)),
        style_code("_bold"@) == Some(sgr(22)),
        style_code("_italic"@) == Some(sgr(23)),
        style_code("_i"@) == Some(sgr(23)),
        style_code("_underline"@) == Some(sgr(24)),
        style_code("_u"@) == Some(sgr(24)),
        style_code("_blinking"@) == Some(sgr(25)),
        style_code("_blink"@) == Some(sgr(25)),
        style_code("_inverse"@) == Some(sgr(27)),
        style_code("_invisible"@) == Some(sgr(28)),
        style_code("_invis"@) == Some(sgr(28)),
        style_code("_striketrough"@) == Some(sgr(29)),
        style_code("_strike"@) == Some(sgr(29)),
        style_code("_overline"@) == Some(sgr(55)),
        style_code("_ol"@) == Some(sgr(55)),
{
    reveal_with_fuel(decimal, 5);
    lemma_style_spelling();
}

/// The names of the text styles and their resets and their codes.
pub proof fn lemma_style_names()
    ensures
        fixed_code("reset"@) == Some(sgr(0)),
        fixed_code("_"@) == Some(sgr(0)),
        fixed_code("bold"@) == Some(sgr(1)),
        fixed_code("faint"@) == Some(sgr(2)),
        fixed_code("f"@) == Some(sgr(2)),
        fixed_code("italic"@) == Some(sgr(3)),
        fixed_code("i"@) == Some(sgr(3)),
        fixed_code("underline"@) == Some(sgr(4)),
        fixed_code("u"@) == Some(sgr(4)),
        fixed_code("blinking"@) == Some(sgr(5)),
        fixed_code("blink"@) == Some(sgr(5)),
        fixed_code("inverse"@) == Some(sgr(7)),
        fixed_code("invisible"@) == Some(sgr(8)),
        fixed_code("invis"@) == Some(sgr(8)),
        fixed_code("striketrough"@) == Some(sgr(9)),
        fixed_code("strike"@) == Some(sgr(9)),
        fixed_code("double_underline"@) == Some(sgr(21)),
        fixed_code("dunderline"@) == Some(sgr(21)),
        fixed_code("dun"@) == Some(sgr(21)),
        fixed_code("overline"@) == Some(sgr(53)),
        fixed_code("ol"@) == Some(sgr(53)),
        fixed_code("_bold"@) == Some(sgr(22)),
        fixed_code("_italic"@) == Some(sgr(23)),
        fixed_code("_i"@) == Some(sgr(23)),
        fixed_code("_underline"@) == Some(sgr(24)),
        fixed_code("_u"@) == Some(sgr(24)),
        fixed_code("_blinking"@) == Some(sgr(25)),
        fixed_code("_blink"@) == Some(sgr(25)),
        fixed_code("_inverse"@) == Some(sgr(27)),
        fixed_code("_invisible"@) == Some(sgr(28)),
        fixed_code("_invis"@) == Some(sgr(28)),
        fixed_code("_striketrough"@) == Some(sgr(29)),
        fixed_code("_strike"@) == Some(sgr(29)),
        fixed_code("_overline"@) == Some(sgr(55)),
        fixed_code("_ol"@) == Some(sgr(55)),
{
    lemma_style_not_ascii();
    lemma_style_not_cursor();
    lemma_style_values();
}

proof fn lemma_fg_not_ascii()
    ensures
        ascii_code("black_fg"@) is None,
        ascii_code("black"@) is None,
        ascii_code("bl"@) is None,
        ascii_code("white_fg"@) is None,
        ascii_code("white"@) is None,
        ascii_code("w"@) is None,
        ascii_code("gray_fg"@) is None,
        ascii_code("gray"@) is None,
        ascii_code("gr"@) is None,
        ascii_code("bright_gray_fg"@) is None,
        ascii_code("bgray"@) is None,
        ascii_code("bgr"@) is None,
        ascii_code("red_fg"@) is None,
        ascii_code("red"@) is None,
        ascii_code("r"@) is None,
        ascii_code("green_fg"@) is None,
        ascii_code("green"@) is None,
        ascii_code("g"@) is None,
        ascii_code("yellow_fg"@) is None,
        ascii_code("yellow"@) is None,
        ascii_code("y"@) is None,
        ascii_code("blue_fg"@) is None,
        ascii_code("blue"@) is None,
        ascii_code("b"@) is None,
        ascii_code("magenta_fg"@) is None,
        ascii_code("magenta"@) is None,
        ascii_code("m"@) is None,
        ascii_code("cyan_fg"@) is None,
        ascii_code("cyan"@) is None,
        ascii_code("c"@) is None,
        ascii_code("dark_red_fg"@) is None,
        ascii_code("dred"@) is None,
        ascii_code("dr"@) is None,
        ascii_code("dark_green_fg"@) is None,
        ascii_code("dgreen"@) is None,
        ascii_code("dg"@) is None,
        ascii_code("dark_yellow_fg"@) is None,
        ascii_code("dyellow"@) is None,
        ascii_code("dy"@) is None,
        ascii_code("dark_blue_fg"@) is None,
        ascii_code("dblue"@) is None,
        ascii_code("db"@) is None,
        ascii_code("dark_magenta_fg"@) is None,
        ascii_code("dmagenta"@) is None,
        ascii_code("dm"@) is None,
        ascii_code("dark_cyan_fg"@) is None,
        ascii_code("dcyan"@) is None,
        ascii_code("dc"@) is None,
        ascii_code("_fg"@) is None,
{
    lemma_fg_spelling();
    lemma_ascii_spelling();
}

proof fn lemma_fg_not_cursor()
    ensures
        cursor_code("black_fg"@) is None,
        cursor_code("black"@) is None,
        cursor_code("bl"@) is None,
        cursor_code("white_fg"@) is None,
        cursor_code("white"@) is None,
        cursor_code("w"@) is None,
        cursor_code("gray_fg"@) is None,
        cursor_code("gray"@) is None,
        cursor_code("gr"@) is None,
        cursor_code("bright_gray_fg"@) is None,
        cursor_code("bgray"@) is None,
        cursor_code("bgr"@) is None,
        cursor_code("red_fg"@) is None,
        cursor_code("red"@) is None,
        cursor_code("r"@) is None,
        cursor_code("green_fg"@) is None,
        cursor_code("green"@) is None,
        cursor_code("g"@) is None,
        cursor_code("yellow_fg"@) is None,
        cursor_code("yellow"@) is None,
        cursor_code("y"@) is None,
        cursor_code("blue_fg"@) is None,
        cursor_code("blue"@) is None,
        cursor_code("b"@) is None,
        cursor_code("magenta_fg"@) is None,
        cursor_code("magenta"@) is None,
        cursor_code("m"@) is None,
        cursor_code("cyan_fg"@) is None,
        cursor_code("cyan"@) is None,
        cursor_code("c"@) is None,
        cursor_code("dark_red_fg"@) is None,
        cursor_code("dred"@) is None,
        cursor_code("dr"@) is None,
        cursor_code("dark_green_fg"@) is None,
        cursor_code("dgreen"@) is None,
        cursor_code("dg"@) is None,
        cursor_code("dark_yellow_fg"@) is None,
        cursor_code("dyellow"@) is None,
        cursor_code("dy"@) is None,
        cursor_code("dark_blue_fg"@) is None,
        cursor_code("dblue"@) is None,
        cursor_code("db"@) is None,
        cursor_code("dark_magenta_fg"@) is None,
        cursor_code("dmagenta"@) is None,
        cursor_code("dm"@) is None,
        cursor_code("dark_cyan_fg"@) is None,
        cursor_code("dcyan"@) is None,
        cursor_code("dc"@) is None,
        cursor_code("_fg"@) is None,
{
    lemma_fg_spelling();
    lemma_cursor_spelling();
}

proof fn lemma_fg_not_style()
    ensures
        style_code("black_fg"@) is None,
        style_code("black"@) is None,
        style_code("bl"@) is None,
        style_code("white_fg"@) is None,
        style_code("white"@) is None,
        style_code("w"@) is None,
        style_code("gray_fg"@) is None,
        style_code("gray"@) is None,
        style_code("gr"@) is None,
        style_code("bright_gray_fg"@) is None,
        style_code("bgray"@) is None,
        style_code("bgr"@) is None,
        style_code("red_fg"@) is None,
        style_code("red"@) is None,
        style_code("r"@) is None,
        style_code("green_fg"@) is None,
        style_code("green"@) is None,
        style_code("g"@) is None,
        style_code("yellow_fg"@) is None,
        style_code("yellow"@) is None,
        style_code("y"@) is None,
        style_code("blue_fg"@) is None,
        style_code("blue"@) is None,
        style_code("b"@) is None,
        style_code("magenta_fg"@) is None,
        style_code("magenta"@) is None,
        style_code("m"@) is None,
        style_code("cyan_fg"@) is None,
        style_code("cyan"@) is None,
        style_code("c"@) is None,
        style_code("dark_red_fg"@) is None,
        style_code("dred"@) is None,
        style_code("dr"@) is None,
        style_code("dark_green_fg"@) is None,
        style_code("dgreen"@) is None,
        style_code("dg"@) is None,
        style_code("dark_yellow_fg"@) is None,
        style_code("dyellow"@) is None,
        style_code("dy"@) is None,
        style_code("dark_blue_fg"@) is None,
        style_code("dblue"@) is None,
        style_code("db"@) is None,
        style_code("dark_magenta_fg"@) is None,
        style_code("dmagenta"@) is None,
        style_code("dm"@) is None,
        style_code("dark_cyan_fg"@) is None,
        style_code("dcyan"@) is None,
        style_code("dc"@) is None,
        style_code("_fg"@) is None,
{
    lemma_fg_spelling();
    lemma_style_spelling();
}

proof fn lemma_fg_values()
    ensures
        fg_code("black_fg"@) == Some(sgr(30)),
        fg_code("black"@) == Some(sgr(30)),
        fg_code("bl"@) == Some(sgr(30)),
        fg_code("white_fg"@) == Some(sgr(97)),
        fg_code("white"@) == Some(sgr(97)),
        fg_code("w"@) == Some(sgr(97)),
        fg_code("gray_fg"@) == Some(sgr(90)),
        fg_code("gray"@) == Some(sgr(90)),
        fg_code("gr"@) == Some(sgr(90)),
        fg_code("bright_gray_fg"@) == Some(sgr(37)),
        fg_code("bgray"@) == Some(sgr(37)),
        fg_code("bgr"@) == Some(sgr(37)),
        fg_code("red_fg"@) == Some(sgr(91)),
        fg_code("red"@) == Some(sgr(91)),
        fg_code("r"@) == Some(sgr(91)),
        fg_code("green_fg"@) == Some(sgr(92)),
        fg_code("green"@) == Some(sgr(92)),
        fg_code("g"@) == Some(sgr(92)),
        fg_code("yellow_fg"@) == Some(sgr(93)),
        fg_code("yellow"@) == Some(sgr(93)),
        fg_code("y"@) == Some(sgr(93)),
        fg_code("blue_fg"@) == Some(sgr(94)),
        fg_code("blue"@) == Some(sgr(94)),
        fg_code("b"@) == Some(sgr(94)),
        fg_code("magenta_fg"@) == Some(sgr(95)),
        fg_code("magenta"@) == Some(sgr(95)),
        fg_code("m"@) == Some(sgr(95)),
        fg_code("cyan_fg"@) == Some(sgr(96)),
        fg_code("cyan"@) == Some(sgr(96)),
        fg_code("c"@) == Some(sgr(96)),
        fg_code("dark_red_fg"@) == Some(sgr(31)),
        fg_code("dred"@) == Some(sgr(31)),
        fg_code("dr"@) == Some(sgr(31)),
        fg_code("dark_green_fg"@) == Some(sgr(32)),
        fg_code("dgreen"@) == Some(sgr(32)),
        fg_code("dg"@) == Some(sgr(32)),
        fg_code("dark_yellow_fg"@) == Some(sgr(33)),
        fg_code("dyellow"@) == Some(sgr(33)),
        fg_code("dy"@) == Some(sgr(33)),
        fg_code("dark_blue_fg"@) == Some(sgr(34)),
        fg_code("dblue"@) == Some(sgr(34)),
        fg_code("db"@) == Some(sgr(34)),
        fg_code("dark_magenta_fg"@) == Some(sgr(35)),
        fg_code("dmagenta"@) == Some(sgr(35)),
        fg_code("dm"@) == Some(sgr(35)),
        fg_code("dark_cyan_fg"@) == Some(sgr(36)),
        fg_code("dcyan"@) == Some(sgr(36)),
        fg_code("dc"@) == Some(sgr(36)),
        fg_code("_fg"@) == Some(sgr(39)),
{
    reveal_with_fuel(decimal, 5);
    lemma_fg_spelling();
}

/// The names of the foreground colors and their codes.
pub proof fn lemma_fg_names()
    ensures
        fixed_code("black_fg"@) == Some(sgr(30)),
        fixed_code("black"@) == Some(sgr(30)),
        fixed_code("bl"@) == Some(sgr(30)),
        fixed_code("white_fg"@) == Some(sgr(97)),
        fixed_code("white"@) == Some(sgr(97)),
        fixed_code("w"@) == Some(sgr(97)),
        fixed_code("gray_fg"@) == Some(sgr(90)),
        fixed_code("gray"@) == Some(sgr(90)),
        fixed_code("gr"@) == Some(sgr(90)),
        fixed_code("bright_gray_fg"@) == Some(sgr(37)),
        fixed_code("bgray"@) == Some(sgr(37)),
        fixed_code("bgr"@) == Some(sgr(37)),
        fixed_code("red_fg"@) == Some(sgr(91)),
        fixed_code("red"@) == Some(sgr(91)),
        fixed_code("r"@) == Some(sgr(91)),
        fixed_code("green_fg"@) == Some(sgr(92)),
        fixed_code("green"@) == Some(sgr(92)),
        fixed_code("g"@) == Some(sgr(92)),
        fixed_code("yellow_fg"@) == Some(sgr(93)),
        fixed_code("yellow"@) == Some(sgr(93)),
        fixed_code("y"@) == Some(sgr(93)),
        fixed_code("blue_fg"@) == Some(sgr(94)),
        fixed_code("blue"@) == Some(sgr(94)),
        fixed_code("b"@) == Some(sgr(94)),
        fixed_code("magenta_fg"@) == Some(sgr(95)),
        fixed_code("magenta"@) == Some(sgr(95)),
        fixed_code("m"@) == Some(sgr(95)),
        fixed_code("cyan_fg"@) == Some(sgr(96)),
        fixed_code("cyan"@) == Some(sgr(96)),
        fixed_code("c"@) == Some(sgr(96)),
        fixed_code("dark_red_fg"@) == Some(sgr(31)),
        fixed_code("dred"@) == Some(sgr(31)),
        fixed_code("dr"@) == Some(sgr(31)),
        fixed_code("dark_green_fg"@) == Some(sgr(32)),
        fixed_code("dgreen"@) == Some(sgr(32)),
        fixed_code("dg"@) == Some(sgr(32)),
        fixed_code("dark_yellow_fg"@) == Some(sgr(33)),
        fixed_code("dyellow"@) == Some(sgr(33)),
        fixed_code("dy"@) == Some(sgr(33)),
        fixed_code("dark_blue_fg"@) == Some(sgr(34)),
        fixed_code("dblue"@) == Some(sgr(34)),
        fixed_code("db"@) == Some(sgr(34)),
        fixed_code("dark_magenta_fg"@) == Some(sgr(35)),
        fixed_code("dmagenta"@) == Some(sgr(35)),
        fixed_code("dm"@) == Some(sgr(35)),
        fixed_code("dark_cyan_fg"@) == Some(sgr(36)),
        fixed_code("dcyan"@) == Some(sgr(36)),
        fixed_code("dc"@) == Some(sgr(36)),
        fixed_code("_fg"@) == Some(sgr(39)),
{
    lemma_fg_not_ascii();
    lemma_fg_not_cursor();
    lemma_fg_not_style();
    lemma_fg_values();
}

proof fn lemma_bg_not_ascii()
    ensures
        ascii_code("black_bg"@) is None,
        ascii_code("blackb"@) is None,
        ascii_code("blb"@) is None,
        ascii_code("white_bg"@) is None,
        ascii_code("whiteb"@) is None,
        ascii_code("wb"@) is None,
        ascii_code("gray_bg"@) is None,
        ascii_code("grayb"@) is None,
        ascii_code("grb"@) is None,
        ascii_code("bright_gray_bg"@) is None,
        ascii_code("bgrayb"@) is None,
        ascii_code("bgrb"@) is None,
        ascii_code("red_bg"@) is None,
        ascii_code("redb"@) is None,
        ascii_code("rb"@) is None,
        ascii_code("green_bg"@) is None,
        ascii_code("greenb"@) is None,
        ascii_code("gb"@) is None,
        ascii_code("yellow_bg"@) is None,
        ascii_code("yellowb"@) is None,
        ascii_code("yb"@) is None,
        ascii_code("blue_bg"@) is None,
        ascii_code("blueb"@) is None,
        ascii_code("bb"@) is None,
        ascii_code("magenta_bg"@) is None,
        ascii_code("magentab"@) is None,
        ascii_code("mb"@) is None,
        ascii_code("cyan_bg"@) is None,
        ascii_code("cyanb"@) is None,
        ascii_code("cb"@) is None,
        ascii_code("dark_red_bg"@) is None,
        ascii_code("dredb"@) is None,
        ascii_code("drb"@) is None,
        ascii_code("dark_green_bg"@) is None,
        ascii_code("dgreenb"@) is None,
        ascii_code("dgb"@) is None,
        ascii_code("dark_yellow_bg"@) is None,
        ascii_code("dyellowb"@) is None,
        ascii_code("dyb"@) is None,
        ascii_code("dark_blue_bg"@) is None,
        ascii_code("dblueb"@) is None,
        ascii_code("dbb"@) is None,
        ascii_code("dark_magenta_bg"@) is None,
        ascii_code("dmagentab"@) is None,
        ascii_code("dmb"@) is None,
        ascii_code("dark_cyan_bg"@) is None,
        ascii_code("dcyanb"@) is None,
        ascii_code("dcb"@) is None,
        ascii_code("_bg"@) is None,
        ascii_code("_ucolor"@) is None,
        ascii_code("_uc"@) is None,
{
    lemma_bg_spelling();
    lemma_ascii_spelling();
}

proof fn lemma_bg_not_cursor()
    ensures
        cursor_code("black_bg"@) is None,
        cursor_code("blackb"@) is None,
        cursor_code("blb"@) is None,
        cursor_code("white_bg"@) is None,
        cursor_code("whiteb"@) is None,
        cursor_code("wb"@) is None,
        cursor_code("gray_bg"@) is None,
        cursor_code("grayb"@) is None,
        cursor_code("grb"@) is None,
        cursor_code("bright_gray_bg"@) is None,
        cursor_code("bgrayb"@) is None,
        cursor_code("bgrb"@) is None,
        cursor_code("red_bg"@) is None,
        cursor_code("redb"@) is None,
        cursor_code("rb"@) is None,
        cursor_code("green_bg"@) is None,
        cursor_code("greenb"@) is None,
        cursor_code("gb"@) is None,
        cursor_code("yellow_bg"@) is None,
        cursor_code("yellowb"@) is None,
        cursor_code("yb"@) is None,
        cursor_code("blue_bg"@) is None,
        cursor_code("blueb"@) is None,
        cursor_code("bb"@) is None,
        cursor_code("magenta_bg"@) is None,
        cursor_code("magentab"@) is None,
        cursor_code("mb"@) is None,
        cursor_code("cyan_bg"@) is None,
        cursor_code("cyanb"@) is None,
        cursor_code("cb"@) is None,
        cursor_code("dark_red_bg"@) is None,
        cursor_code("dredb"@) is None,
        cursor_code("drb"@) is None,
        cursor_code("dark_green_bg"@) is None,
        cursor_code("dgreenb"@) is None,
        cursor_code("dgb"@) is None,
        cursor_code("dark_yellow_bg"@) is None,
        cursor_code("dyellowb"@) is None,
        cursor_code("dyb"@) is None,
        cursor_code("dark_blue_bg"@) is None,
        cursor_code("dblueb"@) is None,
        cursor_code("dbb"@) is None,
        cursor_code("dark_magenta_bg"@) is None,
        cursor_code("dmagentab"@) is None,
        cursor_code("dmb"@) is None,
        cursor_code("dark_cyan_bg"@) is None,
        cursor_code("dcyanb"@) is None,
        cursor_code("dcb"@) is None,
        cursor_code("_bg"@) is None,
        cursor_code("_ucolor"@) is None,
        cursor_code("_uc"@) is None,
{
    lemma_bg_spelling();
    lemma_cursor_spelling();
}

proof fn lemma_bg_not_style()
    ensures
        style_code("black_bg"@) is None,
        style_code("blackb"@) is None,
        style_code("blb"@) is None,
        style_code("white_bg"@) is None,
        style_code("whiteb"@) is None,
        style_code("wb"@) is None,
        style_code("gray_bg"@) is None,
        style_code("grayb"@) is None,
        style_code("grb"@) is None,
        style_code("bright_gray_bg"@) is None,
        style_code("bgrayb"@) is None,
        style_code("bgrb"@) is None,
        style_code("red_bg"@) is None,
        style_code("redb"@) is None,
        style_code("rb"@) is None,
        style_code("green_bg"@) is None,
        style_code("greenb"@) is None,
        style_code("gb"@) is None,
        style_code("yellow_bg"@) is None,
        style_code("yellowb"@) is None,
        style_code("yb"@) is None,
        style_code("blue_bg"@) is None,
        style_code("blueb"@) is None,
        style_code("bb"@) is None,
        style_code("magenta_bg"@) is None,
        style_code("magentab"@) is None,
        style_code("mb"@) is None,
        style_code("cyan_bg"@) is None,
        style_code("cyanb"@) is None,
        style_code("cb"@) is None,
        style_code("dark_red_bg"@) is None,
        style_code("dredb"@) is None,
        style_code("drb"@) is None,
        style_code("dark_green_bg"@) is None,
        style_code("dgreenb"@) is None,
        style_code("dgb"@) is None,
        style_code("dark_yellow_bg"@) is None,
        style_code("dyellowb"@) is None,
        style_code("dyb"@) is None,
        style_code("dark_blue_bg"@) is None,
        style_code("dblueb"@) is None,
        style_code("dbb"@) is None,
        style_code("dark_magenta_bg"@) is None,
        style_code("dmagentab"@) is None,
        style_code("dmb"@) is None,
        style_code("dark_cyan_bg"@) is None,
        style_code("dcyanb"@) is None,
        style_code("dcb"@) is None,
        style_code("_bg"@) is None,
        style_code("_ucolor"@) is None,
        style_code("_uc"@) is None,
{
    lemma_bg_spelling();
    lemma_style_spelling();
}

proof fn lemma_bg_not_fg()
    ensures
        fg_code("black_bg"@) is None,
        fg_code("blackb"@) is None,
        fg_code("blb"@) is None,
        fg_code("white_bg"@) is None,
        fg_code("whiteb"@) is None,
        fg_code("wb"@) is None,
        fg_code("gray_bg"@) is None,
        fg_code("grayb"@) is None,
        fg_code("grb"@) is None,
        fg_code("bright_gray_bg"@) is None,
        fg_code("bgrayb"@) is None,
        fg_code("bgrb"@) is None,
        fg_code("red_bg"@) is None,
        fg_code("redb"@) is None,
        fg_code("rb"@) is None,
        fg_code("green_bg"@) is None,
        fg_code("greenb"@) is None,
        fg_code("gb"@) is None,
        fg_code("yellow_bg"@) is None,
        fg_code("yellowb"@) is None,
        fg_code("yb"@) is None,
        fg_code("blue_bg"@) is None,
        fg_code("blueb"@) is None,
        fg_code("bb"@) is None,
        fg_code("magenta_bg"@) is None,
        fg_code("magentab"@) is None,
        fg_code("mb"@) is None,
        fg_code("cyan_bg"@) is None,
        fg_code("cyanb"@) is None,
        fg_code("cb"@) is None,
        fg_code("dark_red_bg"@) is None,
        fg_code("dredb"@) is None,
        fg_code("drb"@) is None,
        fg_code("dark_green_bg"@) is None,
        fg_code("dgreenb"@) is None,
        fg_code("dgb"@) is None,
        fg_code("dark_yellow_bg"@) is None,
        fg_code("dyellowb"@) is None,
        fg_code("dyb"@) is None,
        fg_code("dark_blue_bg"@) is None,
        fg_code("dblueb"@) is None,
        fg_code("dbb"@) is None,
        fg_code("dark_magenta_bg"@) is None,
        fg_code("dmagentab"@) is None,
        fg_code("dmb"@) is None,
        fg_code("dark_cyan_bg"@) is None,
        fg_code("dcyanb"@) is None,
        fg_code("dcb"@) is None,
        fg_code("_bg"@) is None,
        fg_code("_ucolor"@) is None,
        fg_code("_uc"@) is None,
{
    lemma_bg_spelling();
    lemma_fg_spelling();
}

proof fn lemma_bg_values()
    ensures
        bg_code("black_bg"@) == Some(sgr(40)),
        bg_code("blackb"@) == Some(sgr(40)),
        bg_code("blb"@) == Some(sgr(40)),
        bg_code("white_bg"@) == Some(sgr(107)),
        bg_code("whiteb"@) == Some(sgr(107)),
        bg_code("wb"@) == Some(sgr(107)),
        bg_code("gray_bg"@) == Some(sgr(100)),
        bg_code("grayb"@) == Some(sgr(100)),
        bg_code("grb"@) == Some(sgr(100)),
        bg_code("bright_gray_bg"@) == Some(sgr(47)),
        bg_code("bgrayb"@) == Some(sgr(47)),
        bg_code("bgrb"@) == Some(sgr(47)),
        bg_code("red_bg"@) == Some(sgr(101)),
        bg_code("redb"@) == Some(sgr(101)),
        bg_code("rb"@) == Some(sgr(101)),
        bg_code("green_bg"@) == Some(sgr(102)),
        bg_code("greenb"@) == Some(sgr(102)),
        bg_code("gb"@) == Some(sgr(102)),
        bg_code("yellow_bg"@) == Some(sgr(103)),
        bg_code("yellowb"@) == Some(sgr(103)),
        bg_code("yb"@) == Some(sgr(103)),
        bg_code("blue_bg"@) == Some(sgr(104)),
        bg_code("blueb"@) == Some(sgr(104)),
        bg_code("bb"@) == Some(sgr(104)),
        bg_code("magenta_bg"@) == Some(sgr(105)),
        bg_code("magentab"@) == Some(sgr(105)),
        bg_code("mb"@) == Some(sgr(105)),
        bg_code("cyan_bg"@) == Some(sgr(106)),
        bg_code("cyanb"@) == Some(sgr(106)),
        bg_code("cb"@) == Some(sgr(106)),
        bg_code("dark_red_bg"@) == Some(sgr(41)),
        bg_code("dredb"@) == Some(sgr(41)),
        bg_code("drb"@) == Some(sgr(41)),
        bg_code("dark_green_bg"@) == Some(sgr(42)),
        bg_code("dgreenb"@) == Some(sgr(42)),
        bg_code("dgb"@) == Some(sgr(42)),
        bg_code("dark_yellow_bg"@) == Some(sgr(43)),
        bg_code("dyellowb"@) == Some(sgr(43)),
        bg_code("dyb"@) == Some(sgr(43)),
        bg_code("dark_blue_bg"@) == Some(sgr(44)),
        bg_code("dblueb"@) == Some(sgr(44)),
        bg_code("dbb"@) == Some(sgr(44)),
        bg_code("dark_magenta_bg"@) == Some(sgr(45)),
        bg_code("dmagentab"@) == Some(sgr(45)),
        bg_code("dmb"@) == Some(sgr(45)),
        bg_code("dark_cyan_bg"@) == Some(sgr(46)),
        bg_code("dcyanb"@) == Some(sgr(46)),
        bg_code("dcb"@) == Some(sgr(46)),
        bg_code("_bg"@) == Some(sgr(49)),
        bg_code("_ucolor"@) == Some(sgr(59)),
        bg_code("_uc"@) == Some(sgr(59)),
{
    reveal_with_fuel(decimal, 5);
    lemma_bg_spelling();
}

/// The names of the background colors and the reset of the underline color and their codes.
pub proof fn lemma_bg_names()
    ensures
        fixed_code("black_bg"@) == Some(sgr(40)),
        fixed_code("blackb"@) == Some(sgr(40)),
        fixed_code("blb"@) == Some(sgr(40)),
        fixed_code("white_bg"@) == Some(sgr(107)),
        fixed_code("whiteb"@) == Some(sgr(107)),
        fixed_code("wb"@) == Some(sgr(107)),
        fixed_code("gray_bg"@) == Some(sgr(100)),
        fixed_code("grayb"@) == Some(sgr(100)),
        fixed_code("grb"@) == Some(sgr(100)),
        fixed_code("bright_gray_bg"@) == Some(sgr(47)),
        fixed_code("bgrayb"@) == Some(sgr(47)),
        fixed_code("bgrb"@) == Some(sgr(47)),
        fixed_code("red_bg"@) == Some(sgr(101)),
        fixed_code("redb"@) == Some(sgr(101)),
        fixed_code("rb"@) == Some(sgr(101)),
        fixed_code("green_bg"@) == Some(sgr(102)),
        fixed_code("greenb"@) == Some(sgr(102)),
        fixed_code("gb"@) == Some(sgr(102)),
        fixed_code("yellow_bg"@) == Some(sgr(103)),
        fixed_code("yellowb"@) == Some(sgr(103)),
        fixed_code("yb"@) == Some(sgr(103)),
        fixed_code("blue_bg"@) == Some(sgr(104)),
        fixed_code("blueb"@) == Some(sgr(104)),
        fixed_code("bb"@) == Some(sgr(104)),
        fixed_code("magenta_bg"@) == Some(sgr(105)),
        fixed_code("magentab"@) == Some(sgr(105)),
        fixed_code("mb"@) == Some(sgr(105)),
        fixed_code("cyan_bg"@) == Some(sgr(106)),
        fixed_code("cyanb"@) == Some(sgr(106)),
        fixed_code("cb"@) == Some(sgr(106)),
        fixed_code("dark_red_bg"@) == Some(sgr(41)),
        fixed_code("dredb"@) == Some(sgr(41)),
        fixed_code("drb"@) == Some(sgr(41)),
        fixed_code("dark_green_bg"@) == Some(sgr(42)),
        fixed_code("dgreenb"@) == Some(sgr(42)),
        fixed_code("dgb"@) == Some(sgr(42)),
        fixed_code("dark_yellow_bg"@) == Some(sgr(43)),
        fixed_code("dyellowb"@) == Some(sgr(43)),
        fixed_code("dyb"@) == Some(sgr(43)),
        fixed_code("dark_blue_bg"@) == Some(sgr(44)),
        fixed_code("dblueb"@) == Some(sgr(44)),
        fixed_code("dbb"@) == Some(sgr(44)),
        fixed_code("dark_magenta_bg"@) == Some(sgr(45)),
        fixed_code("dmagentab"@) == Some(sgr(45)),
        fixed_code("dmb"@) == Some(sgr(45)),
        fixed_code("dark_cyan_bg"@) == Some(sgr(46)),
        fixed_code("dcyanb"@) == Some(sgr(46)),
        fixed_code("dcb"@) == Some(sgr(46)),
        fixed_code("_bg"@) == Some(sgr(49)),
        fixed_code("_ucolor"@) == Some(sgr(59)),
        fixed_code("_uc"@) == Some(sgr(59)),
{
    lemma_bg_not_ascii();
    lemma_bg_not_cursor();
    lemma_bg_not_style();
    lemma_bg_not_fg();
    lemma_bg_values();
}

proof fn lemma_modes_not_ascii()
    ensures
        ascii_code("line_wrap"@) is None,
        ascii_code("wrap"@) is None,
        ascii_code("_line_wrap"@) is None,
        ascii_code("_wrap"@) is None,
        ascii_code("hide_cursor"@) is None,
        ascii_code("nocur"@) is None,
        ascii_code("show_cursor"@) is None,
        ascii_code("_nocur"@) is None,
        ascii_code("save_screen"@) is None,
        ascii_code("sscr"@) is None,
        ascii_code("load_screen"@) is None,
        ascii_code("lscr"@) is None,
        ascii_code("alt_buf"@) is None,
        ascii_code("abuf"@) is None,
        ascii_code("_alt_buf"@) is None,
        ascii_code("_abuf"@) is None,
{
    lemma_modes_spelling();
    lemma_ascii_spelling();
}

proof fn lemma_modes_not_cursor()
    ensures
        cursor_code("line_wrap"@) is None,
        cursor_code("wrap"@) is None,
        cursor_code("_line_wrap"@) is None,
        cursor_code("_wrap"@) is None,
        cursor_code("hide_cursor"@) is None,
        cursor_code("nocur"@) is None,
        cursor_code("show_cursor"@) is None,
        cursor_code("_nocur"@) is None,
        cursor_code("save_screen"@) is None,
        cursor_code("sscr"@) is None,
        cursor_code("load_screen"@) is None,
        cursor_code("lscr"@) is None,
        cursor_code("alt_buf"@) is None,
        cursor_code("abuf"@) is None,
        cursor_code("_alt_buf"@) is None,
        cursor_code("_abuf"@) is None,
{
    lemma_modes_spelling();
    lemma_cursor_spelling();
}

proof fn lemma_modes_not_style()
    ensures
        style_code("line_wrap"@) is None,
        style_code("wrap"@) is None,
        style_code("_line_wrap"@) is None,
        style_code("_wrap"@) is None,
        style_code("hide_cursor"@) is None,
        style_code("nocur"@) is None,
        style_code("show_cursor"@) is None,
        style_code("_nocur"@) is None,
        style_code("save_screen"@) is None,
        style_code("sscr"@) is None,
        style_code("load_screen"@) is None,
        style_code("lscr"@) is None,
        style_code("alt_buf"@) is None,
        style_code("abuf"@) is None,
        style_code("_alt_buf"@) is None,
        style_code("_abuf"@) is None,
{
    lemma_modes_spelling();
    lemma_style_spelling();
}

proof fn lemma_modes_not_fg()
    ensures
        fg_code("line_wrap"@) is None,
        fg_code("wrap"@) is None,
        fg_code("_line_wrap"@) is None,
        fg_code("_wrap"@) is None,
        fg_code("hide_cursor"@) is None,
        fg_code("nocur"@) is None,
        fg_code("show_cursor"@) is None,
        fg_code("_nocur"@) is None,
        fg_code("save_screen"@) is None,
        fg_code("sscr"@) is None,
        fg_code("load_screen"@) is None,
        fg_code("lscr"@) is None,
        fg_code("alt_buf"@) is None,
        fg_code("abuf"@) is None,
        fg_code("_alt_buf"@) is None,
        fg_code("_abuf"@) is None,
{
    lemma_modes_spelling();
    lemma_fg_spelling();
}

proof fn lemma_modes_not_bg()
    ensures
        bg_code("line_wrap"@) is None,
        bg_code("wrap"@) is None,
        bg_code("_line_wrap"@) is None,
        bg_code("_wrap"@) is None,
        bg_code("hide_cursor"@) is None,
        bg_code("nocur"@) is None,
        bg_code("show_cursor"@) is None,
        bg_code("_nocur"@) is None,
        bg_code("save_screen"@) is None,
        bg_code("sscr"@) is None,
        bg_code("load_screen"@) is None,
        bg_code("lscr"@) is None,
        bg_code("alt_buf"@) is None,
        bg_code("abuf"@) is None,
        bg_code("_alt_buf"@) is None,
        bg_code("_abuf"@) is None,
{
    lemma_modes_spelling();
    lemma_bg_spelling();
}

proof fn lemma_modes_values()
    ensures
        modes_code("line_wrap"@) == Some(dec_mode(7, true)),
        modes_code("wrap"@) == Some(dec_mode(7, true)),
        modes_code("_line_wrap"@) == Some(dec_mode(7, false)),
        modes_code("_wrap"@) == Some(dec_mode(7, false)),
        modes_code("hide_cursor"@) == Some(dec_mode(25, false)),
        modes_code("nocur"@) == Some(dec_mode(25, false)),
        modes_code("show_cursor"@) == Some(dec_mode(25, true)),
        modes_code("_nocur"@) == Some(dec_mode(25, true)),
        modes_code("save_screen"@) == Some(dec_mode(47, false)),
        modes_code("sscr"@) == Some(dec_mode(47, false)),
        modes_code("load_screen"@) == Some(dec_mode(47, true)),
        modes_code("lscr"@) == Some(dec_mode(47, true)),
        modes_code("alt_buf"@) == Some(dec_mode(1049, true)),
        modes_code("abuf"@) == Some(dec_mode(1049, true)),
        modes_code("_alt_buf"@) == Some(dec_mode(1049, false)),
        modes_code("_abuf"@) == Some(dec_mode(1049, false)),
{
    reveal_with_fuel(decimal, 5);
    lemma_modes_spelling();
}

/// The names of the terminal modes and their codes.
pub proof fn lemma_modes_names()
    ensures
        fixed_code("line_wrap"@) == Some(dec_mode(7, true)),
        fixed_code("wrap"@) == Some(dec_mode(7, true)),
        fixed_code("_line_wrap"@) == Some(dec_mode(7, false)),
        fixed_code("_wrap"@) == Some(dec_mode(7, false)),
        fixed_code("hide_cursor"@) == Some(dec_mode(25, false)),
        fixed_code("nocur"@) == Some(dec_mode(25, false)),
        fixed_code("show_cursor"@) == Some(dec_mode(25, true)),
        fixed_code("_nocur"@) == Some(dec_mode(25, true)),
        fixed_code("save_screen"@) == Some(dec_mode(47, false)),
        fixed_code("sscr"@) == Some(dec_mode(47, false)),
        fixed_code("load_screen"@) == Some(dec_mode(47, true)),
        fixed_code("lscr"@) == Some(dec_mode(47, true)),
        fixed_code("alt_buf"@) == Some(dec_mode(1049, true)),
        fixed_code("abuf"@) == Some(dec_mode(1049, true)),
        fixed_code("_alt_buf"@) == Some(dec_mode(1049, false)),
        fixed_code("_abuf"@) == Some(dec_mode(1049, false)),
{
    lemma_modes_not_ascii();
    lemma_modes_not_cursor();
    lemma_modes_not_style();
    lemma_modes_not_fg();
    lemma_modes_not_bg();
    lemma_modes_values();
}

/// The characters of the names and final characters of the commands that
/// take a count.
proof fn lemma_counted_spelling()
    ensures
        "move_up"@.len() == 7 && "move_up"@[0] == 'm' && "move_up"@[1] == 'o' && "move_up"@[2] == 'v' && "move_up"@[3] == 'e' && "move_up"@[4] == '_' && "move_up"@[5] == 'u' && "move_up"@[6] == 'p',
        "mu"@.len() == 2 && "mu"@[0] == 'm' && "mu"@[1] == 'u',
        "move_down"@.len() == 9 && "move_down"@[0] == 'm' && "move_down"@[1] == 'o' && "move_down"@[2] == 'v' && "move_down"@[3] == 'e' && "move_down"@[4] == '_' && "move_down"@[5] == 'd' && "move_down"@[6] == 'o' && "move_down"@[7] == 'w' && "move_down"@[8] == 'n',
        "md"@.len() == 2 && "md"@[0] == 'm' && "md"@[1] == 'd',
        "move_right"@.len() == 10 && "move_right"@[0] == 'm' && "move_right"@[1] == 'o' && "move_right"@[2] == 'v' && "move_right"@[3] == 'e' && "move_right"@[4] == '_' && "move_right"@[5] == 'r' && "move_right"@[6] == 'i' && "move_right"@[7] == 'g' && "move_right"@[8] == 'h' && "move_right"@[9] == 't',
        "mr"@.len() == 2 && "mr"@[0] == 'm' && "mr"@[1] == 'r',
        "move_left"@.len() == 9 && "move_left"@[0] == 'm' && "move_left"@[1] == 'o' && "move_left"@[2] == 'v' && "move_left"@[3] == 'e' && "move_left"@[4] == '_' && "move_left"@[5] == 'l' && "move_left"@[6] == 'e' && "move_left"@[7] == 'f' && "move_left"@[8] == 't',
        "ml"@.len() == 2 && "ml"@[0] == 'm' && "ml"@[1] == 'l',
        "set_down"@.len() == 8 && "set_down"@[0] == 's' && "set_down"@[1] == 'e' && "set_down"@[2] == 't' && "set_down"@[3] == '_' && "set_down"@[4] == 'd' && "set_down"@[5] == 'o' && "set_down"@[6] == 'w' && "set_down"@[7] == 'n',
        "sd"@.len() == 2 && "sd"@[0] == 's' && "sd"@[1] == 'd',
        "set_up"@.len() == 6 && "set_up"@[0] == 's' && "set_up"@[1] == 'e' && "set_up"@[2] == 't' && "set_up"@[3] == '_' && "set_up"@[4] == 'u' && "set_up"@[5] == 'p',
        "su"@.len() == 2 && "su"@[0] == 's' && "su"@[1] == 'u',
        "move_to"@.len() == 7 && "move_to"@[0] == 'm' && "move_to"@[1] == 'o' && "move_to"@[2] == 'v' && "move_to"@[3] == 'e' && "move_to"@[4] == '_' && "move_to"@[5] == 't' && "move_to"@[6] == 'o',
        "mt"@.len() == 2 && "mt"@[0] == 'm' && "mt"@[1] == 't',
        "move_to_column"@.len() == 14 && "move_to_column"@[0] == 'm' && "move_to_column"@[1] == 'o' && "move_to_column"@[2] == 'v' && "move_to_column"@[3] == 'e' && "move_to_column"@[4] == '_' && "move_to_column"@[5] == 't' && "move_to_column"@[6] == 'o' && "move_to_column"@[7] == '_' && "move_to_column"@[8] == 'c' && "move_to_column"@[9] == 'o' && "move_to_column"@[10] == 'l' && "move_to_column"@[11] == 'u' && "move_to_column"@[12] == 'm' && "move_to_column"@[13] == 'n',
        "mc"@.len() == 2 && "mc"@[0] == 'm' && "mc"@[1] == 'c',
        "A"@.len() == 1 && "A"@[0] == 'A',
        "B"@.len() == 1 && "B"@[0] == 'B',
        "C"@.len() == 1 && "C"@[0] == 'C',
        "D"@.len() == 1 && "D"@[0] == 'D',
        "E"@.len() == 1 && "E"@[0] == 'E',
        "F"@.len() == 1 && "F"@[0] == 'F',
{
    reveal_strlit("move_up");
    reveal_strlit("mu");
    reveal_strlit("move_down");
    reveal_strlit("md");
    reveal_strlit("move_right");
    reveal_strlit("mr");
    reveal_strlit("move_left");
    reveal_strlit("ml");
    reveal_strlit("set_down");
    reveal_strlit("sd");
    reveal_strlit("set_up");
    reveal_strlit("su");
    reveal_strlit("move_to");
    reveal_strlit("mt");
    reveal_strlit("move_to_column");
    reveal_strlit("mc");
    reveal_strlit("A");
    reveal_strlit("B");
    reveal_strlit("C");
    reveal_strlit("D");
    reveal_strlit("E");
    reveal_strlit("F");
}

proof fn lemma_counted_not_fixed()
    ensures
        fixed_code("move_up"@) is None,
        fixed_code("mu"@) is None,
        fixed_code("move_down"@) is None,
        fixed_code("md"@) is None,
        fixed_code("move_right"@) is None,
        fixed_code("mr"@) is None,
        fixed_code("move_left"@) is None,
        fixed_code("ml"@) is None,
        fixed_code("set_down"@) is None,
        fixed_code("sd"@) is None,
        fixed_code("set_up"@) is None,
        fixed_code("su"@) is None,
{
    lemma_counted_spelling();
    lemma_ascii_spelling();
    lemma_cursor_spelling();
    lemma_style_spelling();
    lemma_fg_spelling();
    lemma_bg_spelling();
    lemma_modes_spelling();
}

/// The commands that move the cursor by a count: each name stands for its
/// final character (up `A`, down `B`, right `C`, left `D`, to the start of
/// a line down `E` and up `F`), and a missing count is one.
pub proof fn lemma_counted_names(s: Seq<char>, q: int)
    ensures
        command("move_up"@, s, q) == Ok::<(Seq<char>, int), TemplateFault>(
            (counted_code(read_num(s, q).0.unwrap_or(1), seq!['A']), read_num(s, q).1),
        ),
        command("mu"@, s, q) == Ok::<(Seq<char>, int), TemplateFault>(
            (counted_code(read_num(s, q).0.unwrap_or(1), seq!['A']), read_num(s, q).1),
        ),
        command("move_down"@, s, q) == Ok::<(Seq<char>, int), TemplateFault>(
            (counted_code(read_num(s, q).0.unwrap_or(1), seq!['B']), read_num(s, q).1),
        ),
        command("md"@, s, q) == Ok::<(Seq<char>, int), TemplateFault>(
            (counted_code(read_num(s, q).0.unwrap_or(1), seq!['B']), read_num(s, q).1),
        ),
        command("move_right"@, s, q) == Ok::<(Seq<char>, int), TemplateFault>(
            (counted_code(read_num(s, q).0.unwrap_or(1), seq!['C']), read_num(s, q).1),
        ),
        command("mr"@, s, q) == Ok::<(Seq<char>, int), TemplateFault>(
            (counted_code(read_num(s, q).0.unwrap_or(1), seq!['C']), read_num(s, q).1),
        ),
        command("move_left"@, s, q) == Ok::<(Seq<char>, int), TemplateFault>(
            (counted_code(read_num(s, q).0.unwrap_or(1), seq!['D']), read_num(s, q).1),
        ),
        command("ml"@, s, q) == Ok::<(Seq<char>, int), TemplateFault>(
            (counted_code(read_num(s, q).0.unwrap_or(1), seq!['D']), read_num(s, q).1),
        ),
        command("set_down"@, s, q) == Ok::<(Seq<char>, int), TemplateFault>(
            (counted_code(read_num(s, q).0.unwrap_or(1), seq!['E']), read_num(s, q).1),
        ),
        command("sd"@, s, q) == Ok::<(Seq<char>, int), TemplateFault>(
            (counted_code(read_num(s, q).0.unwrap_or(1), seq!['E']), read_num(s, q).1),
        ),
        command("set_up"@, s, q) == Ok::<(Seq<char>, int), TemplateFault>(
            (counted_code(read_num(s, q).0.unwrap_or(1), seq!['F']), read_num(s, q).1),
        ),
        command("su"@, s, q) == Ok::<(Seq<char>, int), TemplateFault>(
            (counted_code(read_num(s, q).0.unwrap_or(1), seq!['F']), read_num(s, q).1),
        ),
{
    lemma_counted_spelling();
    lemma_counted_not_fixed();
    assert(lower_seq("move_up"@) =~= "move_up"@);
    assert(lower_seq("mu"@) =~= "mu"@);
    assert(lower_seq("move_down"@) =~= "move_down"@);
    assert(lower_seq("md"@) =~= "md"@);
    assert(lower_seq("move_right"@) =~= "move_right"@);
    assert(lower_seq("mr"@) =~= "mr"@);
    assert(lower_seq("move_left"@) =~= "move_left"@);
    assert(lower_seq("ml"@) =~= "ml"@);
    assert(lower_seq("set_down"@) =~= "set_down"@);
    assert(lower_seq("sd"@) =~= "sd"@);
    assert(lower_seq("set_up"@) =~= "set_up"@);
    assert(lower_seq("su"@) =~= "su"@);
    assert("A"@ =~= seq!['A']);
    assert("B"@ =~= seq!['B']);
    assert("C"@ =~= seq!['C']);
    assert("D"@ =~= seq!['D']);
    assert("E"@ =~= seq!['E']);
    assert("F"@ =~= seq!['F']);
}

/// The characters of the names of the commands with arguments and of the
/// parts of their codes.
proof fn lemma_argument_spelling()
    ensures
        "fg"@.len() == 2 && "fg"@[0] == 'f' && "fg"@[1] == 'g',
        "bg"@.len() == 2 && "bg"@[0] == 'b' && "bg"@[1] == 'g',
        "ucolor"@.len() == 6 && "ucolor"@[0] == 'u' && "ucolor"@[1] == 'c' && "ucolor"@[2] == 'o' && "ucolor"@[3] == 'l' && "ucolor"@[4] == 'o' && "ucolor"@[5] == 'r',
        "uc"@.len() == 2 && "uc"@[0] == 'u' && "uc"@[1] == 'c',
        "move_up"@.len() == 7 && "move_up"@[0] == 'm' && "move_up"@[1] == 'o' && "move_up"@[2] == 'v' && "move_up"@[3] == 'e' && "move_up"@[4] == '_' && "move_up"@[5] == 'u' && "move_up"@[6] == 'p',
        "mu"@.len() == 2 && "mu"@[0] == 'm' && "mu"@[1] == 'u',
        "move_down"@.len() == 9 && "move_down"@[0] == 'm' && "move_down"@[1] == 'o' && "move_down"@[2] == 'v' && "move_down"@[3] == 'e' && "move_down"@[4] == '_' && "move_down"@[5] == 'd' && "move_down"@[6] == 'o' && "move_down"@[7] == 'w' && "move_down"@[8] == 'n',
        "md"@.len() == 2 && "md"@[0] == 'm' && "md"@[1] == 'd',
        "move_right"@.len() == 10 && "move_right"@[0] == 'm' && "move_right"@[1] == 'o' && "move_right"@[2] == 'v' && "move_right"@[3] == 'e' && "move_right"@[4] == '_' && "move_right"@[5] == 'r' && "move_right"@[6] == 'i' && "move_right"@[7] == 'g' && "move_right"@[8] == 'h' && "move_right"@[9] == 't',
        "mr"@.len() == 2 && "mr"@[0] == 'm' && "mr"@[1] == 'r',
        "move_left"@.len() == 9 && "move_left"@[0] == 'm' && "move_left"@[1] == 'o' && "move_left"@[2] == 'v' && "move_left"@[3] == 'e' && "move_left"@[4] == '_' && "move_left"@[5] == 'l' && "move_left"@[6] == 'e' && "move_left"@[7] == 'f' && "move_left"@[8] == 't',
        "ml"@.len() == 2 && "ml"@[0] == 'm' && "ml"@[1] == 'l',
        "set_down"@.len() == 8 && "set_down"@[0] == 's' && "set_down"@[1] == 'e' && "set_down"@[2] == 't' && "set_down"@[3] == '_' && "set_down"@[4] == 'd' && "set_down"@[5] == 'o' && "set_down"@[6] == 'w' && "set_down"@[7] == 'n',
        "sd"@.len() == 2 && "sd"@[0] == 's' && "sd"@[1] == 'd',
        "set_up"@.len() == 6 && "set_up"@[0] == 's' && "set_up"@[1] == 'e' && "set_up"@[2] == 't' && "set_up"@[3] == '_' && "set_up"@[4] == 'u' && "set_up"@[5] == 'p',
        "su"@.len() == 2 && "su"@[0] == 's' && "su"@[1] == 'u',
        "move_to_column"@.len() == 14 && "move_to_column"@[0] == 'm' && "move_to_column"@[1] == 'o' && "move_to_column"@[2] == 'v' && "move_to_column"@[3] == 'e' && "move_to_column"@[4] == '_' && "move_to_column"@[5] == 't' && "move_to_column"@[6] == 'o' && "move_to_column"@[7] == '_' && "move_to_column"@[8] == 'c' && "move_to_column"@[9] == 'o' && "move_to_column"@[10] == 'l' && "move_to_column"@[11] == 'u' && "move_to_column"@[12] == 'm' && "move_to_column"@[13] == 'n',
        "mc"@.len() == 2 && "mc"@[0] == 'm' && "mc"@[1] == 'c',
        "move_to"@.len() == 7 && "move_to"@[0] == 'm' && "move_to"@[1] == 'o' && "move_to"@[2] == 'v' && "move_to"@[3] == 'e' && "move_to"@[4] == '_' && "move_to"@[5] == 't' && "move_to"@[6] == 'o',
        "mt"@.len() == 2 && "mt"@[0] == 'm' && "mt"@[1] == 't',
        "\x1b[38;5;"@.len() == 7 && "\x1b[38;5;"@[0] == '\x1b' && "\x1b[38;5;"@[1] == '[' && "\x1b[38;5;"@[2] == '3' && "\x1b[38;5;"@[3] == '8' && "\x1b[38;5;"@[4] == ';' && "\x1b[38;5;"@[5] == '5' && "\x1b[38;5;"@[6] == ';',
        "\x1b[48;5;"@.len() == 7 && "\x1b[48;5;"@[0] == '\x1b' && "\x1b[48;5;"@[1] == '[' && "\x1b[48;5;"@[2] == '4' && "\x1b[48;5;"@[3] == '8' && "\x1b[48;5;"@[4] == ';' && "\x1b[48;5;"@[5] == '5' && "\x1b[48;5;"@[6] == ';',
        "\x1b[58;5;"@.len() == 7 && "\x1b[58;5;"@[0] == '\x1b' && "\x1b[58;5;"@[1] == '[' && "\x1b[58;5;"@[2] == '5' && "\x1b[58;5;"@[3] == '8' && "\x1b[58;5;"@[4] == ';' && "\x1b[58;5;"@[5] == '5' && "\x1b[58;5;"@[6] == ';',
        "m"@.len() == 1 && "m"@[0] == 'm',
        "\x1b["@.len() == 2 && "\x1b["@[0] == '\x1b' && "\x1b["@[1] == '[',
        "G"@.len() == 1 && "G"@[0] == 'G',
        "H"@.len() == 1 && "H"@[0] == 'H',
        "\x1b[H"@.len() == 3 && "\x1b[H"@[0] == '\x1b' && "\x1b[H"@[1] == '[' && "\x1b[H"@[2] == 'H',
{
    reveal_strlit("fg");
    reveal_strlit("bg");
    reveal_strlit("ucolor");
    reveal_strlit("uc");
    reveal_strlit("move_up");
    reveal_strlit("mu");
    reveal_strlit("move_down");
    reveal_strlit("md");
    reveal_strlit("move_right");
    reveal_strlit("mr");
    reveal_strlit("move_left");
    reveal_strlit("ml");
    reveal_strlit("set_down");
    reveal_strlit("sd");
    reveal_strlit("set_up");
    reveal_strlit("su");
    reveal_strlit("move_to_column");
    reveal_strlit("mc");
    reveal_strlit("move_to");
    reveal_strlit("mt");
    reveal_strlit("\x1b[38;5;");
    reveal_strlit("\x1b[48;5;");
    reveal_strlit("\x1b[58;5;");
    reveal_strlit("m");
    reveal_strlit("\x1b[");
    reveal_strlit("G");
    reveal_strlit("H");
    reveal_strlit("\x1b[H");
}

proof fn lemma_arguments_not_fixed()
    ensures
        fixed_code("fg"@) is None,
        fixed_code("bg"@) is None,
        fixed_code("ucolor"@) is None,
        fixed_code("uc"@) is None,
        fixed_code("move_to_column"@) is None,
        fixed_code("mc"@) is None,
        fixed_code("move_to"@) is None,
        fixed_code("mt"@) is None,
{
    lemma_argument_spelling();
    lemma_ascii_spelling();
    lemma_cursor_spelling();
    lemma_style_spelling();
    lemma_fg_spelling();
    lemma_bg_spelling();
    lemma_modes_spelling();
}

/// The commands with number arguments: `fg`, `bg` and `ucolor` (`uc`) take
/// one of the 256 colors, for the foreground (38), the background (48) and
/// the underline (58), and fail on a missing number or one of 256 or more;
/// `move_to_column` (`mc`) moves to the given column, the first (0) when
/// none is given.
pub proof fn lemma_argument_names(s: Seq<char>, q: int)
    ensures
        command("fg"@, s, q) == (match read_num(s, q).0 {
            Some(c) => if c < 256 {
                Ok::<(Seq<char>, int), TemplateFault>(
                    ("\x1b[38;5;"@ + decimal(c) + "m"@, read_num(s, q).1),
                )
            } else {
                Err(TemplateFault::ColorOutOfRange("fg"@))
            },
            None => Err(TemplateFault::ColorOutOfRange("fg"@)),
        }),
        command("bg"@, s, q) == (match read_num(s, q).0 {
            Some(c) => if c < 256 {
                Ok::<(Seq<char>, int), TemplateFault>(
                    ("\x1b[48;5;"@ + decimal(c) + "m"@, read_num(s, q).1),
                )
            } else {
                Err(TemplateFault::ColorOutOfRange("bg"@))
            },
            None => Err(TemplateFault::ColorOutOfRange("bg"@)),
        }),
        command("ucolor"@, s, q) == (match read_num(s, q).0 {
            Some(c) => if c < 256 {
                Ok::<(Seq<char>, int), TemplateFault>(
                    ("\x1b[58;5;"@ + decimal(c) + "m"@, read_num(s, q).1),
                )
            } else {
                Err(TemplateFault::ColorOutOfRange("ucolor"@))
            },
            None => Err(TemplateFault::ColorOutOfRange("ucolor"@)),
        }),
        command("uc"@, s, q) == (match read_num(s, q).0 {
            Some(c) => if c < 256 {
                Ok::<(Seq<char>, int), TemplateFault>(
                    ("\x1b[58;5;"@ + decimal(c) + "m"@, read_num(s, q).1),
                )
            } else {
                Err(TemplateFault::ColorOutOfRange("uc"@))
            },
            None => Err(TemplateFault::ColorOutOfRange("uc"@)),
        }),
        command("move_to_column"@, s, q) == Ok::<(Seq<char>, int), TemplateFault>(
            ("\x1b["@ + decimal(read_num(s, q).0.unwrap_or(0)) + "G"@, read_num(s, q).1),
        ),
        command("mc"@, s, q) == Ok::<(Seq<char>, int), TemplateFault>(
            ("\x1b["@ + decimal(read_num(s, q).0.unwrap_or(0)) + "G"@, read_num(s, q).1),
        ),
{
    lemma_argument_spelling();
    lemma_arguments_not_fixed();
    lemma_counted_spelling();
    assert(lower_seq("fg"@) =~= "fg"@);
    assert(lower_seq("bg"@) =~= "bg"@);
    assert(lower_seq("ucolor"@) =~= "ucolor"@);
    assert(lower_seq("uc"@) =~= "uc"@);
    assert(lower_seq("move_to_column"@) =~= "move_to_column"@);
    assert(lower_seq("mc"@) =~= "mc"@);
    assert(lower_seq("move_to"@) =~= "move_to"@);
    assert(lower_seq("mt"@) =~= "mt"@);
}

} // verus!
