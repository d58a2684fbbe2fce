//! What a template means: the output or the mistake, for every template.

use vstd::prelude::*;

use crate::codes::{
    bg256_code, bg_code, column_code, counted_code, fg256_code, fg_code, move_to_code,
    underline256_code, underline_rgb_code, MOVE_HOME,
};
use crate::template::chars::{
    digits_end, hex_digit_value, hex_end, hex_value, is_digit, is_hex, is_name_char,
    lower_seq, name_end, read_num, lemma_digits_end, lemma_hex_end, lemma_name_end,
};
use crate::template::commands::fixed_code;
use crate::template::error::TemplateFault;

verus! {

/// Puts `o` in front of the output of a successful result.
pub open spec fn prepend(o: Seq<char>, r: Result<Seq<char>, TemplateFault>) -> Result<
    Seq<char>,
    TemplateFault,
> {
    match r {
        Ok(x) => Ok(o + x),
        Err(e) => Err(e),
    }
}

/// Puts `o` in front of the output of a successful partial result.
pub open spec fn prepend2(o: Seq<char>, r: Result<(Seq<char>, int), TemplateFault>) -> Result<
    (Seq<char>, int),
    TemplateFault,
> {
    match r {
        Ok((x, q)) => Ok((o + x, q)),
        Err(e) => Err(e),
    }
}

/// Characters that may follow a command name.
pub open spec fn ends_name(c: char) -> bool {
    c == '}' || c == ' ' || is_digit(c) || c == ','
}

/// Characters that may follow the digits of a hex color.
pub open spec fn ends_hex(c: char) -> bool {
    c == '}' || c == ' ' || c == '_' || c == 'u'
}

/// The command that takes a 256 color argument, by its lowercase name:
/// foreground (0), background (1) or underline (2).
pub open spec fn color256_kind(low: Seq<char>) -> Option<nat> {
    if low == "fg"@ {
        Some(0)
    } else if low == "bg"@ {
        Some(1)
    } else if low == "ucolor"@ || low == "uc"@ {
        Some(2)
    } else {
        None
    }
}

/// The cursor command that takes one count, by its lowercase name: its
/// final character and the count used when none is given.
pub open spec fn counted_kind(low: Seq<char>) -> Option<(Seq<char>, nat)> {
    if low == "move_up"@ || low == "mu"@ {
        Some(("A"@, 1))
    } else if low == "move_down"@ || low == "md"@ {
        Some(("B"@, 1))
    } else if low == "move_right"@ || low == "mr"@ {
        Some(("C"@, 1))
    } else if low == "move_left"@ || low == "ml"@ {
        Some(("D"@, 1))
    } else if low == "set_down"@ || low == "sd"@ {
        Some(("E"@, 1))
    } else if low == "set_up"@ || low == "su"@ {
        Some(("F"@, 1))
    } else {
        None
    }
}

/// The code of the command `name` whose arguments start at `q`, and the
/// position after the arguments.
pub open spec fn command(name: Seq<char>, s: Seq<char>, q: int) -> Result<
    (Seq<char>, int),
    TemplateFault,
> {
    let low = lower_seq(name);
    if fixed_code(low) is Some {
        Ok((fixed_code(low)->0, q))
    } else if low == "move_to"@ || low == "mt"@ {
        let (x, q1) = read_num(s, q);
        let comma = q1 < s.len() && s[q1] == ',';
        if !comma && x is Some {
            Err(TemplateFault::TwoArguments(name))
        } else {
            let q2 = if comma { q1 + 1 } else { q1 };
            let (y, q3) = read_num(s, q2);
            if x is None && y is None {
                Ok((MOVE_HOME@, q3))
            } else {
                Ok((move_to_code(x.unwrap_or(0), y.unwrap_or(0)), q3))
            }
        }
    } else if counted_kind(low) is Some {
        let (fin, default) = counted_kind(low)->0;
        let (n, q1) = read_num(s, q);
        Ok((counted_code(n.unwrap_or(default), fin), q1))
    } else if low == "move_to_column"@ || low == "mc"@ {
        let (n, q1) = read_num(s, q);
        Ok((column_code(n.unwrap_or(0)), q1))
    } else if color256_kind(low) is Some {
        let (n, q1) = read_num(s, q);
        if n is Some && n->0 < 256 {
            let kind = color256_kind(low)->0;
            Ok((
                if kind == 0 {
                    fg256_code(n->0)
                } else if kind == 1 {
                    bg256_code(n->0)
                } else {
                    underline256_code(n->0)
                },
                q1,
            ))
        } else {
            Err(TemplateFault::ColorOutOfRange(name))
        }
    } else {
        Err(TemplateFault::UnknownVariable(name))
    }
}

/// A command at `p` (which holds a name character): its code and the
/// position of the ` ` or `}` after it.
pub open spec fn variable(s: Seq<char>, p: int) -> Result<(Seq<char>, int), TemplateFault> {
    let ne = name_end(s, p);
    if ne < s.len() && !ends_name(s[ne]) {
        Err(TemplateFault::UnexpectedChar(s[ne]))
    } else {
        match command(s.subrange(p, ne), s, ne) {
            Err(e) => Err(e),
            Ok((code, q)) => if q >= s.len() {
                Err(TemplateFault::UnexpectedEnd)
            } else if s[q] == ' ' || s[q] == '}' {
                Ok((code, q))
            } else {
                Err(TemplateFault::InvalidSeparator(s[q]))
            },
        }
    }
}

/// The color of hex digits: one digit repeated six times, two digits
/// repeated three times, three digits each doubled, or six digits.
pub open spec fn hex_rgb(d: Seq<char>) -> Option<(u8, u8, u8)> {
    if d.len() == 1 {
        let v = (17 * hex_digit_value(d[0])) as u8;
        Some((v, v, v))
    } else if d.len() == 2 {
        let v = (16 * hex_digit_value(d[0]) + hex_digit_value(d[1])) as u8;
        Some((v, v, v))
    } else if d.len() == 3 {
        Some(
            (
                (17 * hex_digit_value(d[0])) as u8,
                (17 * hex_digit_value(d[1])) as u8,
                (17 * hex_digit_value(d[2])) as u8,
            ),
        )
    } else if d.len() == 6 {
        Some(
            (
                (16 * hex_digit_value(d[0]) + hex_digit_value(d[1])) as u8,
                (16 * hex_digit_value(d[2]) + hex_digit_value(d[3])) as u8,
                (16 * hex_digit_value(d[4]) + hex_digit_value(d[5])) as u8,
            ),
        )
    } else {
        None
    }
}

/// A hex color at `p` (which holds `#`): its code and the position after it.
/// A `_` after the digits makes it a background color, a `u` an underline
/// color; otherwise it is a foreground color.
pub open spec fn color(s: Seq<char>, p: int) -> Result<(Seq<char>, int), TemplateFault> {
    let he = hex_end(s, p + 1);
    if he < s.len() && !ends_hex(s[he]) {
        Err(TemplateFault::InvalidHexChar(s[he]))
    } else {
        let d = s.subrange(p + 1, he);
        if d.len() == 0 || hex_value(d) >= 0x1_0000_0000 {
            Err(TemplateFault::InvalidHex)
        } else {
            match hex_rgb(d) {
                None => Err(TemplateFault::InvalidHexLength),
                Some((r, g, b)) => if he >= s.len() {
                    Err(TemplateFault::UnendedColor)
                } else if s[he] == '_' {
                    Ok((bg_code(r, g, b), he + 1))
                } else if s[he] == 'u' {
                    Ok((underline_rgb_code(r, g, b), he + 1))
                } else if s[he] == ' ' || s[he] == '}' {
                    Ok((fg_code(r, g, b), he))
                } else {
                    Err(TemplateFault::InvalidColorEnd(s[he]))
                },
            }
        }
    }
}

/// The inside of a command block from `p` on: the codes of its commands and
/// the position after the closing `}`.
pub open spec fn block(s: Seq<char>, p: int) -> Result<(Seq<char>, int), TemplateFault>
    decreases s.len() - p,
{
    if p < 0 || p >= s.len() {
        Err(TemplateFault::MissingBlockEnd)
    } else {
        let c = s[p];
        if is_name_char(c) {
            match variable(s, p) {
                Err(e) => Err(e),
                Ok((o, q)) => if p < q <= s.len() {
                    prepend2(o, block(s, q))
                } else {
                    Err(TemplateFault::MissingBlockEnd)
                },
            }
        } else if c == '}' {
            Ok((seq![], p + 1))
        } else if c == '#' {
            match color(s, p) {
                Err(e) => Err(e),
                Ok((o, q)) => if p < q <= s.len() {
                    prepend2(o, block(s, q))
                } else {
                    Err(TemplateFault::MissingBlockEnd)
                },
            }
        } else if c == ' ' {
            block(s, p + 1)
        } else {
            Err(TemplateFault::UnexpectedChar(c))
        }
    }
}

/// The output of the template from `p` on: text is kept, `{'...}` blocks
/// become escape codes, and other braces are kept with the character after
/// them.
pub open spec fn template_from(s: Seq<char>, p: int) -> Result<Seq<char>, TemplateFault>
    decreases s.len() - p,
{
    if p < 0 || p >= s.len() {
        Ok(seq![])
    } else if s[p] == '{' {
        if p + 1 >= s.len() {
            Ok(seq!['{'])
        } else if s[p + 1] == '\'' {
            match block(s, p + 2) {
                Err(e) => Err(e),
                Ok((o, q)) => if p < q <= s.len() {
                    prepend(o, template_from(s, q))
                } else {
                    Err(TemplateFault::MissingBlockEnd)
                },
            }
        } else {
            prepend(seq!['{', s[p + 1]], template_from(s, p + 2))
        }
    } else {
        prepend(seq![s[p]], template_from(s, p + 1))
    }
}

/// The output of a whole template, or its first mistake.
pub open spec fn template_output(s: Seq<char>) -> Result<Seq<char>, TemplateFault> {
    template_from(s, 0)
}

/// The position after the first `}` from `p` on, if there is one.
pub open spec fn block_end(s: Seq<char>, p: int) -> Option<int>
    decreases s.len() - p,
{
    if p < 0 || p >= s.len() {
        None
    } else if s[p] == '}' {
        Some(p + 1)
    } else {
        block_end(s, p + 1)
    }
}

/// The template from `p` on with its `{'...}` blocks left out.
pub open spec fn plain_from(s: Seq<char>, p: int) -> Result<Seq<char>, TemplateFault>
    decreases s.len() - p,
{
    if p < 0 || p >= s.len() {
        Ok(seq![])
    } else if s[p] == '{' {
        if p + 1 >= s.len() {
            Ok(seq!['{'])
        } else if s[p + 1] == '\'' {
            match block_end(s, p + 2) {
                None => Err(TemplateFault::MissingBlockEnd),
                Some(q) => if p < q <= s.len() {
                    plain_from(s, q)
                } else {
                    Err(TemplateFault::MissingBlockEnd)
                },
            }
        } else {
            prepend(seq!['{', s[p + 1]], plain_from(s, p + 2))
        }
    } else {
        prepend(seq![s[p]], plain_from(s, p + 1))
    }
}

/// A whole template with its `{'...}` blocks left out.
pub open spec fn plain_output(s: Seq<char>) -> Result<Seq<char>, TemplateFault> {
    plain_from(s, 0)
}

pub proof fn lemma_read_num(s: Seq<char>, p: int)
    requires
        0 <= p <= s.len(),
    ensures
        p <= read_num(s, p).1 <= s.len(),
{
    lemma_digits_end(s, p);
}

pub proof fn lemma_command_progress(name: Seq<char>, s: Seq<char>, q: int)
    requires
        0 <= q <= s.len(),
    ensures
        command(name, s, q) matches Ok((o, q2)) ==> q <= q2 <= s.len(),
{
    lemma_read_num(s, q);
    let q1 = read_num(s, q).1;
    lemma_read_num(s, q1);
    if q1 < s.len() {
        lemma_read_num(s, q1 + 1);
    }
}

pub proof fn lemma_variable_progress(s: Seq<char>, p: int)
    requires
        0 <= p < s.len(),
        is_name_char(s[p]),
    ensures
        variable(s, p) matches Ok((o, q)) ==> p < q < s.len() && (s[q] == ' ' || s[q] == '}'),
{
    lemma_name_end(s, p);
    assert(name_end(s, p) == name_end(s, p + 1));
    lemma_name_end(s, p + 1);
    lemma_command_progress(s.subrange(p, name_end(s, p)), s, name_end(s, p));
}

pub proof fn lemma_color_progress(s: Seq<char>, p: int)
    requires
        0 <= p < s.len(),
    ensures
        color(s, p) matches Ok((o, q)) ==> p < q <= s.len(),
{
    lemma_hex_end(s, p + 1);
}

pub proof fn lemma_block_progress(s: Seq<char>, p: int)
    requires
        0 <= p,
    ensures
        block(s, p) matches Ok((o, q)) ==> p < q <= s.len(),
    decreases s.len() - p,
{
    if 0 <= p < s.len() {
        let c = s[p];
        if is_name_char(c) {
            lemma_variable_progress(s, p);
            if let Ok((o, q)) = variable(s, p) {
                lemma_block_progress(s, q);
            }
        } else if c == '#' {
            lemma_color_progress(s, p);
            if let Ok((o, q)) = color(s, p) {
                lemma_block_progress(s, q);
            }
        } else if c == ' ' {
            lemma_block_progress(s, p + 1);
        }
    }
}

pub proof fn lemma_block_end(s: Seq<char>, p: int)
    requires
        0 <= p,
    ensures
        block_end(s, p) matches Some(q) ==> p < q <= s.len() && s[q - 1] == '}',
        block_end(s, p) matches Some(q) ==> forall|i: int| p <= i < q - 1 ==> s[i] != '}',
        block_end(s, p) is None ==> forall|i: int| p <= i < s.len() ==> s[i] != '}',
    decreases s.len() - p,
{
    if 0 <= p < s.len() && s[p] != '}' {
        lemma_block_end(s, p + 1);
    }
}

pub proof fn lemma_prepend2_assoc(a: Seq<char>, b: Seq<char>, r: Result<(Seq<char>, int), TemplateFault>)
    ensures
        prepend2(a, prepend2(b, r)) == prepend2(a + b, r),
{
    if let Ok((x, q)) = r {
        assert(a + (b + x) =~= (a + b) + x);
    }
}

pub proof fn lemma_prepend_assoc(a: Seq<char>, b: Seq<char>, r: Result<Seq<char>, TemplateFault>)
    ensures
        prepend(a, prepend(b, r)) == prepend(a + b, r),
{
    if let Ok(x) = r {
        assert(a + (b + x) =~= (a + b) + x);
    }
}

pub proof fn lemma_prepend_empty(r: Result<Seq<char>, TemplateFault>)
    ensures
        prepend(seq![], r) == r,
{
    if let Ok(x) = r {
        assert(seq![] + x =~= x);
    }
}

pub proof fn lemma_prepend2_empty(r: Result<(Seq<char>, int), TemplateFault>)
    ensures
        prepend2(seq![], r) == r,
{
    if let Ok((x, q)) = r {
        assert(seq![] + x =~= x);
    }
}

} // verus!
