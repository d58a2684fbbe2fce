//! Turning templates into text with escape codes, or into plain text.

use vstd::prelude::*;

use crate::codes::{
    bg256_code, bg_code, column, fg256_code, fg_code, move_down, move_left, move_right, move_to,
    move_up, push_bg, push_bg256, push_fg, push_fg256, push_underline256, push_underline_rgb,
    set_down, set_up, underline256_code, underline_rgb_code, MOVE_HOME,
};
use crate::template::chars::{
    hex_digit_value, hex_value, is_hex, chars_vec, digit, is_name_char, lower, lower_seq, name_char, name_end, read_hex, read_number,
    read_num, to_lower, lemma_name_end,
};
use crate::template::commands::{eq_lit, fixed_command};
use crate::template::error::TemplateError;
use crate::template::spec::{
    block, block_end, color, color256_kind, command, counted_kind, ends_hex, ends_name, hex_rgb,
    plain_from, plain_output, prepend, prepend2, template_from, template_output, variable,
    lemma_block_end, lemma_block_progress, lemma_color_progress, lemma_prepend2_assoc,
    lemma_prepend2_empty, lemma_prepend_assoc, lemma_prepend_empty, lemma_variable_progress,
};
use crate::text::{push_char, push_str};

verus! {

fn string_of(v: &Vec<char>) -> (s: String)
    ensures
        s@ == v@,
{
    let mut s = String::new();
    let mut i: usize = 0;
    while i < v.len()
        invariant
            i <= v@.len(),
            s@ == v@.take(i as int),
        decreases v@.len() - i,
    {
        push_char(&mut s, v[i]);
        assert(v@.take(i + 1) =~= v@.take(i as int).push(v@[i as int]));
        i = i + 1;
    }
    assert(v@.take(v@.len() as int) =~= v@);
    s
}

fn owned(s: &str) -> (r: String)
    ensures
        r@ == s@,
{
    let mut r = String::new();
    push_str(&mut r, s);
    r
}

fn counted_command(low: &Vec<char>) -> (r: Option<(&'static str, u32)>)
    ensures
        r is Some <==> counted_kind(low@) is Some,
        r is Some ==> (r->0).0@ == (counted_kind(low@)->0).0 && (r->0).1 == (counted_kind(low@)->0).1,
{
    if eq_lit(low, "move_up") || eq_lit(low, "mu") {
        Some(("A", 1))
    } else if eq_lit(low, "move_down") || eq_lit(low, "md") {
        Some(("B", 1))
    } else if eq_lit(low, "move_right") || eq_lit(low, "mr") {
        Some(("C", 1))
    } else if eq_lit(low, "move_left") || eq_lit(low, "ml") {
        Some(("D", 1))
    } else if eq_lit(low, "set_down") || eq_lit(low, "sd") {
        Some(("E", 1))
    } else if eq_lit(low, "set_up") || eq_lit(low, "su") {
        Some(("F", 1))
    } else {
        None
    }
}

fn counted_code_of(fin: &str, n: u64) -> (r: String)
    requires
        fin@ == "A"@ || fin@ == "B"@ || fin@ == "C"@ || fin@ == "D"@ || fin@ == "E"@ || fin@
            == "F"@,
    ensures
        r@ == crate::codes::counted_code(n as nat, fin@),
{
    if eq_str(fin, "A") {
        move_up(n)
    } else if eq_str(fin, "B") {
        move_down(n)
    } else if eq_str(fin, "C") {
        move_right(n)
    } else if eq_str(fin, "D") {
        move_left(n)
    } else if eq_str(fin, "E") {
        set_down(n)
    } else {
        set_up(n)
    }
}

fn eq_str(a: &str, b: &str) -> (r: bool)
    ensures
        r == (a@ == b@),
{
    let v = chars_vec(a);
    eq_lit(&v, b)
}

fn color256_command(low: &Vec<char>) -> (r: Option<u8>)
    ensures
        r is Some <==> color256_kind(low@) is Some,
        r is Some ==> r->0 as nat == color256_kind(low@)->0,
{
    if eq_lit(low, "fg") {
        Some(0)
    } else if eq_lit(low, "bg") {
        Some(1)
    } else if eq_lit(low, "ucolor") || eq_lit(low, "uc") {
        Some(2)
    } else {
        None
    }
}

/// The code of the command `name` (lowercase `low`) whose arguments start at
/// `q`, and the position after them.
fn parse_command(s: &Vec<char>, q: usize, name: &Vec<char>, low: &Vec<char>) -> (r: Result<
    (String, usize),
    TemplateError,
>)
    requires
        q <= s@.len(),
        low@ == lower_seq(name@),
    ensures
        match command(name@, s@, q as int) {
            Ok((c, q2)) => r matches Ok((x, y)) && x@ == c && y == q2,
            Err(e) => r matches Err(x) && x@ == e,
        },
{
    proof {
        crate::template::spec::lemma_read_num(s@, q as int);
    }
    let fixed = fixed_command(low);
    if let Some(code) = fixed {
        return Ok((owned(code), q));
    }
    if eq_lit(low, "move_to") || eq_lit(low, "mt") {
        let (x, q1) = read_number(s, q);
        proof {
            crate::template::spec::lemma_read_num(s@, q1 as int);
        }
        let comma = q1 < s.len() && s[q1] == ',';
        if !comma && x.is_some() {
            return Err(TemplateError::TwoArguments(string_of(name)));
        }
        let q2 = if comma { q1 + 1 } else { q1 };
        let (y, q3) = read_number(s, q2);
        if x.is_none() && y.is_none() {
            return Ok((owned(MOVE_HOME), q3));
        }
        let xv: u64 = match x { Some(v) => v as u64, None => 0 };
        let yv: u64 = match y { Some(v) => v as u64, None => 0 };
        return Ok((move_to(xv, yv), q3));
    }
    let counted = counted_command(low);
    if let Some((fin, default)) = counted {
        let (n, q1) = read_number(s, q);
        let v: u64 = match n { Some(v) => v as u64, None => default as u64 };
        proof {
            reveal_strlit("A");
            reveal_strlit("B");
            reveal_strlit("C");
            reveal_strlit("D");
            reveal_strlit("E");
            reveal_strlit("F");
        }
        return Ok((counted_code_of(fin, v), q1));
    }
    if eq_lit(low, "move_to_column") || eq_lit(low, "mc") {
        let (n, q1) = read_number(s, q);
        let v: u64 = match n { Some(v) => v as u64, None => 0 };
        return Ok((column(v), q1));
    }
    let c256 = color256_command(low);
    if let Some(kind) = c256 {
        let (n, q1) = read_number(s, q);
        match n {
            Some(v) => {
                if v < 256 {
                    let mut code = String::new();
                    if kind == 0 {
                        push_fg256(&mut code, v as u64);
                    } else if kind == 1 {
                        push_bg256(&mut code, v as u64);
                    } else {
                        push_underline256(&mut code, v as u64);
                    }
                    return Ok((code, q1));
                }
            },
            None => {},
        }
        return Err(TemplateError::ColorOutOfRange(string_of(name)));
    }
    Err(TemplateError::UnknownVariable(string_of(name)))
}

/// Appends the code of the command at `p` and gives the position of the ` `
/// or `}` after it.
fn parse_variable(res: &mut String, s: &Vec<char>, p: usize) -> (r: Result<usize, TemplateError>)
    requires
        p < s@.len(),
        is_name_char(s@[p as int]),
    ensures
        match variable(s@, p as int) {
            Ok((code, q)) => r matches Ok(q2) && q2 == q && final(res)@ == old(res)@ + code,
            Err(e) => r matches Err(x) && x@ == e && final(res)@ == old(res)@,
        },
{
    proof {
        lemma_name_end(s@, p as int);
    }
    let mut i = p;
    let mut name: Vec<char> = Vec::new();
    let mut low: Vec<char> = Vec::new();
    while i < s.len() && name_char(s[i])
        invariant
            p <= i <= s@.len(),
            name_end(s@, i as int) == name_end(s@, p as int),
            name@ == s@.subrange(p as int, i as int),
            low@ == lower_seq(name@),
        decreases s@.len() - i,
    {
        let c = s[i];
        name.push(c);
        low.push(to_lower(c));
        assert(name@ =~= s@.subrange(p as int, i + 1));
        assert(low@ =~= lower_seq(name@));
        i = i + 1;
    }
    if i < s.len() {
        let c = s[i];
        if !(c == '}' || c == ' ' || digit(c) || c == ',') {
            return Err(TemplateError::UnexpectedChar(c));
        }
    }
    let (code, q) = match parse_command(s, i, &name, &low) {
        Ok(x) => x,
        Err(e) => {
            return Err(e);
        },
    };
    if q >= s.len() {
        return Err(TemplateError::UnexpectedEnd);
    }
    let c = s[q];
    if c != ' ' && c != '}' {
        return Err(TemplateError::InvalidSeparator(c));
    }
    push_str(res, code.as_str());
    Ok(q)
}

fn rgb_of_hex(v: u32, len: usize, Ghost(d): Ghost<Seq<char>>) -> (r: Option<(u8, u8, u8)>)
    requires
        d.len() == len,
        1 <= len,
        forall|i: int| 0 <= i < d.len() ==> is_hex(#[trigger] d[i]),
        v as nat == hex_value(d),
    ensures
        r == hex_rgb(d),
{
    if len > 6 {
        return None;
    }
    proof {
        lemma_hex_rgb_value(d);
    }
    if len == 1 {
        let c = (17 * v) as u8;
        Some((c, c, c))
    } else if len == 2 {
        let c = v as u8;
        Some((c, c, c))
    } else if len == 3 {
        let h0 = v / 256;
        let h1 = v / 16 % 16;
        let h2 = v % 16;
        assert(h0 == hex_digit_value(d[0]) && h1 == hex_digit_value(d[1]) && h2
            == hex_digit_value(d[2])) by (nonlinear_arith)
            requires
                v == 256 * hex_digit_value(d[0]) + 16 * hex_digit_value(d[1]) + hex_digit_value(
                    d[2],
                ),
                hex_digit_value(d[0]) < 16,
                hex_digit_value(d[1]) < 16,
                hex_digit_value(d[2]) < 16,
                h0 == v / 256,
                h1 == v / 16 % 16,
                h2 == v % 16,
        ;
        Some(((17 * h0) as u8, (17 * h1) as u8, (17 * h2) as u8))
    } else if len == 6 {
        let c0 = v / 65536;
        let c1 = v / 256 % 256;
        let c2 = v % 256;
        assert(c0 == 16 * hex_digit_value(d[0]) + hex_digit_value(d[1]) && c1 == 16
            * hex_digit_value(d[2]) + hex_digit_value(d[3]) && c2 == 16 * hex_digit_value(d[4])
            + hex_digit_value(d[5])) by (nonlinear_arith)
            requires
                v == 1048576 * hex_digit_value(d[0]) + 65536 * hex_digit_value(d[1]) + 4096
                    * hex_digit_value(d[2]) + 256 * hex_digit_value(d[3]) + 16 * hex_digit_value(
                    d[4],
                ) + hex_digit_value(d[5]),
                hex_digit_value(d[0]) < 16,
                hex_digit_value(d[1]) < 16,
                hex_digit_value(d[2]) < 16,
                hex_digit_value(d[3]) < 16,
                hex_digit_value(d[4]) < 16,
                hex_digit_value(d[5]) < 16,
                c0 == v / 65536,
                c1 == v / 256 % 256,
                c2 == v % 256,
        ;
        Some((c0 as u8, c1 as u8, c2 as u8))
    } else {
        None
    }
}

/// Appends the code of the hex color at `p` and gives the position after it.
fn parse_color(res: &mut String, s: &Vec<char>, p: usize) -> (r: Result<usize, TemplateError>)
    requires
        p < s@.len(),
    ensures
        match color(s@, p as int) {
            Ok((code, q)) => r matches Ok(q2) && q2 == q && final(res)@ == old(res)@ + code,
            Err(e) => r matches Err(x) && x@ == e && final(res)@ == old(res)@,
        },
{
    let n = s.len();
    assert(p + 1 <= n);
    let (value, he) = read_hex(s, p + 1);
    proof {
        crate::template::chars::lemma_hex_end(s@, p + 1);
    }
    if he < s.len() {
        let c = s[he];
        if !(c == '}' || c == ' ' || c == '_' || c == 'u') {
            return Err(TemplateError::InvalidHexChar(c));
        }
    }
    let len = he - (p + 1);
    let v: u32 = match value {
        Some(v) => {
            if len == 0 {
                return Err(TemplateError::InvalidHex);
            }
            v
        },
        None => {
            return Err(TemplateError::InvalidHex);
        },
    };
    let ghost d = s@.subrange(p + 1, he as int);
    let (r, g, b): (u8, u8, u8) = match rgb_of_hex(v, len, Ghost(d)) {
        Some(c) => c,
        None => {
            return Err(TemplateError::InvalidHexLength);
        },
    };
    if he >= s.len() {
        return Err(TemplateError::UnendedColor);
    }
    let c = s[he];
    if c == '_' {
        push_bg(res, r, g, b);
        Ok(he + 1)
    } else if c == 'u' {
        push_underline_rgb(res, r, g, b);
        Ok(he + 1)
    } else if c == ' ' || c == '}' {
        push_fg(res, r, g, b);
        Ok(he)
    } else {
        Err(TemplateError::InvalidColorEnd(c))
    }
}

proof fn lemma_hex_take(d: Seq<char>, k: int)
    requires
        0 <= k < d.len(),
    ensures
        hex_value(d.take(k + 1)) == hex_value(d.take(k)) * 16 + hex_digit_value(d[k]),
{
    assert(d.take(k + 1).drop_last() =~= d.take(k));
}

proof fn lemma_hex_digit_bound(c: char)
    requires
        is_hex(c),
    ensures
        hex_digit_value(c) < 16,
{
}

/// The value of one, two, three or six hex digits, digit by digit.
proof fn lemma_hex_rgb_value(d: Seq<char>)
    requires
        forall|i: int| 0 <= i < d.len() ==> is_hex(#[trigger] d[i]),
        1 <= d.len() <= 6,
    ensures
        forall|i: int| 0 <= i < d.len() ==> hex_digit_value(#[trigger] d[i]) < 16,
        d.len() == 1 ==> hex_value(d) == hex_digit_value(d[0]),
        d.len() == 2 ==> hex_value(d) == 16 * hex_digit_value(d[0]) + hex_digit_value(d[1]),
        d.len() == 3 ==> hex_value(d) == 256 * hex_digit_value(d[0]) + 16 * hex_digit_value(
            d[1],
        ) + hex_digit_value(d[2]),
        d.len() == 6 ==> hex_value(d) == 1048576 * hex_digit_value(d[0]) + 65536
            * hex_digit_value(d[1]) + 4096 * hex_digit_value(d[2]) + 256 * hex_digit_value(d[3])
            + 16 * hex_digit_value(d[4]) + hex_digit_value(d[5]),
{
    assert forall|i: int| 0 <= i < d.len() implies hex_digit_value(#[trigger] d[i]) < 16 by {
        lemma_hex_digit_bound(d[i]);
    }
    assert(d.take(0) =~= Seq::<char>::empty());
    let n = d.len() as int;
    lemma_hex_take(d, 0);
    if n >= 2 {
        lemma_hex_take(d, 1);
    }
    if n >= 3 {
        lemma_hex_take(d, 2);
    }
    if n >= 4 {
        lemma_hex_take(d, 3);
    }
    if n >= 5 {
        lemma_hex_take(d, 4);
    }
    if n >= 6 {
        lemma_hex_take(d, 5);
    }
    assert(d.take(n) =~= d);
}


/// Appends the codes of the block that starts at `p` (after `{'`) and gives
/// the position after its closing `}`.
fn parse_block(res: &mut String, s: &Vec<char>, p: usize) -> (r: Result<usize, TemplateError>)
    requires
        p <= s@.len(),
    ensures
        match block(s@, p as int) {
            Ok((o, q)) => r matches Ok(q2) && q2 == q && final(res)@ == old(res)@ + o,
            Err(e) => r matches Err(x) && x@ == e && old(res)@.is_prefix_of(final(res)@),
        },
{
    let ghost start = res@;
    let ghost mut acc: Seq<char> = seq![];
    let mut i = p;
    proof {
        lemma_prepend2_empty(block(s@, p as int));
    }
    loop
        invariant
            p <= i <= s@.len(),
            res@ == start + acc,
            start == old(res)@,
            block(s@, p as int) == prepend2(acc, block(s@, i as int)),
        decreases s@.len() - i,
    {
        if i >= s.len() {
            return Err(TemplateError::MissingBlockEnd);
        }
        let c = s[i];
        if name_char(c) {
            let ghost before = res@;
            proof {
                lemma_variable_progress(s@, i as int);
            }
            match parse_variable(res, s, i) {
                Ok(q) => {
                    proof {
                        let o = (variable(s@, i as int)->Ok_0).0;
                        lemma_prepend2_assoc(acc, o, block(s@, q as int));
                        acc = acc + o;
                        assert(res@ =~= start + acc);
                    }
                    i = q;
                },
                Err(e) => {
                    return Err(e);
                },
            }
        } else if c == '}' {
            proof {
                assert(acc + seq![] =~= acc);
            }
            return Ok(i + 1);
        } else if c == '#' {
            proof {
                lemma_color_progress(s@, i as int);
            }
            match parse_color(res, s, i) {
                Ok(q) => {
                    proof {
                        let o = (color(s@, i as int)->Ok_0).0;
                        lemma_prepend2_assoc(acc, o, block(s@, q as int));
                        acc = acc + o;
                        assert(res@ =~= start + acc);
                    }
                    i = q;
                },
                Err(e) => {
                    return Err(e);
                },
            }
        } else if c == ' ' {
            i = i + 1;
        } else {
            return Err(TemplateError::UnexpectedChar(c));
        }
    }
}

/// Turns a template into text: `{'...}` blocks become the escape codes of
/// their commands, everything else is kept. Gives the first mistake when the
/// template has one.
///
/// `parse_template("{'y}hi{'_}")` gives `"\x1b[93mhi\x1b[0m"`.
pub fn parse_template(template: &str) -> (r: Result<String, TemplateError>)
    ensures
        match template_output(template@) {
            Ok(o) => r matches Ok(x) && x@ == o,
            Err(e) => r matches Err(x) && x@ == e,
        },
{
    let s = chars_vec(template);
    let mut res = String::new();
    let mut i: usize = 0;
    proof {
        lemma_prepend_empty(template_from(s@, 0));
    }
    while i < s.len()
        invariant
            i <= s@.len(),
            s@ == template@,
            template_from(s@, 0) == prepend(res@, template_from(s@, i as int)),
        decreases s@.len() - i,
    {
        let c = s[i];
        let ghost before = res@;
        if c == '{' {
            if i + 1 >= s.len() {
                push_char(&mut res, '{');
                i = i + 1;
                proof {
                    lemma_prepend_assoc(before, seq!['{'], template_from(s@, i as int));
                    assert(template_from(s@, i as int) == Ok::<Seq<char>, crate::template::error::TemplateFault>(seq![]));
                    assert(before + seq!['{'] =~= res@);
                }
            } else if s[i + 1] == '\'' {
                proof {
                    lemma_block_progress(s@, i + 2);
                }
                match parse_block(&mut res, &s, i + 2) {
                    Ok(q) => {
                        proof {
                            let o = (block(s@, i + 2)->Ok_0).0;
                            lemma_prepend_assoc(before, o, template_from(s@, q as int));
                        }
                        i = q;
                    },
                    Err(e) => {
                        return Err(e);
                    },
                }
            } else {
                let d = s[i + 1];
                push_char(&mut res, '{');
                push_char(&mut res, d);
                proof {
                    lemma_prepend_assoc(before, seq!['{', d], template_from(s@, i + 2));
                    assert(before + seq!['{', d] =~= res@);
                }
                i = i + 2;
            }
        } else {
            push_char(&mut res, c);
            proof {
                lemma_prepend_assoc(before, seq![c], template_from(s@, i + 1));
                assert(before + seq![c] =~= res@);
            }
            i = i + 1;
        }
    }
    proof {
        assert(res@ + seq![] =~= res@);
    }
    Ok(res)
}

/// The position after the first `}` from `p` on, if there is one.
fn skip_block(s: &Vec<char>, p: usize) -> (r: Option<usize>)
    requires
        p <= s@.len(),
    ensures
        match block_end(s@, p as int) {
            Some(q) => r == Some(q as usize),
            None => r is None,
        },
{
    let mut i = p;
    while i < s.len()
        invariant
            p <= i <= s@.len(),
            block_end(s@, p as int) == block_end(s@, i as int),
        decreases s@.len() - i,
    {
        if s[i] == '}' {
            return Some(i + 1);
        }
        i = i + 1;
    }
    None
}

/// Leaves the `{'...}` blocks out of a template and keeps everything else.
/// Fails only when a block has no closing `}`.
///
/// `skip_colors("{'y}hi{'_}")` gives `"hi"`.
pub fn skip_colors(template: &str) -> (r: Result<String, TemplateError>)
    ensures
        match plain_output(template@) {
            Ok(o) => r matches Ok(x) && x@ == o,
            Err(e) => r matches Err(x) && x@ == e,
        },
{
    let s = chars_vec(template);
    let mut res = String::new();
    let mut i: usize = 0;
    proof {
        lemma_prepend_empty(plain_from(s@, 0));
    }
    while i < s.len()
        invariant
            i <= s@.len(),
            s@ == template@,
            plain_from(s@, 0) == prepend(res@, plain_from(s@, i as int)),
        decreases s@.len() - i,
    {
        let c = s[i];
        let ghost before = res@;
        if c == '{' {
            if i + 1 >= s.len() {
                push_char(&mut res, '{');
                i = i + 1;
                proof {
                    lemma_prepend_assoc(before, seq!['{'], plain_from(s@, i as int));
                    assert(plain_from(s@, i as int) == Ok::<Seq<char>, crate::template::error::TemplateFault>(seq![]));
                    assert(before + seq!['{'] =~= res@);
                }
            } else if s[i + 1] == '\'' {
                proof {
                    lemma_block_end(s@, i + 2);
                }
                match skip_block(&s, i + 2) {
                    Some(q) => {
                        i = q;
                    },
                    None => {
                        return Err(TemplateError::MissingBlockEnd);
                    },
                }
            } else {
                let d = s[i + 1];
                push_char(&mut res, '{');
                push_char(&mut res, d);
                proof {
                    lemma_prepend_assoc(before, seq!['{', d], plain_from(s@, i + 2));
                    assert(before + seq!['{', d] =~= res@);
                }
                i = i + 2;
            }
        } else {
            push_char(&mut res, c);
            proof {
                lemma_prepend_assoc(before, seq![c], plain_from(s@, i + 1));
                assert(before + seq![c] =~= res@);
            }
            i = i + 1;
        }
    }
    proof {
        assert(res@ + seq![] =~= res@);
    }
    Ok(res)
}

/// Turns a template into text with escape codes when `color` is true, and
/// into plain text otherwise.
pub fn parse_template_maybe(color: bool, template: &str) -> (r: Result<String, TemplateError>)
    ensures
        match (if color { template_output(template@) } else { plain_output(template@) }) {
            Ok(o) => r matches Ok(x) && x@ == o,
            Err(e) => r matches Err(x) && x@ == e,
        },
{
    if color {
        parse_template(template)
    } else {
        skip_colors(template)
    }
}

} // verus!
