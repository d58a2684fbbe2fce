//! What holds of every template.

use vstd::prelude::*;

use crate::template::chars::{
    digits_end, hex_digit_value, hex_end, hex_value, is_digit, is_hex, is_name_char, name_end,
    read_num, lemma_digits_end, lemma_hex_end, lemma_name_end,
};
use crate::template::error::TemplateFault;
use crate::template::spec::{
    block, block_end, color, command, hex_rgb, plain_from, plain_output, template_from,
    template_output, variable, lemma_block_progress, lemma_color_progress,
    lemma_variable_progress,
};

verus! {

proof fn lemma_block_end_skip(s: Seq<char>, a: int, b: int)
    requires
        0 <= a <= b,
        forall|i: int| a <= i < b && i < s.len() ==> s[i] != '}',
    ensures
        block_end(s, a) == block_end(s, b) || (a >= s.len() && b >= s.len()),
        b <= s.len() ==> block_end(s, a) == block_end(s, b),
    decreases b - a,
{
    if a < b {
        if a < s.len() {
            lemma_block_end_skip(s, a + 1, b);
        }
    }
}

proof fn lemma_read_num_no_brace(s: Seq<char>, q: int)
    requires
        0 <= q <= s.len(),
    ensures
        forall|i: int| q <= i < read_num(s, q).1 ==> s[i] != '}',
        q <= read_num(s, q).1 <= s.len(),
{
    lemma_digits_end(s, q);
}

proof fn lemma_command_no_brace(name: Seq<char>, s: Seq<char>, q: int)
    requires
        0 <= q <= s.len(),
    ensures
        command(name, s, q) matches Ok((c, q2)) ==> forall|i: int| q <= i < q2 ==> s[i] != '}',
{
    lemma_read_num_no_brace(s, q);
    let q1 = read_num(s, q).1;
    lemma_read_num_no_brace(s, q1);
    if q1 < s.len() {
        lemma_read_num_no_brace(s, q1 + 1);
    }
}

proof fn lemma_variable_no_brace(s: Seq<char>, p: int)
    requires
        0 <= p < s.len(),
        is_name_char(s[p]),
    ensures
        variable(s, p) matches Ok((o, q)) ==> forall|i: int| p <= i < q ==> s[i] != '}',
{
    lemma_name_end(s, p);
    let ne = name_end(s, p);
    lemma_command_no_brace(s.subrange(p, ne), s, ne);
}

proof fn lemma_color_no_brace(s: Seq<char>, p: int)
    requires
        0 <= p < s.len(),
        s[p] == '#',
    ensures
        color(s, p) matches Ok((o, q)) ==> forall|i: int| p <= i < q ==> s[i] != '}',
{
    lemma_hex_end(s, p + 1);
}

proof fn lemma_block_ends_at_brace(s: Seq<char>, p: int)
    requires
        0 <= p,
    ensures
        block(s, p) matches Ok((o, q)) ==> block_end(s, p) == Some(q),
    decreases s.len() - p,
{
    if p < s.len() {
        let c = s[p];
        if is_name_char(c) {
            lemma_variable_progress(s, p);
            lemma_variable_no_brace(s, p);
            if let Ok((o, q)) = variable(s, p) {
                lemma_block_ends_at_brace(s, q);
                lemma_block_end_skip(s, p, q);
            }
        } else if c == '#' {
            lemma_color_progress(s, p);
            lemma_color_no_brace(s, p);
            if let Ok((o, q)) = color(s, p) {
                lemma_block_ends_at_brace(s, q);
                lemma_block_end_skip(s, p, q);
            }
        } else if c == ' ' {
            lemma_block_ends_at_brace(s, p + 1);
        }
    }
}

proof fn lemma_plain_accepts_from(s: Seq<char>, p: int)
    requires
        0 <= p,
        template_from(s, p) is Ok,
    ensures
        plain_from(s, p) is Ok,
    decreases s.len() - p,
{
    if p < s.len() {
        if s[p] == '{' {
            if p + 1 < s.len() {
                if s[p + 1] == '\'' {
                    lemma_block_progress(s, p + 2);
                    lemma_block_ends_at_brace(s, p + 2);
                    let q = block(s, p + 2)->Ok_0.1;
                    lemma_plain_accepts_from(s, q);
                } else {
                    lemma_plain_accepts_from(s, p + 2);
                }
            }
        } else {
            lemma_plain_accepts_from(s, p + 1);
        }
    }
}

/// A template that gives colored text also gives plain text: leaving the
/// commands out never fails where carrying them out succeeds.
pub proof fn lemma_plain_accepts_colored(s: Seq<char>)
    requires
        template_output(s) is Ok,
    ensures
        plain_output(s) is Ok,
{
    lemma_plain_accepts_from(s, 0);
}

proof fn lemma_no_braces_from(s: Seq<char>, p: int)
    requires
        0 <= p <= s.len(),
        forall|i: int| 0 <= i < s.len() ==> s[i] != '{',
    ensures
        template_from(s, p) == Ok::<Seq<char>, crate::template::error::TemplateFault>(
            s.subrange(p, s.len() as int),
        ),
        plain_from(s, p) == Ok::<Seq<char>, crate::template::error::TemplateFault>(
            s.subrange(p, s.len() as int),
        ),
    decreases s.len() - p,
{
    if p < s.len() {
        lemma_no_braces_from(s, p + 1);
        assert(seq![s[p]] + s.subrange(p + 1, s.len() as int) =~= s.subrange(p, s.len() as int));
    } else {
        assert(s.subrange(p, s.len() as int) =~= Seq::<char>::empty());
    }
}

/// Text without braces is kept as it is, with and without colors.
pub proof fn lemma_plain_text_kept(s: Seq<char>)
    requires
        forall|i: int| 0 <= i < s.len() ==> s[i] != '{',
    ensures
        template_output(s) == Ok::<Seq<char>, crate::template::error::TemplateFault>(s),
        plain_output(s) == Ok::<Seq<char>, crate::template::error::TemplateFault>(s),
{
    lemma_no_braces_from(s, 0);
    assert(s.subrange(0, s.len() as int) =~= s);
}

/// Hex colors: `#abc` is the same color as `#aabbcc`, `#ab` the same as
/// `#ababab` and `#a` the same as `#aaaaaa`.
pub proof fn lemma_hex_shorthands(a: char, b: char, c: char)
    requires
        is_hex(a),
        is_hex(b),
        is_hex(c),
    ensures
        hex_rgb(seq![a, b, c]) == hex_rgb(seq![a, a, b, b, c, c]),
        hex_rgb(seq![a, b]) == hex_rgb(seq![a, b, a, b, a, b]),
        hex_rgb(seq![a]) == hex_rgb(seq![a, a, a, a, a, a]),
{
    assert(hex_digit_value(a) < 16 && hex_digit_value(b) < 16 && hex_digit_value(c) < 16);
}

/// One piece of the output of a template: its text, and whether it is the
/// code of a command block.
pub open spec fn push_piece(
    t: Seq<char>,
    code: bool,
    r: Result<Seq<(Seq<char>, bool)>, TemplateFault>,
) -> Result<Seq<(Seq<char>, bool)>, TemplateFault> {
    match r {
        Ok(ps) => Ok(seq![(t, code)] + ps),
        Err(e) => Err(e),
    }
}

/// The output of a template from `p` on, in pieces: each text kept and each
/// brace with its character is a piece of text, each command block gives
/// one piece of code.
pub open spec fn pieces_from(s: Seq<char>, p: int) -> Result<Seq<(Seq<char>, bool)>, TemplateFault>
    decreases s.len() - p,
{
    if p < 0 || p >= s.len() {
        Ok(seq![])
    } else if s[p] == '{' {
        if p + 1 >= s.len() {
            Ok(seq![(seq!['{'], false)])
        } else if s[p + 1] == '\'' {
            match block(s, p + 2) {
                Err(e) => Err(e),
                Ok((o, q)) => if p < q <= s.len() {
                    push_piece(o, true, pieces_from(s, q))
                } else {
                    Err(TemplateFault::MissingBlockEnd)
                },
            }
        } else {
            push_piece(seq!['{', s[p + 1]], false, pieces_from(s, p + 2))
        }
    } else {
        push_piece(seq![s[p]], false, pieces_from(s, p + 1))
    }
}

/// All the pieces, one after another.
pub open spec fn joined(ps: Seq<(Seq<char>, bool)>) -> Seq<char>
    decreases ps.len(),
{
    if ps.len() == 0 {
        seq![]
    } else {
        ps[0].0 + joined(ps.drop_first())
    }
}

/// The pieces of text, one after another, with the pieces of code left out.
pub open spec fn text_only(ps: Seq<(Seq<char>, bool)>) -> Seq<char>
    decreases ps.len(),
{
    if ps.len() == 0 {
        seq![]
    } else {
        (if ps[0].1 {
            seq![]
        } else {
            ps[0].0
        }) + text_only(ps.drop_first())
    }
}

proof fn lemma_push_piece(t: Seq<char>, code: bool, ps: Seq<(Seq<char>, bool)>)
    ensures
        joined(seq![(t, code)] + ps) == t + joined(ps),
        text_only(seq![(t, code)] + ps) == (if code {
            seq![]
        } else {
            t
        }) + text_only(ps),
{
    let all = seq![(t, code)] + ps;
    assert(all.drop_first() =~= ps);
    assert(all[0] == (t, code));
}

proof fn lemma_pieces_from(s: Seq<char>, p: int)
    requires
        0 <= p,
        template_from(s, p) is Ok,
    ensures
        pieces_from(s, p) matches Ok(ps) && template_from(s, p) == Ok::<
            Seq<char>,
            TemplateFault,
        >(joined(ps)) && plain_from(s, p) == Ok::<Seq<char>, TemplateFault>(text_only(ps)),
    decreases s.len() - p,
{
    if p >= s.len() {
        assert(joined(seq![]) == Seq::<char>::empty());
        assert(text_only(seq![]) == Seq::<char>::empty());
    } else if s[p] == '{' {
        if p + 1 >= s.len() {
            let ps = seq![(seq!['{'], false)];
            lemma_push_piece(seq!['{'], false, seq![]);
            assert(seq![(seq!['{'], false)] + Seq::<(Seq<char>, bool)>::empty() =~= ps);
            assert(seq!['{'] + Seq::<char>::empty() =~= seq!['{']);
        } else if s[p + 1] == '\'' {
            lemma_block_progress(s, p + 2);
            lemma_block_ends_at_brace(s, p + 2);
            let (o, q) = block(s, p + 2)->Ok_0;
            lemma_pieces_from(s, q);
            let ps = pieces_from(s, q)->Ok_0;
            lemma_push_piece(o, true, ps);
            assert(seq![] + text_only(ps) =~= text_only(ps));
        } else {
            let t = seq!['{', s[p + 1]];
            lemma_pieces_from(s, p + 2);
            let ps = pieces_from(s, p + 2)->Ok_0;
            lemma_push_piece(t, false, ps);
        }
    } else {
        let t = seq![s[p]];
        lemma_pieces_from(s, p + 1);
        let ps = pieces_from(s, p + 1)->Ok_0;
        lemma_push_piece(t, false, ps);
    }
}

/// Without its commands a template gives what it gives with them, with the
/// code of every command block left out and all other text the same.
pub proof fn lemma_plain_is_colored_without_codes(s: Seq<char>)
    requires
        template_output(s) is Ok,
    ensures
        pieces_from(s, 0) matches Ok(ps) && template_output(s) == Ok::<Seq<char>, TemplateFault>(
            joined(ps),
        ) && plain_output(s) == Ok::<Seq<char>, TemplateFault>(text_only(ps)),
{
    lemma_pieces_from(s, 0);
}

} // verus!
