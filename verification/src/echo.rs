//! Showing the raw bytes that the terminal sends, one by one, as a byte
//! echo does: escape as `ESC`, other control bytes in hexadecimal, the rest
//! as characters, until Ctrl-C comes.

use vstd::prelude::*;

use crate::text::push_char;

verus! {

/// An uppercase hexadecimal digit.
pub open spec fn upper_hex_char(d: nat) -> char {
    if d < 10 {
        ('0' as nat + d) as char
    } else {
        ('A' as nat + (d - 10)) as char
    }
}

/// Whether the byte is an ASCII control character: below 32, or 127.
pub open spec fn is_control(b: u8) -> bool {
    b < 32 || b == 127
}

/// What is shown of one byte, followed by a space; `None` for Ctrl-C (3),
/// which ends the echo.
pub open spec fn byte_echo(b: u8) -> Option<Seq<char>> {
    if b == 3 {
        None
    } else if b == 0x1b {
        Some("ESC "@)
    } else if is_control(b) {
        Some(seq!['0', 'x', upper_hex_char(b as nat / 16), upper_hex_char(b as nat % 16), ' '])
    } else {
        Some(seq![b as char, ' '])
    }
}

fn upper_hex(d: u8) -> (c: char)
    requires
        d < 16,
    ensures
        c == upper_hex_char(d as nat),
{
    if d < 10 {
        (48u8 + d) as char
    } else {
        (55u8 + d) as char
    }
}

/// The text shown for one byte read from the terminal, followed by a space,
/// or `None` when the byte is Ctrl-C and the echo ends.
pub fn echo_byte(b: u8) -> (r: Option<String>)
    ensures
        match byte_echo(b) {
            Some(t) => r matches Some(s) && s@ == t,
            None => r is None,
        },
{
    if b == 3 {
        return None;
    }
    let mut s = String::new();
    if b == 0x1b {
        push_char(&mut s, 'E');
        push_char(&mut s, 'S');
        push_char(&mut s, 'C');
        proof {
            reveal_strlit("ESC ");
        }
    } else if b < 32 || b == 127 {
        push_char(&mut s, '0');
        push_char(&mut s, 'x');
        push_char(&mut s, upper_hex(b / 16));
        push_char(&mut s, upper_hex(b % 16));
    } else {
        push_char(&mut s, b as char);
    }
    push_char(&mut s, ' ');
    assert(s@ =~= byte_echo(b)->0);
    Some(s)
}

} // verus!
