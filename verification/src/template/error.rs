//! What goes wrong in a template, and the message that says so.

use vstd::prelude::*;

use crate::text::{push_char, push_str};

verus! {

/// A mistake in a template.
#[derive(Clone, Debug, PartialEq, Eq)]
pub enum TemplateError {
    /// A character that cannot stand where it stands in a command block.
    UnexpectedChar(char),
    /// A command block without its closing `}`.
    MissingBlockEnd,
    /// `move_to` given its first argument but no `,` after it.
    TwoArguments(String),
    /// A 256 color command without a color below 256.
    ColorOutOfRange(String),
    /// A command name that is not known.
    UnknownVariable(String),
    /// A command followed by something other than ` ` or `}`.
    InvalidSeparator(char),
    /// The template ends right after a command.
    UnexpectedEnd,
    /// A hex color interrupted by a character that cannot end it.
    InvalidHexChar(char),
    /// A hex color without digits, or with a value that does not fit 32 bits.
    InvalidHex,
    /// A hex color with a number of digits other than 1, 2, 3 or 6.
    InvalidHexLength,
    /// A hex color followed by a character that cannot end it.
    InvalidColorEnd(char),
    /// The template ends right after a hex color.
    UnendedColor,
}

/// The mistakes of templates, with names as sequences of characters.
pub enum TemplateFault {
    UnexpectedChar(char),
    MissingBlockEnd,
    TwoArguments(Seq<char>),
    ColorOutOfRange(Seq<char>),
    UnknownVariable(Seq<char>),
    InvalidSeparator(char),
    UnexpectedEnd,
    InvalidHexChar(char),
    InvalidHex,
    InvalidHexLength,
    InvalidColorEnd(char),
    UnendedColor,
}

impl View for TemplateError {
    type V = TemplateFault;

    open spec fn view(&self) -> TemplateFault {
        match self {
            TemplateError::UnexpectedChar(c) => TemplateFault::UnexpectedChar(*c),
            TemplateError::MissingBlockEnd => TemplateFault::MissingBlockEnd,
            TemplateError::TwoArguments(s) => TemplateFault::TwoArguments(s@),
            TemplateError::ColorOutOfRange(s) => TemplateFault::ColorOutOfRange(s@),
            TemplateError::UnknownVariable(s) => TemplateFault::UnknownVariable(s@),
            TemplateError::InvalidSeparator(c) => TemplateFault::InvalidSeparator(*c),
            TemplateError::UnexpectedEnd => TemplateFault::UnexpectedEnd,
            TemplateError::InvalidHexChar(c) => TemplateFault::InvalidHexChar(*c),
            TemplateError::InvalidHex => TemplateFault::InvalidHex,
            TemplateError::InvalidHexLength => TemplateFault::InvalidHexLength,
            TemplateError::InvalidColorEnd(c) => TemplateFault::InvalidColorEnd(*c),
            TemplateError::UnendedColor => TemplateFault::UnendedColor,
        }
    }
}

/// The message that explains a mistake.
pub open spec fn fault_message(f: TemplateFault) -> Seq<char> {
    match f {
        TemplateFault::UnexpectedChar(c) => "Invalid color format, didn't expect character '"@
            + seq![c] + "'"@,
        TemplateFault::MissingBlockEnd => "Missing '}}' at the end of color pattern"@,
        TemplateFault::TwoArguments(s) => "'"@ + s + "', takes two arguments"@,
        TemplateFault::ColorOutOfRange(s) => "The '"@ + s
            + "' in color format expects value in range 0..256"@,
        TemplateFault::UnknownVariable(s) => "Unknown color format variable "@ + s,
        TemplateFault::InvalidSeparator(c) => "Invalid character '"@ + seq![c]
            + "', expected ' ' or '}'"@,
        TemplateFault::UnexpectedEnd => "Unexpected end, expected ' ' or '}}'"@,
        TemplateFault::InvalidHexChar(c) => "Invalid hex color, didn't expect character '"@
            + seq![c] + "'"@,
        TemplateFault::InvalidHex => "Invalid hex color"@,
        TemplateFault::InvalidHexLength => "Invalid hex color length, must be 1, 2, 3 or 6"@,
        TemplateFault::InvalidColorEnd(c) => "Invalid character, didn't expect '"@ + seq![c]
            + "'"@,
        TemplateFault::UnendedColor => "color format not ended with '}}'"@,
    }
}

fn quoted(res: &mut String, before: &str, c: char, after: &str)
    ensures
        final(res)@ == old(res)@ + before@ + seq![c] + after@,
{
    push_str(res, before);
    push_char(res, c);
    push_str(res, after);
    assert(final(res)@ =~= old(res)@ + before@ + seq![c] + after@);
}

impl TemplateError {
    /// The message that explains the mistake.
    pub fn message(&self) -> (m: String)
        ensures
            m@ == fault_message(self@),
    {
        let mut m = String::new();
        match self {
            TemplateError::UnexpectedChar(c) => {
                quoted(&mut m, "Invalid color format, didn't expect character '", *c, "'");
            },
            TemplateError::MissingBlockEnd => {
                push_str(&mut m, "Missing '}}' at the end of color pattern");
            },
            TemplateError::TwoArguments(s) => {
                push_str(&mut m, "'");
                push_str(&mut m, s.as_str());
                push_str(&mut m, "', takes two arguments");
            },
            TemplateError::ColorOutOfRange(s) => {
                push_str(&mut m, "The '");
                push_str(&mut m, s.as_str());
                push_str(&mut m, "' in color format expects value in range 0..256");
            },
            TemplateError::UnknownVariable(s) => {
                push_str(&mut m, "Unknown color format variable ");
                push_str(&mut m, s.as_str());
            },
            TemplateError::InvalidSeparator(c) => {
                quoted(&mut m, "Invalid character '", *c, "', expected ' ' or '}'");
            },
            TemplateError::UnexpectedEnd => {
                push_str(&mut m, "Unexpected end, expected ' ' or '}}'");
            },
            TemplateError::InvalidHexChar(c) => {
                quoted(&mut m, "Invalid hex color, didn't expect character '", *c, "'");
            },
            TemplateError::InvalidHex => {
                push_str(&mut m, "Invalid hex color");
            },
            TemplateError::InvalidHexLength => {
                push_str(&mut m, "Invalid hex color length, must be 1, 2, 3 or 6");
            },
            TemplateError::InvalidColorEnd(c) => {
                quoted(&mut m, "Invalid character, didn't expect '", *c, "'");
            },
            TemplateError::UnendedColor => {
                push_str(&mut m, "color format not ended with '}}'");
            },
        }
        m
    }
}

} // verus!
