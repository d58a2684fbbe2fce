//! The template of a formatting macro: the string literal that stands first
//! in its arguments, possibly inside delimiters, expanded with or without
//! its commands.

use vstd::prelude::*;

use crate::template::error::{TemplateError, TemplateFault};
use crate::template::parse::{parse_template, skip_colors};
use crate::template::spec::{plain_output, template_output};

verus! {

/// The first token of a macro's arguments, as far as finding the template
/// goes.
pub enum ArgToken {
    /// A literal, by its text as written (a string literal with its quotes).
    Literal(String),
    /// A delimited group, by its own first token; `None` when it is empty.
    Group(Option<Box<ArgToken>>),
    /// A token of any other kind.
    Other,
}

/// Why the arguments of a macro hold no template.
#[derive(Clone, Copy, Debug, PartialEq, Eq, Structural)]
pub enum ArgError {
    /// There is no first argument.
    NoArgument,
    /// The first argument is not a string literal.
    NotStringLiteral,
}

impl ArgError {
    /// The message that explains the mistake.
    pub fn message(&self) -> (m: &'static str)
        ensures
            m@ == arg_message(*self),
    {
        match self {
            ArgError::NoArgument => "This macro must have at least one argument",
            ArgError::NotStringLiteral => "The first argument must be string literal",
        }
    }
}

/// The message of each mistake in the arguments.
pub open spec fn arg_message(e: ArgError) -> Seq<char> {
    match e {
        ArgError::NoArgument => "This macro must have at least one argument"@,
        ArgError::NotStringLiteral => "The first argument must be string literal"@,
    }
}

/// The value of a string literal written as `text` (its escapes resolved),
/// or `None` when `text` is no string literal.
pub uninterp spec fn string_literal_value(text: Seq<char>) -> Option<Seq<char>>;

/// Reads a string literal with `litrs::StringLit::parse` and takes its
/// `value`. The contract claims only that the result is the named value of
/// the text; what that value is for given text is litrs's to say.
#[verifier::external_body]
fn parse_string_literal(text: &str) -> (r: Option<String>)
    ensures
        match r {
            Some(v) => string_literal_value(text@) == Some(v@),
            None => string_literal_value(text@) is None,
        },
{
    match litrs::StringLit::parse(text) {
        Ok(lit) => Some(lit.value().to_string()),
        Err(_) => None,
    }
}

/// The template held by a token: the value of a string literal, found
/// through the first tokens of groups.
pub open spec fn token_template(t: ArgToken) -> Result<Seq<char>, ArgError>
    decreases t,
{
    match t {
        ArgToken::Literal(text) => match string_literal_value(text@) {
            Some(v) => Ok(v),
            None => Err(ArgError::NotStringLiteral),
        },
        ArgToken::Group(inner) => match inner {
            Some(b) => token_template(*b),
            None => Err(ArgError::NoArgument),
        },
        ArgToken::Other => Err(ArgError::NotStringLiteral),
    }
}

/// The template held by the first argument, when there is one.
pub open spec fn first_template(first: Option<ArgToken>) -> Result<Seq<char>, ArgError> {
    match first {
        Some(t) => token_template(t),
        None => Err(ArgError::NoArgument),
    }
}

/// What goes wrong when expanding a macro's template.
#[derive(Clone, Debug, PartialEq, Eq)]
pub enum MacroError {
    /// The arguments hold no template.
    Arg(ArgError),
    /// The template has a mistake.
    Template(TemplateError),
}

/// The mistakes of macros, with those of templates by their view.
pub enum MacroFault {
    Arg(ArgError),
    Template(TemplateFault),
}

impl View for MacroError {
    type V = MacroFault;

    open spec fn view(&self) -> MacroFault {
        match self {
            MacroError::Arg(e) => MacroFault::Arg(*e),
            MacroError::Template(e) => MacroFault::Template(e@),
        }
    }
}

impl MacroError {
    /// The message that explains the mistake.
    pub fn message(&self) -> (m: String)
        ensures
            m@ == match self@ {
                MacroFault::Arg(e) => arg_message(e),
                MacroFault::Template(e) => crate::template::error::fault_message(e),
            },
    {
        match self {
            MacroError::Arg(e) => e.message().to_string(),
            MacroError::Template(e) => e.message(),
        }
    }
}

/// The text a macro expands its template to: with the commands carried out
/// when `color`, without them otherwise.
pub open spec fn expansion(first: Option<ArgToken>, color: bool) -> Result<Seq<char>, MacroFault> {
    match first_template(first) {
        Err(e) => Err(MacroFault::Arg(e)),
        Ok(t) => match (if color {
            template_output(t)
        } else {
            plain_output(t)
        }) {
            Ok(o) => Ok(o),
            Err(e) => Err(MacroFault::Template(e)),
        },
    }
}

fn read_token(t: ArgToken) -> (r: Result<String, ArgError>)
    ensures
        match token_template(t) {
            Ok(v) => r matches Ok(s) && s@ == v,
            Err(e) => r == Err::<String, ArgError>(e),
        },
    decreases t,
{
    match t {
        ArgToken::Literal(text) => match parse_string_literal(text.as_str()) {
            Some(v) => Ok(v),
            None => Err(ArgError::NotStringLiteral),
        },
        ArgToken::Group(inner) => match inner {
            Some(b) => read_token(*b),
            None => Err(ArgError::NoArgument),
        },
        ArgToken::Other => Err(ArgError::NotStringLiteral),
    }
}

/// Takes the template out of the first argument of a macro.
pub fn get_first_string_literal(first: Option<ArgToken>) -> (r: Result<String, ArgError>)
    ensures
        match first_template(first) {
            Ok(v) => r matches Ok(s) && s@ == v,
            Err(e) => r == Err::<String, ArgError>(e),
        },
{
    match first {
        Some(t) => read_token(t),
        None => Err(ArgError::NoArgument),
    }
}

fn expand(first: Option<ArgToken>, color: bool) -> (r: Result<String, MacroError>)
    ensures
        match expansion(first, color) {
            Ok(o) => r matches Ok(s) && s@ == o,
            Err(e) => r matches Err(x) && x@ == e,
        },
{
    let t = match get_first_string_literal(first) {
        Ok(t) => t,
        Err(e) => {
            return Err(MacroError::Arg(e));
        },
    };
    let out = if color {
        parse_template(t.as_str())
    } else {
        skip_colors(t.as_str())
    };
    match out {
        Ok(o) => Ok(o),
        Err(e) => Err(MacroError::Template(e)),
    }
}

/// The text of a coloring macro: its template with the commands carried
/// out. `first` is the first argument of the macro.
pub fn colorize_template(first: Option<ArgToken>) -> (r: Result<String, MacroError>)
    ensures
        match expansion(first, true) {
            Ok(o) => r matches Ok(s) && s@ == o,
            Err(e) => r matches Err(x) && x@ == e,
        },
{
    expand(first, true)
}

/// The text of an uncoloring macro: its template with the commands left
/// out. `first` is the first argument of the macro.
pub fn uncolor_template(first: Option<ArgToken>) -> (r: Result<String, MacroError>)
    ensures
        match expansion(first, false) {
            Ok(o) => r matches Ok(s) && s@ == o,
            Err(e) => r matches Err(x) && x@ == e,
        },
{
    expand(first, false)
}

} // verus!
