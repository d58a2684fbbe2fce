use termal::template::error::TemplateError;
use termal::template::macro_arg::{
    colorize_template, get_first_string_literal, uncolor_template, ArgError, ArgToken, MacroError,
};
use termal::template::parse::{parse_template, parse_template_maybe, skip_colors};

fn ok(t: &str) -> String {
    parse_template(t).unwrap()
}

fn err(t: &str) -> TemplateError {
    parse_template(t).unwrap_err()
}

#[test]
fn template_plain_text_is_kept() {
    assert_eq!(ok("hello"), "hello");
    assert_eq!(ok("{x}"), "{x}");
    assert_eq!(ok("a{"), "a{");
    assert_eq!(ok("{}"), "{}");
    assert_eq!(ok(""), "");
}

#[test]
fn template_styles() {
    assert_eq!(ok("{'_}"), "\x1b[0m");
    assert_eq!(ok("{'reset}"), "\x1b[0m");
    assert_eq!(ok("{'bold}"), "\x1b[1m");
    assert_eq!(ok("{'y}hi{'_}"), "\x1b[93mhi\x1b[0m");
    assert_eq!(ok("{'bold italic}"), "\x1b[1m\x1b[3m");
    assert_eq!(ok("{'dr}"), "\x1b[31m");
    assert_eq!(ok("{'rb}"), "\x1b[101m");
}

#[test]
fn template_names_ignore_case() {
    assert_eq!(ok("{'YELLOW}"), "\x1b[93m");
    assert_eq!(ok("{'Bold}"), "\x1b[1m");
}

#[test]
fn template_clear_is_erase_and_move_home() {
    let clear = "\x1b[2J\x1b[3J\x1b[H";
    assert_eq!(ok("{'clear}"), clear);
    assert_eq!(ok("{'cls}"), clear);
    assert_eq!(ok("{'e mt}"), clear);
    assert_eq!(ok("{'e mt,}"), clear);
}

#[test]
fn template_cursor_moves() {
    assert_eq!(ok("{'mt}"), "\x1b[H");
    assert_eq!(ok("{'mt5,3}"), "\x1b[3;5H");
    assert_eq!(ok("{'mt,3}"), "\x1b[3;0H");
    assert_eq!(ok("{'mu}"), "\x1b[1A");
    assert_eq!(ok("{'mu5}"), "\x1b[5A");
    assert_eq!(ok("{'mu0}"), "");
    assert_eq!(ok("{'md2 mr3 ml4}"), "\x1b[2B\x1b[3C\x1b[4D");
    assert_eq!(ok("{'sd su2}"), "\x1b[1E\x1b[2F");
    assert_eq!(ok("{'mc}"), "\x1b[0G");
    assert_eq!(ok("{'mc7}"), "\x1b[7G");
    assert_eq!(ok("{'mu}"), ok("{'mu1}"));
    assert_eq!(ok("{'mc}"), ok("{'mc0}"));
}

#[test]
fn template_control_chars() {
    assert_eq!(ok("{'bell}"), "\x07");
    assert_eq!(ok("{'nl}"), "\n\r");
    assert_eq!(ok("{'tab}"), "\t");
    assert_eq!(ok("{'cr del}"), "\r\x7f");
}

#[test]
fn template_hex_colors() {
    let abc = "\x1b[38;2;170;187;204m";
    assert_eq!(ok("{'#abc}"), abc);
    assert_eq!(ok("{'#aabbcc}"), abc);
    assert_eq!(ok("{'#AABBCC}"), abc);
    assert_eq!(ok("{'#f}"), "\x1b[38;2;255;255;255m");
    assert_eq!(ok("{'#12}"), "\x1b[38;2;18;18;18m");
    assert_eq!(ok("{'#102030_}"), "\x1b[48;2;16;32;48m");
    assert_eq!(ok("{'#102030_ #fff}"), "\x1b[48;2;16;32;48m\x1b[38;2;255;255;255m");
}

#[test]
fn template_256_colors() {
    assert_eq!(ok("{'fg5}"), "\x1b[38;5;5m");
    assert_eq!(ok("{'bg255}"), "\x1b[48;5;255m");
    assert_eq!(ok("{'fg0 bg0}"), "\x1b[38;5;0m\x1b[48;5;0m");
}

#[test]
fn template_color_out_of_range() {
    match err("{'fg256}") {
        TemplateError::ColorOutOfRange(s) => assert_eq!(s, "fg"),
        e => panic!("unexpected {e:?}"),
    }
    match err("{'bg}") {
        TemplateError::ColorOutOfRange(s) => assert_eq!(s, "bg"),
        e => panic!("unexpected {e:?}"),
    }
    assert_eq!(
        err("{'fg256}").message(),
        "The 'fg' in color format expects value in range 0..256"
    );
}

#[test]
fn template_unknown_variable() {
    let e = err("{'foo}");
    assert!(matches!(&e, TemplateError::UnknownVariable(s) if s == "foo"));
    assert_eq!(e.message(), "Unknown color format variable foo");
}

#[test]
fn template_block_errors() {
    let e = err("{'y ");
    assert!(matches!(e, TemplateError::MissingBlockEnd));
    assert_eq!(e.message(), "Missing '}}' at the end of color pattern");

    let e = err("{'y");
    assert!(matches!(e, TemplateError::UnexpectedEnd));
    assert_eq!(e.message(), "Unexpected end, expected ' ' or '}}'");

    let e = err("{'y!}");
    assert!(matches!(e, TemplateError::UnexpectedChar('!')));
    assert_eq!(e.message(), "Invalid color format, didn't expect character '!'");

    let e = err("{'!}");
    assert!(matches!(e, TemplateError::UnexpectedChar('!')));

    let e = err("{'y5}");
    assert!(matches!(e, TemplateError::InvalidSeparator('5')));
    assert_eq!(e.message(), "Invalid character '5', expected ' ' or '}'");
}

#[test]
fn template_move_to_needs_two_arguments() {
    let e = err("{'mt5}");
    assert!(matches!(&e, TemplateError::TwoArguments(s) if s == "mt"));
    assert_eq!(e.message(), "'mt', takes two arguments");
}

#[test]
fn template_hex_errors() {
    let e = err("{'#12g}");
    assert!(matches!(e, TemplateError::InvalidHexChar('g')));
    assert_eq!(e.message(), "Invalid hex color, didn't expect character 'g'");

    let e = err("{'#}");
    assert!(matches!(e, TemplateError::InvalidHex));
    assert_eq!(e.message(), "Invalid hex color");

    let e = err("{'#1234}");
    assert!(matches!(e, TemplateError::InvalidHexLength));
    assert_eq!(e.message(), "Invalid hex color length, must be 1, 2, 3 or 6");

    let e = err("{'#123");
    assert!(matches!(e, TemplateError::UnendedColor));
    assert_eq!(e.message(), "color format not ended with '}}'");
}

#[test]
fn skip_colors_removes_commands() {
    assert_eq!(skip_colors("{'y}hi{'_}").unwrap(), "hi");
    assert_eq!(skip_colors("{x}{'anything at all}!").unwrap(), "{x}!");
    assert_eq!(skip_colors("a{").unwrap(), "a{");
    assert!(matches!(skip_colors("{'y"), Err(TemplateError::MissingBlockEnd)));
}

#[test]
fn plain_output_accepts_what_color_accepts() {
    for t in ["{'y}a{'_}", "{'#abc_ b}x", "{'mt5,3}{'clear}"] {
        assert!(parse_template(t).is_ok());
        assert!(skip_colors(t).is_ok());
    }
    assert_eq!(skip_colors("{'#abc_ b}x").unwrap(), "x");
}

#[test]
fn parse_template_maybe_chooses() {
    assert_eq!(parse_template_maybe(true, "{'y}a").unwrap(), "\x1b[93ma");
    assert_eq!(parse_template_maybe(false, "{'y}a").unwrap(), "a");
}

#[test]
fn template_readme_examples() {
    let long = ok("{'yellow italic}hello{'reset}");
    assert_eq!(long, "\x1b[93m\x1b[3mhello\x1b[0m");
    assert_eq!(ok("{'y i}hello{'_}"), long);
    assert_eq!(ok("{'yellow italic}{}{'reset}"), "\x1b[93m\x1b[3m{}\x1b[0m");
    assert_eq!(ok("{'#dd0 i}{}{'_}"), "\x1b[38;2;221;221;0m\x1b[3m{}\x1b[0m");
    assert_eq!(ok("{'move_to5,7}"), "\x1b[7;5H");
    assert_eq!(ok("{'move_to5,7}"), termal::codes::move_to(5, 7));
}

fn lit(text: &str) -> Option<ArgToken> {
    Some(ArgToken::Literal(text.to_string()))
}

#[test]
fn macro_template_from_literal() {
    assert_eq!(colorize_template(lit("\"{'y}a{'_}\"")).unwrap(), "\x1b[93ma\x1b[0m");
    assert_eq!(uncolor_template(lit("\"{'y}a{'_}\"")).unwrap(), "a");
    assert_eq!(get_first_string_literal(lit("\"a\\nb\"")).unwrap(), "a\nb");
    assert_eq!(get_first_string_literal(lit("r#\"{'b}\"#")).unwrap(), "{'b}");
    assert_eq!(colorize_template(lit("r\"{'b}\"")).unwrap(), "\x1b[94m");
}

#[test]
fn macro_template_through_groups() {
    let inner = ArgToken::Group(Some(Box::new(ArgToken::Literal("\"{'i}\"".to_string()))));
    let outer = ArgToken::Group(Some(Box::new(inner)));
    assert_eq!(colorize_template(Some(outer)).unwrap(), "\x1b[3m");
}

#[test]
fn macro_template_errors() {
    assert_eq!(get_first_string_literal(None), Err(ArgError::NoArgument));
    assert_eq!(get_first_string_literal(Some(ArgToken::Group(None))), Err(ArgError::NoArgument));
    assert_eq!(get_first_string_literal(Some(ArgToken::Other)), Err(ArgError::NotStringLiteral));
    assert_eq!(get_first_string_literal(lit("5")), Err(ArgError::NotStringLiteral));
    assert_eq!(get_first_string_literal(lit("b\"x\"")), Err(ArgError::NotStringLiteral));
    assert_eq!(ArgError::NoArgument.message(), "This macro must have at least one argument");
    assert_eq!(ArgError::NotStringLiteral.message(), "The first argument must be string literal");

    let e = colorize_template(lit("\"{'y\"")).unwrap_err();
    assert_eq!(e, MacroError::Template(TemplateError::UnexpectedEnd));
    assert_eq!(e.message(), "Unexpected end, expected ' ' or '}}'");
    let e = uncolor_template(Some(ArgToken::Other)).unwrap_err();
    assert_eq!(e, MacroError::Arg(ArgError::NotStringLiteral));
    assert_eq!(e.message(), "The first argument must be string literal");
}

#[test]
fn plain_is_colored_without_codes() {
    let t = "a{'y}b{x}{'#fff_ bold}c{";
    assert_eq!(ok(t), "a\x1b[93mb{x}\x1b[48;2;255;255;255m\x1b[1mc{");
    assert_eq!(skip_colors(t).unwrap(), "ab{x}c{");
}
