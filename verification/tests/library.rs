use std::fmt::Display;
use std::io::{stdout, IsTerminal, Write};

use termal::codes::csi;
use termal::gradient::write_colored;
use termal::rgb::Rgb;
use termal::template::parse::{parse_template, parse_template_maybe, skip_colors};

/// Fills the `{name}` placeholders the way `format!` would.
fn fill(template: &str, args: &[(&str, String)]) -> String {
    let mut r = template.to_string();
    for (name, value) in args {
        r = r.replace(&format!("{{{name}}}"), value);
    }
    r
}

/// Leaves out `ESC [ ... m` sequences.
fn strip_control(s: &str) -> String {
    let mut out = String::new();
    let mut chars = s.chars();
    while let Some(c) = chars.next() {
        if c == '\x1b' {
            for d in chars.by_ref() {
                if d == 'm' {
                    break;
                }
            }
        } else {
            out.push(c);
        }
    }
    out
}

/// A gradient as the terminal side builds it: the colors interpolated in
/// `f32`, the text written by the library.
fn write_gradient(res: &mut String, s: &str, s_len: usize, start: Rgb, end: Rgb) {
    let channel = |a: u8, b: u8, i: usize| -> u8 {
        let len = s_len as f32 - 1.;
        let step = if s_len == 1 { 0. } else { (b as f32 - a as f32) / len };
        (a as f32 + step * i as f32) as u8
    };
    let n = s.chars().take(s_len).count();
    let colors: Vec<Rgb> = (0..n)
        .map(|i| {
            Rgb::new(
                channel(start.r(), end.r(), i),
                channel(start.g(), end.g(), i),
                channel(start.b(), end.b(), i),
            )
        })
        .collect();
    write_colored(res, s, s_len, &colors);
}

fn gradient(s: &str, start: Rgb, end: Rgb) -> String {
    let mut res = String::new();
    write_gradient(&mut res, s, s.chars().count(), start, end);
    res
}

#[test]
fn test_gradient() {
    _ = stdout().write_all(b"Expect 'BonnyAD9' as pink to magenta gradient: ");
    let g = gradient("BonnyAD9", Rgb::new(250, 50, 170), Rgb::new(180, 50, 240));
    let t = parse_template("{}{'_}").unwrap();
    println!("{}", t.replace("{}", &g));
    _ = stdout().flush();
    let mut expected = String::new();
    for (i, c) in "BonnyAD9".chars().enumerate() {
        expected += &format!("\x1b[38;2;{};50;{}m{c}", 250 - 10 * i, 170 + 10 * i);
    }
    assert_eq!(g, expected);
}

#[test]
fn test_printacln() {
    let s = "Hello";
    let num = 4;
    _ = stdout().write_all(b"Expect 'Hello 4' in yellow: ");
    let t = parse_template_maybe(stdout().is_terminal(), "{'y}{s} {num}{'_}").unwrap();
    println!("{}", fill(&t, &[("s", s.to_string()), ("num", num.to_string())]));
    _ = stdout().flush();
}

#[test]
fn test_formatnc() {
    let s = "Hello";
    let num = 4;
    let t = skip_colors("{'y}{s} {num}{'_}").unwrap();
    let r = fill(&t, &[("s", s.to_string()), ("num", num.to_string())]);
    assert_eq!(r, "Hello 4");
}

#[test]
fn test_m() {
    let t = "{'y}{s} {num}{'_}";
    assert_eq!(parse_template_maybe(true, t), parse_template(t));
    assert_eq!(parse_template_maybe(false, t), skip_colors(t));
}

#[test]
fn term_text() {
    let txt = gradient("Hello", Rgb::new(0, 0, 0), Rgb::new(255, 255, 255));
    let plain = strip_control(&txt);
    assert_eq!(5, plain.chars().count());
    assert_eq!(5, plain.len());
    assert_eq!("Hello", plain);
}

#[test]
fn test_write() {
    struct Lol {}

    impl Display for Lol {
        fn fmt(&self, f: &mut std::fmt::Formatter<'_>) -> std::fmt::Result {
            f.write_str(&parse_template("{'y}hello{'_}").unwrap())
        }
    }

    assert_eq!(format!("{}", Lol {}), parse_template("{'y}hello{'_}").unwrap())
}

#[test]
fn test_macros() {
    assert_eq!(csi("a", &[1, 2, 3, 4, 5]), "\x1b[1;2;3;4;5a");
    assert_eq!(csi("a", &[1 + 0, 2, 3, 4, 5]), "\x1b[1;2;3;4;5a");
}

#[test]
fn colored_text_writes_given_colors() {
    let mut s = String::from(">");
    write_colored(&mut s, "abc", 2, &[Rgb::new(1, 2, 3), Rgb::new(4, 5, 6)]);
    assert_eq!(s, ">\x1b[38;2;1;2;3ma\x1b[38;2;4;5;6mb");
    let mut t = String::new();
    write_colored(&mut t, "ab", 9, &[Rgb::new(0, 0, 0), Rgb::new(9, 9, 9)]);
    assert_eq!(t, "\x1b[38;2;0;0;0ma\x1b[38;2;9;9;9mb");
    let mut u = String::new();
    write_colored(&mut u, "", 3, &[]);
    assert_eq!(u, "");
}

#[test]
fn gradient_float_colors() {
    let g = gradient("abc", Rgb::new(0, 0, 0), Rgb::new(10, 20, 30));
    assert_eq!(g, "\x1b[38;2;0;0;0ma\x1b[38;2;5;10;15mb\x1b[38;2;10;20;30mc");
    assert_eq!(gradient("x", Rgb::new(7, 8, 9), Rgb::new(0, 0, 0)), "\x1b[38;2;7;8;9mx");
    let mut s = String::new();
    write_gradient(&mut s, "ab", 5, Rgb::new(0, 0, 0), Rgb::new(100, 100, 100));
    assert_eq!(s, "\x1b[38;2;0;0;0ma\x1b[38;2;25;25;25mb");
}
