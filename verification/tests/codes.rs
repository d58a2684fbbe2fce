use termal::codes::{
    bg, bg256, csi, define_color_code, delete_columns, fg, fg256, graphic, insert_columns,
    move_down, move_left, move_right, move_to, move_up, push_fg, repeat_char, request_color_code,
    request_selection, reset_color_code, reset_terminal_codes, scroll_region, set_cursor,
    set_cursor_color, set_default_bg_color, set_default_fg_color, set_selection,
    set_selection_encoded, underline256, underline_rgb, CursorStyle, GetString, Selection, CLEAR,
    RESET,
};
use termal::rgb::Rgb;

#[test]
fn codes_csi_and_graphic() {
    assert_eq!(csi("H", &[]), "\x1b[H");
    assert_eq!(csi("H", &[3, 5]), "\x1b[3;5H");
    assert_eq!(graphic(&[1, 31]), "\x1b[1;31m");
    assert_eq!(graphic(&[]), "\x1b[m");
}

#[test]
fn codes_counted_moves_skip_zero() {
    assert_eq!(move_up(0), "");
    assert_eq!(move_up(5), "\x1b[5A");
    assert_eq!(move_down(12), "\x1b[12B");
    assert_eq!(move_right(1), "\x1b[1C");
    assert_eq!(move_left(0), "");
    assert_eq!(insert_columns(9), "\x1b[9'}");
    assert_eq!(delete_columns(9), "\x1b[9'~");
    assert_eq!(repeat_char(3), "\x1b[3b");
}

#[test]
fn codes_positions() {
    assert_eq!(move_to(5, 3), "\x1b[3;5H");
    assert_eq!(termal::codes::column(0), "\x1b[0G");
    assert_eq!(termal::codes::column(10), "\x1b[10G");
    assert_eq!(scroll_region(2, 20), "\x1b[2;20r");
}

#[test]
fn codes_colors() {
    assert_eq!(fg(1, 20, 255), "\x1b[38;2;1;20;255m");
    assert_eq!(bg(0, 0, 0), "\x1b[48;2;0;0;0m");
    assert_eq!(underline_rgb(7, 8, 9), "\x1b[58;2;7;8;9m");
    assert_eq!(fg256(200), "\x1b[38;5;200m");
    assert_eq!(bg256(3), "\x1b[48;5;3m");
    assert_eq!(underline256(42), "\x1b[58;5;42m");
    let mut s = String::from("x");
    push_fg(&mut s, 10, 11, 12);
    assert_eq!(s, "x\x1b[38;2;10;11;12m");
}

#[test]
fn codes_cursor_styles() {
    assert_eq!(set_cursor(CursorStyle::Block(Some(true))), "\x1b[0 q");
    assert_eq!(set_cursor(CursorStyle::Block(None)), "\x1b[1 q");
    assert_eq!(set_cursor(CursorStyle::Block(Some(false))), "\x1b[2 q");
    assert_eq!(set_cursor(CursorStyle::Underline(true)), "\x1b[3 q");
    assert_eq!(set_cursor(CursorStyle::Underline(false)), "\x1b[4 q");
    assert_eq!(set_cursor(CursorStyle::Bar(true)), "\x1b[5 q");
    assert_eq!(set_cursor(CursorStyle::Bar(false)), "\x1b[6 q");
}

#[test]
fn codes_color_definitions() {
    assert_eq!(request_color_code(11), "\x1b]4;11;?\x1b\\");
    assert_eq!(reset_color_code(255), "\x1b]104;255\x1b\\");
    assert_eq!(
        define_color_code(3, Rgb::new(0x12, 0xab, 0xff)),
        "\x1b]4;3;#12abff\x1b\\"
    );
    assert_eq!(set_default_fg_color(Rgb::new(1, 2, 3)), "\x1b]10;#010203\x1b\\");
    assert_eq!(set_default_bg_color(Rgb::new(255, 0, 16)), "\x1b]11;#ff0010\x1b\\");
    assert_eq!(set_cursor_color(Rgb::default()), "\x1b]12;#000000\x1b\\");
}

#[test]
fn codes_selections() {
    assert_eq!(Selection::Clipboard.get_char(), 'c');
    assert_eq!(Selection::Cut7.get_char(), '7');
    assert_eq!(
        request_selection(&[Selection::Clipboard, Selection::Primary]),
        "\x1b]52;cp;?\x1b\\"
    );
    assert_eq!(request_selection(&[]), "\x1b]52;;?\x1b\\");
    assert_eq!(
        set_selection_encoded(&[Selection::Select], "aGk="),
        "\x1b]52;s;aGk=\x1b\\"
    );
}

#[test]
fn codes_set_selection_encodes_base64() {
    assert_eq!(
        set_selection(&[Selection::Clipboard], b"hello"),
        "\x1b]52;c;aGVsbG8=\x1b\\"
    );
    assert_eq!(set_selection(&[Selection::Cut0], b""), "\x1b]52;0;\x1b\\");
    assert_eq!(
        set_selection(&[Selection::Secondary, Selection::Cut1], b"Man"),
        "\x1b]52;q1;TWFu\x1b\\"
    );
}

#[test]
fn codes_get_string() {
    assert_eq!("abc".get_string(), "abc");
    assert_eq!(String::from("xyz").get_string(), "xyz");
}

#[test]
fn codes_reset_terminal() {
    let s = reset_terminal_codes();
    assert!(s.starts_with(RESET));
    assert!(s.ends_with("\x1b]112\x1b\\"));
    assert!(s.contains("\x1b[?25h"));
    assert_eq!(CLEAR, "\x1b[2J\x1b[3J\x1b[H");
}

#[test]
fn codes_base64_padding() {
    assert_eq!(set_selection(&[Selection::Clipboard], b"hi"), "\x1b]52;c;aGk=\x1b\\");
    assert_eq!(set_selection(&[Selection::Clipboard], b"a"), "\x1b]52;c;YQ==\x1b\\");
    assert_eq!(
        set_selection(&[Selection::Clipboard], &[0xff, 0xfe, 0x3e, 0x3f]),
        "\x1b]52;c;//4+Pw==\x1b\\"
    );
}
