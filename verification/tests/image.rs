use termal::image::mat::Mat;
use termal::image::sixel::Sixel;
use termal::image::texel::{append_texels, get_wh, Texel};
use termal::rgb::Rgb;

#[test]
fn mat_new_is_default_filled() {
    let mut m: Mat<u8> = Mat::new(3, 2);
    assert_eq!(m.width(), 3);
    assert_eq!(m.height(), 2);
    assert_eq!(*m.get(0, 0), 0);
    m.set(2, 1, 7);
    assert_eq!(*m.get(2, 1), 7);
    assert_eq!(m.get_line(1), &[0, 0, 7]);
    assert_eq!(m.get_line(0), &[0, 0, 0]);
    m.set(0, 0, 3);
    assert_eq!(*m.get(0, 0), 3);
    assert_eq!(*m.get(2, 1), 7);
    assert_eq!(*m.get(1, 0), 0);
}

#[test]
fn mat_from_vec_keeps_rows() {
    let m = Mat::from_vec(2, 2, vec![1, 2, 3, 4]);
    assert_eq!(m.get_line(0), &[1, 2]);
    assert_eq!(m.get_line(1), &[3, 4]);
    assert_eq!(*m.get(1, 1), 4);
    assert_eq!(*m.get(0, 1), 3);
}

#[test]
fn sixel_color_char() {
    let s = Sixel::new([1, 2, 1, 3, 1, 1]);
    // Pixels 0, 2, 4 and 5 have color 1: 1 + 4 + 16 + 32 = 53.
    assert_eq!(s.color_char(1), (53u8 + 63) as char);
    assert_eq!(s.color_char(2), (2u8 + 63) as char);
    assert_eq!(s.color_char(9), '?');
    assert_eq!(Sixel::new([0; 6]).color_char(0), '~');
}

fn texel(fg: Rgb, bg: Rgb, chr: char) -> Texel {
    Texel { fg, bg, chr }
}

#[test]
fn texel_swap() {
    let a = Rgb::new(1, 2, 3);
    let b = Rgb::new(4, 5, 6);
    let mut t = texel(a, b, '▄');
    t.swap_char();
    assert_eq!(t, texel(b, a, '▀'));
    t.swap_char();
    assert_eq!(t, texel(a, b, '▄'));
    let mut q = texel(a, b, '▚');
    q.swap_char();
    assert_eq!(q, texel(b, a, '▞'));
    let mut x = texel(a, b, 'x');
    x.swap_char();
    assert_eq!(x, texel(a, b, 'x'));
}

#[test]
fn texel_disallowed_bg() {
    let a = Rgb::new(1, 2, 3);
    let b = Rgb::new(4, 5, 6);
    let mut same = texel(a, a, '▄');
    same.disallowed_bg(a);
    assert_eq!(same, texel(a, a, '█'));
    let mut t = texel(a, b, '▄');
    t.disallowed_bg(b);
    assert_eq!(t, texel(b, a, '▀'));
    assert_ne!(t.bg, b);
    let mut other = texel(a, b, '▄');
    other.disallowed_bg(Rgb::new(9, 9, 9));
    assert_eq!(other, texel(a, b, '▄'));
}

#[test]
fn texel_append() {
    let mut s = String::from(">");
    texel(Rgb::new(1, 2, 3), Rgb::new(4, 5, 6), '▄').append_to(&mut s);
    assert_eq!(s, ">\x1b[38;2;1;2;3m\x1b[48;2;4;5;6m▄");
}

#[test]
fn texel_sizes() {
    assert_eq!(get_wh(100, 50, None, None), (80, 20));
    assert_eq!(get_wh(100, 50, Some(40), None), (40, 10));
    assert_eq!(get_wh(100, 50, None, Some(10)), (40, 10));
    assert_eq!(get_wh(1, 1, Some(3), Some(4)), (3, 4));
}

#[test]
fn rgb_parts() {
    let c = Rgb::new(1, 2, 3);
    assert_eq!((c.r(), c.g(), c.b()), (1, 2, 3));
    let mut s = String::new();
    c.push_spec(&mut s);
    assert_eq!(s, "#010203");
}

fn texel_code(fg: (u8, u8, u8), bg: (u8, u8, u8), chr: char) -> String {
    format!(
        "\x1b[38;2;{};{};{}m\x1b[48;2;{};{};{}m{chr}",
        fg.0, fg.1, fg.2, bg.0, bg.1, bg.2
    )
}

#[test]
fn texel_image_lines() {
    let a = Rgb::new(1, 1, 1);
    let b = Rgb::new(2, 2, 2);
    let img = Mat::from_vec(
        2,
        2,
        vec![texel(a, b, '▄'), texel(b, a, '▀'), texel(a, a, '▖'), texel(b, b, ' ')],
    );
    let mut s = String::new();
    append_texels(&mut s, &img, "\n", None);
    let expected = texel_code((1, 1, 1), (2, 2, 2), '▄')
        + &texel_code((2, 2, 2), (1, 1, 1), '▀')
        + "\x1b[0m\n"
        + &texel_code((1, 1, 1), (1, 1, 1), '▖')
        + &texel_code((2, 2, 2), (2, 2, 2), ' ');
    assert_eq!(s, expected);

    let mut t = String::new();
    append_texels(&mut t, &img, "|", Some(b));
    let expected = texel_code((2, 2, 2), (1, 1, 1), '▀')
        + &texel_code((2, 2, 2), (1, 1, 1), '▀')
        + "\x1b[0m|"
        + &texel_code((1, 1, 1), (1, 1, 1), '▖')
        + &texel_code((2, 2, 2), (2, 2, 2), '█');
    assert_eq!(t, expected);
}

#[test]
fn texel_image_single_line() {
    let img = Mat::from_vec(1, 1, vec![texel(Rgb::new(0, 0, 0), Rgb::new(9, 9, 9), 'x')]);
    let mut s = String::new();
    append_texels(&mut s, &img, "\n", None);
    assert_eq!(s, texel_code((0, 0, 0), (9, 9, 9), 'x'));
}
