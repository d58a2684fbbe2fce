use termal::echo::echo_byte;

#[test]
fn echo_bytes() {
    assert_eq!(echo_byte(3), None);
    assert_eq!(echo_byte(0x1b).unwrap(), "ESC ");
    assert_eq!(echo_byte(b'\n').unwrap(), "0x0A ");
    assert_eq!(echo_byte(0x7f).unwrap(), "0x7F ");
    assert_eq!(echo_byte(0).unwrap(), "0x00 ");
    assert_eq!(echo_byte(b'a').unwrap(), "a ");
    assert_eq!(echo_byte(b' ').unwrap(), "  ");
    assert_eq!(echo_byte(200).unwrap(), "\u{c8} ");
}
