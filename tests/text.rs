use gbcore::text::{ascii_or_dot, bytes_to_ascii};

#[test]
fn printable_bytes_show_as_themselves() {
    assert_eq!(ascii_or_dot(b'A'), 'A');
    assert_eq!(ascii_or_dot(b'~'), '~');
    assert_eq!(ascii_or_dot(b'!'), '!');
    assert_eq!(ascii_or_dot(b' '), ' ');
    assert_eq!(ascii_or_dot(b'\n'), '\n');
    assert_eq!(ascii_or_dot(b'\t'), '\t');
}

#[test]
fn other_bytes_show_as_dot() {
    assert_eq!(ascii_or_dot(0x00), '.');
    assert_eq!(ascii_or_dot(0x0B), '.');
    assert_eq!(ascii_or_dot(0x7F), '.');
    assert_eq!(ascii_or_dot(0xCE), '.');
}

#[test]
fn printable_set_matches_std_ascii_classes() {
    for b in 0u8..=255 {
        let expected = if b.is_ascii_graphic() || b.is_ascii_whitespace() { b as char } else { '.' };
        assert_eq!(ascii_or_dot(b), expected);
    }
}

#[test]
fn bytes_to_ascii_maps_each_byte() {
    assert_eq!(bytes_to_ascii(&[0x48, 0x69, 0x00, 0xFF, 0x21]), vec!['H', 'i', '.', '.', '!']);
    assert_eq!(bytes_to_ascii(&[]), Vec::<char>::new());
}
