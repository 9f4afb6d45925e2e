use mikanos_usb::text::{find_terminator, validate_and_borrow};

#[test]
fn borrows_ascii_text_before_the_terminator() {
    let raw: &[u8] = b"hello\0";
    assert_eq!(validate_and_borrow(Some(raw)), Some("hello"));
}

#[test]
fn borrows_multibyte_text() {
    let raw: &[u8] = &[0xE3, 0x81, 0x82, 0xC3, 0xA9, 0xF0, 0x9F, 0x98, 0x80, 0x00];
    assert_eq!(validate_and_borrow(Some(raw)), Some("\u{3042}\u{e9}\u{1F600}"));
}

#[test]
fn text_is_exactly_the_bytes_before_the_terminator() {
    let raw: &[u8] = b"usb: port 3\0";
    let text = validate_and_borrow(Some(raw)).unwrap();
    assert_eq!(text.as_bytes(), &raw[..11]);
    assert_eq!(text.len(), 11);
}

#[test]
fn stops_at_the_first_terminator() {
    let raw: &[u8] = b"abc\0def\0";
    assert_eq!(validate_and_borrow(Some(raw)), Some("abc"));
}

#[test]
fn ignores_invalid_bytes_after_the_terminator() {
    let raw: &[u8] = &[b'o', b'k', 0x00, 0xFF, 0xFE];
    assert_eq!(validate_and_borrow(Some(raw)), Some("ok"));
}

#[test]
fn empty_text_is_valid() {
    let raw: &[u8] = b"\0";
    assert_eq!(validate_and_borrow(Some(raw)), Some(""));
}

#[test]
fn null_pointer_fails() {
    assert_eq!(validate_and_borrow(None), None);
}

#[test]
fn missing_terminator_fails() {
    let raw: &[u8] = b"hello";
    assert_eq!(validate_and_borrow(Some(raw)), None);
}

#[test]
fn empty_buffer_fails() {
    let raw: &[u8] = &[];
    assert_eq!(validate_and_borrow(Some(raw)), None);
}

#[test]
fn invalid_byte_fails() {
    let raw: &[u8] = &[b'a', 0xFF, b'b', 0x00];
    assert_eq!(validate_and_borrow(Some(raw)), None);
}

#[test]
fn truncated_sequence_fails() {
    let raw: &[u8] = &[b'a', 0xE3, 0x81, 0x00];
    assert_eq!(validate_and_borrow(Some(raw)), None);
}

#[test]
fn overlong_encoding_fails() {
    let raw: &[u8] = &[0xC0, 0xAF, 0x00];
    assert_eq!(validate_and_borrow(Some(raw)), None);
}

#[test]
fn surrogate_fails() {
    let raw: &[u8] = &[0xED, 0xA0, 0x80, 0x00];
    assert_eq!(validate_and_borrow(Some(raw)), None);
}

#[test]
fn lone_continuation_byte_fails() {
    let raw: &[u8] = &[0x80, 0x00];
    assert_eq!(validate_and_borrow(Some(raw)), None);
}

#[test]
fn finds_the_first_zero_byte() {
    assert_eq!(find_terminator(b"abc\0def\0"), Some(3));
    assert_eq!(find_terminator(b"\0"), Some(0));
    assert_eq!(find_terminator(b"abc\0"), Some(3));
}

#[test]
fn finds_no_zero_byte_where_there_is_none() {
    assert_eq!(find_terminator(b"abc"), None);
    assert_eq!(find_terminator(b""), None);
}
