use acme_client::text::{decimal_text, visible_ascii_text};

#[test]
fn visible_ascii_text_has_one_character_for_each_byte() {
    assert_eq!(visible_ascii_text(b"abc123"), Some("abc123".to_string()));
    assert_eq!(visible_ascii_text(b""), Some(String::new()));
    assert_eq!(visible_ascii_text(&[9, 32, 126]), Some("\t ~".to_string()));
}

#[test]
fn visible_ascii_text_rejects_control_and_high_bytes() {
    assert_eq!(visible_ascii_text(&[31]), None);
    assert_eq!(visible_ascii_text(&[127]), None);
    assert_eq!(visible_ascii_text(&[128]), None);
    assert_eq!(visible_ascii_text(&[0]), None);
    assert_eq!(visible_ascii_text(&[10]), None);
    assert_eq!(visible_ascii_text(&[b'a', b'b', 200, b'c']), None);
    assert_eq!(visible_ascii_text("é".as_bytes()), None);
}

#[test]
fn decimal_text_writes_numbers_without_leading_zeros() {
    assert_eq!(decimal_text(0), "0");
    assert_eq!(decimal_text(7), "7");
    assert_eq!(decimal_text(10), "10");
    assert_eq!(decimal_text(404), "404");
    assert_eq!(decimal_text(1000), "1000");
    assert_eq!(decimal_text(65535), "65535");
}
