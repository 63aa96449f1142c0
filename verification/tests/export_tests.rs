use cosmic_theme_bridge::export;
use cosmic_theme_bridge::read_exported;
use cosmic_theme_bridge::release;

#[test]
fn export_round_trips() {
    let text: Vec<u8> = b"hello".to_vec();
    let buffer = export(&text).expect("null-free text must export");
    // The buffer holds the text byte for byte, then the terminator.
    assert_eq!(buffer.bytes, b"hello\0".to_vec());
    // Reading it back the way a native caller does yields the text.
    assert_eq!(read_exported(&buffer), text);
    release(buffer);
}

#[test]
fn export_empty_text() {
    let text: Vec<u8> = Vec::new();
    let buffer = export(&text).expect("empty text must export");
    assert_eq!(buffer.bytes, vec![0u8]);
    assert_eq!(read_exported(&buffer), text);
    release(buffer);
}

#[test]
fn export_embedded_nul_fails() {
    let text: Vec<u8> = b"a\0b".to_vec();
    assert!(export(&text).is_none());
}

#[test]
fn export_leading_and_trailing_nul_fail() {
    assert!(export(&b"\0abc".to_vec()).is_none());
    assert!(export(&b"abc\0".to_vec()).is_none());
    assert!(export(&vec![0u8]).is_none());
}
