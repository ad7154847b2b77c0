//! The string wrapper: UTF-8 decoding, dereference, comparison.

use test_vectors::Utf8Str;

#[test]
fn test_utf8str_decodes_ascii() {
    let s = Utf8Str::try_from(b"hello").unwrap();
    assert_eq!(s.deref(), "hello");
    assert!(s.eq("hello"));
    assert!(!s.eq("world"));
}

#[test]
fn test_utf8str_decodes_multibyte() {
    let bytes = "gr\u{00fc}n \u{2713}".as_bytes();
    let s = Utf8Str::try_from(bytes).unwrap();
    assert_eq!(s.deref(), "gr\u{00fc}n \u{2713}");
    assert!(s.eq("gr\u{00fc}n \u{2713}"));
}

#[test]
fn test_utf8str_rejects_invalid_utf8() {
    let bytes: [u8; 3] = [0xff, 0xfe, 0x41];
    assert!(Utf8Str::try_from(&bytes).is_err());
}

#[test]
fn test_utf8str_rejects_truncated_sequence() {
    // The first byte announces a two-byte scalar that never completes.
    let bytes: [u8; 1] = [0xc3];
    assert!(Utf8Str::try_from(&bytes).is_err());
}

#[test]
fn test_utf8str_empty() {
    let s = Utf8Str::try_from(b"").unwrap();
    assert_eq!(s.deref(), "");
    assert!(s.eq(""));
}
