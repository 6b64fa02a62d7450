use maybe_utf8::{MaybeUtf8, MaybeUtf8Owned, MaybeUtf8Slice};
use std::borrow::Cow;

#[test]
fn round_trip_valid_bytes() {
    let b = vec![0x68u8, 0x69];
    let m = MaybeUtf8Owned::from_bytes(b.clone());
    assert_eq!(m.as_bytes(), &b[..]);
    assert_eq!(m.into_bytes(), b);
}

#[test]
fn round_trip_invalid_bytes() {
    let b = vec![0x68u8, 0xff, 0x69];
    let m = MaybeUtf8Owned::from_bytes(b.clone());
    assert_eq!(m.as_bytes(), &b[..]);
    assert_eq!(m.into_bytes(), b);
}

#[test]
fn valid_bytes_classify_as_text() {
    let m = MaybeUtf8Owned::from_bytes(vec![0x68u8, 0x69]);
    assert!(matches!(m, MaybeUtf8::Utf8(_)));
    assert_eq!(m.as_utf8(), Some("hi"));
}

#[test]
fn invalid_bytes_classify_as_bytes() {
    let m = MaybeUtf8Owned::from_bytes(vec![0xffu8]);
    assert!(matches!(m, MaybeUtf8::NotUtf8(_)));
    assert_eq!(m.as_utf8(), None);
}

#[test]
fn lossy_read_of_text_is_exact_and_borrowed() {
    let m = MaybeUtf8Owned::from(String::from("h\u{e9}llo"));
    let lossy = m.as_utf8_lossy();
    assert!(matches!(lossy, Cow::Borrowed(_)));
    assert_eq!(lossy, "h\u{e9}llo");
}

#[test]
fn lossy_read_of_valid_bytes_is_exact() {
    let m = MaybeUtf8Owned::from_bytes(vec![0x68u8, 0x69]);
    assert_eq!(m.as_utf8_lossy(), "hi");
}

#[test]
fn cross_representation_equality() {
    let from_text = MaybeUtf8Owned::from(String::from("abc"));
    let from_bytes = MaybeUtf8Owned::from_bytes(vec![0x61u8, 0x62, 0x63]);
    assert!(from_text == from_bytes);

    let view = MaybeUtf8Slice::from("abc");
    assert!(from_text == view);
    assert!(view == from_text);

    let other = MaybeUtf8Owned::from(String::from("abd"));
    assert!(!(from_text == other));

    let raw = MaybeUtf8Owned::from_bytes(vec![0xffu8]);
    assert!(!(from_text == raw));
}

#[test]
fn append_and_downgrade() {
    let mut m = MaybeUtf8Owned::from(String::from("ab"));
    m.push_bytes(&[0xff]);
    assert!(matches!(m, MaybeUtf8::NotUtf8(_)));
    assert_eq!(m.as_utf8(), None);
    assert_eq!(m.as_bytes(), &[0x61, 0x62, 0xff]);

    // A later append of valid text bytes must not upgrade the variant back.
    m.push_bytes(&[0x63, 0x64]);
    assert!(matches!(m, MaybeUtf8::NotUtf8(_)));
    assert_eq!(m.as_utf8(), None);
    assert_eq!(m.as_bytes(), &[0x61, 0x62, 0xff, 0x63, 0x64]);
}

#[test]
fn append_stays_text() {
    let mut m = MaybeUtf8Owned::from(String::from("ab"));
    m.push_str("cd");
    assert!(matches!(m, MaybeUtf8::Utf8(_)));
    assert_eq!(m.as_utf8(), Some("abcd"));
}

#[test]
fn append_valid_bytes_to_text_stays_text() {
    let mut m = MaybeUtf8Owned::from(String::from("ab"));
    m.push_bytes(&[0x63, 0x64]);
    assert!(matches!(m, MaybeUtf8::Utf8(_)));
    assert_eq!(m.as_utf8(), Some("abcd"));
}

#[test]
fn lossy_scenario() {
    let b = vec![0x68u8, 0x69, 0xff, 0x6a];
    let m = MaybeUtf8Owned::from_bytes(b.clone());
    assert!(matches!(m, MaybeUtf8::NotUtf8(_)));
    assert_eq!(m.as_utf8_lossy(), "hi\u{fffd}j");
    assert_eq!(m.as_bytes(), &b[..]);
}

#[test]
fn push_char_on_text() {
    let mut m = MaybeUtf8Owned::from(String::from("a"));
    m.push_char('\u{e9}');
    assert_eq!(m.as_utf8(), Some("a\u{e9}"));
}

#[test]
fn push_char_on_bytes_appends_encoding() {
    let mut m = MaybeUtf8Owned::from_bytes(vec![0xffu8]);
    m.push_char('\u{e9}');
    assert!(matches!(m, MaybeUtf8::NotUtf8(_)));
    assert_eq!(m.as_bytes(), &[0xff, 0xc3, 0xa9]);
}

#[test]
fn push_str_on_bytes_appends_encoding() {
    let mut m = MaybeUtf8Owned::from_bytes(vec![0xffu8]);
    m.push_str("ab");
    assert!(matches!(m, MaybeUtf8::NotUtf8(_)));
    assert_eq!(m.as_bytes(), &[0xff, 0x61, 0x62]);
}

#[test]
fn truncated_sequence_counts_as_invalid() {
    // 0xc3 starts a two-byte sequence that is cut short in this call.
    let mut m = MaybeUtf8Owned::from(String::from("a"));
    m.push_bytes(&[0xc3]);
    assert!(matches!(m, MaybeUtf8::NotUtf8(_)));
    // Completing the sequence later does not restore the text variant.
    m.push_bytes(&[0xa9]);
    assert!(matches!(m, MaybeUtf8::NotUtf8(_)));
    assert_eq!(m.as_bytes(), &[0x61, 0xc3, 0xa9]);
}

#[test]
fn into_string_from_text() {
    let m = MaybeUtf8Owned::from(String::from("hi"));
    assert_eq!(m.into_string(), "hi");
}

#[test]
fn into_string_is_lossy_on_invalid_bytes() {
    let m = MaybeUtf8Owned::from_bytes(vec![0x61u8, 0xff]);
    assert_eq!(m.into_string(), "a\u{fffd}");
}

#[test]
fn into_string_keeps_valid_bytes_exact() {
    // A byte-variant buffer whose content happens to be fully valid UTF-8 is
    // decoded without loss; it arises from a downgrade followed by appends
    // that complete the broken sequence.
    let mut m = MaybeUtf8Owned::from(String::from("a"));
    m.push_bytes(&[0xc3]);
    m.push_bytes(&[0xa9]);
    assert!(matches!(m, MaybeUtf8::NotUtf8(_)));
    assert_eq!(m.into_string(), "a\u{e9}");
}

#[test]
fn slice_views() {
    let m = MaybeUtf8Owned::from(String::from("hi"));
    let s = m.as_slice();
    assert!(matches!(s, MaybeUtf8::Utf8(_)));
    assert_eq!(s.as_bytes(), &[0x68, 0x69]);
    assert_eq!(s.as_utf8(), Some("hi"));
    assert_eq!(s.as_utf8_lossy(), "hi");
    let r = s.as_slice();
    assert_eq!(r.as_bytes(), &[0x68, 0x69]);

    let raw = MaybeUtf8Owned::from_bytes(vec![0x68u8, 0xff]);
    let rs = raw.as_slice();
    assert!(matches!(rs, MaybeUtf8::NotUtf8(_)));
    assert_eq!(rs.as_utf8(), None);
    assert_eq!(rs.as_utf8_lossy(), "h\u{fffd}");
    assert_eq!(rs.as_bytes(), &[0x68, 0xff]);
}

#[test]
fn slice_from_str_is_text() {
    let s = MaybeUtf8Slice::from("hi");
    assert!(matches!(s, MaybeUtf8::Utf8(_)));
    assert_eq!(s.as_utf8(), Some("hi"));
    assert_eq!(s.as_bytes(), &[0x68, 0x69]);
}

#[test]
fn empty_buffers() {
    let m = MaybeUtf8Owned::from_bytes(Vec::new());
    assert!(matches!(m, MaybeUtf8::Utf8(_)));
    assert_eq!(m.as_utf8(), Some(""));
    assert_eq!(m.as_bytes(), &[] as &[u8]);
    let n = MaybeUtf8Owned::from(String::new());
    assert!(n == m);
}
