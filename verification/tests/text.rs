use audio_bicycle::asciistackstr::{AsciiError, AsciiStackString};

#[test]
fn new_is_empty() {
    let t: AsciiStackString<16> = AsciiStackString::new();
    assert_eq!(t.len(), 0);
    assert_eq!(t.as_str(), "");
}

#[test]
fn round_trip_simple() {
    let t = AsciiStackString::<16>::try_from_str("stream1").unwrap();
    assert_eq!(t.as_str(), "stream1");
    assert_eq!(t.len(), 7);
}

#[test]
fn trailing_nuls_stripped() {
    let t = AsciiStackString::<16>::try_from_str("abc\0\0").unwrap();
    assert_eq!(t.as_str(), "abc");
}

#[test]
fn interior_nul_truncates() {
    let t = AsciiStackString::<16>::try_from_str("ab\0cd").unwrap();
    assert_eq!(t.as_str(), "ab");
}

#[test]
fn non_ascii_fails() {
    let r = AsciiStackString::<16>::try_from_str("h\u{e9}llo");
    assert!(matches!(r, Err(AsciiError::NotAscii)));
}

#[test]
fn over_capacity_fails() {
    let r = AsciiStackString::<16>::try_from_str("seventeen chars!!");
    assert!(matches!(r, Err(AsciiError::CapacityExceeded)));
}

#[test]
fn exactly_capacity_ok() {
    let t = AsciiStackString::<16>::try_from_str("sixteen chars ok").unwrap();
    assert_eq!(t.len(), 16);
    assert_eq!(t.as_str(), "sixteen chars ok");
}

#[test]
fn capacity_checked_before_ascii() {
    // longer than CAP and non-ASCII: the capacity failure is reported
    let r = AsciiStackString::<16>::try_from_str("padding padding \u{e9}");
    assert!(matches!(r, Err(AsciiError::CapacityExceeded)));
}

#[test]
fn from_fixed_truncates_at_nul() {
    let mut field = *b"name\0later bytes";
    field[5] = b'x';
    let t = AsciiStackString::<16>::try_from_fixed(&field).unwrap();
    assert_eq!(t.as_str(), "name");
}

#[test]
fn from_fixed_checks_bytes_past_nul() {
    let mut field = *b"name\0\0\0\0\0\0\0\0\0\0\0\0";
    field[10] = 0xFF;
    let r = AsciiStackString::<16>::try_from_fixed(&field);
    assert!(matches!(r, Err(AsciiError::NotAscii)));
}

#[test]
fn to_fixed_bytes_pads_with_zeros() {
    let t = AsciiStackString::<16>::try_from_str("abc").unwrap();
    let bytes = t.to_fixed_bytes();
    assert_eq!(bytes.len(), 16);
    assert_eq!(&bytes[..3], b"abc");
    assert!(bytes[3..].iter().all(|&b| b == 0));
}

#[test]
fn fixed_round_trip() {
    let t = AsciiStackString::<16>::try_from_str("music").unwrap();
    let bytes = t.to_fixed_bytes();
    let back = AsciiStackString::<16>::try_from_fixed(&bytes).unwrap();
    assert_eq!(back.as_str(), "music");
    assert!(back == t);
}

#[test]
fn equality_is_visible_text() {
    let a = AsciiStackString::<16>::try_from_str("same").unwrap();
    let b = AsciiStackString::<16>::try_from_str("same\0\0\0").unwrap();
    let c = AsciiStackString::<16>::try_from_str("other").unwrap();
    assert!(a == b);
    assert!(!(a == c));
}
