use openrec::text::{char_is_whitespace, chars_of, decimal_len, string_of, trim_range};

#[test]
fn whitespace_agrees_with_std() {
    for u in 0u32..0x4000 {
        if let Some(c) = char::from_u32(u) {
            assert_eq!(char_is_whitespace(c), c.is_whitespace(), "U+{u:04X}");
        }
    }
    for c in ['\u{FEFF}', '\u{200B}', '\u{E000}', '\u{10FFFF}'] {
        assert_eq!(char_is_whitespace(c), c.is_whitespace());
    }
}

#[test]
fn trim_range_matches_str_trim() {
    for s in ["  a b  ", "\tx\n", "", "   ", "abc", "\u{3000}mid\u{2003}"] {
        let v = chars_of(s);
        let (a, b) = trim_range(&v, 0, v.len());
        assert_eq!(string_of(&v, a, b), s.trim());
    }
}

#[test]
fn decimal_lengths() {
    assert_eq!(decimal_len(0), 1);
    assert_eq!(decimal_len(9), 1);
    assert_eq!(decimal_len(10), 2);
    assert_eq!(decimal_len(u64::MAX), 20);
}
