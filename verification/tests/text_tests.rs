//! The character classes of the library agree with std's on every char.

use p2p_core::text::{decimal_string, is_control, is_white_space};

#[test]
fn character_classes_match_std() {
    for c in (0u32..=0x10FFFF).filter_map(char::from_u32) {
        assert_eq!(is_control(c), c.is_control(), "is_control({:?})", c);
        assert_eq!(is_white_space(c), c.is_whitespace(), "is_white_space({:?})", c);
    }
}

#[test]
fn decimal_strings() {
    assert_eq!(decimal_string(0), "0");
    assert_eq!(decimal_string(7), "7");
    assert_eq!(decimal_string(65536), "65536");
    assert_eq!(decimal_string(u64::MAX), u64::MAX.to_string());
}
