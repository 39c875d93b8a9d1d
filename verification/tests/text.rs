use dontspeak_voice::text::{
    characters, decimal_string, hexadecimal_string, is_alphanumeric, is_control, is_white_space,
    joined, same,
};

#[test]
fn character_classes_agree_with_std() {
    for code in 0..=0x10_ffff_u32 {
        if let Some(c) = char::from_u32(code) {
            assert_eq!(is_control(c), c.is_control(), "{code:x}");
            assert_eq!(is_white_space(c), c.is_whitespace(), "{code:x}");
            assert_eq!(is_alphanumeric(c), c.is_ascii_alphanumeric(), "{code:x}");
        }
    }
}

#[test]
fn numbers_are_written_as_std_writes_them() {
    for n in [0, 1, 9, 10, 42, 99, 100, 3_500, 1_000_000, u64::MAX - 1, u64::MAX] {
        assert_eq!(decimal_string(n), format!("{n}"));
        assert_eq!(hexadecimal_string(n), format!("{n:016x}"));
    }
    assert_eq!(decimal_string(0), "0");
    assert_eq!(hexadecimal_string(0xdead_beef), "00000000deadbeef");
}

#[test]
fn decimals_read_back() {
    for n in [0, 7, 10, 1_234_567_890, u64::MAX] {
        assert_eq!(decimal_string(n).parse::<u64>(), Ok(n));
    }
}

#[test]
fn strings_are_compared_joined_and_taken_apart() {
    assert!(same("", ""));
    assert!(same("é", "é"));
    assert!(!same("a", "A"));
    assert!(!same("a", "ab"));
    assert_eq!(joined("ab", "cd"), "abcd");
    assert_eq!(joined("", ""), "");
    assert_eq!(characters("aé\u{10000}"), vec!['a', 'é', '\u{10000}']);
}
