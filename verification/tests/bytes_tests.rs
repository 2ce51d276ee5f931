use demonhide::bytes::{
    ascii_lower, bytes_eq, contains_sub, copy_range, ends_with, find_from, matches_at, parse_i32,
    trim_copy,
};

#[test]
fn lowercase_maps_only_ascii_uppercase() {
    assert_eq!(ascii_lower(b"MixedCase-123_XYZ"), b"mixedcase-123_xyz".to_vec());
    assert_eq!(ascii_lower(b""), Vec::<u8>::new());
}

#[test]
fn equality_compares_whole_strings() {
    assert!(bytes_eq(b"abc", b"abc"));
    assert!(!bytes_eq(b"abc", b"abd"));
    assert!(!bytes_eq(b"abc", b"ab"));
    assert!(bytes_eq(b"", b""));
}

#[test]
fn matching_at_positions() {
    assert!(matches_at(b"hello", 1, b"ell"));
    assert!(!matches_at(b"hello", 0, b"ell"));
    assert!(!matches_at(b"hello", 4, b"oo"));
    assert!(matches_at(b"hello", 5, b""));
}

#[test]
fn finding_needles() {
    assert_eq!(find_from(b"abcabc", 0, b"bc"), Some(1));
    assert_eq!(find_from(b"abcabc", 2, b"bc"), Some(4));
    assert_eq!(find_from(b"abcabc", 0, b"zz"), None);
    assert_eq!(find_from(b"abc", 0, b"abcd"), None);
}

#[test]
fn containment_and_suffixes() {
    assert!(contains_sub(b"steamapps/common/game", b"steamapps/common"));
    assert!(!contains_sub(b"steamapps", b"steamapps/common"));
    assert!(ends_with(b"game.exe", b".exe"));
    assert!(!ends_with(b"game.exe.bak", b".exe"));
    assert!(!ends_with(b"exe", b".exe"));
}

#[test]
fn trimming_ascii_whitespace() {
    assert_eq!(trim_copy(b"  42 \n"), b"42".to_vec());
    assert_eq!(trim_copy(b"\t\r\n "), Vec::<u8>::new());
    assert_eq!(trim_copy(b"a b"), b"a b".to_vec());
}

#[test]
fn copying_ranges() {
    assert_eq!(copy_range(b"abcdef", 2, 5), b"cde".to_vec());
    assert_eq!(copy_range(b"abcdef", 3, 3), Vec::<u8>::new());
}

#[test]
fn parsing_decimal_numbers() {
    assert_eq!(parse_i32(b"0"), Some(0));
    assert_eq!(parse_i32(b"1920"), Some(1920));
    assert_eq!(parse_i32(b"+7"), Some(7));
    assert_eq!(parse_i32(b"-1920"), Some(-1920));
    assert_eq!(parse_i32(b"2147483647"), Some(2147483647));
    assert_eq!(parse_i32(b"-2147483648"), Some(-2147483648));
}

#[test]
fn rejecting_non_numbers() {
    assert_eq!(parse_i32(b""), None);
    assert_eq!(parse_i32(b"-"), None);
    assert_eq!(parse_i32(b"+"), None);
    assert_eq!(parse_i32(b"12a"), None);
    assert_eq!(parse_i32(b" 12"), None);
    assert_eq!(parse_i32(b"2147483648"), None);
    assert_eq!(parse_i32(b"-2147483649"), None);
    assert_eq!(parse_i32(b"99999999999999999999"), None);
}
