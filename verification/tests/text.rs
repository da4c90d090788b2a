use bench_routes::text::{
    contains_ascii, contains_byte, same_text, starts_with_bytes, strip_ascii_prefix,
};

#[test]
fn same_text_compares_every_character() {
    assert!(same_text("", ""));
    assert!(same_text("GET", "GET"));
    assert!(same_text("zoë", "zoë"));
    assert!(!same_text("GET", "get"));
    assert!(!same_text("GET", "GE"));
    assert!(!same_text("GE", "GET"));
    assert!(!same_text("", "/"));
    assert!(!same_text("zoë", "zoe"));
    assert!(!same_text("/about", "/abouT"));
}

#[test]
fn starts_with_bytes_looks_at_the_front() {
    assert!(starts_with_bytes(b"", b""));
    assert!(starts_with_bytes(b"abc", b""));
    assert!(starts_with_bytes(b"abc", b"a"));
    assert!(starts_with_bytes(b"abc", b"abc"));
    assert!(!starts_with_bytes(b"abc", b"abcd"));
    assert!(!starts_with_bytes(b"abc", b"b"));
    assert!(!starts_with_bytes(b"abc", b"abd"));
    assert!(!starts_with_bytes(b"", b"a"));
}

#[test]
fn contains_byte_finds_a_byte_anywhere() {
    assert!(!contains_byte(b"", b'/'));
    assert!(contains_byte(b"/", b'/'));
    assert!(contains_byte(b"a/", b'/'));
    assert!(contains_byte(b"/a", b'/'));
    assert!(contains_byte(b"abc/def", b'/'));
    assert!(!contains_byte(b"abcdef", b'/'));
}

#[test]
fn contains_ascii_is_not_fooled_by_longer_characters() {
    assert!(contains_ascii("a/b", b'/'));
    assert!(!contains_ascii("ab", b'/'));
    assert!(!contains_ascii("", b'/'));
    // U+012F ends in the byte 0xAF, U+2F00 holds no 0x2F either
    assert!(!contains_ascii("\u{12f}\u{2f00}", b'/'));
    assert!(contains_ascii("\u{12f}/\u{2f00}", b'/'));
    assert!(contains_ascii("日本語 ", b' '));
}

#[test]
fn strip_ascii_prefix_gives_what_follows() {
    assert_eq!(strip_ascii_prefix("/api/users/42", "/api/users/"), Some("42"));
    assert_eq!(strip_ascii_prefix("/api/users/", "/api/users/"), Some(""));
    assert_eq!(strip_ascii_prefix("/api/users/zoë/x", "/api/users/"), Some("zoë/x"));
    assert_eq!(strip_ascii_prefix("éa", ""), Some("éa"));
    assert_eq!(strip_ascii_prefix("", ""), Some(""));
    assert_eq!(strip_ascii_prefix("/api/users", "/api/users/"), None);
    assert_eq!(strip_ascii_prefix("/api/user/42", "/api/users/"), None);
    assert_eq!(strip_ascii_prefix("", "/"), None);
    assert_eq!(strip_ascii_prefix("étoile", "e"), None);
}
