use sidecar_supervisor::text::{ascii_bytes_of, contains_bytes, starts_with_bytes, trim_ascii_bytes};

#[test]
fn contains_finds_substrings() {
    assert!(contains_bytes(b"hello world", b"lo wo"));
    assert!(contains_bytes(b"hello", b"hello"));
    assert!(contains_bytes(b"hello", b""));
    assert!(contains_bytes(b"", b""));
    assert!(!contains_bytes(b"hello", b"world"));
    assert!(!contains_bytes(b"he", b"hello"));
    assert!(!contains_bytes(b"abab", b"aba "));
}

#[test]
fn starts_with_checks_prefixes() {
    assert!(starts_with_bytes(b"node@20", b"node"));
    assert!(starts_with_bytes(b"node", b"node"));
    assert!(starts_with_bytes(b"node", b""));
    assert!(!starts_with_bytes(b"nod", b"node"));
    assert!(!starts_with_bytes(b"mynode", b"node"));
}

#[test]
fn trim_removes_surrounding_whitespace() {
    assert_eq!(trim_ascii_bytes(b"  v20.1.0 \r\n"), b"v20.1.0".to_vec());
    assert_eq!(trim_ascii_bytes(b"v20.1.0"), b"v20.1.0".to_vec());
    assert_eq!(trim_ascii_bytes(b" \t\r\n "), Vec::<u8>::new());
    assert_eq!(trim_ascii_bytes(b""), Vec::<u8>::new());
    assert_eq!(trim_ascii_bytes(b" a b "), b"a b".to_vec());
}

#[test]
fn ascii_bytes_match_the_source_text() {
    assert_eq!(ascii_bytes_of("INFO:"), b"INFO:".to_vec());
    assert_eq!(ascii_bytes_of(""), Vec::<u8>::new());
}
