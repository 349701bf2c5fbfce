use indexsync::text::calculate_hash;
use indexsync::text::trim;

#[test]
fn trim_removes_surrounding_whitespace() {
    assert_eq!(trim("  hello world \n\t"), "hello world");
    assert_eq!(trim("hello"), "hello");
    assert_eq!(trim("   \t\r\n"), "");
    assert_eq!(trim(""), "");
    assert_eq!(trim(" a b "), "a b");
}

#[test]
fn fingerprint_exact_values() {
    assert_eq!(calculate_hash("hello world"), 0x779a65e7023cd2e7);
    assert_eq!(calculate_hash("hello"), 0xa430d84680aabd0b);
    assert_eq!(calculate_hash(""), 0xcbf29ce484222325);
}

#[test]
fn fingerprint_is_deterministic() {
    let a = calculate_hash("some document text");
    let b = calculate_hash("some document text");
    assert_eq!(a, b);
}

#[test]
fn fingerprint_ignores_surrounding_whitespace_via_trim() {
    // The pipeline hashes trimmed text, so padding does not change the key.
    let padded = trim("   hello world   ");
    assert_eq!(calculate_hash(padded), calculate_hash("hello world"));
}

#[test]
fn fingerprint_differs_for_different_trimmed_text() {
    assert_ne!(calculate_hash("hello"), calculate_hash("hullo"));
    assert_ne!(calculate_hash("hello world"), calculate_hash("hello worlds"));
}
