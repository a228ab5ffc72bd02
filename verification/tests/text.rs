use repo_health::text::{str_contains, u64_to_string, usize_to_string};

#[test]
fn test_decimal_rendering() {
    assert_eq!(u64_to_string(0), "0");
    assert_eq!(u64_to_string(7), "7");
    assert_eq!(u64_to_string(10), "10");
    assert_eq!(u64_to_string(90210), "90210");
    assert_eq!(u64_to_string(u64::MAX), "18446744073709551615");
    assert_eq!(usize_to_string(12345), "12345");
}

#[test]
fn test_substring_search() {
    assert!(str_contains("API rate limit exceeded", "rate limit"));
    assert!(str_contains("abc", ""));
    assert!(str_contains("abc", "abc"));
    assert!(!str_contains("abc", "abcd"));
    assert!(!str_contains("rate limi", "rate limit"));
    assert!(str_contains("xxrate limit", "rate limit"));
    assert!(!str_contains("", "a"));
    assert!(str_contains("", ""));
}
