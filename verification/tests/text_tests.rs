use frakt::text::{decimal, parse_u64, signed_decimal, str_find, str_starts_with, trim_end_char, trim_start_char};
use frakt::wire::{header_name_normalized, header_value_valid, insert_header, lookup_header, parse_url, HeaderPair};

#[test]
fn numbers() {
    assert_eq!(decimal(0), "0");
    assert_eq!(decimal(1234567890), "1234567890");
    assert_eq!(signed_decimal(-42), "-42");
    assert_eq!(signed_decimal(i64::MIN), i64::MIN.to_string());
    assert_eq!(parse_u64("0042"), Some(42));
    assert_eq!(parse_u64("4 2"), None);
}

#[test]
fn trimming_and_searching() {
    assert_eq!(trim_start_char("//a/b", '/'), "a/b");
    assert_eq!(trim_end_char("a/b//", '/'), "a/b");
    assert_eq!(trim_end_char("///", '/'), "");
    assert_eq!(str_find("hello world", "o w"), Some(4));
    assert_eq!(str_find("abc", "abcd"), None);
    assert_eq!(str_find("abc", ""), Some(0));
    assert!(str_starts_with("https://x", "https://"));
    assert!(!str_starts_with("http", "https"));
}

#[test]
fn header_fields() {
    assert_eq!(header_name_normalized("X-Custom-Header").as_deref(), Some("x-custom-header"));
    assert_eq!(header_name_normalized(""), None);
    assert_eq!(header_name_normalized("a:b"), None);
    assert!(header_value_valid("text/plain; q=0.9").is_ok());
    assert!(header_value_valid("caf\u{e9}").is_ok());
    assert_eq!(header_value_valid("a\r\nb"), Err("failed to parse header value".to_string()));
    let mut h: Vec<HeaderPair> = vec![];
    insert_header(&mut h, "a".to_string(), "1".to_string());
    insert_header(&mut h, "b".to_string(), "2".to_string());
    insert_header(&mut h, "a".to_string(), "3".to_string());
    assert_eq!(h.len(), 2);
    assert_eq!(lookup_header(&h, "a").as_deref(), Some("3"));
    assert_eq!(lookup_header(&h, "b").as_deref(), Some("2"));
    assert_eq!(lookup_header(&h, "c"), None);
    assert!(parse_url("https://example.com/path?q=1").is_some());
    assert!(parse_url("relative/path").is_none());
}
