use s3rm_rs::deleter::batch::is_retryable_error_code;
use s3rm_rs::deleter::format::{format_metadata, format_tags, generate_tagging_string, Tag};

fn tag(key: &str, value: &str) -> Tag {
    Tag { key: key.to_string(), value: value.to_string() }
}

fn pairs(entries: &[(&str, &str)]) -> Vec<(String, String)> {
    entries.iter().map(|(k, v)| (k.to_string(), v.to_string())).collect()
}

#[test]
fn format_metadata_empty() {
    assert_eq!(format_metadata(&Vec::new()), "");
}

#[test]
fn format_metadata_single_entry() {
    assert_eq!(format_metadata(&pairs(&[("key1", "value1")])), "key1=value1");
}

#[test]
fn format_metadata_multiple_entries_sorted() {
    let meta = pairs(&[("zebra", "z_val"), ("alpha", "a_val"), ("middle", "m_val")]);
    assert_eq!(format_metadata(&meta), "alpha=a_val,middle=m_val,zebra=z_val");
}

#[test]
fn format_metadata_special_chars_encoded() {
    let result = format_metadata(&pairs(&[("key with spaces", "val&ue")]));
    assert!(result.contains("key with spaces=val%26ue"));
}

#[test]
fn format_metadata_encodes_multibyte_values() {
    assert_eq!(format_metadata(&pairs(&[("k", "é~ ")])), "k=%C3%A9~%20");
}

#[test]
fn format_tags_empty() {
    assert_eq!(format_tags(&Vec::new()), "");
}

#[test]
fn format_tags_single_tag() {
    assert_eq!(format_tags(&vec![tag("env", "prod")]), "env=prod");
}

#[test]
fn format_tags_multiple_sorted() {
    let tags = vec![tag("z-tag", "zval"), tag("a-tag", "aval")];
    assert_eq!(format_tags(&tags), "a-tag=aval&z-tag=zval");
}

#[test]
fn format_tags_special_chars_encoded() {
    let result = format_tags(&vec![tag("tag key", "tag value&more")]);
    assert!(result.contains("tag%20key"));
    assert!(result.contains("tag%20value%26more"));
}

#[test]
fn format_tags_sort_is_stable_for_equal_keys() {
    let tags = vec![tag("b", "1"), tag("a", "x"), tag("b", "0")];
    assert_eq!(format_tags(&tags), "a=x&b=1&b=0");
}

#[test]
fn generate_tagging_string_none() {
    assert!(generate_tagging_string(&None).is_none());
}

#[test]
fn generate_tagging_string_some() {
    let tags = Some(vec![tag("env", "dev"), tag("app", "test")]);
    let result = generate_tagging_string(&tags);
    assert!(result.is_some());
    let s = result.unwrap();
    assert!(s.contains("env=dev"));
    assert!(s.contains("app=test"));
}

#[test]
fn generate_tagging_string_keeps_order_and_empty_set() {
    let tags = Some(vec![tag("env", "dev"), tag("app", "a b")]);
    assert_eq!(generate_tagging_string(&tags).unwrap(), "env=dev&app=a%20b");
    assert_eq!(generate_tagging_string(&Some(Vec::new())).unwrap(), "");
}

#[test]
fn test_is_retryable_error_code() {
    assert!(is_retryable_error_code("InternalError"));
    assert!(is_retryable_error_code("SlowDown"));
    assert!(is_retryable_error_code("ServiceUnavailable"));
    assert!(is_retryable_error_code("RequestTimeout"));
    assert!(is_retryable_error_code("unknown"));
    assert!(!is_retryable_error_code("AccessDenied"));
    assert!(!is_retryable_error_code("NoSuchKey"));
    assert!(!is_retryable_error_code("InvalidArgument"));
    assert!(!is_retryable_error_code(""));
}
