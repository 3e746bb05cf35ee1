use std::io::Write;
use std::path::PathBuf;

use s3rm_rs::config::value_parser::{
    check_human_bytes, check_scheme, file_check, human_bytes_check, is_file_exist, parse_human_bytes, parse_regex,
    scheme_check,
};

#[test]
fn test_existing_file_returns_ok() {
    let dir = tempfile::tempdir().unwrap();
    let mut file = tempfile::Builder::new().suffix(".lua").tempfile_in(dir.path()).unwrap();
    file.write_all(b"return true").unwrap();
    let file_path = file.path().to_path_buf();

    let result = is_file_exist(file_path.to_str().unwrap());
    assert!(result.is_ok());
    let returned = PathBuf::from(result.unwrap());
    assert_eq!(returned, file_path);
}

#[test]
fn test_nonexistent_file_returns_err() {
    let result = is_file_exist("/nonexistent/path/to/script.lua");
    assert!(result.is_err());
    assert!(result.unwrap_err().contains("file not found"));
}

#[test]
fn test_directory_returns_err() {
    let dir = tempfile::tempdir().unwrap();
    let result = is_file_exist(dir.path().to_str().unwrap());
    assert!(result.is_err());
    assert!(result.unwrap_err().contains("file not found"));
}

#[test]
fn test_relative_path_works() {
    // From the crate root the manifest is found by its relative path; where
    // the tests run from a copy holding only the sources, a source file is.
    let relative = if std::path::Path::new("Cargo.toml").is_file() { "Cargo.toml" } else { "src/lib.rs" };
    let result = is_file_exist(relative);
    assert!(result.is_ok());
}

#[test]
fn test_path_with_dot_components() {
    let dir = tempfile::tempdir().unwrap();
    let sub = tempfile::Builder::new().tempdir_in(dir.path()).unwrap();
    let sub_name = sub.path().file_name().unwrap().to_str().unwrap().to_string();
    let mut file = tempfile::Builder::new().suffix(".lua").tempfile_in(sub.path()).unwrap();
    file.write_all(b"return true").unwrap();
    let file_name = file.path().file_name().unwrap().to_str().unwrap().to_string();
    let dotdot_path = format!("{}/{sub_name}/../{sub_name}/{file_name}", dir.path().to_str().unwrap());
    let result = is_file_exist(&dotdot_path);
    assert!(result.is_ok());
}

#[test]
fn file_check_reports_missing_path() {
    assert_eq!(file_check("a.lua", true).unwrap(), "a.lua");
    assert_eq!(file_check("a.lua", false).unwrap_err(), "file not found: a.lua");
}

#[test]
fn check_valid_value() {
    check_human_bytes("0").unwrap();
    check_human_bytes("1KiB").unwrap();
    check_human_bytes("1KB").unwrap();
    check_human_bytes("1024").unwrap();
    check_human_bytes("5MiB").unwrap();
    check_human_bytes("5242880").unwrap();
    check_human_bytes("5GiB").unwrap();
    check_human_bytes("8MiB").unwrap();
    check_human_bytes("10GiB").unwrap();
    check_human_bytes("1TiB").unwrap();
    check_human_bytes("50TiB").unwrap();
}

#[test]
fn check_invalid_value() {
    assert!(check_human_bytes("524287a").is_err());
    assert!(check_human_bytes("5Zib").is_err());
}

#[test]
fn parse_valid_value() {
    assert_eq!(8 * 1024 * 1024, parse_human_bytes("8MiB").unwrap());
    assert_eq!(5 * 1024 * 1024, parse_human_bytes("5242880").unwrap());
    assert_eq!(10 * 1024 * 1024 * 1024, parse_human_bytes("10GiB").unwrap());
}

#[test]
fn parse_invalid_value() {
    assert!(parse_human_bytes("524287a").is_err());
    assert!(parse_human_bytes("5Zib").is_err());
}

#[test]
fn parse_zero() {
    assert_eq!(0, parse_human_bytes("0").unwrap());
}

#[test]
fn parse_one_byte() {
    assert_eq!(1, parse_human_bytes("1").unwrap());
}

#[test]
fn parse_max_u64_rejects_overflow() {
    assert!(parse_human_bytes("18446744073709551616").is_err());
}

#[test]
fn check_rejects_overflow() {
    assert!(check_human_bytes("18446744073709551616").is_err());
}

#[test]
fn check_accepts_large_valid_value() {
    assert!(check_human_bytes("50TiB").is_ok());
}

#[test]
fn check_returns_the_size_text_unchanged() {
    assert_eq!(check_human_bytes("5MiB").unwrap(), "5MiB");
}

#[test]
fn human_bytes_check_rejects_counts_above_u64() {
    assert_eq!(human_bytes_check("x", Ok(5)).unwrap(), "x");
    assert!(human_bytes_check("x", Ok(u64::MAX as u128 + 1)).is_err());
    assert_eq!(human_bytes_check("x", Err("bad".to_string())).unwrap_err(), "bad");
}

#[test]
fn check_scheme_accepts_https() {
    let result = check_scheme("https://example.com");
    assert!(result.is_ok());
    assert_eq!(result.unwrap(), "https://example.com");
}

#[test]
fn check_scheme_accepts_http() {
    let result = check_scheme("http://localhost:9000");
    assert!(result.is_ok());
}

#[test]
fn check_scheme_rejects_ftp() {
    let result = check_scheme("ftp://files.example.com");
    assert!(result.is_err());
    assert_eq!(result.unwrap_err(), "URL scheme must be https:// or http://");
}

#[test]
fn check_scheme_rejects_file_scheme() {
    let result = check_scheme("file:///tmp/test");
    assert!(result.is_err());
}

#[test]
fn check_scheme_rejects_invalid_url() {
    let result = check_scheme("not-a-url");
    assert!(result.is_err());
}

#[test]
fn scheme_check_decides_on_the_scheme() {
    assert_eq!(scheme_check("u", Ok("https".to_string())).unwrap(), "u");
    assert_eq!(scheme_check("u", Ok("http".to_string())).unwrap(), "u");
    assert_eq!(
        scheme_check("u", Ok("ftp".to_string())).unwrap_err(),
        "URL scheme must be https:// or http://"
    );
    assert_eq!(scheme_check("u", Err("parse error".to_string())).unwrap_err(), "parse error");
}

#[test]
fn parse_regex_accepts_valid_and_rejects_invalid() {
    assert_eq!(parse_regex(".*\\.log$").unwrap(), ".*\\.log$");
    assert!(parse_regex("[invalid").is_err());
}
