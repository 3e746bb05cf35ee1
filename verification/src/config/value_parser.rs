//! Checks of command-line values: human-readable byte sizes, endpoint URLs,
//! regular expressions and script paths.

use std::num::TryFromIntError;

use byte_unit::Byte;
use url::Url;
use vstd::prelude::*;

use crate::regex::{regex_new_error, FilterRegex};
use crate::text::str_eq;

verus! {

/// The byte count of a human-readable size (`5MiB`, `1KB`, `1024`) as
/// `byte_unit::Byte::from_str` reads it, or the text of its parse error.
pub uninterp spec fn byte_text_value(text: Seq<char>) -> Result<u128, Seq<char>>;

/// The scheme of a URL as `url::Url::parse` reads it, or the text of its
/// parse error.
pub uninterp spec fn url_scheme_of(text: Seq<char>) -> Result<Seq<char>, Seq<char>>;

/// `byte_unit::Byte::from_str` followed by `Byte::as_u128`: the byte count
/// of a human-readable size, or the parse error's text.
#[verifier::external_body]
fn parse_byte_text(value: &str) -> (r: Result<u128, String>)
    ensures
        match r {
            Ok(n) => byte_text_value(value@) == Ok::<u128, Seq<char>>(n),
            Err(e) => byte_text_value(value@) == Err::<u128, Seq<char>>(e@),
        },
{
    match <Byte as std::str::FromStr>::from_str(value) {
        Ok(b) => Ok(b.as_u128()),
        Err(e) => Err(e.to_string()),
    }
}

/// `ToString::to_string` of a failed integer conversion. Its text is left
/// unstated.
#[verifier::external_body]
pub(crate) fn conversion_error_text(e: TryFromIntError) -> String {
    e.to_string()
}

/// `url::Url::parse`, read for the parsed URL's scheme (`Url::scheme`), or
/// the parse error's text.
#[verifier::external_body]
fn parse_url_scheme(url: &str) -> (r: Result<String, String>)
    ensures
        match r {
            Ok(s) => url_scheme_of(url@) == Ok::<Seq<char>, Seq<char>>(s@),
            Err(e) => url_scheme_of(url@) == Err::<Seq<char>, Seq<char>>(e@),
        },
{
    match Url::parse(url) {
        Ok(u) => Ok(u.scheme().to_string()),
        Err(e) => Err(e.to_string()),
    }
}

/// `std::path::Path::is_file`: whether a regular file exists at the path.
/// It depends on the file system, so nothing is stated of its result.
#[verifier::external_body]
fn file_is_present(path: &str) -> bool {
    std::path::Path::new(path).is_file()
}

/// The byte count of a human-readable size when it parses and fits in a
/// `u64`.
pub open spec fn human_bytes_value(text: Seq<char>) -> Option<u64> {
    match byte_text_value(text) {
        Ok(n) => if n <= u64::MAX {
            Some(n as u64)
        } else {
            None
        },
        Err(_) => None,
    }
}

/// The check of a size given the outcome of parsing it: the parse error, a
/// conversion error when the count exceeds `u64::MAX`, or the size itself.
pub fn human_bytes_check(value: &str, parsed: Result<u128, String>) -> (r: Result<String, String>)
    ensures
        match parsed {
            Ok(n) => if n <= u64::MAX {
                r matches Ok(s) && s@ == value@
            } else {
                r is Err
            },
            Err(e) => r matches Err(m) && m@ == e@,
        },
{
    match parsed {
        Err(e) => Err(e),
        Ok(n) => match u64::try_from(n) {
            Ok(_) => Ok(value.to_owned()),
            Err(e) => Err(conversion_error_text(e)),
        },
    }
}

/// Checks a human-readable size (`5MiB`, `1KB`, `1024`): it must parse and
/// its byte count must fit in a `u64`. Returns the size text unchanged.
pub fn check_human_bytes(value: &str) -> (r: Result<String, String>)
    ensures
        r is Ok <==> human_bytes_value(value@) is Some,
        r matches Ok(s) ==> s@ == value@,
        byte_text_value(value@) matches Err(e) ==> (r matches Err(m) && m@ == e),
{
    human_bytes_check(value, parse_byte_text(value))
}

/// The byte count of a human-readable size that fits in a `u64`.
pub fn parse_human_bytes(value: &str) -> (r: Result<u64, String>)
    ensures
        match human_bytes_value(value@) {
            Some(n) => r == Ok::<u64, String>(n),
            None => r is Err,
        },
        byte_text_value(value@) matches Err(e) ==> (r matches Err(m) && m@ == e),
{
    match check_human_bytes(value) {
        Err(e) => Err(e),
        Ok(_) => match parse_byte_text(value) {
            Ok(n) => Ok(n as u64),
            Err(e) => Err(e),
        },
    }
}

/// The error of an endpoint URL whose scheme is neither `https` nor `http`.
pub open spec fn invalid_scheme_message() -> Seq<char> {
    "URL scheme must be https:// or http://"@
}

/// The check of an endpoint URL given its parsed scheme: the parse error,
/// the invalid-scheme error, or the URL itself.
pub fn scheme_check(url: &str, parsed: Result<String, String>) -> (r: Result<String, String>)
    ensures
        match parsed {
            Ok(scheme) => if scheme@ == "https"@ || scheme@ == "http"@ {
                r matches Ok(s) && s@ == url@
            } else {
                r matches Err(m) && m@ == invalid_scheme_message()
            },
            Err(e) => r matches Err(m) && m@ == e@,
        },
{
    match parsed {
        Err(e) => Err(e),
        Ok(scheme) => {
            if !str_eq(scheme.as_str(), "https") && !str_eq(scheme.as_str(), "http") {
                return Err(String::from_str("URL scheme must be https:// or http://"));
            }
            Ok(url.to_owned())
        },
    }
}

/// Checks an endpoint URL: it must parse with an `https` or `http` scheme.
/// Returns the URL unchanged.
pub fn check_scheme(url: &str) -> (r: Result<String, String>)
    ensures
        match url_scheme_of(url@) {
            Ok(scheme) => if scheme == "https"@ || scheme == "http"@ {
                r matches Ok(s) && s@ == url@
            } else {
                r matches Err(m) && m@ == invalid_scheme_message()
            },
            Err(e) => r matches Err(m) && m@ == e,
        },
{
    scheme_check(url, parse_url_scheme(url))
}

/// Checks a regular expression: it must compile. Returns the pattern
/// unchanged, or the compile error's text.
pub fn parse_regex(pattern: &str) -> (r: Result<String, String>)
    ensures
        match regex_new_error(pattern@) {
            None => r matches Ok(s) && s@ == pattern@,
            Some(e) => r matches Err(m) && m@ == e,
        },
{
    match FilterRegex::new(pattern) {
        Ok(_) => Ok(pattern.to_owned()),
        Err(e) => Err(e),
    }
}

/// The error of a script path that names no regular file.
pub open spec fn file_not_found_message(path: Seq<char>) -> Seq<char> {
    "file not found: "@ + path
}

/// The check of a script path given whether a regular file exists there.
pub fn file_check(path: &str, present: bool) -> (r: Result<String, String>)
    ensures
        present ==> (r matches Ok(s) && s@ == path@),
        !present ==> (r matches Err(m) && m@ == file_not_found_message(path@)),
{
    if present {
        Ok(path.to_owned())
    } else {
        let mut message = String::from_str("file not found: ");
        message.append(path);
        Err(message)
    }
}

/// Checks that a script path names a regular file. Returns the path
/// unchanged, or `file not found: <path>`.
pub fn is_file_exist(path: &str) -> (r: Result<String, String>)
    ensures
        r matches Ok(s) ==> s@ == path@,
        r matches Err(m) ==> m@ == file_not_found_message(path@),
{
    file_check(path, file_is_present(path))
}

} // verus!
