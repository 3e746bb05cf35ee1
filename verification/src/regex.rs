//! Compiled regular expressions used by the key, content-type, metadata and
//! tag filters.

use fancy_regex::{Regex, RegexBuilder};
use vstd::prelude::*;

verus! {

#[verifier::external_type_specification]
#[verifier::external_body]
pub struct ExRegex(Regex);

/// The error text of `fancy_regex::Regex::new(pattern)`, `None` when the
/// pattern compiles.
pub uninterp spec fn regex_new_error(pattern: Seq<char>) -> Option<Seq<char>>;

/// The error text of `fancy_regex::RegexBuilder::new(pattern)
/// .backtrack_limit(limit).build()`, `None` when the pattern compiles.
pub uninterp spec fn regex_build_error(pattern: Seq<char>, backtrack_limit: usize) -> Option<Seq<char>>;

/// The outcome of `fancy_regex::Regex::is_match(text)` for the regex compiled
/// from `pattern` with the backtrack limit `backtrack_limit` (the default when
/// `None`): `Some(matched)`, or `None` when matching fails at run time.
pub uninterp spec fn regex_is_match(
    pattern: Seq<char>,
    backtrack_limit: Option<usize>,
    text: Seq<char>,
) -> Option<bool>;

/// `fancy_regex::Regex::new`: compiles `pattern` with default options.
#[verifier::external_body]
fn compile_default(pattern: &str) -> (r: Result<Regex, String>)
    ensures
        r is Ok <==> regex_new_error(pattern@) is None,
        r matches Err(e) ==> regex_new_error(pattern@) == Some(e@),
{
    Regex::new(pattern).map_err(|e| e.to_string())
}

/// `fancy_regex::RegexBuilder::build` with the given backtrack limit.
#[verifier::external_body]
fn compile_with_limit(pattern: &str, backtrack_limit: usize) -> (r: Result<Regex, String>)
    ensures
        r is Ok <==> regex_build_error(pattern@, backtrack_limit) is None,
        r matches Err(e) ==> regex_build_error(pattern@, backtrack_limit) == Some(e@),
{
    RegexBuilder::new(pattern).backtrack_limit(backtrack_limit).build().map_err(|e| e.to_string())
}

/// `Clone::clone` of a compiled regex.
#[verifier::external_body]
fn clone_compiled(re: &Regex) -> Regex {
    re.clone()
}

/// A compiled pattern together with the pattern text and backtrack limit it
/// was compiled from.
#[derive(Debug)]
pub struct FilterRegex {
    pattern: String,
    backtrack_limit: Option<usize>,
    compiled: Regex,
}

/// `fancy_regex::Regex::is_match` of the compiled pattern of `re`. The
/// contract relies on `re.compiled` having been compiled from `re.pattern`
/// and `re.backtrack_limit`, which the constructors of `FilterRegex`, the
/// only code that sets these private fields, ensure.
#[verifier::external_body]
fn compiled_is_match(re: &FilterRegex, text: &str) -> (r: Option<bool>)
    ensures
        r == regex_is_match(re.pattern_spec(), re.limit_spec(), text@),
{
    re.compiled.is_match(text).ok()
}

impl FilterRegex {
    pub closed spec fn pattern_spec(&self) -> Seq<char> {
        self.pattern@
    }

    pub closed spec fn limit_spec(&self) -> Option<usize> {
        self.backtrack_limit
    }

    /// Compiles `pattern` with default options.
    pub fn new(pattern: &str) -> (r: Result<FilterRegex, String>)
        ensures
            r is Ok <==> regex_new_error(pattern@) is None,
            r matches Ok(re) ==> re.pattern_spec() == pattern@ && re.limit_spec() is None,
            r matches Err(e) ==> regex_new_error(pattern@) == Some(e@),
    {
        match compile_default(pattern) {
            Ok(compiled) => Ok(FilterRegex { pattern: pattern.to_owned(), backtrack_limit: None, compiled }),
            Err(e) => Err(e),
        }
    }

    /// Compiles `pattern` with the given backtrack limit.
    pub fn with_backtrack_limit(pattern: &str, backtrack_limit: usize) -> (r: Result<FilterRegex, String>)
        ensures
            r is Ok <==> regex_build_error(pattern@, backtrack_limit) is None,
            r matches Ok(re) ==> re.pattern_spec() == pattern@ && re.limit_spec() == Some(backtrack_limit),
            r matches Err(e) ==> regex_build_error(pattern@, backtrack_limit) == Some(e@),
    {
        match compile_with_limit(pattern, backtrack_limit) {
            Ok(compiled) => Ok(
                FilterRegex { pattern: pattern.to_owned(), backtrack_limit: Some(backtrack_limit), compiled },
            ),
            Err(e) => Err(e),
        }
    }

    /// The pattern text.
    pub fn as_str(&self) -> (r: &str)
        ensures
            r@ == self.pattern_spec(),
    {
        self.pattern.as_str()
    }

    /// Whether `text` matches; `None` when matching fails at run time (for
    /// instance when the backtrack limit is exceeded).
    pub fn is_match(&self, text: &str) -> (r: Option<bool>)
        ensures
            r == regex_is_match(self.pattern_spec(), self.limit_spec(), text@),
    {
        compiled_is_match(self, text)
    }
}

impl Clone for FilterRegex {
    fn clone(&self) -> (r: Self)
        ensures
            r.pattern_spec() == self.pattern_spec(),
            r.limit_spec() == self.limit_spec(),
    {
        FilterRegex {
            pattern: self.pattern.clone(),
            backtrack_limit: self.backtrack_limit,
            compiled: clone_compiled(&self.compiled),
        }
    }
}

} // verus!
