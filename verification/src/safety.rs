//! The safety check before deleting: a dry run or `--force` proceeds;
//! otherwise the user must confirm on an interactive terminal.

use vstd::prelude::*;

use crate::config::Config;
use crate::error::S3rmError;
use crate::text::str_eq;

verus! {

/// Whether a character is white space in the sense of the Unicode
/// `White_Space` property.
pub open spec fn is_white_space(c: char) -> bool {
    let u = c as u32;
    ||| (9 <= u && u <= 13)
    ||| u == 0x20
    ||| u == 0x85
    ||| u == 0xa0
    ||| u == 0x1680
    ||| (0x2000 <= u && u <= 0x200a)
    ||| u == 0x2028
    ||| u == 0x2029
    ||| u == 0x202f
    ||| u == 0x205f
    ||| u == 0x3000
}

/// `s` without its leading white space.
pub open spec fn trim_start(s: Seq<char>) -> Seq<char>
    decreases s.len(),
{
    if s.len() > 0 && is_white_space(s[0]) {
        trim_start(s.drop_first())
    } else {
        s
    }
}

/// `s` without its trailing white space.
pub open spec fn trim_end(s: Seq<char>) -> Seq<char>
    decreases s.len(),
{
    if s.len() > 0 && is_white_space(s.last()) {
        trim_end(s.drop_last())
    } else {
        s
    }
}

/// `s` without its leading and trailing white space.
pub open spec fn trimmed(s: Seq<char>) -> Seq<char> {
    trim_end(trim_start(s))
}

/// `str::trim`: the string without leading and trailing white space
/// (Unicode `White_Space`), as its documentation defines it.
#[verifier::external_body]
fn str_trim(s: &str) -> (r: &str)
    ensures
        r@ == trimmed(s@),
{
    s.trim()
}

/// What the safety check decides before deleting.
#[derive(Debug)]
pub enum SafetyDecision {
    /// Delete without asking.
    Proceed,
    /// Ask the user to confirm by typing `yes`.
    AskConfirmation,
    /// Stop with this error.
    Refuse(S3rmError),
}

/// The message of the refusal to delete without confirmation.
pub open spec fn unconfirmed_message() -> Seq<char> {
    "deletion needs confirmation: run it on an interactive terminal without JSON logging, or pass --force"@
}

/// The safety check: a dry run or `--force` proceeds; otherwise JSON logging
/// or a non-interactive terminal refuses with an invalid-configuration
/// error (no confirmation can be asked), and an interactive terminal asks
/// for confirmation.
pub fn check_before_deletion(config: &Config, interactive: bool) -> (r: SafetyDecision)
    ensures
        config.dry_run || config.force ==> r is Proceed,
        !(config.dry_run || config.force) && ((config.tracing_config matches Some(t) && t.json_tracing)
            || !interactive) ==> (r matches SafetyDecision::Refuse(e) && e matches S3rmError::InvalidConfig(m)
            && m@ == unconfirmed_message()),
        !(config.dry_run || config.force) && !(config.tracing_config matches Some(t) && t.json_tracing) && interactive
            ==> r is AskConfirmation,
{
    if config.dry_run || config.force {
        return SafetyDecision::Proceed;
    }
    let json = match &config.tracing_config {
        Some(t) => t.json_tracing,
        None => false,
    };
    if json || !interactive {
        return SafetyDecision::Refuse(
            S3rmError::InvalidConfig(
                String::from_str(
                    "deletion needs confirmation: run it on an interactive terminal without JSON logging, or pass --force",
                ),
            ),
        );
    }
    SafetyDecision::AskConfirmation
}

/// The outcome of the confirmation prompt: deletion goes on only when the
/// answer, without surrounding white space, is `yes`; otherwise it is
/// cancelled.
pub fn confirmation_result(response: &str) -> (r: Result<(), S3rmError>)
    ensures
        trimmed(response@) == "yes"@ ==> r is Ok,
        trimmed(response@) != "yes"@ ==> r == Err::<(), S3rmError>(S3rmError::Cancelled),
{
    let answer = str_trim(response);
    if str_eq(answer, "yes") {
        Ok(())
    } else {
        Err(S3rmError::Cancelled)
    }
}

} // verus!
