//! Errors of the deletion tool and the process exit codes they map to.

use vstd::prelude::*;

verus! {

/// Exit code of a run that completed with warnings.
pub const EXIT_CODE_WARNING: i32 = 3;

/// Exit code of an abnormal termination (a panicking task).
pub const EXIT_CODE_ABNORMAL_TERMINATION: i32 = 101;

/// An error of the deletion tool.
#[derive(Clone, Debug, PartialEq, Eq)]
pub enum S3rmError {
    AwsSdk(String),
    InvalidConfig(String),
    InvalidUri(String),
    InvalidRegex(String),
    LuaScript(String),
    Io(String),
    Cancelled,
    PartialFailure { deleted: u64, failed: u64 },
    Pipeline(String),
}

impl S3rmError {
    /// The exit code of the error: 0 for a cancellation, 2 for invalid
    /// input (configuration, URI, regex), 3 for a partial failure, 1
    /// otherwise.
    pub open spec fn exit_code_spec(&self) -> i32 {
        match self {
            S3rmError::Cancelled => 0,
            S3rmError::InvalidConfig(_) | S3rmError::InvalidUri(_) | S3rmError::InvalidRegex(_) => 2,
            S3rmError::PartialFailure { .. } => 3,
            _ => 1,
        }
    }

    /// The exit code of the error.
    pub fn exit_code(&self) -> (r: i32)
        ensures
            r == self.exit_code_spec(),
    {
        match self {
            S3rmError::Cancelled => 0,
            S3rmError::InvalidConfig(_) | S3rmError::InvalidUri(_) | S3rmError::InvalidRegex(_) => 2,
            S3rmError::PartialFailure { .. } => 3,
            _ => 1,
        }
    }

    /// Whether the error is a cancellation.
    pub fn is_cancelled(&self) -> (r: bool)
        ensures
            r == (*self is Cancelled),
    {
        match self {
            S3rmError::Cancelled => true,
            _ => false,
        }
    }
}

/// The exit code of an error that may or may not be one of the tool's own
/// (`None` for any other error): its own exit code, else 1.
pub open spec fn error_exit_code(err: Option<S3rmError>) -> i32 {
    match err {
        Some(e) => e.exit_code_spec(),
        None => 1,
    }
}

/// Whether an error, given as the tool's own error when it is one, is a
/// cancellation.
pub fn is_cancelled_error(err: Option<&S3rmError>) -> (r: bool)
    ensures
        r == (err matches Some(e) && *e is Cancelled),
{
    match err {
        Some(e) => e.is_cancelled(),
        None => false,
    }
}

/// The exit code of an error, given as the tool's own error when it is
/// one.
pub fn exit_code_from_error(err: Option<&S3rmError>) -> (r: i32)
    ensures
        r == error_exit_code(match err {
            Some(e) => Some(*e),
            None => None,
        }),
{
    match err {
        Some(e) => e.exit_code(),
        None => 1,
    }
}

/// The error is a cancellation.
pub open spec fn is_cancellation(err: Option<S3rmError>) -> bool {
    match err {
        Some(e) => e is Cancelled,
        None => false,
    }
}

/// The largest exit code of the errors, at least 1.
pub open spec fn max_exit_code(errors: Seq<Option<S3rmError>>) -> i32
    decreases errors.len(),
{
    if errors.len() == 0 {
        1
    } else {
        let rest = max_exit_code(errors.drop_last());
        let c = error_exit_code(errors.last());
        if c > rest {
            c
        } else {
            rest
        }
    }
}

/// The exit code of a run that ended with errors: `None` when one of them
/// is a cancellation (the run ends normally), else the largest exit code of
/// the errors and 1, so that a severe status is not downgraded by a later
/// generic error.
pub fn errors_exit_code(errors: &Vec<Option<S3rmError>>) -> (r: Option<i32>)
    ensures
        (exists|i: int| 0 <= i < errors@.len() && is_cancellation(errors@[i])) ==> r is None,
        (forall|i: int| 0 <= i < errors@.len() ==> !is_cancellation(errors@[i])) ==> r == Some(max_exit_code(errors@)),
{
    let mut code: i32 = 1;
    let n = errors.len();
    for i in 0..n
        invariant
            n == errors.len(),
            code == max_exit_code(errors@.take(i as int)),
            forall|k: int| 0 <= k < i ==> !is_cancellation(#[trigger] errors@[k]),
    {
        let err: Option<&S3rmError> = match &errors[i] {
            Some(e) => Some(e),
            None => None,
        };
        if is_cancelled_error(err) {
            return None;
        }
        let c = exit_code_from_error(err);
        proof {
            assert(errors@.take(i + 1).drop_last() =~= errors@.take(i as int));
        }
        if c > code {
            code = c;
        }
    }
    assert(errors@.take(n as int) =~= errors@);
    Some(code)
}

/// The exit code of a run is at least 1 and at least the exit code of each
/// of its errors: a severe status is never downgraded by another error.
pub proof fn law_exit_code_not_downgraded(errors: Seq<Option<S3rmError>>, i: int)
    requires
        0 <= i < errors.len(),
    ensures
        max_exit_code(errors) >= 1,
        max_exit_code(errors) >= error_exit_code(errors[i]),
    decreases errors.len(),
{
    if i < errors.len() - 1 {
        law_exit_code_not_downgraded(errors.drop_last(), i);
    } else {
        lemma_max_exit_code_at_least_one(errors.drop_last());
    }
}

/// The exit code of a run is at least 1.
proof fn lemma_max_exit_code_at_least_one(errors: Seq<Option<S3rmError>>)
    ensures
        max_exit_code(errors) >= 1,
    decreases errors.len(),
{
    if errors.len() > 0 {
        lemma_max_exit_code_at_least_one(errors.drop_last());
    }
}

/// The exit code of a run is the exit code of one of its errors, or 1.
pub proof fn law_exit_code_comes_from_an_error(errors: Seq<Option<S3rmError>>)
    ensures
        max_exit_code(errors) == 1 || exists|i: int| 0 <= i < errors.len() && max_exit_code(errors) == error_exit_code(
            #[trigger] errors[i],
        ),
    decreases errors.len(),
{
    if errors.len() > 0 {
        let rest = errors.drop_last();
        law_exit_code_comes_from_an_error(rest);
        if max_exit_code(rest) != 1 && max_exit_code(errors) == max_exit_code(rest) {
            let i = choose|i: int| 0 <= i < rest.len() && max_exit_code(rest) == error_exit_code(#[trigger] rest[i]);
            assert(errors[i] == rest[i]);
        } else if max_exit_code(errors) != 1 {
            assert(errors[errors.len() - 1] == errors.last());
        }
    }
}

} // verus!
