//! Writing to a pipe whose reader may have gone away: a broken pipe is a
//! normal way for a pipeline to end, every other write error is reported.

use std::io::{Error, ErrorKind, Write};

use vstd::prelude::*;

verus! {

#[verifier::external_type_specification]
#[verifier::external_body]
pub struct ExIoError(Error);

/// A failed write or flush: whether it failed because the reader of the
/// pipe went away, and the error itself.
#[derive(Debug)]
pub struct WriteFailure {
    pub broken_pipe: bool,
    pub error: Error,
}

/// `std::io::Write::write_all`, a failure tagged with whether its kind is
/// `ErrorKind::BrokenPipe`. Nothing is stated of the outcome, which
/// depends on the writer.
#[verifier::external_body]
fn write_all_bytes<W: Write>(writer: &mut W, bytes: &[u8]) -> Result<(), WriteFailure> {
    match writer.write_all(bytes) {
        Ok(()) => Ok(()),
        Err(e) => Err(WriteFailure { broken_pipe: e.kind() == ErrorKind::BrokenPipe, error: e }),
    }
}

/// `std::io::Write::flush`, a failure tagged with whether its kind is
/// `ErrorKind::BrokenPipe`. Nothing is stated of the outcome, which
/// depends on the writer.
#[verifier::external_body]
fn flush_writer<W: Write>(writer: &mut W) -> Result<(), WriteFailure> {
    match writer.flush() {
        Ok(()) => Ok(()),
        Err(e) => Err(WriteFailure { broken_pipe: e.kind() == ErrorKind::BrokenPipe, error: e }),
    }
}

/// A broken pipe counted as success: the outcome of a write or flush with
/// the failure's error kept unless it is a broken pipe.
pub open spec fn broken_pipe_ignored(result: Result<(), WriteFailure>) -> Result<(), Error> {
    match result {
        Ok(()) => Ok(()),
        Err(f) => if f.broken_pipe {
            Ok(())
        } else {
            Err(f.error)
        },
    }
}

/// The outcome of writing all bytes then flushing: the write's failure, or,
/// when the write succeeded, the flush's outcome, a broken pipe counted as
/// success either way.
pub open spec fn write_result(written: Result<(), WriteFailure>, flushed: Option<Result<(), WriteFailure>>) -> Result<
    (),
    Error,
> {
    match written {
        Ok(()) => match flushed {
            Some(f) => broken_pipe_ignored(f),
            None => Ok(()),
        },
        Err(f) => broken_pipe_ignored(Err(f)),
    }
}

/// Treats a broken pipe as success and keeps every other error.
pub fn ignore_broken_pipe(result: Result<(), WriteFailure>) -> (r: Result<(), Error>)
    ensures
        r == broken_pipe_ignored(result),
{
    match result {
        Ok(()) => Ok(()),
        Err(f) => if f.broken_pipe {
            Ok(())
        } else {
            Err(f.error)
        },
    }
}

/// The outcome of writing all bytes, `written`, and of the flush that
/// follows a successful write, `flushed` (there is none after a failed
/// write).
pub fn write_outcome(written: Result<(), WriteFailure>, flushed: Option<Result<(), WriteFailure>>) -> (r: Result<
    (),
    Error,
>)
    requires
        written is Ok <==> flushed is Some,
    ensures
        r == write_result(written, flushed),
{
    match written {
        Ok(()) => match flushed {
            Some(f) => ignore_broken_pipe(f),
            None => Ok(()),
        },
        Err(f) => ignore_broken_pipe(Err(f)),
    }
}

/// Writes `bytes` with `write_all` and, only when that succeeded, flushes;
/// the result is `write_result` of the two outcomes, a broken pipe on either
/// step counting as success. Whether each step succeeds is up to the writer
/// (its failure is an opaque `std::io::Error`), so the outcomes themselves
/// are left unstated.
pub fn write_all_ignoring_broken_pipe<W: Write>(writer: &mut W, bytes: &[u8]) -> (r: Result<(), Error>)
    ensures
        exists|written: Result<(), WriteFailure>, flushed: Option<Result<(), WriteFailure>>|
            (written is Ok <==> flushed is Some) && r == #[trigger] write_result(written, flushed),
{
    let written = write_all_bytes(writer, bytes);
    let flushed = if written.is_ok() {
        Some(flush_writer(writer))
    } else {
        None
    };
    let ghost w = written;
    let ghost f = flushed;
    let r = write_outcome(written, flushed);
    assert((w is Ok <==> f is Some) && r == write_result(w, f));
    r
}

} // verus!
