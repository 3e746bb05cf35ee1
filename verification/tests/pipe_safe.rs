use std::io::{ErrorKind, Write};

use s3rm_rs::pipe_safe::{write_all_ignoring_broken_pipe, write_outcome, WriteFailure};

/// Fails writes (or, with `fail_flush`, only the flush) with `kind`.
struct FailWriter {
    kind: ErrorKind,
    fail_flush: bool,
}

impl Write for FailWriter {
    fn write(&mut self, buf: &[u8]) -> std::io::Result<usize> {
        if self.fail_flush {
            Ok(buf.len())
        } else {
            Err(std::io::Error::new(self.kind, "simulated write failure"))
        }
    }

    fn flush(&mut self) -> std::io::Result<()> {
        if self.fail_flush {
            Err(std::io::Error::new(self.kind, "simulated flush failure"))
        } else {
            Ok(())
        }
    }
}

#[test]
fn write_all_passes_bytes_through_verbatim() {
    let mut buf = Vec::new();
    write_all_ignoring_broken_pipe(&mut buf, b"complete -c s3rm\n").unwrap();
    assert_eq!(buf, b"complete -c s3rm\n");
}

#[test]
fn write_all_swallows_broken_pipe_on_write() {
    let mut writer = FailWriter { kind: ErrorKind::BrokenPipe, fail_flush: false };
    write_all_ignoring_broken_pipe(&mut writer, b"data").unwrap();
}

#[test]
fn write_all_swallows_broken_pipe_on_flush() {
    let mut writer = FailWriter { kind: ErrorKind::BrokenPipe, fail_flush: true };
    write_all_ignoring_broken_pipe(&mut writer, b"data").unwrap();
}

#[test]
fn write_all_propagates_other_errors() {
    let mut writer = FailWriter { kind: ErrorKind::StorageFull, fail_flush: false };
    let err = write_all_ignoring_broken_pipe(&mut writer, b"data").unwrap_err();
    assert_eq!(err.kind(), ErrorKind::StorageFull);
}

#[test]
fn write_all_propagates_other_errors_on_flush() {
    let mut writer = FailWriter { kind: ErrorKind::StorageFull, fail_flush: true };
    let err = write_all_ignoring_broken_pipe(&mut writer, b"data").unwrap_err();
    assert_eq!(err.kind(), ErrorKind::StorageFull);
}

fn failure(kind: ErrorKind) -> WriteFailure {
    WriteFailure { broken_pipe: kind == ErrorKind::BrokenPipe, error: std::io::Error::new(kind, "simulated") }
}

#[test]
fn write_outcome_takes_the_flush_only_after_a_successful_write() {
    assert!(write_outcome(Ok(()), Some(Ok(()))).is_ok());
    assert!(write_outcome(Ok(()), Some(Err(failure(ErrorKind::BrokenPipe)))).is_ok());
    assert_eq!(write_outcome(Ok(()), Some(Err(failure(ErrorKind::StorageFull)))).unwrap_err().kind(), ErrorKind::StorageFull);
    assert!(write_outcome(Err(failure(ErrorKind::BrokenPipe)), None).is_ok());
    assert_eq!(write_outcome(Err(failure(ErrorKind::StorageFull)), None).unwrap_err().kind(), ErrorKind::StorageFull);
}
