# s3rm-rs

A fast Amazon S3 object deletion tool, split in two:

- `src/` is the library, verified with Verus. It holds the tool's
  decisions that can be made on plain values: turning command-line
  arguments into a validated configuration, the object filters (size,
  modification time, key regex, latest version, delete markers) and one
  turn of a filter stage, the content-type, metadata and tag filters of the
  deletion workers, how a batch is deleted (dry run, `DeleteObjects`
  requests or a single `DeleteObject` call), how partial failures fall back
  to retried single deletions, the statistics and events each outcome
  produces, the safety confirmation, and the exit code of a run. Laws that
  relate several functions are public proof functions (`law_*`). Where an
  outside call decides an outcome (a write to a pipe, a file's existence,
  a regex match), the contract states what is done with the outcome rather
  than the outcome itself.
- `app/` is the program around it: clap parsing, the AWS SDK client, the
  asynchronous pipeline that moves objects between the stages and performs
  the calls the library asks for, Lua callbacks, logging and the progress
  indicator.

Calls into outside crates that the library makes (regex matching, time
conversion, byte-size and URL parsing, URL encoding) go through small
trusted wrappers whose contracts say what the crates document.

`tests/` exercises the library on concrete values.
