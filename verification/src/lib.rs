//! s3rm-rs: the decision logic of a fast Amazon S3 object deletion tool.
//!
//! The library holds, with machine-checked contracts, everything the deletion
//! tool decides: which listed objects pass the configured filters, how objects
//! are grouped into batch deletion requests and retried, what statistics and
//! events each outcome produces, and how command-line arguments become a
//! validated configuration. The asynchronous pipeline that performs the S3
//! calls drives these decisions and lives outside the library.

pub mod callback;
pub mod config;
pub mod deleter;
pub mod error;
pub mod event;
pub mod filters;
pub mod indicator;
pub mod lister;
pub mod lua;
pub mod pipe_safe;
pub mod regex;
pub mod safety;
pub mod text;
pub mod time;
pub mod token;
pub mod types;
pub mod ui_config;

pub use types::{S3Object, Timestamp};
