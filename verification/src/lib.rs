//! A file gateway without the files: the decisions behind three file
//! operations of a sample library (write an audio sample, probe for a file,
//! create an empty placeholder), kept apart from the filesystem calls.
//!
//! The gateway validates a request, resolves its paths and then tells its host,
//! one step at a time, which filesystem call to make next. The host makes the
//! call and reports how it went; the gateway decides what follows. Every
//! decision is verified with Verus; the filesystem calls themselves are the
//! host's business.

pub mod error;
pub mod gateway;
pub mod job;
pub mod laws;
pub mod path;

pub use error::{FileError, FileErrorView, Stage};
pub use gateway::{create_placeholder_file, file_exists, write_sample_file, Probe};
pub use job::{Job, JobView, Progress, ProgressView, Request, RequestView};
