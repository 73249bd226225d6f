//! The failures of the gateway, and the text that a caller is shown for each.

use vstd::prelude::*;
use vstd::string::*;

verus! {

/// The filesystem call that a job is waiting for, in the order in which a job
/// asks for them.
#[derive(Clone, Copy, Debug, PartialEq, Eq, Structural)]
pub enum Stage {
    /// Creating the target's parent directory and every missing ancestor.
    Directories,
    /// Creating the target file, or truncating it where it exists.
    File,
    /// Writing the sample's bytes into the file just created.
    Contents,
}

/// Why an operation did not succeed.
#[derive(Debug, PartialEq, Eq)]
pub enum FileError {
    /// The relative path of a sample does not end in `.wav`. Nothing was asked
    /// of the filesystem.
    Validation,
    /// The full path has no parent directory.
    Path,
    /// A filesystem call failed. `stage` is the call, `cause` the platform's
    /// description of the failure.
    Io { stage: Stage, cause: String },
}

/// A `FileError` as a mathematical value.
pub enum FileErrorView {
    Validation,
    Path,
    Io { stage: Stage, cause: Seq<char> },
}

impl View for FileError {
    type V = FileErrorView;

    open spec fn view(&self) -> FileErrorView {
        match self {
            FileError::Validation => FileErrorView::Validation,
            FileError::Path => FileErrorView::Path,
            FileError::Io { stage, cause } => FileErrorView::Io { stage: *stage, cause: cause@ },
        }
    }
}

/// What introduces the platform's description in the message of a failed
/// filesystem call.
pub open spec fn stage_prefix(stage: Stage) -> Seq<char> {
    match stage {
        Stage::Directories => "Failed to create directories: "@,
        Stage::File => "Failed to create file: "@,
        Stage::Contents => "Failed to write to file: "@,
    }
}

impl FileErrorView {
    /// The text shown for this error.
    pub open spec fn message(self) -> Seq<char> {
        match self {
            FileErrorView::Validation => "the relative path must end with .wav"@,
            FileErrorView::Path => "failed to determine parent directory"@,
            FileErrorView::Io { stage, cause } => stage_prefix(stage) + cause,
        }
    }
}

impl FileError {
    /// The text shown for this error: a fixed sentence for an invalid request,
    /// and for a failed filesystem call the platform's description behind a
    /// prefix that names the call.
    pub fn message(&self) -> (text: String)
        ensures
            text@ == self@.message(),
    {
        match self {
            FileError::Validation => String::from_str("the relative path must end with .wav"),
            FileError::Path => String::from_str("failed to determine parent directory"),
            FileError::Io { stage, cause } => {
                let prefix = match stage {
                    Stage::Directories => "Failed to create directories: ",
                    Stage::File => "Failed to create file: ",
                    Stage::Contents => "Failed to write to file: ",
                };
                String::from_str(prefix).concat(cause.as_str())
            },
        }
    }
}

} // verus!
