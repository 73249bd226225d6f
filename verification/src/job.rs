//! A job: one write of a sample, or one placeholder, on its way through the
//! filesystem calls it needs.
//!
//! A job never touches the filesystem. It names the next call as a
//! [`Request`]; its host makes the call and hands the outcome to
//! [`Job::advance`], which decides what follows.

use crate::error::{FileError, FileErrorView, Stage};
use vstd::prelude::*;

verus! {

/// A filesystem call that a job asks its host to make.
#[derive(Clone, Copy, Debug, PartialEq, Eq)]
pub enum Request<'a> {
    /// Create `directory` and every missing directory above it; succeed where
    /// it is already there, and where `directory` is empty.
    CreateDirectories { directory: &'a str },
    /// Create an empty file at `path`; where a file is there, cut it to length
    /// zero.
    CreateFile { path: &'a str },
    /// Write all of `bytes` into the file at `path`, which the request before
    /// this one has created.
    WriteContents { path: &'a str, bytes: &'a [u8] },
}

/// A `Request` as a mathematical value.
pub enum RequestView {
    CreateDirectories { directory: Seq<char> },
    CreateFile { path: Seq<char> },
    WriteContents { path: Seq<char>, bytes: Seq<u8> },
}

impl<'a> View for Request<'a> {
    type V = RequestView;

    open spec fn view(&self) -> RequestView {
        match self {
            Request::CreateDirectories { directory } => RequestView::CreateDirectories {
                directory: directory@,
            },
            Request::CreateFile { path } => RequestView::CreateFile { path: path@ },
            Request::WriteContents { path, bytes } => RequestView::WriteContents {
                path: path@,
                bytes: bytes@,
            },
        }
    }
}

/// A job that still has a filesystem call to ask for.
#[derive(Debug, PartialEq, Eq)]
pub struct Job {
    directory: String,
    path: String,
    contents: Option<Vec<u8>>,
    stage: Stage,
}

/// A `Job` as a mathematical value.
pub struct JobView {
    /// The parent directory of the target.
    pub directory: Seq<char>,
    /// The full path of the target.
    pub path: Seq<char>,
    /// The bytes to write, for a sample; `None` for a placeholder.
    pub contents: Option<Seq<u8>>,
    /// The call that the job is waiting for.
    pub stage: Stage,
}

/// Where a job stands after its host has reported on a call.
#[derive(Debug, PartialEq, Eq)]
pub enum Progress {
    /// The call succeeded and the job asks for another.
    Pending(Job),
    /// The last call succeeded: the operation is complete.
    Done,
    /// The call failed: the operation ends with this error.
    Failed(FileError),
}

/// A `Progress` as a mathematical value.
pub enum ProgressView {
    Pending(JobView),
    Done,
    Failed(FileErrorView),
}

impl View for Progress {
    type V = ProgressView;

    open spec fn view(&self) -> ProgressView {
        match self {
            Progress::Pending(job) => ProgressView::Pending(job@),
            Progress::Done => ProgressView::Done,
            Progress::Failed(error) => ProgressView::Failed(error@),
        }
    }
}

/// What a host reports of a call: success, or the platform's description of
/// the failure.
pub open spec fn outcome_view(outcome: Result<(), String>) -> Result<(), Seq<char>> {
    match outcome {
        Ok(_) => Ok(()),
        Err(cause) => Err(cause@),
    }
}

/// What `Job::start` returns, as a mathematical value.
pub open spec fn started_view(started: Result<Job, FileError>) -> Result<JobView, FileErrorView> {
    match started {
        Ok(job) => Ok(job@),
        Err(error) => Err(error@),
    }
}

/// The bytes of a job, if it has any, as a mathematical value.
pub open spec fn contents_view(contents: Option<Vec<u8>>) -> Option<Seq<u8>> {
    match contents {
        Some(bytes) => Some(bytes@),
        None => None,
    }
}

/// A parent directory, if there is one, as a mathematical value.
pub open spec fn parent_view(parent: Option<String>) -> Option<Seq<char>> {
    match parent {
        Some(directory) => Some(directory@),
        None => None,
    }
}

impl JobView {
    /// A job only waits for its bytes to be written if it has bytes.
    pub open spec fn wf(self) -> bool {
        self.stage == Stage::Contents ==> self.contents is Some
    }

    /// The job for a target at `path` whose parent directory is `parent`: it
    /// begins with the directories. Without a parent there is no job.
    pub open spec fn start(
        path: Seq<char>,
        parent: Option<Seq<char>>,
        contents: Option<Seq<u8>>,
    ) -> Result<JobView, FileErrorView> {
        match parent {
            Some(directory) => Ok(JobView { directory, path, contents, stage: Stage::Directories }),
            None => Err(FileErrorView::Path),
        }
    }

    /// The call that the job is waiting for.
    pub open spec fn request(self) -> RequestView
        recommends
            self.wf(),
    {
        match self.stage {
            Stage::Directories => RequestView::CreateDirectories { directory: self.directory },
            Stage::File => RequestView::CreateFile { path: self.path },
            Stage::Contents => RequestView::WriteContents {
                path: self.path,
                bytes: self.contents->Some_0,
            },
        }
    }

    /// The job at a later stage.
    pub open spec fn at(self, stage: Stage) -> JobView {
        JobView { stage, ..self }
    }

    /// What follows once the host has reported `outcome` for the call that the
    /// job was waiting for. A failure ends the operation with the stage and the
    /// cause. After a success the directories are followed by the file, the
    /// file by the bytes where the job has any, and nothing follows the bytes.
    pub open spec fn advance(self, outcome: Result<(), Seq<char>>) -> ProgressView {
        match outcome {
            Err(cause) => ProgressView::Failed(FileErrorView::Io { stage: self.stage, cause }),
            Ok(_) => match self.stage {
                Stage::Directories => ProgressView::Pending(self.at(Stage::File)),
                Stage::File => if self.contents is Some {
                    ProgressView::Pending(self.at(Stage::Contents))
                } else {
                    ProgressView::Done
                },
                Stage::Contents => ProgressView::Done,
            },
        }
    }
}

impl View for Job {
    type V = JobView;

    closed spec fn view(&self) -> JobView {
        JobView {
            directory: self.directory@,
            path: self.path@,
            contents: contents_view(self.contents),
            stage: self.stage,
        }
    }
}

impl Job {
    #[verifier::type_invariant]
    spec fn inv(self) -> bool {
        self.stage == Stage::Contents ==> self.contents is Some
    }

    /// Begins the job for the target at `path`, whose parent directory is
    /// `parent`, with the bytes of a sample or with none for a placeholder.
    /// Without a parent directory there is nothing to begin.
    pub fn start(path: String, parent: Option<String>, contents: Option<Vec<u8>>) -> (started:
        Result<Job, FileError>)
        ensures
            started_view(started) == JobView::start(
                path@,
                parent_view(parent),
                contents_view(contents),
            ),
    {
        match parent {
            Some(directory) => Ok(Job { directory, path, contents, stage: Stage::Directories }),
            None => Err(FileError::Path),
        }
    }

    /// The call that the job is waiting for.
    pub fn stage(&self) -> (stage: Stage)
        ensures
            stage == self@.stage,
            self@.wf(),
    {
        proof {
            use_type_invariant(self);
        }
        self.stage
    }

    /// The parent directory of the target.
    pub fn directory(&self) -> (directory: &str)
        ensures
            directory@ == self@.directory,
    {
        self.directory.as_str()
    }

    /// The full path of the target.
    pub fn path(&self) -> (path: &str)
        ensures
            path@ == self@.path,
    {
        self.path.as_str()
    }

    /// The call that the host is to make now.
    pub fn request(&self) -> (request: Request<'_>)
        ensures
            self@.wf(),
            request@ == self@.request(),
    {
        proof {
            use_type_invariant(self);
        }
        match self.stage {
            Stage::Directories => Request::CreateDirectories { directory: self.directory.as_str() },
            Stage::File => Request::CreateFile { path: self.path.as_str() },
            Stage::Contents => match &self.contents {
                Some(bytes) => Request::WriteContents {
                    path: self.path.as_str(),
                    bytes: bytes.as_slice(),
                },
                None => vstd::pervasive::unreached(),
            },
        }
    }

    /// Takes the outcome of the call that the job was waiting for, and decides
    /// what follows: the next call, the end of the operation, or its failure.
    pub fn advance(self, outcome: Result<(), String>) -> (next: Progress)
        ensures
            next@ == self@.advance(outcome_view(outcome)),
    {
        let Job { directory, path, contents, stage } = self;
        match outcome {
            Err(cause) => Progress::Failed(FileError::Io { stage, cause }),
            Ok(_) => match stage {
                Stage::Directories => Progress::Pending(
                    Job { directory, path, contents, stage: Stage::File },
                ),
                Stage::File => if contents.is_some() {
                    Progress::Pending(Job { directory, path, contents, stage: Stage::Contents })
                } else {
                    Progress::Done
                },
                Stage::Contents => Progress::Done,
            },
        }
    }
}

} // verus!
