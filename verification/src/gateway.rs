//! The three operations of the gateway.
//!
//! Each takes a base directory and a path relative to it. None of them touches
//! the filesystem: the two that create a file return a [`Job`] for the host to
//! run, and the third returns a [`Probe`] for the host to look up.

use crate::error::{FileError, FileErrorView, Stage};
use crate::job::{contents_view, started_view, Job, JobView, ProgressView, RequestView};
use crate::path::{is_sample_path, join, joined_path, names_sample, parent, parent_path};
use vstd::prelude::*;

verus! {

/// What writing `buffer` as a sample begins with. A relative path that does
/// not end in `.wav` is refused before any path is made; otherwise the job is
/// the one for the joined path, with `buffer` as its bytes.
pub open spec fn sample_job(base_dir: Seq<char>, relative_path: Seq<char>, buffer: Seq<u8>) -> Result<
    JobView,
    FileErrorView,
> {
    if is_sample_path(relative_path) {
        let path = joined_path(base_dir, relative_path);
        JobView::start(path, parent_path(path), Some(buffer))
    } else {
        Err(FileErrorView::Validation)
    }
}

/// What creating a placeholder begins with: the job for the joined path, with
/// no bytes. The relative path may have any form.
pub open spec fn placeholder_job(base_dir: Seq<char>, relative_path: Seq<char>) -> Result<
    JobView,
    FileErrorView,
> {
    let path = joined_path(base_dir, relative_path);
    JobView::start(path, parent_path(path), None)
}

/// A question to the filesystem: is there an entry, file or directory, at this
/// path? The answer is advisory: it may be stale as soon as it is given.
#[derive(Debug, PartialEq, Eq)]
pub struct Probe {
    path: String,
}

impl View for Probe {
    type V = Seq<char>;

    /// The path that is asked about.
    closed spec fn view(&self) -> Seq<char> {
        self.path@
    }
}

impl Probe {
    /// The question whether there is an entry at `path`.
    pub fn at(path: String) -> (probe: Probe)
        ensures
            probe@ == path@,
    {
        Probe { path }
    }

    /// The path that is asked about.
    pub fn path(&self) -> (path: &str)
        ensures
            path@ == self@,
    {
        self.path.as_str()
    }

    /// The result of the operation once the host has looked: what it found.
    /// Looking does not fail.
    pub fn answer(&self, found: bool) -> (result: Result<bool, FileError>)
        ensures
            result == Ok::<bool, FileError>(found),
    {
        Ok(found)
    }
}

/// Begins writing `buffer` to the sample at `relative_path` under `base_dir`.
///
/// Fails with `FileError::Validation` exactly if `relative_path` does not end
/// in `.wav`, and with `FileError::Path` exactly if it does and the joined path
/// has no parent directory. Otherwise the job asks for the parent directories
/// first, and carries the joined path and the bytes of `buffer` unchanged.
pub fn write_sample_file(base_dir: String, relative_path: String, buffer: Vec<u8>) -> (started:
    Result<Job, FileError>)
    ensures
        started_view(started) == sample_job(base_dir@, relative_path@, buffer@),
{
    if !names_sample(relative_path.as_str()) {
        return Err(FileError::Validation);
    }
    let path = join(base_dir.as_str(), relative_path.as_str());
    let directory = parent(path.as_str());
    Job::start(path, directory, Some(buffer))
}

/// Begins asking whether there is an entry at `relative_path` under
/// `base_dir`. This never fails: the probe is for the joined path.
pub fn file_exists(base_dir: String, relative_path: String) -> (probe: Probe)
    ensures
        probe@ == joined_path(base_dir@, relative_path@),
{
    Probe::at(join(base_dir.as_str(), relative_path.as_str()))
}

/// Begins creating an empty file at `relative_path` under `base_dir`.
///
/// Fails with `FileError::Path` exactly if the joined path has no parent
/// directory. Otherwise the job asks for the parent directories first, and
/// has no bytes to write.
pub fn create_placeholder_file(base_dir: String, relative_path: String) -> (started: Result<
    Job,
    FileError,
>)
    ensures
        started_view(started) == placeholder_job(base_dir@, relative_path@),
{
    let path = join(base_dir.as_str(), relative_path.as_str());
    let directory = parent(path.as_str());
    Job::start(path, directory, None)
}

} // verus!
