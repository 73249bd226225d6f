//! What holds of the gateway's operations, for every input.
//!
//! The gateway decides and its host acts, so these statements are about the
//! calls that the gateway asks for: which, in what order, on which paths and
//! with which bytes. What the filesystem then holds is the host's and the
//! platform's doing.

use crate::error::{stage_prefix, FileErrorView, Stage};
use crate::gateway::{placeholder_job, sample_job};
use crate::job::{JobView, ProgressView, RequestView};
use crate::path::{is_sample_path, joined_path, parent_path};
use vstd::prelude::*;

verus! {

/// A sample whose relative path does not end in `.wav` is refused as invalid,
/// whatever the base directory and the bytes: no job comes to be, so the host
/// is asked for nothing. No other request is refused as invalid.
pub proof fn lemma_sample_needs_suffix(
    base_dir: Seq<char>,
    relative_path: Seq<char>,
    buffer: Seq<u8>,
)
    ensures
        !is_sample_path(relative_path) <==> sample_job(base_dir, relative_path, buffer) == Err::<
            JobView,
            FileErrorView,
        >(FileErrorView::Validation),
{
}

/// A job begins exactly where the joined path has a parent directory; where it
/// has none, the operation fails with a path error. For a sample this holds of
/// the relative paths that end in `.wav`.
pub proof fn lemma_job_needs_parent(base_dir: Seq<char>, relative_path: Seq<char>, buffer: Seq<u8>)
    ensures
        placeholder_job(base_dir, relative_path) is Ok <==> parent_path(
            joined_path(base_dir, relative_path),
        ) is Some,
        placeholder_job(base_dir, relative_path) is Err ==> placeholder_job(
            base_dir,
            relative_path,
        ) == Err::<JobView, FileErrorView>(FileErrorView::Path),
        is_sample_path(relative_path) ==> (sample_job(base_dir, relative_path, buffer) is Ok
            <==> parent_path(joined_path(base_dir, relative_path)) is Some),
        is_sample_path(relative_path) && sample_job(base_dir, relative_path, buffer) is Err
            ==> sample_job(base_dir, relative_path, buffer) == Err::<JobView, FileErrorView>(
            FileErrorView::Path,
        ),
{
}

/// Writing a sample takes three calls, each made once the one before it has
/// succeeded: the parent directory of the joined path is created, then the
/// file at the joined path, then exactly the bytes of `buffer` are written to
/// that file. After the third success the operation is complete.
pub proof fn lemma_sample_takes_three_calls(
    base_dir: Seq<char>,
    relative_path: Seq<char>,
    buffer: Seq<u8>,
)
    requires
        sample_job(base_dir, relative_path, buffer) is Ok,
    ensures
        ({
            let path = joined_path(base_dir, relative_path);
            let first = sample_job(base_dir, relative_path, buffer)->Ok_0;
            &&& parent_path(path) matches Some(directory)
            &&& first.request() == RequestView::CreateDirectories { directory }
            &&& first.advance(Ok(())) matches ProgressView::Pending(second)
            &&& second.request() == RequestView::CreateFile { path }
            &&& second.advance(Ok(())) matches ProgressView::Pending(third)
            &&& third.request() == RequestView::WriteContents { path, bytes: buffer }
            &&& third.advance(Ok(())) == ProgressView::Done
        }),
{
}

/// Creating a placeholder takes two calls: the parent directory of the joined
/// path is created, then the file at the joined path. After the second success
/// the operation is complete: nothing is ever written to a placeholder.
pub proof fn lemma_placeholder_takes_two_calls(base_dir: Seq<char>, relative_path: Seq<char>)
    requires
        placeholder_job(base_dir, relative_path) is Ok,
    ensures
        ({
            let path = joined_path(base_dir, relative_path);
            let first = placeholder_job(base_dir, relative_path)->Ok_0;
            &&& parent_path(path) matches Some(directory)
            &&& first.request() == RequestView::CreateDirectories { directory }
            &&& first.advance(Ok(())) matches ProgressView::Pending(second)
            &&& second.request() == RequestView::CreateFile { path }
            &&& second.advance(Ok(())) == ProgressView::Done
        }),
{
}

/// Two writes to the same path differ in their bytes alone: each job has the
/// same parent directory and the same path, begins with the directories, and
/// carries its own buffer. The later job holds nothing of the earlier buffer.
pub proof fn lemma_same_target_for_any_buffer(
    base_dir: Seq<char>,
    relative_path: Seq<char>,
    first_buffer: Seq<u8>,
    second_buffer: Seq<u8>,
)
    requires
        sample_job(base_dir, relative_path, first_buffer) is Ok,
    ensures
        sample_job(base_dir, relative_path, second_buffer) matches Ok(second)
            && sample_job(base_dir, relative_path, first_buffer) matches Ok(first)
            && second.directory == first.directory && second.path == first.path
            && second.stage == Stage::Directories && second.contents == Some(second_buffer),
{
}

/// The three operations agree on the target: the path that `file_exists` asks
/// about, `joined_path(base_dir, relative_path)`, is the path at which a
/// sample is written and a placeholder is created for the same arguments.
pub proof fn lemma_operations_share_target(
    base_dir: Seq<char>,
    relative_path: Seq<char>,
    buffer: Seq<u8>,
)
    ensures
        sample_job(base_dir, relative_path, buffer) matches Ok(job) ==> job.path == joined_path(
            base_dir,
            relative_path,
        ),
        placeholder_job(base_dir, relative_path) matches Ok(job) ==> job.path == joined_path(
            base_dir,
            relative_path,
        ),
{
}

/// The first failure ends an operation, at whatever stage: the error names
/// the call that failed and carries the host's description unchanged, and no
/// further call is asked for.
pub proof fn lemma_first_failure_ends(job: JobView, cause: Seq<char>)
    ensures
        job.advance(Err(cause)) == ProgressView::Failed(
            FileErrorView::Io { stage: job.stage, cause },
        ),
        (FileErrorView::Io { stage: job.stage, cause }).message() == stage_prefix(job.stage)
            + cause,
{
}

/// The number of calls that a job can still ask for.
pub open spec fn calls_left(job: JobView) -> nat {
    match job.stage {
        Stage::Directories => 3,
        Stage::File => 2,
        Stage::Contents => 1,
    }
}

/// A job only moves forward. Whatever the host reports, a job that goes on
/// keeps its target and its bytes, stays well formed, and has fewer calls left
/// to ask for: no operation takes more than three.
pub proof fn lemma_job_moves_forward(job: JobView, outcome: Result<(), Seq<char>>)
    requires
        job.wf(),
    ensures
        job.advance(outcome) matches ProgressView::Pending(next) ==> {
            &&& outcome is Ok
            &&& next.wf()
            &&& next.directory == job.directory
            &&& next.path == job.path
            &&& next.contents == job.contents
            &&& calls_left(next) < calls_left(job)
        },
{
}

} // verus!
