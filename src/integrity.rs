//! The decision to skip a file that is already present and verified, or to
//! download it.

use crate::job::FileData;
use crate::text::{parent_dir, parent_of};
use vstd::prelude::*;

verus! {

/// What the disk holds at a job's destination, as far as the decision needs
/// it.
#[derive(Debug)]
pub enum LocalFile {
    /// Nothing is at the destination.
    Missing,
    /// A file is there, with no content hash to show: none was asked for, or
    /// reading it failed.
    Unhashed,
    /// A file is there and its content hash is this.
    Hashed(String),
}

/// Whether a job must be downloaded: always, unless a file is present whose
/// content hash equals, case-sensitively, the hash that the job expects.
pub open spec fn must_download(expected: Option<Seq<char>>, local: LocalFile) -> bool {
    match (expected, local) {
        (Some(e), LocalFile::Hashed(h)) => e != h@,
        _ => true,
    }
}

/// What to do at the destination before deciding.
#[derive(Debug)]
pub enum IntegrityStep {
    /// The file is missing: create this directory chain (an existing one is
    /// no error) and download.
    CreateParent(String),
    /// The file is present and a hash is expected: compute the content hash
    /// of the file and decide with `verify_file`.
    ComputeHash,
    /// The file is present but nothing can verify it: download it again.
    Refresh,
}

/// The first step of the check of `file`, given whether its destination
/// exists.
pub fn integrity_step(file: &FileData, exists: bool) -> (r: IntegrityStep)
    ensures
        !exists <==> r is CreateParent,
        r matches IntegrityStep::CreateParent(d) ==> d@ == parent_of(file.path@),
        exists && file.sha1 is Some <==> r is ComputeHash,
        exists && file.sha1 is None <==> r is Refresh,
{
    if !exists {
        IntegrityStep::CreateParent(parent_dir(file.path.as_str()))
    } else if file.sha1.is_some() {
        IntegrityStep::ComputeHash
    } else {
        IntegrityStep::Refresh
    }
}

/// Whether the file at the destination can be kept as it is: a hash is
/// expected and the local content has exactly that hash.
pub fn verify_file(file: &FileData, local: &LocalFile) -> (r: bool)
    ensures
        r == !must_download(file@.sha1, *local),
{
    match (&file.sha1, local) {
        (Some(e), LocalFile::Hashed(h)) => *e == *h,
        _ => false,
    }
}

/// Whether `file` must be downloaded, given what its destination holds.
pub fn should_download(file: &FileData, local: &LocalFile) -> (r: bool)
    ensures
        r == must_download(file@.sha1, *local),
        *local is Missing ==> r,
        *local is Unhashed ==> r,
        file.sha1 is None ==> r,
        (file.sha1 matches Some(e) && *local matches LocalFile::Hashed(h) && e@ == h@) ==> !r,
        (file.sha1 matches Some(e) && *local matches LocalFile::Hashed(h) && e@ != h@) ==> r,
{
    !verify_file(file, local)
}

/// The destination of `job` holds content with the hash that the job
/// expects.
pub open spec fn holds_expected(job: FileData, local: LocalFile) -> bool {
    match (job.sha1, local) {
        (Some(e), LocalFile::Hashed(h)) => h@ == e@,
        _ => false,
    }
}

/// Running a batch again over an untouched tree fetches nothing: when every
/// job expects a hash and its destination already holds content with that
/// hash, no job of the batch must be downloaded.
pub proof fn lemma_rerun_fetches_nothing(jobs: Seq<FileData>, local: Seq<LocalFile>)
    requires
        jobs.len() == local.len(),
        forall|i: int| 0 <= i < jobs.len() ==> holds_expected(#[trigger] jobs[i], local[i]),
    ensures
        forall|i: int| 0 <= i < jobs.len() ==> !must_download(#[trigger] jobs[i]@.sha1, local[i]),
{
}

} // verus!
