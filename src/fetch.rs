//! Fetching one file: whether a network request is needed at all, the byte
//! progress while the body streams to disk, and what a failure is reported
//! as. The caller performs the request, the reads and the writes.

use crate::integrity::{must_download, should_download, LocalFile};
use crate::job::FileData;
use vstd::prelude::*;

verus! {

/// Why a fetch failed: the source could not be reached, or the body could
/// not be read or stored.
#[derive(Debug, Clone, Copy, PartialEq, Eq, Structural)]
pub enum FetchError {
    Transport,
    Io,
}

/// The point at which a fetch went wrong.
#[derive(Debug, Clone, Copy, PartialEq, Eq, Structural)]
pub enum FetchFailure {
    /// The request could not be sent or answered (DNS, connection, TLS).
    Request,
    /// Reading a chunk of the body failed.
    ReadChunk,
    /// The destination file could not be created.
    CreateFile,
    /// Writing a chunk to disk failed.
    WriteChunk,
    /// Flushing the file failed.
    Flush,
}

/// The error that a failure is reported as: only an unreachable source is a
/// transport error; everything after the response is an I/O error.
pub fn classify(f: FetchFailure) -> (r: FetchError)
    ensures
        r == if f == FetchFailure::Request {
            FetchError::Transport
        } else {
            FetchError::Io
        },
{
    match f {
        FetchFailure::Request => FetchError::Transport,
        _ => FetchError::Io,
    }
}

/// The first step of a fetch.
#[derive(Debug)]
pub enum FetchStart {
    /// The local file is verified: no request is made, and the file's
    /// progress shows it complete.
    Skip,
    /// Send a GET to this URL.
    Get(String),
}

/// Decides whether `file` needs a request, given what its destination holds.
pub fn start_fetch(file: &FileData, local: &LocalFile) -> (r: FetchStart)
    ensures
        r is Skip <==> !must_download(file@.sha1, *local),
        r matches FetchStart::Get(u) ==> u@ == file.url@,
{
    if should_download(file, local) {
        FetchStart::Get(file.url.clone())
    } else {
        FetchStart::Skip
    }
}

/// The byte progress that a skipped file shows: complete.
pub fn skipped_progress() -> (r: (u64, u64))
    ensures
        r == (1u64, 1u64),
{
    (1, 1)
}

pub struct TransferView {
    /// The declared length of the body; 0 when it was not declared.
    pub total: u64,
    /// The bytes written so far.
    pub written: u64,
}

/// A body streaming to disk.
#[derive(Debug)]
pub struct Transfer {
    total: u64,
    written: u64,
}

impl View for Transfer {
    type V = TransferView;

    closed spec fn view(&self) -> TransferView {
        TransferView { total: self.total, written: self.written }
    }
}

pub open spec fn declared_total(content_length: Option<u64>) -> u64 {
    match content_length {
        Some(n) => n,
        None => 0,
    }
}

impl Transfer {
    /// The response headers are in: the total is the declared length, or 0
    /// when none was declared.
    pub fn begin(content_length: Option<u64>) -> (r: Self)
        ensures
            r@.total == declared_total(content_length),
            r@.written == 0,
    {
        let total = match content_length {
            Some(n) => n,
            None => 0,
        };
        Transfer { total, written: 0 }
    }

    /// `(bytes written, bytes total)`, as the file's progress shows it.
    pub fn progress(&self) -> (r: (u64, u64))
        ensures
            r == (self@.written, self@.total),
    {
        (self.written, self.total)
    }

    /// A chunk of `len` bytes was written to disk.
    pub fn on_chunk(&mut self, len: usize) -> (r: Result<(), FetchError>)
        ensures
            r is Ok <==> old(self)@.written + len <= u64::MAX,
            r is Ok ==> final(self)@ == (TransferView {
                written: (old(self)@.written + len) as u64,
                ..old(self)@
            }),
            r is Err ==> r == Err::<(), FetchError>(FetchError::Io) && final(self)@ == old(self)@,
    {
        let n = len as u64;
        if n > u64::MAX - self.written {
            return Err(FetchError::Io);
        }
        self.written = self.written + n;
        Ok(())
    }

    /// The body is drained: the fetch is complete when the declared length,
    /// if any, was written exactly.
    pub fn finish(&self) -> (r: Result<(), FetchError>)
        ensures
            r is Ok <==> self@.total == 0 || self@.written == self@.total,
            r is Err ==> r == Err::<(), FetchError>(FetchError::Io),
    {
        if self.total == 0 || self.written == self.total {
            Ok(())
        } else {
            Err(FetchError::Io)
        }
    }
}

} // verus!
