//! One unit of work: a file to materialise locally from a remote source.

use vstd::prelude::*;

verus! {

/// What a job is made of: destination path, source URL and, optionally, the
/// content hash that the file should have.
pub struct FileDataView {
    pub path: Seq<char>,
    pub url: Seq<char>,
    pub sha1: Option<Seq<char>>,
}

/// A file to download; its identity is the destination path.
#[derive(Debug)]
pub struct FileData {
    pub path: String,
    pub url: String,
    pub sha1: Option<String>,
}

pub open spec fn opt_view(o: Option<String>) -> Option<Seq<char>> {
    match o {
        Some(s) => Some(s@),
        None => None,
    }
}

impl View for FileData {
    type V = FileDataView;

    open spec fn view(&self) -> FileDataView {
        FileDataView { path: self.path@, url: self.url@, sha1: opt_view(self.sha1) }
    }
}

/// A copy of an optional string.
pub fn copy_opt(o: &Option<String>) -> (r: Option<String>)
    ensures
        r == *o,
{
    match o {
        Some(s) => Some(s.clone()),
        None => None,
    }
}

impl Clone for FileData {
    fn clone(&self) -> (r: Self)
        ensures
            r == *self,
    {
        FileData { path: self.path.clone(), url: self.url.clone(), sha1: copy_opt(&self.sha1) }
    }
}

impl FileData {
    pub fn new(path: String, url: String, sha1: Option<String>) -> (r: Self)
        ensures
            r.path == path,
            r.url == url,
            r.sha1 == sha1,
    {
        FileData { path, url, sha1 }
    }
}

} // verus!
