//! Load and save outcomes: the value pair returned to the caller after a read,
//! the empty sentinel returned on any failure, and the diagnostic lines that
//! report a failed step.
//!
//! The file I/O itself (open, read, create, write, flush) happens outside this
//! crate; the caller hands in the outcome of each step as a plain value and
//! these functions assemble what the operation returns and reports. No failure
//! ever raises: a failed load presents as the empty sentinel, a failed save
//! only as diagnostics.

use vstd::prelude::*;

verus! {

/// The value pair a load hands back: the resolved path and the file's text.
/// On any failure both fields are empty — a sentinel, not an error type.
pub struct OpenedFile {
    pub fullpath: String,
    pub contents: String,
}

/// What a load returns, as a pair of path and contents: the resolved path with
/// the text that was read when the read succeeded, the empty sentinel when it
/// failed.
pub open spec fn load_result(path: Seq<char>, read: Option<Seq<char>>) -> (Seq<char>, Seq<char>) {
    match read {
        Option::Some(text) => (path, text),
        Option::None => (Seq::<char>::empty(), Seq::<char>::empty()),
    }
}

impl OpenedFile {
    /// Whether this value is the empty sentinel: both fields empty.
    pub open spec fn is_empty_sentinel(self) -> bool {
        self.fullpath@ == Seq::<char>::empty() && self.contents@ == Seq::<char>::empty()
    }

    /// The empty sentinel returned on any load failure.
    pub fn empty() -> (r: OpenedFile)
        ensures
            r.is_empty_sentinel(),
    {
        OpenedFile { fullpath: String::new(), contents: String::new() }
    }
}

/// Assembles what a load returns from the resolved path and the outcome of the
/// read: the path with the text on success, the empty sentinel on failure, as
/// `load_result` says.
pub fn finish_load(fullpath: String, read: Option<String>) -> (r: OpenedFile)
    ensures
        (r.fullpath@, r.contents@) == load_result(fullpath@, read.deep_view()),
{
    match read {
        Option::Some(contents) => OpenedFile { fullpath, contents },
        Option::None => OpenedFile::empty(),
    }
}

/// A load that reads back exactly the text that was saved yields the resolved
/// path and that text, unchanged.
pub proof fn lemma_load_round_trip(path: Seq<char>, saved: Seq<char>)
    ensures
        load_result(path, Option::Some(saved)) == (path, saved),
{
}

/// A load whose read failed yields the empty sentinel, whatever path was tried.
pub proof fn lemma_failed_load_is_sentinel(path: Seq<char>)
    ensures
        load_result(path, Option::None) == (Seq::<char>::empty(), Seq::<char>::empty()),
{
}

} // verus!
