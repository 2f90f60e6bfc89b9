//! Diagnostic lines: the human-readable reports emitted when a load or save
//! step fails, and the working-directory context line that accompanies an open
//! failure. They are informational only — no caller contract depends on them —
//! but each builder pins its text down exactly, so that a failed open is
//! guaranteed to report the path that was tried.

use vstd::prelude::*;

verus! {

/// The report for a failed open or create: it names the path that was tried
/// and carries the error's text.
pub open spec fn open_failure_text(path: Seq<char>, err: Seq<char>) -> Seq<char> {
    "Failed to open file '"@ + path + "': "@ + err
}

/// The context line printed beside an open failure: the working directory.
pub open spec fn current_dir_text(cwd: Seq<char>) -> Seq<char> {
    "Current directory: "@ + cwd
}

/// The report for a failed read.
pub open spec fn read_failure_text(err: Seq<char>) -> Seq<char> {
    "Failed to read file: "@ + err
}

/// The report for a failed write.
pub open spec fn write_failure_text(err: Seq<char>) -> Seq<char> {
    "Failed to write to the file: "@ + err
}

/// The report for a failed flush at the end of a save.
pub open spec fn flush_failure_text(err: Seq<char>) -> Seq<char> {
    "Failed to close the file: "@ + err
}

/// Builds the open-failure report, as `open_failure_text` says.
pub fn open_failure_message(path: &str, err: &str) -> (r: String)
    ensures
        r@ == open_failure_text(path@, err@),
{
    let mut r = String::from_str("Failed to open file '");
    r.append(path);
    r.append("': ");
    r.append(err);
    proof {
        assert(r@ =~= open_failure_text(path@, err@));
    }
    r
}

/// Builds the working-directory context line, as `current_dir_text` says.
pub fn current_dir_message(cwd: &str) -> (r: String)
    ensures
        r@ == current_dir_text(cwd@),
{
    let mut r = String::from_str("Current directory: ");
    r.append(cwd);
    r
}

/// Builds the read-failure report, as `read_failure_text` says.
pub fn read_failure_message(err: &str) -> (r: String)
    ensures
        r@ == read_failure_text(err@),
{
    let mut r = String::from_str("Failed to read file: ");
    r.append(err);
    r
}

/// Builds the write-failure report, as `write_failure_text` says.
pub fn write_failure_message(err: &str) -> (r: String)
    ensures
        r@ == write_failure_text(err@),
{
    let mut r = String::from_str("Failed to write to the file: ");
    r.append(err);
    r
}

/// Builds the flush-failure report, as `flush_failure_text` says.
pub fn flush_failure_message(err: &str) -> (r: String)
    ensures
        r@ == flush_failure_text(err@),
{
    let mut r = String::from_str("Failed to close the file: ");
    r.append(err);
    r
}

/// Whether one character sequence occurs inside another.
pub open spec fn contains_seq(hay: Seq<char>, needle: Seq<char>) -> bool {
    exists|i: int|
        0 <= i && i + needle.len() <= hay.len() && #[trigger] hay.subrange(i, i + needle.len())
            == needle
}

/// The open-failure report always mentions the path that was tried, whatever
/// the path and the error.
pub proof fn lemma_open_failure_mentions_path(path: Seq<char>, err: Seq<char>)
    ensures
        contains_seq(open_failure_text(path, err), path),
{
    reveal_strlit("Failed to open file '");
    let text = open_failure_text(path, err);
    let at = "Failed to open file '"@.len() as int;
    assert(text.subrange(at, at + path.len()) =~= path);
}

} // verus!
