//! Core logic of a small file-viewer backend: resolving the target file path
//! from the launch arguments, the working directory and an optional filename
//! suffix, and assembling the results of best-effort load and save operations.
//!
//! All file and process I/O lives outside this crate; these modules work on
//! plain strings handed in by the caller.

pub mod access;
pub mod diag;
pub mod resolve;
