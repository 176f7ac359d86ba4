//! The failure taxonomy of a link job.

use vstd::prelude::*;

verus! {

/// Why a link job failed.
#[derive(Debug)]
pub enum LinkError {
    /// An object or output path could not be resolved to a canonical
    /// absolute form (missing or inaccessible).
    PathResolutionFailure { message: String },
    /// The linker executable could not be launched at all.
    ProcessSpawnFailure { message: String },
    /// The linker ran and exited with a non-zero status; its exit code and
    /// captured output streams are kept for the caller to inspect.
    LinkFailure { code: Option<i32>, stdout: Vec<u8>, stderr: Vec<u8> },
}

/// The result of a fallible link operation.
pub type LinkResult<T> = Result<T, LinkError>;

} // verus!
