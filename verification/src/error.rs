//! The ways an operation on the identity artifacts can fail.

use vstd::prelude::*;

verus! {

/// Why an operation was given up.
#[derive(Debug, Clone, Copy, PartialEq, Eq, Structural)]
pub enum Error {
    /// The user's base directory could not be determined; no file was
    /// touched.
    NoBaseDirectory,
    /// The artifact exists but no copy of it could be taken: it could not be
    /// read, or the copy could not be written. The artifact is as it was.
    BackupFailed,
    /// The artifact's new content could not be written.
    WriteFailed,
    /// The artifact could not be removed. Its copy, if one was taken, stays.
    RemoveFailed,
}

} // verus!
