//! The error taxonomy of the store: contention is a tagged outcome of its
//! own and is never surfaced to callers of the update loops; everything
//! else is fatal at the point it occurs.

use vstd::prelude::*;

verus! {

/// Why a store operation failed, as surfaced to callers.
#[derive(Clone, Copy, Debug, PartialEq, Eq, Structural)]
pub enum StoreError {
    /// The path given at construction has no final segment (a filesystem
    /// root, an empty path, or a path ending in the parent directory).
    InvalidPath,
    /// Stored bytes did not decode as a structured value, or a value could
    /// not be encoded; never retried, since it is not contention.
    Decode,
    /// The latest version is the largest representable integer, so no
    /// successor version can be published.
    VersionLimit,
    /// A write made no progress and the remaining bytes could not be
    /// delivered.
    WriteZero,
    /// The operating system reported an error, carried as its errno value.
    Io(i32),
    /// Contention kept winning for longer than the update loop's retry
    /// budget. The budget exceeds any feasible number of retries by many
    /// orders of magnitude, so this is out of reach in practice; it exists
    /// so that every loop in the library provably makes progress toward an
    /// answer.
    Contended,
}

/// The errno value used when stored content is too large to hold: value
/// too large for the defined data type.
pub const EOVERFLOW_ERRNO: i32 = 75;

/// The outcome of one filesystem call, as the trusted layer reports it.
#[derive(Clone, Copy, Debug, PartialEq, Eq, Structural)]
pub enum FsError {
    /// The target name already existed.
    AlreadyExists,
    /// Any other OS error, carried as its errno value.
    Os(i32),
}

/// The outcome of a `compare_and_swap` that did not succeed.
#[derive(Clone, Copy, Debug, PartialEq, Eq, Structural)]
pub enum CasError {
    /// The snapshot was stale: the targeted version number was already
    /// claimed by another publisher. The update loops retry on this; it is
    /// never surfaced to their callers.
    Conflict,
    /// A real failure, surfaced unchanged and never retried.
    Failure(StoreError),
}

impl StoreError {
    /// A short description, for callers that report errors as text.
    pub fn describe(&self) -> (r: &'static str)
    {
        match self {
            StoreError::InvalidPath => "path has no final segment",
            StoreError::Decode => "stored content did not decode",
            StoreError::VersionLimit => "version space exhausted",
            StoreError::WriteZero => "write made no progress",
            StoreError::Io(_) => "operating system error",
            StoreError::Contended => "retry budget exhausted by contention",
        }
    }
}

} // verus!
