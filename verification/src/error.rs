//! The error taxonomy of the store.

use vstd::prelude::*;

verus! {

/// Why a store operation failed.
#[derive(Debug, Clone, Copy, PartialEq, Eq, Structural)]
pub enum Error {
    /// The OS user-configuration root could not be discovered. Fatal to the
    /// `Auto` and `File` location strategies, which depend on it.
    DirectoryUnavailable,
    /// No file exists at the resolved path (nothing was saved there).
    FileNotFound,
    /// A filesystem operation failed: permissions, disk full, and the like.
    IoFailure,
    /// The codec rejected the record.
    EncodingFailure,
    /// The stored bytes are malformed, or their shape does not match the
    /// record's.
    DecodingFailure,
}

} // verus!
