//! The closed set of failure kinds raised by the store.

use vstd::prelude::*;

verus! {

/// Classification of every failure the store can raise.
///
/// Strict (`try_*`) operations surface one of these kinds; convenience
/// operations fold every kind into an absence value instead.
#[derive(Clone, Copy, Debug, PartialEq, Eq, Structural)]
pub enum DictError {
    /// A filesystem or device operation failed.
    IOError,
    /// The storage engine reported an internal failure not reducible to I/O.
    EngineError,
    /// Encoding or decoding a value failed.
    CodecError,
    /// A strict lookup found no entry for the given key.
    KeyNotFound,
}

/// Result alias used by the strict operations.
pub type DictResult<T> = Result<T, DictError>;

impl DictError {
    /// A human-readable description of the failure kind.
    pub fn message(&self) -> (out: &'static str)
        ensures
            match self {
                DictError::IOError => out@ == "IO error"@,
                DictError::EngineError => out@ == "storage engine error"@,
                DictError::CodecError => out@ == "codec error"@,
                DictError::KeyNotFound => out@ == "key not found"@,
            },
    {
        match self {
            DictError::IOError => "IO error",
            DictError::EngineError => "storage engine error",
            DictError::CodecError => "codec error",
            DictError::KeyNotFound => "key not found",
        }
    }
}

} // verus!
