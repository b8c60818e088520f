use vstd::prelude::*;

verus! {

/// Why locating a bucket failed.  Each variant carries the stage that
/// failed; the payload, where present, is the storage engine's own message.
#[derive(Debug, PartialEq, Eq)]
pub enum LocateError {
    /// The host could not resolve an application data directory.
    /// Not retryable from this layer.
    DirectoryUnavailable,
    /// The storage engine failed to open or create the store at the
    /// resolved path (permissions, corruption, disk full).
    StoreOpenFailed(String),
    /// The engine failed to open or create the named bucket inside an
    /// otherwise open store.
    BucketOpenFailed(String),
}

/// Why a remove-then-flush operation failed.  The payload is the storage
/// engine's own message.
#[derive(Debug, PartialEq, Eq)]
pub enum BucketOpError {
    /// The removal itself failed; nothing is said about durability.
    RemoveFailed(String),
    /// The removal went through but forcing it to durable storage failed.
    FlushFailed(String),
}

/// The three-way outcome of a read: the key was present with a value, the
/// key was absent, or the lookup itself failed (I/O or decoding).  Callers
/// decide whether absence is fatal; this layer never terminates on it.
#[derive(Debug, PartialEq, Eq)]
pub enum ReadOutcome {
    /// The key was present; the value stored under it.
    Found(String),
    /// The key was absent.  Distinct from a failed lookup.
    NotFound,
    /// The lookup failed; the storage engine's own message.
    Failed(String),
}

} // verus!
