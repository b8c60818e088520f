//! A small, verified bucket-access layer over an on-disk key-value store.
//!
//! The layer resolves a storage location for a named namespace under an
//! application data directory, opens (creating if absent) a store and a
//! named bucket inside it, and offers synchronized read, set and
//! remove-then-flush operations over that bucket.

pub mod errors;
pub mod handle;
pub mod laws;
pub mod locate;
pub mod ops;
pub mod store;
