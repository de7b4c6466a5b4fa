//! Errors of the networking layer.
use vstd::prelude::*;

verus! {

/// Errors that can occur with the networking library.
#[derive(Debug, Clone, Copy, PartialEq, Eq, Structural)]
#[non_exhaustive]
pub enum Error {
    /// The engine refused a request; the raw code it returned is carried unchanged.
    Unknown(i32),
}

/// Result type of the stream operations.
pub type Result<T> = core::result::Result<T, Error>;

} // verus!
