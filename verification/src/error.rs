//! Error kinds of this crate.

use vstd::prelude::*;

verus! {

/// A list of error kinds.
#[derive(Debug, Clone, Copy, PartialEq, Eq, Structural)]
#[non_exhaustive]
pub enum ErrorKind {
    /// Invalid input.
    Invalid,
    /// There was an error looking up the address of a logging server.
    ServerLookup,
    /// There was an error connecting to a logging server.
    ServerConnect,
    /// Unknown error.
    Other,
}

} // verus!
