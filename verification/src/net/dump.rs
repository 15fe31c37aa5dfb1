//! Dumps of server state, to be consumed by the client.
use vstd::prelude::*;

verus! {

/// A semantic version number.
#[derive(Copy, Clone, Debug, PartialEq, Eq, Structural)]
pub struct Version {
    /// The major version.
    pub major: u64,
    /// The minor version.
    pub minor: u64,
    /// The patch version.
    pub patch: u64,
}

/// Dump of server metadata.
#[derive(Clone, Debug)]
pub struct Server {
    /// Server identifier.
    pub ident: String,
    /// Server protocol semantic version.
    pub version: Version,
}

} // verus!
