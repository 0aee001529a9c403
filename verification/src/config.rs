//! Static configuration of a registry.

use vstd::prelude::*;

verus! {

/// The parameters a registry is instantiated with.
///
/// A registry, its proofs and its events are all tagged with the
/// configuration type, so a proof validated under one configuration cannot
/// reach a registry that runs under another.
pub trait Config {
    /// The largest number of bytes a proof may hold. Meant to be positive:
    /// with a bound of zero the empty proof is the only one that exists.
    const MAX_BYTES_IN_HASH: u32;
}

} // verus!
