//! The ways a request can be refused.

use vstd::prelude::*;

verus! {

/// Why the registry refused a request. A refused request changes nothing.
#[derive(Debug, Clone, Copy, PartialEq, Eq, Structural)]
pub enum Error {
    /// The proof already has an owner; it must be revoked before it can be
    /// claimed again.
    ProofAlreadyClaimed,
    /// The proof has no record: it was never claimed, or has been revoked.
    NoSuchProof,
    /// The caller is not the current owner of the proof.
    NotProofOwner,
}

} // verus!
