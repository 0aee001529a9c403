//! The registry as a mathematical object.
//!
//! A registry is a map from proof bytes to records. Each request is a total
//! function from a registry to a [`Transition`]: the registry that results
//! and what the caller is told. The executable code is specified against
//! these functions, and the theorems in [`crate::laws`] are stated over them.

use vstd::prelude::*;
use crate::error::Error;
use crate::record::{BlockNumber, ProofRecordView};

verus! {

/// The abstract state: which proofs are claimed, by whom, and since when.
pub type Registry = Map<Seq<u8>, ProofRecordView>;

/// The notification that a successful request gives rise to.
pub ghost enum EventView {
    /// `who` claimed `proof`.
    ClaimCreated { who: Seq<u8>, proof: Seq<u8> },
    /// `who` gave up the claim on `proof`.
    ClaimRevoked { who: Seq<u8>, proof: Seq<u8> },
    /// `from` handed the claim on `proof` to `to`.
    ClaimTransfered { from: Seq<u8>, to: Seq<u8>, proof: Seq<u8> },
}

/// The effect of one request.
pub ghost struct Transition {
    /// The registry after the request.
    pub registry: Registry,
    /// The event emitted, or the reason the request was refused.
    pub outcome: Result<EventView, Error>,
}

/// A request as the host delivers it: already authenticated, and stamped
/// with the logical time where the registry needs one.
pub ghost enum Call {
    CreateClaim { sender: Seq<u8>, now: BlockNumber, proof: Seq<u8> },
    TransferClaim { sender: Seq<u8>, new_owner: Seq<u8>, proof: Seq<u8> },
    RevokeClaim { sender: Seq<u8>, proof: Seq<u8> },
}

/// Whether every claimed proof is short enough for a bound of `max` bytes.
pub open spec fn within_bound(registry: Registry, max: nat) -> bool {
    forall|proof: Seq<u8>| #[trigger] registry.contains_key(proof) ==> proof.len() <= max
}

/// The checks that guard a change to an existing claim, in order: the proof
/// must have a record, and `sender` must be the owner named in it.
pub open spec fn check_owner(registry: Registry, sender: Seq<u8>, proof: Seq<u8>) -> Result<
    (),
    Error,
> {
    if !registry.contains_key(proof) {
        Err(Error::NoSuchProof)
    } else if registry[proof].owner != sender {
        Err(Error::NotProofOwner)
    } else {
        Ok(())
    }
}

/// A request that was refused: nothing changes.
pub open spec fn refused(registry: Registry, error: Error) -> Transition {
    Transition { registry, outcome: Err(error) }
}

/// `sender` claims `proof` at time `now`.
pub open spec fn create_claim(
    registry: Registry,
    sender: Seq<u8>,
    now: BlockNumber,
    proof: Seq<u8>,
) -> Transition {
    if registry.contains_key(proof) {
        refused(registry, Error::ProofAlreadyClaimed)
    } else {
        Transition {
            registry: registry.insert(proof, ProofRecordView { owner: sender, created_at: now }),
            outcome: Ok(EventView::ClaimCreated { who: sender, proof }),
        }
    }
}

/// `sender` hands the claim on `proof` to `new_owner`. The time of creation
/// stays as it was.
pub open spec fn transfer_claim(
    registry: Registry,
    sender: Seq<u8>,
    new_owner: Seq<u8>,
    proof: Seq<u8>,
) -> Transition {
    match check_owner(registry, sender, proof) {
        Err(error) => refused(registry, error),
        Ok(()) => Transition {
            registry: registry.insert(
                proof,
                ProofRecordView { owner: new_owner, created_at: registry[proof].created_at },
            ),
            outcome: Ok(EventView::ClaimTransfered { from: sender, to: new_owner, proof }),
        },
    }
}

/// `sender` gives up the claim on `proof`.
pub open spec fn revoke_claim(registry: Registry, sender: Seq<u8>, proof: Seq<u8>) -> Transition {
    match check_owner(registry, sender, proof) {
        Err(error) => refused(registry, error),
        Ok(()) => Transition {
            registry: registry.remove(proof),
            outcome: Ok(EventView::ClaimRevoked { who: sender, proof }),
        },
    }
}

impl Call {
    /// The identity the request comes from.
    pub open spec fn sender(self) -> Seq<u8> {
        match self {
            Call::CreateClaim { sender, .. } => sender,
            Call::TransferClaim { sender, .. } => sender,
            Call::RevokeClaim { sender, .. } => sender,
        }
    }

    /// The proof the request is about.
    pub open spec fn subject(self) -> Seq<u8> {
        match self {
            Call::CreateClaim { proof, .. } => proof,
            Call::TransferClaim { proof, .. } => proof,
            Call::RevokeClaim { proof, .. } => proof,
        }
    }
}

/// The effect of `call` on `registry`.
pub open spec fn apply(registry: Registry, call: Call) -> Transition {
    match call {
        Call::CreateClaim { sender, now, proof } => create_claim(registry, sender, now, proof),
        Call::TransferClaim { sender, new_owner, proof } => transfer_claim(
            registry,
            sender,
            new_owner,
            proof,
        ),
        Call::RevokeClaim { sender, proof } => revoke_claim(registry, sender, proof),
    }
}

/// The registry after `calls` have been applied to `registry` one by one,
/// first to last.
pub open spec fn run(registry: Registry, calls: Seq<Call>) -> Registry
    decreases calls.len(),
{
    if calls.len() == 0 {
        registry
    } else {
        apply(run(registry, calls.drop_last()), calls.last()).registry
    }
}

} // verus!
