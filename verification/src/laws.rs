//! Theorems about the registry's transitions.
//!
//! Each is stated over the functions of [`crate::model`], which are the very
//! functions the executable requests are specified by, so each holds of the
//! running code as well.

use vstd::prelude::*;
use crate::error::Error;
use crate::model::{
    apply, create_claim, refused, revoke_claim, run, transfer_claim, within_bound, Call,
    EventView, Registry,
};
use crate::record::{BlockNumber, ProofRecordView};

verus! {

/// A request about one proof leaves every other proof as it was: claimed or
/// not, and with the same record.
pub proof fn lemma_other_proofs_untouched(registry: Registry, call: Call, proof: Seq<u8>)
    requires
        call.subject() != proof,
    ensures
        apply(registry, call).registry.contains_key(proof) == registry.contains_key(proof),
        registry.contains_key(proof) ==> apply(registry, call).registry[proof] == registry[proof],
{
}

/// A proof that no request has ever named is not claimed: starting from the
/// empty registry, whatever requests are made about other proofs, and
/// whether they succeed or not, this one has no record.
pub proof fn lemma_unsubmitted_proof_is_unclaimed(calls: Seq<Call>, proof: Seq<u8>)
    requires
        forall|i: int| 0 <= i < calls.len() ==> (#[trigger] calls[i]).subject() != proof,
    ensures
        !run(Registry::empty(), calls).contains_key(proof),
    decreases calls.len(),
{
    if calls.len() > 0 {
        lemma_unsubmitted_proof_is_unclaimed(calls.drop_last(), proof);
        lemma_other_proofs_untouched(
            run(Registry::empty(), calls.drop_last()),
            calls.last(),
            proof,
        );
    }
}

/// A refused request changes nothing.
pub proof fn lemma_refusal_changes_nothing(registry: Registry, call: Call)
    requires
        apply(registry, call).outcome is Err,
    ensures
        apply(registry, call).registry == registry,
{
}

/// Claiming an unclaimed proof always succeeds. Afterwards the proof is
/// recorded with the sender as owner and the time of the request as time of
/// creation, and nothing else has changed.
pub proof fn lemma_create_on_unclaimed(
    registry: Registry,
    sender: Seq<u8>,
    now: BlockNumber,
    proof: Seq<u8>,
)
    requires
        !registry.contains_key(proof),
    ensures
        create_claim(registry, sender, now, proof).outcome == Ok::<EventView, Error>(
            EventView::ClaimCreated { who: sender, proof },
        ),
        create_claim(registry, sender, now, proof).registry.contains_key(proof),
        create_claim(registry, sender, now, proof).registry[proof] == (ProofRecordView {
            owner: sender,
            created_at: now,
        }),
        create_claim(registry, sender, now, proof).registry.remove(proof) == registry,
{
    assert(create_claim(registry, sender, now, proof).registry.remove(proof) =~= registry);
}

/// Claiming a proof that is already claimed always fails with
/// `ProofAlreadyClaimed`, whoever asks, and the existing record stays as it
/// is.
pub proof fn lemma_create_on_claimed(
    registry: Registry,
    sender: Seq<u8>,
    now: BlockNumber,
    proof: Seq<u8>,
)
    requires
        registry.contains_key(proof),
    ensures
        create_claim(registry, sender, now, proof) == refused(registry, Error::ProofAlreadyClaimed),
        create_claim(registry, sender, now, proof).registry[proof] == registry[proof],
{
}

/// Two transfers in a row, the second by the one who received the first,
/// both succeed. The claim ends with the last receiver, and its time of
/// creation is the same before, between and after.
pub proof fn lemma_transfer_twice(
    registry: Registry,
    owner: Seq<u8>,
    new_owner: Seq<u8>,
    last_owner: Seq<u8>,
    proof: Seq<u8>,
)
    requires
        registry.contains_key(proof),
        registry[proof].owner == owner,
    ensures
        ({
            let first = transfer_claim(registry, owner, new_owner, proof);
            let second = transfer_claim(first.registry, new_owner, last_owner, proof);
            &&& first.outcome == Ok::<EventView, Error>(
                EventView::ClaimTransfered { from: owner, to: new_owner, proof },
            )
            &&& first.registry.contains_key(proof)
            &&& first.registry[proof] == (ProofRecordView {
                owner: new_owner,
                created_at: registry[proof].created_at,
            })
            &&& second.outcome == Ok::<EventView, Error>(
                EventView::ClaimTransfered { from: new_owner, to: last_owner, proof },
            )
            &&& second.registry.contains_key(proof)
            &&& second.registry[proof] == (ProofRecordView {
                owner: last_owner,
                created_at: registry[proof].created_at,
            })
        }),
{
}

/// A transfer to oneself succeeds and leaves the registry as it was.
pub proof fn lemma_transfer_to_self(registry: Registry, owner: Seq<u8>, proof: Seq<u8>)
    requires
        registry.contains_key(proof),
        registry[proof].owner == owner,
    ensures
        transfer_claim(registry, owner, owner, proof).outcome == Ok::<EventView, Error>(
            EventView::ClaimTransfered { from: owner, to: owner, proof },
        ),
        transfer_claim(registry, owner, owner, proof).registry == registry,
{
    assert(transfer_claim(registry, owner, owner, proof).registry =~= registry);
}

/// A transfer asked for by anyone but the owner always fails with
/// `NotProofOwner` and leaves the registry as it was; asking again gives the
/// same answer.
pub proof fn lemma_transfer_by_stranger(
    registry: Registry,
    sender: Seq<u8>,
    new_owner: Seq<u8>,
    proof: Seq<u8>,
)
    requires
        registry.contains_key(proof),
        registry[proof].owner != sender,
    ensures
        transfer_claim(registry, sender, new_owner, proof) == refused(
            registry,
            Error::NotProofOwner,
        ),
        transfer_claim(
            transfer_claim(registry, sender, new_owner, proof).registry,
            sender,
            new_owner,
            proof,
        ) == transfer_claim(registry, sender, new_owner, proof),
{
}

/// A revocation asked for by anyone but the owner always fails with
/// `NotProofOwner` and leaves the registry as it was.
pub proof fn lemma_revoke_by_stranger(registry: Registry, sender: Seq<u8>, proof: Seq<u8>)
    requires
        registry.contains_key(proof),
        registry[proof].owner != sender,
    ensures
        revoke_claim(registry, sender, proof) == refused(registry, Error::NotProofOwner),
{
}

/// The owner's revocation removes the record and nothing else. Whoever then
/// claims the proof succeeds, and the new record carries the new claimant
/// and the time of the new claim, not those of the old one.
pub proof fn lemma_revoke_then_create(
    registry: Registry,
    owner: Seq<u8>,
    proof: Seq<u8>,
    claimant: Seq<u8>,
    later: BlockNumber,
)
    requires
        registry.contains_key(proof),
        registry[proof].owner == owner,
    ensures
        ({
            let revoked = revoke_claim(registry, owner, proof);
            let claimed = create_claim(revoked.registry, claimant, later, proof);
            &&& revoked.outcome == Ok::<EventView, Error>(
                EventView::ClaimRevoked { who: owner, proof },
            )
            &&& revoked.registry == registry.remove(proof)
            &&& !revoked.registry.contains_key(proof)
            &&& claimed.outcome == Ok::<EventView, Error>(
                EventView::ClaimCreated { who: claimant, proof },
            )
            &&& claimed.registry.contains_key(proof)
            &&& claimed.registry[proof] == (ProofRecordView { owner: claimant, created_at: later })
        }),
{
}

/// A transfer or a revocation of a proof that has no record always fails
/// with `NoSuchProof`, whoever asks.
pub proof fn lemma_change_of_unclaimed(
    registry: Registry,
    sender: Seq<u8>,
    new_owner: Seq<u8>,
    proof: Seq<u8>,
)
    requires
        !registry.contains_key(proof),
    ensures
        transfer_claim(registry, sender, new_owner, proof) == refused(registry, Error::NoSuchProof),
        revoke_claim(registry, sender, proof) == refused(registry, Error::NoSuchProof),
{
}

/// Once its owner has revoked a proof, a transfer or a second revocation of
/// it fails with `NoSuchProof`, even when the former owner asks.
pub proof fn lemma_change_of_revoked(
    registry: Registry,
    owner: Seq<u8>,
    sender: Seq<u8>,
    new_owner: Seq<u8>,
    proof: Seq<u8>,
)
    requires
        registry.contains_key(proof),
        registry[proof].owner == owner,
    ensures
        ({
            let revoked = revoke_claim(registry, owner, proof).registry;
            &&& transfer_claim(revoked, sender, new_owner, proof) == refused(
                revoked,
                Error::NoSuchProof,
            )
            &&& revoke_claim(revoked, sender, proof) == refused(revoked, Error::NoSuchProof)
        }),
{
}

/// Claiming a proof, transferring it to oneself, revoking it and claiming it
/// again all succeed, and end in the registry that the last claim alone
/// would have produced.
pub proof fn lemma_round_trip(
    registry: Registry,
    sender: Seq<u8>,
    now: BlockNumber,
    proof: Seq<u8>,
    claimant: Seq<u8>,
    later: BlockNumber,
)
    requires
        !registry.contains_key(proof),
    ensures
        ({
            let claimed = create_claim(registry, sender, now, proof);
            let kept = transfer_claim(claimed.registry, sender, sender, proof);
            let revoked = revoke_claim(kept.registry, sender, proof);
            let reclaimed = create_claim(revoked.registry, claimant, later, proof);
            &&& claimed.outcome is Ok
            &&& kept.outcome is Ok
            &&& revoked.outcome is Ok
            &&& revoked.registry == registry
            &&& reclaimed == create_claim(registry, claimant, later, proof)
        }),
{
    let claimed = create_claim(registry, sender, now, proof);
    let kept = transfer_claim(claimed.registry, sender, sender, proof);
    let revoked = revoke_claim(kept.registry, sender, proof);
    assert(revoked.registry =~= registry);
}

/// No single request changes the time of creation of a claim: a proof that
/// is claimed before and after a request has the same time of creation
/// before and after.
pub proof fn lemma_creation_time_is_fixed(registry: Registry, call: Call, proof: Seq<u8>)
    requires
        registry.contains_key(proof),
        apply(registry, call).registry.contains_key(proof),
    ensures
        apply(registry, call).registry[proof].created_at == registry[proof].created_at,
{
}

/// Only the owner changes a claim: if a request removes the record of a
/// claimed proof or alters it, the request is about that proof and comes
/// from the owner named in the record.
pub proof fn lemma_only_owner_changes_claim(registry: Registry, call: Call, proof: Seq<u8>)
    requires
        registry.contains_key(proof),
        !apply(registry, call).registry.contains_key(proof) || apply(registry, call).registry[proof]
            != registry[proof],
    ensures
        call.subject() == proof,
        call.sender() == registry[proof].owner,
        apply(registry, call).outcome is Ok,
{
}

/// A request about a proof within the bound keeps the registry within the
/// bound.
pub proof fn lemma_bound_is_kept(registry: Registry, call: Call, max: nat)
    requires
        within_bound(registry, max),
        call.subject().len() <= max,
    ensures
        within_bound(apply(registry, call).registry, max),
{
}

} // verus!
