//! The claim service: the three requests the registry answers.

use vstd::prelude::*;
use crate::account::AccountId;
use crate::config::Config;
use crate::error::Error;
use crate::event::{outcome_view, Event};
use crate::model;
use crate::model::{within_bound, Registry};
use crate::record::{BlockNumber, Proof, ProofRecord};
use crate::store::ProofStore;

verus! {

/// A claim registry under configuration `T`.
///
/// Every request names its sender, whom the host has authenticated before
/// the request gets here, and is answered in full before the next one is
/// looked at. A request either takes effect and yields the event to publish,
/// or is refused with an [`Error`] and leaves the registry as it was.
///
/// The view of a registry is the [`Registry`] map of its store, and each
/// request is specified by the transition of the same name in [`model`].
pub struct Pallet<T: Config> {
    proofs: ProofStore<T>,
}

impl<T: Config> View for Pallet<T> {
    type V = Registry;

    closed spec fn view(&self) -> Registry {
        self.proofs@
    }
}

impl<T: Config> Pallet<T> {
    /// A registry in which nothing is claimed.
    pub fn new() -> (pallet: Pallet<T>)
        ensures
            pallet@ == Registry::empty(),
    {
        Pallet { proofs: ProofStore::new() }
    }

    /// A registry that continues from the claims held in `proofs`.
    pub fn with_store(proofs: ProofStore<T>) -> (pallet: Pallet<T>)
        ensures
            pallet@ == proofs@,
    {
        Pallet { proofs }
    }

    /// The store behind this registry.
    pub fn proofs(&self) -> (proofs: &ProofStore<T>)
        ensures
            proofs@ == self@,
    {
        &self.proofs
    }

    /// Checks that `sender` may change the claim on `proof`: the proof must
    /// be claimed, and `sender` must be its owner. A missing record is
    /// reported before a wrong owner.
    pub fn ensure_owner(&self, sender: &AccountId, proof: &Proof<T>) -> (outcome: Result<(), Error>)
        ensures
            outcome == model::check_owner(self@, sender@, proof@),
            within_bound(self@, T::MAX_BYTES_IN_HASH as nat),
    {
        match self.proofs.get(proof) {
            None => Err(Error::NoSuchProof),
            Some(record) => {
                if record.owner == *sender {
                    Ok(())
                } else {
                    Err(Error::NotProofOwner)
                }
            },
        }
    }

    /// Claims `proof` for `sender` at logical time `now`.
    ///
    /// Refused with [`Error::ProofAlreadyClaimed`] if the proof has a record,
    /// whoever owns it.
    pub fn create_claim(
        &mut self,
        sender: AccountId,
        now: BlockNumber,
        proof: Proof<T>,
    ) -> (outcome: Result<Event<T>, Error>)
        ensures
            final(self)@ == model::create_claim(old(self)@, sender@, now, proof@).registry,
            outcome_view(outcome) == model::create_claim(old(self)@, sender@, now, proof@).outcome,
            within_bound(final(self)@, T::MAX_BYTES_IN_HASH as nat),
    {
        let record = ProofRecord { owner: sender.clone(), created_at: now };
        match self.proofs.insert(proof.clone(), record) {
            Ok(()) => Ok(Event::ClaimCreated(sender, proof)),
            Err(error) => Err(error),
        }
    }

    /// Hands the claim on `proof` from `sender` to `new_owner`. The record
    /// keeps its time of creation. Handing a claim to oneself is allowed and
    /// is reported like any other transfer.
    ///
    /// Refused with [`Error::NoSuchProof`] if the proof has no record, else
    /// with [`Error::NotProofOwner`] if `sender` does not own it.
    pub fn transfer_claim(
        &mut self,
        sender: AccountId,
        new_owner: AccountId,
        proof: Proof<T>,
    ) -> (outcome: Result<Event<T>, Error>)
        ensures
            final(self)@ == model::transfer_claim(old(self)@, sender@, new_owner@, proof@).registry,
            outcome_view(outcome) == model::transfer_claim(
                old(self)@,
                sender@,
                new_owner@,
                proof@,
            ).outcome,
            within_bound(final(self)@, T::MAX_BYTES_IN_HASH as nat),
    {
        match self.ensure_owner(&sender, &proof) {
            Err(error) => Err(error),
            Ok(()) => match self.proofs.set_owner(&proof, new_owner.clone()) {
                Ok(()) => Ok(Event::ClaimTransfered(sender, new_owner, proof)),
                Err(error) => Err(error),
            },
        }
    }

    /// Gives up the claim of `sender` on `proof`. The proof has no record
    /// afterwards, and anyone may claim it anew.
    ///
    /// Refused with [`Error::NoSuchProof`] if the proof has no record, else
    /// with [`Error::NotProofOwner`] if `sender` does not own it.
    pub fn revoke_claim(&mut self, sender: AccountId, proof: Proof<T>) -> (outcome: Result<
        Event<T>,
        Error,
    >)
        ensures
            final(self)@ == model::revoke_claim(old(self)@, sender@, proof@).registry,
            outcome_view(outcome) == model::revoke_claim(old(self)@, sender@, proof@).outcome,
            within_bound(final(self)@, T::MAX_BYTES_IN_HASH as nat),
    {
        match self.ensure_owner(&sender, &proof) {
            Err(error) => Err(error),
            Ok(()) => match self.proofs.remove(&proof) {
                Ok(_) => Ok(Event::ClaimRevoked(sender, proof)),
                Err(error) => Err(error),
            },
        }
    }
}

} // verus!
