//! Proofs and the records kept for them.

use vstd::prelude::*;
use vstd::std_specs::cmp::PartialEqSpecImpl;
use core::marker::PhantomData;
use crate::account::{same_bytes, AccountId};
use crate::config::Config;

verus! {

/// Logical time: the position the host's sequencer had reached when a claim
/// was made. The registry stores it and never interprets it.
pub type BlockNumber = u64;

/// Whether a byte sequence is short enough to be a proof under `T`.
pub open spec fn admissible<T: Config>(bytes: Seq<u8>) -> bool {
    bytes.len() <= T::MAX_BYTES_IN_HASH
}

/// A content fingerprint of at most `T::MAX_BYTES_IN_HASH` bytes.
///
/// Two proofs are the same proof exactly when they hold the same bytes.
#[derive(Debug)]
pub struct Proof<T: Config> {
    bytes: Vec<u8>,
    config: PhantomData<T>,
}

impl<T: Config> View for Proof<T> {
    type V = Seq<u8>;

    closed spec fn view(&self) -> Seq<u8> {
        self.bytes@
    }
}

impl<T: Config> Proof<T> {
    /// What holds of every proof: its bytes fit the configured bound.
    #[verifier::type_invariant]
    pub open spec fn well_formed(self) -> bool {
        admissible::<T>(self@)
    }

    /// Accepts `bytes` as a proof if they fit the configured bound, and
    /// hands them back untouched if they do not.
    pub fn try_from_bytes(bytes: Vec<u8>) -> (outcome: Result<Proof<T>, Vec<u8>>)
        ensures
            admissible::<T>(bytes@) ==> (outcome matches Ok(proof) && proof@ == bytes@),
            !admissible::<T>(bytes@) ==> outcome == Err::<Proof<T>, Vec<u8>>(bytes),
    {
        if bytes.len() <= T::MAX_BYTES_IN_HASH as usize {
            Ok(Proof { bytes, config: PhantomData })
        } else {
            Err(bytes)
        }
    }

    /// The fingerprint's bytes.
    pub fn as_bytes(&self) -> (bytes: &Vec<u8>)
        ensures
            bytes@ == self@,
            admissible::<T>(self@),
    {
        proof {
            use_type_invariant(self);
        }
        &self.bytes
    }
}

impl<T: Config> Clone for Proof<T> {
    fn clone(&self) -> (copy: Proof<T>)
        ensures
            copy@ == self@,
    {
        proof {
            use_type_invariant(self);
        }
        Proof { bytes: self.bytes.clone(), config: PhantomData }
    }
}

impl<T: Config> PartialEq for Proof<T> {
    fn eq(&self, other: &Proof<T>) -> (same: bool) {
        same_bytes(&self.bytes, &other.bytes)
    }
}

impl<T: Config> PartialEqSpecImpl for Proof<T> {
    open spec fn obeys_eq_spec() -> bool {
        true
    }

    open spec fn eq_spec(&self, other: &Proof<T>) -> bool {
        self@ == other@
    }
}

impl<T: Config> Eq for Proof<T> {}

/// What the registry knows about a claimed proof, as a mathematical value.
pub ghost struct ProofRecordView {
    /// The identity entitled to transfer or revoke the claim.
    pub owner: Seq<u8>,
    /// The logical time at which the claim was created.
    pub created_at: BlockNumber,
}

/// What the registry knows about a claimed proof. A record cannot be
/// built without an owner, so a claimed proof never lacks one.
#[derive(Debug)]
pub struct ProofRecord {
    /// The identity entitled to transfer or revoke the claim.
    pub owner: AccountId,
    /// The logical time at which the claim was created.
    pub created_at: BlockNumber,
}

impl View for ProofRecord {
    type V = ProofRecordView;

    open spec fn view(&self) -> ProofRecordView {
        ProofRecordView { owner: self.owner@, created_at: self.created_at }
    }
}

impl Clone for ProofRecord {
    fn clone(&self) -> (copy: ProofRecord)
        ensures
            copy@ == self@,
    {
        ProofRecord { owner: self.owner.clone(), created_at: self.created_at }
    }
}

impl PartialEq for ProofRecord {
    fn eq(&self, other: &ProofRecord) -> (same: bool) {
        self.owner == other.owner && self.created_at == other.created_at
    }
}

impl PartialEqSpecImpl for ProofRecord {
    open spec fn obeys_eq_spec() -> bool {
        true
    }

    open spec fn eq_spec(&self, other: &ProofRecord) -> bool {
        self@ == other@
    }
}

impl Eq for ProofRecord {}

} // verus!
