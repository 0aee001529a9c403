//! What the registry tells the outside world.

use vstd::prelude::*;
use vstd::std_specs::cmp::PartialEqSpecImpl;
use crate::account::AccountId;
use crate::config::Config;
use crate::error::Error;
use crate::model::EventView;
use crate::record::Proof;

verus! {

/// The notification of one change to the registry. Every successful request
/// gives rise to exactly one; a refused request to none.
#[derive(Debug)]
pub enum Event<T: Config> {
    /// A proof was claimed: who claimed it, and the proof.
    ClaimCreated(AccountId, Proof<T>),
    /// A claim was given up: who owned it, and the proof.
    ClaimRevoked(AccountId, Proof<T>),
    /// A claim changed hands: the former owner, the new owner, and the proof.
    ClaimTransfered(AccountId, AccountId, Proof<T>),
}

impl<T: Config> View for Event<T> {
    type V = EventView;

    open spec fn view(&self) -> EventView {
        match *self {
            Event::ClaimCreated(who, proof) => EventView::ClaimCreated { who: who@, proof: proof@ },
            Event::ClaimRevoked(who, proof) => EventView::ClaimRevoked { who: who@, proof: proof@ },
            Event::ClaimTransfered(from, to, proof) => EventView::ClaimTransfered {
                from: from@,
                to: to@,
                proof: proof@,
            },
        }
    }
}

impl<T: Config> Clone for Event<T> {
    fn clone(&self) -> (copy: Event<T>)
        ensures
            copy@ == self@,
    {
        match self {
            Event::ClaimCreated(who, proof) => Event::ClaimCreated(who.clone(), proof.clone()),
            Event::ClaimRevoked(who, proof) => Event::ClaimRevoked(who.clone(), proof.clone()),
            Event::ClaimTransfered(from, to, proof) => Event::ClaimTransfered(
                from.clone(),
                to.clone(),
                proof.clone(),
            ),
        }
    }
}

impl<T: Config> PartialEq for Event<T> {
    fn eq(&self, other: &Event<T>) -> (same: bool) {
        match (self, other) {
            (Event::ClaimCreated(who, proof), Event::ClaimCreated(other_who, other_proof)) => {
                *who == *other_who && *proof == *other_proof
            },
            (Event::ClaimRevoked(who, proof), Event::ClaimRevoked(other_who, other_proof)) => {
                *who == *other_who && *proof == *other_proof
            },
            (
                Event::ClaimTransfered(from, to, proof),
                Event::ClaimTransfered(other_from, other_to, other_proof),
            ) => { *from == *other_from && *to == *other_to && *proof == *other_proof },
            _ => false,
        }
    }
}

impl<T: Config> PartialEqSpecImpl for Event<T> {
    open spec fn obeys_eq_spec() -> bool {
        true
    }

    open spec fn eq_spec(&self, other: &Event<T>) -> bool {
        self@ == other@
    }
}

impl<T: Config> Eq for Event<T> {}

/// What the caller of a request is told, as a mathematical value.
pub open spec fn outcome_view<T: Config>(outcome: Result<Event<T>, Error>) -> Result<
    EventView,
    Error,
> {
    match outcome {
        Ok(event) => Ok(event@),
        Err(error) => Err(error),
    }
}

} // verus!
