//! A proof-of-existence claim registry.
//!
//! A *proof* is the fingerprint of some content. The registry binds each
//! proof to at most one owner together with the logical time at which the
//! binding was made. An owner may hand the claim to another account or give
//! it up; nobody else may touch it.
//!
//! The crate is layered:
//!
//! * [`config`]: the static bound on the length of a proof;
//! * [`account`], [`record`]: the values the registry stores;
//! * [`model`]: the registry as a mathematical map, and the three
//!   transitions as functions on that map;
//! * [`store`]: the executable record store, whose view is that map;
//! * [`pallet`]: the claim service, which validates a request, applies
//!   the transition to the store and reports one event or one error;
//! * [`laws`]: theorems about sequences of transitions.

pub mod account;
pub mod config;
pub mod error;
pub mod event;
pub mod laws;
pub mod model;
pub mod pallet;
pub mod record;
pub mod store;

pub use account::AccountId;
pub use config::Config;
pub use error::Error;
pub use event::Event;
pub use pallet::Pallet;
pub use record::{BlockNumber, Proof, ProofRecord, ProofRecordView};
pub use store::ProofStore;
