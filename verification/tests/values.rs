use pallet_poe::{AccountId, Config, Error, Event, Pallet, Proof, ProofRecord, ProofStore};

#[derive(Debug)]
struct Narrow;

impl Config for Narrow {
    const MAX_BYTES_IN_HASH: u32 = 4;
}

#[derive(Debug)]
struct Closed;

impl Config for Closed {
    const MAX_BYTES_IN_HASH: u32 = 0;
}

fn who(name: &str) -> AccountId {
    AccountId::new(name.as_bytes().to_vec())
}

fn short(bytes: &[u8]) -> Proof<Narrow> {
    Proof::try_from_bytes(bytes.to_vec()).expect("proof within the bound")
}

#[test]
fn proof_at_the_bound_is_accepted() {
    let outcome = Proof::<Narrow>::try_from_bytes(vec![1, 2, 3, 4]);
    let accepted = outcome.expect("four bytes fit a bound of four");
    assert_eq!(accepted.as_bytes(), &vec![1u8, 2, 3, 4]);
}

#[test]
fn proof_over_the_bound_is_handed_back() {
    let outcome = Proof::<Narrow>::try_from_bytes(vec![1, 2, 3, 4, 5]);
    assert_eq!(outcome, Err(vec![1u8, 2, 3, 4, 5]));
}

#[test]
fn bound_of_zero_admits_only_the_empty_proof() {
    assert!(Proof::<Closed>::try_from_bytes(Vec::new()).is_ok());
    assert_eq!(Proof::<Closed>::try_from_bytes(vec![0]), Err(vec![0u8]));
}

#[test]
fn proofs_are_equal_when_their_bytes_are() {
    assert_eq!(short(b"ab"), short(b"ab"));
    assert_ne!(short(b"ab"), short(b"ba"));
    assert_ne!(short(b"ab"), short(b"abc"));
    assert_ne!(short(b""), short(&[0]));
    assert_eq!(short(b"ab").clone(), short(b"ab"));
}

#[test]
fn accounts_are_equal_when_their_bytes_are() {
    assert_eq!(who("alice"), who("alice"));
    assert_ne!(who("alice"), who("alicf"));
    assert_ne!(who("alice"), who("alic"));
    assert_eq!(who("bob").clone(), who("bob"));
    assert_eq!(who("bob").as_bytes(), &b"bob".to_vec());
}

#[test]
fn records_compare_owner_and_time() {
    let base = ProofRecord { owner: who("a"), created_at: 1 };
    assert_eq!(base.clone(), base);
    assert_ne!(base, ProofRecord { owner: who("b"), created_at: 1 });
    assert_ne!(base, ProofRecord { owner: who("a"), created_at: 2 });
}

#[test]
fn events_compare_kind_and_contents() {
    let created = Event::ClaimCreated(who("a"), short(b"p"));
    let revoked = Event::ClaimRevoked(who("a"), short(b"p"));
    let moved = Event::ClaimTransfered(who("a"), who("b"), short(b"p"));
    assert_eq!(created.clone(), created);
    assert_eq!(revoked.clone(), revoked);
    assert_eq!(moved.clone(), moved);
    assert_ne!(created, revoked);
    assert_ne!(created, Event::ClaimCreated(who("b"), short(b"p")));
    assert_ne!(created, Event::ClaimCreated(who("a"), short(b"q")));
    assert_ne!(revoked, Event::ClaimRevoked(who("b"), short(b"p")));
    assert_ne!(moved, Event::ClaimTransfered(who("b"), who("a"), short(b"p")));
    assert_ne!(moved, Event::ClaimTransfered(who("a"), who("c"), short(b"p")));
    assert_ne!(moved, Event::ClaimTransfered(who("a"), who("b"), short(b"q")));
}

#[test]
fn store_insert_refuses_a_second_record() {
    let mut store = ProofStore::<Narrow>::new();
    assert_eq!(store.insert(short(b"p"), ProofRecord { owner: who("a"), created_at: 1 }), Ok(()));
    assert_eq!(
        store.insert(short(b"p"), ProofRecord { owner: who("b"), created_at: 2 }),
        Err(Error::ProofAlreadyClaimed)
    );
    assert_eq!(store.get(&short(b"p")), Some(&ProofRecord { owner: who("a"), created_at: 1 }));
}

#[test]
fn store_set_owner_keeps_creation_time() {
    let mut store = ProofStore::<Narrow>::new();
    store.insert(short(b"p"), ProofRecord { owner: who("a"), created_at: 11 }).unwrap();
    store.insert(short(b"q"), ProofRecord { owner: who("a"), created_at: 12 }).unwrap();
    store.insert(short(b"r"), ProofRecord { owner: who("a"), created_at: 13 }).unwrap();
    assert_eq!(store.set_owner(&short(b"q"), who("b")), Ok(()));
    assert_eq!(store.get(&short(b"p")), Some(&ProofRecord { owner: who("a"), created_at: 11 }));
    assert_eq!(store.get(&short(b"q")), Some(&ProofRecord { owner: who("b"), created_at: 12 }));
    assert_eq!(store.get(&short(b"r")), Some(&ProofRecord { owner: who("a"), created_at: 13 }));
}

#[test]
fn store_set_owner_needs_a_record() {
    let mut store = ProofStore::<Narrow>::new();
    assert_eq!(store.set_owner(&short(b"p"), who("b")), Err(Error::NoSuchProof));
    assert!(!store.contains_key(&short(b"p")));
}

#[test]
fn store_remove_hands_out_the_record() {
    let mut store = ProofStore::<Narrow>::new();
    store.insert(short(b"p"), ProofRecord { owner: who("a"), created_at: 11 }).unwrap();
    store.insert(short(b"q"), ProofRecord { owner: who("b"), created_at: 12 }).unwrap();
    store.insert(short(b"r"), ProofRecord { owner: who("c"), created_at: 13 }).unwrap();
    assert_eq!(store.remove(&short(b"q")), Ok(ProofRecord { owner: who("b"), created_at: 12 }));
    assert_eq!(store.remove(&short(b"q")), Err(Error::NoSuchProof));
    assert_eq!(store.get(&short(b"p")), Some(&ProofRecord { owner: who("a"), created_at: 11 }));
    assert_eq!(store.get(&short(b"q")), None);
    assert_eq!(store.get(&short(b"r")), Some(&ProofRecord { owner: who("c"), created_at: 13 }));
    assert_eq!(store.remove(&short(b"p")), Ok(ProofRecord { owner: who("a"), created_at: 11 }));
    assert_eq!(store.remove(&short(b"r")), Ok(ProofRecord { owner: who("c"), created_at: 13 }));
    assert!(!store.contains_key(&short(b"r")));
}

#[test]
fn registry_continues_from_a_store() {
    let mut store = ProofStore::<Narrow>::new();
    store.insert(short(b"p"), ProofRecord { owner: who("a"), created_at: 11 }).unwrap();
    let mut pallet = Pallet::with_store(store);
    assert_eq!(pallet.create_claim(who("b"), 20, short(b"p")), Err(Error::ProofAlreadyClaimed));
    assert_eq!(
        pallet.transfer_claim(who("a"), who("b"), short(b"p")),
        Ok(Event::ClaimTransfered(who("a"), who("b"), short(b"p")))
    );
    assert_eq!(pallet.proofs().get(&short(b"p")), Some(&ProofRecord { owner: who("b"), created_at: 11 }));
}

#[test]
fn errors_are_three_distinct_kinds() {
    assert_ne!(Error::ProofAlreadyClaimed, Error::NoSuchProof);
    assert_ne!(Error::NoSuchProof, Error::NotProofOwner);
    assert_ne!(Error::NotProofOwner, Error::ProofAlreadyClaimed);
}
