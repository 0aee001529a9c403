//! The proof record store: the one place where claims are kept.

use vstd::prelude::*;
use crate::account::AccountId;
use crate::config::Config;
use crate::error::Error;
use crate::model::{within_bound, Registry};
use crate::record::{admissible, Proof, ProofRecord, ProofRecordView};

verus! {

/// A claimed proof together with its record.
struct Entry<T: Config> {
    proof: Proof<T>,
    record: ProofRecord,
}

/// Whether position `i` of `entries` holds the record of `key`.
spec fn holds<T: Config>(entries: Seq<Entry<T>>, i: int, key: Seq<u8>) -> bool {
    0 <= i < entries.len() && entries[i].proof@ == key
}

/// No proof has two entries.
spec fn distinct<T: Config>(entries: Seq<Entry<T>>) -> bool {
    forall|i: int, j: int|
        0 <= i < j < entries.len() ==> (#[trigger] entries[i]).proof@ != (#[trigger] entries[j]).proof@
}

/// Every entry's proof respects the configured bound.
spec fn bounded<T: Config>(entries: Seq<Entry<T>>) -> bool {
    forall|i: int| 0 <= i < entries.len() ==> admissible::<T>((#[trigger] entries[i]).proof@)
}

/// The map that a list of entries stands for.
spec fn as_map<T: Config>(entries: Seq<Entry<T>>) -> Registry {
    Map::new(
        |key: Seq<u8>| exists|i: int| holds(entries, i, key),
        |key: Seq<u8>| entries[choose|i: int| holds(entries, i, key)].record@,
    )
}

/// In a list without duplicates, each entry is what the map gives for its
/// proof.
proof fn lemma_entry_is_mapped<T: Config>(entries: Seq<Entry<T>>, i: int)
    requires
        distinct(entries),
        0 <= i < entries.len(),
    ensures
        as_map(entries).contains_key(entries[i].proof@),
        as_map(entries)[entries[i].proof@] == entries[i].record@,
{
    let key = entries[i].proof@;
    assert(holds(entries, i, key));
    let j = choose|j: int| holds(entries, j, key);
    assert(i == j);
}

/// Appending an entry for an unclaimed proof inserts it into the map.
proof fn lemma_push<T: Config>(entries: Seq<Entry<T>>, entry: Entry<T>)
    requires
        distinct(entries),
        !as_map(entries).contains_key(entry.proof@),
    ensures
        distinct(entries.push(entry)),
        as_map(entries.push(entry)) == as_map(entries).insert(entry.proof@, entry.record@),
{
    let grown = entries.push(entry);
    assert forall|i: int, j: int| 0 <= i < j < grown.len() implies
        (#[trigger] grown[i]).proof@ != (#[trigger] grown[j]).proof@
    by {
        if j == entries.len() {
            assert(holds(entries, i, entries[i].proof@));
        }
    }
    let target = as_map(entries).insert(entry.proof@, entry.record@);
    assert forall|key: Seq<u8>|
        as_map(grown).contains_key(key) <==> target.contains_key(key)
    by {
        if as_map(grown).contains_key(key) {
            let i = choose|i: int| holds(grown, i, key);
            if i < entries.len() {
                assert(holds(entries, i, key));
            }
        }
        if target.contains_key(key) {
            if key == entry.proof@ {
                assert(holds(grown, entries.len() as int, key));
            } else {
                let i = choose|i: int| holds(entries, i, key);
                assert(holds(grown, i, key));
            }
        }
    }
    assert forall|key: Seq<u8>| as_map(grown).contains_key(key) implies
        as_map(grown)[key] == target[key]
    by {
        let i = choose|i: int| holds(grown, i, key);
        lemma_entry_is_mapped(grown, i);
        if i < entries.len() {
            lemma_entry_is_mapped(entries, i);
        }
    }
    assert(as_map(grown) =~= target);
}

/// Replacing the record of an entry replaces it in the map.
proof fn lemma_update<T: Config>(entries: Seq<Entry<T>>, i: int, entry: Entry<T>)
    requires
        distinct(entries),
        0 <= i < entries.len(),
        entry.proof@ == entries[i].proof@,
    ensures
        distinct(entries.update(i, entry)),
        as_map(entries.update(i, entry)) == as_map(entries).insert(entry.proof@, entry.record@),
{
    let changed = entries.update(i, entry);
    assert forall|a: int, b: int| 0 <= a < b < changed.len() implies
        (#[trigger] changed[a]).proof@ != (#[trigger] changed[b]).proof@
    by {
        assert(changed[a].proof@ == entries[a].proof@);
        assert(changed[b].proof@ == entries[b].proof@);
    }
    let target = as_map(entries).insert(entry.proof@, entry.record@);
    assert forall|key: Seq<u8>|
        as_map(changed).contains_key(key) <==> target.contains_key(key)
    by {
        if as_map(changed).contains_key(key) {
            let j = choose|j: int| holds(changed, j, key);
            assert(holds(entries, j, key));
        }
        if target.contains_key(key) {
            if key == entry.proof@ {
                assert(holds(changed, i, key));
            } else {
                let j = choose|j: int| holds(entries, j, key);
                assert(holds(changed, j, key));
            }
        }
    }
    assert forall|key: Seq<u8>| as_map(changed).contains_key(key) implies
        as_map(changed)[key] == target[key]
    by {
        let j = choose|j: int| holds(changed, j, key);
        lemma_entry_is_mapped(changed, j);
        lemma_entry_is_mapped(entries, j);
    }
    assert(as_map(changed) =~= target);
}

/// Deleting an entry deletes its proof from the map.
proof fn lemma_remove<T: Config>(entries: Seq<Entry<T>>, i: int)
    requires
        distinct(entries),
        0 <= i < entries.len(),
    ensures
        distinct(entries.remove(i)),
        as_map(entries.remove(i)) == as_map(entries).remove(entries[i].proof@),
{
    let rest = entries.remove(i);
    let gone = entries[i].proof@;
    assert forall|a: int, b: int| 0 <= a < b < rest.len() implies
        (#[trigger] rest[a]).proof@ != (#[trigger] rest[b]).proof@
    by {
        let a0 = if a < i { a } else { a + 1 };
        let b0 = if b < i { b } else { b + 1 };
        assert(rest[a] == entries[a0]);
        assert(rest[b] == entries[b0]);
    }
    let target = as_map(entries).remove(gone);
    assert forall|key: Seq<u8>|
        as_map(rest).contains_key(key) <==> target.contains_key(key)
    by {
        if as_map(rest).contains_key(key) {
            let j = choose|j: int| holds(rest, j, key);
            let j0 = if j < i { j } else { j + 1 };
            assert(rest[j] == entries[j0]);
            assert(holds(entries, j0, key));
            assert(holds(entries, i, gone));
        }
        if target.contains_key(key) {
            let j0 = choose|j: int| holds(entries, j, key);
            let j = if j0 < i { j0 } else { j0 - 1 };
            assert(rest[j] == entries[j0]);
            assert(holds(rest, j, key));
        }
    }
    assert forall|key: Seq<u8>| as_map(rest).contains_key(key) implies
        as_map(rest)[key] == target[key]
    by {
        let j = choose|j: int| holds(rest, j, key);
        let j0 = if j < i { j } else { j + 1 };
        assert(rest[j] == entries[j0]);
        lemma_entry_is_mapped(rest, j);
        lemma_entry_is_mapped(entries, j0);
    }
    assert(as_map(rest) =~= target);
}

/// A list of bounded proofs stands for a registry within the bound.
proof fn lemma_bounded<T: Config>(entries: Seq<Entry<T>>)
    requires
        bounded(entries),
    ensures
        within_bound(as_map(entries), T::MAX_BYTES_IN_HASH as nat),
{
    assert forall|key: Seq<u8>| #[trigger] as_map(entries).contains_key(key) implies
        key.len() <= T::MAX_BYTES_IN_HASH as nat
    by {
        let i = choose|i: int| holds(entries, i, key);
        assert(admissible::<T>(entries[i].proof@));
    }
}

/// The registry's storage: for each claimed proof, exactly one record.
///
/// Its view is the [`Registry`] map. A proof is looked up by its bytes, and
/// the order in which claims were made plays no part.
pub struct ProofStore<T: Config> {
    entries: Vec<Entry<T>>,
}

impl<T: Config> View for ProofStore<T> {
    type V = Registry;

    closed spec fn view(&self) -> Registry {
        as_map(self.entries@)
    }
}

impl<T: Config> ProofStore<T> {
    #[verifier::type_invariant]
    spec fn well_formed(self) -> bool {
        distinct(self.entries@) && bounded(self.entries@)
    }

    /// A store in which nothing is claimed.
    pub fn new() -> (store: ProofStore<T>)
        ensures
            store@ == Registry::empty(),
    {
        let store = ProofStore { entries: Vec::new() };
        assert(store@ =~= Registry::empty());
        store
    }

    /// Where in `entries` the record of `proof` is kept, if it has one.
    fn position(entries: &Vec<Entry<T>>, proof: &Proof<T>) -> (found: Option<usize>)
        ensures
            match found {
                Some(i) => holds(entries@, i as int, proof@),
                None => !as_map(entries@).contains_key(proof@),
            },
    {
        let mut i: usize = 0;
        while i < entries.len()
            invariant
                i <= entries.len(),
                forall|j: int| 0 <= j < i ==> !holds(entries@, j, proof@),
            decreases entries.len() - i,
        {
            let same = entries[i].proof == *proof;
            if same {
                return Some(i);
            }
            i += 1;
        }
        None
    }

    /// Whether `proof` is currently claimed.
    pub fn contains_key(&self, proof: &Proof<T>) -> (present: bool)
        ensures
            present == self@.contains_key(proof@),
    {
        proof {
            use_type_invariant(self);
        }
        match Self::position(&self.entries, proof) {
            Some(i) => {
                proof {
                    lemma_entry_is_mapped(self.entries@, i as int);
                }
                true
            },
            None => false,
        }
    }

    /// The record of `proof`, if it is claimed.
    pub fn get(&self, proof: &Proof<T>) -> (record: Option<&ProofRecord>)
        ensures
            match record {
                Some(found) => self@.contains_key(proof@) && found@ == self@[proof@],
                None => !self@.contains_key(proof@),
            },
            within_bound(self@, T::MAX_BYTES_IN_HASH as nat),
    {
        proof {
            use_type_invariant(self);
            lemma_bounded(self.entries@);
        }
        match Self::position(&self.entries, proof) {
            Some(i) => {
                proof {
                    lemma_entry_is_mapped(self.entries@, i as int);
                }
                Some(&self.entries[i].record)
            },
            None => None,
        }
    }

    /// Records `record` for `proof`, unless the proof is claimed already.
    pub fn insert(&mut self, proof: Proof<T>, record: ProofRecord) -> (outcome: Result<(), Error>)
        ensures
            old(self)@.contains_key(proof@) ==> ({
                &&& outcome == Err::<(), Error>(Error::ProofAlreadyClaimed)
                &&& final(self)@ == old(self)@
            }),
            !old(self)@.contains_key(proof@) ==> ({
                &&& outcome == Ok::<(), Error>(())
                &&& final(self)@ == old(self)@.insert(proof@, record@)
            }),
            within_bound(final(self)@, T::MAX_BYTES_IN_HASH as nat),
    {
        proof {
            use_type_invariant(&*self);
            use_type_invariant(&proof);
            lemma_bounded(self.entries@);
        }
        match Self::position(&self.entries, &proof) {
            Some(i) => {
                proof {
                    lemma_entry_is_mapped(self.entries@, i as int);
                }
                Err(Error::ProofAlreadyClaimed)
            },
            None => {
                let entry = Entry { proof, record };
                proof {
                    lemma_push(self.entries@, entry);
                    lemma_bounded(self.entries@.push(entry));
                }
                let mut entries = Vec::new();
                core::mem::swap(&mut entries, &mut self.entries);
                entries.push(entry);
                self.entries = entries;
                Ok(())
            },
        }
    }

    /// Names `new_owner` as the owner of `proof`, leaving the time of
    /// creation as it is. Fails if the proof is not claimed.
    pub fn set_owner(&mut self, proof: &Proof<T>, new_owner: AccountId) -> (outcome: Result<(), Error>)
        ensures
            !old(self)@.contains_key(proof@) ==> ({
                &&& outcome == Err::<(), Error>(Error::NoSuchProof)
                &&& final(self)@ == old(self)@
            }),
            old(self)@.contains_key(proof@) ==> ({
                &&& outcome == Ok::<(), Error>(())
                &&& final(self)@ == old(self)@.insert(
                    proof@,
                    (ProofRecordView {
                        owner: new_owner@,
                        created_at: old(self)@[proof@].created_at,
                    }),
                )
            }),
            within_bound(final(self)@, T::MAX_BYTES_IN_HASH as nat),
    {
        proof {
            use_type_invariant(&*self);
            lemma_bounded(self.entries@);
        }
        match Self::position(&self.entries, proof) {
            None => Err(Error::NoSuchProof),
            Some(i) => {
                let mut entries = Vec::new();
                core::mem::swap(&mut entries, &mut self.entries);
                let ghost before = entries@;
                proof {
                    lemma_entry_is_mapped(before, i as int);
                }
                entries[i].record.owner = new_owner;
                proof {
                    assert(entries@ =~= before.update(i as int, entries@[i as int]));
                    lemma_update(before, i as int, entries@[i as int]);
                    lemma_bounded(entries@);
                }
                self.entries = entries;
                Ok(())
            },
        }
    }

    /// Deletes the record of `proof` and hands it out. Fails if the proof is
    /// not claimed.
    pub fn remove(&mut self, proof: &Proof<T>) -> (outcome: Result<ProofRecord, Error>)
        ensures
            !old(self)@.contains_key(proof@) ==> ({
                &&& outcome == Err::<ProofRecord, Error>(Error::NoSuchProof)
                &&& final(self)@ == old(self)@
            }),
            old(self)@.contains_key(proof@) ==> ({
                &&& outcome matches Ok(record) && record@ == old(self)@[proof@]
                &&& final(self)@ == old(self)@.remove(proof@)
            }),
            within_bound(final(self)@, T::MAX_BYTES_IN_HASH as nat),
    {
        proof {
            use_type_invariant(&*self);
            lemma_bounded(self.entries@);
        }
        match Self::position(&self.entries, proof) {
            None => Err(Error::NoSuchProof),
            Some(i) => {
                let mut entries = Vec::new();
                core::mem::swap(&mut entries, &mut self.entries);
                let ghost before = entries@;
                proof {
                    lemma_entry_is_mapped(before, i as int);
                    lemma_remove(before, i as int);
                }
                let entry = entries.remove(i);
                proof {
                    lemma_bounded(entries@);
                }
                self.entries = entries;
                Ok(entry.record)
            },
        }
    }
}

} // verus!
