//! A map from content hash to proof, kept as a list of entries in which no
//! hash occurs twice.

use vstd::prelude::*;
use crate::ledger::{AccountId, CryptoHash, Duration, Timestamp};

verus! {

/// A stored commitment. Once written it is never changed.
#[derive(Debug, Clone)]
pub struct PrivateProof {
    /// The account that created the proof, and the only one that may revoke it.
    pub issuer: AccountId,
    /// The ledger's clock when the proof was created.
    pub created_at: Timestamp,
    /// How long the proof stays valid; `None` for a proof that never expires.
    pub timeout: Option<Duration>,
}

#[derive(Debug)]
struct Entry {
    hash: CryptoHash,
    proof: PrivateProof,
}

/// Whether two hashes hold the same bytes.
pub fn same_hash(a: &CryptoHash, b: &CryptoHash) -> (r: bool)
    ensures
        r == (a@ == b@),
{
    let mut i: usize = 0;
    while i < 32
        invariant
            i <= 32,
            forall|j: int| 0 <= j < i ==> a@[j] == b@[j],
        decreases 32 - i,
    {
        if a[i] != b[i] {
            return false;
        }
        i += 1;
    }
    assert(a@ =~= b@);
    true
}

#[derive(Debug)]
pub struct ProofMap {
    entries: Vec<Entry>,
}

impl View for ProofMap {
    type V = Map<Seq<u8>, PrivateProof>;

    closed spec fn view(&self) -> Map<Seq<u8>, PrivateProof> {
        Map::new(|k: Seq<u8>| self.holds(k), |k: Seq<u8>| self.entries@[self.position(k)].proof)
    }
}

impl ProofMap {
    /// Some entry has the key `k`.
    closed spec fn holds(&self, k: Seq<u8>) -> bool {
        exists|i: int| 0 <= i < self.entries@.len() && (#[trigger] self.entries@[i]).hash@ == k
    }

    /// The place of an entry with the key `k`.
    closed spec fn position(&self, k: Seq<u8>) -> int {
        choose|i: int| 0 <= i < self.entries@.len() && (#[trigger] self.entries@[i]).hash@ == k
    }

    /// No hash occurs in two entries.
    pub closed spec fn wf(&self) -> bool {
        forall|i: int, j: int|
            0 <= i < j < self.entries@.len() ==> (#[trigger] self.entries@[i]).hash@ != (
            #[trigger] self.entries@[j]).hash@
    }

    /// In a well-formed map, an entry is what the view gives for its key.
    proof fn lemma_entry(&self, i: int)
        requires
            self.wf(),
            0 <= i < self.entries@.len(),
        ensures
            self@.contains_key(self.entries@[i].hash@),
            self@[self.entries@[i].hash@] == self.entries@[i].proof,
    {
        let k = self.entries@[i].hash@;
        assert(self.holds(k));
        let p = self.position(k);
        assert(p == i) by {
            if p < i {
                assert(self.entries@[p].hash@ != self.entries@[i].hash@);
            } else if i < p {
                assert(self.entries@[i].hash@ != self.entries@[p].hash@);
            }
        }
    }

    /// The empty map.
    pub fn new() -> (m: Self)
        ensures
            m.wf(),
            m@ == Map::<Seq<u8>, PrivateProof>::empty(),
    {
        let m = ProofMap { entries: Vec::new() };
        assert(m@ =~= Map::<Seq<u8>, PrivateProof>::empty());
        m
    }

    /// The place of the entry for `hash`, if there is one.
    fn find(&self, hash: &CryptoHash) -> (r: Option<usize>)
        requires
            self.wf(),
        ensures
            match r {
                Some(i) => i < self.entries@.len() && self.entries@[i as int].hash@ == hash@,
                None => !self@.contains_key(hash@),
            },
    {
        let mut i: usize = 0;
        while i < self.entries.len()
            invariant
                i <= self.entries@.len(),
                forall|j: int| 0 <= j < i ==> (#[trigger] self.entries@[j]).hash@ != hash@,
            decreases self.entries@.len() - i,
        {
            if same_hash(&self.entries[i].hash, hash) {
                return Some(i);
            }
            i += 1;
        }
        assert(!self.holds(hash@));
        None
    }

    /// Whether `hash` is a key of the map.
    pub fn contains_key(&self, hash: &CryptoHash) -> (r: bool)
        requires
            self.wf(),
        ensures
            r == self@.contains_key(hash@),
    {
        match self.find(hash) {
            Some(i) => {
                proof {
                    self.lemma_entry(i as int);
                }
                true
            },
            None => false,
        }
    }

    /// The proof stored under `hash`, if there is one.
    pub fn get(&self, hash: &CryptoHash) -> (r: Option<&PrivateProof>)
        requires
            self.wf(),
        ensures
            match r {
                Some(p) => self@.contains_key(hash@) && *p == self@[hash@],
                None => !self@.contains_key(hash@),
            },
    {
        match self.find(hash) {
            Some(i) => {
                proof {
                    self.lemma_entry(i as int);
                }
                Some(&self.entries[i].proof)
            },
            None => None,
        }
    }

    /// Stores `proof` under `hash`, in place of what was stored there before.
    pub fn insert(&mut self, hash: CryptoHash, proof: PrivateProof)
        requires
            old(self).wf(),
        ensures
            final(self).wf(),
            final(self)@ == old(self)@.insert(hash@, proof),
    {
        let ghost before = *self;
        let ghost n = self.entries@.len() as int;
        let found = self.find(&hash);
        // The place that holds the new entry.
        let ghost at: int = match found {
            Some(i) => i as int,
            None => n,
        };
        match found {
            Some(i) => {
                self.entries[i] = Entry { hash, proof };
            },
            None => {
                assert(!before.holds(hash@));
                self.entries.push(Entry { hash, proof });
            },
        }
        proof {
            let after = *self;
            assert(0 <= at < after.entries@.len());
            assert(after.entries@[at].hash@ == hash@ && after.entries@[at].proof == proof);
            assert forall|j: int| 0 <= j < after.entries@.len() && j != at implies 0 <= j < n
                && #[trigger] after.entries@[j] == before.entries@[j]
                && before.entries@[j].hash@ != hash@ by {
                if at < n {
                    if j < at {
                        assert(before.entries@[j].hash@ != before.entries@[at].hash@);
                    } else {
                        assert(before.entries@[at].hash@ != before.entries@[j].hash@);
                    }
                } else {
                    assert(before.entries@[j].hash@ != hash@);
                }
            }
            assert(after.wf());
            assert forall|k: Seq<u8>| #[trigger]
                after@.contains_key(k) == before@.insert(hash@, proof).contains_key(k) by {
                if before.holds(k) {
                    let j = before.position(k);
                    if k != hash@ {
                        assert(after.entries@[j].hash@ == k);
                    }
                }
                if after.holds(k) {
                    let j = after.position(k);
                    if j != at {
                        assert(before.entries@[j].hash@ == k);
                    }
                }
                assert(after.entries@[at].hash@ == hash@);
            }
            assert forall|k: Seq<u8>| #[trigger] after@.contains_key(k) implies after@[k]
                == before@.insert(hash@, proof)[k] by {
                let j = after.position(k);
                after.lemma_entry(j);
                if j != at {
                    before.lemma_entry(j);
                }
            }
            assert(after@ =~= before@.insert(hash@, proof));
        }
    }

    /// Takes out what is stored under `hash`, and returns it.
    pub fn remove(&mut self, hash: &CryptoHash) -> (r: Option<PrivateProof>)
        requires
            old(self).wf(),
        ensures
            final(self).wf(),
            final(self)@ == old(self)@.remove(hash@),
            match r {
                Some(p) => old(self)@.contains_key(hash@) && p == old(self)@[hash@],
                None => !old(self)@.contains_key(hash@),
            },
    {
        let ghost before = *self;
        match self.find(hash) {
            Some(i) => {
                proof {
                    before.lemma_entry(i as int);
                }
                let entry = self.entries.remove(i);
                proof {
                    let after = *self;
                    let n = before.entries@.len() as int;
                    assert forall|j: int| 0 <= j < n - 1 implies #[trigger] after.entries@[j] == (
                    if j < i {
                        before.entries@[j]
                    } else {
                        before.entries@[j + 1]
                    }) by {}
                    assert(after.wf()) by {
                        assert forall|a: int, b: int| 0 <= a < b < n - 1 implies (
                        #[trigger] after.entries@[a]).hash@ != (#[trigger] after.entries@[b]).hash@ by {
                            let a0 = if a < i { a } else { a + 1 };
                            let b0 = if b < i { b } else { b + 1 };
                            assert(before.entries@[a0].hash@ != before.entries@[b0].hash@);
                        }
                    }
                    assert forall|k: Seq<u8>| #[trigger]
                        after@.contains_key(k) == before@.remove(hash@).contains_key(k) by {
                        if before.holds(k) && k != hash@ {
                            let j = before.position(k);
                            let j1 = if j < i { j } else { j - 1 };
                            assert(after.entries@[j1].hash@ == k);
                        }
                        if after.holds(k) {
                            let j = after.position(k);
                            let j0 = if j < i { j } else { j + 1 };
                            assert(before.entries@[j0].hash@ == k);
                            if j0 < i {
                                assert(before.entries@[j0].hash@ != before.entries@[i as int].hash@);
                            } else {
                                assert(before.entries@[i as int].hash@ != before.entries@[j0].hash@);
                            }
                        }
                    }
                    assert forall|k: Seq<u8>| #[trigger] after@.contains_key(k) implies after@[k]
                        == before@.remove(hash@)[k] by {
                        let j = after.position(k);
                        let j0 = if j < i { j } else { j + 1 };
                        after.lemma_entry(j);
                        before.lemma_entry(j0);
                    }
                    assert(after@ =~= before@.remove(hash@));
                }
                Some(entry.proof)
            },
            None => {
                proof {
                    assert(self@ =~= before@.remove(hash@));
                }
                None
            },
        }
    }
}

} // verus!
