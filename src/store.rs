//! The claim store: an associative map from proof bytes to the claim on them.
use vstd::prelude::*;

use crate::proofs::Proof;
use crate::{AccountId, BlockNumber};

verus! {

/// Who holds a proof, and since when.
#[derive(Clone, Copy, Debug, PartialEq, Eq, Structural)]
pub struct Claim {
    pub owner: AccountId,
    pub claimed_at: BlockNumber,
}

/// Maps each claimed proof to its claim. Keys are unique; entries have no
/// order that callers can observe.
pub struct ProofStore {
    entries: Vec<(Proof, Claim)>,
    contents: Ghost<Map<Seq<u8>, Claim>>,
}

impl View for ProofStore {
    type V = Map<Seq<u8>, Claim>;

    closed spec fn view(&self) -> Map<Seq<u8>, Claim> {
        self.contents@
    }
}

impl ProofStore {
    /// The entries hold each key once, and hold exactly the keys and claims
    /// of the map that the store stands for.
    pub closed spec fn wf(self) -> bool {
        &&& forall|i: int, j: int|
            0 <= i < j < self.entries.len() ==> #[trigger] self.entries[i].0@
                != #[trigger] self.entries[j].0@
        &&& forall|i: int|
            0 <= i < self.entries.len() ==> self.contents@.contains_key(#[trigger] self.entries[i].0@)
                && self.contents@[self.entries[i].0@] == self.entries[i].1
        &&& forall|k: Seq<u8>|
            #[trigger] self.contents@.contains_key(k) ==> exists|i: int|
                0 <= i < self.entries.len() && #[trigger] self.entries[i].0@ == k
    }

    /// An empty store.
    pub fn new() -> (r: ProofStore)
        ensures
            r.wf(),
            r@ == Map::<Seq<u8>, Claim>::empty(),
    {
        ProofStore { entries: Vec::new(), contents: Ghost(Map::empty()) }
    }

    /// The position of the entry for `key`, if there is one.
    fn position(&self, key: &Proof) -> (r: Option<usize>)
        requires
            self.wf(),
        ensures
            r matches Some(i) ==> i < self.entries.len() && self.entries[i as int].0@ == key@,
            r is None ==> !self@.contains_key(key@),
    {
        let mut i: usize = 0;
        while i < self.entries.len()
            invariant
                i <= self.entries.len(),
                forall|j: int| 0 <= j < i ==> self.entries[j].0@ != key@,
            decreases self.entries.len() - i,
        {
            if self.entries[i].0.same_as(key) {
                return Some(i);
            }
            i = i + 1;
        }
        None
    }

    /// Whether `key` has a claim.
    pub fn contains_key(&self, key: &Proof) -> (r: bool)
        requires
            self.wf(),
        ensures
            r == self@.contains_key(key@),
    {
        self.position(key).is_some()
    }

    /// The claim on `key`, if there is one.
    pub fn get(&self, key: &Proof) -> (r: Option<Claim>)
        requires
            self.wf(),
        ensures
            r == (if self@.contains_key(key@) {
                Some(self@[key@])
            } else {
                None::<Claim>
            }),
    {
        match self.position(key) {
            Some(i) => Some(self.entries[i].1),
            None => None,
        }
    }

    /// Records `claim` under `key`, replacing any claim that was there.
    pub fn insert(&mut self, key: Proof, claim: Claim)
        requires
            old(self).wf(),
        ensures
            final(self).wf(),
            final(self)@ == old(self)@.insert(key@, claim),
    {
        match self.position(&key) {
            Some(i) => {
                let ghost k = key@;
                self.entries.set(i, (key, claim));
                self.contents = Ghost(self.contents@.insert(k, claim));
                assert forall|k2: Seq<u8>| #[trigger] self.contents@.contains_key(k2) implies exists|j: int|
                    0 <= j < self.entries.len() && #[trigger] self.entries[j].0@ == k2 by {
                    if k2 != k {
                        let j = choose|j: int|
                            0 <= j < old(self).entries.len() && #[trigger] old(self).entries[j].0@ == k2;
                        assert(self.entries[j].0@ == k2);
                    } else {
                        assert(self.entries[i as int].0@ == k2);
                    }
                }
            },
            None => {
                let ghost k = key@;
                self.entries.push((key, claim));
                self.contents = Ghost(self.contents@.insert(k, claim));
                assert forall|k2: Seq<u8>| #[trigger] self.contents@.contains_key(k2) implies exists|j: int|
                    0 <= j < self.entries.len() && #[trigger] self.entries[j].0@ == k2 by {
                    if k2 != k {
                        let j = choose|j: int|
                            0 <= j < old(self).entries.len() && #[trigger] old(self).entries[j].0@ == k2;
                        assert(self.entries[j].0@ == k2);
                    } else {
                        assert(self.entries[old(self).entries.len() as int].0@ == k2);
                    }
                }
            },
        }
    }

    /// Deletes the claim on `key`, if there is one.
    pub fn remove(&mut self, key: &Proof)
        requires
            old(self).wf(),
        ensures
            final(self).wf(),
            final(self)@ == old(self)@.remove(key@),
    {
        match self.position(key) {
            Some(i) => {
                let ghost old_entries = self.entries@;
                self.entries.remove(i);
                self.contents = Ghost(self.contents@.remove(key@));
                assert forall|k2: Seq<u8>| #[trigger] self.contents@.contains_key(k2) implies exists|j: int|
                    0 <= j < self.entries.len() && #[trigger] self.entries[j].0@ == k2 by {
                    let j = choose|j: int|
                        0 <= j < old_entries.len() && #[trigger] old_entries[j].0@ == k2;
                    if j < i {
                        assert(self.entries[j].0@ == k2);
                    } else {
                        assert(self.entries[j - 1].0@ == k2);
                    }
                }
            },
            None => {
                assert(self.contents@.remove(key@) =~= self.contents@);
            },
        }
    }
}

} // verus!
