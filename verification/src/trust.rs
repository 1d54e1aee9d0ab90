//! The trust store: which verifying keys may have their bundles admitted.
//!
//! A small mapping from a human label to 32 verifying-key bytes, populated
//! from configuration at startup plus the host's own key.  Writes are rare;
//! admission reads it on every bundle, by key bytes and not by label.

use vstd::prelude::*;

use crate::crypto_utils::bytes_eq;

verus! {

/// One trusted signer: a label and the verifying-key bytes it stands for.
pub struct TrustEntry {
    pub label: String,
    pub key: Vec<u8>,
}

/// The set of keys whose bundles may be admitted.  At most one entry per
/// label; adding under a taken label replaces that entry.
pub struct TrustStore {
    entries: Vec<TrustEntry>,
}

impl View for TrustStore {
    type V = Seq<(Seq<char>, Seq<u8>)>;

    closed spec fn view(&self) -> Seq<(Seq<char>, Seq<u8>)> {
        self.entries@.map_values(|e: TrustEntry| (e.label@, e.key@))
    }
}

/// Whether some entry carries this label.
pub open spec fn spec_has_label(entries: Seq<(Seq<char>, Seq<u8>)>, label: Seq<char>) -> bool {
    exists|i: int| 0 <= i < entries.len() && entries[i].0 == label
}

impl TrustStore {
    /// At most one entry per label.
    pub open spec fn wf(&self) -> bool {
        forall|i: int, j: int|
            #![trigger self@[i], self@[j]]
            0 <= i < j < self@.len() ==> self@[i].0 != self@[j].0
    }

    /// Whether some entry carries these key bytes.
    pub open spec fn spec_contains_key(&self, key: Seq<u8>) -> bool {
        exists|i: int| 0 <= i < self@.len() && self@[i].1 == key
    }

    /// An empty store.
    pub fn new() -> (store: TrustStore)
        ensures
            store@ == Seq::<(Seq<char>, Seq<u8>)>::empty(),
            store.wf(),
    {
        let store = TrustStore { entries: Vec::new() };
        proof {
            assert(store@ =~= Seq::<(Seq<char>, Seq<u8>)>::empty());
        }
        store
    }

    /// How many signers the store holds.
    pub fn len(&self) -> (n: usize)
        ensures
            n == self@.len(),
    {
        self.entries.len()
    }

    /// Adds a signer under a label; a taken label has its entry replaced.
    pub fn add(&mut self, label: String, key: Vec<u8>)
        requires
            old(self).wf(),
        ensures
            final(self).wf(),
            spec_has_label(old(self)@, label@) ==> exists|j: int|
                0 <= j < old(self)@.len() && old(self)@[j].0 == label@ && final(self)@ == old(
                    self,
                )@.update(j, (label@, key@)),
            !spec_has_label(old(self)@, label@) ==> final(self)@ == old(self)@.push(
                (label@, key@),
            ),
    {
        let n = self.entries.len();
        let mut i: usize = 0;
        while i < n
            invariant
                self == old(self),
                old(self).wf(),
                n == self.entries@.len(),
                0 <= i <= n,
                forall|j: int| 0 <= j < i ==> self@[j].0 != label@,
            decreases n - i,
        {
            if self.entries[i].label == label {
                self.entries.set(i, TrustEntry { label, key });
                proof {
                    assert(self@ =~= old(self)@.update(i as int, (label@, key@)));
                    assert(old(self)@[i as int].0 == label@);
                    assert forall|p: int, q: int|
                        0 <= p < q < self@.len() implies self@[p].0 != self@[q].0 by {
                        assert(old(self)@[p].0 != old(self)@[q].0);
                        assert(self@[p].0 == old(self)@[p].0);
                        assert(self@[q].0 == old(self)@[q].0);
                    }
                }
                return ;
            }
            i = i + 1;
        }
        assert(!spec_has_label(self@, label@));
        self.entries.push(TrustEntry { label, key });
        proof {
            assert(self@ =~= old(self)@.push((label@, key@)));
        }
    }

    /// Whether these key bytes belong to a trusted signer: a linear scan, as
    /// the store stays small.
    pub fn contains(&self, public_key_bytes: &[u8]) -> (trusted: bool)
        ensures
            trusted == self.spec_contains_key(public_key_bytes@),
    {
        let n = self.entries.len();
        let mut i: usize = 0;
        while i < n
            invariant
                n == self.entries@.len(),
                0 <= i <= n,
                forall|j: int| 0 <= j < i ==> self@[j].1 != public_key_bytes@,
            decreases n - i,
        {
            if bytes_eq(self.entries[i].key.as_slice(), public_key_bytes) {
                proof {
                    assert(self@[i as int].1 == public_key_bytes@);
                }
                return true;
            }
            i = i + 1;
        }
        false
    }
}

} // verus!
