//! The slashing-protection store: one protection history per validator key.
//!
//! The store is the single authority over protection state. `read` hands out
//! a snapshot of a key's history — or an empty one for an unseen key when the
//! growable policy allows bootstrapping — and `write` replaces a key's stored
//! history wholesale, so a reader never observes a half-applied change. The
//! growable flag is a deployment choice: strict deployments reject keys whose
//! history was never provisioned, growable ones initialize unseen keys on
//! first use.
//!
//! Because every mutation goes through `&mut self`, the whole
//! read-evaluate-record-write sequence of a request holds the store
//! exclusively: two requests for the same key can never interleave between
//! the slashability check and the write that commits its record.

use vstd::pervasive::VecAdditionalExecFns;
use vstd::prelude::*;

use crate::keys::ValidatorKey;
use crate::records::{HistoryModel, ProtectionHistory};

verus! {

/// Why a store operation failed.
#[derive(Clone, Copy, Debug, PartialEq, Eq, Structural)]
pub enum StoreError {
    /// The key has no provisioned history and the policy forbids creating
    /// one on first use.
    UnknownKey,
}

struct StoreEntry {
    key: ValidatorKey,
    history: ProtectionHistory,
}

/// The first stored history for `k` at or after position `i`, if any.
spec fn lookup_from(entries: Seq<StoreEntry>, k: Seq<u8>, i: int) -> Option<HistoryModel>
    decreases entries.len() - i,
{
    if i < 0 || i >= entries.len() {
        None
    } else if entries[i].key@ == k {
        Some(entries[i].history@)
    } else {
        lookup_from(entries, k, i + 1)
    }
}

/// The durable protection state, keyed by validator key.
pub struct SlashingProtectionStore {
    entries: Vec<StoreEntry>,
    growable: bool,
}

impl SlashingProtectionStore {
    /// The stored history of key `k`, if one exists.
    pub closed spec fn stored(&self, k: Seq<u8>) -> Option<HistoryModel> {
        lookup_from(self.entries@, k, 0)
    }

    /// Whether unseen keys may be initialized on first use.
    pub closed spec fn spec_growable(&self) -> bool {
        self.growable
    }

    /// The history a request for `k` works against: the stored one, or a
    /// fresh empty one for an unseen key.
    pub open spec fn loaded(&self, k: Seq<u8>) -> HistoryModel {
        match self.stored(k) {
            Some(m) => m,
            None => HistoryModel::empty(),
        }
    }

    /// `read` of key `k` fails: no history exists and the policy forbids
    /// bootstrapping one.
    pub open spec fn rejects_key(&self, k: Seq<u8>) -> bool {
        self.stored(k) is None && !self.spec_growable()
    }

    /// An empty store under the given growable policy.
    pub fn new(growable: bool) -> (r: SlashingProtectionStore)
        ensures
            r.spec_growable() == growable,
            forall|k: Seq<u8>| r.stored(k) is None,
    {
        SlashingProtectionStore { entries: Vec::new(), growable }
    }

    /// The growable policy this store was configured with.
    pub fn growable(&self) -> (r: bool)
        ensures
            r == self.spec_growable(),
    {
        self.growable
    }

    /// Loads the history of `key`: a snapshot of the stored one, an empty
    /// one for an unseen key under the growable policy, and `UnknownKey`
    /// for an unseen key under the strict policy.
    pub fn read(&self, key: &ValidatorKey) -> (r: Result<ProtectionHistory, StoreError>)
        ensures
            r is Ok <==> !self.rejects_key(key@),
            r matches Ok(h) ==> h@ == self.loaded(key@),
            r is Err ==> r == Result::<ProtectionHistory, StoreError>::Err(StoreError::UnknownKey),
    {
        let n = self.entries.len();
        let mut i: usize = 0;
        while i < n
            invariant
                i <= n,
                n == self.entries@.len(),
                lookup_from(self.entries@, key@, 0) == lookup_from(self.entries@, key@, i as int),
            decreases n - i,
        {
            if self.entries[i].key == *key {
                return Ok(self.entries[i].history.duplicate());
            }
            i = i + 1;
        }
        if self.growable {
            Ok(ProtectionHistory::new())
        } else {
            Err(StoreError::UnknownKey)
        }
    }

    /// Durably replaces the stored history of `key` with `history`, leaving
    /// every other key's history as it was. This is the only path that edits
    /// protection state; it also provisions a key's first history.
    pub fn write(&mut self, key: &ValidatorKey, history: ProtectionHistory)
        ensures
            final(self).stored(key@) == Some(history@),
            forall|k2: Seq<u8>| k2 != key@ ==> final(self).stored(k2) == old(self).stored(k2),
            final(self).spec_growable() == old(self).spec_growable(),
    {
        let n = self.entries.len();
        let mut i: usize = 0;
        while i < n
            invariant
                i <= n,
                n == self.entries@.len(),
                *self == *old(self),
                forall|j: int| 0 <= j < i ==> (#[trigger] self.entries@[j]).key@ != key@,
            decreases n - i,
        {
            if self.entries[i].key == *key {
                let entry = StoreEntry { key: key.clone(), history };
                let ghost old_entries = self.entries@;
                self.entries.set(i, entry);
                proof {
                    lemma_lookup_replace_match(old_entries, self.entries@, i as int, key@, 0);
                    assert forall|k2: Seq<u8>| k2 != key@ implies lookup_from(self.entries@, k2, 0)
                        == lookup_from(old_entries, k2, 0) by {
                        lemma_lookup_replace_other(old_entries, self.entries@, i as int, k2, 0);
                    }
                }
                return ;
            }
            i = i + 1;
        }
        let entry = StoreEntry { key: key.clone(), history };
        let ghost old_entries = self.entries@;
        self.entries.push(entry);
        proof {
            lemma_lookup_append(old_entries, self.entries@, key@, 0);
            assert forall|k2: Seq<u8>| k2 != key@ implies lookup_from(self.entries@, k2, 0)
                == lookup_from(old_entries, k2, 0) by {
                lemma_lookup_append_other(old_entries, self.entries@, k2, 0);
            }
        }
    }
}

/// Replacing the first entry whose key is `k` makes lookups of `k` find the
/// replacement.
proof fn lemma_lookup_replace_match(
    old_e: Seq<StoreEntry>,
    new_e: Seq<StoreEntry>,
    i: int,
    k: Seq<u8>,
    j: int,
)
    requires
        0 <= j <= i < old_e.len(),
        new_e.len() == old_e.len(),
        forall|m: int| 0 <= m < old_e.len() && m != i ==> new_e[m] == old_e[m],
        new_e[i].key@ == k,
        forall|m: int| 0 <= m < i ==> (#[trigger] old_e[m]).key@ != k,
    ensures
        lookup_from(new_e, k, j) == Some(new_e[i].history@),
    decreases i - j,
{
    if j < i {
        lemma_lookup_replace_match(old_e, new_e, i, k, j + 1);
    }
}

/// Replacing an entry whose key is not `k2`, by one whose key is not `k2`
/// either, leaves lookups of `k2` unchanged.
proof fn lemma_lookup_replace_other(
    old_e: Seq<StoreEntry>,
    new_e: Seq<StoreEntry>,
    i: int,
    k2: Seq<u8>,
    j: int,
)
    requires
        0 <= i < old_e.len(),
        0 <= j,
        new_e.len() == old_e.len(),
        forall|m: int| 0 <= m < old_e.len() && m != i ==> new_e[m] == old_e[m],
        old_e[i].key@ != k2,
        new_e[i].key@ != k2,
    ensures
        lookup_from(new_e, k2, j) == lookup_from(old_e, k2, j),
    decreases new_e.len() - j,
{
    if j < new_e.len() {
        lemma_lookup_replace_other(old_e, new_e, i, k2, j + 1);
    }
}

/// Appending an entry for a key that has no earlier entry makes lookups of
/// that key find it.
proof fn lemma_lookup_append(old_e: Seq<StoreEntry>, new_e: Seq<StoreEntry>, k: Seq<u8>, j: int)
    requires
        0 <= j <= old_e.len(),
        new_e.len() == old_e.len() + 1,
        forall|m: int| 0 <= m < old_e.len() ==> new_e[m] == old_e[m],
        new_e[old_e.len() as int].key@ == k,
        forall|m: int| 0 <= m < old_e.len() ==> (#[trigger] old_e[m]).key@ != k,
    ensures
        lookup_from(new_e, k, j) == Some(new_e[old_e.len() as int].history@),
    decreases new_e.len() - j,
{
    if j < old_e.len() {
        lemma_lookup_append(old_e, new_e, k, j + 1);
    }
}

/// Appending an entry for one key leaves lookups of every other key
/// unchanged.
proof fn lemma_lookup_append_other(
    old_e: Seq<StoreEntry>,
    new_e: Seq<StoreEntry>,
    k2: Seq<u8>,
    j: int,
)
    requires
        0 <= j,
        new_e.len() == old_e.len() + 1,
        forall|m: int| 0 <= m < old_e.len() ==> new_e[m] == old_e[m],
        new_e[old_e.len() as int].key@ != k2,
    ensures
        lookup_from(new_e, k2, j) == lookup_from(old_e, k2, j),
    decreases new_e.len() - j,
{
    if j < new_e.len() {
        lemma_lookup_append_other(old_e, new_e, k2, j + 1);
    }
}

} // verus!
