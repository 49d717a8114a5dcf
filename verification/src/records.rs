//! Protection records and the per-key protection history.
//!
//! A `ProtectionHistory` is the durable memory of everything slashing-relevant
//! a key has signed: one `SignedBlockRecord` per authorized block signature
//! and one `SignedAttestationRecord` per authorized attestation signature.
//! Blocks and attestations obey different equivocation rules, so they are
//! kept apart and are never merged into one ordering.

use vstd::prelude::*;

verus! {

/// One previously authorized block signature.
#[derive(Clone, Copy)]
pub struct SignedBlockRecord {
    /// The slot the block was proposed for.
    pub slot: u64,
    /// The digest that was signed, when the deployment retains it.
    pub signing_root: Option<[u8; 32]>,
}

/// One previously authorized attestation signature.
#[derive(Clone, Copy)]
pub struct SignedAttestationRecord {
    /// The justified epoch the attestation votes from.
    pub source_epoch: u64,
    /// The epoch the attestation votes for.
    pub target_epoch: u64,
    /// The digest that was signed, when the deployment retains it.
    pub signing_root: Option<[u8; 32]>,
}

impl SignedAttestationRecord {
    /// An attestation never votes for a target before its source.
    pub open spec fn wf(&self) -> bool {
        self.source_epoch <= self.target_epoch
    }
}

/// The mathematical content of a `ProtectionHistory`: the two record
/// sequences, ordered oldest first.
pub struct HistoryModel {
    pub blocks: Seq<SignedBlockRecord>,
    pub attestations: Seq<SignedAttestationRecord>,
}

impl HistoryModel {
    /// The history of a key that has signed nothing yet.
    pub open spec fn empty() -> HistoryModel {
        HistoryModel { blocks: Seq::empty(), attestations: Seq::empty() }
    }

    /// Every attestation record is well-formed.
    pub open spec fn wf(&self) -> bool {
        forall|i: int| 0 <= i < self.attestations.len() ==> (#[trigger] self.attestations[i]).wf()
    }
}

/// The protection history of one validator key. Values handed out by the
/// store are snapshots; the store's own copy changes only through its
/// `write` operation.
pub struct ProtectionHistory {
    blocks: Vec<SignedBlockRecord>,
    attestations: Vec<SignedAttestationRecord>,
}

impl View for ProtectionHistory {
    type V = HistoryModel;

    closed spec fn view(&self) -> HistoryModel {
        HistoryModel { blocks: self.blocks@, attestations: self.attestations@ }
    }
}

impl ProtectionHistory {
    /// A history with no records at all.
    pub fn new() -> (r: ProtectionHistory)
        ensures
            r@ == HistoryModel::empty(),
    {
        let r = ProtectionHistory { blocks: Vec::new(), attestations: Vec::new() };
        proof {
            assert(r@.blocks =~= HistoryModel::empty().blocks);
            assert(r@.attestations =~= HistoryModel::empty().attestations);
        }
        r
    }

    /// The recorded block signatures, oldest first.
    pub fn blocks(&self) -> (r: &Vec<SignedBlockRecord>)
        ensures
            r@ == self@.blocks,
    {
        &self.blocks
    }

    /// The recorded attestation signatures, oldest first.
    pub fn attestations(&self) -> (r: &Vec<SignedAttestationRecord>)
        ensures
            r@ == self@.attestations,
    {
        &self.attestations
    }

    /// Appends one block record. Appending does not itself check
    /// slashability: that is the evaluator's job, and the store's `read`
    /// enforces the growable policy before a history is ever handed out.
    pub fn record_block(&mut self, record: SignedBlockRecord)
        ensures
            final(self)@.blocks == old(self)@.blocks.push(record),
            final(self)@.attestations == old(self)@.attestations,
    {
        self.blocks.push(record);
    }

    /// Appends one attestation record; the counterpart of `record_block`.
    pub fn record_attestation(&mut self, record: SignedAttestationRecord)
        requires
            record.wf(),
        ensures
            final(self)@.blocks == old(self)@.blocks,
            final(self)@.attestations == old(self)@.attestations.push(record),
    {
        self.attestations.push(record);
    }

    /// An owned snapshot with the same records.
    pub fn duplicate(&self) -> (r: ProtectionHistory)
        ensures
            r@ == self@,
    {
        let mut blocks: Vec<SignedBlockRecord> = Vec::new();
        let mut i: usize = 0;
        while i < self.blocks.len()
            invariant
                i <= self.blocks.len(),
                blocks@ == self.blocks@.take(i as int),
            decreases self.blocks.len() - i,
        {
            blocks.push(self.blocks[i]);
            proof {
                assert(blocks@ =~= self.blocks@.take(i + 1));
            }
            i = i + 1;
        }
        let mut attestations: Vec<SignedAttestationRecord> = Vec::new();
        let mut j: usize = 0;
        while j < self.attestations.len()
            invariant
                j <= self.attestations.len(),
                attestations@ == self.attestations@.take(j as int),
            decreases self.attestations.len() - j,
        {
            attestations.push(self.attestations[j]);
            proof {
                assert(attestations@ =~= self.attestations@.take(j + 1));
            }
            j = j + 1;
        }
        let r = ProtectionHistory { blocks, attestations };
        proof {
            assert(r@.blocks =~= self@.blocks);
            assert(r@.attestations =~= self@.attestations);
        }
        r
    }
}

} // verus!
