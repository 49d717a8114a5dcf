//! The slashability evaluator: a pure decision over a protection history and
//! a candidate message.
//!
//! A block candidate is slashable when its slot does not strictly increase
//! past every recorded block slot. An attestation candidate is slashable when
//! it repeats a recorded target epoch (double vote) or when its epoch span
//! strictly contains, or is strictly contained by, a recorded span (surround
//! vote). Message kinds other than blocks and attestations are never
//! slashable. The verdict is a function of the history and the candidate
//! alone: no hidden state, no side effects.
//!
//! A re-request for an already-used slot or epoch pair is conservatively
//! rejected even when it would re-sign the very same content: the rules here
//! never compare a candidate against a record's retained signing root. That
//! trades idempotent re-signing away for a simpler safety argument, and it
//! is a policy of this design, not an oversight.

use vstd::prelude::*;

use crate::messages::SigningMessage;
use crate::records::{HistoryModel, ProtectionHistory, SignedAttestationRecord, SignedBlockRecord};

verus! {

/// Signing a block at `slot` would conflict with the recorded block `rec`:
/// a validator signs at most one block per slot, only at increasing slots.
pub open spec fn block_conflicts(rec: SignedBlockRecord, slot: u64) -> bool {
    slot <= rec.slot
}

/// Casting an attestation for `(source, target)` would conflict with the
/// recorded attestation `rec`: a double vote on the same target, or either
/// direction of a surround vote.
pub open spec fn attestation_conflicts(rec: SignedAttestationRecord, source: u64, target: u64) -> bool {
    ||| rec.target_epoch == target
    ||| source < rec.source_epoch && rec.target_epoch < target
    ||| rec.source_epoch < source && target < rec.target_epoch
}

/// A block candidate at `slot` is slashable against `blocks`.
pub open spec fn spec_is_slashable_block(blocks: Seq<SignedBlockRecord>, slot: u64) -> bool {
    exists|i: int| 0 <= i < blocks.len() && block_conflicts(#[trigger] blocks[i], slot)
}

/// An attestation candidate `(source, target)` is slashable against `atts`.
pub open spec fn spec_is_slashable_attestation(
    atts: Seq<SignedAttestationRecord>,
    source: u64,
    target: u64,
) -> bool {
    exists|i: int| 0 <= i < atts.len() && attestation_conflicts(#[trigger] atts[i], source, target)
}

/// A message is slashable against the history `m`: the rule of its kind,
/// applied to the records of its kind; never for kinds without slashing risk.
pub open spec fn spec_is_slashable_message(m: HistoryModel, msg: SigningMessage) -> bool {
    match msg {
        SigningMessage::BlockV1 { slot } => spec_is_slashable_block(m.blocks, slot),
        SigningMessage::BlockV2 { slot } => spec_is_slashable_block(m.blocks, slot),
        SigningMessage::Attestation { source_epoch, target_epoch } => spec_is_slashable_attestation(
            m.attestations,
            source_epoch,
            target_epoch,
        ),
        SigningMessage::Other => false,
    }
}

/// Decides whether a block proposal at `slot` may be signed given `history`.
pub fn is_slashable_block(history: &ProtectionHistory, slot: u64) -> (r: bool)
    ensures
        r == spec_is_slashable_block(history@.blocks, slot),
{
    let blocks = history.blocks();
    let mut i: usize = 0;
    while i < blocks.len()
        invariant
            i <= blocks.len(),
            blocks@ == history@.blocks,
            forall|j: int| 0 <= j < i ==> !block_conflicts(#[trigger] blocks@[j], slot),
        decreases blocks.len() - i,
    {
        if slot <= blocks[i].slot {
            return true;
        }
        i = i + 1;
    }
    false
}

/// Decides whether an attestation for `(source, target)` may be signed given
/// `history`.
pub fn is_slashable_attestation(history: &ProtectionHistory, source: u64, target: u64) -> (r: bool)
    ensures
        r == spec_is_slashable_attestation(history@.attestations, source, target),
{
    let atts = history.attestations();
    let mut i: usize = 0;
    while i < atts.len()
        invariant
            i <= atts.len(),
            atts@ == history@.attestations,
            forall|j: int| 0 <= j < i ==> !attestation_conflicts(#[trigger] atts@[j], source, target),
        decreases atts.len() - i,
    {
        let rec = atts[i];
        if rec.target_epoch == target {
            return true;
        }
        if source < rec.source_epoch && rec.target_epoch < target {
            return true;
        }
        if rec.source_epoch < source && target < rec.target_epoch {
            return true;
        }
        i = i + 1;
    }
    false
}

/// Applies the rule of the message's kind to `history`; `Other` kinds are
/// never slashable and do not read the history at all.
pub fn is_slashable_message(history: &ProtectionHistory, msg: &SigningMessage) -> (r: bool)
    ensures
        r == spec_is_slashable_message(history@, *msg),
{
    match *msg {
        SigningMessage::BlockV1 { slot } => is_slashable_block(history, slot),
        SigningMessage::BlockV2 { slot } => is_slashable_block(history, slot),
        SigningMessage::Attestation { source_epoch, target_epoch } => is_slashable_attestation(
            history,
            source_epoch,
            target_epoch,
        ),
        SigningMessage::Other => false,
    }
}

} // verus!
