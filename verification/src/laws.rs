//! The slashing-protection laws, stated and proved once and for all.
//!
//! The evaluator's and coordinator's contracts already pin their results
//! down; the proof functions here state the safety consequences a caller
//! actually relies on, over the same spec functions those contracts use.

use vstd::prelude::*;

use crate::coordinator::apply_record;
use crate::evaluator::{
    attestation_conflicts, block_conflicts, spec_is_slashable_attestation, spec_is_slashable_block,
    spec_is_slashable_message,
};
use crate::messages::SigningMessage;
use crate::records::{HistoryModel, SignedAttestationRecord, SignedBlockRecord};
use crate::store::SlashingProtectionStore;

verus! {

/// Block progression: against any history, a candidate whose slot strictly
/// exceeds every recorded block slot is not slashable — so a key that signs
/// blocks at strictly increasing slots is never refused — while a candidate
/// at or below any recorded slot is slashable.
pub proof fn lemma_block_progression(blocks: Seq<SignedBlockRecord>, candidate: u64)
    ensures
        (forall|i: int| 0 <= i < blocks.len() ==> (#[trigger] blocks[i]).slot < candidate)
            ==> !spec_is_slashable_block(blocks, candidate),
        (exists|i: int| 0 <= i < blocks.len() && candidate <= (#[trigger] blocks[i]).slot)
            ==> spec_is_slashable_block(blocks, candidate),
{
    if exists|i: int| 0 <= i < blocks.len() && candidate <= (#[trigger] blocks[i]).slot {
        let i = choose|i: int| 0 <= i < blocks.len() && candidate <= (#[trigger] blocks[i]).slot;
        assert(block_conflicts(blocks[i], candidate));
    }
}

/// Attestation rules: a candidate that repeats a recorded target epoch
/// (double vote), surrounds a recorded span, or is surrounded by one, is
/// slashable; a candidate that does none of these against any record is not.
pub proof fn lemma_attestation_rules(atts: Seq<SignedAttestationRecord>, source: u64, target: u64)
    ensures
        (exists|i: int|
            0 <= i < atts.len() && (#[trigger] atts[i]).target_epoch == target)
            ==> spec_is_slashable_attestation(atts, source, target),
        (exists|i: int|
            0 <= i < atts.len() && source < (#[trigger] atts[i]).source_epoch
                && atts[i].target_epoch < target)
            ==> spec_is_slashable_attestation(atts, source, target),
        (exists|i: int|
            0 <= i < atts.len() && (#[trigger] atts[i]).source_epoch < source
                && target < atts[i].target_epoch)
            ==> spec_is_slashable_attestation(atts, source, target),
        (forall|i: int|
            0 <= i < atts.len() ==> !attestation_conflicts(#[trigger] atts[i], source, target))
            ==> !spec_is_slashable_attestation(atts, source, target),
{
    if exists|i: int| 0 <= i < atts.len() && (#[trigger] atts[i]).target_epoch == target {
        let i = choose|i: int| 0 <= i < atts.len() && (#[trigger] atts[i]).target_epoch == target;
        assert(attestation_conflicts(atts[i], source, target));
    }
    if exists|i: int|
        0 <= i < atts.len() && source < (#[trigger] atts[i]).source_epoch && atts[i].target_epoch
            < target {
        let i = choose|i: int|
            0 <= i < atts.len() && source < (#[trigger] atts[i]).source_epoch
                && atts[i].target_epoch < target;
        assert(attestation_conflicts(atts[i], source, target));
    }
    if exists|i: int|
        0 <= i < atts.len() && (#[trigger] atts[i]).source_epoch < source && target
            < atts[i].target_epoch {
        let i = choose|i: int|
            0 <= i < atts.len() && (#[trigger] atts[i]).source_epoch < source && target
                < atts[i].target_epoch;
        assert(attestation_conflicts(atts[i], source, target));
    }
}

/// Mutual exclusion for blocks: once the record of a block proposal at
/// `slot` is in a key's history, every later candidate at a conflicting
/// slot — the same slot, or any earlier one — is slashable. Requests for one
/// key are serialized on the store's exclusive borrow, so of several
/// conflicting requests only the first to commit can ever be signed.
pub proof fn lemma_recorded_block_excludes_conflicts(
    m: HistoryModel,
    slot: u64,
    signing_root: [u8; 32],
    msg: SigningMessage,
    candidate: u64,
)
    requires
        msg == (SigningMessage::BlockV1 { slot }) || msg == (SigningMessage::BlockV2 { slot }),
        candidate <= slot,
    ensures
        spec_is_slashable_block(apply_record(m, msg, signing_root).blocks, candidate),
{
    let recorded = apply_record(m, msg, signing_root).blocks;
    assert(block_conflicts(recorded[recorded.len() - 1], candidate));
}

/// Mutual exclusion for attestations: once the record of an attestation for
/// `(source_epoch, target_epoch)` is in a key's history, every later
/// candidate that double-votes its target or surrounds it either way is
/// slashable.
pub proof fn lemma_recorded_attestation_excludes_conflicts(
    m: HistoryModel,
    source_epoch: u64,
    target_epoch: u64,
    signing_root: [u8; 32],
    candidate_source: u64,
    candidate_target: u64,
)
    requires
        ({
            ||| candidate_target == target_epoch
            ||| candidate_source < source_epoch && target_epoch < candidate_target
            ||| source_epoch < candidate_source && candidate_target < target_epoch
        }),
    ensures
        spec_is_slashable_attestation(
            apply_record(
                m,
                SigningMessage::Attestation { source_epoch, target_epoch },
                signing_root,
            ).attestations,
            candidate_source,
            candidate_target,
        ),
{
    let recorded = apply_record(
        m,
        SigningMessage::Attestation { source_epoch, target_epoch },
        signing_root,
    ).attestations;
    assert(attestation_conflicts(recorded[recorded.len() - 1], candidate_source, candidate_target));
}

/// `candidate` conflicts with a block proposal recorded at `slot`: it is a
/// block proposal at the same or an earlier slot.
pub open spec fn block_candidate_conflicts(slot: u64, candidate: SigningMessage) -> bool {
    match candidate {
        SigningMessage::BlockV1 { slot: candidate_slot } => candidate_slot <= slot,
        SigningMessage::BlockV2 { slot: candidate_slot } => candidate_slot <= slot,
        _ => false,
    }
}

/// `candidate` conflicts with an attestation recorded for
/// `(source_epoch, target_epoch)`: a double vote on its target, or a
/// surround vote in either direction.
pub open spec fn attestation_candidate_conflicts(
    source_epoch: u64,
    target_epoch: u64,
    candidate: SigningMessage,
) -> bool {
    match candidate {
        SigningMessage::Attestation {
            source_epoch: candidate_source,
            target_epoch: candidate_target,
        } => {
            ||| candidate_target == target_epoch
            ||| candidate_source < source_epoch && target_epoch < candidate_target
            ||| source_epoch < candidate_source && candidate_target < target_epoch
        },
        _ => false,
    }
}

/// Signing `candidate` after `recorded` would be an equivocation.
pub open spec fn messages_conflict(recorded: SigningMessage, candidate: SigningMessage) -> bool {
    match recorded {
        SigningMessage::BlockV1 { slot } => block_candidate_conflicts(slot, candidate),
        SigningMessage::BlockV2 { slot } => block_candidate_conflicts(slot, candidate),
        SigningMessage::Attestation { source_epoch, target_epoch } => attestation_candidate_conflicts(
            source_epoch,
            target_epoch,
            candidate,
        ),
        SigningMessage::Other => false,
    }
}

/// Mutual exclusion across requests: once a store holds the record of
/// `recorded` for a key, the evaluation that every later request for that
/// key must pass reports any conflicting candidate slashable. Requests for
/// one key are serialized on the store's exclusive borrow, so of several
/// mutually conflicting requests at most the first to commit is ever signed,
/// however the rest interleave.
pub proof fn lemma_committed_record_excludes_conflicting_requests(
    store: SlashingProtectionStore,
    key: Seq<u8>,
    m: HistoryModel,
    recorded: SigningMessage,
    signing_root: [u8; 32],
    candidate: SigningMessage,
)
    requires
        store.stored(key) == Some(apply_record(m, recorded, signing_root)),
        messages_conflict(recorded, candidate),
    ensures
        spec_is_slashable_message(store.loaded(key), candidate),
{
    match recorded {
        SigningMessage::BlockV1 { slot } => {
            match candidate {
                SigningMessage::BlockV1 { slot: candidate_slot } => {
                    lemma_recorded_block_excludes_conflicts(
                        m,
                        slot,
                        signing_root,
                        recorded,
                        candidate_slot,
                    );
                },
                SigningMessage::BlockV2 { slot: candidate_slot } => {
                    lemma_recorded_block_excludes_conflicts(
                        m,
                        slot,
                        signing_root,
                        recorded,
                        candidate_slot,
                    );
                },
                _ => {},
            }
        },
        SigningMessage::BlockV2 { slot } => {
            match candidate {
                SigningMessage::BlockV1 { slot: candidate_slot } => {
                    lemma_recorded_block_excludes_conflicts(
                        m,
                        slot,
                        signing_root,
                        recorded,
                        candidate_slot,
                    );
                },
                SigningMessage::BlockV2 { slot: candidate_slot } => {
                    lemma_recorded_block_excludes_conflicts(
                        m,
                        slot,
                        signing_root,
                        recorded,
                        candidate_slot,
                    );
                },
                _ => {},
            }
        },
        SigningMessage::Attestation { source_epoch, target_epoch } => {
            match candidate {
                SigningMessage::Attestation {
                    source_epoch: candidate_source,
                    target_epoch: candidate_target,
                } => {
                    lemma_recorded_attestation_excludes_conflicts(
                        m,
                        source_epoch,
                        target_epoch,
                        signing_root,
                        candidate_source,
                        candidate_target,
                    );
                },
                _ => {},
            }
        },
        SigningMessage::Other => {},
    }
}

} // verus!
