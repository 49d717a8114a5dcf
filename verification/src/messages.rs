//! The signable message model.
//!
//! A request carries one message of a closed set of kinds. Only block
//! proposals and attestations carry slashing risk; every other kind is a
//! pass-through that is signed without touching the protection history. The
//! variants carry exactly the fields the slashing rules read; deriving the
//! signing root from the full wire message is the boundary layer's job.

use vstd::prelude::*;

verus! {

/// One signable message, tagged by kind. The set of kinds is closed on
/// purpose: every slashing-relevant decision matches on it exhaustively, so
/// a new kind forces those decision points to be revisited.
#[derive(Clone, Copy)]
pub enum SigningMessage {
    /// A phase-0 block proposal.
    BlockV1 { slot: u64 },
    /// A later-fork block proposal; only the header's slot matters here.
    BlockV2 { slot: u64 },
    /// An attestation with its source and target checkpoints.
    Attestation { source_epoch: u64, target_epoch: u64 },
    /// Any message kind that carries no slashing risk.
    Other,
}

impl SigningMessage {
    /// An attestation message never votes for a target before its source.
    pub open spec fn wf(&self) -> bool {
        *self matches SigningMessage::Attestation { source_epoch, target_epoch }
            ==> source_epoch <= target_epoch
    }

    /// This kind of message can ever be slashable.
    pub open spec fn is_slashable_kind(&self) -> bool {
        match *self {
            SigningMessage::BlockV1 { .. } => true,
            SigningMessage::BlockV2 { .. } => true,
            SigningMessage::Attestation { .. } => true,
            SigningMessage::Other => false,
        }
    }

    /// Whether signing this message must first pass, and then be recorded in,
    /// the protection history.
    pub fn can_be_slashed(&self) -> (r: bool)
        ensures
            r == self.is_slashable_kind(),
    {
        match *self {
            SigningMessage::BlockV1 { .. } => true,
            SigningMessage::BlockV2 { .. } => true,
            SigningMessage::Attestation { .. } => true,
            SigningMessage::Other => false,
        }
    }
}

} // verus!
