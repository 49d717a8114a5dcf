//! The signing-request coordinator.
//!
//! One request runs through evaluate, record, persist, sign. The evaluation
//! and the in-memory commit of the protection record are done here, against
//! the store, while the store is held exclusively; the two outside steps —
//! making the committed record durable and invoking the cryptographic signer
//! — happen between the stages, and their results are handed back into
//! `after_persistence` and `after_signer`. The stage contracts enforce the
//! fail-safe order: a signature can only be requested from the `ReadyToSign`
//! stage, and a slashable-capable message reaches it only after its record
//! was committed and reported durable. A failure before the cryptographic
//! step always ends in a rejection, never a signature.

use vstd::prelude::*;

use crate::evaluator::{is_slashable_message, spec_is_slashable_message};
use crate::keys::ValidatorKey;
use crate::messages::SigningMessage;
use crate::records::{HistoryModel, SignedAttestationRecord, SignedBlockRecord};
use crate::store::{SlashingProtectionStore, StoreError};

verus! {

/// Why the protection subsystem refused to act.
#[derive(Clone, Copy, Debug, PartialEq, Eq, Structural)]
pub enum ProtectionError {
    /// The key has no provisioned history and the policy forbids creating
    /// one on first use.
    UnknownKey,
    /// Only block proposals and attestations belong in the protection
    /// history.
    NotSlashableKind,
}

impl ProtectionError {
    /// A human-readable reason, for the rejection taxonomy.
    pub fn describe(&self) -> String {
        match *self {
            ProtectionError::UnknownKey => "no slashing protection history exists for this key".to_owned(),
            ProtectionError::NotSlashableKind => "only block proposals and attestations are recorded".to_owned(),
        }
    }
}

/// The result of one signing request: exactly one variant per request.
#[derive(Debug)]
pub enum SigningOutcome {
    /// The signature bytes returned by the signer.
    Signed(Vec<u8>),
    /// Signing would have been an equivocation; nothing was signed.
    RejectedSlashable,
    /// The request itself was unparseable or carried a bad key identifier.
    RejectedMalformed(String),
    /// The protection history could not be read or made durable.
    RejectedStoreFailure(String),
    /// The signer failed after the protection record was already durable.
    RejectedCryptoFailure(String),
}

/// Where a request stands after the evaluate-and-record stage.
#[derive(Debug)]
pub enum RequestStage {
    /// Terminal: the request was refused before any signing could happen.
    Rejected(SigningOutcome),
    /// The protection record is committed in the store; it must be made
    /// durable before the signer may run.
    NeedsPersistence,
    /// Nothing further guards the signature: invoke the signer.
    ReadyToSign,
}

/// The history `m` after recording that `msg` was authorized with
/// `signing_root`.
pub open spec fn apply_record(m: HistoryModel, msg: SigningMessage, signing_root: [u8; 32]) -> HistoryModel {
    match msg {
        SigningMessage::BlockV1 { slot } => HistoryModel {
            blocks: m.blocks.push(SignedBlockRecord { slot, signing_root: Some(signing_root) }),
            ..m
        },
        SigningMessage::BlockV2 { slot } => HistoryModel {
            blocks: m.blocks.push(SignedBlockRecord { slot, signing_root: Some(signing_root) }),
            ..m
        },
        SigningMessage::Attestation { source_epoch, target_epoch } => HistoryModel {
            attestations: m.attestations.push(
                SignedAttestationRecord { source_epoch, target_epoch, signing_root: Some(signing_root) },
            ),
            ..m
        },
        SigningMessage::Other => m,
    }
}

/// Answers whether `signing_data` is a block proposal or attestation that
/// would be an equivocation for the key's recorded history. Fails only when
/// the key's history cannot be loaded under the store's policy.
pub fn is_slashable(
    store: &SlashingProtectionStore,
    bls_pk_hex: &ValidatorKey,
    signing_data: &SigningMessage,
) -> (r: Result<bool, ProtectionError>)
    ensures
        r is Ok <==> !store.rejects_key(bls_pk_hex@),
        r matches Ok(b) ==> b == spec_is_slashable_message(store.loaded(bls_pk_hex@), *signing_data),
        r matches Err(e) ==> e == ProtectionError::UnknownKey,
{
    let history = match store.read(bls_pk_hex) {
        Ok(h) => h,
        Err(StoreError::UnknownKey) => {
            return Err(ProtectionError::UnknownKey);
        },
    };
    Ok(is_slashable_message(&history, signing_data))
}

/// Appends the record of `signing_data` — with the signing root that is
/// about to be signed — to the key's history and writes the history back.
/// Appending does not re-check slashability: that is `is_slashable`'s job.
/// Fails when the key's history cannot be loaded under the store's policy,
/// or when the message kind carries no slashing risk and so has no place in
/// the history.
pub fn update_slash_protection_db(
    store: &mut SlashingProtectionStore,
    bls_pk_hex: &ValidatorKey,
    signing_data: &SigningMessage,
    signing_root: [u8; 32],
) -> (r: Result<(), ProtectionError>)
    requires
        signing_data.wf(),
    ensures
        r is Ok <==> (!old(store).rejects_key(bls_pk_hex@) && signing_data.is_slashable_kind()),
        r is Ok ==> final(store).stored(bls_pk_hex@) == Some(
            apply_record(old(store).loaded(bls_pk_hex@), *signing_data, signing_root),
        ),
        forall|k2: Seq<u8>| k2 != bls_pk_hex@ ==> final(store).stored(k2) == old(store).stored(k2),
        r is Err ==> *final(store) == *old(store),
        old(store).rejects_key(bls_pk_hex@) ==> r == Result::<(), ProtectionError>::Err(
            ProtectionError::UnknownKey,
        ),
        !old(store).rejects_key(bls_pk_hex@) && !signing_data.is_slashable_kind() ==> r
            == Result::<(), ProtectionError>::Err(ProtectionError::NotSlashableKind),
        final(store).spec_growable() == old(store).spec_growable(),
{
    let mut history = match store.read(bls_pk_hex) {
        Ok(h) => h,
        Err(StoreError::UnknownKey) => {
            return Err(ProtectionError::UnknownKey);
        },
    };
    match *signing_data {
        SigningMessage::BlockV1 { slot } => {
            history.record_block(SignedBlockRecord { slot, signing_root: Some(signing_root) });
            store.write(bls_pk_hex, history);
            Ok(())
        },
        SigningMessage::BlockV2 { slot } => {
            history.record_block(SignedBlockRecord { slot, signing_root: Some(signing_root) });
            store.write(bls_pk_hex, history);
            Ok(())
        },
        SigningMessage::Attestation { source_epoch, target_epoch } => {
            history.record_attestation(
                SignedAttestationRecord { source_epoch, target_epoch, signing_root: Some(signing_root) },
            );
            store.write(bls_pk_hex, history);
            Ok(())
        },
        SigningMessage::Other => Err(ProtectionError::NotSlashableKind),
    }
}

/// Runs the evaluate-and-record stage of one request, holding the store
/// exclusively: loads the key's history, refuses the request if the store's
/// policy refuses the key or if signing would be an equivocation, and
/// otherwise commits the protection record for slashable-capable kinds.
/// A slashable-capable message never comes out `ReadyToSign` here: it must
/// first pass `after_persistence`, so no signature can be requested before
/// its record is durable.
pub fn begin_request(
    store: &mut SlashingProtectionStore,
    key: &ValidatorKey,
    msg: &SigningMessage,
    signing_root: [u8; 32],
) -> (r: RequestStage)
    requires
        msg.wf(),
    ensures
        old(store).rejects_key(key@) ==> (r matches RequestStage::Rejected(o)
            && o is RejectedStoreFailure && *final(store) == *old(store)),
        !old(store).rejects_key(key@) && spec_is_slashable_message(old(store).loaded(key@), *msg)
            ==> (r matches RequestStage::Rejected(o) && o is RejectedSlashable && *final(store)
            == *old(store)),
        !old(store).rejects_key(key@) && !spec_is_slashable_message(old(store).loaded(key@), *msg)
            && msg.is_slashable_kind() ==> r is NeedsPersistence && final(store).stored(key@)
            == Some(apply_record(old(store).loaded(key@), *msg, signing_root)),
        !old(store).rejects_key(key@) && !spec_is_slashable_message(old(store).loaded(key@), *msg)
            && !msg.is_slashable_kind() ==> r is ReadyToSign && *final(store) == *old(store),
        msg.is_slashable_kind() ==> !(r is ReadyToSign),
        forall|k2: Seq<u8>| k2 != key@ ==> final(store).stored(k2) == old(store).stored(k2),
        final(store).spec_growable() == old(store).spec_growable(),
{
    match is_slashable(store, key, msg) {
        Err(e) => RequestStage::Rejected(SigningOutcome::RejectedStoreFailure(e.describe())),
        Ok(true) => RequestStage::Rejected(SigningOutcome::RejectedSlashable),
        Ok(false) => {
            if msg.can_be_slashed() {
                match update_slash_protection_db(store, key, msg, signing_root) {
                    Ok(()) => RequestStage::NeedsPersistence,
                    Err(e) => RequestStage::Rejected(
                        SigningOutcome::RejectedStoreFailure(e.describe()),
                    ),
                }
            } else {
                RequestStage::ReadyToSign
            }
        },
    }
}

/// Consumes the result of making the committed record durable. Only a
/// reported success moves the request on to the signer; a persistence
/// failure is terminal, so a signature never exists without its durable
/// protection record.
pub fn after_persistence(stage: RequestStage, persist_result: Result<(), String>) -> (r: RequestStage)
    requires
        stage is NeedsPersistence,
    ensures
        r is ReadyToSign <==> persist_result is Ok,
        persist_result matches Err(reason) ==> r == RequestStage::Rejected(
            SigningOutcome::RejectedStoreFailure(reason),
        ),
{
    match stage {
        RequestStage::NeedsPersistence => match persist_result {
            Ok(_) => RequestStage::ReadyToSign,
            Err(reason) => RequestStage::Rejected(SigningOutcome::RejectedStoreFailure(reason)),
        },
        _ => stage,
    }
}

/// Resolves the request into its outcome once persistence, if any was
/// needed, has been accounted for. A rejected stage keeps its rejection,
/// whatever the signer said. `Signed` arises here and only here, and only
/// from `ReadyToSign` with a successful signer result; a signer failure
/// after the record is durable is surfaced, which errs on the safe side —
/// the slot or epoch pair stays used even though no signature came back.
pub fn after_signer(stage: RequestStage, sign_result: Result<Vec<u8>, String>) -> (r: SigningOutcome)
    requires
        !(stage is NeedsPersistence),
        stage matches RequestStage::Rejected(o) ==> !(o is Signed),
    ensures
        r is Signed <==> (stage is ReadyToSign && sign_result is Ok),
        stage matches RequestStage::Rejected(o) ==> r == o,
        sign_result matches Ok(signature) ==> (stage is ReadyToSign ==> r
            == SigningOutcome::Signed(signature)),
        sign_result matches Err(reason) ==> (stage is ReadyToSign ==> r
            == SigningOutcome::RejectedCryptoFailure(reason)),
{
    match stage {
        RequestStage::Rejected(o) => o,
        _ => match sign_result {
            Ok(signature) => SigningOutcome::Signed(signature),
            Err(reason) => SigningOutcome::RejectedCryptoFailure(reason),
        },
    }
}

} // verus!
