use secure_signer::coordinator::{
    after_persistence, after_signer, begin_request, is_slashable, update_slash_protection_db,
    ProtectionError, RequestStage, SigningOutcome,
};
use secure_signer::evaluator::{is_slashable_attestation, is_slashable_block, is_slashable_message};
use secure_signer::keys::{normalize, KeyError, ValidatorKey};
use secure_signer::messages::SigningMessage;
use secure_signer::records::{ProtectionHistory, SignedAttestationRecord, SignedBlockRecord};
use secure_signer::store::{SlashingProtectionStore, StoreError};

fn key_of(hex_pair: &str) -> ValidatorKey {
    let raw = hex_pair.repeat(48);
    normalize(raw.as_bytes()).unwrap()
}

fn root() -> [u8; 32] {
    [7u8; 32]
}

fn block(slot: u64) -> SigningMessage {
    SigningMessage::BlockV1 { slot }
}

fn attestation(source_epoch: u64, target_epoch: u64) -> SigningMessage {
    SigningMessage::Attestation {
        source_epoch,
        target_epoch,
    }
}

/// Drives one request through every stage, standing in for the boundary
/// layer: persistence and the signer both succeed.
fn run_request(
    store: &mut SlashingProtectionStore,
    key: &ValidatorKey,
    msg: &SigningMessage,
) -> SigningOutcome {
    let stage = begin_request(store, key, msg, root());
    let stage = match stage {
        RequestStage::NeedsPersistence => after_persistence(stage, Ok(())),
        other => other,
    };
    match stage {
        RequestStage::ReadyToSign => after_signer(stage, Ok(vec![0xab, 0xcd])),
        other => after_signer(other, Err("signer never invoked".to_string())),
    }
}

#[test]
fn normalize_accepts_prefixed_uppercase() {
    let raw = format!("0x{}", "AB".repeat(48));
    let key = normalize(raw.as_bytes()).unwrap();
    assert_eq!(key.as_hex_bytes().as_slice(), "ab".repeat(48).as_bytes());
}

#[test]
fn normalize_is_case_insensitive() {
    let upper = key_of("AB");
    let lower = key_of("ab");
    assert!(upper == lower);
}

#[test]
fn normalize_rejects_wrong_length() {
    assert!(matches!(
        normalize("ab".repeat(47).as_bytes()),
        Err(KeyError::InvalidFormat)
    ));
    assert!(matches!(
        normalize("ab".repeat(49).as_bytes()),
        Err(KeyError::InvalidFormat)
    ));
    assert!(matches!(normalize(b""), Err(KeyError::InvalidFormat)));
}

#[test]
fn normalize_rejects_non_hex() {
    let raw = "zz".repeat(48);
    assert!(matches!(
        normalize(raw.as_bytes()),
        Err(KeyError::InvalidFormat)
    ));
}

#[test]
fn blocks_at_increasing_slots_never_slashable() {
    let mut history = ProtectionHistory::new();
    for slot in [1u64, 2, 3] {
        assert!(!is_slashable_block(&history, slot));
        history.record_block(SignedBlockRecord {
            slot,
            signing_root: Some(root()),
        });
    }
    assert!(!is_slashable_block(&history, 4));
    assert!(is_slashable_block(&history, 3));
    assert!(is_slashable_block(&history, 2));
    assert!(is_slashable_block(&history, 0));
}

#[test]
fn empty_history_allows_any_first_signature() {
    let history = ProtectionHistory::new();
    assert!(!is_slashable_block(&history, 0));
    assert!(!is_slashable_attestation(&history, 0, 0));
    assert!(!is_slashable_message(&history, &SigningMessage::Other));
}

#[test]
fn attestation_double_vote_is_slashable() {
    let mut history = ProtectionHistory::new();
    history.record_attestation(SignedAttestationRecord {
        source_epoch: 2,
        target_epoch: 5,
        signing_root: Some(root()),
    });
    assert!(is_slashable_attestation(&history, 3, 5));
}

#[test]
fn attestation_surround_votes_are_slashable_both_ways() {
    let mut history = ProtectionHistory::new();
    history.record_attestation(SignedAttestationRecord {
        source_epoch: 2,
        target_epoch: 5,
        signing_root: Some(root()),
    });
    // candidate surrounds the recorded vote
    assert!(is_slashable_attestation(&history, 1, 6));
    // candidate is surrounded by the recorded vote
    assert!(is_slashable_attestation(&history, 3, 4));
    // non-overlapping, non-double, non-surrounding candidates are allowed
    assert!(!is_slashable_attestation(&history, 3, 7));
    assert!(!is_slashable_attestation(&history, 6, 8));
    assert!(!is_slashable_attestation(&history, 2, 6));
}

#[test]
fn evaluator_verdict_is_repeatable() {
    let mut history = ProtectionHistory::new();
    history.record_block(SignedBlockRecord {
        slot: 10,
        signing_root: None,
    });
    let msg = block(10);
    let first = is_slashable_message(&history, &msg);
    let second = is_slashable_message(&history, &msg);
    assert_eq!(first, second);
    assert!(first);
}

#[test]
fn strict_store_rejects_unknown_key() {
    let store = SlashingProtectionStore::new(false);
    let key = key_of("ab");
    assert!(matches!(store.read(&key), Err(StoreError::UnknownKey)));
}

#[test]
fn growable_store_bootstraps_unknown_key() {
    let store = SlashingProtectionStore::new(true);
    let key = key_of("ab");
    let history = store.read(&key).unwrap();
    assert!(history.blocks().is_empty());
    assert!(history.attestations().is_empty());
}

#[test]
fn write_replaces_one_key_and_leaves_others() {
    let mut store = SlashingProtectionStore::new(false);
    let key_a = key_of("aa");
    let key_b = key_of("bb");
    let mut history_a = ProtectionHistory::new();
    history_a.record_block(SignedBlockRecord {
        slot: 3,
        signing_root: None,
    });
    store.write(&key_a, history_a);
    let mut history_b = ProtectionHistory::new();
    history_b.record_block(SignedBlockRecord {
        slot: 9,
        signing_root: None,
    });
    store.write(&key_b, history_b);

    let read_a = store.read(&key_a).unwrap();
    assert_eq!(read_a.blocks().len(), 1);
    assert_eq!(read_a.blocks()[0].slot, 3);
    let read_b = store.read(&key_b).unwrap();
    assert_eq!(read_b.blocks()[0].slot, 9);

    let mut replacement = ProtectionHistory::new();
    replacement.record_block(SignedBlockRecord {
        slot: 4,
        signing_root: None,
    });
    store.write(&key_a, replacement);
    assert_eq!(store.read(&key_a).unwrap().blocks()[0].slot, 4);
    assert_eq!(store.read(&key_b).unwrap().blocks()[0].slot, 9);
}

#[test]
fn is_slashable_fails_for_unknown_key_in_strict_mode() {
    let store = SlashingProtectionStore::new(false);
    let key = key_of("ab");
    assert!(matches!(
        is_slashable(&store, &key, &block(1)),
        Err(ProtectionError::UnknownKey)
    ));
}

#[test]
fn update_refuses_message_kinds_without_slashing_risk() {
    let mut store = SlashingProtectionStore::new(true);
    let key = key_of("ab");
    assert_eq!(
        update_slash_protection_db(&mut store, &key, &SigningMessage::Other, root()),
        Err(ProtectionError::NotSlashableKind)
    );
}

#[test]
fn update_commits_the_record_the_evaluator_sees() {
    let mut store = SlashingProtectionStore::new(true);
    let key = key_of("ab");
    assert_eq!(is_slashable(&store, &key, &block(10)), Ok(false));
    update_slash_protection_db(&mut store, &key, &block(10), root()).unwrap();
    assert_eq!(is_slashable(&store, &key, &block(10)), Ok(true));
    assert_eq!(is_slashable(&store, &key, &block(11)), Ok(false));
}

#[test]
fn block_scenario_sign_resign_advance() {
    let mut store = SlashingProtectionStore::new(true);
    let key = key_of("ab");
    assert!(matches!(
        run_request(&mut store, &key, &block(10)),
        SigningOutcome::Signed(_)
    ));
    assert!(matches!(
        run_request(&mut store, &key, &block(10)),
        SigningOutcome::RejectedSlashable
    ));
    assert!(matches!(
        run_request(&mut store, &key, &block(11)),
        SigningOutcome::Signed(_)
    ));
}

#[test]
fn attestation_scenario_surround_double_then_clear() {
    let mut store = SlashingProtectionStore::new(false);
    let key = key_of("ab");
    let mut provisioned = ProtectionHistory::new();
    provisioned.record_attestation(SignedAttestationRecord {
        source_epoch: 2,
        target_epoch: 5,
        signing_root: None,
    });
    store.write(&key, provisioned);

    assert!(matches!(
        run_request(&mut store, &key, &attestation(1, 6)),
        SigningOutcome::RejectedSlashable
    ));
    assert!(matches!(
        run_request(&mut store, &key, &attestation(3, 5)),
        SigningOutcome::RejectedSlashable
    ));
    assert!(matches!(
        run_request(&mut store, &key, &attestation(3, 7)),
        SigningOutcome::Signed(_)
    ));
}

#[test]
fn strict_mode_never_signs_for_unprovisioned_key() {
    let mut store = SlashingProtectionStore::new(false);
    let key = key_of("cd");
    for msg in [block(1), attestation(0, 1), SigningMessage::Other] {
        let outcome = run_request(&mut store, &key, &msg);
        assert!(matches!(outcome, SigningOutcome::RejectedStoreFailure(_)));
    }
}

#[test]
fn conflicting_requests_yield_exactly_one_signature() {
    let mut store = SlashingProtectionStore::new(true);
    let key = key_of("ab");
    let mut signed: u32 = 0;
    let mut rejected: u32 = 0;
    for _ in 0..4 {
        match run_request(&mut store, &key, &block(42)) {
            SigningOutcome::Signed(_) => signed += 1,
            SigningOutcome::RejectedSlashable => rejected += 1,
            other => panic!("unexpected outcome: {:?}", other),
        }
    }
    assert_eq!(signed, 1);
    assert_eq!(rejected, 3);
}

#[test]
fn persistence_failure_never_produces_a_signature() {
    let mut store = SlashingProtectionStore::new(true);
    let key = key_of("ab");
    let stage = begin_request(&mut store, &key, &block(10), root());
    assert!(matches!(stage, RequestStage::NeedsPersistence));
    let stage = after_persistence(stage, Err("disk full".to_string()));
    match stage {
        RequestStage::Rejected(SigningOutcome::RejectedStoreFailure(reason)) => {
            assert_eq!(reason, "disk full");
        }
        other => panic!("unexpected stage: {:?}", other),
    }
    // The record stays committed even though no signature was produced:
    // fail-safe bias prefers an unusable slot over a second signature.
    assert_eq!(is_slashable(&store, &key, &block(10)), Ok(true));
}

#[test]
fn signer_failure_surfaces_as_crypto_failure() {
    let mut store = SlashingProtectionStore::new(true);
    let key = key_of("ab");
    let stage = begin_request(&mut store, &key, &block(10), root());
    let stage = after_persistence(stage, Ok(()));
    let outcome = after_signer(stage, Err("key material unavailable".to_string()));
    match outcome {
        SigningOutcome::RejectedCryptoFailure(reason) => {
            assert_eq!(reason, "key material unavailable");
        }
        other => panic!("unexpected outcome: {:?}", other),
    }
}

#[test]
fn signed_outcome_carries_the_signature_bytes() {
    let mut store = SlashingProtectionStore::new(true);
    let key = key_of("ab");
    let stage = begin_request(&mut store, &key, &SigningMessage::Other, root());
    assert!(matches!(stage, RequestStage::ReadyToSign));
    let outcome = after_signer(stage, Ok(vec![1, 2, 3]));
    match outcome {
        SigningOutcome::Signed(signature) => assert_eq!(signature, vec![1, 2, 3]),
        other => panic!("unexpected outcome: {:?}", other),
    }
}

#[test]
fn non_slashable_kinds_skip_the_protection_history() {
    let mut store = SlashingProtectionStore::new(true);
    let key = key_of("ab");
    assert!(matches!(
        run_request(&mut store, &key, &SigningMessage::Other),
        SigningOutcome::Signed(_)
    ));
    // Nothing was recorded: a block at any slot is still allowed.
    let history = store.read(&key).unwrap();
    assert!(history.blocks().is_empty());
    assert!(history.attestations().is_empty());
}

#[test]
fn block_v2_shares_the_block_rule() {
    let mut store = SlashingProtectionStore::new(true);
    let key = key_of("ab");
    assert!(matches!(
        run_request(&mut store, &key, &SigningMessage::BlockV2 { slot: 5 }),
        SigningOutcome::Signed(_)
    ));
    assert!(matches!(
        run_request(&mut store, &key, &SigningMessage::BlockV1 { slot: 5 }),
        SigningOutcome::RejectedSlashable
    ));
}
