use base64::Engine;
use ed25519_dalek::{Signer, SigningKey};
use zeroclaw_core::rollout::{
    next_rollout_ring, parse_signature_value, parse_signer_entry, release_signing_payload,
    validate_sha256_hex, ReleaseDescriptor, RolloutError, RolloutRing, RolloutStageRequest,
    RolloutState,
};

const CHECKSUM: &str = "0123456789abcdef0123456789abcdef0123456789abcdef0123456789abcdef";

fn signing_key(seed: u8) -> SigningKey {
    SigningKey::from_bytes(&[seed; 32])
}

fn signer_entry(id: &str, key: &SigningKey) -> String {
    format!(
        "{id}:{}",
        base64::engine::general_purpose::STANDARD.encode(key.verifying_key().to_bytes())
    )
}

fn fresh_state() -> RolloutState {
    RolloutState {
        version: 1,
        current_release: None,
        previous_release: None,
        staged_release: None,
        signature_required: false,
        trusted_signers: Vec::new(),
        last_verified_signer: None,
        last_promoted_at: None,
        last_verification_error: None,
        updated_at: "2024-05-01T00:00:00+00:00".into(),
    }
}

fn stage_request(signature: Option<String>) -> RolloutStageRequest {
    RolloutStageRequest {
        release_id: "rel-1".into(),
        version: "1.2.3".into(),
        checksum_sha256: CHECKSUM.into(),
        signature,
        sbom_checksum_sha256: None,
        ring: RolloutRing::Pilot,
    }
}

fn signed_payload(key: &SigningKey) -> String {
    let descriptor = ReleaseDescriptor {
        release_id: "rel-1".into(),
        version: "1.2.3".into(),
        checksum_sha256: CHECKSUM.into(),
        signature: None,
        sbom_checksum_sha256: None,
        ring: RolloutRing::Pilot,
        staged_at: String::new(),
    };
    let message = release_signing_payload(&descriptor);
    base64::engine::general_purpose::STANDARD.encode(key.sign(message.as_bytes()).to_bytes())
}

#[test]
fn signing_payload_has_the_exact_expected_shape() {
    let descriptor = ReleaseDescriptor {
        release_id: "rel-1".into(),
        version: "1.2.3".into(),
        checksum_sha256: "abc".into(),
        signature: None,
        sbom_checksum_sha256: Some("def".into()),
        ring: RolloutRing::Group,
        staged_at: String::new(),
    };
    assert_eq!(
        release_signing_payload(&descriptor),
        "release_id=rel-1\nversion=1.2.3\nchecksum_sha256=abc\nsbom_checksum_sha256=def\nring=group"
    );

    let bare = ReleaseDescriptor {
        sbom_checksum_sha256: None,
        ring: RolloutRing::Pilot,
        ..descriptor
    };
    assert_eq!(
        release_signing_payload(&bare),
        "release_id=rel-1\nversion=1.2.3\nchecksum_sha256=abc\nsbom_checksum_sha256=\nring=pilot"
    );
}

#[test]
fn checksum_validation_demands_64_hex_characters() {
    assert!(validate_sha256_hex(CHECKSUM));
    assert!(validate_sha256_hex(
        "0123456789ABCDEF0123456789ABCDEF0123456789ABCDEF0123456789ABCDEF"
    ));
    assert!(!validate_sha256_hex("abc"));
    assert!(!validate_sha256_hex(
        "0123456789abcdef0123456789abcdef0123456789abcdef0123456789abcdeg"
    ));
}

#[test]
fn signer_entries_parse_with_and_without_ids() {
    let key = signing_key(7);
    let entry = signer_entry("release-key", &key);
    let (id, bytes) = parse_signer_entry(&entry, 0).unwrap();
    assert_eq!(id, "release-key");
    assert_eq!(bytes, key.verifying_key().to_bytes().to_vec());

    let bare = base64::engine::general_purpose::STANDARD.encode(key.verifying_key().to_bytes());
    let (id, _) = parse_signer_entry(&bare, 2).unwrap();
    assert_eq!(id, "signer-3");

    assert!(matches!(
        parse_signer_entry("  ", 0),
        Err(RolloutError::SignerEmpty { index: 0 })
    ));
    assert!(matches!(
        parse_signer_entry(":AAAA", 1),
        Err(RolloutError::SignerKeyIdEmpty { index: 1 })
    ));
    assert!(matches!(
        parse_signer_entry("key:!!!", 0),
        Err(RolloutError::SignerKeyNotBase64 { index: 0 })
    ));
    assert!(matches!(
        parse_signer_entry("key:AAAA", 0),
        Err(RolloutError::SignerKeyWrongLength { index: 0 })
    ));
    let err = parse_signer_entry("key:AAAA", 4).unwrap_err();
    assert_eq!(err.message(), "trusted_signers[4] key must decode to 32 bytes");
}

#[test]
fn signature_values_parse_with_optional_hints() {
    let key = signing_key(9);
    let sig = signed_payload(&key);

    let (hint, bytes) = parse_signature_value(&sig).unwrap();
    assert!(hint.is_none());
    assert_eq!(bytes.len(), 64);

    let (hint, _) = parse_signature_value(&format!("release-key:{sig}")).unwrap();
    assert_eq!(hint.as_deref(), Some("release-key"));

    assert!(matches!(
        parse_signature_value(" "),
        Err(RolloutError::SignatureEmpty)
    ));
    assert!(matches!(
        parse_signature_value("AAAA"),
        Err(RolloutError::SignatureWrongLength)
    ));
    assert!(matches!(
        parse_signature_value("!!!"),
        Err(RolloutError::SignatureNotBase64)
    ));
}

#[test]
fn promotion_without_a_signature_policy_succeeds() {
    let mut state = fresh_state();
    state
        .stage_release(stage_request(None), "2024-05-02T00:00:00+00:00".into(), "2024-05-02T00:00:00+00:00".into())
        .unwrap();
    state.promote("2024-05-02T01:00:00+00:00".into()).unwrap();

    assert_eq!(state.current_release.as_ref().unwrap().release_id, "rel-1");
    assert!(state.staged_release.is_none());
    assert_eq!(
        state.last_verified_signer.as_deref(),
        Some("signature_not_required")
    );
}

#[test]
fn failed_verification_retains_the_staged_release() {
    let trusted = signing_key(1);
    let rogue = signing_key(2);
    let mut state = fresh_state();
    state
        .set_signing_policy(
            true,
            vec![signer_entry("release-key", &trusted)],
            "2024-05-02T00:00:00+00:00".into(),
        )
        .unwrap();
    state
        .stage_release(
            stage_request(Some(signed_payload(&rogue))),
            "2024-05-02T00:00:00+00:00".into(),
            "2024-05-02T00:00:00+00:00".into(),
        )
        .unwrap();

    let err = state.promote("2024-05-02T01:00:00+00:00".into()).unwrap_err();
    assert!(matches!(err, RolloutError::VerificationFailed));
    assert!(state.staged_release.is_some());
    assert_eq!(
        state.last_verification_error.as_deref(),
        Some("release signature verification failed for staged release")
    );
    assert!(state.current_release.is_none());
}

#[test]
fn verified_promotion_records_the_signer_and_rollback_restores() {
    let trusted = signing_key(1);
    let mut state = fresh_state();
    state
        .set_signing_policy(
            true,
            vec![signer_entry("release-key", &trusted)],
            "2024-05-02T00:00:00+00:00".into(),
        )
        .unwrap();

    state.current_release = Some(ReleaseDescriptor {
        release_id: "rel-0".into(),
        version: "1.0.0".into(),
        checksum_sha256: CHECKSUM.into(),
        signature: None,
        sbom_checksum_sha256: None,
        ring: RolloutRing::All,
        staged_at: "2024-04-01T00:00:00+00:00".into(),
    });

    state
        .stage_release(
            stage_request(Some(signed_payload(&trusted))),
            "2024-05-02T00:00:00+00:00".into(),
            "2024-05-02T00:00:00+00:00".into(),
        )
        .unwrap();
    state.promote("2024-05-02T01:00:00+00:00".into()).unwrap();

    assert_eq!(state.current_release.as_ref().unwrap().release_id, "rel-1");
    assert_eq!(state.previous_release.as_ref().unwrap().release_id, "rel-0");
    assert_eq!(state.last_verified_signer.as_deref(), Some("release-key"));
    assert!(state.staged_release.is_none());
    assert!(state.last_verification_error.is_none());

    state.rollback("2024-05-02T02:00:00+00:00".into()).unwrap();
    assert_eq!(state.current_release.as_ref().unwrap().release_id, "rel-0");
    assert_eq!(state.staged_release.as_ref().unwrap().release_id, "rel-1");
}

#[test]
fn promotion_with_nothing_staged_advances_the_ring() {
    let mut state = fresh_state();
    state
        .stage_release(stage_request(None), "now".into(), "now".into())
        .unwrap();
    state.promote("later".into()).unwrap();
    assert!(matches!(
        state.current_release.as_ref().unwrap().ring,
        RolloutRing::Pilot
    ));

    state.promote("later".into()).unwrap();
    assert!(matches!(
        state.current_release.as_ref().unwrap().ring,
        RolloutRing::Group
    ));
    state.promote("later".into()).unwrap();
    assert!(matches!(
        state.current_release.as_ref().unwrap().ring,
        RolloutRing::All
    ));
    state.promote("later".into()).unwrap();
    assert!(matches!(
        state.current_release.as_ref().unwrap().ring,
        RolloutRing::All
    ));

    assert!(matches!(
        next_rollout_ring(RolloutRing::Pilot),
        RolloutRing::Group
    ));
}

#[test]
fn empty_rollout_rejects_promotion_and_rollback() {
    let mut state = fresh_state();
    let err = state.promote("now".into()).unwrap_err();
    assert!(matches!(err, RolloutError::NothingToPromote));
    assert_eq!(
        err.message(),
        "no staged or current release available to promote"
    );

    let err = state.rollback("now".into()).unwrap_err();
    assert!(matches!(err, RolloutError::NoPreviousRelease));
}

#[test]
fn staging_validates_checksums_and_signature_shape() {
    let mut state = fresh_state();
    let mut bad = stage_request(None);
    bad.checksum_sha256 = "not-hex".into();
    assert!(matches!(
        state.stage_release(bad, "now".into(), "now".into()),
        Err(RolloutError::InvalidChecksum)
    ));

    let mut bad_sbom = stage_request(None);
    bad_sbom.sbom_checksum_sha256 = Some("short".into());
    assert!(matches!(
        state.stage_release(bad_sbom, "now".into(), "now".into()),
        Err(RolloutError::InvalidSbomChecksum)
    ));

    let bad_sig = stage_request(Some("AAAA".into()));
    assert!(matches!(
        state.stage_release(bad_sig, "now".into(), "now".into()),
        Err(RolloutError::SignatureWrongLength)
    ));
    assert!(state.staged_release.is_none());
}

#[test]
fn signing_policy_demands_signers_and_missing_signature_fails_closed() {
    let trusted = signing_key(1);
    let mut state = fresh_state();
    assert!(matches!(
        state.set_signing_policy(true, Vec::new(), "now".into()),
        Err(RolloutError::PolicyNeedsSigners)
    ));
    assert!(matches!(
        state.set_signing_policy(true, vec!["key:AAAA".into()], "now".into()),
        Err(RolloutError::SignerKeyWrongLength { index: 0 })
    ));

    state
        .set_signing_policy(true, vec![signer_entry("release-key", &trusted)], "now".into())
        .unwrap();
    state
        .stage_release(stage_request(None), "now".into(), "now".into())
        .unwrap();
    let err = state.promote("later".into()).unwrap_err();
    assert!(matches!(err, RolloutError::SignatureMissing));
    assert!(state.staged_release.is_some());
}

#[test]
fn loading_a_legacy_signing_policy_heals_it() {
    const LEGACY_REASON: &str =
        "legacy signer configuration detected; signing policy reset and requires reconfiguration";

    let mut state = fresh_state();
    state.signature_required = true;
    state.trusted_signers = vec!["not base64 at all".into()];
    state.normalize_loaded();

    assert!(!state.signature_required);
    assert!(state.trusted_signers.is_empty());
    assert_eq!(state.last_verification_error.as_deref(), Some(LEGACY_REASON));

    // One malformed entry poisons the whole policy, even beside a valid one.
    let trusted = signing_key(1);
    let mut mixed = fresh_state();
    mixed.signature_required = true;
    mixed.trusted_signers = vec![
        signer_entry("release-key", &trusted),
        "key:AAAA".into(),
    ];
    mixed.normalize_loaded();
    assert!(!mixed.signature_required);
    assert!(mixed.trusted_signers.is_empty());
    assert_eq!(mixed.last_verification_error.as_deref(), Some(LEGACY_REASON));

    // Requiring signatures with no signers at all is equally unusable.
    let mut empty = fresh_state();
    empty.signature_required = true;
    empty.normalize_loaded();
    assert!(!empty.signature_required);
    assert_eq!(empty.last_verification_error.as_deref(), Some(LEGACY_REASON));

    let mut healthy = fresh_state();
    healthy.signature_required = true;
    healthy.trusted_signers = vec![signer_entry("release-key", &trusted)];
    healthy.normalize_loaded();
    assert!(healthy.signature_required);
    assert_eq!(healthy.trusted_signers.len(), 1);
    assert!(healthy.last_verification_error.is_none());
}

#[test]
fn key_hints_restrict_which_signer_is_tried() {
    let first = signing_key(1);
    let second = signing_key(2);
    let mut state = fresh_state();
    state
        .set_signing_policy(
            true,
            vec![
                signer_entry("first-key", &first),
                signer_entry("second-key", &second),
            ],
            "now".into(),
        )
        .unwrap();

    state
        .stage_release(
            stage_request(Some(format!("second-key:{}", signed_payload(&second)))),
            "now".into(),
            "now".into(),
        )
        .unwrap();
    state.promote("later".into()).unwrap();
    assert_eq!(state.last_verified_signer.as_deref(), Some("second-key"));

    let mut hinted_wrong = fresh_state();
    hinted_wrong
        .set_signing_policy(
            true,
            vec![
                signer_entry("first-key", &first),
                signer_entry("second-key", &second),
            ],
            "now".into(),
        )
        .unwrap();
    hinted_wrong
        .stage_release(
            stage_request(Some(format!("first-key:{}", signed_payload(&second)))),
            "now".into(),
            "now".into(),
        )
        .unwrap();
    assert!(matches!(
        hinted_wrong.promote("later".into()),
        Err(RolloutError::VerificationFailed)
    ));
}
