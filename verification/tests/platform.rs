use zeroclaw_core::background::{
    AndroidBackgroundAdapter, DesktopBackgroundAdapter, IosBackgroundAdapter, PlatformBackground,
};
use zeroclaw_core::clock::parse_rfc3339_micros;
use zeroclaw_core::lifecycle::{is_valid_transition, AgentState, LifecycleController};
use zeroclaw_core::logs::LogSinkConfig;
use zeroclaw_core::pairing::{
    create_pairing_bundle, PairingRequest, PairingTransport, SnapshotSyncMode,
};
use zeroclaw_core::profiles::{slugify, ProfileManager, ProfileRecord, ProfilesIndex};
use zeroclaw_core::protocol::protocol_handshake;
use zeroclaw_core::secrets::KeyringSecretVault;

#[test]
fn mobile_adapters_expose_expected_capabilities() {
    let android = AndroidBackgroundAdapter;
    let ios = IosBackgroundAdapter;

    assert!(android.capabilities().requires_ongoing_notification);
    assert!(ios.capabilities().best_effort_only);
}

#[test]
fn desktop_adapter_keeps_its_paths() {
    let adapter = DesktopBackgroundAdapter::new(
        "workspace-a/config.toml".into(),
        "workspace-a".into(),
    );
    assert_eq!(adapter.config_path, "workspace-a/config.toml");
    assert_eq!(adapter.workspace_dir, "workspace-a");
}

#[test]
fn handshake_has_expected_versions() {
    let handshake = protocol_handshake();
    assert_eq!(handshake.core_protocol_version, "1.0.0");
    assert_eq!(handshake.event_schema_version, 1);
    assert_eq!(handshake.config_schema_version, 1);
}

#[test]
fn valid_transitions_are_accepted() {
    let mut lifecycle = LifecycleController::default();

    lifecycle.transition(AgentState::Starting, None).unwrap();
    lifecycle.transition(AgentState::Running, None).unwrap();
    lifecycle.transition(AgentState::Stopping, None).unwrap();
    lifecycle.transition(AgentState::Stopped, None).unwrap();

    assert!(matches!(lifecycle.snapshot().state, AgentState::Stopped));
}

#[test]
fn invalid_transition_is_rejected() {
    let mut lifecycle = LifecycleController::default();
    let err = lifecycle
        .transition(AgentState::Running, None)
        .unwrap_err();

    assert!(err.message().contains("invalid lifecycle transition"));
    assert_eq!(
        err.message(),
        "invalid lifecycle transition: stopped -> running"
    );
    assert!(!is_valid_transition(AgentState::Stopped, AgentState::Running));
    assert!(is_valid_transition(AgentState::Stopped, AgentState::Starting));
}

#[test]
fn timestamps_parse_and_order_as_instants() {
    let earlier = parse_rfc3339_micros("2024-05-01T00:00:00+00:00").unwrap();
    let later = parse_rfc3339_micros("2024-05-01T00:00:01+00:00").unwrap();
    assert_eq!(later - earlier, 1_000_000);
    assert!(parse_rfc3339_micros("not a timestamp").is_none());
}

#[test]
fn slugify_collapses_and_trims() {
    assert_eq!(slugify("Primary User"), "primary-user");
    assert_eq!(slugify("  --Fancy  Name!!"), "fancy-name");
    assert_eq!(slugify("a__b"), "a-b");
    assert_eq!(slugify("!!!"), "");
}

#[test]
fn profile_paths_and_index_transitions() {
    let manager = ProfileManager::new("root".into());
    assert_eq!(manager.root_dir(), "root");
    assert_eq!(manager.index_path(), "root/profiles.json");
    assert_eq!(manager.profiles_root(), "root/profiles");

    let mut index = ProfilesIndex::default();
    assert!(manager.get_active_profile(&index).is_none());

    index.register(ProfileRecord {
        id: "primary-user-1234".into(),
        display_name: "Primary User".into(),
        workspace_dir: "root/profiles/primary-user-1234".into(),
        created_at: "2024-05-01T00:00:00+00:00".into(),
        updated_at: "2024-05-01T00:00:00+00:00".into(),
    });
    index.register(ProfileRecord {
        id: "secondary-5678".into(),
        display_name: "Secondary".into(),
        workspace_dir: "root/profiles/secondary-5678".into(),
        created_at: "2024-05-01T00:00:00+00:00".into(),
        updated_at: "2024-05-01T00:00:00+00:00".into(),
    });
    assert_eq!(index.active_profile.as_deref(), Some("primary-user-1234"));

    let switched = index
        .switch_active("secondary-5678", "2024-05-02T00:00:00+00:00".into())
        .unwrap();
    assert_eq!(switched.id, "secondary-5678");
    assert_eq!(index.active_profile.as_deref(), Some("secondary-5678"));
    assert!(index.switch_active("missing", "now".into()).is_err());

    let active = manager.get_active_profile(&index).unwrap();
    assert_eq!(active.id, "secondary-5678");

    let workspace = manager
        .workspace_for_profile(&index, "secondary-5678")
        .unwrap();
    assert_eq!(workspace.root_dir, "root/profiles/secondary-5678");
    assert_eq!(
        workspace.config_path,
        "root/profiles/secondary-5678/config.toml"
    );
    assert_eq!(workspace.memory_dir, "root/profiles/secondary-5678/memory");
    assert_eq!(workspace.logs_dir, "root/profiles/secondary-5678/logs");
    assert_eq!(workspace.skills_dir, "root/profiles/secondary-5678/skills");
    assert!(manager.workspace_for_profile(&index, "missing").is_err());
}

#[test]
fn log_sink_config_uses_default_bounds() {
    let config = LogSinkConfig::new("workspace-a/logs".into());
    assert_eq!(config.dir, "workspace-a/logs");
    assert_eq!(config.max_file_bytes, 8 * 1024 * 1024);
    assert_eq!(config.max_files, 14);
}

#[test]
fn keyring_vault_builds_entry_usernames() {
    let vault = KeyringSecretVault::new("zeroclaw");
    assert_eq!(vault.service_name, "zeroclaw");
    assert_eq!(vault.entry_username("profile-a", "api_key"), "profile-a:api_key");
}

#[test]
fn pairing_bundle_contains_qr_payload() {
    let bundle = create_pairing_bundle(PairingRequest {
        hub_device: "mac_hub".into(),
        endpoint: "https://example.tailnet.ts.net".into(),
        transport: PairingTransport::Tailscale,
        expires_in_minutes: 15,
    });

    assert!(!bundle.access_token.is_empty());
    assert!(bundle.qr_payload.contains("access_token"));
    assert!(matches!(
        bundle.snapshot_sync_mode,
        SnapshotSyncMode::PlaceholderEncryptedSnapshot
    ));
}

#[test]
fn pairing_bundle_expiry_and_payload_are_exact() {
    let bundle = create_pairing_bundle(PairingRequest {
        hub_device: "mac_hub".into(),
        endpoint: "https://example.tailnet.ts.net".into(),
        transport: PairingTransport::Tailscale,
        expires_in_minutes: 0,
    });

    let created = parse_rfc3339_micros(&bundle.created_at).unwrap();
    let expires = parse_rfc3339_micros(&bundle.expires_at).unwrap();
    assert_eq!(expires - created, 60_000_000);
    assert_eq!(bundle.pairing_id.len(), 36);
    assert_eq!(bundle.access_token.len(), 43);

    let expected = format!(
        "{{\"pairing_id\":\"{}\",\"hub_device\":\"mac_hub\",\"endpoint\":\"https://example.tailnet.ts.net\",\"transport\":\"tailscale\",\"access_token\":\"{}\",\"expires_at\":\"{}\",\"snapshot_sync_mode\":\"placeholder_encrypted_snapshot\"}}",
        bundle.pairing_id, bundle.access_token, bundle.expires_at
    );
    assert_eq!(bundle.qr_payload, expected);
}
