use zeroclaw_core::mcp::{
    validate_config, validate_identifier, McpConnectorConfig, McpConnectorInstallRequest,
    McpConnectorStore,
};
use zeroclaw_core::registry::{
    IntegrationPermissionContract, IntegrationRegistryStore, RegistryError,
};
use zeroclaw_core::skills::{default_skill_manifest, SkillInstallRequest, SkillsRegistryStore};

fn slack_contract() -> IntegrationPermissionContract {
    IntegrationPermissionContract {
        integration_id: "slack".into(),
        can_access: vec!["messages.read".into()],
        can_do: vec!["messages.send".into()],
        data_destinations: vec!["api.slack.com".into()],
    }
}

#[test]
fn install_then_enable_requires_explicit_approval() {
    let mut store = IntegrationRegistryStore::for_workspace("workspace-a");

    store.install(slack_contract());

    assert!(store.enable("slack", false).is_err());

    let enabled = store.enable("slack", true).unwrap();
    assert!(enabled.enabled);
}

#[test]
fn integration_disable_and_missing_ids() {
    let mut store = IntegrationRegistryStore::for_workspace("workspace-a");
    store.install(slack_contract());
    let _ = store.enable("slack", true).unwrap();

    let disabled = store.disable("slack").unwrap();
    assert!(!disabled.enabled);

    assert!(matches!(
        store.enable("github", true),
        Err(RegistryError::NotInstalled { .. })
    ));
    assert!(matches!(
        store.disable("github"),
        Err(RegistryError::NotInstalled { .. })
    ));
    assert!(matches!(
        store.enable("slack", false),
        Err(RegistryError::ConsentRequired)
    ));
}

#[test]
fn reinstalling_an_integration_keeps_enablement_and_replaces_the_contract() {
    let mut store = IntegrationRegistryStore::for_workspace("workspace-a");
    store.install(slack_contract());
    let _ = store.enable("slack", true).unwrap();

    let mut wider = slack_contract();
    wider.can_do.push("channels.manage".into());
    let updated = store.install(wider);

    assert!(updated.enabled);
    assert_eq!(updated.contract.can_do.len(), 2);
    assert_eq!(store.registry.records.len(), 1);
}

fn linear_request() -> McpConnectorInstallRequest {
    McpConnectorInstallRequest {
        connector_id: "linear".into(),
        display_name: "Linear MCP".into(),
        config: McpConnectorConfig {
            transport: "sse".into(),
            endpoint: Some("https://mcp.linear.app/sse".into()),
            command: None,
            args: vec![],
            env_secret_ids: vec!["linear_api_key".into()],
            timeout_secs: Some(30),
        },
        contract: IntegrationPermissionContract {
            integration_id: "mcp:linear".into(),
            can_access: vec!["issues.read".into()],
            can_do: vec!["issues.update".into()],
            data_destinations: vec!["mcp.linear.app".into()],
        },
    }
}

#[test]
fn mcp_install_enable_disable_remove_flow() {
    let mut store = McpConnectorStore::for_workspace("workspace-a");

    let installed = store.install(linear_request()).unwrap();
    assert_eq!(installed.connector_id, "linear");
    assert!(!installed.enabled);

    assert!(store.enable("linear", false).is_err());
    assert!(store.enable("linear", true).unwrap().enabled);

    let updated = store
        .update_config(
            "linear",
            McpConnectorConfig {
                transport: "stdio".into(),
                endpoint: None,
                command: Some("npx".into()),
                args: vec!["-y".into(), "@modelcontextprotocol/server-linear".into()],
                env_secret_ids: vec!["linear_api_key".into()],
                timeout_secs: Some(60),
            },
        )
        .unwrap();
    assert_eq!(updated.config.transport, "stdio");

    let disabled = store.disable("linear").unwrap();
    assert!(!disabled.enabled);

    store.remove("linear").unwrap();
    assert_eq!(store.registry.records.len(), 0);
    assert!(matches!(
        store.remove("linear"),
        Err(RegistryError::NotInstalled { .. })
    ));
}

#[test]
fn connector_configs_must_fit_their_transport() {
    let mut config = McpConnectorConfig {
        transport: "stdio".into(),
        endpoint: None,
        command: None,
        args: vec![],
        env_secret_ids: vec![],
        timeout_secs: None,
    };
    assert!(validate_config(&config).is_err());

    config.command = Some("npx".into());
    assert!(validate_config(&config).is_ok());

    config.transport = " SSE ".into();
    assert!(validate_config(&config).is_err());
    config.endpoint = Some("https://example.com/sse".into());
    assert!(validate_config(&config).is_ok());

    config.transport = "carrier-pigeon".into();
    assert!(matches!(
        validate_config(&config),
        Err(RegistryError::InvalidConfig { .. })
    ));
}

#[test]
fn identifiers_reject_blanks_and_odd_characters() {
    assert!(validate_identifier("markdown_summarizer"));
    assert!(validate_identifier("skill-2"));
    assert!(!validate_identifier("   "));
    assert!(!validate_identifier("bad id"));
    assert!(!validate_identifier("bad/id"));

    let mut store = McpConnectorStore::for_workspace("workspace-a");
    let mut bad = linear_request();
    bad.connector_id = "bad id".into();
    assert!(matches!(
        store.install(bad),
        Err(RegistryError::InvalidIdentifier)
    ));
    let mut blank = linear_request();
    blank.display_name = "  ".into();
    assert!(matches!(
        store.install(blank),
        Err(RegistryError::EmptyDisplayName)
    ));
}

fn summarizer_request() -> SkillInstallRequest {
    SkillInstallRequest {
        skill_id: "markdown_summarizer".into(),
        display_name: "Markdown Summarizer".into(),
        source: "catalog".into(),
        version: "1.0.0".into(),
        manifest_markdown: None,
        contract: IntegrationPermissionContract {
            integration_id: "skill:markdown_summarizer".into(),
            can_access: vec!["workspace/files".into()],
            can_do: vec!["read markdown".into()],
            data_destinations: vec!["local-only".into()],
        },
    }
}

#[test]
fn skills_install_enable_disable_remove_flow() {
    let mut store = SkillsRegistryStore::for_workspace("workspace-a");

    let installed = store.install(summarizer_request()).unwrap();
    assert_eq!(installed.skill_id, "markdown_summarizer");
    assert!(!installed.enabled);
    assert_eq!(
        installed.skill_dir,
        "workspace-a/skills/markdown_summarizer"
    );

    assert!(store.enable("markdown_summarizer", false).is_err());
    assert!(store.enable("markdown_summarizer", true).unwrap().enabled);

    let disabled = store.disable("markdown_summarizer").unwrap();
    assert!(!disabled.enabled);

    store.remove("markdown_summarizer").unwrap();
    assert_eq!(store.registry.records.len(), 0);
}

#[test]
fn default_manifest_has_the_exact_expected_shape() {
    assert_eq!(
        default_skill_manifest("markdown_summarizer", "Markdown Summarizer"),
        "# Markdown Summarizer\n\nid: markdown_summarizer\n\nInstalled via ZeroClaw app.\n"
    );
}
