use zeroclaw_core::audit::{append_audit_event, verify_audit_log, AuditEvent};

fn event(n: usize) -> AuditEvent {
    AuditEvent {
        id: format!("audit-{n}"),
        timestamp: format!("2024-05-01T00:00:0{n}+00:00"),
        actor_id: "operator-a".into(),
        actor_role: "operator".into(),
        action: "integration.enable".into(),
        resource: "integration:slack".into(),
        destination: "api.slack.com".into(),
        result: "allowed".into(),
        reason: "approved action".into(),
        receipt_id: format!("receipt-{n}"),
        approval_id: if n == 0 { None } else { Some(format!("approval-{n}")) },
        prev_hash: String::new(),
        hash: String::new(),
    }
}

#[test]
fn empty_log_verifies() {
    let log: Vec<AuditEvent> = Vec::new();
    let verdict = verify_audit_log(&log);
    assert!(verdict.valid);
    assert_eq!(verdict.entries, 0);
    assert!(verdict.last_hash.is_none());
    assert!(verdict.error.is_none());
}

#[test]
fn appended_events_chain_and_verify() {
    let mut log: Vec<AuditEvent> = Vec::new();
    for n in 0..3 {
        append_audit_event(&mut log, event(n));
    }

    assert_eq!(log[0].prev_hash, "genesis");
    for i in 1..log.len() {
        assert_eq!(log[i].prev_hash, log[i - 1].hash);
    }
    for entry in &log {
        assert_eq!(entry.hash.len(), 64);
    }

    let verdict = verify_audit_log(&log);
    assert!(verdict.valid);
    assert_eq!(verdict.entries, 3);
    assert_eq!(verdict.last_hash.as_deref(), Some(log[2].hash.as_str()));
    assert!(verdict.error.is_none());
}

#[test]
fn flipping_one_character_is_detected_at_that_event() {
    let mut log: Vec<AuditEvent> = Vec::new();
    for n in 0..3 {
        append_audit_event(&mut log, event(n));
    }

    log[1].action = "integration.disable".into();

    let verdict = verify_audit_log(&log);
    assert!(!verdict.valid);
    assert_eq!(verdict.entries, 3);
    assert_eq!(
        verdict.error.as_deref(),
        Some("hash mismatch at event audit-1")
    );
    assert_eq!(verdict.last_hash.as_deref(), Some(log[0].hash.as_str()));
}

#[test]
fn breaking_a_chain_link_is_detected() {
    let mut log: Vec<AuditEvent> = Vec::new();
    for n in 0..3 {
        append_audit_event(&mut log, event(n));
    }

    log[2].prev_hash = "0000000000000000000000000000000000000000000000000000000000000000".into();

    let verdict = verify_audit_log(&log);
    assert!(!verdict.valid);
    assert_eq!(
        verdict.error.as_deref(),
        Some("chain mismatch at event audit-2")
    );
    assert_eq!(verdict.last_hash.as_deref(), Some(log[1].hash.as_str()));
}

#[test]
fn removing_an_event_breaks_the_chain() {
    let mut log: Vec<AuditEvent> = Vec::new();
    for n in 0..3 {
        append_audit_event(&mut log, event(n));
    }
    log.remove(1);

    let verdict = verify_audit_log(&log);
    assert!(!verdict.valid);
    assert_eq!(
        verdict.error.as_deref(),
        Some("chain mismatch at event audit-2")
    );
}
