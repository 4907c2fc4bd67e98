use zeroclaw_core::access::{AccessPlan, ControlPlaneError, WorkspaceView};
use zeroclaw_core::engine::{normalize_actor_role, normalize_approver_role, ControlPlaneStore};
use zeroclaw_core::policy::{ActionPolicyRequest, ActionReceipt, ApprovalStatus, ReceiptResult};

fn request(
    actor_id: &str,
    actor_role: &str,
    action: &str,
    resource: &str,
    destination: &str,
    approval_id: Option<String>,
) -> ActionPolicyRequest {
    ActionPolicyRequest {
        actor_id: actor_id.into(),
        actor_role: actor_role.into(),
        action: action.into(),
        resource: resource.into(),
        destination: destination.into(),
        approval_id,
        occurred_at: None,
        context: Vec::new(),
    }
}

#[test]
fn trial_allows_personal_and_org_views() {
    let mut store = ControlPlaneStore::for_workspace("workspace-a");
    let mut access = store.start_trial().unwrap();

    assert!(access.can_access_view(&WorkspaceView::Personal));
    assert!(access.can_access_view(&WorkspaceView::Org));

    access.set_paid_plan(AccessPlan::Personal).unwrap();
    assert!(access.can_access_view(&WorkspaceView::Personal));
    assert!(!access.can_access_view(&WorkspaceView::Org));
}

#[test]
fn operator_enable_actions_require_approval() {
    let mut store = ControlPlaneStore::for_workspace("workspace-a");
    let _ = store.start_trial().unwrap();

    let decision = store
        .evaluate_action(request(
            "operator-a",
            "operator",
            "integration.enable",
            "integration:slack",
            "api.slack.com",
            None,
        ))
        .unwrap();

    assert!(!decision.allowed);
    assert!(decision.requires_approval);
    assert!(decision.approval_id.is_some());
}

#[test]
fn approved_action_replay_is_allowed() {
    let mut store = ControlPlaneStore::for_workspace("workspace-a");
    let _ = store.start_trial().unwrap();

    let initial = store
        .evaluate_action(request(
            "operator-a",
            "operator",
            "integration.enable",
            "integration:slack",
            "api.slack.com",
            None,
        ))
        .unwrap();

    let approval_id = initial.approval_id.clone().unwrap();
    let _ = store
        .resolve_approval(&approval_id, "admin", true, Some("approved".into()))
        .unwrap();

    let replay = store
        .evaluate_action(request(
            "operator-a",
            "operator",
            "integration.enable",
            "integration:slack",
            "api.slack.com",
            Some(approval_id),
        ))
        .unwrap();

    assert!(replay.allowed);
    assert!(!replay.requires_approval);
}

#[test]
fn unmatched_request_is_denied_with_exact_reason() {
    let mut store = ControlPlaneStore::for_workspace("workspace-a");
    let _ = store.start_trial().unwrap();

    let decision = store
        .evaluate_action(request(
            "stranger",
            "contractor",
            "runtime.start",
            "agent",
            "local",
            None,
        ))
        .unwrap();

    assert!(!decision.allowed);
    assert!(!decision.requires_approval);
    assert_eq!(decision.reason, "no matching policy rule");
}

#[test]
fn governed_request_parks_a_pending_approval() {
    let mut store = ControlPlaneStore::for_workspace("workspace-a");
    let _ = store.start_trial().unwrap();

    let decision = store
        .evaluate_action(request(
            "operator-a",
            "operator",
            "mcp.install",
            "mcp:linear",
            "mcp.linear.app",
            None,
        ))
        .unwrap();

    assert_eq!(decision.reason, "action requires approval");
    let approval_id = decision.approval_id.unwrap();
    assert_eq!(approval_id.len(), 36);

    let pending = store.list_approvals(true).unwrap();
    assert_eq!(pending.len(), 1);
    assert_eq!(pending[0].id, approval_id);
    assert!(matches!(pending[0].status, ApprovalStatus::Pending));
    assert_eq!(pending[0].resource, "mcp:linear");
}

#[test]
fn replay_with_mismatched_resource_is_denied() {
    let mut store = ControlPlaneStore::for_workspace("workspace-a");
    let _ = store.start_trial().unwrap();

    let initial = store
        .evaluate_action(request(
            "operator-a",
            "operator",
            "integration.enable",
            "integration:slack",
            "api.slack.com",
            None,
        ))
        .unwrap();
    let approval_id = initial.approval_id.unwrap();
    let _ = store
        .resolve_approval(&approval_id, "admin", true, None)
        .unwrap();

    let replay = store
        .evaluate_action(request(
            "operator-a",
            "operator",
            "integration.enable",
            "integration:teams",
            "api.slack.com",
            Some(approval_id.clone()),
        ))
        .unwrap();

    assert!(!replay.allowed);
    assert!(!replay.requires_approval);
    assert_eq!(replay.reason, "approval does not match action request");

    let again = store
        .evaluate_action(request(
            "operator-a",
            "operator",
            "integration.enable",
            "integration:slack",
            "api.slack.com",
            Some(approval_id),
        ))
        .unwrap();
    assert!(again.allowed);
}

#[test]
fn rejected_and_pending_replays_are_not_allowed() {
    let mut store = ControlPlaneStore::for_workspace("workspace-a");
    let _ = store.start_trial().unwrap();

    let first = store
        .evaluate_action(request(
            "operator-a",
            "operator",
            "skills.install",
            "skill:summarizer",
            "local",
            None,
        ))
        .unwrap();
    let pending_id = first.approval_id.unwrap();

    let still_pending = store
        .evaluate_action(request(
            "operator-a",
            "operator",
            "skills.install",
            "skill:summarizer",
            "local",
            Some(pending_id.clone()),
        ))
        .unwrap();
    assert!(!still_pending.allowed);
    assert!(still_pending.requires_approval);
    assert_eq!(still_pending.reason, "approval is still pending");

    let _ = store
        .resolve_approval(&pending_id, "owner", false, Some("not needed".into()))
        .unwrap();
    let rejected = store
        .evaluate_action(request(
            "operator-a",
            "operator",
            "skills.install",
            "skill:summarizer",
            "local",
            Some(pending_id),
        ))
        .unwrap();
    assert!(!rejected.allowed);
    assert_eq!(rejected.reason, "approval rejected");

    let unknown = store
        .evaluate_action(request(
            "operator-a",
            "operator",
            "skills.install",
            "skill:summarizer",
            "local",
            Some("no-such-approval".into()),
        ))
        .unwrap();
    assert!(!unknown.allowed);
    assert_eq!(unknown.reason, "approval not found");
}

#[test]
fn resolving_requires_owner_or_admin_and_a_known_id() {
    let mut store = ControlPlaneStore::for_workspace("workspace-a");
    let _ = store.start_trial().unwrap();

    let err = store
        .resolve_approval("whatever", "viewer", true, None)
        .unwrap_err();
    assert!(matches!(err, ControlPlaneError::NotAuthorized));
    assert_eq!(err.message(), "only owner/admin can resolve approvals");

    let err = store
        .resolve_approval("missing-id", "admin", true, None)
        .unwrap_err();
    assert!(matches!(err, ControlPlaneError::ApprovalNotFound { .. }));
    assert_eq!(err.message(), "approval 'missing-id' not found");
}

#[test]
fn paid_plan_restricts_the_active_view() {
    let mut store = ControlPlaneStore::for_workspace("workspace-a");
    let _ = store.set_paid_plan(AccessPlan::Personal).unwrap();

    let err = store.set_active_view(WorkspaceView::Org).unwrap_err();
    assert!(matches!(
        err,
        ControlPlaneError::ViewNotAllowed {
            view: WorkspaceView::Org
        }
    ));
    assert_eq!(err.message(), "current plan does not allow 'org' view");

    let ok = store.set_active_view(WorkspaceView::Personal).unwrap();
    assert!(matches!(ok.active_view, WorkspaceView::Personal));
}

#[test]
fn expired_trial_denies_evaluation() {
    let mut store = ControlPlaneStore::for_workspace("workspace-a");
    store.state.access_state.trial_started_at = Some("2000-01-01T00:00:00+00:00".into());
    store.state.access_state.trial_expires_at = Some("2000-01-02T00:00:00+00:00".into());

    let decision = store
        .evaluate_action(request("owner-1", "owner", "logs.read", "agent", "local", None))
        .unwrap();
    assert!(!decision.allowed);
    assert_eq!(
        decision.reason,
        "access plan does not permit the current workspace view"
    );
}

fn receipt_at(index: usize, timestamp: &str) -> ActionReceipt {
    ActionReceipt {
        id: format!("receipt-{index}"),
        timestamp: timestamp.into(),
        actor_id: "operator-a".into(),
        actor_role: "operator".into(),
        action: "logs.read".into(),
        resource: "agent".into(),
        destination: "local".into(),
        result: ReceiptResult::Allowed,
        reason: "policy allowed".into(),
        context: Vec::new(),
    }
}

#[test]
fn receipts_stay_bounded_and_newest_first() {
    let mut store = ControlPlaneStore::for_workspace("workspace-a");
    let _ = store.start_trial().unwrap();
    for i in 0..10_000 {
        store
            .state
            .receipts
            .push(receipt_at(i, "2024-05-01T00:00:00+00:00"));
    }
    assert_eq!(store.state.receipts.len(), 10_000);

    let decision = store
        .evaluate_action(request("owner-1", "owner", "logs.read", "agent", "local", None))
        .unwrap();

    assert_eq!(store.state.receipts.len(), 10_000);
    assert_eq!(store.state.receipts[0].id, decision.receipt_id);
    assert_eq!(store.state.receipts[1].id, "receipt-0");

    let listed = store.list_receipts(2).unwrap();
    assert_eq!(listed.len(), 2);
    assert_eq!(listed[0].id, decision.receipt_id);

    let clamped = store.list_receipts(0).unwrap();
    assert_eq!(clamped.len(), 1);
}

#[test]
fn purge_drops_expired_records_but_keeps_unparsable_ones() {
    let mut store = ControlPlaneStore::for_workspace("workspace-a");
    let _ = store.start_trial().unwrap();
    let retention = store.set_retention(0, 0).unwrap();
    assert_eq!(retention.receipts_days, 1);
    assert_eq!(retention.approvals_days, 1);

    store
        .state
        .receipts
        .push(receipt_at(0, "2000-01-01T00:00:00+00:00"));
    store.state.receipts.push(receipt_at(1, "not a timestamp"));

    let summary = store.purge_by_retention().unwrap();
    assert_eq!(summary.removed_receipts, 1);
    assert_eq!(summary.removed_approvals, 0);
    assert_eq!(store.state.receipts.len(), 1);
    assert_eq!(store.state.receipts[0].timestamp, "not a timestamp");
}

#[test]
fn governed_slack_integration_flow_is_approved_then_allowed() {
    let mut store = ControlPlaneStore::for_workspace("workspace-a");
    let _ = store.start_trial().unwrap();

    let first = store
        .evaluate_action(request(
            "operator-a",
            "operator",
            "integration.enable",
            "integration:slack",
            "api.slack.com",
            None,
        ))
        .unwrap();
    assert!(first.requires_approval);
    let approval_id = first.approval_id.unwrap();

    let approved = store
        .resolve_approval(&approval_id, "admin", true, None)
        .unwrap();
    assert!(matches!(approved.status, ApprovalStatus::Approved));
    assert_eq!(approved.decided_by.as_deref(), Some("admin"));

    let replay = store
        .evaluate_action(request(
            "operator-a",
            "operator",
            "integration.enable",
            "integration:slack",
            "api.slack.com",
            Some(approval_id),
        ))
        .unwrap();
    assert!(replay.allowed);
    assert_eq!(replay.reason, "approved action");
}

#[test]
fn caller_roles_are_normalized_onto_the_canonical_set() {
    assert_eq!(normalize_actor_role(None), "owner");
    assert_eq!(normalize_actor_role(Some("".into())), "owner");
    assert_eq!(normalize_actor_role(Some("  Admin ".into())), "owner");
    assert_eq!(normalize_actor_role(Some("OWNER".into())), "owner");
    assert_eq!(normalize_actor_role(Some("Manager".into())), "admin");
    assert_eq!(normalize_actor_role(Some("user".into())), "operator");
    assert_eq!(normalize_actor_role(Some("Operator".into())), "operator");
    assert_eq!(normalize_actor_role(Some("observer".into())), "viewer");
    assert_eq!(normalize_actor_role(Some("Viewer".into())), "viewer");
    assert_eq!(normalize_actor_role(Some("auditor".into())), "auditor");

    assert_eq!(normalize_approver_role("ADMIN"), "owner");
    assert_eq!(normalize_approver_role(" manager"), "admin");
    assert_eq!(normalize_approver_role(""), "owner");
    assert_eq!(normalize_approver_role("operator"), "operator");
}
