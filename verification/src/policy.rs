//! The declarative policy model: ordered rules matching an action request,
//! the decision and receipt each evaluation produces, and the approval
//! records the workflow creates and resolves. The specification functions
//! here define every state transition of the policy engine; the executable
//! engine in [`crate::engine`] is proved equal to them.

use crate::access::{can_access_view_at_spec, AccessState, AccessStateV, ControlPlaneErrorV};
use crate::clock::rfc3339_micros;
use vstd::prelude::*;

verus! {

/// Days of history kept for receipts and approvals.
#[derive(Debug, Clone, Copy, PartialEq, Eq, Structural)]
pub struct RetentionPolicy {
    pub receipts_days: u32,
    pub approvals_days: u32,
}

/// One declarative rule: filter lists over the request's coordinates (an
/// empty list or a `"*"` entry matches anything) and the verdict for
/// requests they all match.
#[derive(Debug)]
pub struct PolicyRule {
    pub id: String,
    pub actor_roles: Vec<String>,
    pub actions: Vec<String>,
    pub resources: Vec<String>,
    pub destinations: Vec<String>,
    pub require_approval: bool,
    pub enabled: bool,
}

#[verifier::ext_equal]
pub struct PolicyRuleV {
    pub id: Seq<char>,
    pub actor_roles: Seq<Seq<char>>,
    pub actions: Seq<Seq<char>>,
    pub resources: Seq<Seq<char>>,
    pub destinations: Seq<Seq<char>>,
    pub require_approval: bool,
    pub enabled: bool,
}

impl DeepView for PolicyRule {
    type V = PolicyRuleV;

    open spec fn deep_view(&self) -> PolicyRuleV {
        PolicyRuleV {
            id: self.id@,
            actor_roles: self.actor_roles.deep_view(),
            actions: self.actions.deep_view(),
            resources: self.resources.deep_view(),
            destinations: self.destinations.deep_view(),
            require_approval: self.require_approval,
            enabled: self.enabled,
        }
    }
}

/// One attempted privileged action, as the caller describes it.
#[derive(Debug)]
pub struct ActionPolicyRequest {
    pub actor_id: String,
    pub actor_role: String,
    pub action: String,
    pub resource: String,
    pub destination: String,
    pub approval_id: Option<String>,
    pub occurred_at: Option<String>,
    pub context: Vec<(String, String)>,
}

#[verifier::ext_equal]
pub struct ActionPolicyRequestV {
    pub actor_id: Seq<char>,
    pub actor_role: Seq<char>,
    pub action: Seq<char>,
    pub resource: Seq<char>,
    pub destination: Seq<char>,
    pub approval_id: Option<Seq<char>>,
    pub occurred_at: Option<Seq<char>>,
    pub context: Seq<(Seq<char>, Seq<char>)>,
}

impl DeepView for ActionPolicyRequest {
    type V = ActionPolicyRequestV;

    open spec fn deep_view(&self) -> ActionPolicyRequestV {
        ActionPolicyRequestV {
            actor_id: self.actor_id@,
            actor_role: self.actor_role@,
            action: self.action@,
            resource: self.resource@,
            destination: self.destination@,
            approval_id: self.approval_id.deep_view(),
            occurred_at: self.occurred_at.deep_view(),
            context: self.context.deep_view(),
        }
    }
}

/// The verdict for one evaluated request.
#[derive(Debug)]
pub struct ActionPolicyDecision {
    pub allowed: bool,
    pub requires_approval: bool,
    pub reason: String,
    pub approval_id: Option<String>,
    pub receipt_id: String,
}

#[verifier::ext_equal]
pub struct ActionPolicyDecisionV {
    pub allowed: bool,
    pub requires_approval: bool,
    pub reason: Seq<char>,
    pub approval_id: Option<Seq<char>>,
    pub receipt_id: Seq<char>,
}

impl DeepView for ActionPolicyDecision {
    type V = ActionPolicyDecisionV;

    open spec fn deep_view(&self) -> ActionPolicyDecisionV {
        ActionPolicyDecisionV {
            allowed: self.allowed,
            requires_approval: self.requires_approval,
            reason: self.reason@,
            approval_id: self.approval_id.deep_view(),
            receipt_id: self.receipt_id@,
        }
    }
}

#[derive(Debug, Clone, Copy, PartialEq, Eq, Structural)]
pub enum ReceiptResult {
    Allowed,
    Denied,
    PendingApproval,
}

/// The immutable record of one decision, kept newest-first in the bounded
/// receipt ledger.
#[derive(Debug)]
pub struct ActionReceipt {
    pub id: String,
    pub timestamp: String,
    pub actor_id: String,
    pub actor_role: String,
    pub action: String,
    pub resource: String,
    pub destination: String,
    pub result: ReceiptResult,
    pub reason: String,
    pub context: Vec<(String, String)>,
}

#[verifier::ext_equal]
pub struct ActionReceiptV {
    pub id: Seq<char>,
    pub timestamp: Seq<char>,
    pub actor_id: Seq<char>,
    pub actor_role: Seq<char>,
    pub action: Seq<char>,
    pub resource: Seq<char>,
    pub destination: Seq<char>,
    pub result: ReceiptResult,
    pub reason: Seq<char>,
    pub context: Seq<(Seq<char>, Seq<char>)>,
}

impl DeepView for ActionReceipt {
    type V = ActionReceiptV;

    open spec fn deep_view(&self) -> ActionReceiptV {
        ActionReceiptV {
            id: self.id@,
            timestamp: self.timestamp@,
            actor_id: self.actor_id@,
            actor_role: self.actor_role@,
            action: self.action@,
            resource: self.resource@,
            destination: self.destination@,
            result: self.result,
            reason: self.reason@,
            context: self.context.deep_view(),
        }
    }
}

#[derive(Debug, Clone, Copy, PartialEq, Eq, Structural)]
pub enum ApprovalStatus {
    Pending,
    Approved,
    Rejected,
}

/// One human-approval request: created Pending, terminal once Approved or
/// Rejected.
#[derive(Debug)]
pub struct ApprovalRequest {
    pub id: String,
    pub created_at: String,
    pub actor_id: String,
    pub actor_role: String,
    pub action: String,
    pub resource: String,
    pub destination: String,
    pub status: ApprovalStatus,
    pub decided_by: Option<String>,
    pub decided_at: Option<String>,
    pub reason: Option<String>,
    pub context: Vec<(String, String)>,
}

#[verifier::ext_equal]
pub struct ApprovalRequestV {
    pub id: Seq<char>,
    pub created_at: Seq<char>,
    pub actor_id: Seq<char>,
    pub actor_role: Seq<char>,
    pub action: Seq<char>,
    pub resource: Seq<char>,
    pub destination: Seq<char>,
    pub status: ApprovalStatus,
    pub decided_by: Option<Seq<char>>,
    pub decided_at: Option<Seq<char>>,
    pub reason: Option<Seq<char>>,
    pub context: Seq<(Seq<char>, Seq<char>)>,
}

impl DeepView for ApprovalRequest {
    type V = ApprovalRequestV;

    open spec fn deep_view(&self) -> ApprovalRequestV {
        ApprovalRequestV {
            id: self.id@,
            created_at: self.created_at@,
            actor_id: self.actor_id@,
            actor_role: self.actor_role@,
            action: self.action@,
            resource: self.resource@,
            destination: self.destination@,
            status: self.status,
            decided_by: self.decided_by.deep_view(),
            decided_at: self.decided_at.deep_view(),
            reason: self.reason.deep_view(),
            context: self.context.deep_view(),
        }
    }
}

/// How many records a retention purge removed.
#[derive(Debug, Clone, Copy, PartialEq, Eq, Structural)]
pub struct PurgeSummary {
    pub removed_receipts: usize,
    pub removed_approvals: usize,
}

/// The whole persisted control-plane document of one workspace.
#[derive(Debug)]
pub struct ControlPlaneState {
    pub version: u32,
    pub access_state: AccessState,
    pub policy_rules: Vec<PolicyRule>,
    pub retention: RetentionPolicy,
    pub receipts: Vec<ActionReceipt>,
    pub approvals: Vec<ApprovalRequest>,
}

#[verifier::ext_equal]
pub struct ControlPlaneStateV {
    pub version: u32,
    pub access_state: AccessStateV,
    pub policy_rules: Seq<PolicyRuleV>,
    pub retention: RetentionPolicy,
    pub receipts: Seq<ActionReceiptV>,
    pub approvals: Seq<ApprovalRequestV>,
}

impl DeepView for ControlPlaneState {
    type V = ControlPlaneStateV;

    open spec fn deep_view(&self) -> ControlPlaneStateV {
        ControlPlaneStateV {
            version: self.version,
            access_state: self.access_state.deep_view(),
            policy_rules: self.policy_rules.deep_view(),
            retention: self.retention,
            receipts: self.receipts.deep_view(),
            approvals: self.approvals.deep_view(),
        }
    }
}

/// The receipt ledger's bound.
pub open spec fn receipts_cap() -> int {
    10000
}

/// A filter list matches a value when it is empty, holds `"*"`, or holds
/// the value itself.
pub open spec fn filter_matches(filters: Seq<Seq<char>>, value: Seq<char>) -> bool {
    filters.len() == 0 || exists|i: int|
        0 <= i < filters.len() && (#[trigger] filters[i] == "*"@ || filters[i] == value)
}

/// An enabled rule matches a request when all four of its filter lists
/// match the request's coordinates.
pub open spec fn rule_matches(rule: PolicyRuleV, req: ActionPolicyRequestV) -> bool {
    rule.enabled && filter_matches(rule.actor_roles, req.actor_role) && filter_matches(
        rule.actions,
        req.action,
    ) && filter_matches(rule.resources, req.resource) && filter_matches(
        rule.destinations,
        req.destination,
    )
}

/// The first rule in order that matches the request.
pub open spec fn first_matching_rule(rules: Seq<PolicyRuleV>, req: ActionPolicyRequestV) -> Option<
    PolicyRuleV,
>
    decreases rules.len(),
{
    if rules.len() == 0 {
        None
    } else if rule_matches(rules[0], req) {
        Some(rules[0])
    } else {
        first_matching_rule(rules.drop_first(), req)
    }
}

/// The position of the first approval with the given id.
pub open spec fn approval_index(approvals: Seq<ApprovalRequestV>, id: Seq<char>) -> Option<int>
    decreases approvals.len(),
{
    if approvals.len() == 0 {
        None
    } else if approvals[0].id == id {
        Some(0)
    } else {
        match approval_index(approvals.drop_first(), id) {
            Some(i) => Some(i + 1),
            None => None,
        }
    }
}

/// Whether a stored approval covers exactly the request being replayed.
pub open spec fn approval_covers(a: ApprovalRequestV, req: ActionPolicyRequestV) -> bool {
    a.actor_id == req.actor_id && a.actor_role == req.actor_role && a.action == req.action
        && a.resource == req.resource && a.destination == req.destination
}

/// The receipt recorded for one evaluation.
pub open spec fn receipt_of(
    req: ActionPolicyRequestV,
    result: ReceiptResult,
    reason: Seq<char>,
    receipt_id: Seq<char>,
    now: Seq<char>,
) -> ActionReceiptV {
    ActionReceiptV {
        id: receipt_id,
        timestamp: now,
        actor_id: req.actor_id,
        actor_role: req.actor_role,
        action: req.action,
        resource: req.resource,
        destination: req.destination,
        result: result,
        reason: reason,
        context: req.context,
    }
}

/// A receipt enters at index 0; the ledger is truncated at its bound.
pub open spec fn push_receipt_spec(receipts: Seq<ActionReceiptV>, r: ActionReceiptV) -> Seq<
    ActionReceiptV,
> {
    if receipts.len() + 1 <= receipts_cap() {
        seq![r] + receipts
    } else {
        (seq![r] + receipts).take(receipts_cap())
    }
}

/// The timestamp a new approval is created with: the request's
/// `occurred_at` when it parses, the engine's clock reading otherwise.
pub open spec fn approval_created_at(req: ActionPolicyRequestV, now: Seq<char>) -> Seq<char> {
    match req.occurred_at {
        Some(t) => if rfc3339_micros(t) is Some {
            t
        } else {
            now
        },
        None => now,
    }
}

/// The Pending approval a first-time governed request creates.
pub open spec fn new_approval_of(
    req: ActionPolicyRequestV,
    approval_id: Seq<char>,
    now: Seq<char>,
) -> ApprovalRequestV {
    ApprovalRequestV {
        id: approval_id,
        created_at: approval_created_at(req, now),
        actor_id: req.actor_id,
        actor_role: req.actor_role,
        action: req.action,
        resource: req.resource,
        destination: req.destination,
        status: ApprovalStatus::Pending,
        decided_by: None,
        decided_at: None,
        reason: None,
        context: req.context,
    }
}

/// One evaluation outcome: the state with the new receipt (and possibly a
/// new approval), and the decision returned to the caller.
pub open spec fn decide(
    s: ControlPlaneStateV,
    req: ActionPolicyRequestV,
    result: ReceiptResult,
    allowed: bool,
    requires_approval: bool,
    reason: Seq<char>,
    approval_id: Option<Seq<char>>,
    receipt_id: Seq<char>,
    now: Seq<char>,
) -> (ControlPlaneStateV, ActionPolicyDecisionV) {
    (
        ControlPlaneStateV {
            receipts: push_receipt_spec(s.receipts, receipt_of(req, result, reason, receipt_id, now)),
            ..s
        },
        ActionPolicyDecisionV {
            allowed: allowed,
            requires_approval: requires_approval,
            reason: reason,
            approval_id: approval_id,
            receipt_id: receipt_id,
        },
    )
}

/// The complete policy evaluation, exactly as the engine performs it: the
/// access gate first, then the first matching rule, then the approval
/// workflow. Every branch records exactly one receipt.
pub open spec fn eval_action_spec(
    s: ControlPlaneStateV,
    req: ActionPolicyRequestV,
    receipt_id: Seq<char>,
    approval_id: Seq<char>,
    now: Seq<char>,
    now_micros: int,
) -> (ControlPlaneStateV, ActionPolicyDecisionV) {
    if !can_access_view_at_spec(s.access_state, s.access_state.active_view, now_micros) {
        decide(
            s,
            req,
            ReceiptResult::Denied,
            false,
            false,
            "access plan does not permit the current workspace view"@,
            None,
            receipt_id,
            now,
        )
    } else {
        match first_matching_rule(s.policy_rules, req) {
            None => decide(
                s,
                req,
                ReceiptResult::Denied,
                false,
                false,
                "no matching policy rule"@,
                None,
                receipt_id,
                now,
            ),
            Some(rule) => if !rule.require_approval {
                decide(
                    s,
                    req,
                    ReceiptResult::Allowed,
                    true,
                    false,
                    "policy allowed"@,
                    None,
                    receipt_id,
                    now,
                )
            } else {
                match req.approval_id {
                    None => {
                        let s1 = ControlPlaneStateV {
                            approvals: s.approvals.push(new_approval_of(req, approval_id, now)),
                            ..s
                        };
                        decide(
                            s1,
                            req,
                            ReceiptResult::PendingApproval,
                            false,
                            true,
                            "action requires approval"@,
                            Some(approval_id),
                            receipt_id,
                            now,
                        )
                    },
                    Some(aid) => match approval_index(s.approvals, aid) {
                        None => decide(
                            s,
                            req,
                            ReceiptResult::Denied,
                            false,
                            false,
                            "approval not found"@,
                            Some(aid),
                            receipt_id,
                            now,
                        ),
                        Some(idx) => if !approval_covers(s.approvals[idx], req) {
                            decide(
                                s,
                                req,
                                ReceiptResult::Denied,
                                false,
                                false,
                                "approval does not match action request"@,
                                Some(aid),
                                receipt_id,
                                now,
                            )
                        } else {
                            match s.approvals[idx].status {
                                ApprovalStatus::Approved => decide(
                                    s,
                                    req,
                                    ReceiptResult::Allowed,
                                    true,
                                    false,
                                    "approved action"@,
                                    Some(aid),
                                    receipt_id,
                                    now,
                                ),
                                ApprovalStatus::Rejected => decide(
                                    s,
                                    req,
                                    ReceiptResult::Denied,
                                    false,
                                    false,
                                    "approval rejected"@,
                                    Some(aid),
                                    receipt_id,
                                    now,
                                ),
                                ApprovalStatus::Pending => decide(
                                    s,
                                    req,
                                    ReceiptResult::PendingApproval,
                                    false,
                                    true,
                                    "approval is still pending"@,
                                    Some(aid),
                                    receipt_id,
                                    now,
                                ),
                            }
                        },
                    },
                }
            },
        }
    }
}

/// What resolving an approval does: only an owner or admin may decide, the
/// id must exist, and the approval then carries its terminal status, the
/// decider, the decision time and the optional reason.
pub open spec fn resolve_approval_spec(
    approvals: Seq<ApprovalRequestV>,
    id: Seq<char>,
    approver_role: Seq<char>,
    approved: bool,
    reason: Option<Seq<char>>,
    now: Seq<char>,
) -> Result<(Seq<ApprovalRequestV>, ApprovalRequestV), ControlPlaneErrorV> {
    if !(approver_role == "owner"@ || approver_role == "admin"@) {
        Err(ControlPlaneErrorV::NotAuthorized)
    } else {
        match approval_index(approvals, id) {
            None => Err(ControlPlaneErrorV::ApprovalNotFound { id }),
            Some(i) => {
                let updated = ApprovalRequestV {
                    status: if approved {
                        ApprovalStatus::Approved
                    } else {
                        ApprovalStatus::Rejected
                    },
                    decided_by: Some(approver_role),
                    decided_at: Some(now),
                    reason: reason,
                    ..approvals[i]
                };
                Ok((approvals.update(i, updated), updated))
            },
        }
    }
}

/// Records outliving the cutoff are kept; so is any record whose timestamp
/// does not parse, so that a purge fails open rather than mass-deleting.
pub open spec fn receipt_kept(r: ActionReceiptV, cutoff: int) -> bool {
    match rfc3339_micros(r.timestamp) {
        Some(t) => t >= cutoff,
        None => true,
    }
}

pub open spec fn approval_kept(a: ApprovalRequestV, cutoff: int) -> bool {
    match rfc3339_micros(a.created_at) {
        Some(t) => t >= cutoff,
        None => true,
    }
}

/// The receipt ledger never outgrows its bound, and an evaluation always
/// enters its own receipt at index 0, carrying the request's coordinates.
pub proof fn lemma_receipt_ledger_bounded(
    s: ControlPlaneStateV,
    req: ActionPolicyRequestV,
    receipt_id: Seq<char>,
    approval_id: Seq<char>,
    now: Seq<char>,
    now_micros: int,
)
    requires
        s.receipts.len() <= receipts_cap(),
    ensures
        ({
            let (s2, d) = eval_action_spec(s, req, receipt_id, approval_id, now, now_micros);
            &&& s2.receipts.len() <= receipts_cap()
            &&& s2.receipts.len() > 0
            &&& s2.receipts[0].id == receipt_id
            &&& s2.receipts[0].timestamp == now
            &&& s2.receipts[0].actor_id == req.actor_id
            &&& s2.receipts[0].action == req.action
            &&& s2.receipts[0].resource == req.resource
            &&& d.receipt_id == receipt_id
            &&& s2.receipts.len() as int == (if s.receipts.len() + 1 <= receipts_cap() {
                s.receipts.len() as int + 1
            } else {
                receipts_cap()
            })
            &&& forall|k: int| 1 <= k < s2.receipts.len() ==> #[trigger] s2.receipts[k]
                == s.receipts[k - 1]
        }),
{
}

/// A request that no enabled rule matches is denied with the exact reason
/// "no matching policy rule", whenever the access gate itself passes.
pub proof fn lemma_unmatched_request_denied(
    s: ControlPlaneStateV,
    req: ActionPolicyRequestV,
    receipt_id: Seq<char>,
    approval_id: Seq<char>,
    now: Seq<char>,
    now_micros: int,
)
    requires
        can_access_view_at_spec(s.access_state, s.access_state.active_view, now_micros),
        first_matching_rule(s.policy_rules, req) is None,
    ensures
        ({
            let (s2, d) = eval_action_spec(s, req, receipt_id, approval_id, now, now_micros);
            &&& !d.allowed
            &&& !d.requires_approval
            &&& d.reason == "no matching policy rule"@
            &&& s2.approvals == s.approvals
        }),
{
}

/// A first-time request matching an approval-gated rule is parked: the
/// decision demands approval and hands back a fresh approval id, and
/// exactly one Pending approval with that id now exists (the id being
/// fresh).
pub proof fn lemma_governed_request_parks_approval(
    s: ControlPlaneStateV,
    req: ActionPolicyRequestV,
    receipt_id: Seq<char>,
    approval_id: Seq<char>,
    now: Seq<char>,
    now_micros: int,
)
    requires
        can_access_view_at_spec(s.access_state, s.access_state.active_view, now_micros),
        first_matching_rule(s.policy_rules, req) matches Some(rule) && rule.require_approval,
        req.approval_id is None,
        approval_index(s.approvals, approval_id) is None,
    ensures
        ({
            let (s2, d) = eval_action_spec(s, req, receipt_id, approval_id, now, now_micros);
            &&& !d.allowed
            &&& d.requires_approval
            &&& d.approval_id == Some(approval_id)
            &&& d.reason == "action requires approval"@
            &&& approval_index(s2.approvals, approval_id) == Some(s.approvals.len() as int)
            &&& s2.approvals.len() == s.approvals.len() + 1
            &&& s2.approvals.last() == new_approval_of(req, approval_id, now)
            &&& s2.approvals.last().status is Pending
        }),
{
    let (s2, d) = eval_action_spec(s, req, receipt_id, approval_id, now, now_micros);
    lemma_approval_index_push(s.approvals, new_approval_of(req, approval_id, now), approval_id);
}

/// Appending an approval with a fresh id makes that id findable at the end
/// of the list.
pub proof fn lemma_approval_index_push(
    approvals: Seq<ApprovalRequestV>,
    a: ApprovalRequestV,
    id: Seq<char>,
)
    requires
        approval_index(approvals, id) is None,
        a.id == id,
    ensures
        approval_index(approvals.push(a), id) == Some(approvals.len() as int),
    decreases approvals.len(),
{
    if approvals.len() == 0 {
        assert(approvals.push(a)[0] == a);
    } else {
        assert(approvals.push(a)[0] == approvals[0]);
        assert(approvals.push(a).drop_first() =~= approvals.drop_first().push(a));
        lemma_approval_index_push(approvals.drop_first(), a, id);
    }
}

/// Updating the approval at the found index, keeping its id, leaves it
/// findable at the same index.
pub proof fn lemma_approval_index_update(
    approvals: Seq<ApprovalRequestV>,
    i: int,
    updated: ApprovalRequestV,
    id: Seq<char>,
)
    requires
        approval_index(approvals, id) == Some(i),
        updated.id == approvals[i].id,
    ensures
        approval_index(approvals.update(i, updated), id) == Some(i),
        0 <= i < approvals.len(),
        approvals[i].id == id,
    decreases approvals.len(),
{
    lemma_approval_index_props(approvals, id);
    if i == 0 {
        assert(approvals.update(0, updated)[0] == updated);
    } else {
        assert(approvals.update(i, updated)[0] == approvals[0]);
        assert(approvals.update(i, updated).drop_first() =~= approvals.drop_first().update(
            i - 1,
            updated,
        ));
        lemma_approval_index_update(approvals.drop_first(), i - 1, updated, id);
    }
}

/// What a found approval index means.
pub proof fn lemma_approval_index_props(approvals: Seq<ApprovalRequestV>, id: Seq<char>)
    ensures
        match approval_index(approvals, id) {
            Some(i) => 0 <= i < approvals.len() && approvals[i].id == id && forall|j: int|
                0 <= j < i ==> approvals[j].id != id,
            None => forall|j: int| 0 <= j < approvals.len() ==> approvals[j].id != id,
        },
    decreases approvals.len(),
{
    if approvals.len() > 0 && approvals[0].id != id {
        lemma_approval_index_props(approvals.drop_first(), id);
        let rest = approvals.drop_first();
        assert(forall|j: int| 1 <= j < approvals.len() ==> #[trigger] approvals[j] == rest[j - 1]);
    }
}

/// Approving a freshly parked approval as an owner or admin and replaying
/// the identical request with that approval id yields an allowed decision
/// that demands no further approval.
pub proof fn lemma_approved_replay_is_allowed(
    s: ControlPlaneStateV,
    req: ActionPolicyRequestV,
    receipt_id1: Seq<char>,
    approval_id: Seq<char>,
    now1: Seq<char>,
    now_micros1: int,
    approver_role: Seq<char>,
    reason: Option<Seq<char>>,
    now2: Seq<char>,
    replay: ActionPolicyRequestV,
    receipt_id2: Seq<char>,
    approval_id2: Seq<char>,
    now3: Seq<char>,
    now_micros3: int,
)
    requires
        can_access_view_at_spec(s.access_state, s.access_state.active_view, now_micros1),
        can_access_view_at_spec(s.access_state, s.access_state.active_view, now_micros3),
        first_matching_rule(s.policy_rules, req) matches Some(rule) && rule.require_approval,
        req.approval_id is None,
        approval_index(s.approvals, approval_id) is None,
        approver_role == "owner"@ || approver_role == "admin"@,
        replay == (ActionPolicyRequestV { approval_id: Some(approval_id), ..req }),
    ensures
        ({
            let s1 = eval_action_spec(s, req, receipt_id1, approval_id, now1, now_micros1).0;
            let resolved = resolve_approval_spec(
                s1.approvals,
                approval_id,
                approver_role,
                true,
                reason,
                now2,
            );
            &&& resolved is Ok
            &&& ({
                let s2 = ControlPlaneStateV { approvals: resolved->Ok_0.0, ..s1 };
                let (s3, d) = eval_action_spec(
                    s2,
                    replay,
                    receipt_id2,
                    approval_id2,
                    now3,
                    now_micros3,
                );
                d.allowed && !d.requires_approval && d.reason == "approved action"@
            })
        }),
{
    let parked = new_approval_of(req, approval_id, now1);
    lemma_approval_index_push(s.approvals, parked, approval_id);
    let s1 = eval_action_spec(s, req, receipt_id1, approval_id, now1, now_micros1).0;
    assert(s1.approvals =~= s.approvals.push(parked));
    assert(s1.policy_rules == s.policy_rules);
    assert(s1.access_state == s.access_state);
    let i = s.approvals.len() as int;
    assert(approval_index(s1.approvals, approval_id) == Some(i));
    let resolved = resolve_approval_spec(s1.approvals, approval_id, approver_role, true, reason, now2);
    assert(resolved is Ok);
    let updated = ApprovalRequestV {
        status: ApprovalStatus::Approved,
        decided_by: Some(approver_role),
        decided_at: Some(now2),
        reason: reason,
        ..s1.approvals[i]
    };
    lemma_approval_index_update(s1.approvals, i, updated, approval_id);
    let s2 = ControlPlaneStateV { approvals: resolved->Ok_0.0, ..s1 };
    assert(approval_index(s2.approvals, approval_id) == Some(i));
    assert(s2.approvals[i] == updated);
    assert(first_matching_rule(s.policy_rules, replay) == first_matching_rule(s.policy_rules, req))
        by {
        lemma_first_matching_rule_same(s.policy_rules, req, replay);
    }
    assert(approval_covers(s2.approvals[i], replay));
    assert(s2.approvals[i].status is Approved);
}

/// Rule matching reads only the request's coordinates, never its approval
/// id: two requests differing only there match the same rules.
pub proof fn lemma_first_matching_rule_same(
    rules: Seq<PolicyRuleV>,
    a: ActionPolicyRequestV,
    b: ActionPolicyRequestV,
)
    requires
        a.actor_role == b.actor_role,
        a.action == b.action,
        a.resource == b.resource,
        a.destination == b.destination,
    ensures
        first_matching_rule(rules, a) == first_matching_rule(rules, b),
    decreases rules.len(),
{
    if rules.len() > 0 {
        assert(rule_matches(rules[0], a) == rule_matches(rules[0], b));
        lemma_first_matching_rule_same(rules.drop_first(), a, b);
    }
}

/// Replaying with an approval id whose stored approval does not cover the
/// request (a different resource, say) is denied without consuming the
/// approval: the exact reason is "approval does not match action request".
pub proof fn lemma_mismatched_replay_denied(
    s: ControlPlaneStateV,
    req: ActionPolicyRequestV,
    receipt_id: Seq<char>,
    approval_id: Seq<char>,
    now: Seq<char>,
    now_micros: int,
)
    requires
        can_access_view_at_spec(s.access_state, s.access_state.active_view, now_micros),
        first_matching_rule(s.policy_rules, req) matches Some(rule) && rule.require_approval,
        req.approval_id matches Some(aid) && approval_index(s.approvals, aid) matches Some(i)
            && !approval_covers(s.approvals[i], req),
    ensures
        ({
            let (s2, d) = eval_action_spec(s, req, receipt_id, approval_id, now, now_micros);
            &&& !d.allowed
            &&& !d.requires_approval
            &&& d.reason == "approval does not match action request"@
            &&& s2.approvals == s.approvals
        }),
{
}

} // verus!
