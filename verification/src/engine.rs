//! The executable policy engine: evaluation, the approval workflow, the
//! receipt ledger and retention purging, each proved equal to the
//! specification functions in [`crate::policy`]; and the workspace store
//! that stamps fresh ids and clock readings onto the pure transitions.

use crate::access::{clone_access, AccessPlan, AccessState, ControlPlaneError, WorkspaceView};
use crate::clock::{new_uuid, now_rfc3339, parse_rfc3339_micros, rfc3339_micros};
use crate::textfmt::{ascii_lower, bytes_eq, lower_bytes, trim_str, trimmed};
use crate::policy::{
    approval_covers, approval_index, approval_kept, decide, eval_action_spec, filter_matches,
    first_matching_rule, new_approval_of, push_receipt_spec, receipt_kept, receipt_of,
    resolve_approval_spec, rule_matches, ActionPolicyDecision, ActionPolicyDecisionV,
    ActionPolicyRequest, ActionPolicyRequestV, ActionReceipt, ActionReceiptV, ApprovalRequest,
    ApprovalRequestV,
    ApprovalStatus, ControlPlaneState, ControlPlaneStateV, PolicyRule, PolicyRuleV, PurgeSummary,
    ReceiptResult, RetentionPolicy,
};
use vstd::prelude::*;
use vstd::string::StringSliceAdditionalSpecFns;
use vstd::utf8::encode_utf8;

verus! {

/// Copies a free-form context map, pair for pair.
pub fn clone_context(ctx: &Vec<(String, String)>) -> (r: Vec<(String, String)>)
    ensures
        r.deep_view() == ctx.deep_view(),
{
    let mut out: Vec<(String, String)> = Vec::new();
    let n = ctx.len();
    let mut i: usize = 0;
    while i < n
        invariant
            0 <= i <= n == ctx@.len(),
            out@.len() == i,
            forall|j: int| 0 <= j < i ==> out.deep_view()[j] == ctx.deep_view()[j],
        decreases n - i,
    {
        let pair = &ctx[i];
        out.push((pair.0.clone(), pair.1.clone()));
        i = i + 1;
    }
    proof {
        assert(out.deep_view() =~= ctx.deep_view());
    }
    out
}

/// Copies an approval record, field for field.
pub fn clone_approval(a: &ApprovalRequest) -> (r: ApprovalRequest)
    ensures
        r.deep_view() == a.deep_view(),
{
    ApprovalRequest {
        id: a.id.clone(),
        created_at: a.created_at.clone(),
        actor_id: a.actor_id.clone(),
        actor_role: a.actor_role.clone(),
        action: a.action.clone(),
        resource: a.resource.clone(),
        destination: a.destination.clone(),
        status: a.status,
        decided_by: match &a.decided_by {
            Some(s) => Some(s.clone()),
            None => None,
        },
        decided_at: match &a.decided_at {
            Some(s) => Some(s.clone()),
            None => None,
        },
        reason: match &a.reason {
            Some(s) => Some(s.clone()),
            None => None,
        },
        context: clone_context(&a.context),
    }
}

/// Copies a receipt, field for field.
pub fn clone_receipt(rc: &ActionReceipt) -> (r: ActionReceipt)
    ensures
        r.deep_view() == rc.deep_view(),
{
    ActionReceipt {
        id: rc.id.clone(),
        timestamp: rc.timestamp.clone(),
        actor_id: rc.actor_id.clone(),
        actor_role: rc.actor_role.clone(),
        action: rc.action.clone(),
        resource: rc.resource.clone(),
        destination: rc.destination.clone(),
        result: rc.result,
        reason: rc.reason.clone(),
        context: clone_context(&rc.context),
    }
}

/// Whether a filter list matches a value: empty matches anything, and so
/// does a `"*"` entry or the value itself.
pub fn matches_filter(filters: &Vec<String>, value: &String) -> (r: bool)
    ensures
        r == filter_matches(filters.deep_view(), value@),
{
    let n = filters.len();
    if n == 0 {
        return true;
    }
    let star = String::from_str("*");
    let mut i: usize = 0;
    while i < n
        invariant
            0 <= i <= n == filters@.len(),
            star@ == "*"@,
            forall|j: int|
                0 <= j < i ==> !(#[trigger] filters.deep_view()[j] == "*"@ || filters.deep_view()[j]
                    == value@),
        decreases n - i,
    {
        proof {
            assert(filters.deep_view()[i as int] == filters@[i as int]@);
        }
        let f = &filters[i];
        if *f == star || *f == *value {
            return true;
        }
        i = i + 1;
    }
    false
}

fn policy_rule_matches(rule: &PolicyRule, request: &ActionPolicyRequest) -> (r: bool)
    ensures
        r == rule_matches(rule.deep_view(), request.deep_view()),
{
    rule.enabled && matches_filter(&rule.actor_roles, &request.actor_role) && matches_filter(
        &rule.actions,
        &request.action,
    ) && matches_filter(&rule.resources, &request.resource) && matches_filter(
        &rule.destinations,
        &request.destination,
    )
}

proof fn lemma_first_rule_found(rules: Seq<PolicyRuleV>, req: ActionPolicyRequestV, i: int)
    requires
        0 <= i < rules.len(),
        rule_matches(rules[i], req),
        forall|j: int| 0 <= j < i ==> !rule_matches(#[trigger] rules[j], req),
    ensures
        first_matching_rule(rules, req) == Some(rules[i]),
    decreases i,
{
    if i > 0 {
        lemma_first_rule_found(rules.drop_first(), req, i - 1);
    }
}

proof fn lemma_first_rule_missing(rules: Seq<PolicyRuleV>, req: ActionPolicyRequestV)
    requires
        forall|j: int| 0 <= j < rules.len() ==> !rule_matches(#[trigger] rules[j], req),
    ensures
        first_matching_rule(rules, req) is None,
    decreases rules.len(),
{
    if rules.len() > 0 {
        lemma_first_rule_missing(rules.drop_first(), req);
    }
}

fn find_first_rule(rules: &Vec<PolicyRule>, request: &ActionPolicyRequest) -> (r: Option<usize>)
    ensures
        match r {
            Some(i) => i < rules@.len() && first_matching_rule(rules.deep_view(), request.deep_view())
                == Some(rules.deep_view()[i as int]),
            None => first_matching_rule(rules.deep_view(), request.deep_view()) is None,
        },
{
    let n = rules.len();
    let mut i: usize = 0;
    while i < n
        invariant
            0 <= i <= n == rules@.len(),
            forall|j: int|
                0 <= j < i ==> !rule_matches(#[trigger] rules.deep_view()[j], request.deep_view()),
        decreases n - i,
    {
        proof {
            assert(rules.deep_view()[i as int] == rules@[i as int].deep_view());
        }
        if policy_rule_matches(&rules[i], request) {
            proof {
                lemma_first_rule_found(rules.deep_view(), request.deep_view(), i as int);
            }
            return Some(i);
        }
        i = i + 1;
    }
    proof {
        lemma_first_rule_missing(rules.deep_view(), request.deep_view());
    }
    None
}

proof fn lemma_approval_found(approvals: Seq<ApprovalRequestV>, id: Seq<char>, i: int)
    requires
        0 <= i < approvals.len(),
        approvals[i].id == id,
        forall|j: int| 0 <= j < i ==> (#[trigger] approvals[j]).id != id,
    ensures
        approval_index(approvals, id) == Some(i),
    decreases i,
{
    if i > 0 {
        lemma_approval_found(approvals.drop_first(), id, i - 1);
    }
}

proof fn lemma_approval_missing(approvals: Seq<ApprovalRequestV>, id: Seq<char>)
    requires
        forall|j: int| 0 <= j < approvals.len() ==> (#[trigger] approvals[j]).id != id,
    ensures
        approval_index(approvals, id) is None,
    decreases approvals.len(),
{
    if approvals.len() > 0 {
        lemma_approval_missing(approvals.drop_first(), id);
    }
}

fn find_approval_index(approvals: &Vec<ApprovalRequest>, id: &String) -> (r: Option<usize>)
    ensures
        match r {
            Some(i) => i < approvals@.len() && approval_index(approvals.deep_view(), id@) == Some(
                i as int,
            ),
            None => approval_index(approvals.deep_view(), id@) is None,
        },
{
    let n = approvals.len();
    let mut i: usize = 0;
    while i < n
        invariant
            0 <= i <= n == approvals@.len(),
            forall|j: int| 0 <= j < i ==> (#[trigger] approvals.deep_view()[j]).id != id@,
        decreases n - i,
    {
        proof {
            assert(approvals.deep_view()[i as int] == approvals@[i as int].deep_view());
        }
        if approvals[i].id == *id {
            proof {
                lemma_approval_found(approvals.deep_view(), id@, i as int);
            }
            return Some(i);
        }
        i = i + 1;
    }
    proof {
        lemma_approval_missing(approvals.deep_view(), id@);
    }
    None
}

/// Enters a receipt at index 0 and truncates the ledger at its bound.
fn push_receipt(receipts: &mut Vec<ActionReceipt>, receipt: ActionReceipt)
    ensures
        final(receipts).deep_view() == push_receipt_spec(
            old(receipts).deep_view(),
            receipt.deep_view(),
        ),
{
    receipts.insert(0, receipt);
    if receipts.len() > 10000 {
        receipts.truncate(10000);
    }
    proof {
        assert(final(receipts).deep_view() =~= push_receipt_spec(
            old(receipts).deep_view(),
            receipt.deep_view(),
        ));
    }
}

/// Records the receipt for one evaluation and builds the decision.
fn decide_exec(
    state: &mut ControlPlaneState,
    request: &ActionPolicyRequest,
    result: ReceiptResult,
    allowed: bool,
    requires_approval: bool,
    reason: &str,
    approval_id: Option<String>,
    receipt_id: String,
    now: String,
) -> (r: ActionPolicyDecision)
    ensures
        ({
            let (s2, d) = decide(
                old(state).deep_view(),
                request.deep_view(),
                result,
                allowed,
                requires_approval,
                reason@,
                approval_id.deep_view(),
                receipt_id@,
                now@,
            );
            final(state).deep_view() == s2 && r.deep_view() == d
        }),
{
    let receipt = ActionReceipt {
        id: receipt_id.clone(),
        timestamp: now.clone(),
        actor_id: request.actor_id.clone(),
        actor_role: request.actor_role.clone(),
        action: request.action.clone(),
        resource: request.resource.clone(),
        destination: request.destination.clone(),
        result: result,
        reason: reason.to_owned(),
        context: clone_context(&request.context),
    };
    proof {
        assert(receipt.deep_view() =~= receipt_of(
            request.deep_view(),
            result,
            reason@,
            receipt_id@,
            now@,
        ));
    }
    push_receipt(&mut state.receipts, receipt);
    let out = ActionPolicyDecision {
        allowed: allowed,
        requires_approval: requires_approval,
        reason: reason.to_owned(),
        approval_id: approval_id,
        receipt_id: receipt_id,
    };
    proof {
        let (s2, d) = decide(
            old(state).deep_view(),
            request.deep_view(),
            result,
            allowed,
            requires_approval,
            reason@,
            out.approval_id.deep_view(),
            out.receipt_id@,
            now@,
        );
        assert(final(state).deep_view() =~= s2);
        assert(out.deep_view() =~= d);
    }
    out
}

impl ControlPlaneState {
    /// Evaluates one action request against the access gate, the rule set
    /// and the approval workflow, exactly as
    /// [`eval_action_spec`] describes, recording one receipt. The caller
    /// supplies the two fresh ids and its clock reading.
    pub fn evaluate_action_with(
        &mut self,
        request: &ActionPolicyRequest,
        receipt_id: String,
        approval_id: String,
        now: String,
        now_micros: i64,
    ) -> (r: ActionPolicyDecision)
        ensures
            ({
                let (s2, d) = eval_action_spec(
                    old(self).deep_view(),
                    request.deep_view(),
                    receipt_id@,
                    approval_id@,
                    now@,
                    now_micros as int,
                );
                final(self).deep_view() == s2 && r.deep_view() == d
            }),
    {
        let active = self.access_state.active_view;
        if !self.access_state.can_access_view_at(&active, now_micros) {
            return decide_exec(
                self,
                request,
                ReceiptResult::Denied,
                false,
                false,
                "access plan does not permit the current workspace view",
                None,
                receipt_id,
                now,
            );
        }
        let rule_idx = match find_first_rule(&self.policy_rules, request) {
            None => {
                return decide_exec(
                    self,
                    request,
                    ReceiptResult::Denied,
                    false,
                    false,
                    "no matching policy rule",
                    None,
                    receipt_id,
                    now,
                );
            },
            Some(i) => i,
        };
        if !self.policy_rules[rule_idx].require_approval {
            return decide_exec(
                self,
                request,
                ReceiptResult::Allowed,
                true,
                false,
                "policy allowed",
                None,
                receipt_id,
                now,
            );
        }
        let existing_id = match &request.approval_id {
            None => {
                let created_at = match &request.occurred_at {
                    Some(t) => match parse_rfc3339_micros(t.as_str()) {
                        Some(_) => t.clone(),
                        None => now.clone(),
                    },
                    None => now.clone(),
                };
                let approval = ApprovalRequest {
                    id: approval_id.clone(),
                    created_at: created_at,
                    actor_id: request.actor_id.clone(),
                    actor_role: request.actor_role.clone(),
                    action: request.action.clone(),
                    resource: request.resource.clone(),
                    destination: request.destination.clone(),
                    status: ApprovalStatus::Pending,
                    decided_by: None,
                    decided_at: None,
                    reason: None,
                    context: clone_context(&request.context),
                };
                proof {
                    assert(approval.deep_view() =~= new_approval_of(
                        request.deep_view(),
                        approval_id@,
                        now@,
                    ));
                }
                self.approvals.push(approval);
                proof {
                    assert(self.approvals.deep_view() =~= old(self).approvals.deep_view().push(
                        new_approval_of(request.deep_view(), approval_id@, now@),
                    ));
                }
                return decide_exec(
                    self,
                    request,
                    ReceiptResult::PendingApproval,
                    false,
                    true,
                    "action requires approval",
                    Some(approval_id),
                    receipt_id,
                    now,
                );
            },
            Some(aid) => aid,
        };
        let approval_idx = match find_approval_index(&self.approvals, existing_id) {
            None => {
                let aid_copy = existing_id.clone();
                return decide_exec(
                    self,
                    request,
                    ReceiptResult::Denied,
                    false,
                    false,
                    "approval not found",
                    Some(aid_copy),
                    receipt_id,
                    now,
                );
            },
            Some(i) => i,
        };
        let covers = {
            let approval = &self.approvals[approval_idx];
            approval.actor_id == request.actor_id && approval.actor_role == request.actor_role
                && approval.action == request.action && approval.resource == request.resource
                && approval.destination == request.destination
        };
        proof {
            let k = approval_idx as int;
            assert(self.approvals.deep_view()[k] == self.approvals@[k].deep_view());
            assert(covers == approval_covers(
                self.approvals.deep_view()[approval_idx as int],
                request.deep_view(),
            ));
        }
        let aid_copy = existing_id.clone();
        if !covers {
            return decide_exec(
                self,
                request,
                ReceiptResult::Denied,
                false,
                false,
                "approval does not match action request",
                Some(aid_copy),
                receipt_id,
                now,
            );
        }
        match self.approvals[approval_idx].status {
            ApprovalStatus::Approved => decide_exec(
                self,
                request,
                ReceiptResult::Allowed,
                true,
                false,
                "approved action",
                Some(aid_copy),
                receipt_id,
                now,
            ),
            ApprovalStatus::Rejected => decide_exec(
                self,
                request,
                ReceiptResult::Denied,
                false,
                false,
                "approval rejected",
                Some(aid_copy),
                receipt_id,
                now,
            ),
            ApprovalStatus::Pending => decide_exec(
                self,
                request,
                ReceiptResult::PendingApproval,
                false,
                true,
                "approval is still pending",
                Some(aid_copy),
                receipt_id,
                now,
            ),
        }
    }

    /// Resolves a pending approval to its terminal status, exactly as
    /// [`resolve_approval_spec`] describes: only an owner or admin may
    /// decide, and the id must exist. Returns the updated approval.
    pub fn resolve_approval_with(
        &mut self,
        approval_id: &str,
        approver_role: &str,
        approved: bool,
        reason: Option<String>,
        now: String,
    ) -> (r: Result<ApprovalRequest, ControlPlaneError>)
        ensures
            ({
                let spec_r = resolve_approval_spec(
                    old(self).approvals.deep_view(),
                    approval_id@,
                    approver_role@,
                    approved,
                    reason.deep_view(),
                    now@,
                );
                match r {
                    Ok(updated) => spec_r is Ok && final(self).deep_view()
                        == (ControlPlaneStateV {
                        approvals: spec_r->Ok_0.0,
                        ..old(self).deep_view()
                    }) && updated.deep_view() == spec_r->Ok_0.1,
                    Err(e) => spec_r matches Err(ev) && ev == e.deep_view()
                        && final(self).deep_view() == old(self).deep_view(),
                }
            }),
    {
        let role = approver_role.to_owned();
        let owner = String::from_str("owner");
        let admin = String::from_str("admin");
        if !(role == owner || role == admin) {
            return Err(ControlPlaneError::NotAuthorized);
        }
        let id = approval_id.to_owned();
        let idx = match find_approval_index(&self.approvals, &id) {
            None => {
                return Err(ControlPlaneError::ApprovalNotFound { id });
            },
            Some(i) => i,
        };
        proof {
            let k = idx as int;
            assert(self.approvals.deep_view()[k] == self.approvals@[k].deep_view());
        }
        let mut updated = clone_approval(&self.approvals[idx]);
        updated.status = if approved {
            ApprovalStatus::Approved
        } else {
            ApprovalStatus::Rejected
        };
        updated.decided_by = Some(role);
        updated.decided_at = Some(now);
        updated.reason = reason;
        let out = clone_approval(&updated);
        self.approvals.set(idx, updated);
        proof {
            let spec_r = resolve_approval_spec(
                old(self).approvals.deep_view(),
                approval_id@,
                approver_role@,
                approved,
                reason.deep_view(),
                now@,
            );
            assert(out.deep_view() =~= spec_r->Ok_0.1);
            assert(self.approvals.deep_view() =~= spec_r->Ok_0.0);
            assert(final(self).deep_view() =~= (ControlPlaneStateV {
                approvals: spec_r->Ok_0.0,
                ..old(self).deep_view()
            }));
        }
        Ok(out)
    }
}

/// The purge cutoff: records older than this many days are dropped.
pub open spec fn purge_cutoff(now_micros: int, days: u32) -> int {
    now_micros - (days as int) * 86_400_000_000
}

/// The receipts surviving a purge at the given cutoff, in order.
pub open spec fn kept_receipts(s: Seq<ActionReceiptV>, cutoff: int) -> Seq<ActionReceiptV>
    decreases s.len(),
{
    if s.len() == 0 {
        Seq::empty()
    } else {
        (if receipt_kept(s[0], cutoff) {
            seq![s[0]]
        } else {
            Seq::empty()
        }) + kept_receipts(s.drop_first(), cutoff)
    }
}

/// The approvals surviving a purge at the given cutoff, in order.
pub open spec fn kept_approvals(s: Seq<ApprovalRequestV>, cutoff: int) -> Seq<ApprovalRequestV>
    decreases s.len(),
{
    if s.len() == 0 {
        Seq::empty()
    } else {
        (if approval_kept(s[0], cutoff) {
            seq![s[0]]
        } else {
            Seq::empty()
        }) + kept_approvals(s.drop_first(), cutoff)
    }
}

proof fn lemma_kept_receipts_push(s: Seq<ActionReceiptV>, x: ActionReceiptV, cutoff: int)
    ensures
        kept_receipts(s.push(x), cutoff) == if receipt_kept(x, cutoff) {
            kept_receipts(s, cutoff).push(x)
        } else {
            kept_receipts(s, cutoff)
        },
        kept_receipts(s, cutoff).len() <= s.len(),
    decreases s.len(),
{
    if s.len() == 0 {
        assert(s.push(x)[0] == x);
        assert(s.push(x).drop_first() =~= Seq::<ActionReceiptV>::empty());
        assert(kept_receipts(Seq::<ActionReceiptV>::empty(), cutoff) =~= Seq::<
            ActionReceiptV,
        >::empty());
        assert(kept_receipts(s.push(x), cutoff) == (if receipt_kept(x, cutoff) {
            seq![x]
        } else {
            Seq::<ActionReceiptV>::empty()
        }) + kept_receipts(s.push(x).drop_first(), cutoff));
        if receipt_kept(x, cutoff) {
            assert(kept_receipts(s.push(x), cutoff) =~= kept_receipts(s, cutoff).push(x));
        } else {
            assert(kept_receipts(s.push(x), cutoff) =~= kept_receipts(s, cutoff));
        }
    } else {
        assert(s.push(x)[0] == s[0]);
        assert(s.push(x).drop_first() =~= s.drop_first().push(x));
        lemma_kept_receipts_push(s.drop_first(), x, cutoff);
        if receipt_kept(x, cutoff) {
            assert(kept_receipts(s.push(x), cutoff) =~= kept_receipts(s, cutoff).push(x));
        } else {
            assert(kept_receipts(s.push(x), cutoff) =~= kept_receipts(s, cutoff));
        }
    }
}

proof fn lemma_kept_approvals_push(s: Seq<ApprovalRequestV>, x: ApprovalRequestV, cutoff: int)
    ensures
        kept_approvals(s.push(x), cutoff) == if approval_kept(x, cutoff) {
            kept_approvals(s, cutoff).push(x)
        } else {
            kept_approvals(s, cutoff)
        },
        kept_approvals(s, cutoff).len() <= s.len(),
    decreases s.len(),
{
    if s.len() == 0 {
        assert(s.push(x)[0] == x);
        assert(s.push(x).drop_first() =~= Seq::<ApprovalRequestV>::empty());
        assert(kept_approvals(Seq::<ApprovalRequestV>::empty(), cutoff) =~= Seq::<
            ApprovalRequestV,
        >::empty());
        assert(kept_approvals(s.push(x), cutoff) == (if approval_kept(x, cutoff) {
            seq![x]
        } else {
            Seq::<ApprovalRequestV>::empty()
        }) + kept_approvals(s.push(x).drop_first(), cutoff));
        if approval_kept(x, cutoff) {
            assert(kept_approvals(s.push(x), cutoff) =~= kept_approvals(s, cutoff).push(x));
        } else {
            assert(kept_approvals(s.push(x), cutoff) =~= kept_approvals(s, cutoff));
        }
    } else {
        assert(s.push(x)[0] == s[0]);
        assert(s.push(x).drop_first() =~= s.drop_first().push(x));
        lemma_kept_approvals_push(s.drop_first(), x, cutoff);
        if approval_kept(x, cutoff) {
            assert(kept_approvals(s.push(x), cutoff) =~= kept_approvals(s, cutoff).push(x));
        } else {
            assert(kept_approvals(s.push(x), cutoff) =~= kept_approvals(s, cutoff));
        }
    }
}

fn receipt_survives(rc: &ActionReceipt, now_micros: i64, days: u32) -> (r: bool)
    ensures
        r == receipt_kept(rc.deep_view(), purge_cutoff(now_micros as int, days)),
{
    let days_wide: i128 = days as i128;
    proof {
        assert(0 <= days_wide * 86_400_000_000i128 <= 0x1_0000_0000i128 * 86_400_000_000i128)
            by (nonlinear_arith)
            requires
                0 <= days_wide <= 0xffff_ffffi128,
        ;
    }
    let cutoff: i128 = (now_micros as i128) - days_wide * 86_400_000_000i128;
    match parse_rfc3339_micros(rc.timestamp.as_str()) {
        Some(t) => (t as i128) >= cutoff,
        None => true,
    }
}

fn approval_survives(a: &ApprovalRequest, now_micros: i64, days: u32) -> (r: bool)
    ensures
        r == approval_kept(a.deep_view(), purge_cutoff(now_micros as int, days)),
{
    let days_wide: i128 = days as i128;
    proof {
        assert(0 <= days_wide * 86_400_000_000i128 <= 0x1_0000_0000i128 * 86_400_000_000i128)
            by (nonlinear_arith)
            requires
                0 <= days_wide <= 0xffff_ffffi128,
        ;
    }
    let cutoff: i128 = (now_micros as i128) - days_wide * 86_400_000_000i128;
    match parse_rfc3339_micros(a.created_at.as_str()) {
        Some(t) => (t as i128) >= cutoff,
        None => true,
    }
}

impl ControlPlaneState {
    /// Drops receipts and approvals whose timestamps predate the retention
    /// window ending at `now_micros`. A record whose timestamp does not
    /// parse is kept: purging fails open rather than mass-deleting.
    pub fn purge_by_retention_at(&mut self, now_micros: i64) -> (r: PurgeSummary)
        ensures
            ({
                let rc = purge_cutoff(now_micros as int, old(self).retention.receipts_days);
                let ac = purge_cutoff(now_micros as int, old(self).retention.approvals_days);
                &&& final(self).deep_view() == (ControlPlaneStateV {
                    receipts: kept_receipts(old(self).receipts.deep_view(), rc),
                    approvals: kept_approvals(old(self).approvals.deep_view(), ac),
                    ..old(self).deep_view()
                })
                &&& r.removed_receipts + final(self).receipts@.len() == old(self).receipts@.len()
                &&& r.removed_approvals + final(self).approvals@.len() == old(self).approvals@.len()
            }),
    {
        let ghost rc = purge_cutoff(now_micros as int, self.retention.receipts_days);
        let ghost ac = purge_cutoff(now_micros as int, self.retention.approvals_days);
        let receipts_before = self.receipts.len();
        let approvals_before = self.approvals.len();

        let mut kept_r: Vec<ActionReceipt> = Vec::new();
        let n = self.receipts.len();
        let mut i: usize = 0;
        while i < n
            invariant
                0 <= i <= n == self.receipts@.len(),
                *self == *old(self),
                rc == purge_cutoff(now_micros as int, self.retention.receipts_days),
                kept_r.deep_view() == kept_receipts(
                    self.receipts.deep_view().take(i as int),
                    rc,
                ),
                kept_r@.len() <= i,
            decreases n - i,
        {
            proof {
                let k = i as int;
                assert(self.receipts.deep_view()[k] == self.receipts@[k].deep_view());
                assert(self.receipts.deep_view().take(k + 1) =~= self.receipts.deep_view().take(
                    k,
                ).push(self.receipts.deep_view()[k]));
                lemma_kept_receipts_push(
                    self.receipts.deep_view().take(k),
                    self.receipts.deep_view()[k],
                    rc,
                );
            }
            if receipt_survives(&self.receipts[i], now_micros, self.retention.receipts_days) {
                kept_r.push(clone_receipt(&self.receipts[i]));
            }
            i = i + 1;
        }
        proof {
            assert(self.receipts.deep_view().take(n as int) =~= self.receipts.deep_view());
        }
        self.receipts = kept_r;

        let mut kept_a: Vec<ApprovalRequest> = Vec::new();
        let m = self.approvals.len();
        let mut j: usize = 0;
        while j < m
            invariant
                0 <= j <= m == self.approvals@.len(),
                self.approvals == old(self).approvals,
                self.retention == old(self).retention,
                ac == purge_cutoff(now_micros as int, self.retention.approvals_days),
                kept_a.deep_view() == kept_approvals(
                    self.approvals.deep_view().take(j as int),
                    ac,
                ),
                kept_a@.len() <= j,
            decreases m - j,
        {
            proof {
                let k = j as int;
                assert(self.approvals.deep_view()[k] == self.approvals@[k].deep_view());
                assert(self.approvals.deep_view().take(k + 1) =~= self.approvals.deep_view().take(
                    k,
                ).push(self.approvals.deep_view()[k]));
                lemma_kept_approvals_push(
                    self.approvals.deep_view().take(k),
                    self.approvals.deep_view()[k],
                    ac,
                );
            }
            if approval_survives(&self.approvals[j], now_micros, self.retention.approvals_days) {
                kept_a.push(clone_approval(&self.approvals[j]));
            }
            j = j + 1;
        }
        proof {
            assert(self.approvals.deep_view().take(m as int) =~= self.approvals.deep_view());
        }
        self.approvals = kept_a;

        proof {
            assert(final(self).deep_view() =~= (ControlPlaneStateV {
                receipts: kept_receipts(old(self).receipts.deep_view(), rc),
                approvals: kept_approvals(old(self).approvals.deep_view(), ac),
                ..old(self).deep_view()
            }));
        }
        PurgeSummary {
            removed_receipts: receipts_before - self.receipts.len(),
            removed_approvals: approvals_before - self.approvals.len(),
        }
    }
}

/// The capped count of receipts a listing returns: at least 1, at most
/// 1000, and no more than there are.
pub open spec fn listing_cap(limit: int, len: int) -> int {
    let clamped = if limit < 1 {
        1
    } else if limit > 1000 {
        1000
    } else {
        limit
    };
    if clamped < len {
        clamped
    } else {
        len
    }
}

/// The pending approvals, in order.
pub open spec fn pending_only_spec(s: Seq<ApprovalRequestV>) -> Seq<ApprovalRequestV>
    decreases s.len(),
{
    if s.len() == 0 {
        Seq::empty()
    } else {
        (if s[0].status is Pending {
            seq![s[0]]
        } else {
            Seq::empty()
        }) + pending_only_spec(s.drop_first())
    }
}

proof fn lemma_pending_only_push(s: Seq<ApprovalRequestV>, x: ApprovalRequestV)
    ensures
        pending_only_spec(s.push(x)) == if x.status is Pending {
            pending_only_spec(s).push(x)
        } else {
            pending_only_spec(s)
        },
    decreases s.len(),
{
    if s.len() == 0 {
        assert(s.push(x)[0] == x);
        assert(s.push(x).drop_first() =~= Seq::<ApprovalRequestV>::empty());
        assert(pending_only_spec(Seq::<ApprovalRequestV>::empty()) =~= Seq::<
            ApprovalRequestV,
        >::empty());
        assert(pending_only_spec(s.push(x)) == (if x.status is Pending {
            seq![x]
        } else {
            Seq::<ApprovalRequestV>::empty()
        }) + pending_only_spec(s.push(x).drop_first()));
        if x.status is Pending {
            assert(pending_only_spec(s.push(x)) =~= pending_only_spec(s).push(x));
        } else {
            assert(pending_only_spec(s.push(x)) =~= pending_only_spec(s));
        }
    } else {
        assert(s.push(x)[0] == s[0]);
        assert(s.push(x).drop_first() =~= s.drop_first().push(x));
        lemma_pending_only_push(s.drop_first(), x);
        if x.status is Pending {
            assert(pending_only_spec(s.push(x)) =~= pending_only_spec(s).push(x));
        } else {
            assert(pending_only_spec(s.push(x)) =~= pending_only_spec(s));
        }
    }
}

/// The five baked-in rules, as mathematical values.
pub open spec fn default_rules_spec() -> Seq<PolicyRuleV> {
    seq![
        PolicyRuleV {
            id: "owner-full-access"@,
            actor_roles: seq!["owner"@],
            actions: seq!["*"@],
            resources: seq!["*"@],
            destinations: seq!["*"@],
            require_approval: false,
            enabled: true,
        },
        PolicyRuleV {
            id: "admin-full-access"@,
            actor_roles: seq!["admin"@],
            actions: seq!["*"@],
            resources: seq!["*"@],
            destinations: seq!["*"@],
            require_approval: false,
            enabled: true,
        },
        PolicyRuleV {
            id: "operator-runtime"@,
            actor_roles: seq!["operator"@],
            actions: seq![
                "runtime.start"@,
                "runtime.stop"@,
                "runtime.send_message"@,
                "background.enable"@,
                "background.disable"@,
                "logs.read"@,
                "logs.export"@,
                "receipts.read"@,
            ],
            resources: seq!["*"@],
            destinations: seq!["local"@, "provider"@, "workspace"@],
            require_approval: false,
            enabled: true,
        },
        PolicyRuleV {
            id: "operator-governed-changes"@,
            actor_roles: seq!["operator"@],
            actions: seq![
                "integration.install"@,
                "integration.enable"@,
                "integration.disable"@,
                "skills.install"@,
                "skills.enable"@,
                "skills.disable"@,
                "skills.remove"@,
                "mcp.install"@,
                "mcp.enable"@,
                "mcp.disable"@,
                "mcp.update_config"@,
                "mcp.remove"@,
            ],
            resources: seq!["*"@],
            destinations: seq!["*"@],
            require_approval: true,
            enabled: true,
        },
        PolicyRuleV {
            id: "viewer-readonly"@,
            actor_roles: seq!["viewer"@],
            actions: seq!["logs.read"@, "receipts.read"@, "profiles.read"@],
            resources: seq!["*"@],
            destinations: seq!["local"@, "workspace"@],
            require_approval: false,
            enabled: true,
        },
    ]
}

fn owned(s: &str) -> (r: String)
    ensures
        r@ == s@,
{
    s.to_owned()
}

/// The static rule catalog seeded on first use: owner and admin get full
/// access, operators get runtime actions freely and governed changes only
/// with approval, viewers read.
pub fn default_policy_rules() -> (r: Vec<PolicyRule>)
    ensures
        r.deep_view() == default_rules_spec(),
{
    let owner_rule = PolicyRule {
        id: owned("owner-full-access"),
        actor_roles: vec![owned("owner")],
        actions: vec![owned("*")],
        resources: vec![owned("*")],
        destinations: vec![owned("*")],
        require_approval: false,
        enabled: true,
    };
    let admin_rule = PolicyRule {
        id: owned("admin-full-access"),
        actor_roles: vec![owned("admin")],
        actions: vec![owned("*")],
        resources: vec![owned("*")],
        destinations: vec![owned("*")],
        require_approval: false,
        enabled: true,
    };
    let runtime_rule = PolicyRule {
        id: owned("operator-runtime"),
        actor_roles: vec![owned("operator")],
        actions: vec![
            owned("runtime.start"),
            owned("runtime.stop"),
            owned("runtime.send_message"),
            owned("background.enable"),
            owned("background.disable"),
            owned("logs.read"),
            owned("logs.export"),
            owned("receipts.read"),
        ],
        resources: vec![owned("*")],
        destinations: vec![owned("local"), owned("provider"), owned("workspace")],
        require_approval: false,
        enabled: true,
    };
    let governed_rule = PolicyRule {
        id: owned("operator-governed-changes"),
        actor_roles: vec![owned("operator")],
        actions: vec![
            owned("integration.install"),
            owned("integration.enable"),
            owned("integration.disable"),
            owned("skills.install"),
            owned("skills.enable"),
            owned("skills.disable"),
            owned("skills.remove"),
            owned("mcp.install"),
            owned("mcp.enable"),
            owned("mcp.disable"),
            owned("mcp.update_config"),
            owned("mcp.remove"),
        ],
        resources: vec![owned("*")],
        destinations: vec![owned("*")],
        require_approval: true,
        enabled: true,
    };
    let viewer_rule = PolicyRule {
        id: owned("viewer-readonly"),
        actor_roles: vec![owned("viewer")],
        actions: vec![owned("logs.read"), owned("receipts.read"), owned("profiles.read")],
        resources: vec![owned("*")],
        destinations: vec![owned("local"), owned("workspace")],
        require_approval: false,
        enabled: true,
    };
    proof {
        assert(owner_rule.deep_view() =~~= default_rules_spec()[0]);
        assert(admin_rule.deep_view() =~~= default_rules_spec()[1]);
        assert(runtime_rule.deep_view() =~~= default_rules_spec()[2]);
        assert(governed_rule.deep_view() =~~= default_rules_spec()[3]);
        assert(viewer_rule.deep_view() =~~= default_rules_spec()[4]);
    }
    let rules = vec![owner_rule, admin_rule, runtime_rule, governed_rule, viewer_rule];
    proof {
        assert(rules.deep_view() =~= default_rules_spec());
    }
    rules
}

impl Default for RetentionPolicy {
    /// Thirty days of receipts, ninety of approvals.
    fn default() -> (r: Self)
        ensures
            r.receipts_days == 30,
            r.approvals_days == 90,
    {
        RetentionPolicy { receipts_days: 30, approvals_days: 90 }
    }
}

impl Default for AccessState {
    /// A fresh workspace starts on an (unstarted) trial of the Personal
    /// view.
    fn default() -> (r: Self)
        ensures
            r.plan is Trial,
            r.active_view is Personal,
            r.trial_started_at is None,
            r.trial_expires_at is None,
    {
        let (now, _) = now_rfc3339();
        AccessState {
            plan: AccessPlan::Trial,
            active_view: WorkspaceView::Personal,
            trial_started_at: None,
            trial_expires_at: None,
            updated_at: now,
        }
    }
}

impl Default for ControlPlaneState {
    /// A fresh workspace document: the default access state, the baked-in
    /// rules, default retention, and empty ledgers.
    fn default() -> (r: Self)
        ensures
            r.version == 1,
            r.access_state.plan is Trial,
            r.access_state.active_view is Personal,
            r.access_state.trial_started_at is None,
            r.policy_rules.deep_view() == default_rules_spec(),
            r.retention.receipts_days == 30,
            r.retention.approvals_days == 90,
            r.receipts@.len() == 0,
            r.approvals@.len() == 0,
    {
        ControlPlaneState {
            version: 1,
            access_state: AccessState::default(),
            policy_rules: default_policy_rules(),
            retention: RetentionPolicy::default(),
            receipts: Vec::new(),
            approvals: Vec::new(),
        }
    }
}

impl ControlPlaneState {
    /// Heals a loaded document: an empty rule catalog is reseeded, and a
    /// trial plan that never recorded a start gets its trial started.
    pub fn normalize_loaded(&mut self)
        ensures
            final(self).policy_rules.deep_view() == if old(self).policy_rules@.len() == 0 {
                default_rules_spec()
            } else {
                old(self).policy_rules.deep_view()
            },
            final(self).version == old(self).version,
            final(self).retention == old(self).retention,
            final(self).receipts == old(self).receipts,
            final(self).approvals == old(self).approvals,
            if old(self).access_state.trial_started_at is None && old(self).access_state.plan is Trial {
                final(self).access_state.plan is Trial && final(self).access_state.active_view is Personal && final(self).access_state.trial_started_at is Some && final(self).access_state.trial_expires_at is Some
            } else {
                final(self).access_state.deep_view() == old(self).access_state.deep_view()
            },
    {
        if self.policy_rules.len() == 0 {
            self.policy_rules = default_policy_rules();
        }
        if self.access_state.trial_started_at.is_none() && matches!(
            self.access_state.plan,
            AccessPlan::Trial,
        ) {
            self.access_state.start_trial();
        }
    }

    /// The first `limit` receipts, newest first; the limit is clamped to
    /// `[1, 1000]`.
    pub fn list_receipts(&self, limit: usize) -> (r: Vec<ActionReceipt>)
        ensures
            r.deep_view() == self.receipts.deep_view().take(
                listing_cap(limit as int, self.receipts@.len() as int),
            ),
    {
        let cap_raw: usize = if limit < 1 {
            1
        } else if limit > 1000 {
            1000
        } else {
            limit
        };
        let n = self.receipts.len();
        let cap: usize = if cap_raw < n {
            cap_raw
        } else {
            n
        };
        let mut out: Vec<ActionReceipt> = Vec::new();
        let mut i: usize = 0;
        while i < cap
            invariant
                0 <= i <= cap <= n == self.receipts@.len(),
                out@.len() == i,
                forall|j: int|
                    0 <= j < i ==> (#[trigger] out@[j]).deep_view()
                        == self.receipts@[j].deep_view(),
            decreases cap - i,
        {
            proof {
                let k = i as int;
                assert(self.receipts.deep_view()[k] == self.receipts@[k].deep_view());
            }
            out.push(clone_receipt(&self.receipts[i]));
            i = i + 1;
        }
        proof {
            assert(out.deep_view() =~= self.receipts.deep_view().take(
                listing_cap(limit as int, self.receipts@.len() as int),
            ));
        }
        out
    }

    /// The approvals, optionally restricted to the pending ones, in order.
    pub fn list_approvals(&self, pending_only: bool) -> (r: Vec<ApprovalRequest>)
        ensures
            pending_only ==> r.deep_view() == pending_only_spec(self.approvals.deep_view()),
            !pending_only ==> r.deep_view() == self.approvals.deep_view(),
    {
        let n = self.approvals.len();
        let mut out: Vec<ApprovalRequest> = Vec::new();
        let mut i: usize = 0;
        while i < n
            invariant
                0 <= i <= n == self.approvals@.len(),
                pending_only ==> out.deep_view() == pending_only_spec(
                    self.approvals.deep_view().take(i as int),
                ),
                !pending_only ==> out.deep_view() == self.approvals.deep_view().take(i as int),
            decreases n - i,
        {
            proof {
                let k = i as int;
                assert(self.approvals.deep_view()[k] == self.approvals@[k].deep_view());
                assert(self.approvals.deep_view().take(k + 1) =~= self.approvals.deep_view().take(
                    k,
                ).push(self.approvals.deep_view()[k]));
                lemma_pending_only_push(
                    self.approvals.deep_view().take(k),
                    self.approvals.deep_view()[k],
                );
            }
            let keep = if pending_only {
                matches!(self.approvals[i].status, ApprovalStatus::Pending)
            } else {
                true
            };
            if keep {
                out.push(clone_approval(&self.approvals[i]));
            }
            i = i + 1;
        }
        proof {
            assert(self.approvals.deep_view().take(n as int) =~= self.approvals.deep_view());
        }
        out
    }
}

/// The label an audit event records for a decision: an allowed action, one
/// parked for approval, or a denial.
pub open spec fn decision_result_spec(d: ActionPolicyDecisionV) -> Seq<char> {
    if d.allowed {
        "allowed"@
    } else if d.requires_approval {
        "pending_approval"@
    } else {
        "denied"@
    }
}

/// The audit-event result label for a decision.
pub fn decision_result_label(decision: &ActionPolicyDecision) -> (r: &'static str)
    ensures
        r@ == decision_result_spec(decision.deep_view()),
{
    if decision.allowed {
        "allowed"
    } else if decision.requires_approval {
        "pending_approval"
    } else {
        "denied"
    }
}

/// The canonical form of a trimmed, ASCII-lowercased role: the legacy
/// aliases collapse onto the four canonical roles (owner and admin both act
/// as owner; a missing or blank role defaults to owner), anything else
/// passes through lowercased.
pub open spec fn canonical_actor_role(role: Seq<u8>) -> Seq<u8> {
    if role == "owner".spec_bytes() || role == "admin".spec_bytes() || role == Seq::<u8>::empty() {
        "owner".spec_bytes()
    } else if role == "manager".spec_bytes() {
        "admin".spec_bytes()
    } else if role == "operator".spec_bytes() || role == "user".spec_bytes() {
        "operator".spec_bytes()
    } else if role == "viewer".spec_bytes() || role == "observer".spec_bytes() {
        "viewer".spec_bytes()
    } else {
        role
    }
}

/// The role an action request is evaluated under, as UTF-8 bytes: the
/// caller's role trimmed, lowercased and canonicalized; a missing role
/// defaults like "admin".
pub open spec fn normalized_actor_role(role: Option<Seq<char>>) -> Seq<u8> {
    let raw = match role {
        Some(s) => s,
        None => "admin"@,
    };
    canonical_actor_role(lower_bytes(encode_utf8(trimmed(raw))))
}

fn canonical_role_exec(lowered: String) -> (r: String)
    ensures
        encode_utf8(r@) == canonical_actor_role(encode_utf8(lowered@)),
{
    let bytes = lowered.as_str().as_bytes_vec();
    if bytes_eq(&bytes, "owner") || bytes_eq(&bytes, "admin") || bytes.len() == 0 {
        proof {
            if bytes@.len() == 0 {
                assert(bytes@ =~= Seq::<u8>::empty());
            }
        }
        String::from_str("owner")
    } else if bytes_eq(&bytes, "manager") {
        String::from_str("admin")
    } else if bytes_eq(&bytes, "operator") || bytes_eq(&bytes, "user") {
        String::from_str("operator")
    } else if bytes_eq(&bytes, "viewer") || bytes_eq(&bytes, "observer") {
        String::from_str("viewer")
    } else {
        lowered
    }
}

/// Canonicalizes the actor role a caller supplied with an action request.
pub fn normalize_actor_role(role: Option<String>) -> (r: String)
    ensures
        encode_utf8(r@) == normalized_actor_role(role.deep_view()),
{
    let raw = match role {
        Some(s) => s,
        None => String::from_str("admin"),
    };
    let lowered = ascii_lower(trim_str(raw.as_str()).as_str());
    canonical_role_exec(lowered)
}

/// The role an approval verdict is recorded under, as UTF-8 bytes: trimmed,
/// lowercased, with owner and admin collapsing to owner, the legacy manager
/// alias to admin, and a blank role defaulting to owner.
pub open spec fn normalized_approver_role(role: Seq<char>) -> Seq<u8> {
    let lowered = lower_bytes(encode_utf8(trimmed(role)));
    if lowered == "owner".spec_bytes() || lowered == "admin".spec_bytes() || lowered == Seq::<
        u8,
    >::empty() {
        "owner".spec_bytes()
    } else if lowered == "manager".spec_bytes() {
        "admin".spec_bytes()
    } else {
        lowered
    }
}

/// Canonicalizes the role a caller resolves approvals under.
pub fn normalize_approver_role(role: &str) -> (r: String)
    ensures
        encode_utf8(r@) == normalized_approver_role(role@),
{
    let lowered = ascii_lower(trim_str(role).as_str());
    let bytes = lowered.as_str().as_bytes_vec();
    if bytes_eq(&bytes, "owner") || bytes_eq(&bytes, "admin") || bytes.len() == 0 {
        proof {
            if bytes@.len() == 0 {
                assert(bytes@ =~= Seq::<u8>::empty());
            }
        }
        String::from_str("owner")
    } else if bytes_eq(&bytes, "manager") {
        String::from_str("admin")
    } else {
        lowered
    }
}

/// One workspace's control plane: the in-memory document and the path the
/// embedding application persists it under. Every mutation here is a pure,
/// verified transition on the document; the application loads the JSON
/// before and saves it after.
#[derive(Debug)]
pub struct ControlPlaneStore {
    pub path: String,
    pub state: ControlPlaneState,
}

impl ControlPlaneStore {
    /// A store for the workspace rooted at `workspace_dir`, freshly seeded:
    /// the baked-in rules and a started trial.
    pub fn for_workspace(workspace_dir: &str) -> (r: Self)
        ensures
            r.path@ == workspace_dir@ + "/control_plane.json"@,
            r.state.version == 1,
            r.state.policy_rules.deep_view() == default_rules_spec(),
            r.state.retention.receipts_days == 30,
            r.state.retention.approvals_days == 90,
            r.state.receipts@.len() == 0,
            r.state.approvals@.len() == 0,
            r.state.access_state.plan is Trial,
            r.state.access_state.trial_started_at is Some,
            r.state.access_state.trial_expires_at is Some,
    {
        let mut path = workspace_dir.to_owned();
        path.append("/control_plane.json");
        let mut state = ControlPlaneState::default();
        state.normalize_loaded();
        ControlPlaneStore { path, state }
    }

    /// Starts the 24-hour trial and returns the new access state.
    pub fn start_trial(&mut self) -> (r: Result<AccessState, ControlPlaneError>)
        ensures
            r is Ok,
            final(self).path == old(self).path,
            final(self).state.deep_view() == (ControlPlaneStateV {
                access_state: final(self).state.access_state.deep_view(),
                ..old(self).state.deep_view()
            }),
            r->Ok_0.deep_view() == final(self).state.access_state.deep_view(),
            ({
                let a = final(self).state.access_state.deep_view();
                &&& a.plan is Trial
                &&& a.active_view is Personal
                &&& a.trial_started_at is Some
                &&& a.trial_expires_at is Some
                &&& a.updated_at == a.trial_started_at.unwrap()
                &&& rfc3339_micros(a.trial_started_at.unwrap()) is Some
                &&& rfc3339_micros(a.trial_expires_at.unwrap()) == Some(
                    rfc3339_micros(a.trial_started_at.unwrap()).unwrap() + 86_400_000_000,
                )
            }),
    {
        self.state.access_state.start_trial();
        Ok(clone_access(&self.state.access_state))
    }

    /// Switches to a paid plan (or restarts the trial) and returns the new
    /// access state.
    pub fn set_paid_plan(&mut self, plan: AccessPlan) -> (r: Result<AccessState, ControlPlaneError>)
        ensures
            r is Ok,
            final(self).path == old(self).path,
            final(self).state.deep_view() == (ControlPlaneStateV {
                access_state: final(self).state.access_state.deep_view(),
                ..old(self).state.deep_view()
            }),
            r->Ok_0.deep_view() == final(self).state.access_state.deep_view(),
            plan is Personal ==> final(self).state.access_state.plan is Personal && final(self).state.access_state.active_view is Personal,
            plan is Org ==> final(self).state.access_state.plan is Org && final(self).state.access_state.active_view is Org,
            plan is Trial ==> ({
                let a = final(self).state.access_state.deep_view();
                &&& a.plan is Trial
                &&& a.active_view is Personal
                &&& a.trial_started_at is Some
                &&& a.trial_expires_at is Some
                &&& a.updated_at == a.trial_started_at.unwrap()
                &&& rfc3339_micros(a.trial_started_at.unwrap()) is Some
                &&& rfc3339_micros(a.trial_expires_at.unwrap()) == Some(
                    rfc3339_micros(a.trial_started_at.unwrap()).unwrap() + 86_400_000_000,
                )
            }),
    {
        let result = self.state.access_state.set_paid_plan(plan);
        match result {
            Ok(_) => Ok(clone_access(&self.state.access_state)),
            Err(e) => Err(e),
        }
    }

    /// Makes `view` the active view if the plan permits it now.
    pub fn set_active_view(&mut self, view: WorkspaceView) -> (r: Result<
        AccessState,
        ControlPlaneError,
    >)
        ensures
            final(self).path == old(self).path,
            final(self).state.deep_view() == (ControlPlaneStateV {
                access_state: final(self).state.access_state.deep_view(),
                ..old(self).state.deep_view()
            }),
            r matches Ok(a) ==> a.deep_view() == final(self).state.access_state.deep_view() && final(self).state.access_state.active_view == view,
            r is Err ==> final(self).state.access_state.deep_view() == old(self).state.access_state.deep_view(),
            old(self).state.access_state.plan is Personal ==> (r is Ok <==> view is Personal),
            old(self).state.access_state.plan is Org ==> (r is Ok <==> view is Org),
    {
        match self.state.access_state.set_active_view(view) {
            Ok(_) => Ok(clone_access(&self.state.access_state)),
            Err(e) => Err(e),
        }
    }

    /// Replaces the retention windows; each is at least one day.
    pub fn set_retention(&mut self, receipts_days: u32, approvals_days: u32) -> (r: Result<
        RetentionPolicy,
        ControlPlaneError,
    >)
        ensures
            r is Ok,
            final(self).path == old(self).path,
            final(self).state.deep_view() == (ControlPlaneStateV {
                retention: final(self).state.retention,
                ..old(self).state.deep_view()
            }),
            final(self).state.retention.receipts_days == if receipts_days < 1 {
                1u32
            } else {
                receipts_days
            },
            final(self).state.retention.approvals_days == if approvals_days < 1 {
                1u32
            } else {
                approvals_days
            },
            r->Ok_0 == final(self).state.retention,
    {
        self.state.retention = RetentionPolicy {
            receipts_days: if receipts_days < 1 {
                1
            } else {
                receipts_days
            },
            approvals_days: if approvals_days < 1 {
                1
            } else {
                approvals_days
            },
        };
        Ok(self.state.retention)
    }

    /// Evaluates one action request, stamping it with fresh receipt and
    /// approval ids and the current clock reading, exactly as
    /// [`eval_action_spec`] describes.
    pub fn evaluate_action(&mut self, request: ActionPolicyRequest) -> (r: Result<
        ActionPolicyDecision,
        ControlPlaneError,
    >)
        ensures
            r is Ok,
            final(self).path == old(self).path,
            exists|receipt_id: Seq<char>, approval_id: Seq<char>, now: Seq<char>, now_micros: int|
                #![trigger eval_action_spec(old(self).state.deep_view(), request.deep_view(), receipt_id, approval_id, now, now_micros)]
                {
                    let (s2, d) = eval_action_spec(
                        old(self).state.deep_view(),
                        request.deep_view(),
                        receipt_id,
                        approval_id,
                        now,
                        now_micros,
                    );
                    final(self).state.deep_view() == s2 && r->Ok_0.deep_view() == d
                },
    {
        let receipt_id = new_uuid();
        let approval_id = new_uuid();
        let (now, now_micros) = now_rfc3339();
        let ghost rid = receipt_id@;
        let ghost aid = approval_id@;
        let ghost now_v = now@;
        let decision = self.state.evaluate_action_with(
            &request,
            receipt_id,
            approval_id,
            now,
            now_micros,
        );
        proof {
            let (s2, d) = eval_action_spec(
                old(self).state.deep_view(),
                request.deep_view(),
                rid,
                aid,
                now_v,
                now_micros as int,
            );
            assert(final(self).state.deep_view() == s2 && decision.deep_view() == d);
        }
        Ok(decision)
    }

    /// Resolves a pending approval as the given role, stamping the current
    /// clock reading, exactly as [`resolve_approval_spec`] describes.
    pub fn resolve_approval(
        &mut self,
        approval_id: &str,
        approver_role: &str,
        approved: bool,
        reason: Option<String>,
    ) -> (r: Result<ApprovalRequest, ControlPlaneError>)
        ensures
            final(self).path == old(self).path,
            exists|now: Seq<char>|
                #![trigger resolve_approval_spec(old(self).state.approvals.deep_view(), approval_id@, approver_role@, approved, reason.deep_view(), now)]
                {
                    let spec_r = resolve_approval_spec(
                        old(self).state.approvals.deep_view(),
                        approval_id@,
                        approver_role@,
                        approved,
                        reason.deep_view(),
                        now,
                    );
                    match r {
                        Ok(updated) => spec_r is Ok && final(self).state.deep_view()
                            == (ControlPlaneStateV {
                            approvals: spec_r->Ok_0.0,
                            ..old(self).state.deep_view()
                        }) && updated.deep_view() == spec_r->Ok_0.1,
                        Err(e) => spec_r matches Err(ev) && ev == e.deep_view()
                            && final(self).state.deep_view() == old(self).state.deep_view(),
                    }
                },
    {
        let (now, _) = now_rfc3339();
        let ghost now_v = now@;
        let result = self.state.resolve_approval_with(
            approval_id,
            approver_role,
            approved,
            reason,
            now,
        );
        result
    }

    /// Purges receipts and approvals older than the retention windows,
    /// measured from the current clock reading.
    pub fn purge_by_retention(&mut self) -> (r: Result<PurgeSummary, ControlPlaneError>)
        ensures
            r is Ok,
            final(self).path == old(self).path,
            exists|now_micros: int|
                #![trigger purge_cutoff(now_micros, old(self).state.retention.receipts_days)]
                {
                    let rc = purge_cutoff(now_micros, old(self).state.retention.receipts_days);
                    let ac = purge_cutoff(now_micros, old(self).state.retention.approvals_days);
                    final(self).state.deep_view() == (ControlPlaneStateV {
                        receipts: kept_receipts(old(self).state.receipts.deep_view(), rc),
                        approvals: kept_approvals(old(self).state.approvals.deep_view(), ac),
                        ..old(self).state.deep_view()
                    })
                },
    {
        let (_, now_micros) = now_rfc3339();
        let summary = self.state.purge_by_retention_at(now_micros);
        proof {
            let rc = purge_cutoff(now_micros as int, old(self).state.retention.receipts_days);
            assert(rc == purge_cutoff(now_micros as int, old(self).state.retention.receipts_days));
        }
        Ok(summary)
    }

    /// The first `limit` receipts, newest first.
    pub fn list_receipts(&self, limit: usize) -> (r: Result<Vec<ActionReceipt>, ControlPlaneError>)
        ensures
            r is Ok,
            r->Ok_0.deep_view() == self.state.receipts.deep_view().take(
                listing_cap(limit as int, self.state.receipts@.len() as int),
            ),
    {
        Ok(self.state.list_receipts(limit))
    }

    /// The approvals, optionally only the pending ones.
    pub fn list_approvals(&self, pending_only: bool) -> (r: Result<
        Vec<ApprovalRequest>,
        ControlPlaneError,
    >)
        ensures
            r is Ok,
            pending_only ==> r->Ok_0.deep_view() == pending_only_spec(
                self.state.approvals.deep_view(),
            ),
            !pending_only ==> r->Ok_0.deep_view() == self.state.approvals.deep_view(),
    {
        Ok(self.state.list_approvals(pending_only))
    }
}

} // verus!
