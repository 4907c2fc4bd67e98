//! The access gate: which workspace view the current subscription plan
//! permits. A trial plan grants access to every view while the trial is
//! unexpired; a paid plan grants access exactly to its matching view.

use crate::clock::{clock_window, now_rfc3339, parse_rfc3339_micros, rfc3339_micros};
use vstd::prelude::*;

verus! {

#[derive(Debug, Clone, Copy, PartialEq, Eq, Structural)]
pub enum WorkspaceView {
    Personal,
    Org,
}

#[derive(Debug, Clone, Copy, PartialEq, Eq, Structural)]
pub enum AccessPlan {
    Trial,
    Personal,
    Org,
}

impl WorkspaceView {
    pub open spec fn label(self) -> Seq<char> {
        match self {
            WorkspaceView::Personal => "personal"@,
            WorkspaceView::Org => "org"@,
        }
    }

    pub fn as_str(&self) -> (r: &'static str)
        ensures
            r@ == self.label(),
    {
        match self {
            WorkspaceView::Personal => "personal",
            WorkspaceView::Org => "org",
        }
    }
}

/// Subscription plan and active view of one workspace.
#[derive(Debug)]
pub struct AccessState {
    pub plan: AccessPlan,
    pub active_view: WorkspaceView,
    pub trial_started_at: Option<String>,
    pub trial_expires_at: Option<String>,
    pub updated_at: String,
}

#[verifier::ext_equal]
pub struct AccessStateV {
    pub plan: AccessPlan,
    pub active_view: WorkspaceView,
    pub trial_started_at: Option<Seq<char>>,
    pub trial_expires_at: Option<Seq<char>>,
    pub updated_at: Seq<char>,
}

impl DeepView for AccessState {
    type V = AccessStateV;

    open spec fn deep_view(&self) -> AccessStateV {
        AccessStateV {
            plan: self.plan,
            active_view: self.active_view,
            trial_started_at: self.trial_started_at.deep_view(),
            trial_expires_at: self.trial_expires_at.deep_view(),
            updated_at: self.updated_at@,
        }
    }
}

/// Copies an access state, field for field.
pub fn clone_access(a: &AccessState) -> (r: AccessState)
    ensures
        r.deep_view() == a.deep_view(),
{
    AccessState {
        plan: a.plan,
        active_view: a.active_view,
        trial_started_at: match &a.trial_started_at {
            Some(s) => Some(s.clone()),
            None => None,
        },
        trial_expires_at: match &a.trial_expires_at {
            Some(s) => Some(s.clone()),
            None => None,
        },
        updated_at: a.updated_at.clone(),
    }
}

/// Whether the trial is active at the instant `now_micros`: the plan is
/// Trial and the recorded expiry parses to a strictly later instant.
pub open spec fn trial_active_at(s: AccessStateV, now_micros: int) -> bool {
    s.plan is Trial && (match s.trial_expires_at {
        Some(e) => (match rfc3339_micros(e) {
            Some(t) => t > now_micros,
            None => false,
        }),
        None => false,
    })
}

/// Whether the plan permits a view at the instant `now_micros`: a trial
/// permits every view while active, a paid plan exactly its own view.
pub open spec fn can_access_view_at_spec(s: AccessStateV, view: WorkspaceView, now_micros: int) -> bool {
    match s.plan {
        AccessPlan::Trial => trial_active_at(s, now_micros),
        AccessPlan::Personal => view is Personal,
        AccessPlan::Org => view is Org,
    }
}

impl AccessState {
    /// Whether the trial is active at the given instant.
    pub fn is_trial_active_at(&self, now_micros: i64) -> (r: bool)
        ensures
            r == trial_active_at(self.deep_view(), now_micros as int),
    {
        match self.plan {
            AccessPlan::Trial => match &self.trial_expires_at {
                Some(e) => match parse_rfc3339_micros(e.as_str()) {
                    Some(t) => t > now_micros,
                    None => false,
                },
                None => false,
            },
            _ => false,
        }
    }

    /// Whether the trial is active now, by the system clock.
    pub fn is_trial_active(&self) -> (r: bool)
        ensures
            r ==> self.plan is Trial && self.trial_expires_at is Some,
            !(self.plan is Trial) ==> !r,
    {
        let (_, now_micros) = now_rfc3339();
        self.is_trial_active_at(now_micros)
    }

    /// Whether the plan permits `view` at the given instant.
    pub fn can_access_view_at(&self, view: &WorkspaceView, now_micros: i64) -> (r: bool)
        ensures
            r == can_access_view_at_spec(self.deep_view(), *view, now_micros as int),
    {
        match self.plan {
            AccessPlan::Trial => self.is_trial_active_at(now_micros),
            AccessPlan::Personal => match view {
                WorkspaceView::Personal => true,
                WorkspaceView::Org => false,
            },
            AccessPlan::Org => match view {
                WorkspaceView::Org => true,
                WorkspaceView::Personal => false,
            },
        }
    }

    /// Whether the plan permits `view` now, by the system clock.
    pub fn can_access_view(&self, view: &WorkspaceView) -> (r: bool)
        ensures
            self.plan is Personal ==> r == (*view is Personal),
            self.plan is Org ==> r == (*view is Org),
            self.plan is Trial && r ==> self.trial_expires_at is Some,
            self.plan is Trial && self.trial_expires_at is None ==> !r,
    {
        let (_, now_micros) = now_rfc3339();
        self.can_access_view_at(view, now_micros)
    }

    /// Starts (or restarts) the 24-hour trial: the plan becomes Trial on the
    /// Personal view, and the recorded expiry lies exactly 24 hours past the
    /// recorded start.
    pub fn start_trial(&mut self)
        ensures
            ({
                let dv = final(self).deep_view();
                &&& dv.plan is Trial
                &&& dv.active_view is Personal
                &&& dv.trial_started_at is Some
                &&& dv.trial_expires_at is Some
                &&& dv.updated_at == dv.trial_started_at.unwrap()
                &&& rfc3339_micros(dv.trial_started_at.unwrap()) is Some
                &&& rfc3339_micros(dv.trial_expires_at.unwrap()) == Some(
                    rfc3339_micros(dv.trial_started_at.unwrap()).unwrap() + 86_400_000_000,
                )
            }),
    {
        let (now, expires, _) = clock_window(86_400);
        self.plan = AccessPlan::Trial;
        self.active_view = WorkspaceView::Personal;
        self.trial_started_at = Some(now.clone());
        self.trial_expires_at = Some(expires);
        self.updated_at = now;
    }

    /// Switches to a paid plan (or restarts the trial): the plan's own view
    /// becomes active; trial timestamps are kept as they were.
    pub fn set_paid_plan(&mut self, plan: AccessPlan) -> (r: Result<(), ControlPlaneError>)
        ensures
            r is Ok,
            plan is Personal ==> final(self).deep_view() == (AccessStateV {
                plan: AccessPlan::Personal,
                active_view: WorkspaceView::Personal,
                updated_at: final(self).deep_view().updated_at,
                ..old(self).deep_view()
            }),
            plan is Org ==> final(self).deep_view() == (AccessStateV {
                plan: AccessPlan::Org,
                active_view: WorkspaceView::Org,
                updated_at: final(self).deep_view().updated_at,
                ..old(self).deep_view()
            }),
            plan is Trial ==> ({
                let dv = final(self).deep_view();
                &&& dv.plan is Trial
                &&& dv.active_view is Personal
                &&& dv.trial_started_at is Some
                &&& dv.trial_expires_at is Some
                &&& dv.updated_at == dv.trial_started_at.unwrap()
                &&& rfc3339_micros(dv.trial_started_at.unwrap()) is Some
                &&& rfc3339_micros(dv.trial_expires_at.unwrap()) == Some(
                    rfc3339_micros(dv.trial_started_at.unwrap()).unwrap() + 86_400_000_000,
                )
            }),
    {
        match plan {
            AccessPlan::Trial => {
                self.start_trial();
            },
            AccessPlan::Personal => {
                let (now, _) = now_rfc3339();
                self.plan = AccessPlan::Personal;
                self.active_view = WorkspaceView::Personal;
                self.updated_at = now;
            },
            AccessPlan::Org => {
                let (now, _) = now_rfc3339();
                self.plan = AccessPlan::Org;
                self.active_view = WorkspaceView::Org;
                self.updated_at = now;
            },
        }
        Ok(())
    }

    /// Makes `view` the active view at the given instant, if the plan
    /// permits it; otherwise the state is unchanged and the request is
    /// rejected.
    pub fn set_active_view_at(&mut self, view: WorkspaceView, now: String, now_micros: i64) -> (r:
        Result<(), ControlPlaneError>)
        ensures
            if can_access_view_at_spec(old(self).deep_view(), view, now_micros as int) {
                r is Ok && final(self).deep_view() == (AccessStateV {
                    active_view: view,
                    updated_at: now@,
                    ..old(self).deep_view()
                })
            } else {
                r == Err::<(), ControlPlaneError>(ControlPlaneError::ViewNotAllowed { view })
                    && final(self).deep_view() == old(self).deep_view()
            },
    {
        if !self.can_access_view_at(&view, now_micros) {
            return Err(ControlPlaneError::ViewNotAllowed { view });
        }
        self.active_view = view;
        self.updated_at = now;
        Ok(())
    }

    /// Makes `view` the active view if the plan permits it now, by the
    /// system clock.
    pub fn set_active_view(&mut self, view: WorkspaceView) -> (r: Result<(), ControlPlaneError>)
        ensures
            r is Ok ==> final(self).plan == old(self).plan && final(self).active_view == view
                && final(self).deep_view().trial_started_at == old(
                self,
            ).deep_view().trial_started_at && final(self).deep_view().trial_expires_at == old(
                self,
            ).deep_view().trial_expires_at,
            r is Err ==> final(self).deep_view() == old(self).deep_view() && r == Err::<
                (),
                ControlPlaneError,
            >(ControlPlaneError::ViewNotAllowed { view }),
            old(self).plan is Personal ==> (r is Ok <==> view is Personal),
            old(self).plan is Org ==> (r is Ok <==> view is Org),
    {
        let (now, now_micros) = now_rfc3339();
        self.set_active_view_at(view, now, now_micros)
    }
}

/// Everything the policy engine and access gate can reject.
#[derive(Debug)]
pub enum ControlPlaneError {
    /// The current plan does not allow the requested workspace view.
    ViewNotAllowed { view: WorkspaceView },
    /// Only an owner or admin may resolve approvals.
    NotAuthorized,
    /// No approval with the given id exists.
    ApprovalNotFound { id: String },
}

pub enum ControlPlaneErrorV {
    ViewNotAllowed { view: WorkspaceView },
    NotAuthorized,
    ApprovalNotFound { id: Seq<char> },
}

impl DeepView for ControlPlaneError {
    type V = ControlPlaneErrorV;

    open spec fn deep_view(&self) -> ControlPlaneErrorV {
        match self {
            ControlPlaneError::ViewNotAllowed { view } => ControlPlaneErrorV::ViewNotAllowed {
                view: *view,
            },
            ControlPlaneError::NotAuthorized => ControlPlaneErrorV::NotAuthorized,
            ControlPlaneError::ApprovalNotFound { id } => ControlPlaneErrorV::ApprovalNotFound {
                id: id@,
            },
        }
    }
}

/// The operator-facing description of a control-plane rejection.
pub open spec fn control_plane_error_message(e: ControlPlaneErrorV) -> Seq<char> {
    match e {
        ControlPlaneErrorV::ViewNotAllowed { view } => "current plan does not allow '"@
            + view.label() + "' view"@,
        ControlPlaneErrorV::NotAuthorized => "only owner/admin can resolve approvals"@,
        ControlPlaneErrorV::ApprovalNotFound { id } => "approval '"@ + id + "' not found"@,
    }
}

impl ControlPlaneError {
    /// The operator-facing description of the rejection.
    pub fn message(&self) -> (r: String)
        ensures
            r@ == control_plane_error_message(self.deep_view()),
    {
        match self {
            ControlPlaneError::ViewNotAllowed { view } => {
                let mut out = String::from_str("current plan does not allow '");
                out.append(view.as_str());
                out.append("' view");
                out
            },
            ControlPlaneError::NotAuthorized => String::from_str(
                "only owner/admin can resolve approvals",
            ),
            ControlPlaneError::ApprovalNotFound { id } => {
                let mut out = String::from_str("approval '");
                out.append(id.as_str());
                out.append("' not found");
                out
            },
        }
    }
}

} // verus!
