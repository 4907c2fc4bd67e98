//! The agent lifecycle state machine: which state transitions the runtime
//! may take, and a controller that enforces them.

use crate::clock::now_rfc3339;
use vstd::prelude::*;

verus! {

#[derive(Debug, Clone, Copy, PartialEq, Eq, Structural)]
pub enum AgentState {
    Stopped,
    Starting,
    Running,
    Degraded,
    Stopping,
}

impl AgentState {
    pub open spec fn label(self) -> Seq<char> {
        match self {
            AgentState::Stopped => "stopped"@,
            AgentState::Starting => "starting"@,
            AgentState::Running => "running"@,
            AgentState::Degraded => "degraded"@,
            AgentState::Stopping => "stopping"@,
        }
    }

    pub fn as_str(self) -> (r: &'static str)
        ensures
            r@ == self.label(),
    {
        match self {
            AgentState::Stopped => "stopped",
            AgentState::Starting => "starting",
            AgentState::Running => "running",
            AgentState::Degraded => "degraded",
            AgentState::Stopping => "stopping",
        }
    }
}

/// The transitions the lifecycle admits.
pub open spec fn valid_transition(from: AgentState, to: AgentState) -> bool {
    ||| (from is Stopped && to is Starting)
    ||| (from is Starting && to is Running)
    ||| (from is Starting && to is Degraded)
    ||| (from is Starting && to is Stopping)
    ||| (from is Running && to is Degraded)
    ||| (from is Running && to is Stopping)
    ||| (from is Degraded && to is Running)
    ||| (from is Degraded && to is Stopping)
    ||| (from is Stopping && to is Stopped)
}

/// Whether the lifecycle admits moving from `from` to `to`.
pub fn is_valid_transition(from: AgentState, to: AgentState) -> (r: bool)
    ensures
        r == valid_transition(from, to),
{
    match (from, to) {
        (AgentState::Stopped, AgentState::Starting) => true,
        (AgentState::Starting, AgentState::Running) => true,
        (AgentState::Starting, AgentState::Degraded) => true,
        (AgentState::Starting, AgentState::Stopping) => true,
        (AgentState::Running, AgentState::Degraded) => true,
        (AgentState::Running, AgentState::Stopping) => true,
        (AgentState::Degraded, AgentState::Running) => true,
        (AgentState::Degraded, AgentState::Stopping) => true,
        (AgentState::Stopping, AgentState::Stopped) => true,
        _ => false,
    }
}

#[derive(Debug, Clone, PartialEq, Eq)]
pub struct LifecycleSnapshot {
    pub state: AgentState,
    pub reason: Option<String>,
    pub updated_at: String,
}

#[derive(Debug)]
pub enum LifecycleError {
    InvalidTransition { from: AgentState, to: AgentState },
}

/// The operator-facing description of a rejected transition.
pub open spec fn lifecycle_error_message(from: AgentState, to: AgentState) -> Seq<char> {
    "invalid lifecycle transition: "@ + from.label() + " -> "@ + to.label()
}

impl LifecycleError {
    pub fn message(&self) -> (r: String)
        ensures
            self matches LifecycleError::InvalidTransition { from, to } ==> r@
                == lifecycle_error_message(*from, *to),
    {
        match self {
            LifecycleError::InvalidTransition { from, to } => {
                let mut out = String::from_str("invalid lifecycle transition: ");
                out.append(from.as_str());
                out.append(" -> ");
                out.append(to.as_str());
                out
            },
        }
    }
}

/// Tracks the agent's lifecycle state and admits only valid transitions.
pub struct LifecycleController {
    pub state: LifecycleSnapshot,
}

impl LifecycleController {
    pub fn new(initial: AgentState) -> (r: Self)
        ensures
            r.state.state == initial,
            r.state.reason is None,
    {
        let (now, _) = now_rfc3339();
        LifecycleController {
            state: LifecycleSnapshot { state: initial, reason: None, updated_at: now },
        }
    }

    /// The current state, reason and update time.
    pub fn snapshot(&self) -> (r: LifecycleSnapshot)
        ensures
            r.state == self.state.state,
            r.reason.deep_view() == self.state.reason.deep_view(),
            r.updated_at@ == self.state.updated_at@,
    {
        LifecycleSnapshot {
            state: self.state.state,
            reason: match &self.state.reason {
                Some(s) => Some(s.clone()),
                None => None,
            },
            updated_at: self.state.updated_at.clone(),
        }
    }

    /// Moves to `target` when the lifecycle admits it (moving to the current
    /// state merely refreshes the reason); an inadmissible move is rejected
    /// and the state is unchanged.
    pub fn transition(&mut self, target: AgentState, reason: Option<String>) -> (r: Result<
        LifecycleSnapshot,
        LifecycleError,
    >)
        ensures
            old(self).state.state == target || valid_transition(old(self).state.state, target)
                ==> (r matches Ok(snap) && final(self).state.state == target && final(self).state.reason.deep_view() == reason.deep_view() && snap.state == target
                && snap.reason.deep_view() == reason.deep_view()),
            !(old(self).state.state == target) && !valid_transition(old(self).state.state, target)
                ==> (r matches Err(e) && *final(self) == *old(self) && (e matches
            LifecycleError::InvalidTransition { from, to } && from == old(self).state.state && to
                == target)),
    {
        let from = self.state.state;
        if from == target {
            let (now, _) = now_rfc3339();
            self.state.reason = reason;
            self.state.updated_at = now;
            return Ok(self.snapshot());
        }
        if !is_valid_transition(from, target) {
            return Err(LifecycleError::InvalidTransition { from, to: target });
        }
        let (now, _) = now_rfc3339();
        self.state.state = target;
        self.state.reason = reason;
        self.state.updated_at = now;
        Ok(self.snapshot())
    }
}

impl Default for LifecycleController {
    /// A controller starting in the Stopped state.
    fn default() -> (r: Self)
        ensures
            r.state.state is Stopped,
            r.state.reason is None,
    {
        LifecycleController::new(AgentState::Stopped)
    }
}

} // verus!
