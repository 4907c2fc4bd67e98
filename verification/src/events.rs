//! Runtime events, as published to subscribers by the embedding
//! application's event bus.

use crate::clock::{new_uuid, now_rfc3339};
use vstd::prelude::*;

verus! {

#[derive(Debug, Clone, PartialEq, Eq)]
pub enum RuntimeEventKind {
    TaskStarted { task_id: String, message: String },
    TaskFinished { task_id: String, success: bool },
    Error { component: String, message: String },
    Shutdown { reason: String },
    HealthTick { state: String },
    LogLine { level: String, component: String, message: String },
    StateChanged { from: String, to: String },
}

#[derive(Debug, Clone, PartialEq, Eq)]
pub struct RuntimeEvent {
    pub id: String,
    pub schema_version: u32,
    pub profile_id: String,
    pub timestamp: String,
    pub kind: RuntimeEventKind,
}

impl RuntimeEvent {
    /// A fresh event for the given profile, stamped with a new id and the
    /// current time.
    pub fn new(profile_id: &str, kind: RuntimeEventKind) -> (r: Self)
        ensures
            r.schema_version == 1,
            r.profile_id@ == profile_id@,
            r.kind == kind,
            r.id@.len() == 36,
    {
        let (now, _) = now_rfc3339();
        RuntimeEvent {
            id: new_uuid(),
            schema_version: 1,
            profile_id: profile_id.to_owned(),
            timestamp: now,
            kind,
        }
    }
}

} // verus!
