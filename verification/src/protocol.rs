//! The version handshake a client and host exchange before speaking.

use vstd::prelude::*;

verus! {

#[derive(Debug, Clone, PartialEq, Eq)]
pub struct ProtocolHandshake {
    pub core_protocol_version: String,
    pub event_schema_version: u32,
    pub config_schema_version: u32,
}

/// The versions this build of the core speaks.
pub fn protocol_handshake() -> (r: ProtocolHandshake)
    ensures
        r.core_protocol_version@ == "1.0.0"@,
        r.event_schema_version == 1,
        r.config_schema_version == 1,
{
    ProtocolHandshake {
        core_protocol_version: "1.0.0".to_owned(),
        event_schema_version: 1,
        config_schema_version: 1,
    }
}

} // verus!
