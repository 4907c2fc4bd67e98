//! The tamper-evident audit chain. Each event carries the hash of the event
//! before it (`prev_hash`, with the literal sentinel `"genesis"` for the
//! first event) and its own hash: SHA-256 over the canonical JSON object of
//! every field except `hash` itself. The chain is append-only; verification
//! recomputes every hash and is the sole proof that the log was not edited
//! out of band.
//!
//! The embedding application keeps the log as a JSON-lines file and hands
//! the parsed events to [`append_audit_event`] and [`verify_audit_log`].

use crate::crypto::{sha256_hex, sha256_hex_of};
use crate::jsontext::{json_quoted, push_json_quoted, push_str_bytes};
use vstd::prelude::*;
use vstd::string::StringSliceAdditionalSpecFns;
use vstd::utf8::encode_utf8;

verus! {

/// One policy-gated action, as recorded in the audit chain.
#[derive(Debug)]
pub struct AuditEvent {
    pub id: String,
    pub timestamp: String,
    pub actor_id: String,
    pub actor_role: String,
    pub action: String,
    pub resource: String,
    pub destination: String,
    pub result: String,
    pub reason: String,
    pub receipt_id: String,
    pub approval_id: Option<String>,
    pub prev_hash: String,
    pub hash: String,
}

/// The mathematical content of an [`AuditEvent`]: its fields as character
/// sequences.
pub struct AuditEventV {
    pub id: Seq<char>,
    pub timestamp: Seq<char>,
    pub actor_id: Seq<char>,
    pub actor_role: Seq<char>,
    pub action: Seq<char>,
    pub resource: Seq<char>,
    pub destination: Seq<char>,
    pub result: Seq<char>,
    pub reason: Seq<char>,
    pub receipt_id: Seq<char>,
    pub approval_id: Option<Seq<char>>,
    pub prev_hash: Seq<char>,
    pub hash: Seq<char>,
}

impl DeepView for AuditEvent {
    type V = AuditEventV;

    open spec fn deep_view(&self) -> AuditEventV {
        AuditEventV {
            id: self.id@,
            timestamp: self.timestamp@,
            actor_id: self.actor_id@,
            actor_role: self.actor_role@,
            action: self.action@,
            resource: self.resource@,
            destination: self.destination@,
            result: self.result@,
            reason: self.reason@,
            receipt_id: self.receipt_id@,
            approval_id: self.approval_id.deep_view(),
            prev_hash: self.prev_hash@,
            hash: self.hash@,
        }
    }
}

/// A JSON string literal holding the UTF-8 encoding of `s`.
pub open spec fn jstr(s: Seq<char>) -> Seq<u8> {
    json_quoted(encode_utf8(s))
}

/// The canonical JSON object an event's hash covers: every field except
/// `hash`, in a fixed key order, with `approval_id` rendered as `null` when
/// absent.
pub open spec fn canonical_audit_bytes(e: AuditEventV) -> Seq<u8> {
    "{\"id\":".spec_bytes() + jstr(e.id) + ",\"timestamp\":".spec_bytes() + jstr(e.timestamp)
        + ",\"actor_id\":".spec_bytes() + jstr(e.actor_id) + ",\"actor_role\":".spec_bytes()
        + jstr(e.actor_role) + ",\"action\":".spec_bytes() + jstr(e.action)
        + ",\"resource\":".spec_bytes() + jstr(e.resource) + ",\"destination\":".spec_bytes()
        + jstr(e.destination) + ",\"result\":".spec_bytes() + jstr(e.result)
        + ",\"reason\":".spec_bytes() + jstr(e.reason) + ",\"receipt_id\":".spec_bytes()
        + jstr(e.receipt_id) + ",\"approval_id\":".spec_bytes() + (match e.approval_id {
        Some(a) => jstr(a),
        None => "null".spec_bytes(),
    }) + ",\"prev_hash\":".spec_bytes() + jstr(e.prev_hash) + "}".spec_bytes()
}

/// The event's stored hash is the SHA-256 hex digest of its canonical bytes.
pub open spec fn audit_event_hash_ok(e: AuditEventV) -> bool {
    e.hash == sha256_hex_of(canonical_audit_bytes(e))
}

/// The chain link at position `i`: the first event points at the genesis
/// sentinel, every later one at the hash of its predecessor.
pub open spec fn chain_prev_ok(events: Seq<AuditEventV>, i: int) -> bool {
    events[i].prev_hash == if i == 0 {
        "genesis"@
    } else {
        events[i - 1].hash
    }
}

pub open spec fn event_ok_at(events: Seq<AuditEventV>, i: int) -> bool {
    chain_prev_ok(events, i) && audit_event_hash_ok(events[i])
}

pub open spec fn chain_ok_upto(events: Seq<AuditEventV>, n: int) -> bool {
    forall|i: int| 0 <= i < n ==> event_ok_at(events, i)
}

/// Well-formedness of a whole audit log.
pub open spec fn chain_ok(events: Seq<AuditEventV>) -> bool {
    chain_ok_upto(events, events.len() as int)
}

/// A valid audit chain begins at the genesis sentinel, and every later
/// event's `prev_hash` equals the hash of the event before it.
pub proof fn lemma_chain_links(events: Seq<AuditEventV>)
    requires
        chain_ok(events),
    ensures
        events.len() > 0 ==> events[0].prev_hash == "genesis"@,
        forall|i: int| 0 < i < events.len() ==> #[trigger] events[i].prev_hash == events[i - 1].hash,
{
    if events.len() > 0 {
        assert(event_ok_at(events, 0));
    }
    assert forall|i: int| 0 < i < events.len() implies #[trigger] events[i].prev_hash == events[i
        - 1].hash by {
        assert(event_ok_at(events, i));
    }
}

/// The canonical JSON rendering of an event, as hashed by the chain.
pub fn canonical_audit_payload(e: &AuditEvent) -> (r: Vec<u8>)
    ensures
        r@ == canonical_audit_bytes(e.deep_view()),
{
    let mut out: Vec<u8> = Vec::new();
    push_str_bytes(&mut out, "{\"id\":");
    push_json_quoted(&mut out, e.id.as_str());
    push_str_bytes(&mut out, ",\"timestamp\":");
    push_json_quoted(&mut out, e.timestamp.as_str());
    push_str_bytes(&mut out, ",\"actor_id\":");
    push_json_quoted(&mut out, e.actor_id.as_str());
    push_str_bytes(&mut out, ",\"actor_role\":");
    push_json_quoted(&mut out, e.actor_role.as_str());
    push_str_bytes(&mut out, ",\"action\":");
    push_json_quoted(&mut out, e.action.as_str());
    push_str_bytes(&mut out, ",\"resource\":");
    push_json_quoted(&mut out, e.resource.as_str());
    push_str_bytes(&mut out, ",\"destination\":");
    push_json_quoted(&mut out, e.destination.as_str());
    push_str_bytes(&mut out, ",\"result\":");
    push_json_quoted(&mut out, e.result.as_str());
    push_str_bytes(&mut out, ",\"reason\":");
    push_json_quoted(&mut out, e.reason.as_str());
    push_str_bytes(&mut out, ",\"receipt_id\":");
    push_json_quoted(&mut out, e.receipt_id.as_str());
    push_str_bytes(&mut out, ",\"approval_id\":");
    match &e.approval_id {
        Some(a) => push_json_quoted(&mut out, a.as_str()),
        None => push_str_bytes(&mut out, "null"),
    }
    push_str_bytes(&mut out, ",\"prev_hash\":");
    push_json_quoted(&mut out, e.prev_hash.as_str());
    push_str_bytes(&mut out, "}");
    proof {
        assert(out@ =~= canonical_audit_bytes(e.deep_view()));
    }
    out
}

/// Chains one event onto the log: `prev_hash` is set to the hash of the
/// last event (or the genesis sentinel for an empty log), the event's own
/// hash is computed over its canonical bytes, and the completed event is
/// appended. Appending to a well-formed log keeps it well-formed.
pub fn append_audit_event(log: &mut Vec<AuditEvent>, event: AuditEvent)
    ensures
        final(log).deep_view().len() == old(log).deep_view().len() + 1,
        final(log).deep_view().take(old(log)@.len() as int) == old(log).deep_view(),
        ({
            let stored = final(log).deep_view().last();
            let prev = if old(log)@.len() == 0 {
                "genesis"@
            } else {
                old(log).deep_view().last().hash
            };
            stored.prev_hash == prev && audit_event_hash_ok(stored) && stored == (AuditEventV {
                prev_hash: stored.prev_hash,
                hash: stored.hash,
                ..event.deep_view()
            })
        }),
        chain_ok(old(log).deep_view()) ==> chain_ok(final(log).deep_view()),
{
    let prev_hash: String = if log.len() == 0 {
        "genesis".to_owned()
    } else {
        log[log.len() - 1].hash.clone()
    };
    let mut stored = event;
    stored.prev_hash = prev_hash;
    let payload = canonical_audit_payload(&stored);
    stored.hash = sha256_hex(payload.as_slice());
    proof {
        assert(canonical_audit_bytes(stored.deep_view()) =~= payload@);
    }
    log.push(stored);
    proof {
        let old_dv = old(log).deep_view();
        let new_dv = log.deep_view();
        assert(new_dv.take(old(log)@.len() as int) =~= old_dv);
        assert(new_dv.last() == log@.last().deep_view());
        if chain_ok(old_dv) {
            assert forall|i: int| 0 <= i < new_dv.len() implies event_ok_at(new_dv, i) by {
                if i < old_dv.len() {
                    assert(event_ok_at(old_dv, i));
                    assert(new_dv[i] == old_dv[i]);
                    if i > 0 {
                        assert(new_dv[i - 1] == old_dv[i - 1]);
                    }
                } else {
                    if i > 0 {
                        assert(new_dv[i - 1] == old_dv[i - 1]);
                    }
                }
            }
        }
    }
}

/// The outcome of a full verification pass over an audit log.
#[derive(Debug)]
pub struct AuditLogVerification {
    pub valid: bool,
    pub entries: usize,
    pub last_hash: Option<String>,
    pub error: Option<String>,
}

/// Walks the log in order, checking each event's chain link and recomputing
/// each event's hash. Reports `valid` exactly when the whole chain is
/// well-formed; on the first offending event it reports which event broke
/// the chain and the last hash that was still good.
#[verifier::rlimit(60)]
pub fn verify_audit_log(log: &Vec<AuditEvent>) -> (r: AuditLogVerification)
    ensures
        r.entries == log@.len(),
        r.valid == chain_ok(log.deep_view()),
        r.valid ==> r.error is None,
        r.valid ==> (match r.last_hash {
            Some(h) => log@.len() > 0 && h@ == log.deep_view().last().hash,
            None => log@.len() == 0,
        }),
        !r.valid ==> (exists|i: int|
            #![trigger chain_ok_upto(log.deep_view(), i)]
            {
                let dv = log.deep_view();
                0 <= i < dv.len() && chain_ok_upto(dv, i) && !event_ok_at(dv, i) && (match r
                    .last_hash {
                    Some(h) => h@ == if i == 0 {
                        "genesis"@
                    } else {
                        dv[i - 1].hash
                    },
                    None => false,
                }) && (match r.error {
                    Some(m) => m@ == if !chain_prev_ok(dv, i) {
                        "chain mismatch at event "@ + dv[i].id
                    } else {
                        "hash mismatch at event "@ + dv[i].id
                    },
                    None => false,
                })
            }),
{
    let n = log.len();
    if n == 0 {
        return AuditLogVerification { valid: true, entries: 0, last_hash: None, error: None };
    }
    let mut prev: String = "genesis".to_owned();
    let mut i: usize = 0;
    while i < n
        invariant
            0 <= i <= n == log@.len(),
            chain_ok_upto(log.deep_view(), i as int),
            prev@ == if i == 0 {
                "genesis"@
            } else {
                log.deep_view()[i - 1].hash
            },
        decreases n - i,
    {
        let e = &log[i];
        proof {
            assert(log.deep_view()[i as int] == log@[i as int].deep_view());
        }
        if !(e.prev_hash == prev) {
            proof {
                let dv = log.deep_view();
                assert(!chain_prev_ok(dv, i as int));
                assert(!event_ok_at(dv, i as int));
                if chain_ok(dv) {
                    assert(event_ok_at(dv, i as int));
                }
            }
            let mut msg = "chain mismatch at event ".to_owned();
            msg.append(e.id.as_str());
            return AuditLogVerification {
                valid: false,
                entries: n,
                last_hash: Some(prev),
                error: Some(msg),
            };
        }
        let payload = canonical_audit_payload(e);
        let expected = sha256_hex(payload.as_slice());
        if !(expected == e.hash) {
            proof {
                let dv = log.deep_view();
                assert(!audit_event_hash_ok(dv[i as int]));
                assert(chain_prev_ok(dv, i as int));
                assert(!event_ok_at(dv, i as int));
                if chain_ok(dv) {
                    assert(event_ok_at(dv, i as int));
                }
            }
            let mut msg = "hash mismatch at event ".to_owned();
            msg.append(e.id.as_str());
            return AuditLogVerification {
                valid: false,
                entries: n,
                last_hash: Some(prev),
                error: Some(msg),
            };
        }
        prev = e.hash.clone();
        i = i + 1;
    }
    AuditLogVerification { valid: true, entries: n, last_hash: Some(prev), error: None }
}

} // verus!
