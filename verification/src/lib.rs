//! Governance and trust control plane for a desktop automation product.
//!
//! The crate decides, for every privileged action an actor attempts, whether
//! it is allowed, requires human approval, or is denied; records every
//! decision in a bounded receipt ledger; keeps a hash-linked, independently
//! verifiable audit log; and gates software-release promotion behind Ed25519
//! signatures from a configurable set of trusted signers.
//!
//! All state lives in memory. The embedding application owns persistence: it
//! loads a workspace's JSON documents, drives the verified state machines
//! here, and writes the results back. Because each operation is a whole
//! load-mutate-save cycle, the application must serialize operations on one
//! workspace (a single owning task, or an advisory file lock); otherwise a
//! lost update could break the audit chain's append-only linkage.

pub mod access;
pub mod audit;
pub mod background;
pub mod clock;
pub mod crypto;
pub mod engine;
pub mod events;
pub mod jsontext;
pub mod lifecycle;
pub mod logs;
pub mod mcp;
pub mod pairing;
pub mod policy;
pub mod profiles;
pub mod protocol;
pub mod registry;
pub mod rollout;
pub mod secrets;
pub mod skills;
pub mod textfmt;
