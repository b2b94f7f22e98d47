//! Verified decision core of an out-of-process keyboard owner: build identity,
//! capture gating, callback admission, the bounded recovery journal, paste
//! admission and completion decisions, the adapter boundary, and the local
//! macOS peer, credential and endpoint policy.

pub mod build_mode;
pub mod entry;
pub mod capture_gate;
pub mod callback;

pub mod native_event;
pub mod barrier;
pub mod journal;
pub mod journal_ordering;
pub mod journal_sources;
pub mod journal_phases;
pub mod journal_ownership;
pub mod journal_overflow;
pub mod journal_submission;
pub mod journal_fences;
pub mod journal_defer;
pub mod journal_repost;
pub mod recovery_failure;
pub mod journal_laws;

pub mod paste;
pub mod paste_steps;
pub mod adapter;
pub mod executor;

pub mod identity;
pub mod identity_text;
pub mod identity_policy;
pub mod identity_digest;
pub mod identity_digest_laws;
pub mod clipboard_hash;
pub mod peer_evidence;
pub mod native_identity;
pub mod keychain;
pub mod native_keychain;
pub mod endpoint;
pub mod endpoint_config;
pub mod removal;
pub mod service_bridge;
pub mod resilience;
