//! Voice-session disconnect classification and reconnection planning.
//!
//! The heart of the crate is a total, pure classification of disconnect
//! reasons: every reason maps to a decision on whether to attempt a
//! reconnection and to an optional human-readable explanation. Around it
//! stand the composer for the operator-facing notification text, the
//! reconnect-delay plan, and a set-once store for the bot configuration.
use vstd::prelude::*;

pub mod classify;
pub mod config;
pub mod notify;
pub mod plan;

verus! {

/// Opaque identifier of the voice session (one per guild), carried through
/// for logging and correlation only.
#[derive(Clone, Copy, PartialEq, Eq, Structural, Debug, Hash)]
pub struct SessionId(pub u64);

} // verus!
