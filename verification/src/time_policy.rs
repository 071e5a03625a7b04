//! Durations, in seconds, that the lifecycle rules are measured against.

use vstd::prelude::*;

verus! {

/// Seconds in one day.
pub const DAY: u64 = 86_400;

/// How long an unfunded escrow waits for funding before it may be cancelled.
/// The figure of one day is an assumption: no source gives this timeout.
pub const UNFUNDED_CANCEL_TIMEOUT: u64 = 86_400;

/// Final deadline of a dispute, measured from the moment it was opened.
pub const MAX_DISPUTE_DURATION: u64 = 2_592_000;

/// Window after a dispute opens during which evidence may be challenged.
pub const EVIDENCE_CHALLENGE_WINDOW: u64 = 172_800;

/// Earliest offset from the opening of a dispute at which it may be escalated.
pub const DISPUTE_ESCALATION_WINDOW: u64 = 259_200;

/// Lock-up period after a stake during which it cannot be withdrawn.
pub const STAKE_COOLDOWN: u64 = 604_800;

} // verus!
