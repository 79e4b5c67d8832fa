//! Policy parameters, in raw token units and seconds.

use vstd::prelude::*;

verus! {

/// Smallest payment that buys an access pass, and the lower bound of the
/// configurable access cost.
pub const MIN_BURN_AMOUNT: u64 = 500_000_000;

/// Largest payment that buys an access pass, and the upper bound of the
/// configurable access cost.
pub const MAX_BURN_AMOUNT: u64 = 1_000_000_000;

/// How long one paid access pass lasts: 30 days.
pub const ACCESS_PASS_DURATION: i64 = 30 * 24 * 60 * 60;

/// How long a proposal accepts votes after its creation: 7 days.
pub const VOTING_WINDOW: i64 = 7 * 24 * 60 * 60;

/// How long after its creation a proposal may be executed: 14 days.
pub const EXECUTION_WINDOW: i64 = 14 * 24 * 60 * 60;

/// Minimum balance a proposer must hold to create a proposal.
pub const MIN_PROPOSAL_BALANCE: u64 = 10_000_000_000;

/// Minimum balance a voter must hold to cast a vote.
pub const MIN_VOTING_BALANCE: u64 = 1_000_000_000;

/// Minimum number of unique voters before a proposal can pass.
pub const QUORUM_MIN_VOTERS: u32 = 100;

/// Minimum percentage of yes voting power before a proposal can pass.
pub const QUORUM_MIN_YES_PERCENT: u64 = 60;

/// How long an emergency release collects signatures: 7 days.
pub const SIGNATURE_WINDOW: i64 = 7 * 24 * 60 * 60;

/// How long after system initialization the vault stays locked: 2 years.
pub const TIME_LOCK_DURATION: i64 = 2 * 365 * 24 * 60 * 60;

/// Minimum gap between two emergency releases: 30 days.
pub const COOLDOWN_PERIOD: i64 = 30 * 24 * 60 * 60;

/// Number of distinct signatures an emergency release needs.
pub const MIN_SIGNERS: u8 = 5;

/// Minimum balance an emergency initiator or signer must hold.
pub const MIN_EMERGENCY_BALANCE: u64 = 10_000_000_000;

/// Smallest share of the vault an emergency release may ask for, in percent.
pub const MIN_UNLOCK_PERCENTAGE: u8 = 15;

/// Largest share of the vault an emergency release may ask for, in percent.
pub const MAX_UNLOCK_PERCENTAGE: u8 = 35;

/// Largest number of recipients one prize distribution may name.
pub const MAX_RECIPIENTS: usize = 50;

/// Access cost a fresh configuration starts with.
pub const DEFAULT_ACCESS_COST: u64 = 500_000_000;

/// Latest clock reading the engine accepts. Keeping every stored timestamp at
/// or below this bound lets each deadline (at most `TIME_LOCK_DURATION` ahead)
/// be computed without overflowing `i64`.
pub const MAX_TIMESTAMP: i64 = i64::MAX - TIME_LOCK_DURATION;

/// A clock reading the engine accepts: non-negative and small enough that
/// every window computed from it fits in `i64`.
pub open spec fn valid_time(t: i64) -> bool {
    0 <= t <= MAX_TIMESTAMP
}

} // verus!
