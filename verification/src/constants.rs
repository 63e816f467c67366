//! Protocol parameters, in native asset units (lamports) and seconds.

use vstd::prelude::*;

verus! {

/// Collateral locked per committed vote.
pub const VOTE_BOND: u64 = 500_000_000;

/// Notional bonding ceiling for vetted partners; no real collateral backs it.
pub const PARTNER_VIRTUAL_CAPACITY: u64 = 500_000_000_000;

/// Notional bonding ceiling for protocol-operated sentinels.
pub const SENTINEL_VIRTUAL_CAPACITY: u64 = 500_000_000_000;

/// Non-refundable bond paid to the treasury when filing an appeal.
pub const APPEAL_BOND: u64 = 1_000_000_000;

/// Seconds after finalization during which an appeal may be filed and
/// before which no claim is paid.
pub const SETTLEMENT_WINDOW: i64 = 43200;

/// Hard cap on registered sentinels.
pub const MAX_SENTINELS: u32 = 100;

/// Length of the commit phase, from query creation.
pub const COMMIT_DURATION: i64 = 600;

/// Length of the reveal phase, after the commit deadline.
pub const REVEAL_DURATION: i64 = 600;

/// Seconds a level-1 dispute may sit before anyone can escalate it.
pub const DISPUTE_ESCALATION_WINDOW: i64 = 86400;

/// Price of a single prediction-market bet.
pub const BET_PRICE_LAMPORTS: u64 = 1_000_000_000;

/// Fee for selling a bet back before the market locks, in basis points.
pub const CANCELLATION_FEE_BPS: u64 = 1000;

/// Most distinct revealed values a tally stores.
pub const MAX_VOTE_OPTIONS: usize = 50;

/// Quorum floor no query may go below.
pub const NETWORK_FLOOR: u32 = 100;

} // verus!
