//! The error kinds that a rejected operation reports. Every failure leaves
//! all state untouched; the kind tells the caller whether it was too early,
//! unauthorized, already settled, and so on.

use vstd::prelude::*;

verus! {

/// Why an operation was rejected. Each operation's contract states exactly
/// which kind is returned on which inputs.
#[derive(Clone, Copy, Debug, PartialEq, Eq, Structural)]
pub enum CustomError {
    /// The phase's deadline has passed.
    PhaseClosed,
    /// The recomputed hash does not match the stored commitment.
    HashMismatch,
    /// The query has not reached the `Finalized` status.
    NotFinalized,
    /// The revealed value differs from the finalized result.
    WrongVote,
    /// The bond of this commitment record was already released.
    AlreadyClaimed,
    /// The participant revealed the winning value and cannot be slashed.
    MinerWasHonest,
    /// The bonding or withdrawal check failed.
    InsufficientFreeCapital,
    /// The settlement window has not elapsed yet.
    SettlementLocked,
    /// The participant has been deactivated.
    MinerBanned,
    /// Sentinels may not form a majority of commits.
    SentinelCapReached,
    /// Re-funding used a different answer format.
    FormatMismatch,
    /// The settlement window for filing an appeal has closed.
    AppealWindowClosed,
    /// The query already reached a terminal status.
    QueryAlreadyResolved,
    /// The vote tally is full; no further distinct values are accepted.
    TooManyOptions,
    /// The caller lacks the required authority.
    Unauthorized,
    /// The reveal deadline has not passed yet.
    RevealWindowOpen,
    /// The commit deadline has not passed yet.
    CommitWindowOpen,
    /// The hard cap on sentinel registrations was reached.
    MaxSentinelsReached,
    /// The query is not in the phase this operation needs.
    WrongPhase,
    /// No commitment was recorded for this participant.
    NotCommitted,
    /// The participant already revealed.
    AlreadyRevealed,
    /// The participant never revealed.
    NotRevealed,
    /// The query was not voided.
    NotVoided,
    /// The category identifier is longer than allowed.
    CategoryIdTooLong,
    /// The event identifier is longer than allowed.
    EventIdTooLong,
    /// The category does not match the stored one.
    CategoryMismatch,
    /// The query is not in dispute.
    NotInDispute,
    /// The account is not a sentinel.
    NotASentinel,
    /// The sentinel still has locked or pending funds.
    HasLockedFunds,
    /// The tally holds no votes to draw a winner from.
    NoValidVotes,
    /// The dispute is at a different escalation level.
    WrongDisputeLevel,
    /// Neither the arbiter nor the escalation timeout permits this.
    EscalationNotAllowed,
    /// The market does not accept bets (locked or past its lock time).
    MarketLocked,
    /// The market has not been locked yet.
    MarketNotLocked,
    /// The market already left the open state.
    MarketAlreadyResolved,
    /// The market has not been resolved yet.
    MarketNotResolved,
    /// The winnings or the refund were already paid out.
    AlreadyRedeemed,
    /// The bettor holds no bets on the winning side.
    NotAWinner,
    /// A bet amount was zero or does not fit the price arithmetic.
    InsufficientBetAmount,
    /// The market was not cancelled.
    MarketNotCancelled,
    /// The oracle query backing the market is not finalized.
    OracleNotFinalized,
    /// The market identifier is longer than allowed.
    InvalidMarketId,
}

} // verus!
