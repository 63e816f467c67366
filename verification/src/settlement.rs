//! Settlement of a terminal round: honest claimants release their pending
//! bond and the lottery winner is paid, liars and non-revealers are slashed
//! or banned, and voided rounds hand everyone their bond back. Every path
//! is gated by the once-only `bond_released` flag.

use vstd::prelude::*;
use crate::constants::{SETTLEMENT_WINDOW, VOTE_BOND};
use crate::errors::CustomError;
use crate::participant::{MinerProfile, Role};
use crate::query::{query_wf, QueryAccount, QueryStatus, VoterRecord};

verus! {

/// What a claim paid out. The host moves the funds: the reward to the
/// participant's wallet, or to the protocol gas tank for a sentinel, and
/// the fee to the treasury.
#[derive(Clone, Copy, Debug, PartialEq, Eq, Structural)]
pub struct ClaimOutcome {
    /// The winner's share of the bounty; zero for a correct non-winner.
    pub reward: u64,
    /// The treasury's cut of the bounty; zero for a non-winner.
    pub treasury_fee: u64,
    /// Whether the reward goes to the protocol gas tank instead of the
    /// participant.
    pub paid_to_gas_tank: bool,
}

/// What a slash took. The host transfers `slashed_to_treasury` out of the
/// participant's funds.
#[derive(Clone, Copy, Debug, PartialEq, Eq, Structural)]
pub struct SlashOutcome {
    /// The collateral forfeited to the treasury; zero when the participant
    /// was deactivated instead or holds only notional capacity.
    pub slashed_to_treasury: u64,
    /// Whether the participant was banned by this slash.
    pub deactivated: bool,
}

/// Why a claim is rejected, or `None` when it pays out.
pub open spec fn claim_error(q: QueryAccount, rec: VoterRecord, now: i64) -> Option<CustomError> {
    if q.status != QueryStatus::Finalized {
        Some(CustomError::NotFinalized)
    } else if q.finalized_at > 0 && now <= q.finalized_at + SETTLEMENT_WINDOW {
        Some(CustomError::SettlementLocked)
    } else if !(q.result is Some && rec.revealed_value@ == q.result->0@) {
        Some(CustomError::WrongVote)
    } else if rec.bond_released {
        Some(CustomError::AlreadyClaimed)
    } else {
        None
    }
}

/// Why a liar slash is rejected, or `None` when it proceeds.
pub open spec fn slash_liar_error(q: QueryAccount, rec: VoterRecord) -> Option<CustomError> {
    if q.status != QueryStatus::Finalized {
        Some(CustomError::NotFinalized)
    } else if !rec.has_revealed {
        Some(CustomError::NotRevealed)
    } else if q.result is Some && rec.revealed_value@ == q.result->0@ {
        Some(CustomError::MinerWasHonest)
    } else if rec.bond_released {
        Some(CustomError::AlreadyClaimed)
    } else {
        None
    }
}

/// Why a non-revealer slash is rejected, or `None` when it proceeds.
pub open spec fn slash_non_revealer_error(
    q: QueryAccount,
    rec: VoterRecord,
    now: i64,
) -> Option<CustomError> {
    if now <= q.reveal_deadline {
        Some(CustomError::RevealWindowOpen)
    } else if !rec.has_committed {
        Some(CustomError::NotCommitted)
    } else if rec.has_revealed {
        Some(CustomError::AlreadyRevealed)
    } else if rec.bond_released {
        Some(CustomError::AlreadyClaimed)
    } else {
        None
    }
}

/// Why a void recovery is rejected, or `None` when it proceeds.
pub open spec fn recover_error(q: QueryAccount, rec: VoterRecord) -> Option<CustomError> {
    if q.status != QueryStatus::Voided {
        Some(CustomError::NotVoided)
    } else if rec.bond_released {
        Some(CustomError::AlreadyClaimed)
    } else {
        None
    }
}

/// Whether a standard participant can pay a bond out of its own funds and
/// still keep its reserved minimum.
pub open spec fn solvent_for_bond(m: MinerProfile) -> bool {
    m.balance > m.rent_reserve + VOTE_BOND
}

/// Law: a released bond is never released again. Once `bond_released`
/// holds, every settlement path rejects the record, and whenever a path's
/// earlier guards pass, the rejection it reports is `AlreadyClaimed`.
pub proof fn lemma_settlement_at_most_once(q: QueryAccount, rec: VoterRecord, now: i64)
    requires
        rec.bond_released,
    ensures
        claim_error(q, rec, now) is Some,
        slash_liar_error(q, rec) is Some,
        slash_non_revealer_error(q, rec, now) is Some,
        recover_error(q, rec) is Some,
        q.status == QueryStatus::Finalized && !(q.finalized_at > 0 && now <= q.finalized_at
            + SETTLEMENT_WINDOW) && q.result is Some && rec.revealed_value@ == q.result->0@
            ==> claim_error(q, rec, now) == Some(CustomError::AlreadyClaimed),
        q.status == QueryStatus::Finalized && rec.has_revealed && !(q.result is Some
            && rec.revealed_value@ == q.result->0@) ==> slash_liar_error(q, rec) == Some(
            CustomError::AlreadyClaimed,
        ),
        now > q.reveal_deadline && rec.has_committed && !rec.has_revealed
            ==> slash_non_revealer_error(q, rec, now) == Some(CustomError::AlreadyClaimed),
        q.status == QueryStatus::Voided ==> recover_error(q, rec) == Some(
            CustomError::AlreadyClaimed,
        ),
{
}

/// Releases an honest revealer's pending bond after the settlement window
/// and, when its ticket is the winning ticket, pays the bounty: nine tenths
/// to the participant (to the protocol gas tank for a sentinel), one tenth
/// to the treasury.
pub fn claim_stake(
    query: &QueryAccount,
    voter_record: &mut VoterRecord,
    miner: &mut MinerProfile,
    now: i64,
) -> (r: Result<ClaimOutcome, CustomError>)
    requires
        query_wf(*query),
        query.finalized_at <= i64::MAX - SETTLEMENT_WINDOW,
    ensures
        r is Err <==> claim_error(*query, *old(voter_record), now) is Some,
        r is Err ==> r->Err_0 == claim_error(*query, *old(voter_record), now)->0 && *final(voter_record) == *old(voter_record) && *final(miner) == *old(miner),
        r is Ok ==> *final(voter_record) == (VoterRecord {
            bond_released: true,
            ..*old(voter_record)
        }),
        r is Ok ==> *final(miner) == (MinerProfile {
            pending_settlements: if old(miner).pending_settlements >= VOTE_BOND {
                (old(miner).pending_settlements - VOTE_BOND) as u64
            } else {
                0
            },
            ..*old(miner)
        }),
        r is Ok && old(voter_record).ticket_id == query.winning_ticket_id ==> r->Ok_0
            == (ClaimOutcome {
            reward: (query.bounty_total - query.bounty_total / 10) as u64,
            treasury_fee: query.bounty_total / 10,
            paid_to_gas_tank: old(miner).role == Role::Sentinel,
        }),
        r is Ok && old(voter_record).ticket_id != query.winning_ticket_id ==> r->Ok_0
            == (ClaimOutcome { reward: 0, treasury_fee: 0, paid_to_gas_tank: false }),
{
    if !matches!(query.status, QueryStatus::Finalized) {
        return Err(CustomError::NotFinalized);
    }
    if query.finalized_at > 0 {
        if now <= query.finalized_at + SETTLEMENT_WINDOW {
            return Err(CustomError::SettlementLocked);
        }
    }
    let matches_result: bool = match &query.result {
        Some(res) => voter_record.revealed_value.eq(res),
        None => false,
    };
    if !matches_result {
        return Err(CustomError::WrongVote);
    }
    if voter_record.bond_released {
        return Err(CustomError::AlreadyClaimed);
    }
    miner.pending_settlements = miner.pending_settlements.saturating_sub(VOTE_BOND);
    voter_record.bond_released = true;
    if voter_record.ticket_id == query.winning_ticket_id {
        let bounty = query.bounty_total;
        let treasury_fee = bounty / 10;
        let winner_share = bounty - treasury_fee;
        Ok(ClaimOutcome {
            reward: winner_share,
            treasury_fee,
            paid_to_gas_tank: matches!(miner.role, Role::Sentinel),
        })
    } else {
        Ok(ClaimOutcome { reward: 0, treasury_fee: 0, paid_to_gas_tank: false })
    }
}

/// Slashes a participant that revealed a losing value: the pending bond is
/// released, a solvent standard participant forfeits one bond to the
/// treasury, anyone else is banned, and reputation drops.
pub fn slash_liar(
    query: &QueryAccount,
    voter_record: &mut VoterRecord,
    miner: &mut MinerProfile,
) -> (r: Result<SlashOutcome, CustomError>)
    requires
        query_wf(*query),
        old(miner).rent_reserve <= u64::MAX - VOTE_BOND,
    ensures
        r is Err <==> slash_liar_error(*query, *old(voter_record)) is Some,
        r is Err ==> r->Err_0 == slash_liar_error(*query, *old(voter_record))->0 && *final(voter_record) == *old(voter_record) && *final(miner) == *old(miner),
        r is Ok ==> *final(voter_record) == (VoterRecord {
            bond_released: true,
            ..*old(voter_record)
        }),
        r is Ok ==> ({
            let m0 = *old(miner);
            let released = if m0.pending_settlements >= VOTE_BOND {
                (m0.pending_settlements - VOTE_BOND) as u64
            } else {
                0
            };
            let lowered = if m0.reputation >= 10 {
                (m0.reputation - 10) as u64
            } else {
                0
            };
            if m0.role == Role::Standard && solvent_for_bond(m0) {
                *final(miner) == (MinerProfile {
                    balance: (m0.balance - VOTE_BOND) as u64,
                    pending_settlements: released,
                    reputation: lowered,
                    ..m0
                }) && r->Ok_0 == (SlashOutcome {
                    slashed_to_treasury: VOTE_BOND,
                    deactivated: false,
                })
            } else {
                *final(miner) == (MinerProfile {
                    pending_settlements: released,
                    reputation: lowered,
                    is_active: false,
                    ..m0
                }) && r->Ok_0 == (SlashOutcome { slashed_to_treasury: 0, deactivated: true })
            }
        }),
{
    if !matches!(query.status, QueryStatus::Finalized) {
        return Err(CustomError::NotFinalized);
    }
    if !voter_record.has_revealed {
        return Err(CustomError::NotRevealed);
    }
    let matches_result: bool = match &query.result {
        Some(res) => voter_record.revealed_value.eq(res),
        None => false,
    };
    if matches_result {
        return Err(CustomError::MinerWasHonest);
    }
    if voter_record.bond_released {
        return Err(CustomError::AlreadyClaimed);
    }
    miner.pending_settlements = miner.pending_settlements.saturating_sub(VOTE_BOND);
    let outcome = if matches!(miner.role, Role::Standard) {
        if miner.balance > miner.rent_reserve + VOTE_BOND {
            miner.balance = miner.balance - VOTE_BOND;
            SlashOutcome { slashed_to_treasury: VOTE_BOND, deactivated: false }
        } else {
            miner.is_active = false;
            SlashOutcome { slashed_to_treasury: 0, deactivated: true }
        }
    } else {
        miner.is_active = false;
        SlashOutcome { slashed_to_treasury: 0, deactivated: true }
    };
    voter_record.bond_released = true;
    miner.reputation = miner.reputation.saturating_sub(10);
    Ok(outcome)
}

/// Slashes a participant that committed but never revealed: the still
/// locked bond is released, and the same penalty falls as on a liar — a
/// solvent standard participant forfeits one bond to the treasury, anyone
/// else is banned, and reputation drops.
pub fn slash_non_revealer(
    query: &QueryAccount,
    voter_record: &mut VoterRecord,
    miner: &mut MinerProfile,
    now: i64,
) -> (r: Result<SlashOutcome, CustomError>)
    requires
        old(miner).rent_reserve <= u64::MAX - VOTE_BOND,
    ensures
        r is Err <==> slash_non_revealer_error(*query, *old(voter_record), now) is Some,
        r is Err ==> r->Err_0 == slash_non_revealer_error(*query, *old(voter_record), now)->0
            && *final(voter_record) == *old(voter_record) && *final(miner) == *old(miner),
        r is Ok ==> *final(voter_record) == (VoterRecord {
            bond_released: true,
            ..*old(voter_record)
        }),
        r is Ok ==> ({
            let m0 = *old(miner);
            let released = if m0.locked_liquidity >= VOTE_BOND {
                (m0.locked_liquidity - VOTE_BOND) as u64
            } else {
                0
            };
            let lowered = if m0.reputation >= 10 {
                (m0.reputation - 10) as u64
            } else {
                0
            };
            if m0.role == Role::Standard && solvent_for_bond(m0) {
                *final(miner) == (MinerProfile {
                    balance: (m0.balance - VOTE_BOND) as u64,
                    locked_liquidity: released,
                    reputation: lowered,
                    ..m0
                }) && r->Ok_0 == (SlashOutcome {
                    slashed_to_treasury: VOTE_BOND,
                    deactivated: false,
                })
            } else {
                *final(miner) == (MinerProfile {
                    locked_liquidity: released,
                    reputation: lowered,
                    is_active: false,
                    ..m0
                }) && r->Ok_0 == (SlashOutcome { slashed_to_treasury: 0, deactivated: true })
            }
        }),
{
    if now <= query.reveal_deadline {
        return Err(CustomError::RevealWindowOpen);
    }
    if !voter_record.has_committed {
        return Err(CustomError::NotCommitted);
    }
    if voter_record.has_revealed {
        return Err(CustomError::AlreadyRevealed);
    }
    if voter_record.bond_released {
        return Err(CustomError::AlreadyClaimed);
    }
    miner.locked_liquidity = miner.locked_liquidity.saturating_sub(VOTE_BOND);
    let outcome = if matches!(miner.role, Role::Standard) {
        if miner.balance > miner.rent_reserve + VOTE_BOND {
            miner.balance = miner.balance - VOTE_BOND;
            SlashOutcome { slashed_to_treasury: VOTE_BOND, deactivated: false }
        } else {
            miner.is_active = false;
            SlashOutcome { slashed_to_treasury: 0, deactivated: true }
        }
    } else {
        miner.is_active = false;
        SlashOutcome { slashed_to_treasury: 0, deactivated: true }
    };
    voter_record.bond_released = true;
    miner.reputation = miner.reputation.saturating_sub(10);
    Ok(outcome)
}

/// Hands a participant of a voided round its bond back, locked or pending
/// as the case may be, with no penalty: a voided round holds no one liable.
pub fn recover_from_void(
    query: &QueryAccount,
    voter_record: &mut VoterRecord,
    miner: &mut MinerProfile,
) -> (r: Result<(), CustomError>)
    ensures
        r is Err <==> recover_error(*query, *old(voter_record)) is Some,
        r is Err ==> r->Err_0 == recover_error(*query, *old(voter_record))->0 && *final(voter_record) == *old(voter_record) && *final(miner) == *old(miner),
        r is Ok ==> *final(voter_record) == (VoterRecord {
            bond_released: true,
            ..*old(voter_record)
        }),
        r is Ok ==> ({
            let m0 = *old(miner);
            if old(voter_record).has_revealed {
                *final(miner) == (MinerProfile {
                    pending_settlements: if m0.pending_settlements >= VOTE_BOND {
                        (m0.pending_settlements - VOTE_BOND) as u64
                    } else {
                        0
                    },
                    ..m0
                })
            } else if old(voter_record).has_committed {
                *final(miner) == (MinerProfile {
                    locked_liquidity: if m0.locked_liquidity >= VOTE_BOND {
                        (m0.locked_liquidity - VOTE_BOND) as u64
                    } else {
                        0
                    },
                    ..m0
                })
            } else {
                *final(miner) == m0
            }
        }),
{
    if !matches!(query.status, QueryStatus::Voided) {
        return Err(CustomError::NotVoided);
    }
    if voter_record.bond_released {
        return Err(CustomError::AlreadyClaimed);
    }
    if voter_record.has_revealed {
        miner.pending_settlements = miner.pending_settlements.saturating_sub(VOTE_BOND);
    } else if voter_record.has_committed {
        miner.locked_liquidity = miner.locked_liquidity.saturating_sub(VOTE_BOND);
    }
    voter_record.bond_released = true;
    Ok(())
}

} // verus!
