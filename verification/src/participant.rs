//! Participant accounts and the capital ledger: balance against locked,
//! pending and reserved funds.

use vstd::prelude::*;
use crate::errors::CustomError;

verus! {

/// An identity supplied by the host environment; callers are already
/// authenticated as one of these when an operation runs.
pub type AccountId = u64;

/// What a participant may do and how its bond is backed.
#[derive(Clone, Copy, Debug, PartialEq, Eq, Structural)]
pub enum Role {
    /// Bonds real collateral and is slashed in funds.
    Standard,
    /// A vetted institution with notional bonding capacity; banned, not
    /// slashed.
    Partner,
    /// A protocol-operated node with notional capacity, subject to the
    /// anti-collusion caps.
    Sentinel,
}

/// A participant's ledger entry. Created at registration, never deleted;
/// `is_active` turns false once banned. The role is immutable after creation.
#[derive(Clone, Debug)]
pub struct MinerProfile {
    pub authority: AccountId,
    pub category_id: String,
    /// Funds held for this participant, including everything locked below.
    pub balance: u64,
    /// The minimum the account must retain; never withdrawable.
    pub rent_reserve: u64,
    /// Bond committed and not yet revealed or settled.
    pub locked_liquidity: u64,
    /// Bond revealed and awaiting settlement.
    pub pending_settlements: u64,
    pub reputation: u64,
    pub role: Role,
    pub is_active: bool,
}

/// What the participant may withdraw or newly bond: the balance less the
/// reserved minimum and everything locked or pending, clamped at zero.
pub open spec fn available_balance(m: MinerProfile) -> int {
    let after_rent = m.balance - m.rent_reserve;
    let after_locks = after_rent - m.locked_liquidity - m.pending_settlements;
    if after_rent <= 0 {
        0
    } else if after_locks <= 0 {
        0
    } else {
        after_locks
    }
}

/// Credits the participant's balance. The host has already moved the funds.
pub fn deposit_capital(miner: &mut MinerProfile, amount: u64)
    requires
        old(miner).balance + amount <= u64::MAX,
    ensures
        *final(miner) == (MinerProfile { balance: (old(miner).balance + amount) as u64, ..*old(miner) }),
{
    miner.balance = miner.balance + amount;
}

/// Debits the participant's balance, but never below what locks, pending
/// settlements and the reserved minimum claim. Withdrawals above the
/// available balance are rejected whole.
pub fn withdraw_capital(miner: &mut MinerProfile, amount: u64) -> (r: Result<(), CustomError>)
    requires
        old(miner).locked_liquidity + old(miner).pending_settlements <= u64::MAX,
    ensures
        r is Ok <==> amount <= available_balance(*old(miner)),
        r is Ok ==> *final(miner) == (MinerProfile {
            balance: (old(miner).balance - amount) as u64,
            ..*old(miner)
        }),
        r is Err ==> r == Result::<(), CustomError>::Err(CustomError::InsufficientFreeCapital)
            && *final(miner) == *old(miner),
{
    let total_locked = miner.locked_liquidity + miner.pending_settlements;
    let available = miner.balance.saturating_sub(miner.rent_reserve).saturating_sub(total_locked);
    if amount <= available {
        assert(amount <= available_balance(*miner));
        miner.balance = miner.balance - amount;
        Ok(())
    } else {
        Err(CustomError::InsufficientFreeCapital)
    }
}

} // verus!
