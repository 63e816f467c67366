//! Protocol configuration and the category registry that drives quorum
//! sizing. Registration assigns a role once and for all; only the count of
//! active non-sentinel participants feeds the quorum formula.

use vstd::prelude::*;
use crate::constants::MAX_SENTINELS;
use crate::errors::CustomError;
use vstd::string::StrSliceExecFns;
use crate::participant::{AccountId, MinerProfile, Role};

verus! {

/// The protocol's authorities and the global sentinel count.
#[derive(Clone, Copy, Debug)]
pub struct ProtocolConfig {
    /// Final administrative authority: resolves level-2 disputes and appeals.
    pub admin: AccountId,
    /// Receives fees, appeal bonds and slashed collateral.
    pub treasury: AccountId,
    /// Receives sentinel lottery winnings instead of a personal wallet.
    pub sentinel_gas_tank: AccountId,
    /// How many sentinels are registered and active.
    pub sentinel_count: u32,
    /// Automated authority for level-1 dispute resolution.
    pub arbiter_authority: AccountId,
}

/// Per-topic count of active non-sentinel participants; feeds the dynamic
/// quorum floor of new queries.
#[derive(Clone, Debug)]
pub struct CategoryStats {
    pub category_id: String,
    pub active_miners: u64,
}

/// The profile every registration path hands out, differing only in role
/// and starting reputation. A fresh account holds exactly its reserved
/// minimum and has nothing locked.
pub open spec fn fresh_profile(
    authority: AccountId,
    category_id: String,
    rent_reserve: u64,
    role: Role,
    reputation: u64,
) -> MinerProfile {
    MinerProfile {
        authority,
        category_id,
        balance: rent_reserve,
        rent_reserve,
        locked_liquidity: 0,
        pending_settlements: 0,
        reputation,
        role,
        is_active: true,
    }
}

/// Sets up the protocol's authorities.
pub fn initialize_config(
    admin: AccountId,
    treasury: AccountId,
    sentinel_gas_tank: AccountId,
    arbiter_authority: AccountId,
) -> (c: ProtocolConfig)
    ensures
        c == (ProtocolConfig { admin, treasury, sentinel_gas_tank, sentinel_count: 0, arbiter_authority }),
{
    ProtocolConfig { admin, treasury, sentinel_gas_tank, sentinel_count: 0, arbiter_authority }
}

/// Opens a new category with no participants yet.
pub fn initialize_category(category_id: String) -> (r: Result<CategoryStats, CustomError>)
    ensures
        category_id@.len() > 32 ==> r == Result::<CategoryStats, CustomError>::Err(
            CustomError::CategoryIdTooLong,
        ),
        category_id@.len() <= 32 ==> r is Ok && r->Ok_0 == (CategoryStats {
            category_id,
            active_miners: 0,
        }),
{
    if category_id.as_str().unicode_len() > 32 {
        return Err(CustomError::CategoryIdTooLong);
    }
    Ok(CategoryStats { category_id, active_miners: 0 })
}

/// Registers a standard participant under a category and counts it toward
/// the category's quorum base.
pub fn register_miner(
    category: &mut CategoryStats,
    authority: AccountId,
    category_id: String,
    rent_reserve: u64,
) -> (r: Result<MinerProfile, CustomError>)
    requires
        old(category).active_miners < u64::MAX,
    ensures
        category_id@.len() > 32 ==> r == Result::<MinerProfile, CustomError>::Err(
            CustomError::CategoryIdTooLong,
        ),
        category_id@.len() <= 32 && old(category).category_id@ != category_id@ ==> r
            == Result::<MinerProfile, CustomError>::Err(CustomError::CategoryMismatch),
        r is Err ==> *final(category) == *old(category),
        r is Ok <==> category_id@.len() <= 32 && old(category).category_id@ == category_id@,
        r is Ok ==> *final(category) == (CategoryStats {
            active_miners: (old(category).active_miners + 1) as u64,
            ..*old(category)
        }) && r->Ok_0 == fresh_profile(authority, category_id, rent_reserve, Role::Standard, 0),
{
    if category_id.as_str().unicode_len() > 32 {
        return Err(CustomError::CategoryIdTooLong);
    }
    if !category.category_id.eq(&category_id) {
        return Err(CustomError::CategoryMismatch);
    }
    category.active_miners = category.active_miners + 1;
    Ok(MinerProfile {
        authority,
        category_id,
        balance: rent_reserve,
        rent_reserve,
        locked_liquidity: 0,
        pending_settlements: 0,
        reputation: 0,
        role: Role::Standard,
        is_active: true,
    })
}

/// Registers a vetted partner. Only the admin may do so; the partner counts
/// toward the category's quorum base and starts with full reputation.
pub fn register_partner(
    config: &ProtocolConfig,
    caller: AccountId,
    category: &mut CategoryStats,
    partner_wallet: AccountId,
    category_id: String,
    rent_reserve: u64,
) -> (r: Result<MinerProfile, CustomError>)
    requires
        old(category).active_miners < u64::MAX,
    ensures
        category_id@.len() > 32 ==> r == Result::<MinerProfile, CustomError>::Err(
            CustomError::CategoryIdTooLong,
        ),
        category_id@.len() <= 32 && caller != config.admin ==> r
            == Result::<MinerProfile, CustomError>::Err(CustomError::Unauthorized),
        category_id@.len() <= 32 && caller == config.admin && old(category).category_id@
            != category_id@ ==> r == Result::<MinerProfile, CustomError>::Err(
            CustomError::CategoryMismatch,
        ),
        r is Err ==> *final(category) == *old(category),
        r is Ok <==> category_id@.len() <= 32 && caller == config.admin && old(category).category_id@ == category_id@,
        r is Ok ==> *final(category) == (CategoryStats {
            active_miners: (old(category).active_miners + 1) as u64,
            ..*old(category)
        }) && r->Ok_0 == fresh_profile(partner_wallet, category_id, rent_reserve, Role::Partner, 100),
{
    if category_id.as_str().unicode_len() > 32 {
        return Err(CustomError::CategoryIdTooLong);
    }
    if caller != config.admin {
        return Err(CustomError::Unauthorized);
    }
    if !category.category_id.eq(&category_id) {
        return Err(CustomError::CategoryMismatch);
    }
    category.active_miners = category.active_miners + 1;
    Ok(MinerProfile {
        authority: partner_wallet,
        category_id,
        balance: rent_reserve,
        rent_reserve,
        locked_liquidity: 0,
        pending_settlements: 0,
        reputation: 100,
        role: Role::Partner,
        is_active: true,
    })
}

/// Registers a protocol sentinel. Only the admin may do so, the hard cap on
/// sentinels applies, and the sentinel does not count toward any category's
/// quorum base.
pub fn register_sentinel(
    config: &mut ProtocolConfig,
    caller: AccountId,
    sentinel_authority: AccountId,
    category_id: String,
    rent_reserve: u64,
) -> (r: Result<MinerProfile, CustomError>)
    ensures
        category_id@.len() > 32 ==> r == Result::<MinerProfile, CustomError>::Err(
            CustomError::CategoryIdTooLong,
        ),
        category_id@.len() <= 32 && caller != old(config).admin ==> r
            == Result::<MinerProfile, CustomError>::Err(CustomError::Unauthorized),
        category_id@.len() <= 32 && caller == old(config).admin && old(config).sentinel_count
            >= MAX_SENTINELS ==> r == Result::<MinerProfile, CustomError>::Err(
            CustomError::MaxSentinelsReached,
        ),
        r is Err ==> *final(config) == *old(config),
        r is Ok <==> category_id@.len() <= 32 && caller == old(config).admin && old(config).sentinel_count < MAX_SENTINELS,
        r is Ok ==> *final(config) == (ProtocolConfig {
            sentinel_count: (old(config).sentinel_count + 1) as u32,
            ..*old(config)
        }) && r->Ok_0 == fresh_profile(
            sentinel_authority,
            category_id,
            rent_reserve,
            Role::Sentinel,
            100,
        ),
{
    if category_id.as_str().unicode_len() > 32 {
        return Err(CustomError::CategoryIdTooLong);
    }
    if caller != config.admin {
        return Err(CustomError::Unauthorized);
    }
    if config.sentinel_count >= MAX_SENTINELS {
        return Err(CustomError::MaxSentinelsReached);
    }
    config.sentinel_count = config.sentinel_count + 1;
    Ok(MinerProfile {
        authority: sentinel_authority,
        category_id,
        balance: rent_reserve,
        rent_reserve,
        locked_liquidity: 0,
        pending_settlements: 0,
        reputation: 100,
        role: Role::Sentinel,
        is_active: true,
    })
}

/// Replaces any subset of the protocol's authorities. Admin only.
pub fn update_config(
    config: &mut ProtocolConfig,
    caller: AccountId,
    new_admin: Option<AccountId>,
    new_treasury: Option<AccountId>,
    new_gas_tank: Option<AccountId>,
    new_arbiter: Option<AccountId>,
) -> (r: Result<(), CustomError>)
    ensures
        caller != old(config).admin ==> r == Result::<(), CustomError>::Err(
            CustomError::Unauthorized,
        ) && *final(config) == *old(config),
        caller == old(config).admin ==> r is Ok && *final(config) == (ProtocolConfig {
            admin: if new_admin is Some { new_admin->0 } else { old(config).admin },
            treasury: if new_treasury is Some { new_treasury->0 } else { old(config).treasury },
            sentinel_gas_tank: if new_gas_tank is Some {
                new_gas_tank->0
            } else {
                old(config).sentinel_gas_tank
            },
            arbiter_authority: if new_arbiter is Some {
                new_arbiter->0
            } else {
                old(config).arbiter_authority
            },
            ..*old(config)
        }),
{
    if caller != config.admin {
        return Err(CustomError::Unauthorized);
    }
    if let Some(admin) = new_admin {
        config.admin = admin;
    }
    if let Some(treasury) = new_treasury {
        config.treasury = treasury;
    }
    if let Some(gas_tank) = new_gas_tank {
        config.sentinel_gas_tank = gas_tank;
    }
    if let Some(arbiter) = new_arbiter {
        config.arbiter_authority = arbiter;
    }
    Ok(())
}

/// Retires a sentinel that holds no locked or pending funds. Admin only;
/// the sentinel is deactivated and the global count drops.
pub fn deactivate_sentinel(
    config: &mut ProtocolConfig,
    miner: &mut MinerProfile,
    caller: AccountId,
) -> (r: Result<(), CustomError>)
    ensures
        caller != old(config).admin ==> r == Result::<(), CustomError>::Err(
            CustomError::Unauthorized,
        ),
        caller == old(config).admin && old(miner).role != Role::Sentinel ==> r == Result::<
            (),
            CustomError,
        >::Err(CustomError::NotASentinel),
        caller == old(config).admin && old(miner).role == Role::Sentinel && !old(miner).is_active
            ==> r == Result::<(), CustomError>::Err(CustomError::MinerBanned),
        caller == old(config).admin && old(miner).role == Role::Sentinel && old(miner).is_active
            && !(old(miner).locked_liquidity == 0 && old(miner).pending_settlements == 0) ==> r
            == Result::<(), CustomError>::Err(CustomError::HasLockedFunds),
        r is Err ==> *final(config) == *old(config) && *final(miner) == *old(miner),
        r is Ok <==> caller == old(config).admin && old(miner).role == Role::Sentinel && old(miner).is_active && old(miner).locked_liquidity == 0 && old(miner).pending_settlements == 0,
        r is Ok ==> *final(miner) == (MinerProfile { is_active: false, ..*old(miner) }) && *final(config) == (ProtocolConfig {
            sentinel_count: if old(config).sentinel_count > 0 {
                (old(config).sentinel_count - 1) as u32
            } else {
                0
            },
            ..*old(config)
        }),
{
    if caller != config.admin {
        return Err(CustomError::Unauthorized);
    }
    if !matches!(miner.role, Role::Sentinel) {
        return Err(CustomError::NotASentinel);
    }
    if !miner.is_active {
        return Err(CustomError::MinerBanned);
    }
    if !(miner.locked_liquidity == 0 && miner.pending_settlements == 0) {
        return Err(CustomError::HasLockedFunds);
    }
    miner.is_active = false;
    config.sentinel_count = config.sentinel_count.saturating_sub(1);
    Ok(())
}

} // verus!

