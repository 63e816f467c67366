//! The capital ledger and the registries.

use truth_pool::constants::MAX_SENTINELS;
use truth_pool::errors::CustomError;
use truth_pool::participant::{deposit_capital, withdraw_capital, MinerProfile, Role};
use truth_pool::registry::{
    deactivate_sentinel, initialize_category, initialize_config, register_miner, register_partner,
    register_sentinel, update_config, CategoryStats,
};

const ADMIN: u64 = 1;
const TREASURY: u64 = 2;
const GAS_TANK: u64 = 3;
const ARBITER: u64 = 4;
const STRANGER: u64 = 99;

fn cp_miner(balance: u64, rent: u64, locked: u64, pending: u64) -> MinerProfile {
    MinerProfile {
        authority: 5,
        category_id: String::from("sports"),
        balance,
        rent_reserve: rent,
        locked_liquidity: locked,
        pending_settlements: pending,
        reputation: 0,
        role: Role::Standard,
        is_active: true,
    }
}

#[test]
fn t_deposit_credits_balance() {
    let mut m = cp_miner(10, 0, 0, 0);
    deposit_capital(&mut m, 15);
    assert_eq!(m.balance, 25);
}

#[test]
fn t_withdraw_up_to_available() {
    // Available: 100 - 10 reserved - 20 locked - 30 pending = 40.
    let mut m = cp_miner(100, 10, 20, 30);
    assert_eq!(withdraw_capital(&mut m, 40), Ok(()));
    assert_eq!(m.balance, 60);
    // Now nothing is free: 60 - 10 - 20 - 30 = 0.
    assert_eq!(withdraw_capital(&mut m, 1), Err(CustomError::InsufficientFreeCapital));
    assert_eq!(m.balance, 60);
}

#[test]
fn t_withdraw_never_touches_locked_funds() {
    let mut m = cp_miner(50, 0, 30, 30);
    // Locks exceed the balance; nothing can leave.
    assert_eq!(withdraw_capital(&mut m, 1), Err(CustomError::InsufficientFreeCapital));
    assert_eq!(m.balance, 50);
    assert_eq!(withdraw_capital(&mut m, 0), Ok(()));
}

#[test]
fn t_initialize_category_checks_length() {
    assert!(initialize_category(String::from("sports")).is_ok());
    let r = initialize_category("c".repeat(33));
    assert_eq!(r.unwrap_err(), CustomError::CategoryIdTooLong);
}

#[test]
fn t_register_miner_counts_and_checks() {
    let mut category = CategoryStats { category_id: String::from("sports"), active_miners: 7 };
    let r = register_miner(&mut category, 5, String::from("sports"), 1_000).unwrap();
    assert_eq!(category.active_miners, 8);
    assert_eq!(r.role, Role::Standard);
    assert_eq!(r.reputation, 0);
    assert_eq!(r.balance, 1_000);
    assert_eq!(r.rent_reserve, 1_000);
    assert!(r.is_active);
    let wrong = register_miner(&mut category, 5, String::from("weather"), 0);
    assert_eq!(wrong.unwrap_err(), CustomError::CategoryMismatch);
    assert_eq!(category.active_miners, 8);
}

#[test]
fn t_register_partner_needs_admin() {
    let config = initialize_config(ADMIN, TREASURY, GAS_TANK, ARBITER);
    let mut category = CategoryStats { category_id: String::from("sports"), active_miners: 0 };
    let r = register_partner(&config, STRANGER, &mut category, 6, String::from("sports"), 0);
    assert_eq!(r.unwrap_err(), CustomError::Unauthorized);
    let r = register_partner(&config, ADMIN, &mut category, 6, String::from("sports"), 0).unwrap();
    assert_eq!(r.role, Role::Partner);
    assert_eq!(r.reputation, 100);
    assert_eq!(category.active_miners, 1);
}

#[test]
fn t_register_sentinel_cap() {
    let mut config = initialize_config(ADMIN, TREASURY, GAS_TANK, ARBITER);
    for i in 0..MAX_SENTINELS {
        let r = register_sentinel(&mut config, ADMIN, 100 + i as u64, String::from("sports"), 0);
        assert!(r.is_ok());
    }
    assert_eq!(config.sentinel_count, MAX_SENTINELS);
    let r = register_sentinel(&mut config, ADMIN, 999, String::from("sports"), 0);
    assert_eq!(r.unwrap_err(), CustomError::MaxSentinelsReached);
    let r = register_sentinel(&mut config, STRANGER, 999, String::from("sports"), 0);
    assert_eq!(r.unwrap_err(), CustomError::Unauthorized);
}

#[test]
fn t_deactivate_sentinel_paths() {
    let mut config = initialize_config(ADMIN, TREASURY, GAS_TANK, ARBITER);
    let mut sentinel =
        register_sentinel(&mut config, ADMIN, 50, String::from("sports"), 0).unwrap();
    assert_eq!(
        deactivate_sentinel(&mut config, &mut sentinel, STRANGER),
        Err(CustomError::Unauthorized)
    );
    sentinel.locked_liquidity = 5;
    assert_eq!(
        deactivate_sentinel(&mut config, &mut sentinel, ADMIN),
        Err(CustomError::HasLockedFunds)
    );
    sentinel.locked_liquidity = 0;
    assert_eq!(deactivate_sentinel(&mut config, &mut sentinel, ADMIN), Ok(()));
    assert!(!sentinel.is_active);
    assert_eq!(config.sentinel_count, 0);
    // Deactivating again finds a banned account.
    assert_eq!(
        deactivate_sentinel(&mut config, &mut sentinel, ADMIN),
        Err(CustomError::MinerBanned)
    );
    // A standard participant is no sentinel.
    let mut standard = cp_miner(0, 0, 0, 0);
    assert_eq!(
        deactivate_sentinel(&mut config, &mut standard, ADMIN),
        Err(CustomError::NotASentinel)
    );
}

#[test]
fn t_update_config_replaces_selected_fields() {
    let mut config = initialize_config(ADMIN, TREASURY, GAS_TANK, ARBITER);
    assert_eq!(
        update_config(&mut config, STRANGER, None, None, None, None),
        Err(CustomError::Unauthorized)
    );
    assert_eq!(
        update_config(&mut config, ADMIN, Some(10), None, Some(30), None),
        Ok(())
    );
    assert_eq!(config.admin, 10);
    assert_eq!(config.treasury, TREASURY);
    assert_eq!(config.sentinel_gas_tank, 30);
    assert_eq!(config.arbiter_authority, ARBITER);
}
