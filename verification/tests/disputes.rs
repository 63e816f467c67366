//! The dispute ladder and the appeal path.

use truth_pool::constants::{DISPUTE_ESCALATION_WINDOW, SETTLEMENT_WINDOW};
use truth_pool::dispute::{
    arbiter_resolve_dispute, dao_resolve_dispute, escalate_to_dao, file_appeal, resolve_appeal,
};
use truth_pool::errors::CustomError;
use truth_pool::query::{uninitialized_query, QueryAccount, QueryStatus};
use truth_pool::registry::initialize_config;

const ADMIN: u64 = 1;
const TREASURY: u64 = 2;
const GAS_TANK: u64 = 3;
const ARBITER: u64 = 4;
const STRANGER: u64 = 99;

fn dp_disputed(level: u8, started_at: i64) -> QueryAccount {
    QueryAccount {
        status: QueryStatus::InDispute,
        dispute_level: level,
        dispute_initiated_at: started_at,
        ..uninitialized_query()
    }
}

#[test]
fn t_arbiter_resolves_with_replacement() {
    let config = initialize_config(ADMIN, TREASURY, GAS_TANK, ARBITER);
    let mut query = dp_disputed(1, 50);
    let r = arbiter_resolve_dispute(
        &mut query,
        &config,
        ARBITER,
        Some(String::from("corrected")),
        60,
    );
    assert_eq!(r, Ok(()));
    assert_eq!(query.status, QueryStatus::Finalized);
    assert_eq!(query.result, Some(String::from("corrected")));
    assert_eq!(query.finalized_at, 60);
    assert_eq!(query.dispute_level, 0);
}

#[test]
fn t_arbiter_voids_without_replacement() {
    let config = initialize_config(ADMIN, TREASURY, GAS_TANK, ARBITER);
    let mut query = dp_disputed(1, 50);
    let r = arbiter_resolve_dispute(&mut query, &config, ARBITER, None, 60);
    assert_eq!(r, Ok(()));
    assert_eq!(query.status, QueryStatus::Voided);
    assert_eq!(query.dispute_level, 0);
}

#[test]
fn t_arbiter_resolution_guards() {
    let config = initialize_config(ADMIN, TREASURY, GAS_TANK, ARBITER);
    let mut query = dp_disputed(1, 50);
    assert_eq!(
        arbiter_resolve_dispute(&mut query, &config, STRANGER, None, 60),
        Err(CustomError::Unauthorized)
    );
    let mut level2 = dp_disputed(2, 50);
    assert_eq!(
        arbiter_resolve_dispute(&mut level2, &config, ARBITER, None, 60),
        Err(CustomError::WrongDisputeLevel)
    );
    let mut open = QueryAccount { status: QueryStatus::CommitPhase, ..uninitialized_query() };
    assert_eq!(
        arbiter_resolve_dispute(&mut open, &config, ARBITER, None, 60),
        Err(CustomError::NotInDispute)
    );
}

#[test]
fn t_escalation_by_arbiter_and_by_timeout() {
    let config = initialize_config(ADMIN, TREASURY, GAS_TANK, ARBITER);
    // The arbiter may escalate at once.
    let mut query = dp_disputed(1, 50);
    assert_eq!(escalate_to_dao(&mut query, &config, ARBITER, 60), Ok(()));
    assert_eq!(query.dispute_level, 2);
    assert_eq!(query.dispute_initiated_at, 60);
    // Anyone else must wait out the escalation window.
    let mut query = dp_disputed(1, 50);
    assert_eq!(
        escalate_to_dao(&mut query, &config, STRANGER, 50 + DISPUTE_ESCALATION_WINDOW),
        Err(CustomError::EscalationNotAllowed)
    );
    assert_eq!(query.dispute_level, 1);
    assert_eq!(
        escalate_to_dao(&mut query, &config, STRANGER, 51 + DISPUTE_ESCALATION_WINDOW),
        Ok(())
    );
    assert_eq!(query.dispute_level, 2);
}

#[test]
fn t_dao_resolution_requires_level_two() {
    let config = initialize_config(ADMIN, TREASURY, GAS_TANK, ARBITER);
    let mut query = dp_disputed(1, 50);
    assert_eq!(
        dao_resolve_dispute(&mut query, &config, ADMIN, None, 60),
        Err(CustomError::WrongDisputeLevel)
    );
    let mut query = dp_disputed(2, 50);
    assert_eq!(
        dao_resolve_dispute(&mut query, &config, STRANGER, None, 60),
        Err(CustomError::Unauthorized)
    );
    let r = dao_resolve_dispute(&mut query, &config, ADMIN, Some(String::from("final")), 70);
    assert_eq!(r, Ok(()));
    assert_eq!(query.status, QueryStatus::Finalized);
    assert_eq!(query.result, Some(String::from("final")));
    assert_eq!(query.dispute_level, 0);
}

#[test]
fn t_appeal_window_and_resolution() {
    let config = initialize_config(ADMIN, TREASURY, GAS_TANK, ARBITER);
    let mut query = QueryAccount {
        status: QueryStatus::Finalized,
        result: Some(String::from("yes")),
        finalized_at: 100,
        ..uninitialized_query()
    };
    // Too late.
    assert_eq!(
        file_appeal(&mut query, 101 + SETTLEMENT_WINDOW),
        Err(CustomError::AppealWindowClosed)
    );
    // In time.
    assert_eq!(file_appeal(&mut query, 100 + SETTLEMENT_WINDOW), Ok(()));
    assert_eq!(query.status, QueryStatus::UnderAppeal);
    // A second appeal finds no finalized result.
    assert_eq!(file_appeal(&mut query, 200), Err(CustomError::NotFinalized));
    // Only the admin resolves it, and only from under appeal.
    assert_eq!(
        resolve_appeal(&mut query, &config, STRANGER, true, 300),
        Err(CustomError::Unauthorized)
    );
    assert_eq!(resolve_appeal(&mut query, &config, ADMIN, true, 300), Ok(()));
    assert_eq!(query.status, QueryStatus::Finalized);
    // Upholding restarts the settlement window.
    assert_eq!(query.finalized_at, 300);
    assert_eq!(
        resolve_appeal(&mut query, &config, ADMIN, true, 301),
        Err(CustomError::WrongPhase)
    );
    // An overturned appeal voids the round.
    assert_eq!(file_appeal(&mut query, 301), Ok(()));
    assert_eq!(resolve_appeal(&mut query, &config, ADMIN, false, 302), Ok(()));
    assert_eq!(query.status, QueryStatus::Voided);
}
