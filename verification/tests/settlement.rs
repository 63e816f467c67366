//! Claims, slashes and void recovery: payouts, penalties, and the
//! once-only bond release.

use truth_pool::constants::{SETTLEMENT_WINDOW, VOTE_BOND};
use truth_pool::errors::CustomError;
use truth_pool::participant::{MinerProfile, Role};
use truth_pool::query::{uninitialized_query, QueryAccount, QueryStatus, VoterRecord};
use truth_pool::settlement::{
    claim_stake, recover_from_void, slash_liar, slash_non_revealer, ClaimOutcome, SlashOutcome,
};

fn st_finalized_query(bounty: u64, winning_ticket: u32) -> QueryAccount {
    QueryAccount {
        status: QueryStatus::Finalized,
        result: Some(String::from("yes")),
        bounty_total: bounty,
        winning_ticket_id: winning_ticket,
        finalized_at: 0,
        ..uninitialized_query()
    }
}

fn st_revealer(value: &str, ticket: u32) -> VoterRecord {
    VoterRecord {
        authority: 9,
        vote_hash: vec![0u8; 32],
        encrypted_salt: Vec::new(),
        revealed_value: String::from(value),
        ticket_id: ticket,
        has_committed: true,
        has_revealed: true,
        bond_released: false,
    }
}

fn st_miner(role: Role, balance: u64, rent_reserve: u64) -> MinerProfile {
    MinerProfile {
        authority: 9,
        category_id: String::from("sports"),
        balance,
        rent_reserve,
        locked_liquidity: 0,
        pending_settlements: VOTE_BOND,
        reputation: 50,
        role,
        is_active: true,
    }
}

#[test]
fn t_claim_winner_paid_with_fee_split() {
    let query = st_finalized_query(10_000_000_000, 3);
    let mut record = st_revealer("yes", 3);
    let mut miner = st_miner(Role::Standard, 0, 0);
    let r = claim_stake(&query, &mut record, &mut miner, 1);
    assert_eq!(
        r,
        Ok(ClaimOutcome {
            reward: 9_000_000_000,
            treasury_fee: 1_000_000_000,
            paid_to_gas_tank: false
        })
    );
    assert!(record.bond_released);
    assert_eq!(miner.pending_settlements, 0);
}

#[test]
fn t_claim_sentinel_reward_routed_to_gas_tank() {
    let query = st_finalized_query(10_000_000_000, 3);
    let mut record = st_revealer("yes", 3);
    let mut miner = st_miner(Role::Sentinel, 0, 0);
    let r = claim_stake(&query, &mut record, &mut miner, 1).unwrap();
    assert!(r.paid_to_gas_tank);
    assert_eq!(r.reward, 9_000_000_000);
}

#[test]
fn t_claim_nonwinner_releases_without_reward() {
    // A correct revealer that does not hold the winning ticket gets its
    // bond back and nothing else.
    let query = st_finalized_query(10_000_000_000, 3);
    let mut record = st_revealer("yes", 2);
    let mut miner = st_miner(Role::Standard, 0, 0);
    let r = claim_stake(&query, &mut record, &mut miner, 1);
    assert_eq!(r, Ok(ClaimOutcome { reward: 0, treasury_fee: 0, paid_to_gas_tank: false }));
    assert!(record.bond_released);
    assert_eq!(miner.pending_settlements, 0);
}

#[test]
fn t_claim_twice_fails() {
    let query = st_finalized_query(10_000_000_000, 3);
    let mut record = st_revealer("yes", 3);
    let mut miner = st_miner(Role::Standard, 0, 0);
    claim_stake(&query, &mut record, &mut miner, 1).unwrap();
    let r = claim_stake(&query, &mut record, &mut miner, 2);
    assert_eq!(r, Err(CustomError::AlreadyClaimed));
    assert_eq!(miner.pending_settlements, 0);
}

#[test]
fn t_claim_respects_settlement_window() {
    let mut query = st_finalized_query(10_000_000_000, 3);
    query.finalized_at = 100;
    let mut record = st_revealer("yes", 3);
    let mut miner = st_miner(Role::Standard, 0, 0);
    let r = claim_stake(&query, &mut record, &mut miner, 100 + SETTLEMENT_WINDOW);
    assert_eq!(r, Err(CustomError::SettlementLocked));
    assert!(!record.bond_released);
    let r = claim_stake(&query, &mut record, &mut miner, 101 + SETTLEMENT_WINDOW);
    assert!(r.is_ok());
}

#[test]
fn t_claim_wrong_vote_and_wrong_phase() {
    let query = st_finalized_query(10_000_000_000, 3);
    let mut record = st_revealer("no", 3);
    let mut miner = st_miner(Role::Standard, 0, 0);
    assert_eq!(claim_stake(&query, &mut record, &mut miner, 1), Err(CustomError::WrongVote));
    let open = QueryAccount { status: QueryStatus::CommitPhase, ..st_finalized_query(0, 0) };
    assert_eq!(claim_stake(&open, &mut record, &mut miner, 1), Err(CustomError::NotFinalized));
}

#[test]
fn t_slash_liar_takes_bond_when_solvent() {
    let query = st_finalized_query(10_000_000_000, 3);
    let mut record = st_revealer("no", 1);
    let mut miner = st_miner(Role::Standard, 3 * VOTE_BOND, VOTE_BOND);
    let r = slash_liar(&query, &mut record, &mut miner);
    assert_eq!(r, Ok(SlashOutcome { slashed_to_treasury: VOTE_BOND, deactivated: false }));
    assert_eq!(miner.balance, 2 * VOTE_BOND);
    assert!(miner.is_active);
    assert_eq!(miner.reputation, 40);
    assert_eq!(miner.pending_settlements, 0);
    assert!(record.bond_released);
}

#[test]
fn t_slash_liar_deactivates_when_insolvent() {
    // Balance below reserve plus bond: the participant is banned instead
    // of paying.
    let query = st_finalized_query(10_000_000_000, 3);
    let mut record = st_revealer("no", 1);
    let mut miner = st_miner(Role::Standard, VOTE_BOND, VOTE_BOND);
    let r = slash_liar(&query, &mut record, &mut miner);
    assert_eq!(r, Ok(SlashOutcome { slashed_to_treasury: 0, deactivated: true }));
    assert_eq!(miner.balance, VOTE_BOND);
    assert!(!miner.is_active);
    // Exactly reserve plus bond is still not enough: solvency is strict.
    let mut record = st_revealer("no", 1);
    let mut boundary = st_miner(Role::Standard, 2 * VOTE_BOND, VOTE_BOND);
    let r = slash_liar(&query, &mut record, &mut boundary);
    assert_eq!(r, Ok(SlashOutcome { slashed_to_treasury: 0, deactivated: true }));
    assert!(!boundary.is_active);
}

#[test]
fn t_slash_liar_bans_partner_and_sentinel() {
    let query = st_finalized_query(10_000_000_000, 3);
    for role in [Role::Partner, Role::Sentinel] {
        let mut record = st_revealer("no", 1);
        let mut miner = st_miner(role, 1_000 * VOTE_BOND, 0);
        let r = slash_liar(&query, &mut record, &mut miner);
        assert_eq!(r, Ok(SlashOutcome { slashed_to_treasury: 0, deactivated: true }));
        assert!(!miner.is_active);
        assert_eq!(miner.balance, 1_000 * VOTE_BOND);
    }
}

#[test]
fn t_slash_liar_guards() {
    let query = st_finalized_query(10_000_000_000, 3);
    let mut honest = st_revealer("yes", 1);
    let mut miner = st_miner(Role::Standard, 3 * VOTE_BOND, 0);
    assert_eq!(slash_liar(&query, &mut honest, &mut miner), Err(CustomError::MinerWasHonest));
    let mut unrevealed = VoterRecord { has_revealed: false, ..st_revealer("", 0) };
    assert_eq!(slash_liar(&query, &mut unrevealed, &mut miner), Err(CustomError::NotRevealed));
    let mut done = VoterRecord { bond_released: true, ..st_revealer("no", 1) };
    assert_eq!(slash_liar(&query, &mut done, &mut miner), Err(CustomError::AlreadyClaimed));
}

#[test]
fn t_slash_non_revealer_paths() {
    let mut query = st_finalized_query(0, 0);
    query.reveal_deadline = 100;
    let committed = VoterRecord {
        has_revealed: false,
        revealed_value: String::new(),
        ..st_revealer("", 0)
    };
    // Too early.
    let mut rec = committed.clone();
    let mut miner = st_miner(Role::Standard, 3 * VOTE_BOND, VOTE_BOND);
    miner.locked_liquidity = VOTE_BOND;
    assert_eq!(
        slash_non_revealer(&query, &mut rec, &mut miner, 100),
        Err(CustomError::RevealWindowOpen)
    );
    // Solvent standard: locked bond released, one bond to the treasury,
    // and the same reputation penalty as a liar slash.
    let r = slash_non_revealer(&query, &mut rec, &mut miner, 101);
    assert_eq!(r, Ok(SlashOutcome { slashed_to_treasury: VOTE_BOND, deactivated: false }));
    assert_eq!(miner.locked_liquidity, 0);
    assert_eq!(miner.balance, 2 * VOTE_BOND);
    assert_eq!(miner.reputation, 40);
    assert!(rec.bond_released);
    // A second slash fails.
    assert_eq!(
        slash_non_revealer(&query, &mut rec, &mut miner, 102),
        Err(CustomError::AlreadyClaimed)
    );
    // A partner holds only notional capacity: it is banned, not charged.
    let mut rec = committed.clone();
    let mut partner = st_miner(Role::Partner, 0, 0);
    partner.locked_liquidity = VOTE_BOND;
    let r = slash_non_revealer(&query, &mut rec, &mut partner, 101);
    assert_eq!(r, Ok(SlashOutcome { slashed_to_treasury: 0, deactivated: true }));
    assert!(!partner.is_active);
    assert_eq!(partner.locked_liquidity, 0);
    assert_eq!(partner.reputation, 40);
    // An insolvent standard participant is banned instead of charged.
    let mut rec = committed.clone();
    let mut broke = st_miner(Role::Standard, VOTE_BOND, VOTE_BOND);
    broke.locked_liquidity = VOTE_BOND;
    let r = slash_non_revealer(&query, &mut rec, &mut broke, 101);
    assert_eq!(r, Ok(SlashOutcome { slashed_to_treasury: 0, deactivated: true }));
    assert!(!broke.is_active);
    assert_eq!(broke.balance, VOTE_BOND);
    // A revealed record cannot be slashed as a non-revealer.
    let mut revealed = st_revealer("yes", 1);
    assert_eq!(
        slash_non_revealer(&query, &mut revealed, &mut miner, 101),
        Err(CustomError::AlreadyRevealed)
    );
}

#[test]
fn t_recover_from_void_releases_both_kinds() {
    let query = QueryAccount { status: QueryStatus::Voided, ..uninitialized_query() };
    // A revealer gets its pending bond back.
    let mut revealed = st_revealer("yes", 1);
    let mut miner = st_miner(Role::Standard, 0, 0);
    assert_eq!(recover_from_void(&query, &mut revealed, &mut miner), Ok(()));
    assert_eq!(miner.pending_settlements, 0);
    assert!(revealed.bond_released);
    // A committer that never revealed gets its locked bond back.
    let mut committed = VoterRecord {
        has_revealed: false,
        revealed_value: String::new(),
        ..st_revealer("", 0)
    };
    let mut miner = st_miner(Role::Standard, 0, 0);
    miner.locked_liquidity = VOTE_BOND;
    miner.pending_settlements = 0;
    assert_eq!(recover_from_void(&query, &mut committed, &mut miner), Ok(()));
    assert_eq!(miner.locked_liquidity, 0);
    // No double recovery.
    assert_eq!(
        recover_from_void(&query, &mut committed, &mut miner),
        Err(CustomError::AlreadyClaimed)
    );
    // Only voided rounds recover.
    let finalized = st_finalized_query(0, 0);
    let mut rec = st_revealer("yes", 1);
    assert_eq!(
        recover_from_void(&finalized, &mut rec, &mut miner),
        Err(CustomError::NotVoided)
    );
}
