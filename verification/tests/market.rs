//! The parimutuel prediction market over a finalized oracle result.

use truth_pool::constants::BET_PRICE_LAMPORTS;
use truth_pool::errors::CustomError;
use truth_pool::market::{
    buy_bet, claim_refund, create_bet_market, fresh_user_bet, lock_market, redeem_winnings,
    resolve_market, sell_bet, BetMarket, MarketStatus, UserBet,
};
use truth_pool::query::{uninitialized_query, QueryAccount, QueryStatus};

fn mk_market() -> BetMarket {
    create_bet_market(String::from("m1"), 1_000, 0).unwrap()
}

fn mk_finalized(result: &str) -> QueryAccount {
    QueryAccount {
        status: QueryStatus::Finalized,
        result: Some(String::from(result)),
        ..uninitialized_query()
    }
}

#[test]
fn t_create_market_guards() {
    let m = mk_market();
    assert_eq!(m.status, MarketStatus::Open);
    assert_eq!(m.lock_timestamp, 1_000);
    assert_eq!(m.winning_side, None);
    assert_eq!(
        create_bet_market(String::from("m"), 0, 0).unwrap_err(),
        CustomError::MarketLocked
    );
    assert_eq!(
        create_bet_market("m".repeat(65), 1_000, 0).unwrap_err(),
        CustomError::InvalidMarketId
    );
}

#[test]
fn t_buy_bet_accumulates_both_ledgers() {
    let mut market = mk_market();
    let mut bet = fresh_user_bet();
    let cost = buy_bet(&mut market, &mut bet, 3, true, 10).unwrap();
    assert_eq!(cost, 3 * BET_PRICE_LAMPORTS);
    let cost = buy_bet(&mut market, &mut bet, 2, false, 10).unwrap();
    assert_eq!(cost, 2 * BET_PRICE_LAMPORTS);
    assert_eq!(market.total_yes_bets, 3);
    assert_eq!(market.total_no_bets, 2);
    assert_eq!(market.total_yes_amount, 3 * BET_PRICE_LAMPORTS);
    assert_eq!(market.total_no_amount, 2 * BET_PRICE_LAMPORTS);
    assert_eq!(bet.yes_bets, 3);
    assert_eq!(bet.no_bets, 2);
}

#[test]
fn t_buy_bet_guards() {
    let mut market = mk_market();
    let mut bet = fresh_user_bet();
    assert_eq!(
        buy_bet(&mut market, &mut bet, 0, true, 10),
        Err(CustomError::InsufficientBetAmount)
    );
    assert_eq!(
        buy_bet(&mut market, &mut bet, 1, true, 1_000),
        Err(CustomError::MarketLocked)
    );
    market.status = MarketStatus::Locked;
    assert_eq!(
        buy_bet(&mut market, &mut bet, 1, true, 10),
        Err(CustomError::MarketLocked)
    );
    assert_eq!(market.total_yes_bets, 0);
}

#[test]
fn t_sell_bet_charges_cancellation_fee() {
    let mut market = mk_market();
    let mut bet = fresh_user_bet();
    buy_bet(&mut market, &mut bet, 5, true, 10).unwrap();
    let net = sell_bet(&mut market, &mut bet, 2, true, 11).unwrap();
    // Gross 2 units, fee one tenth, net nine tenths.
    let gross = 2 * BET_PRICE_LAMPORTS;
    assert_eq!(net, gross - gross / 10);
    assert_eq!(market.total_yes_bets, 3);
    assert_eq!(market.total_yes_amount, 3 * BET_PRICE_LAMPORTS);
    assert_eq!(bet.yes_bets, 3);
    assert_eq!(bet.yes_amount, 3 * BET_PRICE_LAMPORTS);
}

#[test]
fn t_sell_bet_guards() {
    let mut market = mk_market();
    let mut bet = fresh_user_bet();
    buy_bet(&mut market, &mut bet, 1, false, 10).unwrap();
    assert_eq!(
        sell_bet(&mut market, &mut bet, 2, false, 11),
        Err(CustomError::InsufficientBetAmount)
    );
    assert_eq!(
        sell_bet(&mut market, &mut bet, 1, true, 11),
        Err(CustomError::InsufficientBetAmount)
    );
    assert_eq!(
        sell_bet(&mut market, &mut bet, 1, false, 1_000),
        Err(CustomError::MarketLocked)
    );
}

#[test]
fn t_lock_market_cancels_onesided_pools() {
    let mut market = mk_market();
    let mut bet = fresh_user_bet();
    buy_bet(&mut market, &mut bet, 2, true, 10).unwrap();
    assert_eq!(lock_market(&mut market, 999), Err(CustomError::MarketNotLocked));
    assert_eq!(lock_market(&mut market, 1_000), Ok(()));
    assert_eq!(market.status, MarketStatus::Cancelled);
    assert_eq!(
        lock_market(&mut market, 1_001),
        Err(CustomError::MarketAlreadyResolved)
    );
}

#[test]
fn t_lock_market_locks_contested_pools() {
    let mut market = mk_market();
    let mut a = fresh_user_bet();
    let mut b = fresh_user_bet();
    buy_bet(&mut market, &mut a, 2, true, 10).unwrap();
    buy_bet(&mut market, &mut b, 2, false, 10).unwrap();
    assert_eq!(lock_market(&mut market, 1_000), Ok(()));
    assert_eq!(market.status, MarketStatus::Locked);
}

#[test]
fn t_resolve_market_reads_result_case_insensitively() {
    for (result, side) in [
        ("yes", true),
        ("YES", true),
        ("True", true),
        ("1", true),
        ("no", false),
        ("0", false),
        ("maybe", false),
    ] {
        let mut market = mk_market();
        market.status = MarketStatus::Locked;
        let query = mk_finalized(result);
        assert_eq!(resolve_market(&mut market, &query), Ok(()));
        assert_eq!(market.status, MarketStatus::Resolved);
        assert_eq!(market.winning_side, Some(side), "result {:?}", result);
    }
}

#[test]
fn t_resolve_market_guards() {
    let mut market = mk_market();
    let query = mk_finalized("yes");
    assert_eq!(resolve_market(&mut market, &query), Err(CustomError::MarketNotLocked));
    market.status = MarketStatus::Locked;
    let open = uninitialized_query();
    assert_eq!(resolve_market(&mut market, &open), Err(CustomError::OracleNotFinalized));
}

#[test]
fn t_redeem_winnings_parimutuel_share() {
    // Pool: 5 yes units and 5 no units; the bettor holds 2 of the 5
    // winning yes bets, so it takes two fifths of the whole pool.
    let market = BetMarket {
        status: MarketStatus::Resolved,
        winning_side: Some(true),
        total_yes_bets: 5,
        total_no_bets: 5,
        total_yes_amount: 5 * BET_PRICE_LAMPORTS,
        total_no_amount: 5 * BET_PRICE_LAMPORTS,
        ..mk_market()
    };
    let mut bet = UserBet {
        yes_bets: 2,
        no_bets: 0,
        yes_amount: 2 * BET_PRICE_LAMPORTS,
        no_amount: 0,
        has_redeemed: false,
    };
    let payout = redeem_winnings(&market, &mut bet).unwrap();
    assert_eq!(payout, 4 * BET_PRICE_LAMPORTS);
    assert!(bet.has_redeemed);
    assert_eq!(
        redeem_winnings(&market, &mut bet),
        Err(CustomError::AlreadyRedeemed)
    );
    // A bettor on the losing side takes nothing.
    let mut loser = UserBet {
        yes_bets: 0,
        no_bets: 3,
        yes_amount: 0,
        no_amount: 3 * BET_PRICE_LAMPORTS,
        has_redeemed: false,
    };
    assert_eq!(redeem_winnings(&market, &mut loser), Err(CustomError::NotAWinner));
    // Before resolution there is nothing to redeem.
    let unresolved = BetMarket { status: MarketStatus::Locked, ..mk_market() };
    let mut early = fresh_user_bet();
    assert_eq!(
        redeem_winnings(&unresolved, &mut early),
        Err(CustomError::MarketNotResolved)
    );
}

#[test]
fn t_claim_refund_on_cancelled_market() {
    let market = BetMarket { status: MarketStatus::Cancelled, ..mk_market() };
    let mut bet = UserBet {
        yes_bets: 2,
        no_bets: 1,
        yes_amount: 2 * BET_PRICE_LAMPORTS,
        no_amount: BET_PRICE_LAMPORTS,
        has_redeemed: false,
    };
    let refund = claim_refund(&market, &mut bet).unwrap();
    assert_eq!(refund, 3 * BET_PRICE_LAMPORTS);
    assert_eq!(claim_refund(&market, &mut bet), Err(CustomError::AlreadyRedeemed));
    let mut empty = fresh_user_bet();
    assert_eq!(
        claim_refund(&market, &mut empty),
        Err(CustomError::InsufficientBetAmount)
    );
    let open = mk_market();
    let mut bet2 = fresh_user_bet();
    assert_eq!(
        claim_refund(&open, &mut bet2),
        Err(CustomError::MarketNotCancelled)
    );
}
