//! The parimutuel prediction market attached to an oracle query. Bets are
//! fixed-price units on a yes/no outcome; selling back before the lock
//! costs a fee that stays in the pool; once the oracle finalizes, winners
//! split the whole pool in proportion to their bets.

use vstd::prelude::*;
use vstd::string::StrSliceExecFns;
use vstd::utf8::encode_utf8;
use crate::constants::{BET_PRICE_LAMPORTS, CANCELLATION_FEE_BPS};
use crate::errors::CustomError;
use crate::query::{query_wf, QueryAccount, QueryStatus};

verus! {

/// Where a market stands: open for bets, locked awaiting the oracle,
/// resolved for redemption, or cancelled for refunds.
#[derive(Clone, Copy, Debug, PartialEq, Eq, Structural)]
pub enum MarketStatus {
    Open,
    Locked,
    Resolved,
    Cancelled,
}

/// A market over one oracle query, pooling fixed-price yes and no bets.
#[derive(Clone, Debug)]
pub struct BetMarket {
    pub market_id: String,
    /// No bets are accepted at or after this time.
    pub lock_timestamp: i64,
    pub total_yes_bets: u64,
    pub total_no_bets: u64,
    pub total_yes_amount: u64,
    pub total_no_amount: u64,
    pub status: MarketStatus,
    /// The winning side once resolved; `None` before that.
    pub winning_side: Option<bool>,
    pub created_at: i64,
}

/// One bettor's position in one market.
#[derive(Clone, Copy, Debug, PartialEq, Eq, Structural)]
pub struct UserBet {
    pub yes_bets: u64,
    pub no_bets: u64,
    pub yes_amount: u64,
    pub no_amount: u64,
    /// Set once winnings or a refund were paid; gates double redemption.
    pub has_redeemed: bool,
}

/// A position with no bets yet.
pub fn fresh_user_bet() -> (b: UserBet)
    ensures
        b == (UserBet { yes_bets: 0, no_bets: 0, yes_amount: 0, no_amount: 0, has_redeemed: false }),
{
    UserBet { yes_bets: 0, no_bets: 0, yes_amount: 0, no_amount: 0, has_redeemed: false }
}

/// An upper-case ASCII letter folded to lower case; any other byte kept.
pub open spec fn ascii_lower(b: u8) -> u8 {
    if 65 <= b && b <= 90 {
        (b + 32) as u8
    } else {
        b
    }
}

/// Byte strings equal up to ASCII case.
pub open spec fn eq_ignore_ascii_case(a: Seq<u8>, b: Seq<u8>) -> bool {
    a.len() == b.len() && forall|i: int| 0 <= i < a.len() ==> ascii_lower(a[i]) == ascii_lower(b[i])
}

/// Whether an oracle result counts as a yes for a binary market: equal to
/// "yes", "true" or "1" up to ASCII case.
pub open spec fn yes_result(result: Seq<char>) -> bool {
    ||| eq_ignore_ascii_case(encode_utf8(result), encode_utf8("yes"@))
    ||| eq_ignore_ascii_case(encode_utf8(result), encode_utf8("true"@))
    ||| eq_ignore_ascii_case(encode_utf8(result), encode_utf8("1"@))
}

fn lower_byte(b: u8) -> (r: u8)
    ensures
        r == ascii_lower(b),
{
    if 65 <= b && b <= 90 {
        b + 32
    } else {
        b
    }
}

fn eq_nocase(a: &[u8], b: &[u8]) -> (r: bool)
    ensures
        r == eq_ignore_ascii_case(a@, b@),
{
    if a.len() != b.len() {
        return false;
    }
    let mut i: usize = 0;
    while i < a.len()
        invariant
            i <= a.len(),
            a@.len() == b@.len(),
            forall|j: int| 0 <= j < i ==> ascii_lower(a@[j]) == ascii_lower(b@[j]),
        decreases a.len() - i,
    {
        let x = lower_byte(*vstd::slice::slice_index_get(a, i));
        let y = lower_byte(*vstd::slice::slice_index_get(b, i));
        if x != y {
            return false;
        }
        i = i + 1;
    }
    true
}

/// Opens a market that locks at the given future time.
pub fn create_bet_market(market_id: String, lock_timestamp: i64, now: i64) -> (r: Result<
    BetMarket,
    CustomError,
>)
    ensures
        market_id@.len() > 64 ==> r == Result::<BetMarket, CustomError>::Err(
            CustomError::InvalidMarketId,
        ),
        market_id@.len() <= 64 && lock_timestamp <= now ==> r == Result::<BetMarket, CustomError>::Err(
            CustomError::MarketLocked,
        ),
        r is Ok <==> market_id@.len() <= 64 && lock_timestamp > now,
        r is Ok ==> r->Ok_0 == (BetMarket {
            market_id,
            lock_timestamp,
            total_yes_bets: 0,
            total_no_bets: 0,
            total_yes_amount: 0,
            total_no_amount: 0,
            status: MarketStatus::Open,
            winning_side: None,
            created_at: now,
        }),
{
    if market_id.as_str().unicode_len() > 64 {
        return Err(CustomError::InvalidMarketId);
    }
    if lock_timestamp <= now {
        return Err(CustomError::MarketLocked);
    }
    Ok(BetMarket {
        market_id,
        lock_timestamp,
        total_yes_bets: 0,
        total_no_bets: 0,
        total_yes_amount: 0,
        total_no_amount: 0,
        status: MarketStatus::Open,
        winning_side: None,
        created_at: now,
    })
}

/// Whether a purchase passes every gate: a positive count, an open market
/// before its lock, and a price that fits the till.
pub open spec fn buy_accepted(market: BetMarket, bet_count: u64, now: i64) -> bool {
    &&& bet_count > 0
    &&& market.status == MarketStatus::Open
    &&& now < market.lock_timestamp
    &&& bet_count * BET_PRICE_LAMPORTS <= u64::MAX
}

/// Buys fixed-price bets on one side of an open market. Returns the total
/// price, which the host collects from the bettor into the market's pool.
pub fn buy_bet(
    market: &mut BetMarket,
    user_bet: &mut UserBet,
    bet_count: u64,
    side: bool,
    now: i64,
) -> (r: Result<u64, CustomError>)
    requires
        buy_accepted(*old(market), bet_count, now) && side ==> old(market).total_yes_bets
            + bet_count <= u64::MAX && old(market).total_yes_amount + bet_count
            * BET_PRICE_LAMPORTS <= u64::MAX && old(user_bet).yes_bets + bet_count <= u64::MAX
            && old(user_bet).yes_amount + bet_count * BET_PRICE_LAMPORTS <= u64::MAX,
        buy_accepted(*old(market), bet_count, now) && !side ==> old(market).total_no_bets
            + bet_count <= u64::MAX && old(market).total_no_amount + bet_count
            * BET_PRICE_LAMPORTS <= u64::MAX && old(user_bet).no_bets + bet_count <= u64::MAX
            && old(user_bet).no_amount + bet_count * BET_PRICE_LAMPORTS <= u64::MAX,
    ensures
        r is Ok <==> buy_accepted(*old(market), bet_count, now),
        r is Err ==> *final(market) == *old(market) && *final(user_bet) == *old(user_bet),
        bet_count == 0 ==> r == Result::<u64, CustomError>::Err(CustomError::InsufficientBetAmount),
        bet_count > 0 && !(old(market).status == MarketStatus::Open && now < old(market).lock_timestamp) ==> r == Result::<u64, CustomError>::Err(CustomError::MarketLocked),
        bet_count > 0 && old(market).status == MarketStatus::Open && now < old(market).lock_timestamp && bet_count * BET_PRICE_LAMPORTS > u64::MAX ==> r == Result::<
            u64,
            CustomError,
        >::Err(CustomError::InsufficientBetAmount),
        r is Ok ==> ({
            let cost = (bet_count * BET_PRICE_LAMPORTS) as u64;
            &&& r->Ok_0 == cost
            &&& side ==> *final(market) == (BetMarket {
                total_yes_bets: (old(market).total_yes_bets + bet_count) as u64,
                total_yes_amount: (old(market).total_yes_amount + cost) as u64,
                ..*old(market)
            }) && *final(user_bet) == (UserBet {
                yes_bets: (old(user_bet).yes_bets + bet_count) as u64,
                yes_amount: (old(user_bet).yes_amount + cost) as u64,
                ..*old(user_bet)
            })
            &&& !side ==> *final(market) == (BetMarket {
                total_no_bets: (old(market).total_no_bets + bet_count) as u64,
                total_no_amount: (old(market).total_no_amount + cost) as u64,
                ..*old(market)
            }) && *final(user_bet) == (UserBet {
                no_bets: (old(user_bet).no_bets + bet_count) as u64,
                no_amount: (old(user_bet).no_amount + cost) as u64,
                ..*old(user_bet)
            })
        }),
{
    if bet_count == 0 {
        return Err(CustomError::InsufficientBetAmount);
    }
    if !matches!(market.status, MarketStatus::Open) {
        return Err(CustomError::MarketLocked);
    }
    if now >= market.lock_timestamp {
        return Err(CustomError::MarketLocked);
    }
    let total_cost = match bet_count.checked_mul(BET_PRICE_LAMPORTS) {
        Some(c) => c,
        None => {
            return Err(CustomError::InsufficientBetAmount);
        },
    };
    if side {
        market.total_yes_bets = market.total_yes_bets + bet_count;
        market.total_yes_amount = market.total_yes_amount + total_cost;
        user_bet.yes_bets = user_bet.yes_bets + bet_count;
        user_bet.yes_amount = user_bet.yes_amount + total_cost;
    } else {
        market.total_no_bets = market.total_no_bets + bet_count;
        market.total_no_amount = market.total_no_amount + total_cost;
        user_bet.no_bets = user_bet.no_bets + bet_count;
        user_bet.no_amount = user_bet.no_amount + total_cost;
    }
    Ok(total_cost)
}

/// Whether a sale passes every gate: a positive count the bettor holds on
/// that side, an open market before its lock, and a price that fits.
pub open spec fn sell_accepted(
    market: BetMarket,
    user_bet: UserBet,
    sell_count: u64,
    side: bool,
    now: i64,
) -> bool {
    &&& sell_count > 0
    &&& market.status == MarketStatus::Open
    &&& now < market.lock_timestamp
    &&& (if side {
        user_bet.yes_bets >= sell_count
    } else {
        user_bet.no_bets >= sell_count
    })
    &&& sell_count * BET_PRICE_LAMPORTS <= u64::MAX
    &&& sell_count * BET_PRICE_LAMPORTS * CANCELLATION_FEE_BPS <= u64::MAX
}

/// The fee kept by the pool when bets are sold back early.
pub open spec fn cancellation_fee(gross: int) -> int {
    gross * CANCELLATION_FEE_BPS / 10000
}

/// Sells bets back to an open market. The bettor is refunded the price less
/// the cancellation fee, which stays in the pool; the host pays the net
/// refund out of the market's funds.
pub fn sell_bet(
    market: &mut BetMarket,
    user_bet: &mut UserBet,
    sell_count: u64,
    side: bool,
    now: i64,
) -> (r: Result<u64, CustomError>)
    requires
        sell_accepted(*old(market), *old(user_bet), sell_count, side, now) && side ==> old(user_bet).yes_bets <= old(market).total_yes_bets,
        sell_accepted(*old(market), *old(user_bet), sell_count, side, now) && !side ==> old(user_bet).no_bets <= old(market).total_no_bets,
    ensures
        r is Ok <==> sell_accepted(*old(market), *old(user_bet), sell_count, side, now),
        r is Err ==> *final(market) == *old(market) && *final(user_bet) == *old(user_bet),
        sell_count == 0 ==> r == Result::<u64, CustomError>::Err(
            CustomError::InsufficientBetAmount,
        ),
        sell_count > 0 && !(old(market).status == MarketStatus::Open && now < old(market).lock_timestamp) ==> r == Result::<u64, CustomError>::Err(CustomError::MarketLocked),
        r is Ok ==> ({
            let gross = (sell_count * BET_PRICE_LAMPORTS) as u64;
            let fee = cancellation_fee(gross as int) as u64;
            let net = (gross - fee) as u64;
            &&& r->Ok_0 == net
            &&& side ==> *final(market) == (BetMarket {
                total_yes_bets: (old(market).total_yes_bets - sell_count) as u64,
                total_yes_amount: if old(market).total_yes_amount >= gross {
                    (old(market).total_yes_amount - gross) as u64
                } else {
                    0
                },
                ..*old(market)
            }) && *final(user_bet) == (UserBet {
                yes_bets: (old(user_bet).yes_bets - sell_count) as u64,
                yes_amount: if old(user_bet).yes_amount >= gross {
                    (old(user_bet).yes_amount - gross) as u64
                } else {
                    0
                },
                ..*old(user_bet)
            })
            &&& !side ==> *final(market) == (BetMarket {
                total_no_bets: (old(market).total_no_bets - sell_count) as u64,
                total_no_amount: if old(market).total_no_amount >= gross {
                    (old(market).total_no_amount - gross) as u64
                } else {
                    0
                },
                ..*old(market)
            }) && *final(user_bet) == (UserBet {
                no_bets: (old(user_bet).no_bets - sell_count) as u64,
                no_amount: if old(user_bet).no_amount >= gross {
                    (old(user_bet).no_amount - gross) as u64
                } else {
                    0
                },
                ..*old(user_bet)
            })
        }),
{
    if sell_count == 0 {
        return Err(CustomError::InsufficientBetAmount);
    }
    if !matches!(market.status, MarketStatus::Open) {
        return Err(CustomError::MarketLocked);
    }
    if now >= market.lock_timestamp {
        return Err(CustomError::MarketLocked);
    }
    if side {
        if !(user_bet.yes_bets >= sell_count) {
            return Err(CustomError::InsufficientBetAmount);
        }
    } else {
        if !(user_bet.no_bets >= sell_count) {
            return Err(CustomError::InsufficientBetAmount);
        }
    }
    let gross_refund = match sell_count.checked_mul(BET_PRICE_LAMPORTS) {
        Some(g) => g,
        None => {
            return Err(CustomError::InsufficientBetAmount);
        },
    };
    let scaled = match gross_refund.checked_mul(CANCELLATION_FEE_BPS) {
        Some(s) => s,
        None => {
            return Err(CustomError::InsufficientBetAmount);
        },
    };
    let fee = scaled / 10000;
    let net_refund = gross_refund.saturating_sub(fee);
    assert(fee <= gross_refund) by {
        assert(scaled / 10000 <= scaled / 10000);
        vstd::arithmetic::div_mod::lemma_div_is_ordered(
            scaled as int,
            gross_refund as int * 10000,
            10000,
        );
        vstd::arithmetic::div_mod::lemma_div_multiples_vanish(gross_refund as int, 10000);
    };
    if side {
        market.total_yes_bets = market.total_yes_bets - sell_count;
        market.total_yes_amount = market.total_yes_amount.saturating_sub(gross_refund);
        user_bet.yes_bets = user_bet.yes_bets - sell_count;
        user_bet.yes_amount = user_bet.yes_amount.saturating_sub(gross_refund);
    } else {
        market.total_no_bets = market.total_no_bets - sell_count;
        market.total_no_amount = market.total_no_amount.saturating_sub(gross_refund);
        user_bet.no_bets = user_bet.no_bets - sell_count;
        user_bet.no_amount = user_bet.no_amount.saturating_sub(gross_refund);
    }
    Ok(net_refund)
}

/// Locks an open market at or after its lock time. A market with no
/// opposing bets is cancelled instead, releasing everyone's stake.
pub fn lock_market(market: &mut BetMarket, now: i64) -> (r: Result<(), CustomError>)
    ensures
        old(market).status != MarketStatus::Open ==> r == Result::<(), CustomError>::Err(
            CustomError::MarketAlreadyResolved,
        ),
        old(market).status == MarketStatus::Open && now < old(market).lock_timestamp ==> r
            == Result::<(), CustomError>::Err(CustomError::MarketNotLocked),
        r is Err ==> *final(market) == *old(market),
        r is Ok <==> old(market).status == MarketStatus::Open && now >= old(market).lock_timestamp,
        r is Ok && (old(market).total_yes_bets == 0 || old(market).total_no_bets == 0) ==> *final(market) == (BetMarket { status: MarketStatus::Cancelled, ..*old(market) }),
        r is Ok && old(market).total_yes_bets > 0 && old(market).total_no_bets > 0 ==> *final(market) == (BetMarket { status: MarketStatus::Locked, ..*old(market) }),
{
    if !matches!(market.status, MarketStatus::Open) {
        return Err(CustomError::MarketAlreadyResolved);
    }
    if now < market.lock_timestamp {
        return Err(CustomError::MarketNotLocked);
    }
    if market.total_yes_bets == 0 || market.total_no_bets == 0 {
        market.status = MarketStatus::Cancelled;
    } else {
        market.status = MarketStatus::Locked;
    }
    Ok(())
}

/// Resolves a locked market from the finalized oracle result: the yes side
/// wins exactly when the result reads "yes", "true" or "1" up to ASCII
/// case.
pub fn resolve_market(market: &mut BetMarket, query: &QueryAccount) -> (r: Result<
    (),
    CustomError,
>)
    requires
        query_wf(*query),
    ensures
        old(market).status != MarketStatus::Locked ==> r == Result::<(), CustomError>::Err(
            CustomError::MarketNotLocked,
        ),
        old(market).status == MarketStatus::Locked && query.status != QueryStatus::Finalized ==> r
            == Result::<(), CustomError>::Err(CustomError::OracleNotFinalized),
        r is Err ==> *final(market) == *old(market),
        r is Ok <==> old(market).status == MarketStatus::Locked && query.status
            == QueryStatus::Finalized,
        r is Ok ==> *final(market) == (BetMarket {
            status: MarketStatus::Resolved,
            winning_side: Some(yes_result(query.result->0@)),
            ..*old(market)
        }),
{
    if !matches!(market.status, MarketStatus::Locked) {
        return Err(CustomError::MarketNotLocked);
    }
    if !matches!(query.status, QueryStatus::Finalized) {
        return Err(CustomError::OracleNotFinalized);
    }
    let yes_wins: bool = match &query.result {
        Some(res) => {
            let rb = res.as_str().as_bytes();
            eq_nocase(rb, "yes".as_bytes()) || eq_nocase(rb, "true".as_bytes()) || eq_nocase(
                rb,
                "1".as_bytes(),
            )
        },
        None => false,
    };
    market.status = MarketStatus::Resolved;
    market.winning_side = Some(yes_wins);
    Ok(())
}

/// Whether a redemption passes every gate: a resolved market and a bettor
/// holding unredeemed bets on the winning side.
pub open spec fn redeem_accepted(market: BetMarket, user_bet: UserBet) -> bool {
    &&& market.status == MarketStatus::Resolved
    &&& !user_bet.has_redeemed
    &&& market.winning_side is Some
    &&& (if market.winning_side->0 {
        user_bet.yes_bets > 0
    } else {
        user_bet.no_bets > 0
    })
}

/// Pays a winner its parimutuel share: its winning bets' fraction of the
/// whole pool. The host transfers the returned payout from the market.
pub fn redeem_winnings(market: &BetMarket, user_bet: &mut UserBet) -> (r: Result<
    u64,
    CustomError,
>)
    requires
        market.total_yes_amount + market.total_no_amount <= u64::MAX,
        market.winning_side == Some(true) ==> old(user_bet).yes_bets <= market.total_yes_bets,
        market.winning_side == Some(false) ==> old(user_bet).no_bets <= market.total_no_bets,
    ensures
        market.status != MarketStatus::Resolved ==> r == Result::<u64, CustomError>::Err(
            CustomError::MarketNotResolved,
        ),
        market.status == MarketStatus::Resolved && old(user_bet).has_redeemed ==> r == Result::<
            u64,
            CustomError,
        >::Err(CustomError::AlreadyRedeemed),
        market.status == MarketStatus::Resolved && !old(user_bet).has_redeemed
            && market.winning_side is None ==> r == Result::<u64, CustomError>::Err(
            CustomError::MarketNotResolved,
        ),
        r is Ok <==> redeem_accepted(*market, *old(user_bet)),
        r is Err ==> *final(user_bet) == *old(user_bet),
        r is Ok ==> *final(user_bet) == (UserBet { has_redeemed: true, ..*old(user_bet) }),
        r is Ok ==> ({
            let winning_bets = if market.winning_side->0 {
                old(user_bet).yes_bets
            } else {
                old(user_bet).no_bets
            };
            let total_winning = if market.winning_side->0 {
                market.total_yes_bets
            } else {
                market.total_no_bets
            };
            let pool = market.total_yes_amount + market.total_no_amount;
            r->Ok_0 == winning_bets as int * pool / (total_winning as int)
        }),
{
    if !matches!(market.status, MarketStatus::Resolved) {
        return Err(CustomError::MarketNotResolved);
    }
    if user_bet.has_redeemed {
        return Err(CustomError::AlreadyRedeemed);
    }
    let winning_side = match market.winning_side {
        Some(w) => w,
        None => {
            return Err(CustomError::MarketNotResolved);
        },
    };
    let user_winning_bets = if winning_side {
        user_bet.yes_bets
    } else {
        user_bet.no_bets
    };
    if user_winning_bets == 0 {
        return Err(CustomError::NotAWinner);
    }
    let total_winning_bets = if winning_side {
        market.total_yes_bets
    } else {
        market.total_no_bets
    };
    let total_pool = market.total_yes_amount + market.total_no_amount;
    proof {
        let u = user_winning_bets as int;
        let p = total_pool as int;
        assert(u * p < 0x100000000000000000000000000000000) by (nonlinear_arith)
            requires
                0 <= u <= 0xffffffffffffffff,
                0 <= p <= 0xffffffffffffffff,
        ;
    }
    let wide = (user_winning_bets as u128) * (total_pool as u128);
    let payout_wide = wide / (total_winning_bets as u128);
    proof {
        let u = user_winning_bets as int;
        let t = total_winning_bets as int;
        let p = total_pool as int;
        assert(u * p <= t * p) by (nonlinear_arith)
            requires
                u <= t,
                p >= 0,
        ;
        vstd::arithmetic::div_mod::lemma_div_is_ordered(u * p, t * p, t);
        vstd::arithmetic::div_mod::lemma_div_multiples_vanish(p, t);
        assert(t * p == p * t) by (nonlinear_arith);
    }
    let payout = payout_wide as u64;
    user_bet.has_redeemed = true;
    Ok(payout)
}

/// Refunds a bettor of a cancelled market its full stake, once. The host
/// transfers the returned amount from the market.
pub fn claim_refund(market: &BetMarket, user_bet: &mut UserBet) -> (r: Result<u64, CustomError>)
    requires
        old(user_bet).yes_amount + old(user_bet).no_amount <= u64::MAX,
    ensures
        market.status != MarketStatus::Cancelled ==> r == Result::<u64, CustomError>::Err(
            CustomError::MarketNotCancelled,
        ),
        market.status == MarketStatus::Cancelled && old(user_bet).has_redeemed ==> r == Result::<
            u64,
            CustomError,
        >::Err(CustomError::AlreadyRedeemed),
        market.status == MarketStatus::Cancelled && !old(user_bet).has_redeemed && old(user_bet).yes_amount + old(user_bet).no_amount == 0 ==> r == Result::<u64, CustomError>::Err(
            CustomError::InsufficientBetAmount,
        ),
        r is Ok <==> market.status == MarketStatus::Cancelled && !old(user_bet).has_redeemed && old(user_bet).yes_amount + old(user_bet).no_amount > 0,
        r is Err ==> *final(user_bet) == *old(user_bet),
        r is Ok ==> *final(user_bet) == (UserBet { has_redeemed: true, ..*old(user_bet) })
            && r->Ok_0 == old(user_bet).yes_amount + old(user_bet).no_amount,
{
    if !matches!(market.status, MarketStatus::Cancelled) {
        return Err(CustomError::MarketNotCancelled);
    }
    if user_bet.has_redeemed {
        return Err(CustomError::AlreadyRedeemed);
    }
    let total_refund = user_bet.yes_amount + user_bet.no_amount;
    if total_refund == 0 {
        return Err(CustomError::InsufficientBetAmount);
    }
    user_bet.has_redeemed = true;
    Ok(total_refund)
}

} // verus!
