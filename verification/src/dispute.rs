//! The dispute ladder and the appeal path. A query that fails its consensus
//! checks sits at dispute level 1, where the automated arbiter rules; it can
//! escalate once to level 2, where the administrative authority rules. A
//! finalized result may be appealed during the settlement window and is then
//! upheld or overturned by the administrative authority.

use vstd::prelude::*;
use crate::constants::{DISPUTE_ESCALATION_WINDOW, SETTLEMENT_WINDOW};
use crate::errors::CustomError;
use crate::participant::AccountId;
use crate::query::{query_wf, QueryAccount, QueryStatus};
use crate::registry::ProtocolConfig;

verus! {

/// Moves a finalized query under appeal. Anyone may file within the
/// settlement window; the host collects the non-refundable appeal bond for
/// the treasury before this runs.
pub fn file_appeal(query: &mut QueryAccount, now: i64) -> (r: Result<(), CustomError>)
    requires
        query_wf(*old(query)),
        old(query).finalized_at <= i64::MAX - SETTLEMENT_WINDOW,
    ensures
        old(query).status != QueryStatus::Finalized ==> r == Result::<(), CustomError>::Err(
            CustomError::NotFinalized,
        ),
        old(query).status == QueryStatus::Finalized && now > old(query).finalized_at
            + SETTLEMENT_WINDOW ==> r == Result::<(), CustomError>::Err(
            CustomError::AppealWindowClosed,
        ),
        r is Err ==> *final(query) == *old(query),
        r is Ok <==> old(query).status == QueryStatus::Finalized && now <= old(query).finalized_at
            + SETTLEMENT_WINDOW,
        r is Ok ==> *final(query) == (QueryAccount {
            status: QueryStatus::UnderAppeal,
            ..*old(query)
        }),
        query_wf(*final(query)),
{
    if !matches!(query.status, QueryStatus::Finalized) {
        return Err(CustomError::NotFinalized);
    }
    if now > query.finalized_at + SETTLEMENT_WINDOW {
        return Err(CustomError::AppealWindowClosed);
    }
    query.status = QueryStatus::UnderAppeal;
    Ok(())
}

/// Settles an appeal: the administrative authority either upholds the
/// result, restarting the settlement window, or overturns the round into a
/// void.
pub fn resolve_appeal(
    query: &mut QueryAccount,
    config: &ProtocolConfig,
    caller: AccountId,
    uphold_result: bool,
    now: i64,
) -> (r: Result<(), CustomError>)
    requires
        query_wf(*old(query)),
    ensures
        caller != config.admin ==> r == Result::<(), CustomError>::Err(CustomError::Unauthorized),
        caller == config.admin && old(query).status != QueryStatus::UnderAppeal ==> r == Result::<
            (),
            CustomError,
        >::Err(CustomError::WrongPhase),
        r is Err ==> *final(query) == *old(query),
        r is Ok <==> caller == config.admin && old(query).status == QueryStatus::UnderAppeal,
        r is Ok && uphold_result ==> *final(query) == (QueryAccount {
            status: QueryStatus::Finalized,
            finalized_at: now,
            ..*old(query)
        }),
        r is Ok && !uphold_result ==> *final(query) == (QueryAccount {
            status: QueryStatus::Voided,
            ..*old(query)
        }),
        query_wf(*final(query)),
{
    if caller != config.admin {
        return Err(CustomError::Unauthorized);
    }
    if !matches!(query.status, QueryStatus::UnderAppeal) {
        return Err(CustomError::WrongPhase);
    }
    if uphold_result {
        query.status = QueryStatus::Finalized;
        query.finalized_at = now;
    } else {
        query.status = QueryStatus::Voided;
    }
    Ok(())
}

/// Level-1 resolution: the arbiter supplies a replacement result, which
/// finalizes the query, or none, which voids it. Either way the ladder is
/// left.
pub fn arbiter_resolve_dispute(
    query: &mut QueryAccount,
    config: &ProtocolConfig,
    caller: AccountId,
    new_result: Option<String>,
    now: i64,
) -> (r: Result<(), CustomError>)
    requires
        query_wf(*old(query)),
    ensures
        caller != config.arbiter_authority ==> r == Result::<(), CustomError>::Err(
            CustomError::Unauthorized,
        ),
        caller == config.arbiter_authority && old(query).status != QueryStatus::InDispute ==> r
            == Result::<(), CustomError>::Err(CustomError::NotInDispute),
        caller == config.arbiter_authority && old(query).status == QueryStatus::InDispute && old(
            query,
        ).dispute_level != 1 ==> r == Result::<(), CustomError>::Err(
            CustomError::WrongDisputeLevel,
        ),
        r is Err ==> *final(query) == *old(query),
        r is Ok <==> caller == config.arbiter_authority && old(query).status
            == QueryStatus::InDispute && old(query).dispute_level == 1,
        r is Ok && new_result is Some ==> *final(query) == (QueryAccount {
            result: new_result,
            status: QueryStatus::Finalized,
            finalized_at: now,
            dispute_level: 0,
            ..*old(query)
        }),
        r is Ok && new_result is None ==> *final(query) == (QueryAccount {
            status: QueryStatus::Voided,
            dispute_level: 0,
            ..*old(query)
        }),
        query_wf(*final(query)),
{
    if caller != config.arbiter_authority {
        return Err(CustomError::Unauthorized);
    }
    if !matches!(query.status, QueryStatus::InDispute) {
        return Err(CustomError::NotInDispute);
    }
    if query.dispute_level != 1 {
        return Err(CustomError::WrongDisputeLevel);
    }
    if let Some(result) = new_result {
        query.result = Some(result);
        query.status = QueryStatus::Finalized;
        query.finalized_at = now;
        query.dispute_level = 0;
    } else {
        query.status = QueryStatus::Voided;
        query.dispute_level = 0;
    }
    Ok(())
}

/// Escalates a level-1 dispute to the final review level. The arbiter may
/// escalate at will; anyone else only after the escalation window has run
/// out. The review timer restarts.
pub fn escalate_to_dao(
    query: &mut QueryAccount,
    config: &ProtocolConfig,
    caller: AccountId,
    now: i64,
) -> (r: Result<(), CustomError>)
    requires
        query_wf(*old(query)),
        old(query).dispute_initiated_at <= i64::MAX - DISPUTE_ESCALATION_WINDOW,
    ensures
        old(query).status != QueryStatus::InDispute ==> r == Result::<(), CustomError>::Err(
            CustomError::NotInDispute,
        ),
        old(query).status == QueryStatus::InDispute && old(query).dispute_level != 1 ==> r
            == Result::<(), CustomError>::Err(CustomError::WrongDisputeLevel),
        old(query).status == QueryStatus::InDispute && old(query).dispute_level == 1 && !(caller
            == config.arbiter_authority || now > old(query).dispute_initiated_at
            + DISPUTE_ESCALATION_WINDOW) ==> r == Result::<(), CustomError>::Err(
            CustomError::EscalationNotAllowed,
        ),
        r is Err ==> *final(query) == *old(query),
        r is Ok <==> old(query).status == QueryStatus::InDispute && old(query).dispute_level == 1
            && (caller == config.arbiter_authority || now > old(query).dispute_initiated_at
            + DISPUTE_ESCALATION_WINDOW),
        r is Ok ==> *final(query) == (QueryAccount {
            dispute_level: 2,
            dispute_initiated_at: now,
            ..*old(query)
        }),
        query_wf(*final(query)),
{
    if !matches!(query.status, QueryStatus::InDispute) {
        return Err(CustomError::NotInDispute);
    }
    if query.dispute_level != 1 {
        return Err(CustomError::WrongDisputeLevel);
    }
    let is_arbiter = caller == config.arbiter_authority;
    let timeout_passed = now > query.dispute_initiated_at + DISPUTE_ESCALATION_WINDOW;
    if !(is_arbiter || timeout_passed) {
        return Err(CustomError::EscalationNotAllowed);
    }
    query.dispute_level = 2;
    query.dispute_initiated_at = now;
    Ok(())
}

/// Level-2 resolution: the administrative authority replaces the result or
/// voids the round, ending the ladder.
pub fn dao_resolve_dispute(
    query: &mut QueryAccount,
    config: &ProtocolConfig,
    caller: AccountId,
    new_result: Option<String>,
    now: i64,
) -> (r: Result<(), CustomError>)
    requires
        query_wf(*old(query)),
    ensures
        caller != config.admin ==> r == Result::<(), CustomError>::Err(CustomError::Unauthorized),
        caller == config.admin && old(query).status != QueryStatus::InDispute ==> r == Result::<
            (),
            CustomError,
        >::Err(CustomError::NotInDispute),
        caller == config.admin && old(query).status == QueryStatus::InDispute && old(
            query,
        ).dispute_level != 2 ==> r == Result::<(), CustomError>::Err(
            CustomError::WrongDisputeLevel,
        ),
        r is Err ==> *final(query) == *old(query),
        r is Ok <==> caller == config.admin && old(query).status == QueryStatus::InDispute && old(
            query,
        ).dispute_level == 2,
        r is Ok && new_result is Some ==> *final(query) == (QueryAccount {
            result: new_result,
            status: QueryStatus::Finalized,
            finalized_at: now,
            dispute_level: 0,
            ..*old(query)
        }),
        r is Ok && new_result is None ==> *final(query) == (QueryAccount {
            status: QueryStatus::Voided,
            dispute_level: 0,
            ..*old(query)
        }),
        query_wf(*final(query)),
{
    if caller != config.admin {
        return Err(CustomError::Unauthorized);
    }
    if !matches!(query.status, QueryStatus::InDispute) {
        return Err(CustomError::NotInDispute);
    }
    if query.dispute_level != 2 {
        return Err(CustomError::WrongDisputeLevel);
    }
    if let Some(result) = new_result {
        query.result = Some(result);
        query.status = QueryStatus::Finalized;
        query.finalized_at = now;
        query.dispute_level = 0;
    } else {
        query.status = QueryStatus::Voided;
        query.dispute_level = 0;
    }
    Ok(())
}

} // verus!
