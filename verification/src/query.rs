//! The query lifecycle: creation and re-funding, the commit and reveal
//! protocol with its anti-collusion caps and randomness accumulator, and the
//! tally that finalizes, voids or escalates a query.

use vstd::prelude::*;
use vstd::string::StrSliceExecFns;
use crate::constants::{
    COMMIT_DURATION, MAX_VOTE_OPTIONS, NETWORK_FLOOR, PARTNER_VIRTUAL_CAPACITY, REVEAL_DURATION,
    SENTINEL_VIRTUAL_CAPACITY, VOTE_BOND,
};
use crate::errors::CustomError;
use crate::hashing::{
    bytes_eq, commitment_hash, keccak256_of, le64, le64_seed, salt_digest, spec_commitment,
    xor_bytes, xor_into,
};
use crate::participant::{available_balance, AccountId, MinerProfile, Role};
use crate::registry::CategoryStats;
use vstd::utf8::encode_utf8;

verus! {

/// Where a query stands in its lifecycle. `Finalized` and `Voided` are
/// terminal, except that an appeal may reopen `Finalized`.
#[derive(Clone, Copy, Debug, PartialEq, Eq, Structural)]
pub enum QueryStatus {
    Uninitialized,
    CommitPhase,
    RevealPhase,
    Finalized,
    UnderAppeal,
    Voided,
    InDispute,
}

/// The declared shape of a query's answers; re-funding must agree with it.
#[derive(Clone, Copy, Debug, PartialEq, Eq, Structural)]
pub enum ResponseFormat {
    Binary,
    Score,
    Decimal,
    Text,
    OptionIndex,
}

/// The format a funding request's numeric code selects.
pub open spec fn format_of(format_type: u8) -> ResponseFormat {
    if format_type == 0 {
        ResponseFormat::Binary
    } else if format_type == 1 {
        ResponseFormat::Score
    } else if format_type == 2 {
        ResponseFormat::Decimal
    } else if format_type == 3 {
        ResponseFormat::Text
    } else {
        ResponseFormat::OptionIndex
    }
}

/// One distinct revealed value and how many participants revealed it.
#[derive(Clone, Debug)]
pub struct VoteOptionSimple {
    pub value: String,
    pub count: u32,
}

/// A query's vote tally: an insertion-ordered list of distinct revealed
/// values, bounded to keep storage flat.
#[derive(Clone, Debug)]
pub struct VoteStatsSafe {
    pub options: Vec<VoteOptionSimple>,
}

/// One participant's commitment to one query: the hidden hash, the value
/// once revealed, a lottery ticket ordinal, and the monotone flags that
/// guard double action.
#[derive(Clone, Debug)]
pub struct VoterRecord {
    pub authority: AccountId,
    /// The keccak-256 commitment over `value || secret`.
    pub vote_hash: Vec<u8>,
    /// An opaque blob for off-chain use; never inspected here.
    pub encrypted_salt: Vec<u8>,
    pub revealed_value: String,
    /// 1-based position among reveals of the same value; 0 until revealed.
    pub ticket_id: u32,
    pub has_committed: bool,
    pub has_revealed: bool,
    /// Flips false to true exactly once; gates every payout and penalty.
    pub bond_released: bool,
}

/// One data request: its funding, deadlines, counters, randomness
/// accumulator and outcome.
#[derive(Clone, Debug)]
pub struct QueryAccount {
    pub unique_event_id: String,
    pub category_id: String,
    pub bounty_total: u64,
    pub status: QueryStatus,
    pub format: ResponseFormat,
    /// Quorum floor, fixed at creation from the category's size.
    pub min_responses: u32,
    pub commit_deadline: i64,
    pub reveal_deadline: i64,
    pub finalized_at: i64,
    pub commit_count: u32,
    pub sentinel_commit_count: u32,
    pub sentinel_reveal_count: u32,
    pub reveal_count: u32,
    /// The winning value once finalized; never a sentinel empty string.
    pub result: Option<String>,
    pub winning_ticket_id: u32,
    /// Running XOR of the keccak digests of all revealed secrets.
    pub random_accumulator: Vec<u8>,
    /// 0 when not disputed, else the ladder level (1 arbiter, 2 final review).
    pub dispute_level: u8,
    pub dispute_initiated_at: i64,
}

/// What every reachable query satisfies: a 32-byte accumulator, the network
/// quorum floor once created, and a result wherever one is owed.
pub open spec fn query_wf(q: QueryAccount) -> bool {
    &&& q.random_accumulator@.len() == 32
    &&& q.status != QueryStatus::Uninitialized ==> q.min_responses >= NETWORK_FLOOR
    &&& (q.status == QueryStatus::Finalized || q.status == QueryStatus::UnderAppeal)
        ==> q.result is Some
}

/// What every reachable tally satisfies: bounded breadth and no empty entry.
pub open spec fn stats_wf(s: VoteStatsSafe) -> bool {
    &&& s.options@.len() <= MAX_VOTE_OPTIONS
    &&& forall|i: int| 0 <= i < s.options@.len() ==> s.options@[i].count >= 1
}

/// Sum of all tallied votes.
pub open spec fn sum_counts(opts: Seq<VoteOptionSimple>) -> int
    decreases opts.len(),
{
    if opts.len() == 0 {
        0
    } else {
        sum_counts(opts.drop_last()) + opts.last().count
    }
}

/// The largest tallied count, 0 for an empty tally.
pub open spec fn max_count(opts: Seq<VoteOptionSimple>) -> int
    decreases opts.len(),
{
    if opts.len() == 0 {
        0
    } else {
        let prev = max_count(opts.drop_last());
        if opts.last().count > prev {
            opts.last().count as int
        } else {
            prev
        }
    }
}

/// The position of the first entry reaching the largest count; this is the
/// entry a tally scan settles on.
pub open spec fn winner_index(opts: Seq<VoteOptionSimple>) -> int
    decreases opts.len(),
{
    if opts.len() == 0 {
        0
    } else if opts.last().count > max_count(opts.drop_last()) {
        opts.len() - 1
    } else {
        winner_index(opts.drop_last())
    }
}

/// The value consensus settles on: the first value with the most votes.
pub open spec fn winner_value(opts: Seq<VoteOptionSimple>) -> Seq<char> {
    opts[winner_index(opts)].value@
}

/// The position of the first tally entry holding `value`, or the tally's
/// length when no entry does.
pub open spec fn first_match(opts: Seq<VoteOptionSimple>, value: Seq<char>) -> int
    decreases opts.len(),
{
    if opts.len() == 0 {
        0
    } else if opts.first().value@ == value {
        0
    } else {
        1 + first_match(opts.drop_first(), value)
    }
}

/// The quorum floor for a category of the given size: at least the network
/// floor, at least half the category rounded up.
pub open spec fn quorum_floor(active_miners: u64) -> int {
    let active_floor = (active_miners + 1) / 2;
    if active_floor > NETWORK_FLOOR {
        active_floor
    } else {
        NETWORK_FLOOR as int
    }
}

/// Why a funding request is rejected, or `None` when it is accepted.
pub open spec fn request_error(
    q: QueryAccount,
    uid: Seq<char>,
    cid: Seq<char>,
    format_type: u8,
) -> Option<CustomError> {
    if uid.len() > 64 {
        Some(CustomError::EventIdTooLong)
    } else if cid.len() > 32 {
        Some(CustomError::CategoryIdTooLong)
    } else if q.status == QueryStatus::Finalized || q.status == QueryStatus::Voided {
        Some(CustomError::QueryAlreadyResolved)
    } else if q.status != QueryStatus::Uninitialized && q.category_id@ != cid {
        Some(CustomError::CategoryMismatch)
    } else if q.status != QueryStatus::Uninitialized && q.format != format_of(format_type) {
        Some(CustomError::FormatMismatch)
    } else {
        None
    }
}

/// The fields a newly opened query carries.
pub open spec fn initialized_query(
    q: QueryAccount,
    uid: String,
    cid: String,
    bounty: u64,
    format_type: u8,
    active_miners: u64,
    now: i64,
) -> bool {
    &&& q.unique_event_id == uid
    &&& q.category_id == cid
    &&& q.bounty_total == bounty
    &&& q.status == QueryStatus::CommitPhase
    &&& q.format == format_of(format_type)
    &&& q.min_responses == quorum_floor(active_miners)
    &&& q.commit_deadline == now + COMMIT_DURATION
    &&& q.reveal_deadline == now + COMMIT_DURATION + REVEAL_DURATION
    &&& q.finalized_at == 0
    &&& q.commit_count == 0
    &&& q.sentinel_commit_count == 0
    &&& q.sentinel_reveal_count == 0
    &&& q.reveal_count == 0
    &&& q.result is None
    &&& q.winning_ticket_id == 0
    &&& q.random_accumulator@ == Seq::new(32, |i: int| 0u8)
    &&& q.dispute_level == 0
    &&& q.dispute_initiated_at == 0
}

/// Creates a query on its first funding, or adds to the bounty of an open
/// one. A new query opens its commit phase, fixes its quorum floor from the
/// category's current size, and starts with a zeroed randomness accumulator
/// and an empty tally. Re-funding must agree on category and format.
pub fn request_data(
    query: &mut QueryAccount,
    stats: &mut VoteStatsSafe,
    category: &CategoryStats,
    unique_event_id: String,
    category_id: String,
    bounty: u64,
    format_type: u8,
    now: i64,
) -> (r: Result<(), CustomError>)
    requires
        query_wf(*old(query)),
        category.active_miners < u64::MAX,
        quorum_floor(category.active_miners) <= u32::MAX,
        now <= i64::MAX - COMMIT_DURATION - REVEAL_DURATION,
        old(query).bounty_total + bounty <= u64::MAX,
    ensures
        r is Err <==> request_error(*old(query), unique_event_id@, category_id@, format_type)
            is Some,
        r is Err ==> r->Err_0 == request_error(
            *old(query),
            unique_event_id@,
            category_id@,
            format_type,
        )->0 && *final(query) == *old(query) && *final(stats) == *old(stats),
        r is Ok && old(query).status == QueryStatus::Uninitialized ==> initialized_query(
            *final(query),
            unique_event_id,
            category_id,
            bounty,
            format_type,
            category.active_miners,
            now,
        ) && final(stats).options@.len() == 0,
        r is Ok && old(query).status != QueryStatus::Uninitialized ==> *final(query)
            == (QueryAccount {
            bounty_total: (old(query).bounty_total + bounty) as u64,
            ..*old(query)
        }) && *final(stats) == *old(stats),
        r is Ok ==> query_wf(*final(query)),
{
    if unique_event_id.as_str().unicode_len() > 64 {
        return Err(CustomError::EventIdTooLong);
    }
    if category_id.as_str().unicode_len() > 32 {
        return Err(CustomError::CategoryIdTooLong);
    }
    if matches!(query.status, QueryStatus::Finalized) || matches!(query.status, QueryStatus::Voided) {
        return Err(CustomError::QueryAlreadyResolved);
    }
    let format = match format_type {
        0 => ResponseFormat::Binary,
        1 => ResponseFormat::Score,
        2 => ResponseFormat::Decimal,
        3 => ResponseFormat::Text,
        _ => ResponseFormat::OptionIndex,
    };
    if matches!(query.status, QueryStatus::Uninitialized) {
        let network_floor: u32 = NETWORK_FLOOR;
        let active_floor64 = (category.active_miners + 1) / 2;
        let active_floor = active_floor64 as u32;
        query.unique_event_id = unique_event_id;
        query.category_id = category_id;
        query.bounty_total = bounty;
        query.status = QueryStatus::CommitPhase;
        query.format = format;
        query.min_responses = if active_floor > network_floor {
            active_floor
        } else {
            network_floor
        };
        query.commit_deadline = now + COMMIT_DURATION;
        query.reveal_deadline = now + COMMIT_DURATION + REVEAL_DURATION;
        query.finalized_at = 0;
        query.commit_count = 0;
        query.sentinel_commit_count = 0;
        query.sentinel_reveal_count = 0;
        query.reveal_count = 0;
        query.result = None;
        query.winning_ticket_id = 0;
        query.random_accumulator = zeroed_accumulator();
        query.dispute_level = 0;
        query.dispute_initiated_at = 0;
        stats.options = Vec::new();
    } else {
        if !query.category_id.eq(&category_id) {
            return Err(CustomError::CategoryMismatch);
        }
        if query.format != format {
            return Err(CustomError::FormatMismatch);
        }
        query.bounty_total = query.bounty_total + bounty;
    }
    Ok(())
}

/// A fresh, all-zero 32-byte randomness accumulator.
fn zeroed_accumulator() -> (r: Vec<u8>)
    ensures
        r@ == Seq::new(32, |i: int| 0u8),
{
    let mut r: Vec<u8> = Vec::new();
    let mut i: usize = 0;
    while i < 32
        invariant
            i <= 32,
            r@.len() == i,
            forall|j: int| 0 <= j < i ==> r@[j] == 0u8,
        decreases 32 - i,
    {
        r.push(0u8);
        i = i + 1;
    }
    proof {
        assert(r@ =~= Seq::new(32, |i: int| 0u8));
    }
    r
}

/// A query account before its first funding request.
pub fn uninitialized_query() -> (q: QueryAccount)
    ensures
        q.status == QueryStatus::Uninitialized,
        q.bounty_total == 0,
        q.result is None,
        query_wf(q),
{
    QueryAccount {
        unique_event_id: String::new(),
        category_id: String::new(),
        bounty_total: 0,
        status: QueryStatus::Uninitialized,
        format: ResponseFormat::Binary,
        min_responses: 0,
        commit_deadline: 0,
        reveal_deadline: 0,
        finalized_at: 0,
        commit_count: 0,
        sentinel_commit_count: 0,
        sentinel_reveal_count: 0,
        reveal_count: 0,
        result: None,
        winning_ticket_id: 0,
        random_accumulator: zeroed_accumulator(),
        dispute_level: 0,
        dispute_initiated_at: 0,
    }
}

/// An empty tally for a fresh query.
pub fn empty_stats() -> (s: VoteStatsSafe)
    ensures
        s.options@.len() == 0,
        stats_wf(s),
{
    VoteStatsSafe { options: Vec::new() }
}

/// A record with no commitment yet.
pub fn fresh_voter_record() -> (rec: VoterRecord)
    ensures
        !rec.has_committed,
        !rec.has_revealed,
        !rec.bond_released,
        rec.ticket_id == 0,
{
    VoterRecord {
        authority: 0,
        vote_hash: Vec::new(),
        encrypted_salt: Vec::new(),
        revealed_value: String::new(),
        ticket_id: 0,
        has_committed: false,
        has_revealed: false,
        bond_released: false,
    }
}

/// Moves an expired commit phase into the reveal phase. Anyone may call it
/// once the commit deadline has passed.
pub fn advance_to_reveal(query: &mut QueryAccount, now: i64) -> (r: Result<(), CustomError>)
    ensures
        old(query).status != QueryStatus::CommitPhase ==> r == Result::<(), CustomError>::Err(
            CustomError::WrongPhase,
        ),
        old(query).status == QueryStatus::CommitPhase && now <= old(query).commit_deadline ==> r
            == Result::<(), CustomError>::Err(CustomError::CommitWindowOpen),
        r is Err ==> *final(query) == *old(query),
        r is Ok <==> old(query).status == QueryStatus::CommitPhase && now > old(
            query,
        ).commit_deadline,
        r is Ok ==> *final(query) == (QueryAccount {
            status: QueryStatus::RevealPhase,
            ..*old(query)
        }),
{
    if !matches!(query.status, QueryStatus::CommitPhase) {
        return Err(CustomError::WrongPhase);
    }
    if now <= query.commit_deadline {
        return Err(CustomError::CommitWindowOpen);
    }
    query.status = QueryStatus::RevealPhase;
    Ok(())
}

/// Whether a sentinel may add a commit: the first two commits of a query
/// are exempt, after that sentinels must stay strictly below half of the
/// commits counted so far (checked before the new commit is counted).
pub open spec fn sentinel_commit_allowed(q: QueryAccount) -> bool {
    q.commit_count <= 2 || q.sentinel_commit_count < (q.commit_count - 1) / 2
}

/// Whether the participant can back one more bond: real available balance
/// for standard participants, the notional ceilings for partners and
/// sentinels.
pub open spec fn commit_bond_ok(m: MinerProfile) -> bool {
    match m.role {
        Role::Sentinel => m.locked_liquidity < SENTINEL_VIRTUAL_CAPACITY,
        Role::Partner => m.locked_liquidity < PARTNER_VIRTUAL_CAPACITY,
        Role::Standard => available_balance(m) >= VOTE_BOND,
    }
}

/// Why a commit is rejected, or `None` when it is accepted.
pub open spec fn commit_error(m: MinerProfile, q: QueryAccount, now: i64) -> Option<CustomError> {
    if !m.is_active {
        Some(CustomError::MinerBanned)
    } else if q.status != QueryStatus::CommitPhase {
        Some(CustomError::WrongPhase)
    } else if now > q.commit_deadline {
        Some(CustomError::PhaseClosed)
    } else if m.role == Role::Sentinel && !sentinel_commit_allowed(q) {
        Some(CustomError::SentinelCapReached)
    } else if !commit_bond_ok(m) {
        Some(CustomError::InsufficientFreeCapital)
    } else {
        None
    }
}

/// The record a successful commit leaves behind.
pub open spec fn committed_record(
    rec: VoterRecord,
    m: MinerProfile,
    vote_hash: Seq<u8>,
    encrypted_salt: Seq<u8>,
) -> bool {
    &&& rec.authority == m.authority
    &&& rec.vote_hash@ == vote_hash
    &&& rec.encrypted_salt@ == encrypted_salt
    &&& rec.revealed_value@ == Seq::<char>::empty()
    &&& rec.ticket_id == 0
    &&& rec.has_committed
    &&& !rec.has_revealed
    &&& !rec.bond_released
}

/// Records a hidden commitment for an active participant during the commit
/// phase, locking one bond against it. Sentinels are additionally refused
/// once they would reach half of the commits.
pub fn commit_vote(
    miner: &mut MinerProfile,
    query: &mut QueryAccount,
    voter_record: &mut VoterRecord,
    vote_hash: Vec<u8>,
    encrypted_salt: Vec<u8>,
    now: i64,
) -> (r: Result<(), CustomError>)
    requires
        query_wf(*old(query)),
        vote_hash@.len() == 32,
        old(query).commit_count < u32::MAX,
        old(query).sentinel_commit_count < u32::MAX,
        old(miner).locked_liquidity + old(miner).pending_settlements <= u64::MAX,
    ensures
        r is Err <==> commit_error(*old(miner), *old(query), now) is Some,
        r is Err ==> r->Err_0 == commit_error(*old(miner), *old(query), now)->0 && *final(miner)
            == *old(miner) && *final(query) == *old(query) && *final(voter_record) == *old(
            voter_record,
        ),
        r is Ok ==> *final(miner) == (MinerProfile {
            locked_liquidity: (old(miner).locked_liquidity + VOTE_BOND) as u64,
            ..*old(miner)
        }),
        r is Ok ==> *final(query) == (QueryAccount {
            commit_count: (old(query).commit_count + 1) as u32,
            sentinel_commit_count: if old(miner).role == Role::Sentinel {
                (old(query).sentinel_commit_count + 1) as u32
            } else {
                old(query).sentinel_commit_count
            },
            ..*old(query)
        }),
        r is Ok ==> committed_record(*final(voter_record), *old(miner), vote_hash@, encrypted_salt@),
        query_wf(*final(query)),
{
    if !miner.is_active {
        return Err(CustomError::MinerBanned);
    }
    if !matches!(query.status, QueryStatus::CommitPhase) {
        return Err(CustomError::WrongPhase);
    }
    if now > query.commit_deadline {
        return Err(CustomError::PhaseClosed);
    }
    match miner.role {
        Role::Sentinel => {
            if query.commit_count > 2 {
                let max_allowed = (query.commit_count - 1) / 2;
                if !(query.sentinel_commit_count < max_allowed) {
                    return Err(CustomError::SentinelCapReached);
                }
            }
            if !(miner.locked_liquidity < SENTINEL_VIRTUAL_CAPACITY) {
                return Err(CustomError::InsufficientFreeCapital);
            }
        },
        Role::Partner => {
            if !(miner.locked_liquidity < PARTNER_VIRTUAL_CAPACITY) {
                return Err(CustomError::InsufficientFreeCapital);
            }
        },
        Role::Standard => {
            let total_locked = miner.locked_liquidity + miner.pending_settlements;
            let available = miner.balance.saturating_sub(miner.rent_reserve).saturating_sub(
                total_locked,
            );
            if !(available >= VOTE_BOND) {
                return Err(CustomError::InsufficientFreeCapital);
            }
            assert(available_balance(*miner) >= VOTE_BOND);
            assert(miner.locked_liquidity + VOTE_BOND <= miner.balance);
        },
    }
    miner.locked_liquidity = miner.locked_liquidity + VOTE_BOND;
    voter_record.authority = miner.authority;
    voter_record.vote_hash = vote_hash;
    voter_record.encrypted_salt = encrypted_salt;
    voter_record.has_committed = true;
    voter_record.has_revealed = false;
    voter_record.bond_released = false;
    voter_record.ticket_id = 0;
    voter_record.revealed_value = String::new();
    query.commit_count = query.commit_count + 1;
    if matches!(miner.role, Role::Sentinel) {
        query.sentinel_commit_count = query.sentinel_commit_count + 1;
    }
    Ok(())
}

/// Law: from the third commit on, an admitted commit keeps sentinel commits
/// at or below `floor((commit_count - 1) / 2)`: a state within the cap
/// steps to a state within the cap, whoever commits. (The two-commit
/// bootstrap exemption is what can place a young query outside the cap.)
pub proof fn lemma_sentinel_minority_preserved(q: QueryAccount, m: MinerProfile, now: i64)
    requires
        q.commit_count >= 3,
        q.sentinel_commit_count <= (q.commit_count - 1) / 2,
        commit_error(m, q, now) is None,
    ensures
        ({
            let next_commits = q.commit_count + 1;
            let next_sentinels = if m.role == Role::Sentinel {
                q.sentinel_commit_count + 1
            } else {
                q.sentinel_commit_count as int
            };
            next_sentinels <= (next_commits - 1) / 2
        }),
{
}

/// Why a reveal is rejected, or `None` when it is accepted. A reveal must
/// arrive in the reveal phase before its deadline, against a commitment not
/// yet revealed, and recompute the committed hash bit-exactly; a brand-new
/// value is refused once the tally is full.
pub open spec fn reveal_error(
    rec: VoterRecord,
    q: QueryAccount,
    stats: VoteStatsSafe,
    value: Seq<char>,
    salt: Seq<char>,
    now: i64,
) -> Option<CustomError> {
    if q.status != QueryStatus::RevealPhase {
        Some(CustomError::WrongPhase)
    } else if now > q.reveal_deadline {
        Some(CustomError::PhaseClosed)
    } else if !rec.has_committed {
        Some(CustomError::NotCommitted)
    } else if rec.has_revealed {
        Some(CustomError::AlreadyRevealed)
    } else if spec_commitment(value, salt) != rec.vote_hash@ {
        Some(CustomError::HashMismatch)
    } else if first_match(stats.options@, value) == stats.options@.len() && stats.options@.len()
        >= MAX_VOTE_OPTIONS {
        Some(CustomError::TooManyOptions)
    } else {
        None
    }
}

/// Law: commit-reveal integrity. For a reveal that arrives in the reveal
/// phase before its deadline, against a commitment not yet revealed, a
/// digest mismatch is always rejected as `HashMismatch` (and `reveal_vote`
/// then changes nothing); and as long as the tally can take the value —
/// below its cap, or the value already tallied — the reveal is accepted
/// exactly when the keccak-256 digest of `value || salt` equals the stored
/// commitment. (At a full tally, a matching reveal of a new value is still
/// refused, as `TooManyOptions`.)
pub proof fn lemma_reveal_integrity(
    rec: VoterRecord,
    q: QueryAccount,
    stats: VoteStatsSafe,
    value: Seq<char>,
    salt: Seq<char>,
    now: i64,
)
    requires
        q.status == QueryStatus::RevealPhase,
        now <= q.reveal_deadline,
        rec.has_committed,
        !rec.has_revealed,
    ensures
        spec_commitment(value, salt) != rec.vote_hash@ ==> reveal_error(
            rec,
            q,
            stats,
            value,
            salt,
            now,
        ) == Some(CustomError::HashMismatch),
        stats.options@.len() < MAX_VOTE_OPTIONS || first_match(stats.options@, value)
            < stats.options@.len() ==> (reveal_error(rec, q, stats, value, salt, now) is None
            <==> spec_commitment(value, salt) == rec.vote_hash@),
{
}

/// How a reveal of `value` changes the tally: the first matching entry
/// gains one vote, or a new entry with one vote is appended.
pub open spec fn tally_after_reveal(
    opts: Seq<VoteOptionSimple>,
    after: Seq<VoteOptionSimple>,
    value: Seq<char>,
) -> bool {
    let i = first_match(opts, value);
    if i < opts.len() {
        &&& after.len() == opts.len()
        &&& forall|j: int| 0 <= j < opts.len() && j != i ==> after[j] == opts[j]
        &&& after[i].value == opts[i].value
        &&& after[i].count == opts[i].count + 1
    } else {
        &&& after.len() == opts.len() + 1
        &&& forall|j: int| 0 <= j < opts.len() ==> after[j] == opts[j]
        &&& after.last().value@ == value
        &&& after.last().count == 1
    }
}

/// The ticket a reveal of `value` receives: its 1-based position among the
/// reveals of the same value so far.
pub open spec fn ticket_after_reveal(opts: Seq<VoteOptionSimple>, value: Seq<char>) -> int {
    let i = first_match(opts, value);
    if i < opts.len() {
        opts[i].count + 1
    } else {
        1
    }
}

proof fn lemma_first_match_found(opts: Seq<VoteOptionSimple>, value: Seq<char>, i: int)
    requires
        0 <= i < opts.len(),
        opts[i].value@ == value,
        forall|j: int| 0 <= j < i ==> opts[j].value@ != value,
    ensures
        first_match(opts, value) == i,
    decreases i,
{
    if i > 0 {
        lemma_first_match_found(opts.drop_first(), value, i - 1);
    }
}

proof fn lemma_first_match_absent(opts: Seq<VoteOptionSimple>, value: Seq<char>)
    requires
        forall|j: int| 0 <= j < opts.len() ==> opts[j].value@ != value,
    ensures
        first_match(opts, value) == opts.len(),
    decreases opts.len(),
{
    if opts.len() > 0 {
        lemma_first_match_absent(opts.drop_first(), value);
    }
}

proof fn lemma_sum_counts_update(opts: Seq<VoteOptionSimple>, i: int, v: VoteOptionSimple)
    requires
        0 <= i < opts.len(),
    ensures
        sum_counts(opts.update(i, v)) == sum_counts(opts) - opts[i].count + v.count,
    decreases opts.len(),
{
    let updated = opts.update(i, v);
    if i == opts.len() - 1 {
        assert(updated.drop_last() =~= opts.drop_last());
    } else {
        lemma_sum_counts_update(opts.drop_last(), i, v);
        assert(updated.drop_last() =~= opts.drop_last().update(i, v));
    }
}

proof fn lemma_sum_counts_push(opts: Seq<VoteOptionSimple>, v: VoteOptionSimple)
    ensures
        sum_counts(opts.push(v)) == sum_counts(opts) + v.count,
{
    assert(opts.push(v).drop_last() =~= opts);
}

/// Every tallied count is bounded by the sum of all of them.
proof fn lemma_count_le_sum(opts: Seq<VoteOptionSimple>, i: int)
    requires
        0 <= i < opts.len(),
    ensures
        opts[i].count <= sum_counts(opts),
        sum_counts(opts) >= 0,
    decreases opts.len(),
{
    lemma_sum_counts_nonneg(opts.drop_last());
    if i == opts.len() - 1 {
    } else {
        lemma_count_le_sum(opts.drop_last(), i);
    }
}

proof fn lemma_sum_counts_nonneg(opts: Seq<VoteOptionSimple>)
    ensures
        sum_counts(opts) >= 0,
    decreases opts.len(),
{
    if opts.len() > 0 {
        lemma_sum_counts_nonneg(opts.drop_last());
    }
}

/// Discloses a committed answer. The reveal is checked bit-exactly against
/// the stored commitment; on success the secret's digest is folded into the
/// randomness accumulator, the tally counts the value, the participant gets
/// the next ticket among same-value reveals, and the bond moves from locked
/// to pending settlement. A failed reveal changes nothing.
pub fn reveal_vote(
    miner: &mut MinerProfile,
    voter_record: &mut VoterRecord,
    query: &mut QueryAccount,
    stats: &mut VoteStatsSafe,
    value: String,
    salt: String,
    now: i64,
) -> (r: Result<(), CustomError>)
    requires
        query_wf(*old(query)),
        stats_wf(*old(stats)),
        sum_counts(old(stats).options@) < u32::MAX,
        old(query).reveal_count < u32::MAX,
        old(query).sentinel_reveal_count < u32::MAX,
        old(miner).pending_settlements + VOTE_BOND <= u64::MAX,
    ensures
        r is Err <==> reveal_error(*old(voter_record), *old(query), *old(stats), value@, salt@, now)
            is Some,
        r is Err ==> r->Err_0 == reveal_error(
            *old(voter_record),
            *old(query),
            *old(stats),
            value@,
            salt@,
            now,
        )->0 && *final(miner) == *old(miner) && *final(voter_record) == *old(voter_record)
            && *final(query) == *old(query) && *final(stats) == *old(stats),
        r is Ok ==> keccak256_of(encode_utf8(value@) + encode_utf8(salt@)) == old(
            voter_record,
        ).vote_hash@,
        r is Ok ==> tally_after_reveal(old(stats).options@, final(stats).options@, value@),
        r is Ok ==> *final(voter_record) == (VoterRecord {
            revealed_value: value,
            has_revealed: true,
            ticket_id: ticket_after_reveal(old(stats).options@, value@) as u32,
            ..*old(voter_record)
        }),
        r is Ok ==> final(query).random_accumulator@ == xor_bytes(
            old(query).random_accumulator@,
            keccak256_of(encode_utf8(salt@)),
        ) && *final(query) == (QueryAccount {
            reveal_count: (old(query).reveal_count + 1) as u32,
            sentinel_reveal_count: if old(miner).role == Role::Sentinel {
                (old(query).sentinel_reveal_count + 1) as u32
            } else {
                old(query).sentinel_reveal_count
            },
            random_accumulator: final(query).random_accumulator,
            ..*old(query)
        }),
        r is Ok ==> *final(miner) == (MinerProfile {
            locked_liquidity: if old(miner).locked_liquidity >= VOTE_BOND {
                (old(miner).locked_liquidity - VOTE_BOND) as u64
            } else {
                0
            },
            pending_settlements: (old(miner).pending_settlements + VOTE_BOND) as u64,
            ..*old(miner)
        }),
        query_wf(*final(query)),
        stats_wf(*final(stats)),
        r is Ok ==> sum_counts(final(stats).options@) == sum_counts(old(stats).options@) + 1,
{
    if !matches!(query.status, QueryStatus::RevealPhase) {
        return Err(CustomError::WrongPhase);
    }
    if now > query.reveal_deadline {
        return Err(CustomError::PhaseClosed);
    }
    if !voter_record.has_committed {
        return Err(CustomError::NotCommitted);
    }
    if voter_record.has_revealed {
        return Err(CustomError::AlreadyRevealed);
    }
    let calculated_hash = commitment_hash(value.as_str(), salt.as_str());
    if !bytes_eq(&calculated_hash, &voter_record.vote_hash) {
        return Err(CustomError::HashMismatch);
    }
    // Find the first tally entry holding this value, if any.
    let ghost opts0 = stats.options@;
    let mut found: bool = false;
    let mut idx: usize = 0;
    let mut i: usize = 0;
    while i < stats.options.len()
        invariant
            i <= stats.options@.len(),
            stats.options@ == opts0,
            !found ==> forall|j: int| 0 <= j < i ==> opts0[j].value@ != value@,
            found ==> idx < i && opts0[idx as int].value@ == value@ && forall|j: int|
                0 <= j < idx ==> opts0[j].value@ != value@,
        decreases stats.options@.len() - i,
    {
        if !found && stats.options[i].value.eq(&value) {
            found = true;
            idx = i;
        }
        i = i + 1;
    }
    proof {
        if found {
            lemma_first_match_found(opts0, value@, idx as int);
        } else {
            lemma_first_match_absent(opts0, value@);
        }
    }
    if !found && stats.options.len() >= MAX_VOTE_OPTIONS {
        return Err(CustomError::TooManyOptions);
    }
    // All checks passed: fold the secret into the randomness accumulator.
    let salt_hash = salt_digest(salt.as_str());
    let new_accumulator = xor_into(&query.random_accumulator, &salt_hash);
    query.random_accumulator = new_accumulator;
    // Count the vote and hand out the next ticket for this value.
    if found {
        proof {
            lemma_count_le_sum(opts0, idx as int);
        }
        let new_count = stats.options[idx].count + 1;
        stats.options[idx].count = new_count;
        voter_record.ticket_id = new_count;
        proof {
            lemma_sum_counts_update(opts0, idx as int, stats.options@[idx as int]);
        }
    } else {
        stats.options.push(VoteOptionSimple { value: value.clone(), count: 1 });
        voter_record.ticket_id = 1;
        proof {
            lemma_sum_counts_push(opts0, stats.options@.last());
        }
    }
    voter_record.revealed_value = value;
    voter_record.has_revealed = true;
    query.reveal_count = query.reveal_count + 1;
    if matches!(miner.role, Role::Sentinel) {
        query.sentinel_reveal_count = query.sentinel_reveal_count + 1;
    }
    // Capital reuse: the bond leaves the lock and awaits settlement.
    miner.locked_liquidity = miner.locked_liquidity.saturating_sub(VOTE_BOND);
    miner.pending_settlements = miner.pending_settlements + VOTE_BOND;
    Ok(())
}

/// The winning ticket a seed and a vote maximum determine: the first eight
/// accumulator bytes read as an integer, reduced modulo the winning count,
/// plus one.
pub open spec fn winning_ticket_of(acc: Seq<u8>, max_votes: int) -> int
    recommends
        acc.len() >= 8,
        max_votes > 0,
{
    le64(acc) % max_votes + 1
}

/// Law: the winning ticket is a function of the final accumulator and the
/// winning count alone; equal inputs draw equal tickets.
pub proof fn lemma_winning_ticket_deterministic(
    acc1: Seq<u8>,
    acc2: Seq<u8>,
    max1: int,
    max2: int,
)
    requires
        acc1 == acc2,
        max1 == max2,
    ensures
        winning_ticket_of(acc1, max1) == winning_ticket_of(acc2, max2),
{
}

/// Why a tally call is rejected, or `None` when it proceeds.
pub open spec fn tally_error(q: QueryAccount, now: i64) -> Option<CustomError> {
    if q.status != QueryStatus::RevealPhase {
        Some(CustomError::WrongPhase)
    } else if now <= q.reveal_deadline {
        Some(CustomError::RevealWindowOpen)
    } else {
        None
    }
}

/// Whether sentinels revealed more than half of all reveals; such a round
/// cannot be trusted and goes straight to dispute.
pub open spec fn sentinel_dominated(q: QueryAccount) -> bool {
    q.reveal_count > 0 && q.sentinel_reveal_count > q.reveal_count / 2
}

/// Whether fewer than half of the committers revealed; such a round is
/// treated as a network outage and voided without penalties.
pub open spec fn low_turnout(q: QueryAccount) -> bool {
    q.reveal_count < q.commit_count / 2
}

/// The query as the tally leaves it when escalating to the first dispute
/// level.
pub open spec fn disputed_at_level_one(after: QueryAccount, q: QueryAccount, now: i64) -> bool {
    after == (QueryAccount { status: QueryStatus::InDispute, dispute_level: 1, dispute_initiated_at: now, ..q })
}

proof fn lemma_sum_counts_split(opts: Seq<VoteOptionSimple>, i: int)
    requires
        0 <= i <= opts.len(),
    ensures
        sum_counts(opts) == sum_counts(opts.subrange(0, i)) + sum_counts(
            opts.subrange(i, opts.len() as int),
        ),
    decreases opts.len() - i,
{
    if i == opts.len() {
        assert(opts.subrange(0, i) =~= opts);
    } else {
        lemma_sum_counts_split(opts.drop_last(), i);
        assert(opts.drop_last().subrange(0, i) =~= opts.subrange(0, i));
        assert(opts.subrange(i, opts.len() as int).drop_last() =~= opts.drop_last().subrange(
            i,
            opts.len() - 1,
        ));
    }
}

proof fn lemma_positive_sum_positive_max(opts: Seq<VoteOptionSimple>)
    requires
        sum_counts(opts) > 0,
    ensures
        max_count(opts) > 0,
    decreases opts.len(),
{
    if opts.len() > 0 {
        if opts.last().count > 0 {
        } else {
            lemma_positive_sum_positive_max(opts.drop_last());
        }
    }
}

/// Tallies an expired reveal phase; anyone may call it. The round is
/// escalated to dispute if sentinels dominate the reveals, voided on low
/// turnout, escalated if the quorum floor or the two-thirds supermajority
/// is missed, and otherwise finalized on the most-revealed value with a
/// lottery ticket drawn from the randomness accumulator.
pub fn tally_votes(query: &mut QueryAccount, stats: &VoteStatsSafe, now: i64) -> (r: Result<
    (),
    CustomError,
>)
    requires
        query_wf(*old(query)),
        stats_wf(*stats),
        sum_counts(stats.options@) <= u32::MAX,
    ensures
        r is Err <==> tally_error(*old(query), now) is Some,
        r is Err ==> r->Err_0 == tally_error(*old(query), now)->0 && *final(query) == *old(query),
        r is Ok ==> ({
            let q0 = *old(query);
            let opts = stats.options@;
            if sentinel_dominated(q0) {
                disputed_at_level_one(*final(query), q0, now)
            } else if low_turnout(q0) {
                *final(query) == (QueryAccount { status: QueryStatus::Voided, ..q0 })
            } else if sum_counts(opts) < q0.min_responses {
                disputed_at_level_one(*final(query), q0, now)
            } else if max_count(opts) * 100 / sum_counts(opts) < 66 {
                disputed_at_level_one(*final(query), q0, now)
            } else {
                &&& final(query).result is Some
                &&& final(query).result->0@ == winner_value(opts)
                &&& final(query).winning_ticket_id == winning_ticket_of(
                    q0.random_accumulator@,
                    max_count(opts),
                )
                &&& *final(query) == (QueryAccount {
                    status: QueryStatus::Finalized,
                    result: final(query).result,
                    winning_ticket_id: final(query).winning_ticket_id,
                    finalized_at: now,
                    ..q0
                })
            }
        }),
        query_wf(*final(query)),
{
    if !matches!(query.status, QueryStatus::RevealPhase) {
        return Err(CustomError::WrongPhase);
    }
    if now <= query.reveal_deadline {
        return Err(CustomError::RevealWindowOpen);
    }
    // Sentinel reveals above half of all reveals go straight to dispute.
    if query.reveal_count > 0 {
        let max_sentinel_ratio = query.reveal_count / 2;
        if query.sentinel_reveal_count > max_sentinel_ratio {
            query.status = QueryStatus::InDispute;
            query.dispute_level = 1;
            query.dispute_initiated_at = now;
            return Ok(());
        }
    }
    // Low turnout is forgiven as an outage: void the round, no penalties.
    if query.reveal_count < query.commit_count / 2 {
        query.status = QueryStatus::Voided;
        return Ok(());
    }
    // Scan the tally for the most-revealed value and the turnout.
    let ghost opts = stats.options@;
    let mut max_votes: u32 = 0;
    let mut total_valid: u32 = 0;
    let mut wi: usize = 0;
    let mut i: usize = 0;
    while i < stats.options.len()
        invariant
            i <= opts.len(),
            stats.options@ == opts,
            stats_wf(*stats),
            sum_counts(opts) <= u32::MAX,
            total_valid == sum_counts(opts.subrange(0, i as int)),
            max_votes == max_count(opts.subrange(0, i as int)),
            max_votes > 0 ==> wi < i && wi == winner_index(opts.subrange(0, i as int)),
        decreases opts.len() - i,
    {
        let c = stats.options[i].count;
        proof {
            lemma_sum_counts_split(opts, i as int);
            lemma_sum_counts_split(opts, i + 1);
            lemma_sum_counts_nonneg(opts.subrange(i + 1, opts.len() as int));
            assert(opts.subrange(0, i + 1).drop_last() =~= opts.subrange(0, i as int));
            assert(opts.subrange(i as int, opts.len() as int).drop_last() =~= opts.subrange(
                i as int,
                opts.len() - 1,
            )) by {
                assert(opts.subrange(i as int, opts.len() as int).len() > 0);
            }
            assert(sum_counts(opts.subrange(0, i + 1)) == total_valid + c);
        }
        total_valid = total_valid + c;
        if c > max_votes {
            max_votes = c;
            wi = i;
        }
        i = i + 1;
    }
    proof {
        assert(opts.subrange(0, opts.len() as int) =~= opts);
    }
    // Quorum: enough valid reveals must be on the table.
    if total_valid < query.min_responses {
        query.status = QueryStatus::InDispute;
        query.dispute_level = 1;
        query.dispute_initiated_at = now;
        return Ok(());
    }
    // Supermajority: the leading value must carry two thirds.
    let consensus_pct = (max_votes as u64 * 100) / (total_valid as u64);
    if consensus_pct < 66 {
        query.status = QueryStatus::InDispute;
        query.dispute_level = 1;
        query.dispute_initiated_at = now;
        return Ok(());
    }
    proof {
        lemma_positive_sum_positive_max(opts);
    }
    if max_votes == 0 {
        // Unreachable: the quorum floor is at least the network floor.
        return Err(CustomError::NoValidVotes);
    }
    // The lottery: draw the winning ticket from the accumulated randomness.
    let seed = le64_seed(&query.random_accumulator);
    let winning_ticket = (seed % (max_votes as u64)) + 1;
    query.result = Some(stats.options[wi].value.clone());
    query.winning_ticket_id = winning_ticket as u32;
    query.status = QueryStatus::Finalized;
    query.finalized_at = now;
    Ok(())
}

} // verus!
