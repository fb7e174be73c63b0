//! Liquidity provision hook: part of a grant's unstreamed treasury is put
//! into liquidity pools, and pulled back out first whenever a milestone
//! claim needs the funds.
use vstd::prelude::*;
use std::collections::HashMap;
use crate::types::Address;
use crate::text::{decimal, with_decimal};

verus! {

broadcast use vstd::std_specs::hash::group_hash_axioms;

pub const LIQUIDITY_HOOK_VERSION: u32 = 1;
/// Default largest share of the unstreamed treasury in pools, in basis points: 30%.
pub const DEFAULT_MAX_LIQUIDITY_RATIO: u32 = 3000;
/// Smallest share for emergency withdrawals, in basis points: 10%.
pub const MIN_EMERGENCY_WITHDRAWAL_RATIO: u32 = 1000;
pub const LIQUIDITY_POOL_VERSION: u32 = 1;
/// Most pools one grant may have.
pub const MAX_POOLS_PER_GRANT: u32 = 10;
/// Lock period of LP tokens: 24 hours.
pub const LP_TOKEN_LOCK_PERIOD: u64 = 86400;
/// Priority of milestone claims over everything else.
pub const MILESTONE_CLAIM_PRIORITY: u32 = 100;
/// Largest ratio a configuration may allow, in basis points: 50%.
pub const MAX_CONFIGURABLE_RATIO: u32 = 5000;
/// Unstreamed treasury of a grant, as estimated until the grant contract
/// reports it.
pub const ESTIMATED_UNSTREAMED_TREASURY: u128 = 1000000;
/// Imbalance that triggers rebalancing, in basis points: 10%.
pub const DEFAULT_REBALANCE_THRESHOLD: u32 = 1000;

/// A liquidity pool funded from a grant.
#[derive(Debug, Clone, Copy, PartialEq, Eq, Structural)]
pub struct LiquidityPool {
    pub pool_id: u64,
    pub grant_id: u64,
    /// Typically the project's own token.
    pub token_a: Address,
    /// Usually a stablecoin or the native asset.
    pub token_b: Address,
    pub lp_token_address: Address,
    pub deposited_amount_a: u128,
    pub deposited_amount_b: u128,
    /// LP tokens held for the pool.
    pub lp_tokens: u128,
    pub created_at: u64,
    pub last_withdrawal: u64,
    pub is_active: bool,
    pub auto_rebalance: bool,
}

/// Configuration of the hook.
#[derive(Debug, Clone, Copy, PartialEq, Eq, Structural)]
pub struct LiquidityConfig {
    pub admin: Address,
    /// Largest share of the unstreamed treasury in pools, in basis points.
    pub max_liquidity_ratio: u32,
    pub emergency_withdrawal_enabled: bool,
    pub auto_rebalance_enabled: bool,
    pub min_pool_size: u128,
    pub max_pool_size: u128,
    /// Imbalance that triggers rebalancing, in basis points.
    pub rebalance_threshold: u32,
    /// Fee tier; 0 is the lowest.
    pub fee_tier: u32,
}

/// A grant's stake in a pool.
#[derive(Debug)]
pub struct LiquidityPosition {
    pub position_id: u64,
    pub pool_id: u64,
    pub grant_id: u64,
    /// Amount taken from the unstreamed treasury.
    pub allocated_amount: u128,
    pub current_value: u128,
    pub accrued_fees: u128,
    pub created_at: u64,
    pub last_updated: u64,
    /// Locked for a milestone claim.
    pub is_locked: bool,
    pub lock_reason: Option<String>,
}

/// A withdrawal from a pool made to pay a milestone claim.
#[derive(Debug)]
pub struct EmergencyWithdrawal {
    pub withdrawal_id: u64,
    pub grant_id: u64,
    pub pool_id: u64,
    pub position_id: u64,
    pub amount: u128,
    pub reason: String,
    pub requested_at: u64,
    pub processed_at: Option<u64>,
    pub status: WithdrawalStatus,
    pub processor: Option<Address>,
}

/// Lifecycle of an emergency withdrawal.
#[derive(Debug, Clone, Copy, PartialEq, Eq, Structural)]
pub enum WithdrawalStatus {
    Requested,
    Approved,
    Processed,
    Rejected,
    Expired,
}

/// Totals over all pools.
#[derive(Debug, Clone, Copy, PartialEq, Eq, Structural)]
pub struct LiquidityMetrics {
    pub total_allocated: u128,
    pub total_value: u128,
    pub total_fees_earned: u128,
    pub active_pools: u32,
    pub locked_positions: u32,
    pub last_calculation: u64,
    /// Annualized yield, in basis points.
    pub apy: u32,
}

/// Errors of the hook.
#[derive(Debug, Clone, Copy, PartialEq, Eq, Structural)]
pub enum LiquidityError {
    NotInitialized,
    Unauthorized,
    InsufficientUnstreamed,
    PoolNotFound,
    PositionNotFound,
    InvalidAmount,
    InvalidPool,
    PoolLimitExceeded,
    LiquidityRatioExceeded,
    PositionLocked,
    WithdrawalNotFound,
    InvalidState,
    MathOverflow,
    TokenError,
    PoolInactive,
    EmergencyMode,
    RebalanceFailed,
}

/// Storage keys of the hook's records.
#[derive(Debug, Clone, Copy, PartialEq, Eq, Structural)]
pub enum LiquidityDataKey {
    Config,
    Pool(u64),
    Position(u64),
    GrantPositions(u64),
    GrantPools(u64),
    EmergencyWithdrawal(u64),
    Metrics,
    NextPoolId,
    NextPositionId,
    NextWithdrawalId,
    ActivePools,
    LockedPositions,
}

/// Text of the lock reason for milestone claim `claim_id`.
pub open spec fn lock_reason_text(claim_id: u64) -> Seq<char> {
    "Milestone claim "@ + decimal(claim_id as nat)
}

/// Text of the reason of a withdrawal for milestone claim `claim_id`.
pub open spec fn withdrawal_reason_text(claim_id: u64) -> Seq<char> {
    "Emergency withdrawal for milestone claim "@ + decimal(claim_id as nat)
}

/// The list kept under `key`, or the empty list.
pub open spec fn id_list(lists: Map<u64, Vec<u64>>, key: u64) -> Seq<u64> {
    if lists.contains_key(key) { lists[key]@ } else { Seq::empty() }
}

/// Sum of the allocated amounts of the positions `ids`.
pub open spec fn allocation_sum(ids: Seq<u64>, positions: Map<u64, LiquidityPosition>) -> int
    decreases ids.len(),
{
    if ids.len() == 0 {
        0
    } else {
        allocation_sum(ids.drop_last(), positions) + positions[ids.last()].allocated_amount
    }
}

/// The ratio of `allocated` to the unstreamed treasury, in basis points.
pub open spec fn liquidity_ratio(allocated: int) -> int {
    (allocated * 10000) / (ESTIMATED_UNSTREAMED_TREASURY as int)
}

/// Whether a configuration's parameters are acceptable.
pub open spec fn valid_config_params(max_liquidity_ratio: u32, min_pool_size: u128, max_pool_size: u128) -> bool {
    &&& max_liquidity_ratio <= MAX_CONFIGURABLE_RATIO
    &&& min_pool_size > 0
    &&& max_pool_size > 0
    &&& min_pool_size <= max_pool_size
}

/// Adding the next position extends the prefix sum by its allocation.
proof fn lemma_allocation_sum_step(ids: Seq<u64>, positions: Map<u64, LiquidityPosition>, i: int)
    requires
        0 <= i < ids.len(),
    ensures
        allocation_sum(ids.take(i + 1), positions) == allocation_sum(ids.take(i), positions)
            + positions[ids[i]].allocated_amount,
{
    assert(ids.take(i + 1).drop_last() =~= ids.take(i));
}

/// A prefix sum never exceeds the whole sum.
proof fn lemma_allocation_prefix_le(ids: Seq<u64>, positions: Map<u64, LiquidityPosition>, i: int)
    requires
        0 <= i <= ids.len(),
    ensures
        allocation_sum(ids.take(i), positions) <= allocation_sum(ids, positions),
    decreases ids.len(),
{
    if i == ids.len() {
        assert(ids.take(i) =~= ids);
    } else {
        let shorter = ids.drop_last();
        assert(ids.take(i) =~= shorter.take(i));
        lemma_allocation_prefix_le(shorter, positions, i);
    }
}

/// Recording a position outside `ids` leaves their sum unchanged.
proof fn lemma_allocation_sum_insert_fresh(ids: Seq<u64>, positions: Map<u64, LiquidityPosition>, id: u64, p: LiquidityPosition)
    requires
        !ids.contains(id),
    ensures
        allocation_sum(ids, positions.insert(id, p)) == allocation_sum(ids, positions),
    decreases ids.len(),
{
    if ids.len() > 0 {
        let shorter = ids.drop_last();
        if shorter.contains(id) {
            let t = choose|t: int| 0 <= t < shorter.len() && #[trigger] shorter[t] == id;
            assert(ids[t] == id);
        }
        lemma_allocation_sum_insert_fresh(shorter, positions, id, p);
    }
}

/// Adding a position to the list adds its allocation to the sum.
proof fn lemma_allocation_sum_push(ids: Seq<u64>, positions: Map<u64, LiquidityPosition>, id: u64)
    ensures
        allocation_sum(ids.push(id), positions) == allocation_sum(ids, positions) + positions[id].allocated_amount,
{
    assert(ids.push(id).drop_last() =~= ids);
}

/// Whether `x` appears in `s`.
fn contains_id(s: &Vec<u64>, x: u64) -> (r: bool)
    ensures
        r == s@.contains(x),
{
    let mut i: usize = 0;
    while i < s.len()
        invariant
            i <= s.len(),
            forall|j: int| 0 <= j < i ==> s@[j] != x,
        decreases s.len() - i,
    {
        if s[i] == x {
            return true;
        }
        i = i + 1;
    }
    false
}

/// The metrics after a deposit that allocated `allocated` and is worth
/// `value`, recorded at `now`.
pub open spec fn deposit_metrics(m: LiquidityMetrics, allocated: int, value: int, now: u64) -> LiquidityMetrics {
    LiquidityMetrics {
        total_allocated: (m.total_allocated + allocated) as u128,
        total_value: (m.total_value + value) as u128,
        total_fees_earned: m.total_fees_earned,
        active_pools: m.active_pools,
        locked_positions: m.locked_positions,
        last_calculation: now,
        apy: m.apy,
    }
}

/// Records a deposit in the metrics; the yield is recomputed from the fees.
fn metrics_after_deposit(m: LiquidityMetrics, allocated: u128, value: u128, now: u64) -> (r: LiquidityMetrics)
    requires
        m.total_fees_earned == 0,
        m.apy == 0,
        m.total_allocated + allocated <= u128::MAX,
        m.total_value + value <= u128::MAX,
    ensures
        r == deposit_metrics(m, allocated as int, value as int, now),
{
    let mut r = m;
    r.total_allocated = m.total_allocated + allocated;
    r.total_value = m.total_value + value;
    r.last_calculation = now;
    if r.total_allocated > 0 {
        r.apy = ((r.total_fees_earned * 10000) / r.total_allocated) as u32;
    }
    r
}

/// Appends `id` to the list kept under `key`.
fn push_to_list(lists: &mut HashMap<u64, Vec<u64>>, key: u64, id: u64)
    ensures
        final(lists)@.dom() == old(lists)@.dom().insert(key),
        id_list(final(lists)@, key) == id_list(old(lists)@, key).push(id),
        forall|h: u64| h != key && old(lists)@.contains_key(h) ==> #[trigger] final(lists)@[h] == old(lists)@[h],
{
    let mut list = match lists.remove(&key) {
        Some(l) => l,
        None => Vec::new(),
    };
    list.push(id);
    lists.insert(key, list);
    proof {
        assert(lists@.dom() =~= old(lists)@.dom().insert(key));
    }
}

/// A step of a withdrawal plan: the position, its pool and the amount taken.
pub type PlanStep = (u64, u64, u128);

/// The withdrawals a milestone claim needing `remaining` makes from the
/// positions `ids[i..]`, in order: each position that was not locked gives what
/// it holds, up to what is still needed, until nothing is. Returns the steps
/// and what is still needed afterwards.
pub open spec fn withdrawal_plan(ids: Seq<u64>, positions: Map<u64, LiquidityPosition>, i: int, remaining: u128) -> (Seq<PlanStep>, u128)
    decreases ids.len() - i,
{
    if i < 0 || i >= ids.len() || remaining == 0 {
        (Seq::empty(), remaining)
    } else if positions[ids[i]].is_locked {
        withdrawal_plan(ids, positions, i + 1, remaining)
    } else {
        let p = positions[ids[i]];
        let w = if remaining <= p.current_value { remaining } else { p.current_value };
        let rest = withdrawal_plan(ids, positions, i + 1, (remaining - w) as u128);
        (seq![(ids[i], p.pool_id, w)] + rest.0, rest.1)
    }
}

/// `locked` with the identifiers of `ids` it lacks appended, in order.
pub open spec fn merge_locked(locked: Seq<u64>, ids: Seq<u64>) -> Seq<u64>
    decreases ids.len(),
{
    if ids.len() == 0 {
        locked
    } else {
        let m = merge_locked(locked, ids.drop_last());
        if m.contains(ids.last()) { m } else { m.push(ids.last()) }
    }
}

/// `after` is `before` locked for milestone claim `claim_id`.
pub open spec fn locked_for_claim(before: LiquidityPosition, after: LiquidityPosition, claim_id: u64) -> bool {
    &&& after.position_id == before.position_id
    &&& after.pool_id == before.pool_id
    &&& after.grant_id == before.grant_id
    &&& after.allocated_amount == before.allocated_amount
    &&& after.current_value == before.current_value
    &&& after.accrued_fees == before.accrued_fees
    &&& after.created_at == before.created_at
    &&& after.last_updated == before.last_updated
    &&& after.is_locked
    &&& after.lock_reason matches Some(reason) && reason@ == lock_reason_text(claim_id)
}

/// `w` is the approved withdrawal `id` of grant `grant_id` for `step` of the
/// plan of milestone claim `claim_id`, requested at `now` and processed by
/// `processor`.
pub open spec fn claim_withdrawal(
    w: EmergencyWithdrawal,
    id: u64,
    grant_id: u64,
    step: PlanStep,
    claim_id: u64,
    now: u64,
    processor: Address,
) -> bool {
    &&& w.withdrawal_id == id
    &&& w.grant_id == grant_id
    &&& w.position_id == step.0
    &&& w.pool_id == step.1
    &&& w.amount == step.2
    &&& w.reason@ == withdrawal_reason_text(claim_id)
    &&& w.requested_at == now
    &&& w.processed_at is None
    &&& w.status == WithdrawalStatus::Approved
    &&& w.processor == Some(processor)
}

/// A plan has at most one step per position.
proof fn lemma_plan_len(ids: Seq<u64>, positions: Map<u64, LiquidityPosition>, i: int, remaining: u128)
    requires
        0 <= i <= ids.len(),
    ensures
        withdrawal_plan(ids, positions, i, remaining).0.len() <= ids.len() - i,
    decreases ids.len() - i,
{
    if i < ids.len() && remaining != 0 {
        let p = positions[ids[i]];
        let w = if remaining <= p.current_value { remaining } else { p.current_value };
        lemma_plan_len(ids, positions, i + 1, remaining);
        lemma_plan_len(ids, positions, i + 1, (remaining - w) as u128);
    }
}

/// Locks the positions `ids` with `reason`.
fn lock_all(positions: &mut HashMap<u64, LiquidityPosition>, ids: &Vec<u64>, reason: &String, Ghost(claim_id): Ghost<u64>)
    requires
        forall|j: int| 0 <= j < ids@.len() ==> old(positions)@.contains_key(#[trigger] ids@[j]),
        reason@ == lock_reason_text(claim_id),
    ensures
        final(positions)@.dom() == old(positions)@.dom(),
        forall|k: u64| #[trigger] old(positions)@.contains_key(k) ==> if ids@.contains(k) {
            locked_for_claim(old(positions)@[k], final(positions)@[k], claim_id)
        } else {
            final(positions)@[k] == old(positions)@[k]
        },
{
    let mut i: usize = 0;
    while i < ids.len()
        invariant
            i <= ids@.len(),
            reason@ == lock_reason_text(claim_id),
            positions@.dom() == old(positions)@.dom(),
            forall|j: int| 0 <= j < ids@.len() ==> old(positions)@.contains_key(#[trigger] ids@[j]),
            forall|k: u64| #[trigger] old(positions)@.contains_key(k) ==> if ids@.take(i as int).contains(k) {
                locked_for_claim(old(positions)@[k], positions@[k], claim_id)
            } else {
                positions@[k] == old(positions)@[k]
            },
        decreases ids.len() - i,
    {
        let id = ids[i];
        assert(old(positions)@.contains_key(ids@[i as int]));
        let mut p = positions.remove(&id).unwrap();
        p.is_locked = true;
        p.lock_reason = Some(reason.clone());
        positions.insert(id, p);
        proof {
            assert(positions@.dom() =~= old(positions)@.dom());
            assert forall|k: u64| #[trigger] old(positions)@.contains_key(k) implies if ids@.take(i + 1).contains(k) {
                locked_for_claim(old(positions)@[k], positions@[k], claim_id)
            } else {
                positions@[k] == old(positions)@[k]
            } by {
                let before = ids@.take(i as int);
                let after = ids@.take(i + 1);
                assert(after =~= before.push(id));
                if k == id {
                    assert(after[i as int] == k);
                } else {
                    if after.contains(k) {
                        let t = choose|t: int| 0 <= t < after.len() && #[trigger] after[t] == k;
                        assert(before[t] == k);
                    }
                    if before.contains(k) {
                        let t = choose|t: int| 0 <= t < before.len() && #[trigger] before[t] == k;
                        assert(after[t] == k);
                    }
                }
            }
        }
        i = i + 1;
    }
    assert(ids@.take(ids@.len() as int) =~= ids@);
}

/// Appends to `locked` the identifiers of `ids` it lacks, in order.
fn merge_into(locked: &mut Vec<u64>, ids: &Vec<u64>)
    ensures
        final(locked)@ == merge_locked(old(locked)@, ids@),
{
    let mut i: usize = 0;
    while i < ids.len()
        invariant
            i <= ids@.len(),
            locked@ == merge_locked(old(locked)@, ids@.take(i as int)),
        decreases ids.len() - i,
    {
        let id = ids[i];
        assert(ids@.take(i + 1).drop_last() =~= ids@.take(i as int));
        if !contains_id(locked, id) {
            locked.push(id);
        }
        i = i + 1;
    }
    assert(ids@.take(ids@.len() as int) =~= ids@);
}

/// Records one approved withdrawal per step of `plan`, under consecutive
/// identifiers from `first_id`; returns the identifiers.
fn record_withdrawals(
    withdrawals: &mut HashMap<u64, EmergencyWithdrawal>,
    plan: &Vec<PlanStep>,
    first_id: u64,
    grant_id: u64,
    claim_id: u64,
    now: u64,
    processor: Address,
) -> (ids: Vec<u64>)
    requires
        first_id + plan@.len() <= u64::MAX,
        forall|k: u64| #[trigger] old(withdrawals)@.contains_key(k) ==> k < first_id,
    ensures
        ids@ == Seq::new(plan@.len(), |j: int| (first_id + j) as u64),
        final(withdrawals)@.dom() == old(withdrawals)@.dom().union(
            Set::new(|k: u64| first_id <= k < first_id + plan@.len()),
        ),
        forall|k: u64| #[trigger] old(withdrawals)@.contains_key(k) ==> final(withdrawals)@[k] == old(withdrawals)@[k],
        forall|j: int| 0 <= j < plan@.len() ==> claim_withdrawal(
            #[trigger] final(withdrawals)@[(first_id + j) as u64],
            (first_id + j) as u64,
            grant_id,
            plan@[j],
            claim_id,
            now,
            processor,
        ),
{
    let reason = with_decimal("Emergency withdrawal for milestone claim ", claim_id);
    let mut ids: Vec<u64> = Vec::new();
    let mut j: usize = 0;
    while j < plan.len()
        invariant
            j <= plan@.len(),
            first_id + plan@.len() <= u64::MAX,
            reason@ == withdrawal_reason_text(claim_id),
            forall|k: u64| #[trigger] old(withdrawals)@.contains_key(k) ==> k < first_id,
            ids@ == Seq::new(j as nat, |t: int| (first_id + t) as u64),
            withdrawals@.dom() == old(withdrawals)@.dom().union(Set::new(|k: u64| first_id <= k < first_id + j)),
            forall|k: u64| #[trigger] old(withdrawals)@.contains_key(k) ==> withdrawals@[k] == old(withdrawals)@[k],
            forall|t: int| 0 <= t < j ==> claim_withdrawal(
                #[trigger] withdrawals@[(first_id + t) as u64],
                (first_id + t) as u64,
                grant_id,
                plan@[t],
                claim_id,
                now,
                processor,
            ),
        decreases plan.len() - j,
    {
        let (position_id, pool_id, amount) = plan[j];
        let id = first_id + j as u64;
        withdrawals.insert(id, EmergencyWithdrawal {
            withdrawal_id: id,
            grant_id,
            pool_id,
            position_id,
            amount,
            reason: reason.clone(),
            requested_at: now,
            processed_at: None,
            status: WithdrawalStatus::Approved,
            processor: Some(processor),
        });
        ids.push(id);
        proof {
            assert(ids@ =~= Seq::new((j + 1) as nat, |t: int| (first_id + t) as u64));
            assert(withdrawals@.dom() =~= old(withdrawals)@.dom().union(Set::new(|k: u64| first_id <= k < first_id + j + 1)));
            assert forall|t: int| 0 <= t < j + 1 implies claim_withdrawal(
                #[trigger] withdrawals@[(first_id + t) as u64],
                (first_id + t) as u64,
                grant_id,
                plan@[t],
                claim_id,
                now,
                processor,
            ) by {
                if t < j {
                    assert((first_id + t) as u64 != id);
                }
            }
        }
        j = j + 1;
    }
    ids
}

/// The hook's state.
pub struct LiquidityProvisionHook {
    /// The hook's own address, recorded as the processor of withdrawals.
    pub contract_address: Address,
    pub config: Option<LiquidityConfig>,
    pub metrics: Option<LiquidityMetrics>,
    pub pools: HashMap<u64, LiquidityPool>,
    pub positions: HashMap<u64, LiquidityPosition>,
    pub withdrawals: HashMap<u64, EmergencyWithdrawal>,
    /// Positions of each grant, in creation order.
    pub grant_positions: HashMap<u64, Vec<u64>>,
    /// Pools of each grant, in creation order.
    pub grant_pools: HashMap<u64, Vec<u64>>,
    pub next_pool_id: u64,
    pub next_position_id: u64,
    pub next_withdrawal_id: u64,
    pub active_pools: Vec<u64>,
    pub locked_positions: Vec<u64>,
}

impl LiquidityProvisionHook {
    /// Configuration and metrics come together; records are keyed by their own
    /// identifiers, below the next identifier; lists name existing records;
    /// nothing exists before initialization; fees are not collected yet.
    pub open spec fn wf(&self) -> bool {
        &&& self.config is Some <==> self.metrics is Some
        &&& self.config matches Some(c) ==> valid_config_params(c.max_liquidity_ratio, c.min_pool_size, c.max_pool_size)
        &&& self.metrics matches Some(m) ==> m.total_fees_earned == 0 && m.apy == 0
        &&& self.config is None ==> {
            &&& self.pools@.dom().is_empty()
            &&& self.positions@.dom().is_empty()
            &&& self.withdrawals@.dom().is_empty()
            &&& self.grant_positions@.dom().is_empty()
            &&& self.grant_pools@.dom().is_empty()
            &&& self.active_pools@.len() == 0
        }
        &&& forall|k: u64| #[trigger] self.pools@.contains_key(k) ==> k < self.next_pool_id && self.pools@[k].pool_id == k
        &&& forall|k: u64| #[trigger] self.positions@.contains_key(k) ==> {
            &&& k < self.next_position_id
            &&& self.positions@[k].position_id == k
            &&& self.pools@.contains_key(self.positions@[k].pool_id)
        }
        &&& forall|k: u64| #[trigger] self.withdrawals@.contains_key(k) ==> k < self.next_withdrawal_id
        &&& forall|g: u64, j: int| self.grant_positions@.contains_key(g) && 0 <= j < self.grant_positions@[g]@.len()
            ==> self.positions@.contains_key(#[trigger] self.grant_positions@[g]@[j])
        &&& forall|j: int| 0 <= j < self.active_pools@.len() ==> self.pools@.contains_key(#[trigger] self.active_pools@[j])
    }

    /// Positions of grant `g`, in creation order.
    pub open spec fn position_ids(&self, g: u64) -> Seq<u64> {
        id_list(self.grant_positions@, g)
    }

    /// Pools of grant `g`, in creation order.
    pub open spec fn pool_ids(&self, g: u64) -> Seq<u64> {
        id_list(self.grant_pools@, g)
    }

    /// Whether a new pool for grant `g` with these initial amounts passes the
    /// configuration's checks.
    pub open spec fn pool_accepted(&self, g: u64, a: u128, b: u128) -> bool {
        self.config matches Some(c) && self.pool_ids(g).len() < MAX_POOLS_PER_GRANT
            && c.min_pool_size <= a <= c.max_pool_size && c.min_pool_size <= b <= c.max_pool_size
    }

    /// Whether the metrics can take a deposit of `amount` without overflow.
    pub open spec fn deposit_fits(&self, amount: int) -> bool {
        self.metrics matches Some(m) ==> m.total_allocated + amount <= u128::MAX && m.total_value + amount <= u128::MAX
    }

    /// Sum of the allocations of grant `g`'s positions.
    pub open spec fn grant_allocation(&self, g: u64) -> int {
        allocation_sum(self.position_ids(g), self.positions@)
    }

    /// The position a deposit of `amount` into pool `pool_id` opens for grant
    /// `g` at `now`, under the next position identifier.
    pub open spec fn opened_position(&self, pool_id: u64, g: u64, amount: u128, now: u64) -> LiquidityPosition {
        LiquidityPosition {
            position_id: self.next_position_id,
            pool_id,
            grant_id: g,
            allocated_amount: amount,
            current_value: amount,
            accrued_fees: 0,
            created_at: now,
            last_updated: now,
            is_locked: false,
            lock_reason: None,
        }
    }

    /// The error an allocation of `amount` to pool `pool_id` for grant `g`
    /// meets, checked in this order, or `None` when it goes through.
    pub open spec fn allocation_error(&self, g: u64, pool_id: u64, amount: u128) -> Option<LiquidityError> {
        if self.config is None {
            Some(LiquidityError::NotInitialized)
        } else if !self.pools@.contains_key(pool_id) {
            Some(LiquidityError::PoolNotFound)
        } else if !self.pools@[pool_id].is_active || self.pools@[pool_id].grant_id != g {
            Some(LiquidityError::PoolInactive)
        } else if self.grant_allocation(g) + amount > u128::MAX || (self.grant_allocation(g) + amount) * 10000 > u128::MAX {
            Some(LiquidityError::MathOverflow)
        } else if liquidity_ratio(self.grant_allocation(g) + amount) > self.config.unwrap().max_liquidity_ratio {
            Some(LiquidityError::LiquidityRatioExceeded)
        } else {
            None
        }
    }

    /// The plan of a milestone claim of `amount` against grant `g`'s positions.
    pub open spec fn claim_plan(&self, g: u64, amount: u128) -> (Seq<PlanStep>, u128) {
        withdrawal_plan(self.position_ids(g), self.positions@, 0, amount)
    }

    /// The error a milestone claim of `amount` against grant `g` meets, or
    /// `None` when it goes through. A grant with no positions has nothing to
    /// pull back, so its claims go through (as the hook's own tests expect);
    /// otherwise the positions that were not locked must cover the whole
    /// amount.
    pub open spec fn claim_error(&self, g: u64, amount: u128) -> Option<LiquidityError> {
        if self.config is None {
            Some(LiquidityError::NotInitialized)
        } else if !self.config.unwrap().emergency_withdrawal_enabled {
            Some(LiquidityError::EmergencyMode)
        } else if self.position_ids(g).len() > 0 && self.claim_plan(g, amount).1 > 0 {
            Some(LiquidityError::InsufficientUnstreamed)
        } else {
            None
        }
    }

    /// Whether processing withdrawal `id` leaves every balance it draws on
    /// non-negative.
    pub open spec fn withdrawal_fits(&self, id: u64) -> bool {
        self.withdrawals@.contains_key(id) ==> {
            let w = self.withdrawals@[id];
            &&& self.positions@.contains_key(w.position_id) ==> self.positions@[w.position_id].current_value >= w.amount
            &&& self.pools@.contains_key(w.pool_id) ==> self.pools@[w.pool_id].lp_tokens >= w.amount
            &&& self.metrics matches Some(m) ==> m.total_value >= w.amount
        }
    }

    /// The error processing withdrawal `id` meets, or `None` when it goes
    /// through.
    pub open spec fn processing_error(&self, id: u64) -> Option<LiquidityError> {
        if !self.withdrawals@.contains_key(id) {
            Some(LiquidityError::WithdrawalNotFound)
        } else if self.withdrawals@[id].status != WithdrawalStatus::Approved {
            Some(LiquidityError::InvalidState)
        } else if !self.positions@.contains_key(self.withdrawals@[id].position_id) {
            Some(LiquidityError::PositionNotFound)
        } else if !self.pools@.contains_key(self.withdrawals@[id].pool_id) {
            Some(LiquidityError::PoolNotFound)
        } else if self.metrics is None {
            Some(LiquidityError::NotInitialized)
        } else {
            None
        }
    }

    /// A hook at `contract_address`, not yet initialized.
    pub fn new(contract_address: Address) -> (r: Self)
        ensures
            r.wf(),
            r.contract_address == contract_address,
            r.config is None,
            r.metrics is None,
            r.next_pool_id == 1,
            r.next_position_id == 1,
            r.next_withdrawal_id == 1,
    {
        LiquidityProvisionHook {
            contract_address,
            config: None,
            metrics: None,
            pools: HashMap::new(),
            positions: HashMap::new(),
            withdrawals: HashMap::new(),
            grant_positions: HashMap::new(),
            grant_pools: HashMap::new(),
            next_pool_id: 1,
            next_position_id: 1,
            next_withdrawal_id: 1,
            active_pools: Vec::new(),
            locked_positions: Vec::new(),
        }
    }

    /// Initializes the hook at `now`. A second initialization fails with
    /// `NotInitialized`; a ratio above 50%, a zero pool size or a minimum above
    /// the maximum fail with `InvalidAmount`.
    pub fn initialize(
        &mut self,
        admin: Address,
        max_liquidity_ratio: u32,
        min_pool_size: u128,
        max_pool_size: u128,
        now: u64,
    ) -> (r: Result<(), LiquidityError>)
        requires
            old(self).wf(),
        ensures
            final(self).wf(),
            old(self).config is Some ==> r == Err::<(), LiquidityError>(LiquidityError::NotInitialized),
            old(self).config is None && !valid_config_params(max_liquidity_ratio, min_pool_size, max_pool_size)
                ==> r == Err::<(), LiquidityError>(LiquidityError::InvalidAmount),
            r is Ok <==> old(self).config is None && valid_config_params(max_liquidity_ratio, min_pool_size, max_pool_size),
            r is Err ==> final(self).config == old(self).config && final(self).metrics == old(self).metrics,
            r is Ok ==> {
                &&& final(self).config == Some(LiquidityConfig {
                    admin,
                    max_liquidity_ratio,
                    emergency_withdrawal_enabled: true,
                    auto_rebalance_enabled: true,
                    min_pool_size,
                    max_pool_size,
                    rebalance_threshold: DEFAULT_REBALANCE_THRESHOLD,
                    fee_tier: 0,
                })
                &&& final(self).metrics == Some(LiquidityMetrics {
                    total_allocated: 0,
                    total_value: 0,
                    total_fees_earned: 0,
                    active_pools: 0,
                    locked_positions: 0,
                    last_calculation: now,
                    apy: 0,
                })
                &&& final(self).next_pool_id == 1
                &&& final(self).next_position_id == 1
                &&& final(self).next_withdrawal_id == 1
                &&& final(self).active_pools@.len() == 0
                &&& final(self).locked_positions@.len() == 0
            },
            final(self).pools@ == old(self).pools@,
            final(self).positions@ == old(self).positions@,
            final(self).withdrawals@ == old(self).withdrawals@,
            final(self).grant_positions@ == old(self).grant_positions@,
            final(self).grant_pools@ == old(self).grant_pools@,
            final(self).contract_address == old(self).contract_address,
    {
        if self.config.is_some() {
            return Err(LiquidityError::NotInitialized);
        }
        if max_liquidity_ratio > MAX_CONFIGURABLE_RATIO {
            return Err(LiquidityError::InvalidAmount);
        }
        if min_pool_size == 0 || max_pool_size == 0 {
            return Err(LiquidityError::InvalidAmount);
        }
        if min_pool_size > max_pool_size {
            return Err(LiquidityError::InvalidAmount);
        }
        self.config = Some(LiquidityConfig {
            admin,
            max_liquidity_ratio,
            emergency_withdrawal_enabled: true,
            auto_rebalance_enabled: true,
            min_pool_size,
            max_pool_size,
            rebalance_threshold: DEFAULT_REBALANCE_THRESHOLD,
            fee_tier: 0,
        });
        self.next_pool_id = 1;
        self.next_position_id = 1;
        self.next_withdrawal_id = 1;
        self.active_pools = Vec::new();
        self.locked_positions = Vec::new();
        self.metrics = Some(LiquidityMetrics {
            total_allocated: 0,
            total_value: 0,
            total_fees_earned: 0,
            active_pools: 0,
            locked_positions: 0,
            last_calculation: now,
            apy: 0,
        });
        Ok(())
    }

    /// The metrics; `NotInitialized` before initialization.
    pub fn get_liquidity_metrics(&self) -> (r: Result<LiquidityMetrics, LiquidityError>)
        ensures
            self.metrics matches Some(m) ==> r == Ok::<LiquidityMetrics, LiquidityError>(m),
            self.metrics is None ==> r == Err::<LiquidityMetrics, LiquidityError>(LiquidityError::NotInitialized),
    {
        match self.metrics {
            Some(m) => Ok(m),
            None => Err(LiquidityError::NotInitialized),
        }
    }

    /// Positions of grant `grant_id`, in creation order (empty for a grant
    /// without positions).
    pub fn get_grant_positions(&self, grant_id: u64) -> (r: Result<Vec<u64>, LiquidityError>)
        ensures
            r matches Ok(v) && v@ == self.position_ids(grant_id),
    {
        match self.grant_positions.get(&grant_id) {
            Some(v) => Ok(v.clone()),
            None => Ok(Vec::new()),
        }
    }

    /// Pool `pool_id`; `PoolNotFound` if there is none.
    pub fn get_pool(&self, pool_id: u64) -> (r: Result<LiquidityPool, LiquidityError>)
        ensures
            self.pools@.contains_key(pool_id) ==> r == Ok::<LiquidityPool, LiquidityError>(self.pools@[pool_id]),
            !self.pools@.contains_key(pool_id) ==> r == Err::<LiquidityPool, LiquidityError>(LiquidityError::PoolNotFound),
    {
        match self.pools.get(&pool_id) {
            Some(p) => Ok(*p),
            None => Err(LiquidityError::PoolNotFound),
        }
    }

    /// Position `position_id`; `PositionNotFound` if there is none.
    pub fn get_position(&self, position_id: u64) -> (r: Result<&LiquidityPosition, LiquidityError>)
        ensures
            self.positions@.contains_key(position_id) ==> r == Ok::<&LiquidityPosition, LiquidityError>(&self.positions@[position_id]),
            !self.positions@.contains_key(position_id) ==> r == Err::<&LiquidityPosition, LiquidityError>(LiquidityError::PositionNotFound),
    {
        match self.positions.get(&position_id) {
            Some(p) => Ok(p),
            None => Err(LiquidityError::PositionNotFound),
        }
    }

    /// Emergency withdrawal `withdrawal_id`; `WithdrawalNotFound` if there is none.
    pub fn get_emergency_withdrawal(&self, withdrawal_id: u64) -> (r: Result<&EmergencyWithdrawal, LiquidityError>)
        ensures
            self.withdrawals@.contains_key(withdrawal_id) ==> r == Ok::<&EmergencyWithdrawal, LiquidityError>(&self.withdrawals@[withdrawal_id]),
            !self.withdrawals@.contains_key(withdrawal_id) ==> r == Err::<&EmergencyWithdrawal, LiquidityError>(LiquidityError::WithdrawalNotFound),
    {
        match self.withdrawals.get(&withdrawal_id) {
            Some(w) => Ok(w),
            None => Err(LiquidityError::WithdrawalNotFound),
        }
    }

    /// The configuration; `NotInitialized` before initialization.
    pub fn get_config(&self) -> (r: Result<LiquidityConfig, LiquidityError>)
        ensures
            self.config matches Some(c) ==> r == Ok::<LiquidityConfig, LiquidityError>(c),
            self.config is None ==> r == Err::<LiquidityConfig, LiquidityError>(LiquidityError::NotInitialized),
    {
        match self.config {
            Some(c) => Ok(c),
            None => Err(LiquidityError::NotInitialized),
        }
    }
}

impl LiquidityProvisionHook {
    /// Opens a pool for grant `grant_id` at `now`, funded with `initial_amount_a`
    /// of `token_a` and `initial_amount_b` of `token_b`; the deposit yields as
    /// many LP tokens as it holds in all. The grant gets a position worth the
    /// whole deposit. Returns the pool's id.
    pub fn create_liquidity_pool(
        &mut self,
        grant_id: u64,
        token_a: Address,
        token_b: Address,
        lp_token_address: Address,
        initial_amount_a: u128,
        initial_amount_b: u128,
        now: u64,
    ) -> (r: Result<u64, LiquidityError>)
        requires
            old(self).wf(),
            old(self).pool_accepted(grant_id, initial_amount_a, initial_amount_b) ==> {
                &&& initial_amount_a + initial_amount_b <= u128::MAX
                &&& old(self).deposit_fits(initial_amount_a + initial_amount_b)
                &&& old(self).next_pool_id < u64::MAX
                &&& old(self).next_position_id < u64::MAX
            },
        ensures
            final(self).wf(),
            old(self).config is None ==> r == Err::<u64, LiquidityError>(LiquidityError::NotInitialized),
            old(self).config matches Some(c) ==> {
                &&& old(self).pool_ids(grant_id).len() >= MAX_POOLS_PER_GRANT
                    ==> r == Err::<u64, LiquidityError>(LiquidityError::PoolLimitExceeded)
                &&& old(self).pool_ids(grant_id).len() < MAX_POOLS_PER_GRANT && (initial_amount_a < c.min_pool_size
                    || initial_amount_b < c.min_pool_size || initial_amount_a > c.max_pool_size
                    || initial_amount_b > c.max_pool_size)
                    ==> r == Err::<u64, LiquidityError>(LiquidityError::InvalidAmount)
            },
            r is Ok <==> (old(self).config matches Some(c) && old(self).pool_ids(grant_id).len() < MAX_POOLS_PER_GRANT
                && c.min_pool_size <= initial_amount_a <= c.max_pool_size
                && c.min_pool_size <= initial_amount_b <= c.max_pool_size),
            r is Err ==> {
                &&& final(self).pools@ == old(self).pools@
                &&& final(self).positions@ == old(self).positions@
                &&& final(self).grant_pools@ == old(self).grant_pools@
                &&& final(self).grant_positions@ == old(self).grant_positions@
                &&& final(self).active_pools@ == old(self).active_pools@
                &&& final(self).metrics == old(self).metrics
                &&& final(self).next_pool_id == old(self).next_pool_id
                &&& final(self).next_position_id == old(self).next_position_id
            },
            r matches Ok(id) ==> {
                let total = initial_amount_a + initial_amount_b;
                &&& id == old(self).next_pool_id
                &&& final(self).next_pool_id == id + 1
                &&& final(self).next_position_id == old(self).next_position_id + 1
                &&& final(self).pools@ == old(self).pools@.insert(id, LiquidityPool {
                    pool_id: id,
                    grant_id,
                    token_a,
                    token_b,
                    lp_token_address,
                    deposited_amount_a: initial_amount_a,
                    deposited_amount_b: initial_amount_b,
                    lp_tokens: total as u128,
                    created_at: now,
                    last_withdrawal: 0,
                    is_active: true,
                    auto_rebalance: old(self).config.unwrap().auto_rebalance_enabled,
                })
                &&& final(self).positions@ == old(self).positions@.insert(
                    old(self).next_position_id,
                    old(self).opened_position(id, grant_id, total as u128, now),
                )
                &&& final(self).pool_ids(grant_id) == old(self).pool_ids(grant_id).push(id)
                &&& final(self).position_ids(grant_id) == old(self).position_ids(grant_id).push(old(self).next_position_id)
                &&& forall|g: u64| g != grant_id ==> #[trigger] final(self).pool_ids(g) == old(self).pool_ids(g)
                &&& forall|g: u64| g != grant_id ==> #[trigger] final(self).position_ids(g) == old(self).position_ids(g)
                &&& final(self).active_pools@ == old(self).active_pools@.push(id)
                &&& final(self).grant_allocation(grant_id) == old(self).grant_allocation(grant_id) + total
                &&& final(self).metrics == Some(LiquidityMetrics {
                    active_pools: final(self).active_pools@.len() as u32,
                    ..deposit_metrics(old(self).metrics.unwrap(), total, total, now)
                })
            },
            final(self).config == old(self).config,
            final(self).withdrawals@ == old(self).withdrawals@,
            final(self).next_withdrawal_id == old(self).next_withdrawal_id,
            final(self).locked_positions@ == old(self).locked_positions@,
            final(self).contract_address == old(self).contract_address,
    {
        let config = match self.config {
            Some(c) => c,
            None => {
                return Err(LiquidityError::NotInitialized);
            },
        };
        let pool_count = match self.grant_pools.get(&grant_id) {
            Some(v) => v.len(),
            None => 0,
        };
        if pool_count >= MAX_POOLS_PER_GRANT as usize {
            return Err(LiquidityError::PoolLimitExceeded);
        }
        if initial_amount_a < config.min_pool_size || initial_amount_b < config.min_pool_size {
            return Err(LiquidityError::InvalidAmount);
        }
        if initial_amount_a > config.max_pool_size || initial_amount_b > config.max_pool_size {
            return Err(LiquidityError::InvalidAmount);
        }
        let pool_id = self.next_pool_id;
        self.next_pool_id = pool_id + 1;
        // The deposit yields one LP token per unit deposited.
        let total = initial_amount_a + initial_amount_b;
        let pool = LiquidityPool {
            pool_id,
            grant_id,
            token_a,
            token_b,
            lp_token_address,
            deposited_amount_a: initial_amount_a,
            deposited_amount_b: initial_amount_b,
            lp_tokens: total,
            created_at: now,
            last_withdrawal: 0,
            is_active: true,
            auto_rebalance: config.auto_rebalance_enabled,
        };
        self.pools.insert(pool_id, pool);
        push_to_list(&mut self.grant_pools, grant_id, pool_id);
        self.active_pools.push(pool_id);
        let m = metrics_after_deposit(self.metrics.unwrap(), total, total, now);
        self.metrics = Some(LiquidityMetrics { active_pools: self.active_pools.len() as u32, ..m });
        let _position_id = self.open_position(pool_id, grant_id, total, now);
        proof {
            assert forall|g: u64| g != grant_id implies #[trigger] self.pool_ids(g) == old(self).pool_ids(g) by {
                if old(self).grant_pools@.contains_key(g) {
                    assert(self.grant_pools@[g] == old(self).grant_pools@[g]);
                }
            }
            assert forall|j: int| 0 <= j < self.active_pools@.len() implies self.pools@.contains_key(
                #[trigger] self.active_pools@[j],
            ) by {
                if j < old(self).active_pools@.len() {
                    assert(old(self).pools@.contains_key(old(self).active_pools@[j]));
                }
            }
        }
        Ok(pool_id)
    }

    /// Opens position `next_position_id` of grant `grant_id` in pool `pool_id`,
    /// worth `amount`, and appends it to the grant's positions.
    fn open_position(&mut self, pool_id: u64, grant_id: u64, amount: u128, now: u64) -> (id: u64)
        requires
            old(self).wf(),
            old(self).config is Some,
            old(self).pools@.contains_key(pool_id),
            old(self).next_position_id < u64::MAX,
        ensures
            final(self).wf(),
            id == old(self).next_position_id,
            final(self).next_position_id == id + 1,
            final(self).positions@ == old(self).positions@.insert(id, old(self).opened_position(pool_id, grant_id, amount, now)),
            final(self).position_ids(grant_id) == old(self).position_ids(grant_id).push(id),
            forall|g: u64| g != grant_id ==> #[trigger] final(self).position_ids(g) == old(self).position_ids(g),
            forall|g: u64| #[trigger] final(self).grant_allocation(g) == old(self).grant_allocation(g) + if g == grant_id {
                amount as int
            } else {
                0
            },
            final(self).config == old(self).config,
            final(self).metrics == old(self).metrics,
            final(self).pools@ == old(self).pools@,
            final(self).withdrawals@ == old(self).withdrawals@,
            final(self).grant_pools@ == old(self).grant_pools@,
            final(self).next_pool_id == old(self).next_pool_id,
            final(self).next_withdrawal_id == old(self).next_withdrawal_id,
            final(self).active_pools@ == old(self).active_pools@,
            final(self).locked_positions@ == old(self).locked_positions@,
            final(self).contract_address == old(self).contract_address,
    {
        let id = self.next_position_id;
        self.next_position_id = id + 1;
        self.positions.insert(id, LiquidityPosition {
            position_id: id,
            pool_id,
            grant_id,
            allocated_amount: amount,
            current_value: amount,
            accrued_fees: 0,
            created_at: now,
            last_updated: now,
            is_locked: false,
            lock_reason: None,
        });
        push_to_list(&mut self.grant_positions, grant_id, id);
        proof {
            assert forall|g: u64| g != grant_id implies #[trigger] self.position_ids(g) == old(self).position_ids(g) by {
                if old(self).grant_positions@.contains_key(g) {
                    assert(self.grant_positions@[g] == old(self).grant_positions@[g]);
                }
            }
            assert forall|g: u64, j: int| self.grant_positions@.contains_key(g) && 0 <= j < self.grant_positions@[g]@.len()
                implies self.positions@.contains_key(#[trigger] self.grant_positions@[g]@[j]) by {
                if g != grant_id {
                    assert(old(self).grant_positions@.contains_key(g));
                    assert(self.grant_positions@[g] == old(self).grant_positions@[g]);
                } else if j < self.grant_positions@[g]@.len() - 1 {
                    assert(self.position_ids(g)[j] == old(self).position_ids(g)[j]);
                    assert(old(self).grant_positions@.contains_key(g));
                }
            }
            let p = self.positions@[id];
            assert forall|g: u64| #[trigger] self.grant_allocation(g) == old(self).grant_allocation(g) + if g == grant_id {
                amount as int
            } else {
                0
            } by {
                let ids = old(self).position_ids(g);
                if ids.contains(id) {
                    let t = choose|t: int| 0 <= t < ids.len() && #[trigger] ids[t] == id;
                    assert(old(self).grant_positions@.contains_key(g));
                    assert(old(self).positions@.contains_key(old(self).grant_positions@[g]@[t]));
                }
                lemma_allocation_sum_insert_fresh(ids, old(self).positions@, id, p);
                if g == grant_id {
                    lemma_allocation_sum_push(ids, self.positions@, id);
                }
            }
        }
        id
    }
}

impl LiquidityProvisionHook {
    /// Sum of the allocations of grant `grant_id`'s positions.
    fn grant_total_allocation(&self, grant_id: u64) -> (r: u128)
        requires
            self.wf(),
            self.grant_allocation(grant_id) <= u128::MAX,
        ensures
            r == self.grant_allocation(grant_id),
    {
        match self.grant_positions.get(&grant_id) {
            None => 0,
            Some(ids) => {
                let mut total: u128 = 0;
                let mut i: usize = 0;
                while i < ids.len()
                    invariant
                        self.wf(),
                        self.grant_positions@.contains_key(grant_id),
                        ids@ == self.grant_positions@[grant_id]@,
                        ids@ == self.position_ids(grant_id),
                        allocation_sum(ids@, self.positions@) <= u128::MAX,
                        i <= ids.len(),
                        total == allocation_sum(ids@.take(i as int), self.positions@),
                    decreases ids.len() - i,
                {
                    let id = ids[i];
                    assert(self.positions@.contains_key(self.grant_positions@[grant_id]@[i as int]));
                    let p = self.positions.get(&id).unwrap();
                    proof {
                        lemma_allocation_sum_step(ids@, self.positions@, i as int);
                        lemma_allocation_prefix_le(ids@, self.positions@, i as int + 1);
                    }
                    total = total + p.allocated_amount;
                    i = i + 1;
                }
                assert(ids@.take(ids@.len() as int) =~= ids@);
                total
            },
        }
    }

    /// Puts `amount` more of grant `grant_id`'s unstreamed treasury into pool
    /// `pool_id` at `now`, as a new position; the addition yields one LP token
    /// per unit. The grant's allocations together may not exceed the
    /// configured share of its unstreamed treasury. Returns the position's id.
    pub fn allocate_to_liquidity(&mut self, grant_id: u64, pool_id: u64, amount: u128, now: u64) -> (r: Result<
        u64,
        LiquidityError,
    >)
        requires
            old(self).wf(),
            old(self).grant_allocation(grant_id) <= u128::MAX,
            old(self).allocation_error(grant_id, pool_id, amount) is None ==> {
                &&& old(self).pools@[pool_id].lp_tokens + amount <= u128::MAX
                &&& old(self).deposit_fits(amount as int)
                &&& old(self).next_position_id < u64::MAX
            },
        ensures
            final(self).wf(),
            r is Err <==> old(self).allocation_error(grant_id, pool_id, amount) is Some,
            r matches Err(e) ==> old(self).allocation_error(grant_id, pool_id, amount) == Some(e),
            r is Err ==> {
                &&& final(self).pools@ == old(self).pools@
                &&& final(self).positions@ == old(self).positions@
                &&& final(self).grant_positions@ == old(self).grant_positions@
                &&& final(self).metrics == old(self).metrics
                &&& final(self).next_position_id == old(self).next_position_id
            },
            r matches Ok(id) ==> {
                let pool = old(self).pools@[pool_id];
                &&& id == old(self).next_position_id
                &&& final(self).next_position_id == id + 1
                &&& final(self).positions@ == old(self).positions@.insert(id, old(self).opened_position(pool_id, grant_id, amount, now))
                &&& final(self).position_ids(grant_id) == old(self).position_ids(grant_id).push(id)
                &&& forall|g: u64| g != grant_id ==> #[trigger] final(self).position_ids(g) == old(self).position_ids(g)
                &&& final(self).pools@ == old(self).pools@.insert(pool_id, LiquidityPool {
                    lp_tokens: (pool.lp_tokens + amount) as u128,
                    ..pool
                })
                &&& final(self).metrics == Some(deposit_metrics(old(self).metrics.unwrap(), amount as int, amount as int, now))
                &&& final(self).grant_allocation(grant_id) == old(self).grant_allocation(grant_id) + amount
                &&& liquidity_ratio(final(self).grant_allocation(grant_id)) <= old(self).config.unwrap().max_liquidity_ratio
            },
            final(self).config == old(self).config,
            final(self).withdrawals@ == old(self).withdrawals@,
            final(self).grant_pools@ == old(self).grant_pools@,
            final(self).next_pool_id == old(self).next_pool_id,
            final(self).next_withdrawal_id == old(self).next_withdrawal_id,
            final(self).active_pools@ == old(self).active_pools@,
            final(self).locked_positions@ == old(self).locked_positions@,
            final(self).contract_address == old(self).contract_address,
    {
        let config = match self.config {
            Some(c) => c,
            None => {
                return Err(LiquidityError::NotInitialized);
            },
        };
        let pool = match self.pools.get(&pool_id) {
            Some(p) => *p,
            None => {
                return Err(LiquidityError::PoolNotFound);
            },
        };
        if !pool.is_active || pool.grant_id != grant_id {
            return Err(LiquidityError::PoolInactive);
        }
        let current_allocation = self.grant_total_allocation(grant_id);
        let unstreamed_amount = ESTIMATED_UNSTREAMED_TREASURY;
        let new_total = match current_allocation.checked_add(amount) {
            Some(t) => t,
            None => {
                return Err(LiquidityError::MathOverflow);
            },
        };
        let ratio = match new_total.checked_mul(10000) {
            Some(p) => p / unstreamed_amount,
            None => {
                return Err(LiquidityError::MathOverflow);
            },
        };
        if ratio > config.max_liquidity_ratio as u128 {
            return Err(LiquidityError::LiquidityRatioExceeded);
        }
        let m = metrics_after_deposit(self.metrics.unwrap(), amount, amount, now);
        self.metrics = Some(m);
        // The addition yields one LP token per unit added.
        self.pools.insert(pool_id, LiquidityPool { lp_tokens: pool.lp_tokens + amount, ..pool });
        let position_id = self.open_position(pool_id, grant_id, amount, now);
        proof {
            assert(self.pools@.dom() =~= old(self).pools@.dom());
        }
        Ok(position_id)
    }
}

impl LiquidityProvisionHook {
    /// Computes the withdrawal plan of a milestone claim of `amount` against
    /// the positions `ids`.
    fn plan_withdrawals(&self, ids: &Vec<u64>, amount: u128) -> (r: (Vec<PlanStep>, u128))
        requires
            forall|j: int| 0 <= j < ids@.len() ==> self.positions@.contains_key(#[trigger] ids@[j]),
        ensures
            r.0@ == withdrawal_plan(ids@, self.positions@, 0, amount).0,
            r.1 == withdrawal_plan(ids@, self.positions@, 0, amount).1,
    {
        let ghost whole = withdrawal_plan(ids@, self.positions@, 0, amount);
        let mut steps: Vec<PlanStep> = Vec::new();
        let mut remaining = amount;
        let mut i: usize = 0;
        while i < ids.len() && remaining > 0
            invariant
                i <= ids@.len(),
                forall|j: int| 0 <= j < ids@.len() ==> self.positions@.contains_key(#[trigger] ids@[j]),
                whole == withdrawal_plan(ids@, self.positions@, 0, amount),
                steps@ + withdrawal_plan(ids@, self.positions@, i as int, remaining).0 == whole.0,
                withdrawal_plan(ids@, self.positions@, i as int, remaining).1 == whole.1,
            decreases ids.len() - i,
        {
            let id = ids[i];
            assert(self.positions@.contains_key(ids@[i as int]));
            let p = self.positions.get(&id).unwrap();
            if !p.is_locked {
                let w = if remaining <= p.current_value { remaining } else { p.current_value };
                let ghost rest = withdrawal_plan(ids@, self.positions@, i + 1, (remaining - w) as u128);
                assert(steps@.push((id, p.pool_id, w)) + rest.0 =~= steps@ + (seq![(id, p.pool_id, w)] + rest.0));
                steps.push((id, p.pool_id, w));
                remaining = remaining - w;
            }
            i = i + 1;
        }
        assert(steps@ =~= whole.0);
        (steps, remaining)
    }

    /// Pulls liquidity back for milestone claim `milestone_claim_id` of grant
    /// `grant_id`, which needs `milestone_amount`, at `now`: the grant's
    /// positions that were not locked give, in order, what they hold until the
    /// amount is covered, each through an approved withdrawal; then all the
    /// grant's positions are locked for the claim. Returns the withdrawals'
    /// ids. When the positions cannot cover the amount nothing changes.
    pub fn emergency_withdraw_for_milestone(
        &mut self,
        grant_id: u64,
        milestone_amount: u128,
        milestone_claim_id: u64,
        now: u64,
    ) -> (r: Result<Vec<u64>, LiquidityError>)
        requires
            old(self).wf(),
            old(self).next_withdrawal_id + old(self).position_ids(grant_id).len() <= u64::MAX,
        ensures
            final(self).wf(),
            r is Err <==> old(self).claim_error(grant_id, milestone_amount) is Some,
            r matches Err(e) ==> old(self).claim_error(grant_id, milestone_amount) == Some(e),
            r is Err ==> {
                &&& final(self).positions@ == old(self).positions@
                &&& final(self).withdrawals@ == old(self).withdrawals@
                &&& final(self).next_withdrawal_id == old(self).next_withdrawal_id
                &&& final(self).locked_positions@ == old(self).locked_positions@
                &&& final(self).metrics == old(self).metrics
            },
            r matches Ok(ids) ==> {
                let plan = old(self).claim_plan(grant_id, milestone_amount).0;
                let first = old(self).next_withdrawal_id;
                let grant_ids = old(self).position_ids(grant_id);
                &&& ids@ == Seq::new(plan.len(), |j: int| (first + j) as u64)
                &&& final(self).next_withdrawal_id == first + plan.len()
                &&& final(self).withdrawals@.dom() == old(self).withdrawals@.dom().union(
                    Set::new(|k: u64| first <= k < first + plan.len()),
                )
                &&& forall|k: u64| #[trigger] old(self).withdrawals@.contains_key(k)
                    ==> final(self).withdrawals@[k] == old(self).withdrawals@[k]
                &&& forall|j: int| 0 <= j < plan.len() ==> claim_withdrawal(
                    #[trigger] final(self).withdrawals@[(first + j) as u64],
                    (first + j) as u64,
                    grant_id,
                    plan[j],
                    milestone_claim_id,
                    now,
                    old(self).contract_address,
                )
                &&& final(self).positions@.dom() == old(self).positions@.dom()
                &&& forall|k: u64| #[trigger] old(self).positions@.contains_key(k) ==> if grant_ids.contains(k) {
                    locked_for_claim(old(self).positions@[k], final(self).positions@[k], milestone_claim_id)
                } else {
                    final(self).positions@[k] == old(self).positions@[k]
                }
                &&& final(self).locked_positions@ == merge_locked(old(self).locked_positions@, grant_ids)
                &&& final(self).metrics == Some(LiquidityMetrics {
                    locked_positions: final(self).locked_positions@.len() as u32,
                    ..old(self).metrics.unwrap()
                })
            },
            final(self).config == old(self).config,
            final(self).pools@ == old(self).pools@,
            final(self).grant_positions@ == old(self).grant_positions@,
            final(self).grant_pools@ == old(self).grant_pools@,
            final(self).next_pool_id == old(self).next_pool_id,
            final(self).next_position_id == old(self).next_position_id,
            final(self).active_pools@ == old(self).active_pools@,
            final(self).contract_address == old(self).contract_address,
    {
        let config = match self.config {
            Some(c) => c,
            None => {
                return Err(LiquidityError::NotInitialized);
            },
        };
        if !config.emergency_withdrawal_enabled {
            return Err(LiquidityError::EmergencyMode);
        }
        let grant_ids = match self.grant_positions.get(&grant_id) {
            Some(v) => v.clone(),
            None => Vec::new(),
        };
        proof {
            assert forall|j: int| 0 <= j < grant_ids@.len() implies self.positions@.contains_key(#[trigger] grant_ids@[j]) by {
                assert(self.positions@.contains_key(self.grant_positions@[grant_id]@[j]));
            }
        }
        let (plan, remaining) = self.plan_withdrawals(&grant_ids, milestone_amount);
        if grant_ids.len() > 0 && remaining > 0 {
            return Err(LiquidityError::InsufficientUnstreamed);
        }
        let reason = with_decimal("Milestone claim ", milestone_claim_id);
        lock_all(&mut self.positions, &grant_ids, &reason, Ghost(milestone_claim_id));
        merge_into(&mut self.locked_positions, &grant_ids);
        let m = self.metrics.unwrap();
        self.metrics = Some(LiquidityMetrics { locked_positions: self.locked_positions.len() as u32, ..m });
        proof {
            assert(plan@.len() <= grant_ids@.len()) by {
                lemma_plan_len(grant_ids@, old(self).positions@, 0, milestone_amount);
            }
        }
        let first = self.next_withdrawal_id;
        let ids = record_withdrawals(
            &mut self.withdrawals,
            &plan,
            first,
            grant_id,
            milestone_claim_id,
            now,
            self.contract_address,
        );
        self.next_withdrawal_id = first + plan.len() as u64;
        Ok(ids)
    }
}

impl LiquidityProvisionHook {
    /// Carries out approved withdrawal `withdrawal_id` at `now`: its amount
    /// leaves the position, the pool's LP tokens and the total value, and the
    /// withdrawal is marked processed.
    pub fn process_emergency_withdrawal(&mut self, withdrawal_id: u64, now: u64) -> (r: Result<(), LiquidityError>)
        requires
            old(self).wf(),
            old(self).withdrawal_fits(withdrawal_id),
        ensures
            final(self).wf(),
            r is Err <==> old(self).processing_error(withdrawal_id) is Some,
            r matches Err(e) ==> old(self).processing_error(withdrawal_id) == Some(e),
            r is Err ==> {
                &&& final(self).positions@ == old(self).positions@
                &&& final(self).pools@ == old(self).pools@
                &&& final(self).withdrawals@ == old(self).withdrawals@
                &&& final(self).metrics == old(self).metrics
            },
            r is Ok ==> {
                let w = old(self).withdrawals@[withdrawal_id];
                let position = old(self).positions@[w.position_id];
                let pool = old(self).pools@[w.pool_id];
                let m = old(self).metrics.unwrap();
                &&& final(self).positions@ == old(self).positions@.insert(w.position_id, LiquidityPosition {
                    current_value: (position.current_value - w.amount) as u128,
                    last_updated: now,
                    ..position
                })
                &&& final(self).pools@ == old(self).pools@.insert(w.pool_id, LiquidityPool {
                    lp_tokens: (pool.lp_tokens - w.amount) as u128,
                    last_withdrawal: now,
                    ..pool
                })
                &&& final(self).withdrawals@ == old(self).withdrawals@.insert(withdrawal_id, EmergencyWithdrawal {
                    status: WithdrawalStatus::Processed,
                    processed_at: Some(now),
                    ..w
                })
                &&& final(self).metrics == Some(LiquidityMetrics {
                    total_value: (m.total_value - w.amount) as u128,
                    last_calculation: now,
                    ..m
                })
            },
            final(self).config == old(self).config,
            final(self).grant_positions@ == old(self).grant_positions@,
            final(self).grant_pools@ == old(self).grant_pools@,
            final(self).next_pool_id == old(self).next_pool_id,
            final(self).next_position_id == old(self).next_position_id,
            final(self).next_withdrawal_id == old(self).next_withdrawal_id,
            final(self).active_pools@ == old(self).active_pools@,
            final(self).locked_positions@ == old(self).locked_positions@,
            final(self).contract_address == old(self).contract_address,
    {
        let (position_id, pool_id, amount) = match self.withdrawals.get(&withdrawal_id) {
            None => {
                return Err(LiquidityError::WithdrawalNotFound);
            },
            Some(w) => {
                if w.status != WithdrawalStatus::Approved {
                    return Err(LiquidityError::InvalidState);
                }
                (w.position_id, w.pool_id, w.amount)
            },
        };
        if !self.positions.contains_key(&position_id) {
            return Err(LiquidityError::PositionNotFound);
        }
        let pool = match self.pools.get(&pool_id) {
            Some(p) => *p,
            None => {
                return Err(LiquidityError::PoolNotFound);
            },
        };
        let m = match self.metrics {
            Some(m) => m,
            None => {
                return Err(LiquidityError::NotInitialized);
            },
        };
        // The pool pays out one unit per LP token burned.
        let mut position = self.positions.remove(&position_id).unwrap();
        position.current_value = position.current_value - amount;
        position.last_updated = now;
        self.positions.insert(position_id, position);
        self.pools.insert(pool_id, LiquidityPool { lp_tokens: pool.lp_tokens - amount, last_withdrawal: now, ..pool });
        let mut withdrawal = self.withdrawals.remove(&withdrawal_id).unwrap();
        withdrawal.status = WithdrawalStatus::Processed;
        withdrawal.processed_at = Some(now);
        self.withdrawals.insert(withdrawal_id, withdrawal);
        let mut updated = m;
        updated.total_value = m.total_value - amount;
        updated.last_calculation = now;
        if updated.total_allocated > 0 {
            updated.apy = ((updated.total_fees_earned * 10000) / updated.total_allocated) as u32;
        }
        self.metrics = Some(updated);
        proof {
            assert(self.positions@.dom() =~= old(self).positions@.dom());
            assert(self.pools@.dom() =~= old(self).pools@.dom());
            assert(self.withdrawals@.dom() =~= old(self).withdrawals@.dom());
        }
        Ok(())
    }

    /// Whether `pool` has drifted beyond `threshold` from its balance. Pools
    /// are never found out of balance yet.
    fn needs_rebalancing(pool: &LiquidityPool, threshold: u32) -> (r: bool)
        ensures
            !r,
    {
        false
    }

    /// Rebalances the active pools that allow it and have drifted beyond the
    /// configured threshold; returns their ids.
    pub fn rebalance_pools(&self) -> (r: Result<Vec<u64>, LiquidityError>)
        requires
            self.wf(),
        ensures
            self.config is None ==> r == Err::<Vec<u64>, LiquidityError>(LiquidityError::NotInitialized),
            (self.config matches Some(c) && !c.auto_rebalance_enabled) ==> r == Err::<Vec<u64>, LiquidityError>(
                LiquidityError::InvalidState,
            ),
            (self.config matches Some(c) && c.auto_rebalance_enabled) ==> (r matches Ok(v) && v@.len() == 0),
    {
        let config = match self.config {
            Some(c) => c,
            None => {
                return Err(LiquidityError::NotInitialized);
            },
        };
        if !config.auto_rebalance_enabled {
            return Err(LiquidityError::InvalidState);
        }
        let mut rebalanced: Vec<u64> = Vec::new();
        let mut i: usize = 0;
        while i < self.active_pools.len()
            invariant
                self.wf(),
                i <= self.active_pools@.len(),
                rebalanced@.len() == 0,
            decreases self.active_pools.len() - i,
        {
            let pool_id = self.active_pools[i];
            assert(self.pools@.contains_key(self.active_pools@[i as int]));
            let pool = self.pools.get(&pool_id).unwrap();
            if pool.is_active && pool.auto_rebalance && Self::needs_rebalancing(pool, config.rebalance_threshold) {
                rebalanced.push(pool_id);
            }
            i = i + 1;
        }
        Ok(rebalanced)
    }
}

/// A plan over positions that are all locked takes nothing.
proof fn lemma_plan_skips_locked(ids: Seq<u64>, positions: Map<u64, LiquidityPosition>, i: int, remaining: u128)
    requires
        0 <= i <= ids.len(),
        forall|j: int| i <= j < ids.len() ==> (#[trigger] positions[ids[j]]).is_locked,
    ensures
        withdrawal_plan(ids, positions, i, remaining).0.len() == 0,
        withdrawal_plan(ids, positions, i, remaining).1 == remaining,
    decreases ids.len() - i,
{
    if i < ids.len() && remaining != 0 {
        assert(positions[ids[i]].is_locked);
        lemma_plan_skips_locked(ids, positions, i + 1, remaining);
    }
}

/// Positions locked for one milestone claim pay nothing towards another: once
/// every position of a grant is locked, a claim against the grant plans no
/// withdrawal, and a positive amount is refused as not covered.
pub proof fn lemma_locked_positions_pay_nothing(hook: LiquidityProvisionHook, g: u64, amount: u128)
    requires
        hook.wf(),
        hook.config matches Some(c) && c.emergency_withdrawal_enabled,
        hook.position_ids(g).len() > 0,
        amount > 0,
        forall|j: int| 0 <= j < hook.position_ids(g).len() ==> (#[trigger] hook.positions@[hook.position_ids(g)[j]]).is_locked,
    ensures
        hook.claim_plan(g, amount).0.len() == 0,
        hook.claim_error(g, amount) == Some(LiquidityError::InsufficientUnstreamed),
{
    lemma_plan_skips_locked(hook.position_ids(g), hook.positions@, 0, amount);
}

} // verus!
