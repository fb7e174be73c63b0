//! Multi-token quadratic-funding matching pool with slippage-protected swaps.
//! Donations in any supported token are valued in the native token through
//! the price feed; matching funds are shared by the square roots of the
//! projects' totals.
use vstd::prelude::*;
use std::collections::HashMap;
use crate::arith::{floor_sqrt, is_floor_sqrt, isqrt, lemma_isqrt};
use crate::types::{Address, pair_key, make_pair_key, lemma_pair_key_injective};
use vstd::string::StringExecFns;

verus! {

broadcast use vstd::std_specs::hash::group_hash_axioms;

/// Age after which a price is stale: 5 minutes.
pub const PRICE_FEED_STALENESS_THRESHOLD: u64 = 300;
/// Volatility threshold, in basis points: 10%.
pub const VOLATILITY_THRESHOLD_BPS: u32 = 1000;
/// Scale of DEX prices: 1e16.
pub const MATCHING_PRECISION: u128 = 10_000_000_000_000_000;
/// Scale of token prices: a price of 1e6 is one native unit per token unit,
/// so a normalized value is a native amount times 1e6.
pub const NATIVE_PRICE_PRECISION: u128 = 1_000_000;
/// Scale of totals before their square root is taken: 1e6.
pub const QUADRATIC_PRECISION: u128 = 1_000_000;
/// Largest slippage, in basis points: 5%.
pub const MAX_SLIPPAGE_BPS: u32 = 500;
/// Smallest confidence of a usable price, in basis points: 90%.
pub const MIN_PRICE_CONFIDENCE_BPS: u32 = 9000;
/// Default slippage threshold, in basis points: 1%.
pub const DEFAULT_SLIPPAGE_THRESHOLD_BPS: u32 = 100;
/// Age after which DEX data is stale: 30 seconds.
pub const DEX_QUERY_TIMEOUT_SECS: u64 = 30;
/// Smallest confidence of usable spread data, in basis points: 80%.
pub const MIN_SPREAD_CONFIDENCE_BPS: u32 = 8000;
/// Most swaps that may wait in the queue.
pub const SWAP_QUEUE_MAX_SIZE: u32 = 1000;
/// How long a queued swap stays valid: 1 hour.
pub const SWAP_QUEUE_EXPIRY_SECS: u64 = 3600;
/// Default smallest liquidity a swap needs.
pub const DEFAULT_MIN_LIQUIDITY: u128 = 1000;
/// Spread every pair has at least, in basis points: 0.5%.
pub const BASE_SPREAD_BPS: u32 = 50;
/// Liquidity the simulated DEX offers at the quoted spread.
pub const SIMULATED_LIQUIDITY_DEPTH: u128 = 1_000_000;
/// Confidence of the simulated DEX quotes, in basis points: 95%.
pub const SIMULATED_SPREAD_CONFIDENCE_BPS: u32 = 9500;
/// Retries a queued swap gets.
pub const DEFAULT_MAX_RETRIES: u32 = 3;

/// Errors of the matching pool.
#[derive(Debug, Clone, Copy, PartialEq, Eq, Structural)]
pub enum MatchingPoolError {
    NotInitialized,
    Unauthorized,
    RoundNotFound,
    RoundNotActive,
    InvalidAmount,
    InvalidToken,
    PriceFeedStale,
    HighVolatility,
    InsufficientMatchingPool,
    OverAllocationRisk,
    MathOverflow,
    InvalidRoundConfig,
    DonationPeriodEnded,
    MatchingAlreadyCalculated,
    DexQueryFailed,
    SlippageExceedsThreshold,
    SwapQueueFull,
    InsufficientLiquidity,
    SpreadDataStale,
    InvalidSwapRequest,
}

/// Price of a token in native units, scaled by `NATIVE_PRICE_PRECISION`.
#[derive(Debug, Clone, Copy, PartialEq, Eq, Structural)]
pub struct TokenPrice {
    pub token_address: Address,
    pub price_in_native: u128,
    pub timestamp: u64,
    /// Confidence in the price, in basis points.
    pub confidence_bps: u32,
    pub volume_24h: u128,
}

/// A donation to a project in a round.
#[derive(Debug, Clone, Copy, PartialEq, Eq, Structural)]
pub struct Donation {
    pub donor: Address,
    pub token_address: Address,
    pub amount: u128,
    /// Value in native units.
    pub normalized_value: u128,
    pub timestamp: u64,
    pub round_id: u64,
    pub project_id: u64,
}

/// A project's donations in a round and its matching.
#[derive(Debug)]
pub struct ProjectDonations {
    pub project_id: u64,
    pub total_normalized_value: u128,
    pub unique_donors: u32,
    pub donations: Vec<Donation>,
    pub matching_amount: u128,
    /// Donations plus matching.
    pub final_payout: u128,
}

/// A matching round.
#[derive(Debug)]
pub struct MatchingRound {
    pub round_id: u64,
    pub start_time: u64,
    pub end_time: u64,
    pub matching_pool_amount: u128,
    pub native_token_address: Address,
    pub supported_tokens: Vec<Address>,
    pub min_donation_amount: u128,
    pub max_donation_amount: u128,
    /// Coefficient of the quadratic matching, scaled by `QUADRATIC_PRECISION`.
    pub quadratic_coefficient: u128,
    pub is_active: bool,
    pub matching_calculated: bool,
    pub total_donations: u128,
    pub total_projects: u32,
}

/// Prices known to the pool, keyed by the token's address.
#[derive(Debug)]
pub struct PriceFeedData {
    pub token_prices: HashMap<u64, TokenPrice>,
    pub last_updated: u64,
    pub oracle_address: Address,
}

/// A quote of a DEX for a pair.
#[derive(Debug)]
pub struct DexSpread {
    pub token_a: Address,
    pub token_b: Address,
    /// Price of `token_a` in `token_b` when buying it.
    pub bid_price: u128,
    /// Price of `token_a` in `token_b` when selling it.
    pub ask_price: u128,
    pub spread_bps: u32,
    /// Liquidity available at the quoted spread.
    pub liquidity_depth: u128,
    pub timestamp: u64,
    pub confidence_bps: u32,
    pub dex_source: String,
}

/// Slippage protection settings.
#[derive(Debug, Clone, Copy, PartialEq, Eq, Structural)]
pub struct SlippageConfig {
    pub max_slippage_bps: u32,
    /// Whether swaps over the slippage limit wait in the queue.
    pub auto_queue_enabled: bool,
    pub min_liquidity_threshold: u128,
    pub spread_confidence_threshold: u32,
    pub queue_expiry_secs: u64,
}

/// A swap waiting for better conditions.
#[derive(Debug, Clone, Copy, PartialEq, Eq, Structural)]
pub struct QueuedSwap {
    pub swap_id: u64,
    pub round_id: u64,
    pub from_token: Address,
    pub to_token: Address,
    pub amount: u128,
    pub min_received: u128,
    pub queued_at: u64,
    pub expires_at: u64,
    /// Lower runs first.
    pub priority: u32,
    pub retry_count: u32,
    pub max_retries: u32,
}

/// Slippage protection state: settings and the swap queue.
#[derive(Debug)]
pub struct SlippageGuard {
    pub config: SlippageConfig,
    pub active_swaps: HashMap<u64, QueuedSwap>,
    /// Waiting swaps, in queue order.
    pub swap_queue: Vec<u64>,
    pub next_swap_id: u64,
    pub total_queued_amount: u128,
    pub last_dex_query: u64,
    pub dex_query_count: u64,
}

/// Storage keys of the pool's records.
#[derive(Debug, Clone, Copy, PartialEq, Eq, Structural)]
pub enum MatchingPoolDataKey {
    Admin,
    OracleContract,
    NativeToken,
    NextRoundId,
    Round(u64),
    ProjectDonations(u64, u64),
    UserDonations(Address, u64),
    PriceFeed,
    ActiveRound,
    TotalMatchingPool,
    SlippageGuard,
    QueuedSwap(u64),
}

/// What a protected swap came to.
#[derive(Debug, Clone, Copy, PartialEq, Eq, Structural)]
pub enum SwapOutcome {
    /// The swap went through and gave this much.
    Executed(u128),
    /// The swap waits in the queue under this id.
    Queued(u64),
}

/// Slippage, in basis points of the expected output, that accepting
/// `min_received` allows.
pub open spec fn slippage_bps_spec(expected_output: int, min_received: int) -> int {
    (if expected_output > min_received { expected_output - min_received } else { 0 }) * 10000
        / expected_output
}

/// Whether `a` appears in `s`.
fn contains_address(s: &Vec<Address>, a: Address) -> (r: bool)
    ensures
        r == s@.contains(a),
{
    let mut i: usize = 0;
    while i < s.len()
        invariant
            i <= s.len(),
            forall|j: int| 0 <= j < i ==> s@[j] != a,
        decreases s.len() - i,
    {
        if s[i] == a {
            return true;
        }
        i = i + 1;
    }
    false
}

/// Sum of the amounts of the queued swaps `ids`.
pub open spec fn queued_sum(ids: Seq<u64>, swaps: Map<u64, QueuedSwap>) -> int
    decreases ids.len(),
{
    if ids.len() == 0 {
        0
    } else {
        queued_sum(ids.drop_last(), swaps) + swaps[ids.last()].amount
    }
}

/// The queue lists each waiting swap once, the waiting swaps are exactly the
/// queued ones, and the queued total is the sum of their amounts.
pub open spec fn guard_wf(g: SlippageGuard) -> bool {
    &&& g.swap_queue@.no_duplicates()
    &&& forall|j: int| 0 <= j < g.swap_queue@.len() ==> g.active_swaps@.contains_key(#[trigger] g.swap_queue@[j])
    &&& forall|k: u64| #[trigger] g.active_swaps@.contains_key(k) ==> g.swap_queue@.contains(k) && k < g.next_swap_id
    &&& forall|k: u64| #[trigger] g.active_swaps@.contains_key(k) ==> g.active_swaps@[k].retry_count < g.active_swaps@[k].max_retries
    &&& g.total_queued_amount == queued_sum(g.swap_queue@, g.active_swaps@)
}

/// Sums of amounts are never negative.
proof fn lemma_queued_sum_nonneg(s: Seq<u64>, m: Map<u64, QueuedSwap>)
    ensures
        queued_sum(s, m) >= 0,
    decreases s.len(),
{
    if s.len() > 0 {
        lemma_queued_sum_nonneg(s.drop_last(), m);
    }
}

/// The sum over two lists is the sum of their sums.
proof fn lemma_queued_sum_concat(a: Seq<u64>, b: Seq<u64>, m: Map<u64, QueuedSwap>)
    ensures
        queued_sum(a + b, m) == queued_sum(a, m) + queued_sum(b, m),
    decreases b.len(),
{
    if b.len() == 0 {
        assert(a + b =~= a);
    } else {
        assert((a + b).drop_last() =~= a + b.drop_last());
        lemma_queued_sum_concat(a, b.drop_last(), m);
    }
}

/// Changing a swap that is not listed leaves the sum unchanged.
proof fn lemma_queued_sum_unlisted(s: Seq<u64>, m: Map<u64, QueuedSwap>, m2: Map<u64, QueuedSwap>)
    requires
        forall|j: int| 0 <= j < s.len() ==> m2[#[trigger] s[j]].amount == m[s[j]].amount,
    ensures
        queued_sum(s, m2) == queued_sum(s, m),
    decreases s.len(),
{
    if s.len() > 0 {
        assert(m2[s[s.len() - 1]].amount == m[s[s.len() - 1]].amount);
        lemma_queued_sum_unlisted(s.drop_last(), m, m2);
    }
}

/// Taking the swap at position `i` out of the queue and the map takes its
/// amount off the sum.
proof fn lemma_queued_sum_remove(q: Seq<u64>, m: Map<u64, QueuedSwap>, i: int)
    requires
        0 <= i < q.len(),
        q.no_duplicates(),
    ensures
        queued_sum(q.remove(i), m.remove(q[i])) == queued_sum(q, m) - m[q[i]].amount,
        queued_sum(q.remove(i), m.remove(q[i])) >= 0,
{
    lemma_queued_sum_nonneg(q.remove(i), m.remove(q[i]));
    let id = q[i];
    let pre = q.take(i);
    let post = q.skip(i + 1);
    assert(q =~= pre + seq![id] + post);
    assert(q.remove(i) =~= pre + post);
    lemma_queued_sum_concat(pre + seq![id], post, m);
    lemma_queued_sum_concat(pre, seq![id], m);
    lemma_queued_sum_concat(pre, post, m.remove(id));
    assert(queued_sum(seq![id], m) == m[id].amount) by {
        let single = seq![id];
        assert(single.drop_last() =~= Seq::<u64>::empty());
        assert(queued_sum(single.drop_last(), m) == 0);
        assert(single.last() == id);
    }
    assert forall|j: int| 0 <= j < pre.len() implies m.remove(id)[#[trigger] pre[j]].amount == m[pre[j]].amount by {
        assert(pre[j] == q[j]);
    }
    assert forall|j: int| 0 <= j < post.len() implies m.remove(id)[#[trigger] post[j]].amount == m[post[j]].amount by {
        assert(post[j] == q[i + 1 + j]);
    }
    lemma_queued_sum_unlisted(pre, m, m.remove(id));
    lemma_queued_sum_unlisted(post, m, m.remove(id));
}

/// The default slippage settings.
pub open spec fn default_slippage_config() -> SlippageConfig {
    SlippageConfig {
        max_slippage_bps: DEFAULT_SLIPPAGE_THRESHOLD_BPS,
        auto_queue_enabled: true,
        min_liquidity_threshold: DEFAULT_MIN_LIQUIDITY,
        spread_confidence_threshold: MIN_SPREAD_CONFIDENCE_BPS,
        queue_expiry_secs: SWAP_QUEUE_EXPIRY_SECS,
    }
}

/// The list kept under `key`, or the empty list.
pub open spec fn id_list(lists: Map<u64, Vec<u64>>, key: u64) -> Seq<u64> {
    if lists.contains_key(key) { lists[key]@ } else { Seq::empty() }
}

/// Whether no donation of `s` comes from `donor`.
pub open spec fn new_donor(s: Seq<Donation>, donor: Address) -> bool {
    forall|i: int| 0 <= i < s.len() ==> (#[trigger] s[i]).donor != donor
}

/// `d` is `before` with donation `don` added.
pub open spec fn donations_added(before: ProjectDonations, after: ProjectDonations, don: Donation) -> bool {
    &&& after.project_id == before.project_id
    &&& after.total_normalized_value == before.total_normalized_value + don.normalized_value
    &&& after.unique_donors == before.unique_donors + if new_donor(before.donations@, don.donor) { 1int } else { 0 }
    &&& after.donations@ == before.donations@.push(don)
    &&& after.matching_amount == before.matching_amount
    &&& after.final_payout == before.final_payout
}

/// `after` records only the donation `don`.
pub open spec fn first_donation(after: ProjectDonations, don: Donation) -> bool {
    &&& after.project_id == don.project_id
    &&& after.total_normalized_value == don.normalized_value
    &&& after.unique_donors == 1
    &&& after.donations@ == seq![don]
    &&& after.matching_amount == 0
    &&& after.final_payout == 0
}

/// Whether donations `s` include one from `donor`.
fn has_donor(s: &Vec<Donation>, donor: Address) -> (r: bool)
    ensures
        r == !new_donor(s@, donor),
{
    let mut i: usize = 0;
    while i < s.len()
        invariant
            i <= s.len(),
            forall|j: int| 0 <= j < i ==> (#[trigger] s@[j]).donor != donor,
        decreases s.len() - i,
    {
        if s[i].donor == donor {
            return true;
        }
        i = i + 1;
    }
    false
}

/// Appends `x` to the list kept under `key`.
fn push_to_list<T>(lists: &mut HashMap<u128, Vec<T>>, key: u128, x: T)
    ensures
        final(lists)@.dom() == old(lists)@.dom().insert(key),
        final(lists)@[key]@ == (if old(lists)@.contains_key(key) { old(lists)@[key]@ } else { Seq::empty() }).push(x),
        forall|k: u128| k != key && old(lists)@.contains_key(k) ==> #[trigger] final(lists)@[k] == old(lists)@[k],
{
    let mut list = match lists.remove(&key) {
        Some(l) => l,
        None => Vec::new(),
    };
    list.push(x);
    lists.insert(key, list);
    proof {
        assert(lists@.dom() =~= old(lists)@.dom().insert(key));
    }
}

/// Weight of a project's total in the quadratic matching: the square root of
/// the total scaled by `QUADRATIC_PRECISION`, or nothing for an empty total.
pub open spec fn quadratic_weight(total: u128) -> int {
    if total > 0 { isqrt(total * QUADRATIC_PRECISION) } else { 0 }
}

/// Sum of the weights of `totals`.
pub open spec fn weight_sum(totals: Seq<u128>) -> int
    decreases totals.len(),
{
    if totals.len() == 0 {
        0
    } else {
        weight_sum(totals.drop_last()) + quadratic_weight(totals.last())
    }
}

/// Quadratic matching of projects with `totals`: a project with donations
/// gets `pool * coefficient` times its share of the weights, scaled back by
/// `QUADRATIC_PRECISION`; a project without donations, or every project when
/// no project has any, gets nothing (`None`).
pub open spec fn quadratic_matching(totals: Seq<u128>, pool: u128, coefficient: u128) -> Seq<Option<u128>> {
    Seq::new(
        totals.len(),
        |i: int|
            if weight_sum(totals) == 0 || totals[i] == 0 {
                None
            } else {
                Some((quadratic_weight(totals[i]) * pool * coefficient / weight_sum(totals) / (QUADRATIC_PRECISION as int)) as u128)
            },
    )
}

/// Whether the quadratic matching of `totals` stays in range.
pub open spec fn quadratic_fits(totals: Seq<u128>, pool: u128, coefficient: u128) -> bool {
    &&& forall|i: int| 0 <= i < totals.len() ==> #[trigger] totals[i] * QUADRATIC_PRECISION < u128::MAX
    &&& weight_sum(totals) <= u128::MAX
    &&& forall|i: int| 0 <= i < totals.len() ==> quadratic_weight(#[trigger] totals[i]) * pool <= u128::MAX
        && quadratic_weight(totals[i]) * pool * coefficient <= u128::MAX
}

/// Weights are never negative.
proof fn lemma_weight_nonneg(total: u128)
    ensures
        quadratic_weight(total) >= 0,
{
    if total > 0 {
        lemma_isqrt((total * QUADRATIC_PRECISION) as nat);
    }
}

/// A prefix's weights never sum above the whole.
proof fn lemma_weight_prefix_le(totals: Seq<u128>, i: int)
    requires
        0 <= i <= totals.len(),
    ensures
        weight_sum(totals.take(i)) <= weight_sum(totals),
    decreases totals.len(),
{
    if i == totals.len() {
        assert(totals.take(i) =~= totals);
    } else {
        let shorter = totals.drop_last();
        assert(totals.take(i) =~= shorter.take(i));
        lemma_weight_prefix_le(shorter, i);
        lemma_weight_nonneg(totals.last());
    }
}

/// Sum of the matching amounts handed out, nothing counting as zero.
pub open spec fn matched_sum(m: Seq<Option<u128>>) -> int
    decreases m.len(),
{
    if m.len() == 0 {
        0
    } else {
        matched_sum(m.drop_last()) + match m.last() {
            Some(a) => a as int,
            None => 0,
        }
    }
}

/// One project's matching, times the weight sum, is at most the pool times
/// its weight when the coefficient does not exceed the precision.
proof fn lemma_share_bound(w: int, pool: int, coef: int, sum: int, t: int)
    requires
        w >= 0,
        pool >= 0,
        0 <= coef <= QUADRATIC_PRECISION as int,
        sum > 0,
        t == (w * pool * coef / sum) / (QUADRATIC_PRECISION as int),
    ensures
        t * sum <= pool * w,
{
    let q = QUADRATIC_PRECISION as int;
    let a = w * pool * coef;
    assert(a >= 0) by (nonlinear_arith)
        requires w >= 0, pool >= 0, coef >= 0, a == w * pool * coef;
    let b = a / sum;
    vstd::arithmetic::div_mod::lemma_fundamental_div_mod(a, sum);
    vstd::arithmetic::div_mod::lemma_fundamental_div_mod(b, q);
    vstd::arithmetic::div_mod::lemma_mod_pos_bound(a, sum);
    vstd::arithmetic::div_mod::lemma_mod_pos_bound(b, q);
    vstd::arithmetic::div_mod::lemma_div_pos_is_pos(a, sum);
    assert(t * q <= b);
    assert(b * sum <= a);
    assert(t * sum * q <= a) by (nonlinear_arith)
        requires t * q <= b, b * sum <= a, sum > 0, t >= 0 || t * q <= b;
    assert(a <= w * pool * q) by (nonlinear_arith)
        requires a == w * pool * coef, coef <= q, w >= 0, pool >= 0;
    assert(t * sum <= pool * w) by (nonlinear_arith)
        requires t * sum * q <= w * pool * q, q > 0;
}

/// Quadratic matching is solvent: with a coefficient of at most
/// `QUADRATIC_PRECISION`, the matching amounts of all projects together never
/// exceed the matching pool.
pub proof fn lemma_quadratic_matching_within_pool(totals: Seq<u128>, pool: u128, coefficient: u128)
    requires
        quadratic_fits(totals, pool, coefficient),
        coefficient <= QUADRATIC_PRECISION,
    ensures
        matched_sum(quadratic_matching(totals, pool, coefficient)) <= pool,
{
    let m = quadratic_matching(totals, pool, coefficient);
    let sum = weight_sum(totals);
    lemma_weight_sum_nonneg(totals);
    if sum == 0 {
        lemma_matched_zero_weights(totals, pool, coefficient, totals.len() as int);
        assert(m.take(totals.len() as int) =~= m);
    } else {
        lemma_matched_prefix(totals, pool, coefficient, totals.len() as int);
        assert(m.take(totals.len() as int) =~= m);
        assert(totals.take(totals.len() as int) =~= totals);
        assert(matched_sum(m) * sum <= pool * sum);
        assert(matched_sum(m) <= pool) by (nonlinear_arith)
            requires matched_sum(m) * sum <= pool * sum, sum > 0;
    }
}

/// Over the first `k` projects, the matching handed out times the weight sum
/// is at most the pool times their weights.
proof fn lemma_matched_prefix(totals: Seq<u128>, pool: u128, coefficient: u128, k: int)
    requires
        quadratic_fits(totals, pool, coefficient),
        coefficient <= QUADRATIC_PRECISION,
        0 <= k <= totals.len(),
    ensures
        matched_sum(quadratic_matching(totals, pool, coefficient).take(k)) * weight_sum(totals)
            <= pool * weight_sum(totals.take(k)),
        matched_sum(quadratic_matching(totals, pool, coefficient).take(k)) >= 0,
    decreases k,
{
    let m = quadratic_matching(totals, pool, coefficient);
    let sum = weight_sum(totals);
    if k == 0 {
        assert(m.take(0) =~= Seq::<Option<u128>>::empty());
        assert(totals.take(0) =~= Seq::<u128>::empty());
    } else {
        lemma_matched_prefix(totals, pool, coefficient, k - 1);
        assert(m.take(k).drop_last() =~= m.take(k - 1));
        assert(totals.take(k).drop_last() =~= totals.take(k - 1));
        let w = quadratic_weight(totals[k - 1]);
        lemma_weight_nonneg(totals[k - 1]);
        let prev = matched_sum(m.take(k - 1));
        let wprev = weight_sum(totals.take(k - 1));
        if sum == 0 || totals[k - 1] == 0 {
            assert(m[k - 1] is None);
            assert(matched_sum(m.take(k)) == prev);
            assert(prev * sum <= pool * (wprev + w)) by (nonlinear_arith)
                requires prev * sum <= pool * wprev, w >= 0, pool >= 0;
        } else {
            let t = (w * pool * coefficient / sum / (QUADRATIC_PRECISION as int));
            assert(w * pool * coefficient <= u128::MAX) by {
                assert(quadratic_weight(totals[k - 1]) * pool * coefficient <= u128::MAX);
            }
            lemma_weight_prefix_le(totals, k);
            assert(sum > 0) by {
                lemma_weight_nonneg(totals[k - 1]);
                lemma_weight_sum_nonneg(totals.take(k - 1));
                lemma_weight_prefix_le(totals, k);
            }
            assert(t >= 0) by (nonlinear_arith)
                requires t == (w * pool * coefficient / sum / (QUADRATIC_PRECISION as int)), w >= 0, sum > 0, coefficient >= 0, pool >= 0;
            assert(t <= w * pool * coefficient) by (nonlinear_arith)
                requires t == (w * pool * coefficient / sum / (QUADRATIC_PRECISION as int)), w >= 0, sum > 0, coefficient >= 0, pool >= 0;
            assert(m[k - 1] == Some(t as u128));
            assert(matched_sum(m.take(k)) == prev + t);
            lemma_share_bound(w, pool as int, coefficient as int, sum, t);
            assert((prev + t) * sum <= pool * (wprev + w)) by (nonlinear_arith)
                requires prev * sum <= pool * wprev, t * sum <= pool * w;
        }
    }
}

/// With every weight zero, nothing is handed out.
proof fn lemma_matched_zero_weights(totals: Seq<u128>, pool: u128, coefficient: u128, k: int)
    requires
        weight_sum(totals) == 0,
        0 <= k <= totals.len(),
    ensures
        matched_sum(quadratic_matching(totals, pool, coefficient).take(k)) == 0,
    decreases k,
{
    let m = quadratic_matching(totals, pool, coefficient);
    if k == 0 {
        assert(m.take(0) =~= Seq::<Option<u128>>::empty());
    } else {
        lemma_matched_zero_weights(totals, pool, coefficient, k - 1);
        assert(m.take(k).drop_last() =~= m.take(k - 1));
        assert(m[k - 1] is None);
    }
}

/// Sums of weights are never negative.
proof fn lemma_weight_sum_nonneg(totals: Seq<u128>)
    ensures
        weight_sum(totals) >= 0,
    decreases totals.len(),
{
    if totals.len() > 0 {
        lemma_weight_sum_nonneg(totals.drop_last());
        lemma_weight_nonneg(totals.last());
    }
}

/// `d` with matching `m` applied: the matching amount, and a payout of the
/// donations plus the matching.
pub open spec fn with_matching(d: ProjectDonations, m: Option<u128>) -> ProjectDonations {
    match m {
        Some(a) => ProjectDonations { matching_amount: a, final_payout: (d.total_normalized_value + a) as u128, ..d },
        None => d,
    }
}

/// The `count` low bytes of `n`, least significant first.
pub open spec fn low_bytes(n: nat, count: nat) -> Seq<u8>
    decreases count,
{
    if count == 0 {
        Seq::empty()
    } else {
        seq![(n % 256) as u8] + low_bytes(n / 256, (count - 1) as nat)
    }
}

/// The bytes identifying an address.
pub open spec fn address_bytes(a: Address) -> Seq<u8> {
    low_bytes(a.0 as nat, 8)
}

/// A hash of `bytes`: each byte is added to 31 times the hash so far, modulo
/// 2^64.
pub open spec fn byte_hash(bytes: Seq<u8>) -> u64
    decreases bytes.len(),
{
    if bytes.len() == 0 {
        0
    } else {
        ((byte_hash(bytes.drop_last()) as int * 31 + bytes.last() as int) % 0x1_0000_0000_0000_0000) as u64
    }
}

/// Spread quoted for a pair, in basis points: the base spread plus up to 99
/// points derived from the pair's identities.
pub open spec fn pair_spread_bps(a: Address, b: Address) -> u32 {
    (BASE_SPREAD_BPS + byte_hash(address_bytes(a) + address_bytes(b)) % 100) as u32
}

/// The amount by which the quoted prices differ from the mid price.
pub open spec fn spread_amount(a: Address, b: Address) -> int {
    MATCHING_PRECISION * pair_spread_bps(a, b) / 10000
}

/// `s` is the quote of the simulated DEX for `a` and `b` at `now`.
pub open spec fn simulated_spread(s: DexSpread, a: Address, b: Address, now: u64) -> bool {
    &&& s.token_a == a
    &&& s.token_b == b
    &&& s.spread_bps == pair_spread_bps(a, b)
    &&& s.bid_price == MATCHING_PRECISION - spread_amount(a, b)
    &&& s.ask_price == MATCHING_PRECISION + spread_amount(a, b)
    &&& s.liquidity_depth == SIMULATED_LIQUIDITY_DEPTH
    &&& s.timestamp == now
    &&& s.confidence_bps == SIMULATED_SPREAD_CONFIDENCE_BPS
    &&& s.dex_source@ == "stellar_dex_v1"@
}

/// Output of swapping `amount` at `ask_price` with `liquidity` available:
/// trades above a tenth of the liquidity lose a further 2%.
pub open spec fn swap_output_at(amount: u128, ask_price: int, liquidity: int) -> int {
    let output = amount * ask_price / (MATCHING_PRECISION as int);
    let factor: int = if amount > liquidity / 10 { 9800 } else { 10000 };
    output * factor / 10000
}

/// Output of swapping `amount` of `a` for `b` on the simulated DEX.
pub open spec fn swap_output(amount: u128, a: Address, b: Address) -> int {
    swap_output_at(amount, MATCHING_PRECISION + spread_amount(a, b), SIMULATED_LIQUIDITY_DEPTH as int)
}

/// Whether swapping `amount` of `a` for `b` stays in range.
pub open spec fn swap_fits(amount: u128, a: Address, b: Address) -> bool {
    &&& amount * (MATCHING_PRECISION + spread_amount(a, b)) <= u128::MAX
    &&& (amount * (MATCHING_PRECISION + spread_amount(a, b)) / (MATCHING_PRECISION as int)) * 10000 <= u128::MAX
}

/// Appends the bytes identifying `a` to `out`.
fn push_address_bytes(out: &mut Vec<u8>, a: Address)
    ensures
        final(out)@ == old(out)@ + address_bytes(a),
{
    let mut x: u64 = a.0;
    let mut i: usize = 0;
    while i < 8
        invariant
            i <= 8,
            out@ + low_bytes(x as nat, (8 - i) as nat) == old(out)@ + address_bytes(a),
        decreases 8 - i,
    {
        proof {
            assert(out@ + low_bytes(x as nat, (8 - i) as nat) =~= out@.push((x % 256) as u8) + low_bytes(
                (x / 256) as nat,
                (8 - i - 1) as nat,
            ));
        }
        out.push((x % 256) as u8);
        x = x / 256;
        i = i + 1;
    }
    assert(out@ + low_bytes(x as nat, 0) =~= out@);
}

/// The hash of `bytes`.
fn hash_bytes(bytes: &Vec<u8>) -> (h: u64)
    ensures
        h == byte_hash(bytes@),
{
    let mut acc: u64 = 0;
    let mut i: usize = 0;
    while i < bytes.len()
        invariant
            i <= bytes@.len(),
            acc == byte_hash(bytes@.take(i as int)),
        decreases bytes.len() - i,
    {
        let b = bytes[i];
        proof {
            let m: int = 0x1_0000_0000_0000_0000;
            assert(bytes@.take(i + 1).drop_last() =~= bytes@.take(i as int));
            let prod = (acc as int * 31) % m;
            assert(prod + b < 2 * m);
            vstd::arithmetic::div_mod::lemma_add_mod_noop(acc as int * 31, b as int, m);
            vstd::arithmetic::div_mod::lemma_small_mod(b as nat, m as nat);
            vstd::arithmetic::div_mod::lemma_mod_bound(acc as int * 31, m);
            if prod + b >= m {
                vstd::arithmetic::div_mod::lemma_mod_sub_multiples_vanish(prod + b, m);
                vstd::arithmetic::div_mod::lemma_small_mod((prod + b - m) as nat, m as nat);
            } else {
                vstd::arithmetic::div_mod::lemma_small_mod((prod + b) as nat, m as nat);
            }
        }
        acc = acc.wrapping_mul(31).wrapping_add(b as u64);
        i = i + 1;
    }
    assert(bytes@.take(bytes@.len() as int) =~= bytes@);
    acc
}

/// The pool's state.
pub struct MultiTokenMatchingPool {
    pub admin: Option<Address>,
    pub native_token: Option<Address>,
    pub next_round_id: u64,
    pub total_matching_pool: Option<u128>,
    pub rounds: HashMap<u64, MatchingRound>,
    /// Projects of each round that received donations, by first donation.
    pub round_projects: HashMap<u64, Vec<u64>>,
    /// Donations of each project, keyed by `pair_key(round, project)`.
    pub project_donations: HashMap<u128, ProjectDonations>,
    /// Donations of each donor, keyed by `pair_key(donor, round)`.
    pub user_donations: HashMap<u128, Vec<Donation>>,
    pub price_feed: Option<PriceFeedData>,
    pub active_round: Option<u64>,
    pub slippage_guard: Option<SlippageGuard>,
}

/// The most a round's donations may total, in normalized units: twice its
/// matching funds, valued at the native price scale.
pub open spec fn over_allocation_bound(matching_pool_amount: u128) -> int {
    matching_pool_amount * 2 * NATIVE_PRICE_PRECISION
}

impl MultiTokenMatchingPool {
    /// Everything is set up together at initialization; rounds are keyed by
    /// their ids, below the next id; a round's donations never exceed twice
    /// its matching funds; the active round exists; the swap queue is well
    /// formed; each round lists its funded projects once, each with a record.
    pub open spec fn wf(&self) -> bool {
        &&& self.admin is Some <==> self.native_token is Some
        &&& self.admin is Some <==> self.total_matching_pool is Some
        &&& self.admin is Some <==> self.price_feed is Some
        &&& self.admin is Some <==> self.slippage_guard is Some
        &&& self.admin is None ==> self.rounds@.dom().is_empty()
        &&& forall|k: u64| #[trigger] self.rounds@.contains_key(k) ==> k < self.next_round_id && self.rounds@[k].round_id == k
        &&& forall|k: u64| #[trigger] self.rounds@.contains_key(k)
            ==> self.rounds@[k].total_donations <= over_allocation_bound(self.rounds@[k].matching_pool_amount)
        &&& self.active_round matches Some(id) ==> self.rounds@.contains_key(id)
        &&& self.slippage_guard matches Some(g) ==> guard_wf(g)
        &&& forall|r: u64| #[trigger] self.round_projects@.contains_key(r) ==> self.round_projects@[r]@.no_duplicates()
        &&& forall|r: u64, j: int| self.round_projects@.contains_key(r) && 0 <= j < self.round_projects@[r]@.len()
            ==> self.project_donations@.contains_key(pair_key(r, #[trigger] self.round_projects@[r]@[j]))
    }

    /// A pool not yet initialized.
    pub fn new() -> (r: Self)
        ensures
            r.wf(),
            r.admin is None,
            r.native_token is None,
            r.total_matching_pool is None,
            r.price_feed is None,
            r.slippage_guard is None,
            r.next_round_id == 1,
            r.active_round is None,
            r.rounds@ == Map::<u64, MatchingRound>::empty(),
            r.round_projects@ == Map::<u64, Vec<u64>>::empty(),
            r.project_donations@ == Map::<u128, ProjectDonations>::empty(),
            r.user_donations@ == Map::<u128, Vec<Donation>>::empty(),
    {
        MultiTokenMatchingPool {
            admin: None,
            native_token: None,
            next_round_id: 1,
            total_matching_pool: None,
            rounds: HashMap::new(),
            round_projects: HashMap::new(),
            project_donations: HashMap::new(),
            user_donations: HashMap::new(),
            price_feed: None,
            active_round: None,
            slippage_guard: None,
        }
    }
}

impl MultiTokenMatchingPool {
    /// The error the admin check of `admin` meets, or `None`.
    pub open spec fn auth_error(&self, admin: Address) -> Option<MatchingPoolError> {
        match self.admin {
            None => Some(MatchingPoolError::NotInitialized),
            Some(a) => if a != admin { Some(MatchingPoolError::Unauthorized) } else { None },
        }
    }

    /// Checks that `admin` is the pool's admin.
    fn require_admin_auth(&self, admin: Address) -> (r: Result<(), MatchingPoolError>)
        ensures
            r is Err <==> self.auth_error(admin) is Some,
            r matches Err(e) ==> self.auth_error(admin) == Some(e),
    {
        match self.admin {
            None => Err(MatchingPoolError::NotInitialized),
            Some(a) => if a != admin { Err(MatchingPoolError::Unauthorized) } else { Ok(()) },
        }
    }

    /// Initializes the pool with its admin, the price oracle and the native
    /// token; a second initialization fails with `NotInitialized`.
    pub fn initialize(&mut self, admin: Address, oracle_contract: Address, native_token: Address) -> (r: Result<
        (),
        MatchingPoolError,
    >)
        requires
            old(self).wf(),
        ensures
            final(self).wf(),
            r is Err <==> old(self).admin is Some,
            r is Err ==> r == Err::<(), MatchingPoolError>(MatchingPoolError::NotInitialized),
            r is Err ==> final(self).admin == old(self).admin && final(self).native_token == old(self).native_token
                && final(self).total_matching_pool == old(self).total_matching_pool
                && final(self).next_round_id == old(self).next_round_id
                && final(self).price_feed == old(self).price_feed
                && final(self).slippage_guard == old(self).slippage_guard,
            r is Ok ==> {
                &&& final(self).admin == Some(admin)
                &&& final(self).native_token == Some(native_token)
                &&& final(self).next_round_id == 1
                &&& final(self).total_matching_pool == Some(0u128)
                &&& final(self).price_feed matches Some(f) && f.token_prices@.dom().is_empty() && f.last_updated == 0
                    && f.oracle_address == oracle_contract
                &&& final(self).slippage_guard matches Some(g) && g.config == default_slippage_config()
                    && g.active_swaps@.dom().is_empty() && g.swap_queue@.len() == 0 && g.next_swap_id == 1
                    && g.total_queued_amount == 0 && g.last_dex_query == 0 && g.dex_query_count == 0
            },
            final(self).rounds@ == old(self).rounds@,
            final(self).active_round == old(self).active_round,
            final(self).round_projects@ == old(self).round_projects@,
            final(self).project_donations@ == old(self).project_donations@,
            final(self).user_donations@ == old(self).user_donations@,
    {
        if self.admin.is_some() {
            return Err(MatchingPoolError::NotInitialized);
        }
        self.admin = Some(admin);
        self.native_token = Some(native_token);
        self.next_round_id = 1;
        self.total_matching_pool = Some(0);
        self.price_feed = Some(PriceFeedData { token_prices: HashMap::new(), last_updated: 0, oracle_address: oracle_contract });
        self.slippage_guard = Some(SlippageGuard {
            config: SlippageConfig {
                max_slippage_bps: DEFAULT_SLIPPAGE_THRESHOLD_BPS,
                auto_queue_enabled: true,
                min_liquidity_threshold: DEFAULT_MIN_LIQUIDITY,
                spread_confidence_threshold: MIN_SPREAD_CONFIDENCE_BPS,
                queue_expiry_secs: SWAP_QUEUE_EXPIRY_SECS,
            },
            active_swaps: HashMap::new(),
            swap_queue: Vec::new(),
            next_swap_id: 1,
            total_queued_amount: 0,
            last_dex_query: 0,
            dex_query_count: 0,
        });
        Ok(())
    }

    /// The error creating a round meets, or `None`.
    pub open spec fn round_config_error(&self, admin: Address, start_time: u64, end_time: u64, now: u64) -> Option<
        MatchingPoolError,
    > {
        if self.auth_error(admin) is Some {
            self.auth_error(admin)
        } else if start_time >= end_time || end_time <= now {
            Some(MatchingPoolError::InvalidRoundConfig)
        } else {
            None
        }
    }

    /// Creates an inactive round, at `now`, running from `start_time` to
    /// `end_time` with `matching_pool_amount` of matching funds; the amount
    /// joins the total matching pool. Returns the round's id.
    pub fn create_round(
        &mut self,
        admin: Address,
        matching_pool_amount: u128,
        start_time: u64,
        end_time: u64,
        supported_tokens: Vec<Address>,
        min_donation: u128,
        max_donation: u128,
        quadratic_coefficient: u128,
        now: u64,
    ) -> (r: Result<u64, MatchingPoolError>)
        requires
            old(self).wf(),
            old(self).next_round_id < u64::MAX,
            old(self).total_matching_pool matches Some(t) ==> t + matching_pool_amount <= u128::MAX,
        ensures
            final(self).wf(),
            r is Err <==> old(self).round_config_error(admin, start_time, end_time, now) is Some,
            r matches Err(e) ==> old(self).round_config_error(admin, start_time, end_time, now) == Some(e),
            r is Err ==> final(self).rounds@ == old(self).rounds@ && final(self).next_round_id == old(self).next_round_id
                && final(self).total_matching_pool == old(self).total_matching_pool,
            r matches Ok(id) ==> {
                &&& id == old(self).next_round_id
                &&& final(self).next_round_id == id + 1
                &&& final(self).rounds@ == old(self).rounds@.insert(id, MatchingRound {
                    round_id: id,
                    start_time,
                    end_time,
                    matching_pool_amount,
                    native_token_address: old(self).native_token.unwrap(),
                    supported_tokens,
                    min_donation_amount: min_donation,
                    max_donation_amount: max_donation,
                    quadratic_coefficient,
                    is_active: false,
                    matching_calculated: false,
                    total_donations: 0,
                    total_projects: 0,
                })
                &&& final(self).total_matching_pool == Some((old(self).total_matching_pool.unwrap() + matching_pool_amount) as u128)
            },
            final(self).admin == old(self).admin,
            final(self).native_token == old(self).native_token,
            final(self).active_round == old(self).active_round,
            final(self).round_projects@ == old(self).round_projects@,
            final(self).project_donations@ == old(self).project_donations@,
            final(self).user_donations@ == old(self).user_donations@,
    {
        self.require_admin_auth(admin)?;
        if start_time >= end_time {
            return Err(MatchingPoolError::InvalidRoundConfig);
        }
        if end_time <= now {
            return Err(MatchingPoolError::InvalidRoundConfig);
        }
        let round_id = self.next_round_id;
        self.next_round_id = round_id + 1;
        let native_token = self.native_token.unwrap();
        self.rounds.insert(round_id, MatchingRound {
            round_id,
            start_time,
            end_time,
            matching_pool_amount,
            native_token_address: native_token,
            supported_tokens,
            min_donation_amount: min_donation,
            max_donation_amount: max_donation,
            quadratic_coefficient,
            is_active: false,
            matching_calculated: false,
            total_donations: 0,
            total_projects: 0,
        });
        let total = self.total_matching_pool.unwrap();
        self.total_matching_pool = Some(total + matching_pool_amount);
        Ok(round_id)
    }

    /// The error activating round `round_id` meets, or `None`.
    pub open spec fn activation_error(&self, admin: Address, round_id: u64) -> Option<MatchingPoolError> {
        if self.auth_error(admin) is Some {
            self.auth_error(admin)
        } else if !self.rounds@.contains_key(round_id) {
            Some(MatchingPoolError::RoundNotFound)
        } else if self.rounds@[round_id].is_active {
            Some(MatchingPoolError::RoundNotActive)
        } else if self.active_round matches Some(a) && self.rounds@[a].is_active {
            Some(MatchingPoolError::RoundNotActive)
        } else {
            None
        }
    }

    /// Activates round `round_id` at `now`, after refreshing the price feed;
    /// only one round may be active.
    pub fn activate_round(&mut self, admin: Address, round_id: u64, now: u64) -> (r: Result<(), MatchingPoolError>)
        requires
            old(self).wf(),
        ensures
            final(self).wf(),
            r is Err <==> old(self).activation_error(admin, round_id) is Some,
            r matches Err(e) ==> old(self).activation_error(admin, round_id) == Some(e),
            r is Err ==> final(self).rounds@ == old(self).rounds@ && final(self).active_round == old(self).active_round,
            r is Ok ==> {
                &&& final(self).rounds@ == old(self).rounds@.insert(round_id, MatchingRound {
                    is_active: true,
                    ..old(self).rounds@[round_id]
                })
                &&& final(self).active_round == Some(round_id)
                &&& final(self).price_feed.unwrap().last_updated == now
            },
            final(self).price_feed.unwrap().token_prices@ == old(self).price_feed.unwrap().token_prices@,
            final(self).price_feed.unwrap().oracle_address == old(self).price_feed.unwrap().oracle_address,
            final(self).admin == old(self).admin,
            final(self).native_token == old(self).native_token,
            final(self).next_round_id == old(self).next_round_id,
            final(self).total_matching_pool == old(self).total_matching_pool,
            final(self).round_projects@ == old(self).round_projects@,
            final(self).project_donations@ == old(self).project_donations@,
            final(self).user_donations@ == old(self).user_donations@,
    {
        self.require_admin_auth(admin)?;
        match self.rounds.get(&round_id) {
            None => {
                return Err(MatchingPoolError::RoundNotFound);
            },
            Some(round) => {
                if round.is_active {
                    return Err(MatchingPoolError::RoundNotActive);
                }
            },
        }
        if let Some(active_id) = self.active_round {
            let active = self.rounds.get(&active_id).unwrap();
            if active.is_active {
                return Err(MatchingPoolError::RoundNotActive);
            }
        }
        let mut feed = self.price_feed.take().unwrap();
        feed.last_updated = now;
        self.price_feed = Some(feed);
        let mut round = self.rounds.remove(&round_id).unwrap();
        round.is_active = true;
        self.rounds.insert(round_id, round);
        self.active_round = Some(round_id);
        proof {
            assert(self.rounds@.dom() =~= old(self).rounds@.dom());
        }
        Ok(())
    }

    /// Round `round_id`; `RoundNotFound` if there is none.
    pub fn get_round(&self, round_id: u64) -> (r: Result<&MatchingRound, MatchingPoolError>)
        ensures
            self.rounds@.contains_key(round_id) ==> r == Ok::<&MatchingRound, MatchingPoolError>(&self.rounds@[round_id]),
            !self.rounds@.contains_key(round_id) ==> r == Err::<&MatchingRound, MatchingPoolError>(MatchingPoolError::RoundNotFound),
    {
        match self.rounds.get(&round_id) {
            Some(round) => Ok(round),
            None => Err(MatchingPoolError::RoundNotFound),
        }
    }

    /// Donations to project `project_id` in round `round_id`; `RoundNotFound`
    /// if there are none.
    pub fn get_project_donations(&self, round_id: u64, project_id: u64) -> (r: Result<&ProjectDonations, MatchingPoolError>)
        ensures
            self.project_donations@.contains_key(pair_key(round_id, project_id)) ==> r == Ok::<&ProjectDonations, MatchingPoolError>(
                &self.project_donations@[pair_key(round_id, project_id)],
            ),
            !self.project_donations@.contains_key(pair_key(round_id, project_id)) ==> r == Err::<&ProjectDonations, MatchingPoolError>(
                MatchingPoolError::RoundNotFound,
            ),
    {
        match self.project_donations.get(&make_pair_key(round_id, project_id)) {
            Some(d) => Ok(d),
            None => Err(MatchingPoolError::RoundNotFound),
        }
    }

    /// Donations of `user` in round `round_id`, oldest first.
    pub fn get_user_donations(&self, user: Address, round_id: u64) -> (r: Vec<Donation>)
        ensures
            self.user_donations@.contains_key(pair_key(user.0, round_id)) ==> r@ == self.user_donations@[pair_key(user.0, round_id)]@,
            !self.user_donations@.contains_key(pair_key(user.0, round_id)) ==> r@.len() == 0,
    {
        match self.user_donations.get(&make_pair_key(user.0, round_id)) {
            Some(v) => {
                let mut out: Vec<Donation> = Vec::new();
                let mut i: usize = 0;
                while i < v.len()
                    invariant
                        i <= v@.len(),
                        out@ == v@.take(i as int),
                    decreases v.len() - i,
                {
                    out.push(v[i]);
                    i = i + 1;
                    assert(out@ =~= v@.take(i as int));
                }
                assert(v@.take(v@.len() as int) =~= v@);
                out
            },
            None => Vec::new(),
        }
    }

    /// The price feed; `NotInitialized` before initialization.
    pub fn get_price_feed(&self) -> (r: Result<&PriceFeedData, MatchingPoolError>)
        ensures
            self.price_feed is Some ==> r == Ok::<&PriceFeedData, MatchingPoolError>(&self.price_feed.unwrap()),
            self.price_feed is None ==> r == Err::<&PriceFeedData, MatchingPoolError>(MatchingPoolError::NotInitialized),
    {
        match &self.price_feed {
            Some(f) => Ok(f),
            None => Err(MatchingPoolError::NotInitialized),
        }
    }

    /// The current price of `token_address`; `NotInitialized` before
    /// initialization, `InvalidToken` for a token without a price.
    pub fn get_token_price(&self, token_address: Address) -> (r: Result<TokenPrice, MatchingPoolError>)
        ensures
            self.price_feed is None ==> r == Err::<TokenPrice, MatchingPoolError>(MatchingPoolError::NotInitialized),
            self.price_feed matches Some(f) ==> if f.token_prices@.contains_key(token_address.0) {
                r == Ok::<TokenPrice, MatchingPoolError>(f.token_prices@[token_address.0])
            } else {
                r == Err::<TokenPrice, MatchingPoolError>(MatchingPoolError::InvalidToken)
            },
    {
        match &self.price_feed {
            None => Err(MatchingPoolError::NotInitialized),
            Some(f) => match f.token_prices.get(&token_address.0) {
                Some(p) => Ok(*p),
                None => Err(MatchingPoolError::InvalidToken),
            },
        }
    }

    /// The total of all rounds' matching funds; `NotInitialized` before
    /// initialization.
    pub fn get_total_matching_pool(&self) -> (r: Result<u128, MatchingPoolError>)
        ensures
            self.total_matching_pool matches Some(t) ==> r == Ok::<u128, MatchingPoolError>(t),
            self.total_matching_pool is None ==> r == Err::<u128, MatchingPoolError>(MatchingPoolError::NotInitialized),
    {
        match self.total_matching_pool {
            Some(t) => Ok(t),
            None => Err(MatchingPoolError::NotInitialized),
        }
    }

    /// The slippage settings; `NotInitialized` before initialization.
    pub fn get_slippage_config(&self) -> (r: Result<SlippageConfig, MatchingPoolError>)
        ensures
            self.slippage_guard is Some ==> r == Ok::<SlippageConfig, MatchingPoolError>(self.slippage_guard.unwrap().config),
            self.slippage_guard is None ==> r == Err::<SlippageConfig, MatchingPoolError>(MatchingPoolError::NotInitialized),
    {
        match &self.slippage_guard {
            Some(g) => Ok(g.config),
            None => Err(MatchingPoolError::NotInitialized),
        }
    }

    /// The swaps of round `round_id` waiting in the queue, in queue order.
    pub fn get_queued_swaps(&self, round_id: u64) -> (r: Result<Vec<QueuedSwap>, MatchingPoolError>)
        requires
            self.wf(),
        ensures
            self.slippage_guard is None ==> r == Err::<Vec<QueuedSwap>, MatchingPoolError>(MatchingPoolError::NotInitialized),
            self.slippage_guard matches Some(g) ==> (r matches Ok(v) && v@ == g.swap_queue@.map_values(
                |id: u64| g.active_swaps@[id],
            ).filter(|s: QueuedSwap| s.round_id == round_id)),
    {
        match &self.slippage_guard {
            None => Err(MatchingPoolError::NotInitialized),
            Some(g) => {
                let ghost all = g.swap_queue@.map_values(|id: u64| g.active_swaps@[id]);
                let mut out: Vec<QueuedSwap> = Vec::new();
                let mut i: usize = 0;
                while i < g.swap_queue.len()
                    invariant
                        guard_wf(*g),
                        all == g.swap_queue@.map_values(|id: u64| g.active_swaps@[id]),
                        i <= g.swap_queue@.len(),
                        out@ == all.take(i as int).filter(|s: QueuedSwap| s.round_id == round_id),
                    decreases g.swap_queue.len() - i,
                {
                    let id = g.swap_queue[i];
                    assert(g.active_swaps@.contains_key(g.swap_queue@[i as int]));
                    let swap = *g.active_swaps.get(&id).unwrap();
                    proof {
                        assert(all.take(i + 1).drop_last() =~= all.take(i as int));
                        reveal_with_fuel(Seq::<QueuedSwap>::filter, 1);
                    }
                    if swap.round_id == round_id {
                        out.push(swap);
                    }
                    i = i + 1;
                }
                assert(all.take(all.len() as int) =~= all);
                Ok(out)
            },
        }
    }
}

impl MultiTokenMatchingPool {
    /// The native value of `amount` of `token` at `now`, or the error the
    /// price lookup meets: a missing price, a price older than five minutes, a
    /// confidence under 90%, or an overflowing product.
    pub open spec fn normalization(&self, token: Address, amount: u128, now: u64) -> Result<u128, MatchingPoolError> {
        match self.price_feed {
            None => Err(MatchingPoolError::NotInitialized),
            Some(f) => if !f.token_prices@.contains_key(token.0) {
                Err(MatchingPoolError::InvalidToken)
            } else {
                let p = f.token_prices@[token.0];
                if now - p.timestamp > PRICE_FEED_STALENESS_THRESHOLD {
                    Err(MatchingPoolError::PriceFeedStale)
                } else if p.confidence_bps < MIN_PRICE_CONFIDENCE_BPS {
                    Err(MatchingPoolError::HighVolatility)
                } else if amount * p.price_in_native > u128::MAX {
                    Err(MatchingPoolError::MathOverflow)
                } else {
                    Ok((amount * p.price_in_native) as u128)
                }
            },
        }
    }

    /// Whether the price of `token`, if any, was quoted no later than `now`.
    pub open spec fn price_not_ahead(&self, token: Address, now: u64) -> bool {
        self.price_feed matches Some(f) ==> (f.token_prices@.contains_key(token.0) ==> f.token_prices@[token.0].timestamp <= now)
    }

    /// The native value of `amount` of `token_address` at `now`, by the price
    /// feed.
    pub fn normalize_token_value(&self, token_address: Address, amount: u128, now: u64) -> (r: Result<u128, MatchingPoolError>)
        requires
            self.price_not_ahead(token_address, now),
        ensures
            r == self.normalization(token_address, amount, now),
    {
        let price = self.get_token_price(token_address)?;
        if now - price.timestamp > PRICE_FEED_STALENESS_THRESHOLD {
            return Err(MatchingPoolError::PriceFeedStale);
        }
        if price.confidence_bps < MIN_PRICE_CONFIDENCE_BPS {
            return Err(MatchingPoolError::HighVolatility);
        }
        match amount.checked_mul(price.price_in_native) {
            None => Err(MatchingPoolError::MathOverflow),
            Some(v) => Ok(v),
        }
    }

    /// The error a donation meets, or `None` when it goes through.
    pub open spec fn donation_error(&self, round_id: u64, token: Address, amount: u128, now: u64) -> Option<MatchingPoolError> {
        if !self.rounds@.contains_key(round_id) {
            Some(MatchingPoolError::RoundNotFound)
        } else {
            let round = self.rounds@[round_id];
            if !round.is_active {
                Some(MatchingPoolError::RoundNotActive)
            } else if now < round.start_time || now > round.end_time {
                Some(MatchingPoolError::DonationPeriodEnded)
            } else if !round.supported_tokens@.contains(token) {
                Some(MatchingPoolError::InvalidToken)
            } else {
                match self.normalization(token, amount, now) {
                    Err(e) => Some(e),
                    Ok(v) => if round.total_donations + v > over_allocation_bound(round.matching_pool_amount) {
                        Some(MatchingPoolError::OverAllocationRisk)
                    } else if amount < round.min_donation_amount || amount > round.max_donation_amount {
                        Some(MatchingPoolError::InvalidAmount)
                    } else {
                        None
                    },
                }
            }
        }
    }

    /// Whether recording a donation of `amount` of `token` to `project_id` in
    /// round `round_id` keeps every total in range.
    pub open spec fn donation_fits(&self, round_id: u64, project_id: u64, token: Address, amount: u128, now: u64) -> bool {
        &&& self.price_not_ahead(token, now)
        &&& self.rounds@.contains_key(round_id) ==> self.rounds@[round_id].matching_pool_amount * 2 <= u128::MAX
        &&& self.normalization(token, amount, now) matches Ok(v) ==> {
            &&& self.rounds@.contains_key(round_id) ==> self.rounds@[round_id].total_donations + v <= u128::MAX
            &&& self.project_donations@.contains_key(pair_key(round_id, project_id)) ==> {
                let d = self.project_donations@[pair_key(round_id, project_id)];
                d.total_normalized_value + v <= u128::MAX && d.unique_donors < u32::MAX
            }
        }
    }

    /// Records a donation at `now` of `amount` of `token_address` from `donor`
    /// to project `project_id` in active round `round_id`. The donation must
    /// fall in the round's period and bounds, be in a supported token with a
    /// fresh and confident price, and keep the round's donations within twice
    /// its matching funds. The transfer of the tokens is the caller's.
    pub fn donate(
        &mut self,
        donor: Address,
        round_id: u64,
        project_id: u64,
        token_address: Address,
        amount: u128,
        now: u64,
    ) -> (r: Result<(), MatchingPoolError>)
        requires
            old(self).wf(),
            old(self).donation_fits(round_id, project_id, token_address, amount, now),
        ensures
            final(self).wf(),
            r is Err <==> old(self).donation_error(round_id, token_address, amount, now) is Some,
            r matches Err(e) ==> old(self).donation_error(round_id, token_address, amount, now) == Some(e),
            r is Err ==> final(self).rounds@ == old(self).rounds@ && final(self).project_donations@ == old(self).project_donations@
                && final(self).user_donations@ == old(self).user_donations@ && final(self).round_projects@ == old(self).round_projects@,
            r is Ok ==> {
                let v = old(self).normalization(token_address, amount, now).unwrap();
                let don = Donation {
                    donor,
                    token_address,
                    amount,
                    normalized_value: v,
                    timestamp: now,
                    round_id,
                    project_id,
                };
                let pk = pair_key(round_id, project_id);
                let uk = pair_key(donor.0, round_id);
                &&& final(self).rounds@ == old(self).rounds@.insert(round_id, MatchingRound {
                    total_donations: (old(self).rounds@[round_id].total_donations + v) as u128,
                    ..old(self).rounds@[round_id]
                })
                &&& final(self).project_donations@.dom() == old(self).project_donations@.dom().insert(pk)
                &&& forall|k: u128| k != pk && old(self).project_donations@.contains_key(k)
                    ==> #[trigger] final(self).project_donations@[k] == old(self).project_donations@[k]
                &&& if old(self).project_donations@.contains_key(pk) {
                    donations_added(old(self).project_donations@[pk], final(self).project_donations@[pk], don)
                } else {
                    first_donation(final(self).project_donations@[pk], don)
                }
                &&& if old(self).project_donations@.contains_key(pk) {
                    final(self).round_projects@ == old(self).round_projects@
                } else {
                    &&& final(self).round_projects@.dom() == old(self).round_projects@.dom().insert(round_id)
                    &&& id_list(final(self).round_projects@, round_id) == id_list(old(self).round_projects@, round_id).push(project_id)
                    &&& forall|k: u64| k != round_id && old(self).round_projects@.contains_key(k)
                        ==> #[trigger] final(self).round_projects@[k] == old(self).round_projects@[k]
                }
                &&& final(self).user_donations@.dom() == old(self).user_donations@.dom().insert(uk)
                &&& final(self).user_donations@[uk]@ == (if old(self).user_donations@.contains_key(uk) {
                    old(self).user_donations@[uk]@
                } else {
                    Seq::empty()
                }).push(don)
                &&& forall|k: u128| k != uk && old(self).user_donations@.contains_key(k)
                    ==> #[trigger] final(self).user_donations@[k] == old(self).user_donations@[k]
            },
            final(self).admin == old(self).admin,
            final(self).native_token == old(self).native_token,
            final(self).next_round_id == old(self).next_round_id,
            final(self).total_matching_pool == old(self).total_matching_pool,
            final(self).active_round == old(self).active_round,
    {
        let (is_active, start_time, end_time, min_amount, max_amount, supported, total_donations, pool) = match self.rounds.get(&round_id) {
            None => {
                return Err(MatchingPoolError::RoundNotFound);
            },
            Some(round) => (
                round.is_active,
                round.start_time,
                round.end_time,
                round.min_donation_amount,
                round.max_donation_amount,
                contains_address(&round.supported_tokens, token_address),
                round.total_donations,
                round.matching_pool_amount,
            ),
        };
        if !is_active {
            return Err(MatchingPoolError::RoundNotActive);
        }
        if now < start_time || now > end_time {
            return Err(MatchingPoolError::DonationPeriodEnded);
        }
        if !supported {
            return Err(MatchingPoolError::InvalidToken);
        }
        let normalized_value = self.normalize_token_value(token_address, amount, now)?;
        let over = match (pool * 2).checked_mul(NATIVE_PRICE_PRECISION) {
            Some(bound) => total_donations + normalized_value > bound,
            None => false,
        };
        if over {
            return Err(MatchingPoolError::OverAllocationRisk);
        }
        if amount < min_amount || amount > max_amount {
            return Err(MatchingPoolError::InvalidAmount);
        }
        let donation = Donation {
            donor,
            token_address,
            amount,
            normalized_value,
            timestamp: now,
            round_id,
            project_id,
        };
        self.store_donation(donation);
        let mut round = self.rounds.remove(&round_id).unwrap();
        round.total_donations = total_donations + normalized_value;
        self.rounds.insert(round_id, round);
        proof {
            assert(self.rounds@.dom() =~= old(self).rounds@.dom());
        }
        Ok(())
    }

    /// Adds `donation` to its project's donations and to its donor's.
    fn store_donation(&mut self, donation: Donation)
        requires
            old(self).wf(),
            old(self).project_donations@.contains_key(pair_key(donation.round_id, donation.project_id)) ==> {
                let d = old(self).project_donations@[pair_key(donation.round_id, donation.project_id)];
                d.total_normalized_value + donation.normalized_value <= u128::MAX && d.unique_donors < u32::MAX
            },
        ensures
            final(self).wf(),
            ({
                let pk = pair_key(donation.round_id, donation.project_id);
                let uk = pair_key(donation.donor.0, donation.round_id);
                &&& final(self).project_donations@.dom() == old(self).project_donations@.dom().insert(pk)
                &&& forall|k: u128| k != pk && old(self).project_donations@.contains_key(k)
                    ==> #[trigger] final(self).project_donations@[k] == old(self).project_donations@[k]
                &&& if old(self).project_donations@.contains_key(pk) {
                    donations_added(old(self).project_donations@[pk], final(self).project_donations@[pk], donation)
                } else {
                    first_donation(final(self).project_donations@[pk], donation)
                }
                &&& if old(self).project_donations@.contains_key(pk) {
                    final(self).round_projects@ == old(self).round_projects@
                } else {
                    &&& final(self).round_projects@.dom() == old(self).round_projects@.dom().insert(donation.round_id)
                    &&& id_list(final(self).round_projects@, donation.round_id) == id_list(old(self).round_projects@, donation.round_id).push(donation.project_id)
                    &&& forall|k: u64| k != donation.round_id && old(self).round_projects@.contains_key(k)
                        ==> #[trigger] final(self).round_projects@[k] == old(self).round_projects@[k]
                }
                &&& final(self).user_donations@.dom() == old(self).user_donations@.dom().insert(uk)
                &&& final(self).user_donations@[uk]@ == (if old(self).user_donations@.contains_key(uk) {
                    old(self).user_donations@[uk]@
                } else {
                    Seq::empty()
                }).push(donation)
                &&& forall|k: u128| k != uk && old(self).user_donations@.contains_key(k)
                    ==> #[trigger] final(self).user_donations@[k] == old(self).user_donations@[k]
            }),
            final(self).admin == old(self).admin,
            final(self).native_token == old(self).native_token,
            final(self).next_round_id == old(self).next_round_id,
            final(self).total_matching_pool == old(self).total_matching_pool,
            final(self).rounds@ == old(self).rounds@,
            final(self).price_feed == old(self).price_feed,
            final(self).active_round == old(self).active_round,
            final(self).slippage_guard == old(self).slippage_guard,
    {
        let pk = make_pair_key(donation.round_id, donation.project_id);
        match self.project_donations.remove(&pk) {
            Some(mut record) => {
                let is_new_donor = !has_donor(&record.donations, donation.donor);
                record.total_normalized_value = record.total_normalized_value + donation.normalized_value;
                if is_new_donor {
                    record.unique_donors = record.unique_donors + 1;
                }
                record.donations.push(donation);
                self.project_donations.insert(pk, record);
            },
            None => {
                let mut donations: Vec<Donation> = Vec::new();
                donations.push(donation);
                self.project_donations.insert(pk, ProjectDonations {
                    project_id: donation.project_id,
                    total_normalized_value: donation.normalized_value,
                    unique_donors: 1,
                    donations,
                    matching_amount: 0,
                    final_payout: 0,
                });
                let mut projects = match self.round_projects.remove(&donation.round_id) {
                    Some(l) => l,
                    None => Vec::new(),
                };
                projects.push(donation.project_id);
                self.round_projects.insert(donation.round_id, projects);
                proof {
                    assert(self.round_projects@.dom() =~= old(self).round_projects@.dom().insert(donation.round_id));
                }
            },
        }
        proof {
            assert(self.project_donations@.dom() =~= old(self).project_donations@.dom().insert(pk));
        }
        let uk = make_pair_key(donation.donor.0, donation.round_id);
        push_to_list(&mut self.user_donations, uk, donation);
        proof {
            let r0 = donation.round_id;
            let p0 = donation.project_id;
            if !old(self).project_donations@.contains_key(pk) {
                if old(self).round_projects@.contains_key(r0) && old(self).round_projects@[r0]@.contains(p0) {
                    let t = choose|t: int| 0 <= t < old(self).round_projects@[r0]@.len()
                        && #[trigger] old(self).round_projects@[r0]@[t] == p0;
                    assert(old(self).project_donations@.contains_key(pair_key(r0, old(self).round_projects@[r0]@[t])));
                }
                assert forall|r: u64| #[trigger] self.round_projects@.contains_key(r) implies self.round_projects@[r]@.no_duplicates() by {
                    if r != r0 {
                        assert(old(self).round_projects@.contains_key(r));
                    }
                }
                assert forall|r: u64, j: int| self.round_projects@.contains_key(r) && 0 <= j < self.round_projects@[r]@.len()
                    implies self.project_donations@.contains_key(pair_key(r, #[trigger] self.round_projects@[r]@[j])) by {
                    if r != r0 {
                        assert(old(self).round_projects@.contains_key(r));
                        assert(old(self).project_donations@.contains_key(pair_key(r, old(self).round_projects@[r]@[j])));
                    } else if j < id_list(old(self).round_projects@, r0).len() {
                        assert(old(self).round_projects@.contains_key(r));
                        assert(self.round_projects@[r]@[j] == old(self).round_projects@[r]@[j]);
                        assert(old(self).project_donations@.contains_key(pair_key(r, old(self).round_projects@[r]@[j])));
                    }
                }
            } else {
                assert forall|r: u64, j: int| self.round_projects@.contains_key(r) && 0 <= j < self.round_projects@[r]@.len()
                    implies self.project_donations@.contains_key(pair_key(r, #[trigger] self.round_projects@[r]@[j])) by {
                    assert(old(self).project_donations@.contains_key(pair_key(r, old(self).round_projects@[r]@[j])));
                }
            }
        }
    }
}

impl MultiTokenMatchingPool {
    /// Quadratic matching of projects with `totals` from a pool of
    /// `matching_pool` with `quadratic_coefficient`, one entry per project.
    pub fn calculate_quadratic_matching(totals: &Vec<u128>, matching_pool: u128, quadratic_coefficient: u128) -> (r: Vec<
        Option<u128>,
    >)
        requires
            quadratic_fits(totals@, matching_pool, quadratic_coefficient),
        ensures
            r@ == quadratic_matching(totals@, matching_pool, quadratic_coefficient),
    {
        let mut sum: u128 = 0;
        let mut i: usize = 0;
        while i < totals.len()
            invariant
                i <= totals@.len(),
                quadratic_fits(totals@, matching_pool, quadratic_coefficient),
                sum == weight_sum(totals@.take(i as int)),
            decreases totals.len() - i,
        {
            let t = totals[i];
            proof {
                assert(totals@.take(i + 1).drop_last() =~= totals@.take(i as int));
                lemma_weight_prefix_le(totals@, i + 1);
            }
            if t > 0 {
                assert(t * QUADRATIC_PRECISION < u128::MAX);
                let w = floor_sqrt(t * QUADRATIC_PRECISION);
                sum = sum + w;
            }
            i = i + 1;
        }
        assert(totals@.take(totals@.len() as int) =~= totals@);
        let mut out: Vec<Option<u128>> = Vec::new();
        let mut j: usize = 0;
        while j < totals.len()
            invariant
                j <= totals@.len(),
                quadratic_fits(totals@, matching_pool, quadratic_coefficient),
                sum == weight_sum(totals@),
                out@ == quadratic_matching(totals@, matching_pool, quadratic_coefficient).take(j as int),
            decreases totals.len() - j,
        {
            let t = totals[j];
            if sum == 0 || t == 0 {
                out.push(None);
            } else {
                assert(t * QUADRATIC_PRECISION < u128::MAX);
                let w = floor_sqrt(t * QUADRATIC_PRECISION);
                assert(quadratic_weight(totals@[j as int]) * matching_pool <= u128::MAX);
                let product = w * matching_pool * quadratic_coefficient;
                out.push(Some(product / sum / QUADRATIC_PRECISION));
            }
            j = j + 1;
            assert(out@ =~= quadratic_matching(totals@, matching_pool, quadratic_coefficient).take(j as int));
        }
        assert(quadratic_matching(totals@, matching_pool, quadratic_coefficient).take(totals@.len() as int)
            =~= quadratic_matching(totals@, matching_pool, quadratic_coefficient));
        out
    }
}

impl MultiTokenMatchingPool {
    /// Projects of round `r` that received donations, by first donation.
    pub open spec fn round_project_ids(&self, r: u64) -> Seq<u64> {
        id_list(self.round_projects@, r)
    }

    /// Keys of the donation records of round `r`'s projects.
    pub open spec fn project_keys(&self, r: u64) -> Seq<u128> {
        self.round_project_ids(r).map_values(|p: u64| pair_key(r, p))
    }

    /// Donation totals of round `r`'s projects.
    pub open spec fn round_project_totals(&self, r: u64) -> Seq<u128> {
        self.round_project_ids(r).map_values(|p: u64| self.project_donations@[pair_key(r, p)].total_normalized_value)
    }

    /// The matching of round `r`'s projects.
    pub open spec fn round_matching(&self, r: u64) -> Seq<Option<u128>> {
        quadratic_matching(
            self.round_project_totals(r),
            self.rounds@[r].matching_pool_amount,
            self.rounds@[r].quadratic_coefficient,
        )
    }

    /// Whether computing round `r`'s matching stays in range.
    pub open spec fn matching_fits(&self, r: u64) -> bool {
        self.rounds@.contains_key(r) ==> {
            &&& quadratic_fits(
                self.round_project_totals(r),
                self.rounds@[r].matching_pool_amount,
                self.rounds@[r].quadratic_coefficient,
            )
            &&& forall|j: int| 0 <= j < self.round_project_ids(r).len() && #[trigger] self.round_matching(r)[j] is Some
                ==> self.round_project_totals(r)[j] + self.round_matching(r)[j].unwrap() <= u128::MAX
        }
    }

    /// The error computing round `r`'s matching meets, or `None`.
    pub open spec fn matching_error(&self, admin: Address, r: u64) -> Option<MatchingPoolError> {
        if self.auth_error(admin) is Some {
            self.auth_error(admin)
        } else if !self.rounds@.contains_key(r) {
            Some(MatchingPoolError::RoundNotFound)
        } else if self.rounds@[r].matching_calculated {
            Some(MatchingPoolError::MatchingAlreadyCalculated)
        } else if self.rounds@[r].is_active {
            Some(MatchingPoolError::RoundNotActive)
        } else {
            None
        }
    }

    /// Computes the quadratic matching of inactive round `round_id` once,
    /// recording each funded project's matching amount and payout.
    pub fn calculate_matching(&mut self, admin: Address, round_id: u64) -> (r: Result<(), MatchingPoolError>)
        requires
            old(self).wf(),
            old(self).matching_fits(round_id),
        ensures
            final(self).wf(),
            r is Err <==> old(self).matching_error(admin, round_id) is Some,
            r matches Err(e) ==> old(self).matching_error(admin, round_id) == Some(e),
            r is Err ==> final(self).rounds@ == old(self).rounds@ && final(self).project_donations@ == old(self).project_donations@,
            r is Ok ==> {
                let keys = old(self).project_keys(round_id);
                let matching = old(self).round_matching(round_id);
                &&& final(self).rounds@ == old(self).rounds@.insert(round_id, MatchingRound {
                    matching_calculated: true,
                    ..old(self).rounds@[round_id]
                })
                &&& final(self).project_donations@.dom() == old(self).project_donations@.dom()
                &&& forall|j: int| 0 <= j < keys.len() ==> final(self).project_donations@[#[trigger] keys[j]]
                    == with_matching(old(self).project_donations@[keys[j]], matching[j])
                &&& forall|k: u128| #[trigger] old(self).project_donations@.contains_key(k) && !keys.contains(k)
                    ==> final(self).project_donations@[k] == old(self).project_donations@[k]
            },
            final(self).admin == old(self).admin,
            final(self).native_token == old(self).native_token,
            final(self).next_round_id == old(self).next_round_id,
            final(self).total_matching_pool == old(self).total_matching_pool,
            final(self).active_round == old(self).active_round,
            final(self).round_projects@ == old(self).round_projects@,
            final(self).user_donations@ == old(self).user_donations@,
    {
        self.require_admin_auth(admin)?;
        let (calculated, active, pool, coefficient) = match self.rounds.get(&round_id) {
            None => {
                return Err(MatchingPoolError::RoundNotFound);
            },
            Some(round) => (round.matching_calculated, round.is_active, round.matching_pool_amount, round.quadratic_coefficient),
        };
        if calculated {
            return Err(MatchingPoolError::MatchingAlreadyCalculated);
        }
        if active {
            return Err(MatchingPoolError::RoundNotActive);
        }
        let projects: Vec<u64> = match self.round_projects.get(&round_id) {
            Some(l) => l.clone(),
            None => Vec::new(),
        };
        let ghost ids = old(self).round_project_ids(round_id);
        let ghost keys = old(self).project_keys(round_id);
        assert(projects@ == ids);
        let mut totals: Vec<u128> = Vec::new();
        let mut i: usize = 0;
        while i < projects.len()
            invariant
                self.wf(),
                self.project_donations@ == old(self).project_donations@,
                self.round_projects@ == old(self).round_projects@,
                projects@ == ids,
                ids == old(self).round_project_ids(round_id),
                i <= projects@.len(),
                totals@ == old(self).round_project_totals(round_id).take(i as int),
            decreases projects.len() - i,
        {
            assert(self.project_donations@.contains_key(pair_key(round_id, self.round_projects@[round_id]@[i as int])));
            let k = make_pair_key(round_id, projects[i]);
            let t = self.project_donations.get(&k).unwrap().total_normalized_value;
            totals.push(t);
            i = i + 1;
            assert(totals@ =~= old(self).round_project_totals(round_id).take(i as int));
        }
        assert(totals@ =~= old(self).round_project_totals(round_id));
        let results = Self::calculate_quadratic_matching(&totals, pool, coefficient);
        let mut j: usize = 0;
        while j < projects.len()
            invariant
                self.wf(),
                self.rounds@ == old(self).rounds@,
                self.round_projects@ == old(self).round_projects@,
                self.admin == old(self).admin,
                self.native_token == old(self).native_token,
                self.total_matching_pool == old(self).total_matching_pool,
                self.price_feed == old(self).price_feed,
                self.slippage_guard == old(self).slippage_guard,
                self.active_round == old(self).active_round,
                self.next_round_id == old(self).next_round_id,
                self.user_donations@ == old(self).user_donations@,
                old(self).wf(),
                old(self).matching_fits(round_id),
                old(self).rounds@.contains_key(round_id),
                projects@ == ids,
                ids == old(self).round_project_ids(round_id),
                keys == old(self).project_keys(round_id),
                results@ == old(self).round_matching(round_id),
                totals@ == old(self).round_project_totals(round_id),
                j <= projects@.len(),
                self.project_donations@.dom() == old(self).project_donations@.dom(),
                forall|t: int| 0 <= t < j ==> self.project_donations@[#[trigger] keys[t]]
                    == with_matching(old(self).project_donations@[keys[t]], results@[t]),
                forall|k: u128| #[trigger] old(self).project_donations@.contains_key(k) && !keys.take(j as int).contains(k)
                    ==> self.project_donations@[k] == old(self).project_donations@[k],
            decreases projects.len() - j,
        {
            let k = make_pair_key(round_id, projects[j]);
            proof {
                if old(self).round_projects@.contains_key(round_id) {
                    assert(old(self).project_donations@.contains_key(pair_key(round_id, old(self).round_projects@[round_id]@[j as int])));
                }
                assert(keys[j as int] == k);
                assert(!keys.take(j as int).contains(k)) by {
                    if keys.take(j as int).contains(k) {
                        let t = choose|t: int| 0 <= t < j && #[trigger] keys.take(j as int)[t] == k;
                        assert(keys[t] == k);
                        lemma_pair_key_injective(round_id, ids[t], round_id, ids[j as int]);
                        assert(old(self).round_projects@[round_id]@.no_duplicates());
                    }
                }
            }
            match results[j] {
                Some(a) => {
                    let mut record = self.project_donations.remove(&k).unwrap();
                    assert(old(self).round_matching(round_id)[j as int] is Some);
                    assert(record.total_normalized_value == totals@[j as int]);
                    record.matching_amount = a;
                    record.final_payout = record.total_normalized_value + a;
                    self.project_donations.insert(k, record);
                },
                None => {},
            }
            proof {
                assert(self.project_donations@.dom() =~= old(self).project_donations@.dom());
                assert forall|t: int| 0 <= t < j + 1 implies self.project_donations@[#[trigger] keys[t]]
                    == with_matching(old(self).project_donations@[keys[t]], results@[t]) by {
                    if t < j {
                        if keys[t] == k {
                            lemma_pair_key_injective(round_id, ids[t], round_id, ids[j as int]);
                        }
                    }
                }
                assert forall|k2: u128| #[trigger] old(self).project_donations@.contains_key(k2) && !keys.take(j + 1).contains(k2)
                    implies self.project_donations@[k2] == old(self).project_donations@[k2] by {
                    assert(keys.take(j + 1)[j as int] == k);
                    if keys.take(j as int).contains(k2) {
                        let t = choose|t: int| 0 <= t < j && #[trigger] keys.take(j as int)[t] == k2;
                        assert(keys.take(j + 1)[t] == k2);
                    }
                }
                assert forall|r: u64, jj: int| self.round_projects@.contains_key(r) && 0 <= jj < self.round_projects@[r]@.len()
                    implies self.project_donations@.contains_key(pair_key(r, #[trigger] self.round_projects@[r]@[jj])) by {
                    assert(old(self).project_donations@.contains_key(pair_key(r, old(self).round_projects@[r]@[jj])));
                }
            }
            j = j + 1;
        }
        assert(keys.take(projects@.len() as int) =~= keys);
        let mut round = self.rounds.remove(&round_id).unwrap();
        round.matching_calculated = true;
        self.rounds.insert(round_id, round);
        proof {
            assert(self.rounds@.dom() =~= old(self).rounds@.dom());
        }
        Ok(())
    }

    /// The projects of round `r` with matching, and their amounts.
    pub open spec fn matching_payouts(&self, r: u64) -> Seq<(u64, u128)> {
        self.round_project_ids(r).filter(|p: u64| self.project_donations@[pair_key(r, p)].matching_amount > 0).map_values(
            |p: u64| (p, self.project_donations@[pair_key(r, p)].matching_amount),
        )
    }

    /// The error distributing round `r`'s matching meets, or `None`.
    pub open spec fn distribution_error(&self, admin: Address, r: u64) -> Option<MatchingPoolError> {
        if self.auth_error(admin) is Some {
            self.auth_error(admin)
        } else if !self.rounds@.contains_key(r) {
            Some(MatchingPoolError::RoundNotFound)
        } else if !self.rounds@[r].matching_calculated {
            Some(MatchingPoolError::MatchingAlreadyCalculated)
        } else {
            None
        }
    }

    /// The matching payouts of round `round_id` once its matching is
    /// computed: each project with matching and its amount, for the caller to
    /// pay out in the native token.
    pub fn distribute_matching(&self, admin: Address, round_id: u64) -> (r: Result<Vec<(u64, u128)>, MatchingPoolError>)
        requires
            self.wf(),
        ensures
            r is Err <==> self.distribution_error(admin, round_id) is Some,
            r matches Err(e) ==> self.distribution_error(admin, round_id) == Some(e),
            r matches Ok(v) ==> v@ == self.matching_payouts(round_id),
    {
        self.require_admin_auth(admin)?;
        match self.rounds.get(&round_id) {
            None => {
                return Err(MatchingPoolError::RoundNotFound);
            },
            Some(round) => {
                if !round.matching_calculated {
                    return Err(MatchingPoolError::MatchingAlreadyCalculated);
                }
            },
        }
        let projects: Vec<u64> = match self.round_projects.get(&round_id) {
            Some(l) => l.clone(),
            None => Vec::new(),
        };
        let ghost ids = self.round_project_ids(round_id);
        let ghost pred = |p: u64| self.project_donations@[pair_key(round_id, p)].matching_amount > 0;
        let ghost f = |p: u64| (p, self.project_donations@[pair_key(round_id, p)].matching_amount);
        let mut out: Vec<(u64, u128)> = Vec::new();
        let mut i: usize = 0;
        while i < projects.len()
            invariant
                self.wf(),
                projects@ == ids,
                ids == self.round_project_ids(round_id),
                pred == (|p: u64| self.project_donations@[pair_key(round_id, p)].matching_amount > 0),
                f == (|p: u64| (p, self.project_donations@[pair_key(round_id, p)].matching_amount)),
                i <= projects@.len(),
                out@ == ids.take(i as int).filter(pred).map_values(f),
            decreases projects.len() - i,
        {
            assert(self.project_donations@.contains_key(pair_key(round_id, self.round_projects@[round_id]@[i as int])));
            let p = projects[i];
            let amount = self.project_donations.get(&make_pair_key(round_id, p)).unwrap().matching_amount;
            proof {
                assert(ids.take(i + 1).drop_last() =~= ids.take(i as int));
                reveal_with_fuel(Seq::<u64>::filter, 1);
            }
            if amount > 0 {
                out.push((p, amount));
                assert(out@ =~= ids.take(i + 1).filter(pred).map_values(f));
            } else {
                assert(out@ =~= ids.take(i + 1).filter(pred).map_values(f));
            }
            i = i + 1;
        }
        assert(ids.take(ids.len() as int) =~= ids);
        Ok(out)
    }
}

impl MultiTokenMatchingPool {
    /// Integer square root of `n`.
    pub fn integer_square_root(n: u128) -> (r: Result<u128, MatchingPoolError>)
        requires
            n < u128::MAX,
        ensures
            r matches Ok(s) && is_floor_sqrt(n as int, s as int),
    {
        Ok(floor_sqrt(n))
    }

    /// Slippage in basis points between the expected output of a swap and the
    /// minimum the caller accepts; `InvalidAmount` when nothing is expected.
    pub fn calculate_slippage_bps(
        input_amount: u128,
        expected_output: u128,
        min_received: u128,
    ) -> (r: Result<u32, MatchingPoolError>)
        requires
            expected_output > min_received ==> (expected_output - min_received) * 10000 <= u128::MAX,
        ensures
            expected_output == 0 ==> r == Err::<u32, MatchingPoolError>(MatchingPoolError::InvalidAmount),
            expected_output > 0 ==> r == Ok::<u32, MatchingPoolError>(
                slippage_bps_spec(expected_output as int, min_received as int) as u32,
            ),
            r matches Ok(b) ==> b <= 10000,
    {
        if expected_output == 0 {
            return Err(MatchingPoolError::InvalidAmount);
        }
        let slippage_amount = expected_output.saturating_sub(min_received);
        proof {
            vstd::arithmetic::div_mod::lemma_div_is_ordered(
                slippage_amount as int * 10000,
                expected_output as int * 10000,
                expected_output as int,
            );
            vstd::arithmetic::div_mod::lemma_div_multiples_vanish(10000, expected_output as int);
            vstd::arithmetic::mul::lemma_mul_is_commutative(10000, expected_output as int);
        }
        let slippage_bps = (slippage_amount * 10000) / expected_output;
        Ok(slippage_bps as u32)
    }

    /// The simulated DEX's quote for `token_a` and `token_b` at `now`: a mid
    /// price of one, widened by the pair's spread.
    pub fn simulate_dex_spread(token_a: Address, token_b: Address, now: u64) -> (r: DexSpread)
        ensures
            simulated_spread(r, token_a, token_b, now),
    {
        let mut bytes: Vec<u8> = Vec::new();
        push_address_bytes(&mut bytes, token_a);
        push_address_bytes(&mut bytes, token_b);
        let seed = hash_bytes(&bytes);
        let spread_bps = BASE_SPREAD_BPS + (seed % 100) as u32;
        let mid_price = MATCHING_PRECISION;
        let amount = (mid_price * spread_bps as u128) / 10000;
        DexSpread {
            token_a,
            token_b,
            bid_price: mid_price - amount,
            ask_price: mid_price + amount,
            spread_bps,
            liquidity_depth: SIMULATED_LIQUIDITY_DEPTH,
            timestamp: now,
            confidence_bps: SIMULATED_SPREAD_CONFIDENCE_BPS,
            dex_source: String::from_str("stellar_dex_v1"),
        }
    }

    /// Output of swapping `amount` at `spread`'s ask price.
    pub fn calculate_swap_output(amount: u128, spread: &DexSpread) -> (r: u128)
        requires
            amount * spread.ask_price <= u128::MAX,
            (amount * spread.ask_price / (MATCHING_PRECISION as int)) * 10000 <= u128::MAX,
        ensures
            r == swap_output_at(amount, spread.ask_price as int, spread.liquidity_depth as int),
    {
        let output = (amount * spread.ask_price) / MATCHING_PRECISION;
        let factor: u128 = if amount > spread.liquidity_depth / 10 { 9800 } else { 10000 };
        (output * factor) / 10000
    }

    /// Swaps `amount` of `from_token` for `to_token` on the simulated DEX at
    /// `now`, holding `contract_balance` of `from_token`; the output must
    /// reach `min_received` and the balance must cover the amount.
    pub fn execute_dex_swap(
        from_token: Address,
        to_token: Address,
        amount: u128,
        min_received: u128,
        now: u64,
        contract_balance: i128,
    ) -> (r: Result<u128, MatchingPoolError>)
        requires
            swap_fits(amount, from_token, to_token),
        ensures
            swap_output(amount, from_token, to_token) < min_received ==> r == Err::<u128, MatchingPoolError>(
                MatchingPoolError::SlippageExceedsThreshold,
            ),
            swap_output(amount, from_token, to_token) >= min_received && contract_balance < amount as i128
                ==> r == Err::<u128, MatchingPoolError>(MatchingPoolError::InsufficientLiquidity),
            swap_output(amount, from_token, to_token) >= min_received && contract_balance >= amount as i128
                ==> r == Ok::<u128, MatchingPoolError>(swap_output(amount, from_token, to_token) as u128),
    {
        let spread = Self::simulate_dex_spread(from_token, to_token, now);
        let actual_output = Self::calculate_swap_output(amount, &spread);
        if actual_output < min_received {
            return Err(MatchingPoolError::SlippageExceedsThreshold);
        }
        if contract_balance < amount as i128 {
            return Err(MatchingPoolError::InsufficientLiquidity);
        }
        Ok(actual_output)
    }
}

/// Balance of `token` among `balances`; an account without one holds none.
pub open spec fn balance_of(balances: Map<u64, i128>, token: Address) -> i128 {
    if balances.contains_key(token.0) { balances[token.0] } else { 0 }
}

/// The record of a swap queued in `g` at `now`.
pub open spec fn queued_record(
    g: SlippageGuard,
    round_id: u64,
    from_token: Address,
    to_token: Address,
    amount: u128,
    min_received: u128,
    now: u64,
) -> QueuedSwap {
    QueuedSwap {
        swap_id: g.next_swap_id,
        round_id,
        from_token,
        to_token,
        amount,
        min_received,
        queued_at: now,
        expires_at: (now + g.config.queue_expiry_secs) as u64,
        priority: 1,
        retry_count: 0,
        max_retries: DEFAULT_MAX_RETRIES,
    }
}

/// `after` is `before` with swap `rec` queued.
pub open spec fn guard_queued(before: SlippageGuard, after: SlippageGuard, rec: QueuedSwap) -> bool {
    &&& after.config == before.config
    &&& after.active_swaps@ == before.active_swaps@.insert(rec.swap_id, rec)
    &&& after.swap_queue@ == before.swap_queue@.push(rec.swap_id)
    &&& after.next_swap_id == before.next_swap_id + 1
    &&& after.total_queued_amount == before.total_queued_amount + rec.amount
    &&& after.last_dex_query == before.last_dex_query
    &&& after.dex_query_count == before.dex_query_count
}

/// `after` is `before` with a DEX query recorded at `now`.
pub open spec fn guard_queried(before: SlippageGuard, after: SlippageGuard, now: u64) -> bool {
    &&& after.config == before.config
    &&& after.active_swaps@ == before.active_swaps@
    &&& after.swap_queue@ == before.swap_queue@
    &&& after.next_swap_id == before.next_swap_id
    &&& after.total_queued_amount == before.total_queued_amount
    &&& after.last_dex_query == now
    &&& after.dex_query_count == before.dex_query_count + 1
}

impl MultiTokenMatchingPool {
    /// What a protected swap of `amount` of `from` for `to` in round
    /// `round_id` comes to at `now` under `config`, holding `balance` of
    /// `from`, with `queue_len` swaps waiting and `next_id` the next swap id:
    /// a swap whose slippage exceeds the limit waits in the queue (or is
    /// refused when queuing is off or the queue is full); otherwise it needs
    /// enough liquidity, an output of at least `min_received` and a balance
    /// covering the amount.
    pub open spec fn protected_swap(
        &self,
        config: SlippageConfig,
        round_id: u64,
        from: Address,
        to: Address,
        amount: u128,
        min_received: u128,
        now: u64,
        balance: i128,
        queue_len: int,
        next_id: u64,
    ) -> Result<SwapOutcome, MatchingPoolError> {
        if !self.rounds@.contains_key(round_id) {
            Err(MatchingPoolError::RoundNotFound)
        } else if !self.rounds@[round_id].is_active {
            Err(MatchingPoolError::RoundNotActive)
        } else if SIMULATED_SPREAD_CONFIDENCE_BPS < config.spread_confidence_threshold {
            Err(MatchingPoolError::DexQueryFailed)
        } else {
            let expected = swap_output(amount, from, to);
            if expected == 0 {
                Err(MatchingPoolError::InvalidAmount)
            } else if slippage_bps_spec(expected, min_received as int) as u32 > config.max_slippage_bps {
                if !config.auto_queue_enabled {
                    Err(MatchingPoolError::SlippageExceedsThreshold)
                } else if queue_len >= SWAP_QUEUE_MAX_SIZE {
                    Err(MatchingPoolError::SwapQueueFull)
                } else {
                    Ok(SwapOutcome::Queued(next_id))
                }
            } else if SIMULATED_LIQUIDITY_DEPTH < config.min_liquidity_threshold {
                Err(MatchingPoolError::InsufficientLiquidity)
            } else if expected < min_received {
                Err(MatchingPoolError::SlippageExceedsThreshold)
            } else if balance < amount as i128 {
                Err(MatchingPoolError::InsufficientLiquidity)
            } else {
                Ok(SwapOutcome::Executed(expected as u128))
            }
        }
    }

    /// What `execute_swap_with_protection` comes to in this state.
    pub open spec fn swap_with_protection(
        &self,
        round_id: u64,
        from: Address,
        to: Address,
        amount: u128,
        min_received: u128,
        now: u64,
        balance: i128,
    ) -> Result<SwapOutcome, MatchingPoolError> {
        if !self.rounds@.contains_key(round_id) {
            Err(MatchingPoolError::RoundNotFound)
        } else if !self.rounds@[round_id].is_active {
            Err(MatchingPoolError::RoundNotActive)
        } else if self.slippage_guard is None {
            Err(MatchingPoolError::NotInitialized)
        } else {
            let g = self.slippage_guard.unwrap();
            self.protected_swap(g.config, round_id, from, to, amount, min_received, now, balance, g.swap_queue@.len() as int, g.next_swap_id)
        }
    }

    /// Whether queuing a swap of `amount` at `now` stays in range.
    pub open spec fn queue_fits(&self, amount: u128, now: u64) -> bool {
        self.slippage_guard matches Some(g) ==> {
            &&& g.next_swap_id < u64::MAX
            &&& g.total_queued_amount + amount <= u128::MAX
            &&& now + g.config.queue_expiry_secs <= u64::MAX
        }
    }

    /// Replaces the slippage settings.
    pub fn configure_slippage_protection(
        &mut self,
        admin: Address,
        max_slippage_bps: u32,
        auto_queue_enabled: bool,
        min_liquidity_threshold: u128,
        spread_confidence_threshold: u32,
        queue_expiry_secs: u64,
    ) -> (r: Result<(), MatchingPoolError>)
        requires
            old(self).wf(),
        ensures
            final(self).wf(),
            r is Err <==> old(self).auth_error(admin) is Some,
            r matches Err(e) ==> old(self).auth_error(admin) == Some(e),
            r is Err ==> final(self).slippage_guard == old(self).slippage_guard,
            r is Ok ==> ({
                let before = old(self).slippage_guard.unwrap();
                let after = final(self).slippage_guard.unwrap();
                &&& after.config == SlippageConfig {
                    max_slippage_bps,
                    auto_queue_enabled,
                    min_liquidity_threshold,
                    spread_confidence_threshold,
                    queue_expiry_secs,
                }
                &&& after.active_swaps@ == before.active_swaps@
                &&& after.swap_queue@ == before.swap_queue@
                &&& after.next_swap_id == before.next_swap_id
                &&& after.total_queued_amount == before.total_queued_amount
                &&& after.last_dex_query == before.last_dex_query
                &&& after.dex_query_count == before.dex_query_count
            }),
            final(self).admin == old(self).admin,
            final(self).rounds@ == old(self).rounds@,
            final(self).price_feed == old(self).price_feed,
            final(self).project_donations@ == old(self).project_donations@,
    {
        self.require_admin_auth(admin)?;
        let mut g = self.slippage_guard.take().unwrap();
        g.config = SlippageConfig {
            max_slippage_bps,
            auto_queue_enabled,
            min_liquidity_threshold,
            spread_confidence_threshold,
            queue_expiry_secs,
        };
        self.slippage_guard = Some(g);
        Ok(())
    }

    /// Records a DEX query at `now`.
    fn record_dex_query(&mut self, now: u64)
        requires
            old(self).wf(),
            old(self).slippage_guard matches Some(g) && g.dex_query_count < u64::MAX,
        ensures
            final(self).wf(),
            final(self).slippage_guard is Some,
            guard_queried(old(self).slippage_guard.unwrap(), final(self).slippage_guard.unwrap(), now),
            final(self).admin == old(self).admin,
            final(self).rounds@ == old(self).rounds@,
            final(self).price_feed == old(self).price_feed,
            final(self).project_donations@ == old(self).project_donations@,
            final(self).user_donations@ == old(self).user_donations@,
            final(self).round_projects@ == old(self).round_projects@,
    {
        let mut g = self.slippage_guard.take().unwrap();
        g.last_dex_query = now;
        g.dex_query_count = g.dex_query_count + 1;
        self.slippage_guard = Some(g);
    }

    /// The simulated DEX's quote for `token_a` and `token_b` at `now`; the
    /// query is counted.
    pub fn query_dex_spread(&mut self, token_a: Address, token_b: Address, now: u64) -> (r: Result<DexSpread, MatchingPoolError>)
        requires
            old(self).wf(),
            old(self).slippage_guard matches Some(g) ==> g.dex_query_count < u64::MAX,
        ensures
            final(self).wf(),
            old(self).slippage_guard is None ==> r is Err && r->Err_0 == MatchingPoolError::NotInitialized
                && final(self).slippage_guard == old(self).slippage_guard,
            old(self).slippage_guard is Some ==> (r matches Ok(spread) && simulated_spread(spread, token_a, token_b, now))
                && final(self).slippage_guard is Some
                && guard_queried(old(self).slippage_guard.unwrap(), final(self).slippage_guard.unwrap(), now),
            final(self).admin == old(self).admin,
            final(self).rounds@ == old(self).rounds@,
            final(self).price_feed == old(self).price_feed,
            final(self).project_donations@ == old(self).project_donations@,
    {
        if self.slippage_guard.is_none() {
            return Err(MatchingPoolError::NotInitialized);
        }
        self.record_dex_query(now);
        Ok(Self::simulate_dex_spread(token_a, token_b, now))
    }

    /// Queues a swap at `now` until conditions improve; returns its id.
    pub fn queue_swap(
        &mut self,
        round_id: u64,
        from_token: Address,
        to_token: Address,
        amount: u128,
        min_received: u128,
        now: u64,
    ) -> (r: Result<u64, MatchingPoolError>)
        requires
            old(self).wf(),
            old(self).queue_fits(amount, now),
        ensures
            final(self).wf(),
            old(self).slippage_guard is None ==> r == Err::<u64, MatchingPoolError>(MatchingPoolError::NotInitialized),
            old(self).slippage_guard matches Some(g) && g.swap_queue@.len() >= SWAP_QUEUE_MAX_SIZE
                ==> r == Err::<u64, MatchingPoolError>(MatchingPoolError::SwapQueueFull),
            r is Ok <==> (old(self).slippage_guard matches Some(g) && g.swap_queue@.len() < SWAP_QUEUE_MAX_SIZE),
            r is Err ==> final(self).slippage_guard == old(self).slippage_guard,
            r matches Ok(id) ==> {
                let g = old(self).slippage_guard.unwrap();
                &&& g.swap_queue@.len() < SWAP_QUEUE_MAX_SIZE
                &&& id == g.next_swap_id
                &&& final(self).slippage_guard is Some
                &&& guard_queued(g, final(self).slippage_guard.unwrap(), queued_record(g, round_id, from_token, to_token, amount, min_received, now))
            },
            final(self).admin == old(self).admin,
            final(self).rounds@ == old(self).rounds@,
            final(self).price_feed == old(self).price_feed,
            final(self).project_donations@ == old(self).project_donations@,
            final(self).user_donations@ == old(self).user_donations@,
            final(self).round_projects@ == old(self).round_projects@,
    {
        let mut g = match self.slippage_guard.take() {
            None => {
                return Err(MatchingPoolError::NotInitialized);
            },
            Some(g) => g,
        };
        if g.swap_queue.len() >= SWAP_QUEUE_MAX_SIZE as usize {
            self.slippage_guard = Some(g);
            return Err(MatchingPoolError::SwapQueueFull);
        }
        let ghost before = g;
        let swap_id = g.next_swap_id;
        let record = QueuedSwap {
            swap_id,
            round_id,
            from_token,
            to_token,
            amount,
            min_received,
            queued_at: now,
            expires_at: now + g.config.queue_expiry_secs,
            priority: 1,
            retry_count: 0,
            max_retries: DEFAULT_MAX_RETRIES,
        };
        g.active_swaps.insert(swap_id, record);
        g.swap_queue.push(swap_id);
        g.next_swap_id = swap_id + 1;
        g.total_queued_amount = g.total_queued_amount + amount;
        proof {
            assert(!before.swap_queue@.contains(swap_id)) by {
                if before.swap_queue@.contains(swap_id) {
                    let t = choose|t: int| 0 <= t < before.swap_queue@.len() && #[trigger] before.swap_queue@[t] == swap_id;
                    assert(before.active_swaps@.contains_key(before.swap_queue@[t]));
                }
            }
            assert forall|j: int| 0 <= j < before.swap_queue@.len() implies g.active_swaps@[#[trigger] before.swap_queue@[j]].amount
                == before.active_swaps@[before.swap_queue@[j]].amount by {
                assert(before.swap_queue@[j] != swap_id);
            }
            lemma_queued_sum_unlisted(before.swap_queue@, before.active_swaps@, g.active_swaps@);
            assert(g.swap_queue@.drop_last() =~= before.swap_queue@);
            assert forall|k: u64| #[trigger] g.active_swaps@.contains_key(k) implies g.swap_queue@.contains(k) && k < g.next_swap_id by {
                if k != swap_id {
                    assert(before.active_swaps@.contains_key(k));
                    let t = choose|t: int| 0 <= t < before.swap_queue@.len() && #[trigger] before.swap_queue@[t] == k;
                    assert(g.swap_queue@[t] == k);
                } else {
                    assert(g.swap_queue@[g.swap_queue@.len() - 1] == k);
                }
            }
            assert forall|j: int| 0 <= j < g.swap_queue@.len() implies g.active_swaps@.contains_key(#[trigger] g.swap_queue@[j]) by {
                if j < before.swap_queue@.len() {
                    assert(before.active_swaps@.contains_key(before.swap_queue@[j]));
                }
            }
        }
        self.slippage_guard = Some(g);
        Ok(swap_id)
    }

    /// Swaps `amount` of `from_token` for `to_token` for active round
    /// `round_id` at `now`, holding `contract_balance` of `from_token`. When
    /// the slippage the caller accepts exceeds the limit, the swap waits in
    /// the queue if queuing is on, and is refused otherwise.
    pub fn execute_swap_with_protection(
        &mut self,
        round_id: u64,
        from_token: Address,
        to_token: Address,
        amount: u128,
        min_received: u128,
        now: u64,
        contract_balance: i128,
    ) -> (r: Result<SwapOutcome, MatchingPoolError>)
        requires
            old(self).wf(),
            swap_fits(amount, from_token, to_token),
            old(self).queue_fits(amount, now),
            old(self).slippage_guard matches Some(g) ==> g.dex_query_count < u64::MAX,
        ensures
            final(self).wf(),
            r == old(self).swap_with_protection(round_id, from_token, to_token, amount, min_received, now, contract_balance),
            r is Err ==> final(self).slippage_guard == old(self).slippage_guard,
            r matches Ok(SwapOutcome::Executed(_)) ==> final(self).slippage_guard is Some
                && guard_queried(old(self).slippage_guard.unwrap(), final(self).slippage_guard.unwrap(), now),
            r matches Ok(SwapOutcome::Queued(_)) ==> {
                let g = old(self).slippage_guard.unwrap();
                let rec = queued_record(g, round_id, from_token, to_token, amount, min_received, now);
                &&& final(self).slippage_guard is Some
                &&& final(self).slippage_guard.unwrap().last_dex_query == now
                &&& final(self).slippage_guard.unwrap().dex_query_count == g.dex_query_count + 1
                &&& final(self).slippage_guard.unwrap().config == g.config
                &&& final(self).slippage_guard.unwrap().active_swaps@ == g.active_swaps@.insert(rec.swap_id, rec)
                &&& final(self).slippage_guard.unwrap().swap_queue@ == g.swap_queue@.push(rec.swap_id)
                &&& final(self).slippage_guard.unwrap().next_swap_id == g.next_swap_id + 1
                &&& final(self).slippage_guard.unwrap().total_queued_amount == g.total_queued_amount + amount
            },
            final(self).admin == old(self).admin,
            final(self).rounds@ == old(self).rounds@,
            final(self).price_feed == old(self).price_feed,
            final(self).project_donations@ == old(self).project_donations@,
    {
        match self.rounds.get(&round_id) {
            None => {
                return Err(MatchingPoolError::RoundNotFound);
            },
            Some(round) => {
                if !round.is_active {
                    return Err(MatchingPoolError::RoundNotActive);
                }
            },
        }
        let (config, queue_len) = match &self.slippage_guard {
            None => {
                return Err(MatchingPoolError::NotInitialized);
            },
            Some(g) => (g.config, g.swap_queue.len()),
        };
        let spread = Self::simulate_dex_spread(from_token, to_token, now);
        if now - spread.timestamp > DEX_QUERY_TIMEOUT_SECS {
            return Err(MatchingPoolError::SpreadDataStale);
        }
        if spread.confidence_bps < config.spread_confidence_threshold {
            return Err(MatchingPoolError::DexQueryFailed);
        }
        let expected_output = Self::calculate_swap_output(amount, &spread);
        proof {
            let output = amount * spread.ask_price / (MATCHING_PRECISION as int);
            let factor: int = if amount > spread.liquidity_depth / 10 { 9800 } else { 10000 };
            assert(output * factor <= output * 10000) by (nonlinear_arith)
                requires
                    output >= 0,
                    factor <= 10000,
            ;
            assert(output * factor / 10000 <= output) by (nonlinear_arith)
                requires
                    output >= 0,
                    0 <= factor <= 10000,
            ;
            assert(expected_output * 10000 <= u128::MAX) by (nonlinear_arith)
                requires
                    expected_output <= output,
                    output * 10000 <= u128::MAX,
            ;
        }
        let slippage_bps = Self::calculate_slippage_bps(amount, expected_output, min_received)?;
        if slippage_bps > config.max_slippage_bps {
            if config.auto_queue_enabled {
                if queue_len >= SWAP_QUEUE_MAX_SIZE as usize {
                    return Err(MatchingPoolError::SwapQueueFull);
                }
                self.record_dex_query(now);
                let swap_id = self.queue_swap(round_id, from_token, to_token, amount, min_received, now)?;
                return Ok(SwapOutcome::Queued(swap_id));
            } else {
                return Err(MatchingPoolError::SlippageExceedsThreshold);
            }
        }
        if spread.liquidity_depth < config.min_liquidity_threshold {
            return Err(MatchingPoolError::InsufficientLiquidity);
        }
        let actual_output = Self::execute_dex_swap(from_token, to_token, amount, min_received, now, contract_balance)?;
        self.record_dex_query(now);
        Ok(SwapOutcome::Executed(actual_output))
    }
}

/// Whether `x` occurs in `b` before `y`.
pub open spec fn occurs_before(b: Seq<u64>, x: u64, y: u64) -> bool {
    exists|p: int, q: int| #![trigger b[p], b[q]] 0 <= p < q < b.len() && b[p] == x && b[q] == y
}

/// Whether `a` lists its elements in the order in which they stand in `b`:
/// any two of them occur in `b`, the earlier one first.
pub open spec fn keeps_order(a: Seq<u64>, b: Seq<u64>) -> bool {
    forall|i: int, j: int| #![trigger a[i], a[j]] 0 <= i < j < a.len() ==> occurs_before(b, a[i], a[j])
}

proof fn lemma_keeps_order_refl(a: Seq<u64>)
    ensures
        keeps_order(a, a),
{
    assert forall|i: int, j: int| #![trigger a[i], a[j]] 0 <= i < j < a.len() implies occurs_before(a, a[i], a[j]) by {
        assert(a[i] == a[i] && a[j] == a[j]);
    }
}

/// Order kept within `b` less one element is kept within `b`.
proof fn lemma_keeps_order_remove(a: Seq<u64>, b: Seq<u64>, k: int)
    requires
        0 <= k < b.len(),
        keeps_order(a, b.remove(k)),
    ensures
        keeps_order(a, b),
{
    let c = b.remove(k);
    assert forall|i: int, j: int| #![trigger a[i], a[j]] 0 <= i < j < a.len() implies occurs_before(b, a[i], a[j]) by {
        assert(occurs_before(c, a[i], a[j]));
        let (p, q) = choose|p: int, q: int| #![trigger c[p], c[q]] 0 <= p < q < c.len() && c[p] == a[i] && c[q] == a[j];
        let p2 = if p < k { p } else { p + 1 };
        let q2 = if q < k { q } else { q + 1 };
        assert(b[p2] == c[p] && b[q2] == c[q]);
    }
}

impl MultiTokenMatchingPool {
    /// A run over the queue `q` from position `i`, with waiting swaps `active`
    /// totalling `total`, the swaps `processed` so far, and `stored_len` swaps
    /// counted against the queue's capacity. Each waiting swap in turn: an
    /// expired one leaves the queue; one that goes through, or waits again,
    /// leaves it as processed; one still over the slippage limit uses a retry
    /// and leaves when none is left; on any other refusal it stays and the run
    /// moves on. An identifier with no waiting swap leaves the queue. Returns
    /// the queue, the waiting swaps, their total and the processed swaps.
    #[verifier::opaque]
    pub open spec fn queue_run(
        &self,
        config: SlippageConfig,
        q: Seq<u64>,
        active: Map<u64, QueuedSwap>,
        total: int,
        processed: Seq<u64>,
        i: int,
        stored_len: int,
        now: u64,
        balances: Map<u64, i128>,
    ) -> (Seq<u64>, Map<u64, QueuedSwap>, int, Seq<u64>)
        decreases q.len() + 2 - i,
    {
        if i < 0 || i >= q.len() {
            (q, active, total, processed)
        } else if !active.contains_key(q[i]) {
            self.queue_run(config, q.remove(i), active, total, processed, i, stored_len, now, balances)
        } else {
            let id = q[i];
            let sw = active[id];
            if now > sw.expires_at {
                self.queue_run(config, q.remove(i), active.remove(id), total - sw.amount, processed, i, stored_len, now, balances)
            } else {
                match self.protected_swap(
                    config,
                    sw.round_id,
                    sw.from_token,
                    sw.to_token,
                    sw.amount,
                    sw.min_received,
                    now,
                    balance_of(balances, sw.from_token),
                    stored_len,
                    0,
                ) {
                    Ok(outcome) => self.queue_run(
                        config,
                        q.remove(i),
                        active.remove(id),
                        total - sw.amount,
                        processed.push(id),
                        i,
                        if outcome is Queued { stored_len + 1 } else { stored_len },
                        now,
                        balances,
                    ),
                    Err(MatchingPoolError::SlippageExceedsThreshold) => if sw.retry_count + 1 >= sw.max_retries {
                        self.queue_run(config, q.remove(i), active.remove(id), total - sw.amount, processed, i, stored_len, now, balances)
                    } else {
                        self.queue_run(
                            config,
                            q,
                            active.insert(id, QueuedSwap { retry_count: (sw.retry_count + 1) as u32, ..sw }),
                            total,
                            processed,
                            i + 1,
                            stored_len,
                            now,
                            balances,
                        )
                    },
                    Err(_) => self.queue_run(config, q, active, total, processed, i + 1, stored_len, now, balances),
                }
            }
        }
    }

    /// One step of a queue run.
    proof fn lemma_queue_run_step(
        &self,
        config: SlippageConfig,
        q: Seq<u64>,
        active: Map<u64, QueuedSwap>,
        total: int,
        processed: Seq<u64>,
        i: int,
        stored_len: int,
        now: u64,
        balances: Map<u64, i128>,
    )
        requires
            0 <= i < q.len(),
            active.contains_key(q[i]),
        ensures
            ({
                let id = q[i];
                let sw = active[id];
                let run = self.queue_run(config, q, active, total, processed, i, stored_len, now, balances);
                let attempt = self.protected_swap(
                    config,
                    sw.round_id,
                    sw.from_token,
                    sw.to_token,
                    sw.amount,
                    sw.min_received,
                    now,
                    balance_of(balances, sw.from_token),
                    stored_len,
                    0,
                );
                &&& now > sw.expires_at ==> run == self.queue_run(
                    config, q.remove(i), active.remove(id), total - sw.amount, processed, i, stored_len, now, balances)
                &&& now <= sw.expires_at && attempt is Ok ==> run == self.queue_run(
                    config,
                    q.remove(i),
                    active.remove(id),
                    total - sw.amount,
                    processed.push(id),
                    i,
                    if attempt.unwrap() is Queued { stored_len + 1 } else { stored_len },
                    now,
                    balances,
                )
                &&& now <= sw.expires_at && attempt == Err::<SwapOutcome, MatchingPoolError>(MatchingPoolError::SlippageExceedsThreshold)
                    && sw.retry_count + 1 >= sw.max_retries ==> run == self.queue_run(
                    config, q.remove(i), active.remove(id), total - sw.amount, processed, i, stored_len, now, balances)
                &&& now <= sw.expires_at && attempt == Err::<SwapOutcome, MatchingPoolError>(MatchingPoolError::SlippageExceedsThreshold)
                    && sw.retry_count + 1 < sw.max_retries ==> run == self.queue_run(
                    config,
                    q,
                    active.insert(id, QueuedSwap { retry_count: (sw.retry_count + 1) as u32, ..sw }),
                    total,
                    processed,
                    i + 1,
                    stored_len,
                    now,
                    balances,
                )
                &&& now <= sw.expires_at && attempt is Err && attempt != Err::<SwapOutcome, MatchingPoolError>(
                    MatchingPoolError::SlippageExceedsThreshold,
                ) ==> run == self.queue_run(config, q, active, total, processed, i + 1, stored_len, now, balances)
            }),
    {
        reveal_with_fuel(MultiTokenMatchingPool::queue_run, 1);
    }

    /// The run is over once past the end of the queue.
    proof fn lemma_queue_run_done(
        &self,
        config: SlippageConfig,
        q: Seq<u64>,
        active: Map<u64, QueuedSwap>,
        total: int,
        processed: Seq<u64>,
        i: int,
        stored_len: int,
        now: u64,
        balances: Map<u64, i128>,
    )
        requires
            i >= q.len(),
        ensures
            self.queue_run(config, q, active, total, processed, i, stored_len, now, balances) == (q, active, total, processed),
    {
        reveal_with_fuel(MultiTokenMatchingPool::queue_run, 1);
    }

    /// What a queue run keeps: the swaps left waiting were queued before, in
    /// the same order, and
    /// the processed swaps are distinct, came from the queue and left both the
    /// queue and the waiting swaps.
    proof fn lemma_queue_run_laws(
        &self,
        config: SlippageConfig,
        q: Seq<u64>,
        active: Map<u64, QueuedSwap>,
        total: int,
        processed: Seq<u64>,
        i: int,
        stored_len: int,
        now: u64,
        balances: Map<u64, i128>,
    )
        requires
            q.no_duplicates(),
            processed.no_duplicates(),
            forall|x: u64| #[trigger] processed.contains(x) ==> !q.contains(x) && !active.contains_key(x),
        ensures
            ({
                let run = self.queue_run(config, q, active, total, processed, i, stored_len, now, balances);
                &&& forall|x: u64| #[trigger] run.0.contains(x) ==> q.contains(x)
                &&& keeps_order(run.0, q)
                &&& run.0.no_duplicates()
                &&& run.3.no_duplicates()
                &&& forall|x: u64| #[trigger] run.3.contains(x) ==> (processed.contains(x) || q.contains(x))
                    && !run.0.contains(x) && !run.1.contains_key(x)
            }),
        decreases q.len() + 2 - i,
    {
        reveal_with_fuel(MultiTokenMatchingPool::queue_run, 1);
        if i < 0 || i >= q.len() {
            lemma_keeps_order_refl(q);
        } else {
            let id = q[i];
            let q2 = q.remove(i);
            assert forall|x: u64| #[trigger] q2.contains(x) implies q.contains(x) && x != id by {
                let j = choose|j: int| 0 <= j < q2.len() && q2[j] == x;
                if j < i {
                    assert(q[j] == x);
                } else {
                    assert(q[j + 1] == x);
                }
            }
            assert(q2.no_duplicates()) by {
                assert forall|a: int, b: int| 0 <= a < b < q2.len() implies q2[a] != q2[b] by {
                    let a2 = if a < i { a } else { a + 1 };
                    let b2 = if b < i { b } else { b + 1 };
                    assert(q2[a] == q[a2] && q2[b] == q[b2]);
                }
            }
            assert(q.contains(id));
            if !active.contains_key(id) {
                self.lemma_queue_run_laws(config, q2, active, total, processed, i, stored_len, now, balances);
                lemma_keeps_order_remove(self.queue_run(config, q2, active, total, processed, i, stored_len, now, balances).0, q, i);
            } else {
                let sw = active[id];
                let pushed = processed.push(id);
                assert(pushed.no_duplicates()) by {
                    assert(!processed.contains(id));
                    assert forall|a: int, b: int| 0 <= a < b < pushed.len() implies pushed[a] != pushed[b] by {
                        if b == pushed.len() - 1 {
                            assert(processed.contains(pushed[a]));
                        }
                    }
                }
                assert forall|x: u64| #[trigger] pushed.contains(x) implies !q2.contains(x) && !active.remove(id).contains_key(x) by {
                    if x != id {
                        assert(processed.contains(x));
                    }
                }
                assert forall|x: u64| #[trigger] processed.contains(x) implies !q2.contains(x) && !active.remove(id).contains_key(x) by {}
                assert forall|x: u64| #[trigger] processed.contains(x) implies
                    !active.insert(id, QueuedSwap { retry_count: (sw.retry_count + 1) as u32, ..sw }).contains_key(x) by {}
                let attempt = self.protected_swap(config, sw.round_id, sw.from_token, sw.to_token, sw.amount, sw.min_received,
                    now, balance_of(balances, sw.from_token), stored_len, 0);
                if now > sw.expires_at {
                    self.lemma_queue_run_laws(config, q2, active.remove(id), total - sw.amount, processed, i, stored_len, now, balances);
                    lemma_keeps_order_remove(
                        self.queue_run(config, q2, active.remove(id), total - sw.amount, processed, i, stored_len, now, balances).0, q, i);
                } else if attempt is Ok {
                    let sl = if attempt.unwrap() is Queued { stored_len + 1 } else { stored_len };
                    self.lemma_queue_run_laws(config, q2, active.remove(id), total - sw.amount, pushed, i, sl, now, balances);
                    lemma_keeps_order_remove(
                        self.queue_run(config, q2, active.remove(id), total - sw.amount, pushed, i, sl, now, balances).0, q, i);
                } else if attempt == Err::<SwapOutcome, MatchingPoolError>(MatchingPoolError::SlippageExceedsThreshold) {
                    if sw.retry_count + 1 >= sw.max_retries {
                        self.lemma_queue_run_laws(config, q2, active.remove(id), total - sw.amount, processed, i, stored_len, now, balances);
                        lemma_keeps_order_remove(
                            self.queue_run(config, q2, active.remove(id), total - sw.amount, processed, i, stored_len, now, balances).0, q, i);
                    } else {
                        self.lemma_queue_run_laws(config, q,
                            active.insert(id, QueuedSwap { retry_count: (sw.retry_count + 1) as u32, ..sw }),
                            total, processed, i + 1, stored_len, now, balances);
                    }
                } else {
                    self.lemma_queue_run_laws(config, q, active, total, processed, i + 1, stored_len, now, balances);
                }
            }
        }
    }

    /// The run over the whole queue at `now`.
    pub open spec fn queue_processing(&self, now: u64, balances: Map<u64, i128>) -> (Seq<u64>, Map<u64, QueuedSwap>, int, Seq<u64>) {
        let g = self.slippage_guard.unwrap();
        self.queue_run(
            g.config,
            g.swap_queue@,
            g.active_swaps@,
            g.total_queued_amount as int,
            Seq::empty(),
            0,
            g.swap_queue@.len() as int,
            now,
            balances,
        )
    }

    /// Whether every waiting swap can be attempted without overflow.
    pub open spec fn queue_processing_fits(&self, now: u64) -> bool {
        self.slippage_guard matches Some(g) ==> {
            &&& forall|k: u64| #[trigger] g.active_swaps@.contains_key(k)
                ==> swap_fits(g.active_swaps@[k].amount, g.active_swaps@[k].from_token, g.active_swaps@[k].to_token)
            &&& g.dex_query_count + g.swap_queue@.len() <= u64::MAX
            &&& g.next_swap_id + g.swap_queue@.len() <= u64::MAX
            &&& g.total_queued_amount * 2 <= u128::MAX
            &&& now + g.config.queue_expiry_secs <= u64::MAX
        }
    }

    /// What a waiting swap comes to, without recording anything.
    fn attempt(&self, config: SlippageConfig, swap: QueuedSwap, now: u64, balance: i128, stored_len: u128) -> (r: Result<
        SwapOutcome,
        MatchingPoolError,
    >)
        requires
            swap_fits(swap.amount, swap.from_token, swap.to_token),
        ensures
            r == self.protected_swap(
                config,
                swap.round_id,
                swap.from_token,
                swap.to_token,
                swap.amount,
                swap.min_received,
                now,
                balance,
                stored_len as int,
                0,
            ),
    {
        match self.rounds.get(&swap.round_id) {
            None => {
                return Err(MatchingPoolError::RoundNotFound);
            },
            Some(round) => {
                if !round.is_active {
                    return Err(MatchingPoolError::RoundNotActive);
                }
            },
        }
        let spread = Self::simulate_dex_spread(swap.from_token, swap.to_token, now);
        if spread.confidence_bps < config.spread_confidence_threshold {
            return Err(MatchingPoolError::DexQueryFailed);
        }
        let expected_output = Self::calculate_swap_output(swap.amount, &spread);
        proof {
            let output = swap.amount * spread.ask_price / (MATCHING_PRECISION as int);
            let factor: int = if swap.amount > spread.liquidity_depth / 10 { 9800 } else { 10000 };
            assert(output * factor / 10000 <= output) by (nonlinear_arith)
                requires
                    output >= 0,
                    0 <= factor <= 10000,
            ;
            assert(expected_output * 10000 <= u128::MAX) by (nonlinear_arith)
                requires
                    expected_output <= output,
                    output * 10000 <= u128::MAX,
            ;
        }
        let slippage_bps = Self::calculate_slippage_bps(swap.amount, expected_output, swap.min_received)?;
        if slippage_bps > config.max_slippage_bps {
            if !config.auto_queue_enabled {
                return Err(MatchingPoolError::SlippageExceedsThreshold);
            }
            if stored_len >= SWAP_QUEUE_MAX_SIZE as u128 {
                return Err(MatchingPoolError::SwapQueueFull);
            }
            return Ok(SwapOutcome::Queued(0));
        }
        if spread.liquidity_depth < config.min_liquidity_threshold {
            return Err(MatchingPoolError::InsufficientLiquidity);
        }
        let output = Self::execute_dex_swap(swap.from_token, swap.to_token, swap.amount, swap.min_received, now, balance)?;
        Ok(SwapOutcome::Executed(output))
    }

    /// Works through the swap queue at `now`, the contract holding `balances`
    /// of each token, and returns the ids of the swaps that went through or
    /// were queued again (see `queue_run`).
    #[verifier::rlimit(50)]
    pub fn process_queued_swaps(&mut self, admin: Address, now: u64, balances: &HashMap<u64, i128>) -> (r: Result<
        Vec<u64>,
        MatchingPoolError,
    >)
        requires
            old(self).wf(),
            old(self).queue_processing_fits(now),
        ensures
            final(self).wf(),
            r is Err <==> old(self).auth_error(admin) is Some,
            r matches Err(e) ==> old(self).auth_error(admin) == Some(e),
            r is Err ==> final(self).slippage_guard == old(self).slippage_guard,
            r matches Ok(v) ==> {
                let run = old(self).queue_processing(now, balances@);
                let before = old(self).slippage_guard.unwrap();
                let after = final(self).slippage_guard.unwrap();
                &&& final(self).slippage_guard is Some
                &&& v@ == run.3
                &&& after.swap_queue@ == run.0
                &&& after.active_swaps@ == run.1
                &&& after.total_queued_amount == run.2
                &&& after.config == before.config
                &&& after.next_swap_id == before.next_swap_id
                &&& after.last_dex_query == before.last_dex_query
                &&& after.dex_query_count == before.dex_query_count
                &&& forall|x: u64| #[trigger] after.swap_queue@.contains(x) ==> before.swap_queue@.contains(x)
                &&& keeps_order(after.swap_queue@, before.swap_queue@)
                &&& v@.no_duplicates()
                &&& forall|x: u64| #[trigger] v@.contains(x) ==> before.swap_queue@.contains(x)
                    && !after.swap_queue@.contains(x) && !after.active_swaps@.contains_key(x)
            },
            final(self).admin == old(self).admin,
            final(self).rounds@ == old(self).rounds@,
            final(self).price_feed == old(self).price_feed,
            final(self).project_donations@ == old(self).project_donations@,
            final(self).user_donations@ == old(self).user_donations@,
            final(self).round_projects@ == old(self).round_projects@,
    {
        self.require_admin_auth(admin)?;
        let mut g = self.slippage_guard.take().unwrap();
        let ghost g0 = g;
        let config = g.config;
        let mut processed: Vec<u64> = Vec::new();
        let mut stored_len: u128 = g.swap_queue.len() as u128;
        let mut i: usize = 0;
        while i < g.swap_queue.len()
            invariant
                guard_wf(g),
                g.config == config,
                config == g0.config,
                g.next_swap_id == g0.next_swap_id,
                g.last_dex_query == g0.last_dex_query,
                g.dex_query_count == g0.dex_query_count,
                self.rounds@ == old(self).rounds@,
                forall|k: u64| #[trigger] g.active_swaps@.contains_key(k) ==> g0.active_swaps@.contains_key(k)
                    && g.active_swaps@[k].amount == g0.active_swaps@[k].amount
                    && g.active_swaps@[k].from_token == g0.active_swaps@[k].from_token
                    && g.active_swaps@[k].to_token == g0.active_swaps@[k].to_token,
                forall|k: u64| #[trigger] g0.active_swaps@.contains_key(k) ==> swap_fits(
                    g0.active_swaps@[k].amount,
                    g0.active_swaps@[k].from_token,
                    g0.active_swaps@[k].to_token,
                ),
                g.swap_queue@.len() + processed@.len() <= g0.swap_queue@.len(),
                stored_len <= g0.swap_queue@.len() + processed@.len(),
                old(self).rounds@ == self.rounds@,
                old(self).queue_run(config, g.swap_queue@, g.active_swaps@, g.total_queued_amount as int, processed@, i as int, stored_len as int, now, balances@)
                    == old(self).queue_processing(now, balances@),
            decreases g.swap_queue.len() + 2 - i,
        {
            let id = g.swap_queue[i];
            assert(g.active_swaps@.contains_key(g.swap_queue@[i as int]));
            let swap = *g.active_swaps.get(&id).unwrap();
            let ghost q = g.swap_queue@;
            let ghost act = g.active_swaps@;
            proof {
                old(self).lemma_queue_run_step(config, q, act, g.total_queued_amount as int, processed@, i as int, stored_len as int, now, balances@);
            }
            if now > swap.expires_at {
                drop_queued(&mut g, i);
            } else {
                let balance = match balances.get(&swap.from_token.0) {
                    Some(b) => *b,
                    None => 0,
                };
                assert(swap_fits(swap.amount, swap.from_token, swap.to_token)) by {
                    assert(g0.active_swaps@.contains_key(id));
                }
                let outcome = Self::attempt(self, config, swap, now, balance, stored_len);
                assert(self.rounds@ == old(self).rounds@);
                match outcome {
                    Ok(o) => {
                        drop_queued(&mut g, i);
                        processed.push(id);
                        if let SwapOutcome::Queued(_) = o {
                            stored_len = stored_len + 1;
                        }
                    },
                    Err(MatchingPoolError::SlippageExceedsThreshold) => {
                        let retries = swap.retry_count + 1;
                        if retries >= swap.max_retries {
                            drop_queued(&mut g, i);
                        } else {
                            g.active_swaps.insert(id, QueuedSwap { retry_count: retries, ..swap });
                            proof {
                                assert forall|j: int| 0 <= j < q.len() implies g.active_swaps@[#[trigger] q[j]].amount
                                    == act[q[j]].amount by {}
                                lemma_queued_sum_unlisted(q, act, g.active_swaps@);
                                assert(g.active_swaps@.dom() =~= act.dom());
                            }
                            i = i + 1;
                        }
                    },
                    Err(_) => {
                        i = i + 1;
                    },
                }
            }
        }
        proof {
            old(self).lemma_queue_run_done(config, g.swap_queue@, g.active_swaps@, g.total_queued_amount as int, processed@, i as int, stored_len as int, now, balances@);
            old(self).lemma_queue_run_laws(config, g0.swap_queue@, g0.active_swaps@, g0.total_queued_amount as int,
                Seq::empty(), 0, g0.swap_queue@.len() as int, now, balances@);
        }
        self.slippage_guard = Some(g);
        Ok(processed)
    }
}

/// Takes the swap at position `i` out of the queue.
fn drop_queued(g: &mut SlippageGuard, i: usize)
    requires
        guard_wf(*old(g)),
        i < old(g).swap_queue@.len(),
    ensures
        guard_wf(*final(g)),
        final(g).swap_queue@ == old(g).swap_queue@.remove(i as int),
        final(g).active_swaps@ == old(g).active_swaps@.remove(old(g).swap_queue@[i as int]),
        final(g).total_queued_amount == old(g).total_queued_amount - old(g).active_swaps@[old(g).swap_queue@[i as int]].amount,
        final(g).config == old(g).config,
        final(g).next_swap_id == old(g).next_swap_id,
        final(g).last_dex_query == old(g).last_dex_query,
        final(g).dex_query_count == old(g).dex_query_count,
{
    let ghost q = g.swap_queue@;
    let ghost act = g.active_swaps@;
    let id = g.swap_queue[i];
    assert(act.contains_key(q[i as int]));
    let amount = g.active_swaps.get(&id).unwrap().amount;
    proof {
        lemma_queued_sum_remove(q, act, i as int);
    }
    g.active_swaps.remove(&id);
    g.swap_queue.remove(i);
    g.total_queued_amount = g.total_queued_amount - amount;
    proof {
        lemma_guard_after_remove(q, act, i as int, *g);
    }
}

/// Taking the swap at position `i` out of the queue and the map keeps the
/// guard well formed.
proof fn lemma_guard_after_remove(q: Seq<u64>, act: Map<u64, QueuedSwap>, i: int, g: SlippageGuard)
    requires
        0 <= i < q.len(),
        q.no_duplicates(),
        forall|j: int| 0 <= j < q.len() ==> act.contains_key(#[trigger] q[j]),
        forall|k: u64| #[trigger] act.contains_key(k) ==> q.contains(k) && k < g.next_swap_id,
        forall|k: u64| #[trigger] act.contains_key(k) ==> act[k].retry_count < act[k].max_retries,
        g.swap_queue@ == q.remove(i),
        g.active_swaps@ == act.remove(q[i]),
        g.total_queued_amount == queued_sum(q.remove(i), act.remove(q[i])),
    ensures
        guard_wf(g),
{
    let id = q[i];
    let r = q.remove(i);
    assert forall|a: int, b: int| 0 <= a < b < r.len() implies r[a] != r[b] by {
        let ia = if a < i { a } else { a + 1 };
        let ib = if b < i { b } else { b + 1 };
        assert(r[a] == q[ia] && r[b] == q[ib]);
    }
    assert forall|j: int| 0 <= j < r.len() implies g.active_swaps@.contains_key(#[trigger] r[j]) by {
        let ij = if j < i { j } else { j + 1 };
        assert(r[j] == q[ij]);
        assert(act.contains_key(q[ij]));
    }
    assert forall|k: u64| #[trigger] g.active_swaps@.contains_key(k) implies g.swap_queue@.contains(k) && k < g.next_swap_id by {
        assert(act.contains_key(k));
        let t = choose|t: int| 0 <= t < q.len() && #[trigger] q[t] == k;
        assert(t != i);
        if t < i {
            assert(r[t] == k);
        } else {
            assert(r[t - 1] == k);
        }
    }
}

} // verus!
