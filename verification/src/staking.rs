//! Staking-boosted quadratic funding: donors who stake the project's token
//! get their donations weighted up.
use vstd::prelude::*;
use std::collections::HashMap;
use crate::arith::{floor_sqrt, is_floor_sqrt};
use crate::types::{Address, pair_key, make_pair_key};
use crate::matching::{MultiTokenMatchingPool, quadratic_matching, quadratic_fits};

verus! {

broadcast use vstd::std_specs::hash::group_hash_axioms;

/// Errors of the staking multiplier.
#[derive(Debug, Clone, Copy, PartialEq, Eq, Structural)]
pub enum StakingMultiplierError {
    NotInitialized,
    Unauthorized,
    VestingVaultNotFound,
    VestingQueryFailed,
    InvalidStakeAmount,
    StakeTooLow,
    StakeTooHigh,
    InvalidProjectToken,
    MathOverflow,
    InsufficientMatchingPool,
    InvalidMultiplier,
    QueryTimeout,
}

/// Precision of staking weights: 1e6 is 1.0x.
pub const STAKING_WEIGHT_PRECISION: u128 = 1_000_000;
/// Weight without boost: 1.0x.
pub const BASE_MATCHING_WEIGHT: u128 = 1_000_000;
/// Largest boost: 3.0x.
pub const MAX_BOOST_MULTIPLIER: u128 = 3_000_000;
/// Smallest stake that earns a boost.
pub const MIN_STAKE_FOR_BOOST: u128 = 100_000;
pub const BOOST_TIER_1_THRESHOLD: u128 = 100_000;
pub const BOOST_TIER_2_THRESHOLD: u128 = 1_000_000;
pub const BOOST_TIER_3_THRESHOLD: u128 = 10_000_000;
pub const BOOST_TIER_4_THRESHOLD: u128 = 100_000_000;
/// Seconds a vesting query may take.
pub const VESTING_QUERY_TIMEOUT: u64 = 30;
/// Largest staking weight, in basis points: 2x.
pub const MAX_STAKING_WEIGHT_BPS: u32 = 20000;
/// Precision of the quadratic weights.
pub const QUADRATIC_PRECISION: u128 = 1_000_000;
/// How long cached stakes stay valid: 24 hours.
pub const STAKE_CACHE_TTL: u64 = 86400;
/// Lock period recorded for a queried stake: 30 days.
pub const STAKE_LOCK_DURATION: u64 = 2592000;

/// A donor's stake in a project token, as the vesting vault reports it.
#[derive(Debug, Clone, Copy, PartialEq, Eq, Structural)]
pub struct StakingInfo {
    pub donor: Address,
    pub project_token: Address,
    pub staked_amount: u128,
    pub vesting_end_time: u64,
    pub lock_duration: u64,
    /// Boost earned, with six decimals (1_000_000 is 1.0x).
    pub weight_multiplier: u128,
    pub last_updated: u64,
}

/// A donation to a project.
#[derive(Debug, Clone, Copy, PartialEq, Eq, Structural)]
pub struct Donation {
    pub donor: Address,
    pub token_address: Address,
    pub amount: u128,
    /// Value in native token units.
    pub normalized_value: u128,
    pub timestamp: u64,
    pub round_id: u64,
    pub project_id: u64,
}

/// A donation with the donor's staking weight applied.
#[derive(Debug, Clone, Copy, PartialEq, Eq, Structural)]
pub struct WeightedDonation {
    pub base_donation: Donation,
    pub staking_weight: u128,
    pub weighted_amount: u128,
    /// Boost derived from the staking weight (1_200_000 is 1.2x).
    pub boost_multiplier: u128,
    pub staking_info: Option<StakingInfo>,
}

/// A project's donations with and without staking weights.
#[derive(Debug, Clone, PartialEq, Eq)]
pub struct WeightedProjectDonations {
    pub project_id: u64,
    pub base_total: u128,
    pub weighted_total: u128,
    pub unique_donors: u32,
    pub weighted_donations: Vec<WeightedDonation>,
    pub matching_amount: u128,
    pub final_payout: u128,
    pub total_boost_applied: u128,
}

/// A request to the vesting vault.
#[derive(Debug, Clone, Copy, PartialEq, Eq, Structural)]
pub struct VestingVaultQuery {
    pub donor: Address,
    pub project_token: Address,
    pub query_timestamp: u64,
    pub response_timestamp: Option<u64>,
    pub staked_amount: Option<u128>,
    pub vesting_end_time: Option<u64>,
    pub status: QueryStatus,
}

/// Where a vesting query stands.
#[derive(Debug, Clone, Copy, PartialEq, Eq, Structural)]
pub enum QueryStatus {
    Pending,
    Success,
    Failed,
    Timeout,
}

/// Storage keys of the contract.
#[derive(Debug, Clone, Copy, PartialEq, Eq, Structural)]
pub enum StakingMultiplierDataKey {
    Admin,
    VestingVaultContract,
    NextQueryId,
    VestingQuery(u64),
    DonorStakeCache(Address, Address),
    ProjectToken(Address),
    StakingWeights(Address),
    CacheExpiry(u64),
}

/// Boost applied to a donor's matching weight for a staked amount, with six
/// decimals of precision: 1.0x below 0.1 token, then 1.2x, 1.5x, 2x and 3x at
/// 0.1, 1, 10 and 100 tokens.
pub open spec fn boost_spec(staked: int) -> int {
    if staked < 100_000 {
        1_000_000
    } else if staked >= 100_000_000 {
        3_000_000
    } else if staked >= 10_000_000 {
        2_000_000
    } else if staked >= 1_000_000 {
        1_500_000
    } else {
        1_200_000
    }
}

/// The boost tiers: 1.0x below `BOOST_TIER_1_THRESHOLD`, 1.2x from it, 1.5x
/// from `BOOST_TIER_2_THRESHOLD`, 2.0x from `BOOST_TIER_3_THRESHOLD` and 3.0x
/// (`MAX_BOOST_MULTIPLIER`) from `BOOST_TIER_4_THRESHOLD`; each tier holds up
/// to the next threshold.
pub proof fn lemma_boost_tiers(staked: int)
    ensures
        staked < BOOST_TIER_1_THRESHOLD ==> boost_spec(staked) == BASE_MATCHING_WEIGHT,
        BOOST_TIER_1_THRESHOLD <= staked < BOOST_TIER_2_THRESHOLD ==> boost_spec(staked) == 1_200_000,
        BOOST_TIER_2_THRESHOLD <= staked < BOOST_TIER_3_THRESHOLD ==> boost_spec(staked) == 1_500_000,
        BOOST_TIER_3_THRESHOLD <= staked < BOOST_TIER_4_THRESHOLD ==> boost_spec(staked) == 2_000_000,
        BOOST_TIER_4_THRESHOLD <= staked ==> boost_spec(staked) == MAX_BOOST_MULTIPLIER,
{
}

/// A larger stake never earns a smaller boost, and every boost lies between
/// 1.0x and 3.0x.
pub proof fn lemma_boost_monotone(a: int, b: int)
    requires
        a <= b,
    ensures
        boost_spec(a) <= boost_spec(b),
        1_000_000 <= boost_spec(a) <= 3_000_000,
{
}

/// The stake the simulated vesting vault reports for `donor`: the two low
/// bytes of the donor's identity (the leading bytes of its address), weighted
/// 10000 and 1000.
pub open spec fn simulated_stake(donor: Address) -> u128 {
    ((donor.0 % 256) * 10000 + ((donor.0 / 256) % 256) * 1000) as u128
}

/// Key of the cached stake of `donor` in `token`.
pub open spec fn cache_key(donor: Address, token: Address) -> u128 {
    pair_key(donor.0, token.0)
}

/// The query bookkeeping and stake cache, as values.
pub struct StakeState {
    pub next_query_id: u64,
    pub queries: Map<u64, VestingVaultQuery>,
    pub cache: Map<u128, StakingInfo>,
    /// Cached stakes are valid before this time; zero when unset.
    pub cache_expiry: u64,
}

/// The cached stake of `donor` in `token`, when there is one and the cache
/// has not expired at `now`.
pub open spec fn valid_cached(s: StakeState, donor: Address, token: Address, now: u64) -> Option<StakingInfo> {
    if s.cache.contains_key(cache_key(donor, token)) && now < s.cache_expiry {
        Some(s.cache[cache_key(donor, token)])
    } else {
        None
    }
}

/// The stake record cached by a query of `donor` in `token` at `now`.
pub open spec fn fresh_info(donor: Address, token: Address, now: u64) -> StakingInfo {
    StakingInfo {
        donor,
        project_token: token,
        staked_amount: simulated_stake(donor),
        vesting_end_time: (now + STAKE_LOCK_DURATION) as u64,
        lock_duration: STAKE_LOCK_DURATION,
        weight_multiplier: boost_spec(simulated_stake(donor) as int) as u128,
        last_updated: now,
    }
}

/// `s` after querying the vault for `donor` in `token` at `now`: the query is
/// recorded as answered, the stake cached, and the cache renewed for a day.
pub open spec fn after_query(s: StakeState, donor: Address, token: Address, now: u64) -> StakeState {
    StakeState {
        next_query_id: (s.next_query_id + 1) as u64,
        queries: s.queries.insert(s.next_query_id, VestingVaultQuery {
            donor,
            project_token: token,
            query_timestamp: now,
            response_timestamp: Some(now),
            staked_amount: Some(simulated_stake(donor)),
            vesting_end_time: None,
            status: QueryStatus::Success,
        }),
        cache: s.cache.insert(cache_key(donor, token), fresh_info(donor, token, now)),
        cache_expiry: (now + STAKE_CACHE_TTL) as u64,
    }
}

/// The staking weight of `donor` in `token` at `now`, and the state after:
/// the valid cached weight, or else a fresh query when `token` is supported.
pub open spec fn weight_lookup(s: StakeState, supported: bool, donor: Address, token: Address, now: u64) -> (StakeState, Result<u128, StakingMultiplierError>) {
    match valid_cached(s, donor, token, now) {
        Some(info) => (s, Ok(info.weight_multiplier)),
        None => if !supported {
            (s, Err(StakingMultiplierError::InvalidProjectToken))
        } else {
            (after_query(s, donor, token, now), Ok(boost_spec(simulated_stake(donor) as int) as u128))
        },
    }
}

/// Donation `d` weighted by `weight`, with the stake cached in `s`.
pub open spec fn weighted_entry(s: StakeState, d: Donation, token: Address, weight: u128) -> WeightedDonation {
    WeightedDonation {
        base_donation: d,
        staking_weight: weight,
        weighted_amount: (d.normalized_value * weight / (STAKING_WEIGHT_PRECISION as int)) as u128,
        boost_multiplier: boost_spec(weight as int) as u128,
        staking_info: if s.cache.contains_key(cache_key(d.donor, token)) {
            Some(s.cache[cache_key(d.donor, token)])
        } else {
            None
        },
    }
}

/// Weighting `ds` in order, starting from `s`: the state after, and the
/// weighted donations or the first error.
pub open spec fn weights_run(s: StakeState, supported: bool, ds: Seq<Donation>, token: Address, now: u64) -> (StakeState, Result<Seq<WeightedDonation>, StakingMultiplierError>)
    decreases ds.len(),
{
    if ds.len() == 0 {
        (s, Ok(Seq::empty()))
    } else {
        let prev = weights_run(s, supported, ds.drop_last(), token, now);
        match prev.1 {
            Err(e) => prev,
            Ok(ws) => {
                let d = ds.last();
                let step = weight_lookup(prev.0, supported, d.donor, token, now);
                match step.1 {
                    Err(e) => (step.0, Err(e)),
                    Ok(w) => if d.normalized_value * w > u128::MAX {
                        (step.0, Err(StakingMultiplierError::MathOverflow))
                    } else {
                        (step.0, Ok(ws.push(weighted_entry(step.0, d, token, w))))
                    },
                }
            },
        }
    }
}

/// Once weighting a prefix fails, weighting the whole fails the same way.
proof fn lemma_run_error_sticks(s: StakeState, supported: bool, ds: Seq<Donation>, token: Address, now: u64, i: int)
    requires
        0 <= i <= ds.len(),
        weights_run(s, supported, ds.take(i), token, now).1 is Err,
    ensures
        weights_run(s, supported, ds, token, now).1 == weights_run(s, supported, ds.take(i), token, now).1,
    decreases ds.len() - i,
{
    if i == ds.len() {
        assert(ds.take(i) =~= ds);
    } else {
        assert(ds.take(i + 1).drop_last() =~= ds.take(i));
        lemma_run_error_sticks(s, supported, ds, token, now, i + 1);
    }
}

/// Matching after solvency protection: projects in order receive their
/// matching until one would exceed the pool; that one receives what is left,
/// if anything, and the rest nothing. Projects without matching are skipped.
pub open spec fn capped_from(ids: Seq<u64>, ms: Seq<Option<u128>>, pool: u128, i: int, allocated: int) -> Seq<(u64, u128)>
    decreases ids.len() - i,
{
    if i < 0 || i >= ids.len() {
        Seq::empty()
    } else {
        match ms[i] {
            None => capped_from(ids, ms, pool, i + 1, allocated),
            Some(m) => if allocated + m > pool {
                if pool - allocated > 0 {
                    seq![(ids[i], (pool - allocated) as u128)]
                } else {
                    Seq::empty()
                }
            } else {
                seq![(ids[i], m)] + capped_from(ids, ms, pool, i + 1, allocated + m)
            },
        }
    }
}

/// Total of the amounts in `payouts`.
pub open spec fn total_paid(payouts: Seq<(u64, u128)>) -> int
    decreases payouts.len(),
{
    if payouts.len() == 0 {
        0
    } else {
        payouts[0].1 + total_paid(payouts.drop_first())
    }
}

/// Solvency: the capped matching never pays out more than what is left of
/// the pool.
pub proof fn lemma_capped_within_pool(ids: Seq<u64>, ms: Seq<Option<u128>>, pool: u128, i: int, allocated: int)
    requires
        0 <= allocated <= pool,
    ensures
        total_paid(capped_from(ids, ms, pool, i, allocated)) <= pool - allocated,
        total_paid(capped_from(ids, ms, pool, i, allocated)) >= 0,
    decreases ids.len() - i,
{
    if i < 0 || i >= ids.len() {
        assert(total_paid(Seq::<(u64, u128)>::empty()) == 0);
    } else {
        match ms[i] {
            None => {
                lemma_capped_within_pool(ids, ms, pool, i + 1, allocated);
            },
            Some(m) => {
                if allocated + m > pool {
                    if pool - allocated > 0 {
                        let one = seq![(ids[i], (pool - allocated) as u128)];
                        assert(one.drop_first() =~= Seq::<(u64, u128)>::empty());
                        assert(total_paid(Seq::<(u64, u128)>::empty()) == 0);
                        assert(total_paid(one) == one[0].1 + total_paid(one.drop_first()));
                    } else {
                        assert(total_paid(Seq::<(u64, u128)>::empty()) == 0);
                    }
                } else {
                    let rest = capped_from(ids, ms, pool, i + 1, allocated + m);
                    lemma_capped_within_pool(ids, ms, pool, i + 1, allocated + m);
                    let all = seq![(ids[i], m)] + rest;
                    assert(all.drop_first() =~= rest);
                    assert(total_paid(all) == all[0].1 + total_paid(all.drop_first()));
                }
            },
        }
    }
}

/// Every payout of the capped matching goes to a project, from position `i`
/// on, that was given a matching amount.
proof fn lemma_capped_keys(ids: Seq<u64>, ms: Seq<Option<u128>>, pool: u128, i: int, allocated: int)
    requires
        ms.len() == ids.len(),
    ensures
        forall|k: int| 0 <= k < capped_from(ids, ms, pool, i, allocated).len() ==> exists|j: int|
            #![trigger ids[j]] i <= j < ids.len() && 0 <= j && ids[j] == (#[trigger] capped_from(ids, ms, pool, i, allocated)[k]).0
            && ms[j] is Some,
    decreases ids.len() - i,
{
    let c = capped_from(ids, ms, pool, i, allocated);
    if i < 0 || i >= ids.len() {
    } else {
        match ms[i] {
            None => {
                lemma_capped_keys(ids, ms, pool, i + 1, allocated);
                let next = capped_from(ids, ms, pool, i + 1, allocated);
                assert(c == next);
                assert forall|k: int| 0 <= k < c.len() implies exists|j: int|
                    #![trigger ids[j]] i <= j < ids.len() && 0 <= j && ids[j] == (#[trigger] c[k]).0 && ms[j] is Some by {
                    assert(next[k] == c[k]);
                    let j = choose|j: int| #![trigger ids[j]] i + 1 <= j < ids.len() && 0 <= j && ids[j] == c[k].0 && ms[j] is Some;
                    assert(ids[j] == c[k].0);
                }
            },
            Some(m) => {
                if allocated + m > pool {
                    assert forall|k: int| 0 <= k < c.len() implies exists|j: int|
                        #![trigger ids[j]] i <= j < ids.len() && 0 <= j && ids[j] == (#[trigger] c[k]).0 && ms[j] is Some by {
                        assert(ids[i] == c[k].0);
                    }
                } else {
                    let rest = capped_from(ids, ms, pool, i + 1, allocated + m);
                    lemma_capped_keys(ids, ms, pool, i + 1, allocated + m);
                    assert forall|k: int| 0 <= k < c.len() implies exists|j: int|
                        #![trigger ids[j]] i <= j < ids.len() && 0 <= j && ids[j] == (#[trigger] c[k]).0 && ms[j] is Some by {
                        if k == 0 {
                            assert(ids[i] == c[k].0);
                        } else {
                            assert(c[k] == rest[k - 1]);
                            assert(0 <= k - 1 < rest.len());
                            let j = choose|j: int| #![trigger ids[j]] i + 1 <= j < ids.len() && 0 <= j && ids[j] == rest[k - 1].0 && ms[j] is Some;
                            assert(ids[j] == c[k].0);
                        }
                    }
                }
            },
        }
    }
}

/// With no project given a matching amount, nothing is paid.
proof fn lemma_capped_none(ids: Seq<u64>, ms: Seq<Option<u128>>, pool: u128, i: int, allocated: int)
    requires
        forall|j: int| 0 <= j < ms.len() ==> #[trigger] ms[j] is None,
        ms.len() == ids.len(),
    ensures
        capped_from(ids, ms, pool, i, allocated).len() == 0,
    decreases ids.len() - i,
{
    if 0 <= i < ids.len() {
        lemma_capped_none(ids, ms, pool, i + 1, allocated);
    }
}

/// Weighted matching pays only projects with staking-weighted donations: each
/// payout goes to a listed project whose weighted total is positive, and when
/// no project has any, nothing is paid.
pub proof fn lemma_weighted_matching_pays_weighted_projects(ps: Seq<WeightedProjectDonations>, pool: u128, coefficient: u128)
    ensures
        ({
            let ids = ps.map_values(|p: WeightedProjectDonations| p.project_id);
            let totals = ps.map_values(|p: WeightedProjectDonations| p.weighted_total);
            let paid = capped_from(ids, quadratic_matching(totals, pool, coefficient), pool, 0, 0);
            &&& forall|k: int| 0 <= k < paid.len() ==> exists|j: int|
                #![trigger ps[j]] 0 <= j < ps.len() && ps[j].project_id == (#[trigger] paid[k]).0 && ps[j].weighted_total > 0
            &&& (forall|j: int| 0 <= j < ps.len() ==> #[trigger] ps[j].weighted_total == 0) ==> paid.len() == 0
        }),
{
    let ids = ps.map_values(|p: WeightedProjectDonations| p.project_id);
    let totals = ps.map_values(|p: WeightedProjectDonations| p.weighted_total);
    let ms = quadratic_matching(totals, pool, coefficient);
    let paid = capped_from(ids, ms, pool, 0, 0);
    lemma_capped_keys(ids, ms, pool, 0, 0);
    assert forall|k: int| 0 <= k < paid.len() implies exists|j: int|
        #![trigger ps[j]] 0 <= j < ps.len() && ps[j].project_id == (#[trigger] paid[k]).0 && ps[j].weighted_total > 0 by {
        let j = choose|j: int| #![trigger ids[j]] 0 <= j < ids.len() && ids[j] == paid[k].0 && ms[j] is Some;
        assert(ids[j] == ps[j].project_id);
        assert(totals[j] == ps[j].weighted_total);
    }
    if forall|j: int| 0 <= j < ps.len() ==> #[trigger] ps[j].weighted_total == 0 {
        assert forall|j: int| 0 <= j < ms.len() implies #[trigger] ms[j] is None by {
            assert(totals[j] == ps[j].weighted_total);
        }
        lemma_capped_none(ids, ms, pool, 0, 0);
    }
}

/// The vault queries and stake cache.
pub struct StakeCache {
    pub next_query_id: u64,
    pub queries: HashMap<u64, VestingVaultQuery>,
    pub stakes: HashMap<u128, StakingInfo>,
    pub cache_expiry: u64,
}

impl View for StakeCache {
    type V = StakeState;

    open spec fn view(&self) -> StakeState {
        StakeState {
            next_query_id: self.next_query_id,
            queries: self.queries@,
            cache: self.stakes@,
            cache_expiry: self.cache_expiry,
        }
    }
}

impl StakeCache {
    /// A copy of this cache.
    pub fn duplicate(&self) -> (r: StakeCache)
        ensures
            r@ == self@,
    {
        StakeCache {
            next_query_id: self.next_query_id,
            queries: self.queries.clone(),
            stakes: self.stakes.clone(),
            cache_expiry: self.cache_expiry,
        }
    }

    /// The cached stake of `donor` in `token`, if any.
    pub fn cached(&self, donor: Address, token: Address) -> (r: Option<StakingInfo>)
        ensures
            r == (if self@.cache.contains_key(cache_key(donor, token)) {
                Some(self@.cache[cache_key(donor, token)])
            } else {
                None
            }),
    {
        let key = make_pair_key(donor.0, token.0);
        match self.stakes.get(&key) {
            Some(info) => Some(*info),
            None => None,
        }
    }

    /// The cached stake when still valid at `now`.
    pub fn valid(&self, donor: Address, token: Address, now: u64) -> (r: Option<StakingInfo>)
        ensures
            r == valid_cached(self@, donor, token, now),
    {
        match self.cached(donor, token) {
            Some(info) => if now < self.cache_expiry {
                Some(info)
            } else {
                None
            },
            None => None,
        }
    }

    /// Queries the vault for `donor` in `token` at `now` and caches the
    /// answer; returns the boost of the reported stake.
    pub fn record_query(&mut self, donor: Address, token: Address, now: u64) -> (r: u128)
        requires
            old(self).next_query_id < u64::MAX,
            now + STAKE_LOCK_DURATION <= u64::MAX,
        ensures
            final(self)@ == after_query(old(self)@, donor, token, now),
            r == boost_spec(simulated_stake(donor) as int),
    {
        let query_id = self.next_query_id;
        self.next_query_id = query_id + 1;
        let query = VestingVaultQuery {
            donor,
            project_token: token,
            query_timestamp: now,
            response_timestamp: None,
            staked_amount: None,
            vesting_end_time: None,
            status: QueryStatus::Pending,
        };
        self.queries.insert(query_id, query);
        let stake = StakingMultiplierContract::simulate_vesting_query(donor);
        let answered = VestingVaultQuery {
            response_timestamp: Some(now),
            status: QueryStatus::Success,
            staked_amount: Some(stake),
            ..query
        };
        self.queries.insert(query_id, answered);
        let info = StakingInfo {
            donor,
            project_token: token,
            staked_amount: stake,
            vesting_end_time: now + STAKE_LOCK_DURATION,
            lock_duration: STAKE_LOCK_DURATION,
            weight_multiplier: StakingMultiplierContract::calculate_boost_multiplier(stake),
            last_updated: now,
        };
        let key = make_pair_key(donor.0, token.0);
        self.stakes.insert(key, info);
        self.cache_expiry = now + STAKE_CACHE_TTL;
        proof {
            assert(self.queries@ =~= old(self).queries@.insert(old(self).next_query_id, answered));
        }
        info.weight_multiplier
    }

    /// The staking weight of `donor` in `token` at `now`: the valid cached
    /// weight, or a fresh query when `supported`.
    pub fn lookup_weight(&mut self, supported: bool, donor: Address, token: Address, now: u64) -> (r: Result<u128, StakingMultiplierError>)
        requires
            old(self).next_query_id < u64::MAX,
            now + STAKE_LOCK_DURATION <= u64::MAX,
        ensures
            (final(self)@, r) == weight_lookup(old(self)@, supported, donor, token, now),
    {
        match self.valid(donor, token, now) {
            Some(info) => Ok(info.weight_multiplier),
            None => {
                if !supported {
                    return Err(StakingMultiplierError::InvalidProjectToken);
                }
                let w = self.record_query(donor, token, now);
                Ok(w)
            },
        }
    }
}

/// The staking multiplier contract: boosts the matching weight of donors who
/// stake the project's token in a vesting vault.
pub struct StakingMultiplierContract {
    pub admin: Option<Address>,
    pub vesting_vault_contract: Option<Address>,
    /// Supported project tokens, by identity.
    pub project_tokens: HashMap<u64, bool>,
    pub stake: StakeCache,
}

impl StakingMultiplierContract {
    /// Whether `token` is a supported project token.
    pub open spec fn supports(&self, token: Address) -> bool {
        self.project_tokens@.contains_key(token.0)
    }

    /// A contract not yet initialized.
    pub fn new() -> (r: Self)
        ensures
            r.admin is None,
            r.vesting_vault_contract is None,
            r.project_tokens@ == Map::<u64, bool>::empty(),
            r.stake@.next_query_id == 1,
            r.stake@.queries == Map::<u64, VestingVaultQuery>::empty(),
            r.stake@.cache == Map::<u128, StakingInfo>::empty(),
            r.stake@.cache_expiry == 0,
    {
        StakingMultiplierContract {
            admin: None,
            vesting_vault_contract: None,
            project_tokens: HashMap::new(),
            stake: StakeCache {
                next_query_id: 1,
                queries: HashMap::new(),
                stakes: HashMap::new(),
                cache_expiry: 0,
            },
        }
    }

    /// Sets the admin and the vesting vault; a second initialization is
    /// refused (with `NotInitialized`, as the contract reports it).
    pub fn initialize(&mut self, admin: Address, vesting_vault_contract: Address) -> (r: Result<(), StakingMultiplierError>)
        ensures
            old(self).admin is Some <==> r is Err,
            r is Err ==> r == Err::<(), StakingMultiplierError>(StakingMultiplierError::NotInitialized)
                && final(self).admin == old(self).admin
                && final(self).vesting_vault_contract == old(self).vesting_vault_contract
                && final(self).stake@ == old(self).stake@,
            r is Ok ==> final(self).admin == Some(admin)
                && final(self).vesting_vault_contract == Some(vesting_vault_contract)
                && final(self).stake@ == (StakeState { next_query_id: 1, ..old(self).stake@ }),
            final(self).project_tokens@ == old(self).project_tokens@,
    {
        if self.admin.is_some() {
            return Err(StakingMultiplierError::NotInitialized);
        }
        self.admin = Some(admin);
        self.vesting_vault_contract = Some(vesting_vault_contract);
        self.stake.next_query_id = 1;
        Ok(())
    }

    fn require_admin(&self, admin: Address) -> (r: Result<(), StakingMultiplierError>)
        ensures
            self.admin is None ==> r == Err::<(), StakingMultiplierError>(StakingMultiplierError::NotInitialized),
            self.admin matches Some(a) && a != admin ==> r == Err::<(), StakingMultiplierError>(StakingMultiplierError::Unauthorized),
            r is Ok <==> self.admin == Some(admin),
    {
        match self.admin {
            None => Err(StakingMultiplierError::NotInitialized),
            Some(a) => if a != admin {
                Err(StakingMultiplierError::Unauthorized)
            } else {
                Ok(())
            },
        }
    }

    /// Adds `project_token` to the supported tokens (admin only).
    pub fn add_project_token(&mut self, admin: Address, project_token: Address) -> (r: Result<(), StakingMultiplierError>)
        ensures
            old(self).admin is None ==> r == Err::<(), StakingMultiplierError>(StakingMultiplierError::NotInitialized),
            old(self).admin matches Some(a) && a != admin ==> r == Err::<(), StakingMultiplierError>(StakingMultiplierError::Unauthorized),
            r is Ok <==> old(self).admin == Some(admin),
            r is Ok ==> final(self).project_tokens@ == old(self).project_tokens@.insert(project_token.0, true),
            r is Err ==> final(self).project_tokens@ == old(self).project_tokens@,
            final(self).admin == old(self).admin,
            final(self).stake@ == old(self).stake@,
    {
        self.require_admin(admin)?;
        self.project_tokens.insert(project_token.0, true);
        Ok(())
    }

    fn is_supported(&self, token: Address) -> (r: bool)
        ensures
            r == self.supports(token),
    {
        self.project_tokens.contains_key(&token.0)
    }

    /// The stake the vesting vault reports for `donor`.
    pub fn simulate_vesting_query(donor: Address) -> (r: u128)
        ensures
            r == simulated_stake(donor),
    {
        let low = (donor.0 % 256) as u128;
        let next = ((donor.0 / 256) % 256) as u128;
        low * 10000 + next * 1000
    }

    /// The boost of `donor` in `project_token` at `now`: refused for an
    /// unsupported token; otherwise the cached boost while the cache is
    /// valid, or a fresh query of the vault, recorded and cached for a day.
    pub fn query_vesting_stake(&mut self, donor: Address, project_token: Address, now: u64) -> (r: Result<u128, StakingMultiplierError>)
        requires
            old(self).stake@.next_query_id < u64::MAX,
            now + STAKE_LOCK_DURATION <= u64::MAX,
        ensures
            !old(self).supports(project_token) ==> r == Err::<u128, StakingMultiplierError>(StakingMultiplierError::InvalidProjectToken)
                && final(self).stake@ == old(self).stake@,
            old(self).supports(project_token) ==> (final(self).stake@, r) == weight_lookup(old(self).stake@, true, donor, project_token, now),
            final(self).admin == old(self).admin,
            final(self).project_tokens@ == old(self).project_tokens@,
    {
        if !self.is_supported(project_token) {
            return Err(StakingMultiplierError::InvalidProjectToken);
        }
        self.stake.lookup_weight(true, donor, project_token, now)
    }

    /// The staking weight of `donor` in `project_token` at `now`: the valid
    /// cached weight, or else a query of the vault.
    pub fn get_donor_staking_weight(&mut self, donor: Address, project_token: Address, now: u64) -> (r: Result<u128, StakingMultiplierError>)
        requires
            old(self).stake@.next_query_id < u64::MAX,
            now + STAKE_LOCK_DURATION <= u64::MAX,
        ensures
            (final(self).stake@, r) == weight_lookup(old(self).stake@, old(self).supports(project_token), donor, project_token, now),
            final(self).admin == old(self).admin,
            final(self).project_tokens@ == old(self).project_tokens@,
    {
        let supported = self.is_supported(project_token);
        self.stake.lookup_weight(supported, donor, project_token, now)
    }

    /// The cached stake of `donor` in `project_token`, valid or not.
    pub fn get_cached_staking_info(&self, donor: Address, project_token: Address) -> (r: Option<StakingInfo>)
        ensures
            r == (if self.stake@.cache.contains_key(cache_key(donor, project_token)) {
                Some(self.stake@.cache[cache_key(donor, project_token)])
            } else {
                None
            }),
    {
        self.stake.cached(donor, project_token)
    }

    /// Weights `donations` in order by their donors' staking weights in
    /// `project_token` at `now`: each weighted amount is the normalized value
    /// times the weight over 1e6. Weights are looked up (and queried) as the
    /// donations come; on an error nothing changes.
    pub fn apply_staking_weights(&mut self, donations: &Vec<Donation>, project_token: Address, now: u64) -> (r: Result<Vec<WeightedDonation>, StakingMultiplierError>)
        requires
            old(self).stake@.next_query_id + donations@.len() < u64::MAX,
            now + STAKE_LOCK_DURATION <= u64::MAX,
        ensures
            ({
                let run = weights_run(old(self).stake@, old(self).supports(project_token), donations@, project_token, now);
                &&& r is Ok <==> run.1 is Ok
                &&& r matches Ok(v) ==> run.1 == Ok::<Seq<WeightedDonation>, StakingMultiplierError>(v@) && final(self).stake@ == run.0
                &&& r matches Err(e) ==> run.1 == Err::<Seq<WeightedDonation>, StakingMultiplierError>(e) && final(self).stake@ == old(self).stake@
            }),
            final(self).admin == old(self).admin,
            final(self).project_tokens@ == old(self).project_tokens@,
    {
        let supported = self.is_supported(project_token);
        let ghost start = self.stake@;
        let mut work = self.stake.duplicate();
        let mut out: Vec<WeightedDonation> = Vec::new();
        let mut i: usize = 0;
        while i < donations.len()
            invariant
                i <= donations@.len(),
                start == old(self).stake@,
                supported == old(self).supports(project_token),
                work@.next_query_id <= start.next_query_id + i,
                start.next_query_id + donations@.len() < u64::MAX,
                now + STAKE_LOCK_DURATION <= u64::MAX,
                weights_run(start, supported, donations@.take(i as int), project_token, now)
                    == (work@, Ok::<Seq<WeightedDonation>, StakingMultiplierError>(out@)),
            decreases donations.len() - i,
        {
            let d = donations[i];
            proof {
                assert(donations@.take(i + 1).drop_last() =~= donations@.take(i as int));
                assert(donations@.take(i + 1).last() == d);
            }
            let step = work.lookup_weight(supported, d.donor, project_token, now);
            let w = match step {
                Ok(w) => w,
                Err(e) => {
                    proof {
                        lemma_run_error_sticks(start, supported, donations@, project_token, now, i + 1);
                    }
                    return Err(e);
                },
            };
            let weighted = match d.normalized_value.checked_mul(w) {
                Some(v) => v / STAKING_WEIGHT_PRECISION,
                None => {
                    proof {
                        lemma_run_error_sticks(start, supported, donations@, project_token, now, i + 1);
                    }
                    return Err(StakingMultiplierError::MathOverflow);
                },
            };
            let entry = WeightedDonation {
                base_donation: d,
                staking_weight: w,
                weighted_amount: weighted,
                boost_multiplier: Self::calculate_boost_multiplier(w),
                staking_info: work.cached(d.donor, project_token),
            };
            out.push(entry);
            i = i + 1;
        }
        proof {
            assert(donations@.take(donations@.len() as int) =~= donations@);
        }
        self.stake = work;
        Ok(out)
    }

    /// Weighted quadratic matching of `project_donations`, the entries of a
    /// map by project in key order: each project with weighted donations gets
    /// its quadratic share of `matching_pool * quadratic_coefficient`, in
    /// order, until the pool would be exceeded; the project that would exceed
    /// it gets what is left and later projects nothing. Returns the
    /// (project, matching) entries set.
    pub fn calculate_weighted_matching(
        project_donations: &Vec<WeightedProjectDonations>,
        matching_pool: u128,
        quadratic_coefficient: u128,
    ) -> (r: Result<Vec<(u64, u128)>, StakingMultiplierError>)
        requires
            forall|i: int, j: int| 0 <= i < j < project_donations@.len()
                ==> project_donations@[i].project_id < project_donations@[j].project_id,
            quadratic_fits(
                project_donations@.map_values(|p: WeightedProjectDonations| p.weighted_total),
                matching_pool,
                quadratic_coefficient,
            ),
        ensures
            r matches Ok(v) && v@ == capped_from(
                project_donations@.map_values(|p: WeightedProjectDonations| p.project_id),
                quadratic_matching(
                    project_donations@.map_values(|p: WeightedProjectDonations| p.weighted_total),
                    matching_pool,
                    quadratic_coefficient,
                ),
                matching_pool,
                0,
                0,
            ),
            r matches Ok(v) ==> total_paid(v@) <= matching_pool,
    {
        let ghost ids = project_donations@.map_values(|p: WeightedProjectDonations| p.project_id);
        let ghost totals_spec = project_donations@.map_values(|p: WeightedProjectDonations| p.weighted_total);
        let mut totals: Vec<u128> = Vec::new();
        let mut k: usize = 0;
        while k < project_donations.len()
            invariant
                k <= project_donations@.len(),
                totals_spec == project_donations@.map_values(|p: WeightedProjectDonations| p.weighted_total),
                totals@ == totals_spec.take(k as int),
            decreases project_donations.len() - k,
        {
            totals.push(project_donations[k].weighted_total);
            k = k + 1;
            assert(totals@ =~= totals_spec.take(k as int));
        }
        assert(totals@ =~= totals_spec);
        let ms = MultiTokenMatchingPool::calculate_quadratic_matching(&totals, matching_pool, quadratic_coefficient);
        let ghost target = capped_from(ids, ms@, matching_pool, 0, 0);
        let mut out: Vec<(u64, u128)> = Vec::new();
        let mut allocated: u128 = 0;
        let mut j: usize = 0;
        while j < project_donations.len()
            invariant_except_break
                j <= project_donations@.len(),
                ms@.len() == project_donations@.len(),
                ids == project_donations@.map_values(|p: WeightedProjectDonations| p.project_id),
                allocated <= matching_pool,
                out@ + capped_from(ids, ms@, matching_pool, j as int, allocated as int) == target,
            ensures
                out@ == target,
            decreases project_donations.len() - j,
        {
            let id = project_donations[j].project_id;
            match ms[j] {
                None => {},
                Some(m) => {
                    if m > matching_pool - allocated {
                        let remaining = matching_pool - allocated;
                        if remaining > 0 {
                            out.push((id, remaining));
                        }
                        assert(out@ =~= target);
                        break;
                    }
                    out.push((id, m));
                    allocated = allocated + m;
                },
            }
            j = j + 1;
            assert(out@ + capped_from(ids, ms@, matching_pool, j as int, allocated as int) =~= target);
        }
        proof {
            lemma_capped_within_pool(ids, ms@, matching_pool, 0, 0);
        }
        Ok(out)
    }

    /// Clears the stake cache once it has expired at `now`; returns how many
    /// entries it cleared (zero while the cache is valid).
    pub fn clear_expired_cache(&mut self, now: u64) -> (r: Result<u32, StakingMultiplierError>)
        ensures
            now < old(self).stake@.cache_expiry ==> r == Ok::<u32, StakingMultiplierError>(0) && final(self).stake@ == old(self).stake@,
            now >= old(self).stake@.cache_expiry ==> r == Ok::<u32, StakingMultiplierError>(1)
                && final(self).stake@ == (StakeState { cache_expiry: 0, ..old(self).stake@ }),
            final(self).admin == old(self).admin,
            final(self).project_tokens@ == old(self).project_tokens@,
    {
        if now < self.stake.cache_expiry {
            return Ok(0);
        }
        self.stake.cache_expiry = 0;
        Ok(1)
    }

    /// The vesting vault the contract queries.
    pub fn get_vesting_vault_contract(&self) -> (r: Result<Address, StakingMultiplierError>)
        ensures
            self.vesting_vault_contract matches Some(a) ==> r == Ok::<Address, StakingMultiplierError>(a),
            self.vesting_vault_contract is None ==> r == Err::<Address, StakingMultiplierError>(StakingMultiplierError::VestingVaultNotFound),
    {
        match self.vesting_vault_contract {
            Some(a) => Ok(a),
            None => Err(StakingMultiplierError::VestingVaultNotFound),
        }
    }

    /// Boost multiplier for a staked amount.
    pub fn calculate_boost_multiplier(staked_amount: u128) -> (r: u128)
        ensures
            r == boost_spec(staked_amount as int),
            1_000_000 <= r <= 3_000_000,
            staked_amount < BOOST_TIER_1_THRESHOLD ==> r == BASE_MATCHING_WEIGHT,
            BOOST_TIER_1_THRESHOLD <= staked_amount < BOOST_TIER_2_THRESHOLD ==> r == 1_200_000,
            BOOST_TIER_2_THRESHOLD <= staked_amount < BOOST_TIER_3_THRESHOLD ==> r == 1_500_000,
            BOOST_TIER_3_THRESHOLD <= staked_amount < BOOST_TIER_4_THRESHOLD ==> r == 2_000_000,
            BOOST_TIER_4_THRESHOLD <= staked_amount ==> r == MAX_BOOST_MULTIPLIER,
    {
        if staked_amount < MIN_STAKE_FOR_BOOST {
            return BASE_MATCHING_WEIGHT;
        }
        if staked_amount >= BOOST_TIER_4_THRESHOLD {
            MAX_BOOST_MULTIPLIER
        } else if staked_amount >= BOOST_TIER_3_THRESHOLD {
            2_000_000
        } else if staked_amount >= BOOST_TIER_2_THRESHOLD {
            1_500_000
        } else if staked_amount >= BOOST_TIER_1_THRESHOLD {
            1_200_000
        } else {
            BASE_MATCHING_WEIGHT
        }
    }

    /// Integer square root of `n`.
    pub fn integer_square_root(n: u128) -> (r: Result<u128, StakingMultiplierError>)
        requires
            n < u128::MAX,
        ensures
            r matches Ok(s) && is_floor_sqrt(n as int, s as int),
    {
        Ok(floor_sqrt(n))
    }
}

} // verus!
