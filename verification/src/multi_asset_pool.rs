//! Multi-asset grant pools: a pool holds balances of several assets; a
//! grantee withdraws either one asset, converted at the oracle rate, or a
//! pro-rata basket of all of them.
use vstd::prelude::*;
use std::collections::HashMap;
use crate::types::Address;

verus! {

broadcast use vstd::std_specs::hash::group_hash_axioms;

/// A pool: one balance per asset, and the oracle for its conversions.
#[derive(Debug, Clone, PartialEq, Eq)]
pub struct GrantPool {
    pub pool_id: String,
    pub balances: Vec<(Address, i128)>,
    pub oracle: Address,
}

/// Division rounding toward zero, as integer division does.
pub open spec fn tdiv(a: int, b: int) -> int {
    if a >= 0 { a / b } else { -((-a) / b) }
}

/// Index of the first pool from `i` on with identifier `id`, or -1.
pub open spec fn find_pool_from(ps: Seq<GrantPool>, id: Seq<char>, i: int) -> int
    decreases ps.len() - i,
{
    if i < 0 || i >= ps.len() {
        -1
    } else if ps[i].pool_id@ == id {
        i
    } else {
        find_pool_from(ps, id, i + 1)
    }
}

/// Index of the first balance from `i` on of `asset`, or -1.
pub open spec fn find_asset_from(bs: Seq<(Address, i128)>, asset: Address, i: int) -> int
    decreases bs.len() - i,
{
    if i < 0 || i >= bs.len() {
        -1
    } else if bs[i].0 == asset {
        i
    } else {
        find_asset_from(bs, asset, i + 1)
    }
}

/// `bs` with `amount` added to the balance of `asset`, which is appended
/// when absent.
pub open spec fn credited(bs: Seq<(Address, i128)>, asset: Address, amount: i128) -> Seq<(Address, i128)> {
    let k = find_asset_from(bs, asset, 0);
    if k >= 0 {
        bs.update(k, (asset, (bs[k].1 + amount) as i128))
    } else {
        bs.push((asset, amount))
    }
}

/// Rate of `asset` among `rates`; one when unset.
pub open spec fn rate_in(rates: Map<u64, i128>, asset: Address) -> i128 {
    if rates.contains_key(asset.0) { rates[asset.0] } else { 1i128 }
}

/// Value of `bs` at `rates`: the sum of balance times rate.
pub open spec fn basket_value(bs: Seq<(Address, i128)>, rates: Map<u64, i128>) -> int
    decreases bs.len(),
{
    if bs.len() == 0 {
        0
    } else {
        basket_value(bs.drop_last(), rates) + bs.last().1 * rate_in(rates, bs.last().0)
    }
}

/// `bs` after a pro-rata withdrawal of `amount` out of a total value of
/// `total`: each balance loses its share `balance * amount / total`.
pub open spec fn basket_after(bs: Seq<(Address, i128)>, amount: i128, total: int) -> Seq<(Address, i128)> {
    Seq::new(bs.len(), |i: int| (bs[i].0, (bs[i].1 - tdiv(bs[i].1 * amount, total)) as i128))
}

/// Searching two pool lists with the same identifiers finds the same index.
proof fn lemma_find_pool_same_ids(a: Seq<GrantPool>, b: Seq<GrantPool>, id: Seq<char>, i: int)
    requires
        a.len() == b.len(),
        forall|k: int| 0 <= k < a.len() ==> #[trigger] a[k].pool_id@ == b[k].pool_id@,
    ensures
        find_pool_from(a, id, i) == find_pool_from(b, id, i),
    decreases a.len() - i,
{
    if i < 0 || i >= a.len() {
    } else {
        assert(a[i].pool_id@ == b[i].pool_id@);
        lemma_find_pool_same_ids(a, b, id, i + 1);
    }
}

/// A search finds a match at or after its start.
proof fn lemma_find_pool_bounds(ps: Seq<GrantPool>, id: Seq<char>, i: int)
    ensures
        find_pool_from(ps, id, i) == -1 || (i <= find_pool_from(ps, id, i) < ps.len()
            && ps[find_pool_from(ps, id, i)].pool_id@ == id),
    decreases ps.len() - i,
{
    if i < 0 || i >= ps.len() {
    } else if ps[i].pool_id@ == id {
    } else {
        lemma_find_pool_bounds(ps, id, i + 1);
    }
}

/// A search finds a match at or after its start.
proof fn lemma_find_asset_bounds(bs: Seq<(Address, i128)>, asset: Address, i: int)
    ensures
        find_asset_from(bs, asset, i) == -1 || (i <= find_asset_from(bs, asset, i) < bs.len()
            && bs[find_asset_from(bs, asset, i)].0 == asset),
    decreases bs.len() - i,
{
    if i < 0 || i >= bs.len() {
    } else if bs[i].0 == asset {
    } else {
        lemma_find_asset_bounds(bs, asset, i + 1);
    }
}

/// The pools and the oracle's conversion rates.
pub struct MultiAssetPools {
    pub pools: Vec<GrantPool>,
    /// Conversion rate of each asset, by asset identity; one when unset.
    pub rates: HashMap<u64, i128>,
}

impl MultiAssetPools {
    /// Index of pool `id`, or -1.
    pub open spec fn pool_index(&self, id: Seq<char>) -> int {
        find_pool_from(self.pools@, id, 0)
    }

    /// Balances of pool `id`, if it exists.
    pub open spec fn balances_of(&self, id: Seq<char>) -> Option<Seq<(Address, i128)>> {
        let k = self.pool_index(id);
        if k >= 0 { Some(self.pools@[k].balances@) } else { None }
    }

    /// No pools and no rates.
    pub fn new() -> (r: Self)
        ensures
            r.pools@.len() == 0,
            r.rates@ == Map::<u64, i128>::empty(),
    {
        MultiAssetPools { pools: Vec::new(), rates: HashMap::new() }
    }

    /// Sets the oracle rate of `asset`.
    pub fn set_rate(&mut self, asset: Address, rate: i128)
        ensures
            final(self).rates@ == old(self).rates@.insert(asset.0, rate),
            final(self).pools@ == old(self).pools@,
    {
        self.rates.insert(asset.0, rate);
    }

    fn rate_of(&self, asset: Address) -> (r: i128)
        ensures
            r == rate_in(self.rates@, asset),
    {
        match self.rates.get(&asset.0) {
            Some(x) => *x,
            None => 1,
        }
    }

    fn find_pool(&self, id: &String) -> (r: Option<usize>)
        ensures
            r matches Some(k) ==> k == self.pool_index(id@) && k < self.pools@.len(),
            r is None ==> self.pool_index(id@) == -1,
    {
        let mut i: usize = 0;
        while i < self.pools.len()
            invariant
                i <= self.pools@.len(),
                find_pool_from(self.pools@, id@, 0) == find_pool_from(self.pools@, id@, i as int),
            decreases self.pools.len() - i,
        {
            if self.pools[i].pool_id == *id {
                return Some(i);
            }
            i = i + 1;
        }
        None
    }

    /// Deposits `amount` of `asset` into pool `pool_id`, creating the pool
    /// (with oracle `fresh_oracle`) when it does not exist.
    pub fn deposit(&mut self, pool_id: String, asset: Address, amount: i128, fresh_oracle: Address)
        requires
            old(self).balances_of(pool_id@) matches Some(bs) ==> {
                let k = find_asset_from(bs, asset, 0);
                k >= 0 ==> i128::MIN <= bs[k].1 + amount <= i128::MAX
            },
        ensures
            final(self).rates@ == old(self).rates@,
            final(self).balances_of(pool_id@) == Some(match old(self).balances_of(pool_id@) {
                Some(bs) => credited(bs, asset, amount),
                None => seq![(asset, amount)],
            }),
            forall|other: Seq<char>| other != pool_id@ ==> #[trigger] final(self).balances_of(other) == old(self).balances_of(other),
    {
        let ghost old_ps = self.pools@;
        match self.find_pool(&pool_id) {
            Some(k) => {
                let mut pool = self.pools.remove(k);
                let mut j: usize = 0;
                let mut found = false;
                let ghost bs = pool.balances@;
                while j < pool.balances.len()
                    invariant_except_break
                        j <= pool.balances@.len(),
                        pool.balances@ == bs,
                        find_asset_from(bs, asset, 0) == find_asset_from(bs, asset, j as int),
                        !found,
                    ensures
                        pool.balances@ == bs,
                        found ==> j == find_asset_from(bs, asset, 0) && j < bs.len(),
                        !found ==> find_asset_from(bs, asset, 0) == -1,
                    decreases pool.balances.len() - j,
                {
                    if pool.balances[j].0 == asset {
                        found = true;
                        break;
                    }
                    j = j + 1;
                }
                proof {
                    lemma_find_asset_bounds(bs, asset, 0);
                }
                if found {
                    let (a, b) = pool.balances[j];
                    pool.balances.set(j, (a, b + amount));
                } else {
                    pool.balances.push((asset, amount));
                }
                self.pools.insert(k, pool);
                proof {
                    lemma_find_pool_bounds(old_ps, pool_id@, 0);
                    assert(self.pools@ =~= old_ps.update(k as int, self.pools@[k as int]));
                    assert(self.pools@[k as int].balances@ =~= credited(bs, asset, amount));
                    lemma_find_pool_same_ids(old_ps, self.pools@, pool_id@, 0);
                    assert forall|other: Seq<char>| other != pool_id@ implies #[trigger] self.balances_of(other) == find_balances(old_ps, other) by {
                        lemma_find_pool_same_ids(old_ps, self.pools@, other, 0);
                        lemma_find_pool_bounds(old_ps, other, 0);
                    }
                }
            },
            None => {
                let mut balances: Vec<(Address, i128)> = Vec::new();
                balances.push((asset, amount));
                self.pools.push(GrantPool { pool_id, balances, oracle: fresh_oracle });
                proof {
                    let np = self.pools@[old_ps.len() as int];
                    assert(self.pools@ =~= old_ps.push(np));
                    lemma_find_append(old_ps, np, pool_id@, 0);
                    assert forall|other: Seq<char>| other != pool_id@ implies #[trigger] self.balances_of(other) == find_balances(old_ps, other) by {
                        lemma_find_append(old_ps, np, other, 0);
                        lemma_find_pool_bounds(old_ps, other, 0);
                    }
                    assert(self.pools@[old_ps.len() as int].balances@ =~= seq![(asset, amount)]);
                }
            },
        }
    }

    /// Withdraws `amount` of value from pool `pool_id` for `grantee`: of the
    /// `preferred_asset` alone, converted at its rate, or else pro rata from
    /// every asset. The pool must exist and hold enough; the amount must be
    /// positive.
    pub fn withdraw(&mut self, pool_id: String, grantee: Address, amount: i128, preferred_asset: Option<Address>)
        requires
            old(self).balances_of(pool_id@) is Some,
            amount > 0,
            ({
                let bs = old(self).balances_of(pool_id@)->Some_0;
                let rates = old(self).rates@;
                match preferred_asset {
                    Some(asset) => {
                        let k = find_asset_from(bs, asset, 0);
                        &&& i128::MIN <= amount * rate_in(rates, asset) <= i128::MAX
                        &&& k >= 0
                        &&& bs[k].1 >= amount * rate_in(rates, asset)
                        &&& i128::MIN <= bs[k].1 - amount * rate_in(rates, asset) <= i128::MAX
                    },
                    None => {
                        &&& forall|n: int| 0 <= n <= bs.len() ==> i128::MIN <= #[trigger] basket_value(bs.take(n), rates) <= i128::MAX
                        &&& forall|i: int| 0 <= i < bs.len() ==> i128::MIN <= #[trigger] (bs[i].1 * rate_in(rates, bs[i].0)) <= i128::MAX
                        &&& basket_value(bs, rates) >= amount
                        &&& forall|i: int| 0 <= i < bs.len() ==> i128::MIN <= #[trigger] (bs[i].1 * amount) <= i128::MAX
                            && i128::MIN <= bs[i].1 - tdiv(bs[i].1 * amount, basket_value(bs, rates)) <= i128::MAX
                    },
                }
            }),
        ensures
            final(self).rates@ == old(self).rates@,
            final(self).balances_of(pool_id@) == Some({
                let bs = old(self).balances_of(pool_id@)->Some_0;
                let rates = old(self).rates@;
                match preferred_asset {
                    Some(asset) => {
                        let k = find_asset_from(bs, asset, 0);
                        bs.update(k, (asset, (bs[k].1 - amount * rate_in(rates, asset)) as i128))
                    },
                    None => basket_after(bs, amount, basket_value(bs, rates)),
                }
            }),
            forall|other: Seq<char>| other != pool_id@ ==> #[trigger] final(self).balances_of(other) == old(self).balances_of(other),
    {
        let ghost old_ps = self.pools@;
        let ghost rates = self.rates@;
        let k = match self.find_pool(&pool_id) {
            Some(k) => k,
            None => return,
        };
        let pool = self.pools.remove(k);
        let GrantPool { pool_id: pid, balances: mut bal, oracle } = pool;
        let ghost bs = bal@;
        assert(bs == old(self).balances_of(pool_id@)->Some_0);
        match preferred_asset {
            Some(asset) => {
                let rate = self.rate_of(asset);
                let converted = amount * rate;
                let mut j: usize = 0;
                proof {
                    lemma_find_asset_bounds(bs, asset, 0);
                }
                while j < bal.len()
                    invariant_except_break
                        j <= bal@.len(),
                        bal@ == bs,
                        find_asset_from(bs, asset, 0) == find_asset_from(bs, asset, j as int),
                        find_asset_from(bs, asset, 0) >= 0,
                    ensures
                        bal@ == bs,
                        j == find_asset_from(bs, asset, 0) && j < bs.len(),
                    decreases bal.len() - j,
                {
                    if bal[j].0 == asset {
                        break;
                    }
                    j = j + 1;
                }
                let (a, b) = bal[j];
                assert(b == bs[find_asset_from(bs, asset, 0)].1);
                assert(converted == amount * rate_in(rates, asset));
                bal.set(j, (a, b - converted));
            },
            None => {
                let mut total: i128 = 0;
                let mut i: usize = 0;
                while i < bal.len()
                    invariant
                        i <= bal@.len(),
                        bal@ == bs,
                        rates == self.rates@,
                        total == basket_value(bs.take(i as int), rates),
                        forall|n: int| 0 <= n <= bs.len() ==> i128::MIN <= #[trigger] basket_value(bs.take(n), rates) <= i128::MAX,
                        forall|m: int| 0 <= m < bs.len() ==> i128::MIN <= #[trigger] (bs[m].1 * rate_in(rates, bs[m].0)) <= i128::MAX,
                    decreases bal.len() - i,
                {
                    proof {
                        assert(bs.take(i + 1).drop_last() =~= bs.take(i as int));
                        assert(bs.take(i + 1).last() == bs[i as int]);
                    }
                    let (a, b) = bal[i];
                    let rate = self.rate_of(a);
                    assert(i128::MIN <= bs[i as int].1 * rate_in(rates, bs[i as int].0) <= i128::MAX);
                    let value = b * rate;
                    assert(i128::MIN <= basket_value(bs.take(i as int + 1), rates) <= i128::MAX);
                    total = total + value;
                    i = i + 1;
                }
                proof {
                    assert(bs.take(bs.len() as int) =~= bs);
                }
                let mut m: usize = 0;
                while m < bal.len()
                    invariant
                        m <= bs.len(),
                        bal@.len() == bs.len(),
                        total == basket_value(bs, rates),
                        total >= amount,
                        amount > 0,
                        forall|x: int| 0 <= x < bs.len() ==> i128::MIN <= #[trigger] (bs[x].1 * amount) <= i128::MAX
                            && i128::MIN <= bs[x].1 - tdiv(bs[x].1 * amount, basket_value(bs, rates)) <= i128::MAX,
                        forall|x: int| 0 <= x < m ==> #[trigger] bal@[x] == basket_after(bs, amount, total as int)[x],
                        forall|x: int| m <= x < bs.len() ==> #[trigger] bal@[x] == bs[x],
                    decreases bal.len() - m,
                {
                    let (a, b) = bal[m];
                    let share = (b * amount) / total;
                    bal.set(m, (a, b - share));
                    m = m + 1;
                }
                proof {
                    assert(bal@ =~= basket_after(bs, amount, total as int));
                }
            },
        }
        let ghost newb = bal@;
        self.pools.insert(k, GrantPool { pool_id: pid, balances: bal, oracle });
        proof {
            lemma_find_pool_bounds(old_ps, pool_id@, 0);
            assert(self.pools@ =~= old_ps.update(k as int, self.pools@[k as int]));
            lemma_find_pool_same_ids(old_ps, self.pools@, pool_id@, 0);
            assert forall|other: Seq<char>| other != pool_id@ implies #[trigger] self.balances_of(other) == find_balances(old_ps, other) by {
                lemma_find_pool_same_ids(old_ps, self.pools@, other, 0);
                lemma_find_pool_bounds(old_ps, other, 0);
            }
            match preferred_asset {
                Some(asset) => {
                    assert(newb =~= bs.update(find_asset_from(bs, asset, 0), (asset, (bs[find_asset_from(bs, asset, 0)].1 - amount * rate_in(rates, asset)) as i128)));
                },
                None => {},
            }
        }
    }
}

/// Balances of pool `id` in `ps`, if it exists.
pub open spec fn find_balances(ps: Seq<GrantPool>, id: Seq<char>) -> Option<Seq<(Address, i128)>> {
    let k = find_pool_from(ps, id, 0);
    if k >= 0 { Some(ps[k].balances@) } else { None }
}

/// Appending a pool changes no search that found a match, nor any search
/// for another identifier, and makes a failed search for the new pool's
/// identifier find it.
proof fn lemma_find_append(ps: Seq<GrantPool>, p: GrantPool, id: Seq<char>, i: int)
    requires
        0 <= i <= ps.len(),
    ensures
        find_pool_from(ps, id, i) != -1 ==> find_pool_from(ps.push(p), id, i) == find_pool_from(ps, id, i),
        id != p.pool_id@ ==> find_pool_from(ps.push(p), id, i) == find_pool_from(ps, id, i),
        id == p.pool_id@ && find_pool_from(ps, id, i) == -1 ==> find_pool_from(ps.push(p), id, i) == ps.len(),
    decreases ps.len() - i,
{
    let q = ps.push(p);
    if i == ps.len() {
        assert(q[i] == p);
        assert(find_pool_from(q, id, i + 1) == -1);
        assert(find_pool_from(ps, id, i) == -1);
    } else {
        lemma_find_append(ps, p, id, i + 1);
        assert(q[i] == ps[i]);
    }
}

} // verus!
