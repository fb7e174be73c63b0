//! Flash-loan defense for matching pool deposits: a deposit counts toward
//! matching weight, and can be withdrawn, only once it is 48 hours old.
use vstd::prelude::*;
use std::collections::HashMap;
use crate::types::Address;
use crate::arith::{saturating_sub_i128, sat_sub_spec};

verus! {

broadcast use vstd::std_specs::hash::group_hash_axioms;

/// Minimum deposit age, in seconds, before funds count toward matching
/// weight: 48 hours.
pub const DEPOSIT_AGE_REQUIREMENT_SECS: u64 = 172800;

/// A depositor's position in a pool.
#[derive(Debug, Clone, Copy, PartialEq, Eq, Structural)]
pub struct DepositRecord {
    pub depositor: Address,
    pub pool_token: Address,
    pub amount: i128,
    pub deposited_at: u64,
}

/// Why a deposit operation was refused.
#[derive(Debug, Clone, Copy, PartialEq, Eq, Structural)]
pub enum FlashLoanDefenseError {
    NotInitialized,
    NotAuthorized,
    InvalidAmount,
    /// The deposit has not aged 48 hours yet.
    DepositTooYoung,
    DepositNotFound,
    InsufficientBalance,
    MathOverflow,
}

/// The deposit ledger of one pool token: records by depositor, and the
/// pool's mature and pending balances.
pub struct PoolLedger {
    pub pool_token: Address,
    pub deposits: HashMap<u64, DepositRecord>,
    /// Deposits that have aged 48 hours and were settled.
    pub mature_balance: i128,
    /// Deposits not yet settled as mature.
    pub pending_balance: i128,
    /// How much of each depositor's deposit was already moved to the mature
    /// balance, so that no deposit is settled twice.
    pub settled: HashMap<u64, i128>,
}

/// Age of a deposit made at `at`, seen at `now`; zero for a clock reading earlier.
pub open spec fn age(at: u64, now: u64) -> int {
    if now >= at { now - at } else { 0 }
}

/// Matching weight of `d` at `now`: the deposit once 48 hours old, else zero.
pub open spec fn weight_spec(deposits: Map<u64, DepositRecord>, d: Address, now: u64) -> int {
    if deposits.contains_key(d.0) && age(deposits[d.0].deposited_at, now) >= DEPOSIT_AGE_REQUIREMENT_SECS {
        deposits[d.0].amount as int
    } else {
        0
    }
}

/// The part of `d`'s deposit already settled as mature, zero when none.
pub open spec fn settled_of(settled: Map<u64, i128>, d: Address) -> int {
    if settled.contains_key(d.0) { settled[d.0] as int } else { 0 }
}

/// Whether `d` holds a deposit that is 48 hours old at `now`.
pub open spec fn matured(ledger: Map<u64, DepositRecord>, d: Address, now: u64) -> bool {
    ledger.contains_key(d.0) && age(ledger[d.0].deposited_at, now) >= DEPOSIT_AGE_REQUIREMENT_SECS
}

/// Settling the listed depositors in order: the amount newly matured, and the
/// settled parts after. Each matured deposit contributes what was not yet
/// settled of it and is then settled in full, so a depositor listed twice, or
/// settled again, contributes nothing more.
pub open spec fn settle_run(deps: Seq<Address>, ledger: Map<u64, DepositRecord>, settled: Map<u64, i128>, now: u64) -> (int, Map<u64, i128>)
    decreases deps.len(),
{
    if deps.len() == 0 {
        (0, settled)
    } else {
        let d = deps.last();
        let (m, st) = settle_run(deps.drop_last(), ledger, settled, now);
        if matured(ledger, d, now) {
            (m + ledger[d.0].amount - settled_of(st, d), st.insert(d.0, ledger[d.0].amount))
        } else {
            (m, st)
        }
    }
}

/// Settled parts are recorded only for deposits, and never exceed them.
pub open spec fn settled_wf(ledger: Map<u64, DepositRecord>, settled: Map<u64, i128>) -> bool {
    forall|k: u64| #[trigger] settled.contains_key(k)
        ==> ledger.contains_key(k) && 0 <= settled[k] <= ledger[k].amount
}

proof fn lemma_settle_run_wf(deps: Seq<Address>, ledger: Map<u64, DepositRecord>, settled: Map<u64, i128>, now: u64)
    requires
        settled_wf(ledger, settled),
        forall|k: u64| #[trigger] ledger.contains_key(k) ==> ledger[k].amount > 0,
    ensures
        settle_run(deps, ledger, settled, now).0 >= 0,
        settled_wf(ledger, settle_run(deps, ledger, settled, now).1),
    decreases deps.len(),
{
    if deps.len() > 0 {
        lemma_settle_run_wf(deps.drop_last(), ledger, settled, now);
    }
}

/// Once the listed depositors are settled, settling them again finds nothing.
proof fn lemma_settle_run_fixed(deps: Seq<Address>, ledger: Map<u64, DepositRecord>, settled: Map<u64, i128>, now: u64)
    requires
        forall|j: int| 0 <= j < deps.len() && #[trigger] matured(ledger, deps[j], now)
            ==> settled.contains_key(deps[j].0) && settled[deps[j].0] == ledger[deps[j].0].amount,
    ensures
        settle_run(deps, ledger, settled, now) == (0int, settled),
    decreases deps.len(),
{
    if deps.len() > 0 {
        let d = deps.last();
        assert(forall|j: int| 0 <= j < deps.drop_last().len() ==> deps.drop_last()[j] == deps[j]);
        lemma_settle_run_fixed(deps.drop_last(), ledger, settled, now);
        if matured(ledger, d, now) {
            assert(matured(ledger, deps[deps.len() - 1], now));
            assert(settled.insert(d.0, ledger[d.0].amount) =~= settled);
        }
    }
}

/// Settling leaves every listed matured deposit settled in full.
proof fn lemma_settle_run_covers(deps: Seq<Address>, ledger: Map<u64, DepositRecord>, settled: Map<u64, i128>, now: u64)
    ensures
        forall|j: int| 0 <= j < deps.len() && #[trigger] matured(ledger, deps[j], now)
            ==> settle_run(deps, ledger, settled, now).1.contains_key(deps[j].0)
            && settle_run(deps, ledger, settled, now).1[deps[j].0] == ledger[deps[j].0].amount,
    decreases deps.len(),
{
    if deps.len() > 0 {
        lemma_settle_run_covers(deps.drop_last(), ledger, settled, now);
        assert(forall|j: int| 0 <= j < deps.drop_last().len() ==> deps.drop_last()[j] == deps[j]);
    }
}

/// A deposit moves from pending to mature at most once: right after the
/// listed depositors are settled at `now`, settling them again at `now`
/// matures nothing and leaves the settled parts as they are.
pub proof fn lemma_settle_at_most_once(deps: Seq<Address>, ledger: Map<u64, DepositRecord>, settled: Map<u64, i128>, now: u64)
    ensures
        settle_run(deps, ledger, settle_run(deps, ledger, settled, now).1, now)
            == (0int, settle_run(deps, ledger, settled, now).1),
{
    lemma_settle_run_covers(deps, ledger, settled, now);
    lemma_settle_run_fixed(deps, ledger, settle_run(deps, ledger, settled, now).1, now);
}

impl PoolLedger {
    /// Every recorded deposit is positive.
    pub open spec fn wf(&self) -> bool {
        &&& forall|k: u64| #[trigger] self.deposits@.contains_key(k) ==> self.deposits@[k].amount > 0
        &&& settled_wf(self.deposits@, self.settled@)
    }

    /// An empty ledger for `pool_token`.
    pub fn new(pool_token: Address) -> (r: Self)
        ensures
            r.wf(),
            r.pool_token == pool_token,
            r.deposits@ == Map::<u64, DepositRecord>::empty(),
            r.mature_balance == 0,
            r.pending_balance == 0,
            r.settled@ == Map::<u64, i128>::empty(),
    {
        PoolLedger { pool_token, deposits: HashMap::new(), mature_balance: 0, pending_balance: 0, settled: HashMap::new() }
    }

    /// Records a deposit at `now`. A further deposit merges into the existing
    /// record and restarts its clock. The amount joins the pending balance.
    pub fn record_deposit(&mut self, depositor: Address, amount: i128, now: u64) -> (r: Result<(), FlashLoanDefenseError>)
        requires
            old(self).wf(),
        ensures
            final(self).wf(),
            final(self).pool_token == old(self).pool_token,
            final(self).mature_balance == old(self).mature_balance,
            ({
                let prev = if old(self).deposits@.contains_key(depositor.0) { old(self).deposits@[depositor.0].amount as int } else { 0 };
                &&& amount <= 0 ==> r == Err::<(), FlashLoanDefenseError>(FlashLoanDefenseError::InvalidAmount)
                &&& amount > 0 && (prev + amount > i128::MAX || old(self).pending_balance + amount > i128::MAX)
                    ==> r == Err::<(), FlashLoanDefenseError>(FlashLoanDefenseError::MathOverflow)
                &&& amount > 0 && prev + amount <= i128::MAX && old(self).pending_balance + amount <= i128::MAX ==> r is Ok
                &&& r is Err ==> final(self).deposits@ == old(self).deposits@
                    && final(self).pending_balance == old(self).pending_balance
                &&& r is Ok ==> amount > 0
                    && final(self).deposits@ == old(self).deposits@.insert(depositor.0, DepositRecord {
                        depositor,
                        pool_token: old(self).pool_token,
                        amount: (prev + amount) as i128,
                        deposited_at: now,
                    })
                    && final(self).pending_balance == old(self).pending_balance + amount
            }),
            final(self).settled@ == old(self).settled@,
    {
        if amount <= 0 {
            return Err(FlashLoanDefenseError::InvalidAmount);
        }
        let prev: i128 = match self.deposits.get(&depositor.0) {
            Some(rec) => rec.amount,
            None => 0,
        };
        let merged = match prev.checked_add(amount) {
            Some(v) => v,
            None => return Err(FlashLoanDefenseError::MathOverflow),
        };
        let new_pending = match self.pending_balance.checked_add(amount) {
            Some(v) => v,
            None => return Err(FlashLoanDefenseError::MathOverflow),
        };
        let record = DepositRecord { depositor, pool_token: self.pool_token, amount: merged, deposited_at: now };
        self.deposits.insert(depositor.0, record);
        self.pending_balance = new_pending;
        Ok(())
    }

    /// Matching weight of a depositor at `now`: the full deposit once it is
    /// 48 hours old, zero before that or without a deposit.
    pub fn get_matching_weight(&self, depositor: Address, now: u64) -> (r: i128)
        ensures
            r == weight_spec(self.deposits@, depositor, now),
    {
        match self.deposits.get(&depositor.0) {
            None => 0,
            Some(rec) => {
                let age = now.saturating_sub(rec.deposited_at);
                if age >= DEPOSIT_AGE_REQUIREMENT_SECS {
                    rec.amount
                } else {
                    0
                }
            },
        }
    }

    /// Withdraws from a matured deposit; the mature balance drops by the
    /// amount (saturating).
    pub fn withdraw_from_pool(&mut self, depositor: Address, amount: i128, now: u64) -> (r: Result<(), FlashLoanDefenseError>)
        requires
            old(self).wf(),
        ensures
            final(self).wf(),
            final(self).pool_token == old(self).pool_token,
            final(self).pending_balance == old(self).pending_balance,
            ({
                let found = old(self).deposits@.contains_key(depositor.0);
                let rec = old(self).deposits@[depositor.0];
                &&& amount <= 0 ==> r == Err::<(), FlashLoanDefenseError>(FlashLoanDefenseError::InvalidAmount)
                &&& amount > 0 && !found ==> r == Err::<(), FlashLoanDefenseError>(FlashLoanDefenseError::DepositNotFound)
                &&& amount > 0 && found && age(rec.deposited_at, now) < DEPOSIT_AGE_REQUIREMENT_SECS
                    ==> r == Err::<(), FlashLoanDefenseError>(FlashLoanDefenseError::DepositTooYoung)
                &&& amount > 0 && found && age(rec.deposited_at, now) >= DEPOSIT_AGE_REQUIREMENT_SECS && rec.amount < amount
                    ==> r == Err::<(), FlashLoanDefenseError>(FlashLoanDefenseError::InsufficientBalance)
                &&& amount > 0 && found && age(rec.deposited_at, now) >= DEPOSIT_AGE_REQUIREMENT_SECS && rec.amount >= amount
                    ==> r is Ok
                &&& r is Err ==> final(self).deposits@ == old(self).deposits@
                    && final(self).mature_balance == old(self).mature_balance
                    && final(self).settled@ == old(self).settled@
                &&& r is Ok && rec.amount == amount ==> final(self).settled@ == old(self).settled@.remove(depositor.0)
                &&& r is Ok && rec.amount > amount ==> final(self).settled@ == (if settled_of(old(self).settled@, depositor) > rec.amount - amount {
                    old(self).settled@.insert(depositor.0, (rec.amount - amount) as i128)
                } else {
                    old(self).settled@
                })
                &&& r is Ok ==> amount > 0 && found && age(rec.deposited_at, now) >= DEPOSIT_AGE_REQUIREMENT_SECS
                    && rec.amount >= amount
                    && final(self).mature_balance == sat_sub_spec(old(self).mature_balance as int, amount as int)
                    && (rec.amount == amount ==> final(self).deposits@ == old(self).deposits@.remove(depositor.0))
                    && (rec.amount > amount ==> final(self).deposits@ == old(self).deposits@.insert(
                        depositor.0,
                        DepositRecord { amount: (rec.amount - amount) as i128, ..rec },
                    ))
            }),
    {
        if amount <= 0 {
            return Err(FlashLoanDefenseError::InvalidAmount);
        }
        let record = match self.deposits.get(&depositor.0) {
            Some(rec) => *rec,
            None => return Err(FlashLoanDefenseError::DepositNotFound),
        };
        let age = now.saturating_sub(record.deposited_at);
        if age < DEPOSIT_AGE_REQUIREMENT_SECS {
            return Err(FlashLoanDefenseError::DepositTooYoung);
        }
        if record.amount < amount {
            return Err(FlashLoanDefenseError::InsufficientBalance);
        }
        let remaining = record.amount - amount;
        if remaining == 0 {
            self.deposits.remove(&depositor.0);
            self.settled.remove(&depositor.0);
        } else {
            self.deposits.insert(depositor.0, DepositRecord { amount: remaining, ..record });
            let over = match self.settled.get(&depositor.0) {
                Some(s) => *s > remaining,
                None => false,
            };
            if over {
                self.settled.insert(depositor.0, remaining);
            }
        }
        self.mature_balance = saturating_sub_i128(self.mature_balance, amount);
        Ok(())
    }

    /// Moves the matured deposits of the listed depositors from pending to
    /// mature, each deposit at most once; returns the amount that matured.
    pub fn settle_pending_deposits(&mut self, depositors: &Vec<Address>, now: u64) -> (r: Result<i128, FlashLoanDefenseError>)
        requires
            old(self).wf(),
        ensures
            final(self).wf(),
            final(self).pool_token == old(self).pool_token,
            final(self).deposits@ == old(self).deposits@,
            ({
                let (m, st) = settle_run(depositors@, old(self).deposits@, old(self).settled@, now);
                &&& (m > i128::MAX || old(self).mature_balance + m > i128::MAX)
                    ==> r == Err::<i128, FlashLoanDefenseError>(FlashLoanDefenseError::MathOverflow)
                    && final(self).mature_balance == old(self).mature_balance
                    && final(self).pending_balance == old(self).pending_balance
                    && final(self).settled@ == old(self).settled@
                &&& !(m > i128::MAX || old(self).mature_balance + m > i128::MAX)
                    ==> r == Ok::<i128, FlashLoanDefenseError>(m as i128)
                    && final(self).mature_balance == old(self).mature_balance + m
                    && final(self).pending_balance == sat_sub_spec(old(self).pending_balance as int, m)
                    && final(self).settled@ == st
            }),
    {
        let mut newly_matured: i128 = 0;
        let mut settled = self.settled.clone();
        let mut i: usize = 0;
        while i < depositors.len()
            invariant
                i <= depositors.len(),
                self.wf(),
                self.deposits@ == old(self).deposits@,
                self.settled@ == old(self).settled@,
                self.mature_balance == old(self).mature_balance,
                self.pending_balance == old(self).pending_balance,
                newly_matured == settle_run(depositors@.subrange(0, i as int), self.deposits@, self.settled@, now).0,
                settled@ == settle_run(depositors@.subrange(0, i as int), self.deposits@, self.settled@, now).1,
            decreases depositors.len() - i,
        {
            proof {
                assert(depositors@.subrange(0, i as int + 1).drop_last() =~= depositors@.subrange(0, i as int));
                lemma_settle_run_wf(depositors@.subrange(0, i as int), self.deposits@, self.settled@, now);
            }
            let d = depositors[i];
            match self.deposits.get(&d.0) {
                None => {},
                Some(rec) => {
                    let age = now.saturating_sub(rec.deposited_at);
                    if age >= DEPOSIT_AGE_REQUIREMENT_SECS {
                        let done: i128 = match settled.get(&d.0) {
                            Some(s) => *s,
                            None => 0,
                        };
                        let fresh = rec.amount - done;
                        match newly_matured.checked_add(fresh) {
                            Some(v) => newly_matured = v,
                            None => {
                                proof {
                                    self.lemma_settle_monotone(depositors@, i as int + 1, now);
                                }
                                return Err(FlashLoanDefenseError::MathOverflow);
                            },
                        }
                        settled.insert(d.0, rec.amount);
                    }
                },
            }
            i = i + 1;
        }
        proof {
            assert(depositors@.subrange(0, depositors@.len() as int) =~= depositors@);
            lemma_settle_run_wf(depositors@, self.deposits@, self.settled@, now);
        }
        let new_mature = match self.mature_balance.checked_add(newly_matured) {
            Some(v) => v,
            None => return Err(FlashLoanDefenseError::MathOverflow),
        };
        self.mature_balance = new_mature;
        self.pending_balance = saturating_sub_i128(self.pending_balance, newly_matured);
        self.settled = settled;
        Ok(newly_matured)
    }

    proof fn lemma_settle_monotone(&self, deps: Seq<Address>, j: int, now: u64)
        requires
            self.wf(),
            0 <= j <= deps.len(),
        ensures
            settle_run(deps, self.deposits@, self.settled@, now).0 >= settle_run(deps.subrange(0, j), self.deposits@, self.settled@, now).0,
        decreases deps.len() - j,
    {
        if j < deps.len() {
            self.lemma_settle_monotone(deps, j + 1, now);
            assert(deps.subrange(0, j + 1).drop_last() =~= deps.subrange(0, j));
            lemma_settle_run_wf(deps.subrange(0, j), self.deposits@, self.settled@, now);
        } else {
            assert(deps.subrange(0, j) =~= deps);
        }
    }

    /// The pool's mature balance.
    pub fn get_mature_pool_balance(&self) -> (r: i128)
        ensures
            r == self.mature_balance,
    {
        self.mature_balance
    }

    /// The pool's pending balance.
    pub fn get_pending_pool_balance(&self) -> (r: i128)
        ensures
            r == self.pending_balance,
    {
        self.pending_balance
    }
}

/// A deposit restarts the clock: right after a deposit at `now`, the
/// depositor's matching weight stays zero until 48 hours have passed, whatever
/// was deposited before.
pub proof fn lemma_deposit_restarts_clock(deposits: Map<u64, DepositRecord>, d: Address, rec: DepositRecord, now: u64, later: u64)
    requires
        rec.deposited_at == now,
        later < now + DEPOSIT_AGE_REQUIREMENT_SECS,
    ensures
        weight_spec(deposits.insert(d.0, rec), d, later) == 0,
{
}

} // verus!
