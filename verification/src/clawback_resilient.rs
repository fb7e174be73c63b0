//! Clawback-resilient accounting: users hold shares of the contract's token
//! balance rather than fixed amounts, so an external clawback or deposit
//! changes every user's balance proportionally.
use vstd::prelude::*;
use std::collections::HashMap;
use crate::types::Address;

verus! {

broadcast use vstd::std_specs::hash::group_hash_axioms;

/// Precision of shares: six decimals.
pub const SHARES_SCALING_FACTOR: i128 = 1_000_000;

/// Why a share operation was refused.
#[derive(Debug, Clone, Copy, PartialEq, Eq, Structural)]
pub enum BalanceError {
    InsufficientShares,
    MathOverflow,
    InvalidAmount,
    ZeroShares,
    NotInitialized,
}

/// Share accounting of one token.
#[derive(Debug)]
pub struct ShareBasedBalance {
    pub total_shares: i128,
    /// Shares of each user, by address identity.
    pub user_shares: HashMap<u64, i128>,
    /// The token balance seen at the last update.
    pub last_known_balance: i128,
    pub balance_timestamp: u64,
    pub token_address: Address,
}

/// A recorded external change of the token balance.
#[derive(Debug, Clone)]
pub struct BalanceAdjustmentEvent {
    pub old_balance: i128,
    pub new_balance: i128,
    pub timestamp: u64,
    pub reason: String,
}

/// Shares worth `amount` tokens when the pool holds `balance` tokens in
/// `total` shares.
pub open spec fn shares_for(amount: int, balance: int, total: int) -> int {
    ((amount * (SHARES_SCALING_FACTOR as int)) * total / balance) / (SHARES_SCALING_FACTOR as int)
}

/// Tokens that `shares` are worth when the pool holds `balance` tokens in
/// `total` shares.
pub open spec fn amount_for(shares: int, balance: int, total: int) -> int {
    shares * balance / total
}

/// A user's shares, zero when none are recorded.
pub open spec fn shares_of(m: Map<u64, i128>, u: Address) -> int {
    if m.contains_key(u.0) { m[u.0] as int } else { 0 }
}

/// The share trackers, one per token.
pub struct ClawbackResilientTracker {
    pub balances: HashMap<u64, ShareBasedBalance>,
    pub events: HashMap<u64, Vec<BalanceAdjustmentEvent>>,
}

impl ClawbackResilientTracker {
    /// No token tracked.
    pub fn new() -> (r: Self)
        ensures
            r.balances@ == Map::<u64, ShareBasedBalance>::empty(),
            r.events@ == Map::<u64, Vec<BalanceAdjustmentEvent>>::empty(),
    {
        ClawbackResilientTracker { balances: HashMap::new(), events: HashMap::new() }
    }

    /// Starts tracking `token_address` whose contract balance is
    /// `initial_balance`, with one share unit per token unit.
    pub fn initialize_balance_tracking(&mut self, admin: Address, token_address: Address, initial_balance: i128, now: u64) -> (r: Result<(), BalanceError>)
        ensures
            initial_balance <= 0 ==> r == Err::<(), BalanceError>(BalanceError::InvalidAmount)
                && final(self).balances@ == old(self).balances@,
            initial_balance > 0 ==> r is Ok && final(self).balances@.dom() == old(self).balances@.dom().insert(token_address.0)
                && ({
                    let b = final(self).balances@[token_address.0];
                    &&& b.total_shares == SHARES_SCALING_FACTOR
                    &&& b.user_shares@ == Map::<u64, i128>::empty()
                    &&& b.last_known_balance == initial_balance
                    &&& b.balance_timestamp == now
                    &&& b.token_address == token_address
                })
                && forall|k: u64| k != token_address.0 && #[trigger] old(self).balances@.contains_key(k)
                    ==> final(self).balances@[k] == old(self).balances@[k],
            final(self).events@ == old(self).events@,
    {
        if initial_balance <= 0 {
            return Err(BalanceError::InvalidAmount);
        }
        let share_balance = ShareBasedBalance {
            total_shares: SHARES_SCALING_FACTOR,
            user_shares: HashMap::new(),
            last_known_balance: initial_balance,
            balance_timestamp: now,
            token_address,
        };
        self.balances.insert(token_address.0, share_balance);
        proof {
            assert(self.balances@.dom() =~= old(self).balances@.dom().insert(token_address.0));
        }
        Ok(())
    }

    /// Shares worth `amount` tokens at the given pool state.
    pub fn calculate_shares_from_amount(amount: i128, current_balance: i128, total_shares: i128) -> (r: Result<i128, BalanceError>)
        requires
            amount >= 0,
            current_balance >= 0,
            total_shares >= 0,
            (amount * SHARES_SCALING_FACTOR) * total_shares <= i128::MAX,
        ensures
            (current_balance == 0 || total_shares == 0) ==> r == Err::<i128, BalanceError>(BalanceError::ZeroShares),
            !(current_balance == 0 || total_shares == 0) ==> r == Ok::<i128, BalanceError>(
                shares_for(amount as int, current_balance as int, total_shares as int) as i128,
            ),
    {
        if current_balance == 0 || total_shares == 0 {
            return Err(BalanceError::ZeroShares);
        }
        proof {
            assert(amount * SHARES_SCALING_FACTOR <= (amount * SHARES_SCALING_FACTOR) * total_shares) by (nonlinear_arith)
                requires
                    amount >= 0,
                    total_shares >= 1,
            ;
        }
        let scaled_amount = match amount.checked_mul(SHARES_SCALING_FACTOR) {
            Some(v) => v,
            None => return Err(BalanceError::MathOverflow),
        };
        proof {
            vstd::arithmetic::mul::lemma_mul_nonnegative(scaled_amount as int, total_shares as int);
        }
        let product = scaled_amount * total_shares;
        let shares = product / current_balance;
        Ok(shares / SHARES_SCALING_FACTOR)
    }

    /// Tokens that `shares` are worth at the given pool state.
    pub fn calculate_amount_from_shares(shares: i128, current_balance: i128, total_shares: i128) -> (r: Result<i128, BalanceError>)
        requires
            shares >= 0,
            current_balance >= 0,
            total_shares >= 0,
            shares * current_balance <= i128::MAX,
        ensures
            total_shares == 0 ==> r == Err::<i128, BalanceError>(BalanceError::ZeroShares),
            total_shares > 0 ==> r == Ok::<i128, BalanceError>(amount_for(shares as int, current_balance as int, total_shares as int) as i128),
    {
        if total_shares == 0 {
            return Err(BalanceError::ZeroShares);
        }
        proof {
            vstd::arithmetic::mul::lemma_mul_nonnegative(shares as int, current_balance as int);
        }
        Ok((shares * current_balance) / total_shares)
    }

    /// Credits `user` with the shares that `amount` tokens buy, given the
    /// contract's current token balance `current_balance`.
    pub fn add_user_shares(
        &mut self,
        admin: Address,
        token_address: Address,
        user: Address,
        amount: i128,
        current_balance: i128,
        now: u64,
    ) -> (r: Result<(), BalanceError>)
        requires
            current_balance >= 0,
            old(self).balances@.contains_key(token_address.0) ==> {
                let b = old(self).balances@[token_address.0];
                b.total_shares >= 0 && (amount * SHARES_SCALING_FACTOR) * b.total_shares <= i128::MAX
            },
        ensures
            final(self).events@ == old(self).events@,
            final(self).balances@.dom() == old(self).balances@.dom(),
            forall|k: u64| k != token_address.0 && #[trigger] old(self).balances@.contains_key(k)
                ==> final(self).balances@[k] == old(self).balances@[k],
            amount <= 0 ==> r == Err::<(), BalanceError>(BalanceError::InvalidAmount),
            amount > 0 && !old(self).balances@.contains_key(token_address.0) ==> r == Err::<(), BalanceError>(BalanceError::NotInitialized),
            amount > 0 && old(self).balances@.contains_key(token_address.0)
                && (current_balance == 0 || old(self).balances@[token_address.0].total_shares == 0)
                ==> r == Err::<(), BalanceError>(BalanceError::ZeroShares),
            r is Err ==> final(self).balances@ == old(self).balances@,
            r is Ok ==> {
                let b = old(self).balances@[token_address.0];
                let nb = final(self).balances@[token_address.0];
                let s = shares_for(amount as int, current_balance as int, b.total_shares as int);
                &&& amount > 0 && old(self).balances@.contains_key(token_address.0)
                &&& nb.user_shares@ == b.user_shares@.insert(user.0, (shares_of(b.user_shares@, user) + s) as i128)
                &&& nb.total_shares == b.total_shares + s
                &&& nb.last_known_balance == current_balance
                &&& nb.balance_timestamp == now
                &&& nb.token_address == b.token_address
            },
    {
        if amount <= 0 {
            return Err(BalanceError::InvalidAmount);
        }
        let mut share_balance = match self.balances.remove(&token_address.0) {
            Some(b) => b,
            None => return Err(BalanceError::NotInitialized),
        };
        let shares_to_add = match Self::calculate_shares_from_amount(amount, current_balance, share_balance.total_shares) {
            Ok(s) => s,
            Err(e) => {
                self.balances.insert(token_address.0, share_balance);
                proof { assert(self.balances@ =~= old(self).balances@); }
                return Err(e);
            },
        };
        let current_user_shares: i128 = match share_balance.user_shares.get(&user.0) {
            Some(s) => *s,
            None => 0,
        };
        let new_user_shares = match current_user_shares.checked_add(shares_to_add) {
            Some(v) => v,
            None => {
                self.balances.insert(token_address.0, share_balance);
                proof { assert(self.balances@ =~= old(self).balances@); }
                return Err(BalanceError::MathOverflow);
            },
        };
        let new_total = match share_balance.total_shares.checked_add(shares_to_add) {
            Some(v) => v,
            None => {
                self.balances.insert(token_address.0, share_balance);
                proof { assert(self.balances@ =~= old(self).balances@); }
                return Err(BalanceError::MathOverflow);
            },
        };
        share_balance.user_shares.insert(user.0, new_user_shares);
        share_balance.total_shares = new_total;
        share_balance.last_known_balance = current_balance;
        share_balance.balance_timestamp = now;
        self.balances.insert(token_address.0, share_balance);
        proof {
            assert(self.balances@.dom() =~= old(self).balances@.dom());
        }
        Ok(())
    }

    /// Redeems `shares` of `user` for the tokens they are worth at the
    /// contract's current token balance `current_balance`; returns that amount.
    pub fn remove_user_shares(
        &mut self,
        token_address: Address,
        user: Address,
        shares: i128,
        current_balance: i128,
        now: u64,
    ) -> (r: Result<i128, BalanceError>)
        requires
            current_balance >= 0,
            shares * current_balance <= i128::MAX,
            old(self).balances@.contains_key(token_address.0) ==> old(self).balances@[token_address.0].total_shares >= 0,
        ensures
            final(self).events@ == old(self).events@,
            final(self).balances@.dom() == old(self).balances@.dom(),
            forall|k: u64| k != token_address.0 && #[trigger] old(self).balances@.contains_key(k)
                ==> final(self).balances@[k] == old(self).balances@[k],
            shares <= 0 ==> r == Err::<i128, BalanceError>(BalanceError::InvalidAmount),
            shares > 0 && !old(self).balances@.contains_key(token_address.0) ==> r == Err::<i128, BalanceError>(BalanceError::NotInitialized),
            shares > 0 && old(self).balances@.contains_key(token_address.0)
                && shares_of(old(self).balances@[token_address.0].user_shares@, user) < shares
                ==> r == Err::<i128, BalanceError>(BalanceError::InsufficientShares),
            r is Err ==> final(self).balances@ == old(self).balances@,
            r is Ok ==> {
                let b = old(self).balances@[token_address.0];
                let nb = final(self).balances@[token_address.0];
                let left = shares_of(b.user_shares@, user) - shares;
                &&& shares > 0 && old(self).balances@.contains_key(token_address.0) && left >= 0
                &&& b.total_shares != 0
                &&& r == Ok::<i128, BalanceError>(amount_for(shares as int, current_balance as int, b.total_shares as int) as i128)
                &&& left == 0 ==> nb.user_shares@ == b.user_shares@.remove(user.0)
                &&& left > 0 ==> nb.user_shares@ == b.user_shares@.insert(user.0, left as i128)
                &&& nb.total_shares == b.total_shares - shares
                &&& nb.last_known_balance == current_balance
                &&& nb.balance_timestamp == now
            },
    {
        if shares <= 0 {
            return Err(BalanceError::InvalidAmount);
        }
        let mut share_balance = match self.balances.remove(&token_address.0) {
            Some(b) => b,
            None => return Err(BalanceError::NotInitialized),
        };
        let current_user_shares: i128 = match share_balance.user_shares.get(&user.0) {
            Some(s) => *s,
            None => 0,
        };
        if current_user_shares < shares {
            self.balances.insert(token_address.0, share_balance);
            proof { assert(self.balances@ =~= old(self).balances@); }
            return Err(BalanceError::InsufficientShares);
        }
        let token_amount = match Self::calculate_amount_from_shares(shares, current_balance, share_balance.total_shares) {
            Ok(a) => a,
            Err(e) => {
                self.balances.insert(token_address.0, share_balance);
                proof { assert(self.balances@ =~= old(self).balances@); }
                return Err(e);
            },
        };
        let new_user_shares = current_user_shares - shares;
        let new_total = match share_balance.total_shares.checked_sub(shares) {
            Some(v) => v,
            None => {
                self.balances.insert(token_address.0, share_balance);
                proof { assert(self.balances@ =~= old(self).balances@); }
                return Err(BalanceError::MathOverflow);
            },
        };
        if new_user_shares == 0 {
            share_balance.user_shares.remove(&user.0);
        } else {
            share_balance.user_shares.insert(user.0, new_user_shares);
        }
        share_balance.total_shares = new_total;
        share_balance.last_known_balance = current_balance;
        share_balance.balance_timestamp = now;
        self.balances.insert(token_address.0, share_balance);
        proof {
            assert(self.balances@.dom() =~= old(self).balances@.dom());
        }
        Ok(token_amount)
    }

    /// The tokens `user`'s shares are worth at the contract's current token
    /// balance `current_balance`.
    pub fn get_user_balance(&self, token_address: Address, user: Address, current_balance: i128) -> (r: Result<i128, BalanceError>)
        requires
            current_balance >= 0,
            self.balances@.contains_key(token_address.0) ==> self.balances@[token_address.0].total_shares >= 0,
            self.balances@.contains_key(token_address.0) ==>
                shares_of(self.balances@[token_address.0].user_shares@, user) * current_balance <= i128::MAX
                && shares_of(self.balances@[token_address.0].user_shares@, user) * current_balance >= i128::MIN,
        ensures
            !self.balances@.contains_key(token_address.0) ==> r == Err::<i128, BalanceError>(BalanceError::NotInitialized),
            self.balances@.contains_key(token_address.0) ==> {
                let b = self.balances@[token_address.0];
                let s = shares_of(b.user_shares@, user);
                &&& (s == 0 || b.total_shares == 0) ==> r == Ok::<i128, BalanceError>(0)
                &&& !(s == 0 || b.total_shares == 0) ==> r == Ok::<i128, BalanceError>(
                    crate::grant_appeals::trunc_div(s * current_balance, b.total_shares as int) as i128,
                )
            },
    {
        let share_balance = match self.balances.get(&token_address.0) {
            Some(b) => b,
            None => return Err(BalanceError::NotInitialized),
        };
        let user_shares: i128 = match share_balance.user_shares.get(&user.0) {
            Some(s) => *s,
            None => 0,
        };
        if user_shares == 0 || share_balance.total_shares == 0 {
            return Ok(0);
        }
        let product = user_shares * current_balance;
        let q = product / share_balance.total_shares;
        proof {
            if product >= 0 {
                vstd::arithmetic::div_mod::lemma_div_is_ordered_by_denominator(product as int, 1, share_balance.total_shares as int);
                vstd::arithmetic::div_mod::lemma_div_pos_is_pos(product as int, share_balance.total_shares as int);
            } else {
                vstd::arithmetic::div_mod::lemma_div_is_ordered_by_denominator(-(product as int), 1, share_balance.total_shares as int);
                vstd::arithmetic::div_mod::lemma_div_pos_is_pos(-(product as int), share_balance.total_shares as int);
            }
        }
        Ok(q)
    }

    /// Records an external change of the contract's token balance (a clawback
    /// when it shrank, a deposit when it grew) and adopts it as the known
    /// balance.
    pub fn handle_balance_change(&mut self, token_address: Address, current_balance: i128, now: u64) -> (r: Result<(), BalanceError>)
        ensures
            !old(self).balances@.contains_key(token_address.0) ==> r == Err::<(), BalanceError>(BalanceError::NotInitialized)
                && final(self).balances@ == old(self).balances@ && final(self).events@ == old(self).events@,
            old(self).balances@.contains_key(token_address.0) ==> {
                let b = old(self).balances@[token_address.0];
                let nb = final(self).balances@[token_address.0];
                &&& r is Ok
                &&& final(self).balances@.dom() == old(self).balances@.dom()
                &&& forall|k: u64| k != token_address.0 && #[trigger] old(self).balances@.contains_key(k)
                    ==> final(self).balances@[k] == old(self).balances@[k]
                &&& b.last_known_balance == current_balance ==> final(self).balances@ == old(self).balances@
                    && final(self).events@ == old(self).events@
                &&& b.last_known_balance != current_balance ==> {
                    &&& nb.last_known_balance == current_balance
                    &&& nb.balance_timestamp == now
                    &&& nb.total_shares == b.total_shares
                    &&& nb.user_shares@ == b.user_shares@
                    &&& final(self).events@.contains_key(token_address.0)
                    &&& final(self).events@[token_address.0]@.len() == event_count(old(self).events@, token_address) + 1
                    &&& final(self).events@[token_address.0]@.last().old_balance == b.last_known_balance
                    &&& final(self).events@[token_address.0]@.last().new_balance == current_balance
                    &&& final(self).events@[token_address.0]@.last().timestamp == now
                }
            },
    {
        let mut share_balance = match self.balances.remove(&token_address.0) {
            Some(b) => b,
            None => return Err(BalanceError::NotInitialized),
        };
        let last_balance = share_balance.last_known_balance;
        if current_balance != last_balance {
            let reason = if current_balance < last_balance {
                String::from_str("External clawback detected")
            } else {
                String::from_str("External deposit detected")
            };
            let adjustment = BalanceAdjustmentEvent { old_balance: last_balance, new_balance: current_balance, timestamp: now, reason };
            share_balance.last_known_balance = current_balance;
            share_balance.balance_timestamp = now;
            let mut events = match self.events.remove(&token_address.0) {
                Some(v) => v,
                None => Vec::new(),
            };
            events.push(adjustment);
            self.events.insert(token_address.0, events);
        }
        self.balances.insert(token_address.0, share_balance);
        proof {
            assert(self.balances@.dom() =~= old(self).balances@.dom());
            if current_balance == last_balance {
                assert(self.balances@ =~= old(self).balances@);
            }
        }
        Ok(())
    }

    /// The recorded balance adjustments of a token.
    pub fn get_balance_events(&self, token_address: Address) -> (r: &[BalanceAdjustmentEvent])
        ensures
            r@.len() == event_count(self.events@, token_address),
            self.events@.contains_key(token_address.0) ==> r@ == self.events@[token_address.0]@,
    {
        match self.events.get(&token_address.0) {
            Some(v) => v.as_slice(),
            None => &[],
        }
    }
}

/// Number of adjustments recorded for a token.
pub open spec fn event_count(events: Map<u64, Vec<BalanceAdjustmentEvent>>, t: Address) -> int {
    if events.contains_key(t.0) { events[t.0]@.len() as int } else { 0 }
}

/// A holder's tokens follow the pool: with the holder's shares and the total
/// unchanged (as a balance change leaves them), a smaller pool balance never
/// gives the holder more tokens than before, and a holder of at most all the
/// shares is never owed more than the pool holds.
pub proof fn lemma_clawback_scales_balances(shares: int, total: int, old_balance: int, new_balance: int)
    requires
        0 <= shares <= total,
        0 < total,
        0 <= new_balance <= old_balance,
    ensures
        crate::grant_appeals::trunc_div(shares * new_balance, total)
            <= crate::grant_appeals::trunc_div(shares * old_balance, total),
        crate::grant_appeals::trunc_div(shares * new_balance, total) <= new_balance,
{
    vstd::arithmetic::mul::lemma_mul_inequality(new_balance, old_balance, shares);
    vstd::arithmetic::mul::lemma_mul_nonnegative(shares, new_balance);
    vstd::arithmetic::mul::lemma_mul_is_commutative(shares, new_balance);
    vstd::arithmetic::mul::lemma_mul_is_commutative(shares, old_balance);
    vstd::arithmetic::div_mod::lemma_div_is_ordered(shares * new_balance, shares * old_balance, total);
    vstd::arithmetic::mul::lemma_mul_inequality(shares, total, new_balance);
    vstd::arithmetic::div_mod::lemma_div_is_ordered(shares * new_balance, total * new_balance, total);
    vstd::arithmetic::div_mod::lemma_div_by_multiple(new_balance, total);
    vstd::arithmetic::mul::lemma_mul_is_commutative(total, new_balance);
}

} // verus!
