//! Streaming-to-yield: the earned but unclaimed balance of a grant sits in a
//! yield vault. The principal stays withdrawable; simple interest accrues on
//! it and is split between the grantee and the protocol treasury.
use vstd::prelude::*;
use std::collections::HashMap;
use crate::types::Address;

verus! {

broadcast use vstd::std_specs::hash::group_hash_axioms;

/// Grantee's share of interest, in basis points: 70%.
pub const GRANTEE_YIELD_SHARE_BPS: i128 = 7_000;
/// Treasury's share of interest, in basis points: 30%.
pub const TREASURY_YIELD_SHARE_BPS: i128 = 3_000;
/// Basis points denominator.
pub const BPS_DENOM: i128 = 10_000;
/// Seconds in a year of 365 days.
pub const YEAR_SECS: i128 = 31_536_000;

/// The vault position of one grant.
#[derive(Debug, Clone, Copy, PartialEq, Eq, Structural)]
pub struct YieldPosition {
    pub grant_id: u64,
    pub grantee: Address,
    /// Principal in the vault: earned but unclaimed balance.
    pub principal: i128,
    /// Interest accrued and not yet distributed.
    pub accrued_interest: i128,
    /// Annual yield, in basis points.
    pub apy_bps: i128,
    /// Time of the last accrual.
    pub last_accrual_ts: u64,
    pub enabled: bool,
}

/// Storage keys of the vault.
#[derive(Debug, Clone, Copy, PartialEq, Eq, Structural)]
pub enum StreamingYieldKey {
    YieldPosition(u64),
    Treasury,
}

/// Why a vault operation was refused.
#[derive(Debug, Clone, Copy, PartialEq, Eq, Structural)]
pub enum StreamingYieldError {
    NotAuthorized,
    InvalidAmount,
    YieldNotEnabled,
    PositionNotFound,
    MathOverflow,
    InsufficientPrincipal,
}

/// `x`, or `i128::MAX` when it is larger.
pub open spec fn saturate(x: int) -> int {
    if x > i128::MAX { i128::MAX as int } else { x }
}

/// Interest accrued on `pos` from its last accrual until `now`:
/// principal * apy * elapsed / (10000 * year), each product saturating.
pub open spec fn accrued_between(pos: YieldPosition, now: u64) -> int {
    let elapsed: int = if now > pos.last_accrual_ts { now - pos.last_accrual_ts } else { 0 };
    if elapsed == 0 || pos.principal == 0 {
        0
    } else {
        saturate(saturate(pos.principal * pos.apy_bps) * elapsed) / (BPS_DENOM * YEAR_SECS)
    }
}

/// A position's amounts are never negative.
pub open spec fn position_ok(pos: YieldPosition) -> bool {
    pos.principal >= 0 && pos.accrued_interest >= 0 && pos.apy_bps >= 0
}

/// The grantee's share of `total` interest; the treasury gets the rest.
pub open spec fn grantee_share(total: int) -> int {
    total * GRANTEE_YIELD_SHARE_BPS / (BPS_DENOM as int)
}

/// Vault positions by grant.
pub struct StreamingYield {
    pub positions: HashMap<u64, YieldPosition>,
}

fn saturating_product(a: i128, b: i128) -> (r: i128)
    requires
        a >= 0,
        b >= 0,
    ensures
        r == saturate(a * b),
        r >= 0,
{
    proof {
        assert(a * b >= 0) by (nonlinear_arith)
            requires
                a >= 0,
                b >= 0,
        ;
    }
    match a.checked_mul(b) {
        Some(v) => v,
        None => i128::MAX,
    }
}

/// Interest accrued on `pos` from its last accrual until `now`.
pub fn accrue(pos: &YieldPosition, now: u64) -> (r: i128)
    requires
        position_ok(*pos),
    ensures
        r == accrued_between(*pos, now),
        r >= 0,
{
    let elapsed = now.saturating_sub(pos.last_accrual_ts) as i128;
    if elapsed == 0 || pos.principal == 0 {
        return 0;
    }
    let p = saturating_product(pos.principal, pos.apy_bps);
    let q = saturating_product(p, elapsed);
    q / (BPS_DENOM * YEAR_SECS)
}

impl StreamingYield {
    /// Every position is stored under its grant and has no negative amount.
    pub open spec fn wf(&self) -> bool {
        forall|g: u64| #[trigger] self.positions@.contains_key(g)
            ==> position_ok(self.positions@[g]) && self.positions@[g].grant_id == g
    }

    /// A vault with no positions.
    pub fn new() -> (r: Self)
        ensures
            r.wf(),
            r.positions@ == Map::<u64, YieldPosition>::empty(),
    {
        StreamingYield { positions: HashMap::new() }
    }

    /// Opens (or resets) the position of `grant_id` at `now` with an empty
    /// principal and the vault's annual yield `apy_bps`; a negative yield is
    /// refused.
    pub fn enable_yield(&mut self, grant_id: u64, grantee: Address, apy_bps: i128, now: u64) -> (r: Result<(), StreamingYieldError>)
        requires
            old(self).wf(),
        ensures
            final(self).wf(),
            apy_bps < 0 <==> r is Err,
            r is Err ==> r == Err::<(), StreamingYieldError>(StreamingYieldError::InvalidAmount)
                && final(self).positions@ == old(self).positions@,
            r is Ok ==> final(self).positions@ == old(self).positions@.insert(grant_id, YieldPosition {
                grant_id,
                grantee,
                principal: 0,
                accrued_interest: 0,
                apy_bps,
                last_accrual_ts: now,
                enabled: true,
            }),
    {
        if apy_bps < 0 {
            return Err(StreamingYieldError::InvalidAmount);
        }
        let pos = YieldPosition {
            grant_id,
            grantee,
            principal: 0,
            accrued_interest: 0,
            apy_bps,
            last_accrual_ts: now,
            enabled: true,
        };
        self.positions.insert(grant_id, pos);
        Ok(())
    }

    /// Adds `amount` to the principal of `grant_id` at `now`, after settling
    /// the interest accrued so far.
    pub fn deposit_to_yield(&mut self, grant_id: u64, amount: i128, now: u64) -> (r: Result<(), StreamingYieldError>)
        requires
            old(self).wf(),
        ensures
            final(self).wf(),
            amount <= 0 ==> r == Err::<(), StreamingYieldError>(StreamingYieldError::InvalidAmount),
            amount > 0 && !old(self).positions@.contains_key(grant_id)
                ==> r == Err::<(), StreamingYieldError>(StreamingYieldError::PositionNotFound),
            amount > 0 && old(self).positions@.contains_key(grant_id) && !old(self).positions@[grant_id].enabled
                ==> r == Err::<(), StreamingYieldError>(StreamingYieldError::YieldNotEnabled),
            amount > 0 && old(self).positions@.contains_key(grant_id) && old(self).positions@[grant_id].enabled ==> {
                let pos = old(self).positions@[grant_id];
                let interest = pos.accrued_interest + accrued_between(pos, now);
                let principal = pos.principal + amount;
                if interest > i128::MAX || principal > i128::MAX {
                    r == Err::<(), StreamingYieldError>(StreamingYieldError::MathOverflow)
                } else {
                    &&& r is Ok
                    &&& final(self).positions@ == old(self).positions@.insert(grant_id, YieldPosition {
                        accrued_interest: interest as i128,
                        principal: principal as i128,
                        last_accrual_ts: now,
                        ..pos
                    })
                }
            },
            r is Err ==> final(self).positions@ == old(self).positions@,
    {
        if amount <= 0 {
            return Err(StreamingYieldError::InvalidAmount);
        }
        let pos = match self.positions.get(&grant_id) {
            Some(p) => *p,
            None => return Err(StreamingYieldError::PositionNotFound),
        };
        if !pos.enabled {
            return Err(StreamingYieldError::YieldNotEnabled);
        }
        let interest = accrue(&pos, now);
        let accrued = match pos.accrued_interest.checked_add(interest) {
            Some(v) => v,
            None => return Err(StreamingYieldError::MathOverflow),
        };
        let principal = match pos.principal.checked_add(amount) {
            Some(v) => v,
            None => return Err(StreamingYieldError::MathOverflow),
        };
        let updated = YieldPosition { accrued_interest: accrued, principal, last_accrual_ts: now, ..pos };
        self.positions.insert(grant_id, updated);
        Ok(())
    }

    /// Withdraws `amount` of principal from `grant_id` at `now` and
    /// distributes all interest accrued: 70% to the grantee, the rest to the
    /// treasury. Returns `(principal_withdrawn, grantee_interest,
    /// treasury_interest)`; the caller transfers the treasury's share when it
    /// is positive.
    pub fn withdraw_from_yield(&mut self, grant_id: u64, amount: i128, now: u64) -> (r: Result<(i128, i128, i128), StreamingYieldError>)
        requires
            old(self).wf(),
            old(self).positions@.contains_key(grant_id) ==> {
                let pos = old(self).positions@[grant_id];
                (pos.accrued_interest + accrued_between(pos, now)) * GRANTEE_YIELD_SHARE_BPS <= i128::MAX
            },
        ensures
            final(self).wf(),
            amount <= 0 ==> r == Err::<(i128, i128, i128), StreamingYieldError>(StreamingYieldError::InvalidAmount),
            amount > 0 && !old(self).positions@.contains_key(grant_id)
                ==> r == Err::<(i128, i128, i128), StreamingYieldError>(StreamingYieldError::PositionNotFound),
            amount > 0 && old(self).positions@.contains_key(grant_id) && !old(self).positions@[grant_id].enabled
                ==> r == Err::<(i128, i128, i128), StreamingYieldError>(StreamingYieldError::YieldNotEnabled),
            amount > 0 && old(self).positions@.contains_key(grant_id) && old(self).positions@[grant_id].enabled
                && old(self).positions@[grant_id].principal < amount
                ==> r == Err::<(i128, i128, i128), StreamingYieldError>(StreamingYieldError::InsufficientPrincipal),
            amount > 0 && old(self).positions@.contains_key(grant_id) && old(self).positions@[grant_id].enabled
                && old(self).positions@[grant_id].principal >= amount ==> {
                let pos = old(self).positions@[grant_id];
                let total = pos.accrued_interest + accrued_between(pos, now);
                if total > i128::MAX {
                    r == Err::<(i128, i128, i128), StreamingYieldError>(StreamingYieldError::MathOverflow)
                } else {
                    &&& r == Ok::<(i128, i128, i128), StreamingYieldError>(
                        (amount, grantee_share(total) as i128, (total - grantee_share(total)) as i128),
                    )
                    &&& final(self).positions@ == old(self).positions@.insert(grant_id, YieldPosition {
                        principal: (pos.principal - amount) as i128,
                        accrued_interest: 0,
                        last_accrual_ts: now,
                        ..pos
                    })
                }
            },
            r matches Ok(t) ==> t.1 + t.2 == old(self).positions@[grant_id].accrued_interest
                + accrued_between(old(self).positions@[grant_id], now) && t.1 >= 0 && t.2 >= 0,
            r is Err ==> final(self).positions@ == old(self).positions@,
    {
        if amount <= 0 {
            return Err(StreamingYieldError::InvalidAmount);
        }
        let pos = match self.positions.get(&grant_id) {
            Some(p) => *p,
            None => return Err(StreamingYieldError::PositionNotFound),
        };
        if !pos.enabled {
            return Err(StreamingYieldError::YieldNotEnabled);
        }
        if pos.principal < amount {
            return Err(StreamingYieldError::InsufficientPrincipal);
        }
        let new_interest = accrue(&pos, now);
        let total_interest = match pos.accrued_interest.checked_add(new_interest) {
            Some(v) => v,
            None => return Err(StreamingYieldError::MathOverflow),
        };
        proof {
            assert(total_interest * 7000 / 10000int <= total_interest) by (nonlinear_arith)
                requires
                    total_interest >= 0,
            ;
            assert(total_interest * 7000 / 10000int >= 0) by (nonlinear_arith)
                requires
                    total_interest >= 0,
            ;
        }
        let grantee_interest = total_interest * GRANTEE_YIELD_SHARE_BPS / BPS_DENOM;
        let treasury_interest = total_interest - grantee_interest;
        let updated = YieldPosition {
            principal: pos.principal - amount,
            accrued_interest: 0,
            last_accrual_ts: now,
            ..pos
        };
        self.positions.insert(grant_id, updated);
        Ok((amount, grantee_interest, treasury_interest))
    }

    /// The position of `grant_id`, if any.
    pub fn get_yield_position(&self, grant_id: u64) -> (r: Option<YieldPosition>)
        ensures
            r == (if self.positions@.contains_key(grant_id) { Some(self.positions@[grant_id]) } else { None }),
    {
        match self.positions.get(&grant_id) {
            Some(p) => Some(*p),
            None => None,
        }
    }

    /// Interest owed to `grant_id` at `now` without settling it: the accrued
    /// interest plus what accrued since; zero without a position.
    pub fn pending_interest(&self, grant_id: u64, now: u64) -> (r: i128)
        requires
            self.wf(),
            self.positions@.contains_key(grant_id) ==> {
                let pos = self.positions@[grant_id];
                pos.accrued_interest + accrued_between(pos, now) <= i128::MAX
            },
        ensures
            r == (if self.positions@.contains_key(grant_id) {
                let pos = self.positions@[grant_id];
                pos.accrued_interest + accrued_between(pos, now)
            } else {
                0
            }),
    {
        let pos = match self.positions.get(&grant_id) {
            Some(p) => *p,
            None => return 0,
        };
        let interest = accrue(&pos, now);
        pos.accrued_interest + interest
    }
}

} // verus!
