//! Milestone grants with freezing and cancellation that pays out the
//! time-prorated share of what is left.
use vstd::prelude::*;
use std::collections::HashMap;
use crate::types::Address;

verus! {

broadcast use vstd::std_specs::hash::group_hash_axioms;

/// Payment state of a grant.
#[derive(Debug, Clone, Copy, PartialEq, Eq, Structural)]
pub enum PaymentStatus {
    Active,
    PausedDueToFreeze,
    Cancelled,
    Completed,
}

/// Errors of the grant stream.
#[derive(Debug, Clone, Copy, PartialEq, Eq, Structural)]
pub enum ContractError {
    GrantNotFound,
    AlreadyCancelled,
    GrantFrozen,
    AlreadyFrozen,
    NotFrozen,
    MilestoneNotFound,
    MilestoneNotApproved,
    MilestoneAlreadyReleased,
    StreamCapExceeded,
    InsufficientFunds,
}

/// A milestone of a grant.
#[derive(Debug, Clone)]
pub struct Milestone {
    pub amount: i128,
    pub description: String,
    pub deliverable_hash: [u8; 32],
    pub approvals_received: u32,
    pub required_approvals: u32,
    pub is_approved: bool,
    pub is_released: bool,
    pub start_time: u64,
    pub deadline: u64,
}

/// A grant with its milestones.
#[derive(Debug, Clone)]
pub struct Grant {
    pub recipient: Address,
    pub sponsor: Address,
    pub asset: Address,
    pub total_amount: i128,
    pub released_amount: i128,
    pub stream_cap_per_ledger: i128,
    pub milestones: Vec<Milestone>,
    pub reviewers: Vec<Address>,
    pub required_approvals: u32,
    pub is_cancelled: bool,
    pub is_frozen: bool,
    pub freeze_reason: Option<String>,
    pub start_time: u64,
    /// End of the streaming period, used for the prorated payout.
    pub end_time: u64,
    pub payment_status: PaymentStatus,
    pub last_settled_ledger: u32,
}

impl Grant {
    /// The grant is consistent: nothing more was released than granted, and
    /// the streaming period does not end before it starts.
    pub open spec fn wf(&self) -> bool {
        &&& 0 <= self.released_amount <= self.total_amount
        &&& self.start_time <= self.end_time
    }
}

/// What a cancellation at `now` pays out of a grant: the share
/// `(min(now, end) - start) / (end - start)` of the unreleased amount, so
/// nothing before the start and everything left from the end on.
pub open spec fn prorated_spec(
    total: int,
    released: int,
    start: int,
    end: int,
    now: int,
) -> int {
    if end - start == 0 {
        0
    } else {
        let elapsed = if now > start { now - start } else { 0 };
        let remaining = total - released;
        if elapsed >= end - start {
            remaining
        } else {
            (remaining * elapsed) / (end - start)
        }
    }
}

/// The prorated computation does not overflow for this grant at `now`.
pub open spec fn prorated_fits(g: Grant, now: u64) -> bool {
    (g.total_amount - g.released_amount) * (if now > g.start_time { now - g.start_time } else { 0int })
        <= i128::MAX
}


/// What releasing milestone `i` of grant `id` yields: the first failed check
/// in order, or the milestone's amount.
pub open spec fn release_outcome(grants: Map<u32, Grant>, id: u32, i: int) -> Result<i128, ContractError> {
    if !grants.contains_key(id) {
        Err(ContractError::GrantNotFound)
    } else {
        let g = grants[id];
        if g.is_cancelled {
            Err(ContractError::AlreadyCancelled)
        } else if g.is_frozen {
            Err(ContractError::GrantFrozen)
        } else if i >= g.milestones@.len() {
            Err(ContractError::MilestoneNotFound)
        } else if !g.milestones@[i].is_approved {
            Err(ContractError::MilestoneNotApproved)
        } else if g.milestones@[i].is_released {
            Err(ContractError::MilestoneAlreadyReleased)
        } else if g.milestones@[i].amount > g.stream_cap_per_ledger {
            Err(ContractError::StreamCapExceeded)
        } else if g.milestones@[i].amount < 0 || g.milestones@[i].amount > g.total_amount - g.released_amount {
            Err(ContractError::InsufficientFunds)
        } else {
            Ok(g.milestones@[i].amount)
        }
    }
}

/// The grant stream contract's state: grants by identifier.
pub struct GrantStream {
    pub grants: HashMap<u32, Grant>,
}

impl GrantStream {
    /// An empty contract.
    pub fn new() -> (r: GrantStream)
        ensures
            r.grants@ == Map::<u32, Grant>::empty(),
    {
        GrantStream { grants: HashMap::new() }
    }

    /// Stores a grant under an identifier.
    pub fn put_grant(&mut self, grant_id: u32, grant: Grant)
        ensures
            final(self).grants@ == old(self).grants@.insert(grant_id, grant),
    {
        self.grants.insert(grant_id, grant);
    }

    /// Prorated amount for `grant` at `current_time`.
    pub fn calculate_prorated_amount(grant: &Grant, current_time: u64) -> (r: i128)
        requires
            grant.wf(),
            prorated_fits(*grant, current_time),
        ensures
            r == prorated_spec(
                grant.total_amount as int,
                grant.released_amount as int,
                grant.start_time as int,
                grant.end_time as int,
                current_time as int,
            ),
            0 <= r <= grant.total_amount - grant.released_amount,
    {
        let total_duration = grant.end_time - grant.start_time;
        if total_duration == 0 {
            return 0;
        }
        let elapsed = current_time.saturating_sub(grant.start_time);
        let remaining = grant.total_amount - grant.released_amount;
        if elapsed >= total_duration {
            remaining
        } else {
            proof {
                vstd::arithmetic::mul::lemma_mul_nonnegative(remaining as int, elapsed as int);
                if elapsed > 0 {
                    vstd::arithmetic::div_mod::lemma_div_is_ordered_by_denominator(
                        remaining as int * elapsed as int,
                        elapsed as int,
                        total_duration as int,
                    );
                    vstd::arithmetic::div_mod::lemma_div_multiples_vanish(remaining as int, elapsed as int);
                    assert((remaining as int * elapsed as int) / (elapsed as int) == remaining) by {
                        vstd::arithmetic::mul::lemma_mul_is_commutative(remaining as int, elapsed as int);
                    }
                }
            }
            (remaining * elapsed as i128) / total_duration as i128
        }
    }

    /// Cancels a grant and returns what is paid out to the recipient: the
    /// prorated amount, capped by what is unreleased.
    pub fn cancel_stream(&mut self, grant_id: u32, current_time: u64) -> (r: Result<i128, ContractError>)
        requires
            old(self).grants@.contains_key(grant_id) && !old(self).grants@[grant_id].is_cancelled
                ==> old(self).grants@[grant_id].wf() && prorated_fits(old(self).grants@[grant_id], current_time),
        ensures
            !old(self).grants@.contains_key(grant_id) ==> r == Err::<i128, ContractError>(
                ContractError::GrantNotFound,
            ) && final(self).grants@ == old(self).grants@,
            old(self).grants@.contains_key(grant_id) && old(self).grants@[grant_id].is_cancelled
                ==> r == Err::<i128, ContractError>(ContractError::AlreadyCancelled)
                && final(self).grants@ == old(self).grants@,
            old(self).grants@.contains_key(grant_id) && !old(self).grants@[grant_id].is_cancelled
                ==> {
                let g = old(self).grants@[grant_id];
                let p = prorated_spec(
                    g.total_amount as int,
                    g.released_amount as int,
                    g.start_time as int,
                    g.end_time as int,
                    current_time as int,
                );
                let ng = final(self).grants@[grant_id];
                &&& r == Ok::<i128, ContractError>(p as i128)
                &&& final(self).grants@.dom() == old(self).grants@.dom()
                &&& forall|k: u32| k != grant_id && #[trigger] old(self).grants@.contains_key(k)
                    ==> final(self).grants@[k] == old(self).grants@[k]
                &&& ng.released_amount == g.released_amount + p
                &&& ng.is_cancelled
                &&& ng.payment_status == PaymentStatus::Cancelled
                &&& ng.end_time == current_time
                &&& ng.total_amount == g.total_amount
                &&& ng.recipient == g.recipient
            },
    {
        if !self.grants.contains_key(&grant_id) {
            return Err(ContractError::GrantNotFound);
        }
        let mut grant = self.grants.remove(&grant_id).unwrap();
        if grant.is_cancelled {
            self.grants.insert(grant_id, grant);
            proof {
                assert(self.grants@ =~= old(self).grants@);
            }
            return Err(ContractError::AlreadyCancelled);
        }
        let prorated = Self::calculate_prorated_amount(&grant, current_time);
        let unreleased = grant.total_amount - grant.released_amount;
        let payable = if prorated < unreleased { prorated } else { unreleased };
        if payable > 0 {
            grant.released_amount = grant.released_amount + payable;
        }
        grant.is_cancelled = true;
        grant.payment_status = PaymentStatus::Cancelled;
        grant.end_time = current_time;
        self.grants.insert(grant_id, grant);
        proof {
            assert(self.grants@.dom() =~= old(self).grants@.dom());
        }
        Ok(payable)
    }

    /// Administrative cancellation; same effect as `cancel_stream`.
    pub fn force_cancel_stream(&mut self, grant_id: u32, current_time: u64) -> (r: Result<i128, ContractError>)
        requires
            old(self).grants@.contains_key(grant_id) && !old(self).grants@[grant_id].is_cancelled
                ==> old(self).grants@[grant_id].wf() && prorated_fits(old(self).grants@[grant_id], current_time),
        ensures
            !old(self).grants@.contains_key(grant_id) ==> r == Err::<i128, ContractError>(
                ContractError::GrantNotFound,
            ),
            old(self).grants@.contains_key(grant_id) && old(self).grants@[grant_id].is_cancelled
                ==> r == Err::<i128, ContractError>(ContractError::AlreadyCancelled),
            old(self).grants@.contains_key(grant_id) && !old(self).grants@[grant_id].is_cancelled
                ==> {
                let g = old(self).grants@[grant_id];
                &&& r == Ok::<i128, ContractError>(
                    prorated_spec(
                        g.total_amount as int,
                        g.released_amount as int,
                        g.start_time as int,
                        g.end_time as int,
                        current_time as int,
                    ) as i128,
                )
                &&& final(self).grants@[grant_id].is_cancelled
            },
    {
        self.cancel_stream(grant_id, current_time)
    }
    /// Releases an approved milestone: the grant must exist, be neither
    /// cancelled nor frozen, the milestone must exist, be approved and not yet
    /// released, its amount must not exceed the per-ledger stream cap nor what
    /// is left of the grant. Returns the released amount.
    pub fn release_milestone(&mut self, grant_id: u32, milestone_index: u32) -> (r: Result<i128, ContractError>)
        requires
            old(self).grants@.contains_key(grant_id) ==> old(self).grants@[grant_id].wf(),
        ensures
            r == release_outcome(old(self).grants@, grant_id, milestone_index as int),
            r is Err ==> final(self).grants@ == old(self).grants@,
            r is Ok ==> {
                let g = old(self).grants@[grant_id];
                let ng = final(self).grants@[grant_id];
                let m = g.milestones@[milestone_index as int];
                &&& final(self).grants@.dom() == old(self).grants@.dom()
                &&& forall|k: u32| k != grant_id && #[trigger] old(self).grants@.contains_key(k)
                    ==> final(self).grants@[k] == old(self).grants@[k]
                &&& ng.released_amount == g.released_amount + m.amount
                &&& ng.total_amount == g.total_amount
                &&& ng.start_time == g.start_time
                &&& ng.end_time == g.end_time
                &&& ng.wf()
                &&& ng.milestones@.len() == g.milestones@.len()
                &&& ng.milestones@[milestone_index as int].is_released
                &&& ng.milestones@[milestone_index as int].amount == m.amount
                &&& forall|j: int| 0 <= j < g.milestones@.len() && j != milestone_index
                    ==> #[trigger] ng.milestones@[j] == g.milestones@[j]
            },
    {
        if !self.grants.contains_key(&grant_id) {
            return Err(ContractError::GrantNotFound);
        }
        let mut grant = self.grants.remove(&grant_id).unwrap();
        let i = milestone_index as usize;
        let check = if grant.is_cancelled {
            Err(ContractError::AlreadyCancelled)
        } else if grant.is_frozen {
            Err(ContractError::GrantFrozen)
        } else if i >= grant.milestones.len() {
            Err(ContractError::MilestoneNotFound)
        } else if !grant.milestones[i].is_approved {
            Err(ContractError::MilestoneNotApproved)
        } else if grant.milestones[i].is_released {
            Err(ContractError::MilestoneAlreadyReleased)
        } else if grant.milestones[i].amount > grant.stream_cap_per_ledger {
            Err(ContractError::StreamCapExceeded)
        } else if grant.milestones[i].amount < 0
            || grant.milestones[i].amount > grant.total_amount - grant.released_amount {
            Err(ContractError::InsufficientFunds)
        } else {
            Ok(grant.milestones[i].amount)
        };
        match check {
            Err(e) => {
                self.grants.insert(grant_id, grant);
                proof {
                    assert(self.grants@ =~= old(self).grants@);
                }
                Err(e)
            },
            Ok(amount) => {
                let old_m = &grant.milestones[i];
                let new_m = Milestone {
                    amount: old_m.amount,
                    description: old_m.description.clone(),
                    deliverable_hash: old_m.deliverable_hash,
                    approvals_received: old_m.approvals_received,
                    required_approvals: old_m.required_approvals,
                    is_approved: old_m.is_approved,
                    is_released: true,
                    start_time: old_m.start_time,
                    deadline: old_m.deadline,
                };
                grant.milestones.set(i, new_m);
                grant.released_amount = grant.released_amount + amount;
                self.grants.insert(grant_id, grant);
                proof {
                    assert(self.grants@.dom() =~= old(self).grants@.dom());
                }
                Ok(amount)
            },
        }
    }

    /// Freezes a grant: releases stop until it is unfrozen.
    pub fn freeze_grant(&mut self, grant_id: u32, reason: String) -> (r: Result<(), ContractError>)
        ensures
            !old(self).grants@.contains_key(grant_id) ==> r == Err::<(), ContractError>(ContractError::GrantNotFound),
            old(self).grants@.contains_key(grant_id) && old(self).grants@[grant_id].is_cancelled
                ==> r == Err::<(), ContractError>(ContractError::AlreadyCancelled),
            old(self).grants@.contains_key(grant_id) && !old(self).grants@[grant_id].is_cancelled
                && old(self).grants@[grant_id].is_frozen
                ==> r == Err::<(), ContractError>(ContractError::AlreadyFrozen),
            old(self).grants@.contains_key(grant_id) && !old(self).grants@[grant_id].is_cancelled
                && !old(self).grants@[grant_id].is_frozen ==> r is Ok,
            r is Err ==> final(self).grants@ == old(self).grants@,
            r is Ok ==> {
                let g = old(self).grants@[grant_id];
                let ng = final(self).grants@[grant_id];
                &&& old(self).grants@.contains_key(grant_id) && !g.is_cancelled && !g.is_frozen
                &&& final(self).grants@ == old(self).grants@.insert(grant_id, ng)
                &&& ng == (Grant {
                    is_frozen: true,
                    freeze_reason: Some(reason),
                    payment_status: PaymentStatus::PausedDueToFreeze,
                    ..g
                })
            },
    {
        if !self.grants.contains_key(&grant_id) {
            return Err(ContractError::GrantNotFound);
        }
        let mut grant = self.grants.remove(&grant_id).unwrap();
        if grant.is_cancelled || grant.is_frozen {
            let e = if grant.is_cancelled { ContractError::AlreadyCancelled } else { ContractError::AlreadyFrozen };
            self.grants.insert(grant_id, grant);
            proof {
                assert(self.grants@ =~= old(self).grants@);
            }
            return Err(e);
        }
        grant.is_frozen = true;
        grant.freeze_reason = Some(reason);
        grant.payment_status = PaymentStatus::PausedDueToFreeze;
        self.grants.insert(grant_id, grant);
        proof {
            assert(self.grants@ =~= old(self).grants@.insert(grant_id, self.grants@[grant_id]));
        }
        Ok(())
    }

    /// Lifts a freeze: the grant becomes active again.
    pub fn unfreeze_grant(&mut self, grant_id: u32) -> (r: Result<(), ContractError>)
        ensures
            !old(self).grants@.contains_key(grant_id) ==> r == Err::<(), ContractError>(ContractError::GrantNotFound),
            old(self).grants@.contains_key(grant_id) && !old(self).grants@[grant_id].is_frozen
                ==> r == Err::<(), ContractError>(ContractError::NotFrozen),
            old(self).grants@.contains_key(grant_id) && old(self).grants@[grant_id].is_frozen ==> r is Ok,
            r is Err ==> final(self).grants@ == old(self).grants@,
            r is Ok ==> {
                let g = old(self).grants@[grant_id];
                let ng = final(self).grants@[grant_id];
                &&& old(self).grants@.contains_key(grant_id) && g.is_frozen
                &&& final(self).grants@ == old(self).grants@.insert(grant_id, ng)
                &&& ng == (Grant {
                    is_frozen: false,
                    freeze_reason: None,
                    payment_status: PaymentStatus::Active,
                    ..g
                })
            },
    {
        if !self.grants.contains_key(&grant_id) {
            return Err(ContractError::GrantNotFound);
        }
        let mut grant = self.grants.remove(&grant_id).unwrap();
        if !grant.is_frozen {
            self.grants.insert(grant_id, grant);
            proof {
                assert(self.grants@ =~= old(self).grants@);
            }
            return Err(ContractError::NotFrozen);
        }
        grant.is_frozen = false;
        grant.freeze_reason = None;
        grant.payment_status = PaymentStatus::Active;
        self.grants.insert(grant_id, grant);
        proof {
            assert(self.grants@ =~= old(self).grants@.insert(grant_id, self.grants@[grant_id]));
        }
        Ok(())
    }
}

} // verus!
