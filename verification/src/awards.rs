//! Awards: a deposit split into an initial payout and a remainder streamed
//! to the recipient at a constant rate over a fixed duration.
use vstd::prelude::*;
use std::collections::HashMap;
use crate::types::Address;

verus! {

broadcast use vstd::std_specs::hash::group_hash_axioms;

/// An award.
#[derive(Debug, Clone, Copy, PartialEq, Eq, Structural)]
pub struct Award {
    pub recipient: Address,
    pub total_deposit: u128,
    pub initial_payout: u128,
    pub remaining_balance: u128,
    pub flow_rate_per_second: u128,
    pub start_time: u64,
    pub duration_secs: u64,
}

/// Streaming rate of `remaining` over `duration_secs`: zero when either is
/// zero.
pub open spec fn flow_rate(remaining: u128, duration_secs: u64) -> u128 {
    if remaining > 0 && duration_secs > 0 { (remaining / (duration_secs as u128)) as u128 } else { 0 }
}

/// What award `a` lets its recipient claim at `now`: the rate times the time
/// elapsed since the start, at most the award's duration.
pub open spec fn claimable_at(a: Award, now: u64) -> int {
    let elapsed = now - a.start_time;
    let capped = if elapsed <= a.duration_secs { elapsed } else { a.duration_secs as int };
    a.flow_rate_per_second * capped
}

/// The awards and the next identifier.
pub struct AwardContract {
    pub awards: HashMap<u64, Award>,
    pub next_award_id: u64,
}

impl AwardContract {
    /// A contract with no awards; identifiers start at one.
    pub fn new() -> (r: Self)
        ensures
            r.awards@ == Map::<u64, Award>::empty(),
            r.next_award_id == 1,
    {
        AwardContract { awards: HashMap::new(), next_award_id: 1 }
    }

    /// Creates an award at `now` for `recipient` from `total_deposit`: the
    /// caller pays `initial_payout_amount` to the recipient at once, and the
    /// rest streams over `duration_secs`. Returns the award's id.
    pub fn create_award(
        &mut self,
        recipient: Address,
        total_deposit: u128,
        initial_payout_amount: u128,
        duration_secs: u64,
        now: u64,
    ) -> (r: u64)
        requires
            initial_payout_amount <= total_deposit,
            old(self).next_award_id < u64::MAX,
        ensures
            r == old(self).next_award_id,
            final(self).next_award_id == r + 1,
            final(self).awards@ == old(self).awards@.insert(r, Award {
                recipient,
                total_deposit,
                initial_payout: initial_payout_amount,
                remaining_balance: (total_deposit - initial_payout_amount) as u128,
                flow_rate_per_second: flow_rate((total_deposit - initial_payout_amount) as u128, duration_secs),
                start_time: now,
                duration_secs,
            }),
    {
        let remaining_balance = total_deposit - initial_payout_amount;
        let flow_rate_per_second = if remaining_balance > 0 && duration_secs > 0 {
            remaining_balance / (duration_secs as u128)
        } else {
            0
        };
        let award_id = self.next_award_id;
        self.next_award_id = award_id + 1;
        let award = Award {
            recipient,
            total_deposit,
            initial_payout: initial_payout_amount,
            remaining_balance,
            flow_rate_per_second,
            start_time: now,
            duration_secs,
        };
        self.awards.insert(award_id, award);
        award_id
    }

    /// The award `award_id`, if any.
    pub fn get_award(&self, award_id: u64) -> (r: Option<Award>)
        ensures
            r == (if self.awards@.contains_key(award_id) { Some(self.awards@[award_id]) } else { None }),
    {
        match self.awards.get(&award_id) {
            Some(a) => Some(*a),
            None => None,
        }
    }

    /// What the recipient of `award_id` can claim at `now`; zero for an
    /// unknown award.
    pub fn claimable(&self, award_id: u64, now: u64) -> (r: u128)
        requires
            self.awards@.contains_key(award_id) ==> {
                let a = self.awards@[award_id];
                now >= a.start_time && claimable_at(a, now) <= u128::MAX
            },
        ensures
            r == (if self.awards@.contains_key(award_id) { claimable_at(self.awards@[award_id], now) } else { 0 }),
    {
        match self.awards.get(&award_id) {
            Some(a) => {
                let elapsed = now - a.start_time;
                let elapsed_secs = if elapsed <= a.duration_secs { elapsed } else { a.duration_secs };
                a.flow_rate_per_second * (elapsed_secs as u128)
            },
            None => 0,
        }
    }
}

/// The stream never pays out more than the remainder: after the full
/// duration the claimable amount is at most the remaining balance.
pub proof fn lemma_stream_within_remainder(a: Award, now: u64)
    requires
        a.flow_rate_per_second == flow_rate(a.remaining_balance, a.duration_secs),
        now >= a.start_time,
    ensures
        0 <= claimable_at(a, now) <= a.remaining_balance,
{
    let elapsed = now - a.start_time;
    let capped: int = if elapsed <= a.duration_secs { elapsed } else { a.duration_secs as int };
    if a.remaining_balance > 0 && a.duration_secs > 0 {
        let d = a.duration_secs as int;
        let q = a.remaining_balance as int / d;
        assert(q * d <= a.remaining_balance) by (nonlinear_arith)
            requires
                q == a.remaining_balance as int / d,
                d > 0,
                a.remaining_balance >= 0,
        ;
        assert(q * capped <= q * d) by (nonlinear_arith)
            requires
                0 <= capped <= d,
                q >= 0,
        ;
        assert(q >= 0) by (nonlinear_arith)
            requires
                q == a.remaining_balance as int / d,
                d > 0,
                a.remaining_balance >= 0,
        ;
        assert(q * capped >= 0) by (nonlinear_arith)
            requires
                0 <= capped,
                q >= 0,
        ;
    }
}

} // verus!
