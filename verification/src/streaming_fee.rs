//! Streaming fee: a platform fee, in basis points, taken from each
//! withdrawal and credited to the treasury, except for exempt withdrawers.
use vstd::prelude::*;
use std::collections::HashMap;
use crate::types::Address;

verus! {

broadcast use vstd::std_specs::hash::group_hash_axioms;

/// The fee configuration as one value.
#[derive(Debug, Clone, PartialEq, Eq)]
pub struct FeeConfig {
    /// Fee in basis points; 10000 is 100%.
    pub platform_fee_bps: i128,
    pub treasury: Address,
    pub exemptions: Vec<Address>,
}

/// Division rounding toward zero, as integer division does.
pub open spec fn tdiv(a: int, b: int) -> int {
    if a >= 0 { a / b } else { -((-a) / b) }
}

/// The fee on `amount` at `fee_bps`.
pub open spec fn fee_on(amount: i128, fee_bps: i128) -> int {
    tdiv(amount * fee_bps, 10000)
}

/// The fee state. Every change is made by the governor; the caller's
/// identity is the invoker the host reports.
pub struct StreamingFee {
    pub governor: Option<Address>,
    /// Fee in basis points; zero when never set.
    pub platform_fee_bps: i128,
    pub treasury: Option<Address>,
    pub exemptions: Vec<Address>,
    /// Credited balances, by account identity.
    pub balances: HashMap<u64, i128>,
}

impl StreamingFee {
    /// Balance credited to `a`.
    pub open spec fn balance_of(&self, a: Address) -> i128 {
        if self.balances@.contains_key(a.0) { self.balances@[a.0] } else { 0 }
    }

    /// Whether `caller` is the governor.
    pub open spec fn is_governor(&self, caller: Address) -> bool {
        self.governor == Some(caller)
    }

    /// No governor, no fee, no treasury and no exemptions.
    pub fn new() -> (r: Self)
        ensures
            r.governor is None,
            r.platform_fee_bps == 0,
            r.treasury is None,
            r.exemptions@.len() == 0,
            r.balances@ == Map::<u64, i128>::empty(),
    {
        StreamingFee { governor: None, platform_fee_bps: 0, treasury: None, exemptions: Vec::new(), balances: HashMap::new() }
    }

    /// Sets the governor.
    pub fn set_governor(&mut self, governor: Address)
        ensures
            final(self).governor == Some(governor),
            final(self).platform_fee_bps == old(self).platform_fee_bps,
            final(self).treasury == old(self).treasury,
            final(self).exemptions@ == old(self).exemptions@,
            final(self).balances@ == old(self).balances@,
    {
        self.governor = Some(governor);
    }

    /// Whether `caller` may govern; the contract refuses anyone else.
    pub fn require_governance(&self, caller: Address) -> (r: bool)
        ensures
            r == self.is_governor(caller),
    {
        match self.governor {
            Some(g) => g == caller,
            None => false,
        }
    }

    /// The governor sets the fee, between 0 and 10000 basis points.
    pub fn set_platform_fee(&mut self, caller: Address, new_fee_bps: i128)
        requires
            old(self).is_governor(caller),
            0 <= new_fee_bps <= 10000,
        ensures
            final(self).platform_fee_bps == new_fee_bps,
            final(self).governor == old(self).governor,
            final(self).treasury == old(self).treasury,
            final(self).exemptions@ == old(self).exemptions@,
            final(self).balances@ == old(self).balances@,
    {
        self.platform_fee_bps = new_fee_bps;
    }

    /// The governor sets the treasury.
    pub fn set_treasury(&mut self, caller: Address, treasury: Address)
        requires
            old(self).is_governor(caller),
        ensures
            final(self).treasury == Some(treasury),
            final(self).governor == old(self).governor,
            final(self).platform_fee_bps == old(self).platform_fee_bps,
            final(self).exemptions@ == old(self).exemptions@,
            final(self).balances@ == old(self).balances@,
    {
        self.treasury = Some(treasury);
    }

    fn is_exempt(&self, addr: Address) -> (r: bool)
        ensures
            r == self.exemptions@.contains(addr),
    {
        let mut i: usize = 0;
        while i < self.exemptions.len()
            invariant
                i <= self.exemptions@.len(),
                forall|j: int| 0 <= j < i ==> self.exemptions@[j] != addr,
            decreases self.exemptions.len() - i,
        {
            if self.exemptions[i] == addr {
                return true;
            }
            i = i + 1;
        }
        false
    }

    /// The governor exempts `addr` from the fee; an address is listed once.
    pub fn add_fee_exemption(&mut self, caller: Address, addr: Address)
        requires
            old(self).is_governor(caller),
        ensures
            final(self).exemptions@ == if old(self).exemptions@.contains(addr) {
                old(self).exemptions@
            } else {
                old(self).exemptions@.push(addr)
            },
            final(self).governor == old(self).governor,
            final(self).platform_fee_bps == old(self).platform_fee_bps,
            final(self).treasury == old(self).treasury,
            final(self).balances@ == old(self).balances@,
    {
        if !self.is_exempt(addr) {
            self.exemptions.push(addr);
        }
    }

    /// The governor lifts the exemption of `addr`.
    pub fn remove_fee_exemption(&mut self, caller: Address, addr: Address)
        requires
            old(self).is_governor(caller),
        ensures
            final(self).exemptions@ == old(self).exemptions@.filter(|a: Address| a != addr),
            final(self).governor == old(self).governor,
            final(self).platform_fee_bps == old(self).platform_fee_bps,
            final(self).treasury == old(self).treasury,
            final(self).balances@ == old(self).balances@,
    {
        let mut kept: Vec<Address> = Vec::new();
        let mut i: usize = 0;
        proof {
            reveal_with_fuel(Seq::<Address>::filter, 1);
            assert(self.exemptions@.subrange(0, 0) =~= Seq::<Address>::empty());
        }
        while i < self.exemptions.len()
            invariant
                i <= self.exemptions@.len(),
                kept@ == self.exemptions@.subrange(0, i as int).filter(|a: Address| a != addr),
            decreases self.exemptions.len() - i,
        {
            let ghost s = self.exemptions@.subrange(0, i as int + 1);
            proof {
                reveal_with_fuel(Seq::<Address>::filter, 1);
                assert(s.drop_last() =~= self.exemptions@.subrange(0, i as int));
                assert(s.last() == self.exemptions@[i as int]);
            }
            let a = self.exemptions[i];
            if a != addr {
                kept.push(a);
            }
            i = i + 1;
        }
        proof {
            assert(self.exemptions@.subrange(0, self.exemptions@.len() as int) =~= self.exemptions@);
        }
        self.exemptions = kept;
    }

    /// Takes the fee from a withdrawal of `amount` by `withdrawer` and
    /// credits it to the treasury; returns `(net, fee)`. Exempt withdrawers,
    /// and everyone while the fee is zero, pay nothing. A treasury must be set.
    pub fn apply_streaming_fee(&mut self, withdrawer: Address, amount: i128) -> (r: (i128, i128))
        requires
            old(self).treasury is Some,
            i128::MIN <= amount * old(self).platform_fee_bps <= i128::MAX,
            i128::MIN <= amount - fee_on(amount, old(self).platform_fee_bps) <= i128::MAX,
            i128::MIN <= old(self).balance_of(old(self).treasury->Some_0) + fee_on(amount, old(self).platform_fee_bps) <= i128::MAX,
        ensures
            old(self).exemptions@.contains(withdrawer) || old(self).platform_fee_bps == 0 ==> r == (amount, 0i128)
                && final(self).balances@ == old(self).balances@,
            !old(self).exemptions@.contains(withdrawer) && old(self).platform_fee_bps != 0 ==> {
                let fee = fee_on(amount, old(self).platform_fee_bps);
                let t = old(self).treasury->Some_0;
                &&& r == ((amount - fee) as i128, fee as i128)
                &&& final(self).balances@ == old(self).balances@.insert(t.0, (old(self).balance_of(t) + fee) as i128)
            },
            r.0 + r.1 == amount,
            final(self).governor == old(self).governor,
            final(self).platform_fee_bps == old(self).platform_fee_bps,
            final(self).treasury == old(self).treasury,
            final(self).exemptions@ == old(self).exemptions@,
    {
        let fee_bps = self.platform_fee_bps;
        let treasury = match self.treasury {
            Some(t) => t,
            None => return (amount, 0),
        };
        if self.is_exempt(withdrawer) || fee_bps == 0 {
            return (amount, 0);
        }
        let fee = (amount * fee_bps) / 10000;
        let net = amount - fee;
        let balance: i128 = match self.balances.get(&treasury.0) {
            Some(b) => *b,
            None => 0,
        };
        self.balances.insert(treasury.0, balance + fee);
        (net, fee)
    }
}

} // verus!
