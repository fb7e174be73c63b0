//! Plain-value stand-ins for the ledger's account identifiers, and keys for
//! pairs of identifiers.
use vstd::prelude::*;

verus! {

/// An account or contract on the ledger. The contracts only ever compare
/// addresses for equality, so an address is its numeric identity.
#[derive(Debug, Clone, Copy, PartialEq, Eq, Hash, Structural)]
pub struct Address(pub u64);

impl Address {
    /// The numeric identity of this address.
    pub fn id(&self) -> (r: u64)
        ensures
            r == self.0,
    {
        self.0
    }
}

/// One key for a pair of identifiers.
pub open spec fn pair_key(a: u64, b: u64) -> u128 {
    (a as int * 0x1_0000_0000_0000_0000 + b as int) as u128
}

/// Distinct pairs have distinct keys.
pub proof fn lemma_pair_key_injective(a1: u64, b1: u64, a2: u64, b2: u64)
    requires
        pair_key(a1, b1) == pair_key(a2, b2),
    ensures
        a1 == a2 && b1 == b2,
{
    let m: int = 0x1_0000_0000_0000_0000;
    assert(a1 as int * m + b1 <= u128::MAX) by (nonlinear_arith)
        requires
            a1 <= u64::MAX,
            b1 <= u64::MAX,
            m == 0x1_0000_0000_0000_0000,
    ;
    assert(a2 as int * m + b2 <= u128::MAX) by (nonlinear_arith)
        requires
            a2 <= u64::MAX,
            b2 <= u64::MAX,
            m == 0x1_0000_0000_0000_0000,
    ;
    assert(a1 == a2 && b1 == b2) by (nonlinear_arith)
        requires
            a1 as int * m + b1 == a2 as int * m + b2,
            0 <= b1 < m,
            0 <= b2 < m,
            a1 >= 0,
            a2 >= 0,
    ;
}

/// The key of a pair of identifiers.
pub fn make_pair_key(a: u64, b: u64) -> (k: u128)
    ensures
        k == pair_key(a, b),
{
    proof {
        assert(a as int * 0x1_0000_0000_0000_0000 + b as int <= u128::MAX) by (nonlinear_arith)
            requires
                a <= u64::MAX,
                b <= u64::MAX,
        ;
    }
    (a as u128) * 0x1_0000_0000_0000_0000u128 + (b as u128)
}

} // verus!
