//! Integer square root by Newton's iteration, shared by the quadratic
//! funding computations.
use vstd::prelude::*;

verus! {

/// `r` is the integer square root of `n`: the largest `r` with `r * r <= n`.
pub open spec fn is_floor_sqrt(n: int, r: int) -> bool {
    &&& 0 <= r
    &&& r * r <= n
    &&& n < (r + 1) * (r + 1)
}

proof fn lemma_square_dominates_product(y: int, a: int, b: int)
    by (nonlinear_arith)
    requires
        2 * y >= a + b,
        a >= 0,
        b >= 0,
    ensures
        4 * (y * y) >= 4 * (a * b),
{
    assert((a + b) * (a + b) - 4 * (a * b) == (a - b) * (a - b));
    assert((a - b) * (a - b) >= 0);
    assert(2 * y * (2 * y) >= (a + b) * (a + b));
}

/// One Newton step from any positive `x` lands at or above the square root.
proof fn lemma_newton_step_stays_above(n: int, x: int)
    requires
        n >= 1,
        x >= 1,
    ensures
        ((x + n / x) / 2 + 1) * ((x + n / x) / 2 + 1) > n,
{
    let q = n / x;
    let y = (x + q) / 2;
    vstd::arithmetic::div_mod::lemma_fundamental_div_mod(n, x);
    vstd::arithmetic::div_mod::lemma_mod_bound(n, x);
    assert(n < x * (q + 1)) by (nonlinear_arith)
        requires
            n == x * q + n % x,
            n % x < x,
    ;
    assert(q >= 0) by {
        vstd::arithmetic::div_mod::lemma_div_pos_is_pos(n, x);
    }
    lemma_square_dominates_product(y + 1, x, q + 1);
    assert((y + 1) * (y + 1) >= x * (q + 1));
}

/// When the Newton step does not go below `x`, `x` is at most the square root.
proof fn lemma_newton_fixpoint_below(n: int, x: int)
    requires
        n >= 1,
        x >= 1,
        (x + n / x) / 2 >= x,
    ensures
        x * x <= n,
{
    let q = n / x;
    assert(q >= x);
    vstd::arithmetic::div_mod::lemma_fundamental_div_mod(n, x);
    vstd::arithmetic::div_mod::lemma_mod_bound(n, x);
    assert(x * x <= n) by (nonlinear_arith)
        requires
            n == x * q + n % x,
            n % x >= 0,
            q >= x,
            x >= 1,
    ;
}

proof fn lemma_step_bound(n: int, x: int)
    requires
        n >= 1,
        1 <= x <= n,
    ensures
        x + n / x <= n + 1,
{
    let q = n / x;
    vstd::arithmetic::div_mod::lemma_fundamental_div_mod(n, x);
    vstd::arithmetic::div_mod::lemma_mod_bound(n, x);
    assert(x + q <= n + 1) by (nonlinear_arith)
        requires
            n == x * q + n % x,
            n % x >= 0,
            1 <= x <= n,
            q >= 0,
    ;
}


/// The integer square root of `n`.
pub open spec fn isqrt(n: int) -> int {
    choose|r: int| is_floor_sqrt(n, r)
}

/// The integer square root is unique.
pub proof fn lemma_floor_sqrt_unique(n: int, r1: int, r2: int)
    requires
        is_floor_sqrt(n, r1),
        is_floor_sqrt(n, r2),
    ensures
        r1 == r2,
{
    if r1 < r2 {
        assert((r1 + 1) * (r1 + 1) <= r2 * r2) by (nonlinear_arith)
            requires
                0 <= r1 < r2,
        ;
    } else if r2 < r1 {
        assert((r2 + 1) * (r2 + 1) <= r1 * r1) by (nonlinear_arith)
            requires
                0 <= r2 < r1,
        ;
    }
}

/// Every natural number has an integer square root.
pub proof fn lemma_isqrt(n: nat)
    ensures
        is_floor_sqrt(n as int, isqrt(n as int)),
    decreases n,
{
    if n == 0 {
        assert(is_floor_sqrt(0, 0)) by (nonlinear_arith);
    } else {
        lemma_isqrt((n - 1) as nat);
        let r = isqrt(n - 1);
        if (r + 1) * (r + 1) <= n {
            assert(n < (r + 2) * (r + 2)) by (nonlinear_arith)
                requires
                    n - 1 < (r + 1) * (r + 1),
                    r >= 0,
            ;
            assert(is_floor_sqrt(n as int, r + 1));
        } else {
            assert(is_floor_sqrt(n as int, r));
        }
    }
}

/// Integer square root of `n` by Newton's iteration.
pub fn floor_sqrt(n: u128) -> (r: u128)
    requires
        n < u128::MAX,
    ensures
        is_floor_sqrt(n as int, r as int),
        r == isqrt(n as int),
{
    proof {
        lemma_isqrt(n as nat);
    }
    if n == 0 {
        assert(0int * 0int == 0 && (0int + 1) * (0int + 1) == 1) by (nonlinear_arith);
        proof {
            lemma_floor_sqrt_unique(0, 0, isqrt(0));
        }
        return 0;
    }
    let mut x: u128 = n;
    let mut y: u128 = (x + 1) / 2;
    proof {
        assert(n as int / n as int == 1) by {
            vstd::arithmetic::div_mod::lemma_div_basics(n as int);
        }
        assert((n + 1) * (n + 1) > n) by (nonlinear_arith)
            requires
                n >= 1,
        ;
    }
    while y < x
        invariant
            n >= 1,
            n < u128::MAX,
            1 <= x <= n,
            (x + 1) * (x + 1) > n,
            y as int == (x + n as int / x as int) / 2,
        decreases x,
    {
        proof {
            lemma_newton_step_stays_above(n as int, x as int);
        }
        x = y;
        proof {
            assert(x >= 1) by (nonlinear_arith)
                requires
                    (x + 1) * (x + 1) > n,
                    n >= 1,
            ;
            lemma_step_bound(n as int, x as int);
        }
        y = (x + n / x) / 2;
    }
    proof {
        lemma_newton_fixpoint_below(n as int, x as int);
        lemma_floor_sqrt_unique(n as int, x as int, isqrt(n as int));
    }
    x
}

/// `a - b` clamped to the range of `i128`.
pub open spec fn sat_sub_spec(a: int, b: int) -> int {
    if a - b > i128::MAX { i128::MAX as int } else if a - b < i128::MIN { i128::MIN as int } else { a - b }
}

/// Saturating subtraction on `i128`.
pub fn saturating_sub_i128(a: i128, b: i128) -> (r: i128)
    ensures
        r == sat_sub_spec(a as int, b as int),
{
    match a.checked_sub(b) {
        Some(v) => v,
        None => if b > 0 { i128::MIN } else { i128::MAX },
    }
}

} // verus!
