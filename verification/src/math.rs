//! Integer arithmetic used by the pool: the integer square root that fixes the
//! initial supply of liquidity tokens.
use vstd::arithmetic::div_mod::*;
use vstd::prelude::*;

verus! {

/// `r` is the integer square root of `n`: the largest `r` with `r * r <= n`.
pub open spec fn is_integer_sqrt(n: nat, r: nat) -> bool {
    r * r <= n && n < (r + 1) * (r + 1)
}

/// One Newton step never falls below the integer square root:
/// for `x > 0`, `y = (x + n / x) / 2` satisfies `n < (y + 1)^2`.
proof fn lemma_newton_step_stays_above(n: nat, x: nat)
    requires
        x > 0,
    ensures
        n < (((x + n / x) / 2) as nat + 1) * (((x + n / x) / 2) as nat + 1),
{
    let q = n / x;
    let y = (x + q) / 2;
    lemma_fundamental_div_mod(n as int, x as int);
    lemma_mod_pos_bound(n as int, x as int);
    assert(x * (q + 1) == x * q + x) by (nonlinear_arith);
    assert(n < x * (q + 1));
    assert(x + q + 1 <= 2 * (y + 1));
    assert(4 * (x * (q + 1)) <= (x + q + 1) * (x + q + 1)) by (nonlinear_arith);
    assert((x + q + 1) * (x + q + 1) <= (2 * (y + 1)) * (2 * (y + 1))) by (nonlinear_arith)
        requires
            0 <= x + q + 1 <= 2 * (y + 1),
    ;
    assert((2 * (y + 1)) * (2 * (y + 1)) == 4 * ((y + 1) * (y + 1))) by (nonlinear_arith);
}

/// Above the integer square root a Newton step strictly decreases.
proof fn lemma_newton_step_decreases(n: nat, x: nat)
    requires
        x > 0,
        n < x * x,
    ensures
        (x + n / x) / 2 < x,
{
    lemma_multiply_divide_lt(n as int, x as int, x as int);
}

/// While the iterate stays at or above the square root, `x + n / x` fits in a `u128`.
proof fn lemma_newton_sum_fits(n: nat, x: nat)
    requires
        1 <= x < 0x8000_0000_0000_0000_0000_0000_0000_0000,
        n < 0x1_0000_0000_0000_0000_0000_0000_0000_0000,
        n < (x + 1) * (x + 1),
    ensures
        x + n / x < 0x1_0000_0000_0000_0000_0000_0000_0000_0000,
{
    let b: int = 0x1_0000_0000_0000_0000;
    if x >= b {
        lemma_div_is_ordered_by_denominator(n as int, b, x as int);
        lemma_multiply_divide_lt(n as int, b, b);
        assert(b * b == 0x1_0000_0000_0000_0000_0000_0000_0000_0000);
    } else {
        assert(n <= x * (x + 2)) by (nonlinear_arith)
            requires
                n < (x + 1) * (x + 1),
        ;
        lemma_div_is_ordered(n as int, (x * (x + 2)) as int, x as int);
        lemma_div_by_multiple((x + 2) as int, x as int);
        assert(x * (x + 2) == (x + 2) * x) by (nonlinear_arith);
    }
}

proof fn lemma_square_bound(x: nat)
    requires
        x * x < 0x1_0000_0000_0000_0000_0000_0000_0000_0000,
    ensures
        x < 0x1_0000_0000_0000_0000,
{
    if x >= 0x1_0000_0000_0000_0000 {
        assert(x * x >= 0x1_0000_0000_0000_0000 * 0x1_0000_0000_0000_0000) by (nonlinear_arith)
            requires
                x >= 0x1_0000_0000_0000_0000,
        ;
    }
}

/// The integer square root of `n` by Newton's iteration, starting from `n`.
///
/// The result `r` satisfies `r * r <= n < (r + 1) * (r + 1)`. The first step
/// computes `n + 1`, so `n` must be below `u128::MAX`.
pub fn integer_sqrt(n: u128) -> (r: u64)
    requires
        n < u128::MAX,
    ensures
        is_integer_sqrt(n as nat, r as nat),
{
    if n == 0 {
        return 0;
    }
    let mut x: u128 = n;
    let mut y: u128 = (x + 1) / 2;
    proof {
        assert((n as nat + n / n) / 2 == y) by {
            lemma_div_by_self(n as int);
        }
        lemma_newton_step_stays_above(n as nat, n as nat);
        assert(n < (n + 1) * (n + 1)) by (nonlinear_arith)
            requires
                n >= 1,
        ;
    }
    while y < x
        invariant
            1 <= n < u128::MAX,
            1 <= x <= n,
            n < (x + 1) * (x + 1),
            y == (x + n / x) / 2,
            n < (y + 1) * (y + 1),
            y <= (n + 1) / 2,
        decreases x,
    {
        x = y;
        proof {
            assert(x >= 1) by (nonlinear_arith)
                requires
                    n >= 1,
                    n < (x + 1) * (x + 1),
            ;
            lemma_newton_sum_fits(n as nat, x as nat);
            lemma_newton_step_stays_above(n as nat, x as nat);
            if n < x * x {
                lemma_newton_step_decreases(n as nat, x as nat);
            }
        }
        y = (x + n / x) / 2;
        proof {
            if !(n < x * x) {
                assert(x + n / x <= n + 1) by {
                    lemma_div_is_ordered_by_denominator(n as int, 1, x as int);
                    assert(x * x <= n);
                    assert(x <= n / x) by {
                        lemma_fundamental_div_mod(n as int, x as int);
                        lemma_mod_pos_bound(n as int, x as int);
                        assert(x * x <= n ==> x <= n / x) by (nonlinear_arith)
                            requires
                                n == x * (n / x) + n % x,
                                0 <= n % x < x,
                                x >= 1,
                        ;
                    }
                    assert(x * x <= n ==> x + n / x <= n + 1) by (nonlinear_arith)
                        requires
                            x >= 1,
                            x <= n / x,
                            n / x <= n,
                    ;
                }
            }
        }
    }
    proof {
        if n < x * x {
            lemma_newton_step_decreases(n as nat, x as nat);
        }
        lemma_square_bound(x as nat);
    }
    x as u64
}

/// The integer square root is monotone: a larger input never has a smaller root.
pub proof fn lemma_integer_sqrt_monotone(n: nat, m: nat, r: nat, s: nat)
    requires
        n <= m,
        is_integer_sqrt(n, r),
        is_integer_sqrt(m, s),
    ensures
        r <= s,
{
    if r > s {
        assert(r * r >= (s + 1) * (s + 1)) by (nonlinear_arith)
            requires
                r >= s + 1,
        ;
    }
}

/// Each input has one integer square root.
pub proof fn lemma_integer_sqrt_unique(n: nat, r: nat, s: nat)
    requires
        is_integer_sqrt(n, r),
        is_integer_sqrt(n, s),
    ensures
        r == s,
{
    lemma_integer_sqrt_monotone(n, n, r, s);
    lemma_integer_sqrt_monotone(n, n, s, r);
}

} // verus!
