//! Rounding of offsets and sizes.
use vstd::prelude::*;

verus! {

/// `n / d`, rounded up.
pub open spec fn ceil_div(n: int, d: int) -> int
    recommends
        d > 0,
{
    if n % d == 0 {
        n / d
    } else {
        n / d + 1
    }
}

/// The least multiple of `d` that is not below `n`.
pub open spec fn round_up_to(n: int, d: int) -> int
    recommends
        d > 0,
{
    ceil_div(n, d) * d
}

/// `round_up_to` is what its name says: a multiple of `d`, not below `n`, less than `d` above it.
pub proof fn lemma_round_up_to(n: int, d: int)
    requires
        d > 0,
    ensures
        round_up_to(n, d) % d == 0,
        n <= round_up_to(n, d) < n + d,
        n % d == 0 ==> round_up_to(n, d) == n,
{
    let q = ceil_div(n, d);
    vstd::arithmetic::div_mod::lemma_mod_multiples_basic(q, d);
    vstd::arithmetic::div_mod::lemma_fundamental_div_mod(n, d);
    assert((n / d + 1) * d == d * (n / d) + d) by (nonlinear_arith);
    assert((n / d) * d == d * (n / d)) by (nonlinear_arith);
}

/// Divides `n` by `d` and rounds the quotient up.
pub fn div_round_up(n: u64, d: u64) -> (q: u64)
    requires
        d != 0,
    ensures
        q == ceil_div(n as int, d as int),
{
    let q: u64 = n / d;
    if n % d == 0 {
        q
    } else {
        proof {
            vstd::arithmetic::div_mod::lemma_fundamental_div_mod(n as int, d as int);
            assert(n as int / d as int <= n) by (nonlinear_arith)
                requires
                    d > 0,
            ;
            assert(n == u64::MAX && n as int / d as int == n ==> n as int % d as int == 0)
                by (nonlinear_arith)
                requires
                    d > 0,
                    n as int == d as int * (n as int / d as int) + n as int % d as int,
                    0 <= n as int % d as int,
            ;
        }
        q + 1
    }
}

/// Rounds `x` down to a multiple of 4096.
pub fn round_down_4k(x: u64) -> (r: u64)
    ensures
        r == x - x % 4096,
{
    assert(x & !4095u64 == x - x % 4096) by (bit_vector);
    x & !4095u64
}

} // verus!
