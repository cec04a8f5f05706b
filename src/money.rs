//! Fixed-point arithmetic on amounts and rates.
use vstd::prelude::*;

verus! {

/// The rate 1.0: rates are held in parts per `SCALE`.
pub const SCALE: u64 = 1_000_000_000;

/// Largest amount a projection carries.
pub const AMOUNT_MAX: u64 = 1_000_000_000_000_000;

/// Largest rate or factor a projection reads (100.0).
pub const RATE_MAX: u64 = 100_000_000_000;

/// `n / d` rounded up to a whole number.
pub open spec fn ceil_quotient(n: int, d: int) -> int {
    (n + d - 1) / d
}

/// `n / d` rounded up to the next multiple of 1000.
pub open spec fn round_up_thousands(n: int, d: int) -> int {
    ((n + 1000 * d - 1) / (1000 * d)) * 1000
}

/// Rounding up to thousands gives a multiple of 1000 that is at least the
/// exact quotient, and so at least the quotient rounded down.
pub proof fn lemma_round_up_thousands(n: int, d: int)
    requires
        n >= 0,
        d > 0,
    ensures
        round_up_thousands(n, d) % 1000 == 0,
        round_up_thousands(n, d) * d >= n,
        round_up_thousands(n, d) >= n / d,
        round_up_thousands(n, d) >= 0,
        round_up_thousands(n, d) * d < n + 1000 * d,
{
    let k = 1000 * d;
    let q = (n + k - 1) / k;
    assert(k > 0) by (nonlinear_arith)
        requires
            d > 0,
            k == 1000 * d,
    ;
    assert(q * k < n + k) by (nonlinear_arith)
        requires
            k > 0,
            q == (n + k - 1) / k,
            n >= 0,
    ;
    assert(q * k > n - 1) by (nonlinear_arith)
        requires
            k > 0,
            q == (n + k - 1) / k,
            n >= 0,
    ;
    assert(q >= 0) by (nonlinear_arith)
        requires
            k > 0,
            q == (n + k - 1) / k,
            n >= 0,
    ;
    assert((q * 1000) % 1000 == 0) by (nonlinear_arith);
    assert((q * 1000) * d == q * k) by (nonlinear_arith)
        requires
            k == 1000 * d,
    ;
    assert(q * 1000 >= n / d) by (nonlinear_arith)
        requires
            q * 1000 * d >= n,
            d > 0,
            n >= 0,
    ;
}

/// `a * b / d`, rounded down.
pub fn mul_div(a: u64, b: u64, d: u64) -> (r: u128)
    requires
        d > 0,
    ensures
        r == a as int * b as int / d as int,
{
    proof {
        vstd::arithmetic::mul::lemma_mul_upper_bound(
            a as int,
            u64::MAX as int,
            b as int,
            u64::MAX as int,
        );
    }
    let p: u128 = a as u128 * b as u128;
    p / d as u128
}

/// `a * b * c`; `a` and `b` are rates, `c` an amount.
pub fn mul3(a: u64, b: u64, c: u64) -> (r: u128)
    requires
        a <= RATE_MAX,
        b <= RATE_MAX,
        c <= AMOUNT_MAX,
    ensures
        r == a as int * b as int * c as int,
        r <= RATE_MAX as int * RATE_MAX as int * AMOUNT_MAX as int,
{
    proof {
        vstd::arithmetic::mul::lemma_mul_upper_bound(
            a as int,
            RATE_MAX as int,
            b as int,
            RATE_MAX as int,
        );
        vstd::arithmetic::mul::lemma_mul_upper_bound(
            a as int * b as int,
            RATE_MAX as int * RATE_MAX as int,
            c as int,
            AMOUNT_MAX as int,
        );
    }
    a as u128 * b as u128 * c as u128
}

/// `n / d` rounded up to a whole number.
pub fn ceil_div(n: u128, d: u128) -> (r: u128)
    requires
        d > 0,
        n <= 10_000_000_000_000_000_000_000_000_000_000_000_000,
        d <= 10_000_000_000_000_000_000_000_000_000_000_000,
    ensures
        r == ceil_quotient(n as int, d as int),
{
    (n + d - 1) / d
}

/// Rounding a quotient up to a whole number gives at least the quotient
/// rounded down, and less than one more than the exact quotient.
pub proof fn lemma_ceil_quotient(n: int, d: int)
    requires
        n >= 0,
        d > 0,
    ensures
        ceil_quotient(n, d) >= n / d,
        ceil_quotient(n, d) * d >= n,
        ceil_quotient(n, d) >= 0,
{
    assert(ceil_quotient(n, d) * d >= n && ceil_quotient(n, d) >= n / d && ceil_quotient(n, d)
        >= 0) by (nonlinear_arith)
        requires
            n >= 0,
            d > 0,
            ceil_quotient(n, d) == (n + d - 1) / d,
    ;
}

/// `n / d` rounded up to the next multiple of 1000.
pub fn ceil_thousands(n: u128, d: u128) -> (r: u128)
    requires
        d > 0,
        n <= 10_000_000_000_000_000_000_000_000_000_000_000_000,
        d <= 10_000_000_000_000_000_000_000_000_000_000_000,
    ensures
        r == round_up_thousands(n as int, d as int),
        r <= n as int / d as int + 1000,
{
    proof {
        assert(1000 * d as int - 1 + n as int <= u128::MAX) by (nonlinear_arith)
            requires
                n <= 10_000_000_000_000_000_000_000_000_000_000_000_000,
                d <= 10_000_000_000_000_000_000_000_000_000_000_000,
        ;
    }
    let k: u128 = 1000 * d;
    let q: u128 = (n + k - 1) / k;
    proof {
        assert(q * 1000 <= n as int / d as int + 1000) by (nonlinear_arith)
            requires
                d > 0,
                k == 1000 * d,
                q == (n as int + k - 1) / k as int,
                n >= 0,
        ;
    }
    q * 1000
}

} // verus!
