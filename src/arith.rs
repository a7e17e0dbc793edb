//! Integer helpers for the fixed-point model: division that rounds toward
//! zero and the integer square root.
use vstd::prelude::*;

verus! {

pub open spec fn abs(a: int) -> int {
    if a >= 0 {
        a
    } else {
        -a
    }
}

/// `a / d` rounded toward zero, as Rust's integer division does.
pub open spec fn trunc_div(a: int, d: int) -> int
    recommends
        d > 0,
{
    if a >= 0 {
        a / d
    } else {
        -((-a) / d)
    }
}

/// `r` is the integer square root of `n`.
pub open spec fn is_sqrt_floor(n: int, r: int) -> bool {
    0 <= r && r * r <= n && n < (r + 1) * (r + 1)
}

/// The largest integer whose square does not exceed `n`.
pub open spec fn sqrt_floor(n: int) -> int {
    choose|r: int| is_sqrt_floor(n, r)
}

/// Largest input accepted by [`isqrt`].
pub const SQRT_INPUT_LIMIT: u128 = 0x10_0000_0000_0000_0000_0000_0000;

proof fn lemma_sqrt_floor_unique(n: int, r: int, q: int)
    requires
        is_sqrt_floor(n, r),
        is_sqrt_floor(n, q),
    ensures
        r == q,
{
    if r < q {
        assert((r + 1) * (r + 1) <= q * q) by (nonlinear_arith)
            requires
                0 <= r < q,
        ;
    } else if q < r {
        assert((q + 1) * (q + 1) <= r * r) by (nonlinear_arith)
            requires
                0 <= q < r,
        ;
    }
}

/// A witness of the square root pins down [`sqrt_floor`].
pub proof fn lemma_sqrt_floor_is(n: int, r: int)
    requires
        is_sqrt_floor(n, r),
    ensures
        sqrt_floor(n) == r,
{
    lemma_sqrt_floor_unique(n, r, sqrt_floor(n));
}

/// Integer square root, rounded down.
pub fn isqrt(n: u128) -> (r: u64)
    requires
        n <= SQRT_INPUT_LIMIT,
    ensures
        r as int == sqrt_floor(n as int),
        is_sqrt_floor(n as int, r as int),
{
    // search for the root in [lo, hi): lo * lo <= n < hi * hi
    let mut lo: u128 = 0;
    let mut hi: u128 = 0x10_0000_0000_0001;
    assert(n < hi * hi) by (nonlinear_arith)
        requires
            n <= SQRT_INPUT_LIMIT,
            hi == 0x10_0000_0000_0001u128,
    ;
    while lo + 1 < hi
        invariant
            lo < hi <= 0x10_0000_0000_0001,
            lo * lo <= n,
            n < hi * hi,
        decreases hi - lo,
    {
        let mid: u128 = lo + (hi - lo) / 2;
        assert(mid * mid <= 0x10_0000_0000_0001u128 * 0x10_0000_0000_0001u128)
            by (nonlinear_arith)
            requires
                mid < 0x10_0000_0000_0001u128,
        ;
        if mid * mid <= n {
            lo = mid;
        } else {
            hi = mid;
        }
    }
    assert((lo + 1) * (lo + 1) == hi * hi);
    proof {
        lemma_sqrt_floor_is(n as int, lo as int);
    }
    lo as u64
}

} // verus!

verus! {

/// Every non-negative integer has an integer square root.
pub proof fn lemma_sqrt_floor_exists(n: int)
    requires
        n >= 0,
    ensures
        is_sqrt_floor(n, sqrt_floor(n)),
    decreases n,
{
    if n == 0 {
        assert(is_sqrt_floor(0, 0));
    } else {
        lemma_sqrt_floor_exists(n - 1);
        let r = sqrt_floor(n - 1);
        if (r + 1) * (r + 1) <= n {
            assert(n < (r + 2) * (r + 2)) by (nonlinear_arith)
                requires
                    n - 1 < (r + 1) * (r + 1),
                    r >= 0,
            ;
            assert(is_sqrt_floor(n, r + 1));
        } else {
            assert(is_sqrt_floor(n, r));
        }
    }
}

} // verus!

verus! {

/// Quotient and remainder of a non-negative integer by a positive one.
pub proof fn lemma_div_bounds(a: int, d: int)
    requires
        a >= 0,
        d > 0,
    ensures
        a / d >= 0,
        d * (a / d) <= a < d * (a / d) + d,
{
    vstd::arithmetic::div_mod::lemma_fundamental_div_mod(a, d);
    vstd::arithmetic::div_mod::lemma_mod_bound(a, d);
    let q = a / d;
    assert(q >= 0) by (nonlinear_arith)
        requires
            d * q > a - d,
            a >= 0,
            d > 0,
    ;
}

/// Division toward zero keeps the sign and does not grow the magnitude.
pub proof fn lemma_trunc_div_bounds(a: int, d: int)
    requires
        d > 0,
    ensures
        a >= 0 ==> 0 <= trunc_div(a, d) && d * trunc_div(a, d) <= a,
        a <= 0 ==> trunc_div(a, d) <= 0 && a <= d * trunc_div(a, d),
        d * abs(trunc_div(a, d)) <= abs(a),
{
    if a >= 0 {
        lemma_div_bounds(a, d);
    } else {
        lemma_div_bounds(-a, d);
        let q = (-a) / d;
        assert(d * (-q) == -(d * q)) by (nonlinear_arith);
    }
}

} // verus!
