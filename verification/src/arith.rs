//! Integer square root and the small square/product lemmas the engine's
//! distance computations rest on.

use vstd::prelude::*;

verus! {

use crate::sq;

/// Squares are never negative.
pub proof fn lemma_sq_nonneg(x: int)
    by (nonlinear_arith)
    ensures
        sq(x) >= 0,
{
}

/// Squaring preserves order on non-negative integers.
pub proof fn lemma_sq_monotonic(x: int, y: int)
    by (nonlinear_arith)
    requires
        0 <= x <= y,
    ensures
        sq(x) <= sq(y),
{
}

/// Negating an integer leaves its square unchanged.
pub proof fn lemma_sq_negate(x: int)
    by (nonlinear_arith)
    ensures
        sq(x) == sq(-x),
{
}

/// A product of two magnitude-bounded factors is magnitude-bounded.
pub proof fn lemma_mul_magnitude(x: int, y: int, bx: int, by: int)
    by (nonlinear_arith)
    requires
        -bx <= x <= bx,
        -by <= y <= by,
        0 <= bx,
        0 <= by,
    ensures
        -(bx * by) <= x * y <= bx * by,
{
}

/// Comparing a floor square root `d` of `q` against an integer threshold
/// `m` answers exactly the real-valued comparison: `d >= m` holds if and
/// only if `m <= 0` or `q >= m*m`.
pub proof fn lemma_floor_sqrt_compare(d: int, q: int, m: int)
    requires
        d >= 0,
        sq(d) <= q,
        q < sq(d + 1),
    ensures
        (d >= m) == (m <= 0 || q >= sq(m)),
{
    if m > 0 {
        if d >= m {
            lemma_sq_monotonic(m, d);
        } else {
            lemma_sq_monotonic(d + 1, m);
        }
    }
}

/// Floor square root of a squared-distance value, returned in the signed
/// word the engine's distances use. The bound on `q` is the one every
/// squared distance of coordinates within `MAX_DISTANCE_COORD_UNITS`
/// satisfies.
pub(crate) fn dist_floor_sqrt(q: i128) -> (d: i64)
    requires
        0 <= q,
        q <= 2 * sq(2 * crate::MAX_DISTANCE_COORD_UNITS as int),
    ensures
        sq(d as int) <= q && q < sq(d as int + 1),
        d >= 0,
{
    let r: u64 = isqrt_u128(q as u128);
    proof {
        if (r as int) >= crate::MAX_DISTANCE_COORD_UNITS as int * 3 {
            lemma_sq_monotonic(crate::MAX_DISTANCE_COORD_UNITS as int * 3, r as int);
            assert(sq(crate::MAX_DISTANCE_COORD_UNITS as int * 3) > 2 * sq(
                2 * crate::MAX_DISTANCE_COORD_UNITS as int,
            )) by (nonlinear_arith);
        }
    }
    r as i64
}

/// Floor integer square root: the unique `r` with `r*r <= n < (r+1)*(r+1)`.
pub(crate) fn isqrt_u128(n: u128) -> (r: u64)
    ensures
        sq(r as int) <= n as int && (n as int) < sq(r as int + 1),
{
    let mut lo: u64 = 0;
    let mut hi: u64 = u64::MAX;
    assert((n as int) < sq(hi as int + 1)) by (nonlinear_arith)
        requires
            n <= u128::MAX,
            hi == u64::MAX,
    ;
    while lo < hi
        invariant
            lo <= hi,
            sq(lo as int) <= n as int,
            (n as int) < sq(hi as int + 1),
        decreases hi - lo,
    {
        let step: u64 = (hi - lo) / 2 + 1;
        let mid: u64 = lo + step;
        let m: u128 = mid as u128;
        assert(m * m == sq(mid as int) && m * m <= u128::MAX) by (nonlinear_arith)
            requires
                m == mid as int,
                m <= u64::MAX,
        ;
        if m * m <= n {
            lo = mid;
        } else {
            hi = mid - 1;
        }
    }
    lo
}

} // verus!
