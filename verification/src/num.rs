//! Arithmetic range lemmas shared by the world-position computations.

use vstd::prelude::*;

verus! {

/// A product of a bounded factor and a bounded positive factor stays within
/// the product of the bounds.
pub proof fn lemma_mul_in_range(a: int, b: int, alo: int, ahi: int, bhi: int)
    requires
        alo <= a <= ahi,
        0 < b <= bhi,
        alo <= 0 <= ahi,
    ensures
        alo * bhi <= a * b <= ahi * bhi,
{
    assert(alo * bhi <= a * b <= ahi * bhi) by (nonlinear_arith)
        requires
            alo <= a <= ahi,
            0 < b <= bhi,
            alo <= 0 <= ahi,
    ;
}

/// A product of factors with bounded magnitude has bounded magnitude.
pub proof fn lemma_mul_abs_bound(a: int, b: int, amax: int, bmax: int)
    requires
        -amax <= a <= amax,
        -bmax <= b <= bmax,
        0 <= amax,
        0 <= bmax,
    ensures
        -(amax * bmax) <= a * b <= amax * bmax,
{
    assert(-(amax * bmax) <= a * b <= amax * bmax) by (nonlinear_arith)
        requires
            -amax <= a <= amax,
            -bmax <= b <= bmax,
            0 <= amax,
            0 <= bmax,
    ;
}

/// `(a * b) / d` is between `0` and `b` when `0 <= a <= d`.
pub proof fn lemma_mul_div_bound(a: int, b: int, d: int)
    requires
        0 <= a <= d,
        0 < d,
        0 <= b,
    ensures
        0 <= (a * b) / d <= b,
{
    assert(0 <= (a * b) / d <= b) by (nonlinear_arith)
        requires
            0 <= a <= d,
            0 < d,
            0 <= b,
    ;
}

/// Equal products with the same positive factor have equal other factors.
pub proof fn lemma_mul_cancel(a: int, b: int, t: int)
    requires
        t >= 1,
        a * t == b * t,
    ensures
        a == b,
{
    assert(a == b) by (nonlinear_arith)
        requires
            t >= 1,
            a * t == b * t,
    ;
}

/// No multiple of `t` lies strictly between `0` and `t`.
pub proof fn lemma_no_small_multiple(a: int, t: int, r: int)
    requires
        t >= 1,
        1 <= r <= t - 1,
    ensures
        a * t != r,
{
    assert(a * t != r) by (nonlinear_arith)
        requires
            t >= 1,
            1 <= r <= t - 1,
    ;
}

/// The ceiling-division step count is at least one and at most the height
/// difference itself when the rise is at least one.
pub proof fn lemma_ceil_div_bounds(diff: int, rise: int)
    requires
        1 <= diff,
        1 <= rise,
    ensures
        1 <= (diff + rise - 1) / rise <= diff,
{
    assert(1 <= (diff + rise - 1) / rise <= diff) by (nonlinear_arith)
        requires
            1 <= diff,
            1 <= rise,
    ;
}

} // verus!
