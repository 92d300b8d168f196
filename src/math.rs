use vstd::prelude::*;

verus! {

/// Floor division by a positive number does not exceed the dividend.
pub proof fn lemma_div_le(a: int, d: int)
    requires
        0 <= a,
        0 < d,
    ensures
        0 <= a / d <= a,
{
    assert(0 <= a / d <= a) by (nonlinear_arith)
        requires
            0 <= a,
            0 < d,
    ;
}

/// Products of non-negative numbers are monotone in both factors.
pub proof fn lemma_mul_le(a: int, b: int, x: int, y: int)
    requires
        0 <= a <= x,
        0 <= b <= y,
    ensures
        0 <= a * b <= x * y,
{
    assert(0 <= a * b <= x * y) by (nonlinear_arith)
        requires
            0 <= a <= x,
            0 <= b <= y,
    ;
}

/// Floor division by a positive number is monotone.
pub proof fn lemma_div_mono(a: int, b: int, d: int)
    requires
        a <= b,
        0 < d,
    ensures
        a / d <= b / d,
{
    assert(a / d <= b / d) by (nonlinear_arith)
        requires
            a <= b,
            0 < d,
    ;
}

/// Scaling by a ratio of at most one does not increase a value.
pub proof fn lemma_mul_div_le(a: int, k: int, d: int)
    requires
        0 <= a,
        0 <= k <= d,
        0 < d,
    ensures
        0 <= a * k / d <= a,
{
    lemma_mul_le(a, k, a, d);
    assert(a * k / d <= a * d / d) by (nonlinear_arith)
        requires
            a * k <= a * d,
            0 < d,
    ;
    assert(a * d / d == a) by (nonlinear_arith)
        requires
            0 < d,
    ;
    assert(0 <= a * k / d) by (nonlinear_arith)
        requires
            0 <= a,
            0 <= k,
            0 < d,
    ;
}

/// Floor division followed by the same multiplication does not exceed the start.
pub proof fn lemma_div_mul_le(a: int, d: int)
    requires
        0 <= a,
        0 < d,
    ensures
        0 <= (a / d) * d <= a,
{
    assert(0 <= (a / d) * d <= a) by (nonlinear_arith)
        requires
            0 <= a,
            0 < d,
    ;
}

} // verus!
