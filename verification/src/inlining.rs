//! Inline-stress kernel: a composition of four trivial pure operations,
//! with the accumulator masked to its low 28 bits on every iteration.

use vstd::prelude::*;

verus! {

/// `x + x`.
pub fn double(x: i64) -> (r: i64)
    requires
        i64::MIN <= x + x <= i64::MAX,
    ensures
        r == 2 * x,
{
    x + x
}

/// `x * x`.
pub fn square(x: i64) -> (r: i64)
    requires
        i64::MIN <= x * x <= i64::MAX,
    ensures
        r == x * x,
{
    x * x
}

/// `a + b + c`.
pub fn add3(a: i64, b: i64, c: i64) -> (r: i64)
    requires
        i64::MIN <= a + b <= i64::MAX,
        i64::MIN <= a + b + c <= i64::MAX,
    ensures
        r == a + b + c,
{
    a + b + c
}

/// `x + 1`.
pub fn inc(x: i64) -> (r: i64)
    requires
        x < i64::MAX,
    ensures
        r == x + 1,
{
    x + 1
}

/// One iteration's contribution before masking, as a polynomial in the
/// loop index: `double(x) + square(x) + inc(x) = x * x + 3 * x + 1`.
pub open spec fn combine_value(x: int) -> int {
    x * x + 3 * x + 1
}

/// The composed operation `add3(double(x), square(x), inc(x))`.
pub fn combine(x: i64) -> (r: i64)
    requires
        i64::MIN <= x + x <= i64::MAX,
        i64::MIN <= x * x <= i64::MAX,
        i64::MIN <= x * x + 2 * x <= i64::MAX,
        i64::MIN <= x * x + 3 * x + 1 <= i64::MAX,
        x < i64::MAX,
    ensures
        r == combine_value(x as int),
{
    add3(double(x), square(x), inc(x))
}

/// The accumulator after the iterations at indices `0 .. n`: each
/// iteration adds `combine_value(i)` and then masks to the low 28 bits —
/// the mask is part of the semantics and is applied every iteration, not
/// only at the end.
pub open spec fn inline_total(n: int) -> int
    decreases n,
{
    if n <= 0 {
        0
    } else {
        crate::mask28(inline_total(n - 1) + combine_value(n - 1))
    }
}

/// The running accumulator never exceeds the 28-bit mask: the bound holds
/// after every iteration, not only at the end.
pub proof fn lemma_inline_total_bounded(n: int)
    requires
        n >= 0,
    ensures
        0 <= inline_total(n) <= 0x0FFFFFFF,
    decreases n,
{
    if n > 0 {
        lemma_inline_total_bounded(n - 1);
    }
}

/// Runs the inline-stress kernel: iterates `i` over `[0, 500000)`,
/// computing `r = combine(i)` and updating the accumulator as
/// `acc = (acc + r) & 0x0FFFFFFF`.
pub fn inline_stress() -> (acc: i64)
    ensures
        acc == inline_total(500000),
        0 <= acc <= 0x0FFFFFFF,
{
    let mut acc: i64 = 0;
    let mut i: i64 = 0;
    while i < 500000
        invariant
            0 <= i <= 500000,
            0 <= acc <= 0x0FFFFFFF,
            acc == inline_total(i as int),
        decreases 500000 - i,
    {
        proof {
            assert(0 <= i * i <= 500000 * 500000) by (nonlinear_arith)
                requires
                    0 <= i <= 500000,
            ;
        }
        let r = combine(i);
        let raw: i64 = acc + r;
        proof {
            crate::lemma_mask28(raw);
        }
        acc = raw & 0x0FFFFFFF;
        i = i + 1;
    }
    acc
}

} // verus!
