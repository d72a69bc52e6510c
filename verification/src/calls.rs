//! Call-stress kernel: three levels of nested calls per iteration.

use vstd::prelude::*;

verus! {

/// Adds three values.
pub fn add_triple(a: i64, b: i64, c: i64) -> (r: i64)
    requires
        i64::MIN <= a + b <= i64::MAX,
        i64::MIN <= a + b + c <= i64::MAX,
    ensures
        r == a + b + c,
{
    a + b + c
}

/// Multiplies two values.
pub fn mul_pair(x: i64, y: i64) -> (r: i64)
    requires
        i64::MIN <= x * y <= i64::MAX,
    ensures
        r == x * y,
{
    x * y
}

/// The composed operation `mul_pair(add_triple(n, n + 1, n + 2), 3)`,
/// which algebraically equals `9 * n + 9`.
pub fn compute(n: i64) -> (r: i64)
    requires
        i64::MIN <= 9 * n + 9 <= i64::MAX,
    ensures
        r == (n + (n + 1) + (n + 2)) * 3,
        r == 9 * n + 9,
{
    mul_pair(add_triple(n, n + 1, n + 2), 3)
}

/// The accumulator after the iterations at indices `0 .. n`: iteration `i`
/// contributes `r3 = 2 * (i + compute(i) + 1) = 20 * i + 20`, so the total
/// is the closed form `10 * n * n + 10 * n`.
pub open spec fn call_total(n: int) -> int {
    10 * n * n + 10 * n
}

/// Runs the call-stress kernel: iterates `i` over `[0, 100000)`, computing
/// `r1 = compute(i)`, `r2 = add_triple(i, r1, 1)`, `r3 = mul_pair(r2, 2)`
/// in that order (each depends on the previous) and accumulating `r3`.
pub fn call_stress() -> (acc: i64)
    ensures
        acc == call_total(100000),
        acc == 100001000000,
{
    proof {
        assert(10 * 100000 * 100000 + 10 * 100000 == 100001000000) by (nonlinear_arith);
    }
    let mut acc: i64 = 0;
    let mut i: i64 = 0;
    while i < 100000
        invariant
            0 <= i <= 100000,
            acc == call_total(i as int),
        decreases 100000 - i,
    {
        proof {
            assert(0 <= 10 * i * i <= 10 * 100000 * 100000) by (nonlinear_arith)
                requires
                    0 <= i <= 100000,
            ;
            assert(10 * (i + 1) * (i + 1) + 10 * (i + 1) == 10 * i * i + 30 * i + 20)
                by (nonlinear_arith);
        }
        let r1 = compute(i);
        let r2 = add_triple(i, r1, 1);
        let r3 = mul_pair(r2, 2);
        acc = acc + r3;
        i = i + 1;
    }
    acc
}

} // verus!
