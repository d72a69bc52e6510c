//! Division-stress kernel: eight truncating integer divisions by
//! successive powers of two per iteration, with the accumulator masked to
//! its low 28 bits on every iteration.

use vstd::prelude::*;

verus! {

/// One iteration's contribution before masking: the sum of the eight
/// divisions `i/2 + i/4 + i/8 + i/16 + i/32 + i/64 + i/128 + i/256`.
/// All operands are positive, so truncating division and Euclidean
/// division agree.
pub open spec fn div_terms(i: int) -> int {
    i / 2 + i / 4 + i / 8 + i / 16 + i / 32 + i / 64 + i / 128 + i / 256
}

/// Computes the eight divisions of `i` by successive powers of two and
/// sums them.
pub fn div_sum(i: i64) -> (s: i64)
    requires
        0 <= i,
    ensures
        s == div_terms(i as int),
{
    let d1 = i / 2;
    let d2 = i / 4;
    let d3 = i / 8;
    let d4 = i / 16;
    let d5 = i / 32;
    let d6 = i / 64;
    let d7 = i / 128;
    let d8 = i / 256;
    d1 + d2 + d3 + d4 + d5 + d6 + d7 + d8
}

/// The accumulator after the iterations at indices `1 .. n`: the index
/// starts at 1, not 0, and each iteration adds `div_terms(i)` and then
/// masks to the low 28 bits, the same masking convention as the
/// inline-stress kernel, applied every iteration.
pub open spec fn udiv_total(n: int) -> int
    decreases n,
{
    if n <= 1 {
        0
    } else {
        crate::mask28(udiv_total(n - 1) + div_terms(n - 1))
    }
}

/// Runs the division-stress kernel: iterates `i` over `[1, 500001)` and
/// updates the accumulator as `acc = (acc + div_sum(i)) & 0x0FFFFFFF`.
pub fn udiv_stress() -> (acc: i64)
    ensures
        acc == udiv_total(500001),
        0 <= acc <= 0x0FFFFFFF,
{
    let mut acc: i64 = 0;
    let mut i: i64 = 1;
    while i < 500001
        invariant
            1 <= i <= 500001,
            0 <= acc <= 0x0FFFFFFF,
            acc == udiv_total(i as int),
        decreases 500001 - i,
    {
        let s7 = div_sum(i);
        let raw: i64 = acc + s7;
        proof {
            crate::lemma_mask28(raw);
        }
        acc = raw & 0x0FFFFFFF;
        i = i + 1;
    }
    acc
}

} // verus!
