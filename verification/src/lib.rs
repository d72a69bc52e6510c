//! Deterministic integer micro-benchmark kernels.
//!
//! Five independent, stateless kernels, each a pure function over a fixed
//! iteration range that accumulates into a 64-bit signed value. Each kernel
//! stresses one code-generation concern: conditional branches, function
//! calls, inlining of small pure functions, mixed branch/call arithmetic,
//! and integer division. The final accumulator is reduced to an 8-bit
//! result code (its low eight bits) so that independent reimplementations
//! can be cross-checked for bit-for-bit agreement.

use vstd::prelude::*;

pub mod branch;
pub mod calls;
pub mod inlining;
pub mod mixed;
pub mod udiv;

verus! {

/// Reduction of a nonnegative accumulator to its low 28 bits, the masking
/// step `& 0x0FFFFFFF` that some kernels apply on every iteration.
pub open spec fn mask28(x: int) -> int {
    x % 0x10000000
}

/// On a nonnegative value, masking with `& 0x0FFFFFFF` is exactly
/// reduction modulo `2^28`, and the result stays within the mask.
pub proof fn lemma_mask28(x: i64)
    requires
        0 <= x,
    ensures
        (x & 0x0FFFFFFF) == mask28(x as int),
        0 <= (x & 0x0FFFFFFF) <= 0x0FFFFFFF,
{
    assert((x & 0x0FFFFFFF) == x % 0x10000000 && 0 <= (x & 0x0FFFFFFF) <= 0x0FFFFFFF)
        by (bit_vector)
        requires
            0 <= x,
    ;
}

/// The result code of a kernel run: the low eight bits of the final
/// accumulator, read as an unsigned value in `[0, 255]`.
pub fn result_code(acc: i64) -> (code: u8)
    ensures
        code == (acc & 0xFF),
        acc >= 0 ==> code == acc % 256,
{
    proof {
        assert(0 <= (acc & 0xFF) < 256 && (acc >= 0 ==> (acc & 0xFF) == acc % 256))
            by (bit_vector);
    }
    (acc & 0xFF) as u8
}

} // verus!
