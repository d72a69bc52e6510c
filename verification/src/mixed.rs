//! Mixed-stress kernel: arithmetic, a two-way branch and a second,
//! independent conditional interact on every iteration.

use vstd::prelude::*;

verus! {

/// The helper's value as a polynomial: `helper(x) = 3 * x + 7`.
pub open spec fn helper_value(x: int) -> int {
    3 * x + 7
}

/// `x * 3 + 7`.
pub fn helper(x: i64) -> (r: i64)
    requires
        i64::MIN <= 3 * x <= i64::MAX,
        i64::MIN <= 3 * x + 7 <= i64::MAX,
    ensures
        r == helper_value(x as int),
{
    x * 3 + 7
}

/// The value of `tmp` after the first, two-way branch at index `i`.
/// The preceding arithmetic gives `t3 = (i + 1) * 2 - i = i + 2`.
pub open spec fn mixed_first(i: int) -> int {
    if i % 4 == 0 {
        2 * helper_value(i + 2)
    } else {
        3 * (i + 2 + 100)
    }
}

/// One iteration's contribution to the accumulator. The second
/// conditional applies on top of whichever branch the first took: the two
/// conditionals are sequential, not mutually exclusive alternatives.
pub open spec fn mixed_step(i: int) -> int {
    if i % 7 == 0 {
        mixed_first(i) + helper_value(mixed_first(i))
    } else {
        mixed_first(i)
    }
}

/// The accumulator after the iterations at indices `0 .. n`.
pub open spec fn mixed_total(n: int) -> int
    decreases n,
{
    if n <= 0 {
        0
    } else {
        mixed_total(n - 1) + mixed_step(n - 1)
    }
}

/// Non-exclusivity of the two conditionals: on an index that satisfies
/// both `i % 4 == 0` and `i % 7 == 0`, both adjustments apply in
/// sequence — the helper-doubled branch is taken, and then `helper` of
/// that value is added again, for a contribution of `24 * i + 111`.
pub proof fn lemma_mixed_step_overlap(i: int)
    requires
        i % 4 == 0,
        i % 7 == 0,
    ensures
        mixed_first(i) == 6 * i + 26,
        mixed_step(i) == mixed_first(i) + helper_value(mixed_first(i)),
        mixed_step(i) == 24 * i + 111,
{
}

/// Runs the mixed-stress kernel: iterates `i` over `[0, 100000)`; per
/// iteration `t1 = i + 1`, `t2 = t1 * 2`, `t3 = t2 - i`, then the first
/// branch picks `tmp = helper(t3) * 2` (if `i % 4 == 0`) or
/// `tmp = (t3 + 100) * 3`, then if `i % 7 == 0` adds `helper(tmp)` to
/// `tmp`, and finally accumulates `tmp`.
pub fn mixed_stress() -> (acc: i64)
    ensures
        acc == mixed_total(100000),
{
    let mut acc: i64 = 0;
    let mut i: i64 = 0;
    while i < 100000
        invariant
            0 <= i <= 100000,
            0 <= acc <= 2500000 * i,
            acc == mixed_total(i as int),
        decreases 100000 - i,
    {
        let t1 = i + 1;
        let t2 = t1 * 2;
        let t3 = t2 - i;
        let mut tmp: i64;
        if i % 4 == 0 {
            tmp = helper(t3) * 2;
        } else {
            tmp = (t3 + 100) * 3;
        }
        if i % 7 == 0 {
            tmp = tmp + helper(tmp);
        }
        acc = acc + tmp;
        i = i + 1;
    }
    acc
}

} // verus!
