//! Branch-stress kernel: four independent divisibility tests per iteration.

use vstd::prelude::*;

verus! {

/// What one iteration at index `i` adds to the accumulator: each true
/// predicate contributes its own constant, and all four predicates are
/// tested on every iteration (they are independent, not mutually
/// exclusive alternatives).
pub open spec fn branch_step(i: int) -> int {
    (if i % 2 == 0 { 1int } else { 0int })
    + (if i % 3 == 0 { 2int } else { 0int })
    + (if i % 5 == 0 { 3int } else { 0int })
    + (if i % 7 == 0 { 5int } else { 0int })
}

/// The accumulator after the iterations at indices `0 .. n`.
pub open spec fn branch_total(n: int) -> int
    decreases n,
{
    if n <= 0 {
        0
    } else {
        branch_total(n - 1) + branch_step(n - 1)
    }
}

/// How many of the indices `0 .. n` are multiples of `k`.
pub open spec fn count_multiples(n: int, k: int) -> int
    decreases n,
{
    if n <= 0 {
        0
    } else {
        count_multiples(n - 1, k) + (if (n - 1) % k == 0 { 1int } else { 0int })
    }
}

/// Closed form for the count: the multiples of `k` in `0 .. n` number
/// `(n + k - 1) / k`.
pub proof fn lemma_count_multiples_closed(n: int, k: int)
    requires
        n >= 0,
        k >= 1,
    ensures
        count_multiples(n, k) == (n + k - 1) / k,
    decreases n,
{
    if n == 0 {
        assert((k - 1) / k == 0) by (nonlinear_arith)
            requires
                k >= 1,
        ;
    } else {
        lemma_count_multiples_closed(n - 1, k);
        assert((n + k - 1) / k == (n + k - 2) / k + (if (n - 1) % k == 0 {
            1int
        } else {
            0int
        })) by (nonlinear_arith)
            requires
                n >= 1 && k >= 1,
        ;
    }
}

/// The accumulator decomposes by closed-form counting: each predicate's
/// constant times the number of indices in `0 .. n` on which it held.
pub proof fn lemma_branch_total_counts(n: int)
    requires
        n >= 0,
    ensures
        branch_total(n) == count_multiples(n, 2) + 2 * count_multiples(n, 3) + 3 * count_multiples(
            n,
            5,
        ) + 5 * count_multiples(n, 7),
    decreases n,
{
    if n > 0 {
        lemma_branch_total_counts(n - 1);
    }
}

/// Runs the branch-stress kernel: iterates `i` over `[0, 200000)` and adds
/// 1, 2, 3 or 5 to the accumulator for each of `i % 2 == 0`, `i % 3 == 0`,
/// `i % 5 == 0`, `i % 7 == 0` that holds.
pub fn branch_stress() -> (acc: i64)
    ensures
        acc == branch_total(200000),
        acc == 496194,
{
    proof {
        lemma_branch_total_counts(200000);
        lemma_count_multiples_closed(200000, 2);
        lemma_count_multiples_closed(200000, 3);
        lemma_count_multiples_closed(200000, 5);
        lemma_count_multiples_closed(200000, 7);
    }
    let mut acc: i64 = 0;
    let mut i: i64 = 0;
    while i < 200000
        invariant
            0 <= i <= 200000,
            0 <= acc <= 11 * i,
            acc == branch_total(i as int),
        decreases 200000 - i,
    {
        if i % 2 == 0 {
            acc = acc + 1;
        }
        if i % 3 == 0 {
            acc = acc + 2;
        }
        if i % 5 == 0 {
            acc = acc + 3;
        }
        if i % 7 == 0 {
            acc = acc + 5;
        }
        i = i + 1;
    }
    acc
}

} // verus!
