use stress_kernels::calls::add_triple;
use stress_kernels::calls::compute;
use stress_kernels::calls::mul_pair;
use stress_kernels::inlining::add3;
use stress_kernels::inlining::combine;
use stress_kernels::inlining::double;
use stress_kernels::inlining::inc;
use stress_kernels::inlining::square;
use stress_kernels::mixed::helper;
use stress_kernels::udiv::div_sum;

#[test]
fn call_helpers_exact_values() {
    assert_eq!(add_triple(1, 2, 3), 6);
    assert_eq!(add_triple(-5, 5, 0), 0);
    assert_eq!(mul_pair(6, 7), 42);
    assert_eq!(mul_pair(-3, 9), -27);
}

#[test]
fn compute_identity_samples() {
    // compute(n) == (n + (n + 1) + (n + 2)) * 3 == 9 * n + 9.
    for n in [-100, -2, 0, 1, 7, 12345, 1000000] {
        assert_eq!(compute(n), 9 * n + 9);
        assert_eq!(compute(n), (n + (n + 1) + (n + 2)) * 3);
    }
}

#[test]
fn inline_helpers_exact_values() {
    assert_eq!(double(21), 42);
    assert_eq!(square(12), 144);
    assert_eq!(square(-4), 16);
    assert_eq!(add3(1, 2, 3), 6);
    assert_eq!(inc(41), 42);
    // combine(x) == double(x) + square(x) + inc(x) == x * x + 3 * x + 1.
    assert_eq!(combine(0), 1);
    assert_eq!(combine(10), 131);
    assert_eq!(combine(499999), 499999 * 499999 + 3 * 499999 + 1);
}

#[test]
fn mixed_helper_exact_values() {
    assert_eq!(helper(0), 7);
    assert_eq!(helper(30), 97);
    assert_eq!(helper(-7), -14);
}

#[test]
fn mixed_overlapping_conditionals_apply_in_sequence() {
    // i = 28 satisfies both i % 4 == 0 and i % 7 == 0: the helper-doubled
    // branch is taken, and then helper of that value is added on top.
    let i: i64 = 28;
    assert_eq!(i % 4, 0);
    assert_eq!(i % 7, 0);
    let t3 = (i + 1) * 2 - i;
    assert_eq!(t3, 30);
    let first = helper(t3) * 2;
    assert_eq!(first, 194);
    let both = first + helper(first);
    assert_eq!(both, 783);
    assert_eq!(both, 24 * i + 111);
}

#[test]
fn udiv_truncating_division_at_255() {
    let i: i64 = 255;
    assert_eq!(i / 2, 127);
    assert_eq!(i / 4, 63);
    assert_eq!(i / 8, 31);
    assert_eq!(i / 16, 15);
    assert_eq!(i / 32, 7);
    assert_eq!(i / 64, 3);
    assert_eq!(i / 128, 1);
    assert_eq!(i / 256, 0);
    assert_eq!(div_sum(255), 247);
}

#[test]
fn udiv_div_sum_edge_values() {
    assert_eq!(div_sum(0), 0);
    assert_eq!(div_sum(1), 0);
    assert_eq!(div_sum(2), 1);
    assert_eq!(div_sum(256), 255);
    assert_eq!(div_sum(500000), 498046);
}
