//! The fixed-point unit and the integer scalings built on it.

use vstd::prelude::*;
use vstd::arithmetic::div_mod::{lemma_fundamental_div_mod, lemma_fundamental_div_mod_converse};

verus! {

/// Number of fixed-point units in one whole.
pub const SCALE: u64 = 1000;

/// Distance between two values.
pub open spec fn distance(a: int, b: int) -> int {
    if a <= b {
        b - a
    } else {
        a - b
    }
}

/// Distance between two data values, which always fits 64 unsigned bits.
pub fn abs_diff(a: i64, b: i64) -> (d: u64)
    ensures
        d == distance(a as int, b as int),
{
    if a <= b {
        (b as i128 - a as i128) as u64
    } else {
        (a as i128 - b as i128) as u64
    }
}

/// `value * length / span`, rounded down; zero where the span is zero.
pub open spec fn scaled(value: int, length: int, span: int) -> int {
    if span <= 0 {
        0
    } else {
        (value * length) / span
    }
}

/// Whether `length` is a length on a surface: at least zero and at most a
/// thousand units for each of `i32::MAX` pixels.
pub open spec fn is_device_length(length: int) -> bool {
    0 <= length <= 1000 * 0x7fff_ffff
}

/// How far from its origin a scaled value can fall at most: the widest
/// distance between two data values times the longest device length.
pub open spec fn device_reach() -> int {
    0xffff_ffff_ffff_ffffint * (1000 * 0x7fff_ffff)
}

/// Scales a data value by `length / span`, rounding down. A zero span gives
/// zero, so that a degenerate axis collapses every value onto its origin.
pub fn scale_value(value: i64, length: i128, span: u64) -> (r: i128)
    requires
        is_device_length(length as int),
    ensures
        r == scaled(value as int, length as int, span as int),
        -device_reach() <= r <= device_reach(),
{
    proof {
        lemma_scaled_within_reach(value as int, length as int, span as int);
    }
    if span == 0 {
        return 0;
    }
    let d: i128 = span as i128;
    if value >= 0 {
        let v: i128 = value as i128;
        assert(0 <= v * length <= 0x7fff_ffff_ffff_ffff * (1000 * 0x7fff_ffff)) by (nonlinear_arith)
            requires
                0 <= v <= 0x7fff_ffff_ffff_ffff,
                0 <= length <= 1000 * 0x7fff_ffff,
        ;
        let n: i128 = v * length;
        n / d
    } else {
        let v: i128 = -(value as i128);
        assert(0 <= v * length <= 0x8000_0000_0000_0000 * (1000 * 0x7fff_ffff)) by (nonlinear_arith)
            requires
                0 <= v <= 0x8000_0000_0000_0000,
                0 <= length <= 1000 * 0x7fff_ffff,
        ;
        let n: i128 = v * length;
        let q: i128 = (n + d - 1) / d;
        proof {
            lemma_floor_of_negated(n as int, d as int);
            assert((value as int) * (length as int) == -(n as int)) by (nonlinear_arith)
                requires
                    v == -(value as int),
                    n == v * length,
            ;
        }
        -q
    }
}

/// Scales a distance by `length / span`, rounding down; zero where the
/// span is zero.
pub fn scale_distance(distance: u64, length: i128, span: u64) -> (r: i128)
    requires
        is_device_length(length as int),
    ensures
        r == scaled(distance as int, length as int, span as int),
        0 <= r <= device_reach(),
{
    proof {
        lemma_scaled_within_reach(distance as int, length as int, span as int);
    }
    if span == 0 {
        return 0;
    }
    let v: i128 = distance as i128;
    assert(0 <= v * length <= 0xffff_ffff_ffff_ffff * (1000 * 0x7fff_ffff)) by (nonlinear_arith)
        requires
            0 <= v <= 0xffff_ffff_ffff_ffff,
            0 <= length <= 1000 * 0x7fff_ffff,
    ;
    let n: i128 = v * length;
    n / (span as i128)
}

/// Rounding a negated numerator down is rounding the numerator up.
proof fn lemma_floor_of_negated(n: int, d: int)
    requires
        0 <= n,
        0 < d,
    ensures
        (-n) / d == -((n + d - 1) / d),
{
    let q: int = (n + d - 1) / d;
    let r: int = (n + d - 1) % d;
    lemma_fundamental_div_mod(n + d - 1, d);
    assert(-n == (-q) * d + (d - 1 - r)) by (nonlinear_arith)
        requires
            n + d - 1 == d * q + r,
    ;
    lemma_fundamental_div_mod_converse(-n, d, -q, d - 1 - r);
}

/// A scaled value is no farther from zero than the product it is the
/// quotient of, and has its sign.
proof fn lemma_scaled_within_reach(value: int, length: int, span: int)
    requires
        -0xffff_ffff_ffff_ffff <= value <= 0xffff_ffff_ffff_ffff,
        is_device_length(length),
        0 <= span,
    ensures
        -device_reach() <= scaled(value, length, span) <= device_reach(),
        0 <= value ==> 0 <= scaled(value, length, span),
{
    if span > 0 {
        let n: int = value * length;
        assert(-device_reach() <= n <= device_reach() && (0 <= value ==> 0 <= n))
            by (nonlinear_arith)
            requires
                n == value * length,
                -0xffff_ffff_ffff_ffff <= value <= 0xffff_ffff_ffff_ffff,
                0 <= length <= 1000 * 0x7fff_ffff,
                device_reach() == 0xffff_ffff_ffff_ffff * (1000 * 0x7fff_ffff),
        ;
        lemma_fundamental_div_mod(n, span);
        let q: int = n / span;
        let r: int = n % span;
        assert((0 <= n ==> 0 <= q <= n) && (n < 0 ==> n <= q < 0)) by (nonlinear_arith)
            requires
                n == span * q + r,
                0 <= r < span,
        ;
    }
}

} // verus!
