//! Grid steps: powers of a base, snapped below a fraction of the axis span.
//!
//! A step is a fraction of fixed-point units, so that an axis however
//! short has one: `base^order` is `SCALE * base^order` over one, or `SCALE`
//! over `base^(-order)`.

use vstd::prelude::*;
use vstd::arithmetic::div_mod::lemma_fundamental_div_mod;
use vstd::arithmetic::power::{
    lemma_pow0,
    lemma_pow1,
    lemma_pow_adds,
    lemma_pow_increases,
    lemma_pow_positive,
    pow,
};
use crate::units::{distance, SCALE};

verus! {

/// The two axes of a chart.
#[derive(Clone, Copy, Debug, PartialEq, Eq, Structural)]
pub enum Axis {
    X,
    Y,
}

/// Tenths of the span that a grid section may cover at most: three on the
/// x axis, four on the y axis.
pub open spec fn section_tenths(axis: Axis) -> int {
    match axis {
        Axis::X => 3,
        Axis::Y => 4,
    }
}

/// Numerator of `base` to the power `e`, counted in fixed-point units: the
/// unit times the power where `e` is not negative, else the unit.
pub open spec fn step_numerator(base: int, e: int) -> int {
    if e >= 0 {
        SCALE * pow(base, e as nat)
    } else {
        SCALE as int
    }
}

/// Denominator of `base` to the power `e`, counted in fixed-point units:
/// one where `e` is not negative, else `base` to the power `-e`.
pub open spec fn step_denominator(base: int, e: int) -> int {
    if e >= 0 {
        1
    } else {
        pow(base, (-e) as nat)
    }
}

/// Whether `e` is the order of magnitude, in `base`, of `tenths` tenths of
/// `span`: the power `base^e` is at most that candidate and `base^(e+1)`
/// is above it. Both comparisons are made on whole numbers, the power
/// being `step_numerator` over `step_denominator`.
pub open spec fn is_grid_order(e: int, span: int, base: int, tenths: int) -> bool {
    &&& base >= 2
    &&& 10 * step_numerator(base, e) <= (tenths * span) * step_denominator(base, e)
    &&& (tenths * span) * step_denominator(base, e) < 10 * (step_numerator(base, e) * base)
}

/// The order of the grid step for a span: there is one for every span
/// above zero and every base of at least two.
pub open spec fn grid_order(span: int, base: int, tenths: int) -> Option<int> {
    if exists|e: int| is_grid_order(e, span, base, tenths) {
        Some(choose|e: int| is_grid_order(e, span, base, tenths))
    } else {
        None
    }
}

/// No grid step has a denominator above this: ten thousand times two to
/// the power 32.
pub const MAX_DENOMINATOR: u64 = 42_949_672_960_000;

/// A grid step: `base` to the power `order`, as a fraction of fixed-point
/// units. A step of at least one whole has the denominator one; a smaller
/// one has the unit as its numerator.
#[derive(Clone, Copy, Debug, PartialEq, Eq, Structural)]
pub struct GridStep {
    pub order: i64,
    pub numerator: u64,
    pub denominator: u64,
}

/// Numerator and denominator of every power are positive.
pub proof fn lemma_step_positive(base: int, e: int)
    requires
        base >= 2,
    ensures
        step_numerator(base, e) > 0,
        step_denominator(base, e) > 0,
{
    if e >= 0 {
        lemma_pow_positive(base, e as nat);
        assert(SCALE * pow(base, e as nat) > 0) by (nonlinear_arith)
            requires
                pow(base, e as nat) > 0,
                SCALE == 1000,
        ;
    } else {
        lemma_pow_positive(base, (-e) as nat);
    }
}

/// Between two powers of different order lies at least a factor of `base`:
/// for `lo < hi`, `base^lo * base <= base^hi`, stated on the fractions.
pub proof fn lemma_step_grows(base: int, lo: int, hi: int)
    requires
        base >= 2,
        lo < hi,
    ensures
        (step_numerator(base, lo) * base) * step_denominator(base, hi) <= step_numerator(
            base,
            hi,
        ) * step_denominator(base, lo),
{
    let d = (hi - lo) as nat;
    let pd = pow(base, d);
    lemma_pow1(base);
    lemma_pow_increases(base as nat, 1, d);
    assert(base <= pd);
    if lo >= 0 {
        let pl = pow(base, lo as nat);
        let ph = pow(base, hi as nat);
        lemma_pow_adds(base, lo as nat, d);
        lemma_pow_positive(base, lo as nat);
        assert(((1000 * pl) * base) * 1 <= (1000 * ph) * 1) by (nonlinear_arith)
            requires
                ph == pl * pd,
                base <= pd,
                pl > 0,
        ;
    } else if hi >= 0 {
        let nl = pow(base, (-lo) as nat);
        let ph = pow(base, hi as nat);
        lemma_pow_increases(base as nat, 1, (-lo) as nat);
        lemma_pow_positive(base, hi as nat);
        assert((1000 * base) * 1 <= (1000 * ph) * nl) by (nonlinear_arith)
            requires
                base <= nl,
                ph >= 1,
                base >= 2,
        ;
    } else {
        let nl = pow(base, (-lo) as nat);
        let nh = pow(base, (-hi) as nat);
        lemma_pow_adds(base, d, (-hi) as nat);
        lemma_pow_positive(base, (-hi) as nat);
        assert((1000 * base) * nh <= 1000 * nl) by (nonlinear_arith)
            requires
                nl == pd * nh,
                base <= pd,
                nh > 0,
        ;
    }
}

/// A span has at most one grid order.
pub proof fn lemma_grid_order_unique(a: int, b: int, span: int, base: int, tenths: int)
    requires
        is_grid_order(a, span, base, tenths),
        is_grid_order(b, span, base, tenths),
    ensures
        a == b,
{
    if a < b {
        lemma_between_orders(a, b, span, base, tenths);
    } else if b < a {
        lemma_between_orders(b, a, span, base, tenths);
    }
}

/// A candidate below `base^(lo+1)` is below `base^hi` for every `hi`
/// above `lo`.
proof fn lemma_between_orders(lo: int, hi: int, span: int, base: int, tenths: int)
    requires
        base >= 2,
        lo < hi,
        (tenths * span) * step_denominator(base, lo) < 10 * (step_numerator(base, lo) * base),
    ensures
        (tenths * span) * step_denominator(base, hi) < 10 * step_numerator(base, hi),
{
    let c = tenths * span;
    let x = step_numerator(base, lo) * base;
    let dl = step_denominator(base, lo);
    let nh = step_numerator(base, hi);
    let dh = step_denominator(base, hi);
    lemma_step_positive(base, lo);
    lemma_step_positive(base, hi);
    lemma_step_grows(base, lo, hi);
    assert((c * dl) * dh < (10 * x) * dh) by (nonlinear_arith)
        requires
            c * dl < 10 * x,
            dh > 0,
    ;
    assert((10 * x) * dh == 10 * (x * dh)) by (nonlinear_arith);
    assert((c * dl) * dh == (c * dh) * dl) by (nonlinear_arith);
    assert(c * dh < 10 * nh) by (nonlinear_arith)
        requires
            (c * dh) * dl < 10 * (nh * dl),
            dl > 0,
    ;
}

/// Where `e` is a grid order, it is the one `grid_order` names.
pub proof fn lemma_grid_order_is(e: int, span: int, base: int, tenths: int)
    requires
        is_grid_order(e, span, base, tenths),
    ensures
        grid_order(span, base, tenths) == Some(e),
{
    let c = choose|c: int| is_grid_order(c, span, base, tenths);
    lemma_grid_order_unique(e, c, span, base, tenths);
}

/// Comparing with a quotient is comparing the product with the dividend.
proof fn lemma_quotient_bounds(x: int, n: int, d: int)
    requires
        0 <= x,
        0 <= n,
        0 < d,
    ensures
        x <= n / d <==> x * d <= n,
{
    lemma_fundamental_div_mod(n, d);
    let q: int = n / d;
    let r: int = n % d;
    assert(x <= q <==> x * d <= d * q + r) by (nonlinear_arith)
        requires
            0 <= r < d,
            0 <= x,
    ;
}

/// Picks the grid step for an axis: the power of `base` with
/// `step <= candidate < step * base`, where the candidate is the axis's
/// fraction of `span`. Every span above zero has one. A step below one
/// unit is returned as the unit over a power of `base`. There is none
/// where the span is zero or `base` is below two.
pub fn grid_step(span: u64, base: u32, axis: Axis) -> (r: Option<GridStep>)
    ensures
        r is Some <==> span > 0 && base >= 2,
        r matches Some(s) ==> {
            &&& is_grid_order(s.order as int, span as int, base as int, section_tenths(axis))
            &&& s.numerator == step_numerator(base as int, s.order as int)
            &&& s.denominator == step_denominator(base as int, s.order as int)
            &&& 0 < s.numerator
            &&& 0 < s.denominator <= MAX_DENOMINATOR
            &&& span * s.denominator <= u64::MAX
        },
        grid_order(span as int, base as int, section_tenths(axis)) == match r {
            Some(s) => Some(s.order as int),
            None => None,
        },
{
    let tenths: u128 = match axis {
        Axis::X => 3,
        Axis::Y => 4,
    };
    let ghost t = section_tenths(axis);
    if base < 2 || span == 0 {
        proof {
            assert forall|e: int| !is_grid_order(e, span as int, base as int, t) by {
                if base >= 2 {
                    lemma_step_positive(base as int, e);
                    assert((t * 0) * step_denominator(base as int, e) == 0) by (nonlinear_arith);
                }
            }
        }
        return None;
    }
    let candidate: u128 = tenths * (span as u128);
    let limit: u128 = candidate / 10;
    let b: u128 = base as u128;
    proof {
        lemma_pow0(base as int);
    }
    if SCALE as u128 <= limit {
        let mut size: u128 = SCALE as u128;
        let mut order: i64 = 0;
        while size <= limit / b
            invariant
                b == base,
                b >= 2,
                limit == candidate / 10,
                candidate == t * span,
                t == section_tenths(axis),
                0 <= order,
                1000 * (order + 1) <= size <= limit,
                size == 1000 * pow(base as int, order as nat),
            decreases limit - size,
        {
            proof {
                lemma_quotient_bounds(size as int, limit as int, b as int);
                let p = pow(base as int, order as nat);
                assert(pow(base as int, (order + 1) as nat) == base * p) by {
                    reveal(pow);
                }
                assert((1000 * p) * base == 1000 * (base * p)) by (nonlinear_arith);
                assert(size * b >= 2 * size) by (nonlinear_arith)
                    requires
                        b >= 2,
                        size >= 0,
                ;
            }
            size = size * b;
            order = order + 1;
        }
        let step = GridStep { order, numerator: size as u64, denominator: 1 };
        proof {
            lemma_quotient_bounds(size as int, limit as int, b as int);
            assert((t * span) * 1 == t * span) by (nonlinear_arith);
            lemma_grid_order_is(order as int, span as int, base as int, t);
        }
        Some(step)
    } else {
        let mut den: u128 = 1;
        let mut order: i64 = 0;
        let mut product: u128 = candidate;
        loop
            invariant
                b == base,
                b >= 2,
                candidate == t * span,
                t == section_tenths(axis),
                0 < candidate,
                order <= 0,
                1 - order <= den,
                product == candidate * den,
                product < 10 * SCALE,
                den <= product,
                den == pow(base as int, (-order) as nat),
            decreases 10 * SCALE - product,
        {
            proof {
                let p = pow(base as int, (-order) as nat);
                assert(pow(base as int, (-order + 1) as nat) == base * p) by {
                    reveal(pow);
                }
                assert(candidate * (den * b) == (candidate * den) * b) by (nonlinear_arith);
                assert(product * b >= 2 * product && den * b >= 2 * den && den * b <= product * b)
                    by (nonlinear_arith)
                    requires
                        b >= 2,
                        0 <= den <= product,
                ;
                assert(product * b < 10 * 1000 * 0x1_0000_0000) by (nonlinear_arith)
                    requires
                        product < 10 * 1000,
                        b < 0x1_0000_0000,
                ;
            }
            let ghost before = product;
            den = den * b;
            product = product * b;
            order = order - 1;
            if product >= 10 * SCALE as u128 {
                let step = GridStep { order, numerator: SCALE, denominator: den as u64 };
                proof {
                    assert(product < 10 * (1000 * base)) by (nonlinear_arith)
                        requires
                            product == before * b,
                            before < 10 * 1000,
                            b == base,
                            b >= 2,
                    ;
                    assert((t * span) * den == candidate * den);
                    lemma_grid_order_is(order as int, span as int, base as int, t);
                    assert(span * den <= product) by (nonlinear_arith)
                        requires
                            product == (t * span) * den,
                            t >= 1,
                            span >= 0,
                            den >= 0,
                    ;
                }
                return Some(step);
            }
        }
    }
}

/// How many grid values lie on an axis: the values `min + step`,
/// `min + 2 * step`, ... that are at most `max - step / 4`, for the step
/// `numerator / denominator`.
pub open spec fn tick_count(min: int, max: int, numerator: int, denominator: int) -> nat {
    let room = 4 * ((max - min) * denominator) - numerator;
    if numerator <= 0 || denominator <= 0 || room < 4 * numerator {
        0
    } else {
        (room / (4 * numerator)) as nat
    }
}

/// The `k`-th grid value of an axis, counted from zero, times the
/// denominator of the step: the value is `min + (k + 1) * step`.
pub open spec fn tick_numerator(min: int, numerator: int, denominator: int, k: int) -> int {
    min * denominator + (k + 1) * numerator
}

/// Whether a line is due at `max` itself: the last value drawn (or `min`,
/// where none was) lies more than a tenth of a step away from it.
pub open spec fn boundary_due(min: int, max: int, numerator: int, denominator: int) -> bool {
    let last = min * denominator + tick_count(min, max, numerator, denominator) * numerator;
    10 * distance(last, max * denominator) > numerator
}

/// The grid values of one axis: `count` values `min + step`,
/// `min + 2 * step`, ..., in ascending order.
#[derive(Clone, Copy, Debug, PartialEq, Eq, Structural)]
pub struct Ticks {
    /// How many values lie between the bounds.
    pub count: u128,
    /// Whether a further line is due at the upper bound.
    pub boundary: bool,
}

/// The last grid value is within the bound and the one after it is not.
pub proof fn lemma_tick_count_bounds(min: int, max: int, numerator: int, denominator: int)
    requires
        numerator > 0,
        denominator > 0,
    ensures
        tick_count(min, max, numerator, denominator) > 0 ==> 4 * (min * denominator + tick_count(
            min,
            max,
            numerator,
            denominator,
        ) * numerator) <= 4 * (max * denominator) - numerator,
        4 * (min * denominator + (tick_count(min, max, numerator, denominator) + 1) * numerator)
            > 4 * (max * denominator) - numerator,
{
    let n: int = tick_count(min, max, numerator, denominator) as int;
    let room: int = 4 * ((max - min) * denominator) - numerator;
    let d: int = 4 * numerator;
    assert((max - min) * denominator == max * denominator - min * denominator)
        by (nonlinear_arith);
    if room < 4 * numerator {
        assert((0 + 1) * numerator == numerator) by (nonlinear_arith);
    } else {
        lemma_fundamental_div_mod(room, d);
        let r: int = room % d;
        assert(n == room / d);
        assert(4 * (n * numerator) <= room && room < 4 * ((n + 1) * numerator))
            by (nonlinear_arith)
            requires
                room == d * n + r,
                0 <= r < d,
                d == 4 * numerator,
        ;
    }
}

/// Every grid value lies strictly between the bounds of its axis, so the
/// bounds are in order wherever there is one, and the value is less than
/// a span above the lower bound.
pub proof fn lemma_ticks_within_span(
    min: int,
    max: int,
    numerator: int,
    denominator: int,
    k: int,
)
    requires
        numerator > 0,
        denominator > 0,
        0 <= k < tick_count(min, max, numerator, denominator),
    ensures
        min < max,
        0 < (k + 1) * numerator < (max - min) * denominator,
        min * denominator < tick_numerator(min, numerator, denominator, k) < max * denominator,
        4 * tick_numerator(min, numerator, denominator, k) <= 4 * (max * denominator)
            - numerator,
{
    let n: int = tick_count(min, max, numerator, denominator) as int;
    lemma_tick_count_bounds(min, max, numerator, denominator);
    assert(0 < (k + 1) * numerator <= n * numerator) by (nonlinear_arith)
        requires
            0 <= k,
            k + 1 <= n,
            numerator > 0,
    ;
    assert((max - min) * denominator == max * denominator - min * denominator)
        by (nonlinear_arith);
    assert(min < max) by (nonlinear_arith)
        requires
            (max - min) * denominator > 0,
            denominator > 0,
    ;
}

/// Lays out the grid values of one axis for the step
/// `numerator / denominator`. Values start at `min + step` and advance by
/// `step` while they are at most `max - step / 4`; the comparison is made
/// on whole numbers, so no rounding enters. A step of zero, or one without
/// a denominator, gives no value.
pub fn axis_ticks(min: i64, max: i64, step: GridStep) -> (t: Ticks)
    requires
        step.denominator <= MAX_DENOMINATOR,
    ensures
        t.count == tick_count(
            min as int,
            max as int,
            step.numerator as int,
            step.denominator as int,
        ),
        t.count > 0 ==> 4 * tick_numerator(
            min as int,
            step.numerator as int,
            step.denominator as int,
            t.count - 1,
        ) <= 4 * (max * step.denominator) - step.numerator,
        step.numerator > 0 && step.denominator > 0 ==> 4 * tick_numerator(
            min as int,
            step.numerator as int,
            step.denominator as int,
            t.count as int,
        ) > 4 * (max * step.denominator) - step.numerator,
        t.boundary == boundary_due(
            min as int,
            max as int,
            step.numerator as int,
            step.denominator as int,
        ),
{
    if step.numerator == 0 || step.denominator == 0 {
        proof {
            let n = step.numerator as int;
            let d = step.denominator as int;
            assert(0 * n == 0) by (nonlinear_arith);
            if d == 0 {
                assert(min * d == 0 && max * d == 0) by (nonlinear_arith)
                    requires
                        d == 0,
                ;
            } else {
                assert((min * d == max * d) <==> min == max) by (nonlinear_arith)
                    requires
                        d > 0,
                ;
            }
        }
        return Ticks { count: 0, boundary: step.denominator != 0 && min != max };
    }
    let num: i128 = step.numerator as i128;
    let den: i128 = step.denominator as i128;
    proof {
        lemma_tick_count_bounds(min as int, max as int, num as int, den as int);
        assert(-0x8000_0000_0000_0000 * 42_949_672_960_000 <= min * den <= 0x8000_0000_0000_0000
            * 42_949_672_960_000 && -0x8000_0000_0000_0000 * 42_949_672_960_000 <= max * den
            <= 0x8000_0000_0000_0000 * 42_949_672_960_000) by (nonlinear_arith)
            requires
                -0x8000_0000_0000_0000 <= min <= 0x7fff_ffff_ffff_ffff,
                -0x8000_0000_0000_0000 <= max <= 0x7fff_ffff_ffff_ffff,
                0 < den <= 42_949_672_960_000,
        ;
        assert((max - min) * den == max * den - min * den) by (nonlinear_arith);
    }
    let low: i128 = (min as i128) * den;
    let high: i128 = (max as i128) * den;
    let room: i128 = 4 * (high - low) - num;
    let count: i128 = if room < 4 * num {
        0
    } else {
        room / (4 * num)
    };
    proof {
        if room >= 4 * num {
            lemma_fundamental_div_mod(room as int, 4 * num);
            assert(0 <= count && count * num <= room) by (nonlinear_arith)
                requires
                    room == (4 * num) * count + (room as int % (4 * num)),
                    0 <= room as int % (4 * num),
                    room >= 0,
                    num > 0,
            ;
        } else {
            assert(0 * num == 0) by (nonlinear_arith);
        }
    }
    let last: i128 = low + count * num;
    let gap: i128 = last - high;
    let away: i128 = if gap < 0 {
        -gap
    } else {
        gap
    };
    let boundary = 10 * away > num;
    Ticks { count: count as u128, boundary }
}

} // verus!
