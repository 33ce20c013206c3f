//! What holds of the library as a whole, proved from the contracts of its
//! functions.

use vstd::prelude::*;
use vstd::arithmetic::power::pow;
use crate::color::{Palette, Theme};
use crate::command::DrawOp;
use crate::extent::{data_extents, inferred_extents, is_maximum, is_minimum, xs, ys};
use crate::grid::{
    boundary_due,
    grid_order,
    is_grid_order,
    lemma_grid_order_unique,
    lemma_step_positive,
    lemma_tick_count_bounds,
    lemma_ticks_within_span,
    section_tenths,
    step_denominator,
    step_numerator,
    tick_count,
    tick_numerator,
    Axis,
};
use crate::layout::{bound_offset, tick_offset};
use crate::model::{Bound, PlotModel};
use crate::point::{PlotType, Point};
use crate::render::{bound_ops, frame, grid_ops, resolved_extents, ticks_ops};
use crate::units::{distance, scaled, SCALE};

verus! {

/// The inferred extents of a non-empty series are its true extremes: on
/// each axis the lower bound is the least coordinate that occurs and the
/// upper bound the greatest.
pub proof fn lemma_inferred_extents_are_extremes(points: Seq<Point>)
    requires
        points.len() > 0,
    ensures
        inferred_extents(points) == Some(data_extents(points)),
        is_minimum(xs(points), data_extents(points).x_min as int),
        is_maximum(xs(points), data_extents(points).x_max as int),
        is_minimum(ys(points), data_extents(points).y_min as int),
        is_maximum(ys(points), data_extents(points).y_max as int),
        forall|i: int|
            0 <= i < points.len() ==> {
                &&& data_extents(points).x_min <= (#[trigger] points[i]).x <= data_extents(
                    points,
                ).x_max
                &&& data_extents(points).y_min <= points[i].y <= data_extents(points).y_max
            },
{
    let sx = xs(points);
    let sy = ys(points);
    sx.max_ensures();
    sx.min_ensures();
    sy.max_ensures();
    sy.min_ensures();
    let ix_max = choose|i: int| 0 <= i < sx.len() && sx[i] == sx.max();
    let ix_min = choose|i: int| 0 <= i < sx.len() && sx[i] == sx.min();
    let iy_max = choose|i: int| 0 <= i < sy.len() && sy[i] == sy.max();
    let iy_min = choose|i: int| 0 <= i < sy.len() && sy[i] == sy.min();
    assert(sx[ix_max] == points[ix_max].x && sx[ix_min] == points[ix_min].x);
    assert(sy[iy_max] == points[iy_max].y && sy[iy_min] == points[iy_min].y);
    assert forall|i: int| 0 <= i < points.len() implies {
        &&& data_extents(points).x_min <= (#[trigger] points[i]).x <= data_extents(points).x_max
        &&& data_extents(points).y_min <= points[i].y <= data_extents(points).y_max
    } by {
        assert(sx[i] == points[i].x && sy[i] == points[i].y);
    }
}

/// Whether two charts have the same pinned bounds.
pub open spec fn same_pins(a: PlotModel, b: PlotModel) -> bool {
    a.x_min == b.x_min && a.x_max == b.x_max && a.y_min == b.y_min && a.y_max == b.y_max
}

/// A pinned bound overrides inference. Once a bound of the x axis is set to
/// a value, every later state of the chart in which the pins are still the
/// same is drawn with that value, whatever series it holds.
pub proof fn lemma_pinned_x_bound_overrides(m: PlotModel, end: Bound, value: i64, later: PlotModel)
    requires
        same_pins(m.with_x_bound(end, Some(value)), later),
    ensures
        end == Bound::Min ==> resolved_extents(later).x_min == value,
        end == Bound::Max ==> resolved_extents(later).x_max == value,
{
}

/// A pinned bound overrides inference. Once a bound of the y axis is set to
/// a value, every later state of the chart in which the pins are still the
/// same is drawn with that value, whatever series it holds.
pub proof fn lemma_pinned_y_bound_overrides(m: PlotModel, end: Bound, value: i64, later: PlotModel)
    requires
        same_pins(m.with_y_bound(end, Some(value)), later),
    ensures
        end == Bound::Min ==> resolved_extents(later).y_min == value,
        end == Bound::Max ==> resolved_extents(later).y_max == value,
{
}

/// No mutator but the two that set a bound touches a pin: it survives
/// every change of texts, plot type and series.
pub proof fn lemma_pins_survive_other_changes(
    m: PlotModel,
    text: Seq<char>,
    typ: PlotType,
    points: Seq<Point>,
    point: Point,
)
    ensures
        same_pins(m, m.with_title(text)),
        same_pins(m, m.with_x_label(text)),
        same_pins(m, m.with_y_label(text)),
        same_pins(m, m.with_font_name(text)),
        same_pins(m, m.with_type(typ)),
        same_pins(m, m.with_points(points)),
        same_pins(m, m.with_point(point)),
{
}

/// A released bound is inferred again: it is the extreme of the series,
/// or the configured fallback where the series is empty.
pub proof fn lemma_released_bound_is_inferred(m: PlotModel, end: Bound)
    ensures
        m.points.len() > 0 && end == Bound::Min ==> {
            &&& resolved_extents(m.with_x_bound(end, None)).x_min == data_extents(m.points).x_min
            &&& resolved_extents(m.with_y_bound(end, None)).y_min == data_extents(m.points).y_min
        },
        m.points.len() > 0 && end == Bound::Max ==> {
            &&& resolved_extents(m.with_x_bound(end, None)).x_max == data_extents(m.points).x_max
            &&& resolved_extents(m.with_y_bound(end, None)).y_max == data_extents(m.points).y_max
        },
        m.points.len() == 0 && end == Bound::Min ==> {
            &&& resolved_extents(m.with_x_bound(end, None)).x_min == m.config.fallback.x_min
            &&& resolved_extents(m.with_y_bound(end, None)).y_min == m.config.fallback.y_min
        },
        m.points.len() == 0 && end == Bound::Max ==> {
            &&& resolved_extents(m.with_x_bound(end, None)).x_max == m.config.fallback.x_max
            &&& resolved_extents(m.with_y_bound(end, None)).y_max == m.config.fallback.y_max
        },
{
}

/// Appending a point is replacing the series by the old one with the point
/// at its end: both leave the same chart, and so the same frame.
pub proof fn lemma_append_is_replace(
    m: PlotModel,
    point: Point,
    width: int,
    height: int,
    theme: Theme,
)
    ensures
        m.with_point(point) == m.with_points(m.points.push(point)),
        frame(m.with_point(point), width, height, theme) == frame(
            m.with_points(m.points.push(point)),
            width,
            height,
            theme,
        ),
{
}

/// A grid step is a power of its base with an integer exponent: for an
/// order that is not negative, the unit times `base^order`; for a negative
/// one, the unit over `base^(-order)`. It is the power that brackets the
/// candidate, the axis's fraction of the span: the step is at most the
/// candidate and `base` times the step is above it. No other order does.
pub proof fn lemma_grid_step_is_power(span: int, base: int, axis: Axis, order: int)
    requires
        grid_order(span, base, section_tenths(axis)) == Some(order),
    ensures
        base >= 2,
        span > 0,
        step_numerator(base, order) > 0,
        step_denominator(base, order) > 0,
        order >= 0 ==> step_numerator(base, order) == SCALE * pow(base, order as nat)
            && step_denominator(base, order) == 1,
        order < 0 ==> step_numerator(base, order) == SCALE && step_denominator(base, order)
            == pow(base, (-order) as nat),
        10 * step_numerator(base, order) <= (section_tenths(axis) * span) * step_denominator(
            base,
            order,
        ),
        (section_tenths(axis) * span) * step_denominator(base, order) < 10 * (step_numerator(
            base,
            order,
        ) * base),
        forall|other: int|
            is_grid_order(other, span, base, section_tenths(axis)) ==> other == order,
{
    let t = section_tenths(axis);
    assert(is_grid_order(order, span, base, t));
    lemma_step_positive(base, order);
    if span <= 0 {
        assert((t * span) * step_denominator(base, order) <= 0) by (nonlinear_arith)
            requires
                t > 0,
                span <= 0,
                step_denominator(base, order) > 0,
        ;
    }
    assert forall|other: int| is_grid_order(other, span, base, t) implies other == order by {
        lemma_grid_order_unique(other, order, span, base, t);
    }
}

/// Every span above zero has a grid step, for every base of at least two,
/// however short it is.
pub proof fn lemma_every_span_has_a_grid_step(span: int, base: int, axis: Axis)
    requires
        span > 0,
        base >= 2,
    ensures
        grid_order(span, base, section_tenths(axis)) is Some,
{
    let t = section_tenths(axis);
    let c = t * span;
    vstd::arithmetic::power::lemma_pow0(base);
    let e = if 10 * SCALE <= c {
        lemma_order_above(c, base, 0)
    } else {
        -lemma_order_below(c, base, 0)
    };
    assert(is_grid_order(e, span, base, t));
}

/// Searches upward for the order of a candidate of at least one whole.
proof fn lemma_order_above(c: int, base: int, e: nat) -> (order: int)
    requires
        base >= 2,
        10 * (SCALE * pow(base, e)) <= c,
    ensures
        order >= 0,
        10 * step_numerator(base, order) <= c * step_denominator(base, order),
        c * step_denominator(base, order) < 10 * (step_numerator(base, order) * base),
    decreases c - 10 * (SCALE * pow(base, e)),
{
    let p = pow(base, e);
    vstd::arithmetic::power::lemma_pow_positive(base, e);
    assert(pow(base, e + 1) == base * p) by {
        reveal(pow);
    }
    assert(SCALE * (base * p) == (SCALE * p) * base && SCALE * (base * p) >= 2 * (SCALE * p)
        && SCALE * p > 0) by (nonlinear_arith)
        requires
            base >= 2,
            p > 0,
            SCALE == 1000,
    ;
    assert(c * 1 == c) by (nonlinear_arith);
    if c < 10 * (SCALE * pow(base, e + 1)) {
        e as int
    } else {
        lemma_order_above(c, base, e + 1)
    }
}

/// Searches downward for the order of a candidate below one whole; the
/// result is the order's negation.
proof fn lemma_order_below(c: int, base: int, j: nat) -> (down: int)
    requires
        base >= 2,
        0 < c,
        c * pow(base, j) < 10 * SCALE,
    ensures
        down > 0,
        10 * step_numerator(base, -down) <= c * step_denominator(base, -down),
        c * step_denominator(base, -down) < 10 * (step_numerator(base, -down) * base),
    decreases 10 * SCALE - c * pow(base, j),
{
    let p = pow(base, j);
    vstd::arithmetic::power::lemma_pow_positive(base, j);
    assert(pow(base, j + 1) == base * p) by {
        reveal(pow);
    }
    assert(c * (base * p) == (c * p) * base && c * (base * p) >= 2 * (c * p) && c * p > 0
        && (c * p) * base < 10 * (SCALE * base)) by (nonlinear_arith)
        requires
            base >= 2,
            p > 0,
            c > 0,
            c * p < 10 * SCALE,
    ;
    if 10 * SCALE <= c * pow(base, j + 1) {
        (j + 1) as int
    } else {
        lemma_order_below(c, base, j + 1)
    }
}

/// The grid values of an axis start at `min + step` and advance by
/// `step`; each lies strictly between the bounds, none lies beyond
/// `max - step / 4`, and the next one would. The values are stated times
/// the step's denominator.
pub proof fn lemma_ticks_stay_below_bound(min: int, max: int, numerator: int, denominator: int)
    requires
        numerator > 0,
        denominator > 0,
    ensures
        tick_numerator(min, numerator, denominator, 0) == min * denominator + numerator,
        forall|k: int|
            0 <= k < tick_count(min, max, numerator, denominator) ==> {
                &&& min * denominator < #[trigger] tick_numerator(min, numerator, denominator, k)
                    < max * denominator
                &&& 4 * tick_numerator(min, numerator, denominator, k) <= 4 * (max * denominator)
                    - numerator
            },
        4 * tick_numerator(
            min,
            numerator,
            denominator,
            tick_count(min, max, numerator, denominator) as int,
        ) > 4 * (max * denominator) - numerator,
{
    lemma_tick_count_bounds(min, max, numerator, denominator);
    assert((0 + 1) * numerator == numerator) by (nonlinear_arith);
    assert forall|k: int| 0 <= k < tick_count(min, max, numerator, denominator) implies {
        &&& min * denominator < #[trigger] tick_numerator(min, numerator, denominator, k) < max
            * denominator
        &&& 4 * tick_numerator(min, numerator, denominator, k) <= 4 * (max * denominator)
            - numerator
    } by {
        lemma_ticks_within_span(min, max, numerator, denominator, k);
    }
}

/// An axis whose bounds are in order has at least one grid value between
/// them, the first one step above the lower bound.
pub proof fn lemma_grid_has_interior_line(min: int, max: int, base: int, axis: Axis)
    requires
        min < max,
        base >= 2,
    ensures
        grid_order(distance(min, max), base, section_tenths(axis)) matches Some(order)
            && tick_count(min, max, step_numerator(base, order), step_denominator(base, order))
            >= 1,
{
    let span = distance(min, max);
    lemma_every_span_has_a_grid_step(span, base, axis);
    let order = grid_order(span, base, section_tenths(axis)).unwrap();
    lemma_grid_step_is_power(span, base, axis, order);
    let n = step_numerator(base, order);
    let d = step_denominator(base, order);
    let t = section_tenths(axis);
    let room: int = 4 * ((max - min) * d) - n;
    assert(room >= 4 * n) by (nonlinear_arith)
        requires
            10 * n <= (t * span) * d,
            t <= 4,
            span == max - min,
            span > 0,
            d > 0,
            n > 0,
            room == 4 * ((max - min) * d) - n,
    ;
    vstd::arithmetic::div_mod::lemma_fundamental_div_mod(room, 4 * n);
    assert(room / (4 * n) >= 1) by (nonlinear_arith)
        requires
            room == (4 * n) * (room / (4 * n)) + room % (4 * n),
            0 <= room % (4 * n) < 4 * n,
            room >= 4 * n,
            n > 0,
    ;
}

/// Where an axis has a grid at all, it has a line at its upper bound: the
/// last grid value is always more than a tenth of a step away from it.
pub proof fn lemma_grid_ends_at_upper_bound(min: int, max: int, base: int, axis: Axis, order: int)
    requires
        grid_order(distance(min, max), base, section_tenths(axis)) == Some(order),
    ensures
        boundary_due(min, max, step_numerator(base, order), step_denominator(base, order)),
{
    let span = distance(min, max);
    let n = step_numerator(base, order);
    let d = step_denominator(base, order);
    let t = section_tenths(axis);
    lemma_grid_step_is_power(span, base, axis, order);
    lemma_tick_count_bounds(min, max, n, d);
    let count: int = tick_count(min, max, n, d) as int;
    if count == 0 {
        assert(0 * n == 0) by (nonlinear_arith);
        assert(10 * distance(min * d, max * d) > n) by (nonlinear_arith)
            requires
                10 * n <= (t * span) * d,
                t <= 4,
                span == distance(min, max),
                span > 0,
                d > 0,
                n > 0,
        ;
    }
}

/// A grid is short: the number of grid values times the axis's tenths
/// stays below ten times the base. With decimal steps on the x axis that
/// is at most 33 values.
pub proof fn lemma_grid_is_short(min: int, max: int, base: int, axis: Axis, order: int)
    requires
        grid_order(distance(min, max), base, section_tenths(axis)) == Some(order),
    ensures
        tick_count(min, max, step_numerator(base, order), step_denominator(base, order))
            * section_tenths(axis) < 10 * base,
{
    let span = distance(min, max);
    let n = step_numerator(base, order);
    let d = step_denominator(base, order);
    let t = section_tenths(axis);
    lemma_grid_step_is_power(span, base, axis, order);
    let count: int = tick_count(min, max, n, d) as int;
    if count > 0 {
        lemma_ticks_within_span(min, max, n, d, count - 1);
        assert(count * t < 10 * base) by (nonlinear_arith)
            requires
                (count - 1 + 1) * n < (max - min) * d,
                span == max - min,
                (t * span) * d < 10 * (n * base),
                n > 0,
                t > 0,
                count > 0,
        ;
    }
}

/// The grid of an axis that has a span: for every base of at least two
/// it consists of the lines at the grid values, of which there is at least
/// one where the bounds are in order, and of the line at the upper bound.
pub proof fn lemma_grid_of_an_axis(
    axis: Axis,
    min: int,
    max: int,
    base: int,
    width: int,
    height: int,
    palette: Palette,
)
    requires
        min != max,
        base >= 2,
    ensures
        grid_order(distance(min, max), base, section_tenths(axis)) matches Some(order) && {
            let n = step_numerator(base, order);
            let d = step_denominator(base, order);
            let count = tick_count(min, max, n, d);
            &&& grid_ops(axis, min, max, base, width, height, palette) == ticks_ops(
                axis,
                count,
                min,
                distance(min, max),
                n,
                d,
                width,
                height,
                palette,
            ) + bound_ops(axis, max, distance(min, max), width, height, palette)
            &&& min < max ==> count >= 1
        },
{
    let span = distance(min, max);
    lemma_every_span_has_a_grid_step(span, base, axis);
    let order = grid_order(span, base, section_tenths(axis)).unwrap();
    lemma_grid_ends_at_upper_bound(min, max, base, axis, order);
    if min < max {
        lemma_grid_has_interior_line(min, max, base, axis);
    }
}

/// Every grid line lies in the plot area: a grid value lies between the
/// edges of the plot area, and the upper bound of an axis that has a span
/// on its far edge.
pub proof fn lemma_grid_lines_lie_in_plot_area(
    min: int,
    max: int,
    numerator: int,
    denominator: int,
    k: int,
    length: int,
)
    requires
        numerator > 0,
        denominator > 0,
        0 <= k < tick_count(min, max, numerator, denominator),
        0 <= length,
    ensures
        0 <= tick_offset(k, numerator, denominator, distance(min, max), length) <= length,
        bound_offset(distance(min, max), length) == length,
{
    let span = distance(min, max);
    lemma_ticks_within_span(min, max, numerator, denominator, k);
    assert(span * denominator > 0) by (nonlinear_arith)
        requires
            span > 0,
            denominator > 0,
    ;
    lemma_scaled_part((k + 1) * numerator, length, span * denominator);
    lemma_scaled_part(span, length, span);
}

/// A part of the span scales to a part of the length, and the whole span
/// to the whole length.
proof fn lemma_scaled_part(part: int, length: int, span: int)
    requires
        0 <= part <= span,
        0 < span,
        0 <= length,
    ensures
        0 <= scaled(part, length, span) <= length,
        part == span ==> scaled(part, length, span) == length,
{
    let n: int = part * length;
    vstd::arithmetic::div_mod::lemma_fundamental_div_mod(n, span);
    let q: int = n / span;
    let r: int = n % span;
    assert(0 <= q <= length && (part == span ==> q == length)) by (nonlinear_arith)
        requires
            n == part * length,
            n == span * q + r,
            0 <= r < span,
            0 <= part <= span,
            0 <= length,
    ;
}

/// A frame is empty exactly where the surface has no area: any other
/// frame starts by selecting the font.
pub proof fn lemma_frame_is_empty_without_area(
    m: PlotModel,
    width: int,
    height: int,
    theme: Theme,
)
    ensures
        frame(m, width, height, theme).len() == 0 <==> width <= 0 || height <= 0,
        width > 0 && height > 0 ==> frame(m, width, height, theme)[0] == (DrawOp::SelectFont {
            name: m.font_name,
        }),
{
}

} // verus!
