//! The fixed partition of the surface and the map from data to device
//! space.
//!
//! Every region is a fraction of the surface, whatever the texts measure:
//! the plot area spans 10% to 90% of the width and 20% to 80% of the
//! height; the title, the axis labels and the tick labels have anchors at
//! fixed fractions around it.

use vstd::prelude::*;
use crate::extent::Extents;
use crate::grid::Axis;
use crate::point::Point;
use crate::units::{abs_diff, distance, is_device_length, scale_value, scaled};

verus! {

/// Left edge of the plot area, in thousandths of the width.
pub const PLOT_LEFT: i128 = 100;

/// Right edge of the plot area, in thousandths of the width.
pub const PLOT_RIGHT: i128 = 900;

/// Top edge of the plot area, in thousandths of the height.
pub const PLOT_TOP: i128 = 200;

/// Bottom edge of the plot area, in thousandths of the height.
pub const PLOT_BOTTOM: i128 = 800;

/// Half the height, in thousandths of the height.
pub const PLOT_MIDDLE: i128 = 500;

/// Anchor of the title.
pub const TITLE_X: i128 = 500;

pub const TITLE_Y: i128 = 100;

/// Anchor of the x-axis label.
pub const X_LABEL_X: i128 = 500;

pub const X_LABEL_Y: i128 = 925;

/// Anchor of the y-axis label.
pub const Y_LABEL_X: i128 = 35;

pub const Y_LABEL_Y: i128 = 500;

/// Baseline of the tick labels under the x axis.
pub const X_TICK_LABEL_Y: i128 = 840;

/// Right end of the tick labels beside the y axis.
pub const Y_TICK_LABEL_X: i128 = 91;

/// Font sizes, in pixels on a surface of the reference width.
pub const TITLE_FONT: i128 = 15;

pub const LABEL_FONT: i128 = 11;

pub const TICK_FONT: i128 = 8;

/// The width at which the fonts have their nominal size.
pub const FONT_REFERENCE_WIDTH: i128 = 650;

/// Stroke widths.
pub const AXIS_WIDTH: i64 = 1000;

pub const GRID_WIDTH: i64 = 1000;

pub const LINE_WIDTH: i64 = 2000;

pub const DOT_WIDTH: i64 = 3000;

/// Where the data origin `(0, 0)` lies on the surface.
#[derive(Clone, Copy, Debug, PartialEq, Eq, Structural)]
pub enum Origin {
    /// At the bottom-left corner of the plot area.
    BottomLeft,
    /// On the left edge of the plot area, at half the surface's height.
    MiddleLeft,
}

/// A fraction of an extent of the surface, in device units: `thousandths`
/// thousandths of `extent` pixels.
pub open spec fn fraction(extent: int, thousandths: int) -> int {
    extent * thousandths
}

/// The font size on a surface of the given width: `points` pixels at the
/// reference width, in proportion elsewhere, rounded down to a device
/// unit.
pub open spec fn font_size(width: int, points: int) -> int {
    (points * 1000 * width) / (FONT_REFERENCE_WIDTH as int)
}

/// Length of the plot area along an axis: eight tenths of the width for
/// the x axis, six tenths of the height for the y axis.
pub open spec fn plot_length(axis: Axis, width: int, height: int) -> int {
    match axis {
        Axis::X => fraction(width, PLOT_RIGHT - PLOT_LEFT),
        Axis::Y => fraction(height, PLOT_BOTTOM - PLOT_TOP),
    }
}

/// How far along the plot area the `k`-th grid value lies, counted from
/// zero: the value is `k + 1` steps of `numerator / denominator` above the
/// lower bound of an axis that spans `span`.
pub open spec fn tick_offset(
    k: int,
    numerator: int,
    denominator: int,
    span: int,
    length: int,
) -> int {
    scaled((k + 1) * numerator, length, span * denominator)
}

/// How far along the plot area the upper bound of an axis lies: the whole
/// length, but for an axis of no span.
pub open spec fn bound_offset(span: int, length: int) -> int {
    scaled(span, length, span)
}

/// Device x coordinate of a vertical grid line that lies `offset` along
/// the plot area.
pub open spec fn grid_x(offset: int, width: int) -> int {
    fraction(width, PLOT_LEFT as int) + offset
}

/// Device y coordinate of a horizontal grid line that lies `offset` along
/// the plot area; the axis runs upward.
pub open spec fn grid_y(offset: int, height: int) -> int {
    fraction(height, PLOT_BOTTOM as int) - offset
}

/// Device y coordinate of the data origin.
pub open spec fn origin_y(origin: Origin, height: int) -> int {
    match origin {
        Origin::BottomLeft => fraction(height, PLOT_BOTTOM as int),
        Origin::MiddleLeft => fraction(height, PLOT_MIDDLE as int),
    }
}

/// Device x coordinate of a data x coordinate: the origin plus the
/// coordinate scaled by plot width over span.
pub open spec fn device_x(x: int, extents: Extents, width: int) -> int {
    fraction(width, PLOT_LEFT as int) + scaled(
        x,
        fraction(width, PLOT_RIGHT - PLOT_LEFT),
        distance(extents.x_min as int, extents.x_max as int),
    )
}

/// Device y coordinate of a data y coordinate: the origin minus the
/// coordinate scaled by plot height over span, since device y grows
/// downward.
pub open spec fn device_y(y: int, extents: Extents, origin: Origin, height: int) -> int {
    origin_y(origin, height) - scaled(
        y,
        fraction(height, PLOT_BOTTOM - PLOT_TOP),
        distance(extents.y_min as int, extents.y_max as int),
    )
}

/// Computes a fraction of an extent of the surface.
pub(crate) fn place(extent: i32, thousandths: i128) -> (r: i128)
    requires
        extent > 0,
        0 <= thousandths <= 1000,
    ensures
        r == fraction(extent as int, thousandths as int),
        is_device_length(r as int),
{
    assert(0 <= extent * thousandths <= 1000 * 0x7fff_ffff) by (nonlinear_arith)
        requires
            0 < extent <= 0x7fff_ffff,
            0 <= thousandths <= 1000,
    ;
    (extent as i128) * thousandths
}

/// Computes a font size for a surface width.
pub(crate) fn font_size_for(width: i32, points: i128) -> (r: i64)
    requires
        width > 0,
        0 <= points <= 1000,
    ensures
        r == font_size(width as int, points as int),
{
    assert(0 <= points * 1000 * width <= 1000 * 1000 * 0x7fff_ffff) by (nonlinear_arith)
        requires
            0 < width <= 0x7fff_ffff,
            0 <= points <= 1000,
    ;
    let n: i128 = points * 1000 * (width as i128);
    (n / FONT_REFERENCE_WIDTH) as i64
}

/// Maps a data point to device space. The origin lies on the left edge of
/// the plot area; x is scaled by plot width over the x span, y by plot
/// height over the y span and turned upward. An axis of zero span has a
/// zero scale: every point falls onto the origin's coordinate.
pub fn to_device(p: Point, extents: &Extents, origin: Origin, width: i32, height: i32) -> (r: (
    i128,
    i128,
))
    requires
        width > 0,
        height > 0,
    ensures
        r.0 == device_x(p.x as int, *extents, width as int),
        r.1 == device_y(p.y as int, *extents, origin, height as int),
{
    let span_x = abs_diff(extents.x_min, extents.x_max);
    let span_y = abs_diff(extents.y_min, extents.y_max);
    let left = place(width, PLOT_LEFT);
    let base = match origin {
        Origin::BottomLeft => place(height, PLOT_BOTTOM),
        Origin::MiddleLeft => place(height, PLOT_MIDDLE),
    };
    let plot_width = place(width, PLOT_RIGHT - PLOT_LEFT);
    let plot_height = place(height, PLOT_BOTTOM - PLOT_TOP);
    let dx = scale_value(p.x, plot_width, span_x);
    let dy = scale_value(p.y, plot_height, span_y);
    (left + dx, base - dy)
}

} // verus!
