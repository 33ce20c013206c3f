//! The renderer: from a chart's state, the size of the surface and the
//! theme to the drawing commands of one frame.

use vstd::prelude::*;
use crate::color::{resolve_palette, resolved_palette, Color, Palette, Theme};
use crate::command::{lemma_ops_add, lemma_ops_push, ops, DrawCommand, DrawOp, TextAnchor};
use crate::extent::{infer_extents, inferred_extents, resolve_bound, resolved_bound, Extents};
use crate::grid::{
    axis_ticks,
    boundary_due,
    grid_order,
    grid_step,
    lemma_ticks_within_span,
    section_tenths,
    step_denominator,
    step_numerator,
    tick_count,
    tick_numerator,
    Axis,
    MAX_DENOMINATOR,
};
use crate::label::{format_ratio, format_tenths, ratio_text, tenths_text};
use crate::layout::{
    device_x,
    device_y,
    font_size,
    font_size_for,
    fraction,
    bound_offset,
    grid_x,
    grid_y,
    place,
    plot_length,
    tick_offset,
    to_device,
    Origin,
    AXIS_WIDTH,
    DOT_WIDTH,
    GRID_WIDTH,
    LABEL_FONT,
    LINE_WIDTH,
    PLOT_BOTTOM,
    PLOT_LEFT,
    PLOT_RIGHT,
    PLOT_TOP,
    TICK_FONT,
    TITLE_FONT,
    TITLE_X,
    TITLE_Y,
    X_LABEL_X,
    X_LABEL_Y,
    X_TICK_LABEL_Y,
    Y_LABEL_X,
    Y_LABEL_Y,
    Y_TICK_LABEL_X,
};
use crate::model::{PlotModel, PlotView, PlotViewImpl};
use crate::point::{PlotType, Point};
use crate::units::{abs_diff, device_reach, distance, is_device_length, scale_distance};

verus! {

/// One caption: a text at its anchor, or nothing where the text is empty.
pub open spec fn caption_ops(
    text: Seq<char>,
    x: int,
    y: int,
    size: int,
    anchor: TextAnchor,
    color: Color,
) -> Seq<DrawOp> {
    if text.len() == 0 {
        Seq::empty()
    } else {
        seq![DrawOp::Text { text, x, y, size, anchor, color }]
    }
}

/// The title above the plot area, the x-axis label below it and the
/// y-axis label to its left, running upward.
pub open spec fn captions_ops(
    title: Seq<char>,
    x_label: Seq<char>,
    y_label: Seq<char>,
    width: int,
    height: int,
    color: Color,
) -> Seq<DrawOp> {
    caption_ops(
        title,
        fraction(width, TITLE_X as int),
        fraction(height, TITLE_Y as int),
        font_size(width, TITLE_FONT as int),
        TextAnchor::CenteredRaised,
        color,
    ) + caption_ops(
        x_label,
        fraction(width, X_LABEL_X as int),
        fraction(height, X_LABEL_Y as int),
        font_size(width, LABEL_FONT as int),
        TextAnchor::Centered,
        color,
    ) + caption_ops(
        y_label,
        fraction(width, Y_LABEL_X as int),
        fraction(height, Y_LABEL_Y as int),
        font_size(width, LABEL_FONT as int),
        TextAnchor::Upward,
        color,
    )
}

/// The x axis along the bottom of the plot area, drawn from right to
/// left, then the y axis along its left edge, drawn upward.
pub open spec fn axes_ops(width: int, height: int, color: Color) -> Seq<DrawOp> {
    seq![
        DrawOp::Segment {
            x0: fraction(width, PLOT_RIGHT as int),
            y0: fraction(height, PLOT_BOTTOM as int),
            x1: fraction(width, PLOT_LEFT as int),
            y1: fraction(height, PLOT_BOTTOM as int),
            width: AXIS_WIDTH as int,
            color,
        },
        DrawOp::Segment {
            x0: fraction(width, PLOT_LEFT as int),
            y0: fraction(height, PLOT_BOTTOM as int),
            x1: fraction(width, PLOT_LEFT as int),
            y1: fraction(height, PLOT_TOP as int),
            width: AXIS_WIDTH as int,
            color,
        },
    ]
}

/// One grid line and its label, `offset` along the plot area. On the x
/// axis the line is vertical and the label centred under it; on the y axis
/// the line is horizontal and the label ends left of it.
pub open spec fn grid_line_ops(
    axis: Axis,
    offset: int,
    label: Seq<char>,
    width: int,
    height: int,
    palette: Palette,
) -> Seq<DrawOp> {
    let size = font_size(width, TICK_FONT as int);
    match axis {
        Axis::X => {
            let x = grid_x(offset, width);
            seq![
                DrawOp::Segment {
                    x0: x,
                    y0: fraction(height, PLOT_TOP as int),
                    x1: x,
                    y1: fraction(height, PLOT_BOTTOM as int),
                    width: GRID_WIDTH as int,
                    color: palette.grid,
                },
                DrawOp::Text {
                    text: label,
                    x,
                    y: fraction(height, X_TICK_LABEL_Y as int),
                    size,
                    anchor: TextAnchor::Centered,
                    color: palette.text,
                },
            ]
        },
        Axis::Y => {
            let y = grid_y(offset, height);
            seq![
                DrawOp::Segment {
                    x0: fraction(width, PLOT_LEFT as int),
                    y0: y,
                    x1: fraction(width, PLOT_RIGHT as int),
                    y1: y,
                    width: GRID_WIDTH as int,
                    color: palette.grid,
                },
                DrawOp::Text {
                    text: label,
                    x: fraction(width, Y_TICK_LABEL_X as int),
                    y,
                    size,
                    anchor: TextAnchor::RightAligned,
                    color: palette.text,
                },
            ]
        },
    }
}

/// The line and label of the `k`-th grid value, counted from zero, for the
/// step `numerator / denominator`. The label is the value rounded to
/// tenths.
pub open spec fn tick_ops(
    axis: Axis,
    k: int,
    min: int,
    span: int,
    numerator: int,
    denominator: int,
    width: int,
    height: int,
    palette: Palette,
) -> Seq<DrawOp> {
    grid_line_ops(
        axis,
        tick_offset(k, numerator, denominator, span, plot_length(axis, width, height)),
        ratio_text(tick_numerator(min, numerator, denominator, k), denominator),
        width,
        height,
        palette,
    )
}

/// The lines and labels of the first `count` grid values, in ascending
/// order.
pub open spec fn ticks_ops(
    axis: Axis,
    count: nat,
    min: int,
    span: int,
    numerator: int,
    denominator: int,
    width: int,
    height: int,
    palette: Palette,
) -> Seq<DrawOp>
    decreases count,
{
    if count == 0 {
        Seq::empty()
    } else {
        ticks_ops(
            axis,
            (count - 1) as nat,
            min,
            span,
            numerator,
            denominator,
            width,
            height,
            palette,
        ) + tick_ops(axis, count - 1, min, span, numerator, denominator, width, height, palette)
    }
}

/// The line and label at the upper bound of an axis.
pub open spec fn bound_ops(
    axis: Axis,
    max: int,
    span: int,
    width: int,
    height: int,
    palette: Palette,
) -> Seq<DrawOp> {
    grid_line_ops(
        axis,
        bound_offset(span, plot_length(axis, width, height)),
        tenths_text(max),
        width,
        height,
        palette,
    )
}

/// The grid of one axis. Where the span has a grid step, a line and a
/// label at every grid value, then a line and a label at `max` itself
/// where that is due. An axis of no span, or a base below two, has none.
pub open spec fn grid_ops(
    axis: Axis,
    min: int,
    max: int,
    base: int,
    width: int,
    height: int,
    palette: Palette,
) -> Seq<DrawOp> {
    let span = distance(min, max);
    match grid_order(span, base, section_tenths(axis)) {
        None => Seq::empty(),
        Some(order) => {
            let n = step_numerator(base, order);
            let d = step_denominator(base, order);
            ticks_ops(axis, tick_count(min, max, n, d), min, span, n, d, width, height, palette)
                + (if boundary_due(min, max, n, d) {
                bound_ops(axis, max, span, width, height, palette)
            } else {
                Seq::empty()
            })
        },
    }
}

/// The segment that joins two consecutive points of a line plot.
pub open spec fn segment_op(
    from: Point,
    to: Point,
    extents: Extents,
    origin: Origin,
    width: int,
    height: int,
    color: Color,
) -> DrawOp {
    DrawOp::Segment {
        x0: device_x(from.x as int, extents, width),
        y0: device_y(from.y as int, extents, origin, height),
        x1: device_x(to.x as int, extents, width),
        y1: device_y(to.y as int, extents, origin, height),
        width: LINE_WIDTH as int,
        color,
    }
}

/// The dot of one point of a scatter plot.
pub open spec fn dot_op(
    p: Point,
    extents: Extents,
    origin: Origin,
    width: int,
    height: int,
    color: Color,
) -> DrawOp {
    DrawOp::Dot {
        x: device_x(p.x as int, extents, width),
        y: device_y(p.y as int, extents, origin, height),
        width: DOT_WIDTH as int,
        color,
    }
}

/// The first `count` segments of a line plot.
pub open spec fn line_ops(
    points: Seq<Point>,
    count: nat,
    extents: Extents,
    origin: Origin,
    width: int,
    height: int,
    color: Color,
) -> Seq<DrawOp> {
    Seq::new(
        count,
        |i: int| segment_op(points[i], points[i + 1], extents, origin, width, height, color),
    )
}

/// The first `count` dots of a scatter plot.
pub open spec fn scatter_ops(
    points: Seq<Point>,
    count: nat,
    extents: Extents,
    origin: Origin,
    width: int,
    height: int,
    color: Color,
) -> Seq<DrawOp> {
    Seq::new(count, |i: int| dot_op(points[i], extents, origin, width, height, color))
}

/// The series. A line plot joins each point to the next, in buffer order:
/// one segment less than there are points. A scatter plot has one dot for
/// every point and nothing between them.
pub open spec fn series_ops(
    points: Seq<Point>,
    typ: PlotType,
    extents: Extents,
    origin: Origin,
    width: int,
    height: int,
    color: Color,
) -> Seq<DrawOp> {
    match typ {
        PlotType::Line => line_ops(
            points,
            if points.len() == 0 {
                0
            } else {
                (points.len() - 1) as nat
            },
            extents,
            origin,
            width,
            height,
            color,
        ),
        PlotType::Scatter => scatter_ops(
            points,
            points.len(),
            extents,
            origin,
            width,
            height,
            color,
        ),
    }
}

/// The extents that a frame is drawn with. Each bound is the pinned value
/// where the chart has one; else the extreme of the series; else, for an
/// empty series, the configured fallback.
pub open spec fn resolved_extents(m: PlotModel) -> Extents {
    let fallback = m.config.fallback;
    match inferred_extents(m.points) {
        Some(d) => Extents {
            x_min: resolved_bound(m.x_min, Some(d.x_min), fallback.x_min),
            x_max: resolved_bound(m.x_max, Some(d.x_max), fallback.x_max),
            y_min: resolved_bound(m.y_min, Some(d.y_min), fallback.y_min),
            y_max: resolved_bound(m.y_max, Some(d.y_max), fallback.y_max),
        },
        None => Extents {
            x_min: resolved_bound(m.x_min, None, fallback.x_min),
            x_max: resolved_bound(m.x_max, None, fallback.x_max),
            y_min: resolved_bound(m.y_min, None, fallback.y_min),
            y_max: resolved_bound(m.y_max, None, fallback.y_max),
        },
    }
}

/// The palette that a frame is drawn in.
pub open spec fn frame_palette(m: PlotModel, theme: Theme) -> Palette {
    resolved_palette(m.axis_color, m.line_color, m.text_color, m.grid_color, theme)
}

/// One frame. A surface without area gets no command at all. Any other
/// gets the font, the captions, the two axes, the grid of the x axis, the
/// grid of the y axis and the series, in this order.
pub open spec fn frame(m: PlotModel, width: int, height: int, theme: Theme) -> Seq<DrawOp> {
    if width <= 0 || height <= 0 {
        Seq::empty()
    } else {
        let e = resolved_extents(m);
        let p = frame_palette(m, theme);
        seq![DrawOp::SelectFont { name: m.font_name }] + captions_ops(
            m.title,
            m.x_label,
            m.y_label,
            width,
            height,
            p.text,
        ) + axes_ops(width, height, p.axis) + grid_ops(
            Axis::X,
            e.x_min as int,
            e.x_max as int,
            m.config.grid_base_x as int,
            width,
            height,
            p,
        ) + grid_ops(
            Axis::Y,
            e.y_min as int,
            e.y_max as int,
            m.config.grid_base_y as int,
            width,
            height,
            p,
        ) + series_ops(m.points, m.typ, e, m.config.origin, width, height, p.line)
    }
}

/// Appends one caption, unless its text is empty.
fn push_caption(
    out: &mut Vec<DrawCommand>,
    text: &str,
    x: i128,
    y: i128,
    size: i64,
    anchor: TextAnchor,
    color: Color,
)
    ensures
        ops(final(out)@) == ops(old(out)@) + caption_ops(
            text@,
            x as int,
            y as int,
            size as int,
            anchor,
            color,
        ),
{
    if text.is_empty() {
        assert(ops(out@) + Seq::<DrawOp>::empty() =~= ops(out@));
    } else {
        let c = DrawCommand::Text { text: text.to_owned(), x, y, size, anchor, color };
        proof {
            lemma_ops_push(out@, c);
            assert(ops(out@).push(c@) =~= ops(out@) + seq![c@]);
        }
        out.push(c);
    }
}

/// The captions of a frame: title, x-axis label and y-axis label, each
/// left out where its text is empty.
pub fn caption_commands(
    title: &str,
    x_label: &str,
    y_label: &str,
    width: i32,
    height: i32,
    color: Color,
) -> (out: Vec<DrawCommand>)
    requires
        width > 0,
        height > 0,
    ensures
        ops(out@) == captions_ops(
            title@,
            x_label@,
            y_label@,
            width as int,
            height as int,
            color,
        ),
{
    let mut out: Vec<DrawCommand> = Vec::new();
    assert(ops(out@) =~= Seq::<DrawOp>::empty());
    push_caption(
        &mut out,
        title,
        place(width, TITLE_X),
        place(height, TITLE_Y),
        font_size_for(width, TITLE_FONT),
        TextAnchor::CenteredRaised,
        color,
    );
    push_caption(
        &mut out,
        x_label,
        place(width, X_LABEL_X),
        place(height, X_LABEL_Y),
        font_size_for(width, LABEL_FONT),
        TextAnchor::Centered,
        color,
    );
    push_caption(
        &mut out,
        y_label,
        place(width, Y_LABEL_X),
        place(height, Y_LABEL_Y),
        font_size_for(width, LABEL_FONT),
        TextAnchor::Upward,
        color,
    );
    assert(ops(out@) =~= captions_ops(
        title@,
        x_label@,
        y_label@,
        width as int,
        height as int,
        color,
    ));
    out
}

/// The two axes of a frame.
pub fn axis_commands(width: i32, height: i32, color: Color) -> (out: Vec<DrawCommand>)
    requires
        width > 0,
        height > 0,
    ensures
        ops(out@) == axes_ops(width as int, height as int, color),
{
    let left = place(width, PLOT_LEFT);
    let right = place(width, PLOT_RIGHT);
    let top = place(height, PLOT_TOP);
    let bottom = place(height, PLOT_BOTTOM);
    let mut out: Vec<DrawCommand> = Vec::new();
    out.push(
        DrawCommand::Segment {
            x0: right,
            y0: bottom,
            x1: left,
            y1: bottom,
            width: AXIS_WIDTH,
            color,
        },
    );
    out.push(
        DrawCommand::Segment {
            x0: left,
            y0: bottom,
            x1: left,
            y1: top,
            width: AXIS_WIDTH,
            color,
        },
    );
    assert(ops(out@) =~= axes_ops(width as int, height as int, color));
    out
}

/// Appends one grid line and its label.
fn push_grid_line(
    out: &mut Vec<DrawCommand>,
    axis: Axis,
    offset: i128,
    text: String,
    width: i32,
    height: i32,
    palette: &Palette,
)
    requires
        width > 0,
        height > 0,
        0 <= offset <= device_reach(),
    ensures
        ops(final(out)@) == ops(old(out)@) + grid_line_ops(
            axis,
            offset as int,
            text@,
            width as int,
            height as int,
            *palette,
        ),
{
    let size = font_size_for(width, TICK_FONT);
    let ghost label = text@;
    let (line, caption) = match axis {
        Axis::X => {
            let x = place(width, PLOT_LEFT) + offset;
            (
                DrawCommand::Segment {
                    x0: x,
                    y0: place(height, PLOT_TOP),
                    x1: x,
                    y1: place(height, PLOT_BOTTOM),
                    width: GRID_WIDTH,
                    color: palette.grid,
                },
                DrawCommand::Text {
                    text,
                    x,
                    y: place(height, X_TICK_LABEL_Y),
                    size,
                    anchor: TextAnchor::Centered,
                    color: palette.text,
                },
            )
        },
        Axis::Y => {
            let y = place(height, PLOT_BOTTOM) - offset;
            (
                DrawCommand::Segment {
                    x0: place(width, PLOT_LEFT),
                    y0: y,
                    x1: place(width, PLOT_RIGHT),
                    y1: y,
                    width: GRID_WIDTH,
                    color: palette.grid,
                },
                DrawCommand::Text {
                    text,
                    x: place(width, Y_TICK_LABEL_X),
                    y,
                    size,
                    anchor: TextAnchor::RightAligned,
                    color: palette.text,
                },
            )
        },
    };
    proof {
        lemma_ops_push(out@, line);
        lemma_ops_push(out@.push(line), caption);
        assert(ops(out@).push(line@).push(caption@) =~= ops(out@) + grid_line_ops(
            axis,
            offset as int,
            label,
            width as int,
            height as int,
            *palette,
        ));
    }
    out.push(line);
    out.push(caption);
}

/// The grid of one axis: lines and labels at the grid values between the
/// bounds, and at the upper bound where that is due.
pub fn grid_commands(
    axis: Axis,
    min: i64,
    max: i64,
    base: u32,
    width: i32,
    height: i32,
    palette: &Palette,
) -> (out: Vec<DrawCommand>)
    requires
        width > 0,
        height > 0,
    ensures
        ops(out@) == grid_ops(
            axis,
            min as int,
            max as int,
            base as int,
            width as int,
            height as int,
            *palette,
        ),
{
    let span = abs_diff(min, max);
    let mut out: Vec<DrawCommand> = Vec::new();
    assert(ops(out@) =~= Seq::<DrawOp>::empty());
    match grid_step(span, base, axis) {
        None => {},
        Some(step) => {
            let ticks = axis_ticks(min, max, step);
            let length = match axis {
                Axis::X => place(width, PLOT_RIGHT - PLOT_LEFT),
                Axis::Y => place(height, PLOT_BOTTOM - PLOT_TOP),
            };
            let num: i128 = step.numerator as i128;
            let den: i128 = step.denominator as i128;
            let whole: u64 = span * step.denominator;
            proof {
                assert(-0x8000_0000_0000_0000 * 42_949_672_960_000 <= min * den
                    <= 0x8000_0000_0000_0000 * 42_949_672_960_000) by (nonlinear_arith)
                    requires
                        -0x8000_0000_0000_0000 <= min <= 0x7fff_ffff_ffff_ffff,
                        0 < den <= 42_949_672_960_000,
                ;
            }
            let low: i128 = (min as i128) * den;
            let mut k: u128 = 0;
            let mut along: i128 = 0;
            assert(0 * num == 0) by (nonlinear_arith);
            while k < ticks.count
                invariant
                    width > 0,
                    height > 0,
                    0 <= k <= ticks.count,
                    ticks.count == tick_count(min as int, max as int, num as int, den as int),
                    num == step.numerator,
                    den == step.denominator,
                    0 < num,
                    0 < den <= MAX_DENOMINATOR,
                    span == distance(min as int, max as int),
                    whole == span * den,
                    low == min * den,
                    along == k * num,
                    length == plot_length(axis, width as int, height as int),
                    is_device_length(length as int),
                    ops(out@) == ticks_ops(
                        axis,
                        k as nat,
                        min as int,
                        span as int,
                        num as int,
                        den as int,
                        width as int,
                        height as int,
                        *palette,
                    ),
                decreases ticks.count - k,
            {
                proof {
                    lemma_ticks_within_span(
                        min as int,
                        max as int,
                        num as int,
                        den as int,
                        k as int,
                    );
                    assert((k + 1) * num == k * num + num) by (nonlinear_arith);
                    assert(max * den <= 0x8000_0000_0000_0000 * 42_949_672_960_000)
                        by (nonlinear_arith)
                        requires
                            max <= 0x7fff_ffff_ffff_ffff,
                            0 < den <= 42_949_672_960_000,
                    ;
                }
                along = along + num;
                let offset = scale_distance(along as u64, length, whole);
                let text = format_ratio(low + along, step.denominator);
                push_grid_line(&mut out, axis, offset, text, width, height, palette);
                k = k + 1;
            }
            if ticks.boundary {
                let offset = scale_distance(span, length, span);
                let text = format_tenths(max);
                push_grid_line(&mut out, axis, offset, text, width, height, palette);
            } else {
                assert(ops(out@) + Seq::<DrawOp>::empty() =~= ops(out@));
            }
        },
    }
    out
}

/// The series: the segments of a line plot or the dots of a scatter plot,
/// in buffer order.
pub fn series_commands(
    points: &Vec<Point>,
    typ: PlotType,
    extents: &Extents,
    origin: Origin,
    width: i32,
    height: i32,
    color: Color,
) -> (out: Vec<DrawCommand>)
    requires
        width > 0,
        height > 0,
    ensures
        ops(out@) == series_ops(
            points@,
            typ,
            *extents,
            origin,
            width as int,
            height as int,
            color,
        ),
{
    let mut out: Vec<DrawCommand> = Vec::new();
    let n = points.len();
    match typ {
        PlotType::Line => {
            if n == 0 {
                assert(ops(out@) =~= series_ops(
                    points@,
                    typ,
                    *extents,
                    origin,
                    width as int,
                    height as int,
                    color,
                ));
                return out;
            }
            let mut from = to_device(points[0], extents, origin, width, height);
            let mut i: usize = 1;
            assert(ops(out@) =~= line_ops(
                points@,
                0,
                *extents,
                origin,
                width as int,
                height as int,
                color,
            ));
            while i < n
                invariant
                    width > 0,
                    height > 0,
                    n == points.len(),
                    1 <= i <= n,
                    from.0 == device_x(points[i - 1].x as int, *extents, width as int),
                    from.1 == device_y(points[i - 1].y as int, *extents, origin, height as int),
                    ops(out@) == line_ops(
                        points@,
                        (i - 1) as nat,
                        *extents,
                        origin,
                        width as int,
                        height as int,
                        color,
                    ),
                decreases n - i,
            {
                let to = to_device(points[i], extents, origin, width, height);
                let c = DrawCommand::Segment {
                    x0: from.0,
                    y0: from.1,
                    x1: to.0,
                    y1: to.1,
                    width: LINE_WIDTH,
                    color,
                };
                proof {
                    lemma_ops_push(out@, c);
                    assert(ops(out@).push(c@) =~= line_ops(
                        points@,
                        i as nat,
                        *extents,
                        origin,
                        width as int,
                        height as int,
                        color,
                    ));
                }
                out.push(c);
                from = to;
                i = i + 1;
            }
        },
        PlotType::Scatter => {
            let mut i: usize = 0;
            assert(ops(out@) =~= scatter_ops(
                points@,
                0,
                *extents,
                origin,
                width as int,
                height as int,
                color,
            ));
            while i < n
                invariant
                    width > 0,
                    height > 0,
                    n == points.len(),
                    0 <= i <= n,
                    ops(out@) == scatter_ops(
                        points@,
                        i as nat,
                        *extents,
                        origin,
                        width as int,
                        height as int,
                        color,
                    ),
                decreases n - i,
            {
                let at = to_device(points[i], extents, origin, width, height);
                let c = DrawCommand::Dot { x: at.0, y: at.1, width: DOT_WIDTH, color };
                proof {
                    lemma_ops_push(out@, c);
                    assert(ops(out@).push(c@) =~= scatter_ops(
                        points@,
                        (i + 1) as nat,
                        *extents,
                        origin,
                        width as int,
                        height as int,
                        color,
                    ));
                }
                out.push(c);
                i = i + 1;
            }
        },
    }
    out
}

impl PlotViewImpl {
    /// The extents that the next frame is drawn with.
    pub fn extents(&self) -> (e: Extents)
        ensures
            e == resolved_extents(self@),
    {
        let fallback = self.config.fallback;
        match infer_extents(&self.point_list) {
            Some(d) => Extents {
                x_min: resolve_bound(self.x_min, Some(d.x_min), fallback.x_min),
                x_max: resolve_bound(self.x_max, Some(d.x_max), fallback.x_max),
                y_min: resolve_bound(self.y_min, Some(d.y_min), fallback.y_min),
                y_max: resolve_bound(self.y_max, Some(d.y_max), fallback.y_max),
            },
            None => Extents {
                x_min: resolve_bound(self.x_min, None, fallback.x_min),
                x_max: resolve_bound(self.x_max, None, fallback.x_max),
                y_min: resolve_bound(self.y_min, None, fallback.y_min),
                y_max: resolve_bound(self.y_max, None, fallback.y_max),
            },
        }
    }

    /// Renders one frame onto a surface of the given size in pixels. The
    /// result depends on nothing but the state, the size and the theme.
    /// A surface whose width or height is not positive gets no command.
    pub fn snapshot(&self, width: i32, height: i32, theme: &Theme) -> (out: Vec<DrawCommand>)
        ensures
            ops(out@) == frame(self@, width as int, height as int, *theme),
    {
        let mut out: Vec<DrawCommand> = Vec::new();
        if width <= 0 || height <= 0 {
            assert(ops(out@) =~= Seq::<DrawOp>::empty());
            return out;
        }
        let e = self.extents();
        let p = resolve_palette(
            self.axis_color,
            self.line_color,
            self.text_color,
            self.grid_color,
            theme,
        );
        let font = DrawCommand::SelectFont { name: self.font_name.clone() };
        proof {
            lemma_ops_push(out@, font);
            assert(ops(out@.push(font)) =~= seq![font@]);
        }
        out.push(font);
        let mut captions = caption_commands(
            self.title.as_str(),
            self.x_label.as_str(),
            self.y_label.as_str(),
            width,
            height,
            p.text,
        );
        let mut axes = axis_commands(width, height, p.axis);
        let base_x = self.config.grid_base_x;
        let base_y = self.config.grid_base_y;
        let mut grid_x = grid_commands(Axis::X, e.x_min, e.x_max, base_x, width, height, &p);
        let mut grid_y = grid_commands(Axis::Y, e.y_min, e.y_max, base_y, width, height, &p);
        let mut series = series_commands(
            &self.point_list,
            self.typ,
            &e,
            self.config.origin,
            width,
            height,
            p.line,
        );
        proof {
            lemma_ops_add(out@, captions@);
            lemma_ops_add(out@ + captions@, axes@);
            lemma_ops_add(out@ + captions@ + axes@, grid_x@);
            lemma_ops_add(out@ + captions@ + axes@ + grid_x@, grid_y@);
            lemma_ops_add(out@ + captions@ + axes@ + grid_x@ + grid_y@, series@);
        }
        out.append(&mut captions);
        out.append(&mut axes);
        out.append(&mut grid_x);
        out.append(&mut grid_y);
        out.append(&mut series);
        out
    }
}

impl PlotView {
    /// Renders one frame from the chart's current state.
    pub fn snapshot(&self, width: i32, height: i32, theme: &Theme) -> (out: Vec<DrawCommand>)
        ensures
            ops(out@) == frame(self@, width as int, height as int, *theme),
    {
        self.imp().snapshot(width, height, theme)
    }
}

} // verus!
