use plotview::color::{Color, Palette};
use plotview::command::{DrawCommand, TextAnchor};
use plotview::extent::Extents;
use plotview::grid::Axis;
use plotview::layout::Origin;
use plotview::point::{PlotType, Point};
use plotview::render::{axis_commands, caption_commands, grid_commands, series_commands};

fn ink() -> Color {
    Color::new(0, 0, 0, 1000)
}

fn palette() -> Palette {
    Palette {
        axis: Color::new(1, 1, 1, 1000),
        line: Color::new(2, 2, 2, 1000),
        text: Color::new(3, 3, 3, 1000),
        grid: Color::new(4, 4, 4, 100),
    }
}

fn text(s: &str, x: i128, y: i128, size: i64, anchor: TextAnchor, color: Color) -> DrawCommand {
    DrawCommand::Text { text: s.to_string(), x, y, size, anchor, color }
}

#[test]
fn captions_sit_at_fixed_fractions() {
    let out = caption_commands("Battery Charge", "Time (h)", "Charge (%)", 650, 400, ink());
    assert_eq!(
        out,
        vec![
            // Half the width, a tenth of the height; 15 pixels at the reference width.
            text("Battery Charge", 325_000, 40_000, 15_000, TextAnchor::CenteredRaised, ink()),
            text("Time (h)", 325_000, 370_000, 11_000, TextAnchor::Centered, ink()),
            text("Charge (%)", 22_750, 200_000, 11_000, TextAnchor::Upward, ink()),
        ]
    );
}

#[test]
fn font_sizes_follow_the_width() {
    let out = caption_commands("a", "b", "", 640, 480, ink());
    assert_eq!(
        out,
        vec![
            text("a", 320_000, 48_000, 14_769, TextAnchor::CenteredRaised, ink()),
            text("b", 320_000, 444_000, 10_830, TextAnchor::Centered, ink()),
        ]
    );
    let wide = caption_commands("a", "", "", 1300, 10, ink());
    assert_eq!(wide, vec![text("a", 650_000, 1_000, 30_000, TextAnchor::CenteredRaised, ink())]);
}

#[test]
fn empty_caption_draws_nothing() {
    let none = caption_commands("", "", "", 640, 480, ink());
    assert!(none.is_empty());
    let only_y = caption_commands("", "", "y", 640, 480, ink());
    assert_eq!(only_y, vec![text("y", 22_400, 240_000, 10_830, TextAnchor::Upward, ink())]);
}

#[test]
fn axes_run_along_the_bottom_and_the_left() {
    assert_eq!(
        axis_commands(640, 480, ink()),
        vec![
            DrawCommand::Segment {
                x0: 576_000,
                y0: 384_000,
                x1: 64_000,
                y1: 384_000,
                width: 1000,
                color: ink()
            },
            DrawCommand::Segment {
                x0: 64_000,
                y0: 384_000,
                x1: 64_000,
                y1: 96_000,
                width: 1000,
                color: ink()
            },
        ]
    );
}

fn x_line(x: i128, label: &str) -> Vec<DrawCommand> {
    vec![
        DrawCommand::Segment {
            x0: x,
            y0: 96_000,
            x1: x,
            y1: 384_000,
            width: 1000,
            color: palette().grid,
        },
        text(label, x, 403_200, 7876, TextAnchor::Centered, palette().text),
    ]
}

fn y_line(y: i128, label: &str) -> Vec<DrawCommand> {
    vec![
        DrawCommand::Segment {
            x0: 64_000,
            y0: y,
            x1: 576_000,
            y1: y,
            width: 1000,
            color: palette().grid,
        },
        text(label, 58_240, y, 7876, TextAnchor::RightAligned, palette().text),
    ]
}

#[test]
fn x_grid_of_the_fallback_extents() {
    let out = grid_commands(Axis::X, 0, 500_000, 10, 640, 480, &palette());
    let mut expected = Vec::new();
    // The plot is 512 pixels wide: a fifth of it per step of 100.
    expected.extend(x_line(64_000 + 102_400, "100.0"));
    expected.extend(x_line(64_000 + 204_800, "200.0"));
    expected.extend(x_line(64_000 + 307_200, "300.0"));
    expected.extend(x_line(64_000 + 409_600, "400.0"));
    expected.extend(x_line(576_000, "500.0"));
    assert_eq!(out, expected);
}

#[test]
fn y_grid_of_the_fallback_extents() {
    let out = grid_commands(Axis::Y, 0, 100_000, 5, 640, 480, &palette());
    let mut expected = Vec::new();
    // The plot is 288 pixels high: a quarter of it per step of 25.
    expected.extend(y_line(384_000 - 72_000, "25.0"));
    expected.extend(y_line(384_000 - 144_000, "50.0"));
    expected.extend(y_line(384_000 - 216_000, "75.0"));
    expected.extend(y_line(96_000, "100.0"));
    assert_eq!(out, expected);
}

#[test]
fn grid_starts_one_step_above_the_lower_bound() {
    let out = grid_commands(Axis::X, 200, 2200, 10, 640, 480, &palette());
    // Step 0.1: 19 lines between the bounds and one at the upper bound.
    assert_eq!(out.len(), 40);
    assert_eq!(out[0..2], x_line(64_000 + 25_600, "0.3")[..]);
    assert_eq!(out[2..4], x_line(64_000 + 51_200, "0.4")[..]);
    assert_eq!(out[36..38], x_line(64_000 + 19 * 25_600, "2.1")[..]);
    assert_eq!(out[38..40], x_line(576_000, "2.2")[..]);
}

#[test]
fn grid_line_positions_round_down() {
    // 0.4 * 7 = 2.8: step 1, and a seventh of the 288 pixels for each.
    let out = grid_commands(Axis::Y, 0, 7000, 10, 640, 480, &palette());
    assert_eq!(out.len(), 14);
    assert_eq!(out[0..2], y_line(384_000 - 41_142, "1.0")[..]);
    assert_eq!(out[2..4], y_line(384_000 - 82_285, "2.0")[..]);
    assert_eq!(out[4..6], y_line(384_000 - 123_428, "3.0")[..]);
    assert_eq!(out[10..12], y_line(384_000 - 246_857, "6.0")[..]);
    assert_eq!(out[12..14], y_line(96_000, "7.0")[..]);
}

#[test]
fn grid_step_of_an_eighth() {
    // 0.3 * 0.5 = 0.15: the power of two below it is an eighth.
    let out = grid_commands(Axis::X, 0, 500, 2, 640, 480, &palette());
    assert_eq!(out.len(), 8);
    assert_eq!(out[0..2], x_line(64_000 + 128_000, "0.1")[..]);
    assert_eq!(out[2..4], x_line(64_000 + 256_000, "0.2")[..]);
    assert_eq!(out[4..6], x_line(64_000 + 384_000, "0.4")[..]);
    assert_eq!(out[6..8], x_line(576_000, "0.5")[..]);
}

#[test]
fn grid_step_between_two_units() {
    // 0.3 * 0.4 = 0.12: the step is a sixteenth, which is 62.5 thousandths.
    let out = grid_commands(Axis::X, 0, 400, 2, 640, 480, &palette());
    let mut expected = Vec::new();
    expected.extend(x_line(64_000 + 80_000, "0.1"));
    expected.extend(x_line(64_000 + 160_000, "0.1"));
    expected.extend(x_line(64_000 + 240_000, "0.2"));
    expected.extend(x_line(64_000 + 320_000, "0.2"));
    expected.extend(x_line(64_000 + 400_000, "0.3"));
    expected.extend(x_line(64_000 + 480_000, "0.4"));
    expected.extend(x_line(576_000, "0.4"));
    assert_eq!(out, expected);
}

#[test]
fn x_grid_of_the_shortest_spans() {
    // A span of 0.003: steps of 0.0001, 29 of them and the upper bound.
    let out = grid_commands(Axis::X, 0, 3, 10, 640, 480, &palette());
    assert_eq!(out.len(), 60);
    // A thirtieth of the 512 pixels for each step, rounded down.
    assert_eq!(out[0..2], x_line(64_000 + 17_066, "0.0")[..]);
    assert_eq!(out[2..4], x_line(64_000 + 34_133, "0.0")[..]);
    assert_eq!(out[4..6], x_line(64_000 + 51_200, "0.0")[..]);
    assert_eq!(out[56..58], x_line(64_000 + 494_933, "0.0")[..]);
    assert_eq!(out[58..60], x_line(576_000, "0.0")[..]);
    // A span of 0.001: steps of 0.0001, nine of them and the upper bound.
    let one = grid_commands(Axis::X, 41, 42, 10, 640, 480, &palette());
    assert_eq!(one.len(), 20);
    assert_eq!(one[0..2], x_line(64_000 + 51_200, "0.0")[..]);
    assert_eq!(one[16..18], x_line(64_000 + 460_800, "0.0")[..]);
    assert_eq!(one[18..20], x_line(576_000, "0.0")[..]);
}

#[test]
fn y_grid_of_the_shortest_spans() {
    // A span of 0.019: steps of 5^-4 = 0.0016, eleven of them and the upper bound.
    let out = grid_commands(Axis::Y, 0, 19, 5, 640, 480, &palette());
    assert_eq!(out.len(), 24);
    assert_eq!(out[0..2], y_line(384_000 - 24_252, "0.0")[..]);
    assert_eq!(out[2..4], y_line(384_000 - 48_505, "0.0")[..]);
    assert_eq!(out[20..22], y_line(384_000 - 266_778, "0.0")[..]);
    assert_eq!(out[22..24], y_line(96_000, "0.0")[..]);
    // A span of 0.001: steps of 5^-5 = 0.00032; the third would be within a
    // quarter step of the upper bound.
    let one = grid_commands(Axis::Y, 99, 100, 5, 640, 480, &palette());
    assert_eq!(one.len(), 6);
    assert_eq!(one[0..2], y_line(384_000 - 92_160, "0.1")[..]);
    assert_eq!(one[2..4], y_line(384_000 - 184_320, "0.1")[..]);
    assert_eq!(one[4..6], y_line(96_000, "0.1")[..]);
}

#[test]
fn labels_of_values_between_units_round_to_tenths() {
    // Steps of a third from 0 to 1: 0.333 and 0.667.
    let out = grid_commands(Axis::Y, 0, 1000, 3, 640, 480, &palette());
    assert_eq!(out.len(), 6);
    assert_eq!(out[0..2], y_line(384_000 - 96_000, "0.3")[..]);
    assert_eq!(out[2..4], y_line(384_000 - 192_000, "0.7")[..]);
    assert_eq!(out[4..6], y_line(96_000, "1.0")[..]);
    // Steps of a ninth on the x axis: 0.111, 0.222, ...
    let ninths = grid_commands(Axis::X, 0, 1000, 3, 640, 480, &palette());
    assert_eq!(ninths.len(), 18);
    assert_eq!(ninths[0..2], x_line(64_000 + 56_888, "0.1")[..]);
    assert_eq!(ninths[6..8], x_line(64_000 + 227_555, "0.4")[..]);
    assert_eq!(ninths[14..16], x_line(64_000 + 455_111, "0.9")[..]);
    // Steps of a sixteenth below zero: -0.4375 is the first above -0.5.
    let low = grid_commands(Axis::X, -500, -100, 2, 640, 480, &palette());
    assert_eq!(low.len(), 14);
    assert_eq!(low[0..2], x_line(64_000 + 80_000, "-0.4")[..]);
    assert_eq!(low[10..12], x_line(64_000 + 480_000, "-0.1")[..]);
    assert_eq!(low[12..14], x_line(576_000, "-0.1")[..]);
}

#[test]
fn axis_without_a_span_or_a_base_has_no_grid() {
    assert!(grid_commands(Axis::X, 5, 5, 10, 640, 480, &palette()).is_empty());
    assert!(grid_commands(Axis::Y, -5, -5, 5, 640, 480, &palette()).is_empty());
    assert!(grid_commands(Axis::X, 0, 500_000, 1, 640, 480, &palette()).is_empty());
    assert!(grid_commands(Axis::Y, 0, 500_000, 0, 640, 480, &palette()).is_empty());
}

#[test]
fn reversed_bounds_draw_the_upper_bound_only() {
    let out = grid_commands(Axis::X, 2000, 0, 10, 640, 480, &palette());
    assert_eq!(out, x_line(576_000, "0.0"));
    let out = grid_commands(Axis::Y, 1000, -1000, 5, 640, 480, &palette());
    assert_eq!(out, y_line(96_000, "-1.0"));
}

#[test]
fn grid_with_negative_values() {
    let out = grid_commands(Axis::Y, -1000, 1000, 5, 640, 480, &palette());
    // 0.4 * 2 = 0.8: step 0.2; nine lines and the upper bound.
    assert_eq!(out.len(), 20);
    assert_eq!(out[0..2], y_line(384_000 - 28_800, "-0.8")[..]);
    assert_eq!(out[8..10], y_line(384_000 - 144_000, "0.0")[..]);
    assert_eq!(out[16..18], y_line(384_000 - 259_200, "0.8")[..]);
    assert_eq!(out[18..20], y_line(96_000, "1.0")[..]);
}

fn three_points() -> Vec<Point> {
    vec![Point::new(0, 0), Point::new(1000, 1000), Point::new(2000, 0)]
}

fn extents() -> Extents {
    Extents { x_min: 0, x_max: 2000, y_min: 0, y_max: 1000 }
}

#[test]
fn line_plot_joins_consecutive_points() {
    let out = series_commands(
        &three_points(),
        PlotType::Line,
        &extents(),
        Origin::BottomLeft,
        640,
        480,
        ink(),
    );
    assert_eq!(
        out,
        vec![
            DrawCommand::Segment {
                x0: 64_000,
                y0: 384_000,
                x1: 320_000,
                y1: 96_000,
                width: 2000,
                color: ink()
            },
            DrawCommand::Segment {
                x0: 320_000,
                y0: 96_000,
                x1: 576_000,
                y1: 384_000,
                width: 2000,
                color: ink()
            },
        ]
    );
}

#[test]
fn scatter_plot_has_a_dot_for_every_point() {
    let out = series_commands(
        &three_points(),
        PlotType::Scatter,
        &extents(),
        Origin::BottomLeft,
        640,
        480,
        ink(),
    );
    assert_eq!(
        out,
        vec![
            DrawCommand::Dot { x: 64_000, y: 384_000, width: 3000, color: ink() },
            DrawCommand::Dot { x: 320_000, y: 96_000, width: 3000, color: ink() },
            DrawCommand::Dot { x: 576_000, y: 384_000, width: 3000, color: ink() },
        ]
    );
}

#[test]
fn series_of_none_or_one_point() {
    for typ in [PlotType::Line, PlotType::Scatter] {
        let out = series_commands(&vec![], typ, &extents(), Origin::BottomLeft, 640, 480, ink());
        assert!(out.is_empty());
    }
    let one = vec![Point::new(1000, 1000)];
    let line =
        series_commands(&one, PlotType::Line, &extents(), Origin::BottomLeft, 640, 480, ink());
    assert!(line.is_empty());
    let dots =
        series_commands(&one, PlotType::Scatter, &extents(), Origin::BottomLeft, 640, 480, ink());
    assert_eq!(dots, vec![DrawCommand::Dot { x: 320_000, y: 96_000, width: 3000, color: ink() }]);
}

#[test]
fn series_is_drawn_in_buffer_order() {
    let points =
        vec![Point::new(2000, 0), Point::new(0, 0), Point::new(2000, 0), Point::new(1000, 1000)];
    let out =
        series_commands(&points, PlotType::Line, &extents(), Origin::BottomLeft, 640, 480, ink());
    let ends: Vec<(i128, i128)> = out
        .iter()
        .map(|c| match c {
            DrawCommand::Segment { x0, x1, .. } => (*x0, *x1),
            _ => panic!("a line plot holds segments only"),
        })
        .collect();
    assert_eq!(ends, vec![(576_000, 64_000), (64_000, 576_000), (576_000, 320_000)]);
}

#[test]
fn series_with_the_origin_at_half_height() {
    let points = vec![Point::new(0, -1000), Point::new(2000, 1000)];
    let e = Extents { x_min: 0, x_max: 2000, y_min: -1000, y_max: 1000 };
    let out = series_commands(&points, PlotType::Line, &e, Origin::MiddleLeft, 640, 480, ink());
    assert_eq!(
        out,
        vec![DrawCommand::Segment {
            x0: 64_000,
            y0: 384_000,
            x1: 576_000,
            y1: 96_000,
            width: 2000,
            color: ink()
        }]
    );
}
