use plotview::color::{Color, Theme};
use plotview::config::RenderConfig;
use plotview::extent::Extents;
use plotview::layout::Origin;
use plotview::model::{Bound, PlotView, PlotViewImpl};
use plotview::point::{PlotType, Point};

fn theme() -> Theme {
    Theme { foreground: Color::new(0, 0, 0, 1000), accent: Some(Color::new(208, 396, 894, 1000)) }
}

#[test]
fn point_keeps_its_coordinates() {
    let p = Point::new(-5, 7);
    assert_eq!(p.x, -5);
    assert_eq!(p.y, 7);
    assert_eq!(p, Point { x: -5, y: 7 });
    assert_ne!(p, Point { x: 7, y: -5 });
}

#[test]
fn line_is_the_default_plot_type() {
    assert_eq!(PlotType::default(), PlotType::Line);
}

#[test]
fn default_configuration() {
    assert_eq!(
        RenderConfig::default(),
        RenderConfig {
            fallback: Extents { x_min: 0, x_max: 500_000, y_min: 0, y_max: 100_000 },
            grid_base_x: 10,
            grid_base_y: 5,
            origin: Origin::BottomLeft,
        }
    );
}

#[test]
fn new_chart_has_nothing_set() {
    let view = PlotView::new();
    let s = view.imp();
    assert_eq!(s.title, "");
    assert_eq!(s.x_label, "");
    assert_eq!(s.y_label, "");
    assert_eq!(s.font_name, "");
    assert_eq!(s.typ, PlotType::Line);
    assert_eq!((s.x_min, s.x_max, s.y_min, s.y_max), (None, None, None, None));
    assert_eq!((s.axis_color, s.line_color, s.text_color, s.grid_color), (None, None, None, None));
    assert!(s.point_list.is_empty());
    assert_eq!(s.config, RenderConfig::default());
    assert!(!view.needs_redraw());
    let d = PlotViewImpl::default();
    assert_eq!(d.config, RenderConfig::default());
    assert!(d.point_list.is_empty());
}

#[test]
fn every_mutator_requests_a_redraw() {
    let mut view = PlotView::new();
    let mut count = 0;
    let mut check = |view: &mut PlotView| {
        assert!(view.needs_redraw());
        assert!(view.take_redraw());
        assert!(!view.needs_redraw());
        assert!(!view.take_redraw());
        count += 1;
    };
    view.set_title("Battery Charge");
    check(&mut view);
    view.set_x_label("Time (h)");
    check(&mut view);
    view.set_y_label("Charge (%)");
    check(&mut view);
    view.set_font_name("Cantarell");
    check(&mut view);
    view.set_type(PlotType::Scatter);
    check(&mut view);
    view.set_points(vec![Point::new(1, 2)]);
    check(&mut view);
    view.add_point(Point::new(3, 4));
    check(&mut view);
    view.set_x_max(10);
    check(&mut view);
    view.set_y_max(10);
    check(&mut view);
    view.set_x_bound(Bound::Min, Some(0));
    check(&mut view);
    view.set_y_bound(Bound::Max, None);
    check(&mut view);
    assert_eq!(count, 11);
}

#[test]
fn a_mutator_requests_a_redraw_even_without_a_change() {
    let mut view = PlotView::new();
    view.set_title("");
    assert!(view.take_redraw());
    view.set_type(PlotType::Line);
    assert!(view.take_redraw());
}

#[test]
fn mutators_replace_what_they_name() {
    let mut view = PlotView::new();
    view.set_title("Battery Charge");
    view.set_x_label("Time (h)");
    view.set_y_label("Charge (%)");
    view.set_font_name("Cantarell");
    view.set_type(PlotType::Scatter);
    view.set_points(vec![Point::new(1, 2), Point::new(3, 4)]);
    view.set_x_max(10);
    view.set_y_max(20);
    let s = view.imp();
    assert_eq!(s.title, "Battery Charge");
    assert_eq!(s.x_label, "Time (h)");
    assert_eq!(s.y_label, "Charge (%)");
    assert_eq!(s.font_name, "Cantarell");
    assert_eq!(s.typ, PlotType::Scatter);
    assert_eq!(s.point_list, vec![Point::new(1, 2), Point::new(3, 4)]);
    assert_eq!((s.x_min, s.x_max, s.y_min, s.y_max), (None, Some(10), None, Some(20)));
    view.set_title("Other");
    assert_eq!(view.imp().title, "Other");
    assert_eq!(view.imp().x_label, "Time (h)");
}

#[test]
fn add_point_appends_in_order() {
    let mut view = PlotView::new();
    view.add_point(Point::new(3, 0));
    view.add_point(Point::new(1, 0));
    view.add_point(Point::new(3, 0));
    view.add_point(Point::new(2, 0));
    // Neither sorted nor deduplicated.
    assert_eq!(
        view.imp().point_list,
        vec![Point::new(3, 0), Point::new(1, 0), Point::new(3, 0), Point::new(2, 0)]
    );
}

#[test]
fn appending_equals_replacing_with_the_longer_series() {
    let old = vec![Point::new(0, 0), Point::new(1000, 1000), Point::new(2000, 0)];
    let p = Point::new(3000, -500);
    for typ in [PlotType::Line, PlotType::Scatter] {
        let mut streamed = PlotView::new();
        streamed.set_type(typ);
        streamed.set_title("t");
        streamed.set_points(old.clone());
        streamed.add_point(p);

        let mut replaced = PlotView::new();
        replaced.set_type(typ);
        replaced.set_title("t");
        replaced.set_points(old.clone());
        let mut longer = old.clone();
        longer.push(p);
        replaced.set_points(longer);

        assert_eq!(streamed.imp().point_list, replaced.imp().point_list);
        assert_eq!(streamed.needs_redraw(), replaced.needs_redraw());
        assert_eq!(
            streamed.snapshot(640, 480, &theme()),
            replaced.snapshot(640, 480, &theme())
        );
    }
}

#[test]
fn appending_to_an_empty_chart_equals_replacing() {
    let p = Point::new(7, 7);
    let mut streamed = PlotView::new();
    streamed.add_point(p);
    let mut replaced = PlotView::new();
    replaced.set_points(vec![p]);
    assert_eq!(streamed.snapshot(300, 200, &theme()), replaced.snapshot(300, 200, &theme()));
}
