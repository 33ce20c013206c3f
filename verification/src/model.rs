//! The chart model: what is plotted and how, and the request to redraw
//! that every change raises.

use vstd::prelude::*;
use crate::color::Color;
use crate::config::{default_config, RenderConfig};
use crate::point::{PlotType, Point};

verus! {

/// One end of an axis.
#[derive(Clone, Copy, Debug, PartialEq, Eq, Structural)]
pub enum Bound {
    Min,
    Max,
}

/// The state of a chart. A bound that is `None` is inferred from the
/// points at each frame; a colour that is `None` comes from the theme.
#[derive(Debug)]
pub struct PlotViewImpl {
    pub title: String,
    pub typ: PlotType,
    pub x_label: String,
    pub y_label: String,
    pub x_max: Option<i64>,
    pub y_max: Option<i64>,
    pub x_min: Option<i64>,
    pub y_min: Option<i64>,
    pub font_name: String,
    pub axis_color: Option<Color>,
    pub line_color: Option<Color>,
    pub text_color: Option<Color>,
    pub grid_color: Option<Color>,
    /// The series, in insertion order. It is drawn in this order and never
    /// sorted.
    pub point_list: Vec<Point>,
    pub config: RenderConfig,
}

/// The state of a chart as a mathematical value.
pub struct PlotModel {
    pub title: Seq<char>,
    pub typ: PlotType,
    pub x_label: Seq<char>,
    pub y_label: Seq<char>,
    pub x_max: Option<i64>,
    pub y_max: Option<i64>,
    pub x_min: Option<i64>,
    pub y_min: Option<i64>,
    pub font_name: Seq<char>,
    pub axis_color: Option<Color>,
    pub line_color: Option<Color>,
    pub text_color: Option<Color>,
    pub grid_color: Option<Color>,
    pub points: Seq<Point>,
    pub config: RenderConfig,
}

impl View for PlotViewImpl {
    type V = PlotModel;

    open spec fn view(&self) -> PlotModel {
        PlotModel {
            title: self.title@,
            typ: self.typ,
            x_label: self.x_label@,
            y_label: self.y_label@,
            x_max: self.x_max,
            y_max: self.y_max,
            x_min: self.x_min,
            y_min: self.y_min,
            font_name: self.font_name@,
            axis_color: self.axis_color,
            line_color: self.line_color,
            text_color: self.text_color,
            grid_color: self.grid_color,
            points: self.point_list@,
            config: self.config,
        }
    }
}

impl PlotModel {
    /// A chart with nothing set: empty texts, a line plot, no pinned
    /// bound, no colour of its own, no point.
    pub open spec fn empty(config: RenderConfig) -> PlotModel {
        PlotModel {
            title: Seq::empty(),
            typ: PlotType::Line,
            x_label: Seq::empty(),
            y_label: Seq::empty(),
            x_max: None,
            y_max: None,
            x_min: None,
            y_min: None,
            font_name: Seq::empty(),
            axis_color: None,
            line_color: None,
            text_color: None,
            grid_color: None,
            points: Seq::empty(),
            config,
        }
    }

    pub open spec fn with_title(self, title: Seq<char>) -> PlotModel {
        PlotModel { title, ..self }
    }

    pub open spec fn with_x_label(self, x_label: Seq<char>) -> PlotModel {
        PlotModel { x_label, ..self }
    }

    pub open spec fn with_y_label(self, y_label: Seq<char>) -> PlotModel {
        PlotModel { y_label, ..self }
    }

    pub open spec fn with_font_name(self, font_name: Seq<char>) -> PlotModel {
        PlotModel { font_name, ..self }
    }

    pub open spec fn with_type(self, typ: PlotType) -> PlotModel {
        PlotModel { typ, ..self }
    }

    /// The chart with its series replaced.
    pub open spec fn with_points(self, points: Seq<Point>) -> PlotModel {
        PlotModel { points, ..self }
    }

    /// The chart with one more point at the end of its series.
    pub open spec fn with_point(self, point: Point) -> PlotModel {
        PlotModel { points: self.points.push(point), ..self }
    }

    /// The chart with one bound of its x axis pinned or released.
    pub open spec fn with_x_bound(self, end: Bound, value: Option<i64>) -> PlotModel {
        match end {
            Bound::Min => PlotModel { x_min: value, ..self },
            Bound::Max => PlotModel { x_max: value, ..self },
        }
    }

    /// The chart with one bound of its y axis pinned or released.
    pub open spec fn with_y_bound(self, end: Bound, value: Option<i64>) -> PlotModel {
        match end {
            Bound::Min => PlotModel { y_min: value, ..self },
            Bound::Max => PlotModel { y_max: value, ..self },
        }
    }
}

impl PlotViewImpl {
    /// A chart with nothing set.
    pub fn new(config: RenderConfig) -> (s: Self)
        ensures
            s@ == PlotModel::empty(config),
    {
        PlotViewImpl {
            title: String::new(),
            typ: PlotType::Line,
            x_label: String::new(),
            y_label: String::new(),
            x_max: None,
            y_max: None,
            x_min: None,
            y_min: None,
            font_name: String::new(),
            axis_color: None,
            line_color: None,
            text_color: None,
            grid_color: None,
            point_list: Vec::new(),
            config,
        }
    }
}

impl Default for PlotViewImpl {
    fn default() -> (s: Self)
        ensures
            s@ == PlotModel::empty(default_config()),
    {
        PlotViewImpl::new(RenderConfig::default())
    }
}

/// A chart and its pending request to redraw. Every mutator replaces what
/// it names, leaves the rest as it was, and raises the request; the host
/// takes the request down when it schedules the frame.
pub struct PlotView {
    imp: PlotViewImpl,
    redraw: bool,
}

impl View for PlotView {
    type V = PlotModel;

    closed spec fn view(&self) -> PlotModel {
        self.imp@
    }
}

impl Default for PlotView {
    fn default() -> (v: Self)
        ensures
            v@ == PlotModel::empty(default_config()),
            !v.redraw_requested(),
    {
        PlotView { imp: PlotViewImpl::default(), redraw: false }
    }
}

impl PlotView {
    /// Whether a change has been made since the host last took the
    /// request.
    pub closed spec fn redraw_requested(&self) -> bool {
        self.redraw
    }

    /// A chart with nothing set, in the default configuration.
    pub fn new() -> (v: Self)
        ensures
            v@ == PlotModel::empty(default_config()),
            !v.redraw_requested(),
    {
        Self::default()
    }

    /// A chart with nothing set, in a configuration of the caller's.
    pub fn with_config(config: RenderConfig) -> (v: Self)
        ensures
            v@ == PlotModel::empty(config),
            !v.redraw_requested(),
    {
        PlotView { imp: PlotViewImpl::new(config), redraw: false }
    }

    /// The state that a frame is rendered from.
    pub fn imp(&self) -> (s: &PlotViewImpl)
        ensures
            s@ == self@,
    {
        &self.imp
    }

    /// Whether a redraw is pending.
    pub fn needs_redraw(&self) -> (r: bool)
        ensures
            r == self.redraw_requested(),
    {
        self.redraw
    }

    /// Takes the request down and says whether there was one.
    pub fn take_redraw(&mut self) -> (r: bool)
        ensures
            r == old(self).redraw_requested(),
            !final(self).redraw_requested(),
            final(self)@ == old(self)@,
    {
        let r = self.redraw;
        self.redraw = false;
        r
    }

    pub fn set_title(&mut self, title: &str)
        ensures
            final(self)@ == old(self)@.with_title(title@),
            final(self).redraw_requested(),
    {
        self.imp.title = title.to_owned();
        self.redraw = true;
    }

    /// Replaces the series.
    pub fn set_points(&mut self, point_list: Vec<Point>)
        ensures
            final(self)@ == old(self)@.with_points(point_list@),
            final(self).redraw_requested(),
    {
        self.imp.point_list = point_list;
        self.redraw = true;
    }

    pub fn set_font_name(&mut self, font_name: &str)
        ensures
            final(self)@ == old(self)@.with_font_name(font_name@),
            final(self).redraw_requested(),
    {
        self.imp.font_name = font_name.to_owned();
        self.redraw = true;
    }

    /// Pins the upper bound of the x axis.
    pub fn set_x_max(&mut self, x_max: i64)
        ensures
            final(self)@ == old(self)@.with_x_bound(Bound::Max, Some(x_max)),
            final(self).redraw_requested(),
    {
        self.imp.x_max = Some(x_max);
        self.redraw = true;
    }

    /// Pins the upper bound of the y axis.
    pub fn set_y_max(&mut self, y_max: i64)
        ensures
            final(self)@ == old(self)@.with_y_bound(Bound::Max, Some(y_max)),
            final(self).redraw_requested(),
    {
        self.imp.y_max = Some(y_max);
        self.redraw = true;
    }

    /// Pins one bound of the x axis to a value, or releases it with
    /// `None`, after which it is inferred again.
    pub fn set_x_bound(&mut self, end: Bound, value: Option<i64>)
        ensures
            final(self)@ == old(self)@.with_x_bound(end, value),
            final(self).redraw_requested(),
    {
        match end {
            Bound::Min => {
                self.imp.x_min = value;
            },
            Bound::Max => {
                self.imp.x_max = value;
            },
        }
        self.redraw = true;
    }

    /// Pins one bound of the y axis to a value, or releases it with
    /// `None`, after which it is inferred again.
    pub fn set_y_bound(&mut self, end: Bound, value: Option<i64>)
        ensures
            final(self)@ == old(self)@.with_y_bound(end, value),
            final(self).redraw_requested(),
    {
        match end {
            Bound::Min => {
                self.imp.y_min = value;
            },
            Bound::Max => {
                self.imp.y_max = value;
            },
        }
        self.redraw = true;
    }

    pub fn set_type(&mut self, plot_type: PlotType)
        ensures
            final(self)@ == old(self)@.with_type(plot_type),
            final(self).redraw_requested(),
    {
        self.imp.typ = plot_type;
        self.redraw = true;
    }

    pub fn set_x_label(&mut self, x_label: &str)
        ensures
            final(self)@ == old(self)@.with_x_label(x_label@),
            final(self).redraw_requested(),
    {
        self.imp.x_label = x_label.to_owned();
        self.redraw = true;
    }

    pub fn set_y_label(&mut self, y_label: &str)
        ensures
            final(self)@ == old(self)@.with_y_label(y_label@),
            final(self).redraw_requested(),
    {
        self.imp.y_label = y_label.to_owned();
        self.redraw = true;
    }

    /// Appends one point to the series. Nothing that is already there is
    /// moved or looked at.
    pub fn add_point(&mut self, point: Point)
        ensures
            final(self)@ == old(self)@.with_point(point),
            final(self).redraw_requested(),
    {
        self.imp.point_list.push(point);
        self.redraw = true;
    }
}

} // verus!
