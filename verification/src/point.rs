//! Data points and the two ways of drawing them.

use vstd::prelude::*;

verus! {

/// One data point. Both coordinates are in thousandths.
#[derive(Clone, Copy, Debug, PartialEq, Eq, Structural)]
pub struct Point {
    pub x: i64,
    pub y: i64,
}

impl Point {
    pub fn new(x: i64, y: i64) -> (p: Self)
        ensures
            p.x == x,
            p.y == y,
    {
        Self { x, y }
    }
}

/// How the points of a series are drawn.
#[derive(Clone, Copy, Debug, PartialEq, Eq, Structural)]
pub enum PlotType {
    /// Consecutive points are joined by straight segments.
    Line,
    /// Every point is a dot of its own.
    Scatter,
}

impl Default for PlotType {
    fn default() -> (t: Self)
        ensures
            t == PlotType::Line,
    {
        PlotType::Line
    }
}

} // verus!
