//! The constants on which renderers may differ, gathered in one value.

use vstd::prelude::*;
use crate::extent::Extents;
use crate::layout::Origin;

verus! {

/// What a renderer is free to choose: the extents of an axis that has
/// neither data nor a pinned bound, the base of the grid steps on each
/// axis, and where the data origin lies.
#[derive(Clone, Copy, Debug, PartialEq, Eq, Structural)]
pub struct RenderConfig {
    /// Extents used for a bound that is not pinned while the series is
    /// empty.
    pub fallback: Extents,
    /// Grid steps on the x axis are powers of this base.
    pub grid_base_x: u32,
    /// Grid steps on the y axis are powers of this base.
    pub grid_base_y: u32,
    /// Where the data origin lies on the surface.
    pub origin: Origin,
}

/// The default configuration: x from 0 to 500 and y from 0 to 100 where
/// nothing else is known, decimal steps on the x axis, steps in powers of
/// five on the y axis, and the data origin at the bottom-left corner of the
/// plot area.
pub open spec fn default_config() -> RenderConfig {
    RenderConfig {
        fallback: Extents { x_min: 0, x_max: 500_000, y_min: 0, y_max: 100_000 },
        grid_base_x: 10,
        grid_base_y: 5,
        origin: Origin::BottomLeft,
    }
}

impl Default for RenderConfig {
    fn default() -> (c: Self)
        ensures
            c == default_config(),
    {
        RenderConfig {
            fallback: Extents { x_min: 0, x_max: 500_000, y_min: 0, y_max: 100_000 },
            grid_base_x: 10,
            grid_base_y: 5,
            origin: Origin::BottomLeft,
        }
    }
}

} // verus!
