//! Colours and the host's theme.

use vstd::prelude::*;

verus! {

/// A colour. Each channel runs from 0 to 1000 thousandths.
#[derive(Clone, Copy, Debug, PartialEq, Eq, Structural)]
pub struct Color {
    pub red: u16,
    pub green: u16,
    pub blue: u16,
    pub alpha: u16,
}

impl Color {
    pub fn new(red: u16, green: u16, blue: u16, alpha: u16) -> (c: Self)
        ensures
            c == (Color { red, green, blue, alpha }),
    {
        Color { red, green, blue, alpha }
    }

    /// The same colour at another opacity.
    pub open spec fn faded(self, alpha: u16) -> Color {
        Color { red: self.red, green: self.green, blue: self.blue, alpha }
    }

    /// The same colour at another opacity.
    pub fn with_alpha(self, alpha: u16) -> (c: Self)
        ensures
            c == self.faded(alpha),
    {
        Color { red: self.red, green: self.green, blue: self.blue, alpha }
    }
}

/// The colours that the host's theme resolves at paint time.
#[derive(Clone, Copy, Debug, PartialEq, Eq, Structural)]
pub struct Theme {
    /// The foreground colour.
    pub foreground: Color,
    /// The accent colour, where the theme has one.
    pub accent: Option<Color>,
}

/// The four colours a frame is drawn in.
#[derive(Clone, Copy, Debug, PartialEq, Eq, Structural)]
pub struct Palette {
    pub axis: Color,
    pub line: Color,
    pub text: Color,
    pub grid: Color,
}

/// Opacity of grid lines drawn in the theme's foreground: a tenth.
pub const GRID_ALPHA: u16 = 100;

/// An override where there is one, else the fallback.
pub open spec fn color_or(chosen: Option<Color>, fallback: Color) -> Color {
    match chosen {
        Some(c) => c,
        None => fallback,
    }
}

/// The palette of a frame. Axis and text fall back to the foreground, the
/// series to the accent (and to the foreground where the theme has no
/// accent), the grid to the foreground at a tenth of full opacity.
pub open spec fn resolved_palette(
    axis: Option<Color>,
    line: Option<Color>,
    text: Option<Color>,
    grid: Option<Color>,
    theme: Theme,
) -> Palette {
    Palette {
        axis: color_or(axis, theme.foreground),
        line: color_or(line, color_or(theme.accent, theme.foreground)),
        text: color_or(text, theme.foreground),
        grid: color_or(grid, theme.foreground.faded(GRID_ALPHA)),
    }
}

/// Resolves the palette of a frame from the chart's overrides and the
/// theme. No lookup can fail the frame.
pub fn resolve_palette(
    axis: Option<Color>,
    line: Option<Color>,
    text: Option<Color>,
    grid: Option<Color>,
    theme: &Theme,
) -> (p: Palette)
    ensures
        p == resolved_palette(axis, line, text, grid, *theme),
{
    let foreground = theme.foreground;
    let accent = match theme.accent {
        Some(c) => c,
        None => foreground,
    };
    Palette {
        axis: match axis {
            Some(c) => c,
            None => foreground,
        },
        line: match line {
            Some(c) => c,
            None => accent,
        },
        text: match text {
            Some(c) => c,
            None => foreground,
        },
        grid: match grid {
            Some(c) => c,
            None => foreground.with_alpha(GRID_ALPHA),
        },
    }
}

} // verus!
