//! Layout and drawing commands for a labelled two-dimensional line or
//! scatter chart.
//!
//! A chart holds a series of points, texts, a plot type and optional pinned
//! axis bounds. Rendering it onto a surface of a given size yields the list
//! of drawing commands of one frame: captions, axes, a grid with steps in
//! powers of a base, and the series. The host carries the commands out.
//!
//! Every quantity is a fixed-point integer. A data coordinate `n` stands
//! for `n / 1000`; a device length `n` stands for `n / 1000` pixels. Colour
//! channels and line widths use the same thousandths. Grid values between
//! two thousandths are fractions of whole numbers.

pub mod units;
pub mod color;
pub mod point;
pub mod command;
pub mod label;
pub mod extent;
pub mod grid;
pub mod layout;
pub mod config;
pub mod model;
pub mod render;
pub mod laws;
