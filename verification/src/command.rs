//! Drawing commands: what a frame consists of.

use vstd::prelude::*;
use crate::color::Color;

verus! {

/// Where a text lies relative to its anchor point. The host measures the
/// text and places it; the anchor itself is a fixed fraction of the
/// surface.
#[derive(Clone, Copy, Debug, PartialEq, Eq, Structural)]
pub enum TextAnchor {
    /// Centred on the anchor's x, baseline at the anchor's y.
    Centered,
    /// Centred on the anchor's x, baseline half the text's height above
    /// the anchor's y.
    CenteredRaised,
    /// Ending at the anchor's x, baseline at the anchor's y.
    RightAligned,
    /// Turned a quarter to the left and running upward, baseline at the
    /// anchor's x, centred on the anchor's y.
    Upward,
}

/// How far the start of a text's baseline lies from its anchor point, for
/// a text that measures `width` by `height`. Halves are rounded down.
pub open spec fn text_shift(anchor: TextAnchor, width: int, height: int) -> (int, int) {
    match anchor {
        TextAnchor::Centered => (-(width / 2), 0),
        TextAnchor::CenteredRaised => (-(width / 2), -(height / 2)),
        TextAnchor::RightAligned => (-width, 0),
        TextAnchor::Upward => (0, width / 2),
    }
}

/// Places a measured text: the offset from its anchor point to the start
/// of its baseline, in device units. A text that runs upward starts half
/// its width below the anchor.
pub fn text_offset(anchor: TextAnchor, width: u64, height: u64) -> (d: (i128, i128))
    ensures
        d.0 == text_shift(anchor, width as int, height as int).0,
        d.1 == text_shift(anchor, width as int, height as int).1,
{
    let w: i128 = width as i128;
    let h: i128 = height as i128;
    match anchor {
        TextAnchor::Centered => (-(w / 2), 0),
        TextAnchor::CenteredRaised => (-(w / 2), -(h / 2)),
        TextAnchor::RightAligned => (-w, 0),
        TextAnchor::Upward => (0, w / 2),
    }
}

/// One drawing command. Positions, sizes and widths are in thousandths of
/// a pixel; y grows downward.
#[derive(Debug, PartialEq, Eq)]
pub enum DrawCommand {
    /// Selects the font face for the texts that follow.
    SelectFont { name: String },
    /// Shows a text.
    Text { text: String, x: i128, y: i128, size: i64, anchor: TextAnchor, color: Color },
    /// Strokes a straight segment with round joins.
    Segment { x0: i128, y0: i128, x1: i128, y1: i128, width: i64, color: Color },
    /// Strokes a closed path of no length with round caps: a dot.
    Dot { x: i128, y: i128, width: i64, color: Color },
}

/// A drawing command as a mathematical value.
pub enum DrawOp {
    SelectFont { name: Seq<char> },
    Text { text: Seq<char>, x: int, y: int, size: int, anchor: TextAnchor, color: Color },
    Segment { x0: int, y0: int, x1: int, y1: int, width: int, color: Color },
    Dot { x: int, y: int, width: int, color: Color },
}

impl View for DrawCommand {
    type V = DrawOp;

    open spec fn view(&self) -> DrawOp {
        match *self {
            DrawCommand::SelectFont { name } => DrawOp::SelectFont { name: name@ },
            DrawCommand::Text { text, x, y, size, anchor, color } => DrawOp::Text {
                text: text@,
                x: x as int,
                y: y as int,
                size: size as int,
                anchor,
                color,
            },
            DrawCommand::Segment { x0, y0, x1, y1, width, color } => DrawOp::Segment {
                x0: x0 as int,
                y0: y0 as int,
                x1: x1 as int,
                y1: y1 as int,
                width: width as int,
                color,
            },
            DrawCommand::Dot { x, y, width, color } => DrawOp::Dot {
                x: x as int,
                y: y as int,
                width: width as int,
                color,
            },
        }
    }
}

/// A list of commands as a sequence of mathematical values.
pub open spec fn ops(commands: Seq<DrawCommand>) -> Seq<DrawOp> {
    Seq::new(commands.len(), |i: int| commands[i]@)
}

/// The values of a list with one more command.
pub proof fn lemma_ops_push(commands: Seq<DrawCommand>, c: DrawCommand)
    ensures
        ops(commands.push(c)) == ops(commands).push(c@),
{
    assert(ops(commands.push(c)) =~= ops(commands).push(c@));
}

/// The values of two lists joined.
pub proof fn lemma_ops_add(a: Seq<DrawCommand>, b: Seq<DrawCommand>)
    ensures
        ops(a + b) == ops(a) + ops(b),
{
    assert(ops(a + b) =~= ops(a) + ops(b));
}

} // verus!
