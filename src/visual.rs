use vstd::prelude::*;

verus! {

/// The style of a point visual.
///
/// The first six styles are world-space shapes: their size is measured in the
/// coordinate space of the position (a diameter or a width), and in 3D they
/// stand for spheres and cubes. The others are screen-space markers whose size
/// is in pixels, whatever the zoom.
#[derive(Clone, Copy, PartialEq, Eq, Structural, Debug)]
#[non_exhaustive]
pub enum PointStyle {
    /// A filled circle or sphere; the size is the diameter.
    FilledCircle,
    /// A circle or sphere outline; the size is the diameter.
    Circle,
    /// A dashed circle or sphere outline; the size is the diameter.
    DashedCircle,
    /// A filled square or cube; the size is the width.
    FilledSquare,
    /// A square outline or wireframe cube; the size is the width.
    Square,
    /// A dashed square outline or wireframe cube; the size is the width.
    DashedSquare,
    /// A filled circle marker, sized in pixels.
    Point,
    /// A circle outline marker, sized in pixels.
    PointOutline,
    /// A filled square marker, sized in pixels.
    PointSquare,
    /// A square outline marker, sized in pixels.
    PointSquareOutline,
    /// An `x` marker, sized in pixels.
    PointCross,
    /// A filled diamond marker, sized in pixels.
    PointDiamond,
    /// A diamond outline marker, sized in pixels.
    PointDiamondOutline,
}

/// The style of a line visual.
#[derive(Clone, Copy, PartialEq, Eq, Structural, Debug)]
#[non_exhaustive]
pub enum LineStyle {
    /// A simple continuous line.
    Simple,
    /// A dashed line.
    Dashed,
    /// A line with an arrowhead on the second point.
    Arrow,
    /// A line with half an arrowhead, on the inside of a polygon drawn
    /// counter-clockwise.
    InsideHarpoonCCW,
    /// A line with half an arrowhead, on the inside of a polygon drawn
    /// clockwise.
    InsideHarpoonCW,
}

/// The alignment of a label's text relative to its anchor point. Every
/// variant centres the text vertically.
#[derive(Clone, Copy, PartialEq, Eq, Structural, Debug)]
pub enum TextAlignment {
    /// The left side of the text is at the anchor.
    Left,
    /// The text is centred on the anchor.
    Center,
    /// The right side of the text is at the anchor.
    Right,
    /// Centred on the anchor, but the backend may shift it a little for
    /// legibility.
    Flexible,
}

impl Default for TextAlignment {
    fn default() -> (r: TextAlignment)
        ensures
            r == TextAlignment::Flexible,
    {
        TextAlignment::Flexible
    }
}

/// A visual element for the backend to draw.
///
/// Every coordinate is the bit pattern of an `f64` (see `f64::to_bits`).
#[derive(Clone, Copy, PartialEq, Eq, Structural, Debug)]
pub enum Visual {
    /// A message shown in the backend's message log; no geometry.
    Message,
    /// A text label anchored at a point.
    Label { x: u64, y: u64, z: u64, alignment: TextAlignment },
    /// A marker or shape at a point.
    Point { x: u64, y: u64, z: u64, style: PointStyle },
    /// A single line segment.
    Line { x1: u64, y1: u64, z1: u64, x2: u64, y2: u64, z2: u64, style: LineStyle },
}

impl Default for Visual {
    fn default() -> (r: Visual)
        ensures
            r == Visual::Message,
    {
        Visual::Message
    }
}

/// Theme colors for visual debugging.
#[derive(Clone, Copy, PartialEq, Eq, Structural, Debug)]
#[non_exhaustive]
pub enum Color {
    /// The base line color, e.g. white on a black background.
    Base,
    /// Some shade of green.
    Healthy,
    /// Some shade of blue.
    Info,
    /// Some shade of yellow.
    Warn,
    /// Some shade of red.
    Error,
    /// The color of the x axis (a red).
    X,
    /// The color of the y axis (a green).
    Y,
    /// The color of the z axis (a blue).
    Z,
    /// A color by its packed RGBA code: red in the most significant byte,
    /// alpha in the least.
    Hex(u32),
}

impl Default for Color {
    fn default() -> (r: Color)
        ensures
            r == Color::Base,
    {
        Color::Base
    }
}

/// The bit pattern of the coordinate `0.0`, used for every coordinate that a
/// caller leaves out.
pub const ZERO_COORD: u64 = 0;

/// The `i`-th coordinate of a position given as up to three coordinates,
/// `0.0` where the position is shorter.
pub open spec fn coord_at(pos: Seq<u64>, i: int) -> u64 {
    if 0 <= i < pos.len() {
        pos[i]
    } else {
        ZERO_COORD
    }
}

/// Reads the `i`-th coordinate of `pos`, or `0.0` if `pos` has no such entry.
pub fn coord(pos: &[u64], i: usize) -> (r: u64)
    ensures
        r == coord_at(pos@, i as int),
{
    if i < pos.len() {
        pos[i]
    } else {
        ZERO_COORD
    }
}

impl Visual {
    /// A point visual at `pos` (x, y and an optional z; missing trailing
    /// coordinates are `0.0`, entries after the third are ignored).
    pub fn point_at(pos: &[u64], style: PointStyle) -> (r: Visual)
        ensures
            r == (Visual::Point {
                x: coord_at(pos@, 0),
                y: coord_at(pos@, 1),
                z: coord_at(pos@, 2),
                style,
            }),
    {
        Visual::Point { x: coord(pos, 0), y: coord(pos, 1), z: coord(pos, 2), style }
    }

    /// A label visual anchored at `pos`, with coordinates as in `point_at`.
    pub fn label_at(pos: &[u64], alignment: TextAlignment) -> (r: Visual)
        ensures
            r == (Visual::Label {
                x: coord_at(pos@, 0),
                y: coord_at(pos@, 1),
                z: coord_at(pos@, 2),
                alignment,
            }),
    {
        Visual::Label { x: coord(pos, 0), y: coord(pos, 1), z: coord(pos, 2), alignment }
    }

    /// A line visual from `pos1` to `pos2`, with coordinates as in `point_at`.
    pub fn line_between(pos1: &[u64], pos2: &[u64], style: LineStyle) -> (r: Visual)
        ensures
            r == (Visual::Line {
                x1: coord_at(pos1@, 0),
                y1: coord_at(pos1@, 1),
                z1: coord_at(pos1@, 2),
                x2: coord_at(pos2@, 0),
                y2: coord_at(pos2@, 1),
                z2: coord_at(pos2@, 2),
                style,
            }),
    {
        Visual::Line {
            x1: coord(pos1, 0),
            y1: coord(pos1, 1),
            z1: coord(pos1, 2),
            x2: coord(pos2, 0),
            y2: coord(pos2, 1),
            z2: coord(pos2, 2),
            style,
        }
    }
}

} // verus!
