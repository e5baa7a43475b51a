//! Integer window geometry: points, sizes, rectangles, content masks and
//! the quad primitives handed to the renderer.
//!
//! Coordinates are logical pixels as signed integers, kept within
//! [`COORD_LIMIT`] so that sums and differences never overflow `i64`.

use vstd::prelude::*;

verus! {

/// Largest magnitude a coordinate may have. Small enough that any sum of
/// two in-range coordinates fits in an `i64` with room to spare.
pub const COORD_LIMIT: i64 = 0x4000_0000_0000;

/// A location in the window, in logical pixels.
#[derive(Clone, Copy, Debug, PartialEq, Eq, Structural)]
pub struct Point {
    /// Horizontal position, growing rightwards.
    pub x: i64,
    /// Vertical position, growing downwards.
    pub y: i64,
}

/// The extent of a rectangle, in logical pixels.
#[derive(Clone, Copy, Debug, PartialEq, Eq, Structural)]
pub struct Size {
    /// Horizontal extent.
    pub width: i64,
    /// Vertical extent.
    pub height: i64,
}

/// An axis-aligned rectangle: an origin (top-left corner) and a size.
#[derive(Clone, Copy, Debug, PartialEq, Eq, Structural)]
pub struct Bounds {
    /// The top-left corner.
    pub origin: Point,
    /// The extent to the right of and below the origin.
    pub size: Size,
}

impl Point {
    /// Whether both coordinates are within [`COORD_LIMIT`].
    pub open spec fn wf(self) -> bool {
        -COORD_LIMIT <= self.x <= COORD_LIMIT && -COORD_LIMIT <= self.y <= COORD_LIMIT
    }

    /// Builds the point `(x, y)`.
    pub fn new(x: i64, y: i64) -> (r: Point)
        ensures
            r == (Point { x, y }),
    {
        Point { x, y }
    }
}

impl Size {
    /// Whether the extents are non-negative and within [`COORD_LIMIT`].
    pub open spec fn wf(self) -> bool {
        0 <= self.width <= COORD_LIMIT && 0 <= self.height <= COORD_LIMIT
    }

    /// Builds the size `width` by `height`.
    pub fn new(width: i64, height: i64) -> (r: Size)
        ensures
            r == (Size { width, height }),
    {
        Size { width, height }
    }
}

impl Bounds {
    /// Whether the origin is in range and the size non-negative and in range.
    pub open spec fn wf(self) -> bool {
        self.origin.wf() && self.size.wf()
    }

    /// The x coordinate one past the right edge, as a mathematical integer.
    pub open spec fn spec_right(self) -> int {
        self.origin.x + self.size.width
    }

    /// The y coordinate one past the bottom edge, as a mathematical integer.
    pub open spec fn spec_bottom(self) -> int {
        self.origin.y + self.size.height
    }

    /// Whether `p` falls inside the rectangle (left/top edges inclusive,
    /// right/bottom edges exclusive).
    pub open spec fn spec_contains(self, p: Point) -> bool {
        &&& self.origin.x <= p.x < self.spec_right()
        &&& self.origin.y <= p.y < self.spec_bottom()
    }

    /// The common part of two rectangles, with an empty (zero) extent where
    /// they do not overlap on an axis.
    pub open spec fn spec_intersect(self, other: Bounds) -> Bounds {
        let x0 = if self.origin.x >= other.origin.x {
            self.origin.x as int
        } else {
            other.origin.x as int
        };
        let y0 = if self.origin.y >= other.origin.y {
            self.origin.y as int
        } else {
            other.origin.y as int
        };
        let x1 = if self.spec_right() <= other.spec_right() {
            self.spec_right()
        } else {
            other.spec_right()
        };
        let y1 = if self.spec_bottom() <= other.spec_bottom() {
            self.spec_bottom()
        } else {
            other.spec_bottom()
        };
        let w = if x1 - x0 >= 0 {
            x1 - x0
        } else {
            0
        };
        let h = if y1 - y0 >= 0 {
            y1 - y0
        } else {
            0
        };
        Bounds {
            origin: Point { x: x0 as i64, y: y0 as i64 },
            size: Size { width: w as i64, height: h as i64 },
        }
    }

    /// Builds the rectangle with the given corner and extent.
    pub fn new(origin: Point, size: Size) -> (r: Bounds)
        ensures
            r == (Bounds { origin, size }),
    {
        Bounds { origin, size }
    }

    /// Whether the rectangle covers no area.
    pub fn is_empty(&self) -> (r: bool)
        ensures
            r == (self.size.width <= 0 || self.size.height <= 0),
    {
        self.size.width <= 0 || self.size.height <= 0
    }

    /// Whether `p` falls inside the rectangle.
    pub fn contains(&self, p: &Point) -> (r: bool)
        requires
            self.wf(),
            p.wf(),
        ensures
            r == self.spec_contains(*p),
    {
        self.origin.x <= p.x && p.x - self.origin.x < self.size.width && self.origin.y <= p.y
            && p.y - self.origin.y < self.size.height
    }

    /// The common part of two rectangles; an empty rectangle where they are
    /// disjoint.
    pub fn intersect(&self, other: &Bounds) -> (r: Bounds)
        requires
            self.wf(),
            other.wf(),
        ensures
            r == self.spec_intersect(*other),
            r.wf(),
    {
        let x0: i64 = if self.origin.x >= other.origin.x {
            self.origin.x
        } else {
            other.origin.x
        };
        let y0: i64 = if self.origin.y >= other.origin.y {
            self.origin.y
        } else {
            other.origin.y
        };
        let self_right: i64 = self.origin.x + self.size.width;
        let other_right: i64 = other.origin.x + other.size.width;
        let self_bottom: i64 = self.origin.y + self.size.height;
        let other_bottom: i64 = other.origin.y + other.size.height;
        let x1: i64 = if self_right <= other_right {
            self_right
        } else {
            other_right
        };
        let y1: i64 = if self_bottom <= other_bottom {
            self_bottom
        } else {
            other_bottom
        };
        let w: i64 = if x1 - x0 >= 0 {
            x1 - x0
        } else {
            0
        };
        let h: i64 = if y1 - y0 >= 0 {
            y1 - y0
        } else {
            0
        };
        Bounds { origin: Point { x: x0, y: y0 }, size: Size { width: w, height: h } }
    }
}

/// The region of the window in which content is visible; content outside
/// the mask is clipped. Only rectangular masks are supported.
#[derive(Clone, Copy, Debug, PartialEq, Eq, Structural)]
pub struct ContentMask {
    /// The visible region.
    pub bounds: Bounds,
}

impl ContentMask {
    /// Intersects this mask with another, yielding the region visible
    /// under both.
    pub fn intersect(&self, other: &Self) -> (r: Self)
        requires
            self.bounds.wf(),
            other.bounds.wf(),
        ensures
            r.bounds == self.bounds.spec_intersect(other.bounds),
            r.bounds.wf(),
    {
        let bounds = self.bounds.intersect(&other.bounds);
        ContentMask { bounds }
    }
}

/// Per-corner radii of a quad.
#[derive(Clone, Copy, Debug, PartialEq, Eq, Structural)]
pub struct Corners {
    /// Radius of the top-left corner.
    pub top_left: i64,
    /// Radius of the top-right corner.
    pub top_right: i64,
    /// Radius of the bottom-right corner.
    pub bottom_right: i64,
    /// Radius of the bottom-left corner.
    pub bottom_left: i64,
}

impl Corners {
    /// The same radius on all four corners.
    pub fn all(r: i64) -> (c: Corners)
        ensures
            c == (Corners { top_left: r, top_right: r, bottom_right: r, bottom_left: r }),
    {
        Corners { top_left: r, top_right: r, bottom_right: r, bottom_left: r }
    }
}

/// Per-edge widths of a quad's border.
#[derive(Clone, Copy, Debug, PartialEq, Eq, Structural)]
pub struct Edges {
    /// Width of the top border.
    pub top: i64,
    /// Width of the right border.
    pub right: i64,
    /// Width of the bottom border.
    pub bottom: i64,
    /// Width of the left border.
    pub left: i64,
}

impl Edges {
    /// The same width on all four edges.
    pub fn all(w: i64) -> (e: Edges)
        ensures
            e == (Edges { top: w, right: w, bottom: w, left: w }),
    {
        Edges { top: w, right: w, bottom: w, left: w }
    }
}

/// A color in HSL space with an alpha channel, each channel scaled to
/// thousandths (0 is none, 1000 is full).
#[derive(Clone, Copy, Debug, PartialEq, Eq, Structural)]
pub struct Hsla {
    /// Hue, in thousandths of a turn.
    pub h: u16,
    /// Saturation, in thousandths.
    pub s: u16,
    /// Lightness, in thousandths.
    pub l: u16,
    /// Opacity, in thousandths.
    pub a: u16,
}

/// Black with zero opacity.
pub fn transparent_black() -> (r: Hsla)
    ensures
        r == (Hsla { h: 0, s: 0, l: 0, a: 0 }),
{
    Hsla { h: 0, s: 0, l: 0, a: 0 }
}

/// A rectangle to be rendered in the window at the given position and size.
#[derive(Clone, Copy, Debug, PartialEq, Eq, Structural)]
pub struct PaintQuad {
    /// The bounds of the quad within the window.
    pub bounds: Bounds,
    /// The radii of the quad's corners.
    pub corner_radii: Corners,
    /// The background color of the quad.
    pub background: Hsla,
    /// The widths of the quad's borders.
    pub border_widths: Edges,
    /// The color of the quad's borders.
    pub border_color: Hsla,
}

impl PaintQuad {
    /// Replaces the corner radii of the quad.
    pub fn corner_radii(self, corner_radii: Corners) -> (r: PaintQuad)
        ensures
            r == (PaintQuad { corner_radii, ..self }),
    {
        PaintQuad { corner_radii, ..self }
    }

    /// Replaces the border widths of the quad.
    pub fn border_widths(self, border_widths: Edges) -> (r: PaintQuad)
        ensures
            r == (PaintQuad { border_widths, ..self }),
    {
        PaintQuad { border_widths, ..self }
    }

    /// Replaces the border color of the quad.
    pub fn border_color(self, border_color: Hsla) -> (r: PaintQuad)
        ensures
            r == (PaintQuad { border_color, ..self }),
    {
        PaintQuad { border_color, ..self }
    }

    /// Replaces the background color of the quad.
    pub fn background(self, background: Hsla) -> (r: PaintQuad)
        ensures
            r == (PaintQuad { background, ..self }),
    {
        PaintQuad { background, ..self }
    }
}

/// Builds a quad with the given parameters.
pub fn quad(
    bounds: Bounds,
    corner_radii: Corners,
    background: Hsla,
    border_widths: Edges,
    border_color: Hsla,
) -> (r: PaintQuad)
    ensures
        r == (PaintQuad { bounds, corner_radii, background, border_widths, border_color }),
{
    PaintQuad { bounds, corner_radii, background, border_widths, border_color }
}

/// Builds a filled quad with the given bounds and background color and no
/// border.
pub fn fill(bounds: Bounds, background: Hsla) -> (r: PaintQuad)
    ensures
        r == (PaintQuad {
            bounds,
            corner_radii: Corners { top_left: 0, top_right: 0, bottom_right: 0, bottom_left: 0 },
            background,
            border_widths: Edges { top: 0, right: 0, bottom: 0, left: 0 },
            border_color: Hsla { h: 0, s: 0, l: 0, a: 0 },
        }),
{
    PaintQuad {
        bounds,
        corner_radii: Corners::all(0),
        background,
        border_widths: Edges::all(0),
        border_color: transparent_black(),
    }
}

/// Builds a rectangle outline with the given bounds and border color, a
/// one-pixel border and no background.
pub fn outline(bounds: Bounds, border_color: Hsla) -> (r: PaintQuad)
    ensures
        r == (PaintQuad {
            bounds,
            corner_radii: Corners { top_left: 0, top_right: 0, bottom_right: 0, bottom_left: 0 },
            background: Hsla { h: 0, s: 0, l: 0, a: 0 },
            border_widths: Edges { top: 1, right: 1, bottom: 1, left: 1 },
            border_color,
        }),
{
    PaintQuad {
        bounds,
        corner_radii: Corners::all(0),
        background: transparent_black(),
        border_widths: Edges::all(1),
        border_color,
    }
}

} // verus!
