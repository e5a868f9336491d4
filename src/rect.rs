//! Rectangles of whole physical pixels, used for clipping and scissoring.
use vstd::prelude::*;

verus! {

/// The smaller of two integers.
pub open spec fn min_of(a: int, b: int) -> int {
    if a <= b { a } else { b }
}

/// The larger of two integers.
pub open spec fn max_of(a: int, b: int) -> int {
    if a >= b { a } else { b }
}

/// An axis-aligned rectangle in physical pixels: `min` is inclusive, `max` exclusive.
#[derive(Clone, Copy, Debug, PartialEq, Eq, Structural)]
pub struct PixelRect {
    pub min_x: u32,
    pub min_y: u32,
    pub max_x: u32,
    pub max_y: u32,
}

impl PixelRect {
    /// A rectangle holds no pixel when it has no extent along one of the axes.
    pub open spec fn empty(self) -> bool {
        self.max_x <= self.min_x || self.max_y <= self.min_y
    }

    /// Whether the pixel `(x, y)` lies inside the rectangle.
    pub open spec fn contains(self, x: int, y: int) -> bool {
        self.min_x <= x < self.max_x && self.min_y <= y < self.max_y
    }

    /// The overlap of two rectangles: the larger minimum and the smaller
    /// maximum on each axis, with a minimum past its maximum pulled back onto
    /// it, so that the overlap of disjoint rectangles is never inverted.
    pub open spec fn overlap(self, other: PixelRect) -> PixelRect {
        let max_x = min_of(self.max_x as int, other.max_x as int);
        let max_y = min_of(self.max_y as int, other.max_y as int);
        PixelRect {
            min_x: min_of(max_of(self.min_x as int, other.min_x as int), max_x) as u32,
            min_y: min_of(max_of(self.min_y as int, other.min_y as int), max_y) as u32,
            max_x: max_x as u32,
            max_y: max_y as u32,
        }
    }

    /// Builds the rectangle spanned by two corners, given in any order.
    pub fn new(x0: u32, y0: u32, x1: u32, y1: u32) -> (r: PixelRect)
        ensures
            r.min_x == min_of(x0 as int, x1 as int),
            r.min_y == min_of(y0 as int, y1 as int),
            r.max_x == max_of(x0 as int, x1 as int),
            r.max_y == max_of(y0 as int, y1 as int),
    {
        PixelRect {
            min_x: if x0 <= x1 { x0 } else { x1 },
            min_y: if y0 <= y1 { y0 } else { y1 },
            max_x: if x0 >= x1 { x0 } else { x1 },
            max_y: if y0 >= y1 { y0 } else { y1 },
        }
    }

    /// The rectangle `[0, width) x [0, height)` of a whole render target.
    pub fn from_size(width: u32, height: u32) -> (r: PixelRect)
        ensures
            r == (PixelRect { min_x: 0, min_y: 0, max_x: width, max_y: height }),
    {
        PixelRect { min_x: 0, min_y: 0, max_x: width, max_y: height }
    }

    /// The overlap of two rectangles, holding exactly the pixels that lie in
    /// both; it is never inverted, so its width and height can be taken.
    pub fn intersect(self, other: PixelRect) -> (r: PixelRect)
        ensures
            r == self.overlap(other),
            r.min_x <= r.max_x && r.min_y <= r.max_y,
            forall|x: int, y: int| r.contains(x, y) <==> (self.contains(x, y) && other.contains(x, y)),
    {
        let max_x = if self.max_x <= other.max_x { self.max_x } else { other.max_x };
        let max_y = if self.max_y <= other.max_y { self.max_y } else { other.max_y };
        let min_x = if self.min_x >= other.min_x { self.min_x } else { other.min_x };
        let min_y = if self.min_y >= other.min_y { self.min_y } else { other.min_y };
        PixelRect {
            min_x: if min_x <= max_x { min_x } else { max_x },
            min_y: if min_y <= max_y { min_y } else { max_y },
            max_x,
            max_y,
        }
    }

    /// Whether the rectangle holds no pixel.
    pub fn is_empty(&self) -> (r: bool)
        ensures
            r == self.empty(),
            r <==> !(exists|x: int, y: int| self.contains(x, y)),
    {
        if self.max_x <= self.min_x || self.max_y <= self.min_y {
            true
        } else {
            assert(self.contains(self.min_x as int, self.min_y as int));
            false
        }
    }

    /// Horizontal extent of a rectangle that is not inverted.
    pub fn width(&self) -> (r: u32)
        requires
            self.min_x <= self.max_x,
        ensures
            r == self.max_x - self.min_x,
    {
        self.max_x - self.min_x
    }

    /// Vertical extent of a rectangle that is not inverted.
    pub fn height(&self) -> (r: u32)
        requires
            self.min_y <= self.max_y,
        ensures
            r == self.max_y - self.min_y,
    {
        self.max_y - self.min_y
    }
}

} // verus!
