//! Plain integer points, sizes and rectangles.

use vstd::prelude::*;

verus! {

/// A point with unsigned integer coordinates.
#[derive(Clone, Copy, Debug, PartialEq, Eq, Structural)]
pub struct Point2D {
    pub x: u32,
    pub y: u32,
}

/// A size with unsigned integer dimensions.
#[derive(Clone, Copy, Debug, PartialEq, Eq, Structural)]
pub struct Size2D {
    pub width: u32,
    pub height: u32,
}

/// An axis-aligned rectangle given by its top-left origin and its size.
#[derive(Clone, Copy, Debug, PartialEq, Eq, Structural)]
pub struct Rect {
    pub origin: Point2D,
    pub size: Size2D,
}

/// A size with signed dimensions.
#[derive(Clone, Copy, Debug, PartialEq, Eq, Structural)]
pub struct Size2DI32 {
    pub width: i32,
    pub height: i32,
}

/// A point with signed 16-bit coordinates, as found in glyph outlines.
#[derive(Clone, Copy, Debug, PartialEq, Eq, Structural)]
pub struct Point2DI16 {
    pub x: i16,
    pub y: i16,
}

impl Point2D {
    /// Creates a point.
    pub fn new(x: u32, y: u32) -> (r: Point2D)
        ensures
            r.x == x,
            r.y == y,
    {
        Point2D { x, y }
    }
}

impl Size2D {
    /// Creates a size.
    pub fn new(width: u32, height: u32) -> (r: Size2D)
        ensures
            r.width == width,
            r.height == height,
    {
        Size2D { width, height }
    }
}

/// The right edge of a rectangle (exclusive).
pub open spec fn max_x(r: Rect) -> int {
    r.origin.x + r.size.width
}

/// The bottom edge of a rectangle (exclusive).
pub open spec fn max_y(r: Rect) -> int {
    r.origin.y + r.size.height
}

/// True when two rectangles share an interior point, in the sense of `euclid`'s
/// `Rect::intersects`: each starts strictly before the other ends, on both axes.
pub open spec fn intersects(a: Rect, b: Rect) -> bool {
    a.origin.x < max_x(b) && b.origin.x < max_x(a) && a.origin.y < max_y(b) && b.origin.y < max_y(
        a,
    )
}

/// True when `inner` lies within `outer`.
pub open spec fn contained_in(inner: Rect, outer: Rect) -> bool {
    outer.origin.x <= inner.origin.x && max_x(inner) <= max_x(outer) && outer.origin.y
        <= inner.origin.y && max_y(inner) <= max_y(outer)
}

/// The area of a rectangle.
pub open spec fn area(r: Rect) -> int {
    r.size.width * r.size.height
}

/// True when a rectangle has zero width or zero height.
pub open spec fn is_empty(r: Rect) -> bool {
    r.size.width == 0 || r.size.height == 0
}

/// A rectangle that does not meet `o` has no part inside it that meets `o`.
pub proof fn lemma_contained_no_intersect(inner: Rect, outer: Rect, o: Rect)
    requires
        contained_in(inner, outer),
        !intersects(outer, o),
    ensures
        !intersects(inner, o),
        !intersects(o, inner),
{
}

} // verus!
