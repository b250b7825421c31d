//! Whole-unit geometry.
//!
//! Content space is the non-negative quadrant: extents ([`Size`]) and positions inside
//! the content ([`Offset`]) are unsigned 32-bit values. Pointer positions, movement
//! deltas and requested regions ([`Point`], [`Vec2`], [`Rect`]) are signed 64-bit
//! values, because they may lie outside the content. Every sum of a position and an
//! extent therefore fits the wider type.

use vstd::prelude::*;

verus! {

/// The extent that stands for "no bound": the upper limit of an unconstrained axis,
/// and the dimension of content that reports itself as infinitely large.
pub const UNBOUNDED: u32 = 0xffff_ffff;

/// One of the two axes of the plane.
#[derive(Clone, Copy, Debug, PartialEq, Eq, Structural)]
pub enum Axis {
    Horizontal,
    Vertical,
}

/// A position that may lie anywhere in the plane.
#[derive(Clone, Copy, Debug, PartialEq, Eq, Structural)]
pub struct Point {
    pub x: i64,
    pub y: i64,
}

/// A displacement.
#[derive(Clone, Copy, Debug, PartialEq, Eq, Structural)]
pub struct Vec2 {
    pub x: i64,
    pub y: i64,
}

/// A position inside the content, measured from the content's top-left corner.
#[derive(Clone, Copy, Debug, PartialEq, Eq, Structural)]
pub struct Offset {
    pub x: u32,
    pub y: u32,
}

/// A width and a height.
#[derive(Clone, Copy, Debug, PartialEq, Eq, Structural)]
pub struct Size {
    pub width: u32,
    pub height: u32,
}

/// An axis-aligned rectangle given by its near corner `(x0, y0)` and its far corner
/// `(x1, y1)`.
#[derive(Clone, Copy, Debug, PartialEq, Eq, Structural)]
pub struct Rect {
    pub x0: i64,
    pub y0: i64,
    pub x1: i64,
    pub y1: i64,
}

impl Axis {
    /// The other axis.
    pub open spec fn spec_cross(self) -> Axis {
        match self {
            Axis::Horizontal => Axis::Vertical,
            Axis::Vertical => Axis::Horizontal,
        }
    }

    /// The other axis.
    #[verifier::when_used_as_spec(spec_cross)]
    pub fn cross(self) -> (other: Axis)
        ensures
            other == self.spec_cross(),
    {
        match self {
            Axis::Horizontal => Axis::Vertical,
            Axis::Vertical => Axis::Horizontal,
        }
    }

    /// The extent of `size` along this axis.
    pub open spec fn spec_major(self, size: Size) -> u32 {
        match self {
            Axis::Horizontal => size.width,
            Axis::Vertical => size.height,
        }
    }

    /// The extent of `size` along this axis.
    #[verifier::when_used_as_spec(spec_major)]
    pub fn major(self, size: Size) -> (extent: u32)
        ensures
            extent == self.spec_major(size),
    {
        match self {
            Axis::Horizontal => size.width,
            Axis::Vertical => size.height,
        }
    }

    /// The extent of `size` across this axis.
    pub open spec fn spec_minor(self, size: Size) -> u32 {
        self.spec_cross().spec_major(size)
    }

    /// The extent of `size` across this axis.
    #[verifier::when_used_as_spec(spec_minor)]
    pub fn minor(self, size: Size) -> (extent: u32)
        ensures
            extent == self.spec_minor(size),
    {
        self.cross().major(size)
    }

    /// The coordinate of `point` along this axis.
    pub open spec fn spec_major_pos(self, point: Point) -> i64 {
        match self {
            Axis::Horizontal => point.x,
            Axis::Vertical => point.y,
        }
    }

    /// The coordinate of `point` along this axis.
    #[verifier::when_used_as_spec(spec_major_pos)]
    pub fn major_pos(self, point: Point) -> (coordinate: i64)
        ensures
            coordinate == self.spec_major_pos(point),
    {
        match self {
            Axis::Horizontal => point.x,
            Axis::Vertical => point.y,
        }
    }

    /// The coordinate of `point` across this axis.
    pub open spec fn spec_minor_pos(self, point: Point) -> i64 {
        self.spec_cross().spec_major_pos(point)
    }

    /// The coordinate of `point` across this axis.
    #[verifier::when_used_as_spec(spec_minor_pos)]
    pub fn minor_pos(self, point: Point) -> (coordinate: i64)
        ensures
            coordinate == self.spec_minor_pos(point),
    {
        self.cross().major_pos(point)
    }

    /// The coordinate of `offset` along this axis.
    pub open spec fn spec_major_offset(self, offset: Offset) -> u32 {
        match self {
            Axis::Horizontal => offset.x,
            Axis::Vertical => offset.y,
        }
    }

    /// The coordinate of `offset` along this axis.
    #[verifier::when_used_as_spec(spec_major_offset)]
    pub fn major_offset(self, offset: Offset) -> (coordinate: u32)
        ensures
            coordinate == self.spec_major_offset(offset),
    {
        match self {
            Axis::Horizontal => offset.x,
            Axis::Vertical => offset.y,
        }
    }

    /// Arranges a coordinate along this axis and one across it as `(x, y)`.
    pub open spec fn spec_pack(self, major: i64, minor: i64) -> (i64, i64) {
        match self {
            Axis::Horizontal => (major, minor),
            Axis::Vertical => (minor, major),
        }
    }

    /// Arranges a coordinate along this axis and one across it as `(x, y)`.
    #[verifier::when_used_as_spec(spec_pack)]
    pub fn pack(self, major: i64, minor: i64) -> (xy: (i64, i64))
        ensures
            xy == self.spec_pack(major, minor),
    {
        match self {
            Axis::Horizontal => (major, minor),
            Axis::Vertical => (minor, major),
        }
    }
}

impl Point {
    pub fn new(x: i64, y: i64) -> (point: Point)
        ensures
            point == (Point { x, y }),
    {
        Point { x, y }
    }
}

impl Vec2 {
    /// The displacement that moves nothing.
    pub fn zero() -> (delta: Vec2)
        ensures
            delta == (Vec2 { x: 0, y: 0 }),
    {
        Vec2 { x: 0, y: 0 }
    }

    pub fn new(x: i64, y: i64) -> (delta: Vec2)
        ensures
            delta == (Vec2 { x, y }),
    {
        Vec2 { x, y }
    }
}

impl Offset {
    /// The content's own top-left corner.
    pub fn zero() -> (offset: Offset)
        ensures
            offset == (Offset { x: 0, y: 0 }),
    {
        Offset { x: 0, y: 0 }
    }

    pub fn new(x: u32, y: u32) -> (offset: Offset)
        ensures
            offset == (Offset { x, y }),
    {
        Offset { x, y }
    }

    /// This position as a displacement from the content's top-left corner.
    pub open spec fn spec_to_vec2(self) -> Vec2 {
        Vec2 { x: self.x as i64, y: self.y as i64 }
    }

    /// This position as a displacement from the content's top-left corner.
    #[verifier::when_used_as_spec(spec_to_vec2)]
    pub fn to_vec2(self) -> (delta: Vec2)
        ensures
            delta == self.spec_to_vec2(),
            delta.x == self.x,
            delta.y == self.y,
    {
        Vec2 { x: self.x as i64, y: self.y as i64 }
    }
}

impl Size {
    /// The size with no extent.
    pub fn zero() -> (size: Size)
        ensures
            size == (Size { width: 0, height: 0 }),
    {
        Size { width: 0, height: 0 }
    }

    pub fn new(width: u32, height: u32) -> (size: Size)
        ensures
            size == (Size { width, height }),
    {
        Size { width, height }
    }
}

impl Rect {
    pub fn new(x0: i64, y0: i64, x1: i64, y1: i64) -> (rect: Rect)
        ensures
            rect == (Rect { x0, y0, x1, y1 }),
    {
        Rect { x0, y0, x1, y1 }
    }

    /// The rectangle of the given size whose near corner is `origin`.
    pub open spec fn spec_from_origin_size(origin: Offset, size: Size) -> Rect {
        Rect {
            x0: origin.x as i64,
            y0: origin.y as i64,
            x1: (origin.x + size.width) as i64,
            y1: (origin.y + size.height) as i64,
        }
    }

    /// The rectangle of the given size whose near corner is `origin`.
    #[verifier::when_used_as_spec(spec_from_origin_size)]
    pub fn from_origin_size(origin: Offset, size: Size) -> (rect: Rect)
        ensures
            rect == Rect::spec_from_origin_size(origin, size),
            rect.x0 == origin.x,
            rect.y0 == origin.y,
            rect.x1 == origin.x + size.width,
            rect.y1 == origin.y + size.height,
    {
        Rect {
            x0: origin.x as i64,
            y0: origin.y as i64,
            x1: origin.x as i64 + size.width as i64,
            y1: origin.y as i64 + size.height as i64,
        }
    }

    /// The rectangle that reaches from `near` to `far` along `axis` and from
    /// `cross_near` to `cross_far` across it.
    pub open spec fn spec_spanning(
        axis: Axis,
        near: i64,
        far: i64,
        cross_near: i64,
        cross_far: i64,
    ) -> Rect {
        let (x0, y0) = axis.spec_pack(near, cross_near);
        let (x1, y1) = axis.spec_pack(far, cross_far);
        Rect { x0, y0, x1, y1 }
    }

    /// The rectangle that reaches from `near` to `far` along `axis` and from
    /// `cross_near` to `cross_far` across it.
    #[verifier::when_used_as_spec(spec_spanning)]
    pub fn spanning(
        axis: Axis,
        near: i64,
        far: i64,
        cross_near: i64,
        cross_far: i64,
    ) -> (rect: Rect)
        ensures
            rect == Rect::spec_spanning(axis, near, far, cross_near, cross_far),
    {
        let (x0, y0) = axis.pack(near, cross_near);
        let (x1, y1) = axis.pack(far, cross_far);
        Rect { x0, y0, x1, y1 }
    }

    /// Neither far edge lies before its near edge.
    pub open spec fn is_proper(self) -> bool {
        self.x0 <= self.x1 && self.y0 <= self.y1
    }

    /// The edge that bounds the rectangle along `axis` on the side of the origin.
    pub open spec fn near(self, axis: Axis) -> i64 {
        match axis {
            Axis::Horizontal => self.x0,
            Axis::Vertical => self.y0,
        }
    }

    /// The edge that bounds the rectangle along `axis` on the side away from the origin.
    pub open spec fn far(self, axis: Axis) -> i64 {
        match axis {
            Axis::Horizontal => self.x1,
            Axis::Vertical => self.y1,
        }
    }

    /// The extent between the two edges that bound the rectangle along `axis`.
    pub open spec fn extent(self, axis: Axis) -> int {
        match axis {
            Axis::Horizontal => self.x1 - self.x0,
            Axis::Vertical => self.y1 - self.y0,
        }
    }

    /// Every point of `inner` lies in this rectangle, edges included.
    pub open spec fn encloses(self, inner: Rect) -> bool {
        &&& self.x0 <= inner.x0
        &&& inner.x1 <= self.x1
        &&& self.y0 <= inner.y0
        &&& inner.y1 <= self.y1
    }

    /// `point` lies in this rectangle; the near edges belong to it, the far edges do not.
    pub open spec fn spec_contains(self, point: Point) -> bool {
        self.x0 <= point.x < self.x1 && self.y0 <= point.y < self.y1
    }

    /// `point` lies in this rectangle; the near edges belong to it, the far edges do not.
    #[verifier::when_used_as_spec(spec_contains)]
    pub fn contains(self, point: Point) -> (inside: bool)
        ensures
            inside == self.spec_contains(point),
    {
        self.x0 <= point.x && point.x < self.x1 && self.y0 <= point.y && point.y < self.y1
    }
}

} // verus!
