//! Points, sizes and axis-aligned boxes on the integer lattice.

use euclid::default::{Box2D, Point2D};
use vstd::prelude::*;

verus! {

/// A position on the lattice.
#[derive(Clone, Copy, Debug, PartialEq, Eq, Structural)]
pub struct Point {
    pub x: i32,
    pub y: i32,
}

/// A width and a height.
#[derive(Clone, Copy, Debug, PartialEq, Eq, Structural)]
pub struct Size {
    pub width: i32,
    pub height: i32,
}

/// An axis-aligned box given by its two corners. A box whose `max` is not
/// strictly beyond its `min` on both axes has no interior.
#[derive(Clone, Copy, Debug, PartialEq, Eq, Structural)]
pub struct Rect {
    pub min: Point,
    pub max: Point,
}

pub type DevicePoint = Point;

pub type DeviceRect = Rect;

pub type DeviceIntRect = Rect;

pub type DeviceIntSize = Size;

pub type LayoutPoint = Point;

pub type LayoutSize = Size;

pub type LayoutVector2D = Size;

pub type LayoutRect = Rect;

/// A box whose coordinates are in layout space or in device space, depending
/// on what the caller has already mapped.
pub type LayoutOrDeviceRect = Rect;

impl Point {
    pub fn new(x: i32, y: i32) -> (p: Point)
        ensures
            p == (Point { x, y }),
    {
        Point { x, y }
    }
}

impl Size {
    pub fn new(width: i32, height: i32) -> (s: Size)
        ensures
            s == (Size { width, height }),
    {
        Size { width, height }
    }

    /// A size is empty when either extent is zero or negative.
    pub open spec fn spec_is_empty(&self) -> bool {
        self.width <= 0 || self.height <= 0
    }

    #[verifier::when_used_as_spec(spec_is_empty)]
    pub fn is_empty(&self) -> (r: bool)
        ensures
            r == self.spec_is_empty(),
    {
        self.width <= 0 || self.height <= 0
    }
}

impl Rect {
    pub fn new(min: Point, max: Point) -> (r: Rect)
        ensures
            r == (Rect { min, max }),
    {
        Rect { min, max }
    }

    /// The box from `origin` to `origin` plus `size`, its far corner kept
    /// within the coordinate range.
    pub open spec fn spec_from_origin_and_size(origin: Point, size: Size) -> Rect {
        Rect {
            min: origin,
            max: Point {
                x: clamp_coord(origin.x + size.width) as i32,
                y: clamp_coord(origin.y + size.height) as i32,
            },
        }
    }

    #[verifier::when_used_as_spec(spec_from_origin_and_size)]
    pub fn from_origin_and_size(origin: Point, size: Size) -> (r: Rect)
        ensures
            r == Rect::spec_from_origin_and_size(origin, size),
    {
        Rect {
            min: origin,
            max: Point {
                x: add_clamped(origin.x, size.width),
                y: add_clamped(origin.y, size.height),
            },
        }
    }

    pub fn zero() -> (r: Rect)
        ensures
            r == Rect::spec_zero(),
    {
        Rect { min: Point { x: 0, y: 0 }, max: Point { x: 0, y: 0 } }
    }

    pub open spec fn spec_zero() -> Rect {
        Rect { min: Point { x: 0, y: 0 }, max: Point { x: 0, y: 0 } }
    }

    /// The box that contains every representable position.
    pub open spec fn spec_max_rect() -> Rect {
        Rect {
            min: Point { x: i32::MIN, y: i32::MIN },
            max: Point { x: i32::MAX, y: i32::MAX },
        }
    }

    pub fn max_rect() -> (r: Rect)
        ensures
            r == Rect::spec_max_rect(),
    {
        Rect {
            min: Point { x: i32::MIN, y: i32::MIN },
            max: Point { x: i32::MAX, y: i32::MAX },
        }
    }

    /// Signed horizontal extent; negative when the corners are swapped.
    pub open spec fn spec_width(&self) -> int {
        self.max.x - self.min.x
    }

    /// Signed vertical extent; negative when the corners are swapped.
    pub open spec fn spec_height(&self) -> int {
        self.max.y - self.min.y
    }

    pub fn width(&self) -> (w: i64)
        ensures
            w == self.spec_width(),
    {
        self.max.x as i64 - self.min.x as i64
    }

    pub fn height(&self) -> (h: i64)
        ensures
            h == self.spec_height(),
    {
        self.max.y as i64 - self.min.y as i64
    }

    /// Neither corner coordinate pair is swapped.
    pub open spec fn is_ordered(&self) -> bool {
        self.min.x <= self.max.x && self.min.y <= self.max.y
    }

    /// The box has no interior.
    pub open spec fn spec_is_empty(&self) -> bool {
        !(self.max.x > self.min.x && self.max.y > self.min.y)
    }

    #[verifier::when_used_as_spec(spec_is_empty)]
    pub fn is_empty(&self) -> (r: bool)
        ensures
            r == self.spec_is_empty(),
    {
        !(self.max.x > self.min.x && self.max.y > self.min.y)
    }

    /// `p` lies in the box; the `min` edges belong to it, the `max` edges
    /// do not.
    pub open spec fn spec_contains(&self, p: Point) -> bool {
        &&& self.min.x <= p.x < self.max.x
        &&& self.min.y <= p.y < self.max.y
    }

    #[verifier::when_used_as_spec(spec_contains)]
    pub fn contains(&self, p: Point) -> (r: bool)
        ensures
            r == self.spec_contains(p),
    {
        self.min.x <= p.x && p.x < self.max.x && self.min.y <= p.y && p.y < self.max.y
    }

    /// The interiors of the two boxes overlap, judged by strict comparison
    /// of the opposite edges. A box without interior can still intersect
    /// another when it lies strictly inside it.
    pub open spec fn spec_intersects(&self, other: Rect) -> bool {
        &&& self.min.x < other.max.x
        &&& self.max.x > other.min.x
        &&& self.min.y < other.max.y
        &&& self.max.y > other.min.y
    }

    /// `other` has no interior, or lies within `self` edge by edge.
    pub open spec fn spec_contains_box(&self, other: Rect) -> bool {
        other.spec_is_empty() || {
            &&& self.min.x <= other.min.x
            &&& other.max.x <= self.max.x
            &&& self.min.y <= other.min.y
            &&& other.max.y <= self.max.y
        }
    }

    /// The common part of two boxes, with swapped corners when they are
    /// disjoint.
    pub open spec fn spec_intersection_unchecked(&self, other: Rect) -> Rect {
        Rect {
            min: Point {
                x: if self.min.x >= other.min.x { self.min.x } else { other.min.x },
                y: if self.min.y >= other.min.y { self.min.y } else { other.min.y },
            },
            max: Point {
                x: if self.max.x <= other.max.x { self.max.x } else { other.max.x },
                y: if self.max.y <= other.max.y { self.max.y } else { other.max.y },
            },
        }
    }

    /// The common part of two boxes, absent when it has no interior.
    pub open spec fn spec_intersection(&self, other: Rect) -> Option<Rect> {
        let b = self.spec_intersection_unchecked(other);
        if b.spec_is_empty() {
            None
        } else {
            Some(b)
        }
    }

    pub fn intersects(&self, other: &Rect) -> (r: bool)
        ensures
            r == self.spec_intersects(*other),
    {
        box_intersects(self, other)
    }

    pub fn contains_box(&self, other: &Rect) -> (r: bool)
        ensures
            r == self.spec_contains_box(*other),
    {
        box_contains_box(self, other)
    }

    pub fn intersection_unchecked(&self, other: &Rect) -> (r: Rect)
        ensures
            r == self.spec_intersection_unchecked(*other),
    {
        Rect {
            min: Point {
                x: if self.min.x >= other.min.x { self.min.x } else { other.min.x },
                y: if self.min.y >= other.min.y { self.min.y } else { other.min.y },
            },
            max: Point {
                x: if self.max.x <= other.max.x { self.max.x } else { other.max.x },
                y: if self.max.y <= other.max.y { self.max.y } else { other.max.y },
            },
        }
    }

    /// The box grown by `width` on the left and right and by `height` on
    /// the top and bottom, its edges kept within the coordinate range.
    pub open spec fn spec_inflate(&self, width: i32, height: i32) -> Rect {
        Rect {
            min: Point {
                x: clamp_coord(self.min.x - width) as i32,
                y: clamp_coord(self.min.y - height) as i32,
            },
            max: Point {
                x: clamp_coord(self.max.x + width) as i32,
                y: clamp_coord(self.max.y + height) as i32,
            },
        }
    }

    pub fn inflate(&self, width: i32, height: i32) -> (r: Rect)
        ensures
            r == self.spec_inflate(width, height),
    {
        Rect {
            min: Point { x: sub_clamped(self.min.x, width), y: sub_clamped(self.min.y, height) },
            max: Point { x: add_clamped(self.max.x, width), y: add_clamped(self.max.y, height) },
        }
    }

    /// The extent of the box, each side kept within the coordinate range.
    pub open spec fn spec_size(&self) -> Size {
        Size {
            width: clamp_coord(self.max.x - self.min.x) as i32,
            height: clamp_coord(self.max.y - self.min.y) as i32,
        }
    }

    #[verifier::when_used_as_spec(spec_size)]
    pub fn size(&self) -> (r: Size)
        ensures
            r == self.spec_size(),
    {
        let w: i64 = self.width();
        let h: i64 = self.height();
        Size {
            width: if w > i32::MAX as i64 {
                i32::MAX
            } else if w < i32::MIN as i64 {
                i32::MIN
            } else {
                w as i32
            },
            height: if h > i32::MAX as i64 {
                i32::MAX
            } else if h < i32::MIN as i64 {
                i32::MIN
            } else {
                h as i32
            },
        }
    }

    pub fn intersection(&self, other: &Rect) -> (r: Option<Rect>)
        ensures
            r == self.spec_intersection(*other),
    {
        box_intersection(self, other)
    }
}

/// The nearest 32-bit coordinate to `v`.
pub open spec fn clamp_coord(v: int) -> int {
    if v < i32::MIN {
        i32::MIN as int
    } else if v > i32::MAX {
        i32::MAX as int
    } else {
        v
    }
}

/// A transform that scales each axis by a whole factor and then shifts it.
/// Results beyond the coordinate range stay at its ends.
#[derive(Clone, Copy, Debug, PartialEq, Eq, Structural)]
pub struct ScaleOffset {
    pub scale: Point,
    pub offset: Point,
}

impl ScaleOffset {
    pub open spec fn spec_identity() -> ScaleOffset {
        ScaleOffset { scale: Point { x: 1, y: 1 }, offset: Point { x: 0, y: 0 } }
    }

    #[verifier::when_used_as_spec(spec_identity)]
    pub fn identity() -> (t: ScaleOffset)
        ensures
            t == ScaleOffset::spec_identity(),
    {
        ScaleOffset { scale: Point { x: 1, y: 1 }, offset: Point { x: 0, y: 0 } }
    }

    /// Where the transform sends the horizontal coordinate `x`.
    pub open spec fn map_x(&self, x: int) -> int {
        clamp_coord(x * self.scale.x + self.offset.x)
    }

    /// Where the transform sends the vertical coordinate `y`.
    pub open spec fn map_y(&self, y: int) -> int {
        clamp_coord(y * self.scale.y + self.offset.y)
    }

    /// The image of a box: the images of its corners, exchanged on an axis
    /// whose factor is negative.
    pub open spec fn spec_map_rect(&self, rect: Rect) -> Rect {
        let x0 = self.map_x(rect.min.x as int) as i32;
        let x1 = self.map_x(rect.max.x as int) as i32;
        let y0 = self.map_y(rect.min.y as int) as i32;
        let y1 = self.map_y(rect.max.y as int) as i32;
        Rect {
            min: Point {
                x: if self.scale.x >= 0 { x0 } else { x1 },
                y: if self.scale.y >= 0 { y0 } else { y1 },
            },
            max: Point {
                x: if self.scale.x >= 0 { x1 } else { x0 },
                y: if self.scale.y >= 0 { y1 } else { y0 },
            },
        }
    }

    /// The image of an extent: scaled, not shifted.
    pub open spec fn spec_map_size(&self, size: Size) -> Size {
        Size {
            width: clamp_coord(size.width * self.scale.x) as i32,
            height: clamp_coord(size.height * self.scale.y) as i32,
        }
    }

    pub fn map_rect(&self, rect: &Rect) -> (r: Rect)
        ensures
            r == self.spec_map_rect(*rect),
    {
        let x0 = scale_then_shift(rect.min.x, self.scale.x, self.offset.x);
        let x1 = scale_then_shift(rect.max.x, self.scale.x, self.offset.x);
        let y0 = scale_then_shift(rect.min.y, self.scale.y, self.offset.y);
        let y1 = scale_then_shift(rect.max.y, self.scale.y, self.offset.y);
        Rect {
            min: Point {
                x: if self.scale.x >= 0 { x0 } else { x1 },
                y: if self.scale.y >= 0 { y0 } else { y1 },
            },
            max: Point {
                x: if self.scale.x >= 0 { x1 } else { x0 },
                y: if self.scale.y >= 0 { y1 } else { y0 },
            },
        }
    }

    pub fn map_size(&self, size: &Size) -> (r: Size)
        ensures
            r == self.spec_map_size(*size),
    {
        Size {
            width: scale_then_shift(size.width, self.scale.x, 0),
            height: scale_then_shift(size.height, self.scale.y, 0),
        }
    }
}

/// `v * scale + offset`, kept within the coordinate range.
pub fn scale_then_shift(v: i32, scale: i32, offset: i32) -> (r: i32)
    ensures
        r == clamp_coord(v * scale + offset),
{
    assert(-0x4000_0000_0000_0000 <= v * scale <= 0x4000_0000_0000_0000) by (nonlinear_arith)
        requires
            -0x8000_0000 <= v <= 0x8000_0000,
            -0x8000_0000 <= scale <= 0x8000_0000,
    ;
    let wide: i64 = v as i64 * scale as i64 + offset as i64;
    if wide < i32::MIN as i64 {
        i32::MIN
    } else if wide > i32::MAX as i64 {
        i32::MAX
    } else {
        wide as i32
    }
}

/// `a + b`, kept within the coordinate range.
pub fn add_clamped(a: i32, b: i32) -> (r: i32)
    ensures
        r == clamp_coord(a + b),
{
    let wide: i64 = a as i64 + b as i64;
    if wide < i32::MIN as i64 {
        i32::MIN
    } else if wide > i32::MAX as i64 {
        i32::MAX
    } else {
        wide as i32
    }
}

/// `a - b`, kept within the coordinate range.
pub fn sub_clamped(a: i32, b: i32) -> (r: i32)
    ensures
        r == clamp_coord(a - b),
{
    let wide: i64 = a as i64 - b as i64;
    if wide < i32::MIN as i64 {
        i32::MIN
    } else if wide > i32::MAX as i64 {
        i32::MAX
    } else {
        wide as i32
    }
}

/// Calls `euclid::Box2D::intersects` on the two boxes. The contract restates
/// its four strict comparisons of opposite edges.
#[verifier::external_body]
fn box_intersects(a: &Rect, b: &Rect) -> (r: bool)
    ensures
        r == a.spec_intersects(*b),
{
    let a = Box2D::new(Point2D::new(a.min.x, a.min.y), Point2D::new(a.max.x, a.max.y));
    let b = Box2D::new(Point2D::new(b.min.x, b.min.y), Point2D::new(b.max.x, b.max.y));
    a.intersects(&b)
}

/// Calls `euclid::Box2D::contains_box`. The contract restates it: true when
/// `b` has no interior, else the four edge comparisons.
#[verifier::external_body]
fn box_contains_box(a: &Rect, b: &Rect) -> (r: bool)
    ensures
        r == a.spec_contains_box(*b),
{
    let a = Box2D::new(Point2D::new(a.min.x, a.min.y), Point2D::new(a.max.x, a.max.y));
    let b = Box2D::new(Point2D::new(b.min.x, b.min.y), Point2D::new(b.max.x, b.max.y));
    a.contains_box(&b)
}

/// Calls `euclid::Box2D::intersection`. The contract restates it: the larger
/// of the two `min` corners and the smaller of the two `max` corners per
/// axis, or nothing when that box has no interior.
#[verifier::external_body]
fn box_intersection(a: &Rect, b: &Rect) -> (r: Option<Rect>)
    ensures
        r == a.spec_intersection(*b),
{
    let a = Box2D::new(Point2D::new(a.min.x, a.min.y), Point2D::new(a.max.x, a.max.y));
    let b = Box2D::new(Point2D::new(b.min.x, b.min.y), Point2D::new(b.max.x, b.max.y));
    match a.intersection(&b) {
        Some(c) => Some(Rect { min: Point { x: c.min.x, y: c.min.y }, max: Point { x: c.max.x, y: c.max.y } }),
        None => None,
    }
}

} // verus!
