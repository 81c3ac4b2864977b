//! Integer geometry for layout and hit testing.
//!
//! All coordinates are whole layout units. Arithmetic saturates at the ends of
//! the `i64` range, and `i64::MAX` stands for an unbounded extent.

use vstd::prelude::*;

verus! {

/// The extent used for "no upper bound".
pub const INFINITE: i64 = i64::MAX;

/// `x` brought into the range of `i64`.
pub open spec fn saturate(x: int) -> i64 {
    if x > i64::MAX {
        i64::MAX
    } else if x < i64::MIN {
        i64::MIN
    } else {
        x as i64
    }
}

pub open spec fn spec_min(a: int, b: int) -> int {
    if a <= b {
        a
    } else {
        b
    }
}

pub open spec fn spec_max(a: int, b: int) -> int {
    if a >= b {
        a
    } else {
        b
    }
}

/// `x` held between `lo` and `hi`; `hi` wins when the bounds cross.
pub open spec fn spec_clamp(x: int, lo: int, hi: int) -> int {
    spec_min(spec_max(x, lo), hi)
}

/// Saturating sum.
pub fn sat_add(a: i64, b: i64) -> (r: i64)
    ensures
        r == saturate(a + b),
{
    if b > 0 && a > i64::MAX - b {
        i64::MAX
    } else if b < 0 && a < i64::MIN - b {
        i64::MIN
    } else {
        a + b
    }
}

/// Saturating difference.
pub fn sat_sub(a: i64, b: i64) -> (r: i64)
    ensures
        r == saturate(a - b),
{
    if b < 0 && a > i64::MAX + b {
        i64::MAX
    } else if b > 0 && a < i64::MIN + b {
        i64::MIN
    } else {
        a - b
    }
}

pub fn min_i64(a: i64, b: i64) -> (r: i64)
    ensures
        r == spec_min(a as int, b as int),
{
    if a <= b {
        a
    } else {
        b
    }
}

pub fn max_i64(a: i64, b: i64) -> (r: i64)
    ensures
        r == spec_max(a as int, b as int),
{
    if a >= b {
        a
    } else {
        b
    }
}

pub fn clamp_i64(x: i64, lo: i64, hi: i64) -> (r: i64)
    ensures
        r == spec_clamp(x as int, lo as int, hi as int),
        lo <= hi ==> lo <= r <= hi,
{
    min_i64(max_i64(x, lo), hi)
}

/// A position.
#[derive(Clone, Copy, Debug, PartialEq, Eq, Structural)]
pub struct Point {
    pub x: i64,
    pub y: i64,
}

/// A displacement.
#[derive(Clone, Copy, Debug, PartialEq, Eq, Structural)]
pub struct Vec2 {
    pub x: i64,
    pub y: i64,
}

/// An extent. A well-formed size has no negative side.
#[derive(Clone, Copy, Debug, PartialEq, Eq, Structural)]
pub struct Size {
    pub width: i64,
    pub height: i64,
}

/// An axis-aligned rectangle given by two corners. It covers `x0 <= x < x1`,
/// `y0 <= y < y1`.
#[derive(Clone, Copy, Debug, PartialEq, Eq, Structural)]
pub struct Rect {
    pub x0: i64,
    pub y0: i64,
    pub x1: i64,
    pub y1: i64,
}

/// The direction along which children are placed.
#[derive(Clone, Copy, Debug, PartialEq, Eq, Structural)]
pub enum Axis {
    Horizontal,
    Vertical,
}

/// Where a child sits across the main axis.
#[derive(Clone, Copy, Debug, PartialEq, Eq, Structural)]
pub enum CrossAxisAlignment {
    Start,
    Center,
    End,
}

impl Point {
    /// The origin.
    pub fn zero() -> (r: Point)
        ensures
            r == (Point { x: 0, y: 0 }),
    {
        Point { x: 0, y: 0 }
    }

    pub fn new(x: i64, y: i64) -> (r: Point)
        ensures
            r == (Point { x, y }),
    {
        Point { x, y }
    }

    pub open spec fn spec_to_vec2(self) -> Vec2 {
        Vec2 { x: self.x, y: self.y }
    }

    pub fn to_vec2(self) -> (r: Vec2)
        ensures
            r == self.spec_to_vec2(),
    {
        Vec2 { x: self.x, y: self.y }
    }

    /// This point moved by `-v`.
    pub open spec fn spec_minus(self, v: Vec2) -> Point {
        Point { x: saturate(self.x - v.x), y: saturate(self.y - v.y) }
    }

    pub fn minus(self, v: Vec2) -> (r: Point)
        ensures
            r == self.spec_minus(v),
    {
        Point { x: sat_sub(self.x, v.x), y: sat_sub(self.y, v.y) }
    }

    /// This point moved by `v`.
    pub open spec fn spec_plus(self, v: Vec2) -> Point {
        Point { x: saturate(self.x + v.x), y: saturate(self.y + v.y) }
    }

    pub fn plus(self, v: Vec2) -> (r: Point)
        ensures
            r == self.spec_plus(v),
    {
        Point { x: sat_add(self.x, v.x), y: sat_add(self.y, v.y) }
    }
}

impl Vec2 {
    /// No displacement.
    pub fn zero() -> (r: Vec2)
        ensures
            r == (Vec2 { x: 0, y: 0 }),
    {
        Vec2 { x: 0, y: 0 }
    }

    pub fn new(x: i64, y: i64) -> (r: Vec2)
        ensures
            r == (Vec2 { x, y }),
    {
        Vec2 { x, y }
    }

    pub open spec fn spec_to_point(self) -> Point {
        Point { x: self.x, y: self.y }
    }

    pub fn to_point(self) -> (r: Point)
        ensures
            r == self.spec_to_point(),
    {
        Point { x: self.x, y: self.y }
    }
}

impl Size {
    /// The empty size.
    pub fn zero() -> (r: Size)
        ensures
            r == (Size { width: 0, height: 0 }),
    {
        Size { width: 0, height: 0 }
    }

    pub fn new(width: i64, height: i64) -> (r: Size)
        ensures
            r == (Size { width, height }),
    {
        Size { width, height }
    }

    /// Neither side is negative.
    pub open spec fn wf(self) -> bool {
        self.width >= 0 && self.height >= 0
    }

    pub open spec fn spec_is_infinite(self) -> bool {
        self.width == INFINITE || self.height == INFINITE
    }

    /// Whether a side is unbounded.
    pub fn is_infinite(self) -> (r: bool)
        ensures
            r == self.spec_is_infinite(),
    {
        self.width == INFINITE || self.height == INFINITE
    }

    pub open spec fn spec_to_rect(self) -> Rect {
        Rect { x0: 0, y0: 0, x1: self.width, y1: self.height }
    }

    /// The rectangle of this size at the origin.
    pub fn to_rect(self) -> (r: Rect)
        ensures
            r == self.spec_to_rect(),
    {
        Rect { x0: 0, y0: 0, x1: self.width, y1: self.height }
    }
}

impl Rect {
    /// The empty rectangle at the origin.
    pub fn zero() -> (r: Rect)
        ensures
            r == (Rect { x0: 0, y0: 0, x1: 0, y1: 0 }),
    {
        Rect { x0: 0, y0: 0, x1: 0, y1: 0 }
    }

    pub fn new(x0: i64, y0: i64, x1: i64, y1: i64) -> (r: Rect)
        ensures
            r == (Rect { x0, y0, x1, y1 }),
    {
        Rect { x0, y0, x1, y1 }
    }

    pub open spec fn spec_from_origin_size(origin: Point, size: Size) -> Rect {
        Rect {
            x0: origin.x,
            y0: origin.y,
            x1: saturate(origin.x + size.width),
            y1: saturate(origin.y + size.height),
        }
    }

    pub fn from_origin_size(origin: Point, size: Size) -> (r: Rect)
        ensures
            r == Self::spec_from_origin_size(origin, size),
    {
        Rect {
            x0: origin.x,
            y0: origin.y,
            x1: sat_add(origin.x, size.width),
            y1: sat_add(origin.y, size.height),
        }
    }

    pub open spec fn spec_origin(self) -> Point {
        Point { x: self.x0, y: self.y0 }
    }

    pub fn origin(self) -> (r: Point)
        ensures
            r == self.spec_origin(),
    {
        Point { x: self.x0, y: self.y0 }
    }

    pub open spec fn spec_size(self) -> Size {
        Size { width: saturate(self.x1 - self.x0), height: saturate(self.y1 - self.y0) }
    }

    pub fn size(self) -> (r: Size)
        ensures
            r == self.spec_size(),
    {
        Size { width: sat_sub(self.x1, self.x0), height: sat_sub(self.y1, self.y0) }
    }

    pub open spec fn spec_with_size(self, size: Size) -> Rect {
        Self::spec_from_origin_size(self.spec_origin(), size)
    }

    /// The rectangle with this origin and another size.
    pub fn with_size(self, size: Size) -> (r: Rect)
        ensures
            r == self.spec_with_size(size),
    {
        Rect::from_origin_size(self.origin(), size)
    }

    pub open spec fn spec_with_origin(self, origin: Point) -> Rect {
        Self::spec_from_origin_size(origin, self.spec_size())
    }

    /// The rectangle with this size at another origin.
    pub fn with_origin(self, origin: Point) -> (r: Rect)
        ensures
            r == self.spec_with_origin(origin),
    {
        Rect::from_origin_size(origin, self.size())
    }

    pub open spec fn spec_contains(self, p: Point) -> bool {
        self.x0 <= p.x < self.x1 && self.y0 <= p.y < self.y1
    }

    /// Whether the point lies inside, the far edges excluded.
    pub fn contains(self, p: Point) -> (r: bool)
        ensures
            r == self.spec_contains(p),
    {
        self.x0 <= p.x && p.x < self.x1 && self.y0 <= p.y && p.y < self.y1
    }

    pub open spec fn spec_union(self, other: Rect) -> Rect {
        Rect {
            x0: spec_min(self.x0 as int, other.x0 as int) as i64,
            y0: spec_min(self.y0 as int, other.y0 as int) as i64,
            x1: spec_max(self.x1 as int, other.x1 as int) as i64,
            y1: spec_max(self.y1 as int, other.y1 as int) as i64,
        }
    }

    /// The smallest rectangle that holds both.
    pub fn union(self, other: Rect) -> (r: Rect)
        ensures
            r == self.spec_union(other),
    {
        Rect {
            x0: min_i64(self.x0, other.x0),
            y0: min_i64(self.y0, other.y0),
            x1: max_i64(self.x1, other.x1),
            y1: max_i64(self.y1, other.y1),
        }
    }
}

impl Axis {
    pub open spec fn spec_cross(self) -> Axis {
        match self {
            Axis::Horizontal => Axis::Vertical,
            Axis::Vertical => Axis::Horizontal,
        }
    }

    /// The other axis.
    pub fn cross(self) -> (r: Axis)
        ensures
            r == self.spec_cross(),
    {
        match self {
            Axis::Horizontal => Axis::Vertical,
            Axis::Vertical => Axis::Horizontal,
        }
    }

    pub open spec fn spec_major(self, size: Size) -> i64 {
        match self {
            Axis::Horizontal => size.width,
            Axis::Vertical => size.height,
        }
    }

    /// The extent along this axis.
    pub fn major(self, size: Size) -> (r: i64)
        ensures
            r == self.spec_major(size),
    {
        match self {
            Axis::Horizontal => size.width,
            Axis::Vertical => size.height,
        }
    }

    pub open spec fn spec_minor(self, size: Size) -> i64 {
        self.spec_cross().spec_major(size)
    }

    /// The extent across this axis.
    pub fn minor(self, size: Size) -> (r: i64)
        ensures
            r == self.spec_minor(size),
    {
        match self {
            Axis::Horizontal => size.height,
            Axis::Vertical => size.width,
        }
    }

    pub open spec fn spec_major_pos(self, p: Point) -> i64 {
        match self {
            Axis::Horizontal => p.x,
            Axis::Vertical => p.y,
        }
    }

    /// The coordinate along this axis.
    pub fn major_pos(self, p: Point) -> (r: i64)
        ensures
            r == self.spec_major_pos(p),
    {
        match self {
            Axis::Horizontal => p.x,
            Axis::Vertical => p.y,
        }
    }

    pub open spec fn spec_pack(self, major: i64, minor: i64) -> (i64, i64) {
        match self {
            Axis::Horizontal => (major, minor),
            Axis::Vertical => (minor, major),
        }
    }

    /// `(x, y)` from an extent along and one across this axis.
    pub fn pack(self, major: i64, minor: i64) -> (r: (i64, i64))
        ensures
            r == self.spec_pack(major, minor),
    {
        match self {
            Axis::Horizontal => (major, minor),
            Axis::Vertical => (minor, major),
        }
    }

    pub open spec fn spec_pack_size(self, major: i64, minor: i64) -> Size {
        Size { width: self.spec_pack(major, minor).0, height: self.spec_pack(major, minor).1 }
    }

    pub fn pack_size(self, major: i64, minor: i64) -> (r: Size)
        ensures
            r == self.spec_pack_size(major, minor),
    {
        let (w, h) = self.pack(major, minor);
        Size { width: w, height: h }
    }

    pub open spec fn spec_pack_point(self, major: i64, minor: i64) -> Point {
        Point { x: self.spec_pack(major, minor).0, y: self.spec_pack(major, minor).1 }
    }

    pub fn pack_point(self, major: i64, minor: i64) -> (r: Point)
        ensures
            r == self.spec_pack_point(major, minor),
    {
        let (x, y) = self.pack(major, minor);
        Point { x, y }
    }

    pub open spec fn spec_major_span(self, rect: Rect) -> (i64, i64) {
        match self {
            Axis::Horizontal => (rect.x0, rect.x1),
            Axis::Vertical => (rect.y0, rect.y1),
        }
    }

    /// Near and far edge of the rectangle along this axis.
    pub fn major_span(self, rect: Rect) -> (r: (i64, i64))
        ensures
            r == self.spec_major_span(rect),
    {
        match self {
            Axis::Horizontal => (rect.x0, rect.x1),
            Axis::Vertical => (rect.y0, rect.y1),
        }
    }

    pub open spec fn spec_minor_span(self, rect: Rect) -> (i64, i64) {
        self.spec_cross().spec_major_span(rect)
    }

    /// Near and far edge of the rectangle across this axis.
    pub fn minor_span(self, rect: Rect) -> (r: (i64, i64))
        ensures
            r == self.spec_minor_span(rect),
    {
        match self {
            Axis::Horizontal => (rect.y0, rect.y1),
            Axis::Vertical => (rect.x0, rect.x1),
        }
    }
}

/// The sizes a parent allows a child to take.
#[derive(Clone, Copy, Debug, PartialEq, Eq, Structural)]
pub struct BoxConstraints {
    pub min: Size,
    pub max: Size,
}

impl BoxConstraints {
    pub fn new(min: Size, max: Size) -> (r: BoxConstraints)
        ensures
            r == (BoxConstraints { min, max }),
    {
        BoxConstraints { min, max }
    }

    /// Constraints that one size alone meets.
    pub fn tight(size: Size) -> (r: BoxConstraints)
        ensures
            r == (BoxConstraints { min: size, max: size }),
    {
        BoxConstraints { min: size, max: size }
    }

    /// The lower bound is no negative size and lies under the upper bound.
    pub open spec fn wf(self) -> bool {
        &&& 0 <= self.min.width <= self.max.width
        &&& 0 <= self.min.height <= self.max.height
    }

    pub open spec fn spec_contains(self, size: Size) -> bool {
        &&& self.min.width <= size.width <= self.max.width
        &&& self.min.height <= size.height <= self.max.height
    }

    /// Whether the size meets the constraints.
    pub fn contains(self, size: Size) -> (r: bool)
        ensures
            r == self.spec_contains(size),
    {
        self.min.width <= size.width && size.width <= self.max.width && self.min.height
            <= size.height && size.height <= self.max.height
    }

    pub open spec fn spec_constrain(self, size: Size) -> Size {
        Size {
            width: spec_clamp(size.width as int, self.min.width as int, self.max.width as int) as i64,
            height: spec_clamp(
                size.height as int,
                self.min.height as int,
                self.max.height as int,
            ) as i64,
        }
    }

    /// The nearest size that meets the constraints.
    pub fn constrain(self, size: Size) -> (r: Size)
        ensures
            r == self.spec_constrain(size),
            self.wf() ==> self.spec_contains(r) && r.wf(),
            self.spec_contains(size) ==> r == size,
    {
        Size {
            width: clamp_i64(size.width, self.min.width, self.max.width),
            height: clamp_i64(size.height, self.min.height, self.max.height),
        }
    }

    pub fn min(self) -> (r: Size)
        ensures
            r == self.min,
    {
        self.min
    }

    pub fn max(self) -> (r: Size)
        ensures
            r == self.max,
    {
        self.max
    }

    pub open spec fn spec_loosen(self) -> BoxConstraints {
        BoxConstraints { min: Size { width: 0, height: 0 }, max: self.max }
    }

    /// The same upper bound with no lower bound.
    pub fn loosen(self) -> (r: BoxConstraints)
        ensures
            r == self.spec_loosen(),
    {
        BoxConstraints { min: Size { width: 0, height: 0 }, max: self.max }
    }

    pub open spec fn spec_shrink(self, dw: i64, dh: i64) -> BoxConstraints {
        BoxConstraints {
            min: Size {
                width: spec_max(0, saturate(self.min.width - dw) as int) as i64,
                height: spec_max(0, saturate(self.min.height - dh) as int) as i64,
            },
            max: Size {
                width: spec_max(0, saturate(self.max.width - dw) as int) as i64,
                height: spec_max(0, saturate(self.max.height - dh) as int) as i64,
            },
        }
    }

    /// Constraints with both bounds lowered by the given extents, never under zero.
    pub fn shrink(self, dw: i64, dh: i64) -> (r: BoxConstraints)
        ensures
            r == self.spec_shrink(dw, dh),
            self.wf() && dw >= 0 && dh >= 0 ==> r.wf(),
    {
        BoxConstraints {
            min: Size {
                width: max_i64(0, sat_sub(self.min.width, dw)),
                height: max_i64(0, sat_sub(self.min.height, dh)),
            },
            max: Size {
                width: max_i64(0, sat_sub(self.max.width, dw)),
                height: max_i64(0, sat_sub(self.max.height, dh)),
            },
        }
    }
}

} // verus!
