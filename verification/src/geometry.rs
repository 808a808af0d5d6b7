//! Points, sizes and rectangles in app units, the fixed-point length unit of
//! layout.  Coordinates of a box are relative to its owning flow; absolute
//! coordinates arise only by translating with an accumulated offset.

use vstd::prelude::*;

verus! {

/// Number of app units per CSS pixel.
pub const AU_PER_PX: i64 = 60;

/// Bound on every coordinate and size this library computes with.  Keeping all
/// stored geometry within this bound keeps every rectangle computation (a
/// translation, an intersection test, a border expansion) well inside `i64`.
pub const MAX_AU: i64 = 0x4000_0000;

/// Largest intrinsic pixel dimension an image may report;
/// `MAX_PX * AU_PER_PX <= MAX_AU`.
pub const MAX_PX: i64 = 0x100_0000;

#[derive(Clone, Copy, PartialEq, Eq, Structural, Debug)]
pub struct Point {
    pub x: i64,
    pub y: i64,
}

#[derive(Clone, Copy, PartialEq, Eq, Structural, Debug)]
pub struct Size {
    pub width: i64,
    pub height: i64,
}

#[derive(Clone, Copy, PartialEq, Eq, Structural, Debug)]
pub struct Rect {
    pub origin: Point,
    pub size: Size,
}

pub open spec fn point_in_bounds(p: Point) -> bool {
    &&& -MAX_AU <= p.x <= MAX_AU
    &&& -MAX_AU <= p.y <= MAX_AU
}

pub open spec fn size_in_bounds(s: Size) -> bool {
    &&& 0 <= s.width <= MAX_AU
    &&& 0 <= s.height <= MAX_AU
}

pub open spec fn rect_in_bounds(r: Rect) -> bool {
    point_in_bounds(r.origin) && size_in_bounds(r.size)
}

/// Coordinates within `bound` in magnitude and nonnegative sizes within
/// `bound`; used for rectangles that have already been translated once.
pub open spec fn rect_within(r: Rect, bound: int) -> bool {
    &&& -bound <= r.origin.x <= bound
    &&& -bound <= r.origin.y <= bound
    &&& 0 <= r.size.width <= bound
    &&& 0 <= r.size.height <= bound
}

/// The rectangle `r` moved by `off`.
pub open spec fn spec_translate(r: Rect, off: Point) -> Rect {
    Rect {
        origin: Point { x: (r.origin.x + off.x) as i64, y: (r.origin.y + off.y) as i64 },
        size: r.size,
    }
}

/// Whether two rectangles overlap in a region of positive area.
pub open spec fn spec_intersects(a: Rect, b: Rect) -> bool {
    &&& a.origin.x < b.origin.x + b.size.width
    &&& b.origin.x < a.origin.x + a.size.width
    &&& a.origin.y < b.origin.y + b.size.height
    &&& b.origin.y < a.origin.y + a.size.height
}

impl Rect {
    pub fn translate(&self, off: &Point) -> (r: Rect)
        requires
            i64::MIN <= self.origin.x + off.x <= i64::MAX,
            i64::MIN <= self.origin.y + off.y <= i64::MAX,
        ensures
            r == spec_translate(*self, *off),
    {
        Rect {
            origin: Point { x: self.origin.x + off.x, y: self.origin.y + off.y },
            size: self.size,
        }
    }

    pub fn intersects(&self, other: &Rect) -> (r: bool)
        requires
            0 <= self.size.width,
            0 <= self.size.height,
            0 <= other.size.width,
            0 <= other.size.height,
            self.origin.x + self.size.width <= i64::MAX,
            self.origin.y + self.size.height <= i64::MAX,
            other.origin.x + other.size.width <= i64::MAX,
            other.origin.y + other.size.height <= i64::MAX,
        ensures
            r == spec_intersects(*self, *other),
    {
        self.origin.x < other.origin.x + other.size.width
            && other.origin.x < self.origin.x + self.size.width
            && self.origin.y < other.origin.y + other.size.height
            && other.origin.y < self.origin.y + self.size.height
    }
}

/// The all-zero rectangle every freshly constructed box starts with.
pub fn zero_rect() -> (r: Rect)
    ensures
        r == (Rect { origin: Point { x: 0, y: 0 }, size: Size { width: 0, height: 0 } }),
{
    Rect { origin: Point { x: 0, y: 0 }, size: Size { width: 0, height: 0 } }
}

/// A pixel count converted to app units.
pub fn from_px(px: i64) -> (r: i64)
    requires
        0 <= px <= MAX_PX,
    ensures
        r == px * AU_PER_PX,
{
    px * AU_PER_PX
}

} // verus!
