//! Pixel-space geometry: regions (bounding rectangles) and fixed-point positions.
//!
//! Positions carry thousandths of a pixel so that the motion filter can hold
//! fractional estimates without floating point.

use vstd::prelude::*;

verus! {

/// Positions are held in thousandths of a pixel.
pub const POS_SCALE: i64 = 1000;

/// Truncating division (rounding toward zero), for a positive divisor.
pub open spec fn div_trunc(n: int, d: int) -> int {
    if n >= 0 {
        n / d
    } else {
        -((-n) / d)
    }
}

/// The magnitude of an integer.
pub open spec fn iabs(n: int) -> int {
    if n >= 0 {
        n
    } else {
        -n
    }
}

/// A 2D position in thousandths of a pixel.
#[derive(Clone, Copy, PartialEq, Eq, Debug)]
pub struct Point {
    pub x: i64,
    pub y: i64,
}

impl Point {
    /// The position of a whole-pixel coordinate pair.
    pub fn from_pixels(x: i32, y: i32) -> (p: Point)
        ensures
            p.x == x * POS_SCALE,
            p.y == y * POS_SCALE,
    {
        Point { x: (x as i64) * POS_SCALE, y: (y as i64) * POS_SCALE }
    }

    /// The whole-pixel column of this position, rounded toward zero.
    pub fn pixel_x(&self) -> (r: i64)
        ensures
            r == div_trunc(self.x as int, POS_SCALE as int),
    {
        to_pixel(self.x)
    }

    /// The whole-pixel row of this position, rounded toward zero.
    pub fn pixel_y(&self) -> (r: i64)
        ensures
            r == div_trunc(self.y as int, POS_SCALE as int),
    {
        to_pixel(self.y)
    }
}

/// Scales a fixed-point coordinate down to whole pixels, rounding toward zero.
fn to_pixel(v: i64) -> (r: i64)
    ensures
        r == div_trunc(v as int, POS_SCALE as int),
{
    if v >= 0 {
        ((v as u64) / (POS_SCALE as u64)) as i64
    } else {
        let m: u64 = (-(v as i128)) as u64;
        let q: u64 = m / (POS_SCALE as u64);
        -(q as i64)
    }
}

/// An axis-aligned rectangle in whole-pixel units; width and height are positive.
#[derive(Clone, Copy, PartialEq, Eq, Debug)]
pub struct Region {
    pub x: i32,
    pub y: i32,
    pub width: i32,
    pub height: i32,
}

/// The fixed-point column of a region's center: x + width / 2 in whole pixels.
pub open spec fn spec_center_x(r: Region) -> int {
    (r.x + r.width / 2) * POS_SCALE
}

/// The fixed-point row of a region's center: y + height / 2 in whole pixels.
pub open spec fn spec_center_y(r: Region) -> int {
    (r.y + r.height / 2) * POS_SCALE
}

impl Region {
    /// A region is well formed when it has positive extent.
    pub open spec fn wf(self) -> bool {
        self.width > 0 && self.height > 0
    }

    pub fn new(x: i32, y: i32, width: i32, height: i32) -> (r: Region)
        requires
            width > 0,
            height > 0,
        ensures
            r == (Region { x, y, width, height }),
            r.wf(),
    {
        Region { x, y, width, height }
    }

    /// The fixed 60x60 region derived from a pointer click at (x, y).
    pub fn from_click(x: i32, y: i32) -> (r: Region)
        requires
            x - 30 >= i32::MIN,
            y - 30 >= i32::MIN,
        ensures
            r.x == x - 30,
            r.y == y - 30,
            r.width == 60,
            r.height == 60,
            r.wf(),
    {
        Region { x: x - 30, y: y - 30, width: 60, height: 60 }
    }

    /// The region's center in fixed-point coordinates, with each half-extent
    /// rounded down as in whole-pixel arithmetic.
    pub fn center(&self) -> (c: Point)
        requires
            self.wf(),
        ensures
            c.x == spec_center_x(*self),
            c.y == spec_center_y(*self),
    {
        let half_w: i64 = ((self.width as u64) / 2) as i64;
        let half_h: i64 = ((self.height as u64) / 2) as i64;
        let cx: i64 = self.x as i64 + half_w;
        let cy: i64 = self.y as i64 + half_h;
        Point { x: cx * POS_SCALE, y: cy * POS_SCALE }
    }
}

} // verus!
