//! Fixed-point screen geometry.
//!
//! Positions are measured in micro-units: one drawing unit is `UNIT`
//! (1_000_000) micro-units. Velocities are measured in micro-units per
//! millisecond, so one drawing unit per second is 1000 micro-units per
//! millisecond. All motion is exact integer arithmetic.

use vstd::prelude::*;

verus! {

/// Micro-units per drawing unit.
pub const UNIT: i64 = 1_000_000;

/// Micro-units per half drawing unit, used when centering on a point.
pub const HALF_UNIT: i64 = 500_000;

/// A point in screen space, in micro-units.
#[derive(Clone, Copy, Debug, PartialEq, Eq, Structural)]
pub struct Point2 {
    pub x: i64,
    pub y: i64,
}

/// A velocity, in micro-units per millisecond.
#[derive(Clone, Copy, Debug, PartialEq, Eq, Structural)]
pub struct Vector2 {
    pub x: i64,
    pub y: i64,
}

/// An axis-aligned rectangle: left/top corner plus extent, in micro-units.
#[derive(Clone, Copy, Debug, PartialEq, Eq, Structural)]
pub struct Rect {
    pub x: i64,
    pub y: i64,
    pub w: i64,
    pub h: i64,
}

impl Point2 {
    pub fn new(x: i64, y: i64) -> (p: Point2)
        ensures
            p.x == x,
            p.y == y,
    {
        Point2 { x, y }
    }

    /// This point after holding velocity `v` for `elapsed_ms` milliseconds:
    /// each coordinate advances by exactly `v * elapsed_ms` micro-units.
    pub fn translated(&self, v: &Vector2, elapsed_ms: i64) -> (p: Point2)
        requires
            0 <= elapsed_ms,
            i64::MIN <= self.x + v.x * elapsed_ms <= i64::MAX,
            i64::MIN <= self.y + v.y * elapsed_ms <= i64::MAX,
        ensures
            p.x == self.x + v.x * elapsed_ms,
            p.y == self.y + v.y * elapsed_ms,
    {
        proof {
            lemma_i64_product_fits(v.x as int, elapsed_ms as int);
            lemma_i64_product_fits(v.y as int, elapsed_ms as int);
        }
        let nx: i128 = self.x as i128 + (v.x as i128) * (elapsed_ms as i128);
        let ny: i128 = self.y as i128 + (v.y as i128) * (elapsed_ms as i128);
        Point2 { x: nx as i64, y: ny as i64 }
    }
}

/// The product of two values in `i64` range stays well inside `i128` range.
pub proof fn lemma_i64_product_fits(a: int, b: int)
    requires
        i64::MIN <= a <= i64::MAX,
        i64::MIN <= b <= i64::MAX,
    ensures
        -0x4000_0000_0000_0000_0000_0000_0000_0000 <= a * b
            <= 0x4000_0000_0000_0000_0000_0000_0000_0000,
{
    assert(-0x4000_0000_0000_0000_0000_0000_0000_0000 <= a * b
        <= 0x4000_0000_0000_0000_0000_0000_0000_0000) by (nonlinear_arith)
        requires
            -0x8000_0000_0000_0000 <= a <= 0x7FFF_FFFF_FFFF_FFFF,
            -0x8000_0000_0000_0000 <= b <= 0x7FFF_FFFF_FFFF_FFFF,
    ;
}

/// A sprite dimension (a `u32`) scaled to micro-units stays within `i64`
/// range, and a full unit is exactly two half units.
pub proof fn lemma_dimension_scale_fits(d: int)
    requires
        0 <= d <= 0xFFFF_FFFF,
    ensures
        0 <= d * HALF_UNIT <= 0xFFFF_FFFF * 500_000,
        d * UNIT == d * HALF_UNIT + d * HALF_UNIT,
{
    assert(0 <= d * HALF_UNIT <= 0xFFFF_FFFF * 500_000 && d * UNIT == d * HALF_UNIT + d
        * HALF_UNIT) by (nonlinear_arith)
        requires
            0 <= d <= 0xFFFF_FFFF,
            HALF_UNIT == 500_000,
            UNIT == 1_000_000,
    ;
}

impl Vector2 {
    pub fn new(x: i64, y: i64) -> (v: Vector2)
        ensures
            v.x == x,
            v.y == y,
    {
        Vector2 { x, y }
    }
}

impl Rect {
    pub fn new(x: i64, y: i64, w: i64, h: i64) -> (r: Rect)
        ensures
            r.x == x,
            r.y == y,
            r.w == w,
            r.h == h,
    {
        Rect { x, y, w, h }
    }
}

} // verus!
