//! Two-dimensional fixed-point vectors.
use vstd::prelude::*;
use crate::fixed::{abs, fmul, mul_fixed, ONE};

verus! {

/// A point or displacement; each coordinate is in millionths of a unit.
#[derive(Clone, Copy, Debug, PartialEq, Eq, Structural)]
pub struct Vector2 {
    pub x: i64,
    pub y: i64,
}

/// Largest coordinate magnitude that a factor of a fixed-point product may have.
pub const FACTOR_LIMIT: i64 = 0x100_0000_0000;

impl Vector2 {
    /// Both coordinates lie within `bound` of zero.
    pub open spec fn within(self, bound: int) -> bool {
        abs(self.x as int) <= bound && abs(self.y as int) <= bound
    }

    pub fn zero() -> (r: Vector2)
        ensures
            r.x == 0,
            r.y == 0,
    {
        Vector2 { x: 0, y: 0 }
    }

    pub fn one() -> (r: Vector2)
        ensures
            r.x == ONE,
            r.y == ONE,
    {
        Vector2 { x: ONE, y: ONE }
    }

    /// Uniform scaling by a fixed-point factor.
    pub fn scale(self, k: i64) -> (r: Vector2)
        requires
            self.within(FACTOR_LIMIT as int),
            abs(k as int) <= FACTOR_LIMIT,
        ensures
            r.x == fmul(k as int, self.x as int),
            r.y == fmul(k as int, self.y as int),
    {
        Vector2 { x: mul_fixed(k, self.x), y: mul_fixed(k, self.y) }
    }

    pub fn tuple(&self) -> (r: (i64, i64))
        ensures
            r == (self.x, self.y),
    {
        (self.x, self.y)
    }
}

impl From<(i64, i64)> for Vector2 {
    fn from(item: (i64, i64)) -> (r: Vector2) {
        Vector2 { x: item.0, y: item.1 }
    }
}

impl vstd::std_specs::convert::FromSpecImpl<(i64, i64)> for Vector2 {
    open spec fn obeys_from_spec() -> bool {
        true
    }

    open spec fn from_spec(item: (i64, i64)) -> Vector2 {
        Vector2 { x: item.0, y: item.1 }
    }
}

impl core::ops::Add for Vector2 {
    type Output = Vector2;

    fn add(self, other: Vector2) -> (r: Vector2) {
        Vector2 { x: self.x + other.x, y: self.y + other.y }
    }
}

impl vstd::std_specs::ops::AddSpecImpl for Vector2 {
    open spec fn obeys_add_spec() -> bool {
        true
    }

    open spec fn add_req(self, other: Vector2) -> bool {
        i64::MIN <= self.x + other.x <= i64::MAX && i64::MIN <= self.y + other.y <= i64::MAX
    }

    open spec fn add_spec(self, other: Vector2) -> Vector2 {
        Vector2 { x: (self.x + other.x) as i64, y: (self.y + other.y) as i64 }
    }
}

} // verus!
