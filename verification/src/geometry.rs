//! Points and displacements of the game world, in thousandths of a unit.

use vstd::prelude::*;
use crate::units::{floor_sqrt, floor_thousandth, isqrt, lemma_floor_sqrt_exists};

verus! {

/// A point or displacement; each coordinate counts thousandths of a unit.
#[derive(Debug, Clone, Copy, PartialEq, Eq, Structural)]
pub struct Vector3 {
    pub x: i32,
    pub y: i32,
    pub z: i32,
}

/// The squared length of the segment between two points.
pub open spec fn gap_squared(a: Vector3, b: Vector3) -> int {
    (a.x - b.x) * (a.x - b.x) + (a.y - b.y) * (a.y - b.y) + (a.z - b.z) * (a.z - b.z)
}

/// The distance between two points, rounded down to a whole thousandth.
pub open spec fn distance_between(a: Vector3, b: Vector3) -> int {
    floor_sqrt(gap_squared(a, b))
}

/// `a` and `b` are strictly closer than `radius`.
pub open spec fn closer_than(a: Vector3, b: Vector3, radius: int) -> bool {
    gap_squared(a, b) < radius * radius
}

/// `value` confined to the coordinates a point can hold.
pub open spec fn confined(value: int) -> int {
    if value < i32::MIN {
        i32::MIN as int
    } else if value > i32::MAX {
        i32::MAX as int
    } else {
        value
    }
}

/// Where a point moving at `velocity` is after `dt` milliseconds. Each
/// coordinate is rounded towards negative infinity and stops at the edge of
/// the representable world.
pub open spec fn displaced(position: Vector3, velocity: Vector3, dt: int) -> Vector3 {
    Vector3 {
        x: confined(position.x + velocity.x * dt / 1000) as i32,
        y: confined(position.y + velocity.y * dt / 1000) as i32,
        z: confined(position.z + velocity.z * dt / 1000) as i32,
    }
}

/// The point reached from `origin` by going `along_right` thousandths of the
/// axis `right` and `along_forward` thousandths of the axis `forward`, both
/// axes being vectors of length one thousand.
pub open spec fn offset_along(
    origin: Vector3,
    right: Vector3,
    forward: Vector3,
    along_right: int,
    along_forward: int,
) -> Vector3 {
    Vector3 {
        x: confined(origin.x + (right.x * along_right + forward.x * along_forward) / 1000) as i32,
        y: confined(origin.y + (right.y * along_right + forward.y * along_forward) / 1000) as i32,
        z: confined(origin.z + (right.z * along_right + forward.z * along_forward) / 1000) as i32,
    }
}

/// A distance between two points of the world is not negative and fits the
/// integers that carry distances.
pub proof fn lemma_distance_fits(a: Vector3, b: Vector3)
    ensures
        0 <= distance_between(a, b) <= u64::MAX,
{
    let gap = gap_squared(a, b);
    assert(0 <= (a.x - b.x) * (a.x - b.x) <= 0xffff_ffff * 0xffff_ffff) by (nonlinear_arith)
        requires
            -0xffff_ffff <= a.x - b.x <= 0xffff_ffff,
    ;
    assert(0 <= (a.y - b.y) * (a.y - b.y) <= 0xffff_ffff * 0xffff_ffff) by (nonlinear_arith)
        requires
            -0xffff_ffff <= a.y - b.y <= 0xffff_ffff,
    ;
    assert(0 <= (a.z - b.z) * (a.z - b.z) <= 0xffff_ffff * 0xffff_ffff) by (nonlinear_arith)
        requires
            -0xffff_ffff <= a.z - b.z <= 0xffff_ffff,
    ;
    lemma_floor_sqrt_exists(gap);
    let root = distance_between(a, b);
    if root > 0xffff_ffff_ffff {
        assert(root * root > 3 * (0xffff_ffff * 0xffff_ffff)) by (nonlinear_arith)
            requires
                root > 0xffff_ffff_ffff,
        ;
    }
}

fn square_of_difference(a: i32, b: i32) -> (r: u128)
    ensures
        r == (a - b) * (a - b),
        r <= 0xffff_ffff * 0xffff_ffff,
{
    let gap: u64 = if a >= b {
        (a as i64 - b as i64) as u64
    } else {
        (b as i64 - a as i64) as u64
    };
    assert(gap * gap == (a - b) * (a - b)) by (nonlinear_arith)
        requires
            gap == a - b || gap == -(a - b),
    ;
    assert(gap * gap <= 0xffff_ffff * 0xffff_ffff) by (nonlinear_arith)
        requires
            0 <= gap <= 0xffff_ffff,
    ;
    (gap as u128) * (gap as u128)
}

pub(crate) fn confine(value: i128) -> (r: i32)
    ensures
        r == confined(value as int),
{
    if value < i32::MIN as i128 {
        i32::MIN
    } else if value > i32::MAX as i128 {
        i32::MAX
    } else {
        value as i32
    }
}

impl Vector3 {
    /// The squared distance to `other`.
    pub fn distance_squared(&self, other: &Vector3) -> (r: u128)
        ensures
            r == gap_squared(*self, *other),
    {
        let dx = square_of_difference(self.x, other.x);
        let dy = square_of_difference(self.y, other.y);
        let dz = square_of_difference(self.z, other.z);
        dx + dy + dz
    }

    /// The distance to `other`, rounded down to a whole thousandth.
    pub fn distance(&self, other: &Vector3) -> (r: u64)
        ensures
            r == distance_between(*self, *other),
    {
        isqrt(self.distance_squared(other))
    }

    /// Whether `other` lies strictly within `radius` of this point.
    pub fn within(&self, other: &Vector3, radius: u32) -> (r: bool)
        ensures
            r == closer_than(*self, *other, radius as int),
    {
        assert(radius * radius <= 0xffff_ffff * 0xffff_ffff) by (nonlinear_arith)
            requires
                0 <= radius <= 0xffff_ffff,
        ;
        self.distance_squared(other) < (radius as u128) * (radius as u128)
    }

    /// The position after moving at `velocity` for `dt` milliseconds.
    pub fn advanced(&self, velocity: &Vector3, dt: u32) -> (r: Vector3)
        ensures
            r == displaced(*self, *velocity, dt as int),
    {
        let x = advance_coordinate(self.x, velocity.x, dt);
        let y = advance_coordinate(self.y, velocity.y, dt);
        let z = advance_coordinate(self.z, velocity.z, dt);
        Vector3 { x, y, z }
    }

    /// The point `along_right` to the right of and `along_forward` ahead of
    /// this one, measured along the two given body axes.
    pub fn offset(&self, right: &Vector3, forward: &Vector3, along_right: i32, along_forward: i32) -> (r: Vector3)
        ensures
            r == offset_along(*self, *right, *forward, along_right as int, along_forward as int),
    {
        let x = offset_coordinate(self.x, right.x, forward.x, along_right, along_forward);
        let y = offset_coordinate(self.y, right.y, forward.y, along_right, along_forward);
        let z = offset_coordinate(self.z, right.z, forward.z, along_right, along_forward);
        Vector3 { x, y, z }
    }
}

fn advance_coordinate(position: i32, velocity: i32, dt: u32) -> (r: i32)
    ensures
        r == confined(position + velocity * dt / 1000),
{
    assert(-0x8000_0000 * 0xffff_ffff <= velocity * dt <= 0x8000_0000 * 0xffff_ffff)
        by (nonlinear_arith)
        requires
            -0x8000_0000 <= velocity <= 0x8000_0000,
            0 <= dt <= 0xffff_ffff,
    ;
    let travelled = floor_thousandth((velocity as i128) * (dt as i128));
    confine(position as i128 + travelled)
}

fn offset_coordinate(origin: i32, right: i32, forward: i32, along_right: i32, along_forward: i32) -> (r: i32)
    ensures
        r == confined(origin + (right * along_right + forward * along_forward) / 1000),
{
    assert(-0x8000_0000 * 0x8000_0000 <= right * along_right <= 0x8000_0000 * 0x8000_0000)
        by (nonlinear_arith)
        requires
            -0x8000_0000 <= right <= 0x8000_0000,
            -0x8000_0000 <= along_right <= 0x8000_0000,
    ;
    assert(-0x8000_0000 * 0x8000_0000 <= forward * along_forward <= 0x8000_0000 * 0x8000_0000)
        by (nonlinear_arith)
        requires
            -0x8000_0000 <= forward <= 0x8000_0000,
            -0x8000_0000 <= along_forward <= 0x8000_0000,
    ;
    let sum: i128 = (right as i128) * (along_right as i128) + (forward as i128) * (along_forward as i128);
    confine(origin as i128 + floor_thousandth(sum))
}

} // verus!
