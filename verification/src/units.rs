//! Fixed-point arithmetic shared by the whole simulation.
//!
//! Every physical quantity is an integer count of thousandths: lengths and
//! speeds in thousandths of a world unit, time in milliseconds, ratios and
//! probabilities in thousandths of one, angles in thousandths of a radian.
//! Products of two such quantities are divided by one thousand and rounded
//! down.

use vstd::prelude::*;

verus! {

/// The point a roll picks between two bounds: `low` for a roll of zero,
/// moving linearly towards `high` as the roll approaches one thousand.
pub open spec fn span(low: int, high: int, roll: int) -> int {
    low + (high - low) * roll / 1000
}

/// `r` is the square root of `n` rounded down.
pub open spec fn is_floor_sqrt(n: int, r: int) -> bool {
    0 <= r && r * r <= n < (r + 1) * (r + 1)
}

/// The square root of `n`, rounded down.
pub open spec fn floor_sqrt(n: int) -> int {
    choose|r: int| is_floor_sqrt(n, r)
}

/// Every number that is not negative has a rounded-down square root.
pub proof fn lemma_floor_sqrt_exists(n: int)
    requires
        0 <= n,
    ensures
        is_floor_sqrt(n, floor_sqrt(n)),
    decreases n,
{
    if n == 0 {
        assert(is_floor_sqrt(0, 0));
    } else {
        lemma_floor_sqrt_exists(n - 1);
        let r = floor_sqrt(n - 1);
        assert((r + 1) * (r + 1) == r * r + 2 * r + 1) by (nonlinear_arith);
        assert((r + 2) * (r + 2) == r * r + 4 * r + 4) by (nonlinear_arith);
        if n < (r + 1) * (r + 1) {
            assert(is_floor_sqrt(n, r));
        } else {
            assert(is_floor_sqrt(n, r + 1));
        }
    }
}

/// A number has one rounded-down square root only.
pub proof fn lemma_floor_sqrt_unique(n: int, r: int)
    requires
        is_floor_sqrt(n, r),
    ensures
        floor_sqrt(n) == r,
{
    let s = floor_sqrt(n);
    assert(is_floor_sqrt(n, s));
    if s < r {
        assert((s + 1) * (s + 1) <= r * r) by (nonlinear_arith)
            requires
                0 <= s,
                s + 1 <= r,
        ;
    } else if r < s {
        assert((r + 1) * (r + 1) <= s * s) by (nonlinear_arith)
            requires
                0 <= r,
                r + 1 <= s,
        ;
    }
}

/// The time in milliseconds needed to cover `distance` at `speed`, rounded
/// down; `u64::MAX` stands for a journey that never ends.
pub open spec fn travel_time(distance: int, speed: int) -> int {
    if speed <= 0 || distance * 1000 / speed > u64::MAX {
        u64::MAX as int
    } else {
        distance * 1000 / speed
    }
}

/// Maps a roll in thousandths onto the interval from `low` to `high`.
pub fn sample_span(low: u32, high: u32, roll: u32) -> (r: u64)
    requires
        low <= high,
    ensures
        r == span(low as int, high as int, roll as int),
        roll < 1000 ==> low <= r <= high,
        roll < 1000 && low < high ==> r < high,
{
    let width: u64 = (high - low) as u64;
    assert(width * roll <= 0xffff_ffff * 0xffff_ffff) by (nonlinear_arith)
        requires
            0 <= width <= 0xffff_ffff,
            0 <= roll <= 0xffff_ffff,
    ;
    let offset: u64 = width * (roll as u64) / 1000;
    assert(roll < 1000 ==> width * roll <= width * 999) by (nonlinear_arith)
        requires
            0 <= width,
    ;
    low as u64 + offset
}

/// The square root of `n`, rounded down.
pub fn isqrt(n: u128) -> (r: u64)
    ensures
        r == floor_sqrt(n as int),
        is_floor_sqrt(n as int, r as int),
{
    let mut low: u128 = 0;
    let mut high: u128 = 0x1_0000_0000_0000_0000;
    assert(0x1_0000_0000_0000_0000 * 0x1_0000_0000_0000_0000 > u128::MAX) by (nonlinear_arith);
    while high - low > 1
        invariant
            low < high <= 0x1_0000_0000_0000_0000,
            low * low <= n < high * high,
        decreases high - low,
    {
        let middle: u128 = low + (high - low) / 2;
        assert(middle * middle <= 0xffff_ffff_ffff_ffff * 0xffff_ffff_ffff_ffff)
            by (nonlinear_arith)
            requires
                0 <= middle <= 0xffff_ffff_ffff_ffff,
        ;
        if middle * middle <= n {
            low = middle;
        } else {
            high = middle;
        }
    }
    proof {
        lemma_floor_sqrt_unique(n as int, low as int);
    }
    low as u64
}

/// `numerator / 1000` rounded towards negative infinity.
pub(crate) fn floor_thousandth(numerator: i128) -> (r: i128)
    requires
        -0x4000_0000_0000_0000_0000 <= numerator <= 0x4000_0000_0000_0000_0000,
    ensures
        r == (numerator as int) / 1000,
{
    if numerator >= 0 {
        numerator / 1000
    } else {
        let magnitude: i128 = -numerator;
        let quotient: i128 = magnitude / 1000;
        if magnitude % 1000 == 0 {
            -quotient
        } else {
            -quotient - 1
        }
    }
}

/// How long it takes to cover `distance` at `speed`.
pub fn time_to_cover(distance: u64, speed: u32) -> (r: u64)
    ensures
        r == travel_time(distance as int, speed as int),
{
    if speed == 0 {
        return u64::MAX;
    }
    let time: u128 = (distance as u128) * 1000 / (speed as u128);
    if time > u64::MAX as u128 {
        u64::MAX
    } else {
        time as u64
    }
}

} // verus!
