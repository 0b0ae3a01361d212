//! The single source of chance. Every random decision of the simulation is
//! made from a roll drawn here, so that the rules themselves are functions
//! of their rolls and can be checked with chosen ones.

use vstd::prelude::*;

verus! {

/// Draws from `fastrand::u32` over the range `0..bound` of the thread's
/// generator. Trusted: the draw is below `bound`; `fastrand` panics on an
/// empty range, which `bound > 0` rules out.
#[verifier::external_body]
pub(crate) fn random_below(bound: u32) -> (r: u32)
    requires
        bound > 0,
    ensures
        r < bound,
{
    fastrand::u32(0..bound)
}

/// Draws from `fastrand::usize` over the range `0..len` of the thread's
/// generator. Trusted: the draw is below `len`; `fastrand` panics on an
/// empty range, which `len > 0` rules out.
#[verifier::external_body]
pub(crate) fn random_index(len: usize) -> (r: usize)
    requires
        len > 0,
    ensures
        r < len,
{
    fastrand::usize(0..len)
}

/// `roll` is a chance roll: a number of thousandths below one.
pub open spec fn is_roll(roll: u32) -> bool {
    roll < 1000
}

/// Draws a chance roll, uniform over the thousandths below one.
pub fn roll() -> (r: u32)
    ensures
        is_roll(r),
{
    random_below(1000)
}

/// Draws one of `count` equally likely choices, or zero where there is
/// nothing to choose from.
pub fn choice(count: u32) -> (r: u32)
    ensures
        count > 0 ==> r < count,
        count == 0 ==> r == 0,
{
    if count == 0 {
        0
    } else {
        random_below(count)
    }
}

/// Draws a position in a list of `len` items, or zero for an empty list.
pub fn pick(len: usize) -> (r: usize)
    ensures
        len > 0 ==> r < len,
        len == 0 ==> r == 0,
{
    if len == 0 {
        0
    } else {
        random_index(len)
    }
}

} // verus!
