//! The detail level: the iteration budget handed to the renderer, and the two
//! steps by which navigation raises and lowers it.

use vstd::prelude::*;

verus! {

/// The smallest detail level a step down ever leaves behind.
pub const MIN_DETAIL: i32 = 2;

/// The detail level a session starts with.
pub const INITIAL_DETAIL: i32 = 100;

/// The bound on the levels that a step up can take: three halves of a level
/// fit in an `i32` exactly for the levels from `-MAX_RAISABLE_DETAIL` to
/// `MAX_RAISABLE_DETAIL`.
pub const MAX_RAISABLE_DETAIL: i32 = 1_431_655_765;

/// The quotient of `a` by a positive `b`, rounded toward zero, as machine
/// integers divide.
pub open spec fn div_toward_zero(a: int, b: int) -> int
    recommends
        b > 0,
{
    if a >= 0 {
        a / b
    } else {
        -((-a) / b)
    }
}

/// The level one step up from `level`: three halves of it.
pub open spec fn increased_detail(level: int) -> int {
    div_toward_zero(level * 3, 2)
}

/// The level one step down from `level`: two thirds of it, held at the minimum.
pub open spec fn decreased_detail(level: int) -> int {
    let lowered = div_toward_zero(level * 2, 3);
    if lowered >= MIN_DETAIL {
        lowered
    } else {
        MIN_DETAIL as int
    }
}

/// Whether the level one step up from `level` is still a machine integer.
pub open spec fn increase_fits(level: int) -> bool {
    i32::MIN <= increased_detail(level) <= i32::MAX
}

/// Tells whether `increase_detail` may be called on `level`.
pub fn can_increase_detail(level: i32) -> (fits: bool)
    ensures
        fits == increase_fits(level as int),
{
    -MAX_RAISABLE_DETAIL <= level && level <= MAX_RAISABLE_DETAIL
}

/// Raises the detail level by one step.
pub fn increase_detail(level: i32) -> (raised: i32)
    requires
        increase_fits(level as int),
    ensures
        raised == increased_detail(level as int),
{
    let wide: i64 = level as i64;
    let raised: i64 = wide * 3 / 2;
    raised as i32
}

/// Lowers the detail level by one step.
pub fn decrease_detail(level: i32) -> (lowered: i32)
    ensures
        lowered == decreased_detail(level as int),
        lowered >= MIN_DETAIL,
{
    let wide: i64 = level as i64;
    let lowered: i64 = wide * 2 / 3;
    if lowered >= MIN_DETAIL as i64 {
        lowered as i32
    } else {
        MIN_DETAIL
    }
}

} // verus!
