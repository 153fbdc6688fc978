use vstd::prelude::*;

verus! {

/// Upper bound of a percentage level.
pub const MAX_LEVEL: u32 = 100;

/// `x` clamped to the percentage range [0, 100].
pub open spec fn clamp_percent(x: int) -> int {
    if x < 0 {
        0
    } else if x > 100 {
        100
    } else {
        x
    }
}

/// Clamp a requested level to [0, 100].
pub fn clamp_level(x: i64) -> (r: u32)
    ensures
        r == clamp_percent(x as int),
{
    if x < 0 {
        0
    } else if x > 100 {
        MAX_LEVEL
    } else {
        x as u32
    }
}

/// The level `current + step`, clamped to [0, 100], computed without overflow
/// for every step.
pub fn offset_level(current: u32, step: i64) -> (r: u32)
    requires
        current <= 100,
    ensures
        r == clamp_percent(current + step),
{
    if step >= 100 {
        MAX_LEVEL
    } else if step <= -100 {
        0
    } else {
        clamp_level(current as i64 + step)
    }
}

/// Lowering by `step` is raising by `-step`, computed without overflow.
pub fn lower_level(current: u32, step: i64) -> (r: u32)
    requires
        current <= 100,
    ensures
        r == clamp_percent(current - step),
{
    if step >= 100 {
        0
    } else if step <= -100 {
        MAX_LEVEL
    } else {
        clamp_level(current as i64 - step)
    }
}

} // verus!
