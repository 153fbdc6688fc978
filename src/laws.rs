use vstd::prelude::*;
use crate::backend::level::clamp_percent;
use crate::backend::link::{connect_step, LinkState};

verus! {

/// Raising a percentage level by `step` and then lowering it by the same
/// step gives the starting level back, whenever the raised level stays
/// within [0, 100]. Both adapters' `increase_*` and `decrease_*` move their
/// level by `clamp_percent(level + step)` and `clamp_percent(level - step)`.
pub proof fn increase_then_decrease_restores(level: int, step: int)
    requires
        0 <= level <= 100,
        0 <= level + step <= 100,
    ensures
        clamp_percent(clamp_percent(level + step) - step) == level,
{
}

/// Setting a level clamps it: the result is always within [0, 100], equals
/// the request when the request is within range, and is the nearest bound
/// otherwise.
pub proof fn set_level_clamps(x: int)
    ensures
        0 <= clamp_percent(x) <= 100,
        0 <= x <= 100 ==> clamp_percent(x) == x,
        x > 100 ==> clamp_percent(x) == 100,
        x < 0 ==> clamp_percent(x) == 0,
{
}

/// Connection attempts on a live connection are idempotent: each one asks
/// to open nothing and leaves the state connected, however many follow.
pub proof fn repeated_connect_is_idempotent(s: LinkState)
    requires
        s == LinkState::Connected,
    ensures
        connect_step(s) == (false, s),
        connect_step(connect_step(s).1) == (false, s),
{
}

} // verus!
