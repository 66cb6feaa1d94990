use vstd::prelude::*;

verus! {

/// The largest value of a drive or affinity, in tenths (100.0 points).
pub const MAX_LEVEL: u32 = 1000;

/// `v + d`, held at the ceiling of 100.0 points.
pub open spec fn raised(v: u32, d: u32) -> u32 {
    if v as int + d as int > MAX_LEVEL as int {
        MAX_LEVEL
    } else {
        (v + d) as u32
    }
}

/// `v - d`, held at the floor of 0.
pub open spec fn lowered(v: u32, d: u32) -> u32 {
    if v < d {
        0
    } else {
        (v - d) as u32
    }
}

pub fn raise(v: u32, d: u32) -> (r: u32)
    requires
        v <= MAX_LEVEL,
        d <= MAX_LEVEL,
    ensures
        r == raised(v, d),
        r <= MAX_LEVEL,
{
    if v + d > MAX_LEVEL {
        MAX_LEVEL
    } else {
        v + d
    }
}

pub fn lower(v: u32, d: u32) -> (r: u32)
    requires
        v <= MAX_LEVEL,
    ensures
        r == lowered(v, d),
        r <= MAX_LEVEL,
{
    if v < d {
        0
    } else {
        v - d
    }
}

} // verus!
