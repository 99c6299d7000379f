use vstd::prelude::*;

verus! {

// Acceptance of a candidate hit distance against the ray's valid interval
// is pure ordering, so it is decided here on the same order-preserving
// `u64` distance codes that the nearest-hit scan uses.

/// Whether a hit distance lies strictly inside the valid interval.
pub open spec fn inside(t: u64, t_min: u64, t_max: u64) -> bool {
    t_min < t && t < t_max
}

/// Accept a shape's single candidate hit distance only when it lies
/// strictly inside the valid interval.
pub fn accept_hit(t: u64, t_min: u64, t_max: u64) -> (r: Option<u64>)
    ensures
        r == if inside(t, t_min, t_max) {
            Some(t)
        } else {
            None::<u64>
        },
{
    if t_min < t && t < t_max {
        Some(t)
    } else {
        None
    }
}

/// Choose between the two roots of the sphere quadratic: the nearer root
/// when it lies strictly inside the valid interval, else the farther root
/// under the same test, else a miss.
pub fn accept_root(t_near: u64, t_far: u64, t_min: u64, t_max: u64) -> (r: Option<u64>)
    ensures
        inside(t_near, t_min, t_max) ==> r == Some(t_near),
        !inside(t_near, t_min, t_max) && inside(t_far, t_min, t_max) ==> r == Some(t_far),
        !inside(t_near, t_min, t_max) && !inside(t_far, t_min, t_max) ==> r is None,
{
    if t_min < t_near && t_near < t_max {
        Some(t_near)
    } else if t_min < t_far && t_far < t_max {
        Some(t_far)
    } else {
        None
    }
}

} // verus!
