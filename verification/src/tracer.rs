use vstd::prelude::*;

verus! {

// The integrator follows one path iteratively: query the scene, then either
// emit a final radiance term or scatter and go one level deeper, under a
// hard depth cutoff.  The decision itself is exact; the caller carries the
// ray, the accumulated attenuation, and the scene query between steps.

/// What the path integrator does next after one scene query.
#[derive(Clone, Copy, PartialEq, Eq, Structural, Debug)]
pub enum PathDecision {
    /// The ray escaped the scene: emit the background gradient for the
    /// ray's direction, the system's only light source.
    EmitBackground,
    /// The path ends dark: the depth bound cut it off.
    EmitBlack,
    /// Invoke the struck material's scatter rule and follow the outgoing
    /// ray at the given depth.
    Scatter { next_depth: u32 },
}

/// One control step of the tracer: a miss yields the background, a hit
/// within the depth bound scatters and deepens the path by one, and a hit
/// at the bound is cut off hard to black.
pub fn trace_step(depth: u32, max_depth: u32, hit: bool) -> (r: PathDecision)
    ensures
        !hit ==> r == PathDecision::EmitBackground,
        hit && depth >= max_depth ==> r == PathDecision::EmitBlack,
        hit && depth < max_depth ==> r == (PathDecision::Scatter { next_depth: (depth + 1) as u32 }),
{
    if !hit {
        PathDecision::EmitBackground
    } else if depth >= max_depth {
        PathDecision::EmitBlack
    } else {
        PathDecision::Scatter { next_depth: depth + 1 }
    }
}

} // verus!
