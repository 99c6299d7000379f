use vstd::prelude::*;

verus! {

// The scene query works on one hit distance per primitive, already encoded
// by the caller as a `u64` through any order-preserving code of the
// distances, with `None` for a primitive the ray misses.  Selecting the
// closest hit only compares distances, so the selection is exact on the
// codes and carries over to the distances themselves.

/// Whether candidate `j` hits within the open search interval below `t_max`.
pub open spec fn admissible(candidates: Seq<Option<u64>>, t_max: u64, j: int) -> bool {
    0 <= j < candidates.len() && candidates[j] is Some && candidates[j]->0 < t_max
}

/// Nearest-hit query over every primitive's own intersection result.
///
/// Scans the candidates in order, keeping a running closest-so-far distance
/// that starts at `t_max`; a candidate only replaces the retained hit when
/// it is strictly closer.  The returned hit, if any, is therefore the
/// globally minimal admissible distance, and of equally close hits the
/// first in scene order is kept.
pub fn nearest_hit(candidates: &Vec<Option<u64>>, t_max: u64) -> (r: Option<(usize, u64)>)
    ensures
        r is Some <==> exists|j: int| admissible(candidates@, t_max, j),
        r matches Some(hit) ==> {
            let (i, t) = hit;
            &&& admissible(candidates@, t_max, i as int)
            &&& candidates@[i as int] == Some(t)
            &&& forall|j: int| admissible(candidates@, t_max, j) ==> t <= candidates@[j]->0
            &&& forall|j: int| 0 <= j < i ==> (admissible(candidates@, t_max, j) ==> candidates@[j]->0 > t)
        },
{
    let mut best: Option<(usize, u64)> = None;
    let mut closest: u64 = t_max;
    let mut k: usize = 0;
    while k < candidates.len()
        invariant
            k <= candidates@.len(),
            best is None ==> {
                &&& closest == t_max
                &&& forall|j: int| j < k ==> !admissible(candidates@, t_max, j)
            },
            best matches Some(hit) ==> {
                let (i, t) = hit;
                &&& i < k
                &&& admissible(candidates@, t_max, i as int)
                &&& candidates@[i as int] == Some(t)
                &&& closest == t
                &&& forall|j: int| j < k && admissible(candidates@, t_max, j) ==> t <= candidates@[j]->0
                &&& forall|j: int| 0 <= j < i ==> (admissible(candidates@, t_max, j) ==> candidates@[j]->0 > t)
            },
        decreases candidates@.len() - k,
    {
        match candidates[k] {
            Some(t) => {
                if t < closest {
                    closest = t;
                    best = Some((k, t));
                }
            },
            None => {},
        }
        k = k + 1;
    }
    best
}

} // verus!
