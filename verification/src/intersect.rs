use vstd::prelude::*;

use crate::vector_bits::VectorBits;

verus! {

/// Closest-hit selection.
///
/// The floating-point ray/primitive formulas run in the application
/// layer; each candidate intersection arrives here as a `Hit` whose
/// distance along the ray is carried as the IEEE 754 bit pattern of a
/// positive finite 32-bit float. For such floats the unsigned order of
/// the bit patterns is exactly the order of the floats, so "closest"
/// is an integer comparison and the scene-level selection — including
/// its tie-break, which is observable — is decided here.

/// One candidate intersection: the parametric distance along the ray
/// (as a positive-float bit pattern), the hit point and the surface
/// normal (channel bit patterns; this module only carries them).
#[derive(Clone, Copy, PartialEq, Eq, Structural, Debug)]
pub struct Hit {
    pub distance_bits: u32,
    pub intersection: VectorBits,
    pub normal: VectorBits,
}

/// The hit the scene-level selection settled on, and which object it
/// belongs to.
#[derive(Clone, Copy, PartialEq, Eq, Structural, Debug)]
pub struct SceneIntersectResult {
    pub object_id: usize,
    pub hit: Hit,
}

/// The distance of a candidate that is known to hold a hit.
pub open spec fn hit_distance(c: Option<Hit>) -> u32 {
    match c {
        Some(h) => h.distance_bits,
        None => 0u32,
    }
}

/// Selects the closest hit over a scene's objects, walking the object
/// list in reverse declaration order and replacing the best candidate
/// only on a strictly smaller distance — so at exactly equal distances
/// the object encountered first in that reverse walk, the one with the
/// larger index, wins. `candidates[i]` is object `i`'s own intersection
/// result (`None` where the ray misses object `i`).
pub fn intersect_scene(candidates: &Vec<Option<Hit>>) -> (r: Option<SceneIntersectResult>)
    ensures
        (r is None) <==> (forall|k: int|
            0 <= k < candidates@.len() ==> !(candidates@[k] is Some)),
        r matches Some(res) ==> {
            &&& res.object_id < candidates@.len()
            &&& candidates@[res.object_id as int] == Some(res.hit)
            &&& forall|k: int|
                0 <= k < candidates@.len() && candidates@[k] is Some
                    ==> res.hit.distance_bits <= hit_distance(#[trigger] candidates@[k])
            &&& forall|k: int|
                res.object_id < k < candidates@.len() && candidates@[k] is Some
                    ==> res.hit.distance_bits < hit_distance(#[trigger] candidates@[k])
        },
{
    let mut best: Option<SceneIntersectResult> = None;
    let mut i: usize = candidates.len();
    while i > 0
        invariant
            i <= candidates@.len(),
            (best is None) <==> (forall|k: int|
                i <= k < candidates@.len() ==> !(candidates@[k] is Some)),
            best matches Some(res) ==> {
                &&& i <= res.object_id < candidates@.len()
                &&& candidates@[res.object_id as int] == Some(res.hit)
                &&& forall|k: int|
                    i <= k < candidates@.len() && candidates@[k] is Some
                        ==> res.hit.distance_bits <= hit_distance(#[trigger] candidates@[k])
                &&& forall|k: int|
                    res.object_id < k < candidates@.len() && candidates@[k] is Some
                        ==> res.hit.distance_bits < hit_distance(#[trigger] candidates@[k])
            },
        decreases i,
    {
        i = i - 1;
        if let Some(h) = candidates[i] {
            let replace = match &best {
                None => true,
                Some(res) => h.distance_bits < res.hit.distance_bits,
            };
            if replace {
                best = Some(SceneIntersectResult { object_id: i, hit: h });
            }
        }
    }
    best
}

/// The tie-break leaves no slack: any two results that both meet
/// `intersect_scene`'s postcondition — a held hit of minimal distance
/// whose index no later-indexed hit matches — are the same result. So
/// the scene intersection is a function of the candidate list alone,
/// which is what keeps a render with fixed random draws reproducible.
pub proof fn lemma_selection_is_determined(
    candidates: Seq<Option<Hit>>,
    j1: usize,
    h1: Hit,
    j2: usize,
    h2: Hit,
)
    requires
        j1 < candidates.len(),
        candidates[j1 as int] == Some(h1),
        forall|k: int|
            0 <= k < candidates.len() && candidates[k] is Some ==> h1.distance_bits
                <= hit_distance(#[trigger] candidates[k]),
        forall|k: int|
            j1 < k < candidates.len() && candidates[k] is Some ==> h1.distance_bits
                < hit_distance(#[trigger] candidates[k]),
        j2 < candidates.len(),
        candidates[j2 as int] == Some(h2),
        forall|k: int|
            0 <= k < candidates.len() && candidates[k] is Some ==> h2.distance_bits
                <= hit_distance(#[trigger] candidates[k]),
        forall|k: int|
            j2 < k < candidates.len() && candidates[k] is Some ==> h2.distance_bits
                < hit_distance(#[trigger] candidates[k]),
    ensures
        j1 == j2,
        h1 == h2,
{
    if j1 < j2 {
        assert(h1.distance_bits < hit_distance(candidates[j2 as int]));
        assert(h2.distance_bits <= hit_distance(candidates[j1 as int]));
    }
    if j2 < j1 {
        assert(h2.distance_bits < hit_distance(candidates[j1 as int]));
        assert(h1.distance_bits <= hit_distance(candidates[j2 as int]));
    }
}

/// Selects the closest valid hit among a mesh's triangles, walking the
/// triangle list in declaration order and replacing only on a strictly
/// smaller distance — so at exactly equal distances the triangle with
/// the smaller index wins. Returns that triangle's index with its hit.
pub fn closest_triangle_hit(candidates: &Vec<Option<Hit>>) -> (r: Option<(usize, Hit)>)
    ensures
        (r is None) <==> (forall|k: int|
            0 <= k < candidates@.len() ==> !(candidates@[k] is Some)),
        r matches Some(th) ==> {
            &&& th.0 < candidates@.len()
            &&& candidates@[th.0 as int] == Some(th.1)
            &&& forall|k: int|
                0 <= k < candidates@.len() && candidates@[k] is Some
                    ==> th.1.distance_bits <= hit_distance(#[trigger] candidates@[k])
            &&& forall|k: int|
                0 <= k < th.0 && candidates@[k] is Some
                    ==> th.1.distance_bits < hit_distance(#[trigger] candidates@[k])
        },
{
    let mut best: Option<(usize, Hit)> = None;
    let mut i: usize = 0;
    while i < candidates.len()
        invariant
            i <= candidates@.len(),
            (best is None) <==> (forall|k: int| 0 <= k < i ==> !(candidates@[k] is Some)),
            best matches Some(th) ==> {
                &&& th.0 < i
                &&& candidates@[th.0 as int] == Some(th.1)
                &&& forall|k: int|
                    0 <= k < i && candidates@[k] is Some
                        ==> th.1.distance_bits <= hit_distance(#[trigger] candidates@[k])
                &&& forall|k: int|
                    0 <= k < th.0 && candidates@[k] is Some
                        ==> th.1.distance_bits < hit_distance(#[trigger] candidates@[k])
            },
        decreases candidates@.len() - i,
    {
        if let Some(h) = candidates[i] {
            let replace = match &best {
                None => true,
                Some(th) => h.distance_bits < th.1.distance_bits,
            };
            if replace {
                best = Some((i, h));
            }
        }
        i = i + 1;
    }
    best
}

} // verus!
