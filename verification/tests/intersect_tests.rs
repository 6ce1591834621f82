// Closest-hit selection: the scene-level walk is in reverse
// declaration order with a strictly-closer replacement, the mesh-level
// walk in declaration order. Distances travel as positive-float bit
// patterns, whose unsigned order is the floats' order.

use pathtracer::intersect::{closest_triangle_hit, intersect_scene, Hit, SceneIntersectResult};
use pathtracer::vector_bits::VectorBits;

fn vb(x: f32, y: f32, z: f32) -> VectorBits {
    VectorBits { x: x.to_bits(), y: y.to_bits(), z: z.to_bits() }
}

fn hit_at(distance: f32, point: (f32, f32, f32), normal: (f32, f32, f32)) -> Hit {
    Hit {
        distance_bits: distance.to_bits(),
        intersection: vb(point.0, point.1, point.2),
        normal: vb(normal.0, normal.1, normal.2),
    }
}

// A ray from the origin down -z against a unit sphere at (0, 0, -3):
// the sphere's own intersection test yields distance 2.0 with point
// (0, 0, -2) and normal (0, 0, 1), and the scene selection hands that
// hit back as object 0's.
#[test]
fn test_intersect_scene() {
    let sphere_hit = hit_at(2.0, (0.0, 0.0, -2.0), (0.0, 0.0, 1.0));
    let candidates = vec![Some(sphere_hit)];

    let intersection = intersect_scene(&candidates);

    assert_eq!(
        intersection,
        Some(SceneIntersectResult { object_id: 0, hit: sphere_hit })
    );
}

// A ray aimed away from every object in the scene: no candidate holds
// a hit, so the scene reports no hit.
#[test]
fn scene_with_all_objects_missed_returns_no_hit() {
    assert_eq!(intersect_scene(&vec![]), None);
    assert_eq!(intersect_scene(&vec![None, None, None]), None);
}

#[test]
fn strictly_closer_object_wins_regardless_of_order() {
    let near = hit_at(1.5, (0.0, 0.0, -1.5), (0.0, 0.0, 1.0));
    let far = hit_at(4.0, (0.0, 0.0, -4.0), (0.0, 0.0, 1.0));

    let near_first = vec![Some(near), Some(far)];
    let r = intersect_scene(&near_first).unwrap();
    assert_eq!(r.object_id, 0);
    assert_eq!(r.hit, near);

    let far_first = vec![Some(far), Some(near)];
    let r = intersect_scene(&far_first).unwrap();
    assert_eq!(r.object_id, 1);
    assert_eq!(r.hit, near);
}

// Two objects overlapping at exactly equal distance along one ray: the
// object met first in the reverse walk — the one with the larger
// index — wins the tie.
#[test]
fn equal_distance_tie_goes_to_later_indexed_object() {
    let a = hit_at(2.0, (0.0, 0.0, -2.0), (0.0, 0.0, 1.0));
    let b = hit_at(2.0, (0.0, 0.0, -2.0), (0.0, 1.0, 0.0));

    let r = intersect_scene(&vec![Some(a), Some(b)]).unwrap();
    assert_eq!(r.object_id, 1);
    assert_eq!(r.hit, b);

    let r = intersect_scene(&vec![Some(a), None, Some(b), None]).unwrap();
    assert_eq!(r.object_id, 2);
    assert_eq!(r.hit, b);
}

#[test]
fn misses_between_hits_are_skipped() {
    let only = hit_at(7.25, (1.0, 2.0, 3.0), (0.0, 1.0, 0.0));
    let r = intersect_scene(&vec![None, Some(only), None]).unwrap();
    assert_eq!(r.object_id, 1);
    assert_eq!(r.hit, only);
}

// The bridge the selection rests on: for positive finite floats, the
// unsigned order of the IEEE 754 bit patterns is the order of the
// floats themselves — so comparing `distance_bits` compares distances.
#[test]
fn bit_pattern_order_is_float_order_for_positive_floats() {
    let distances: [f32; 8] = [1e-40, 1e-4, 0.5, 1.0, 3.14159, 2.0, 1e8, f32::MAX];
    for &a in &distances {
        for &b in &distances {
            assert_eq!(a < b, a.to_bits() < b.to_bits());
            assert_eq!(a == b, a.to_bits() == b.to_bits());
        }
    }
}

#[test]
fn selection_agrees_with_a_float_reference() {
    let ds: [f32; 5] = [2.5, 0.75, 1e-3, 0.75, 40.0];
    let candidates: Vec<Option<Hit>> = ds
        .iter()
        .map(|&d| Some(hit_at(d, (0.0, 0.0, -d), (0.0, 0.0, 1.0))))
        .collect();

    // Reference walk in float, reverse order, strictly-closer wins.
    let mut expect: Option<(usize, f32)> = None;
    for i in (0..ds.len()).rev() {
        match expect {
            None => expect = Some((i, ds[i])),
            Some((_, best)) => {
                if ds[i] < best {
                    expect = Some((i, ds[i]));
                }
            }
        }
    }
    let expect = expect.unwrap();

    let got = intersect_scene(&candidates).unwrap();
    assert_eq!(got.object_id, expect.0);
    assert_eq!(got.hit.distance_bits, expect.1.to_bits());
}

#[test]
fn triangle_selection_keeps_first_of_equal_hits() {
    let a = hit_at(3.0, (0.0, 0.0, -3.0), (0.0, 0.0, 1.0));
    let b = hit_at(3.0, (0.0, 0.0, -3.0), (0.0, 1.0, 0.0));
    let nearer = hit_at(2.5, (0.0, 0.0, -2.5), (0.0, 0.0, 1.0));

    // At equal distances the triangle walked first (lower index) stays.
    let r = closest_triangle_hit(&vec![Some(a), Some(b)]).unwrap();
    assert_eq!(r.0, 0);
    assert_eq!(r.1, a);

    // A strictly closer triangle replaces it.
    let r = closest_triangle_hit(&vec![Some(a), Some(nearer), Some(b)]).unwrap();
    assert_eq!(r.0, 1);
    assert_eq!(r.1, nearer);

    assert_eq!(closest_triangle_hit(&vec![None, None]), None);
}
