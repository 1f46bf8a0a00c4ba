use vstd::prelude::*;

verus! {

use crate::convert::{convert_position_zup_to_yup, lemma_zup_to_yup_injective, zup_to_yup_v};
use crate::cylinder::{placement_spec, try_cylinder_placement, CylinderPlacement};
use crate::vec3::Vec3i;

/// How many cylinders the scene holds.
pub const SCENE_CYLINDER_COUNT: usize = 11;

/// Cylinder radius, in thousandths of a scene unit.
pub const CYLINDER_RADIUS_MILLI: i64 = 300;

/// Side length of the square ground plane, in scene units.
pub const PLANE_SIZE: i64 = 15;

/// The fixed endpoint pairs of the scene's cylinders, in the z-up convention
/// the scene data is written in.
pub open spec fn scene_pair(i: int) -> (Vec3i, Vec3i) {
    if i == 0 {
        (Vec3i { x: -3i64, y: 0i64, z: 0i64 }, Vec3i { x: -2i64, y: 0i64, z: 4i64 })
    } else if i == 1 {
        (Vec3i { x: -2i64, y: 0i64, z: 4i64 }, Vec3i { x: -1i64, y: 0i64, z: 9i64 })
    } else if i == 2 {
        (Vec3i { x: 3i64, y: 0i64, z: 0i64 }, Vec3i { x: 2i64, y: 0i64, z: 4i64 })
    } else if i == 3 {
        (Vec3i { x: 2i64, y: 0i64, z: 4i64 }, Vec3i { x: 1i64, y: 0i64, z: 9i64 })
    } else if i == 4 {
        (Vec3i { x: -1i64, y: 0i64, z: 9i64 }, Vec3i { x: 1i64, y: 0i64, z: 9i64 })
    } else if i == 5 {
        (Vec3i { x: -2i64, y: 0i64, z: 4i64 }, Vec3i { x: 2i64, y: 0i64, z: 4i64 })
    } else if i == 6 {
        (Vec3i { x: -2i64, y: 0i64, z: 4i64 }, Vec3i { x: 2i64, y: 0i64, z: 4i64 })
    } else if i == 7 {
        (Vec3i { x: -3i64, y: 0i64, z: 0i64 }, Vec3i { x: 0i64, y: 0i64, z: 2i64 })
    } else if i == 8 {
        (Vec3i { x: 0i64, y: 0i64, z: 2i64 }, Vec3i { x: 2i64, y: 0i64, z: 4i64 })
    } else if i == 9 {
        (Vec3i { x: 3i64, y: 0i64, z: 0i64 }, Vec3i { x: 0i64, y: 0i64, z: 2i64 })
    } else if i == 10 {
        (Vec3i { x: 0i64, y: 0i64, z: 2i64 }, Vec3i { x: -2i64, y: 0i64, z: 4i64 })
    } else {
        (Vec3i { x: 0i64, y: 0i64, z: 0i64 }, Vec3i { x: 0i64, y: 0i64, z: 0i64 })
    }
}

/// Every scene pair lies within the coordinate bound and has distinct
/// endpoints, so every one yields a cylinder.
pub proof fn lemma_scene_pair_valid(i: int)
    requires
        0 <= i < SCENE_CYLINDER_COUNT,
    ensures
        scene_pair(i).0.in_bounds(),
        scene_pair(i).1.in_bounds(),
        scene_pair(i).0 != scene_pair(i).1,
{
}

/// The scene's cylinder endpoint pairs, in the z-up convention.
pub fn cylinder_positions() -> (r: Vec<(Vec3i, Vec3i)>)
    ensures
        r@.len() == SCENE_CYLINDER_COUNT,
        forall|i: int| 0 <= i < r@.len() ==> #[trigger] r@[i] == scene_pair(i),
{
    let mut v: Vec<(Vec3i, Vec3i)> = Vec::new();
    v.push((Vec3i::new(-3, 0, 0), Vec3i::new(-2, 0, 4)));
    v.push((Vec3i::new(-2, 0, 4), Vec3i::new(-1, 0, 9)));
    v.push((Vec3i::new(3, 0, 0), Vec3i::new(2, 0, 4)));
    v.push((Vec3i::new(2, 0, 4), Vec3i::new(1, 0, 9)));
    v.push((Vec3i::new(-1, 0, 9), Vec3i::new(1, 0, 9)));
    v.push((Vec3i::new(-2, 0, 4), Vec3i::new(2, 0, 4)));
    v.push((Vec3i::new(-2, 0, 4), Vec3i::new(2, 0, 4)));
    v.push((Vec3i::new(-3, 0, 0), Vec3i::new(0, 0, 2)));
    v.push((Vec3i::new(0, 0, 2), Vec3i::new(2, 0, 4)));
    v.push((Vec3i::new(3, 0, 0), Vec3i::new(0, 0, 2)));
    v.push((Vec3i::new(0, 0, 2), Vec3i::new(-2, 0, 4)));
    v
}

/// The placement at position `i` of the scene: both endpoints of the `i`-th
/// pair taken to the y-up convention, then placed.
pub open spec fn scene_placement_ok(i: int, c: CylinderPlacement) -> bool {
    c@ == placement_spec(zup_to_yup_v(scene_pair(i).0@), zup_to_yup_v(scene_pair(i).1@))
}

/// The placements of all the scene's cylinders, in scene order: each endpoint
/// pair converted from z-up to y-up and placed. No pair of the scene is
/// degenerate, so every pair yields a placement.
pub fn scene_cylinders() -> (r: Vec<CylinderPlacement>)
    ensures
        r@.len() == SCENE_CYLINDER_COUNT,
        forall|i: int| 0 <= i < r@.len() ==> scene_placement_ok(i, #[trigger] r@[i]),
{
    let positions = cylinder_positions();
    let mut out: Vec<CylinderPlacement> = Vec::new();
    let mut idx: usize = 0;
    while idx < positions.len()
        invariant
            positions@.len() == SCENE_CYLINDER_COUNT,
            forall|i: int| 0 <= i < positions@.len() ==> #[trigger] positions@[i] == scene_pair(i),
            idx <= positions@.len(),
            out@.len() == idx,
            forall|i: int| 0 <= i < idx ==> scene_placement_ok(i, #[trigger] out@[i]),
        decreases positions@.len() - idx,
    {
        let (a, b) = positions[idx];
        proof {
            lemma_scene_pair_valid(idx as int);
        }
        let a_yup = convert_position_zup_to_yup(a);
        let b_yup = convert_position_zup_to_yup(b);
        match try_cylinder_placement(a_yup, b_yup) {
            Some(c) => {
                out.push(c);
            },
            None => {
                proof {
                    lemma_zup_to_yup_injective(a@, b@);
                    assert(false);
                }
            },
        }
        idx = idx + 1;
    }
    out
}

} // verus!
