use scene_viewer::cylinder::{isqrt_u64, try_cylinder_placement, CylinderPlacement};
use scene_viewer::vec3::Vec3i;

#[test]
fn center_is_midpoint_and_height_is_distance() {
    let a = Vec3i::new(0, 0, 0);
    let b = Vec3i::new(2, 0, 0);
    let c = try_cylinder_placement(a, b).unwrap();
    assert_eq!(c.center_doubled, Vec3i::new(2, 0, 0));
    assert_eq!(c.axis, Vec3i::new(2, 0, 0));
    assert_eq!(c.height_sq, 4);
    assert_eq!(c.height_floor(), 2);
}

#[test]
fn placement_of_a_skew_segment() {
    let a = Vec3i::new(-1, 2, 5);
    let b = Vec3i::new(3, -4, 7);
    let c = try_cylinder_placement(a, b).unwrap();
    assert_eq!(c.center_doubled, Vec3i::new(2, -2, 12));
    assert_eq!(c.axis, Vec3i::new(4, -6, 2));
    assert_eq!(c.height_sq, 16 + 36 + 4);
}

#[test]
fn placement_is_symmetric_in_center_and_height() {
    let a = Vec3i::new(-3, 0, 0);
    let b = Vec3i::new(-2, 0, 4);
    let ab = try_cylinder_placement(a, b).unwrap();
    let ba = try_cylinder_placement(b, a).unwrap();
    assert_eq!(ab.center_doubled, ba.center_doubled);
    assert_eq!(ab.height_sq, ba.height_sq);
    assert_eq!(ab.axis, Vec3i::new(1, 0, 4));
    assert_eq!(ba.axis, Vec3i::new(-1, 0, -4));
}

#[test]
fn equal_endpoints_are_skipped() {
    let a = Vec3i::new(7, -8, 9);
    assert!(try_cylinder_placement(a, a).is_none());
    assert!(try_cylinder_placement(Vec3i::new(0, 0, 0), Vec3i::new(0, 0, 0)).is_none());
}

#[test]
fn distinct_endpoints_always_place() {
    let a = Vec3i::new(0, 0, 0);
    let b = Vec3i::new(0, 0, 1);
    assert!(try_cylinder_placement(a, b).is_some());
}

#[test]
fn height_floor_of_inexact_distance() {
    let a = Vec3i::new(0, 0, 0);
    let b = Vec3i::new(1, 1, 1);
    let c = try_cylinder_placement(a, b).unwrap();
    assert_eq!(c.height_sq, 3);
    assert_eq!(c.height_floor(), 1);
}

#[test]
fn isqrt_small_values() {
    assert_eq!(isqrt_u64(0), 0);
    assert_eq!(isqrt_u64(1), 1);
    assert_eq!(isqrt_u64(2), 1);
    assert_eq!(isqrt_u64(3), 1);
    assert_eq!(isqrt_u64(4), 2);
    assert_eq!(isqrt_u64(8), 2);
    assert_eq!(isqrt_u64(9), 3);
    assert_eq!(isqrt_u64(15), 3);
    assert_eq!(isqrt_u64(16), 4);
    assert_eq!(isqrt_u64(17), 4);
}

#[test]
fn isqrt_large_values() {
    assert_eq!(isqrt_u64(u64::MAX), 4_294_967_295);
    assert_eq!(isqrt_u64(4_294_967_295 * 4_294_967_295), 4_294_967_295);
    assert_eq!(isqrt_u64(1_000_000_007 * 1_000_000_007 - 1), 1_000_000_006);
}

#[test]
fn placement_fields_copy_and_compare() {
    let a = Vec3i::new(0, 0, 0);
    let b = Vec3i::new(1, 0, 0);
    let c: CylinderPlacement = try_cylinder_placement(a, b).unwrap();
    let d = c;
    assert_eq!(c, d);
}
