use vstd::prelude::*;

verus! {

use crate::vec3::{dist_sq, v3_add, v3_dot, v3_sub, V3, Vec3i};

/// Everything the engine needs to draw a cylinder between two points, held
/// exactly: the midpoint is carried doubled so that it stays an integer, the
/// height is carried squared, and the axis is the unnormalised direction
/// from the start point to the end point.
#[derive(Clone, Copy, Debug, PartialEq, Eq, Structural)]
pub struct CylinderPlacement {
    /// Twice the cylinder's center: the vector sum of the two endpoints.
    pub center_doubled: Vec3i,
    /// The direction from the start point to the end point, unnormalised.
    pub axis: Vec3i,
    /// The square of the cylinder's height (the distance between the
    /// endpoints).
    pub height_sq: i64,
}

/// The mathematical value of a `CylinderPlacement`.
#[verifier::ext_equal]
pub ghost struct PlacementV3 {
    pub center_doubled: V3,
    pub axis: V3,
    pub height_sq: int,
}

impl View for CylinderPlacement {
    type V = PlacementV3;

    open spec fn view(&self) -> PlacementV3 {
        PlacementV3 {
            center_doubled: self.center_doubled@,
            axis: self.axis@,
            height_sq: self.height_sq as int,
        }
    }
}

/// The placement of a cylinder stretched from `a` to `b`: doubled center
/// `a + b`, axis `b - a`, squared height `dist_sq(a, b)`.
pub open spec fn placement_spec(a: V3, b: V3) -> PlacementV3 {
    PlacementV3 { center_doubled: v3_add(a, b), axis: v3_sub(b, a), height_sq: dist_sq(a, b) }
}

/// A squared distance is never negative, and it vanishes exactly on equal
/// points.
pub proof fn lemma_dist_sq_zero_iff_eq(a: V3, b: V3)
    ensures
        dist_sq(a, b) >= 0,
        dist_sq(a, b) == 0 <==> a == b,
{
    let d = v3_sub(b, a);
    assert(d.x * d.x >= 0 && d.y * d.y >= 0 && d.z * d.z >= 0) by (nonlinear_arith);
    if dist_sq(a, b) == 0 {
        assert(d.x * d.x == 0 && d.y * d.y == 0 && d.z * d.z == 0);
        assert(d.x == 0 && d.y == 0 && d.z == 0) by (nonlinear_arith)
            requires
                d.x * d.x == 0,
                d.y * d.y == 0,
                d.z * d.z == 0,
        ;
        assert(a =~= b);
    }
    if a == b {
        assert(d.x == 0 && d.y == 0 && d.z == 0);
        assert(d.x * d.x == 0 && d.y * d.y == 0 && d.z * d.z == 0) by (nonlinear_arith)
            requires
                d.x == 0,
                d.y == 0,
                d.z == 0,
        ;
    }
}

/// For two distinct endpoints the computed placement puts the (doubled)
/// center at the vector sum of the endpoints — so the center itself is their
/// midpoint — and its squared height is the squared Euclidean distance
/// between them, which is then strictly positive.
pub proof fn lemma_placement_midpoint_and_height(a: V3, b: V3)
    requires
        a != b,
    ensures
        placement_spec(a, b).center_doubled == v3_add(a, b),
        placement_spec(a, b).height_sq == dist_sq(a, b),
        placement_spec(a, b).height_sq > 0,
{
    lemma_dist_sq_zero_iff_eq(a, b);
}

/// The placement of a cylinder stretched from `start` to `end`, or `None`
/// when the endpoints coincide: a degenerate segment has no direction to
/// align a cylinder with, so it is skipped.
pub fn try_cylinder_placement(start: Vec3i, end: Vec3i) -> (r: Option<CylinderPlacement>)
    requires
        start.in_bounds(),
        end.in_bounds(),
    ensures
        r is Some <==> start != end,
        r matches Some(c) ==> c@ == placement_spec(start@, end@),
        r matches Some(c) ==> c.height_sq > 0,
{
    if start == end {
        None
    } else {
        let center_doubled = start.add(end);
        let axis = end.sub(start);
        let height_sq = axis.dot(axis);
        proof {
            lemma_dist_sq_zero_iff_eq(start@, end@);
            if start@ == end@ {
                assert(start == end);
            }
        }
        Some(CylinderPlacement { center_doubled, axis, height_sq })
    }
}

/// The integer square root: the largest `r` with `r * r <= n`.
pub fn isqrt_u64(n: u64) -> (r: u64)
    ensures
        r * r <= n < (r + 1) * (r + 1),
{
    let mut lo: u64 = 0;
    let mut hi: u64 = 0x1_0000_0000;
    while lo + 1 < hi
        invariant
            lo < hi <= 0x1_0000_0000,
            lo * lo <= n,
            n < hi * hi,
        decreases hi - lo,
    {
        let mid: u64 = lo + (hi - lo) / 2;
        proof {
            assert(mid * mid < 0x1_0000_0000_0000_0000) by (nonlinear_arith)
                requires
                    mid < 0x1_0000_0000,
            ;
        }
        if mid * mid <= n {
            lo = mid;
        } else {
            hi = mid;
        }
    }
    lo
}

impl CylinderPlacement {
    /// The integer floor of the cylinder's height, the Euclidean distance
    /// between its endpoints.
    pub fn height_floor(&self) -> (r: u64)
        requires
            self.height_sq >= 0,
        ensures
            r * r <= self.height_sq < (r + 1) * (r + 1),
    {
        isqrt_u64(self.height_sq as u64)
    }
}

} // verus!
