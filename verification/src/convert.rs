use vstd::prelude::*;

verus! {

use crate::vec3::{V3, Vec3i};

/// A z-up point `(x, y, z)` expressed in the engine's y-up convention:
/// `(x, z, -y)`.
pub open spec fn zup_to_yup_v(p: V3) -> V3 {
    V3 { x: p.x, y: p.z, z: -p.y }
}

/// The inverse remap, back from y-up to z-up: `(x, y, z)` becomes `(x, -z, y)`.
pub open spec fn yup_to_zup_v(p: V3) -> V3 {
    V3 { x: p.x, y: -p.z, z: p.y }
}

/// Converts a point from the z-up convention the scene data is written in to
/// the engine's y-up convention.
pub fn convert_position_zup_to_yup(p: Vec3i) -> (r: Vec3i)
    requires
        i64::MIN < p.y,
    ensures
        r@ == zup_to_yup_v(p@),
{
    Vec3i { x: p.x, y: p.z, z: -p.y }
}

/// Converts a point from the engine's y-up convention back to z-up.
pub fn convert_position_yup_to_zup(p: Vec3i) -> (r: Vec3i)
    requires
        i64::MIN < p.z,
    ensures
        r@ == yup_to_zup_v(p@),
{
    Vec3i { x: p.x, y: -p.z, z: p.y }
}

/// The axis conversion sends `(x, y, z)` to `(x, z, -y)` exactly, and the two
/// conversions are mutually inverse: applying one after the other recovers
/// the original point.
pub proof fn lemma_axis_conversion_round_trip(p: V3)
    ensures
        zup_to_yup_v(p) == (V3 { x: p.x, y: p.z, z: -p.y }),
        yup_to_zup_v(zup_to_yup_v(p)) == p,
        zup_to_yup_v(yup_to_zup_v(p)) == p,
{
    assert(yup_to_zup_v(zup_to_yup_v(p)) =~= p);
    assert(zup_to_yup_v(yup_to_zup_v(p)) =~= p);
}

/// Distinct points stay distinct under the axis conversion.
pub proof fn lemma_zup_to_yup_injective(p: V3, q: V3)
    requires
        p != q,
    ensures
        zup_to_yup_v(p) != zup_to_yup_v(q),
{
    if zup_to_yup_v(p) == zup_to_yup_v(q) {
        assert(p =~= q);
    }
}

} // verus!
