use vstd::prelude::*;

verus! {

/// Largest coordinate magnitude the library accepts. The scene this library
/// models lives within a few dozen units of the origin, so a generous bound
/// keeps every sum and product of coordinates far inside `i64`.
pub const COORD_LIMIT: i64 = 1_000_000;

/// A point or direction in 3-space with exact integer coordinates.
#[derive(Clone, Copy, Debug, PartialEq, Eq, Structural)]
pub struct Vec3i {
    pub x: i64,
    pub y: i64,
    pub z: i64,
}

/// The mathematical value of a `Vec3i`: the same three coordinates as
/// unbounded integers.
#[verifier::ext_equal]
pub ghost struct V3 {
    pub x: int,
    pub y: int,
    pub z: int,
}

impl View for Vec3i {
    type V = V3;

    open spec fn view(&self) -> V3 {
        V3 { x: self.x as int, y: self.y as int, z: self.z as int }
    }
}

pub open spec fn v3_add(a: V3, b: V3) -> V3 {
    V3 { x: a.x + b.x, y: a.y + b.y, z: a.z + b.z }
}

pub open spec fn v3_sub(a: V3, b: V3) -> V3 {
    V3 { x: a.x - b.x, y: a.y - b.y, z: a.z - b.z }
}

pub open spec fn v3_dot(a: V3, b: V3) -> int {
    a.x * b.x + a.y * b.y + a.z * b.z
}

/// Squared Euclidean distance between two points.
pub open spec fn dist_sq(a: V3, b: V3) -> int {
    v3_dot(v3_sub(b, a), v3_sub(b, a))
}

impl Vec3i {
    /// Every coordinate lies within `-m ..= m`.
    pub open spec fn bounded_by(self, m: int) -> bool {
        &&& -m <= self.x <= m
        &&& -m <= self.y <= m
        &&& -m <= self.z <= m
    }

    /// The coordinate range the library accepts for scene points.
    pub open spec fn in_bounds(self) -> bool {
        self.bounded_by(COORD_LIMIT as int)
    }

    pub fn new(x: i64, y: i64, z: i64) -> (r: Vec3i)
        ensures
            r.x == x,
            r.y == y,
            r.z == z,
    {
        Vec3i { x, y, z }
    }

    pub fn add(self, other: Vec3i) -> (r: Vec3i)
        requires
            self.in_bounds(),
            other.in_bounds(),
        ensures
            r@ == v3_add(self@, other@),
    {
        Vec3i { x: self.x + other.x, y: self.y + other.y, z: self.z + other.z }
    }

    pub fn sub(self, other: Vec3i) -> (r: Vec3i)
        requires
            self.in_bounds(),
            other.in_bounds(),
        ensures
            r@ == v3_sub(self@, other@),
            r.bounded_by(2 * COORD_LIMIT),
    {
        Vec3i { x: self.x - other.x, y: self.y - other.y, z: self.z - other.z }
    }

    pub fn dot(self, other: Vec3i) -> (r: i64)
        requires
            self.bounded_by(2 * COORD_LIMIT),
            other.bounded_by(2 * COORD_LIMIT),
        ensures
            r == v3_dot(self@, other@),
    {
        proof {
            assert(-4_000_000_000_000 <= self.x * other.x <= 4_000_000_000_000)
                by (nonlinear_arith)
                requires
                    -2_000_000 <= self.x <= 2_000_000,
                    -2_000_000 <= other.x <= 2_000_000,
            ;
            assert(-4_000_000_000_000 <= self.y * other.y <= 4_000_000_000_000)
                by (nonlinear_arith)
                requires
                    -2_000_000 <= self.y <= 2_000_000,
                    -2_000_000 <= other.y <= 2_000_000,
            ;
            assert(-4_000_000_000_000 <= self.z * other.z <= 4_000_000_000_000)
                by (nonlinear_arith)
                requires
                    -2_000_000 <= self.z <= 2_000_000,
                    -2_000_000 <= other.z <= 2_000_000,
            ;
        }
        self.x * other.x + self.y * other.y + self.z * other.z
    }
}

} // verus!
