//! Three-dimensional geometry for pattern design, in fixed-point
//! milli-units (one unit of length is represented as 1000).
//!
//! The spine direction table gives, for each of the twelve spines, a unit
//! vector from the device centre expressed in the accelerometer's coordinate
//! frame.  The canonical directions (icosahedral vertices, permutations of
//! `(0, +-1, +-1.618)`) are defined in the visualiser frame; a fixed
//! rotation maps them into the sensor frame, and the table below holds the
//! rotated vectors rounded to milli-units.

use vstd::prelude::*;

verus! {

/// Largest component magnitude `dot` accepts; keeps the product sum well
/// inside the `i64` range.
pub const VEC_COMP_LIMIT: i64 = 1_000_000_000;

/// A 3-vector with components in milli-units.
#[derive(Clone, Copy, Debug, PartialEq, Eq, Structural)]
pub struct IVec3 {
    pub x: i64,
    pub y: i64,
    pub z: i64,
}

impl IVec3 {
    /// All three components within `limit` in magnitude.
    pub open spec fn bounded(self, limit: int) -> bool {
        &&& -limit <= self.x <= limit
        &&& -limit <= self.y <= limit
        &&& -limit <= self.z <= limit
    }

    pub fn new(x: i64, y: i64, z: i64) -> (r: IVec3)
        ensures
            r == (IVec3 { x, y, z }),
    {
        IVec3 { x, y, z }
    }

    /// Scale every component by an integer factor.
    pub fn scale(&self, k: i64) -> (r: IVec3)
        requires
            self.bounded(VEC_COMP_LIMIT as int),
            -1000 <= k <= 1000,
        ensures
            r.x == self.x * k,
            r.y == self.y * k,
            r.z == self.z * k,
    {
        proof {
            let l = VEC_COMP_LIMIT as int;
            crate::math::lemma_mul_bounds(self.x as int, k as int, l, 1000);
            crate::math::lemma_mul_bounds(self.y as int, k as int, l, 1000);
            crate::math::lemma_mul_bounds(self.z as int, k as int, l, 1000);
        }
        IVec3 { x: self.x * k, y: self.y * k, z: self.z * k }
    }
}

/// Dot product of two milli-unit vectors; the result carries micro-units
/// (milli times milli).
pub open spec fn dot_spec(a: IVec3, b: IVec3) -> int {
    a.x * b.x + a.y * b.y + a.z * b.z
}

/// Dot product of two bounded vectors.
pub fn dot(a: &IVec3, b: &IVec3) -> (r: i64)
    requires
        a.bounded(VEC_COMP_LIMIT as int),
        b.bounded(VEC_COMP_LIMIT as int),
    ensures
        r == dot_spec(*a, *b),
{
    proof {
        let l = VEC_COMP_LIMIT as int;
        crate::math::lemma_mul_bounds(a.x as int, b.x as int, l, l);
        crate::math::lemma_mul_bounds(a.y as int, b.y as int, l, l);
        crate::math::lemma_mul_bounds(a.z as int, b.z as int, l, l);
    }
    a.x * b.x + a.y * b.y + a.z * b.z
}

/// Whether two directions point more against each other than with each
/// other.  This is the sign test behind the signed-angle convention: the
/// angle between two directions is taken as negative exactly when their dot
/// product is.
pub fn is_antiparallel(a: &IVec3, b: &IVec3) -> (r: bool)
    requires
        a.bounded(VEC_COMP_LIMIT as int),
        b.bounded(VEC_COMP_LIMIT as int),
    ensures
        r == (dot_spec(*a, *b) < 0),
{
    dot(a, b) < 0
}

/// The direction of spine `i` in the sensor frame, milli-units.
pub open spec fn spine_direction_spec(i: int) -> IVec3 {
    if i == 0 {
        IVec3 { x: -498i64, y: -439i64, z: -748i64 }
    } else if i == 1 {
        IVec3 { x: -551i64, y: 453i64, z: 700i64 }
    } else if i == 2 {
        IVec3 { x: 551i64, y: -453i64, z: -700i64 }
    } else if i == 3 {
        IVec3 { x: 498i64, y: 439i64, z: 748i64 }
    } else if i == 4 {
        IVec3 { x: -829i64, y: 445i64, z: -335i64 }
    } else if i == 5 {
        IVec3 { x: 868i64, y: 422i64, z: -258i64 }
    } else if i == 6 {
        IVec3 { x: -868i64, y: -422i64, z: 258i64 }
    } else if i == 7 {
        IVec3 { x: 829i64, y: -445i64, z: 335i64 }
    } else if i == 8 {
        IVec3 { x: 48i64, y: 426i64, z: -927i64 }
    } else if i == 9 {
        IVec3 { x: 15i64, y: 977i64, z: -32i64 }
    } else if i == 10 {
        IVec3 { x: -15i64, y: -977i64, z: 32i64 }
    } else {
        IVec3 { x: -48i64, y: -426i64, z: 927i64 }
    }
}

/// The direction of spine `i` in the sensor frame.
pub fn spine_direction(i: usize) -> (r: IVec3)
    requires
        i < 12,
    ensures
        r == spine_direction_spec(i as int),
        r.bounded(1000),
{
    match i {
        0 => IVec3 { x: -498, y: -439, z: -748 },
        1 => IVec3 { x: -551, y: 453, z: 700 },
        2 => IVec3 { x: 551, y: -453, z: -700 },
        3 => IVec3 { x: 498, y: 439, z: 748 },
        4 => IVec3 { x: -829, y: 445, z: -335 },
        5 => IVec3 { x: 868, y: 422, z: -258 },
        6 => IVec3 { x: -868, y: -422, z: 258 },
        7 => IVec3 { x: 829, y: -445, z: 335 },
        8 => IVec3 { x: 48, y: 426, z: -927 },
        9 => IVec3 { x: 15, y: 977, z: -32 },
        10 => IVec3 { x: -15, y: -977, z: 32 },
        _ => IVec3 { x: -48, y: -426, z: 927 },
    }
}

/// The indexing convention pairs opposing spines; tube `t` joins these two.
pub open spec fn tube_spines_spec(t: int) -> (int, int) {
    if t == 0 {
        (0int, 3int)
    } else if t == 1 {
        (1int, 2int)
    } else if t == 2 {
        (4int, 7int)
    } else if t == 3 {
        (5int, 6int)
    } else if t == 4 {
        (8int, 11int)
    } else {
        (9int, 10int)
    }
}

/// The pair of opposing spines forming bean tube `t`.
pub fn tube_spines(t: usize) -> (r: (usize, usize))
    requires
        t < 6,
    ensures
        r.0 < 12,
        r.1 < 12,
        (r.0 as int, r.1 as int) == tube_spines_spec(t as int),
{
    match t {
        0 => (0, 3),
        1 => (1, 2),
        2 => (4, 7),
        3 => (5, 6),
        4 => (8, 11),
        _ => (9, 10),
    }
}

} // verus!
