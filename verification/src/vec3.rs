//! Fixed-point vectors in space: the arithmetic the space solvers build
//! their frames, normals and cross-sections from.

use vstd::prelude::*;
use crate::fixed::{
    abs_sp,
    tdiv,
    mul_fx,
    mul_fx_sp,
    isqrt_u128,
    sqrt_sp,
    unit_ratio,
    lemma_sqrt_lower,
    COORD_LIMIT,
    MUL_LIMIT,
    SCALE,
};

verus! {

/// A vector with fixed-point components.
#[derive(Clone, Copy, Debug, PartialEq, Eq, Structural)]
pub struct Vec3 {
    pub x: i64,
    pub y: i64,
    pub z: i64,
}

/// Largest component magnitude a fixed-point cross product can reach when
/// both factors stay within twice the coordinate range.
pub const CROSS_LIMIT: i64 = 144115188075855872;

/// Every component within the bound `b`.
pub open spec fn vec3_in(v: Vec3, b: int) -> bool {
    abs_sp(v.x as int) <= b && abs_sp(v.y as int) <= b && abs_sp(v.z as int) <= b
}

/// The cross product with fixed-point component products.
pub open spec fn cross_fx_sp(a: Vec3, b: Vec3) -> Vec3 {
    Vec3 {
        x: (mul_fx_sp(a.y as int, b.z as int) - mul_fx_sp(a.z as int, b.y as int)) as i64,
        y: (mul_fx_sp(a.z as int, b.x as int) - mul_fx_sp(a.x as int, b.z as int)) as i64,
        z: (mul_fx_sp(a.x as int, b.y as int) - mul_fx_sp(a.y as int, b.x as int)) as i64,
    }
}

/// The exact integer cross product, the mathematical model behind
/// `cross_fx_sp`.
pub open spec fn cross_exact_sp(ax: int, ay: int, az: int, bx: int, by: int, bz: int) -> (
    int,
    int,
    int,
) {
    (ay * bz - az * by, az * bx - ax * bz, ax * by - ay * bx)
}

/// The exact integer dot product.
pub open spec fn dot_sp(ax: int, ay: int, az: int, bx: int, by: int, bz: int) -> int {
    ax * bx + ay * by + az * bz
}

/// A cross product is perpendicular to both of its factors: its dot product
/// with either factor is exactly zero.
pub proof fn lemma_cross_perpendicular(ax: int, ay: int, az: int, bx: int, by: int, bz: int)
    ensures
        dot_sp(
            cross_exact_sp(ax, ay, az, bx, by, bz).0,
            cross_exact_sp(ax, ay, az, bx, by, bz).1,
            cross_exact_sp(ax, ay, az, bx, by, bz).2,
            ax,
            ay,
            az,
        ) == 0,
        dot_sp(
            cross_exact_sp(ax, ay, az, bx, by, bz).0,
            cross_exact_sp(ax, ay, az, bx, by, bz).1,
            cross_exact_sp(ax, ay, az, bx, by, bz).2,
            bx,
            by,
            bz,
        ) == 0,
{
    assert((ay * bz - az * by) * ax + (az * bx - ax * bz) * ay + (ax * by - ay * bx) * az
        == 0) by (nonlinear_arith);
    assert((ay * bz - az * by) * bx + (az * bx - ax * bz) * by + (ax * by - ay * bx) * bz
        == 0) by (nonlinear_arith);
}

/// The unit vector of `v` in fixed point: each component scaled by
/// `SCALE / |v|`, truncated toward zero; the zero vector stays zero.
pub open spec fn unit3_sp(v: Vec3) -> Vec3 {
    let len = sqrt_sp(
        (v.x as int) * (v.x as int) + (v.y as int) * (v.y as int) + (v.z as int) * (
        v.z as int),
    );
    if len == 0 {
        Vec3 { x: 0, y: 0, z: 0 }
    } else {
        Vec3 {
            x: tdiv(v.x as int * SCALE, len) as i64,
            y: tdiv(v.y as int * SCALE, len) as i64,
            z: tdiv(v.z as int * SCALE, len) as i64,
        }
    }
}

impl Vec3 {
    pub fn new(x: i64, y: i64, z: i64) -> (r: Vec3)
        ensures
            r == (Vec3 { x, y, z }),
    {
        Vec3 { x, y, z }
    }

    /// The difference `self - other`, component-wise.
    pub fn sub(self, other: Vec3) -> (r: Vec3)
        requires
            vec3_in(self, COORD_LIMIT as int),
            vec3_in(other, COORD_LIMIT as int),
        ensures
            r.x == self.x - other.x,
            r.y == self.y - other.y,
            r.z == self.z - other.z,
            vec3_in(r, 2 * COORD_LIMIT),
    {
        Vec3 { x: self.x - other.x, y: self.y - other.y, z: self.z - other.z }
    }

    /// The cross product with fixed-point component products.
    pub fn cross_fx(self, other: Vec3) -> (r: Vec3)
        requires
            vec3_in(self, 2 * COORD_LIMIT),
            vec3_in(other, 2 * COORD_LIMIT),
        ensures
            r == cross_fx_sp(self, other),
            vec3_in(r, CROSS_LIMIT as int),
    {
        proof {
            lemma_cross_term_bound(self.y as int, other.z as int);
            lemma_cross_term_bound(self.z as int, other.y as int);
            lemma_cross_term_bound(self.z as int, other.x as int);
            lemma_cross_term_bound(self.x as int, other.z as int);
            lemma_cross_term_bound(self.x as int, other.y as int);
            lemma_cross_term_bound(self.y as int, other.x as int);
        }
        Vec3 {
            x: mul_fx(self.y, other.z) - mul_fx(self.z, other.y),
            y: mul_fx(self.z, other.x) - mul_fx(self.x, other.z),
            z: mul_fx(self.x, other.y) - mul_fx(self.y, other.x),
        }
    }

    /// The fixed-point unit vector of `self`.
    pub fn unit(self) -> (r: Vec3)
        requires
            vec3_in(self, CROSS_LIMIT as int),
        ensures
            r == unit3_sp(self),
            vec3_in(r, SCALE as int),
    {
        let xa: u128 = abs_of(self.x);
        let ya: u128 = abs_of(self.y);
        let za: u128 = abs_of(self.z);
        proof {
            assert(xa * xa == (self.x as int) * (self.x as int) && ya * ya == (self.y as int)
                * (self.y as int) && za * za == (self.z as int) * (self.z as int) && xa * xa
                + ya * ya + za * za <= 3 * CROSS_LIMIT * CROSS_LIMIT < u128::MAX)
                by (nonlinear_arith)
                requires
                    xa == abs_sp(self.x as int),
                    ya == abs_sp(self.y as int),
                    za == abs_sp(self.z as int),
                    0 <= xa <= CROSS_LIMIT,
                    0 <= ya <= CROSS_LIMIT,
                    0 <= za <= CROSS_LIMIT,
            ;
        }
        let sq: u128 = xa * xa + ya * ya + za * za;
        let len: u64 = isqrt_u128(sq);
        if len == 0 {
            proof {
                assert(sq == 0) by (nonlinear_arith)
                    requires
                        (sq as int) < ((len as int) + 1) * ((len as int) + 1),
                        len == 0,
                        0 <= sq,
                ;
                assert(xa == 0 && ya == 0 && za == 0) by (nonlinear_arith)
                    requires
                        0 <= xa,
                        0 <= ya,
                        0 <= za,
                        xa * xa + ya * ya + za * za == 0,
                ;
            }
            Vec3 { x: 0, y: 0, z: 0 }
        } else {
            proof {
                lemma_sqrt_lower(xa as int, sq as int, len as int);
                lemma_sqrt_lower(ya as int, sq as int, len as int);
                lemma_sqrt_lower(za as int, sq as int, len as int);
            }
            Vec3 {
                x: unit_ratio(self.x, len),
                y: unit_ratio(self.y, len),
                z: unit_ratio(self.z, len),
            }
        }
    }
}

/// Magnitude of a bounded component as a `u128`.
fn abs_of(v: i64) -> (r: u128)
    requires
        v != i64::MIN,
    ensures
        r == abs_sp(v as int),
{
    if v < 0 {
        (-v) as u128
    } else {
        v as u128
    }
}

/// A fixed-point component product of factors within twice the coordinate
/// range stays within the cross-product bound's half.
proof fn lemma_cross_term_bound(a: int, b: int)
    requires
        abs_sp(a) <= 2 * COORD_LIMIT,
        abs_sp(b) <= 2 * COORD_LIMIT,
    ensures
        abs_sp(mul_fx_sp(a, b)) * 2 <= CROSS_LIMIT,
        abs_sp(a) <= MUL_LIMIT,
        abs_sp(b) <= MUL_LIMIT,
{
    crate::fixed::lemma_tdiv_bound(a * b, SCALE as int);
    assert(abs_sp(a * b) == abs_sp(a) * abs_sp(b) && abs_sp(a) * abs_sp(b) <= 4 * COORD_LIMIT
        * COORD_LIMIT) by (nonlinear_arith)
        requires
            0 <= abs_sp(a) <= 2 * COORD_LIMIT,
            0 <= abs_sp(b) <= 2 * COORD_LIMIT,
    ;
    crate::fixed::lemma_div_ordered(abs_sp(a * b), 4 * COORD_LIMIT * COORD_LIMIT, SCALE as int);
    assert(4 * COORD_LIMIT * COORD_LIMIT / (SCALE as int) * 2 <= CROSS_LIMIT);
}

} // verus!
