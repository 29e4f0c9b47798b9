//! Fixed-point 2D, 3D and 4D vectors.
//!
//! Every executable operation returns exactly the value of its spec
//! counterpart; all results are clamped into the `i64` range, so the
//! operations are total.

use vstd::prelude::*;
use crate::fx::{
    div_t, fx_mul, fxm, fxmul_s, isqrt_u128, lemma_i64_product_fits, lemma_sqrt_f, sat64, sat_add,
    sat_sub, satadd_s, satsub_s, sqrt_f, SCALE,
};

verus! {

/// A 2D fixed-point vector (used for normalized device coordinates).
#[derive(Clone, Copy, PartialEq, Eq, Structural, Debug)]
pub struct Vec2fx {
    pub x: i64,
    pub y: i64,
}

/// A 3D fixed-point vector.
#[derive(Clone, Copy, PartialEq, Eq, Structural, Debug)]
pub struct Vec3fx {
    pub x: i64,
    pub y: i64,
    pub z: i64,
}

/// A 4D fixed-point vector (homogeneous coordinates).
#[derive(Clone, Copy, PartialEq, Eq, Structural, Debug)]
pub struct Vec4fx {
    pub x: i64,
    pub y: i64,
    pub z: i64,
    pub w: i64,
}

/// The dot product of two 3D vectors: each product is rescaled, the terms
/// are summed exactly, and the sum is clamped once.
pub open spec fn dot3_s(a: Vec3fx, b: Vec3fx) -> int {
    sat64(fxm(a.x as int, b.x as int) + fxm(a.y as int, b.y as int) + fxm(a.z as int, b.z as int))
}

/// One component of the cross product a × b.
pub open spec fn cross_x_s(a: Vec3fx, b: Vec3fx) -> int {
    sat64(fxm(a.y as int, b.z as int) - fxm(a.z as int, b.y as int))
}

pub open spec fn cross_y_s(a: Vec3fx, b: Vec3fx) -> int {
    sat64(fxm(a.z as int, b.x as int) - fxm(a.x as int, b.z as int))
}

pub open spec fn cross_z_s(a: Vec3fx, b: Vec3fx) -> int {
    sat64(fxm(a.x as int, b.y as int) - fxm(a.y as int, b.x as int))
}

/// The squared length of `v`, in units of SCALE (i.e. |v|^2 * SCALE,
/// up to the rescaling of each squared term).
pub open spec fn len2_terms_s(v: Vec3fx) -> int {
    fxm(v.x as int, v.x as int) + fxm(v.y as int, v.y as int) + fxm(v.z as int, v.z as int)
}

/// The fixed-point length of `v`: floor of the square root of |v|^2 * SCALE^2.
pub open spec fn len3_s(v: Vec3fx) -> int {
    sqrt_f((len2_terms_s(v) * (SCALE as int)) as nat) as int
}

/// One component of the unit vector along `v`; a zero-length vector is
/// returned unchanged (as the zero vector).  `len` is the clamped length.
pub open spec fn norm_c_s(c: int, len: int) -> int {
    if len == 0 {
        0
    } else {
        sat64(div_t(c * (SCALE as int), len))
    }
}

/// The clamped fixed-point length of `v`.
pub open spec fn len3c_s(v: Vec3fx) -> int {
    sat64(len3_s(v))
}

/// The perpendicular-dot (2D cross) product of two 2D vectors.
pub open spec fn perp_dot_s(a: Vec2fx, b: Vec2fx) -> int {
    sat64(fxm(a.x as int, b.y as int) - fxm(a.y as int, b.x as int))
}

/// Build a 3D vector from mathematical components (callers keep them in
/// the i64 range, which every clamped operation does).
pub open spec fn v3(x: int, y: int, z: int) -> Vec3fx {
    Vec3fx { x: x as i64, y: y as i64, z: z as i64 }
}

/// Componentwise clamped sum.
pub open spec fn add3_s(a: Vec3fx, b: Vec3fx) -> Vec3fx {
    v3(
        satadd_s(a.x as int, b.x as int),
        satadd_s(a.y as int, b.y as int),
        satadd_s(a.z as int, b.z as int),
    )
}

/// Componentwise clamped difference.
pub open spec fn sub3_s(a: Vec3fx, b: Vec3fx) -> Vec3fx {
    v3(
        satsub_s(a.x as int, b.x as int),
        satsub_s(a.y as int, b.y as int),
        satsub_s(a.z as int, b.z as int),
    )
}

/// Componentwise clamped negation.
pub open spec fn neg3_s(a: Vec3fx) -> Vec3fx {
    v3(satsub_s(0, a.x as int), satsub_s(0, a.y as int), satsub_s(0, a.z as int))
}

/// Scaling by a fixed-point factor.
pub open spec fn scale3_s(a: Vec3fx, s: int) -> Vec3fx {
    v3(fxmul_s(a.x as int, s), fxmul_s(a.y as int, s), fxmul_s(a.z as int, s))
}

/// The cross product a × b.
pub open spec fn cross3_s(a: Vec3fx, b: Vec3fx) -> Vec3fx {
    v3(cross_x_s(a, b), cross_y_s(a, b), cross_z_s(a, b))
}

/// The unit vector along `v` (the zero vector stays zero).
pub open spec fn normalize3_s(a: Vec3fx) -> Vec3fx {
    v3(
        norm_c_s(a.x as int, len3c_s(a)),
        norm_c_s(a.y as int, len3c_s(a)),
        norm_c_s(a.z as int, len3c_s(a)),
    )
}

/// Reflection of `v` about the plane with unit normal `n`: v - 2*dot(v,n)*n.
pub open spec fn reflect3_s(a: Vec3fx, n: Vec3fx) -> Vec3fx {
    let d2 = satadd_s(dot3_s(a, n), dot3_s(a, n));
    v3(
        reflect_c_s(a.x as int, n.x as int, d2),
        reflect_c_s(a.y as int, n.y as int, d2),
        reflect_c_s(a.z as int, n.z as int, d2),
    )
}

/// Bound on one rescaled product term: |a*b| <= 2^126, so the rescaled
/// term is at most 2^110 in magnitude.
pub proof fn lemma_fxm_bound(a: int, b: int)
    requires
        i64::MIN <= a <= i64::MAX,
        i64::MIN <= b <= i64::MAX,
    ensures
        -0x4000_0000_0000_0000_0000_0000_0000 <= fxm(a, b) <= 0x4000_0000_0000_0000_0000_0000_0000,
{
    assert(-0x4000_0000_0000_0000_0000_0000_0000_0000 <= a * b
        <= 0x4000_0000_0000_0000_0000_0000_0000_0000) by (nonlinear_arith)
        requires
            -0x8000_0000_0000_0000 <= a <= 0x7fff_ffff_ffff_ffff,
            -0x8000_0000_0000_0000 <= b <= 0x7fff_ffff_ffff_ffff,
    ;
    let p = a * b;
    let s = SCALE as int;
    let bound = 0x4000_0000_0000_0000_0000_0000_0000int;
    assert(bound * s == 0x4000_0000_0000_0000_0000_0000_0000_0000);
    vstd::arithmetic::div_mod::lemma_div_multiples_vanish(bound, s);
    if p >= 0 {
        vstd::arithmetic::div_mod::lemma_div_is_ordered(p, bound * s, s);
        vstd::arithmetic::div_mod::lemma_div_pos_is_pos(p, s);
    } else {
        vstd::arithmetic::div_mod::lemma_div_is_ordered(-p, bound * s, s);
        vstd::arithmetic::div_mod::lemma_div_pos_is_pos(-p, s);
    }
}

/// One rescaled product term, computed exactly in `i128`.
pub fn fxm_term(a: i64, b: i64) -> (r: i128)
    ensures
        r as int == fxm(a as int, b as int),
        -0x4000_0000_0000_0000_0000_0000_0000 <= r as int
            <= 0x4000_0000_0000_0000_0000_0000_0000,
{
    proof {
        lemma_i64_product_fits(a as int, b as int);
        lemma_fxm_bound(a as int, b as int);
    }
    let p = (a as i128) * (b as i128);
    crate::fx::div_i128(p, SCALE as i128)
}

impl Vec3fx {
    /// The zero vector.
    pub fn zero() -> (r: Vec3fx)
        ensures
            r.x == 0 && r.y == 0 && r.z == 0,
    {
        Vec3fx { x: 0, y: 0, z: 0 }
    }

    /// Componentwise sum, clamped.
    pub fn plus(self, o: Vec3fx) -> (r: Vec3fx)
        ensures
            r.x as int == satadd_s(self.x as int, o.x as int),
            r.y as int == satadd_s(self.y as int, o.y as int),
            r.z as int == satadd_s(self.z as int, o.z as int),
            r == add3_s(self, o),
    {
        Vec3fx { x: sat_add(self.x, o.x), y: sat_add(self.y, o.y), z: sat_add(self.z, o.z) }
    }

    /// Componentwise difference, clamped.
    pub fn minus(self, o: Vec3fx) -> (r: Vec3fx)
        ensures
            r.x as int == satsub_s(self.x as int, o.x as int),
            r.y as int == satsub_s(self.y as int, o.y as int),
            r.z as int == satsub_s(self.z as int, o.z as int),
            r == sub3_s(self, o),
    {
        Vec3fx { x: sat_sub(self.x, o.x), y: sat_sub(self.y, o.y), z: sat_sub(self.z, o.z) }
    }

    /// Negation, clamped (the minimum value clamps to the maximum).
    pub fn neg(self) -> (r: Vec3fx)
        ensures
            r.x as int == satsub_s(0, self.x as int),
            r.y as int == satsub_s(0, self.y as int),
            r.z as int == satsub_s(0, self.z as int),
            r == neg3_s(self),
    {
        Vec3fx { x: sat_sub(0, self.x), y: sat_sub(0, self.y), z: sat_sub(0, self.z) }
    }

    /// Scale by a fixed-point factor.
    pub fn scale(self, s: i64) -> (r: Vec3fx)
        ensures
            r.x as int == fxmul_s(self.x as int, s as int),
            r.y as int == fxmul_s(self.y as int, s as int),
            r.z as int == fxmul_s(self.z as int, s as int),
            r == scale3_s(self, s as int),
    {
        Vec3fx { x: fx_mul(self.x, s), y: fx_mul(self.y, s), z: fx_mul(self.z, s) }
    }

    /// Dot product.
    pub fn dot(self, o: Vec3fx) -> (r: i64)
        ensures
            r as int == dot3_s(self, o),
    {
        let t1 = fxm_term(self.x, o.x);
        let t2 = fxm_term(self.y, o.y);
        let t3 = fxm_term(self.z, o.z);
        crate::fx::sat_narrow(t1 + t2 + t3)
    }

    /// Cross product.
    pub fn cross(self, o: Vec3fx) -> (r: Vec3fx)
        ensures
            r.x as int == cross_x_s(self, o),
            r.y as int == cross_y_s(self, o),
            r.z as int == cross_z_s(self, o),
            r == cross3_s(self, o),
    {
        let x = crate::fx::sat_narrow(fxm_term(self.y, o.z) - fxm_term(self.z, o.y));
        let y = crate::fx::sat_narrow(fxm_term(self.z, o.x) - fxm_term(self.x, o.z));
        let z = crate::fx::sat_narrow(fxm_term(self.x, o.y) - fxm_term(self.y, o.x));
        Vec3fx { x, y, z }
    }

    /// Fixed-point length, clamped into the `i64` range.
    pub fn length(self) -> (r: i64)
        ensures
            r as int == sat64(len3_s(self)),
            r >= 0,
    {
        let t1 = fxm_term(self.x, self.x);
        let t2 = fxm_term(self.y, self.y);
        let t3 = fxm_term(self.z, self.z);
        proof {
            lemma_fxm_nonneg(self.x as int);
            lemma_fxm_nonneg(self.y as int);
            lemma_fxm_nonneg(self.z as int);
        }
        let sum: i128 = t1 + t2 + t3;
        proof {
            assert(0 <= sum <= 0xc000_0000_0000_0000_0000_0000_0000int);
            assert((sum as u128) * (SCALE as u128) <= u128::MAX) by (nonlinear_arith)
                requires
                    sum as u128 <= 0xc000_0000_0000_0000_0000_0000_0000u128,
                    SCALE as u128 == 65536,
            ;
        }
        let m: u128 = (sum as u128) * (SCALE as u128);
        let l = isqrt_u128(m);
        if l > i64::MAX as u128 {
            i64::MAX
        } else {
            l as i64
        }
    }

    /// The unit vector along `self`; the zero vector stays zero.
    pub fn normalize(self) -> (r: Vec3fx)
        ensures
            r.x as int == norm_c_s(self.x as int, len3c_s(self)),
            r.y as int == norm_c_s(self.y as int, len3c_s(self)),
            r.z as int == norm_c_s(self.z as int, len3c_s(self)),
            r == normalize3_s(self),
    {
        let l = self.length();
        if l == 0 {
            Vec3fx { x: 0, y: 0, z: 0 }
        } else {
            proof {
                lemma_i64_product_fits(self.x as int, SCALE as int);
                lemma_i64_product_fits(self.y as int, SCALE as int);
                lemma_i64_product_fits(self.z as int, SCALE as int);
            }
            let x = crate::fx::sat_narrow(
                crate::fx::div_i128((self.x as i128) * (SCALE as i128), l as i128),
            );
            let y = crate::fx::sat_narrow(
                crate::fx::div_i128((self.y as i128) * (SCALE as i128), l as i128),
            );
            let z = crate::fx::sat_narrow(
                crate::fx::div_i128((self.z as i128) * (SCALE as i128), l as i128),
            );
            Vec3fx { x, y, z }
        }
    }
}

/// Reflection of `v` about the plane with unit normal `n`:
/// v - 2*dot(v,n)*n, one component.
pub open spec fn reflect_c_s(v: int, n: int, d2: int) -> int {
    satsub_s(v, fxmul_s(d2, n))
}

/// Reflect a vector about the plane with unit normal `n`.
pub fn reflect(v: Vec3fx, n: Vec3fx) -> (r: Vec3fx)
    ensures
        ({
            let d2 = satadd_s(dot3_s(v, n), dot3_s(v, n));
            r.x as int == reflect_c_s(v.x as int, n.x as int, d2) && r.y as int == reflect_c_s(
                v.y as int,
                n.y as int,
                d2,
            ) && r.z as int == reflect_c_s(v.z as int, n.z as int, d2)
        }),
        r == reflect3_s(v, n),
{
    let d = v.dot(n);
    let d2 = sat_add(d, d);
    Vec3fx {
        x: sat_sub(v.x, fx_mul(d2, n.x)),
        y: sat_sub(v.y, fx_mul(d2, n.y)),
        z: sat_sub(v.z, fx_mul(d2, n.z)),
    }
}

impl Vec2fx {
    /// The perpendicular-dot (2D cross) product.
    pub fn perp_dot(self, o: Vec2fx) -> (r: i64)
        ensures
            r as int == perp_dot_s(self, o),
    {
        crate::fx::sat_narrow(fxm_term(self.x, o.y) - fxm_term(self.y, o.x))
    }
}

/// A rescaled square is non-negative.
pub proof fn lemma_fxm_nonneg(a: int)
    ensures
        fxm(a, a) >= 0,
{
    assert(a * a >= 0) by (nonlinear_arith);
    vstd::arithmetic::div_mod::lemma_div_pos_is_pos(a * a, SCALE as int);
}

} // verus!
