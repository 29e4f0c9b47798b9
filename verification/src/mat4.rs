//! Fixed-point 4x4 matrices, stored by rows, and the standard transform
//! constructors of the pipeline: translation, scaling, axis rotations,
//! right-handed look-at view and right-handed perspective projection.
//!
//! Rotation constructors take the cosine and sine of the angle as
//! fixed-point values; the perspective constructor takes the cotangent of
//! half the vertical field of view.  The host computes those from its
//! floating-point angles.

use vstd::prelude::*;
use crate::fx::{fxdiv_s, fxm, fxmul_s, fx_div, fx_mul, sat64, sat_sub, satsub_s, SCALE};
use crate::vec3::{
    cross3_s, dot3_s, fxm_term, normalize3_s, sub3_s, v3, Vec3fx, Vec4fx,
};

verus! {

/// A 4x4 fixed-point matrix; `rx` is the first row.
#[derive(Clone, Copy, PartialEq, Eq, Structural, Debug)]
pub struct Mat4fx {
    pub rx: Vec4fx,
    pub ry: Vec4fx,
    pub rz: Vec4fx,
    pub rw: Vec4fx,
}

/// Build a 4D vector from mathematical components (callers keep them in
/// the i64 range, which every clamped operation does).
pub open spec fn v4(x: int, y: int, z: int, w: int) -> Vec4fx {
    Vec4fx { x: x as i64, y: y as i64, z: z as i64, w: w as i64 }
}

/// The dot product of a matrix row with a 4D vector: each product is
/// rescaled, the terms are summed exactly, and the sum is clamped once.
pub open spec fn row4_s(r: Vec4fx, v: Vec4fx) -> int {
    sat64(
        fxm(r.x as int, v.x as int) + fxm(r.y as int, v.y as int) + fxm(r.z as int, v.z as int)
            + fxm(r.w as int, v.w as int),
    )
}

/// Matrix-vector product.
pub open spec fn mul_vec4_s(m: Mat4fx, v: Vec4fx) -> Vec4fx {
    v4(row4_s(m.rx, v), row4_s(m.ry, v), row4_s(m.rz, v), row4_s(m.rw, v))
}

/// The columns of a matrix, as 4D vectors.
pub open spec fn col_x_s(m: Mat4fx) -> Vec4fx {
    Vec4fx { x: m.rx.x, y: m.ry.x, z: m.rz.x, w: m.rw.x }
}

pub open spec fn col_y_s(m: Mat4fx) -> Vec4fx {
    Vec4fx { x: m.rx.y, y: m.ry.y, z: m.rz.y, w: m.rw.y }
}

pub open spec fn col_z_s(m: Mat4fx) -> Vec4fx {
    Vec4fx { x: m.rx.z, y: m.ry.z, z: m.rz.z, w: m.rw.z }
}

pub open spec fn col_w_s(m: Mat4fx) -> Vec4fx {
    Vec4fx { x: m.rx.w, y: m.ry.w, z: m.rz.w, w: m.rw.w }
}

/// One row of a matrix product: the row of `a` against the columns of `b`.
pub open spec fn mul_row_s(r: Vec4fx, b: Mat4fx) -> Vec4fx {
    v4(row4_s(r, col_x_s(b)), row4_s(r, col_y_s(b)), row4_s(r, col_z_s(b)), row4_s(r, col_w_s(b)))
}

/// Matrix product a · b.
pub open spec fn mat_mul_s(a: Mat4fx, b: Mat4fx) -> Mat4fx {
    Mat4fx {
        rx: mul_row_s(a.rx, b),
        ry: mul_row_s(a.ry, b),
        rz: mul_row_s(a.rz, b),
        rw: mul_row_s(a.rw, b),
    }
}

/// The identity transform.
pub open spec fn identity_s() -> Mat4fx {
    Mat4fx {
        rx: v4(SCALE as int, 0, 0, 0),
        ry: v4(0, SCALE as int, 0, 0),
        rz: v4(0, 0, SCALE as int, 0),
        rw: v4(0, 0, 0, SCALE as int),
    }
}

/// Translation by `t`.
pub open spec fn translation_s(t: Vec3fx) -> Mat4fx {
    Mat4fx {
        rx: v4(SCALE as int, 0, 0, t.x as int),
        ry: v4(0, SCALE as int, 0, t.y as int),
        rz: v4(0, 0, SCALE as int, t.z as int),
        rw: v4(0, 0, 0, SCALE as int),
    }
}

/// Componentwise scaling by `s`.
pub open spec fn scaling_s(s: Vec3fx) -> Mat4fx {
    Mat4fx {
        rx: v4(s.x as int, 0, 0, 0),
        ry: v4(0, s.y as int, 0, 0),
        rz: v4(0, 0, s.z as int, 0),
        rw: v4(0, 0, 0, SCALE as int),
    }
}

/// Rotation about the X axis, given the cosine and sine of the angle.
pub open spec fn rotate_x_s(c: int, s: int) -> Mat4fx {
    Mat4fx {
        rx: v4(SCALE as int, 0, 0, 0),
        ry: v4(0, c, s, 0),
        rz: v4(0, satsub_s(0, s), c, 0),
        rw: v4(0, 0, 0, SCALE as int),
    }
}

/// Rotation about the Y axis, given the cosine and sine of the angle.
pub open spec fn rotate_y_s(c: int, s: int) -> Mat4fx {
    Mat4fx {
        rx: v4(c, 0, satsub_s(0, s), 0),
        ry: v4(0, SCALE as int, 0, 0),
        rz: v4(s, 0, c, 0),
        rw: v4(0, 0, 0, SCALE as int),
    }
}

/// Rotation about the Z axis, given the cosine and sine of the angle.
pub open spec fn rotate_z_s(c: int, s: int) -> Mat4fx {
    Mat4fx {
        rx: v4(c, s, 0, 0),
        ry: v4(satsub_s(0, s), c, 0, 0),
        rz: v4(0, 0, SCALE as int, 0),
        rw: v4(0, 0, 0, SCALE as int),
    }
}

/// Right-handed perspective projection; `h` is cot(fov_y / 2) and the far
/// plane lies beyond the near plane.  Clip-space w is the negated view-space
/// depth.
pub open spec fn perspective_s(h: int, aspect: int, z_near: int, z_far: int) -> Mat4fx {
    let w = fxdiv_s(h, aspect);
    let rr = satsub_s(0, fxdiv_s(z_far, satsub_s(z_far, z_near)));
    Mat4fx {
        rx: v4(w, 0, 0, 0),
        ry: v4(0, h, 0, 0),
        rz: v4(0, 0, rr, fxmul_s(rr, z_near)),
        rw: v4(0, 0, -(SCALE as int), 0),
    }
}

/// Right-handed look-at view transform: rows are the camera's right, up
/// and backward axes, with the translation that moves the eye to the
/// origin.
pub open spec fn look_at_s(eye: Vec3fx, target: Vec3fx, up: Vec3fx) -> Mat4fx {
    let f = normalize3_s(sub3_s(target, eye));
    let s = normalize3_s(cross3_s(f, up));
    let u = cross3_s(s, f);
    Mat4fx {
        rx: v4(s.x as int, s.y as int, s.z as int, satsub_s(0, dot3_s(eye, s))),
        ry: v4(u.x as int, u.y as int, u.z as int, satsub_s(0, dot3_s(eye, u))),
        rz: v4(
            satsub_s(0, f.x as int),
            satsub_s(0, f.y as int),
            satsub_s(0, f.z as int),
            dot3_s(eye, f),
        ),
        rw: v4(0, 0, 0, SCALE as int),
    }
}

/// Multiplying by the identity on the right changes nothing: each entry of
/// the product is the original entry times the fixed-point unit.
pub proof fn lemma_mat_mul_identity_right(m: Mat4fx)
    ensures
        mat_mul_s(m, identity_s()) == m,
{
    let idm = identity_s();
    lemma_row_identity(m.rx, idm);
    lemma_row_identity(m.ry, idm);
    lemma_row_identity(m.rz, idm);
    lemma_row_identity(m.rw, idm);
}

/// One row of a product with the identity matrix.
proof fn lemma_row_identity(r: Vec4fx, idm: Mat4fx)
    requires
        idm == identity_s(),
    ensures
        mul_row_s(r, idm) == r,
{
    crate::fx::lemma_fxm_unit(r.x as int);
    crate::fx::lemma_fxm_unit(r.y as int);
    crate::fx::lemma_fxm_unit(r.z as int);
    crate::fx::lemma_fxm_unit(r.w as int);
    crate::fx::lemma_fxm_zero(r.x as int);
    crate::fx::lemma_fxm_zero(r.y as int);
    crate::fx::lemma_fxm_zero(r.z as int);
    crate::fx::lemma_fxm_zero(r.w as int);
}

/// A row of the identity picks one component of the column.
proof fn lemma_row4_pick(c: Vec4fx)
    ensures
        row4_s(Vec4fx { x: SCALE, y: 0, z: 0, w: 0 }, c) == c.x,
        row4_s(Vec4fx { x: 0, y: SCALE, z: 0, w: 0 }, c) == c.y,
        row4_s(Vec4fx { x: 0, y: 0, z: SCALE, w: 0 }, c) == c.z,
        row4_s(Vec4fx { x: 0, y: 0, z: 0, w: SCALE }, c) == c.w,
{
    crate::fx::lemma_fxm_unit(c.x as int);
    crate::fx::lemma_fxm_unit(c.y as int);
    crate::fx::lemma_fxm_unit(c.z as int);
    crate::fx::lemma_fxm_unit(c.w as int);
    crate::fx::lemma_fxm_zero(c.x as int);
    crate::fx::lemma_fxm_zero(c.y as int);
    crate::fx::lemma_fxm_zero(c.z as int);
    crate::fx::lemma_fxm_zero(c.w as int);
}

/// Multiplying by the identity on the left changes nothing.
pub proof fn lemma_mat_mul_identity_left(m: Mat4fx)
    ensures
        mat_mul_s(identity_s(), m) == m,
{
    lemma_row4_pick(col_x_s(m));
    lemma_row4_pick(col_y_s(m));
    lemma_row4_pick(col_z_s(m));
    lemma_row4_pick(col_w_s(m));
}

/// The dot product of a matrix row with a 4D vector.
pub fn row4(r: Vec4fx, v: Vec4fx) -> (d: i64)
    ensures
        d as int == row4_s(r, v),
{
    let t1 = fxm_term(r.x, v.x);
    let t2 = fxm_term(r.y, v.y);
    let t3 = fxm_term(r.z, v.z);
    let t4 = fxm_term(r.w, v.w);
    crate::fx::sat_narrow(t1 + t2 + t3 + t4)
}

impl Mat4fx {
    /// The identity transform.
    pub fn identity() -> (r: Mat4fx)
        ensures
            r == identity_s(),
    {
        Mat4fx {
            rx: Vec4fx { x: SCALE, y: 0, z: 0, w: 0 },
            ry: Vec4fx { x: 0, y: SCALE, z: 0, w: 0 },
            rz: Vec4fx { x: 0, y: 0, z: SCALE, w: 0 },
            rw: Vec4fx { x: 0, y: 0, z: 0, w: SCALE },
        }
    }

    /// Translation by `t`.
    pub fn from_translation(t: Vec3fx) -> (r: Mat4fx)
        ensures
            r == translation_s(t),
    {
        Mat4fx {
            rx: Vec4fx { x: SCALE, y: 0, z: 0, w: t.x },
            ry: Vec4fx { x: 0, y: SCALE, z: 0, w: t.y },
            rz: Vec4fx { x: 0, y: 0, z: SCALE, w: t.z },
            rw: Vec4fx { x: 0, y: 0, z: 0, w: SCALE },
        }
    }

    /// Componentwise scaling by `s`.
    pub fn from_scale(s: Vec3fx) -> (r: Mat4fx)
        ensures
            r == scaling_s(s),
    {
        Mat4fx {
            rx: Vec4fx { x: s.x, y: 0, z: 0, w: 0 },
            ry: Vec4fx { x: 0, y: s.y, z: 0, w: 0 },
            rz: Vec4fx { x: 0, y: 0, z: s.z, w: 0 },
            rw: Vec4fx { x: 0, y: 0, z: 0, w: SCALE },
        }
    }

    /// Matrix-vector product.
    pub fn mul_vec4(&self, v: Vec4fx) -> (r: Vec4fx)
        ensures
            r == mul_vec4_s(*self, v),
    {
        Vec4fx {
            x: row4(self.rx, v),
            y: row4(self.ry, v),
            z: row4(self.rz, v),
            w: row4(self.rw, v),
        }
    }

    /// Matrix product self · b.
    pub fn mat_mul(&self, b: &Mat4fx) -> (r: Mat4fx)
        ensures
            r == mat_mul_s(*self, *b),
    {
        let cx = Vec4fx { x: b.rx.x, y: b.ry.x, z: b.rz.x, w: b.rw.x };
        let cy = Vec4fx { x: b.rx.y, y: b.ry.y, z: b.rz.y, w: b.rw.y };
        let cz = Vec4fx { x: b.rx.z, y: b.ry.z, z: b.rz.z, w: b.rw.z };
        let cw = Vec4fx { x: b.rx.w, y: b.ry.w, z: b.rz.w, w: b.rw.w };
        Mat4fx {
            rx: Vec4fx {
                x: row4(self.rx, cx),
                y: row4(self.rx, cy),
                z: row4(self.rx, cz),
                w: row4(self.rx, cw),
            },
            ry: Vec4fx {
                x: row4(self.ry, cx),
                y: row4(self.ry, cy),
                z: row4(self.ry, cz),
                w: row4(self.ry, cw),
            },
            rz: Vec4fx {
                x: row4(self.rz, cx),
                y: row4(self.rz, cy),
                z: row4(self.rz, cz),
                w: row4(self.rz, cw),
            },
            rw: Vec4fx {
                x: row4(self.rw, cx),
                y: row4(self.rw, cy),
                z: row4(self.rw, cz),
                w: row4(self.rw, cw),
            },
        }
    }
}

/// Rotation about the X axis; `c` and `s` are the fixed-point cosine and
/// sine of the angle.
pub fn rotate_x(c: i64, s: i64) -> (r: Mat4fx)
    ensures
        r == rotate_x_s(c as int, s as int),
{
    let ns = sat_sub(0, s);
    Mat4fx {
        rx: Vec4fx { x: SCALE, y: 0, z: 0, w: 0 },
        ry: Vec4fx { x: 0, y: c, z: s, w: 0 },
        rz: Vec4fx { x: 0, y: ns, z: c, w: 0 },
        rw: Vec4fx { x: 0, y: 0, z: 0, w: SCALE },
    }
}

/// Rotation about the Y axis; `c` and `s` are the fixed-point cosine and
/// sine of the angle.
pub fn rotate_y(c: i64, s: i64) -> (r: Mat4fx)
    ensures
        r == rotate_y_s(c as int, s as int),
{
    let ns = sat_sub(0, s);
    Mat4fx {
        rx: Vec4fx { x: c, y: 0, z: ns, w: 0 },
        ry: Vec4fx { x: 0, y: SCALE, z: 0, w: 0 },
        rz: Vec4fx { x: s, y: 0, z: c, w: 0 },
        rw: Vec4fx { x: 0, y: 0, z: 0, w: SCALE },
    }
}

/// Rotation about the Z axis; `c` and `s` are the fixed-point cosine and
/// sine of the angle.
pub fn rotate_z(c: i64, s: i64) -> (r: Mat4fx)
    ensures
        r == rotate_z_s(c as int, s as int),
{
    let ns = sat_sub(0, s);
    Mat4fx {
        rx: Vec4fx { x: c, y: s, z: 0, w: 0 },
        ry: Vec4fx { x: ns, y: c, z: 0, w: 0 },
        rz: Vec4fx { x: 0, y: 0, z: SCALE, w: 0 },
        rw: Vec4fx { x: 0, y: 0, z: 0, w: SCALE },
    }
}

/// Right-handed perspective projection; `h` is the fixed-point cotangent
/// of half the vertical field of view.
pub fn perspective(h: i64, aspect: i64, z_near: i64, z_far: i64) -> (r: Mat4fx)
    requires
        aspect > 0,
        z_near > 0,
        z_far > z_near,
    ensures
        r == perspective_s(h as int, aspect as int, z_near as int, z_far as int),
{
    let w = fx_div(h, aspect);
    let d = sat_sub(z_far, z_near);
    let rr = sat_sub(0, fx_div(z_far, d));
    Mat4fx {
        rx: Vec4fx { x: w, y: 0, z: 0, w: 0 },
        ry: Vec4fx { x: 0, y: h, z: 0, w: 0 },
        rz: Vec4fx { x: 0, y: 0, z: rr, w: fx_mul(rr, z_near) },
        rw: Vec4fx { x: 0, y: 0, z: -SCALE, w: 0 },
    }
}

/// Right-handed look-at view transform.
pub fn look_at(eye: Vec3fx, target: Vec3fx, up: Vec3fx) -> (r: Mat4fx)
    ensures
        r == look_at_s(eye, target, up),
{
    let f = target.minus(eye).normalize();
    let s = f.cross(up).normalize();
    let u = s.cross(f);
    let wx = sat_sub(0, eye.dot(s));
    let wy = sat_sub(0, eye.dot(u));
    let wz = eye.dot(f);
    Mat4fx {
        rx: Vec4fx { x: s.x, y: s.y, z: s.z, w: wx },
        ry: Vec4fx { x: u.x, y: u.y, z: u.z, w: wy },
        rz: Vec4fx { x: sat_sub(0, f.x), y: sat_sub(0, f.y), z: sat_sub(0, f.z), w: wz },
        rw: Vec4fx { x: 0, y: 0, z: 0, w: SCALE },
    }
}

} // verus!
