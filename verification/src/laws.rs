//! Global laws of the pipeline, stated once for all inputs and proved.
//!
//! The backface-cull law: turning a mesh half way around the y axis, with
//! the camera looking along the z axis, complements the set of culled
//! triangles.  The projection law: a vertex at the camera's look-at target
//! projects to the center of the screen, NDC (0, 0), through the full
//! model-view-projection chain with the identity model transform.

use vstd::prelude::*;
use crate::fx::{
    div_t, fxm, lemma_div_t_abs_le, lemma_div_t_odd, lemma_fxm_neg, lemma_fxm_unit,
    lemma_fxm_zero, lemma_sqrt_square, sat64, SCALE,
};
use crate::mat4::{
    identity_s, lemma_mat_mul_identity_left, lemma_mat_mul_identity_right, mat_mul_s, mul_vec4_s,
    perspective_s, look_at_s, rotate_x_s, rotate_y_s, rotate_z_s, scaling_s, translation_s,
    Mat4fx,
};
use crate::render::{model_mat_s, view_normal_s, RotationTrig};
use crate::object::face_normal_s;
use crate::render::{back_facing_s, clip_of_s, ndc_c_s, ndc_of_s};

use crate::vec3::{
    cross3_s, dot3_s, len2_terms_s, len3_s, len3c_s, norm_c_s, normalize3_s, sub3_s, v3, Vec2fx,
    Vec3fx, Vec4fx,
};

verus! {

/// The half turn about the y axis as a map on vectors: x and z negate.
pub open spec fn half_turn_y_s(n: Vec3fx) -> Vec3fx {
    v3(-(n.x as int), n.y as int, -(n.z as int))
}

/// A coordinate bound under which every step below stays exact
/// (no clamping anywhere): 2^30 fixed-point units.
pub open spec fn law_coord(v: int) -> bool {
    -0x4000_0000 <= v <= 0x4000_0000
}

pub open spec fn law_vec(n: Vec3fx) -> bool {
    law_coord(n.x as int) && law_coord(n.y as int) && law_coord(n.z as int)
}

/// A product of two coordinates within 2^31 rescales to within 2^46.
proof fn lemma_fxm_small(a: int, b: int)
    requires
        -0x8000_0000 <= a <= 0x8000_0000,
        -0x8000_0000 <= b <= 0x8000_0000,
    ensures
        -0x4000_0000_0000 <= fxm(a, b) <= 0x4000_0000_0000,
{
    assert(-0x4000_0000_0000_0000 <= a * b <= 0x4000_0000_0000_0000) by (nonlinear_arith)
        requires
            -0x8000_0000 <= a <= 0x8000_0000,
            -0x8000_0000 <= b <= 0x8000_0000,
    ;
    lemma_div_t_abs_le(a * b, SCALE as int);
}

/// Rotating a direction vector by 180 degrees about the y axis
/// (cosine -1, sine 0) negates its x and z components exactly.
pub proof fn lemma_half_turn_y_vector(n: Vec3fx)
    requires
        law_vec(n),
    ensures
        ({
            let t = mul_vec4_s(
                rotate_y_s(-(SCALE as int), 0),
                Vec4fx { x: n.x, y: n.y, z: n.z, w: 0 },
            );
            t.x == -n.x && t.y == n.y && t.z == -n.z && t.w == 0
        }),
{
    lemma_fxm_unit(n.x as int);
    lemma_fxm_unit(n.y as int);
    lemma_fxm_unit(n.z as int);
    lemma_fxm_zero(n.x as int);
    lemma_fxm_zero(n.y as int);
    lemma_fxm_zero(n.z as int);
    lemma_fxm_zero(0);
}

/// The face normal turns with the mesh: rotating the three vertices by the
/// half turn rotates the triangle's face normal by the same half turn.
pub proof fn lemma_face_normal_half_turn(a: Vec3fx, b: Vec3fx, c: Vec3fx)
    requires
        law_vec(a),
        law_vec(b),
        law_vec(c),
    ensures
        face_normal_s(half_turn_y_s(a), half_turn_y_s(b), half_turn_y_s(c)) == half_turn_y_s(
            face_normal_s(a, b, c),
        ),
{
    let u = sub3_s(c, a);
    let w = sub3_s(b, a);
    let hu = sub3_s(half_turn_y_s(c), half_turn_y_s(a));
    let hw = sub3_s(half_turn_y_s(b), half_turn_y_s(a));
    assert(hu.x == -u.x && hu.y == u.y && hu.z == -u.z);
    assert(hw.x == -w.x && hw.y == w.y && hw.z == -w.z);
    lemma_fxm_neg(u.y as int, w.z as int);
    lemma_fxm_neg(u.z as int, w.y as int);
    lemma_fxm_neg(-(u.z as int), w.x as int);
    lemma_fxm_neg(u.z as int, w.x as int);
    lemma_fxm_neg(u.x as int, -(w.z as int));
    lemma_fxm_neg(u.x as int, w.z as int);
    lemma_fxm_neg(u.x as int, w.y as int);
    lemma_fxm_neg(u.y as int, w.x as int);
    lemma_fxm_small(u.x as int, w.y as int);
    lemma_fxm_small(u.x as int, w.z as int);
    lemma_fxm_small(u.y as int, w.x as int);
    lemma_fxm_small(u.y as int, w.z as int);
    lemma_fxm_small(u.z as int, w.x as int);
    lemma_fxm_small(u.z as int, w.y as int);
    assert(cross3_s(hu, hw).x == -cross3_s(u, w).x);
    assert(cross3_s(hu, hw).y == cross3_s(u, w).y);
    assert(cross3_s(hu, hw).z == -cross3_s(u, w).z);
}

/// With the camera looking along the z axis, the half turn about the y
/// axis flips the backface-cull decision of every triangle that is not
/// exactly edge-on: the culled and kept sets are complementary.
pub proof fn lemma_backface_flip_half_turn(n: Vec3fx, v: Vec3fx)
    requires
        v.x == 0,
        v.y == 0,
        law_vec(n),
        dot3_s(normalize3_s(n), v) != 0,
    ensures
        normalize3_s(half_turn_y_s(n)) == half_turn_y_s(normalize3_s(n)),
        back_facing_s(normalize3_s(half_turn_y_s(n)), v) == !back_facing_s(normalize3_s(n), v),
{
    let hn = half_turn_y_s(n);
    let s = SCALE as int;
    lemma_fxm_neg(n.x as int, n.x as int);
    lemma_fxm_neg(n.x as int, -(n.x as int));
    lemma_fxm_neg(n.z as int, n.z as int);
    lemma_fxm_neg(n.z as int, -(n.z as int));
    assert(len2_terms_s(hn) == len2_terms_s(n));
    assert(len3_s(hn) == len3_s(n));
    let l = len3c_s(n);
    assert(l >= 0);
    if l == 0 {
        let u0 = normalize3_s(n);
        assert(u0.x == 0 && u0.y == 0 && u0.z == 0);
        lemma_fxm_zero(v.x as int);
        lemma_fxm_zero(v.y as int);
        lemma_fxm_zero(v.z as int);
        assert(dot3_s(u0, v) == 0);
        assert(false);
    }
    lemma_div_t_odd(n.x as int * s, l);
    lemma_div_t_odd(n.z as int * s, l);
    assert((-(n.x as int)) * s == -(n.x as int * s)) by (nonlinear_arith);
    assert((-(n.z as int)) * s == -(n.z as int * s)) by (nonlinear_arith);
    lemma_div_t_abs_le(n.x as int * s, l);
    lemma_div_t_abs_le(n.z as int * s, l);
    assert(-0x4000_0000_0000 <= n.x as int * s <= 0x4000_0000_0000);
    assert(-0x4000_0000_0000 <= n.z as int * s <= 0x4000_0000_0000);
    assert(norm_c_s(-(n.x as int), l) == -norm_c_s(n.x as int, l));
    assert(norm_c_s(-(n.z as int), l) == -norm_c_s(n.z as int, l));
    let un = normalize3_s(n);
    let uh = normalize3_s(hn);
    assert(uh.x == -un.x && uh.y == un.y && uh.z == -un.z);
    lemma_fxm_zero(un.x as int);
    lemma_fxm_zero(un.y as int);
    lemma_fxm_zero(uh.x as int);
    lemma_fxm_zero(uh.y as int);
    lemma_fxm_neg(un.z as int, v.z as int);
    assert(dot3_s(un, v) == sat64(fxm(un.z as int, v.z as int)));
    assert(dot3_s(uh, v) == sat64(fxm(-(un.z as int), v.z as int)));
    assert(fxm(un.z as int, v.z as int) != 0);
}

/// The half-turn law through the pipeline's own transform chain: with a
/// camera on the z axis (a view matrix whose rotation part is the scaled
/// identity) and the half-turn Euler rotation (cosine -1, sine 0 about y,
/// no rotation about x and z), the backface decision of every triangle
/// whose cull dot product is nonzero is the complement of the decision
/// without the rotation — the culled and kept sets trade places.
pub proof fn lemma_half_turn_complements_culling(view: Mat4fx, n: Vec3fx, v: Vec3fx)
    requires
        view.rx.x == SCALE && view.rx.y == 0 && view.rx.z == 0,
        view.ry.x == 0 && view.ry.y == SCALE && view.ry.z == 0,
        view.rz.x == 0 && view.rz.y == 0 && view.rz.z == SCALE,
        view.rw == (Vec4fx { x: 0, y: 0, z: 0, w: SCALE as i64 }),
        v.x == 0,
        v.y == 0,
        law_vec(n),
        dot3_s(normalize3_s(n), v) != 0,
    ensures
        ({
            let zero3 = Vec3fx { x: 0, y: 0, z: 0 };
            let unit3 = Vec3fx { x: SCALE as i64, y: SCALE as i64, z: SCALE as i64 };
            let still = RotationTrig { cx: SCALE, sx: 0, cy: SCALE, sy: 0, cz: SCALE, sz: 0 };
            let half = RotationTrig { cx: SCALE, sx: 0, cy: (-SCALE) as i64, sy: 0, cz: SCALE, sz: 0 };
            let mv_still = mat_mul_s(view, model_mat_s(zero3, still, unit3));
            let mv_half = mat_mul_s(view, model_mat_s(zero3, half, unit3));
            back_facing_s(view_normal_s(mv_half, n), v) == !back_facing_s(
                view_normal_s(mv_still, n),
                v,
            )
        }),
{
    let s = SCALE as int;
    let zero3 = Vec3fx { x: 0, y: 0, z: 0 };
    let unit3 = Vec3fx { x: SCALE as i64, y: SCALE as i64, z: SCALE as i64 };
    let still = RotationTrig { cx: SCALE, sx: 0, cy: SCALE, sy: 0, cz: SCALE, sz: 0 };
    let half = RotationTrig { cx: SCALE, sx: 0, cy: (-SCALE) as i64, sy: 0, cz: SCALE, sz: 0 };
    // every factor of the still model transform is the identity
    assert(translation_s(zero3) == identity_s());
    assert(rotate_x_s(s, 0) == identity_s());
    assert(rotate_y_s(s, 0) == identity_s());
    assert(rotate_z_s(s, 0) == identity_s());
    assert(scaling_s(unit3) == identity_s());
    lemma_mat_mul_identity_right(identity_s());
    assert(model_mat_s(zero3, still, unit3) == identity_s());
    // the half-turn model transform is the bare y rotation
    let r180 = rotate_y_s(-s, 0);
    lemma_mat_mul_identity_left(r180);
    lemma_mat_mul_identity_right(r180);
    assert(model_mat_s(zero3, half, unit3) == r180);
    // the two model-view matrices
    lemma_mat_mul_identity_right(view);
    let mv_still = mat_mul_s(view, identity_s());
    assert(mv_still == view);
    let mv_half = mat_mul_s(view, r180);
    lemma_fxm_unit(view.rx.w as int);
    lemma_fxm_unit(view.ry.w as int);
    lemma_fxm_unit(view.rz.w as int);
    lemma_fxm_unit(s);
    lemma_fxm_unit(-s);
    lemma_fxm_zero(view.rx.w as int);
    lemma_fxm_zero(view.ry.w as int);
    lemma_fxm_zero(view.rz.w as int);
    lemma_fxm_zero(s);
    lemma_fxm_zero(-s);
    lemma_fxm_zero(0);
    assert(mv_half.rx.x as int == -s && mv_half.rx.y == 0 && mv_half.rx.z == 0);
    assert(mv_half.ry.x == 0 && mv_half.ry.y as int == s && mv_half.ry.z == 0);
    assert(mv_half.rz.x == 0 && mv_half.rz.y == 0 && mv_half.rz.z as int == -s);
    // the view-space normals: unchanged and half-turned, respectively
    lemma_fxm_unit(n.x as int);
    lemma_fxm_unit(n.y as int);
    lemma_fxm_unit(n.z as int);
    lemma_fxm_zero(n.x as int);
    lemma_fxm_zero(n.y as int);
    lemma_fxm_zero(n.z as int);
    let t_still = mul_vec4_s(mv_still, Vec4fx { x: n.x, y: n.y, z: n.z, w: 0 });
    assert(t_still.x == n.x && t_still.y == n.y && t_still.z == n.z);
    let t_half = mul_vec4_s(mv_half, Vec4fx { x: n.x, y: n.y, z: n.z, w: 0 });
    assert(t_half.x == -n.x && t_half.y == n.y && t_half.z == -n.z);
    assert((Vec3fx { x: t_still.x, y: t_still.y, z: t_still.z }) == n);
    assert((Vec3fx { x: t_half.x, y: t_half.y, z: t_half.z }) == half_turn_y_s(n));
    lemma_backface_flip_half_turn(n, v);
}

/// A vertex at the camera's look-at target projects to the center of the
/// screen: through projection · view · identity-model, its clip w is
/// positive and its NDC is exactly (0, 0).  The camera sits on the z axis
/// at distance `e - tz` (a multiple of 256 fixed-point units, about 1/256
/// of a unit) above the target, with the standard up vector.
/// A camera on the z axis gives a view transform whose rotation part is
/// exactly the scaled identity: only a depth shift remains.  (The distance
/// to the target is kept a multiple of 256 fixed-point units so that its
/// length, a square root, comes out exact.)
pub proof fn lemma_look_at_on_axis(e: i64, tz: i64)
    requires
        law_coord(e as int),
        law_coord(tz as int),
        tz < e,
        (e - tz) % 256 == 0,
    ensures
        ({
            let view = look_at_s(
                Vec3fx { x: 0, y: 0, z: e },
                Vec3fx { x: 0, y: 0, z: tz },
                Vec3fx { x: 0, y: SCALE as i64, z: 0 },
            );
            view.rx == (Vec4fx { x: SCALE as i64, y: 0, z: 0, w: 0 }) && view.ry == (Vec4fx {
                x: 0,
                y: SCALE as i64,
                z: 0,
                w: 0,
            }) && view.rz.x == 0 && view.rz.y == 0 && view.rz.z == SCALE && view.rz.w as int == -(
            e as int) && view.rw == (Vec4fx { x: 0, y: 0, z: 0, w: SCALE as i64 })
        }),
{
    let s = SCALE as int;
    let eye = Vec3fx { x: 0, y: 0, z: e };
    let target = Vec3fx { x: 0, y: 0, z: tz };
    let up = Vec3fx { x: 0, y: SCALE as i64, z: 0 };
    let d = e as int - tz as int;
    // the forward direction: target - eye = (0, 0, -d), length exactly d
    let fu = sub3_s(target, eye);
    assert(fu.x == 0 && fu.y == 0 && fu.z as int == -d);
    lemma_fxm_zero(0);
    lemma_fxm_neg(d, d);
    lemma_fxm_neg(d, -d);
    let k = d / 256;
    vstd::arithmetic::div_mod::lemma_fundamental_div_mod(d, 256);
    assert(d == 256 * k);
    assert(d * d == 65536 * (k * k)) by (nonlinear_arith)
        requires
            d == 256 * k,
    ;
    vstd::arithmetic::div_mod::lemma_div_multiples_vanish(k * k, s);
    assert(fxm(d, d) == k * k);
    assert(len2_terms_s(fu) == k * k);
    assert((k * k) * s == d * d) by (nonlinear_arith)
        requires
            d == 256 * k,
            s == 65536,
    ;
    assert(0 <= k <= d);
    lemma_sqrt_square(d as nat);
    assert((d as nat) * (d as nat) == (d * d) as nat);
    assert(len3_s(fu) == d);
    assert(len3c_s(fu) == d);
    // f = (0, 0, -SCALE)
    vstd::arithmetic::div_mod::lemma_div_multiples_vanish(s, d);
    lemma_div_t_odd(d * s, d);
    assert(d * s == s * d) by (nonlinear_arith);
    assert(div_t(-d * s, d) == -s);
    assert((-d) * s == -(d * s)) by (nonlinear_arith);
    assert(0 * s == 0) by (nonlinear_arith);
    vstd::arithmetic::div_mod::lemma_div_of0(d);
    let f = normalize3_s(fu);
    assert(f.x == 0 && f.y == 0 && f.z as int == -s);
    // s_axis = normalize(f × up) = (SCALE, 0, 0)
    lemma_fxm_unit(s);
    lemma_fxm_unit(-s);
    lemma_fxm_zero(s);
    lemma_fxm_zero(-s);
    let su = cross3_s(f, up);
    assert(su.x as int == s && su.y == 0 && su.z == 0);
    assert(fxm(s, s) == s);
    assert(len2_terms_s(su) == s);
    assert(s * s == 65536 * 65536);
    lemma_sqrt_square(s as nat);
    assert(len3_s(su) == s);
    assert(len3c_s(su) == s);
    vstd::arithmetic::div_mod::lemma_div_multiples_vanish(s, s);
    assert(div_t(s * s, s) == s);
    let sx = normalize3_s(su);
    assert(sx.x as int == s && sx.y == 0 && sx.z == 0);
    // u_axis = s × f = (0, SCALE, 0)
    let ux = cross3_s(sx, f);
    assert(fxm(s, -s) == -s);
    assert(ux.x == 0 && ux.y as int == s && ux.z == 0);
    // the view rows
    lemma_fxm_zero(e as int);
    lemma_fxm_unit(e as int);
    assert(dot3_s(eye, sx) == 0);
    assert(dot3_s(eye, ux) == 0);
    assert(dot3_s(eye, f) == -(e as int));
}

pub proof fn lemma_target_projects_to_center(
    e: i64,
    tz: i64,
    h: i64,
    aspect: i64,
    z_near: i64,
    z_far: i64,
)
    requires
        law_coord(e as int),
        law_coord(tz as int),
        tz < e,
        (e - tz) % 256 == 0,
        aspect > 0,
        z_near > 0,
        z_far > z_near,
    ensures
        ({
            let eye = Vec3fx { x: 0, y: 0, z: e };
            let target = Vec3fx { x: 0, y: 0, z: tz };
            let up = Vec3fx { x: 0, y: SCALE as i64, z: 0 };
            let view = look_at_s(eye, target, up);
            let mv = mat_mul_s(view, identity_s());
            let mvp = mat_mul_s(perspective_s(h as int, aspect as int, z_near as int, z_far as int), mv);
            let clip = clip_of_s(mvp, target);
            clip.w > 0 && ndc_of_s(clip) == (Vec2fx { x: 0, y: 0 })
        }),
{
    let s = SCALE as int;
    let eye = Vec3fx { x: 0, y: 0, z: e };
    let target = Vec3fx { x: 0, y: 0, z: tz };
    let up = Vec3fx { x: 0, y: SCALE as i64, z: 0 };
    // the on-axis camera: the view rotation is the scaled identity
    lemma_look_at_on_axis(e, tz);
    let view = look_at_s(eye, target, up);
    lemma_fxm_zero(0);
    lemma_fxm_unit(s);
    lemma_fxm_unit(-s);
    lemma_fxm_zero(s);
    lemma_fxm_zero(-s);
    lemma_fxm_zero(e as int);
    lemma_fxm_unit(e as int);
    let d = e as int - tz as int;
    // identity model transform
    lemma_mat_mul_identity_right(view);
    let mv = mat_mul_s(view, identity_s());
    assert(mv == view);
    // the product with the projection: only the x, y and w rows matter
    let proj = perspective_s(h as int, aspect as int, z_near as int, z_far as int);
    let mvp = mat_mul_s(proj, mv);
    lemma_fxm_zero(proj.rx.x as int);
    lemma_fxm_zero(proj.ry.y as int);
    lemma_fxm_zero(proj.rz.z as int);
    lemma_fxm_zero(proj.rz.w as int);
    lemma_fxm_unit(proj.rx.x as int);
    lemma_fxm_unit(proj.ry.y as int);
    lemma_fxm_zero(tz as int);
    lemma_fxm_unit(tz as int);
    lemma_fxm_neg(s, tz as int);
    lemma_fxm_neg(s, e as int);
    lemma_fxm_neg(e as int, s);
    assert(mvp.rx.x as int == proj.rx.x as int && mvp.rx.y == 0 && mvp.rx.z == 0 && mvp.rx.w == 0);
    assert(mvp.ry.x == 0 && mvp.ry.y as int == proj.ry.y as int && mvp.ry.z == 0 && mvp.ry.w == 0);
    assert(mvp.rw.x == 0 && mvp.rw.y == 0 && mvp.rw.z as int == -s && mvp.rw.w as int == e as int);
    // the clip position of the target
    let clip = clip_of_s(mvp, target);
    lemma_fxm_zero(mvp.rx.x as int);
    lemma_fxm_zero(mvp.ry.y as int);
    assert(clip.x == 0);
    assert(clip.y == 0);
    assert(fxm(-s, tz as int) == -(tz as int));
    assert(fxm(e as int, s) == e as int);
    assert(clip.w as int == d);
    // and its NDC
    assert(0 * s == 0) by (nonlinear_arith);
    assert(ndc_c_s(0, d) == 0);
}

} // verus!
