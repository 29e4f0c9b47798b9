//! Exact-value tests for the fixed-point scalar, vector and matrix
//! operations.

use tiny3d::fx::{fx_div, fx_mul, isqrt_u128, sat_add, sat_sub, SCALE};
use tiny3d::mat4::{look_at, perspective, rotate_x, rotate_y, rotate_z, Mat4fx};
use tiny3d::render::fx_pow;
use tiny3d::vec3::{reflect, Vec2fx, Vec3fx, Vec4fx};

fn v(x: i64, y: i64, z: i64) -> Vec3fx {
    Vec3fx { x, y, z }
}

#[test]
fn fx_mul_exact() {
    // 3.5 * 2 == 7
    assert_eq!(fx_mul(229376, 131072), 458752);
    // rounding is toward zero on both sides
    assert_eq!(fx_mul(-32768, 32768), -16384);
    assert_eq!(fx_mul(32768, -32768), -16384);
    assert_eq!(fx_mul(1, 1), 0);
}

#[test]
fn fx_div_exact() {
    // 1 / 2 == 0.5
    assert_eq!(fx_div(SCALE, 2 * SCALE), 32768);
    // 7 / 2 == 3.5
    assert_eq!(fx_div(7 * SCALE, 2 * SCALE), 229376);
    assert_eq!(fx_div(-SCALE, 2 * SCALE), -32768);
}

#[test]
fn saturation_clamps_at_the_ends() {
    assert_eq!(sat_add(i64::MAX, 1), i64::MAX);
    assert_eq!(sat_sub(i64::MIN, 1), i64::MIN);
    assert_eq!(sat_add(40, 2), 42);
    assert_eq!(sat_sub(40, 2), 38);
}

#[test]
fn integer_square_root() {
    assert_eq!(isqrt_u128(0), 0);
    assert_eq!(isqrt_u128(1), 1);
    assert_eq!(isqrt_u128(17), 4);
    assert_eq!(isqrt_u128(25), 5);
    assert_eq!(isqrt_u128(u128::MAX), (1u128 << 64) - 1);
}

#[test]
fn dot_and_cross_products() {
    let a = v(SCALE, 2 * SCALE, 3 * SCALE);
    let b = v(4 * SCALE, -5 * SCALE, 6 * SCALE);
    // 4 - 10 + 18 == 12
    assert_eq!(a.dot(b), 12 * SCALE);
    // (2*6 - 3*(-5), 3*4 - 1*6, 1*(-5) - 2*4) == (27, 6, -13)
    let c = a.cross(b);
    assert_eq!((c.x, c.y, c.z), (27 * SCALE, 6 * SCALE, -13 * SCALE));
}

#[test]
fn normalize_a_3_4_0_vector() {
    let a = v(3 * SCALE, 4 * SCALE, 0);
    assert_eq!(a.length(), 5 * SCALE);
    let u = a.normalize();
    // 0.6 and 0.8, truncated toward zero
    assert_eq!((u.x, u.y, u.z), (39321, 52428, 0));
}

#[test]
fn normalize_keeps_the_zero_vector() {
    let u = v(0, 0, 0).normalize();
    assert_eq!((u.x, u.y, u.z), (0, 0, 0));
}

#[test]
fn reflect_about_a_plane_normal() {
    // reflecting (1, -1, 0) about the plane with normal (0, 1, 0)
    let r = reflect(v(SCALE, -SCALE, 0), v(0, SCALE, 0));
    assert_eq!((r.x, r.y, r.z), (SCALE, SCALE, 0));
}

#[test]
fn rotate_z_quarter_turn() {
    // cos 90 == 0, sin 90 == 1: the x axis maps to -y under this
    // column-major convention
    let m = rotate_z(0, SCALE);
    let t = m.mul_vec4(Vec4fx { x: SCALE, y: 0, z: 0, w: 0 });
    assert_eq!((t.x, t.y, t.z, t.w), (0, -SCALE, 0, 0));
}

#[test]
fn translation_moves_a_point() {
    let m = Mat4fx::from_translation(v(SCALE, 2 * SCALE, 3 * SCALE));
    let t = m.mul_vec4(Vec4fx { x: 10 * SCALE, y: 0, z: 0, w: SCALE });
    assert_eq!((t.x, t.y, t.z, t.w), (11 * SCALE, 2 * SCALE, 3 * SCALE, SCALE));
}

#[test]
fn perspective_entries() {
    // cot(fov/2) == 2, square aspect, near 1, far 2
    let m = perspective(2 * SCALE, SCALE, SCALE, 2 * SCALE);
    assert_eq!((m.rx.x, m.rx.y, m.rx.z, m.rx.w), (2 * SCALE, 0, 0, 0));
    assert_eq!((m.ry.x, m.ry.y, m.ry.z, m.ry.w), (0, 2 * SCALE, 0, 0));
    assert_eq!((m.rz.x, m.rz.y, m.rz.z, m.rz.w), (0, 0, -2 * SCALE, -2 * SCALE));
    assert_eq!((m.rw.x, m.rw.y, m.rw.z, m.rw.w), (0, 0, -SCALE, 0));
}

#[test]
fn look_at_from_the_z_axis_is_a_pure_depth_shift() {
    let view = look_at(v(0, 0, 5 * SCALE), v(0, 0, 0), v(0, SCALE, 0));
    assert_eq!((view.rx.x, view.rx.y, view.rx.z, view.rx.w), (SCALE, 0, 0, 0));
    assert_eq!((view.ry.x, view.ry.y, view.ry.z, view.ry.w), (0, SCALE, 0, 0));
    assert_eq!((view.rz.x, view.rz.y, view.rz.z, view.rz.w), (0, 0, SCALE, -5 * SCALE));
    assert_eq!((view.rw.x, view.rw.y, view.rw.z, view.rw.w), (0, 0, 0, SCALE));
}

#[test]
fn matrix_product_against_identity() {
    let m = perspective(2 * SCALE, SCALE, SCALE, 2 * SCALE);
    let p = m.mat_mul(&Mat4fx::identity());
    assert_eq!(p, m);
    let q = Mat4fx::identity().mat_mul(&m);
    assert_eq!(q, m);
}

#[test]
fn componentwise_vector_ops() {
    let a = v(SCALE, -2 * SCALE, 3);
    let b = v(4 * SCALE, SCALE, -3);
    let s = a.plus(b);
    assert_eq!((s.x, s.y, s.z), (5 * SCALE, -SCALE, 0));
    let d = a.minus(b);
    assert_eq!((d.x, d.y, d.z), (-3 * SCALE, -3 * SCALE, 6));
    let n = a.neg();
    assert_eq!((n.x, n.y, n.z), (-SCALE, 2 * SCALE, -3));
    let h = a.scale(32768);
    assert_eq!((h.x, h.y, h.z), (32768, -SCALE, 1));
}

#[test]
fn perp_dot_of_screen_vectors() {
    let a = Vec2fx { x: 2 * SCALE, y: SCALE };
    let b = Vec2fx { x: SCALE, y: 3 * SCALE };
    // 2*3 - 1*1 == 5
    assert_eq!(a.perp_dot(b), 5 * SCALE);
}

#[test]
fn fixed_point_powers() {
    assert_eq!(fx_pow(32768, 0), SCALE);
    assert_eq!(fx_pow(32768, 1), 32768);
    assert_eq!(fx_pow(32768, 2), 16384);
    assert_eq!(fx_pow(SCALE, 32), SCALE);
    assert_eq!(fx_pow(0, 32), 0);
}

#[test]
fn rotate_x_and_y_quarter_turns() {
    // with cos 0 and sin 1, the y axis maps to -z under rotate_x
    let t = rotate_x(0, SCALE).mul_vec4(Vec4fx { x: 0, y: SCALE, z: 0, w: 0 });
    assert_eq!((t.x, t.y, t.z, t.w), (0, 0, -SCALE, 0));
    // and the x axis maps to +z under rotate_y
    let u = rotate_y(0, SCALE).mul_vec4(Vec4fx { x: SCALE, y: 0, z: 0, w: 0 });
    assert_eq!((u.x, u.y, u.z, u.w), (0, 0, SCALE, 0));
}

#[test]
fn scaling_matrix_stretches_each_axis() {
    let m = Mat4fx::from_scale(v(2 * SCALE, 3 * SCALE, 4 * SCALE));
    let t = m.mul_vec4(Vec4fx { x: SCALE, y: SCALE, z: SCALE, w: SCALE });
    assert_eq!((t.x, t.y, t.z, t.w), (2 * SCALE, 3 * SCALE, 4 * SCALE, SCALE));
}
