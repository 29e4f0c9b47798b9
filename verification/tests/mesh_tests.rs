//! Tests for mesh construction, vertex-normal computation and the pixel
//! surface.

use tiny3d::framebuffer::Framebuffer;
use tiny3d::fx::SCALE;
use tiny3d::object::{calculate_normal, compute_vertex_normals, MeshError, Object3D};
use tiny3d::vec3::Vec3fx;

fn v(x: i64, y: i64, z: i64) -> Vec3fx {
    Vec3fx { x, y, z }
}

/// The unit cube around the origin, each face split into two triangles
/// with counter-clockwise winding.
fn cube() -> Object3D {
    let h: i64 = SCALE / 2;
    let vertices: Vec<Vec3fx> = vec![
        v(-h, -h, -h),
        v(h, -h, -h),
        v(h, h, -h),
        v(-h, h, -h),
        v(-h, -h, h),
        v(h, -h, h),
        v(h, h, h),
        v(-h, h, h),
    ];
    let indices: Vec<usize> = vec![
        0, 1, 2, 2, 3, 0, // front
        1, 5, 6, 6, 2, 1, // right
        7, 6, 5, 5, 4, 7, // back
        4, 0, 3, 3, 7, 4, // left
        4, 5, 1, 1, 0, 4, // bottom
        3, 2, 6, 6, 7, 3, // top
    ];
    Object3D::new(vertices, indices).unwrap()
}

#[test]
fn new_accepts_a_valid_mesh() {
    let o = Object3D::new(vec![v(0, 0, 0), v(SCALE, 0, 0), v(0, SCALE, 0)], vec![0, 1, 2])
        .unwrap();
    assert_eq!(o.vertices.len(), 3);
    assert_eq!(o.indices.len(), 3);
    assert_eq!(o.normals.len(), 0);
    assert_eq!(o.position, v(0, 0, 0));
    assert_eq!(o.rotation, v(0, 0, 0));
    assert_eq!(o.scale, v(SCALE, SCALE, SCALE));
}

#[test]
fn new_rejects_a_ragged_index_list() {
    let r = Object3D::new(vec![v(0, 0, 0), v(SCALE, 0, 0)], vec![0, 1]);
    assert_eq!(r.unwrap_err(), MeshError::IndexCountNotMultipleOfThree);
}

#[test]
fn new_rejects_an_index_past_the_last_vertex() {
    let r = Object3D::new(vec![v(0, 0, 0), v(SCALE, 0, 0), v(0, SCALE, 0)], vec![0, 1, 3]);
    assert_eq!(r.unwrap_err(), MeshError::IndexOutOfBounds);
}

#[test]
fn face_normal_operand_order() {
    // cross(v2 - v0, v1 - v0) for a counter-clockwise triangle in the
    // z = 0 plane points along -z
    let n = calculate_normal(v(0, 0, 0), v(SCALE, 0, 0), v(0, SCALE, 0));
    assert_eq!((n.x, n.y, n.z), (0, 0, -SCALE));
}

#[test]
fn vertex_normals_of_a_single_triangle() {
    let mut o = Object3D::new(
        vec![v(0, 0, 0), v(SCALE, 0, 0), v(0, SCALE, 0), v(7, 7, 7)],
        vec![0, 1, 2],
    ).unwrap();
    compute_vertex_normals(&mut o);
    assert_eq!(o.normals.len(), 4);
    for i in 0..3 {
        assert_eq!((o.normals[i].x, o.normals[i].y, o.normals[i].z), (0, 0, -SCALE));
    }
    // a vertex no triangle names keeps the zero vector
    assert_eq!((o.normals[3].x, o.normals[3].y, o.normals[3].z), (0, 0, 0));
}

#[test]
fn cube_corner_normal_averages_its_faces() {
    let mut o = cube();
    compute_vertex_normals(&mut o);
    // corner 0 touches the front face twice (it lies on that face's
    // diagonal) and the left and bottom faces once each, so its
    // accumulated normal is (-1, -1, -2) and the smooth normal is the
    // normalized accumulation
    let expected = v(-SCALE, -SCALE, -2 * SCALE).normalize();
    assert_eq!(o.normals[0], expected);
    // corner 6 touches the right, back and top faces with the same
    // multiplicities (2, 1, 1 over (x, z, y))
    let n6 = o.normals[6];
    assert!(n6.x > 0 && n6.y > 0 && n6.z > 0);
    // each component of a smooth corner normal lies close to the
    // corresponding component of the normalized average of the three
    // distinct adjacent face normals, 1/sqrt(6) and 2/sqrt(6) here
    let lo: i64 = 26754 - 4; // 1/sqrt(6), fixed point
    let hi: i64 = 53509 + 4; // 2/sqrt(6), fixed point
    for c in [-expected.x, -expected.y, -expected.z] {
        assert!(lo <= c && c <= hi);
    }
    assert_eq!(expected.x, expected.y);
    assert!((expected.z - 2 * expected.x).abs() <= 2);
    // the mesh's geometry and transform are untouched
    assert_eq!(o.vertices.len(), 8);
    assert_eq!(o.indices.len(), 36);
    assert_eq!(o.scale, v(SCALE, SCALE, SCALE));
}

#[test]
fn framebuffer_writes_and_reads() {
    let mut fb = Framebuffer::new(4, 3, 7);
    assert_eq!(fb.get_pixel(0, 0), 7);
    assert_eq!(fb.get_pixel(3, 2), 7);
    fb.set_pixel(2, 1, 42);
    assert_eq!(fb.get_pixel(2, 1), 42);
    assert_eq!(fb.get_pixel(1, 2), 7);
    fb.clear(9);
    assert_eq!(fb.get_pixel(2, 1), 9);
}

#[test]
fn framebuffer_skips_writes_outside_the_surface() {
    let mut fb = Framebuffer::new(4, 3, 0);
    fb.set_pixel(-1, 0, 1);
    fb.set_pixel(0, -1, 1);
    fb.set_pixel(4, 0, 1);
    fb.set_pixel(0, 3, 1);
    fb.set_pixel(i64::MAX, i64::MAX, 1);
    for y in 0..3 {
        for x in 0..4 {
            assert_eq!(fb.get_pixel(x, y), 0);
        }
    }
}
