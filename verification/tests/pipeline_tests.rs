//! End-to-end pipeline tests: rasterization against reference scanlines,
//! degenerate-triangle handling, the round trip of the look-at target,
//! backface-cull complementarity under a half turn, and one full frame of
//! a unit cube.

use tiny3d::framebuffer::Framebuffer;
use tiny3d::fx::SCALE;
use tiny3d::mat4::{look_at, perspective, rotate_y, Mat4fx};
use tiny3d::object::Object3D;
use tiny3d::raster::{fill_triangle, ScreenPt};
use tiny3d::render::{
    draw_object, ndc_of, ndc_to_screen_space, shade, RotationTrig, ShadingParams,
};
use tiny3d::vec3::{Vec2fx, Vec3fx, Vec4fx};

fn v(x: i64, y: i64, z: i64) -> Vec3fx {
    Vec3fx { x, y, z }
}

fn p(x: i64, y: i64) -> ScreenPt {
    ScreenPt { x, y }
}

fn no_rotation() -> RotationTrig {
    RotationTrig { cx: SCALE, sx: 0, cy: SCALE, sy: 0, cz: SCALE, sz: 0 }
}

fn cube() -> Object3D {
    let h: i64 = SCALE / 2;
    let vertices: Vec<Vec3fx> = vec![
        v(-h, -h, -h),
        v(h, -h, -h),
        v(h, h, -h),
        v(-h, h, -h),
        v(-h, -h, h),
        v(h, -h, h),
        v(h, h, h),
        v(-h, h, h),
    ];
    let indices: Vec<usize> = vec![
        0, 1, 2, 2, 3, 0, // front
        1, 5, 6, 6, 2, 1, // right
        7, 6, 5, 5, 4, 7, // back
        4, 0, 3, 3, 7, 4, // left
        4, 5, 1, 1, 0, 4, // bottom
        3, 2, 6, 6, 7, 3, // top
    ];
    Object3D::new(vertices, indices).unwrap()
}

#[test]
fn right_triangle_scanline_counts() {
    // an axis-aligned right triangle: each scanline holds one fewer pixel
    let mut fb = Framebuffer::new(8, 8, 0);
    fill_triangle(&mut fb, p(0, 0), p(4, 0), p(0, 4), 0xff0000ff);
    for y in 0..8 {
        for x in 0..8 {
            let inside = y < 4 && x < 4 - y;
            let expect: u32 = if inside { 0xff0000ff } else { 0 };
            assert_eq!(fb.get_pixel(x as usize, y as usize), expect);
        }
    }
}

#[test]
fn triangle_clipped_at_the_surface_edge() {
    // vertices beyond the surface draw nothing outside it and still fill
    // the covered corner
    let mut fb = Framebuffer::new(4, 4, 0);
    fill_triangle(&mut fb, p(-2, -2), p(6, -2), p(-2, 6), 0x11223344);
    // the hypotenuse runs from (6,-2) to (-2,6): at row 0 the fill spans
    // x in [-2, 4), so the whole top row is covered
    assert_eq!(fb.get_pixel(0, 0), 0x112233ff);
    assert_eq!(fb.get_pixel(3, 0), 0x112233ff);
    // the bottom-right corner lies beyond the hypotenuse
    assert_eq!(fb.get_pixel(3, 3), 0);
}

#[test]
fn degenerate_triangles_draw_nothing() {
    let mut fb = Framebuffer::new(8, 8, 5);
    // all three points collinear
    fill_triangle(&mut fb, p(0, 0), p(2, 2), p(4, 4), 0xffffffff);
    // two points identical
    fill_triangle(&mut fb, p(1, 1), p(1, 1), p(6, 2), 0xffffffff);
    // three points identical
    fill_triangle(&mut fb, p(3, 3), p(3, 3), p(3, 3), 0xffffffff);
    // a horizontal segment
    fill_triangle(&mut fb, p(0, 2), p(4, 2), p(7, 2), 0xffffffff);
    for y in 0..8 {
        for x in 0..8 {
            assert_eq!(fb.get_pixel(x as usize, y as usize), 5);
        }
    }
}

#[test]
fn fill_forces_full_opacity() {
    let mut fb = Framebuffer::new(4, 4, 0);
    fill_triangle(&mut fb, p(0, 0), p(4, 0), p(0, 4), 0xaabbcc00);
    assert_eq!(fb.get_pixel(0, 0), 0xaabbccff);
}

#[test]
fn ndc_to_screen_center_and_corners() {
    let center = ndc_to_screen_space(Vec2fx { x: 0, y: 0 }, 64, 48);
    assert_eq!((center.x, center.y), (32, 24));
    // NDC (-1, +1) is the top-left pixel corner
    let tl = ndc_to_screen_space(Vec2fx { x: -SCALE, y: SCALE }, 64, 48);
    assert_eq!((tl.x, tl.y), (0, 0));
    // NDC (+1, -1) is one past the bottom-right pixel
    let br = ndc_to_screen_space(Vec2fx { x: SCALE, y: -SCALE }, 64, 48);
    assert_eq!((br.x, br.y), (64, 48));
}

#[test]
fn look_at_target_round_trips_to_screen_center() {
    // camera five units up the z axis, looking at the origin
    let eye = v(0, 0, 5 * SCALE);
    let target = v(0, 0, 0);
    let up = v(0, SCALE, 0);
    let view = look_at(eye, target, up);
    // cot(45 deg / 2) in fixed point
    let h: i64 = 158218;
    let proj = perspective(h, SCALE, 655, 100 * SCALE);
    let mv = view.mat_mul(&Mat4fx::identity());
    let mvp = proj.mat_mul(&mv);
    let clip = mvp.mul_vec4(Vec4fx { x: target.x, y: target.y, z: target.z, w: SCALE });
    assert!(clip.w > 0);
    let nd = ndc_of(clip);
    assert_eq!((nd.x, nd.y), (0, 0));
    // and the viewport maps it to the center of the screen
    let s = ndc_to_screen_space(nd, 640, 480);
    assert_eq!((s.x, s.y), (320, 240));
}

#[test]
fn half_turn_flips_the_cull_decision() {
    // the backface test against a view vector along +z flips when the
    // mesh turns half way around the y axis
    let half_turn = rotate_y(-SCALE, 0);
    let view_vec = v(0, 0, SCALE);
    let normals = [v(SCALE, 2 * SCALE, 3 * SCALE), v(-SCALE, SCALE, 5 * SCALE), v(
        3000,
        9000,
        -7000,
    ), v(0, 123, -45678)];
    for n in normals {
        let t = half_turn.mul_vec4(Vec4fx { x: n.x, y: n.y, z: n.z, w: 0 });
        assert_eq!((t.x, t.y, t.z), (-n.x, n.y, -n.z));
        let hn = v(t.x, t.y, t.z);
        let d = n.normalize().dot(view_vec);
        let hd = hn.normalize().dot(view_vec);
        assert_ne!(d, 0);
        assert_eq!(d < 0, !(hd < 0));
    }
}

#[test]
fn cube_frame_on_axis() {
    // a unit cube at the origin, camera at (0, 0, 5) looking at the
    // origin, up (0, 1, 0), fov 45 degrees, near 0.01, far 100, lit from
    // (0, 0, 1).  The two far-facing triangles are culled; the eight
    // side triangles are exactly edge-on (their cull dot product is zero)
    // and stay, so ten triangles are handed to the rasterizer.  The four
    // edge-on faces have a degenerate screen footprint and paint nothing.
    let cube = cube();
    let mut fb = Framebuffer::new(64, 64, 0);
    let eye = v(0, 0, 5 * SCALE);
    let view = look_at(eye, v(0, 0, 0), v(0, SCALE, 0));
    let h: i64 = 158218; // cot(22.5 deg)
    let proj = perspective(h, SCALE, 655, 100 * SCALE);
    let light = v(0, 0, SCALE);
    let params = ShadingParams::default();
    let drawn = draw_object(
        &mut fb,
        &cube,
        &proj,
        &view,
        eye,
        light,
        &no_rotation(),
        &params,
    );
    assert_eq!(drawn, 10);
    // the near face is lit head-on and saturates to white at the center
    assert_eq!(fb.get_pixel(32, 32), 0xffffffff);
    // the corners of the surface stay background
    assert_eq!(fb.get_pixel(0, 0), 0);
    assert_eq!(fb.get_pixel(63, 63), 0);
}

#[test]
fn cube_frame_after_a_half_turn() {
    // after half a turn about y the culled pair and the kept pair of
    // z-facing triangles trade places; the count stays ten and the screen
    // still shows the (previously far) face
    let cube = cube();
    let mut fb = Framebuffer::new(64, 64, 0);
    let eye = v(0, 0, 5 * SCALE);
    let view = look_at(eye, v(0, 0, 0), v(0, SCALE, 0));
    let h: i64 = 158218;
    let proj = perspective(h, SCALE, 655, 100 * SCALE);
    let light = v(0, 0, SCALE);
    let params = ShadingParams::default();
    let rot = RotationTrig { cx: SCALE, sx: 0, cy: -SCALE, sy: 0, cz: SCALE, sz: 0 };
    let drawn = draw_object(&mut fb, &cube, &proj, &view, eye, light, &rot, &params);
    assert_eq!(drawn, 10);
    assert_eq!(fb.get_pixel(32, 32), 0xffffffff);
}

#[test]
fn shade_ambient_only_when_light_is_orthogonal() {
    // normal along +z, light along +y, viewer along +z: no diffuse, no
    // specular, ambient only
    let params = ShadingParams::default();
    let color = shade(v(0, 0, SCALE), v(0, SCALE, 0), v(0, 0, SCALE), &params);
    // ambient 0.1 of light (1, 1.5, 1): bytes (25, 38, 25), opaque
    assert_eq!(color, 0x1926_19ff);
}

#[test]
fn shade_saturates_facing_the_light() {
    let params = ShadingParams::default();
    let color = shade(v(0, 0, SCALE), v(0, 0, SCALE), v(0, 0, SCALE), &params);
    assert_eq!(color, 0xffffffff);
}

#[test]
fn cube_behind_the_camera_is_rejected() {
    // the whole mesh sits behind the near plane: every triangle fails the
    // positive-w test, nothing is drawn and the surface is untouched
    let mut cube = cube();
    cube.position = v(0, 0, 10 * SCALE);
    let mut fb = Framebuffer::new(32, 32, 3);
    let eye = v(0, 0, 5 * SCALE);
    let view = look_at(eye, v(0, 0, 0), v(0, SCALE, 0));
    let proj = perspective(158218, SCALE, 655, 100 * SCALE);
    let drawn = draw_object(
        &mut fb,
        &cube,
        &proj,
        &view,
        eye,
        v(0, 0, SCALE),
        &no_rotation(),
        &ShadingParams::default(),
    );
    assert_eq!(drawn, 0);
    for y in 0..32 {
        for x in 0..32 {
            assert_eq!(fb.get_pixel(x as usize, y as usize), 3);
        }
    }
}

#[test]
fn single_triangle_faces_and_turns_away() {
    // one counter-clockwise triangle in the z = 0 plane has its face
    // normal along -z and is culled for a camera up the +z axis; after
    // half a turn about y it faces the camera and is drawn
    let tri = Object3D::new(
        vec![v(-SCALE, -SCALE, 0), v(SCALE, -SCALE, 0), v(0, SCALE, 0)],
        vec![0, 1, 2],
    ).unwrap();
    let mut fb = Framebuffer::new(32, 32, 0);
    let eye = v(0, 0, 5 * SCALE);
    let view = look_at(eye, v(0, 0, 0), v(0, SCALE, 0));
    let proj = perspective(158218, SCALE, 655, 100 * SCALE);
    let params = ShadingParams::default();
    let facing_away = draw_object(
        &mut fb,
        &tri,
        &proj,
        &view,
        eye,
        v(0, 0, SCALE),
        &no_rotation(),
        &params,
    );
    assert_eq!(facing_away, 0);
    let rot = RotationTrig { cx: SCALE, sx: 0, cy: -SCALE, sy: 0, cz: SCALE, sz: 0 };
    let facing = draw_object(&mut fb, &tri, &proj, &view, eye, v(0, 0, SCALE), &rot, &params);
    assert_eq!(facing, 1);
}

#[test]
fn tilted_cube_shows_half_its_triangles() {
    // tilting the cube about x and y leaves no face edge-on, so exactly
    // the near-facing half of the twelve triangles survives the cull:
    // three faces, six triangles
    let cube = cube();
    let mut fb = Framebuffer::new(64, 64, 0);
    let eye = v(0, 0, 5 * SCALE);
    let view = look_at(eye, v(0, 0, 0), v(0, SCALE, 0));
    let proj = perspective(158218, SCALE, 655, 100 * SCALE);
    // cos 30 and sin 30 degrees in fixed point
    let rot = RotationTrig { cx: 56755, sx: 32768, cy: 56755, sy: 32768, cz: SCALE, sz: 0 };
    let drawn = draw_object(
        &mut fb,
        &cube,
        &proj,
        &view,
        eye,
        v(0, 0, SCALE),
        &rot,
        &ShadingParams::default(),
    );
    assert_eq!(drawn, 6);
}
