//! The per-mesh render pipeline: model/view/projection transform of every
//! vertex, trivial rejection of triangles behind the near plane (any
//! clip-space w <= 0), backface culling against the camera-to-object view
//! vector, flat Phong-style shading per triangle, and the hand-off of each
//! surviving triangle to the scanline fill.

use vstd::prelude::*;
use crate::fx::{div_t, fx_mul, fxmul_s, sat64, sat_add, satadd_s, SCALE};
use crate::framebuffer::Framebuffer;
use crate::mat4::{
    mat_mul_s, mul_vec4_s, rotate_x, rotate_x_s, rotate_y, rotate_y_s, rotate_z, rotate_z_s,
    scaling_s, translation_s, Mat4fx,
};
use crate::object::{calculate_normal, face_normal_s, Object3D};
use crate::raster::{fill_triangle, ScreenPt};
use crate::vec3::{dot3_s, neg3_s, normalize3_s, reflect3_s, sub3_s, Vec2fx, Vec3fx, Vec4fx};

verus! {

/// The cosine and sine of a mesh's three Euler rotation angles, as
/// fixed-point values; the host computes them from the angles in
/// `Object3D::rotation`.
#[derive(Clone, Copy, PartialEq, Eq, Structural, Debug)]
pub struct RotationTrig {
    pub cx: i64,
    pub sx: i64,
    pub cy: i64,
    pub sy: i64,
    pub cz: i64,
    pub sz: i64,
}

/// Flat-shading configuration.
#[derive(Clone, Copy, PartialEq, Eq, Structural, Debug)]
pub struct ShadingParams {
    pub ambient_strength: i64,
    pub specular_strength: i64,
    pub shininess: u32,
    pub light_color: Vec3fx,
    pub object_color: Vec3fx,
}

impl Default for ShadingParams {
    /// Ambient 0.1, specular 0.5, shininess 32, light color (1, 1.5, 1),
    /// object color white.
    fn default() -> (r: ShadingParams)
        ensures
            r.ambient_strength == 6554,
            r.specular_strength == 32768,
            r.shininess == 32,
            r.light_color == (Vec3fx { x: 65536, y: 98304, z: 65536 }),
            r.object_color == (Vec3fx { x: 65536, y: 65536, z: 65536 }),
    {
        ShadingParams {
            ambient_strength: 6554,
            specular_strength: 32768,
            shininess: 32,
            light_color: Vec3fx { x: 65536, y: 98304, z: 65536 },
            object_color: Vec3fx { x: 65536, y: 65536, z: 65536 },
        }
    }
}

/// One NDC component of a clip-space vertex: the coordinate divided by w
/// (meaningful for w > 0).
pub open spec fn ndc_c_s(c: int, w: int) -> int {
    sat64(div_t(c * (SCALE as int), w))
}

/// The NDC (x, y) of a clip-space vertex with positive w; a vertex with
/// w <= 0 gets a placeholder that the triangle-level w test discards.
pub open spec fn ndc_of_s(clip: Vec4fx) -> Vec2fx {
    if clip.w > 0 {
        Vec2fx {
            x: ndc_c_s(clip.x as int, clip.w as int) as i64,
            y: ndc_c_s(clip.y as int, clip.w as int) as i64,
        }
    } else {
        Vec2fx { x: 0, y: 0 }
    }
}

/// NDC (x, y) of one clip-space vertex.
pub fn ndc_of(clip: Vec4fx) -> (r: Vec2fx)
    ensures
        r == ndc_of_s(clip),
{
    if clip.w > 0 {
        proof {
            crate::fx::lemma_i64_product_fits(clip.x as int, SCALE as int);
            crate::fx::lemma_i64_product_fits(clip.y as int, SCALE as int);
        }
        let x = crate::fx::sat_narrow(
            crate::fx::div_i128((clip.x as i128) * (SCALE as i128), clip.w as i128),
        );
        let y = crate::fx::sat_narrow(
            crate::fx::div_i128((clip.y as i128) * (SCALE as i128), clip.w as i128),
        );
        Vec2fx { x, y }
    } else {
        Vec2fx { x: 0, y: 0 }
    }
}

/// The screen-space pixel column of an NDC x: (x * 0.5 + 0.5) * width.
pub open spec fn screen_x_s(ndc_x: int, width: int) -> int {
    sat64(div_t((ndc_x + SCALE as int) * width, 2 * SCALE as int))
}

/// The screen-space pixel row of an NDC y: (y * -0.5 + 0.5) * height
/// (the y flip: the screen origin is the top-left corner).
pub open spec fn screen_y_s(ndc_y: int, height: int) -> int {
    sat64(div_t((SCALE as int - ndc_y) * height, 2 * SCALE as int))
}

/// Viewport mapping of one NDC point.
pub open spec fn screen_pt_s(ndc: Vec2fx, width: int, height: int) -> ScreenPt {
    ScreenPt {
        x: screen_x_s(ndc.x as int, width) as i64,
        y: screen_y_s(ndc.y as int, height) as i64,
    }
}

/// Map normalized device coordinates to screen pixel coordinates.
pub fn ndc_to_screen_space(ndc: Vec2fx, width: usize, height: usize) -> (r: ScreenPt)
    requires
        width <= 0x4000_0000,
        height <= 0x4000_0000,
    ensures
        r == screen_pt_s(ndc, width as int, height as int),
{
    proof {
        assert(-0x4000_0000_0000_0000_0000_0000 <= (ndc.x as int + SCALE as int) * (width as int)
            <= 0x4000_0000_0000_0000_0000_0000) by (nonlinear_arith)
            requires
                -0x1_0000_0000_0000_0000 <= ndc.x as int + SCALE as int <= 0x1_0000_0000_0000_0000,
                0 <= width as int <= 0x4000_0000,
        ;
        assert(-0x4000_0000_0000_0000_0000_0000 <= (SCALE as int - ndc.y as int) * (height as int)
            <= 0x4000_0000_0000_0000_0000_0000) by (nonlinear_arith)
            requires
                -0x1_0000_0000_0000_0000 <= SCALE as int - ndc.y as int <= 0x1_0000_0000_0000_0000,
                0 <= height as int <= 0x4000_0000,
        ;
    }
    let x = crate::fx::sat_narrow(
        crate::fx::div_i128(
            ((ndc.x as i128) + (SCALE as i128)) * (width as i128),
            2 * (SCALE as i128),
        ),
    );
    let y = crate::fx::sat_narrow(
        crate::fx::div_i128(
            ((SCALE as i128) - (ndc.y as i128)) * (height as i128),
            2 * (SCALE as i128),
        ),
    );
    ScreenPt { x, y }
}

/// The view-space normal: the model-space normal taken through the
/// upper-left 3x3 of the model-view matrix (w = 0), then normalized.
pub open spec fn view_normal_s(mv: Mat4fx, n: Vec3fx) -> Vec3fx {
    let t = mul_vec4_s(mv, Vec4fx { x: n.x, y: n.y, z: n.z, w: 0 });
    normalize3_s(Vec3fx { x: t.x, y: t.y, z: t.z })
}

/// A triangle faces away from the camera when its view-space normal points
/// against the view vector.
pub open spec fn back_facing_s(normal_view: Vec3fx, view_vec: Vec3fx) -> bool {
    dot3_s(normal_view, view_vec) < 0
}

/// The model transform: translation · rotation X · rotation Y ·
/// rotation Z · scaling, exactly in that order.
pub open spec fn model_mat_s(position: Vec3fx, rot: RotationTrig, scale: Vec3fx) -> Mat4fx {
    mat_mul_s(
        mat_mul_s(
            mat_mul_s(
                mat_mul_s(translation_s(position), rotate_x_s(rot.cx as int, rot.sx as int)),
                rotate_y_s(rot.cy as int, rot.sy as int),
            ),
            rotate_z_s(rot.cz as int, rot.sz as int),
        ),
        scaling_s(scale),
    )
}

/// The clip-space position of a model-space vertex.
pub open spec fn clip_of_s(mvp: Mat4fx, v: Vec3fx) -> Vec4fx {
    mul_vec4_s(mvp, Vec4fx { x: v.x, y: v.y, z: v.z, w: SCALE as i64 })
}

/// Triangle `t` of the mesh survives the w test and the backface cull.
pub open spec fn tri_visible_s(
    vs: Seq<Vec3fx>,
    idx: Seq<usize>,
    t: int,
    mvp: Mat4fx,
    mv: Mat4fx,
    view_vec: Vec3fx,
) -> bool {
    let ia = idx[3 * t] as int;
    let ib = idx[3 * t + 1] as int;
    let ic = idx[3 * t + 2] as int;
    let ca = clip_of_s(mvp, vs[ia]);
    let cb = clip_of_s(mvp, vs[ib]);
    let cc = clip_of_s(mvp, vs[ic]);
    let nv = view_normal_s(mv, face_normal_s(vs[ia], vs[ib], vs[ic]));
    ca.w > 0 && cb.w > 0 && cc.w > 0 && !back_facing_s(nv, view_vec)
}

/// How many of the first `t` triangles are visible.
pub open spec fn visible_count_s(
    vs: Seq<Vec3fx>,
    idx: Seq<usize>,
    t: int,
    mvp: Mat4fx,
    mv: Mat4fx,
    view_vec: Vec3fx,
) -> nat
    decreases t,
{
    if t <= 0 {
        0
    } else {
        visible_count_s(vs, idx, t - 1, mvp, mv, view_vec) + (if tri_visible_s(
            vs,
            idx,
            t - 1,
            mvp,
            mv,
            view_vec,
        ) {
            1nat
        } else {
            0nat
        })
    }
}

/// The pixel sequence after one triangle fill: covered pixels take the
/// opaque color, the rest keep their value.
pub open spec fn fill_pixels_s(
    pix: Seq<u32>,
    w: int,
    a: ScreenPt,
    b: ScreenPt,
    c: ScreenPt,
    color: u32,
) -> Seq<u32> {
    Seq::new(
        pix.len(),
        |k: int|
            if crate::raster::covered_s(a, b, c, k % w, k / w) {
                crate::raster::opaque_s(color)
            } else {
                pix[k]
            },
    )
}

/// The screen-space corners of triangle `t`.
pub open spec fn tri_screen_s(
    vs: Seq<Vec3fx>,
    idx: Seq<usize>,
    t: int,
    mvp: Mat4fx,
    width: int,
    height: int,
) -> (ScreenPt, ScreenPt, ScreenPt) {
    let ia = idx[3 * t] as int;
    let ib = idx[3 * t + 1] as int;
    let ic = idx[3 * t + 2] as int;
    (
        screen_pt_s(ndc_of_s(clip_of_s(mvp, vs[ia])), width, height),
        screen_pt_s(ndc_of_s(clip_of_s(mvp, vs[ib])), width, height),
        screen_pt_s(ndc_of_s(clip_of_s(mvp, vs[ic])), width, height),
    )
}

/// The flat shade of triangle `t`.
pub open spec fn tri_color_s(
    vs: Seq<Vec3fx>,
    idx: Seq<usize>,
    t: int,
    mv: Mat4fx,
    light_unit: Vec3fx,
    view_vec: Vec3fx,
    params: ShadingParams,
) -> u32 {
    let ia = idx[3 * t] as int;
    let ib = idx[3 * t + 1] as int;
    let ic = idx[3 * t + 2] as int;
    shade_s(
        view_normal_s(mv, face_normal_s(vs[ia], vs[ib], vs[ic])),
        light_unit,
        view_vec,
        params,
    )
}

/// The pixel sequence after the first `t` triangles of the mesh: each
/// visible one fills its screen footprint with its flat shade, in
/// submission order (the painter's algorithm).
pub open spec fn frame_pixels_s(
    pix: Seq<u32>,
    vs: Seq<Vec3fx>,
    idx: Seq<usize>,
    t: int,
    mvp: Mat4fx,
    mv: Mat4fx,
    view_vec: Vec3fx,
    light_unit: Vec3fx,
    params: ShadingParams,
    width: int,
    height: int,
) -> Seq<u32>
    decreases t,
{
    if t <= 0 {
        pix
    } else {
        let prev = frame_pixels_s(
            pix,
            vs,
            idx,
            t - 1,
            mvp,
            mv,
            view_vec,
            light_unit,
            params,
            width,
            height,
        );
        if tri_visible_s(vs, idx, t - 1, mvp, mv, view_vec) {
            let (sa, sb, sc) = tri_screen_s(vs, idx, t - 1, mvp, width, height);
            fill_pixels_s(
                prev,
                width,
                sa,
                sb,
                sc,
                tri_color_s(vs, idx, t - 1, mv, light_unit, view_vec, params),
            )
        } else {
            prev
        }
    }
}

/// max(v, 0).
pub open spec fn max0_s(v: int) -> int {
    if v < 0 {
        0
    } else {
        v
    }
}

/// Fixed-point power with a small exponent: b^e with SCALE as 1.0.
pub open spec fn fx_pow_s(b: int, e: nat) -> int
    decreases e,
{
    if e == 0 {
        SCALE as int
    } else {
        fxmul_s(fx_pow_s(b, (e - 1) as nat), b)
    }
}

/// Fixed-point power by repeated multiplication.
pub fn fx_pow(b: i64, e: u32) -> (r: i64)
    ensures
        r as int == fx_pow_s(b as int, e as nat),
{
    let mut acc: i64 = SCALE;
    let mut k: u32 = 0;
    while k < e
        invariant
            k <= e,
            acc as int == fx_pow_s(b as int, k as nat),
        decreases e - k,
    {
        acc = fx_mul(acc, b);
        k += 1;
    }
    acc
}

/// One color channel byte: the fixed-point channel scaled to 0..255 and
/// clamped.
pub open spec fn channel_s(c: int) -> int {
    let v = div_t(c * 255, SCALE as int);
    if v < 0 {
        0
    } else if v > 255 {
        255
    } else {
        v
    }
}

/// One color channel byte.
pub fn channel(c: i64) -> (r: u32)
    ensures
        r as int == channel_s(c as int),
        r <= 255,
{
    let q = crate::fx::div_i128((c as i128) * 255, SCALE as i128);
    if q < 0 {
        0
    } else if q > 255 {
        255
    } else {
        q as u32
    }
}

/// One fixed-point color channel of the flat Phong shade:
/// (ambient + diffuse + specular) * object_color, before the byte clamp.
pub open spec fn shade_c_s(
    normal_view: Vec3fx,
    light_unit: Vec3fx,
    view_dir: Vec3fx,
    params: ShadingParams,
    lc: int,
    oc: int,
) -> int {
    let diff = max0_s(dot3_s(normal_view, light_unit));
    let refl = reflect3_s(neg3_s(light_unit), normal_view);
    let spec_base = max0_s(dot3_s(view_dir, refl));
    let sp = fx_pow_s(spec_base, params.shininess as nat);
    let amb = fxmul_s(params.ambient_strength as int, lc);
    let dif = fxmul_s(diff, lc);
    let spc = fxmul_s(fxmul_s(params.specular_strength as int, sp), lc);
    fxmul_s(satadd_s(satadd_s(amb, dif), spc), oc)
}

/// The RGBA8 shade of one triangle, alpha fully opaque.
pub open spec fn shade_s(
    normal_view: Vec3fx,
    light_unit: Vec3fx,
    view_dir: Vec3fx,
    params: ShadingParams,
) -> u32 {
    let r = channel_s(
        shade_c_s(
            normal_view,
            light_unit,
            view_dir,
            params,
            params.light_color.x as int,
            params.object_color.x as int,
        ),
    );
    let g = channel_s(
        shade_c_s(
            normal_view,
            light_unit,
            view_dir,
            params,
            params.light_color.y as int,
            params.object_color.y as int,
        ),
    );
    let b = channel_s(
        shade_c_s(
            normal_view,
            light_unit,
            view_dir,
            params,
            params.light_color.z as int,
            params.object_color.z as int,
        ),
    );
    (r * 0x100_0000 + g * 0x1_0000 + b * 0x100 + 0xff) as u32
}

/// One fixed-point color channel of the flat shade.
pub fn shade_channel(
    normal_view: Vec3fx,
    light_unit: Vec3fx,
    view_dir: Vec3fx,
    params: &ShadingParams,
    lc: i64,
    oc: i64,
) -> (r: i64)
    ensures
        r as int == shade_c_s(normal_view, light_unit, view_dir, *params, lc as int, oc as int),
{
    let d = normal_view.dot(light_unit);
    let diff = if d < 0 {
        0
    } else {
        d
    };
    let refl = crate::vec3::reflect(light_unit.neg(), normal_view);
    let sb = view_dir.dot(refl);
    let spec_base = if sb < 0 {
        0
    } else {
        sb
    };
    let sp = fx_pow(spec_base, params.shininess);
    let amb = fx_mul(params.ambient_strength, lc);
    let dif = fx_mul(diff, lc);
    let spc = fx_mul(fx_mul(params.specular_strength, sp), lc);
    fx_mul(sat_add(sat_add(amb, dif), spc), oc)
}

/// The RGBA8 shade of one triangle, alpha fully opaque.
pub fn shade(
    normal_view: Vec3fx,
    light_unit: Vec3fx,
    view_dir: Vec3fx,
    params: &ShadingParams,
) -> (r: u32)
    ensures
        r == shade_s(normal_view, light_unit, view_dir, *params),
{
    let cr = channel(
        shade_channel(
            normal_view,
            light_unit,
            view_dir,
            params,
            params.light_color.x,
            params.object_color.x,
        ),
    );
    let cg = channel(
        shade_channel(
            normal_view,
            light_unit,
            view_dir,
            params,
            params.light_color.y,
            params.object_color.y,
        ),
    );
    let cb = channel(
        shade_channel(
            normal_view,
            light_unit,
            view_dir,
            params,
            params.light_color.z,
            params.object_color.z,
        ),
    );
    cr * 0x100_0000 + cg * 0x1_0000 + cb * 0x100 + 0xff
}

/// Render one mesh into the surface: transform every vertex by
/// projection · view · model, skip triangles with any clip-space w <= 0,
/// cull triangles whose view-space normal faces away from the
/// camera-to-object view vector, flat-shade the rest and fill them.
/// Returns how many triangles were drawn.
pub fn draw_object(
    fb: &mut Framebuffer,
    object: &Object3D,
    proj: &Mat4fx,
    view: &Mat4fx,
    camera_pos: Vec3fx,
    light_dir: Vec3fx,
    rot: &RotationTrig,
    params: &ShadingParams,
) -> (drawn: usize)
    requires
        old(fb).wf(),
        old(fb).width <= 0x4000_0000,
        old(fb).height <= 0x4000_0000,
        object.well_formed(),
    ensures
        final(fb).wf(),
        final(fb).width == old(fb).width,
        final(fb).height == old(fb).height,
        ({
            let model = model_mat_s(object.position, *rot, object.scale);
            let mv = mat_mul_s(*view, model);
            let mvp = mat_mul_s(*proj, mv);
            let view_vec = normalize3_s(sub3_s(camera_pos, object.position));
            let nt = object.indices@.len() as int / 3;
            drawn == visible_count_s(object.vertices@, object.indices@, nt, mvp, mv, view_vec)
                && final(fb).pixels@ == frame_pixels_s(
                old(fb).pixels@,
                object.vertices@,
                object.indices@,
                nt,
                mvp,
                mv,
                view_vec,
                normalize3_s(light_dir),
                *params,
                old(fb).width as int,
                old(fb).height as int,
            )
        }),
{
    let ghost vs = object.vertices@;
    let ghost idx = object.indices@;
    let ghost base = old(fb).pixels@;
    let model = Mat4fx::from_translation(object.position).mat_mul(&rotate_x(rot.cx, rot.sx))
        .mat_mul(&rotate_y(rot.cy, rot.sy)).mat_mul(&rotate_z(rot.cz, rot.sz)).mat_mul(
        &Mat4fx::from_scale(object.scale),
    );
    let mv = view.mat_mul(&model);
    let mvp = proj.mat_mul(&mv);
    assert(model == model_mat_s(object.position, *rot, object.scale));
    let view_vec = camera_pos.minus(object.position).normalize();
    let light_unit = light_dir.normalize();
    let nv_count = object.vertices.len();
    let mut clip: Vec<Vec4fx> = Vec::new();
    let mut ndc: Vec<Vec2fx> = Vec::new();
    let mut vi: usize = 0;
    while vi < nv_count
        invariant
            vi <= nv_count,
            nv_count == vs.len(),
            object.vertices@ == vs,
            clip@.len() == vi,
            ndc@.len() == vi,
            forall|j: int| 0 <= j < vi ==> clip@[j] == clip_of_s(mvp, vs[j]),
            forall|j: int| 0 <= j < vi ==> ndc@[j] == ndc_of_s(clip_of_s(mvp, vs[j])),
        decreases nv_count - vi,
    {
        let v = object.vertices[vi];
        let cv = mvp.mul_vec4(Vec4fx { x: v.x, y: v.y, z: v.z, w: SCALE });
        let nd = ndc_of(cv);
        clip.push(cv);
        ndc.push(nd);
        vi += 1;
    }
    let nt = object.indices.len() / 3;
    proof {
        vstd::arithmetic::div_mod::lemma_fundamental_div_mod(idx.len() as int, 3);
    }
    let width = fb.width;
    let height = fb.height;
    let mut drawn: usize = 0;
    let mut t: usize = 0;
    while t < nt
        invariant
            t <= nt,
            nt == idx.len() as int / 3,
            3 * nt == idx.len(),
            3 * (nt as int) <= usize::MAX as int,
            object.vertices@ == vs,
            object.indices@ == idx,
            crate::object::indices_valid(idx, vs.len()),
            nv_count == vs.len(),
            clip@.len() == nv_count,
            ndc@.len() == nv_count,
            forall|j: int| 0 <= j < nv_count ==> clip@[j] == clip_of_s(mvp, vs[j]),
            forall|j: int| 0 <= j < nv_count ==> ndc@[j] == ndc_of_s(clip_of_s(mvp, vs[j])),
            drawn <= t,
            drawn == visible_count_s(vs, idx, t as int, mvp, mv, view_vec),
            light_unit == normalize3_s(light_dir),
            view_vec == normalize3_s(sub3_s(camera_pos, object.position)),
            fb.wf(),
            fb.width == old(fb).width,
            fb.height == old(fb).height,
            base == old(fb).pixels@,
            fb.pixels@ == frame_pixels_s(
                base,
                vs,
                idx,
                t as int,
                mvp,
                mv,
                view_vec,
                light_unit,
                *params,
                width as int,
                height as int,
            ),
            width == fb.width,
            height == fb.height,
            width <= 0x4000_0000,
            height <= 0x4000_0000,
        decreases nt - t,
    {
        let ia = object.indices[3 * t];
        let ib = object.indices[3 * t + 1];
        let ic = object.indices[3 * t + 2];
        let ca = clip[ia];
        let cb = clip[ib];
        let cc = clip[ic];
        if ca.w > 0 && cb.w > 0 && cc.w > 0 {
            let nm = calculate_normal(
                object.vertices[ia],
                object.vertices[ib],
                object.vertices[ic],
            );
            let n4 = mv.mul_vec4(Vec4fx { x: nm.x, y: nm.y, z: nm.z, w: 0 });
            let nv = Vec3fx { x: n4.x, y: n4.y, z: n4.z }.normalize();
            if nv.dot(view_vec) < 0 {
                assert(!tri_visible_s(vs, idx, t as int, mvp, mv, view_vec));
            } else {
                assert(tri_visible_s(vs, idx, t as int, mvp, mv, view_vec));
                let sa = ndc_to_screen_space(ndc[ia], width, height);
                let sb = ndc_to_screen_space(ndc[ib], width, height);
                let sc = ndc_to_screen_space(ndc[ic], width, height);
                let color = shade(nv, light_unit, view_vec, params);
                let ghost prev = fb.pixels@;
                fill_triangle(fb, sa, sb, sc, color);
                proof {
                    assert((sa, sb, sc) == tri_screen_s(
                        vs,
                        idx,
                        t as int,
                        mvp,
                        width as int,
                        height as int,
                    ));
                    assert(color == tri_color_s(vs, idx, t as int, mv, light_unit, view_vec, *params));
                    let filled = fill_pixels_s(prev, width as int, sa, sb, sc, color);
                    assert forall|k: int| 0 <= k < prev.len() implies fb.pixels@[k] == filled[k] by {
                    }
                    assert(fb.pixels@ =~= filled);
                }
                drawn += 1;
            }
        } else {
            assert(!tri_visible_s(vs, idx, t as int, mvp, mv, view_vec));
        }
        t += 1;
    }
    drawn
}

} // verus!
