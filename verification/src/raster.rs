//! Scanline triangle fill.
//!
//! The three vertices are sorted by y; every scanline between the top and
//! bottom vertex interpolates one boundary on the long edge and one on the
//! active short edge, and the pixels between them receive the flat color.
//! A degenerate triangle (collinear points, which includes repeated points)
//! draws nothing, and so does one with coordinates beyond `COORD_LIMIT`;
//! pixels outside the surface are skipped.

use vstd::prelude::*;
use crate::framebuffer::Framebuffer;
use crate::fx::div_t;

verus! {

/// A screen-space point in integer pixel coordinates.
#[derive(Clone, Copy, PartialEq, Eq, Structural, Debug)]
pub struct ScreenPt {
    pub x: i64,
    pub y: i64,
}

/// Largest coordinate magnitude the rasterizer accepts (2^30); a triangle
/// reaching beyond it is treated as off-surface and skipped.
pub const COORD_LIMIT: i64 = 0x4000_0000;

pub open spec fn pt_in_range(p: ScreenPt) -> bool {
    -COORD_LIMIT <= p.x <= COORD_LIMIT && -COORD_LIMIT <= p.y <= COORD_LIMIT
}

pub open spec fn tri_in_range(a: ScreenPt, b: ScreenPt, c: ScreenPt) -> bool {
    pt_in_range(a) && pt_in_range(b) && pt_in_range(c)
}

/// Twice the signed area of the triangle; zero exactly when the three
/// points are collinear (repeated points included).
pub open spec fn cross2_s(a: ScreenPt, b: ScreenPt, c: ScreenPt) -> int {
    (b.x - a.x) * (c.y - a.y) - (c.x - a.x) * (b.y - a.y)
}

pub open spec fn tri_degenerate_s(a: ScreenPt, b: ScreenPt, c: ScreenPt) -> bool {
    cross2_s(a, b, c) == 0
}

/// The vertices in ascending-y order, by the stable pairwise swaps the
/// fill performs.
pub open spec fn sort_y_s(a: ScreenPt, b: ScreenPt, c: ScreenPt) -> (
    ScreenPt,
    ScreenPt,
    ScreenPt,
) {
    let (a1, b1) = if a.y > b.y {
        (b, a)
    } else {
        (a, b)
    };
    let (a2, c1) = if a1.y > c.y {
        (c, a1)
    } else {
        (a1, c)
    };
    let (b2, c2) = if b1.y > c1.y {
        (c1, b1)
    } else {
        (b1, c1)
    };
    (a2, b2, c2)
}

/// Scanline `i` (counted from the top vertex) lies in the lower half of
/// the triangle, where the active short edge is p1 → p2.
pub open spec fn second_half_s(p0: ScreenPt, p1: ScreenPt, i: int) -> bool {
    i > p1.y - p0.y || p1.y == p0.y
}

/// The boundary on the long edge p0 → p2 at scanline `i`.
pub open spec fn xa_s(p0: ScreenPt, p2: ScreenPt, i: int) -> int {
    p0.x + div_t((p2.x - p0.x) * i, p2.y - p0.y)
}

/// The boundary on the active short edge at scanline `i`.
pub open spec fn xb_s(p0: ScreenPt, p1: ScreenPt, p2: ScreenPt, i: int) -> int {
    if second_half_s(p0, p1, i) {
        p1.x + div_t((p2.x - p1.x) * (i - (p1.y - p0.y)), p2.y - p1.y)
    } else {
        p0.x + div_t((p1.x - p0.x) * i, p1.y - p0.y)
    }
}

/// The left (inclusive) boundary of scanline `i`.
pub open spec fn row_lo_s(p0: ScreenPt, p1: ScreenPt, p2: ScreenPt, i: int) -> int {
    let xa = xa_s(p0, p2, i);
    let xb = xb_s(p0, p1, p2, i);
    if xa <= xb {
        xa
    } else {
        xb
    }
}

/// The right (exclusive) boundary of scanline `i`.
pub open spec fn row_hi_s(p0: ScreenPt, p1: ScreenPt, p2: ScreenPt, i: int) -> int {
    let xa = xa_s(p0, p2, i);
    let xb = xb_s(p0, p1, p2, i);
    if xa <= xb {
        xb
    } else {
        xa
    }
}

/// Pixel (x, y) is covered by the fill of the triangle (a, b, c).
pub open spec fn covered_s(a: ScreenPt, b: ScreenPt, c: ScreenPt, x: int, y: int) -> bool {
    if tri_degenerate_s(a, b, c) || !tri_in_range(a, b, c) {
        false
    } else {
        let (p0, p1, p2) = sort_y_s(a, b, c);
        let i = y - p0.y;
        0 <= i < p2.y - p0.y && row_lo_s(p0, p1, p2, i) <= x < row_hi_s(p0, p1, p2, i)
    }
}

/// The RGBA8 color with the alpha byte forced to fully opaque.
pub open spec fn opaque_s(color: u32) -> u32 {
    color | 0xff
}

/// A quotient is bounded by `b` when the dividend is within `b` times the
/// divisor.
proof fn lemma_div_t_bound(n: int, d: int, b: int)
    requires
        d > 0,
        b >= 0,
        -(b * d) <= n <= b * d,
    ensures
        -b <= div_t(n, d) <= b,
{
    vstd::arithmetic::div_mod::lemma_div_multiples_vanish(b, d);
    if n >= 0 {
        vstd::arithmetic::div_mod::lemma_div_is_ordered(n, b * d, d);
        vstd::arithmetic::div_mod::lemma_div_pos_is_pos(n, d);
    } else {
        vstd::arithmetic::div_mod::lemma_div_is_ordered(-n, b * d, d);
        vstd::arithmetic::div_mod::lemma_div_pos_is_pos(-n, d);
    }
}

/// Fill the triangle (a, b, c) with `color` (alpha forced opaque).
/// Exactly the covered pixels of the surface change; a degenerate or
/// out-of-range triangle leaves the surface untouched.
pub fn fill_triangle(fb: &mut Framebuffer, a: ScreenPt, b: ScreenPt, c: ScreenPt, color: u32)
    requires
        old(fb).wf(),
    ensures
        final(fb).wf(),
        final(fb).width == old(fb).width,
        final(fb).height == old(fb).height,
        final(fb).pixels@.len() == old(fb).pixels@.len(),
        tri_degenerate_s(a, b, c) || !tri_in_range(a, b, c) ==> final(fb).pixels@ == old(
            fb,
        ).pixels@,
        forall|k: int|
            0 <= k < old(fb).pixels@.len() ==> final(fb).pixels@[k] == (if covered_s(
                a,
                b,
                c,
                k % (old(fb).width as int),
                k / (old(fb).width as int),
            ) {
                opaque_s(color)
            } else {
                old(fb).pixels@[k]
            }),
{
    let ghost w = old(fb).width as int;
    let ghost base = old(fb).pixels@;
    if !(a.x >= -COORD_LIMIT && a.x <= COORD_LIMIT && a.y >= -COORD_LIMIT && a.y <= COORD_LIMIT
        && b.x >= -COORD_LIMIT && b.x <= COORD_LIMIT && b.y >= -COORD_LIMIT && b.y <= COORD_LIMIT
        && c.x >= -COORD_LIMIT && c.x <= COORD_LIMIT && c.y >= -COORD_LIMIT && c.y
        <= COORD_LIMIT) {
        return ;
    }
    assert(tri_in_range(a, b, c));
    let abx: i64 = b.x - a.x;
    let aby: i64 = b.y - a.y;
    let acx: i64 = c.x - a.x;
    let acy: i64 = c.y - a.y;
    proof {
        assert(-0x4000_0000_0000_0000 <= (abx as int) * (acy as int) <= 0x4000_0000_0000_0000)
            by (nonlinear_arith)
            requires
                -0x8000_0000 <= abx as int <= 0x8000_0000,
                -0x8000_0000 <= acy as int <= 0x8000_0000,
        ;
        assert(-0x4000_0000_0000_0000 <= (acx as int) * (aby as int) <= 0x4000_0000_0000_0000)
            by (nonlinear_arith)
            requires
                -0x8000_0000 <= acx as int <= 0x8000_0000,
                -0x8000_0000 <= aby as int <= 0x8000_0000,
        ;
    }
    let cross2: i128 = (abx as i128) * (acy as i128) - (acx as i128) * (aby as i128);
    assert(cross2 as int == cross2_s(a, b, c));
    if cross2 == 0 {
        return ;
    }
    let opq: u32 = color | 0xff;
    let mut p0 = a;
    let mut p1 = b;
    let mut p2 = c;
    if p0.y > p1.y {
        let t = p0;
        p0 = p1;
        p1 = t;
    }
    if p0.y > p2.y {
        let t = p0;
        p0 = p2;
        p2 = t;
    }
    if p1.y > p2.y {
        let t = p1;
        p1 = p2;
        p2 = t;
    }
    proof {
        let (q0, q1, q2) = sort_y_s(a, b, c);
        assert(p0 == q0 && p1 == q1 && p2 == q2);
        assert(p0.y <= p1.y <= p2.y);
        if p0.y == p2.y {
            assert(a.y == b.y && b.y == c.y);
            assert((b.x - a.x) * (c.y - a.y) - (c.x - a.x) * (b.y - a.y) == 0)
                by (nonlinear_arith)
                requires
                    a.y == b.y,
                    b.y == c.y,
            ;
            assert(cross2_s(a, b, c) == 0);
        }
        assert(pt_in_range(p0) && pt_in_range(p1) && pt_in_range(p2));
    }
    let th: i64 = p2.y - p0.y;
    assert(th >= 1);
    let mut i: i64 = 0;
    while i < th
        invariant
            0 <= i <= th,
            th == p2.y - p0.y,
            p0.y <= p1.y <= p2.y,
            tri_in_range(a, b, c),
            !tri_degenerate_s(a, b, c),
            pt_in_range(p0) && pt_in_range(p1) && pt_in_range(p2),
            opq == opaque_s(color),
            (p0, p1, p2) == sort_y_s(a, b, c),
            fb.wf(),
            fb.width == old(fb).width,
            fb.height == old(fb).height,
            fb.pixels@.len() == base.len(),
            w == old(fb).width as int,
            base == old(fb).pixels@,
            forall|k: int|
                0 <= k < base.len() ==> fb.pixels@[k] == (if covered_s(a, b, c, k % w, k / w) && (k
                    / w) - p0.y < i {
                    opaque_s(color)
                } else {
                    base[k]
                }),
        decreases th - i,
    {
        let second_half = i > p1.y - p0.y || p1.y == p0.y;
        let sh: i64 = if second_half {
            p2.y - p1.y
        } else {
            p1.y - p0.y
        };
        proof {
            if second_half && p1.y != p0.y && p1.y == p2.y {
                assert(i > p1.y - p0.y && i < th && th == p1.y - p0.y);
            }
        }
        assert(sh >= 1);
        assert(second_half ==> 0 <= i - (p1.y - p0.y) <= sh) by {
            if second_half && p1.y == p0.y && !(i > p1.y - p0.y) {
                assert(i >= 0 && p1.y - p0.y == 0);
            }
        }
        let dxa: i64 = p2.x - p0.x;
        proof {
            assert(-((2 * COORD_LIMIT as int) * th) <= (dxa as int) * i <= (2 * COORD_LIMIT as int)
                * th && -0x4000_0000_0000_0000 <= (dxa as int) * i <= 0x4000_0000_0000_0000)
                by (nonlinear_arith)
                requires
                    -2 * COORD_LIMIT as int <= dxa as int <= 2 * COORD_LIMIT as int,
                    0 <= i <= th,
                    1 <= th <= 2 * COORD_LIMIT as int,
            ;
            lemma_div_t_bound((dxa as int) * i, th as int, 2 * COORD_LIMIT as int);
        }
        let qa: i128 = crate::fx::div_i128((dxa as i128) * (i as i128), th as i128);
        let xa: i64 = p0.x + (qa as i64);
        assert(xa as int == xa_s(p0, p2, i as int));
        let (e0, e1, bn): (ScreenPt, ScreenPt, i64) = if second_half {
            (p1, p2, i - (p1.y - p0.y))
        } else {
            (p0, p1, i)
        };
        let dxb: i64 = e1.x - e0.x;
        proof {
            assert(-((2 * COORD_LIMIT as int) * sh) <= (dxb as int) * bn <= (2 * COORD_LIMIT as int)
                * sh && -0x4000_0000_0000_0000 <= (dxb as int) * bn <= 0x4000_0000_0000_0000)
                by (nonlinear_arith)
                requires
                    -2 * COORD_LIMIT as int <= dxb as int <= 2 * COORD_LIMIT as int,
                    0 <= bn <= sh,
                    1 <= sh <= 2 * COORD_LIMIT as int,
            ;
            lemma_div_t_bound((dxb as int) * bn, sh as int, 2 * COORD_LIMIT as int);
        }
        let qb: i128 = crate::fx::div_i128((dxb as i128) * (bn as i128), sh as i128);
        let xb: i64 = e0.x + (qb as i64);
        assert(xb as int == xb_s(p0, p1, p2, i as int));
        let (lo, hi): (i64, i64) = if xa <= xb {
            (xa, xb)
        } else {
            (xb, xa)
        };
        assert(lo as int == row_lo_s(p0, p1, p2, i as int));
        assert(hi as int == row_hi_s(p0, p1, p2, i as int));
        let y: i64 = p0.y + i;
        let mut j: i64 = lo;
        if lo < hi {
            while j < hi
                invariant
                    lo <= j <= hi,
                    lo as int == row_lo_s(p0, p1, p2, i as int),
                    hi as int == row_hi_s(p0, p1, p2, i as int),
                    0 <= i < th,
                    th == p2.y - p0.y,
                    p0.y <= p1.y <= p2.y,
                    y == p0.y + i,
                    opq == opaque_s(color),
                    tri_in_range(a, b, c),
                    !tri_degenerate_s(a, b, c),
                    (p0, p1, p2) == sort_y_s(a, b, c),
                    fb.wf(),
                    fb.width == old(fb).width,
                    fb.height == old(fb).height,
                    fb.pixels@.len() == base.len(),
                    w == old(fb).width as int,
                    base == old(fb).pixels@,
                    forall|k: int|
                        0 <= k < base.len() ==> fb.pixels@[k] == (if covered_s(a, b, c, k % w, k / w)
                            && ((k / w) - p0.y < i || ((k / w) == y && (k % w) < j)) {
                            opaque_s(color)
                        } else {
                            base[k]
                        }),
                decreases hi - j,
            {
                let ghost pre = fb.pixels@;
                fb.set_pixel(j, y, opq);
                proof {
                    lemma_fill_step(*old(fb), pre, fb.pixels@, a, b, c, p0, p1, p2, i as int,
                        j as int, y as int, lo as int, hi as int, color);
                }
                j += 1;
            }
        }
        proof {
            assert forall|k: int| 0 <= k < base.len() implies fb.pixels@[k] == (if covered_s(
                a,
                b,
                c,
                k % w,
                k / w,
            ) && (k / w) - p0.y < i + 1 {
                opaque_s(color)
            } else {
                base[k]
            }) by {
                let kx = k % w;
                let ky = k / w;
                if covered_s(a, b, c, kx, ky) && ky == y {
                    assert(kx < row_hi_s(p0, p1, p2, (ky - p0.y) as int));
                }
            }
        }
        i += 1;
    }
    proof {
        assert forall|k: int| 0 <= k < base.len() implies fb.pixels@[k] == (if covered_s(
            a,
            b,
            c,
            k % w,
            k / w,
        ) {
            opaque_s(color)
        } else {
            base[k]
        }) by {
            let ky = k / w;
            if covered_s(a, b, c, k % w, ky) {
                assert(0 <= ky - p0.y < th);
            }
        }
    }
}

/// One pixel write inside the fill preserves the row invariant: only the
/// covered pixel (j, y) changes, to the opaque color.
proof fn lemma_fill_step(
    fb0: Framebuffer,
    pre: Seq<u32>,
    post: Seq<u32>,
    a: ScreenPt,
    b: ScreenPt,
    c: ScreenPt,
    p0: ScreenPt,
    p1: ScreenPt,
    p2: ScreenPt,
    i: int,
    j: int,
    y: int,
    lo: int,
    hi: int,
    color: u32,
)
    requires
        pre.len() == fb0.pixels@.len(),
        fb0.wf(),
        tri_in_range(a, b, c),
        !tri_degenerate_s(a, b, c),
        (p0, p1, p2) == sort_y_s(a, b, c),
        p0.y <= p1.y <= p2.y,
        0 <= i < p2.y - p0.y,
        y == p0.y + i,
        lo == row_lo_s(p0, p1, p2, i),
        hi == row_hi_s(p0, p1, p2, i),
        lo <= j < hi,
        0 <= j < fb0.width && 0 <= y < fb0.height ==> post == pre.update(
            y * fb0.width + j,
            opaque_s(color),
        ),
        !(0 <= j < fb0.width && 0 <= y < fb0.height) ==> post == pre,
        forall|k: int|
            0 <= k < fb0.pixels@.len() ==> pre[k] == (if covered_s(
                a,
                b,
                c,
                k % (fb0.width as int),
                k / (fb0.width as int),
            ) && ((k / (fb0.width as int)) - p0.y < i || ((k / (fb0.width as int)) == y && (k % (
            fb0.width as int)) < j)) {
                opaque_s(color)
            } else {
                fb0.pixels@[k]
            }),
    ensures
        forall|k: int|
            0 <= k < fb0.pixels@.len() ==> post[k] == (if covered_s(
                a,
                b,
                c,
                k % (fb0.width as int),
                k / (fb0.width as int),
            ) && ((k / (fb0.width as int)) - p0.y < i || ((k / (fb0.width as int)) == y && (k % (
            fb0.width as int)) < j + 1)) {
                opaque_s(color)
            } else {
                fb0.pixels@[k]
            }),
{
    let w = fb0.width as int;
    let h = fb0.height as int;
    let len = fb0.pixels@.len() as int;
    assert forall|k: int| 0 <= k < len implies post[k] == (if covered_s(a, b, c, k % w, k / w) && ((
    k / w) - p0.y < i || ((k / w) == y && (k % w) < j + 1)) {
        opaque_s(color)
    } else {
        fb0.pixels@[k]
    }) by {
        assert(w * h == len);
        assert(w >= 1) by (nonlinear_arith)
            requires
                w * h == len,
                k < len,
                0 <= k,
                w >= 0,
                h >= 0,
        ;
        let kx = k % w;
        let ky = k / w;
        vstd::arithmetic::div_mod::lemma_fundamental_div_mod(k, w);
        vstd::arithmetic::div_mod::lemma_mod_division_less_than_divisor(k, w);
        vstd::arithmetic::div_mod::lemma_div_pos_is_pos(k, w);
        assert(ky < h) by (nonlinear_arith)
            requires
                k < w * h,
                k == w * ky + kx,
                0 <= kx < w,
                w >= 1,
                0 <= ky,
        ;
        if 0 <= j < w && 0 <= y < h {
            assert(0 <= y * w + j < len) by (nonlinear_arith)
                requires
                    0 <= j < w,
                    0 <= y < h,
                    w * h == len,
            ;
            vstd::arithmetic::div_mod::lemma_fundamental_div_mod_converse(y * w + j, w, y, j);
            if k == y * w + j {
                assert(kx == j && ky == y);
                assert(covered_s(a, b, c, j, y));
                assert(post[k] == opaque_s(color));
            } else {
                if kx == j && ky == y {
                    assert(k == w * ky + kx);
                    assert(w * ky + kx == y * w + j) by (nonlinear_arith)
                        requires
                            kx == j,
                            ky == y,
                    ;
                    assert(false);
                }
                assert(post[k] == pre[k]);
            }
        } else {
            assert(post[k] == pre[k]);
            assert(!(kx == j && ky == y));
        }
    }
}

} // verus!
