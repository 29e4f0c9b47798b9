//! Meshes: vertices, triangle indices, optional per-vertex normals and a
//! position/rotation/scale transform triple, together with face-normal and
//! smooth vertex-normal computation.

use vstd::prelude::*;
use crate::vec3::{add3_s, cross3_s, normalize3_s, sub3_s, Vec3fx};
use crate::fx::SCALE;

verus! {

/// Why a mesh was rejected at construction.
#[derive(Clone, Copy, PartialEq, Eq, Structural, Debug)]
pub enum MeshError {
    /// The index list does not group into whole triangles.
    IndexCountNotMultipleOfThree,
    /// An index points past the last vertex.
    IndexOutOfBounds,
}

/// Every 3 consecutive indices name one triangle, and each names a vertex.
pub open spec fn indices_valid(indices: Seq<usize>, n_vertices: nat) -> bool {
    &&& indices.len() % 3 == 0
    &&& forall|i: int| 0 <= i < indices.len() ==> (indices[i] as nat) < n_vertices
}

/// A mesh with its per-frame transform.
#[derive(Debug)]
pub struct Object3D {
    pub vertices: Vec<Vec3fx>,
    pub indices: Vec<usize>,
    pub normals: Vec<Vec3fx>,
    pub position: Vec3fx,
    /// Euler angles in fixed-point degrees, applied X then Y then Z.
    pub rotation: Vec3fx,
    pub scale: Vec3fx,
}

/// The face normal of the triangle (a, b, c): cross(c - a, b - a).
/// This operand order fixes the front-facing convention of the pipeline.
pub open spec fn face_normal_s(a: Vec3fx, b: Vec3fx, c: Vec3fx) -> Vec3fx {
    cross3_s(sub3_s(c, a), sub3_s(b, a))
}

/// The contribution of triangle `t` to the accumulated normal of vertex
/// `v`: the face normal is added once per slot of the triangle that names
/// `v`, in slot order.
pub open spec fn tri_acc_s(cur: Vec3fx, vs: Seq<Vec3fx>, idx: Seq<usize>, t: int, v: int) -> Vec3fx {
    let ia = idx[3 * t] as int;
    let ib = idx[3 * t + 1] as int;
    let ic = idx[3 * t + 2] as int;
    let n = face_normal_s(vs[ia], vs[ib], vs[ic]);
    let c1 = if ia == v {
        add3_s(cur, n)
    } else {
        cur
    };
    let c2 = if ib == v {
        add3_s(c1, n)
    } else {
        c1
    };
    if ic == v {
        add3_s(c2, n)
    } else {
        c2
    }
}

/// The accumulated (un-normalized) normal of vertex `v` over the first `t`
/// triangles.
pub open spec fn accum_s(vs: Seq<Vec3fx>, idx: Seq<usize>, t: int, v: int) -> Vec3fx
    decreases t,
{
    if t <= 0 {
        Vec3fx { x: 0, y: 0, z: 0 }
    } else {
        tri_acc_s(accum_s(vs, idx, t - 1, v), vs, idx, t - 1, v)
    }
}

/// The smooth normal of vertex `v`: the normalized sum of the face normals
/// of every incident triangle (counted once per slot).
pub open spec fn vertex_normal_s(vs: Seq<Vec3fx>, idx: Seq<usize>, v: int) -> Vec3fx {
    normalize3_s(accum_s(vs, idx, idx.len() as int / 3, v))
}

impl Object3D {
    /// Indices group into triangles and point at vertices; the normal list
    /// is absent or one per vertex.
    pub open spec fn well_formed(&self) -> bool {
        &&& indices_valid(self.indices@, self.vertices@.len())
        &&& (self.normals@.len() == 0 || self.normals@.len() == self.vertices@.len())
    }

    /// Build a mesh from raw geometry, validating the index list; the
    /// transform starts at the origin with no rotation and unit scale.
    pub fn new(vertices: Vec<Vec3fx>, indices: Vec<usize>) -> (r: Result<Object3D, MeshError>)
        ensures
            match r {
                Ok(o) => {
                    &&& indices_valid(indices@, vertices@.len())
                    &&& o.well_formed()
                    &&& o.vertices@ == vertices@
                    &&& o.indices@ == indices@
                    &&& o.normals@.len() == 0
                    &&& o.position == (Vec3fx { x: 0, y: 0, z: 0 })
                    &&& o.rotation == (Vec3fx { x: 0, y: 0, z: 0 })
                    &&& o.scale == (Vec3fx { x: SCALE as i64, y: SCALE as i64, z: SCALE as i64 })
                },
                Err(MeshError::IndexCountNotMultipleOfThree) => indices@.len() % 3 != 0,
                Err(MeshError::IndexOutOfBounds) => {
                    &&& indices@.len() % 3 == 0
                    &&& exists|i: int|
                        0 <= i < indices@.len() && (indices@[i] as nat) >= vertices@.len()
                },
            },
    {
        if indices.len() % 3 != 0 {
            return Err(MeshError::IndexCountNotMultipleOfThree);
        }
        let n = vertices.len();
        let mut i: usize = 0;
        while i < indices.len()
            invariant
                i <= indices@.len(),
                indices@.len() % 3 == 0,
                forall|j: int| 0 <= j < i ==> (indices@[j] as nat) < vertices@.len(),
                n == vertices@.len(),
            decreases indices@.len() - i,
        {
            if indices[i] >= n {
                proof {
                    assert(0 <= i < indices@.len() && (indices@[i as int] as nat)
                        >= vertices@.len());
                }
                return Err(MeshError::IndexOutOfBounds);
            }
            i += 1;
        }
        Ok(
            Object3D {
                vertices,
                indices,
                normals: Vec::new(),
                position: Vec3fx { x: 0, y: 0, z: 0 },
                rotation: Vec3fx { x: 0, y: 0, z: 0 },
                scale: Vec3fx { x: SCALE, y: SCALE, z: SCALE },
            },
        )
    }
}

/// The face normal of the triangle (v0, v1, v2): cross(v2 - v0, v1 - v0).
pub fn calculate_normal(v0: Vec3fx, v1: Vec3fx, v2: Vec3fx) -> (r: Vec3fx)
    ensures
        r == face_normal_s(v0, v1, v2),
{
    let u = v2.minus(v0);
    let v = v1.minus(v0);
    u.cross(v)
}

/// Recompute the smooth per-vertex normals of a mesh: every vertex receives
/// the normalized sum of the face normals of its incident triangles.  A
/// vertex that no triangle names keeps the zero vector.
pub fn compute_vertex_normals(object: &mut Object3D)
    requires
        old(object).well_formed(),
    ensures
        final(object).vertices == old(object).vertices,
        final(object).indices == old(object).indices,
        final(object).position == old(object).position,
        final(object).rotation == old(object).rotation,
        final(object).scale == old(object).scale,
        final(object).well_formed(),
        final(object).normals@.len() == old(object).vertices@.len(),
        forall|v: int|
            0 <= v < old(object).vertices@.len() ==> final(object).normals@[v] == vertex_normal_s(
                old(object).vertices@,
                old(object).indices@,
                v,
            ),
{
    let ghost vs = object.vertices@;
    let ghost idx = object.indices@;
    let n = object.vertices.len();
    let mut normals: Vec<Vec3fx> = Vec::new();
    while normals.len() < n
        invariant
            normals@.len() <= n,
            forall|j: int| 0 <= j < normals@.len() ==> normals@[j] == (Vec3fx { x: 0, y: 0, z: 0 }),
        decreases n - normals@.len(),
    {
        normals.push(Vec3fx { x: 0, y: 0, z: 0 });
    }
    assert(forall|v: int| 0 <= v < n ==> normals@[v] == accum_s(vs, idx, 0, v));
    let nt = object.indices.len() / 3;
    proof {
        vstd::arithmetic::div_mod::lemma_fundamental_div_mod(idx.len() as int, 3);
    }
    let mut t: usize = 0;
    while t < nt
        invariant
            t <= nt,
            nt == idx.len() as int / 3,
            3 * nt == idx.len(),
            3 * (nt as int) <= usize::MAX as int,
            object.vertices@ == vs,
            object.indices@ == idx,
            indices_valid(idx, vs.len()),
            n == vs.len(),
            normals@.len() == n,
            forall|v: int| 0 <= v < n ==> normals@[v] == accum_s(vs, idx, t as int, v),
        decreases nt - t,
    {
        let ia = object.indices[3 * t];
        let ib = object.indices[3 * t + 1];
        let ic = object.indices[3 * t + 2];
        let a = object.vertices[ia];
        let b = object.vertices[ib];
        let c = object.vertices[ic];
        let fnm = calculate_normal(a, b, c);
        let ghost before = normals@;
        let cur_a = normals[ia];
        normals[ia] = cur_a.plus(fnm);
        let cur_b = normals[ib];
        normals[ib] = cur_b.plus(fnm);
        let cur_c = normals[ic];
        normals[ic] = cur_c.plus(fnm);
        proof {
            assert forall|v: int| 0 <= v < n implies normals@[v] == accum_s(
                vs,
                idx,
                t as int + 1,
                v,
            ) by {
                assert(accum_s(vs, idx, t as int + 1, v) == tri_acc_s(
                    accum_s(vs, idx, t as int, v),
                    vs,
                    idx,
                    t as int,
                    v,
                ));
                assert(before[v] == accum_s(vs, idx, t as int, v));
            }
        }
        t += 1;
    }
    let mut v: usize = 0;
    while v < n
        invariant
            v <= n,
            nt == idx.len() as int / 3,
            object.vertices@ == vs,
            object.indices@ == idx,
            n == vs.len(),
            normals@.len() == n,
            forall|j: int| 0 <= j < v ==> normals@[j] == vertex_normal_s(vs, idx, j),
            forall|j: int| v <= j < n ==> normals@[j] == accum_s(vs, idx, nt as int, j),
        decreases n - v,
    {
        let cur = normals[v];
        normals[v] = cur.normalize();
        v += 1;
    }
    object.normals = normals;
}

} // verus!
