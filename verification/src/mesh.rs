//! The mesh accumulator: concatenating per-polygon triangle output into one
//! combined vertex/index buffer while keeping every index valid.

use vstd::prelude::*;

use crate::geom::Coord;

verus! {

/// A 3-D vector, used for the per-vertex normal placeholders of a finished
/// mesh.
#[derive(Clone, Copy, PartialEq, Eq, Structural, Debug)]
pub struct Vec3 {
    pub x: i64,
    pub y: i64,
    pub z: i64,
}

/// The combined triangle mesh of one reload cycle.
///
/// `index_base` is the running offset applied to each incoming polygon's
/// local indices; the invariant `index_base == vertices.len()` keeps every
/// shifted index pointing into the polygon's own vertices.
pub struct Mesh {
    /// Vertex positions in projected (pixel) space.
    pub vertices: Vec<Coord>,
    /// Triangle indices, in consecutive triples.
    pub indices: Vec<u32>,
    /// Offset added to the next polygon's local indices.
    pub index_base: u32,
}

impl Mesh {
    /// Well-formed: indices come in triples, every index points at an
    /// existing vertex, and the running index base equals the vertex count.
    pub open spec fn wf(self) -> bool {
        &&& self.vertices@.len() <= u32::MAX
        &&& self.index_base == self.vertices@.len()
        &&& self.indices@.len() % 3 == 0
        &&& forall|i: int| 0 <= i < self.indices@.len()
            ==> (self.indices@[i] as int) < self.vertices@.len()
    }

    /// An empty mesh.
    pub fn new() -> (m: Mesh)
        ensures
            m.wf(),
            m.vertices@.len() == 0,
            m.indices@.len() == 0,
            m.index_base == 0,
    {
        Mesh { vertices: Vec::new(), indices: Vec::new(), index_base: 0 }
    }

    /// Appends one polygon's triangle output: the vertices are concatenated,
    /// the indices are shifted by the running index base, and the base
    /// advances by the polygon's vertex count. An empty contribution leaves
    /// the mesh, and in particular the index base, unchanged.
    pub fn accumulate(&mut self, verts: &Vec<Coord>, tris: &Vec<u32>)
        requires
            old(self).wf(),
            tris@.len() % 3 == 0,
            forall|i: int| 0 <= i < tris@.len() ==> (tris@[i] as int) < verts@.len(),
            old(self).vertices@.len() + verts@.len() <= u32::MAX,
        ensures
            final(self).wf(),
            final(self).vertices@ == old(self).vertices@ + verts@,
            final(self).indices@.len() == old(self).indices@.len() + tris@.len(),
            forall|i: int| 0 <= i < old(self).indices@.len()
                ==> final(self).indices@[i] == old(self).indices@[i],
            forall|i: int| 0 <= i < tris@.len()
                ==> final(self).indices@[old(self).indices@.len() + i]
                    == tris@[i] + old(self).index_base,
            final(self).index_base == old(self).index_base + verts@.len(),
            verts@.len() == 0 ==> final(self).index_base == old(self).index_base,
    {
        let base: u32 = self.index_base;
        proof {
            assert(self.vertices@ =~= old(self).vertices@ + verts@.subrange(0, 0));
        }
        let mut i: usize = 0;
        while i < verts.len()
            invariant
                i <= verts@.len(),
                old(self).vertices@.len() + verts@.len() <= u32::MAX,
                self.vertices@ == old(self).vertices@ + verts@.subrange(0, i as int),
                self.indices == old(self).indices,
                self.index_base == old(self).index_base,
            decreases verts@.len() - i,
        {
            self.vertices.push(verts[i]);
            proof {
                assert(self.vertices@ =~= old(self).vertices@
                    + verts@.subrange(0, i as int + 1));
            }
            i = i + 1;
        }
        proof {
            assert(verts@.subrange(0, verts@.len() as int) =~= verts@);
        }
        let old_len: usize = self.indices.len();
        let mut j: usize = 0;
        while j < tris.len()
            invariant
                j <= tris@.len(),
                old(self).wf(),
                forall|k: int| 0 <= k < tris@.len() ==> (tris@[k] as int) < verts@.len(),
                old(self).vertices@.len() + verts@.len() <= u32::MAX,
                base == old(self).index_base,
                old_len == old(self).indices@.len(),
                self.vertices@ == old(self).vertices@ + verts@,
                self.index_base == old(self).index_base,
                self.indices@.len() == old(self).indices@.len() + j,
                forall|k: int| 0 <= k < old(self).indices@.len()
                    ==> self.indices@[k] == old(self).indices@[k],
                forall|k: int| 0 <= k < j
                    ==> self.indices@[old(self).indices@.len() + k] == tris@[k] + base,
            decreases tris@.len() - j,
        {
            let t: u32 = tris[j];
            self.indices.push(base + t);
            j = j + 1;
        }
        proof {
            assert(verts@.len() <= u32::MAX);
            vstd::arithmetic::div_mod::lemma_add_mod_noop(
                old(self).indices@.len() as int, tris@.len() as int, 3);
            assert forall|i: int| 0 <= i < self.indices@.len()
                implies (self.indices@[i] as int) < self.vertices@.len() by {
                if i >= old(self).indices@.len() {
                    let k = i - old(self).indices@.len();
                    assert(self.indices@[i] == tris@[k] + base);
                    assert((tris@[k] as int) < verts@.len());
                }
            }
        }
        self.index_base = base + (verts.len() as u32);
    }
}

/// Law: in a well-formed mesh every combined index is below the total vertex
/// count, and the running index base equals that count, so each accumulated
/// polygon's triangles reference exactly that polygon's own vertices.
/// `accumulate` states that it preserves well-formedness and that an empty
/// contribution leaves the index base unchanged; this spells the invariant
/// out for the final buffers.
pub proof fn lemma_mesh_indices_in_range(m: Mesh)
    requires
        m.wf(),
    ensures
        forall|i: int| 0 <= i < m.indices@.len() ==> (m.indices@[i] as int) < m.vertices@.len(),
        m.index_base == m.vertices@.len(),
        m.indices@.len() % 3 == 0,
{
}

/// A finished mesh as the render collaborator takes it: positions, triangle
/// indices, and zero-filled normal and texture-coordinate placeholders, one
/// per vertex.
pub struct RenderMesh {
    pub positions: Vec<Coord>,
    pub indices: Vec<u32>,
    pub normals: Vec<Vec3>,
    pub uvs: Vec<Coord>,
}

impl Mesh {
    /// Finishes the accumulated mesh: the vertex and index buffers are handed
    /// over unchanged, and each vertex gets a zero normal and a zero texture
    /// coordinate.
    pub fn finalize(self) -> (r: RenderMesh)
        requires
            self.wf(),
        ensures
            r.positions@ == self.vertices@,
            r.indices@ == self.indices@,
            r.normals@.len() == r.positions@.len(),
            r.uvs@.len() == r.positions@.len(),
            forall|i: int| 0 <= i < r.normals@.len()
                ==> r.normals@[i] == (Vec3 { x: 0i64, y: 0i64, z: 0i64 }),
            forall|i: int| 0 <= i < r.uvs@.len() ==> r.uvs@[i] == (Coord { x: 0i64, y: 0i64 }),
            r.indices@.len() % 3 == 0,
            forall|i: int| 0 <= i < r.indices@.len()
                ==> (r.indices@[i] as int) < r.positions@.len(),
    {
        let n: usize = self.vertices.len();
        let mut normals: Vec<Vec3> = Vec::new();
        let mut uvs: Vec<Coord> = Vec::new();
        let mut i: usize = 0;
        while i < n
            invariant
                i <= n,
                normals@.len() == i,
                uvs@.len() == i,
                forall|k: int| 0 <= k < i
                    ==> normals@[k] == (Vec3 { x: 0i64, y: 0i64, z: 0i64 }),
                forall|k: int| 0 <= k < i ==> uvs@[k] == (Coord { x: 0i64, y: 0i64 }),
            decreases n - i,
        {
            normals.push(Vec3 { x: 0, y: 0, z: 0 });
            uvs.push(Coord { x: 0, y: 0 });
            i = i + 1;
        }
        RenderMesh { positions: self.vertices, indices: self.indices, normals, uvs }
    }
}

} // verus!
