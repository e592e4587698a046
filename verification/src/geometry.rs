//! Tessellated geometry buffers.
//!
//! The tessellation collaborator turns shapes into triangles; every vertex it
//! produces is stamped with the GPU address of the primitive record that
//! styles it, so heterogeneous draw operations can share one vertex buffer.
//! A [`VertexCtor`] performs that stamping and rejects NaN coordinate words:
//! no NaN ever reaches GPU memory. A [`GeometryBuilder`] accumulates the
//! stamped fill and stroke buffers for one geometry id until they are
//! submitted to the device.

use vstd::prelude::*;

use crate::address::GpuAddress;
use crate::ids::GeometryId;

verus! {

/// Whether `bits` is the pattern of an IEEE 754 single-precision NaN: all
/// exponent bits set and a non-zero fraction.
pub open spec fn is_nan_word(bits: u32) -> bool {
    bits & 0x7F80_0000 == 0x7F80_0000 && bits & 0x007F_FFFF != 0
}

/// Whether `bits` is the pattern of an IEEE 754 single-precision NaN.
pub fn word_is_nan(bits: u32) -> (r: bool)
    ensures
        r == is_nan_word(bits),
{
    bits & 0x7F80_0000 == 0x7F80_0000 && bits & 0x007F_FFFF != 0
}

/// A fill vertex: position and normal as float words, and the packed address
/// of the fill primitive that styles it.
#[derive(Copy, Clone, Debug, PartialEq, Eq)]
pub struct GpuFillVertex {
    pub position: [u32; 2],
    pub normal: [u32; 2],
    pub prim_id: u32,
}

/// A stroke vertex: position, normal and advancement along the stroke as
/// float words, and the packed address of the stroke primitive that styles
/// it.
#[derive(Copy, Clone, Debug, PartialEq, Eq)]
pub struct GpuStrokeVertex {
    pub position: [u32; 2],
    pub normal: [u32; 2],
    pub advancement: u32,
    pub prim_id: u32,
}

/// No coordinate word of the vertex is a NaN pattern.
pub open spec fn fill_vertex_wf(v: GpuFillVertex) -> bool {
    !is_nan_word(v.position@[0]) && !is_nan_word(v.position@[1]) && !is_nan_word(v.normal@[0])
        && !is_nan_word(v.normal@[1])
}

/// No coordinate or advancement word of the vertex is a NaN pattern.
pub open spec fn stroke_vertex_wf(v: GpuStrokeVertex) -> bool {
    !is_nan_word(v.position@[0]) && !is_nan_word(v.position@[1]) && !is_nan_word(v.normal@[0])
        && !is_nan_word(v.normal@[1]) && !is_nan_word(v.advancement)
}

/// No vertex of the sequence carries a NaN word.
pub open spec fn fill_vertices_wf(s: Seq<GpuFillVertex>) -> bool {
    forall|i: int| 0 <= i < s.len() ==> fill_vertex_wf(#[trigger] s[i])
}

/// No vertex of the sequence carries a NaN word.
pub open spec fn stroke_vertices_wf(s: Seq<GpuStrokeVertex>) -> bool {
    forall|i: int| 0 <= i < s.len() ==> stroke_vertex_wf(#[trigger] s[i])
}

/// Stamps one primitive's address onto every vertex the tessellator emits
/// for it.
#[derive(Copy, Clone, Debug, PartialEq, Eq, Structural)]
pub struct VertexCtor(pub GpuAddress);

impl VertexCtor {
    /// A fill vertex carrying this primitive's address. NaN coordinates are
    /// rejected: they must never reach GPU memory.
    pub fn new_fill_vertex(&self, position: [u32; 2], normal: [u32; 2]) -> (v: GpuFillVertex)
        requires
            !is_nan_word(position@[0]),
            !is_nan_word(position@[1]),
            !is_nan_word(normal@[0]),
            !is_nan_word(normal@[1]),
        ensures
            fill_vertex_wf(v),
            v.position@ == position@,
            v.normal@ == normal@,
            v.prim_id == self.0.raw_spec(),
    {
        GpuFillVertex { position, normal, prim_id: self.0.to_raw() }
    }

    /// A stroke vertex carrying this primitive's address. NaN coordinates
    /// and advancements are rejected: they must never reach GPU memory.
    pub fn new_stroke_vertex(&self, position: [u32; 2], normal: [u32; 2], advancement: u32) -> (v:
        GpuStrokeVertex)
        requires
            !is_nan_word(position@[0]),
            !is_nan_word(position@[1]),
            !is_nan_word(normal@[0]),
            !is_nan_word(normal@[1]),
            !is_nan_word(advancement),
        ensures
            stroke_vertex_wf(v),
            v.position@ == position@,
            v.normal@ == normal@,
            v.advancement == advancement,
            v.prim_id == self.0.raw_spec(),
    {
        GpuStrokeVertex { position, normal, advancement, prim_id: self.0.to_raw() }
    }
}

/// A vertex buffer and its triangle index buffer.
pub struct VertexBuffers<V> {
    pub vertices: Vec<V>,
    pub indices: Vec<u32>,
}

impl<V> VertexBuffers<V> {
    /// Empty buffers.
    pub fn new() -> (r: Self)
        ensures
            r.vertices@ =~= Seq::<V>::empty(),
            r.indices@ =~= Seq::<u32>::empty(),
    {
        VertexBuffers { vertices: Vec::new(), indices: Vec::new() }
    }
}

/// The stamped fill and stroke buffers of one geometry, filled while vector
/// images are built and then submitted to the device as a whole.
pub struct GeometryBuilder {
    fill: VertexBuffers<GpuFillVertex>,
    stroke: VertexBuffers<GpuStrokeVertex>,
    id: GeometryId,
}

impl GeometryBuilder {
    /// The fill vertices appended so far.
    pub closed spec fn fill_vertices_spec(self) -> Seq<GpuFillVertex> {
        self.fill.vertices@
    }

    /// The fill indices appended so far.
    pub closed spec fn fill_indices_spec(self) -> Seq<u32> {
        self.fill.indices@
    }

    /// The stroke vertices appended so far.
    pub closed spec fn stroke_vertices_spec(self) -> Seq<GpuStrokeVertex> {
        self.stroke.vertices@
    }

    /// The stroke indices appended so far.
    pub closed spec fn stroke_indices_spec(self) -> Seq<u32> {
        self.stroke.indices@
    }

    /// The geometry's id.
    pub closed spec fn id_spec(self) -> GeometryId {
        self.id
    }

    /// No vertex in either buffer carries a NaN word.
    pub open spec fn wf(self) -> bool {
        fill_vertices_wf(self.fill_vertices_spec()) && stroke_vertices_wf(
            self.stroke_vertices_spec(),
        )
    }

    pub(crate) fn new(id: GeometryId) -> (r: Self)
        ensures
            r.wf(),
            r.id_spec() == id,
            r.fill_vertices_spec() =~= Seq::<GpuFillVertex>::empty(),
            r.fill_indices_spec() =~= Seq::<u32>::empty(),
            r.stroke_vertices_spec() =~= Seq::<GpuStrokeVertex>::empty(),
            r.stroke_indices_spec() =~= Seq::<u32>::empty(),
    {
        GeometryBuilder { fill: VertexBuffers::new(), stroke: VertexBuffers::new(), id }
    }

    /// The geometry's id.
    pub fn id(&self) -> (r: GeometryId)
        ensures
            r == self.id_spec(),
    {
        self.id
    }

    /// The stamped fill buffers.
    pub fn fill(&self) -> (r: &VertexBuffers<GpuFillVertex>)
        ensures
            r.vertices@ == self.fill_vertices_spec(),
            r.indices@ == self.fill_indices_spec(),
    {
        &self.fill
    }

    /// The stamped stroke buffers.
    pub fn stroke(&self) -> (r: &VertexBuffers<GpuStrokeVertex>)
        ensures
            r.vertices@ == self.stroke_vertices_spec(),
            r.indices@ == self.stroke_indices_spec(),
    {
        &self.stroke
    }

    /// Appends one stamped fill vertex the tessellator produced.
    pub fn push_fill_vertex(&mut self, v: GpuFillVertex)
        requires
            old(self).wf(),
            fill_vertex_wf(v),
        ensures
            final(self).wf(),
            final(self).fill_vertices_spec() =~= old(self).fill_vertices_spec().push(v),
            final(self).fill_indices_spec() == old(self).fill_indices_spec(),
            final(self).stroke_vertices_spec() == old(self).stroke_vertices_spec(),
            final(self).stroke_indices_spec() == old(self).stroke_indices_spec(),
            final(self).id_spec() == old(self).id_spec(),
    {
        self.fill.vertices.push(v);
        proof {
            let s = self.fill_vertices_spec();
            assert(s =~= old(self).fill_vertices_spec().push(v));
            assert forall|i: int| 0 <= i < s.len() implies fill_vertex_wf(#[trigger] s[i]) by {
                if i < old(self).fill_vertices_spec().len() {
                    assert(s[i] == old(self).fill_vertices_spec()[i]);
                }
            }
        }
    }

    /// Appends one fill triangle index the tessellator produced.
    pub fn push_fill_index(&mut self, index: u32)
        requires
            old(self).wf(),
        ensures
            final(self).wf(),
            final(self).fill_indices_spec() =~= old(self).fill_indices_spec().push(index),
            final(self).fill_vertices_spec() == old(self).fill_vertices_spec(),
            final(self).stroke_vertices_spec() == old(self).stroke_vertices_spec(),
            final(self).stroke_indices_spec() == old(self).stroke_indices_spec(),
            final(self).id_spec() == old(self).id_spec(),
    {
        self.fill.indices.push(index);
    }

    /// Appends one stamped stroke vertex the tessellator produced.
    pub fn push_stroke_vertex(&mut self, v: GpuStrokeVertex)
        requires
            old(self).wf(),
            stroke_vertex_wf(v),
        ensures
            final(self).wf(),
            final(self).stroke_vertices_spec() =~= old(self).stroke_vertices_spec().push(v),
            final(self).fill_vertices_spec() == old(self).fill_vertices_spec(),
            final(self).fill_indices_spec() == old(self).fill_indices_spec(),
            final(self).stroke_indices_spec() == old(self).stroke_indices_spec(),
            final(self).id_spec() == old(self).id_spec(),
    {
        self.stroke.vertices.push(v);
        proof {
            let s = self.stroke_vertices_spec();
            assert(s =~= old(self).stroke_vertices_spec().push(v));
            assert forall|i: int| 0 <= i < s.len() implies stroke_vertex_wf(#[trigger] s[i]) by {
                if i < old(self).stroke_vertices_spec().len() {
                    assert(s[i] == old(self).stroke_vertices_spec()[i]);
                }
            }
        }
    }

    /// Appends one stroke triangle index the tessellator produced.
    pub fn push_stroke_index(&mut self, index: u32)
        requires
            old(self).wf(),
        ensures
            final(self).wf(),
            final(self).stroke_indices_spec() =~= old(self).stroke_indices_spec().push(index),
            final(self).fill_vertices_spec() == old(self).fill_vertices_spec(),
            final(self).fill_indices_spec() == old(self).fill_indices_spec(),
            final(self).stroke_vertices_spec() == old(self).stroke_vertices_spec(),
            final(self).id_spec() == old(self).id_spec(),
    {
        self.stroke.indices.push(index);
    }
}

} // verus!
