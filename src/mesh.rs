//! A fixed-capacity staging area for vertex and index data, with the
//! bookkeeping that decides what must be re-uploaded to the device and which
//! draw call covers the live region.
use vstd::prelude::*;
use crate::encode::{encode_halves, encode_words, le_halves, le_words};
use crate::layout::{
    elements_before, lemma_elements_before_monotonic, total_elements, VertexAttribute,
};

verus! {

/// Why a mesh could not be built.
#[derive(Clone, Copy, Debug, PartialEq, Eq, Structural)]
pub enum MeshError {
    /// The vertex layout names no attribute.
    EmptyLayout,
    /// The vertex layout has attributes, but none of them has a component.
    ZeroStride,
}

/// The device draw call that covers the live region of a mesh.
#[derive(Clone, Copy, Debug, PartialEq, Eq, Structural)]
pub enum DrawCall {
    /// An indexed draw of `count` 16-bit indices, starting `offset` bytes into the index buffer.
    Elements { primitive: u32, count: usize, offset: usize },
    /// A non-indexed draw of `count` vertices, starting at vertex `first`.
    Arrays { primitive: u32, first: usize, count: usize },
}

/// Byte images that must replace the device buffers before drawing;
/// `None` where the device copy is still current.
pub struct Upload {
    pub vertices: Option<Vec<u8>>,
    pub indices: Option<Vec<u8>>,
}

/// What drawing a mesh asks of the device: the uploads first, then the call.
pub struct MeshDraw {
    pub upload: Upload,
    pub call: DrawCall,
}

/// How one attribute is laid out in the interleaved vertex buffer.
#[derive(Clone, Copy, Debug)]
pub struct AttributePointer {
    pub name: &'static str,
    pub vertex_type: u32,
    pub num_elements: usize,
    /// Bytes from one vertex to the next.
    pub stride_bytes: usize,
    /// Bytes from the start of a vertex to this attribute.
    pub offset_bytes: usize,
}

/// The abstract state of a mesh.
pub struct MeshView {
    /// The whole vertex staging array, in float components.
    pub vertices: Seq<u32>,
    /// How many leading components are live.
    pub vertices_length: nat,
    pub dirty_vertices: bool,
    /// The whole index staging array.
    pub indices: Seq<u16>,
    /// How many leading indices are live.
    pub indices_length: nat,
    pub dirty_indices: bool,
    /// Components per vertex.
    pub stride: nat,
    pub attributes: Seq<VertexAttribute>,
}

impl MeshView {
    pub open spec fn inv(self) -> bool {
        &&& self.stride == total_elements(self.attributes)
        &&& self.stride > 0
        &&& 4 * self.stride <= isize::MAX
        &&& self.vertices_length <= self.vertices.len()
        &&& self.indices_length <= self.indices.len()
        &&& 4 * self.vertices.len() <= isize::MAX
        &&& 2 * self.indices.len() <= isize::MAX
    }

    pub open spec fn live_vertices(self) -> Seq<u32> {
        self.vertices.subrange(0, self.vertices_length as int)
    }

    pub open spec fn live_indices(self) -> Seq<u16> {
        self.indices.subrange(0, self.indices_length as int)
    }

    /// Whole vertices in the live region.
    pub open spec fn num_vertices(self) -> nat {
        self.vertices_length / self.stride
    }
}

/// The uploads owed for a mesh in state `v`: one for each dirty region, holding its live part.
pub open spec fn upload_of(u: Upload, v: MeshView) -> bool {
    &&& (u.vertices is Some <==> v.dirty_vertices)
    &&& (u.indices is Some <==> v.dirty_indices)
    &&& (u.vertices matches Some(b) ==> b@ == le_words(v.live_vertices()))
    &&& (u.indices matches Some(b) ==> b@ == le_halves(v.live_indices()))
}

/// The draw call for a mesh in state `v`: indexed when any index is live.
pub open spec fn draw_call_of(v: MeshView, primitive: u32, offset: usize, count: usize) -> DrawCall {
    if v.indices_length > 0 {
        DrawCall::Elements { primitive, count, offset }
    } else {
        DrawCall::Arrays { primitive, first: offset, count }
    }
}

/// The element count that covers the whole live region of `v`.
pub open spec fn live_count(v: MeshView) -> nat {
    if v.indices_length > 0 {
        v.indices_length
    } else {
        v.num_vertices()
    }
}

/// The attribute table of a layout: each attribute at its running offset.
pub open spec fn pointers_of(attrs: Seq<VertexAttribute>, stride: nat, r: Seq<AttributePointer>) -> bool {
    &&& r.len() == attrs.len()
    &&& forall|i: int|
        0 <= i < r.len() ==> {
            &&& (#[trigger] r[i]).name == attrs[i].name
            &&& r[i].vertex_type == attrs[i].vertex_type
            &&& r[i].num_elements == attrs[i].num_elements
            &&& r[i].stride_bytes == 4 * stride
            &&& r[i].offset_bytes == 4 * elements_before(attrs, i)
        }
}

/// A staging area of `u32` words (float bit patterns) and 16-bit indices.
pub struct Mesh {
    vertices: Vec<u32>,
    vertices_length: usize,
    dirty_vertices: bool,
    indices: Vec<u16>,
    indices_length: usize,
    dirty_indices: bool,
    elements_per_vertex: usize,
    attributes: Vec<VertexAttribute>,
}

impl View for Mesh {
    type V = MeshView;

    closed spec fn view(&self) -> MeshView {
        MeshView {
            vertices: self.vertices@,
            vertices_length: self.vertices_length as nat,
            dirty_vertices: self.dirty_vertices,
            indices: self.indices@,
            indices_length: self.indices_length as nat,
            dirty_indices: self.dirty_indices,
            stride: self.elements_per_vertex as nat,
            attributes: self.attributes@,
        }
    }
}


/// A staging array of `n` zero words.
fn zeroed_words(n: usize) -> (r: Vec<u32>)
    ensures
        r@ == Seq::new(n as nat, |_i: int| 0u32),
{
    let mut v: Vec<u32> = Vec::with_capacity(n);
    let mut i: usize = 0;
    while i < n
        invariant
            i <= n,
            v@ == Seq::new(i as nat, |_i: int| 0u32),
        decreases n - i,
    {
        v.push(0);
        i = i + 1;
        assert(v@ =~= Seq::new(i as nat, |_i: int| 0u32));
    }
    v
}

/// A staging array of `n` zero indices.
fn zeroed_halves(n: usize) -> (r: Vec<u16>)
    ensures
        r@ == Seq::new(n as nat, |_i: int| 0u16),
{
    let mut v: Vec<u16> = Vec::with_capacity(n);
    let mut i: usize = 0;
    while i < n
        invariant
            i <= n,
            v@ == Seq::new(i as nat, |_i: int| 0u16),
        decreases n - i,
    {
        v.push(0);
        i = i + 1;
        assert(v@ =~= Seq::new(i as nat, |_i: int| 0u16));
    }
    v
}

impl Mesh {
    pub open spec fn wf(&self) -> bool {
        self@.inv()
    }

    /// Builds a mesh with room for `max_vertices` vertices of the given layout and
    /// `max_indices` indices, all zero, nothing live and nothing dirty.
    pub fn new(attributes: Vec<VertexAttribute>, max_vertices: usize, max_indices: usize) -> (r:
        Result<Mesh, MeshError>)
        requires
            4 * total_elements(attributes@) <= isize::MAX,
            4 * total_elements(attributes@) * max_vertices <= isize::MAX,
            2 * max_indices <= isize::MAX,
        ensures
            attributes@.len() == 0 <==> r == Err::<Mesh, MeshError>(MeshError::EmptyLayout),
            (attributes@.len() > 0 && total_elements(attributes@) == 0) <==> r == Err::<
                Mesh,
                MeshError,
            >(MeshError::ZeroStride),
            r is Ok <==> attributes@.len() > 0 && total_elements(attributes@) > 0,
            r matches Ok(m) ==> {
                &&& m.wf()
                &&& m@.attributes == attributes@
                &&& m@.stride == total_elements(attributes@)
                &&& m@.vertices == Seq::new((m@.stride * max_vertices) as nat, |_i: int| 0u32)
                &&& m@.indices == Seq::new(max_indices as nat, |_i: int| 0u16)
                &&& m@.vertices_length == 0
                &&& m@.indices_length == 0
                &&& !m@.dirty_vertices
                &&& !m@.dirty_indices
            },
    {
        if attributes.len() == 0 {
            return Err(MeshError::EmptyLayout);
        }
        let mut elements_per_vertex: usize = 0;
        let mut i: usize = 0;
        while i < attributes.len()
            invariant
                i <= attributes.len(),
                elements_per_vertex == elements_before(attributes@, i as int),
                4 * total_elements(attributes@) <= isize::MAX,
            decreases attributes.len() - i,
        {
            proof {
                lemma_elements_before_monotonic(attributes@, i + 1, attributes@.len() as int);
            }
            elements_per_vertex = elements_per_vertex + attributes[i].num_elements;
            i = i + 1;
        }
        if elements_per_vertex == 0 {
            return Err(MeshError::ZeroStride);
        }
        proof {
            assert(elements_per_vertex * max_vertices <= 4 * elements_per_vertex * max_vertices)
                by (nonlinear_arith);
            assert(4 * (elements_per_vertex * max_vertices) == 4 * elements_per_vertex * max_vertices)
                by (nonlinear_arith);
        }
        let vertices = zeroed_words(elements_per_vertex * max_vertices);
        let indices = zeroed_halves(max_indices);
        let m = Mesh {
            vertices,
            vertices_length: 0,
            dirty_vertices: false,
            indices,
            indices_length: 0,
            dirty_indices: false,
            elements_per_vertex,
            attributes,
        };
        Ok(m)
    }

    /// Marks the first `length` components as live; they must be re-uploaded.
    pub fn set_vertices_length(&mut self, length: usize)
        requires
            old(self).wf(),
            length <= old(self)@.vertices.len(),
        ensures
            final(self)@ == (MeshView {
                vertices_length: length as nat,
                dirty_vertices: true,
                ..old(self)@
            }),
    {
        self.vertices_length = length;
        self.dirty_vertices = true;
    }

    /// Marks the first `length` indices as live; they must be re-uploaded.
    pub fn set_indices_length(&mut self, length: usize)
        requires
            old(self).wf(),
            length <= old(self)@.indices.len(),
        ensures
            final(self)@ == (MeshView {
                indices_length: length as nat,
                dirty_indices: true,
                ..old(self)@
            }),
    {
        self.indices_length = length;
        self.dirty_indices = true;
    }

    /// Copies `src` into the vertex staging array from component `offset` on.
    /// Neither the live length nor the dirty flag changes.
    pub fn write_vertices(&mut self, offset: usize, src: &[u32])
        requires
            old(self).wf(),
            offset + src@.len() <= old(self)@.vertices.len(),
        ensures
            final(self)@ == (MeshView {
                vertices: old(self)@.vertices.subrange(0, offset as int) + src@
                    + old(self)@.vertices.subrange(
                    offset + src@.len(),
                    old(self)@.vertices.len() as int,
                ),
                ..old(self)@
            }),
    {
        let ghost before = self.vertices@;
        let mut i: usize = 0;
        while i < src.len()
            invariant
                i <= src@.len(),
                offset + src@.len() <= before.len(),
                old(self).wf(),
                before == old(self)@.vertices,
                self@ == (MeshView { vertices: self.vertices@, ..old(self)@ }),
                self.vertices@.len() == before.len(),
                forall|k: int|
                    0 <= k < before.len() ==> #[trigger] self.vertices@[k] == if offset <= k
                        < offset + i {
                        src@[k - offset]
                    } else {
                        before[k]
                    },
            decreases src@.len() - i,
        {
            self.vertices.set(offset + i, src[i]);
            i = i + 1;
        }
        assert(self.vertices@ =~= before.subrange(0, offset as int) + src@ + before.subrange(
            offset + src@.len(),
            before.len() as int,
        ));
    }

    /// Copies `src` into the index staging array from position `offset` on.
    /// Neither the live length nor the dirty flag changes.
    pub fn write_indices(&mut self, offset: usize, src: &[u16])
        requires
            old(self).wf(),
            offset + src@.len() <= old(self)@.indices.len(),
        ensures
            final(self)@ == (MeshView {
                indices: old(self)@.indices.subrange(0, offset as int) + src@
                    + old(self)@.indices.subrange(
                    offset + src@.len(),
                    old(self)@.indices.len() as int,
                ),
                ..old(self)@
            }),
    {
        let ghost before = self.indices@;
        let mut i: usize = 0;
        while i < src.len()
            invariant
                i <= src@.len(),
                offset + src@.len() <= before.len(),
                old(self).wf(),
                before == old(self)@.indices,
                self@ == (MeshView { indices: self.indices@, ..old(self)@ }),
                self.indices@.len() == before.len(),
                forall|k: int|
                    0 <= k < before.len() ==> #[trigger] self.indices@[k] == if offset <= k
                        < offset + i {
                        src@[k - offset]
                    } else {
                        before[k]
                    },
            decreases src@.len() - i,
        {
            self.indices.set(offset + i, src[i]);
            i = i + 1;
        }
        assert(self.indices@ =~= before.subrange(0, offset as int) + src@ + before.subrange(
            offset + src@.len(),
            before.len() as int,
        ));
    }

    /// Replaces the leading components with `vertices` and makes exactly them live.
    pub fn set_vertices(&mut self, vertices: &[u32])
        requires
            old(self).wf(),
            vertices@.len() <= old(self)@.vertices.len(),
        ensures
            final(self)@ == (MeshView {
                vertices: vertices@ + old(self)@.vertices.subrange(
                    vertices@.len() as int,
                    old(self)@.vertices.len() as int,
                ),
                vertices_length: vertices@.len(),
                dirty_vertices: true,
                ..old(self)@
            }),
    {
        self.write_vertices(0, vertices);
        self.set_vertices_length(vertices.len());
        assert(self@.vertices =~= vertices@ + old(self)@.vertices.subrange(
            vertices@.len() as int,
            old(self)@.vertices.len() as int,
        ));
    }

    /// Replaces the leading indices with `indices` and makes exactly them live.
    pub fn set_indices(&mut self, indices: &[u16])
        requires
            old(self).wf(),
            indices@.len() <= old(self)@.indices.len(),
        ensures
            final(self)@ == (MeshView {
                indices: indices@ + old(self)@.indices.subrange(
                    indices@.len() as int,
                    old(self)@.indices.len() as int,
                ),
                indices_length: indices@.len(),
                dirty_indices: true,
                ..old(self)@
            }),
    {
        self.write_indices(0, indices);
        self.set_indices_length(indices.len());
        assert(self@.indices =~= indices@ + old(self)@.indices.subrange(
            indices@.len() as int,
            old(self)@.indices.len() as int,
        ));
    }

    /// Whole vertices in the live region.
    pub fn num_vertices(&self) -> (r: usize)
        requires
            self.wf(),
        ensures
            r == self@.num_vertices(),
    {
        self.vertices_length / self.elements_per_vertex
    }

    /// Components in the live vertex region.
    pub fn vertices_length(&self) -> (r: usize)
        ensures
            r == self@.vertices_length,
    {
        self.vertices_length
    }

    /// Indices in the live index region.
    pub fn indices_length(&self) -> (r: usize)
        ensures
            r == self@.indices_length,
    {
        self.indices_length
    }

    /// Room for vertex data, in components.
    pub fn vertex_capacity(&self) -> (r: usize)
        ensures
            r == self@.vertices.len(),
    {
        self.vertices.len()
    }

    /// Room for indices.
    pub fn index_capacity(&self) -> (r: usize)
        ensures
            r == self@.indices.len(),
    {
        self.indices.len()
    }

    /// Components per vertex.
    pub fn elements_per_vertex(&self) -> (r: usize)
        ensures
            r == self@.stride,
    {
        self.elements_per_vertex
    }

    /// Takes the byte images of the dirty live regions and clears both dirty flags.
    pub fn update(&mut self) -> (r: Upload)
        requires
            old(self).wf(),
        ensures
            upload_of(r, old(self)@),
            final(self)@ == (MeshView {
                dirty_vertices: false,
                dirty_indices: false,
                ..old(self)@
            }),
    {
        let vertices = if self.dirty_vertices {
            Some(encode_words(&self.vertices, self.vertices_length))
        } else {
            None
        };
        let indices = if self.dirty_indices {
            Some(encode_halves(&self.indices, self.indices_length))
        } else {
            None
        };
        self.dirty_vertices = false;
        self.dirty_indices = false;
        Upload { vertices, indices }
    }

    /// Uploads what is dirty, then draws `count` elements from `offset` on:
    /// indices when any index is live, vertices otherwise.
    pub fn draw_with_offset(&mut self, primitive_type: u32, offset: usize, count: usize) -> (r:
        MeshDraw)
        requires
            old(self).wf(),
        ensures
            upload_of(r.upload, old(self)@),
            r.call == draw_call_of(old(self)@, primitive_type, offset, count),
            final(self)@ == (MeshView {
                dirty_vertices: false,
                dirty_indices: false,
                ..old(self)@
            }),
    {
        let upload = self.update();
        let call = if self.indices_length > 0 {
            DrawCall::Elements { primitive: primitive_type, count, offset }
        } else {
            DrawCall::Arrays { primitive: primitive_type, first: offset, count }
        };
        MeshDraw { upload, call }
    }

    /// Uploads what is dirty, then draws the whole live region.
    pub fn draw(&mut self, primitive_type: u32) -> (r: MeshDraw)
        requires
            old(self).wf(),
        ensures
            upload_of(r.upload, old(self)@),
            r.call == draw_call_of(old(self)@, primitive_type, 0, live_count(old(self)@) as usize),
            final(self)@ == (MeshView {
                dirty_vertices: false,
                dirty_indices: false,
                ..old(self)@
            }),
    {
        let count = if self.indices_length > 0 {
            self.indices_length
        } else {
            self.num_vertices()
        };
        self.draw_with_offset(primitive_type, 0, count)
    }

    /// The attribute table that binds this layout to a vertex buffer: each
    /// attribute at the byte offset of the components before it.
    pub fn attribute_pointers(&self) -> (r: Vec<AttributePointer>)
        requires
            self.wf(),
        ensures
            pointers_of(self@.attributes, self@.stride, r@),
    {
        let mut r: Vec<AttributePointer> = Vec::with_capacity(self.attributes.len());
        let stride_bytes = 4 * self.elements_per_vertex;
        let mut offset: usize = 0;
        let mut i: usize = 0;
        while i < self.attributes.len()
            invariant
                self.wf(),
                i <= self.attributes@.len(),
                offset == elements_before(self.attributes@, i as int),
                stride_bytes == 4 * self@.stride,
                r@.len() == i,
                forall|k: int|
                    0 <= k < i ==> {
                        &&& (#[trigger] r@[k]).name == self.attributes@[k].name
                        &&& r@[k].vertex_type == self.attributes@[k].vertex_type
                        &&& r@[k].num_elements == self.attributes@[k].num_elements
                        &&& r@[k].stride_bytes == 4 * self@.stride
                        &&& r@[k].offset_bytes == 4 * elements_before(self.attributes@, k)
                    },
            decreases self.attributes@.len() - i,
        {
            proof {
                lemma_elements_before_monotonic(self.attributes@, i + 1, self.attributes@.len() as int);
                lemma_elements_before_monotonic(self.attributes@, i as int, self.attributes@.len() as int);
            }
            let a = self.attributes[i];
            r.push(
                AttributePointer {
                    name: a.name,
                    vertex_type: a.vertex_type,
                    num_elements: a.num_elements,
                    stride_bytes,
                    offset_bytes: 4 * offset,
                },
            );
            offset = offset + a.num_elements;
            i = i + 1;
        }
        r
    }
}

} // verus!
