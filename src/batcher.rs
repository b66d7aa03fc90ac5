//! The sprite batcher: a begin/end state machine that accumulates quads into
//! one mesh and flushes it on texture change, on exhaustion and at the end.
use vstd::prelude::*;
use crate::encode::{le_halves, le_words};
use crate::gl_consts::{gl_one_minus_src_alpha, gl_src_alpha, gl_triangles};
use crate::layout::{
    elements_before, float_type, total_elements, VertexAttribute, COLOR, POSITION, TEXCOORDS,
};
use crate::mesh::{DrawCall, Mesh, MeshDraw};
use crate::quad::{
    corner_uvs, fill_quad, quad_indices, quad_triangles, quad_uvs, quad_words, ColorBits,
    QuadCorners, UvRect, QUAD_SIZE, VERTEX_SIZE,
};
use crate::texture::Texture;

verus! {

/// Vertex room of a batcher built with `create`.
pub const DEFAULT_MAX_VERTICES: usize = 10920;

/// Largest vertex room: every vertex must be reachable by a 16-bit index.
pub const MAX_VERTICES_LIMIT: usize = 65536;

/// Enumerant of the triangle-list primitive, as the device names it.
pub open spec fn triangles() -> u32 {
    0x0004
}

/// Enumerant of the blend factor "source alpha".
pub open spec fn src_alpha() -> u32 {
    0x0302
}

/// Enumerant of the blend factor "one minus source alpha".
pub open spec fn one_minus_src_alpha() -> u32 {
    0x0303
}

/// One batch handed to the device: bind `texture`, upload, then draw.
pub struct Flush {
    pub texture: Texture,
    pub draw: MeshDraw,
}

/// The abstract state of a batcher.
pub struct BatchView {
    /// Between `begin` and `end`.
    pub drawing: bool,
    /// The texture of the staged batch.
    pub texture: Option<Texture>,
    /// Staged vertex components, eight per vertex.
    pub vertices: Seq<u32>,
    /// Staged indices, already rebased onto the staged vertices.
    pub indices: Seq<u16>,
    /// Draw calls issued since the last `begin`.
    pub draw_calls: int,
    pub y_down: bool,
    pub color: ColorBits,
    /// Source colour, destination colour, source alpha, destination alpha.
    pub blend: (u32, u32, u32, u32),
    pub projection: Seq<u32>,
    /// The scratch quad most recently prepared.
    pub quad: Seq<u32>,
    /// Room, in vertices; there is room for three indices per vertex.
    pub max_vertices: nat,
}

impl BatchView {
    pub open spec fn inv(self) -> bool {
        &&& 4 <= self.max_vertices <= MAX_VERTICES_LIMIT
        &&& self.vertices.len() % (VERTEX_SIZE as nat) == 0
        &&& self.vertices.len() <= VERTEX_SIZE * self.max_vertices
        &&& self.indices.len() <= 3 * self.max_vertices
        &&& (self.vertices.len() > 0 ==> self.texture is Some)
        &&& (self.indices.len() > 0 ==> self.vertices.len() > 0)
        &&& (!self.drawing ==> self.vertices.len() == 0 && self.indices.len() == 0
            && self.texture is None)
        &&& self.draw_calls >= 0
        &&& self.quad.len() == QUAD_SIZE
        &&& self.projection.len() == 16
    }

    /// Whole vertices staged.
    pub open spec fn staged_vertices(self) -> nat {
        self.vertices.len() / (VERTEX_SIZE as nat)
    }
}

/// Drawing with `t` in state `v` changes the batch texture.
pub open spec fn texture_changes(v: BatchView, t: Texture) -> bool {
    match v.texture {
        Some(cur) => cur.handle != t.handle,
        None => true,
    }
}

/// Appending `nv` components and `ni` indices would not fit behind what is staged.
pub open spec fn overflows(v: BatchView, nv: nat, ni: nat) -> bool {
    v.vertices.len() + nv > VERTEX_SIZE * v.max_vertices || v.indices.len() + ni > 3
        * v.max_vertices
}

/// Drawing `nv` components and `ni` indices with `t` issues a draw call first.
pub open spec fn flushes_before(v: BatchView, t: Texture, nv: nat, ni: nat) -> bool {
    (texture_changes(v, t) || overflows(v, nv, ni)) && v.vertices.len() > 0
}

/// The state after a flush: nothing staged and one more draw call, unless nothing was staged.
pub open spec fn flushed(v: BatchView) -> BatchView {
    if v.vertices.len() == 0 {
        v
    } else {
        BatchView {
            vertices: Seq::empty(),
            indices: Seq::empty(),
            draw_calls: v.draw_calls + 1,
            ..v
        }
    }
}

/// Local indices moved past `base` staged vertices.
pub open spec fn rebased(indices: Seq<u16>, base: nat) -> Seq<u16> {
    indices.map_values(|i: u16| (i + base) as u16)
}

/// The state after drawing `vertices` and `indices` with `t`: flush first when
/// the texture changes or the data would not fit, adopt `t`, then append the
/// vertices and the indices rebased past the vertices staged before them.
pub open spec fn appended(v: BatchView, t: Texture, vertices: Seq<u32>, indices: Seq<u16>) -> BatchView {
    let w = if texture_changes(v, t) || overflows(v, vertices.len(), indices.len()) {
        flushed(v)
    } else {
        v
    };
    let w = if texture_changes(v, t) {
        BatchView { texture: Some(t), ..w }
    } else {
        w
    };
    BatchView {
        vertices: w.vertices + vertices,
        indices: w.indices + rebased(indices, w.staged_vertices()),
        ..w
    }
}

/// `f` draws the batch staged in `v`: its texture, the byte images of its
/// vertices and indices, and one triangle-list call over all of it.
pub open spec fn flush_of(f: Flush, v: BatchView) -> bool {
    &&& v.texture == Some(f.texture)
    &&& (f.draw.upload.vertices matches Some(b) && b@ == le_words(v.vertices))
    &&& (f.draw.upload.indices matches Some(b) && b@ == le_halves(v.indices))
    &&& f.draw.call == if v.indices.len() > 0 {
        DrawCall::Elements { primitive: triangles(), count: v.indices.len() as usize, offset: 0 }
    } else {
        DrawCall::Arrays {
            primitive: triangles(),
            first: 0,
            count: v.staged_vertices() as usize,
        }
    }
}

/// The words of a quad drawn in state `v`: the given corners, the current
/// tint, and the region's corner coordinates under the current y-axis policy.
pub open spec fn quad_for(v: BatchView, corners: QuadCorners, uv: UvRect, rotate: bool) -> Seq<u32> {
    quad_words(corners, v.color, corner_uvs(uv, v.y_down, rotate))
}

/// Data that may be drawn in one call: whole vertices that fit an empty batch,
/// and indices that refer to those vertices only.
pub open spec fn drawable(v: BatchView, vertices: Seq<u32>, indices: Seq<u16>) -> bool {
    &&& vertices.len() % (VERTEX_SIZE as nat) == 0
    &&& vertices.len() <= VERTEX_SIZE * v.max_vertices
    &&& indices.len() <= 3 * v.max_vertices
    &&& forall|i: int| 0 <= i < indices.len() ==> #[trigger] indices[i] < vertices.len() / (
    VERTEX_SIZE as nat)
}

/// Accumulates textured quads into one mesh and decides when to flush it.
pub struct PolygonBatch {
    is_drawing: bool,
    mesh: Mesh,
    last_texture: Option<Texture>,
    vertices_length: usize,
    indices_length: usize,
    y_down: bool,
    src_color_blend: u32,
    src_alpha_blend: u32,
    dst_color_blend: u32,
    dst_alpha_blend: u32,
    color: ColorBits,
    projection_values: [u32; 16],
    vertices: Vec<u32>,
    draw_calls: i32,
    max_vertices: usize,
}

impl View for PolygonBatch {
    type V = BatchView;

    closed spec fn view(&self) -> BatchView {
        BatchView {
            drawing: self.is_drawing,
            texture: self.last_texture,
            vertices: self.mesh@.live_vertices(),
            indices: self.mesh@.live_indices(),
            draw_calls: self.draw_calls as int,
            y_down: self.y_down,
            color: self.color,
            blend: (
                self.src_color_blend,
                self.dst_color_blend,
                self.src_alpha_blend,
                self.dst_alpha_blend,
            ),
            projection: self.projection_values@,
            quad: self.vertices@,
            max_vertices: self.max_vertices as nat,
        }
    }
}


/// The batch vertex layout: float position 2, colour 4, texture coordinates 2.
pub open spec fn batch_attributes() -> Seq<VertexAttribute> {
    seq![
        VertexAttribute { name: POSITION, vertex_type: float_type(), num_elements: 2 },
        VertexAttribute { name: COLOR, vertex_type: float_type(), num_elements: 4 },
        VertexAttribute { name: TEXCOORDS, vertex_type: float_type(), num_elements: 2 },
    ]
}

/// The batch vertex layout.
fn batch_layout() -> (r: Vec<VertexAttribute>)
    ensures
        r@ == batch_attributes(),
        total_elements(r@) == VERTEX_SIZE,
{
    let mut r: Vec<VertexAttribute> = Vec::with_capacity(3);
    r.push(VertexAttribute::position2());
    r.push(VertexAttribute::color());
    r.push(VertexAttribute::texcoords());
    proof {
        reveal_with_fuel(elements_before, 4);
        assert(r@ =~= batch_attributes());
    }
    r
}

/// `n` zero words.
fn zero_words(n: usize) -> (r: Vec<u32>)
    ensures
        r@ == Seq::new(n as nat, |_i: int| 0u32),
{
    let mut v: Vec<u32> = Vec::with_capacity(n);
    let mut i: usize = 0;
    while i < n
        invariant
            i <= n,
            v@ == Seq::new(i as nat, |_i: int| 0u32),
        decreases n - i,
    {
        v.push(0);
        i = i + 1;
        assert(v@ =~= Seq::new(i as nat, |_i: int| 0u32));
    }
    v
}

impl PolygonBatch {
    /// The batcher's internal consistency: its view's invariant, and a mesh
    /// whose live regions are exactly the staged data.
    pub closed spec fn wf(&self) -> bool {
        &&& self@.inv()
        &&& self.mesh.wf()
        &&& self.mesh@.stride == VERTEX_SIZE
        &&& self.mesh@.attributes == batch_attributes()
        &&& self.mesh@.vertices.len() == VERTEX_SIZE * self.max_vertices
        &&& self.mesh@.indices.len() == 3 * self.max_vertices
        &&& self.vertices_length == self.mesh@.vertices_length
        &&& self.indices_length == self.mesh@.indices_length
        &&& (self.vertices_length > 0 ==> self.mesh@.dirty_vertices && self.mesh@.dirty_indices)
    }

    /// A batcher with room for `max_vertices` vertices and three indices per
    /// vertex: idle, y axis down, white tint, straight alpha blending, zero
    /// projection. The room holds at least one quad, and no more vertices than
    /// 16-bit indices can reach.
    pub fn new(max_vertices: usize) -> (r: Self)
        requires
            4 <= max_vertices <= MAX_VERTICES_LIMIT,
        ensures
            r.wf(),
            r@ == (BatchView {
                drawing: false,
                texture: None,
                vertices: Seq::empty(),
                indices: Seq::empty(),
                draw_calls: 0,
                y_down: true,
                color: ColorBits::white_spec(),
                blend: (src_alpha(), one_minus_src_alpha(), src_alpha(), one_minus_src_alpha()),
                projection: Seq::new(16, |_i: int| 0u32),
                quad: Seq::new(QUAD_SIZE as nat, |_i: int| 0u32),
                max_vertices: max_vertices as nat,
            }),
    {
        let layout = batch_layout();
        assert(layout@.len() == 3);
        let built = Mesh::new(layout, max_vertices, max_vertices * 3);
        let mesh = match built {
            Ok(m) => m,
            Err(_) => vstd::pervasive::unreached(),
        };
        let src = gl_src_alpha();
        let dst = gl_one_minus_src_alpha();
        let r = PolygonBatch {
            is_drawing: false,
            mesh,
            last_texture: None,
            vertices_length: 0,
            indices_length: 0,
            y_down: true,
            src_color_blend: src,
            src_alpha_blend: src,
            dst_color_blend: dst,
            dst_alpha_blend: dst,
            color: ColorBits::white(),
            projection_values: [0u32; 16],
            vertices: zero_words(QUAD_SIZE),
            draw_calls: 0,
            max_vertices,
        };
        assert(r@.vertices =~= Seq::empty());
        assert(r@.indices =~= Seq::empty());
        assert(r@.projection =~= Seq::new(16, |_i: int| 0u32));
        r
    }

    /// A batcher with the default room.
    pub fn create() -> (r: Self)
        ensures
            r.wf(),
            r@ == (BatchView {
                drawing: false,
                texture: None,
                vertices: Seq::empty(),
                indices: Seq::empty(),
                draw_calls: 0,
                y_down: true,
                color: ColorBits::white_spec(),
                blend: (src_alpha(), one_minus_src_alpha(), src_alpha(), one_minus_src_alpha()),
                projection: Seq::new(16, |_i: int| 0u32),
                quad: Seq::new(QUAD_SIZE as nat, |_i: int| 0u32),
                max_vertices: DEFAULT_MAX_VERTICES as nat,
            }),
    {
        PolygonBatch::new(DEFAULT_MAX_VERTICES)
    }

    /// Sets the tint of quads drawn from now on.
    pub fn set_color(&mut self, color: &ColorBits)
        requires
            old(self).wf(),
        ensures
            final(self).wf(),
            final(self)@ == (BatchView { color: *color, ..old(self)@ }),
    {
        self.color = *color;
    }

    /// Chooses whether the y axis points down; it swaps the texture's v coordinates.
    pub fn set_y_down(&mut self, y_down: bool)
        requires
            old(self).wf(),
        ensures
            final(self).wf(),
            final(self)@ == (BatchView { y_down, ..old(self)@ }),
    {
        self.y_down = y_down;
    }

    /// One blend function for colour and alpha alike.
    pub fn set_blend_function(&mut self, src: u32, dst: u32)
        requires
            old(self).wf(),
        ensures
            final(self).wf(),
            final(self)@ == (BatchView { blend: (src, dst, src, dst), ..old(self)@ }),
    {
        self.src_color_blend = src;
        self.src_alpha_blend = src;
        self.dst_color_blend = dst;
        self.dst_alpha_blend = dst;
    }

    /// Separate blend functions for colour and alpha.
    pub fn set_blend_function_separate(
        &mut self,
        src_color: u32,
        dst_color: u32,
        src_alpha: u32,
        dst_alpha: u32,
    )
        requires
            old(self).wf(),
        ensures
            final(self).wf(),
            final(self)@ == (BatchView {
                blend: (src_color, dst_color, src_alpha, dst_alpha),
                ..old(self)@
            }),
    {
        self.src_color_blend = src_color;
        self.src_alpha_blend = src_alpha;
        self.dst_color_blend = dst_color;
        self.dst_alpha_blend = dst_alpha;
    }

    /// Sets the column-major projection matrix uploaded by the next `begin`.
    pub fn set_projection(&mut self, projection: &[u32; 16])
        requires
            old(self).wf(),
        ensures
            final(self).wf(),
            final(self)@ == (BatchView { projection: projection@, ..old(self)@ }),
    {
        self.projection_values = *projection;
    }

    /// Draw calls issued since the last `begin`.
    pub fn get_draw_calls(&self) -> (r: i32)
        ensures
            r == self@.draw_calls,
    {
        self.draw_calls
    }

    /// Room, in vertices.
    pub fn max_vertices(&self) -> (r: usize)
        ensures
            r == self@.max_vertices,
    {
        self.max_vertices
    }

    pub fn is_drawing(&self) -> (r: bool)
        ensures
            r == self@.drawing,
    {
        self.is_drawing
    }

    pub fn y_down(&self) -> (r: bool)
        ensures
            r == self@.y_down,
    {
        self.y_down
    }

    pub fn color(&self) -> (r: ColorBits)
        ensures
            r == self@.color,
    {
        self.color
    }

    /// Source colour, destination colour, source alpha and destination alpha factors.
    pub fn blend_function(&self) -> (r: (u32, u32, u32, u32))
        ensures
            r == self@.blend,
    {
        (self.src_color_blend, self.dst_color_blend, self.src_alpha_blend, self.dst_alpha_blend)
    }

    pub fn projection(&self) -> (r: [u32; 16])
        ensures
            r@ == self@.projection,
    {
        self.projection_values
    }

    /// The attribute table of the batch mesh, for binding it to a vertex buffer.
    pub fn attribute_pointers(&self) -> (r: Vec<crate::mesh::AttributePointer>)
        requires
            self.wf(),
        ensures
            crate::mesh::pointers_of(batch_attributes(), VERTEX_SIZE as nat, r@),
    {
        self.mesh.attribute_pointers()
    }

    /// Starts a recording session: nothing staged, no texture, no draw calls yet.
    /// Starting a session while one is open is a programming error.
    pub fn begin(&mut self)
        requires
            old(self).wf(),
            !old(self)@.drawing,
        ensures
            final(self).wf(),
            final(self)@ == (BatchView {
                drawing: true,
                texture: None,
                vertices: Seq::empty(),
                indices: Seq::empty(),
                draw_calls: 0,
                ..old(self)@
            }),
    {
        self.last_texture = None;
        self.is_drawing = true;
        self.draw_calls = 0;
        self.vertices_length = 0;
        self.indices_length = 0;
        self.mesh.set_vertices_length(0);
        self.mesh.set_indices_length(0);
        assert(self@.vertices =~= Seq::empty());
        assert(self@.indices =~= Seq::empty());
    }

    /// Hands the staged batch to the device, if anything is staged, and empties it.
    pub fn flush(&mut self) -> (r: Option<Flush>)
        requires
            old(self).wf(),
            old(self)@.drawing,
            old(self)@.draw_calls < i32::MAX,
        ensures
            final(self).wf(),
            final(self)@ == flushed(old(self)@),
            r is Some <==> old(self)@.vertices.len() > 0,
            r matches Some(f) ==> flush_of(f, old(self)@),
    {
        if self.vertices_length == 0 {
            return None;
        }
        let texture = match self.last_texture {
            Some(t) => t,
            None => vstd::pervasive::unreached(),
        };
        let draw = self.mesh.draw(gl_triangles());
        self.draw_calls = self.draw_calls + 1;
        self.vertices_length = 0;
        self.indices_length = 0;
        self.mesh.set_indices_length(0);
        self.mesh.set_vertices_length(0);
        assert(self@.vertices =~= Seq::empty());
        assert(self@.indices =~= Seq::empty());
        Some(Flush { texture, draw })
    }

    /// Ends the session: flushes what is staged and forgets the texture.
    /// Ending without a session is a programming error.
    pub fn end(&mut self) -> (r: Option<Flush>)
        requires
            old(self).wf(),
            old(self)@.drawing,
            old(self)@.draw_calls < i32::MAX,
        ensures
            final(self).wf(),
            final(self)@ == (BatchView {
                drawing: false,
                texture: None,
                ..flushed(old(self)@)
            }),
            r is Some <==> old(self)@.vertices.len() > 0,
            r matches Some(f) ==> flush_of(f, old(self)@),
    {
        let r = if self.vertices_length > 0 || self.indices_length > 0 {
            self.flush()
        } else {
            None
        };
        self.last_texture = None;
        self.is_drawing = false;
        r
    }

    /// Draws `vertices` (whole vertices of eight components) with `indices`
    /// local to them. Flushes first when `texture` differs from the batch
    /// texture or the data would not fit behind what is staged; then appends,
    /// rebasing the indices past the vertices already staged. Returns the flush,
    /// if one was issued.
    pub fn draw_vertices_with_indices(
        &mut self,
        texture: &Texture,
        vertices: &[u32],
        indices: &[u16],
    ) -> (r: Option<Flush>)
        requires
            old(self).wf(),
            old(self)@.drawing,
            old(self)@.draw_calls < i32::MAX,
            drawable(old(self)@, vertices@, indices@),
        ensures
            final(self).wf(),
            final(self)@ == appended(old(self)@, *texture, vertices@, indices@),
            r is Some <==> flushes_before(old(self)@, *texture, vertices@.len(), indices@.len()),
            r matches Some(f) ==> flush_of(f, old(self)@),
    {
        let changes = match self.last_texture {
            Some(t) => t.handle != texture.handle,
            None => true,
        };
        let r = if changes {
            let f = self.flush();
            self.last_texture = Some(*texture);
            f
        } else if self.vertices_length + vertices.len() > self.mesh.vertex_capacity()
            || self.indices_length + indices.len() > self.mesh.index_capacity() {
            self.flush()
        } else {
            None
        };
        let ghost v1 = self@;
        let index_start = self.mesh.num_vertices();
        proof {
            lemma_rebase_fits(v1.vertices.len(), vertices@.len(), v1.max_vertices);
        }
        let shifted = rebase_indices(indices, index_start, vertices.len() / VERTEX_SIZE);
        self.mesh.write_vertices(self.vertices_length, vertices);
        self.vertices_length = self.vertices_length + vertices.len();
        self.mesh.set_vertices_length(self.vertices_length);
        self.mesh.write_indices(self.indices_length, shifted.as_slice());
        self.indices_length = self.indices_length + indices.len();
        self.mesh.set_indices_length(self.indices_length);
        assert(self@.vertices =~= v1.vertices + vertices@);
        assert(self@.indices =~= v1.indices + rebased(indices@, v1.staged_vertices()));
        proof {
            if indices@.len() > 0 {
                assert(indices@[0] < vertices@.len() / (VERTEX_SIZE as nat));
            }
        }
        r
    }

    /// Draws whole vertices, at least one quad's worth, as one quad: two
    /// triangles over the first four of them.
    pub fn draw_vertices(&mut self, texture: &Texture, vertices: &[u32]) -> (r: Option<Flush>)
        requires
            old(self).wf(),
            old(self)@.drawing,
            old(self)@.draw_calls < i32::MAX,
            vertices@.len() % (VERTEX_SIZE as nat) == 0,
            QUAD_SIZE <= vertices@.len() <= VERTEX_SIZE * old(self)@.max_vertices,
        ensures
            final(self).wf(),
            final(self)@ == appended(old(self)@, *texture, vertices@, quad_indices()),
            r is Some <==> flushes_before(old(self)@, *texture, vertices@.len(), 6),
            r matches Some(f) ==> flush_of(f, old(self)@),
    {
        let triangles = quad_triangles();
        self.draw_vertices_with_indices(texture, vertices, triangles.as_slice())
    }

    /// Draws the scratch quad most recently prepared.
    pub fn draw_own_vertices(&mut self, texture: &Texture) -> (r: Option<Flush>)
        requires
            old(self).wf(),
            old(self)@.drawing,
            old(self)@.draw_calls < i32::MAX,
        ensures
            final(self).wf(),
            final(self)@ == appended(old(self)@, *texture, old(self)@.quad, quad_indices()),
            r is Some <==> flushes_before(old(self)@, *texture, QUAD_SIZE as nat, 6),
            r matches Some(f) ==> flush_of(f, old(self)@),
    {
        let quad = self.vertices.clone();
        assert(quad@ == self@.quad);
        self.draw_vertices(texture, quad.as_slice())
    }

    /// Draws one quad with the given transformed corners and texture region,
    /// in the current tint. The region's v coordinates are swapped when the y
    /// axis points down; `rotate` maps a region stored a quarter turn rotated.
    pub fn draw_with_options(
        &mut self,
        texture: &Texture,
        corners: &QuadCorners,
        uv: &UvRect,
        rotate: bool,
    ) -> (r: Option<Flush>)
        requires
            old(self).wf(),
            old(self)@.drawing,
            old(self)@.draw_calls < i32::MAX,
        ensures
            final(self).wf(),
            final(self)@ == appended(
                BatchView { quad: quad_for(old(self)@, *corners, *uv, rotate), ..old(self)@ },
                *texture,
                quad_for(old(self)@, *corners, *uv, rotate),
                quad_indices(),
            ),
            r is Some <==> flushes_before(old(self)@, *texture, QUAD_SIZE as nat, 6),
            r matches Some(f) ==> flush_of(f, old(self)@),
    {
        let uvs = quad_uvs(uv, self.y_down, rotate);
        let color = self.color;
        fill_quad(&mut self.vertices, corners, &color, &uvs);
        self.draw_own_vertices(texture)
    }
}

/// Staged and incoming whole vertices that fit the room together can all be
/// reached by a 16-bit index.
proof fn lemma_rebase_fits(staged: nat, incoming: nat, max_vertices: nat)
    requires
        staged % 8 == 0,
        incoming % 8 == 0,
        staged + incoming <= 8 * max_vertices,
        max_vertices <= MAX_VERTICES_LIMIT,
    ensures
        staged / 8 + incoming / 8 <= MAX_VERTICES_LIMIT,
{
}

/// `indices` moved past `base` vertices; each local index is below `count`.
fn rebase_indices(indices: &[u16], base: usize, count: usize) -> (r: Vec<u16>)
    requires
        base + count <= MAX_VERTICES_LIMIT,
        forall|i: int| 0 <= i < indices@.len() ==> #[trigger] indices@[i] < count,
    ensures
        r@ == rebased(indices@, base as nat),
{
    let mut r: Vec<u16> = Vec::with_capacity(indices.len());
    let mut i: usize = 0;
    while i < indices.len()
        invariant
            i <= indices@.len(),
            base + count <= MAX_VERTICES_LIMIT,
            forall|k: int| 0 <= k < indices@.len() ==> #[trigger] indices@[k] < count,
            r@ == rebased(indices@.subrange(0, i as int), base as nat),
        decreases indices@.len() - i,
    {
        let x = indices[i];
        r.push((x as usize + base) as u16);
        i = i + 1;
        assert(r@ =~= rebased(indices@.subrange(0, i as int), base as nat));
    }
    assert(indices@.subrange(0, i as int) =~= indices@);
    r
}

} // verus!
