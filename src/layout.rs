//! Vertex layouts: the ordered attributes that make up one vertex.
use vstd::prelude::*;
use crate::gl_consts::gl_float;

verus! {

/// Shader attribute name of vertex positions.
pub const POSITION: &'static str = "a_position";

/// Shader attribute name of vertex colours.
pub const COLOR: &'static str = "a_color";

/// Shader attribute name of a second vertex colour.
pub const COLOR2: &'static str = "a_color2";

/// Shader attribute name of texture coordinates.
pub const TEXCOORDS: &'static str = "a_texCoord0";

/// Enumerant of 32-bit float components, as the device names it.
pub open spec fn float_type() -> u32 {
    0x1406
}

/// One attribute of a vertex: its shader name, component type and component count.
#[derive(Clone, Copy, Debug)]
pub struct VertexAttribute {
    pub name: &'static str,
    pub vertex_type: u32,
    pub num_elements: usize,
}

/// Number of components held by the attributes before position `i`.
pub open spec fn elements_before(attrs: Seq<VertexAttribute>, i: int) -> nat
    decreases i,
{
    if i <= 0 || attrs.len() == 0 {
        0
    } else if i > attrs.len() {
        elements_before(attrs, attrs.len() as int)
    } else {
        elements_before(attrs, i - 1) + attrs[i - 1].num_elements as nat
    }
}

/// Number of components of a whole vertex: the stride, counted in components.
pub open spec fn total_elements(attrs: Seq<VertexAttribute>) -> nat {
    elements_before(attrs, attrs.len() as int)
}

/// The components before an attribute never outnumber those before a later one.
pub proof fn lemma_elements_before_monotonic(attrs: Seq<VertexAttribute>, i: int, j: int)
    requires
        0 <= i <= j <= attrs.len(),
    ensures
        elements_before(attrs, i) <= elements_before(attrs, j),
    decreases j - i,
{
    if i < j {
        lemma_elements_before_monotonic(attrs, i, j - 1);
    }
}

impl VertexAttribute {
    pub fn new(name: &'static str, vertex_type: u32, num_elements: usize) -> (r: Self)
        ensures
            r.name == name,
            r.vertex_type == vertex_type,
            r.num_elements == num_elements,
    {
        VertexAttribute { name, vertex_type, num_elements }
    }

    /// Two-component float position.
    pub fn position2() -> (r: Self)
        ensures
            r.name == POSITION,
            r.vertex_type == float_type(),
            r.num_elements == 2,
    {
        VertexAttribute::new(POSITION, gl_float(), 2)
    }

    /// Three-component float position.
    pub fn position3() -> (r: Self)
        ensures
            r.name == POSITION,
            r.vertex_type == float_type(),
            r.num_elements == 3,
    {
        VertexAttribute::new(POSITION, gl_float(), 3)
    }

    /// Two-component float texture coordinates.
    pub fn texcoords() -> (r: Self)
        ensures
            r.name == TEXCOORDS,
            r.vertex_type == float_type(),
            r.num_elements == 2,
    {
        VertexAttribute::new(TEXCOORDS, gl_float(), 2)
    }

    /// Four-component float colour.
    pub fn color() -> (r: Self)
        ensures
            r.name == COLOR,
            r.vertex_type == float_type(),
            r.num_elements == 4,
    {
        VertexAttribute::new(COLOR, gl_float(), 4)
    }

    /// Four-component float second colour.
    pub fn color2() -> (r: Self)
        ensures
            r.name == COLOR2,
            r.vertex_type == float_type(),
            r.num_elements == 4,
    {
        VertexAttribute::new(COLOR2, gl_float(), 4)
    }
}

} // verus!
