//! Per-quad vertex data: corner texture coordinates under the y-axis and
//! rotated-region policies, and the interleaved `(x, y, r, g, b, a, u, v)`
//! words of the four corners.
use vstd::prelude::*;

verus! {

/// Bit pattern of the float `1.0`.
pub const ONE_BITS: u32 = 0x3f80_0000;

/// Bit pattern of the float `0.0`.
pub const ZERO_BITS: u32 = 0;

/// Float components per batched vertex: position 2, colour 4, texture coordinates 2.
pub const VERTEX_SIZE: usize = 8;

/// Float components per quad.
pub const QUAD_SIZE: usize = 32;

/// A tint, each channel the bit pattern of a float.
#[derive(Clone, Copy, Debug, PartialEq, Eq, Structural)]
pub struct ColorBits {
    pub r: u32,
    pub g: u32,
    pub b: u32,
    pub a: u32,
}

impl ColorBits {
    pub fn new(r: u32, g: u32, b: u32, a: u32) -> (c: Self)
        ensures
            c == (ColorBits { r, g, b, a }),
    {
        ColorBits { r, g, b, a }
    }

    /// Opaque white.
    pub open spec fn white_spec() -> Self {
        ColorBits { r: ONE_BITS, g: ONE_BITS, b: ONE_BITS, a: ONE_BITS }
    }

    /// Opaque white.
    pub fn white() -> (c: Self)
        ensures
            c == ColorBits::white_spec(),
    {
        ColorBits { r: ONE_BITS, g: ONE_BITS, b: ONE_BITS, a: ONE_BITS }
    }
}

/// A texture region: `(u1, v1)` and `(u2, v2)` are opposite corners, as float bit patterns.
#[derive(Clone, Copy, Debug, PartialEq, Eq, Structural)]
pub struct UvRect {
    pub u1: u32,
    pub v1: u32,
    pub u2: u32,
    pub v2: u32,
}

impl UvRect {
    pub fn new(u1: u32, v1: u32, u2: u32, v2: u32) -> (r: Self)
        ensures
            r == (UvRect { u1, v1, u2, v2 }),
    {
        UvRect { u1, v1, u2, v2 }
    }

    /// The whole texture: `(0, 0)` to `(1, 1)`.
    pub fn full() -> (r: Self)
        ensures
            r == (UvRect { u1: ZERO_BITS, v1: ZERO_BITS, u2: ONE_BITS, v2: ONE_BITS }),
    {
        UvRect { u1: ZERO_BITS, v1: ZERO_BITS, u2: ONE_BITS, v2: ONE_BITS }
    }
}

/// The four transformed corner positions of a quad, as float bit patterns.
#[derive(Clone, Copy, Debug, PartialEq, Eq, Structural)]
pub struct QuadCorners {
    pub x1: u32,
    pub y1: u32,
    pub x2: u32,
    pub y2: u32,
    pub x3: u32,
    pub y3: u32,
    pub x4: u32,
    pub y4: u32,
}

/// Texture coordinates of corners one to four.
///
/// With the y axis pointing down, `v1` and `v2` are swapped first. Unrotated,
/// the corners take `(u1,v1), (u2,v1), (u2,v2), (u1,v2)`. A region stored
/// rotated by a quarter turn takes one of two fixed permutations, chosen by the
/// y-axis direction.
pub open spec fn corner_uvs(uv: UvRect, y_down: bool, rotate: bool) -> Seq<(u32, u32)> {
    let a = uv.u1;
    let c = uv.u2;
    let b = if y_down { uv.v2 } else { uv.v1 };
    let d = if y_down { uv.v1 } else { uv.v2 };
    if !rotate {
        seq![(a, b), (c, b), (c, d), (a, d)]
    } else if y_down {
        seq![(a, d), (a, b), (c, b), (c, d)]
    } else {
        seq![(c, b), (c, d), (a, d), (a, b)]
    }
}

/// The eight words of one vertex.
pub open spec fn vertex_words(x: u32, y: u32, c: ColorBits, uv: (u32, u32)) -> Seq<u32> {
    seq![x, y, c.r, c.g, c.b, c.a, uv.0, uv.1]
}

/// The thirty-two words of a quad: its four corners in order, each with the
/// same tint and its own texture coordinates.
pub open spec fn quad_words(k: QuadCorners, c: ColorBits, uvs: Seq<(u32, u32)>) -> Seq<u32> {
    vertex_words(k.x1, k.y1, c, uvs[0]) + vertex_words(k.x2, k.y2, c, uvs[1]) + vertex_words(
        k.x3,
        k.y3,
        c,
        uvs[2],
    ) + vertex_words(k.x4, k.y4, c, uvs[3])
}

/// The two counter-clockwise triangles of a quad, over its local corner numbers.
pub open spec fn quad_indices() -> Seq<u16> {
    seq![0u16, 1u16, 2u16, 2u16, 3u16, 0u16]
}

/// The index pattern of one quad.
pub fn quad_triangles() -> (r: Vec<u16>)
    ensures
        r@ == quad_indices(),
{
    let mut r: Vec<u16> = Vec::with_capacity(6);
    r.push(0);
    r.push(1);
    r.push(2);
    r.push(2);
    r.push(3);
    r.push(0);
    assert(r@ =~= quad_indices());
    r
}

/// Texture coordinates of corners one to four, as `corner_uvs` states them.
pub fn quad_uvs(uv: &UvRect, y_down: bool, rotate: bool) -> (r: Vec<(u32, u32)>)
    ensures
        r@ == corner_uvs(*uv, y_down, rotate),
{
    let u1 = uv.u1;
    let u2 = uv.u2;
    let (v1, v2) = if y_down {
        (uv.v2, uv.v1)
    } else {
        (uv.v1, uv.v2)
    };
    let mut r: Vec<(u32, u32)> = Vec::with_capacity(4);
    if !rotate {
        r.push((u1, v1));
        r.push((u2, v1));
        r.push((u2, v2));
        r.push((u1, v2));
    } else if y_down {
        r.push((u1, v2));
        r.push((u1, v1));
        r.push((u2, v1));
        r.push((u2, v2));
    } else {
        r.push((u2, v1));
        r.push((u2, v2));
        r.push((u1, v2));
        r.push((u1, v1));
    }
    assert(r@ =~= corner_uvs(*uv, y_down, rotate));
    r
}

/// Writes the words of a quad into `out`, which holds exactly one quad.
pub fn fill_quad(out: &mut Vec<u32>, corners: &QuadCorners, color: &ColorBits, uvs: &Vec<(u32, u32)>)
    requires
        old(out)@.len() == QUAD_SIZE,
        uvs@.len() == 4,
    ensures
        final(out)@ == quad_words(*corners, *color, uvs@),
{
    let k = corners;
    let c = color;
    out.set(0, k.x1);
    out.set(1, k.y1);
    out.set(2, c.r);
    out.set(3, c.g);
    out.set(4, c.b);
    out.set(5, c.a);
    out.set(6, uvs[0].0);
    out.set(7, uvs[0].1);
    out.set(8, k.x2);
    out.set(9, k.y2);
    out.set(10, c.r);
    out.set(11, c.g);
    out.set(12, c.b);
    out.set(13, c.a);
    out.set(14, uvs[1].0);
    out.set(15, uvs[1].1);
    out.set(16, k.x3);
    out.set(17, k.y3);
    out.set(18, c.r);
    out.set(19, c.g);
    out.set(20, c.b);
    out.set(21, c.a);
    out.set(22, uvs[2].0);
    out.set(23, uvs[2].1);
    out.set(24, k.x4);
    out.set(25, k.y4);
    out.set(26, c.r);
    out.set(27, c.g);
    out.set(28, c.b);
    out.set(29, c.a);
    out.set(30, uvs[3].0);
    out.set(31, uvs[3].1);
    assert(out@ =~= quad_words(*corners, *color, uvs@));
}

} // verus!
