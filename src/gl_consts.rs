//! OpenGL enumerants taken from `glow`.
use vstd::prelude::*;

verus! {

/// Relies on `glow::FLOAT`: the enumerant of 32-bit float vertex components.
#[verifier::external_body]
pub(crate) fn gl_float() -> (r: u32)
    ensures
        r == 0x1406,
{
    glow::FLOAT
}

/// Relies on `glow::TRIANGLES`: the enumerant of the triangle-list primitive.
#[verifier::external_body]
pub(crate) fn gl_triangles() -> (r: u32)
    ensures
        r == 0x0004,
{
    glow::TRIANGLES
}

/// Relies on `glow::SRC_ALPHA`: the blend factor "source alpha".
#[verifier::external_body]
pub(crate) fn gl_src_alpha() -> (r: u32)
    ensures
        r == 0x0302,
{
    glow::SRC_ALPHA
}

/// Relies on `glow::ONE_MINUS_SRC_ALPHA`: the blend factor "one minus source alpha".
#[verifier::external_body]
pub(crate) fn gl_one_minus_src_alpha() -> (r: u32)
    ensures
        r == 0x0303,
{
    glow::ONE_MINUS_SRC_ALPHA
}

} // verus!
