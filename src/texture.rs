//! Textures as the batcher sees them: a device handle, compared by identity.
use vstd::prelude::*;

verus! {

/// A device texture: its handle and its size in pixels. Two values denote the
/// same texture exactly when their handles agree.
#[derive(Clone, Copy, Debug)]
pub struct Texture {
    pub handle: u32,
    pub width: u32,
    pub height: u32,
}

impl Texture {
    pub fn new(handle: u32, width: u32, height: u32) -> (t: Self)
        ensures
            t == (Texture { handle, width, height }),
    {
        Texture { handle, width, height }
    }
}

impl PartialEq for Texture {
    fn eq(&self, other: &Texture) -> (r: bool) {
        self.handle == other.handle
    }
}

impl vstd::std_specs::cmp::PartialEqSpecImpl for Texture {
    open spec fn obeys_eq_spec() -> bool {
        true
    }

    open spec fn eq_spec(&self, other: &Texture) -> bool {
        self.handle == other.handle
    }
}

} // verus!
