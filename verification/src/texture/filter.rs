use vstd::prelude::*;

verus! {

/// Minification/magnification filter choices for a texture axis.
#[derive(Debug, Copy, Clone, PartialEq, Eq, Structural)]
pub enum TextureFilterParam {
    Nearest,
    Linear,
    NearestMipmapNearest,
    LinearMipmapNearest,
    NearestMipmapLinear,
    LinearMipmapLinear,
}

} // verus!
