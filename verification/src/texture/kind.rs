use vstd::prelude::*;

verus! {

/// The native texture target a texture object binds to.
#[derive(Debug, Copy, Clone, PartialEq, Eq, Structural)]
pub enum TextureType {
    Texture1D,
    Texture2D,
    Texture3D,
    TextureCubeMap,
    Texture1DArray,
    Texture2DArray,
    TextureCubeMapArray,
    TextureRectangle,
}

} // verus!
