use vstd::prelude::*;

verus! {

/// Wrap behaviour for one texture axis.  The border colour of
/// `ClampToBorder` carries the four RGBA channels as `f32` bit patterns, so
/// that the library can hold and forward them without doing float
/// arithmetic.
#[derive(Debug, Copy, Clone, PartialEq, Eq, Structural)]
pub enum TextureWrapParam {
    Repeat,
    ClampToEdge,
    MirroredRepeat,
    /// RGBA border colour, each channel an `f32` bit pattern.
    ClampToBorder(u32, u32, u32, u32),
}

} // verus!
