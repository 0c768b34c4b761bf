use vstd::prelude::*;
use crate::texture::kind::TextureType;
use crate::texture::units::TextureUnit;
use crate::uniform::UniformType;
use crate::vertex::primitives::Primitive;

verus! {

/// One native graphics call the context has decided to issue.
///
/// The verified context never talks to the native API itself: it validates
/// an operation, mutates its tracked state, and records the calls the
/// native driver must perform as values of this type, in issue order.  The
/// unverified shell drains the queue and performs each call.  An id of `0`
/// in a bind/use call selects "nothing", as the native API defines it.
#[derive(Debug, Clone, PartialEq, Eq)]
pub enum GlCall {
    /// Make the program with this native id current (`0` detaches).
    UseProgram(u32),
    /// Bind the vertex array with this native id (`0` unbinds).
    BindVertexArray(u32),
    /// Bind the element (index) buffer with this native id (`0` unbinds).
    BindElementArrayBuffer(u32),
    /// Select the texture unit that following texture calls act on.
    ActiveTexture(TextureUnit),
    /// Bind the texture with this native id to the target (`0` unbinds).
    BindTexture { target: TextureType, id: u32 },
    /// Regenerate the mipmap chain of the texture bound to the target.
    GenerateMipmap(TextureType),
    /// A non-indexed draw of `count` vertices starting at `first`.
    DrawArrays { primitive: Primitive, first: i32, count: i32 },
    /// An indexed draw of `count` indices from the bound element buffer.
    /// The shell converts the count to the native size type when it issues
    /// the call.
    DrawElements { primitive: Primitive, count: usize },
    /// Set the clear colour; the four channels are `f32` bit patterns.
    ClearColor { red: u32, green: u32, blue: u32, alpha: u32 },
    /// Clear the selected buffers.
    Clear { color: bool, depth: bool },
    /// Enable depth testing with the given native comparison function, or
    /// the native default when none is given.
    EnableDepthTest { func: Option<u32> },
    /// Set the viewport rectangle.
    Viewport { x: i32, y: i32, width: i32, height: i32 },
    /// Upload a uniform value to the location in the active program.
    SetUniform { location: i32, value: UniformType, transpose: bool },
    /// Release a vertex array object.
    DeleteVertexArray(u32),
    /// Release a buffer object.
    DeleteBuffer(u32),
    /// Release a program object.
    DeleteProgram(u32),
    /// Release a texture object.
    DeleteTexture(u32),
    /// Release a compiled shader stage.
    DeleteShader(u32),
}

} // verus!
