use vstd::prelude::*;

verus! {

/// The topology the native API uses to assemble vertices when drawing.
#[derive(Debug, Copy, Clone, PartialEq, Eq, Structural)]
pub enum Primitive {
    Points,
    Lines,
    LineStrip,
    LineLoop,
    Triangles,
    TriangleStrip,
    TriangleFan,
    Quads,
}

} // verus!
