use vstd::prelude::*;

verus! {

/// Every failure the library reports.  All of them are recoverable, typed
/// results: nothing in this core is fatal by design, and nothing fails
/// silently.
#[derive(Debug, Clone, PartialEq, Eq)]
pub enum Error {
    /// `render` was asked to draw while no vertex object is bound.
    NoBoundVertexObject,
    /// An operation named a vertex object that is not the bound one.
    VertexObjectNotBound,
    /// An operation that needs an active program found none.
    NoActiveProgram,
    /// A different program is active; it must be detached first.
    AnotherProgramInUse,
    /// A different vertex object is bound; it must be unbound first.
    AnotherVertexObjectBound,
    /// An index value points past the last vertex.  `num_vertices` is the
    /// largest index that would have been valid.
    InvalidIndex { index: u32, num_vertices: i32 },
    /// An attribute's value count is not evenly divisible by its component
    /// size.
    ComponentSizeMismatch { num_values: i32, component_size: i32 },
    /// The named attribute describes a different number of vertices than the
    /// attributes registered before it.
    AttributeCountMismatch { attribute: String },
    /// The native API reported no location for this attribute name.
    AttributeLocNotFound(String),
    /// The native API reported no location for this uniform name.
    UniformLocNotFound(String),
    /// A uniform update named a uniform this mesh never registered.
    UniformDoesNotExist(String),
    /// Linking a program failed; the payload is the native link log.
    ProgramLink(String),
    /// Compiling a shader stage failed; `reason` is the native compile log.
    ShaderCompile { shader_name: String, reason: String },
    /// Every texture unit is occupied.
    MaxActiveTextures,
    /// The handle's kind tag does not match the resource stored in its slot.
    UnexpectedObjectDescriptorKind,
    /// The handle's generation was invalidated or never issued.
    InvalidObjectDescriptor,
    /// The native API's error queue held an error; the payload describes it.
    GLError(String),
    /// A vertex object was built from unusable data.
    InvalidVertexObject(String),
    /// No texture unit corresponds to this slot index.
    InvalidTextureUnit(usize),
    /// A failure at the boundary with an external collaborator.
    Boxed(String),
    Misc(String),
}

impl Error {
    /// Wraps the description of an external failure.
    pub fn boxed(error: String) -> (r: Self)
        ensures
            r == Error::Boxed(error),
    {
        Error::Boxed(error)
    }
}

} // verus!
