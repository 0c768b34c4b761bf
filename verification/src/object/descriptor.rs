use vstd::prelude::*;

verus! {

/// An opaque, copyable handle to one registered resource.
///
/// `internal_id` is the generation under which the resource was registered:
/// the registry issues each generation at most once during its lifetime, so a
/// handle stays distinguishable from every other handle ever issued, even
/// when its slot is later reused.  `kind` tags the handle with the resource
/// kind and the slot index it points at.
#[derive(Debug, Clone, Copy, PartialEq, Eq, Structural)]
pub struct GLObjectDescriptor {
    pub internal_id: usize,
    pub kind: GLObjectDescriptorKind,
}

/// The resource kind a descriptor refers to, together with the slot index of
/// the resource inside the registry's slot array.
#[derive(Debug, Clone, Copy, PartialEq, Eq, Structural)]
pub enum GLObjectDescriptorKind {
    VertexObject(usize),
    Program(usize),
    Texture(usize),
}

impl GLObjectDescriptor {
    /// The slot index the descriptor points at, whatever its kind.
    pub open spec fn slot(self) -> int {
        match self.kind {
            GLObjectDescriptorKind::VertexObject(idx) => idx as int,
            GLObjectDescriptorKind::Program(idx) => idx as int,
            GLObjectDescriptorKind::Texture(idx) => idx as int,
        }
    }

    /// The generation under which the handle was issued.
    pub open spec fn generation(self) -> nat {
        self.internal_id as nat
    }

    pub fn new_vertex_object_descriptor(internal_id: usize, id: usize) -> (r: Self)
        ensures
            r == (GLObjectDescriptor {
                internal_id,
                kind: GLObjectDescriptorKind::VertexObject(id),
            }),
    {
        Self { internal_id, kind: GLObjectDescriptorKind::VertexObject(id) }
    }

    pub fn new_program_descriptor(internal_id: usize, id: usize) -> (r: Self)
        ensures
            r == (GLObjectDescriptor {
                internal_id,
                kind: GLObjectDescriptorKind::Program(id),
            }),
    {
        Self { internal_id, kind: GLObjectDescriptorKind::Program(id) }
    }

    pub fn new_texture_descriptor(internal_id: usize, id: usize) -> (r: Self)
        ensures
            r == (GLObjectDescriptor {
                internal_id,
                kind: GLObjectDescriptorKind::Texture(id),
            }),
    {
        Self { internal_id, kind: GLObjectDescriptorKind::Texture(id) }
    }

    /// The generation, for callers outside the crate that want to compare
    /// handles across a remove/register cycle.
    pub fn generation_id(&self) -> (r: usize)
        ensures
            r == self.internal_id,
    {
        self.internal_id
    }

    /// The slot index, discarding the kind tag.
    pub fn slot_index(&self) -> (r: usize)
        ensures
            r as int == self.slot(),
    {
        match self.kind {
            GLObjectDescriptorKind::VertexObject(idx) => idx,
            GLObjectDescriptorKind::Program(idx) => idx,
            GLObjectDescriptorKind::Texture(idx) => idx,
        }
    }
}

} // verus!
