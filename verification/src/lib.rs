//! A verified core for a thin object-oriented wrapper around a native 3D
//! graphics API.
//!
//! The library owns the resource registry (slot array + generation counter),
//! the context state machine (active program, bound vertex object, occupied
//! texture units) and the builders that validate raw resource data.  It never
//! talks to the native API itself: every native call an operation decides on
//! is recorded as a plain value in the context's pending-call queue, and an
//! unverified shell executes that queue.

mod context;
mod error;
mod mesh;
mod object;
mod shader;
mod texture;
mod uniform;
mod vertex;

pub use context::call::GlCall;
pub use context::clear::ClearMask;
pub use context::program::{
    attrib_location_result, lemma_strict_use_program_policy, uniform_location_result,
};
pub use context::texture::{
    lemma_activate_texture_capacity, lemma_activate_texture_idempotent,
    lemma_activate_texture_run_capacity,
};
pub use context::vertex::lemma_render_preconditions;
pub use context::GLContext;
pub use error::Error;
pub use mesh::{has_uniform_named, is_first_uniform_named, name_among, uniform_excepted, Mesh};
pub use object::descriptor::{GLObjectDescriptor, GLObjectDescriptorKind};
pub use object::{
    lemma_fresh_table_fill_and_growth, lemma_get_after_remove, lemma_no_generation_reuse,
    GLObject, GLObjectRegistry, StoredObject,
};
pub use shader::program::{LinkOutcome, Linker, Program};
pub use shader::{CompileOutcome, Shader, ShaderType};
pub use texture::filter::TextureFilterParam;
pub use texture::kind::TextureType;
pub use texture::units::{TextureUnit, TextureUnitIter, NUM_TEXTURE_UNITS};
pub use texture::wrap::TextureWrapParam;
pub use texture::{Texture, TextureBuilder, TextureParamSetting};
pub use uniform::{Uniform, UniformType};
pub use vertex::primitives::Primitive;
pub use vertex::usage::Usage;
pub use vertex::{
    attr_slice, interleaved, interleaved_chunk, max_index, total_components, IndexObject,
    VOBuilder, VertexAttribute, VertexObject, VertexObjectBuilder, VOBAttr, VOBInit,
    MAX_TOTAL_COMPONENTS,
};
