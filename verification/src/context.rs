use vstd::prelude::*;

pub mod call;
pub mod clear;
pub mod program;
pub mod texture;
pub mod vertex;

use crate::error::Error;
use crate::object::descriptor::GLObjectDescriptor;
use crate::object::{GLObject, GLObjectRegistry};
use crate::shader::program::Program;
use crate::texture::Texture;
use crate::vertex::VertexObject;
use call::GlCall;

verus! {

/// The context composes the resource registry with the mutable "current
/// native state": the active program, the bound vertex object and the
/// occupied texture units.  It is the sole component that decides on
/// state-changing native calls, and it enforces that at most one resource
/// per category is active at a time.
///
/// Decided calls are queued in issue order rather than performed; the
/// unverified shell drains the queue with [`GLContext::take_pending_calls`]
/// and performs them.  The whole context is single-threaded by the native
/// API's own contract.
#[derive(Debug)]
pub struct GLContext {
    object_registry: GLObjectRegistry,
    active_textures: Vec<Option<GLObjectDescriptor>>,
    bound_vertex_object: Option<GLObjectDescriptor>,
    active_program: Option<GLObjectDescriptor>,
    pending_calls: Vec<GlCall>,
}

impl GLContext {
    /// The registry, abstractly.
    pub closed spec fn registry(self) -> GLObjectRegistry {
        self.object_registry
    }

    /// The texture-unit occupancy vector, abstractly.
    pub closed spec fn texture_units(self) -> Seq<Option<GLObjectDescriptor>> {
        self.active_textures@
    }

    /// The handle of the program currently in use, if any.
    pub closed spec fn current_program(self) -> Option<GLObjectDescriptor> {
        self.active_program
    }

    /// The handle of the vertex object currently bound, if any.
    pub closed spec fn current_vertex_object(self) -> Option<GLObjectDescriptor> {
        self.bound_vertex_object
    }

    /// The native calls decided on and not yet handed to the shell.
    pub closed spec fn calls(self) -> Seq<GlCall> {
        self.pending_calls@
    }

    /// Unit `u` is occupied by handle `d`.
    pub open spec fn unit_occupied_by(self, u: int, d: GLObjectDescriptor) -> bool {
        0 <= u < self.texture_units().len() && self.texture_units()[u] == Some(d)
    }

    /// The handle occupies some unit.
    pub open spec fn has_unit(self, d: GLObjectDescriptor) -> bool {
        exists|u: int| #[trigger] self.unit_occupied_by(u, d)
    }

    /// `u` is the lowest unit occupied by the handle.
    pub open spec fn is_first_unit_of(self, d: GLObjectDescriptor, u: int) -> bool {
        &&& self.unit_occupied_by(u, d)
        &&& forall|v: int| 0 <= v < u ==> (#[trigger] self.texture_units()[v]) != Some(d)
    }

    /// Some unit is free.
    pub open spec fn has_free_unit(self) -> bool {
        exists|u: int|
            0 <= u < self.texture_units().len() && (#[trigger] self.texture_units()[u]) is None
    }

    /// `u` is the lowest free unit.
    pub open spec fn is_first_free_unit(self, u: int) -> bool {
        &&& 0 <= u < self.texture_units().len()
        &&& self.texture_units()[u] is None
        &&& forall|v: int| 0 <= v < u ==> (#[trigger] self.texture_units()[v]) is Some
    }

    /// Well-formedness: the registry is well-formed and no handle occupies
    /// two texture units.
    pub open spec fn wf(self) -> bool {
        &&& self.registry().wf()
        &&& forall|u: int, v: int|
            #![trigger self.texture_units()[u], self.texture_units()[v]]
            0 <= u < self.texture_units().len() && 0 <= v < self.texture_units().len() && u != v
                && self.texture_units()[u] is Some ==> self.texture_units()[u]
                != self.texture_units()[v]
    }

    /// The binding state (program, vertex object, texture units) is the
    /// same in both contexts.
    pub open spec fn same_binding_state(pre: Self, post: Self) -> bool {
        &&& post.current_program() == pre.current_program()
        &&& post.current_vertex_object() == pre.current_vertex_object()
        &&& post.texture_units() == pre.texture_units()
    }

    /// Builds a context around a registry.  `max_texture_units` is the
    /// native-API-reported maximum number of texture units, queried once by
    /// the caller at construction.
    pub fn new(object_registry: GLObjectRegistry, max_texture_units: usize) -> (r: Self)
        requires
            object_registry.wf(),
        ensures
            r.wf(),
            r.registry() == object_registry,
            r.current_program() is None,
            r.current_vertex_object() is None,
            r.texture_units().len() == max_texture_units,
            forall|u: int|
                0 <= u < max_texture_units ==> (#[trigger] r.texture_units()[u]) is None,
            r.calls().len() == 0,
    {
        GLContext {
            object_registry,
            active_textures: vec![None; max_texture_units],
            bound_vertex_object: None,
            active_program: None,
            pending_calls: Vec::new(),
        }
    }

    /// Hands the queued native calls to the caller, leaving the queue
    /// empty.  The shell must perform them in order.
    pub fn take_pending_calls(&mut self) -> (r: Vec<GlCall>)
        ensures
            r@ == old(self).calls(),
            final(self).calls().len() == 0,
            final(self).registry() == old(self).registry(),
            Self::same_binding_state(*old(self), *final(self)),
            old(self).wf() ==> final(self).wf(),
    {
        let mut drained: Vec<GlCall> = Vec::new();
        core::mem::swap(&mut drained, &mut self.pending_calls);
        drained
    }

    /// The queued native calls, for inspection without draining them.
    pub fn queued_calls(&self) -> (r: &Vec<GlCall>)
        ensures
            r@ == self.calls(),
    {
        &self.pending_calls
    }

    /// How many texture units the context tracks.
    pub fn texture_unit_count(&self) -> (r: usize)
        ensures
            r as int == self.texture_units().len(),
    {
        self.active_textures.len()
    }

    /// Records the native call that enables depth testing.  `depth_func`
    /// is the native comparison function to install, or nothing to accept
    /// the native default.  Any native error is picked up by the shell when
    /// it polls the error queue.
    pub fn try_enable_depth_test(&mut self, depth_func: Option<u32>)
        requires
            old(self).wf(),
        ensures
            final(self).wf(),
            final(self).registry() == old(self).registry(),
            Self::same_binding_state(*old(self), *final(self)),
            final(self).calls() == old(self).calls().push(
                GlCall::EnableDepthTest { func: depth_func },
            ),
    {
        self.pending_calls.push(GlCall::EnableDepthTest { func: depth_func });
    }

    /// Records the native call that sets the viewport rectangle.
    pub fn viewport(&mut self, x: i32, y: i32, width: i32, height: i32)
        requires
            old(self).wf(),
        ensures
            final(self).wf(),
            final(self).registry() == old(self).registry(),
            Self::same_binding_state(*old(self), *final(self)),
            final(self).calls() == old(self).calls().push(
                GlCall::Viewport { x, y, width, height },
            ),
    {
        self.pending_calls.push(GlCall::Viewport { x, y, width, height });
    }

    /// Registers a resource in the owned registry; see
    /// [`GLObjectRegistry::register_object`].
    pub fn register_object(&mut self, obj: GLObject) -> (r: GLObjectDescriptor)
        requires
            old(self).wf(),
            old(self).registry().next_generation() < usize::MAX,
        ensures
            final(self).wf(),
            GLObjectRegistry::register_step(old(self).registry(), final(self).registry(), r, obj),
            final(self).registry().valid_descriptor(r),
            final(self).registry().kind_matches(r),
            final(self).registry().object_at(r) == obj,
            Self::same_binding_state(*old(self), *final(self)),
            final(self).calls() == old(self).calls(),
    {
        self.object_registry.register_object(obj)
    }

    /// Removes a resource from the owned registry; see
    /// [`GLObjectRegistry::remove_object`].
    pub fn remove_object(&mut self, obj_desc: GLObjectDescriptor) -> (r: Option<GLObject>)
        requires
            old(self).wf(),
        ensures
            final(self).wf(),
            match r {
                Some(obj) => {
                    &&& old(self).registry().valid_descriptor(obj_desc)
                    &&& obj == old(self).registry().object_at(obj_desc)
                    &&& GLObjectRegistry::remove_step(
                        old(self).registry(),
                        final(self).registry(),
                        obj_desc,
                    )
                },
                None => {
                    &&& !old(self).registry().valid_descriptor(obj_desc)
                    &&& final(self).registry() == old(self).registry()
                },
            },
            !final(self).registry().valid_descriptor(obj_desc),
            Self::same_binding_state(*old(self), *final(self)),
            final(self).calls() == old(self).calls(),
    {
        self.object_registry.remove_object(obj_desc)
    }

    /// Resolves a handle in the owned registry; see
    /// [`GLObjectRegistry::get_object`].
    pub fn get_object(&self, obj_desc: GLObjectDescriptor) -> (r: Result<&GLObject, Error>)
        ensures
            match r {
                Ok(obj) => self.registry().get_object_spec(obj_desc) == Ok::<GLObject, Error>(
                    *obj,
                ),
                Err(e) => self.registry().get_object_spec(obj_desc) == Err::<GLObject, Error>(e),
            },
    {
        self.object_registry.get_object(obj_desc)
    }

    /// Resolves a vertex-object handle; see
    /// [`GLObjectRegistry::get_vertex_object`].
    pub fn get_vertex_object(&self, obj_desc: GLObjectDescriptor) -> (r: Result<
        &VertexObject,
        Error,
    >)
        ensures
            match r {
                Ok(vo) => self.registry().get_vertex_object_spec(obj_desc) == Ok::<
                    VertexObject,
                    Error,
                >(*vo),
                Err(e) => self.registry().get_vertex_object_spec(obj_desc) == Err::<
                    VertexObject,
                    Error,
                >(e),
            },
    {
        self.object_registry.get_vertex_object(obj_desc)
    }

    /// Resolves a program handle; see [`GLObjectRegistry::get_program`].
    pub fn get_program(&self, obj_desc: GLObjectDescriptor) -> (r: Result<&Program, Error>)
        ensures
            match r {
                Ok(p) => self.registry().get_program_spec(obj_desc) == Ok::<Program, Error>(*p),
                Err(e) => self.registry().get_program_spec(obj_desc) == Err::<Program, Error>(e),
            },
    {
        self.object_registry.get_program(obj_desc)
    }

    /// Resolves a texture handle; see [`GLObjectRegistry::get_texture`].
    pub fn get_texture(&self, obj_desc: GLObjectDescriptor) -> (r: Result<&Texture, Error>)
        ensures
            match r {
                Ok(t) => self.registry().get_texture_spec(obj_desc) == Ok::<Texture, Error>(*t),
                Err(e) => self.registry().get_texture_spec(obj_desc) == Err::<Texture, Error>(e),
            },
    {
        self.object_registry.get_texture(obj_desc)
    }
}

} // verus!
