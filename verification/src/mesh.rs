use vstd::prelude::*;
use crate::context::call::GlCall;
use crate::context::GLContext;
use crate::error::Error;
use crate::object::descriptor::GLObjectDescriptor;
use crate::uniform::Uniform;

verus! {

/// Everything needed to render one complete surface: a vertex object, the
/// program that draws it, and the uniforms the program expects.  Register
/// every uniform the program will use up front, even with zero values; a
/// later update can only replace a uniform that is already recorded.
#[derive(Debug)]
pub struct Mesh {
    pub vertex_object: GLObjectDescriptor,
    pub program: GLObjectDescriptor,
    pub uniforms: Vec<Uniform>,
}

/// The list holds a uniform with this name.
pub open spec fn has_uniform_named(uniforms: Seq<Uniform>, name: Seq<char>) -> bool {
    exists|i: int| 0 <= i < uniforms.len() && (#[trigger] uniforms[i]).name@ == name
}

/// `i` is the lowest position holding a uniform with this name.
pub open spec fn is_first_uniform_named(uniforms: Seq<Uniform>, name: Seq<char>, i: int) -> bool {
    &&& 0 <= i < uniforms.len()
    &&& uniforms[i].name@ == name
    &&& forall|j: int| 0 <= j < i ==> (#[trigger] uniforms[j]).name@ != name
}


/// The name stands among the exceptions.
pub open spec fn name_among(name: Seq<char>, exceptions: Seq<String>) -> bool {
    exists|j: int| 0 <= j < exceptions.len() && (#[trigger] exceptions[j])@ == name
}

/// Whether a uniform name is one of the excepted names.
pub fn uniform_excepted(name: &String, exceptions: &[String]) -> (r: bool)
    ensures
        r == name_among(name@, exceptions@),
{
    let n = exceptions.len();
    let mut j: usize = 0;
    while j < n
        invariant
            j <= n,
            n == exceptions@.len(),
            forall|k: int| 0 <= k < j ==> (#[trigger] exceptions@[k])@ != name@,
        decreases n - j,
    {
        if exceptions[j] == *name {
            return true;
        }
        j = j + 1;
    }
    proof {
        if name_among(name@, exceptions@) {
            let w = choose|w: int|
                0 <= w < exceptions@.len() && (#[trigger] exceptions@[w])@ == name@;
        }
    }
    false
}

impl Mesh {
    /// Builds a mesh after checking that both handles resolve in the
    /// context's registry to a vertex object and a program respectively.
    /// Whether either resource is currently active is not checked: that
    /// depends on what happened to the context before this call.
    pub fn new(
        ctx: &GLContext,
        vo_desc: GLObjectDescriptor,
        program_desc: GLObjectDescriptor,
        uniforms: Vec<Uniform>,
    ) -> (r: Result<Mesh, Error>)
        ensures
            match r {
                Ok(m) => {
                    &&& ctx.registry().get_vertex_object_spec(vo_desc) is Ok
                    &&& ctx.registry().get_program_spec(program_desc) is Ok
                    &&& m.vertex_object == vo_desc
                    &&& m.program == program_desc
                    &&& m.uniforms == uniforms
                },
                Err(e) => {
                    ||| ctx.registry().get_vertex_object_spec(vo_desc) == Err::<
                        crate::vertex::VertexObject,
                        Error,
                    >(e)
                    ||| (ctx.registry().get_vertex_object_spec(vo_desc) is Ok && ctx.registry()
                        .get_program_spec(program_desc) == Err::<crate::shader::program::Program, Error>(e))
                },
            },
    {
        let _vo = ctx.get_vertex_object(vo_desc)?;
        let _p = ctx.get_program(program_desc)?;
        Ok(Mesh { uniforms, vertex_object: vo_desc, program: program_desc })
    }

    /// Replaces the recorded uniform of the same name, host-side only:
    /// nothing is sent to the native API.  A name that was never
    /// registered is an error, never a silent addition.
    pub fn set_uniform_on_cpu(&mut self, update: Uniform) -> (r: Result<(), Error>)
        ensures
            final(self).vertex_object == old(self).vertex_object,
            final(self).program == old(self).program,
            match r {
                Ok(_) => {
                    &&& has_uniform_named(old(self).uniforms@, update.name@)
                    &&& exists|i: int|
                        #[trigger] is_first_uniform_named(old(self).uniforms@, update.name@, i)
                            && final(self).uniforms@ == old(self).uniforms@.update(i, update)
                },
                Err(e) => {
                    &&& !has_uniform_named(old(self).uniforms@, update.name@)
                    &&& e == Error::UniformDoesNotExist(update.name)
                    &&& *final(self) == *old(self)
                },
            },
    {
        let n = self.uniforms.len();
        let mut i: usize = 0;
        while i < n
            invariant
                i <= n,
                n == self.uniforms@.len(),
                *self == *old(self),
                forall|j: int|
                    0 <= j < i ==> (#[trigger] self.uniforms@[j]).name@ != update.name@,
            decreases n - i,
        {
            if self.uniforms[i].name == update.name {
                proof {
                    assert(is_first_uniform_named(self.uniforms@, update.name@, i as int));
                }
                self.uniforms.set(i, update);
                return Ok(());
            }
            i = i + 1;
        }
        proof {
            if has_uniform_named(self.uniforms@, update.name@) {
                let w = choose|w: int|
                    0 <= w < self.uniforms@.len() && (#[trigger] self.uniforms@[w]).name@
                        == update.name@;
            }
        }
        Err(Error::UniformDoesNotExist(update.name))
    }

    /// The recorded uniform with this name (the first, where names repeat),
    /// or `UniformDoesNotExist` when the name was never registered.
    pub fn get_uniform(&self, name: &String) -> (r: Result<&Uniform, Error>)
        ensures
            match r {
                Ok(u) => exists|i: int|
                    #[trigger] is_first_uniform_named(self.uniforms@, name@, i) && *u
                        == self.uniforms@[i],
                Err(e) => {
                    &&& !has_uniform_named(self.uniforms@, name@)
                    &&& e matches Error::UniformDoesNotExist(n) && n@ == name@
                },
            },
    {
        let n = self.uniforms.len();
        let mut i: usize = 0;
        while i < n
            invariant
                i <= n,
                n == self.uniforms@.len(),
                forall|j: int| 0 <= j < i ==> (#[trigger] self.uniforms@[j]).name@ != name@,
            decreases n - i,
        {
            if self.uniforms[i].name == *name {
                proof {
                    assert(is_first_uniform_named(self.uniforms@, name@, i as int));
                }
                return Ok(&self.uniforms[i]);
            }
            i = i + 1;
        }
        proof {
            if has_uniform_named(self.uniforms@, name@) {
                let w = choose|w: int|
                    0 <= w < self.uniforms@.len() && (#[trigger] self.uniforms@[w]).name@
                        == name@;
            }
        }
        Err(Error::UniformDoesNotExist(name.clone()))
    }

    /// Renders with the native state exactly as it stands: the currently
    /// bound vertex object, the active program and whatever uniforms were
    /// already uploaded.  See [`GLContext::try_render`].
    pub fn try_render_with_current_ogl_state(&self, ctx: &mut GLContext) -> (r: Result<(), Error>)
        requires
            old(ctx).wf(),
        ensures
            final(ctx).wf(),
            r == old(ctx).render_result(),
            final(ctx).registry() == old(ctx).registry(),
            GLContext::same_binding_state(*old(ctx), *final(ctx)),
            if r is Ok {
                final(ctx).calls() == old(ctx).calls().push(old(ctx).render_call())
            } else {
                *final(ctx) == *old(ctx)
            },
    {
        ctx.try_render()
    }

    /// Detaches this mesh's program if it is the active one, and unbinds
    /// its vertex object if it is the bound one; anything else stays
    /// untouched.
    pub fn deactivate(&self, ctx: &mut GLContext)
        requires
            old(ctx).wf(),
        ensures
            final(ctx).wf(),
            final(ctx).registry() == old(ctx).registry(),
            final(ctx).texture_units() == old(ctx).texture_units(),
            final(ctx).current_program() == if old(ctx).current_program() == Some(self.program) {
                None::<GLObjectDescriptor>
            } else {
                old(ctx).current_program()
            },
            final(ctx).current_vertex_object() == if old(ctx).current_vertex_object() == Some(
                self.vertex_object,
            ) {
                None::<GLObjectDescriptor>
            } else {
                old(ctx).current_vertex_object()
            },
            final(ctx).calls() == old(ctx).calls() + (if old(ctx).current_program() == Some(
                self.program,
            ) {
                seq![GlCall::UseProgram(0)]
            } else {
                Seq::<GlCall>::empty()
            }) + (if old(ctx).current_vertex_object() == Some(self.vertex_object) {
                match old(ctx).registry().get_vertex_object_spec(self.vertex_object) {
                    Ok(vo) => GLContext::unbind_calls(vo),
                    Err(_) => Seq::<GlCall>::empty(),
                }
            } else {
                Seq::<GlCall>::empty()
            }),
    {
        let ghost pre = *ctx;
        let detach = match ctx.try_get_active_program() {
            Ok(desc) => desc == self.program,
            Err(_) => false,
        };
        if detach {
            ctx.detach_current_program();
        }
        let unbind = match ctx.get_current_bound_vertex_object() {
            Some(desc) => desc == self.vertex_object,
            None => false,
        };
        if unbind {
            ctx.unbind_current_vertex_object();
        }
        proof {
            assert(ctx.calls() =~= pre.calls() + (if pre.current_program() == Some(self.program) {
                seq![GlCall::UseProgram(0)]
            } else {
                Seq::<GlCall>::empty()
            }) + (if pre.current_vertex_object() == Some(self.vertex_object) {
                match pre.registry().get_vertex_object_spec(self.vertex_object) {
                    Ok(vo) => GLContext::unbind_calls(vo),
                    Err(_) => Seq::<GlCall>::empty(),
                }
            } else {
                Seq::<GlCall>::empty()
            }));
        }
    }
}

} // verus!
