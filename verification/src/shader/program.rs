use vstd::prelude::*;
use super::Shader;
use crate::context::GLContext;
use crate::error::Error;
use crate::object::descriptor::GLObjectDescriptor;
use crate::object::{GLObject, GLObjectRegistry};

verus! {

/// A linked shader program: the native program id and the source paths of
/// the stages it was linked from (kept for diagnostics only).
#[derive(Debug)]
pub struct Program {
    pub gl_object_id: u32,
    pub shader_src_paths: Vec<String>,
}

/// What the native linker reported: success, or the link log (already
/// truncated to the native diagnostic buffer).
#[derive(Debug)]
pub enum LinkOutcome {
    Linked,
    Failed(String),
}

/// Collects compiled shader stages and, given the native link outcome,
/// either registers the finished program or surfaces the link log.  The
/// native attach/link/delete calls themselves are the shell's job; it
/// reads the stage ids with [`Linker::shader_ids`].
pub struct Linker {
    pub shaders: Vec<Shader>,
    pub program: u32,
}

impl Linker {
    /// Starts a linker around a native program id the shell created.
    pub fn new(program: u32) -> (r: Self)
        ensures
            r.program == program,
            r.shaders@.len() == 0,
    {
        Linker { shaders: Vec::new(), program }
    }

    pub fn attach_shader(self, shader: Shader) -> (r: Self)
        ensures
            r.program == self.program,
            r.shaders@ == self.shaders@.push(shader),
    {
        let mut shaders = self.shaders;
        shaders.push(shader);
        Linker { shaders, program: self.program }
    }

    /// The native ids of the attached stages, in attach order; the shell
    /// attaches them before linking and deletes them after a successful
    /// link.
    pub fn shader_ids(&self) -> (r: Vec<u32>)
        ensures
            r@.len() == self.shaders@.len(),
            forall|k: int|
                0 <= k < r@.len() ==> (#[trigger] r@[k]) == self.shaders@[k].gl_object_id,
    {
        let n = self.shaders.len();
        let mut ids: Vec<u32> = Vec::new();
        let mut i: usize = 0;
        while i < n
            invariant
                i <= n,
                n == self.shaders@.len(),
                ids@.len() == i,
                forall|k: int|
                    0 <= k < i ==> (#[trigger] ids@[k]) == self.shaders@[k].gl_object_id,
            decreases n - i,
        {
            ids.push(self.shaders[i].gl_object_id);
            i = i + 1;
        }
        ids
    }

    /// Finishes the link.  On a failed outcome the link log is returned as
    /// the error and the context is untouched.  On success the program is
    /// registered (with the stages' source paths kept for diagnostics) and
    /// its fresh handle returned.
    pub fn link(self, ctx: &mut GLContext, outcome: LinkOutcome) -> (r: Result<
        GLObjectDescriptor,
        Error,
    >)
        requires
            old(ctx).wf(),
            old(ctx).registry().next_generation() < usize::MAX,
        ensures
            final(ctx).wf(),
            match outcome {
                LinkOutcome::Failed(log) => {
                    &&& r == Err::<GLObjectDescriptor, Error>(Error::ProgramLink(log))
                    &&& *final(ctx) == *old(ctx)
                },
                LinkOutcome::Linked => {
                    &&& r is Ok
                    &&& GLObjectRegistry::register_step(
                        old(ctx).registry(),
                        final(ctx).registry(),
                        r->Ok_0,
                        final(ctx).registry().object_at(r->Ok_0),
                    )
                    &&& final(ctx).registry().object_at(r->Ok_0) matches GLObject::Program(p)
                        && p.gl_object_id == self.program && p.shader_src_paths@.len()
                        == self.shaders@.len() && (forall|k: int|
                        0 <= k < self.shaders@.len() ==> (
                        #[trigger] p.shader_src_paths@[k])@ == self.shaders@[k].src@)
                    &&& GLContext::same_binding_state(*old(ctx), *final(ctx))
                    &&& final(ctx).calls() == old(ctx).calls()
                },
            },
    {
        match outcome {
            LinkOutcome::Failed(log) => Err(Error::ProgramLink(log)),
            LinkOutcome::Linked => {
                let n = self.shaders.len();
                let mut shader_src_paths: Vec<String> = Vec::new();
                let mut i: usize = 0;
                while i < n
                    invariant
                        i <= n,
                        n == self.shaders@.len(),
                        shader_src_paths@.len() == i,
                        forall|k: int|
                            0 <= k < i ==> (#[trigger] shader_src_paths@[k])@
                                == self.shaders@[k].src@,
                    decreases n - i,
                {
                    shader_src_paths.push(self.shaders[i].src.clone());
                    i = i + 1;
                }
                let program = Program { gl_object_id: self.program, shader_src_paths };
                let desc = ctx.register_object(GLObject::Program(program));
                Ok(desc)
            },
        }
    }
}

} // verus!
