use vstd::prelude::*;
use super::call::GlCall;
use super::GLContext;
use crate::error::Error;
use crate::object::descriptor::GLObjectDescriptor;
use crate::uniform::Uniform;

verus! {

/// Maps the result of the native uniform-location query.  The native API
/// reports a missing uniform as location `-1`; any valid location is
/// non-negative.
pub fn uniform_location_result(uniform: &str, raw_loc: i32) -> (r: Result<i32, Error>)
    ensures
        match r {
            Ok(loc) => raw_loc >= 0 && loc == raw_loc,
            Err(e) => {
                &&& raw_loc < 0
                &&& e matches Error::UniformLocNotFound(n) && n@ == uniform@
            },
        },
{
    if raw_loc < 0 {
        Err(Error::UniformLocNotFound(uniform.to_owned()))
    } else {
        Ok(raw_loc)
    }
}

/// Maps the result of the native attribute-location query.  The native API
/// reports a missing attribute as location `-1`; any valid location is
/// non-negative and is used as an unsigned index.
pub fn attrib_location_result(attrib: &str, raw_loc: i32) -> (r: Result<u32, Error>)
    ensures
        match r {
            Ok(loc) => raw_loc >= 0 && loc == raw_loc as u32,
            Err(e) => {
                &&& raw_loc < 0
                &&& e matches Error::AttributeLocNotFound(n) && n@ == attrib@
            },
        },
{
    if raw_loc < 0 {
        Err(Error::AttributeLocNotFound(attrib.to_owned()))
    } else {
        Ok(raw_loc as u32)
    }
}

impl GLContext {
    /// What `try_use_program` returns, as a function of the state and the
    /// handle.
    pub open spec fn use_program_result(self, d: GLObjectDescriptor) -> Result<(), Error> {
        if self.current_program() == Some(d) {
            Ok(())
        } else if self.current_program() is Some {
            Err(Error::AnotherProgramInUse)
        } else {
            match self.registry().get_program_spec(d) {
                Ok(_) => Ok(()),
                Err(e) => Err(e),
            }
        }
    }

    /// Makes the program current and records the native "use program" call.
    /// Success is a no-op when the program is already current.  While a
    /// different program is current the call fails with
    /// `AnotherProgramInUse`: under this strict policy the caller must
    /// detach the current program first.
    pub fn try_use_program(&mut self, prog_desc: GLObjectDescriptor) -> (r: Result<(), Error>)
        requires
            old(self).wf(),
        ensures
            final(self).wf(),
            r == old(self).use_program_result(prog_desc),
            final(self).registry() == old(self).registry(),
            final(self).texture_units() == old(self).texture_units(),
            final(self).current_vertex_object() == old(self).current_vertex_object(),
            match r {
                Ok(_) => {
                    &&& final(self).current_program() == Some(prog_desc)
                    &&& if old(self).current_program() == Some(prog_desc) {
                        *final(self) == *old(self)
                    } else {
                        final(self).calls() == old(self).calls().push(
                            GlCall::UseProgram(
                                old(self).registry().get_program_spec(
                                    prog_desc,
                                )->Ok_0.gl_object_id,
                            ),
                        )
                    }
                },
                Err(_) => *final(self) == *old(self),
            },
    {
        match self.active_program {
            Some(desc) => {
                if desc == prog_desc {
                    // already in use
                    Ok(())
                } else {
                    Err(Error::AnotherProgramInUse)
                }
            },
            None => {
                let program = self.object_registry.get_program(prog_desc)?;
                let id = program.gl_object_id;
                self.pending_calls.push(GlCall::UseProgram(id));
                self.active_program = Some(prog_desc);
                Ok(())
            },
        }
    }

    /// Detaches the program currently in use, recording the native "no
    /// program" call; a no-op when nothing was in use.  Returns the handle
    /// that was detached.
    pub fn detach_current_program(&mut self) -> (r: Option<GLObjectDescriptor>)
        requires
            old(self).wf(),
        ensures
            final(self).wf(),
            r == old(self).current_program(),
            final(self).current_program() is None,
            final(self).registry() == old(self).registry(),
            final(self).texture_units() == old(self).texture_units(),
            final(self).current_vertex_object() == old(self).current_vertex_object(),
            final(self).calls() == if old(self).current_program() is Some {
                old(self).calls().push(GlCall::UseProgram(0))
            } else {
                old(self).calls()
            },
    {
        match self.active_program {
            Some(desc) => {
                self.active_program = None;
                self.pending_calls.push(GlCall::UseProgram(0));
                Some(desc)
            },
            None => None,
        }
    }

    /// The handle of the program currently in use, or `NoActiveProgram`.
    pub fn try_get_active_program(&self) -> (r: Result<GLObjectDescriptor, Error>)
        ensures
            match r {
                Ok(d) => self.current_program() == Some(d),
                Err(e) => self.current_program() is None && e == Error::NoActiveProgram,
            },
    {
        match self.active_program {
            Some(desc) => Ok(desc),
            None => Err(Error::NoActiveProgram),
        }
    }

    /// Succeeds exactly when some program is in use.
    pub fn ensure_program_active(&self) -> (r: Result<(), Error>)
        ensures
            match r {
                Ok(_) => self.current_program() is Some,
                Err(e) => self.current_program() is None && e == Error::NoActiveProgram,
            },
    {
        if self.active_program.is_none() {
            return Err(Error::NoActiveProgram);
        }
        Ok(())
    }

    /// Records the upload of a uniform value at an already-resolved
    /// location in the active program.  The caller resolves the location
    /// with the native query and [`uniform_location_result`].  Fails with
    /// `NoActiveProgram` when no program is in use.
    pub fn try_set_uniform(&mut self, uniform: &Uniform, location: i32) -> (r: Result<(), Error>)
        requires
            old(self).wf(),
        ensures
            final(self).wf(),
            final(self).registry() == old(self).registry(),
            Self::same_binding_state(*old(self), *final(self)),
            match r {
                Ok(_) => {
                    &&& old(self).current_program() is Some
                    &&& final(self).calls() == old(self).calls().push(
                        GlCall::SetUniform {
                            location,
                            value: uniform.kind,
                            transpose: uniform.transpose,
                        },
                    )
                },
                Err(e) => {
                    &&& e == Error::NoActiveProgram
                    &&& old(self).current_program() is None
                    &&& *final(self) == *old(self)
                },
            },
    {
        if self.active_program.is_none() {
            return Err(Error::NoActiveProgram);
        }
        self.pending_calls.push(
            GlCall::SetUniform { location, value: uniform.kind, transpose: uniform.transpose },
        );
        Ok(())
    }
}

/// Law: under the strict single-active-program policy, asking to use
/// program `b` while a different program `a` is in use fails with
/// `AnotherProgramInUse`; by `try_use_program`'s contract the failed call
/// leaves the context unchanged, so `a` stays recorded as active.
pub proof fn lemma_strict_use_program_policy(
    s: GLContext,
    a: GLObjectDescriptor,
    b: GLObjectDescriptor,
)
    requires
        s.current_program() == Some(a),
        a != b,
    ensures
        s.use_program_result(b) == Err::<(), Error>(Error::AnotherProgramInUse),
{
}

} // verus!
