use vstd::prelude::*;
use super::call::GlCall;
use super::GLContext;
use crate::error::Error;
use crate::object::descriptor::GLObjectDescriptor;
use crate::vertex::VertexObject;

verus! {

impl GLContext {
    /// What `try_bind_vertex_object` returns, as a function of the state
    /// and the handle.
    pub open spec fn bind_vertex_object_result(self, d: GLObjectDescriptor) -> Result<(), Error> {
        if self.current_vertex_object() == Some(d) {
            Ok(())
        } else if self.current_vertex_object() is Some {
            Err(Error::AnotherVertexObjectBound)
        } else {
            match self.registry().get_vertex_object_spec(d) {
                Ok(_) => Ok(()),
                Err(e) => Err(e),
            }
        }
    }

    /// The native calls a fresh bind of this vertex object issues: bind the
    /// vertex array, and bind the element buffer too when the object is
    /// indexed.
    pub open spec fn bind_calls(vo: VertexObject) -> Seq<GlCall> {
        match vo.index_buffer_object {
            Some(ibo) => seq![
                GlCall::BindVertexArray(vo.vertex_array_object),
                GlCall::BindElementArrayBuffer(ibo.gl_object_id),
            ],
            None => seq![GlCall::BindVertexArray(vo.vertex_array_object)],
        }
    }

    /// The native calls that undo a bind of this vertex object.
    pub open spec fn unbind_calls(vo: VertexObject) -> Seq<GlCall> {
        match vo.index_buffer_object {
            Some(_) => seq![GlCall::BindVertexArray(0), GlCall::BindElementArrayBuffer(0)],
            None => seq![GlCall::BindVertexArray(0)],
        }
    }

    /// Binds the vertex object and records the native bind calls.  Success
    /// is a no-op when it is already bound.  While a different vertex
    /// object is bound the call fails with `AnotherVertexObjectBound`:
    /// under this strict policy the caller must unbind the current one
    /// first.
    pub fn try_bind_vertex_object(&mut self, vo_desc: GLObjectDescriptor) -> (r: Result<
        (),
        Error,
    >)
        requires
            old(self).wf(),
        ensures
            final(self).wf(),
            r == old(self).bind_vertex_object_result(vo_desc),
            final(self).registry() == old(self).registry(),
            final(self).texture_units() == old(self).texture_units(),
            final(self).current_program() == old(self).current_program(),
            match r {
                Ok(_) => {
                    &&& final(self).current_vertex_object() == Some(vo_desc)
                    &&& if old(self).current_vertex_object() == Some(vo_desc) {
                        *final(self) == *old(self)
                    } else {
                        final(self).calls() == old(self).calls() + Self::bind_calls(
                            old(self).registry().get_vertex_object_spec(vo_desc)->Ok_0,
                        )
                    }
                },
                Err(_) => *final(self) == *old(self),
            },
    {
        match self.bound_vertex_object {
            Some(desc) => {
                if desc == vo_desc {
                    // already bound
                    Ok(())
                } else {
                    Err(Error::AnotherVertexObjectBound)
                }
            },
            None => {
                let vo = self.object_registry.get_vertex_object(vo_desc)?;
                let vao = vo.vertex_array_object;
                let ebo: Option<u32> = match &vo.index_buffer_object {
                    Some(ibo) => Some(ibo.gl_object_id),
                    None => None,
                };
                self.pending_calls.push(GlCall::BindVertexArray(vao));
                match ebo {
                    Some(id) => {
                        self.pending_calls.push(GlCall::BindElementArrayBuffer(id));
                    },
                    None => {},
                }
                self.bound_vertex_object = Some(vo_desc);
                proof {
                    assert(self.calls() =~= old(self).calls() + Self::bind_calls(
                        old(self).registry().get_vertex_object_spec(vo_desc)->Ok_0,
                    ));
                }
                Ok(())
            },
        }
    }

    /// Unbinds the vertex object currently bound, recording the native
    /// unbind calls; a no-op when nothing was bound.  When the bound handle
    /// no longer resolves (the resource was removed), the binding is still
    /// cleared but no native call is recorded and nothing is returned.
    pub fn unbind_current_vertex_object(&mut self) -> (r: Option<GLObjectDescriptor>)
        requires
            old(self).wf(),
        ensures
            final(self).wf(),
            final(self).current_vertex_object() is None,
            final(self).registry() == old(self).registry(),
            final(self).texture_units() == old(self).texture_units(),
            final(self).current_program() == old(self).current_program(),
            match old(self).current_vertex_object() {
                None => r is None && *final(self) == *old(self),
                Some(d) => match old(self).registry().get_vertex_object_spec(d) {
                    Ok(vo) => r == Some(d) && final(self).calls() == old(self).calls()
                        + Self::unbind_calls(vo),
                    Err(_) => r is None && final(self).calls() == old(self).calls(),
                },
            },
    {
        match self.bound_vertex_object {
            None => None,
            Some(desc) => {
                self.bound_vertex_object = None;
                match self.object_registry.get_vertex_object(desc) {
                    Err(_) => None,
                    Ok(vo) => {
                        let has_index_buffer = vo.index_buffer_object.is_some();
                        self.pending_calls.push(GlCall::BindVertexArray(0));
                        if has_index_buffer {
                            self.pending_calls.push(GlCall::BindElementArrayBuffer(0));
                        }
                        proof {
                            assert(self.calls() =~= old(self).calls() + Self::unbind_calls(
                                old(self).registry().get_vertex_object_spec(desc)->Ok_0,
                            ));
                        }
                        Some(desc)
                    },
                }
            },
        }
    }

    /// Whether this handle is the bound vertex object.
    pub fn vertex_object_bound(&self, vo_desc: GLObjectDescriptor) -> (r: bool)
        ensures
            r == (self.current_vertex_object() == Some(vo_desc)),
    {
        match self.bound_vertex_object {
            Some(desc) => desc == vo_desc,
            None => false,
        }
    }

    /// The handle of the bound vertex object, if any.
    pub fn get_current_bound_vertex_object(&self) -> (r: Option<GLObjectDescriptor>)
        ensures
            r == self.current_vertex_object(),
    {
        self.bound_vertex_object
    }

    /// What `try_render` returns, as a function of the state: it demands an
    /// active program first, then a bound vertex object, and the bound
    /// handle must still resolve.
    pub open spec fn render_result(self) -> Result<(), Error> {
        if self.current_program() is None {
            Err(Error::NoActiveProgram)
        } else {
            match self.current_vertex_object() {
                None => Err(Error::NoBoundVertexObject),
                Some(d) => match self.registry().get_vertex_object_spec(d) {
                    Ok(_) => Ok(()),
                    Err(e) => Err(e),
                },
            }
        }
    }

    /// The one draw call a successful `try_render` records: an indexed draw
    /// over the whole index buffer when the bound vertex object has one,
    /// else a non-indexed draw of all its vertices, both with the object's
    /// recorded topology.
    pub open spec fn render_call(self) -> GlCall {
        let vo = self.registry().get_vertex_object_spec(
            self.current_vertex_object()->Some_0,
        )->Ok_0;
        match vo.index_buffer_object {
            Some(ibo) => GlCall::DrawElements {
                primitive: vo.primitive,
                count: ibo.indexes@.len() as usize,
            },
            None => GlCall::DrawArrays { primitive: vo.primitive, first: 0, count: vo.num_vertices },
        }
    }

    /// Records exactly one draw call for the bound vertex object under the
    /// active program.  Fails with `NoActiveProgram` when no program is in
    /// use (whatever the binding state), and with `NoBoundVertexObject`
    /// when a program is in use but nothing is bound.
    pub fn try_render(&mut self) -> (r: Result<(), Error>)
        requires
            old(self).wf(),
        ensures
            final(self).wf(),
            r == old(self).render_result(),
            final(self).registry() == old(self).registry(),
            Self::same_binding_state(*old(self), *final(self)),
            if r is Ok {
                final(self).calls() == old(self).calls().push(old(self).render_call())
            } else {
                *final(self) == *old(self)
            },
    {
        if self.active_program.is_none() {
            return Err(Error::NoActiveProgram);
        }
        let vo_desc = match self.bound_vertex_object {
            Some(desc) => desc,
            None => {
                return Err(Error::NoBoundVertexObject);
            },
        };
        let vo = self.object_registry.get_vertex_object(vo_desc)?;
        let call = match &vo.index_buffer_object {
            Some(ibo) => GlCall::DrawElements { primitive: vo.primitive, count: ibo.indexes.len() },
            None => GlCall::DrawArrays { primitive: vo.primitive, first: 0, count: vo.num_vertices },
        };
        self.pending_calls.push(call);
        Ok(())
    }
}

/// Law: `try_render` fails with `NoActiveProgram` whenever no program is in
/// use, whatever the vertex-object binding state; and with
/// `NoBoundVertexObject` whenever a program is in use but no vertex object
/// is bound.
pub proof fn lemma_render_preconditions(s: GLContext)
    ensures
        s.current_program() is None ==> s.render_result() == Err::<(), Error>(
            Error::NoActiveProgram,
        ),
        s.current_program() is Some && s.current_vertex_object() is None ==> s.render_result()
            == Err::<(), Error>(Error::NoBoundVertexObject),
{
}

} // verus!
