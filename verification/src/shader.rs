use vstd::prelude::*;
use crate::error::Error;

pub mod program;

pub use program::Program;

verus! {

/// A compiled shader stage: the native shader id and the path the source
/// was read from.
#[derive(Debug)]
pub struct Shader {
    pub gl_object_id: u32,
    pub src: String,
}

/// The shader stages a program links.
#[derive(Debug, Copy, Clone, PartialEq, Eq, Structural)]
pub enum ShaderType {
    Vertex,
    Fragment,
}

/// What the native compiler reported for one shader stage: the fresh
/// shader id on success, or the compile log (already truncated to the
/// native diagnostic buffer) on failure.
#[derive(Debug)]
pub enum CompileOutcome {
    Compiled(u32),
    Failed(String),
}

impl Shader {
    /// Turns a compile outcome into a shader value or the compile error.
    /// `file_name` names the stage in the error; `src` is the path the
    /// source was read from.
    pub fn from_outcome(src: String, file_name: &str, outcome: CompileOutcome) -> (r: Result<
        Shader,
        Error,
    >)
        ensures
            match outcome {
                CompileOutcome::Compiled(id) => {
                    &&& r matches Ok(sh) && sh.gl_object_id == id && sh.src@ == src@
                },
                CompileOutcome::Failed(reason_log) => {
                    &&& r is Err
                    &&& r->Err_0 matches Error::ShaderCompile { shader_name, reason }
                        && shader_name@ == file_name@ && reason == reason_log
                },
            },
    {
        match outcome {
            CompileOutcome::Compiled(gl_object_id) => Ok(Shader { gl_object_id, src }),
            CompileOutcome::Failed(reason) => Err(
                Error::ShaderCompile { shader_name: file_name.to_owned(), reason },
            ),
        }
    }
}

} // verus!
