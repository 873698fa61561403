//! Shader programs as the core sees them: a GPU handle and the errors that
//! compiling one can surface.
//!
//! Compiling and linking happen on the GPU through the platform layer; the
//! core only stores the resulting program handle and hands it back to the
//! renderer.

use vstd::prelude::*;

verus! {

/// A compiled and linked shader program, known here by its GPU handle.
pub struct Shader {
    /// The program handle the platform layer obtained.
    pub id: u32,
}

impl Shader {
    /// Wraps the handle of a program that the platform layer compiled.
    pub fn new(id: u32) -> (r: Shader)
        ensures
            r.id == id,
    {
        Shader { id }
    }

    /// The program handle.
    pub fn get_id(&self) -> (r: u32)
        ensures
            r == self.id,
    {
        self.id
    }
}

/// How loading a shader can fail; each variant carries a human-readable
/// diagnostic.  These failures are non-fatal: the run loop reports them and
/// continues with the resource absent.
#[derive(Debug)]
pub enum ShaderError {
    ShaderCompilationFailed(String),
    ShaderProgramLinkFailed(String),
    ShaderFileNotFound(String),
}

} // verus!
