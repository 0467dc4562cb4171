//! The two recoverable shader-swap failures, each carrying the backend's
//! diagnostic text. Neither ever aborts the runtime: a failed swap leaves
//! the previously linked program rendering.

use vstd::prelude::*;

verus! {

/// Why a shader swap was rejected: a stage failed to compile, or the new
/// program failed to link. The payload is the diagnostic log.
pub enum ShaderError {
    Compile(String),
    Link(String),
}

impl ShaderError {
    /// The diagnostic text, whichever variant carries it.
    pub open spec fn text(self) -> Seq<char> {
        match self {
            ShaderError::Compile(s) => s@,
            ShaderError::Link(s) => s@,
        }
    }

    /// The diagnostic log the backend reported.
    pub fn message(&self) -> (m: &String)
        ensures
            m@ == self.text(),
    {
        match self {
            ShaderError::Compile(s) => s,
            ShaderError::Link(s) => s,
        }
    }
}

} // verus!
