//! The loader state for a shader program.

use vstd::prelude::*;

verus! {

/// Remembers where a shader program's manifest lives; compiling the
/// program is the host's business.
pub struct ShaderLoader {
    /// The manifest's path.
    pub path: String,
}

/// What a shader manifest's payload holds: one file per shader stage,
/// with the optional stages left out where unused.
pub struct ShaderJSON {
    /// Where the vertex stage's source lives.
    pub vertex: String,
    /// Where the tessellation-control stage's source lives, if any.
    pub tess_control: Option<String>,
    /// Where the tessellation-evaluation stage's source lives, if any.
    pub tess_eval: Option<String>,
    /// Where the geometry stage's source lives, if any.
    pub geometry: Option<String>,
    /// Where the fragment stage's source lives.
    pub fragment: String,
}

impl ShaderLoader {
    /// Remember the manifest path.
    pub fn new(file_path: String) -> (r: ShaderLoader)
        ensures
            r.path == file_path,
    {
        ShaderLoader { path: file_path }
    }
}

} // verus!
