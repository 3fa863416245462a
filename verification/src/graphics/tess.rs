//! The loader state for a tessellation.

use vstd::prelude::*;

verus! {

/// The type identifier a tessellation manifest must declare.
pub const TESS_LOAD_ID: &'static str = "tess";

/// Remembers where a tessellation's manifest lives; building the
/// vertex data is the host's business.
pub struct TessLoader {
    /// The manifest's path.
    pub file_path: String,
}

/// What a tessellation manifest's payload holds; every part is
/// optional and the host fills in its defaults.
pub struct TessJSON {
    /// How many vertices one render call covers, if bounded.
    pub render_vertices_len: Option<usize>,
    /// How many instances one render call covers, if bounded.
    pub render_instances_len: Option<usize>,
    /// The index that restarts a primitive, if any.
    pub primitive_restart_index: Option<u32>,
    /// The vertex attributes, if any.
    pub attributes: Option<Vec<u32>>,
    /// The per-instance attributes, if any.
    pub instance_attributes: Option<Vec<u32>>,
}

impl TessLoader {
    /// Remember the manifest path.
    pub fn new(file_path: String) -> (r: TessLoader)
        ensures
            r.file_path == file_path,
    {
        TessLoader { file_path }
    }
}

} // verus!
