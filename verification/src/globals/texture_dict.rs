//! The loader state for the texture dictionary.

use vstd::prelude::*;

verus! {

/// Remembers where the texture dictionary's manifest lives; the host
/// uploads the textures themselves.
pub struct TextureDictLoader {
    /// The manifest's path.
    pub path: String,
}

impl TextureDictLoader {
    /// Remember the manifest path.
    pub fn new(file_path: String) -> (r: TextureDictLoader)
        ensures
            r.path == file_path,
    {
        TextureDictLoader { path: file_path }
    }
}

} // verus!
