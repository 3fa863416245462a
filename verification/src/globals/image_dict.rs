//! The loader state for the image dictionary.

use vstd::prelude::*;

verus! {

/// Remembers where the image dictionary's manifest lives; the host
/// decodes the images themselves.
pub struct ImageDictLoader {
    /// The manifest's path.
    pub path: String,
}

impl ImageDictLoader {
    /// Remember the manifest path.
    pub fn new(file_path: String) -> (r: ImageDictLoader)
        ensures
            r.path == file_path,
    {
        ImageDictLoader { path: file_path }
    }
}

} // verus!
