//! The loader state for the audio controller's sound dictionary.

use vstd::prelude::*;

verus! {

/// Remembers where the sound dictionary's manifest lives; the host
/// loads the sounds themselves.
pub struct AudioControllerLoader {
    /// The manifest's path.
    pub path: String,
}

impl AudioControllerLoader {
    /// Remember the manifest path.
    pub fn new(file_path: String) -> (r: AudioControllerLoader)
        ensures
            r.path == file_path,
    {
        AudioControllerLoader { path: file_path }
    }
}

} // verus!
