//! The loader state for a perspective camera.

use vstd::prelude::*;

verus! {

/// Remembers where a perspective camera's manifest lives; the host
/// builds the camera itself from it.
pub struct PerspectiveCameraLoader {
    /// The camera manifest's path.
    pub path: String,
}

impl PerspectiveCameraLoader {
    /// Remember the manifest path.
    pub fn new(file_path: String) -> (r: PerspectiveCameraLoader)
        ensures
            r.path == file_path,
    {
        PerspectiveCameraLoader { path: file_path }
    }
}

} // verus!
