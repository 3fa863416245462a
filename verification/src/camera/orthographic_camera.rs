//! The loader state for an orthographic camera.

use vstd::prelude::*;

verus! {

/// Remembers where an orthographic camera's manifest lives; the host
/// builds the camera itself from it.
pub struct OrthographicCameraLoader {
    /// The camera manifest's path.
    pub path: String,
}

impl OrthographicCameraLoader {
    /// Remember the manifest path.
    pub fn new(file_path: String) -> (r: OrthographicCameraLoader)
        ensures
            r.path == file_path,
    {
        OrthographicCameraLoader { path: file_path }
    }
}

} // verus!
