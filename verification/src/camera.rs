//! Cameras are external collaborators: their matrix mathematics lives
//! in the host.  This module holds the loaders' plain state: the
//! manifest path each camera is built from.

pub mod orthographic_camera;
pub mod perspective_camera;
