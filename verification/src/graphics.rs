//! Graphics-facing state.  Rendering primitives — textures, shaders,
//! tessellations — are external collaborators; this module holds the
//! plain values they are described and looked up by.

use vstd::prelude::*;

pub mod render;
pub mod shader;
pub mod tess;
pub mod texture;

verus! {

/// A name a loaded graphics resource is looked up by.
pub struct Handle(pub String);

} // verus!
