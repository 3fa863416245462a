//! The loader state for the sprite renderer.

use vstd::prelude::*;

verus! {

/// The type identifier a sprite-renderer manifest must declare.
pub const SPRITE_RENDERER_LOAD_ID: &'static str = "sprite_renderer";

/// Remembers where the sprite renderer's manifest lives.
pub struct SpriteRendererLoader {
    /// The manifest's path.
    pub path: String,
}

/// What a sprite-renderer manifest's payload holds: one file per part
/// of the renderer.
pub struct SpriteRendererJSON {
    /// Where the render state's manifest lives.
    pub render_state_path: String,
    /// Where the tessellation's manifest lives.
    pub tess_path: String,
    /// Where the shader's manifest lives.
    pub shader_path: String,
}

impl SpriteRendererLoader {
    /// Remember the manifest path.
    pub fn new(path: String) -> (r: SpriteRendererLoader)
        ensures
            r.path == path,
    {
        SpriteRendererLoader { path }
    }
}

} // verus!
