//! A two-dimensional texture with an explicit size.

use vstd::prelude::*;

verus! {

/// The type identifier a sized-texture manifest must declare.
pub const TEXTURE2D_LOAD_ID: &'static str = "texture2D";

/// A sized texture, looked up by name.
pub struct Texture2D {
    /// The name the texture dictionary knows the texture by.
    pub handle: String,
    /// The texture's width and height, in texels.
    pub slice: [u32; 2],
}

/// What a sized-texture manifest's payload holds.
pub struct Texture2DJSON {
    /// The name to register the texture under, if not the file's own.
    pub name: Option<String>,
    /// Where the image file lives.
    pub image_path: String,
    /// The texture's width and height, in texels.
    pub dimensions: [u32; 2],
}

/// Holds a sized-texture manifest's payload until the host builds the
/// texture.
pub struct Texture2DLoader {
    /// The parsed payload.
    pub json: Texture2DJSON,
}

} // verus!
