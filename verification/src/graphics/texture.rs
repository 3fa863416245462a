//! Textures, by name.  Decoding image files and uploading textures is
//! the host's business; here live the plain values that describe them.

use vstd::prelude::*;

pub mod texture2d;

verus! {

/// The type identifier a texture manifest must declare.
pub const TEXTURE_LOAD_ID: &'static str = "texture";

/// A texture, looked up by the name it was registered under.
pub struct TextureHandle {
    /// The name the texture dictionary knows the texture by.
    pub handle: String,
}

/// What a texture manifest's payload holds.
pub struct TextureJSON {
    /// The name to register the texture under, if not the file's own.
    pub name: Option<String>,
    /// Where the image file lives.
    pub image_path: String,
}

/// Holds a texture manifest's payload until the host builds the
/// texture.
pub struct TextureLoader {
    /// The parsed payload.
    pub json: TextureJSON,
}

} // verus!
