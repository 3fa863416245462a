//! A sprite: a named image and the cutout drawn from it.

use vstd::prelude::*;

verus! {

/// A rectangular cutout of a named image.
pub struct Sprite {
    /// The cutout's left edge within the image.
    pub x: u16,
    /// The cutout's top edge within the image.
    pub y: u16,
    /// The cutout's width.
    pub width: u16,
    /// The cutout's height.
    pub height: u16,
    /// Which image of the image dictionary to cut from.
    pub image: String,
}

} // verus!
