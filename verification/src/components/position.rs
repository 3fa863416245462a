//! A position on the playing field.

use vstd::prelude::*;

verus! {

/// Where an entity stands, in whole grid units.
pub struct Position {
    /// The horizontal coordinate.
    pub x: u16,
    /// The vertical coordinate.
    pub y: u16,
}

} // verus!
