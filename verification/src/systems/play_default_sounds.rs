//! The system that starts each entity's default sound.

use vstd::prelude::*;

verus! {

/// Plays default sounds; the host runs it over its sound storage each
/// tick.
pub struct PlayDefaultSounds;

} // verus!
