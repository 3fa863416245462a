//! The system that advances every animated sprite by one frame.

use vstd::prelude::*;

verus! {

/// Advances animated sprites; the host runs it over its drawable
/// storage each tick.
pub struct AnimateSprites;

} // verus!
