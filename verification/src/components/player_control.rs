//! The marker for the entity the player steers.

use vstd::prelude::*;

verus! {

/// Marks an entity as player-controlled.
pub struct PlayerControl {}

} // verus!
