//! Systems the host runs over the simulation registry each tick.  Their
//! work reads and writes the registry's component storages, which only
//! the host holds; the library keeps their identities.

pub mod animate_sprites;
pub mod play_default_sounds;
