//! Components: the plain data this library can state and the host's
//! systems consume.  Concrete component loading against the entity
//! registry is the host's business.

pub mod drawables;
pub mod player_control;
pub mod position;
