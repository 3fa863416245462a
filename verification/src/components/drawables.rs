//! Drawable components.  Rendering itself is the host's business; this
//! module holds the plain data a drawable is described by.

pub mod sprite;
