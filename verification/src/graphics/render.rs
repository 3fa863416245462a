//! Renderers.  The render state and draw calls are the host's business.

pub mod sprite_renderer;
