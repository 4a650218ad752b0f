//! A 2D scene visualiser core: a producer publishes scenes into a single-slot
//! mailbox, a render loop drains the mailbox, fits the logical viewport onto
//! the physical surface, flattens the scene graph into primitive draw
//! commands, and keeps textures alive through a usage-counted cache.
//!
//! The windowing backend that owns the display surface executes the draw
//! commands; everything up to that boundary is verified here.

pub mod geometry;
pub mod input;
pub mod mailbox;
pub mod renderer;
pub mod scalar;
pub mod texture;
pub mod viewport;
pub mod visualiser;

pub use input::PistonVisualiserInputProvider;
pub use scalar::Frac;
pub use texture::TextureBuffer;
pub use visualiser::{FurtherPistonVisualiserError, PistonVisualiserError};
