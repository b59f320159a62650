//! A minimal 2D sprite renderer, modelled as data.
//!
//! The library decides *what* is to be created, configured and drawn: the
//! surface configuration, the quad geometry, the pipeline and texture
//! settings, and the commands of one frame. A host program performs those
//! decisions against a window and a GPU and reports back what happened.

pub mod event;
pub mod frame;
pub mod geometry;
pub mod pipeline;
pub mod render;
pub mod surface;
pub mod texture;
