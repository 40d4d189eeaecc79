//! The registry and batching core of a small real-time 2D rendering engine.
//!
//! The library tracks the shapes that exist and the handles that share them,
//! collects the draws submitted against each shape between two frames, and
//! turns them, once per frame, into one instanced draw call for each shape
//! that has any. It also derives the shared projection from the size of the
//! viewport, lays out the vertex and instance buffers, and tessellates
//! circles. The device itself, the window and the event loop stay outside:
//! the library says what is to be uploaded and drawn, and its caller does it.
//!
//! Numbers that the GPU reads are held as the bit patterns of 32-bit IEEE 754
//! numbers.

use vstd::prelude::*;

pub mod bytes;
pub mod color;
pub mod errors;
pub mod events;
pub mod frame;
pub mod graphic_device;
pub mod input;
pub mod laws;
pub mod lemmas;
pub mod model_transform;
pub mod registry;
pub mod screen;
pub mod shape;
pub mod uniforms;
pub mod utils;
pub mod vertex;
pub mod vertex_layout;
