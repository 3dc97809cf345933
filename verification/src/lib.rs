//! Frame-rendering engine core: the render-mode state machine, the surface
//! lifecycle and the per-frame command selection, with machine-checked
//! contracts.

pub mod bytes;
pub mod camera;
pub mod challenge;
pub mod err;
pub mod event;
pub mod event_loop;
pub mod frame;
pub mod mat4x4_uniform;
pub mod model;
pub mod pipeline;
pub mod resources;
pub mod startup;
pub mod state;
pub mod texture;
pub mod vertex;
