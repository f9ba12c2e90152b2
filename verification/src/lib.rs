//! Frame-synchronised rendering core: surface negotiation, per-frame buffer
//! layout, pipeline state accumulation and the per-frame state machine.

pub mod camera;
pub mod gfx_utils;
pub mod hal_state;
pub mod keys;
pub mod loaded_image;
pub mod mesh;
pub mod pipeline;
pub mod utils;
