//! Touch-driven button panel: debounced sampling, hit testing, event
//! hand-off and double-buffered rendering, with machine-checked contracts.

pub mod button;
pub mod events;
pub mod framebuffer;
pub mod geometry;
pub mod level;
pub mod outputs;
pub mod panel;
pub mod queue;
pub mod sampler;
pub mod systick;
pub mod text;
