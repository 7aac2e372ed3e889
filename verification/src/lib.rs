//! A small harness that drives a GPU rendering loop against a window surface
//! or an off-screen texture.
//!
//! The library holds the state and the decisions of the harness: the drawing
//! context, the builders for surface configurations, pipelines and bind
//! groups, the event-loop driver and the frame-capture driver. Live surfaces,
//! windows and the waits on the GPU are the caller's.
pub mod primitive;
pub mod gpu;
pub mod platform;
pub mod surface_cfg;
pub mod ctx;
pub mod util;
pub mod ppl;
pub mod render;
pub mod gif;
pub mod app;
