//! Frame-rendering core of a small real-time scene viewer.
//!
//! The library decides what the GPU is asked to do: which meshes are uploaded,
//! how the fixed graphics pipeline is described, which descriptor sets are bound,
//! which commands each frame records, how submissions are chained, and how the
//! frame loop reacts to window events. Talking to the device and the window is
//! left to the caller, who replays these decisions.
pub mod bindings;
pub mod commands;
pub mod frame_loop;
pub mod geometry;
pub mod pipeline;
pub mod render;
pub mod sync;
