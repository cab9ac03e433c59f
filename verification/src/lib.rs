//! The decision core of the Ketch rendering engine.
//!
//! Everything the engine decides without touching the graphics driver lives
//! here: which device and queues to use, how the swapchain, render pass and
//! pipeline are configured, what a frame's command sequence contains, and how
//! a frame moves from image acquisition to presentation. The caller performs
//! the driver calls and reports their outcome back.

pub mod scalar;
pub mod search;
pub mod settings;
pub mod renderer;
pub mod resource;
pub mod editor;
pub mod input;
pub mod engine;
