//! Planning core of a small real-time rendering backend.
//!
//! Everything that talks to the GPU lives outside this crate; what is here
//! decides: which device and queue family to use, how the swapchain is
//! configured from the surface's capabilities, what the fixed graphics
//! pipeline declares, and which commands are recorded for a scene.
pub mod error;
pub mod scene;
pub mod pipeline;
pub mod recorder;
pub mod render;
pub mod selection;
pub mod swapchain;
