//! Vulkan based library which aims to make interaction with graphics API easier.
//!
//! The crate holds the decisions of the library as verified code: memory layouts and
//! alignment, memory type selection, hardware descriptions and their filters, surface
//! capabilities, pipeline and render pass plans. Every call that reaches the GPU driver
//! is made by the companion application crate, which hands plain values to this one.

pub mod offset;
pub mod flags;
pub mod layout;
pub mod search;
pub mod hw;
pub mod memory;
pub mod surface;
pub mod graphics;
pub mod pipeline;
pub mod compute;
pub mod cmd;
pub mod sync;
pub mod queue;
pub mod swapchain;
pub mod libvk;
pub mod shader;
pub mod dev;
pub mod window;
pub mod specialization;
