//! Decision logic of a small real-time renderer: adapter selection,
//! swapchain parameters, pipeline description, the per-frame
//! synchronization protocol and the order in which GPU objects live and die.

pub mod constants;
pub mod device;
pub mod swapchain;
pub mod frame;
pub mod lifecycle;
pub mod framebuffer;
pub mod command_buffer;
pub mod pipeline;
pub mod error;
pub mod instance;
