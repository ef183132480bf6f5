//! The render path: presentable surface, off-screen attachments, command
//! recording and the frame state machine.

pub mod command_buffer;
pub mod composing_subsystem;
pub mod frame_subsystem;
pub mod framebuffer;
pub mod swapchain;
pub mod sync;
pub mod tileset_data;
pub mod utils;
pub mod world_rendering_subsystem;
