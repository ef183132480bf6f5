//! Frame orchestration for a tile-rendering engine.
//!
//! The library decides; the platform acts. Every graphics object is held here
//! as a plain description of what the platform holds, and every answer of the
//! platform comes in as a plain value. What the verified code fixes is the
//! order of the work: when the swapchain is recreated, which framebuffer a
//! frame draws to, which commands a frame records, and which completion
//! handle the next frame waits for.

pub mod game;
pub mod input;
pub mod rendering;
pub mod resources;
