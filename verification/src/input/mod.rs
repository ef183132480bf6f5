//! Input between two frames: which keys and buttons are held, and what
//! changed since the last flush.

pub mod device_input_state;
pub mod input_state;
