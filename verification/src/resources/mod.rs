//! What is computed of loaded assets once they are read: whether a decoded
//! image can serve as a texture, and how a tile layer is cut into chunks.

pub mod chunk;
pub mod error;
pub mod texture;
