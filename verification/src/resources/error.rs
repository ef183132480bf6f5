//! Why a decoded image cannot serve as a texture.

use vstd::prelude::*;

verus! {

/// The layout of the samples of a pixel.
#[derive(Clone, Copy, Debug, PartialEq, Eq, Structural)]
pub enum ColorType {
    Grayscale,
    RGB,
    Indexed,
    GrayscaleAlpha,
    RGBA,
}

/// The number of bits of a sample.
#[derive(Clone, Copy, Debug, PartialEq, Eq, Structural)]
pub enum BitDepth {
    One,
    Two,
    Four,
    Eight,
    Sixteen,
}

#[derive(Clone, Copy, Debug, PartialEq, Eq, Structural)]
pub enum Error {
    /// Textures are colour images, with or without alpha.
    UnsupportedColorType(ColorType),
    /// Textures have one byte a sample.
    UnsupportedBitDepth(BitDepth),
}

} // verus!
