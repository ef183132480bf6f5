//! Decoded images as textures.

use vstd::prelude::*;
use crate::resources::error::{BitDepth, ColorType, Error};

verus! {

/// The header of a decoded image.
#[derive(Clone, Copy, Debug, PartialEq, Eq, Structural)]
pub struct OutputInfo {
    pub width: u32,
    pub height: u32,
    pub color_type: ColorType,
    pub bit_depth: BitDepth,
}

impl ColorType {
    /// The number of samples of a pixel.
    pub open spec fn spec_samples(self) -> nat {
        match self {
            ColorType::Grayscale => 1,
            ColorType::RGB => 3,
            ColorType::Indexed => 1,
            ColorType::GrayscaleAlpha => 2,
            ColorType::RGBA => 4,
        }
    }

    pub fn samples(&self) -> (samples: usize)
        ensures
            samples == self.spec_samples(),
    {
        match self {
            ColorType::Grayscale => 1,
            ColorType::RGB => 3,
            ColorType::Indexed => 1,
            ColorType::GrayscaleAlpha => 2,
            ColorType::RGBA => 4,
        }
    }
}

impl OutputInfo {
    /// Whether the image can serve as a texture: the colour type is judged
    /// first, then the bit depth.
    pub open spec fn spec_check(self) -> Result<(), Error> {
        if !(self.color_type is RGB || self.color_type is RGBA) {
            Err(Error::UnsupportedColorType(self.color_type))
        } else if !(self.bit_depth is Eight) {
            Err(Error::UnsupportedBitDepth(self.bit_depth))
        } else {
            Ok(())
        }
    }

    /// The number of bytes of the image with one byte a sample. The pixels
    /// are counted in 32 bits and the bytes in a `usize`; an image beyond
    /// either has no size.
    pub open spec fn spec_buffer_len(self) -> Option<usize> {
        let pixels = self.width * self.height;
        let bytes = pixels * self.color_type.spec_samples();
        if pixels <= u32::MAX && bytes <= usize::MAX {
            Some(bytes as usize)
        } else {
            None
        }
    }

    /// Accepts colour images of one byte a sample and says of any other
    /// what is wrong with it.
    pub fn check(&self) -> (checked: Result<(), Error>)
        ensures
            checked == self.spec_check(),
    {
        match self.color_type {
            ColorType::RGB | ColorType::RGBA => {},
            _ => {
                return Err(Error::UnsupportedColorType(self.color_type));
            },
        }
        match self.bit_depth {
            BitDepth::Eight => {},
            _ => {
                return Err(Error::UnsupportedBitDepth(self.bit_depth));
            },
        }
        Ok(())
    }

    /// The size of the buffer that the image is decoded into.
    pub fn buffer_len(&self) -> (len: Option<usize>)
        ensures
            len == self.spec_buffer_len(),
    {
        assert(self.width * self.height <= 0xffff_ffff * 0xffff_ffff) by (nonlinear_arith)
            requires
                self.width <= 0xffff_ffff,
                self.height <= 0xffff_ffff,
        ;
        let pixels: u64 = self.width as u64 * self.height as u64;
        if pixels > u32::MAX as u64 {
            return None;
        }
        let samples: u64 = self.color_type.samples() as u64;
        assert(pixels * samples <= 0xffff_ffff * 4) by (nonlinear_arith)
            requires
                pixels <= 0xffff_ffff,
                samples <= 4,
        ;
        let bytes: u64 = pixels * samples;
        if bytes <= usize::MAX as u64 {
            Some(bytes as usize)
        } else {
            None
        }
    }
}

} // verus!
