//! Small resources that every pipeline shares: the sampler that reads
//! texels as they are, and the texture that stands in for a missing one.

use vstd::prelude::*;
use crate::rendering::swapchain::Dimensions;

verus! {

/// How a sampler picks among neighbouring texels.
#[derive(Clone, Copy, Debug, PartialEq, Eq, Structural)]
pub enum Filter {
    Nearest,
    Linear,
}

/// What a sampler reads outside of the image.
#[derive(Clone, Copy, Debug, PartialEq, Eq, Structural)]
pub enum SamplerAddressMode {
    Repeat,
    ClampToEdge,
}

#[derive(Clone, Copy, Debug, PartialEq, Eq, Structural)]
pub struct Sampler {
    pub mag_filter: Filter,
    pub min_filter: Filter,
    pub mipmap_filter: Filter,
    pub address_mode: SamplerAddressMode,
}

/// The sampler for pixel art: the nearest texel at every scale, and the
/// edge texel outside of the image.
pub open spec fn spec_pixel_sampler() -> Sampler {
    Sampler {
        mag_filter: Filter::Nearest,
        min_filter: Filter::Nearest,
        mipmap_filter: Filter::Nearest,
        address_mode: SamplerAddressMode::ClampToEdge,
    }
}

pub fn pixel_sampler() -> (sampler: Sampler)
    ensures
        sampler == spec_pixel_sampler(),
{
    Sampler {
        mag_filter: Filter::Nearest,
        min_filter: Filter::Nearest,
        mipmap_filter: Filter::Nearest,
        address_mode: SamplerAddressMode::ClampToEdge,
    }
}

/// What an image holds.
#[derive(Clone, Copy, Debug, PartialEq, Eq, Structural)]
pub enum Texels {
    /// The same colour everywhere, by channel.
    Solid { red: u8, green: u8, blue: u8, alpha: u8 },
    /// Texels that the platform uploaded and finds again by `key`.
    Uploaded { key: u64 },
}

/// A sampled image that is written once.
#[derive(Clone, Copy, Debug, PartialEq, Eq, Structural)]
pub struct ImmutableImage {
    pub dimensions: Dimensions,
    pub texels: Texels,
}

/// The texture bound where none was loaded yet: one opaque magenta texel.
pub open spec fn spec_rgba_null_texture() -> ImmutableImage {
    ImmutableImage {
        dimensions: Dimensions { width: 1, height: 1 },
        texels: Texels::Solid { red: 255, green: 0, blue: 255, alpha: 255 },
    }
}

pub fn rgba_null_texture() -> (image: ImmutableImage)
    ensures
        image == spec_rgba_null_texture(),
{
    ImmutableImage {
        dimensions: Dimensions { width: 1, height: 1 },
        texels: Texels::Solid { red: 255, green: 0, blue: 255, alpha: 255 },
    }
}

} // verus!
