//! The tileset that the world is drawn from.

use vstd::prelude::*;
use crate::rendering::utils::{
    pixel_sampler, rgba_null_texture, spec_pixel_sampler, spec_rgba_null_texture, ImmutableImage,
    Sampler,
};

verus! {

/// The size of a tileset image in texels, as the shader takes it.
#[derive(Clone, Copy, Debug, PartialEq, Eq, Structural)]
pub struct TileSetSize {
    pub width: i32,
    pub height: i32,
}

/// The tileset as a pipeline reads it: the image through a sampler, and
/// its size as a uniform.
#[derive(Clone, Copy, Debug, PartialEq, Eq, Structural)]
pub struct TilesetDescriptorSet {
    pub image: ImmutableImage,
    pub sampler: Sampler,
    pub size: TileSetSize,
}

/// A tileset image with its size.
#[derive(Clone, Copy, Debug, PartialEq, Eq, Structural)]
pub struct TileSetInfo {
    pub image: ImmutableImage,
    pub size: TileSetSize,
}

impl TileSetInfo {
    /// The tileset in use until one is loaded: the null texture, one texel
    /// wide and high.
    pub open spec fn spec_new_empty() -> TileSetInfo {
        TileSetInfo { image: spec_rgba_null_texture(), size: TileSetSize { width: 1, height: 1 } }
    }

    /// The tileset bound for drawing: read through the pixel sampler.
    pub open spec fn spec_create_descriptor_set(self) -> TilesetDescriptorSet {
        TilesetDescriptorSet { image: self.image, sampler: spec_pixel_sampler(), size: self.size }
    }

    pub fn new_empty() -> (info: TileSetInfo)
        ensures
            info == Self::spec_new_empty(),
    {
        TileSetInfo { image: rgba_null_texture(), size: TileSetSize { width: 1, height: 1 } }
    }

    pub fn create_descriptor_set(&self) -> (descriptor_set: TilesetDescriptorSet)
        ensures
            descriptor_set == self.spec_create_descriptor_set(),
    {
        TilesetDescriptorSet { image: self.image, sampler: pixel_sampler(), size: self.size }
    }
}

} // verus!
