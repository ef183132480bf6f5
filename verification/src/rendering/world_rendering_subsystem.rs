//! The world renderer: the collaborator that records the draw subpass.
//!
//! Vertices, indices and matrices stay with the platform, which finds them
//! again by key; what is decided here is which of them a draw goes with.

use vstd::prelude::*;
use crate::rendering::command_buffer::SecondaryCommands;
use crate::rendering::framebuffer::{DynamicState, Subpass};
use crate::rendering::utils::{
    pixel_sampler, rgba_null_texture, spec_pixel_sampler, spec_rgba_null_texture, ImmutableImage,
    Sampler,
};

verus! {

/// A uniform buffer holding the view and projection matrices, by key.
#[derive(Clone, Copy, Debug, PartialEq, Eq, Structural)]
pub struct WorldData {
    pub key: u64,
}

/// An image as a pipeline samples it.
#[derive(Clone, Copy, Debug, PartialEq, Eq, Structural)]
pub struct SampledImage {
    pub image: ImmutableImage,
    pub sampler: Sampler,
}

/// A mesh to draw: its vertex and index buffers with its transform, by key.
#[derive(Clone, Copy, Debug, PartialEq, Eq, Structural)]
pub struct Mesh {
    pub key: u64,
}

/// One indexed draw of the world pipeline with everything it is bound to.
#[derive(Clone, Copy, Debug, PartialEq, Eq, Structural)]
pub struct WorldDraw {
    pub dynamic_state: DynamicState,
    pub world: WorldData,
    pub tileset: SampledImage,
    pub mesh: Mesh,
}

/// The world renderer, bound to the subpass it draws in, to the matrices
/// and to the tileset.
#[derive(Clone, Copy, Debug, PartialEq, Eq, Structural)]
pub struct WorldRenderingSubsystem {
    pub subpass: Subpass,
    pub world_descriptor_set: WorldData,
    pub tileset_descriptor_set: SampledImage,
}

impl WorldRenderingSubsystem {
    /// The renderer for `subpass` over the matrices `view`; until a tileset
    /// is loaded it samples the null texture.
    pub open spec fn spec_new(subpass: Subpass, view: WorldData) -> WorldRenderingSubsystem {
        WorldRenderingSubsystem {
            subpass,
            world_descriptor_set: view,
            tileset_descriptor_set: SampledImage {
                image: spec_rgba_null_texture(),
                sampler: spec_pixel_sampler(),
            },
        }
    }

    pub open spec fn spec_update_view(self, view: WorldData) -> WorldRenderingSubsystem {
        WorldRenderingSubsystem { world_descriptor_set: view, ..self }
    }

    /// This renderer sampling `tileset`, through the pixel sampler, in
    /// place of the tileset it had.
    pub open spec fn spec_update_tileset(self, tileset: ImmutableImage) -> WorldRenderingSubsystem {
        WorldRenderingSubsystem {
            tileset_descriptor_set: SampledImage { image: tileset, sampler: spec_pixel_sampler() },
            ..self
        }
    }

    /// The draw of `mesh` for this renderer's subpass, bound to the matrices
    /// and the tileset that the renderer holds now.
    pub open spec fn spec_draw(self, dynamic_state: DynamicState, mesh: Mesh) -> SecondaryCommands {
        SecondaryCommands::World {
            subpass: self.subpass,
            draw: WorldDraw {
                dynamic_state,
                world: self.world_descriptor_set,
                tileset: self.tileset_descriptor_set,
                mesh,
            },
        }
    }

    pub fn new(subpass: Subpass, view: WorldData) -> (system: WorldRenderingSubsystem)
        ensures
            system == Self::spec_new(subpass, view),
    {
        WorldRenderingSubsystem {
            subpass,
            world_descriptor_set: view,
            tileset_descriptor_set: SampledImage {
                image: rgba_null_texture(),
                sampler: pixel_sampler(),
            },
        }
    }

    pub fn update_view(&mut self, view: WorldData)
        ensures
            *final(self) == old(self).spec_update_view(view),
    {
        self.world_descriptor_set = view;
    }

    pub fn update_tileset(&mut self, tileset: ImmutableImage)
        ensures
            *final(self) == old(self).spec_update_tileset(tileset),
    {
        self.tileset_descriptor_set = SampledImage { image: tileset, sampler: pixel_sampler() };
    }

    pub fn draw(&self, dynamic_state: &DynamicState, mesh: Mesh) -> (commands: SecondaryCommands)
        ensures
            commands == self.spec_draw(*dynamic_state, mesh),
    {
        SecondaryCommands::World {
            subpass: self.subpass,
            draw: WorldDraw {
                dynamic_state: *dynamic_state,
                world: self.world_descriptor_set,
                tileset: self.tileset_descriptor_set,
                mesh,
            },
        }
    }
}

} // verus!
