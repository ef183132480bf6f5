//! Off-screen attachments, the render pass they are drawn in, and the
//! framebuffers that bind them to the swapchain's images.

use vstd::prelude::*;
use crate::rendering::swapchain::{Dimensions, SwapchainImage};

verus! {

/// The texel formats of the off-screen attachments.
#[allow(non_camel_case_types)]
#[derive(Clone, Copy, Debug, PartialEq, Eq, Structural)]
pub enum Format {
    /// Packed colour of ten bits a channel: sampled and rendered to.
    A2B10G10R10UnormPack32,
    /// Depth of 24 bits with a stencil of eight.
    D24Unorm_S8Uint,
}

/// A transient image that one subpass writes and a later one reads as input.
#[derive(Clone, Copy, Debug, PartialEq, Eq, Structural)]
pub struct AttachmentImage {
    /// The swapchain generation that the image was allocated for: images of
    /// different generations differ even where their sizes agree.
    pub generation: u64,
    pub dimensions: Dimensions,
    pub format: Format,
}

impl AttachmentImage {
    pub open spec fn spec_transient_input_attachment(
        generation: u64,
        dimensions: Dimensions,
        format: Format,
    ) -> AttachmentImage {
        AttachmentImage { generation, dimensions, format }
    }

    pub fn transient_input_attachment(
        generation: u64,
        dimensions: Dimensions,
        format: Format,
    ) -> (image: AttachmentImage)
        ensures
            image == Self::spec_transient_input_attachment(generation, dimensions, format),
    {
        AttachmentImage { generation, dimensions, format }
    }
}

/// The off-screen images of one swapchain generation. There is no way to
/// resize a set: a new swapchain takes a new set.
#[derive(Clone, Copy, Debug, PartialEq, Eq, Structural)]
pub struct Attachments {
    pub diffuse: AttachmentImage,
    pub depth: AttachmentImage,
}

impl Attachments {
    /// The set of size `dimensions` for the swapchain generation
    /// `generation`: packed colour and depth with stencil.
    pub open spec fn spec_new(generation: u64, dimensions: Dimensions) -> Attachments {
        Attachments {
            diffuse: AttachmentImage {
                generation,
                dimensions,
                format: Format::A2B10G10R10UnormPack32,
            },
            depth: AttachmentImage { generation, dimensions, format: Format::D24Unorm_S8Uint },
        }
    }

    /// The one size that both images of a well-formed set have.
    pub open spec fn spec_dimensions(self) -> Dimensions {
        self.diffuse.dimensions
    }

    pub fn new(generation: u64, dimensions: Dimensions) -> (attachments: Attachments)
        ensures
            attachments == Self::spec_new(generation, dimensions),
            attachments.spec_dimensions() == dimensions,
            attachments.depth.dimensions == dimensions,
    {
        let diffuse = AttachmentImage::transient_input_attachment(
            generation,
            dimensions,
            Format::A2B10G10R10UnormPack32,
        );
        let depth = AttachmentImage::transient_input_attachment(
            generation,
            dimensions,
            Format::D24Unorm_S8Uint,
        );
        Attachments { diffuse, depth }
    }

    pub fn dimensions(&self) -> (dimensions: Dimensions)
        ensures
            dimensions == self.spec_dimensions(),
    {
        self.diffuse.dimensions
    }
}

/// What is done to an attachment when the render pass begins.
#[derive(Clone, Copy, Debug, PartialEq, Eq, Structural)]
pub enum LoadOp {
    Load,
    Clear,
    DontCare,
}

/// What is done to an attachment when the render pass ends.
#[derive(Clone, Copy, Debug, PartialEq, Eq, Structural)]
pub enum StoreOp {
    Store,
    DontCare,
}

/// The format of an attachment of the render pass: that of the swapchain,
/// which the surface chooses, or a fixed one.
#[derive(Clone, Copy, Debug, PartialEq, Eq, Structural)]
pub enum AttachmentFormat {
    OfSwapchain,
    Fixed(Format),
}

/// How the render pass treats one of its attachments.
#[derive(Clone, Copy, Debug, PartialEq, Eq, Structural)]
pub struct AttachmentDescription {
    pub format: AttachmentFormat,
    pub load: LoadOp,
    pub store: StoreOp,
    pub samples: u32,
}

/// The attachments of the render pass, in the order of a framebuffer's
/// slots.
#[derive(Clone, Copy, Debug, PartialEq, Eq, Structural)]
pub enum AttachmentSlot {
    FinalColor,
    Diffuse,
    Depth,
}

/// What one subpass writes and what it reads of what an earlier one wrote.
#[derive(Clone, Copy, Debug, PartialEq, Eq, Structural)]
pub struct SubpassDescription {
    /// The attachment that colour is written to.
    pub color: AttachmentSlot,
    /// The attachment that depth is tested against and written to.
    pub depth_stencil: Option<AttachmentSlot>,
    /// The colour attachment read as input.
    pub color_input: Option<AttachmentSlot>,
    /// The depth attachment read as input.
    pub depth_input: Option<AttachmentSlot>,
}

/// The one render pass of a frame: a subpass that draws the world into the
/// off-screen attachments, then one that reads them and writes the
/// presentable image.
#[derive(Clone, Copy, Debug, PartialEq, Eq, Structural)]
pub struct RenderPass {
    pub final_color: AttachmentDescription,
    pub diffuse: AttachmentDescription,
    pub depth: AttachmentDescription,
    /// The first subpass.
    pub draw: SubpassDescription,
    /// The second subpass.
    pub compose: SubpassDescription,
}

/// The subpass that collaborators draw the world in.
pub const DRAW_SUBPASS: u32 = 0;

/// The subpass that merges the attachments into the presentable image.
pub const COMPOSE_SUBPASS: u32 = 1;

impl RenderPass {
    /// The pass of a frame. All three attachments are cleared when it
    /// begins, and only the presentable image is kept when it ends. The draw
    /// subpass writes colour and depth of the off-screen attachments and
    /// reads nothing; the composition subpass reads both of them as input
    /// and writes the presentable image.
    pub open spec fn spec_deferred() -> RenderPass {
        RenderPass {
            final_color: AttachmentDescription {
                format: AttachmentFormat::OfSwapchain,
                load: LoadOp::Clear,
                store: StoreOp::Store,
                samples: 1,
            },
            diffuse: AttachmentDescription {
                format: AttachmentFormat::Fixed(Format::A2B10G10R10UnormPack32),
                load: LoadOp::Clear,
                store: StoreOp::DontCare,
                samples: 1,
            },
            depth: AttachmentDescription {
                format: AttachmentFormat::Fixed(Format::D24Unorm_S8Uint),
                load: LoadOp::Clear,
                store: StoreOp::DontCare,
                samples: 1,
            },
            draw: SubpassDescription {
                color: AttachmentSlot::Diffuse,
                depth_stencil: Some(AttachmentSlot::Depth),
                color_input: None,
                depth_input: None,
            },
            compose: SubpassDescription {
                color: AttachmentSlot::FinalColor,
                depth_stencil: None,
                color_input: Some(AttachmentSlot::Diffuse),
                depth_input: Some(AttachmentSlot::Depth),
            },
        }
    }

    /// A render pass has its two subpasses and no other.
    pub open spec fn spec_num_subpasses(self) -> u32 {
        2
    }

    /// The subpass at `index`, where the pass has one.
    pub open spec fn spec_subpass(self, index: u32) -> Option<SubpassDescription> {
        if index == DRAW_SUBPASS {
            Some(self.draw)
        } else if index == COMPOSE_SUBPASS {
            Some(self.compose)
        } else {
            None
        }
    }

    /// How the pass treats the attachment in `slot`.
    pub open spec fn spec_attachment(self, slot: AttachmentSlot) -> AttachmentDescription {
        match slot {
            AttachmentSlot::FinalColor => self.final_color,
            AttachmentSlot::Diffuse => self.diffuse,
            AttachmentSlot::Depth => self.depth,
        }
    }

    pub fn deferred() -> (render_pass: RenderPass)
        ensures
            render_pass == Self::spec_deferred(),
    {
        RenderPass {
            final_color: AttachmentDescription {
                format: AttachmentFormat::OfSwapchain,
                load: LoadOp::Clear,
                store: StoreOp::Store,
                samples: 1,
            },
            diffuse: AttachmentDescription {
                format: AttachmentFormat::Fixed(Format::A2B10G10R10UnormPack32),
                load: LoadOp::Clear,
                store: StoreOp::DontCare,
                samples: 1,
            },
            depth: AttachmentDescription {
                format: AttachmentFormat::Fixed(Format::D24Unorm_S8Uint),
                load: LoadOp::Clear,
                store: StoreOp::DontCare,
                samples: 1,
            },
            draw: SubpassDescription {
                color: AttachmentSlot::Diffuse,
                depth_stencil: Some(AttachmentSlot::Depth),
                color_input: None,
                depth_input: None,
            },
            compose: SubpassDescription {
                color: AttachmentSlot::FinalColor,
                depth_stencil: None,
                color_input: Some(AttachmentSlot::Diffuse),
                depth_input: Some(AttachmentSlot::Depth),
            },
        }
    }

    pub fn num_subpasses(&self) -> (count: u32)
        ensures
            count == self.spec_num_subpasses(),
    {
        2
    }

    pub fn subpass(&self, index: u32) -> (subpass: Option<SubpassDescription>)
        ensures
            subpass == self.spec_subpass(index),
    {
        if index == DRAW_SUBPASS {
            Some(self.draw)
        } else if index == COMPOSE_SUBPASS {
            Some(self.compose)
        } else {
            None
        }
    }

    pub fn attachment(&self, slot: AttachmentSlot) -> (attachment: AttachmentDescription)
        ensures
            attachment == self.spec_attachment(slot),
    {
        match slot {
            AttachmentSlot::FinalColor => self.final_color,
            AttachmentSlot::Diffuse => self.diffuse,
            AttachmentSlot::Depth => self.depth,
        }
    }
}

/// One subpass of a render pass.
#[derive(Clone, Copy, Debug, PartialEq, Eq, Structural)]
pub struct Subpass {
    pub render_pass: RenderPass,
    pub index: u32,
}

impl Subpass {
    /// The subpass at `index`, where the pass has one.
    pub open spec fn spec_from(render_pass: RenderPass, index: u32) -> Option<Subpass> {
        if index < render_pass.spec_num_subpasses() {
            Some(Subpass { render_pass, index })
        } else {
            None
        }
    }

    /// What the subpass writes and reads.
    pub open spec fn spec_description(self) -> Option<SubpassDescription> {
        self.render_pass.spec_subpass(self.index)
    }

    pub fn description(&self) -> (description: Option<SubpassDescription>)
        ensures
            description == self.spec_description(),
    {
        self.render_pass.subpass(self.index)
    }

    pub fn from(render_pass: RenderPass, index: u32) -> (subpass: Option<Subpass>)
        ensures
            subpass == Self::spec_from(render_pass, index),
    {
        if index < render_pass.num_subpasses() {
            Some(Subpass { render_pass, index })
        } else {
            None
        }
    }
}

/// The part of the target that is drawn to: always the whole of it, from the
/// origin, over the full depth range.
#[derive(Clone, Copy, Debug, PartialEq, Eq, Structural)]
pub struct Viewport {
    pub dimensions: Dimensions,
}

/// The pipeline state that is set when drawing, not when a pipeline is built.
#[derive(Clone, Copy, Debug, PartialEq, Eq, Structural)]
pub struct DynamicState {
    pub viewport: Option<Viewport>,
}

impl DynamicState {
    pub fn none() -> (state: DynamicState)
        ensures
            state == (DynamicState { viewport: None }),
    {
        DynamicState { viewport: None }
    }
}

/// The render targets of one swapchain image, slot by slot in the order of
/// the render pass: the presentable image, then colour, then depth.
#[derive(Clone, Copy, Debug, PartialEq, Eq, Structural)]
pub struct Framebuffer {
    pub final_color: SwapchainImage,
    pub diffuse: AttachmentImage,
    pub depth: AttachmentImage,
}

/// One framebuffer for each image, in the images' order, all over the same
/// attachments.
pub open spec fn spec_framebuffers(
    swapchain_images: Seq<SwapchainImage>,
    attachments: Attachments,
) -> Seq<Framebuffer> {
    Seq::new(
        swapchain_images.len(),
        |i: int|
            (Framebuffer {
                final_color: swapchain_images[i],
                diffuse: attachments.diffuse,
                depth: attachments.depth,
            }),
    )
}

/// Sets the viewport to the whole of `dimensions` and binds each swapchain
/// image to the attachments. To be called whenever either was replaced.
pub fn create_framebuffers(
    dimensions: Dimensions,
    swapchain_images: Vec<SwapchainImage>,
    attachments: &Attachments,
    dynamic_state: &mut DynamicState,
) -> (framebuffers: Vec<Framebuffer>)
    ensures
        framebuffers@ == spec_framebuffers(swapchain_images@, *attachments),
        framebuffers@.len() == swapchain_images@.len(),
        *final(dynamic_state) == (DynamicState { viewport: Some(Viewport { dimensions }) }),
{
    dynamic_state.viewport = Some(Viewport { dimensions });
    let mut framebuffers: Vec<Framebuffer> = Vec::new();
    let mut index: usize = 0;
    while index < swapchain_images.len()
        invariant
            index <= swapchain_images@.len(),
            framebuffers@.len() == index,
            forall|i: int|
                0 <= i < index ==> framebuffers@[i] == (Framebuffer {
                    final_color: swapchain_images@[i],
                    diffuse: attachments.diffuse,
                    depth: attachments.depth,
                }),
        decreases swapchain_images@.len() - index,
    {
        framebuffers.push(
            Framebuffer {
                final_color: swapchain_images[index],
                diffuse: attachments.diffuse,
                depth: attachments.depth,
            },
        );
        index = index + 1;
    }
    assert(framebuffers@ =~= spec_framebuffers(swapchain_images@, *attachments));
    framebuffers
}

} // verus!
