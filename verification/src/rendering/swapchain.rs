//! The presentable surface: its swapchain generations and what the platform
//! answers when asked to recreate one or to hand out its next image.

use vstd::prelude::*;

verus! {

/// Width and height of a surface or an image, in pixels.
#[derive(Clone, Copy, Debug, PartialEq, Eq, Structural)]
pub struct Dimensions {
    pub width: u32,
    pub height: u32,
}

impl Dimensions {
    pub fn new(width: u32, height: u32) -> (dimensions: Dimensions)
        ensures
            dimensions == (Dimensions { width, height }),
    {
        Dimensions { width, height }
    }
}

/// One generation of presentable images: everything sized to it is replaced
/// together with it.
#[derive(Clone, Copy, Debug, PartialEq, Eq, Structural)]
pub struct Swapchain {
    /// Counts the recreations, so that images of different generations differ.
    pub generation: u64,
    pub num_images: usize,
    pub dimensions: Dimensions,
}

/// The image at `index` of the swapchain generation `generation`.
#[derive(Clone, Copy, Debug, PartialEq, Eq, Structural)]
pub struct SwapchainImage {
    pub generation: u64,
    pub index: usize,
}

/// The generation that follows `generation`; the count starts over after the
/// largest `u64`.
pub open spec fn next_generation(generation: u64) -> u64 {
    if generation == u64::MAX {
        0
    } else {
        (generation + 1) as u64
    }
}

impl Swapchain {
    /// The images of this generation, in index order.
    pub open spec fn spec_images(self) -> Seq<SwapchainImage> {
        Seq::new(
            self.num_images as nat,
            |i: int| (SwapchainImage { generation: self.generation, index: i as usize }),
        )
    }

    /// The generation that replaces this one when the platform has built
    /// `num_images` images of size `dimensions`.
    pub open spec fn spec_recreated(self, num_images: usize, dimensions: Dimensions) -> Swapchain {
        Swapchain { generation: next_generation(self.generation), num_images, dimensions }
    }

    /// The first generation of a surface.
    pub fn new(num_images: usize, dimensions: Dimensions) -> (swapchain: Swapchain)
        ensures
            swapchain == (Swapchain { generation: 0, num_images, dimensions }),
    {
        Swapchain { generation: 0, num_images, dimensions }
    }

    pub fn recreated(&self, num_images: usize, dimensions: Dimensions) -> (swapchain: Swapchain)
        ensures
            swapchain == self.spec_recreated(num_images, dimensions),
    {
        let generation: u64 = if self.generation == u64::MAX {
            0
        } else {
            self.generation + 1
        };
        Swapchain { generation, num_images, dimensions }
    }

    pub fn images(&self) -> (images: Vec<SwapchainImage>)
        ensures
            images@ == self.spec_images(),
    {
        let mut images: Vec<SwapchainImage> = Vec::new();
        let mut index: usize = 0;
        while index < self.num_images
            invariant
                index <= self.num_images,
                images@.len() == index,
                forall|i: int|
                    0 <= i < index ==> images@[i] == (SwapchainImage {
                        generation: self.generation,
                        index: i as usize,
                    }),
            decreases self.num_images - index,
        {
            images.push(SwapchainImage { generation: self.generation, index });
            index = index + 1;
        }
        assert(images@ =~= self.spec_images());
        images
    }
}

/// What the platform answered when asked to recreate the swapchain at the
/// surface's current extent. A failure that ends the process never gets here.
#[derive(Clone, Copy, Debug, PartialEq, Eq, Structural)]
pub enum RecreateOutcome {
    /// A new generation of `num_images` images of size `dimensions` stands.
    Recreated { num_images: usize, dimensions: Dimensions },
    /// The surface has no renderable extent now (a minimized window).
    UnsupportedDimensions,
}

/// What the platform answered when asked for the next image of the swapchain.
#[derive(Clone, Copy, Debug, PartialEq, Eq, Structural)]
pub enum AcquireOutcome {
    /// The image at `image_index` is the frame's; where `suboptimal` is set
    /// the swapchain no longer matches the surface but can still be shown.
    Acquired { image_index: usize, suboptimal: bool },
    /// The swapchain no longer matches the surface and hands out no image.
    OutOfDate,
}

/// What the platform answered when a frame was submitted and flushed.
#[derive(Clone, Copy, Debug, PartialEq, Eq, Structural)]
pub enum FlushOutcome {
    /// The work is queued; its fence becomes the next wait point.
    Flushed,
    /// The swapchain went out of date between acquisition and presentation.
    OutOfDate,
    /// Any other failure of the flush.
    Failed,
}

} // verus!
