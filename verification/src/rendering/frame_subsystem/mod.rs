//! The frame orchestrator: it owns the swapchain, the attachments sized to
//! it, the framebuffers over both, the composition stage and the completion
//! handle retained between frames.
//!
//! Acquiring a frame takes up to two answers of the platform, so it runs in
//! steps, each a handle that borrows the orchestrator exclusively:
//! [`FrameSubsystem::frame`] says what to ask first, [`Recreation::recreated`]
//! takes the answer on a new swapchain, [`ImageAcquisition::acquired`] the
//! answer on the next image, and only that one yields a [`Frame`].

pub mod frame;
pub mod theorems;

use vstd::prelude::*;
use crate::rendering::composing_subsystem::{ComposingSubsystem, ComposingSystemInput};
use crate::rendering::frame_subsystem::frame::{Frame, FrameView};
use crate::rendering::framebuffer::{
    create_framebuffers, spec_framebuffers, Attachments, DynamicState, Framebuffer, RenderPass,
    Subpass, Viewport, COMPOSE_SUBPASS, DRAW_SUBPASS,
};
use crate::rendering::swapchain::{
    AcquireOutcome, Dimensions, FlushOutcome, RecreateOutcome, Swapchain,
};
use crate::rendering::sync::{CompletionHandle, Submitted};

verus! {

/// What the orchestrator holds, as mathematics.
pub struct FrameSubsystemView {
    pub swapchain: Swapchain,
    pub attachments: Attachments,
    pub render_pass: RenderPass,
    pub dynamic_state: DynamicState,
    pub framebuffers: Seq<Framebuffer>,
    /// Set when the swapchain no longer matches the surface.
    pub should_recreate_swapchain: bool,
    /// The submissions that the next frame's own has to wait for.
    pub frame_future: Seq<Submitted>,
    pub composing_system: ComposingSubsystem,
}

impl FrameSubsystemView {
    /// The orchestrator over `swapchain`, with everything that is sized to a
    /// swapchain built for this one.
    pub open spec fn over(
        swapchain: Swapchain,
        should_recreate_swapchain: bool,
        frame_future: Seq<Submitted>,
    ) -> FrameSubsystemView {
        let attachments = Attachments::spec_new(swapchain.generation, swapchain.dimensions);
        let render_pass = RenderPass::spec_deferred();
        FrameSubsystemView {
            swapchain,
            attachments,
            render_pass,
            dynamic_state: DynamicState { viewport: Some(Viewport { dimensions: swapchain.dimensions }) },
            framebuffers: spec_framebuffers(swapchain.spec_images(), attachments),
            should_recreate_swapchain,
            frame_future,
            composing_system: ComposingSubsystem::spec_new(
                Subpass { render_pass, index: COMPOSE_SUBPASS },
                ComposingSystemInput::spec_from(attachments),
            ),
        }
    }

    /// Swapchain, attachments, framebuffers, viewport and the composition
    /// stage's input all belong to one generation.
    pub open spec fn wf(self) -> bool {
        self == Self::over(self.swapchain, self.should_recreate_swapchain, self.frame_future)
    }

    /// The orchestrator as first built, over the swapchain that the platform
    /// created for the surface.
    pub open spec fn initial(num_images: usize, dimensions: Dimensions) -> FrameSubsystemView {
        Self::over(
            Swapchain { generation: 0, num_images, dimensions },
            false,
            Seq::empty(),
        )
    }

    /// Whether the acquisition of the next frame starts by recreating the
    /// swapchain: it does exactly when the swapchain is marked.
    pub open spec fn recreates_first(self) -> bool {
        self.should_recreate_swapchain
    }

    /// After a notice that the surface changed: nothing but the mark.
    pub open spec fn invalidated(self) -> FrameSubsystemView {
        FrameSubsystemView { should_recreate_swapchain: true, ..self }
    }

    /// After the platform built a new swapchain: everything sized to the old
    /// one is replaced with it, and the mark is cleared.
    pub open spec fn recreated(self, num_images: usize, dimensions: Dimensions) -> FrameSubsystemView {
        Self::over(self.swapchain.spec_recreated(num_images, dimensions), false, self.frame_future)
    }

    /// After the platform handed out an image: a suboptimal swapchain serves
    /// this frame and is marked for the next.
    pub open spec fn acquired(self, suboptimal: bool) -> FrameSubsystemView {
        FrameSubsystemView {
            should_recreate_swapchain: self.should_recreate_swapchain || suboptimal,
            ..self
        }
    }

    /// After `submitted` was handed to the queue with answer `outcome`. The
    /// retained handle is replaced whatever the answer: by the fence of this
    /// submission, or by a handle that waits for nothing.
    pub open spec fn flushed(self, outcome: FlushOutcome, submitted: Submitted) -> FrameSubsystemView {
        match outcome {
            FlushOutcome::Flushed => FrameSubsystemView {
                frame_future: self.frame_future.push(submitted),
                ..self
            },
            FlushOutcome::OutOfDate => FrameSubsystemView {
                should_recreate_swapchain: true,
                frame_future: Seq::empty(),
                ..self
            },
            FlushOutcome::Failed => FrameSubsystemView { frame_future: Seq::empty(), ..self },
        }
    }
}

/// The frame orchestrator.
pub struct FrameSubsystem {
    swapchain: Swapchain,
    attachments: Attachments,
    render_pass: RenderPass,
    dynamic_state: DynamicState,
    framebuffers: Vec<Framebuffer>,
    should_recreate_swapchain: bool,
    frame_future: CompletionHandle,
    composing_system: ComposingSubsystem,
}

impl View for FrameSubsystem {
    type V = FrameSubsystemView;

    closed spec fn view(&self) -> FrameSubsystemView {
        FrameSubsystemView {
            swapchain: self.swapchain,
            attachments: self.attachments,
            render_pass: self.render_pass,
            dynamic_state: self.dynamic_state,
            framebuffers: self.framebuffers@,
            should_recreate_swapchain: self.should_recreate_swapchain,
            frame_future: self.frame_future@,
            composing_system: self.composing_system,
        }
    }
}

impl FrameSubsystem {
    /// The orchestrator for a surface whose first swapchain has `num_images`
    /// images of size `dimensions`. Nothing is marked and nothing waited for.
    pub fn new(num_images: usize, dimensions: Dimensions) -> (system: FrameSubsystem)
        ensures
            system@ == FrameSubsystemView::initial(num_images, dimensions),
            system@.wf(),
            system@.render_pass == RenderPass::spec_deferred(),
    {
        let swapchain = Swapchain::new(num_images, dimensions);
        let swapchain_images = swapchain.images();
        let attachments = Attachments::new(swapchain.generation, dimensions);
        let render_pass = RenderPass::deferred();
        let mut dynamic_state = DynamicState::none();
        let framebuffers = create_framebuffers(
            dimensions,
            swapchain_images,
            &attachments,
            &mut dynamic_state,
        );
        let composing_system = ComposingSubsystem::new(
            Subpass { render_pass, index: COMPOSE_SUBPASS },
            ComposingSystemInput::from(attachments),
        );
        FrameSubsystem {
            swapchain,
            attachments,
            render_pass,
            dynamic_state,
            framebuffers,
            should_recreate_swapchain: false,
            frame_future: CompletionHandle::now(),
            composing_system,
        }
    }

    /// The subpass that collaborators record their world drawing for: the
    /// first of the render pass.
    pub fn deferred_subpass(&self) -> (subpass: Subpass)
        ensures
            subpass == (Subpass { render_pass: self@.render_pass, index: DRAW_SUBPASS }),
            subpass.spec_description() == Some(self@.render_pass.draw),
    {
        Subpass { render_pass: self.render_pass, index: DRAW_SUBPASS }
    }

    /// Notes that the surface changed. The swapchain is not touched now: it
    /// is recreated when the next frame is acquired.
    pub fn invalidate_swapchain(&mut self)
        ensures
            final(self)@ == old(self)@.invalidated(),
    {
        self.should_recreate_swapchain = true;
    }

    /// Starts the acquisition of a frame: the swapchain is to be recreated
    /// first exactly when it is marked, and its next image asked for
    /// otherwise. Nothing changes before the platform has answered.
    pub fn frame(&mut self) -> (acquisition: Acquisition<'_>)
        ensures
            acquisition is Recreate <==> old(self)@.recreates_first(),
            acquisition matches Acquisition::Recreate(step) ==> *step.borrowed() == *old(self)
                && *final(step.borrowed()) == *final(self),
            acquisition matches Acquisition::Acquire(step) ==> *step.borrowed() == *old(self)
                && *final(step.borrowed()) == *final(self),
    {
        if self.should_recreate_swapchain {
            Acquisition::Recreate(Recreation { system: self })
        } else {
            Acquisition::Acquire(ImageAcquisition { system: self })
        }
    }

    pub fn should_recreate_swapchain(&self) -> (marked: bool)
        ensures
            marked == self@.should_recreate_swapchain,
    {
        self.should_recreate_swapchain
    }

    pub fn swapchain(&self) -> (swapchain: &Swapchain)
        ensures
            *swapchain == self@.swapchain,
    {
        &self.swapchain
    }

    pub fn attachments(&self) -> (attachments: &Attachments)
        ensures
            *attachments == self@.attachments,
    {
        &self.attachments
    }

    /// The size that resources drawn into the attachments have to match.
    pub fn attachment_set_dimensions(&self) -> (dimensions: Dimensions)
        ensures
            dimensions == self@.attachments.spec_dimensions(),
    {
        self.attachments.dimensions()
    }

    pub fn render_pass(&self) -> (render_pass: &RenderPass)
        ensures
            *render_pass == self@.render_pass,
    {
        &self.render_pass
    }

    pub fn framebuffers(&self) -> (framebuffers: &Vec<Framebuffer>)
        ensures
            framebuffers@ == self@.framebuffers,
    {
        &self.framebuffers
    }

    pub fn dynamic_state(&self) -> (dynamic_state: &DynamicState)
        ensures
            *dynamic_state == self@.dynamic_state,
    {
        &self.dynamic_state
    }

    pub fn composing_system(&self) -> (composing_system: &ComposingSubsystem)
        ensures
            *composing_system == self@.composing_system,
    {
        &self.composing_system
    }

    /// The completion handle that the next frame's submission waits for.
    pub fn frame_future(&self) -> (frame_future: &CompletionHandle)
        ensures
            frame_future@ == self@.frame_future,
    {
        &self.frame_future
    }
}

/// What acquiring a frame asks of the platform first.
pub enum Acquisition<'s> {
    /// The swapchain is marked: it is to be recreated at the surface's
    /// current extent.
    Recreate(Recreation<'s>),
    /// The swapchain stands: its next image is to be acquired.
    Acquire(ImageAcquisition<'s>),
}

/// The orchestrator while the platform recreates the swapchain.
pub struct Recreation<'s> {
    system: &'s mut FrameSubsystem,
}

impl<'s> Recreation<'s> {
    /// The orchestrator that the step borrows.
    pub closed spec fn borrowed(&self) -> &mut FrameSubsystem {
        self.system
    }

    pub fn system(&self) -> (system: &FrameSubsystem)
        ensures
            *system == *self.borrowed(),
    {
        &*self.system
    }

    /// A step that is dropped leaves the orchestrator as the step held it.
    pub proof fn released(self)
        requires
            has_resolved(self),
        ensures
            *final(self.borrowed()) == *self.borrowed(),
    {
    }

    /// Takes the platform's answer. On a new swapchain everything sized to
    /// the old one is replaced in this one step, the composition stage reads
    /// the new attachments, the mark is cleared, and the image is to be
    /// acquired next. Where the surface has no renderable extent the frame
    /// is skipped and the orchestrator is left as it was, mark included.
    pub fn recreated(self, outcome: RecreateOutcome) -> (next: Option<ImageAcquisition<'s>>)
        requires
            self.borrowed()@.wf(),
        ensures
            match outcome {
                RecreateOutcome::Recreated { num_images, dimensions } => {
                    &&& next matches Some(step)
                    &&& step.borrowed()@ == self.borrowed()@.recreated(num_images, dimensions)
                    &&& step.borrowed()@.wf()
                    &&& *final(step.borrowed()) == *final(self.borrowed())
                },
                RecreateOutcome::UnsupportedDimensions => {
                    &&& next is None
                    &&& *final(self.borrowed()) == *self.borrowed()
                },
            },
    {
        let mut step = self;
        match outcome {
            RecreateOutcome::Recreated { num_images, dimensions } => {
                let swapchain = step.system.swapchain.recreated(num_images, dimensions);
                let swapchain_images = swapchain.images();
                step.system.swapchain = swapchain;
                step.system.attachments = Attachments::new(swapchain.generation, dimensions);
                step.system.framebuffers = create_framebuffers(
                    dimensions,
                    swapchain_images,
                    &step.system.attachments,
                    &mut step.system.dynamic_state,
                );
                step.system.composing_system.update_input(
                    ComposingSystemInput::from(step.system.attachments),
                );
                step.system.should_recreate_swapchain = false;
                Some(ImageAcquisition { system: step.system })
            },
            RecreateOutcome::UnsupportedDimensions => None,
        }
    }
}

/// The orchestrator while the platform acquires the swapchain's next image.
pub struct ImageAcquisition<'s> {
    system: &'s mut FrameSubsystem,
}

impl<'s> ImageAcquisition<'s> {
    /// The orchestrator that the step borrows.
    pub closed spec fn borrowed(&self) -> &mut FrameSubsystem {
        self.system
    }

    pub fn system(&self) -> (system: &FrameSubsystem)
        ensures
            *system == *self.borrowed(),
    {
        &*self.system
    }

    /// A step that is dropped leaves the orchestrator as the step held it.
    pub proof fn released(self)
        requires
            has_resolved(self),
        ensures
            *final(self.borrowed()) == *self.borrowed(),
    {
    }

    /// Takes the platform's answer. An image makes the frame, which waits
    /// for the retained handle joined with the image's acquisition; where the
    /// swapchain is suboptimal it is also marked, for the next frame. An
    /// out-of-date swapchain is marked and the frame skipped.
    pub fn acquired(self, outcome: AcquireOutcome) -> (frame: Option<Frame<'s>>)
        requires
            self.borrowed()@.wf(),
            outcome matches AcquireOutcome::Acquired { image_index, .. } ==> image_index
                < self.borrowed()@.swapchain.num_images,
        ensures
            match outcome {
                AcquireOutcome::Acquired { image_index, suboptimal } => {
                    &&& frame matches Some(frame)
                    &&& frame.wf()
                    &&& frame@ == FrameView::acquired(
                        self.borrowed()@.acquired(suboptimal),
                        image_index,
                    )
                    &&& *final(frame.borrowed()) == *final(self.borrowed())
                },
                AcquireOutcome::OutOfDate => {
                    &&& frame is None
                    &&& final(self.borrowed())@ == self.borrowed()@.invalidated()
                },
            },
    {
        let mut step = self;
        match outcome {
            AcquireOutcome::Acquired { image_index, suboptimal } => {
                if suboptimal {
                    step.system.should_recreate_swapchain = true;
                }
                Some(Frame::new(step.system, image_index))
            },
            AcquireOutcome::OutOfDate => {
                step.system.should_recreate_swapchain = true;
                None
            },
        }
    }
}

} // verus!
