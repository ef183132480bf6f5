use embercore_client_lib::rendering::composing_subsystem::ComposingSystemInput;
use embercore_client_lib::rendering::frame_subsystem::frame::{Frame, FrameState};
use embercore_client_lib::rendering::frame_subsystem::{Acquisition, FrameSubsystem};
use embercore_client_lib::rendering::framebuffer::{
    Attachments, DynamicState, Framebuffer, RenderPass, Subpass, Viewport, DRAW_SUBPASS,
};
use embercore_client_lib::rendering::swapchain::{
    AcquireOutcome, Dimensions, RecreateOutcome, Swapchain, SwapchainImage,
};

fn acquire_on<'s>(
    system: &'s mut FrameSubsystem,
    recreation: RecreateOutcome,
    acquisition: AcquireOutcome,
) -> Option<Frame<'s>> {
    let step = match system.frame() {
        Acquisition::Recreate(step) => step.recreated(recreation)?,
        Acquisition::Acquire(step) => step,
    };
    step.acquired(acquisition)
}

fn assert_one_generation(system: &FrameSubsystem) {
    let swapchain = *system.swapchain();
    let attachments = *system.attachments();
    assert_eq!(system.framebuffers().len(), swapchain.num_images);
    for (index, framebuffer) in system.framebuffers().iter().enumerate() {
        assert_eq!(
            *framebuffer,
            Framebuffer {
                final_color: SwapchainImage { generation: swapchain.generation, index },
                diffuse: attachments.diffuse,
                depth: attachments.depth,
            }
        );
    }
    assert_eq!(attachments, Attachments::new(swapchain.generation, swapchain.dimensions));
    assert_eq!(system.attachment_set_dimensions(), swapchain.dimensions);
    assert_eq!(
        *system.dynamic_state(),
        DynamicState { viewport: Some(Viewport { dimensions: swapchain.dimensions }) }
    );
    assert_eq!(
        system.composing_system().descriptor_set,
        ComposingSystemInput::from(attachments).create_descriptor_set()
    );
}

#[test]
fn a_new_orchestrator_is_unmarked_and_waits_for_nothing() {
    let system = FrameSubsystem::new(3, Dimensions::new(1024, 768));
    assert!(!system.should_recreate_swapchain());
    assert!(system.frame_future().is_now());
    assert_eq!(system.frame_future().chained(), 0);
    assert_eq!(
        *system.swapchain(),
        Swapchain { generation: 0, num_images: 3, dimensions: Dimensions::new(1024, 768) }
    );
    assert_one_generation(&system);
}

#[test]
fn the_orchestrator_is_built_on_the_deferred_render_pass() {
    let system = FrameSubsystem::new(3, Dimensions::new(1024, 768));
    let render_pass = RenderPass::deferred();
    assert_eq!(system.deferred_subpass().render_pass, render_pass);
    assert_eq!(system.deferred_subpass().description(), Some(render_pass.draw));
    assert_eq!(system.composing_system().subpass.render_pass, render_pass);
    assert_eq!(system.composing_system().subpass.description(), Some(render_pass.compose));
    assert_eq!(system.composing_system().descriptor_set.diffuse, system.attachments().diffuse);
    assert_eq!(system.composing_system().descriptor_set.depth, system.attachments().depth);
}

#[test]
fn the_draw_subpass_is_the_first_of_the_render_pass() {
    let system = FrameSubsystem::new(3, Dimensions::new(1024, 768));
    assert_eq!(
        system.deferred_subpass(),
        Subpass { render_pass: RenderPass::deferred(), index: DRAW_SUBPASS }
    );
    assert_eq!(system.composing_system().subpass.index, 1);
}

#[test]
fn invalidation_only_marks() {
    let mut system = FrameSubsystem::new(3, Dimensions::new(1024, 768));
    let swapchain = *system.swapchain();
    let framebuffers = system.framebuffers().clone();
    system.invalidate_swapchain();
    system.invalidate_swapchain();
    assert!(system.should_recreate_swapchain());
    assert_eq!(*system.swapchain(), swapchain);
    assert_eq!(*system.framebuffers(), framebuffers);
}

#[test]
fn an_unmarked_swapchain_is_not_recreated() {
    let mut system = FrameSubsystem::new(3, Dimensions::new(1024, 768));
    assert!(matches!(system.frame(), Acquisition::Acquire(_)));
    assert_eq!(system.swapchain().generation, 0);
}

#[test]
fn a_marked_swapchain_is_recreated_first() {
    let mut system = FrameSubsystem::new(3, Dimensions::new(1024, 768));
    system.invalidate_swapchain();
    assert!(matches!(system.frame(), Acquisition::Recreate(_)));
    assert!(system.should_recreate_swapchain());
}

#[test]
fn after_resizes_the_next_frame_finds_everything_resized() {
    let mut system = FrameSubsystem::new(3, Dimensions::new(1024, 768));
    for _ in 0..4 {
        system.invalidate_swapchain();
    }
    let frame = acquire_on(
        &mut system,
        RecreateOutcome::Recreated { num_images: 2, dimensions: Dimensions::new(1280, 720) },
        AcquireOutcome::Acquired { image_index: 1, suboptimal: false },
    )
    .expect("the frame is acquired");
    assert_eq!(frame.state(), FrameState::Draw);
    assert_eq!(frame.swapchain_image_index(), 1);
    assert_eq!(frame.system().framebuffers().len(), 2);
    assert_eq!(frame.system().attachment_set_dimensions(), Dimensions::new(1280, 720));
    assert_eq!(
        *frame.system().swapchain(),
        Swapchain { generation: 1, num_images: 2, dimensions: Dimensions::new(1280, 720) }
    );
    assert!(!frame.system().should_recreate_swapchain());
    assert_one_generation(frame.system());
    drop(frame);
    assert_one_generation(&system);
}

#[test]
fn a_recreation_at_the_same_size_still_replaces_everything() {
    let dimensions = Dimensions::new(1024, 768);
    let mut system = FrameSubsystem::new(3, dimensions);
    let attachments = *system.attachments();
    let framebuffers = system.framebuffers().clone();
    let bound = system.composing_system().descriptor_set;
    system.invalidate_swapchain();
    let frame = acquire_on(
        &mut system,
        RecreateOutcome::Recreated { num_images: 3, dimensions },
        AcquireOutcome::Acquired { image_index: 0, suboptimal: false },
    );
    assert!(frame.is_some());
    drop(frame);
    assert_eq!(system.attachment_set_dimensions(), dimensions);
    assert_ne!(*system.attachments(), attachments);
    assert_eq!(system.attachments().diffuse.generation, 1);
    assert_eq!(system.attachments().depth.generation, 1);
    assert_eq!(system.framebuffers().len(), framebuffers.len());
    for (new, old) in system.framebuffers().iter().zip(framebuffers.iter()) {
        assert_ne!(new, old);
    }
    assert_ne!(system.composing_system().descriptor_set, bound);
    assert_one_generation(&system);
}

#[test]
fn every_recreation_is_a_new_generation() {
    let mut system = FrameSubsystem::new(2, Dimensions::new(100, 100));
    for generation in 1..6u64 {
        system.invalidate_swapchain();
        let dimensions = Dimensions::new(100 + generation as u32, 100);
        let frame = acquire_on(
            &mut system,
            RecreateOutcome::Recreated { num_images: 2 + generation as usize, dimensions },
            AcquireOutcome::Acquired { image_index: 0, suboptimal: false },
        );
        assert!(frame.is_some());
        drop(frame);
        assert_eq!(system.swapchain().generation, generation);
        assert_eq!(system.framebuffers().len(), 2 + generation as usize);
        assert_one_generation(&system);
    }
}

#[test]
fn unsupported_dimensions_leave_the_old_generation_standing() {
    let mut system = FrameSubsystem::new(3, Dimensions::new(1024, 768));
    system.invalidate_swapchain();
    let swapchain = *system.swapchain();
    let attachments = *system.attachments();
    let framebuffers = system.framebuffers().clone();
    let composing_system = *system.composing_system();
    let frame = acquire_on(
        &mut system,
        RecreateOutcome::UnsupportedDimensions,
        AcquireOutcome::Acquired { image_index: 0, suboptimal: false },
    );
    assert!(frame.is_none());
    drop(frame);
    assert!(system.should_recreate_swapchain());
    assert_eq!(*system.swapchain(), swapchain);
    assert_eq!(*system.attachments(), attachments);
    assert_eq!(*system.framebuffers(), framebuffers);
    assert_eq!(*system.composing_system(), composing_system);
    assert!(system.frame_future().is_now());
    assert!(matches!(system.frame(), Acquisition::Recreate(_)));
}

#[test]
fn a_frame_is_acquired_once_the_surface_is_usable_again() {
    let mut system = FrameSubsystem::new(3, Dimensions::new(1024, 768));
    system.invalidate_swapchain();
    for _ in 0..3 {
        let skipped = acquire_on(
            &mut system,
            RecreateOutcome::UnsupportedDimensions,
            AcquireOutcome::OutOfDate,
        );
        assert!(skipped.is_none());
    }
    let frame = acquire_on(
        &mut system,
        RecreateOutcome::Recreated { num_images: 3, dimensions: Dimensions::new(512, 384) },
        AcquireOutcome::Acquired { image_index: 2, suboptimal: false },
    );
    assert!(frame.is_some());
    drop(frame);
    assert_eq!(system.swapchain().generation, 1);
    assert_eq!(system.attachment_set_dimensions(), Dimensions::new(512, 384));
}

#[test]
fn out_of_date_at_acquisition_marks_and_skips() {
    let mut system = FrameSubsystem::new(3, Dimensions::new(1024, 768));
    let swapchain = *system.swapchain();
    let frame = acquire_on(
        &mut system,
        RecreateOutcome::UnsupportedDimensions,
        AcquireOutcome::OutOfDate,
    );
    assert!(frame.is_none());
    drop(frame);
    assert!(system.should_recreate_swapchain());
    assert_eq!(*system.swapchain(), swapchain);
    assert_one_generation(&system);
}

#[test]
fn out_of_date_right_after_recreation_marks_again() {
    let mut system = FrameSubsystem::new(3, Dimensions::new(1024, 768));
    system.invalidate_swapchain();
    let frame = acquire_on(
        &mut system,
        RecreateOutcome::Recreated { num_images: 3, dimensions: Dimensions::new(640, 480) },
        AcquireOutcome::OutOfDate,
    );
    assert!(frame.is_none());
    drop(frame);
    assert!(system.should_recreate_swapchain());
    assert_eq!(system.swapchain().generation, 1);
    assert_eq!(system.attachment_set_dimensions(), Dimensions::new(640, 480));
}

#[test]
fn a_suboptimal_swapchain_serves_this_frame_and_is_marked() {
    let mut system = FrameSubsystem::new(3, Dimensions::new(1024, 768));
    let frame = acquire_on(
        &mut system,
        RecreateOutcome::UnsupportedDimensions,
        AcquireOutcome::Acquired { image_index: 0, suboptimal: true },
    )
    .expect("a suboptimal image is still a frame");
    assert!(frame.system().should_recreate_swapchain());
    assert_eq!(frame.system().swapchain().generation, 0);
    drop(frame);
    assert!(matches!(system.frame(), Acquisition::Recreate(_)));
}

#[test]
fn the_frame_waits_for_the_retained_handle_and_its_image() {
    let mut system = FrameSubsystem::new(3, Dimensions::new(1024, 768));
    let frame = acquire_on(
        &mut system,
        RecreateOutcome::UnsupportedDimensions,
        AcquireOutcome::Acquired { image_index: 2, suboptimal: false },
    )
    .expect("the frame is acquired");
    let wait = frame.wait_dependency();
    assert!(wait.previous.is_now());
    assert_eq!(wait.acquired, SwapchainImage { generation: 0, index: 2 });
}
