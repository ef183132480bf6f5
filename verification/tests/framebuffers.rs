use embercore_client_lib::rendering::framebuffer::{
    create_framebuffers, AttachmentDescription, AttachmentFormat, AttachmentSlot, Attachments,
    DynamicState, Format, Framebuffer, LoadOp, RenderPass, StoreOp, Subpass, SubpassDescription,
    Viewport, COMPOSE_SUBPASS, DRAW_SUBPASS,
};
use embercore_client_lib::rendering::swapchain::{Dimensions, Swapchain, SwapchainImage};

#[test]
fn attachments_have_the_requested_size_and_fixed_formats() {
    let dimensions = Dimensions::new(1280, 720);
    let attachments = Attachments::new(0, dimensions);
    assert_eq!(attachments.diffuse.dimensions, dimensions);
    assert_eq!(attachments.depth.dimensions, dimensions);
    assert_eq!(attachments.diffuse.format, Format::A2B10G10R10UnormPack32);
    assert_eq!(attachments.depth.format, Format::D24Unorm_S8Uint);
    assert_eq!(attachments.dimensions(), dimensions);
}

#[test]
fn attachments_of_another_size_or_generation_are_another_set() {
    let dimensions = Dimensions::new(1, 1);
    assert_ne!(Attachments::new(0, dimensions), Attachments::new(0, Dimensions::new(1, 2)));
    assert_ne!(Attachments::new(0, dimensions), Attachments::new(1, dimensions));
    assert_eq!(Attachments::new(7, dimensions).diffuse.generation, 7);
    assert_eq!(Attachments::new(7, dimensions).depth.generation, 7);
}

#[test]
fn one_framebuffer_for_each_image_in_slot_order() {
    let dimensions = Dimensions::new(800, 600);
    let swapchain = Swapchain::new(3, dimensions);
    let attachments = Attachments::new(0, dimensions);
    let mut dynamic_state = DynamicState::none();
    let framebuffers =
        create_framebuffers(dimensions, swapchain.images(), &attachments, &mut dynamic_state);
    assert_eq!(framebuffers.len(), 3);
    for (index, framebuffer) in framebuffers.iter().enumerate() {
        assert_eq!(
            *framebuffer,
            Framebuffer {
                final_color: SwapchainImage { generation: 0, index },
                diffuse: attachments.diffuse,
                depth: attachments.depth,
            }
        );
    }
    assert_eq!(dynamic_state, DynamicState { viewport: Some(Viewport { dimensions }) });
}

#[test]
fn no_image_no_framebuffer_but_the_viewport_is_set() {
    let dimensions = Dimensions::new(16, 9);
    let mut dynamic_state = DynamicState::none();
    let framebuffers =
        create_framebuffers(dimensions, Vec::new(), &Attachments::new(0, dimensions), &mut dynamic_state);
    assert!(framebuffers.is_empty());
    assert_eq!(dynamic_state.viewport, Some(Viewport { dimensions }));
}

#[test]
fn dynamic_state_starts_without_viewport() {
    assert_eq!(DynamicState::none().viewport, None);
}

#[test]
fn the_render_pass_has_a_draw_and_a_compose_subpass() {
    let render_pass = RenderPass::deferred();
    assert_eq!(render_pass.num_subpasses(), 2);
    assert_eq!(
        Subpass::from(render_pass, DRAW_SUBPASS),
        Some(Subpass { render_pass, index: 0 })
    );
    assert_eq!(
        Subpass::from(render_pass, COMPOSE_SUBPASS),
        Some(Subpass { render_pass, index: 1 })
    );
    assert_eq!(Subpass::from(render_pass, 2), None);
}

#[test]
fn the_draw_subpass_writes_the_attachments_and_reads_nothing() {
    let render_pass = RenderPass::deferred();
    let draw = SubpassDescription {
        color: AttachmentSlot::Diffuse,
        depth_stencil: Some(AttachmentSlot::Depth),
        color_input: None,
        depth_input: None,
    };
    assert_eq!(render_pass.draw, draw);
    assert_eq!(render_pass.subpass(DRAW_SUBPASS), Some(draw));
    assert_eq!(Subpass::from(render_pass, DRAW_SUBPASS).unwrap().description(), Some(draw));
}

#[test]
fn the_compose_subpass_reads_colour_and_depth_and_writes_the_final_colour() {
    let render_pass = RenderPass::deferred();
    let compose = SubpassDescription {
        color: AttachmentSlot::FinalColor,
        depth_stencil: None,
        color_input: Some(AttachmentSlot::Diffuse),
        depth_input: Some(AttachmentSlot::Depth),
    };
    assert_eq!(render_pass.compose, compose);
    assert_eq!(render_pass.subpass(COMPOSE_SUBPASS), Some(compose));
    assert_eq!(Subpass::from(render_pass, COMPOSE_SUBPASS).unwrap().description(), Some(compose));
    assert_eq!(render_pass.subpass(2), None);
    assert_eq!(Subpass { render_pass, index: 2 }.description(), None);
}

#[test]
fn every_attachment_is_cleared_and_only_the_final_colour_is_stored() {
    let render_pass = RenderPass::deferred();
    assert_eq!(
        render_pass.attachment(AttachmentSlot::FinalColor),
        AttachmentDescription {
            format: AttachmentFormat::OfSwapchain,
            load: LoadOp::Clear,
            store: StoreOp::Store,
            samples: 1,
        }
    );
    assert_eq!(
        render_pass.attachment(AttachmentSlot::Diffuse),
        AttachmentDescription {
            format: AttachmentFormat::Fixed(Format::A2B10G10R10UnormPack32),
            load: LoadOp::Clear,
            store: StoreOp::DontCare,
            samples: 1,
        }
    );
    assert_eq!(
        render_pass.attachment(AttachmentSlot::Depth),
        AttachmentDescription {
            format: AttachmentFormat::Fixed(Format::D24Unorm_S8Uint),
            load: LoadOp::Clear,
            store: StoreOp::DontCare,
            samples: 1,
        }
    );
}
